use crate::bits::{double_bits_eq, double_bits_equal, single_bits_eq, single_bits_equal};
use crate::datetime::UtcDateTime;
use vstd::std_specs::cmp::PartialEqSpecImpl;
use vstd::prelude::*;
use vstd::string::StringExecFns;

verus! {

/// A single parameter to be bound to a parameterized query.
///
/// Floating-point parameters are carried as their IEEE-754 bit patterns
/// (`f32::to_bits` / `f64::to_bits`), so that they pass through unchanged.
#[derive(Debug)]
pub enum QueryParameter {
    Bool(bool),
    DateTime(UtcDateTime),
    I8(i8),
    I16(i16),
    I32(i32),
    I64(i64),
    F32(u32),
    F64(u64),
    Str(String),
}

/// Whether two parameters are equal: same kind and equal values, floating-point values
/// compared as values (NaN equals nothing, the two zeros are equal).
pub open spec fn parameters_eq(a: QueryParameter, b: QueryParameter) -> bool {
    match (a, b) {
        (QueryParameter::Bool(x), QueryParameter::Bool(y)) => x == y,
        (QueryParameter::DateTime(x), QueryParameter::DateTime(y)) => x == y,
        (QueryParameter::I8(x), QueryParameter::I8(y)) => x == y,
        (QueryParameter::I16(x), QueryParameter::I16(y)) => x == y,
        (QueryParameter::I32(x), QueryParameter::I32(y)) => x == y,
        (QueryParameter::I64(x), QueryParameter::I64(y)) => x == y,
        (QueryParameter::F32(x), QueryParameter::F32(y)) => single_bits_eq(x, y),
        (QueryParameter::F64(x), QueryParameter::F64(y)) => double_bits_eq(x, y),
        (QueryParameter::Str(x), QueryParameter::Str(y)) => x@ == y@,
        _ => false,
    }
}

impl PartialEq for QueryParameter {
    fn eq(&self, other: &Self) -> (r: bool) {
        match (self, other) {
            (QueryParameter::Bool(x), QueryParameter::Bool(y)) => *x == *y,
            (QueryParameter::DateTime(x), QueryParameter::DateTime(y)) => *x == *y,
            (QueryParameter::I8(x), QueryParameter::I8(y)) => *x == *y,
            (QueryParameter::I16(x), QueryParameter::I16(y)) => *x == *y,
            (QueryParameter::I32(x), QueryParameter::I32(y)) => *x == *y,
            (QueryParameter::I64(x), QueryParameter::I64(y)) => *x == *y,
            (QueryParameter::F32(x), QueryParameter::F32(y)) => single_bits_equal(*x, *y),
            (QueryParameter::F64(x), QueryParameter::F64(y)) => double_bits_equal(*x, *y),
            (QueryParameter::Str(x), QueryParameter::Str(y)) => *x == *y,
            _ => false,
        }
    }
}

impl PartialEqSpecImpl for QueryParameter {
    open spec fn obeys_eq_spec() -> bool {
        true
    }

    open spec fn eq_spec(&self, other: &Self) -> bool {
        parameters_eq(*self, *other)
    }
}

impl Clone for QueryParameter {
    /// A copy of this parameter, equal to it.
    fn clone(&self) -> (p: QueryParameter)
        ensures
            p == *self,
    {
        match self {
            QueryParameter::Bool(v) => QueryParameter::Bool(*v),
            QueryParameter::DateTime(v) => QueryParameter::DateTime(*v),
            QueryParameter::I8(v) => QueryParameter::I8(*v),
            QueryParameter::I16(v) => QueryParameter::I16(*v),
            QueryParameter::I32(v) => QueryParameter::I32(*v),
            QueryParameter::I64(v) => QueryParameter::I64(*v),
            QueryParameter::F32(v) => QueryParameter::F32(*v),
            QueryParameter::F64(v) => QueryParameter::F64(*v),
            QueryParameter::Str(v) => QueryParameter::Str(v.clone()),
        }
    }
}

/// The abstract content of a [`ParameterizedQuery`]: its statement text and the
/// parameters bound so far, in placeholder order.
pub struct QueryView {
    pub statement: Seq<char>,
    pub bindings: Seq<QueryParameter>,
}

/// A parameterized SQL query with its bound values.
///
/// The statement uses sequential placeholders (`$1`, `$2`, ...) matching the order of
/// [`bind`](Self::bind) calls. Bindings beyond the highest placeholder number are
/// ignored: only [`bindings_sent`](crate::placeholders::bindings_sent) are sent.
#[derive(Debug)]
pub struct ParameterizedQuery {
    /// The SQL statement with sequential `$N` placeholders.
    pub statement: String,
    /// The values to bind, in placeholder order.
    pub bindings: Vec<QueryParameter>,
}

impl View for ParameterizedQuery {
    type V = QueryView;

    open spec fn view(&self) -> QueryView {
        QueryView { statement: self.statement@, bindings: self.bindings@ }
    }
}

impl ParameterizedQuery {
    /// Creates a query from a SQL statement, with nothing bound yet.
    pub fn new(query_statement: &str) -> (q: ParameterizedQuery)
        ensures
            q@.statement == query_statement@,
            q@.bindings == Seq::<QueryParameter>::empty(),
    {
        ParameterizedQuery { statement: String::from_str(query_statement), bindings: Vec::new() }
    }

    /// Binds a parameter to the next placeholder.
    pub fn bind(&mut self, parameter: QueryParameter)
        ensures
            final(self)@.statement == old(self)@.statement,
            final(self)@.bindings == old(self)@.bindings.push(parameter),
    {
        self.bindings.push(parameter);
    }
}

/// Whether two queries are equal: the same statement text and pairwise equal bindings.
pub open spec fn queries_eq(a: ParameterizedQuery, b: ParameterizedQuery) -> bool {
    &&& a.statement@ == b.statement@
    &&& a.bindings@.len() == b.bindings@.len()
    &&& forall|i: int|
        0 <= i < a.bindings@.len() ==> #[trigger] parameters_eq(a.bindings@[i], b.bindings@[i])
}

impl PartialEq for ParameterizedQuery {
    fn eq(&self, other: &Self) -> (r: bool) {
        if self.statement != other.statement || self.bindings.len() != other.bindings.len() {
            return false;
        }
        let n = self.bindings.len();
        for i in 0..n
            invariant
                n == self.bindings@.len(),
                n == other.bindings@.len(),
                forall|j: int|
                    0 <= j < i ==> #[trigger] parameters_eq(self.bindings@[j], other.bindings@[j]),
        {
            if !(self.bindings[i] == other.bindings[i]) {
                return false;
            }
        }
        true
    }
}

impl PartialEqSpecImpl for ParameterizedQuery {
    open spec fn obeys_eq_spec() -> bool {
        true
    }

    open spec fn eq_spec(&self, other: &Self) -> bool {
        queries_eq(*self, *other)
    }
}

impl Clone for ParameterizedQuery {
    /// A copy of this query, with the same statement and bindings.
    fn clone(&self) -> (q: ParameterizedQuery)
        ensures
            q@ == self@,
    {
        let mut bindings: Vec<QueryParameter> = Vec::new();
        let n = self.bindings.len();
        for i in 0..n
            invariant
                n == self.bindings@.len(),
                bindings@ == self.bindings@.take(i as int),
        {
            let p = self.bindings[i].clone();
            bindings.push(p);
            assert(bindings@ =~= self.bindings@.take(i + 1));
        }
        assert(bindings@ =~= self.bindings@);
        ParameterizedQuery { statement: self.statement.clone(), bindings }
    }
}

/// Copies a batch of queries, each equal in content to the original.
pub(crate) fn clone_queries(queries: &Vec<ParameterizedQuery>) -> (r: Vec<ParameterizedQuery>)
    ensures
        r@.len() == queries@.len(),
        forall|i: int| 0 <= i < r@.len() ==> #[trigger] r@[i]@ == queries@[i]@,
{
    let mut r: Vec<ParameterizedQuery> = Vec::new();
    let n = queries.len();
    for i in 0..n
        invariant
            n == queries@.len(),
            r@.len() == i,
            forall|j: int| 0 <= j < i ==> #[trigger] r@[j]@ == queries@[j]@,
    {
        r.push(queries[i].clone());
    }
    r
}

/// Whether a parameter holds neither a floating-point value nor text: such parameters
/// are equal exactly when they are the same value.
pub open spec fn is_plain_parameter(p: QueryParameter) -> bool {
    !(p is F32) && !(p is F64) && !(p is Str)
}

/// What `==` on parameters means: parameters of different kinds are never equal;
/// booleans, integers and instants are equal exactly when they are the same value (an
/// instant by its seconds and its nanoseconds both); texts are equal exactly when they
/// hold the same characters; a floating-point value equals another only if their bit
/// patterns agree or both are zeros, and a value that is not NaN equals itself.
pub proof fn law_parameter_equality(a: QueryParameter, b: QueryParameter)
    ensures
        is_plain_parameter(a) ==> (parameters_eq(a, b) <==> a == b),
        a matches QueryParameter::DateTime(x) ==> (b matches QueryParameter::DateTime(y) ==> (
        parameters_eq(a, b) <==> (x.secs == y.secs && x.nanos == y.nanos))),
        a matches QueryParameter::Str(x) ==> (parameters_eq(a, b) <==> (b matches QueryParameter::Str(
            y,
        ) && x@ == y@)),
        a matches QueryParameter::F32(x) ==> (parameters_eq(a, b) ==> (b matches QueryParameter::F32(
            y,
        ) && (x == y || (x & 0x7fff_ffffu32 == 0 && y & 0x7fff_ffffu32 == 0)))),
        a matches QueryParameter::F32(x) ==> ((x & 0x7f80_0000u32 != 0x7f80_0000u32 || x
            & 0x007f_ffffu32 == 0) ==> parameters_eq(a, a)),
        a matches QueryParameter::F64(x) ==> (parameters_eq(a, b) ==> (b matches QueryParameter::F64(
            y,
        ) && (x == y || (x & 0x7fff_ffff_ffff_ffffu64 == 0 && y & 0x7fff_ffff_ffff_ffffu64 == 0)))),
        a matches QueryParameter::F64(x) ==> ((x & 0x7ff0_0000_0000_0000u64
            != 0x7ff0_0000_0000_0000u64 || x & 0x000f_ffff_ffff_ffffu64 == 0) ==> parameters_eq(
            a,
            a,
        )),
        (a is Bool) != (b is Bool) || (a is I32) != (b is I32) || (a is DateTime) != (
        b is DateTime) ==> !parameters_eq(a, b),
        a matches QueryParameter::F32(x) ==> (x & 0x7f80_0000u32 == 0x7f80_0000u32 && x
            & 0x007f_ffffu32 != 0 ==> !parameters_eq(a, b)),
        a matches QueryParameter::F32(x) ==> (b matches QueryParameter::F32(y) ==> (x
            & 0x7fff_ffffu32 == 0 && y & 0x7fff_ffffu32 == 0 ==> parameters_eq(a, b))),
        a matches QueryParameter::F64(x) ==> (x & 0x7ff0_0000_0000_0000u64
            == 0x7ff0_0000_0000_0000u64 && x & 0x000f_ffff_ffff_ffffu64 != 0 ==> !parameters_eq(
            a,
            b,
        )),
        a matches QueryParameter::F64(x) ==> (b matches QueryParameter::F64(y) ==> (x
            & 0x7fff_ffff_ffff_ffffu64 == 0 && y & 0x7fff_ffff_ffff_ffffu64 == 0 ==> parameters_eq(
            a,
            b,
        ))),
{
    if let QueryParameter::F32(x) = a {
        assert(x & 0x7fff_ffffu32 == 0 ==> x & 0x7f80_0000u32 != 0x7f80_0000u32) by (bit_vector);
    }
    if let QueryParameter::F32(y) = b {
        assert(y & 0x7fff_ffffu32 == 0 ==> y & 0x7f80_0000u32 != 0x7f80_0000u32) by (bit_vector);
    }
    if let QueryParameter::F64(x) = a {
        assert(x & 0x7fff_ffff_ffff_ffffu64 == 0 ==> x & 0x7ff0_0000_0000_0000u64
            != 0x7ff0_0000_0000_0000u64) by (bit_vector);
    }
    if let QueryParameter::F64(y) = b {
        assert(y & 0x7fff_ffff_ffff_ffffu64 == 0 ==> y & 0x7ff0_0000_0000_0000u64
            != 0x7ff0_0000_0000_0000u64) by (bit_vector);
    }
    if let (QueryParameter::DateTime(x), QueryParameter::DateTime(y)) = (a, b) {
        if x.secs == y.secs && x.nanos == y.nanos {
            assert(x == UtcDateTime { secs: x.secs, nanos: x.nanos });
            assert(y == UtcDateTime { secs: y.secs, nanos: y.nanos });
        }
    }
}

/// What `==` on queries means: two queries are equal exactly when their statements hold
/// the same text, they have as many bindings, and the bindings are equal at every
/// position; queries whose bindings are all plain are equal exactly when they hold the
/// same statement and the same bindings.
pub proof fn law_query_equality(a: ParameterizedQuery, b: ParameterizedQuery)
    ensures
        queries_eq(a, b) <==> (a.statement@ == b.statement@ && a.bindings@.len()
            == b.bindings@.len() && forall|i: int|
            0 <= i < a.bindings@.len() ==> #[trigger] parameters_eq(
                a.bindings@[i],
                b.bindings@[i],
            )),
        queries_eq(a, b) ==> forall|i: int|
            0 <= i < a.bindings@.len() && is_plain_parameter(a.bindings@[i]) ==> #[trigger] a.bindings@[i]
                == b.bindings@[i],
        (forall|i: int| 0 <= i < a.bindings@.len() ==> is_plain_parameter(#[trigger] a.bindings@[i]))
            ==> (queries_eq(a, b) <==> (a.statement@ == b.statement@ && a.bindings@
            == b.bindings@)),
{
    if forall|i: int| 0 <= i < a.bindings@.len() ==> is_plain_parameter(#[trigger] a.bindings@[i]) {
        if queries_eq(a, b) {
            assert forall|i: int| 0 <= i < a.bindings@.len() implies a.bindings@[i] == b.bindings@[i] by {
                law_parameter_equality(a.bindings@[i], b.bindings@[i]);
            }
            assert(a.bindings@ =~= b.bindings@);
        }
        if a.statement@ == b.statement@ && a.bindings@ == b.bindings@ {
            assert forall|i: int| 0 <= i < a.bindings@.len() implies #[trigger] parameters_eq(
                a.bindings@[i],
                b.bindings@[i],
            ) by {
                law_parameter_equality(a.bindings@[i], b.bindings@[i]);
            }
        }
    }
    assert forall|i: int|
        0 <= i < a.bindings@.len() && is_plain_parameter(a.bindings@[i]) && queries_eq(
            a,
            b,
        ) implies #[trigger] a.bindings@[i] == b.bindings@[i] by {
        law_parameter_equality(a.bindings@[i], b.bindings@[i]);
    }
}

} // verus!
