//! Doubles of the library's abstractions for unit tests of code that uses them.
use crate::bits::{double_bits_eq, double_bits_equal, single_bits_eq, single_bits_equal};
use crate::datetime::UtcDateTime;
use crate::error::DataStoreError;
use crate::query::{clone_queries, ParameterizedQuery, QueryView};
use crate::row::DataRow;
use vstd::prelude::*;
use vstd::std_specs::cmp::PartialEqSpecImpl;
use vstd::string::StringExecFns;

verus! {

/// The description of the error every double reports: the name of [`TestError`].
pub open spec fn test_error_details() -> Seq<char> {
    "TestError"@
}

/// The message shown for a [`TestError`].
pub open spec fn test_error_message() -> Seq<char> {
    "TestError!"@
}

/// A stand-in error for test cases.
#[derive(Debug)]
pub struct TestError;

impl TestError {
    /// The message shown for this error: `TestError!`.
    pub fn to_string(&self) -> (s: String)
        ensures
            s@ == test_error_message(),
            s@ == "TestError!"@,
    {
        String::from_str("TestError!")
    }
}

/// The error a double reports for a value it was not given.
fn generate_error() -> (e: DataStoreError)
    ensures
        e.details@ == test_error_details(),
{
    DataStoreError { details: String::from_str("TestError") }
}

/// What decoding a non-null column holding `op` gives: its value, or the test error.
pub open spec fn decoded<V>(op: Option<V>) -> Result<V, Seq<char>> {
    match op {
        Some(v) => Ok(v),
        None => Err(test_error_details()),
    }
}

/// What decoding a nullable column holding `op` gives: the value or `None` when the
/// column is nullable or populated, the test error otherwise.
pub open spec fn decoded_optional<V>(is_nullable: bool, op: Option<V>) -> Result<Option<V>, Seq<char>> {
    if is_nullable || op is Some {
        Ok(op)
    } else {
        Err(test_error_details())
    }
}

/// The abstract form of a decoding result: the error replaced by its description.
pub open spec fn result_view<V>(r: Result<V, DataStoreError>) -> Result<V, Seq<char>> {
    match r {
        Ok(v) => Ok(v),
        Err(e) => Err(e.details@),
    }
}

fn translate<V>(op: Option<V>) -> (r: Result<V, DataStoreError>)
    ensures
        result_view(r) == decoded(op),
{
    match op {
        Some(v) => Ok(v),
        None => Err(generate_error()),
    }
}

fn translate_optional<V>(is_nullable: bool, op: Option<V>) -> (r: Result<Option<V>, DataStoreError>)
    ensures
        result_view(r) == decoded_optional(is_nullable, op),
{
    if is_nullable || op.is_some() {
        Ok(op)
    } else {
        Err(generate_error())
    }
}

/// A column value that can be configured to return mock data.
///
/// Each decoding method reads the field of its type. A plain method returns the value
/// when the field is populated and a [`TestError`] otherwise. A method ending in
/// `_optional` returns the value when the field is populated; otherwise it returns
/// `None` when [`is_nullable`](Self::is_nullable) is set, and a [`TestError`] when not.
///
/// Floating-point fields hold IEEE-754 bit patterns (`f32::to_bits`, `f64::to_bits`).
#[derive(Debug)]
pub struct TestVal {
    pub is_nullable: bool,
    pub test_bool: Option<bool>,
    pub test_datetime: Option<UtcDateTime>,
    pub test_i8: Option<i8>,
    pub test_i16: Option<i16>,
    pub test_i32: Option<i32>,
    pub test_i64: Option<i64>,
    pub test_f32: Option<u32>,
    pub test_f64: Option<u64>,
    pub test_string: Option<String>,
}

/// Whether `v` is the value with every field empty and nulls allowed.
pub open spec fn is_blank(v: TestVal) -> bool {
    &&& v.is_nullable
    &&& v.test_bool is None
    &&& v.test_datetime is None
    &&& v.test_i8 is None
    &&& v.test_i16 is None
    &&& v.test_i32 is None
    &&& v.test_i64 is None
    &&& v.test_f32 is None
    &&& v.test_f64 is None
    &&& v.test_string is None
}

/// Two values with every field empty and nulls allowed are the same value; in
/// particular [`TestVal::default`] and [`TestVal::new`] give the same value.
pub proof fn law_blank_values_are_equal(a: TestVal, b: TestVal)
    requires
        is_blank(a),
        is_blank(b),
    ensures
        a == b,
{
}

/// Decoding gives back what a field holds: a populated field decodes to its value, both
/// plainly and optionally; an empty field is an error named after [`TestError`] for the
/// plain methods, and for the `_optional` methods `None` when the value is nullable and
/// that error when it is not.
pub proof fn law_decoding<V>(is_nullable: bool, v: V)
    ensures
        decoded(Some(v)) == Ok::<V, Seq<char>>(v),
        decoded_optional(is_nullable, Some(v)) == Ok::<Option<V>, Seq<char>>(Some(v)),
        decoded(None::<V>) == Err::<V, Seq<char>>("TestError"@),
        decoded_optional(true, None::<V>) == Ok::<Option<V>, Seq<char>>(None),
        decoded_optional(false, None::<V>) == Err::<Option<V>, Seq<char>>("TestError"@),
{
}

/// The plain and the `_optional` decoding of a field agree: a populated field decodes
/// to its value both ways; an empty one is an error for the plain method and, for the
/// `_optional` method, `None` exactly when the value is nullable.
pub proof fn law_optional_agrees_with_plain<V>(is_nullable: bool, op: Option<V>)
    ensures
        decoded(op) matches Ok(v) ==> decoded_optional(is_nullable, op) == Ok::<
            Option<V>,
            Seq<char>,
        >(Some(v)),
        decoded(op) is Err ==> decoded(op) == Err::<V, Seq<char>>(test_error_details()),
        decoded(op) is Err ==> (decoded_optional(is_nullable, op) is Ok <==> is_nullable),
        decoded(op) is Err && is_nullable ==> decoded_optional(is_nullable, op) == Ok::<
            Option<V>,
            Seq<char>,
        >(None),
{
}

impl TestVal {
    /// A value with every field set to `None`, nullable.
    pub fn new() -> (v: TestVal)
        ensures
            is_blank(v),
    {
        TestVal {
            is_nullable: true,
            test_bool: None,
            test_datetime: None,
            test_f32: None,
            test_f64: None,
            test_i16: None,
            test_i32: None,
            test_i64: None,
            test_i8: None,
            test_string: None,
        }
    }

    /// Decodes the value as a non-null `bool`.
    pub fn to_bool(self) -> (r: Result<bool, DataStoreError>)
        ensures
            result_view(r) == decoded(self.test_bool),
    {
        translate(self.test_bool)
    }

    /// Decodes the value as a nullable `bool`.
    pub fn to_bool_optional(self) -> (r: Result<Option<bool>, DataStoreError>)
        ensures
            result_view(r) == decoded_optional(self.is_nullable, self.test_bool),
    {
        translate_optional(self.is_nullable, self.test_bool)
    }

    /// Decodes the value as a non-null instant.
    pub fn to_datetime(self) -> (r: Result<UtcDateTime, DataStoreError>)
        ensures
            result_view(r) == decoded(self.test_datetime),
    {
        translate(self.test_datetime)
    }

    /// Decodes the value as a nullable instant.
    pub fn to_datetime_optional(self) -> (r: Result<Option<UtcDateTime>, DataStoreError>)
        ensures
            result_view(r) == decoded_optional(self.is_nullable, self.test_datetime),
    {
        translate_optional(self.is_nullable, self.test_datetime)
    }

    /// Decodes the value as a non-null `i8`.
    pub fn to_i8(self) -> (r: Result<i8, DataStoreError>)
        ensures
            result_view(r) == decoded(self.test_i8),
    {
        translate(self.test_i8)
    }

    /// Decodes the value as a nullable `i8`.
    pub fn to_i8_optional(self) -> (r: Result<Option<i8>, DataStoreError>)
        ensures
            result_view(r) == decoded_optional(self.is_nullable, self.test_i8),
    {
        translate_optional(self.is_nullable, self.test_i8)
    }

    /// Decodes the value as a non-null `i16`.
    pub fn to_i16(self) -> (r: Result<i16, DataStoreError>)
        ensures
            result_view(r) == decoded(self.test_i16),
    {
        translate(self.test_i16)
    }

    /// Decodes the value as a nullable `i16`.
    pub fn to_i16_optional(self) -> (r: Result<Option<i16>, DataStoreError>)
        ensures
            result_view(r) == decoded_optional(self.is_nullable, self.test_i16),
    {
        translate_optional(self.is_nullable, self.test_i16)
    }

    /// Decodes the value as a non-null `i32`.
    pub fn to_i32(self) -> (r: Result<i32, DataStoreError>)
        ensures
            result_view(r) == decoded(self.test_i32),
    {
        translate(self.test_i32)
    }

    /// Decodes the value as a nullable `i32`.
    pub fn to_i32_optional(self) -> (r: Result<Option<i32>, DataStoreError>)
        ensures
            result_view(r) == decoded_optional(self.is_nullable, self.test_i32),
    {
        translate_optional(self.is_nullable, self.test_i32)
    }

    /// Decodes the value as a non-null `i64`.
    pub fn to_i64(self) -> (r: Result<i64, DataStoreError>)
        ensures
            result_view(r) == decoded(self.test_i64),
    {
        translate(self.test_i64)
    }

    /// Decodes the value as a nullable `i64`.
    pub fn to_i64_optional(self) -> (r: Result<Option<i64>, DataStoreError>)
        ensures
            result_view(r) == decoded_optional(self.is_nullable, self.test_i64),
    {
        translate_optional(self.is_nullable, self.test_i64)
    }

    /// Decodes the value as a non-null `f32`, given as its bit pattern.
    pub fn to_f32_bits(self) -> (r: Result<u32, DataStoreError>)
        ensures
            result_view(r) == decoded(self.test_f32),
    {
        translate(self.test_f32)
    }

    /// Decodes the value as a nullable `f32`, given as its bit pattern.
    pub fn to_f32_bits_optional(self) -> (r: Result<Option<u32>, DataStoreError>)
        ensures
            result_view(r) == decoded_optional(self.is_nullable, self.test_f32),
    {
        translate_optional(self.is_nullable, self.test_f32)
    }

    /// Decodes the value as a non-null `f64`, given as its bit pattern.
    pub fn to_f64_bits(self) -> (r: Result<u64, DataStoreError>)
        ensures
            result_view(r) == decoded(self.test_f64),
    {
        translate(self.test_f64)
    }

    /// Decodes the value as a nullable `f64`, given as its bit pattern.
    pub fn to_f64_bits_optional(self) -> (r: Result<Option<u64>, DataStoreError>)
        ensures
            result_view(r) == decoded_optional(self.is_nullable, self.test_f64),
    {
        translate_optional(self.is_nullable, self.test_f64)
    }

    /// Decodes the value as a non-null string.
    pub fn to_string(self) -> (r: Result<String, DataStoreError>)
        ensures
            result_view(r) == decoded(self.test_string),
    {
        translate(self.test_string)
    }

    /// Decodes the value as a nullable string.
    pub fn to_string_optional(self) -> (r: Result<Option<String>, DataStoreError>)
        ensures
            result_view(r) == decoded_optional(self.is_nullable, self.test_string),
    {
        translate_optional(self.is_nullable, self.test_string)
    }
}

/// Whether two optional single-precision patterns hold equal values, or are both empty.
pub open spec fn optional_single_eq(a: Option<u32>, b: Option<u32>) -> bool {
    match (a, b) {
        (Some(x), Some(y)) => single_bits_eq(x, y),
        (None, None) => true,
        _ => false,
    }
}

/// Whether two optional double-precision patterns hold equal values, or are both empty.
pub open spec fn optional_double_eq(a: Option<u64>, b: Option<u64>) -> bool {
    match (a, b) {
        (Some(x), Some(y)) => double_bits_eq(x, y),
        (None, None) => true,
        _ => false,
    }
}

/// Whether two optional strings hold the same text, or are both empty.
pub open spec fn optional_text_eq(a: Option<String>, b: Option<String>) -> bool {
    match (a, b) {
        (Some(x), Some(y)) => x@ == y@,
        (None, None) => true,
        _ => false,
    }
}

/// Whether two mock values are equal field by field, floating-point fields compared
/// as values (NaN equals nothing, the two zeros are equal).
pub open spec fn test_vals_eq(a: TestVal, b: TestVal) -> bool {
    &&& a.is_nullable == b.is_nullable
    &&& a.test_bool == b.test_bool
    &&& a.test_datetime == b.test_datetime
    &&& optional_single_eq(a.test_f32, b.test_f32)
    &&& optional_double_eq(a.test_f64, b.test_f64)
    &&& a.test_i16 == b.test_i16
    &&& a.test_i32 == b.test_i32
    &&& a.test_i64 == b.test_i64
    &&& a.test_i8 == b.test_i8
    &&& optional_text_eq(a.test_string, b.test_string)
}

fn optional_single_equal(a: Option<u32>, b: Option<u32>) -> (r: bool)
    ensures
        r == optional_single_eq(a, b),
{
    match (a, b) {
        (Some(x), Some(y)) => single_bits_equal(x, y),
        (None, None) => true,
        _ => false,
    }
}

fn optional_double_equal(a: Option<u64>, b: Option<u64>) -> (r: bool)
    ensures
        r == optional_double_eq(a, b),
{
    match (a, b) {
        (Some(x), Some(y)) => double_bits_equal(x, y),
        (None, None) => true,
        _ => false,
    }
}

fn optional_text_equal(a: &Option<String>, b: &Option<String>) -> (r: bool)
    ensures
        r == optional_text_eq(*a, *b),
{
    match (a, b) {
        (Some(x), Some(y)) => *x == *y,
        (None, None) => true,
        _ => false,
    }
}

impl PartialEq for TestVal {
    fn eq(&self, other: &Self) -> (r: bool) {
        self.is_nullable == other.is_nullable && self.test_bool == other.test_bool
            && self.test_datetime == other.test_datetime && optional_single_equal(
            self.test_f32,
            other.test_f32,
        ) && optional_double_equal(self.test_f64, other.test_f64) && self.test_i16
            == other.test_i16 && self.test_i32 == other.test_i32 && self.test_i64
            == other.test_i64 && self.test_i8 == other.test_i8 && optional_text_equal(
            &self.test_string,
            &other.test_string,
        )
    }
}

impl PartialEqSpecImpl for TestVal {
    open spec fn obeys_eq_spec() -> bool {
        true
    }

    open spec fn eq_spec(&self, other: &Self) -> bool {
        test_vals_eq(*self, *other)
    }
}

impl Clone for TestVal {
    /// A copy of the value, equal to it.
    fn clone(&self) -> (v: TestVal)
        ensures
            v == *self,
    {
        let test_string = match &self.test_string {
            Some(s) => Some(s.clone()),
            None => None,
        };
        TestVal {
            is_nullable: self.is_nullable,
            test_bool: self.test_bool,
            test_datetime: self.test_datetime,
            test_i8: self.test_i8,
            test_i16: self.test_i16,
            test_i32: self.test_i32,
            test_i64: self.test_i64,
            test_f32: self.test_f32,
            test_f64: self.test_f64,
            test_string,
        }
    }
}

impl Default for TestVal {
    /// The same value as [`TestVal::new`].
    fn default() -> (v: TestVal)
        ensures
            is_blank(v),
    {
        TestVal::new()
    }
}

/// A stand-in for a query that is never sent anywhere: binding always succeeds, the
/// latest string bound is remembered, and executing returns the rows given at
/// construction.
#[derive(Debug)]
pub struct TestParameterizedQuery<T: DataRow<TestVal>> {
    /// The rows returned when the query is executed.
    pub data: Vec<T>,
    /// The latest string parameter bound to the query.
    pub latest_string_binding: String,
}

impl<T: DataRow<TestVal>> TestParameterizedQuery<T> {
    /// A query that will return `data`, with no string bound yet.
    pub fn new(data: Vec<T>) -> (q: Self)
        ensures
            q.data == data,
            q.latest_string_binding@ == Seq::<char>::empty(),
    {
        TestParameterizedQuery { data, latest_string_binding: String::new() }
    }

    /// Accepts a `bool` parameter and ignores it.
    pub fn bind_bool(&mut self, parameter: bool) -> (r: Result<(), DataStoreError>)
        ensures
            r is Ok,
            *final(self) == *old(self),
    {
        Ok(())
    }

    /// Accepts an instant parameter and ignores it.
    pub fn bind_datetime(&mut self, parameter: UtcDateTime) -> (r: Result<(), DataStoreError>)
        ensures
            r is Ok,
            *final(self) == *old(self),
    {
        Ok(())
    }

    /// Accepts an `i8` parameter and ignores it.
    pub fn bind_i8(&mut self, parameter: i8) -> (r: Result<(), DataStoreError>)
        ensures
            r is Ok,
            *final(self) == *old(self),
    {
        Ok(())
    }

    /// Accepts an `i16` parameter and ignores it.
    pub fn bind_i16(&mut self, parameter: i16) -> (r: Result<(), DataStoreError>)
        ensures
            r is Ok,
            *final(self) == *old(self),
    {
        Ok(())
    }

    /// Accepts an `i32` parameter and ignores it.
    pub fn bind_i32(&mut self, parameter: i32) -> (r: Result<(), DataStoreError>)
        ensures
            r is Ok,
            *final(self) == *old(self),
    {
        Ok(())
    }

    /// Accepts an `i64` parameter and ignores it.
    pub fn bind_i64(&mut self, parameter: i64) -> (r: Result<(), DataStoreError>)
        ensures
            r is Ok,
            *final(self) == *old(self),
    {
        Ok(())
    }

    /// Accepts an `f32` parameter, given as its bit pattern, and ignores it.
    pub fn bind_f32_bits(&mut self, parameter: u32) -> (r: Result<(), DataStoreError>)
        ensures
            r is Ok,
            *final(self) == *old(self),
    {
        Ok(())
    }

    /// Accepts an `f64` parameter, given as its bit pattern, and ignores it.
    pub fn bind_f64_bits(&mut self, parameter: u64) -> (r: Result<(), DataStoreError>)
        ensures
            r is Ok,
            *final(self) == *old(self),
    {
        Ok(())
    }

    /// Records `parameter` as the latest string bound.
    pub fn bind_string(&mut self, parameter: String) -> (r: Result<(), DataStoreError>)
        ensures
            r is Ok,
            final(self).latest_string_binding == parameter,
            final(self).data == old(self).data,
    {
        self.latest_string_binding = parameter;
        Ok(())
    }

    /// Returns the rows given at construction.
    pub fn execute(self) -> (r: Result<Vec<T>, DataStoreError>)
        ensures
            r == Ok::<Vec<T>, DataStoreError>(self.data),
    {
        Ok(self.data)
    }
}

/// The abstract form of an [`Operation`].
pub enum OperationView {
    Query(Seq<char>),
    ParameterizedQuery(QueryView),
    Transaction(Seq<QueryView>),
}

/// A single operation captured by a [`TestDataStore`], in the form it was passed in.
#[derive(Debug, PartialEq)]
pub enum Operation {
    /// A query given as bare SQL text.
    Query(String),
    /// A parameterized query.
    ParameterizedQuery(ParameterizedQuery),
    /// A batch of parameterized queries to run in one transaction.
    Transaction(Vec<ParameterizedQuery>),
}

impl View for Operation {
    type V = OperationView;

    open spec fn view(&self) -> OperationView {
        match self {
            Operation::Query(q) => OperationView::Query(q@),
            Operation::ParameterizedQuery(q) => OperationView::ParameterizedQuery(q@),
            Operation::Transaction(qs) => OperationView::Transaction(
                qs@.map_values(|q: ParameterizedQuery| q@),
            ),
        }
    }
}

impl Clone for Operation {
    /// A copy of this operation, with the same content.
    fn clone(&self) -> (o: Operation)
        ensures
            o@ == self@,
    {
        match self {
            Operation::Query(q) => Operation::Query(q.clone()),
            Operation::ParameterizedQuery(q) => Operation::ParameterizedQuery(q.clone()),
            Operation::Transaction(qs) => {
                let copy = clone_queries(qs);
                assert(copy@.map_values(|q: ParameterizedQuery| q@) =~= qs@.map_values(
                    |q: ParameterizedQuery| q@,
                ));
                Operation::Transaction(copy)
            },
        }
    }
}

/// The operations passed to a [`TestDataStore`], oldest first.
#[derive(Debug)]
pub struct OperationLog {
    operations: Vec<Operation>,
}

impl View for OperationLog {
    type V = Seq<OperationView>;

    closed spec fn view(&self) -> Seq<OperationView> {
        self.operations@.map_values(|o: Operation| o@)
    }
}

impl OperationLog {
    /// A log with nothing recorded.
    pub fn new() -> (log: OperationLog)
        ensures
            log@ == Seq::<OperationView>::empty(),
    {
        let log = OperationLog { operations: Vec::new() };
        assert(log@ =~= Seq::<OperationView>::empty());
        log
    }

    /// Records `operation` after the ones recorded so far.
    pub fn record(&mut self, operation: Operation)
        ensures
            final(self)@ == old(self)@.push(operation@),
    {
        self.operations.push(operation);
        assert(self@ =~= old(self)@.push(operation@));
    }

    /// The operations recorded so far, oldest first.
    pub fn operations(&self) -> (r: Vec<Operation>)
        ensures
            r@.map_values(|o: Operation| o@) == self@,
    {
        let mut r: Vec<Operation> = Vec::new();
        let n = self.operations.len();
        for i in 0..n
            invariant
                n == self.operations@.len(),
                r@.len() == i,
                forall|j: int| 0 <= j < i ==> #[trigger] r@[j]@ == self.operations@[j]@,
        {
            r.push(self.operations[i].clone());
        }
        assert(r@.map_values(|o: Operation| o@) =~= self@);
        r
    }
}

impl Clone for OperationLog {
    /// A copy of the log, with the same operations.
    fn clone(&self) -> (c: OperationLog)
        ensures
            c@ == self@,
    {
        OperationLog { operations: self.operations() }
    }
}

/// A data store that never reaches a database.
///
/// It always answers with the rows given at construction, whatever the query; do not
/// use its rows to check that a query was built correctly, only to test how calling
/// code consumes them. Every operation passed to it is recorded, in order, in
/// [`log`](Self::log), and [`captured_operations`](Self::captured_operations) is the
/// way to check what calling code sent.
#[derive(Debug)]
pub struct TestDataStore<T: DataRow<TestVal> + Clone> {
    /// The rows every query is answered with.
    pub data: Vec<T>,
    /// The operations passed to the store so far.
    pub log: OperationLog,
}

impl<T: DataRow<TestVal> + Clone> TestDataStore<T> {
    /// The rows the store answers with.
    pub open spec fn stored(&self) -> Seq<T> {
        self.data@
    }

    /// The operations recorded so far, oldest first.
    pub open spec fn captured(&self) -> Seq<OperationView> {
        self.log@
    }

    /// A store that answers with `data` and has recorded nothing.
    pub fn new(data: Vec<T>) -> (s: Self)
        ensures
            s.data == data,
            s.captured() == Seq::<OperationView>::empty(),
    {
        TestDataStore { data, log: OperationLog::new() }
    }

    /// A copy of the rows the store answers with.
    fn rows(&self) -> (r: Vec<T>)
        ensures
            r.len() == self.stored().len(),
            forall|i: int| 0 <= i < r.len() ==> cloned::<T>(self.stored()[i], #[trigger] r[i]),
    {
        self.data.clone()
    }

    /// Records a bare SQL query and answers with the stored rows.
    pub fn execute_query(&mut self, query: &str) -> (r: Result<Vec<T>, DataStoreError>)
        ensures
            final(self).data == old(self).data,
            final(self).captured() == old(self).captured().push(OperationView::Query(query@)),
            r matches Ok(rows) && rows.len() == old(self).stored().len() && forall|i: int|
                0 <= i < rows.len() ==> cloned::<T>(old(self).stored()[i], #[trigger] rows[i]),
    {
        self.log.record(Operation::Query(String::from_str(query)));
        Ok(self.rows())
    }

    /// Records a parameterized query and answers with the stored rows.
    pub fn execute_parameterized_query(&mut self, parameterized_query: ParameterizedQuery) -> (r:
        Result<Vec<T>, DataStoreError>)
        ensures
            final(self).data == old(self).data,
            final(self).captured() == old(self).captured().push(
                OperationView::ParameterizedQuery(parameterized_query@),
            ),
            r matches Ok(rows) && rows.len() == old(self).stored().len() && forall|i: int|
                0 <= i < rows.len() ==> cloned::<T>(old(self).stored()[i], #[trigger] rows[i]),
    {
        self.log.record(Operation::ParameterizedQuery(parameterized_query));
        Ok(self.rows())
    }

    /// Records a batch of queries as one transaction and reports success.
    pub fn execute_transaction(&mut self, queries: Vec<ParameterizedQuery>) -> (r: Result<
        (),
        DataStoreError,
    >)
        ensures
            r is Ok,
            final(self).data == old(self).data,
            final(self).captured() == old(self).captured().push(
                OperationView::Transaction(queries@.map_values(|q: ParameterizedQuery| q@)),
            ),
    {
        self.log.record(Operation::Transaction(queries));
        Ok(())
    }

    /// The operations recorded so far, oldest first.
    pub fn captured_operations(&self) -> (r: Vec<Operation>)
        ensures
            r@.map_values(|o: Operation| o@) == self.captured(),
    {
        self.log.operations()
    }
}

impl<T: DataRow<TestVal> + Clone> Clone for TestDataStore<T> {
    /// A copy of the store: its rows cloned, and the same operations recorded.
    fn clone(&self) -> (c: Self)
        ensures
            c.stored().len() == self.stored().len(),
            forall|i: int|
                0 <= i < c.stored().len() ==> cloned::<T>(self.stored()[i], #[trigger] c.stored()[i]),
            c.captured() == self.captured(),
    {
        TestDataStore { data: self.rows(), log: self.log.clone() }
    }
}

} // verus!
