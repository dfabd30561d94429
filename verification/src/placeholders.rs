//! The placeholders of a SQL statement, and the bindings that are sent with it.
use crate::query::{ParameterizedQuery, QueryParameter, QueryView};
use vstd::prelude::*;

verus! {

fn chars_of(text: &str) -> (r: Vec<char>)
    ensures
        r@ == text@,
{
    broadcast use vstd::string::axiom_spec_iter;

    let mut r: Vec<char> = Vec::new();
    for c in it: text.chars()
        invariant
            it.seq() == text@,
            r@ == it.seq().take(it.index() as int),
    {
        r.push(c);
        assert(r@ =~= it.seq().take(it.index() + 1));
    }
    assert(r@ =~= text@);
    r
}

/// Whether `c` is an ASCII decimal digit.
pub open spec fn is_digit(c: char) -> bool {
    '0' <= c <= '9'
}

/// The value of the decimal digit `c`.
pub open spec fn digit_value(c: char) -> int {
    c as int - '0' as int
}

/// The number written by the run of digits that starts at position `j` of `s`, read
/// after the digits already worth `acc`.
pub open spec fn number_from(s: Seq<char>, j: int, acc: int) -> int
    decreases s.len() - j,
{
    if 0 <= j < s.len() && is_digit(s[j]) {
        number_from(s, j + 1, acc * 10 + digit_value(s[j]))
    } else {
        acc
    }
}

/// The number of the placeholder `$N` that starts at position `i` of `s`, or `0` when
/// no placeholder starts there.
pub open spec fn placeholder_at(s: Seq<char>, i: int) -> int {
    if 0 <= i && i + 1 < s.len() && s[i] == '$' && is_digit(s[i + 1]) {
        number_from(s, i + 1, 0)
    } else {
        0
    }
}

/// The highest number of a placeholder that starts before position `n` of `s`, or `0`.
pub open spec fn highest_placeholder_before(s: Seq<char>, n: int) -> int
    decreases n,
{
    if n <= 0 {
        0
    } else {
        let earlier = highest_placeholder_before(s, n - 1);
        let here = placeholder_at(s, n - 1);
        if here > earlier {
            here
        } else {
            earlier
        }
    }
}

/// The highest placeholder number of the statement `s`: the number of parameters it
/// takes.
pub open spec fn highest_placeholder(s: Seq<char>) -> int {
    highest_placeholder_before(s, s.len() as int)
}

/// The bindings sent with a query: those that have a placeholder, the ones beyond the
/// highest placeholder number being ignored.
pub open spec fn sent_bindings(q: QueryView) -> Seq<QueryParameter> {
    if highest_placeholder(q.statement) < q.bindings.len() {
        q.bindings.take(highest_placeholder(q.statement))
    } else {
        q.bindings
    }
}

proof fn lemma_number_from_grows(s: Seq<char>, j: int, acc: int)
    requires
        acc >= 0,
    ensures
        number_from(s, j, acc) >= acc,
    decreases s.len() - j,
{
    if 0 <= j < s.len() && is_digit(s[j]) {
        lemma_number_from_grows(s, j + 1, acc * 10 + digit_value(s[j]));
    }
}

/// The number written by the digits of `text` from `start` on, or `cap` when that
/// number is larger.
fn capped_number(text: &Vec<char>, start: usize, cap: usize) -> (v: usize)
    ensures
        v as int == if number_from(text@, start as int, 0) < cap {
            number_from(text@, start as int, 0)
        } else {
            cap as int
        },
{
    let n = text.len();
    let mut v: usize = 0;
    let ghost mut acc: int = 0;
    let mut j = start;
    if cap == 0 {
        proof {
            lemma_number_from_grows(text@, start as int, 0);
        }
        return 0;
    }
    loop
        invariant
            0 < cap,
            n == text@.len(),
            start <= j,
            acc >= 0,
            v as int == if acc < cap { acc } else { cap as int },
            number_from(text@, start as int, 0) == number_from(text@, j as int, acc),
        decreases n - j,
    {
        if j >= n {
            return v;
        }
        let c = text[j];
        if !('0' <= c && c <= '9') {
            return v;
        }
        let d = (c as u32) - ('0' as u32);
        proof {
            acc = acc * 10 + digit_value(c);
        }
        if v < cap {
            let w: u128 = (v as u128) * 10 + (d as u128);
            if w >= cap as u128 {
                v = cap;
            } else {
                v = w as usize;
            }
        }
        j = j + 1;
    }
}

/// The bindings that are sent with `q`: its bindings up to the highest placeholder
/// number `$N` of its statement; bindings beyond it are ignored.
pub fn bindings_sent(q: &ParameterizedQuery) -> (r: Vec<QueryParameter>)
    ensures
        r@ == sent_bindings(q@),
{
    let text = chars_of(q.statement.as_str());
    let cap = q.bindings.len();
    let n = text.len();
    let mut best: usize = 0;
    let mut i: usize = 0;
    while i < n
        invariant
            n == text@.len(),
            text@ == q.statement@,
            cap == q.bindings@.len(),
            i <= n,
            best as int == if highest_placeholder_before(text@, i as int) < cap {
                highest_placeholder_before(text@, i as int)
            } else {
                cap as int
            },
        decreases n - i,
    {
        if text[i] == '$' && i + 1 < n && '0' <= text[i + 1] && text[i + 1] <= '9' {
            let here = capped_number(&text, i + 1, cap);
            if here > best {
                best = here;
            }
        }
        i = i + 1;
    }
    let mut r: Vec<QueryParameter> = Vec::new();
    for k in 0..best
        invariant
            best <= cap,
            cap == q.bindings@.len(),
            r@ == q.bindings@.take(k as int),
    {
        r.push(q.bindings[k].clone());
        assert(r@ =~= q.bindings@.take(k + 1));
    }
    assert(r@ =~= sent_bindings(q@));
    r
}

/// The value of a string of decimal digits, read left to right.
pub open spec fn decimal(digits: Seq<char>) -> int
    decreases digits.len(),
{
    if digits.len() == 0 {
        0
    } else {
        decimal(digits.drop_last()) * 10 + (digits.last() as int - '0' as int)
    }
}

/// Whether the statement `s` holds, at position `i`, a `$` followed by exactly `m`
/// decimal digits (the next character, if any, being no digit), whatever comes before.
pub open spec fn placeholder_text(s: Seq<char>, i: int, m: int) -> bool {
    &&& 0 <= i
    &&& m >= 1
    &&& i + 1 + m <= s.len()
    &&& s[i] == '$'
    &&& forall|k: int| i + 1 <= k < i + 1 + m ==> '0' <= #[trigger] s[k] <= '9'
    &&& (i + 1 + m == s.len() || !('0' <= s[i + 1 + m] <= '9'))
}

/// The number of digits in the run that starts at position `j` of `s`.
spec fn digit_run(s: Seq<char>, j: int) -> int
    decreases s.len() - j,
{
    if 0 <= j < s.len() && is_digit(s[j]) {
        1 + digit_run(s, j + 1)
    } else {
        0
    }
}

proof fn lemma_number_reads_digits(s: Seq<char>, j: int, k: int)
    requires
        0 <= j <= k <= s.len(),
        forall|p: int| j <= p < k ==> '0' <= #[trigger] s[p] <= '9',
    ensures
        number_from(s, j, 0) == number_from(s, k, decimal(s.subrange(j, k))),
    decreases k - j,
{
    if k == j {
        assert(s.subrange(j, k) =~= Seq::<char>::empty());
    } else {
        lemma_number_reads_digits(s, j, k - 1);
        let before = s.subrange(j, k - 1);
        assert(s.subrange(j, k).drop_last() =~= before);
        assert(s.subrange(j, k).last() == s[k - 1]);
        assert(is_digit(s[k - 1]));
    }
}

proof fn lemma_digit_run(s: Seq<char>, j: int)
    requires
        0 <= j <= s.len(),
    ensures
        0 <= digit_run(s, j),
        j + digit_run(s, j) <= s.len(),
        forall|p: int| j <= p < j + digit_run(s, j) ==> '0' <= #[trigger] s[p] <= '9',
        j + digit_run(s, j) == s.len() || !is_digit(s[j + digit_run(s, j)]),
    decreases s.len() - j,
{
    if j < s.len() && is_digit(s[j]) {
        lemma_digit_run(s, j + 1);
    }
}

/// The number of the placeholder written at `i` is the value of its digits.
proof fn lemma_placeholder_value(s: Seq<char>, i: int, m: int)
    requires
        placeholder_text(s, i, m),
    ensures
        placeholder_at(s, i) == decimal(s.subrange(i + 1, i + 1 + m)),
{
    lemma_number_reads_digits(s, i + 1, i + 1 + m);
    assert(is_digit(s[i + 1]));
}

proof fn lemma_highest_bounds(s: Seq<char>, n: int, i: int)
    requires
        0 <= i < n,
    ensures
        highest_placeholder_before(s, n) >= placeholder_at(s, i),
        highest_placeholder_before(s, n) >= 0,
    decreases n,
{
    if i < n - 1 {
        lemma_highest_bounds(s, n - 1, i);
    } else if n - 1 > 0 {
        lemma_highest_bounds(s, n - 1, 0);
    } else {
        assert(highest_placeholder_before(s, 0) == 0);
    }
}

proof fn lemma_highest_attained(s: Seq<char>, n: int)
    requires
        n <= s.len(),
        highest_placeholder_before(s, n) > 0,
    ensures
        exists|i: int| 0 <= i < n && placeholder_at(s, i) == highest_placeholder_before(s, n),
    decreases n,
{
    if highest_placeholder_before(s, n - 1) > 0 && placeholder_at(s, n - 1)
        <= highest_placeholder_before(s, n - 1) {
        lemma_highest_attained(s, n - 1);
        let i = choose|i: int|
            0 <= i < n - 1 && placeholder_at(s, i) == highest_placeholder_before(s, n - 1);
        assert(0 <= i < n && placeholder_at(s, i) == highest_placeholder_before(s, n));
    } else {
        assert(placeholder_at(s, n - 1) == highest_placeholder_before(s, n));
    }
}

/// A `$` followed by decimal digits is a placeholder wherever it stands in the
/// statement, whatever character comes before it: when the statement holds `$k`, the
/// first `k` bindings are sent (all of them when there are fewer). What is sent is
/// always the bindings in their order, from the first on.
pub proof fn law_every_placeholder_counts(q: QueryView, i: int, m: int)
    requires
        placeholder_text(q.statement, i, m),
    ensures
        sent_bindings(q).len() >= q.bindings.len() || sent_bindings(q).len() >= decimal(
            q.statement.subrange(i + 1, i + 1 + m),
        ),
        sent_bindings(q) == q.bindings.take(sent_bindings(q).len() as int),
        sent_bindings(q).len() <= q.bindings.len(),
{
    let s = q.statement;
    lemma_placeholder_value(s, i, m);
    lemma_highest_bounds(s, s.len() as int, i);
    if highest_placeholder(s) >= q.bindings.len() {
        assert(sent_bindings(q) =~= q.bindings.take(q.bindings.len() as int));
    }
}

/// Nothing is sent beyond the highest placeholder: when some bindings are sent, the
/// statement holds a `$` with digits whose value is at least their number.
pub proof fn law_only_placeholders_are_sent(q: QueryView)
    ensures
        sent_bindings(q).len() > 0 ==> exists|i: int, m: int|
            #[trigger] placeholder_text(q.statement, i, m) && decimal(
                q.statement.subrange(i + 1, i + 1 + m),
            ) >= sent_bindings(q).len(),
{
    let s = q.statement;
    if sent_bindings(q).len() > 0 {
        assert(highest_placeholder(s) > 0);
        lemma_highest_attained(s, s.len() as int);
        let i = choose|i: int|
            0 <= i < s.len() && placeholder_at(s, i) == highest_placeholder_before(
                s,
                s.len() as int,
            );
        assert(s[i] == '$' && i + 1 < s.len() && is_digit(s[i + 1]));
        lemma_digit_run(s, i + 1);
        let m = digit_run(s, i + 1);
        assert(m >= 1);
        assert(placeholder_text(s, i, m));
        lemma_placeholder_value(s, i, m);
    }
}

} // verus!
