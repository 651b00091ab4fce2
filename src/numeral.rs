//! Decimal numerals: the counts and timeouts given on the command line.
use vstd::prelude::*;
use vstd::string::StrSliceExecFns;

verus! {

/// Largest count accepted: partition counts and replication factors travel
/// to the broker as signed 32-bit integers.
pub const MAX_COUNT: u32 = 2147483647;

pub open spec fn is_digit(c: char) -> bool {
    '0' <= c && c <= '9'
}

pub open spec fn digit_value(c: char) -> nat {
    (c as int - '0' as int) as nat
}

/// Value of a string of digits, most significant first.
pub open spec fn numeral_value(s: Seq<char>) -> nat
    decreases s.len(),
{
    if s.len() == 0 {
        0
    } else {
        numeral_value(s.drop_last()) * 10 + digit_value(s.last())
    }
}

pub open spec fn is_numeral(s: Seq<char>) -> bool {
    s.len() > 0 && forall|i: int| 0 <= i < s.len() ==> is_digit(#[trigger] s[i])
}

/// The count that `s` spells: a non-empty run of digits whose value lies in
/// `1..=MAX_COUNT`.
pub open spec fn count_value(s: Seq<char>) -> Option<u32> {
    if is_numeral(s) && 1 <= numeral_value(s) <= MAX_COUNT {
        Some(numeral_value(s) as u32)
    } else {
        None
    }
}

pub open spec fn digit_char(d: nat) -> char {
    ('0' as int + d) as char
}

/// Decimal text of `n`, without sign or leading zeros.
pub open spec fn decimal_text(n: nat) -> Seq<char>
    decreases n,
{
    if n < 10 {
        seq![digit_char(n)]
    } else {
        decimal_text(n / 10).push(digit_char(n % 10))
    }
}

proof fn lemma_prefix_value_bounded(s: Seq<char>, i: int)
    requires
        0 <= i <= s.len(),
    ensures
        numeral_value(s.take(i)) <= numeral_value(s),
    decreases s.len(),
{
    if i < s.len() {
        let t = s.drop_last();
        assert(t.take(i) =~= s.take(i));
        lemma_prefix_value_bounded(t, i);
    } else {
        assert(s.take(i) =~= s);
    }
}

/// Reads a count: `Some` exactly when `s` is a numeral of value
/// `1..=MAX_COUNT`.
pub fn parse_count(s: &str) -> (r: Option<u32>)
    ensures
        r == count_value(s@),
{
    let n = s.unicode_len();
    if n == 0 {
        return None;
    }
    let mut acc: u64 = 0;
    let mut i: usize = 0;
    while i < n
        invariant
            0 <= i <= n,
            n == s@.len(),
            acc == numeral_value(s@.take(i as int)),
            acc <= MAX_COUNT,
            forall|j: int| 0 <= j < i ==> is_digit(#[trigger] s@[j]),
        decreases n - i,
    {
        let c = s.get_char(i);
        if !('0' <= c && c <= '9') {
            assert(!is_digit(s@[i as int]));
            return None;
        }
        let ghost prev = s@.take(i as int);
        assert(s@.take(i + 1).drop_last() =~= prev);
        acc = acc * 10 + (c as u64 - '0' as u64);
        if acc > MAX_COUNT as u64 {
            proof {
                lemma_prefix_value_bounded(s@, i + 1);
            }
            return None;
        }
        i = i + 1;
    }
    assert(s@.take(n as int) =~= s@);
    if acc == 0 {
        None
    } else {
        Some(acc as u32)
    }
}

} // verus!
