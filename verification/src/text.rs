//! Small verified helpers over strings and decimal digits, shared by the
//! persistence codec and the name-keyed lookups.

use vstd::prelude::*;
use vstd::string::StringExecFns;

verus! {

/// String-slice equality with a view-level contract.
pub fn str_eq(a: &str, b: &str) -> (r: bool)
    ensures
        r == (a@ == b@),
{
    let sa: String = a.to_owned();
    let sb: String = b.to_owned();
    sa == sb
}

/// Value of a decimal digit character, if it is one.
pub open spec fn spec_digit_value(c: char) -> Option<u64> {
    if c == '0' {
        Some(0u64)
    } else if c == '1' {
        Some(1u64)
    } else if c == '2' {
        Some(2u64)
    } else if c == '3' {
        Some(3u64)
    } else if c == '4' {
        Some(4u64)
    } else if c == '5' {
        Some(5u64)
    } else if c == '6' {
        Some(6u64)
    } else if c == '7' {
        Some(7u64)
    } else if c == '8' {
        Some(8u64)
    } else if c == '9' {
        Some(9u64)
    } else {
        None
    }
}

/// Decimal digit character for a value below ten.
pub open spec fn spec_digit_char(d: u64) -> char
    recommends
        d < 10,
{
    if d == 0 {
        '0'
    } else if d == 1 {
        '1'
    } else if d == 2 {
        '2'
    } else if d == 3 {
        '3'
    } else if d == 4 {
        '4'
    } else if d == 5 {
        '5'
    } else if d == 6 {
        '6'
    } else if d == 7 {
        '7'
    } else if d == 8 {
        '8'
    } else {
        '9'
    }
}

/// The decimal digit sequence of `n`, most significant digit first.
pub open spec fn spec_decimal(n: u64) -> Seq<char>
    decreases n,
{
    if n < 10 {
        seq![spec_digit_char(n)]
    } else {
        spec_decimal(n / 10).push(spec_digit_char(n % 10))
    }
}

/// Numeric value of a digit sequence, folding from the least significant end.
/// Characters that are not digits count as zero; `spec_all_digits` rules that
/// case out where it matters.
pub open spec fn spec_digits_value(s: Seq<char>) -> int
    decreases s.len(),
{
    if s.len() == 0 {
        0
    } else {
        spec_digits_value(s.drop_last()) * 10 + (match spec_digit_value(s.last()) {
            Some(d) => d as int,
            None => 0int,
        })
    }
}

/// Every character of `s` is a decimal digit.
pub open spec fn spec_all_digits(s: Seq<char>) -> bool {
    forall|i: int| 0 <= i < s.len() ==> #[trigger] spec_digit_value(s[i]) is Some
}

/// A decimal rendering is non-empty and consists of digits only.
pub proof fn lemma_decimal_digits(n: u64)
    ensures
        spec_decimal(n).len() >= 1,
        spec_all_digits(spec_decimal(n)),
    decreases n,
{
    if n < 10 {
        assert(spec_digit_value(spec_decimal(n)[0]) is Some);
    } else {
        lemma_decimal_digits(n / 10);
        let s = spec_decimal(n);
        let hi = spec_decimal(n / 10);
        assert forall|i: int| 0 <= i < s.len() implies #[trigger] spec_digit_value(
            s[i],
        ) is Some by {
            if i < hi.len() {
                assert(s[i] == hi[i]);
            } else {
                assert(s[i] == spec_digit_char(n % 10));
            }
        }
    }
}

/// Reading back the decimal rendering of `n` yields `n`.
pub proof fn lemma_decimal_value(n: u64)
    ensures
        spec_digits_value(spec_decimal(n)) == n as int,
    decreases n,
{
    if n < 10 {
        let s = spec_decimal(n);
        assert(s.drop_last() =~= Seq::<char>::empty());
        assert(s.last() == spec_digit_char(n));
        assert(spec_digit_value(spec_digit_char(n)) == Some(n));
        assert(spec_digits_value(Seq::<char>::empty()) == 0);
        assert(spec_digits_value(s) == spec_digits_value(s.drop_last()) * 10 + n as int);
    } else {
        lemma_decimal_value(n / 10);
        let s = spec_decimal(n);
        assert(s.drop_last() =~= spec_decimal(n / 10));
        assert(s.last() == spec_digit_char(n % 10));
        assert(spec_digit_value(spec_digit_char(n % 10)) == Some(n % 10));
        assert(spec_digits_value(s) == spec_digits_value(s.drop_last()) * 10 + (n % 10) as int);
        assert(n as int == (n / 10) as int * 10 + (n % 10) as int);
    }
}

/// The value of a digit sequence never shrinks as digits are appended.
pub proof fn lemma_digits_value_prefix_le(s: Seq<char>, i: int)
    requires
        0 <= i <= s.len(),
        spec_all_digits(s),
    ensures
        0 <= spec_digits_value(s.take(i)) <= spec_digits_value(s),
    decreases s.len() - i,
{
    lemma_digits_value_nonneg(s.take(i));
    if i == s.len() {
        assert(s.take(i) =~= s);
    } else {
        lemma_digits_value_prefix_le(s, i + 1);
        let t = s.take(i + 1);
        assert(t.drop_last() =~= s.take(i));
        lemma_digits_value_nonneg(s.take(i));
    }
}

/// Digit sequences have non-negative value.
pub proof fn lemma_digits_value_nonneg(s: Seq<char>)
    ensures
        spec_digits_value(s) >= 0,
    decreases s.len(),
{
    if s.len() > 0 {
        lemma_digits_value_nonneg(s.drop_last());
    }
}

/// The decimal-digit string for a single digit value.
pub fn digit_str(d: u64) -> (r: &'static str)
    requires
        d < 10,
    ensures
        r@ =~= seq![spec_digit_char(d)],
{
    proof {
        reveal_strlit("0");
        reveal_strlit("1");
        reveal_strlit("2");
        reveal_strlit("3");
        reveal_strlit("4");
        reveal_strlit("5");
        reveal_strlit("6");
        reveal_strlit("7");
        reveal_strlit("8");
        reveal_strlit("9");
    }
    if d == 0 {
        "0"
    } else if d == 1 {
        "1"
    } else if d == 2 {
        "2"
    } else if d == 3 {
        "3"
    } else if d == 4 {
        "4"
    } else if d == 5 {
        "5"
    } else if d == 6 {
        "6"
    } else if d == 7 {
        "7"
    } else if d == 8 {
        "8"
    } else {
        "9"
    }
}

/// Append the decimal rendering of `n` to `out`.
pub fn push_decimal(out: &mut String, n: u64)
    ensures
        final(out)@ == old(out)@ + spec_decimal(n),
    decreases n,
{
    if n < 10 {
        out.append(digit_str(n));
    } else {
        push_decimal(out, n / 10);
        out.append(digit_str(n % 10));
        proof {
            assert(out@ =~= old(out)@ + spec_decimal(n));
        }
    }
}

/// Exec value of a digit character, mirroring `spec_digit_value`.
pub fn digit_value(c: char) -> (r: Option<u64>)
    ensures
        r == spec_digit_value(c),
{
    if c == '0' {
        Some(0)
    } else if c == '1' {
        Some(1)
    } else if c == '2' {
        Some(2)
    } else if c == '3' {
        Some(3)
    } else if c == '4' {
        Some(4)
    } else if c == '5' {
        Some(5)
    } else if c == '6' {
        Some(6)
    } else if c == '7' {
        Some(7)
    } else if c == '8' {
        Some(8)
    } else if c == '9' {
        Some(9)
    } else {
        None
    }
}

} // verus!
