//! Building human readable text: decimal numbers appended to strings.

use vstd::prelude::*;

verus! {

/// Appends a character to a string with `String::push`.
#[verifier::external_body]
pub(crate) fn string_push(s: &mut String, c: char)
    ensures
        final(s)@ == old(s)@.push(c),
{
    s.push(c)
}

/// The character of a decimal digit.
pub open spec fn spec_digit(d: nat) -> char {
    (48 + d) as char
}

/// The decimal notation of a natural number, without leading zeros.
pub open spec fn spec_decimal(n: nat) -> Seq<char>
    decreases n,
{
    if n < 10 {
        seq![spec_digit(n)]
    } else {
        spec_decimal(n / 10).push(spec_digit(n % 10))
    }
}

/// The decimal notation of an integer, with a minus sign when it is negative.
pub open spec fn spec_signed_decimal(n: int) -> Seq<char> {
    if n < 0 {
        seq!['-'] + spec_decimal((-n) as nat)
    } else {
        spec_decimal(n as nat)
    }
}

/// Append the decimal notation of `n` to `s`.
pub fn push_decimal(s: &mut String, n: u64)
    ensures
        final(s)@ == old(s)@ + spec_decimal(n as nat),
    decreases n,
{
    if n >= 10 {
        push_decimal(s, n / 10);
    }
    let digit = (n % 10) as u8;
    string_push(s, (48u8 + digit) as char);
    assert(final(s)@ =~= old(s)@ + spec_decimal(n as nat));
}

/// Append the decimal notation of `n`, with a minus sign when it is negative, to `s`.
pub fn push_signed_decimal(s: &mut String, n: i64)
    requires
        n > i64::MIN,
    ensures
        final(s)@ == old(s)@ + spec_signed_decimal(n as int),
{
    if n < 0 {
        string_push(s, '-');
        push_decimal(s, (-n) as u64);
        assert(final(s)@ =~= old(s)@ + spec_signed_decimal(n as int));
    } else {
        push_decimal(s, n as u64);
    }
}

} // verus!
