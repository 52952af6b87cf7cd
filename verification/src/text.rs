//! Numbers and addresses as text, for the lines that go to a log.

use vstd::prelude::*;

verus! {

/// The character that stands for the digit `d`.
pub open spec fn digit(d: nat) -> char {
    if d == 0 {
        '0'
    } else if d == 1 {
        '1'
    } else if d == 2 {
        '2'
    } else if d == 3 {
        '3'
    } else if d == 4 {
        '4'
    } else if d == 5 {
        '5'
    } else if d == 6 {
        '6'
    } else if d == 7 {
        '7'
    } else if d == 8 {
        '8'
    } else {
        '9'
    }
}

/// The decimal digits of `n`, the highest first, with no zero in front: the
/// digits of `n / 10` followed by the digit of `n % 10`.
pub open spec fn digits(n: nat) -> Seq<char>
    decreases n,
{
    if n < 10 {
        seq![digit(n)]
    } else {
        digits(n / 10).push(digit(n % 10))
    }
}

/// The text of an integer: its decimal digits, after a minus sign where it
/// is negative.
pub open spec fn decimal_text(n: i128) -> Seq<char> {
    if n < 0 {
        seq!['-'] + digits((-n) as nat)
    } else {
        digits(n as nat)
    }
}

/// Calls std's `format!` with `{}` on `n`. Not proved: that the text which
/// std writes for an integer is `decimal_text(n)`, its decimal digits after
/// a minus sign where it is negative.
#[verifier::external_body]
pub(crate) fn decimal(n: i128) -> (text: String)
    ensures
        text@ == decimal_text(n),
{
    format!("{}", n)
}

/// Calls std's `format!` with `{:p}` on `byte`, which writes the address
/// that the reference holds. Nothing is claimed of the text: where a byte
/// lies differs from run to run.
#[verifier::external_body]
pub(crate) fn address(byte: &u8) -> (text: String) {
    format!("{:p}", byte)
}

/// `String::push_str`. Not proved: that it puts `string` at the end of `s`
/// and leaves what `s` held in front of it.
pub assume_specification[ String::push_str ](s: &mut String, string: &str)
    ensures
        final(s)@ == old(s)@ + string@,
;

} // verus!
