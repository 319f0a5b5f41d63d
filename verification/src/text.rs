//! Strings: what std's operations on them do, and numbers written in decimal.

use vstd::prelude::*;

verus! {

/// `String::push` of std: the character is appended.
pub assume_specification[ String::push ](s: &mut String, c: char)
    ensures
        final(s)@ == old(s)@.push(c),
;

/// `String::push_str` of std: the text is appended.
pub assume_specification[ String::push_str ](s: &mut String, tail: &str)
    ensures
        final(s)@ == old(s)@ + tail@,
;

/// `==` of std on `str`: two texts are equal when they hold the same
/// characters.
pub assume_specification[ <str as PartialEq>::eq ](a: &str, b: &str) -> (equal: bool)
    ensures
        equal == (a@ == b@),
;

/// Whether a text has no more than so many characters.
pub fn text_fits(text: &str, most: usize) -> (fits: bool)
    ensures
        fits == (text@.len() <= most),
{
    text.unicode_len() <= most
}

/// The two texts, one behind the other.
pub(crate) fn concat(head: &str, tail: &str) -> (whole: String)
    ensures
        whole@ == head@ + tail@,
{
    let mut whole = head.to_owned();
    whole.push_str(tail);
    whole
}

/// The decimal digit of a number below ten.
pub open spec fn digit(n: nat) -> char
    recommends
        n < 10,
{
    ('0' as nat + n) as char
}

/// A number in decimal, without leading zeros.
pub open spec fn decimal(n: nat) -> Seq<char>
    decreases n,
{
    if n < 10 {
        seq![digit(n)]
    } else {
        decimal(n / 10).push(digit(n % 10))
    }
}

/// Appends a number in decimal.
pub(crate) fn push_decimal(out: &mut String, n: u16)
    ensures
        final(out)@ == old(out)@ + decimal(n as nat),
    decreases n,
{
    if n >= 10 {
        push_decimal(out, n / 10);
    }
    let last: u8 = 48u8 + (n % 10) as u8;
    out.push(last as char);
    proof {
        assert(digit(n as nat % 10) == last as char);
        if n < 10 {
            assert(old(out)@.push(last as char) == old(out)@ + decimal(n as nat));
        } else {
            assert((old(out)@ + decimal(n as nat / 10)).push(last as char) == old(out)@ + decimal(
                n as nat,
            ));
        }
    }
}

/// The number that decimal digits stand for.
pub open spec fn number(digits: Seq<char>) -> int
    decreases digits.len(),
{
    if digits.len() == 0 {
        0
    } else {
        number(digits.drop_last()) * 10 + (digits.last() as int - '0' as int)
    }
}

/// A number in decimal stands for the number, is made of digits, and does not
/// begin with a zero unless it is one.
pub proof fn decimal_is_read_back(n: nat)
    ensures
        number(decimal(n)) == n,
        decimal(n).len() > 0,
        forall|i: int| 0 <= i < decimal(n).len() ==> '0' <= #[trigger] decimal(n)[i] <= '9',
        decimal(n)[0] == '0' ==> n == 0 && decimal(n).len() == 1,
    decreases n,
{
    let digits = decimal(n);
    if n < 10 {
        assert(digits.drop_last() == Seq::<char>::empty());
        assert(digits.last() == digit(n));
        assert(number(digits.drop_last()) == 0);
    } else {
        let init = decimal(n / 10);
        decimal_is_read_back(n / 10);
        assert(digits.drop_last() == init);
        assert(digits.last() == digit(n % 10));
        assert(digits[0] == init[0]);
        assert forall|i: int| 0 <= i < digits.len() implies '0' <= #[trigger] digits[i] <= '9' by {
            if i < init.len() {
                assert(digits[i] == init[i]);
            }
        }
    }
}

} // verus!
