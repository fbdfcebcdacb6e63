//! Text as the tool and the front end exchange it: the bytes of a process
//! stream read as characters, and numbers written out for a command line.

use vstd::prelude::*;
use vstd::string::StringExecFns;
use vstd::utf8::{decode_utf8, valid_utf8};

verus! {

/// The text that `String::from_utf8_lossy` makes of bytes that are not
/// well-formed UTF-8: the well-formed stretches as they stand, each ill-formed
/// one replaced by U+FFFD. Only that the same bytes always give the same text
/// is known of it here.
pub uninterp spec fn utf8_repaired(bytes: Seq<u8>) -> Seq<char>;

/// The text that a process stream holds: its characters where the bytes are
/// well-formed UTF-8, and a repaired reading of them where they are not.
pub open spec fn lossy_text(bytes: Seq<u8>) -> Seq<char> {
    if valid_utf8(bytes) {
        decode_utf8(bytes)
    } else {
        utf8_repaired(bytes)
    }
}

/// Reads bytes as text with `String::from_utf8_lossy`.
///
/// Trusted: well-formed UTF-8 comes back as the characters it encodes, and
/// any other input as the repaired text that the standard library documents,
/// which depends on the bytes alone.
#[verifier::external_body]
pub(crate) fn read_lossy(bytes: &Vec<u8>) -> (text: String)
    ensures
        valid_utf8(bytes@) ==> text@ == decode_utf8(bytes@),
        !valid_utf8(bytes@) ==> text@ == utf8_repaired(bytes@),
{
    String::from_utf8_lossy(bytes).into_owned()
}

/// The character that stands for a single decimal digit.
pub open spec fn digit_char(d: int) -> char
    recommends
        0 <= d < 10,
{
    if d == 0 {
        '0'
    } else if d == 1 {
        '1'
    } else if d == 2 {
        '2'
    } else if d == 3 {
        '3'
    } else if d == 4 {
        '4'
    } else if d == 5 {
        '5'
    } else if d == 6 {
        '6'
    } else if d == 7 {
        '7'
    } else if d == 8 {
        '8'
    } else {
        '9'
    }
}

/// The decimal digits of a natural number, most significant first, without
/// leading zeros; zero is the single digit `0`.
pub open spec fn digits(n: nat) -> Seq<char>
    decreases n,
{
    if n < 10 {
        seq![digit_char(n as int)]
    } else {
        digits(n / 10).push(digit_char((n % 10) as int))
    }
}

/// An integer in decimal notation: its digits, after a minus sign if it is
/// negative.
pub open spec fn decimal(n: int) -> Seq<char> {
    if n < 0 {
        seq!['-'] + digits((-n) as nat)
    } else {
        digits(n as nat)
    }
}

/// The one-character string of a decimal digit.
fn digit_str(d: u8) -> (text: &'static str)
    requires
        d < 10,
    ensures
        text@ == seq![digit_char(d as int)],
{
    proof {
        reveal_strlit("0");
        reveal_strlit("1");
        reveal_strlit("2");
        reveal_strlit("3");
        reveal_strlit("4");
        reveal_strlit("5");
        reveal_strlit("6");
        reveal_strlit("7");
        reveal_strlit("8");
        reveal_strlit("9");
    }
    let text = if d == 0 {
        "0"
    } else if d == 1 {
        "1"
    } else if d == 2 {
        "2"
    } else if d == 3 {
        "3"
    } else if d == 4 {
        "4"
    } else if d == 5 {
        "5"
    } else if d == 6 {
        "6"
    } else if d == 7 {
        "7"
    } else if d == 8 {
        "8"
    } else {
        "9"
    };
    assert(text@ =~= seq![digit_char(d as int)]);
    text
}

/// Writes a number in decimal notation, as a command line takes it.
pub fn decimal_string(n: i32) -> (text: String)
    ensures
        text@ == decimal(n as int),
{
    let negative = n < 0;
    let wide: i64 = n as i64;
    let magnitude: u32 = if negative {
        (-wide) as u32
    } else {
        wide as u32
    };
    let mut rest: u32 = magnitude / 10;
    let mut text = String::from_str(digit_str((magnitude % 10) as u8));
    while rest > 0
        invariant
            rest > 0 ==> digits(magnitude as nat) == digits(rest as nat) + text@,
            rest == 0 ==> digits(magnitude as nat) == text@,
        decreases rest,
    {
        let low = String::from_str(digit_str((rest % 10) as u8));
        proof {
            let rest_digits = digits(rest as nat);
            if rest >= 10 {
                assert(rest_digits + text@ =~= digits((rest / 10) as nat) + (low@ + text@));
            } else {
                assert(rest_digits + text@ =~= low@ + text@);
            }
        }
        text = low.concat(text.as_str());
        rest = rest / 10;
    }
    if negative {
        proof {
            reveal_strlit("-");
        }
        let signed = String::from_str("-").concat(text.as_str());
        assert(signed@ =~= seq!['-'] + digits((-n) as nat));
        signed
    } else {
        text
    }
}

} // verus!
