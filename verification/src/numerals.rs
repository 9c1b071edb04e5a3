//! Numbers as they are written into a spoken message.

use vstd::prelude::*;
use vstd::string::*;

verus! {

// ---------------------------------------------------------------------------
// Decimal digits
// ---------------------------------------------------------------------------

/// The character of a decimal digit.
pub open spec fn digit_char(d: int) -> char {
    if d == 0 {
        '0'
    } else if d == 1 {
        '1'
    } else if d == 2 {
        '2'
    } else if d == 3 {
        '3'
    } else if d == 4 {
        '4'
    } else if d == 5 {
        '5'
    } else if d == 6 {
        '6'
    } else if d == 7 {
        '7'
    } else if d == 8 {
        '8'
    } else {
        '9'
    }
}

/// The decimal notation of `n`, without leading zeros.
pub open spec fn decimal(n: nat) -> Seq<char>
    decreases n,
{
    if n < 10 {
        seq![digit_char(n as int)]
    } else {
        decimal(n / 10).push(digit_char((n % 10) as int))
    }
}

/// The one-character text of a decimal digit.
fn digit_str(d: u64) -> (r: &'static str)
    requires
        d < 10,
    ensures
        r@ == seq![digit_char(d as int)],
{
    proof {
        reveal_strlit("0");
        reveal_strlit("1");
        reveal_strlit("2");
        reveal_strlit("3");
        reveal_strlit("4");
        reveal_strlit("5");
        reveal_strlit("6");
        reveal_strlit("7");
        reveal_strlit("8");
        reveal_strlit("9");
    }
    let r = if d == 0 {
        "0"
    } else if d == 1 {
        "1"
    } else if d == 2 {
        "2"
    } else if d == 3 {
        "3"
    } else if d == 4 {
        "4"
    } else if d == 5 {
        "5"
    } else if d == 6 {
        "6"
    } else if d == 7 {
        "7"
    } else if d == 8 {
        "8"
    } else {
        "9"
    };
    proof {
        assert(r@ =~= seq![digit_char(d as int)]);
    }
    r
}

/// Writes `n` in decimal notation.
pub fn decimal_string(n: u64) -> (r: String)
    ensures
        r@ == decimal(n as nat),
    decreases n,
{
    if n < 10 {
        String::from_str(digit_str(n))
    } else {
        let mut s = decimal_string(n / 10);
        s.append(digit_str(n % 10));
        proof {
            assert(s@ =~= decimal((n / 10) as nat).push(digit_char((n % 10) as int)));
        }
        s
    }
}

// ---------------------------------------------------------------------------
// Fixed width
// ---------------------------------------------------------------------------

/// `digits` with zeros put in front until it is `width` characters long.
pub open spec fn zero_padded(digits: Seq<char>, width: nat) -> Seq<char> {
    if digits.len() >= width {
        digits
    } else {
        Seq::new((width - digits.len()) as nat, |i: int| '0') + digits
    }
}

/// `n` written in at least three characters: zeros fill the room between the
/// sign, if there is one, and the digits.
pub open spec fn three_wide(n: int) -> Seq<char> {
    if n >= 0 {
        zero_padded(decimal(n as nat), 3)
    } else {
        seq!['-'] + zero_padded(decimal((-n) as nat), 2)
    }
}

/// Puts zeros in front of `digits` until it is `width` characters long.
fn zero_pad(digits: String, width: usize) -> (r: String)
    ensures
        r@ == zero_padded(digits@, width as nat),
{
    let len = digits.as_str().unicode_len();
    if len >= width {
        return digits;
    }
    let mut zeros = String::new();
    let mut k: usize = 0;
    while k < width - len
        invariant
            len < width,
            k <= width - len,
            zeros@ == Seq::new(k as nat, |i: int| '0'),
        decreases width - len - k,
    {
        proof {
            reveal_strlit("0");
        }
        zeros.append("0");
        proof {
            assert(zeros@ =~= Seq::new((k + 1) as nat, |i: int| '0'));
        }
        k += 1;
    }
    zeros.append(digits.as_str());
    zeros
}

/// Writes `n` in at least three characters.
pub fn three_digits(n: i64) -> (r: String)
    ensures
        r@ == three_wide(n as int),
{
    if n >= 0 {
        zero_pad(decimal_string(n as u64), 3)
    } else {
        let magnitude: u64 = if n == i64::MIN {
            9223372036854775808u64
        } else {
            (-n) as u64
        };
        let digits = zero_pad(decimal_string(magnitude), 2);
        let mut s = String::from_str("-");
        s.append(digits.as_str());
        proof {
            reveal_strlit("-");
            assert("-"@ =~= seq!['-']);
        }
        s
    }
}

// ---------------------------------------------------------------------------
// Digits read out one by one
// ---------------------------------------------------------------------------

/// The characters of `s` with `sep` between each two neighbours.
pub open spec fn interleaved(s: Seq<char>, sep: Seq<char>) -> Seq<char>
    decreases s.len(),
{
    if s.len() == 0 {
        Seq::empty()
    } else if s.len() == 1 {
        s
    } else {
        interleaved(s.drop_last(), sep) + sep + seq![s.last()]
    }
}

/// Puts `sep` between each two neighbouring characters of `text`.
///
/// Trusted: calls `itertools::Itertools::join` on the characters of `text`.
/// That function writes the first item, then for each further item the
/// separator and the item, each item as its `Display` prints it; a `char`
/// prints as itself.
#[verifier::external_body]
pub(crate) fn join_chars(text: &str, sep: &str) -> (r: String)
    ensures
        r@ == interleaved(text@, sep@),
{
    itertools::Itertools::join(&mut text.chars(), sep)
}

/// A number as it is read out on the radio: three digits, each said by
/// itself.
pub open spec fn spoken_digits(n: int) -> Seq<char> {
    interleaved(three_wide(n), " "@)
}

/// Writes a number as it is read out on the radio.
pub fn speak_digits(n: i64) -> (r: String)
    ensures
        r@ == spoken_digits(n as int),
{
    let digits = three_digits(n);
    join_chars(digits.as_str(), " ")
}

// ---------------------------------------------------------------------------
// Angles
// ---------------------------------------------------------------------------

/// An angle in whole degrees brought into one turn: the angle from 0 up to,
/// and without, 360 that differs from `d` by whole turns.
pub open spec fn wrap_degrees(d: int) -> int {
    d % 360
}

/// Computes [`wrap_degrees`].
pub fn wrapped_degrees(d: i64) -> (r: i64)
    ensures
        r == wrap_degrees(d as int),
        0 <= r < 360,
{
    if d >= 0 {
        d % 360
    } else {
        let below: i64 = -(d + 1);
        let back: i64 = below % 360;
        proof {
            assert((-(below + 1)) % 360 == 359 - below % 360) by (nonlinear_arith)
                requires
                    below >= 0,
            ;
        }
        359 - back
    }
}

} // verus!
