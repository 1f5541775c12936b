//! Decimal formatting of version numbers and UTF-8 decoding of firmware
//! names.

use vstd::prelude::*;
use vstd::string::StringExecFns;

use crate::error::Error;

verus! {

/// The character of one decimal digit.
pub open spec fn dec_digit(d: int) -> char {
    if d == 0 {
        '0'
    } else if d == 1 {
        '1'
    } else if d == 2 {
        '2'
    } else if d == 3 {
        '3'
    } else if d == 4 {
        '4'
    } else if d == 5 {
        '5'
    } else if d == 6 {
        '6'
    } else if d == 7 {
        '7'
    } else if d == 8 {
        '8'
    } else {
        '9'
    }
}

/// The decimal digits of a non-negative number, most significant first.
pub open spec fn dec_str(n: int) -> Seq<char>
    decreases n,
{
    if n < 10 {
        seq![dec_digit(n)]
    } else {
        dec_str(n / 10).push(dec_digit(n % 10))
    }
}

/// A version string `"{major}.{minor}"`.
pub open spec fn version_str(major: u8, minor: u8) -> Seq<char> {
    dec_str(major as int) + seq!['.'] + dec_str(minor as int)
}

/// The single-character string of one decimal digit.
fn digit_str(d: u8) -> (r: &'static str)
    requires
        d < 10,
    ensures
        r@ == seq![dec_digit(d as int)],
{
    let r = if d == 0 {
        "0"
    } else if d == 1 {
        "1"
    } else if d == 2 {
        "2"
    } else if d == 3 {
        "3"
    } else if d == 4 {
        "4"
    } else if d == 5 {
        "5"
    } else if d == 6 {
        "6"
    } else if d == 7 {
        "7"
    } else if d == 8 {
        "8"
    } else {
        "9"
    };
    proof {
        reveal_strlit("0");
        reveal_strlit("1");
        reveal_strlit("2");
        reveal_strlit("3");
        reveal_strlit("4");
        reveal_strlit("5");
        reveal_strlit("6");
        reveal_strlit("7");
        reveal_strlit("8");
        reveal_strlit("9");
        assert(r@ =~= seq![dec_digit(d as int)]);
    }
    r
}

/// Appends the decimal digits of `n` to `s`.
fn push_decimal(s: &mut String, n: u8)
    ensures
        final(s)@ == old(s)@ + dec_str(n as int),
{
    let ghost start = s@;
    if n >= 100 {
        s.append(digit_str(n / 100));
        s.append(digit_str((n / 10) % 10));
        s.append(digit_str(n % 10));
        proof {
            assert(n / 100 < 10);
            assert(n as int / 10 / 10 == n as int / 100) by (nonlinear_arith);
            assert(n as int / 10 >= 10);
            assert(dec_str(n as int / 100) =~= seq![dec_digit(n as int / 100)]);
            assert(dec_str(n as int / 10) =~= dec_str(n as int / 10 / 10).push(
                dec_digit(n as int / 10 % 10),
            ));
            assert(dec_str(n as int / 10) =~= seq![
                dec_digit(n as int / 100),
                dec_digit(n as int / 10 % 10),
            ]);
            assert(dec_str(n as int) =~= dec_str(n as int / 10).push(dec_digit(n as int % 10)));
            assert(s@ =~= start + dec_str(n as int));
        }
    } else if n >= 10 {
        s.append(digit_str(n / 10));
        s.append(digit_str(n % 10));
        proof {
            assert(n / 10 < 10);
            assert(dec_str(n as int / 10) =~= seq![dec_digit(n as int / 10)]);
            assert(dec_str(n as int) =~= dec_str(n as int / 10).push(dec_digit(n as int % 10)));
            assert(s@ =~= start + dec_str(n as int));
        }
    } else {
        s.append(digit_str(n));
        proof {
            assert(s@ =~= start + dec_str(n as int));
        }
    }
}

/// The string `"{major}.{minor}"` of a two-part version number.
pub fn version_string(major: u8, minor: u8) -> (r: String)
    ensures
        r@ == version_str(major, minor),
{
    let mut s = String::new();
    push_decimal(&mut s, major);
    s.append(".");
    push_decimal(&mut s, minor);
    proof {
        reveal_strlit(".");
        assert(s@ =~= version_str(major, minor));
    }
    s
}

/// Relies on std::str::from_utf8: returns the borrowed text exactly when
/// the bytes are valid UTF-8, whose characters are the decoded scalars.
#[verifier::external_body]
fn utf8_to_str(bytes: &[u8]) -> (r: Result<&str, Error>)
    ensures
        r is Ok <==> vstd::utf8::valid_utf8(bytes@),
        r is Ok ==> r->Ok_0@ == vstd::utf8::decode_utf8(bytes@),
        r is Err ==> r->Err_0 == Error::Utf8Error,
{
    std::str::from_utf8(bytes).map_err(|_| Error::Utf8Error)
}

/// Decodes UTF-8 bytes into an owned string, or fails with
/// [`Error::Utf8Error`].
pub fn utf8_to_string(bytes: &[u8]) -> (r: Result<String, Error>)
    ensures
        r is Ok <==> vstd::utf8::valid_utf8(bytes@),
        r is Ok ==> r->Ok_0@ == vstd::utf8::decode_utf8(bytes@),
        r is Err ==> r->Err_0 == Error::Utf8Error,
{
    match utf8_to_str(bytes) {
        Ok(s) => Ok(s.to_owned()),
        Err(e) => Err(e),
    }
}

} // verus!
