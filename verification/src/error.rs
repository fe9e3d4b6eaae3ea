//! The error taxonomy: a closed set of failure kinds covering engine status
//! codes, text-encoding failures, and parameter validation failures, together
//! with a total rendering of each kind into a human-readable message.

use vstd::prelude::*;
use vstd::string::StrSliceExecFns;
use vstd::string::StringExecFns;

use crate::parameter::param_name;
use crate::parameter::EspeakParam;

verus! {

/// Engine status code: the call succeeded.
pub const EE_OK: i32 = 0;

/// Engine status code: internal error.
pub const EE_INTERNAL_ERROR: i32 = -1;

/// Engine status code: buffer full.
pub const EE_BUFFER_FULL: i32 = 1;

/// Engine status code: the named item was not found.
pub const EE_NOT_FOUND: i32 = 2;

/// A failure of a session operation.
#[derive(Clone, Debug, PartialEq, Eq, Structural)]
pub enum Error {
    /// The engine returned the wrapped non-success status code.
    Espeak(i32),
    /// The engine reported no voice list where at least one voice was expected.
    NoVoicesAvailable,
    /// The value was rejected by validation before any engine call: it lies
    /// outside the parameter's declared range.
    InvalidParamValue(EspeakParam, u32),
    /// Text bound for the engine could not be represented as a null-terminated
    /// byte string because it holds an embedded null byte.
    NullPointer,
    /// Text returned by the engine could not be decoded as valid UTF-8.
    InvalidUtf8,
}

/// The description that `espeak_error_msg` gives for `code`: a known subset of
/// codes maps to a specific description, any other code to a generic one, so
/// the mapping is total.
pub open spec fn espeak_error_msg_spec(code: i32) -> Seq<char> {
    if code == EE_INTERNAL_ERROR {
        "internal error"@
    } else if code == EE_BUFFER_FULL {
        "buffer full"@
    } else if code == EE_NOT_FOUND {
        "not found"@
    } else {
        "unknown error"@
    }
}

/// Describes an engine status code; never fails, unrecognized codes get a
/// generic description.
pub fn espeak_error_msg(code: i32) -> (r: &'static str)
    ensures
        r@ == espeak_error_msg_spec(code),
{
    if code == EE_INTERNAL_ERROR {
        "internal error"
    } else if code == EE_BUFFER_FULL {
        "buffer full"
    } else if code == EE_NOT_FOUND {
        "not found"
    } else {
        "unknown error"
    }
}

/// The decimal digit character for `d`.
pub open spec fn digit_char(d: nat) -> char {
    if d == 0 {
        '0'
    } else if d == 1 {
        '1'
    } else if d == 2 {
        '2'
    } else if d == 3 {
        '3'
    } else if d == 4 {
        '4'
    } else if d == 5 {
        '5'
    } else if d == 6 {
        '6'
    } else if d == 7 {
        '7'
    } else if d == 8 {
        '8'
    } else {
        '9'
    }
}

/// The decimal rendering of `n`, most significant digit first, without
/// leading zeros (except for `n == 0` itself).
pub open spec fn dec_chars(n: nat) -> Seq<char>
    decreases n,
{
    if n < 10 {
        seq![digit_char(n)]
    } else {
        dec_chars(n / 10).push(digit_char(n % 10))
    }
}

fn digit_str(d: u32) -> (r: &'static str)
    requires
        d < 10,
    ensures
        r@ == seq![digit_char(d as nat)],
{
    proof {
        reveal_strlit("0");
        reveal_strlit("1");
        reveal_strlit("2");
        reveal_strlit("3");
        reveal_strlit("4");
        reveal_strlit("5");
        reveal_strlit("6");
        reveal_strlit("7");
        reveal_strlit("8");
        reveal_strlit("9");
    }
    let r = if d == 0 {
        "0"
    } else if d == 1 {
        "1"
    } else if d == 2 {
        "2"
    } else if d == 3 {
        "3"
    } else if d == 4 {
        "4"
    } else if d == 5 {
        "5"
    } else if d == 6 {
        "6"
    } else if d == 7 {
        "7"
    } else if d == 8 {
        "8"
    } else {
        "9"
    };
    proof {
        assert(r@ =~= seq![digit_char(d as nat)]);
    }
    r
}

fn u32_dec(n: u32) -> (r: String)
    ensures
        r@ == dec_chars(n as nat),
    decreases n,
{
    if n < 10 {
        String::from_str(digit_str(n))
    } else {
        let mut s = u32_dec(n / 10);
        s.append(digit_str(n % 10));
        proof {
            assert(s@ =~= dec_chars((n / 10) as nat).push(digit_char((n % 10) as nat)));
        }
        s
    }
}

/// The message that `Error::message` renders for `e`.
pub open spec fn error_message_spec(e: Error) -> Seq<char> {
    match e {
        Error::Espeak(code) => "espeak operation failed: "@ + espeak_error_msg_spec(code),
        Error::NoVoicesAvailable => "no voices available"@,
        Error::InvalidParamValue(p, v) => "invalid value for '"@ + param_name(p) + "': "@
            + dec_chars(v as nat),
        Error::NullPointer => "nul byte found in provided data"@,
        Error::InvalidUtf8 => "invalid utf-8 sequence"@,
    }
}

impl Error {
    /// Renders this failure as a human-readable message; total over all
    /// variants, including unrecognized engine status codes.
    pub fn message(&self) -> (r: String)
        ensures
            r@ == error_message_spec(*self),
    {
        match self {
            Error::Espeak(code) => {
                let mut s = String::from_str("espeak operation failed: ");
                s.append(espeak_error_msg(*code));
                s
            },
            Error::NoVoicesAvailable => String::from_str("no voices available"),
            Error::InvalidParamValue(p, v) => {
                let mut s = String::from_str("invalid value for '");
                s.append(p.name());
                s.append("': ");
                let num = u32_dec(*v);
                s.append(num.as_str());
                proof {
                    assert(s@ =~= error_message_spec(*self));
                }
                s
            },
            Error::NullPointer => String::from_str("nul byte found in provided data"),
            Error::InvalidUtf8 => String::from_str("invalid utf-8 sequence"),
        }
    }
}

} // verus!
