//! The boundary's flat-text result protocol.
//!
//! The boundary has no structured-error channel: every failure crosses it as
//! a single line of text that opens with a fixed, classifying prefix. A
//! tagged error class is kept throughout the bridge, and the lossy
//! flattening to text happens here, in one place.

use vstd::prelude::*;
use vstd::string::StringExecFns;

verus! {

/// The classes of failure that may cross the boundary as prefixed text.
#[derive(Clone, Copy, PartialEq, Eq, Structural, Debug)]
pub enum ErrorClass {
    /// Initialization could not complete.
    Init,
    /// A boundary argument could not be read as native text.
    Arg,
    /// A payload failed strict structural decoding.
    Json,
    /// An operation arrived before any successful initialization.
    State,
    /// A successful engine result could not be re-encoded to text.
    Serialize,
    /// The engine rejected or failed a query.
    Search,
}

/// The fixed prefix that opens a flattened error of the given class.
pub open spec fn class_prefix(c: ErrorClass) -> Seq<char> {
    match c {
        ErrorClass::Init => "INIT_ERROR: "@,
        ErrorClass::Arg => "ARG_ERROR: "@,
        ErrorClass::Json => "JSON_ERROR: "@,
        ErrorClass::State => "STATE_ERROR: "@,
        ErrorClass::Serialize => "SERIALIZE_ERROR: "@,
        ErrorClass::Search => "SEARCH_ERROR: "@,
    }
}

/// The full text of a flattened error: the class prefix followed by the
/// human-readable message, nothing more.
pub open spec fn flat_text(c: ErrorClass, msg: Seq<char>) -> Seq<char> {
    class_prefix(c) + msg
}

/// The text a call returns when it succeeds without a payload.
pub open spec fn ok_text() -> Seq<char> {
    "OK"@
}

fn prefix_str(c: ErrorClass) -> (r: &'static str)
    ensures
        r@ == class_prefix(c),
{
    match c {
        ErrorClass::Init => "INIT_ERROR: ",
        ErrorClass::Arg => "ARG_ERROR: ",
        ErrorClass::Json => "JSON_ERROR: ",
        ErrorClass::State => "STATE_ERROR: ",
        ErrorClass::Serialize => "SERIALIZE_ERROR: ",
        ErrorClass::Search => "SEARCH_ERROR: ",
    }
}

/// Flatten a classified error into the one line of boundary text that
/// carries it.
pub fn flatten_error(c: ErrorClass, msg: &str) -> (r: String)
    ensures
        r@ == flat_text(c, msg@),
{
    let mut s: String = prefix_str(c).to_owned();
    s.append(msg);
    s
}

/// The success text of a payload-free call.
pub fn ok_string() -> (r: String)
    ensures
        r@ == ok_text(),
{
    "OK".to_owned()
}

/// The character of a single decimal digit.
pub open spec fn digit_char(d: int) -> char
    recommends
        0 <= d < 10,
{
    if d == 0 {
        '0'
    } else if d == 1 {
        '1'
    } else if d == 2 {
        '2'
    } else if d == 3 {
        '3'
    } else if d == 4 {
        '4'
    } else if d == 5 {
        '5'
    } else if d == 6 {
        '6'
    } else if d == 7 {
        '7'
    } else if d == 8 {
        '8'
    } else {
        '9'
    }
}

/// The decimal text of a non-negative number, most significant digit
/// first, with no leading zero except for zero itself.
pub open spec fn dec_digits(n: int) -> Seq<char>
    recommends
        n >= 0,
    decreases n,
{
    if n < 10 {
        seq![digit_char(n)]
    } else {
        dec_digits(n / 10) + seq![digit_char(n % 10)]
    }
}

fn digit_str(d: u64) -> (r: &'static str)
    requires
        d < 10,
    ensures
        r@ == seq![digit_char(d as int)],
{
    if d == 0 {
        proof {
            reveal_strlit("0");
            assert("0"@ =~= seq![digit_char(0)]);
        }
        "0"
    } else if d == 1 {
        proof {
            reveal_strlit("1");
            assert("1"@ =~= seq![digit_char(1)]);
        }
        "1"
    } else if d == 2 {
        proof {
            reveal_strlit("2");
            assert("2"@ =~= seq![digit_char(2)]);
        }
        "2"
    } else if d == 3 {
        proof {
            reveal_strlit("3");
            assert("3"@ =~= seq![digit_char(3)]);
        }
        "3"
    } else if d == 4 {
        proof {
            reveal_strlit("4");
            assert("4"@ =~= seq![digit_char(4)]);
        }
        "4"
    } else if d == 5 {
        proof {
            reveal_strlit("5");
            assert("5"@ =~= seq![digit_char(5)]);
        }
        "5"
    } else if d == 6 {
        proof {
            reveal_strlit("6");
            assert("6"@ =~= seq![digit_char(6)]);
        }
        "6"
    } else if d == 7 {
        proof {
            reveal_strlit("7");
            assert("7"@ =~= seq![digit_char(7)]);
        }
        "7"
    } else if d == 8 {
        proof {
            reveal_strlit("8");
            assert("8"@ =~= seq![digit_char(8)]);
        }
        "8"
    } else {
        proof {
            reveal_strlit("9");
            assert("9"@ =~= seq![digit_char(9)]);
        }
        "9"
    }
}

/// The decimal text of `n`.
pub fn decimal_string(n: u64) -> (r: String)
    ensures
        r@ == dec_digits(n as int),
    decreases n,
{
    if n < 10 {
        digit_str(n).to_owned()
    } else {
        let mut s = decimal_string(n / 10);
        s.append(digit_str(n % 10));
        s
    }
}

} // verus!
