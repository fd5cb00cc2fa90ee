//! The closed set of failure kinds used by every component, together with
//! verified construction of the human-readable messages that embed the
//! operating-system error code reported at the failure site.

use vstd::prelude::*;
use vstd::string::StringExecFns;

verus! {

/// Failure kinds: enumeration or memory transfer failed (`ReadWriteError`),
/// the protection-change primitive failed (`ProtectBypassError`), a metadata
/// query failed (`QueryError`), or the target process was confirmed no longer
/// running while being waited on (`ProcessClosedError`).
#[derive(Debug, Clone, Copy, PartialEq, Eq, Structural)]
pub enum ErrorType {
    ReadWriteError,
    ProtectBypassError,
    QueryError,
    ProcessClosedError,
}

/// An error: a kind plus a descriptive message, constructed at the failure
/// site and propagated by return.
#[derive(Debug)]
pub struct DopamineError {
    pub message: String,
    pub error_type: ErrorType,
}

/// The name of a kind, as the display form prints it.
pub open spec fn kind_name(k: ErrorType) -> Seq<char> {
    match k {
        ErrorType::ReadWriteError => "ReadWriteError"@,
        ErrorType::ProtectBypassError => "ProtectBypassError"@,
        ErrorType::QueryError => "QueryError"@,
        ErrorType::ProcessClosedError => "ProcessClosedError"@,
    }
}

/// The name of a kind.
pub fn kind_str(k: ErrorType) -> (s: &'static str)
    ensures
        s@ == kind_name(k),
{
    match k {
        ErrorType::ReadWriteError => "ReadWriteError",
        ErrorType::ProtectBypassError => "ProtectBypassError",
        ErrorType::QueryError => "QueryError",
        ErrorType::ProcessClosedError => "ProcessClosedError",
    }
}

impl DopamineError {
    /// Builds an error from a message and a kind, copying the message.
    pub fn new(message: &str, error_type: ErrorType) -> (r: DopamineError)
        ensures
            r.message@ == message@,
            r.error_type == error_type,
    {
        DopamineError { message: message.to_owned(), error_type }
    }

    /// The display form of the error: `DopamineError (<kind>): <message>`.
    pub fn describe(&self) -> (s: String)
        ensures
            s@ == "DopamineError ("@ + kind_name(self.error_type) + "): "@ + self.message@,
    {
        let mut s = "DopamineError (".to_owned();
        s.append(kind_str(self.error_type));
        s.append("): ");
        s.append(self.message.as_str());
        s
    }
}

/// The character for a single decimal digit.
pub open spec fn digit_char(d: nat) -> char {
    if d == 0 {
        '0'
    } else if d == 1 {
        '1'
    } else if d == 2 {
        '2'
    } else if d == 3 {
        '3'
    } else if d == 4 {
        '4'
    } else if d == 5 {
        '5'
    } else if d == 6 {
        '6'
    } else if d == 7 {
        '7'
    } else if d == 8 {
        '8'
    } else {
        '9'
    }
}

/// The decimal representation of `n`, most significant digit first, with no
/// leading zeros (except for `n == 0` itself).
pub open spec fn decimal(n: nat) -> Seq<char>
    decreases n,
{
    if n < 10 {
        seq![digit_char(n)]
    } else {
        decimal(n / 10) + seq![digit_char(n % 10)]
    }
}

/// The one-character string slice for a single decimal digit.
fn digit_str(d: u32) -> (s: &'static str)
    requires
        d < 10,
    ensures
        s@ == seq![digit_char(d as nat)],
{
    proof {
        reveal_strlit("0");
        reveal_strlit("1");
        reveal_strlit("2");
        reveal_strlit("3");
        reveal_strlit("4");
        reveal_strlit("5");
        reveal_strlit("6");
        reveal_strlit("7");
        reveal_strlit("8");
        reveal_strlit("9");
    }
    let s: &'static str = if d == 0 {
        "0"
    } else if d == 1 {
        "1"
    } else if d == 2 {
        "2"
    } else if d == 3 {
        "3"
    } else if d == 4 {
        "4"
    } else if d == 5 {
        "5"
    } else if d == 6 {
        "6"
    } else if d == 7 {
        "7"
    } else if d == 8 {
        "8"
    } else {
        "9"
    };
    proof {
        assert(s@ =~= seq![digit_char(d as nat)]);
    }
    s
}

/// Renders `n` in decimal.
pub fn u32_to_decimal(n: u32) -> (s: String)
    ensures
        s@ == decimal(n as nat),
    decreases n,
{
    if n < 10 {
        String::from_str(digit_str(n))
    } else {
        let mut s = u32_to_decimal(n / 10);
        let d = digit_str(n % 10);
        s.append(d);
        s
    }
}

/// Builds an error whose message is `prefix` followed by the decimal
/// rendering of the operating-system error code.
pub fn error_with_code(prefix: &str, code: u32, kind: ErrorType) -> (r: DopamineError)
    ensures
        r.message@ == prefix@ + decimal(code as nat),
        r.error_type == kind,
{
    let mut message = prefix.to_owned();
    let digits = u32_to_decimal(code);
    message.append(digits.as_str());
    DopamineError { message, error_type: kind }
}

} // verus!
