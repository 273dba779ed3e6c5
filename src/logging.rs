//! The bridge from the native toolkit's log callback to host log records.
use vstd::prelude::*;
use vstd::string::StringExecFns;

use crate::text::{decoded_text, text_from_native};

verus! {

/// Severity of a log message, one to one with the native levels.
#[derive(Clone, Copy, Debug, PartialEq, Eq, Structural)]
pub enum Severity {
    Error,
    Warn,
    Info,
    Debug,
    Trace,
}

/// A log record ready for the host logging system.
pub struct LogRecord {
    pub severity: Severity,
    /// The logger or category name.
    pub target: String,
    /// `[file:line] message`.
    pub text: String,
}

/// The ten decimal digits, in order of value.
pub open spec fn digit_chars() -> Seq<char> {
    seq!['0', '1', '2', '3', '4', '5', '6', '7', '8', '9']
}

/// The decimal notation of `n`, without leading zeros.
pub open spec fn decimal(n: nat) -> Seq<char>
    decreases n,
{
    if n < 10 {
        seq![digit_chars()[n as int]]
    } else {
        decimal(n / 10) + seq![digit_chars()[(n % 10) as int]]
    }
}

/// The text of a record: `[file:line] message`.
pub open spec fn record_text(file: Seq<char>, line: nat, msg: Seq<char>) -> Seq<char> {
    seq!['['] + file + seq![':'] + decimal(line) + seq![']', ' '] + msg
}

fn digit_str(d: u32) -> (r: &'static str)
    requires
        d < 10,
    ensures
        r@ == seq![digit_chars()[d as int]],
{
    proof {
        reveal_strlit("0");
        reveal_strlit("1");
        reveal_strlit("2");
        reveal_strlit("3");
        reveal_strlit("4");
        reveal_strlit("5");
        reveal_strlit("6");
        reveal_strlit("7");
        reveal_strlit("8");
        reveal_strlit("9");
    }
    match d {
        0 => "0",
        1 => "1",
        2 => "2",
        3 => "3",
        4 => "4",
        5 => "5",
        6 => "6",
        7 => "7",
        8 => "8",
        _ => "9",
    }
}

/// The decimal notation of a line number.
pub fn decimal_text(n: u32) -> (r: String)
    ensures
        r@ == decimal(n as nat),
    decreases n,
{
    if n < 10 {
        String::from_str(digit_str(n))
    } else {
        let mut s = decimal_text(n / 10);
        s.append(digit_str(n % 10));
        s
    }
}

/// Turns one call of the native log callback into a host record. Every
/// string view is decoded with replacement, so no input makes it fail.
pub fn forward_log(severity: Severity, msg: &[u8], file: &[u8], line: u32, target: &[u8]) -> (r:
    LogRecord)
    ensures
        r.severity == severity,
        r.target@ == decoded_text(target@),
        r.text@ == record_text(decoded_text(file@), line as nat, decoded_text(msg@)),
{
    proof {
        reveal_strlit("[");
        reveal_strlit(":");
        reveal_strlit("] ");
    }
    let file_text = text_from_native(file);
    let msg_text = text_from_native(msg);
    let mut text = String::from_str("[");
    text.append(file_text.as_str());
    text.append(":");
    let line_text = decimal_text(line);
    text.append(line_text.as_str());
    text.append("] ");
    text.append(msg_text.as_str());
    proof {
        assert(text@ =~= record_text(decoded_text(file@), line as nat, decoded_text(msg@)));
    }
    LogRecord { severity, target: text_from_native(target), text }
}

} // verus!
