//! Opt-in diagnostic logging: where the log goes and what a log line says.
//!
//! Logging is chosen by the value of the `EMR_LOG` environment variable:
//! unset or empty disables it, `1` logs next to the executable, any other
//! value is the path of the log file.

use vstd::prelude::*;

use crate::text::{
    decimal, decimal_padded, digits_value, lemma_decimal_reads_back, lemma_pad_left_shape, pad_left,
};

verus! {

/// Where the diagnostic log goes.
#[derive(PartialEq, Eq, Debug)]
pub enum LogTarget {
    /// No logging.
    Disabled,
    /// A file named [`LOG_FILE_NAME`] next to the executable.
    NextToExe,
    /// The file at this path.
    File(String),
}

/// The name of the log file written next to the executable.
pub const LOG_FILE_NAME: &'static str = "easy-move-resize.log";

/// Width of the right-aligned millisecond field of a log line.
pub const MS_WIDTH: usize = 9;

/// The state of the log sink.
#[derive(Clone, Copy, PartialEq, Eq, Debug, Structural)]
pub enum Sink {
    /// Logging was not initialised yet.
    Uninitialised,
    /// Initialised with no file: logging is off.
    Closed,
    /// A log file is open.
    Open,
}

/// Decide where to log from the value of the environment variable (`None`
/// when it is unset).
pub fn log_target(val: Option<&str>) -> (r: LogTarget)
    ensures
        match val {
            None => r == LogTarget::Disabled,
            Some(v) => if v@.len() == 0 {
                r == LogTarget::Disabled
            } else if v@ == seq!['1'] {
                r == LogTarget::NextToExe
            } else {
                r matches LogTarget::File(p) && p@ == v@
            },
        },
{
    let v = match val {
        Some(v) => v,
        None => return LogTarget::Disabled,
    };
    let n = v.unicode_len();
    if n == 0 {
        return LogTarget::Disabled;
    }
    if n == 1 && v.get_char(0) == '1' {
        assert(v@ =~= seq!['1']);
        return LogTarget::NextToExe;
    }
    LogTarget::File(String::from_str(v))
}

/// Whether logging is currently active: a log file is open.
pub fn enabled(sink: Sink) -> (r: bool)
    ensures
        r == (sink == Sink::Open),
{
    match sink {
        Sink::Open => true,
        _ => false,
    }
}

/// One log line: the milliseconds since startup right-aligned in a field of
/// [`MS_WIDTH`] characters and bracketed, then the message, then a newline.
pub open spec fn log_line(ms: nat, msg: Seq<char>) -> Seq<char> {
    seq!['['] + pad_left(decimal(ms), MS_WIDTH as nat) + seq![' ', 'm', 's', ']', ' '] + msg
        + seq!['\n']
}

/// A log line is `[`, a field of at least [`MS_WIDTH`] characters holding
/// spaces then the digits that read as `ms`, then ` ms] `, the message and a
/// newline.
pub proof fn lemma_log_line_shape(ms: nat, msg: Seq<char>)
    ensures
        ({
            let line = log_line(ms, msg);
            let field = pad_left(decimal(ms), MS_WIDTH as nat);
            let w = field.len() as int;
            &&& line[0] == '['
            &&& w >= MS_WIDTH
            &&& line.subrange(1, w + 1) == field
            &&& digits_value(field.subrange(w - decimal(ms).len(), w)) == ms
            &&& forall|i: int| 0 <= i < w - decimal(ms).len() ==> #[trigger] field[i] == ' '
            &&& line.subrange(w + 1, w + 6) == seq![' ', 'm', 's', ']', ' ']
            &&& line.subrange(w + 6, line.len() - 1) == msg
            &&& line[line.len() - 1] == '\n'
        }),
{
    let line = log_line(ms, msg);
    let field = pad_left(decimal(ms), MS_WIDTH as nat);
    let w = field.len() as int;
    lemma_pad_left_shape(decimal(ms), MS_WIDTH as nat);
    lemma_decimal_reads_back(ms);
    assert(line =~= seq!['['] + field + seq![' ', 'm', 's', ']', ' '] + msg + seq!['\n']);
    assert(line.subrange(1, w + 1) =~= field);
    assert(line.subrange(w + 1, w + 6) =~= seq![' ', 'm', 's', ']', ' ']);
    assert(line.subrange(w + 6, line.len() - 1) =~= msg);
}

/// The line to append to the log for `msg`, or `None` when logging is off.
/// `elapsed_ms` is the time since startup, `None` when the start time was
/// not recorded (then it counts as zero).
pub fn write(sink: Sink, elapsed_ms: Option<u128>, msg: &str) -> (r: Option<String>)
    ensures
        sink != Sink::Open ==> r is None,
        sink == Sink::Open ==> (r matches Some(line) && line@ == log_line(
            match elapsed_ms {
                Some(ms) => ms as nat,
                None => 0,
            },
            msg@,
        )),
{
    if !enabled(sink) {
        return None;
    }
    let ms: u128 = match elapsed_ms {
        Some(ms) => ms,
        None => 0,
    };
    let mut line = String::new();
    line.push('[');
    let field = decimal_padded(ms, MS_WIDTH);
    line.append(field.as_str());
    line.push(' ');
    line.push('m');
    line.push('s');
    line.push(']');
    line.push(' ');
    line.append(msg);
    line.push('\n');
    assert(line@ =~= log_line(ms as nat, msg@));
    Some(line)
}

} // verus!
