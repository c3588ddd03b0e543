//! Launch at login: the command that the per-user Run registry value holds,
//! the bytes written for it, and the toggle decision.

use vstd::prelude::*;

use crate::text::{encode_utf16, le_bytes, le_bytes_of, utf16_of};

verus! {

/// The Run-value command for the executable at `exe`: the path in double
/// quotes, so that a path containing spaces still parses as one argument.
pub fn command_string(exe: &str) -> (r: String)
    ensures
        r@ == seq!['"'] + exe@ + seq!['"'],
{
    let mut r = String::new();
    r.push('"');
    r.append(exe);
    r.push('"');
    assert(r@ =~= seq!['"'] + exe@ + seq!['"']);
    r
}

/// `s` as a zero-terminated UTF-16 string.
pub fn wide(s: &str) -> (r: Vec<u16>)
    ensures
        r@ == utf16_of(s@).push(0),
{
    let mut units = encode_utf16(s);
    units.push(0);
    units
}

/// The registry data for a string value holding `s`: its zero-terminated
/// UTF-16 units as little-endian bytes, terminator included.
pub fn registry_string_data(s: &str) -> (r: Vec<u8>)
    ensures
        r@ == le_bytes(utf16_of(s@).push(0)),
        r@.len() == 2 * (utf16_of(s@).len() + 1),
{
    let units = wide(s);
    le_bytes_of(units.as_slice())
}

/// The change that flipping launch at login makes.
#[derive(Clone, Copy, PartialEq, Eq, Debug, Structural)]
pub enum AutostartChange {
    /// Add the Run value.
    Enable,
    /// Remove the Run value.
    Disable,
}

/// Flip launch at login: remove the Run value when it exists, add it
/// otherwise.
pub fn toggle(currently_enabled: bool) -> (r: AutostartChange)
    ensures
        currently_enabled ==> r == AutostartChange::Disable,
        !currently_enabled ==> r == AutostartChange::Enable,
{
    if currently_enabled {
        AutostartChange::Disable
    } else {
        AutostartChange::Enable
    }
}

} // verus!
