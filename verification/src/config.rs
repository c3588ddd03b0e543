//! User-configurable settings and the modifier-key test.

use vstd::prelude::*;

verus! {

/// Modifier key combination that must be held to start a move/resize gesture.
/// All listed keys must be held together.
#[derive(Clone, Copy, PartialEq, Eq, Debug, Structural)]
pub enum Modifier {
    /// Ctrl + Alt (default).
    CtrlAlt,
    /// Alt only.
    Alt,
    /// Ctrl + Win (either Win key).
    CtrlWin,
}

/// Which of the keys that the modifiers are made of are down right now.
#[derive(Clone, Copy, PartialEq, Eq, Debug, Structural)]
pub struct KeysDown {
    pub ctrl: bool,
    pub alt: bool,
    pub left_win: bool,
    pub right_win: bool,
}

/// Every key of `m` is down in `keys`.
pub open spec fn held(m: Modifier, keys: KeysDown) -> bool {
    match m {
        Modifier::CtrlAlt => keys.ctrl && keys.alt,
        Modifier::Alt => keys.alt,
        Modifier::CtrlWin => keys.ctrl && (keys.left_win || keys.right_win),
    }
}

/// Returns true if every key of the configured modifier is held.
pub fn modifiers_held(m: Modifier, keys: KeysDown) -> (r: bool)
    ensures
        r == held(m, keys),
        m == Modifier::CtrlAlt ==> (r <==> keys.ctrl && keys.alt),
        m == Modifier::Alt ==> (r <==> keys.alt),
        m == Modifier::CtrlWin ==> (r <==> keys.ctrl && (keys.left_win || keys.right_win)),
{
    match m {
        Modifier::CtrlAlt => keys.ctrl && keys.alt,
        Modifier::Alt => keys.alt,
        Modifier::CtrlWin => keys.ctrl && (keys.left_win || keys.right_win),
    }
}

/// A modifier is held exactly when every key it lists is down: Ctrl and Alt,
/// Alt alone, or Ctrl and either Win key. Keys it does not list play no part.
pub proof fn lemma_held_means_every_key(m: Modifier, keys: KeysDown)
    ensures
        held(Modifier::CtrlAlt, keys) <==> keys.ctrl && keys.alt,
        held(Modifier::Alt, keys) <==> keys.alt,
        held(Modifier::CtrlWin, keys) <==> keys.ctrl && (keys.left_win || keys.right_win),
        !keys.ctrl ==> !held(Modifier::CtrlAlt, keys) && !held(Modifier::CtrlWin, keys),
        !keys.alt ==> !held(Modifier::CtrlAlt, keys) && !held(Modifier::Alt, keys),
        held(m, KeysDown { ctrl: true, alt: true, left_win: true, right_win: true }),
        !held(m, KeysDown { ctrl: false, alt: false, left_win: false, right_win: false }),
{
}

/// Whether an asynchronous key-state word reports the key as down: its
/// high-order bit is set, which for the signed word means it is negative.
pub fn key_state_down(raw: i16) -> (r: bool)
    ensures
        r == (raw < 0),
{
    let bits: u16 = raw as u16;
    let r = (bits & 0x8000u16) != 0;
    assert(((raw as u16) & 0x8000u16) != 0 <==> raw < 0) by (bit_vector);
    r
}

} // verus!
