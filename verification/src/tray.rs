//! The tray icon: its context menu, the commands the menu sends, and the
//! tooltip text.

use vstd::prelude::*;

use crate::config::Modifier;
use crate::gesture::AppState;

verus! {

/// Menu command: toggle gestures on and off.
pub const ID_ENABLED: usize = 1;

/// Menu command: toggle raising the window when a gesture starts.
pub const ID_BRING_FRONT: usize = 2;

/// Menu command: toggle launch at login.
pub const ID_AUTOSTART: usize = 3;

/// Menu command: use Ctrl + Alt as the modifier.
pub const ID_MOD_CTRL_ALT: usize = 10;

/// Menu command: use Alt as the modifier.
pub const ID_MOD_ALT: usize = 11;

/// Menu command: use Ctrl + Win as the modifier.
pub const ID_MOD_CTRL_WIN: usize = 12;

/// Menu command: quit.
pub const ID_QUIT: usize = 99;

/// The tooltip of the tray icon.
pub const TIP_TEXT: &'static str = "Easy Move+Resize";

/// One line of the tray menu.
#[derive(Clone, Copy, PartialEq, Eq, Debug, Structural)]
pub enum MenuEntry {
    /// A command with a check mark when `checked`.
    Item { id: usize, checked: bool },
    Separator,
}

/// What the program does beyond the state change for a menu command.
#[derive(Clone, Copy, PartialEq, Eq, Debug, Structural)]
pub enum CommandEffect {
    Nothing,
    /// Flip launch at login.
    ToggleAutostart,
    /// Destroy the tray window, which ends the message loop.
    Quit,
}

/// The tray menu for state `s`, with launch at login currently `autostart_on`.
pub open spec fn menu_of(s: AppState, autostart_on: bool) -> Seq<MenuEntry> {
    seq![
        MenuEntry::Item { id: ID_ENABLED, checked: s.enabled },
        MenuEntry::Item { id: ID_BRING_FRONT, checked: s.bring_to_front },
        MenuEntry::Item { id: ID_AUTOSTART, checked: autostart_on },
        MenuEntry::Separator,
        MenuEntry::Item { id: ID_MOD_CTRL_ALT, checked: s.modifier == Modifier::CtrlAlt },
        MenuEntry::Item { id: ID_MOD_ALT, checked: s.modifier == Modifier::Alt },
        MenuEntry::Item { id: ID_MOD_CTRL_WIN, checked: s.modifier == Modifier::CtrlWin },
        MenuEntry::Separator,
        MenuEntry::Item { id: ID_QUIT, checked: false },
    ]
}

/// The state and effect after menu command `cmd`; unknown commands (such as
/// the zero of a dismissed menu) do nothing.
pub open spec fn after_command(s: AppState, cmd: usize) -> (AppState, CommandEffect) {
    if cmd == ID_ENABLED {
        (AppState { enabled: !s.enabled, ..s }, CommandEffect::Nothing)
    } else if cmd == ID_BRING_FRONT {
        (AppState { bring_to_front: !s.bring_to_front, ..s }, CommandEffect::Nothing)
    } else if cmd == ID_AUTOSTART {
        (s, CommandEffect::ToggleAutostart)
    } else if cmd == ID_MOD_CTRL_ALT {
        (AppState { modifier: Modifier::CtrlAlt, ..s }, CommandEffect::Nothing)
    } else if cmd == ID_MOD_ALT {
        (AppState { modifier: Modifier::Alt, ..s }, CommandEffect::Nothing)
    } else if cmd == ID_MOD_CTRL_WIN {
        (AppState { modifier: Modifier::CtrlWin, ..s }, CommandEffect::Nothing)
    } else if cmd == ID_QUIT {
        (s, CommandEffect::Quit)
    } else {
        (s, CommandEffect::Nothing)
    }
}

/// The first `min(len, capacity - 1)` units of `units`: what fits in a
/// tooltip buffer of `capacity` units with room for the terminating zero.
pub open spec fn tip_prefix(units: Seq<u16>, capacity: nat) -> Seq<u16> {
    if units.len() < capacity - 1 {
        units
    } else {
        units.take(capacity - 1)
    }
}

impl AppState {
    /// The entries of the tray menu, top to bottom.
    pub fn menu_entries(&self, autostart_on: bool) -> (r: Vec<MenuEntry>)
        ensures
            r@ == menu_of(*self, autostart_on),
            r@.len() == 9,
            r@[0] == (MenuEntry::Item { id: ID_ENABLED, checked: self.enabled }),
            r@[1] == (MenuEntry::Item { id: ID_BRING_FRONT, checked: self.bring_to_front }),
            r@[2] == (MenuEntry::Item { id: ID_AUTOSTART, checked: autostart_on }),
            r@[3] == MenuEntry::Separator,
            r@[4] == (MenuEntry::Item {
                id: ID_MOD_CTRL_ALT,
                checked: self.modifier == Modifier::CtrlAlt,
            }),
            r@[5] == (MenuEntry::Item { id: ID_MOD_ALT, checked: self.modifier == Modifier::Alt }),
            r@[6] == (MenuEntry::Item {
                id: ID_MOD_CTRL_WIN,
                checked: self.modifier == Modifier::CtrlWin,
            }),
            r@[7] == MenuEntry::Separator,
            r@[8] == (MenuEntry::Item { id: ID_QUIT, checked: false }),
    {
        let m = self.modifier;
        let mut v: Vec<MenuEntry> = Vec::new();
        v.push(MenuEntry::Item { id: ID_ENABLED, checked: self.enabled });
        v.push(MenuEntry::Item { id: ID_BRING_FRONT, checked: self.bring_to_front });
        v.push(MenuEntry::Item { id: ID_AUTOSTART, checked: autostart_on });
        v.push(MenuEntry::Separator);
        v.push(MenuEntry::Item { id: ID_MOD_CTRL_ALT, checked: m == Modifier::CtrlAlt });
        v.push(MenuEntry::Item { id: ID_MOD_ALT, checked: m == Modifier::Alt });
        v.push(MenuEntry::Item { id: ID_MOD_CTRL_WIN, checked: m == Modifier::CtrlWin });
        v.push(MenuEntry::Separator);
        v.push(MenuEntry::Item { id: ID_QUIT, checked: false });
        assert(v@ =~= menu_of(*self, autostart_on));
        v
    }

    /// Act on the menu command `cmd`: toggle a setting, select a modifier, or
    /// report the outside action (launch at login, quit) to perform.
    pub fn handle_command(&mut self, cmd: usize) -> (r: CommandEffect)
        ensures
            (*final(self), r) == after_command(*old(self), cmd),
            final(self).drag == old(self).drag,
            cmd == ID_ENABLED ==> final(self).enabled == !old(self).enabled,
            cmd != ID_ENABLED ==> final(self).enabled == old(self).enabled,
            cmd == ID_BRING_FRONT ==> final(self).bring_to_front == !old(self).bring_to_front,
            cmd != ID_BRING_FRONT ==> final(self).bring_to_front == old(self).bring_to_front,
            cmd == ID_MOD_CTRL_ALT ==> final(self).modifier == Modifier::CtrlAlt,
            cmd == ID_MOD_ALT ==> final(self).modifier == Modifier::Alt,
            cmd == ID_MOD_CTRL_WIN ==> final(self).modifier == Modifier::CtrlWin,
            !(cmd == ID_MOD_CTRL_ALT || cmd == ID_MOD_ALT || cmd == ID_MOD_CTRL_WIN)
                ==> final(self).modifier == old(self).modifier,
            (r == CommandEffect::ToggleAutostart) <==> cmd == ID_AUTOSTART,
            (r == CommandEffect::Quit) <==> cmd == ID_QUIT,
    {
        if cmd == ID_ENABLED {
            self.enabled = !self.enabled;
            CommandEffect::Nothing
        } else if cmd == ID_BRING_FRONT {
            self.bring_to_front = !self.bring_to_front;
            CommandEffect::Nothing
        } else if cmd == ID_AUTOSTART {
            CommandEffect::ToggleAutostart
        } else if cmd == ID_MOD_CTRL_ALT {
            self.modifier = Modifier::CtrlAlt;
            CommandEffect::Nothing
        } else if cmd == ID_MOD_ALT {
            self.modifier = Modifier::Alt;
            CommandEffect::Nothing
        } else if cmd == ID_MOD_CTRL_WIN {
            self.modifier = Modifier::CtrlWin;
            CommandEffect::Nothing
        } else if cmd == ID_QUIT {
            CommandEffect::Quit
        } else {
            CommandEffect::Nothing
        }
    }
}

/// The label of menu command `id`.
pub fn menu_label(id: usize) -> (r: Option<&'static str>)
    ensures
        id == ID_ENABLED ==> r == Some("Enabled"),
        id == ID_BRING_FRONT ==> r == Some("Bring window to front"),
        id == ID_AUTOSTART ==> r == Some("Start at login"),
        id == ID_MOD_CTRL_ALT ==> r == Some("Modifier: Ctrl + Alt"),
        id == ID_MOD_ALT ==> r == Some("Modifier: Alt"),
        id == ID_MOD_CTRL_WIN ==> r == Some("Modifier: Ctrl + Win"),
        id == ID_QUIT ==> r == Some("Quit"),
        r is None <==> !(id == ID_ENABLED || id == ID_BRING_FRONT || id == ID_AUTOSTART || id
            == ID_MOD_CTRL_ALT || id == ID_MOD_ALT || id == ID_MOD_CTRL_WIN || id == ID_QUIT),
{
    if id == ID_ENABLED {
        Some("Enabled")
    } else if id == ID_BRING_FRONT {
        Some("Bring window to front")
    } else if id == ID_AUTOSTART {
        Some("Start at login")
    } else if id == ID_MOD_CTRL_ALT {
        Some("Modifier: Ctrl + Alt")
    } else if id == ID_MOD_ALT {
        Some("Modifier: Alt")
    } else if id == ID_MOD_CTRL_WIN {
        Some("Modifier: Ctrl + Win")
    } else if id == ID_QUIT {
        Some("Quit")
    } else {
        None
    }
}

/// The tooltip units that fit a buffer of `capacity` units, leaving room for
/// the terminating zero: the text is cut off rather than overflowing.
pub fn tip_units(units: &[u16], capacity: usize) -> (r: Vec<u16>)
    requires
        capacity >= 1,
    ensures
        r@ == tip_prefix(units@, capacity as nat),
        r@.len() < capacity,
{
    let limit: usize = if units.len() < capacity - 1 {
        units.len()
    } else {
        capacity - 1
    };
    let mut out: Vec<u16> = Vec::new();
    let mut i: usize = 0;
    while i < limit
        invariant
            limit <= units@.len(),
            limit <= capacity - 1,
            limit == units@.len() || limit == capacity - 1,
            i <= limit,
            out@ == units@.take(i as int),
        decreases limit - i,
    {
        out.push(units[i]);
        i = i + 1;
        assert(out@ =~= units@.take(i as int));
    }
    assert(out@ =~= tip_prefix(units@, capacity as nat));
    out
}

/// Each setting's check mark in the menu is that setting alone: changing any
/// other setting, or launch at login, leaves it as it is.
pub proof fn lemma_menu_checks_each_setting(s: AppState, t: AppState, a: bool, b: bool)
    ensures
        menu_of(s, a)[0] == (MenuEntry::Item { id: ID_ENABLED, checked: s.enabled }),
        menu_of(s, a)[1] == (MenuEntry::Item { id: ID_BRING_FRONT, checked: s.bring_to_front }),
        menu_of(s, a)[2] == (MenuEntry::Item { id: ID_AUTOSTART, checked: a }),
        s.enabled == t.enabled ==> menu_of(s, a)[0] == menu_of(t, b)[0],
        s.bring_to_front == t.bring_to_front ==> menu_of(s, a)[1] == menu_of(t, b)[1],
        a == b ==> menu_of(s, a)[2] == menu_of(t, b)[2],
        s.modifier == t.modifier ==> menu_of(s, a).subrange(4, 7) == menu_of(t, b).subrange(4, 7),
        menu_of(s, a)[8] == (MenuEntry::Item { id: ID_QUIT, checked: false }),
{
    assert(menu_of(s, a).subrange(4, 7) =~= menu_of(t, b).subrange(4, 7) || s.modifier
        != t.modifier);
}

/// Each command changes only its own setting: the toggles flip theirs, the
/// modifier commands select theirs, and only launch at login and quit ask
/// for outside work; no command touches a gesture in progress.
pub proof fn lemma_command_changes_only_its_setting(s: AppState, cmd: usize)
    ensures
        ({
            let (t, e) = after_command(s, cmd);
            &&& t.drag == s.drag
            &&& t.enabled == (if cmd == ID_ENABLED { !s.enabled } else { s.enabled })
            &&& t.bring_to_front == (if cmd == ID_BRING_FRONT {
                !s.bring_to_front
            } else {
                s.bring_to_front
            })
            &&& t.modifier == (if cmd == ID_MOD_CTRL_ALT {
                Modifier::CtrlAlt
            } else if cmd == ID_MOD_ALT {
                Modifier::Alt
            } else if cmd == ID_MOD_CTRL_WIN {
                Modifier::CtrlWin
            } else {
                s.modifier
            })
            &&& (e == CommandEffect::ToggleAutostart <==> cmd == ID_AUTOSTART)
            &&& (e == CommandEffect::Quit <==> cmd == ID_QUIT)
        }),
{
}

/// Choosing a toggle command twice gives back the state before the first.
pub proof fn lemma_toggle_twice(s: AppState, cmd: usize)
    requires
        cmd == ID_ENABLED || cmd == ID_BRING_FRONT,
    ensures
        after_command(after_command(s, cmd).0, cmd).0 == s,
{
}

/// Choosing a modifier twice is the same as choosing it once, and the menu
/// then checks exactly that modifier.
pub proof fn lemma_modifier_choice(s: AppState, cmd: usize, autostart_on: bool)
    requires
        cmd == ID_MOD_CTRL_ALT || cmd == ID_MOD_ALT || cmd == ID_MOD_CTRL_WIN,
    ensures
        after_command(after_command(s, cmd).0, cmd).0 == after_command(s, cmd).0,
        ({
            let m = menu_of(after_command(s, cmd).0, autostart_on);
            &&& m[4] == (MenuEntry::Item { id: ID_MOD_CTRL_ALT, checked: cmd == ID_MOD_CTRL_ALT })
            &&& m[5] == (MenuEntry::Item { id: ID_MOD_ALT, checked: cmd == ID_MOD_ALT })
            &&& m[6] == (MenuEntry::Item { id: ID_MOD_CTRL_WIN, checked: cmd == ID_MOD_CTRL_WIN })
        }),
{
}

/// The event code that a tray notification carries in the low word of its
/// second parameter.
pub open spec fn notification_event(lparam: isize) -> u32 {
    ((lparam as u32) % 65536) as u32
}

/// Whether a tray notification opens the menu: its event is a release of the
/// left (`left_up`) or right (`right_up`) button.
pub fn tray_opens_menu(lparam: isize, left_up: u32, right_up: u32) -> (r: bool)
    ensures
        r == (notification_event(lparam) == left_up || notification_event(lparam) == right_up),
{
    let bits: u32 = lparam as u32;
    let event: u32 = bits & 0xFFFFu32;
    assert(bits & 0xFFFFu32 == bits % 65536) by (bit_vector);
    event == left_up || event == right_up
}

} // verus!
