use easy_move_resize::config::Modifier;
use easy_move_resize::gesture::AppState;
use easy_move_resize::tray::{
    menu_label, tip_units, CommandEffect, MenuEntry, ID_AUTOSTART, ID_BRING_FRONT, ID_ENABLED,
    ID_MOD_ALT, ID_MOD_CTRL_ALT, ID_MOD_CTRL_WIN, ID_QUIT, TIP_TEXT,
};

#[test]
fn menu_lists_settings_and_checks_current_modifier() {
    let mut s = AppState::new();
    s.modifier = Modifier::Alt;
    s.bring_to_front = false;
    let m = s.menu_entries(true);
    assert_eq!(
        m,
        vec![
            MenuEntry::Item { id: ID_ENABLED, checked: true },
            MenuEntry::Item { id: ID_BRING_FRONT, checked: false },
            MenuEntry::Item { id: ID_AUTOSTART, checked: true },
            MenuEntry::Separator,
            MenuEntry::Item { id: ID_MOD_CTRL_ALT, checked: false },
            MenuEntry::Item { id: ID_MOD_ALT, checked: true },
            MenuEntry::Item { id: ID_MOD_CTRL_WIN, checked: false },
            MenuEntry::Separator,
            MenuEntry::Item { id: ID_QUIT, checked: false },
        ]
    );
}

#[test]
fn toggle_commands_flip_and_flip_back() {
    let mut s = AppState::new();
    assert_eq!(s.handle_command(ID_ENABLED), CommandEffect::Nothing);
    assert!(!s.enabled);
    assert_eq!(s.handle_command(ID_ENABLED), CommandEffect::Nothing);
    assert!(s.enabled);
    s.handle_command(ID_BRING_FRONT);
    assert!(!s.bring_to_front);
    s.handle_command(ID_BRING_FRONT);
    assert_eq!(s, AppState::new());
}

#[test]
fn modifier_commands_select_modifier() {
    let mut s = AppState::new();
    s.handle_command(ID_MOD_CTRL_WIN);
    assert_eq!(s.modifier, Modifier::CtrlWin);
    s.handle_command(ID_MOD_ALT);
    assert_eq!(s.modifier, Modifier::Alt);
    s.handle_command(ID_MOD_CTRL_ALT);
    assert_eq!(s.modifier, Modifier::CtrlAlt);
}

#[test]
fn outside_commands_are_reported() {
    let mut s = AppState::new();
    assert_eq!(s.handle_command(ID_AUTOSTART), CommandEffect::ToggleAutostart);
    assert_eq!(s.handle_command(ID_QUIT), CommandEffect::Quit);
    assert_eq!(s.handle_command(0), CommandEffect::Nothing);
    assert_eq!(s.handle_command(1234), CommandEffect::Nothing);
    assert_eq!(s, AppState::new());
}

#[test]
fn menu_labels() {
    assert_eq!(menu_label(ID_ENABLED), Some("Enabled"));
    assert_eq!(menu_label(ID_BRING_FRONT), Some("Bring window to front"));
    assert_eq!(menu_label(ID_AUTOSTART), Some("Start at login"));
    assert_eq!(menu_label(ID_MOD_CTRL_ALT), Some("Modifier: Ctrl + Alt"));
    assert_eq!(menu_label(ID_MOD_ALT), Some("Modifier: Alt"));
    assert_eq!(menu_label(ID_MOD_CTRL_WIN), Some("Modifier: Ctrl + Win"));
    assert_eq!(menu_label(ID_QUIT), Some("Quit"));
    assert_eq!(menu_label(4), None);
}

#[test]
fn tip_is_cut_to_leave_room_for_terminator() {
    let units: Vec<u16> = TIP_TEXT.encode_utf16().collect();
    assert_eq!(tip_units(&units, 128), units);
    assert_eq!(tip_units(&units, 5), units[..4].to_vec());
    assert_eq!(tip_units(&units, 1), Vec::<u16>::new());
    assert_eq!(tip_units(&units, units.len() + 1), units);
    assert_eq!(tip_units(&units, units.len()), units[..units.len() - 1].to_vec());
}

#[test]
fn tray_menu_opens_on_button_release_only() {
    // Left and right button-up message codes.
    let (lup, rup) = (0x0202u32, 0x0205u32);
    assert!(easy_move_resize::tray::tray_opens_menu(0x0202, lup, rup));
    assert!(easy_move_resize::tray::tray_opens_menu(0x0205, lup, rup));
    assert!(easy_move_resize::tray::tray_opens_menu(0x7_0205, lup, rup));
    assert!(!easy_move_resize::tray::tray_opens_menu(0x0201, lup, rup));
    assert!(!easy_move_resize::tray::tray_opens_menu(-1, lup, rup));
}
