use std::path::PathBuf;

use easy_move_resize::autostart::{command_string, registry_string_data, toggle, wide, AutostartChange};

#[test]
fn command_string_is_quoted() {
    let p = PathBuf::from(r"C:\Program Files\emr\easy-move-resize.exe");
    assert_eq!(
        command_string(p.to_str().unwrap()),
        r#""C:\Program Files\emr\easy-move-resize.exe""#
    );
}

#[test]
fn command_string_of_empty_path_is_two_quotes() {
    assert_eq!(command_string(""), "\"\"");
}

#[test]
fn wide_appends_terminator() {
    assert_eq!(wide("Ab"), vec![65u16, 98, 0]);
    assert_eq!(wide(""), vec![0u16]);
}

#[test]
fn wide_encodes_surrogate_pairs() {
    // U+1F600 is above the basic multilingual plane.
    assert_eq!(wide("\u{1F600}"), vec![0xD83Du16, 0xDE00, 0]);
    assert_eq!(wide("\u{d7}"), vec![0xD7u16, 0]);
}

#[test]
fn registry_data_is_little_endian_with_terminator() {
    assert_eq!(registry_string_data("A"), vec![65u8, 0, 0, 0]);
    assert_eq!(registry_string_data("\u{20AC}"), vec![0xACu8, 0x20, 0, 0]);
}

#[test]
fn toggle_flips_launch_at_login() {
    assert_eq!(toggle(true), AutostartChange::Disable);
    assert_eq!(toggle(false), AutostartChange::Enable);
}
