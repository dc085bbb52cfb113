use cushy::{Key, Modifiers};

#[test]
fn key_names() {
    assert_eq!(Key::Space.display_name(), "Space");
    assert_eq!(Key::Apostrophe.display_name(), "'");
    assert_eq!(Key::Apostrophe.sym_name(), "Apostrophe");
    assert_eq!(Key::Menu.sym_name(), "Menu");
    assert_eq!(Key::LeftWin.sym_name(), "LeftWin");
}

#[test]
fn printable_keys() {
    assert!(Key::A.is_printable());
    assert!(Key::GraveAccent.is_printable());
    assert!(!Key::World1.is_printable());
    assert!(!Key::Escape.is_printable());
}

#[test]
fn modifier_strings() {
    assert_eq!(Modifiers::ctrl_shift().to_string(), "SC");
    assert_eq!(Modifiers::with(true, true, true, true).to_string(), "SCAW");
    assert_eq!(Modifiers::none().to_string(), "");
    assert_eq!(Modifiers::alt_shift().to_string_alt(), "⇧!");
    assert_eq!(Modifiers::win().to_string_alt(), "#");
}

#[test]
fn modifier_presets() {
    assert_eq!(Modifiers::new(), Modifiers::with(false, false, false, false));
    assert_eq!(Modifiers::shift(), Modifiers::with(true, false, false, false));
    assert_eq!(Modifiers::control(), Modifiers::with(false, true, false, false));
    assert_eq!(Modifiers::alt(), Modifiers::with(false, false, true, false));
    assert_eq!(Modifiers::ctrl_alt(), Modifiers::with(false, true, true, false));
}
