use xbkbremap::actions::XboxButton;
use xbkbremap::mapping::Mapping;
use xbkbremap::profile::build_mapping;
use xbkbremap::profile::build_profile;
use xbkbremap::profile::find_profile;
use xbkbremap::profile::ConfigError;
use xbkbremap::profile::Profile;
use xbkbremap::translate::translate;
use xbkbremap::translate::GamepadAction;
use xbkbremap::translate::RawTransition;
use xbkbremap::translate::TranslateOutcome;

#[test]
fn every_action_name_parses() {
    let cases = [
        ("A", XboxButton::A),
        ("B", XboxButton::B),
        ("X", XboxButton::X),
        ("Y", XboxButton::Y),
        ("LB", XboxButton::LB),
        ("RB", XboxButton::RB),
        ("LT", XboxButton::LT),
        ("RT", XboxButton::RT),
        ("LS", XboxButton::LS),
        ("RS", XboxButton::RS),
        ("START", XboxButton::Start),
        ("SELECT", XboxButton::Select),
        ("DPADUP", XboxButton::DPadUp),
        ("DPADDOWN", XboxButton::DPadDown),
        ("DPADLEFT", XboxButton::DPadLeft),
        ("DPADRIGHT", XboxButton::DPadRight),
        ("LSUP", XboxButton::LSUp),
        ("LSDOWN", XboxButton::LSDown),
        ("LSLEFT", XboxButton::LSLeft),
        ("LSRIGHT", XboxButton::LSRight),
        ("RSUP", XboxButton::RSUp),
        ("RSDOWN", XboxButton::RSDown),
        ("RSLEFT", XboxButton::RSLeft),
        ("RSRIGHT", XboxButton::RSRight),
    ];
    for (name, expected) in cases {
        assert_eq!(XboxButton::from_name(name), Some(expected), "name {}", name);
    }
}

#[test]
fn names_outside_the_vocabulary_are_rejected() {
    for name in ["", "a", "dpadup", "LSUPP", "LS UP", "C", "TRIANGLE", "START "] {
        assert_eq!(XboxButton::from_name(name), None, "name {:?}", name);
    }
}

#[test]
fn build_mapping_binds_every_listed_key() {
    let pairs = vec![
        (17u16, String::from("LSUP")),
        (31u16, String::from("LSDOWN")),
        (57u16, String::from("A")),
    ];
    let m = build_mapping(&pairs).unwrap();
    assert_eq!(m.len(), 3);
    assert_eq!(m.lookup(17), Some(XboxButton::LSUp));
    assert_eq!(m.lookup(31), Some(XboxButton::LSDown));
    assert_eq!(m.lookup(57), Some(XboxButton::A));
    assert_eq!(m.lookup(58), None);
}

#[test]
fn build_mapping_later_entry_overwrites_earlier() {
    let pairs = vec![(17u16, String::from("A")), (17u16, String::from("B"))];
    let m = build_mapping(&pairs).unwrap();
    assert_eq!(m.len(), 1);
    assert_eq!(m.lookup(17), Some(XboxButton::B));
}

#[test]
fn build_mapping_rejects_unknown_action_names() {
    let pairs = vec![(17u16, String::from("A")), (31u16, String::from("WHAMMY"))];
    assert_eq!(build_mapping(&pairs).unwrap_err(), ConfigError::UnknownActionName);
}

#[test]
fn mapping_insert_overwrites() {
    let mut m = Mapping::new();
    m.insert(5, XboxButton::A);
    m.insert(5, XboxButton::Y);
    assert_eq!(m.len(), 1);
    assert_eq!(m.lookup(5), Some(XboxButton::Y));
    assert!(m.contains(5));
    assert!(!m.contains(6));
}

#[test]
fn build_profile_resolves_key_names_through_the_key_table() {
    let entries = vec![
        (String::from("KEY_W"), String::from("LSUP")),
        (String::from("KEY_S"), String::from("LSDOWN")),
    ];
    let profile = build_profile(String::from("game"), &entries).unwrap();
    assert_eq!(profile.name, "game");
    assert_eq!(profile.mapping.len(), 2);
    // KEY_W and KEY_S carry the kernel's codes 17 and 31: a press of those
    // codes must come back as the mapped stick directions.
    let press_w = RawTransition { key: 17, value: 1, timestamp_ms: 0 };
    assert_eq!(
        translate(&press_w, &profile.mapping),
        TranslateOutcome::Emit(GamepadAction { button: XboxButton::LSUp, edge: 1 })
    );
    let press_s = RawTransition { key: 31, value: 1, timestamp_ms: 0 };
    assert_eq!(
        translate(&press_s, &profile.mapping),
        TranslateOutcome::Emit(GamepadAction { button: XboxButton::LSDown, edge: 1 })
    );
}

#[test]
fn build_profile_rejects_unknown_key_names() {
    let entries = vec![(String::from("KEY_NOT_REAL"), String::from("A"))];
    assert_eq!(
        build_profile(String::from("game"), &entries).unwrap_err(),
        ConfigError::UnknownKeyName
    );
}

fn named_profile(name: &str) -> Profile {
    Profile { name: String::from(name), mapping: Mapping::new() }
}

#[test]
fn find_profile_picks_the_first_match() {
    let profiles = vec![named_profile("game"), named_profile("desk"), named_profile("game")];
    assert_eq!(find_profile(&profiles, "game"), Ok(0));
    assert_eq!(find_profile(&profiles, "desk"), Ok(1));
}

#[test]
fn missing_profile_is_a_configuration_error() {
    let profiles = vec![named_profile("game")];
    assert_eq!(find_profile(&profiles, "work"), Err(ConfigError::ProfileNotFound));
    let none: Vec<Profile> = Vec::new();
    assert_eq!(find_profile(&none, "game"), Err(ConfigError::ProfileNotFound));
}
