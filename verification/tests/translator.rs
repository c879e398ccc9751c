use xbkbremap::actions::XboxButton;
use xbkbremap::mapping::Mapping;
use xbkbremap::translate::GamepadAction;
use xbkbremap::translate::RawTransition;
use xbkbremap::translate::TranslateOutcome;
use xbkbremap::translate::SENTINEL_KEY;
use xbkbremap::translate::translate;

fn transition(key: u16, value: i32) -> RawTransition {
    RawTransition { key, value, timestamp_ms: 0 }
}

#[test]
fn autorepeat_is_filtered() {
    let mut m = Mapping::new();
    m.insert(17, XboxButton::A);
    assert_eq!(translate(&transition(17, 2), &m), TranslateOutcome::Ignore);
    assert_eq!(translate(&transition(17, -1), &m), TranslateOutcome::Ignore);
    assert_eq!(translate(&transition(17, 42), &m), TranslateOutcome::Ignore);
}

#[test]
fn unmapped_key_is_ignored() {
    let mut m = Mapping::new();
    m.insert(17, XboxButton::A);
    assert_eq!(translate(&transition(18, 1), &m), TranslateOutcome::Ignore);
    assert_eq!(translate(&transition(18, 0), &m), TranslateOutcome::Ignore);
}

#[test]
fn mapped_key_press_and_release() {
    let mut m = Mapping::new();
    m.insert(17, XboxButton::LSUp);
    assert_eq!(
        translate(&transition(17, 1), &m),
        TranslateOutcome::Emit(GamepadAction { button: XboxButton::LSUp, edge: 1 })
    );
    assert_eq!(
        translate(&transition(17, 0), &m),
        TranslateOutcome::Emit(GamepadAction { button: XboxButton::LSUp, edge: 0 })
    );
}

#[test]
fn sentinel_press_shuts_down() {
    let m = Mapping::new();
    assert_eq!(translate(&transition(SENTINEL_KEY, 1), &m), TranslateOutcome::Shutdown);
}

#[test]
fn sentinel_beats_its_own_mapping_entry() {
    let mut m = Mapping::new();
    m.insert(SENTINEL_KEY, XboxButton::B);
    assert_eq!(translate(&transition(SENTINEL_KEY, 1), &m), TranslateOutcome::Shutdown);
}

#[test]
fn sentinel_release_is_not_a_shutdown() {
    let m = Mapping::new();
    assert_eq!(translate(&transition(SENTINEL_KEY, 0), &m), TranslateOutcome::Ignore);
    let mut mapped = Mapping::new();
    mapped.insert(SENTINEL_KEY, XboxButton::B);
    assert_eq!(
        translate(&transition(SENTINEL_KEY, 0), &mapped),
        TranslateOutcome::Emit(GamepadAction { button: XboxButton::B, edge: 0 })
    );
}

#[test]
fn sentinel_autorepeat_is_filtered() {
    let m = Mapping::new();
    assert_eq!(translate(&transition(SENTINEL_KEY, 2), &m), TranslateOutcome::Ignore);
}
