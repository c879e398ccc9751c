use xbkbremap::actions::XboxButton;
use xbkbremap::emission::barrier_event;
use xbkbremap::emission::derive_event;
use xbkbremap::emission::emission_batch;
use xbkbremap::emission::DeviceEvent;
use xbkbremap::emission::EventKind;

fn ev(kind: EventKind, code: u16, value: i32) -> DeviceEvent {
    DeviceEvent { kind, code, value }
}

#[test]
fn buttons_pass_the_edge_through() {
    let cases = [
        (XboxButton::A, 304),
        (XboxButton::B, 305),
        (XboxButton::X, 308),
        (XboxButton::Y, 307),
        (XboxButton::LB, 310),
        (XboxButton::RB, 311),
        (XboxButton::LS, 317),
        (XboxButton::RS, 318),
        (XboxButton::Start, 315),
        (XboxButton::Select, 314),
    ];
    for (b, code) in cases {
        assert_eq!(derive_event(b, 1), ev(EventKind::Key, code, 1));
        assert_eq!(derive_event(b, 0), ev(EventKind::Key, code, 0));
    }
}

#[test]
fn triggers_jump_to_maximum_on_press() {
    assert_eq!(derive_event(XboxButton::LT, 1), ev(EventKind::Absolute, 2, 1023));
    assert_eq!(derive_event(XboxButton::LT, 0), ev(EventKind::Absolute, 2, 0));
    assert_eq!(derive_event(XboxButton::RT, 1), ev(EventKind::Absolute, 5, 1023));
    assert_eq!(derive_event(XboxButton::RT, 0), ev(EventKind::Absolute, 5, 0));
}

#[test]
fn dpad_directions_drive_the_hat_axes() {
    assert_eq!(derive_event(XboxButton::DPadUp, 1), ev(EventKind::Absolute, 17, -1));
    assert_eq!(derive_event(XboxButton::DPadDown, 1), ev(EventKind::Absolute, 17, 1));
    assert_eq!(derive_event(XboxButton::DPadLeft, 1), ev(EventKind::Absolute, 16, -1));
    assert_eq!(derive_event(XboxButton::DPadRight, 1), ev(EventKind::Absolute, 16, 1));
    assert_eq!(derive_event(XboxButton::DPadUp, 0), ev(EventKind::Absolute, 17, 0));
    assert_eq!(derive_event(XboxButton::DPadDown, 0), ev(EventKind::Absolute, 17, 0));
    assert_eq!(derive_event(XboxButton::DPadLeft, 0), ev(EventKind::Absolute, 16, 0));
    assert_eq!(derive_event(XboxButton::DPadRight, 0), ev(EventKind::Absolute, 16, 0));
}

#[test]
fn stick_directions_drive_the_signed_extremes() {
    assert_eq!(derive_event(XboxButton::LSUp, 1), ev(EventKind::Absolute, 1, -32768));
    assert_eq!(derive_event(XboxButton::LSDown, 1), ev(EventKind::Absolute, 1, 32767));
    assert_eq!(derive_event(XboxButton::LSLeft, 1), ev(EventKind::Absolute, 0, -32768));
    assert_eq!(derive_event(XboxButton::LSRight, 1), ev(EventKind::Absolute, 0, 32767));
    assert_eq!(derive_event(XboxButton::RSUp, 1), ev(EventKind::Absolute, 4, -32768));
    assert_eq!(derive_event(XboxButton::RSDown, 1), ev(EventKind::Absolute, 4, 32767));
    assert_eq!(derive_event(XboxButton::RSLeft, 1), ev(EventKind::Absolute, 3, -32768));
    assert_eq!(derive_event(XboxButton::RSRight, 1), ev(EventKind::Absolute, 3, 32767));
    for b in [
        XboxButton::LSUp,
        XboxButton::LSDown,
        XboxButton::LSLeft,
        XboxButton::LSRight,
        XboxButton::RSUp,
        XboxButton::RSDown,
        XboxButton::RSLeft,
        XboxButton::RSRight,
    ] {
        assert_eq!(derive_event(b, 0).value, 0);
    }
}

#[test]
fn every_batch_is_one_change_and_one_barrier() {
    let all = [
        XboxButton::A,
        XboxButton::B,
        XboxButton::X,
        XboxButton::Y,
        XboxButton::LB,
        XboxButton::RB,
        XboxButton::LT,
        XboxButton::RT,
        XboxButton::LS,
        XboxButton::RS,
        XboxButton::Start,
        XboxButton::Select,
        XboxButton::DPadUp,
        XboxButton::DPadDown,
        XboxButton::DPadLeft,
        XboxButton::DPadRight,
        XboxButton::LSUp,
        XboxButton::LSDown,
        XboxButton::LSLeft,
        XboxButton::LSRight,
        XboxButton::RSUp,
        XboxButton::RSDown,
        XboxButton::RSLeft,
        XboxButton::RSRight,
    ];
    for b in all {
        for edge in [0, 1] {
            let batch = emission_batch(b, edge);
            assert_eq!(batch.len(), 2);
            assert_eq!(batch[0], derive_event(b, edge));
            assert_ne!(batch[0].kind, EventKind::Synchronization);
            assert_eq!(batch[1], barrier_event());
            assert_eq!(batch[1], ev(EventKind::Synchronization, 0, 0));
        }
    }
}
