use xbkbremap::actions::XboxButton;
use xbkbremap::capabilities::axis_setups;
use xbkbremap::capabilities::button_codes;
use xbkbremap::capabilities::device_name;
use xbkbremap::capabilities::DEVICE_VERSION;
use xbkbremap::capabilities::PRODUCT_ID;
use xbkbremap::capabilities::VENDOR_ID;
use xbkbremap::mapping::Mapping;
use xbkbremap::supervisor::Phase;
use xbkbremap::supervisor::Supervisor;
use xbkbremap::supervisor::SupervisorAction;
use xbkbremap::translate::RawTransition;
use xbkbremap::translate::SENTINEL_KEY;

#[test]
fn supervisor_starts_idle_with_no_devices() {
    let s = Supervisor::new();
    assert_eq!(s.phase, Phase::Idle);
    assert!(!s.grabbed);
    assert!(!s.virtual_installed);
}

#[test]
fn sentinel_press_begins_shutdown() {
    let mut s = Supervisor::new();
    s.begin_capture();
    assert_eq!(s.phase, Phase::Capturing);
    let m = Mapping::new();
    let t = RawTransition { key: SENTINEL_KEY, value: 1, timestamp_ms: 9 };
    let act = s.on_transition(&t, &m);
    assert!(matches!(act, SupervisorAction::BeginShutdown));
    assert_eq!(s.phase, Phase::ShuttingDown);
}

#[test]
fn mapped_transition_keeps_capturing() {
    let mut s = Supervisor::new();
    s.begin_capture();
    let mut m = Mapping::new();
    m.insert(30, XboxButton::A);
    let t = RawTransition { key: 30, value: 1, timestamp_ms: 0 };
    match s.on_transition(&t, &m) {
        SupervisorAction::EmitBatch(batch) => assert_eq!(batch.len(), 2),
        other => panic!("expected an emission, got {:?}", other),
    }
    assert_eq!(s.phase, Phase::Capturing);
    let noise = RawTransition { key: 30, value: 2, timestamp_ms: 0 };
    assert!(matches!(s.on_transition(&noise, &m), SupervisorAction::Nothing));
    assert_eq!(s.phase, Phase::Capturing);
}

#[test]
fn io_failure_begins_shutdown() {
    let mut s = Supervisor::new();
    s.begin_capture();
    s.on_io_failure();
    assert_eq!(s.phase, Phase::ShuttingDown);
}

#[test]
fn teardown_releases_both_devices_in_order() {
    let mut s = Supervisor::new();
    s.begin_capture();
    assert!(s.grabbed && s.virtual_installed);
    s.on_io_failure();
    s.release_physical();
    assert!(!s.grabbed);
    assert!(s.virtual_installed);
    // A second release on an abnormal exit path is harmless.
    s.release_physical();
    assert!(!s.grabbed);
    s.uninstall_virtual();
    assert!(!s.virtual_installed);
    s.finish();
    assert_eq!(s.phase, Phase::Terminated);
    assert!(!s.grabbed);
    assert!(!s.virtual_installed);
}

#[test]
fn advertised_identity_matches_the_known_controller() {
    assert_eq!(VENDOR_ID, 0x045e);
    assert_eq!(PRODUCT_ID, 0x028e);
    assert_eq!(DEVICE_VERSION, 0x0110);
    assert_eq!(device_name(), "Microsoft X-Box 360 pad");
}

#[test]
fn declared_capabilities_cover_all_targets() {
    let buttons = button_codes();
    assert_eq!(buttons, vec![304, 305, 308, 307, 310, 311, 317, 318, 315, 314]);
    let axes = axis_setups();
    assert_eq!(axes.len(), 8);
    let stick = &axes[1];
    assert_eq!((stick.code, stick.min, stick.max, stick.fuzz, stick.flat), (1, -32768, 32767, 16, 128));
    let trigger = &axes[4];
    assert_eq!((trigger.code, trigger.min, trigger.max), (2, 0, 1023));
    let hat = &axes[7];
    assert_eq!((hat.code, hat.min, hat.max), (17, -1, 1));
}
