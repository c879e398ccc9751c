//! Lowering of a logical gamepad action plus a press/release edge to the
//! concrete device event that realizes it: a button code with the edge passed
//! through, or an axis code driven to its extreme on press and back to rest on
//! release. Every emission is batched with a trailing synchronization barrier
//! so that consumers observe one atomic update.

use vstd::prelude::*;
use crate::actions::XboxButton;

verus! {

// Button codes of the standard Linux gamepad button range.
pub const BTN_SOUTH: u16 = 304;
pub const BTN_EAST: u16 = 305;
pub const BTN_NORTH: u16 = 307;
pub const BTN_WEST: u16 = 308;
pub const BTN_TL: u16 = 310;
pub const BTN_TR: u16 = 311;
pub const BTN_SELECT: u16 = 314;
pub const BTN_START: u16 = 315;
pub const BTN_THUMBL: u16 = 317;
pub const BTN_THUMBR: u16 = 318;

// Absolute-axis codes.
pub const ABS_X: u16 = 0;
pub const ABS_Y: u16 = 1;
pub const ABS_Z: u16 = 2;
pub const ABS_RX: u16 = 3;
pub const ABS_RY: u16 = 4;
pub const ABS_RZ: u16 = 5;
pub const ABS_HAT0X: u16 = 16;
pub const ABS_HAT0Y: u16 = 17;

// Extreme values for the three axis families.
pub const STICK_MIN: i32 = -32768;
pub const STICK_MAX: i32 = 32767;
pub const TRIGGER_MAX: i32 = 1023;

/// Kind of a low-level device event.
#[derive(Debug, Clone, Copy, PartialEq, Eq, Structural)]
pub enum EventKind {
    Synchronization,
    Key,
    Absolute,
}

/// One low-level event handed to the virtual device: an event kind, a button
/// or axis code within that kind, and the value to set.
#[derive(Debug, Clone, Copy, PartialEq, Eq, Structural)]
pub struct DeviceEvent {
    pub kind: EventKind,
    pub code: u16,
    pub value: i32,
}

/// Whether the action drives a digital button (as opposed to an axis).
pub open spec fn is_button(b: XboxButton) -> bool {
    match b {
        XboxButton::A
        | XboxButton::B
        | XboxButton::X
        | XboxButton::Y
        | XboxButton::LB
        | XboxButton::RB
        | XboxButton::LS
        | XboxButton::RS
        | XboxButton::Start
        | XboxButton::Select => true,
        _ => false,
    }
}

/// Event kind through which the action is realized.
pub open spec fn target_kind(b: XboxButton) -> EventKind {
    if is_button(b) {
        EventKind::Key
    } else {
        EventKind::Absolute
    }
}

/// Button or axis code through which the action is realized.
pub open spec fn target_code(b: XboxButton) -> u16 {
    match b {
        XboxButton::A => BTN_SOUTH,
        XboxButton::B => BTN_EAST,
        XboxButton::X => BTN_WEST,
        XboxButton::Y => BTN_NORTH,
        XboxButton::LB => BTN_TL,
        XboxButton::RB => BTN_TR,
        XboxButton::LS => BTN_THUMBL,
        XboxButton::RS => BTN_THUMBR,
        XboxButton::Start => BTN_START,
        XboxButton::Select => BTN_SELECT,
        XboxButton::LT => ABS_Z,
        XboxButton::RT => ABS_RZ,
        XboxButton::DPadUp => ABS_HAT0Y,
        XboxButton::DPadDown => ABS_HAT0Y,
        XboxButton::DPadLeft => ABS_HAT0X,
        XboxButton::DPadRight => ABS_HAT0X,
        XboxButton::LSUp => ABS_Y,
        XboxButton::LSDown => ABS_Y,
        XboxButton::LSLeft => ABS_X,
        XboxButton::LSRight => ABS_X,
        XboxButton::RSUp => ABS_RY,
        XboxButton::RSDown => ABS_RY,
        XboxButton::RSLeft => ABS_RX,
        XboxButton::RSRight => ABS_RX,
    }
}

/// Value emitted for the action on a press edge: 1 for a digital button, the
/// trigger maximum for a trigger, -1/+1 for a D-pad direction, and the signed
/// extreme for a stick direction.
pub open spec fn press_value(b: XboxButton) -> i32 {
    match b {
        XboxButton::LT => TRIGGER_MAX,
        XboxButton::RT => TRIGGER_MAX,
        XboxButton::DPadUp => -1i32,
        XboxButton::DPadDown => 1i32,
        XboxButton::DPadLeft => -1i32,
        XboxButton::DPadRight => 1i32,
        XboxButton::LSUp => STICK_MIN,
        XboxButton::LSDown => STICK_MAX,
        XboxButton::LSLeft => STICK_MIN,
        XboxButton::LSRight => STICK_MAX,
        XboxButton::RSUp => STICK_MIN,
        XboxButton::RSDown => STICK_MAX,
        XboxButton::RSLeft => STICK_MIN,
        XboxButton::RSRight => STICK_MAX,
        _ => 1i32,
    }
}

/// Neutral value of every target: buttons released, axes at rest.
pub open spec fn neutral_value(b: XboxButton) -> i32 {
    0
}

/// Value emitted for the action on the given edge.
pub open spec fn event_value(b: XboxButton, edge: i32) -> i32 {
    if edge == 1 {
        press_value(b)
    } else {
        neutral_value(b)
    }
}

/// The device event realizing the action on the given edge.
pub open spec fn spec_event(b: XboxButton, edge: i32) -> DeviceEvent {
    DeviceEvent { kind: target_kind(b), code: target_code(b), value: event_value(b, edge) }
}

/// The synchronization barrier event.
pub open spec fn spec_barrier() -> DeviceEvent {
    DeviceEvent { kind: EventKind::Synchronization, code: 0, value: 0 }
}

/// Two actions contend for the same piece of device state.
pub open spec fn same_target(b1: XboxButton, b2: XboxButton) -> bool {
    target_kind(b1) == target_kind(b2) && target_code(b1) == target_code(b2)
}

/// Lowers one logical action and one edge to its device event.
pub fn derive_event(b: XboxButton, edge: i32) -> (ev: DeviceEvent)
    requires
        edge == 0 || edge == 1,
    ensures
        ev == spec_event(b, edge),
{
    let kind = if is_button_exec(b) {
        EventKind::Key
    } else {
        EventKind::Absolute
    };
    let code = target_code_exec(b);
    let value = if edge == 1 {
        press_value_exec(b)
    } else {
        0
    };
    DeviceEvent { kind, code, value }
}

/// Executable counterpart of [`is_button`].
pub fn is_button_exec(b: XboxButton) -> (r: bool)
    ensures
        r == is_button(b),
{
    match b {
        XboxButton::A
        | XboxButton::B
        | XboxButton::X
        | XboxButton::Y
        | XboxButton::LB
        | XboxButton::RB
        | XboxButton::LS
        | XboxButton::RS
        | XboxButton::Start
        | XboxButton::Select => true,
        _ => false,
    }
}

/// Executable counterpart of [`target_code`].
pub fn target_code_exec(b: XboxButton) -> (c: u16)
    ensures
        c == target_code(b),
{
    match b {
        XboxButton::A => BTN_SOUTH,
        XboxButton::B => BTN_EAST,
        XboxButton::X => BTN_WEST,
        XboxButton::Y => BTN_NORTH,
        XboxButton::LB => BTN_TL,
        XboxButton::RB => BTN_TR,
        XboxButton::LS => BTN_THUMBL,
        XboxButton::RS => BTN_THUMBR,
        XboxButton::Start => BTN_START,
        XboxButton::Select => BTN_SELECT,
        XboxButton::LT => ABS_Z,
        XboxButton::RT => ABS_RZ,
        XboxButton::DPadUp => ABS_HAT0Y,
        XboxButton::DPadDown => ABS_HAT0Y,
        XboxButton::DPadLeft => ABS_HAT0X,
        XboxButton::DPadRight => ABS_HAT0X,
        XboxButton::LSUp => ABS_Y,
        XboxButton::LSDown => ABS_Y,
        XboxButton::LSLeft => ABS_X,
        XboxButton::LSRight => ABS_X,
        XboxButton::RSUp => ABS_RY,
        XboxButton::RSDown => ABS_RY,
        XboxButton::RSLeft => ABS_RX,
        XboxButton::RSRight => ABS_RX,
    }
}

/// Executable counterpart of [`press_value`].
pub fn press_value_exec(b: XboxButton) -> (v: i32)
    ensures
        v == press_value(b),
{
    match b {
        XboxButton::LT => TRIGGER_MAX,
        XboxButton::RT => TRIGGER_MAX,
        XboxButton::DPadUp => -1i32,
        XboxButton::DPadDown => 1i32,
        XboxButton::DPadLeft => -1i32,
        XboxButton::DPadRight => 1i32,
        XboxButton::LSUp => STICK_MIN,
        XboxButton::LSDown => STICK_MAX,
        XboxButton::LSLeft => STICK_MIN,
        XboxButton::LSRight => STICK_MAX,
        XboxButton::RSUp => STICK_MIN,
        XboxButton::RSDown => STICK_MAX,
        XboxButton::RSLeft => STICK_MIN,
        XboxButton::RSRight => STICK_MAX,
        _ => 1,
    }
}

/// The synchronization barrier as an executable value.
pub fn barrier_event() -> (ev: DeviceEvent)
    ensures
        ev == spec_barrier(),
{
    DeviceEvent { kind: EventKind::Synchronization, code: 0, value: 0 }
}

/// The two-event sequence in which the action on the given edge reaches the
/// device: the state change, then its barrier.
pub open spec fn spec_batch(b: XboxButton, edge: i32) -> Seq<DeviceEvent> {
    seq![spec_event(b, edge), spec_barrier()]
}

/// Builds the atomic batch for one action and edge: exactly the state change
/// followed by exactly one synchronization barrier.
pub fn emission_batch(b: XboxButton, edge: i32) -> (batch: Vec<DeviceEvent>)
    requires
        edge == 0 || edge == 1,
    ensures
        batch@ == spec_batch(b, edge),
        batch@.len() == 2,
        batch@[0] == spec_event(b, edge),
        batch@[0].kind != EventKind::Synchronization,
        batch@[1] == spec_barrier(),
{
    let ev = derive_event(b, edge);
    let mut batch: Vec<DeviceEvent> = Vec::new();
    batch.push(ev);
    batch.push(barrier_event());
    proof {
        assert(batch@ =~= spec_batch(b, edge));
    }
    batch
}

/// A device-event stream in which changes and barriers strictly alternate:
/// every state change is immediately followed by exactly one barrier, and no
/// barrier appears without its preceding pending change.
pub open spec fn well_paired(s: Seq<DeviceEvent>) -> bool {
    &&& s.len() % 2 == 0
    &&& forall|i: int|
        0 <= i < s.len() ==> ((#[trigger] s[i]).kind == EventKind::Synchronization <==> i % 2 == 1)
}

/// Appending the emission batch of any action to a well-paired stream keeps
/// the stream well-paired: an action is always followed by exactly one
/// barrier, and barriers only ever follow a pending action.
pub proof fn lemma_batch_preserves_pairing(s: Seq<DeviceEvent>, b: XboxButton, edge: i32)
    requires
        well_paired(s),
    ensures
        well_paired(s + spec_batch(b, edge)),
{
    let t = s + spec_batch(b, edge);
    assert forall|i: int| 0 <= i < t.len() implies ((#[trigger] t[i]).kind
        == EventKind::Synchronization <==> i % 2 == 1) by {
        if i < s.len() {
            assert(t[i] == s[i]);
        } else if i == s.len() {
            assert(t[i] == spec_event(b, edge));
        } else {
            assert(t[i] == spec_barrier());
        }
    }
}

} // verus!
