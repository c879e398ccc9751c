//! Model of the virtual controller's observable state: ten digital buttons,
//! four stick axes, two trigger axes and the two hat axes of the D-pad, each
//! within its declared range, updated one device event at a time.

use vstd::prelude::*;
use crate::actions::XboxButton;
use crate::emission::ABS_HAT0X;
use crate::emission::ABS_HAT0Y;
use crate::emission::ABS_RX;
use crate::emission::ABS_RY;
use crate::emission::ABS_RZ;
use crate::emission::ABS_X;
use crate::emission::ABS_Y;
use crate::emission::ABS_Z;
use crate::emission::BTN_EAST;
use crate::emission::BTN_NORTH;
use crate::emission::BTN_SELECT;
use crate::emission::BTN_SOUTH;
use crate::emission::BTN_START;
use crate::emission::BTN_THUMBL;
use crate::emission::BTN_THUMBR;
use crate::emission::BTN_TL;
use crate::emission::BTN_TR;
use crate::emission::BTN_WEST;
use crate::emission::DeviceEvent;
use crate::emission::EventKind;
use crate::emission::STICK_MAX;
use crate::emission::STICK_MIN;
use crate::emission::TRIGGER_MAX;
use crate::emission::event_value;
use crate::emission::neutral_value;
use crate::emission::press_value;
use crate::emission::same_target;
use crate::emission::spec_event;

verus! {

/// Current observable state of the virtual controller.
#[derive(Debug, Clone, Copy, PartialEq, Eq, Structural)]
pub struct VirtualGamepadState {
    pub btn_a: bool,
    pub btn_b: bool,
    pub btn_x: bool,
    pub btn_y: bool,
    pub btn_lb: bool,
    pub btn_rb: bool,
    pub btn_ls: bool,
    pub btn_rs: bool,
    pub btn_start: bool,
    pub btn_select: bool,
    pub ls_x: i32,
    pub ls_y: i32,
    pub rs_x: i32,
    pub rs_y: i32,
    pub lt: i32,
    pub rt: i32,
    pub hat_x: i32,
    pub hat_y: i32,
}

/// Every axis within its declared range.
pub open spec fn wf(st: VirtualGamepadState) -> bool {
    &&& STICK_MIN <= st.ls_x <= STICK_MAX
    &&& STICK_MIN <= st.ls_y <= STICK_MAX
    &&& STICK_MIN <= st.rs_x <= STICK_MAX
    &&& STICK_MIN <= st.rs_y <= STICK_MAX
    &&& 0 <= st.lt <= TRIGGER_MAX
    &&& 0 <= st.rt <= TRIGGER_MAX
    &&& -1 <= st.hat_x <= 1
    &&& -1 <= st.hat_y <= 1
}

/// The rest state: no button pressed, every axis at its neutral value.
pub open spec fn spec_neutral() -> VirtualGamepadState {
    VirtualGamepadState {
        btn_a: false,
        btn_b: false,
        btn_x: false,
        btn_y: false,
        btn_lb: false,
        btn_rb: false,
        btn_ls: false,
        btn_rs: false,
        btn_start: false,
        btn_select: false,
        ls_x: 0,
        ls_y: 0,
        rs_x: 0,
        rs_y: 0,
        lt: 0,
        rt: 0,
        hat_x: 0,
        hat_y: 0,
    }
}

/// The state after one device event: the addressed button or axis takes the
/// event's value, everything else is untouched; barriers and unknown codes
/// change nothing.
pub open spec fn spec_apply(st: VirtualGamepadState, ev: DeviceEvent) -> VirtualGamepadState {
    if ev.kind == EventKind::Key {
        if ev.code == BTN_SOUTH {
            VirtualGamepadState { btn_a: ev.value == 1, ..st }
        } else if ev.code == BTN_EAST {
            VirtualGamepadState { btn_b: ev.value == 1, ..st }
        } else if ev.code == BTN_WEST {
            VirtualGamepadState { btn_x: ev.value == 1, ..st }
        } else if ev.code == BTN_NORTH {
            VirtualGamepadState { btn_y: ev.value == 1, ..st }
        } else if ev.code == BTN_TL {
            VirtualGamepadState { btn_lb: ev.value == 1, ..st }
        } else if ev.code == BTN_TR {
            VirtualGamepadState { btn_rb: ev.value == 1, ..st }
        } else if ev.code == BTN_THUMBL {
            VirtualGamepadState { btn_ls: ev.value == 1, ..st }
        } else if ev.code == BTN_THUMBR {
            VirtualGamepadState { btn_rs: ev.value == 1, ..st }
        } else if ev.code == BTN_START {
            VirtualGamepadState { btn_start: ev.value == 1, ..st }
        } else if ev.code == BTN_SELECT {
            VirtualGamepadState { btn_select: ev.value == 1, ..st }
        } else {
            st
        }
    } else if ev.kind == EventKind::Absolute {
        if ev.code == ABS_X {
            VirtualGamepadState { ls_x: ev.value, ..st }
        } else if ev.code == ABS_Y {
            VirtualGamepadState { ls_y: ev.value, ..st }
        } else if ev.code == ABS_RX {
            VirtualGamepadState { rs_x: ev.value, ..st }
        } else if ev.code == ABS_RY {
            VirtualGamepadState { rs_y: ev.value, ..st }
        } else if ev.code == ABS_Z {
            VirtualGamepadState { lt: ev.value, ..st }
        } else if ev.code == ABS_RZ {
            VirtualGamepadState { rt: ev.value, ..st }
        } else if ev.code == ABS_HAT0X {
            VirtualGamepadState { hat_x: ev.value, ..st }
        } else if ev.code == ABS_HAT0Y {
            VirtualGamepadState { hat_y: ev.value, ..st }
        } else {
            st
        }
    } else {
        st
    }
}

/// The state after a whole sequence of device events, applied in order.
pub open spec fn spec_apply_seq(st: VirtualGamepadState, s: Seq<DeviceEvent>) -> VirtualGamepadState
    decreases s.len(),
{
    if s.len() == 0 {
        st
    } else {
        spec_apply_seq(spec_apply(st, s[0]), s.drop_first())
    }
}

/// Reads the piece of state the action drives, with a pressed button read as
/// 1 and a released one as 0.
pub open spec fn target_value(st: VirtualGamepadState, b: XboxButton) -> i32 {
    match b {
        XboxButton::A => if st.btn_a { 1i32 } else { 0i32 },
        XboxButton::B => if st.btn_b { 1i32 } else { 0i32 },
        XboxButton::X => if st.btn_x { 1i32 } else { 0i32 },
        XboxButton::Y => if st.btn_y { 1i32 } else { 0i32 },
        XboxButton::LB => if st.btn_lb { 1i32 } else { 0i32 },
        XboxButton::RB => if st.btn_rb { 1i32 } else { 0i32 },
        XboxButton::LS => if st.btn_ls { 1i32 } else { 0i32 },
        XboxButton::RS => if st.btn_rs { 1i32 } else { 0i32 },
        XboxButton::Start => if st.btn_start { 1i32 } else { 0i32 },
        XboxButton::Select => if st.btn_select { 1i32 } else { 0i32 },
        XboxButton::LT => st.lt,
        XboxButton::RT => st.rt,
        XboxButton::DPadUp => st.hat_y,
        XboxButton::DPadDown => st.hat_y,
        XboxButton::DPadLeft => st.hat_x,
        XboxButton::DPadRight => st.hat_x,
        XboxButton::LSUp => st.ls_y,
        XboxButton::LSDown => st.ls_y,
        XboxButton::LSLeft => st.ls_x,
        XboxButton::LSRight => st.ls_x,
        XboxButton::RSUp => st.rs_y,
        XboxButton::RSDown => st.rs_y,
        XboxButton::RSLeft => st.rs_x,
        XboxButton::RSRight => st.rs_x,
    }
}

impl VirtualGamepadState {
    /// The rest state.
    pub fn neutral() -> (st: VirtualGamepadState)
        ensures
            st == spec_neutral(),
            wf(st),
    {
        VirtualGamepadState {
            btn_a: false,
            btn_b: false,
            btn_x: false,
            btn_y: false,
            btn_lb: false,
            btn_rb: false,
            btn_ls: false,
            btn_rs: false,
            btn_start: false,
            btn_select: false,
            ls_x: 0,
            ls_y: 0,
            rs_x: 0,
            rs_y: 0,
            lt: 0,
            rt: 0,
            hat_x: 0,
            hat_y: 0,
        }
    }

    /// Applies one device event to the state.
    #[verifier::rlimit(60)]
    pub fn apply(&mut self, ev: DeviceEvent)
        ensures
            *final(self) == spec_apply(*old(self), ev),
    {
        if ev.kind == EventKind::Key {
            if ev.code == BTN_SOUTH {
                self.btn_a = ev.value == 1;
            } else if ev.code == BTN_EAST {
                self.btn_b = ev.value == 1;
            } else if ev.code == BTN_WEST {
                self.btn_x = ev.value == 1;
            } else if ev.code == BTN_NORTH {
                self.btn_y = ev.value == 1;
            } else if ev.code == BTN_TL {
                self.btn_lb = ev.value == 1;
            } else if ev.code == BTN_TR {
                self.btn_rb = ev.value == 1;
            } else if ev.code == BTN_THUMBL {
                self.btn_ls = ev.value == 1;
            } else if ev.code == BTN_THUMBR {
                self.btn_rs = ev.value == 1;
            } else if ev.code == BTN_START {
                self.btn_start = ev.value == 1;
            } else if ev.code == BTN_SELECT {
                self.btn_select = ev.value == 1;
            }
        } else if ev.kind == EventKind::Absolute {
            if ev.code == ABS_X {
                self.ls_x = ev.value;
            } else if ev.code == ABS_Y {
                self.ls_y = ev.value;
            } else if ev.code == ABS_RX {
                self.rs_x = ev.value;
            } else if ev.code == ABS_RY {
                self.rs_y = ev.value;
            } else if ev.code == ABS_Z {
                self.lt = ev.value;
            } else if ev.code == ABS_RZ {
                self.rt = ev.value;
            } else if ev.code == ABS_HAT0X {
                self.hat_x = ev.value;
            } else if ev.code == ABS_HAT0Y {
                self.hat_y = ev.value;
            }
        }
    }

    /// Applies a batch of device events in order.
    pub fn apply_batch(&mut self, batch: &Vec<DeviceEvent>)
        ensures
            *final(self) == spec_apply_seq(*old(self), batch@),
    {
        let ghost all = batch@;
        proof {
            assert(all.skip(0) =~= all);
        }
        let mut i: usize = 0;
        while i < batch.len()
            invariant
                i <= batch.len(),
                batch@ == all,
                spec_apply_seq(*self, all.skip(i as int)) == spec_apply_seq(*old(self), all),
            decreases batch.len() - i,
        {
            proof {
                assert(all.skip(i as int).drop_first() =~= all.skip(i as int + 1));
                assert(all.skip(i as int)[0] == all[i as int]);
            }
            self.apply(batch[i]);
            i = i + 1;
        }
        proof {
            assert(all.skip(batch@.len() as int) =~= Seq::<DeviceEvent>::empty());
        }
    }
}

/// Applying the event an action derives to a well-formed state keeps the
/// state well-formed: every emitted value lies within its axis's range.
pub proof fn lemma_apply_preserves_wf(st: VirtualGamepadState, b: XboxButton, edge: i32)
    requires
        wf(st),
        edge == 0 || edge == 1,
    ensures
        wf(spec_apply(st, spec_event(b, edge))),
{
}

/// The event an action derives sets exactly the action's target to the
/// action's value for that edge and touches nothing else.
pub proof fn lemma_apply_sets_target(st: VirtualGamepadState, b: XboxButton, edge: i32)
    requires
        edge == 0 || edge == 1,
    ensures
        target_value(spec_apply(st, spec_event(b, edge)), b) == event_value(b, edge),
        forall|b2: XboxButton|
            !same_target(b, b2) ==> #[trigger] target_value(spec_apply(st, spec_event(b, edge)), b2)
                == target_value(st, b2),
{
}

/// Round trip: a press of any action immediately followed by its release
/// returns the affected button or axis to its neutral value and leaves every
/// other target as it was.
pub proof fn lemma_press_release_restores(st: VirtualGamepadState, b: XboxButton)
    ensures
        target_value(spec_apply(spec_apply(st, spec_event(b, 1)), spec_event(b, 0)), b)
            == neutral_value(b),
        forall|b2: XboxButton|
            !same_target(b, b2) ==> #[trigger] target_value(
                spec_apply(spec_apply(st, spec_event(b, 1)), spec_event(b, 0)),
                b2,
            ) == target_value(st, b2),
{
    lemma_apply_sets_target(st, b, 1);
    lemma_apply_sets_target(spec_apply(st, spec_event(b, 1)), b, 0);
}

/// Last write wins: when two actions drive the same target, pressing the
/// first and then the second, without releasing the first, leaves the target
/// at the second press's value, not at a sum or a clamp of the two.
pub proof fn lemma_last_write_wins(st: VirtualGamepadState, b1: XboxButton, b2: XboxButton)
    requires
        same_target(b1, b2),
    ensures
        target_value(spec_apply(spec_apply(st, spec_event(b1, 1)), spec_event(b2, 1)), b2)
            == press_value(b2),
{
    lemma_apply_sets_target(spec_apply(st, spec_event(b1, 1)), b2, 1);
}

/// A barrier changes no state.
pub proof fn lemma_barrier_is_silent(st: VirtualGamepadState)
    ensures
        spec_apply(st, crate::emission::spec_barrier()) == st,
{
}

/// A whole emission batch acts on the state exactly as its one action event
/// does: the trailing barrier changes nothing, the action's target takes the
/// action's value for that edge, and every other target is untouched.
pub proof fn lemma_batch_drives_target(st: VirtualGamepadState, b: XboxButton, edge: i32)
    requires
        edge == 0 || edge == 1,
    ensures
        spec_apply_seq(st, crate::emission::spec_batch(b, edge)) == spec_apply(
            st,
            spec_event(b, edge),
        ),
        target_value(spec_apply_seq(st, crate::emission::spec_batch(b, edge)), b) == event_value(
            b,
            edge,
        ),
        forall|b2: XboxButton|
            !same_target(b, b2) ==> #[trigger] target_value(
                spec_apply_seq(st, crate::emission::spec_batch(b, edge)),
                b2,
            ) == target_value(st, b2),
{
    let batch = crate::emission::spec_batch(b, edge);
    let after_event = spec_apply(st, spec_event(b, edge));
    let barrier_only = seq![crate::emission::spec_barrier()];
    assert(batch[0] == spec_event(b, edge));
    assert(batch.drop_first() =~= barrier_only);
    assert(spec_apply_seq(st, batch) == spec_apply_seq(after_event, barrier_only));
    assert(barrier_only.drop_first() =~= Seq::<DeviceEvent>::empty());
    let after_barrier = spec_apply(after_event, crate::emission::spec_barrier());
    assert(barrier_only[0] == crate::emission::spec_barrier());
    assert(spec_apply_seq(after_event, barrier_only) == spec_apply_seq(
        after_barrier,
        barrier_only.drop_first(),
    ));
    assert(spec_apply_seq(after_barrier, Seq::<DeviceEvent>::empty()) == after_barrier);
    lemma_barrier_is_silent(after_event);
    lemma_apply_sets_target(st, b, edge);
}

} // verus!
