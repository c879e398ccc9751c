//! The supervisor's phase machine. It decides, from the current phase and
//! one translated transition, what the surrounding loop must do next, and it
//! pins the fixed teardown order: stop reading, release the physical grab,
//! uninstall the virtual device, terminate. The surrounding binary performs
//! the actual device calls and reports their completion back to this model.

use vstd::prelude::*;
use crate::actions::XboxButton;
use crate::emission::DeviceEvent;
use crate::emission::emission_batch;
use crate::emission::lemma_batch_preserves_pairing;
use crate::emission::spec_batch;
use crate::emission::well_paired;
use crate::mapping::Mapping;
use crate::translate::RawTransition;
use crate::translate::TranslateOutcome;
use crate::translate::spec_translate;
use crate::translate::translate;

verus! {

/// Lifecycle phase of a session.
#[derive(Debug, Clone, Copy, PartialEq, Eq, Structural)]
pub enum Phase {
    Idle,
    Capturing,
    ShuttingDown,
    Terminated,
}

/// What the driving loop must do after one transition was examined.
#[derive(Debug)]
pub enum SupervisorAction {
    /// Hand exactly this batch to the virtual device.
    EmitBatch(Vec<DeviceEvent>),
    /// Stop reading input and run the teardown sequence.
    BeginShutdown,
    /// Nothing: the transition was filtered or unmapped.
    Nothing,
}

/// Supervisor state: the phase, and whether the two halves of the session
/// are currently held.
pub struct Supervisor {
    pub phase: Phase,
    pub grabbed: bool,
    pub virtual_installed: bool,
}

/// Phase discipline: before a session opens and after it is fully torn down,
/// no device is held; while capturing, both halves are held.
pub open spec fn wf(s: Supervisor) -> bool {
    &&& s.phase == Phase::Idle ==> !s.grabbed && !s.virtual_installed
    &&& s.phase == Phase::Capturing ==> s.grabbed && s.virtual_installed
    &&& s.phase == Phase::Terminated ==> !s.grabbed && !s.virtual_installed
}

impl Supervisor {
    /// A fresh supervisor: idle, holding nothing. No session exists until a
    /// profile was found and [`Supervisor::begin_capture`] is called.
    pub fn new() -> (s: Supervisor)
        ensures
            s.phase == Phase::Idle,
            !s.grabbed,
            !s.virtual_installed,
            wf(s),
    {
        Supervisor { phase: Phase::Idle, grabbed: false, virtual_installed: false }
    }

    /// Opens the session: called once the physical device is grabbed and the
    /// virtual device is created, both successfully.
    pub fn begin_capture(&mut self)
        requires
            old(self).phase == Phase::Idle,
        ensures
            final(self).phase == Phase::Capturing,
            final(self).grabbed,
            final(self).virtual_installed,
            wf(*final(self)),
    {
        self.phase = Phase::Capturing;
        self.grabbed = true;
        self.virtual_installed = true;
    }

    /// Examines one raw transition while capturing. A sentinel press moves
    /// the supervisor to shutting down; a mapped transition keeps capturing
    /// and yields exactly the action's atomic emission batch; anything else
    /// changes nothing.
    pub fn on_transition(&mut self, t: &RawTransition, m: &Mapping) -> (act: SupervisorAction)
        requires
            old(self).phase == Phase::Capturing,
            wf(*old(self)),
        ensures
            final(self).grabbed == old(self).grabbed,
            final(self).virtual_installed == old(self).virtual_installed,
            wf(*final(self)),
            spec_translate(t.key, t.value, m@) == TranslateOutcome::Shutdown ==> final(self).phase
                == Phase::ShuttingDown && act is BeginShutdown,
            spec_translate(t.key, t.value, m@) matches TranslateOutcome::Emit(a) ==> {
                &&& final(self).phase == Phase::Capturing
                &&& act matches SupervisorAction::EmitBatch(batch) && batch@ == spec_batch(
                    a.button,
                    a.edge,
                )
            },
            spec_translate(t.key, t.value, m@) == TranslateOutcome::Ignore ==> final(self).phase
                == Phase::Capturing && act is Nothing,
    {
        match translate(t, m) {
            TranslateOutcome::Shutdown => {
                self.phase = Phase::ShuttingDown;
                SupervisorAction::BeginShutdown
            },
            TranslateOutcome::Emit(a) => {
                SupervisorAction::EmitBatch(emission_batch(a.button, a.edge))
            },
            TranslateOutcome::Ignore => SupervisorAction::Nothing,
        }
    }

    /// A fatal streaming failure: the input is no longer readable, so the
    /// session moves to shutting down.
    pub fn on_io_failure(&mut self)
        requires
            old(self).phase == Phase::Capturing,
            wf(*old(self)),
        ensures
            final(self).phase == Phase::ShuttingDown,
            final(self).grabbed == old(self).grabbed,
            final(self).virtual_installed == old(self).virtual_installed,
            wf(*final(self)),
    {
        self.phase = Phase::ShuttingDown;
    }

    /// First teardown step: the physical grab is released. Idempotent, so a
    /// repeated release on an abnormal exit path is harmless.
    pub fn release_physical(&mut self)
        requires
            old(self).phase == Phase::ShuttingDown,
        ensures
            final(self).phase == Phase::ShuttingDown,
            !final(self).grabbed,
            final(self).virtual_installed == old(self).virtual_installed,
            wf(*final(self)),
    {
        self.grabbed = false;
    }

    /// Second teardown step: the virtual device is uninstalled; the grab must
    /// already be released.
    pub fn uninstall_virtual(&mut self)
        requires
            old(self).phase == Phase::ShuttingDown,
            !old(self).grabbed,
        ensures
            final(self).phase == Phase::ShuttingDown,
            !final(self).grabbed,
            !final(self).virtual_installed,
            wf(*final(self)),
    {
        self.virtual_installed = false;
    }

    /// Completes the shutdown. Afterwards the physical device is free to be
    /// acquired by anyone else and the virtual device no longer exists.
    pub fn finish(&mut self)
        requires
            old(self).phase == Phase::ShuttingDown,
            !old(self).grabbed,
            !old(self).virtual_installed,
        ensures
            final(self).phase == Phase::Terminated,
            !final(self).grabbed,
            !final(self).virtual_installed,
            wf(*final(self)),
    {
        self.phase = Phase::Terminated;
    }
}

/// Everything a capture session sends to the device for a sequence of raw
/// transitions: the emission batches of the translated actions, in order.
pub open spec fn spec_session_stream(
    transitions: Seq<(u16, i32)>,
    m: Map<u16, XboxButton>,
) -> Seq<DeviceEvent>
    decreases transitions.len(),
{
    if transitions.len() == 0 {
        Seq::empty()
    } else {
        let last = transitions.last();
        let rest = spec_session_stream(transitions.drop_last(), m);
        match spec_translate(last.0, last.1, m) {
            TranslateOutcome::Emit(a) => rest + spec_batch(a.button, a.edge),
            _ => rest,
        }
    }
}

/// Over a whole session, whatever the transitions and the mapping, changes
/// and barriers strictly alternate in the emitted stream: every action is
/// followed by exactly one synchronization barrier and no barrier ever
/// appears without its pending action.
pub proof fn lemma_session_stream_well_paired(
    transitions: Seq<(u16, i32)>,
    m: Map<u16, XboxButton>,
)
    ensures
        well_paired(spec_session_stream(transitions, m)),
    decreases transitions.len(),
{
    if transitions.len() == 0 {
        assert(well_paired(Seq::<DeviceEvent>::empty()));
    } else {
        let last = transitions.last();
        lemma_session_stream_well_paired(transitions.drop_last(), m);
        match spec_translate(last.0, last.1, m) {
            TranslateOutcome::Emit(a) => {
                lemma_batch_preserves_pairing(
                    spec_session_stream(transitions.drop_last(), m),
                    a.button,
                    a.edge,
                );
            },
            _ => {},
        }
    }
}

} // verus!
