//! The pure translator from one raw key transition and the mapping table to
//! at most one gamepad action or the shutdown signal. Rule order: sentinel
//! press first, then the press/release filter, then the table lookup.

use vstd::prelude::*;
use crate::actions::XboxButton;
use crate::mapping::Mapping;

verus! {

/// Key code of the sentinel shutdown key (the F12 function key).
pub const SENTINEL_KEY: u16 = 88;

/// One raw transition read from the physical keyboard: the key code, the
/// transition value (1 = pressed, 0 = released, anything else is autorepeat
/// or noise), and a timestamp the logic does not interpret.
#[derive(Debug, Clone, Copy, PartialEq, Eq, Structural)]
pub struct RawTransition {
    pub key: u16,
    pub value: i32,
    pub timestamp_ms: u64,
}

/// A logical gamepad action together with the edge that triggered it.
#[derive(Debug, Clone, Copy, PartialEq, Eq, Structural)]
pub struct GamepadAction {
    pub button: XboxButton,
    pub edge: i32,
}

/// What one raw transition translates to.
#[derive(Debug, Clone, Copy, PartialEq, Eq, Structural)]
pub enum TranslateOutcome {
    /// The sentinel key was pressed: shut the session down.
    Shutdown,
    /// Forward exactly this action to the virtual gamepad.
    Emit(GamepadAction),
    /// Produce nothing: autorepeat, an unmapped key, or a sentinel release.
    Ignore,
}

/// The translation rule. A sentinel press always wins and never consults the
/// table; transitions that are neither press nor release are filtered; a
/// mapped key yields exactly one action carrying its edge; anything else
/// yields nothing.
pub open spec fn spec_translate(key: u16, value: i32, m: Map<u16, XboxButton>) -> TranslateOutcome {
    if key == SENTINEL_KEY && value == 1 {
        TranslateOutcome::Shutdown
    } else if value != 0 && value != 1 {
        TranslateOutcome::Ignore
    } else if m.contains_key(key) {
        TranslateOutcome::Emit(GamepadAction { button: m[key], edge: value })
    } else {
        TranslateOutcome::Ignore
    }
}

/// Translates one raw transition under the given mapping.
pub fn translate(t: &RawTransition, m: &Mapping) -> (r: TranslateOutcome)
    ensures
        r == spec_translate(t.key, t.value, m@),
{
    if t.key == SENTINEL_KEY && t.value == 1 {
        return TranslateOutcome::Shutdown;
    }
    if t.value != 0 && t.value != 1 {
        return TranslateOutcome::Ignore;
    }
    match m.lookup(t.key) {
        Some(button) => TranslateOutcome::Emit(GamepadAction { button, edge: t.value }),
        None => TranslateOutcome::Ignore,
    }
}

/// Autorepeat filtering: a transition whose value is neither press nor
/// release translates to nothing, whatever the key and whatever the mapping.
pub proof fn lemma_autorepeat_filtered(key: u16, value: i32, m: Map<u16, XboxButton>)
    requires
        value != 0,
        value != 1,
    ensures
        spec_translate(key, value, m) == TranslateOutcome::Ignore,
{
}

/// Pass-through never happens: a key the mapping does not bind produces no
/// action on any transition (the sentinel's press excepted).
pub proof fn lemma_unmapped_key_ignored(key: u16, value: i32, m: Map<u16, XboxButton>)
    requires
        !m.contains_key(key),
        !(key == SENTINEL_KEY && value == 1),
    ensures
        spec_translate(key, value, m) == TranslateOutcome::Ignore,
{
}

/// For every key in the mapping (other than the sentinel), the press
/// translates to exactly one action whose event drives the key's target to
/// its documented extreme value, and the matching release translates to
/// exactly one action driving the very same target back to its documented
/// neutral value.
pub proof fn lemma_mapped_press_release_values(key: u16, m: Map<u16, XboxButton>)
    requires
        m.contains_key(key),
        key != SENTINEL_KEY,
    ensures
        spec_translate(key, 1, m) == TranslateOutcome::Emit(
            GamepadAction { button: m[key], edge: 1 },
        ),
        spec_translate(key, 0, m) == TranslateOutcome::Emit(
            GamepadAction { button: m[key], edge: 0 },
        ),
        crate::emission::spec_event(m[key], 1).value == crate::emission::press_value(m[key]),
        crate::emission::spec_event(m[key], 0).value == crate::emission::neutral_value(m[key]),
        crate::emission::spec_event(m[key], 1).kind == crate::emission::spec_event(m[key], 0).kind,
        crate::emission::spec_event(m[key], 1).code == crate::emission::spec_event(m[key], 0).code,
{
}

/// Sentinel priority: a press of the sentinel key yields the shutdown signal
/// and nothing else, even when the sentinel key itself appears in the
/// mapping; its release is not a shutdown and is never an action of its own
/// unless the table maps it.
pub proof fn lemma_sentinel_priority(m: Map<u16, XboxButton>)
    ensures
        spec_translate(SENTINEL_KEY, 1, m) == TranslateOutcome::Shutdown,
        m.contains_key(SENTINEL_KEY) ==> spec_translate(SENTINEL_KEY, 1, m)
            == TranslateOutcome::Shutdown,
{
}

} // verus!
