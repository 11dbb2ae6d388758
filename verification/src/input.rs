//! Input events and the de-duplicated action-accumulator model shared by the
//! cameras.
//!
//! Discrete key transitions add or remove one unit of authority on a control
//! axis. The cameras keep the last seen state of every input; a transition
//! that repeats the recorded state contributes nothing, so holding a key
//! counts exactly once however often the windowing layer repeats the event.

use vstd::prelude::*;

verus! {

/// An input event as the cameras consume it: the windowing shell converts
/// its own event types into these plain values.
#[derive(Clone, Copy, Debug, PartialEq, Eq, Structural)]
pub enum CameraEvent {
    /// A key transition, with a key code and whether it is now pressed.
    Key { code: u32, pressed: bool },
    /// Relative pointer motion.
    MouseMotion { dx: i64, dy: i64 },
    /// A pointer-button transition.
    Button { id: u32, pressed: bool },
}

pub const KEY_W: u32 = 87;
pub const KEY_S: u32 = 83;
pub const KEY_D: u32 = 68;
pub const KEY_A: u32 = 65;
pub const KEY_C: u32 = 67;
pub const KEY_V: u32 = 86;
pub const KEY_Y: u32 = 89;
pub const KEY_H: u32 = 72;
pub const KEY_U: u32 = 85;
pub const KEY_J: u32 = 74;
pub const KEY_I: u32 = 73;
pub const KEY_K: u32 = 75;
pub const KEY_O: u32 = 79;
pub const KEY_L: u32 = 76;

/// The input-map slot of a key code.
pub open spec fn key_slot(code: u32) -> u64 {
    code as u64
}

/// The input-map slot of a pointer button, disjoint from every key slot.
pub open spec fn button_slot(id: u32) -> u64 {
    (0x1_0000_0000int + id as int) as u64
}

/// The authority a transition contributes: zero when it repeats the recorded
/// state of its slot, else one unit with the sign of the transition.
pub open spec fn event_factor(m: Map<u64, bool>, slot: u64, pressed: bool) -> int {
    if m.contains_key(slot) && m[slot] == pressed {
        0
    } else if pressed {
        1
    } else {
        -1
    }
}

/// The second of two consecutive identical transitions for one key
/// contributes nothing: an axis moves by exactly one unit for a held key,
/// not one per repeated event.
pub proof fn lemma_repeat_event_contributes_nothing(m: Map<u64, bool>, slot: u64, pressed: bool)
    ensures
        event_factor(m.insert(slot, pressed), slot, pressed) == 0,
{
}

/// A press of a key not recorded as down contributes exactly one unit.
pub proof fn lemma_fresh_press_counts_once(m: Map<u64, bool>, slot: u64)
    requires
        !(m.contains_key(slot) && m[slot]),
    ensures
        event_factor(m, slot, true) == 1,
{
}

/// A release after a recorded press always takes one unit back, so a fresh
/// press followed by a release nets zero authority.
pub proof fn lemma_press_release_cancels(m: Map<u64, bool>, slot: u64)
    requires
        !(m.contains_key(slot) && m[slot]),
    ensures
        event_factor(m, slot, true) == 1,
        event_factor(m.insert(slot, true), slot, false) == -1,
{
}

} // verus!
