//! The process-wide input-event counters.

use vstd::prelude::*;

verus! {

/// The two input-event counters: key presses and mouse clicks.
///
/// Both counters are monotone: the methods only ever increase them, and
/// each increment raises exactly one counter by exactly one. A caller
/// that needs to share one instance across threads wraps it in an
/// exclusive handle; the `&mut` receiver here guarantees that every
/// increment acts on the one current value, so no update can be lost.
pub struct InputCounters {
    pub key_presses: u64,
    pub mouse_clicks: u64,
}

impl InputCounters {
    /// Fresh counters, both zero.
    pub fn new() -> (c: InputCounters)
        ensures
            c.key_presses == 0,
            c.mouse_clicks == 0,
    {
        InputCounters { key_presses: 0, mouse_clicks: 0 }
    }

    /// Record one key press and return the post-increment count.
    pub fn increment_key_press(&mut self) -> (r: u64)
        requires
            old(self).key_presses < u64::MAX,
        ensures
            final(self).key_presses == old(self).key_presses + 1,
            final(self).mouse_clicks == old(self).mouse_clicks,
            r == final(self).key_presses,
    {
        self.key_presses = self.key_presses + 1;
        self.key_presses
    }

    /// Record one mouse click and return the post-increment count.
    pub fn increment_mouse_click(&mut self) -> (r: u64)
        requires
            old(self).mouse_clicks < u64::MAX,
        ensures
            final(self).mouse_clicks == old(self).mouse_clicks + 1,
            final(self).key_presses == old(self).key_presses,
            r == final(self).mouse_clicks,
    {
        self.mouse_clicks = self.mouse_clicks + 1;
        self.mouse_clicks
    }
}

} // verus!
