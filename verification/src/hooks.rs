//! The hook-dispatch layer: the filters behind the system-wide
//! low-level keyboard and mouse hooks.
//!
//! A hook callback receives a chain code and a message identifier. The
//! filters here decide whether the notification counts as a key press
//! or a mouse click, update the counters accordingly, and always direct
//! the caller to forward the event to the next hook in the chain:
//! suppressing a system-wide low-level event would freeze input for the
//! whole desktop.

use vstd::prelude::*;
use crate::counters::InputCounters;

verus! {

/// Key-transition message identifiers, as the low-level keyboard hook
/// receives them.
pub const WM_KEYDOWN: u32 = 0x0100;
pub const WM_KEYUP: u32 = 0x0101;
pub const WM_SYSKEYDOWN: u32 = 0x0104;
pub const WM_SYSKEYUP: u32 = 0x0105;

/// Button-transition message identifiers for the low-level mouse hook:
/// the four button-down kinds (primary, secondary, middle, extended)
/// and, for contrast, some that never count.
pub const WM_MOUSEMOVE: u32 = 0x0200;
pub const WM_LBUTTONDOWN: u32 = 0x0201;
pub const WM_LBUTTONUP: u32 = 0x0202;
pub const WM_RBUTTONDOWN: u32 = 0x0204;
pub const WM_RBUTTONUP: u32 = 0x0205;
pub const WM_MBUTTONDOWN: u32 = 0x0207;
pub const WM_MBUTTONUP: u32 = 0x0208;
pub const WM_XBUTTONDOWN: u32 = 0x020B;
pub const WM_XBUTTONUP: u32 = 0x020C;

/// One input notification as a hook callback sees it: the hook-chain
/// code (negative means "do not act, pass through") and the message
/// identifier naming the event subtype.
#[derive(Clone, Copy)]
pub struct HookEvent {
    pub n_code: i32,
    pub w_param: u32,
}

/// The message denotes a key press: the ordinary or the system key-down
/// variant.
pub open spec fn is_key_down_message(w_param: u32) -> bool {
    w_param == WM_KEYDOWN || w_param == WM_SYSKEYDOWN
}

/// The message denotes a button press of any of the four button kinds.
pub open spec fn is_button_down_message(w_param: u32) -> bool {
    w_param == WM_LBUTTONDOWN || w_param == WM_RBUTTONDOWN
        || w_param == WM_MBUTTONDOWN || w_param == WM_XBUTTONDOWN
}

/// A keyboard notification is counted exactly when the chain code asks
/// for processing and the transition is a key-down.
pub open spec fn counts_key_press(e: HookEvent) -> bool {
    e.n_code >= 0 && is_key_down_message(e.w_param)
}

/// A mouse notification is counted exactly when the chain code asks for
/// processing and the transition is a button-down.
pub open spec fn counts_mouse_click(e: HookEvent) -> bool {
    e.n_code >= 0 && is_button_down_message(e.w_param)
}

/// What a hook callback tells its caller: `forward` directs the caller
/// to pass the event to the next hook in the chain (always true — the
/// filters never consume an event), and `report` carries the new count
/// exactly when the event was counted.
pub struct HookVerdict {
    pub forward: bool,
    pub report: Option<u64>,
}

/// The keyboard filter: count a key-down (ordinary or system variant)
/// when the chain code asks for processing; ignore everything else; in
/// every case have the event forwarded unchanged.
pub fn keyboard_hook_step(counters: &mut InputCounters, event: HookEvent) -> (v: HookVerdict)
    requires
        old(counters).key_presses < u64::MAX,
    ensures
        v.forward,
        final(counters).mouse_clicks == old(counters).mouse_clicks,
        counts_key_press(event) ==> {
            &&& final(counters).key_presses == old(counters).key_presses + 1
            &&& v.report == Some(final(counters).key_presses)
        },
        !counts_key_press(event) ==> {
            &&& final(counters).key_presses == old(counters).key_presses
            &&& v.report is None
        },
{
    if event.n_code >= 0 && (event.w_param == WM_KEYDOWN || event.w_param == WM_SYSKEYDOWN) {
        let count = counters.increment_key_press();
        HookVerdict { forward: true, report: Some(count) }
    } else {
        HookVerdict { forward: true, report: None }
    }
}

/// The mouse filter: count a button-down of any of the four button
/// kinds when the chain code asks for processing; ignore moves,
/// releases and everything else; in every case have the event forwarded
/// unchanged.
pub fn mouse_hook_step(counters: &mut InputCounters, event: HookEvent) -> (v: HookVerdict)
    requires
        old(counters).mouse_clicks < u64::MAX,
    ensures
        v.forward,
        final(counters).key_presses == old(counters).key_presses,
        counts_mouse_click(event) ==> {
            &&& final(counters).mouse_clicks == old(counters).mouse_clicks + 1
            &&& v.report == Some(final(counters).mouse_clicks)
        },
        !counts_mouse_click(event) ==> {
            &&& final(counters).mouse_clicks == old(counters).mouse_clicks
            &&& v.report is None
        },
{
    if event.n_code >= 0
        && (event.w_param == WM_LBUTTONDOWN || event.w_param == WM_RBUTTONDOWN
            || event.w_param == WM_MBUTTONDOWN || event.w_param == WM_XBUTTONDOWN)
    {
        let count = counters.increment_mouse_click();
        HookVerdict { forward: true, report: Some(count) }
    } else {
        HookVerdict { forward: true, report: None }
    }
}

/// How many events of the sequence the keyboard filter counts.
pub open spec fn key_presses_in(events: Seq<HookEvent>) -> nat
    decreases events.len(),
{
    if events.len() == 0 {
        0
    } else {
        key_presses_in(events.drop_last()) + (if counts_key_press(events.last()) {
            1nat
        } else {
            0nat
        })
    }
}

/// How many events of the sequence the mouse filter counts.
pub open spec fn mouse_clicks_in(events: Seq<HookEvent>) -> nat
    decreases events.len(),
{
    if events.len() == 0 {
        0
    } else {
        mouse_clicks_in(events.drop_last()) + (if counts_mouse_click(events.last()) {
            1nat
        } else {
            0nat
        })
    }
}

/// At most one key press is counted per event.
pub proof fn lemma_key_presses_in_le_len(events: Seq<HookEvent>)
    ensures
        key_presses_in(events) <= events.len(),
    decreases events.len(),
{
    if events.len() > 0 {
        lemma_key_presses_in_le_len(events.drop_last());
    }
}

/// At most one mouse click is counted per event.
pub proof fn lemma_mouse_clicks_in_le_len(events: Seq<HookEvent>)
    ensures
        mouse_clicks_in(events) <= events.len(),
    decreases events.len(),
{
    if events.len() > 0 {
        lemma_mouse_clicks_in_le_len(events.drop_last());
    }
}

/// Drive the keyboard filter over a whole sequence of notifications,
/// for instance a synthetic event script. However key-down and key-up
/// events are interleaved, the key counter grows by exactly the number
/// of counted key-down events and never decreases, the click counter
/// does not move, and every event is forwarded.
pub fn deliver_keyboard_events(counters: &mut InputCounters, events: &Vec<HookEvent>) -> (reports:
    Vec<Option<u64>>)
    requires
        old(counters).key_presses + events.len() <= u64::MAX,
    ensures
        final(counters).key_presses == old(counters).key_presses + key_presses_in(events@),
        final(counters).key_presses >= old(counters).key_presses,
        final(counters).mouse_clicks == old(counters).mouse_clicks,
        reports.len() == events.len(),
{
    let mut reports: Vec<Option<u64>> = Vec::new();
    let mut i: usize = 0;
    while i < events.len()
        invariant
            i <= events.len(),
            old(counters).key_presses + events@.len() <= u64::MAX,
            counters.key_presses == old(counters).key_presses + key_presses_in(
                events@.take(i as int),
            ),
            counters.mouse_clicks == old(counters).mouse_clicks,
            reports.len() == i,
        decreases events.len() - i,
    {
        proof {
            lemma_key_presses_in_le_len(events@.take(i as int));
            assert(events@.take(i as int + 1).drop_last() =~= events@.take(i as int));
            assert(events@.take(i as int + 1).last() == events@[i as int]);
        }
        let verdict = keyboard_hook_step(counters, events[i]);
        reports.push(verdict.report);
        i = i + 1;
    }
    proof {
        assert(events@.take(events@.len() as int) =~= events@);
    }
    reports
}

/// Drive the mouse filter over a whole sequence of notifications. The
/// click counter grows by exactly the number of counted button-down
/// events and never decreases — moves and releases are ignored — the
/// key counter does not move, and every event is forwarded.
pub fn deliver_mouse_events(counters: &mut InputCounters, events: &Vec<HookEvent>) -> (reports: Vec<
    Option<u64>,
>)
    requires
        old(counters).mouse_clicks + events.len() <= u64::MAX,
    ensures
        final(counters).mouse_clicks == old(counters).mouse_clicks + mouse_clicks_in(events@),
        final(counters).mouse_clicks >= old(counters).mouse_clicks,
        final(counters).key_presses == old(counters).key_presses,
        reports.len() == events.len(),
{
    let mut reports: Vec<Option<u64>> = Vec::new();
    let mut i: usize = 0;
    while i < events.len()
        invariant
            i <= events.len(),
            old(counters).mouse_clicks + events@.len() <= u64::MAX,
            counters.mouse_clicks == old(counters).mouse_clicks + mouse_clicks_in(
                events@.take(i as int),
            ),
            counters.key_presses == old(counters).key_presses,
            reports.len() == i,
        decreases events.len() - i,
    {
        proof {
            lemma_mouse_clicks_in_le_len(events@.take(i as int));
            assert(events@.take(i as int + 1).drop_last() =~= events@.take(i as int));
            assert(events@.take(i as int + 1).last() == events@[i as int]);
        }
        let verdict = mouse_hook_step(counters, events[i]);
        reports.push(verdict.report);
        i = i + 1;
    }
    proof {
        assert(events@.take(events@.len() as int) =~= events@);
    }
    reports
}

} // verus!
