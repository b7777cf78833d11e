use monitor::counters::InputCounters;
use monitor::hooks::{
    deliver_keyboard_events, deliver_mouse_events, keyboard_hook_step, mouse_hook_step, HookEvent,
    WM_KEYDOWN, WM_KEYUP, WM_LBUTTONDOWN, WM_LBUTTONUP, WM_MBUTTONDOWN, WM_MOUSEMOVE,
    WM_RBUTTONDOWN, WM_SYSKEYDOWN, WM_SYSKEYUP, WM_XBUTTONDOWN,
};

fn ev(n_code: i32, w_param: u32) -> HookEvent {
    HookEvent { n_code, w_param }
}

#[test]
fn counters_start_at_zero() {
    let c = InputCounters::new();
    assert_eq!(c.key_presses, 0);
    assert_eq!(c.mouse_clicks, 0);
}

#[test]
fn increments_return_post_increment_value() {
    let mut c = InputCounters::new();
    assert_eq!(c.increment_key_press(), 1);
    assert_eq!(c.increment_key_press(), 2);
    assert_eq!(c.increment_mouse_click(), 1);
    assert_eq!(c.key_presses, 2);
    assert_eq!(c.mouse_clicks, 1);
}

#[test]
fn key_downs_counted_exactly_ups_ignored() {
    // Two ordinary and one system key-down among arbitrary key-ups:
    // the key counter grows by exactly three and never decreases.
    let mut c = InputCounters::new();
    let events = vec![
        ev(0, WM_KEYDOWN),
        ev(0, WM_KEYUP),
        ev(0, WM_SYSKEYDOWN),
        ev(0, WM_SYSKEYUP),
        ev(0, WM_KEYUP),
        ev(0, WM_KEYDOWN),
    ];
    let reports = deliver_keyboard_events(&mut c, &events);
    assert_eq!(c.key_presses, 3);
    assert_eq!(c.mouse_clicks, 0);
    assert_eq!(
        reports,
        vec![Some(1), None, Some(2), None, None, Some(3)]
    );
}

#[test]
fn all_four_button_kinds_counted_moves_and_ups_ignored() {
    let mut c = InputCounters::new();
    let events = vec![
        ev(0, WM_MOUSEMOVE),
        ev(0, WM_LBUTTONDOWN),
        ev(0, WM_LBUTTONUP),
        ev(0, WM_RBUTTONDOWN),
        ev(0, WM_MOUSEMOVE),
        ev(0, WM_MBUTTONDOWN),
        ev(0, WM_XBUTTONDOWN),
    ];
    let reports = deliver_mouse_events(&mut c, &events);
    assert_eq!(c.mouse_clicks, 4);
    assert_eq!(c.key_presses, 0);
    assert_eq!(
        reports,
        vec![None, Some(1), None, Some(2), None, Some(3), Some(4)]
    );
}

#[test]
fn non_matching_subtypes_leave_both_counters_unchanged() {
    // Delivering only non-matching subtypes is a no-op on both counters.
    let mut c = InputCounters::new();
    c.increment_key_press();
    c.increment_mouse_click();

    let v = keyboard_hook_step(&mut c, ev(0, WM_KEYUP));
    assert!(v.forward);
    assert_eq!(v.report, None);

    let v = mouse_hook_step(&mut c, ev(0, WM_MOUSEMOVE));
    assert!(v.forward);
    assert_eq!(v.report, None);

    let v = mouse_hook_step(&mut c, ev(0, WM_LBUTTONUP));
    assert!(v.forward);
    assert_eq!(v.report, None);

    assert_eq!(c.key_presses, 1);
    assert_eq!(c.mouse_clicks, 1);
}

#[test]
fn do_not_act_sentinel_passes_through_without_counting() {
    // A negative chain code means the event is not meant for
    // processing: it is forwarded but never counted.
    let mut c = InputCounters::new();
    let v = keyboard_hook_step(&mut c, ev(-1, WM_KEYDOWN));
    assert!(v.forward);
    assert_eq!(v.report, None);
    let v = mouse_hook_step(&mut c, ev(-1, WM_XBUTTONDOWN));
    assert!(v.forward);
    assert_eq!(v.report, None);
    assert_eq!(c.key_presses, 0);
    assert_eq!(c.mouse_clicks, 0);
}

#[test]
fn empty_event_script_changes_nothing() {
    let mut c = InputCounters::new();
    let events: Vec<HookEvent> = Vec::new();
    let reports = deliver_keyboard_events(&mut c, &events);
    assert!(reports.is_empty());
    let reports = deliver_mouse_events(&mut c, &events);
    assert!(reports.is_empty());
    assert_eq!(c.key_presses, 0);
    assert_eq!(c.mouse_clicks, 0);
}

#[test]
fn increment_works_up_to_the_counter_ceiling() {
    let mut c = InputCounters {
        key_presses: u64::MAX - 1,
        mouse_clicks: u64::MAX - 1,
    };
    assert_eq!(c.increment_key_press(), u64::MAX);
    assert_eq!(c.increment_mouse_click(), u64::MAX);
}

#[test]
fn every_event_is_forwarded() {
    let mut c = InputCounters::new();
    let probes = vec![
        ev(0, WM_KEYDOWN),
        ev(0, WM_KEYUP),
        ev(-7, WM_SYSKEYDOWN),
        ev(0, 0x0300),
    ];
    for e in probes {
        assert!(keyboard_hook_step(&mut c, e).forward);
        assert!(mouse_hook_step(&mut c, e).forward);
    }
}
