use notifyd::CloseReason;
use notifyd::ClosedSignal;
use notifyd::Engine;
use notifyd::EngineError;
use notifyd::HintValue;
use notifyd::Notification;
use notifyd::TimerCmd;

fn note(replaces_id: u32, summary: &str, body: &str, expire_timeout: i32) -> Notification {
    Notification {
        app_name: "app".to_string(),
        replaces_id,
        app_icon: String::new(),
        summary: summary.to_string(),
        body: body.to_string(),
        actions: Vec::new(),
        hints: Vec::new(),
        expire_timeout,
    }
}

fn arm_of(cmd: &TimerCmd) -> (u32, u64, u32) {
    match cmd {
        TimerCmd::Arm { id, gen, delay_ms } => (*id, *gen, *delay_ms),
        TimerCmd::NoTimer => panic!("expected an armed timer"),
    }
}

#[test]
fn fresh_ids_are_distinct_and_increasing() {
    let mut e = Engine::new(5000);
    let a = e.notify(note(0, "a", "", 0)).unwrap();
    let b = e.notify(note(0, "b", "", 0)).unwrap();
    let c = e.notify(note(0, "c", "", 0)).unwrap();
    assert_eq!((a.id, b.id, c.id), (1, 2, 3));
    // closing an id does not rewind the allocator
    let _ = e.close_notification(2);
    let d = e.notify(note(0, "d", "", 0)).unwrap();
    assert_eq!(d.id, 4);
    assert!(a.id < b.id && b.id < c.id && c.id < d.id);
}

#[test]
fn replace_keeps_id_and_updates_payload() {
    let mut e = Engine::new(5000);
    let first = e.notify(note(0, "Hi", "body", -1)).unwrap();
    assert_eq!(first.id, 1);
    let second = e.notify(note(1, "Hi2", "body2", -1)).unwrap();
    assert_eq!(second.id, 1);
    let stored = e.get(1).expect("id 1 must be active");
    assert_eq!(stored.summary, "Hi2");
    assert_eq!(stored.body, "body2");
    assert_eq!(e.active_count(), 1);
}

#[test]
fn replace_disarms_previous_timer() {
    let mut e = Engine::new(5000);
    // schedule a 1 ms timeout, replace with a 10 s timeout: the old timer
    // must no longer fire.
    let first = e.notify(note(0, "soon", "", 1)).unwrap();
    let (id, old_gen, old_delay) = arm_of(&first.timer);
    assert_eq!((id, old_delay), (1, 1));
    let second = e.notify(note(1, "later", "", 10_000)).unwrap();
    let (id2, new_gen, new_delay) = arm_of(&second.timer);
    assert_eq!((id2, new_delay), (1, 10_000));
    assert_ne!(old_gen, new_gen);
    // the old timer elapsing is a no-op: no signal, nothing closed
    assert_eq!(e.timer_fired(1, old_gen), None);
    assert!(e.get(1).is_some());
    // the new timer still closes it
    assert_eq!(
        e.timer_fired(1, new_gen),
        Some(ClosedSignal { id: 1, reason: CloseReason::Expired })
    );
    assert!(e.get(1).is_none());
}

#[test]
fn replace_of_absent_id_degrades_to_insert() {
    let mut e = Engine::new(5000);
    let out = e.notify(note(7, "revived", "", 0)).unwrap();
    assert_eq!(out.id, 7);
    assert_eq!(e.get(7).expect("id 7 must be active").summary, "revived");
    // a fresh notification still starts from the allocator's own position
    let fresh = e.notify(note(0, "fresh", "", 0)).unwrap();
    assert_eq!(fresh.id, 1);
}

#[test]
fn allocator_skips_active_ids() {
    let mut e = Engine::new(5000);
    // make ids 1 and 2 active without moving the allocator
    let _ = e.notify(note(1, "one", "", 0)).unwrap();
    let _ = e.notify(note(2, "two", "", 0)).unwrap();
    // a fresh notification scans from 1 and must skip both live ids
    let fresh = e.notify(note(0, "three", "", 0)).unwrap();
    assert_eq!(fresh.id, 3);
    assert_eq!(e.active_count(), 3);
}

#[test]
fn close_emits_one_signal_and_second_close_is_noop() {
    let mut e = Engine::new(5000);
    let out = e.notify(note(0, "x", "", 60_000)).unwrap();
    let (_, gen, _) = arm_of(&out.timer);
    let s = e.close_notification(1);
    assert_eq!(s, Some(ClosedSignal { id: 1, reason: CloseReason::DismissedByRequest }));
    assert!(e.get(1).is_none());
    // its timer is cancelled: a later fire emits nothing
    assert_eq!(e.timer_fired(1, gen), None);
    // a second close is a soft no-op, not an error, and emits nothing
    assert_eq!(e.close_notification(1), None);
}

#[test]
fn close_of_unknown_id_is_noop() {
    let mut e = Engine::new(5000);
    assert_eq!(e.close_notification(42), None);
    assert_eq!(e.active_count(), 0);
}

#[test]
fn expiry_closes_exactly_once() {
    let mut e = Engine::new(5000);
    let out = e.notify(note(0, "fleeting", "", 50)).unwrap();
    let (id, gen, delay) = arm_of(&out.timer);
    assert_eq!((id, delay), (1, 50));
    // the timer elapses: exactly one expiry signal, the id is gone
    assert_eq!(
        e.timer_fired(id, gen),
        Some(ClosedSignal { id: 1, reason: CloseReason::Expired })
    );
    assert!(e.get(1).is_none());
    // a duplicate fire report emits nothing further
    assert_eq!(e.timer_fired(id, gen), None);
}

#[test]
fn close_fire_race_yields_exactly_one_signal_either_order() {
    // order one: explicit close wins, the timer fire finds nothing
    let mut e1 = Engine::new(5000);
    let out1 = e1.notify(note(0, "raced", "", 50)).unwrap();
    let (_, gen1, _) = arm_of(&out1.timer);
    let signals_one = [e1.close_notification(1), e1.timer_fired(1, gen1)];
    assert_eq!(signals_one.iter().flatten().count(), 1);
    assert_eq!(
        signals_one[0],
        Some(ClosedSignal { id: 1, reason: CloseReason::DismissedByRequest })
    );

    // order two: the timer fires first, the explicit close finds nothing
    let mut e2 = Engine::new(5000);
    let out2 = e2.notify(note(0, "raced", "", 50)).unwrap();
    let (_, gen2, _) = arm_of(&out2.timer);
    let signals_two = [e2.timer_fired(1, gen2), e2.close_notification(1)];
    assert_eq!(signals_two.iter().flatten().count(), 1);
    assert_eq!(signals_two[0], Some(ClosedSignal { id: 1, reason: CloseReason::Expired }));
}

#[test]
fn timeout_resolution() {
    let mut e = Engine::new(7000);
    // zero: never expires, no timer to arm
    let none = e.notify(note(0, "stays", "", 0)).unwrap();
    assert_eq!(none.timer, TimerCmd::NoTimer);
    // negative: the engine default
    let dflt = e.notify(note(0, "dflt", "", -1)).unwrap();
    assert_eq!(arm_of(&dflt.timer).2, 7000);
    // positive: as requested
    let exact = e.notify(note(0, "exact", "", 1234)).unwrap();
    assert_eq!(arm_of(&exact.timer).2, 1234);
    // only armed timers consume generations, each one fresh
    assert_eq!(e.timer_generations(), 2);
    assert_ne!(arm_of(&dflt.timer).1, arm_of(&exact.timer).1);
}

#[test]
fn odd_action_list_is_rejected_and_changes_nothing() {
    let mut e = Engine::new(5000);
    let mut bad = note(0, "bad", "", 0);
    bad.actions = vec!["default".to_string()];
    assert_eq!(e.notify(bad), Err(EngineError::InvalidArgument));
    assert_eq!(e.active_count(), 0);
    // the failed call burned no id
    let ok = e.notify(note(0, "good", "", 0)).unwrap();
    assert_eq!(ok.id, 1);
}

#[test]
fn action_invoked_only_for_registered_keys_of_active_ids() {
    let mut e = Engine::new(5000);
    let mut n = note(0, "act", "", 0);
    n.actions = vec![
        "default".to_string(),
        "Open".to_string(),
        "cancel".to_string(),
        "Dismiss".to_string(),
    ];
    let out = e.notify(n).unwrap();
    assert!(e.action_invoked(out.id, &"default".to_string()));
    assert!(e.action_invoked(out.id, &"cancel".to_string()));
    // labels are not keys
    assert!(!e.action_invoked(out.id, &"Open".to_string()));
    assert!(!e.action_invoked(out.id, &"missing".to_string()));
    // an unknown id has no actions
    assert!(!e.action_invoked(99, &"default".to_string()));
    // stale actions of a closed notification are refused
    let _ = e.close_notification(out.id);
    assert!(!e.action_invoked(out.id, &"default".to_string()));
}

#[test]
fn payload_is_stored_verbatim() {
    let mut e = Engine::new(5000);
    let mut n = note(0, "summary", "body text", 0);
    n.app_name = "an app".to_string();
    n.app_icon = "icon-name".to_string();
    n.hints = vec![
        ("urgency".to_string(), HintValue::Byte(2)),
        ("resident".to_string(), HintValue::Bool(true)),
        ("x".to_string(), HintValue::Int32(-3)),
        ("sound-name".to_string(), HintValue::Text("ding".to_string())),
        ("image-data".to_string(), HintValue::Bytes(vec![1, 2, 3])),
    ];
    let out = e.notify(n).unwrap();
    let stored = e.get(out.id).expect("must be active");
    assert_eq!(stored.app_name, "an app");
    assert_eq!(stored.app_icon, "icon-name");
    assert_eq!(stored.summary, "summary");
    assert_eq!(stored.body, "body text");
    assert_eq!(stored.hints.len(), 5);
    assert_eq!(stored.hints[0].0, "urgency");
    assert!(matches!(stored.hints[0].1, HintValue::Byte(2)));
    assert!(matches!(stored.hints[1].1, HintValue::Bool(true)));
    assert!(matches!(stored.hints[2].1, HintValue::Int32(-3)));
    assert!(matches!(&stored.hints[3].1, HintValue::Text(s) if s == "ding"));
    assert!(matches!(&stored.hints[4].1, HintValue::Bytes(b) if b == &vec![1u8, 2, 3]));
}

#[test]
fn end_to_end_scenario() {
    let mut e = Engine::new(5000);
    let first = e.notify(note(0, "Hi", "body", -1)).unwrap();
    assert_eq!(first.id, 1);
    let second = e.notify(note(1, "Hi2", "body2", -1)).unwrap();
    assert_eq!(second.id, 1);
    assert_eq!(e.get(1).expect("active").summary, "Hi2");
    let s = e.close_notification(1);
    assert_eq!(s, Some(ClosedSignal { id: 1, reason: CloseReason::DismissedByRequest }));
    let s2 = e.close_notification(1);
    assert_eq!(s2, None);
}
