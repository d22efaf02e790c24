use ec_platform::tachometer::{
    begin_cycle, fan_tach, init, measured_rpm, on_event, rpm_scale, TaskEvent, TaskState,
    Tachometer, MAX_WINDOW_PULSES, PULSES_PER_REV, WINDOW_MS,
};

#[test]
fn scale_for_one_second_window_is_sixty() {
    assert_eq!(rpm_scale(WINDOW_MS), 60);
    assert_eq!(rpm_scale(500), 120);
    assert_eq!(PULSES_PER_REV, 2);
}

#[test]
fn reading_is_thirty_rpm_per_pulse() {
    assert_eq!(measured_rpm(0), 0);
    assert_eq!(measured_rpm(1), 30);
    assert_eq!(measured_rpm(7), 210);
    assert_eq!(measured_rpm(200), 6000);
    assert_eq!(measured_rpm(MAX_WINDOW_PULSES), 32760);
}

#[test]
fn max_window_pulses_is_the_overflow_limit() {
    assert!((MAX_WINDOW_PULSES as u32) * 60 <= u16::MAX as u32);
    assert!((MAX_WINDOW_PULSES as u32 + 1) * 60 > u16::MAX as u32);
}

#[test]
fn new_tachometer_is_disabled_and_reads_zero() {
    let t = Tachometer::new();
    assert_eq!(t.rpm(), 0);
    assert!(!t.enabled());
}

#[test]
fn enable_and_disable_keep_the_reading() {
    let mut t = Tachometer::new();
    t.enable();
    let s = begin_cycle(&t);
    let s = on_event(&mut t, s, TaskEvent::FallingEdge);
    on_event(&mut t, s, TaskEvent::WindowClosed);
    assert_eq!(t.rpm(), 30);
    t.disable();
    assert!(!t.enabled());
    assert_eq!(t.rpm(), 30);
    t.enable();
    assert!(t.enabled());
    assert_eq!(t.rpm(), 30);
}

#[test]
fn init_fills_an_empty_slot_once() {
    let mut slot: Option<Tachometer> = None;
    init(&mut slot);
    assert!(slot.is_some());
    assert_eq!(fan_tach(&slot).rpm(), 0);
    assert!(!fan_tach(&slot).enabled());
    slot.as_mut().unwrap().enable();
    init(&mut slot);
    assert!(fan_tach(&slot).enabled());
}

#[test]
fn disabled_task_waits_for_the_signal() {
    let mut t = Tachometer::new();
    let s = begin_cycle(&t);
    assert_eq!(s, TaskState::Waiting);
    let s2 = on_event(&mut t, s, TaskEvent::FallingEdge);
    assert_eq!(s2, TaskState::Waiting);
    let s3 = on_event(&mut t, s2, TaskEvent::WindowClosed);
    assert_eq!(s3, TaskState::Waiting);
    assert_eq!(t.rpm(), 0);
    let s4 = on_event(&mut t, s3, TaskEvent::Woken);
    assert_eq!(s4, TaskState::Idle);
}

#[test]
fn enabled_task_counts_a_window() {
    let mut t = Tachometer::new();
    t.enable();
    let mut s = begin_cycle(&t);
    assert_eq!(s, TaskState::Counting { pulses: 0 });
    for _ in 0..100 {
        s = on_event(&mut t, s, TaskEvent::FallingEdge);
    }
    assert_eq!(s, TaskState::Counting { pulses: 100 });
    assert_eq!(t.rpm(), 0);
    s = on_event(&mut t, s, TaskEvent::Woken);
    assert_eq!(s, TaskState::Counting { pulses: 100 });
    s = on_event(&mut t, s, TaskEvent::WindowClosed);
    assert_eq!(s, TaskState::Idle);
    assert_eq!(t.rpm(), 3000);
}

#[test]
fn window_closing_after_disable_still_publishes() {
    let mut t = Tachometer::new();
    t.enable();
    let mut s = begin_cycle(&t);
    s = on_event(&mut t, s, TaskEvent::FallingEdge);
    t.disable();
    s = on_event(&mut t, s, TaskEvent::WindowClosed);
    assert_eq!(s, TaskState::Idle);
    assert_eq!(t.rpm(), 30);
    assert_eq!(begin_cycle(&t), TaskState::Waiting);
}

#[test]
fn idle_state_ignores_events() {
    let mut t = Tachometer::new();
    for e in [TaskEvent::FallingEdge, TaskEvent::WindowClosed, TaskEvent::Woken] {
        assert_eq!(on_event(&mut t, TaskState::Idle, e), TaskState::Idle);
    }
    assert_eq!(t.rpm(), 0);
}

fn run(t: &mut Tachometer, mut state: TaskState, events: &[TaskEvent]) -> (TaskState, Vec<u16>) {
    let mut stored = Vec::new();
    for &e in events {
        if state == TaskState::Idle {
            state = begin_cycle(t);
        }
        let before = t.rpm();
        let closes = matches!(state, TaskState::Counting { .. }) && e == TaskEvent::WindowClosed;
        state = on_event(t, state, e);
        if closes {
            stored.push(t.rpm());
        } else {
            assert_eq!(t.rpm(), before);
        }
    }
    if state == TaskState::Idle {
        state = begin_cycle(t);
    }
    (state, stored)
}

#[test]
fn disabled_task_stores_only_the_running_window() {
    let (e, c, w) = (TaskEvent::FallingEdge, TaskEvent::WindowClosed, TaskEvent::Woken);
    let mut t = Tachometer::new();
    t.enable();
    let s = begin_cycle(&t);
    let s = on_event(&mut t, s, e);
    t.disable();
    let (end, stored) = run(&mut t, s, &[e, c, w, e, c, w, c, e]);
    assert_eq!(stored, vec![60]);
    assert_eq!(end, TaskState::Waiting);
}

#[test]
fn woken_task_stores_one_reading_per_window() {
    let (e, c, w) = (TaskEvent::FallingEdge, TaskEvent::WindowClosed, TaskEvent::Woken);
    let mut t = Tachometer::new();
    let s = begin_cycle(&t);
    assert_eq!(s, TaskState::Waiting);
    t.enable();
    let (end, stored) = run(&mut t, s, &[w, e, e, c, c, e, w, c]);
    assert_eq!(stored, vec![60, 0, 30]);
    assert_eq!(end, TaskState::Counting { pulses: 0 });
}
