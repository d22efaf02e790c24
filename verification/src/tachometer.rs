//! Fan tachometer: turns falling edges counted over a fixed window into an
//! RPM reading, and the state machine of the task that does the counting.

use vstd::prelude::*;

verus! {

/// Length of one counting window, in milliseconds.
pub const WINDOW_MS: u16 = 1000;

/// Tachometer pulses the fan emits per revolution.
pub const PULSES_PER_REV: u16 = 2;

/// Most pulses one window may hold before `pulses * rpm_scale` overflows a `u16`.
pub const MAX_WINDOW_PULSES: u16 = 1092;

/// Factor that turns pulses per window into pulses per minute.
pub open spec fn spec_rpm_scale(window_ms: nat) -> nat {
    60_000nat / window_ms
}

/// RPM reading for `pulses` falling edges counted in one window.
pub open spec fn spec_measured_rpm(pulses: nat) -> nat {
    (pulses * spec_rpm_scale(WINDOW_MS as nat)) / (PULSES_PER_REV as nat)
}

/// Pulses-per-window to pulses-per-minute factor for a window of `window_ms`.
pub fn rpm_scale(window_ms: u16) -> (scale: u16)
    requires
        window_ms > 0,
    ensures
        scale == spec_rpm_scale(window_ms as nat),
{
    60_000u16 / window_ms
}

/// RPM reading for `pulses` falling edges counted in one window.
pub fn measured_rpm(pulses: u16) -> (rpm: u16)
    requires
        pulses <= MAX_WINDOW_PULSES,
    ensures
        rpm == spec_measured_rpm(pulses as nat),
{
    let scale = rpm_scale(WINDOW_MS);
    assert(scale == 60);
    (pulses * scale) / PULSES_PER_REV
}


/// Shared tachometer state: the latest RPM reading and whether measuring is
/// enabled.
pub struct Tachometer {
    rpm: u16,
    enabled: bool,
}

impl Tachometer {
    /// The RPM value last published by the counting task.
    pub closed spec fn reading(&self) -> u16 {
        self.rpm
    }

    /// Whether the counting task is allowed to measure.
    pub closed spec fn is_enabled(&self) -> bool {
        self.enabled
    }

    /// A tachometer that reads 0 RPM and is disabled.
    pub open spec fn is_fresh(&self) -> bool {
        self.reading() == 0 && !self.is_enabled()
    }

    /// The tachometer as `new` creates it.
    pub closed spec fn fresh() -> Tachometer {
        Tachometer { rpm: 0, enabled: false }
    }

    /// A tachometer is the one `new` creates exactly when it is fresh.
    pub proof fn lemma_fresh(tach: Tachometer)
        ensures
            Tachometer::fresh().is_fresh(),
            tach.is_fresh() <==> tach == Tachometer::fresh(),
    {
    }

    /// Creates a disabled tachometer that reads 0 RPM.
    pub fn new() -> (tach: Self)
        ensures
            tach == Tachometer::fresh(),
            tach.is_fresh(),
    {
        Tachometer { rpm: 0, enabled: false }
    }

    /// The latest RPM reading.
    pub fn rpm(&self) -> (rpm: u16)
        ensures
            rpm == self.reading(),
    {
        self.rpm
    }

    /// Whether measuring is enabled.
    pub fn enabled(&self) -> (enabled: bool)
        ensures
            enabled == self.is_enabled(),
    {
        self.enabled
    }

    /// Allows the counting task to measure; the reading is kept.
    pub fn enable(&mut self)
        ensures
            final(self).is_enabled(),
            final(self).reading() == old(self).reading(),
    {
        self.enabled = true;
    }

    /// Stops further measuring; the last reading is kept.
    pub fn disable(&mut self)
        ensures
            !final(self).is_enabled(),
            final(self).reading() == old(self).reading(),
    {
        self.enabled = false;
    }
}

/// What the tachometer slot holds after `init`: the tachometer already there,
/// or a fresh one.
pub open spec fn spec_init(slot: Option<Tachometer>) -> Option<Tachometer> {
    match slot {
        Some(tach) => Some(tach),
        None => Some(Tachometer::fresh()),
    }
}

/// Fills the tachometer slot with a fresh tachometer unless it already holds one.
pub fn init(slot: &mut Option<Tachometer>)
    ensures
        *final(slot) == spec_init(*old(slot)),
        final(slot).is_some(),
        old(slot).is_none() ==> final(slot).unwrap().is_fresh(),
{
    proof {
        Tachometer::lemma_fresh(Tachometer::fresh());
    }
    if slot.is_none() {
        *slot = Some(Tachometer::new());
    }
}

/// The tachometer held by a slot that `init` has filled.
pub fn fan_tach(slot: &Option<Tachometer>) -> (tach: &Tachometer)
    requires
        slot.is_some(),
    ensures
        *tach == slot.unwrap(),
{
    slot.as_ref().unwrap()
}


/// Where the counting task stands in its loop.
#[derive(Clone, Copy, Debug, PartialEq, Eq, Structural)]
pub enum TaskState {
    /// At the top of the loop, about to look at the enabled flag.
    Idle,
    /// Counting falling edges in the current window.
    Counting { pulses: u16 },
    /// Measuring is disabled: waiting until `enable` wakes the task.
    Waiting,
}

/// What the counting task observed.
#[derive(Clone, Copy, Debug, PartialEq, Eq, Structural)]
pub enum TaskEvent {
    /// A falling edge on the tachometer pin.
    FallingEdge,
    /// The counting window has run out.
    WindowClosed,
    /// The enable signal fired.
    Woken,
}

/// The state the task enters at the top of its loop.
pub open spec fn spec_begin_cycle(enabled: bool) -> TaskState {
    if enabled {
        TaskState::Counting { pulses: 0 }
    } else {
        TaskState::Waiting
    }
}

/// Events whose handling stays within `u16` arithmetic.
pub open spec fn event_allowed(state: TaskState, event: TaskEvent) -> bool {
    match (state, event) {
        (TaskState::Counting { pulses }, TaskEvent::FallingEdge) => pulses < u16::MAX,
        (TaskState::Counting { pulses }, TaskEvent::WindowClosed) => pulses <= MAX_WINDOW_PULSES,
        _ => true,
    }
}

/// The state after `event` in `state`; an event the state does not wait for
/// leaves it as it is.
pub open spec fn spec_next_state(state: TaskState, event: TaskEvent) -> TaskState {
    match (state, event) {
        (TaskState::Counting { pulses }, TaskEvent::FallingEdge) => TaskState::Counting {
            pulses: (pulses + 1) as u16,
        },
        (TaskState::Counting { .. }, TaskEvent::WindowClosed) => TaskState::Idle,
        (TaskState::Waiting, TaskEvent::Woken) => TaskState::Idle,
        _ => state,
    }
}

/// The reading the task publishes on `event` in `state`, if it publishes one.
pub open spec fn spec_published(state: TaskState, event: TaskEvent) -> Option<u16> {
    match (state, event) {
        (TaskState::Counting { pulses }, TaskEvent::WindowClosed) => Some(
            spec_measured_rpm(pulses as nat) as u16,
        ),
        _ => None,
    }
}

/// Decides, at the top of the task's loop, whether to count a window or to
/// wait for the enable signal.
pub fn begin_cycle(tach: &Tachometer) -> (state: TaskState)
    ensures
        state == spec_begin_cycle(tach.is_enabled()),
{
    if tach.enabled() {
        TaskState::Counting { pulses: 0 }
    } else {
        TaskState::Waiting
    }
}

/// Handles one event of the counting task: counts an edge, publishes the
/// reading when the window closes, or returns to the top of the loop when woken.
pub fn on_event(tach: &mut Tachometer, state: TaskState, event: TaskEvent) -> (next: TaskState)
    requires
        event_allowed(state, event),
    ensures
        next == spec_next_state(state, event),
        final(tach).is_enabled() == old(tach).is_enabled(),
        final(tach).reading() == match spec_published(state, event) {
            Some(rpm) => rpm,
            None => old(tach).reading(),
        },
{
    match (state, event) {
        (TaskState::Counting { pulses }, TaskEvent::FallingEdge) => {
            TaskState::Counting { pulses: pulses + 1 }
        },
        (TaskState::Counting { pulses }, TaskEvent::WindowClosed) => {
            tach.rpm = measured_rpm(pulses);
            TaskState::Idle
        },
        (TaskState::Waiting, TaskEvent::Woken) => TaskState::Idle,
        _ => state,
    }
}


/// State after `n` falling edges have been handled, starting in `state`.
pub open spec fn spec_after_edges(state: TaskState, n: nat) -> TaskState
    decreases n,
{
    if n == 0 {
        state
    } else {
        spec_next_state(spec_after_edges(state, (n - 1) as nat), TaskEvent::FallingEdge)
    }
}

/// A window of `pulses` edges reads 30 RPM per edge: two pulses per
/// revolution over a one-second window.
pub proof fn lemma_reading_is_thirty_per_pulse(pulses: nat)
    ensures
        spec_measured_rpm(pulses) == 30 * pulses,
{
    assert(spec_rpm_scale(WINDOW_MS as nat) == 60);
    assert((pulses * 60) / 2 == 30 * pulses);
}

/// More pulses in a window never give a lower reading.
pub proof fn lemma_reading_monotonic(fewer: nat, more: nat)
    requires
        fewer <= more,
    ensures
        spec_measured_rpm(fewer) <= spec_measured_rpm(more),
{
    lemma_reading_is_thirty_per_pulse(fewer);
    lemma_reading_is_thirty_per_pulse(more);
}

/// `MAX_WINDOW_PULSES` is the largest count whose scaled value fits a `u16`.
pub proof fn lemma_max_window_pulses()
    ensures
        MAX_WINDOW_PULSES * spec_rpm_scale(WINDOW_MS as nat) <= u16::MAX,
        (MAX_WINDOW_PULSES + 1) * spec_rpm_scale(WINDOW_MS as nat) > u16::MAX,
{
    assert(spec_rpm_scale(WINDOW_MS as nat) == 60);
}

/// The task waits for the enable signal exactly when measuring is disabled,
/// and otherwise opens a window with no pulses counted.
pub proof fn lemma_cycle_follows_enable_flag(enabled: bool)
    ensures
        enabled ==> spec_begin_cycle(enabled) == (TaskState::Counting { pulses: 0 }),
        !enabled ==> spec_begin_cycle(enabled) == TaskState::Waiting,
{
}

/// The reading changes only when a counting window closes.
pub proof fn lemma_only_closed_window_publishes(state: TaskState, event: TaskEvent)
    ensures
        spec_published(state, event).is_some() <==> (state is Counting && event
            == TaskEvent::WindowClosed),
{
}

/// A window opened with no pulses that sees `n` falling edges holds `n`
/// pulses, every edge along the way is handled without overflow, and closing
/// it publishes `30 * n` RPM.
pub proof fn lemma_window_publishes_edge_count(n: nat)
    requires
        n <= MAX_WINDOW_PULSES,
    ensures
        forall|k: nat|
            k < n ==> event_allowed(
                #[trigger] spec_after_edges(TaskState::Counting { pulses: 0 }, k),
                TaskEvent::FallingEdge,
            ),
        spec_after_edges(TaskState::Counting { pulses: 0 }, n) == (TaskState::Counting {
            pulses: n as u16,
        }),
        spec_published(spec_after_edges(TaskState::Counting { pulses: 0 }, n), TaskEvent::WindowClosed)
            == Some((30 * n) as u16),
        spec_next_state(spec_after_edges(TaskState::Counting { pulses: 0 }, n), TaskEvent::WindowClosed)
            == TaskState::Idle,
{
    lemma_edges_count_up(n);
    assert forall|k: nat| k < n implies event_allowed(
        #[trigger] spec_after_edges(TaskState::Counting { pulses: 0 }, k),
        TaskEvent::FallingEdge,
    ) by {
        lemma_edges_count_up(k);
    }
    lemma_reading_is_thirty_per_pulse(n);
}

/// From an empty window, `n` edges leave exactly `n` pulses counted.
proof fn lemma_edges_count_up(n: nat)
    requires
        n <= u16::MAX,
    ensures
        spec_after_edges(TaskState::Counting { pulses: 0 }, n) == (TaskState::Counting {
            pulses: n as u16,
        }),
    decreases n,
{
    if n > 0 {
        lemma_edges_count_up((n - 1) as nat);
    }
}

/// `init` always leaves a tachometer in the slot, keeps one that is already
/// there, and a second `init` changes nothing.
pub proof fn lemma_init_idempotent(slot: Option<Tachometer>)
    ensures
        spec_init(slot).is_some(),
        slot.is_some() ==> spec_init(slot) == slot,
        spec_init(spec_init(slot)) == spec_init(slot),
{
}


/// Where the task goes from `state` before it waits for its next event: at
/// the top of the loop it opens a window or waits, according to `enabled`.
pub open spec fn spec_settle(state: TaskState, enabled: bool) -> TaskState {
    match state {
        TaskState::Idle => spec_begin_cycle(enabled),
        _ => state,
    }
}

/// The state of the task after it has handled `events` in order, starting in
/// `state`, while the enabled flag stays `enabled`: at the top of the loop it
/// calls `begin_cycle`, and every event goes to `on_event`.
pub open spec fn spec_run_state(state: TaskState, enabled: bool, events: Seq<TaskEvent>) -> TaskState
    decreases events.len(),
{
    if events.len() == 0 {
        spec_settle(state, enabled)
    } else {
        spec_run_state(
            spec_next_state(spec_settle(state, enabled), events[0]),
            enabled,
            events.drop_first(),
        )
    }
}

/// The readings the task stores, in order, while it handles `events` as in
/// `spec_run_state`.
pub open spec fn spec_run_published(state: TaskState, enabled: bool, events: Seq<TaskEvent>) -> Seq<u16>
    decreases events.len(),
{
    if events.len() == 0 {
        Seq::empty()
    } else {
        let settled = spec_settle(state, enabled);
        let rest = spec_run_published(
            spec_next_state(settled, events[0]),
            enabled,
            events.drop_first(),
        );
        match spec_published(settled, events[0]) {
            Some(rpm) => seq![rpm] + rest,
            None => rest,
        }
    }
}

/// How many of `events` close a counting window.
pub open spec fn spec_count_closes(events: Seq<TaskEvent>) -> nat
    decreases events.len(),
{
    if events.len() == 0 {
        0
    } else {
        (if events[0] == TaskEvent::WindowClosed { 1nat } else { 0nat }) + spec_count_closes(
            events.drop_first(),
        )
    }
}

/// Once measuring is disabled and stays so, the task stores at most one more
/// reading, for the window that was already running, and none after it; a
/// task that was not counting stores none and never starts counting again.
pub proof fn lemma_disabled_task_stores_at_most_running_window(
    state: TaskState,
    events: Seq<TaskEvent>,
)
    ensures
        spec_run_published(state, false, events).len() <= 1,
        !(state is Counting) ==> spec_run_published(state, false, events).len() == 0,
        !(state is Counting) ==> !(spec_run_state(state, false, events) is Counting),
    decreases events.len(),
{
    if events.len() > 0 {
        let settled = spec_settle(state, false);
        lemma_disabled_task_stores_at_most_running_window(
            spec_next_state(settled, events[0]),
            events.drop_first(),
        );
        if settled is Counting && events[0] == TaskEvent::WindowClosed {
            lemma_disabled_task_stores_at_most_running_window(
                TaskState::Idle,
                events.drop_first(),
            );
        }
    }
}

/// While measuring stays enabled, a task that is not blocked waiting stores
/// exactly one reading for each window that closes.
pub proof fn lemma_enabled_task_stores_one_reading_per_window(
    state: TaskState,
    events: Seq<TaskEvent>,
)
    requires
        !(state is Waiting),
    ensures
        spec_run_published(state, true, events).len() == spec_count_closes(events),
        !(spec_run_state(state, true, events) is Waiting),
    decreases events.len(),
{
    if events.len() > 0 {
        let settled = spec_settle(state, true);
        lemma_enabled_task_stores_one_reading_per_window(
            spec_next_state(settled, events[0]),
            events.drop_first(),
        );
    }
}

/// A task blocked waiting for the enable signal, woken with measuring
/// enabled, opens a window with no pulses counted, and from then on stores
/// exactly one reading for each window that closes.
pub proof fn lemma_woken_task_measures_every_window(events: Seq<TaskEvent>)
    ensures
        spec_run_state(TaskState::Waiting, true, seq![TaskEvent::Woken]) == (TaskState::Counting {
            pulses: 0,
        }),
        spec_run_published(TaskState::Waiting, true, seq![TaskEvent::Woken] + events).len()
            == spec_count_closes(events),
{
    let all = seq![TaskEvent::Woken] + events;
    assert(all[0] == TaskEvent::Woken);
    assert(all.drop_first() =~= events);
    let woken = seq![TaskEvent::Woken];
    assert(woken.drop_first() =~= Seq::<TaskEvent>::empty());
    assert(spec_run_state(TaskState::Idle, true, woken.drop_first()) == (TaskState::Counting {
        pulses: 0,
    }));
    lemma_enabled_task_stores_one_reading_per_window(TaskState::Idle, events);
}

} // verus!
