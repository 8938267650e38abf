//! The debounced trigger: a latch that records that a change was seen, and a
//! clock comparison that lets the action fire at most once per window.
//!
//! Time is a count of nanoseconds on a monotonic clock whose origin the caller
//! chooses. The trigger never reads a clock itself.

use vstd::prelude::*;

verus! {

/// The debounce window, in nanoseconds: one second.
pub const DEBOUNCE_WINDOW_NANOS: u64 = 1_000_000_000;

/// The trigger as a mathematical value.
pub struct TriggerModel {
    /// Whether a relevant change has been seen since the trigger was created.
    pub pending: bool,
    /// The time of the last firing. Before the first firing it lies one
    /// window before the trigger's creation.
    pub last_fire: int,
}

impl TriggerModel {
    /// The trigger as created at time `now`: nothing pending, and the last
    /// firing placed one window in the past.
    pub open spec fn initial(now: int) -> TriggerModel {
        TriggerModel { pending: false, last_fire: now - DEBOUNCE_WINDOW_NANOS }
    }

    /// The trigger after a relevant change: the latch is set, and stays set.
    pub open spec fn after_change(self) -> TriggerModel {
        TriggerModel { pending: true, last_fire: self.last_fire }
    }

    /// Whether the action is due at time `now`: a change is pending and a
    /// full window has passed since the last firing.
    pub open spec fn due(self, now: int) -> bool {
        self.pending && now - self.last_fire >= DEBOUNCE_WINDOW_NANOS
    }

    /// The trigger after its firing condition was evaluated at time `now`:
    /// firing advances the time of the last firing and leaves the latch set.
    pub open spec fn after_poll(self, now: int) -> TriggerModel {
        if self.due(now) {
            TriggerModel { pending: self.pending, last_fire: now }
        } else {
            self
        }
    }

    /// The trigger as the firing condition of an event finds it: a relevant
    /// event has set the latch, any other has changed nothing.
    pub open spec fn noted(self, relevant: bool) -> TriggerModel {
        if relevant {
            self.after_change()
        } else {
            self
        }
    }

    /// Whether an event at time `now` fires the action.
    pub open spec fn fires_on(self, relevant: bool, now: int) -> bool {
        self.noted(relevant).due(now)
    }

    /// The trigger after an event at time `now`.
    pub open spec fn after_event(self, relevant: bool, now: int) -> TriggerModel {
        self.noted(relevant).after_poll(now)
    }
}

/// The state of the debounced trigger.
pub struct TriggerState {
    has_pending_change: bool,
    last_fire_time: i128,
}

impl View for TriggerState {
    type V = TriggerModel;

    closed spec fn view(&self) -> TriggerModel {
        TriggerModel { pending: self.has_pending_change, last_fire: self.last_fire_time as int }
    }
}

impl TriggerState {
    /// The time of the last firing is a clock reading, or lies at most one
    /// window before one.
    #[verifier::type_invariant]
    spec fn in_range(self) -> bool {
        -(DEBOUNCE_WINDOW_NANOS as int) <= self.last_fire_time <= u64::MAX
    }

    /// A trigger created at time `now`. The first relevant event fires it,
    /// however soon it comes.
    pub fn new(now: u64) -> (state: TriggerState)
        ensures
            state@ == TriggerModel::initial(now as int),
    {
        TriggerState {
            has_pending_change: false,
            last_fire_time: now as i128 - DEBOUNCE_WINDOW_NANOS as i128,
        }
    }

    /// Whether a relevant change has been seen.
    pub fn has_pending_change(&self) -> (pending: bool)
        ensures
            pending == self@.pending,
    {
        self.has_pending_change
    }

    /// The time of the last firing.
    pub fn last_fire_time(&self) -> (time: i128)
        ensures
            time == self@.last_fire,
    {
        self.last_fire_time
    }

    /// Records a relevant change. Returns whether it is the first one.
    pub fn record_change(&mut self) -> (first: bool)
        ensures
            final(self)@ == old(self)@.after_change(),
            first == !old(self)@.pending,
    {
        proof {
            use_type_invariant(&*self);
        }
        let first = !self.has_pending_change;
        self.has_pending_change = true;
        first
    }

    /// Whether the action is due at time `now`.
    pub fn is_due(&self, now: u64) -> (due: bool)
        ensures
            due == self@.due(now as int),
    {
        proof {
            use_type_invariant(self);
        }
        self.has_pending_change && now as i128 - self.last_fire_time
            >= DEBOUNCE_WINDOW_NANOS as i128
    }

    /// Evaluates the firing condition at time `now`. Returns whether the
    /// action is to be invoked; if so, `now` becomes the time of the last
    /// firing.
    pub fn fire_if_due(&mut self, now: u64) -> (fired: bool)
        ensures
            fired == old(self)@.due(now as int),
            final(self)@ == old(self)@.after_poll(now as int),
    {
        let fired = self.is_due(now);
        if fired {
            self.last_fire_time = now as i128;
        }
        fired
    }

    /// Handles one event at time `now`: a relevant event sets the latch, and
    /// once the latch is set every event evaluates the firing condition.
    /// Returns whether the action is to be invoked.
    pub fn on_event(&mut self, relevant: bool, now: u64) -> (fired: bool)
        ensures
            fired == old(self)@.fires_on(relevant, now as int),
            final(self)@ == old(self)@.after_event(relevant, now as int),
    {
        if relevant {
            self.record_change();
        }
        self.fire_if_due(now)
    }
}

/// The trigger after the first `count` events of a run of relevant events
/// that arrive at the times `times`.
pub open spec fn state_after(start: TriggerModel, times: Seq<int>, count: int) -> TriggerModel
    decreases count,
{
    if count <= 0 {
        start
    } else {
        state_after(start, times, count - 1).after_event(true, times[count - 1])
    }
}

/// Whether the event at position `index` of such a run fires the action.
pub open spec fn fires_at(start: TriggerModel, times: Seq<int>, index: int) -> bool {
    state_after(start, times, index).fires_on(true, times[index])
}

/// The position of the last event before position `index` that fired, or
/// `-1` if none did.
pub open spec fn last_fire_before(start: TriggerModel, times: Seq<int>, index: int) -> int
    decreases index,
{
    if index <= 0 {
        -1
    } else if fires_at(start, times, index - 1) {
        index - 1
    } else {
        last_fire_before(start, times, index - 1)
    }
}

/// Whether `times` never runs backwards.
pub open spec fn non_decreasing(times: Seq<int>) -> bool {
    forall|a: int, b: int| 0 <= a <= b < times.len() ==> times[a] <= times[b]
}

proof fn lemma_state_after_first(created: int, times: Seq<int>, count: int)
    requires
        1 <= count <= times.len(),
        created <= times[0],
    ensures
        ({
            let start = TriggerModel::initial(created);
            let last = last_fire_before(start, times, count);
            &&& 0 <= last < count
            &&& fires_at(start, times, last)
            &&& forall|k: int| last < k < count ==> !fires_at(start, times, k)
            &&& state_after(start, times, count) == TriggerModel {
                pending: true,
                last_fire: times[last],
            }
        }),
    decreases count,
{
    let start = TriggerModel::initial(created);
    if count == 1 {
        assert(state_after(start, times, 0) == start);
        assert(fires_at(start, times, 0));
        assert(last_fire_before(start, times, 1) == 0);
    } else {
        lemma_state_after_first(created, times, count - 1);
    }
}

/// The debounce schedule. Let a trigger be created at time `created` and let
/// relevant events arrive at the times `times`, the first of them not before
/// the creation. Then the first event fires, and every later event fires if
/// and only if at least one window has passed since the last event that
/// fired before it.
pub proof fn lemma_debounce_schedule(created: int, times: Seq<int>, index: int)
    requires
        0 <= index < times.len(),
        created <= times[0],
    ensures
        ({
            let start = TriggerModel::initial(created);
            let last = last_fire_before(start, times, index);
            &&& index == 0 ==> fires_at(start, times, 0)
            &&& index > 0 ==> {
                &&& 0 <= last < index
                &&& fires_at(start, times, last)
                &&& forall|k: int| last < k < index ==> !fires_at(start, times, k)
                &&& fires_at(start, times, index) <==> times[index] - times[last]
                    >= DEBOUNCE_WINDOW_NANOS
            }
        }),
{
    let start = TriggerModel::initial(created);
    if index == 0 {
        assert(state_after(start, times, 0) == start);
    } else {
        lemma_state_after_first(created, times, index);
    }
}

/// The rate limit. In a run of relevant events whose times never run
/// backwards, any two events that fire lie at least one window apart.
pub proof fn lemma_fires_a_window_apart(created: int, times: Seq<int>, earlier: int, later: int)
    requires
        0 <= earlier < later < times.len(),
        created <= times[0],
        non_decreasing(times),
        fires_at(TriggerModel::initial(created), times, earlier),
        fires_at(TriggerModel::initial(created), times, later),
    ensures
        times[later] - times[earlier] >= DEBOUNCE_WINDOW_NANOS,
{
    lemma_debounce_schedule(created, times, later);
}

} // verus!
