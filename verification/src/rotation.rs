//! Anemometer: counting falling edges and timing them.

use vstd::prelude::*;
use crate::speed::{Ratio, WindSpeed, NANOS_PER_SEC};

verus! {

/// Falling edges that make one measurement.
pub const TARGET_COUNT: u8 = 2;

/// Seconds to wait for an edge before the anemometer counts as stalled.
pub const EDGE_TIMEOUT_SECS: u64 = 10;

/// What a bounded wait on the input line came back with.
#[derive(Clone, Copy, Debug, PartialEq, Eq, Structural)]
pub enum EdgeEvent {
    /// No edge within the timeout.
    Timeout,
    /// The line went from low to high.
    Rising,
    /// The line went from high to low: half a rotation.
    Falling,
}

/// Level of a digital line.
#[derive(Clone, Copy, Debug, PartialEq, Eq, Structural)]
pub enum Level {
    Low,
    High,
}

/// A wait on the input line failed.
#[derive(Clone, Copy, Debug, PartialEq, Eq, Structural)]
pub struct PollFailed;

/// The event that a bounded wait on the input line stands for: no level
/// within the timeout is a timeout, a high level is a rising edge, a low
/// level is a falling edge. A failed wait counts as a falling edge.
pub open spec fn event_of(polled: Result<Option<Level>, PollFailed>) -> EdgeEvent {
    match polled {
        Ok(None) => EdgeEvent::Timeout,
        Ok(Some(Level::High)) => EdgeEvent::Rising,
        Ok(Some(Level::Low)) => EdgeEvent::Falling,
        Err(_) => EdgeEvent::Falling,
    }
}

/// Reads what a bounded wait on the input line came back with as an
/// edge event.
pub fn edge_of(polled: Result<Option<Level>, PollFailed>) -> (event: EdgeEvent)
    ensures
        event == event_of(polled),
        event == EdgeEvent::Timeout <==> polled == Ok::<Option<Level>, PollFailed>(None),
        event == EdgeEvent::Rising <==> polled == Ok::<Option<Level>, PollFailed>(
            Some(Level::High),
        ),
{
    match polled {
        Ok(None) => EdgeEvent::Timeout,
        Ok(Some(Level::High)) => EdgeEvent::Rising,
        Ok(Some(Level::Low)) => EdgeEvent::Falling,
        Err(_) => EdgeEvent::Falling,
    }
}

/// An edge event with the time at which it was noticed, in nanoseconds
/// of a monotonic clock.
#[derive(Clone, Copy, Debug, PartialEq, Eq, Structural)]
pub struct Timed {
    pub event: EdgeEvent,
    pub at: u64,
}

/// Time from `reference` to `now`; zero if the clock read earlier.
pub open spec fn elapsed(reference: u64, now: u64) -> u64 {
    if now >= reference {
        (now - reference) as u64
    } else {
        0
    }
}

/// State of the edge counting between two events: falling edges seen
/// since the last restart, and the time of that restart.
#[derive(Clone, Copy, Debug, PartialEq, Eq, Structural)]
pub struct EdgeCounter {
    pub count: u8,
    pub reference: u64,
}

impl EdgeCounter {
    /// Fewer edges are pending than make a measurement.
    pub open spec fn wf(self) -> bool {
        self.count < TARGET_COUNT
    }

    /// Whether a falling edge now completes a measurement.
    pub open spec fn completes(self) -> bool {
        self.count >= TARGET_COUNT - 1
    }

    /// The state after `event` at time `now`.
    pub open spec fn next(self, event: EdgeEvent, now: u64) -> EdgeCounter {
        match event {
            EdgeEvent::Timeout => EdgeCounter { count: 0, reference: now },
            EdgeEvent::Rising => self,
            EdgeEvent::Falling => if self.completes() {
                EdgeCounter { count: 0, reference: now }
            } else {
                EdgeCounter { count: (self.count + 1) as u8, reference: self.reference }
            },
        }
    }

    /// The speed that `event` at time `now` publishes, if it publishes one.
    pub open spec fn output(self, event: EdgeEvent, now: u64) -> Option<WindSpeed> {
        match event {
            EdgeEvent::Timeout => Some(WindSpeed { half_turns: 0, span_nanos: NANOS_PER_SEC }),
            EdgeEvent::Rising => None,
            EdgeEvent::Falling => if self.completes() {
                Some(WindSpeed { half_turns: TARGET_COUNT, span_nanos: elapsed(self.reference, now) })
            } else {
                None
            },
        }
    }

    /// The state after a sequence of events, oldest first.
    pub open spec fn run(self, events: Seq<Timed>) -> EdgeCounter
        decreases events.len(),
    {
        if events.len() == 0 {
            self
        } else {
            self.run(events.drop_last()).next(events.last().event, events.last().at)
        }
    }

    /// The published speed after a sequence of events, where `initial`
    /// was published before them.
    pub open spec fn latest(self, initial: WindSpeed, events: Seq<Timed>) -> WindSpeed
        decreases events.len(),
    {
        if events.len() == 0 {
            initial
        } else {
            match self.run(events.drop_last()).output(events.last().event, events.last().at) {
                Some(speed) => speed,
                None => self.latest(initial, events.drop_last()),
            }
        }
    }

    /// How many measurements a sequence of events publishes, timeouts
    /// not counted.
    pub open spec fn measurements(self, events: Seq<Timed>) -> nat
        decreases events.len(),
    {
        if events.len() == 0 {
            0
        } else {
            let before = self.run(events.drop_last());
            self.measurements(events.drop_last()) + if events.last().event == EdgeEvent::Falling
                && before.completes() {
                1nat
            } else {
                0nat
            }
        }
    }

    /// A counter restarted at time `now`.
    pub fn new(now: u64) -> (counter: EdgeCounter)
        ensures
            counter == (EdgeCounter { count: 0, reference: now }),
            counter.wf(),
    {
        EdgeCounter { count: 0, reference: now }
    }

    /// Takes one event, noticed at time `now`, and returns the speed to
    /// publish, if any.
    ///
    /// A timeout publishes standstill and restarts the counting. A rising
    /// edge is ignored. A falling edge is counted; the one that reaches
    /// `TARGET_COUNT` publishes that many half turns over the time since
    /// the last restart, and restarts the counting.
    pub fn on_event(&mut self, event: EdgeEvent, now: u64) -> (published: Option<WindSpeed>)
        ensures
            *final(self) == old(self).next(event, now),
            published == old(self).output(event, now),
            old(self).wf() || event != EdgeEvent::Rising ==> final(self).wf(),
            event == EdgeEvent::Rising ==> *final(self) == *old(self) && published is None,
            event == EdgeEvent::Timeout ==> published == Some(
                WindSpeed { half_turns: 0, span_nanos: NANOS_PER_SEC },
            ) && final(self).count == 0 && final(self).reference == now,
    {
        match event {
            EdgeEvent::Timeout => {
                self.count = 0;
                self.reference = now;
                Some(WindSpeed::zero())
            },
            EdgeEvent::Rising => None,
            EdgeEvent::Falling => {
                if self.count >= TARGET_COUNT - 1 {
                    let span: u64 = if now >= self.reference {
                        now - self.reference
                    } else {
                        0
                    };
                    self.count = 0;
                    self.reference = now;
                    Some(WindSpeed::new(TARGET_COUNT, span))
                } else {
                    self.count = self.count + 1;
                    None
                }
            },
        }
    }
}

/// The shared state was left behind by a writer that failed.
#[derive(Clone, Copy, Debug, PartialEq, Eq, Structural)]
pub struct LockPoisoned;

/// The latest published speed, shared between the thread that times the
/// edges and its readers; `poisoned` once the writer has failed.
#[derive(Clone, Copy, Debug, PartialEq, Eq, Structural)]
pub struct AnemometerData {
    pub speed: WindSpeed,
    pub poisoned: bool,
}

impl AnemometerData {
    /// Standstill, not poisoned.
    pub fn new() -> (data: AnemometerData)
        ensures
            data == (AnemometerData {
                speed: WindSpeed { half_turns: 0, span_nanos: NANOS_PER_SEC },
                poisoned: false,
            }),
            data.speed.still(),
    {
        AnemometerData { speed: WindSpeed::zero(), poisoned: false }
    }

    /// Publishes a speed.
    pub fn publish(&mut self, speed: WindSpeed)
        ensures
            final(self).speed == speed,
            final(self).poisoned == old(self).poisoned,
    {
        self.speed = speed;
    }

    /// Marks the state as left behind by a failed writer, for good.
    pub fn poison(&mut self)
        ensures
            final(self).poisoned,
            final(self).speed == old(self).speed,
    {
        self.poisoned = true;
    }

    /// The latest published speed; `LockPoisoned` exactly when the
    /// writer has failed, never a stale value in its place.
    pub fn get_speed(&self) -> (result: Result<WindSpeed, LockPoisoned>)
        ensures
            self.poisoned ==> result == Err::<WindSpeed, LockPoisoned>(LockPoisoned),
            !self.poisoned ==> result == Ok::<WindSpeed, LockPoisoned>(self.speed),
    {
        if self.poisoned {
            Err(LockPoisoned)
        } else {
            Ok(self.speed)
        }
    }
}

/// The rotation timer: whether its thread was started, the edge counter
/// that the thread keeps, and the speed it has published.
#[derive(Clone, Copy, Debug, PartialEq, Eq, Structural)]
pub struct Anemometer {
    pub started: bool,
    pub counter: EdgeCounter,
    pub data: AnemometerData,
}

impl Anemometer {
    /// A timer that was not started, at standstill, its counter
    /// restarted at time `now`.
    pub fn new(now: u64) -> (timer: Anemometer)
        ensures
            timer == (Anemometer {
                started: false,
                counter: EdgeCounter { count: 0, reference: now },
                data: AnemometerData {
                    speed: WindSpeed { half_turns: 0, span_nanos: NANOS_PER_SEC },
                    poisoned: false,
                },
            }),
            timer.data.speed.still(),
    {
        Anemometer { started: false, counter: EdgeCounter::new(now), data: AnemometerData::new() }
    }

    /// Records the start of the timing thread, with the counter
    /// restarted at time `now`. Returns `true` if the caller is to spawn
    /// the thread now: exactly when it was not started before. A second
    /// call changes nothing.
    pub fn start_thread(&mut self, now: u64) -> (spawn: bool)
        ensures
            spawn == !old(self).started,
            final(self).started,
            final(self).data == old(self).data,
            spawn ==> final(self).counter == (EdgeCounter { count: 0, reference: now }),
            !spawn ==> *final(self) == *old(self),
    {
        if self.started {
            false
        } else {
            self.started = true;
            self.counter = EdgeCounter::new(now);
            true
        }
    }

    /// One turn of the timing thread's loop: takes the event that the
    /// wait came back with at time `now`, and publishes what the edge
    /// counter gives out, if anything. A poisoned timer takes no events.
    pub fn on_event(&mut self, event: EdgeEvent, now: u64)
        ensures
            final(self).started == old(self).started,
            final(self).data.poisoned == old(self).data.poisoned,
            old(self).data.poisoned ==> *final(self) == *old(self),
            !old(self).data.poisoned ==> final(self).counter == old(self).counter.next(event, now)
                && final(self).data.speed == (match old(self).counter.output(event, now) {
                Some(speed) => speed,
                None => old(self).data.speed,
            }),
    {
        if !self.data.poisoned {
            match self.counter.on_event(event, now) {
                Some(speed) => {
                    self.data.publish(speed);
                },
                None => {},
            }
        }
    }

    /// The latest published speed, or `LockPoisoned` if the timing
    /// thread has failed.
    pub fn get_speed(&self) -> (result: Result<WindSpeed, LockPoisoned>)
        ensures
            self.data.poisoned ==> result == Err::<WindSpeed, LockPoisoned>(LockPoisoned),
            !self.data.poisoned ==> result == Ok::<WindSpeed, LockPoisoned>(self.data.speed),
    {
        self.data.get_speed()
    }
}

/// Whether every event of the sequence is a rising edge.
pub open spec fn all_rising(events: Seq<Timed>) -> bool {
    forall|i: int| 0 <= i < events.len() ==> (#[trigger] events[i]).event == EdgeEvent::Rising
}

/// Whether no event of the sequence is a timeout.
pub open spec fn no_timeout(events: Seq<Timed>) -> bool {
    forall|i: int| 0 <= i < events.len() ==> (#[trigger] events[i]).event != EdgeEvent::Timeout
}

/// Number of falling edges in the sequence.
pub open spec fn falling_edges(events: Seq<Timed>) -> nat
    decreases events.len(),
{
    if events.len() == 0 {
        0
    } else {
        falling_edges(events.drop_last()) + if events.last().event == EdgeEvent::Falling {
            1nat
        } else {
            0nat
        }
    }
}

/// A rising edge changes neither the counter nor the reference time, and
/// publishes nothing.
pub proof fn rising_edge_is_ignored(counter: EdgeCounter, now: u64)
    ensures
        counter.next(EdgeEvent::Rising, now) == counter,
        counter.output(EdgeEvent::Rising, now) is None,
{
}

/// Rising edges appended to any sequence of events change neither the
/// state nor the published speed.
pub proof fn rising_edges_are_ignored(
    counter: EdgeCounter,
    initial: WindSpeed,
    events: Seq<Timed>,
    rising: Seq<Timed>,
)
    requires
        all_rising(rising),
    ensures
        counter.run(events + rising) == counter.run(events),
        counter.latest(initial, events + rising) == counter.latest(initial, events),
    decreases rising.len(),
{
    if rising.len() == 0 {
        assert(events + rising =~= events);
    } else {
        let shorter = rising.drop_last();
        assert((events + rising).drop_last() =~= events + shorter);
        assert((events + rising).last() == rising.last());
        assert(rising[rising.len() - 1].event == EdgeEvent::Rising);
        rising_edges_are_ignored(counter, initial, events, shorter);
    }
}

/// While fewer falling edges than `TARGET_COUNT` arrive after a restart,
/// and no timeout, nothing is published; the timeout that ends such a
/// window publishes exactly the zero speed (no half turn in one second)
/// and restarts the counting.
pub proof fn quiet_window_publishes_zero(
    counter: EdgeCounter,
    initial: WindSpeed,
    events: Seq<Timed>,
    now: u64,
)
    requires
        counter.count == 0,
        no_timeout(events),
        falling_edges(events) < TARGET_COUNT,
    ensures
        counter.run(events).count == falling_edges(events),
        counter.run(events).reference == counter.reference,
        counter.latest(initial, events) == initial,
        counter.latest(initial, events.push(Timed { event: EdgeEvent::Timeout, at: now })) == (
        WindSpeed { half_turns: 0, span_nanos: NANOS_PER_SEC }),
        counter.run(events.push(Timed { event: EdgeEvent::Timeout, at: now })) == (EdgeCounter {
            count: 0,
            reference: now,
        }),
    decreases events.len(),
{
    let ended = events.push(Timed { event: EdgeEvent::Timeout, at: now });
    assert(ended.drop_last() =~= events);
    assert(ended.last() == (Timed { event: EdgeEvent::Timeout, at: now }));
    if events.len() > 0 {
        let shorter = events.drop_last();
        assert(events[events.len() - 1].event != EdgeEvent::Timeout);
        assert(no_timeout(shorter)) by {
            assert forall|i: int| 0 <= i < shorter.len() implies (#[trigger] shorter[i]).event
                != EdgeEvent::Timeout by {
                assert(shorter[i] == events[i]);
            }
        }
        quiet_window_publishes_zero(counter, initial, shorter, now);
    }
}

/// Any timeout publishes exactly the zero speed (no half turn in one
/// second), whatever came before it.
pub proof fn timeout_publishes_zero(counter: EdgeCounter, initial: WindSpeed, events: Seq<Timed>)
    requires
        events.len() > 0,
        events.last().event == EdgeEvent::Timeout,
    ensures
        counter.latest(initial, events) == (WindSpeed { half_turns: 0, span_nanos: NANOS_PER_SEC }),
        counter.latest(initial, events).still(),
        counter.run(events).count == 0,
        counter.run(events).reference == events.last().at,
{
}

/// After a restart at `counter.reference`, two falling edges, the second
/// one at time `second`, publish one rotation (two half turns) over the
/// time from the restart to `second`: in rotations per second, one
/// divided by that time in seconds. Rising edges before, between or
/// after them change nothing of it, and nothing is published before the
/// second falling edge.
pub proof fn two_edges_publish_one_turn(
    counter: EdgeCounter,
    initial: WindSpeed,
    before: Seq<Timed>,
    first: u64,
    between: Seq<Timed>,
    second: u64,
    after: Seq<Timed>,
)
    requires
        counter.count == 0,
        all_rising(before),
        all_rising(between),
        all_rising(after),
    ensures
        ({
            let events = before.push(Timed { event: EdgeEvent::Falling, at: first }) + between;
            let all = events.push(Timed { event: EdgeEvent::Falling, at: second }) + after;
            &&& counter.latest(initial, events) == initial
            &&& counter.latest(initial, all) == (WindSpeed {
                half_turns: 2,
                span_nanos: elapsed(counter.reference, second),
            })
            &&& counter.latest(initial, all).rounds().same_value(
                Ratio { num: NANOS_PER_SEC as u128, den: elapsed(counter.reference, second) as u128 },
            )
            &&& counter.run(all) == (EdgeCounter { count: 0, reference: second })
        }),
{
    let one = before.push(Timed { event: EdgeEvent::Falling, at: first });
    let events = one + between;
    let two = events.push(Timed { event: EdgeEvent::Falling, at: second });
    let all = two + after;
    let none = Seq::<Timed>::empty();
    rising_edges_are_ignored(counter, initial, none, before);
    assert(none + before =~= before);
    assert(counter.run(none) == counter);
    assert(counter.latest(initial, none) == initial);
    assert(one.drop_last() =~= before);
    assert(one.last() == (Timed { event: EdgeEvent::Falling, at: first }));
    assert(counter.run(one) == (EdgeCounter { count: 1, reference: counter.reference }));
    assert(counter.latest(initial, one) == initial);
    rising_edges_are_ignored(counter, initial, one, between);
    assert(two.drop_last() =~= events);
    assert(two.last() == (Timed { event: EdgeEvent::Falling, at: second }));
    assert(counter.run(two) == (EdgeCounter { count: 0, reference: second }));
    rising_edges_are_ignored(counter, initial, two, after);
    let span = elapsed(counter.reference, second);
    assert((2 * NANOS_PER_SEC) * span == NANOS_PER_SEC * (2 * span)) by (nonlinear_arith);
}

/// Where the counting was restarted at the very time of the first of
/// two falling edges, the pair publishes one rotation over the time
/// between the two edges: in rotations per second, one divided by that
/// time in seconds.
pub proof fn edges_from_restart_publish_one_per_span(counter: EdgeCounter, first: u64, second: u64)
    requires
        counter.count == 0,
        counter.reference == first,
        first <= second,
    ensures
        ({
            let counted = counter.next(EdgeEvent::Falling, first);
            let speed = WindSpeed { half_turns: 2, span_nanos: (second - first) as u64 };
            &&& counter.output(EdgeEvent::Falling, first) is None
            &&& counted.output(EdgeEvent::Falling, second) == Some(speed)
            &&& speed.rounds().same_value(
                Ratio { num: NANOS_PER_SEC as u128, den: (second - first) as u128 },
            )
        }),
{
    let span = (second - first) as u64;
    assert((2 * NANOS_PER_SEC) * span == NANOS_PER_SEC * (2 * span)) by (nonlinear_arith);
}

/// Without a timeout, every second falling edge after a restart
/// publishes a measurement: the measurements are half the falling
/// edges, rounded down, and the edge left over, if any, stays counted.
pub proof fn every_second_edge_publishes(counter: EdgeCounter, events: Seq<Timed>)
    requires
        counter.count == 0,
        no_timeout(events),
    ensures
        counter.measurements(events) == falling_edges(events) / 2,
        counter.run(events).count == falling_edges(events) % 2,
    decreases events.len(),
{
    if events.len() > 0 {
        let shorter = events.drop_last();
        assert(events[events.len() - 1].event != EdgeEvent::Timeout);
        assert(no_timeout(shorter)) by {
            assert forall|i: int| 0 <= i < shorter.len() implies (#[trigger] shorter[i]).event
                != EdgeEvent::Timeout by {
                assert(shorter[i] == events[i]);
            }
        }
        every_second_edge_publishes(counter, shorter);
    }
}

} // verus!
