//! Control-plane telemetry: the three-state circuit breaker around the
//! blend shape bus drain, and the subscriber fan-out of JSON snapshots.
//!
//! The breaker trips (`Open`) once frames have been dropping for at least
//! [`CIRCUIT_BREAKER_TRIP_THRESHOLD_MS`], reports `HalfOpen` while drops are
//! more recent than that, and resets to `Closed` after
//! [`CIRCUIT_BREAKER_RESET_THRESHOLD_MS`] of clean ticks.
use vstd::prelude::*;
use tokio::sync::mpsc::{Receiver, Sender};
use crate::channel::{is_pruning_of, open_channel, pruned_by_own_answers, retain_open, try_send};

verus! {

/// Dropped-frame window before the circuit breaker trips.
pub const CIRCUIT_BREAKER_TRIP_THRESHOLD_MS: u64 = 500;

/// Clean-frame window before a tripped breaker resets.
pub const CIRCUIT_BREAKER_RESET_THRESHOLD_MS: u64 = 1_000;

/// Backlog of each telemetry subscriber's channel.
pub const TELEMETRY_CHANNEL_DEPTH: usize = 8;

/// The breaker state reported in every snapshot.
#[derive(Debug, Clone, Copy, PartialEq, Eq, Structural)]
pub enum CircuitBreakerState {
    /// Frames are produced on time.
    Closed,
    /// Frames are dropping, for less than the trip threshold.
    HalfOpen,
    /// Frames have been dropping for longer than the threshold.
    Open,
}

/// The state's stored code: `Closed` 0, `HalfOpen` 1, `Open` 2.
pub open spec fn state_code(s: CircuitBreakerState) -> u64 {
    match s {
        CircuitBreakerState::Closed => 0,
        CircuitBreakerState::HalfOpen => 1,
        CircuitBreakerState::Open => 2,
    }
}

/// The state a stored code denotes; any unknown code reads as `Closed`.
pub open spec fn state_of_code(v: u64) -> CircuitBreakerState {
    if v == 1 {
        CircuitBreakerState::HalfOpen
    } else if v == 2 {
        CircuitBreakerState::Open
    } else {
        CircuitBreakerState::Closed
    }
}

/// Encodes a state as its stored code.
pub fn encode_state(s: CircuitBreakerState) -> (v: u64)
    ensures
        v == state_code(s),
{
    match s {
        CircuitBreakerState::Closed => 0,
        CircuitBreakerState::HalfOpen => 1,
        CircuitBreakerState::Open => 2,
    }
}

/// Decodes a stored code; any unknown code reads as `Closed`.
pub fn decode_state(v: u64) -> (s: CircuitBreakerState)
    ensures
        s == state_of_code(v),
{
    match v {
        1 => CircuitBreakerState::HalfOpen,
        2 => CircuitBreakerState::Open,
        _ => CircuitBreakerState::Closed,
    }
}

/// Decoding undoes encoding.
pub proof fn law_decode_inverts_encode_state(s: CircuitBreakerState)
    ensures
        state_of_code(state_code(s)) == s,
{
}

/// The breaker's bookkeeping: reported state, how long drops and clean
/// ticks have lasted, and whether the breaker has tripped.
pub struct BreakerModel {
    pub state: CircuitBreakerState,
    pub bad_streak_ms: u64,
    pub good_streak_ms: u64,
    pub tripped: bool,
}

/// The breaker of a fresh hub.
pub open spec fn initial_breaker() -> BreakerModel {
    BreakerModel { state: CircuitBreakerState::Closed, bad_streak_ms: 0, good_streak_ms: 0, tripped: false }
}

/// A tick of `interval_ms` cannot overflow the streak it extends.
pub open spec fn tick_fits(b: BreakerModel, frames_dropped: u64, interval_ms: u64) -> bool {
    if frames_dropped > 0 {
        b.bad_streak_ms + interval_ms <= u64::MAX
    } else {
        b.good_streak_ms + interval_ms <= u64::MAX
    }
}

/// The breaker after one telemetry tick of `interval_ms` that saw
/// `frames_dropped` dropped frames.
pub open spec fn breaker_after_tick(b: BreakerModel, frames_dropped: u64, interval_ms: u64) -> BreakerModel {
    if frames_dropped > 0 {
        let bad = (b.bad_streak_ms + interval_ms) as u64;
        if bad >= CIRCUIT_BREAKER_TRIP_THRESHOLD_MS {
            BreakerModel { state: CircuitBreakerState::Open, bad_streak_ms: bad, good_streak_ms: 0, tripped: true }
        } else {
            BreakerModel { state: CircuitBreakerState::HalfOpen, bad_streak_ms: bad, good_streak_ms: 0, tripped: b.tripped }
        }
    } else {
        let good = (b.good_streak_ms + interval_ms) as u64;
        if b.tripped && good >= CIRCUIT_BREAKER_RESET_THRESHOLD_MS {
            BreakerModel { state: CircuitBreakerState::Closed, bad_streak_ms: 0, good_streak_ms: good, tripped: false }
        } else if !b.tripped {
            BreakerModel { state: CircuitBreakerState::Closed, bad_streak_ms: 0, good_streak_ms: good, tripped: false }
        } else {
            BreakerModel { state: b.state, bad_streak_ms: 0, good_streak_ms: good, tripped: true }
        }
    }
}

/// The breaker after `n` identical ticks.
pub open spec fn breaker_after_ticks(b: BreakerModel, n: nat, frames_dropped: u64, interval_ms: u64) -> BreakerModel
    decreases n,
{
    if n == 0 {
        b
    } else {
        breaker_after_ticks(breaker_after_tick(b, frames_dropped, interval_ms), (n - 1) as nat, frames_dropped, interval_ms)
    }
}

/// The breaker's consistency: it reports `Open` only once tripped, and a
/// tripped breaker never reports `Closed`.
pub open spec fn breaker_consistent(b: BreakerModel) -> bool {
    &&& (b.state == CircuitBreakerState::Open ==> b.tripped)
    &&& (b.tripped ==> b.state != CircuitBreakerState::Closed)
}

/// Every tick keeps the breaker consistent.
pub proof fn law_tick_keeps_breaker_consistent(b: BreakerModel, frames_dropped: u64, interval_ms: u64)
    requires
        breaker_consistent(b),
    ensures
        breaker_consistent(breaker_after_tick(b, frames_dropped, interval_ms)),
{
}

/// A clean tick on a breaker that has not tripped reports `Closed`, and a
/// dropping tick that stays under the trip threshold reports `HalfOpen`.
pub proof fn law_untripped_breaker_states(b: BreakerModel, interval_ms: u64, frames_dropped: u64)
    requires
        !b.tripped,
        tick_fits(b, frames_dropped, interval_ms),
    ensures
        frames_dropped == 0 ==> breaker_after_tick(b, frames_dropped, interval_ms).state == CircuitBreakerState::Closed,
        frames_dropped > 0 && b.bad_streak_ms + interval_ms < CIRCUIT_BREAKER_TRIP_THRESHOLD_MS
            ==> breaker_after_tick(b, frames_dropped, interval_ms).state == CircuitBreakerState::HalfOpen,
{
}

/// Streaks count only consecutive ticks of one kind: a tick with drops
/// extends the bad streak by its length and clears the good streak; a clean
/// tick clears the bad streak and extends the good streak.
pub proof fn law_streaks_count_consecutive_ticks(b: BreakerModel, frames_dropped: u64, interval_ms: u64)
    requires
        tick_fits(b, frames_dropped, interval_ms),
    ensures
        frames_dropped > 0 ==> {
            &&& breaker_after_tick(b, frames_dropped, interval_ms).bad_streak_ms == b.bad_streak_ms + interval_ms
            &&& breaker_after_tick(b, frames_dropped, interval_ms).good_streak_ms == 0
        },
        frames_dropped == 0 ==> {
            &&& breaker_after_tick(b, frames_dropped, interval_ms).bad_streak_ms == 0
            &&& breaker_after_tick(b, frames_dropped, interval_ms).good_streak_ms == b.good_streak_ms + interval_ms
        },
{
}

/// What one tick reports. With drops: `Open` exactly when the bad streak
/// reaches the trip threshold (which trips the breaker), `HalfOpen`
/// otherwise. Clean: an untripped breaker is `Closed`; a tripped one resets
/// to `Closed` exactly when its good streak reaches the reset threshold, and
/// otherwise keeps reporting what it did.
pub proof fn law_tick_reports(b: BreakerModel, frames_dropped: u64, interval_ms: u64)
    requires
        tick_fits(b, frames_dropped, interval_ms),
    ensures
        ({
            let r = breaker_after_tick(b, frames_dropped, interval_ms);
            &&& frames_dropped > 0 ==> {
                &&& (r.state == CircuitBreakerState::Open <==> b.bad_streak_ms + interval_ms >= CIRCUIT_BREAKER_TRIP_THRESHOLD_MS)
                &&& (r.state == CircuitBreakerState::Open || r.state == CircuitBreakerState::HalfOpen)
                &&& (r.tripped <==> (b.tripped || b.bad_streak_ms + interval_ms >= CIRCUIT_BREAKER_TRIP_THRESHOLD_MS))
            }
            &&& (frames_dropped == 0 && !b.tripped) ==> r.state == CircuitBreakerState::Closed && !r.tripped
            &&& (frames_dropped == 0 && b.tripped) ==> {
                &&& (r.tripped <==> b.good_streak_ms + interval_ms < CIRCUIT_BREAKER_RESET_THRESHOLD_MS)
                &&& (!r.tripped ==> r.state == CircuitBreakerState::Closed)
                &&& (r.tripped ==> r.state == b.state)
            }
        }),
{
}

/// Intermittent drops do not add up across a clean tick: on a breaker that
/// has not tripped, a clean tick followed by a tick with drops shorter than
/// the trip threshold reports `HalfOpen`, whatever bad streak came before.
pub proof fn law_clean_tick_forgives_earlier_drops(b: BreakerModel, clean_ms: u64, frames_dropped: u64, drop_ms: u64)
    requires
        !b.tripped,
        tick_fits(b, 0, clean_ms),
        frames_dropped > 0,
        drop_ms < CIRCUIT_BREAKER_TRIP_THRESHOLD_MS,
    ensures
        breaker_after_tick(breaker_after_tick(b, 0, clean_ms), frames_dropped, drop_ms).state == CircuitBreakerState::HalfOpen,
        !breaker_after_tick(breaker_after_tick(b, 0, clean_ms), frames_dropped, drop_ms).tripped,
{
    law_streaks_count_consecutive_ticks(b, 0, clean_ms);
    law_tick_reports(b, 0, clean_ms);
    let b1 = breaker_after_tick(b, 0, clean_ms);
    law_tick_reports(b1, frames_dropped, drop_ms);
}

/// Ticks with drops, `n` of them, each `interval_ms` long, on a breaker with
/// no bad streak, accumulate a bad streak of `n * interval_ms`.
proof fn lemma_bad_ticks_accumulate(b: BreakerModel, n: nat, interval_ms: u64)
    requires
        b.bad_streak_ms as int + n * interval_ms <= u64::MAX,
    ensures
        ({
            let r = breaker_after_ticks(b, n, 1, interval_ms);
            &&& r.bad_streak_ms == b.bad_streak_ms + n * interval_ms
            &&& n > 0 ==> r.good_streak_ms == 0
            &&& n > 0 && r.bad_streak_ms >= CIRCUIT_BREAKER_TRIP_THRESHOLD_MS ==> r.state == CircuitBreakerState::Open && r.tripped
        }),
    decreases n,
{
    assert(0 * interval_ms == 0);
    if n > 0 {
        let b1 = breaker_after_tick(b, 1, interval_ms);
        assert(breaker_after_ticks(b, n, 1, interval_ms) == breaker_after_ticks(b1, (n - 1) as nat, 1, interval_ms));
        assert(b.bad_streak_ms + interval_ms <= b.bad_streak_ms + n * interval_ms) by (nonlinear_arith)
            requires n > 0, interval_ms >= 0;
        assert((n - 1) as nat * interval_ms + interval_ms == n * interval_ms) by (nonlinear_arith)
            requires n > 0;
        lemma_bad_ticks_accumulate(b1, (n - 1) as nat, interval_ms);
    }
}

/// Dropping frames for the trip threshold trips the breaker: `n` ticks of
/// `interval_ms` with drops, adding up to at least the threshold, leave it
/// `Open`, whatever state it started in, once its bad streak starts at zero.
pub proof fn law_sustained_drops_trip_breaker(b: BreakerModel, n: nat, interval_ms: u64)
    requires
        b.bad_streak_ms == 0,
        n * interval_ms >= CIRCUIT_BREAKER_TRIP_THRESHOLD_MS,
        n * interval_ms <= u64::MAX,
    ensures
        breaker_after_ticks(b, n, 1, interval_ms).state == CircuitBreakerState::Open,
{
    lemma_bad_ticks_accumulate(b, n, interval_ms);
}

/// Clean ticks, `n` of them, on a tripped breaker with no good streak:
/// while the streak stays under the reset threshold the breaker stays
/// tripped, and its good streak is `n * interval_ms`.
proof fn lemma_good_ticks_accumulate(b: BreakerModel, n: nat, interval_ms: u64)
    requires
        b.tripped,
        b.good_streak_ms < CIRCUIT_BREAKER_RESET_THRESHOLD_MS,
        b.good_streak_ms as int + n * interval_ms <= u64::MAX,
    ensures
        ({
            let r = breaker_after_ticks(b, n, 0, interval_ms);
            r.good_streak_ms == b.good_streak_ms + n * interval_ms && (
                b.good_streak_ms + n * interval_ms >= CIRCUIT_BREAKER_RESET_THRESHOLD_MS
                    ==> r.state == CircuitBreakerState::Closed && !r.tripped)
        }),
    decreases n,
{
    assert(0 * interval_ms == 0);
    if n > 0 {
        let b1 = breaker_after_tick(b, 0, interval_ms);
        assert(breaker_after_ticks(b, n, 0, interval_ms) == breaker_after_ticks(b1, (n - 1) as nat, 0, interval_ms));
        assert(b.good_streak_ms + interval_ms <= b.good_streak_ms + n * interval_ms) by (nonlinear_arith)
            requires n > 0, interval_ms >= 0;
        assert((n - 1) as nat * interval_ms + interval_ms == n * interval_ms) by (nonlinear_arith)
            requires n > 0;
        if b1.tripped {
            lemma_good_ticks_accumulate(b1, (n - 1) as nat, interval_ms);
        } else {
            lemma_clean_ticks_stay_closed(b1, (n - 1) as nat, interval_ms);
        }
    }
}

/// Clean ticks keep an untripped breaker `Closed`, its good streak growing.
proof fn lemma_clean_ticks_stay_closed(b: BreakerModel, n: nat, interval_ms: u64)
    requires
        !b.tripped,
        b.state == CircuitBreakerState::Closed,
        b.good_streak_ms as int + n * interval_ms <= u64::MAX,
    ensures
        ({
            let r = breaker_after_ticks(b, n, 0, interval_ms);
            &&& r.state == CircuitBreakerState::Closed
            &&& !r.tripped
            &&& r.good_streak_ms == b.good_streak_ms + n * interval_ms
        }),
    decreases n,
{
    assert(0 * interval_ms == 0);
    if n > 0 {
        let b1 = breaker_after_tick(b, 0, interval_ms);
        assert(breaker_after_ticks(b, n, 0, interval_ms) == breaker_after_ticks(b1, (n - 1) as nat, 0, interval_ms));
        assert(b.good_streak_ms + interval_ms <= b.good_streak_ms + n * interval_ms) by (nonlinear_arith)
            requires n > 0, interval_ms >= 0;
        assert((n - 1) as nat * interval_ms + interval_ms == n * interval_ms) by (nonlinear_arith)
            requires n > 0;
        lemma_clean_ticks_stay_closed(b1, (n - 1) as nat, interval_ms);
    }
}

/// A tripped breaker resets: clean ticks adding up to the reset threshold,
/// starting with no good streak, leave it `Closed` and untripped.
pub proof fn law_clean_period_resets_breaker(b: BreakerModel, n: nat, interval_ms: u64)
    requires
        b.tripped,
        b.good_streak_ms == 0,
        n * interval_ms >= CIRCUIT_BREAKER_RESET_THRESHOLD_MS,
        n * interval_ms <= u64::MAX,
    ensures
        breaker_after_ticks(b, n, 0, interval_ms).state == CircuitBreakerState::Closed,
        !breaker_after_ticks(b, n, 0, interval_ms).tripped,
{
    lemma_good_ticks_accumulate(b, n, interval_ms);
}

/// The control-plane telemetry hub: the circuit breaker and the set of
/// subscribers that receive each JSON snapshot.
pub struct TelemetryHub {
    subscribers: Vec<Sender<String>>,
    start_us: u64,
    /// The breaker state's stored code.
    breaker: u64,
    bad_streak_ms: u64,
    good_streak_ms: u64,
    tripped: bool,
}

impl TelemetryHub {
    /// The breaker's bookkeeping.
    pub closed spec fn breaker_model(&self) -> BreakerModel {
        BreakerModel {
            state: state_of_code(self.breaker),
            bad_streak_ms: self.bad_streak_ms,
            good_streak_ms: self.good_streak_ms,
            tripped: self.tripped,
        }
    }

    /// The harness epoch, in microseconds.
    pub closed spec fn spec_start_us(&self) -> u64 {
        self.start_us
    }

    /// The registered subscribers, oldest first.
    pub closed spec fn spec_subscribers(&self) -> Seq<Sender<String>> {
        self.subscribers@
    }

    /// The hub's internal invariant: the stored breaker code is a valid one.
    pub closed spec fn wf(&self) -> bool {
        self.breaker <= 2
    }

    /// A hub with no subscribers and a `Closed` breaker. `start_us` is the
    /// harness epoch used for snapshot timestamps.
    pub fn new(start_us: u64) -> (h: Self)
        ensures
            h.wf(),
            h.breaker_model() == initial_breaker(),
            h.spec_start_us() == start_us,
            h.spec_subscribers() == Seq::<Sender<String>>::empty(),
    {
        TelemetryHub {
            subscribers: Vec::new(),
            start_us,
            breaker: 0,
            bad_streak_ms: 0,
            good_streak_ms: 0,
            tripped: false,
        }
    }

    /// Registers a subscriber and returns its receive end, which holds up
    /// to [`TELEMETRY_CHANNEL_DEPTH`] snapshots.
    pub fn subscribe(&mut self) -> (rx: Receiver<String>)
        requires
            old(self).wf(),
        ensures
            final(self).wf(),
            final(self).spec_subscribers().len() == old(self).spec_subscribers().len() + 1,
            final(self).spec_subscribers().drop_last() == old(self).spec_subscribers(),
            final(self).breaker_model() == old(self).breaker_model(),
            final(self).spec_start_us() == old(self).spec_start_us(),
    {
        let (tx, rx) = open_channel(TELEMETRY_CHANNEL_DEPTH);
        self.subscribers.push(tx);
        assert(self.subscribers@.drop_last() =~= old(self).subscribers@);
        rx
    }

    /// Advances the breaker by one tick of `interval_ms` that saw
    /// `frames_dropped_this_tick` dropped frames.
    pub fn tick_circuit_breaker(&mut self, frames_dropped_this_tick: u64, interval_ms: u64)
        requires
            old(self).wf(),
            tick_fits(old(self).breaker_model(), frames_dropped_this_tick, interval_ms),
        ensures
            final(self).wf(),
            final(self).breaker_model() == breaker_after_tick(old(self).breaker_model(), frames_dropped_this_tick, interval_ms),
            final(self).spec_subscribers() == old(self).spec_subscribers(),
            final(self).spec_start_us() == old(self).spec_start_us(),
    {
        if frames_dropped_this_tick > 0 {
            let bad = self.bad_streak_ms + interval_ms;
            self.bad_streak_ms = bad;
            self.good_streak_ms = 0;
            let new_state = if bad >= CIRCUIT_BREAKER_TRIP_THRESHOLD_MS {
                self.tripped = true;
                CircuitBreakerState::Open
            } else {
                CircuitBreakerState::HalfOpen
            };
            self.breaker = encode_state(new_state);
        } else {
            self.bad_streak_ms = 0;
            let good = self.good_streak_ms + interval_ms;
            self.good_streak_ms = good;
            if self.tripped && good >= CIRCUIT_BREAKER_RESET_THRESHOLD_MS {
                self.tripped = false;
                self.breaker = encode_state(CircuitBreakerState::Closed);
            } else if !self.tripped {
                self.breaker = encode_state(CircuitBreakerState::Closed);
            }
        }
    }

    /// Whether one more tick of `interval_ms` with `frames_dropped_this_tick`
    /// dropped frames keeps the streak it extends within `u64`: the
    /// condition [`Self::tick_circuit_breaker`] needs.
    pub fn tick_fits_counters(&self, frames_dropped_this_tick: u64, interval_ms: u64) -> (b: bool)
        ensures
            b == tick_fits(self.breaker_model(), frames_dropped_this_tick, interval_ms),
    {
        if frames_dropped_this_tick > 0 {
            interval_ms <= u64::MAX - self.bad_streak_ms
        } else {
            interval_ms <= u64::MAX - self.good_streak_ms
        }
    }

    /// The current breaker state.
    pub fn circuit_breaker(&self) -> (s: CircuitBreakerState)
        ensures
            s == self.breaker_model().state,
    {
        decode_state(self.breaker)
    }

    /// Snapshot timestamp: microseconds since the harness epoch, or zero
    /// for a clock reading before it.
    pub fn snapshot_t_us(&self, now_us: u64) -> (t: u64)
        ensures
            t == (if now_us >= self.spec_start_us() { now_us - self.spec_start_us() } else { 0 }),
    {
        now_us.saturating_sub(self.start_us)
    }

    /// Sends one snapshot's JSON text to every subscriber, after dropping
    /// the subscribers whose receiving side has gone away. A subscriber
    /// whose channel is full misses this snapshot.
    pub fn publish_json(&mut self, json: String)
        requires
            old(self).wf(),
        ensures
            final(self).wf(),
            is_pruning_of(final(self).spec_subscribers(), old(self).spec_subscribers()),
            pruned_by_own_answers(final(self).spec_subscribers(), old(self).spec_subscribers()),
            final(self).breaker_model() == old(self).breaker_model(),
            final(self).spec_start_us() == old(self).spec_start_us(),
    {
        let mut subs: Vec<Sender<String>> = Vec::new();
        std::mem::swap(&mut subs, &mut self.subscribers);
        let kept = retain_open(subs);
        self.subscribers = kept;
        let mut i: usize = 0;
        while i < self.subscribers.len()
            invariant
                i <= self.subscribers@.len(),
            decreases self.subscribers@.len() - i,
        {
            let _ = try_send(&self.subscribers[i], json.clone());
            i = i + 1;
        }
    }

    /// Number of registered subscribers.
    pub fn subscriber_count(&self) -> (n: usize)
        ensures
            n == self.spec_subscribers().len(),
    {
        self.subscribers.len()
    }
}

} // verus!
