//! Reconnect policy: exponential backoff between attempts.

use crate::duration::{
    duration_as_nanos, duration_from_millis, duration_from_secs, duration_min, duration_total_nanos,
    duration_saturating_mul, max_duration_nanos, nanos_per_sec, saturating_scaled_nanos,
};
use std::time::Duration;
use vstd::arithmetic::mul::{lemma_mul_inequality, lemma_mul_is_commutative};
use vstd::arithmetic::power2::{
    lemma2_to64, lemma_pow2_pos, lemma_pow2_strictly_increases, lemma_pow2_unfold, pow2,
};
use vstd::prelude::*;

verus! {

/// The exponent of the backoff growth for a reconnect attempt: attempts `0` and
/// `1` wait the minimum delay, each later attempt doubles it, up to `2^10`.
pub open spec fn backoff_exponent(attempt: u32) -> nat {
    if attempt <= 1 {
        0
    } else if attempt - 1 > 10 {
        10
    } else {
        (attempt - 1) as nat
    }
}

/// Length in nanoseconds of the delay before reconnect attempt `attempt`:
/// `min_delay * 2^backoff_exponent(attempt)`, saturated at the largest duration,
/// and capped at `max_delay`.
pub open spec fn backoff_nanos(min_delay: int, max_delay: int, attempt: u32) -> int {
    let grown = saturating_scaled_nanos(min_delay, pow2(backoff_exponent(attempt)) as int);
    if max_delay < grown {
        max_delay
    } else {
        grown
    }
}

/// The same delay over unbounded integers: `min_delay * 2^backoff_exponent(attempt)`,
/// capped at `max_delay`. It equals `backoff_nanos` for every pair of lengths
/// a `Duration` can hold.
pub open spec fn plain_backoff_nanos(min_delay: int, max_delay: int, attempt: u32) -> int {
    let grown = min_delay * pow2(backoff_exponent(attempt));
    if max_delay < grown {
        max_delay
    } else {
        grown
    }
}

/// Exponential reconnect backoff.
#[derive(Debug, Clone, Copy, PartialEq, Eq)]
pub struct ReconnectConfig {
    pub enabled: bool,
    pub min_delay: Duration,
    pub max_delay: Duration,
    /// Maximum reconnect attempts after a disconnect or failed connection.
    /// `None` retries forever.
    pub max_attempts: Option<u32>,
}

impl ReconnectConfig {
    /// The default policy: reconnect forever, with backoff growing from 100 ms to 5 s.
    pub open spec fn has_default_settings(&self) -> bool {
        &&& self.enabled
        &&& duration_as_nanos(self.min_delay) == 100 * 1_000_000
        &&& duration_as_nanos(self.max_delay) == 5 * nanos_per_sec()
        &&& self.max_attempts is None
    }

    /// Length in nanoseconds of the delay that `delay_for_attempt(attempt)` returns.
    pub open spec fn delay_nanos(&self, attempt: u32) -> int {
        backoff_nanos(
            duration_as_nanos(self.min_delay) as int,
            duration_as_nanos(self.max_delay) as int,
            attempt,
        )
    }

    /// The delay to wait before reconnect attempt `attempt` (counted from 1).
    pub fn delay_for_attempt(&self, attempt: u32) -> (delay: Duration)
        ensures
            duration_as_nanos(delay) == self.delay_nanos(attempt),
            duration_as_nanos(delay) == plain_backoff_nanos(
                duration_as_nanos(self.min_delay) as int,
                duration_as_nanos(self.max_delay) as int,
                attempt,
            ),
    {
        // Both lengths are at most `Duration::MAX`, so the saturation of the
        // product is hidden by the cap.
        let _min_nanos: u128 = duration_total_nanos(&self.min_delay);
        let _max_nanos: u128 = duration_total_nanos(&self.max_delay);
        let previous: u32 = attempt.saturating_sub(1);
        let shift: u32 = if previous < 10 { previous } else { 10 };
        proof {
            vstd::bits::lemma_u32_pow2_no_overflow(shift as nat);
            vstd::bits::lemma_u32_shl_is_mul(1, shift);
        }
        let multiplier: u32 = 1u32 << shift;
        let grown = duration_saturating_mul(self.min_delay, multiplier);
        duration_min(grown, self.max_delay)
    }
}


impl Default for ReconnectConfig {
    fn default() -> (r: ReconnectConfig)
        ensures
            r.has_default_settings(),
    {
        ReconnectConfig {
            enabled: true,
            min_delay: duration_from_millis(100),
            max_delay: duration_from_secs(5),
            max_attempts: None,
        }
    }
}

/// What the connection reported to the reconnecting stream.
#[derive(Debug, Clone, Copy, PartialEq, Eq, Structural)]
pub enum StreamEvent {
    /// A subscribe call opened a stream.
    Subscribed,
    /// A subscribe call failed with an error.
    SubscribeFailed,
    /// The open stream delivered an item.
    Received,
    /// The open stream ended without an error.
    Ended,
    /// The open stream failed with a status.
    StreamFailed,
}

impl StreamEvent {
    /// The events after which the stream is no longer open.
    pub open spec fn is_disconnect(self) -> bool {
        self is SubscribeFailed || self is Ended || self is StreamFailed
    }
}

/// What the reconnecting stream does next.
#[derive(Debug, Clone, Copy, PartialEq, Eq)]
pub enum ReconnectAction {
    /// Read the next message of the open stream.
    ReadNext,
    /// Hand the received item to the consumer, then read the next message.
    Deliver,
    /// Hand the error that came with the event to the consumer, then end.
    Fail,
    /// End without handing anything more to the consumer.
    Stop,
    /// Wait `delay`, then subscribe again; `attempt` counts the reconnects since
    /// the last stream that opened or delivered.
    Retry { attempt: u32, delay: Duration },
    /// Hand the consumer the error that the reconnect attempts were exhausted
    /// after `attempts` attempts, then end.
    GiveUp { attempts: u32 },
}

/// The state that the reconnecting stream keeps between events: the number of
/// reconnect attempts since a stream last opened or delivered an item.
#[derive(Debug, Clone, Copy, PartialEq, Eq, Structural)]
pub struct ReconnectState {
    pub attempt: u32,
}

impl ReconnectState {
    /// The state before the first subscribe call.
    pub fn new() -> (s: ReconnectState)
        ensures
            s.attempt == 0,
    {
        ReconnectState { attempt: 0 }
    }
}

/// `attempt + 1`, staying at `u32::MAX` once there.
pub open spec fn next_attempt_count(attempt: u32) -> u32 {
    if attempt == u32::MAX {
        attempt
    } else {
        (attempt + 1) as u32
    }
}

/// Whether reconnect attempt number `attempt` is past the configured limit.
pub open spec fn attempts_exhausted(cfg: ReconnectConfig, attempt: u32) -> bool {
    match cfg.max_attempts {
        Some(max) => attempt > max,
        None => false,
    }
}

/// The attempt count after `event` arrives with count `attempt`.
pub open spec fn reconnect_next_attempt(cfg: ReconnectConfig, attempt: u32, event: StreamEvent) -> u32 {
    match event {
        StreamEvent::Subscribed | StreamEvent::Received => 0,
        _ => if cfg.enabled {
            next_attempt_count(attempt)
        } else {
            attempt
        },
    }
}

/// Whether `action` is what the reconnecting stream does when `event` arrives
/// with attempt count `attempt`: an opened stream is read, a delivered item is
/// passed on; after a disconnect with reconnects disabled the error (if any) is
/// passed on and the stream ends; with reconnects enabled the attempt count
/// grows by one and the stream either gives up, when the count is past the
/// limit, or waits the backoff delay for that attempt and subscribes again.
pub open spec fn reconnect_action_ok(
    cfg: ReconnectConfig,
    attempt: u32,
    event: StreamEvent,
    action: ReconnectAction,
) -> bool {
    match event {
        StreamEvent::Subscribed => action == ReconnectAction::ReadNext,
        StreamEvent::Received => action == ReconnectAction::Deliver,
        _ => if !cfg.enabled {
            action == (if event is Ended {
                ReconnectAction::Stop
            } else {
                ReconnectAction::Fail
            })
        } else {
            let next = next_attempt_count(attempt);
            if attempts_exhausted(cfg, next) {
                action == ReconnectAction::GiveUp { attempts: cfg.max_attempts->0 }
            } else {
                &&& action matches ReconnectAction::Retry { attempt: a, delay: d }
                &&& a == next
                &&& duration_as_nanos(d) == cfg.delay_nanos(next)
            }
        },
    }
}

impl ReconnectConfig {
    /// Decides what the reconnecting stream does when `event` arrives in `state`,
    /// and the state it moves to.
    pub fn on_event(&self, state: ReconnectState, event: StreamEvent) -> (r: (
        ReconnectState,
        ReconnectAction,
    ))
        ensures
            r.0.attempt == reconnect_next_attempt(*self, state.attempt, event),
            reconnect_action_ok(*self, state.attempt, event, r.1),
    {
        match event {
            StreamEvent::Subscribed => (ReconnectState { attempt: 0 }, ReconnectAction::ReadNext),
            StreamEvent::Received => (ReconnectState { attempt: 0 }, ReconnectAction::Deliver),
            _ => {
                if !self.enabled {
                    let action = match event {
                        StreamEvent::Ended => ReconnectAction::Stop,
                        _ => ReconnectAction::Fail,
                    };
                    return (state, action);
                }
                let attempt = state.attempt.saturating_add(1);
                let next = ReconnectState { attempt };
                match self.max_attempts {
                    Some(max_attempts) => {
                        if attempt > max_attempts {
                            return (next, ReconnectAction::GiveUp { attempts: max_attempts });
                        }
                    },
                    None => {},
                }
                let delay = self.delay_for_attempt(attempt);
                (next, ReconnectAction::Retry { attempt, delay })
            },
        }
    }
}


/// The attempt count after the events `events` arrive in order, starting from
/// count `attempt`.
pub open spec fn attempt_after_events(cfg: ReconnectConfig, attempt: u32, events: Seq<StreamEvent>) -> u32
    decreases events.len(),
{
    if events.len() == 0 {
        attempt
    } else {
        reconnect_next_attempt(
            cfg,
            attempt_after_events(cfg, attempt, events.drop_last()),
            events.last(),
        )
    }
}

/// The backoff delay never exceeds the configured maximum delay.
pub proof fn lemma_delay_capped_at_max(cfg: ReconnectConfig, attempt: u32)
    ensures
        cfg.delay_nanos(attempt) <= duration_as_nanos(cfg.max_delay),
{
}

/// Attempts `0` and `1` wait the minimum delay, or the maximum delay where that
/// is shorter.
pub proof fn lemma_first_attempt_waits_min_delay(cfg: ReconnectConfig)
    requires
        duration_as_nanos(cfg.min_delay) <= max_duration_nanos(),
    ensures
        cfg.delay_nanos(0) == cfg.delay_nanos(1),
        cfg.delay_nanos(1) == (if duration_as_nanos(cfg.max_delay) < duration_as_nanos(cfg.min_delay) {
            duration_as_nanos(cfg.max_delay) as int
        } else {
            duration_as_nanos(cfg.min_delay) as int
        }),
{
    lemma2_to64();
    let min = duration_as_nanos(cfg.min_delay) as int;
    assert(backoff_exponent(0) == 0 && backoff_exponent(1) == 0);
    assert(min * pow2(0) == min);
}

/// The delay before a later attempt is never shorter than the delay before an
/// earlier one.
pub proof fn lemma_delay_monotone(cfg: ReconnectConfig, earlier: u32, later: u32)
    requires
        earlier <= later,
    ensures
        cfg.delay_nanos(earlier) <= cfg.delay_nanos(later),
{
    let e1 = backoff_exponent(earlier);
    let e2 = backoff_exponent(later);
    let min = duration_as_nanos(cfg.min_delay) as int;
    assert(pow2(e1) <= pow2(e2)) by {
        if e1 < e2 {
            lemma_pow2_strictly_increases(e1, e2);
        }
    }
    assert(min * pow2(e1) <= min * pow2(e2)) by {
        lemma_mul_inequality(pow2(e1) as int, pow2(e2) as int, min);
        lemma_mul_is_commutative(pow2(e1) as int, min);
        lemma_mul_is_commutative(pow2(e2) as int, min);
    }
}

/// Up to attempt 11 each attempt doubles the delay of the one before it, as long
/// as the doubled delay stays below the maximum delay.
pub proof fn lemma_delay_doubles(cfg: ReconnectConfig, attempt: u32)
    requires
        1 <= attempt <= 10,
        duration_as_nanos(cfg.min_delay) * pow2(backoff_exponent((attempt + 1) as u32))
            <= duration_as_nanos(cfg.max_delay),
        duration_as_nanos(cfg.max_delay) <= max_duration_nanos(),
    ensures
        cfg.delay_nanos((attempt + 1) as u32) == 2 * cfg.delay_nanos(attempt),
{
    let e = backoff_exponent(attempt);
    let min = duration_as_nanos(cfg.min_delay) as int;
    assert(backoff_exponent((attempt + 1) as u32) == e + 1);
    lemma_pow2_unfold(e + 1);
    lemma_pow2_pos(e);
    assert(min * pow2(e + 1) == 2 * (min * pow2(e))) by (nonlinear_arith)
        requires
            pow2(e + 1) == 2 * pow2(e),
    ;
    assert(min * pow2(e) <= min * pow2(e + 1)) by (nonlinear_arith)
        requires
            pow2(e + 1) == 2 * pow2(e),
            min >= 0,
            pow2(e) > 0,
    ;
}

/// From attempt 11 on the delay no longer grows.
pub proof fn lemma_delay_stops_growing(cfg: ReconnectConfig, attempt: u32)
    requires
        attempt >= 11,
    ensures
        cfg.delay_nanos(attempt) == cfg.delay_nanos(11),
{
}

/// A stream that opens, or an item that arrives, resets the attempt count to zero.
pub proof fn lemma_progress_resets_attempts(cfg: ReconnectConfig, attempt: u32, event: StreamEvent)
    requires
        event is Subscribed || event is Received,
    ensures
        reconnect_next_attempt(cfg, attempt, event) == 0,
{
}

/// With reconnects disabled the stream never waits to subscribe again and never
/// gives up: after a disconnect it passes on the error, if there is one, and ends.
pub proof fn lemma_disabled_never_reconnects(
    cfg: ReconnectConfig,
    attempt: u32,
    event: StreamEvent,
    action: ReconnectAction,
)
    requires
        !cfg.enabled,
        reconnect_action_ok(cfg, attempt, event, action),
    ensures
        !(action is Retry),
        !(action is GiveUp),
        event.is_disconnect() ==> (action is Fail || action is Stop),
        event is Ended ==> action is Stop,
        reconnect_next_attempt(cfg, attempt, event) == attempt || !event.is_disconnect(),
{
}

/// Without an attempt limit the stream never gives up: with reconnects enabled,
/// every disconnect is followed by a wait and a new subscribe call.
pub proof fn lemma_unlimited_never_gives_up(
    cfg: ReconnectConfig,
    attempt: u32,
    event: StreamEvent,
    action: ReconnectAction,
)
    requires
        cfg.max_attempts is None,
        reconnect_action_ok(cfg, attempt, event, action),
    ensures
        !(action is GiveUp),
        cfg.enabled && event.is_disconnect() ==> action is Retry,
{
}

/// With reconnects enabled, the attempt count is the number of disconnects since
/// the stream last opened or delivered an item (saturating at `u32::MAX`).
pub proof fn lemma_attempt_counts_disconnects(
    cfg: ReconnectConfig,
    events: Seq<StreamEvent>,
    since: int,
)
    requires
        cfg.enabled,
        0 <= since <= events.len(),
        since > 0 ==> (events[since - 1] is Subscribed || events[since - 1] is Received),
        forall|i: int| since <= i < events.len() ==> #[trigger] events[i].is_disconnect(),
        events.len() - since <= u32::MAX,
    ensures
        attempt_after_events(cfg, 0, events) == events.len() - since,
    decreases events.len(),
{
    if events.len() > since {
        let prefix = events.drop_last();
        assert forall|i: int| since <= i < prefix.len() implies #[trigger] prefix[i].is_disconnect() by {
            assert(prefix[i] == events[i]);
        }
        if since > 0 {
            assert(prefix[since - 1] == events[since - 1]);
        }
        lemma_attempt_counts_disconnects(cfg, prefix, since);
        assert(events.last() == events[events.len() - 1]);
        assert(events.last().is_disconnect());
        assert(attempt_after_events(cfg, 0, prefix) == prefix.len() - since);
        assert(attempt_after_events(cfg, 0, events) == next_attempt_count(attempt_after_events(cfg, 0, prefix)));
    } else if since > 0 {
        assert(events.last() == events[since - 1]);
    }
}

/// With reconnects enabled and a limit of `max` attempts, the stream reconnects
/// exactly `max` times in a row: the disconnect at attempt count `k < max`
/// leads to reconnect attempt `k + 1`, and the disconnect at count `max` gives
/// up, reporting `max` attempts.
pub proof fn lemma_gives_up_after_max_attempts(
    cfg: ReconnectConfig,
    attempt: u32,
    event: StreamEvent,
    action: ReconnectAction,
)
    requires
        cfg.enabled,
        cfg.max_attempts is Some,
        cfg.max_attempts->0 < u32::MAX,
        attempt <= cfg.max_attempts->0,
        event.is_disconnect(),
        reconnect_action_ok(cfg, attempt, event, action),
    ensures
        attempt < cfg.max_attempts->0 ==> (action matches ReconnectAction::Retry { attempt: a, .. }
            && a == attempt + 1),
        attempt == cfg.max_attempts->0 ==> action == (ReconnectAction::GiveUp {
            attempts: cfg.max_attempts->0,
        }),
{
}

/// With reconnects enabled and a limit of `max` attempts, the disconnects that
/// follow the start, or the last opened stream or delivered item, are answered
/// by reconnect attempts numbered `1` to `max`, and the next one gives up,
/// reporting `max` attempts.
pub proof fn lemma_reconnects_exactly_max_times(
    cfg: ReconnectConfig,
    events: Seq<StreamEvent>,
    since: int,
    event: StreamEvent,
    action: ReconnectAction,
)
    requires
        cfg.enabled,
        cfg.max_attempts is Some,
        cfg.max_attempts->0 < u32::MAX,
        0 <= since <= events.len(),
        since > 0 ==> (events[since - 1] is Subscribed || events[since - 1] is Received),
        forall|i: int| since <= i < events.len() ==> #[trigger] events[i].is_disconnect(),
        events.len() - since <= cfg.max_attempts->0,
        event.is_disconnect(),
        reconnect_action_ok(cfg, attempt_after_events(cfg, 0, events), event, action),
    ensures
        events.len() - since < cfg.max_attempts->0 ==> (action matches ReconnectAction::Retry {
            attempt: a,
            ..
        } && a == events.len() - since + 1),
        events.len() - since == cfg.max_attempts->0 ==> action == (ReconnectAction::GiveUp {
            attempts: cfg.max_attempts->0,
        }),
{
    lemma_attempt_counts_disconnects(cfg, events, since);
    lemma_gives_up_after_max_attempts(cfg, attempt_after_events(cfg, 0, events), event, action);
}

/// Law of `delay_for_attempt`: the delay before attempt `attempt` lasts
/// `min_delay * 2^e` nanoseconds, where `e` is `attempt - 1` for attempts 2 to
/// 11, 0 below and 10 above, saturated at the longest `Duration` and capped at
/// `max_delay`.
pub proof fn law_delay_for_attempt(cfg: ReconnectConfig, attempt: u32, delay: Duration)
    requires
        call_ensures(ReconnectConfig::delay_for_attempt, (&cfg, attempt), delay),
    ensures
        ({
            let e: nat = if attempt <= 1 {
                0
            } else if attempt > 11 {
                10
            } else {
                (attempt - 1) as nat
            };
            let grown = duration_as_nanos(cfg.min_delay) * pow2(e);
            let saturated = if grown > u64::MAX * 1_000_000_000 + 999_999_999 {
                u64::MAX * 1_000_000_000 + 999_999_999
            } else {
                grown
            };
            duration_as_nanos(delay) == if duration_as_nanos(cfg.max_delay) < saturated {
                duration_as_nanos(cfg.max_delay) as int
            } else {
                saturated
            }
        }),
{
}

/// Law of `ReconnectConfig::default`: reconnects are enabled, without a limit,
/// and the backoff runs from 100 ms to 5 s.
pub proof fn law_default_reconnect_policy(cfg: ReconnectConfig)
    requires
        call_ensures(<ReconnectConfig as Default>::default, (), cfg),
    ensures
        cfg.enabled,
        duration_as_nanos(cfg.min_delay) == 100_000_000,
        duration_as_nanos(cfg.max_delay) == 5_000_000_000,
        cfg.max_attempts is None,
{
}

/// Law of `on_event`: a stream that opens is read, an item that arrives is
/// delivered, and either one sets the attempt count back to zero, whatever the
/// configuration and the state.
pub proof fn law_progress_reads_and_resets(
    cfg: ReconnectConfig,
    state: ReconnectState,
    event: StreamEvent,
    r: (ReconnectState, ReconnectAction),
)
    requires
        call_ensures(ReconnectConfig::on_event, (&cfg, state, event), r),
    ensures
        event is Subscribed ==> r.0.attempt == 0 && r.1 == ReconnectAction::ReadNext,
        event is Received ==> r.0.attempt == 0 && r.1 == ReconnectAction::Deliver,
{
}

/// Law of `on_event`: with reconnects disabled, a failed subscribe call or a
/// failed stream hands its error to the consumer and ends (`Fail`), a stream
/// that ends cleanly just ends (`Stop`), and the state stays as it was, in every
/// state.
pub proof fn law_disabled_fails_or_stops(
    cfg: ReconnectConfig,
    state: ReconnectState,
    event: StreamEvent,
    r: (ReconnectState, ReconnectAction),
)
    requires
        call_ensures(ReconnectConfig::on_event, (&cfg, state, event), r),
        !cfg.enabled,
    ensures
        event is SubscribeFailed ==> r.1 == ReconnectAction::Fail && r.0 == state,
        event is StreamFailed ==> r.1 == ReconnectAction::Fail && r.0 == state,
        event is Ended ==> r.1 == ReconnectAction::Stop && r.0 == state,
{
}

/// Law of `on_event`: with reconnects enabled, a disconnect raises the attempt
/// count by one (staying at `u32::MAX` there); past the limit the stream gives
/// up reporting the limit, and otherwise it retries with the new count and
/// waits exactly as long as this configuration's own `delay_for_attempt`
/// gives for that attempt.
pub proof fn law_disconnect_retries_with_configured_backoff(
    cfg: ReconnectConfig,
    state: ReconnectState,
    event: StreamEvent,
    r: (ReconnectState, ReconnectAction),
    backoff: Duration,
)
    requires
        call_ensures(ReconnectConfig::on_event, (&cfg, state, event), r),
        cfg.enabled,
        event is SubscribeFailed || event is StreamFailed || event is Ended,
        ({
            let n: u32 = if state.attempt == u32::MAX { u32::MAX } else { (state.attempt + 1) as u32 };
            call_ensures(ReconnectConfig::delay_for_attempt, (&cfg, n), backoff)
        }),
    ensures
        ({
            let n: u32 = if state.attempt == u32::MAX { u32::MAX } else { (state.attempt + 1) as u32 };
            &&& r.0.attempt == n
            &&& (cfg.max_attempts is Some && n > cfg.max_attempts->0) ==> r.1 == (ReconnectAction::GiveUp {
                attempts: cfg.max_attempts->0,
            })
            &&& !(cfg.max_attempts is Some && n > cfg.max_attempts->0) ==> (r.1 matches ReconnectAction::Retry {
                attempt: a,
                delay: d,
            } && a == n && duration_as_nanos(d) == duration_as_nanos(backoff))
        }),
{
}


/// Law of `ReconnectState::new`: the count starts at zero.
pub proof fn law_fresh_state(state: ReconnectState)
    requires
        call_ensures(ReconnectState::new, (), state),
    ensures
        state.attempt == 0,
{
}

} // verus!
