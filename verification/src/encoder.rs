//! The quadrature-style encoder decoder: two debounced channels, a signed
//! pulse counter and a configurable divisor that turns accumulated pulses
//! into turn events.

use crate::debounced_input::{
    debounce_step, debounce_step_exec, stable_high, stable_high_exec, DebouncedInput,
    DebouncedInputConfig, DebouncedInputEvent, DebouncedInputState,
};
use crate::duration::{Duration, TimeError};
use crate::error::Error;
use crate::{Control, InputSwitch};
use vstd::arithmetic::div_mod::{
    lemma_fundamental_div_mod, lemma_fundamental_div_mod_converse_mod, lemma_mod_self_0,
    lemma_small_mod,
};
use vstd::prelude::*;

verus! {

/// Configuration of an [`Encoder`]: the debounce window shared by both
/// channels, and the number of signed counts that registers one turn.
#[derive(Clone, Copy, Debug, PartialEq, Eq, Structural)]
pub struct EncoderConfig {
    pub debounce: Duration,
    pub counts_div: i64,
}

/// The event result of one [`Encoder`] update.
#[derive(Clone, Copy, Debug, PartialEq, Eq, Structural)]
pub enum EncoderEvent {
    /// The encoder did not complete a turn.
    NoTurn,
    /// The encoder completed a clockwise turn.
    ClockwiseTurn,
    /// The encoder completed a counter-clockwise turn.
    CounterClockwiseTurn,
}

/// The absolute value of a counter.
pub open spec fn spec_magnitude(c: int) -> int {
    if c >= 0 {
        c
    } else {
        -c
    }
}

/// The counter is kept inside the symmetric range of its machine type:
/// a sum beyond `i64::MAX` in either direction saturates there instead of
/// overflowing. The bound is astronomically far from any real turn count.
pub open spec fn clamped(c: int) -> int {
    if c > i64::MAX as int {
        i64::MAX as int
    } else if c < -(i64::MAX as int) {
        -(i64::MAX as int)
    } else {
        c
    }
}

/// The signed pulse one channel's debounced event contributes. A rise
/// counts toward `direct` when the other (antagonist) channel's debounced
/// level is low, and against it when that level is high; a fall mirrors
/// the rise; a stable level contributes nothing.
pub open spec fn direction_increment(
    event: DebouncedInputEvent,
    antagonist_high: bool,
    direct: int,
) -> int {
    match event {
        DebouncedInputEvent::Rise => if antagonist_high {
            -direct
        } else {
            direct
        },
        DebouncedInputEvent::Fall => if antagonist_high {
            direct
        } else {
            -direct
        },
        _ => 0,
    }
}

/// The counter update of one poll: add this poll's net pulses, and once
/// the accumulated counts are a nonzero multiple of the divisor, emit the
/// turn matching their sign and reset the counter to zero.
pub open spec fn counts_step(counts: int, delta: int, divisor: int) -> (int, EncoderEvent) {
    let c = clamped(counts + delta);
    if spec_magnitude(c) != 0 && spec_magnitude(c) % divisor == 0 {
        (
            0,
            if c > 0 {
                EncoderEvent::ClockwiseTurn
            } else {
                EncoderEvent::CounterClockwiseTurn
            },
        )
    } else {
        (c, EncoderEvent::NoTurn)
    }
}

/// One whole encoder poll as a mathematical function. Channel A advances
/// first and its direction check reads channel B's pre-poll level; channel
/// B advances second and its check reads channel A's already-updated
/// level. This asymmetry is a faithful property of sequential per-poll
/// evaluation and decides the turn timing under simultaneous edges.
pub open spec fn encoder_step(
    a_state: DebouncedInputState,
    b_state: DebouncedInputState,
    counts: int,
    raw_a: bool,
    raw_b: bool,
    now: u64,
    debounce_a: Duration,
    debounce_b: Duration,
    divisor: int,
) -> Result<(DebouncedInputState, DebouncedInputState, int, EncoderEvent), TimeError> {
    match debounce_step(a_state, raw_a, now, debounce_a) {
        Err(e) => Err(e),
        Ok((a_next, a_event)) => {
            let inc_a = direction_increment(a_event, stable_high(b_state), 1);
            match debounce_step(b_state, raw_b, now, debounce_b) {
                Err(e) => Err(e),
                Ok((b_next, b_event)) => {
                    let inc_b = direction_increment(b_event, stable_high(a_next), -1);
                    let r = counts_step(counts, inc_a + inc_b, divisor);
                    Ok((a_next, b_next, r.0, r.1))
                },
            }
        },
    }
}

/// Executable form of [`direction_increment`].
fn direction_increment_exec(event: DebouncedInputEvent, antagonist_high: bool, direct: i64) -> (r:
    i64)
    requires
        direct == 1 || direct == -1,
    ensures
        r as int == direction_increment(event, antagonist_high, direct as int),
{
    match event {
        DebouncedInputEvent::Rise => if antagonist_high {
            -direct
        } else {
            direct
        },
        DebouncedInputEvent::Fall => if antagonist_high {
            direct
        } else {
            -direct
        },
        _ => 0,
    }
}

/// Executable addition onto the counter, saturating as [`clamped`] says.
fn add_clamped(counts: i64, delta: i64) -> (r: i64)
    requires
        -2 <= delta <= 2,
    ensures
        r as int == clamped(counts as int + delta as int),
{
    if delta >= 0 && counts > i64::MAX - delta {
        i64::MAX
    } else if delta < 0 && counts < i64::MIN - delta {
        -i64::MAX
    } else {
        let s = counts + delta;
        if s < -i64::MAX {
            -i64::MAX
        } else {
            s
        }
    }
}

/// Executable form of [`counts_step`].
fn counts_step_exec(counts: i64, delta: i64, divisor: i64) -> (r: (i64, EncoderEvent))
    requires
        -2 <= delta <= 2,
        1 <= divisor,
    ensures
        r.0 as int == counts_step(counts as int, delta as int, divisor as int).0,
        r.1 == counts_step(counts as int, delta as int, divisor as int).1,
{
    let c = add_clamped(counts, delta);
    let magnitude = if c >= 0 {
        c
    } else {
        -c
    };
    if magnitude != 0 && magnitude % divisor == 0 {
        (
            0,
            if c > 0 {
                EncoderEvent::ClockwiseTurn
            } else {
                EncoderEvent::CounterClockwiseTurn
            },
        )
    } else {
        (c, EncoderEvent::NoTurn)
    }
}

/// Concrete implementation of an encoder: the two debounced channels and
/// the signed pulse counter with its divisor.
pub struct Encoder<SwitchA: InputSwitch, SwitchB: InputSwitch> {
    pub debounced_input_a: DebouncedInput<SwitchA>,
    pub debounced_input_b: DebouncedInput<SwitchB>,
    pub counts: i64,
    pub counts_div: i64,
}

impl<SwitchA: InputSwitch, SwitchB: InputSwitch<Error = SwitchA::Error>> Encoder<
    SwitchA,
    SwitchB,
> {
    /// Creates a new [`Encoder`] around concrete switches for channel A
    /// and channel B.
    pub fn new(input_switch_a: SwitchA, input_switch_b: SwitchB, config: EncoderConfig) -> (r:
        Self)
        requires
            config.counts_div >= 1,
        ensures
            r.counts == 0,
            r.counts_div == config.counts_div,
            r.debounced_input_a.config.debounce == config.debounce,
            r.debounced_input_b.config.debounce == config.debounce,
            r.debounced_input_a.state == DebouncedInputState::FixedLow
                || r.debounced_input_a.state == DebouncedInputState::FixedHigh,
            r.debounced_input_b.state == DebouncedInputState::FixedLow
                || r.debounced_input_b.state == DebouncedInputState::FixedHigh,
    {
        Encoder {
            debounced_input_a: DebouncedInput::new(
                input_switch_a,
                DebouncedInputConfig { debounce: config.debounce },
            ),
            debounced_input_b: DebouncedInput::new(
                input_switch_b,
                DebouncedInputConfig { debounce: config.debounce },
            ),
            counts: 0,
            counts_div: config.counts_div,
        }
    }

    /// Advances the encoder one poll against the current tick: channel A
    /// first, then channel B, both against the same `now`.
    ///
    /// On success, the new channel states, the new counter and the
    /// reported event are exactly [`encoder_step`] of the old states under
    /// the raw levels that were read. On any error everything is left
    /// unchanged; a time error moreover certifies that [`encoder_step`]
    /// itself failed for the levels that were read.
    pub fn update(&mut self, now: u64) -> (r: Result<EncoderEvent, Error<SwitchA::Error>>)
        requires
            old(self).counts_div >= 1,
        ensures
            final(self).counts_div == old(self).counts_div,
            final(self).debounced_input_a.config == old(self).debounced_input_a.config,
            final(self).debounced_input_b.config == old(self).debounced_input_b.config,
            match r {
                Ok(event) => exists|raw_a: bool, raw_b: bool|
                    #[trigger] encoder_step(
                        old(self).debounced_input_a.state,
                        old(self).debounced_input_b.state,
                        old(self).counts as int,
                        raw_a,
                        raw_b,
                        now,
                        old(self).debounced_input_a.config.debounce,
                        old(self).debounced_input_b.config.debounce,
                        old(self).counts_div as int,
                    ) == Ok::<_, TimeError>(
                        (
                            final(self).debounced_input_a.state,
                            final(self).debounced_input_b.state,
                            final(self).counts as int,
                            event,
                        ),
                    ),
                Err(e) => final(self).debounced_input_a.state == old(
                    self,
                ).debounced_input_a.state && final(self).debounced_input_b.state == old(
                    self,
                ).debounced_input_b.state && final(self).counts == old(self).counts && match e {
                    Error::ElapsedTimer(te) => exists|raw_a: bool, raw_b: bool|
                        #[trigger] encoder_step(
                            old(self).debounced_input_a.state,
                            old(self).debounced_input_b.state,
                            old(self).counts as int,
                            raw_a,
                            raw_b,
                            now,
                            old(self).debounced_input_a.config.debounce,
                            old(self).debounced_input_b.config.debounce,
                            old(self).counts_div as int,
                        ) == Err::<
                            (DebouncedInputState, DebouncedInputState, int, EncoderEvent),
                            TimeError,
                        >(te),
                    Error::InputSwitch(_) => true,
                },
            },
    {
        let raw_a = match self.debounced_input_a.read_raw() {
            Ok(b) => b,
            Err(e) => {
                return Err(Error::InputSwitch(e));
            },
        };
        let raw_b = match self.debounced_input_b.read_raw() {
            Ok(b) => b,
            Err(e) => {
                return Err(Error::InputSwitch(e));
            },
        };
        let (a_next, a_event) = match debounce_step_exec(
            self.debounced_input_a.state,
            raw_a,
            now,
            self.debounced_input_a.config.debounce,
        ) {
            Ok(p) => p,
            Err(te) => {
                proof {
                    assert(encoder_step(
                        self.debounced_input_a.state,
                        self.debounced_input_b.state,
                        self.counts as int,
                        raw_a,
                        raw_b,
                        now,
                        self.debounced_input_a.config.debounce,
                        self.debounced_input_b.config.debounce,
                        self.counts_div as int,
                    ) == Err::<
                        (DebouncedInputState, DebouncedInputState, int, EncoderEvent),
                        TimeError,
                    >(te));
                }
                return Err(Error::ElapsedTimer(te));
            },
        };
        let inc_a = direction_increment_exec(a_event, self.debounced_input_b.is_high(), 1);
        let (b_next, b_event) = match debounce_step_exec(
            self.debounced_input_b.state,
            raw_b,
            now,
            self.debounced_input_b.config.debounce,
        ) {
            Ok(p) => p,
            Err(te) => {
                proof {
                    assert(encoder_step(
                        self.debounced_input_a.state,
                        self.debounced_input_b.state,
                        self.counts as int,
                        raw_a,
                        raw_b,
                        now,
                        self.debounced_input_a.config.debounce,
                        self.debounced_input_b.config.debounce,
                        self.counts_div as int,
                    ) == Err::<
                        (DebouncedInputState, DebouncedInputState, int, EncoderEvent),
                        TimeError,
                    >(te));
                }
                return Err(Error::ElapsedTimer(te));
            },
        };
        let inc_b = direction_increment_exec(b_event, stable_high_exec(a_next), -1);
        let (counts_next, event) = counts_step_exec(self.counts, inc_a + inc_b, self.counts_div);
        proof {
            assert(encoder_step(
                self.debounced_input_a.state,
                self.debounced_input_b.state,
                self.counts as int,
                raw_a,
                raw_b,
                now,
                self.debounced_input_a.config.debounce,
                self.debounced_input_b.config.debounce,
                self.counts_div as int,
            ) == Ok::<_, TimeError>((a_next, b_next, counts_next as int, event)));
        }
        self.debounced_input_a.state = a_next;
        self.debounced_input_b.state = b_next;
        self.counts = counts_next;
        Ok(event)
    }

    /// Consumes `self` and releases both switches in channel order:
    /// exactly the switches the two channels held, channel A first.
    pub fn release_input_switches(self) -> (r: (SwitchA, SwitchB))
        ensures
            r.0 == self.debounced_input_a.input_switch,
            r.1 == self.debounced_input_b.input_switch,
    {
        (
            self.debounced_input_a.release_input_switch(),
            self.debounced_input_b.release_input_switch(),
        )
    }
}

impl<SwitchA: InputSwitch, SwitchB: InputSwitch<Error = SwitchA::Error>> Control for Encoder<
    SwitchA,
    SwitchB,
> {
    type Event = EncoderEvent;

    type Error = Error<SwitchA::Error>;

    /// Trait-dispatched polling carries no contract; callers that need
    /// the verified one use the inherent `update`. A divisor below one is
    /// an invalid configuration that [`Encoder::new`] refuses; an encoder
    /// whose divisor was later corrupted that way reports no turn.
    fn update(&mut self, now: u64) -> Result<EncoderEvent, Error<SwitchA::Error>> {
        if self.counts_div >= 1 {
            self.update(now)
        } else {
            Ok(EncoderEvent::NoTurn)
        }
    }
}

/// The counter after a whole sequence of polls, each contributing the
/// given net pulses.
pub open spec fn counts_run(counts: int, deltas: Seq<int>, divisor: int) -> int
    decreases deltas.len(),
{
    if deltas.len() == 0 {
        counts
    } else {
        counts_step(counts_run(counts, deltas.drop_last(), divisor), deltas.last(), divisor).0
    }
}

/// The net turns a whole sequence of polls emits: clockwise counts `+1`,
/// counter-clockwise `-1`.
pub open spec fn turns_run(counts: int, deltas: Seq<int>, divisor: int) -> int
    decreases deltas.len(),
{
    if deltas.len() == 0 {
        0
    } else {
        turns_run(counts, deltas.drop_last(), divisor) + match counts_step(
            counts_run(counts, deltas.drop_last(), divisor),
            deltas.last(),
            divisor,
        ).1 {
            EncoderEvent::ClockwiseTurn => 1int,
            EncoderEvent::CounterClockwiseTurn => -1int,
            EncoderEvent::NoTurn => 0,
        }
    }
}

/// The sum of a sequence of pulse contributions.
pub open spec fn delta_sum(deltas: Seq<int>) -> int
    decreases deltas.len(),
{
    if deltas.len() == 0 {
        0
    } else {
        delta_sum(deltas.drop_last()) + deltas.last()
    }
}

/// Law (encoder divisor, one poll): when a poll contributes at most one
/// pulse and the counter's magnitude is below the divisor, the updated
/// counter's magnitude stays below the divisor, and a turn is emitted
/// exactly when the accumulated counts reach the divisor itself -- then
/// the counter resets to zero and the turn's direction is the counts'
/// sign.
pub proof fn lemma_counts_step_invariant(counts: int, delta: int, divisor: int)
    requires
        1 <= divisor <= i64::MAX - 2,
        -1 <= delta <= 1,
        spec_magnitude(counts) < divisor,
    ensures
        spec_magnitude(counts_step(counts, delta, divisor).0) < divisor,
        counts_step(counts, delta, divisor).1 is ClockwiseTurn <==> counts + delta == divisor,
        counts_step(counts, delta, divisor).1 is CounterClockwiseTurn <==> counts + delta
            == -divisor,
        counts_step(counts, delta, divisor).1 is NoTurn ==> counts_step(counts, delta, divisor).0
            == counts + delta,
        !(counts_step(counts, delta, divisor).1 is NoTurn) ==> counts_step(
            counts,
            delta,
            divisor,
        ).0 == 0,
{
    let c = counts + delta;
    assert(clamped(c) == c);
    let magnitude = spec_magnitude(c);
    if magnitude == divisor {
        lemma_mod_self_0(divisor);
    } else if magnitude > 0 {
        lemma_small_mod(magnitude as nat, divisor as nat);
    }
}

/// A number and its negation leave the same zero-or-nonzero remainder by
/// a positive divisor: divisibility does not depend on the sign.
proof fn lemma_mod_neg_zero(c: int, d: int)
    requires
        1 <= d,
    ensures
        (c % d == 0) <==> ((-c) % d == 0),
{
    lemma_fundamental_div_mod(c, d);
    lemma_fundamental_div_mod(-c, d);
    if c % d == 0 {
        assert(-c == (-(c / d)) * d + 0) by (nonlinear_arith)
            requires
                c == d * (c / d),
        ;
        lemma_fundamental_div_mod_converse_mod(-c, d, -(c / d), 0);
    }
    if (-c) % d == 0 {
        assert(c == (-((-c) / d)) * d + 0) by (nonlinear_arith)
            requires
                -c == d * ((-c) / d),
        ;
        lemma_fundamental_div_mod_converse_mod(c, d, -((-c) / d), 0);
    }
}

/// Law (encoder divisor, emission point): whatever a poll contributes, a
/// turn is emitted exactly when the updated counts are a nonzero multiple
/// of the divisor -- clockwise when positive, counter-clockwise when
/// negative -- and exactly such a poll resets the counter to zero.
pub proof fn lemma_turn_emission_point(counts: int, delta: int, divisor: int)
    requires
        1 <= divisor,
    ensures
        ({
            let c = clamped(counts + delta);
            let r = counts_step(counts, delta, divisor);
            &&& (r.1 is ClockwiseTurn <==> (c > 0 && c % divisor == 0))
            &&& (r.1 is CounterClockwiseTurn <==> (c < 0 && c % divisor == 0))
            &&& (r.1 is NoTurn <==> !(c != 0 && c % divisor == 0))
            &&& (r.1 is NoTurn ==> r.0 == c)
            &&& (!(r.1 is NoTurn) ==> r.0 == 0)
        }),
{
    let c = clamped(counts + delta);
    lemma_mod_neg_zero(c, divisor);
}

/// Law (encoder divisor, whole runs): a turn is emitted exactly once per
/// `divisor` net signed pulses. Over any run of polls that each contribute
/// at most one pulse, the final counter plus `divisor` times the net turns
/// equals the initial counter plus the net pulses, and the counter's
/// magnitude stays below the divisor after every poll.
pub proof fn lemma_turns_conservation(counts: int, deltas: Seq<int>, divisor: int)
    requires
        1 <= divisor <= i64::MAX - 2,
        spec_magnitude(counts) < divisor,
        forall|m: int| 0 <= m < deltas.len() ==> -1 <= #[trigger] deltas[m] <= 1,
    ensures
        spec_magnitude(counts_run(counts, deltas, divisor)) < divisor,
        counts_run(counts, deltas, divisor) + divisor * turns_run(counts, deltas, divisor)
            == counts + delta_sum(deltas),
    decreases deltas.len(),
{
    if deltas.len() > 0 {
        let pre = deltas.drop_last();
        assert(forall|m: int| 0 <= m < pre.len() ==> -1 <= #[trigger] pre[m] <= 1);
        lemma_turns_conservation(counts, pre, divisor);
        let c_pre = counts_run(counts, pre, divisor);
        let t_pre = turns_run(counts, pre, divisor);
        lemma_counts_step_invariant(c_pre, deltas.last(), divisor);
        assert(divisor * (t_pre + 1) == divisor * t_pre + divisor) by (nonlinear_arith);
        assert(divisor * (t_pre - 1) == divisor * t_pre - divisor) by (nonlinear_arith);
    }
}

} // verus!

