//! The signal debouncer: filters a raw boolean input against transient
//! noise using a timeout window.

use crate::duration::{Duration, TimeError};
use crate::error::Error;
use crate::{Control, InputSwitch};
use vstd::prelude::*;

verus! {

/// The state machine of [`DebouncedInput`]. The machine sits in a
/// `*Disturbance` state exactly while the most recent raw read disagreed
/// with the last stable level and the debounce window has not yet elapsed
/// since the disturbance began.
#[derive(Clone, Copy, Debug, PartialEq, Eq, Structural)]
pub enum DebouncedInputState {
    /// Stable low; the input is inactive.
    FixedLow,
    /// Stable high; the input is active.
    FixedHigh,
    /// Stable low, but the raw input has read active since the given tick.
    RiseDisturbance(u64),
    /// Stable high, but the raw input has read inactive since the given tick.
    FallDisturbance(u64),
}

/// The event result of one [`DebouncedInput`] update.
#[derive(Clone, Copy, Debug, PartialEq, Eq, Structural)]
pub enum DebouncedInputEvent {
    /// Stable low state, the input is inactive.
    Low,
    /// Stable high state, the input is active.
    High,
    /// Rise event, the input moved from the inactive to the active state.
    Rise,
    /// Fall event, the input moved from the active to the inactive state.
    Fall,
}

/// Configuration of a [`DebouncedInput`]: the minimum duration a raw level
/// must persist, uninterrupted, before a stable-level transition commits.
#[derive(Clone, Copy, Debug, PartialEq, Eq, Structural)]
pub struct DebouncedInputConfig {
    pub debounce: Duration,
}

/// The debounced level a state reports: high in `FixedHigh`, and still high
/// in `FallDisturbance` because a disturbance is silent until it commits.
pub open spec fn stable_high(state: DebouncedInputState) -> bool {
    match state {
        DebouncedInputState::FixedLow | DebouncedInputState::RiseDisturbance(_) => false,
        DebouncedInputState::FixedHigh | DebouncedInputState::FallDisturbance(_) => true,
    }
}

/// One poll of the debouncer as a mathematical function: from the current
/// state, the raw level just read and the current tick, to the next state
/// and the reported event.
///
/// A raw level that disagrees with the stable level opens a disturbance,
/// silently: the pre-transition stable event is still reported. A raw
/// level that reverts to the stable level cancels the disturbance. A raw
/// level that persists commits the transition (`Rise`/`Fall`) once the
/// debounce window has elapsed since the disturbance began; comparing the
/// disturbance tick with a `now` that lies before it fails instead.
pub open spec fn debounce_step(
    state: DebouncedInputState,
    raw: bool,
    now: u64,
    window: Duration,
) -> Result<(DebouncedInputState, DebouncedInputEvent), TimeError> {
    match state {
        DebouncedInputState::FixedLow => {
            if raw {
                Ok((DebouncedInputState::RiseDisturbance(now), DebouncedInputEvent::Low))
            } else {
                Ok((DebouncedInputState::FixedLow, DebouncedInputEvent::Low))
            }
        },
        DebouncedInputState::FixedHigh => {
            if !raw {
                Ok((DebouncedInputState::FallDisturbance(now), DebouncedInputEvent::High))
            } else {
                Ok((DebouncedInputState::FixedHigh, DebouncedInputEvent::High))
            }
        },
        DebouncedInputState::RiseDisturbance(since) => {
            if !raw {
                Ok((DebouncedInputState::FixedLow, DebouncedInputEvent::Low))
            } else {
                match window.spec_is_elapsed(since, now) {
                    Err(e) => Err(e),
                    Ok(true) => Ok((DebouncedInputState::FixedHigh, DebouncedInputEvent::Rise)),
                    Ok(false) => Ok(
                        (DebouncedInputState::RiseDisturbance(since), DebouncedInputEvent::Low),
                    ),
                }
            }
        },
        DebouncedInputState::FallDisturbance(since) => {
            if raw {
                Ok((DebouncedInputState::FixedHigh, DebouncedInputEvent::High))
            } else {
                match window.spec_is_elapsed(since, now) {
                    Err(e) => Err(e),
                    Ok(true) => Ok((DebouncedInputState::FixedLow, DebouncedInputEvent::Fall)),
                    Ok(false) => Ok(
                        (DebouncedInputState::FallDisturbance(since), DebouncedInputEvent::High),
                    ),
                }
            }
        },
    }
}

/// The stable level a fresh machine starts at, decided by one raw read:
/// a read of `Ok(true)` starts it high; a read of `Ok(false)`, or a
/// failed read, starts it low.
pub open spec fn initial_state<E>(read: Result<bool, E>) -> DebouncedInputState {
    match read {
        Ok(true) => DebouncedInputState::FixedHigh,
        _ => DebouncedInputState::FixedLow,
    }
}

/// Executable form of [`initial_state`]; the constructors decide the
/// starting level through it.
pub fn initial_state_exec<E>(read: Result<bool, E>) -> (r: DebouncedInputState)
    ensures
        r == initial_state(read),
{
    match read {
        Ok(true) => DebouncedInputState::FixedHigh,
        _ => DebouncedInputState::FixedLow,
    }
}

/// Executable form of [`stable_high`].
pub fn stable_high_exec(state: DebouncedInputState) -> (r: bool)
    ensures
        r == stable_high(state),
{
    match state {
        DebouncedInputState::FixedLow | DebouncedInputState::RiseDisturbance(_) => false,
        DebouncedInputState::FixedHigh | DebouncedInputState::FallDisturbance(_) => true,
    }
}

/// Executable form of [`debounce_step`]; the other machines advance their
/// debouncers through it so that a failed poll mutates nothing.
pub fn debounce_step_exec(
    state: DebouncedInputState,
    raw: bool,
    now: u64,
    window: Duration,
) -> (r: Result<(DebouncedInputState, DebouncedInputEvent), TimeError>)
    ensures
        r == debounce_step(state, raw, now, window),
{
    match state {
        DebouncedInputState::FixedLow => {
            if raw {
                Ok((DebouncedInputState::RiseDisturbance(now), DebouncedInputEvent::Low))
            } else {
                Ok((DebouncedInputState::FixedLow, DebouncedInputEvent::Low))
            }
        },
        DebouncedInputState::FixedHigh => {
            if !raw {
                Ok((DebouncedInputState::FallDisturbance(now), DebouncedInputEvent::High))
            } else {
                Ok((DebouncedInputState::FixedHigh, DebouncedInputEvent::High))
            }
        },
        DebouncedInputState::RiseDisturbance(since) => {
            if !raw {
                Ok((DebouncedInputState::FixedLow, DebouncedInputEvent::Low))
            } else {
                match window.is_elapsed(since, now) {
                    Err(e) => Err(e),
                    Ok(true) => Ok((DebouncedInputState::FixedHigh, DebouncedInputEvent::Rise)),
                    Ok(false) => Ok(
                        (DebouncedInputState::RiseDisturbance(since), DebouncedInputEvent::Low),
                    ),
                }
            }
        },
        DebouncedInputState::FallDisturbance(since) => {
            if raw {
                Ok((DebouncedInputState::FixedHigh, DebouncedInputEvent::High))
            } else {
                match window.is_elapsed(since, now) {
                    Err(e) => Err(e),
                    Ok(true) => Ok((DebouncedInputState::FixedLow, DebouncedInputEvent::Fall)),
                    Ok(false) => Ok(
                        (DebouncedInputState::FallDisturbance(since), DebouncedInputEvent::High),
                    ),
                }
            }
        },
    }
}

/// Concrete implementation of a debounced input: one injected switch, the
/// debounce state machine and its configured window.
pub struct DebouncedInput<Switch: InputSwitch> {
    pub input_switch: Switch,
    pub state: DebouncedInputState,
    pub config: DebouncedInputConfig,
}

impl<Switch: InputSwitch> DebouncedInput<Switch> {
    /// Creates a new [`DebouncedInput`] around a concrete `Switch`.
    ///
    /// The starting level is [`initial_state`] of one raw read of the
    /// switch: active starts high, inactive or a failed read starts low.
    pub fn new(input_switch: Switch, config: DebouncedInputConfig) -> (r: Self)
        ensures
            r.config == config,
            exists|read: Result<bool, Switch::Error>| r.state == #[trigger] initial_state(read),
            r.state == DebouncedInputState::FixedLow || r.state
                == DebouncedInputState::FixedHigh,
    {
        let mut input_switch = input_switch;
        let read = input_switch.is_active();
        let state = initial_state_exec(read);
        DebouncedInput { input_switch, state, config }
    }

    /// Returns whether the debounced level is stable high.
    pub fn is_high(&self) -> (r: bool)
        ensures
            r == stable_high(self.state),
    {
        stable_high_exec(self.state)
    }

    /// Returns whether the debounced level is stable low.
    pub fn is_low(&self) -> (r: bool)
        ensures
            r == !stable_high(self.state),
    {
        !self.is_high()
    }

    /// Reads the raw level from the wrapped switch without advancing the
    /// state machine. The read itself decides the result; nothing more can
    /// be promised of it.
    pub fn read_raw(&mut self) -> (r: Result<bool, Switch::Error>)
        ensures
            final(self).state == old(self).state,
            final(self).config == old(self).config,
    {
        self.input_switch.is_active()
    }

    /// Advances the debouncer one poll against the current tick.
    ///
    /// On success, the new state and the reported event are exactly
    /// [`debounce_step`] of the old state under the raw level that was
    /// read. On any error the state is left unchanged; a time error
    /// moreover certifies that [`debounce_step`] itself failed for the
    /// level that was read.
    pub fn update(&mut self, now: u64) -> (r: Result<DebouncedInputEvent, Error<Switch::Error>>)
        ensures
            final(self).config == old(self).config,
            match r {
                Ok(event) => exists|raw: bool|
                    #[trigger] debounce_step(old(self).state, raw, now, old(self).config.debounce)
                        == Ok::<_, TimeError>((final(self).state, event)),
                Err(e) => final(self).state == old(self).state && match e {
                    Error::ElapsedTimer(te) => exists|raw: bool|
                        #[trigger] debounce_step(
                            old(self).state,
                            raw,
                            now,
                            old(self).config.debounce,
                        ) == Err::<(DebouncedInputState, DebouncedInputEvent), TimeError>(te),
                    Error::InputSwitch(_) => true,
                },
            },
    {
        let raw = match self.input_switch.is_active() {
            Ok(b) => b,
            Err(e) => {
                return Err(Error::InputSwitch(e));
            },
        };
        match debounce_step_exec(self.state, raw, now, self.config.debounce) {
            Ok((next, event)) => {
                self.state = next;
                Ok(event)
            },
            Err(te) => Err(Error::ElapsedTimer(te)),
        }
    }

    /// Borrows the wrapped `Switch`: a reference to the very switch the
    /// machine holds.
    pub fn borrow_input_switch(&self) -> (r: &Switch)
        ensures
            *r == self.input_switch,
    {
        &self.input_switch
    }

    /// Consumes `self` and releases the wrapped `Switch`: exactly the
    /// switch the machine held, unchanged.
    pub fn release_input_switch(self) -> (r: Switch)
        ensures
            r == self.input_switch,
    {
        self.input_switch
    }
}

impl<Switch: InputSwitch> Control for DebouncedInput<Switch> {
    type Event = DebouncedInputEvent;

    type Error = Error<Switch::Error>;

    /// Trait-dispatched polling carries no contract; callers that need
    /// the verified one use the inherent `update`.
    fn update(&mut self, now: u64) -> Result<DebouncedInputEvent, Error<Switch::Error>> {
        self.update(now)
    }
}

/// The state after a whole sequence of polls, each a pair of the raw level
/// read and the tick it was read at, or the first error along the way.
pub open spec fn debounce_run(
    state: DebouncedInputState,
    inputs: Seq<(bool, u64)>,
    window: Duration,
) -> Result<DebouncedInputState, TimeError>
    decreases inputs.len(),
{
    if inputs.len() == 0 {
        Ok(state)
    } else {
        match debounce_run(state, inputs.drop_last(), window) {
            Err(e) => Err(e),
            Ok(s) => match debounce_step(s, inputs.last().0, inputs.last().1, window) {
                Err(e) => Err(e),
                Ok(p) => Ok(p.0),
            },
        }
    }
}

/// The outcome of poll `i` of a run: the step taken from the state the
/// first `i` polls produced.
pub open spec fn debounce_step_at(
    state: DebouncedInputState,
    inputs: Seq<(bool, u64)>,
    window: Duration,
    i: int,
) -> Result<(DebouncedInputState, DebouncedInputEvent), TimeError> {
    match debounce_run(state, inputs.take(i), window) {
        Err(e) => Err(e),
        Ok(s) => debounce_step(s, inputs[i].0, inputs[i].1, window),
    }
}

/// The raw input has read active at every poll from `k` through `i`, and
/// at least the debounce window lies between the two polls' ticks.
pub open spec fn sustained_high(
    inputs: Seq<(bool, u64)>,
    k: int,
    i: int,
    window: Duration,
) -> bool {
    &&& 0 <= k <= i < inputs.len()
    &&& inputs[k].1 <= inputs[i].1
    &&& inputs[i].1 - inputs[k].1 >= window.ticks
    &&& forall|m: int| k <= m <= i ==> (#[trigger] inputs[m]).0
}

/// The raw input has read inactive at every poll from `k` through `i`, and
/// at least the debounce window lies between the two polls' ticks.
pub open spec fn sustained_low(
    inputs: Seq<(bool, u64)>,
    k: int,
    i: int,
    window: Duration,
) -> bool {
    &&& 0 <= k <= i < inputs.len()
    &&& inputs[k].1 <= inputs[i].1
    &&& inputs[i].1 - inputs[k].1 >= window.ticks
    &&& forall|m: int| k <= m <= i ==> !(#[trigger] inputs[m]).0
}

/// A rise disturbance tagged `since` began at some poll `k` that read
/// active at tick `since`, and every poll from `k` on has read active.
pub open spec fn rise_origin(inputs: Seq<(bool, u64)>, k: int, since: u64) -> bool {
    &&& 0 <= k < inputs.len()
    &&& inputs[k].1 == since
    &&& forall|m: int| k <= m < inputs.len() ==> (#[trigger] inputs[m]).0
}

/// A fall disturbance tagged `since` began at some poll `k` that read
/// inactive at tick `since`, and every poll from `k` on has read inactive.
pub open spec fn fall_origin(inputs: Seq<(bool, u64)>, k: int, since: u64) -> bool {
    &&& 0 <= k < inputs.len()
    &&& inputs[k].1 == since
    &&& forall|m: int| k <= m < inputs.len() ==> !(#[trigger] inputs[m]).0
}

/// Law (disturbance invariant): a disturbance state always records the
/// tick of the poll that opened it, and the raw input has disagreed with
/// the stable level at every poll since; it never persists across a read
/// that agrees with the stable level again.
pub proof fn lemma_disturbance_origin(
    state: DebouncedInputState,
    inputs: Seq<(bool, u64)>,
    window: Duration,
)
    requires
        state is FixedLow || state is FixedHigh,
    ensures
        debounce_run(state, inputs, window) matches Ok(s) ==> match s {
            DebouncedInputState::RiseDisturbance(t) => exists|k: int| rise_origin(inputs, k, t),
            DebouncedInputState::FallDisturbance(t) => exists|k: int| fall_origin(inputs, k, t),
            _ => true,
        },
    decreases inputs.len(),
{
    if inputs.len() == 0 {
        return;
    }
    let pre = inputs.drop_last();
    let raw = inputs.last().0;
    let now = inputs.last().1;
    lemma_disturbance_origin(state, pre, window);
    if debounce_run(state, inputs, window) is Ok {
        let s = debounce_run(state, inputs, window)->Ok_0;
        let s_pre = debounce_run(state, pre, window)->Ok_0;
        match s {
            DebouncedInputState::RiseDisturbance(t) => {
                if s_pre is RiseDisturbance {
                    // the disturbance persisted: extend its origin by this poll
                    let k = choose|k: int| rise_origin(pre, k, t);
                    assert(rise_origin(inputs, k, t)) by {
                        assert forall|m: int| k <= m < inputs.len() implies (
                        #[trigger] inputs[m]).0 by {
                            if m < pre.len() {
                                assert(pre[m].0);
                            }
                        }
                    }
                } else {
                    // the disturbance opened at this very poll
                    assert(rise_origin(inputs, inputs.len() - 1, t));
                }
            },
            DebouncedInputState::FallDisturbance(t) => {
                if s_pre is FallDisturbance {
                    let k = choose|k: int| fall_origin(pre, k, t);
                    assert(fall_origin(inputs, k, t)) by {
                        assert forall|m: int| k <= m < inputs.len() implies !(
                        #[trigger] inputs[m]).0 by {
                            if m < pre.len() {
                                assert(!pre[m].0);
                            }
                        }
                    }
                } else {
                    assert(fall_origin(inputs, inputs.len() - 1, t));
                }
            },
            _ => {},
        }
    }
}

/// Law (debounce invariant, rising side): starting from a stable level, a
/// run reports `Rise` at poll `i` only if the raw input read active at
/// every poll from some earlier poll `k` through `i`, with no reversal in
/// between, and at least the debounce window passed between the ticks of
/// polls `k` and `i`.
pub proof fn lemma_rise_requires_sustained_high(
    state: DebouncedInputState,
    inputs: Seq<(bool, u64)>,
    window: Duration,
    i: int,
)
    requires
        state is FixedLow || state is FixedHigh,
        0 <= i < inputs.len(),
        debounce_step_at(state, inputs, window, i) matches Ok(p) && p.1 is Rise,
    ensures
        exists|k: int| sustained_high(inputs, k, i, window),
{
    let taken = inputs.take(i);
    let s_i = debounce_run(state, taken, window)->Ok_0;
    let t = s_i->RiseDisturbance_0;
    lemma_disturbance_origin(state, taken, window);
    let k = choose|k: int| rise_origin(taken, k, t);
    assert(sustained_high(inputs, k, i, window)) by {
        assert forall|m: int| k <= m <= i implies (#[trigger] inputs[m]).0 by {
            if m < i {
                assert(taken[m].0);
            }
        }
    }
}

/// Law (debounce invariant, falling side): starting from a stable level, a
/// run reports `Fall` at poll `i` only if the raw input read inactive at
/// every poll from some earlier poll `k` through `i`, with no reversal in
/// between, and at least the debounce window passed between the ticks of
/// polls `k` and `i`.
pub proof fn lemma_fall_requires_sustained_low(
    state: DebouncedInputState,
    inputs: Seq<(bool, u64)>,
    window: Duration,
    i: int,
)
    requires
        state is FixedLow || state is FixedHigh,
        0 <= i < inputs.len(),
        debounce_step_at(state, inputs, window, i) matches Ok(p) && p.1 is Fall,
    ensures
        exists|k: int| sustained_low(inputs, k, i, window),
{
    let taken = inputs.take(i);
    let s_i = debounce_run(state, taken, window)->Ok_0;
    let t = s_i->FallDisturbance_0;
    lemma_disturbance_origin(state, taken, window);
    let k = choose|k: int| fall_origin(taken, k, t);
    assert(sustained_low(inputs, k, i, window)) by {
        assert forall|m: int| k <= m <= i implies !(#[trigger] inputs[m]).0 by {
            if m < i {
                assert(!taken[m].0);
            }
        }
    }
}

/// Law (debounce invariant): the reported stable level never changes
/// silently; a poll that changes the debounced level reports the matching
/// edge event.
pub proof fn lemma_stable_change_is_edge(
    state: DebouncedInputState,
    raw: bool,
    now: u64,
    window: Duration,
)
    ensures
        debounce_step(state, raw, now, window) matches Ok(p) ==> (stable_high(p.0)
            != stable_high(state) ==> (p.1 is Rise || p.1 is Fall)),
        debounce_step(state, raw, now, window) matches Ok(p) ==> (p.1 is Rise ==> !stable_high(
            state,
        ) && stable_high(p.0)),
        debounce_step(state, raw, now, window) matches Ok(p) ==> (p.1 is Fall ==> stable_high(
            state,
        ) && !stable_high(p.0)),
        debounce_step(state, raw, now, window) matches Ok(p) ==> (p.1 is High ==> stable_high(
            p.0,
        ) && stable_high(state)),
        debounce_step(state, raw, now, window) matches Ok(p) ==> (p.1 is Low ==> !stable_high(
            p.0,
        ) && !stable_high(state)),
{
}

/// Law (idempotence): once the machine is settled at a stable level and
/// the raw input keeps agreeing with it, a whole run of further polls
/// leaves the state unchanged, whatever the timestamps.
pub proof fn lemma_settled_state_unchanged(
    state: DebouncedInputState,
    inputs: Seq<(bool, u64)>,
    window: Duration,
    level: bool,
)
    requires
        state == (if level {
            DebouncedInputState::FixedHigh
        } else {
            DebouncedInputState::FixedLow
        }),
        forall|m: int| 0 <= m < inputs.len() ==> (#[trigger] inputs[m]).0 == level,
    ensures
        debounce_run(state, inputs, window) == Ok::<_, TimeError>(state),
    decreases inputs.len(),
{
    if inputs.len() > 0 {
        let pre = inputs.drop_last();
        assert(forall|m: int| 0 <= m < pre.len() ==> (#[trigger] pre[m]).0 == level);
        lemma_settled_state_unchanged(state, pre, window, level);
    }
}

/// Law (idempotence): once the machine is settled at a stable level and
/// the raw input keeps agreeing with it, every poll of a run reports the
/// same stable event, whatever the timestamps.
pub proof fn lemma_settled_reports_same_event(
    state: DebouncedInputState,
    inputs: Seq<(bool, u64)>,
    window: Duration,
    level: bool,
    i: int,
)
    requires
        state == (if level {
            DebouncedInputState::FixedHigh
        } else {
            DebouncedInputState::FixedLow
        }),
        forall|m: int| 0 <= m < inputs.len() ==> (#[trigger] inputs[m]).0 == level,
        0 <= i < inputs.len(),
    ensures
        debounce_step_at(state, inputs, window, i) == Ok::<_, TimeError>(
            (
                state,
                if level {
                    DebouncedInputEvent::High
                } else {
                    DebouncedInputEvent::Low
                },
            ),
        ),
{
    let taken = inputs.take(i);
    assert(forall|m: int| 0 <= m < taken.len() ==> (#[trigger] taken[m]).0 == level);
    lemma_settled_state_unchanged(state, taken, window, level);
}

} // verus!
