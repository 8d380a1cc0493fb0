//! The button gesture recognizer: interprets stable level transitions of
//! one debounced input, plus elapsed time, into press, click, double-click
//! and hold events.

use crate::debounced_input::{
    debounce_step, debounce_step_exec, stable_high, DebouncedInput, DebouncedInputConfig,
    DebouncedInputEvent, DebouncedInputState,
};
use crate::duration::{Duration, TimeError};
use crate::error::Error;
use crate::{Control, InputSwitch};
use vstd::arithmetic::div_mod::{lemma_fundamental_div_mod, lemma_fundamental_div_mod_converse};
use vstd::prelude::*;

verus! {

/// Hold detection: a press that stays active for `capture` becomes a hold,
/// which then ticks once per `period` until release.
#[derive(Clone, Copy, Debug, PartialEq, Eq, Structural)]
pub struct HoldConfig {
    pub capture: Duration,
    pub period: Duration,
}

/// Double-click detection: a press no longer than `max_press` completes a
/// click, and two such clicks at most `max_gap` apart pair into a double
/// click.
#[derive(Clone, Copy, Debug, PartialEq, Eq, Structural)]
pub struct DoubleClickConfig {
    pub max_press: Duration,
    pub max_gap: Duration,
}

/// Configuration of a [`Button`]: the debounce window of the wrapped
/// input, and the optional hold and double-click features. Leaving both
/// options out degrades the machine to simple press/click reporting.
#[derive(Clone, Copy, Debug, PartialEq, Eq)]
pub struct ButtonConfig {
    pub debounce: Duration,
    pub hold: Option<HoldConfig>,
    pub double_click: Option<DoubleClickConfig>,
}

/// The event result of one [`Button`] update.
#[derive(Clone, Copy, Debug, PartialEq, Eq, Structural)]
pub enum ButtonEvent {
    /// Nothing happened during this poll.
    Idle,
    /// The button was pressed down.
    Pressed,
    /// A completed click: a short press whose double-click gap, if any,
    /// expired unmatched.
    Clicked,
    /// Two short presses paired within the double-click gap.
    DoubleClicked,
    /// The press has stayed active for the capture duration; a hold began.
    HoldStarted,
    /// The hold continues, but the hold period has not elapsed yet.
    HoldIdle,
    /// The hold continues and another hold period has elapsed.
    HoldTick,
    /// The hold ended: the input was released.
    HoldFinished,
}

/// The recognizer sub-state of [`Button`], layered on the debounced level.
///
/// A press records the tick it began at and whether a completed click is
/// already pending for double-click pairing (at most one click is ever
/// outstanding). A hold records the tick of its last hold event. A
/// released click waiting for a possible second press records the tick of
/// its release.
#[derive(Clone, Copy, Debug, PartialEq, Eq, Structural)]
pub enum ButtonState {
    /// Released, nothing pending.
    Idle,
    /// Pressed since the given tick; `true` when a prior click is pending.
    Pressed(u64, bool),
    /// Holding; the last hold event (start or tick) was at the given tick.
    Hold(u64),
    /// Released after a short press at the given tick, waiting for the
    /// double-click gap to either pair a second press or expire.
    DoubleClick(u64),
}

/// One poll of the recognizer as a mathematical function: from the current
/// sub-state, the debounced event of this poll and the current tick, to
/// the next sub-state and the reported button event.
///
/// Policy choices this function fixes, where the feature set leaves room:
/// a press that outlasts `max_press` is still reported as a single click
/// on release, but never pairs into a double click; a second press that
/// turns into a hold cancels the pending click; and a press that begins on
/// the very poll an unmatched gap expires reports the matured click, the
/// new press's own `Pressed` event being superseded.
pub open spec fn button_step(
    state: ButtonState,
    event: DebouncedInputEvent,
    now: u64,
    hold: Option<HoldConfig>,
    double_click: Option<DoubleClickConfig>,
) -> Result<(ButtonState, ButtonEvent), TimeError> {
    match state {
        ButtonState::Idle => match event {
            DebouncedInputEvent::Rise => Ok(
                (ButtonState::Pressed(now, false), ButtonEvent::Pressed),
            ),
            _ => Ok((ButtonState::Idle, ButtonEvent::Idle)),
        },
        ButtonState::Pressed(since, pending) => match event {
            DebouncedInputEvent::High => match hold {
                Some(h) => match h.capture.spec_is_elapsed(since, now) {
                    Err(e) => Err(e),
                    Ok(true) => Ok((ButtonState::Hold(now), ButtonEvent::HoldStarted)),
                    Ok(false) => Ok((state, ButtonEvent::Idle)),
                },
                None => Ok((state, ButtonEvent::Idle)),
            },
            DebouncedInputEvent::Fall => match double_click {
                Some(d) => match d.max_press.spec_is_elapsed(since, now) {
                    Err(e) => Err(e),
                    Ok(true) => Ok((ButtonState::Idle, ButtonEvent::Clicked)),
                    Ok(false) => {
                        if pending {
                            Ok((ButtonState::Idle, ButtonEvent::DoubleClicked))
                        } else {
                            Ok((ButtonState::DoubleClick(now), ButtonEvent::Idle))
                        }
                    },
                },
                None => Ok((ButtonState::Idle, ButtonEvent::Clicked)),
            },
            // unreachable while paired with the debouncer: a pressed button
            // sits at a high debounced level, which yields High or Fall
            DebouncedInputEvent::Rise => Ok((state, ButtonEvent::Idle)),
            DebouncedInputEvent::Low => Ok((ButtonState::Idle, ButtonEvent::Idle)),
        },
        ButtonState::Hold(last) => match event {
            DebouncedInputEvent::High => match hold {
                Some(h) => match h.period.spec_is_elapsed(last, now) {
                    Err(e) => Err(e),
                    Ok(true) => Ok((ButtonState::Hold(now), ButtonEvent::HoldTick)),
                    Ok(false) => Ok((state, ButtonEvent::HoldIdle)),
                },
                // unreachable: a hold only begins when hold is configured
                None => Ok((state, ButtonEvent::HoldIdle)),
            },
            DebouncedInputEvent::Fall => Ok((ButtonState::Idle, ButtonEvent::HoldFinished)),
            // unreachable, as above
            DebouncedInputEvent::Rise => Ok((state, ButtonEvent::HoldIdle)),
            DebouncedInputEvent::Low => Ok((ButtonState::Idle, ButtonEvent::Idle)),
        },
        ButtonState::DoubleClick(released) => match event {
            DebouncedInputEvent::Rise => match double_click {
                Some(d) => match d.max_gap.spec_is_elapsed(released, now) {
                    Err(e) => Err(e),
                    Ok(true) => Ok((ButtonState::Pressed(now, false), ButtonEvent::Clicked)),
                    Ok(false) => Ok((ButtonState::Pressed(now, true), ButtonEvent::Pressed)),
                },
                // unreachable: this state only arises with double_click set
                None => Ok((ButtonState::Pressed(now, false), ButtonEvent::Pressed)),
            },
            DebouncedInputEvent::Low => match double_click {
                Some(d) => match d.max_gap.spec_is_elapsed(released, now) {
                    Err(e) => Err(e),
                    Ok(true) => Ok((ButtonState::Idle, ButtonEvent::Clicked)),
                    Ok(false) => Ok((state, ButtonEvent::Idle)),
                },
                // unreachable, as above
                None => Ok((ButtonState::Idle, ButtonEvent::Idle)),
            },
            // unreachable: the debounced level is low while waiting here
            DebouncedInputEvent::High => Ok((state, ButtonEvent::Idle)),
            DebouncedInputEvent::Fall => Ok((ButtonState::Idle, ButtonEvent::Idle)),
        },
    }
}

/// Executable form of [`button_step`].
pub fn button_step_exec(
    state: ButtonState,
    event: DebouncedInputEvent,
    now: u64,
    hold: Option<HoldConfig>,
    double_click: Option<DoubleClickConfig>,
) -> (r: Result<(ButtonState, ButtonEvent), TimeError>)
    ensures
        r == button_step(state, event, now, hold, double_click),
{
    match state {
        ButtonState::Idle => match event {
            DebouncedInputEvent::Rise => Ok(
                (ButtonState::Pressed(now, false), ButtonEvent::Pressed),
            ),
            _ => Ok((ButtonState::Idle, ButtonEvent::Idle)),
        },
        ButtonState::Pressed(since, pending) => match event {
            DebouncedInputEvent::High => match hold {
                Some(h) => match h.capture.is_elapsed(since, now) {
                    Err(e) => Err(e),
                    Ok(true) => Ok((ButtonState::Hold(now), ButtonEvent::HoldStarted)),
                    Ok(false) => Ok((state, ButtonEvent::Idle)),
                },
                None => Ok((state, ButtonEvent::Idle)),
            },
            DebouncedInputEvent::Fall => match double_click {
                Some(d) => match d.max_press.is_elapsed(since, now) {
                    Err(e) => Err(e),
                    Ok(true) => Ok((ButtonState::Idle, ButtonEvent::Clicked)),
                    Ok(false) => {
                        if pending {
                            Ok((ButtonState::Idle, ButtonEvent::DoubleClicked))
                        } else {
                            Ok((ButtonState::DoubleClick(now), ButtonEvent::Idle))
                        }
                    },
                },
                None => Ok((ButtonState::Idle, ButtonEvent::Clicked)),
            },
            DebouncedInputEvent::Rise => Ok((state, ButtonEvent::Idle)),
            DebouncedInputEvent::Low => Ok((ButtonState::Idle, ButtonEvent::Idle)),
        },
        ButtonState::Hold(last) => match event {
            DebouncedInputEvent::High => match hold {
                Some(h) => match h.period.is_elapsed(last, now) {
                    Err(e) => Err(e),
                    Ok(true) => Ok((ButtonState::Hold(now), ButtonEvent::HoldTick)),
                    Ok(false) => Ok((state, ButtonEvent::HoldIdle)),
                },
                None => Ok((state, ButtonEvent::HoldIdle)),
            },
            DebouncedInputEvent::Fall => Ok((ButtonState::Idle, ButtonEvent::HoldFinished)),
            DebouncedInputEvent::Rise => Ok((state, ButtonEvent::HoldIdle)),
            DebouncedInputEvent::Low => Ok((ButtonState::Idle, ButtonEvent::Idle)),
        },
        ButtonState::DoubleClick(released) => match event {
            DebouncedInputEvent::Rise => match double_click {
                Some(d) => match d.max_gap.is_elapsed(released, now) {
                    Err(e) => Err(e),
                    Ok(true) => Ok((ButtonState::Pressed(now, false), ButtonEvent::Clicked)),
                    Ok(false) => Ok((ButtonState::Pressed(now, true), ButtonEvent::Pressed)),
                },
                None => Ok((ButtonState::Pressed(now, false), ButtonEvent::Pressed)),
            },
            DebouncedInputEvent::Low => match double_click {
                Some(d) => match d.max_gap.is_elapsed(released, now) {
                    Err(e) => Err(e),
                    Ok(true) => Ok((ButtonState::Idle, ButtonEvent::Clicked)),
                    Ok(false) => Ok((state, ButtonEvent::Idle)),
                },
                None => Ok((ButtonState::Idle, ButtonEvent::Idle)),
            },
            DebouncedInputEvent::High => Ok((state, ButtonEvent::Idle)),
            DebouncedInputEvent::Fall => Ok((ButtonState::Idle, ButtonEvent::Idle)),
        },
    }
}

/// One whole button poll as a mathematical function: the debouncer
/// advances first, then the recognizer interprets its event; the first
/// error wins and nothing advances.
pub open spec fn button_machine_step(
    input_state: DebouncedInputState,
    state: ButtonState,
    raw: bool,
    now: u64,
    debounce: Duration,
    hold: Option<HoldConfig>,
    double_click: Option<DoubleClickConfig>,
) -> Result<(DebouncedInputState, ButtonState, ButtonEvent), TimeError> {
    match debounce_step(input_state, raw, now, debounce) {
        Err(e) => Err(e),
        Ok((next_input, event)) => match button_step(state, event, now, hold, double_click) {
            Err(e) => Err(e),
            Ok((next, button_event)) => Ok((next_input, next, button_event)),
        },
    }
}

/// Concrete implementation of a button: one debounced input plus the
/// gesture recognizer over it.
pub struct Button<Switch: InputSwitch> {
    pub debounced_input: DebouncedInput<Switch>,
    pub state: ButtonState,
    pub hold: Option<HoldConfig>,
    pub double_click: Option<DoubleClickConfig>,
}

impl<Switch: InputSwitch> Button<Switch> {
    /// Creates a new [`Button`] around a concrete `Switch`.
    pub fn new(input_switch: Switch, config: ButtonConfig) -> (r: Self)
        ensures
            r.state == ButtonState::Idle,
            r.debounced_input.config.debounce == config.debounce,
            r.debounced_input.state == DebouncedInputState::FixedLow
                || r.debounced_input.state == DebouncedInputState::FixedHigh,
            r.hold == config.hold,
            r.double_click == config.double_click,
    {
        Button {
            debounced_input: DebouncedInput::new(
                input_switch,
                DebouncedInputConfig { debounce: config.debounce },
            ),
            state: ButtonState::Idle,
            hold: config.hold,
            double_click: config.double_click,
        }
    }

    /// Returns whether the debounced level reads the button as pressed.
    pub fn is_pressed(&self) -> (r: bool)
        ensures
            r == stable_high(self.debounced_input.state),
    {
        self.debounced_input.is_high()
    }

    /// Returns whether the debounced level reads the button as released.
    pub fn is_released(&self) -> (r: bool)
        ensures
            r == !stable_high(self.debounced_input.state),
    {
        self.debounced_input.is_low()
    }

    /// Returns whether the recognizer is currently in a hold.
    pub fn is_holding(&self) -> (r: bool)
        ensures
            r == (self.state is Hold),
    {
        match self.state {
            ButtonState::Hold(_) => true,
            _ => false,
        }
    }

    /// Advances the button one poll against the current tick.
    ///
    /// On success, the new debouncer state, the new recognizer state and
    /// the reported event are exactly [`button_machine_step`] of the old
    /// states under the raw level that was read. On any error both states
    /// are left unchanged; a time error moreover certifies that
    /// [`button_machine_step`] itself failed for the level that was read.
    pub fn update(&mut self, now: u64) -> (r: Result<ButtonEvent, Error<Switch::Error>>)
        ensures
            final(self).debounced_input.config == old(self).debounced_input.config,
            final(self).hold == old(self).hold,
            final(self).double_click == old(self).double_click,
            match r {
                Ok(event) => exists|raw: bool|
                    #[trigger] button_machine_step(
                        old(self).debounced_input.state,
                        old(self).state,
                        raw,
                        now,
                        old(self).debounced_input.config.debounce,
                        old(self).hold,
                        old(self).double_click,
                    ) == Ok::<_, TimeError>(
                        (final(self).debounced_input.state, final(self).state, event),
                    ),
                Err(e) => final(self).debounced_input.state == old(self).debounced_input.state
                    && final(self).state == old(self).state && match e {
                    Error::ElapsedTimer(te) => exists|raw: bool|
                        #[trigger] button_machine_step(
                            old(self).debounced_input.state,
                            old(self).state,
                            raw,
                            now,
                            old(self).debounced_input.config.debounce,
                            old(self).hold,
                            old(self).double_click,
                        ) == Err::<(DebouncedInputState, ButtonState, ButtonEvent), TimeError>(te),
                    Error::InputSwitch(_) => true,
                },
            },
    {
        let raw = match self.debounced_input.read_raw() {
            Ok(b) => b,
            Err(e) => {
                return Err(Error::InputSwitch(e));
            },
        };
        let (next_input, event) = match debounce_step_exec(
            self.debounced_input.state,
            raw,
            now,
            self.debounced_input.config.debounce,
        ) {
            Ok(p) => p,
            Err(te) => {
                proof {
                    assert(button_machine_step(
                        self.debounced_input.state,
                        self.state,
                        raw,
                        now,
                        self.debounced_input.config.debounce,
                        self.hold,
                        self.double_click,
                    ) == Err::<(DebouncedInputState, ButtonState, ButtonEvent), TimeError>(te));
                }
                return Err(Error::ElapsedTimer(te));
            },
        };
        let (next, button_event) = match button_step_exec(
            self.state,
            event,
            now,
            self.hold,
            self.double_click,
        ) {
            Ok(p) => p,
            Err(te) => {
                proof {
                    assert(button_machine_step(
                        self.debounced_input.state,
                        self.state,
                        raw,
                        now,
                        self.debounced_input.config.debounce,
                        self.hold,
                        self.double_click,
                    ) == Err::<(DebouncedInputState, ButtonState, ButtonEvent), TimeError>(te));
                }
                return Err(Error::ElapsedTimer(te));
            },
        };
        proof {
            assert(button_machine_step(
                self.debounced_input.state,
                self.state,
                raw,
                now,
                self.debounced_input.config.debounce,
                self.hold,
                self.double_click,
            ) == Ok::<_, TimeError>((next_input, next, button_event)));
        }
        self.debounced_input.state = next_input;
        self.state = next;
        Ok(button_event)
    }

    /// Borrows the wrapped `Switch`: a reference to the very switch the
    /// debounced input holds.
    pub fn borrow_input_switch(&self) -> (r: &Switch)
        ensures
            *r == self.debounced_input.input_switch,
    {
        self.debounced_input.borrow_input_switch()
    }

    /// Consumes `self` and releases the wrapped `Switch`: exactly the
    /// switch the debounced input held, unchanged.
    pub fn release_input_switch(self) -> (r: Switch)
        ensures
            r == self.debounced_input.input_switch,
    {
        self.debounced_input.release_input_switch()
    }
}

impl<Switch: InputSwitch> Control for Button<Switch> {
    type Event = ButtonEvent;

    type Error = Error<Switch::Error>;

    /// Trait-dispatched polling carries no contract; callers that need
    /// the verified one use the inherent `update`.
    fn update(&mut self, now: u64) -> Result<ButtonEvent, Error<Switch::Error>> {
        self.update(now)
    }
}

/// The recognizer state after a whole sequence of polls, each a pair of
/// the debounced event and the tick it arrived at, or the first error.
pub open spec fn button_run(
    state: ButtonState,
    inputs: Seq<(DebouncedInputEvent, u64)>,
    hold: Option<HoldConfig>,
    double_click: Option<DoubleClickConfig>,
) -> Result<ButtonState, TimeError>
    decreases inputs.len(),
{
    if inputs.len() == 0 {
        Ok(state)
    } else {
        match button_run(state, inputs.drop_last(), hold, double_click) {
            Err(e) => Err(e),
            Ok(s) => match button_step(s, inputs.last().0, inputs.last().1, hold, double_click) {
                Err(e) => Err(e),
                Ok(p) => Ok(p.0),
            },
        }
    }
}

/// How often a run reports the given event; polls past an error count
/// nothing.
pub open spec fn button_event_count(
    state: ButtonState,
    inputs: Seq<(DebouncedInputEvent, u64)>,
    hold: Option<HoldConfig>,
    double_click: Option<DoubleClickConfig>,
    target: ButtonEvent,
) -> int
    decreases inputs.len(),
{
    if inputs.len() == 0 {
        0
    } else {
        button_event_count(state, inputs.drop_last(), hold, double_click, target) + match
            button_run(state, inputs.drop_last(), hold, double_click) {
            Err(_) => 0,
            Ok(s) => match button_step(s, inputs.last().0, inputs.last().1, hold, double_click) {
                Err(_) => 0,
                Ok(p) => if p.1 == target {
                    1int
                } else {
                    0
                },
            },
        }
    }
}

/// A pressed button is due to enter a hold: the level still reads high
/// and the capture duration has elapsed since the press began.
pub open spec fn hold_start_due(
    state: ButtonState,
    event: DebouncedInputEvent,
    now: u64,
    hold: Option<HoldConfig>,
) -> bool {
    match (state, hold) {
        (ButtonState::Pressed(since, _), Some(h)) => event is High && now >= since && now - since
            >= h.capture.ticks,
        _ => false,
    }
}

/// A holding button is due for another periodic hold event: the level
/// still reads high and the period has elapsed since the last hold event.
pub open spec fn hold_tick_due(
    state: ButtonState,
    event: DebouncedInputEvent,
    now: u64,
    hold: Option<HoldConfig>,
) -> bool {
    match (state, hold) {
        (ButtonState::Hold(last), Some(h)) => event is High && now >= last && now - last
            >= h.period.ticks,
        _ => false,
    }
}

/// Law (hold timing): `HoldStarted` is reported exactly when a pressed
/// button reads a high level and the capture duration has elapsed since
/// the press began, and it moves the recognizer into `Hold`, stamped with
/// the current tick.
pub proof fn lemma_hold_started_characterization(
    state: ButtonState,
    event: DebouncedInputEvent,
    now: u64,
    hold: Option<HoldConfig>,
    double_click: Option<DoubleClickConfig>,
)
    ensures
        button_step(state, event, now, hold, double_click) matches Ok(p) ==> ((p.1
            is HoldStarted) <==> hold_start_due(state, event, now, hold)),
        button_step(state, event, now, hold, double_click) matches Ok(p) ==> (p.1 is HoldStarted
            ==> p.0 == ButtonState::Hold(now)),
{
}

/// Law (hold timing): `HoldFinished` is reported exactly when the level
/// falls while holding, and that poll returns the recognizer to `Idle`.
pub proof fn lemma_hold_finished_characterization(
    state: ButtonState,
    event: DebouncedInputEvent,
    now: u64,
    hold: Option<HoldConfig>,
    double_click: Option<DoubleClickConfig>,
)
    ensures
        button_step(state, event, now, hold, double_click) matches Ok(p) ==> ((p.1
            is HoldFinished) <==> (state is Hold && event is Fall)),
        button_step(state, event, now, hold, double_click) matches Ok(p) ==> (p.1 is HoldFinished
            ==> p.0 == ButtonState::Idle),
{
}

/// Law (hold timing): while holding at a high level, `HoldTick` is
/// reported exactly when the hold period has elapsed since the last hold
/// event, restamping the hold; otherwise the poll reports `HoldIdle` and
/// changes nothing.
pub proof fn lemma_hold_tick_spacing(
    state: ButtonState,
    event: DebouncedInputEvent,
    now: u64,
    hold: Option<HoldConfig>,
    double_click: Option<DoubleClickConfig>,
)
    ensures
        button_step(state, event, now, hold, double_click) matches Ok(p) ==> (state is Hold
            && event is High && hold is Some ==> ((p.1 is HoldTick <==> hold_tick_due(
            state,
            event,
            now,
            hold,
        )) && (p.1 is HoldTick ==> p.0 == ButtonState::Hold(now)) && (p.1 is HoldIdle ==> p.0
            == state))),
{
}

/// Law (hold timing): while the level stays high, a holding recognizer
/// keeps holding and reports only `HoldTick` or `HoldIdle`: in particular
/// no second `HoldStarted` and no `HoldFinished`.
pub proof fn lemma_holding_run(
    state: ButtonState,
    inputs: Seq<(DebouncedInputEvent, u64)>,
    hold: Option<HoldConfig>,
    double_click: Option<DoubleClickConfig>,
)
    requires
        state is Hold,
        forall|m: int| 0 <= m < inputs.len() ==> (#[trigger] inputs[m]).0 is High,
        button_run(state, inputs, hold, double_click) is Ok,
    ensures
        button_run(state, inputs, hold, double_click)->Ok_0 is Hold,
        button_event_count(state, inputs, hold, double_click, ButtonEvent::HoldStarted) == 0,
        button_event_count(state, inputs, hold, double_click, ButtonEvent::HoldFinished) == 0,
        button_event_count(state, inputs, hold, double_click, ButtonEvent::Pressed) == 0,
        button_event_count(state, inputs, hold, double_click, ButtonEvent::Clicked) == 0,
        button_event_count(state, inputs, hold, double_click, ButtonEvent::DoubleClicked) == 0,
    decreases inputs.len(),
{
    if inputs.len() > 0 {
        let pre = inputs.drop_last();
        assert(forall|m: int| 0 <= m < pre.len() ==> (#[trigger] pre[m]).0 is High);
        lemma_holding_run(state, pre, hold, double_click);
    }
}

/// Law (hold timing): one continuous press reports `HoldStarted` at most
/// once. Over any run of polls that all read a high level, a fresh press
/// either stays a press with no hold event at all, or becomes a hold with
/// exactly one `HoldStarted`; it reports no `HoldFinished`, no further
/// `Pressed` and no click either way.
pub proof fn lemma_one_hold_started_per_press(
    state: ButtonState,
    inputs: Seq<(DebouncedInputEvent, u64)>,
    hold: Option<HoldConfig>,
    double_click: Option<DoubleClickConfig>,
)
    requires
        state is Pressed,
        forall|m: int| 0 <= m < inputs.len() ==> (#[trigger] inputs[m]).0 is High,
        button_run(state, inputs, hold, double_click) is Ok,
    ensures
        button_run(state, inputs, hold, double_click)->Ok_0 is Pressed || button_run(
            state,
            inputs,
            hold,
            double_click,
        )->Ok_0 is Hold,
        button_event_count(state, inputs, hold, double_click, ButtonEvent::HoldStarted) == (
        if button_run(state, inputs, hold, double_click)->Ok_0 is Hold {
            1int
        } else {
            0
        }),
        button_event_count(state, inputs, hold, double_click, ButtonEvent::HoldFinished) == 0,
        button_event_count(state, inputs, hold, double_click, ButtonEvent::Pressed) == 0,
        button_event_count(state, inputs, hold, double_click, ButtonEvent::Clicked) == 0,
        button_event_count(state, inputs, hold, double_click, ButtonEvent::DoubleClicked) == 0,
    decreases inputs.len(),
{
    if inputs.len() > 0 {
        let pre = inputs.drop_last();
        assert(forall|m: int| 0 <= m < pre.len() ==> (#[trigger] pre[m]).0 is High);
        lemma_one_hold_started_per_press(state, pre, hold, double_click);
        if button_run(state, pre, hold, double_click)->Ok_0 is Hold {
            lemma_holding_run_extends(state, pre, inputs, hold, double_click);
        }
    }
}

/// Law (hold timing, dense polling): polled at every tick while the level
/// stays high, a hold last stamped at tick `th` reports exactly
/// `floor(k / P)` `HoldTick` events over the next `k` polls -- one at
/// each elapsed-period boundary and none in between -- and ends stamped
/// at the last boundary, `th + P * floor(k / P)`.
pub proof fn lemma_hold_tick_floor(
    th: u64,
    inputs: Seq<(DebouncedInputEvent, u64)>,
    h: HoldConfig,
    double_click: Option<DoubleClickConfig>,
)
    requires
        h.period.ticks >= 1,
        forall|m: int| 0 <= m < inputs.len() ==> ((#[trigger] inputs[m]).0 is High && inputs[m].1
            == th + 1 + m),
    ensures
        ({
            let p = h.period.ticks as int;
            let q = inputs.len() as int / p;
            &&& button_run(ButtonState::Hold(th), inputs, Some(h), double_click) == Ok::<
                _,
                TimeError,
            >(ButtonState::Hold((th + p * q) as u64))
            &&& button_event_count(
                ButtonState::Hold(th),
                inputs,
                Some(h),
                double_click,
                ButtonEvent::HoldTick,
            ) == q
        }),
    decreases inputs.len(),
{
    let p = h.period.ticks as int;
    let k = inputs.len() as int;
    if k == 0 {
        lemma_fundamental_div_mod_converse(0, p, 0, 0);
    } else {
        let pre = inputs.drop_last();
        assert(forall|m: int| 0 <= m < pre.len() ==> ((#[trigger] pre[m]).0 is High && pre[m].1
            == th + 1 + m));
        lemma_hold_tick_floor(th, pre, h, double_click);
        let q1 = (k - 1) / p;
        let r1 = (k - 1) % p;
        lemma_fundamental_div_mod(k - 1, p);
        assert(inputs[k - 1].1 == th + k);
        // the poll at tick th + k sees the stamp th + p * q1, so it is
        // r1 + 1 ticks into the current period
        if r1 + 1 == p {
            assert(k == (q1 + 1) * p + 0 && p * (q1 + 1) == p * q1 + p) by (nonlinear_arith)
                requires
                    k - 1 == p * q1 + r1,
                    r1 + 1 == p,
            ;
            lemma_fundamental_div_mod_converse(k, p, q1 + 1, 0);
        } else {
            assert(k == q1 * p + (r1 + 1)) by (nonlinear_arith)
                requires
                    k - 1 == p * q1 + r1,
            ;
            lemma_fundamental_div_mod_converse(k, p, q1, r1 + 1);
        }
    }
}

/// Law (hold timing): a continuous press followed by one release reports
/// `HoldStarted` and `HoldFinished` equally often: exactly once each if
/// the press turned into a hold before the release, and never otherwise.
pub proof fn lemma_press_release_balance(
    state: ButtonState,
    inputs: Seq<(DebouncedInputEvent, u64)>,
    hold: Option<HoldConfig>,
    double_click: Option<DoubleClickConfig>,
)
    requires
        state is Pressed,
        inputs.len() > 0,
        forall|m: int| 0 <= m < inputs.len() - 1 ==> (#[trigger] inputs[m]).0 is High,
        inputs.last().0 is Fall,
        button_run(state, inputs, hold, double_click) is Ok,
    ensures
        button_event_count(state, inputs, hold, double_click, ButtonEvent::HoldStarted)
            == button_event_count(state, inputs, hold, double_click, ButtonEvent::HoldFinished),
        button_event_count(state, inputs, hold, double_click, ButtonEvent::HoldStarted) <= 1,
{
    let pre = inputs.drop_last();
    assert(forall|m: int| 0 <= m < pre.len() ==> (#[trigger] pre[m]).0 is High);
    lemma_one_hold_started_per_press(state, pre, hold, double_click);
}

/// Law (recognizer invariant): the recognizer only presses or holds while
/// the debounced level is high, and leaving the active level always exits
/// a hold. One whole poll preserves the sync between the two layers.
pub proof fn lemma_button_level_sync(
    input_state: DebouncedInputState,
    state: ButtonState,
    raw: bool,
    now: u64,
    debounce: Duration,
    hold: Option<HoldConfig>,
    double_click: Option<DoubleClickConfig>,
)
    requires
        (state is Pressed || state is Hold) ==> stable_high(input_state),
    ensures
        button_machine_step(input_state, state, raw, now, debounce, hold, double_click) matches
            Ok(p) ==> ((p.1 is Pressed || p.1 is Hold) ==> stable_high(p.0)),
{
}

/// Helper: extending an all-high run that has reached `Hold` by one more
/// high poll keeps it in `Hold` and adds no counted gesture event.
proof fn lemma_holding_run_extends(
    state: ButtonState,
    pre: Seq<(DebouncedInputEvent, u64)>,
    inputs: Seq<(DebouncedInputEvent, u64)>,
    hold: Option<HoldConfig>,
    double_click: Option<DoubleClickConfig>,
)
    requires
        inputs.len() > 0,
        pre == inputs.drop_last(),
        inputs.last().0 is High,
        button_run(state, pre, hold, double_click) is Ok,
        button_run(state, pre, hold, double_click)->Ok_0 is Hold,
        button_run(state, inputs, hold, double_click) is Ok,
    ensures
        button_run(state, inputs, hold, double_click)->Ok_0 is Hold,
{
}

} // verus!

