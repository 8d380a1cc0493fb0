use embedded_controls::{
    Button, ButtonConfig, ButtonEvent, DoubleClickConfig, Duration, Error, HoldConfig,
    InputSwitch, TimeError,
};

struct MockInputSwitch {
    state_results: Vec<Result<bool, &'static str>>,
    index: usize,
}

impl MockInputSwitch {
    fn new(state_results: &[Result<bool, &'static str>]) -> Self {
        MockInputSwitch { state_results: state_results.to_vec(), index: 0 }
    }
}

impl InputSwitch for MockInputSwitch {
    type Error = &'static str;

    fn is_active(&mut self) -> Result<bool, &'static str> {
        let result = self.state_results[self.index];
        self.index += 1;
        result
    }
}

fn full_config() -> ButtonConfig {
    ButtonConfig {
        debounce: Duration { ticks: 1 },
        hold: Some(HoldConfig { capture: Duration { ticks: 5 }, period: Duration { ticks: 3 } }),
        double_click: Some(DoubleClickConfig {
            max_press: Duration { ticks: 3 },
            max_gap: Duration { ticks: 5 },
        }),
    }
}

fn test_button(
    state_results: &[Result<bool, &'static str>],
    config: ButtonConfig,
) -> Button<MockInputSwitch> {
    Button::new(MockInputSwitch::new(state_results), config)
}

#[test]
fn button_single_click() {
    let state_results = [
        Ok(false),
        Ok(true),
        Ok(true),
        Ok(false),
        Ok(false),
        Ok(false),
        Ok(false),
        Ok(false),
        Ok(false),
        Ok(false),
    ];
    let expected = [
        ButtonEvent::Idle,
        ButtonEvent::Pressed,
        ButtonEvent::Idle,
        ButtonEvent::Idle,
        ButtonEvent::Idle,
        ButtonEvent::Idle,
        ButtonEvent::Idle,
        ButtonEvent::Idle,
        // the double-click gap expires unmatched: the pending click matures
        ButtonEvent::Clicked,
    ];

    let mut button = test_button(&state_results, full_config());

    for (tick, event) in expected.iter().enumerate() {
        let now = tick as u64 + 1;
        assert_eq!(button.update(now), Ok(*event));
    }
    assert!(button.is_released());
}

#[test]
fn button_double_click() {
    let state_results = [
        Ok(false),
        Ok(true),
        Ok(true),
        Ok(false),
        Ok(false),
        Ok(true),
        Ok(true),
        Ok(false),
        Ok(false),
    ];
    let expected = [
        ButtonEvent::Idle,
        ButtonEvent::Pressed,
        ButtonEvent::Idle,
        ButtonEvent::Idle,
        ButtonEvent::Idle,
        ButtonEvent::Pressed,
        ButtonEvent::Idle,
        ButtonEvent::DoubleClicked,
    ];

    let mut button = test_button(&state_results, full_config());

    for (tick, event) in expected.iter().enumerate() {
        let now = tick as u64 + 1;
        assert_eq!(button.update(now), Ok(*event));
    }
}

#[test]
fn button_hold() {
    let state_results = [
        Ok(false),
        Ok(true),
        Ok(true),
        Ok(true),
        Ok(true),
        Ok(true),
        Ok(true),
        Ok(true),
        Ok(true),
        Ok(true),
        Ok(true),
        Ok(false),
        Ok(false),
    ];
    let expected = [
        ButtonEvent::Idle,
        ButtonEvent::Pressed,
        ButtonEvent::Idle,
        ButtonEvent::Idle,
        ButtonEvent::Idle,
        ButtonEvent::Idle,
        // the capture duration (5) has elapsed since the press at tick 2
        ButtonEvent::HoldStarted,
        ButtonEvent::HoldIdle,
        ButtonEvent::HoldIdle,
        // the hold period (3) has elapsed since the hold started at tick 7
        ButtonEvent::HoldTick,
        ButtonEvent::HoldIdle,
        ButtonEvent::HoldFinished,
    ];

    let mut button = test_button(&state_results, full_config());

    for (tick, event) in expected.iter().enumerate() {
        let now = tick as u64 + 1;
        assert_eq!(button.update(now), Ok(*event));
        if *event == ButtonEvent::HoldStarted || *event == ButtonEvent::HoldIdle || *event
            == ButtonEvent::HoldTick
        {
            assert!(button.is_holding());
            assert!(button.is_pressed());
        }
    }
    assert!(!button.is_holding());
    assert!(button.is_released());
}

#[test]
fn button_error_first_tick() {
    let state_results = [Ok(false), Err("Some error"), Ok(true), Ok(true)];

    let mut button = test_button(&state_results, full_config());

    // the failed poll surfaces the input error and changes nothing
    assert_eq!(button.update(1), Err(Error::InputSwitch("Some error")));
    assert!(button.is_released());
    assert!(!button.is_holding());

    // the next successful polls proceed as if the failed one never happened
    assert_eq!(button.update(2), Ok(ButtonEvent::Idle));
    assert_eq!(button.update(3), Ok(ButtonEvent::Pressed));
    assert!(button.is_pressed());
}

#[test]
fn button_time_error() {
    let state_results = [Ok(false), Ok(true), Ok(true), Ok(true)];

    let mut button = test_button(&state_results, full_config());

    assert_eq!(button.update(5), Ok(ButtonEvent::Idle));
    // the clock runs backwards past the disturbance start: the comparison
    // fails and the machine is left where it was
    assert_eq!(button.update(3), Err(Error::ElapsedTimer(TimeError)));
    assert_eq!(button.update(6), Ok(ButtonEvent::Pressed));
}

#[test]
fn button_features_disabled() {
    let config = ButtonConfig {
        debounce: Duration { ticks: 1 },
        hold: None,
        double_click: None,
    };
    let state_results = [
        Ok(false),
        Ok(true),
        Ok(true),
        Ok(true),
        Ok(true),
        Ok(true),
        Ok(true),
        Ok(true),
        Ok(false),
        Ok(false),
    ];
    let expected = [
        ButtonEvent::Idle,
        ButtonEvent::Pressed,
        // no hold detection: a long press stays a plain press
        ButtonEvent::Idle,
        ButtonEvent::Idle,
        ButtonEvent::Idle,
        ButtonEvent::Idle,
        ButtonEvent::Idle,
        ButtonEvent::Idle,
        // no double-click detection: the release clicks at once
        ButtonEvent::Clicked,
    ];

    let mut button = test_button(&state_results, config);

    for (tick, event) in expected.iter().enumerate() {
        let now = tick as u64 + 1;
        assert_eq!(button.update(now), Ok(*event));
        assert!(!button.is_holding());
    }
}

#[test]
fn button_long_press_clicks_once() {
    let config = ButtonConfig {
        debounce: Duration { ticks: 1 },
        hold: None,
        double_click: Some(DoubleClickConfig {
            max_press: Duration { ticks: 3 },
            max_gap: Duration { ticks: 5 },
        }),
    };
    let state_results = [
        Ok(false),
        Ok(true),
        Ok(true),
        Ok(true),
        Ok(true),
        Ok(true),
        Ok(false),
        Ok(false),
    ];
    let expected = [
        ButtonEvent::Idle,
        ButtonEvent::Pressed,
        ButtonEvent::Idle,
        ButtonEvent::Idle,
        ButtonEvent::Idle,
        ButtonEvent::Idle,
        // the press outlasted max_press (3): it clicks at once and never
        // pairs into a double click
        ButtonEvent::Clicked,
    ];

    let mut button = test_button(&state_results, config);

    for (tick, event) in expected.iter().enumerate() {
        let now = tick as u64 + 1;
        assert_eq!(button.update(now), Ok(*event));
    }
}

#[test]
fn button_release_switch() {
    let state_results = [Ok(false), Ok(false)];

    let button = test_button(&state_results, full_config());
    assert!(button.borrow_input_switch().state_results.len() == 2);

    let mut input_switch = button.release_input_switch();
    assert_eq!(input_switch.is_active(), Ok(false));
}
