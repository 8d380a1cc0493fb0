use embedded_controls::{
    Control, DebouncedInput, DebouncedInputConfig, DebouncedInputEvent, Duration, Error,
    InputSwitch, TimeError,
};

struct MockInputSwitch {
    state_results: Vec<Result<bool, &'static str>>,
    index: usize,
}

impl MockInputSwitch {
    fn new(state_results: &[Result<bool, &'static str>]) -> Self {
        MockInputSwitch { state_results: state_results.to_vec(), index: 0 }
    }
}

impl InputSwitch for MockInputSwitch {
    type Error = &'static str;

    fn is_active(&mut self) -> Result<bool, &'static str> {
        let result = self.state_results[self.index];
        self.index += 1;
        result
    }
}

fn test_debounced_input(
    state_results: &[Result<bool, &'static str>],
    window: u64,
) -> DebouncedInput<MockInputSwitch> {
    DebouncedInput::new(
        MockInputSwitch::new(state_results),
        DebouncedInputConfig { debounce: Duration { ticks: window } },
    )
}

#[test]
fn debounced_input_success() {
    let state_results = [
        Ok(false),
        Ok(true),
        Ok(true),
        Ok(true),
        Ok(true),
        Ok(true),
        Ok(false),
        Ok(false),
        Ok(false),
        Ok(false),
        Ok(false),
    ];

    let mut debounced_input = test_debounced_input(&state_results, 3);
    let mut now: u64 = 0;

    for _ in 0..3 {
        now += 1;
        assert_eq!(debounced_input.update(now), Ok(DebouncedInputEvent::Low));
        assert!(!debounced_input.is_high());
    }

    now += 1;
    assert_eq!(debounced_input.update(now), Ok(DebouncedInputEvent::Rise));
    assert!(debounced_input.is_high());

    for _ in 0..4 {
        now += 1;
        assert_eq!(debounced_input.update(now), Ok(DebouncedInputEvent::High));
        assert!(debounced_input.is_high());
    }

    now += 1;
    assert_eq!(debounced_input.update(now), Ok(DebouncedInputEvent::Fall));
    assert!(!debounced_input.is_high());

    now += 1;
    assert_eq!(debounced_input.update(now), Ok(DebouncedInputEvent::Low));
    assert!(!debounced_input.is_high());
}

#[test]
fn debounced_input_success_with_bounce() {
    let state_results = [
        Ok(false),
        Ok(true),
        Ok(false),
        Ok(true),
        Ok(true),
        Ok(true),
        Ok(true),
        Ok(true),
        Ok(false),
        Ok(true),
        Ok(false),
        Ok(false),
        Ok(false),
        Ok(false),
        Ok(false),
    ];

    let mut debounced_input = test_debounced_input(&state_results, 3);
    let mut now: u64 = 0;

    for _ in 0..5 {
        now += 1;
        assert_eq!(debounced_input.update(now), Ok(DebouncedInputEvent::Low));
        assert!(!debounced_input.is_high());
        assert!(debounced_input.is_low());
    }

    now += 1;
    assert_eq!(debounced_input.update(now), Ok(DebouncedInputEvent::Rise));
    assert!(debounced_input.is_high());
    assert!(!debounced_input.is_low());

    for _ in 0..6 {
        now += 1;
        assert_eq!(debounced_input.update(now), Ok(DebouncedInputEvent::High));
        assert!(debounced_input.is_high());
        assert!(!debounced_input.is_low());
    }

    now += 1;
    assert_eq!(debounced_input.update(now), Ok(DebouncedInputEvent::Fall));
    assert!(!debounced_input.is_high());
    assert!(debounced_input.is_low());

    now += 1;
    assert_eq!(debounced_input.update(now), Ok(DebouncedInputEvent::Low));
    assert!(!debounced_input.is_high());
    assert!(debounced_input.is_low());
}

#[test]
fn debounced_input_error() {
    let state_results = [Ok(false), Err("Some error"), Ok(true)];

    let mut debounced_input = test_debounced_input(&state_results, 3);

    assert_eq!(debounced_input.update(1), Err(Error::InputSwitch("Some error")));

    assert!(!debounced_input.is_high());
    assert!(debounced_input.is_low());

    assert_eq!(debounced_input.update(2), Ok(DebouncedInputEvent::Low));
    assert!(!debounced_input.is_high());
    assert!(debounced_input.is_low());
}

#[test]
fn debounced_input_window_scenario() {
    let state_results = [
        Ok(false),
        Ok(false),
        Ok(true),
        Ok(true),
        Ok(true),
        Ok(true),
        Ok(true),
        Ok(false),
        Ok(false),
        Ok(false),
        Ok(false),
        Ok(false),
    ];
    let expected = [
        DebouncedInputEvent::Low,
        DebouncedInputEvent::Low,
        DebouncedInputEvent::Low,
        DebouncedInputEvent::Low,
        DebouncedInputEvent::Rise,
        DebouncedInputEvent::High,
        DebouncedInputEvent::High,
        DebouncedInputEvent::High,
        DebouncedInputEvent::High,
        DebouncedInputEvent::Fall,
        DebouncedInputEvent::Low,
    ];

    let mut debounced_input = test_debounced_input(&state_results, 3);

    for (tick, event) in expected.iter().enumerate() {
        let now = tick as u64 + 1;
        assert_eq!(debounced_input.update(now), Ok(*event));
    }
}

#[test]
fn debounced_input_bounce_scenario() {
    let state_results = [
        Ok(false),
        Ok(false),
        Ok(true),
        Ok(false),
        Ok(true),
        Ok(true),
        Ok(true),
        Ok(true),
        Ok(true),
        Ok(false),
        Ok(true),
        Ok(false),
        Ok(false),
        Ok(false),
        Ok(false),
        Ok(false),
    ];
    let expected = [
        DebouncedInputEvent::Low,
        DebouncedInputEvent::Low,
        DebouncedInputEvent::Low,
        DebouncedInputEvent::Low,
        DebouncedInputEvent::Low,
        DebouncedInputEvent::Low,
        DebouncedInputEvent::Rise,
        DebouncedInputEvent::High,
        DebouncedInputEvent::High,
        DebouncedInputEvent::High,
        DebouncedInputEvent::High,
        DebouncedInputEvent::High,
        DebouncedInputEvent::High,
        DebouncedInputEvent::Fall,
        DebouncedInputEvent::Low,
    ];

    let mut debounced_input = test_debounced_input(&state_results, 3);

    for (tick, event) in expected.iter().enumerate() {
        let now = tick as u64 + 1;
        assert_eq!(debounced_input.update(now), Ok(*event));
    }
}

#[test]
fn debounced_input_time_error() {
    let state_results = [Ok(false), Ok(true), Ok(true), Ok(true)];

    let mut debounced_input = test_debounced_input(&state_results, 1);

    assert_eq!(debounced_input.update(5), Ok(DebouncedInputEvent::Low));
    // the clock runs backwards past the disturbance start: the comparison
    // fails and the machine is left where it was
    assert_eq!(debounced_input.update(3), Err(Error::ElapsedTimer(TimeError)));
    assert_eq!(debounced_input.update(6), Ok(DebouncedInputEvent::Rise));
}

#[test]
fn debounced_input_through_control() {
    fn advance<C: Control>(control: &mut C, now: u64) -> Result<C::Event, C::Error> {
        control.update(now)
    }

    let state_results = [Ok(false), Ok(true), Ok(true)];
    let mut debounced_input = test_debounced_input(&state_results, 1);

    assert_eq!(advance(&mut debounced_input, 1), Ok(DebouncedInputEvent::Low));
    assert_eq!(advance(&mut debounced_input, 2), Ok(DebouncedInputEvent::Rise));
}

#[test]
fn debounced_input_release_switch() {
    let state_results = [Ok(true), Ok(true)];

    let debounced_input = test_debounced_input(&state_results, 2);
    assert!(debounced_input.is_high());
    assert!(debounced_input.borrow_input_switch().state_results.len() == 2);

    let mut input_switch = debounced_input.release_input_switch();
    assert_eq!(input_switch.is_active(), Ok(true));
}
