use embedded_controls::{Duration, TimeError};

#[test]
fn duration_is_elapsed() {
    let window = Duration { ticks: 3 };

    assert_eq!(window.is_elapsed(2, 5), Ok(true));
    assert_eq!(window.is_elapsed(2, 6), Ok(true));
    assert_eq!(window.is_elapsed(2, 4), Ok(false));
    assert_eq!(window.is_elapsed(2, 2), Ok(false));
}

#[test]
fn duration_zero_always_elapsed() {
    let window = Duration { ticks: 0 };

    assert_eq!(window.is_elapsed(7, 7), Ok(true));
    assert_eq!(window.is_elapsed(7, 8), Ok(true));
}

#[test]
fn duration_non_monotonic_fails() {
    let window = Duration { ticks: 3 };

    assert_eq!(window.is_elapsed(5, 2), Err(TimeError));
}
