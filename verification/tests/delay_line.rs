use psg::DelayLine;

#[test]
fn delay_line_starts_filled() {
    let mut line = DelayLine::new(9i32);
    for i in 0..1024 {
        assert_eq!(line.push(i), 9);
    }
    assert_eq!(line.push(-1), 0);
}

#[test]
fn delay_line_returns_what_was_fed_1024_calls_earlier() {
    let mut line = DelayLine::new(0u32);
    for i in 0..5000u32 {
        let evicted = line.push(i + 1);
        let expected = if i < 1024 { 0 } else { i + 1 - 1024 };
        assert_eq!(evicted, expected);
    }
}

#[test]
fn delay_line_keeps_a_running_sum() {
    // The sum of the line's contents, kept as the moving average does.
    let mut line = DelayLine::new(0.0f64);
    let mut sum = 0.0f64;
    for _ in 0..1024 {
        let evicted = line.push(0.25);
        sum += -evicted + 0.25;
    }
    assert_eq!(sum, 256.0);
    for _ in 0..1024 {
        let evicted = line.push(0.25);
        sum += -evicted + 0.25;
    }
    assert_eq!(sum, 256.0);
}
