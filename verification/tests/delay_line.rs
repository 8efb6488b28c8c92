use program::delay::DelayLine;

#[test]
fn empty_line_passes_samples_straight_through() {
    let mut line = DelayLine::new();
    assert_eq!(line.len(), 0);
    assert_eq!(line.shift(42), 42);
    assert_eq!(line.shift(7), 7);
    assert_eq!(line.len(), 0);
}

#[test]
fn prefilled_line_delays_by_its_length() {
    let mut line = DelayLine::new();
    line.push(1);
    line.push(2);
    line.push(3);
    assert_eq!(line.len(), 3);
    let inputs = [10u32, 11, 12, 13, 14];
    let outputs: Vec<u32> = inputs.iter().map(|x| line.shift(*x)).collect();
    // the stream is 1, 2, 3, 10, 11, 12, 13, 14 cut to five samples
    assert_eq!(outputs, vec![1, 2, 3, 10, 11]);
    assert_eq!(line.len(), 3);
    // what stays cached is the rest of that stream
    assert_eq!(line.shift(0), 12);
    assert_eq!(line.shift(0), 13);
    assert_eq!(line.shift(0), 14);
    assert_eq!(line.shift(0), 0);
}

#[test]
fn float_samples_come_back_bit_for_bit() {
    let mut line = DelayLine::new();
    line.push(0.25f32.to_bits());
    let out = line.shift((-1.5f32).to_bits());
    assert_eq!(f32::from_bits(out), 0.25);
    assert_eq!(f32::from_bits(line.shift(0)), -1.5);
}
