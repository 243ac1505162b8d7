use surfpool::number::Number;

/// What reading a double as an unsigned integer means.
fn expected(value: f64) -> Option<u64> {
    if !value.is_finite() || value < 0.0 || value.fract() != 0.0 || value > u64::MAX as f64 {
        None
    } else {
        Some(value as u64)
    }
}

fn read(value: f64) -> Option<u64> {
    Number { bits: value.to_bits() }.to_u64()
}

#[test]
fn doubles_are_read_exactly() {
    let mut values: Vec<f64> = vec![
        0.0,
        -0.0,
        1.0,
        -1.0,
        0.5,
        1.5,
        2.0,
        3.0,
        10_000_000_000.0,
        4503599627370495.5,
        4503599627370496.0,
        9007199254740991.0,
        9007199254740992.0,
        1e19,
        1.8446744073709550e19,
        1.8446744073709552e19,
        1.8446744073709556e19,
        1e20,
        -1e20,
        1e300,
        1e-300,
        f64::MAX,
        f64::MIN_POSITIVE,
        f64::from_bits(1),
        f64::INFINITY,
        f64::NEG_INFINITY,
        f64::NAN,
    ];
    let mut state: u64 = 88172645463325252;
    for _ in 0..20000 {
        state ^= state << 13;
        state ^= state >> 7;
        state ^= state << 17;
        values.push(f64::from_bits(state));
        values.push((state >> (state % 64)) as f64);
        values.push((state >> (state % 64)) as f64 / 2.0);
    }
    for value in values {
        assert_eq!(read(value), expected(value), "{:?}", value);
    }
}

#[test]
fn the_double_above_the_largest_integer_is_read_as_it() {
    assert_eq!(read(18446744073709551616.0), Some(u64::MAX));
    assert_eq!(read(18446744073709555712.0), None);
    assert_eq!(read(-0.0), Some(0));
}

#[test]
fn integers_round_to_the_nearest_double() {
    let mut values: Vec<u64> = vec![
        0,
        1,
        2,
        3,
        (1 << 53) - 1,
        1 << 53,
        (1 << 53) + 1,
        (1 << 53) + 2,
        (1 << 53) + 3,
        (1 << 54) + 2,
        (1 << 54) + 6,
        u64::MAX,
        u64::MAX - 1023,
        u64::MAX - 1024,
        u64::MAX - 2048,
    ];
    let mut state: u64 = 2463534242;
    for _ in 0..20000 {
        state ^= state << 13;
        state ^= state >> 7;
        state ^= state << 17;
        values.push(state);
        values.push(state >> (state % 64));
    }
    for value in values {
        assert_eq!(Number::from_u64(value).bits, (value as f64).to_bits(), "{}", value);
        let signed = value as i64;
        assert_eq!(Number::from_i64(signed).bits, (signed as f64).to_bits(), "{}", signed);
    }
    assert_eq!(Number::from_i64(i64::MIN).bits, (i64::MIN as f64).to_bits());
    assert_eq!(Number::from_i64(-1).bits, (-1.0f64).to_bits());
}

#[test]
fn small_integers_survive_the_round_trip() {
    for value in [0u64, 1, 5000, 10_000_000_000, (1 << 53) - 1, 1 << 53] {
        assert_eq!(Number::from_u64(value).to_u64(), Some(value));
    }
}
