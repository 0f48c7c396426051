use two_sided_buckets::buckets::{Action, BucketError, BucketSpec, Event, Generator};

/// Drives the generator with real 64-bit floating-point arithmetic:
/// carries out each requested operation and answers with its result.
fn generate(
    start: f64,
    factor: f64,
    count_below: usize,
    count_above: usize,
) -> Result<Vec<f64>, BucketError> {
    let params = BucketSpec {
        start: start.to_bits(),
        factor: factor.to_bits(),
        count_below,
        count_above,
    };
    let (mut generator, mut action) = Generator::new(params);
    loop {
        let event = match action {
            Action::CheckParams { start, factor } => {
                Event::ParamsChecked(f64::from_bits(start) > 0.0 && f64::from_bits(factor) > 1.0)
            }
            Action::ScaleDown {
                start,
                factor,
                power,
            } => {
                let value = f64::from_bits(start) / f64::from_bits(factor).powi(power as i32);
                Event::Computed(value.to_bits())
            }
            Action::Multiply { value, factor } => {
                Event::Computed((f64::from_bits(value) * f64::from_bits(factor)).to_bits())
            }
            Action::CompareAtSeam { left, right } => {
                Event::Compared(f64::from_bits(left) >= f64::from_bits(right))
            }
            Action::Finished(result) => {
                return result.map(|v| v.into_iter().map(f64::from_bits).collect());
            }
        };
        action = generator.step(event);
    }
}

#[test]
fn concrete_doubling_around_one() {
    assert_eq!(generate(1.0, 2.0, 2, 2), Ok(vec![0.25, 0.5, 1.0, 2.0, 4.0]));
}

#[test]
fn concrete_powers_of_ten() {
    assert_eq!(generate(10.0, 10.0, 1, 1), Ok(vec![1.0, 10.0, 100.0]));
}

#[test]
fn concrete_empty_below_half() {
    assert_eq!(generate(5.0, 3.0, 0, 3), Ok(vec![5.0, 15.0, 45.0, 135.0]));
}

#[test]
fn degenerate_single_bucket() {
    assert_eq!(generate(0.37, 1.5, 0, 0), Ok(vec![0.37]));
    assert_eq!(generate(123.25, 7.0, 0, 0), Ok(vec![123.25]));
}

#[test]
fn length_matches_counts() {
    for &(count_below, count_above) in
        &[(0usize, 0usize), (0, 4), (4, 0), (10, 7), (1, 1), (25, 3)]
    {
        let buckets = generate(0.001, 1.5, count_below, count_above).unwrap();
        assert_eq!(buckets.len(), count_below + count_above + 1);
    }
}

#[test]
fn strictly_increasing() {
    for &(start, factor, count_below, count_above) in &[
        (0.001f64, 1.5f64, 10usize, 7usize),
        (42.0, 1.0625, 20, 20),
        (1e-6, 4.0, 8, 8),
    ] {
        let buckets = generate(start, factor, count_below, count_above).unwrap();
        for pair in buckets.windows(2) {
            assert!(pair[0] < pair[1], "{} !< {}", pair[0], pair[1]);
        }
    }
}

#[test]
fn anchor_at_count_below_bit_identical() {
    let buckets = generate(0.001, 1.5, 10, 7).unwrap();
    assert_eq!(buckets[10].to_bits(), 0.001f64.to_bits());
    let buckets = generate(7.77, 2.5, 0, 3).unwrap();
    assert_eq!(buckets[0].to_bits(), 7.77f64.to_bits());
}

#[test]
fn rejects_nonpositive_start() {
    assert_eq!(generate(0.0, 2.0, 2, 2), Err(BucketError::InvalidParameters));
    assert_eq!(generate(-3.0, 2.0, 2, 2), Err(BucketError::InvalidParameters));
    assert_eq!(
        generate(f64::NAN, 2.0, 2, 2),
        Err(BucketError::InvalidParameters)
    );
}

#[test]
fn rejects_factor_not_above_one() {
    assert_eq!(generate(1.0, 1.0, 2, 2), Err(BucketError::InvalidParameters));
    assert_eq!(generate(1.0, 0.5, 2, 2), Err(BucketError::InvalidParameters));
    assert_eq!(
        generate(1.0, f64::NAN, 2, 2),
        Err(BucketError::InvalidParameters)
    );
}

#[test]
fn overlap_when_factor_hugs_one() {
    // The gap between the anchor and the last below-half boundary is about
    // one part in 2^51 here; rounding across fifty multiplications eats it.
    assert_eq!(
        generate(30.196639185619663, 1.0000000000000004, 50, 0),
        Err(BucketError::BucketOverlap)
    );
    assert_eq!(
        generate(30.196639185619663, 1.0000000000000004, 50, 3),
        Err(BucketError::BucketOverlap)
    );
}

#[test]
fn identical_runs_bit_identical() {
    let first = generate(0.001, 1.1, 50, 50).unwrap();
    let second = generate(0.001, 1.1, 50, 50).unwrap();
    let first_bits: Vec<u64> = first.iter().map(|b| b.to_bits()).collect();
    let second_bits: Vec<u64> = second.iter().map(|b| b.to_bits()).collect();
    assert_eq!(first_bits, second_bits);
}

#[test]
fn error_messages() {
    assert_eq!(
        BucketError::InvalidParameters.message().as_str(),
        "invalid exponential sequence parameters"
    );
    assert_eq!(
        BucketError::BucketOverlap.message().as_str(),
        "floating point arithmetic error causing incorrect buckets, try larger factor or smaller count_below"
    );
}

#[test]
fn requests_follow_protocol() {
    // One boundary on each side of an anchor of 4.0, stepped by hand.
    let four = 4.0f64.to_bits();
    let two = 2.0f64.to_bits();
    let half_of_four = 2.0f64.to_bits();
    let eight = 8.0f64.to_bits();
    let params = BucketSpec {
        start: four,
        factor: two,
        count_below: 1,
        count_above: 1,
    };
    let (mut generator, action) = Generator::new(params);
    assert!(matches!(
        action,
        Action::CheckParams { start, factor } if start == four && factor == two
    ));
    let action = generator.step(Event::ParamsChecked(true));
    assert!(matches!(
        action,
        Action::ScaleDown { start, factor, power } if start == four && factor == two && power == 1
    ));
    let action = generator.step(Event::Computed(half_of_four));
    assert!(matches!(
        action,
        Action::Multiply { value, factor } if value == four && factor == two
    ));
    let action = generator.step(Event::Computed(eight));
    assert!(matches!(
        action,
        Action::CompareAtSeam { left, right } if left == half_of_four && right == four
    ));
    let action = generator.step(Event::Compared(false));
    match action {
        Action::Finished(Ok(buckets)) => assert_eq!(buckets, vec![half_of_four, four, eight]),
        other => panic!("expected a finished sequence, got {:?}", other),
    }
}

#[test]
fn overlap_reported_from_seam() {
    // A driver that finds the seam violated gets exactly the overlap error.
    let params = BucketSpec {
        start: 4.0f64.to_bits(),
        factor: 2.0f64.to_bits(),
        count_below: 1,
        count_above: 0,
    };
    let (mut generator, _) = Generator::new(params);
    let _ = generator.step(Event::ParamsChecked(true));
    let action = generator.step(Event::Computed(4.0f64.to_bits()));
    assert!(matches!(action, Action::CompareAtSeam { .. }));
    let action = generator.step(Event::Compared(true));
    assert!(matches!(
        action,
        Action::Finished(Err(BucketError::BucketOverlap))
    ));
}
