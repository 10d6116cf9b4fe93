//! The numbers against the processor's own, and against the `float_duration` crate.
use float_duration::FloatDuration;
use xosms::conversion::{micros_to_seconds, seconds_to_micros};
use xosms::double::Double;
use xosms::numbers::{default_seek_step, validate_timeline, MAX_PLAYBACK_RATE, MIN_PLAYBACK_RATE};
use xosms::span::Span;

fn double(number: f64) -> Double {
    Double { bits: number.to_bits() }
}

fn number(double: Double) -> f64 {
    f64::from_bits(double.bits)
}

fn next(seed: &mut u64) -> u64 {
    *seed ^= *seed << 13;
    *seed ^= *seed >> 7;
    *seed ^= *seed << 17;
    *seed
}

fn edge_numbers() -> Vec<f64> {
    vec![
        0.0,
        -0.0,
        1.0,
        -1.0,
        0.1,
        0.25,
        0.5,
        1.5,
        2.0,
        2.5,
        12.5,
        180.0,
        1e-6,
        5e-7,
        4.9e-7,
        -5e-7,
        0.3333333333333333,
        9007199254740991.0,
        9007199254740993.0,
        9223372036854.775,
        9223372036854.777,
        -9223372036854.775,
        1e18,
        1e300,
        -1e300,
        f64::EPSILON,
        1.0 + f64::EPSILON,
        f64::MIN_POSITIVE,
        f64::from_bits(1),
        f64::from_bits(0x000f_ffff_ffff_ffff),
        f64::MAX,
        f64::MIN,
        f64::INFINITY,
        f64::NEG_INFINITY,
        f64::NAN,
        -f64::NAN,
    ]
}

/// Pairs of numbers: all pairs of the edges, patterns of any kind, and numbers close together.
fn pairs() -> Vec<(f64, f64)> {
    let edges = edge_numbers();
    let mut pairs = Vec::new();
    for a in &edges {
        for b in &edges {
            pairs.push((*a, *b));
        }
    }
    let mut seed = 0x9e37_79b9_7f4a_7c15;
    for _ in 0..20000 {
        let a = next(&mut seed);
        let b = next(&mut seed);
        pairs.push((f64::from_bits(a), f64::from_bits(b)));
        let near = a.wrapping_add(b % 5);
        pairs.push((f64::from_bits(a), f64::from_bits(near)));
        let same_range = (a & 0xfff0_0000_0000_0000) ^ (b & 0x800f_ffff_ffff_ffff);
        pairs.push((f64::from_bits(a), f64::from_bits(same_range)));
        let shifted = (a & 0x7ff0_0000_0000_0000)
            .wrapping_add((b % 110) << 52)
            .wrapping_sub(55 << 52)
            & 0x7fff_ffff_ffff_ffff;
        pairs.push((f64::from_bits(a), f64::from_bits(shifted | (b & 0x800f_ffff_ffff_ffff))));
    }
    pairs
}

#[test]
fn order_is_that_of_the_processor() {
    for (a, b) in pairs() {
        assert_eq!(double(a).less_than(double(b)), a < b, "{a:e} < {b:e}");
        assert_eq!(double(a).at_most(double(b)), a <= b, "{a:e} <= {b:e}");
        assert_eq!(double(a).equals(double(b)), a == b, "{a:e} == {b:e}");
        assert_eq!(double(a).is_nan(), a.is_nan());
    }
}

#[test]
fn difference_is_that_of_the_processor() {
    for (a, b) in pairs() {
        let expected = a - b;
        let found = number(double(a).minus(double(b)));
        if expected.is_nan() {
            assert!(found.is_nan(), "{a:e} - {b:e}");
        } else {
            assert!(found == expected, "{a:e} - {b:e}: {found:e}, not {expected:e}");
        }
    }
}

#[test]
fn difference_rounds_to_even() {
    assert_eq!(number(double(9007199254740992.0).minus(double(-1.0))), 9007199254740992.0);
    assert_eq!(number(double(9007199254740994.0).minus(double(-1.0))), 9007199254740996.0);
    assert_eq!(number(double(1.0).minus(double(1e-17))), 1.0);
}

#[test]
fn signs_are_changed_and_dropped() {
    for a in edge_numbers() {
        assert_eq!(double(a).negated().bits, (-a).to_bits());
        assert_eq!(double(a).absolute().bits, a.abs().to_bits());
    }
}

#[test]
fn differs_is_the_distance_above_epsilon() {
    for (a, b) in pairs() {
        assert_eq!(double(a).differs(double(b)), (a - b).abs() > f64::EPSILON, "{a:e} {b:e}");
    }
    assert!(!double(1.0).differs(double(1.0 + f64::EPSILON)));
    assert!(double(1.0).differs(double(1.0 + 2.0 * f64::EPSILON)));
}

#[test]
fn exceeds_is_the_difference_above_a_step() {
    for (a, b) in pairs() {
        for step in [0.25, 1.0, 2.0, f64::NAN] {
            assert_eq!(double(a).exceeds(double(b), double(step)), a - b > step);
        }
    }
}

#[test]
fn ranges_are_kept() {
    for a in edge_numbers() {
        let expected = a.clamp(0.0, 1.0);
        assert!(
            double(a).unit_range().bits == expected.to_bits() || expected.is_nan() && double(a).unit_range().is_nan()
        );
        assert!(number(double(a).at_least_zero()) == a.max(0.0));
        assert_eq!(double(a).is_playback_rate(), (0.25..=2.0).contains(&a));
    }
}

#[test]
fn constants_are_the_numbers_they_stand_for() {
    assert_eq!(Double::zero().bits, 0.0f64.to_bits());
    assert_eq!(Double::one().bits, 1.0f64.to_bits());
    assert_eq!(MIN_PLAYBACK_RATE, 0.25f64.to_bits());
    assert_eq!(MAX_PLAYBACK_RATE, 2.0f64.to_bits());
    assert_eq!(number(default_seek_step()), 15.0);
}

#[test]
fn default_seek_step_is_positive() {
    assert!(number(default_seek_step()) > 0.0);
}

fn float_duration_micros(seconds: f64) -> i64 {
    FloatDuration::seconds(seconds)
        .as_microseconds()
        .clamp(i64::MIN as f64, i64::MAX as f64)
        .round() as i64
}

#[test]
fn microseconds_are_those_of_float_duration() {
    for (a, b) in pairs() {
        assert_eq!(seconds_to_micros(double(a)), float_duration_micros(a), "{a:e}");
        assert_eq!(seconds_to_micros(double(b)), float_duration_micros(b), "{b:e}");
    }
    let mut seed = 0x1234_5678_9abc_def1;
    for _ in 0..50000 {
        let seconds = (next(&mut seed) % 20_000_000_000) as f64 / 1e6;
        assert_eq!(seconds_to_micros(double(seconds)), float_duration_micros(seconds));
        let half = ((next(&mut seed) % 20_000_000_000) as f64 + 0.5) / 1e6;
        assert_eq!(seconds_to_micros(double(-half)), float_duration_micros(-half));
    }
    assert_eq!(seconds_to_micros(double(12.5)), 12_500_000);
    assert_eq!(seconds_to_micros(double(5e-7)), 1);
    assert_eq!(seconds_to_micros(double(-5e-7)), -1);
    assert_eq!(seconds_to_micros(double(f64::NAN)), 0);
    assert_eq!(seconds_to_micros(double(f64::INFINITY)), i64::MAX);
    assert_eq!(seconds_to_micros(double(f64::NEG_INFINITY)), i64::MIN);
}

#[test]
fn seconds_are_those_of_float_duration() {
    let mut offsets = vec![
        0,
        1,
        -1,
        5_000_000,
        -2_500_000,
        i64::MAX,
        i64::MIN,
        i64::MAX - 511,
        9_007_199_254_740_993,
        -9_007_199_254_740_995,
    ];
    let mut seed = 0xfeed_beef_1234_5677;
    for _ in 0..50000 {
        let bits = next(&mut seed);
        offsets.push((bits as i64) >> (bits % 64));
    }
    for offset in offsets {
        let expected = FloatDuration::microseconds(offset as f64).as_seconds();
        assert_eq!(micros_to_seconds(offset).bits, expected.to_bits(), "{offset}");
    }
    assert_eq!(number(micros_to_seconds(-2_500_000)), -2.5);
}

#[test]
fn spans_are_in_seconds() {
    assert_eq!(number(Span { secs: 12, nanos: 500_000_000 }.seconds()), 12.5);
    assert_eq!(number(Span { secs: 0, nanos: 0 }.seconds()), 0.0);
    assert_eq!(number(Span { secs: 2, nanos: 700_000_000 }.seconds()), 2.7);
}

#[test]
fn timeline_validation_rejects_invalid_ranges() {
    assert!(validate_timeline(double(-1.0), double(0.0)).is_err());
    assert!(validate_timeline(double(10.0), double(-1.0)).is_err());
    assert!(validate_timeline(double(10.0), double(11.0)).is_err());
    assert!(validate_timeline(double(10.0), double(10.0)).is_ok());
}

#[test]
fn timeline_validation_says_why() {
    assert_eq!(
        validate_timeline(double(-1.0), double(-1.0)),
        Err("Duration cannot be less than 0".to_string())
    );
    assert_eq!(
        validate_timeline(double(10.0), double(-0.5)),
        Err("Position cannot be less than 0".to_string())
    );
    assert_eq!(
        validate_timeline(double(10.0), double(10.5)),
        Err("Position cannot be greather than provided duration".to_string())
    );
    assert_eq!(validate_timeline(double(-0.0), double(0.0)), Ok(()));
    assert_eq!(validate_timeline(double(f64::NAN), double(3.0)), Ok(()));
    assert_eq!(validate_timeline(double(f64::INFINITY), double(3.0)), Ok(()));
}
