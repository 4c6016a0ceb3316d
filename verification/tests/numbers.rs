use alvr_connection::float32::{align32, F32};
use alvr_connection::packets::Version;
use alvr_connection::server::button_event;
use alvr_connection::packets::ButtonValue;
use alvr_connection::text::{number_text, padded_text};
use alvr_connection::time::Duration;

fn f(value: f32) -> F32 {
    F32 { bits: value.to_bits() }
}

fn samples() -> Vec<f32> {
    let mut values = vec![
        0.0,
        -0.0,
        f32::MIN_POSITIVE,
        f32::from_bits(1),
        0.5,
        0.99999994,
        1.0,
        1.5,
        2.0,
        31.999998,
        32.0,
        33.0,
        63.5,
        72.0,
        89.9,
        90.0,
        1664.0,
        1832.7,
        8388607.5,
        8388608.0,
        16777215.0,
        16777216.0,
        16777218.0,
        2147483648.0,
        4294967040.0,
        4294967296.0,
        1e20,
        f32::MAX,
        f32::INFINITY,
        f32::NAN,
        f32::from_bits(0x7f80_0001),
        f32::from_bits(0xffff_ffff),
    ];
    let negatives: Vec<f32> = values.iter().map(|v| -v).collect();
    values.extend(negatives);
    let mut bits: u32 = 1;
    for _ in 0..2000 {
        bits = bits.wrapping_mul(1664525).wrapping_add(1013904223);
        values.push(f32::from_bits(bits));
    }
    values
}

#[test]
fn comparisons_agree_with_the_machine() {
    let values = samples();
    for a in &values {
        assert_eq!(f(*a).is_nan(), a.is_nan());
        for b in &values {
            assert_eq!(f(*a).lt(f(*b)), a < b);
            assert_eq!(f(*a).same(f(*b)), a == b);
        }
        assert_eq!(f32::from_bits(f(*a).max(f(2.0)).bits), f32::max(*a, 2.0));
    }
}

#[test]
fn truncation_agrees_with_the_machine() {
    for a in samples() {
        assert_eq!(f(a).to_u32(), a as u32);
    }
    assert_eq!(f(90.7).to_u32(), 90);
    assert_eq!(f(-1.0).to_u32(), 0);
    assert_eq!(f(5e9).to_u32(), u32::MAX);
    assert_eq!(f(f32::NAN).to_u32(), 0);
}

#[test]
fn alignment_agrees_with_the_machine() {
    for a in samples() {
        assert_eq!(align32(f(a)), ((a / 32.).floor() * 32.) as u32);
    }
    assert_eq!(align32(f(1832.0)), 1824);
    assert_eq!(align32(f(31.9)), 0);
    assert_eq!(align32(f(32.0)), 32);
    assert_eq!(align32(f(-40.0)), 0);
    assert_eq!(align32(f(1e10)), u32::MAX);
}

#[test]
fn aligned_sizes_are_close_multiples() {
    for size in [0.0f32, 1.0, 100.5, 1440.0, 1599.9, 100000.0] {
        let aligned = align32(f(size));
        assert_eq!(aligned % 32, 0);
        assert!(aligned as f32 <= size && size < aligned as f32 + 32.0);
    }
}

#[test]
fn numbers_are_written_in_digits() {
    assert_eq!(number_text(0, 10), "0");
    assert_eq!(number_text(19, 10), "19");
    assert_eq!(number_text(u64::MAX, 10), format!("{}", u64::MAX));
    assert_eq!(number_text(0, 16), "0");
    assert_eq!(number_text(0xdead_beef, 16), "deadbeef");
    assert_eq!(number_text(u64::MAX, 16), "ffffffffffffffff");
    assert_eq!(number_text(5, 2), "101");
}

#[test]
fn text_is_padded_to_a_width() {
    assert_eq!(padded_text("0x1f", 8), "    0x1f");
    assert_eq!(padded_text("0x1f", 4), "0x1f");
    assert_eq!(padded_text("0x1f", 2), "0x1f");
    assert_eq!(padded_text("", 3), "   ");
}

#[test]
fn unknown_buttons_are_named_by_their_identifier() {
    for id in [0u64, 1, 0x1234, 0x1234_5678_9abc_de, u64::MAX] {
        let event = button_event(id, None, ButtonValue::Binary(true));
        assert_eq!(event.path, format!("Unknown (ID: {:#16x})", id));
        assert_eq!(event.value, ButtonValue::Binary(true));
    }
    assert_eq!(
        button_event(0x1234, None, ButtonValue::Binary(false)).path,
        "Unknown (ID:           0x1234)"
    );
    let known = button_event(7, Some("/user/hand/left/input/x/click".to_string()), ButtonValue::Scalar(f(0.5)));
    assert_eq!(known.path, "/user/hand/left/input/x/click");
    assert_eq!(known.value, ButtonValue::Scalar(f(0.5)));
}

#[test]
fn versions_are_written_in_the_usual_notation() {
    let mut version = Version {
        major: 19,
        minor: 0,
        patch: 10,
        pre: String::new(),
        build: String::new(),
    };
    assert_eq!(version.to_text(), "19.0.10");
    version.pre = "dev01".to_string();
    assert_eq!(version.to_text(), "19.0.10-dev01");
    version.build = "nightly.2022".to_string();
    assert_eq!(version.to_text(), "19.0.10-dev01+nightly.2022");
    version.pre = String::new();
    assert_eq!(version.to_text(), "19.0.10+nightly.2022");
    let same = semver::Version::parse("19.0.10+nightly.2022").unwrap();
    assert_eq!(version.to_text(), same.to_string());
}

#[test]
fn durations_count_nanoseconds() {
    let duration = Duration::from_nanos(2_500_000_123);
    assert_eq!(duration, Duration { secs: 2, nanos: 500_000_123 });
    assert_eq!(duration.as_nanos(), 2_500_000_123);
    assert_eq!(duration.as_micros(), 2_500_000);
    let longest = Duration { secs: u64::MAX, nanos: 999_999_999 };
    assert_eq!(longest.as_nanos(), std::time::Duration::new(u64::MAX, 999_999_999).as_nanos());
}
