use rose_offline::game::components::Point3;
use rose_offline::game::geometry::{distance_squared, to_message_distance, to_message_height};
use rose_offline::protocol::single::{bits_to_units, units_to_bits};

fn samples() -> Vec<i32> {
    let mut values = vec![
        0,
        1,
        -1,
        2,
        3,
        100,
        -100,
        520_000,
        -520_000,
        16_777_215,
        16_777_216,
        16_777_217,
        16_777_218,
        16_777_219,
        33_554_431,
        33_554_433,
        33_554_434,
        33_554_435,
        1_000_000_007,
        i32::MAX,
        i32::MAX - 63,
        i32::MAX - 64,
        i32::MAX - 65,
        i32::MIN,
        i32::MIN + 1,
        -16_777_217,
    ];
    let mut state: u32 = 12345;
    for _ in 0..2000 {
        state = state.wrapping_mul(1664525).wrapping_add(1013904223);
        values.push(state as i32);
        values.push((state >> 7) as i32);
        values.push(-((state >> 9) as i32));
    }
    values
}

#[test]
fn units_are_written_as_the_nearest_single_precision_number() {
    for value in samples() {
        assert_eq!(units_to_bits(value), (value as f32).to_bits(), "value {}", value);
    }
}

#[test]
fn bits_are_read_as_units_rounded_toward_zero() {
    let mut numbers: Vec<f32> = vec![
        0.0,
        -0.0,
        0.4,
        0.5,
        0.99,
        1.0,
        1.5,
        -1.5,
        -0.99,
        2.75,
        150.9,
        -150.9,
        520000.25,
        8388607.5,
        16777216.0,
        4294967296.0,
        -4294967296.0,
        2147483520.0,
        2147483648.0,
        -2147483648.0,
        -2147483904.0,
        1.0e30,
        -1.0e30,
        f32::MAX,
        f32::MIN,
        f32::MIN_POSITIVE,
        f32::INFINITY,
        f32::NEG_INFINITY,
        f32::NAN,
        1.0e-40,
    ];
    let mut state: u32 = 99;
    for _ in 0..5000 {
        state = state.wrapping_mul(1664525).wrapping_add(1013904223);
        numbers.push(f32::from_bits(state));
    }
    for number in numbers {
        assert_eq!(bits_to_units(number.to_bits()), number as i32, "number {}", number);
    }
}

#[test]
fn small_coordinates_survive_the_wire() {
    for value in [-16_777_216, -520_000, -1, 0, 1, 190, 65535, 520_000, 16_777_216] {
        assert_eq!(bits_to_units(units_to_bits(value)), value);
    }
    assert_eq!(bits_to_units(units_to_bits(16_777_217)), 16_777_216);
}

#[test]
fn distance_is_measured_on_the_ground_plane() {
    let from = Point3::new(0, 0, 0);
    assert_eq!(distance_squared(&from, &Point3::new(3, 4, 1000)), 25);
    assert_eq!(distance_squared(&Point3::new(-3, 10, 5), &Point3::new(2, -2, 9)), 169);
    assert_eq!(distance_squared(&from, &from), 0);
    assert_eq!(
        distance_squared(&Point3::new(i32::MIN, i32::MIN, 0), &Point3::new(i32::MAX, i32::MAX, 0)),
        2 * (u32::MAX as u128) * (u32::MAX as u128)
    );
}

#[test]
fn message_distance_is_the_root_rounded_down_and_capped() {
    assert_eq!(to_message_distance(0), 0);
    assert_eq!(to_message_distance(1), 1);
    assert_eq!(to_message_distance(3), 1);
    assert_eq!(to_message_distance(4), 2);
    assert_eq!(to_message_distance(10000), 100);
    assert_eq!(to_message_distance(36099), 189);
    assert_eq!(to_message_distance(36100), 190);
    assert_eq!(to_message_distance(65534 * 65534), 65534);
    assert_eq!(to_message_distance(65535 * 65535 - 1), 65534);
    assert_eq!(to_message_distance(65535 * 65535), 65535);
    assert_eq!(to_message_distance(u128::MAX), 65535);
    for value in 0..5000u128 {
        let root = to_message_distance(value) as u128;
        assert!(root * root <= value && value < (root + 1) * (root + 1));
    }
}

#[test]
fn message_height_is_clamped() {
    assert_eq!(to_message_height(-1), 0);
    assert_eq!(to_message_height(0), 0);
    assert_eq!(to_message_height(1234), 1234);
    assert_eq!(to_message_height(65535), 65535);
    assert_eq!(to_message_height(65536), 65535);
    assert_eq!(to_message_height(i32::MIN), 0);
}
