use location_heatmap::render::{e7_decimal, e7_viewport, points_json, u128_digits, weight_decimal};
use location_heatmap::HeatmapPoint;

#[test]
fn digits_of_plain_numbers() {
    assert_eq!(u128_digits(0), "0");
    assert_eq!(u128_digits(7), "7");
    assert_eq!(u128_digits(40), "40");
    assert_eq!(u128_digits(10_000_000), "10000000");
}

#[test]
fn e7_decimal_of_positive_coordinate() {
    assert_eq!(e7_decimal(407128000), "40.7128000");
}

#[test]
fn e7_decimal_of_negative_coordinate() {
    assert_eq!(e7_decimal(-740060000), "-74.0060000");
}

#[test]
fn e7_decimal_of_zero_and_tiny_values() {
    assert_eq!(e7_decimal(0), "0.0000000");
    assert_eq!(e7_decimal(1), "0.0000001");
    assert_eq!(e7_decimal(-1), "-0.0000001");
}

#[test]
fn viewport_gets_an_eighth_digit() {
    assert_eq!(e7_viewport(407128000), "40.71280000");
    assert_eq!(e7_viewport(-740060000), "-74.00600000");
}

#[test]
fn weights_carry_one_fractional_digit() {
    assert_eq!(weight_decimal(100), "100.0");
    assert_eq!(weight_decimal(-100), "-100.0");
    assert_eq!(weight_decimal(0), "0.0");
}

#[test]
fn point_sequence_renders_as_nested_arrays() {
    let points = vec![
        HeatmapPoint { latitude_e7: 407128000, longitude_e7: -740060000, weight: 100 },
        HeatmapPoint { latitude_e7: 0, longitude_e7: 10, weight: -100 },
    ];
    let json = points_json(&points);
    assert_eq!(json, "[[40.7128000,-74.0060000,100.0],[0.0000000,0.0000010,-100.0]]");
}

#[test]
fn empty_point_sequence_renders_as_empty_array() {
    let points: Vec<HeatmapPoint> = Vec::new();
    assert_eq!(points_json(&points), "[]");
}
