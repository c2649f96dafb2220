use location_heatmap::record::admit_records;
use location_heatmap::transform::{transform_record, transform_records, SENTINEL_WEIGHT};
use location_heatmap::RawRecord;

fn rec(lat: Option<i64>, lon: Option<i64>, acc: Option<i64>) -> RawRecord {
    RawRecord { latitude_e7: lat, longitude_e7: lon, accuracy: acc }
}

#[test]
fn admission_is_accuracy_gated() {
    let records = vec![
        rec(Some(1), Some(2), None),
        rec(Some(3), Some(4), Some(5)),
        rec(None, None, None),
        rec(None, Some(6), Some(7)),
    ];
    let kept = admit_records(&records);
    assert_eq!(kept.len(), 2);
    assert!(kept.iter().all(|r| r.accuracy.is_some()));
    assert_eq!(kept[0], rec(Some(3), Some(4), Some(5)));
    assert_eq!(kept[1], rec(None, Some(6), Some(7)));
}

#[test]
fn record_without_accuracy_never_reaches_output() {
    let dropped = rec(Some(11), Some(22), None);
    let records = vec![dropped, rec(Some(1), Some(2), Some(3))];
    let kept = admit_records(&records);
    assert!(!kept.contains(&dropped));
}

#[test]
fn missing_coordinates_are_tolerated_by_admission() {
    let records = vec![rec(None, None, Some(9))];
    let kept = admit_records(&records);
    assert_eq!(kept.len(), 1);
}

#[test]
fn complete_record_maps_exactly() {
    let p = transform_record(&rec(Some(407128000), Some(-740060000), Some(10)));
    assert_eq!(p.latitude_e7, 407128000);
    assert_eq!(p.longitude_e7, -740060000);
    assert_eq!(p.weight, 100);
}

#[test]
fn squared_accuracy_does_not_clamp() {
    let p = transform_record(&rec(Some(0), Some(0), Some(3_000_000_000)));
    assert_eq!(p.weight, 9_000_000_000_000_000_000i128);
}

#[test]
fn missing_latitude_gives_sentinel_and_zero() {
    let p = transform_record(&rec(None, Some(123), Some(10)));
    assert_eq!(p.latitude_e7, 0);
    assert_eq!(p.longitude_e7, 123);
    assert_eq!(p.weight, SENTINEL_WEIGHT);
}

#[test]
fn missing_longitude_gives_sentinel_and_zero() {
    let p = transform_record(&rec(Some(123), None, Some(10)));
    assert_eq!(p.latitude_e7, 123);
    assert_eq!(p.longitude_e7, 0);
    assert_eq!(p.weight, SENTINEL_WEIGHT);
}

#[test]
fn transform_keeps_order_and_length() {
    let records = vec![
        rec(Some(1), Some(2), Some(3)),
        rec(None, Some(4), Some(5)),
        rec(Some(6), Some(7), Some(8)),
    ];
    let points = transform_records(&records);
    assert_eq!(points.len(), 3);
    assert_eq!(points[0].weight, 9);
    assert_eq!(points[1].weight, SENTINEL_WEIGHT);
    assert_eq!(points[2].weight, 64);
    assert_eq!(points[2].latitude_e7, 6);
}

#[test]
fn shuffled_input_gives_same_multiset_of_points() {
    let records = vec![
        rec(Some(1), Some(2), Some(3)),
        rec(None, Some(4), Some(5)),
        rec(Some(6), Some(7), Some(8)),
        rec(Some(6), Some(7), Some(8)),
        rec(Some(9), None, Some(2)),
    ];
    let shuffled = vec![
        records[3], records[0], records[4], records[2], records[1],
    ];
    let mut a: Vec<(i64, i64, i128)> = transform_records(&records)
        .iter()
        .map(|p| (p.latitude_e7, p.longitude_e7, p.weight))
        .collect();
    let mut b: Vec<(i64, i64, i128)> = transform_records(&shuffled)
        .iter()
        .map(|p| (p.latitude_e7, p.longitude_e7, p.weight))
        .collect();
    a.sort();
    b.sort();
    assert_eq!(a, b);
}
