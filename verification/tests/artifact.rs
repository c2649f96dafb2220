use location_heatmap::{
    assemble_artifact, build_from_records, generate_heatmap, load_document, HeatmapError,
    HeatmapPoint, RawRecord,
};

#[test]
fn end_to_end_single_complete_record() {
    let input = r#"{"locations":[{"latitudeE7":407128000,"longitudeE7":-740060000,"accuracy":10}]}"#;
    let html = generate_heatmap(input).unwrap();
    assert!(html.contains("let coordinates = [[40.7128000,-74.0060000,100.0]];"));
    assert!(html.contains("setView([40.71280000, -74.00600000], 13)"));
}

#[test]
fn end_to_end_missing_accuracy_and_missing_longitude() {
    let input = r#"{"locations":[
        {"latitudeE7":10,"longitudeE7":20},
        {"latitudeE7":30,"accuracy":5}
    ]}"#;
    let records = load_document(input).unwrap();
    assert_eq!(records.len(), 2);
    let html = generate_heatmap(input).unwrap();
    assert!(html.contains("let coordinates = [[0.0000030,0.0000000,-100.0]];"));
}

#[test]
fn end_to_end_zero_admitted_records_fails_with_empty_result() {
    let input = r#"{"locations":[{"latitudeE7":10,"longitudeE7":20}]}"#;
    assert_eq!(generate_heatmap(input), Err(HeatmapError::EmptyResult));
    let input = r#"{"locations":[]}"#;
    assert_eq!(generate_heatmap(input), Err(HeatmapError::EmptyResult));
}

#[test]
fn unparseable_text_is_malformed_input() {
    assert_eq!(generate_heatmap("not a document"), Err(HeatmapError::InputMalformed));
}

#[test]
fn missing_locations_field_is_malformed_input() {
    assert_eq!(generate_heatmap(r#"{"points":[]}"#), Err(HeatmapError::InputMalformed));
}

#[test]
fn locations_field_of_wrong_shape_is_malformed_input() {
    assert_eq!(generate_heatmap(r#"{"locations":5}"#), Err(HeatmapError::InputMalformed));
}

#[test]
fn wrongly_typed_field_reads_as_absent() {
    let input = r#"{"locations":[{"latitudeE7":"north","longitudeE7":20,"accuracy":3}]}"#;
    let html = generate_heatmap(input).unwrap();
    assert!(html.contains("let coordinates = [[0.0000000,0.0000020,-100.0]];"));
}

#[test]
fn unknown_fields_are_ignored() {
    let input = r#"{"locations":[{"latitudeE7":10,"longitudeE7":20,"accuracy":3,"timestamp":"x"}]}"#;
    let html = generate_heatmap(input).unwrap();
    assert!(html.contains("let coordinates = [[0.0000010,0.0000020,9.0]];"));
}

#[test]
fn assemble_refuses_an_empty_sequence() {
    let points: Vec<HeatmapPoint> = Vec::new();
    assert_eq!(assemble_artifact(&points), Err(HeatmapError::EmptyResult));
}

#[test]
fn artifact_embeds_controls_and_rule() {
    let points = vec![HeatmapPoint { latitude_e7: 10, longitude_e7: 20, weight: 100 }];
    let html = assemble_artifact(&points).unwrap();
    assert!(html.contains(r#"min="0" max="4000000" step="100000" value="4000000""#));
    assert!(html.contains(r#"type="checkbox" id="include_no_accuracy""#));
    assert!(html.contains("coord[2] < min_accuracy && coord[2] > 0"));
    assert!(html.contains("let min_accuracy = 4000000;"));
    assert!(html.contains("let include_no_accuracy = false;"));
}

#[test]
fn build_from_records_admits_then_transforms() {
    let records = vec![
        RawRecord { latitude_e7: Some(1), longitude_e7: Some(2), accuracy: None },
        RawRecord { latitude_e7: Some(407128000), longitude_e7: Some(-740060000), accuracy: Some(10) },
    ];
    let html = build_from_records(&records).unwrap();
    assert!(html.contains("let coordinates = [[40.7128000,-74.0060000,100.0]];"));
}

#[test]
fn build_from_records_with_nothing_admitted_fails() {
    let records = vec![RawRecord { latitude_e7: Some(1), longitude_e7: Some(2), accuracy: None }];
    assert_eq!(build_from_records(&records), Err(HeatmapError::EmptyResult));
}

#[test]
fn error_messages_name_the_stage() {
    assert!(HeatmapError::InputMalformed.message().contains("locations"));
    assert!(HeatmapError::EmptyResult.message().contains("admitted"));
}
