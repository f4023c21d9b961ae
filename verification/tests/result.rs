use sonotheia_rust::result::SensorResult;

#[test]
fn test_sensor_result_creation() {
    let result = SensorResult::new(
        "test_sensor".to_string(),
        Some(true),
        0.95f64.to_bits(),
        0.8f64.to_bits(),
        None,
        Some("Test passed".to_string()),
    );

    assert_eq!(result.sensor_name, "test_sensor");
    assert_eq!(result.passed, Some(true));
    assert!((f64::from_bits(result.value) - 0.95).abs() < f64::EPSILON);
    assert!((f64::from_bits(result.threshold) - 0.8).abs() < f64::EPSILON);
    assert!(result.is_pass());
    assert!(!result.is_fail());
}

#[test]
fn test_sensor_result_fail() {
    let result = SensorResult::new(
        "test_sensor".to_string(),
        Some(false),
        0.5f64.to_bits(),
        0.8f64.to_bits(),
        Some("below_threshold".to_string()),
        Some("Value below threshold".to_string()),
    );

    assert!(!result.is_pass());
    assert!(result.is_fail());
}

#[test]
fn test_sensor_result_metadata() {
    let mut result = SensorResult::new(
        "test_sensor".to_string(),
        Some(true),
        0.95f64.to_bits(),
        0.8f64.to_bits(),
        None,
        None,
    );

    result.add_metadata("processing_time_ms".to_string(), "15".to_string());
    assert_eq!(result.metadata.get("processing_time_ms"), Some(&"15".to_string()));
}

#[test]
fn a_result_that_only_informs_is_neither_pass_nor_fail() {
    let result = SensorResult::new("info".to_string(), None, 0, 0, None, None);
    assert!(!result.is_pass());
    assert!(!result.is_fail());
}

#[test]
fn a_new_result_keeps_its_fields_and_has_no_metadata() {
    let result = SensorResult::new(
        "test_sensor".to_string(),
        Some(false),
        0.25f64.to_bits(),
        0.5f64.to_bits(),
        Some("below_threshold".to_string()),
        Some("Value below threshold".to_string()),
    );
    assert_eq!(result.sensor_name, "test_sensor");
    assert_eq!(result.passed, Some(false));
    assert_eq!(result.value, 0.25f64.to_bits());
    assert_eq!(result.threshold, 0.5f64.to_bits());
    assert_eq!(result.reason.as_deref(), Some("below_threshold"));
    assert_eq!(result.detail.as_deref(), Some("Value below threshold"));
    assert!(result.metadata.is_empty());
}

#[test]
fn the_last_value_written_under_a_key_stays() {
    let mut result = SensorResult::new("s".to_string(), Some(true), 0, 0, None, None);
    result.add_metadata("frames".to_string(), "12".to_string());
    result.add_metadata("rate".to_string(), "16000".to_string());
    result.add_metadata("frames".to_string(), "13".to_string());
    assert_eq!(result.metadata.len(), 2);
    assert_eq!(result.metadata.get("frames"), Some(&"13".to_string()));
    assert_eq!(result.metadata.get("rate"), Some(&"16000".to_string()));
    assert_eq!(result.metadata.get("missing"), None);
    assert_eq!(result.sensor_name, "s");
    assert_eq!(result.passed, Some(true));
}

#[test]
fn the_default_result_is_empty() {
    let result = SensorResult::default();
    assert_eq!(result.sensor_name, "");
    assert_eq!(result.passed, None);
    assert_eq!(result.value, 0.0f64.to_bits());
    assert_eq!(result.threshold, 0.0f64.to_bits());
    assert_eq!(result.reason, None);
    assert_eq!(result.detail, None);
    assert!(result.metadata.is_empty());
}
