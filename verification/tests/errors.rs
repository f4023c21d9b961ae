use sonotheia_rust::errors::SensorError;

#[test]
fn test_error_messages() {
    let err = SensorError::invalid_input("audio data is empty");
    assert!(err.message().contains("Invalid input"));

    let err = SensorError::insufficient_data(1000, 100);
    assert!(err.message().contains("1000"));
    assert!(err.message().contains("100"));
}

#[test]
fn test_is_user_error() {
    assert!(SensorError::InvalidInput("test".to_string()).is_user_error());
    assert!(SensorError::InsufficientData(100, 10).is_user_error());
    assert!(!SensorError::InternalError("test".to_string()).is_user_error());
}

#[test]
fn message_of_every_variant() {
    assert_eq!(
        SensorError::invalid_input("audio data is empty").message(),
        "Invalid input: audio data is empty"
    );
    assert_eq!(
        SensorError::insufficient_data(8, 0).message(),
        "Audio data is empty or below minimum length (8 samples required, got 0)"
    );
    assert_eq!(
        SensorError::insufficient_data(1000, 100).message(),
        "Audio data is empty or below minimum length (1000 samples required, got 100)"
    );
    assert_eq!(
        SensorError::invalid_sample_rate(200000).message(),
        "Invalid sample rate: 200000 Hz (expected 8000-96000 Hz)"
    );
    assert_eq!(
        SensorError::FftError("empty".to_string()).message(),
        "FFT computation failed: empty"
    );
    assert_eq!(
        SensorError::Overflow("framing".to_string()).message(),
        "Numeric overflow in framing"
    );
    assert_eq!(
        SensorError::IndexOutOfBounds("bin 7".to_string()).message(),
        "Array index out of bounds: bin 7"
    );
    assert_eq!(
        SensorError::InternalError("test".to_string()).message(),
        "Internal error: test"
    );
}

#[test]
fn only_input_errors_are_user_errors() {
    assert!(SensorError::invalid_sample_rate(100).is_user_error());
    assert!(!SensorError::FftError("x".to_string()).is_user_error());
    assert!(!SensorError::Overflow("x".to_string()).is_user_error());
    assert!(!SensorError::IndexOutOfBounds("x".to_string()).is_user_error());
}
