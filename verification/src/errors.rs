//! The errors of sensor operations.

use vstd::prelude::*;
use vstd::string::StringExecFns;
use crate::text::decimal;
use crate::text::push_decimal;

verus! {

/// What can go wrong in a sensor operation.
#[derive(Debug)]
pub enum SensorError {
    /// The input failed validation; the text says how.
    InvalidInput(String),
    /// The audio is empty or too short: samples required, samples given.
    InsufficientData(usize, usize),
    /// The sample rate, in Hz, is outside the accepted range.
    InvalidSampleRate(u32),
    /// The spectral transform failed.
    FftError(String),
    /// A numeric overflow, in the named place.
    Overflow(String),
    /// An index out of bounds.
    IndexOutOfBounds(String),
    /// An internal processing error.
    InternalError(String),
}

impl SensorError {
    /// The error is the caller's: the input was not acceptable.
    pub open spec fn user_error(&self) -> bool {
        self is InvalidInput || self is InsufficientData || self is InvalidSampleRate
    }

    /// The text of the error's message.
    pub open spec fn message_text(&self) -> Seq<char> {
        match self {
            SensorError::InvalidInput(m) => "Invalid input: "@ + m@,
            SensorError::InsufficientData(required, actual) => {
                "Audio data is empty or below minimum length ("@ + decimal(*required as nat)
                    + " samples required, got "@ + decimal(*actual as nat) + ")"@
            },
            SensorError::InvalidSampleRate(rate) => {
                "Invalid sample rate: "@ + decimal(*rate as nat) + " Hz (expected 8000-96000 Hz)"@
            },
            SensorError::FftError(m) => "FFT computation failed: "@ + m@,
            SensorError::Overflow(m) => "Numeric overflow in "@ + m@,
            SensorError::IndexOutOfBounds(m) => "Array index out of bounds: "@ + m@,
            SensorError::InternalError(m) => "Internal error: "@ + m@,
        }
    }

    /// An invalid-input error with the given description.
    pub fn invalid_input(msg: &str) -> (r: Self)
        ensures
            r matches SensorError::InvalidInput(m) && m@ == msg@,
    {
        SensorError::InvalidInput(msg.to_owned())
    }

    /// An insufficient-data error.
    pub fn insufficient_data(required: usize, actual: usize) -> (r: Self)
        ensures
            r == SensorError::InsufficientData(required, actual),
    {
        SensorError::InsufficientData(required, actual)
    }

    /// An invalid-sample-rate error.
    pub fn invalid_sample_rate(rate: u32) -> (r: Self)
        ensures
            r == SensorError::InvalidSampleRate(rate),
    {
        SensorError::InvalidSampleRate(rate)
    }

    /// Whether the error is the caller's (to be reported as a warning) rather
    /// than a failure of the processing itself.
    pub fn is_user_error(&self) -> (r: bool)
        ensures
            r == self.user_error(),
    {
        match self {
            SensorError::InvalidInput(_) => true,
            SensorError::InsufficientData(_, _) => true,
            SensorError::InvalidSampleRate(_) => true,
            _ => false,
        }
    }

    /// The error's message.
    pub fn message(&self) -> (r: String)
        ensures
            r@ == self.message_text(),
    {
        match self {
            SensorError::InvalidInput(m) => {
                let r = "Invalid input: ".to_owned().concat(m.as_str());
                r
            },
            SensorError::InsufficientData(required, actual) => {
                let mut r = "Audio data is empty or below minimum length (".to_owned();
                push_decimal(&mut r, *required as u64);
                r.append(" samples required, got ");
                push_decimal(&mut r, *actual as u64);
                r.append(")");
                r
            },
            SensorError::InvalidSampleRate(rate) => {
                let mut r = "Invalid sample rate: ".to_owned();
                push_decimal(&mut r, *rate as u64);
                r.append(" Hz (expected 8000-96000 Hz)");
                r
            },
            SensorError::FftError(m) => "FFT computation failed: ".to_owned().concat(m.as_str()),
            SensorError::Overflow(m) => "Numeric overflow in ".to_owned().concat(m.as_str()),
            SensorError::IndexOutOfBounds(m) => {
                "Array index out of bounds: ".to_owned().concat(m.as_str())
            },
            SensorError::InternalError(m) => "Internal error: ".to_owned().concat(m.as_str()),
        }
    }
}

} // verus!
