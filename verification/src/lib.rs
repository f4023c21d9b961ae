//! Decision core of three detectors of synthetic speech.
//!
//! A detector frames a clip, measures statistics of its frames, scores each
//! statistic against the range that natural speech keeps to, and passes the
//! clip where the weighted scores reach a threshold. This library holds the
//! rules: which clips are fit for analysis, how they are framed, which
//! frames count, which formula each score follows, and what verdict a score
//! gives.
//!
//! Every real number that crosses the library's boundary is an IEEE 754
//! binary64 value carried as its 64-bit encoding. On encodings, ordering,
//! classification, clamping and decimal rounding are exact integer
//! questions, and they are answered here. Arithmetic that rounds, and the
//! spectral transform, are the caller's: the library tells which quotient or
//! product a score is, and the caller computes it.

pub mod audio;
pub mod binary64;
pub mod errors;
pub mod result;
pub mod score;
pub mod sensors;
pub mod spectrum;
pub mod text;

pub use errors::SensorError;
pub use result::SensorResult;
pub use sensors::articulation::ArticulationSensor;
pub use sensors::phase::PhaseSensor;
pub use sensors::vacuum::VacuumSensor;
