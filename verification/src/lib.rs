//! Hall-effect key logic for an analog keyboard: per-key calibration,
//! travel measurement, fixed-threshold and rapid-trigger actuation, together
//! with the small pieces of firmware logic around it (LED frame encoding and
//! the NKRO report).

pub mod he_logic;
pub mod key_laws;
pub mod led;
pub mod report;
pub mod sample_laws;
pub mod scan;
