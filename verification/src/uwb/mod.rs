//! The ultra-wideband ranging network: wire formats, TDMA timing and ranging arithmetic.

pub mod bytes;
pub mod packet;
pub mod calibration_packet;
pub mod schedule;
pub mod time;
pub mod clock;
pub mod ranging;
pub mod fingerprint;
pub mod radio;
