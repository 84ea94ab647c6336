//! Persistent antenna-delay calibration: the record format and the two-sector flash journal.

pub mod crc;
pub mod record;
pub mod journal;
