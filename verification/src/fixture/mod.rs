//! The three-node antenna-delay calibration fixture.

pub mod schedule;
pub mod exchange;
pub mod superframe;
pub mod node;
