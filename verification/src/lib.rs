//! Verified core of the dropbot indoor-localization system.

pub mod rounding;
pub mod uwb;
pub mod storage;
pub mod fixture;
pub mod anchor;
pub mod display;
pub mod battery;
pub mod robot;
