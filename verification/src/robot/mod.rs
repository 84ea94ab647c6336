//! The mobile robots.

pub mod anchors;
pub mod attitude;
pub mod configuration;
pub mod device;
pub mod events;
pub mod heading;
pub mod imu;
pub mod messages;
pub mod motor;
pub mod pose;
pub mod tag_id;
