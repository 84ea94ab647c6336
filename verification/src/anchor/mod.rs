//! The fixed anchor nodes.

pub mod gauge;
pub mod hardware;
pub mod power;
pub mod session;
