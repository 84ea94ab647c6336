//! The 128x64 status display: what is drawn where.

pub mod label;
pub mod wrap;
pub mod numbers;
pub mod canvas;
pub mod pages;
