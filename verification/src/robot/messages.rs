//! Messages of the provisioning and localization topics.

use vstd::prelude::*;

verus! {

/// Per-robot provisioning command.
#[derive(Clone, Copy, Debug, PartialEq, Eq, Structural)]
pub enum CalibrationCommand {
    StartCapture { session_id: u32, duration_s: u16 },
    ApplyRobotDelay { session_id: u32, rx_ticks: u16, tx_ticks: u16 },
    ClearRobotDelay { session_id: u32 },
}

/// How long a capture lasts when its command does not say.
pub fn default_capture_seconds() -> (seconds: u16)
    ensures
        seconds == 60,
{
    60
}

/// Request to the one task that owns flash.
#[derive(Clone, Copy, Debug, PartialEq, Eq, Structural)]
pub struct CalibrationWriteRequest {
    pub session_id: u32,
    pub rx_ticks: u16,
    pub tx_ticks: u16,
}

/// What came of a write request.
#[derive(Clone, Copy, Debug, PartialEq, Eq, Structural)]
pub enum CalibrationWriteResult {
    Saved { session_id: u32, generation: u32, rx_ticks: u16, tx_ticks: u16 },
    Failed { session_id: u32 },
}

/// Status of the provisioning procedure. `reason` values are stable machine-readable strings.
#[derive(Clone, Copy, Debug, PartialEq, Eq)]
pub enum CalibrationStatus {
    Armed { window_s: u16, current_generation: u32, current_rx_ticks: u16, current_tx_ticks: u16 },
    CaptureStarted { session_id: u32, duration_s: u16 },
    CaptureFinished { session_id: u32 },
    AppliedPendingReboot { session_id: u32, generation: u32, rx_ticks: u16, tx_ticks: u16 },
    Rejected { session_id: u32, reason: &'static str },
}

/// Pair result emitted by the calibration fixture.
#[derive(Clone, Copy, Debug, PartialEq, Eq, Structural)]
pub struct CalibrationSample {
    pub session_id: u32,
    pub initiator_id: u16,
    pub responder_id: u16,
    pub sequence: u16,
    pub distance_mm: u32,
}

/// A capture in progress.
#[derive(Clone, Copy, Debug, PartialEq, Eq, Structural)]
pub struct CalibrationCapture {
    pub session_id: u32,
    pub expires_at_us: u64,
}

/// One accepted range, as computed by the robot from a single-sided two-way exchange.
#[derive(Clone, Copy, Debug, PartialEq, Eq, Structural)]
pub struct RangeMeasurement {
    pub anchor_id: u16,
    pub distance_mm: u32,
    pub sequence: u16,
    /// When this exchange's `Poll` went out, in microseconds since boot.
    pub timestamp_us: u64,
    /// The clock-rate correction applied to this exchange, in parts per billion.
    pub clock_ratio_ppb: i32,
    /// Whether that correction came from a measured baseline rather than being assumed. A consumer
    /// must not fuse a measurement with this false.
    pub clock_ratio_converged: bool,
}

} // verus!
