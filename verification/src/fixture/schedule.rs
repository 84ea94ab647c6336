//! Timing and pairing of the isolated three-node calibration fixture.

use vstd::prelude::*;

use crate::uwb::calibration_packet::CalibrationPacket;

verus! {

/// Radio addresses of the three nodes.
pub const NODE_IDS: [u16; 3] = [0xC001, 0xC002, 0xC003];

/// Printed at boot so mixed fixture images can be identified without inspecting binaries.
pub const SCHEDULE_REVISION: u8 = 2;

/// The exchanges of a superframe in order, as `(initiator, responder)` node indices.
pub const DIRECTED_PAIRS: [(usize, usize); 6] = [(0, 1), (1, 0), (0, 2), (2, 0), (1, 2), (2, 1)];

/// Number of exchanges in a superframe.
pub const PAIR_COUNT: usize = 6;

/// From the `Sync` to the first exchange.
pub const SYNC_GUARD_US: u32 = 6_000;

/// Length of one exchange.
pub const SLOT_US: u32 = 18_000;

/// From a reception to the reply it causes. Deliberately long, so that a preempted node still meets
/// it.
pub const TURNAROUND_US: u32 = 5_000;

/// From the reception of a `Final` to the `Report` it causes.
pub const REPORT_DELAY_US: u32 = 3_000;

/// How long a receiver stays armed.
pub const RX_WINDOW_US: u32 = 7_000;

/// How long before its exchange a node wakes up to program it.
pub const PROGRAM_GUARD_US: u32 = 2_000;

/// Covers the longest delayed operation plus air time and interrupt margin.
pub const TX_WAIT_US: u32 = 8_000;

/// How far ahead of the current radio time the coordinator programs its `Sync`.
pub const SYNC_SCHEDULE_US: u32 = 1_500;

/// Length of a fixture superframe.
pub const SUPERFRAME_US: u32 = SYNC_GUARD_US + 6 * SLOT_US + 2_000;

/// Start of an exchange, in microseconds after the `Sync`.
pub open spec fn exchange_start(slot: int) -> int {
    SYNC_GUARD_US + slot * SLOT_US
}

/// Whether a packet is the report of one exchange.
pub open spec fn is_report_of(
    packet: CalibrationPacket,
    initiator: u16,
    responder: u16,
    seq: u16,
) -> bool {
    packet matches CalibrationPacket::Report { initiator_id, responder_id, sequence, .. }
        && initiator_id == initiator && responder_id == responder && sequence == seq
}

/// Whether `packet` is the report of the exchange between the given nodes in superframe `sequence`.
pub fn report_matches(
    packet: &CalibrationPacket,
    initiator_id: u16,
    responder_id: u16,
    sequence: u16,
) -> (matched: bool)
    ensures
        matched == is_report_of(*packet, initiator_id, responder_id, sequence),
{
    match packet {
        CalibrationPacket::Report { initiator_id: a, responder_id: b, sequence: s, .. } => *a
            == initiator_id && *b == responder_id && *s == sequence,
        _ => false,
    }
}

/// The schedule contains every ordered pair of distinct nodes exactly once, and nothing else.
pub proof fn every_ordered_pair_once()
    ensures
        DIRECTED_PAIRS@.len() == PAIR_COUNT,
        DIRECTED_PAIRS@.no_duplicates(),
        forall|a: usize, b: usize|
            #[trigger] DIRECTED_PAIRS@.contains((a, b)) <==> a < 3 && b < 3 && a != b,
{
    let p = DIRECTED_PAIRS@;
    assert(p[0] == (0usize, 1usize) && p[1] == (1usize, 0usize) && p[2] == (0usize, 2usize) && p[3]
        == (2usize, 0usize) && p[4] == (1usize, 2usize) && p[5] == (2usize, 1usize));
}

/// The guards leave room for what they guard, and the exchanges fit the superframe.
pub proof fn timing_is_consistent()
    ensures
        SYNC_GUARD_US > PROGRAM_GUARD_US,
        RX_WINDOW_US > TURNAROUND_US,
        TX_WAIT_US > TURNAROUND_US,
        SLOT_US > 2 * TURNAROUND_US + REPORT_DELAY_US + PROGRAM_GUARD_US,
        exchange_start(PAIR_COUNT as int) < SUPERFRAME_US,
{
}

/// The timetable: exchange `slot` starts 6 ms plus as many times 18 ms after the `Sync`, and its
/// frames follow each other 5, 5 and 3 ms apart.
pub proof fn timetable(slot: int)
    ensures
        exchange_start(slot) == 6_000 + slot * 18_000,
        SUPERFRAME_US == 116_000,
        PROGRAM_GUARD_US == 2_000,
        TURNAROUND_US == 5_000,
        REPORT_DELAY_US == 3_000,
        RX_WINDOW_US == 7_000,
        TX_WAIT_US == 8_000,
        SYNC_SCHEDULE_US == 1_500,
{
    assert(slot * SLOT_US == slot * 18_000) by (nonlinear_arith)
        requires
            SLOT_US == 18_000,
    ;
}

/// The two directions of a pair follow each other: first between the first node and each of the
/// others, then between those.
pub proof fn both_directions_follow_each_other(k: int)
    requires
        0 <= k < 3,
    ensures
        DIRECTED_PAIRS@[2 * k].0 == DIRECTED_PAIRS@[2 * k + 1].1,
        DIRECTED_PAIRS@[2 * k].1 == DIRECTED_PAIRS@[2 * k + 1].0,
        DIRECTED_PAIRS@[2 * k].0 < DIRECTED_PAIRS@[2 * k].1,
        DIRECTED_PAIRS@[0] == (0usize, 1usize) && DIRECTED_PAIRS@[2] == (0usize, 2usize)
            && DIRECTED_PAIRS@[4] == (1usize, 2usize),
        NODE_IDS@[k] == 0xC001 + k,
{
}

} // verus!
