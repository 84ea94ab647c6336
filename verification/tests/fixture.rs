//! The calibration fixture.

use dropbot::fixture::schedule::{
    report_matches, DIRECTED_PAIRS, NODE_IDS, SLOT_US, SUPERFRAME_US, SYNC_GUARD_US,
};
use dropbot::uwb::calibration_packet::CalibrationPacket;

#[test]
fn schedule_contains_every_pair_in_both_directions_once() {
    for a in 0..3 {
        for b in 0..3 {
            if a != b {
                assert_eq!(
                    DIRECTED_PAIRS
                        .iter()
                        .filter(|&&(i, r)| i == a && r == b)
                        .count(),
                    1
                );
            }
        }
    }
    assert!(SYNC_GUARD_US + DIRECTED_PAIRS.len() as u32 * SLOT_US < SUPERFRAME_US);
}

#[test]
fn observer_accepts_only_the_expected_report() {
    let expected = CalibrationPacket::Report {
        initiator_id: NODE_IDS[1],
        responder_id: NODE_IDS[2],
        sequence: 42,
        distance_mm: 2_000,
    };
    let wrong_direction = CalibrationPacket::Report {
        initiator_id: NODE_IDS[2],
        responder_id: NODE_IDS[1],
        sequence: 42,
        distance_mm: 2_000,
    };
    let final_packet = CalibrationPacket::Final {
        initiator_id: NODE_IDS[1],
        responder_id: NODE_IDS[2],
        sequence: 42,
        poll_tx: 1,
        response_rx: 2,
        final_tx: 3,
    };

    assert!(report_matches(&expected, NODE_IDS[1], NODE_IDS[2], 42));
    assert!(!report_matches(
        &wrong_direction,
        NODE_IDS[1],
        NODE_IDS[2],
        42
    ));
    assert!(!report_matches(&final_packet, NODE_IDS[1], NODE_IDS[2], 42));
}
