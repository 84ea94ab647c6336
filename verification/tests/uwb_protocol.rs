//! The wire protocol, the TDMA timing and the ranging arithmetic.

use dropbot::uwb::bytes::TIME_MASK;
use dropbot::uwb::calibration_packet::CalibrationPacket;
use dropbot::uwb::clock::{ClockRatio, ClockRatioTracker};
use dropbot::uwb::fingerprint::{const_fingerprint, PROTOCOL_FINGERPRINT};
use dropbot::uwb::packet::{Packet, PacketError, PacketKind, MAGIC};
use dropbot::uwb::ranging::{
    distance_mm_ds_twr, distance_mm_ss_twr, symmetric_delay_delta_ticks, RangeBias,
};
use dropbot::uwb::schedule::{
    response_offset, response_subslot, robot_slot, ACTIVE_ANCHOR_COUNT, ACTIVE_TAG_COUNT,
    MAX_FRAME_AIRTIME_US, RESPONSE_BLOCK_US, ROBOT_SLOT_US, SUBSLOT_US, SUPERFRAME_US,
    SYNC_GUARD_US, SYNC_TAIL_GUARD_US,
};
use dropbot::uwb::time::{delayed_after, delayed_tx_timestamp, ticks_from_us};

/// Bytes the radio driver hands back beyond what was sent.
const DRIVER_EXCESS: usize = 4;

fn round_trip(packet: Packet) -> Packet {
    let mut buffer = [0u8; Packet::MAX_LEN];
    let len = packet.encode(&mut buffer);
    Packet::decode(&buffer[..len]).expect("a freshly encoded packet must decode")
}

#[test]
fn protocol_round_trip() {
    for packet in [
        Packet::Sync {
            sequence: 0x1234,
            sync_tx: 0x12_3456_789A,
        },
        Packet::Poll {
            tag_id: 0xB003,
            sequence: 7,
            poll_tx: 0xFF_FFFF_FFFF,
        },
        Packet::Response {
            anchor_id: 0xA002,
            tag_id: 0xB00C,
            sequence: 0xFFFF,
            poll_rx: 1,
            response_tx: 0x80_0000_0000,
            master_offset: 0x00_0000_2710,
        },
    ] {
        assert_eq!(round_trip(packet), packet);
    }
}

fn calibration_round_trip(packet: CalibrationPacket) -> CalibrationPacket {
    let mut buffer = [0u8; CalibrationPacket::MAX_LEN];
    let len = packet.encode(&mut buffer);
    CalibrationPacket::decode(&buffer[..len]).expect("fixture packet must round-trip")
}

#[test]
fn calibration_protocol_round_trip_and_isolation() {
    for packet in [
        CalibrationPacket::Sync { sequence: 9 },
        CalibrationPacket::Poll {
            initiator_id: 0xC001,
            responder_id: 0xC002,
            sequence: 10,
            poll_tx: 0x11_2233_4455,
        },
        CalibrationPacket::Response {
            initiator_id: 0xC001,
            responder_id: 0xC002,
            sequence: 10,
            poll_rx: 1,
            response_tx: 2,
        },
        CalibrationPacket::Final {
            initiator_id: 0xC001,
            responder_id: 0xC002,
            sequence: 10,
            poll_tx: 1,
            response_rx: 2,
            final_tx: 3,
        },
        CalibrationPacket::Report {
            initiator_id: 0xC001,
            responder_id: 0xC002,
            sequence: 10,
            distance_mm: 2_345,
        },
    ] {
        assert_eq!(calibration_round_trip(packet), packet);
        let mut buffer = [0u8; CalibrationPacket::MAX_LEN];
        let len = packet.encode(&mut buffer);
        assert_eq!(
            Packet::decode(&buffer[..len]),
            Err(PacketError::InvalidHeader)
        );
    }

    let production = Packet::Poll {
        tag_id: 0xB001,
        sequence: 1,
        poll_tx: 2,
    };
    let mut buffer = [0u8; Packet::MAX_LEN];
    let len = production.encode(&mut buffer);
    assert_eq!(
        CalibrationPacket::decode(&buffer[..len]),
        Err(PacketError::InvalidHeader)
    );
}

#[test]
fn symmetric_delay_conversion_uses_one_tick_per_node_contribution() {
    assert_eq!(symmetric_delay_delta_ticks(0), 0);
    assert_eq!(symmetric_delay_delta_ticks(47), 10);
    assert_eq!(symmetric_delay_delta_ticks(-47), -10);
    assert_eq!(symmetric_delay_delta_ticks(469), 100);
}

#[test]
fn decode_ignores_driver_trailing_bytes() {
    let packet = Packet::Response {
        anchor_id: 0xA001,
        tag_id: 0xB001,
        sequence: 42,
        poll_rx: 0x11_2233_4455,
        response_tx: 0x66_7788_99AA,
        master_offset: 0,
    };
    let mut buffer = [0u8; Packet::MAX_LEN];
    let len = packet.encode(&mut buffer);

    let mut framed = [0xAAu8; Packet::MAX_LEN + DRIVER_EXCESS];
    framed[..len].copy_from_slice(&buffer[..len]);
    assert_eq!(
        Packet::decode(&framed[..len + DRIVER_EXCESS]),
        Ok(packet),
        "a longer-than-encoded payload must still decode; requiring an exact length \
         rejected every frame on every node"
    );
}

#[test]
fn decode_still_rejects_truncated_frames() {
    let mut buffer = [0u8; Packet::MAX_LEN];
    let len = Packet::Response {
        anchor_id: 0xA001,
        tag_id: 0xB001,
        sequence: 1,
        poll_rx: 1,
        response_tx: 2,
        master_offset: 3,
    }
    .encode(&mut buffer);
    assert_eq!(
        Packet::decode(&buffer[..len - 1]),
        Err(PacketError::InvalidLength)
    );
}

#[test]
fn decode_rejects_the_previous_protocol_version() {
    let frame = [
        MAGIC,
        1,
        PacketKind::Poll.code(),
        0,
        0,
        0,
        0,
        0,
        0,
        0,
        0,
        0,
        0,
        0,
    ];
    assert_eq!(
        Packet::decode(&frame),
        Err(PacketError::InvalidHeader),
        "a v1 node's frames must be rejected at the header, not misread as v2"
    );
}

#[test]
fn robot_slots_are_contiguous_and_fit_the_superframe() {
    for tag_index in 0..ACTIVE_TAG_COUNT {
        let start = robot_slot(tag_index);
        assert_eq!(start, SYNC_GUARD_US + tag_index as u32 * ROBOT_SLOT_US);
        if tag_index > 0 {
            assert_eq!(start - robot_slot(tag_index - 1), ROBOT_SLOT_US);
        }
    }
    let last_end = robot_slot(ACTIVE_TAG_COUNT - 1) + ROBOT_SLOT_US;
    assert_eq!(
        SUPERFRAME_US - last_end,
        SYNC_TAIL_GUARD_US,
        "the master programs the next Sync in exactly this gap"
    );
}

#[test]
fn response_subslots_never_collide_and_rotate() {
    for sequence in 0..=8u16 {
        let mut offsets = [0u32; ACTIVE_ANCHOR_COUNT];
        for (anchor_index, offset) in offsets.iter_mut().enumerate() {
            *offset = response_offset(anchor_index, sequence);
        }
        let mut sorted = offsets;
        sorted.sort_unstable();
        for pair in sorted.windows(2) {
            assert_eq!(
                pair[1] - pair[0],
                SUBSLOT_US,
                "every anchor must get its own sub-slot, sequence {sequence}"
            );
        }
        assert!(
            sorted[ACTIVE_ANCHOR_COUNT - 1] + MAX_FRAME_AIRTIME_US <= ROBOT_SLOT_US,
            "sub-slots overflow the robot slot at sequence {sequence}"
        );
    }

    assert_ne!(response_offset(0, 0), response_offset(0, 1));
    assert_eq!(
        response_offset(0, 0),
        response_offset(0, ACTIVE_ANCHOR_COUNT as u16),
        "the rotation has period ACTIVE_ANCHOR_COUNT"
    );
}

#[test]
fn superframe_matches_the_documented_rate() {
    assert_eq!(ROBOT_SLOT_US, 280 + 800 + 4 * 1_000 + 400);
    assert_eq!(SUPERFRAME_US, 3_000 + 12 * ROBOT_SLOT_US + 2_000);
    assert_eq!(SUPERFRAME_US, 70_760);
    assert_eq!(1_000_000 / SUPERFRAME_US, 14);
}

#[test]
fn the_response_block_outlasts_the_last_sub_slot() {
    assert_eq!(
        response_subslot(0, 3),
        3,
        "anchor 0 answers last at sequence 3"
    );

    let last_frame_ends = response_offset(0, 3) + MAX_FRAME_AIRTIME_US;
    assert!(
        RESPONSE_BLOCK_US >= last_frame_ends,
        "the block ({RESPONSE_BLOCK_US} us) must outlast the last sub-slot's frame \
         ({last_frame_ends} us)"
    );
    assert_eq!(RESPONSE_BLOCK_US, 800 + 4 * 1_000 + 280);
}

#[test]
fn ticks_from_us_matches_driver_scale() {
    assert_eq!(ticks_from_us(1), 63_898);
    assert_eq!(ticks_from_us(1_000), 63_897_600);
}

#[test]
fn delayed_after_rounds_to_dx_time_granularity() {
    let base = 0x1234_5678u64;
    let scheduled = delayed_after(base, 1_000);
    assert_eq!(scheduled & 0x1ff, 0, "DX_TIME ignores the low 9 bits");
    assert!(scheduled <= base + ticks_from_us(1_000));
}

#[test]
fn delayed_tx_timestamp_adds_antenna_delay_and_wraps() {
    assert_eq!(delayed_tx_timestamp(1_000, 16_385), 17_385);
    assert_eq!(delayed_tx_timestamp(TIME_MASK, 1), 0);
}

/// A flight of one metre, in radio ticks.
const ONE_METRE_TICKS: u64 = 213;

/// Ticks a counter running `anchor_ppb` fast reports for a duration.
fn in_anchor_ticks(robot_ticks: u64, anchor_ppb: i64) -> u64 {
    let t = robot_ticks as i128;
    (t + (t * anchor_ppb as i128) / 1_000_000_000) as u64
}

/// A single-sided exchange with unrelated epochs: the robot polls, the anchor replies.
fn synth_ss_twr(tof_ticks: u64, reply_us: u32, anchor_ppb: i64) -> (u64, u64, u64, u64) {
    let reply = ticks_from_us(reply_us);
    let poll_tx = 1_000_000u64;
    let poll_rx = 500_000_000u64;
    let response_tx = poll_rx + in_anchor_ticks(reply, anchor_ppb);
    let response_rx = poll_tx + tof_ticks + reply + tof_ticks;
    (poll_tx, poll_rx, response_tx, response_rx)
}

/// A three-message exchange over the same geometry, initiated by the anchor.
fn synth_ds_twr(
    tof_ticks: u64,
    robot_reply_us: u32,
    anchor_reply_us: u32,
    anchor_ppb: i64,
) -> (u64, u64, u64, u64, u64, u64) {
    let robot_reply = ticks_from_us(robot_reply_us);
    let anchor_reply = ticks_from_us(anchor_reply_us);
    let anchor_epoch = 900_000_000u64;
    let robot_epoch = 2_000_000u64;

    let t_poll_rx = tof_ticks;
    let t_request_tx = t_poll_rx + robot_reply;
    let t_request_rx = t_request_tx + tof_ticks;
    let t_response_tx = t_request_rx + anchor_reply;
    let t_response_rx = t_response_tx + tof_ticks;

    (
        anchor_epoch,
        robot_epoch + t_poll_rx,
        robot_epoch + t_request_tx,
        anchor_epoch + in_anchor_ticks(t_request_rx, anchor_ppb),
        anchor_epoch + in_anchor_ticks(t_response_tx, anchor_ppb),
        robot_epoch + t_response_rx,
    )
}

#[test]
fn one_metre_of_flight_reads_about_one_metre() {
    let (poll_tx, poll_rx, response_tx, response_rx) = synth_ss_twr(ONE_METRE_TICKS, 800, 0);
    let mm = distance_mm_ss_twr(
        poll_tx,
        poll_rx,
        response_tx,
        response_rx,
        ClockRatio::ideal(),
    )
    .expect("a well-formed exchange must range");
    assert!(
        (990..=1_010).contains(&mm),
        "expected about 1000 mm, got {mm}"
    );
}

#[test]
fn uncorrected_clock_offset_costs_metres() {
    let (poll_tx, poll_rx, response_tx, response_rx) =
        synth_ss_twr(ONE_METRE_TICKS, 3_200, -20_000);
    let uncorrected = distance_mm_ss_twr(
        poll_tx,
        poll_rx,
        response_tx,
        response_rx,
        ClockRatio::ideal(),
    )
    .expect("still produces a number, which is exactly the problem");
    assert!(
        uncorrected.abs_diff(1_000) > 5_000,
        "expected metres of error from an uncorrected 20 ppm offset, got {uncorrected} mm"
    );

    let corrected = distance_mm_ss_twr(
        poll_tx,
        poll_rx,
        response_tx,
        response_rx,
        ClockRatio { offset_ppb: 20_000 },
    )
    .expect("a well-formed exchange must range");
    assert!(
        corrected.abs_diff(1_000) < 20,
        "expected within 20 mm after correction, got {corrected} mm"
    );
}

#[test]
fn uncorrected_clock_offset_in_the_other_direction_is_rejected() {
    let (poll_tx, poll_rx, response_tx, response_rx) =
        synth_ss_twr(ONE_METRE_TICKS, 3_200, 20_000);
    assert_eq!(
        distance_mm_ss_twr(
            poll_tx,
            poll_rx,
            response_tx,
            response_rx,
            ClockRatio::ideal()
        ),
        None,
    );
    let corrected = distance_mm_ss_twr(
        poll_tx,
        poll_rx,
        response_tx,
        response_rx,
        ClockRatio {
            offset_ppb: -20_000,
        },
    )
    .expect("a well-formed exchange must range once corrected");
    assert!(
        corrected.abs_diff(1_000) < 20,
        "expected within 20 mm after correction, got {corrected} mm"
    );
}

#[test]
fn ss_twr_agrees_with_the_clock_offset_free_reference() {
    let tof = 3 * ONE_METRE_TICKS;
    let anchor_ppb = 15_000i64;

    let (poll_tx, poll_rx, response_tx, response_rx) = synth_ss_twr(tof, 2_000, anchor_ppb);
    let ss = distance_mm_ss_twr(
        poll_tx,
        poll_rx,
        response_tx,
        response_rx,
        ClockRatio {
            offset_ppb: -anchor_ppb as i32,
        },
    )
    .expect("SS-TWR must range");

    let (ds_poll_tx, ds_poll_rx, ds_request_tx, ds_request_rx, ds_response_tx, ds_response_rx) =
        synth_ds_twr(tof, 1_500, 2_000, anchor_ppb);
    let ds = distance_mm_ds_twr(
        ds_poll_tx,
        ds_poll_rx,
        ds_request_tx,
        ds_request_rx,
        ds_response_tx,
        ds_response_rx,
    )
    .expect("DS-TWR must range");

    assert!(
        ss.abs_diff(ds) < 20,
        "corrected SS-TWR ({ss} mm) must agree with DS-TWR ({ds} mm)"
    );
    assert!(ds.abs_diff(3_000) < 20, "expected ~3 m, got {ds} mm");
}

#[test]
fn programmed_transmit_times_would_inflate_distance() {
    let tof = 213u64;
    let antenna_delay = 16_385u16;
    let poll_tx = 1_000_000u64;
    let poll_rx = 500_000_000u64;
    let scheduled = delayed_after(poll_rx, 2_000);
    let response_rx = poll_tx + tof + (scheduled - poll_rx) + u64::from(antenna_delay) + tof;

    let correct = distance_mm_ss_twr(
        poll_tx,
        poll_rx,
        delayed_tx_timestamp(scheduled, antenna_delay),
        response_rx,
        ClockRatio::ideal(),
    )
    .expect("must range");
    let wrong = distance_mm_ss_twr(poll_tx, poll_rx, scheduled, response_rx, ClockRatio::ideal())
        .expect("must range");

    assert!(correct.abs_diff(1_000) < 20, "expected ~1 m, got {correct}");
    assert!(
        wrong > 30_000,
        "expected tens of metres of inflation, got {wrong} mm"
    );
}

#[test]
fn distance_handles_timestamp_wrap() {
    let tof = 213u64;
    let reply = ticks_from_us(800);
    let poll_tx = TIME_MASK - 100;
    let poll_rx = 500_000_000u64;
    let response_tx = poll_rx + reply;
    let response_rx = (poll_tx + tof + reply + tof) & TIME_MASK;
    let mm = distance_mm_ss_twr(
        poll_tx,
        poll_rx,
        response_tx,
        response_rx,
        ClockRatio::ideal(),
    )
    .expect("a wrapped exchange must still range");
    assert!((990..=1_010).contains(&mm), "expected ~1 m, got {mm}");
}

#[test]
fn clock_ratio_tracker_converges_on_a_synthetic_offset() {
    let anchor_ppb = 20_000i64;
    let mut tracker = ClockRatioTracker::default();
    assert!(!tracker.is_converged());
    assert_eq!(tracker.ratio(), ClockRatio::ideal());

    let mut remote = 1_000_000u64;
    let mut local = 7_000_000u64;
    let step_local = ticks_from_us(SUPERFRAME_US);
    for i in 0..40u64 {
        let step_remote = (step_local as i128
            + (step_local as i128 * anchor_ppb as i128) / 1_000_000_000)
            as u64;
        remote += step_remote;
        local += step_local + if i % 2 == 0 { 53 } else { 0 };
        tracker.update(remote, local);
    }

    assert!(tracker.is_converged());
    let measured = tracker.ratio().offset_ppb;
    assert!(
        (measured + 20_000).abs() < 1_000,
        "expected about -20000 ppb, got {measured}"
    );
}

#[test]
fn clock_ratio_tracker_rejects_implausible_pairs() {
    let mut tracker = ClockRatioTracker::default();
    let step = ticks_from_us(SUPERFRAME_US);
    let mut remote = 1_000_000u64;
    let mut local = 1_000_000u64;
    for _ in 0..10 {
        remote += step;
        local += step;
        tracker.update(remote, local);
    }
    let good = tracker.ratio();
    assert!(tracker.is_converged());

    tracker.update(remote + step, local + step * 2);
    assert_eq!(
        tracker.ratio(),
        good,
        "an implausible pair must not move the estimate"
    );
}

#[test]
fn clock_ratio_tracker_needs_a_baseline_before_estimating() {
    let mut tracker = ClockRatioTracker::default();
    tracker.update(1_000_000, 1_000_000);
    tracker.update(1_000_000 + ticks_from_us(SUBSLOT_US), 1_000_000);
    assert!(
        !tracker.is_converged(),
        "a sub-millisecond baseline must not produce an estimate"
    );
    assert_eq!(tracker.ratio(), ClockRatio::ideal());
}

#[test]
fn range_bias_removes_both_terms() {
    let bias = RangeBias {
        offset_mm: 120,
        scale_ppm: 2_000,
    };
    assert_eq!(bias.correct(5_130), 5_000);
    assert_eq!(bias.correct(1_122), 1_000);
    assert_eq!(RangeBias::none().correct(1_234), 1_234);
}

#[test]
fn range_bias_saturates_instead_of_wrapping() {
    let bias = RangeBias {
        offset_mm: 5_000,
        scale_ppm: 0,
    };
    assert_eq!(bias.correct(100), 0);
}

#[test]
fn protocol_fingerprint_is_stable_and_nonzero() {
    assert_ne!(PROTOCOL_FINGERPRINT, 0);
    assert_eq!(PROTOCOL_FINGERPRINT, const_fingerprint());
}
