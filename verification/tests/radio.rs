//! Decisions about the radio, and the arithmetic of its clock.

use dropbot::uwb::bytes::{read_time, read_u16, read_u32, write_time, write_u16, write_u32};
use dropbot::uwb::calibration_packet::CalibrationPacket;
use dropbot::uwb::clock::{ClockRatio, ClockRatioTracker};
use dropbot::uwb::fingerprint::{
    const_fingerprint, fingerprint_words, fnv_u32, FNV_OFFSET, PHY_FINGERPRINT,
    PROTOCOL_FINGERPRINT,
};
use dropbot::uwb::packet::{Packet, PacketError, PacketKind};
use dropbot::uwb::radio::{
    elapsed_since_us, radio_config, receive_calibration_packet, receive_packet, send_packet,
    sys_time_ticks, take_rx_error, AntennaDelay, Edge, Frame, RxFlags, RxMiss, TxMiss,
};
use dropbot::uwb::ranging::{
    distance_mm_ds_twr, distance_mm_ss_twr, symmetric_delay_delta_ticks, RangeBias,
};
use dropbot::uwb::time::{delayed_after, elapsed, ticks_from_us};

const NO_FLAGS: RxFlags = RxFlags {
    rxphe: false,
    rxfce: false,
    rxfsl: false,
    rxsto: false,
    rxpto: false,
    rxfto: false,
    rxovrr: false,
};

#[test]
fn integers_are_little_endian_and_times_keep_forty_bits() {
    let mut frame = [0u8; 16];
    write_u16(&mut frame, 1, 0x1234);
    write_u32(&mut frame, 3, 0xDEAD_BEEF);
    write_time(&mut frame, 7, 0xAB_CD12_3456_789A);
    assert_eq!(&frame[1..3], &[0x34, 0x12]);
    assert_eq!(&frame[3..7], &[0xEF, 0xBE, 0xAD, 0xDE]);
    assert_eq!(&frame[7..12], &[0x9A, 0x78, 0x56, 0x34, 0x12]);
    assert_eq!(read_u16(&frame, 1), 0x1234);
    assert_eq!(read_u32(&frame, 3), 0xDEAD_BEEF);
    assert_eq!(read_time(&frame, 7), 0x12_3456_789A);
}

#[test]
fn each_malformed_frame_has_its_error() {
    let mut frame = [0u8; 24];
    let sync = Packet::Sync { sequence: 3, sync_tx: 4 };
    let len = sync.encode(&mut frame);
    assert_eq!(Packet::decode(&frame[..len]), Ok(sync));
    assert_eq!(Packet::decode(&[]), Err(PacketError::InvalidHeader));
    assert_eq!(Packet::decode(&frame[..len - 1]), Err(PacketError::InvalidLength));
    let mut bad = frame;
    bad[0] = 0;
    assert_eq!(Packet::decode(&bad), Err(PacketError::InvalidHeader));
    bad = frame;
    bad[1] = 9;
    assert_eq!(Packet::decode(&bad), Err(PacketError::InvalidHeader));
    bad = frame;
    bad[2] = 99;
    assert_eq!(Packet::decode(&bad), Err(PacketError::UnknownKind));
    assert_eq!(PacketKind::try_from(1), Ok(PacketKind::Sync));
    assert_eq!(PacketKind::try_from(0), Err(PacketError::UnknownKind));
}

#[test]
fn the_settings_are_the_fingerprinted_ones() {
    let settings = radio_config();
    assert_eq!(settings.channel, 5);
    assert_eq!(settings.preamble_symbols, 128);
    assert!(settings.ranging_enable && !settings.frame_filtering);
    let words = [
        settings.channel,
        settings.prf_mhz,
        settings.preamble_symbols,
        settings.bitrate_kbps,
        settings.preamble_code,
        settings.sfd,
        settings.sts,
        settings.pac_symbols,
    ];
    assert_eq!(fingerprint_words(&words), PHY_FINGERPRINT);
    let mut other = words;
    other[2] = 64;
    assert_ne!(fingerprint_words(&other), PHY_FINGERPRINT);
    assert_eq!(const_fingerprint(), PROTOCOL_FINGERPRINT);
    assert_eq!(fingerprint_words(&[]), FNV_OFFSET);
    // FNV-1a of four zero bytes.
    assert_eq!(fnv_u32(FNV_OFFSET, 0), 0x4B95_F515);
    assert_eq!(AntennaDelay::nominal(), AntennaDelay { rx: 16_385, tx: 16_385 });
}

#[test]
fn the_first_receive_flag_is_named() {
    assert_eq!(take_rx_error(Some(NO_FLAGS), true), None);
    assert_eq!(take_rx_error(None, true), Some("SYS_STATUS read failed"));
    assert_eq!(take_rx_error(None, false), Some("SYS_STATUS clear failed"));
    assert_eq!(take_rx_error(Some(NO_FLAGS), false), Some("SYS_STATUS clear failed"));
    let mut flags = NO_FLAGS;
    flags.rxovrr = true;
    assert_eq!(take_rx_error(Some(flags), true), Some("receiver overrun"));
    flags.rxfto = true;
    assert_eq!(take_rx_error(Some(flags), true), Some("frame wait timeout"));
    flags.rxpto = true;
    assert_eq!(take_rx_error(Some(flags), true), Some("preamble timeout"));
    flags.rxsto = true;
    assert_eq!(take_rx_error(Some(flags), true), Some("SFD timeout"));
    flags.rxfsl = true;
    assert_eq!(take_rx_error(Some(flags), true), Some("Reed-Solomon sync loss"));
    flags.rxfce = true;
    assert_eq!(take_rx_error(Some(flags), true), Some("FCS error"));
    flags.rxphe = true;
    assert_eq!(take_rx_error(Some(flags), true), Some("PHY header error"));
}

#[test]
fn a_reception_ends_in_a_packet_or_a_reason() {
    let mut data = [0u8; 24];
    let sync = Packet::Sync { sequence: 3, sync_tx: 4 };
    let len = sync.encode(&mut data);
    let frame = Some(Frame { payload: Some(&data[..len]), rx_ticks: 99 });
    assert_eq!(receive_packet(Edge::Fired, frame, None), Ok((sync, 99)));
    assert_eq!(
        receive_packet(Edge::Fired, None, Some("FCS error")),
        Err(RxMiss::Radio { latched: Some("FCS error") })
    );
    assert_eq!(
        receive_packet(Edge::TimedOut, frame, Some("SFD timeout")),
        Err(RxMiss::Timeout { latched: Some("SFD timeout") })
    );
    assert_eq!(receive_packet(Edge::PinError, frame, None), Err(RxMiss::Irq));
    let empty = Some(Frame { payload: None, rx_ticks: 99 });
    assert_eq!(
        receive_packet(Edge::Fired, empty, None),
        Err(RxMiss::Undecodable { payload_len: 0 })
    );
    // The fixture's frames are foreign to the ranging schedule, and the other way round.
    let mut data = [0u8; 24];
    let packet = CalibrationPacket::Sync { sequence: 3 };
    let len = packet.encode(&mut data);
    let frame = Some(Frame { payload: Some(&data[..len]), rx_ticks: 99 });
    assert_eq!(
        receive_packet(Edge::Fired, frame, None),
        Err(RxMiss::Undecodable { payload_len: len })
    );
    assert_eq!(receive_calibration_packet(Edge::Fired, frame, None), Ok((packet, 99)));
    assert_eq!(
        receive_calibration_packet(Edge::TimedOut, frame, None),
        Err(RxMiss::Timeout { latched: None })
    );
    assert_eq!(receive_calibration_packet(Edge::PinError, frame, None), Err(RxMiss::Irq));
}

#[test]
fn a_transmission_is_confirmed_or_not() {
    assert_eq!(send_packet(Edge::Fired, Some(7)), Ok(7));
    assert_eq!(send_packet(Edge::Fired, None), Err(TxMiss::Rejected));
    assert_eq!(send_packet(Edge::TimedOut, Some(7)), Err(TxMiss::Timeout));
    assert_eq!(send_packet(Edge::PinError, Some(7)), Err(TxMiss::Irq));
}

#[test]
fn radio_time_wraps_invisibly() {
    let modulus = 0x100_0000_0000u64;
    assert_eq!(elapsed(5, modulus - 5), 10);
    assert_eq!(elapsed_since_us(ticks_from_us(100) - 5, modulus - 5), 99);
    assert_eq!(sys_time_ticks(0xFFFF_FFFF), 0xFF_FFFF_FF00);
    assert_eq!(delayed_after(modulus - 512, 1_000) % 512, 0);
    assert_eq!(
        delayed_after(modulus - 512, 1_000),
        delayed_after(2 * modulus - 512, 1_000)
    );
}

#[test]
fn a_single_sided_exchange_recovers_the_flight() {
    // 213 ticks of flight are 999.3 mm.
    let reply = ticks_from_us(1_000);
    let ideal = ClockRatio::ideal();
    assert_eq!(distance_mm_ss_twr(0, 5, 5 + reply, 2 * 213 + reply, ideal), Some(999));
    // Moving either epoch changes nothing.
    let far = 0xFF_FFFF_FF00;
    assert_eq!(
        distance_mm_ss_twr(far, 5, 5 + reply, (far + 2 * 213 + reply) % 0x100_0000_0000, ideal),
        Some(999)
    );
    // No round trip, and a reply longer than the round trip, even by one tick.
    assert_eq!(distance_mm_ss_twr(9, 5, 5, 9, ideal), None);
    assert_eq!(distance_mm_ss_twr(0, 0, 101, 100, ideal), None);
    assert_eq!(distance_mm_ss_twr(0, 0, 100, 100, ideal), Some(0));
}

#[test]
fn a_double_sided_exchange_cancels_the_clock_rates() {
    // Flight 300, turnarounds 1000 and 2000, clocks at 11 and 7 ticks per unit.
    let poll_tx = 0;
    let poll_rx = 1_000_000;
    let response_tx = poll_rx + 7 * 2_000;
    let response_rx = poll_tx + 11 * (2 * 300 + 2_000);
    let final_tx = response_rx + 11 * 1_000;
    let final_rx = response_tx + 7 * (2 * 300 + 1_000);
    // 2 * 11 * 7 * 300 / 18 ticks are 2566, or 12039 mm.
    assert_eq!(
        distance_mm_ds_twr(poll_tx, poll_rx, response_tx, response_rx, final_tx, final_rx),
        Some(12_039)
    );
    assert_eq!(distance_mm_ds_twr(7, 7, 7, 7, 7, 7), None);
}

#[test]
fn ratios_scale_durations() {
    let fast = ClockRatio { offset_ppb: 20_000 };
    assert_eq!(fast.scale(1_000_000_000), 1_000_020_000);
    assert_eq!(ClockRatio { offset_ppb: -3 }.scale(1_000_000_000), 999_999_997);
    assert_eq!(ClockRatio::default(), ClockRatio::ideal());
}

#[test]
fn estimates_blend_towards_the_measured_rate() {
    let mut tracker = ClockRatioTracker::default();
    assert!(!tracker.is_converged());
    let second = ticks_from_us(1_000_000);
    tracker.update(0, 0);
    // The first estimate is taken as it is, and the baseline moves on.
    let first = tracker.update(second, second + second / 100_000).offset_ppb;
    assert_eq!(first, 10_000);
    // The clocks now run alike: a quarter of the way back.
    let next = tracker.update(2 * second, 2 * second + second / 100_000).offset_ppb;
    assert_eq!(next, 7_500);
    assert_eq!(tracker.ratio().offset_ppb, next);
    // An implausible pair moves nothing.
    assert_eq!(tracker.update(3 * second, 4 * second).offset_ppb, next);
    assert!(tracker.is_converged());
    tracker.reset();
    assert_eq!(tracker.ratio(), ClockRatio::ideal());
    assert!(!tracker.is_converged());
}

#[test]
fn corrections_and_delay_steps_are_exact() {
    assert_eq!(RangeBias::none().correct(1_234), 1_234);
    assert_eq!(RangeBias::default(), RangeBias::none());
    let bias = RangeBias { offset_mm: 30, scale_ppm: -10_000 };
    assert_eq!(bias.correct(1_000), 980);
    // 47 mm are 10.02 ticks.
    assert_eq!(symmetric_delay_delta_ticks(47), 10);
    assert_eq!(symmetric_delay_delta_ticks(-47), -10);
    assert_eq!(symmetric_delay_delta_ticks(2), 0);
    assert_eq!(symmetric_delay_delta_ticks(3), 1);
}
