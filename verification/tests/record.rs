//! The stored antenna-delay record.

use dropbot::storage::record::{
    select_newest, AntennaDelayRecord, RecordError, DEVICE_ID_LEN, NOMINAL_DELAY_TICKS, RECORD_LEN,
};
use dropbot::uwb::fingerprint::PHY_FINGERPRINT;

const DEVICE: [u8; DEVICE_ID_LEN] = *b"A1B2C3";

fn record(generation: u32) -> AntennaDelayRecord {
    AntennaDelayRecord::new(DEVICE, generation, 16_400, 16_400).unwrap()
}

#[test]
fn record_round_trip_and_crc_failure() {
    let expected = record(7);
    let mut bytes = expected.encode();
    assert_eq!(
        AntennaDelayRecord::decode(&bytes, &DEVICE, PHY_FINGERPRINT),
        Ok(expected)
    );
    bytes[20] ^= 1;
    assert_eq!(
        AntennaDelayRecord::decode(&bytes, &DEVICE, PHY_FINGERPRINT),
        Err(RecordError::Crc)
    );
}

#[test]
fn rejects_another_robot_or_phy() {
    let bytes = record(1).encode();
    assert_eq!(
        AntennaDelayRecord::decode(&bytes, b"FFFFFF", PHY_FINGERPRINT),
        Err(RecordError::Device)
    );
    assert_eq!(
        AntennaDelayRecord::decode(&bytes, &DEVICE, PHY_FINGERPRINT ^ 1),
        Err(RecordError::Protocol)
    );
}

#[test]
fn journal_rolls_back_to_the_last_valid_slot() {
    let older = record(4);
    let newer = record(5);
    assert_eq!(select_newest(Some(older), Some(newer)), Some((1, newer)));
    assert_eq!(select_newest(Some(older), None), Some((0, older)));
}

#[test]
fn every_interrupted_write_rolls_back_to_the_previous_sector() {
    let older = record(8);
    let newer_bytes = record(9).encode();
    for bytes_written in 0..RECORD_LEN {
        let mut torn = [0xFF; RECORD_LEN];
        torn[..bytes_written].copy_from_slice(&newer_bytes[..bytes_written]);
        let decoded =
            AntennaDelayRecord::decode(&torn, &DEVICE, PHY_FINGERPRINT).ok();
        assert_eq!(select_newest(Some(older), decoded), Some((0, older)));
    }
    let complete =
        AntennaDelayRecord::decode(&newer_bytes, &DEVICE, PHY_FINGERPRINT)
            .unwrap();
    assert_eq!(
        select_newest(Some(older), Some(complete)),
        Some((1, complete))
    );
}

#[test]
fn implausible_delay_is_rejected_before_flash() {
    assert_eq!(
        AntennaDelayRecord::new(DEVICE, 1, 10_000, NOMINAL_DELAY_TICKS),
        Err(RecordError::DelayOutOfRange)
    );
}
