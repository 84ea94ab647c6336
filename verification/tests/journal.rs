//! The two-sector journal and the checksum it rests on.

use dropbot::storage::crc::crc32;
use dropbot::storage::journal::{load, store, LoadedCalibration, StoreError, SLOT_OFFSETS};
use dropbot::storage::record::{
    validate_delay, AntennaDelayRecord, RecordError, MAX_DELAY_DELTA_TICKS, NOMINAL_DELAY_TICKS,
    RECORD_LEN,
};
use dropbot::uwb::fingerprint::PHY_FINGERPRINT;

const DEVICE: [u8; 6] = *b"A1B2C3";

#[test]
fn crc_matches_the_catalogue_check_value() {
    assert_eq!(crc32(b"123456789"), 0xCBF4_3926);
    assert_eq!(crc32(b""), 0);
}

#[test]
fn record_layout_is_fixed() {
    let record = AntennaDelayRecord::new(DEVICE, 0x0102_0304, 16_400, 16_401).unwrap();
    let data = record.encode();
    assert_eq!(&data[..6], &[b'U', b'W', b'B', b'C', 1, 0xFF]);
    assert_eq!(&data[6..12], &DEVICE);
    assert_eq!(&data[12..16], &PHY_FINGERPRINT.to_le_bytes());
    assert_eq!(&data[16..20], &[4, 3, 2, 1]);
    assert_eq!(&data[20..24], &[0x10, 0x40, 0x11, 0x40]);
    assert_eq!(&data[24..28], &[0xFF; 4]);
    assert_eq!(&data[28..], &crc32(&data[..28]).to_le_bytes());
}

#[test]
fn every_corrupted_byte_is_detected() {
    let record = AntennaDelayRecord::new(DEVICE, 7, 16_400, 16_300).unwrap();
    let data = record.encode();
    for at in 0..RECORD_LEN {
        for flip in [1u8, 0x80, 0xFF] {
            let mut bad = data;
            bad[at] ^= flip;
            let expected = if at < 4 {
                RecordError::Magic
            } else if at == 4 {
                RecordError::Version
            } else {
                RecordError::Crc
            };
            assert_eq!(
                AntennaDelayRecord::decode(&bad, &DEVICE, PHY_FINGERPRINT),
                Err(expected)
            );
        }
    }
}

#[test]
fn a_checksummed_record_with_a_wild_delay_is_refused() {
    let mut data = AntennaDelayRecord::new(DEVICE, 7, 16_400, 16_300).unwrap().encode();
    data[21] = 0;
    let crc = crc32(&data[..28]).to_le_bytes();
    data[28..].copy_from_slice(&crc);
    assert_eq!(
        AntennaDelayRecord::decode(&data, &DEVICE, PHY_FINGERPRINT),
        Err(RecordError::DelayOutOfRange)
    );
}

#[test]
fn delays_are_accepted_up_to_the_limit_on_either_side() {
    let nominal = NOMINAL_DELAY_TICKS;
    let limit = MAX_DELAY_DELTA_TICKS;
    assert_eq!(validate_delay(nominal - limit), Ok(()));
    assert_eq!(validate_delay(nominal + limit), Ok(()));
    assert_eq!(validate_delay(nominal - limit - 1), Err(RecordError::DelayOutOfRange));
    assert_eq!(validate_delay(nominal + limit + 1), Err(RecordError::DelayOutOfRange));
}

#[test]
fn an_empty_journal_loads_the_nominal_delay() {
    let loaded = load(None, Some([0xFF; RECORD_LEN]), DEVICE);
    assert_eq!(loaded, LoadedCalibration::nominal(DEVICE));
    assert_eq!(loaded.active_slot, None);
    assert!(!loaded.persisted);
    assert_eq!(loaded.record.rx_ticks, 16_385);
    assert_eq!(loaded.record.tx_ticks, 16_385);
    assert_eq!(loaded.record.generation, 0);
}

#[test]
fn stores_alternate_and_loads_return_what_was_stored() {
    let mut slots: [Option<[u8; RECORD_LEN]>; 2] = [None, None];
    let mut current = load(slots[0], slots[1], DEVICE);
    for n in 0..5u16 {
        let pending = store(current, 16_000 + n, 16_100 + n).unwrap();
        assert_eq!(pending.slot, (n % 2) as usize);
        assert_eq!(pending.offset, SLOT_OFFSETS[pending.slot]);
        slots[pending.slot] = Some(pending.data);
        let committed = pending.commit(&pending.data).unwrap();
        current = load(slots[0], slots[1], DEVICE);
        assert_eq!(current, committed);
        assert_eq!(current.record.generation, u32::from(n) + 1);
        assert_eq!(current.record.rx_ticks, 16_000 + n);
        assert!(current.persisted);
    }
    assert_eq!(SLOT_OFFSETS, [0x9000, 0xA000]);
}

#[test]
fn an_interrupted_store_leaves_the_previous_calibration() {
    let first = store(LoadedCalibration::nominal(DEVICE), 16_400, 16_400).unwrap();
    let current = first.commit(&first.data).unwrap();
    let second = store(current, 16_500, 16_500).unwrap();
    assert_eq!(second.slot, 1);
    for written in 0..RECORD_LEN {
        let mut torn = [0xFF; RECORD_LEN];
        torn[..written].copy_from_slice(&second.data[..written]);
        assert_eq!(load(Some(first.data), Some(torn), DEVICE), current);
        assert_eq!(second.commit(&torn), Err(StoreError::Verification));
    }
}

#[test]
fn an_implausible_delay_is_never_written() {
    let current = LoadedCalibration::nominal(DEVICE);
    assert_eq!(store(current, 10_000, 16_385), Err(StoreError::InvalidDelay));
    assert_eq!(store(current, 16_385, 60_000), Err(StoreError::InvalidDelay));
}

#[test]
fn the_generation_counter_stops_at_its_end() {
    let mut current = LoadedCalibration::nominal(DEVICE);
    current.record.generation = u32::MAX;
    let pending = store(current, 16_400, 16_400).unwrap();
    assert_eq!(pending.record.generation, u32::MAX);
}

#[test]
fn another_boards_sectors_are_ignored() {
    let pending = store(LoadedCalibration::nominal(DEVICE), 16_400, 16_400).unwrap();
    let loaded = load(Some(pending.data), None, *b"FFFFFF");
    assert_eq!(loaded, LoadedCalibration::nominal(*b"FFFFFF"));
}
