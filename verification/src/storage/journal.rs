//! Two-sector journal for a board's antenna delay.
//!
//! The two sectors are written in turn. The sector in use is never touched by a write, so that an
//! interrupted one always leaves a previous valid generation to fall back to.

use vstd::prelude::*;

use crate::storage::record;
use crate::storage::record::{
    select_newest, AntennaDelayRecord, DEVICE_ID_LEN, NOMINAL_DELAY_TICKS, RECORD_LEN,
};
use crate::uwb::fingerprint::PHY_FINGERPRINT;

verus! {

/// Flash addresses of the two sectors.
pub const SLOT_OFFSETS: [u32; 2] = [0x9000, 0xA000];

/// The calibration in effect, and where it came from.
#[derive(Clone, Copy, Debug, PartialEq, Eq)]
pub struct LoadedCalibration {
    pub active_slot: Option<usize>,
    pub record: AntennaDelayRecord,
    pub persisted: bool,
}

/// A sector write that has been decided on but not confirmed.
#[derive(Clone, Copy, Debug, PartialEq, Eq)]
pub struct PendingWrite {
    /// Sector to write.
    pub slot: usize,
    /// Flash address of that sector.
    pub offset: u32,
    /// What to write there.
    pub data: [u8; RECORD_LEN],
    /// The record those bytes hold.
    pub record: AntennaDelayRecord,
}

/// Why a calibration could not be stored.
#[derive(Clone, Copy, Debug, PartialEq, Eq, Structural)]
pub enum StoreError {
    /// A delay is implausible; nothing was written.
    InvalidDelay,
    /// What was read back is not a record for this board and build.
    Verification,
}

/// The record a sector holds, if its bytes could be read and are one.
pub open spec fn slot_record(
    data: Option<Seq<u8>>,
    device_id: [u8; DEVICE_ID_LEN],
) -> Option<AntennaDelayRecord> {
    match data {
        Some(data) => match AntennaDelayRecord::parse(data, device_id, PHY_FINGERPRINT) {
            Ok(record) => Some(record),
            Err(_) => None,
        },
        None => None,
    }
}

/// The bytes of a sector that could be read.
pub open spec fn contents(slot: Option<[u8; RECORD_LEN]>) -> Option<Seq<u8>> {
    match slot {
        Some(data) => Some(data@),
        None => None,
    }
}

impl LoadedCalibration {
    /// The journal has two slots.
    pub open spec fn wf(self) -> bool {
        self.active_slot matches Some(slot) ==> slot < 2
    }

    /// The calibration of a board that has none stored.
    pub open spec fn spec_nominal(device_id: [u8; DEVICE_ID_LEN]) -> LoadedCalibration {
        LoadedCalibration {
            active_slot: None,
            record: AntennaDelayRecord {
                device_id,
                phy_fingerprint: PHY_FINGERPRINT,
                generation: 0,
                rx_ticks: NOMINAL_DELAY_TICKS,
                tx_ticks: NOMINAL_DELAY_TICKS,
            },
            persisted: false,
        }
    }

    /// What the two sectors' bytes amount to: the newest record, or the nominal calibration.
    pub open spec fn of_slots(
        a: Option<Seq<u8>>,
        b: Option<Seq<u8>>,
        device_id: [u8; DEVICE_ID_LEN],
    ) -> LoadedCalibration {
        match record::newest_of(slot_record(a, device_id), slot_record(b, device_id)) {
            Some((slot, record)) => LoadedCalibration {
                active_slot: Some(slot),
                record,
                persisted: true,
            },
            None => LoadedCalibration::spec_nominal(device_id),
        }
    }

    /// The slot the next write goes to: the one not in use.
    pub open spec fn target(self) -> usize {
        match self.active_slot {
            Some(slot) => (1 - slot) as usize,
            None => 0,
        }
    }

    /// The record the next write holds.
    pub open spec fn successor(self, rx_ticks: u16, tx_ticks: u16) -> AntennaDelayRecord {
        AntennaDelayRecord {
            device_id: self.record.device_id,
            phy_fingerprint: PHY_FINGERPRINT,
            generation: if self.record.generation == u32::MAX {
                u32::MAX
            } else {
                (self.record.generation + 1) as u32
            },
            rx_ticks,
            tx_ticks,
        }
    }

    /// The calibration of a board that has none stored.
    pub fn nominal(device_id: [u8; DEVICE_ID_LEN]) -> (loaded: LoadedCalibration)
        ensures
            loaded == LoadedCalibration::spec_nominal(device_id),
            loaded.wf(),
    {
        LoadedCalibration {
            active_slot: None,
            record: AntennaDelayRecord {
                device_id,
                phy_fingerprint: PHY_FINGERPRINT,
                generation: 0,
                rx_ticks: NOMINAL_DELAY_TICKS,
                tx_ticks: NOMINAL_DELAY_TICKS,
            },
            persisted: false,
        }
    }
}

/// Reads one sector's record.
fn read_slot(slot: Option<[u8; RECORD_LEN]>, device_id: [u8; DEVICE_ID_LEN]) -> (record: Option<
    AntennaDelayRecord,
>)
    ensures
        record == slot_record(contents(slot), device_id),
{
    match slot {
        Some(data) => match AntennaDelayRecord::decode(&data, &device_id, PHY_FINGERPRINT) {
            Ok(record) => Some(record),
            Err(_) => None,
        },
        None => None,
    }
}

/// Picks the calibration to use from the bytes of the two sectors, `None` for one that could not be
/// read.
pub fn load(
    slot_a: Option<[u8; RECORD_LEN]>,
    slot_b: Option<[u8; RECORD_LEN]>,
    device_id: [u8; DEVICE_ID_LEN],
) -> (loaded: LoadedCalibration)
    ensures
        loaded == LoadedCalibration::of_slots(contents(slot_a), contents(slot_b), device_id),
        loaded.wf(),
{
    let a = read_slot(slot_a, device_id);
    let b = read_slot(slot_b, device_id);
    match select_newest(a, b) {
        Some((slot, record)) => LoadedCalibration {
            active_slot: Some(slot),
            record,
            persisted: true,
        },
        None => LoadedCalibration::nominal(device_id),
    }
}

/// Decides how to store new delays: which sector to write, and what.
pub fn store(current: LoadedCalibration, rx_ticks: u16, tx_ticks: u16) -> (pending: Result<
    PendingWrite,
    StoreError,
>)
    requires
        current.wf(),
    ensures
        match pending {
            Ok(pending) => {
                &&& record::delay_in_range(rx_ticks) && record::delay_in_range(tx_ticks)
                &&& pending.slot == current.target()
                &&& pending.offset == SLOT_OFFSETS@[current.target() as int]
                &&& pending.record == current.successor(rx_ticks, tx_ticks)
                &&& pending.data@ == pending.record.stored()
            },
            Err(error) => {
                &&& error == StoreError::InvalidDelay
                &&& !(record::delay_in_range(rx_ticks) && record::delay_in_range(tx_ticks))
            },
        },
{
    let target: usize = match current.active_slot {
        Some(slot) => 1 - slot,
        None => 0,
    };
    let generation: u32 = current.record.generation.saturating_add(1);
    match AntennaDelayRecord::new(current.record.device_id, generation, rx_ticks, tx_ticks) {
        Ok(record) => Ok(
            PendingWrite {
                slot: target,
                offset: SLOT_OFFSETS[target],
                data: record.encode(),
                record,
            },
        ),
        Err(_) => Err(StoreError::InvalidDelay),
    }
}

impl PendingWrite {
    /// Commits a write once its sector has been read back: the write counts if what is there now is
    /// a record for this board and build.
    pub fn commit(self, read_back: &[u8; RECORD_LEN]) -> (loaded: Result<
        LoadedCalibration,
        StoreError,
    >)
        ensures
            loaded == (if slot_record(Some(read_back@), self.record.device_id) is Some {
                Ok(
                    LoadedCalibration {
                        active_slot: Some(self.slot),
                        record: self.record,
                        persisted: true,
                    },
                )
            } else {
                Err(StoreError::Verification)
            }),
    {
        match AntennaDelayRecord::decode(read_back, &self.record.device_id, PHY_FINGERPRINT) {
            Ok(_) => Ok(
                LoadedCalibration {
                    active_slot: Some(self.slot),
                    record: self.record,
                    persisted: true,
                },
            ),
            Err(_) => Err(StoreError::Verification),
        }
    }
}

/// The two sectors after one of them has been rewritten.
pub open spec fn rewritten(
    slots: (Option<Seq<u8>>, Option<Seq<u8>>),
    slot: usize,
    data: Seq<u8>,
) -> (Option<Seq<u8>>, Option<Seq<u8>>) {
    if slot == 0 {
        (Some(data), slots.1)
    } else {
        (slots.0, Some(data))
    }
}

/// A completed write is what the next load returns. Once the generation counter is exhausted this
/// holds only for writes to the second sector, which a tie of generations prefers.
pub proof fn load_returns_what_was_stored(
    slots: (Option<Seq<u8>>, Option<Seq<u8>>),
    device_id: [u8; DEVICE_ID_LEN],
    rx_ticks: u16,
    tx_ticks: u16,
)
    requires
        record::delay_in_range(rx_ticks),
        record::delay_in_range(tx_ticks),
        ({
            let current = LoadedCalibration::of_slots(slots.0, slots.1, device_id);
            current.record.generation < u32::MAX || current.target() == 1
        }),
    ensures
        ({
            let current = LoadedCalibration::of_slots(slots.0, slots.1, device_id);
            let stored = current.successor(rx_ticks, tx_ticks);
            let after = rewritten(slots, current.target(), stored.stored());
            &&& slot_record(Some(stored.stored()), device_id) == Some(stored)
            &&& LoadedCalibration::of_slots(after.0, after.1, device_id) == (LoadedCalibration {
                active_slot: Some(current.target()),
                record: stored,
                persisted: true,
            })
        }),
{
    let current = LoadedCalibration::of_slots(slots.0, slots.1, device_id);
    let stored = current.successor(rx_ticks, tx_ticks);
    record::decode_undoes_encode(stored, device_id, PHY_FINGERPRINT);
}

/// A write interrupted at any point costs nothing: the next load returns either the calibration
/// that was in effect before the write or, if the sector turns out complete, what any load after
/// the completed write returns.
pub proof fn interrupted_write_rolls_back(
    slots: (Option<Seq<u8>>, Option<Seq<u8>>),
    device_id: [u8; DEVICE_ID_LEN],
    rx_ticks: u16,
    tx_ticks: u16,
    len: int,
)
    requires
        0 <= len < RECORD_LEN,
    ensures
        ({
            let current = LoadedCalibration::of_slots(slots.0, slots.1, device_id);
            let stored = current.successor(rx_ticks, tx_ticks);
            let partial = rewritten(slots, current.target(), record::torn(stored, len));
            let complete = rewritten(slots, current.target(), stored.stored());
            let after = LoadedCalibration::of_slots(partial.0, partial.1, device_id);
            after == current || after == LoadedCalibration::of_slots(
                complete.0,
                complete.1,
                device_id,
            )
        }),
{
    let current = LoadedCalibration::of_slots(slots.0, slots.1, device_id);
    let stored = current.successor(rx_ticks, tx_ticks);
    record::torn_record_is_rejected(stored, len, device_id);
}

/// A write never touches the sector in use: it goes to the other one, or to the first one if none
/// is. What it writes is for the same board, one generation newer while there are newer ones, and
/// holds the delays asked for.
pub proof fn a_write_spares_the_sector_in_use(
    current: LoadedCalibration,
    rx_ticks: u16,
    tx_ticks: u16,
)
    requires
        current.wf(),
    ensures
        current.target() == 0 || current.target() == 1,
        current.active_slot != Some(current.target()),
        current.active_slot is None ==> current.target() == 0,
        ({
            let next = current.successor(rx_ticks, tx_ticks);
            &&& next.device_id == current.record.device_id
            &&& next.phy_fingerprint == PHY_FINGERPRINT
            &&& next.rx_ticks == rx_ticks && next.tx_ticks == tx_ticks
            &&& current.record.generation < u32::MAX ==> next.generation
                == current.record.generation + 1
            &&& current.record.generation == u32::MAX ==> next.generation == u32::MAX
        }),
        SLOT_OFFSETS@[1] == SLOT_OFFSETS@[0] + 0x1000 && SLOT_OFFSETS@[0] == 0x9000,
{
}

/// What is in effect after a load: without a sound sector for this board and build the nominal
/// calibration of 16385 ticks either way, marked as not stored; otherwise the record of a sound
/// sector, marked with that sector, and no sound sector holds a newer one. Of two equally new ones
/// the second sector's counts.
pub proof fn the_newest_sound_sector_is_in_effect(
    a: Option<Seq<u8>>,
    b: Option<Seq<u8>>,
    device_id: [u8; DEVICE_ID_LEN],
)
    ensures
        ({
            let loaded = LoadedCalibration::of_slots(a, b, device_id);
            let sound = |slot: Option<Seq<u8>>, record: AntennaDelayRecord|
                slot matches Some(data) && AntennaDelayRecord::parse(
                    data,
                    device_id,
                    PHY_FINGERPRINT,
                ) == Ok::<AntennaDelayRecord, record::RecordError>(record);
            &&& loaded.persisted <==> loaded.active_slot is Some
            &&& loaded.active_slot matches Some(slot) ==> slot == 0 && sound(a, loaded.record)
                || slot == 1 && sound(b, loaded.record)
            &&& forall|other: AntennaDelayRecord| #[trigger]
                sound(a, other) || sound(b, other) ==> loaded.persisted && other.generation
                    <= loaded.record.generation
            &&& forall|x: AntennaDelayRecord, y: AntennaDelayRecord| #[trigger]
                sound(a, x) && #[trigger] sound(b, y) && x.generation == y.generation
                    ==> loaded.active_slot == Some(1usize)
            &&& !loaded.persisted ==> loaded.record == (AntennaDelayRecord {
                device_id,
                phy_fingerprint: PHY_FINGERPRINT,
                generation: 0,
                rx_ticks: 16_385,
                tx_ticks: 16_385,
            })
        }),
{
}

/// A sector counts exactly if it could be read and its bytes are a record for this board and build,
/// and then as that record.
pub proof fn a_sector_counts_if_it_is_a_record(
    slot: Option<[u8; RECORD_LEN]>,
    device_id: [u8; DEVICE_ID_LEN],
)
    ensures
        slot is None ==> slot_record(contents(slot), device_id) is None,
        slot matches Some(data) ==> match AntennaDelayRecord::parse(
            data@,
            device_id,
            PHY_FINGERPRINT,
        ) {
            Ok(record) => slot_record(contents(slot), device_id) == Some(record) && slot_record(
                Some(data@),
                device_id,
            ) == Some(record),
            Err(_) => slot_record(contents(slot), device_id) is None && slot_record(
                Some(data@),
                device_id,
            ) is None,
        },
{
}

} // verus!
