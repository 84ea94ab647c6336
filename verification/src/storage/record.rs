//! The antenna-delay record as stored in a flash sector.

use vstd::prelude::*;
use vstd::slice::slice_subrange;

use crate::storage::crc;
use crate::storage::crc::crc32;
use crate::uwb::bytes;
use crate::uwb::bytes::{read_u16, read_u32, write_u16, write_u32};
use crate::uwb::fingerprint::PHY_FINGERPRINT;

verus! {

/// Bytes of a device identifier.
pub const DEVICE_ID_LEN: usize = 6;

/// Bytes of a stored record.
pub const RECORD_LEN: usize = 32;

/// Antenna delay of an uncalibrated board, in radio ticks.
pub const NOMINAL_DELAY_TICKS: u16 = 16_385;

/// How far a calibrated delay may be from the nominal one.
pub const MAX_DELAY_DELTA_TICKS: u16 = 1_024;

/// Layout version, the byte behind the magic.
pub const VERSION: u8 = 1;

/// Offset of the checksum, which covers everything before it.
pub const CRC_OFFSET: usize = 28;

/// A board's calibrated antenna delay.
#[derive(Clone, Copy, Debug, PartialEq, Eq)]
pub struct AntennaDelayRecord {
    pub device_id: [u8; DEVICE_ID_LEN],
    pub phy_fingerprint: u32,
    pub generation: u32,
    pub rx_ticks: u16,
    pub tx_ticks: u16,
}

/// Why a record cannot be made or a sector does not hold one.
#[derive(Clone, Copy, Debug, PartialEq, Eq, Structural)]
pub enum RecordError {
    Magic,
    Version,
    Crc,
    Device,
    Protocol,
    DelayOutOfRange,
}

/// The four bytes every record starts with, "UWBC" in ASCII.
pub open spec fn magic() -> Seq<u8> {
    seq![0x55u8, 0x57u8, 0x42u8, 0x43u8]
}

/// Whether a delay is close enough to the nominal one to be believed.
pub open spec fn delay_in_range(ticks: u16) -> bool {
    NOMINAL_DELAY_TICKS - MAX_DELAY_DELTA_TICKS <= ticks <= NOMINAL_DELAY_TICKS
        + MAX_DELAY_DELTA_TICKS
}

/// An erased flash sector's bytes.
pub open spec fn erased(len: nat) -> Seq<u8> {
    Seq::new(len, |i: int| 0xFFu8)
}

impl AntennaDelayRecord {
    /// Both delays are close enough to the nominal one.
    pub open spec fn wf(self) -> bool {
        delay_in_range(self.rx_ticks) && delay_in_range(self.tx_ticks)
    }

    /// The bytes the checksum covers: magic, version, a spare byte, the fields, four spare bytes.
    pub open spec fn covered(self) -> Seq<u8> {
        magic() + seq![VERSION, 0xFFu8] + self.device_id@ + bytes::u32_bytes(self.phy_fingerprint)
            + bytes::u32_bytes(self.generation) + bytes::u16_bytes(self.rx_ticks)
            + bytes::u16_bytes(self.tx_ticks) + erased(4)
    }

    /// The record as stored: the covered bytes and their checksum.
    pub open spec fn stored(self) -> Seq<u8> {
        self.covered() + bytes::u32_bytes(crc::checksum(self.covered()))
    }

    /// What a sector's bytes mean to the board `device_id` under the settings `phy_fingerprint`.
    pub open spec fn parse(
        data: Seq<u8>,
        device_id: [u8; DEVICE_ID_LEN],
        phy_fingerprint: u32,
    ) -> Result<AntennaDelayRecord, RecordError> {
        if data.subrange(0, 4) != magic() {
            Err(RecordError::Magic)
        } else if data[4] != VERSION {
            Err(RecordError::Version)
        } else if bytes::u32_at(data, 28) != crc::checksum(data.subrange(0, 28)) {
            Err(RecordError::Crc)
        } else if data.subrange(6, 12) != device_id@ {
            Err(RecordError::Device)
        } else if bytes::u32_at(data, 12) != phy_fingerprint {
            Err(RecordError::Protocol)
        } else if !delay_in_range(bytes::u16_at(data, 20)) || !delay_in_range(
            bytes::u16_at(data, 22),
        ) {
            Err(RecordError::DelayOutOfRange)
        } else {
            Ok(
                AntennaDelayRecord {
                    device_id,
                    phy_fingerprint,
                    generation: bytes::u32_at(data, 16),
                    rx_ticks: bytes::u16_at(data, 20),
                    tx_ticks: bytes::u16_at(data, 22),
                },
            )
        }
    }

    /// A record for this build's radio settings, if both delays are plausible.
    pub fn new(
        device_id: [u8; DEVICE_ID_LEN],
        generation: u32,
        rx_ticks: u16,
        tx_ticks: u16,
    ) -> (record: Result<AntennaDelayRecord, RecordError>)
        ensures
            record == (if delay_in_range(rx_ticks) && delay_in_range(tx_ticks) {
                Ok(
                    AntennaDelayRecord {
                        device_id,
                        phy_fingerprint: PHY_FINGERPRINT,
                        generation,
                        rx_ticks,
                        tx_ticks,
                    },
                )
            } else {
                Err(RecordError::DelayOutOfRange)
            }),
    {
        match validate_delay(rx_ticks) {
            Ok(()) => {},
            Err(error) => {
                return Err(error);
            },
        }
        match validate_delay(tx_ticks) {
            Ok(()) => {},
            Err(error) => {
                return Err(error);
            },
        }
        Ok(
            AntennaDelayRecord {
                device_id,
                phy_fingerprint: PHY_FINGERPRINT,
                generation,
                rx_ticks,
                tx_ticks,
            },
        )
    }

    /// The record as a sector stores it.
    #[must_use]
    pub fn encode(self) -> (data: [u8; RECORD_LEN])
        ensures
            data@ == self.stored(),
    {
        let mut data: [u8; 32] = [0xFFu8; 32];
        data[0] = 0x55;
        data[1] = 0x57;
        data[2] = 0x42;
        data[3] = 0x43;
        data[4] = VERSION;
        data[6] = self.device_id[0];
        data[7] = self.device_id[1];
        data[8] = self.device_id[2];
        data[9] = self.device_id[3];
        data[10] = self.device_id[4];
        data[11] = self.device_id[5];
        write_u32(&mut data, 12, self.phy_fingerprint);
        write_u32(&mut data, 16, self.generation);
        write_u16(&mut data, 20, self.rx_ticks);
        write_u16(&mut data, 22, self.tx_ticks);
        assert(data@.subrange(0, 28) =~= self.covered());
        let crc: u32 = crc32(slice_subrange(data.as_slice(), 0, CRC_OFFSET));
        write_u32(&mut data, 28, crc);
        assert(data@ =~= self.stored());
        data
    }

    /// Reads the record out of a sector's bytes, for the board and radio settings expected.
    pub fn decode(
        data: &[u8; RECORD_LEN],
        expected_device_id: &[u8; DEVICE_ID_LEN],
        expected_phy_fingerprint: u32,
    ) -> (record: Result<AntennaDelayRecord, RecordError>)
        ensures
            record == AntennaDelayRecord::parse(
                data@,
                *expected_device_id,
                expected_phy_fingerprint,
            ),
    {
        if data[0] != 0x55 || data[1] != 0x57 || data[2] != 0x42 || data[3] != 0x43 {
            return Err(RecordError::Magic);
        }
        assert(data@.subrange(0, 4) =~= magic());
        if data[4] != VERSION {
            return Err(RecordError::Version);
        }
        let stored_crc: u32 = read_u32(data, CRC_OFFSET);
        if stored_crc != crc32(slice_subrange(data.as_slice(), 0, CRC_OFFSET)) {
            return Err(RecordError::Crc);
        }
        let mut i: usize = 0;
        while i < DEVICE_ID_LEN
            invariant
                i <= DEVICE_ID_LEN,
                forall|k: int| 0 <= k < i ==> data@[6 + k] == expected_device_id@[k],
                data@.subrange(0, 4) == magic(),
                data@[4] == VERSION,
                bytes::u32_at(data@, 28) == crc::checksum(data@.subrange(0, 28)),
            decreases DEVICE_ID_LEN - i,
        {
            if data[6 + i] != expected_device_id[i] {
                assert(data@.subrange(6, 12)[i as int] != expected_device_id@[i as int]);
                return Err(RecordError::Device);
            }
            i = i + 1;
        }
        assert(data@.subrange(6, 12) =~= expected_device_id@);
        let phy_fingerprint: u32 = read_u32(data, 12);
        if phy_fingerprint != expected_phy_fingerprint {
            return Err(RecordError::Protocol);
        }
        let rx_ticks: u16 = read_u16(data, 20);
        let tx_ticks: u16 = read_u16(data, 22);
        match validate_delay(rx_ticks) {
            Ok(()) => {},
            Err(error) => {
                return Err(error);
            },
        }
        match validate_delay(tx_ticks) {
            Ok(()) => {},
            Err(error) => {
                return Err(error);
            },
        }
        Ok(
            AntennaDelayRecord {
                device_id: *expected_device_id,
                phy_fingerprint,
                generation: read_u32(data, 16),
                rx_ticks,
                tx_ticks,
            },
        )
    }
}

/// Refuses a delay too far from the nominal one.
pub fn validate_delay(value: u16) -> (valid: Result<(), RecordError>)
    ensures
        valid == (if delay_in_range(value) {
            Ok(())
        } else {
            Err(RecordError::DelayOutOfRange)
        }),
{
    let distance: u16 = if value >= NOMINAL_DELAY_TICKS {
        value - NOMINAL_DELAY_TICKS
    } else {
        NOMINAL_DELAY_TICKS - value
    };
    if distance <= MAX_DELAY_DELTA_TICKS {
        Ok(())
    } else {
        Err(RecordError::DelayOutOfRange)
    }
}

/// Selects the newest valid journal slot. Equal generations prefer slot B, so that an interrupted
/// rewrite of A cannot replace a successfully verified B record.
#[must_use]
pub fn select_newest(a: Option<AntennaDelayRecord>, b: Option<AntennaDelayRecord>) -> (newest:
    Option<(usize, AntennaDelayRecord)>)
    ensures
        newest == newest_of(a, b),
{
    match (a, b) {
        (Some(a), Some(b)) => if a.generation > b.generation {
            Some((0, a))
        } else {
            Some((1, b))
        },
        (Some(a), None) => Some((0, a)),
        (None, Some(b)) => Some((1, b)),
        (None, None) => None,
    }
}

/// The slot with the highest generation, slot B on a tie.
pub open spec fn newest_of(
    a: Option<AntennaDelayRecord>,
    b: Option<AntennaDelayRecord>,
) -> Option<(usize, AntennaDelayRecord)> {
    match (a, b) {
        (Some(a), Some(b)) => if a.generation > b.generation {
            Some((0usize, a))
        } else {
            Some((1usize, b))
        },
        (Some(a), None) => Some((0usize, a)),
        (None, Some(b)) => Some((1usize, b)),
        (None, None) => None,
    }
}

/// What each part of a stored record holds.
proof fn stored_layout(record: AntennaDelayRecord)
    ensures
        record.covered().len() == CRC_OFFSET,
        record.stored().len() == RECORD_LEN,
        record.stored().subrange(0, 28) == record.covered(),
        record.stored().subrange(0, 4) == magic(),
        record.stored()[4] == VERSION,
        record.stored().subrange(6, 12) == record.device_id@,
        bytes::u32_at(record.stored(), 12) == record.phy_fingerprint,
        bytes::u32_at(record.stored(), 16) == record.generation,
        bytes::u16_at(record.stored(), 20) == record.rx_ticks,
        bytes::u16_at(record.stored(), 22) == record.tx_ticks,
        record.stored().subrange(24, 28) == erased(4),
        bytes::u32_at(record.stored(), 28) == crc::checksum(record.covered()),
{
    let data = record.stored();
    assert(data.subrange(0, 28) =~= record.covered());
    assert(data.subrange(0, 4) =~= magic());
    assert(data.subrange(6, 12) =~= record.device_id@);
    assert(data.subrange(12, 16) =~= bytes::u32_bytes(record.phy_fingerprint));
    assert(data.subrange(16, 20) =~= bytes::u32_bytes(record.generation));
    assert(data.subrange(20, 22) =~= bytes::u16_bytes(record.rx_ticks));
    assert(data.subrange(22, 24) =~= bytes::u16_bytes(record.tx_ticks));
    assert(data.subrange(24, 28) =~= erased(4));
    assert(data.subrange(28, 32) =~= bytes::u32_bytes(crc::checksum(record.covered())));
    bytes::u32_round_trip(data, 12, record.phy_fingerprint);
    bytes::u32_round_trip(data, 16, record.generation);
    bytes::u16_round_trip(data, 20, record.rx_ticks);
    bytes::u16_round_trip(data, 22, record.tx_ticks);
    bytes::u32_round_trip(data, 28, crc::checksum(record.covered()));
}

/// A stored record reads back as it was for the board and radio settings it was made for, and as
/// foreign for any other board or settings.
pub proof fn decode_undoes_encode(
    record: AntennaDelayRecord,
    device_id: [u8; DEVICE_ID_LEN],
    phy_fingerprint: u32,
)
    requires
        record.wf(),
    ensures
        AntennaDelayRecord::parse(record.stored(), device_id, phy_fingerprint) == (
        if device_id@ != record.device_id@ {
            Err(RecordError::Device)
        } else if phy_fingerprint != record.phy_fingerprint {
            Err(RecordError::Protocol)
        } else {
            Ok(record)
        }),
{
    stored_layout(record);
    if device_id@ == record.device_id@ {
        assert(device_id =~= record.device_id);
    }
}

/// Whatever reads as a record is for the expected board and settings and has plausible delays.
pub proof fn decoded_record_is_valid(
    data: Seq<u8>,
    device_id: [u8; DEVICE_ID_LEN],
    phy_fingerprint: u32,
)
    ensures
        AntennaDelayRecord::parse(data, device_id, phy_fingerprint) matches Ok(record) ==> {
            &&& record.wf()
            &&& record.device_id == device_id
            &&& record.phy_fingerprint == phy_fingerprint
        },
{
}

/// A change confined to one byte of a stored record, whichever and in whatever way, is always
/// detected.
pub proof fn corrupted_byte_is_detected(
    record: AntennaDelayRecord,
    data: Seq<u8>,
    at: int,
    device_id: [u8; DEVICE_ID_LEN],
    phy_fingerprint: u32,
)
    requires
        data.len() == RECORD_LEN,
        0 <= at < RECORD_LEN,
        data[at] != record.stored()[at],
        forall|i: int| 0 <= i < RECORD_LEN && i != at ==> data[i] == record.stored()[i],
    ensures
        AntennaDelayRecord::parse(data, device_id, phy_fingerprint) == Err::<
            AntennaDelayRecord,
            RecordError,
        >(
            if at < 4 {
                RecordError::Magic
            } else if at == 4 {
                RecordError::Version
            } else {
                RecordError::Crc
            },
        ),
{
    let stored = record.stored();
    stored_layout(record);
    if at < 4 {
        assert(data.subrange(0, 4)[at] != magic()[at]) by {
            assert(stored.subrange(0, 4)[at] == stored[at]);
        }
    } else {
        assert(data.subrange(0, 4) =~= stored.subrange(0, 4));
        if 4 < at < 28 {
            crc::one_changed_byte_changes_the_checksum(
                data.subrange(0, 28),
                stored.subrange(0, 28),
                at,
            );
            assert(data.subrange(28, 32) =~= stored.subrange(28, 32));
            assert(bytes::u32_at(data, 28) == bytes::u32_at(stored, 28));
        } else if at >= 28 {
            assert(data.subrange(0, 28) =~= stored.subrange(0, 28));
            bytes::u32_bytes_of_read(data, 28);
            bytes::u32_bytes_of_read(stored, 28);
            assert(data.subrange(28, 32)[at - 28] != stored.subrange(28, 32)[at - 28]);
        }
    }
}

/// A sector in which only the first `len` bytes of a record have been programmed.
pub open spec fn torn(record: AntennaDelayRecord, len: int) -> Seq<u8> {
    record.stored().take(len) + erased((RECORD_LEN - len) as nat)
}

/// A field whose high byte is still erased reads as an implausible delay.
proof fn erased_delay_is_implausible(data: Seq<u8>, at: int)
    requires
        0 <= at,
        at + 2 <= data.len(),
        data[at + 1] == 0xFF,
    ensures
        !delay_in_range(bytes::u16_at(data, at)),
{
    reveal(bytes::join16);
}

/// A fingerprint field whose last byte is still erased is not this build's fingerprint.
proof fn erased_fingerprint_is_foreign(data: Seq<u8>)
    requires
        data.len() == RECORD_LEN,
        data[15] == 0xFF,
    ensures
        bytes::u32_at(data, 12) != PHY_FINGERPRINT,
{
    reveal(bytes::join32);
}

/// A write interrupted at any point leaves a sector that reads as no record at all, unless what was
/// still missing happens to equal the erased bytes already there, so that the record is complete.
pub proof fn torn_record_is_rejected(
    record: AntennaDelayRecord,
    len: int,
    device_id: [u8; DEVICE_ID_LEN],
)
    requires
        0 <= len < RECORD_LEN,
    ensures
        AntennaDelayRecord::parse(torn(record, len), device_id, PHY_FINGERPRINT) is Err || torn(
            record,
            len,
        ) == record.stored(),
{
    let data = torn(record, len);
    let stored = record.stored();
    stored_layout(record);
    assert(data.len() == RECORD_LEN);
    if len < 4 {
        assert(data.subrange(0, 4)[3] == 0xFF);
        assert(magic()[3] == 0x43);
    } else if len == 4 {
        assert(data[4] == 0xFF);
    } else if len < 16 {
        erased_fingerprint_is_foreign(data);
    } else if len < 22 {
        erased_delay_is_implausible(data, 20);
    } else if len < 24 {
        erased_delay_is_implausible(data, 22);
    } else {
        assert forall|i: int| 0 <= i < 28 implies data[i] == stored[i] by {
            if i >= 24 {
                assert(stored.subrange(24, 28)[i - 24] == 0xFF);
            }
        }
        assert(data.subrange(0, 28) =~= stored.subrange(0, 28));
        if bytes::u32_at(data, 28) == bytes::u32_at(stored, 28) {
            bytes::u32_bytes_of_read(data, 28);
            bytes::u32_bytes_of_read(stored, 28);
            assert(data =~= data.subrange(0, 28) + data.subrange(28, 32));
            assert(stored =~= stored.subrange(0, 28) + stored.subrange(28, 32));
        }
    }
}

/// The selection never picks an older record over a newer one, and prefers slot B on a tie.
pub proof fn newest_wins(a: Option<AntennaDelayRecord>, b: Option<AntennaDelayRecord>)
    ensures
        newest_of(a, b) is None <==> a is None && b is None,
        newest_of(a, b) matches Some((slot, record)) ==> {
            &&& slot == 0 ==> a == Some(record)
            &&& slot == 1 ==> b == Some(record)
            &&& slot == 0 || slot == 1
            &&& a is Some ==> a->0.generation <= record.generation
            &&& b is Some ==> b->0.generation <= record.generation
            &&& a is Some && b is Some && a->0.generation == b->0.generation ==> slot == 1
        },
{
}

/// Every field has its place in a sector: the letters `UWBC`, the layout's version, the board's
/// identifier, the fingerprint, the generation, the two delays, and at the end the checksum of
/// everything before it. Bytes without a meaning are left erased.
pub proof fn fields_have_their_places(record: AntennaDelayRecord)
    ensures
        ({
            let data = record.stored();
            &&& data.len() == 32
            &&& data[0] as char == 'U' && data[1] as char == 'W' && data[2] as char == 'B'
                && data[3] as char == 'C'
            &&& data[4] == 1 && data[5] == 0xFF
            &&& data.subrange(6, 12) == record.device_id@
            &&& bytes::u32_at(data, 12) == record.phy_fingerprint
            &&& bytes::u32_at(data, 16) == record.generation
            &&& bytes::u16_at(data, 20) == record.rx_ticks
            &&& bytes::u16_at(data, 22) == record.tx_ticks
            &&& forall|i: int| 24 <= i < 28 ==> #[trigger] data[i] == 0xFF
            &&& bytes::u32_at(data, 28) == crc::checksum(data.subrange(0, 28))
        }),
{
    stored_layout(record);
    let data = record.stored();
    assert(data.subrange(0, 4)[0] == data[0] && data.subrange(0, 4)[1] == data[1]
        && data.subrange(0, 4)[2] == data[2] && data.subrange(0, 4)[3] == data[3]);
    assert forall|i: int| 24 <= i < 28 implies #[trigger] data[i] == 0xFF by {
        assert(data.subrange(24, 28)[i - 24] == 0xFF);
    }
}

/// A sector is judged by its letters first, then its version, its checksum, its board, its
/// fingerprint and its delays, and reads as a record exactly if all are in order. Delays are within
/// 1024 ticks of 16385.
pub proof fn sectors_are_judged_in_order(
    data: Seq<u8>,
    device_id: [u8; DEVICE_ID_LEN],
    phy_fingerprint: u32,
)
    requires
        data.len() == 32,
    ensures
        ({
            let verdict = AntennaDelayRecord::parse(data, device_id, phy_fingerprint);
            let fails = |error: RecordError| verdict == Err::<AntennaDelayRecord, RecordError>(
                error,
            );
            let letters = data[0] as char == 'U' && data[1] as char == 'W' && data[2] as char == 'B'
                && data[3] as char == 'C';
            let version = letters && data[4] == 1;
            let whole = version && bytes::u32_at(data, 28) == crc::checksum(data.subrange(0, 28));
            let own = whole && data.subrange(6, 12) == device_id@;
            let current = own && bytes::u32_at(data, 12) == phy_fingerprint;
            let sound = current && 15_361 <= bytes::u16_at(data, 20) <= 17_409 && 15_361
                <= bytes::u16_at(data, 22) <= 17_409;
            &&& !letters <==> fails(RecordError::Magic)
            &&& letters && !version <==> fails(RecordError::Version)
            &&& version && !whole <==> fails(RecordError::Crc)
            &&& whole && !own <==> fails(RecordError::Device)
            &&& own && !current <==> fails(RecordError::Protocol)
            &&& current && !sound <==> fails(RecordError::DelayOutOfRange)
            &&& sound <==> verdict is Ok
            &&& verdict matches Ok(record) ==> {
                &&& record.device_id == device_id
                &&& record.phy_fingerprint == phy_fingerprint
                &&& record.generation == bytes::u32_at(data, 16)
                &&& record.rx_ticks == bytes::u16_at(data, 20)
                &&& record.tx_ticks == bytes::u16_at(data, 22)
            }
        }),
{
    let head = data.subrange(0, 4);
    assert(head[0] == data[0] && head[1] == data[1] && head[2] == data[2] && head[3] == data[3]);
    if data[0] == 0x55 && data[1] == 0x57 && data[2] == 0x42 && data[3] == 0x43 {
        assert(head =~= magic());
    }
}

} // verus!
