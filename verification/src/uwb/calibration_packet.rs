//! Frames of the antenna-delay calibration fixture.
//!
//! They carry a header of their own, so that a node of the ranging schedule rejects them before
//! reading a kind byte, and the other way round.

use vstd::prelude::*;

use crate::uwb::bytes;
use crate::uwb::bytes::{
    read_time, read_u16, read_u32, write_time, write_u16, write_u32, FRAME_LEN,
};
use crate::uwb::packet;
use crate::uwb::packet::PacketError;

verus! {

/// First byte of every fixture frame.
pub const CALIBRATION_MAGIC: u8 = 0xC4;

/// Second byte of every fixture frame.
pub const CALIBRATION_VERSION: u8 = 1;

/// Frame kind used only by the calibration fixture.
#[derive(Clone, Copy, Debug, PartialEq, Eq, Structural)]
pub enum CalibrationPacketKind {
    Sync,
    Poll,
    Response,
    Final,
    Report,
}

impl CalibrationPacketKind {
    /// The kind byte, as a mathematical value.
    pub open spec fn spec_code(self) -> u8 {
        match self {
            CalibrationPacketKind::Sync => 1,
            CalibrationPacketKind::Poll => 2,
            CalibrationPacketKind::Response => 3,
            CalibrationPacketKind::Final => 4,
            CalibrationPacketKind::Report => 5,
        }
    }

    /// The kind byte written on the wire.
    #[verifier::when_used_as_spec(spec_code)]
    pub fn code(self) -> (code: u8)
        ensures
            code == self.spec_code(),
    {
        match self {
            CalibrationPacketKind::Sync => 1,
            CalibrationPacketKind::Poll => 2,
            CalibrationPacketKind::Response => 3,
            CalibrationPacketKind::Final => 4,
            CalibrationPacketKind::Report => 5,
        }
    }

    /// The kind a byte stands for, if it stands for one.
    pub open spec fn of_code(value: u8) -> Result<CalibrationPacketKind, PacketError> {
        if value == 1 {
            Ok(CalibrationPacketKind::Sync)
        } else if value == 2 {
            Ok(CalibrationPacketKind::Poll)
        } else if value == 3 {
            Ok(CalibrationPacketKind::Response)
        } else if value == 4 {
            Ok(CalibrationPacketKind::Final)
        } else if value == 5 {
            Ok(CalibrationPacketKind::Report)
        } else {
            Err(PacketError::UnknownKind)
        }
    }
}

impl TryFrom<u8> for CalibrationPacketKind {
    type Error = PacketError;

    fn try_from(value: u8) -> (kind: Result<Self, Self::Error>)
        ensures
            kind == CalibrationPacketKind::of_code(value),
    {
        match value {
            1 => Ok(CalibrationPacketKind::Sync),
            2 => Ok(CalibrationPacketKind::Poll),
            3 => Ok(CalibrationPacketKind::Response),
            4 => Ok(CalibrationPacketKind::Final),
            5 => Ok(CalibrationPacketKind::Report),
            _ => Err(PacketError::UnknownKind),
        }
    }
}

impl vstd::std_specs::convert::TryFromSpecImpl<u8> for CalibrationPacketKind {
    open spec fn obeys_try_from_spec() -> bool {
        true
    }

    open spec fn try_from_spec(value: u8) -> Result<Self, Self::Error> {
        CalibrationPacketKind::of_code(value)
    }
}

/// A frame of the clock-offset-free three-message exchange that creates and validates antenna-delay
/// references.
#[derive(Clone, Copy, Debug, PartialEq, Eq, Structural)]
pub enum CalibrationPacket {
    /// Starts a fixture superframe.
    Sync { sequence: u16 },
    /// Initiator to responder: opens an exchange.
    Poll { initiator_id: u16, responder_id: u16, sequence: u16, poll_tx: u64 },
    /// Responder to initiator.
    Response {
        initiator_id: u16,
        responder_id: u16,
        sequence: u16,
        poll_rx: u64,
        response_tx: u64,
    },
    /// Initiator to responder: closes the exchange with the initiator's three timestamps.
    Final {
        initiator_id: u16,
        responder_id: u16,
        sequence: u16,
        poll_tx: u64,
        response_rx: u64,
        final_tx: u64,
    },
    /// Responder to everyone: the distance the exchange measured.
    Report { initiator_id: u16, responder_id: u16, sequence: u16, distance_mm: u32 },
}

impl CalibrationPacket {
    /// Length of the longest frame.
    pub const MAX_LEN: usize = 24;

    /// The kind written in the third byte.
    pub open spec fn kind(self) -> CalibrationPacketKind {
        match self {
            CalibrationPacket::Sync { .. } => CalibrationPacketKind::Sync,
            CalibrationPacket::Poll { .. } => CalibrationPacketKind::Poll,
            CalibrationPacket::Response { .. } => CalibrationPacketKind::Response,
            CalibrationPacket::Final { .. } => CalibrationPacketKind::Final,
            CalibrationPacket::Report { .. } => CalibrationPacketKind::Report,
        }
    }

    /// The frame's fields behind the header, in wire order.
    pub open spec fn body(self) -> Seq<u8> {
        match self {
            CalibrationPacket::Sync { sequence } => bytes::u16_bytes(sequence),
            CalibrationPacket::Poll { initiator_id, responder_id, sequence, poll_tx } => {
                bytes::u16_bytes(initiator_id) + bytes::u16_bytes(responder_id)
                    + bytes::u16_bytes(sequence) + bytes::time_bytes(poll_tx)
            },
            CalibrationPacket::Response {
                initiator_id,
                responder_id,
                sequence,
                poll_rx,
                response_tx,
            } => {
                bytes::u16_bytes(initiator_id) + bytes::u16_bytes(responder_id)
                    + bytes::u16_bytes(sequence) + bytes::time_bytes(poll_rx)
                    + bytes::time_bytes(response_tx)
            },
            CalibrationPacket::Final {
                initiator_id,
                responder_id,
                sequence,
                poll_tx,
                response_rx,
                final_tx,
            } => {
                bytes::u16_bytes(initiator_id) + bytes::u16_bytes(responder_id)
                    + bytes::u16_bytes(sequence) + bytes::time_bytes(poll_tx)
                    + bytes::time_bytes(response_rx) + bytes::time_bytes(final_tx)
            },
            CalibrationPacket::Report { initiator_id, responder_id, sequence, distance_mm } => {
                bytes::u16_bytes(initiator_id) + bytes::u16_bytes(responder_id)
                    + bytes::u16_bytes(sequence) + bytes::u32_bytes(distance_mm)
            },
        }
    }

    /// The bytes that go on the air: the header followed by the fields.
    pub open spec fn wire(self) -> Seq<u8> {
        seq![CALIBRATION_MAGIC, CALIBRATION_VERSION, self.kind().spec_code()] + self.body()
    }

    /// Number of payload bytes a frame of this kind has.
    pub open spec fn wire_len(kind: CalibrationPacketKind) -> nat {
        match kind {
            CalibrationPacketKind::Sync => 5,
            CalibrationPacketKind::Poll => 14,
            CalibrationPacketKind::Response => 19,
            CalibrationPacketKind::Final => 24,
            CalibrationPacketKind::Report => 13,
        }
    }

    /// The packet as a receiver sees it: timestamps reduced to the 40 bits a frame carries.
    pub open spec fn carried(self) -> CalibrationPacket {
        match self {
            CalibrationPacket::Sync { sequence } => CalibrationPacket::Sync {
                sequence,
            },
            CalibrationPacket::Poll {
                initiator_id,
                responder_id,
                sequence,
                poll_tx,
            } => CalibrationPacket::Poll {
                initiator_id,
                responder_id,
                sequence,
                poll_tx: poll_tx % bytes::TIME_MODULUS,
            },
            CalibrationPacket::Response {
                initiator_id,
                responder_id,
                sequence,
                poll_rx,
                response_tx,
            } => CalibrationPacket::Response {
                initiator_id,
                responder_id,
                sequence,
                poll_rx: poll_rx % bytes::TIME_MODULUS,
                response_tx: response_tx % bytes::TIME_MODULUS,
            },
            CalibrationPacket::Final {
                initiator_id,
                responder_id,
                sequence,
                poll_tx,
                response_rx,
                final_tx,
            } => CalibrationPacket::Final {
                initiator_id,
                responder_id,
                sequence,
                poll_tx: poll_tx % bytes::TIME_MODULUS,
                response_rx: response_rx % bytes::TIME_MODULUS,
                final_tx: final_tx % bytes::TIME_MODULUS,
            },
            CalibrationPacket::Report {
                initiator_id,
                responder_id,
                sequence,
                distance_mm,
            } => CalibrationPacket::Report {
                initiator_id,
                responder_id,
                sequence,
                distance_mm,
            },
        }
    }

    /// Whether every timestamp fits the 40 bits a frame carries.
    pub open spec fn timestamps_fit(self) -> bool {
        match self {
            CalibrationPacket::Sync { .. } => true,
            CalibrationPacket::Poll { poll_tx, .. } => poll_tx < bytes::TIME_MODULUS,
            CalibrationPacket::Response { poll_rx, response_tx, .. } => {
                poll_rx < bytes::TIME_MODULUS && response_tx < bytes::TIME_MODULUS
            },
            CalibrationPacket::Final { poll_tx, response_rx, final_tx, .. } => {
                poll_tx < bytes::TIME_MODULUS && response_rx < bytes::TIME_MODULUS
                    && final_tx < bytes::TIME_MODULUS
            },
            CalibrationPacket::Report { .. } => true,
        }
    }

    /// The frame of a given kind whose fields stand in `data`.
    pub open spec fn fields(kind: CalibrationPacketKind, data: Seq<u8>) -> CalibrationPacket {
        match kind {
            CalibrationPacketKind::Sync => CalibrationPacket::Sync {
                sequence: bytes::u16_at(data, 3),
            },
            CalibrationPacketKind::Poll => CalibrationPacket::Poll {
                initiator_id: bytes::u16_at(data, 3),
                responder_id: bytes::u16_at(data, 5),
                sequence: bytes::u16_at(data, 7),
                poll_tx: bytes::time_at(data, 9),
            },
            CalibrationPacketKind::Response => CalibrationPacket::Response {
                initiator_id: bytes::u16_at(data, 3),
                responder_id: bytes::u16_at(data, 5),
                sequence: bytes::u16_at(data, 7),
                poll_rx: bytes::time_at(data, 9),
                response_tx: bytes::time_at(data, 14),
            },
            CalibrationPacketKind::Final => CalibrationPacket::Final {
                initiator_id: bytes::u16_at(data, 3),
                responder_id: bytes::u16_at(data, 5),
                sequence: bytes::u16_at(data, 7),
                poll_tx: bytes::time_at(data, 9),
                response_rx: bytes::time_at(data, 14),
                final_tx: bytes::time_at(data, 19),
            },
            CalibrationPacketKind::Report => CalibrationPacket::Report {
                initiator_id: bytes::u16_at(data, 3),
                responder_id: bytes::u16_at(data, 5),
                sequence: bytes::u16_at(data, 7),
                distance_mm: bytes::u32_at(data, 9),
            },
        }
    }

    /// What a received payload means.
    pub open spec fn parse(data: Seq<u8>) -> Result<CalibrationPacket, PacketError> {
        if data.len() < 3 || data[0] != CALIBRATION_MAGIC || data[1] != CALIBRATION_VERSION {
            Err(PacketError::InvalidHeader)
        } else {
            match CalibrationPacketKind::of_code(data[2]) {
                Err(error) => Err(error),
                Ok(kind) => if data.len() < CalibrationPacket::wire_len(kind) {
                    Err(PacketError::InvalidLength)
                } else {
                    Ok(CalibrationPacket::fields(kind, data))
                },
            }
        }
    }

    /// Writes the frame to the start of `out`, zeroes the rest, and returns the frame's length.
    pub fn encode(self, out: &mut [u8; FRAME_LEN]) -> (len: usize)
        ensures
            len == self.wire().len(),
            final(out)@ == bytes::framed(self.wire()),
    {
        *out = [0u8; 24];
        out[0] = CALIBRATION_MAGIC;
        out[1] = CALIBRATION_VERSION;
        match self {
            CalibrationPacket::Sync { sequence } => {
                out[2] = CalibrationPacketKind::Sync.code();
                write_u16(out, 3, sequence);
                assert(out@ =~= bytes::framed(self.wire()));
                5
            },
            CalibrationPacket::Poll { initiator_id, responder_id, sequence, poll_tx } => {
                out[2] = CalibrationPacketKind::Poll.code();
                write_u16(out, 3, initiator_id);
                write_u16(out, 5, responder_id);
                write_u16(out, 7, sequence);
                write_time(out, 9, poll_tx);
                assert(out@ =~= bytes::framed(self.wire()));
                14
            },
            CalibrationPacket::Response {
                initiator_id,
                responder_id,
                sequence,
                poll_rx,
                response_tx,
            } => {
                out[2] = CalibrationPacketKind::Response.code();
                write_u16(out, 3, initiator_id);
                write_u16(out, 5, responder_id);
                write_u16(out, 7, sequence);
                write_time(out, 9, poll_rx);
                write_time(out, 14, response_tx);
                assert(out@ =~= bytes::framed(self.wire()));
                19
            },
            CalibrationPacket::Final {
                initiator_id,
                responder_id,
                sequence,
                poll_tx,
                response_rx,
                final_tx,
            } => {
                out[2] = CalibrationPacketKind::Final.code();
                write_u16(out, 3, initiator_id);
                write_u16(out, 5, responder_id);
                write_u16(out, 7, sequence);
                write_time(out, 9, poll_tx);
                write_time(out, 14, response_rx);
                write_time(out, 19, final_tx);
                assert(out@ =~= bytes::framed(self.wire()));
                24
            },
            CalibrationPacket::Report { initiator_id, responder_id, sequence, distance_mm } => {
                out[2] = CalibrationPacketKind::Report.code();
                write_u16(out, 3, initiator_id);
                write_u16(out, 5, responder_id);
                write_u16(out, 7, sequence);
                write_u32(out, 9, distance_mm);
                assert(out@ =~= bytes::framed(self.wire()));
                13
            },
        }
    }

    /// Decodes a fixture frame from a received payload, ignoring trailing bytes.
    pub fn decode(data: &[u8]) -> (packet: Result<CalibrationPacket, PacketError>)
        ensures
            packet == CalibrationPacket::parse(data@),
    {
        if data.len() < 3 || data[0] != CALIBRATION_MAGIC || data[1] != CALIBRATION_VERSION {
            return Err(PacketError::InvalidHeader);
        }
        let kind = match CalibrationPacketKind::try_from(data[2]) {
            Ok(kind) => kind,
            Err(error) => {
                return Err(error);
            },
        };
        match kind {
            CalibrationPacketKind::Sync if data.len() >= 5 => Ok(
                CalibrationPacket::Sync {
                    sequence: read_u16(data, 3),
                },
            ),
            CalibrationPacketKind::Poll if data.len() >= 14 => Ok(
                CalibrationPacket::Poll {
                    initiator_id: read_u16(data, 3),
                    responder_id: read_u16(data, 5),
                    sequence: read_u16(data, 7),
                    poll_tx: read_time(data, 9),
                },
            ),
            CalibrationPacketKind::Response if data.len() >= 19 => Ok(
                CalibrationPacket::Response {
                    initiator_id: read_u16(data, 3),
                    responder_id: read_u16(data, 5),
                    sequence: read_u16(data, 7),
                    poll_rx: read_time(data, 9),
                    response_tx: read_time(data, 14),
                },
            ),
            CalibrationPacketKind::Final if data.len() >= 24 => Ok(
                CalibrationPacket::Final {
                    initiator_id: read_u16(data, 3),
                    responder_id: read_u16(data, 5),
                    sequence: read_u16(data, 7),
                    poll_tx: read_time(data, 9),
                    response_rx: read_time(data, 14),
                    final_tx: read_time(data, 19),
                },
            ),
            CalibrationPacketKind::Report if data.len() >= 13 => Ok(
                CalibrationPacket::Report {
                    initiator_id: read_u16(data, 3),
                    responder_id: read_u16(data, 5),
                    sequence: read_u16(data, 7),
                    distance_mm: read_u32(data, 9),
                },
            ),
            _ => Err(PacketError::InvalidLength),
        }
    }
}

/// Decoding what was encoded gives the packet back, whatever bytes follow it: exactly if its
/// timestamps fit 40 bits, and with timestamps reduced to 40 bits otherwise.
pub proof fn decode_undoes_encode(packet: CalibrationPacket, trailing: Seq<u8>)
    ensures
        CalibrationPacket::parse(packet.wire() + trailing) == Ok::<CalibrationPacket, PacketError>(
            packet.carried(),
        ),
        packet.timestamps_fit() ==> packet.carried() == packet,
        packet.wire().len() == CalibrationPacket::wire_len(packet.kind()),
{
    let data = packet.wire() + trailing;
    assert(data[0] == CALIBRATION_MAGIC && data[1] == CALIBRATION_VERSION && data[2]
        == packet.kind().spec_code());
    match packet {
        CalibrationPacket::Sync { sequence } => {
            assert(data.subrange(3, 5) =~= bytes::u16_bytes(sequence));
            bytes::u16_round_trip(data, 3, sequence);
        },
        CalibrationPacket::Poll { initiator_id, responder_id, sequence, poll_tx } => {
            assert(data.subrange(3, 5) =~= bytes::u16_bytes(initiator_id));
            assert(data.subrange(5, 7) =~= bytes::u16_bytes(responder_id));
            assert(data.subrange(7, 9) =~= bytes::u16_bytes(sequence));
            assert(data.subrange(9, 14) =~= bytes::time_bytes(poll_tx));
            bytes::u16_round_trip(data, 3, initiator_id);
            bytes::u16_round_trip(data, 5, responder_id);
            bytes::u16_round_trip(data, 7, sequence);
            bytes::time_round_trip(data, 9, poll_tx);
        },
        CalibrationPacket::Response {
            initiator_id,
            responder_id,
            sequence,
            poll_rx,
            response_tx,
        } => {
            assert(data.subrange(3, 5) =~= bytes::u16_bytes(initiator_id));
            assert(data.subrange(5, 7) =~= bytes::u16_bytes(responder_id));
            assert(data.subrange(7, 9) =~= bytes::u16_bytes(sequence));
            assert(data.subrange(9, 14) =~= bytes::time_bytes(poll_rx));
            assert(data.subrange(14, 19) =~= bytes::time_bytes(response_tx));
            bytes::u16_round_trip(data, 3, initiator_id);
            bytes::u16_round_trip(data, 5, responder_id);
            bytes::u16_round_trip(data, 7, sequence);
            bytes::time_round_trip(data, 9, poll_rx);
            bytes::time_round_trip(data, 14, response_tx);
        },
        CalibrationPacket::Final {
            initiator_id,
            responder_id,
            sequence,
            poll_tx,
            response_rx,
            final_tx,
        } => {
            assert(data.subrange(3, 5) =~= bytes::u16_bytes(initiator_id));
            assert(data.subrange(5, 7) =~= bytes::u16_bytes(responder_id));
            assert(data.subrange(7, 9) =~= bytes::u16_bytes(sequence));
            assert(data.subrange(9, 14) =~= bytes::time_bytes(poll_tx));
            assert(data.subrange(14, 19) =~= bytes::time_bytes(response_rx));
            assert(data.subrange(19, 24) =~= bytes::time_bytes(final_tx));
            bytes::u16_round_trip(data, 3, initiator_id);
            bytes::u16_round_trip(data, 5, responder_id);
            bytes::u16_round_trip(data, 7, sequence);
            bytes::time_round_trip(data, 9, poll_tx);
            bytes::time_round_trip(data, 14, response_rx);
            bytes::time_round_trip(data, 19, final_tx);
        },
        CalibrationPacket::Report { initiator_id, responder_id, sequence, distance_mm } => {
            assert(data.subrange(3, 5) =~= bytes::u16_bytes(initiator_id));
            assert(data.subrange(5, 7) =~= bytes::u16_bytes(responder_id));
            assert(data.subrange(7, 9) =~= bytes::u16_bytes(sequence));
            assert(data.subrange(9, 13) =~= bytes::u32_bytes(distance_mm));
            bytes::u16_round_trip(data, 3, initiator_id);
            bytes::u16_round_trip(data, 5, responder_id);
            bytes::u16_round_trip(data, 7, sequence);
            bytes::u32_round_trip(data, 9, distance_mm);
        },
    }
}

/// Whatever decodes successfully starts with exactly the bytes its packet encodes to.
pub proof fn decoded_payload_is_the_encoding(data: Seq<u8>)
    requires
        CalibrationPacket::parse(data) is Ok,
    ensures
        CalibrationPacket::parse(data)->Ok_0.timestamps_fit(),
        CalibrationPacket::parse(data)->Ok_0.wire() == data.subrange(
            0,
            CalibrationPacket::parse(data)->Ok_0.wire().len() as int,
        ),
{
    let packet = CalibrationPacket::parse(data)->Ok_0;
    match packet {
        CalibrationPacket::Sync { .. } => {
            bytes::u16_bytes_of_read(data, 3);
            assert(data.subrange(0, 5) =~= data.subrange(0, 3) + data.subrange(3, 5));
        },
        CalibrationPacket::Poll { .. } => {
            bytes::u16_bytes_of_read(data, 3);
            bytes::u16_bytes_of_read(data, 5);
            bytes::u16_bytes_of_read(data, 7);
            bytes::time_bytes_of_read(data, 9);
            assert(data.subrange(0, 14) =~= data.subrange(0, 3) + (
                data.subrange(3, 5) + data.subrange(5, 7) + data.subrange(7, 9)
                    + data.subrange(9, 14)
            ));
        },
        CalibrationPacket::Response { .. } => {
            bytes::u16_bytes_of_read(data, 3);
            bytes::u16_bytes_of_read(data, 5);
            bytes::u16_bytes_of_read(data, 7);
            bytes::time_bytes_of_read(data, 9);
            bytes::time_bytes_of_read(data, 14);
            assert(data.subrange(0, 19) =~= data.subrange(0, 3) + (
                data.subrange(3, 5) + data.subrange(5, 7) + data.subrange(7, 9)
                    + data.subrange(9, 14) + data.subrange(14, 19)
            ));
        },
        CalibrationPacket::Final { .. } => {
            bytes::u16_bytes_of_read(data, 3);
            bytes::u16_bytes_of_read(data, 5);
            bytes::u16_bytes_of_read(data, 7);
            bytes::time_bytes_of_read(data, 9);
            bytes::time_bytes_of_read(data, 14);
            bytes::time_bytes_of_read(data, 19);
            assert(data.subrange(0, 24) =~= data.subrange(0, 3) + (
                data.subrange(3, 5) + data.subrange(5, 7) + data.subrange(7, 9)
                    + data.subrange(9, 14) + data.subrange(14, 19) + data.subrange(19, 24)
            ));
        },
        CalibrationPacket::Report { .. } => {
            bytes::u16_bytes_of_read(data, 3);
            bytes::u16_bytes_of_read(data, 5);
            bytes::u16_bytes_of_read(data, 7);
            bytes::u32_bytes_of_read(data, 9);
            assert(data.subrange(0, 13) =~= data.subrange(0, 3) + (
                data.subrange(3, 5) + data.subrange(5, 7) + data.subrange(7, 9)
                    + data.subrange(9, 13)
            ));
        },
    }
    assert(data.subrange(0, 3) =~= seq![
        CALIBRATION_MAGIC,
        CALIBRATION_VERSION,
        packet.kind().spec_code(),
    ]);
}

/// A frame cut short anywhere is rejected: for its length once the header is complete, for its
/// header before that.
pub proof fn truncated_frame_is_rejected(packet: CalibrationPacket, len: int)
    requires
        0 <= len < packet.wire().len(),
    ensures
        CalibrationPacket::parse(packet.wire().subrange(0, len)) == Err::<
            CalibrationPacket,
            PacketError,
        >(
            if len < 3 {
                PacketError::InvalidHeader
            } else {
                PacketError::InvalidLength
            },
        ),
{
    let data = packet.wire().subrange(0, len);
    if len >= 3 {
        assert(data[0] == CALIBRATION_MAGIC && data[1] == CALIBRATION_VERSION && data[2]
            == packet.kind().spec_code());
    }
}

/// No payload is a frame of both protocols: at least one of the two decoders rejects it at the
/// header. In particular a node of the ranging schedule rejects every fixture frame, and a fixture
/// node every frame of the ranging schedule.
pub proof fn protocols_reject_each_other(data: Seq<u8>)
    ensures
        packet::Packet::parse(data) == Err::<packet::Packet, PacketError>(
            PacketError::InvalidHeader,
        ) || CalibrationPacket::parse(data) == Err::<CalibrationPacket, PacketError>(
            PacketError::InvalidHeader,
        ),
        CalibrationPacket::parse(data) is Ok ==> packet::Packet::parse(data) == Err::<
            packet::Packet,
            PacketError,
        >(PacketError::InvalidHeader),
        packet::Packet::parse(data) is Ok ==> CalibrationPacket::parse(data) == Err::<
            CalibrationPacket,
            PacketError,
        >(PacketError::InvalidHeader),
{
}

/// Every field has its place on the wire: behind the fixture's first byte, the version and the
/// kind, identifiers and sequence numbers take two bytes, timestamps five and a distance four, in
/// this order.
pub proof fn fields_have_their_places(packet: CalibrationPacket)
    ensures
        ({
            let wire = packet.wire();
            &&& wire[0] == 0xC4 && wire[1] == 1
            &&& match packet {
                CalibrationPacket::Sync { sequence } => {
                    &&& wire.len() == 5 && wire[2] == 1
                    &&& bytes::u16_at(wire, 3) == sequence
                },
                CalibrationPacket::Poll { initiator_id, responder_id, sequence, poll_tx } => {
                    &&& wire.len() == 14 && wire[2] == 2
                    &&& bytes::u16_at(wire, 3) == initiator_id
                    &&& bytes::u16_at(wire, 5) == responder_id
                    &&& bytes::u16_at(wire, 7) == sequence
                    &&& bytes::time_at(wire, 9) == poll_tx % 0x100_0000_0000
                },
                CalibrationPacket::Response {
                    initiator_id,
                    responder_id,
                    sequence,
                    poll_rx,
                    response_tx,
                } => {
                    &&& wire.len() == 19 && wire[2] == 3
                    &&& bytes::u16_at(wire, 3) == initiator_id
                    &&& bytes::u16_at(wire, 5) == responder_id
                    &&& bytes::u16_at(wire, 7) == sequence
                    &&& bytes::time_at(wire, 9) == poll_rx % 0x100_0000_0000
                    &&& bytes::time_at(wire, 14) == response_tx % 0x100_0000_0000
                },
                CalibrationPacket::Final {
                    initiator_id,
                    responder_id,
                    sequence,
                    poll_tx,
                    response_rx,
                    final_tx,
                } => {
                    &&& wire.len() == 24 && wire[2] == 4
                    &&& bytes::u16_at(wire, 3) == initiator_id
                    &&& bytes::u16_at(wire, 5) == responder_id
                    &&& bytes::u16_at(wire, 7) == sequence
                    &&& bytes::time_at(wire, 9) == poll_tx % 0x100_0000_0000
                    &&& bytes::time_at(wire, 14) == response_rx % 0x100_0000_0000
                    &&& bytes::time_at(wire, 19) == final_tx % 0x100_0000_0000
                },
                CalibrationPacket::Report {
                    initiator_id,
                    responder_id,
                    sequence,
                    distance_mm,
                } => {
                    &&& wire.len() == 13 && wire[2] == 5
                    &&& bytes::u16_at(wire, 3) == initiator_id
                    &&& bytes::u16_at(wire, 5) == responder_id
                    &&& bytes::u16_at(wire, 7) == sequence
                    &&& bytes::u32_at(wire, 9) == distance_mm
                },
            }
        }),
{
    decode_undoes_encode(packet, Seq::empty());
    assert(packet.wire() + Seq::<u8>::empty() =~= packet.wire());
}

/// Each payload is rejected for one reason or accepted: the header first, then the kind, then the
/// length.
pub proof fn payloads_are_judged_in_order(data: Seq<u8>)
    ensures
        ({
            let ours = data.len() >= 3 && data[0] == 0xC4 && data[1] == 1;
            let known = 1 <= data[2] <= 5;
            let needed = if data[2] == 1 {
                5
            } else if data[2] == 2 {
                14
            } else if data[2] == 3 {
                19
            } else if data[2] == 4 {
                24
            } else {
                13int
            };
            &&& !ours <==> CalibrationPacket::parse(data) == Err::<CalibrationPacket, PacketError>(
                PacketError::InvalidHeader,
            )
            &&& ours && !known <==> CalibrationPacket::parse(data) == Err::<
                CalibrationPacket,
                PacketError,
            >(PacketError::UnknownKind)
            &&& ours && known && data.len() < needed <==> CalibrationPacket::parse(data) == Err::<
                CalibrationPacket,
                PacketError,
            >(PacketError::InvalidLength)
            &&& ours && known && data.len() >= needed <==> CalibrationPacket::parse(data) is Ok
        }),
{
}

} // verus!
