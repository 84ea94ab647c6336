//! Frames of the robot-initiated ranging schedule.

use vstd::prelude::*;

use crate::uwb::bytes;
use crate::uwb::bytes::{read_time, read_u16, write_time, write_u16, FRAME_LEN};

verus! {

/// First byte of every frame of the ranging schedule.
pub const MAGIC: u8 = 0xD3;

/// Second byte of every frame. A node rejects another version's frames at the header rather than
/// misreading them.
pub const VERSION: u8 = 2;

/// What a frame is, as written in its third byte.
#[derive(Clone, Copy, Debug, PartialEq, Eq, Structural)]
pub enum PacketKind {
    Sync,
    Poll,
    Response,
}

/// Why a received payload is not a frame.
#[derive(Clone, Copy, Debug, PartialEq, Eq, Structural)]
pub enum PacketError {
    InvalidHeader,
    InvalidLength,
    UnknownKind,
}

impl PacketKind {
    /// The kind byte, as a mathematical value.
    pub open spec fn spec_code(self) -> u8 {
        match self {
            PacketKind::Sync => 1,
            PacketKind::Poll => 2,
            PacketKind::Response => 3,
        }
    }

    /// The kind byte written on the wire.
    #[verifier::when_used_as_spec(spec_code)]
    pub fn code(self) -> (code: u8)
        ensures
            code == self.spec_code(),
    {
        match self {
            PacketKind::Sync => 1,
            PacketKind::Poll => 2,
            PacketKind::Response => 3,
        }
    }

    /// The kind a byte stands for, if it stands for one.
    pub open spec fn of_code(value: u8) -> Result<PacketKind, PacketError> {
        if value == 1 {
            Ok(PacketKind::Sync)
        } else if value == 2 {
            Ok(PacketKind::Poll)
        } else if value == 3 {
            Ok(PacketKind::Response)
        } else {
            Err(PacketError::UnknownKind)
        }
    }
}

impl TryFrom<u8> for PacketKind {
    type Error = PacketError;

    fn try_from(value: u8) -> (kind: Result<Self, Self::Error>)
        ensures
            kind == PacketKind::of_code(value),
    {
        match value {
            1 => Ok(PacketKind::Sync),
            2 => Ok(PacketKind::Poll),
            3 => Ok(PacketKind::Response),
            _ => Err(PacketError::UnknownKind),
        }
    }
}

impl vstd::std_specs::convert::TryFromSpecImpl<u8> for PacketKind {
    open spec fn obeys_try_from_spec() -> bool {
        true
    }

    open spec fn try_from_spec(value: u8) -> Result<Self, Self::Error> {
        PacketKind::of_code(value)
    }
}

/// A frame of the ranging schedule.
#[derive(Clone, Copy, Debug, PartialEq, Eq, Structural)]
pub enum Packet {
    /// Master anchor to everyone: starts a superframe.
    Sync {
        sequence: u16,
        /// The master's own transmit timestamp for this frame, in the master's clock. Known before
        /// transmission because the frame is a delayed send.
        sync_tx: u64,
    },
    /// Robot to all anchors: opens this robot's slot.
    Poll {
        tag_id: u16,
        sequence: u16,
        /// The robot's own transmit timestamp for this frame, in the robot's clock.
        poll_tx: u64,
    },
    /// Anchor to robot: the two timestamps only this anchor can measure, plus its clock offset.
    Response {
        anchor_id: u16,
        tag_id: u16,
        sequence: u16,
        /// When this anchor received the `Poll`, in this anchor's clock.
        poll_rx: u64,
        /// When this anchor will transmit this frame, in this anchor's clock.
        response_tx: u64,
        /// This anchor's tick for the `Sync` epoch minus the master's tick for the same epoch,
        /// modulo the counter's period. Zero on the master.
        master_offset: u64,
    },
}

impl Packet {
    /// Length of the longest frame.
    pub const MAX_LEN: usize = 24;

    /// The kind written in the third byte.
    pub open spec fn kind(self) -> PacketKind {
        match self {
            Packet::Sync { .. } => PacketKind::Sync,
            Packet::Poll { .. } => PacketKind::Poll,
            Packet::Response { .. } => PacketKind::Response,
        }
    }

    /// The frame's fields behind the header, in wire order.
    pub open spec fn body(self) -> Seq<u8> {
        match self {
            Packet::Sync { sequence, sync_tx } => bytes::u16_bytes(sequence) + bytes::time_bytes(
                sync_tx,
            ),
            Packet::Poll { tag_id, sequence, poll_tx } => bytes::u16_bytes(tag_id)
                + bytes::u16_bytes(sequence) + bytes::time_bytes(poll_tx),
            Packet::Response {
                anchor_id,
                tag_id,
                sequence,
                poll_rx,
                response_tx,
                master_offset,
            } => bytes::u16_bytes(anchor_id) + bytes::u16_bytes(tag_id) + bytes::u16_bytes(sequence)
                + bytes::time_bytes(poll_rx) + bytes::time_bytes(response_tx) + bytes::time_bytes(
                master_offset,
            ),
        }
    }

    /// The bytes that go on the air: the header followed by the fields.
    pub open spec fn wire(self) -> Seq<u8> {
        seq![MAGIC, VERSION, self.kind().spec_code()] + self.body()
    }

    /// Number of payload bytes a frame of this kind has.
    pub open spec fn wire_len(kind: PacketKind) -> nat {
        match kind {
            PacketKind::Sync => 10,
            PacketKind::Poll => 12,
            PacketKind::Response => 24,
        }
    }

    /// The packet as a receiver sees it: timestamps reduced to the 40 bits a frame carries.
    pub open spec fn carried(self) -> Packet {
        match self {
            Packet::Sync { sequence, sync_tx } => Packet::Sync {
                sequence,
                sync_tx: sync_tx % bytes::TIME_MODULUS,
            },
            Packet::Poll { tag_id, sequence, poll_tx } => Packet::Poll {
                tag_id,
                sequence,
                poll_tx: poll_tx % bytes::TIME_MODULUS,
            },
            Packet::Response {
                anchor_id,
                tag_id,
                sequence,
                poll_rx,
                response_tx,
                master_offset,
            } => Packet::Response {
                anchor_id,
                tag_id,
                sequence,
                poll_rx: poll_rx % bytes::TIME_MODULUS,
                response_tx: response_tx % bytes::TIME_MODULUS,
                master_offset: master_offset % bytes::TIME_MODULUS,
            },
        }
    }

    /// Whether every timestamp fits the 40 bits a frame carries.
    pub open spec fn timestamps_fit(self) -> bool {
        match self {
            Packet::Sync { sync_tx, .. } => sync_tx < bytes::TIME_MODULUS,
            Packet::Poll { poll_tx, .. } => poll_tx < bytes::TIME_MODULUS,
            Packet::Response { poll_rx, response_tx, master_offset, .. } => poll_rx
                < bytes::TIME_MODULUS && response_tx < bytes::TIME_MODULUS && master_offset
                < bytes::TIME_MODULUS,
        }
    }

    /// The frame of a given kind whose fields stand in `data`.
    pub open spec fn fields(kind: PacketKind, data: Seq<u8>) -> Packet {
        match kind {
            PacketKind::Sync => Packet::Sync {
                sequence: bytes::u16_at(data, 3),
                sync_tx: bytes::time_at(data, 5),
            },
            PacketKind::Poll => Packet::Poll {
                tag_id: bytes::u16_at(data, 3),
                sequence: bytes::u16_at(data, 5),
                poll_tx: bytes::time_at(data, 7),
            },
            PacketKind::Response => Packet::Response {
                anchor_id: bytes::u16_at(data, 3),
                tag_id: bytes::u16_at(data, 5),
                sequence: bytes::u16_at(data, 7),
                poll_rx: bytes::time_at(data, 9),
                response_tx: bytes::time_at(data, 14),
                master_offset: bytes::time_at(data, 19),
            },
        }
    }

    /// What a received payload means.
    pub open spec fn parse(data: Seq<u8>) -> Result<Packet, PacketError> {
        if data.len() < 3 || data[0] != MAGIC || data[1] != VERSION {
            Err(PacketError::InvalidHeader)
        } else {
            match PacketKind::of_code(data[2]) {
                Err(error) => Err(error),
                Ok(kind) => if data.len() < Packet::wire_len(kind) {
                    Err(PacketError::InvalidLength)
                } else {
                    Ok(Packet::fields(kind, data))
                },
            }
        }
    }

    /// Writes the frame to the start of `out`, zeroes the rest, and returns the frame's length.
    pub fn encode(self, out: &mut [u8; FRAME_LEN]) -> (len: usize)
        ensures
            len == self.wire().len(),
            final(out)@ == bytes::framed(self.wire()),
    {
        *out = [0u8; 24];
        out[0] = MAGIC;
        out[1] = VERSION;
        match self {
            Packet::Sync { sequence, sync_tx } => {
                out[2] = PacketKind::Sync.code();
                write_u16(out, 3, sequence);
                write_time(out, 5, sync_tx);
                assert(out@ =~= bytes::framed(self.wire()));
                10
            },
            Packet::Poll { tag_id, sequence, poll_tx } => {
                out[2] = PacketKind::Poll.code();
                write_u16(out, 3, tag_id);
                write_u16(out, 5, sequence);
                write_time(out, 7, poll_tx);
                assert(out@ =~= bytes::framed(self.wire()));
                12
            },
            Packet::Response {
                anchor_id,
                tag_id,
                sequence,
                poll_rx,
                response_tx,
                master_offset,
            } => {
                out[2] = PacketKind::Response.code();
                write_u16(out, 3, anchor_id);
                write_u16(out, 5, tag_id);
                write_u16(out, 7, sequence);
                write_time(out, 9, poll_rx);
                write_time(out, 14, response_tx);
                write_time(out, 19, master_offset);
                assert(out@ =~= bytes::framed(self.wire()));
                24
            },
        }
    }

    /// Decodes a packet from a received frame payload.
    ///
    /// Lengths are lower bounds: the radio driver hands back a few bytes more than were sent. Every
    /// field sits at a fixed offset, so trailing bytes are ignored.
    pub fn decode(data: &[u8]) -> (packet: Result<Packet, PacketError>)
        ensures
            packet == Packet::parse(data@),
    {
        if data.len() < 3 || data[0] != MAGIC || data[1] != VERSION {
            return Err(PacketError::InvalidHeader);
        }
        let kind = match PacketKind::try_from(data[2]) {
            Ok(kind) => kind,
            Err(error) => {
                return Err(error);
            },
        };
        match kind {
            PacketKind::Sync if data.len() >= 10 => Ok(
                Packet::Sync { sequence: read_u16(data, 3), sync_tx: read_time(data, 5) },
            ),
            PacketKind::Poll if data.len() >= 12 => Ok(
                Packet::Poll {
                    tag_id: read_u16(data, 3),
                    sequence: read_u16(data, 5),
                    poll_tx: read_time(data, 7),
                },
            ),
            PacketKind::Response if data.len() >= 24 => Ok(
                Packet::Response {
                    anchor_id: read_u16(data, 3),
                    tag_id: read_u16(data, 5),
                    sequence: read_u16(data, 7),
                    poll_rx: read_time(data, 9),
                    response_tx: read_time(data, 14),
                    master_offset: read_time(data, 19),
                },
            ),
            _ => Err(PacketError::InvalidLength),
        }
    }
}

/// Decoding what was encoded gives the packet back, whatever bytes follow it: exactly if its
/// timestamps fit 40 bits, and with timestamps reduced to 40 bits otherwise.
pub proof fn decode_undoes_encode(packet: Packet, trailing: Seq<u8>)
    ensures
        Packet::parse(packet.wire() + trailing) == Ok::<Packet, PacketError>(packet.carried()),
        packet.timestamps_fit() ==> packet.carried() == packet,
        packet.wire().len() == Packet::wire_len(packet.kind()),
{
    let data = packet.wire() + trailing;
    assert(data[0] == MAGIC && data[1] == VERSION && data[2] == packet.kind().spec_code());
    match packet {
        Packet::Sync { sequence, sync_tx } => {
            assert(data.subrange(3, 5) =~= bytes::u16_bytes(sequence));
            assert(data.subrange(5, 10) =~= bytes::time_bytes(sync_tx));
            bytes::u16_round_trip(data, 3, sequence);
            bytes::time_round_trip(data, 5, sync_tx);
        },
        Packet::Poll { tag_id, sequence, poll_tx } => {
            assert(data.subrange(3, 5) =~= bytes::u16_bytes(tag_id));
            assert(data.subrange(5, 7) =~= bytes::u16_bytes(sequence));
            assert(data.subrange(7, 12) =~= bytes::time_bytes(poll_tx));
            bytes::u16_round_trip(data, 3, tag_id);
            bytes::u16_round_trip(data, 5, sequence);
            bytes::time_round_trip(data, 7, poll_tx);
        },
        Packet::Response { anchor_id, tag_id, sequence, poll_rx, response_tx, master_offset } => {
            assert(data.subrange(3, 5) =~= bytes::u16_bytes(anchor_id));
            assert(data.subrange(5, 7) =~= bytes::u16_bytes(tag_id));
            assert(data.subrange(7, 9) =~= bytes::u16_bytes(sequence));
            assert(data.subrange(9, 14) =~= bytes::time_bytes(poll_rx));
            assert(data.subrange(14, 19) =~= bytes::time_bytes(response_tx));
            assert(data.subrange(19, 24) =~= bytes::time_bytes(master_offset));
            bytes::u16_round_trip(data, 3, anchor_id);
            bytes::u16_round_trip(data, 5, tag_id);
            bytes::u16_round_trip(data, 7, sequence);
            bytes::time_round_trip(data, 9, poll_rx);
            bytes::time_round_trip(data, 14, response_tx);
            bytes::time_round_trip(data, 19, master_offset);
        },
    }
}

/// Whatever decodes successfully starts with exactly the bytes its packet encodes to.
pub proof fn decoded_payload_is_the_encoding(data: Seq<u8>)
    requires
        Packet::parse(data) is Ok,
    ensures
        Packet::parse(data)->Ok_0.timestamps_fit(),
        Packet::parse(data)->Ok_0.wire() == data.subrange(
            0,
            Packet::parse(data)->Ok_0.wire().len() as int,
        ),
{
    let packet = Packet::parse(data)->Ok_0;
    match packet {
        Packet::Sync { .. } => {
            bytes::u16_bytes_of_read(data, 3);
            bytes::time_bytes_of_read(data, 5);
            assert(data.subrange(0, 10) =~= data.subrange(0, 3) + (data.subrange(3, 5)
                + data.subrange(5, 10)));
        },
        Packet::Poll { .. } => {
            bytes::u16_bytes_of_read(data, 3);
            bytes::u16_bytes_of_read(data, 5);
            bytes::time_bytes_of_read(data, 7);
            assert(data.subrange(0, 12) =~= data.subrange(0, 3) + (data.subrange(3, 5)
                + data.subrange(5, 7) + data.subrange(7, 12)));
        },
        Packet::Response { .. } => {
            bytes::u16_bytes_of_read(data, 3);
            bytes::u16_bytes_of_read(data, 5);
            bytes::u16_bytes_of_read(data, 7);
            bytes::time_bytes_of_read(data, 9);
            bytes::time_bytes_of_read(data, 14);
            bytes::time_bytes_of_read(data, 19);
            assert(data.subrange(0, 24) =~= data.subrange(0, 3) + (data.subrange(3, 5)
                + data.subrange(5, 7) + data.subrange(7, 9) + data.subrange(9, 14) + data.subrange(
                14,
                19,
            ) + data.subrange(19, 24)));
        },
    }
    assert(data.subrange(0, 3) =~= seq![MAGIC, VERSION, packet.kind().spec_code()]);
}

/// A frame cut short anywhere is rejected: for its length once the header is complete, for its
/// header before that.
pub proof fn truncated_frame_is_rejected(packet: Packet, len: int)
    requires
        0 <= len < packet.wire().len(),
    ensures
        Packet::parse(packet.wire().subrange(0, len)) == Err::<Packet, PacketError>(
            if len < 3 {
                PacketError::InvalidHeader
            } else {
                PacketError::InvalidLength
            },
        ),
{
    let data = packet.wire().subrange(0, len);
    if len >= 3 {
        assert(data[0] == MAGIC && data[1] == VERSION && data[2] == packet.kind().spec_code());
    }
}

/// Frames of any other protocol version are rejected at the header, not misread.
pub proof fn other_versions_are_rejected(data: Seq<u8>)
    requires
        data.len() >= 2,
        data[1] != VERSION,
    ensures
        Packet::parse(data) == Err::<Packet, PacketError>(PacketError::InvalidHeader),
{
}

/// Every field has its place on the wire: behind the protocol's first byte, the version and the
/// kind, identifiers and sequence numbers take two bytes and timestamps five, in this order.
pub proof fn fields_have_their_places(packet: Packet)
    ensures
        ({
            let wire = packet.wire();
            &&& wire[0] == 0xD3 && wire[1] == 2
            &&& match packet {
                Packet::Sync { sequence, sync_tx } => {
                    &&& wire.len() == 10 && wire[2] == 1
                    &&& bytes::u16_at(wire, 3) == sequence
                    &&& bytes::time_at(wire, 5) == sync_tx % 0x100_0000_0000
                },
                Packet::Poll { tag_id, sequence, poll_tx } => {
                    &&& wire.len() == 12 && wire[2] == 2
                    &&& bytes::u16_at(wire, 3) == tag_id
                    &&& bytes::u16_at(wire, 5) == sequence
                    &&& bytes::time_at(wire, 7) == poll_tx % 0x100_0000_0000
                },
                Packet::Response {
                    anchor_id,
                    tag_id,
                    sequence,
                    poll_rx,
                    response_tx,
                    master_offset,
                } => {
                    &&& wire.len() == 24 && wire[2] == 3
                    &&& bytes::u16_at(wire, 3) == anchor_id
                    &&& bytes::u16_at(wire, 5) == tag_id
                    &&& bytes::u16_at(wire, 7) == sequence
                    &&& bytes::time_at(wire, 9) == poll_rx % 0x100_0000_0000
                    &&& bytes::time_at(wire, 14) == response_tx % 0x100_0000_0000
                    &&& bytes::time_at(wire, 19) == master_offset % 0x100_0000_0000
                },
            }
        }),
{
    decode_undoes_encode(packet, Seq::empty());
    assert(packet.wire() + Seq::<u8>::empty() =~= packet.wire());
}

/// Each payload is rejected for one reason or accepted: the header first, then the kind, then the
/// length.
pub proof fn payloads_are_judged_in_order(data: Seq<u8>)
    ensures
        ({
            let ours = data.len() >= 3 && data[0] == 0xD3 && data[1] == 2;
            let known = 1 <= data[2] <= 3;
            let needed = if data[2] == 1 {
                10
            } else if data[2] == 2 {
                12
            } else {
                24int
            };
            &&& !ours <==> Packet::parse(data) == Err::<Packet, PacketError>(
                PacketError::InvalidHeader,
            )
            &&& ours && !known <==> Packet::parse(data) == Err::<Packet, PacketError>(
                PacketError::UnknownKind,
            )
            &&& ours && known && data.len() < needed <==> Packet::parse(data) == Err::<
                Packet,
                PacketError,
            >(PacketError::InvalidLength)
            &&& ours && known && data.len() >= needed <==> Packet::parse(data) is Ok
        }),
{
}

} // verus!
