//! Binding between an anchor identity, one physical board and its antenna delay.

use vstd::prelude::*;

use crate::uwb::radio::AntennaDelay;
use crate::uwb::schedule::ACTIVE_ANCHOR_COUNT;

verus! {

/// Bytes of a microcontroller's factory-programmed identifier.
pub const UID_LEN: usize = 12;

/// What an anchor's manifest entry says about its board.
#[derive(Clone, Copy, Debug, PartialEq, Eq)]
pub struct AnchorHardwareCalibration {
    pub anchor_id: u16,
    /// The board this entry was measured on, `None` until it has been provisioned.
    pub expected_uid: Option<[u8; UID_LEN]>,
    pub rx_ticks: u16,
    pub tx_ticks: u16,
}

impl AnchorHardwareCalibration {
    /// The board's antenna delay.
    pub fn delay(self) -> (delay: AntennaDelay)
        ensures
            delay == (AntennaDelay { rx: self.rx_ticks, tx: self.tx_ticks }),
    {
        AntennaDelay { rx: self.rx_ticks, tx: self.tx_ticks }
    }

    /// Whether this entry was made for the given anchor and the given board.
    pub open spec fn is_for(self, anchor_id: u16, uid: Seq<u8>) -> bool {
        self.anchor_id == anchor_id && self.expected_uid is Some && self.expected_uid->0@ == uid
    }

    /// Whether an anchor may range with this entry: it was made for that anchor and for the very
    /// board running. An unprovisioned entry accepts nobody.
    pub fn accepts(self, anchor_id: u16, physical_uid: &[u8; UID_LEN]) -> (accepted: bool)
        ensures
            accepted == self.is_for(anchor_id, physical_uid@),
    {
        if self.anchor_id != anchor_id {
            return false;
        }
        let expected = match self.expected_uid {
            Some(expected) => expected,
            None => {
                return false;
            },
        };
        let mut i: usize = 0;
        while i < UID_LEN
            invariant
                i <= UID_LEN,
                self.anchor_id == anchor_id,
                self.expected_uid == Some(expected),
                forall|k: int| 0 <= k < i ==> expected@[k] == physical_uid@[k],
            decreases UID_LEN - i,
        {
            if expected[i] != physical_uid[i] {
                return false;
            }
            i = i + 1;
        }
        assert(expected@ =~= physical_uid@);
        true
    }
}

/// The manifest entry of an anchor.
pub fn for_index(
    manifest: &[AnchorHardwareCalibration; ACTIVE_ANCHOR_COUNT],
    index: usize,
) -> (entry: AnchorHardwareCalibration)
    requires
        index < ACTIVE_ANCHOR_COUNT,
    ensures
        entry == manifest@[index as int],
{
    manifest[index]
}

/// The antenna delay an anchor has before its board has been measured: the nominal one for all.
pub fn antenna_delay(anchor_index: usize) -> (delay: AntennaDelay)
    requires
        anchor_index < ACTIVE_ANCHOR_COUNT,
    ensures
        delay == (AntennaDelay { rx: 16_385, tx: 16_385 }),
{
    AntennaDelay::nominal()
}

/// An entry accepts at most one identity: no board can range as two anchors with it, and no two
/// boards as the same anchor.
pub proof fn entry_accepts_one_identity(
    entry: AnchorHardwareCalibration,
    anchor_a: u16,
    uid_a: Seq<u8>,
    anchor_b: u16,
    uid_b: Seq<u8>,
)
    ensures
        entry.is_for(anchor_a, uid_a) && entry.is_for(anchor_b, uid_b) ==> anchor_a == anchor_b
            && uid_a == uid_b,
        entry.expected_uid is None ==> !entry.is_for(anchor_a, uid_a),
{
}

/// A provisioned entry accepts its own anchor on its own board, down to every byte of the board's
/// identifier.
pub proof fn an_entry_accepts_its_own_board(
    entry: AnchorHardwareCalibration,
    uid: [u8; UID_LEN],
    other: Seq<u8>,
    at: int,
)
    requires
        entry.expected_uid == Some(uid),
        0 <= at < 12,
    ensures
        entry.is_for(entry.anchor_id, uid@),
        other[at] != uid@[at] ==> !entry.is_for(entry.anchor_id, other),
{
}

} // verus!
