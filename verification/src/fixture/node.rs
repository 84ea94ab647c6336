//! What a fixture node does around its superframes: synchronization and low-rate diagnostics.

use vstd::prelude::*;

use crate::fixture::exchange::FixtureEvent;
use crate::fixture::schedule::{DIRECTED_PAIRS, NODE_IDS, PAIR_COUNT, SYNC_SCHEDULE_US};
use crate::fixture::superframe;
use crate::uwb::calibration_packet::CalibrationPacket;
use crate::uwb::time;
use crate::uwb::time::delayed_after;

verus! {

/// The radio instant at which the coordinator, whose radio clock reads `now`, sends the next
/// `Sync`.
pub fn sync_instant(now: u64) -> (at_ticks: u64)
    requires
        now + time::ticks_of_us(SYNC_SCHEDULE_US as int) <= u64::MAX,
    ensures
        at_ticks == time::delayed_instant(now as int, SYNC_SCHEDULE_US as int),
        time::falls_due(at_ticks as int, now as int, 1_500),
{
    proof {
        time::delayed_instant_falls_due(now as int, 1_500, 0);
    }
    delayed_after(now, SYNC_SCHEDULE_US)
}

/// The time base of the coordinator's superframe, given the transmit timestamp of its `Sync`.
pub fn synchronized_by_sending(sequence: u16, sent: Option<u64>) -> (base: Option<(u16, u64)>)
    ensures
        base == (match sent {
            Some(ticks) => Some((sequence, ticks)),
            None => None,
        }),
{
    match sent {
        Some(ticks) => Some((sequence, ticks)),
        None => None,
    }
}

/// The time base of another node's superframe, given what it received: only a `Sync` gives one.
pub fn synchronized_by_receiving(received: Option<(CalibrationPacket, u64)>) -> (base: Option<
    (u16, u64),
>)
    ensures
        base == (match received {
            Some((CalibrationPacket::Sync { sequence }, ticks)) => Some((sequence, ticks)),
            _ => None,
        }),
{
    match received {
        Some((CalibrationPacket::Sync { sequence }, ticks)) => Some((sequence, ticks)),
        _ => None,
    }
}

/// The sequence number after a superframe, which counts only if the node took part in it.
pub fn next_sequence(sequence: u16, took_part: bool) -> (next: u16)
    ensures
        next == (if took_part {
            (sequence + 1) % 0x1_0000
        } else {
            sequence as int
        }),
{
    if took_part {
        sequence.wrapping_add(1)
    } else {
        sequence
    }
}

/// One more, up to the largest count.
pub open spec fn counted(count: u32) -> u32 {
    if count == u32::MAX {
        count
    } else {
        (count + 1) as u32
    }
}

/// Whether a recurring event is worth a log line: the first time and every hundredth.
pub open spec fn is_milestone(count: u32) -> bool {
    count == 1 || count % 100 == 0
}

/// Counts what a fixture node has seen, and decides what is worth a log line.
#[derive(Clone, Copy, Debug, PartialEq, Eq)]
pub struct FixtureLog {
    pub synchronized_frames: u32,
    pub diagnostic_failures: u32,
    /// Reports per directed pair.
    pub sample_counts: [u32; PAIR_COUNT],
}

/// Whether an exchange between the given nodes is the one of slot `pair`.
pub open spec fn is_pair(pair: int, initiator_id: u16, responder_id: u16) -> bool {
    superframe::exchange_of(pair, 0).initiator == initiator_id && superframe::exchange_of(
        pair,
        0,
    ).responder == responder_id
}

/// The slot of the exchange between two nodes, if the schedule has one.
pub fn find_pair(initiator_id: u16, responder_id: u16) -> (pair: Option<usize>)
    ensures
        match pair {
            Some(pair) => pair < PAIR_COUNT && is_pair(pair as int, initiator_id, responder_id),
            None => forall|k: int|
                0 <= k < PAIR_COUNT ==> !is_pair(k, initiator_id, responder_id),
        },
{
    let mut pair: usize = 0;
    while pair < PAIR_COUNT
        invariant
            pair <= PAIR_COUNT,
            forall|k: int| 0 <= k < pair ==> !is_pair(k, initiator_id, responder_id),
        decreases PAIR_COUNT - pair,
    {
        let exchange = superframe::exchange_at(pair, 0);
        if exchange.initiator == initiator_id && exchange.responder == responder_id {
            return Some(pair);
        }
        pair = pair + 1;
    }
    None
}

impl FixtureLog {
    /// A log that has seen nothing.
    pub fn new() -> (log: FixtureLog)
        ensures
            log.synchronized_frames == 0,
            log.diagnostic_failures == 0,
            log.sample_counts@ == seq![0u32, 0, 0, 0, 0, 0],
    {
        let sample_counts: [u32; 6] = [0, 0, 0, 0, 0, 0];
        assert(sample_counts@ =~= seq![0u32, 0, 0, 0, 0, 0]);
        FixtureLog { synchronized_frames: 0, diagnostic_failures: 0, sample_counts }
    }

    /// Counts a report under its pair and returns the count if it is worth a log line.
    ///
    /// Anything but a report of a scheduled pair is ignored.
    pub fn emit(&mut self, report: CalibrationPacket) -> (milestone: Option<u32>)
        ensures
            final(self).synchronized_frames == old(self).synchronized_frames,
            final(self).diagnostic_failures == old(self).diagnostic_failures,
            match report {
                CalibrationPacket::Report { initiator_id, responder_id, .. } => {
                    &&& forall|pair: int|
                        0 <= pair < PAIR_COUNT && #[trigger] is_pair(
                            pair,
                            initiator_id,
                            responder_id,
                        ) ==> {
                            let count = counted(old(self).sample_counts@[pair]);
                            &&& final(self).sample_counts@ == old(self).sample_counts@.update(
                                pair,
                                count,
                            )
                            &&& milestone == (if is_milestone(count) {
                                Some(count)
                            } else {
                                None
                            })
                        }
                    &&& (forall|pair: int|
                        0 <= pair < PAIR_COUNT ==> !#[trigger] is_pair(
                            pair,
                            initiator_id,
                            responder_id,
                        )) ==> milestone is None && *final(self) == *old(self)
                },
                _ => milestone is None && *final(self) == *old(self),
            },
    {
        if let CalibrationPacket::Report { initiator_id, responder_id, .. } = report {
            if let Some(pair) = find_pair(initiator_id, responder_id) {
                let count: u32 = self.sample_counts[pair].saturating_add(1);
                self.sample_counts[pair] = count;
                proof {
                    pairs_are_distinct(pair as int, initiator_id, responder_id);
                }
                if count == 1 || count % 100 == 0 {
                    return Some(count);
                }
            }
        }
        None
    }

    /// Counts an event and returns the count if it is worth a log line: of synchronizations the
    /// first and every hundredth, of failures the first eighteen and every five hundredth.
    pub fn note(&mut self, event: FixtureEvent) -> (milestone: Option<u32>)
        ensures
            final(self).sample_counts == old(self).sample_counts,
            match event {
                FixtureEvent::Synchronized { .. } => {
                    let count = counted(old(self).synchronized_frames);
                    &&& final(self).synchronized_frames == count
                    &&& final(self).diagnostic_failures == old(self).diagnostic_failures
                    &&& milestone == (if is_milestone(count) {
                        Some(count)
                    } else {
                        None
                    })
                },
                _ => {
                    let count = counted(old(self).diagnostic_failures);
                    &&& final(self).synchronized_frames == old(self).synchronized_frames
                    &&& final(self).diagnostic_failures == count
                    &&& milestone == (if count <= 18 || count % 500 == 0 {
                        Some(count)
                    } else {
                        None
                    })
                },
            },
    {
        if let FixtureEvent::Synchronized { .. } = event {
            self.synchronized_frames = self.synchronized_frames.saturating_add(1);
            let count: u32 = self.synchronized_frames;
            if count == 1 || count % 100 == 0 {
                return Some(count);
            }
            return None;
        }
        self.diagnostic_failures = self.diagnostic_failures.saturating_add(1);
        let count: u32 = self.diagnostic_failures;
        if count <= 18 || count % 500 == 0 {
            Some(count)
        } else {
            None
        }
    }
}

/// No two slots belong to the same directed pair of nodes.
pub proof fn pairs_are_distinct(pair: int, initiator_id: u16, responder_id: u16)
    requires
        0 <= pair < PAIR_COUNT,
        is_pair(pair, initiator_id, responder_id),
    ensures
        forall|other: int|
            0 <= other < PAIR_COUNT && #[trigger] is_pair(other, initiator_id, responder_id)
                ==> other == pair,
{
    let p = DIRECTED_PAIRS@;
    assert(p[0] == (0usize, 1usize) && p[1] == (1usize, 0usize) && p[2] == (0usize, 2usize) && p[3]
        == (2usize, 0usize) && p[4] == (1usize, 2usize) && p[5] == (2usize, 1usize));
    let n = NODE_IDS@;
    assert(n[0] == 0xC001 && n[1] == 0xC002 && n[2] == 0xC003);
}

/// A count goes up by one each time and stops at the largest, and of every hundred in a row exactly
/// one is a milestone, the multiple of a hundred, apart from the very first.
pub proof fn milestones_are_a_hundred_apart(count: u32)
    ensures
        count < u32::MAX ==> counted(count) == count + 1,
        count == u32::MAX ==> counted(count) == count,
        is_milestone(count) <==> count == 1 || count == count / 100 * 100,
        count > 1 && is_milestone(count) ==> forall|next: u32|
            count < next < count + 100 ==> !is_milestone(next),
{
}

/// An exchange is counted under the slot whose initiator and responder it has, in that order.
pub proof fn pairs_are_counted_by_direction(pair: int, initiator_id: u16, responder_id: u16)
    requires
        0 <= pair < 6,
    ensures
        is_pair(pair, initiator_id, responder_id) <==> initiator_id == 0xC001
            + DIRECTED_PAIRS@[pair].0 && responder_id == 0xC001 + DIRECTED_PAIRS@[pair].1,
        is_pair(pair, initiator_id, responder_id) ==> !is_pair(pair, responder_id, initiator_id),
{
    crate::fixture::schedule::every_ordered_pair_once();
    assert(DIRECTED_PAIRS@.contains(DIRECTED_PAIRS@[pair]));
    let n = NODE_IDS@;
    assert(n[0] == 0xC001 && n[1] == 0xC002 && n[2] == 0xC003);
}

} // verus!
