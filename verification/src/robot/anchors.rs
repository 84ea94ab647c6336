//! Which anchors a robot knows the position of, and their range calibration.
//!
//! Positions themselves are real numbers that the logic here never computes with: an anchor's
//! position is referred to by the configuration entry it comes from. Without a configuration no
//! position is known, so that a robot produces no fix rather than a confident one in the wrong
//! frame.

use vstd::prelude::*;

use crate::uwb::ranging::RangeBias;
use crate::uwb::schedule::{ACTIVE_ANCHOR_COUNT, ANCHOR_IDS};

verus! {

/// Largest constant correction believed.
pub const MAX_OFFSET_MM: i32 = 2_000;

/// Largest proportional correction believed.
pub const MAX_SCALE_PPM: i32 = 100_000;

/// Known positions needed to bootstrap a two-dimensional fix. Two leave the mirror image about the
/// line joining them.
pub const SOLVABLE_COUNT: usize = 3;

/// What the logic reads of one entry of an anchor configuration.
#[derive(Clone, Copy, Debug, PartialEq, Eq, Structural)]
pub struct AnchorEntry {
    pub anchor_id: u16,
    /// Whether all coordinates are finite and the height is not negative.
    pub position_usable: bool,
    pub offset_mm: i32,
    pub scale_ppm: i32,
}

/// What a robot knows of the anchors, in the order of `ANCHOR_IDS`.
#[derive(Clone, Copy, Debug, PartialEq, Eq)]
pub struct Layout {
    /// The configuration entry an anchor's position comes from, if it is known.
    pub positions: [Option<usize>; ACTIVE_ANCHOR_COUNT],
    pub biases: [RangeBias; ACTIVE_ANCHOR_COUNT],
}

/// `value` forced between `-limit` and `limit`.
pub open spec fn clamped(value: i32, limit: i32) -> i32 {
    if value < -limit {
        (-limit) as i32
    } else if value > limit {
        limit
    } else {
        value
    }
}

/// Whether an entry supplies the anchor at `index`.
pub open spec fn supplies(entry: AnchorEntry, index: int) -> bool {
    entry.anchor_id == ANCHOR_IDS@[index] && entry.position_usable
}

/// The last entry that supplies the anchor at `index`.
pub open spec fn last_entry(entries: Seq<AnchorEntry>, index: int) -> Option<usize>
    decreases entries.len(),
{
    if entries.len() == 0 {
        None
    } else if supplies(entries.last(), index) {
        Some((entries.len() - 1) as usize)
    } else {
        last_entry(entries.drop_last(), index)
    }
}

/// The calibration an anchor gets from the entry its position comes from, or none.
pub open spec fn bias_from(entries: Seq<AnchorEntry>, source: Option<usize>) -> RangeBias {
    match source {
        Some(k) => RangeBias {
            offset_mm: clamped(entries[k as int].offset_mm, MAX_OFFSET_MM),
            scale_ppm: clamped(entries[k as int].scale_ppm, MAX_SCALE_PPM),
        },
        None => RangeBias { offset_mm: 0, scale_ppm: 0 },
    }
}

/// `value` forced between `-limit` and `limit`.
fn clamp(value: i32, limit: i32) -> (result: i32)
    requires
        0 <= limit,
    ensures
        result == clamped(value, limit),
{
    if value < -limit {
        -limit
    } else if value > limit {
        limit
    } else {
        value
    }
}

/// Number of anchors with a known position.
pub open spec fn known(positions: Seq<Option<usize>>) -> int
    decreases positions.len(),
{
    if positions.len() == 0 {
        0
    } else {
        known(positions.drop_last()) + if positions.last() is Some {
            1int
        } else {
            0int
        }
    }
}

impl Default for Layout {
    fn default() -> (layout: Self)
        ensures
            forall|i: int|
                0 <= i < ACTIVE_ANCHOR_COUNT ==> (#[trigger] layout.positions@[i]) is None,
            forall|i: int|
                0 <= i < ACTIVE_ANCHOR_COUNT ==> #[trigger] layout.biases@[i] == (RangeBias {
                    offset_mm: 0,
                    scale_ppm: 0,
                }),
    {
        Layout { positions: [None; 4], biases: [RangeBias::none(); 4] }
    }
}

impl Layout {
    /// How many anchors have a known position.
    pub fn known_count(&self) -> (count: usize)
        ensures
            count == known(self.positions@),
            count <= ACTIVE_ANCHOR_COUNT,
    {
        let mut count: usize = 0;
        let mut i: usize = 0;
        while i < ACTIVE_ANCHOR_COUNT
            invariant
                i <= ACTIVE_ANCHOR_COUNT,
                count <= i,
                count == known(self.positions@.take(i as int)),
            decreases ACTIVE_ANCHOR_COUNT - i,
        {
            assert(self.positions@.take(i + 1).drop_last() =~= self.positions@.take(i as int));
            if self.positions[i].is_some() {
                count = count + 1;
            }
            i = i + 1;
        }
        assert(self.positions@.take(i as int) =~= self.positions@);
        count
    }

    /// Whether there are enough known positions to bootstrap a fix.
    pub fn is_solvable(&self) -> (solvable: bool)
        ensures
            solvable == (known(self.positions@) >= SOLVABLE_COUNT),
    {
        self.known_count() >= SOLVABLE_COUNT
    }
}

/// Position of an anchor in `ANCHOR_IDS`.
fn anchor_position(anchor_id: u16) -> (index: Option<usize>)
    ensures
        match index {
            Some(index) => index < ACTIVE_ANCHOR_COUNT && ANCHOR_IDS@[index as int] == anchor_id,
            None => forall|i: int|
                0 <= i < ACTIVE_ANCHOR_COUNT ==> #[trigger] ANCHOR_IDS@[i] != anchor_id,
        },
{
    let mut i: usize = 0;
    while i < ACTIVE_ANCHOR_COUNT
        invariant
            i <= ACTIVE_ANCHOR_COUNT,
            forall|k: int| 0 <= k < i ==> #[trigger] ANCHOR_IDS@[k] != anchor_id,
        decreases ACTIVE_ANCHOR_COUNT - i,
    {
        if ANCHOR_IDS[i] == anchor_id {
            return Some(i);
        }
        i = i + 1;
    }
    None
}

/// No two anchors share an identifier.
pub proof fn anchor_ids_are_distinct()
    ensures
        forall|i: int, j: int|
            0 <= i < j < ACTIVE_ANCHOR_COUNT ==> #[trigger] ANCHOR_IDS@[i]
                != #[trigger] ANCHOR_IDS@[j],
{
}

/// Builds a layout from a configuration's entries, falling back per anchor.
///
/// Entries are matched by identifier rather than by position in the list, so a reordered or partial
/// list cannot give one anchor another's calibration. An entry naming an unknown identifier, or
/// without a usable position, is ignored; of several for one anchor the last counts.
pub fn resolve_from_config(entries: &[AnchorEntry]) -> (layout: Layout)
    ensures
        forall|i: int|
            0 <= i < ACTIVE_ANCHOR_COUNT ==> #[trigger] layout.positions@[i] == last_entry(
                entries@,
                i,
            ),
        forall|i: int|
            0 <= i < ACTIVE_ANCHOR_COUNT ==> #[trigger] layout.biases@[i] == bias_from(
                entries@,
                last_entry(entries@, i),
            ),
{
    let mut layout = Layout::default();
    let mut k: usize = 0;
    assert(entries@.take(0).len() == 0);
    while k < entries.len()
        invariant
            k <= entries@.len(),
            forall|i: int|
                0 <= i < ACTIVE_ANCHOR_COUNT ==> #[trigger] layout.positions@[i] == last_entry(
                    entries@.take(k as int),
                    i,
                ),
            forall|i: int|
                0 <= i < ACTIVE_ANCHOR_COUNT ==> #[trigger] layout.biases@[i] == bias_from(
                    entries@,
                    last_entry(entries@.take(k as int), i),
                ),
        decreases entries@.len() - k,
    {
        let entry = entries[k];
        let ghost taken = entries@.take(k + 1);
        assert(taken.drop_last() =~= entries@.take(k as int));
        assert(taken.last() == entry);
        proof {
            anchor_ids_are_distinct();
        }
        if let Some(index) = anchor_position(entry.anchor_id) {
            if entry.position_usable {
                layout.positions[index] = Some(k);
                layout.biases[index] = RangeBias {
                    offset_mm: clamp(entry.offset_mm, MAX_OFFSET_MM),
                    scale_ppm: clamp(entry.scale_ppm, MAX_SCALE_PPM),
                };
                assert(supplies(entry, index as int));
            }
        }
        k = k + 1;
    }
    assert(entries@.take(k as int) =~= entries@);
    layout
}

/// Every calibration that comes out of a configuration is within the limits believed, and an anchor
/// without a usable entry is not corrected at all.
pub proof fn corrections_are_bounded(entries: Seq<AnchorEntry>, index: int)
    ensures
        ({
            let bias = bias_from(entries, last_entry(entries, index));
            &&& -MAX_OFFSET_MM <= bias.offset_mm <= MAX_OFFSET_MM
            &&& -MAX_SCALE_PPM <= bias.scale_ppm <= MAX_SCALE_PPM
        }),
        last_entry(entries, index) is None ==> bias_from(entries, last_entry(entries, index)) == (
        RangeBias { offset_mm: 0, scale_ppm: 0 }),
{
}

/// An anchor's position and calibration always come from one and the same entry, one made for that
/// anchor.
pub proof fn entries_never_mix(entries: Seq<AnchorEntry>, index: int)
    requires
        entries.len() <= usize::MAX,
    ensures
        last_entry(entries, index) matches Some(k) ==> k < entries.len() && supplies(
            entries[k as int],
            index,
        ),
        last_entry(entries, index) is None ==> forall|k: int|
            0 <= k < entries.len() ==> !supplies(#[trigger] entries[k], index),
    decreases entries.len(),
{
    if entries.len() > 0 {
        entries_never_mix(entries.drop_last(), index);
        if last_entry(entries, index) is None {
            assert forall|k: int| 0 <= k < entries.len() implies !supplies(
                #[trigger] entries[k],
                index,
            ) by {
                if k < entries.len() - 1 {
                    assert(entries[k] == entries.drop_last()[k]);
                }
            }
        }
    }
}

/// Of several usable entries for one anchor the last counts, and an entry is one for an anchor only
/// by its identifier, wherever in the list it stands.
pub proof fn the_last_usable_entry_counts(entries: Seq<AnchorEntry>, index: int, k: int)
    requires
        0 <= index < 4,
        0 <= k < entries.len() <= usize::MAX,
        entries[k].anchor_id == 0xA001 + index,
        entries[k].position_usable,
        forall|later: int|
            k < later < entries.len() ==> (#[trigger] entries[later]).anchor_id != 0xA001 + index
                || !entries[later].position_usable,
    ensures
        last_entry(entries, index) == Some(k as usize),
    decreases entries.len(),
{
    assert(ANCHOR_IDS@[0] == 0xA001 && ANCHOR_IDS@[1] == 0xA002 && ANCHOR_IDS@[2] == 0xA003
        && ANCHOR_IDS@[3] == 0xA004);
    if k < entries.len() - 1 {
        let shorter = entries.drop_last();
        assert(!supplies(entries.last(), index));
        assert(forall|later: int|
            k < later < shorter.len() ==> #[trigger] shorter[later] == entries[later]);
        the_last_usable_entry_counts(shorter, index, k);
    }
}

/// Without a usable entry of its own an anchor has no position and no calibration, however many
/// entries there are for others.
pub proof fn anchors_without_an_entry_stay_unknown(entries: Seq<AnchorEntry>, index: int)
    requires
        0 <= index < 4,
        forall|k: int|
            0 <= k < entries.len() ==> (#[trigger] entries[k]).anchor_id != 0xA001 + index
                || !entries[k].position_usable,
    ensures
        last_entry(entries, index) is None,
        bias_from(entries, None) == (RangeBias { offset_mm: 0, scale_ppm: 0 }),
    decreases entries.len(),
{
    assert(ANCHOR_IDS@[0] == 0xA001 && ANCHOR_IDS@[1] == 0xA002 && ANCHOR_IDS@[2] == 0xA003
        && ANCHOR_IDS@[3] == 0xA004);
    if entries.len() > 0 {
        let shorter = entries.drop_last();
        assert(!supplies(entries.last(), index));
        assert(forall|k: int| 0 <= k < shorter.len() ==> #[trigger] shorter[k] == entries[k]);
        anchors_without_an_entry_stay_unknown(shorter, index);
    }
}

/// An entry's corrections are taken over as they are up to two metres and a tenth of the range, in
/// either direction, and beyond that as far as that.
pub proof fn corrections_are_taken_over_up_to_the_limit(entries: Seq<AnchorEntry>, k: usize)
    ensures
        ({
            let entry = entries[k as int];
            let bias = bias_from(entries, Some(k));
            &&& -2_000 <= entry.offset_mm <= 2_000 ==> bias.offset_mm == entry.offset_mm
            &&& entry.offset_mm > 2_000 ==> bias.offset_mm == 2_000
            &&& entry.offset_mm < -2_000 ==> bias.offset_mm == -2_000
            &&& -100_000 <= entry.scale_ppm <= 100_000 ==> bias.scale_ppm == entry.scale_ppm
            &&& entry.scale_ppm > 100_000 ==> bias.scale_ppm == 100_000
            &&& entry.scale_ppm < -100_000 ==> bias.scale_ppm == -100_000
        }),
{
}

/// Each known position counts once.
pub proof fn known_positions_count_once(positions: Seq<Option<usize>>, at: int, source: usize)
    requires
        0 <= at < positions.len(),
    ensures
        known(positions.update(at, Some(source))) == known(positions) + if positions[at] is Some {
            0int
        } else {
            1int
        },
        (forall|i: int| 0 <= i < positions.len() ==> positions[i] is None) ==> known(positions)
            == 0,
        SOLVABLE_COUNT == 3,
    decreases positions.len(),
{
    let after = positions.update(at, Some(source));
    let shorter = positions.drop_last();
    if at == positions.len() - 1 {
        assert(after.drop_last() =~= shorter);
        if shorter.len() > 0 {
            known_positions_count_once(shorter, 0, source);
        }
    } else {
        known_positions_count_once(shorter, at, source);
        assert(after.drop_last() =~= shorter.update(at, Some(source)));
    }
    assert(forall|i: int| 0 <= i < shorter.len() ==> shorter[i] == positions[i]);
}

} // verus!
