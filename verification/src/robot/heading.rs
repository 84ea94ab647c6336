//! When a magnetic heading can be trusted.
//!
//! The board's own magnetism is estimated from the arc of directions the field has been seen in
//! while the robot turns. The estimate is only as good as that arc.

use vstd::prelude::*;

verus! {

/// The horizontal field direction is bucketed into this many sectors.
pub const HARD_IRON_SECTORS: usize = 12;

/// This many of them must have been visited before the estimate is worth applying.
pub const HARD_IRON_SECTORS_REQUIRED: usize = 8;

/// The sectors the field has been seen in.
#[derive(Clone, Copy, Debug, PartialEq, Eq)]
pub struct VisitedSectors {
    pub visited: [bool; HARD_IRON_SECTORS],
}

/// Number of sectors visited.
pub open spec fn visits(visited: Seq<bool>) -> int
    decreases visited.len(),
{
    if visited.len() == 0 {
        0
    } else {
        visits(visited.drop_last()) + if visited.last() {
            1int
        } else {
            0int
        }
    }
}

/// The sector a sector number means: a number past the last one is the last one.
pub open spec fn sector_of(sector: u32) -> int {
    if sector < HARD_IRON_SECTORS {
        sector as int
    } else {
        HARD_IRON_SECTORS - 1
    }
}

impl VisitedSectors {
    /// No sector visited.
    pub fn new() -> (sectors: VisitedSectors)
        ensures
            sectors.visited@ == Seq::new(HARD_IRON_SECTORS as nat, |i: int| false),
    {
        let sectors = VisitedSectors { visited: [false; 12] };
        assert(sectors.visited@ =~= Seq::new(HARD_IRON_SECTORS as nat, |i: int| false));
        sectors
    }

    /// Marks a sector as visited.
    pub fn observe(&mut self, sector: u32)
        ensures
            final(self).visited@ == old(self).visited@.update(sector_of(sector), true),
    {
        let index: usize = if sector < 12 {
            sector as usize
        } else {
            HARD_IRON_SECTORS - 1
        };
        self.visited[index] = true;
    }

    /// Whether the robot has been round enough of the circle.
    pub fn is_usable(&self) -> (usable: bool)
        ensures
            usable == (visits(self.visited@) >= HARD_IRON_SECTORS_REQUIRED),
    {
        let mut count: usize = 0;
        let mut i: usize = 0;
        while i < HARD_IRON_SECTORS
            invariant
                i <= HARD_IRON_SECTORS,
                count <= i,
                count == visits(self.visited@.take(i as int)),
            decreases HARD_IRON_SECTORS - i,
        {
            assert(self.visited@.take(i + 1).drop_last() =~= self.visited@.take(i as int));
            if self.visited[i] {
                count = count + 1;
            }
            i = i + 1;
        }
        assert(self.visited@.take(i as int) =~= self.visited@);
        count >= HARD_IRON_SECTORS_REQUIRED
    }
}

/// An observation never takes a visited sector away, so an estimate that has become usable stays
/// usable.
pub proof fn observing_never_unlearns(visited: Seq<bool>, at: int)
    requires
        0 <= at < visited.len(),
    ensures
        visits(visited) <= visits(visited.update(at, true)) <= visits(visited) + 1,
        visited[at] ==> visited.update(at, true) == visited,
    decreases visited.len(),
{
    let after = visited.update(at, true);
    if at == visited.len() - 1 {
        assert(after.drop_last() =~= visited.drop_last());
    } else {
        observing_never_unlearns(visited.drop_last(), at);
        assert(after.drop_last() =~= visited.drop_last().update(at, true));
    }
    if visited[at] {
        assert(after =~= visited);
    }
}

/// Each sector counts once, the first time it is visited: the count starts at nothing and goes up
/// by one with every sector not visited before.
pub proof fn sectors_count_once(visited: Seq<bool>, at: int)
    requires
        0 <= at < visited.len(),
    ensures
        visits(visited.update(at, true)) == visits(visited) + if visited[at] {
            0int
        } else {
            1int
        },
        (forall|i: int| 0 <= i < visited.len() ==> !visited[i]) ==> visits(visited) == 0,
        HARD_IRON_SECTORS == 12 && HARD_IRON_SECTORS_REQUIRED == 8,
    decreases visited.len(),
{
    let after = visited.update(at, true);
    let shorter = visited.drop_last();
    if at == visited.len() - 1 {
        assert(after.drop_last() =~= shorter);
        if shorter.len() > 0 {
            sectors_count_once(shorter, 0);
        }
    } else {
        sectors_count_once(shorter, at);
        assert(after.drop_last() =~= shorter.update(at, true));
    }
    assert(forall|i: int| 0 <= i < shorter.len() ==> shorter[i] == visited[i]);
}

/// Each of the twelve sectors has its own number, and a number past the last one stands for the
/// last one.
pub proof fn sectors_have_their_numbers(sector: u32)
    ensures
        sector < 12 ==> sector_of(sector) == sector,
        sector >= 12 ==> sector_of(sector) == 11,
{
}

} // verus!
