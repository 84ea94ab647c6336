//! Maps a robot's device ID to its TDMA tag index.
//!
//! Two robots sharing a tag index would reply in the same slot and corrupt each other's ranging, so
//! an unassigned device gets no index at all, and a list that assigns anything twice is refused as
//! a whole.

use vstd::prelude::*;
use vstd::utf8;

verus! {

/// Compiled `(device_id, tag_index)` pairs.
pub const TAG_ASSIGNMENTS: [(&'static str, usize); 1] = [("508040", 0)];

/// One entry of a fleet-wide assignment list.
#[derive(Debug)]
pub struct TagAssignment {
    pub device_id: String,
    pub tag_index: u8,
}

/// Two texts of equal bytes are equal.
proof fn bytes_determine_text(a: &str, b: &str)
    requires
        utf8::encode_utf8(a@) == utf8::encode_utf8(b@),
    ensures
        a@ == b@,
{
    utf8::encode_utf8_decode_utf8(a@);
    utf8::encode_utf8_decode_utf8(b@);
}

/// Whether two texts are the same.
pub fn str_eq(a: &str, b: &str) -> (equal: bool)
    ensures
        equal == (a@ == b@),
{
    let x: &[u8] = a.as_bytes();
    let y: &[u8] = b.as_bytes();
    if x.len() != y.len() {
        return false;
    }
    let mut i: usize = 0;
    while i < x.len()
        invariant
            i <= x@.len(),
            x@.len() == y@.len(),
            x@ == utf8::encode_utf8(a@),
            y@ == utf8::encode_utf8(b@),
            forall|k: int| 0 <= k < i ==> x@[k] == y@[k],
        decreases x@.len() - i,
    {
        if x[i] != y[i] {
            return false;
        }
        i = i + 1;
    }
    assert(x@ =~= y@);
    proof {
        bytes_determine_text(a, b);
    }
    true
}

/// Whether position `k` of the compiled table is about a device.
pub open spec fn compiled_entry(device_id: Seq<char>, k: int) -> bool {
    0 <= k < TAG_ASSIGNMENTS@.len() && TAG_ASSIGNMENTS@[k].0@ == device_id
}

/// Looks up a device's tag index in the compiled table.
///
/// `None` means "do not range": two robots answering in the same slot is worse than one robot not
/// ranging at all.
#[must_use]
pub fn tag_index(device_id: &str) -> (index: Option<usize>)
    ensures
        match index {
            Some(index) => exists|k: int|
                #[trigger] compiled_entry(device_id@, k) && TAG_ASSIGNMENTS@[k].1 == index,
            None => forall|k: int| !#[trigger] compiled_entry(device_id@, k),
        },
{
    let mut i: usize = 0;
    while i < TAG_ASSIGNMENTS.len()
        invariant
            i <= TAG_ASSIGNMENTS@.len(),
            forall|k: int| 0 <= k < i ==> !#[trigger] compiled_entry(device_id@, k),
        decreases TAG_ASSIGNMENTS@.len() - i,
    {
        let (id, index) = TAG_ASSIGNMENTS[i];
        if str_eq(id, device_id) {
            assert(compiled_entry(device_id@, i as int));
            return Some(index);
        }
        i = i + 1;
    }
    None
}

/// Whether two entries assign the same device or the same index.
pub open spec fn clash(a: TagAssignment, b: TagAssignment) -> bool {
    a.device_id@ == b.device_id@ || a.tag_index == b.tag_index
}

/// Whether a list assigns no device and no index twice.
pub open spec fn consistent(assignments: Seq<TagAssignment>) -> bool {
    forall|i: int, j: int|
        0 <= i < j < assignments.len() ==> !clash(
            #[trigger] assignments[i],
            #[trigger] assignments[j],
        )
}

/// Whether two entries assign the same device or the same index.
fn clashes(a: &TagAssignment, b: &TagAssignment) -> (clashing: bool)
    ensures
        clashing == clash(*a, *b),
{
    str_eq(a.device_id.as_str(), b.device_id.as_str()) || a.tag_index == b.tag_index
}

/// Whether a list assigns no device and no index twice.
fn is_consistent(assignments: &[TagAssignment]) -> (result: bool)
    ensures
        result == consistent(assignments@),
{
    let mut i: usize = 0;
    while i < assignments.len()
        invariant
            i <= assignments@.len(),
            forall|a: int, b: int|
                0 <= a < i && a < b < assignments@.len() ==> !clash(
                    #[trigger] assignments@[a],
                    #[trigger] assignments@[b],
                ),
        decreases assignments@.len() - i,
    {
        let mut j: usize = i + 1;
        while j < assignments.len()
            invariant
                i < j <= assignments@.len(),
                forall|b: int|
                    i < b < j ==> !clash(assignments@[i as int], #[trigger] assignments@[b]),
            decreases assignments@.len() - j,
        {
            if clashes(&assignments[i], &assignments[j]) {
                assert(clash(assignments@[i as int], assignments@[j as int]));
                return false;
            }
            j = j + 1;
        }
        i = i + 1;
    }
    true
}

/// Looks up a device's tag index in a fleet-wide assignment list.
///
/// The entire list is refused if it assigns a device or an index twice anywhere: a single malformed
/// message must not let two robots start answering in the same slot.
#[must_use]
pub fn resolve_from_config(device_id: &str, assignments: &[TagAssignment]) -> (index: Option<usize>)
    ensures
        match index {
            Some(index) => consistent(assignments@) && exists|k: int|
                0 <= k < assignments@.len() && (#[trigger] assignments@[k]).device_id@ == device_id@
                    && assignments@[k].tag_index == index,
            None => !consistent(assignments@) || forall|k: int|
                0 <= k < assignments@.len() ==> (#[trigger] assignments@[k]).device_id@
                    != device_id@,
        },
{
    if !is_consistent(assignments) {
        return None;
    }
    let mut i: usize = 0;
    while i < assignments.len()
        invariant
            i <= assignments@.len(),
            consistent(assignments@),
            forall|k: int|
                0 <= k < i ==> (#[trigger] assignments@[k]).device_id@ != device_id@,
        decreases assignments@.len() - i,
    {
        if str_eq(assignments[i].device_id.as_str(), device_id) {
            return Some(assignments[i].tag_index as usize);
        }
        i = i + 1;
    }
    None
}

/// In a list that is accepted, two robots never share a tag index: entries of different devices
/// have different indices, and every device has at most one.
pub proof fn accepted_lists_never_share_an_index(
    assignments: Seq<TagAssignment>,
    i: int,
    j: int,
)
    requires
        consistent(assignments),
        0 <= i < assignments.len(),
        0 <= j < assignments.len(),
    ensures
        assignments[i].tag_index == assignments[j].tag_index ==> i == j,
        assignments[i].device_id@ == assignments[j].device_id@ ==> i == j,
{
    if i < j {
        assert(!clash(assignments[i], assignments[j]));
    } else if j < i {
        assert(!clash(assignments[j], assignments[i]));
    }
}

/// The compiled table assigns no device and no index twice.
pub proof fn compiled_table_is_consistent()
    ensures
        forall|i: int, j: int|
            0 <= i < j < TAG_ASSIGNMENTS@.len() ==> (#[trigger] TAG_ASSIGNMENTS@[i]).0@ != (
            #[trigger] TAG_ASSIGNMENTS@[j]).0@ && TAG_ASSIGNMENTS@[i].1 != TAG_ASSIGNMENTS@[j].1,
{
}

/// A list is only refused for cause: two of its entries assign the same device or the same index.
pub proof fn refused_lists_assign_something_twice(assignments: Seq<TagAssignment>)
    requires
        !consistent(assignments),
    ensures
        exists|i: int, j: int|
            0 <= i < j < assignments.len() && ((#[trigger] assignments[i]).device_id@ == (
            #[trigger] assignments[j]).device_id@ || assignments[i].tag_index
                == assignments[j].tag_index),
{
    let (i, j) = choose|i: int, j: int|
        0 <= i < j < assignments.len() && clash(
            #[trigger] assignments[i],
            #[trigger] assignments[j],
        );
    assert(clash(assignments[i], assignments[j]));
}

} // verus!
