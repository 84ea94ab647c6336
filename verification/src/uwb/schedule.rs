//! The TDMA superframe: who may transmit when.
//!
//! Four anchors at fixed points serve up to twelve robots. Anchor 0 is the timing master and
//! broadcasts a `Sync` once per superframe; every node derives the superframe's time base from that
//! frame. Each robot then owns one slot, in which it broadcasts a single `Poll` that all four
//! anchors answer, each in its own sub-slot.

use vstd::prelude::*;

verus! {

/// IEEE 802.15.4 network the nodes share.
pub const PAN_ID: u16 = 0x0D57;

/// Anchors actually installed. Every entry costs a sub-slot in every robot's slot.
pub const ANCHOR_IDS: [u16; 4] = [0xA001, 0xA002, 0xA003, 0xA004];

/// Robots the superframe has a slot for.
pub const TAG_IDS: [u16; 12] = [
    0xB001,
    0xB002,
    0xB003,
    0xB004,
    0xB005,
    0xB006,
    0xB007,
    0xB008,
    0xB009,
    0xB00A,
    0xB00B,
    0xB00C,
];

/// The timing master.
pub const MASTER_ANCHOR_ID: u16 = 0xA001;

/// Number of anchors, and of response sub-slots in a robot slot.
pub const ACTIVE_ANCHOR_COUNT: usize = 4;

/// Number of robots, and of robot slots in a superframe.
pub const ACTIVE_TAG_COUNT: usize = 12;

/// Air time of the longest frame in the protocol, rounded up.
pub const MAX_FRAME_AIRTIME_US: u32 = 280;

/// How far ahead of the current radio time the master programs its first `Sync`.
///
/// Only the first one: every later `Sync` is scheduled a whole superframe after the previous one.
pub const SYNC_SCHEDULE_GUARD_US: u32 = 1_500;

/// From the `Sync` frame's transmit timestamp to the first robot slot.
pub const SYNC_GUARD_US: u32 = 3_000;

/// From the end of the last robot slot to the next `Sync`, which the master programs in this gap.
pub const SYNC_TAIL_GUARD_US: u32 = 2_000;

/// Turnaround budget between a robot's `Poll` arriving and the first anchor's `Response` going out.
pub const RESPONSE_GUARD_US: u32 = 800;

/// Spacing between consecutive anchors' `Response` frames.
pub const SUBSLOT_US: u32 = 1_000;

/// Margin between one robot's last sub-slot and the next robot's `Poll`.
pub const INTER_SLOT_GUARD_US: u32 = 400;

/// How long a receiver stays armed for a frame it expects imminently.
pub const RX_TIMEOUT_US: u32 = 3_000;

/// Radio clock ticks per microsecond, rounded: the counter runs at 499.2 MHz * 128.
pub const TICKS_PER_US: u64 = 63_898;

/// One robot's whole exchange: its `Poll`, the anchor turnaround, the four `Response` sub-slots,
/// and a margin before the next robot.
pub const ROBOT_SLOT_US: u32 = MAX_FRAME_AIRTIME_US + RESPONSE_GUARD_US + 4 * SUBSLOT_US
    + INTER_SLOT_GUARD_US;

/// Length of a superframe: the position update period.
pub const SUPERFRAME_US: u32 = SYNC_GUARD_US + 12 * ROBOT_SLOT_US + SYNC_TAIL_GUARD_US;

/// How long a robot keeps its receiver armed for one `Response` sub-slot.
///
/// One sub-slot plus a frame's air time: the frame starts at the sub-slot boundary and its receive
/// timestamp is only reported once it has fully arrived.
pub const SUBSLOT_RX_TIMEOUT_US: u32 = SUBSLOT_US + MAX_FRAME_AIRTIME_US;

/// How long after its own `Poll` clears the air a robot can still expect a `Response`.
///
/// The anchor turnaround, every sub-slot, and the last frame's own air time.
pub const RESPONSE_BLOCK_US: u32 = RESPONSE_GUARD_US + 4 * SUBSLOT_US + MAX_FRAME_AIRTIME_US;

/// Opening of a robot's slot, in microseconds after the `Sync`.
pub open spec fn slot_start(tag_index: int) -> int {
    SYNC_GUARD_US + tag_index * ROBOT_SLOT_US
}

/// Sub-slot in which an anchor answers during a superframe.
pub open spec fn subslot(anchor_index: int, sequence: int) -> int {
    (anchor_index + sequence) % (ACTIVE_ANCHOR_COUNT as int)
}

/// Anchor that answers in a sub-slot during a superframe.
pub open spec fn anchor_in(subslot: int, sequence: int) -> int {
    (subslot - sequence) % (ACTIVE_ANCHOR_COUNT as int)
}

/// Transmission of an anchor's `Response`, in microseconds after the robot slot opened.
pub open spec fn response_start(anchor_index: int, sequence: int) -> int {
    MAX_FRAME_AIRTIME_US + RESPONSE_GUARD_US + subslot(anchor_index, sequence) * SUBSLOT_US
}

/// When `tag_index`'s slot opens, in microseconds after the `Sync` frame's hardware timestamp.
///
/// Slots are numbered in 32 bits: of a wider index only the low 32 bits count.
pub fn robot_slot(tag_index: usize) -> (offset: u32)
    requires
        slot_start((tag_index as u32) as int) <= u32::MAX,
    ensures
        offset == slot_start((tag_index as u32) as int),
{
    proof {
        let index = (tag_index as u32) as int;
        assert(index * ROBOT_SLOT_US == index * 5_480) by (nonlinear_arith)
            requires
                ROBOT_SLOT_US == 5_480,
        ;
    }
    SYNC_GUARD_US + (tag_index as u32 * ROBOT_SLOT_US)
}

/// Which sub-slot `anchor_index` answers in during the superframe numbered `sequence`.
///
/// The order is rotated by `sequence`, so that no single anchor is permanently the one on the
/// tightest deadline.
pub fn response_subslot(anchor_index: usize, sequence: u16) -> (index: usize)
    requires
        anchor_index + sequence <= usize::MAX,
    ensures
        index == subslot(anchor_index as int, sequence as int),
        index < ACTIVE_ANCHOR_COUNT,
{
    (anchor_index + sequence as usize) % ACTIVE_ANCHOR_COUNT
}

/// When `anchor_index` transmits its `Response`, in microseconds after the robot slot opened.
pub fn response_offset(anchor_index: usize, sequence: u16) -> (offset: u32)
    requires
        anchor_index + sequence <= usize::MAX,
    ensures
        offset == response_start(anchor_index as int, sequence as int),
{
    let subslot = response_subslot(anchor_index, sequence);
    MAX_FRAME_AIRTIME_US + RESPONSE_GUARD_US + (subslot as u32 * SUBSLOT_US)
}

/// The robot slots follow each other without gap or overlap, the first one opening `SYNC_GUARD_US`
/// after the `Sync`, and the last one ending exactly `SYNC_TAIL_GUARD_US` before the next `Sync`.
pub proof fn slots_tile_the_superframe(tag_index: int)
    requires
        0 <= tag_index < ACTIVE_TAG_COUNT,
    ensures
        slot_start(0) == SYNC_GUARD_US,
        slot_start(tag_index + 1) == slot_start(tag_index) + ROBOT_SLOT_US,
        slot_start(tag_index) + ROBOT_SLOT_US <= SUPERFRAME_US - SYNC_TAIL_GUARD_US,
        slot_start(ACTIVE_TAG_COUNT as int) == SUPERFRAME_US - SYNC_TAIL_GUARD_US,
{
    assert forall|i: int| slot_start(i) == 3_000 + i * 5_480 by {
        assert(i * ROBOT_SLOT_US == i * 5_480) by (nonlinear_arith)
            requires
                ROBOT_SLOT_US == 5_480,
        ;
    }
}

/// During one superframe two anchors never answer in the same sub-slot, and every sub-slot belongs
/// to some anchor.
pub proof fn subslots_never_collide(sequence: int)
    ensures
        forall|i: int, j: int|
            0 <= i < j < ACTIVE_ANCHOR_COUNT ==> #[trigger] subslot(i, sequence)
                != #[trigger] subslot(j, sequence),
        forall|k: int|
            0 <= k < ACTIVE_ANCHOR_COUNT ==> 0 <= #[trigger] anchor_in(k, sequence)
                < ACTIVE_ANCHOR_COUNT && subslot(anchor_in(k, sequence), sequence) == k,
{
}

/// The sub-slot order moves on by one every superframe and repeats after as many superframes as
/// there are anchors, so each anchor takes the tightest deadline in turn.
pub proof fn subslots_rotate(anchor_index: int, sequence: int)
    ensures
        subslot(anchor_index, sequence + 1) == (subslot(anchor_index, sequence) + 1)
            % (ACTIVE_ANCHOR_COUNT as int),
        subslot(anchor_index, sequence + ACTIVE_ANCHOR_COUNT) == subslot(anchor_index, sequence),
        exists|n: int|
            0 <= n < ACTIVE_ANCHOR_COUNT && #[trigger] subslot(anchor_index, sequence + n) == 0,
{
    let n = (-(anchor_index + sequence)) % 4;
    assert(subslot(anchor_index, sequence + n) == 0);
}

/// Every `Response` frame is over before its robot's slot is, and within `RESPONSE_BLOCK_US` of the
/// slot's opening, which the `Poll` never ends before; the frames of different sub-slots do not
/// overlap on the air.
pub proof fn responses_fit_the_slot(anchor_index: int, sequence: int)
    ensures
        response_start(anchor_index, sequence) >= MAX_FRAME_AIRTIME_US + RESPONSE_GUARD_US,
        response_start(anchor_index, sequence) + MAX_FRAME_AIRTIME_US <= ROBOT_SLOT_US,
        response_start(anchor_index, sequence) + MAX_FRAME_AIRTIME_US <= RESPONSE_BLOCK_US,
        forall|other: int|
            subslot(anchor_index, sequence) < #[trigger] subslot(other, sequence)
                ==> response_start(anchor_index, sequence) + MAX_FRAME_AIRTIME_US
                <= response_start(other, sequence),
{
}

/// The tail guard covers the air time of a `Sync`, and a robot slot outlasts its own `Poll` and the
/// anchor turnaround.
pub proof fn guards_cover_the_frames()
    ensures
        SYNC_TAIL_GUARD_US >= MAX_FRAME_AIRTIME_US,
        ROBOT_SLOT_US > MAX_FRAME_AIRTIME_US + RESPONSE_GUARD_US,
        MASTER_ANCHOR_ID == ANCHOR_IDS@[0],
        ANCHOR_IDS@.len() == ACTIVE_ANCHOR_COUNT,
        TAG_IDS@.len() == ACTIVE_TAG_COUNT,
        SUPERFRAME_US == 70_760,
{
}

/// The timetable: robot `tag_index` owns the 5.48 ms from 3 ms plus as many slots after the `Sync`,
/// and anchors answer from 1.08 ms into the slot on, a millisecond apart, the first one in turn
/// moving back by one place every superframe.
pub proof fn timetable(tag_index: int, anchor_index: int, sequence: int)
    ensures
        slot_start(tag_index) == 3_000 + tag_index * 5_480,
        response_start(anchor_index, sequence) == 1_080 + (anchor_index + sequence) % 4 * 1_000,
        subslot(0, 0) == 0,
        subslot(anchor_index + 1, sequence) == subslot(anchor_index, sequence + 1),
        0 <= subslot(anchor_index, sequence) < 4,
        response_start(anchor_index, sequence) == 1_080 + subslot(anchor_index, sequence) * 1_000,
{
    assert(tag_index * ROBOT_SLOT_US == tag_index * 5_480) by (nonlinear_arith)
        requires
            ROBOT_SLOT_US == 5_480,
    ;
}

/// A receiver armed when a sub-slot opens stays so until a frame sent there is over, one armed when
/// a `Poll` has cleared the air until the last `Response` is, and a microsecond is counted as the
/// nearest whole number of ticks.
pub proof fn windows_cover_the_frames(anchor_index: int, sequence: int)
    ensures
        SUBSLOT_RX_TIMEOUT_US == SUBSLOT_US + MAX_FRAME_AIRTIME_US,
        response_start(anchor_index, sequence) + MAX_FRAME_AIRTIME_US <= MAX_FRAME_AIRTIME_US
            + RESPONSE_BLOCK_US,
        RESPONSE_BLOCK_US == 5_080,
        -5 <= TICKS_PER_US * 10 - 638_976 <= 5,
{
}

} // verus!
