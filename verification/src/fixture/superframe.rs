//! One superframe of the fixture: all six directed exchanges, each once.
//!
//! Both directions of a pair are ranged on purpose: that exposes a role-dependent timestamp error.

use vstd::prelude::*;

use crate::fixture::exchange;
use crate::fixture::exchange::{
    Command, Exchange, FixtureEvent, InitiatorStage, Progress, Reply, ResponderStage,
};
use crate::fixture::schedule;
use crate::fixture::schedule::{
    DIRECTED_PAIRS, NODE_IDS, PAIR_COUNT, PROGRAM_GUARD_US, RX_WINDOW_US, SLOT_US, SUPERFRAME_US,
    SYNC_GUARD_US,
};
use crate::uwb::calibration_packet::CalibrationPacket;
use crate::uwb::time;

verus! {

/// Where a node is within a slot.
#[derive(Clone, Copy, Debug, PartialEq, Eq, Structural)]
pub enum Stage {
    /// Asleep until shortly before the exchange.
    Asleep,
    Initiating(InitiatorStage),
    Responding(ResponderStage),
    /// Listening in on an exchange of the other two nodes.
    Observing { frames_seen: u8 },
    /// Past the last slot.
    Finished,
}

/// One node's progress through a superframe.
#[derive(Clone, Copy, Debug, PartialEq, Eq, Structural)]
pub struct Superframe {
    pub node: usize,
    pub tx_antenna_delay: u16,
    pub sequence: u16,
    /// Local radio timestamp of the `Sync`.
    pub base_ticks: u64,
    pub slot: usize,
    pub stage: Stage,
}

/// What a node does on a reply: it gives a diagnostic, passes on a report, and carries out a
/// command, in this order.
#[derive(Clone, Copy, Debug, PartialEq, Eq, Structural)]
pub struct Step {
    pub note: Option<FixtureEvent>,
    pub emit: Option<CalibrationPacket>,
    pub command: Command,
}

/// The two nodes of a slot's exchange.
pub open spec fn exchange_of(slot: int, sequence: u16) -> Exchange {
    let (initiator, responder) = DIRECTED_PAIRS@[slot];
    Exchange {
        initiator: NODE_IDS@[initiator as int],
        responder: NODE_IDS@[responder as int],
        sequence,
    }
}

/// Sleeping until a slot's exchange has to be programmed.
pub open spec fn sleep_until(slot: int) -> Command {
    Command::WaitUntilOffset {
        offset_us: (schedule::exchange_start(slot) - PROGRAM_GUARD_US) as u32,
    }
}

impl Superframe {
    /// The slot exists, and the `Sync`'s timestamp leaves room to schedule the whole superframe.
    pub open spec fn wf(self) -> bool {
        &&& self.stage is Finished || self.slot < PAIR_COUNT
        &&& self.base_ticks + time::ticks_of_us(SUPERFRAME_US as int) <= u64::MAX
        &&& self.stage matches Stage::Observing { frames_seen } ==> frames_seen < 4
    }

    /// Whether the node is waiting for such a reply.
    pub open spec fn awaits(self, reply: Reply) -> bool {
        match self.stage {
            Stage::Asleep => reply is Waited,
            Stage::Initiating(InitiatorStage::PollQueued { .. } | InitiatorStage::FinalQueued) => {
                reply is Sent
            },
            Stage::Initiating(_) => reply is Received,
            Stage::Responding(
                ResponderStage::ResponseQueued { .. } | ResponderStage::ReportQueued { .. },
            ) => reply is Sent,
            Stage::Responding(_) => reply is Received,
            Stage::Observing { .. } => reply is Received,
            Stage::Finished => false,
        }
    }

    /// Whether the timestamp a reply brings, where the node schedules from it, leaves room to.
    pub open spec fn can_schedule(self, reply: Reply) -> bool {
        match self.stage {
            Stage::Initiating(InitiatorStage::AwaitingResponse { .. }) => reply.timestamp_fits(),
            Stage::Responding(
                ResponderStage::AwaitingPoll | ResponderStage::AwaitingFinal { .. },
            ) => reply.timestamp_fits(),
            _ => true,
        }
    }

    /// A node that has just been synchronized.
    pub open spec fn started(
        node: usize,
        tx_antenna_delay: u16,
        sequence: u16,
        base_ticks: u64,
    ) -> Superframe {
        Superframe { node, tx_antenna_delay, sequence, base_ticks, slot: 0, stage: Stage::Asleep }
    }

    /// The exchange of the current slot.
    pub open spec fn current(self) -> Exchange {
        exchange_of(self.slot as int, self.sequence)
    }

    /// The exchange of the current slot is over: on to the next slot.
    pub open spec fn leave_slot(
        self,
        note: Option<FixtureEvent>,
        emit: Option<CalibrationPacket>,
    ) -> (Superframe, Step) {
        if self.slot + 1 < PAIR_COUNT {
            (
                Superframe { slot: (self.slot + 1) as usize, stage: Stage::Asleep, ..self },
                Step { note, emit, command: sleep_until(self.slot + 1) },
            )
        } else {
            (
                Superframe { slot: PAIR_COUNT, stage: Stage::Finished, ..self },
                Step { note, emit, command: Command::Done },
            )
        }
    }

    /// The current exchange goes on.
    pub open spec fn stay(self, stage: Stage, command: Command) -> (Superframe, Step) {
        (Superframe { stage, ..self }, Step { note: None, emit: None, command })
    }

    /// The current slot opens: the node takes its part in it.
    ///
    /// A node that is neither initiator nor responder skips the slot, except that the coordinator,
    /// node 0, listens in to forward the report.
    pub open spec fn enter_slot(self) -> (Superframe, Step) {
        let (initiator, responder) = DIRECTED_PAIRS@[self.slot as int];
        if self.node == initiator {
            let (stage, command) = self.current().opening(
                self.base_ticks,
                schedule::exchange_start(self.slot as int) as u32,
                self.tx_antenna_delay,
            );
            self.stay(Stage::Initiating(stage), command)
        } else if self.node == responder {
            self.stay(
                Stage::Responding(ResponderStage::AwaitingPoll),
                exchange::listen(),
            )
        } else if self.node == 0 {
            self.stay(Stage::Observing { frames_seen: 0 }, exchange::listen())
        } else {
            self.leave_slot(None, None)
        }
    }

    /// The node's state and actions after a reply.
    pub open spec fn after(self, reply: Reply) -> (Superframe, Step) {
        match self.stage {
            Stage::Asleep => self.enter_slot(),
            Stage::Initiating(stage) => match self.current().initiator_next(
                stage,
                reply,
                self.tx_antenna_delay,
            ) {
                Progress::Next { stage, command } => self.stay(
                    Stage::Initiating(stage),
                    command,
                ),
                Progress::Over { note, emit } => self.leave_slot(note, emit),
            },
            Stage::Responding(stage) => match self.current().responder_next(
                stage,
                reply,
                self.tx_antenna_delay,
            ) {
                Progress::Next { stage, command } => self.stay(
                    Stage::Responding(stage),
                    command,
                ),
                Progress::Over { note, emit } => self.leave_slot(note, emit),
            },
            Stage::Observing { frames_seen } => match self.current().observer_next(
                frames_seen,
                reply,
            ) {
                Progress::Next { stage, command } => self.stay(
                    Stage::Observing { frames_seen: stage },
                    command,
                ),
                Progress::Over { note, emit } => self.leave_slot(note, emit),
            },
            Stage::Finished => (self, Step { note: None, emit: None, command: Command::Done }),
        }
    }

    /// Goes on to the next slot.
    fn next_slot(&mut self, note: Option<FixtureEvent>, emit: Option<CalibrationPacket>) -> (step:
        Step)
        requires
            old(self).wf(),
            old(self).slot < PAIR_COUNT,
        ensures
            (*final(self), step) == old(self).leave_slot(note, emit),
            final(self).wf(),
    {
        let slot: usize = self.slot + 1;
        self.slot = slot;
        if slot < PAIR_COUNT {
            self.stage = Stage::Asleep;
            Step {
                note,
                emit,
                command: Command::WaitUntilOffset {
                    offset_us: slot_offset(slot).saturating_sub(PROGRAM_GUARD_US),
                },
            }
        } else {
            self.stage = Stage::Finished;
            Step { note, emit, command: Command::Done }
        }
    }

    /// Takes the node's part in the slot that opens.
    fn open_slot(&mut self) -> (step: Step)
        requires
            old(self).wf(),
            old(self).slot < PAIR_COUNT,
        ensures
            (*final(self), step) == old(self).enter_slot(),
            final(self).wf(),
    {
        let (initiator, responder) = DIRECTED_PAIRS[self.slot];
        if self.node == initiator {
            let offset: u32 = slot_offset(self.slot);
            let (stage, command) = exchange_at(self.slot, self.sequence).open(
                self.base_ticks,
                offset,
                self.tx_antenna_delay,
            );
            self.stage = Stage::Initiating(stage);
            Step { note: None, emit: None, command }
        } else if self.node == responder {
            self.stage = Stage::Responding(ResponderStage::AwaitingPoll);
            Step { note: None, emit: None, command: Command::Receive { timeout_us: RX_WINDOW_US } }
        } else if self.node == 0 {
            self.stage = Stage::Observing { frames_seen: 0 };
            Step { note: None, emit: None, command: Command::Receive { timeout_us: RX_WINDOW_US } }
        } else {
            self.next_slot(None, None)
        }
    }

    /// Takes the node one step further.
    pub fn step(&mut self, reply: Reply) -> (step: Step)
        requires
            old(self).wf(),
            old(self).awaits(reply),
            old(self).can_schedule(reply),
        ensures
            (*final(self), step) == old(self).after(reply),
            final(self).wf(),
    {
        match self.stage {
            Stage::Asleep => self.open_slot(),
            Stage::Initiating(stage) => {
                let exchange = exchange_at(self.slot, self.sequence);
                match exchange.initiate(stage, reply, self.tx_antenna_delay) {
                    Progress::Next { stage, command } => {
                        self.stage = Stage::Initiating(stage);
                        Step { note: None, emit: None, command }
                    },
                    Progress::Over { note, emit } => self.next_slot(note, emit),
                }
            },
            Stage::Responding(stage) => {
                let exchange = exchange_at(self.slot, self.sequence);
                match exchange.respond(stage, reply, self.tx_antenna_delay) {
                    Progress::Next { stage, command } => {
                        self.stage = Stage::Responding(stage);
                        Step { note: None, emit: None, command }
                    },
                    Progress::Over { note, emit } => self.next_slot(note, emit),
                }
            },
            Stage::Observing { frames_seen } => {
                let exchange = exchange_at(self.slot, self.sequence);
                match exchange.observe(frames_seen, reply) {
                    Progress::Next { stage, command } => {
                        self.stage = Stage::Observing { frames_seen: stage };
                        Step { note: None, emit: None, command }
                    },
                    Progress::Over { note, emit } => self.next_slot(note, emit),
                }
            },
            Stage::Finished => Step { note: None, emit: None, command: Command::Done },
        }
    }
}

/// Start of a slot's exchange, in microseconds after the `Sync`.
pub fn slot_offset(slot: usize) -> (offset_us: u32)
    requires
        slot < PAIR_COUNT,
    ensures
        offset_us == schedule::exchange_start(slot as int),
        offset_us < SUPERFRAME_US,
{
    SYNC_GUARD_US + slot as u32 * SLOT_US
}

/// The exchange of a slot.
pub fn exchange_at(slot: usize, sequence: u16) -> (exchange: Exchange)
    requires
        slot < PAIR_COUNT,
    ensures
        exchange == exchange_of(slot as int, sequence),
{
    proof {
        schedule::every_ordered_pair_once();
        assert(DIRECTED_PAIRS@.contains(DIRECTED_PAIRS@[slot as int]));
    }
    let (initiator, responder) = DIRECTED_PAIRS[slot];
    Exchange { initiator: NODE_IDS[initiator], responder: NODE_IDS[responder], sequence }
}

/// Starts a superframe once the node has been synchronized. A node that has not been sits it out.
pub fn run_superframe(
    node: usize,
    tx_antenna_delay: u16,
    synchronized: Option<(u16, u64)>,
) -> (started: Option<(Superframe, Step)>)
    requires
        synchronized matches Some((_, base_ticks)) ==> base_ticks + time::ticks_of_us(
            SUPERFRAME_US as int,
        ) <= u64::MAX,
    ensures
        started == (match synchronized {
            Some((sequence, base_ticks)) => Some(
                (
                    Superframe::started(node, tx_antenna_delay, sequence, base_ticks),
                    Step {
                        note: Some(FixtureEvent::Synchronized { sequence }),
                        emit: None,
                        command: sleep_until(0),
                    },
                ),
            ),
            None => None,
        }),
        started matches Some((superframe, _)) ==> superframe.wf(),
{
    match synchronized {
        Some((sequence, base_ticks)) => Some(
            (
                Superframe {
                    node,
                    tx_antenna_delay,
                    sequence,
                    base_ticks,
                    slot: 0,
                    stage: Stage::Asleep,
                },
                Step {
                    note: Some(FixtureEvent::Synchronized { sequence }),
                    emit: None,
                    command: Command::WaitUntilOffset {
                        offset_us: slot_offset(0).saturating_sub(PROGRAM_GUARD_US),
                    },
                },
            ),
        ),
        None => None,
    }
}

impl Superframe {
    /// Upper bound on the replies still to come.
    pub open spec fn remaining(self) -> int {
        let left = match self.stage {
            Stage::Asleep => 6,
            Stage::Initiating(InitiatorStage::PollQueued { .. }) => 4,
            Stage::Initiating(InitiatorStage::AwaitingResponse { .. }) => 3,
            Stage::Initiating(InitiatorStage::FinalQueued) => 2,
            Stage::Initiating(InitiatorStage::AwaitingReport) => 1,
            Stage::Responding(ResponderStage::AwaitingPoll) => 4,
            Stage::Responding(ResponderStage::ResponseQueued { .. }) => 3,
            Stage::Responding(ResponderStage::AwaitingFinal { .. }) => 2,
            Stage::Responding(ResponderStage::ReportQueued { .. }) => 1,
            Stage::Observing { frames_seen } => 4 - frames_seen,
            Stage::Finished => 0int,
        };
        if self.stage is Finished {
            0
        } else {
            6 * (PAIR_COUNT - 1 - self.slot) + left
        }
    }
}

/// A superframe always comes to an end: every reply takes the node closer to it, however the radio
/// behaves, and a node gives exactly the commands whose replies it then waits for.
pub proof fn superframe_terminates(superframe: Superframe, reply: Reply)
    requires
        superframe.wf(),
        superframe.awaits(reply),
    ensures
        ({
            let (next, step) = superframe.after(reply);
            &&& 0 <= next.remaining() < superframe.remaining() <= 36
            &&& next.wf()
            &&& forall|r: Reply| next.awaits(r) <==> r.answers(step.command)
            &&& next.stage is Finished <==> step.command is Done
        }),
{
}

/// Slots are taken in order, each exactly once: a step stays in its slot or moves to the next one,
/// and the identity of the superframe never changes.
pub proof fn slots_are_taken_in_order(superframe: Superframe, reply: Reply)
    requires
        superframe.wf(),
        superframe.awaits(reply),
    ensures
        ({
            let (next, _) = superframe.after(reply);
            &&& next.slot == superframe.slot || next.slot == superframe.slot + 1
            &&& next.slot == superframe.slot + 1 <==> next.stage is Asleep || next.stage is Finished
            &&& next.node == superframe.node
            &&& next.sequence == superframe.sequence
            &&& next.base_ticks == superframe.base_ticks
            &&& next.tx_antenna_delay == superframe.tx_antenna_delay
        }),
{
}

/// Whatever the radio reports, a report is only ever passed on in the slot of the exchange it
/// reports on, and in the superframe it was measured in.
pub proof fn reports_belong_to_their_slot(superframe: Superframe, reply: Reply)
    requires
        superframe.wf(),
        superframe.awaits(reply),
    ensures
        superframe.after(reply).1.emit matches Some(packet) ==> schedule::is_report_of(
            packet,
            superframe.current().initiator,
            superframe.current().responder,
            superframe.sequence,
        ) && superframe.after(reply).0.slot == superframe.slot + 1,
{
}

/// On waking up in a slot, its initiator programs the `Poll` for the start of that very slot,
/// counted from the `Sync`: `slot` times 18 ms after the first one, which starts after 6 ms. The
/// `Poll` names the slot's two nodes and the superframe.
pub proof fn polls_open_their_slot(superframe: Superframe, reply: Reply)
    requires
        superframe.wf(),
        superframe.stage is Asleep,
        superframe.node == DIRECTED_PAIRS@[superframe.slot as int].0,
    ensures
        ({
            let (next, step) = superframe.after(reply);
            let pair = DIRECTED_PAIRS@[superframe.slot as int];
            &&& step.command is Send
            &&& time::falls_due(
                step.command->at_ticks as int,
                superframe.base_ticks as int,
                6_000 + superframe.slot * 18_000,
            )
            &&& step.command->packet matches CalibrationPacket::Poll {
                initiator_id,
                responder_id,
                sequence,
                poll_tx,
            } && {
                &&& initiator_id == NODE_IDS@[pair.0 as int]
                &&& responder_id == NODE_IDS@[pair.1 as int]
                &&& sequence == superframe.sequence
                &&& poll_tx == (step.command->at_ticks + superframe.tx_antenna_delay)
                    % 0x100_0000_0000
                &&& next.stage == Stage::Initiating(InitiatorStage::PollQueued { poll_tx })
            }
            &&& next.slot == superframe.slot
        }),
{
    schedule::timetable(superframe.slot as int);
    time::delayed_instant_falls_due(
        superframe.base_ticks as int,
        6_000 + superframe.slot * 18_000,
        0,
    );
}

/// The `Poll`s of two slots are programmed as far apart as the slots are, to within the radio's
/// granularity and the rounding to whole ticks.
pub proof fn polls_are_slots_apart(earlier: Superframe, later: Superframe, reply: Reply)
    requires
        earlier.wf(),
        later.wf(),
        earlier.stage is Asleep,
        later.stage is Asleep,
        earlier.node == DIRECTED_PAIRS@[earlier.slot as int].0,
        later.node == DIRECTED_PAIRS@[later.slot as int].0,
        earlier.base_ticks == later.base_ticks,
        earlier.slot <= later.slot,
    ensures
        ({
            let a = earlier.after(reply).1.command;
            let b = later.after(reply).1.command;
            let gap = (later.slot - earlier.slot) * 1_150_156_800;
            a is Send && b is Send && (b->at_ticks - a->at_ticks - gap + 512) % 0x100_0000_0000
                <= 1_024
        }),
{
    polls_open_their_slot(earlier, reply);
    polls_open_their_slot(later, reply);
    let (i, j) = (earlier.slot as int, later.slot as int);
    let a = earlier.after(reply).1.command->at_ticks as int;
    let b = later.after(reply).1.command->at_ticks as int;
    let m = 0x100_0000_0000int;
    let base = earlier.base_ticks as int;
    let da = base + ((6_000 + i * 18_000) * 638_976 + 5) / 10;
    let db = base + ((6_000 + j * 18_000) * 638_976 + 5) / 10;
    let gap = (j - i) * 1_150_156_800;
    assert(db - da == gap);
    let (ra, rb) = ((da - a) % m, (db - b) % m);
    assert(0 <= ra < 512 && 0 <= rb < 512);
    vstd::arithmetic::div_mod::lemma_fundamental_div_mod(da - a, m);
    vstd::arithmetic::div_mod::lemma_fundamental_div_mod(db - b, m);
    let k = (da - a) / m - (db - b) / m;
    assert(b - a - gap + 512 == m * k + (ra - rb + 512)) by (nonlinear_arith)
        requires
            da - a == m * ((da - a) / m) + ra,
            db - b == m * ((db - b) / m) + rb,
            db - da == gap,
            k == (da - a) / m - (db - b) / m,
    ;
    vstd::arithmetic::div_mod::lemma_mod_multiples_vanish(k, ra - rb + 512, m);
}

/// In each slot the initiator transmits, the responder listens, the coordinator listens in on the
/// exchange of the other two, and any other node goes on to the next slot at once.
pub proof fn everyone_plays_their_part(superframe: Superframe, reply: Reply)
    requires
        superframe.wf(),
        superframe.stage is Asleep,
    ensures
        ({
            let (next, step) = superframe.after(reply);
            let (initiator, responder) = DIRECTED_PAIRS@[superframe.slot as int];
            let node = superframe.node;
            let listening = Command::Receive { timeout_us: 7_000 };
            &&& node == initiator ==> next.stage is Initiating && step.command is Send
            &&& node == responder ==> next.stage == Stage::Responding(ResponderStage::AwaitingPoll)
                && step.command == listening
            &&& node == 0 && node != initiator && node != responder ==> next.stage == (
            Stage::Observing { frames_seen: 0 }) && step.command == listening
            &&& node != 0 && node != initiator && node != responder ==> next.slot
                == superframe.slot + 1
            &&& step.note is None && step.emit is None
        }),
{
    schedule::every_ordered_pair_once();
    assert(DIRECTED_PAIRS@.contains(DIRECTED_PAIRS@[superframe.slot as int]));
}

/// A node wakes up two milliseconds before each exchange, whether it has taken part in the previous
/// one or not.
pub proof fn nodes_wake_up_in_time(superframe: Superframe, reply: Reply, slot: int)
    requires
        superframe.wf(),
        superframe.awaits(reply),
        0 <= slot < 6,
    ensures
        sleep_until(slot) == (Command::WaitUntilOffset {
            offset_us: (4_000 + slot * 18_000) as u32,
        }),
        superframe.after(reply).1.command matches Command::WaitUntilOffset { offset_us }
            ==> offset_us == 4_000 + superframe.after(reply).0.slot * 18_000,
        superframe.after(reply).0.stage is Asleep
            <==> superframe.after(reply).1.command is WaitUntilOffset,
{
    schedule::timetable(slot);
    schedule::timetable(superframe.slot + 1);
}

/// What an exchange makes known is passed on, diagnostic and report alike, and while it goes on
/// there is neither.
pub proof fn nothing_is_swallowed(superframe: Superframe, reply: Reply)
    requires
        superframe.wf(),
        superframe.awaits(reply),
    ensures
        ({
            let (next, step) = superframe.after(reply);
            let exchange = superframe.current();
            let delay = superframe.tx_antenna_delay;
            match superframe.stage {
                Stage::Initiating(stage) => match exchange.initiator_next(stage, reply, delay) {
                    Progress::Next { stage, command } => step == (Step {
                        note: None,
                        emit: None,
                        command,
                    }) && next.stage == Stage::Initiating(stage),
                    Progress::Over { note, emit } => step.note == note && step.emit == emit
                        && next.slot == superframe.slot + 1,
                },
                Stage::Responding(stage) => match exchange.responder_next(stage, reply, delay) {
                    Progress::Next { stage, command } => step == (Step {
                        note: None,
                        emit: None,
                        command,
                    }) && next.stage == Stage::Responding(stage),
                    Progress::Over { note, emit } => step.note == note && step.emit == emit
                        && next.slot == superframe.slot + 1,
                },
                Stage::Observing { frames_seen } => match exchange.observer_next(
                    frames_seen,
                    reply,
                ) {
                    Progress::Next { stage, command } => step == (Step {
                        note: None,
                        emit: None,
                        command,
                    }) && next.stage == (Stage::Observing { frames_seen: stage }),
                    Progress::Over { note, emit } => step.note == note && step.emit == emit
                        && next.slot == superframe.slot + 1,
                },
                _ => true,
            }
        }),
        superframe.current().initiator == NODE_IDS@[DIRECTED_PAIRS@[superframe.slot as int].0
            as int],
        superframe.current().responder == NODE_IDS@[DIRECTED_PAIRS@[superframe.slot as int].1
            as int],
        superframe.current().sequence == superframe.sequence,
{
}

/// A superframe starts asleep before its first slot, as the node and on the time base it is given.
pub proof fn superframes_start_at_their_first_slot(
    node: usize,
    tx_antenna_delay: u16,
    sequence: u16,
    base_ticks: u64,
)
    ensures
        ({
            let started = Superframe::started(node, tx_antenna_delay, sequence, base_ticks);
            &&& started.slot == 0 && started.stage is Asleep
            &&& started.node == node && started.tx_antenna_delay == tx_antenna_delay
            &&& started.sequence == sequence && started.base_ticks == base_ticks
        }),
{
}

} // verus!
