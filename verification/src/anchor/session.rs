//! An anchor's superframe loop.
//!
//! Anchor 0 is the timing master and broadcasts a `Sync` once per superframe; every other anchor
//! waits for it. Then, slot by slot, an anchor waits for the robot's `Poll` and answers it with a
//! `Response` in its own sub-slot. The anchor never learns a distance: it contributes the two
//! timestamps only it can measure.
//!
//! Radio operations and timers take place outside: the session says what to do by a `Command`, and
//! is told what came of it by a `Reply`. A radio that cannot be used any more ends the session; its
//! counters go on in the next one.

use vstd::prelude::*;

use crate::uwb::bytes;
use crate::uwb::packet::Packet;
use crate::uwb::schedule;
use crate::uwb::schedule::{
    response_offset, response_subslot, robot_slot, ACTIVE_ANCHOR_COUNT, ACTIVE_TAG_COUNT,
    ANCHOR_IDS, MASTER_ANCHOR_ID, MAX_FRAME_AIRTIME_US, RX_TIMEOUT_US, SUPERFRAME_US,
    SYNC_SCHEDULE_GUARD_US, TAG_IDS,
};
use crate::uwb::time;
use crate::uwb::time::{delayed_after, delayed_tx_timestamp, elapsed};

verus! {

/// How early the receiver is armed before a robot slot opens.
///
/// Absorbs the offset between the microcontroller's clock, which schedules the arming, and the
/// radio's, which the slot is defined in.
pub const POLL_ARM_GUARD_US: u32 = 1_500;

/// How long the receiver stays armed for a `Poll`: early or late by the arming guard.
pub const POLL_WINDOW_US: u32 = POLL_ARM_GUARD_US + MAX_FRAME_AIRTIME_US + POLL_ARM_GUARD_US;

/// How long to wait for a `Sync` to be confirmed: the whole delay plus the transmit-done margin.
pub const SYNC_WAIT_US: u32 = SYNC_SCHEDULE_GUARD_US + SUPERFRAME_US;

/// How often the counters are reported.
pub const REPORT_EVERY_SUPERFRAMES: u32 = 100;

/// Counters for one reporting window.
#[derive(Clone, Copy, Debug, PartialEq, Eq)]
pub struct Stats {
    pub superframes: u32,
    pub missed_sync: u32,
    pub sync_tx_failed: u32,
    pub polls_seen: u32,
    pub responses_sent: u32,
    /// Delayed sends that never fired, by the sub-slot they were scheduled in: the distribution is
    /// the diagnostic, not the total.
    pub response_tx_failed: [u32; ACTIVE_ANCHOR_COUNT],
    /// Worst turnaround from the reception of a `Poll`, in microseconds of radio time.
    pub max_response_setup_us: u32,
}

/// The counters as mathematical values.
#[verifier::ext_equal]
pub struct Counters {
    pub superframes: int,
    pub missed_sync: int,
    pub sync_tx_failed: int,
    pub polls_seen: int,
    pub responses_sent: int,
    pub response_tx_failed: Seq<u32>,
    pub max_response_setup_us: int,
}

impl Counters {
    /// Counters that have counted nothing.
    pub open spec fn zero() -> Counters {
        Counters {
            superframes: 0,
            missed_sync: 0,
            sync_tx_failed: 0,
            polls_seen: 0,
            responses_sent: 0,
            response_tx_failed: seq![0u32, 0, 0, 0],
            max_response_setup_us: 0,
        }
    }

    /// No counter is about to overflow.
    pub open spec fn room(self) -> bool {
        &&& self.superframes < u32::MAX
        &&& self.missed_sync < u32::MAX
        &&& self.sync_tx_failed < u32::MAX
        &&& self.polls_seen < u32::MAX
        &&& self.responses_sent < u32::MAX
        &&& forall|i: int| 0 <= i < ACTIVE_ANCHOR_COUNT ==> self.response_tx_failed[i] < u32::MAX
    }
}

impl View for Stats {
    type V = Counters;

    open spec fn view(&self) -> Counters {
        Counters {
            superframes: self.superframes as int,
            missed_sync: self.missed_sync as int,
            sync_tx_failed: self.sync_tx_failed as int,
            polls_seen: self.polls_seen as int,
            responses_sent: self.responses_sent as int,
            response_tx_failed: self.response_tx_failed@,
            max_response_setup_us: self.max_response_setup_us as int,
        }
    }
}

impl Stats {
    /// Counters that have counted nothing.
    pub fn new() -> (stats: Stats)
        ensures
            stats@ == Counters::zero(),
    {
        let response_tx_failed: [u32; 4] = [0, 0, 0, 0];
        assert(response_tx_failed@ =~= seq![0u32, 0, 0, 0]);
        Stats {
            superframes: 0,
            missed_sync: 0,
            sync_tx_failed: 0,
            polls_seen: 0,
            responses_sent: 0,
            response_tx_failed,
            max_response_setup_us: 0,
        }
    }

    /// Whether no counter is about to overflow.
    pub fn has_room(&self) -> (room: bool)
        ensures
            room == self@.room(),
    {
        assert(self@.response_tx_failed[0] == self.response_tx_failed[0]);
        assert(self@.response_tx_failed[1] == self.response_tx_failed[1]);
        assert(self@.response_tx_failed[2] == self.response_tx_failed[2]);
        assert(self@.response_tx_failed[3] == self.response_tx_failed[3]);
        self.superframes < u32::MAX && self.missed_sync < u32::MAX && self.sync_tx_failed
            < u32::MAX && self.polls_seen < u32::MAX && self.responses_sent < u32::MAX
            && self.response_tx_failed[0] < u32::MAX && self.response_tx_failed[1] < u32::MAX
            && self.response_tx_failed[2] < u32::MAX && self.response_tx_failed[3] < u32::MAX
    }
}

/// What an anchor has to do next.
#[derive(Clone, Copy, Debug, PartialEq, Eq, Structural)]
pub enum Command {
    /// Read the radio's current time.
    ReadClock,
    /// Transmit at the given radio instant, and wait for the confirmation no longer than given.
    Send { packet: Packet, at_ticks: u64, wait_us: u32 },
    /// Listen for one frame.
    Receive { timeout_us: u32 },
    /// Sleep until this many microseconds after the `Sync` was seen.
    WaitUntil { after_sync_us: u32 },
    /// Measure the radio time elapsed since a timestamp.
    MeasureSince { ticks: u64 },
}

/// What came of a command.
#[derive(Clone, Copy, Debug, PartialEq, Eq)]
pub enum Reply {
    /// The radio's time in ticks, or `None` if it could not be read.
    Clock(Option<u64>),
    /// The transmit timestamp, or `None` if the transmission was not confirmed.
    Sent(Option<u64>),
    /// The frame and its receive timestamp, or `None` if none arrived in time.
    Received(Option<(Packet, u64)>),
    /// The wait is over.
    Waited,
    /// Microseconds elapsed, or `None` if they could not be measured.
    Elapsed(Option<u32>),
}

impl Reply {
    /// Whether this can be the outcome of `command`.
    pub open spec fn answers(self, command: Command) -> bool {
        match command {
            Command::ReadClock => self is Clock,
            Command::Send { .. } => self is Sent,
            Command::Receive { .. } => self is Received,
            Command::WaitUntil { .. } => self is Waited,
            Command::MeasureSince { .. } => self is Elapsed,
        }
    }
}

/// A superframe's time base on the radio's clock.
#[derive(Clone, Copy, Debug, PartialEq, Eq, Structural)]
pub struct TimeBase {
    /// The `Sync` epoch: the master's own transmit timestamp, or a slave's receive timestamp.
    pub base_ticks: u64,
    /// Zero on the master, elsewhere `base_ticks` minus the master's transmit timestamp.
    pub master_offset: u64,
}

/// Where an anchor is in its superframe.
#[derive(Clone, Copy, Debug, PartialEq, Eq, Structural)]
pub enum Phase {
    /// Master without a grid: the radio's time is being read.
    ReadingClock,
    /// Master: a `Sync` has been programmed.
    SyncQueued { scheduled: u64 },
    /// Slave: listening for the `Sync`.
    AwaitingSync,
    /// Asleep until shortly before a robot's slot.
    Asleep { tag_index: usize, base: TimeBase },
    /// Listening for a robot's `Poll`.
    AwaitingPoll { tag_index: usize, base: TimeBase },
    /// A `Poll` has arrived: the turnaround is being measured.
    Measuring { tag_index: usize, base: TimeBase, poll_rx: u64 },
    /// A `Response` has been programmed.
    ResponseQueued { tag_index: usize, base: TimeBase },
}

/// Where an anchor is, apart from its counters.
#[derive(Clone, Copy, Debug, PartialEq, Eq, Structural)]
pub struct Position {
    pub anchor_index: usize,
    pub tx_antenna_delay: u16,
    pub sequence: u16,
    /// Master only: the instant the next `Sync` is programmed for, once there is a grid.
    pub next_sync_ticks: Option<u64>,
    pub phase: Phase,
}

/// One anchor's run of superframes on one bring-up of its radio.
#[derive(Clone, Copy, Debug, PartialEq, Eq)]
pub struct Session {
    pub position: Position,
    pub stats: Stats,
}

/// What an anchor does on a reply.
#[derive(Clone, Copy, Debug, PartialEq, Eq)]
pub struct Step {
    /// The counters of a reporting window that has ended.
    pub report: Option<Stats>,
    pub command: Command,
}

/// What a reply leads to.
#[verifier::ext_equal]
pub struct Outcome {
    pub position: Position,
    pub counters: Counters,
    pub report: Option<Counters>,
    pub command: Command,
}

/// Whether the radio can transmit at an instant: within its 40-bit counter, and with the nine low
/// bits that it ignores clear.
pub open spec fn is_programmable(ticks: u64) -> bool {
    ticks < bytes::TIME_MODULUS && ticks % 512 == 0
}

/// The counters a step reports.
pub open spec fn reported(report: Option<Stats>) -> Option<Counters> {
    match report {
        Some(stats) => Some(stats@),
        None => None,
    }
}

impl Position {
    /// Whether this anchor is the timing master.
    pub open spec fn is_master(self) -> bool {
        ANCHOR_IDS@[self.anchor_index as int] == MASTER_ANCHOR_ID
    }

    /// The anchor exists, and every instant it holds leaves room to schedule from it.
    pub open spec fn wf(self) -> bool {
        &&& self.anchor_index < ACTIVE_ANCHOR_COUNT
        &&& self.next_sync_ticks matches Some(ticks) ==> is_programmable(ticks)
        &&& match self.phase {
            Phase::ReadingClock => true,
            Phase::SyncQueued { scheduled } => is_programmable(scheduled),
            Phase::AwaitingSync => true,
            Phase::Asleep { tag_index, base } => tag_index < ACTIVE_TAG_COUNT && base.fits(),
            Phase::AwaitingPoll { tag_index, base } => tag_index < ACTIVE_TAG_COUNT && base.fits(),
            Phase::Measuring { tag_index, base, .. } => tag_index < ACTIVE_TAG_COUNT
                && base.fits(),
            Phase::ResponseQueued { tag_index, base } => tag_index < ACTIVE_TAG_COUNT
                && base.fits(),
        }
    }

    /// Whether the anchor is waiting for such a reply.
    pub open spec fn awaits(self, reply: Reply) -> bool {
        match self.phase {
            Phase::ReadingClock => reply is Clock,
            Phase::SyncQueued { .. } => reply is Sent,
            Phase::AwaitingSync => reply is Received,
            Phase::Asleep { .. } => reply is Waited,
            Phase::AwaitingPoll { .. } => reply is Received,
            Phase::Measuring { .. } => reply is Elapsed,
            Phase::ResponseQueued { .. } => reply is Sent,
        }
    }

    /// Whether the timestamp a reply brings, where the anchor schedules from it, leaves room to.
    pub open spec fn can_schedule(self, reply: Reply) -> bool {
        match (self.phase, reply) {
            (Phase::ReadingClock, Reply::Clock(Some(now))) => now + time::ticks_of_us(
                SYNC_SCHEDULE_GUARD_US as int,
            ) <= u64::MAX,
            (Phase::SyncQueued { .. }, Reply::Sent(Some(ticks))) => ticks_fit(ticks),
            (Phase::AwaitingSync, Reply::Received(Some((Packet::Sync { .. }, ticks)))) => {
                ticks_fit(ticks)
            },
            _ => true,
        }
    }

    /// An anchor whose radio has just been brought up.
    pub open spec fn fresh(anchor_index: usize, tx_antenna_delay: u16) -> Position {
        Position {
            anchor_index,
            tx_antenna_delay,
            sequence: 0,
            next_sync_ticks: None,
            phase: Phase::AwaitingSync,
        }
    }

    /// Going on in the same superframe, or starting a new one, without anything to report.
    pub open spec fn goes_on(self, phase: Phase, command: Command, counters: Counters) -> Outcome {
        Outcome { position: Position { phase, ..self }, counters, report: None, command }
    }

    /// The master programs a `Sync`, which carries its own predicted transmit timestamp.
    pub open spec fn sync_at(self, scheduled: u64, counters: Counters) -> Outcome {
        self.goes_on(
            Phase::SyncQueued { scheduled },
            Command::Send {
                packet: Packet::Sync {
                    sequence: self.sequence,
                    sync_tx: time::stamped(scheduled as int, self.tx_antenna_delay),
                },
                at_ticks: scheduled,
                wait_us: SYNC_WAIT_US,
            },
            counters,
        )
    }

    /// A superframe begins: the master programs its `Sync`, where it has a grid on the grid, and a
    /// slave listens for one.
    pub open spec fn next_superframe(self, counters: Counters) -> Outcome {
        let counters = Counters { superframes: counters.superframes + 1, ..counters };
        if self.is_master() {
            match self.next_sync_ticks {
                Some(ticks) => self.sync_at(ticks, counters),
                None => self.goes_on(Phase::ReadingClock, Command::ReadClock, counters),
            }
        } else {
            self.goes_on(
                Phase::AwaitingSync,
                Command::Receive { timeout_us: SUPERFRAME_US },
                counters,
            )
        }
    }

    /// A `Sync` could not be sent: the grid is given up.
    pub open spec fn sync_failed(self, counters: Counters) -> Outcome {
        (Position { next_sync_ticks: None, ..self }).next_superframe(
            Counters { sync_tx_failed: counters.sync_tx_failed + 1, ..counters },
        )
    }

    /// The anchor sleeps until shortly before a robot's slot.
    pub open spec fn sleep(self, tag_index: usize, base: TimeBase, counters: Counters) -> Outcome {
        self.goes_on(
            Phase::Asleep { tag_index, base },
            Command::WaitUntil {
                after_sync_us: (schedule::slot_start(tag_index as int) - POLL_ARM_GUARD_US) as u32,
            },
            counters,
        )
    }

    /// A robot's slot is over: on to the next one, or to the next superframe, every hundredth time
    /// with a report of the counters, which then start over.
    pub open spec fn next_slot(
        self,
        tag_index: usize,
        base: TimeBase,
        counters: Counters,
    ) -> Outcome {
        if tag_index + 1 < ACTIVE_TAG_COUNT {
            self.sleep((tag_index + 1) as usize, base, counters)
        } else {
            let advanced = Position {
                sequence: ((self.sequence + 1) % 0x1_0000) as u16,
                ..self
            };
            if counters.superframes >= REPORT_EVERY_SUPERFRAMES {
                Outcome {
                    report: Some(counters),
                    ..advanced.next_superframe(Counters::zero())
                }
            } else {
                advanced.next_superframe(counters)
            }
        }
    }

    /// The instant at which this anchor answers a robot in the current superframe. It follows from
    /// the schedule alone, not from when the `Poll` arrived.
    pub open spec fn response_instant(self, tag_index: usize, base: TimeBase) -> int {
        time::delayed_instant(
            base.base_ticks as int,
            schedule::slot_start(tag_index as int) + schedule::response_start(
                self.anchor_index as int,
                self.sequence as int,
            ),
        )
    }

    /// What a reply leads to.
    pub open spec fn after(self, counters: Counters, reply: Reply) -> Outcome {
        match self.phase {
            Phase::ReadingClock => match reply {
                Reply::Clock(Some(now)) => self.sync_at(
                    time::delayed_instant(now as int, SYNC_SCHEDULE_GUARD_US as int) as u64,
                    counters,
                ),
                _ => self.sync_failed(counters),
            },
            Phase::SyncQueued { scheduled } => match reply {
                // The next Sync is chained off the programmed instant: chaining off the reported
                // one would walk the grid forward by one antenna delay per superframe.
                Reply::Sent(Some(actual)) => (Position {
                    next_sync_ticks: Some(
                        time::delayed_instant(scheduled as int, SUPERFRAME_US as int) as u64,
                    ),
                    ..self
                }).sleep(0, TimeBase { base_ticks: actual, master_offset: 0 }, counters),
                _ => self.sync_failed(counters),
            },
            Phase::AwaitingSync => match reply {
                // Whatever sequence the master broadcast is adopted: it also drives the sub-slot
                // rotation, so disagreeing about it would put two anchors in the same sub-slot.
                Reply::Received(Some((Packet::Sync { sequence, sync_tx }, rx_ticks))) => (Position {
                    sequence,
                    ..self
                }).sleep(
                    0,
                    TimeBase {
                        base_ticks: rx_ticks,
                        master_offset: time::ticks_between(
                            rx_ticks as int,
                            sync_tx as int,
                        ) as u64,
                    },
                    counters,
                ),
                _ => self.next_superframe(
                    Counters { missed_sync: counters.missed_sync + 1, ..counters },
                ),
            },
            Phase::Asleep { tag_index, base } => self.goes_on(
                Phase::AwaitingPoll { tag_index, base },
                Command::Receive { timeout_us: POLL_WINDOW_US },
                counters,
            ),
            Phase::AwaitingPoll { tag_index, base } => match reply {
                Reply::Received(Some((Packet::Poll { tag_id, sequence, .. }, poll_rx))) if tag_id
                    == TAG_IDS@[tag_index as int] && sequence == self.sequence => self.goes_on(
                    Phase::Measuring { tag_index, base, poll_rx },
                    Command::MeasureSince { ticks: poll_rx },
                    Counters { polls_seen: counters.polls_seen + 1, ..counters },
                ),
                _ => self.next_slot(tag_index, base, counters),
            },
            Phase::Measuring { tag_index, base, poll_rx } => {
                let at = self.response_instant(tag_index, base);
                self.goes_on(
                    Phase::ResponseQueued { tag_index, base },
                    Command::Send {
                        packet: Packet::Response {
                            anchor_id: ANCHOR_IDS@[self.anchor_index as int],
                            tag_id: TAG_IDS@[tag_index as int],
                            sequence: self.sequence,
                            poll_rx,
                            response_tx: time::stamped(at, self.tx_antenna_delay),
                            master_offset: base.master_offset,
                        },
                        at_ticks: at as u64,
                        wait_us: (schedule::response_start(
                            self.anchor_index as int,
                            self.sequence as int,
                        ) + RX_TIMEOUT_US) as u32,
                    },
                    match reply {
                        Reply::Elapsed(Some(us)) if us > counters.max_response_setup_us => {
                            Counters { max_response_setup_us: us as int, ..counters }
                        },
                        _ => counters,
                    },
                )
            },
            Phase::ResponseQueued { tag_index, base } => {
                let subslot = schedule::subslot(self.anchor_index as int, self.sequence as int);
                self.next_slot(
                    tag_index,
                    base,
                    if reply matches Reply::Sent(Some(_)) {
                        Counters { responses_sent: counters.responses_sent + 1, ..counters }
                    } else {
                        Counters {
                            response_tx_failed: counters.response_tx_failed.update(
                                subslot,
                                (counters.response_tx_failed[subslot] + 1) as u32,
                            ),
                            ..counters
                        }
                    },
                )
            },
        }
    }
}

/// An epoch leaves room to schedule a whole superframe from it.
pub open spec fn ticks_fit(ticks: u64) -> bool {
    ticks + time::ticks_of_us(SUPERFRAME_US as int) <= u64::MAX
}

impl TimeBase {
    /// The epoch leaves room to schedule a whole superframe from it.
    pub open spec fn fits(self) -> bool {
        ticks_fit(self.base_ticks)
    }
}

impl Session {
    /// Whether a step has led where the schedule says it should.
    pub open spec fn took(before: Session, reply: Reply, after: Session, step: Step) -> bool {
        let outcome = before.position.after(before.stats@, reply);
        &&& after.position == outcome.position
        &&& after.stats@ == outcome.counters
        &&& reported(step.report) == outcome.report
        &&& step.command == outcome.command
    }

    /// Starts a session once the radio has been brought up, going on with the counters of the
    /// previous one.
    pub fn run(anchor_index: usize, tx_antenna_delay: u16, stats: Stats) -> (first: (Session, Step))
        requires
            anchor_index < ACTIVE_ANCHOR_COUNT,
            stats@.room(),
        ensures
            ({
                let outcome = Position::fresh(anchor_index, tx_antenna_delay).next_superframe(
                    stats@,
                );
                &&& first.0.position == outcome.position
                &&& first.0.stats@ == outcome.counters
                &&& first.1.report is None
                &&& first.1.command == outcome.command
                &&& first.0.position.wf()
            }),
    {
        let mut session = Session {
            position: Position {
                anchor_index,
                tx_antenna_delay,
                sequence: 0,
                next_sync_ticks: None,
                phase: Phase::AwaitingSync,
            },
            stats,
        };
        let command = session.begin_superframe();
        (session, Step { report: None, command })
    }

    /// Begins a superframe.
    fn begin_superframe(&mut self) -> (command: Command)
        requires
            old(self).position.wf(),
            old(self).stats.superframes < u32::MAX,
        ensures
            ({
                let outcome = old(self).position.next_superframe(old(self).stats@);
                &&& final(self).position == outcome.position
                &&& final(self).stats@ == outcome.counters
                &&& command == outcome.command
                &&& outcome.report is None
            }),
            final(self).position.wf(),
    {
        self.stats.superframes = self.stats.superframes + 1;
        if ANCHOR_IDS[self.position.anchor_index] == MASTER_ANCHOR_ID {
            match self.position.next_sync_ticks {
                Some(ticks) => self.transmit_sync(ticks),
                None => {
                    self.position.phase = Phase::ReadingClock;
                    Command::ReadClock
                },
            }
        } else {
            self.position.phase = Phase::AwaitingSync;
            Command::Receive { timeout_us: SUPERFRAME_US }
        }
    }

    /// Programs the master's `Sync`.
    fn transmit_sync(&mut self, scheduled: u64) -> (command: Command)
        requires
            old(self).position.wf(),
            is_programmable(scheduled),
        ensures
            ({
                let outcome = old(self).position.sync_at(scheduled, old(self).stats@);
                &&& final(self).position == outcome.position
                &&& final(self).stats@ == outcome.counters
                &&& command == outcome.command
            }),
            final(self).position.wf(),
    {
        let sync_tx: u64 = delayed_tx_timestamp(scheduled, self.position.tx_antenna_delay);
        self.position.phase = Phase::SyncQueued { scheduled };
        Command::Send {
            packet: Packet::Sync { sequence: self.position.sequence, sync_tx },
            at_ticks: scheduled,
            wait_us: SYNC_WAIT_US,
        }
    }

    /// Gives up the grid after a `Sync` that could not be sent.
    fn abandon_sync(&mut self) -> (command: Command)
        requires
            old(self).position.wf(),
            old(self).stats@.room(),
        ensures
            ({
                let outcome = old(self).position.sync_failed(old(self).stats@);
                &&& final(self).position == outcome.position
                &&& final(self).stats@ == outcome.counters
                &&& command == outcome.command
                &&& outcome.report is None
            }),
            final(self).position.wf(),
    {
        self.stats.sync_tx_failed = self.stats.sync_tx_failed + 1;
        self.position.next_sync_ticks = None;
        self.begin_superframe()
    }

    /// Sleeps until shortly before a robot's slot.
    fn sleep_until_slot(&mut self, tag_index: usize, base: TimeBase) -> (command: Command)
        requires
            old(self).position.wf(),
            tag_index < ACTIVE_TAG_COUNT,
            base.fits(),
        ensures
            ({
                let outcome = old(self).position.sleep(tag_index, base, old(self).stats@);
                &&& final(self).position == outcome.position
                &&& final(self).stats@ == outcome.counters
                &&& command == outcome.command
                &&& outcome.report is None
            }),
            final(self).position.wf(),
    {
        proof {
            schedule::slots_tile_the_superframe(tag_index as int);
        }
        self.position.phase = Phase::Asleep { tag_index, base };
        Command::WaitUntil {
            after_sync_us: robot_slot(tag_index).saturating_sub(POLL_ARM_GUARD_US),
        }
    }

    /// Goes on to the next robot's slot, or to the next superframe.
    fn leave_slot(&mut self, tag_index: usize, base: TimeBase) -> (step: Step)
        requires
            old(self).position.wf(),
            old(self).stats.superframes < u32::MAX,
            tag_index < ACTIVE_TAG_COUNT,
            base.fits(),
        ensures
            ({
                let outcome = old(self).position.next_slot(tag_index, base, old(self).stats@);
                &&& final(self).position == outcome.position
                &&& final(self).stats@ == outcome.counters
                &&& reported(step.report) == outcome.report
                &&& step.command == outcome.command
            }),
            final(self).position.wf(),
    {
        if tag_index + 1 < ACTIVE_TAG_COUNT {
            let command = self.sleep_until_slot(tag_index + 1, base);
            return Step { report: None, command };
        }
        self.position.sequence = self.position.sequence.wrapping_add(1);
        if self.stats.superframes >= REPORT_EVERY_SUPERFRAMES {
            let report = Some(self.stats);
            self.stats = Stats::new();
            let command = self.begin_superframe();
            Step { report, command }
        } else {
            let command = self.begin_superframe();
            Step { report: None, command }
        }
    }

    /// The master's `Sync` has been programmed: on confirmation the grid is carried forward from
    /// the programmed instant.
    fn confirm_sync(&mut self, scheduled: u64, sent: Option<u64>) -> (command: Command)
        requires
            old(self).position.wf(),
            old(self).position.phase == (Phase::SyncQueued { scheduled }),
            old(self).stats@.room(),
            old(self).position.can_schedule(Reply::Sent(sent)),
        ensures
            ({
                let outcome = old(self).position.after(old(self).stats@, Reply::Sent(sent));
                &&& final(self).position == outcome.position
                &&& final(self).stats@ == outcome.counters
                &&& command == outcome.command
                &&& outcome.report is None
            }),
            final(self).position.wf(),
    {
        match sent {
            Some(actual) => {
                self.position.next_sync_ticks = Some(delayed_after(scheduled, SUPERFRAME_US));
                self.sleep_until_slot(0, TimeBase { base_ticks: actual, master_offset: 0 })
            },
            None => self.abandon_sync(),
        }
    }

    /// A slave has listened for a `Sync`.
    fn await_sync(&mut self, received: Option<(Packet, u64)>) -> (command: Command)
        requires
            old(self).position.wf(),
            old(self).position.phase is AwaitingSync,
            old(self).stats@.room(),
            old(self).position.can_schedule(Reply::Received(received)),
        ensures
            ({
                let outcome = old(self).position.after(old(self).stats@, Reply::Received(received));
                &&& final(self).position == outcome.position
                &&& final(self).stats@ == outcome.counters
                &&& command == outcome.command
                &&& outcome.report is None
            }),
            final(self).position.wf(),
    {
        if let Some((Packet::Sync { sequence, sync_tx }, rx_ticks)) = received {
            self.position.sequence = sequence;
            return self.sleep_until_slot(
                0,
                TimeBase { base_ticks: rx_ticks, master_offset: elapsed(rx_ticks, sync_tx) },
            );
        }
        self.stats.missed_sync = self.stats.missed_sync + 1;
        self.begin_superframe()
    }

    /// An anchor has listened for the `Poll` of a robot's slot.
    fn await_poll(
        &mut self,
        tag_index: usize,
        base: TimeBase,
        received: Option<(Packet, u64)>,
    ) -> (step: Step)
        requires
            old(self).position.wf(),
            old(self).position.phase == (Phase::AwaitingPoll { tag_index, base }),
            old(self).stats@.room(),
        ensures
            Session::took(*old(self), Reply::Received(received), *final(self), step),
            final(self).position.wf(),
    {
        if let Some((Packet::Poll { tag_id, sequence, .. }, poll_rx)) = received {
            if tag_id == TAG_IDS[tag_index] && sequence == self.position.sequence {
                self.stats.polls_seen = self.stats.polls_seen + 1;
                self.position.phase = Phase::Measuring { tag_index, base, poll_rx };
                return Step { report: None, command: Command::MeasureSince { ticks: poll_rx } };
            }
        }
        self.leave_slot(tag_index, base)
    }

    /// Answers a `Poll`: schedules the `Response` into this anchor's sub-slot.
    fn answer(
        &mut self,
        tag_index: usize,
        base: TimeBase,
        poll_rx: u64,
        elapsed_us: Option<u32>,
    ) -> (command: Command)
        requires
            old(self).position.wf(),
            old(self).position.phase == (Phase::Measuring { tag_index, base, poll_rx }),
        ensures
            ({
                let outcome = old(self).position.after(
                    old(self).stats@,
                    Reply::Elapsed(elapsed_us),
                );
                &&& final(self).position == outcome.position
                &&& final(self).stats@ == outcome.counters
                &&& command == outcome.command
                &&& outcome.report is None
            }),
            final(self).position.wf(),
    {
        let anchor_index: usize = self.position.anchor_index;
        let sequence: u16 = self.position.sequence;
        proof {
            schedule::slots_tile_the_superframe(tag_index as int);
            schedule::responses_fit_the_slot(anchor_index as int, sequence as int);
        }
        let slot_start_us: u32 = robot_slot(tag_index);
        let subslot_offset_us: u32 = response_offset(anchor_index, sequence);
        let scheduled: u64 = delayed_after(base.base_ticks, slot_start_us + subslot_offset_us);
        if let Some(us) = elapsed_us {
            if us > self.stats.max_response_setup_us {
                self.stats.max_response_setup_us = us;
            }
        }
        self.position.phase = Phase::ResponseQueued { tag_index, base };
        Command::Send {
            packet: Packet::Response {
                anchor_id: ANCHOR_IDS[anchor_index],
                tag_id: TAG_IDS[tag_index],
                sequence,
                poll_rx,
                response_tx: delayed_tx_timestamp(scheduled, self.position.tx_antenna_delay),
                master_offset: base.master_offset,
            },
            at_ticks: scheduled,
            wait_us: subslot_offset_us + RX_TIMEOUT_US,
        }
    }

    /// A `Response` has been sent, or has missed its instant.
    fn conclude_slot(&mut self, tag_index: usize, base: TimeBase, sent: Option<u64>) -> (step: Step)
        requires
            old(self).position.wf(),
            old(self).position.phase == (Phase::ResponseQueued { tag_index, base }),
            old(self).stats@.room(),
        ensures
            Session::took(*old(self), Reply::Sent(sent), *final(self), step),
            final(self).position.wf(),
    {
        let subslot: usize = response_subslot(self.position.anchor_index, self.position.sequence);
        match sent {
            Some(_) => {
                self.stats.responses_sent = self.stats.responses_sent + 1;
            },
            None => {
                let failed: u32 = self.stats.response_tx_failed[subslot];
                assert(old(self).stats@.response_tx_failed[subslot as int] == failed);
                self.stats.response_tx_failed[subslot] = failed + 1;
            },
        }
        self.leave_slot(tag_index, base)
    }

    /// Takes the anchor one step further.
    pub fn step(&mut self, reply: Reply) -> (step: Step)
        requires
            old(self).position.wf(),
            old(self).position.awaits(reply),
            old(self).stats@.room(),
            old(self).position.can_schedule(reply),
        ensures
            Session::took(*old(self), reply, *final(self), step),
            final(self).position.wf(),
    {
        match (self.position.phase, reply) {
            (Phase::ReadingClock, Reply::Clock(now)) => {
                let command = match now {
                    Some(now) => self.transmit_sync(delayed_after(now, SYNC_SCHEDULE_GUARD_US)),
                    None => self.abandon_sync(),
                };
                Step { report: None, command }
            },
            (Phase::SyncQueued { scheduled }, Reply::Sent(sent)) => {
                let command = self.confirm_sync(scheduled, sent);
                Step { report: None, command }
            },
            (Phase::AwaitingSync, Reply::Received(received)) => {
                let command = self.await_sync(received);
                Step { report: None, command }
            },
            (Phase::Asleep { tag_index, base }, _) => {
                self.position.phase = Phase::AwaitingPoll { tag_index, base };
                Step { report: None, command: Command::Receive { timeout_us: POLL_WINDOW_US } }
            },
            (Phase::AwaitingPoll { tag_index, base }, Reply::Received(received)) => {
                self.await_poll(tag_index, base, received)
            },
            (Phase::Measuring { tag_index, base, poll_rx }, Reply::Elapsed(elapsed_us)) => {
                let command = self.answer(tag_index, base, poll_rx, elapsed_us);
                Step { report: None, command }
            },
            (Phase::ResponseQueued { tag_index, base }, Reply::Sent(sent)) => {
                self.conclude_slot(tag_index, base, sent)
            },
            _ => Step { report: None, command: Command::ReadClock },
        }
    }
}

/// An anchor gives exactly the commands whose replies it then waits for, and only transmits at
/// instants the radio can represent, whatever the radio reports.
pub proof fn commands_are_sound(position: Position, counters: Counters, reply: Reply)
    requires
        position.wf(),
        position.awaits(reply),
        position.can_schedule(reply),
    ensures
        ({
            let outcome = position.after(counters, reply);
            &&& outcome.position.wf()
            &&& forall|r: Reply| outcome.position.awaits(r) <==> r.answers(outcome.command)
            &&& outcome.command matches Command::Send { at_ticks, .. } ==> is_programmable(at_ticks)
            &&& outcome.position.anchor_index == position.anchor_index
            &&& outcome.position.tx_antenna_delay == position.tx_antenna_delay
        }),
{
}

/// The master's grid never drifts: whatever transmit timestamps the radio reports and however long
/// the software takes, consecutive `Sync`s are programmed the same number of ticks apart, as long
/// as none of them fails.
pub proof fn grid_never_drifts(
    position: Position,
    counters: Counters,
    scheduled: u64,
    actual: u64,
    later: Position,
)
    requires
        position.wf(),
        position.phase == (Phase::SyncQueued { scheduled }),
        later.is_master(),
        later.next_sync_ticks == position.after(
            counters,
            Reply::Sent(Some(actual)),
        ).position.next_sync_ticks,
    ensures
        ({
            let command = later.next_superframe(counters).command;
            &&& command is Send
            &&& time::ticks_between(command->at_ticks as int, scheduled as int)
                == time::ticks_of_us(SUPERFRAME_US as int) - time::ticks_of_us(
                SUPERFRAME_US as int,
            ) % 512
        }),
{
    time::aligned_delay_is_exact(scheduled as int, SUPERFRAME_US as int);
}

/// Nothing but the end of a superframe changes the master's plan for the next `Sync`.
pub proof fn slots_leave_the_grid_alone(position: Position, counters: Counters, reply: Reply)
    requires
        position.wf(),
        position.awaits(reply),
        position.phase is Asleep || position.phase is AwaitingPoll || position.phase is Measuring
            || position.phase is ResponseQueued,
    ensures
        position.after(counters, reply).position.next_sync_ticks == position.next_sync_ticks,
{
}

/// A `Response` is only ever sent to the robot whose slot it is, in the superframe it belongs to,
/// and carries the timestamp its transmission will have.
pub proof fn responses_answer_their_poll(position: Position, counters: Counters, reply: Reply)
    requires
        position.wf(),
        position.awaits(reply),
    ensures
        position.after(counters, reply).command matches Command::Send {
            packet: Packet::Response {
                anchor_id,
                tag_id,
                sequence,
                poll_rx: sent_rx,
                response_tx,
                ..
            },
            at_ticks,
            ..
        } ==> {
            &&& position.phase matches Phase::Measuring { tag_index, poll_rx, .. } && tag_id
                == TAG_IDS@[tag_index as int] && sent_rx == poll_rx
            &&& anchor_id == ANCHOR_IDS@[position.anchor_index as int]
            &&& sequence == position.sequence
            &&& response_tx == (at_ticks + position.tx_antenna_delay) % (bytes::TIME_MODULUS as int)
        },
{
}

/// An answer is only prepared for a `Poll` from the robot whose slot it is, numbered like the
/// current superframe.
pub proof fn only_the_slots_robot_is_answered(position: Position, counters: Counters, reply: Reply)
    requires
        position.wf(),
        position.awaits(reply),
    ensures
        position.after(counters, reply).position.phase matches Phase::Measuring {
            tag_index,
            poll_rx,
            ..
        } ==> {
            &&& reply matches Reply::Received(Some((Packet::Poll { tag_id, sequence, .. }, ticks)))
            &&& tag_id == TAG_IDS@[tag_index as int]
            &&& sequence == position.sequence
            &&& ticks == poll_rx
        },
{
}

/// Upper bound on the replies until the next superframe begins.
pub open spec fn remaining(position: Position) -> int {
    match position.phase {
        Phase::ReadingClock => 51,
        Phase::SyncQueued { .. } => 50,
        Phase::AwaitingSync => 50,
        Phase::Asleep { tag_index, .. } => 4 * (ACTIVE_TAG_COUNT - tag_index),
        Phase::AwaitingPoll { tag_index, .. } => 4 * (ACTIVE_TAG_COUNT - tag_index) - 1,
        Phase::Measuring { tag_index, .. } => 4 * (ACTIVE_TAG_COUNT - tag_index) - 2,
        Phase::ResponseQueued { tag_index, .. } => 4 * (ACTIVE_TAG_COUNT - tag_index) - 3,
    }
}

/// A superframe always comes to an end: every reply takes the anchor closer to the next one, or
/// begins it. Counters are reported at the end of a superframe only, once a hundred have been
/// counted, and start over then.
pub proof fn superframes_end(position: Position, counters: Counters, reply: Reply)
    requires
        position.wf(),
        position.awaits(reply),
    ensures
        ({
            let outcome = position.after(counters, reply);
            let phase = outcome.position.phase;
            let begun = phase is ReadingClock || phase is SyncQueued || phase is AwaitingSync;
            &&& begun || 0 < remaining(outcome.position) < remaining(position)
            &&& outcome.report is Some ==> begun && counters.superframes
                >= REPORT_EVERY_SUPERFRAMES && outcome.counters == (Counters {
                superframes: 1,
                ..Counters::zero()
            })
            &&& outcome.report is None ==> outcome.counters.superframes >= counters.superframes
        }),
{
}

/// A `Response` goes out in the robot's own slot and the anchor's own sub-slot, counted from the
/// `Sync` alone: 3 ms to the first slot, 5.48 ms for each robot before this one, 1.08 ms for the
/// `Poll` and the turnaround, and a millisecond for each sub-slot before the anchor's, which moves
/// on by one every superframe. Its confirmation is waited for well past that.
pub proof fn responses_keep_to_their_slot(position: Position, counters: Counters, reply: Reply)
    requires
        position.wf(),
        position.awaits(reply),
    ensures
        position.phase matches Phase::Measuring { tag_index, base, poll_rx } ==> {
            let outcome = position.after(counters, reply);
            let turn = (position.anchor_index + position.sequence) % 4;
            &&& outcome.command is Send
            &&& outcome.command->packet is Response
            &&& time::falls_due(
                outcome.command->at_ticks as int,
                base.base_ticks as int,
                3_000 + tag_index * 5_480 + 280 + 800 + turn * 1_000,
            )
            &&& outcome.command->wait_us == 280 + 800 + turn * 1_000 + 3_000
            &&& outcome.command->packet->master_offset == base.master_offset
            &&& outcome.position.phase == (Phase::ResponseQueued { tag_index, base })
            &&& outcome.report is None
        },
        position.after(counters, reply).command matches Command::Send {
            packet: Packet::Response { .. },
            ..
        } ==> position.phase is Measuring,
{
    if let Phase::Measuring { tag_index, base, .. } = position.phase {
        let (anchor, sequence) = (position.anchor_index as int, position.sequence as int);
        schedule::timetable(tag_index as int, anchor, sequence);
        time::delayed_instant_falls_due(
            base.base_ticks as int,
            schedule::slot_start(tag_index as int) + schedule::response_start(anchor, sequence),
            0,
        );
    }
}

/// Within one superframe, the answers to two robots are as far apart as their slots, and the
/// answers of two anchors to one robot as far as their sub-slots, on the 40-bit counter, to within
/// the radio's granularity and the rounding to whole ticks.
pub proof fn responses_are_slots_apart(
    earlier: Position,
    later: Position,
    counters: Counters,
    reply: Reply,
)
    requires
        earlier.wf(),
        later.wf(),
        earlier.awaits(reply),
        later.awaits(reply),
        earlier.phase is Measuring,
        later.phase is Measuring,
        earlier.sequence == later.sequence,
        earlier.phase->Measuring_base.base_ticks == later.phase->Measuring_base.base_ticks,
    ensures
        ({
            let a = earlier.after(counters, reply).command;
            let b = later.after(counters, reply).command;
            let slots = later.phase->Measuring_tag_index - earlier.phase->Measuring_tag_index;
            let turns = (later.anchor_index + later.sequence) % 4 - (earlier.anchor_index
                + earlier.sequence) % 4;
            let gap = slots * 350_158_848 + turns * 63_897_600;
            &&& a is Send && b is Send
            &&& (b->at_ticks - a->at_ticks - gap + 512) % 0x100_0000_0000 <= 1_024
        }),
{
    responses_keep_to_their_slot(earlier, counters, reply);
    responses_keep_to_their_slot(later, counters, reply);
    let m = 0x100_0000_0000int;
    let base = earlier.phase->Measuring_base.base_ticks as int;
    let a = earlier.after(counters, reply).command->at_ticks as int;
    let b = later.after(counters, reply).command->at_ticks as int;
    let i = earlier.phase->Measuring_tag_index as int;
    let j = later.phase->Measuring_tag_index as int;
    let s = (earlier.anchor_index + earlier.sequence) % 4;
    let t = (later.anchor_index + later.sequence) % 4;
    let da = base + ((3_000 + i * 5_480 + 280 + 800 + s * 1_000) * 638_976 + 5) / 10;
    let db = base + ((3_000 + j * 5_480 + 280 + 800 + t * 1_000) * 638_976 + 5) / 10;
    let gap = (j - i) * 350_158_848 + (t - s) * 63_897_600;
    assert(db - da == gap);
    let (ra, rb) = ((da - a) % m, (db - b) % m);
    assert(0 <= ra < 512 && 0 <= rb < 512);
    vstd::arithmetic::div_mod::lemma_fundamental_div_mod(da - a, m);
    vstd::arithmetic::div_mod::lemma_fundamental_div_mod(db - b, m);
    let k = (da - a) / m - (db - b) / m;
    assert(b - a - gap + 512 == m * k + (ra - rb + 512)) by (nonlinear_arith)
        requires
            da - a == m * ((da - a) / m) + ra,
            db - b == m * ((db - b) / m) + rb,
            db - da == gap,
            k == (da - a) / m - (db - b) / m,
    ;
    vstd::arithmetic::div_mod::lemma_mod_multiples_vanish(k, ra - rb + 512, m);
}

/// Every `Poll` of the slot's robot in the current superframe is answered, and its turnaround
/// measured from its own timestamp; anything else, or nothing, ends the slot.
pub proof fn every_poll_in_its_slot_is_answered(
    position: Position,
    counters: Counters,
    received: Option<(Packet, u64)>,
)
    requires
        position.wf(),
        position.phase is AwaitingPoll,
    ensures
        ({
            let tag_index = position.phase->AwaitingPoll_tag_index;
            let base = position.phase->AwaitingPoll_base;
            let outcome = position.after(counters, Reply::Received(received));
            if received matches Some((Packet::Poll { tag_id, sequence, .. }, _)) && tag_id
                == TAG_IDS@[tag_index as int] && sequence == position.sequence {
                let (_, poll_rx) = received->0;
                &&& outcome.position.phase == (Phase::Measuring { tag_index, base, poll_rx })
                &&& outcome.command == (Command::MeasureSince { ticks: poll_rx })
                &&& outcome.counters == (Counters {
                    polls_seen: counters.polls_seen + 1,
                    ..counters
                })
            } else {
                &&& outcome.position.phase matches Phase::Asleep { tag_index: next, base: kept }
                    ==> next == tag_index + 1 && kept == base && outcome.counters == counters
                &&& !(outcome.position.phase is Asleep) ==> tag_index == 11
            }
        }),
{
}

/// The receiver is armed a millisecond and a half before each slot opens, counted from the `Sync`,
/// and stays armed until a `Poll` that comes as much too late is over.
pub proof fn receivers_are_armed_around_the_slot(
    position: Position,
    counters: Counters,
    reply: Reply,
)
    requires
        position.wf(),
        position.awaits(reply),
    ensures
        position.after(counters, reply).command is WaitUntil <==> position.after(
            counters,
            reply,
        ).position.phase is Asleep,
        position.after(counters, reply).position.phase matches Phase::Asleep { tag_index, .. } ==> {
            position.after(counters, reply).command == (Command::WaitUntil {
                after_sync_us: (3_000 + tag_index * 5_480 - 1_500) as u32,
            })
        },
        position.phase matches Phase::Asleep { tag_index, base } ==> {
            let outcome = position.after(counters, reply);
            &&& outcome.position.phase == (Phase::AwaitingPoll { tag_index, base })
            &&& outcome.command == (Command::Receive { timeout_us: 3_280 })
            &&& outcome.counters == counters
        },
{
    match position.phase {
        Phase::AwaitingPoll { tag_index, .. } => schedule::timetable(tag_index + 1, 0, 0),
        Phase::ResponseQueued { tag_index, .. } => schedule::timetable(tag_index + 1, 0, 0),
        _ => schedule::timetable(0, 0, 0),
    }
}

/// The slots of a superframe are served in the robots' order, all twelve of them from the first on,
/// on one time base; after the last one the superframe number goes up by one, and wraps.
pub proof fn slots_are_served_in_order(position: Position, counters: Counters, reply: Reply)
    requires
        position.wf(),
        position.awaits(reply),
    ensures
        ({
            let after = position.after(counters, reply).position;
            let leaves = |tag_index: usize, base: TimeBase|
                if tag_index < 11 {
                    &&& after.phase == (Phase::Asleep { tag_index: (tag_index + 1) as usize, base })
                    &&& after.sequence == position.sequence
                } else {
                    &&& after.phase is ReadingClock || after.phase is SyncQueued
                        || after.phase is AwaitingSync
                    &&& after.sequence == (if position.sequence == 0xFFFF {
                        0
                    } else {
                        position.sequence + 1
                    })
                };
            match position.phase {
                Phase::ReadingClock => after.sequence == position.sequence,
                Phase::SyncQueued { .. } => {
                    &&& after.sequence == position.sequence
                    &&& after.phase matches Phase::Asleep { tag_index, .. } ==> tag_index == 0
                },
                Phase::AwaitingSync => after.phase matches Phase::Asleep { tag_index, .. }
                    ==> tag_index == 0,
                Phase::Asleep { .. } => after.sequence == position.sequence,
                Phase::AwaitingPoll { tag_index, base } => after.phase is Measuring || leaves(
                    tag_index,
                    base,
                ),
                Phase::Measuring { .. } => after.sequence == position.sequence,
                Phase::ResponseQueued { tag_index, base } => leaves(tag_index, base),
            }
        }),
{
}

/// The master counts a superframe from the timestamp its `Sync` really had, and is its own
/// reference; the next `Sync` is due one superframe after this one was programmed for. A slave
/// counts from the arrival of the `Sync`, takes over its number, and notes how far its clock is
/// ahead of the master's.
pub proof fn a_sync_starts_the_superframe(position: Position, counters: Counters, ticks: u64)
    requires
        position.wf(),
    ensures
        position.phase is SyncQueued ==> {
            let outcome = position.after(counters, Reply::Sent(Some(ticks)));
            let after = outcome.position;
            &&& after.phase == (Phase::Asleep {
                tag_index: 0,
                base: TimeBase { base_ticks: ticks, master_offset: 0 },
            })
            &&& after.next_sync_ticks is Some
            &&& time::falls_due(
                after.next_sync_ticks->0 as int,
                position.phase->scheduled as int,
                70_760,
            )
            &&& outcome.counters == counters
        },
        position.phase is AwaitingSync ==> forall|sequence: u16, sync_tx: u64|
            {
                let outcome = #[trigger] position.after(
                    counters,
                    Reply::Received(Some((Packet::Sync { sequence, sync_tx }, ticks))),
                );
                let base = outcome.position.phase->Asleep_base;
                &&& outcome.position.phase is Asleep
                &&& outcome.position.sequence == sequence
                &&& base.base_ticks == ticks
                &&& base.master_offset < 0x100_0000_0000
                &&& (sync_tx + base.master_offset) % 0x100_0000_0000 == ticks as int
                    % 0x100_0000_0000
                &&& outcome.counters == counters
            },
{
    if let Phase::SyncQueued { scheduled } = position.phase {
        time::delayed_instant_falls_due(scheduled as int, 70_760, 0);
    }
}

/// Without a `Sync`, or with any other frame in its place, a slave counts a missed one and listens
/// again for a whole superframe, with its number unchanged.
pub proof fn a_missed_sync_is_waited_for_again(
    position: Position,
    counters: Counters,
    received: Option<(Packet, u64)>,
)
    requires
        position.wf(),
        position.phase is AwaitingSync,
        position.anchor_index != 0,
        !(received matches Some((Packet::Sync { .. }, _))),
    ensures
        ({
            let outcome = position.after(counters, Reply::Received(received));
            &&& outcome.position == position
            &&& outcome.command == (Command::Receive { timeout_us: 70_760 })
            &&& outcome.counters == (Counters {
                missed_sync: counters.missed_sync + 1,
                superframes: counters.superframes + 1,
                ..counters
            })
        }),
{
}

/// The first anchor, and no other, is the master. Without a grid it reads the radio's clock and
/// programs its `Sync` a millisecond and a half ahead; with one it programs the `Sync` on the grid.
/// Either way the `Sync` carries the superframe's number and the timestamp it will have.
pub proof fn the_master_opens_superframes(position: Position, counters: Counters, now: u64)
    requires
        position.wf(),
    ensures
        position.is_master() <==> position.anchor_index == 0,
        ({
            let outcome = position.next_superframe(counters);
            &&& outcome.counters == (Counters { superframes: counters.superframes + 1, ..counters })
            &&& outcome.report is None
            &&& position.anchor_index == 0 && position.next_sync_ticks is None ==> outcome.command
                == Command::ReadClock && outcome.position.phase is ReadingClock
            &&& position.anchor_index == 0 ==> (position.next_sync_ticks matches Some(ticks) ==> {
                &&& outcome.command is Send
                &&& outcome.command->at_ticks == ticks
                &&& outcome.position.phase == (Phase::SyncQueued { scheduled: ticks })
            })
            &&& position.anchor_index != 0 ==> outcome.command == (Command::Receive {
                timeout_us: 70_760,
            }) && outcome.position.phase is AwaitingSync
        }),
        position.phase is ReadingClock ==> {
            let outcome = position.after(counters, Reply::Clock(Some(now)));
            &&& outcome.command is Send
            &&& time::falls_due(outcome.command->at_ticks as int, now as int, 1_500)
            &&& outcome.position.phase == (Phase::SyncQueued {
                scheduled: outcome.command->at_ticks,
            })
        },
{
    assert(ANCHOR_IDS@[0] == 0xA001 && ANCHOR_IDS@[1] == 0xA002 && ANCHOR_IDS@[2] == 0xA003
        && ANCHOR_IDS@[3] == 0xA004);
    time::delayed_instant_falls_due(now as int, 1_500, 0);
}

/// Every `Sync` an anchor sends carries the superframe's number and the timestamp it will have, and
/// its confirmation is waited for as long as it can be ahead.
pub proof fn syncs_carry_their_timestamp(position: Position, counters: Counters, reply: Reply)
    requires
        position.wf(),
        position.awaits(reply),
        position.can_schedule(reply),
    ensures
        ({
            let outcome = position.after(counters, reply);
            outcome.command matches Command::Send {
                packet: Packet::Sync { sequence, sync_tx },
                at_ticks,
                wait_us,
            } ==> {
                &&& sequence == outcome.position.sequence
                &&& sync_tx == (at_ticks + position.tx_antenna_delay) % 0x100_0000_0000
                &&& wait_us == 1_500 + 70_760
            }
        }),
{
}

/// A `Sync` that is not confirmed, or a clock that cannot be read, costs the master its grid: it is
/// counted, and a new grid is begun from the clock.
pub proof fn a_failed_sync_starts_a_new_grid(position: Position, counters: Counters)
    requires
        position.wf(),
        position.anchor_index == 0,
        position.phase is SyncQueued || position.phase is ReadingClock,
    ensures
        ({
            let reply = if position.phase is SyncQueued {
                Reply::Sent(None)
            } else {
                Reply::Clock(None)
            };
            let outcome = position.after(counters, reply);
            &&& outcome.position == (Position {
                next_sync_ticks: None,
                phase: Phase::ReadingClock,
                ..position
            })
            &&& outcome.command == Command::ReadClock
            &&& outcome.counters == (Counters {
                sync_tx_failed: counters.sync_tx_failed + 1,
                superframes: counters.superframes + 1,
                ..counters
            })
        }),
{
    assert(ANCHOR_IDS@[0] == 0xA001);
}

/// Of the answers, one that went out is counted as sent and one that did not under the sub-slot it
/// missed; the worst turnaround of all is kept. Nothing else of the counters changes in a slot.
pub proof fn answers_are_counted(
    position: Position,
    counters: Counters,
    sent: Option<u64>,
    us: u32,
)
    requires
        position.wf(),
        counters.response_tx_failed.len() == 4,
        counters.room(),
    ensures
        position.phase matches Phase::ResponseQueued { tag_index, .. } ==> tag_index < 11 ==> {
            let after = position.after(counters, Reply::Sent(sent)).counters;
            let turn = (position.anchor_index + position.sequence) % 4;
            &&& sent is Some ==> after == (Counters {
                responses_sent: counters.responses_sent + 1,
                ..counters
            })
            &&& sent is None ==> {
                &&& after.response_tx_failed.len() == 4
                &&& forall|i: int|
                    0 <= i < 4 ==> #[trigger] after.response_tx_failed[i]
                        == counters.response_tx_failed[i] + if i == turn {
                        1int
                    } else {
                        0int
                    }
                &&& after == (Counters {
                    response_tx_failed: after.response_tx_failed,
                    ..counters
                })
            }
        },
        position.phase is Measuring ==> {
            let after = position.after(counters, Reply::Elapsed(Some(us))).counters;
            &&& after.max_response_setup_us >= us
            &&& after.max_response_setup_us >= counters.max_response_setup_us
            &&& after.max_response_setup_us == us || after.max_response_setup_us
                == counters.max_response_setup_us
            &&& after == (Counters {
                max_response_setup_us: after.max_response_setup_us,
                ..counters
            })
            &&& position.after(counters, Reply::Elapsed(None)).counters == counters
        },
{
}

/// Counters are handed out at the end of the hundredth superframe they cover, complete with what
/// its last slot adds to them as any other slot would, and only then. The next superframe is the
/// first of a new window.
pub proof fn windows_are_reported_whole(
    last: Position,
    inner: Position,
    counters: Counters,
    reply: Reply,
)
    requires
        last.wf(),
        last.awaits(reply),
        counters.response_tx_failed.len() == 4,
        counters.room(),
        match last.phase {
            Phase::AwaitingPoll { tag_index, base } => tag_index == 11 && inner == (Position {
                phase: Phase::AwaitingPoll { tag_index: 10, base },
                ..last
            }),
            Phase::ResponseQueued { tag_index, base } => tag_index == 11 && inner == (Position {
                phase: Phase::ResponseQueued { tag_index: 10, base },
                ..last
            }),
            _ => false,
        },
        !(last.after(counters, reply).position.phase is Measuring),
        !(inner.after(counters, reply).position.phase is Measuring),
    ensures
        ({
            let outcome = last.after(counters, reply);
            let counted = inner.after(counters, reply).counters;
            &&& counters.superframes >= 100 ==> outcome.report == Some(counted)
                && outcome.counters == (Counters { superframes: 1, ..Counters::zero() })
            &&& counters.superframes < 100 ==> outcome.report is None && outcome.counters == (
            Counters { superframes: counters.superframes + 1, ..counted })
            &&& inner.after(counters, reply).report is None
        }),
        Counters::zero().superframes == 0 && Counters::zero().missed_sync == 0
            && Counters::zero().sync_tx_failed == 0 && Counters::zero().polls_seen == 0
            && Counters::zero().responses_sent == 0 && Counters::zero().max_response_setup_us == 0,
        forall|i: int| 0 <= i < 4 ==> #[trigger] Counters::zero().response_tx_failed[i] == 0,
{
}

/// A step of a session is the one the schedule gives for its state and the reply, in full: where
/// the anchor is afterwards, what has been counted, what is handed out and what to do next. A
/// session starts without a grid, at superframe 0, on the counters it is given.
pub proof fn steps_follow_the_schedule(
    before: Session,
    reply: Reply,
    after: Session,
    step: Step,
    other: Session,
    other_step: Step,
)
    requires
        Session::took(before, reply, after, step),
    ensures
        ({
            let outcome = before.position.after(before.stats@, reply);
            &&& after.position == outcome.position
            &&& after.stats@ == outcome.counters
            &&& step.command == outcome.command
            &&& outcome.report is None <==> step.report is None
            &&& step.report matches Some(stats) ==> outcome.report == Some(stats@)
        }),
        Session::took(before, reply, other, other_step) ==> other.position == after.position
            && other.stats@ == after.stats@ && other_step.command == step.command && (
        other_step.report is Some <==> step.report is Some),
        ({
            let fresh = Position::fresh(
                before.position.anchor_index,
                before.position.tx_antenna_delay,
            );
            &&& fresh.anchor_index == before.position.anchor_index
            &&& fresh.tx_antenna_delay == before.position.tx_antenna_delay
            &&& fresh.sequence == 0
            &&& fresh.next_sync_ticks is None
        }),
{
}

} // verus!
