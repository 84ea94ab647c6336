//! One double-sided ranging exchange of the fixture, from either end.
//!
//! Radio operations take place outside: a party is told what to do by a `Command`, and told what
//! came of it by a `Reply`.

use vstd::prelude::*;

use crate::fixture::schedule;
use crate::fixture::schedule::{report_matches, REPORT_DELAY_US, RX_WINDOW_US, TURNAROUND_US};
use crate::uwb::bytes;
use crate::uwb::calibration_packet::CalibrationPacket;
use crate::uwb::ranging;
use crate::uwb::ranging::distance_mm_ds_twr;
use crate::uwb::time;
use crate::uwb::time::{delayed_after, delayed_tx_timestamp};

verus! {

/// Low-rate diagnostics emitted while commissioning the physical fixture.
#[derive(Clone, Copy, Debug, PartialEq, Eq, Structural)]
pub enum FixtureEvent {
    Synchronized { sequence: u16 },
    PollTxMiss { initiator: u16, responder: u16 },
    PollMiss { initiator: u16, responder: u16 },
    ResponseTxMiss { initiator: u16, responder: u16 },
    ResponseMiss { initiator: u16, responder: u16 },
    FinalTxMiss { initiator: u16, responder: u16 },
    FinalMiss { initiator: u16, responder: u16 },
    DistanceInvalid { initiator: u16, responder: u16 },
    ReportTxMiss { initiator: u16, responder: u16 },
    ReportMiss { initiator: u16, responder: u16 },
    ObserverReportMiss { initiator: u16, responder: u16, frames_seen: u8 },
}

/// What a node has to do next.
#[derive(Clone, Copy, Debug, PartialEq, Eq, Structural)]
pub enum Command {
    /// Sleep until this many microseconds after the `Sync`.
    WaitUntilOffset { offset_us: u32 },
    /// Transmit at the given radio instant.
    Send { packet: CalibrationPacket, at_ticks: u64 },
    /// Listen for one frame.
    Receive { timeout_us: u32 },
    /// Nothing: the superframe is over.
    Done,
}

/// What came of a command.
#[derive(Clone, Copy, Debug, PartialEq, Eq)]
pub enum Reply {
    /// The wait is over.
    Waited,
    /// The transmit timestamp, or `None` if the transmission did not take place.
    Sent(Option<u64>),
    /// The frame and its receive timestamp, or `None` if none arrived in time.
    Received(Option<(CalibrationPacket, u64)>),
}

impl Reply {
    /// Whether this can be the outcome of `command`.
    pub open spec fn answers(self, command: Command) -> bool {
        match command {
            Command::WaitUntilOffset { .. } => self is Waited,
            Command::Send { .. } => self is Sent,
            Command::Receive { .. } => self is Received,
            Command::Done => false,
        }
    }

    /// A receive timestamp leaves room to schedule a reply from it.
    pub open spec fn timestamp_fits(self) -> bool {
        self matches Reply::Received(Some((_, ticks))) ==> ticks + time::ticks_of_us(
            TURNAROUND_US as int,
        ) <= u64::MAX
    }
}

/// Where an initiator is in its exchange.
#[derive(Clone, Copy, Debug, PartialEq, Eq, Structural)]
pub enum InitiatorStage {
    PollQueued { poll_tx: u64 },
    AwaitingResponse { poll_tx: u64 },
    FinalQueued,
    AwaitingReport,
}

/// Where a responder is in its exchange.
#[derive(Clone, Copy, Debug, PartialEq, Eq, Structural)]
pub enum ResponderStage {
    AwaitingPoll,
    ResponseQueued { poll_tx: u64, poll_rx: u64, response_tx: u64 },
    AwaitingFinal { poll_tx: u64, poll_rx: u64, response_tx: u64 },
    ReportQueued { distance_mm: u32 },
}

/// How an exchange goes on after a reply.
#[derive(Debug, PartialEq, Eq)]
pub enum Progress<S> {
    /// It continues with another command.
    Next { stage: S, command: Command },
    /// It is over, for this node, with a diagnostic and a report as far as there are any. The
    /// diagnostic comes first.
    Over { note: Option<FixtureEvent>, emit: Option<CalibrationPacket> },
}

/// The two parties of an exchange and the superframe it belongs to.
#[derive(Clone, Copy, Debug, PartialEq, Eq, Structural)]
pub struct Exchange {
    pub initiator: u16,
    pub responder: u16,
    pub sequence: u16,
}

/// Listening for one frame of an exchange.
pub open spec fn listen() -> Command {
    Command::Receive { timeout_us: RX_WINDOW_US }
}

impl Exchange {
    /// Whether a frame's addressing fields are those of this exchange.
    pub open spec fn is_ours(self, initiator_id: u16, responder_id: u16, sequence: u16) -> bool {
        initiator_id == self.initiator && responder_id == self.responder && sequence
            == self.sequence
    }

    /// The opening frame of an exchange starting `offset_us` after the `Sync`.
    pub open spec fn opening(
        self,
        base_ticks: u64,
        offset_us: u32,
        tx_antenna_delay: u16,
    ) -> (InitiatorStage, Command) {
        let scheduled = time::delayed_instant(base_ticks as int, offset_us as int);
        let poll_tx = time::stamped(scheduled, tx_antenna_delay);
        (
            InitiatorStage::PollQueued { poll_tx },
            Command::Send {
                packet: CalibrationPacket::Poll {
                    initiator_id: self.initiator,
                    responder_id: self.responder,
                    sequence: self.sequence,
                    poll_tx,
                },
                at_ticks: scheduled as u64,
            },
        )
    }

    /// What the initiator does next.
    ///
    /// A transmission that did not take place ends the exchange, and so does a missing frame, each
    /// with a diagnostic of its own. A `Response` of another exchange ends it silently. The report
    /// is passed on if it is the expected one.
    pub open spec fn initiator_next(
        self,
        stage: InitiatorStage,
        reply: Reply,
        tx_antenna_delay: u16,
    ) -> Progress<InitiatorStage> {
        let (initiator, responder) = (self.initiator, self.responder);
        match stage {
            InitiatorStage::PollQueued { poll_tx } => if reply == Reply::Sent(None) {
                Progress::Over {
                    note: Some(FixtureEvent::PollTxMiss { initiator, responder }),
                    emit: None,
                }
            } else {
                Progress::Next {
                    stage: InitiatorStage::AwaitingResponse { poll_tx },
                    command: listen(),
                }
            },
            InitiatorStage::AwaitingResponse { poll_tx } => match reply {
                Reply::Received(
                    Some(
                        (
                            CalibrationPacket::Response {
                                initiator_id,
                                responder_id,
                                sequence,
                                ..
                            },
                            response_rx,
                        ),
                    ),
                ) => if self.is_ours(initiator_id, responder_id, sequence) {
                    let scheduled = time::delayed_instant(response_rx as int, TURNAROUND_US as int);
                    Progress::Next {
                        stage: InitiatorStage::FinalQueued,
                        command: Command::Send {
                            packet: CalibrationPacket::Final {
                                initiator_id: initiator,
                                responder_id: responder,
                                sequence: self.sequence,
                                poll_tx,
                                response_rx,
                                final_tx: time::stamped(scheduled, tx_antenna_delay),
                            },
                            at_ticks: scheduled as u64,
                        },
                    }
                } else {
                    Progress::Over { note: None, emit: None }
                },
                _ => Progress::Over {
                    note: Some(FixtureEvent::ResponseMiss { initiator, responder }),
                    emit: None,
                },
            },
            InitiatorStage::FinalQueued => if reply == Reply::Sent(None) {
                Progress::Over {
                    note: Some(FixtureEvent::FinalTxMiss { initiator, responder }),
                    emit: None,
                }
            } else {
                Progress::Next { stage: InitiatorStage::AwaitingReport, command: listen() }
            },
            InitiatorStage::AwaitingReport => match reply {
                Reply::Received(Some((packet, _))) if schedule::is_report_of(
                    packet,
                    initiator,
                    responder,
                    self.sequence,
                ) => Progress::Over { note: None, emit: Some(packet) },
                _ => Progress::Over {
                    note: Some(FixtureEvent::ReportMiss { initiator, responder }),
                    emit: None,
                },
            },
        }
    }

    /// What the responder does next.
    ///
    /// The `Final` must belong to the same exchange and repeat the `Poll`'s timestamp, else the
    /// exchange ends silently. The report is passed on even if its transmission did not take place.
    pub open spec fn responder_next(
        self,
        stage: ResponderStage,
        reply: Reply,
        tx_antenna_delay: u16,
    ) -> Progress<ResponderStage> {
        let (initiator, responder) = (self.initiator, self.responder);
        match stage {
            ResponderStage::AwaitingPoll => match reply {
                Reply::Received(
                    Some(
                        (
                            CalibrationPacket::Poll {
                                initiator_id,
                                responder_id,
                                sequence,
                                poll_tx,
                            },
                            poll_rx,
                        ),
                    ),
                ) => if self.is_ours(initiator_id, responder_id, sequence) {
                    let scheduled = time::delayed_instant(poll_rx as int, TURNAROUND_US as int);
                    let response_tx = time::stamped(scheduled, tx_antenna_delay);
                    Progress::Next {
                        stage: ResponderStage::ResponseQueued { poll_tx, poll_rx, response_tx },
                        command: Command::Send {
                            packet: CalibrationPacket::Response {
                                initiator_id: initiator,
                                responder_id: responder,
                                sequence: self.sequence,
                                poll_rx,
                                response_tx,
                            },
                            at_ticks: scheduled as u64,
                        },
                    }
                } else {
                    Progress::Over { note: None, emit: None }
                },
                _ => Progress::Over {
                    note: Some(FixtureEvent::PollMiss { initiator, responder }),
                    emit: None,
                },
            },
            ResponderStage::ResponseQueued { poll_tx, poll_rx, response_tx } => if reply
                == Reply::Sent(None) {
                Progress::Over {
                    note: Some(FixtureEvent::ResponseTxMiss { initiator, responder }),
                    emit: None,
                }
            } else {
                Progress::Next {
                    stage: ResponderStage::AwaitingFinal { poll_tx, poll_rx, response_tx },
                    command: listen(),
                }
            },
            ResponderStage::AwaitingFinal { poll_tx, poll_rx, response_tx } => match reply {
                Reply::Received(
                    Some(
                        (
                            CalibrationPacket::Final {
                                initiator_id,
                                responder_id,
                                sequence,
                                poll_tx: repeated_poll_tx,
                                response_rx,
                                final_tx,
                            },
                            final_rx,
                        ),
                    ),
                ) => if self.is_ours(initiator_id, responder_id, sequence) && repeated_poll_tx
                    == poll_tx {
                    match ranging::ds_twr(
                        poll_tx as int,
                        poll_rx as int,
                        response_tx as int,
                        response_rx as int,
                        final_tx as int,
                        final_rx as int,
                    ) {
                        Some(distance_mm) => Progress::Next {
                            stage: ResponderStage::ReportQueued { distance_mm },
                            command: Command::Send {
                                packet: self.report(distance_mm),
                                at_ticks: time::delayed_instant(
                                    final_rx as int,
                                    REPORT_DELAY_US as int,
                                ) as u64,
                            },
                        },
                        None => Progress::Over {
                            note: Some(FixtureEvent::DistanceInvalid { initiator, responder }),
                            emit: None,
                        },
                    }
                } else {
                    Progress::Over { note: None, emit: None }
                },
                _ => Progress::Over {
                    note: Some(FixtureEvent::FinalMiss { initiator, responder }),
                    emit: None,
                },
            },
            ResponderStage::ReportQueued { distance_mm } => Progress::Over {
                note: if reply == Reply::Sent(None) {
                    Some(FixtureEvent::ReportTxMiss { initiator, responder })
                } else {
                    None
                },
                emit: Some(self.report(distance_mm)),
            },
        }
    }

    /// What the coordinator does next while it listens in on an exchange of the other two nodes.
    ///
    /// It takes up to four frames, passes on the expected report, and gives up with a diagnostic
    /// when a window stays empty or the fourth frame is not the report.
    pub open spec fn observer_next(self, frames_seen: u8, reply: Reply) -> Progress<u8> {
        let miss = |frames: u8|
            Progress::<u8>::Over {
                note: Some(
                    FixtureEvent::ObserverReportMiss {
                        initiator: self.initiator,
                        responder: self.responder,
                        frames_seen: frames,
                    },
                ),
                emit: None,
            };
        match reply {
            Reply::Received(Some((packet, _))) => if schedule::is_report_of(
                packet,
                self.initiator,
                self.responder,
                self.sequence,
            ) {
                Progress::Over { note: None, emit: Some(packet) }
            } else if frames_seen + 1 < 4 {
                Progress::Next { stage: (frames_seen + 1) as u8, command: listen() }
            } else {
                miss((frames_seen + 1) as u8)
            },
            _ => miss(frames_seen),
        }
    }

    /// The report of this exchange.
    pub open spec fn report(self, distance_mm: u32) -> CalibrationPacket {
        CalibrationPacket::Report {
            initiator_id: self.initiator,
            responder_id: self.responder,
            sequence: self.sequence,
            distance_mm,
        }
    }

    /// Opens an exchange as its initiator: schedules the `Poll`.
    pub fn open(&self, base_ticks: u64, offset_us: u32, tx_antenna_delay: u16) -> (first: (
        InitiatorStage,
        Command,
    ))
        requires
            base_ticks + time::ticks_of_us(offset_us as int) <= u64::MAX,
        ensures
            first == self.opening(base_ticks, offset_us, tx_antenna_delay),
    {
        let scheduled: u64 = delayed_after(base_ticks, offset_us);
        let poll_tx: u64 = delayed_tx_timestamp(scheduled, tx_antenna_delay);
        (
            InitiatorStage::PollQueued { poll_tx },
            Command::Send {
                packet: CalibrationPacket::Poll {
                    initiator_id: self.initiator,
                    responder_id: self.responder,
                    sequence: self.sequence,
                    poll_tx,
                },
                at_ticks: scheduled,
            },
        )
    }

    /// Takes an exchange one step further as its initiator.
    pub fn initiate(&self, stage: InitiatorStage, reply: Reply, tx_antenna_delay: u16) -> (progress:
        Progress<InitiatorStage>)
        requires
            stage is AwaitingResponse ==> reply.timestamp_fits(),
        ensures
            progress == self.initiator_next(stage, reply, tx_antenna_delay),
    {
        let initiator: u16 = self.initiator;
        let responder: u16 = self.responder;
        match stage {
            InitiatorStage::PollQueued { poll_tx } => match reply {
                Reply::Sent(None) => Progress::Over {
                    note: Some(FixtureEvent::PollTxMiss { initiator, responder }),
                    emit: None,
                },
                _ => Progress::Next {
                    stage: InitiatorStage::AwaitingResponse { poll_tx },
                    command: Command::Receive { timeout_us: RX_WINDOW_US },
                },
            },
            InitiatorStage::AwaitingResponse { poll_tx } => {
                let (initiator_id, responder_id, rx_sequence, response_rx) = match reply {
                    Reply::Received(
                        Some(
                            (
                                CalibrationPacket::Response {
                                    initiator_id,
                                    responder_id,
                                    sequence,
                                    ..
                                },
                                response_rx,
                            ),
                        ),
                    ) => (initiator_id, responder_id, sequence, response_rx),
                    _ => {
                        return Progress::Over {
                            note: Some(FixtureEvent::ResponseMiss { initiator, responder }),
                            emit: None,
                        };
                    },
                };
                if initiator_id != initiator || responder_id != responder || rx_sequence
                    != self.sequence {
                    return Progress::Over { note: None, emit: None };
                }
                let scheduled: u64 = delayed_after(response_rx, TURNAROUND_US);
                let final_tx: u64 = delayed_tx_timestamp(scheduled, tx_antenna_delay);
                Progress::Next {
                    stage: InitiatorStage::FinalQueued,
                    command: Command::Send {
                        packet: CalibrationPacket::Final {
                            initiator_id,
                            responder_id,
                            sequence: self.sequence,
                            poll_tx,
                            response_rx,
                            final_tx,
                        },
                        at_ticks: scheduled,
                    },
                }
            },
            InitiatorStage::FinalQueued => match reply {
                Reply::Sent(None) => Progress::Over {
                    note: Some(FixtureEvent::FinalTxMiss { initiator, responder }),
                    emit: None,
                },
                _ => Progress::Next {
                    stage: InitiatorStage::AwaitingReport,
                    command: Command::Receive { timeout_us: RX_WINDOW_US },
                },
            },
            InitiatorStage::AwaitingReport => {
                if let Reply::Received(Some((packet, _))) = reply {
                    if report_matches(&packet, initiator, responder, self.sequence) {
                        return Progress::Over { note: None, emit: Some(packet) };
                    }
                }
                Progress::Over {
                    note: Some(FixtureEvent::ReportMiss { initiator, responder }),
                    emit: None,
                }
            },
        }
    }

    /// Takes an exchange one step further as its responder.
    pub fn respond(&self, stage: ResponderStage, reply: Reply, tx_antenna_delay: u16) -> (progress:
        Progress<ResponderStage>)
        requires
            stage is AwaitingPoll || stage is AwaitingFinal ==> reply.timestamp_fits(),
        ensures
            progress == self.responder_next(stage, reply, tx_antenna_delay),
    {
        let initiator: u16 = self.initiator;
        let responder: u16 = self.responder;
        match stage {
            ResponderStage::AwaitingPoll => {
                let (initiator_id, responder_id, rx_sequence, poll_tx, poll_rx) = match reply {
                    Reply::Received(
                        Some(
                            (
                                CalibrationPacket::Poll {
                                    initiator_id,
                                    responder_id,
                                    sequence,
                                    poll_tx,
                                },
                                poll_rx,
                            ),
                        ),
                    ) => (initiator_id, responder_id, sequence, poll_tx, poll_rx),
                    _ => {
                        return Progress::Over {
                            note: Some(FixtureEvent::PollMiss { initiator, responder }),
                            emit: None,
                        };
                    },
                };
                if initiator_id != initiator || responder_id != responder || rx_sequence
                    != self.sequence {
                    return Progress::Over { note: None, emit: None };
                }
                let scheduled: u64 = delayed_after(poll_rx, TURNAROUND_US);
                let response_tx: u64 = delayed_tx_timestamp(scheduled, tx_antenna_delay);
                Progress::Next {
                    stage: ResponderStage::ResponseQueued { poll_tx, poll_rx, response_tx },
                    command: Command::Send {
                        packet: CalibrationPacket::Response {
                            initiator_id,
                            responder_id,
                            sequence: self.sequence,
                            poll_rx,
                            response_tx,
                        },
                        at_ticks: scheduled,
                    },
                }
            },
            ResponderStage::ResponseQueued { poll_tx, poll_rx, response_tx } => match reply {
                Reply::Sent(None) => Progress::Over {
                    note: Some(FixtureEvent::ResponseTxMiss { initiator, responder }),
                    emit: None,
                },
                _ => Progress::Next {
                    stage: ResponderStage::AwaitingFinal { poll_tx, poll_rx, response_tx },
                    command: Command::Receive { timeout_us: RX_WINDOW_US },
                },
            },
            ResponderStage::AwaitingFinal { poll_tx, poll_rx, response_tx } => {
                let (addressed, repeated_poll_tx, response_rx, final_tx, final_rx) = match reply {
                    Reply::Received(
                        Some(
                            (
                                CalibrationPacket::Final {
                                    initiator_id,
                                    responder_id,
                                    sequence,
                                    poll_tx,
                                    response_rx,
                                    final_tx,
                                },
                                final_rx,
                            ),
                        ),
                    ) => (
                        initiator_id == initiator && responder_id == responder && sequence
                            == self.sequence,
                        poll_tx,
                        response_rx,
                        final_tx,
                        final_rx,
                    ),
                    _ => {
                        return Progress::Over {
                            note: Some(FixtureEvent::FinalMiss { initiator, responder }),
                            emit: None,
                        };
                    },
                };
                if !addressed || repeated_poll_tx != poll_tx {
                    return Progress::Over { note: None, emit: None };
                }
                match distance_mm_ds_twr(
                    poll_tx,
                    poll_rx,
                    response_tx,
                    response_rx,
                    final_tx,
                    final_rx,
                ) {
                    Some(distance_mm) => Progress::Next {
                        stage: ResponderStage::ReportQueued { distance_mm },
                        command: Command::Send {
                            packet: CalibrationPacket::Report {
                                initiator_id: initiator,
                                responder_id: responder,
                                sequence: self.sequence,
                                distance_mm,
                            },
                            at_ticks: delayed_after(final_rx, REPORT_DELAY_US),
                        },
                    },
                    None => Progress::Over {
                        note: Some(FixtureEvent::DistanceInvalid { initiator, responder }),
                        emit: None,
                    },
                }
            },
            ResponderStage::ReportQueued { distance_mm } => {
                let note = match reply {
                    Reply::Sent(None) => Some(FixtureEvent::ReportTxMiss { initiator, responder }),
                    _ => None,
                };
                Progress::Over {
                    note,
                    emit: Some(
                        CalibrationPacket::Report {
                            initiator_id: initiator,
                            responder_id: responder,
                            sequence: self.sequence,
                            distance_mm,
                        },
                    ),
                }
            },
        }
    }

    /// Takes the coordinator one step further while it listens in on an exchange.
    pub fn observe(&self, frames_seen: u8, reply: Reply) -> (progress: Progress<u8>)
        requires
            frames_seen < 4,
        ensures
            progress == self.observer_next(frames_seen, reply),
    {
        let mut seen: u8 = frames_seen;
        if let Reply::Received(Some((packet, _))) = reply {
            if report_matches(&packet, self.initiator, self.responder, self.sequence) {
                return Progress::Over { note: None, emit: Some(packet) };
            }
            seen = seen + 1;
            if seen < 4 {
                return Progress::Next {
                    stage: seen,
                    command: Command::Receive { timeout_us: RX_WINDOW_US },
                };
            }
        }
        Progress::Over {
            note: Some(
                FixtureEvent::ObserverReportMiss {
                    initiator: self.initiator,
                    responder: self.responder,
                    frames_seen: seen,
                },
            ),
            emit: None,
        }
    }
}

/// A transmission is programmed at an instant the radio can represent, and a receiver is armed for
/// exactly the window of an exchange.
pub open spec fn is_sound(command: Command) -> bool {
    match command {
        Command::Send { at_ticks, .. } => at_ticks < bytes::TIME_MODULUS && at_ticks % 512 == 0,
        Command::Receive { timeout_us } => timeout_us == RX_WINDOW_US,
        _ => false,
    }
}

/// Whatever the radio reports, an initiator only passes on a report of its own exchange, and only
/// gives commands the radio can carry out.
pub proof fn initiator_passes_on_its_own_report_only(
    exchange: Exchange,
    stage: InitiatorStage,
    reply: Reply,
    tx_antenna_delay: u16,
)
    ensures
        match exchange.initiator_next(stage, reply, tx_antenna_delay) {
            Progress::Over { emit: Some(packet), note } => schedule::is_report_of(
                packet,
                exchange.initiator,
                exchange.responder,
                exchange.sequence,
            ) && note is None,
            Progress::Over { emit: None, .. } => true,
            Progress::Next { command, .. } => is_sound(command),
        },
{
}

/// Whatever the radio reports, a responder only passes on a report of its own exchange, and only
/// gives commands the radio can carry out.
#[verifier::spinoff_prover]
#[verifier::rlimit(40)]
pub proof fn responder_passes_on_its_own_report_only(
    exchange: Exchange,
    stage: ResponderStage,
    reply: Reply,
    tx_antenna_delay: u16,
)
    ensures
        match exchange.responder_next(stage, reply, tx_antenna_delay) {
            Progress::Over { emit: Some(packet), .. } => schedule::is_report_of(
                packet,
                exchange.initiator,
                exchange.responder,
                exchange.sequence,
            ),
            Progress::Over { emit: None, .. } => true,
            Progress::Next { command, .. } => is_sound(command),
        },
{
}

/// Whatever the radio reports, the observing coordinator passes on the observed exchange's report
/// or gives exactly one diagnostic, never both, and does so after at most four frames.
pub proof fn observer_passes_on_the_report_or_gives_up(
    exchange: Exchange,
    frames_seen: u8,
    reply: Reply,
)
    requires
        frames_seen < 4,
    ensures
        match exchange.observer_next(frames_seen, reply) {
            Progress::Over { emit: Some(packet), note } => schedule::is_report_of(
                packet,
                exchange.initiator,
                exchange.responder,
                exchange.sequence,
            ) && note is None,
            Progress::Over { emit: None, note } => note is Some,
            Progress::Next { stage, command } => stage == frames_seen + 1 && stage < 4 && is_sound(
                command,
            ),
        },
{
}

/// An exchange in which no frame is lost: each party sends what the other receives, the timestamps
/// measured are `poll_rx`, `response_rx` and `final_rx`, and the six timestamps describe a
/// distance. Then both parties end up with the same report of that distance, without any
/// diagnostic, and an observer who hears all four frames ends up with it too.
pub proof fn lossless_exchange_reports_the_distance(
    exchange: Exchange,
    base_ticks: u64,
    offset_us: u32,
    initiator_delay: u16,
    responder_delay: u16,
    poll_rx: u64,
    response_rx: u64,
    final_rx: u64,
    sent: Reply,
    report_rx: u64,
)
    requires
        sent matches Reply::Sent(Some(_)),
        ({
            let poll_at = time::delayed_instant(base_ticks as int, offset_us as int);
            let response_at = time::delayed_instant(poll_rx as int, TURNAROUND_US as int);
            let final_at = time::delayed_instant(response_rx as int, TURNAROUND_US as int);
            ranging::ds_twr(
                time::stamped(poll_at, initiator_delay) as int,
                poll_rx as int,
                time::stamped(response_at, responder_delay) as int,
                response_rx as int,
                time::stamped(final_at, initiator_delay) as int,
                final_rx as int,
            ) is Some
        }),
    ensures
        ({
            let poll_at = time::delayed_instant(base_ticks as int, offset_us as int);
            let response_at = time::delayed_instant(poll_rx as int, TURNAROUND_US as int);
            let final_at = time::delayed_instant(response_rx as int, TURNAROUND_US as int);
            let distance = ranging::ds_twr(
                time::stamped(poll_at, initiator_delay) as int,
                poll_rx as int,
                time::stamped(response_at, responder_delay) as int,
                response_rx as int,
                time::stamped(final_at, initiator_delay) as int,
                final_rx as int,
            )->0;
            let hear = |packet: CalibrationPacket, at: u64| Reply::Received(Some((packet, at)));

            let (queued, poll) = exchange.opening(base_ticks, offset_us, initiator_delay);
            let responding = exchange.responder_next(
                ResponderStage::AwaitingPoll,
                hear(poll->packet, poll_rx),
                responder_delay,
            );
            let response = responding->command->packet;
            let waiting = exchange.initiator_next(queued, sent, initiator_delay);
            let closing = exchange.initiator_next(
                waiting->stage,
                hear(response, response_rx),
                initiator_delay,
            );
            let closer = closing->command->packet;
            let expecting = exchange.responder_next(responding->stage, sent, responder_delay);
            let reporting = exchange.responder_next(
                expecting->stage,
                hear(closer, final_rx),
                responder_delay,
            );
            let report = reporting->command->packet;
            let done = exchange.initiator_next(closing->stage, sent, initiator_delay);

            &&& report == exchange.report(distance)
            &&& exchange.responder_next(reporting->stage, sent, responder_delay) == (
            Progress::<ResponderStage>::Over { note: None, emit: Some(report) })
            &&& exchange.initiator_next(done->stage, hear(report, report_rx), initiator_delay) == (
            Progress::<InitiatorStage>::Over { note: None, emit: Some(report) })
            &&& exchange.observer_next(0, hear(poll->packet, poll_rx)) == (Progress::Next {
                stage: 1u8,
                command: listen(),
            })
            &&& exchange.observer_next(1, hear(response, response_rx)) == (Progress::Next {
                stage: 2u8,
                command: listen(),
            })
            &&& exchange.observer_next(2, hear(closer, final_rx)) == (Progress::Next {
                stage: 3u8,
                command: listen(),
            })
            &&& exchange.observer_next(3, hear(report, report_rx)) == (Progress::<u8>::Over {
                note: None,
                emit: Some(report),
            })
        }),
{
}

/// A `Poll` leaves when its slot says, names its exchange and carries the timestamp it will have,
/// which the initiator remembers.
pub proof fn polls_leave_on_time(
    exchange: Exchange,
    base_ticks: u64,
    offset_us: u32,
    tx_antenna_delay: u16,
)
    ensures
        ({
            let (stage, command) = exchange.opening(base_ticks, offset_us, tx_antenna_delay);
            &&& command is Send
            &&& time::falls_due(command->at_ticks as int, base_ticks as int, offset_us as int)
            &&& command->packet matches CalibrationPacket::Poll {
                initiator_id,
                responder_id,
                sequence,
                poll_tx,
            } && {
                &&& initiator_id == exchange.initiator
                &&& responder_id == exchange.responder
                &&& sequence == exchange.sequence
                &&& poll_tx == (command->at_ticks + tx_antenna_delay) % 0x100_0000_0000
                &&& stage == (InitiatorStage::PollQueued { poll_tx })
            }
        }),
{
    time::delayed_instant_falls_due(base_ticks as int, offset_us as int, 0);
}

/// An initiator answers the `Response` of its own exchange, and nothing else, with a `Final` five
/// milliseconds after it arrived. The `Final` repeats the `Poll`'s timestamp and adds the
/// initiator's other two.
pub proof fn a_response_is_answered_on_time(
    exchange: Exchange,
    stage: InitiatorStage,
    reply: Reply,
    tx_antenna_delay: u16,
)
    ensures
        ({
            let progress = exchange.initiator_next(stage, reply, tx_antenna_delay);
            let answered = stage is AwaitingResponse && (reply matches Reply::Received(
                Some((CalibrationPacket::Response { initiator_id, responder_id, sequence, .. }, _)),
            ) && initiator_id == exchange.initiator && responder_id == exchange.responder
                && sequence == exchange.sequence);
            &&& answered <==> progress is Next && progress->command is Send
            &&& answered ==> ({
                let (_, arrived) = reply->Received_0->0;
                let at_ticks = progress->command->at_ticks;
                &&& progress->stage == InitiatorStage::FinalQueued
                &&& time::falls_due(at_ticks as int, arrived as int, 5_000)
                &&& progress->command->packet == (CalibrationPacket::Final {
                    initiator_id: exchange.initiator,
                    responder_id: exchange.responder,
                    sequence: exchange.sequence,
                    poll_tx: stage->AwaitingResponse_poll_tx,
                    response_rx: arrived,
                    final_tx: ((at_ticks + tx_antenna_delay) % 0x100_0000_0000) as u64,
                })
            })
        }),
{
    if let Reply::Received(Some((_, arrived))) = reply {
        time::delayed_instant_falls_due(arrived as int, 5_000, 0);
    }
}

/// A responder answers the `Poll` of its own exchange, and nothing else, with a `Response` five
/// milliseconds after it arrived, and remembers the three timestamps of that turn.
pub proof fn a_poll_is_answered_on_time(exchange: Exchange, reply: Reply, tx_antenna_delay: u16)
    ensures
        ({
            let progress = exchange.responder_next(
                ResponderStage::AwaitingPoll,
                reply,
                tx_antenna_delay,
            );
            let answered = reply matches Reply::Received(
                Some((CalibrationPacket::Poll { initiator_id, responder_id, sequence, .. }, _)),
            ) && initiator_id == exchange.initiator && responder_id == exchange.responder
                && sequence == exchange.sequence;
            &&& answered <==> progress is Next
            &&& answered ==> ({
                let (poll, poll_rx) = reply->Received_0->0;
                let at_ticks = progress->command->at_ticks;
                let response_tx = ((at_ticks + tx_antenna_delay) % 0x100_0000_0000) as u64;
                &&& progress->command is Send
                &&& time::falls_due(at_ticks as int, poll_rx as int, 5_000)
                &&& progress->command->packet == (CalibrationPacket::Response {
                    initiator_id: exchange.initiator,
                    responder_id: exchange.responder,
                    sequence: exchange.sequence,
                    poll_rx,
                    response_tx,
                })
                &&& progress->stage == (ResponderStage::ResponseQueued {
                    poll_tx: poll->Poll_poll_tx,
                    poll_rx,
                    response_tx,
                })
            })
        }),
{
    if let Reply::Received(Some((_, arrived))) = reply {
        time::delayed_instant_falls_due(arrived as int, 5_000, 0);
    }
}

/// A responder answers the `Final` of its own exchange, if that repeats the `Poll`'s timestamp and
/// the six timestamps describe a distance, with a report of that distance three milliseconds after
/// it arrived. Then it passes the same report on, sent or not.
pub proof fn a_final_is_answered_on_time(
    exchange: Exchange,
    poll_tx: u64,
    poll_rx: u64,
    response_tx: u64,
    reply: Reply,
    sent: Option<u64>,
    tx_antenna_delay: u16,
)
    ensures
        ({
            let progress = exchange.responder_next(
                ResponderStage::AwaitingFinal { poll_tx, poll_rx, response_tx },
                reply,
                tx_antenna_delay,
            );
            let answered = reply matches Reply::Received(
                Some(
                    (
                        CalibrationPacket::Final {
                            initiator_id,
                            responder_id,
                            sequence,
                            poll_tx: repeated,
                            response_rx,
                            final_tx,
                        },
                        final_rx,
                    ),
                ),
            ) && initiator_id == exchange.initiator && responder_id == exchange.responder
                && sequence == exchange.sequence && repeated == poll_tx && (ranging::ds_twr(
                poll_tx as int,
                poll_rx as int,
                response_tx as int,
                response_rx as int,
                final_tx as int,
                final_rx as int,
            ) is Some);
            &&& answered <==> progress is Next
            &&& answered ==> ({
                let (closing, final_rx) = reply->Received_0->0;
                let distance = ranging::ds_twr(
                    poll_tx as int,
                    poll_rx as int,
                    response_tx as int,
                    closing->response_rx as int,
                    closing->final_tx as int,
                    final_rx as int,
                )->0;
                let report = CalibrationPacket::Report {
                    initiator_id: exchange.initiator,
                    responder_id: exchange.responder,
                    sequence: exchange.sequence,
                    distance_mm: distance,
                };
                &&& progress->command is Send
                &&& time::falls_due(progress->command->at_ticks as int, final_rx as int, 3_000)
                &&& progress->command->packet == report
                &&& exchange.responder_next(
                    progress->stage,
                    Reply::Sent(sent),
                    tx_antenna_delay,
                ) matches Progress::Over { emit, .. } && emit == Some(report)
            })
        }),
{
    if let Reply::Received(Some((_, arrived))) = reply {
        time::delayed_instant_falls_due(arrived as int, 3_000, 0);
    }
}

/// Whatever goes wrong for an initiator ends the exchange without a report and is named: a
/// transmission that did not take place, a `Response` or a report that did not arrive. Only a
/// `Response` of another exchange passes without a word.
pub proof fn initiator_failures_are_named(
    exchange: Exchange,
    poll_tx: u64,
    other: Reply,
    tx_antenna_delay: u16,
)
    requires
        other is Received,
    ensures
        ({
            let (initiator, responder) = (exchange.initiator, exchange.responder);
            let ends = |stage: InitiatorStage, reply: Reply, note: Option<FixtureEvent>|
                exchange.initiator_next(stage, reply, tx_antenna_delay) == (Progress::<
                    InitiatorStage,
                >::Over { note, emit: None });
            &&& ends(
                InitiatorStage::PollQueued { poll_tx },
                Reply::Sent(None),
                Some(FixtureEvent::PollTxMiss { initiator, responder }),
            )
            &&& ends(
                InitiatorStage::FinalQueued,
                Reply::Sent(None),
                Some(FixtureEvent::FinalTxMiss { initiator, responder }),
            )
            &&& !(other matches Reply::Received(Some((CalibrationPacket::Response { .. }, _))))
                ==> ends(
                InitiatorStage::AwaitingResponse { poll_tx },
                other,
                Some(FixtureEvent::ResponseMiss { initiator, responder }),
            )
            &&& other matches Reply::Received(
                Some((CalibrationPacket::Response { initiator_id, responder_id, sequence, .. }, _)),
            ) ==> initiator_id != initiator || responder_id != responder || sequence
                != exchange.sequence ==> ends(
                InitiatorStage::AwaitingResponse { poll_tx },
                other,
                None,
            )
            &&& !(other matches Reply::Received(
                Some((CalibrationPacket::Report { initiator_id, responder_id, sequence, .. }, _)),
            ) && initiator_id == initiator && responder_id == responder && sequence
                == exchange.sequence) ==> ends(
                InitiatorStage::AwaitingReport,
                other,
                Some(FixtureEvent::ReportMiss { initiator, responder }),
            )
        }),
{
}

/// Whatever goes wrong for a responder before its report ends the exchange without one and is
/// named: a transmission that did not take place, a `Poll` or a `Final` that did not arrive, or six
/// timestamps that describe no distance. Only frames of another exchange pass without a word.
pub proof fn responder_failures_are_named(
    exchange: Exchange,
    poll_tx: u64,
    poll_rx: u64,
    response_tx: u64,
    other: Reply,
    tx_antenna_delay: u16,
)
    requires
        other is Received,
    ensures
        ({
            let (initiator, responder) = (exchange.initiator, exchange.responder);
            let ends = |stage: ResponderStage, reply: Reply, note: Option<FixtureEvent>|
                exchange.responder_next(stage, reply, tx_antenna_delay) == (Progress::<
                    ResponderStage,
                >::Over { note, emit: None });
            let closing = ResponderStage::AwaitingFinal { poll_tx, poll_rx, response_tx };
            &&& ends(
                ResponderStage::ResponseQueued { poll_tx, poll_rx, response_tx },
                Reply::Sent(None),
                Some(FixtureEvent::ResponseTxMiss { initiator, responder }),
            )
            &&& !(other matches Reply::Received(Some((CalibrationPacket::Poll { .. }, _))))
                ==> ends(
                ResponderStage::AwaitingPoll,
                other,
                Some(FixtureEvent::PollMiss { initiator, responder }),
            )
            &&& other matches Reply::Received(
                Some((CalibrationPacket::Poll { initiator_id, responder_id, sequence, .. }, _)),
            ) ==> initiator_id != initiator || responder_id != responder || sequence
                != exchange.sequence ==> ends(ResponderStage::AwaitingPoll, other, None)
            &&& !(other matches Reply::Received(Some((CalibrationPacket::Final { .. }, _))))
                ==> ends(closing, other, Some(FixtureEvent::FinalMiss { initiator, responder }))
            &&& other matches Reply::Received(
                Some(
                    (
                        CalibrationPacket::Final {
                            initiator_id,
                            responder_id,
                            sequence,
                            poll_tx: repeated,
                            response_rx,
                            final_tx,
                        },
                        final_rx,
                    ),
                ),
            ) ==> if initiator_id != initiator || responder_id != responder || sequence
                != exchange.sequence || repeated != poll_tx {
                ends(closing, other, None)
            } else {
                ranging::ds_twr(
                    poll_tx as int,
                    poll_rx as int,
                    response_tx as int,
                    response_rx as int,
                    final_tx as int,
                    final_rx as int,
                ) is None ==> ends(
                    closing,
                    other,
                    Some(FixtureEvent::DistanceInvalid { initiator, responder }),
                )
            }
        }),
{
}

/// Once a frame is out, its sender listens for the answer for seven milliseconds, with everything
/// it has measured so far.
pub proof fn senders_listen_for_the_answer(
    exchange: Exchange,
    poll_tx: u64,
    poll_rx: u64,
    response_tx: u64,
    sent: u64,
    tx_antenna_delay: u16,
)
    ensures
        ({
            let sent = Reply::Sent(Some(sent));
            let listening = Command::Receive { timeout_us: 7_000 };
            &&& exchange.initiator_next(
                InitiatorStage::PollQueued { poll_tx },
                sent,
                tx_antenna_delay,
            ) == (Progress::Next {
                stage: InitiatorStage::AwaitingResponse { poll_tx },
                command: listening,
            })
            &&& exchange.initiator_next(InitiatorStage::FinalQueued, sent, tx_antenna_delay) == (
            Progress::Next { stage: InitiatorStage::AwaitingReport, command: listening })
            &&& exchange.responder_next(
                ResponderStage::ResponseQueued { poll_tx, poll_rx, response_tx },
                sent,
                tx_antenna_delay,
            ) == (Progress::Next {
                stage: ResponderStage::AwaitingFinal { poll_tx, poll_rx, response_tx },
                command: listening,
            })
        }),
{
}

/// A report of the observed exchange is passed on whenever it arrives; anything else is counted as
/// a frame, up to the fourth, and silence gives the number counted so far.
pub proof fn an_observer_counts_what_it_hears(exchange: Exchange, frames_seen: u8, reply: Reply)
    requires
        frames_seen < 4,
        reply is Received,
    ensures
        ({
            let progress = exchange.observer_next(frames_seen, reply);
            let missed = |frames: int|
                progress == (Progress::<u8>::Over {
                    note: Some(
                        FixtureEvent::ObserverReportMiss {
                            initiator: exchange.initiator,
                            responder: exchange.responder,
                            frames_seen: frames as u8,
                        },
                    ),
                    emit: None,
                });
            match reply->Received_0 {
                None => missed(frames_seen as int),
                Some((packet, _)) => if packet matches CalibrationPacket::Report {
                    initiator_id,
                    responder_id,
                    sequence,
                    ..
                } && initiator_id == exchange.initiator && responder_id == exchange.responder
                    && sequence == exchange.sequence {
                    progress == (Progress::<u8>::Over { note: None, emit: Some(packet) })
                } else if frames_seen == 3 {
                    missed(4)
                } else {
                    progress == (Progress::Next {
                        stage: (frames_seen + 1) as u8,
                        command: Command::Receive { timeout_us: 7_000 },
                    })
                },
            }
        }),
{
}

/// A report of its own exchange is passed on by a waiting initiator as it is, whatever distance it
/// tells.
pub proof fn a_report_is_passed_on(
    exchange: Exchange,
    distance_mm: u32,
    ticks: u64,
    tx_antenna_delay: u16,
)
    ensures
        ({
            let report = CalibrationPacket::Report {
                initiator_id: exchange.initiator,
                responder_id: exchange.responder,
                sequence: exchange.sequence,
                distance_mm,
            };
            exchange.initiator_next(
                InitiatorStage::AwaitingReport,
                Reply::Received(Some((report, ticks))),
                tx_antenna_delay,
            ) == (Progress::<InitiatorStage>::Over { note: None, emit: Some(report) })
        }),
{
}

} // verus!
