//! The fixture's exchanges and superframes, step by step.

use dropbot::fixture::exchange::{
    Command, Exchange, FixtureEvent, InitiatorStage, Progress, Reply, ResponderStage,
};
use dropbot::fixture::node::{
    find_pair, next_sequence, sync_instant, synchronized_by_receiving, synchronized_by_sending,
    FixtureLog,
};
use dropbot::fixture::schedule::{NODE_IDS, RX_WINDOW_US};
use dropbot::fixture::superframe::{run_superframe, Stage, Step, Superframe};
use dropbot::uwb::calibration_packet::CalibrationPacket;
use dropbot::uwb::ranging::distance_mm_ds_twr;
use dropbot::uwb::time::{delayed_after, delayed_tx_timestamp, ticks_from_us};

const DELAY: u16 = 16_385;

const PAIR: Exchange = Exchange { initiator: 0xC001, responder: 0xC002, sequence: 5 };

fn heard(packet: CalibrationPacket, at: u64) -> Reply {
    Reply::Received(Some((packet, at)))
}

fn sent_packet(command: Command) -> (CalibrationPacket, u64) {
    match command {
        Command::Send { packet, at_ticks } => (packet, at_ticks),
        other => panic!("expected a transmission, got {other:?}"),
    }
}

#[test]
fn a_lossless_exchange_ends_with_the_same_report_on_both_sides() {
    let tof = 213u64;
    let skew = 700_000_000u64;
    let (queued, poll) = PAIR.open(1_000_000, 6_000, DELAY);
    let (poll_packet, poll_at) = sent_packet(poll);
    assert_eq!(poll_at, delayed_after(1_000_000, 6_000));
    let poll_tx = delayed_tx_timestamp(poll_at, DELAY);
    let poll_rx = poll_tx + tof + skew;

    let Progress::Next { stage: responding, command } =
        PAIR.respond(ResponderStage::AwaitingPoll, heard(poll_packet, poll_rx), DELAY)
    else {
        panic!("the responder must answer");
    };
    let (response, response_at) = sent_packet(command);
    assert_eq!(response_at, delayed_after(poll_rx, 5_000));
    let response_tx = delayed_tx_timestamp(response_at, DELAY);
    let response_rx = response_tx + tof - skew;

    let Progress::Next { stage: waiting, .. } = PAIR.initiate(queued, Reply::Sent(Some(1)), DELAY)
    else {
        panic!("the initiator must listen");
    };
    let Progress::Next { stage: closing, command } =
        PAIR.initiate(waiting, heard(response, response_rx), DELAY)
    else {
        panic!("the initiator must close");
    };
    let (last, final_at) = sent_packet(command);
    let final_tx = delayed_tx_timestamp(final_at, DELAY);
    let final_rx = final_tx + tof + skew;

    let Progress::Next { stage: expecting, .. } =
        PAIR.respond(responding, Reply::Sent(Some(2)), DELAY)
    else {
        panic!("the responder must listen");
    };
    let Progress::Next { stage: reporting, command } =
        PAIR.respond(expecting, heard(last, final_rx), DELAY)
    else {
        panic!("the responder must report");
    };
    let (report, report_at) = sent_packet(command);
    assert_eq!(report_at, delayed_after(final_rx, 3_000));
    let distance =
        distance_mm_ds_twr(poll_tx, poll_rx, response_tx, response_rx, final_tx, final_rx)
            .unwrap();
    assert!((990..=1_010).contains(&distance));
    assert_eq!(
        report,
        CalibrationPacket::Report {
            initiator_id: 0xC001,
            responder_id: 0xC002,
            sequence: 5,
            distance_mm: distance,
        }
    );
    assert_eq!(
        PAIR.respond(reporting, Reply::Sent(Some(3)), DELAY),
        Progress::Over { note: None, emit: Some(report) }
    );
    let Progress::Next { stage: done, .. } = PAIR.initiate(closing, Reply::Sent(Some(4)), DELAY)
    else {
        panic!("the initiator must wait for the report");
    };
    assert_eq!(done, InitiatorStage::AwaitingReport);
    assert_eq!(
        PAIR.initiate(done, heard(report, 9), DELAY),
        Progress::Over { note: None, emit: Some(report) }
    );

    // The coordinator hears all four frames.
    let mut seen = 0;
    for packet in [poll_packet, response, last] {
        match PAIR.observe(seen, heard(packet, 1)) {
            Progress::Next { stage, command } => {
                assert_eq!(command, Command::Receive { timeout_us: RX_WINDOW_US });
                seen = stage;
            }
            other => panic!("expected to go on listening, got {other:?}"),
        }
    }
    assert_eq!(
        PAIR.observe(seen, heard(report, 1)),
        Progress::Over { note: None, emit: Some(report) }
    );
}

#[test]
fn each_lost_frame_has_its_own_diagnostic() {
    let initiator = 0xC001;
    let responder = 0xC002;
    let over = |event| Progress::Over { note: Some(event), emit: None };
    assert_eq!(
        PAIR.initiate(InitiatorStage::PollQueued { poll_tx: 1 }, Reply::Sent(None), DELAY),
        over(FixtureEvent::PollTxMiss { initiator, responder })
    );
    assert_eq!(
        PAIR.initiate(
            InitiatorStage::AwaitingResponse { poll_tx: 1 },
            Reply::Received(None),
            DELAY
        ),
        over(FixtureEvent::ResponseMiss { initiator, responder })
    );
    assert_eq!(
        PAIR.initiate(InitiatorStage::FinalQueued, Reply::Sent(None), DELAY),
        over(FixtureEvent::FinalTxMiss { initiator, responder })
    );
    assert_eq!(
        PAIR.initiate(InitiatorStage::AwaitingReport, Reply::Received(None), DELAY),
        over(FixtureEvent::ReportMiss { initiator, responder })
    );
    let over = |event| Progress::Over { note: Some(event), emit: None };
    assert_eq!(
        PAIR.respond(ResponderStage::AwaitingPoll, Reply::Received(None), DELAY),
        over(FixtureEvent::PollMiss { initiator, responder })
    );
    let queued = ResponderStage::ResponseQueued { poll_tx: 1, poll_rx: 2, response_tx: 3 };
    assert_eq!(
        PAIR.respond(queued, Reply::Sent(None), DELAY),
        over(FixtureEvent::ResponseTxMiss { initiator, responder })
    );
    let waiting = ResponderStage::AwaitingFinal { poll_tx: 1, poll_rx: 2, response_tx: 3 };
    assert_eq!(
        PAIR.respond(waiting, Reply::Received(None), DELAY),
        over(FixtureEvent::FinalMiss { initiator, responder })
    );
    // Six equal timestamps span nothing.
    let still = ResponderStage::AwaitingFinal { poll_tx: 7, poll_rx: 7, response_tx: 7 };
    let last = CalibrationPacket::Final {
        initiator_id: initiator,
        responder_id: responder,
        sequence: 5,
        poll_tx: 7,
        response_rx: 7,
        final_tx: 7,
    };
    assert_eq!(
        PAIR.respond(still, heard(last, 7), DELAY),
        over(FixtureEvent::DistanceInvalid { initiator, responder })
    );
}

#[test]
fn a_report_that_could_not_be_sent_is_still_passed_on() {
    let report = CalibrationPacket::Report {
        initiator_id: 0xC001,
        responder_id: 0xC002,
        sequence: 5,
        distance_mm: 1_234,
    };
    assert_eq!(
        PAIR.respond(ResponderStage::ReportQueued { distance_mm: 1_234 }, Reply::Sent(None), DELAY),
        Progress::Over {
            note: Some(FixtureEvent::ReportTxMiss { initiator: 0xC001, responder: 0xC002 }),
            emit: Some(report),
        }
    );
}

#[test]
fn frames_of_other_exchanges_end_one_silently() {
    let response = CalibrationPacket::Response {
        initiator_id: 0xC001,
        responder_id: 0xC003,
        sequence: 5,
        poll_rx: 1,
        response_tx: 2,
    };
    assert_eq!(
        PAIR.initiate(
            InitiatorStage::AwaitingResponse { poll_tx: 1 },
            heard(response, 10),
            DELAY
        ),
        Progress::Over { note: None, emit: None }
    );
    let poll = CalibrationPacket::Poll {
        initiator_id: 0xC001,
        responder_id: 0xC002,
        sequence: 6,
        poll_tx: 1,
    };
    assert_eq!(
        PAIR.respond(ResponderStage::AwaitingPoll, heard(poll, 10), DELAY),
        Progress::Over { note: None, emit: None }
    );
    let last = CalibrationPacket::Final {
        initiator_id: 0xC001,
        responder_id: 0xC002,
        sequence: 5,
        poll_tx: 2,
        response_rx: 3,
        final_tx: 4,
    };
    let waiting = ResponderStage::AwaitingFinal { poll_tx: 1, poll_rx: 2, response_tx: 3 };
    assert_eq!(
        PAIR.respond(waiting, heard(last, 10), DELAY),
        Progress::Over { note: None, emit: None }
    );
}

#[test]
fn the_observer_gives_up_after_four_frames_or_an_empty_window() {
    let noise = CalibrationPacket::Sync { sequence: 1 };
    let miss = |frames_seen| Progress::Over {
        note: Some(FixtureEvent::ObserverReportMiss {
            initiator: 0xC001,
            responder: 0xC002,
            frames_seen,
        }),
        emit: None,
    };
    assert_eq!(PAIR.observe(3, heard(noise, 1)), miss(4));
    assert_eq!(PAIR.observe(2, Reply::Received(None)), miss(2));
}

/// Runs a node through a superframe in which nothing is ever heard or sent.
fn silent_run(node: usize) -> (Vec<u32>, Vec<FixtureEvent>) {
    let (mut superframe, mut step) = run_superframe(node, DELAY, Some((9, 50_000))).unwrap();
    let mut waits = Vec::new();
    let mut notes = Vec::new();
    for _ in 0..40 {
        if let Some(note) = step.note {
            notes.push(note);
        }
        assert_eq!(step.emit, None);
        step = match step.command {
            Command::WaitUntilOffset { offset_us } => {
                waits.push(offset_us);
                superframe.step(Reply::Waited)
            }
            Command::Send { .. } => superframe.step(Reply::Sent(None)),
            Command::Receive { .. } => superframe.step(Reply::Received(None)),
            Command::Done => {
                assert_eq!(superframe.stage, Stage::Finished);
                return (waits, notes);
            }
        };
    }
    panic!("a superframe must end");
}

#[test]
fn a_silent_superframe_ends_with_a_diagnostic_per_slot() {
    let (waits, notes) = silent_run(0);
    assert_eq!(waits, vec![4_000, 22_000, 40_000, 58_000, 76_000, 94_000]);
    assert_eq!(
        notes,
        vec![
            FixtureEvent::Synchronized { sequence: 9 },
            FixtureEvent::PollTxMiss { initiator: 0xC001, responder: 0xC002 },
            FixtureEvent::PollMiss { initiator: 0xC002, responder: 0xC001 },
            FixtureEvent::PollTxMiss { initiator: 0xC001, responder: 0xC003 },
            FixtureEvent::PollMiss { initiator: 0xC003, responder: 0xC001 },
            FixtureEvent::ObserverReportMiss {
                initiator: 0xC002,
                responder: 0xC003,
                frames_seen: 0,
            },
            FixtureEvent::ObserverReportMiss {
                initiator: 0xC003,
                responder: 0xC002,
                frames_seen: 0,
            },
        ]
    );
    // Node 1 skips the two slots it has no part in.
    let (waits, notes) = silent_run(1);
    assert_eq!(waits.len(), 6);
    assert_eq!(notes.len(), 5);
}

#[test]
fn a_node_without_a_sync_sits_the_superframe_out() {
    assert_eq!(run_superframe(0, DELAY, None), None);
    let (superframe, step) = run_superframe(2, 1, Some((7, 8))).unwrap();
    assert_eq!(
        superframe,
        Superframe {
            node: 2,
            tx_antenna_delay: 1,
            sequence: 7,
            base_ticks: 8,
            slot: 0,
            stage: Stage::Asleep,
        }
    );
    assert_eq!(
        step,
        Step {
            note: Some(FixtureEvent::Synchronized { sequence: 7 }),
            emit: None,
            command: Command::WaitUntilOffset { offset_us: 4_000 },
        }
    );
}

#[test]
fn synchronization_takes_the_sync_frame_only() {
    assert_eq!(sync_instant(0), ticks_from_us(1_500) & !0x1FF);
    assert_eq!(synchronized_by_sending(3, Some(10)), Some((3, 10)));
    assert_eq!(synchronized_by_sending(3, None), None);
    let sync = CalibrationPacket::Sync { sequence: 12 };
    assert_eq!(synchronized_by_receiving(Some((sync, 77))), Some((12, 77)));
    let report = CalibrationPacket::Report {
        initiator_id: 1,
        responder_id: 2,
        sequence: 3,
        distance_mm: 4,
    };
    assert_eq!(synchronized_by_receiving(Some((report, 77))), None);
    assert_eq!(synchronized_by_receiving(None), None);
    assert_eq!(next_sequence(0xFFFF, true), 0);
    assert_eq!(next_sequence(5, false), 5);
}

#[test]
fn the_log_counts_reports_per_pair() {
    let report = |initiator: usize, responder: usize| CalibrationPacket::Report {
        initiator_id: NODE_IDS[initiator],
        responder_id: NODE_IDS[responder],
        sequence: 1,
        distance_mm: 2_000,
    };
    let mut log = FixtureLog::new();
    assert_eq!(log.emit(report(2, 0)), Some(1));
    for _ in 2..100 {
        assert_eq!(log.emit(report(2, 0)), None);
    }
    assert_eq!(log.emit(report(2, 0)), Some(100));
    assert_eq!(log.emit(report(0, 1)), Some(1));
    assert_eq!(log.sample_counts, [1, 0, 0, 100, 0, 0]);
    assert_eq!(log.emit(CalibrationPacket::Sync { sequence: 1 }), None);
    assert_eq!(find_pair(0xC003, 0xC001), Some(3));
    assert_eq!(find_pair(0xC003, 0xC003), None);
}

#[test]
fn the_log_reports_failures_sparingly() {
    let mut log = FixtureLog::new();
    let miss = FixtureEvent::PollMiss { initiator: 1, responder: 2 };
    let loud: Vec<u32> = (0..1_000).filter_map(|_| log.note(miss)).collect();
    let mut expected: Vec<u32> = (1..=18).collect();
    expected.extend([500, 1_000]);
    assert_eq!(loud, expected);
    assert_eq!(log.note(FixtureEvent::Synchronized { sequence: 1 }), Some(1));
    assert_eq!(log.note(FixtureEvent::Synchronized { sequence: 2 }), None);
    assert_eq!(log.synchronized_frames, 2);
    assert_eq!(log.diagnostic_failures, 1_000);
}
