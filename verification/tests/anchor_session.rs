//! An anchor's superframe loop, step by step.

use dropbot::anchor::session::{
    Command, Phase, Reply, Session, Stats, Step, POLL_WINDOW_US, REPORT_EVERY_SUPERFRAMES,
};
use dropbot::uwb::packet::Packet;
use dropbot::uwb::schedule::{ACTIVE_TAG_COUNT, ANCHOR_IDS, SUPERFRAME_US, TAG_IDS};
use dropbot::uwb::time::{delayed_after, delayed_tx_timestamp, elapsed};

const TX_DELAY: u16 = 16_385;

fn only(command: Command) -> Step {
    Step { report: None, command }
}

/// Takes an anchor that is asleep before the first slot through a superframe without polls.
fn quiet_superframe(session: &mut Session) -> Step {
    for tag in 0..ACTIVE_TAG_COUNT {
        assert_eq!(
            session.step(Reply::Waited),
            only(Command::Receive { timeout_us: POLL_WINDOW_US })
        );
        let step = session.step(Reply::Received(None));
        if tag + 1 < ACTIVE_TAG_COUNT {
            let opens = 3_000 + 5_480 * (tag as u32 + 1);
            assert_eq!(step, only(Command::WaitUntil { after_sync_us: opens - 1_500 }));
        } else {
            return step;
        }
    }
    unreachable!()
}

fn sync_command(sequence: u16, at_ticks: u64) -> Command {
    Command::Send {
        packet: Packet::Sync { sequence, sync_tx: delayed_tx_timestamp(at_ticks, TX_DELAY) },
        at_ticks,
        wait_us: 72_260,
    }
}

#[test]
fn the_masters_grid_never_drifts() {
    let (mut session, first) = Session::run(0, TX_DELAY, Stats::new());
    assert_eq!(first, only(Command::ReadClock));
    let now = 123_456_789;
    let mut at = delayed_after(now, 1_500);
    assert_eq!(session.step(Reply::Clock(Some(now))), only(sync_command(0, at)));
    for sequence in 1..6u16 {
        // However late the radio reports the transmission, the next one stays on the grid.
        let actual = at + 16_385 + u64::from(sequence) * 1_000;
        assert_eq!(
            session.step(Reply::Sent(Some(actual))),
            only(Command::WaitUntil { after_sync_us: 1_500 })
        );
        let next = delayed_after(at, SUPERFRAME_US);
        assert_eq!(elapsed(next, at) % 512, 0);
        assert_eq!(elapsed(next, at), 4_521_394_176);
        assert_eq!(quiet_superframe(&mut session), only(sync_command(sequence, next)));
        at = next;
    }
    assert_eq!(session.stats.superframes, 6);
    assert_eq!(session.stats.sync_tx_failed, 0);
}

#[test]
fn a_failed_sync_gives_the_grid_up() {
    let (mut session, _) = Session::run(0, TX_DELAY, Stats::new());
    assert_eq!(session.step(Reply::Clock(None)), only(Command::ReadClock));
    assert_eq!(session.stats.sync_tx_failed, 1);
    assert_eq!(session.stats.superframes, 2);
    let at = delayed_after(0, 1_500);
    assert_eq!(session.step(Reply::Clock(Some(0))), only(sync_command(0, at)));
    assert_eq!(session.step(Reply::Sent(None)), only(Command::ReadClock));
    assert_eq!(session.position.next_sync_ticks, None);
    assert_eq!(session.stats.sync_tx_failed, 2);
    assert_eq!(session.stats.superframes, 3);
}

#[test]
fn a_slave_answers_polls_in_its_subslot() {
    let (mut session, first) = Session::run(2, TX_DELAY, Stats::new());
    let listen = only(Command::Receive { timeout_us: SUPERFRAME_US });
    assert_eq!(first, listen);
    // Anything but a Sync counts as none.
    let poll = Packet::Poll { tag_id: TAG_IDS[0], sequence: 5, poll_tx: 1 };
    assert_eq!(session.step(Reply::Received(Some((poll, 2)))), listen);
    assert_eq!(session.step(Reply::Received(None)), listen);
    assert_eq!(session.stats.missed_sync, 2);

    let sync = Packet::Sync { sequence: 5, sync_tx: 100 };
    let base = 1_000_000;
    assert_eq!(
        session.step(Reply::Received(Some((sync, base)))),
        only(Command::WaitUntil { after_sync_us: 1_500 })
    );
    assert_eq!(session.position.sequence, 5);
    session.step(Reply::Waited);
    let poll_rx = 200_000_000;
    assert_eq!(
        session.step(Reply::Received(Some((poll, poll_rx)))),
        only(Command::MeasureSince { ticks: poll_rx })
    );
    // Anchor 2 in superframe 5 has sub-slot 3.
    let at = delayed_after(base, 3_000 + 280 + 800 + 3_000);
    assert_eq!(
        session.step(Reply::Elapsed(Some(321))),
        only(Command::Send {
            packet: Packet::Response {
                anchor_id: ANCHOR_IDS[2],
                tag_id: TAG_IDS[0],
                sequence: 5,
                poll_rx,
                response_tx: delayed_tx_timestamp(at, TX_DELAY),
                master_offset: 999_900,
            },
            at_ticks: at,
            wait_us: 7_080,
        })
    );
    assert_eq!(
        session.step(Reply::Sent(Some(at))),
        only(Command::WaitUntil { after_sync_us: 6_980 })
    );
    assert_eq!(session.stats.polls_seen, 1);
    assert_eq!(session.stats.responses_sent, 1);
    assert_eq!(session.stats.max_response_setup_us, 321);

    // The second slot's response misses its instant; its setup was faster.
    session.step(Reply::Waited);
    let poll = Packet::Poll { tag_id: TAG_IDS[1], sequence: 5, poll_tx: 1 };
    session.step(Reply::Received(Some((poll, poll_rx))));
    session.step(Reply::Elapsed(Some(300)));
    session.step(Reply::Sent(None));
    assert_eq!(session.stats.max_response_setup_us, 321);
    assert_eq!(session.stats.response_tx_failed, [0, 0, 0, 1]);
}

#[test]
fn only_the_robot_whose_slot_it_is_is_answered() {
    let (mut session, _) = Session::run(1, TX_DELAY, Stats::new());
    let sync = Packet::Sync { sequence: 9, sync_tx: 0 };
    session.step(Reply::Received(Some((sync, 0))));
    let foreign = [
        Packet::Poll { tag_id: TAG_IDS[1], sequence: 9, poll_tx: 0 },
        Packet::Poll { tag_id: TAG_IDS[1], sequence: 8, poll_tx: 0 },
        Packet::Sync { sequence: 9, sync_tx: 0 },
    ];
    for (slot, packet) in foreign.into_iter().enumerate() {
        session.step(Reply::Waited);
        let step = session.step(Reply::Received(Some((packet, 7))));
        assert_eq!(
            step,
            only(Command::WaitUntil { after_sync_us: 3_000 + 5_480 * (slot as u32 + 1) - 1_500 })
        );
    }
    assert_eq!(session.stats.polls_seen, 0);
}

#[test]
fn counters_are_reported_every_hundred_superframes() {
    let mut stats = Stats::new();
    stats.superframes = REPORT_EVERY_SUPERFRAMES - 1;
    stats.responses_sent = 77;
    let (mut session, _) = Session::run(3, TX_DELAY, stats);
    assert_eq!(session.stats.superframes, REPORT_EVERY_SUPERFRAMES);
    let sync = Packet::Sync { sequence: 0xFFFF, sync_tx: 0 };
    session.step(Reply::Received(Some((sync, 0))));
    let step = quiet_superframe(&mut session);
    let report = step.report.unwrap();
    assert_eq!(report.superframes, 100);
    assert_eq!(report.responses_sent, 77);
    assert_eq!(step.command, Command::Receive { timeout_us: SUPERFRAME_US });
    assert_eq!(session.position.sequence, 0);
    assert_eq!(session.position.phase, Phase::AwaitingSync);
    let mut fresh = Stats::new();
    fresh.superframes = 1;
    assert_eq!(session.stats, fresh);
}

#[test]
fn full_counters_are_noticed() {
    let mut stats = Stats::new();
    assert!(stats.has_room());
    stats.response_tx_failed[3] = u32::MAX;
    assert!(!stats.has_room());
    stats.response_tx_failed[3] = 0;
    stats.superframes = u32::MAX;
    assert!(!stats.has_room());
}
