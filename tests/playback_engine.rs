use packet_play::{
    pacing_delay, udp_payload, Command, Event, Pcap, PcapNG, Playback, PlayerError, PlayerState,
    Poll, PositionChange, Recording, StateChange, Step,
};

const MS: u64 = 1_000_000;

fn frame(tag: u8) -> Vec<u8> {
    let mut f = vec![0u8; 43];
    f.extend_from_slice(&[tag, tag + 1, tag + 2]);
    f
}

/// A little-endian microsecond capture with records at the given offsets, in
/// microseconds, from 1000 s.
fn capture(offsets_us: &[u32]) -> Vec<u8> {
    let mut b = vec![0xd4, 0xc3, 0xb2, 0xa1, 2, 0, 4, 0, 0, 0, 0, 0, 0, 0, 0, 0, 0xff, 0xff, 0, 0, 1, 0, 0, 0];
    for (i, us) in offsets_us.iter().enumerate() {
        let secs = 1000 + us / 1_000_000;
        let frac = us % 1_000_000;
        let data = frame(10 * i as u8);
        b.extend_from_slice(&secs.to_le_bytes());
        b.extend_from_slice(&frac.to_le_bytes());
        b.extend_from_slice(&(data.len() as u32).to_le_bytes());
        b.extend_from_slice(&(data.len() as u32).to_le_bytes());
        b.extend_from_slice(&data);
    }
    b
}

fn engine(offsets_us: &[u32]) -> Playback {
    let p = Pcap::parse(&capture(offsets_us)).unwrap();
    Playback::new(Recording::Pcap(p)).ok().unwrap()
}

fn state(s: PlayerState) -> Event {
    Event::PlayerStateChanged(StateChange { state: s })
}

fn position(position: usize, max_position: usize, time_position: u64, time_total: u64) -> Event {
    Event::PlayerPositionChanged(PositionChange { position, max_position, time_position, time_total })
}

fn has_position(events: &[Event]) -> bool {
    events.iter().any(|e| matches!(e, Event::PlayerPositionChanged(_)))
}

#[test]
fn startup_announces_ready_state_and_position() {
    let e = engine(&[0, 100_000, 250_000]);
    assert_eq!(e.state(), PlayerState::Initial);
    assert_eq!(e.len(), 3);
    assert_eq!(e.total_duration(), 250 * MS);
    assert_eq!(
        e.startup_events(),
        vec![Event::PlayerReady, state(PlayerState::Initial), position(0, 3, 0, 250 * MS)]
    );
}

#[test]
fn segment_recording_cannot_be_played() {
    let r = Playback::new(Recording::PcapNg(PcapNG { placeholder: 0 }));
    assert_eq!(r.err(), Some(PlayerError::PlayerInitError));
}

#[test]
fn three_records_play_in_time_then_finish() {
    let mut e = engine(&[0, 100_000, 250_000]);
    assert_eq!(e.apply(Poll::Received(Command::Play)), vec![state(PlayerState::Playing)]);
    assert_eq!(
        e.advance(),
        Step::Transmit { index: 0, delay: 0, event: position(1, 3, 0, 250 * MS) }
    );
    assert_eq!(e.apply(Poll::Empty), vec![]);
    assert_eq!(
        e.advance(),
        Step::Transmit { index: 1, delay: 100 * MS, event: position(2, 3, 100 * MS, 250 * MS) }
    );
    assert_eq!(e.apply(Poll::Empty), vec![]);
    let third = e.advance();
    assert_eq!(
        third,
        Step::Transmit { index: 2, delay: 150 * MS, event: position(3, 3, 250 * MS, 250 * MS) }
    );
    if let Step::Transmit { event: Event::PlayerPositionChanged(p), .. } = third {
        assert_eq!(p.position, p.max_position);
    }
    assert_eq!(e.apply(Poll::Empty), vec![]);
    assert_eq!(e.advance(), Step::Finished(state(PlayerState::Finished)));
    assert_eq!(e.state(), PlayerState::Finished);
    // Finished stays quiet.
    for _ in 0..3 {
        assert_eq!(e.apply(Poll::Empty), vec![]);
        assert_eq!(e.advance(), Step::Idle);
    }
}

#[test]
fn payload_strips_headers() {
    let e = engine(&[0, 10]);
    assert_eq!(e.payload(0), Some(&[0u8, 1, 2][..]));
    assert_eq!(e.payload(1), Some(&[10u8, 11, 12][..]));
    assert_eq!(e.payload(2), None);
    let short = [1u8, 2, 3];
    assert_eq!(udp_payload(&short), &[] as &[u8]);
    let exact = [7u8; 43];
    assert_eq!(udp_payload(&exact), &[] as &[u8]);
    let mut longer = vec![0u8; 43];
    longer.push(99);
    assert_eq!(udp_payload(&longer), &[99u8][..]);
}

#[test]
fn pacing_subtracts_time_spent() {
    assert_eq!(pacing_delay(100 * MS, 3 * MS), 97 * MS);
    assert_eq!(pacing_delay(100 * MS, 100 * MS), 0);
    assert_eq!(pacing_delay(5, 200), 0);
}

#[test]
fn pause_holds_position_and_time_until_play() {
    let mut e = engine(&[0, 100_000, 250_000]);
    e.apply(Poll::Received(Command::Play));
    e.advance();
    e.apply(Poll::Empty);
    e.advance();
    assert_eq!(e.elapsed(), 100 * MS);
    assert_eq!(e.apply(Poll::Received(Command::Pause)), vec![state(PlayerState::Paused)]);
    for _ in 0..5 {
        assert_eq!(e.advance(), Step::Idle);
        assert_eq!(e.apply(Poll::Empty), vec![]);
    }
    assert_eq!(e.elapsed(), 100 * MS);
    assert_eq!(e.cursor(), 2);
    assert_eq!(e.apply(Poll::Received(Command::Play)), vec![state(PlayerState::Playing)]);
    assert_eq!(
        e.advance(),
        Step::Transmit { index: 2, delay: 150 * MS, event: position(3, 3, 250 * MS, 250 * MS) }
    );
}

#[test]
fn pause_while_paused_publishes_nothing() {
    let mut e = engine(&[0, 1]);
    e.apply(Poll::Received(Command::Pause));
    assert_eq!(e.apply(Poll::Received(Command::Pause)), vec![]);
    assert_eq!(e.advance(), Step::Idle);
}

#[test]
fn play_while_playing_is_a_no_op() {
    let mut e = engine(&[0, 1]);
    e.apply(Poll::Received(Command::Play));
    assert_eq!(e.apply(Poll::Received(Command::Play)), vec![]);
    assert_eq!(e.state(), PlayerState::Playing);
}

#[test]
fn rewind_restores_start_from_any_state() {
    let mut e = engine(&[0, 100_000, 250_000]);
    e.apply(Poll::Received(Command::Play));
    e.advance();
    e.advance();
    e.advance();
    e.advance();
    assert_eq!(e.state(), PlayerState::Finished);
    assert_eq!(
        e.apply(Poll::Received(Command::Rewind)),
        vec![position(0, 3, 0, 250 * MS), state(PlayerState::Initial)]
    );
    assert_eq!(e.cursor(), 0);
    assert_eq!(e.elapsed(), 0);
    assert_eq!(e.state(), PlayerState::Initial);
    // From Initial the state does not change, so only the position is published.
    assert_eq!(e.apply(Poll::Received(Command::Rewind)), vec![position(0, 3, 0, 250 * MS)]);
    e.apply(Poll::Received(Command::Play));
    assert_eq!(
        e.advance(),
        Step::Transmit { index: 0, delay: 0, event: position(1, 3, 0, 250 * MS) }
    );
}

#[test]
fn seek_within_bounds_resumes_from_target() {
    let mut e = engine(&[0, 100_000, 250_000, 400_000]);
    e.apply(Poll::Received(Command::Play));
    e.advance();
    assert_eq!(
        e.apply(Poll::Received(Command::Seek(2))),
        vec![position(3, 4, 250 * MS, 400 * MS), state(PlayerState::Initial)]
    );
    assert_eq!(e.cursor(), 2);
    assert_eq!(e.state(), PlayerState::Initial);
    e.apply(Poll::Received(Command::Play));
    assert_eq!(
        e.advance(),
        Step::Transmit { index: 2, delay: 0, event: position(3, 4, 250 * MS, 400 * MS) }
    );
    assert_eq!(
        e.advance(),
        Step::Transmit { index: 3, delay: 150 * MS, event: position(4, 4, 400 * MS, 400 * MS) }
    );
}

#[test]
fn seek_past_end_is_clamped_to_last_record() {
    let mut e = engine(&[0, 100_000, 250_000]);
    assert_eq!(
        e.apply(Poll::Received(Command::Seek(usize::MAX))),
        vec![position(3, 3, 250 * MS, 250 * MS)]
    );
    assert_eq!(e.cursor(), 2);
    e.apply(Poll::Received(Command::Play));
    assert_eq!(
        e.advance(),
        Step::Transmit { index: 2, delay: 0, event: position(3, 3, 250 * MS, 250 * MS) }
    );
    assert_eq!(e.advance(), Step::Finished(state(PlayerState::Finished)));
}

#[test]
fn seek_on_empty_capture_stays_at_start() {
    let mut e = engine(&[]);
    assert_eq!(e.total_duration(), 0);
    assert_eq!(e.apply(Poll::Received(Command::Seek(4))), vec![position(0, 0, 0, 0)]);
    assert_eq!(e.cursor(), 0);
    e.apply(Poll::Received(Command::Play));
    assert_eq!(e.advance(), Step::Finished(state(PlayerState::Finished)));
}

#[test]
fn finished_publishes_no_progress_until_rewind_or_seek() {
    let mut e = engine(&[0]);
    e.apply(Poll::Received(Command::Play));
    e.advance();
    assert_eq!(e.advance(), Step::Finished(state(PlayerState::Finished)));
    let events = e.apply(Poll::Received(Command::Play));
    assert!(!has_position(&events));
    assert_eq!(e.advance(), Step::Finished(state(PlayerState::Finished)));
    let events = e.apply(Poll::Received(Command::Pause));
    assert!(!has_position(&events));
    assert_eq!(e.advance(), Step::Idle);
    let events = e.apply(Poll::Received(Command::Seek(0)));
    assert!(has_position(&events));
}

#[test]
fn quit_is_acknowledged_once_from_every_state() {
    let setups: Vec<Vec<Command>> = vec![
        vec![],
        vec![Command::Play],
        vec![Command::Pause],
        vec![Command::Play, Command::Play, Command::Play],
        vec![Command::Quit],
    ];
    for setup in setups {
        let mut e = engine(&[0, 5]);
        for c in setup {
            e.apply(Poll::Received(c));
            e.advance();
        }
        let before = e.state();
        let events = e.apply(Poll::Received(Command::Quit));
        assert!(!events.contains(&Event::QuitCommanded));
        if before == PlayerState::Quit {
            assert_eq!(events, vec![]);
        } else {
            assert_eq!(events, vec![state(PlayerState::Quit)]);
        }
        assert_eq!(e.advance(), Step::Exit(Event::QuitCommanded));
    }
}

#[test]
fn lost_command_channel_reports_error_and_quits() {
    let mut e = engine(&[0, 5]);
    assert_eq!(
        e.apply(Poll::Disconnected),
        vec![Event::Error(PlayerError::CommandChannelError), state(PlayerState::Quit)]
    );
    assert_eq!(e.advance(), Step::Exit(Event::QuitCommanded));
}

#[test]
fn every_command_has_a_next_state() {
    let commands = [Command::Play, Command::Pause, Command::Rewind, Command::Seek(1), Command::Quit];
    let expected = [
        PlayerState::Playing,
        PlayerState::Paused,
        PlayerState::Initial,
        PlayerState::Initial,
        PlayerState::Quit,
    ];
    let prefixes: Vec<Vec<Command>> =
        vec![vec![], vec![Command::Play], vec![Command::Pause], vec![Command::Play, Command::Play, Command::Play]];
    for prefix in prefixes {
        for (c, s) in commands.iter().zip(expected.iter()) {
            let mut e = engine(&[0, 5]);
            for p in &prefix {
                e.apply(Poll::Received(*p));
                e.advance();
            }
            e.apply(Poll::Received(*c));
            assert_eq!(e.state(), *s);
        }
    }
}
