use packet_play::{
    Action, App, Command, Event, FormattedDuration, InputConfig, Key, Pcap, Player, PlayerError,
    PlayerState, PositionChange, Recording, StateChange,
};

#[test]
fn commands_by_index_and_name() {
    assert_eq!(Command::from(0usize), Command::Play);
    assert_eq!(Command::from(1usize), Command::Pause);
    assert_eq!(Command::from(2usize), Command::Rewind);
    assert_eq!(Command::from(3usize), Command::Seek(0));
    assert_eq!(Command::from(4usize), Command::Quit);
    assert_eq!(Command::from(77usize), Command::Quit);
    assert_eq!(Command::as_vec(), vec!["Play", "Pause", "Rewind", "Quit", "Seek"]);
    assert_eq!(Command::Seek(9).to_string(), "Seek");
    assert_eq!(Command::Rewind.to_string(), "Rewind");
}

#[test]
fn state_labels() {
    assert_eq!(PlayerState::Initial.to_string(), "Ready");
    assert_eq!(PlayerState::Playing.to_string(), "Playing");
    assert_eq!(PlayerState::Paused.to_string(), "Paused");
    assert_eq!(PlayerState::Finished.to_string(), "Finished");
    assert_eq!(PlayerState::Quit.to_string(), "");
}

#[test]
fn event_constructors() {
    assert_eq!(
        Event::position_event(4, 10, 7, 9),
        Event::PlayerPositionChanged(PositionChange {
            position: 5,
            max_position: 10,
            time_position: 7,
            time_total: 9
        })
    );
    assert_eq!(
        Event::state_event(PlayerState::Paused),
        Event::PlayerStateChanged(StateChange { state: PlayerState::Paused })
    );
    assert_eq!(Event::error(PlayerError::PlayerInitError), Event::Error(PlayerError::PlayerInitError));
    let d = PositionChange::default();
    assert_eq!((d.position, d.max_position, d.time_position, d.time_total), (0, 0, 0, 0));
}

#[test]
fn formatted_duration_splits_and_renders() {
    let d = FormattedDuration::new(3_725_000_000_000);
    assert_eq!((d.days, d.hours, d.minutes, d.seconds), (0, 1, 2, 5));
    assert_eq!(d.to_string(), "01:02:05");
    let long = FormattedDuration::new((2 * 86_400 + 3 * 3600 + 4 * 60 + 59) * 1_000_000_000 + 999_999_999);
    assert_eq!((long.days, long.hours, long.minutes, long.seconds), (2, 3, 4, 59));
    assert_eq!(long.to_string(), "2d 03:04:59");
    assert_eq!(FormattedDuration::new(0).to_string(), "00:00:00");
    let many = FormattedDuration::new(123 * 86_400 * 1_000_000_000);
    assert_eq!(many.to_string(), "123d 00:00:00");
}

#[test]
fn actions_and_keys() {
    let actions = Action::iterator();
    assert_eq!(actions.len(), 9);
    assert_eq!(actions[0], Action::MoveLeft);
    assert_eq!(actions[8], Action::Rewind);
    assert_eq!(Action::Quit.key_mapping(), vec![Key::Ctrl('c'), Key::Char('q')]);
    assert_eq!(Action::from_key(&Key::Char('q')), Some(Action::Quit));
    assert_eq!(Action::from_key(&Key::Char(' ')), Some(Action::PlayPause));
    assert_eq!(Action::from_key(&Key::Tab), Some(Action::CycleArea));
    assert_eq!(Action::from_key(&Key::Left), Some(Action::MoveLeft));
    assert_eq!(Action::from_key(&Key::Char('x')), None);
    assert_eq!(Action::from_key(&Key::Esc), None);
    assert_eq!(Action::PlayPause.to_string(), "Play/Pause");
    assert_eq!(Action::CycleArea.to_string(), "Change Area");
    let c = InputConfig::default();
    assert_eq!(c.exit_key, Key::Ctrl('c'));
    assert_eq!(c.tick_rate, 200);
}

#[test]
fn control_panel_moves_and_sends() {
    let mut app = App::new();
    assert_eq!(app.handle_action(Action::MoveLeft), None);
    assert_eq!(app.selected_button, 0);
    assert_eq!(app.handle_action(Action::Enter), Some(Command::Play));
    app.handle_action(Action::MoveRight);
    assert_eq!(app.handle_action(Action::Enter), Some(Command::Pause));
    app.handle_action(Action::MoveRight);
    assert_eq!(app.handle_action(Action::Enter), Some(Command::Rewind));
    app.handle_action(Action::MoveRight);
    app.handle_action(Action::MoveRight);
    assert_eq!(app.selected_button, 3);
    assert!(!app.kill_signal);
    assert_eq!(app.handle_action(Action::Enter), Some(Command::Quit));
    assert!(app.kill_signal);
    assert_eq!(app.handle_action(Action::MoveUp), None);
    assert_eq!(app.handle_action(Action::CycleArea), None);
    assert_eq!(app.handle_action(Action::Rewind), Some(Command::Rewind));
}

#[test]
fn play_pause_follows_engine_state() {
    let mut app = App::new();
    assert_eq!(app.handle_action(Action::PlayPause), Some(Command::Play));
    app.handle_event(Event::PlayerStateChanged(StateChange { state: PlayerState::Playing }));
    assert_eq!(app.handle_action(Action::PlayPause), Some(Command::Pause));
    app.handle_event(Event::PlayerStateChanged(StateChange { state: PlayerState::Paused }));
    assert_eq!(app.handle_action(Action::PlayPause), Some(Command::Play));
    app.handle_event(Event::PlayerStateChanged(StateChange { state: PlayerState::Finished }));
    assert_eq!(app.handle_action(Action::PlayPause), None);
    let mut quitting = App::new();
    assert_eq!(quitting.handle_action(Action::Quit), Some(Command::Quit));
    assert!(quitting.kill_signal);
}

#[test]
fn events_update_front_end() {
    let mut app = App::new();
    let p = PositionChange { position: 2, max_position: 4, time_position: 30_000_000_000, time_total: 120_000_000_000 };
    app.handle_event(Event::PlayerPositionChanged(p));
    assert_eq!(app.current_position, p);
    assert_eq!(app.progress_percent(), 25);
    app.handle_event(Event::PlayerReady);
    assert!(!app.kill_signal);
    app.handle_event(Event::QuitCommanded);
    assert!(app.kill_signal);
    let mut short = App::new();
    short.handle_event(Event::PlayerPositionChanged(PositionChange {
        position: 1,
        max_position: 1,
        time_position: 500_000_000,
        time_total: 900_000_000,
    }));
    assert_eq!(short.progress_percent(), 0);
}

#[test]
fn builder_needs_every_part() {
    let empty = Player::<u8, u8, u8>::builder();
    assert_eq!(empty.build().err(), Some(PlayerError::PlayerInitError));
    let header = vec![0xd4, 0xc3, 0xb2, 0xa1, 2, 0, 4, 0, 0, 0, 0, 0, 0, 0, 0, 0, 0xff, 0xff, 0, 0, 1, 0, 0, 0];
    let missing_ttl = Player::<u8, u8, u8>::builder()
        .recording(Recording::Pcap(Pcap::parse(&header).unwrap()))
        .destination(1)
        .source_port(2)
        .cmd_rx(3)
        .event_tx(4);
    assert_eq!(missing_ttl.build().err(), Some(PlayerError::PlayerInitError));
    let player = Player::<u8, u8, u8>::builder()
        .recording(Recording::Pcap(Pcap::parse(&header).unwrap()))
        .destination(1)
        .source_port(2)
        .ttl(64)
        .cmd_rx(3)
        .event_tx(4)
        .build()
        .ok()
        .unwrap();
    assert_eq!((player.destination, player.source_port, player.ttl, player.cmd_rx, player.event_tx), (1, 2, 64, 3, 4));
}
