use vstd::prelude::*;

use crate::commands::Command;
use crate::events::{Event, PlayerError, PositionChange, StateChange};
use crate::pcap::{
    CaptureView, Pcap, ETHERNET_HEADER_LENGTH_BYTES, IP_HEADER_LENGTH_BYTES,
    UDP_HEADER_LENGTH_BYTES,
};
use crate::recording::Recording;
use crate::timestamp::{duration_from_timestamp, lemma_timestamp_fits, record_timestamp};

verus! {

/// Bytes cut from the front of each captured frame before it is sent: the
/// link, network and transport headers, and one more.
pub const STRIP_HEADERS_INDEX: usize = ETHERNET_HEADER_LENGTH_BYTES + IP_HEADER_LENGTH_BYTES
    + UDP_HEADER_LENGTH_BYTES + 1;

/// The state of the playback engine.
#[derive(Clone, Copy, Debug, PartialEq, Eq, Structural)]
pub enum PlayerState {
    Initial,
    Playing,
    Paused,
    Finished,
    Quit,
}

/// The label of a state as a front end shows it.
pub open spec fn state_label(s: PlayerState) -> Seq<char> {
    match s {
        PlayerState::Initial => "Ready"@,
        PlayerState::Playing => "Playing"@,
        PlayerState::Paused => "Paused"@,
        PlayerState::Finished => "Finished"@,
        PlayerState::Quit => Seq::empty(),
    }
}

impl PlayerState {
    /// The label of this state as a front end shows it.
    pub fn to_string(&self) -> (r: String)
        ensures
            r@ == state_label(*self),
    {
        match self {
            PlayerState::Initial => String::from_str("Ready"),
            PlayerState::Playing => String::from_str("Playing"),
            PlayerState::Paused => String::from_str("Paused"),
            PlayerState::Finished => String::from_str("Finished"),
            PlayerState::Quit => String::new(),
        }
    }
}

/// What a non-blocking look at the command channel found.
#[derive(Clone, Copy, Debug, PartialEq, Eq, Structural)]
pub enum Poll {
    /// No command was waiting.
    Empty,
    /// This command was taken from the channel.
    Received(Command),
    /// Every sender of commands has gone.
    Disconnected,
}

/// What the engine asks its driver to do in the second half of a tick.
#[derive(Clone, Copy, Debug, PartialEq, Eq, Structural)]
pub enum Step {
    /// Nothing to send.
    Idle,
    /// Wait `delay` nanoseconds less the time spent since the previous
    /// transmission, send the payload of record `index`, then publish `event`.
    Transmit { index: usize, delay: u64, event: Event },
    /// The last record has been sent: publish the event.
    Finished(Event),
    /// Publish the event and stop the engine.
    Exit(Event),
}

/// The part of a frame that is sent: what follows the stripped headers, and
/// nothing where the frame is shorter than those.
pub open spec fn payload_of(frame: Seq<u8>) -> Seq<u8> {
    if frame.len() >= STRIP_HEADERS_INDEX {
        frame.subrange(STRIP_HEADERS_INDEX as int, frame.len() as int)
    } else {
        Seq::empty()
    }
}

/// The payload of a captured frame: the frame without its link, network and
/// transport headers.
pub fn udp_payload(frame: &[u8]) -> (r: &[u8])
    ensures
        r@ == payload_of(frame@),
{
    if frame.len() >= STRIP_HEADERS_INDEX {
        vstd::slice::slice_subrange(frame, STRIP_HEADERS_INDEX, frame.len())
    } else {
        vstd::slice::slice_subrange(frame, 0, 0)
    }
}

/// `a - b`, or 0 where `b` is the larger.
pub open spec fn since(a: nat, b: nat) -> nat {
    if a >= b {
        (a - b) as nat
    } else {
        0
    }
}

/// How long to sleep before a transmission: the recorded gap less the time
/// already spent since the previous one, never below zero.
pub fn pacing_delay(gap: u64, spent: u64) -> (r: u64)
    ensures
        r == since(gap as nat, spent as nat),
{
    if gap >= spent {
        gap - spent
    } else {
        0
    }
}

/// The timestamps of the records of a capture, in nanoseconds.
pub open spec fn timestamps_of(c: CaptureView) -> Seq<nat> {
    Seq::new(c.packets.len(), |i: int| record_timestamp(c.header.magic_number, c.packets[i]) as nat)
}

/// The frames of the records of a capture.
pub open spec fn frames_of(c: CaptureView) -> Seq<Seq<u8>> {
    Seq::new(c.packets.len(), |i: int| c.packets[i].packet_data)
}

/// The timestamp of the first record, 0 where there is none.
pub open spec fn first_of(ts: Seq<nat>) -> nat {
    if ts.len() > 0 {
        ts[0]
    } else {
        0
    }
}

/// The recording time from the first to the last record.
pub open spec fn span_of(ts: Seq<nat>) -> nat {
    if ts.len() > 0 {
        since(ts[ts.len() - 1], ts[0])
    } else {
        0
    }
}

/// The position event of a model: `position` of `len` records, at `elapsed`
/// of `total` nanoseconds.
pub open spec fn position_of(position: nat, len: nat, elapsed: nat, total: nat) -> Event {
    Event::PlayerPositionChanged(
        PositionChange {
            position: position as usize,
            max_position: len as usize,
            time_position: elapsed as u64,
            time_total: total as u64,
        },
    )
}

/// The state event of a transition, none where the state stays.
pub open spec fn state_events(from: PlayerState, to: PlayerState) -> Seq<Event> {
    if from == to {
        Seq::empty()
    } else {
        seq![Event::PlayerStateChanged(StateChange { state: to })]
    }
}

/// The state that a command leads to, from any state.
pub open spec fn next_state(c: Command) -> PlayerState {
    match c {
        Command::Play => PlayerState::Playing,
        Command::Pause => PlayerState::Paused,
        Command::Rewind => PlayerState::Initial,
        Command::Seek(_) => PlayerState::Initial,
        Command::Quit => PlayerState::Quit,
    }
}

/// Whether an event reports progress.
pub open spec fn is_position(e: Event) -> bool {
    e is PlayerPositionChanged
}

/// The playback engine as a mathematical value.
pub struct PlaybackView {
    pub state: PlayerState,
    /// The index of the next record to send.
    pub cursor: nat,
    /// The timestamp that the next gap is measured from.
    pub previous_ts: nat,
    /// Recording time reached, since the first record.
    pub elapsed: nat,
    pub first_ts: nat,
    pub total: nat,
    /// The timestamp of each record, in nanoseconds.
    pub timestamps: Seq<nat>,
    /// The captured frame of each record.
    pub frames: Seq<Seq<u8>>,
}

impl PlaybackView {
    pub open spec fn len(self) -> nat {
        self.timestamps.len()
    }

    /// The engine as it starts on a capture.
    pub open spec fn initial(c: CaptureView) -> PlaybackView {
        let ts = timestamps_of(c);
        PlaybackView {
            state: PlayerState::Initial,
            cursor: 0,
            previous_ts: first_of(ts),
            elapsed: 0,
            first_ts: first_of(ts),
            total: span_of(ts),
            timestamps: ts,
            frames: frames_of(c),
        }
    }

    pub open spec fn wf(self) -> bool {
        &&& self.cursor <= self.len()
        &&& self.len() <= usize::MAX
        &&& self.frames.len() == self.len()
        &&& self.state == PlayerState::Finished ==> self.cursor == self.len()
        &&& self.first_ts == first_of(self.timestamps)
        &&& self.total == span_of(self.timestamps)
        &&& self.previous_ts <= u64::MAX
        &&& self.elapsed <= u64::MAX
        &&& forall|i: int| 0 <= i < self.len() ==> #[trigger] self.timestamps[i] <= u64::MAX
    }

    /// The record that `Seek(i)` moves to: `i`, or the last record where `i`
    /// is past it.
    pub open spec fn seek_target(self, i: nat) -> nat {
        if i < self.len() {
            i
        } else if self.len() > 0 {
            (self.len() - 1) as nat
        } else {
            0
        }
    }

    /// Back at the first record with no time elapsed.
    pub open spec fn rewound(self) -> PlaybackView {
        PlaybackView {
            state: PlayerState::Initial,
            cursor: 0,
            previous_ts: self.first_ts,
            elapsed: 0,
            ..self
        }
    }

    /// At record `seek_target(i)`, measuring the next gap from its timestamp.
    pub open spec fn sought(self, i: nat) -> PlaybackView {
        if self.len() == 0 {
            self.rewound()
        } else {
            let j = self.seek_target(i);
            PlaybackView {
                state: PlayerState::Initial,
                cursor: j,
                previous_ts: self.timestamps[j as int],
                elapsed: since(self.timestamps[j as int], self.first_ts),
                ..self
            }
        }
    }

    /// The engine after a command.
    pub open spec fn after_command(self, c: Command) -> PlaybackView {
        match c {
            Command::Rewind => self.rewound(),
            Command::Seek(i) => self.sought(i as nat),
            _ => PlaybackView { state: next_state(c), ..self },
        }
    }

    /// The events that a command publishes.
    pub open spec fn command_events(self, c: Command) -> Seq<Event> {
        let next = self.after_command(c);
        let moved = match c {
            Command::Rewind => seq![position_of(0, self.len(), 0, self.total)],
            Command::Seek(i) => seq![
                position_of(
                    if self.len() == 0 {
                        0
                    } else {
                        self.seek_target(i as nat) + 1
                    },
                    self.len(),
                    next.elapsed,
                    self.total,
                ),
            ],
            _ => Seq::empty(),
        };
        moved + state_events(self.state, next.state)
    }

    /// The engine after the first half of a tick.
    pub open spec fn after_poll(self, p: Poll) -> PlaybackView {
        match p {
            Poll::Empty => self,
            Poll::Received(c) => self.after_command(c),
            Poll::Disconnected => PlaybackView { state: PlayerState::Quit, ..self },
        }
    }

    /// The events published in the first half of a tick.
    pub open spec fn poll_events(self, p: Poll) -> Seq<Event> {
        match p {
            Poll::Empty => Seq::empty(),
            Poll::Received(c) => self.command_events(c),
            Poll::Disconnected => seq![Event::Error(PlayerError::CommandChannelError)]
                + state_events(self.state, PlayerState::Quit),
        }
    }

    /// The engine after the second half of a tick.
    pub open spec fn after_act(self) -> PlaybackView {
        if self.state == PlayerState::Playing {
            if self.cursor < self.len() {
                let ts = self.timestamps[self.cursor as int];
                PlaybackView {
                    cursor: self.cursor + 1,
                    previous_ts: ts,
                    elapsed: since(ts, self.first_ts),
                    ..self
                }
            } else {
                PlaybackView { state: PlayerState::Finished, ..self }
            }
        } else {
            self
        }
    }

    /// What the second half of a tick asks of the driver.
    pub open spec fn step(self) -> Step {
        match self.state {
            PlayerState::Playing => if self.cursor < self.len() {
                let ts = self.timestamps[self.cursor as int];
                Step::Transmit {
                    index: self.cursor as usize,
                    delay: since(ts, self.previous_ts) as u64,
                    event: position_of(
                        self.cursor + 1,
                        self.len(),
                        since(ts, self.first_ts),
                        self.total,
                    ),
                }
            } else {
                Step::Finished(Event::PlayerStateChanged(StateChange { state: PlayerState::Finished }))
            },
            PlayerState::Quit => Step::Exit(Event::QuitCommanded),
            _ => Step::Idle,
        }
    }
}

/// The parts of the engine that a tick changes.
#[derive(Clone, Copy)]
struct Progress {
    state: PlayerState,
    cursor: usize,
    previous_ts: u64,
    elapsed: u64,
}

/// The playback engine: one capture, a cursor over its records, and the
/// state machine that paces them.
pub struct Playback {
    capture: Pcap,
    first_ts: u64,
    total: u64,
    progress: Progress,
}

impl View for Playback {
    type V = PlaybackView;

    closed spec fn view(&self) -> PlaybackView {
        PlaybackView {
            state: self.progress.state,
            cursor: self.progress.cursor as nat,
            previous_ts: self.progress.previous_ts as nat,
            elapsed: self.progress.elapsed as nat,
            first_ts: self.first_ts as nat,
            total: self.total as nat,
            timestamps: timestamps_of(self.capture@),
            frames: frames_of(self.capture@),
        }
    }
}

/// Every transition keeps the model well formed.
pub proof fn lemma_tick_keeps_wf(v: PlaybackView, p: Poll)
    requires
        v.wf(),
    ensures
        v.after_poll(p).wf(),
        v.after_poll(p).after_act().wf(),
{
}

/// Rewind, whatever the state and the cursor, puts the engine back at the
/// first record with no recording time elapsed, measures the next gap from the
/// first timestamp, and reports position 0 at time 0.
pub proof fn lemma_rewind_restarts(v: PlaybackView)
    requires
        v.wf(),
    ensures
        v.after_poll(Poll::Received(Command::Rewind)).state == PlayerState::Initial,
        v.after_poll(Poll::Received(Command::Rewind)).cursor == 0,
        v.after_poll(Poll::Received(Command::Rewind)).elapsed == 0,
        v.after_poll(Poll::Received(Command::Rewind)).previous_ts == v.first_ts,
        v.poll_events(Poll::Received(Command::Rewind))[0] == position_of(0, v.len(), 0, v.total),
{
}

/// Seek to a record within bounds reports that record as the current one (its
/// index plus one); playing on sends it first, with no wait, and measures the
/// gap to the following record from its timestamp, not from the first one.
pub proof fn lemma_seek_resumes_from_target(v: PlaybackView, i: usize)
    requires
        v.wf(),
        i < v.len(),
    ensures
        ({
            let s = v.after_poll(Poll::Received(Command::Seek(i)));
            let p = s.after_poll(Poll::Received(Command::Play));
            let at = position_of((i + 1) as nat, v.len(), since(v.timestamps[i as int], v.first_ts), v.total);
            &&& s.cursor == i
            &&& s.previous_ts == v.timestamps[i as int]
            &&& v.poll_events(Poll::Received(Command::Seek(i)))[0] == at
            &&& p.step() == Step::Transmit { index: i, delay: 0, event: at }
            &&& p.after_act().previous_ts == v.timestamps[i as int]
            &&& p.after_act().cursor == i + 1
        }),
{
}

/// Seek past the last record lands on the last record, or on the start where
/// there is none, and leaves the engine well formed.
pub proof fn lemma_seek_clamps(v: PlaybackView, i: usize)
    requires
        v.wf(),
        i >= v.len(),
    ensures
        v.after_poll(Poll::Received(Command::Seek(i))).wf(),
        v.len() > 0 ==> v.after_poll(Poll::Received(Command::Seek(i))).cursor == v.len() - 1,
        v.len() == 0 ==> v.after_poll(Poll::Received(Command::Seek(i))).cursor == 0,
{
}

/// Every command is handled in every state: the next state is the one that the
/// transition table gives for the command, and the engine stays well formed.
pub proof fn lemma_transitions_total(v: PlaybackView, c: Command)
    requires
        v.wf(),
    ensures
        v.after_poll(Poll::Received(c)).state == next_state(c),
        v.after_poll(Poll::Received(c)).wf(),
{
}

/// Reaching the end of the records while playing publishes exactly one
/// Finished state event, sends nothing, and leaves the engine Finished.
pub proof fn lemma_end_finishes(v: PlaybackView)
    requires
        v.wf(),
        v.state == PlayerState::Playing,
        v.cursor == v.len(),
    ensures
        v.step() == Step::Finished(Event::PlayerStateChanged(StateChange { state: PlayerState::Finished })),
        v.after_act().state == PlayerState::Finished,
        v.after_act().cursor == v.len(),
{
}

/// A Finished engine publishes no progress and sends nothing on any tick that
/// brings neither Rewind nor Seek, and stays at the end of the records; a tick
/// with no command publishes nothing at all.
pub proof fn lemma_finished_is_quiet(v: PlaybackView, p: Poll)
    requires
        v.wf(),
        v.state == PlayerState::Finished,
        p != Poll::Received(Command::Rewind),
        !(p matches Poll::Received(Command::Seek(_))),
    ensures
        forall|k: int|
            0 <= k < v.poll_events(p).len() ==> !is_position(#[trigger] v.poll_events(p)[k]),
        !(v.after_poll(p).step() is Transmit),
        v.after_poll(p).after_act().cursor == v.len(),
        p == Poll::Empty ==> v.poll_events(p).len() == 0 && v.step() == Step::Idle,
{
}

/// Pause, or a tick with no command while paused, publishes no progress, sends
/// nothing, and leaves the elapsed time and the cursor as they were.
pub proof fn lemma_pause_holds(v: PlaybackView, p: Poll)
    requires
        v.wf(),
        p == Poll::Received(Command::Pause) || (v.state == PlayerState::Paused && p == Poll::Empty),
    ensures
        forall|k: int|
            0 <= k < v.poll_events(p).len() ==> !is_position(#[trigger] v.poll_events(p)[k]),
        v.after_poll(p).step() == Step::Idle,
        v.after_poll(p).after_act().elapsed == v.elapsed,
        v.after_poll(p).after_act().cursor == v.cursor,
{
}

/// Quit, from any state, stops the engine with exactly one acknowledgement:
/// the command's own events hold none, and the half tick that follows asks the
/// driver to publish it and stop.
pub proof fn lemma_quit_acknowledged_once(v: PlaybackView)
    requires
        v.wf(),
    ensures
        forall|k: int|
            0 <= k < v.poll_events(Poll::Received(Command::Quit)).len() ==> #[trigger] v.poll_events(
                Poll::Received(Command::Quit),
            )[k] != Event::QuitCommanded,
        v.after_poll(Poll::Received(Command::Quit)).step() == Step::Exit(Event::QuitCommanded),
{
}

/// The model of a freshly started engine is well formed.
proof fn lemma_initial_wf(c: CaptureView)
    requires
        c.packets.len() <= usize::MAX,
    ensures
        PlaybackView::initial(c).wf(),
{
    let v = PlaybackView::initial(c);
    assert forall|i: int| 0 <= i < v.len() implies #[trigger] v.timestamps[i] <= u64::MAX by {
        lemma_timestamp_fits(c.header.magic_number, c.packets[i].ts_secs, c.packets[i].ts_secs_fraction);
    }
}

impl Playback {
    #[verifier::type_invariant]
    closed spec fn inv(self) -> bool {
        &&& self@.wf()
        &&& self.capture.packets@.len() == self@.len()
    }

    /// The timestamp of record `i`, in nanoseconds.
    fn timestamp(&self, i: usize) -> (r: u64)
        requires
            i < self@.len(),
        ensures
            r == self@.timestamps[i as int],
    {
        proof {
            use_type_invariant(self);
        }
        duration_from_timestamp(&self.capture.header.magic_number, &self.capture.packets[i])
    }

    /// Starts an engine on a recording; only the classic capture format can
    /// be played.
    pub fn new(recording: Recording) -> (r: Result<Playback, PlayerError>)
        ensures
            match recording.capture() {
                Some(c) => r matches Ok(p) && p@ == PlaybackView::initial(c),
                None => r matches Err(PlayerError::PlayerInitError),
            },
    {
        let capture = match recording {
            Recording::Pcap(p) => p,
            Recording::PcapNg(_) => {
                return Err(PlayerError::PlayerInitError);
            },
        };
        let n = capture.packets.len();
        let ghost ts = timestamps_of(capture@);
        let (first, last) = if n > 0 {
            (
                duration_from_timestamp(&capture.header.magic_number, &capture.packets[0]),
                duration_from_timestamp(&capture.header.magic_number, &capture.packets[n - 1]),
            )
        } else {
            (0, 0)
        };
        let total = if last >= first {
            last - first
        } else {
            0
        };
        proof {
            lemma_initial_wf(capture@);
        }
        let progress = Progress {
            state: PlayerState::Initial,
            cursor: 0,
            previous_ts: first,
            elapsed: 0,
        };
        let playback = Playback { capture, first_ts: first, total, progress };
        assert(playback@ =~= PlaybackView::initial(playback.capture@));
        Ok(playback)
    }

    /// The events that announce a started engine: ready, its state, and its
    /// position before the first record.
    pub fn startup_events(&self) -> (r: Vec<Event>)
        ensures
            r@ == seq![
                Event::PlayerReady,
                Event::PlayerStateChanged(StateChange { state: self@.state }),
                position_of(self@.cursor, self@.len(), self@.elapsed, self@.total),
            ],
    {
        proof {
            use_type_invariant(self);
        }
        let mut r: Vec<Event> = Vec::new();
        r.push(Event::PlayerReady);
        r.push(Event::state_event(self.progress.state));
        r.push(
            Event::PlayerPositionChanged(
                PositionChange {
                    position: self.progress.cursor,
                    max_position: self.capture.packets.len(),
                    time_position: self.progress.elapsed,
                    time_total: self.total,
                },
            ),
        );
        r
    }

    /// The first half of a tick: applies what the command channel gave and
    /// returns the events to publish.
    pub fn apply(&mut self, poll: Poll) -> (events: Vec<Event>)
        ensures
            final(self)@ == old(self)@.after_poll(poll),
            events@ == old(self)@.poll_events(poll),
    {
        proof {
            use_type_invariant(&*self);
        }
        let p = self.progress;
        let n = self.capture.packets.len();
        let mut events: Vec<Event> = Vec::new();
        let next = match poll {
            Poll::Empty => p,
            Poll::Disconnected => {
                events.push(Event::error(PlayerError::CommandChannelError));
                Progress { state: PlayerState::Quit, ..p }
            },
            Poll::Received(Command::Play) => Progress { state: PlayerState::Playing, ..p },
            Poll::Received(Command::Pause) => Progress { state: PlayerState::Paused, ..p },
            Poll::Received(Command::Quit) => Progress { state: PlayerState::Quit, ..p },
            Poll::Received(Command::Rewind) => {
                events.push(self.position_zero());
                Progress { state: PlayerState::Initial, cursor: 0, previous_ts: self.first_ts, elapsed: 0 }
            },
            Poll::Received(Command::Seek(i)) => {
                if n == 0 {
                    events.push(self.position_zero());
                    Progress {
                        state: PlayerState::Initial,
                        cursor: 0,
                        previous_ts: self.first_ts,
                        elapsed: 0,
                    }
                } else {
                    let j = if i < n {
                        i
                    } else {
                        n - 1
                    };
                    let ts = self.timestamp(j);
                    let elapsed = if ts >= self.first_ts {
                        ts - self.first_ts
                    } else {
                        0
                    };
                    events.push(Event::position_event(j, n, elapsed, self.total));
                    Progress { state: PlayerState::Initial, cursor: j, previous_ts: ts, elapsed }
                }
            },
        };
        if next.state != p.state {
            events.push(Event::state_event(next.state));
        }
        proof {
            lemma_tick_keeps_wf(self@, poll);
        }
        self.progress = next;
        assert(self@ =~= old(self)@.after_poll(poll));
        assert(events@ =~= old(self)@.poll_events(poll));
        events
    }

    /// The position event before the first record.
    fn position_zero(&self) -> (r: Event)
        ensures
            r == position_of(0, self@.len(), 0, self@.total),
    {
        proof {
            use_type_invariant(self);
        }
        Event::PlayerPositionChanged(
            PositionChange {
                position: 0,
                max_position: self.capture.packets.len(),
                time_position: 0,
                time_total: self.total,
            },
        )
    }

    /// The second half of a tick: acts on the current state and says what the
    /// driver has to do.
    pub fn advance(&mut self) -> (step: Step)
        ensures
            final(self)@ == old(self)@.after_act(),
            step == old(self)@.step(),
    {
        proof {
            use_type_invariant(&*self);
            lemma_tick_keeps_wf(self@, Poll::Empty);
        }
        let p = self.progress;
        match p.state {
            PlayerState::Playing => {
                let n = self.capture.packets.len();
                if p.cursor < n {
                    let ts = self.timestamp(p.cursor);
                    let delay = if ts >= p.previous_ts {
                        ts - p.previous_ts
                    } else {
                        0
                    };
                    let elapsed = if ts >= self.first_ts {
                        ts - self.first_ts
                    } else {
                        0
                    };
                    self.progress = Progress {
                        state: PlayerState::Playing,
                        cursor: p.cursor + 1,
                        previous_ts: ts,
                        elapsed,
                    };
                    assert(self@ =~= old(self)@.after_act());
                    Step::Transmit {
                        index: p.cursor,
                        delay,
                        event: Event::position_event(p.cursor, n, elapsed, self.total),
                    }
                } else {
                    self.progress = Progress { state: PlayerState::Finished, ..p };
                    assert(self@ =~= old(self)@.after_act());
                    Step::Finished(Event::state_event(PlayerState::Finished))
                }
            },
            PlayerState::Quit => Step::Exit(Event::QuitCommanded),
            _ => Step::Idle,
        }
    }

    /// The payload of record `index`, where there is such a record.
    pub fn payload(&self, index: usize) -> (r: Option<&[u8]>)
        ensures
            index < self@.len() ==> (r matches Some(b) && b@ == payload_of(self@.frames[index as int])),
            index >= self@.len() ==> r is None,
    {
        proof {
            use_type_invariant(self);
        }
        if index < self.capture.packets.len() {
            Some(udp_payload(self.capture.packets[index].packet_data.as_slice()))
        } else {
            None
        }
    }

    pub fn state(&self) -> (r: PlayerState)
        ensures
            r == self@.state,
    {
        self.progress.state
    }

    /// The number of records.
    pub fn len(&self) -> (r: usize)
        ensures
            r == self@.len(),
    {
        proof {
            use_type_invariant(self);
        }
        self.capture.packets.len()
    }

    /// The index of the next record to send.
    pub fn cursor(&self) -> (r: usize)
        ensures
            r == self@.cursor,
    {
        self.progress.cursor
    }

    /// Recording time reached, in nanoseconds since the first record.
    pub fn elapsed(&self) -> (r: u64)
        ensures
            r == self@.elapsed,
    {
        self.progress.elapsed
    }

    /// Recording time from the first to the last record, in nanoseconds.
    pub fn total_duration(&self) -> (r: u64)
        ensures
            r == self@.total,
    {
        self.total
    }
}

} // verus!
