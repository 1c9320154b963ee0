use vstd::prelude::*;

use crate::playback::PlayerState;

verus! {

/// Failures that the playback engine reports.
#[derive(Clone, Copy, Debug, PartialEq, Eq, Structural)]
pub enum PlayerError {
    /// A required part of the engine was missing, or the recording cannot be played.
    PlayerInitError,
    /// The front end that sends commands has gone.
    CommandChannelError,
}

/// A new state of the engine.
#[derive(Clone, Copy, Debug, PartialEq, Eq, Structural)]
pub struct StateChange {
    pub state: PlayerState,
}

/// Progress through the recording.
#[derive(Clone, Copy, Debug, PartialEq, Eq, Structural)]
pub struct PositionChange {
    /// The 1-based number of the current record, 0 before the first.
    pub position: usize,
    /// The number of records.
    pub max_position: usize,
    /// Recording time reached, in nanoseconds since the first record.
    pub time_position: u64,
    /// Recording time from the first to the last record, in nanoseconds.
    pub time_total: u64,
}

/// A notice from the playback engine to its front ends.
#[derive(Clone, Copy, Debug, PartialEq, Eq, Structural)]
pub enum Event {
    Error(PlayerError),
    PlayerReady,
    PlayerStateChanged(StateChange),
    PlayerPositionChanged(PositionChange),
    QuitCommanded,
}

impl Event {
    /// The notice that the engine is now in `state`.
    pub fn state_event(state: PlayerState) -> (r: Event)
        ensures
            r == Event::PlayerStateChanged(StateChange { state }),
    {
        Event::PlayerStateChanged(StateChange { state })
    }

    /// The notice that the record with 0-based index `current_pos` is the
    /// current one: its position is one more.
    pub fn position_event(current_pos: usize, max_pos: usize, current_time: u64, total_time: u64) -> (r: Event)
        requires
            current_pos < usize::MAX,
        ensures
            r == Event::PlayerPositionChanged(
                PositionChange {
                    position: (current_pos + 1) as usize,
                    max_position: max_pos,
                    time_position: current_time,
                    time_total: total_time,
                },
            ),
    {
        Event::PlayerPositionChanged(
            PositionChange {
                position: current_pos + 1,
                max_position: max_pos,
                time_position: current_time,
                time_total: total_time,
            },
        )
    }

    /// The notice of a failure.
    pub fn error(error: PlayerError) -> (r: Event)
        ensures
            r == Event::Error(error),
    {
        Event::Error(error)
    }
}

impl Default for PositionChange {
    fn default() -> (r: PositionChange)
        ensures
            r == (PositionChange { position: 0, max_position: 0, time_position: 0, time_total: 0 }),
    {
        PositionChange { position: 0, max_position: 0, time_position: 0, time_total: 0 }
    }
}

} // verus!
