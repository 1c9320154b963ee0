use vstd::prelude::*;

use crate::events::PlayerError;
use crate::recording::Recording;

verus! {

/// Everything a playback engine needs, all present: the recording, where to
/// send its payloads and from which port with which time-to-live, and the two
/// channel ends.
///
/// The address and the channel ends are whatever the driver uses for them.
pub struct Player<A, R, S> {
    pub recording: Recording,
    pub destination: A,
    pub source_port: u16,
    pub ttl: u32,
    pub cmd_rx: R,
    pub event_tx: S,
}

/// Gathers the parts of a player; each must be given before it can be built.
pub struct PlayerBuilder<A, R, S> {
    pub recording: Option<Recording>,
    pub destination: Option<A>,
    pub source_port: Option<u16>,
    pub ttl: Option<u32>,
    pub cmd_rx: Option<R>,
    pub event_tx: Option<S>,
}

impl<A, R, S> Player<A, R, S> {
    /// A builder with no part given yet.
    pub fn builder() -> (r: PlayerBuilder<A, R, S>)
        ensures
            r.recording is None,
            r.destination is None,
            r.source_port is None,
            r.ttl is None,
            r.cmd_rx is None,
            r.event_tx is None,
    {
        PlayerBuilder {
            recording: None,
            destination: None,
            source_port: None,
            ttl: None,
            cmd_rx: None,
            event_tx: None,
        }
    }
}

impl<A, R, S> PlayerBuilder<A, R, S> {
    /// Whether every part has been given.
    pub open spec fn is_complete(&self) -> bool {
        &&& self.recording is Some
        &&& self.destination is Some
        &&& self.source_port is Some
        &&& self.ttl is Some
        &&& self.cmd_rx is Some
        &&& self.event_tx is Some
    }

    pub fn recording(self, recording: Recording) -> (r: Self)
        ensures
            r == (PlayerBuilder { recording: Some(recording), ..self }),
    {
        PlayerBuilder { recording: Some(recording), ..self }
    }

    pub fn destination(self, destination: A) -> (r: Self)
        ensures
            r == (PlayerBuilder { destination: Some(destination), ..self }),
    {
        PlayerBuilder { destination: Some(destination), ..self }
    }

    pub fn source_port(self, source_port: u16) -> (r: Self)
        ensures
            r == (PlayerBuilder { source_port: Some(source_port), ..self }),
    {
        PlayerBuilder { source_port: Some(source_port), ..self }
    }

    pub fn ttl(self, ttl: u32) -> (r: Self)
        ensures
            r == (PlayerBuilder { ttl: Some(ttl), ..self }),
    {
        PlayerBuilder { ttl: Some(ttl), ..self }
    }

    pub fn cmd_rx(self, cmd_rx: R) -> (r: Self)
        ensures
            r == (PlayerBuilder { cmd_rx: Some(cmd_rx), ..self }),
    {
        PlayerBuilder { cmd_rx: Some(cmd_rx), ..self }
    }

    pub fn event_tx(self, event_tx: S) -> (r: Self)
        ensures
            r == (PlayerBuilder { event_tx: Some(event_tx), ..self }),
    {
        PlayerBuilder { event_tx: Some(event_tx), ..self }
    }

    /// The player, where every part was given; else the initialisation error.
    pub fn build(self) -> (r: Result<Player<A, R, S>, PlayerError>)
        ensures
            self.is_complete() ==> r == Ok::<Player<A, R, S>, PlayerError>(
                Player {
                    recording: self.recording->Some_0,
                    destination: self.destination->Some_0,
                    source_port: self.source_port->Some_0,
                    ttl: self.ttl->Some_0,
                    cmd_rx: self.cmd_rx->Some_0,
                    event_tx: self.event_tx->Some_0,
                },
            ),
            !self.is_complete() ==> r == Err::<Player<A, R, S>, PlayerError>(PlayerError::PlayerInitError),
    {
        match self {
            PlayerBuilder {
                recording: Some(recording),
                destination: Some(destination),
                source_port: Some(source_port),
                ttl: Some(ttl),
                cmd_rx: Some(cmd_rx),
                event_tx: Some(event_tx),
            } => Ok(Player { recording, destination, source_port, ttl, cmd_rx, event_tx }),
            _ => Err(PlayerError::PlayerInitError),
        }
    }
}

} // verus!
