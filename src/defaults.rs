use vstd::prelude::*;

verus! {

/// The UDP port that payloads are sent to unless another is given.
pub const DEFAULT_DEST_PORT: u16 = 3000;

/// The UDP port that payloads are sent from unless another is given.
pub const DEFAULT_SRC_PORT: u16 = 3001;

/// The IP time-to-live of sent datagrams unless another is given.
pub const DEFAULT_TTL: u32 = 64;

/// How long a front end waits for a started engine to report ready.
pub const PLAYER_STARTUP_TIMEOUT_MS: u64 = 2000;

} // verus!
