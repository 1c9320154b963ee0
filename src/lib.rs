//! Time-faithful replay of captured network packets.
//!
//! The library decodes classic capture files into timestamped packet records
//! and holds the decisions of the playback engine: the state machine that
//! paces records against their timestamps and answers control commands.
//! Sockets, threads, channels and clocks are left to the driver, which feeds
//! the engine what it polled and carries out the step it is given.

mod commands;
mod controls;
pub mod defaults;
mod events;
mod format;
mod pcap;
mod pcapng;
mod playback;
mod player;
mod recording;
mod timestamp;

pub use commands::{command_at, command_name, Command};
pub use controls::{
    action_for_key, action_label, all_actions, button_command, keys_of, lemma_key_bindings, Action, App, Input,
    InputConfig, Key, BUTTON_COUNT, TICK_RATE,
};
pub use defaults::{DEFAULT_DEST_PORT, DEFAULT_SRC_PORT, DEFAULT_TTL, PLAYER_STARTUP_TIMEOUT_MS};
pub use events::{Event, PlayerError, PositionChange, StateChange};
pub use format::{decimal, digit_char, duration_text, two_digits, FormattedDuration};
pub use pcap::{
    decode_header, decode_pcap, decode_records, field_u16, field_u32, is_big_endian, magic_of,
    prepend, record_at, record_views, signed_of, u16_from, u32_from, CaptureView, Pcap, PcapError,
    PcapHeader, PcapMagicNumber, PcapPacketRecord, RecordView, ETHERNET_HEADER_LENGTH_BYTES,
    FILE_HEADER_LENGTH_BYTES, IP_HEADER_LENGTH_BYTES, RECORD_HEADER_LENGTH_BYTES,
    UDP_HEADER_LENGTH_BYTES,
};
pub use pcapng::PcapNG;
pub use playback::{
    first_of, frames_of, is_position, lemma_end_finishes, lemma_finished_is_quiet,
    lemma_pause_holds, lemma_quit_acknowledged_once, lemma_rewind_restarts,
    lemma_seek_clamps, lemma_seek_resumes_from_target, lemma_tick_keeps_wf,
    lemma_transitions_total, next_state, pacing_delay, payload_of, position_of, since, span_of,
    state_events, state_label, timestamps_of, udp_payload, Playback, PlaybackView, PlayerState,
    Poll, Step, STRIP_HEADERS_INDEX,
};
pub use player::{Player, PlayerBuilder};
pub use recording::{
    check_path, is_supported_extension, opt_view, path_verdict, FileError, FileErrorKind,
    PathProbe, Recording,
};
pub use timestamp::{
    duration_from_timestamp, lemma_timestamp_fits, record_timestamp, timestamp_nanos,
    NANOS_PER_SEC,
};
