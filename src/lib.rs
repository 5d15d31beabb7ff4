//! Client side of a single-peer IPC channel: the verified core.
//!
//! The error taxonomy, the event codec, the length-prefixed frame format,
//! the decoding of multiplexer readiness tags, the per-event processing plan
//! and the wake-handle hand-off of the cooperative adapter live here. The
//! sockets, timers, readiness waits and threads that drive them are outside
//! this crate's verified part.
mod adapter;
mod client;
mod error;
mod event;
mod frame;
mod mux;
mod text;

pub use crate::adapter::{
    drain_yield, installed, lemma_close_stops_watcher, lemma_no_missed_wake, lemma_single_watcher,
    must_spawn, taken, watcher_plan_of, SlotState, WakeSlot, WatcherPlan,
};
pub use crate::client::{
    keepalive_frame, ping_text, plan_of, process_plan, ProcessPlan, DEFAULT_TIMER_INTERVAL,
};
pub use crate::error::{kind_name, ErrorKind, RabcError};
pub use crate::event::{
    event_id, event_name, event_of_id, lemma_event_decode_total, lemma_event_id_round_trip,
    unknown_event_msg, RabcEvent,
};
pub use crate::frame::{
    byte_order_of, decode_prefix, encode_prefix, frame_bytes, io_failure, io_failure_msg,
    lemma_closed_stream_is_connection_error, lemma_frame_round_trip,
    lemma_guard_length_refused_on_receipt,
    lemma_oversized_prefix_refused, lemma_prefix_round_trip, native_byte_order, not_utf8_msg,
    prefix_bytes, prefix_lost, prefix_lost_msg, prefix_value, recv_outcome, recv_too_big_msg,
    reversed, send_too_big_msg, size_advice, ByteOrder, FrameCodec, DEFAULT_MAX_DATA_SIZE,
};
pub use crate::mux::{
    all_known, decode_events, first_unknown, wait_millis, wait_too_long_msg, MAX_WAIT_MILLIS,
};
pub use crate::text::{decimal, digit_char};
