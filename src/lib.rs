//! A duplex message channel over one shared segment: a fixed header, then one
//! single-slot byte buffer per direction, each governed by a four-state flag.
//!
//! The protocol is verified here over a model of the segment; the operating
//! system's mapping and signalling objects are driven around it by the caller.

mod layout;
pub mod lemmas;
mod shared_memory;
mod skima;

pub use layout::{
    new_header, offset_to_client_to_server_buffer, offset_to_server_to_client_buffer,
    total_size, SegmentHeader, HEADER_SIZE, OFFSET_BUFFER_SIZE, OFFSET_FLAG_CLIENT,
    OFFSET_FLAG_SERVER, OFFSET_LEN_CLIENT_TO_SERVER, OFFSET_LEN_SERVER_TO_CLIENT,
};
pub use shared_memory::{
    copy_len, message_from_bytes, read_bytes_from_shared_memory, read_from_shared_memory,
    receive_step, send_close, write_to_shared_memory, ReceiveBytes, ReceiveError,
    ReceiveMessage, ReceiveStep, WaitOutcome,
};
pub use shared_memory::{MessageView, Received};
pub use skima::{
    FlagState, LaneView, SegmentView, SharedData, DEFAULT_BUFFER_SIZE, FLAG_CLOSED, FLAG_CONSUMED, FLAG_DATA_READY,
    FLAG_IDLE,
};
