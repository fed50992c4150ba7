use vstd::prelude::*;
use vstd::utf8::{decode_utf8, valid_utf8};

use crate::skima::{
    FlagState, LaneView, SegmentView, SharedData, FLAG_CLOSED, FLAG_CONSUMED, FLAG_DATA_READY,
    FLAG_IDLE,
};

verus! {

/// How the wait on a direction's signalling object ended.
#[derive(Clone, Copy, Debug, PartialEq, Eq, Structural)]
pub enum WaitOutcome {
    /// The peer signalled, or no wait was made.
    Signaled,
    /// The bound on the wait ran out first.
    TimedOut,
    /// The wait itself failed.
    Failed,
}

/// Why a receive produced no message.
#[derive(Clone, Copy, Debug, PartialEq, Eq, Structural)]
pub enum ReceiveError {
    /// Waiting for the peer's signal failed.
    WaitFailed,
    /// The direction's flag held a value outside the four defined states.
    UnknownState(u32),
    /// The message was not valid UTF-8 text.
    InvalidUtf8,
}

impl ReceiveError {
    pub open spec fn text(self) -> Seq<char> {
        match self {
            ReceiveError::WaitFailed => "waiting for the peer's signal failed"@,
            ReceiveError::UnknownState(_) => "the flag holds an unknown state"@,
            ReceiveError::InvalidUtf8 => "the message is not valid UTF-8"@,
        }
    }

    /// A sentence that describes the error.
    pub fn describe(&self) -> (r: String)
        ensures
            r@ == self.text(),
    {
        match self {
            ReceiveError::WaitFailed => "waiting for the peer's signal failed".to_owned(),
            ReceiveError::UnknownState(_) => "the flag holds an unknown state".to_owned(),
            ReceiveError::InvalidUtf8 => "the message is not valid UTF-8".to_owned(),
        }
    }
}

/// The outcome of a receive that hands back raw bytes.
#[derive(Debug)]
pub enum ReceiveBytes {
    Bytes(Vec<u8>),
    Exit,
    Timeout,
    Error(ReceiveError),
}

/// The outcome of a receive as mathematical values.
pub enum Received {
    Bytes(Seq<u8>),
    Exit,
    Timeout,
    Error(ReceiveError),
}

impl View for ReceiveBytes {
    type V = Received;

    open spec fn view(&self) -> Received {
        match self {
            ReceiveBytes::Bytes(b) => Received::Bytes(b@),
            ReceiveBytes::Exit => Received::Exit,
            ReceiveBytes::Timeout => Received::Timeout,
            ReceiveBytes::Error(e) => Received::Error(*e),
        }
    }
}

/// The outcome of a receive that hands back text.
#[derive(Debug)]
pub enum ReceiveMessage {
    Exit,
    Message(String),
    MessageError(String),
    Timeout,
}

/// A text receive's outcome as mathematical values.
pub enum MessageView {
    Exit,
    Message(Seq<char>),
    MessageError(Seq<char>),
    Timeout,
}

impl View for ReceiveMessage {
    type V = MessageView;

    open spec fn view(&self) -> MessageView {
        match self {
            ReceiveMessage::Exit => MessageView::Exit,
            ReceiveMessage::Message(s) => MessageView::Message(s@),
            ReceiveMessage::MessageError(s) => MessageView::MessageError(s@),
            ReceiveMessage::Timeout => MessageView::Timeout,
        }
    }
}

/// What a reader does once its wait has ended, decided by the flag.
#[derive(Clone, Copy, Debug, PartialEq, Eq, Structural)]
pub enum ReceiveStep {
    /// Read the message and mark it consumed.
    Take,
    /// Report that the writer closed the direction.
    Exit,
    /// Report that nothing new has arrived.
    Timeout,
    /// Report an error; the segment is left as it is.
    Fail(ReceiveError),
}

pub open spec fn step_of(flag: u32, wait: WaitOutcome) -> ReceiveStep {
    match wait {
        WaitOutcome::TimedOut => ReceiveStep::Timeout,
        WaitOutcome::Failed => ReceiveStep::Fail(ReceiveError::WaitFailed),
        WaitOutcome::Signaled => {
            if flag == FLAG_DATA_READY {
                ReceiveStep::Take
            } else if flag == FLAG_CLOSED {
                ReceiveStep::Exit
            } else if flag == FLAG_CONSUMED || flag == FLAG_IDLE {
                ReceiveStep::Timeout
            } else {
                ReceiveStep::Fail(ReceiveError::UnknownState(flag))
            }
        },
    }
}

/// The reader's decision from the way its wait ended and the flag it then
/// loaded.
pub fn receive_step(flag: u32, wait: WaitOutcome) -> (r: ReceiveStep)
    ensures
        r == step_of(flag, wait),
{
    match wait {
        WaitOutcome::TimedOut => ReceiveStep::Timeout,
        WaitOutcome::Failed => ReceiveStep::Fail(ReceiveError::WaitFailed),
        WaitOutcome::Signaled => match FlagState::from_raw(flag) {
            Some(FlagState::DataReady) => ReceiveStep::Take,
            Some(FlagState::Closed) => ReceiveStep::Exit,
            Some(FlagState::Consumed) => ReceiveStep::Timeout,
            Some(FlagState::Idle) => ReceiveStep::Timeout,
            None => ReceiveStep::Fail(ReceiveError::UnknownState(flag)),
        },
    }
}

/// The number of bytes that a buffer of `buffer_size` bytes takes of a
/// message of `len` bytes.
pub open spec fn clamped(len: int, buffer_size: u32) -> u32 {
    if len < buffer_size {
        len as u32
    } else {
        buffer_size
    }
}

/// The smaller of a message length and the buffer capacity: how much a
/// writer copies, and how much a reader takes.
pub fn copy_len(len: usize, buffer_size: u32) -> (r: u32)
    ensures
        r == clamped(len as int, buffer_size),
        r <= buffer_size,
        r <= len,
{
    if len < buffer_size as usize {
        len as u32
    } else {
        buffer_size
    }
}

/// A buffer of `n` bytes that starts with `p` and is zero after it.
pub open spec fn stored(p: Seq<u8>, n: nat) -> Seq<u8> {
    Seq::new(n, |i: int| if i < p.len() { p[i] } else { 0u8 })
}

impl SegmentView {
    /// The segment after a write of `p` into one direction: the buffer holds
    /// the first `buffer_size` bytes of `p` at most, zero after them, and the
    /// flag says that data is ready.
    pub open spec fn after_send(self, server_to_client: bool, p: Seq<u8>) -> SegmentView {
        let n = clamped(p.len() as int, self.buffer_size);
        self.with_lane(
            server_to_client,
            LaneView {
                flag: FLAG_DATA_READY,
                len: n,
                data: stored(p.take(n as int), self.buffer_size as nat),
            },
        )
    }

    /// The segment after one direction is closed: only its flag changes.
    pub open spec fn after_close(self, server_to_client: bool) -> SegmentView {
        self.with_lane(
            server_to_client,
            LaneView { flag: FLAG_CLOSED, ..self.lane(server_to_client) },
        )
    }

    /// What a receive on one direction reports.
    pub open spec fn receive_result(self, server_to_client: bool, wait: WaitOutcome) -> Received {
        let l = self.lane(server_to_client);
        match step_of(l.flag, wait) {
            ReceiveStep::Take => Received::Bytes(
                l.data.take(clamped(l.len as int, self.buffer_size) as int),
            ),
            ReceiveStep::Exit => Received::Exit,
            ReceiveStep::Timeout => Received::Timeout,
            ReceiveStep::Fail(e) => Received::Error(e),
        }
    }

    /// The segment after a receive on one direction: a message that is taken
    /// is marked consumed; nothing else changes.
    pub open spec fn after_receive(self, server_to_client: bool, wait: WaitOutcome) -> SegmentView {
        let l = self.lane(server_to_client);
        if step_of(l.flag, wait) is Take {
            self.with_lane(server_to_client, LaneView { flag: FLAG_CONSUMED, ..l })
        } else {
            self
        }
    }
}

/// What a text receive reports for a raw receive's outcome.
pub open spec fn message_of(r: Received) -> MessageView {
    match r {
        Received::Bytes(b) => if valid_utf8(b) {
            MessageView::Message(decode_utf8(b))
        } else {
            MessageView::MessageError(ReceiveError::InvalidUtf8.text())
        },
        Received::Exit => MessageView::Exit,
        Received::Timeout => MessageView::Timeout,
        Received::Error(e) => MessageView::MessageError(e.text()),
    }
}

/// Overwrites `buf` with the first `n` bytes of `data`, zero after them.
fn fill_message(buf: &mut Vec<u8>, data: &[u8], n: u32)
    requires
        n <= data@.len(),
        n <= old(buf)@.len(),
    ensures
        final(buf)@ == stored(data@.take(n as int), old(buf)@.len()),
{
    let len = buf.len();
    let mut i: usize = 0;
    while i < len
        invariant
            len == buf@.len(),
            len == old(buf)@.len(),
            n <= data@.len(),
            n <= len,
            i <= len,
            forall|k: int|
                0 <= k < i ==> buf@[k] == stored(data@.take(n as int), len as nat)[k],
        decreases len - i,
    {
        if i < n as usize {
            buf.set(i, data[i]);
        } else {
            buf.set(i, 0u8);
        }
        i = i + 1;
    }
    assert(buf@ =~= stored(data@.take(n as int), len as nat));
}

/// The first `n` bytes of `buf`.
fn prefix(buf: &Vec<u8>, n: u32) -> (r: Vec<u8>)
    requires
        n <= buf@.len(),
    ensures
        r@ == buf@.take(n as int),
{
    let mut r: Vec<u8> = Vec::new();
    let mut i: usize = 0;
    while i < n as usize
        invariant
            n <= buf@.len(),
            i <= n,
            r@ == buf@.take(i as int),
        decreases n - i,
    {
        r.push(buf[i]);
        i = i + 1;
        assert(r@ =~= buf@.take(i as int));
    }
    r
}

/// Writes one message into the direction that the server (`is_server`) or
/// the client writes, and marks it ready. A message longer than the buffer
/// is cut to the buffer's size; an unread message before it is overwritten.
/// A write after the direction was closed opens it again: its flag says that
/// data is ready.
pub fn write_to_shared_memory(shared_data: &mut SharedData, data: &[u8], is_server: bool)
    requires
        old(shared_data)@.wf(),
    ensures
        final(shared_data)@ == old(shared_data)@.after_send(is_server, data@),
        final(shared_data)@.wf(),
{
    let n = copy_len(data.len(), shared_data.buffer_size);
    if is_server {
        fill_message(&mut shared_data.data_server_to_client, data, n);
        shared_data.data_len_server_to_client = n;
        shared_data.flag_server = FlagState::DataReady.to_raw();
    } else {
        fill_message(&mut shared_data.data_client_to_server, data, n);
        shared_data.data_len_client_to_server = n;
        shared_data.flag_client = FlagState::DataReady.to_raw();
    }
}

/// Marks the direction that the server (`is_server`) or the client writes as
/// closed, leaving its buffer as it is.
pub fn send_close(shared_data: &mut SharedData, is_server: bool)
    requires
        old(shared_data)@.wf(),
    ensures
        final(shared_data)@ == old(shared_data)@.after_close(is_server),
        final(shared_data)@.wf(),
{
    if is_server {
        shared_data.flag_server = FlagState::Closed.to_raw();
    } else {
        shared_data.flag_client = FlagState::Closed.to_raw();
    }
}

/// Reads the direction that the server (`is_server_reading`) or the client
/// reads, once the wait for the peer's signal has ended as `wait`. A ready
/// message is handed back as bytes and marked consumed.
pub fn read_bytes_from_shared_memory(
    shared_data: &mut SharedData,
    is_server_reading: bool,
    wait: WaitOutcome,
) -> (r: ReceiveBytes)
    requires
        old(shared_data)@.wf(),
    ensures
        r@ == old(shared_data)@.receive_result(!is_server_reading, wait),
        final(shared_data)@ == old(shared_data)@.after_receive(!is_server_reading, wait),
        final(shared_data)@.wf(),
{
    let flag = if is_server_reading {
        shared_data.flag_client
    } else {
        shared_data.flag_server
    };
    match receive_step(flag, wait) {
        ReceiveStep::Take => {
            if is_server_reading {
                let n = copy_len(
                    shared_data.data_len_client_to_server as usize,
                    shared_data.buffer_size,
                );
                let bytes = prefix(&shared_data.data_client_to_server, n);
                shared_data.flag_client = FlagState::Consumed.to_raw();
                ReceiveBytes::Bytes(bytes)
            } else {
                let n = copy_len(
                    shared_data.data_len_server_to_client as usize,
                    shared_data.buffer_size,
                );
                let bytes = prefix(&shared_data.data_server_to_client, n);
                shared_data.flag_server = FlagState::Consumed.to_raw();
                ReceiveBytes::Bytes(bytes)
            }
        },
        ReceiveStep::Exit => ReceiveBytes::Exit,
        ReceiveStep::Timeout => ReceiveBytes::Timeout,
        ReceiveStep::Fail(e) => ReceiveBytes::Error(e),
    }
}

/// Relies on `String::from_utf8`: it succeeds exactly on valid UTF-8 and then
/// holds the text that the bytes encode.
#[verifier::external_body]
fn utf8_to_string(bytes: Vec<u8>) -> (r: Option<String>)
    ensures
        r is Some <==> valid_utf8(bytes@),
        r matches Some(s) ==> s@ == decode_utf8(bytes@),
{
    String::from_utf8(bytes).ok()
}

/// Turns a raw receive's outcome into a text one: bytes that are not valid
/// UTF-8 become an error.
pub fn message_from_bytes(received: ReceiveBytes) -> (r: ReceiveMessage)
    ensures
        r@ == message_of(received@),
{
    match received {
        ReceiveBytes::Bytes(b) => match utf8_to_string(b) {
            Some(s) => ReceiveMessage::Message(s),
            None => ReceiveMessage::MessageError(ReceiveError::InvalidUtf8.describe()),
        },
        ReceiveBytes::Exit => ReceiveMessage::Exit,
        ReceiveBytes::Timeout => ReceiveMessage::Timeout,
        ReceiveBytes::Error(e) => ReceiveMessage::MessageError(e.describe()),
    }
}

/// Reads the direction that the server (`is_server_reading`) or the client
/// reads, as text. A ready message is marked consumed whether or not it is
/// valid UTF-8.
pub fn read_from_shared_memory(
    shared_data: &mut SharedData,
    is_server_reading: bool,
    wait: WaitOutcome,
) -> (r: ReceiveMessage)
    requires
        old(shared_data)@.wf(),
    ensures
        r@ == message_of(old(shared_data)@.receive_result(!is_server_reading, wait)),
        final(shared_data)@ == old(shared_data)@.after_receive(!is_server_reading, wait),
        final(shared_data)@.wf(),
{
    let received = read_bytes_from_shared_memory(shared_data, is_server_reading, wait);
    message_from_bytes(received)
}

} // verus!
