use vstd::prelude::*;

use crate::layout::{SegmentHeader, HEADER_SIZE};

verus! {

/// Capacity of each direction's buffer when none is chosen (16 KiB).
pub const DEFAULT_BUFFER_SIZE: u32 = 16384;

/// Flag value: nothing has been written in this direction yet.
pub const FLAG_IDLE: u32 = 0;

/// Flag value: a message waits to be read.
pub const FLAG_DATA_READY: u32 = 1;

/// Flag value: the last message has been read.
pub const FLAG_CONSUMED: u32 = 2;

/// Flag value: the writer has closed this direction.
pub const FLAG_CLOSED: u32 = 3;

/// The four states a direction's flag may hold.
#[derive(Clone, Copy, Debug, PartialEq, Eq, Structural)]
pub enum FlagState {
    Idle,
    DataReady,
    Consumed,
    Closed,
}

impl FlagState {
    pub open spec fn raw(self) -> u32 {
        match self {
            FlagState::Idle => FLAG_IDLE,
            FlagState::DataReady => FLAG_DATA_READY,
            FlagState::Consumed => FLAG_CONSUMED,
            FlagState::Closed => FLAG_CLOSED,
        }
    }

    /// The value stored in the segment for this state.
    pub fn to_raw(self) -> (r: u32)
        ensures
            r == self.raw(),
    {
        match self {
            FlagState::Idle => FLAG_IDLE,
            FlagState::DataReady => FLAG_DATA_READY,
            FlagState::Consumed => FLAG_CONSUMED,
            FlagState::Closed => FLAG_CLOSED,
        }
    }

    /// The state that a stored value stands for; `None` for any value outside
    /// the four defined ones.
    pub fn from_raw(v: u32) -> (r: Option<FlagState>)
        ensures
            r matches Some(s) ==> s.raw() == v,
            r is None <==> v > FLAG_CLOSED,
    {
        if v == FLAG_IDLE {
            Some(FlagState::Idle)
        } else if v == FLAG_DATA_READY {
            Some(FlagState::DataReady)
        } else if v == FLAG_CONSUMED {
            Some(FlagState::Consumed)
        } else if v == FLAG_CLOSED {
            Some(FlagState::Closed)
        } else {
            None
        }
    }
}

/// What one direction of the segment holds, seen as mathematical values.
pub struct LaneView {
    pub flag: u32,
    pub len: u32,
    pub data: Seq<u8>,
}

/// The whole segment seen as mathematical values.
pub struct SegmentView {
    pub buffer_size: u32,
    pub s2c: LaneView,
    pub c2s: LaneView,
}

/// The shared segment: its header fields and the two data buffers.
///
/// `data_server_to_client` is written by the server and read by the client;
/// `data_client_to_server` the other way round.
pub struct SharedData {
    pub buffer_size: u32,
    pub flag_server: u32,
    pub flag_client: u32,
    pub data_len_server_to_client: u32,
    pub data_len_client_to_server: u32,
    pub data_server_to_client: Vec<u8>,
    pub data_client_to_server: Vec<u8>,
}

impl View for SharedData {
    type V = SegmentView;

    open spec fn view(&self) -> SegmentView {
        SegmentView {
            buffer_size: self.buffer_size,
            s2c: LaneView {
                flag: self.flag_server,
                len: self.data_len_server_to_client,
                data: self.data_server_to_client@,
            },
            c2s: LaneView {
                flag: self.flag_client,
                len: self.data_len_client_to_server,
                data: self.data_client_to_server@,
            },
        }
    }
}

impl SegmentView {
    /// Each buffer holds exactly `buffer_size` bytes and each recorded length
    /// fits in its buffer.
    pub open spec fn wf(self) -> bool {
        &&& self.s2c.data.len() == self.buffer_size
        &&& self.c2s.data.len() == self.buffer_size
        &&& self.s2c.len <= self.buffer_size
        &&& self.c2s.len <= self.buffer_size
    }

    /// A freshly created segment: both flags idle, both lengths zero, both
    /// buffers zeroed.
    pub open spec fn fresh(buffer_size: u32) -> SegmentView {
        let empty = LaneView {
            flag: FLAG_IDLE,
            len: 0,
            data: Seq::new(buffer_size as nat, |i: int| 0u8),
        };
        SegmentView { buffer_size, s2c: empty, c2s: empty }
    }

    /// The header fields of this segment.
    pub open spec fn header(self) -> SegmentHeader {
        SegmentHeader {
            buffer_size: self.buffer_size,
            flag_server: self.s2c.flag,
            flag_client: self.c2s.flag,
            data_len_server_to_client: self.s2c.len,
            data_len_client_to_server: self.c2s.len,
        }
    }

    /// The segment's bytes: header, then the two buffers.
    pub open spec fn bytes(self) -> Seq<u8> {
        self.header().bytes() + self.s2c.data + self.c2s.data
    }

    /// The direction that the server writes (`true`) or the client writes
    /// (`false`).
    pub open spec fn lane(self, server_to_client: bool) -> LaneView {
        if server_to_client {
            self.s2c
        } else {
            self.c2s
        }
    }

    /// This segment with one direction replaced.
    pub open spec fn with_lane(self, server_to_client: bool, l: LaneView) -> SegmentView {
        if server_to_client {
            SegmentView { s2c: l, ..self }
        } else {
            SegmentView { c2s: l, ..self }
        }
    }
}

/// A buffer of `n` zero bytes.
fn zeroed(n: u32) -> (r: Vec<u8>)
    ensures
        r@ == Seq::new(n as nat, |i: int| 0u8),
{
    let mut v: Vec<u8> = Vec::new();
    let mut i: u32 = 0;
    while i < n
        invariant
            i <= n,
            v@ == Seq::new(i as nat, |k: int| 0u8),
        decreases n - i,
    {
        v.push(0u8);
        i = i + 1;
        assert(v@ =~= Seq::new(i as nat, |k: int| 0u8));
    }
    v
}

impl SharedData {
    /// A zeroed segment whose buffers hold `DEFAULT_BUFFER_SIZE` bytes each.
    pub fn new() -> (r: SharedData)
        ensures
            r@ == SegmentView::fresh(DEFAULT_BUFFER_SIZE),
            r@.wf(),
    {
        SharedData::with_buffer_size(DEFAULT_BUFFER_SIZE)
    }

    /// A zeroed segment whose buffers hold `buffer_size` bytes each.
    pub fn with_buffer_size(buffer_size: u32) -> (r: SharedData)
        ensures
            r@ == SegmentView::fresh(buffer_size),
            r@.wf(),
    {
        SharedData {
            buffer_size,
            flag_server: FLAG_IDLE,
            flag_client: FLAG_IDLE,
            data_len_server_to_client: 0,
            data_len_client_to_server: 0,
            data_server_to_client: zeroed(buffer_size),
            data_client_to_server: zeroed(buffer_size),
        }
    }

    /// The capacity of each direction's buffer, in bytes.
    pub fn buffer_size(&self) -> (r: u32)
        ensures
            r == self@.buffer_size,
    {
        self.buffer_size
    }

    /// The header fields of this segment.
    pub fn header(&self) -> (r: SegmentHeader)
        ensures
            r == self@.header(),
    {
        SegmentHeader {
            buffer_size: self.buffer_size,
            flag_server: self.flag_server,
            flag_client: self.flag_client,
            data_len_server_to_client: self.data_len_server_to_client,
            data_len_client_to_server: self.data_len_client_to_server,
        }
    }

    /// The segment as laid out in memory: the header's bytes, then the
    /// server-to-client buffer, then the client-to-server buffer.
    pub fn to_bytes(&self) -> (r: Vec<u8>)
        requires
            self@.wf(),
            HEADER_SIZE + 2 * self.buffer_size <= usize::MAX,
        ensures
            r@ == self@.bytes(),
            r@.len() == HEADER_SIZE + 2 * self.buffer_size,
    {
        let mut out = self.header().to_bytes();
        let mut i: usize = 0;
        while i < self.data_server_to_client.len()
            invariant
                i <= self.data_server_to_client@.len(),
                out@ == self@.header().bytes() + self.data_server_to_client@.take(i as int),
            decreases self.data_server_to_client@.len() - i,
        {
            out.push(self.data_server_to_client[i]);
            i = i + 1;
            assert(out@ =~= self@.header().bytes() + self.data_server_to_client@.take(i as int));
        }
        assert(self.data_server_to_client@.take(i as int) =~= self.data_server_to_client@);
        let mut j: usize = 0;
        while j < self.data_client_to_server.len()
            invariant
                j <= self.data_client_to_server@.len(),
                out@ == self@.header().bytes() + self.data_server_to_client@
                    + self.data_client_to_server@.take(j as int),
            decreases self.data_client_to_server@.len() - j,
        {
            out.push(self.data_client_to_server[j]);
            j = j + 1;
            assert(out@ =~= self@.header().bytes() + self.data_server_to_client@
                + self.data_client_to_server@.take(j as int));
        }
        assert(self.data_client_to_server@.take(j as int) =~= self.data_client_to_server@);
        out
    }
}

} // verus!
