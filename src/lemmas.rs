use vstd::prelude::*;
use vstd::utf8::{decode_utf8, valid_utf8};

use crate::shared_memory::{clamped, message_of, stored, MessageView, Received, WaitOutcome};
use crate::skima::{SegmentView, FLAG_CLOSED, FLAG_CONSUMED, FLAG_IDLE};

verus! {

/// What a reader is handed when a message of `p` is sent into a direction
/// and then read after a signalled wait: the first `buffer_size` bytes of `p`
/// at most.
pub proof fn lemma_send_then_receive(s: SegmentView, server_to_client: bool, p: Seq<u8>)
    requires
        s.wf(),
    ensures
        s.after_send(server_to_client, p).receive_result(server_to_client, WaitOutcome::Signaled)
            == Received::Bytes(p.take(clamped(p.len() as int, s.buffer_size) as int)),
        s.after_send(server_to_client, p).wf(),
{
    let n = clamped(p.len() as int, s.buffer_size);
    let t = s.after_send(server_to_client, p);
    assert(t.lane(server_to_client).data.take(n as int) =~= p.take(n as int));
}

/// A message no longer than the buffer arrives exactly as it was sent, both
/// as bytes and, where it is valid UTF-8, as the text it encodes.
pub proof fn lemma_round_trip(s: SegmentView, server_to_client: bool, p: Seq<u8>)
    requires
        s.wf(),
        p.len() <= s.buffer_size,
    ensures
        s.after_send(server_to_client, p).receive_result(server_to_client, WaitOutcome::Signaled)
            == Received::Bytes(p),
        valid_utf8(p) ==> message_of(
            s.after_send(server_to_client, p).receive_result(
                server_to_client,
                WaitOutcome::Signaled,
            ),
        ) == MessageView::Message(decode_utf8(p)),
{
    lemma_send_then_receive(s, server_to_client, p);
    assert(p.take(p.len() as int) =~= p);
}

/// A message longer than the buffer arrives cut to its first `buffer_size`
/// bytes.
pub proof fn lemma_truncation(s: SegmentView, server_to_client: bool, p: Seq<u8>)
    requires
        s.wf(),
        p.len() > s.buffer_size,
    ensures
        s.after_send(server_to_client, p).receive_result(server_to_client, WaitOutcome::Signaled)
            == Received::Bytes(p.take(s.buffer_size as int)),
{
    lemma_send_then_receive(s, server_to_client, p);
}

/// A message of exactly `buffer_size` bytes arrives unchanged.
pub proof fn lemma_exact_boundary(s: SegmentView, server_to_client: bool, p: Seq<u8>)
    requires
        s.wf(),
        p.len() == s.buffer_size,
    ensures
        s.after_send(server_to_client, p).receive_result(server_to_client, WaitOutcome::Signaled)
            == Received::Bytes(p),
{
    lemma_round_trip(s, server_to_client, p);
}

/// With nothing pending in a direction (its flag idle or consumed), a
/// receive whose wait did not fail reports `Timeout`, whether its wait ran
/// out or was woken, and changes nothing.
pub proof fn lemma_nothing_pending_times_out(
    s: SegmentView,
    server_to_client: bool,
    wait: WaitOutcome,
)
    requires
        s.wf(),
        s.lane(server_to_client).flag == FLAG_IDLE || s.lane(server_to_client).flag
            == FLAG_CONSUMED,
        wait != WaitOutcome::Failed,
    ensures
        s.receive_result(server_to_client, wait) == Received::Timeout,
        s.after_receive(server_to_client, wait) == s,
{
}

/// The outcomes of a run of receives on one direction, one for each way
/// that its wait ended.
pub open spec fn receive_run(s: SegmentView, server_to_client: bool, waits: Seq<WaitOutcome>) -> Seq<
    Received,
>
    decreases waits.len(),
{
    if waits.len() == 0 {
        Seq::empty()
    } else {
        seq![s.receive_result(server_to_client, waits[0])] + receive_run(
            s.after_receive(server_to_client, waits[0]),
            server_to_client,
            waits.drop_first(),
        )
    }
}

/// Once a direction is closed, receives leave the segment as it is, and
/// every one of them whose wait was signalled reports `Exit`.
pub proof fn lemma_close_is_final(
    s: SegmentView,
    server_to_client: bool,
    waits: Seq<WaitOutcome>,
)
    requires
        s.wf(),
    ensures
        receive_run(s.after_close(server_to_client), server_to_client, waits).len() == waits.len(),
        forall|i: int|
            0 <= i < waits.len() && waits[i] == WaitOutcome::Signaled ==> #[trigger] receive_run(
                s.after_close(server_to_client),
                server_to_client,
                waits,
            )[i] == Received::Exit,
{
    lemma_closed_run(s.after_close(server_to_client), server_to_client, waits);
}

proof fn lemma_closed_run(c: SegmentView, server_to_client: bool, waits: Seq<WaitOutcome>)
    requires
        c.lane(server_to_client).flag == FLAG_CLOSED,
    ensures
        receive_run(c, server_to_client, waits).len() == waits.len(),
        forall|i: int|
            0 <= i < waits.len() && waits[i] == WaitOutcome::Signaled ==> #[trigger] receive_run(
                c,
                server_to_client,
                waits,
            )[i] == Received::Exit,
    decreases waits.len(),
{
    if waits.len() > 0 {
        assert(c.after_receive(server_to_client, waits[0]) == c);
        lemma_closed_run(c, server_to_client, waits.drop_first());
        let run = receive_run(c, server_to_client, waits);
        let rest = receive_run(c, server_to_client, waits.drop_first());
        assert(run == seq![c.receive_result(server_to_client, waits[0])] + rest);
        assert forall|i: int|
            0 <= i < waits.len() && waits[i] == WaitOutcome::Signaled implies #[trigger] run[i]
            == Received::Exit by {
            if i > 0 {
                assert(run[i] == rest[i - 1]);
                assert(waits.drop_first()[i - 1] == waits[i]);
            }
        }
    }
}

/// The two directions do not touch each other: sending, closing or
/// receiving on one leaves what a receive on the other reports, and the
/// other's state, as they were.
pub proof fn lemma_directions_independent(
    s: SegmentView,
    server_to_client: bool,
    p: Seq<u8>,
    wait: WaitOutcome,
    other_wait: WaitOutcome,
)
    requires
        s.wf(),
    ensures
        s.after_send(server_to_client, p).lane(!server_to_client) == s.lane(!server_to_client),
        s.after_close(server_to_client).lane(!server_to_client) == s.lane(!server_to_client),
        s.after_receive(server_to_client, wait).lane(!server_to_client) == s.lane(
            !server_to_client,
        ),
        s.after_send(server_to_client, p).receive_result(!server_to_client, other_wait)
            == s.receive_result(!server_to_client, other_wait),
        s.after_close(server_to_client).receive_result(!server_to_client, other_wait)
            == s.receive_result(!server_to_client, other_wait),
        s.after_receive(server_to_client, wait).receive_result(!server_to_client, other_wait)
            == s.receive_result(!server_to_client, other_wait),
{
}

} // verus!
