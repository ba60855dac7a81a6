use vstd::prelude::*;

use crate::buf::{buf_bytes, buf_len, buf_new, buf_write, GROW_LIMIT};
use crate::outcome::{
    done_after, event_closes, law_closed_exactly_when_reported, ConnEvent,
    flush_action, flush_closes, flush_step, read_closes, read_reply, settle_read, FlushAction,
    FlushEvent, Outcome,
};
use crate::frame::{Decode, Encode};
use netbuf::Buf;

verus! {

/// A full-duplex stream: a socket with an input buffer, into which reads
/// put the bytes that arrive, and an output buffer, whose bytes flushes
/// write to the socket.
///
/// The socket itself is driven by the caller: it performs the read, write
/// or flush that an operation asks for and hands the outcome back here,
/// where the decision is taken.
pub struct IoBuf<S> {
    pub in_buf: Buf,
    pub out_buf: Buf,
    pub socket: S,
    done: bool,
}

/// What a write of `len` bytes answers once the flush it began has ended:
/// the number of bytes written, or the flush's error.
pub open spec fn write_answer(len: nat, flushed: Result<(), std::io::Error>) -> Result<usize, std::io::Error> {
    match flushed {
        Ok(()) => Ok(len as usize),
        Err(e) => Err(e),
    }
}

impl<S> IoBuf<S> {
    /// The bytes waiting in the input buffer.
    pub closed spec fn input(&self) -> Seq<u8> {
        buf_bytes(self.in_buf)
    }

    /// The bytes waiting in the output buffer.
    pub closed spec fn output(&self) -> Seq<u8> {
        buf_bytes(self.out_buf)
    }

    /// The socket.
    pub closed spec fn sock(&self) -> S {
        self.socket
    }

    /// The peer has closed the connection.
    pub closed spec fn is_done(&self) -> bool {
        self.done
    }

    /// Create a new IoBuf object with empty buffers.
    pub fn new(sock: S) -> (r: IoBuf<S>)
        ensures
            r.input() == Seq::<u8>::empty(),
            r.output() == Seq::<u8>::empty(),
            r.sock() == sock,
            !r.is_done(),
    {
        IoBuf { in_buf: buf_new(), out_buf: buf_new(), socket: sock, done: false }
    }

    /// Settle one read of the socket into `in_buf` (`netbuf::Buf::read_from`),
    /// given its outcome.
    ///
    /// The answer is `0` when no bytes were read, both when the socket would
    /// block and when the connection has been closed; `done()` tells the two
    /// apart.  Any other failure is passed on as it came.
    pub fn read(&mut self, outcome: Outcome<usize>) -> (r: Result<usize, std::io::Error>)
        ensures
            r == read_reply(outcome),
            final(self).is_done() == (old(self).is_done() || read_closes(outcome)),
            final(self).input() == old(self).input(),
            final(self).output() == old(self).output(),
            final(self).sock() == old(self).sock(),
    {
        let (done, reply) = settle_read(self.done, outcome);
        self.done = done;
        reply
    }

    /// One step of writing the output buffer to the socket: given what the
    /// previous step reported, the action to take next.  The caller starts
    /// with `FlushEvent::Start` and goes on until `Finished`.
    pub fn flush(&mut self, event: FlushEvent) -> (r: FlushAction)
        ensures
            r == flush_action(old(self).output().len(), event),
            final(self).is_done() == (old(self).is_done() || flush_closes(event)),
            final(self).input() == old(self).input(),
            final(self).output() == old(self).output(),
            final(self).sock() == old(self).sock(),
    {
        let pending = buf_len(&self.out_buf);
        let (done, action) = flush_step(pending, self.done, event);
        self.done = done;
        action
    }

    /// The buffers, the socket and the connection state, taken apart.
    pub(crate) fn into_parts(self) -> (r: (Buf, Buf, S, bool))
        ensures
            buf_bytes(r.0) == self.input(),
            buf_bytes(r.1) == self.output(),
            r.2 == self.sock(),
            r.3 == self.is_done(),
    {
        (self.in_buf, self.out_buf, self.socket, self.done)
    }

    /// The number of bytes waiting in the output buffer.
    pub(crate) fn output_len(&self) -> (n: usize)
        ensures
            n == self.output().len(),
    {
        buf_len(&self.out_buf)
    }

    /// Let `codec` decode a frame from the input buffer.  Only the input
    /// buffer and the codec are handed to it.
    pub(crate) fn decode_input<C: Decode>(&mut self, codec: &mut C) -> (r: Result<
        Option<C::Item>,
        std::io::Error,
    >)
        ensures
            old(codec).decodes(old(self).input(), *final(codec), final(self).input(), r),
            final(self).output() == old(self).output(),
            final(self).sock() == old(self).sock(),
            final(self).is_done() == old(self).is_done(),
    {
        codec.decode(&mut self.in_buf)
    }

    /// Let `codec` encode `item` into the output buffer.  Only the output
    /// buffer and the codec are handed to it.
    pub(crate) fn encode_output<C: Encode>(&mut self, codec: &mut C, item: C::Item)
        ensures
            old(codec).encodes(item, old(self).output(), final(self).output()),
            final(self).input() == old(self).input(),
            final(self).sock() == old(self).sock(),
            final(self).is_done() == old(self).is_done(),
    {
        codec.encode(item, &mut self.out_buf)
    }

    /// Returns true when connection is closed by peer.
    pub fn done(&self) -> (r: bool)
        ensures
            r == self.is_done(),
    {
        self.done
    }

    /// Buffer `data` for output and begin a flush (the writing half of
    /// `std::io::Write::write`; once the flush has finished without an error
    /// the write answers `data.len()`).
    pub fn write(&mut self, data: &[u8]) -> (r: FlushAction)
        requires
            old(self).output().len() + data@.len() < GROW_LIMIT,
        ensures
            final(self).output() == old(self).output() + data@,
            r == flush_action(final(self).output().len(), FlushEvent::Start),
            final(self).is_done() == old(self).is_done(),
            final(self).input() == old(self).input(),
            final(self).sock() == old(self).sock(),
    {
        let _ = buf_write(&mut self.out_buf, data);
        self.flush(FlushEvent::Start)
    }

    /// The answer of the write of `data` once the flush that `write` began
    /// has ended with `flushed`: all of `data` is taken, or the flush's
    /// error is passed on.
    pub fn write_done(&self, data: &[u8], flushed: Result<(), std::io::Error>) -> (r: Result<
        usize,
        std::io::Error,
    >)
        ensures
            r == write_answer(data@.len(), flushed),
    {
        match flushed {
            Ok(()) => Ok(data.len()),
            Err(e) => Err(e),
        }
    }
}

} // verus!
verus! {

/// Step `i` of a run of operations settles `done` as the event says.
pub open spec fn settles<S>(states: Seq<IoBuf<S>>, events: Seq<ConnEvent>, i: int) -> bool {
    states[i + 1].is_done() == (states[i].is_done() || event_closes(events[i]))
}

/// Over a run of operations on one stream, `done` is set exactly when it
/// was set at the start or some operation saw the peer go (a read of
/// nothing, or a read, write or flush failing with a broken pipe or a
/// reset), and once set it stays set.
///
/// `states` are the stream before and after each operation and `events` the
/// outcomes they settled: each step is related as `IoBuf::read`,
/// `IoBuf::flush` and `IoBuf::write` (a flush `Start`) ensure, and `done()`
/// changes nothing.
pub proof fn law_iobuf_done_over_run<S>(states: Seq<IoBuf<S>>, events: Seq<ConnEvent>)
    requires
        states.len() == events.len() + 1,
        forall|i: int| 0 <= i < events.len() ==> #[trigger] settles(states, events, i),
    ensures
        states.last().is_done() == done_after(states[0].is_done(), events),
        states.last().is_done() == (states[0].is_done() || exists|i: int|
            0 <= i < events.len() && #[trigger] event_closes(events[i])),
{
    lemma_done_from(states, events, 0);
    assert(events.subrange(0, events.len() as int) =~= events);
    law_closed_exactly_when_reported(states[0].is_done(), events);
}

proof fn lemma_done_from<S>(states: Seq<IoBuf<S>>, events: Seq<ConnEvent>, k: int)
    requires
        states.len() == events.len() + 1,
        0 <= k <= events.len(),
        forall|i: int| 0 <= i < events.len() ==> #[trigger] settles(states, events, i),
    ensures
        states.last().is_done() == done_after(
            states[k].is_done(),
            events.subrange(k, events.len() as int),
        ),
    decreases events.len() - k,
{
    let rest = events.subrange(k, events.len() as int);
    if k < events.len() {
        lemma_done_from(states, events, k + 1);
        assert(settles(states, events, k));
        assert(rest[0] == events[k]);
        assert(rest.drop_first() =~= events.subrange(k + 1, events.len() as int));
    } else {
        assert(rest.len() == 0);
    }
}

} // verus!
