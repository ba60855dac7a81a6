use vstd::prelude::*;

use crate::buf::{buf_bytes, buf_len, buf_new};
use crate::lock::{bilock_lock, bilock_new, bilock_unlock};
use crate::outcome::{
    flush_action, flush_closes, flush_step, read_closes, read_reply, settle_read, FlushAction,
    FlushEvent, Outcome,
};
use crate::IoBuf;
use futures::sync::{BiLock, BiLockAcquire, BiLockAcquired};
use netbuf::Buf;

verus! {

/// The part of a split stream that its two halves share under a lock: the
/// socket and whether the peer has closed the connection.
pub struct Shared<S> {
    pub socket: S,
    done: bool,
}

impl<S> Shared<S> {
    /// The socket.
    pub closed spec fn sock(&self) -> S {
        self.socket
    }

    /// The peer has closed the connection.
    pub closed spec fn is_done(&self) -> bool {
        self.done
    }

    /// A shared part holding `socket`, closed or not as `done` says.
    pub fn new(socket: S, done: bool) -> (r: Shared<S>)
        ensures
            r.sock() == socket,
            r.is_done() == done,
    {
        Shared { socket, done }
    }

    /// Returns true when connection is closed by peer.
    pub fn done(&self) -> (r: bool)
        ensures
            r == self.is_done(),
    {
        self.done
    }

    pub(crate) fn set_done(&mut self, done: bool)
        ensures
            final(self).is_done() == done,
            final(self).sock() == old(self).sock(),
    {
        self.done = done;
    }
}

/// An input counterpart of IoBuf when the latter is split.
///
/// Reading needs the shared part, which the caller locks (`shared`) and
/// hands to `read`; while it is locked elsewhere a read reads nothing.
#[verifier::reject_recursive_types(S)]
pub struct ReadBuf<S> {
    pub in_buf: Buf,
    pub shared: BiLock<Shared<S>>,
    /// The shared part that `create` handed to the lock when it made this
    /// half (`None` for a half made otherwise).  The lock itself is opaque
    /// here; this record is what contracts say of it.
    pub split_from: Ghost<Option<Shared<S>>>,
}

/// An output counterpart of IoBuf when the latter is split.
///
/// Flushing needs the shared part, which the caller locks (`shared`) and
/// hands to `flush`; while it is locked elsewhere a flush writes nothing.
#[verifier::reject_recursive_types(S)]
pub struct WriteBuf<S> {
    pub out_buf: Buf,
    pub shared: BiLock<Shared<S>>,
    /// The shared part that `create` handed to the lock when it made this
    /// half (`None` for a half made otherwise, such as by
    /// `WriteRaw::into_buf`).  The lock itself is opaque here; this record is
    /// what contracts say of it.
    pub split_from: Ghost<Option<Shared<S>>>,
}

/// A structure that locks IoBuf and allows you to write to the socket
/// directly, that is without buffering and presumably with some zero-copy
/// method like `sendfile()` or `splice()`.
///
/// Note: when `WriteRaw` is alive `ReadBuf` is alive, but locked and will
/// wake up as quick as `WriteRaw` is converted back to `WriteBuf`.
#[verifier::reject_recursive_types(S)]
pub struct WriteRaw<S> {
    pub io: BiLockAcquired<Shared<S>>,
}

/// The states of the future that turns a `WriteBuf` into a `WriteRaw`.
#[verifier::reject_recursive_types(S)]
pub enum WriteRawFutState<S> {
    /// The output buffer is being written out.
    Flushing(WriteBuf<S>),
    /// The buffer is empty; the lock is being acquired.
    Locking(BiLockAcquire<Shared<S>>),
    /// The future has resolved (or is between two states of a poll).
    Done,
}

/// A future which converts `WriteBuf` into `WriteRaw`.
#[verifier::reject_recursive_types(S)]
pub struct FutureWriteRaw<S>(pub WriteRawFutState<S>);

/// Split a stream into its output and input halves, which share the
/// socket and the connection state under a lock.  Each half keeps the
/// buffer of its own direction.
pub fn create<S>(in_buf: Buf, out_buf: Buf, socket: S, done: bool) -> (r: (WriteBuf<S>, ReadBuf<S>))
    ensures
        buf_bytes(r.0.out_buf) == buf_bytes(out_buf),
        buf_bytes(r.1.in_buf) == buf_bytes(in_buf),
        r.0.split_from@ is Some,
        r.1.split_from@ == r.0.split_from@,
        r.0.split_from@->Some_0.sock() == socket,
        r.0.split_from@->Some_0.is_done() == done,
{
    let shared = Shared::new(socket, done);
    let ghost made = Some(shared);
    let (a, b) = bilock_new(shared);
    (
        WriteBuf { out_buf: out_buf, shared: b, split_from: Ghost(made) },
        ReadBuf { in_buf: in_buf, shared: a, split_from: Ghost(made) },
    )
}

impl<S> ReadBuf<S> {
    /// Settle one read of the socket into `in_buf` (`netbuf::Buf::read_from`),
    /// made while the shared part `locked` was held, given its outcome.
    ///
    /// The answer is `0` when no bytes were read, both when the socket would
    /// block and when the connection has been closed; `done()` tells the two
    /// apart.  Any other failure is passed on as it came.
    pub fn read(&self, locked: &mut Shared<S>, outcome: Outcome<usize>) -> (r: Result<
        usize,
        std::io::Error,
    >)
        ensures
            r == read_reply(outcome),
            final(locked).is_done() == (old(locked).is_done() || read_closes(outcome)),
            final(locked).sock() == old(locked).sock(),
    {
        let (done, reply) = settle_read(locked.done, outcome);
        locked.done = done;
        reply
    }

    /// Returns true when connection is closed by peer, as the shared part
    /// `locked` records it.
    pub fn done(&self, locked: &Shared<S>) -> (r: bool)
        ensures
            r == locked.is_done(),
    {
        locked.done()
    }

    /// A read while the other half holds the shared part: nothing is read,
    /// and it answers `0` (the caller is woken when the lock is freed).
    pub fn read_busy(&self) -> (r: Result<usize, std::io::Error>)
        ensures
            r == Ok::<usize, std::io::Error>(0),
    {
        Ok(0)
    }

    /// Whether the connection is closed, asked while the other half holds the
    /// shared part: it answers false.
    pub fn done_busy(&self) -> (r: bool)
        ensures
            !r,
    {
        false
    }
}

impl<S> WriteBuf<S> {
    /// One step of writing the output buffer to the socket of the shared
    /// part `locked`: given what the previous step reported, the action to
    /// take next.  The caller starts with `FlushEvent::Start` and goes on
    /// until `Finished`.
    pub fn flush(&self, locked: &mut Shared<S>, event: FlushEvent) -> (r: FlushAction)
        ensures
            r == flush_action(buf_bytes(self.out_buf).len(), event),
            final(locked).is_done() == (old(locked).is_done() || flush_closes(event)),
            final(locked).sock() == old(locked).sock(),
    {
        let pending = buf_len(&self.out_buf);
        let (done, action) = flush_step(pending, locked.done, event);
        locked.done = done;
        action
    }

    /// Returns true when connection is closed by peer, as the shared part
    /// `locked` records it.
    pub fn done(&self, locked: &Shared<S>) -> (r: bool)
        ensures
            r == locked.is_done(),
    {
        locked.done()
    }

    /// A flush while the other half holds the shared part: nothing is
    /// written, and it succeeds (the caller is woken when the lock is freed).
    pub fn flush_busy(&self) -> (r: Result<(), std::io::Error>)
        ensures
            r == Ok::<(), std::io::Error>(()),
    {
        Ok(())
    }

    /// Whether the connection is closed, asked while the other half holds the
    /// shared part: it answers false.
    pub fn done_busy(&self) -> (r: bool)
        ensures
            !r,
    {
        false
    }

    /// Returns a future which will resolve into WriteRaw, once the output
    /// buffer is fully flushed to the network and the lock is acquired.  With
    /// an empty output buffer it goes straight to acquiring the lock.
    ///
    /// Note: `WriteRaw` will lock the underlying stream for the whole
    /// lifetime of the `WriteRaw`.
    pub fn borrow_raw(self) -> (r: FutureWriteRaw<S>)
        ensures
            buf_bytes(self.out_buf).len() == 0 ==> r.0 is Locking,
            buf_bytes(self.out_buf).len() != 0 ==> r.0 == WriteRawFutState::Flushing(self),
    {
        if buf_len(&self.out_buf) == 0 {
            FutureWriteRaw(WriteRawFutState::Locking(bilock_lock(self.shared)))
        } else {
            FutureWriteRaw(WriteRawFutState::Flushing(self))
        }
    }
}

impl<S> WriteRaw<S> {
    /// Turn raw writer back into buffered and release internal BiLock.
    /// The buffered writer starts with an empty output buffer.
    pub fn into_buf(self) -> (r: WriteBuf<S>)
        ensures
            buf_bytes(r.out_buf) == Seq::<u8>::empty(),
            r.split_from@ is None,
    {
        WriteBuf { out_buf: buf_new(), shared: bilock_unlock(self.io), split_from: Ghost(None) }
    }
}

impl<S> FutureWriteRaw<S> {
    /// Take the state out at the start of a poll, leaving `Done` behind.
    /// Polling after completion is a caller's error (the state is `Done`).
    pub fn take_state(&mut self) -> (r: WriteRawFutState<S>)
        requires
            !(old(self).0 is Done),
        ensures
            r == old(self).0,
            final(self).0 is Done,
    {
        let mut state = WriteRawFutState::Done;
        std::mem::swap(&mut state, &mut self.0);
        state
    }

    /// The state that follows a successful flush of `buf`: acquiring the
    /// lock once its output buffer is empty, and flushing on otherwise.
    pub fn after_flush(buf: WriteBuf<S>) -> (r: WriteRawFutState<S>)
        ensures
            buf_bytes(buf.out_buf).len() == 0 ==> r is Locking,
            buf_bytes(buf.out_buf).len() != 0 ==> r == WriteRawFutState::Flushing(buf),
    {
        if buf_len(&buf.out_buf) == 0 {
            WriteRawFutState::Locking(bilock_lock(buf.shared))
        } else {
            WriteRawFutState::Flushing(buf)
        }
    }
}

impl<S> IoBuf<S> {
    /// Split the stream into its output and input halves: the output half
    /// keeps the output buffer and the input half the input buffer, and the
    /// two share one part holding the stream's socket and its connection
    /// state (closed exactly when the stream was).
    pub fn split(self) -> (r: (WriteBuf<S>, ReadBuf<S>))
        ensures
            buf_bytes(r.0.out_buf) == self.output(),
            buf_bytes(r.1.in_buf) == self.input(),
            r.0.split_from@ is Some,
            r.1.split_from@ == r.0.split_from@,
            r.0.split_from@->Some_0.sock() == self.sock(),
            r.0.split_from@->Some_0.is_done() == self.is_done(),
    {
        let (in_buf, out_buf, socket, done) = self.into_parts();
        create(in_buf, out_buf, socket, done)
    }
}

} // verus!
