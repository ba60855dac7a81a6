use vstd::prelude::*;

use crate::buf::buf_bytes;
use crate::outcome::{
    io_error_with_message, read_closes, read_reply, settle_read, Async, AsyncSink, ErrorKind,
    Outcome,
};
use crate::split::{ReadBuf, Shared, WriteBuf};
use crate::IoBuf;
use netbuf::Buf;

verus! {

/// Decoding of a frame from an internal buffer.
///
/// This trait is used when constructing an instance of `Framed`. It defines how
/// to decode the incoming bytes on a stream to the specified type of frame for
/// that framed I/O stream.
///
/// The primary method of this trait, `decode`, attempts to decode a
/// frame from a buffer of bytes. It has the option of returning `Ok(None)`,
/// indicating that more bytes need to be read before decoding can
/// continue.
pub trait Decode: Sized {
    /// Decoded message
    type Item;

    /// What a codec's `decode` does: from this codec state and the buffer
    /// holding `before`, it may leave the codec as `after_codec` and the
    /// buffer holding `after`, and answer `res`.  A codec states this of
    /// itself (one that removes a decoded frame from the front of the buffer
    /// says so here); one that states nothing keeps this default, which
    /// claims nothing.
    closed spec fn decodes(
        &self,
        before: Seq<u8>,
        after_codec: Self,
        after: Seq<u8>,
        res: Result<Option<Self::Item>, std::io::Error>,
    ) -> bool {
        true
    }

    /// Attempts to decode a frame from the provided buffer of bytes.
    ///
    /// If an entire frame is available, then this instance will remove those
    /// bytes from the buffer provided and return them as a decoded frame.
    /// If the bytes look valid, but a frame isn't fully available yet, then
    /// `Ok(None)` is returned.  If the bytes in the buffer are malformed then
    /// an error is returned indicating why.
    fn decode(&mut self, buf: &mut Buf) -> (r: Result<Option<Self::Item>, std::io::Error>)
        ensures
            old(self).decodes(buf_bytes(*old(buf)), *final(self), buf_bytes(*final(buf)), r),
    ;

    /// Called when there are no more bytes available to be read from the
    /// underlying I/O: decodes once more, and fails if no whole frame is
    /// left (see `finish_decoding`).
    fn done(&mut self, buf: &mut Buf) -> (r: Result<Self::Item, std::io::Error>)
        default_ensures
            exists|res: Result<Option<Self::Item>, std::io::Error>|
                #![trigger old(self).decodes(buf_bytes(*old(buf)), *final(self), buf_bytes(*final(buf)), res)]
                old(self).decodes(buf_bytes(*old(buf)), *final(self), buf_bytes(*final(buf)), res)
                    && finishes(res, r),
    {
        let res = self.decode(buf);
        finish_decoding(res)
    }
}

/// What `Decode::done` answers to what the last `decode` gave: the frame
/// when there is one, the decoding error as it came, and an error when no
/// whole frame is left.
pub open spec fn finishes<I>(res: Result<Option<I>, std::io::Error>, r: Result<I, std::io::Error>) -> bool {
    match res {
        Ok(Some(frame)) => r == Ok::<I, std::io::Error>(frame),
        Ok(None) => r is Err,
        Err(e) => r == Err::<I, std::io::Error>(e),
    }
}

/// The answer of `Decode::done` to what the last `decode` gave, as
/// `finishes` says; the error when no whole frame is left is of kind
/// `Other` ("bytes remaining on stream").
pub fn finish_decoding<I>(res: Result<Option<I>, std::io::Error>) -> (r: Result<I, std::io::Error>)
    ensures
        finishes(res, r),
{
    match res {
        Ok(Some(frame)) => Ok(frame),
        Ok(None) => Err(io_error_with_message(ErrorKind::Other, "bytes remaining on stream").error),
        Err(e) => Err(e),
    }
}

/// A trait for encoding frames into a byte buffer.
///
/// Each frame written to `Framed` will be encoded with this trait to an
/// internal buffer. That buffer is then written out when possible to the
/// underlying I/O stream.
pub trait Encode {
    /// Value to encode
    type Item: Sized;

    /// What a codec's `encode` does: from this codec state, encoding `value`
    /// into the buffer holding `before` may leave it holding `after`.  A
    /// codec states this of itself (one that appends the encoding of the
    /// value says so here); one that states nothing keeps this default,
    /// which claims nothing.
    closed spec fn encodes(&self, value: Self::Item, before: Seq<u8>, after: Seq<u8>) -> bool {
        true
    }

    /// Encodes a frame into the buffer provided.
    fn encode(&mut self, value: Self::Item, buf: &mut Buf)
        ensures
            old(self).encodes(value, buf_bytes(*old(buf)), buf_bytes(*final(buf))),
    ;
}

/// What the polling of a frame stream has just learnt.
pub enum StreamEvent {
    /// A poll begins.
    Poll,
    /// The socket was read into the input buffer, with this outcome.
    Read(Outcome<usize>),
}

/// What the polling of a frame stream does next.
pub enum StreamAction<I> {
    /// The poll answers this: a frame, or `None` at the end of the stream.
    Ready(Option<I>),
    /// The poll answers that no frame is ready yet.
    NotReady,
    /// Read the socket into the input buffer, then report `Read`.
    ReadIn,
    /// The poll fails with this error.
    Fail(std::io::Error),
}

/// The step that follows a decoding attempt: a decoded frame is answered,
/// a partial frame asks for more input, and a decoding error fails the poll.
pub open spec fn decode_action<I>(res: Result<Option<I>, std::io::Error>) -> StreamAction<I> {
    match res {
        Ok(Some(frame)) => StreamAction::Ready(Some(frame)),
        Ok(None) => StreamAction::ReadIn,
        Err(e) => StreamAction::Fail(e),
    }
}

/// The step that follows a decoding attempt, as `decode_action` says.
pub fn after_decode<I>(res: Result<Option<I>, std::io::Error>) -> (r: StreamAction<I>)
    ensures
        r == decode_action(res),
{
    match res {
        Ok(Some(frame)) => StreamAction::Ready(Some(frame)),
        Ok(None) => StreamAction::ReadIn,
        Err(e) => StreamAction::Fail(e),
    }
}

/// `r` is the step that follows one decoding attempt of `codec` on a buffer
/// holding `input`, after which the codec is `after` and the buffer holds
/// `rest`: the step that `decode_action` makes of what the codec answered.
pub open spec fn decoded_to<C: Decode>(
    codec: C,
    input: Seq<u8>,
    after: C,
    rest: Seq<u8>,
    r: StreamAction<C::Item>,
) -> bool {
    exists|res: Result<Option<C::Item>, std::io::Error>|
        #![trigger codec.decodes(input, after, rest, res)]
        codec.decodes(input, after, rest, res) && r == decode_action(res)
}

/// The step that follows a read of the socket, given what the read answered
/// and whether the connection is now closed: an error fails the poll; no
/// bytes end the stream once the connection is closed and leave the poll
/// not ready otherwise; new bytes lead to another decoding attempt (`None`).
pub open spec fn read_action<I>(reply: Result<usize, std::io::Error>, done: bool) -> Option<
    StreamAction<I>,
> {
    match reply {
        Err(e) => Some(StreamAction::Fail(e)),
        Ok(n) => if n != 0 {
            None
        } else if done {
            Some(StreamAction::Ready(None))
        } else {
            Some(StreamAction::NotReady)
        },
    }
}

/// What a poll for completion answers once the flush it makes has ended.
pub open spec fn complete_answer(flushed: Result<(), std::io::Error>) -> Result<Async<()>, std::io::Error> {
    match flushed {
        Ok(()) => Ok(Async::Ready(())),
        Err(e) => Err(e),
    }
}

fn complete_after_flush(flushed: Result<(), std::io::Error>) -> (r: Result<Async<()>, std::io::Error>)
    ensures
        r == complete_answer(flushed),
{
    match flushed {
        Ok(()) => Ok(Async::Ready(())),
        Err(e) => Err(e),
    }
}

/// A unified `Stream` and `Sink` interface to an underlying `IoBuf`, using
/// the `Encode` and `Decode` traits to encode and decode frames.
pub struct Framed<T, C>(IoBuf<T>, C);

/// Layer framing on top of `io` with `codec`.
pub fn framed<T, C>(io: IoBuf<T>, codec: C) -> (r: Framed<T, C>)
    ensures
        r.io() == io,
        r.codec() == codec,
{
    Framed(io, codec)
}

impl<T, C> Framed<T, C> {
    /// The underlying stream.
    pub closed spec fn io(&self) -> IoBuf<T> {
        self.0
    }

    /// The codec.
    pub closed spec fn codec(&self) -> C {
        self.1
    }

    /// Returns a reference to the underlying I/O stream wrapped by `Framed`.
    pub fn get_ref(&self) -> (r: &IoBuf<T>)
        ensures
            *r == self.io(),
    {
        &self.0
    }

    /// Returns a mutable reference to the underlying I/O stream wrapped by
    /// `Framed`.
    ///
    /// Note that care should be taken to not tamper with the underlying stream
    /// of data coming in as it may corrupt the stream of frames otherwise being
    /// worked with.
    pub fn get_mut(&mut self) -> (r: &mut IoBuf<T>)
        ensures
            *r == old(self).io(),
            final(self).io() == *final(r),
            final(self).codec() == old(self).codec(),
    {
        &mut self.0
    }

    /// Consumes the `Framed`, returning its underlying I/O stream.
    ///
    /// Note that stream may contain both input and output data buffered.
    pub fn into_inner(self) -> (r: IoBuf<T>)
        ensures
            r == self.io(),
    {
        self.0
    }
}

impl<T, C: Decode> Framed<T, C> {
    /// One step of polling for the next frame: given what the previous step
    /// reported, the action to take next.  A poll starts with
    /// `StreamEvent::Poll`; each `ReadIn` is answered with `Read`.
    ///
    /// The codec decodes from the input buffer; when it needs more bytes the
    /// socket is read; a read that brings nothing ends the stream once the
    /// connection is closed and leaves the poll not ready otherwise.
    pub fn poll(&mut self, event: StreamEvent) -> (r: StreamAction<C::Item>)
        ensures
            final(self).io().output() == old(self).io().output(),
            final(self).io().sock() == old(self).io().sock(),
            match event {
                StreamEvent::Poll => {
                    &&& decoded_to(
                        old(self).codec(),
                        old(self).io().input(),
                        final(self).codec(),
                        final(self).io().input(),
                        r,
                    )
                    &&& final(self).io().is_done() == old(self).io().is_done()
                },
                StreamEvent::Read(outcome) => {
                    &&& final(self).io().is_done() == (old(self).io().is_done() || read_closes(
                        outcome,
                    ))
                    &&& match read_action::<C::Item>(
                        read_reply(outcome),
                        final(self).io().is_done(),
                    ) {
                        Some(a) => r == a && final(self).io().input() == old(self).io().input()
                            && final(self).codec() == old(self).codec(),
                        None => decoded_to(
                            old(self).codec(),
                            old(self).io().input(),
                            final(self).codec(),
                            final(self).io().input(),
                            r,
                        ),
                    }
                },
            },
    {
        match event {
            StreamEvent::Poll => self.decode_step(),
            StreamEvent::Read(outcome) => {
                match self.0.read(outcome) {
                    Err(e) => StreamAction::Fail(e),
                    Ok(n) => {
                        if n != 0 {
                            self.decode_step()
                        } else if self.0.done() {
                            StreamAction::Ready(None)
                        } else {
                            StreamAction::NotReady
                        }
                    },
                }
            },
        }
    }

    fn decode_step(&mut self) -> (r: StreamAction<C::Item>)
        ensures
            decoded_to(
                old(self).codec(),
                old(self).io().input(),
                final(self).codec(),
                final(self).io().input(),
                r,
            ),
            final(self).io().output() == old(self).io().output(),
            final(self).io().sock() == old(self).io().sock(),
            final(self).io().is_done() == old(self).io().is_done(),
    {
        let res = self.0.decode_input(&mut self.1);
        let r = after_decode(res);
        assert(r == decode_action(res));
        r
    }
}

impl<T, C: Encode> Framed<T, C> {
    /// Encode `item` into the output buffer with the codec; it is written to
    /// the socket by the next flush, so the item is always taken.  The input
    /// buffer, the socket and the connection state are left as they are.
    pub fn start_send(&mut self, item: C::Item) -> (r: Result<AsyncSink<C::Item>, std::io::Error>)
        ensures
            r == Ok::<AsyncSink<C::Item>, std::io::Error>(AsyncSink::Ready),
            old(self).codec().encodes(item, old(self).io().output(), final(self).io().output()),
            final(self).io().input() == old(self).io().input(),
            final(self).io().sock() == old(self).io().sock(),
            final(self).io().is_done() == old(self).io().is_done(),
    {
        self.0.encode_output(&mut self.1, item);
        Ok(AsyncSink::Ready)
    }

    /// The answer of a poll for completion, given how the flush of the
    /// output buffer that it makes ended: ready once the flush succeeded, and
    /// the flush's error otherwise.
    pub fn poll_complete(&self, flushed: Result<(), std::io::Error>) -> (r: Result<
        Async<()>,
        std::io::Error,
    >)
        ensures
            r == complete_answer(flushed),
    {
        complete_after_flush(flushed)
    }
}

impl<T> IoBuf<T> {
    /// Provides a `Stream` and `Sink` interface for reading and writing to
    /// this `IoBuf` object, using `Decode` and `Encode` to read and write the
    /// raw data.
    ///
    /// - `Encode` interprets frames we want to send into bytes;
    /// - `Decode` interprets incoming bytes into a stream of frames.
    pub fn framed<C: Encode + Decode>(self, codec: C) -> (r: Framed<T, C>)
        ensures
            r.io() == self,
            r.codec() == codec,
    {
        framed(self, codec)
    }
}

/// A `Stream` interface to `ReadBuf` object.
#[verifier::reject_recursive_types(T)]
pub struct ReadFramed<T, C>(pub ReadBuf<T>, pub C);

/// A `Sink` interface to `WriteBuf` object.
#[verifier::reject_recursive_types(T)]
pub struct WriteFramed<T, C>(WriteBuf<T>, C);

/// Layer frame decoding on top of the input half `io` with `codec`.
pub fn read_framed<T, C>(io: ReadBuf<T>, codec: C) -> (r: ReadFramed<T, C>)
    ensures
        r.io() == io,
        r.codec() == codec,
{
    ReadFramed(io, codec)
}

/// Layer frame encoding on top of the output half `io` with `codec`.
pub fn write_framed<T, C>(io: WriteBuf<T>, codec: C) -> (r: WriteFramed<T, C>)
    ensures
        r.io() == io,
        r.codec() == codec,
{
    WriteFramed(io, codec)
}

impl<T, C> ReadFramed<T, C> {
    /// The underlying input half.
    pub closed spec fn io(&self) -> ReadBuf<T> {
        self.0
    }

    /// The codec.
    pub closed spec fn codec(&self) -> C {
        self.1
    }

    /// Returns a reference to the underlying I/O stream wrapped by `ReadFramed`.
    pub fn get_ref(&self) -> (r: &ReadBuf<T>)
        ensures
            *r == self.io(),
    {
        &self.0
    }

    /// Returns a mutable reference to the underlying I/O stream wrapped by
    /// `ReadFramed`.
    ///
    /// Note that care should be taken to not tamper with the underlying stream
    /// of data coming in as it may corrupt the stream of frames otherwise being
    /// worked with.
    pub fn get_mut(&mut self) -> (r: &mut ReadBuf<T>)
        ensures
            *r == old(self).io(),
            final(self).io() == *final(r),
            final(self).codec() == old(self).codec(),
    {
        &mut self.0
    }

    /// Consumes the `ReadFramed`, returning its underlying I/O stream.
    pub fn into_inner(self) -> (r: ReadBuf<T>)
        ensures
            r == self.io(),
    {
        self.0
    }
}

impl<T, C: Decode> ReadFramed<T, C> {
    /// The first step of polling for the next frame, on the parts of a
    /// `ReadFramed` (its input buffer and its codec): the codec decodes from
    /// the input buffer, with no need of the shared part.  A `ReadIn` answer
    /// asks for a read of the socket, to be settled by `after_read` (or by
    /// `after_busy_read` while the other half holds the shared part).
    pub fn poll(in_buf: &mut Buf, codec: &mut C) -> (r: StreamAction<C::Item>)
        ensures
            decoded_to(*old(codec), buf_bytes(*old(in_buf)), *final(codec), buf_bytes(*final(in_buf)), r),
    {
        let res = codec.decode(in_buf);
        let r = after_decode(res);
        assert(r == decode_action(res));
        r
    }

    /// The step that follows a read of the socket into the input buffer,
    /// made while the shared part `locked` was held, given its outcome: as
    /// for `Framed::poll`, an error fails the poll, no bytes end the stream
    /// once the connection is closed and leave the poll not ready otherwise,
    /// and new bytes are decoded.
    pub fn after_read(in_buf: &mut Buf, codec: &mut C, locked: &mut Shared<T>, outcome: Outcome<
        usize,
    >) -> (r: StreamAction<C::Item>)
        ensures
            final(locked).sock() == old(locked).sock(),
            final(locked).is_done() == (old(locked).is_done() || read_closes(outcome)),
            match read_action::<C::Item>(read_reply(outcome), final(locked).is_done()) {
                Some(a) => r == a && buf_bytes(*final(in_buf)) == buf_bytes(*old(in_buf))
                    && *final(codec) == *old(codec),
                None => decoded_to(
                    *old(codec),
                    buf_bytes(*old(in_buf)),
                    *final(codec),
                    buf_bytes(*final(in_buf)),
                    r,
                ),
            },
    {
        let (done, reply) = settle_read(locked.done(), outcome);
        locked.set_done(done);
        match reply {
            Err(e) => StreamAction::Fail(e),
            Ok(n) => {
                if n != 0 {
                    Self::poll(in_buf, codec)
                } else if locked.done() {
                    StreamAction::Ready(None)
                } else {
                    StreamAction::NotReady
                }
            },
        }
    }

    /// The step that follows a read asked for while the other half holds
    /// the shared part: the read reads nothing and the closed flag cannot be
    /// seen, so the poll is not ready (it is woken when the lock is freed).
    pub fn after_busy_read() -> (r: StreamAction<C::Item>)
        ensures
            r == StreamAction::<C::Item>::NotReady,
    {
        StreamAction::NotReady
    }
}

impl<T, C> WriteFramed<T, C> {
    /// The underlying output half.
    pub closed spec fn io(&self) -> WriteBuf<T> {
        self.0
    }

    /// The codec.
    pub closed spec fn codec(&self) -> C {
        self.1
    }

    /// Returns a reference to the underlying I/O stream wrapped by `WriteFramed`.
    pub fn get_ref(&self) -> (r: &WriteBuf<T>)
        ensures
            *r == self.io(),
    {
        &self.0
    }

    /// Returns a mutable reference to the underlying I/O stream wrapped by
    /// `WriteFramed`.
    pub fn get_mut(&mut self) -> (r: &mut WriteBuf<T>)
        ensures
            *r == old(self).io(),
            final(self).io() == *final(r),
            final(self).codec() == old(self).codec(),
    {
        &mut self.0
    }

    /// Consumes the `WriteFramed`, returning its underlying I/O stream.
    pub fn into_inner(self) -> (r: WriteBuf<T>)
        ensures
            r == self.io(),
    {
        self.0
    }
}

impl<T, C: Encode> WriteFramed<T, C> {
    /// Encode `item` into the output buffer with the codec; it is written to
    /// the socket by the next flush, so the item is always taken.  The shared
    /// part is left as it is.
    pub fn start_send(&mut self, item: C::Item) -> (r: Result<AsyncSink<C::Item>, std::io::Error>)
        ensures
            r == Ok::<AsyncSink<C::Item>, std::io::Error>(AsyncSink::Ready),
            old(self).codec().encodes(
                item,
                buf_bytes(old(self).io().out_buf),
                buf_bytes(final(self).io().out_buf),
            ),
            final(self).io().shared == old(self).io().shared,
    {
        self.1.encode(item, &mut self.0.out_buf);
        Ok(AsyncSink::Ready)
    }

    /// The answer of a poll for completion, given how the flush of the
    /// output buffer that it makes ended: ready once the flush succeeded (a
    /// flush that finds the shared part locked elsewhere writes nothing and
    /// succeeds), and the flush's error otherwise.
    pub fn poll_complete(&self, flushed: Result<(), std::io::Error>) -> (r: Result<
        Async<()>,
        std::io::Error,
    >)
        ensures
            r == complete_answer(flushed),
    {
        complete_after_flush(flushed)
    }
}

impl<S> ReadBuf<S> {
    /// A `Stream` of frames decoded from this input half with `codec`.
    pub fn framed<D: Decode>(self, codec: D) -> (r: ReadFramed<S, D>)
        ensures
            r.io() == self,
            r.codec() == codec,
    {
        read_framed(self, codec)
    }
}

impl<S> WriteBuf<S> {
    /// A `Sink` of frames encoded into this output half with `codec`.
    pub fn framed<E: Encode>(self, codec: E) -> (r: WriteFramed<S, E>)
        ensures
            r.io() == self,
            r.codec() == codec,
    {
        write_framed(self, codec)
    }
}

/// After a read, a poll decodes again whenever the read brought bytes,
/// whether or not the connection is closed; only a read of nothing consults
/// the closed flag, ending the stream when it is set and leaving the poll not
/// ready otherwise; a failed read fails the poll with its error.  (With
/// `read_reply`, a read of `n` bytes answers `n`.)
pub proof fn law_new_bytes_are_decoded<I>(n: usize, done: bool, err: std::io::Error)
    ensures
        n != 0 ==> read_action::<I>(Ok(n), done) is None,
        read_action::<I>(Ok(0), true) == Some(StreamAction::<I>::Ready(None)),
        read_action::<I>(Ok(0), false) == Some(StreamAction::<I>::NotReady),
        read_action::<I>(Err(err), done) == Some(StreamAction::<I>::Fail(err)),
        read_reply(Ok(n)) == Ok::<usize, std::io::Error>(n),
{
}

} // verus!
