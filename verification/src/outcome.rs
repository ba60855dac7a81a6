use vstd::prelude::*;

verus! {

/// The kinds of I/O failure that the stream logic tells apart.
#[derive(PartialEq, Eq, Structural, Clone, Copy, Debug)]
pub enum ErrorKind {
    /// The operation would block: retry once the socket is ready.
    WouldBlock,
    /// The peer closed its end.
    BrokenPipe,
    /// The peer reset the connection.
    ConnectionReset,
    /// Anything else: handed to the caller as it came.
    Other,
}

impl ErrorKind {
    /// A failure of this kind means that the peer has gone.
    pub open spec fn closes(self) -> bool {
        self is BrokenPipe || self is ConnectionReset
    }
}

/// An I/O error together with its kind, as the stream logic sees it.
pub struct IoError {
    pub kind: ErrorKind,
    pub error: std::io::Error,
}

/// What an I/O call on the socket reported.
pub type Outcome<T> = Result<T, IoError>;

/// `std::io::Error::new`: an error of the given kind with a message.
#[verifier::external_body]
pub(crate) fn io_error_with_message(kind: ErrorKind, message: &str) -> (e: IoError)
    ensures
        e.kind == kind,
{
    let k = match kind {
        ErrorKind::WouldBlock => std::io::ErrorKind::WouldBlock,
        ErrorKind::BrokenPipe => std::io::ErrorKind::BrokenPipe,
        ErrorKind::ConnectionReset => std::io::ErrorKind::ConnectionReset,
        ErrorKind::Other => std::io::ErrorKind::Other,
    };
    IoError { kind, error: std::io::Error::new(k, message) }
}

/// `std::io::Error::from(std::io::ErrorKind)`: an error of the given kind
/// with no message of its own.
#[verifier::external_body]
pub(crate) fn io_error_of_kind(kind: ErrorKind) -> (e: IoError)
    ensures
        e.kind == kind,
{
    let k = match kind {
        ErrorKind::WouldBlock => std::io::ErrorKind::WouldBlock,
        ErrorKind::BrokenPipe => std::io::ErrorKind::BrokenPipe,
        ErrorKind::ConnectionReset => std::io::ErrorKind::ConnectionReset,
        ErrorKind::Other => std::io::ErrorKind::Other,
    };
    IoError { kind, error: std::io::Error::from(k) }
}

/// The connection is known to be closed after this read outcome: the
/// socket reported end of stream, or the peer went away.
pub open spec fn read_closes(res: Outcome<usize>) -> bool {
    match res {
        Ok(n) => n == 0,
        Err(e) => e.kind.closes(),
    }
}

/// The connection is known to be closed after this outcome of a write or
/// of a socket flush: the peer went away.  (A write of zero bytes does not
/// close the connection.)
pub open spec fn write_closes<T>(res: Outcome<T>) -> bool {
    match res {
        Ok(_) => false,
        Err(e) => e.kind.closes(),
    }
}

/// What a read answers to its caller: the byte count as it came, zero when
/// the socket would block or the peer went away, and any other error as it
/// came.
pub open spec fn read_reply(res: Outcome<usize>) -> Result<usize, std::io::Error> {
    match res {
        Ok(n) => Ok(n),
        Err(e) => if e.kind is Other {
            Err(e.error)
        } else {
            Ok(0)
        },
    }
}

/// Settles one read of the socket: the new `done` flag and the value the
/// read answers.
pub fn settle_read(done: bool, res: Outcome<usize>) -> (r: (bool, Result<usize, std::io::Error>))
    ensures
        r.0 == (done || read_closes(res)),
        r.1 == read_reply(res),
{
    match res {
        Ok(0) => (true, Ok(0)),
        Ok(n) => (done, Ok(n)),
        Err(e) => match e.kind {
            ErrorKind::WouldBlock => (done, Ok(0)),
            ErrorKind::BrokenPipe | ErrorKind::ConnectionReset => (true, Ok(0)),
            ErrorKind::Other => (done, Err(e.error)),
        },
    }
}

} // verus!
verus! {

/// What the flush of an output buffer has just learnt.
pub enum FlushEvent {
    /// The flush begins.
    Start,
    /// The buffer was written to the socket (`netbuf::Buf::write_to`),
    /// with this outcome.
    Wrote(Outcome<usize>),
    /// The socket itself was flushed, with this outcome.
    SocketFlushed(Outcome<()>),
}

/// What the flush of an output buffer does next.
pub enum FlushAction {
    /// Write the output buffer to the socket, then report `Wrote`.
    WriteOut,
    /// Flush the socket, then report `SocketFlushed`.
    FlushSocket,
    /// The flush is over, with this result.
    Finished(Result<(), std::io::Error>),
}

/// The connection is known to be closed after this flush event.
pub open spec fn flush_closes(ev: FlushEvent) -> bool {
    match ev {
        FlushEvent::Start => false,
        FlushEvent::Wrote(res) => write_closes(res),
        FlushEvent::SocketFlushed(res) => write_closes(res),
    }
}

/// The next step of a flush, given the number of bytes that are still
/// buffered and the event just reported.  Writing goes on while bytes are
/// left and the socket takes some; it stops when the buffer is empty, when
/// the socket takes nothing or would block, and when the peer has gone;
/// any other failure ends the flush with that error.  Then the socket is
/// flushed, and only a failure other than blocking or a gone peer is
/// reported.
pub open spec fn flush_action(pending: nat, ev: FlushEvent) -> FlushAction {
    match ev {
        FlushEvent::Start => if pending == 0 {
            FlushAction::FlushSocket
        } else {
            FlushAction::WriteOut
        },
        FlushEvent::Wrote(Ok(n)) => if n == 0 || pending == 0 {
            FlushAction::FlushSocket
        } else {
            FlushAction::WriteOut
        },
        FlushEvent::Wrote(Err(e)) => if e.kind is Other {
            FlushAction::Finished(Err(e.error))
        } else {
            FlushAction::FlushSocket
        },
        FlushEvent::SocketFlushed(Ok(())) => FlushAction::Finished(Ok(())),
        FlushEvent::SocketFlushed(Err(e)) => if e.kind is Other {
            FlushAction::Finished(Err(e.error))
        } else {
            FlushAction::Finished(Ok(()))
        },
    }
}

/// One step of a flush: the new `done` flag and the next action, given
/// the number of bytes still buffered for output.
pub fn flush_step(pending: usize, done: bool, ev: FlushEvent) -> (r: (bool, FlushAction))
    ensures
        r.0 == (done || flush_closes(ev)),
        r.1 == flush_action(pending as nat, ev),
{
    match ev {
        FlushEvent::Start => if pending == 0 {
            (done, FlushAction::FlushSocket)
        } else {
            (done, FlushAction::WriteOut)
        },
        FlushEvent::Wrote(Ok(n)) => if n == 0 || pending == 0 {
            (done, FlushAction::FlushSocket)
        } else {
            (done, FlushAction::WriteOut)
        },
        FlushEvent::Wrote(Err(e)) => match e.kind {
            ErrorKind::WouldBlock => (done, FlushAction::FlushSocket),
            ErrorKind::BrokenPipe | ErrorKind::ConnectionReset => (true, FlushAction::FlushSocket),
            ErrorKind::Other => (done, FlushAction::Finished(Err(e.error))),
        },
        FlushEvent::SocketFlushed(Ok(())) => (done, FlushAction::Finished(Ok(()))),
        FlushEvent::SocketFlushed(Err(e)) => match e.kind {
            ErrorKind::WouldBlock => (done, FlushAction::Finished(Ok(()))),
            ErrorKind::BrokenPipe | ErrorKind::ConnectionReset => (true, FlushAction::Finished(Ok(()))),
            ErrorKind::Other => (done, FlushAction::Finished(Err(e.error))),
        },
    }
}

} // verus!
verus! {

/// Whether a value is ready yet.
#[derive(Debug)]
pub enum Async<T> {
    Ready(T),
    NotReady,
}

/// Whether a sink took an item: `NotReady` hands the item back.
#[derive(Debug)]
pub enum AsyncSink<T> {
    Ready,
    NotReady(T),
}

} // verus!
verus! {

/// An outcome that the connection state of a stream learns from.
pub enum ConnEvent {
    /// A read of the socket.
    Read(Outcome<usize>),
    /// A step of a flush.
    Flush(FlushEvent),
}

/// The connection is known to be closed after this event.
pub open spec fn event_closes(ev: ConnEvent) -> bool {
    match ev {
        ConnEvent::Read(res) => read_closes(res),
        ConnEvent::Flush(fev) => flush_closes(fev),
    }
}

/// The `done` flag after a run of events, each settled as `IoBuf::read`
/// and `IoBuf::flush` settle it.
pub open spec fn done_after(done: bool, events: Seq<ConnEvent>) -> bool
    decreases events.len(),
{
    if events.len() == 0 {
        done
    } else {
        done_after(done || event_closes(events[0]), events.drop_first())
    }
}

/// A stream is marked closed after a run of events exactly when it was
/// closed before or one of the events reported a close: once closed it
/// stays closed, and nothing else closes it.
pub proof fn law_closed_exactly_when_reported(done: bool, events: Seq<ConnEvent>)
    ensures
        done_after(done, events) == (done || exists|i: int|
            0 <= i < events.len() && #[trigger] event_closes(events[i])),
    decreases events.len(),
{
    if events.len() > 0 {
        let rest = events.drop_first();
        law_closed_exactly_when_reported(done || event_closes(events[0]), rest);
        if exists|i: int| 0 <= i < events.len() && #[trigger] event_closes(events[i]) {
            let i = choose|i: int| 0 <= i < events.len() && #[trigger] event_closes(events[i]);
            if i > 0 {
                assert(event_closes(rest[i - 1]));
            }
        }
        if exists|j: int| 0 <= j < rest.len() && #[trigger] event_closes(rest[j]) {
            let j = choose|j: int| 0 <= j < rest.len() && #[trigger] event_closes(rest[j]);
            assert(event_closes(events[j + 1]));
        }
    }
}

/// A read answers zero both when the socket would block and when the
/// connection has been closed; the `done` flag then tells the two apart:
/// after a zero answer it is set exactly when the read did not merely block
/// (or it was set already).
pub proof fn law_zero_read_told_apart_by_done(done: bool, res: Outcome<usize>)
    requires
        read_reply(res) == Ok::<usize, std::io::Error>(0),
    ensures
        (done || read_closes(res)) == (done || !(res is Err && res->Err_0.kind is WouldBlock)),
{
}

/// A flush asks to write only while bytes are buffered, and every flush of
/// the socket ends it.
pub proof fn law_flush_writes_only_pending(pending: nat, ev: FlushEvent)
    ensures
        flush_action(pending, ev) is WriteOut ==> pending > 0,
        ev is SocketFlushed ==> flush_action(pending, ev) is Finished,
{
}

/// A flush fails only with an error that the socket reported, of a kind
/// other than blocking or a gone peer.
pub proof fn law_flush_fails_only_on_other_errors(pending: nat, ev: FlushEvent)
    ensures
        flush_action(pending, ev) matches FlushAction::Finished(Err(e)) ==> match ev {
            FlushEvent::Start => false,
            FlushEvent::Wrote(res) => res is Err && res->Err_0.kind is Other && res->Err_0.error
                == e,
            FlushEvent::SocketFlushed(res) => res is Err && res->Err_0.kind is Other
                && res->Err_0.error == e,
        },
{
}

} // verus!
verus! {

/// A read records the peer as gone exactly when it read nothing (end of
/// stream) or failed with a broken pipe or a connection reset; a read that
/// brought bytes, blocked, or failed otherwise leaves the state alone.
pub proof fn law_read_records_gone_peer(n: usize, e: IoError)
    ensures
        read_closes(Ok(n)) == (n == 0),
        read_closes(Err(e)) == (e.kind == ErrorKind::BrokenPipe || e.kind
            == ErrorKind::ConnectionReset),
{
}

/// A step of a flush records the peer as gone exactly when its write or its
/// socket flush failed with a broken pipe or a connection reset; starting,
/// any write that succeeded (even of nothing), a successful socket flush and
/// any other failure leave the state alone.
pub proof fn law_flush_records_gone_peer(n: usize, e: IoError)
    ensures
        !flush_closes(FlushEvent::Start),
        !flush_closes(FlushEvent::Wrote(Ok(n))),
        !flush_closes(FlushEvent::SocketFlushed(Ok(()))),
        flush_closes(FlushEvent::Wrote(Err(e))) == (e.kind == ErrorKind::BrokenPipe || e.kind
            == ErrorKind::ConnectionReset),
        flush_closes(FlushEvent::SocketFlushed(Err(e))) == (e.kind == ErrorKind::BrokenPipe
            || e.kind == ErrorKind::ConnectionReset),
{
}

/// A flush goes on writing while bytes remain buffered and the last write
/// took some; it turns to flushing the socket once the buffer is empty, the
/// socket took nothing, would block or the peer went away; any other failure
/// of a write ends it with that error.
pub proof fn law_flush_writes_until_drained(pending: nat, n: usize, e: IoError)
    ensures
        pending > 0 ==> flush_action(pending, FlushEvent::Start) is WriteOut,
        flush_action(0, FlushEvent::Start) is FlushSocket,
        n > 0 && pending > 0 ==> flush_action(pending, FlushEvent::Wrote(Ok(n))) is WriteOut,
        flush_action(0, FlushEvent::Wrote(Ok(n))) is FlushSocket,
        flush_action(pending, FlushEvent::Wrote(Ok(0))) is FlushSocket,
        e.kind != ErrorKind::Other ==> flush_action(pending, FlushEvent::Wrote(Err(e)))
            is FlushSocket,
        e.kind == ErrorKind::Other ==> flush_action(pending, FlushEvent::Wrote(Err(e)))
            == FlushAction::Finished(Err(e.error)),
        flush_action(pending, FlushEvent::SocketFlushed(Ok(()))) == FlushAction::Finished(
            Ok(()),
        ),
        e.kind != ErrorKind::Other ==> flush_action(pending, FlushEvent::SocketFlushed(Err(e)))
            == FlushAction::Finished(Ok(())),
        e.kind == ErrorKind::Other ==> flush_action(pending, FlushEvent::SocketFlushed(Err(e)))
            == FlushAction::Finished(Err(e.error)),
{
}

/// A read answers the byte count it brought, zero when it blocked or the
/// peer went away, and hands any other failure on as it came.
pub proof fn law_read_answers(n: usize, e: IoError)
    ensures
        read_reply(Ok(n)) == Ok::<usize, std::io::Error>(n),
        e.kind != ErrorKind::Other ==> read_reply(Err(e)) == Ok::<usize, std::io::Error>(0),
        e.kind == ErrorKind::Other ==> read_reply(Err(e)) == Err::<usize, std::io::Error>(
            e.error,
        ),
{
}

} // verus!
