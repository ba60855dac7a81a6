use vstd::prelude::*;

use crate::outcome::Async;
use crate::IoBuf;

verus! {

/// A future which yields the stream back when its output buffer is fully
/// written to the socket.
///
/// Each poll flushes the stream (`IoBuf::flush`, driven by the caller) and
/// then asks `poll` whether the stream can be handed back.
pub struct Flushed<S>(pub Option<IoBuf<S>>);

/// A future that resolves to `sock` once its output buffer is written out.
pub fn flushed<S>(sock: IoBuf<S>) -> (r: Flushed<S>)
    ensures
        r.0 == Some(sock),
{
    Flushed(Some(sock))
}

impl<S> Flushed<S> {
    /// Decide, after the stream has been flushed, whether the future
    /// resolves: it does once the output buffer is empty or the peer has
    /// closed the connection, and then gives the stream back.
    pub fn poll(&mut self) -> (r: Async<IoBuf<S>>)
        requires
            old(self).0 is Some,
        ensures
            match r {
                Async::NotReady => {
                    &&& *final(self) == *old(self)
                    &&& old(self).0->Some_0.output().len() > 0
                    &&& !old(self).0->Some_0.is_done()
                },
                Async::Ready(conn) => {
                    &&& conn == old(self).0->Some_0
                    &&& final(self).0 is None
                    &&& (conn.output().len() == 0 || conn.is_done())
                },
            },
    {
        let pending = match &self.0 {
            Some(conn) => conn.output_len() > 0 && !conn.done(),
            None => false,
        };
        if pending {
            return Async::NotReady;
        }
        match self.0.take() {
            Some(conn) => Async::Ready(conn),
            None => Async::NotReady,
        }
    }
}

impl<S> IoBuf<S> {
    /// Returns a future which resolves to this stream when output buffer is
    /// flushed.
    pub fn flushed(self) -> (r: Flushed<S>)
        ensures
            r.0 == Some(self),
    {
        flushed(self)
    }
}

} // verus!
