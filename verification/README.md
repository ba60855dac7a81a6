# tk_bufstream

Buffered, framed byte streams for non-blocking sockets: an `IoBuf` keeps an
input buffer and an output buffer (both `netbuf::Buf`) beside a socket; it
can be turned into a framed `Stream`/`Sink` with a `Decode`/`Encode` codec, or
split into a read half and a write half that share the socket under a lock.

Layout:

- `src/` is the verified library.  The decisions the stream takes on I/O
  outcomes (what a read answers and whether the peer has gone, when a flush
  writes, stops or fails, what a write and a sink answer, when a framed poll
  yields a frame, ends or waits, when a flushed-future resolves, what a half
  answers while the other holds the lock, how a split or raw-write hand-over
  goes) are functions with contracts, proved by Verus.  The socket and lock
  calls themselves are not made here: each operation returns the next action
  (read, write, flush) and takes the outcome back.  Codecs (`Decode`,
  `Encode`) may state what they do through `decodes`/`encodes`; the framed
  operations are proved against those statements.
  - `outcome.rs`: error kinds, read/flush decisions, and the laws on the
    connection state.
  - `iobuf.rs`, `flushed.rs`, `frame.rs`, `split.rs`: the stream types.
  - `mock.rs`: in-memory streams for tests.
  - `buf.rs`, `lock.rs`: the declarations of `netbuf::Buf` and of the
    `futures` lock types, with the trusted contracts of the calls made on
    them.
- `app/` performs the I/O: it runs the action loops against real sockets,
  polls the locks, and implements the `futures` and `std::io` traits.  That
  the bytes of a flush reach the socket in order rests on netbuf's
  `write_to`, called there.
- `tests/` drives the library on concrete values.
