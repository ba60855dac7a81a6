//! Buffered, framed byte streams: input and output buffers kept beside a
//! socket, with the decisions taken on every I/O outcome verified.
//!
//! The socket itself is driven by the caller: each operation here tells
//! what to do with the socket next (read into the input buffer, write the
//! output buffer, flush) and takes the outcome back to decide what follows.

mod buf;
pub mod outcome;
mod iobuf;
pub mod flushed;
pub mod frame;
mod lock;
pub mod split;
pub mod mock;

pub use netbuf::Buf;
pub use buf::GROW_LIMIT;
pub use iobuf::IoBuf;
pub use flushed::{flushed, Flushed};
pub use frame::{Decode, Encode, Framed, ReadFramed, WriteFramed};
pub use split::{ReadBuf, WriteBuf, WriteRaw, FutureWriteRaw};
pub use mock::{Mock, MockData, OutputRange};
pub use outcome::{Async, ErrorKind, FlushAction, FlushEvent, IoError, Outcome};
