use vstd::prelude::*;

use crate::outcome::{io_error_of_kind, io_error_with_message, ErrorKind, Outcome};

verus! {

/// A stream that is never ready: every read, write and flush would block.
///
/// Useful for tests on codecs, where tests owns actual buffered stream.
pub struct Mock;

impl Mock {
    /// A read: it would block, and `buf` is left as it is.
    pub fn try_read(&mut self, buf: &mut [u8]) -> (r: Outcome<usize>)
        ensures
            r is Err,
            r->Err_0.kind == ErrorKind::WouldBlock,
            final(buf)@ == old(buf)@,
    {
        Err(io_error_with_message(ErrorKind::WouldBlock, "No read"))
    }

    /// A write: it would block.
    pub fn try_write(&mut self, buf: &[u8]) -> (r: Outcome<usize>)
        ensures
            r is Err,
            r->Err_0.kind == ErrorKind::WouldBlock,
    {
        Err(io_error_with_message(ErrorKind::WouldBlock, "No write"))
    }

    /// A flush: it would block.
    pub fn try_flush(&mut self) -> (r: Outcome<()>)
        ensures
            r is Err,
            r->Err_0.kind == ErrorKind::WouldBlock,
    {
        Err(io_error_with_message(ErrorKind::WouldBlock, "No flush"))
    }
}

impl std::io::Read for Mock {
    /// Never ready: fails (the error is of kind `WouldBlock`) and leaves
    /// `buf` as it is.
    fn read(&mut self, buf: &mut [u8]) -> (r: std::io::Result<usize>)
        ensures
            r is Err,
            final(buf)@ == old(buf)@,
    {
        match self.try_read(buf) {
            Ok(n) => Ok(n),
            Err(e) => Err(e.error),
        }
    }
}

impl std::io::Write for Mock {
    /// Never ready: fails (the error is of kind `WouldBlock`).
    fn write(&mut self, buf: &[u8]) -> (r: std::io::Result<usize>)
        ensures
            r is Err,
    {
        match self.try_write(buf) {
            Ok(n) => Ok(n),
            Err(e) => Err(e.error),
        }
    }

    /// Never ready: fails (the error is of kind `WouldBlock`).
    fn flush(&mut self) -> (r: std::io::Result<()>)
        ensures
            r is Err,
    {
        match self.try_flush() {
            Ok(()) => Ok(()),
            Err(e) => Err(e.error),
        }
    }
}

/// Which bytes of the output to look at.
pub enum OutputRange {
    /// From this index to the end.
    RangeFrom(usize),
    /// From the first index up to (not including) the second.
    Range(usize, usize),
    /// From the start up to (not including) this index.
    RangeTo(usize),
}

/// The number of pending input bytes that a read into a buffer of `room`
/// bytes takes: as many as fit.
pub open spec fn read_len(room: nat, pending: nat) -> nat {
    if room < pending {
        room
    } else {
        pending
    }
}

/// The bytes that successive reads into buffers of the given sizes take
/// from `pending`, in the order they are read.
pub open spec fn taken_by_reads(pending: Seq<u8>, rooms: Seq<nat>) -> Seq<u8>
    decreases rooms.len(),
{
    if rooms.len() == 0 {
        Seq::empty()
    } else {
        let n = read_len(rooms[0], pending.len());
        pending.subrange(0, n as int) + taken_by_reads(
            pending.subrange(n as int, pending.len() as int),
            rooms.drop_first(),
        )
    }
}

/// The pending input left after successive reads into buffers of the given
/// sizes.
pub open spec fn left_after_reads(pending: Seq<u8>, rooms: Seq<nat>) -> Seq<u8>
    decreases rooms.len(),
{
    if rooms.len() == 0 {
        pending
    } else {
        let n = read_len(rooms[0], pending.len());
        left_after_reads(pending.subrange(n as int, pending.len() as int), rooms.drop_first())
    }
}

/// Reads of a `MockData` neither lose nor reorder input: whatever buffers
/// successive reads use, the bytes they take followed by the bytes still
/// pending are the input as it was added.
pub proof fn law_mock_reads_keep_order(pending: Seq<u8>, rooms: Seq<nat>)
    ensures
        taken_by_reads(pending, rooms) + left_after_reads(pending, rooms) == pending,
    decreases rooms.len(),
{
    if rooms.len() > 0 {
        let n = read_len(rooms[0], pending.len());
        let rest = pending.subrange(n as int, pending.len() as int);
        law_mock_reads_keep_order(rest, rooms.drop_first());
        assert(pending.subrange(0, n as int) + rest =~= pending);
        assert(taken_by_reads(pending, rooms) + left_after_reads(pending, rooms) =~= pending.subrange(
            0,
            n as int,
        ) + (taken_by_reads(rest, rooms.drop_first()) + left_after_reads(rest, rooms.drop_first())));
    }
}

/// A mock stream where you can push data to/from: reads take the bytes that
/// were added as input, first added first; writes append to the output.
///
/// Useful for more complex tests on streams than are possible with `Mock`.
pub struct MockData {
    input: Vec<u8>,
    output: Vec<u8>,
}

impl MockData {
    /// The bytes that reads will take next.
    pub closed spec fn pending_input(&self) -> Seq<u8> {
        self.input@
    }

    /// The bytes written so far and not taken out.
    pub closed spec fn written(&self) -> Seq<u8> {
        self.output@
    }

    /// New, empty Mockdata.
    pub fn new() -> (r: MockData)
        ensures
            r.pending_input() == Seq::<u8>::empty(),
            r.written() == Seq::<u8>::empty(),
    {
        MockData { input: Vec::new(), output: Vec::new() }
    }

    /// Add some bytes to the next input. This data will be read by IoBuf
    /// on the next `read()` call.
    pub fn add_input(&mut self, data: &[u8])
        ensures
            final(self).pending_input() == old(self).pending_input() + data@,
            final(self).written() == old(self).written(),
    {
        self.input.extend_from_slice(data);
    }

    /// Get a copy of a range of the output.
    ///
    /// Note: we only read bytes that has been `write`'en here, not
    /// the bytes buffered inside `IoBuf`.
    pub fn output(&self, range: OutputRange) -> (r: Vec<u8>)
        requires
            match range {
                OutputRange::RangeFrom(start) => start <= self.written().len(),
                OutputRange::Range(start, end) => start <= end <= self.written().len(),
                OutputRange::RangeTo(end) => end <= self.written().len(),
            },
        ensures
            r@ == match range {
                OutputRange::RangeFrom(start) => self.written().subrange(
                    start as int,
                    self.written().len() as int,
                ),
                OutputRange::Range(start, end) => self.written().subrange(start as int, end as int),
                OutputRange::RangeTo(end) => self.written().subrange(0, end as int),
            },
    {
        let (start, end) = match range {
            OutputRange::RangeFrom(start) => (start, self.output.len()),
            OutputRange::Range(start, end) => (start, end),
            OutputRange::RangeTo(end) => (0, end),
        };
        let mut r: Vec<u8> = Vec::new();
        let mut i: usize = start;
        while i < end
            invariant
                start <= i <= end <= self.output@.len(),
                r@ == self.output@.subrange(start as int, i as int),
            decreases end - i,
        {
            r.push(self.output[i]);
            i = i + 1;
        }
        r
    }

    /// Get first bytes of output and remove them from output buffer.
    ///
    /// Note: we only read bytes that has been `write`'en here, not
    /// the bytes buffered inside `IoBuf`.
    pub fn get_output(&mut self, num: usize) -> (r: Vec<u8>)
        requires
            num <= old(self).written().len(),
        ensures
            r@ == old(self).written().subrange(0, num as int),
            final(self).written() == old(self).written().subrange(
                num as int,
                old(self).written().len() as int,
            ),
            final(self).pending_input() == old(self).pending_input(),
    {
        let mut head = self.output.split_off(num);
        std::mem::swap(&mut head, &mut self.output);
        head
    }

    /// A read into `buf`: it takes as many of the pending input bytes as
    /// `buf` holds, first bytes first, and would block when it can take
    /// none.
    pub fn try_read(&mut self, buf: &mut [u8]) -> (r: Outcome<usize>)
        ensures
            final(self).written() == old(self).written(),
            final(buf)@.len() == old(buf)@.len(),
            ({
                let n = read_len(old(buf)@.len(), old(self).pending_input().len());
                if n == 0 {
                    &&& r is Err
                    &&& r->Err_0.kind == ErrorKind::WouldBlock
                    &&& final(buf)@ == old(buf)@
                    &&& final(self).pending_input() == old(self).pending_input()
                } else {
                    &&& r is Ok
                    &&& r->Ok_0 == n
                    &&& final(buf)@.subrange(0, n as int) == old(self).pending_input().subrange(
                        0,
                        n as int,
                    )
                    &&& final(buf)@.subrange(n as int, old(buf)@.len() as int) == old(
                        buf,
                    )@.subrange(n as int, old(buf)@.len() as int)
                    &&& final(self).pending_input() == old(self).pending_input().subrange(
                        n as int,
                        old(self).pending_input().len() as int,
                    )
                }
            }),
    {
        let bytes = if buf.len() < self.input.len() {
            buf.len()
        } else {
            self.input.len()
        };
        if bytes == 0 {
            return Err(io_error_of_kind(ErrorKind::WouldBlock));
        }
        let mut i: usize = 0;
        while i < bytes
            invariant
                0 <= i <= bytes,
                bytes <= buf@.len(),
                bytes <= self.input@.len(),
                buf@.len() == old(buf)@.len(),
                forall|k: int| 0 <= k < i ==> buf@[k] == self.input@[k],
                forall|k: int| i <= k < buf@.len() ==> buf@[k] == old(buf)@[k],
                self.input@ == old(self).input@,
                self.output@ == old(self).output@,
            decreases bytes - i,
        {
            buf[i] = self.input[i];
            i = i + 1;
        }
        assert(buf@.subrange(0, bytes as int) =~= self.input@.subrange(0, bytes as int));
        assert(buf@.subrange(bytes as int, buf@.len() as int) =~= old(buf)@.subrange(
            bytes as int,
            old(buf)@.len() as int,
        ));
        let rest = self.input.split_off(bytes);
        self.input = rest;
        Ok(bytes)
    }

    /// A write of `buf`: all of it is appended to the output.
    pub fn try_write(&mut self, buf: &[u8]) -> (r: Outcome<usize>)
        ensures
            r == Ok::<usize, crate::outcome::IoError>(buf@.len() as usize),
            final(self).written() == old(self).written() + buf@,
            final(self).pending_input() == old(self).pending_input(),
    {
        self.output.extend_from_slice(buf);
        Ok(buf.len())
    }
}

impl std::io::Read for MockData {
    /// As `try_read`: takes as many pending input bytes as `buf` holds, first
    /// bytes first, and fails (the error is of kind `WouldBlock`) when it can
    /// take none.
    fn read(&mut self, buf: &mut [u8]) -> (r: std::io::Result<usize>)
        ensures
            final(self).written() == old(self).written(),
            final(buf)@.len() == old(buf)@.len(),
            ({
                let n = read_len(old(buf)@.len(), old(self).pending_input().len());
                if n == 0 {
                    &&& r is Err
                    &&& final(buf)@ == old(buf)@
                    &&& final(self).pending_input() == old(self).pending_input()
                } else {
                    &&& r == Ok::<usize, std::io::Error>(n as usize)
                    &&& final(buf)@.subrange(0, n as int) == old(self).pending_input().subrange(
                        0,
                        n as int,
                    )
                    &&& final(buf)@.subrange(n as int, old(buf)@.len() as int) == old(
                        buf,
                    )@.subrange(n as int, old(buf)@.len() as int)
                    &&& final(self).pending_input() == old(self).pending_input().subrange(
                        n as int,
                        old(self).pending_input().len() as int,
                    )
                }
            }),
    {
        match self.try_read(buf) {
            Ok(n) => Ok(n),
            Err(e) => Err(e.error),
        }
    }
}

impl std::io::Write for MockData {
    /// As `try_write`: appends all of `buf` to the output and answers its
    /// length.
    fn write(&mut self, buf: &[u8]) -> (r: std::io::Result<usize>)
        ensures
            r == Ok::<usize, std::io::Error>(buf@.len() as usize),
            final(self).written() == old(self).written() + buf@,
            final(self).pending_input() == old(self).pending_input(),
    {
        match self.try_write(buf) {
            Ok(n) => Ok(n),
            Err(e) => Err(e.error),
        }
    }

    /// Nothing to flush: always succeeds.
    fn flush(&mut self) -> (r: std::io::Result<()>)
        ensures
            r is Ok,
    {
        Ok(())
    }
}

} // verus!
