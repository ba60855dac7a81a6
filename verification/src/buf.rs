use vstd::prelude::*;

verus! {

/// The bound below which a buffer's length must stay when it grows by a
/// write (2 GiB).
///
/// netbuf keeps its spare-room counter in a `u32`.  A buffer only
/// reallocates when its spare room is too small, that is when its allocation
/// is below the length it is about to reach; growing then at most doubles the
/// allocation, so while that length stays below 2 GiB the new allocation,
/// and the spare room stored in the counter, stay below 4 GiB.  At and above
/// this bound the counter can wrap and the write panics or misplaces bytes.
pub const GROW_LIMIT: usize = 2147483648;

#[verifier::external_type_specification]
#[verifier::external_body]
pub struct ExBuf(netbuf::Buf);

/// The bytes that a `netbuf::Buf` holds, first byte first.
pub uninterp spec fn buf_bytes(b: netbuf::Buf) -> Seq<u8>;

/// `netbuf::Buf::new`: a buffer that holds no bytes.
#[verifier::external_body]
pub(crate) fn buf_new() -> (b: netbuf::Buf)
    ensures
        buf_bytes(b) == Seq::<u8>::empty(),
{
    netbuf::Buf::new()
}

/// `netbuf::Buf::len`: the number of bytes held.
#[verifier::external_body]
pub(crate) fn buf_len(b: &netbuf::Buf) -> (n: usize)
    ensures
        n == buf_bytes(*b).len(),
{
    b.len()
}

#[verifier::external_type_specification]
#[verifier::external_body]
pub struct ExIoError(std::io::Error);

} // verus!
verus! {

/// `<netbuf::Buf as std::io::Write>::write`: appends all of `data` and
/// reports its length (netbuf's implementation never fails).  The length the
/// buffer reaches must stay below `GROW_LIMIT`: above it netbuf's `u32`
/// counters can wrap when the buffer grows, whatever it held before.
#[verifier::external_body]
pub(crate) fn buf_write(b: &mut netbuf::Buf, data: &[u8]) -> (r: Result<usize, std::io::Error>)
    requires
        buf_bytes(*old(b)).len() + data@.len() < GROW_LIMIT,
    ensures
        buf_bytes(*final(b)) == buf_bytes(*old(b)) + data@,
        r is Ok,
        r->Ok_0 == data@.len(),
{
    std::io::Write::write(b, data)
}

} // verus!
