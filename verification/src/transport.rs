use vstd::prelude::*;

verus! {

/// Size of the scratch buffer that each read of the timed reader fills.
pub const READ_CHUNK_LEN: usize = 256;

/// Appends a chunk that the UART delivered behind the `filled` bytes
/// already gathered in `buf`, and returns the new number of gathered bytes.
/// The rest of `buf` is left as it was.
pub fn store_chunk(buf: &mut [u8], filled: usize, chunk: &[u8]) -> (total: usize)
    requires
        filled + chunk@.len() <= old(buf)@.len(),
    ensures
        total == filled + chunk@.len(),
        final(buf)@.len() == old(buf)@.len(),
        final(buf)@ == old(buf)@.take(filled as int) + chunk@ + old(buf)@.skip(total as int),
        final(buf)@.take(total as int) == old(buf)@.take(filled as int) + chunk@,
{
    let n: usize = chunk.len();
    let len: usize = buf.len();
    let ghost before = buf@;
    for i in 0..n
        invariant
            n == chunk@.len(),
            filled + n <= before.len(),
            before.len() == len,
            buf@.len() == before.len(),
            forall|j: int| 0 <= j < filled ==> #[trigger] buf@[j] == before[j],
            forall|j: int| filled <= j < filled + i ==> #[trigger] buf@[j] == chunk@[j - filled],
            forall|j: int| filled + i <= j < before.len() ==> #[trigger] buf@[j] == before[j],
    {
        buf[filled + i] = chunk[i];
    }
    let total = filled + n;
    assert(buf@ =~= before.take(filled as int) + chunk@ + before.skip(total as int));
    assert(buf@.take(total as int) =~= before.take(filled as int) + chunk@);
    total
}

} // verus!
