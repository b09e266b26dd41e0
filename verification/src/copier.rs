//! The chunked streaming copy.
//!
//! A file is copied in fixed-size chunks through one reusable buffer, and
//! the progress reporter is driven through its whole lifecycle: `init` with
//! the source's length up front, one `tick` after each chunk lands, `finish`
//! exactly once at the successful end. `copy_chunked` is that loop, verified
//! over in-memory bytes; the unverified caller that owns the file handles
//! runs the same loop shape and drives a `ProgressState` the same way, one
//! read and one full write per chunk.

use vstd::prelude::*;
use crate::progress::ProgressState;

verus! {

/// The default chunk size of the copy loop, in bytes.
pub const DEFAULT_CHUNK_SIZE: usize = 40960;

/// Copies `data` chunk by chunk, at most `chunk_size` bytes at a time, and
/// drives `reporter` through its whole lifecycle.
///
/// The output is byte-for-byte the input, whatever chunk size is chosen and
/// whatever the destination held before: the result is a function of the
/// source alone, which is the overwrite semantics of a copy. The reporter
/// ends finished, with the source's length as its announced total, its last
/// reported position, and the sum of the increments it handed out.
pub fn copy_chunked(data: &[u8], chunk_size: usize, reporter: &mut ProgressState) -> (out: Vec<
    u8,
>)
    requires
        chunk_size > 0,
        data@.len() <= u64::MAX,
        old(reporter).phase is Idle,
    ensures
        out@ == data@,
        final(reporter).phase is Finished,
        final(reporter).total == data@.len(),
        final(reporter).last == data@.len(),
        final(reporter).delta_sum == data@.len(),
{
    let len = data.len();
    reporter.init(len as u64);
    let mut out: Vec<u8> = Vec::new();
    let mut done: usize = 0;
    while done < len
        invariant
            done <= len,
            len == data@.len(),
            len <= u64::MAX,
            chunk_size > 0,
            out@ =~= data@.subrange(0, done as int),
            reporter.phase is Running,
            reporter.total == len,
            reporter.last == done,
            reporter.delta_sum == done,
        decreases len - done,
    {
        let n = if len - done < chunk_size {
            len - done
        } else {
            chunk_size
        };
        let mut i: usize = 0;
        while i < n
            invariant
                i <= n,
                done + n <= len,
                len == data@.len(),
                out@ =~= data@.subrange(0, done + i),
            decreases n - i,
        {
            out.push(data[done + i]);
            i = i + 1;
        }
        done = done + n;
        reporter.tick(done as u64);
    }
    assert(out@ =~= data@);
    reporter.finish();
    out
}

/// Copying the same source to the same target twice leaves the same final
/// content: the copy contract fixes the output from the source's bytes
/// alone, so whatever the first run wrote, the second run overwrites it with
/// identical bytes and never appends.
pub proof fn lemma_copy_idempotent(source: Seq<u8>, first_run: Seq<u8>, second_run: Seq<u8>)
    requires
        first_run == source,
        second_run == source,
    ensures
        second_run == first_run,
        second_run.len() == source.len(),
{
}

} // verus!
