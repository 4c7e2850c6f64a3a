//! The worker's side of a copy: what the worker does next, and the count of
//! bytes written, which it sends to the browser after each chunk.
//!
//! The worker itself belongs to the host, which reads, writes and sends;
//! [`CopyWorker`] tells it move by move what to do.

use vstd::prelude::*;

verus! {

/// How many bytes the worker reads and writes at a time: 128 KiB.
pub const CHUNK_SIZE: usize = 131072;

/// The count of the bytes that a worker has written so far.
#[derive(Debug, Clone, Copy, PartialEq, Eq, Structural)]
pub struct CopyTally {
    pub written: u64,
}

/// The sizes of some chunks added up.
pub open spec fn total(chunks: Seq<usize>) -> nat
    decreases chunks.len(),
{
    if chunks.len() == 0 {
        0
    } else {
        total(chunks.drop_last()) + chunks.last() as nat
    }
}

impl CopyTally {
    /// The count before anything is written.
    pub fn new() -> (tally: CopyTally)
        ensures
            tally.written == 0,
    {
        CopyTally { written: 0 }
    }

    /// Counts a chunk of `bytes` bytes as written and gives the new count,
    /// which the worker is to send. Where the count would pass what `u64`
    /// holds, it stays as it is and `None` is returned.
    pub fn add(&mut self, bytes: usize) -> (count: Option<u64>)
        ensures
            old(self).written + bytes <= u64::MAX ==> count == Some(
                (old(self).written + bytes) as u64,
            ) && final(self).written == old(self).written + bytes,
            old(self).written + bytes > u64::MAX ==> count is None && final(self).written == old(
                self,
            ).written,
    {
        let bytes: u64 = bytes as u64;
        match self.written.checked_add(bytes) {
            Some(sum) => {
                self.written = sum;
                Some(sum)
            },
            None => None,
        }
    }
}

/// One move of the worker.
#[derive(Debug, Clone, Copy, PartialEq, Eq, Structural)]
pub enum CopyMove {
    /// Read the next chunk of the source, at most [`CHUNK_SIZE`] bytes.
    Read,
    /// Write the `bytes` bytes just read to the destination.
    Write { bytes: usize },
    /// Send the count of the bytes written so far.
    Send { count: u64 },
    /// The source is at its end: flush the destination.
    Flush,
    /// The copy is complete: send no more.
    Finish,
    /// The count has passed what `u64` holds: give up.
    Overflow,
}

/// A worker between two moves: what it has written, and the move that it
/// is to make next.
#[derive(Debug, Clone, Copy, PartialEq, Eq, Structural)]
pub struct CopyWorker {
    pub tally: CopyTally,
    pub next: CopyMove,
}

/// A worker that has both files open and is to read the first chunk.
pub open spec fn at_start() -> CopyWorker {
    CopyWorker { tally: CopyTally { written: 0 }, next: CopyMove::Read }
}

/// The worker after it has made its move; `bytes` is what the move found
/// if it was a read. A read that finds nothing leads to the flush, any
/// other to the writing of what it found; a chunk written is counted and
/// the count sent; after the count is sent the worker reads on; the flush
/// ends the copy. A worker that has finished or given up stays so.
pub open spec fn stepped(w: CopyWorker, bytes: usize) -> CopyWorker {
    match w.next {
        CopyMove::Read => CopyWorker {
            next: if bytes == 0 {
                CopyMove::Flush
            } else {
                CopyMove::Write { bytes }
            },
            ..w
        },
        CopyMove::Write { bytes: chunk } => if w.tally.written + chunk <= u64::MAX {
            CopyWorker {
                tally: CopyTally { written: (w.tally.written + chunk) as u64 },
                next: CopyMove::Send { count: (w.tally.written + chunk) as u64 },
            }
        } else {
            CopyWorker { next: CopyMove::Overflow, ..w }
        },
        CopyMove::Send { count } => CopyWorker { next: CopyMove::Read, ..w },
        CopyMove::Flush => CopyWorker { next: CopyMove::Finish, ..w },
        CopyMove::Finish => w,
        CopyMove::Overflow => w,
    }
}

impl CopyWorker {
    /// A worker that has both files open and is to read the first chunk.
    pub fn new() -> (worker: CopyWorker)
        ensures
            worker == at_start(),
    {
        CopyWorker { tally: CopyTally::new(), next: CopyMove::Read }
    }

    /// Takes in that the move `self.next` was made without a failure, with
    /// the number of bytes found if it was a read, and gives the move to
    /// make next.
    pub fn step(&mut self, bytes: usize) -> (next: CopyMove)
        ensures
            *final(self) == stepped(*old(self), bytes),
            next == final(self).next,
    {
        match self.next {
            CopyMove::Read => {
                if bytes == 0 {
                    self.next = CopyMove::Flush;
                } else {
                    self.next = CopyMove::Write { bytes };
                }
            },
            CopyMove::Write { bytes: chunk } => {
                match self.tally.add(chunk) {
                    Some(count) => {
                        self.next = CopyMove::Send { count };
                    },
                    None => {
                        self.next = CopyMove::Overflow;
                    },
                }
            },
            CopyMove::Send { count } => {
                self.next = CopyMove::Read;
            },
            CopyMove::Flush => {
                self.next = CopyMove::Finish;
            },
            CopyMove::Finish => {},
            CopyMove::Overflow => {},
        }
        self.next
    }
}

/// The worker after it has read a chunk of `bytes` bytes and written it.
pub open spec fn chunk_written(w: CopyWorker, bytes: usize) -> CopyWorker {
    stepped(stepped(w, bytes), bytes)
}

/// The worker after it has read the given chunks, one after the other,
/// written each and sent the count after each.
pub open spec fn chunks_copied(w: CopyWorker, chunks: Seq<usize>) -> CopyWorker
    decreases chunks.len(),
{
    if chunks.len() == 0 {
        w
    } else {
        stepped(
            chunk_written(chunks_copied(w, chunks.drop_last()), chunks.last()),
            chunks.last(),
        )
    }
}

/// The counts of the first `i` and of the first `j` of some chunks: the
/// count never falls from chunk to chunk, and the count of all chunks is
/// their size together.
pub proof fn lemma_counts_rise(chunks: Seq<usize>, i: int, j: int)
    requires
        0 <= i <= j <= chunks.len(),
    ensures
        total(chunks.take(i)) <= total(chunks.take(j)),
        total(chunks.take(chunks.len() as int)) == total(chunks),
    decreases j - i,
{
    assert(chunks.take(chunks.len() as int) == chunks);
    if i < j {
        assert(chunks.take(j).drop_last() == chunks.take(j - 1));
        lemma_counts_rise(chunks, i, j - 1);
    }
}

/// While a worker copies a source that it reads in the given chunks, none
/// of them empty: the count that it sends after the `k`-th chunk is the
/// size of the first `k` chunks together, and it then reads on. When a read
/// finds the source at its end, the worker has sent the source's size last;
/// it flushes and finishes without sending again.
pub proof fn lemma_worker_sends_running_totals(chunks: Seq<usize>, k: int)
    requires
        forall|i: int| 0 <= i < chunks.len() ==> chunks[i] > 0,
        total(chunks) <= u64::MAX,
        0 < k <= chunks.len(),
    ensures
        chunk_written(chunks_copied(at_start(), chunks.take(k - 1)), chunks[k - 1]).next == (
        CopyMove::Send { count: total(chunks.take(k)) as u64 }),
        chunks_copied(at_start(), chunks.take(k)) == (CopyWorker {
            tally: CopyTally { written: total(chunks.take(k)) as u64 },
            next: CopyMove::Read,
        }),
        stepped(chunks_copied(at_start(), chunks), 0).next == CopyMove::Flush,
        stepped(stepped(chunks_copied(at_start(), chunks), 0), 0).next == CopyMove::Finish,
{
    lemma_counts_rise(chunks, k - 1, k);
    lemma_counts_rise(chunks, k, chunks.len() as int);
    lemma_chunks_copied(chunks, k - 1);
    lemma_chunks_copied(chunks, k);
    lemma_chunks_copied(chunks, chunks.len() as int);
    assert(chunks.take(k).drop_last() == chunks.take(k - 1));
    assert(chunks.take(chunks.len() as int) == chunks);
}

proof fn lemma_chunks_copied(chunks: Seq<usize>, k: int)
    requires
        forall|i: int| 0 <= i < chunks.len() ==> chunks[i] > 0,
        total(chunks) <= u64::MAX,
        0 <= k <= chunks.len(),
    ensures
        chunks_copied(at_start(), chunks.take(k)) == (CopyWorker {
            tally: CopyTally { written: total(chunks.take(k)) as u64 },
            next: CopyMove::Read,
        }),
    decreases k,
{
    if k > 0 {
        lemma_counts_rise(chunks, k - 1, k);
        lemma_counts_rise(chunks, k, chunks.len() as int);
        assert(chunks.take(k).drop_last() == chunks.take(k - 1));
        assert(chunks.take(k).last() == chunks[k - 1]);
        lemma_chunks_copied(chunks, k - 1);
    } else {
        assert(chunks.take(0).len() == 0);
    }
}

} // verus!
