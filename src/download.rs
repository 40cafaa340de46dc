//! The downloader's metering: what is declared to a progress sink, and what
//! each read of the body leads to.
use vstd::prelude::*;

verus! {

/// Size of the buffer that the body is read through, in bytes.
pub const BUFFER_SIZE: usize = 32 * 1024;

/// The total to declare to the sink before any byte moves: the response's
/// content length, where it has one and a sink is present.
pub open spec fn total_to_declare(content_length: Option<u64>, has_sink: bool) -> Option<u64> {
    if has_sink {
        content_length
    } else {
        None
    }
}

/// The total to declare to the sink, if any.
pub fn declared_total(content_length: Option<u64>, has_sink: bool) -> (r: Option<u64>)
    ensures
        r == total_to_declare(content_length, has_sink),
{
    if has_sink {
        content_length
    } else {
        None
    }
}

/// What follows one read of the body.
#[derive(Clone, Copy, Debug, PartialEq, Eq, Structural)]
pub enum ChunkStep {
    /// The stream ended: the download is complete.
    Finish,
    /// Write the first `len` bytes of the buffer in full, then report `len`
    /// to the sink, then read again.
    Write { len: usize },
}

/// The state of one download: the total still to be declared to the sink,
/// the bytes written so far, and whether the end of the stream was seen.
#[derive(Clone, Copy, Debug, PartialEq, Eq, Structural)]
pub struct Transfer {
    pub pending_total: Option<u64>,
    pub written: u64,
    pub finished: bool,
}

/// The state after a read of `n` bytes.
pub open spec fn after_read(t: Transfer, n: usize) -> Transfer {
    if n == 0 {
        Transfer { finished: true, ..t }
    } else {
        Transfer { written: (t.written + n) as u64, ..t }
    }
}

/// The state after the reads `reads`, in order, up to the end of the stream.
pub open spec fn after_reads(t: Transfer, reads: Seq<usize>) -> Transfer
    decreases reads.len(),
{
    if reads.len() == 0 || t.finished {
        t
    } else {
        after_reads(after_read(t, reads[0]), reads.skip(1))
    }
}

/// The sum of the chunk sizes.
pub open spec fn total_len(chunks: Seq<usize>) -> int
    decreases chunks.len(),
{
    if chunks.len() == 0 {
        0
    } else {
        chunks[0] + total_len(chunks.skip(1))
    }
}

impl Transfer {
    /// A download before its first read, holding the total to declare.
    pub fn new(content_length: Option<u64>, has_sink: bool) -> (t: Transfer)
        ensures
            t.pending_total == total_to_declare(content_length, has_sink),
            t.written == 0,
            !t.finished,
    {
        Transfer { pending_total: declared_total(content_length, has_sink), written: 0, finished: false }
    }

    /// Hands out the total to declare, once: afterwards nothing is pending.
    pub fn take_total(&mut self) -> (r: Option<u64>)
        ensures
            r == old(self).pending_total,
            *final(self) == (Transfer { pending_total: None, ..*old(self) }),
    {
        let r = self.pending_total;
        self.pending_total = None;
        r
    }

    /// Takes a read of `n` bytes: a zero-length read ends the download, any
    /// other is written and reported whole. Reads come only after the total
    /// was declared.
    pub fn on_read(&mut self, n: usize) -> (r: ChunkStep)
        requires
            old(self).pending_total is None,
            !old(self).finished,
            n <= BUFFER_SIZE,
            old(self).written + n <= u64::MAX,
        ensures
            *final(self) == after_read(*old(self), n),
            n == 0 ==> r == ChunkStep::Finish,
            n > 0 ==> r == (ChunkStep::Write { len: n }),
    {
        if n == 0 {
            self.finished = true;
            ChunkStep::Finish
        } else {
            self.written = self.written + n as u64;
            ChunkStep::Write { len: n }
        }
    }
}

/// A body read as the non-empty chunks `chunks` and then the end of the
/// stream leaves the download finished with every byte written once; since
/// each chunk is reported with its own length, the reported lengths add up
/// to the same total.
pub proof fn lemma_metered_total(t: Transfer, chunks: Seq<usize>)
    requires
        !t.finished,
        forall|i: int| 0 <= i < chunks.len() ==> 0 < #[trigger] chunks[i] <= BUFFER_SIZE,
        t.written + total_len(chunks) <= u64::MAX,
    ensures
        after_reads(t, chunks.push(0)).finished,
        after_reads(t, chunks.push(0)).written == t.written + total_len(chunks),
        after_reads(t, chunks.push(0)).pending_total == t.pending_total,
    decreases chunks.len(),
{
    if chunks.len() == 0 {
        let s = chunks.push(0);
        assert(s.skip(1) =~= Seq::<usize>::empty());
        assert(after_reads(after_read(t, 0), s.skip(1)) == after_read(t, 0));
    } else {
        let s = chunks.push(0);
        let rest = chunks.skip(1);
        assert(s.skip(1) =~= rest.push(0));
        assert(s[0] == chunks[0]);
        let t1 = after_read(t, chunks[0]);
        assert forall|i: int| 0 <= i < rest.len() implies 0 < #[trigger] rest[i] <= BUFFER_SIZE by {
            assert(rest[i] == chunks[i + 1]);
        }
        assert(total_len(rest) >= 0) by {
            lemma_total_len_nonneg(rest);
        }
        lemma_metered_total(t1, rest);
    }
}

/// A sum of sizes is never negative.
proof fn lemma_total_len_nonneg(chunks: Seq<usize>)
    ensures
        total_len(chunks) >= 0,
    decreases chunks.len(),
{
    if chunks.len() > 0 {
        lemma_total_len_nonneg(chunks.skip(1));
    }
}

} // verus!
