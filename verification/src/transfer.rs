use vstd::prelude::*;

verus! {

/// Where a download's body goes: an in-memory buffer, or a file on disk.
#[derive(Clone, Copy, Debug, PartialEq, Eq, Structural)]
pub enum SinkKind {
    Memory,
    Disk,
}

/// What to do once the response's declared content length is known, or known
/// to be absent.
#[derive(Clone, Copy, Debug, PartialEq, Eq, Structural)]
pub enum LengthDecision {
    /// The length was declared: stream the body against this total.
    Proceed(u64),
    /// The length was missing on the in-memory path with attempts left:
    /// reissue the request.
    RetryNow,
    /// The length was missing on the to-file path, or the in-memory path has
    /// exhausted its attempts: fatal.
    Fail,
}

/// How many requests the in-memory path issues in all before a persistently
/// missing content length becomes fatal.
pub const MAX_LENGTH_ATTEMPTS: u64 = 3;

/// Decides how a download proceeds after reading the response's content
/// length, on the request numbered `attempt` (counted from 1). A declared
/// length is streamed against. A missing length is fatal at once on the
/// to-file path; on the in-memory path it is retried, and becomes fatal once
/// the attempt bound is reached, so the retry always terminates.
pub fn decide_length(len: Option<u64>, sink: SinkKind, attempt: u64) -> (d: LengthDecision)
    ensures
        len matches Some(n) ==> d == LengthDecision::Proceed(n),
        len is None && sink is Disk ==> d == LengthDecision::Fail,
        len is None && sink is Memory && attempt < MAX_LENGTH_ATTEMPTS ==> d
            == LengthDecision::RetryNow,
        len is None && sink is Memory && attempt >= MAX_LENGTH_ATTEMPTS ==> d
            == LengthDecision::Fail,
{
    match len {
        Some(n) => LengthDecision::Proceed(n),
        None => match sink {
            SinkKind::Memory => {
                if attempt < MAX_LENGTH_ATTEMPTS {
                    LengthDecision::RetryNow
                } else {
                    LengthDecision::Fail
                }
            },
            SinkKind::Disk => LengthDecision::Fail,
        },
    }
}

/// Ephemeral transfer counters scoped to one download call: bytes received
/// so far, clamped to the declared total, reported as (current, total) after
/// each chunk for progress display.
pub struct Progress {
    pub downloaded: u64,
    pub total: u64,
}

impl Progress {
    /// The running count never passes the declared total.
    pub open spec fn wf(self) -> bool {
        self.downloaded <= self.total
    }

    /// The count a transfer shows after one more chunk of `len` bytes:
    /// advanced by the chunk's length, clamped at the total.
    pub open spec fn advanced(self, len: int) -> int {
        if self.downloaded + len <= self.total {
            self.downloaded + len
        } else {
            self.total as int
        }
    }

    /// Fresh counters for a transfer of `total` declared bytes.
    pub fn new(total: u64) -> (p: Progress)
        ensures
            p.total == total,
            p.downloaded == 0,
            p.wf(),
    {
        Progress { downloaded: 0, total }
    }

    /// Records one received chunk.
    pub fn record_chunk(&mut self, len: usize)
        requires
            old(self).wf(),
        ensures
            final(self).wf(),
            final(self).total == old(self).total,
            final(self).downloaded == old(self).advanced(len as int),
    {
        let grown = self.downloaded.saturating_add(len as u64);
        self.downloaded = if grown < self.total {
            grown
        } else {
            self.total
        };
    }
}

/// The in-memory download sink: accumulates the body's chunks, in order, in
/// one buffer, alongside the transfer counters.
pub struct MemoryDownload {
    pub progress: Progress,
    pub bytes: Vec<u8>,
    pub chunks: Ghost<Seq<Seq<u8>>>,
}

impl MemoryDownload {
    /// The buffer holds exactly the concatenation of the chunks received so
    /// far.
    pub open spec fn wf(self) -> bool {
        &&& self.progress.wf()
        &&& self.bytes@ == self.chunks@.flatten()
    }

    /// An empty sink for a transfer of `total` declared bytes.
    pub fn new(total: u64) -> (d: MemoryDownload)
        ensures
            d.wf(),
            d.progress.total == total,
            d.progress.downloaded == 0,
            d.bytes@ == Seq::<u8>::empty(),
            d.chunks@ == Seq::<Seq<u8>>::empty(),
    {
        let d = MemoryDownload {
            progress: Progress::new(total),
            bytes: Vec::new(),
            chunks: Ghost(Seq::empty()),
        };
        proof {
            assert(d.bytes@ =~= d.chunks@.flatten());
        }
        d
    }

    /// Appends one chunk of the body to the buffer, advances the counters,
    /// and reports (current, total) for progress display.
    pub fn push_chunk(&mut self, chunk: &[u8]) -> (prog: (u64, u64))
        requires
            old(self).wf(),
        ensures
            final(self).wf(),
            final(self).bytes@ == old(self).bytes@ + chunk@,
            final(self).chunks@ == old(self).chunks@.push(chunk@),
            final(self).progress.total == old(self).progress.total,
            final(self).progress.downloaded == old(self).progress.advanced(chunk@.len() as int),
            prog.0 == final(self).progress.downloaded,
            prog.1 == final(self).progress.total,
    {
        self.progress.record_chunk(chunk.len());
        let mut i: usize = 0;
        while i < chunk.len()
            invariant
                i <= chunk@.len(),
                self.bytes@ == old(self).bytes@ + chunk@.subrange(0, i as int),
                self.progress.wf(),
                self.progress.total == old(self).progress.total,
                self.progress.downloaded == old(self).progress.advanced(chunk@.len() as int),
                self.chunks == old(self).chunks,
            decreases chunk@.len() - i,
        {
            proof {
                assert(chunk@.subrange(0, i + 1) =~= chunk@.subrange(0, i as int).push(chunk@[i as int]));
            }
            self.bytes.push(chunk[i]);
            i = i + 1;
        }
        self.chunks = Ghost(self.chunks@.push(chunk@));
        proof {
            assert(chunk@.subrange(0, chunk@.len() as int) =~= chunk@);
            old(self).chunks@.lemma_flatten_push(chunk@);
        }
        (self.progress.downloaded, self.progress.total)
    }
}

/// The to-file download sink: the transfer counters, together with a record
/// of every byte handed over for writing. The caller writes each chunk to
/// the destination file in the order it records them here.
pub struct DiskDownload {
    pub progress: Progress,
    pub written: Ghost<Seq<u8>>,
    pub chunks: Ghost<Seq<Seq<u8>>>,
}

impl DiskDownload {
    /// The bytes handed over are exactly the concatenation of the chunks
    /// received so far.
    pub open spec fn wf(self) -> bool {
        &&& self.progress.wf()
        &&& self.written@ == self.chunks@.flatten()
    }

    /// A fresh sink for a transfer of `total` declared bytes.
    pub fn new(total: u64) -> (d: DiskDownload)
        ensures
            d.wf(),
            d.progress.total == total,
            d.progress.downloaded == 0,
            d.written@ == Seq::<u8>::empty(),
            d.chunks@ == Seq::<Seq<u8>>::empty(),
    {
        let d = DiskDownload {
            progress: Progress::new(total),
            written: Ghost(Seq::empty()),
            chunks: Ghost(Seq::empty()),
        };
        proof {
            assert(d.written@ =~= d.chunks@.flatten());
        }
        d
    }

    /// Records one chunk of the body that the caller writes to the
    /// destination file next, advances the counters, and reports
    /// (current, total) for progress display.
    pub fn record_chunk(&mut self, chunk: &[u8]) -> (prog: (u64, u64))
        requires
            old(self).wf(),
        ensures
            final(self).wf(),
            final(self).written@ == old(self).written@ + chunk@,
            final(self).chunks@ == old(self).chunks@.push(chunk@),
            final(self).progress.total == old(self).progress.total,
            final(self).progress.downloaded == old(self).progress.advanced(chunk@.len() as int),
            prog.0 == final(self).progress.downloaded,
            prog.1 == final(self).progress.total,
    {
        self.progress.record_chunk(chunk.len());
        self.written = Ghost(self.written@ + chunk@);
        self.chunks = Ghost(self.chunks@.push(chunk@));
        proof {
            old(self).chunks@.lemma_flatten_push(chunk@);
        }
        (self.progress.downloaded, self.progress.total)
    }
}

/// Law: the two download sinks agree byte for byte. A download to memory and
/// a download to a file that received the same chunks in the same order hold,
/// respectively hand over for writing, identical bytes.
pub proof fn lemma_sinks_agree(m: MemoryDownload, d: DiskDownload)
    requires
        m.wf(),
        d.wf(),
        m.chunks@ == d.chunks@,
    ensures
        m.bytes@ == d.written@,
{
}

} // verus!
