//! Accounting for one streamed download: the response status decides whether
//! a body is expected, every chunk is counted, and the total decides the
//! outcome.
use vstd::prelude::*;
use crate::progress::{lemma_percent_monotonic, percent_of, reading, Progress, ProgressTracker};

verus! {

/// Why a download failed.
#[derive(Clone, Copy, Debug, PartialEq, Eq, Structural)]
pub enum DownloadError {
    /// The server answered with a status outside the success range.
    HttpStatus(u16),
    /// The body ended without a single byte.
    EmptyBody,
    /// The connection failed.
    Transport,
    /// The destination file could not be written.
    Io,
}

impl DownloadError {
    /// Whether the server said that the resource does not exist.
    pub fn is_not_found(&self) -> (b: bool)
        ensures
            b == (*self == DownloadError::HttpStatus(404)),
    {
        match self {
            DownloadError::HttpStatus(code) => *code == 404,
            _ => false,
        }
    }
}

/// The status lies in the success range, 200 to 299.
pub open spec fn is_success(status: u16) -> bool {
    200 <= status <= 299
}

/// The sum of the chunk lengths.
pub open spec fn total_length(chunks: Seq<nat>) -> nat
    decreases chunks.len(),
{
    if chunks.len() == 0 {
        0
    } else {
        total_length(chunks.drop_last()) + chunks.last()
    }
}

/// The total that progress is measured against: the declared content length,
/// or zero, meaning unknown, when none was declared.
pub open spec fn measured_total(content_length: Option<u64>) -> nat {
    match content_length {
        Some(n) => n as nat,
        None => 0,
    }
}

/// The readings reported over a whole download, one per chunk.
pub open spec fn readings(total: nat, chunks: Seq<nat>) -> Seq<Progress> {
    Seq::new(chunks.len(), |i: int| reading(total_length(chunks.take(i + 1)), total))
}

/// A download in flight.
pub struct Download {
    tracker: ProgressTracker,
    chunks: Ghost<Seq<nat>>,
}

impl Download {
    /// The lengths of the chunks recorded so far, in order of arrival.
    pub closed spec fn chunks(&self) -> Seq<nat> {
        self.chunks@
    }

    /// The number of bytes recorded so far.
    pub closed spec fn written(&self) -> nat {
        self.tracker.processed()
    }

    /// The total that progress is measured against, zero when unknown.
    pub closed spec fn total(&self) -> nat {
        self.tracker.total()
    }

    /// The byte count agrees with the chunks recorded.
    pub closed spec fn wf(&self) -> bool {
        self.tracker.processed() == total_length(self.chunks@)
    }

    /// Starts the accounting for a response with the given status and
    /// declared content length.
    ///
    /// Fails with `HttpStatus` exactly when the status is outside the success
    /// range. A declared length of zero counts as unknown.
    pub fn begin(status: u16, content_length: Option<u64>) -> (r: Result<Download, DownloadError>)
        ensures
            match r {
                Ok(download) => {
                    &&& is_success(status)
                    &&& download.wf()
                    &&& download.chunks() == Seq::<nat>::empty()
                    &&& download.written() == 0
                    &&& download.total() == measured_total(content_length)
                },
                Err(e) => !is_success(status) && e == DownloadError::HttpStatus(status),
            },
    {
        if status < 200 || status > 299 {
            return Err(DownloadError::HttpStatus(status));
        }
        let total: u64 = match content_length {
            Some(n) => n,
            None => 0,
        };
        Ok(Download { tracker: ProgressTracker::new(total), chunks: Ghost(Seq::empty()) })
    }

    /// The number of bytes recorded so far.
    pub fn bytes_written(&self) -> (n: u64)
        requires
            self.wf(),
        ensures
            n == self.written(),
            n == total_length(self.chunks()),
    {
        self.tracker.done()
    }

    /// Whether a chunk of `len` bytes can still be counted.
    pub fn has_room_for(&self, len: usize) -> (b: bool)
        ensures
            b == (self.written() + len <= u64::MAX),
    {
        len as u64 <= u64::MAX - self.tracker.done()
    }

    /// Records a chunk of `len` bytes that has been appended to the
    /// destination, and reports the progress after it.
    ///
    /// With a known total the reading is the percentage of the total written
    /// so far, never lower than before; with an unknown total it is nominal.
    pub fn record_chunk(&mut self, len: usize) -> (p: Progress)
        requires
            old(self).wf(),
            old(self).written() + len <= u64::MAX,
        ensures
            final(self).wf(),
            final(self).chunks() == old(self).chunks().push(len as nat),
            final(self).written() == old(self).written() + len,
            final(self).written() == total_length(final(self).chunks()),
            final(self).total() == old(self).total(),
            p == reading(final(self).written(), final(self).total()),
            p.is_nominal() <==> final(self).total() == 0,
            p.value() >= reading(old(self).written(), old(self).total()).value(),
    {
        proof {
            let after = self.chunks@.push(len as nat);
            assert(after.drop_last() =~= self.chunks@);
            if self.tracker.total() > 0 {
                lemma_percent_monotonic(
                    self.tracker.processed(),
                    self.tracker.processed() + len as nat,
                    self.tracker.total(),
                );
            }
        }
        self.tracker.advance(len as u64);
        self.chunks = Ghost(self.chunks@.push(len as nat));
        self.tracker.progress()
    }

    /// Closes the accounting once the body has ended and the destination has
    /// been flushed.
    ///
    /// Succeeds with the number of bytes written, which is the sum of the
    /// chunk lengths, exactly when that number is not zero; otherwise fails
    /// with `EmptyBody`.
    pub fn finish(&self) -> (r: Result<u64, DownloadError>)
        requires
            self.wf(),
        ensures
            match r {
                Ok(n) => n > 0 && n == total_length(self.chunks()) && n == self.written(),
                Err(e) => e == DownloadError::EmptyBody && total_length(self.chunks()) == 0,
            },
    {
        let n = self.tracker.done();
        if n == 0 {
            Err(DownloadError::EmptyBody)
        } else {
            Ok(n)
        }
    }
}

/// Adding a chunk never lowers the sum.
pub proof fn lemma_total_length_grows(chunks: Seq<nat>, shorter: int, longer: int)
    requires
        0 <= shorter <= longer <= chunks.len(),
    ensures
        total_length(chunks.take(shorter)) <= total_length(chunks.take(longer)),
    decreases longer - shorter,
{
    if shorter < longer {
        lemma_total_length_grows(chunks, shorter, longer - 1);
        assert(chunks.take(longer).drop_last() =~= chunks.take(longer - 1));
    }
}

/// With a known total, the readings of a download never decrease and none of
/// them is nominal.
pub proof fn lemma_known_total_readings_monotonic(total: nat, chunks: Seq<nat>, i: int, j: int)
    requires
        total > 0,
        0 <= i <= j < chunks.len(),
    ensures
        readings(total, chunks)[i].value() <= readings(total, chunks)[j].value(),
        !readings(total, chunks)[i].is_nominal(),
        !readings(total, chunks)[j].is_nominal(),
{
    lemma_total_length_grows(chunks, i + 1, j + 1);
    lemma_percent_monotonic(
        total_length(chunks.take(i + 1)),
        total_length(chunks.take(j + 1)),
        total,
    );
    assert(percent_of(total_length(chunks.take(i + 1)), total) <= 100);
    assert(percent_of(total_length(chunks.take(j + 1)), total) <= 100);
}

/// With an unknown total, every reading of a download is nominal.
pub proof fn lemma_unknown_total_readings_nominal(chunks: Seq<nat>, i: int)
    requires
        0 <= i < chunks.len(),
    ensures
        readings(0, chunks)[i] == Progress::Nominal,
{
}

} // verus!
