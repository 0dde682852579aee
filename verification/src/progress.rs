//! The counters of a run: bytes expected, bytes received, files completed.
//!
//! The counters only grow. Each of them stops at `u64::MAX` instead of
//! wrapping, so that a reader never sees one go down.

use std::time::Instant;
use vstd::prelude::*;

verus! {

/// `std::time::Instant`, carried through as the moment a run began. Nothing
/// is read from it here.
#[verifier::external_type_specification]
#[verifier::external_body]
pub struct ExInstant(Instant);

/// The sum of two counters, held at `u64::MAX` where it would not fit.
pub open spec fn capped_sum(a: u64, b: u64) -> u64 {
    if a + b > u64::MAX {
        u64::MAX
    } else {
        (a + b) as u64
    }
}

/// The sum of a sequence of byte counts.
pub open spec fn sum_of(counts: Seq<u64>) -> nat
    decreases counts.len(),
{
    if counts.len() == 0 {
        0
    } else {
        sum_of(counts.drop_last()) + counts.last() as nat
    }
}

/// Bytes per second: the bytes received over the seconds elapsed, and zero
/// while no whole second has elapsed.
pub open spec fn rate(downloaded: u64, elapsed_secs: u64) -> u64 {
    if elapsed_secs == 0 {
        0
    } else {
        downloaded / elapsed_secs
    }
}

/// Seconds that the rest will take at the given rate; zero where the rate is
/// zero or nothing is left.
pub open spec fn remaining_secs(total: u64, downloaded: u64, per_sec: u64) -> u64 {
    if per_sec == 0 || downloaded >= total {
        0
    } else {
        ((total - downloaded) / per_sec as int) as u64
    }
}

/// The share received, in percent, rounded down; zero while nothing is
/// expected.
pub open spec fn percent_of(downloaded: u64, total: u64) -> nat {
    if total == 0 {
        0
    } else {
        (downloaded * 100 / total as int) as nat
    }
}

/// The counters of one run, created when it starts.
#[derive(Clone, Copy, Debug)]
pub struct DownloadProgress {
    total_bytes: u64,
    downloaded_bytes: u64,
    files_completed: u64,
    start_time: Instant,
}

impl DownloadProgress {
    /// Bytes expected so far.
    pub closed spec fn total(self) -> u64 {
        self.total_bytes
    }

    /// Bytes received so far.
    pub closed spec fn downloaded(self) -> u64 {
        self.downloaded_bytes
    }

    /// Files completed so far.
    pub closed spec fn completed(self) -> u64 {
        self.files_completed
    }

    /// The moment the run began.
    pub closed spec fn started(self) -> Instant {
        self.start_time
    }

    /// The counters after `n` more bytes became expected.
    pub closed spec fn with_total(self, n: u64) -> Self {
        DownloadProgress { total_bytes: capped_sum(self.total_bytes, n), ..self }
    }

    /// The counters after `n` more bytes were received.
    pub closed spec fn with_downloaded(self, n: u64) -> Self {
        DownloadProgress { downloaded_bytes: capped_sum(self.downloaded_bytes, n), ..self }
    }

    /// The counters after one more file was completed.
    pub closed spec fn with_completed(self) -> Self {
        DownloadProgress { files_completed: capped_sum(self.files_completed, 1), ..self }
    }

    /// The counters after the chunks were received one after another.
    pub closed spec fn after_chunks(self, chunks: Seq<u64>) -> Self
        decreases chunks.len(),
    {
        if chunks.len() == 0 {
            self
        } else {
            self.after_chunks(chunks.drop_last()).with_downloaded(chunks.last())
        }
    }

    /// What expecting more bytes does to each counter.
    pub proof fn with_total_counters(self, n: u64)
        ensures
            self.with_total(n).total() == capped_sum(self.total(), n),
            self.with_total(n).downloaded() == self.downloaded(),
            self.with_total(n).completed() == self.completed(),
            self.with_total(n).started() == self.started(),
    {
    }

    /// What receiving more bytes does to each counter.
    pub proof fn with_downloaded_counters(self, n: u64)
        ensures
            self.with_downloaded(n).total() == self.total(),
            self.with_downloaded(n).downloaded() == capped_sum(self.downloaded(), n),
            self.with_downloaded(n).completed() == self.completed(),
            self.with_downloaded(n).started() == self.started(),
    {
    }

    /// What completing a file does to each counter.
    pub proof fn with_completed_counters(self)
        ensures
            self.with_completed().total() == self.total(),
            self.with_completed().downloaded() == self.downloaded(),
            self.with_completed().completed() == capped_sum(self.completed(), 1),
            self.with_completed().started() == self.started(),
    {
    }

    /// Fresh counters, all zero, for a run that began at `start_time`.
    pub fn new(start_time: Instant) -> (p: Self)
        ensures
            p.total() == 0,
            p.downloaded() == 0,
            p.completed() == 0,
            p.started() == start_time,
    {
        DownloadProgress { total_bytes: 0, downloaded_bytes: 0, files_completed: 0, start_time }
    }

    /// Bytes expected so far.
    pub fn total_bytes(&self) -> (n: u64)
        ensures
            n == self.total(),
    {
        self.total_bytes
    }

    /// Bytes received so far.
    pub fn downloaded_bytes(&self) -> (n: u64)
        ensures
            n == self.downloaded(),
    {
        self.downloaded_bytes
    }

    /// Files completed so far.
    pub fn files_completed(&self) -> (n: u64)
        ensures
            n == self.completed(),
    {
        self.files_completed
    }

    /// The moment the run began.
    pub fn start_time(&self) -> (t: Instant)
        ensures
            t == self.started(),
    {
        self.start_time
    }

    /// Counts `n` more bytes as expected.
    pub fn add_total_bytes(&mut self, n: u64)
        ensures
            *final(self) == old(self).with_total(n),
            final(self).total() == capped_sum(old(self).total(), n),
            final(self).total() >= old(self).total(),
            final(self).downloaded() == old(self).downloaded(),
            final(self).completed() == old(self).completed(),
            final(self).started() == old(self).started(),
    {
        self.total_bytes = self.total_bytes.saturating_add(n);
    }

    /// Counts `n` more bytes as received.
    pub fn add_downloaded_bytes(&mut self, n: u64)
        ensures
            *final(self) == old(self).with_downloaded(n),
            final(self).downloaded() == capped_sum(old(self).downloaded(), n),
            final(self).downloaded() >= old(self).downloaded(),
            final(self).total() == old(self).total(),
            final(self).completed() == old(self).completed(),
            final(self).started() == old(self).started(),
    {
        self.downloaded_bytes = self.downloaded_bytes.saturating_add(n);
    }

    /// Counts one more file as completed.
    pub fn increment_files_completed(&mut self)
        ensures
            *final(self) == old(self).with_completed(),
            final(self).completed() == capped_sum(old(self).completed(), 1),
            final(self).completed() >= old(self).completed(),
            final(self).total() == old(self).total(),
            final(self).downloaded() == old(self).downloaded(),
            final(self).started() == old(self).started(),
    {
        self.files_completed = self.files_completed.saturating_add(1);
    }

    /// Bytes per second since the run began, given the seconds elapsed.
    pub fn throughput(&self, elapsed_secs: u64) -> (per_sec: u64)
        ensures
            per_sec == rate(self.downloaded(), elapsed_secs),
    {
        if elapsed_secs == 0 {
            0
        } else {
            self.downloaded_bytes / elapsed_secs
        }
    }

    /// Estimated seconds until everything expected is received, given the
    /// seconds elapsed; zero where that cannot be told.
    pub fn eta_seconds(&self, elapsed_secs: u64) -> (secs: u64)
        ensures
            secs == remaining_secs(
                self.total(),
                self.downloaded(),
                rate(self.downloaded(), elapsed_secs),
            ),
    {
        let per_sec = self.throughput(elapsed_secs);
        if per_sec == 0 || self.downloaded_bytes >= self.total_bytes {
            0
        } else {
            (self.total_bytes - self.downloaded_bytes) / per_sec
        }
    }

    /// The share received, in percent, rounded down and held at `u64::MAX`.
    pub fn percent(&self) -> (pct: u64)
        ensures
            pct == if percent_of(self.downloaded(), self.total()) > u64::MAX {
                u64::MAX as nat
            } else {
                percent_of(self.downloaded(), self.total())
            },
            self.downloaded() <= self.total() ==> pct <= 100,
    {
        if self.total_bytes == 0 {
            0
        } else {
            let scaled: u128 = self.downloaded_bytes as u128 * 100;
            let share: u128 = scaled / (self.total_bytes as u128);
            assert(self.downloaded() <= self.total() ==> share <= 100) by (nonlinear_arith)
                requires
                    share == (self.downloaded() * 100) / (self.total() as int),
                    self.total() > 0,
            ;
            if share > u64::MAX as u128 {
                u64::MAX
            } else {
                share as u64
            }
        }
    }
}

/// Receiving the chunks b1..bN one after another leaves the received-bytes
/// counter at its old value plus their exact sum, as long as that fits in the
/// counter; the other counters are untouched.
pub proof fn downloaded_is_exact_sum(start: DownloadProgress, chunks: Seq<u64>)
    requires
        start.downloaded() + sum_of(chunks) <= u64::MAX,
    ensures
        start.after_chunks(chunks).downloaded() == start.downloaded() + sum_of(chunks),
        start.after_chunks(chunks).total() == start.total(),
        start.after_chunks(chunks).completed() == start.completed(),
    decreases chunks.len(),
{
    if chunks.len() > 0 {
        downloaded_is_exact_sum(start, chunks.drop_last());
    }
}

/// Whatever the chunks, the received-bytes counter never goes down, and it is
/// the held sum of its old value and the chunks.
pub proof fn downloaded_never_decreases(start: DownloadProgress, chunks: Seq<u64>)
    ensures
        start.after_chunks(chunks).downloaded() >= start.downloaded(),
        start.after_chunks(chunks).downloaded() == if start.downloaded() + sum_of(chunks)
            > u64::MAX {
            u64::MAX as int
        } else {
            start.downloaded() + sum_of(chunks)
        },
    decreases chunks.len(),
{
    if chunks.len() > 0 {
        downloaded_never_decreases(start, chunks.drop_last());
    }
}

/// Receiving one more chunk after others is receiving the longer sequence.
pub proof fn after_chunks_push(start: DownloadProgress, chunks: Seq<u64>, n: u64)
    ensures
        start.after_chunks(chunks.push(n)) == start.after_chunks(chunks).with_downloaded(n),
        start.after_chunks(Seq::<u64>::empty()) == start,
        sum_of(chunks.push(n)) == sum_of(chunks) + n,
{
    assert(chunks.push(n).drop_last() =~= chunks);
}

} // verus!
