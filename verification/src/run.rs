//! A whole run: the manifest's entries taken one after another, and the
//! tally at the end.
//!
//! Entries are worked on strictly in order, one at a time. A failed entry
//! never ends the run. A raised cancellation flag does: the entry at hand is
//! skipped and no later entry is begun.

use crate::manifest::ManifestEntry;
use crate::outcome::FileOutcome;
use crate::progress::DownloadProgress;
use crate::retry::RetryPolicy;
use crate::workflow::EntryWorkflow;
use std::time::Instant;
use vstd::prelude::*;

verus! {

/// Why a run cannot begin.
#[derive(Clone, Copy, Debug, PartialEq, Eq, Structural)]
pub enum ConfigurationError {
    /// The manifest has no entries.
    EmptyManifest,
    /// There is no mirror to ask.
    NoMirrors,
    /// No transfer attempt is allowed.
    NoAttempts,
}

/// A run in progress.
#[derive(Clone, Copy, Debug)]
pub struct DownloadRun {
    /// How many entries the manifest has.
    pub entry_count: usize,
    /// How many mirrors there are.
    pub mirror_count: usize,
    /// The retry policy that every mirror of every entry starts with.
    pub policy: RetryPolicy,
    /// The position of the entry that is at hand or comes next; equal to
    /// `entry_count` once all are done.
    pub position: usize,
    /// The entries that ended valid on disk.
    pub succeeded: usize,
    /// The entries that failed.
    pub failed: usize,
    /// The cancellation flag was seen; nothing more is begun.
    pub stopped: bool,
    /// The counters of the run.
    pub progress: DownloadProgress,
}

impl DownloadRun {
    /// The tally never exceeds the entries that were taken up, those never
    /// exceed the manifest, and the files counted as completed are the
    /// entries that succeeded.
    pub open spec fn wf(self) -> bool {
        &&& self.entry_count >= 1
        &&& self.mirror_count >= 1
        &&& self.policy == RetryPolicy::fresh(self.policy.max_attempts)
        &&& self.policy.max_attempts >= 1
        &&& self.position <= self.entry_count
        &&& self.succeeded + self.failed <= self.position
        &&& self.progress.completed() == self.succeeded
    }

    /// The entries that neither succeeded nor failed: skipped or never begun.
    pub open spec fn unfinished(self) -> nat {
        (self.entry_count - self.succeeded - self.failed) as nat
    }

    /// The run after the cancellation flag was looked at.
    pub open spec fn polled(self, cancelled: bool) -> DownloadRun {
        DownloadRun { stopped: self.stopped || cancelled, ..self }
    }

    /// The entry to work on next, if there is one and the run goes on.
    pub open spec fn upcoming(self) -> Option<usize> {
        if self.stopped || self.position >= self.entry_count {
            None
        } else {
            Some(self.position)
        }
    }

    /// The run after the outcome of the entry at hand was recorded. A run
    /// that has stopped or has no entry left records nothing. A valid file
    /// counts as succeeded and as one more file completed, a failure as
    /// failed; a skipped entry counts as neither and stops the run.
    pub open spec fn recorded(self, outcome: FileOutcome) -> DownloadRun {
        if self.stopped || self.position >= self.entry_count {
            self
        } else {
            let taken = DownloadRun { position: (self.position + 1) as usize, ..self };
            match outcome {
                FileOutcome::AlreadyValid | FileOutcome::Downloaded => DownloadRun {
                    succeeded: if self.succeeded < usize::MAX {
                        (self.succeeded + 1) as usize
                    } else {
                        self.succeeded
                    },
                    progress: self.progress.with_completed(),
                    ..taken
                },
                FileOutcome::Failed(_) => DownloadRun {
                    failed: if self.failed < usize::MAX {
                        (self.failed + 1) as usize
                    } else {
                        self.failed
                    },
                    ..taken
                },
                FileOutcome::Skipped => DownloadRun { stopped: true, ..taken },
            }
        }
    }

    /// The run after the given outcomes were recorded one after another.
    pub open spec fn recorded_all(self, outcomes: Seq<FileOutcome>) -> DownloadRun
        decreases outcomes.len(),
    {
        if outcomes.len() == 0 {
            self
        } else {
            self.recorded_all(outcomes.drop_last()).recorded(outcomes.last())
        }
    }

    /// Begins a run over `entry_count` entries and `mirror_count` mirrors,
    /// with `max_attempts` transfer attempts per mirror. An empty manifest,
    /// an empty mirror list and a zero attempt limit are refused, in that
    /// order.
    pub fn start(
        entry_count: usize,
        mirror_count: usize,
        max_attempts: u32,
        start_time: Instant,
    ) -> (run: Result<DownloadRun, ConfigurationError>)
        ensures
            entry_count == 0 ==> run == Err::<DownloadRun, _>(ConfigurationError::EmptyManifest),
            entry_count > 0 && mirror_count == 0 ==> run == Err::<DownloadRun, _>(
                ConfigurationError::NoMirrors,
            ),
            entry_count > 0 && mirror_count > 0 && max_attempts == 0 ==> run == Err::<
                DownloadRun,
                _,
            >(ConfigurationError::NoAttempts),
            entry_count > 0 && mirror_count > 0 && max_attempts > 0 ==> run is Ok && run->Ok_0.wf()
                && run->Ok_0.entry_count == entry_count && run->Ok_0.mirror_count == mirror_count
                && run->Ok_0.policy == RetryPolicy::fresh(max_attempts) && run->Ok_0.position == 0
                && run->Ok_0.succeeded == 0 && run->Ok_0.failed == 0 && !run->Ok_0.stopped
                && run->Ok_0.progress.total() == 0 && run->Ok_0.progress.downloaded() == 0
                && run->Ok_0.progress.completed() == 0 && run->Ok_0.progress.started()
                == start_time,
    {
        if entry_count == 0 {
            return Err(ConfigurationError::EmptyManifest);
        }
        if mirror_count == 0 {
            return Err(ConfigurationError::NoMirrors);
        }
        let policy = match RetryPolicy::new(max_attempts) {
            Some(policy) => policy,
            None => {
                return Err(ConfigurationError::NoAttempts);
            },
        };
        Ok(
            DownloadRun {
                entry_count,
                mirror_count,
                policy,
                position: 0,
                succeeded: 0,
                failed: 0,
                stopped: false,
                progress: DownloadProgress::new(start_time),
            },
        )
    }

    /// Looks at the cancellation flag and tells which entry to work on next:
    /// none once the flag was seen or the manifest is exhausted.
    pub fn next_entry(&mut self, cancelled: bool) -> (index: Option<usize>)
        ensures
            *final(self) == old(self).polled(cancelled),
            index == final(self).upcoming(),
            old(self).wf() ==> final(self).wf(),
    {
        if cancelled {
            self.stopped = true;
        }
        if self.stopped || self.position >= self.entry_count {
            None
        } else {
            Some(self.position)
        }
    }

    /// Starts the work on an entry with the run's mirrors, retry policy and
    /// counters.
    pub fn begin_entry(&mut self, entry: &ManifestEntry) -> (flow: EntryWorkflow)
        ensures
            flow == EntryWorkflow::initial(
                *entry,
                old(self).mirror_count,
                old(self).policy.max_attempts,
            ),
            *final(self) == (DownloadRun {
                progress: match entry.size {
                    Some(size) => old(self).progress.with_total(size),
                    None => old(self).progress,
                },
                ..*old(self)
            }),
            old(self).wf() ==> final(self).wf(),
    {
        EntryWorkflow::new(entry, self.mirror_count, self.policy, &mut self.progress)
    }

    /// Records the outcome of the entry at hand.
    pub fn record(&mut self, outcome: FileOutcome)
        ensures
            *final(self) == old(self).recorded(outcome),
            old(self).wf() ==> final(self).wf(),
    {
        if self.stopped || self.position >= self.entry_count {
            return ;
        }
        self.position = self.position + 1;
        match outcome {
            FileOutcome::AlreadyValid | FileOutcome::Downloaded => {
                if self.succeeded < usize::MAX {
                    self.succeeded = self.succeeded + 1;
                }
                self.progress.increment_files_completed();
            },
            FileOutcome::Failed(_) => {
                if self.failed < usize::MAX {
                    self.failed = self.failed + 1;
                }
            },
            FileOutcome::Skipped => {
                self.stopped = true;
            },
        }
    }

    /// The entries that ended valid on disk.
    pub fn succeeded(&self) -> (n: usize)
        ensures
            n == self.succeeded,
    {
        self.succeeded
    }

    /// The entries that failed.
    pub fn failed(&self) -> (n: usize)
        ensures
            n == self.failed,
    {
        self.failed
    }

    /// The entries that neither succeeded nor failed.
    pub fn unfinished_count(&self) -> (n: usize)
        requires
            self.wf(),
        ensures
            n == self.unfinished(),
    {
        self.entry_count - self.succeeded - self.failed
    }

    /// The entries that did not end valid on disk: failed, skipped or never
    /// begun.
    pub fn shortfall(&self) -> (n: usize)
        ensures
            n == if self.succeeded <= self.entry_count {
                self.entry_count - self.succeeded
            } else {
                0
            },
    {
        if self.succeeded <= self.entry_count {
            self.entry_count - self.succeeded
        } else {
            0
        }
    }

    /// Tells whether every entry of the manifest ended valid on disk.
    pub fn is_complete(&self) -> (complete: bool)
        ensures
            complete == (self.succeeded == self.entry_count),
    {
        self.succeeded == self.entry_count
    }
}

} // verus!
