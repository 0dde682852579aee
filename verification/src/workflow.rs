//! The work on one manifest entry, as a machine.
//!
//! The machine asks for one thing at a time: a probe of a mirror, a look at
//! the local file, the destination's directory, a transfer attempt, the
//! removal of a file. Its caller does what is asked and reports the result
//! together with the cancellation flag as it was seen afterwards.
//!
//! The phases follow each other in this order: the size is settled (from the
//! manifest, else by probing the mirrors in turn); a file that is already
//! valid ends the work; the directory is prepared; then, mirror by mirror, a
//! probe decides whether transfers are tried there, with retries; a
//! transferred file with an expected digest is verified and, if it does not
//! match, removed.

use crate::integrity::{check_existing_file, file_matches, should_skip_download};
use crate::manifest::ManifestEntry;
use crate::mirror::Probe;
use crate::outcome::{FailureReason, FileOutcome, TransferOutcome};
use crate::progress::DownloadProgress;
use crate::retry::{RetryEvent, RetryPhase, RetryPolicy};
use vstd::prelude::*;

verus! {

/// What the work on an entry is waiting for.
#[derive(Clone, Copy, Debug, PartialEq, Eq, Structural)]
pub enum Phase {
    /// The probe of this mirror, asked to learn the file's size.
    Sizing { mirror: usize },
    /// The local file's content, to see whether it is already valid.
    PreCheck,
    /// The destination's parent directory.
    Preparing,
    /// The probe of this mirror, asked before transfers are tried there.
    Resolving { mirror: usize },
    /// A transfer attempt from this mirror, or the removal of what a failed
    /// attempt left, as the retry policy says.
    Transferring { mirror: usize, retry: RetryPolicy },
    /// The transferred file's content, to verify it.
    Verifying,
    /// The removal of a transferred file that did not verify.
    Rejecting,
    /// Nothing; the work is over.
    Done(FileOutcome),
}

/// What happened to the action that the machine asked for.
#[derive(Clone, Debug)]
pub enum Event {
    /// A mirror was probed.
    Probed(Probe),
    /// The local file was read: its content, or `None` where it does not
    /// exist.
    Inspected(Option<Vec<u8>>),
    /// The destination's parent directory exists now, or could not be made.
    DirectoryReady(bool),
    /// A transfer attempt ended.
    Transferred(TransferOutcome),
    /// The file at the destination is gone.
    Removed,
}

/// What the machine asks its caller to do next.
#[derive(Clone, Copy, Debug, PartialEq, Eq, Structural)]
pub enum Action {
    /// Send a metadata-only request for the entry to this mirror.
    Probe { mirror: usize },
    /// Read the file at the destination.
    InspectFile,
    /// Create the destination's parent directories.
    PrepareDirectory,
    /// Make one transfer attempt from this mirror.
    Transfer { mirror: usize },
    /// Delete the file at the destination.
    RemoveFile,
    /// Stop; this is the entry's outcome.
    Finish(FileOutcome),
}

/// The work on one manifest entry in progress.
#[derive(Clone, Copy, Debug, PartialEq, Eq, Structural)]
pub struct EntryWorkflow {
    /// What the machine is waiting for.
    pub phase: Phase,
    /// How many mirrors there are.
    pub mirror_count: usize,
    /// How many transfer attempts each mirror gets.
    pub max_attempts: u32,
    /// The file's size as far as it is known: from the manifest, else from
    /// the first mirror that told it.
    pub known_size: Option<u64>,
}

/// The bytes of a file that was read, or `None` for a file that is absent.
pub open spec fn bytes_view(content: Option<Vec<u8>>) -> Option<Seq<u8>> {
    match content {
        Some(bytes) => Some(bytes@),
        None => None,
    }
}

impl EntryWorkflow {
    /// The machine moved to another phase.
    pub open spec fn at(self, phase: Phase) -> EntryWorkflow {
        EntryWorkflow { phase, ..self }
    }

    /// The phase that follows once the size is settled: the local file is
    /// looked at if both digest and size are known, else the directory is
    /// prepared.
    pub open spec fn after_sizing(self, entry: ManifestEntry) -> EntryWorkflow {
        if entry.md5 is Some && self.known_size is Some {
            self.at(Phase::PreCheck)
        } else {
            self.at(Phase::Preparing)
        }
    }

    /// The phase in which mirrors from `mirror` on are tried: the probe of
    /// that mirror, or failure where no mirror is left.
    pub open spec fn resolving_from(self, mirror: int) -> EntryWorkflow {
        if mirror < self.mirror_count {
            self.at(Phase::Resolving { mirror: mirror as usize })
        } else {
            self.at(Phase::Done(FileOutcome::Failed(FailureReason::AllMirrorsFailed)))
        }
    }

    /// The phase that follows a successful transfer: verification where a
    /// digest is expected, else the end.
    pub open spec fn after_transfer(self, entry: ManifestEntry) -> EntryWorkflow {
        if entry.md5 is Some {
            self.at(Phase::Verifying)
        } else {
            self.at(Phase::Done(FileOutcome::Downloaded))
        }
    }

    /// The phase that follows a step of the retry policy at a mirror: more
    /// of the same while the policy goes on; after its success, what follows
    /// a transfer; after its interruption, the end; after its failure, the
    /// next mirror.
    pub open spec fn after_retry(
        self,
        entry: ManifestEntry,
        mirror: usize,
        retry: RetryPolicy,
    ) -> EntryWorkflow {
        match retry.phase {
            RetryPhase::Finished(TransferOutcome::Success(_)) => self.after_transfer(entry),
            RetryPhase::Finished(TransferOutcome::Interrupted) => self.at(
                Phase::Done(FileOutcome::Skipped),
            ),
            RetryPhase::Finished(_) => self.resolving_from(mirror + 1),
            _ => self.at(Phase::Transferring { mirror, retry }),
        }
    }

    /// The machine at the start of the work on an entry. With the size in the
    /// manifest nothing needs probing for it; without it the first mirror is
    /// probed, if there is one.
    pub open spec fn initial(entry: ManifestEntry, mirror_count: usize, max_attempts: u32)
        -> EntryWorkflow {
        let start = EntryWorkflow {
            phase: Phase::Preparing,
            mirror_count,
            max_attempts,
            known_size: entry.size,
        };
        if entry.size is None && mirror_count > 0 {
            start.at(Phase::Sizing { mirror: 0 })
        } else {
            start.after_sizing(entry)
        }
    }

    /// The action that the machine is waiting for.
    pub open spec fn pending(self) -> Action {
        match self.phase {
            Phase::Sizing { mirror } => Action::Probe { mirror },
            Phase::PreCheck => Action::InspectFile,
            Phase::Preparing => Action::PrepareDirectory,
            Phase::Resolving { mirror } => Action::Probe { mirror },
            Phase::Transferring { mirror, retry } => if retry.phase is Discarding {
                Action::RemoveFile
            } else {
                Action::Transfer { mirror }
            },
            Phase::Verifying => Action::InspectFile,
            Phase::Rejecting => Action::RemoveFile,
            Phase::Done(outcome) => Action::Finish(outcome),
        }
    }

    /// The size that an event settles: the size told by a sizing probe.
    pub open spec fn settled_size(self, event: Event, cancelled: bool) -> Option<u64> {
        match (self.phase, event) {
            (Phase::Sizing { .. }, Event::Probed(probe)) => if cancelled {
                None
            } else {
                probe.known_size()
            },
            _ => None,
        }
    }

    /// The machine after an event.
    ///
    /// A finished machine stays as it is. A raised cancellation flag ends the
    /// work as skipped, whatever the event. Otherwise:
    /// - a sizing probe that tells a size settles it; one that does not passes
    ///   the question to the next mirror, and after the last mirror the size
    ///   stays unknown;
    /// - a local file that matches the expected digest and the known size ends
    ///   the work as already valid; any other leads on to the directory;
    /// - a directory that cannot be made fails the entry;
    /// - a mirror whose probe does not answer with success is passed over, and
    ///   after the last mirror the entry fails;
    /// - at a mirror that answered, the retry policy runs; its failure leads
    ///   to the next mirror;
    /// - a transferred file that does not match the expected digest, or the
    ///   size that the manifest gives, is removed and the entry fails.
    /// An event that the machine is not waiting for changes nothing.
    pub open spec fn next(self, entry: ManifestEntry, event: Event, cancelled: bool)
        -> EntryWorkflow {
        match (self.phase, event) {
            (Phase::Done(_), _) => self,
            _ if cancelled => self.at(Phase::Done(FileOutcome::Skipped)),
            (Phase::Sizing { mirror }, Event::Probed(probe)) => match probe.known_size() {
                Some(size) => (EntryWorkflow { known_size: Some(size), ..self }).after_sizing(
                    entry,
                ),
                None => if mirror + 1 < self.mirror_count {
                    self.at(Phase::Sizing { mirror: (mirror + 1) as usize })
                } else {
                    self.after_sizing(entry)
                },
            },
            (Phase::PreCheck, Event::Inspected(content)) => if entry.md5 is Some
                && self.known_size is Some && file_matches(
                bytes_view(content),
                entry.digest(),
                self.known_size,
            ) {
                self.at(Phase::Done(FileOutcome::AlreadyValid))
            } else {
                self.at(Phase::Preparing)
            },
            (Phase::Preparing, Event::DirectoryReady(ready)) => if ready {
                self.resolving_from(0)
            } else {
                self.at(Phase::Done(FileOutcome::Failed(FailureReason::DirectoryUnavailable)))
            },
            (Phase::Resolving { mirror }, Event::Probed(probe)) => if probe.available() {
                self.at(
                    Phase::Transferring { mirror, retry: RetryPolicy::fresh(self.max_attempts) },
                )
            } else {
                self.resolving_from(mirror + 1)
            },
            (Phase::Transferring { mirror, retry }, Event::Transferred(outcome)) => {
                self.after_retry(entry, mirror, retry.next(RetryEvent::Attempted(outcome), false))
            },
            (Phase::Transferring { mirror, retry }, Event::Removed) => self.after_retry(
                entry,
                mirror,
                retry.next(RetryEvent::Discarded, false),
            ),
            (Phase::Verifying, Event::Inspected(content)) => if file_matches(
                bytes_view(content),
                entry.digest(),
                entry.size,
            ) {
                self.at(Phase::Done(FileOutcome::Downloaded))
            } else {
                self.at(Phase::Rejecting)
            },
            (Phase::Rejecting, Event::Removed) => self.at(
                Phase::Done(FileOutcome::Failed(FailureReason::ChecksumMismatch)),
            ),
            _ => self,
        }
    }

    /// The counters after an event: a size that a sizing probe settles is
    /// added to the bytes expected.
    pub open spec fn next_progress(
        self,
        event: Event,
        cancelled: bool,
        progress: DownloadProgress,
    ) -> DownloadProgress {
        match self.settled_size(event, cancelled) {
            Some(size) => progress.with_total(size),
            None => progress,
        }
    }

    /// Moves to the phase that follows the settling of the size.
    fn enter_after_sizing(&mut self, entry: &ManifestEntry)
        ensures
            *final(self) == old(self).after_sizing(*entry),
    {
        if entry.md5.is_some() && self.known_size.is_some() {
            self.phase = Phase::PreCheck;
        } else {
            self.phase = Phase::Preparing;
        }
    }

    /// Moves on to the mirror after `mirror`, or fails the entry.
    fn enter_next_mirror(&mut self, mirror: usize)
        ensures
            *final(self) == old(self).resolving_from(mirror + 1),
    {
        if mirror < usize::MAX && mirror + 1 < self.mirror_count {
            self.phase = Phase::Resolving { mirror: mirror + 1 };
        } else {
            self.phase = Phase::Done(FileOutcome::Failed(FailureReason::AllMirrorsFailed));
        }
    }

    /// Moves to the phase that follows a step of the retry policy.
    fn enter_after_retry(&mut self, entry: &ManifestEntry, mirror: usize, retry: RetryPolicy)
        ensures
            *final(self) == old(self).after_retry(*entry, mirror, retry),
    {
        match retry.phase {
            RetryPhase::Finished(TransferOutcome::Success(_)) => {
                if entry.md5.is_some() {
                    self.phase = Phase::Verifying;
                } else {
                    self.phase = Phase::Done(FileOutcome::Downloaded);
                }
            },
            RetryPhase::Finished(TransferOutcome::Interrupted) => {
                self.phase = Phase::Done(FileOutcome::Skipped);
            },
            RetryPhase::Finished(_) => {
                self.enter_next_mirror(mirror);
            },
            _ => {
                self.phase = Phase::Transferring { mirror, retry };
            },
        }
    }

    /// Starts the work on an entry with `mirror_count` mirrors, each of which
    /// gets as many transfer attempts as `policy` allows. A size that the
    /// manifest gives is added to the bytes expected.
    pub fn new(
        entry: &ManifestEntry,
        mirror_count: usize,
        policy: RetryPolicy,
        progress: &mut DownloadProgress,
    ) -> (flow: EntryWorkflow)
        ensures
            flow == EntryWorkflow::initial(*entry, mirror_count, policy.max_attempts),
            *final(progress) == match entry.size {
                Some(size) => old(progress).with_total(size),
                None => *old(progress),
            },
            final(progress).total() >= old(progress).total(),
            final(progress).downloaded() == old(progress).downloaded(),
            final(progress).completed() == old(progress).completed(),
    {
        let mut flow = EntryWorkflow {
            phase: Phase::Preparing,
            mirror_count,
            max_attempts: policy.max_attempts,
            known_size: entry.size,
        };
        match entry.size {
            Some(size) => {
                progress.add_total_bytes(size);
                flow.enter_after_sizing(entry);
            },
            None => {
                if mirror_count > 0 {
                    flow.phase = Phase::Sizing { mirror: 0 };
                } else {
                    flow.enter_after_sizing(entry);
                }
            },
        }
        flow
    }

    /// The action that the machine is waiting for.
    pub fn action(&self) -> (action: Action)
        ensures
            action == self.pending(),
    {
        match self.phase {
            Phase::Sizing { mirror } => Action::Probe { mirror },
            Phase::PreCheck => Action::InspectFile,
            Phase::Preparing => Action::PrepareDirectory,
            Phase::Resolving { mirror } => Action::Probe { mirror },
            Phase::Transferring { mirror, retry } => match retry.phase {
                RetryPhase::Discarding(_) => Action::RemoveFile,
                _ => Action::Transfer { mirror },
            },
            Phase::Verifying => Action::InspectFile,
            Phase::Rejecting => Action::RemoveFile,
            Phase::Done(outcome) => Action::Finish(outcome),
        }
    }

    /// The entry's outcome, once the work is over.
    pub fn outcome(&self) -> (outcome: Option<FileOutcome>)
        ensures
            outcome == match self.phase {
                Phase::Done(o) => Some(o),
                _ => None,
            },
    {
        match self.phase {
            Phase::Done(o) => Some(o),
            _ => None,
        }
    }

    /// Takes in what happened to the pending action, with the cancellation
    /// flag as it was seen afterwards, and returns the next action. `entry`
    /// is the entry that the machine was started for.
    pub fn step(
        &mut self,
        entry: &ManifestEntry,
        event: Event,
        cancelled: bool,
        progress: &mut DownloadProgress,
    ) -> (action: Action)
        ensures
            *final(self) == old(self).next(*entry, event, cancelled),
            *final(progress) == old(self).next_progress(event, cancelled, *old(progress)),
            final(progress).total() >= old(progress).total(),
            final(progress).downloaded() == old(progress).downloaded(),
            final(progress).completed() == old(progress).completed(),
            action == final(self).pending(),
    {
        if let Phase::Done(_) = self.phase {
            return self.action();
        }
        if cancelled {
            self.phase = Phase::Done(FileOutcome::Skipped);
            return self.action();
        }
        match (self.phase, &event) {
            (Phase::Sizing { mirror }, Event::Probed(probe)) => {
                match probe.size() {
                    Some(size) => {
                        self.known_size = Some(size);
                        progress.add_total_bytes(size);
                        self.enter_after_sizing(entry);
                    },
                    None => {
                        if mirror < usize::MAX && mirror + 1 < self.mirror_count {
                            self.phase = Phase::Sizing { mirror: mirror + 1 };
                        } else {
                            self.enter_after_sizing(entry);
                        }
                    },
                }
            },
            (Phase::PreCheck, Event::Inspected(content)) => {
                let bytes: Option<&[u8]> = match content {
                    Some(bytes) => Some(bytes.as_slice()),
                    None => None,
                };
                if should_skip_download(bytes, entry.digest_text(), self.known_size) {
                    self.phase = Phase::Done(FileOutcome::AlreadyValid);
                } else {
                    self.phase = Phase::Preparing;
                }
            },
            (Phase::Preparing, Event::DirectoryReady(ready)) => {
                if *ready {
                    if self.mirror_count > 0 {
                        self.phase = Phase::Resolving { mirror: 0 };
                    } else {
                        self.phase = Phase::Done(
                            FileOutcome::Failed(FailureReason::AllMirrorsFailed),
                        );
                    }
                } else {
                    self.phase = Phase::Done(
                        FileOutcome::Failed(FailureReason::DirectoryUnavailable),
                    );
                }
            },
            (Phase::Resolving { mirror }, Event::Probed(probe)) => {
                if probe.is_available() {
                    self.phase = Phase::Transferring {
                        mirror,
                        retry: RetryPolicy {
                            max_attempts: self.max_attempts,
                            attempts: 0,
                            phase: RetryPhase::Attempting,
                        },
                    };
                } else {
                    self.enter_next_mirror(mirror);
                }
            },
            (Phase::Transferring { mirror, retry }, Event::Transferred(outcome)) => {
                let mut retry = retry;
                retry.step(RetryEvent::Attempted(*outcome), false);
                self.enter_after_retry(entry, mirror, retry);
            },
            (Phase::Transferring { mirror, retry }, Event::Removed) => {
                let mut retry = retry;
                retry.step(RetryEvent::Discarded, false);
                self.enter_after_retry(entry, mirror, retry);
            },
            (Phase::Verifying, Event::Inspected(content)) => {
                let bytes: Option<&[u8]> = match content {
                    Some(bytes) => Some(bytes.as_slice()),
                    None => None,
                };
                if check_existing_file(bytes, entry.digest_text(), entry.size) {
                    self.phase = Phase::Done(FileOutcome::Downloaded);
                } else {
                    self.phase = Phase::Rejecting;
                }
            },
            (Phase::Rejecting, Event::Removed) => {
                self.phase = Phase::Done(FileOutcome::Failed(FailureReason::ChecksumMismatch));
            },
            _ => {},
        }
        self.action()
    }
}

} // verus!
