//! What holds of the work on an entry and of a run, whatever the mirrors and
//! the disk do.

use crate::integrity::file_matches;
use crate::manifest::ManifestEntry;
use crate::mirror::Probe;
use crate::outcome::{FailureReason, FileOutcome, TransferOutcome};
use crate::progress::{capped_sum, DownloadProgress};
use crate::retry::{RetryPhase, RetryPolicy};
use crate::run::DownloadRun;
use crate::workflow::{bytes_view, Action, EntryWorkflow, Event, Phase};
use vstd::prelude::*;

verus! {

/// The machine after a sequence of events during which the cancellation flag
/// stays down.
pub open spec fn run_events(flow: EntryWorkflow, entry: ManifestEntry, events: Seq<Event>)
    -> EntryWorkflow
    decreases events.len(),
{
    if events.len() == 0 {
        flow
    } else {
        run_events(flow, entry, events.drop_last()).next(entry, events.last(), false)
    }
}

/// No probe among the events found its mirror answering with success.
pub open spec fn no_probe_succeeds(events: Seq<Event>) -> bool {
    forall|i: int|
        0 <= i < events.len() ==> match #[trigger] events[i] {
            Event::Probed(probe) => !probe.available(),
            _ => true,
        }
}

/// The machine has asked for no transfer and no removal so far: it is still
/// settling the size, checking the local file, preparing the directory or
/// probing mirrors, or it ended without having transferred anything.
pub open spec fn untouched(flow: EntryWorkflow) -> bool {
    match flow.phase {
        Phase::Sizing { .. } | Phase::PreCheck | Phase::Preparing | Phase::Resolving { .. } => true,
        Phase::Done(FileOutcome::AlreadyValid) => true,
        Phase::Done(FileOutcome::Failed(FailureReason::AllMirrorsFailed)) => true,
        Phase::Done(FileOutcome::Failed(FailureReason::DirectoryUnavailable)) => true,
        _ => false,
    }
}

/// A file whose digest and size the manifest gives, and which is on disk with
/// that content, is recognised by looking at it: the first thing asked for is
/// the local file, and with it the work ends as already valid. No mirror is
/// probed and nothing is transferred.
pub proof fn valid_file_needs_no_network(
    entry: ManifestEntry,
    mirror_count: usize,
    max_attempts: u32,
    content: Vec<u8>,
)
    requires
        entry.md5 is Some,
        entry.size is Some,
        file_matches(Some(content@), entry.digest(), entry.size),
    ensures
        EntryWorkflow::initial(entry, mirror_count, max_attempts).pending() == Action::InspectFile,
        EntryWorkflow::initial(entry, mirror_count, max_attempts).next(
            entry,
            Event::Inspected(Some(content)),
            false,
        ).phase == Phase::Done(FileOutcome::AlreadyValid),
{
}

/// Where the manifest gives the digest but not the size, the size comes from
/// the first mirror that tells it. A file on disk that has this size and the
/// expected digest then ends the work as already valid: after the probe the
/// local file is asked for, and nothing is transferred.
pub proof fn valid_file_is_not_transferred_again(
    flow: EntryWorkflow,
    entry: ManifestEntry,
    probe: Probe,
    content: Vec<u8>,
)
    requires
        flow.phase is Sizing,
        entry.md5 is Some,
        probe.known_size() is Some,
        file_matches(Some(content@), entry.digest(), probe.known_size()),
    ensures
        flow.next(entry, Event::Probed(probe), false).pending() == Action::InspectFile,
        flow.next(entry, Event::Probed(probe), false).next(
            entry,
            Event::Inspected(Some(content)),
            false,
        ).phase == Phase::Done(FileOutcome::AlreadyValid),
{
}

/// One step keeps a machine untouched unless a probe answers with success.
proof fn step_stays_untouched(flow: EntryWorkflow, entry: ManifestEntry, event: Event)
    requires
        untouched(flow),
        match event {
            Event::Probed(probe) => !probe.available(),
            _ => true,
        },
    ensures
        untouched(flow.next(entry, event, false)),
{
}

/// While no probe finds a mirror answering with success, the machine never
/// asks for a transfer nor for a removal, whatever else happens: nothing is
/// written to disk, so no partial file can be left. If the work ends, it ends
/// as already valid or as failed.
pub proof fn no_transfer_without_a_mirror(
    entry: ManifestEntry,
    mirror_count: usize,
    max_attempts: u32,
    events: Seq<Event>,
)
    requires
        no_probe_succeeds(events),
    ensures
        untouched(run_events(EntryWorkflow::initial(entry, mirror_count, max_attempts), entry, events)),
        !(run_events(
            EntryWorkflow::initial(entry, mirror_count, max_attempts),
            entry,
            events,
        ).pending() is Transfer),
        run_events(
            EntryWorkflow::initial(entry, mirror_count, max_attempts),
            entry,
            events,
        ).pending() != Action::RemoveFile,
    decreases events.len(),
{
    if events.len() > 0 {
        let before = events.drop_last();
        assert(no_probe_succeeds(before)) by {
            assert forall|i: int| 0 <= i < before.len() implies match #[trigger] before[i] {
                Event::Probed(probe) => !probe.available(),
                _ => true,
            } by {
                assert(before[i] == events[i]);
            }
        }
        no_transfer_without_a_mirror(entry, mirror_count, max_attempts, before);
        assert(events[events.len() - 1] == events.last());
        step_stays_untouched(
            run_events(EntryWorkflow::initial(entry, mirror_count, max_attempts), entry, before),
            entry,
            events.last(),
        );
    }
}

/// The events of probing mirrors one after another.
pub open spec fn probe_events(probes: Seq<Probe>) -> Seq<Event> {
    Seq::new(probes.len(), |i: int| Event::Probed(probes[i]))
}

/// No probe of the sequence found its mirror answering with success.
pub open spec fn none_available(probes: Seq<Probe>) -> bool {
    forall|i: int| 0 <= i < probes.len() ==> !(#[trigger] probes[i]).available()
}

/// A machine that is about to probe a mirror before transferring, and whose
/// probes of this and the following mirrors all fail, probes each of them
/// once, in order, and is at the mirror after them, or has failed the entry
/// where they were the last ones.
pub proof fn failing_probes_pass_mirrors(
    flow: EntryWorkflow,
    entry: ManifestEntry,
    probes: Seq<Probe>,
)
    requires
        flow.phase is Resolving,
        flow.phase->Resolving_mirror < flow.mirror_count,
        probes.len() <= flow.mirror_count - flow.phase->Resolving_mirror,
        none_available(probes),
    ensures
        run_events(flow, entry, probe_events(probes)) == flow.resolving_from(
            flow.phase->Resolving_mirror + probes.len(),
        ),
    decreases probes.len(),
{
    if probes.len() > 0 {
        let before = probes.drop_last();
        assert(none_available(before)) by {
            assert forall|i: int| 0 <= i < before.len() implies !(#[trigger] before[i]).available() by {
                assert(before[i] == probes[i]);
            }
        }
        failing_probes_pass_mirrors(flow, entry, before);
        assert(probe_events(probes).drop_last() =~= probe_events(before));
        assert(probe_events(probes).last() == Event::Probed(probes.last()));
        assert(!probes[probes.len() - 1].available());
    } else {
        assert(probe_events(probes) =~= Seq::<Event>::empty());
    }
}

/// If the probe of every mirror fails, the entry fails with all mirrors
/// failed, after each mirror was probed exactly once and without any
/// transfer having been asked for.
pub proof fn all_probes_failing_fails_entry(
    flow: EntryWorkflow,
    entry: ManifestEntry,
    probes: Seq<Probe>,
)
    requires
        flow.phase == (Phase::Resolving { mirror: 0 }),
        flow.mirror_count >= 1,
        probes.len() == flow.mirror_count,
        none_available(probes),
    ensures
        run_events(flow, entry, probe_events(probes)).phase == Phase::Done(
            FileOutcome::Failed(FailureReason::AllMirrorsFailed),
        ),
        forall|k: int|
            0 <= k < probes.len() ==> #[trigger] run_events(
                flow,
                entry,
                probe_events(probes.take(k)),
            ).pending() == (Action::Probe { mirror: k as usize }),
{
    failing_probes_pass_mirrors(flow, entry, probes);
    assert forall|k: int| 0 <= k < probes.len() implies #[trigger] run_events(
        flow,
        entry,
        probe_events(probes.take(k)),
    ).pending() == (Action::Probe { mirror: k as usize }) by {
        let head = probes.take(k);
        assert(none_available(head)) by {
            assert forall|i: int| 0 <= i < head.len() implies !(#[trigger] head[i]).available() by {
                assert(head[i] == probes[i]);
            }
        }
        failing_probes_pass_mirrors(flow, entry, head);
    }
}

/// A transferred file that does not match what is expected of it is never
/// kept: its removal is asked for, and once it is gone the entry has failed
/// with a checksum mismatch.
pub proof fn corrupt_transfer_is_removed(
    flow: EntryWorkflow,
    entry: ManifestEntry,
    content: Option<Vec<u8>>,
)
    requires
        flow.phase == Phase::Verifying,
        !file_matches(bytes_view(content), entry.digest(), entry.size),
    ensures
        flow.next(entry, Event::Inspected(content), false).pending() == Action::RemoveFile,
        flow.next(entry, Event::Inspected(content), false).next(
            entry,
            Event::Removed,
            false,
        ).phase == Phase::Done(FileOutcome::Failed(FailureReason::ChecksumMismatch)),
{
}

/// After a successful transfer of an entry with an expected digest the file
/// is looked at before anything is reported.
pub proof fn transfer_is_followed_by_verification(
    flow: EntryWorkflow,
    entry: ManifestEntry,
    bytes: u64,
)
    requires
        flow.phase is Transferring,
        flow.phase->Transferring_retry.phase is Attempting,
        entry.md5 is Some,
    ensures
        flow.next(entry, Event::Transferred(TransferOutcome::Success(bytes)), false).phase
            == Phase::Verifying,
        flow.next(entry, Event::Transferred(TransferOutcome::Success(bytes)), false).pending()
            == Action::InspectFile,
{
}

/// An entry with an expected digest is reported as downloaded only by the
/// step that looked at the transferred file and found it matching.
pub proof fn downloaded_means_verified(
    flow: EntryWorkflow,
    entry: ManifestEntry,
    event: Event,
    cancelled: bool,
)
    requires
        entry.md5 is Some,
        flow.phase != Phase::Done(FileOutcome::Downloaded),
        flow.next(entry, event, cancelled).phase == Phase::Done(FileOutcome::Downloaded),
    ensures
        flow.phase == Phase::Verifying,
        event is Inspected,
        file_matches(bytes_view(event->Inspected_0), entry.digest(), entry.size),
{
}

/// Once the cancellation flag is seen, unfinished work on an entry ends at
/// that step as skipped, whatever the event, and the bytes expected stay as
/// they are.
pub proof fn cancellation_skips_entry(
    flow: EntryWorkflow,
    entry: ManifestEntry,
    event: Event,
    progress: DownloadProgress,
)
    requires
        !(flow.phase is Done),
    ensures
        flow.next(entry, event, true).pending() == Action::Finish(FileOutcome::Skipped),
        flow.next_progress(event, true, progress) == progress,
{
}

/// A transfer attempt that was interrupted ends the work on the entry as
/// skipped; no retry and no other mirror follows.
pub proof fn interrupted_transfer_skips_entry(flow: EntryWorkflow, entry: ManifestEntry)
    requires
        flow.phase is Transferring,
        flow.phase->Transferring_retry.phase is Attempting,
    ensures
        flow.next(entry, Event::Transferred(TransferOutcome::Interrupted), false).phase
            == Phase::Done(FileOutcome::Skipped),
{
}

/// What a failed transfer attempt left behind is removed before anything
/// else is done: the next action asked for is the removal.
pub proof fn failed_attempt_is_discarded(
    flow: EntryWorkflow,
    entry: ManifestEntry,
    failure: TransferOutcome,
)
    requires
        flow.phase is Transferring,
        flow.phase->Transferring_retry.phase is Attempting,
        failure.failed(),
    ensures
        flow.next(entry, Event::Transferred(failure), false).pending() == Action::RemoveFile,
{
}

/// A mirror whose transfers fail as often as the policy allows is given up,
/// and the next mirror is probed; after the last mirror the entry fails.
pub proof fn exhausted_mirror_fails_over(
    flow: EntryWorkflow,
    entry: ManifestEntry,
    failure: TransferOutcome,
)
    requires
        flow.phase is Transferring,
        flow.phase->Transferring_retry.phase == RetryPhase::Discarding(failure),
        flow.phase->Transferring_retry.attempts >= flow.phase->Transferring_retry.max_attempts,
        failure.failed(),
    ensures
        flow.next(entry, Event::Removed, false) == flow.resolving_from(
            flow.phase->Transferring_mirror + 1,
        ),
{
}

/// A finished machine stays finished: no event changes its outcome.
pub proof fn outcome_is_final(
    flow: EntryWorkflow,
    entry: ManifestEntry,
    event: Event,
    cancelled: bool,
)
    requires
        flow.phase is Done,
    ensures
        flow.next(entry, event, cancelled) == flow,
{
}

/// The files counted as completed are the entries that succeeded, and they
/// never exceed the entries of the manifest.
pub proof fn completed_files_stay_within_manifest(run: DownloadRun)
    requires
        run.wf(),
    ensures
        run.progress.completed() == run.succeeded,
        run.progress.completed() <= run.entry_count,
        run.succeeded + run.failed <= run.entry_count,
{
}

/// How many of the outcomes are successes.
pub open spec fn successes(outcomes: Seq<FileOutcome>) -> nat
    decreases outcomes.len(),
{
    if outcomes.len() == 0 {
        0
    } else {
        successes(outcomes.drop_last()) + if outcomes.last().succeeded() {
            1nat
        } else {
            0nat
        }
    }
}

/// How many of the outcomes are failures.
pub open spec fn failures(outcomes: Seq<FileOutcome>) -> nat
    decreases outcomes.len(),
{
    if outcomes.len() == 0 {
        0
    } else {
        failures(outcomes.drop_last()) + if outcomes.last() is Failed {
            1nat
        } else {
            0nat
        }
    }
}

/// None of the outcomes is a skip.
pub open spec fn none_skipped(outcomes: Seq<FileOutcome>) -> bool {
    forall|i: int| 0 <= i < outcomes.len() ==> !(#[trigger] outcomes[i] is Skipped)
}

/// A run that is not interrupted takes up one entry per outcome recorded,
/// counts each success and each failure once, and counts the files completed
/// as it counts the successes. A failure never stops it.
pub proof fn tally_counts_every_outcome(run: DownloadRun, outcomes: Seq<FileOutcome>)
    requires
        run.wf(),
        !run.stopped,
        run.position + outcomes.len() <= run.entry_count,
        run.progress.completed() + outcomes.len() <= u64::MAX,
        none_skipped(outcomes),
    ensures
        run.recorded_all(outcomes).wf(),
        !run.recorded_all(outcomes).stopped,
        run.recorded_all(outcomes).entry_count == run.entry_count,
        run.recorded_all(outcomes).position == run.position + outcomes.len(),
        run.recorded_all(outcomes).succeeded == run.succeeded + successes(outcomes),
        run.recorded_all(outcomes).failed == run.failed + failures(outcomes),
        run.recorded_all(outcomes).progress.completed() == run.progress.completed() + successes(
            outcomes,
        ),
        run.recorded_all(outcomes).progress.total() == run.progress.total(),
        run.recorded_all(outcomes).progress.downloaded() == run.progress.downloaded(),
        successes(outcomes) + failures(outcomes) == outcomes.len(),
    decreases outcomes.len(),
{
    if outcomes.len() > 0 {
        let before = outcomes.drop_last();
        assert(none_skipped(before)) by {
            assert forall|i: int| 0 <= i < before.len() implies !(#[trigger] before[i] is Skipped) by {
                assert(before[i] == outcomes[i]);
            }
        }
        tally_counts_every_outcome(run, before);
        let last = outcomes[outcomes.len() - 1];
        assert(run.recorded_all(before).progress.completed() == run.recorded_all(before).succeeded);
        assert(!(last is Skipped));
        let earlier = run.recorded_all(before);
        earlier.progress.with_completed_counters();
        assert(earlier.entry_count == run.entry_count);
        assert(run.recorded_all(outcomes) == earlier.recorded(last));
        assert(successes(outcomes) == successes(before) + if last.succeeded() {
            1nat
        } else {
            0nat
        });
        assert(failures(outcomes) == failures(before) + if last is Failed {
            1nat
        } else {
            0nat
        });
    }
}

/// Seeing the cancellation flag stops the run: no entry is begun then, nor
/// ever after, whatever is recorded and whatever the flag shows later.
pub proof fn cancelled_run_begins_nothing(
    run: DownloadRun,
    outcomes: Seq<FileOutcome>,
    later: bool,
)
    ensures
        run.polled(true).upcoming() is None,
        run.polled(true).recorded_all(outcomes) == run.polled(true),
        run.polled(true).recorded_all(outcomes).polled(later).upcoming() is None,
    decreases outcomes.len(),
{
    if outcomes.len() > 0 {
        cancelled_run_begins_nothing(run, outcomes.drop_last(), later);
    }
}

/// An entry that was skipped stops the run: no later entry is begun.
pub proof fn skipped_entry_ends_run(run: DownloadRun, later: bool)
    requires
        run.upcoming() is Some,
    ensures
        run.recorded(FileOutcome::Skipped).stopped,
        run.recorded(FileOutcome::Skipped).polled(later).upcoming() is None,
        run.recorded(FileOutcome::Skipped).succeeded == run.succeeded,
        run.recorded(FileOutcome::Skipped).failed == run.failed,
{
}

/// A failed entry does not end the run: the next entry of the manifest is
/// begun as long as the cancellation flag stays down.
pub proof fn failed_entry_does_not_end_run(run: DownloadRun, reason: FailureReason)
    requires
        run.upcoming() is Some,
        run.position + 1 < run.entry_count,
    ensures
        run.recorded(FileOutcome::Failed(reason)).polled(false).upcoming() == Some(
            (run.position + 1) as usize,
        ),
{
}

} // verus!
