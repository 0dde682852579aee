use std::time::Instant;
use wuwa_downloader::integrity::calculate_md5;
use wuwa_downloader::manifest::ManifestEntry;
use wuwa_downloader::mirror::Probe;
use wuwa_downloader::outcome::{FailureReason, FileOutcome, TransferOutcome};
use wuwa_downloader::progress::DownloadProgress;
use wuwa_downloader::retry::RetryPolicy;
use wuwa_downloader::run::{ConfigurationError, DownloadRun};
use wuwa_downloader::transfer::{Transfer, TransferAction, TransferEvent};
use wuwa_downloader::workflow::{Action, EntryWorkflow, Event, Phase};

#[derive(Clone)]
struct Mirror {
    reachable: bool,
    probe_status: u16,
    length_header: Option<String>,
    get_status: u16,
    body: Vec<u8>,
    failing_gets: u32,
}

fn serving(body: &[u8]) -> Mirror {
    Mirror {
        reachable: true,
        probe_status: 200,
        length_header: Some(body.len().to_string()),
        get_status: 200,
        body: body.to_vec(),
        failing_gets: 0,
    }
}

fn answering(status: u16) -> Mirror {
    Mirror {
        reachable: true,
        probe_status: status,
        length_header: None,
        get_status: status,
        body: Vec::new(),
        failing_gets: 0,
    }
}

fn down() -> Mirror {
    Mirror { reachable: false, ..answering(0) }
}

struct World {
    mirrors: Vec<Mirror>,
    disk: Option<Vec<u8>>,
    dir_ok: bool,
    chunk: usize,
    cancel_after_chunks: Option<usize>,
    chunks_written: usize,
    probes: Vec<usize>,
    transfers: Vec<usize>,
    removals: usize,
    inspections: usize,
}

fn world(mirrors: Vec<Mirror>) -> World {
    World {
        mirrors,
        disk: None,
        dir_ok: true,
        chunk: 16,
        cancel_after_chunks: None,
        chunks_written: 0,
        probes: Vec::new(),
        transfers: Vec::new(),
        removals: 0,
        inspections: 0,
    }
}

impl World {
    fn cancelled(&self) -> bool {
        self.cancel_after_chunks.map_or(false, |n| self.chunks_written >= n)
    }

    fn probe(&mut self, mirror: usize) -> Probe {
        self.probes.push(mirror);
        let m = &self.mirrors[mirror];
        if m.reachable {
            Probe::from_response(m.probe_status, m.length_header.as_deref())
        } else {
            Probe::Unreachable
        }
    }

    fn transfer(&mut self, mirror: usize, progress: &mut DownloadProgress) -> TransferOutcome {
        self.transfers.push(mirror);
        let failing = self.mirrors[mirror].failing_gets > 0;
        if failing {
            self.mirrors[mirror].failing_gets -= 1;
        }
        let m = self.mirrors[mirror].clone();
        let mut transfer = Transfer::new();
        let mut offset = 0;
        let mut buffer: Vec<u8> = Vec::new();
        let mut action = transfer.action();
        loop {
            let event = match action {
                TransferAction::OpenDestination => {
                    self.disk = Some(Vec::new());
                    TransferEvent::Opened(true)
                }
                TransferAction::SendRequest => {
                    if !m.reachable || failing {
                        TransferEvent::Responded(None)
                    } else {
                        TransferEvent::Responded(Some(m.get_status))
                    }
                }
                TransferAction::ReadChunk => {
                    let end = (offset + self.chunk).min(m.body.len());
                    buffer = m.body[offset..end].to_vec();
                    offset = end;
                    TransferEvent::Read(Some(buffer.len() as u64))
                }
                TransferAction::WriteChunk(_) => {
                    self.disk.as_mut().unwrap().extend_from_slice(&buffer);
                    self.chunks_written += 1;
                    TransferEvent::Written(true)
                }
                TransferAction::Finish(outcome) => return outcome,
            };
            action = transfer.step(event, self.cancelled(), progress);
        }
    }

    fn download(
        &mut self,
        entry: &ManifestEntry,
        policy: RetryPolicy,
        progress: &mut DownloadProgress,
    ) -> FileOutcome {
        let mut flow = EntryWorkflow::new(entry, self.mirrors.len(), policy, progress);
        self.drive(&mut flow, entry, progress)
    }

    fn drive(
        &mut self,
        flow: &mut EntryWorkflow,
        entry: &ManifestEntry,
        progress: &mut DownloadProgress,
    ) -> FileOutcome {
        let mut action = flow.action();
        loop {
            let event = match action {
                Action::Probe { mirror } => Event::Probed(self.probe(mirror)),
                Action::InspectFile => {
                    self.inspections += 1;
                    Event::Inspected(self.disk.clone())
                }
                Action::PrepareDirectory => Event::DirectoryReady(self.dir_ok),
                Action::Transfer { mirror } => Event::Transferred(self.transfer(mirror, progress)),
                Action::RemoveFile => {
                    self.disk = None;
                    self.removals += 1;
                    Event::Removed
                }
                Action::Finish(outcome) => {
                    assert_eq!(flow.outcome(), Some(outcome));
                    return outcome;
                }
            };
            action = flow.step(entry, event, self.cancelled(), progress);
        }
    }
}

fn policy() -> RetryPolicy {
    RetryPolicy::new(3).unwrap()
}

fn fresh_progress() -> DownloadProgress {
    DownloadProgress::new(Instant::now())
}

fn content() -> Vec<u8> {
    (0..100u8).collect()
}

#[test]
fn valid_file_with_known_size_touches_no_network() {
    let body = content();
    let entry = ManifestEntry::new("a.bin", Some(&calculate_md5(&body)), Some(100));
    let mut w = world(vec![serving(&body), serving(&body)]);
    w.disk = Some(body.clone());
    let mut progress = fresh_progress();
    assert_eq!(w.download(&entry, policy(), &mut progress), FileOutcome::AlreadyValid);
    assert!(w.probes.is_empty());
    assert!(w.transfers.is_empty());
    assert_eq!(w.removals, 0);
    assert_eq!(w.disk, Some(body));
    assert_eq!(progress.downloaded_bytes(), 0);
    assert_eq!(progress.total_bytes(), 100);
}

#[test]
fn valid_file_with_probed_size_is_not_transferred() {
    let body = content();
    let entry = ManifestEntry::new("a.bin", Some(&calculate_md5(&body)), None);
    let mut w = world(vec![down(), serving(&body)]);
    w.disk = Some(body.clone());
    let mut progress = fresh_progress();
    assert_eq!(w.download(&entry, policy(), &mut progress), FileOutcome::AlreadyValid);
    assert_eq!(w.probes, vec![0, 1]);
    assert!(w.transfers.is_empty());
    assert_eq!(progress.total_bytes(), 100);
    assert_eq!(progress.downloaded_bytes(), 0);
}

#[test]
fn rerun_after_download_transfers_nothing() {
    let body = content();
    let entry = ManifestEntry::new("a.bin", Some(&calculate_md5(&body)), Some(100));
    let mut w = world(vec![serving(&body)]);
    let mut progress = fresh_progress();
    assert_eq!(w.download(&entry, policy(), &mut progress), FileOutcome::Downloaded);
    assert_eq!(w.transfers, vec![0]);
    assert_eq!(w.download(&entry, policy(), &mut progress), FileOutcome::AlreadyValid);
    assert_eq!(w.transfers, vec![0]);
}

#[test]
fn wrong_file_on_disk_is_replaced() {
    let body = content();
    let entry = ManifestEntry::new("a.bin", Some(&calculate_md5(&body)), Some(100));
    let mut w = world(vec![serving(&body)]);
    w.disk = Some(vec![0u8; 100]);
    let mut progress = fresh_progress();
    assert_eq!(w.download(&entry, policy(), &mut progress), FileOutcome::Downloaded);
    assert_eq!(w.disk, Some(body));
    assert_eq!(w.transfers, vec![0]);
    assert_eq!(progress.downloaded_bytes(), 100);
}

#[test]
fn every_probe_failing_fails_entry_without_file() {
    let body = content();
    let entry = ManifestEntry::new("a.bin", Some(&calculate_md5(&body)), Some(100));
    let mut w = world(vec![down(), answering(404), answering(500), down()]);
    let mut progress = fresh_progress();
    assert_eq!(
        w.download(&entry, policy(), &mut progress),
        FileOutcome::Failed(FailureReason::AllMirrorsFailed)
    );
    assert_eq!(w.probes, vec![0, 1, 2, 3]);
    assert!(w.transfers.is_empty());
    assert_eq!(w.disk, None);
    assert_eq!(progress.downloaded_bytes(), 0);
}

#[test]
fn every_probe_failing_with_unknown_size() {
    let entry = ManifestEntry::new("b.bin", None, None);
    let mut w = world(vec![down(), answering(403)]);
    let mut progress = fresh_progress();
    assert_eq!(
        w.download(&entry, policy(), &mut progress),
        FileOutcome::Failed(FailureReason::AllMirrorsFailed)
    );
    assert_eq!(w.probes, vec![0, 1, 0, 1]);
    assert!(w.transfers.is_empty());
    assert_eq!(w.disk, None);
    assert_eq!(progress.total_bytes(), 0);
}

#[test]
fn digest_mismatch_deletes_file_and_fails() {
    let body = content();
    let other = vec![9u8; 100];
    let entry = ManifestEntry::new("a.bin", Some(&calculate_md5(&body)), Some(100));
    let mut w = world(vec![serving(&other), serving(&body)]);
    let mut progress = fresh_progress();
    assert_eq!(
        w.download(&entry, policy(), &mut progress),
        FileOutcome::Failed(FailureReason::ChecksumMismatch)
    );
    assert_eq!(w.disk, None);
    assert_eq!(w.removals, 1);
    assert_eq!(w.transfers, vec![0]);
}

#[test]
fn size_mismatch_after_transfer_fails_too() {
    let body = content();
    let entry = ManifestEntry::new("a.bin", Some(&calculate_md5(&body)), Some(99));
    let mut w = world(vec![serving(&body)]);
    let mut progress = fresh_progress();
    assert_eq!(
        w.download(&entry, policy(), &mut progress),
        FileOutcome::Failed(FailureReason::ChecksumMismatch)
    );
    assert_eq!(w.disk, None);
}

#[test]
fn entry_without_digest_is_not_verified() {
    let entry = ManifestEntry::new("b.bin", None, None);
    let mut w = world(vec![serving(b"whatever arrives")]);
    let mut progress = fresh_progress();
    assert_eq!(w.download(&entry, policy(), &mut progress), FileOutcome::Downloaded);
    assert_eq!(w.disk, Some(b"whatever arrives".to_vec()));
    assert_eq!(w.inspections, 0);
    assert_eq!(progress.total_bytes(), 16);
    assert_eq!(progress.downloaded_bytes(), 16);
}

#[test]
fn entry_with_size_only_is_never_skipped() {
    let entry = ManifestEntry::new("b.bin", None, Some(4));
    let mut w = world(vec![serving(b"data")]);
    w.disk = Some(b"data".to_vec());
    let mut progress = fresh_progress();
    assert_eq!(w.download(&entry, policy(), &mut progress), FileOutcome::Downloaded);
    assert_eq!(w.transfers, vec![0]);
    assert_eq!(w.inspections, 0);
}

#[test]
fn failing_transfers_are_retried_then_next_mirror_is_used() {
    let body = content();
    let entry = ManifestEntry::new("a.bin", Some(&calculate_md5(&body)), Some(100));
    let mut first = serving(&body);
    first.failing_gets = 3;
    let mut w = world(vec![first, serving(&body)]);
    let mut progress = fresh_progress();
    assert_eq!(w.download(&entry, policy(), &mut progress), FileOutcome::Downloaded);
    assert_eq!(w.transfers, vec![0, 0, 0, 1]);
    assert_eq!(w.probes, vec![0, 1]);
    assert_eq!(w.removals, 3);
    assert_eq!(w.disk, Some(body));
}

#[test]
fn transfer_recovers_within_the_attempts_of_one_mirror() {
    let body = content();
    let entry = ManifestEntry::new("a.bin", Some(&calculate_md5(&body)), Some(100));
    let mut first = serving(&body);
    first.failing_gets = 2;
    let mut w = world(vec![first, serving(&body)]);
    let mut progress = fresh_progress();
    assert_eq!(w.download(&entry, policy(), &mut progress), FileOutcome::Downloaded);
    assert_eq!(w.transfers, vec![0, 0, 0]);
    assert_eq!(w.removals, 2);
}

#[test]
fn transfers_failing_everywhere_leave_no_file() {
    let body = content();
    let entry = ManifestEntry::new("a.bin", None, None);
    let mut a = serving(&body);
    a.get_status = 500;
    let mut b = serving(&body);
    b.failing_gets = 10;
    let mut w = world(vec![a, b]);
    let mut progress = fresh_progress();
    assert_eq!(
        w.download(&entry, RetryPolicy::new(2).unwrap(), &mut progress),
        FileOutcome::Failed(FailureReason::AllMirrorsFailed)
    );
    assert_eq!(w.transfers, vec![0, 0, 1, 1]);
    assert_eq!(w.removals, 4);
    assert_eq!(w.disk, None);
}

#[test]
fn directory_failure_fails_entry_before_any_probe_for_transfer() {
    let body = content();
    let entry = ManifestEntry::new("deep/a.bin", None, Some(100));
    let mut w = world(vec![serving(&body)]);
    w.dir_ok = false;
    let mut progress = fresh_progress();
    assert_eq!(
        w.download(&entry, policy(), &mut progress),
        FileOutcome::Failed(FailureReason::DirectoryUnavailable)
    );
    assert!(w.probes.is_empty());
    assert!(w.transfers.is_empty());
}

#[test]
fn no_mirrors_fails_entry() {
    let entry = ManifestEntry::new("a.bin", None, None);
    let mut w = world(vec![]);
    let mut progress = fresh_progress();
    assert_eq!(
        w.download(&entry, policy(), &mut progress),
        FileOutcome::Failed(FailureReason::AllMirrorsFailed)
    );
}

#[test]
fn sizing_needs_success_and_a_length() {
    let body = content();
    let entry = ManifestEntry::new("a.bin", None, None);
    let mut not_found = answering(404);
    not_found.length_header = Some("5".to_string());
    let mut silent = serving(&body);
    silent.length_header = None;
    let mut garbled = serving(&body);
    garbled.length_header = Some("100 bytes".to_string());
    let mut w = world(vec![not_found, silent, garbled, serving(&body)]);
    let mut progress = fresh_progress();
    assert_eq!(w.download(&entry, policy(), &mut progress), FileOutcome::Downloaded);
    assert_eq!(w.probes, vec![0, 1, 2, 3, 0, 1]);
    assert_eq!(w.transfers, vec![1]);
    assert_eq!(progress.total_bytes(), 100);
}

#[test]
fn cancellation_during_transfer_skips_entry_and_keeps_partial_file() {
    let body = content();
    let entry = ManifestEntry::new("a.bin", Some(&calculate_md5(&body)), Some(100));
    let mut w = world(vec![serving(&body), serving(&body)]);
    w.cancel_after_chunks = Some(2);
    let mut progress = fresh_progress();
    assert_eq!(w.download(&entry, policy(), &mut progress), FileOutcome::Skipped);
    assert_eq!(w.chunks_written, 2);
    assert_eq!(w.disk, Some(body[..32].to_vec()));
    assert_eq!(w.transfers, vec![0]);
    assert_eq!(w.removals, 0);
    assert_eq!(progress.downloaded_bytes(), 32);
}

#[test]
fn cancellation_is_seen_in_every_phase() {
    let entry = ManifestEntry::new("a.bin", Some("00"), None);
    let p = policy();
    let skipped = Action::Finish(FileOutcome::Skipped);
    let phases = [
        Phase::Sizing { mirror: 0 },
        Phase::PreCheck,
        Phase::Preparing,
        Phase::Resolving { mirror: 1 },
        Phase::Transferring { mirror: 0, retry: p },
        Phase::Verifying,
        Phase::Rejecting,
    ];
    let events = [
        Event::Probed(Probe::from_response(200, Some("1"))),
        Event::Inspected(Some(vec![1])),
        Event::DirectoryReady(true),
        Event::Transferred(TransferOutcome::Success(1)),
        Event::Removed,
    ];
    for phase in phases {
        for event in &events {
            let mut progress = fresh_progress();
            let mut flow =
                EntryWorkflow { phase, mirror_count: 2, max_attempts: 3, known_size: None };
            assert_eq!(flow.step(&entry, event.clone(), true, &mut progress), skipped);
            assert_eq!(flow.phase, Phase::Done(FileOutcome::Skipped));
            assert_eq!(progress.total_bytes(), 0);
        }
    }
}

#[test]
fn finished_entry_ignores_cancellation() {
    let entry = ManifestEntry::new("a.bin", None, None);
    let mut progress = fresh_progress();
    let mut flow = EntryWorkflow {
        phase: Phase::Done(FileOutcome::Downloaded),
        mirror_count: 1,
        max_attempts: 3,
        known_size: None,
    };
    assert_eq!(
        flow.step(&entry, Event::Removed, true, &mut progress),
        Action::Finish(FileOutcome::Downloaded)
    );
}

#[test]
fn unexpected_events_change_nothing() {
    let entry = ManifestEntry::new("a.bin", Some("00"), Some(1));
    let mut progress = fresh_progress();
    let mut flow = EntryWorkflow::new(&entry, 2, policy(), &mut progress);
    assert_eq!(flow.action(), Action::InspectFile);
    let before = flow;
    assert_eq!(flow.step(&entry, Event::Removed, false, &mut progress), Action::InspectFile);
    assert_eq!(
        flow.step(&entry, Event::Transferred(TransferOutcome::Success(1)), false, &mut progress),
        Action::InspectFile
    );
    assert_eq!(
        flow.step(&entry, Event::Probed(Probe::Unreachable), false, &mut progress),
        Action::InspectFile
    );
    assert_eq!(flow, before);
}

#[test]
fn manifest_entry_normalizes_its_path() {
    let entry = ManifestEntry::new("Client\\Paks\\a.pak", Some("abc"), Some(3));
    assert_eq!(entry.dest, "Client/Paks/a.pak");
    assert_eq!(entry.md5.as_deref(), Some("abc"));
    assert_eq!(entry.digest_text(), Some("abc"));
    assert_eq!(entry.size, Some(3));
    let bare = ManifestEntry::new("x", None, None);
    assert_eq!(bare.digest_text(), None);
}

#[test]
fn scenario_two_entries_two_mirrors() {
    let a = content();
    let b = b"second file".to_vec();
    let manifest = vec![
        ManifestEntry::new("a.bin", Some(&calculate_md5(&a)), Some(100)),
        ManifestEntry::new("b.bin", None, None),
    ];
    let mirrors = ["https://m1", "https://m2"];
    let mut run = DownloadRun::start(manifest.len(), mirrors.len(), 3, Instant::now()).unwrap();

    let index = run.next_entry(false).unwrap();
    assert_eq!(index, 0);
    let mut w = world(vec![answering(404), serving(&a)]);
    let mut flow = run.begin_entry(&manifest[index]);
    let outcome = w.drive(&mut flow, &manifest[index], &mut run.progress);
    assert_eq!(outcome, FileOutcome::Downloaded);
    assert_eq!(w.probes, vec![0, 1]);
    assert_eq!(w.transfers, vec![1]);
    assert_eq!(w.disk, Some(a));
    run.record(outcome);
    assert_eq!(run.progress.files_completed(), 1);
    assert_eq!(run.succeeded(), 1);

    let index = run.next_entry(false).unwrap();
    assert_eq!(index, 1);
    let mut w = world(vec![answering(404), serving(&b)]);
    let mut flow = run.begin_entry(&manifest[index]);
    assert_eq!(flow.action(), Action::Probe { mirror: 0 });
    let outcome = w.drive(&mut flow, &manifest[index], &mut run.progress);
    assert_eq!(outcome, FileOutcome::Downloaded);
    assert_eq!(w.inspections, 0);
    assert_eq!(w.transfers, vec![1]);
    run.record(outcome);

    assert_eq!(run.next_entry(false), None);
    assert_eq!(run.succeeded(), 2);
    assert_eq!(run.failed(), 0);
    assert!(run.is_complete());
    assert_eq!(run.progress.files_completed(), 2);
    assert_eq!(run.progress.total_bytes(), 111);
    assert_eq!(run.progress.downloaded_bytes(), 111);
}

#[test]
fn run_refuses_bad_configuration() {
    let now = Instant::now();
    assert_eq!(DownloadRun::start(0, 2, 3, now).err(), Some(ConfigurationError::EmptyManifest));
    assert_eq!(DownloadRun::start(0, 0, 0, now).err(), Some(ConfigurationError::EmptyManifest));
    assert_eq!(DownloadRun::start(1, 0, 3, now).err(), Some(ConfigurationError::NoMirrors));
    assert_eq!(DownloadRun::start(1, 0, 0, now).err(), Some(ConfigurationError::NoMirrors));
    assert_eq!(DownloadRun::start(1, 1, 0, now).err(), Some(ConfigurationError::NoAttempts));
    assert!(DownloadRun::start(1, 1, 1, now).is_ok());
}

#[test]
fn run_goes_on_after_a_failed_entry() {
    let mut run = DownloadRun::start(3, 1, 3, Instant::now()).unwrap();
    assert_eq!(run.next_entry(false), Some(0));
    run.record(FileOutcome::Failed(FailureReason::AllMirrorsFailed));
    assert_eq!(run.next_entry(false), Some(1));
    run.record(FileOutcome::AlreadyValid);
    assert_eq!(run.next_entry(false), Some(2));
    run.record(FileOutcome::Failed(FailureReason::ChecksumMismatch));
    assert_eq!(run.next_entry(false), None);
    assert_eq!(run.succeeded(), 1);
    assert_eq!(run.failed(), 2);
    assert_eq!(run.unfinished_count(), 0);
    assert!(!run.is_complete());
    assert_eq!(run.progress.files_completed(), 1);
}

#[test]
fn run_stops_at_a_skipped_entry() {
    let mut run = DownloadRun::start(4, 1, 3, Instant::now()).unwrap();
    assert_eq!(run.next_entry(false), Some(0));
    run.record(FileOutcome::Downloaded);
    assert_eq!(run.next_entry(false), Some(1));
    run.record(FileOutcome::Skipped);
    assert_eq!(run.next_entry(false), None);
    run.record(FileOutcome::Downloaded);
    assert_eq!(run.next_entry(false), None);
    assert_eq!(run.succeeded(), 1);
    assert_eq!(run.failed(), 0);
    assert_eq!(run.unfinished_count(), 3);
    assert_eq!(run.position, 2);
}

#[test]
fn run_begins_nothing_once_cancelled() {
    let mut run = DownloadRun::start(2, 1, 3, Instant::now()).unwrap();
    assert_eq!(run.next_entry(true), None);
    assert_eq!(run.next_entry(false), None);
    assert_eq!(run.unfinished_count(), 2);
    assert_eq!(run.position, 0);
}

#[test]
fn cancellation_mid_run_processes_no_later_entry() {
    let a = content();
    let manifest = vec![
        ManifestEntry::new("a.bin", None, None),
        ManifestEntry::new("b.bin", None, None),
        ManifestEntry::new("c.bin", None, None),
    ];
    let mut run = DownloadRun::start(manifest.len(), 1, 3, Instant::now()).unwrap();
    let mut w = world(vec![serving(&a)]);
    w.cancel_after_chunks = Some(9);
    let mut begun = Vec::new();
    while let Some(index) = run.next_entry(w.cancelled()) {
        begun.push(index);
        let mut flow = run.begin_entry(&manifest[index]);
        let outcome = w.drive(&mut flow, &manifest[index], &mut run.progress);
        run.record(outcome);
    }
    assert_eq!(begun, vec![0, 1]);
    assert_eq!(run.succeeded(), 1);
    assert_eq!(run.failed(), 0);
    assert_eq!(run.unfinished_count(), 2);
    assert_eq!(w.chunks_written, 9);
    assert_eq!(run.progress.downloaded_bytes(), 100 + 2 * 16);
}

#[test]
fn file_outcome_success_kinds() {
    assert!(FileOutcome::AlreadyValid.is_success());
    assert!(FileOutcome::Downloaded.is_success());
    assert!(!FileOutcome::Skipped.is_success());
    assert!(!FileOutcome::Failed(FailureReason::AllMirrorsFailed).is_success());
    assert!(!FileOutcome::Failed(FailureReason::ChecksumMismatch).is_success());
    assert!(!FileOutcome::Failed(FailureReason::DirectoryUnavailable).is_success());
}
