use std::time::Instant;
use wuwa_downloader::outcome::TransferOutcome;
use wuwa_downloader::progress::DownloadProgress;
use wuwa_downloader::transfer::{
    Transfer, TransferAction, TransferEvent, TransferPhase, CHUNK_SIZE,
};

struct Source {
    reachable: bool,
    status: u16,
    body: Vec<u8>,
    chunk: usize,
    fail_read_at: Option<usize>,
    fail_write_at: Option<usize>,
    cancel_after_chunks: Option<usize>,
    can_open: bool,
}

fn source(body: &[u8], chunk: usize) -> Source {
    Source {
        reachable: true,
        status: 200,
        body: body.to_vec(),
        chunk,
        fail_read_at: None,
        fail_write_at: None,
        cancel_after_chunks: None,
        can_open: true,
    }
}

struct Ended {
    outcome: TransferOutcome,
    disk: Option<Vec<u8>>,
    chunks_written: usize,
    reads: usize,
}

fn stream(src: &Source, progress: &mut DownloadProgress) -> Ended {
    let mut transfer = Transfer::new();
    let mut disk: Option<Vec<u8>> = None;
    let mut offset = 0;
    let mut buffer: Vec<u8> = Vec::new();
    let mut chunks_written = 0;
    let mut reads = 0;
    let mut action = transfer.action();
    loop {
        let cancelled = src.cancel_after_chunks.map_or(false, |n| chunks_written >= n);
        let event = match action {
            TransferAction::OpenDestination => {
                if src.can_open {
                    disk = Some(Vec::new());
                }
                TransferEvent::Opened(src.can_open)
            }
            TransferAction::SendRequest => {
                TransferEvent::Responded(if src.reachable { Some(src.status) } else { None })
            }
            TransferAction::ReadChunk => {
                reads += 1;
                if src.fail_read_at == Some(reads) {
                    TransferEvent::Read(None)
                } else {
                    let end = (offset + src.chunk).min(src.body.len());
                    buffer = src.body[offset..end].to_vec();
                    offset = end;
                    TransferEvent::Read(Some(buffer.len() as u64))
                }
            }
            TransferAction::WriteChunk(len) => {
                assert_eq!(len as usize, buffer.len());
                if src.fail_write_at == Some(chunks_written + 1) {
                    TransferEvent::Written(false)
                } else {
                    disk.as_mut().unwrap().extend_from_slice(&buffer);
                    chunks_written += 1;
                    TransferEvent::Written(true)
                }
            }
            TransferAction::Finish(outcome) => {
                assert_eq!(transfer.outcome(), Some(outcome));
                return Ended { outcome, disk, chunks_written, reads };
            }
        };
        let cancelled_now = cancelled
            || src.cancel_after_chunks.map_or(false, |n| chunks_written >= n);
        action = transfer.step(event, cancelled_now, progress);
    }
}

#[test]
fn transfer_copies_body_in_chunks() {
    let body: Vec<u8> = (0..=255u8).cycle().take(1000).collect();
    let mut progress = DownloadProgress::new(Instant::now());
    let ended = stream(&source(&body, 64), &mut progress);
    assert_eq!(ended.outcome, TransferOutcome::Success(1000));
    assert_eq!(ended.disk, Some(body));
    assert_eq!(ended.chunks_written, 16);
    assert_eq!(ended.reads, 17);
    assert_eq!(progress.downloaded_bytes(), 1000);
    assert_eq!(progress.total_bytes(), 0);
}

#[test]
fn transfer_of_empty_body_succeeds() {
    let mut progress = DownloadProgress::new(Instant::now());
    let ended = stream(&source(b"", 64), &mut progress);
    assert_eq!(ended.outcome, TransferOutcome::Success(0));
    assert_eq!(ended.disk, Some(Vec::new()));
    assert_eq!(progress.downloaded_bytes(), 0);
}

#[test]
fn transfer_truncates_before_request() {
    let mut progress = DownloadProgress::new(Instant::now());
    let mut src = source(b"body", 64);
    src.status = 404;
    let ended = stream(&src, &mut progress);
    assert_eq!(ended.outcome, TransferOutcome::HttpStatusError(404));
    assert_eq!(ended.disk, Some(Vec::new()));
    assert_eq!(ended.reads, 0);
}

#[test]
fn transfer_reports_each_kind_of_failure() {
    let mut progress = DownloadProgress::new(Instant::now());

    let mut unreachable = source(b"body", 2);
    unreachable.reachable = false;
    assert_eq!(stream(&unreachable, &mut progress).outcome, TransferOutcome::NetworkError);

    let mut closed = source(b"body", 2);
    closed.can_open = false;
    let ended = stream(&closed, &mut progress);
    assert_eq!(ended.outcome, TransferOutcome::IoError);
    assert_eq!(ended.disk, None);

    let mut broken = source(b"body", 2);
    broken.fail_read_at = Some(2);
    let ended = stream(&broken, &mut progress);
    assert_eq!(ended.outcome, TransferOutcome::NetworkError);
    assert_eq!(ended.disk, Some(b"bo".to_vec()));

    let mut full = source(b"body", 2);
    full.fail_write_at = Some(2);
    let ended = stream(&full, &mut progress);
    assert_eq!(ended.outcome, TransferOutcome::IoError);
    assert_eq!(ended.disk, Some(b"bo".to_vec()));

    for status in [199u16, 300, 301, 404, 500, 0, u16::MAX] {
        let mut refused = source(b"body", 2);
        refused.status = status;
        assert_eq!(
            stream(&refused, &mut progress).outcome,
            TransferOutcome::HttpStatusError(status)
        );
    }
    assert_eq!(progress.downloaded_bytes(), 4);
}

#[test]
fn transfer_accepts_every_success_status() {
    for status in [200u16, 201, 204, 206, 299] {
        let mut progress = DownloadProgress::new(Instant::now());
        let mut src = source(b"ok", 8);
        src.status = status;
        assert_eq!(stream(&src, &mut progress).outcome, TransferOutcome::Success(2));
    }
}

#[test]
fn transfer_stops_within_one_chunk_of_cancellation() {
    let body = vec![7u8; 100];
    let mut progress = DownloadProgress::new(Instant::now());
    let mut src = source(&body, 10);
    src.cancel_after_chunks = Some(3);
    let ended = stream(&src, &mut progress);
    assert_eq!(ended.outcome, TransferOutcome::Interrupted);
    assert_eq!(ended.chunks_written, 3);
    assert_eq!(ended.reads, 3);
    assert_eq!(ended.disk, Some(vec![7u8; 30]));
    assert_eq!(progress.downloaded_bytes(), 30);
}

#[test]
fn transfer_counts_the_chunk_written_when_cancelled() {
    let mut progress = DownloadProgress::new(Instant::now());
    let mut transfer = Transfer::new();
    transfer.step(TransferEvent::Opened(true), false, &mut progress);
    transfer.step(TransferEvent::Responded(Some(200)), false, &mut progress);
    assert_eq!(
        transfer.step(TransferEvent::Read(Some(10)), false, &mut progress),
        TransferAction::WriteChunk(10)
    );
    assert_eq!(
        transfer.step(TransferEvent::Written(true), true, &mut progress),
        TransferAction::Finish(TransferOutcome::Interrupted)
    );
    assert_eq!(transfer.written, 10);
    assert_eq!(progress.downloaded_bytes(), 10);
}

#[test]
fn transfer_cancelled_at_every_other_point() {
    let interrupted = TransferAction::Finish(TransferOutcome::Interrupted);
    let mut progress = DownloadProgress::new(Instant::now());

    let mut t = Transfer::new();
    assert_eq!(t.step(TransferEvent::Opened(true), true, &mut progress), interrupted);

    let mut t = Transfer::new();
    t.step(TransferEvent::Opened(true), false, &mut progress);
    assert_eq!(t.step(TransferEvent::Responded(Some(200)), true, &mut progress), interrupted);

    let mut t = Transfer::new();
    t.step(TransferEvent::Opened(true), false, &mut progress);
    t.step(TransferEvent::Responded(Some(200)), false, &mut progress);
    assert_eq!(t.step(TransferEvent::Read(Some(5)), true, &mut progress), interrupted);

    let mut t = Transfer::new();
    t.step(TransferEvent::Opened(true), false, &mut progress);
    t.step(TransferEvent::Responded(Some(200)), false, &mut progress);
    assert_eq!(t.step(TransferEvent::Read(Some(0)), true, &mut progress), interrupted);

    let mut t = Transfer::new();
    t.step(TransferEvent::Opened(true), false, &mut progress);
    t.step(TransferEvent::Responded(Some(200)), false, &mut progress);
    t.step(TransferEvent::Read(Some(5)), false, &mut progress);
    assert_eq!(t.step(TransferEvent::Written(false), true, &mut progress), interrupted);

    assert_eq!(progress.downloaded_bytes(), 0);
}

#[test]
fn transfer_ignores_events_it_does_not_wait_for() {
    let mut progress = DownloadProgress::new(Instant::now());
    let mut t = Transfer::new();
    assert_eq!(
        t.step(TransferEvent::Written(true), false, &mut progress),
        TransferAction::OpenDestination
    );
    assert_eq!(
        t.step(TransferEvent::Read(Some(9)), false, &mut progress),
        TransferAction::OpenDestination
    );
    assert_eq!(t.phase, TransferPhase::Opening);
    assert_eq!(t.written, 0);
    assert_eq!(progress.downloaded_bytes(), 0);
}

#[test]
fn transfer_finished_stays_finished() {
    let mut progress = DownloadProgress::new(Instant::now());
    let mut t = Transfer::new();
    let done = TransferAction::Finish(TransferOutcome::IoError);
    assert_eq!(t.step(TransferEvent::Opened(false), false, &mut progress), done);
    assert_eq!(t.step(TransferEvent::Opened(true), false, &mut progress), done);
    assert_eq!(t.step(TransferEvent::Written(true), true, &mut progress), done);
    assert_eq!(t.outcome(), Some(TransferOutcome::IoError));
}

#[test]
fn transfer_written_saturates() {
    let mut progress = DownloadProgress::new(Instant::now());
    progress.add_downloaded_bytes(u64::MAX - 2);
    let mut t = Transfer { phase: TransferPhase::Reading, written: u64::MAX - 3 };
    t.step(TransferEvent::Read(Some(5)), false, &mut progress);
    t.step(TransferEvent::Written(true), false, &mut progress);
    assert_eq!(
        t.step(TransferEvent::Read(Some(0)), false, &mut progress),
        TransferAction::Finish(TransferOutcome::Success(u64::MAX))
    );
    assert_eq!(progress.downloaded_bytes(), u64::MAX);
}

#[test]
fn transfer_refuses_a_read_longer_than_a_chunk() {
    let mut progress = DownloadProgress::new(Instant::now());
    let mut t = Transfer { phase: TransferPhase::Reading, written: 0 };
    assert_eq!(
        t.step(TransferEvent::Read(Some(CHUNK_SIZE as u64)), false, &mut progress),
        TransferAction::WriteChunk(65536)
    );
    let mut t = Transfer { phase: TransferPhase::Reading, written: 0 };
    assert_eq!(
        t.step(TransferEvent::Read(Some(CHUNK_SIZE as u64 + 1)), false, &mut progress),
        TransferAction::Finish(TransferOutcome::NetworkError)
    );
    assert_eq!(progress.downloaded_bytes(), 0);
}

#[test]
fn chunk_size_is_64_kib() {
    assert_eq!(CHUNK_SIZE, 65536);
}
