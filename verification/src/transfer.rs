//! One transfer attempt: a response body copied to the destination chunk by
//! chunk.
//!
//! The machine asks for the destination to be opened afresh, for the request
//! to be sent, and then in turn for a chunk to be read and to be written. It
//! counts every chunk written and looks at the cancellation flag after each.

use crate::mirror::{is_success_status, status_success};
use crate::outcome::TransferOutcome;
use crate::progress::{after_chunks_push, capped_sum, sum_of, DownloadProgress};
use vstd::prelude::*;

verus! {

/// The most bytes that one chunk holds.
pub const CHUNK_SIZE: usize = 65536;

/// What the transfer is waiting for.
#[derive(Clone, Copy, Debug, PartialEq, Eq, Structural)]
pub enum TransferPhase {
    /// The destination is to be created, empty.
    Opening,
    /// The request is to be sent.
    Requesting,
    /// The next chunk of the body is to be read.
    Reading,
    /// A chunk of the given length is to be written.
    Writing(u64),
    /// The attempt is over; how it ended.
    Finished(TransferOutcome),
}

/// What happened to the action that the transfer asked for.
#[derive(Clone, Copy, Debug, PartialEq, Eq, Structural)]
pub enum TransferEvent {
    /// The destination was opened for writing, or could not be.
    Opened(bool),
    /// The mirror answered with a status, or the request failed (`None`).
    Responded(Option<u16>),
    /// So many bytes were read, zero at the end of the body; or reading
    /// failed (`None`).
    Read(Option<u64>),
    /// The chunk was written, or could not be.
    Written(bool),
}

/// What the transfer asks its caller to do next.
#[derive(Clone, Copy, Debug, PartialEq, Eq, Structural)]
pub enum TransferAction {
    /// Create the destination, truncating what is there.
    OpenDestination,
    /// Send the request for the body.
    SendRequest,
    /// Read up to `CHUNK_SIZE` bytes of the body.
    ReadChunk,
    /// Write the chunk just read, which has the given length.
    WriteChunk(u64),
    /// Stop; this is how the attempt ended.
    Finish(TransferOutcome),
}

/// One transfer attempt in progress.
#[derive(Clone, Copy, Debug, PartialEq, Eq, Structural)]
pub struct Transfer {
    /// What the transfer is waiting for.
    pub phase: TransferPhase,
    /// The bytes written so far, held at `u64::MAX`.
    pub written: u64,
}

impl Transfer {
    /// A transfer as `new` makes it.
    pub open spec fn fresh() -> Transfer {
        Transfer { phase: TransferPhase::Opening, written: 0 }
    }

    /// A chunk that is to be written is never empty and never longer than a
    /// chunk may be.
    pub open spec fn wf(self) -> bool {
        self.phase matches TransferPhase::Writing(len) ==> 0 < len <= CHUNK_SIZE
    }

    /// The action that the transfer is waiting for.
    pub open spec fn pending(self) -> TransferAction {
        match self.phase {
            TransferPhase::Opening => TransferAction::OpenDestination,
            TransferPhase::Requesting => TransferAction::SendRequest,
            TransferPhase::Reading => TransferAction::ReadChunk,
            TransferPhase::Writing(len) => TransferAction::WriteChunk(len),
            TransferPhase::Finished(outcome) => TransferAction::Finish(outcome),
        }
    }

    /// The bytes that an event adds to the received-bytes counter: the length
    /// of a chunk that was written, and nothing otherwise.
    pub open spec fn counted(self, event: TransferEvent) -> Option<u64> {
        match (self.phase, event) {
            (TransferPhase::Writing(len), TransferEvent::Written(true)) => Some(len),
            _ => None,
        }
    }

    /// The transfer after an event. A finished transfer stays as it is. A
    /// chunk that was written is counted first, and only then is the
    /// cancellation flag looked at; on every other event a raised flag ends
    /// the transfer as interrupted at once. A read that claims more bytes
    /// than a chunk holds counts as a broken body. An event that the transfer
    /// is not waiting for changes nothing.
    pub open spec fn next(self, event: TransferEvent, cancelled: bool) -> Transfer {
        match (self.phase, event) {
            (TransferPhase::Finished(_), _) => self,
            (TransferPhase::Writing(len), TransferEvent::Written(true)) => Transfer {
                phase: if cancelled {
                    TransferPhase::Finished(TransferOutcome::Interrupted)
                } else {
                    TransferPhase::Reading
                },
                written: capped_sum(self.written, len),
            },
            _ if cancelled => Transfer {
                phase: TransferPhase::Finished(TransferOutcome::Interrupted),
                ..self
            },
            (TransferPhase::Opening, TransferEvent::Opened(ok)) => Transfer {
                phase: if ok {
                    TransferPhase::Requesting
                } else {
                    TransferPhase::Finished(TransferOutcome::IoError)
                },
                ..self
            },
            (TransferPhase::Requesting, TransferEvent::Responded(answer)) => Transfer {
                phase: match answer {
                    None => TransferPhase::Finished(TransferOutcome::NetworkError),
                    Some(status) => if status_success(status) {
                        TransferPhase::Reading
                    } else {
                        TransferPhase::Finished(TransferOutcome::HttpStatusError(status))
                    },
                },
                ..self
            },
            (TransferPhase::Reading, TransferEvent::Read(read)) => Transfer {
                phase: match read {
                    None => TransferPhase::Finished(TransferOutcome::NetworkError),
                    Some(len) => if len == 0 {
                        TransferPhase::Finished(TransferOutcome::Success(self.written))
                    } else if len <= CHUNK_SIZE {
                        TransferPhase::Writing(len)
                    } else {
                        TransferPhase::Finished(TransferOutcome::NetworkError)
                    },
                },
                ..self
            },
            (TransferPhase::Writing(_), TransferEvent::Written(false)) => Transfer {
                phase: TransferPhase::Finished(TransferOutcome::IoError),
                ..self
            },
            _ => self,
        }
    }

    /// The counters after an event of this transfer.
    pub open spec fn next_progress(
        self,
        event: TransferEvent,
        progress: DownloadProgress,
    ) -> DownloadProgress {
        match self.counted(event) {
            Some(len) => progress.with_downloaded(len),
            None => progress,
        }
    }

    /// The transfer after a sequence of events during which the cancellation
    /// flag stays down.
    pub open spec fn run(self, events: Seq<TransferEvent>) -> Transfer
        decreases events.len(),
    {
        if events.len() == 0 {
            self
        } else {
            self.run(events.drop_last()).next(events.last(), false)
        }
    }

    /// The counters after the same sequence of events.
    pub open spec fn run_progress(
        self,
        events: Seq<TransferEvent>,
        progress: DownloadProgress,
    ) -> DownloadProgress
        decreases events.len(),
    {
        if events.len() == 0 {
            progress
        } else {
            self.run(events.drop_last()).next_progress(
                events.last(),
                self.run_progress(events.drop_last(), progress),
            )
        }
    }

    /// A transfer that has not begun.
    pub fn new() -> (transfer: Transfer)
        ensures
            transfer == Transfer::fresh(),
            transfer.wf(),
    {
        Transfer { phase: TransferPhase::Opening, written: 0 }
    }

    /// The action that the transfer is waiting for.
    pub fn action(&self) -> (action: TransferAction)
        ensures
            action == self.pending(),
    {
        match self.phase {
            TransferPhase::Opening => TransferAction::OpenDestination,
            TransferPhase::Requesting => TransferAction::SendRequest,
            TransferPhase::Reading => TransferAction::ReadChunk,
            TransferPhase::Writing(len) => TransferAction::WriteChunk(len),
            TransferPhase::Finished(outcome) => TransferAction::Finish(outcome),
        }
    }

    /// How the attempt ended, once it is over.
    pub fn outcome(&self) -> (outcome: Option<TransferOutcome>)
        ensures
            outcome == match self.phase {
                TransferPhase::Finished(o) => Some(o),
                _ => None,
            },
    {
        match self.phase {
            TransferPhase::Finished(o) => Some(o),
            _ => None,
        }
    }

    /// Takes in what happened to the pending action, with the cancellation
    /// flag as it was seen afterwards, counts a written chunk in `progress`,
    /// and returns the next action.
    pub fn step(
        &mut self,
        event: TransferEvent,
        cancelled: bool,
        progress: &mut DownloadProgress,
    ) -> (action: TransferAction)
        ensures
            *final(self) == old(self).next(event, cancelled),
            *final(progress) == old(self).next_progress(event, *old(progress)),
            final(progress).downloaded() >= old(progress).downloaded(),
            final(progress).total() == old(progress).total(),
            final(progress).completed() == old(progress).completed(),
            action == final(self).pending(),
            old(self).wf() ==> final(self).wf(),
            action matches TransferAction::WriteChunk(len) ==> old(self).wf() ==> 0 < len
                <= CHUNK_SIZE,
    {
        let interrupted = TransferPhase::Finished(TransferOutcome::Interrupted);
        match (self.phase, event) {
            (TransferPhase::Finished(_), _) => {},
            (TransferPhase::Writing(len), TransferEvent::Written(true)) => {
                self.written = self.written.saturating_add(len);
                progress.add_downloaded_bytes(len);
                self.phase = if cancelled {
                    interrupted
                } else {
                    TransferPhase::Reading
                };
            },
            (TransferPhase::Opening, TransferEvent::Opened(ok)) => {
                self.phase = if cancelled {
                    interrupted
                } else if ok {
                    TransferPhase::Requesting
                } else {
                    TransferPhase::Finished(TransferOutcome::IoError)
                };
            },
            (TransferPhase::Requesting, TransferEvent::Responded(answer)) => {
                self.phase = if cancelled {
                    interrupted
                } else {
                    match answer {
                        None => TransferPhase::Finished(TransferOutcome::NetworkError),
                        Some(status) => if is_success_status(status) {
                            TransferPhase::Reading
                        } else {
                            TransferPhase::Finished(TransferOutcome::HttpStatusError(status))
                        },
                    }
                };
            },
            (TransferPhase::Reading, TransferEvent::Read(read)) => {
                self.phase = if cancelled {
                    interrupted
                } else {
                    match read {
                        None => TransferPhase::Finished(TransferOutcome::NetworkError),
                        Some(len) => if len == 0 {
                            TransferPhase::Finished(TransferOutcome::Success(self.written))
                        } else if len <= CHUNK_SIZE as u64 {
                            TransferPhase::Writing(len)
                        } else {
                            TransferPhase::Finished(TransferOutcome::NetworkError)
                        },
                    }
                };
            },
            (TransferPhase::Writing(_), TransferEvent::Written(false)) => {
                self.phase = if cancelled {
                    interrupted
                } else {
                    TransferPhase::Finished(TransferOutcome::IoError)
                };
            },
            _ => {
                if cancelled {
                    self.phase = interrupted;
                }
            },
        }
        self.action()
    }
}

/// The events of a body that arrives in the given chunks, each read and then
/// written.
pub open spec fn chunk_events(chunks: Seq<u64>) -> Seq<TransferEvent>
    decreases chunks.len(),
{
    if chunks.len() == 0 {
        Seq::empty()
    } else {
        chunk_events(chunks.drop_last()).push(TransferEvent::Read(Some(chunks.last()))).push(
            TransferEvent::Written(true),
        )
    }
}

/// Every chunk holds at least one byte and at most as many as a chunk may.
pub open spec fn proper_chunks(chunks: Seq<u64>) -> bool {
    forall|i: int| 0 <= i < chunks.len() ==> 0 < #[trigger] chunks[i] <= CHUNK_SIZE
}

/// A transfer that is reading, and to which the chunks arrive and are written
/// one after another, is reading again afterwards, has written their exact
/// sum more, and has counted each of them once.
pub proof fn chunks_are_written_and_counted(
    transfer: Transfer,
    chunks: Seq<u64>,
    progress: DownloadProgress,
)
    requires
        transfer.phase == TransferPhase::Reading,
        proper_chunks(chunks),
        transfer.written + sum_of(chunks) <= u64::MAX,
    ensures
        transfer.run(chunk_events(chunks)).phase == TransferPhase::Reading,
        transfer.run(chunk_events(chunks)).written == transfer.written + sum_of(chunks),
        transfer.run_progress(chunk_events(chunks), progress) == progress.after_chunks(chunks),
    decreases chunks.len(),
{
    if chunks.len() == 0 {
        after_chunks_push(progress, chunks, 0);
        assert(chunks =~= Seq::<u64>::empty());
    } else {
        let before = chunks.drop_last();
        let len = chunks.last();
        after_chunks_push(progress, before, len);
        assert(chunks =~= before.push(len));
        assert(proper_chunks(before)) by {
            assert forall|i: int| 0 <= i < before.len() implies 0 < #[trigger] before[i]
                <= CHUNK_SIZE by {
                assert(before[i] == chunks[i]);
            }
        }
        chunks_are_written_and_counted(transfer, before, progress);
        let read = chunk_events(before).push(TransferEvent::Read(Some(len)));
        let all = chunk_events(chunks);
        assert(all == read.push(TransferEvent::Written(true)));
        assert(all.drop_last() =~= read);
        assert(read.drop_last() =~= chunk_events(before));
        assert(0 < chunks[chunks.len() - 1] <= CHUNK_SIZE);
        assert(transfer.run(read) == transfer.run(chunk_events(before)).next(
            TransferEvent::Read(Some(len)),
            false,
        ));
        assert(transfer.run(read).phase == TransferPhase::Writing(len));
        assert(transfer.run_progress(read, progress) == progress.after_chunks(before));
    }
}

/// A whole attempt that meets no error and no cancellation: the destination
/// opens, the mirror answers with a success status, the chunks arrive and are
/// written, and the body ends. It ends in success with the exact sum of the
/// chunk lengths as bytes written, and the received-bytes counter has grown by
/// each chunk once.
pub proof fn undisturbed_transfer_succeeds(
    status: u16,
    chunks: Seq<u64>,
    progress: DownloadProgress,
)
    requires
        status_success(status),
        proper_chunks(chunks),
        sum_of(chunks) <= u64::MAX,
    ensures
        ({
            let events = seq![TransferEvent::Opened(true), TransferEvent::Responded(Some(status))]
                + chunk_events(chunks) + seq![TransferEvent::Read(Some(0))];
            &&& Transfer::fresh().run(events).phase == TransferPhase::Finished(
                TransferOutcome::Success(sum_of(chunks) as u64),
            )
            &&& Transfer::fresh().run_progress(events, progress) == progress.after_chunks(chunks)
        }),
{
    let head = seq![TransferEvent::Opened(true), TransferEvent::Responded(Some(status))];
    let body = chunk_events(chunks);
    let events = head + body + seq![TransferEvent::Read(Some(0))];
    let reading = Transfer { phase: TransferPhase::Reading, written: 0 };
    assert(Transfer::fresh().run(head) == reading && Transfer::fresh().run_progress(head, progress)
        == progress) by {
        let first = seq![TransferEvent::Opened(true)];
        assert(head.drop_last() =~= first);
        assert(first.drop_last() =~= Seq::<TransferEvent>::empty());
        assert(Transfer::fresh().run(first) == Transfer::fresh().run(first.drop_last()).next(
            first.last(),
            false,
        ));
        let none = first.drop_last();
        assert(Transfer::fresh().run(none) == Transfer::fresh());
        assert(Transfer::fresh().run_progress(none, progress) == progress);
        assert(Transfer::fresh().run_progress(first, progress) == Transfer::fresh().run(
            none,
        ).next_progress(first.last(), Transfer::fresh().run_progress(none, progress)));
    }
    chunks_are_written_and_counted(reading, chunks, progress);
    run_continues(Transfer::fresh(), head, body, progress);
    assert(events.drop_last() =~= head + body);
}

/// Running through two sequences of events one after the other is running
/// through their concatenation.
pub proof fn run_continues(
    transfer: Transfer,
    first: Seq<TransferEvent>,
    second: Seq<TransferEvent>,
    progress: DownloadProgress,
)
    ensures
        transfer.run(first + second) == transfer.run(first).run(second),
        transfer.run_progress(first + second, progress) == transfer.run(first).run_progress(
            second,
            transfer.run_progress(first, progress),
        ),
    decreases second.len(),
{
    if second.len() == 0 {
        assert(first + second =~= first);
    } else {
        run_continues(transfer, first, second.drop_last(), progress);
        assert((first + second).drop_last() =~= first + second.drop_last());
    }
}

/// Once the cancellation flag is seen, an unfinished transfer stops at that
/// step as interrupted: at most the one chunk that was just written is still
/// counted, and nothing more is asked for.
pub proof fn cancellation_stops_within_one_chunk(
    transfer: Transfer,
    event: TransferEvent,
    progress: DownloadProgress,
)
    requires
        !(transfer.phase is Finished),
    ensures
        transfer.next(event, true).pending() == TransferAction::Finish(
            TransferOutcome::Interrupted,
        ),
        transfer.next_progress(event, progress) == progress || (transfer.phase is Writing
            && transfer.next_progress(event, progress) == progress.with_downloaded(
            transfer.phase->Writing_0,
        )),
{
}

} // verus!
