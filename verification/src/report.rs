//! Words for what happened: the cause of a failed transfer, the reason an
//! entry failed, a line of the error log, the unit a byte count is shown in.

use crate::number::{decimal_text, format_decimal};
use crate::outcome::{FailureReason, TransferOutcome};
use vstd::prelude::*;
use vstd::string::*;

verus! {

/// The cause of a transfer outcome, in words.
pub open spec fn outcome_text(outcome: TransferOutcome) -> Seq<char> {
    match outcome {
        TransferOutcome::Success(bytes) => "Transferred "@ + decimal_text(bytes as nat) + " bytes"@,
        TransferOutcome::NetworkError => "Network error"@,
        TransferOutcome::HttpStatusError(status) => "HTTP error: "@ + decimal_text(status as nat),
        TransferOutcome::IoError => "File error"@,
        TransferOutcome::Interrupted => "Download interrupted"@,
    }
}

/// The reason an entry failed, in words.
pub open spec fn reason_text(reason: FailureReason) -> Seq<char> {
    match reason {
        FailureReason::DirectoryUnavailable => "directory error"@,
        FailureReason::AllMirrorsFailed => "all mirrors failed"@,
        FailureReason::ChecksumMismatch => "checksum mismatch"@,
    }
}

/// A line of the error log: the time in seconds since the epoch in square
/// brackets, the word `ERROR:` and the message.
pub open spec fn log_text(timestamp: u64, message: Seq<char>) -> Seq<char> {
    "["@ + decimal_text(timestamp as nat) + "] ERROR: "@ + message
}

/// The unit that a byte count is shown in.
#[derive(Clone, Copy, Debug, PartialEq, Eq, Structural)]
pub enum SizeUnit {
    Bytes,
    Kilobytes,
    Megabytes,
    Gigabytes,
}

impl SizeUnit {
    /// The bytes that make one of the unit.
    pub open spec fn scale(self) -> u64 {
        match self {
            SizeUnit::Bytes => 1,
            SizeUnit::Kilobytes => 1_000,
            SizeUnit::Megabytes => 1_000_000,
            SizeUnit::Gigabytes => 1_000_000_000,
        }
    }

    /// The abbreviation of the unit.
    pub open spec fn abbreviation(self) -> Seq<char> {
        match self {
            SizeUnit::Bytes => "B"@,
            SizeUnit::Kilobytes => "KB"@,
            SizeUnit::Megabytes => "MB"@,
            SizeUnit::Gigabytes => "GB"@,
        }
    }

    /// The bytes that make one of the unit.
    pub fn divisor(&self) -> (bytes: u64)
        ensures
            bytes == self.scale(),
    {
        match self {
            SizeUnit::Bytes => 1,
            SizeUnit::Kilobytes => 1_000,
            SizeUnit::Megabytes => 1_000_000,
            SizeUnit::Gigabytes => 1_000_000_000,
        }
    }

    /// The abbreviation of the unit.
    pub fn suffix(&self) -> (text: &'static str)
        ensures
            text@ == self.abbreviation(),
    {
        match self {
            SizeUnit::Bytes => "B",
            SizeUnit::Kilobytes => "KB",
            SizeUnit::Megabytes => "MB",
            SizeUnit::Gigabytes => "GB",
        }
    }
}

/// The largest unit that a byte count exceeds; bytes where it exceeds none.
pub open spec fn unit_of(bytes: u64) -> SizeUnit {
    if bytes > 1_000_000_000 {
        SizeUnit::Gigabytes
    } else if bytes > 1_000_000 {
        SizeUnit::Megabytes
    } else if bytes > 1_000 {
        SizeUnit::Kilobytes
    } else {
        SizeUnit::Bytes
    }
}

/// Picks the unit in which a byte count is shown. A count that is exactly a
/// unit is still shown in the unit below.
pub fn size_unit(bytes: u64) -> (unit: SizeUnit)
    ensures
        unit == unit_of(bytes),
{
    if bytes > 1_000_000_000 {
        SizeUnit::Gigabytes
    } else if bytes > 1_000_000 {
        SizeUnit::Megabytes
    } else if bytes > 1_000 {
        SizeUnit::Kilobytes
    } else {
        SizeUnit::Bytes
    }
}

/// Says in words how a transfer attempt ended.
pub fn describe_outcome(outcome: TransferOutcome) -> (text: String)
    ensures
        text@ == outcome_text(outcome),
{
    match outcome {
        TransferOutcome::Success(bytes) => "Transferred ".to_owned().concat(
            format_decimal(bytes).as_str(),
        ).concat(" bytes"),
        TransferOutcome::NetworkError => "Network error".to_owned(),
        TransferOutcome::HttpStatusError(status) => "HTTP error: ".to_owned().concat(
            format_decimal(status as u64).as_str(),
        ),
        TransferOutcome::IoError => "File error".to_owned(),
        TransferOutcome::Interrupted => "Download interrupted".to_owned(),
    }
}

/// Says in words why an entry failed.
pub fn describe_reason(reason: FailureReason) -> (text: &'static str)
    ensures
        text@ == reason_text(reason),
{
    match reason {
        FailureReason::DirectoryUnavailable => "directory error",
        FailureReason::AllMirrorsFailed => "all mirrors failed",
        FailureReason::ChecksumMismatch => "checksum mismatch",
    }
}

/// Writes a line of the error log, without the line break.
pub fn log_line(timestamp: u64, message: &str) -> (line: String)
    ensures
        line@ == log_text(timestamp, message@),
{
    "[".to_owned().concat(format_decimal(timestamp).as_str()).concat("] ERROR: ").concat(message)
}

} // verus!
