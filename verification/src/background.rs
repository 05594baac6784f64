//! The background workers: the hashing of received files and their scanning,
//! each one step at a time, and the schedule they run on.
//!
//! Each worker is written as a function from the event that just happened to
//! the action the caller performs next; the caller does the waiting, the
//! database access and the file and process handling, and hands back the
//! outcome as the next event.

use vstd::prelude::*;

use crate::file_scan_model::{FileScan, LockRequest, ScanResult, ScanStatus};

verus! {

/// How long, in minutes, a worker's hold on a file lasts before another
/// worker may take the file over.
pub const MINUTES_TO_WAIT_BEFORE_ATTEMPTING_TO_WORK_AGAIN: i64 = 15;

/// Milliseconds between two runs of the hashing worker.
pub const HASHING_SCHEDULE: u64 = 500;

/// Milliseconds between two runs of the scanning worker.
pub const SCANNING_SCHEDULE: u64 = 1000;

/// Milliseconds between two runs of the removal worker.
pub const REMOVAL_SCHEDULE: u64 = 10000;

/// The SHA-256 digest of a message, as ring computes it.
pub uninterp spec fn sha256(message: Seq<u8>) -> Seq<u8>;

/// The largest message, in bytes, whose length in bits fits in 64 bits.
pub open spec fn max_digest_input() -> int {
    0x1fff_ffff_ffff_ffff
}

/// `ring::digest::digest(&ring::digest::SHA256, data)`, its bytes taken by
/// `as_ref`. ring computes SHA-256 as FIPS 180-4 defines it, left unstated
/// and named `sha256`; its output has 32 bytes. ring panics when the length
/// of the message in bits does not fit in 64 bits, which `requires` leaves
/// out.
#[verifier::external_body]
fn sha256_digest(data: &[u8]) -> (digest: Vec<u8>)
    requires
        data@.len() <= max_digest_input(),
    ensures
        digest@ == sha256(data@),
        digest@.len() == 32,
{
    ring::digest::digest(&ring::digest::SHA256, data).as_ref().to_vec()
}

/// The upper-case hexadecimal digit of a number below sixteen.
pub open spec fn hex_digit_upper(n: int) -> char {
    seq!['0', '1', '2', '3', '4', '5', '6', '7', '8', '9', 'A', 'B', 'C', 'D', 'E', 'F'][n]
}

/// The upper-case hexadecimal spelling of a byte string: two digits per byte,
/// the high half first.
pub open spec fn hex_upper(bytes: Seq<u8>) -> Seq<char> {
    Seq::new(
        2 * bytes.len(),
        |i: int|
            if i % 2 == 0 {
                hex_digit_upper(bytes[i / 2] as int / 16)
            } else {
                hex_digit_upper(bytes[i / 2] as int % 16)
            },
    )
}

/// `data_encoding::HEXUPPER.encode(bytes)`: base 16 with the symbols
/// `0-9A-F`, two symbols per byte, high half first, no padding. The encoding
/// may panic on inputs longer than `usize::MAX / 512` bytes, which
/// `requires` leaves out.
#[verifier::external_body]
fn hex_upper_encode(bytes: &[u8]) -> (text: String)
    requires
        bytes@.len() <= usize::MAX / 512,
    ensures
        text@ == hex_upper(bytes@),
{
    data_encoding::HEXUPPER.encode(bytes)
}

/// The upper-case hexadecimal spelling of a digest.
pub fn encode_digest(digest: &[u8]) -> (text: String)
    requires
        digest@.len() <= usize::MAX / 512,
    ensures
        text@ == hex_upper(digest@),
{
    hex_upper_encode(digest)
}

/// The hash recorded for a file: the SHA-256 digest of its contents, in
/// upper-case hexadecimal, 64 characters long.
pub fn hash_file_contents(contents: &[u8]) -> (file_hash: String)
    requires
        contents@.len() <= max_digest_input(),
    ensures
        file_hash@ == hex_upper(sha256(contents@)),
        file_hash@.len() == 64,
{
    let digest = sha256_digest(contents);
    encode_digest(digest.as_slice())
}

/// What the hashing worker asks for: a pending file, moved to `Hashing`.
pub open spec fn hashing_request() -> LockRequest {
    LockRequest {
        ready: ScanStatus::Pending,
        working: ScanStatus::Hashing,
        abandon_after_minutes: MINUTES_TO_WAIT_BEFORE_ATTEMPTING_TO_WORK_AGAIN,
    }
}

/// What the scanning worker asks for: a hashed file, moved to `Scanning`.
pub open spec fn scanning_request() -> LockRequest {
    LockRequest {
        ready: ScanStatus::DoneHashing,
        working: ScanStatus::Scanning,
        abandon_after_minutes: MINUTES_TO_WAIT_BEFORE_ATTEMPTING_TO_WORK_AGAIN,
    }
}

/// What happened last in a run of the hashing worker.
#[derive(Debug)]
pub enum HasherEvent {
    /// The run begins.
    Start,
    /// The request for a file came back: the file taken in hand, if any.
    Locked(Option<FileScan>),
    /// The request for a file failed.
    LockFailed,
    /// The file taken in hand has been read.
    FileRead { scan_id: u128, contents: Vec<u8> },
    /// The hash has been handed to the database (whatever it answered).
    HashSaved,
}

/// What the hashing worker asks its caller to do next.
#[derive(Debug, Clone)]
pub enum HasherAction {
    /// Take a file in hand as the request says.
    LockFile(LockRequest),
    /// Read the file kept at `file_location`.
    ReadFile { scan_id: u128, file_location: String },
    /// Record `file_hash` for the file and mark it as hashed.
    SaveHash { scan_id: u128, file_hash: String, status: ScanStatus },
    /// Log that the request for a file failed; the run ends.
    LogLockError,
    /// The run ends.
    Finish,
}

/// The next step of the hashing worker: take a pending file in hand for
/// hashing, read it, and record its hash with the status `DoneHashing`; when
/// no file is waiting the run ends, and when the request fails it is logged.
pub fn hasher_next(event: HasherEvent) -> (action: HasherAction)
    requires
        event matches HasherEvent::FileRead { contents, .. } ==> contents@.len()
            <= max_digest_input(),
    ensures
        match event {
            HasherEvent::Start => action == HasherAction::LockFile(hashing_request()),
            HasherEvent::Locked(Some(scan)) => action == HasherAction::ReadFile {
                scan_id: scan.id,
                file_location: scan.file_location,
            },
            HasherEvent::Locked(None) => action == HasherAction::Finish,
            HasherEvent::LockFailed => action == HasherAction::LogLockError,
            HasherEvent::FileRead { scan_id, contents } => action matches HasherAction::SaveHash {
                scan_id: id,
                file_hash,
                status,
            } && id == scan_id && file_hash@ == hex_upper(sha256(contents@)) && status
                == ScanStatus::DoneHashing,
            HasherEvent::HashSaved => action == HasherAction::Finish,
        },
{
    match event {
        HasherEvent::Start => HasherAction::LockFile(
            LockRequest {
                ready: ScanStatus::Pending,
                working: ScanStatus::Hashing,
                abandon_after_minutes: MINUTES_TO_WAIT_BEFORE_ATTEMPTING_TO_WORK_AGAIN,
            },
        ),
        HasherEvent::Locked(Some(scan)) => HasherAction::ReadFile {
            scan_id: scan.id,
            file_location: scan.file_location,
        },
        HasherEvent::Locked(None) => HasherAction::Finish,
        HasherEvent::LockFailed => HasherAction::LogLockError,
        HasherEvent::FileRead { scan_id, contents } => HasherAction::SaveHash {
            scan_id,
            file_hash: hash_file_contents(contents.as_slice()),
            status: ScanStatus::DoneHashing,
        },
        HasherEvent::HashSaved => HasherAction::Finish,
    }
}

/// The scanning process could not be run to a successful end.
#[derive(Debug, Clone, Copy, PartialEq, Eq, Structural)]
pub struct ScanProcessError;

/// The verdict drawn from the exit of the scanning process: a successful exit
/// means the file is clean, any other exit is a failure of the scan.
pub fn scan_outcome(exit_success: bool) -> (outcome: Result<ScanResult, ScanProcessError>)
    ensures
        exit_success ==> outcome == Ok::<ScanResult, ScanProcessError>(ScanResult::Clean),
        !exit_success ==> outcome == Err::<ScanResult, ScanProcessError>(ScanProcessError),
{
    if exit_success {
        Ok(ScanResult::Clean)
    } else {
        Err(ScanProcessError)
    }
}

/// What happened last in a run of the scanning worker.
#[derive(Debug)]
pub enum ScannerEvent {
    /// The run begins.
    Start,
    /// The request for a file came back: the file taken in hand, if any.
    Locked(Option<FileScan>),
    /// The request for a file failed.
    LockFailed,
    /// The scan of the file taken in hand ended.
    Scanned(Result<ScanResult, ScanProcessError>),
}

/// What the scanning worker asks its caller to do next.
#[derive(Debug, Clone)]
pub enum ScannerAction {
    /// Take a file in hand as the request says.
    LockFile(LockRequest),
    /// Scan this file.
    ScanFile(FileScan),
    /// Report that the file is clean; the run ends.
    ReportClean,
    /// Report that the file is not clean; the run ends.
    ReportNotClean,
    /// Report that the scan failed; the run ends.
    ReportScanFailure(ScanProcessError),
    /// Log that the request for a file failed; the run ends.
    LogLockError,
    /// The run ends.
    Finish,
}

/// The next step of the scanning worker: take a hashed file in hand for
/// scanning, scan it, and report the verdict; when no file is waiting the run
/// ends, and when the request fails it is logged.
pub fn scanner_next(event: ScannerEvent) -> (action: ScannerAction)
    ensures
        match event {
            ScannerEvent::Start => action == ScannerAction::LockFile(scanning_request()),
            ScannerEvent::Locked(Some(scan)) => action == ScannerAction::ScanFile(scan),
            ScannerEvent::Locked(None) => action == ScannerAction::Finish,
            ScannerEvent::LockFailed => action == ScannerAction::LogLockError,
            ScannerEvent::Scanned(Ok(ScanResult::Clean)) => action == ScannerAction::ReportClean,
            ScannerEvent::Scanned(Ok(ScanResult::BadFile)) => action
                == ScannerAction::ReportNotClean,
            ScannerEvent::Scanned(Err(error)) => action == ScannerAction::ReportScanFailure(error),
        },
{
    match event {
        ScannerEvent::Start => ScannerAction::LockFile(
            LockRequest {
                ready: ScanStatus::DoneHashing,
                working: ScanStatus::Scanning,
                abandon_after_minutes: MINUTES_TO_WAIT_BEFORE_ATTEMPTING_TO_WORK_AGAIN,
            },
        ),
        ScannerEvent::Locked(Some(scan)) => ScannerAction::ScanFile(scan),
        ScannerEvent::Locked(None) => ScannerAction::Finish,
        ScannerEvent::LockFailed => ScannerAction::LogLockError,
        ScannerEvent::Scanned(Ok(verdict)) => {
            if verdict == ScanResult::Clean {
                ScannerAction::ReportClean
            } else {
                ScannerAction::ReportNotClean
            }
        },
        ScannerEvent::Scanned(Err(error)) => ScannerAction::ReportScanFailure(error),
    }
}

/// A file that the hashing worker has finished is the scanning worker's to
/// take and never again the hashing worker's.
pub proof fn lemma_hashed_file_passes_to_scanner(
    scan: FileScan,
    file_hash: Seq<char>,
    abandoned_time: i64,
)
    requires
        scan.is_hashed_with(file_hash),
    ensures
        scan.claimable(scanning_request(), abandoned_time),
        !scan.claimable(hashing_request(), abandoned_time),
{
}

} // verus!
