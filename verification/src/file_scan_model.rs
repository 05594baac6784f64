//! The status of a file as it moves through the scanning pipeline, the
//! verdict of a scan, and their textual names.

use vstd::prelude::*;

use crate::text::str_eq;

verus! {

/// Where a file scan stands in the pipeline.
#[derive(Debug, Clone, Copy, PartialEq, Eq, Structural)]
pub enum ScanStatus {
    Pending,
    Hashing,
    DoneHashing,
    Scanning,
    DoneScanningClean,
    DoneScanningBadFile,
    Error,
}

impl ScanStatus {
    /// The textual name of a status, as stored in the database.
    pub open spec fn name(self) -> Seq<char> {
        match self {
            ScanStatus::Pending => "Pending"@,
            ScanStatus::Hashing => "Hashing"@,
            ScanStatus::DoneHashing => "DoneHashing"@,
            ScanStatus::Scanning => "Scanning"@,
            ScanStatus::DoneScanningClean => "DoneScanningClean"@,
            ScanStatus::DoneScanningBadFile => "DoneScanningBadFile"@,
            ScanStatus::Error => "Error"@,
        }
    }

    /// The status whose name is `text`, if there is one.
    pub open spec fn named(text: Seq<char>) -> Option<ScanStatus> {
        if text == "Pending"@ {
            Some(ScanStatus::Pending)
        } else if text == "Hashing"@ {
            Some(ScanStatus::Hashing)
        } else if text == "DoneHashing"@ {
            Some(ScanStatus::DoneHashing)
        } else if text == "Scanning"@ {
            Some(ScanStatus::Scanning)
        } else if text == "Error"@ {
            Some(ScanStatus::Error)
        } else if text == "DoneScanningClean"@ {
            Some(ScanStatus::DoneScanningClean)
        } else if text == "DoneScanningBadFile"@ {
            Some(ScanStatus::DoneScanningBadFile)
        } else {
            None
        }
    }

    /// The name of this status.
    pub fn as_str(&self) -> (text: &'static str)
        ensures
            text@ == self.name(),
    {
        match self {
            ScanStatus::Pending => "Pending",
            ScanStatus::Hashing => "Hashing",
            ScanStatus::DoneHashing => "DoneHashing",
            ScanStatus::Scanning => "Scanning",
            ScanStatus::Error => "Error",
            ScanStatus::DoneScanningClean => "DoneScanningClean",
            ScanStatus::DoneScanningBadFile => "DoneScanningBadFile",
        }
    }

    /// Reads a status from its name; any other text is refused.
    pub fn from_str(val: &str) -> (parsed: Result<ScanStatus, ()>)
        ensures
            match ScanStatus::named(val@) {
                Some(status) => parsed == Ok::<ScanStatus, ()>(status),
                None => parsed == Err::<ScanStatus, ()>(()),
            },
    {
        if str_eq(val, "Pending") {
            return Ok(ScanStatus::Pending);
        }
        if str_eq(val, "Hashing") {
            return Ok(ScanStatus::Hashing);
        }
        if str_eq(val, "DoneHashing") {
            return Ok(ScanStatus::DoneHashing);
        }
        if str_eq(val, "Scanning") {
            return Ok(ScanStatus::Scanning);
        }
        if str_eq(val, "Error") {
            return Ok(ScanStatus::Error);
        }
        if str_eq(val, "DoneScanningClean") {
            return Ok(ScanStatus::DoneScanningClean);
        }
        if str_eq(val, "DoneScanningBadFile") {
            return Ok(ScanStatus::DoneScanningBadFile);
        }
        Err(())
    }
}

impl std::str::FromStr for ScanStatus {
    type Err = ();

    fn from_str(val: &str) -> (parsed: Result<ScanStatus, ()>)
        ensures
            match ScanStatus::named(val@) {
                Some(status) => parsed == Ok::<ScanStatus, ()>(status),
                None => parsed == Err::<ScanStatus, ()>(()),
            },
    {
        ScanStatus::from_str(val)
    }
}

/// The verdict of a completed scan.
#[derive(Debug, Clone, Copy, PartialEq, Eq, Structural)]
pub enum ScanResult {
    Clean,
    BadFile,
}

impl ScanResult {
    /// The textual name of a verdict, as stored in the database.
    pub open spec fn name(self) -> Seq<char> {
        match self {
            ScanResult::Clean => "Clean"@,
            ScanResult::BadFile => "BadFile"@,
        }
    }

    /// The verdict whose name is `text`, if there is one.
    pub open spec fn named(text: Seq<char>) -> Option<ScanResult> {
        if text == "Clean"@ {
            Some(ScanResult::Clean)
        } else if text == "BadFile"@ {
            Some(ScanResult::BadFile)
        } else {
            None
        }
    }

    /// An optional stored name read as an optional verdict.
    pub open spec fn named_optional(text: Option<Seq<char>>) -> Option<ScanResult> {
        match text {
            Some(t) => ScanResult::named(t),
            None => None,
        }
    }

    /// The name of this verdict.
    pub fn as_str(&self) -> (text: &'static str)
        ensures
            text@ == self.name(),
    {
        match self {
            ScanResult::Clean => "Clean",
            ScanResult::BadFile => "BadFile",
        }
    }

    /// Reads a verdict from its name; any other text is refused.
    pub fn from_str(val: &str) -> (parsed: Result<ScanResult, ()>)
        ensures
            match ScanResult::named(val@) {
                Some(verdict) => parsed == Ok::<ScanResult, ()>(verdict),
                None => parsed == Err::<ScanResult, ()>(()),
            },
    {
        if str_eq(val, "Clean") {
            return Ok(ScanResult::Clean);
        }
        if str_eq(val, "BadFile") {
            return Ok(ScanResult::BadFile);
        }
        Err(())
    }

    /// Reads an optional stored name: absent text, and text that names no
    /// verdict, both give no verdict.
    pub fn from_optional_string(value: Option<String>) -> (verdict: Option<ScanResult>)
        ensures
            verdict == ScanResult::named_optional(
                match value {
                    Some(text) => Some(text@),
                    None => None,
                },
            ),
    {
        match value {
            Some(text) => match ScanResult::from_str(text.as_str()) {
                Ok(verdict) => Some(verdict),
                Err(_) => None,
            },
            None => None,
        }
    }

    /// The name of an optional verdict, as an optional owned string.
    pub fn to_optional_string(value: Option<ScanResult>) -> (text: Option<String>)
        ensures
            match value {
                Some(verdict) => text matches Some(t) && t@ == verdict.name(),
                None => text is None,
            },
    {
        match value {
            Some(verdict) => Some(verdict.as_str().to_owned()),
            None => None,
        }
    }
}

impl std::str::FromStr for ScanResult {
    type Err = ();

    fn from_str(val: &str) -> (parsed: Result<ScanResult, ()>)
        ensures
            match ScanResult::named(val@) {
                Some(verdict) => parsed == Ok::<ScanResult, ()>(verdict),
                None => parsed == Err::<ScanResult, ()>(()),
            },
    {
        ScanResult::from_str(val)
    }
}

/// A moment in UTC: whole seconds since the Unix epoch and the nanoseconds
/// past them.
#[derive(Debug, Clone, Copy, PartialEq, Eq, Structural)]
pub struct UtcTime {
    pub seconds: i64,
    pub nanoseconds: u32,
}

/// A file submitted for scanning, as one row of the `file_scan` table.
///
/// `work_started` is a Unix time in seconds; `being_worked` and
/// `work_started` together form the lock by which one worker at a time
/// takes a file in hand.
#[derive(Debug, Clone)]
pub struct FileScan {
    pub id: u128,
    pub file_name: String,
    pub file_location: String,
    pub file_hash: String,
    pub posted_on: UtcTime,
    pub last_updated: UtcTime,
    pub status: ScanStatus,
    pub being_worked: bool,
    pub work_started: Option<i64>,
    pub scan_result: Option<ScanResult>,
    pub scan_result_details: Option<String>,
}

/// What a worker asks of the `file_scan` table to get a file in hand: a file
/// in status `ready` that nobody holds, or a file in status `ready` or
/// `working` whose hold is older than `abandon_after_minutes`; the file it
/// gets is moved to status `working` and held from the time of asking.
#[derive(Debug, Clone, Copy, PartialEq, Eq, Structural)]
pub struct LockRequest {
    pub ready: ScanStatus,
    pub working: ScanStatus,
    pub abandon_after_minutes: i64,
}

impl FileScan {
    /// Whether the hold on this file counts as abandoned: it started at or
    /// before `abandoned_time`. A hold without a start time never does.
    pub open spec fn hold_abandoned(self, abandoned_time: i64) -> bool {
        self.work_started matches Some(t) && t <= abandoned_time
    }

    /// Whether a worker making `request` may take this file: it is ready and
    /// nobody holds it, or it is ready or already in the working status and
    /// its hold counts as abandoned.
    pub open spec fn claimable(self, request: LockRequest, abandoned_time: i64) -> bool {
        ||| self.status == request.ready && !self.being_worked
        ||| (self.status == request.ready || self.status == request.working) && self.being_worked
            && self.hold_abandoned(abandoned_time)
    }

    /// This file, taken by a worker making `request` that starts at
    /// `work_start_time`.
    pub open spec fn held_for(self, request: LockRequest, work_start_time: i64) -> FileScan {
        FileScan {
            status: request.working,
            being_worked: true,
            work_started: Some(work_start_time),
            ..self
        }
    }

    /// This file once hashed: its hash recorded, its status `DoneHashing`,
    /// and the hold released.
    pub open spec fn is_hashed_with(self, file_hash: Seq<char>) -> bool {
        &&& self.status == ScanStatus::DoneHashing
        &&& !self.being_worked
        &&& self.file_hash@ == file_hash
    }

    /// Decides whether a worker making `request` may take this file, given
    /// the time at or before which a hold counts as abandoned.
    pub fn is_claimable(&self, request: LockRequest, abandoned_time: i64) -> (claimable: bool)
        ensures
            claimable == self.claimable(request, abandoned_time),
    {
        if !self.being_worked {
            return self.status == request.ready;
        }
        if self.status != request.ready && self.status != request.working {
            return false;
        }
        match self.work_started {
            Some(started) => started <= abandoned_time,
            None => false,
        }
    }

    /// Takes this file in hand for a worker making `request` that starts at
    /// `work_start_time`.
    pub fn claim(self, request: LockRequest, work_start_time: i64) -> (held: FileScan)
        ensures
            held == self.held_for(request, work_start_time),
            held.status == request.working,
            held.being_worked,
            held.work_started == Some(work_start_time),
            held.id == self.id,
            held.file_name == self.file_name,
            held.file_location == self.file_location,
            held.file_hash == self.file_hash,
            held.posted_on == self.posted_on,
            held.last_updated == self.last_updated,
            held.scan_result == self.scan_result,
            held.scan_result_details == self.scan_result_details,
    {
        FileScan {
            status: request.working,
            being_worked: true,
            work_started: Some(work_start_time),
            ..self
        }
    }

    /// Records the hash of this file: the hash is stored, the status becomes
    /// `DoneHashing` and the hold is released; nothing else changes.
    pub fn done_hashing(self, file_hash: String) -> (hashed: FileScan)
        ensures
            hashed == (FileScan {
                file_hash,
                status: ScanStatus::DoneHashing,
                being_worked: false,
                ..self
            }),
            hashed.is_hashed_with(file_hash@),
    {
        FileScan { file_hash, status: ScanStatus::DoneHashing, being_worked: false, ..self }
    }

    /// The record of a file just received: pending, with no hash yet, held by
    /// nobody, with a start time of zero, no verdict, and posted and updated
    /// at `now`.
    pub fn new_pending(id: u128, file_name: String, file_location: String, now: UtcTime) -> (scan:
        FileScan)
        ensures
            scan.id == id,
            scan.file_name == file_name,
            scan.file_location == file_location,
            scan.file_hash@ == Seq::<char>::empty(),
            scan.posted_on == now,
            scan.last_updated == now,
            scan.status == ScanStatus::Pending,
            !scan.being_worked,
            scan.work_started == Some(0i64),
            scan.scan_result is None,
            scan.scan_result_details is None,
    {
        FileScan {
            id,
            file_name,
            file_location,
            file_hash: String::new(),
            posted_on: now,
            last_updated: now,
            status: ScanStatus::Pending,
            being_worked: false,
            work_started: Some(0),
            scan_result: None,
            scan_result_details: None,
        }
    }
}

/// Takes one file in hand out of `rows` for a worker making `request` that
/// starts at `work_start_time`: the first file that the worker may take is
/// moved to the working status and held; every other row is left as it was.
/// Gives the position of the file taken, or `None` when there is none to take.
pub fn lock_next_file(
    rows: &mut Vec<FileScan>,
    request: LockRequest,
    work_start_time: i64,
    abandoned_time: i64,
) -> (taken: Option<usize>)
    ensures
        match taken {
            Some(i) => {
                &&& i < old(rows)@.len()
                &&& old(rows)@[i as int].claimable(request, abandoned_time)
                &&& forall|j: int|
                    0 <= j < i ==> !(#[trigger] old(rows)@[j]).claimable(request, abandoned_time)
                &&& final(rows)@ == old(rows)@.update(
                    i as int,
                    old(rows)@[i as int].held_for(request, work_start_time),
                )
            },
            None => {
                &&& forall|j: int|
                    0 <= j < old(rows)@.len() ==> !(#[trigger] old(rows)@[j]).claimable(
                        request,
                        abandoned_time,
                    )
                &&& final(rows)@ == old(rows)@
            },
        },
{
    let mut i: usize = 0;
    while i < rows.len()
        invariant
            rows@ == old(rows)@,
            i <= rows@.len(),
            forall|j: int| 0 <= j < i ==> !(#[trigger] rows@[j]).claimable(request, abandoned_time),
        decreases rows@.len() - i,
    {
        if rows[i].is_claimable(request, abandoned_time) {
            let row = rows.remove(i);
            let held = row.claim(request, work_start_time);
            rows.insert(i, held);
            assert(rows@ =~= old(rows)@.update(i as int, old(rows)@[i as int].held_for(request, work_start_time)));
            return Some(i);
        }
        i = i + 1;
    }
    None
}

/// Reading back the name of a status gives that status, and a name that reads
/// as a status is that status's name.
pub proof fn lemma_status_name_round_trip(status: ScanStatus, text: Seq<char>)
    ensures
        ScanStatus::named(status.name()) == Some(status),
        ScanStatus::named(text) == Some(status) ==> status.name() == text,
{
    reveal_strlit("Pending");
    reveal_strlit("Hashing");
    reveal_strlit("DoneHashing");
    reveal_strlit("Scanning");
    reveal_strlit("Error");
    reveal_strlit("DoneScanningClean");
    reveal_strlit("DoneScanningBadFile");
    assert("Hashing"@[0] != "Pending"@[0]);
    assert("Hashing"@ != "Pending"@);
    assert(status.name().len() == 7 ==> status == ScanStatus::Pending || status == ScanStatus::Hashing);
}

/// Reading back the name of a verdict gives that verdict, and a name that
/// reads as a verdict is that verdict's name.
pub proof fn lemma_result_name_round_trip(verdict: ScanResult, text: Seq<char>)
    ensures
        ScanResult::named(verdict.name()) == Some(verdict),
        ScanResult::named(text) == Some(verdict) ==> verdict.name() == text,
{
    reveal_strlit("Clean");
    reveal_strlit("BadFile");
    assert("BadFile"@.len() != "Clean"@.len());
}

/// A ready file that nobody holds is free to the worker that asks for it.
pub proof fn lemma_unheld_ready_scan_is_claimable(
    scan: FileScan,
    request: LockRequest,
    abandoned_time: i64,
)
    requires
        !scan.being_worked,
        scan.status == request.ready,
    ensures
        scan.claimable(request, abandoned_time),
{
}

/// Once a worker takes a file, no worker making the same request can take it
/// while the hold is younger than the abandonment time; once the hold counts
/// as abandoned, it can be taken again.
pub proof fn lemma_held_scan_is_claimable_only_when_abandoned(
    scan: FileScan,
    request: LockRequest,
    work_start_time: i64,
    abandoned_time: i64,
)
    ensures
        scan.held_for(request, work_start_time).claimable(request, abandoned_time)
            <==> work_start_time <= abandoned_time,
{
}

/// A file in the ready status that a worker holds, but whose hold started at
/// or before the abandonment time, may be taken over; one whose hold started
/// after it may not.
pub proof fn lemma_held_ready_scan_is_claimable_iff_abandoned(
    scan: FileScan,
    request: LockRequest,
    started: i64,
    abandoned_time: i64,
)
    requires
        scan.status == request.ready,
        scan.being_worked,
        scan.work_started == Some(started),
    ensures
        scan.claimable(request, abandoned_time) <==> started <= abandoned_time,
{
}

/// Taking a file in hand moves it to the working status of the request and
/// holds it from the given start time; its identity, name, location, hash,
/// times, verdict and verdict details are left as they were, so a lock never
/// records a hash or a verdict.
pub proof fn lemma_lock_changes_only_status_and_hold(
    scan: FileScan,
    request: LockRequest,
    work_start_time: i64,
)
    ensures
        ({
            let held = scan.held_for(request, work_start_time);
            &&& held.status == request.working
            &&& held.being_worked
            &&& held.work_started == Some(work_start_time)
            &&& held.id == scan.id
            &&& held.file_name == scan.file_name
            &&& held.file_location == scan.file_location
            &&& held.file_hash == scan.file_hash
            &&& held.posted_on == scan.posted_on
            &&& held.last_updated == scan.last_updated
            &&& held.scan_result == scan.scan_result
            &&& held.scan_result_details == scan.scan_result_details
        }),
{
}

/// A file in neither the ready nor the working status of a request is never
/// taken by a worker making it, whoever holds the file.
pub proof fn lemma_other_status_is_never_claimable(
    scan: FileScan,
    request: LockRequest,
    abandoned_time: i64,
)
    requires
        scan.status != request.ready,
        scan.status != request.working,
    ensures
        !scan.claimable(request, abandoned_time),
{
}

/// Writing an optional verdict out as optional text and reading that text back
/// gives the verdict that was written, absent or not.
pub proof fn lemma_optional_result_round_trip(value: Option<ScanResult>, text: Option<Seq<char>>)
    requires
        match value {
            Some(verdict) => text == Some(verdict.name()),
            None => text is None,
        },
    ensures
        ScanResult::named_optional(text) == value,
{
    if let Some(verdict) = value {
        lemma_result_name_round_trip(verdict, verdict.name());
    }
}

} // verus!
