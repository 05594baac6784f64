use file_scanner::background::{
    encode_digest, hash_file_contents, hasher_next, scan_outcome, scanner_next, HasherAction,
    HasherEvent, ScanProcessError, ScannerAction, ScannerEvent, HASHING_SCHEDULE,
    MINUTES_TO_WAIT_BEFORE_ATTEMPTING_TO_WORK_AGAIN, REMOVAL_SCHEDULE, SCANNING_SCHEDULE,
};
use file_scanner::file_scan_model::{FileScan, LockRequest, ScanResult, ScanStatus, UtcTime};

fn scan() -> FileScan {
    FileScan::new_pending(
        11,
        String::from("upload"),
        String::from("/srv/upload"),
        UtcTime { seconds: 0, nanoseconds: 0 },
    )
}

#[test]
fn schedule_constants() {
    assert_eq!(MINUTES_TO_WAIT_BEFORE_ATTEMPTING_TO_WORK_AGAIN, 15);
    assert_eq!(HASHING_SCHEDULE, 500);
    assert_eq!(SCANNING_SCHEDULE, 1000);
    assert_eq!(REMOVAL_SCHEDULE, 10000);
}

#[test]
fn digest_is_spelled_in_upper_case_hex() {
    assert_eq!(encode_digest(&[0xde, 0xad, 0xbe, 0xef]), "DEADBEEF");
    assert_eq!(encode_digest(&[0x00, 0x0f, 0xa0]), "000FA0");
    assert_eq!(encode_digest(&[]), "");
}

#[test]
fn file_hash_is_sha256_in_upper_case_hex() {
    assert_eq!(
        hash_file_contents(b""),
        "E3B0C44298FC1C149AFBF4C8996FB92427AE41E4649B934CA495991B7852B855"
    );
    assert_eq!(
        hash_file_contents(b"abc"),
        "BA7816BF8F01CFEA414140DE5DAE2223B00361A396177A9CB410FF61F20015AD"
    );
}

#[test]
fn hasher_run_step_by_step() {
    match hasher_next(HasherEvent::Start) {
        HasherAction::LockFile(request) => assert_eq!(
            request,
            LockRequest {
                ready: ScanStatus::Pending,
                working: ScanStatus::Hashing,
                abandon_after_minutes: 15
            }
        ),
        other => panic!("unexpected {:?}", other),
    }
    match hasher_next(HasherEvent::Locked(Some(scan()))) {
        HasherAction::ReadFile { scan_id, file_location } => {
            assert_eq!(scan_id, 11);
            assert_eq!(file_location, "/srv/upload");
        }
        other => panic!("unexpected {:?}", other),
    }
    match hasher_next(HasherEvent::FileRead { scan_id: 11, contents: b"abc".to_vec() }) {
        HasherAction::SaveHash { scan_id, file_hash, status } => {
            assert_eq!(scan_id, 11);
            assert_eq!(
                file_hash,
                "BA7816BF8F01CFEA414140DE5DAE2223B00361A396177A9CB410FF61F20015AD"
            );
            assert_eq!(status, ScanStatus::DoneHashing);
        }
        other => panic!("unexpected {:?}", other),
    }
    assert!(matches!(hasher_next(HasherEvent::HashSaved), HasherAction::Finish));
    assert!(matches!(hasher_next(HasherEvent::Locked(None)), HasherAction::Finish));
    assert!(matches!(hasher_next(HasherEvent::LockFailed), HasherAction::LogLockError));
}

#[test]
fn scan_outcome_follows_exit_status() {
    assert_eq!(scan_outcome(true), Ok(ScanResult::Clean));
    assert_eq!(scan_outcome(false), Err(ScanProcessError));
}

#[test]
fn scanner_run_step_by_step() {
    match scanner_next(ScannerEvent::Start) {
        ScannerAction::LockFile(request) => assert_eq!(
            request,
            LockRequest {
                ready: ScanStatus::DoneHashing,
                working: ScanStatus::Scanning,
                abandon_after_minutes: 15
            }
        ),
        other => panic!("unexpected {:?}", other),
    }
    match scanner_next(ScannerEvent::Locked(Some(scan()))) {
        ScannerAction::ScanFile(file) => assert_eq!(file.id, 11),
        other => panic!("unexpected {:?}", other),
    }
    assert!(matches!(scanner_next(ScannerEvent::Locked(None)), ScannerAction::Finish));
    assert!(matches!(scanner_next(ScannerEvent::LockFailed), ScannerAction::LogLockError));
    assert!(matches!(
        scanner_next(ScannerEvent::Scanned(Ok(ScanResult::Clean))),
        ScannerAction::ReportClean
    ));
    assert!(matches!(
        scanner_next(ScannerEvent::Scanned(Ok(ScanResult::BadFile))),
        ScannerAction::ReportNotClean
    ));
    assert!(matches!(
        scanner_next(ScannerEvent::Scanned(Err(ScanProcessError))),
        ScannerAction::ReportScanFailure(ScanProcessError)
    ));
}
