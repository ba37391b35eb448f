use butterfingers::attendance::AttendanceRow;
use butterfingers::response::{Response, ResponseBody, ResponseCode};
use butterfingers::session::{ScanOutcome, ScanSession, SessionAction, SessionKind, SessionStage};

fn answer(a: SessionAction) -> (ResponseCode, String) {
    let r: Response = match a {
        SessionAction::Finish(r) => r,
        SessionAction::CloseThenFinish(r) => r,
        other => panic!("expected an answer, got {:?}", other),
    };
    match r.body {
        ResponseBody::Text(t) => (r.code, t),
        ResponseBody::Fields(f) => (r.code, f.join("|")),
    }
}

fn opened(kind: SessionKind, emp: &str) -> ScanSession {
    let mut s = ScanSession::new(kind, emp.to_string());
    assert!(matches!(s.device_probed(true), SessionAction::CheckCancellable));
    assert!(matches!(s.cancellable_checked(true), SessionAction::OpenDevice { renew_cancellable: true }));
    s
}

#[test]
fn no_scanner_answers_at_once() {
    let mut s = ScanSession::new(SessionKind::Identify, String::new());
    let (code, text) = answer(s.device_probed(false));
    assert_eq!(code, ResponseCode::Failure);
    assert_eq!(
        text,
        "Device could not be opened. Please try plugging in your fingerprint scanner and restarting the app."
    );
    assert!(matches!(s.stage(), SessionStage::Finished));
}

#[test]
fn verify_session_matches() {
    let mut s = opened(SessionKind::Verify, "7");
    assert!(matches!(s.device_opened(Ok(())), SessionAction::LockPrintList));
    let names = vec![Some("3".to_string()), Some("7".to_string())];
    assert!(matches!(s.print_list_locked(Ok(names)), SessionAction::VerifyAgainst(1)));
    assert!(matches!(s.scan_completed(ScanOutcome::Verified(true)), SessionAction::CloseDevice));
    assert_eq!(
        answer(s.device_closed(Ok(()))),
        (ResponseCode::Success, "Fingerprint verified successfully".to_string())
    );
}

#[test]
fn verify_session_mismatch_and_missing_print() {
    let mut s = opened(SessionKind::Verify, "7");
    s.device_opened(Ok(()));
    s.print_list_locked(Ok(vec![Some("7".to_string())]));
    s.scan_completed(ScanOutcome::Verified(false));
    assert_eq!(answer(s.device_closed(Ok(()))), (ResponseCode::Failure, "Fingerprint did not match".to_string()));

    let mut s = opened(SessionKind::Verify, "7");
    s.device_opened(Ok(()));
    assert_eq!(
        answer(s.print_list_locked(Ok(vec![Some("3".to_string())]))),
        (
            ResponseCode::Failure,
            "Fingerprint not found among the preloaded fingerprints. Please try scanning again, or enroll first."
                .to_string()
        )
    );
}

#[test]
fn open_and_lock_failures() {
    let mut s = opened(SessionKind::Verify, "7");
    assert_eq!(
        answer(s.device_opened(Err("busy".to_string()))),
        (ResponseCode::Failure, "Could not open fingerprint scanner. Error: busy".to_string())
    );
    let mut s = opened(SessionKind::Enroll, "7");
    assert_eq!(answer(s.device_opened(Err("busy".to_string()))), (ResponseCode::Failure, "Could not open device".to_string()));
    let mut s = opened(SessionKind::Identify, "");
    s.device_opened(Ok(()));
    assert_eq!(
        answer(s.print_list_locked(Err("poisoned".to_string()))),
        (ResponseCode::Failure, "Could not retrieve the list of fingerprints. Error: poisoned".to_string())
    );
}

#[test]
fn scan_failures_close_and_tell_cancellation() {
    let mut s = opened(SessionKind::Identify, "");
    s.device_opened(Ok(()));
    s.print_list_locked(Ok(vec![]));
    let a = s.scan_failed("cancelled op".to_string(), true);
    assert!(matches!(a, SessionAction::CloseThenFinish(_)));
    assert_eq!(answer(a), (ResponseCode::Failure, "Fingerprint scan cancelled".to_string()));

    let mut s = opened(SessionKind::Enroll, "7");
    s.device_opened(Ok(()));
    assert_eq!(
        answer(s.scan_failed("timeout".to_string(), false)),
        (ResponseCode::Failure, "Could not enroll fingerprint due to an error: timeout".to_string())
    );
}

#[test]
fn identify_session_records_attendance() {
    let mut s = opened(SessionKind::Identify, "");
    s.device_opened(Ok(()));
    assert!(matches!(s.print_list_locked(Ok(vec![None])), SessionAction::Identify));
    s.scan_completed(ScanOutcome::Identified(Some(Some("12-345-67".to_string()))));
    match s.device_closed(Ok(())) {
        SessionAction::RecordAttendance { employee, manual } => {
            assert_eq!(employee, "12-345-67");
            assert!(!manual);
        }
        other => panic!("{:?}", other),
    }
    let row = AttendanceRow {
        emp_id: "12-345-67".to_string(),
        first_name: "Ana".to_string(),
        last_name: "Cruz".to_string(),
        date: "2024-03-01".to_string(),
        time: "08:01:02".to_string(),
        message: "On time".to_string(),
    };
    assert_eq!(
        answer(s.attendance_recorded(Ok(row))),
        (ResponseCode::Success, "12-345-67|Ana|Cruz|08:01:02|2024-03-01|On time".to_string())
    );
}

#[test]
fn identify_session_without_match_or_employee() {
    let mut s = opened(SessionKind::Identify, "");
    s.device_opened(Ok(()));
    s.print_list_locked(Ok(vec![]));
    s.scan_completed(ScanOutcome::Identified(None));
    assert_eq!(answer(s.device_closed(Ok(()))), (ResponseCode::Failure, "No matching fingerprint could be found.".to_string()));

    let mut s = opened(SessionKind::Identify, "");
    s.device_opened(Ok(()));
    s.print_list_locked(Ok(vec![]));
    s.scan_completed(ScanOutcome::Identified(Some(None)));
    assert_eq!(
        answer(s.device_closed(Ok(()))),
        (
            ResponseCode::Failure,
            "No employee associated with the scanned fingerprint. Please try scanning again, or enroll first."
                .to_string()
        )
    );
}

#[test]
fn enroll_session_saves_print() {
    let mut s = opened(SessionKind::Enroll, "20-111-22");
    match s.device_opened(Ok(())) {
        SessionAction::Enroll { username } => assert_eq!(username, "20-111-22"),
        other => panic!("{:?}", other),
    }
    s.scan_completed(ScanOutcome::Enrolled);
    assert!(matches!(s.device_closed(Ok(())), SessionAction::SerializePrint));
    match s.print_serialized(true) {
        SessionAction::SavePrint { employee } => assert_eq!(employee, "20-111-22"),
        other => panic!("{:?}", other),
    }
    assert_eq!(answer(s.print_saved(Ok(()))), (ResponseCode::Success, "Successfully enrolled fingerprint".to_string()));
}

#[test]
fn enroll_session_failures_after_scan() {
    let mut s = opened(SessionKind::Enroll, "1");
    s.device_opened(Ok(()));
    s.scan_completed(ScanOutcome::Enrolled);
    assert_eq!(
        answer(s.device_closed(Err("io".to_string()))),
        (ResponseCode::Failure, "Could not close fingerprint scanner".to_string())
    );

    let mut s = opened(SessionKind::Enroll, "1");
    s.device_opened(Ok(()));
    s.scan_completed(ScanOutcome::Enrolled);
    s.device_closed(Ok(()));
    assert_eq!(answer(s.print_serialized(false)), (ResponseCode::Failure, "Could not serialize fingerprint".to_string()));

    let mut s = opened(SessionKind::Enroll, "1");
    s.device_opened(Ok(()));
    s.scan_completed(ScanOutcome::Enrolled);
    s.device_closed(Ok(()));
    s.print_serialized(true);
    assert_eq!(answer(s.print_saved(Err("duplicate".to_string()))), (ResponseCode::Failure, "duplicate".to_string()));

    let mut s = opened(SessionKind::Identify, "");
    s.device_opened(Ok(()));
    s.print_list_locked(Ok(vec![]));
    s.scan_completed(ScanOutcome::Identified(None));
    assert_eq!(
        answer(s.device_closed(Err("io".to_string()))),
        (ResponseCode::Failure, "Could not close the fingerprint scanner. Error: io".to_string())
    );
}
