use butterfingers::attendance::{
    attendance_response, attendance_statement, column_text, full_name, identifier_attendance_statement,
    manual_attendance_refusal, name_by_employee_statement, name_by_identifier_statement,
    recorded_announcement, scan_result_message, AfterScan, AttendanceLoop, AttendanceRow, LoopStep, RetryCounter,
    ScanResult,
};
use butterfingers::commands::{
    check_fingerprint_scanner, deletion_response, greet, deletion_statement, save_print_statement,
    stored_prints_statement,
};
use butterfingers::config::{db_url, save_identifier_statement, DatabaseSettings, EnrollmentTicket};
use butterfingers::daemon::{handle_request, listen_address, ClientAction, ConnectionMessage, ScannerDaemon};
use butterfingers::employees::{
    candidates_statement, choose_row, employee_listing, listing_failure, listing_statement, no_candidates, row_choice_message, table_header,
    table_row, RowChoice,
};
use butterfingers::prints::{
    enroll_cb, find_print, load_response, match_cb, progress_cb, readable_names, reload_prints, PreloadedPrints,
};
use butterfingers::response::{Response, ResponseBody, ResponseCode};
use butterfingers::text::{decimal, parse_u64_line, parse_u64_text, parse_usize_line, push_signed_decimal};

fn text_of(r: &Response) -> String {
    match &r.body {
        ResponseBody::Text(t) => t.clone(),
        ResponseBody::Fields(_) => panic!("expected a message"),
    }
}

fn fields_of(r: &Response) -> Vec<String> {
    match &r.body {
        ResponseBody::Fields(f) => f.clone(),
        ResponseBody::Text(_) => panic!("expected columns"),
    }
}

fn row() -> AttendanceRow {
    AttendanceRow {
        emp_id: "12-345-67".to_string(),
        first_name: "Ana".to_string(),
        last_name: "Cruz".to_string(),
        date: "2024-03-01".to_string(),
        time: "08:01:02".to_string(),
        message: "On time".to_string(),
    }
}

#[test]
fn it_works() {
    assert_eq!(2 + 2, 4);
}

#[test]
fn decimal_matches_to_string() {
    for n in [0u64, 7, 10, 99, 100, 12345, u64::MAX] {
        assert_eq!(decimal(n), n.to_string());
    }
}

#[test]
fn signed_decimal_matches_to_string() {
    for n in [0i32, 5, -5, 42, i32::MIN, i32::MAX] {
        let mut s = String::from("x");
        push_signed_decimal(&mut s, n);
        assert_eq!(s, format!("x{}", n));
    }
}

#[test]
fn lines_parse_like_trimmed_str_parse() {
    assert_eq!(parse_u64_line("  42\n"), Some(42));
    assert_eq!(parse_u64_line("+7\n"), Some(7));
    assert_eq!(parse_u64_line("-7\n"), None);
    assert_eq!(parse_u64_line("\n"), None);
    assert_eq!(parse_u64_line("4 2"), None);
    assert_eq!(parse_u64_line("18446744073709551616"), None);
    assert_eq!(parse_usize_line("3\r\n"), Some(3));
    assert_eq!(parse_usize_line("abc"), None);
}

#[test]
fn row_prompt_choices() {
    assert_eq!(choose_row("2\n", 3), RowChoice::Selected(2));
    assert_eq!(choose_row("3\n", 3), RowChoice::Missing(3));
    assert_eq!(choose_row("x\n", 3), RowChoice::Invalid);
    assert_eq!(choose_row("0\n", 0), RowChoice::Missing(0));
    assert_eq!(row_choice_message(&RowChoice::Selected(1)), None);
    assert_eq!(
        row_choice_message(&RowChoice::Missing(17)),
        Some("Row number 17 does not exist in the table, please try again".to_string())
    );
    assert_eq!(row_choice_message(&RowChoice::Invalid), Some("Invalid input, please try again".to_string()));
}

#[test]
fn printed_row_number_selects_that_row() {
    let rows = 12;
    for k in 0..rows {
        let printed = table_row(k, 900 + k as u64, "A", "B");
        assert_eq!(choose_row(&format!("{}\n", printed[0]), rows), RowChoice::Selected(k));
    }
}

#[test]
fn table_of_employees() {
    assert_eq!(table_header(), vec!["Row Number", "Employee ID", "First Name", "Last Name"]);
    assert_eq!(table_row(3, 20240017, "Juan", "Luna"), vec!["3", "20240017", "Juan", "Luna"]);
}

#[test]
fn listing_takes_last_row_and_refuses_empty() {
    assert_eq!(employee_listing(vec![]), Err("No unenrolled employees found".to_string()));
    assert_eq!(employee_listing(vec!["[1]".to_string(), "[2]".to_string()]), Ok("[2]".to_string()));
    assert_eq!(listing_failure(true, "boom"), "Could not enumerate enrolled employees: boom");
    assert_eq!(listing_failure(false, "boom"), "Could not enumerate unenrolled employees: boom");
    assert_eq!(listing_statement(true), "CALL enumerate_enrolled_employees_json");
    assert_eq!(listing_statement(false), "CALL enumerate_unenrolled_employees_json");
}

#[test]
fn manual_attendance_length_limit() {
    assert!(manual_attendance_refusal("12-345-67").is_none());
    let refused = manual_attendance_refusal("12-345-678").unwrap();
    assert_eq!(refused.code, ResponseCode::Failure);
    assert_eq!(text_of(&refused), "Employee ID should be 9 characters or less. e.g. 12-345-67.");
    // nine characters but more than nine bytes
    assert!(manual_attendance_refusal("ñññññ").is_some());
}

#[test]
fn attendance_answer_puts_time_before_date() {
    let r = attendance_response(Ok(row()));
    assert_eq!(r.code, ResponseCode::Success);
    assert_eq!(fields_of(&r), vec!["12-345-67", "Ana", "Cruz", "08:01:02", "2024-03-01", "On time"]);
    let e = attendance_response(Err("Employee not found".to_string()));
    assert_eq!(e.code, ResponseCode::Failure);
    assert_eq!(text_of(&e), "Employee not found");
    assert_eq!(r.code_word(), "success");
    assert_eq!(e.code_word(), "failure");
}

#[test]
fn attendance_helpers() {
    assert_eq!(column_text(None), "error");
    assert_eq!(column_text(Some("x".to_string())), "x");
    assert_eq!(attendance_statement(true), "CALL record_attendance_by_empid(?)");
    assert_eq!(attendance_statement(false), "CALL check_fprint_and_record_attendance(?)");
    assert_eq!(full_name("Jose", Some("Protacio"), "Rizal"), "Jose Protacio Rizal");
    assert_eq!(full_name("Jose", None, "Rizal"), "Jose Rizal");
    assert_eq!(recorded_announcement("Jose Rizal", false), "Attendance recorded for Jose Rizal\n");
    assert_eq!(recorded_announcement("Jose Rizal", true), "Attendance manually recorded for Jose Rizal");
}

#[test]
fn three_failed_scans_ask_for_manual_attendance() {
    let mut c = RetryCounter::new();
    c.record(ScanResult::NoMatch);
    c.record(ScanResult::NoIdentifier);
    c.record(ScanResult::NotRecorded);
    assert!(!c.manual_required());
    assert_eq!(c.count(), 2);
    c.record(ScanResult::NoMatch);
    assert!(c.manual_required());
    c.reset();
    assert_eq!(c.count(), 0);
    c.record(ScanResult::NoMatch);
    c.record(ScanResult::Recorded);
    assert_eq!(c.count(), 0);
    assert_eq!(scan_result_message(ScanResult::Recorded), None);
    assert_eq!(scan_result_message(ScanResult::NoMatch), Some("No matching fingerprint could be found"));
}

#[test]
fn find_print_takes_first_match() {
    let names = vec![Some("a".to_string()), Some("b".to_string()), Some("b".to_string()), None];
    assert_eq!(find_print(&names, &"b".to_string()), Some(1));
    let names = vec![Some("a".to_string())];
    assert_eq!(find_print(&names, &"b".to_string()), None);
}

#[test]
fn reload_replaces_list_and_stops_at_first_bad_print() {
    let mut list = vec![9, 9, 9];
    let r = reload_prints(&mut list, vec![Ok(1), Ok(2)]);
    assert_eq!(list, vec![1, 2]);
    assert_eq!(r, Ok("Fingerprints Successfully loaded!".to_string()));
    let again = reload_prints(&mut list, vec![Ok(1), Ok(2)]);
    assert_eq!(list, vec![1, 2]);
    assert_eq!(again, r);
    let bad = reload_prints(&mut list, vec![Ok(5), Err("bad data".to_string()), Ok(6)]);
    assert_eq!(list, vec![5]);
    assert_eq!(bad, Err("Could not deserialize one of the fingerprints: bad data".to_string()));
    let answer = load_response(bad);
    assert_eq!(answer.code, ResponseCode::Failure);
}

#[test]
fn callbacks() {
    assert_eq!(match_cb(Some(Some("12".to_string()))), Some("12".to_string()));
    assert_eq!(match_cb(None), None);
    assert_eq!(progress_cb(Some(2), 3), (Some(3), "Progress_cb Enroll stage: 3".to_string()));
    assert_eq!(progress_cb(None, -1), (None, "Progress_cb Enroll stage: -1".to_string()));
    assert_eq!(enroll_cb(4), "Enroll_cb Enroll stage: 4");
}

#[test]
fn daemon_requests() {
    let msg = |mode: &str, emp: Option<&str>| ConnectionMessage {
        fingerprint_mode: mode.to_string(),
        emp_id: emp.map(|e| e.to_string()),
    };
    let (r, a) = handle_request(&msg("disconnect", None), true);
    assert_eq!((r.response_type, r.message.as_str(), a), (1, "Disconnection successful.", ClientAction::StopAndCloseScanners));
    let (r, a) = handle_request(&msg("identify", None), true);
    assert_eq!((r.response_type, r.message.as_str(), a), (2, "Another procedure is using the scanner!", ClientAction::Nothing));
    let (r, a) = handle_request(&msg("identify", None), false);
    assert_eq!((r.response_type, r.message.as_str(), a), (0, "Attendance mode started.", ClientAction::StartIdentify));
    let (r, _) = handle_request(&msg("enroll", None), false);
    assert_eq!((r.response_type, r.message.as_str()), (2, "Employee ID not specified!"));
    let (r, _) = handle_request(&msg("enroll", Some("7")), false);
    assert_eq!((r.response_type, r.message.as_str()), (0, "Enrollment mode started."));
    let (r, _) = handle_request(&msg("dance", None), false);
    assert_eq!((r.response_type, r.message.as_str()), (2, "Default Message"));
    assert_eq!(listen_address("127.0.0.1", "7878"), "127.0.0.1:7878");
}

#[test]
fn database_url_and_statements() {
    let s = DatabaseSettings {
        db_type: "mysql".to_string(),
        username: "root".to_string(),
        password: "pw".to_string(),
        hostname: "localhost".to_string(),
        port: "3306".to_string(),
        name: "butterfingers".to_string(),
        params: "ssl-mode=DISABLED".to_string(),
    };
    assert_eq!(db_url(&s), "mysql://root:pw@localhost:3306/butterfingers?ssl-mode=DISABLED");
    assert_eq!(deletion_statement(), "DELETE FROM enrolled_fingerprints WHERE emp_id = ?");
    assert_eq!(save_print_statement(), "CALL save_fprint(?,?)");
    assert_eq!(stored_prints_statement(), "SELECT fprint FROM enrolled_fingerprints");
    assert_eq!(save_identifier_statement(), "CALL save_fprint_identifier(?,?)");
}

#[test]
fn enrollment_ticket_has_fresh_v4_identifier() {
    let a = EnrollmentTicket::issue(7);
    let b = EnrollmentTicket::issue(7);
    assert_eq!(a.emp_id, 7);
    assert_eq!(a.identifier.len(), 36);
    assert_eq!(a.identifier.as_bytes()[14], b'4');
    assert!(matches!(a.identifier.as_bytes()[19], b'8' | b'9' | b'a' | b'b'));
    assert_eq!(a.file_name, format!("print/fprint_{}", a.identifier));
    assert_ne!(a.identifier, b.identifier);
}

#[test]
fn simple_command_answers() {
    let r = check_fingerprint_scanner(true);
    assert_eq!((r.code, text_of(&r)), (ResponseCode::Success, "Fingerprint scanner is connected".to_string()));
    let r = check_fingerprint_scanner(false);
    assert_eq!(r.code, ResponseCode::Failure);
    let r = deletion_response(Ok(0));
    assert_eq!((r.code, text_of(&r)), (ResponseCode::Success, "Fingerprint deleted successfully".to_string()));
    let r = deletion_response(Err("locked".to_string()));
    assert_eq!((r.code, text_of(&r)), (ResponseCode::Failure, "Error deleting fingerprint: locked".to_string()));
}

#[test]
fn greeting() {
    assert_eq!(greet("Tauri"), "Hello, Tauri! You've been greeted from Rust!");
}

#[test]
fn lines_ignore_unicode_white_space() {
    assert_eq!(parse_u64_line("\u{a0}\u{3000}42\u{2029}"), Some(42));
    assert_eq!(parse_u64_line("\u{200b}42"), None); // zero-width space is not white space
    assert_eq!(parse_u64_text(" 42"), None);
    assert_eq!(parse_u64_text("+"), None);
    assert_eq!(parse_u64_text(""), None);
    assert_eq!(parse_u64_text("18446744073709551615"), Some(u64::MAX));
    assert_eq!(parse_u64_text("99999999999999999999x"), None);
    for s in ["0", "+0", "007", "12a", "-1", "1 2", "٣"] {
        assert_eq!(parse_u64_text(s), s.parse::<u64>().ok());
    }
}

#[test]
fn attendance_loop_scans_until_three_failures_then_takes_manual_attendance() {
    let mut l = AttendanceLoop::new();
    assert_eq!(l.next_step(), LoopStep::Scan);
    assert!(matches!(l.identified(None), AfterScan::Counted(ScanResult::NoMatch)));
    match l.identified(Some(Some("uuid-1".to_string()))) {
        AfterScan::RecordAttendance(id) => assert_eq!(id, "uuid-1"),
        other => panic!("{:?}", other),
    }
    assert_eq!(l.attendance_recorded(true), ScanResult::Recorded);
    assert_eq!(l.count(), 0);
    assert!(matches!(l.identified(Some(None)), AfterScan::Counted(ScanResult::NoIdentifier)));
    assert_eq!(l.count(), 0);
    l.identified(None);
    l.identified(Some(Some("x".to_string())));
    assert_eq!(l.attendance_recorded(false), ScanResult::NotRecorded);
    assert_eq!(l.next_step(), LoopStep::Scan);
    l.identified(None);
    assert_eq!(l.next_step(), LoopStep::ManualAttendance);
    l.manual_recorded(false);
    assert_eq!(l.next_step(), LoopStep::ManualAttendance);
    l.manual_recorded(true);
    assert_eq!(l.next_step(), LoopStep::Done);
}

#[test]
fn preloaded_prints_change_only_on_reload() {
    let mut p: PreloadedPrints<u8> = PreloadedPrints::new();
    assert!(p.prints().is_empty());
    let r = p.reload(vec![Ok(3), Ok(4)]);
    assert!(r.is_ok());
    assert_eq!(p.prints(), &vec![3, 4]);
    let names = vec![None, Some("7".to_string())];
    assert!(!readable_names(&names, &"7".to_string()));
    let names = vec![Some("7".to_string()), None];
    assert!(readable_names(&names, &"7".to_string()));
}

#[test]
fn daemon_refuses_while_identification_runs() {
    let msg = |mode: &str| ConnectionMessage { fingerprint_mode: mode.to_string(), emp_id: None };
    let mut d = ScannerDaemon::new();
    assert!(!d.busy());
    let (r, a) = d.handle(&msg("identify"));
    assert_eq!((r.response_type, a), (0, ClientAction::StartIdentify));
    assert!(d.busy());
    let (r, _) = d.handle(&msg("identify"));
    assert_eq!((r.response_type, r.message.as_str()), (2, "Another procedure is using the scanner!"));
    let (r, a) = d.handle(&msg("disconnect"));
    assert_eq!((r.response_type, a), (1, ClientAction::StopAndCloseScanners));
    assert!(!d.busy());
}

#[test]
fn enrollment_tool_stops_without_candidates() {
    assert_eq!(no_candidates(0), Some("No unenrolled employees found"));
    assert_eq!(no_candidates(2), None);
}

#[test]
fn daemon_and_enrollment_queries() {
    assert_eq!(identifier_attendance_statement(), "CALL record_attendance(?)");
    assert_eq!(candidates_statement(), "CALL enumerate_unenrolled_employees");
    assert!(name_by_identifier_statement().ends_with("WHERE fprint_uuid = ?"));
    assert!(name_by_identifier_statement().starts_with("SELECT enrolled_fingerprints.fprint_uuid AS \"uuid\""));
    assert!(name_by_employee_statement().ends_with("WHERE role_code = 2 AND emp_id = ?"));
}

#[test]
fn deleting_a_print_keeps_the_preloaded_prints_until_reload() {
    let mut p: PreloadedPrints<u8> = PreloadedPrints::new();
    p.reload(vec![Ok(3), Ok(4)]).unwrap();
    let r = p.deletion_answered(Ok(1));
    assert_eq!((r.code, text_of(&r)), (ResponseCode::Success, "Fingerprint deleted successfully".to_string()));
    assert_eq!(p.prints(), &vec![3, 4]);
    let r = p.deletion_answered(Err("gone".to_string()));
    assert_eq!((r.code, text_of(&r)), (ResponseCode::Failure, "Error deleting fingerprint: gone".to_string()));
    assert_eq!(p.prints(), &vec![3, 4]);
    p.reload(vec![Ok(4)]).unwrap();
    assert_eq!(p.prints(), &vec![4]);
}
