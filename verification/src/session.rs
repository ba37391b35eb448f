use vstd::prelude::*;
use vstd::string::*;

use crate::attendance::{attendance_response, AttendanceRow};
use crate::prints::{find_print, names_match, no_match_before, readable_until_match};
use crate::response::{joined, Response, ResponseCode};

verus! {

/// The three commands that drive the fingerprint scanner.
#[derive(Clone, Copy, Debug, PartialEq, Eq, Structural)]
pub enum SessionKind {
    /// Check a scanned finger against the preloaded print of one employee.
    Verify,
    /// Enroll a new print for an employee and store it.
    Enroll,
    /// Identify a scanned finger among all preloaded prints and record attendance.
    Identify,
}

/// What the scanner reported when a scan ended without an error.
#[derive(Debug)]
pub enum ScanOutcome {
    /// Verification: whether the finger matched the employee's print.
    Verified(bool),
    /// Identification: `None` when no print matched; otherwise the username of the
    /// matched print, which may be missing.
    Identified(Option<Option<String>>),
    /// Enrollment: a print was captured.
    Enrolled,
}

/// Where a session stands: each stage waits for one report from the scanner,
/// the print list or the database.
#[derive(Debug)]
pub enum SessionStage {
    Start,
    CheckingCancellable,
    Opening,
    LockingPrints,
    Scanning,
    Closing(ScanOutcome),
    Serializing,
    Saving,
    Recording,
    Finished,
}

/// What the caller does next on behalf of the session.
#[derive(Debug)]
pub enum SessionAction {
    /// Report whether the shared cancellation token has been cancelled.
    CheckCancellable,
    /// Open the scanner, after replacing the cancellation token when it was cancelled.
    OpenDevice { renew_cancellable: bool },
    /// Lock the list of preloaded prints and report their usernames.
    LockPrintList,
    /// Verify the finger against the preloaded print at this position.
    VerifyAgainst(usize),
    /// Identify the finger among the preloaded prints.
    Identify,
    /// Enroll a print whose username is the employee ID.
    Enroll { username: String },
    /// Close the scanner and report how that went.
    CloseDevice,
    /// Close the scanner, which must succeed, then give this answer.
    CloseThenFinish(Response),
    /// Serialize the enrolled print and report whether that worked.
    SerializePrint,
    /// Store the serialized print for the employee.
    SavePrint { employee: String },
    /// Record the attendance of the employee whose print matched, by the manual
    /// procedure or the fingerprint one.
    RecordAttendance { employee: String, manual: bool },
    /// Give this answer; the session is over.
    Finish(Response),
}

/// One run of a scanner command, from the check that a scanner is present to the
/// answer given to the front end. Enrollment never reads the preloaded prints:
/// the new print goes to the database only.
pub struct ScanSession {
    kind: SessionKind,
    employee: String,
    stage: SessionStage,
}

/// Stages come in this order; every report moves a session to a later stage.
pub open spec fn stage_rank(stage: SessionStage) -> nat {
    match stage {
        SessionStage::Start => 0,
        SessionStage::CheckingCancellable => 1,
        SessionStage::Opening => 2,
        SessionStage::LockingPrints => 3,
        SessionStage::Scanning => 4,
        SessionStage::Closing(_) => 5,
        SessionStage::Serializing => 6,
        SessionStage::Saving => 7,
        SessionStage::Recording => 8,
        SessionStage::Finished => 9,
    }
}

pub open spec fn no_device_text() -> Seq<char> {
    "Device could not be opened. Please try plugging in your fingerprint scanner and restarting the app."@
}

pub open spec fn open_failure_text(kind: SessionKind, e: Seq<char>) -> Seq<char> {
    if kind == SessionKind::Enroll {
        "Could not open device"@
    } else {
        "Could not open fingerprint scanner. Error: "@ + e
    }
}

pub open spec fn list_failure_text(e: Seq<char>) -> Seq<char> {
    "Could not retrieve the list of fingerprints. Error: "@ + e
}

pub open spec fn print_not_found_text() -> Seq<char> {
    "Fingerprint not found among the preloaded fingerprints. Please try scanning again, or enroll first."@
}

pub open spec fn scan_failure_text(kind: SessionKind, e: Seq<char>, cancelled: bool) -> Seq<char> {
    if cancelled {
        "Fingerprint scan cancelled"@
    } else if kind == SessionKind::Enroll {
        "Could not enroll fingerprint due to an error: "@ + e
    } else {
        "Could not identify fingerprint due to an error: "@ + e
    }
}

pub open spec fn close_failure_text(kind: SessionKind, e: Seq<char>) -> Seq<char> {
    if kind == SessionKind::Enroll {
        "Could not close fingerprint scanner"@
    } else {
        "Could not close the fingerprint scanner. Error: "@ + e
    }
}

pub open spec fn verified_text() -> Seq<char> {
    "Fingerprint verified successfully"@
}

pub open spec fn not_verified_text() -> Seq<char> {
    "Fingerprint did not match"@
}

pub open spec fn no_match_text() -> Seq<char> {
    "No matching fingerprint could be found."@
}

pub open spec fn no_employee_text() -> Seq<char> {
    "No employee associated with the scanned fingerprint. Please try scanning again, or enroll first."@
}

pub open spec fn serialize_failure_text() -> Seq<char> {
    "Could not serialize fingerprint"@
}

pub open spec fn enrolled_text() -> Seq<char> {
    "Successfully enrolled fingerprint"@
}

/// The scanner's report fits the command.
pub open spec fn outcome_fits(kind: SessionKind, outcome: ScanOutcome) -> bool {
    match outcome {
        ScanOutcome::Verified(_) => kind == SessionKind::Verify,
        ScanOutcome::Identified(_) => kind == SessionKind::Identify,
        ScanOutcome::Enrolled => kind == SessionKind::Enroll,
    }
}

/// The action reads the preloaded prints.
pub open spec fn reads_print_list(action: SessionAction) -> bool {
    action is LockPrintList || action is VerifyAgainst || action is Identify
}

fn no_device_message() -> (s: String)
    ensures
        s@ == no_device_text(),
{
    String::from_str("Device could not be opened. Please try plugging in your fingerprint scanner and restarting the app.")
}

impl ScanSession {
    /// The command this session runs.
    pub closed spec fn command(self) -> SessionKind {
        self.kind
    }

    /// The employee ID the session works for.
    pub closed spec fn employee_text(self) -> Seq<char> {
        self.employee@
    }

    /// Where the session stands.
    pub closed spec fn stage_now(self) -> SessionStage {
        self.stage
    }

    pub fn kind(&self) -> (k: SessionKind)
        ensures
            k == self.command(),
    {
        self.kind
    }

    pub fn employee(&self) -> (e: &String)
        ensures
            e@ == self.employee_text(),
    {
        &self.employee
    }

    pub fn stage(&self) -> (st: &SessionStage)
        ensures
            *st == self.stage_now(),
    {
        &self.stage
    }

    /// A new session for `kind`; the caller first reports whether a scanner is present.
    /// `employee` is the employee ID for verification and enrollment; identification
    /// does not read it.
    pub fn new(kind: SessionKind, employee: String) -> (s: ScanSession)
        ensures
            s.command() == kind,
            s.employee_text() == employee@,
            s.stage_now() == SessionStage::Start,
    {
        ScanSession { kind, employee, stage: SessionStage::Start }
    }

    /// The scanner is present or not. Without one, every command answers with the
    /// same failure and touches nothing else.
    pub fn device_probed(&mut self, present: bool) -> (a: SessionAction)
        requires
            old(self).stage_now() == SessionStage::Start,
        ensures
            final(self).command() == old(self).command(),
            final(self).employee_text() == old(self).employee_text(),
            present ==> final(self).stage_now() == SessionStage::CheckingCancellable && a == SessionAction::CheckCancellable,
            !present ==> final(self).stage_now() == SessionStage::Finished
                && (a matches SessionAction::Finish(r) && r.says(ResponseCode::Failure, no_device_text())),
            stage_rank(final(self).stage_now()) > stage_rank(old(self).stage_now()),
            old(self).command() == SessionKind::Enroll ==> !reads_print_list(a),
    {
        if present {
            self.stage = SessionStage::CheckingCancellable;
            SessionAction::CheckCancellable
        } else {
            self.stage = SessionStage::Finished;
            SessionAction::Finish(Response::failure(no_device_message()))
        }
    }

    /// The cancellation token was cancelled or not; a cancelled token is replaced
    /// before the scanner is opened, so an earlier cancellation does not stop this scan.
    pub fn cancellable_checked(&mut self, cancelled: bool) -> (a: SessionAction)
        requires
            old(self).stage_now() == SessionStage::CheckingCancellable,
        ensures
            final(self).command() == old(self).command(),
            final(self).employee_text() == old(self).employee_text(),
            final(self).stage_now() == SessionStage::Opening,
            a == (SessionAction::OpenDevice { renew_cancellable: cancelled }),
            stage_rank(final(self).stage_now()) > stage_rank(old(self).stage_now()),
            old(self).command() == SessionKind::Enroll ==> !reads_print_list(a),
    {
        self.stage = SessionStage::Opening;
        SessionAction::OpenDevice { renew_cancellable: cancelled }
    }

    /// The scanner opened, or failed to with error `e`. Enrollment then scans for
    /// the employee's print; the other commands first need the preloaded prints.
    pub fn device_opened(&mut self, result: Result<(), String>) -> (a: SessionAction)
        requires
            old(self).stage_now() == SessionStage::Opening,
        ensures
            final(self).command() == old(self).command(),
            final(self).employee_text() == old(self).employee_text(),
            result is Ok && old(self).command() == SessionKind::Enroll ==> final(self).stage_now() == SessionStage::Scanning
                && (a matches SessionAction::Enroll { username } && username@ == old(self).employee_text()),
            result is Ok && old(self).command() != SessionKind::Enroll ==> final(self).stage_now() == SessionStage::LockingPrints
                && a == SessionAction::LockPrintList,
            result matches Err(e) ==> final(self).stage_now() == SessionStage::Finished
                && (a matches SessionAction::Finish(r) && r.says(ResponseCode::Failure, open_failure_text(old(self).command(), e@))),
            stage_rank(final(self).stage_now()) > stage_rank(old(self).stage_now()),
            old(self).command() == SessionKind::Enroll ==> !reads_print_list(a),
    {
        match result {
            Ok(()) => {
                if self.kind == SessionKind::Enroll {
                    self.stage = SessionStage::Scanning;
                    SessionAction::Enroll { username: self.employee.clone() }
                } else {
                    self.stage = SessionStage::LockingPrints;
                    SessionAction::LockPrintList
                }
            },
            Err(e) => {
                self.stage = SessionStage::Finished;
                let text = if self.kind == SessionKind::Enroll {
                    String::from_str("Could not open device")
                } else {
                    joined("Could not open fingerprint scanner. Error: ", e.as_str())
                };
                SessionAction::Finish(Response::failure(text))
            },
        }
    }

    /// The preloaded prints were locked, given by their usernames in order, or the
    /// lock failed with error `e`. Verification scans against the first print whose
    /// username is the employee ID; when there is none it stops and leaves the
    /// scanner open.
    pub fn print_list_locked(&mut self, result: Result<Vec<Option<String>>, String>) -> (a: SessionAction)
        requires
            old(self).stage_now() == SessionStage::LockingPrints,
            old(self).command() != SessionKind::Enroll,
            old(self).command() == SessionKind::Verify && result is Ok ==> readable_until_match(
                result->Ok_0@,
                old(self).employee_text(),
            ),
        ensures
            final(self).command() == old(self).command(),
            final(self).employee_text() == old(self).employee_text(),
            result matches Err(e) ==> final(self).stage_now() == SessionStage::Finished
                && (a matches SessionAction::Finish(r) && r.says(ResponseCode::Failure, list_failure_text(e@))),
            result is Ok && old(self).command() != SessionKind::Verify ==> final(self).stage_now() == SessionStage::Scanning
                && a == SessionAction::Identify,
            old(self).command() == SessionKind::Verify ==> (result matches Ok(names) ==> {
                ||| (final(self).stage_now() == SessionStage::Scanning
                    && (a matches SessionAction::VerifyAgainst(i) && i < names@.len()
                        && names_match(names@[i as int], old(self).employee_text())
                        && no_match_before(names@, old(self).employee_text(), i as int)))
                ||| (final(self).stage_now() == SessionStage::Finished
                    && no_match_before(names@, old(self).employee_text(), names@.len() as int)
                    && (a matches SessionAction::Finish(r) && r.says(ResponseCode::Failure, print_not_found_text())))
            }),
            stage_rank(final(self).stage_now()) > stage_rank(old(self).stage_now()),
            old(self).command() == SessionKind::Enroll ==> !reads_print_list(a),
    {
        match result {
            Err(e) => {
                self.stage = SessionStage::Finished;
                SessionAction::Finish(Response::failure(joined("Could not retrieve the list of fingerprints. Error: ", e.as_str())))
            },
            Ok(names) => {
                if self.kind == SessionKind::Verify {
                    match find_print(&names, &self.employee) {
                        Some(i) => {
                            self.stage = SessionStage::Scanning;
                            SessionAction::VerifyAgainst(i)
                        },
                        None => {
                            self.stage = SessionStage::Finished;
                            SessionAction::Finish(Response::failure(String::from_str(
                                "Fingerprint not found among the preloaded fingerprints. Please try scanning again, or enroll first.",
                            )))
                        },
                    }
                } else {
                    self.stage = SessionStage::Scanning;
                    SessionAction::Identify
                }
            },
        }
    }

    /// The scan ended with a report from the scanner; the scanner is closed next.
    pub fn scan_completed(&mut self, outcome: ScanOutcome) -> (a: SessionAction)
        requires
            old(self).stage_now() == SessionStage::Scanning,
            outcome_fits(old(self).command(), outcome),
        ensures
            final(self).command() == old(self).command(),
            final(self).employee_text() == old(self).employee_text(),
            final(self).stage_now() == SessionStage::Closing(outcome),
            a == SessionAction::CloseDevice,
            stage_rank(final(self).stage_now()) > stage_rank(old(self).stage_now()),
            old(self).command() == SessionKind::Enroll ==> !reads_print_list(a),
    {
        self.stage = SessionStage::Closing(outcome);
        SessionAction::CloseDevice
    }

    /// The scan failed with error `e`; `cancelled` tells whether the token had been
    /// cancelled by then. The scanner is closed and the session ends, with a message
    /// that names the cancellation when there was one.
    pub fn scan_failed(&mut self, e: String, cancelled: bool) -> (a: SessionAction)
        requires
            old(self).stage_now() == SessionStage::Scanning,
        ensures
            final(self).command() == old(self).command(),
            final(self).employee_text() == old(self).employee_text(),
            final(self).stage_now() == SessionStage::Finished,
            a matches SessionAction::CloseThenFinish(r) && r.says(
                ResponseCode::Failure,
                scan_failure_text(old(self).command(), e@, cancelled),
            ),
            stage_rank(final(self).stage_now()) > stage_rank(old(self).stage_now()),
            old(self).command() == SessionKind::Enroll ==> !reads_print_list(a),
    {
        self.stage = SessionStage::Finished;
        let text = if cancelled {
            String::from_str("Fingerprint scan cancelled")
        } else if self.kind == SessionKind::Enroll {
            joined("Could not enroll fingerprint due to an error: ", e.as_str())
        } else {
            joined("Could not identify fingerprint due to an error: ", e.as_str())
        };
        SessionAction::CloseThenFinish(Response::failure(text))
    }

    /// The scanner closed, or failed to with error `e`. Then the scan's outcome decides.
    pub fn device_closed(&mut self, result: Result<(), String>) -> (a: SessionAction)
        requires
            old(self).stage_now() is Closing,
        ensures
            final(self).command() == old(self).command(),
            final(self).employee_text() == old(self).employee_text(),
            result matches Err(e) ==> final(self).stage_now() == SessionStage::Finished
                && (a matches SessionAction::Finish(r) && r.says(ResponseCode::Failure, close_failure_text(old(self).command(), e@))),
            result is Ok ==> match old(self).stage_now() {
                SessionStage::Closing(ScanOutcome::Verified(true)) => final(self).stage_now() == SessionStage::Finished
                    && (a matches SessionAction::Finish(r) && r.says(ResponseCode::Success, verified_text())),
                SessionStage::Closing(ScanOutcome::Verified(false)) => final(self).stage_now() == SessionStage::Finished
                    && (a matches SessionAction::Finish(r) && r.says(ResponseCode::Failure, not_verified_text())),
                SessionStage::Closing(ScanOutcome::Identified(None)) => final(self).stage_now() == SessionStage::Finished
                    && (a matches SessionAction::Finish(r) && r.says(ResponseCode::Failure, no_match_text())),
                SessionStage::Closing(ScanOutcome::Identified(Some(None))) => final(self).stage_now() == SessionStage::Finished
                    && (a matches SessionAction::Finish(r) && r.says(ResponseCode::Failure, no_employee_text())),
                SessionStage::Closing(ScanOutcome::Identified(Some(Some(emp)))) => final(self).stage_now() == SessionStage::Recording
                    && (a matches SessionAction::RecordAttendance { employee, manual } && employee@ == emp@ && !manual),
                SessionStage::Closing(ScanOutcome::Enrolled) => final(self).stage_now() == SessionStage::Serializing
                    && a == SessionAction::SerializePrint,
                _ => false,
            },
            stage_rank(final(self).stage_now()) > stage_rank(old(self).stage_now()),
            old(self).command() == SessionKind::Enroll ==> !reads_print_list(a),
    {
        let mut stage = SessionStage::Finished;
        std::mem::swap(&mut stage, &mut self.stage);
        match result {
            Err(e) => {
                let text = if self.kind == SessionKind::Enroll {
                    String::from_str("Could not close fingerprint scanner")
                } else {
                    joined("Could not close the fingerprint scanner. Error: ", e.as_str())
                };
                SessionAction::Finish(Response::failure(text))
            },
            Ok(()) => match stage {
                SessionStage::Closing(ScanOutcome::Verified(true)) => {
                    SessionAction::Finish(Response::success(String::from_str("Fingerprint verified successfully")))
                },
                SessionStage::Closing(ScanOutcome::Verified(false)) => {
                    SessionAction::Finish(Response::failure(String::from_str("Fingerprint did not match")))
                },
                SessionStage::Closing(ScanOutcome::Identified(None)) => {
                    SessionAction::Finish(Response::failure(String::from_str("No matching fingerprint could be found.")))
                },
                SessionStage::Closing(ScanOutcome::Identified(Some(None))) => {
                    SessionAction::Finish(Response::failure(String::from_str(
                        "No employee associated with the scanned fingerprint. Please try scanning again, or enroll first.",
                    )))
                },
                SessionStage::Closing(ScanOutcome::Identified(Some(Some(emp)))) => {
                    self.stage = SessionStage::Recording;
                    SessionAction::RecordAttendance { employee: emp, manual: false }
                },
                SessionStage::Closing(ScanOutcome::Enrolled) => {
                    self.stage = SessionStage::Serializing;
                    SessionAction::SerializePrint
                },
                _ => {
                    proof {
                        assert(false);
                    }
                    SessionAction::CloseDevice
                },
            },
        }
    }

    /// The enrolled print was serialized, or could not be.
    pub fn print_serialized(&mut self, ok: bool) -> (a: SessionAction)
        requires
            old(self).stage_now() == SessionStage::Serializing,
        ensures
            final(self).command() == old(self).command(),
            final(self).employee_text() == old(self).employee_text(),
            ok ==> final(self).stage_now() == SessionStage::Saving
                && (a matches SessionAction::SavePrint { employee } && employee@ == old(self).employee_text()),
            !ok ==> final(self).stage_now() == SessionStage::Finished
                && (a matches SessionAction::Finish(r) && r.says(ResponseCode::Failure, serialize_failure_text())),
            stage_rank(final(self).stage_now()) > stage_rank(old(self).stage_now()),
            old(self).command() == SessionKind::Enroll ==> !reads_print_list(a),
    {
        if ok {
            self.stage = SessionStage::Saving;
            SessionAction::SavePrint { employee: self.employee.clone() }
        } else {
            self.stage = SessionStage::Finished;
            SessionAction::Finish(Response::failure(String::from_str("Could not serialize fingerprint")))
        }
    }

    /// The database stored the print, or answered with error `e`.
    pub fn print_saved(&mut self, result: Result<(), String>) -> (a: SessionAction)
        requires
            old(self).stage_now() == SessionStage::Saving,
        ensures
            final(self).command() == old(self).command(),
            final(self).employee_text() == old(self).employee_text(),
            final(self).stage_now() == SessionStage::Finished,
            result is Ok ==> (a matches SessionAction::Finish(r) && r.says(ResponseCode::Success, enrolled_text())),
            result matches Err(e) ==> (a matches SessionAction::Finish(r) && r.says(ResponseCode::Failure, e@)),
            stage_rank(final(self).stage_now()) > stage_rank(old(self).stage_now()),
            old(self).command() == SessionKind::Enroll ==> !reads_print_list(a),
    {
        self.stage = SessionStage::Finished;
        match result {
            Ok(()) => SessionAction::Finish(Response::success(String::from_str("Successfully enrolled fingerprint"))),
            Err(e) => SessionAction::Finish(Response::failure(e)),
        }
    }

    /// The database recorded the attendance and returned its record, or answered
    /// with error `e`.
    pub fn attendance_recorded(&mut self, result: Result<AttendanceRow, String>) -> (a: SessionAction)
        requires
            old(self).stage_now() == SessionStage::Recording,
        ensures
            final(self).command() == old(self).command(),
            final(self).employee_text() == old(self).employee_text(),
            final(self).stage_now() == SessionStage::Finished,
            result matches Ok(row) ==> (a matches SessionAction::Finish(r) && r.lists(ResponseCode::Success, row.columns())),
            result matches Ok(row) ==> (a matches SessionAction::Finish(r) && r.lists(
                ResponseCode::Success,
                seq![row.emp_id@, row.first_name@, row.last_name@, row.time@, row.date@, row.message@],
            )),
            result matches Err(e) ==> (a matches SessionAction::Finish(r) && r.says(ResponseCode::Failure, e@)),
            stage_rank(final(self).stage_now()) > stage_rank(old(self).stage_now()),
            old(self).command() == SessionKind::Enroll ==> !reads_print_list(a),
    {
        self.stage = SessionStage::Finished;
        SessionAction::Finish(attendance_response(result))
    }
}

/// A session gets at most nine reports: each report moves it to a later stage,
/// and the last stage, where it has finished, comes ninth.
pub proof fn session_ends_within_nine_reports(stage: SessionStage)
    ensures
        stage_rank(stage) <= 9,
        stage_rank(stage) == 9 <==> stage is Finished,
{
}

/// The answer to a failed scan tells a cancelled scan from one the scanner gave
/// up on, whatever the scanner's error said.
pub proof fn cancellation_is_told_apart(kind: SessionKind, e1: Seq<char>, e2: Seq<char>)
    ensures
        scan_failure_text(kind, e1, true) != scan_failure_text(kind, e2, false),
{
    reveal_strlit("Fingerprint scan cancelled");
    reveal_strlit("Could not enroll fingerprint due to an error: ");
    reveal_strlit("Could not identify fingerprint due to an error: ");
    assert(scan_failure_text(kind, e1, true)[0] == 'F');
    assert(scan_failure_text(kind, e2, false)[0] == 'C');
}

/// What happens to the shared cancellation token: a cancel request from the front
/// end, or its replacement by a fresh token.
#[derive(Clone, Copy, Debug, PartialEq, Eq, Structural)]
pub enum TokenEvent {
    Cancel,
    Renew,
}

/// Whether the token is cancelled after `events`, starting from `cancelled`.
pub open spec fn token_after(cancelled: bool, events: Seq<TokenEvent>) -> bool
    decreases events.len(),
{
    if events.len() == 0 {
        cancelled
    } else {
        token_after(events[0] == TokenEvent::Cancel, events.drop_first())
    }
}

/// What the caller does to the token on an action: opening the scanner after a
/// cancelled token was reported replaces the token.
pub open spec fn token_events_of(action: SessionAction) -> Seq<TokenEvent> {
    match action {
        SessionAction::OpenDevice { renew_cancellable } => if renew_cancellable {
            seq![TokenEvent::Renew]
        } else {
            Seq::empty()
        },
        _ => Seq::empty(),
    }
}

proof fn lemma_no_cancel_keeps_token_clear(during: Seq<TokenEvent>)
    requires
        forall|i: int| 0 <= i < during.len() ==> during[i] != TokenEvent::Cancel,
    ensures
        !token_after(false, during),
    decreases during.len(),
{
    if during.len() > 0 {
        assert forall|i: int| 0 <= i < during.drop_first().len() implies during.drop_first()[i]
            != TokenEvent::Cancel by {
            assert(during.drop_first()[i] == during[i + 1]);
        }
        lemma_no_cancel_keeps_token_clear(during.drop_first());
    }
}

/// A cancellation left over from an earlier command never cancels this one: the
/// token is checked before the scanner opens (`cancellable_checked` answers
/// `OpenDevice { renew_cancellable: was_cancelled }`) and replaced when it was
/// cancelled. Unless a cancel comes during this command, the token is clear when
/// the scan ends, and a failed scan is answered with the scanner's error, not as
/// a cancellation.
pub proof fn stale_cancellation_never_aborts_the_scan(
    kind: SessionKind,
    was_cancelled: bool,
    during: Seq<TokenEvent>,
    e: Seq<char>,
)
    requires
        forall|i: int| 0 <= i < during.len() ==> during[i] != TokenEvent::Cancel,
    ensures
        !token_after(
            was_cancelled,
            token_events_of(SessionAction::OpenDevice { renew_cancellable: was_cancelled }) + during,
        ),
        scan_failure_text(
            kind,
            e,
            token_after(
                was_cancelled,
                token_events_of(SessionAction::OpenDevice { renew_cancellable: was_cancelled }) + during,
            ),
        ) != scan_failure_text(kind, e, true),
{
    let events = token_events_of(SessionAction::OpenDevice { renew_cancellable: was_cancelled }) + during;
    if was_cancelled {
        assert(events[0] == TokenEvent::Renew);
        assert(events.drop_first() =~= during);
    } else {
        assert(events =~= during);
    }
    lemma_no_cancel_keeps_token_clear(during);
    cancellation_is_told_apart(kind, e, e);
}

} // verus!
