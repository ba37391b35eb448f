use vstd::prelude::*;
use vstd::string::*;

use crate::response::{joined, texts, Response, ResponseCode};

verus! {

/// The record that the attendance procedures return: who was recorded, when, and
/// the procedure's own message about the attendance.
#[derive(Debug)]
pub struct AttendanceRow {
    pub emp_id: String,
    pub first_name: String,
    pub last_name: String,
    pub date: String,
    pub time: String,
    pub message: String,
}

impl AttendanceRow {
    /// The columns of the answer, in the order the front end reads them: the time
    /// comes before the date.
    pub open spec fn columns(self) -> Seq<Seq<char>> {
        seq![
            self.emp_id@,
            self.first_name@,
            self.last_name@,
            self.time@,
            self.date@,
            self.message@,
        ]
    }

    pub fn fields(self) -> (v: Vec<String>)
        ensures
            texts(v@) == self.columns(),
            texts(v@) == seq![self.emp_id@, self.first_name@, self.last_name@, self.time@, self.date@, self.message@],
    {
        let ghost cols = self.columns();
        let mut v: Vec<String> = Vec::new();
        v.push(self.emp_id);
        v.push(self.first_name);
        v.push(self.last_name);
        v.push(self.time);
        v.push(self.date);
        v.push(self.message);
        assert(texts(v@) =~= cols);
        v
    }
}

/// Whatever a record holds, its answer lists six columns: the employee's ID, first
/// and last names, then the time, then the date, then the procedure's message.
pub proof fn answer_puts_time_before_date(row: AttendanceRow)
    ensures
        row.columns().len() == 6,
        row.columns()[0] == row.emp_id@,
        row.columns()[1] == row.first_name@,
        row.columns()[2] == row.last_name@,
        row.columns()[3] == row.time@,
        row.columns()[4] == row.date@,
        row.columns()[5] == row.message@,
{
}

/// The answer to an attempt to record attendance: the record's columns, or the
/// database's error message.
pub fn attendance_response(result: Result<AttendanceRow, String>) -> (r: Response)
    ensures
        result matches Ok(row) ==> r.lists(ResponseCode::Success, row.columns()),
        result matches Ok(row) ==> r.lists(
            ResponseCode::Success,
            seq![row.emp_id@, row.first_name@, row.last_name@, row.time@, row.date@, row.message@],
        ),
        result matches Err(e) ==> r.says(ResponseCode::Failure, e@),
{
    match result {
        Ok(row) => Response::success_fields(row.fields()),
        Err(e) => Response::failure(e),
    }
}

/// A column that could not be read is shown as `error`.
pub fn column_text(value: Option<String>) -> (s: String)
    ensures
        value matches Some(v) ==> s@ == v@,
        value is None ==> s@ == "error"@,
{
    match value {
        Some(v) => v,
        None => String::from_str("error"),
    }
}

/// The longest employee ID, in bytes, that manual attendance accepts.
pub open spec fn max_manual_id_bytes() -> nat {
    9
}

pub open spec fn manual_id_too_long_text() -> Seq<char> {
    "Employee ID should be 9 characters or less. e.g. 12-345-67."@
}

/// Manual attendance refuses an employee ID longer than nine bytes (`str::len`) before it
/// reaches the database; `None` means the ID may be recorded.
pub fn manual_attendance_refusal(emp: &str) -> (r: Option<Response>)
    ensures
        r is Some <==> emp.len() > max_manual_id_bytes(),
        r matches Some(resp) ==> resp.says(ResponseCode::Failure, manual_id_too_long_text()),
{
    if emp.len() > 9 {
        Some(Response::failure(String::from_str("Employee ID should be 9 characters or less. e.g. 12-345-67.")))
    } else {
        None
    }
}

/// The stored procedure that records attendance: by employee ID for manual
/// attendance, or after checking the fingerprint's identifier otherwise.
pub fn attendance_statement(manual: bool) -> (s: &'static str)
    ensures
        manual ==> s@ == "CALL record_attendance_by_empid(?)"@,
        !manual ==> s@ == "CALL check_fprint_and_record_attendance(?)"@,
{
    if manual {
        "CALL record_attendance_by_empid(?)"
    } else {
        "CALL check_fprint_and_record_attendance(?)"
    }
}

/// The stored procedure with which the attendance daemon records the attendance
/// of a scanned print, by its identifier.
pub fn identifier_attendance_statement() -> (s: &'static str)
    ensures
        s@ == "CALL record_attendance(?)"@,
{
    "CALL record_attendance(?)"
}

/// The query for the names of the employee whose print has a given identifier.
pub fn name_by_identifier_statement() -> (s: &'static str)
    ensures
        s@ == "SELECT enrolled_fingerprints.fprint_uuid AS \"uuid\", employee.fname AS \"fname\", employee.mname AS \"mname\", employee.lname AS \"lname\" FROM enrolled_fingerprints JOIN employee USING(emp_id) WHERE fprint_uuid = ?"@,
{
    "SELECT enrolled_fingerprints.fprint_uuid AS \"uuid\", employee.fname AS \"fname\", employee.mname AS \"mname\", employee.lname AS \"lname\" FROM enrolled_fingerprints JOIN employee USING(emp_id) WHERE fprint_uuid = ?"
}

/// The query for the names of a production employee by employee ID.
pub fn name_by_employee_statement() -> (s: &'static str)
    ensures
        s@ == "SELECT employee.emp_id AS \"emp_id\", employee.fname AS \"fname\", employee.mname AS \"mname\", employee.lname AS \"lname\" FROM employee WHERE role_code = 2 AND emp_id = ?"@,
{
    "SELECT employee.emp_id AS \"emp_id\", employee.fname AS \"fname\", employee.mname AS \"mname\", employee.lname AS \"lname\" FROM employee WHERE role_code = 2 AND emp_id = ?"
}

/// An employee's name as the daemon shows it: the middle name stands between the
/// first and last names when there is one, and single spaces separate the parts.
pub open spec fn full_name_text(first: Seq<char>, middle: Option<Seq<char>>, last: Seq<char>) -> Seq<char> {
    match middle {
        Some(m) => first + " "@ + m + " "@ + last,
        None => first + " "@ + last,
    }
}

pub fn full_name(first: &str, middle: Option<&str>, last: &str) -> (s: String)
    ensures
        s@ == full_name_text(first@, match middle { Some(m) => Some(m@), None => None }, last@),
{
    let mut s = String::from_str(first);
    s.append(" ");
    match middle {
        Some(m) => {
            s.append(m);
            s.append(" ");
        },
        None => {},
    }
    s.append(last);
    s
}

/// What the daemon says after recording attendance for `name`; the message of a
/// scanned attendance ends with a line break.
pub fn recorded_announcement(name: &str, manual: bool) -> (s: String)
    ensures
        manual ==> s@ == "Attendance manually recorded for "@ + name@,
        !manual ==> s@ == "Attendance recorded for "@ + name@ + "\n"@,
{
    if manual {
        joined("Attendance manually recorded for ", name)
    } else {
        let mut s = joined("Attendance recorded for ", name);
        s.append("\n");
        s
    }
}

/// What one scan of the attendance daemon came to.
#[derive(Clone, Copy, Debug, PartialEq, Eq, Structural)]
pub enum ScanResult {
    /// No enrolled print matched the finger.
    NoMatch,
    /// A print matched but carries no identifier.
    NoIdentifier,
    /// A print matched and its attendance was recorded.
    Recorded,
    /// A print matched but recording its attendance failed.
    NotRecorded,
}

/// After this many failed scans in a row the daemon asks for manual attendance.
pub open spec fn manual_threshold() -> nat {
    3
}

/// The count of failed scans after one more scan: a recorded attendance starts
/// over, a scan whose print has no identifier leaves the count alone, and every
/// other scan adds one.
pub open spec fn next_tries(tries: nat, result: ScanResult) -> nat {
    match result {
        ScanResult::Recorded => 0,
        ScanResult::NoIdentifier => tries,
        ScanResult::NoMatch => tries + 1,
        ScanResult::NotRecorded => tries + 1,
    }
}

/// The count after a series of scans, the first one first.
pub open spec fn tries_after(tries: nat, results: Seq<ScanResult>) -> nat
    decreases results.len(),
{
    if results.len() == 0 {
        tries
    } else {
        tries_after(next_tries(tries, results[0]), results.drop_first())
    }
}

/// The attendance daemon's count of failed scans in a row. It never passes the
/// threshold: once it reaches it, the daemon takes attendance by hand instead of
/// scanning.
pub struct RetryCounter {
    tries: u8,
}

impl RetryCounter {
    #[verifier::type_invariant]
    spec fn within_threshold(self) -> bool {
        self.tries <= 3
    }

    pub closed spec fn tries(self) -> nat {
        self.tries as nat
    }

    pub fn new() -> (c: RetryCounter)
        ensures
            c.tries() == 0,
    {
        RetryCounter { tries: 0 }
    }

    /// The count, as a number.
    pub fn count(&self) -> (n: u8)
        ensures
            n as nat == self.tries(),
    {
        self.tries
    }

    /// Whether the daemon must take attendance by hand before it scans again.
    pub fn manual_required(&self) -> (b: bool)
        ensures
            b == (self.tries() >= manual_threshold()),
    {
        self.tries >= 3
    }

    /// Counts one more scan; the daemon only scans below the threshold.
    pub fn record(&mut self, result: ScanResult)
        requires
            old(self).tries() < manual_threshold(),
        ensures
            final(self).tries() == next_tries(old(self).tries(), result),
            final(self).tries() <= manual_threshold(),
    {
        proof {
            use_type_invariant(&*self);
        }
        match result {
            ScanResult::Recorded => {
                self.tries = 0;
            },
            ScanResult::NoIdentifier => {},
            ScanResult::NoMatch | ScanResult::NotRecorded => {
                self.tries = self.tries + 1;
            },
        }
    }

    /// Manual attendance was recorded: the count of failed scans starts over.
    pub fn reset(&mut self)
        ensures
            final(self).tries() == 0,
    {
        self.tries = 0;
    }
}

/// What the daemon shows after a scan that did not record attendance.
pub fn scan_result_message(result: ScanResult) -> (m: Option<&'static str>)
    ensures
        result == ScanResult::Recorded ==> m is None,
        result == ScanResult::NoMatch ==> (m matches Some(s) && s@ == "No matching fingerprint could be found"@),
        result == ScanResult::NoIdentifier ==> (m matches Some(s) && s@ == "UUID could not be retrieved"@),
        result == ScanResult::NotRecorded ==> (m matches Some(s) && s@ == "Attendance could not be recorded"@),
{
    match result {
        ScanResult::Recorded => None,
        ScanResult::NoMatch => Some("No matching fingerprint could be found"),
        ScanResult::NoIdentifier => Some("UUID could not be retrieved"),
        ScanResult::NotRecorded => Some("Attendance could not be recorded"),
    }
}

/// A scan counts as failed when it matched no print or its attendance could not
/// be recorded.
pub open spec fn counts_as_failure(result: ScanResult) -> bool {
    result == ScanResult::NoMatch || result == ScanResult::NotRecorded
}

/// From any count, scans that all fail add one each, so three failed scans in a
/// row from a fresh start reach the threshold and ask for manual attendance.
pub proof fn failed_scans_add_up(tries: nat, results: Seq<ScanResult>)
    requires
        forall|i: int| 0 <= i < results.len() ==> counts_as_failure(#[trigger] results[i]),
    ensures
        tries_after(tries, results) == tries + results.len(),
    decreases results.len(),
{
    if results.len() > 0 {
        assert forall|i: int| 0 <= i < results.drop_first().len() implies counts_as_failure(
            #[trigger] results.drop_first()[i],
        ) by {
            assert(results.drop_first()[i] == results[i + 1]);
        }
        failed_scans_add_up(tries + 1, results.drop_first());
    }
}

/// A recorded attendance wipes out every failure before it: the count after it
/// is that of the scans after it alone.
pub proof fn recorded_attendance_starts_over(tries: nat, before: Seq<ScanResult>, after: Seq<ScanResult>)
    ensures
        tries_after(tries, before + seq![ScanResult::Recorded] + after) == tries_after(0, after),
    decreases before.len(),
{
    if before.len() == 0 {
        let s = before + seq![ScanResult::Recorded] + after;
        assert(s.drop_first() =~= after);
    } else {
        let s = before + seq![ScanResult::Recorded] + after;
        assert(s.drop_first() =~= before.drop_first() + seq![ScanResult::Recorded] + after);
        recorded_attendance_starts_over(next_tries(tries, before[0]), before.drop_first(), after);
    }
}

/// The failed scans since the last recorded attendance (or since the start): a
/// scan whose print has no identifier is not counted.
pub open spec fn failures_since_success(results: Seq<ScanResult>) -> nat
    decreases results.len(),
{
    if results.len() == 0 {
        0
    } else {
        match results.last() {
            ScanResult::Recorded => 0,
            ScanResult::NoIdentifier => failures_since_success(results.drop_last()),
            _ => failures_since_success(results.drop_last()) + 1,
        }
    }
}

proof fn lemma_tries_after_push(tries: nat, results: Seq<ScanResult>, r: ScanResult)
    ensures
        tries_after(tries, results.push(r)) == next_tries(tries_after(tries, results), r),
    decreases results.len(),
{
    if results.len() == 0 {
        assert(results.push(r).drop_first() =~= Seq::<ScanResult>::empty());
        assert(results.push(r)[0] == r);
        assert(tries_after(next_tries(tries, r), Seq::<ScanResult>::empty()) == next_tries(tries, r));
        assert(tries_after(tries, results) == tries);
    } else {
        assert(results.push(r).drop_first() =~= results.drop_first().push(r));
        assert(results.push(r)[0] == results[0]);
        lemma_tries_after_push(next_tries(tries, results[0]), results.drop_first(), r);
    }
}

/// The daemon's count is the number of failed scans since the last recorded
/// attendance, so with the check before every scan it asks for manual attendance
/// right after the third failure in a row, and never earlier.
pub proof fn count_is_failures_since_last_success(results: Seq<ScanResult>)
    ensures
        tries_after(0, results) == failures_since_success(results),
    decreases results.len(),
{
    if results.len() > 0 {
        let init = results.drop_last();
        count_is_failures_since_last_success(init);
        assert(init.push(results.last()) =~= results);
        lemma_tries_after_push(0, init, results.last());
    }
}

/// What the attendance daemon does next.
#[derive(Debug, PartialEq, Eq, Structural)]
pub enum LoopStep {
    /// Scan a finger.
    Scan,
    /// Ask for employee IDs until one is recorded by hand.
    ManualAttendance,
    /// Stop: attendance was taken by hand.
    Done,
}

/// What follows an identification.
#[derive(Debug)]
pub enum AfterScan {
    /// Record the attendance of the print with this identifier.
    RecordAttendance(String),
    /// The scan is over and counted as this.
    Counted(ScanResult),
}

/// The attendance daemon's decisions: scan until three scans in a row have
/// failed, then take attendance by hand once and stop. It keeps the results of
/// the scans so far, and its count is always the number of failed scans since
/// the last recorded attendance among them.
pub struct AttendanceLoop {
    counter: RetryCounter,
    finished: bool,
    scans: Ghost<Seq<ScanResult>>,
}

impl AttendanceLoop {
    #[verifier::type_invariant]
    spec fn counts_its_scans(self) -> bool {
        !self.finished ==> self.counter.tries() == failures_since_success(self.scans@)
    }

    pub closed spec fn tries(self) -> nat {
        self.counter.tries()
    }

    pub closed spec fn finished(self) -> bool {
        self.finished
    }

    /// The results of the scans so far, the first one first; a scan whose
    /// attendance is still being recorded is not among them yet.
    pub closed spec fn scans(self) -> Seq<ScanResult> {
        self.scans@
    }

    pub fn new() -> (l: AttendanceLoop)
        ensures
            l.tries() == 0,
            !l.finished(),
            l.scans() == Seq::<ScanResult>::empty(),
            l.tries() == failures_since_success(l.scans()),
    {
        AttendanceLoop { counter: RetryCounter::new(), finished: false, scans: Ghost(Seq::empty()) }
    }

    /// The failed scans counted so far.
    pub fn count(&self) -> (n: u8)
        ensures
            n as nat == self.tries(),
            !self.finished() ==> n as nat == failures_since_success(self.scans()),
    {
        proof {
            use_type_invariant(self);
        }
        self.counter.count()
    }

    /// Scan, or take attendance by hand once three scans in a row have failed
    /// since the last recorded attendance, or stop once that is done.
    pub fn next_step(&self) -> (s: LoopStep)
        ensures
            self.finished() ==> s == LoopStep::Done,
            !self.finished() && self.tries() >= manual_threshold() ==> s == LoopStep::ManualAttendance,
            !self.finished() && self.tries() < manual_threshold() ==> s == LoopStep::Scan,
            !self.finished() ==> (s == LoopStep::ManualAttendance <==> failures_since_success(self.scans())
                >= manual_threshold()),
    {
        proof {
            use_type_invariant(self);
        }
        if self.finished {
            LoopStep::Done
        } else if self.counter.manual_required() {
            LoopStep::ManualAttendance
        } else {
            LoopStep::Scan
        }
    }

    fn counted(&mut self, r: ScanResult)
        requires
            !old(self).finished(),
            old(self).tries() < manual_threshold(),
        ensures
            !final(self).finished() ==> final(self).tries() == failures_since_success(final(self).scans()),
            !final(self).finished(),
            final(self).scans() == old(self).scans().push(r),
            final(self).tries() == next_tries(old(self).tries(), r),
    {
        proof {
            use_type_invariant(&*self);
            use_type_invariant(&self.counter);
        }
        let mut counter = RetryCounter { tries: self.counter.tries };
        counter.record(r);
        let ghost scans = self.scans@.push(r);
        proof {
            assert(scans.drop_last() =~= self.scans@);
        }
        *self = AttendanceLoop { counter, finished: false, scans: Ghost(scans) };
        proof {
            use_type_invariant(&*self);
        }
    }

    /// The scanner identified the finger as the print with identifier
    /// `Some(Some(id))`, as a print without identifier `Some(None)`, or as no print.
    pub fn identified(&mut self, matched: Option<Option<String>>) -> (next: AfterScan)
        requires
            !old(self).finished(),
            old(self).tries() < manual_threshold(),
        ensures
            !final(self).finished() ==> final(self).tries() == failures_since_success(final(self).scans()),
            !final(self).finished(),
            matched is None ==> (next matches AfterScan::Counted(r) && r == ScanResult::NoMatch)
                && final(self).tries() == old(self).tries() + 1
                && final(self).scans() == old(self).scans().push(ScanResult::NoMatch),
            matched matches Some(None) ==> (next matches AfterScan::Counted(r) && r == ScanResult::NoIdentifier)
                && final(self).tries() == old(self).tries()
                && final(self).scans() == old(self).scans().push(ScanResult::NoIdentifier),
            matched matches Some(Some(id)) ==> (next matches AfterScan::RecordAttendance(i) && i@ == id@)
                && final(self).tries() == old(self).tries() && final(self).scans() == old(self).scans(),
    {
        match matched {
            None => {
                self.counted(ScanResult::NoMatch);
                AfterScan::Counted(ScanResult::NoMatch)
            },
            Some(None) => {
                self.counted(ScanResult::NoIdentifier);
                AfterScan::Counted(ScanResult::NoIdentifier)
            },
            Some(Some(id)) => {
                proof {
                    use_type_invariant(&*self);
                }
                AfterScan::RecordAttendance(id)
            },
        }
    }

    /// The attendance of the identified print was recorded, or not.
    pub fn attendance_recorded(&mut self, ok: bool) -> (r: ScanResult)
        requires
            !old(self).finished(),
            old(self).tries() < manual_threshold(),
        ensures
            !final(self).finished() ==> final(self).tries() == failures_since_success(final(self).scans()),
            !final(self).finished(),
            final(self).scans() == old(self).scans().push(r),
            ok ==> r == ScanResult::Recorded && final(self).tries() == 0,
            !ok ==> r == ScanResult::NotRecorded && final(self).tries() == old(self).tries() + 1,
    {
        let r = if ok { ScanResult::Recorded } else { ScanResult::NotRecorded };
        self.counted(r);
        r
    }

    /// An employee ID typed by hand was recorded, or not; once one is, the daemon stops.
    pub fn manual_recorded(&mut self, ok: bool)
        requires
            !old(self).finished(),
            old(self).tries() >= manual_threshold(),
        ensures
            !final(self).finished() ==> final(self).tries() == failures_since_success(final(self).scans()),
            final(self).scans() == old(self).scans(),
            ok ==> final(self).finished() && final(self).tries() == 0,
            !ok ==> !final(self).finished() && final(self).tries() == old(self).tries(),
    {
        proof {
            use_type_invariant(&*self);
        }
        if ok {
            let ghost scans = self.scans@;
            *self = AttendanceLoop { counter: RetryCounter::new(), finished: true, scans: Ghost(scans) };
        }
    }
}

/// Over a whole run: whatever scans the daemon has made, its count is the number
/// of failed scans since the last recorded attendance, and it turns to manual
/// attendance exactly when that number reaches three.
pub proof fn loop_count_follows_the_run(l: AttendanceLoop)
    requires
        !l.finished(),
        l.tries() == failures_since_success(l.scans()),
    ensures
        l.tries() == tries_after(0, l.scans()),
{
    count_is_failures_since_last_success(l.scans());
}

} // verus!
