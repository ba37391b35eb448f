use vstd::prelude::*;
use vstd::string::*;

use crate::response::{joined, Response, ResponseCode};
use crate::session::no_device_text;

verus! {

pub open spec fn scanner_connected_text() -> Seq<char> {
    "Fingerprint scanner is connected"@
}

/// Whether a scanner was found when the application started.
pub fn check_fingerprint_scanner(present: bool) -> (r: Response)
    ensures
        present ==> r.says(ResponseCode::Success, scanner_connected_text()),
        !present ==> r.says(ResponseCode::Failure, no_device_text()),
{
    if present {
        Response::success(String::from_str("Fingerprint scanner is connected"))
    } else {
        Response::failure(String::from_str(
            "Device could not be opened. Please try plugging in your fingerprint scanner and restarting the app.",
        ))
    }
}

/// The statement that removes an employee's stored prints.
pub fn deletion_statement() -> (s: &'static str)
    ensures
        s@ == "DELETE FROM enrolled_fingerprints WHERE emp_id = ?"@,
{
    "DELETE FROM enrolled_fingerprints WHERE emp_id = ?"
}

/// The answer to a deletion, given the number of rows removed or the database's
/// error. Removing no row still counts as success.
pub fn deletion_response(result: Result<u64, String>) -> (r: Response)
    ensures
        result is Ok ==> r.says(ResponseCode::Success, "Fingerprint deleted successfully"@),
        result matches Err(e) ==> r.says(ResponseCode::Failure, "Error deleting fingerprint: "@ + e@),
{
    match result {
        Ok(_) => Response::success(String::from_str("Fingerprint deleted successfully")),
        Err(e) => Response::failure(joined("Error deleting fingerprint: ", e.as_str())),
    }
}

/// The statement that stores an enrolled print for an employee.
pub fn save_print_statement() -> (s: &'static str)
    ensures
        s@ == "CALL save_fprint(?,?)"@,
{
    "CALL save_fprint(?,?)"
}

/// The statement that reads every stored print.
pub fn stored_prints_statement() -> (s: &'static str)
    ensures
        s@ == "SELECT fprint FROM enrolled_fingerprints"@,
{
    "SELECT fprint FROM enrolled_fingerprints"
}

/// The greeting of the enrollment window.
pub fn greet(name: &str) -> (s: String)
    ensures
        s@ == "Hello, "@ + name@ + "! You've been greeted from Rust!"@,
{
    let mut s = String::from_str("Hello, ");
    s.append(name);
    s.append("! You've been greeted from Rust!");
    s
}

} // verus!
