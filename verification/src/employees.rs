use vstd::prelude::*;
use vstd::string::*;

use crate::response::{joined, texts};
use crate::text::{
    decimal, decimal_digits, decimal_round_trip, digits_are_not_trimmed, parse_usize_line, trimmed, unsigned_value,
};

verus! {

/// The stored procedure that lists enrolled or unenrolled employees as JSON.
pub fn listing_statement(enrolled: bool) -> (s: &'static str)
    ensures
        enrolled ==> s@ == "CALL enumerate_enrolled_employees_json"@,
        !enrolled ==> s@ == "CALL enumerate_unenrolled_employees_json"@,
{
    if enrolled {
        "CALL enumerate_enrolled_employees_json"
    } else {
        "CALL enumerate_unenrolled_employees_json"
    }
}

pub open spec fn no_employees_text() -> Seq<char> {
    "No unenrolled employees found"@
}

/// The listing from the rows that the procedure returned, each row one JSON text:
/// the last row is the answer, and no row at all is an error. The same message
/// serves both listings.
pub fn employee_listing(rows: Vec<String>) -> (r: Result<String, String>)
    ensures
        rows@.len() == 0 ==> (r matches Err(e) && e@ == no_employees_text()),
        rows@.len() > 0 ==> (r matches Ok(json) && json@ == rows@.last()@),
{
    let mut rows = rows;
    match rows.pop() {
        Some(last) => Ok(last),
        None => Err(String::from_str("No unenrolled employees found")),
    }
}

/// The stored procedure that lists the employees awaiting enrollment, one row
/// each: ID, first name, last name.
pub fn candidates_statement() -> (s: &'static str)
    ensures
        s@ == "CALL enumerate_unenrolled_employees"@,
{
    "CALL enumerate_unenrolled_employees"
}

/// The enrollment tool stops with this message when no employee awaits enrollment.
pub fn no_candidates(count: usize) -> (m: Option<&'static str>)
    ensures
        count == 0 ==> (m matches Some(s) && s@ == no_employees_text()),
        count > 0 ==> m is None,
{
    if count == 0 {
        Some("No unenrolled employees found")
    } else {
        None
    }
}

/// The message of the `error` field when a listing failed with `e`.
pub fn listing_failure(enrolled: bool, e: &str) -> (s: String)
    ensures
        enrolled ==> s@ == "Could not enumerate enrolled employees: "@ + e@,
        !enrolled ==> s@ == "Could not enumerate unenrolled employees: "@ + e@,
{
    if enrolled {
        joined("Could not enumerate enrolled employees: ", e)
    } else {
        joined("Could not enumerate unenrolled employees: ", e)
    }
}

/// The header of the table of employees that the enrollment tool prints.
pub fn table_header() -> (v: Vec<String>)
    ensures
        texts(v@) == seq!["Row Number"@, "Employee ID"@, "First Name"@, "Last Name"@],
{
    let mut v: Vec<String> = Vec::new();
    v.push(String::from_str("Row Number"));
    v.push(String::from_str("Employee ID"));
    v.push(String::from_str("First Name"));
    v.push(String::from_str("Last Name"));
    assert(texts(v@) =~= seq!["Row Number"@, "Employee ID"@, "First Name"@, "Last Name"@]);
    v
}

/// One row of that table: the row's number, which the user types to choose the
/// employee, then the employee's ID and names.
pub fn table_row(row_number: usize, emp_id: u64, first_name: &str, last_name: &str) -> (v: Vec<String>)
    ensures
        texts(v@) == seq![
            decimal_digits(row_number as nat),
            decimal_digits(emp_id as nat),
            first_name@,
            last_name@,
        ],
{
    let mut v: Vec<String> = Vec::new();
    v.push(decimal(row_number as u64));
    v.push(decimal(emp_id));
    v.push(String::from_str(first_name));
    v.push(String::from_str(last_name));
    assert(texts(v@) =~= seq![
        decimal_digits(row_number as nat),
        decimal_digits(emp_id as nat),
        first_name@,
        last_name@,
    ]);
    v
}

/// What a line typed at the row prompt chooses.
#[derive(Debug, PartialEq, Eq, Structural)]
pub enum RowChoice {
    /// The row with this number.
    Selected(usize),
    /// A number with no row; the prompt repeats.
    Missing(usize),
    /// Not a number; the prompt repeats.
    Invalid,
}

/// The choice that the text `t` (already trimmed) makes among `rows` rows.
pub open spec fn row_choice(t: Seq<char>, rows: nat) -> RowChoice {
    match unsigned_value(t, usize::MAX as nat) {
        Some(n) => if n < rows { RowChoice::Selected(n as usize) } else { RowChoice::Missing(n as usize) },
        None => RowChoice::Invalid,
    }
}

/// Reads the row number that the user typed.
pub fn choose_row(line: &str, rows: usize) -> (c: RowChoice)
    ensures
        c == row_choice(trimmed(line@), rows as nat),
        c matches RowChoice::Selected(n) ==> n < rows && unsigned_value(trimmed(line@), usize::MAX as nat) == Some(
            n as nat,
        ),
        c matches RowChoice::Missing(n) ==> rows <= n && unsigned_value(trimmed(line@), usize::MAX as nat) == Some(
            n as nat,
        ),
        c is Invalid <==> unsigned_value(trimmed(line@), usize::MAX as nat) is None,
        (match unsigned_value(trimmed(line@), usize::MAX as nat) {
            Some(n) => rows <= n ==> c == RowChoice::Missing(n as usize),
            None => true,
        }),
{
    match parse_usize_line(line) {
        Some(n) => if n < rows { RowChoice::Selected(n) } else { RowChoice::Missing(n) },
        None => RowChoice::Invalid,
    }
}

/// What the prompt says before it asks again; `None` once a row is chosen.
pub fn row_choice_message(c: &RowChoice) -> (m: Option<String>)
    ensures
        c matches RowChoice::Selected(_) ==> m is None,
        c matches RowChoice::Missing(n) ==> (m matches Some(s) && s@ == "Row number "@ + decimal_digits(
            n as nat,
        ) + " does not exist in the table, please try again"@),
        c matches RowChoice::Invalid ==> (m matches Some(s) && s@ == "Invalid input, please try again"@),
{
    match c {
        RowChoice::Selected(_) => None,
        RowChoice::Missing(n) => {
            let mut s = String::from_str("Row number ");
            s.append(decimal(*n as u64).as_str());
            s.append(" does not exist in the table, please try again");
            Some(s)
        },
        RowChoice::Invalid => Some(String::from_str("Invalid input, please try again")),
    }
}

/// Typing the number printed in a row of the table, with or without the white
/// space around it that `choose_row` ignores, chooses that row.
pub proof fn printed_row_number_chooses_its_row(k: nat, rows: nat)
    requires
        k < rows,
        rows <= usize::MAX,
    ensures
        row_choice(trimmed(decimal_digits(k)), rows) == RowChoice::Selected(k as usize),
{
    decimal_round_trip(k, usize::MAX as nat);
    digits_are_not_trimmed(decimal_digits(k));
}

/// Whatever is typed, a chosen row lies in the table and is the number typed; a
/// number past the last row chooses nothing and is answered as missing; and
/// anything that is not a number is invalid.
pub proof fn chosen_row_lies_in_the_table(t: Seq<char>, rows: nat)
    ensures
        row_choice(t, rows) matches RowChoice::Selected(n) ==> n < rows && unsigned_value(t, usize::MAX as nat)
            == Some(n as nat),
        row_choice(t, rows) matches RowChoice::Missing(n) ==> rows <= n && unsigned_value(t, usize::MAX as nat)
            == Some(n as nat),
        row_choice(t, rows) is Invalid <==> unsigned_value(t, usize::MAX as nat) is None,
{
}

/// Typing the number of a row past the end of the table chooses nothing: the
/// prompt says that row does not exist.
pub proof fn number_past_the_table_is_missing(k: nat, rows: nat)
    requires
        rows <= k,
        k <= usize::MAX,
    ensures
        row_choice(trimmed(decimal_digits(k)), rows) == RowChoice::Missing(k as usize),
{
    decimal_round_trip(k, usize::MAX as nat);
    digits_are_not_trimmed(decimal_digits(k));
}

} // verus!
