use vstd::prelude::*;
use vstd::string::*;

use crate::commands::deletion_response;
use crate::response::{joined, Response, ResponseCode};
use crate::text::{push_signed_decimal, signed_digits};

verus! {

/// A preloaded print carries the username `emp`.
pub open spec fn names_match(name: Option<String>, emp: Seq<char>) -> bool {
    name matches Some(n) && n@ == emp
}

/// No print before position `j` carries the username `emp`.
pub open spec fn no_match_before(names: Seq<Option<String>>, emp: Seq<char>, j: int) -> bool {
    forall|k: int| 0 <= k < j ==> !names_match(#[trigger] names[k], emp)
}

/// Every print that the search looks at has a username: the search stops at the
/// first match, so prints after it may lack one.
pub open spec fn readable_until_match(names: Seq<Option<String>>, emp: Seq<char>) -> bool {
    forall|j: int|
        0 <= j < names.len() && no_match_before(names, emp, j) ==> (#[trigger] names[j]) is Some
}

/// The position of the first preloaded print whose username is `emp`, given the
/// usernames of the preloaded prints in their order.
pub fn find_print(names: &Vec<Option<String>>, emp: &String) -> (r: Option<usize>)
    requires
        readable_until_match(names@, emp@),
    ensures
        r matches Some(i) ==> i < names@.len() && names_match(names@[i as int], emp@)
            && no_match_before(names@, emp@, i as int),
        r is None ==> no_match_before(names@, emp@, names@.len() as int),
{
    let mut i: usize = 0;
    while i < names.len()
        invariant
            i <= names@.len(),
            readable_until_match(names@, emp@),
            no_match_before(names@, emp@, i as int),
        decreases names@.len() - i,
    {
        assert(names@[i as int] is Some);
        match &names[i] {
            Some(n) => {
                if n.eq(emp) {
                    return Some(i);
                }
            },
            None => {},
        }
        assert(!names_match(names@[i as int], emp@));
        i = i + 1;
    }
    None
}

/// Whether the search for `emp` would only meet prints that have a username;
/// the command stops with an error when it would not.
pub fn readable_names(names: &Vec<Option<String>>, emp: &String) -> (b: bool)
    ensures
        b == readable_until_match(names@, emp@),
{
    let mut i: usize = 0;
    while i < names.len()
        invariant
            i <= names@.len(),
            no_match_before(names@, emp@, i as int),
            forall|j: int| 0 <= j < i ==> (#[trigger] names@[j]) is Some,
        decreases names@.len() - i,
    {
        match &names[i] {
            Some(n) => {
                if n.eq(emp) {
                    assert forall|j: int|
                        0 <= j < names@.len() && no_match_before(names@, emp@, j) implies (#[trigger] names@[j]) is Some by {
                        if j > i {
                            assert(!no_match_before(names@, emp@, j) || !names_match(names@[i as int], emp@));
                        }
                    }
                    return true;
                }
            },
            None => {
                assert(!readable_until_match(names@, emp@)) by {
                    assert(no_match_before(names@, emp@, i as int) && names@[i as int] is None);
                }
                return false;
            },
        }
        i = i + 1;
    }
    true
}

/// The prints that decoded before the first that failed, in order.
pub open spec fn decoded_prefix<T>(decoded: Seq<Result<T, String>>) -> Seq<T>
    decreases decoded.len(),
{
    if decoded.len() == 0 {
        Seq::empty()
    } else {
        match decoded[0] {
            Ok(p) => seq![p] + decoded_prefix(decoded.drop_first()),
            Err(_) => Seq::empty(),
        }
    }
}

/// The error of the first print that failed to decode, if any.
pub open spec fn first_decode_error<T>(decoded: Seq<Result<T, String>>) -> Option<Seq<char>>
    decreases decoded.len(),
{
    if decoded.len() == 0 {
        None
    } else {
        match decoded[0] {
            Ok(_) => first_decode_error(decoded.drop_first()),
            Err(e) => Some(e@),
        }
    }
}

pub open spec fn loaded_text() -> Seq<char> {
    "Fingerprints Successfully loaded!"@
}

pub open spec fn decode_failure_text(e: Seq<char>) -> Seq<char> {
    "Could not deserialize one of the fingerprints: "@ + e
}

/// Reloading keeps exactly the run of prints that decoded at the head of the
/// input: each kept print is the decoded print at its position, the run covers
/// the whole input when nothing failed, and otherwise ends at the first print
/// that failed, whose error is the one reported.
pub proof fn loaded_prints_are_the_decoded_run<T>(decoded: Seq<Result<T, String>>)
    ensures
        decoded_prefix(decoded).len() <= decoded.len(),
        forall|i: int|
            0 <= i < decoded_prefix(decoded).len() ==> decoded[i] == Ok::<T, String>(
                #[trigger] decoded_prefix(decoded)[i],
            ),
        first_decode_error(decoded) is None <==> decoded_prefix(decoded).len() == decoded.len(),
        first_decode_error(decoded) matches Some(e) ==> (decoded[decoded_prefix(decoded).len() as int] matches Err(
            x,
        ) && x@ == e),
    decreases decoded.len(),
{
    if decoded.len() > 0 {
        let rest = decoded.drop_first();
        loaded_prints_are_the_decoded_run(rest);
        match decoded[0] {
            Ok(p) => {
                let run = decoded_prefix(decoded);
                assert(run == seq![p] + decoded_prefix(rest));
                assert forall|i: int| 0 <= i < run.len() implies decoded[i] == Ok::<T, String>(#[trigger] run[i]) by {
                    if i > 0 {
                        assert(decoded[i] == rest[i - 1]);
                        assert(run[i] == decoded_prefix(rest)[i - 1]);
                    }
                }
                if first_decode_error(decoded) is Some {
                    assert(decoded[run.len() as int] == rest[decoded_prefix(rest).len() as int]);
                }
            },
            Err(_) => {},
        }
    }
}

/// Replaces the preloaded prints with the prints read from the database, in the
/// order the database returned them. Decoding stops at the first print that does
/// not decode: the list then holds the prints before it, and the error says why.
#[verifier::loop_isolation(false)]
pub fn reload_prints<T>(list: &mut Vec<T>, decoded: Vec<Result<T, String>>) -> (r: Result<String, String>)
    ensures
        final(list)@ == decoded_prefix(decoded@),
        first_decode_error(decoded@) is None ==> (r matches Ok(m) && m@ == loaded_text()),
        first_decode_error(decoded@) matches Some(e) ==> (r matches Err(m) && m@ == decode_failure_text(e)),
        final(list)@.len() <= decoded@.len(),
        forall|i: int| 0 <= i < final(list)@.len() ==> decoded@[i] == Ok::<T, String>(#[trigger] final(list)@[i]),
        r is Ok <==> final(list)@.len() == decoded@.len(),
        r matches Ok(m) ==> m@ == loaded_text(),
        r matches Err(m) ==> (decoded@[final(list)@.len() as int] matches Err(x) && m@ == decode_failure_text(x@)),
{
    proof {
        loaded_prints_are_the_decoded_run(decoded@);
    }
    list.clear();
    let ghost whole = decoded@;
    let mut rest = decoded;
    let ghost mut taken: int = 0;
    assert(whole.skip(0) =~= whole);
    while rest.len() > 0
        invariant
            0 <= taken <= whole.len(),
            rest@ =~= whole.skip(taken),
            decoded_prefix(whole) =~= list@ + decoded_prefix(whole.skip(taken)),
            first_decode_error(whole) == first_decode_error(whole.skip(taken)),
        decreases rest@.len(),
    {
        let item = rest.remove(0);
        proof {
            assert(item == whole.skip(taken)[0]);
            assert(whole.skip(taken).drop_first() =~= whole.skip(taken + 1));
        }
        match item {
            Ok(p) => {
                list.push(p);
                proof {
                    taken = taken + 1;
                }
            },
            Err(e) => {
                proof {
                    let tail = whole.skip(taken);
                    assert(tail[0] is Err);
                    assert(decoded_prefix(tail) =~= Seq::<T>::empty());
                    assert(first_decode_error(tail) == Some(e@));
                    assert(list@ + decoded_prefix(tail) =~= list@);
                }
                return Err(joined("Could not deserialize one of the fingerprints: ", e.as_str()));
            },
        }
    }
    assert(whole.skip(taken).len() == 0);
    Ok(String::from_str("Fingerprints Successfully loaded!"))
}

/// The prints preloaded from the database, against which fingers are verified
/// and identified. Only `reload` changes them: enrolling or deleting a print
/// touches the database alone, and shows here after the next reload.
pub struct PreloadedPrints<T> {
    prints: Vec<T>,
}

impl<T> View for PreloadedPrints<T> {
    type V = Seq<T>;

    closed spec fn view(&self) -> Seq<T> {
        self.prints@
    }
}

impl<T> PreloadedPrints<T> {
    /// No prints, as at startup.
    pub fn new() -> (p: PreloadedPrints<T>)
        ensures
            p@ == Seq::<T>::empty(),
    {
        PreloadedPrints { prints: Vec::new() }
    }

    /// Replaces the prints with those read from the database; see `reload_prints`.
    pub fn reload(&mut self, decoded: Vec<Result<T, String>>) -> (r: Result<String, String>)
        ensures
            final(self)@ == decoded_prefix(decoded@),
            first_decode_error(decoded@) is None ==> (r matches Ok(m) && m@ == loaded_text()),
            first_decode_error(decoded@) matches Some(e) ==> (r matches Err(m) && m@ == decode_failure_text(e)),
            final(self)@.len() <= decoded@.len(),
            forall|i: int| 0 <= i < final(self)@.len() ==> decoded@[i] == Ok::<T, String>(#[trigger] final(self)@[i]),
            r is Ok <==> final(self)@.len() == decoded@.len(),
            r matches Ok(m) ==> m@ == loaded_text(),
            r matches Err(m) ==> (decoded@[final(self)@.len() as int] matches Err(x) && m@ == decode_failure_text(x@)),
    {
        reload_prints(&mut self.prints, decoded)
    }

    /// The answer to the deletion of an employee's prints from the database, given
    /// the rows removed or the database's error. The preloaded prints stay as they
    /// are: a deleted print still matches until the next reload.
    pub fn deletion_answered(&mut self, result: Result<u64, String>) -> (r: Response)
        ensures
            final(self)@ == old(self)@,
            result is Ok ==> r.says(ResponseCode::Success, "Fingerprint deleted successfully"@),
            result matches Err(e) ==> r.says(ResponseCode::Failure, "Error deleting fingerprint: "@ + e@),
    {
        deletion_response(result)
    }

    /// The prints, in order.
    pub fn prints(&self) -> (v: &Vec<T>)
        ensures
            v@ == self@,
    {
        &self.prints
    }
}

/// The answer of the command that reloads the preloaded prints.
pub fn load_response(result: Result<String, String>) -> (r: Response)
    ensures
        result matches Ok(m) ==> r.says(ResponseCode::Success, m@),
        result matches Err(e) ==> r.says(ResponseCode::Failure, e@),
{
    match result {
        Ok(m) => Response::success(m),
        Err(e) => Response::failure(e),
    }
}

/// The match callback of identification: when a preloaded print matched, the
/// scanned print takes its username, which every preloaded print has. `None`
/// leaves the scanned print as it is.
pub fn match_cb(matched_username: Option<Option<String>>) -> (adopt: Option<String>)
    requires
        matched_username matches Some(u) ==> u is Some,
    ensures
        matched_username matches Some(Some(u)) ==> (adopt matches Some(a) && a@ == u@),
        matched_username is None ==> adopt is None,
{
    match matched_username {
        Some(u) => u,
        None => None,
    }
}

/// The progress callback of enrollment: the shared counter, when there is one,
/// counts one more stage; the message names the stage the scanner reached.
pub fn progress_cb(counter: Option<i32>, enroll_stage: i32) -> (res: (Option<i32>, String))
    requires
        counter matches Some(c) ==> c < i32::MAX,
    ensures
        counter matches Some(c) ==> res.0 == Some((c + 1) as i32),
        counter is None ==> res.0 is None,
        res.1@ == "Progress_cb Enroll stage: "@ + signed_digits(enroll_stage as int),
{
    let next = match counter {
        Some(c) => Some(c + 1),
        None => None,
    };
    let mut message = String::from_str("Progress_cb Enroll stage: ");
    push_signed_decimal(&mut message, enroll_stage);
    (next, message)
}

/// The stage callback of enrollment: the message names the stage the scanner reached.
pub fn enroll_cb(enroll_stage: i32) -> (message: String)
    ensures
        message@ == "Enroll_cb Enroll stage: "@ + signed_digits(enroll_stage as int),
{
    let mut message = String::from_str("Enroll_cb Enroll stage: ");
    push_signed_decimal(&mut message, enroll_stage);
    message
}

} // verus!
