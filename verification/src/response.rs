use vstd::prelude::*;
use vstd::string::*;

verus! {

/// Whether a command succeeded, as reported to the front end in `responsecode`.
#[derive(Clone, Copy, Debug, PartialEq, Eq, Structural)]
pub enum ResponseCode {
    Success,
    Failure,
}

/// The `body` of an answer: a message, or the columns of a record.
#[derive(Debug)]
pub enum ResponseBody {
    Text(String),
    Fields(Vec<String>),
}

/// The answer of a command: `{"responsecode": .., "body": ..}`.
#[derive(Debug)]
pub struct Response {
    pub code: ResponseCode,
    pub body: ResponseBody,
}

/// The views of a list of strings.
pub open spec fn texts(v: Seq<String>) -> Seq<Seq<char>> {
    v.map_values(|s: String| s@)
}

impl Response {
    /// This answer carries `code` and the message `text`.
    pub open spec fn says(self, code: ResponseCode, text: Seq<char>) -> bool {
        &&& self.code == code
        &&& self.body matches ResponseBody::Text(t) && t@ == text
    }

    /// This answer carries `code` and the columns `fields`.
    pub open spec fn lists(self, code: ResponseCode, fields: Seq<Seq<char>>) -> bool {
        &&& self.code == code
        &&& self.body matches ResponseBody::Fields(f) && texts(f@) == fields
    }

    pub fn success(text: String) -> (r: Response)
        ensures
            r.says(ResponseCode::Success, text@),
    {
        Response { code: ResponseCode::Success, body: ResponseBody::Text(text) }
    }

    pub fn failure(text: String) -> (r: Response)
        ensures
            r.says(ResponseCode::Failure, text@),
    {
        Response { code: ResponseCode::Failure, body: ResponseBody::Text(text) }
    }

    pub fn success_fields(fields: Vec<String>) -> (r: Response)
        ensures
            r.lists(ResponseCode::Success, texts(fields@)),
    {
        Response { code: ResponseCode::Success, body: ResponseBody::Fields(fields) }
    }

    /// The word that stands in `responsecode`.
    pub fn code_word(&self) -> (w: &'static str)
        ensures
            self.code == ResponseCode::Success ==> w@ == "success"@,
            self.code == ResponseCode::Failure ==> w@ == "failure"@,
    {
        match self.code {
            ResponseCode::Success => "success",
            ResponseCode::Failure => "failure",
        }
    }
}

/// `prefix` followed by `rest`, as a new string.
pub fn joined(prefix: &str, rest: &str) -> (s: String)
    ensures
        s@ == prefix@ + rest@,
{
    let mut s = String::from_str(prefix);
    s.append(rest);
    s
}

} // verus!
