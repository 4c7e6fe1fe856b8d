//! What comes back from a remote call, and the answers of the bot's own two
//! HTTP routes.

use vstd::prelude::*;
use vstd::string::*;

verus! {

/// How a call to a remote service ended.
#[derive(Debug, PartialEq, Eq)]
pub enum HttpOutcome {
    /// No reply arrived, or its body could not be read.
    Failed,
    /// A reply arrived, with this status code and this body.
    Replied { status: u16, body: Vec<u8> },
}

/// Whether `status` is one of the success codes, 200 to 299.
pub open spec fn status_is_success(status: int) -> bool {
    200 <= status < 300
}

/// Whether `status` is one of the success codes, 200 to 299.
pub fn is_success(status: u16) -> (r: bool)
    ensures
        r == status_is_success(status as int),
{
    200 <= status && status < 300
}

impl HttpOutcome {
    /// The body of a reply with a success code, `None` for every other outcome.
    pub open spec fn accepted_body(self) -> Option<Seq<u8>> {
        match self {
            HttpOutcome::Failed => None,
            HttpOutcome::Replied { status, body } => if status_is_success(status as int) {
                Some(body@)
            } else {
                None
            },
        }
    }

    /// The body of a reply with a success code, `None` for every other outcome.
    pub fn body_if_success(&self) -> (r: Option<&Vec<u8>>)
        ensures
            match r {
                Some(body) => self.accepted_body() == Some(body@),
                None => self.accepted_body() is None,
            },
    {
        match self {
            HttpOutcome::Failed => None,
            HttpOutcome::Replied { status, body } => if is_success(*status) {
                Some(body)
            } else {
                None
            },
        }
    }
}

/// The outcome of a call that was answered with `status`, given the body
/// of the reply where it could be read. A reply with a success status and
/// an unreadable body counts as a failed call; under any other status the
/// body does not matter, and an unreadable one counts as empty.
pub fn reply_outcome(status: u16, body: Option<Vec<u8>>) -> (r: HttpOutcome)
    ensures
        match body {
            Some(bytes) => r == (HttpOutcome::Replied { status, body: bytes }),
            None => if status_is_success(status as int) {
                r == HttpOutcome::Failed
            } else {
                r is Replied && r->status == status && r->body@ == Seq::<u8>::empty()
            },
        },
{
    match body {
        Some(bytes) => HttpOutcome::Replied { status, body: bytes },
        None => if is_success(status) {
            HttpOutcome::Failed
        } else {
            HttpOutcome::Replied { status, body: Vec::new() }
        },
    }
}

/// A call that posts a form: the address and the fields, in order.
#[derive(Debug, PartialEq, Eq)]
pub struct FormCall {
    pub url: String,
    pub fields: Vec<(String, String)>,
}

/// The names and values of a form as texts.
pub open spec fn fields_text(fields: Seq<(String, String)>) -> Seq<(Seq<char>, Seq<char>)> {
    Seq::new(fields.len(), |i: int| (fields[i].0@, fields[i].1@))
}

/// How the request for a stored picture is answered.
#[derive(Clone, Copy, Debug, PartialEq, Eq, Structural)]
pub enum ImageAnswer {
    /// The file is sent.
    File,
    /// No file of that name is in the folder.
    NotFound,
    /// The file is there and could not be opened.
    OpenFailed,
}

/// The status code and the body of an answer without a file.
#[derive(Clone, Copy, Debug, PartialEq, Eq)]
pub struct TextReply {
    pub status: u16,
    pub body: &'static str,
}

/// Decides the answer to `GET /images/{name}` from what the folder showed:
/// whether a file of that name exists and, if so, whether it opened. A name
/// that is not on disk is answered with `NotFound`, whatever else holds.
pub fn answer_image_request(exists: bool, opened: bool) -> (r: ImageAnswer)
    ensures
        !exists ==> r == ImageAnswer::NotFound,
        exists && opened ==> r == ImageAnswer::File,
        exists && !opened ==> r == ImageAnswer::OpenFailed,
{
    if !exists {
        ImageAnswer::NotFound
    } else if opened {
        ImageAnswer::File
    } else {
        ImageAnswer::OpenFailed
    }
}

impl ImageAnswer {
    /// The status code of this answer.
    pub open spec fn status_code(self) -> int {
        match self {
            ImageAnswer::File => 200,
            ImageAnswer::NotFound => 404,
            ImageAnswer::OpenFailed => 500,
        }
    }

    /// The status code of this answer: 200, 404 or 500.
    pub fn status(&self) -> (r: u16)
        ensures
            r == self.status_code(),
    {
        match self {
            ImageAnswer::File => 200,
            ImageAnswer::NotFound => 404,
            ImageAnswer::OpenFailed => 500,
        }
    }

    /// The reply to send in place of the file, `None` where the file is sent.
    pub fn text_reply(&self) -> (r: Option<TextReply>)
        ensures
            *self == ImageAnswer::File <==> r is None,
            *self == ImageAnswer::NotFound ==> r is Some && r->Some_0.status == 404
                && r->Some_0.body@ == "Image not found"@,
            *self == ImageAnswer::OpenFailed ==> r is Some && r->Some_0.status == 500
                && r->Some_0.body@ == "Error opening file"@,
    {
        match self {
            ImageAnswer::File => None,
            ImageAnswer::NotFound => Some(TextReply { status: 404, body: "Image not found" }),
            ImageAnswer::OpenFailed => Some(
                TextReply { status: 500, body: "Error opening file" },
            ),
        }
    }
}

/// The answer to `GET /job`: a status code and one JSON member.
#[derive(Clone, Copy, Debug, PartialEq, Eq)]
pub struct TriggerReply {
    pub status: u16,
    pub key: &'static str,
    pub message: &'static str,
}

/// The answer to `GET /job`. It takes nothing, so it is the same whatever
/// becomes of the run that the request started.
pub fn job_trigger_reply() -> (r: TriggerReply)
    ensures
        r.status == 200,
        r.key@ == "message"@,
        r.message@ == "Job executed successfully"@,
{
    TriggerReply { status: 200, key: "message", message: "Job executed successfully" }
}

} // verus!
