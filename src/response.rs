use vstd::prelude::*;
use vstd::string::*;
use serde_json::Value;
use crate::error::ApiError;
use crate::json::{
    error_message, is_json_text, json_member_kind, json_member_string, member_in, member_kind,
    parse_json, Member,
};

verus! {

/// What a job looks like to the service at one moment.  Every field may be
/// missing: the service uses this one shape for success and for failure.
#[derive(Debug, PartialEq)]
pub struct JobResult {
    pub id: Option<String>,
    pub status: Option<String>,
    pub output: Option<Value>,
    pub error: Option<String>,
    pub detail: Option<String>,
}

/// How one sent request ended, as the transport saw it.
pub enum Reply {
    /// No complete response arrived; the message says why.
    TransportFailed(String),
    /// A response arrived, with its status code and whole body.
    Received { status_code: u16, body: String },
}

/// A status code that reports success.
pub open spec fn is_success(status_code: u16) -> bool {
    200 <= status_code <= 299
}

/// What a text field of a job record becomes from what the document holds
/// under its key: `None` where the document cannot be a job record.
pub open spec fn text_field(m: Member) -> Option<Option<String>> {
    match m {
        Member::Absent => Some(None),
        Member::Null => Some(None),
        Member::Text(s, _) => Some(Some(s)),
        Member::NotObject => None,
        Member::Other(_) => None,
    }
}

/// Whether the `output` key of a document fits a job record: any value
/// does, as long as the document is an object.
pub open spec fn output_fits(m: Member) -> bool {
    !(m is NotObject)
}

/// What the `output` field becomes, for a document where it fits.
pub open spec fn output_matches(m: Member, out: Option<Value>) -> bool {
    match m {
        Member::Absent => out is None,
        Member::Null => out is None,
        Member::Text(_, v) => out == Some(v),
        Member::Other(v) => out == Some(v),
        Member::NotObject => false,
    }
}

/// Whether the members read from a document make a job record.
pub open spec fn members_fit(id: Member, status: Member, output: Member, error: Member, detail: Member) -> bool {
    &&& text_field(id) is Some
    &&& text_field(status) is Some
    &&& output_fits(output)
    &&& text_field(error) is Some
    &&& text_field(detail) is Some
}

pub fn is_success_status(status_code: u16) -> (r: bool)
    ensures
        r == is_success(status_code),
{
    200 <= status_code && status_code <= 299
}

fn malformed(what: &str) -> (r: ApiError)
    ensures
        r is MalformedResponse,
{
    ApiError::MalformedResponse(String::from_str(what))
}

/// Reads one text field of a job record from what the document holds under
/// its key.
pub fn read_text_field(m: Member) -> (r: Result<Option<String>, ApiError>)
    ensures
        text_field(m) is Some ==> r == Ok::<Option<String>, ApiError>(text_field(m)->Some_0),
        text_field(m) is None ==> r is Err && r->Err_0 is MalformedResponse,
{
    match m {
        Member::Absent => Ok(None),
        Member::Null => Ok(None),
        Member::Text(s, _) => Ok(Some(s)),
        Member::NotObject => Err(malformed("the response body is not a JSON object")),
        Member::Other(_) => Err(malformed("a field of the response body is not a string")),
    }
}

/// Reads the `output` field of a job record from what the document holds
/// under its key.
pub fn read_output_field(m: Member) -> (r: Result<Option<Value>, ApiError>)
    ensures
        output_fits(m) ==> r is Ok && output_matches(m, r->Ok_0),
        !output_fits(m) ==> r is Err && r->Err_0 is MalformedResponse,
{
    match m {
        Member::Absent => Ok(None),
        Member::Null => Ok(None),
        Member::Text(_, v) => Ok(Some(v)),
        Member::Other(v) => Ok(Some(v)),
        Member::NotObject => Err(malformed("the response body is not a JSON object")),
    }
}

/// Builds a job record from what a document holds under each of its keys:
/// a record exactly when every member fits, with each field equal to its
/// member, absent where the member is missing or `null`.
pub fn job_result_from_members(
    id: Member,
    status: Member,
    output: Member,
    error: Member,
    detail: Member,
) -> (r: Result<JobResult, ApiError>)
    ensures
        r is Ok <==> members_fit(id, status, output, error, detail),
        r is Err ==> r->Err_0 is MalformedResponse,
        r is Ok ==> {
            let j = r->Ok_0;
            &&& j.id == text_field(id)->Some_0
            &&& j.status == text_field(status)->Some_0
            &&& output_matches(output, j.output)
            &&& j.error == text_field(error)->Some_0
            &&& j.detail == text_field(detail)->Some_0
        },
{
    let id = match read_text_field(id) {
        Ok(v) => v,
        Err(e) => return Err(e),
    };
    let status = match read_text_field(status) {
        Ok(v) => v,
        Err(e) => return Err(e),
    };
    let output = match read_output_field(output) {
        Ok(v) => v,
        Err(e) => return Err(e),
    };
    let error = match read_text_field(error) {
        Ok(v) => v,
        Err(e) => return Err(e),
    };
    let detail = match read_text_field(detail) {
        Ok(v) => v,
        Err(e) => return Err(e),
    };
    Ok(JobResult { id, status, output, error, detail })
}

/// What a text field of a job record becomes from the document `body`
/// under `key`: `None` where the document cannot be a job record, else the
/// field, absent where the key is missing or `null`.
pub open spec fn body_text_field(body: Seq<char>, key: Seq<char>) -> Option<Option<Seq<char>>> {
    let kind = json_member_kind(body, key);
    if kind == 1 || kind == 2 {
        Some(None)
    } else if kind == 3 {
        Some(Some(json_member_string(body, key)))
    } else {
        None
    }
}

/// The text of an optional string.
pub open spec fn text_of(o: Option<String>) -> Option<Seq<char>> {
    match o {
        Some(s) => Some(s@),
        None => None,
    }
}

/// Whether a response body is a job record: a JSON object whose `id`,
/// `status`, `error` and `detail`, where present and not `null`, are strings.
pub open spec fn body_fits(body: Seq<char>) -> bool {
    &&& is_json_text(body)
    &&& body_text_field(body, "id"@) is Some
    &&& body_text_field(body, "status"@) is Some
    &&& json_member_kind(body, "output"@) != 0
    &&& body_text_field(body, "error"@) is Some
    &&& body_text_field(body, "detail"@) is Some
}

/// Whether `j` is the job record that the document `body` holds: each text
/// field is the string under its key, or absent where the key is missing or
/// `null`; `output` is absent exactly where its key is missing or `null`.
pub open spec fn record_of(body: Seq<char>, j: JobResult) -> bool {
    let out_kind = json_member_kind(body, "output"@);
    &&& text_of(j.id) == body_text_field(body, "id"@)->Some_0
    &&& text_of(j.status) == body_text_field(body, "status"@)->Some_0
    &&& (j.output is None <==> (out_kind == 1 || out_kind == 2))
    &&& text_of(j.error) == body_text_field(body, "error"@)->Some_0
    &&& text_of(j.detail) == body_text_field(body, "detail"@)->Some_0
}

/// What decoding the body of a successful response gives: a job record
/// exactly when the body fits, and `MalformedResponse` otherwise.
pub open spec fn decoded(body: Seq<char>, r: Result<JobResult, ApiError>) -> bool {
    &&& r is Ok <==> body_fits(body)
    &&& r is Err ==> r->Err_0 is MalformedResponse
    &&& r is Ok ==> record_of(body, r->Ok_0)
}

proof fn lemma_member_field(body: Seq<char>, key: Seq<char>, m: Member)
    requires
        member_kind(m) == json_member_kind(body, key),
        m is Text ==> m->Text_0@ == json_member_string(body, key),
    ensures
        text_field(m) is Some <==> body_text_field(body, key) is Some,
        text_field(m) is Some ==> text_of(text_field(m)->Some_0) == body_text_field(body, key)->Some_0,
        output_fits(m) <==> json_member_kind(body, key) != 0,
{
}

/// Decodes the body of a successful response into a job record.  A body
/// that is not JSON gives `MalformedResponse`; so does a JSON document that
/// is not an object or has a non-string `id`, `status`, `error` or
/// `detail`.  Other keys are ignored.
pub fn decode_job_result(body: &str) -> (r: Result<JobResult, ApiError>)
    ensures
        decoded(body@, r),
{
    if let Err(e) = parse_json(body) {
        return Err(ApiError::MalformedResponse(error_message(&e)));
    }
    let id = member_in(body, "id");
    let status = member_in(body, "status");
    let output = member_in(body, "output");
    let error = member_in(body, "error");
    let detail = member_in(body, "detail");
    proof {
        lemma_member_field(body@, "id"@, id);
        lemma_member_field(body@, "status"@, status);
        lemma_member_field(body@, "output"@, output);
        lemma_member_field(body@, "error"@, error);
        lemma_member_field(body@, "detail"@, detail);
    }
    job_result_from_members(id, status, output, error, detail)
}

/// What settling a reply gives: a transport failure becomes `Transport`
/// with its message; a status outside 200..=299 becomes `Remote` with the
/// status and the body verbatim; a success status gives what decoding the
/// body gives.
pub open spec fn settled(reply: Reply, r: Result<JobResult, ApiError>) -> bool {
    match reply {
        Reply::TransportFailed(m) => r == Err::<JobResult, ApiError>(ApiError::Transport(m)),
        Reply::Received { status_code, body } => {
            &&& !is_success(status_code) ==> r == Err::<JobResult, ApiError>(
                ApiError::Remote { status_code, body },
            )
            &&& is_success(status_code) ==> decoded(body@, r)
        },
    }
}

/// Settles a sent request from how it ended; see `settled`.  Both the
/// creation and the status call end here, so they classify alike.
pub fn settle_reply(reply: Reply) -> (r: Result<JobResult, ApiError>)
    ensures
        settled(reply, r),
{
    match reply {
        Reply::TransportFailed(m) => Err(ApiError::Transport(m)),
        Reply::Received { status_code, body } => {
            if is_success_status(status_code) {
                decode_job_result(body.as_str())
            } else {
                Err(ApiError::Remote { status_code, body })
            }
        },
    }
}

/// Settling one reply twice gives the same outcome: the same variant, the
/// same `Transport` message or `Remote` status and body, and for a job
/// record the same text fields and the same presence of `output`.
pub proof fn lemma_settled_is_determined(reply: Reply, r1: Result<JobResult, ApiError>, r2: Result<JobResult, ApiError>)
    ensures
        settled(reply, r1) && settled(reply, r2) ==> {
            &&& (r1 is Ok <==> r2 is Ok)
            &&& (r1 is Err && !(r1->Err_0 is MalformedResponse)) ==> r1 == r2
            &&& (r1 is Err ==> (r1->Err_0 is MalformedResponse <==> r2->Err_0 is MalformedResponse))
            &&& r1 is Ok ==> {
                &&& text_of(r1->Ok_0.id) == text_of(r2->Ok_0.id)
                &&& text_of(r1->Ok_0.status) == text_of(r2->Ok_0.status)
                &&& (r1->Ok_0.output is None <==> r2->Ok_0.output is None)
                &&& text_of(r1->Ok_0.error) == text_of(r2->Ok_0.error)
                &&& text_of(r1->Ok_0.detail) == text_of(r2->Ok_0.detail)
            }
        },
{
}

} // verus!
