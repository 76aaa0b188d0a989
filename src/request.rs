use vstd::prelude::*;
use vstd::string::*;
use crate::auth::{authorization_header, header_text_ok, token_scheme};
use crate::error::ApiError;
use crate::json::{json_quoted, quoted};

verus! {

/// Seconds an idle pooled connection is kept open by the shared client.
pub const POOL_IDLE_TIMEOUT_SECS: u64 = 30;

/// Seconds one request may take, from sending to the end of the body.
pub const REQUEST_TIMEOUT_SECS: u64 = 60;

/// A job to create: which model version runs it, on which input, and
/// whether the output is streamed.
pub struct JobRequest {
    pub model_version: String,
    /// The input, as its JSON text.
    pub input: String,
    pub stream: bool,
}

impl JobRequest {
    pub fn new(model_version: String, input: String, stream: bool) -> (r: JobRequest)
        ensures
            r.model_version == model_version,
            r.input == input,
            r.stream == stream,
    {
        JobRequest { model_version, input, stream }
    }
}

/// The HTTP method of a planned request.
#[derive(Debug, Clone, Copy, PartialEq, Eq, Structural)]
pub enum Method {
    Post,
    Get,
}

/// One outbound request, complete but for sending it.
pub struct RequestPlan {
    pub method: Method,
    pub url: String,
    /// The text of the `Authorization` header, fit for a header value.
    pub authorization: String,
    /// The `Content-Type` header, where one is sent.
    pub content_type: Option<String>,
    /// The JSON body, where one is sent.
    pub body: Option<String>,
}

/// The address at which jobs are created.
pub open spec fn creation_url() -> Seq<char> {
    "https://api.replicate.com/v1/predictions"@
}

/// The address at which the status of job `job_id` is read; the id is put
/// in the path as it is, not percent-encoded.
pub open spec fn status_url(job_id: Seq<char>) -> Seq<char> {
    creation_url() + "/"@ + job_id
}

/// The media type of a JSON body.
pub open spec fn json_media_type() -> Seq<char> {
    "application/json"@
}

/// The JSON text of a job request whose version and input are already
/// JSON texts: an object with `version`, `input` and `stream`, in that
/// order, compact.
pub open spec fn body_of(version_json: Seq<char>, input_json: Seq<char>, stream: bool) -> Seq<char> {
    "{\"version\":"@ + version_json + ",\"input\":"@ + input_json + ",\"stream\":"@
        + (if stream { "true"@ } else { "false"@ }) + "}"@
}

/// Writes the JSON body of a job request from the JSON texts of its parts.
pub fn frame_body(version_json: &str, input_json: &str, stream: bool) -> (r: String)
    ensures
        r@ == body_of(version_json@, input_json@, stream),
{
    let flag: &str = if stream { "true" } else { "false" };
    let r = String::from_str("{\"version\":")
        .concat(version_json)
        .concat(",\"input\":")
        .concat(input_json)
        .concat(",\"stream\":")
        .concat(flag)
        .concat("}");
    r
}

/// The address at which the status of job `job_id` is read.
pub fn job_status_url(job_id: &str) -> (r: String)
    ensures
        r@ == status_url(job_id@),
{
    String::from_str("https://api.replicate.com/v1/predictions").concat("/").concat(job_id)
}

/// Plans the request that creates a job: one POST to the creation address,
/// authorized by `credential`, with a JSON body that carries the request.
/// Fails with `InvalidCredential`, and plans nothing, exactly when the
/// credential cannot be carried in a header.
pub fn plan_submit(credential: &str, request: &JobRequest) -> (r: Result<RequestPlan, ApiError>)
    ensures
        r is Ok <==> header_text_ok(credential@),
        r is Err ==> r->Err_0 is InvalidCredential,
        r is Ok ==> {
            let p = r->Ok_0;
            &&& p.method == Method::Post
            &&& p.url@ == creation_url()
            &&& p.authorization@ == token_scheme() + credential@
            &&& p.content_type is Some && p.content_type->Some_0@ == json_media_type()
            &&& p.body is Some
            &&& p.body->Some_0@ == body_of(json_quoted(request.model_version@), request.input@, request.stream)
        },
{
    let authorization = match authorization_header(credential) {
        Ok(h) => h,
        Err(e) => {
            return Err(e);
        },
    };
    let version_json = quoted(request.model_version.as_str());
    let body = frame_body(version_json.as_str(), request.input.as_str(), request.stream);
    Ok(RequestPlan {
        method: Method::Post,
        url: String::from_str("https://api.replicate.com/v1/predictions"),
        authorization,
        content_type: Some(String::from_str("application/json")),
        body: Some(body),
    })
}

/// Plans the request that reads the status of job `job_id`: one GET to its
/// status address, authorized by `credential`, with no body and no
/// `Content-Type`.  Fails with `InvalidCredential`, and plans nothing,
/// exactly when the credential cannot be carried in a header.
pub fn plan_status(credential: &str, job_id: &str) -> (r: Result<RequestPlan, ApiError>)
    ensures
        r is Ok <==> header_text_ok(credential@),
        r is Err ==> r->Err_0 is InvalidCredential,
        r is Ok ==> {
            let p = r->Ok_0;
            &&& p.method == Method::Get
            &&& p.url@ == status_url(job_id@)
            &&& p.authorization@ == token_scheme() + credential@
            &&& p.content_type is None
            &&& p.body is None
        },
{
    let authorization = match authorization_header(credential) {
        Ok(h) => h,
        Err(e) => {
            return Err(e);
        },
    };
    Ok(RequestPlan {
        method: Method::Get,
        url: job_status_url(job_id),
        authorization,
        content_type: None,
        body: None,
    })
}

} // verus!
