//! A typed client core for a remote job API: it plans each request (method,
//! address, headers, body), validates the credential before anything is sent,
//! and classifies what came back into a job record or a closed set of errors.
//! Sending and receiving are left to the caller.

mod auth;
mod error;
mod json;
mod request;
mod response;

pub use auth::{authorization_header, authorization_text, credential_hint, HINT_CHARS};
pub use error::ApiError;
pub use json::Member;
pub use request::{
    frame_body, job_status_url, plan_status, plan_submit, JobRequest, Method, RequestPlan,
    POOL_IDLE_TIMEOUT_SECS, REQUEST_TIMEOUT_SECS,
};
pub use response::{
    decode_job_result, is_success_status, job_result_from_members, read_output_field,
    read_text_field, settle_reply, JobResult, Reply,
};
