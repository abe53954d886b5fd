//! What the HTTP API decides before it touches any state: which requests
//! are refused, with which status and text, and what the accepted ones
//! carry.
use vstd::prelude::*;

use crate::config::ConfigError;
use crate::models::{CreateExportRequest, CreateSourceRequest};
use crate::text::{owned, same_text, trim};

verus! {

/// An error answered to an API request: an HTTP status code and a text.
#[derive(Debug)]
pub struct ApiError {
    status: u16,
    message: String,
}

/// An `ApiError` with its text as a sequence of characters.
pub struct ApiErrorView {
    pub status: u16,
    pub message: Seq<char>,
}

impl View for ApiError {
    type V = ApiErrorView;

    closed spec fn view(&self) -> ApiErrorView {
        ApiErrorView { status: self.status, message: self.message@ }
    }
}

/// HTTP 400.
pub const BAD_REQUEST: u16 = 400;

/// HTTP 404.
pub const NOT_FOUND: u16 = 404;

/// HTTP 500.
pub const INTERNAL_SERVER_ERROR: u16 = 500;

impl ApiError {
    /// The request is malformed or asks for something unsupported.
    pub fn bad_request(message: String) -> (r: ApiError)
        ensures
            r@.status == BAD_REQUEST,
            r@.message == message@,
    {
        ApiError { status: BAD_REQUEST, message }
    }

    /// The thing asked for does not exist.
    pub fn not_found(message: String) -> (r: ApiError)
        ensures
            r@.status == NOT_FOUND,
            r@.message == message@,
    {
        ApiError { status: NOT_FOUND, message }
    }

    /// The daemon failed while serving the request; `message` says how.
    pub fn internal(message: String) -> (r: ApiError)
        ensures
            r@.status == INTERNAL_SERVER_ERROR,
            r@.message == message@,
    {
        ApiError { status: INTERNAL_SERVER_ERROR, message }
    }

    /// A failure of the daemon, answered with status 500 and the error's
    /// display text.
    pub fn from_error(error: &anyhow::Error) -> (r: ApiError)
        ensures
            r@.status == INTERNAL_SERVER_ERROR,
            exists|s: String|
                #[trigger] vstd::string::to_string_from_display_ensures::<anyhow::Error>(error, s)
                    && s@ == r@.message,
    {
        let text = error.to_string();
        let r = ApiError::internal(text);
        proof {
            assert(vstd::string::to_string_from_display_ensures::<anyhow::Error>(error, text));
        }
        r
    }

    /// A configuration that cannot be resolved is a bad request, answered
    /// with the configuration error's text.
    pub fn from_config_error(error: ConfigError) -> (r: ApiError)
        ensures
            r@.status == BAD_REQUEST,
            r@.message == crate::config::config_error_text(error@),
    {
        ApiError::bad_request(error.message())
    }

    /// The HTTP status code.
    pub fn status(&self) -> (r: u16)
        ensures
            r == self@.status,
    {
        self.status
    }

    /// The text of the error.
    pub fn message(&self) -> (r: &str)
        ensures
            r@ == self@.message,
    {
        self.message.as_str()
    }
}

/// A source request is accepted when its name and its URL hold something
/// besides white space; the accepted request carries both trimmed.
pub fn validate_create_source(request: CreateSourceRequest) -> (r: Result<
    CreateSourceRequest,
    ApiError,
>)
    ensures
        match r {
            Ok(accepted) => {
                &&& crate::text::trimmed(request.name@).len() > 0
                &&& crate::text::trimmed(request.url@).len() > 0
                &&& accepted.name@ == crate::text::trimmed(request.name@)
                &&& accepted.url@ == crate::text::trimmed(request.url@)
                &&& accepted.kind == request.kind
                &&& crate::text::opt_text(accepted.rtsp_transport) == crate::text::opt_text(
                    request.rtsp_transport,
                )
            },
            Err(e) => e@.status == BAD_REQUEST && if crate::text::trimmed(request.name@).len() == 0 {
                e@.message == "source name is required"@
            } else {
                crate::text::trimmed(request.url@).len() == 0 && e@.message
                    == "source URL is required"@
            },
        },
{
    let name = trim(request.name.as_str());
    if name.as_str().unicode_len() == 0 {
        return Err(ApiError::bad_request(owned("source name is required")));
    }
    let url = trim(request.url.as_str());
    if url.as_str().unicode_len() == 0 {
        return Err(ApiError::bad_request(owned("source URL is required")));
    }
    Ok(CreateSourceRequest { name, kind: request.kind, url, rtsp_transport: request.rtsp_transport })
}

/// A timelapse request is accepted when its name holds something besides
/// white space; the accepted name is trimmed.
pub fn validate_timelapse_name(name: &str) -> (r: Result<String, ApiError>)
    ensures
        match r {
            Ok(accepted) => crate::text::trimmed(name@).len() > 0 && accepted@
                == crate::text::trimmed(name@),
            Err(e) => crate::text::trimmed(name@).len() == 0 && e@.status == BAD_REQUEST
                && e@.message == "timelapse name is required"@,
        },
{
    let trimmed = trim(name);
    if trimmed.as_str().unicode_len() == 0 {
        return Err(ApiError::bad_request(owned("timelapse name is required")));
    }
    Ok(trimmed)
}

/// The format of an export request: `mp4` when none is given; any other
/// format is refused.
pub fn resolve_export_format(request: CreateExportRequest) -> (r: Result<String, ApiError>)
    ensures
        match r {
            Ok(format) => format@ == "mp4"@ && match request.format {
                Some(f) => f@ == "mp4"@,
                None => true,
            },
            Err(e) => (request.format matches Some(f) && f@ != "mp4"@) && e@.status == BAD_REQUEST
                && e@.message == "only mp4 exports are currently supported"@,
        },
{
    let format = match request.format {
        Some(f) => f,
        None => owned("mp4"),
    };
    if !same_text(format.as_str(), "mp4") {
        return Err(ApiError::bad_request(owned("only mp4 exports are currently supported")));
    }
    Ok(format)
}

} // verus!
