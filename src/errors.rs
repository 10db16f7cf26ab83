use vstd::prelude::*;
use vstd::string::*;
use crate::text::{decimal, u16_decimal};

verus! {

/// How the image engine failed: it could not open the input, or an operation failed.
#[derive(Clone, Copy, Debug, PartialEq, Eq)]
pub enum EngineFailure {
    Initialization,
    Operation,
}

/// Failures of a request.
#[derive(Clone, Debug)]
pub enum ImageProcessingError {
    InvalidResourceUriProvided(String),
    ImageDownloadTimedOut,
    ClientReturnedErrorStatusCode(u16, String),
    ImageDownloadFailed,
    ProcessingWorkerJoinError,
    LibvipsProcessingFailed(EngineFailure),
    AxumHttpError,
    InvalidRequest,
}

pub const BAD_REQUEST: u16 = 400;

pub const INTERNAL_SERVER_ERROR: u16 = 500;

/// A status code as the HTTP layer accepts it: three digits.
pub open spec fn valid_status(s: u16) -> bool {
    100 <= s <= 999
}

pub open spec fn msg_status_head() -> Seq<char> {
    "Received status code '"@
}

pub open spec fn msg_status_mid() -> Seq<char> {
    "' while attemtping to download the image that has to be processed: '"@
}

pub open spec fn msg_cannot_open() -> Seq<char> {
    "The image that was requested to be processed cannot be opened."@
}

pub open spec fn msg_timed_out() -> Seq<char> {
    "Downloading the image requested to be processed timed out."@
}

pub open spec fn msg_invalid_uri() -> Seq<char> {
    "The provided resource URI is not valid: '"@
}

pub open spec fn msg_invalid_params() -> Seq<char> {
    "the provided parameters within the query string aren't valid"@
}

pub open spec fn msg_internal() -> Seq<char> {
    "Something went wrong on our side."@
}

pub open spec fn quote_end() -> Seq<char> {
    "'"@
}

/// Status and client-facing message of each failure: client faults are 400
/// (an upstream client-error status is mirrored), everything else 500 with a
/// message that reveals nothing of the cause.
pub open spec fn response_of(e: ImageProcessingError) -> (u16, Seq<char>) {
    match e {
        ImageProcessingError::ClientReturnedErrorStatusCode(status, resource) => (
            if valid_status(status) { status } else { BAD_REQUEST },
            msg_status_head() + decimal(status as nat) + msg_status_mid() + resource@ + quote_end(),
        ),
        ImageProcessingError::LibvipsProcessingFailed(EngineFailure::Initialization) => (BAD_REQUEST, msg_cannot_open()),
        ImageProcessingError::ImageDownloadTimedOut => (BAD_REQUEST, msg_timed_out()),
        ImageProcessingError::InvalidResourceUriProvided(uri) => (BAD_REQUEST, msg_invalid_uri() + uri@ + quote_end()),
        ImageProcessingError::InvalidRequest => (BAD_REQUEST, msg_invalid_params()),
        _ => (INTERNAL_SERVER_ERROR, msg_internal()),
    }
}

/// The message that rejects a query string.
pub fn invalid_params_message() -> (r: String)
    ensures
        r@ == msg_invalid_params(),
{
    String::from_str("the provided parameters within the query string aren't valid")
}

impl ImageProcessingError {
    /// The HTTP status and the message of the JSON error body.
    pub fn response_parts(&self) -> (r: (u16, String))
        ensures
            r.0 == response_of(*self).0,
            r.1@ == response_of(*self).1,
    {
        match self {
            ImageProcessingError::ClientReturnedErrorStatusCode(status, resource) => {
                let code = if 100 <= *status && *status <= 999 { *status } else { BAD_REQUEST };
                let digits = u16_decimal(*status);
                let m = String::from_str("Received status code '")
                    .concat(digits.as_str())
                    .concat("' while attemtping to download the image that has to be processed: '")
                    .concat(resource.as_str())
                    .concat("'");
                (code, m)
            },
            ImageProcessingError::LibvipsProcessingFailed(EngineFailure::Initialization) => (
                BAD_REQUEST,
                String::from_str("The image that was requested to be processed cannot be opened."),
            ),
            ImageProcessingError::ImageDownloadTimedOut => (
                BAD_REQUEST,
                String::from_str("Downloading the image requested to be processed timed out."),
            ),
            ImageProcessingError::InvalidResourceUriProvided(uri) => {
                let m = String::from_str("The provided resource URI is not valid: '")
                    .concat(uri.as_str())
                    .concat("'");
                (BAD_REQUEST, m)
            },
            ImageProcessingError::InvalidRequest => (BAD_REQUEST, invalid_params_message()),
            _ => (INTERNAL_SERVER_ERROR, String::from_str("Something went wrong on our side.")),
        }
    }
}

} // verus!
