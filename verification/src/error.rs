//! The reasons for which the gateway turns a request away before it reaches an
//! upstream.

use vstd::prelude::*;

verus! {

/// Why a request was rejected locally.
#[derive(Clone, Copy, Debug, PartialEq, Eq, Structural)]
pub enum AppError {
    /// The body carries no `messages` array.
    InvalidRequestFormat,
    /// The model named in the body belongs to no known family.
    UnsupportedModel,
    /// The provider name is not registered.
    UnsupportedProvider,
    /// No usable credential came with the request.
    MissingApiKey,
    /// A header cannot be represented in the header set it is meant for.
    InvalidHeader,
    /// The caller's method is not a valid outbound method.
    InvalidMethod,
    /// The body is not JSON text, or the translated body cannot be written as
    /// JSON text.
    InvalidJson,
}

impl AppError {
    /// The status of the answer that tells the caller of the rejection: 400
    /// for a request of a bad shape, 401 for a missing credential, 404 for a
    /// provider or a model that is not served.
    pub open spec fn status(self) -> u16 {
        match self {
            AppError::InvalidRequestFormat => 400,
            AppError::InvalidJson => 400,
            AppError::InvalidHeader => 400,
            AppError::InvalidMethod => 400,
            AppError::MissingApiKey => 401,
            AppError::UnsupportedProvider => 404,
            AppError::UnsupportedModel => 404,
        }
    }

    /// The short text that goes with the status.
    pub open spec fn description(self) -> Seq<char> {
        match self {
            AppError::InvalidRequestFormat => "Invalid request format"@,
            AppError::InvalidJson => "Invalid JSON body"@,
            AppError::InvalidHeader => "Invalid header value"@,
            AppError::InvalidMethod => "Invalid HTTP method"@,
            AppError::MissingApiKey => "Missing API key"@,
            AppError::UnsupportedProvider => "Unsupported provider"@,
            AppError::UnsupportedModel => "Unsupported model"@,
        }
    }

    /// The status of the answer that tells the caller of the rejection; always
    /// one of the client-error class.
    pub fn status_code(&self) -> (code: u16)
        ensures
            code == self.status(),
            400 <= code < 500,
    {
        match self {
            AppError::InvalidRequestFormat => 400,
            AppError::InvalidJson => 400,
            AppError::InvalidHeader => 400,
            AppError::InvalidMethod => 400,
            AppError::MissingApiKey => 401,
            AppError::UnsupportedProvider => 404,
            AppError::UnsupportedModel => 404,
        }
    }

    /// The short text that goes with the status. It names the kind of the
    /// rejection and nothing of the request.
    pub fn message(&self) -> (text: &'static str)
        ensures
            text@ == self.description(),
    {
        match self {
            AppError::InvalidRequestFormat => "Invalid request format",
            AppError::InvalidJson => "Invalid JSON body",
            AppError::InvalidHeader => "Invalid header value",
            AppError::InvalidMethod => "Invalid HTTP method",
            AppError::MissingApiKey => "Missing API key",
            AppError::UnsupportedProvider => "Unsupported provider",
            AppError::UnsupportedModel => "Unsupported model",
        }
    }
}

} // verus!
