//! Structured API errors shared by client and server.

use vstd::prelude::*;

verus! {

/// An API error code, carried in the structured error body
/// `{code, message}` of every non-success response.
#[derive(Clone, Copy, Debug, PartialEq, Eq, Structural)]
pub enum ErrorCode {
    /// The request consisted of malformed JSON.
    MalformedJson,
    /// The request had a well-formed body, but the data was otherwise
    /// unexpected.
    InvalidData,
    /// The server refuses to serve that content type.
    UnsupportedContentType,
    /// The resource was not found.
    NotFound,
    /// The authenticated user does not have access to this resource.
    Forbidden,
    /// The card is hidden to the user.
    Hidden,
    /// The card cannot be transferred to or from that inventory.
    InvalidTransfer,
    /// No credential was presented.
    Unauthenticated,
    /// A credential was presented but rejected: expired, wrong
    /// signature, or unknown key.
    BadCredentials,
    /// The principal is valid but lacks the required privilege.
    InsufficientPermissions,
    /// An internal server error occurred.
    InternalServerError,
    /// Any other error code, passed through opaquely.
    Other(u32),
}

impl ErrorCode {
    /// The wire integer of this code.
    pub open spec fn spec_code(self) -> u32 {
        match self {
            ErrorCode::MalformedJson => 4000,
            ErrorCode::InvalidData => 4001,
            ErrorCode::UnsupportedContentType => 4002,
            ErrorCode::NotFound => 4003,
            ErrorCode::Unauthenticated => 4004,
            ErrorCode::Forbidden => 4005,
            ErrorCode::Hidden => 4006,
            ErrorCode::InsufficientPermissions => 4007,
            ErrorCode::InvalidTransfer => 4008,
            ErrorCode::BadCredentials => 4010,
            ErrorCode::InternalServerError => 5000,
            ErrorCode::Other(other) => other,
        }
    }

    /// The code a wire integer denotes.  Unrecognized integers pass
    /// through as an opaque [`ErrorCode::Other`].
    pub open spec fn spec_from_code(value: u32) -> ErrorCode {
        if value == 4000 {
            ErrorCode::MalformedJson
        } else if value == 4001 {
            ErrorCode::InvalidData
        } else if value == 4002 {
            ErrorCode::UnsupportedContentType
        } else if value == 4003 {
            ErrorCode::NotFound
        } else if value == 4004 {
            ErrorCode::Unauthenticated
        } else if value == 4005 {
            ErrorCode::Forbidden
        } else if value == 4006 {
            ErrorCode::Hidden
        } else if value == 4007 {
            ErrorCode::InsufficientPermissions
        } else if value == 4008 {
            ErrorCode::InvalidTransfer
        } else if value == 4010 {
            ErrorCode::BadCredentials
        } else if value == 5000 {
            ErrorCode::InternalServerError
        } else {
            ErrorCode::Other(value)
        }
    }

    /// Returns the wire integer of this code.
    pub fn code(&self) -> (r: u32)
        ensures
            r == self.spec_code(),
    {
        match self {
            ErrorCode::MalformedJson => 4000,
            ErrorCode::InvalidData => 4001,
            ErrorCode::UnsupportedContentType => 4002,
            ErrorCode::NotFound => 4003,
            ErrorCode::Unauthenticated => 4004,
            ErrorCode::Forbidden => 4005,
            ErrorCode::Hidden => 4006,
            ErrorCode::InsufficientPermissions => 4007,
            ErrorCode::InvalidTransfer => 4008,
            ErrorCode::BadCredentials => 4010,
            ErrorCode::InternalServerError => 5000,
            ErrorCode::Other(other) => *other,
        }
    }

    /// The HTTP status this code canonically travels with: bad input
    /// is 400, a missing resource 404, a refused one 403, a missing
    /// or rejected credential 401, and anything unclassified 500.
    pub open spec fn spec_http_status(self) -> u16 {
        match self {
            ErrorCode::MalformedJson => 400,
            ErrorCode::InvalidData => 400,
            ErrorCode::UnsupportedContentType => 400,
            ErrorCode::InvalidTransfer => 400,
            ErrorCode::NotFound => 404,
            ErrorCode::Forbidden => 403,
            ErrorCode::Hidden => 403,
            ErrorCode::InsufficientPermissions => 403,
            ErrorCode::Unauthenticated => 401,
            ErrorCode::BadCredentials => 401,
            ErrorCode::InternalServerError => 500,
            ErrorCode::Other(_) => 500,
        }
    }

    /// Returns the HTTP status this code canonically travels with.
    pub fn http_status(&self) -> (r: u16)
        ensures
            r == self.spec_http_status(),
    {
        match self {
            ErrorCode::MalformedJson => 400,
            ErrorCode::InvalidData => 400,
            ErrorCode::UnsupportedContentType => 400,
            ErrorCode::InvalidTransfer => 400,
            ErrorCode::NotFound => 404,
            ErrorCode::Forbidden => 403,
            ErrorCode::Hidden => 403,
            ErrorCode::InsufficientPermissions => 403,
            ErrorCode::Unauthenticated => 401,
            ErrorCode::BadCredentials => 401,
            ErrorCode::InternalServerError => 500,
            ErrorCode::Other(_) => 500,
        }
    }

    /// Returns whether this code reports a fault of the server
    /// rather than of the request: exactly the codes that travel
    /// with a server-error status.  Callers log these; the others
    /// are the client's to mend.
    pub fn is_internal(&self) -> (r: bool)
        ensures
            r == (self.spec_http_status() == 500),
    {
        match self {
            ErrorCode::InternalServerError => true,
            ErrorCode::Other(_) => true,
            _ => false,
        }
    }

    /// Classifies a wire integer.
    pub fn from_code(value: u32) -> (r: ErrorCode)
        ensures
            r == ErrorCode::spec_from_code(value),
    {
        match value {
            4000 => ErrorCode::MalformedJson,
            4001 => ErrorCode::InvalidData,
            4002 => ErrorCode::UnsupportedContentType,
            4003 => ErrorCode::NotFound,
            4004 => ErrorCode::Unauthenticated,
            4005 => ErrorCode::Forbidden,
            4006 => ErrorCode::Hidden,
            4007 => ErrorCode::InsufficientPermissions,
            4008 => ErrorCode::InvalidTransfer,
            4010 => ErrorCode::BadCredentials,
            5000 => ErrorCode::InternalServerError,
            other => ErrorCode::Other(other),
        }
    }
}

/// Classifying the wire integer of any code yields that code back,
/// except for an opaque [`ErrorCode::Other`] that shadows a recognized
/// integer, which classifies to the recognized variant instead.
pub proof fn lemma_code_round_trip(code: ErrorCode)
    requires
        code matches ErrorCode::Other(v) ==> ErrorCode::spec_from_code(v) == code,
    ensures
        ErrorCode::spec_from_code(code.spec_code()) == code,
{
}

/// A structured API error body.
#[derive(Clone, Debug)]
pub struct ApiError {
    /// The error code.
    pub code: ErrorCode,
    /// A user-friendly message.
    pub message: String,
}

} // verus!
