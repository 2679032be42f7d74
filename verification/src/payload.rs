//! Selective request-body extraction.
//!
//! The server serves two body encodings; which one a request uses is
//! decided by its content type, and anything else is refused.
//! Reading headers and deserializing bodies happens at the edge; the
//! decision is here.

use vstd::prelude::*;

use crate::error::ErrorCode;

verus! {

/// A request body, extracted by whichever encoding the request
/// declared.
#[derive(Clone, Copy, Debug)]
pub struct Payload<T>(pub T);

/// The body encodings the server serves.
#[derive(Clone, Copy, Debug, PartialEq, Eq, Structural)]
pub enum PayloadKind {
    /// `application/x-www-form-urlencoded`.
    Form,
    /// `application/json`.
    Json,
}

/// Why a request's body cannot be extracted.
#[derive(Clone, Debug)]
pub enum PayloadError {
    /// The request sent a payload without a content type.
    MissingContentType,
    /// The request sent a payload with this content type, which the
    /// server refuses to serve.
    UnsupportedContentType(String),
}

impl PayloadError {
    /// The wire error code of this failure: a missing or unserved
    /// content type is `UnsupportedContentType`.
    pub open spec fn spec_error_code(&self) -> ErrorCode {
        ErrorCode::UnsupportedContentType
    }

    /// Returns the wire error code of this failure.
    pub fn error_code(&self) -> (r: ErrorCode)
        ensures
            r == self.spec_error_code(),
    {
        match self {
            PayloadError::MissingContentType => ErrorCode::UnsupportedContentType,
            PayloadError::UnsupportedContentType(_) => ErrorCode::UnsupportedContentType,
        }
    }
}

/// Decides how a request's body is to be read: by the form encoding
/// or the JSON encoding, exactly according to its content type; a
/// missing or unrecognized content type is refused.
pub fn classify_content_type(content_type: Option<&str>) -> (r: Result<PayloadKind, PayloadError>)
    ensures
        content_type is None ==> (r matches Err(e) && e is MissingContentType),
        content_type matches Some(ct) ==> {
            if ct@ == "application/x-www-form-urlencoded"@ {
                r == Ok::<PayloadKind, PayloadError>(PayloadKind::Form)
            } else if ct@ == "application/json"@ {
                r == Ok::<PayloadKind, PayloadError>(PayloadKind::Json)
            } else {
                r matches Err(e) && e matches PayloadError::UnsupportedContentType(mime) && mime@
                    == ct@
            }
        },
{
    proof {
        reveal_strlit("application/x-www-form-urlencoded");
        reveal_strlit("application/json");
        assert("application/x-www-form-urlencoded"@.len() == 33);
        assert("application/json"@.len() == 16);
        assert("application/x-www-form-urlencoded"@ != "application/json"@);
    }
    match content_type {
        Some(ct) => {
            let owned = ct.to_owned();
            if owned == "application/x-www-form-urlencoded".to_owned() {
                Ok(PayloadKind::Form)
            } else if owned == "application/json".to_owned() {
                Ok(PayloadKind::Json)
            } else {
                Err(PayloadError::UnsupportedContentType(owned))
            }
        },
        None => Err(PayloadError::MissingContentType),
    }
}

} // verus!
