//! Inbound credential resolution.
//!
//! An ordered chain of credential schemes — the API key scheme, then
//! the bearer token scheme — collapses into one
//! authenticated-principal abstraction.  A scheme whose credential is
//! simply absent falls through to the next; a scheme whose presented
//! credential is rejected is terminal, never silently downgraded to a
//! weaker scheme.  The resolved principal is memoized per request.
//!
//! The mTLS scheme resolves at the certificate layer, below the
//! headers this chain reads: a connection authenticated there carries
//! its principal from the mTLS directory straight into
//! [`Authentication::Mtls`].

use vstd::prelude::*;

use crate::claims::{Claims, DecodeError, SigningKeys, decoded_at, signed_token};
use crate::error::ErrorCode;

verus! {

/// An authenticated user: the stored record of a principal that
/// presented a valid credential.
#[derive(Debug)]
pub struct AuthenticatedUser {
    /// The unique id of the user.
    pub id: i32,
    /// The display name of the user.
    pub display_name: String,
    /// Whether the user is a managed (trusted service) principal.
    pub managed: bool,
}

impl Clone for AuthenticatedUser {
    /// Cloning preserves every field.
    fn clone(&self) -> (r: AuthenticatedUser)
        ensures
            r.id == self.id,
            r.display_name@ == self.display_name@,
            r.managed == self.managed,
    {
        AuthenticatedUser {
            id: self.id,
            display_name: self.display_name.clone(),
            managed: self.managed,
        }
    }
}

/// API key authentication: the principal the presented key belongs
/// to.
#[derive(Clone, Debug)]
pub struct ApiKeyAuthentication {
    /// The authenticated user.
    pub user: AuthenticatedUser,
}

/// The credential material of one inbound request, as read off its
/// headers at the edge.
#[derive(Clone, Debug)]
pub struct RequestCredentials {
    /// The API key header value, if one was sent.
    pub api_key: Option<String>,
    /// The bearer token of the authorization header, if one was sent.
    pub bearer: Option<String>,
}

/// The one authenticated-principal abstraction every scheme collapses
/// into.
#[derive(Clone, Debug)]
pub enum Authentication {
    /// Resolved by the API key scheme: the key's stored principal.
    ApiKey(AuthenticatedUser),
    /// Resolved by the bearer token scheme: the verified claims.
    Token(Claims),
    /// Resolved by the mTLS scheme: the principal linked to the
    /// certificate's common name, auto-provisioned as managed on
    /// first contact.
    Mtls(AuthenticatedUser),
}

impl Authentication {
    /// Whether the principal is a managed, trusted service.
    ///
    /// Token-authenticated principals are delegated end users, never
    /// managed; API key and mTLS principals carry what storage says
    /// of them.
    pub open spec fn spec_managed(&self) -> bool {
        match self {
            Authentication::ApiKey(user) => user.managed,
            Authentication::Token(_) => false,
            Authentication::Mtls(user) => user.managed,
        }
    }

    /// Returns whether the principal is a managed, trusted service.
    pub fn managed(&self) -> (r: bool)
        ensures
            r == self.spec_managed(),
    {
        match self {
            Authentication::ApiKey(user) => user.managed,
            Authentication::Token(_) => false,
            Authentication::Mtls(user) => user.managed,
        }
    }

    /// The id of the authenticated principal.
    pub open spec fn spec_principal_id(&self) -> i64 {
        match self {
            Authentication::ApiKey(user) => user.id as i64,
            Authentication::Token(claims) => claims.sub,
            Authentication::Mtls(user) => user.id as i64,
        }
    }

    /// Returns the id of the authenticated principal.
    pub fn principal_id(&self) -> (r: i64)
        ensures
            r == self.spec_principal_id(),
    {
        match self {
            Authentication::ApiKey(user) => user.id as i64,
            Authentication::Token(claims) => claims.sub,
            Authentication::Mtls(user) => user.id as i64,
        }
    }
}

/// Why resolution failed.
#[derive(Clone, Copy, Debug, PartialEq, Eq, Structural)]
pub enum AuthFailure {
    /// No scheme had a credential to present.
    Unauthenticated,
    /// An API key was presented but matches no stored credential.
    UnknownApiKey,
    /// A bearer token was presented but rejected for this reason.
    BadToken(DecodeError),
}

impl AuthFailure {
    /// The wire error code of this failure: a missing credential is
    /// `Unauthenticated`; a presented-but-rejected credential is
    /// `BadCredentials`, never conflated with mere absence.
    pub open spec fn spec_error_code(&self) -> ErrorCode {
        match self {
            AuthFailure::Unauthenticated => ErrorCode::Unauthenticated,
            AuthFailure::UnknownApiKey => ErrorCode::BadCredentials,
            AuthFailure::BadToken(_) => ErrorCode::BadCredentials,
        }
    }

    /// Returns the wire error code of this failure.
    pub fn error_code(&self) -> (r: ErrorCode)
        ensures
            r == self.spec_error_code(),
    {
        match self {
            AuthFailure::Unauthenticated => ErrorCode::Unauthenticated,
            AuthFailure::UnknownApiKey => ErrorCode::BadCredentials,
            AuthFailure::BadToken(_) => ErrorCode::BadCredentials,
        }
    }

    /// A user-facing description of the failure: absence is reported
    /// as such; an expired or wrongly signed token reads as expired
    /// credentials; any other rejected credential as a failed
    /// verification.
    pub fn to_message(&self) -> (r: &'static str)
        ensures
            self matches AuthFailure::Unauthenticated ==> r@ == "Request is unauthorized."@,
            self matches AuthFailure::BadToken(f) && (f == DecodeError::ExpiredSignature || f
                == DecodeError::InvalidSignature) ==> r@ == "User credentials have expired."@,
            self matches AuthFailure::BadToken(f) && f != DecodeError::ExpiredSignature && f
                != DecodeError::InvalidSignature ==> r@ == "Access token verification failed."@,
            self matches AuthFailure::UnknownApiKey ==> r@ == "Access token verification failed."@,
    {
        match self {
            AuthFailure::Unauthenticated => "Request is unauthorized.",
            AuthFailure::UnknownApiKey => "Access token verification failed.",
            AuthFailure::BadToken(DecodeError::ExpiredSignature) => "User credentials have expired.",
            AuthFailure::BadToken(DecodeError::InvalidSignature) => "User credentials have expired.",
            AuthFailure::BadToken(_) => "Access token verification failed.",
        }
    }
}

/// Resolves the ordered credential schemes of one request into a
/// single principal.
///
/// `api_key_user` is the stored principal for the hash of the
/// presented API key, fetched by the caller only when a key was
/// presented; it is ignored otherwise.  The API key scheme is tried
/// first: when a key is presented, its verdict is final and the token
/// scheme is never consulted.  Only when no key is presented does the
/// bearer token scheme run; only when no scheme has a credential at
/// all is the request unauthenticated.
pub fn resolve(
    creds: &RequestCredentials,
    api_key_user: Option<AuthenticatedUser>,
    keys: &SigningKeys,
    now: i64,
) -> (r: Result<Authentication, AuthFailure>)
    ensures
        creds.api_key is Some ==> (api_key_user matches Some(user) ==> (r matches Ok(a) && a
            matches Authentication::ApiKey(u) && u == user)),
        creds.api_key is Some && api_key_user is None ==> r == Err::<Authentication, AuthFailure>(
            AuthFailure::UnknownApiKey,
        ),
        creds.api_key is None && creds.bearer is None ==> r == Err::<Authentication, AuthFailure>(
            AuthFailure::Unauthenticated,
        ),
        creds.api_key is None && creds.bearer is Some ==> r != Err::<Authentication, AuthFailure>(
            AuthFailure::Unauthenticated,
        ),
        creds.api_key is None && creds.bearer is Some && !keys.wf() ==> r == Err::<
            Authentication,
            AuthFailure,
        >(AuthFailure::BadToken(DecodeError::InvalidKey)),
        creds.api_key is None && keys.wf() ==> (creds.bearer matches Some(b) ==> (forall|
            s: i64,
            i: i64,
            e: i64,
        |
            b@ == #[trigger] signed_token(keys.spec_secret(), s, i, e) ==> r == (
            match decoded_at(s, i, e, now) {
                Ok(c) => Ok::<Authentication, AuthFailure>(Authentication::Token(c)),
                Err(f) => Err::<Authentication, AuthFailure>(AuthFailure::BadToken(f)),
            }))),
        creds.api_key is None ==> (r matches Ok(a) ==> a is Token && (a matches
            Authentication::Token(c) ==> c.exp > now)),
{
    if creds.api_key.is_some() {
        match api_key_user {
            Some(user) => Ok(Authentication::ApiKey(user)),
            None => Err(AuthFailure::UnknownApiKey),
        }
    } else {
        match &creds.bearer {
            Some(bearer) => match Claims::decode(bearer.as_str(), keys, now) {
                Ok(claims) => Ok(Authentication::Token(claims)),
                Err(f) => Err(AuthFailure::BadToken(f)),
            },
            None => Err(AuthFailure::Unauthenticated),
        }
    }
}

/// Law: a presented credential that is rejected is terminal, never
/// downgraded to mere absence: the failure of a presented API key or
/// bearer token carries the bad-credential code, and only a request
/// that presented nothing at all resolves to `Unauthenticated`.
pub proof fn lemma_no_downgrade(failure: AuthFailure)
    ensures
        failure matches AuthFailure::UnknownApiKey ==> failure.spec_error_code()
            == ErrorCode::BadCredentials,
        failure matches AuthFailure::BadToken(f) ==> failure.spec_error_code()
            == ErrorCode::BadCredentials,
        failure.spec_error_code() == ErrorCode::Unauthenticated ==> failure
            == AuthFailure::Unauthenticated,
{
}

/// The per-request memo of the resolved principal: repeated
/// extraction within one request reuses the first resolution instead
/// of re-hitting storage or re-verifying a signature.
#[derive(Debug)]
pub struct RequestAuth {
    memo: Option<Authentication>,
}

impl RequestAuth {
    /// The memoized principal, if resolution already ran.
    pub closed spec fn spec_memo(&self) -> Option<Authentication> {
        self.memo
    }

    /// A fresh request: nothing memoized.
    pub fn new() -> (r: RequestAuth)
        ensures
            r.spec_memo() is None,
    {
        RequestAuth { memo: None }
    }

    /// Returns the memoized principal, if any.
    pub fn memoized(&self) -> (r: Option<&Authentication>)
        ensures
            r matches Some(a) ==> self.spec_memo() matches Some(m) && *a == m,
            r is None ==> self.spec_memo() is None,
    {
        self.memo.as_ref()
    }

    /// Memoizes a resolved principal.
    pub fn remember(&mut self, auth: Authentication)
        ensures
            final(self).spec_memo() == Some(auth),
    {
        self.memo = Some(auth);
    }
}

} // verus!
