//! mTLS identities, payload classification and error rendering.

use nymph::claims::SigningKeys;
use nymph::error::ErrorCode;
use nymph::issuer::PrincipalStore;
use nymph::issuer::issue;
use nymph::mtls::MtlsDirectory;
use nymph::payload::{PayloadError, PayloadKind, classify_content_type};
use nymph::resolver::Authentication;
use nymph::user::{Id, UpdateDiscordUserRequest};
use nymph::validate::{Validator, ValidatorExt, value};

#[test]
fn first_contact_provisions_a_managed_principal() {
    let mut dir = MtlsDirectory::new();
    let principal = dir.get_or_create_bot_user("service.example");
    assert_eq!(principal.id, 1);
    assert!(principal.managed);
    assert_eq!(principal.display_name, "service.example");
    let other = dir.get_or_create_bot_user("other.example");
    assert_eq!(other.id, 2);
    assert_eq!(other.display_name, "other.example");
}

#[test]
fn repeated_contact_resolves_to_the_same_principal() {
    let mut dir = MtlsDirectory::new();
    let first = dir.get_or_create_bot_user("service.example");
    let second = dir.get_or_create_bot_user("service.example");
    assert_eq!(first.id, second.id);
    assert!(second.managed);
    assert_eq!(dir.get_or_create_bot_user("other.example").id, 2);
}

#[test]
fn mtls_principals_may_issue_tokens() {
    // An mTLS identity is a service credential: the auto-provisioned
    // managed principal passes the issuer's managed check.
    let mut dir = MtlsDirectory::new();
    let caller = Authentication::Mtls(dir.get_or_create_bot_user("service.example"));
    assert!(caller.managed());
    let keys = SigningKeys::new_random();
    let mut store = PrincipalStore::new();
    let request = UpdateDiscordUserRequest {
        discord_id: Id::new(4242).unwrap(),
        display_name: "someone".to_owned(),
        generate_token: true,
    };
    let response = issue(&mut store, &caller, &request, &keys, 1_700_000_000).unwrap();
    assert!(response.access_token.is_some());
}

#[test]
fn content_types_select_the_body_encoding() {
    assert_eq!(
        classify_content_type(Some("application/x-www-form-urlencoded")).unwrap(),
        PayloadKind::Form
    );
    assert_eq!(classify_content_type(Some("application/json")).unwrap(), PayloadKind::Json);
    match classify_content_type(Some("text/html")) {
        Err(PayloadError::UnsupportedContentType(mime)) => assert_eq!(mime, "text/html"),
        other => panic!("expected an unsupported content type, got {:?}", other),
    }
    assert!(matches!(classify_content_type(None), Err(PayloadError::MissingContentType)));
}

#[test]
fn payload_failures_carry_the_unsupported_content_type_code() {
    let missing = classify_content_type(None).unwrap_err();
    assert_eq!(missing.error_code(), ErrorCode::UnsupportedContentType);
    assert_eq!(missing.error_code().code(), 4002);
    let unserved = classify_content_type(Some("text/html")).unwrap_err();
    assert_eq!(unserved.error_code(), ErrorCode::UnsupportedContentType);
}

#[test]
fn range_failures_carry_the_invalid_data_code() {
    let err = value("count", 99usize).in_range(1, 25).validate().unwrap_err();
    assert_eq!(err.error_code(), ErrorCode::InvalidData);
    assert_eq!(err.error_code().code(), 4001);
}

#[test]
fn error_codes_carry_their_canonical_status() {
    assert_eq!(ErrorCode::InvalidData.http_status(), 400);
    assert_eq!(ErrorCode::MalformedJson.http_status(), 400);
    assert_eq!(ErrorCode::NotFound.http_status(), 404);
    assert_eq!(ErrorCode::Forbidden.http_status(), 403);
    assert_eq!(ErrorCode::Hidden.http_status(), 403);
    assert_eq!(ErrorCode::InsufficientPermissions.http_status(), 403);
    assert_eq!(ErrorCode::Unauthenticated.http_status(), 401);
    assert_eq!(ErrorCode::BadCredentials.http_status(), 401);
    assert_eq!(ErrorCode::InternalServerError.http_status(), 500);
    assert_eq!(ErrorCode::Other(1234).http_status(), 500);
}

#[test]
fn only_server_faults_classify_as_internal() {
    assert!(ErrorCode::InternalServerError.is_internal());
    assert!(ErrorCode::Other(1234).is_internal());
    assert!(!ErrorCode::BadCredentials.is_internal());
    assert!(!ErrorCode::NotFound.is_internal());
    assert!(!ErrorCode::InvalidData.is_internal());
}
