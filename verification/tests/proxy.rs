//! The delegated-send retry machine and the credential cache.

use nymph::cache::{CachedUser, CredentialCache};
use nymph::claims::{Claims, SigningKeys};
use nymph::client::{AttemptOutcome, ProxyAction, ProxySend, SendPhase, SendResult, service_send_result};
use nymph::error::{ApiError, ErrorCode};
use nymph::user::{Id, UpdateDiscordUserResponse, User};

const SECRET: &str = "c2VjcmV0a2V5c2VjcmV0a2V5";
const USER_KEY: u64 = 77;

fn bad_credentials() -> AttemptOutcome {
    AttemptOutcome::Failure(ApiError {
        code: ErrorCode::BadCredentials,
        message: "User credentials have expired.".to_owned(),
    })
}

fn mint_response(token: &str) -> UpdateDiscordUserResponse {
    UpdateDiscordUserResponse {
        user: User { id: 5, display_name: "someone".to_owned() },
        discord_id: Id::new(USER_KEY).unwrap(),
        access_token: Some(token.to_owned()),
    }
}

fn cached_token(cache: &CredentialCache) -> Option<String> {
    cache.get(USER_KEY).and_then(|entry| entry.access_token.clone())
}

#[test]
fn empty_cache_mints_then_attempts() {
    let mut cache = CredentialCache::new();
    let mut send = ProxySend::begin(USER_KEY, 5);
    assert!(matches!(send.next_action(&cache), Some(ProxyAction::Mint)));
    send.on_mint_result(&mut cache, Ok(mint_response("t1")));
    match &send.phase {
        SendPhase::InFlight(token) => assert_eq!(token, "t1"),
        other => panic!("expected an attempt, got {:?}", other),
    }
    send.on_attempt_result(&mut cache, AttemptOutcome::Success);
    assert!(matches!(send.phase, SendPhase::Done(SendResult::Success)));
    assert_eq!(cached_token(&cache).as_deref(), Some("t1"));
}

#[test]
fn warm_cache_skips_the_mint() {
    let mut cache = CredentialCache::new();
    cache.put(
        USER_KEY,
        CachedUser {
            user: User { id: 5, display_name: "someone".to_owned() },
            access_token: Some("cached".to_owned()),
        },
    );
    let mut send = ProxySend::begin(USER_KEY, 5);
    match send.next_action(&cache) {
        Some(ProxyAction::Attempt(token)) => assert_eq!(token, "cached"),
        other => panic!("expected an attempt, got {:?}", other),
    }
}

#[test]
fn bad_credentials_within_budget_then_success() {
    // Two bad-credential rejections, then success, under a budget of
    // five: the send succeeds and the cache holds the token of the
    // final attempt only.
    let mut cache = CredentialCache::new();
    let mut send = ProxySend::begin(USER_KEY, 5);
    let mut mints = 0;
    for token in ["t1", "t2", "t3"] {
        assert!(matches!(send.next_action(&cache), Some(ProxyAction::Mint)));
        send.on_mint_result(&mut cache, Ok(mint_response(token)));
        mints += 1;
        if token == "t3" {
            send.on_attempt_result(&mut cache, AttemptOutcome::Success);
        } else {
            send.on_attempt_result(&mut cache, bad_credentials());
        }
    }
    assert_eq!(mints, 3);
    assert!(matches!(send.phase, SendPhase::Done(SendResult::Success)));
    assert_eq!(cached_token(&cache).as_deref(), Some("t3"));
}

#[test]
fn budget_exhaustion_returns_exhausted_after_exactly_budget_mints() {
    let mut cache = CredentialCache::new();
    let budget = 5;
    let mut send = ProxySend::begin(USER_KEY, budget);
    let mut mints = 0;
    loop {
        match send.next_action(&cache) {
            None => break,
            Some(ProxyAction::Mint) => {
                send.on_mint_result(&mut cache, Ok(mint_response("minted")));
                mints += 1;
                send.on_attempt_result(&mut cache, bad_credentials());
            }
            Some(ProxyAction::Attempt(_)) => {
                send.on_attempt_result(&mut cache, bad_credentials());
            }
        }
        if matches!(send.phase, SendPhase::Done(_)) {
            break;
        }
    }
    assert_eq!(mints, budget);
    assert!(matches!(send.phase, SendPhase::Done(SendResult::Exhausted)));
    assert!(cached_token(&cache).is_none());
}

#[test]
fn other_errors_are_surfaced_unchanged_and_not_retried() {
    let mut cache = CredentialCache::new();
    let mut send = ProxySend::begin(USER_KEY, 5);
    assert!(matches!(send.next_action(&cache), Some(ProxyAction::Mint)));
    send.on_mint_result(&mut cache, Ok(mint_response("t1")));
    send.on_attempt_result(
        &mut cache,
        AttemptOutcome::Failure(ApiError {
            code: ErrorCode::NotFound,
            message: "The resource was not found.".to_owned(),
        }),
    );
    match &send.phase {
        SendPhase::Done(SendResult::Failure(e)) => {
            assert_eq!(e.code, ErrorCode::NotFound);
            assert_eq!(e.message, "The resource was not found.");
        }
        other => panic!("expected the backend error unchanged, got {:?}", other),
    }
    // The cached token survives a non-credential failure.
    assert_eq!(cached_token(&cache).as_deref(), Some("t1"));
}

#[test]
fn mint_without_token_ends_the_send() {
    let mut cache = CredentialCache::new();
    let mut send = ProxySend::begin(USER_KEY, 5);
    assert!(matches!(send.next_action(&cache), Some(ProxyAction::Mint)));
    let mut refused = mint_response("unused");
    refused.access_token = None;
    send.on_mint_result(&mut cache, Ok(refused));
    assert!(matches!(send.phase, SendPhase::Done(SendResult::NoTokenGranted)));
}

#[test]
fn key_rotation_invalidates_and_reminted_token_wins() {
    // The full scenario: a first send mints and succeeds with t1; the
    // backend rotates its signing key; the next send gets a
    // bad-credential rejection, invalidates, re-mints t2 and
    // succeeds.  The cache then holds t2, not t1.
    let keys = SigningKeys::new(SECRET).unwrap();
    let rotated = SigningKeys::new_random();
    let now = 1_700_000_000;
    let t1 = Claims::builder(5).exp(900).build(now).encode(&keys).unwrap();
    let t2 = Claims::builder(5).exp(900).build(now + 60).encode(&rotated).unwrap();

    let mut cache = CredentialCache::new();
    let mut send = ProxySend::begin(USER_KEY, 5);
    assert!(matches!(send.next_action(&cache), Some(ProxyAction::Mint)));
    send.on_mint_result(&mut cache, Ok(mint_response(&t1)));
    send.on_attempt_result(&mut cache, AttemptOutcome::Success);
    assert!(matches!(send.phase, SendPhase::Done(SendResult::Success)));
    assert_eq!(cached_token(&cache).as_deref(), Some(t1.as_str()));

    // The backend now only accepts tokens under the rotated key.
    let mut send = ProxySend::begin(USER_KEY, 5);
    match send.next_action(&cache) {
        Some(ProxyAction::Attempt(stale)) => {
            assert_eq!(stale, t1);
            assert!(Claims::decode(&stale, &rotated, now + 60).is_err());
        }
        other => panic!("expected an attempt with the stale token, got {:?}", other),
    }
    send.on_attempt_result(&mut cache, bad_credentials());
    assert!(cached_token(&cache).is_none());
    assert!(matches!(send.next_action(&cache), Some(ProxyAction::Mint)));
    send.on_mint_result(&mut cache, Ok(mint_response(&t2)));
    send.on_attempt_result(&mut cache, AttemptOutcome::Success);
    assert!(matches!(send.phase, SendPhase::Done(SendResult::Success)));
    assert_eq!(cached_token(&cache).as_deref(), Some(t2.as_str()));
}

#[test]
fn cache_update_keeps_an_earlier_token_when_none_is_granted() {
    let mut cache = CredentialCache::new();
    let mut granted = mint_response("t1");
    cache.update(&granted);
    granted.access_token = None;
    granted.user.display_name = "renamed".to_owned();
    cache.update(&granted);
    let entry = cache.get(USER_KEY).unwrap();
    assert_eq!(entry.user.display_name, "renamed");
    assert_eq!(entry.access_token.as_deref(), Some("t1"));
}

#[test]
fn cache_invalidation_only_touches_its_key() {
    let mut cache = CredentialCache::new();
    cache.update(&mint_response("t1"));
    cache.put(
        33,
        CachedUser {
            user: User { id: 9, display_name: "other".to_owned() },
            access_token: Some("other-token".to_owned()),
        },
    );
    cache.invalidate(USER_KEY);
    assert!(cache.get(USER_KEY).is_none());
    assert_eq!(cache.get(33).unwrap().access_token.as_deref(), Some("other-token"));
}

#[test]
fn service_mode_is_single_attempt_with_error_unchanged() {
    assert!(service_send_result(AttemptOutcome::Success).is_ok());
    let err = service_send_result(AttemptOutcome::Failure(ApiError {
        code: ErrorCode::Forbidden,
        message: "This resource is forbidden.".to_owned(),
    }))
    .unwrap_err();
    assert_eq!(err.code, ErrorCode::Forbidden);
    assert_eq!(err.message, "This resource is forbidden.");
}

#[test]
fn warm_cache_exhaustion_mints_one_less_than_the_budget() {
    // With a token already cached, the first rejected attempt spends
    // it; every following round mints, so exhaustion takes one mint
    // fewer than the budget.
    let mut cache = CredentialCache::new();
    cache.update(&mint_response("stale"));
    let budget = 4;
    let mut send = ProxySend::begin(USER_KEY, budget);
    let mut mints = 0;
    loop {
        match send.next_action(&cache) {
            None => break,
            Some(ProxyAction::Mint) => {
                send.on_mint_result(&mut cache, Ok(mint_response("minted")));
                mints += 1;
                send.on_attempt_result(&mut cache, bad_credentials());
            }
            Some(ProxyAction::Attempt(_)) => {
                send.on_attempt_result(&mut cache, bad_credentials());
            }
        }
        if matches!(send.phase, SendPhase::Done(_)) {
            break;
        }
    }
    assert_eq!(mints, budget - 1);
    assert!(matches!(send.phase, SendPhase::Done(SendResult::Exhausted)));
    assert!(cached_token(&cache).is_none());
}
