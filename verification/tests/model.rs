//! Wire models, validation, pagination and configuration.

use nymph::card::{GrantRequest, ListCardsQuery, ListInventoryQuery, Visibility};
use nymph::config::{AccentTextConfig, CategoryConfig, token_refresh_retries_default};
use nymph::error::ErrorCode;
use nymph::pagination::Pagination;
use nymph::schema::Visibility as SchemaVisibility;
use nymph::user::{GrantTargetError, Id, validate_grant};
use nymph::validate::{Validator, ValidatorExt, value};

#[test]
fn error_codes_round_trip_on_the_wire() {
    let known = [
        (ErrorCode::MalformedJson, 4000),
        (ErrorCode::InvalidData, 4001),
        (ErrorCode::UnsupportedContentType, 4002),
        (ErrorCode::NotFound, 4003),
        (ErrorCode::Unauthenticated, 4004),
        (ErrorCode::Forbidden, 4005),
        (ErrorCode::Hidden, 4006),
        (ErrorCode::InsufficientPermissions, 4007),
        (ErrorCode::InvalidTransfer, 4008),
        (ErrorCode::BadCredentials, 4010),
        (ErrorCode::InternalServerError, 5000),
    ];
    for (code, wire) in known {
        assert_eq!(code.code(), wire);
        assert_eq!(ErrorCode::from_code(wire), code);
    }
}

#[test]
fn unrecognized_codes_pass_through_opaquely() {
    assert_eq!(ErrorCode::from_code(4009), ErrorCode::Other(4009));
    assert_eq!(ErrorCode::Other(4009).code(), 4009);
    assert_eq!(ErrorCode::from_code(1234), ErrorCode::Other(1234));
}

#[test]
fn visibility_strings_round_trip() {
    for v in [Visibility::Private, Visibility::Hidden, Visibility::Public] {
        assert_eq!(Visibility::from_str(v.to_str()).unwrap(), v);
    }
    assert_eq!(Visibility::Public.to_str(), "public");
    assert!(Visibility::Public.is_public());
    assert!(!Visibility::Hidden.is_public());
    let err = Visibility::from_str("secret").unwrap_err();
    assert_eq!(err.name, "secret");
}

#[test]
fn schema_visibility_codes_match_storage() {
    assert_eq!(SchemaVisibility::Private.code(), 0);
    assert_eq!(SchemaVisibility::Hidden.code(), 1);
    assert_eq!(SchemaVisibility::Public.code(), 2);
    assert_eq!(SchemaVisibility::from_code(2), Some(SchemaVisibility::Public));
    assert_eq!(SchemaVisibility::from_code(3), None);
    assert_eq!(
        SchemaVisibility::from_model(Visibility::Hidden).to_model(),
        Visibility::Hidden
    );
}

#[test]
fn ids_reject_zero() {
    assert!(Id::new(0).is_none());
    assert_eq!(Id::new(123).unwrap().get(), 123);
}

#[test]
fn grant_targets_exclude_bots() {
    assert!(validate_grant(false, false).is_ok());
    assert!(matches!(validate_grant(true, true), Err(GrantTargetError::IsCurrentUser)));
    assert!(matches!(validate_grant(false, true), Err(GrantTargetError::IsBot)));
    assert_eq!(GrantTargetError::IsBot.to_message(), "user is a bot");
    assert_eq!(GrantTargetError::IsCurrentUser.to_message(), "user is current bot");
}

#[test]
fn validators_check_ranges() {
    assert_eq!(value("count", 10usize).in_range(1, 25).validate().unwrap(), 10);
    let err = value("count", 26usize).in_range(1, 25).validate().unwrap_err();
    assert_eq!(err.name, "count");
    assert_eq!(err.lo, 1);
    assert_eq!(err.hi, 25);
    assert_eq!(value("anything", 7usize).validate().unwrap(), 7);
}

#[test]
fn pagination_serves_full_pages() {
    let page = Pagination::new(vec![1, 2, 3, 4, 5, 6, 7]);
    assert_eq!(page.paginate(1, 3).unwrap(), &[1, 2, 3]);
    assert_eq!(page.paginate(2, 3).unwrap(), &[4, 5, 6]);
    assert!(page.paginate(3, 3).is_err());
    assert_eq!(page.paginate(1, 7).unwrap(), &[1, 2, 3, 4, 5, 6, 7]);
    assert_eq!(page.paginate(1, 25).unwrap(), &[1, 2, 3, 4, 5, 6, 7]);
}

#[test]
fn pagination_rejects_out_of_range_requests() {
    let page = Pagination::new(vec![1, 2, 3]);
    let err = page.paginate(1, 0).unwrap_err();
    assert_eq!(err.name, "count");
    let err = page.paginate(1, 26).unwrap_err();
    assert_eq!(err.name, "count");
    let err = page.paginate(2, 3).unwrap_err();
    assert_eq!(err.name, "page");
    let wide = Pagination::new(vec![1, 2, 3]).limit(100);
    assert_eq!(wide.paginate(1, 100).unwrap(), &[1, 2, 3]);
}

#[test]
fn pagination_of_nothing_is_one_empty_page() {
    let page = Pagination::new(Vec::<i32>::new());
    assert_eq!(page.paginate(1, 5).unwrap(), &[] as &[i32]);
    assert!(page.paginate(2, 5).is_err());
}

#[test]
fn default_retry_budget_is_five() {
    assert_eq!(token_refresh_retries_default(), 5);
}

fn category(prefix: Option<&str>, suffix: Option<&str>) -> CategoryConfig {
    CategoryConfig {
        prefix: prefix.map(str::to_owned),
        suffix: suffix.map(str::to_owned),
        color: None,
    }
}

#[test]
fn category_titles_are_quoted_and_decorated() {
    assert_eq!(category(None, None).format_title("Ace"), "`Ace`");
    assert_eq!(category(Some("<"), None).format_title("Ace"), "< `Ace`");
    assert_eq!(category(None, Some(">")).format_title("Ace"), "`Ace` >");
    assert_eq!(category(Some("<"), Some(">")).format_title("Ace"), "< `Ace` >");
}

#[test]
fn accent_text_selection_picks_a_configured_line() {
    let accent = AccentTextConfig {
        no_cards_owned: "none".to_owned(),
        self_grant: "nice try".to_owned(),
        not_found: vec!["gone".to_owned(), "missing".to_owned()],
        unauthorized: vec!["hands off".to_owned()],
    };
    let picked = accent.select_not_found();
    assert!(picked == "gone" || picked == "missing");
    assert_eq!(accent.select_unauthorized(), "hands off");
}

#[test]
fn wire_queries_hold_their_fields() {
    let q = ListCardsQuery { query: Some("ace".to_owned()), page: Some(2), count: Some(10) };
    assert_eq!(q.query.as_deref(), Some("ace"));
    let inv = ListInventoryQuery { guild_id: Id::new(9), page: None, count: None };
    assert_eq!(inv.guild_id.unwrap().get(), 9);
    assert_eq!(GrantRequest { card_id: 3 }.card_id, 3);
}

#[test]
fn server_config_defaults_to_port_4000_and_no_secrets() {
    let config = nymph::server_config::Config::default();
    assert_eq!(config.server.port, nymph::server_config::DEFAULT_PORT);
    assert_eq!(config.server.port, 4000);
    assert!(config.server.database_url.is_none());
    assert!(config.server.signing_key.is_none());
}
