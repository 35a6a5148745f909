use keycloak_auth::claims::{Access, Email, Profile, ProfileAndEmail, RealmAccess, ResourceAccess, StandardClaims};
use keycloak_auth::decode::RawClaims;
use keycloak_auth::error::AuthError;
use keycloak_auth::instant::UtcInstant;
use keycloak_auth::role::KeycloakRole;
use keycloak_auth::token::{parse_raw_claims, parse_raw_claims_at, KeycloakToken};
use serde_json::Value;

fn names(list: &[&str]) -> Vec<String> {
    list.iter().map(|name| name.to_string()).collect()
}

fn claims(exp: Option<i64>, iat: i64) -> StandardClaims<()> {
    StandardClaims {
        exp,
        iat,
        jti: "id-1".to_string(),
        iss: "https://sso.example/realms/demo".to_string(),
        aud: Some(names(&["account"])),
        sub: "subject-1".to_string(),
        typ: "Bearer".to_string(),
        azp: "frontend".to_string(),
        realm_access: Some(RealmAccess(Access { roles: names(&["user"]) })),
        resource_access: None,
        groups: Some(names(&["/staff"])),
        extra: (),
    }
}

fn token(exp: Option<i64>) -> KeycloakToken<String, ()> {
    KeycloakToken::parse(claims(exp, 1_700_000_000)).unwrap()
}

fn at(seconds: i64, nanoseconds: u32) -> UtcInstant {
    UtcInstant { seconds, nanoseconds }
}

fn raw_claims() -> RawClaims {
    let mut raw = RawClaims::new();
    raw.insert("sub".to_string(), Value::String("subject-1".to_string()));
    raw
}

#[test]
fn the_fields_are_carried_over() {
    let parsed: KeycloakToken<String, ()> =
        KeycloakToken::parse(claims(Some(1_700_000_300), 1_700_000_000)).unwrap();
    assert_eq!(parsed.expires_at, at(1_700_000_300, 0));
    assert_eq!(parsed.issued_at, at(1_700_000_000, 0));
    assert_eq!(parsed.jwt_id, "id-1");
    assert_eq!(parsed.issuer, "https://sso.example/realms/demo");
    assert_eq!(parsed.audience, Some(names(&["account"])));
    assert_eq!(parsed.subject, "subject-1");
    assert_eq!(parsed.authorized_party, "frontend");
    assert_eq!(parsed.groups, Some(names(&["/staff"])));
    assert_eq!(parsed.roles, vec![KeycloakRole::Realm { role: "user".to_string() }]);
}

#[test]
fn the_extra_payload_is_carried_over() {
    let mut raw = claims(None, 0);
    raw.aud = None;
    raw.groups = None;
    let raw = StandardClaims {
        exp: raw.exp,
        iat: raw.iat,
        jti: raw.jti,
        iss: raw.iss,
        aud: raw.aud,
        sub: raw.sub,
        typ: raw.typ,
        azp: raw.azp,
        realm_access: None,
        resource_access: None,
        groups: raw.groups,
        extra: ProfileAndEmail {
            profile: Some(Profile {
                given_name: Some("Ada".to_string()),
                full_name: None,
                family_name: Some("Lovelace".to_string()),
                preferred_username: Some("ada".to_string()),
            }),
            email: Some(Email { email: Some("ada@example.org".to_string()), email_verified: Some(true) }),
        },
    };
    let parsed: KeycloakToken<String> = KeycloakToken::parse(raw).unwrap();
    assert_eq!(parsed.audience, None);
    assert_eq!(parsed.groups, None);
    assert!(parsed.roles.is_empty());
    let profile = parsed.extra.profile.unwrap();
    assert_eq!(profile.given_name.as_deref(), Some("Ada"));
    assert_eq!(profile.family_name.as_deref(), Some("Lovelace"));
    assert_eq!(profile.preferred_username.as_deref(), Some("ada"));
    assert_eq!(profile.full_name, None);
    let email = parsed.extra.email.unwrap();
    assert_eq!(email.email.as_deref(), Some("ada@example.org"));
    assert_eq!(email.email_verified, Some(true));
}

#[test]
fn without_exp_the_token_expires_at_the_latest_instant() {
    let parsed = token(None);
    assert_eq!(parsed.expires_at, UtcInstant::latest());
    assert_eq!(parsed.expires_at, at(253_402_300_799, 999_999_999));
}

#[test]
fn an_exp_out_of_range_is_an_invalid_token() {
    let outcome: Result<KeycloakToken<String, ()>, AuthError> =
        KeycloakToken::parse(claims(Some(i64::MAX), 0));
    assert_eq!(
        outcome.unwrap_err(),
        AuthError::InvalidToken {
            reason: "Could not parse 'exp' (expires_at) field as unix timestamp: timestamp was not in range"
                .to_string()
        }
    );
}

#[test]
fn an_iat_out_of_range_is_an_invalid_token() {
    let outcome: Result<KeycloakToken<String, ()>, AuthError> =
        KeycloakToken::parse(claims(Some(10), 253_402_300_800));
    assert_eq!(
        outcome.unwrap_err(),
        AuthError::InvalidToken {
            reason: "Could not parse 'iat' (issued_at) field as unix timestamp: timestamp was not in range"
                .to_string()
        }
    );
}

#[test]
fn an_iat_out_of_range_fails_without_exp_too() {
    let outcome: Result<KeycloakToken<String, ()>, AuthError> =
        KeycloakToken::parse(claims(None, i64::MIN));
    assert!(matches!(outcome, Err(AuthError::InvalidToken { reason }) if reason.contains("'iat'")));
}

#[test]
fn exp_is_complained_of_before_iat() {
    let outcome: Result<KeycloakToken<String, ()>, AuthError> =
        KeycloakToken::parse(claims(Some(i64::MIN), i64::MAX));
    assert!(matches!(outcome, Err(AuthError::InvalidToken { reason }) if reason.contains("'exp'")));
}

#[test]
fn the_ends_of_the_range_are_timestamps() {
    let parsed: KeycloakToken<String, ()> =
        KeycloakToken::parse(claims(Some(253_402_300_799), -377_705_116_800)).unwrap();
    assert_eq!(parsed.expires_at, at(253_402_300_799, 0));
    assert_eq!(parsed.issued_at, at(-377_705_116_800, 0));
}

#[test]
fn realm_roles_come_before_client_roles() {
    let mut raw = claims(None, 0);
    raw.realm_access = Some(RealmAccess(Access { roles: names(&["user", "admin"]) }));
    raw.resource_access = Some(ResourceAccess(vec![
        ("shop".to_string(), Access { roles: names(&["buyer", "user"]) }),
        ("crm".to_string(), Access { roles: names(&[]) }),
        ("app".to_string(), Access { roles: names(&["writer"]) }),
    ]));
    let parsed: KeycloakToken<String, ()> = KeycloakToken::parse(raw).unwrap();
    assert_eq!(
        parsed.roles,
        vec![
            KeycloakRole::Realm { role: "user".to_string() },
            KeycloakRole::Realm { role: "admin".to_string() },
            KeycloakRole::Client { client: "shop".to_string(), role: "buyer".to_string() },
            KeycloakRole::Client { client: "shop".to_string(), role: "user".to_string() },
            KeycloakRole::Client { client: "app".to_string(), role: "writer".to_string() },
        ]
    );
}

#[test]
fn client_roles_alone_are_extracted() {
    let mut raw = claims(None, 0);
    raw.realm_access = None;
    raw.resource_access =
        Some(ResourceAccess(vec![("app".to_string(), Access { roles: names(&["writer"]) })]));
    let parsed: KeycloakToken<String, ()> = KeycloakToken::parse(raw).unwrap();
    assert_eq!(
        parsed.roles,
        vec![KeycloakRole::Client { client: "app".to_string(), role: "writer".to_string() }]
    );
}

#[test]
fn a_token_is_not_expired_at_its_time_of_expiry() {
    let parsed = token(Some(1_000));
    assert!(!parsed.is_expired_at(&at(1_000, 0)));
    assert!(!parsed.is_expired_at(&at(999, 999_999_999)));
    assert_eq!(parsed.assert_not_expired_at(&at(1_000, 0)), Ok(()));
}

#[test]
fn a_token_is_expired_a_nanosecond_later() {
    let parsed = token(Some(1_000));
    assert!(parsed.is_expired_at(&at(1_000, 1)));
    assert_eq!(parsed.assert_not_expired_at(&at(1_000, 1)), Err(AuthError::TokenExpired));
}

#[test]
fn a_token_that_expired_a_second_ago_is_expired() {
    let parsed = token(Some(1_700_000_000));
    let now = at(1_700_000_001, 0);
    assert!(parsed.is_expired_at(&now));
    assert_eq!(parsed.assert_not_expired_at(&now), Err(AuthError::TokenExpired));
}

#[test]
fn a_token_without_exp_never_expires() {
    let parsed = token(None);
    assert!(!parsed.is_expired_at(&at(4_102_444_800, 0)));
    assert!(!parsed.is_expired_at(&UtcInstant::latest()));
    assert_eq!(parsed.assert_not_expired_at(&at(253_402_300_799, 999_999_999)), Ok(()));
    assert!(!parsed.is_expired());
    assert_eq!(parsed.assert_not_expired(), Ok(()));
}

#[test]
fn the_clock_decides_for_a_token_with_exp() {
    let past = token(Some(1_000));
    assert!(past.is_expired());
    assert_eq!(past.assert_not_expired(), Err(AuthError::TokenExpired));
    let future = token(Some(253_402_300_799));
    assert!(!future.is_expired());
    assert_eq!(future.assert_not_expired(), Ok(()));
}

#[test]
fn a_missing_role_is_named() {
    let parsed = token(None);
    assert_eq!(
        parsed.expect_roles(&["admin".to_string()]),
        Err(AuthError::MissingExpectedRole { role: "admin".to_string() })
    );
}

#[test]
fn the_first_missing_role_is_the_one_named() {
    let parsed = token(None);
    let required = names(&["user", "auditor", "admin"]);
    assert_eq!(
        parsed.expect_roles(&required),
        Err(AuthError::MissingExpectedRole { role: "auditor".to_string() })
    );
}

#[test]
fn held_roles_are_accepted() {
    let parsed = token(None);
    assert_eq!(parsed.expect_roles(&["user".to_string()]), Ok(()));
    assert_eq!(parsed.expect_roles(&names(&["user", "user"])), Ok(()));
    let none: Vec<String> = Vec::new();
    assert_eq!(parsed.expect_roles(&none), Ok(()));
}

#[test]
fn a_client_role_meets_a_requirement() {
    let mut raw = claims(None, 0);
    raw.realm_access = None;
    raw.resource_access =
        Some(ResourceAccess(vec![("app".to_string(), Access { roles: names(&["writer"]) })]));
    let parsed: KeycloakToken<String, ()> = KeycloakToken::parse(raw).unwrap();
    assert_eq!(parsed.expect_roles(&["writer".to_string()]), Ok(()));
    assert_eq!(
        parsed.expect_roles(&["app".to_string()]),
        Err(AuthError::MissingExpectedRole { role: "app".to_string() })
    );
}

#[test]
fn a_forbidden_role_is_turned_down() {
    let parsed = token(None);
    assert_eq!(parsed.not_expect_roles(&names(&["admin", "user"])), Err(AuthError::UnexpectedRole));
}

#[test]
fn roles_that_are_not_held_are_not_forbidden() {
    let parsed = token(None);
    assert_eq!(parsed.not_expect_roles(&names(&["admin", "auditor"])), Ok(()));
    let none: Vec<String> = Vec::new();
    assert_eq!(parsed.not_expect_roles(&none), Ok(()));
}

#[test]
fn a_json_failure_comes_back_as_it_is() {
    let outcome: Result<(Option<RawClaims>, KeycloakToken<String, ()>), AuthError> =
        parse_raw_claims_at(
            raw_claims(),
            Err("missing field `iat`".to_string()),
            true,
            &["user".to_string()],
            &at(0, 0),
        );
    assert_eq!(
        outcome.unwrap_err(),
        AuthError::JsonParse { message: "missing field `iat`".to_string() }
    );
}

#[test]
fn checked_claims_give_the_token() {
    let (kept, parsed) = parse_raw_claims_at::<String, ()>(
        raw_claims(),
        Ok(claims(Some(2_000), 1_000)),
        false,
        &["user".to_string()],
        &at(1_500, 0),
    )
    .unwrap();
    assert_eq!(kept, None);
    assert_eq!(parsed.expires_at, at(2_000, 0));
    assert_eq!(parsed.subject, "subject-1");
}

#[test]
fn the_raw_claims_are_kept_on_request() {
    let (kept, _) = parse_raw_claims_at::<String, ()>(
        raw_claims(),
        Ok(claims(Some(2_000), 1_000)),
        true,
        &[],
        &at(1_500, 0),
    )
    .unwrap();
    assert_eq!(kept, Some(raw_claims()));
}

#[test]
fn a_bad_timestamp_comes_before_expiry() {
    let outcome = parse_raw_claims_at::<String, ()>(
        raw_claims(),
        Ok(claims(Some(1), i64::MAX)),
        false,
        &["admin".to_string()],
        &at(1_500, 0),
    );
    assert!(matches!(outcome, Err(AuthError::InvalidToken { reason }) if reason.contains("'iat'")));
}

#[test]
fn expiry_comes_before_the_roles() {
    let outcome = parse_raw_claims_at::<String, ()>(
        raw_claims(),
        Ok(claims(Some(1_499), 1_000)),
        false,
        &["admin".to_string()],
        &at(1_500, 0),
    );
    assert_eq!(outcome.unwrap_err(), AuthError::TokenExpired);
}

#[test]
fn a_missing_role_fails_a_token_in_time() {
    let outcome = parse_raw_claims_at::<String, ()>(
        raw_claims(),
        Ok(claims(Some(1_500), 1_000)),
        true,
        &names(&["user", "admin"]),
        &at(1_500, 0),
    );
    assert_eq!(
        outcome.unwrap_err(),
        AuthError::MissingExpectedRole { role: "admin".to_string() }
    );
}

#[test]
fn the_clock_is_read_where_no_instant_is_given() {
    let live = parse_raw_claims::<String, ()>(
        raw_claims(),
        Ok(claims(None, 1_000)),
        true,
        &["user".to_string()],
    );
    let (kept, parsed) = live.unwrap();
    assert_eq!(kept, Some(raw_claims()));
    assert_eq!(parsed.expires_at, UtcInstant::latest());
    let stale = parse_raw_claims::<String, ()>(raw_claims(), Ok(claims(Some(1_000), 0)), false, &[]);
    assert_eq!(stale.unwrap_err(), AuthError::TokenExpired);
    let failed = parse_raw_claims::<String, ()>(raw_claims(), Err("no".to_string()), false, &[]);
    assert_eq!(failed.unwrap_err(), AuthError::JsonParse { message: "no".to_string() });
}
