use pictou_auth::clients::{routes, Clients, Route};
use pictou_auth::context::AuthContext;
use pictou_auth::error::AuthError;
use pictou_auth::refresh::{
    find_email, grant_refresh, refresh_token, PersistedUserInfo, RefreshError, RefreshTokenParams,
    UserCredentials, ACCESS_TOKEN_LIFETIME, REFRESH_TOKEN_LIFETIME,
};
use pictou_auth::timestamp::Timestamp;
use pictou_auth::user_id::UserId;

const NANOS: i128 = 1_000_000_000;
const LAST_SECOND: i128 = 253_402_300_799;

fn at(nanos: i128) -> Timestamp {
    Timestamp::from_unix_timestamp_nanos(nanos).unwrap()
}

fn params(user_id: u128, token: &str) -> RefreshTokenParams {
    RefreshTokenParams { user_id: UserId { value: user_id }, refresh_token: token.to_string() }
}

fn user(user_id: u128, email: &str, token: Option<&str>, exp: i128) -> UserCredentials {
    UserCredentials {
        user_id: UserId { value: user_id },
        email: email.to_string(),
        refresh_token: token.map(str::to_string),
        refresh_token_exp: at(exp),
    }
}

#[test]
fn lifetimes() {
    assert_eq!(ACCESS_TOKEN_LIFETIME, 3 * 60);
    assert_eq!(REFRESH_TOKEN_LIFETIME, 30 * 24 * 60 * 60);
}

#[test]
fn email_of_the_vouched_user() {
    let users = vec![
        user(1, "none@x", None, 100),
        user(2, "other@x", Some("t"), 100),
        user(1, "late@x", Some("t"), 49),
        user(1, "first@x", Some("t"), 50),
        user(1, "second@x", Some("t"), 200),
    ];
    assert_eq!(find_email(&users, &params(1, "t"), &at(50)).as_deref(), Some("first@x"));
    assert_eq!(find_email(&users, &params(1, "t"), &at(51)).as_deref(), Some("second@x"));
    assert_eq!(find_email(&users, &params(1, "t"), &at(201)), None);
    assert_eq!(find_email(&users, &params(1, "u"), &at(50)), None);
    assert_eq!(find_email(&users, &params(1, ""), &at(50)), None);
    assert_eq!(find_email(&users, &params(3, "t"), &at(50)), None);
    assert_eq!(find_email(&vec![], &params(1, "t"), &at(50)), None);
}

#[test]
fn refused_refresh() {
    let users = vec![user(1, "a@x", Some("t"), 50)];
    let refused = RefreshError::Refused(AuthError::InvalidCredentials);
    for (presented, now) in [(params(1, "u"), 0), (params(2, "t"), 0), (params(1, "t"), 51)] {
        assert_eq!(refresh_token(&presented, &users, at(now), b"secret").err(), Some(refused));
    }
}

#[test]
fn granted_refresh() {
    let before = Timestamp::now_utc().unix_timestamp_nanos();
    let users = vec![user(1, "a@x", Some("t"), 50)];
    let grant = refresh_token(&params(1, "t"), &users, at(50), b"secret").unwrap();
    let after = Timestamp::now_utc().unix_timestamp_nanos();

    assert_eq!(grant.user_id, UserId { value: 1 });
    assert_eq!(grant.email, "a@x");
    let issued_at = grant.access_token_exp.unix_timestamp_nanos() - 180 * NANOS;
    assert!(before <= issued_at && issued_at <= after);
    let replaced_at = grant.refresh_token_exp.unix_timestamp_nanos() - 2_592_000 * NANOS;
    assert!(before <= replaced_at && replaced_at <= after);
    assert_eq!(grant.refresh_token.len(), 172);

    let header = format!("Bearer {}", grant.access_token);
    let context = AuthContext::authenticate_request(Some(b"secret"), Some(header.as_bytes()));
    assert_eq!(context.unwrap().user_id, UserId { value: 1 });
    let claims = AuthContext::decode_jwt(&grant.access_token, b"secret").unwrap().claims;
    assert_eq!(claims.exp, grant.access_token_exp.unix_timestamp());
}

#[test]
fn replaced_refresh_token_is_spent() {
    let users = vec![user(2, "b@x", Some("t"), 50), user(1, "a@x", Some("t"), 50)];
    let grant = refresh_token(&params(1, "t"), &users, at(50), b"secret").unwrap();
    let exp = grant.refresh_token_exp.unix_timestamp_nanos();
    let users =
        vec![user(2, "b@x", Some("t"), 50), user(1, "a@x", Some(&grant.refresh_token), exp)];
    let refused = Some(RefreshError::Refused(AuthError::InvalidCredentials));
    assert_eq!(refresh_token(&params(1, "t"), &users, at(50), b"secret").err(), refused);
    assert_eq!(find_email(&users, &params(2, "t"), &at(50)).as_deref(), Some("b@x"));
    let presented = params(1, &grant.refresh_token);
    let next = refresh_token(&presented, &users, at(exp), b"secret").unwrap();
    assert_ne!(next.refresh_token, grant.refresh_token);
    assert_eq!(refresh_token(&presented, &users, at(exp + 1), b"secret").err(), refused);
}

#[test]
fn grant_at_given_instants() {
    let id = UserId { value: 9 };
    let grant = |issued_at: i128, replaced_at: i128| {
        let email = "a@x".to_string();
        grant_refresh(id, email, b"s", at(issued_at), "new".to_string(), at(replaced_at))
    };
    let granted = grant(1_000, 2_000).unwrap();
    assert_eq!(granted.access_token_exp, at(180 * NANOS + 1_000));
    assert_eq!(granted.refresh_token_exp, at(2_592_000 * NANOS + 2_000));
    assert_eq!(granted.refresh_token, "new");
    let access_token = AuthContext::encode_jwt(id, at(180 * NANOS), b"s").unwrap();
    assert_eq!(granted.access_token, access_token);

    let latest = (LAST_SECOND + 1) * NANOS - 1;
    assert!(grant(latest - 180 * NANOS, latest - 2_592_000 * NANOS).is_ok());
    let late = Some(RefreshError::ClockOutOfRange);
    assert_eq!(grant(latest - 180 * NANOS + 1, 0).err(), late);
    assert_eq!(grant(0, latest - 2_592_000 * NANOS + 1).err(), late);
}

#[test]
fn response_of_a_grant() {
    let grant = grant_refresh(
        UserId { value: 9 },
        "a@x".to_string(),
        b"s",
        at(0),
        "new".to_string(),
        at(0),
    )
    .unwrap();
    let access_token = grant.access_token.clone();
    let response = grant.into_response(PersistedUserInfo {
        user_id: UserId { value: 9 },
        email: "a@x".to_string(),
        refresh_token: Some("new".to_string()),
        refresh_token_exp: at(2_592_000 * NANOS),
        name: Some("A B".to_string()),
        given_name: Some("A".to_string()),
        family_name: None,
    });
    assert_eq!(response.access_token, access_token);
    assert_eq!(response.access_token_exp, at(180 * NANOS));
    assert_eq!(response.user.name.as_deref(), Some("A B"));
    assert_eq!(response.user.family_name, None);
    assert_eq!(response.user.refresh_token.as_deref(), Some("new"));
}

#[test]
fn timestamps() {
    assert_eq!(at(1_999_999_999).unix_timestamp(), 1);
    assert_eq!(at(-1).unix_timestamp(), -1);
    assert_eq!(at(-1_000_000_001).unix_timestamp(), -2);
    assert_eq!(at(-1).unix_timestamp_nanos(), -1);
    let first = -377_705_116_800 * NANOS;
    assert_eq!(at(first).unix_timestamp(), -377_705_116_800);
    assert!(Timestamp::from_unix_timestamp_nanos(first - 1).is_none());
    let latest = (LAST_SECOND + 1) * NANOS - 1;
    assert_eq!(at(latest).unix_timestamp_nanos(), latest);
    assert!(Timestamp::from_unix_timestamp_nanos(latest + 1).is_none());
    assert!(Timestamp::from_unix_timestamp_nanos(i128::MAX).is_none());
    assert_eq!(at(7).checked_add_seconds(3), Some(at(3 * NANOS + 7)));
    assert_eq!(at(first).checked_add_seconds(0), Some(at(first)));
    assert_eq!(at(-1).checked_add_seconds(1), Some(at(NANOS - 1)));
    assert_eq!(at(latest).checked_add_seconds(1), None);
    assert_eq!(at(7).checked_add_seconds(-90_000), Some(at(7 - 90_000 * NANOS)));
    assert_eq!(at(first).checked_add_seconds(-1), None);
    assert_eq!(at(latest).checked_add_seconds(i64::MIN), None);
    assert_eq!(at(0).checked_add_seconds(i64::MAX), None);
    assert!(at(1).is_at_or_after(&at(1)));
    assert!(!at(0).is_at_or_after(&at(1)));
    assert!(Timestamp::now_utc().unix_timestamp() > 1_700_000_000);
}

#[test]
fn routes_by_clients() {
    let off: Clients<u32> = Clients::new(Err("no connection"));
    let served = routes(&off);
    assert_eq!(served.len(), 1);
    assert!(matches!(served[0], Route::RefreshToken));
    assert_eq!(served[0].endpoint(), Some(("POST", "/auth/refresh")));

    let on: Clients<u32> = Clients::new(Ok::<u32, String>(7));
    for clients in [on.clone(), on] {
        let served = routes(&clients);
        assert_eq!(served.len(), 2);
        assert!(matches!(served[0], Route::RefreshToken));
        assert!(matches!(&served[1], Route::Google(client) if **client == 7));
        assert_eq!(served[1].endpoint(), None);
    }
}
