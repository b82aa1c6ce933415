use actix_web::http::header;
use actix_web::test::TestRequest;
use actix_web::HttpRequest;
use base64::prelude::{Engine, BASE64_STANDARD, BASE64_URL_SAFE_NO_PAD};
use jsonwebtoken as jwt;
use pictou_auth::context::{AuthContext, TokenData};
use pictou_auth::error::AuthError;
use pictou_auth::jwt::{find_claim, Claim, ClaimValue, DecodedToken};
use pictou_auth::timestamp::Timestamp;
use pictou_auth::token::AuthenticationToken;
use pictou_auth::user_id::UserId;
use serde_json::Value;

// {
//   "sub": "f09d493d-a117-465d-84de-96fb4469dd40",
//   "exp": 1916239022,
//   "iss": "pictou",
//   "aud": "pictou"
// }
const VALID_JWT: &str = "\
    eyJhbGciOiJIUzI1NiIsInR5cCI6IkpXVCJ9.eyJz\
    dWIiOiJmMDlkNDkzZC1hMTE3LTQ2NWQtODRkZS05N\
    mZiNDQ2OWRkNDAiLCJleHAiOjE5MTYyMzkwMjIsIm\
    lzcyI6InBpY3RvdSIsImF1ZCI6InBpY3RvdSJ9.7s\
    9spRPknrCpPLxLloVpUkPrmFxEyFklY7Bq-aF3d6I";

// {
//   "sub": "f09d493d-a117-465d-84de-96fb4469dd40",
//   "exp": 1516239022,
//   "iss": "pictou",
//   "aud": "pictou"
// }
const EXPIRED_JWT: &str = "\
    eyJhbGciOiJIUzI1NiIsInR5cCI6IkpXVCJ9.eyJz\
    dWIiOiJmMDlkNDkzZC1hMTE3LTQ2NWQtODRkZS05N\
    mZiNDQ2OWRkNDAiLCJleHAiOjE1MTYyMzkwMjIsIm\
    lzcyI6InBpY3RvdSIsImF1ZCI6InBpY3RvdSJ9.zI\
    UtLivXOklBsSNbFcGgMS1uE9FSdd9E_qYm41c3gwQ";

// {
//   "sub": "f09d493d-a117-465d-84de-96fb4469dd40",
//   "exp": 1916239022,
//   "iss": "pictou",
//   "aud": "picsou"
// }
const WRONG_AUD_JWT: &str = "\
    eyJhbGciOiJIUzI1NiIsInR5cCI6IkpXVCJ9.eyJz\
    dWIiOiJmMDlkNDkzZC1hMTE3LTQ2NWQtODRkZS05N\
    mZiNDQ2OWRkNDAiLCJleHAiOjE5MTYyMzkwMjIsIm\
    lzcyI6InBpY3RvdSIsImF1ZCI6InBpY3NvdSJ9.VX\
    PbzH1-JVM_-anGEMx7WK_u9_7GfGRTYwlnzARbAR8";

const SUBJECT: &str = "f09d493d-a117-465d-84de-96fb4469dd40";

fn subject() -> UserId {
    UserId::parse_str(SUBJECT).unwrap()
}

fn at_second(seconds: i64) -> Timestamp {
    Timestamp::from_unix_timestamp_nanos(seconds as i128 * 1_000_000_000).unwrap()
}

fn in_a_minute() -> Timestamp {
    Timestamp::now_utc().checked_add_seconds(60).unwrap()
}

fn bearer_of(request: &HttpRequest) -> Result<String, AuthError> {
    let value = request.headers().get(header::AUTHORIZATION);
    AuthContext::parse_bearer_token(value.map(|value| value.as_bytes()))
}

/// A token with the given claims, signed with `secret`.
fn signed(algorithm: jwt::Algorithm, claims: &[(&str, Value)]) -> String {
    let claims: serde_json::Map<String, Value> =
        claims.iter().map(|(name, value)| (name.to_string(), value.clone())).collect();
    jwt::encode(&jwt::Header::new(algorithm), &claims, &jwt::EncodingKey::from_secret(b"secret"))
        .unwrap()
}

/// A token with the given bytes as its payload, signed with `secret`.
fn signed_payload(payload: &[u8]) -> String {
    let header = BASE64_URL_SAFE_NO_PAD.encode(r#"{"typ":"JWT","alg":"HS256"}"#);
    let message = format!("{header}.{}", BASE64_URL_SAFE_NO_PAD.encode(payload));
    let key = jwt::EncodingKey::from_secret(b"secret");
    let signature = jwt::crypto::sign(message.as_bytes(), &key, jwt::Algorithm::HS256).unwrap();
    format!("{message}.{signature}")
}

/// Claims that are accepted, with one of them replaced or, where there is no value, left out.
fn claims_but(name: &str, value: Option<Value>) -> Vec<(&str, Value)> {
    let mut claims = vec![
        ("aud", Value::from("pictou")),
        ("iss", Value::from("pictou")),
        ("exp", Value::from(1916239022_i64)),
        ("sub", Value::from(SUBJECT)),
    ];
    claims.retain(|claim| claim.0 != name);
    if let Some(value) = value {
        claims.push((name, value));
    }
    claims
}

fn decode_but(name: &str, value: Option<Value>) -> Result<TokenData, AuthError> {
    AuthContext::decode_jwt(&signed(jwt::Algorithm::HS256, &claims_but(name, value)), b"secret")
}

#[test]
fn test_parse_bearer_token() {
    assert!(bearer_of(&TestRequest::get().to_http_request()).is_err());
    assert!(bearer_of(
        &TestRequest::get().insert_header(("Authorization", "")).to_http_request()
    )
    .is_err());
    assert!(bearer_of(
        &TestRequest::get().insert_header(("Authorization", "Basic dGVzdA==")).to_http_request()
    )
    .is_err());
    assert!(bearer_of(
        &TestRequest::get().insert_header(("Authorization", "Bearer")).to_http_request()
    )
    .is_err());
    assert_eq!(
        bearer_of(
            &TestRequest::get().insert_header(("Authorization", "Bearer token")).to_http_request()
        )
        .as_deref(),
        Ok("token")
    );
}

#[test]
fn bearer_token_edges() {
    let invalid: Result<String, AuthError> = Err(AuthError::InvalidAuthorizationHeader);
    assert_eq!(AuthContext::parse_bearer_token(None), invalid);
    assert_eq!(AuthContext::parse_bearer_token(Some(b"bearer token")), invalid);
    assert_eq!(AuthContext::parse_bearer_token(Some(b" Bearer token")), invalid);
    assert_eq!(AuthContext::parse_bearer_token(Some(b"Bearer tok\xc3\xa9n")), invalid);
    assert_eq!(AuthContext::parse_bearer_token(Some(b"Bearer tok\x7fen")), invalid);
    assert_eq!(AuthContext::parse_bearer_token(Some(b"Bearer tok\nen")), invalid);
    assert_eq!(AuthContext::parse_bearer_token(Some(b"Bearer ")), Ok("".to_string()));
    assert_eq!(AuthContext::parse_bearer_token(Some(b"Bearer \t ~")), Ok("\t ~".to_string()));
    assert_eq!(
        AuthContext::parse_bearer_token(Some(b"Bearer Bearer x")),
        Ok("Bearer x".to_string())
    );
}

#[test]
fn test_decode_jwt() {
    assert!(AuthContext::decode_jwt("invalid token", &[]).is_err());
    assert!(
        AuthContext::decode_jwt(EXPIRED_JWT, b"secret").is_err(),
        "expired token should fail"
    );
    assert!(
        AuthContext::decode_jwt(WRONG_AUD_JWT, b"secret").is_err(),
        "token with wrong audience should fail"
    );
    assert!(
        AuthContext::decode_jwt(VALID_JWT, b"wrong secret").is_err(),
        "invalid secret should fail"
    );

    let Ok(valid_token) = AuthContext::decode_jwt(VALID_JWT, b"secret") else {
        panic!("valid token failed to decode")
    };
    assert_eq!(
        valid_token.claims.sub,
        UserId::parse_str("f09d493d-a117-465d-84de-96fb4469dd40").unwrap()
    );
}

#[test]
fn test_encode_decode_jwt() {
    let secret = b"secret";

    let expires_at = Timestamp::now_utc().checked_add_seconds(60).unwrap();
    let encoded = AuthContext::encode_jwt(
        UserId::parse_str("f09d493d-a117-465d-84de-96fb4469dd40").unwrap(),
        expires_at,
        secret,
    )
    .expect("failed to encode token");

    let decoded = AuthContext::decode_jwt(&encoded, secret).expect("failed to decode token");

    assert_eq!(decoded.header.alg, "HS256");
    assert_eq!(
        decoded.claims.sub,
        UserId::parse_str("f09d493d-a117-465d-84de-96fb4469dd40").unwrap()
    );
    assert_eq!(decoded.claims.aud, "pictou");
    assert_eq!(decoded.claims.iss, "pictou");
    assert_eq!(decoded.claims.exp, expires_at.unix_timestamp());
}

#[test]
fn encoded_token_is_the_signed_claims() {
    let token = AuthContext::encode_jwt(subject(), at_second(1916239022), b"secret").unwrap();
    let claims =
        r#"{"aud":"pictou","iss":"pictou","exp":1916239022,"sub":"f09d493d-a117-465d-84de-96fb4469dd40"}"#;
    assert_eq!(token, signed_payload(claims.as_bytes()));
}

#[test]
fn token_that_expired_before_the_epoch_is_refused() {
    let token = AuthContext::encode_jwt(subject(), at_second(-1), b"secret").unwrap();
    assert_eq!(AuthContext::decode_jwt(&token, b"secret").err(), Some(AuthError::InvalidToken));
}

#[test]
fn expiry_has_a_minute_of_leeway() {
    let now = Timestamp::now_utc().unix_timestamp();
    let fresh = AuthContext::encode_jwt(subject(), at_second(now - 30), b"secret").unwrap();
    assert!(AuthContext::decode_jwt(&fresh, b"secret").is_ok());
    let stale = AuthContext::encode_jwt(subject(), at_second(now - 90), b"secret").unwrap();
    assert_eq!(AuthContext::decode_jwt(&stale, b"secret").err(), Some(AuthError::InvalidToken));
}

#[test]
fn other_claims_do_not_matter() {
    let data = decode_but("scope", Some(Value::from("all"))).unwrap();
    assert_eq!(data.claims.sub, subject());
    assert_eq!(data.claims.exp, 1916239022);
}

#[test]
fn other_claims_are_passed_over_whatever_they_hold() {
    let deep = format!("{}{}", "[".repeat(500), "]".repeat(500));
    for value in ["1e999", "-123456789012345678901234567890", r#""\ud800""#, "null", &deep] {
        let payload = format!(
            r#"{{"x":{value},"aud":"pictou","iss":"pictou","exp":1916239022,"sub":"{SUBJECT}","x":{value}}}"#
        );
        let data = AuthContext::decode_jwt(&signed_payload(payload.as_bytes()), b"secret").unwrap();
        assert_eq!(data.claims.sub, subject(), "{}", value);
    }
}

#[test]
fn claims_are_read_as_json() {
    let decode = |payload: String| {
        AuthContext::decode_jwt(&signed_payload(payload.as_bytes()), b"secret")
    };
    let claims = r#""iss":"pictou","exp":1916239022"#;
    let escaped = format!(r#"{{"\u0061ud" : "pict\u006fu",{claims},"sub":"{SUBJECT}"}}"#);
    assert_eq!(decode(escaped).unwrap().claims.aud, "pictou");
    for payload in [
        format!(r#"{{"aud":"pictou","aud":"pictou",{claims},"sub":"{SUBJECT}"}}"#),
        format!(r#"{{"aud":"pictou",{claims},"sub":"{SUBJECT}","sub":"{SUBJECT}"}}"#),
        format!(r#"{{"aud":"\ud800",{claims},"sub":"{SUBJECT}"}}"#),
        format!(r#"{{"aud":"pictou",{claims},"sub":{{}}}}"#),
        format!(r#"["pictou","pictou",1916239022,"{SUBJECT}"]"#),
        format!(r#"{{"aud":"pictou",{claims},"sub":"{SUBJECT}"}},"#),
    ] {
        assert_eq!(decode(payload).err(), Some(AuthError::InvalidToken));
    }
}

#[test]
fn token_under_another_secret_is_refused() {
    let token = AuthContext::encode_jwt(subject(), in_a_minute(), b"secret").unwrap();
    let (message, signature) = token.rsplit_once('.').unwrap();
    for other in [&b"other"[..], &b"Secret"[..], &b""[..]] {
        let key = jwt::EncodingKey::from_secret(other);
        let signed = jwt::crypto::sign(message.as_bytes(), &key, jwt::Algorithm::HS256).unwrap();
        assert_ne!(signed, signature);
        assert_eq!(AuthContext::decode_jwt(&token, other).err(), Some(AuthError::InvalidToken));
        assert!(AuthContext::decode_jwt(&format!("{message}.{signed}"), other).is_ok());
    }
    assert_eq!(AuthContext::decode_jwt(message, b"secret").err(), Some(AuthError::InvalidToken));
}

#[test]
fn tokens_of_different_users_or_expiries_differ() {
    let token = AuthContext::encode_jwt(subject(), at_second(100), b"secret").unwrap();
    let tokens = [
        AuthContext::encode_jwt(UserId { value: 1 }, at_second(100), b"secret").unwrap(),
        AuthContext::encode_jwt(UserId { value: 1 }, at_second(100), b"other").unwrap(),
        AuthContext::encode_jwt(subject(), at_second(101), b"secret").unwrap(),
        AuthContext::encode_jwt(subject(), at_second(101), b"other").unwrap(),
    ];
    for other in tokens {
        assert_ne!(token, other);
    }
}

#[test]
fn context_by_token() {
    let refused = AuthContext::from_token(Err(AuthError::InvalidToken));
    assert_eq!(refused, Err(AuthError::InvalidToken));
    let token = AuthContext::decode_jwt(VALID_JWT, b"secret");
    assert_eq!(AuthContext::from_token(token).unwrap().user_id, subject());
}

#[test]
fn claims_have_to_be_as_an_access_token_needs() {
    for name in ["aud", "iss", "exp", "sub"] {
        assert_eq!(decode_but(name, None).err(), Some(AuthError::InvalidToken), "{}", name);
        assert_eq!(
            decode_but(name, Some(Value::Bool(true))).err(),
            Some(AuthError::InvalidToken),
            "{}",
            name
        );
    }
    let many = Value::Array(vec![Value::from("pictou")]);
    assert!(decode_but("aud", Some(many.clone())).is_err());
    assert!(decode_but("iss", Some(many)).is_err());
    assert!(decode_but("iss", Some(Value::from("picsou"))).is_err());
    assert!(decode_but("exp", Some(Value::from("1916239022"))).is_err());
    assert!(decode_but("exp", Some(Value::from(1916239022.5_f64))).is_err());
    assert!(decode_but("exp", Some(Value::from(u64::MAX))).is_err());
    assert!(decode_but("sub", Some(Value::from("someone"))).is_err());
    assert!(decode_but("sub", Some(Value::from("f09d493da117465d84de96fb4469dd40"))).is_ok());
}

#[test]
fn token_of_another_algorithm_is_refused() {
    let claims = claims_but("scope", None);
    assert!(AuthContext::decode_jwt(&signed(jwt::Algorithm::HS256, &claims), b"secret").is_ok());
    for algorithm in [jwt::Algorithm::HS384, jwt::Algorithm::HS512] {
        let token = signed(algorithm, &claims);
        assert_eq!(
            AuthContext::decode_jwt(&token, b"secret").err(),
            Some(AuthError::InvalidToken)
        );
    }
}

#[test]
fn token_data_by_outcome() {
    assert_eq!(TokenData::from_outcome(None).err(), Some(AuthError::InvalidToken));
    let token = AuthenticationToken {
        aud: "a".to_string(),
        iss: "b".to_string(),
        exp: -5,
        sub: UserId { value: 7 },
    };
    let decoded = DecodedToken { algorithm: "HS256".to_string(), claims: token.to_claims() };
    let data = TokenData::from_outcome(Some(decoded)).unwrap();
    assert_eq!(data.header.alg, "HS256");
    assert_eq!(data.claims.aud, "a");
    assert_eq!(data.claims.iss, "b");
    assert_eq!(data.claims.exp, -5);
    assert_eq!(data.claims.sub, UserId { value: 7 });
    let empty = DecodedToken { algorithm: "HS256".to_string(), claims: vec![] };
    assert_eq!(TokenData::from_outcome(Some(empty)).err(), Some(AuthError::InvalidToken));
}

#[test]
fn claims_by_name() {
    let token = AuthenticationToken {
        aud: "a".to_string(),
        iss: "b".to_string(),
        exp: 3,
        sub: UserId { value: 0xab },
    };
    let claims = token.to_claims();
    let names: Vec<&str> = claims.iter().map(|claim| claim.name.as_str()).collect();
    assert_eq!(names, ["aud", "iss", "exp", "sub"]);
    assert!(matches!(find_claim(&claims, "exp").unwrap().value, ClaimValue::Number(3)));
    assert!(matches!(
        &find_claim(&claims, "sub").unwrap().value,
        ClaimValue::Text(text) if text == "00000000-0000-0000-0000-0000000000ab"
    ));
    assert!(find_claim(&claims, "nbf").is_none());
    for name in names {
        assert_eq!(find_claim(&claims, name).unwrap().name, name);
    }

    let twice = vec![
        Claim { name: "exp".to_string(), value: ClaimValue::Number(1) },
        Claim { name: "exp".to_string(), value: ClaimValue::Other },
    ];
    assert!(matches!(find_claim(&twice, "exp").unwrap().value, ClaimValue::Number(1)));
    assert!(AuthenticationToken::from_claims(&twice).is_none());
}

#[test]
fn test_generate_refresh_token() {
    let token_a = AuthContext::generate_refresh_token();
    let token_b = AuthContext::generate_refresh_token();

    assert!(token_a.len() >= 128);
    assert!(token_b.len() >= 128);
    assert_ne!(token_a, token_b);
}

#[test]
fn refresh_token_is_base64_of_its_bytes() {
    let token = AuthContext::generate_refresh_token();
    assert_eq!(token.len(), 172);
    assert_eq!(BASE64_STANDARD.decode(&token).unwrap().len(), 128);

    let bytes: Vec<u8> = (0..128).map(|i| (i * 37 + 200) as u8).collect();
    let token = AuthContext::refresh_token_of(&bytes);
    assert!(token.ends_with('='));
    assert_eq!(BASE64_STANDARD.decode(&token).unwrap(), bytes);
    let zeros = AuthContext::refresh_token_of(&vec![0; 128]);
    assert_eq!(zeros, format!("{}=", "A".repeat(171)));
    assert_ne!(token, zeros);
}

#[test]
fn test_authenticate() {
    let expired = format!("Bearer {EXPIRED_JWT}");
    let valid = format!("Bearer {VALID_JWT}");

    let no_auth = AuthContext::authenticate_request(Some(b"secret"), None);
    let expired_token =
        AuthContext::authenticate_request(Some(b"secret"), Some(expired.as_bytes()));
    let valid_token = AuthContext::authenticate_request(Some(b"secret"), Some(valid.as_bytes()));

    assert_eq!(no_auth.unwrap_err().status(), 401);
    assert_eq!(expired_token.unwrap_err().status(), 401);
    assert_eq!(valid_token.unwrap().user_id, subject());
}

#[test]
fn authentication_errors() {
    let valid = format!("Bearer {VALID_JWT}");
    assert_eq!(
        AuthContext::authenticate_request(None, Some(valid.as_bytes())),
        Err(AuthError::Internal)
    );
    assert_eq!(AuthContext::authenticate_request(None, None), Err(AuthError::Internal));
    assert_eq!(
        AuthContext::authenticate_request(Some(b"secret"), Some(b"Basic dGVzdA==")),
        Err(AuthError::InvalidAuthorizationHeader)
    );
    assert_eq!(
        AuthContext::authenticate_request(Some(b"other"), Some(valid.as_bytes())),
        Err(AuthError::InvalidToken)
    );
}

#[test]
fn issued_token_authenticates_its_user() {
    let user_id = UserId { value: 0x0123_4567_89ab_cdef_0123_4567_89ab_cdef };
    let token = AuthContext::encode_jwt(user_id, in_a_minute(), b"").unwrap();
    let header = format!("Bearer {token}");
    let context = AuthContext::authenticate_request(Some(b""), Some(header.as_bytes()));
    assert_eq!(context.unwrap().user_id, user_id);
}

#[test]
fn errors_as_answers() {
    let answers = [
        (
            AuthError::InvalidCredentials,
            401,
            Some("INVALID_CREDENTIALS"),
            "invalid or expired credentials",
        ),
        (
            AuthError::InvalidAuthorizationHeader,
            401,
            Some("INVALID_AUTHORIZATION_HEADER"),
            "invalid or missing authorization header",
        ),
        (AuthError::InvalidToken, 401, Some("INVALID_TOKEN"), "malformed or invalid token"),
        (AuthError::Internal, 500, None, ""),
    ];
    for (error, status, code, message) in answers {
        assert_eq!(error.status(), status);
        assert_eq!(error.code(), code);
        assert_eq!(error.message(), message);
    }
}

#[test]
fn rules_for_access_tokens() {
    let rules = AuthContext::token_rules();
    assert_eq!(rules.algorithm, "HS256");
    assert!(rules.validate_exp);
    assert!(rules.validate_aud);
    assert_eq!(rules.audience, ["pictou"]);
    assert_eq!(rules.issuer, ["pictou"]);
}

#[test]
fn user_id_texts() {
    let id = subject();
    assert_eq!(id.value, 0xf09d493d_a117_465d_84de_96fb4469dd40);
    assert_eq!(id.to_text(), SUBJECT);
    for text in [
        "F09D493D-A117-465D-84DE-96FB4469DD40",
        "f09d493da117465d84de96fb4469dd40",
        "{f09d493d-a117-465d-84de-96fb4469dd40}",
        "urn:uuid:f09d493d-a117-465d-84de-96fb4469dd40",
        "URN:Uuid:f09d493d-a117-465d-84de-96fb4469dd40",
    ] {
        assert_eq!(UserId::parse_str(text), Some(id), "{}", text);
    }
    for text in [
        "",
        "f09d493d",
        "f09d493da117465d84de96fb4469dd4g",
        "f09d493da-117-465d-84de-96fb4469dd40",
        "(f09d493d-a117-465d-84de-96fb4469dd40)",
        "{f09d493d-a117-465d-84de-96fb4469dd40",
        "urn:uid::f09d493d-a117-465d-84de-96fb4469dd40",
        "f09d493d-a117-465d-84de-96fb4469dd4\u{e9}",
    ] {
        assert_eq!(UserId::parse_str(text), None, "{}", text);
    }
    assert_eq!(UserId { value: 0 }.to_text(), "00000000-0000-0000-0000-000000000000");
    let largest = UserId { value: u128::MAX };
    assert_eq!(UserId::parse_str(&largest.to_text()), Some(largest));
}
