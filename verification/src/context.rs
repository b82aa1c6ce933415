//! Who is behind a request: access tokens, how they are issued, carried and checked.

use vstd::prelude::*;

use crate::base64_text;
use crate::base64_text::base64_encode;
use crate::bearer;
use crate::bearer::{header_text, strip_prefix};
use crate::error::AuthError;
use crate::jwt;
use crate::jwt::{
    jwt_decode, jwt_encode, DecodedToken, DecodedTokenView, TokenRules, TokenRulesView,
};
use crate::outside;
use crate::timestamp;
use crate::timestamp::Timestamp;
use crate::token;
use crate::token::{AuthenticationToken, AuthenticationTokenView};
use crate::user_id::UserId;
use rand::RngCore;

verus! {

/// The bytes of chance in a refresh token.
pub const REFRESH_TOKEN_BYTES: usize = 128;

/// Who is behind a request: the user whom its access token speaks for.
#[derive(Clone, Copy, PartialEq, Eq, Structural, Debug)]
#[non_exhaustive]
pub struct AuthContext {
    pub user_id: UserId,
}

/// The part of the header of a token that says how it was signed.
#[derive(Debug)]
pub struct TokenHeader {
    pub alg: String,
}

/// An accepted access token.
#[derive(Debug)]
pub struct TokenData {
    pub header: TokenHeader,
    pub claims: AuthenticationToken,
}

/// An accepted access token.
pub struct TokenDataView {
    pub alg: Seq<char>,
    pub claims: AuthenticationTokenView,
}

impl View for TokenData {
    type V = TokenDataView;

    open spec fn view(&self) -> TokenDataView {
        TokenDataView { alg: self.header.alg@, claims: self.claims@ }
    }
}

/// The rules for access tokens: signed with HS256, unexpired, made by and for `pictou`.
pub open spec fn access_token_rules() -> TokenRulesView {
    TokenRulesView {
        algorithm: "HS256"@,
        validate_exp: true,
        validate_aud: true,
        audience: seq!["pictou"@],
        issuer: seq!["pictou"@],
    }
}

/// What is made of reading an access token: the token where it was accepted and holds all that an
/// access token needs, the answer that it is invalid in any other case.
pub open spec fn token_of_outcome(outcome: Option<DecodedTokenView>) -> Result<
    TokenDataView,
    AuthError,
> {
    match outcome {
        Some(decoded) => match AuthenticationTokenView::of_claims(decoded.claims) {
            Some(claims) => Ok(TokenDataView { alg: decoded.algorithm, claims }),
            None => Err(AuthError::InvalidToken),
        },
        None => Err(AuthError::InvalidToken),
    }
}

/// An accepted access token, or the error, by view.
pub open spec fn token_result_view(result: Result<TokenData, AuthError>) -> Result<
    TokenDataView,
    AuthError,
> {
    match result {
        Ok(data) => Ok(data@),
        Err(error) => Err(error),
    }
}

/// What can come of reading a text as an access token under a secret when the clock reads `now`.
pub open spec fn reading_can_give(
    token: Seq<char>,
    secret: Seq<u8>,
    now: u64,
    outcome: Option<DecodedTokenView>,
) -> bool {
    jwt::decode_can_give(
        access_token_rules(),
        jwt::jwt_claims("HS256"@, token, secret),
        now,
        outcome,
    )
}

/// Whether a text is the access token of a user, signed with the secret, that expires at `exp`.
pub open spec fn is_access_token(token: Seq<char>, subject: UserId, exp: i64, secret: Seq<u8>) -> bool {
    jwt::is_token_of(
        token,
        "HS256"@,
        AuthenticationTokenView::of_user(subject, exp).claims(),
        secret,
    )
}

/// The contents of optional bytes.
pub open spec fn bytes_view(bytes: Option<&[u8]>) -> Option<Seq<u8>> {
    match bytes {
        Some(b) => Some(b@),
        None => None,
    }
}

/// The answer to a request, by what was made of its token.
pub open spec fn context_of_token(result: Result<TokenDataView, AuthError>) -> Result<
    AuthContext,
    AuthError,
> {
    match result {
        Ok(data) => Ok(AuthContext { user_id: data.claims.sub }),
        Err(error) => Err(error),
    }
}

/// What can come of finding out who is behind a request when the clock reads `now`. Without a secret
/// the error is internal; without a bearer token in the header, the header is invalid; else all
/// depends on what comes of reading the token.
pub open spec fn authentication_can_give(
    jwt_secret: Option<Seq<u8>>,
    authorization: Option<Seq<u8>>,
    now: u64,
    context: Result<AuthContext, AuthError>,
) -> bool {
    match jwt_secret {
        None => context == Err::<AuthContext, AuthError>(AuthError::Internal),
        Some(secret) => match bearer::bearer_token(authorization) {
            None => context == Err::<AuthContext, AuthError>(AuthError::InvalidAuthorizationHeader),
            Some(token) => exists|outcome: Option<DecodedTokenView>|
                #[trigger] reading_can_give(token, secret, now, outcome) && context
                    == context_of_token(token_of_outcome(outcome)),
        },
    }
}

/// What can come of reading an access token: what the rules for access tokens make of it at a
/// reading of the system clock.
pub open spec fn decoding_can_give(
    token: Seq<char>,
    secret: Seq<u8>,
    data: Result<TokenData, AuthError>,
) -> bool {
    exists|now: u64, outcome: Option<DecodedTokenView>|
        outside::is_clock_second(now as int) && #[trigger] reading_can_give(
            token,
            secret,
            now,
            outcome,
        ) && token_result_view(data) == token_of_outcome(outcome)
}

/// What can come of finding out who is behind a request. Where a token is read, `now` is a reading
/// of the system clock.
pub open spec fn request_can_give(
    jwt_secret: Option<Seq<u8>>,
    authorization: Option<Seq<u8>>,
    context: Result<AuthContext, AuthError>,
) -> bool {
    exists|now: u64|
        {
            &&& #[trigger] authentication_can_give(jwt_secret, authorization, now, context)
            &&& jwt_secret is Some && bearer::bearer_token(authorization) is Some
                ==> outside::is_clock_second(now as int)
        }
}

impl TokenData {
    /// What is made of reading an access token; `outcome` is the token, if it was accepted.
    pub fn from_outcome(outcome: Option<DecodedToken>) -> (data: Result<TokenData, AuthError>)
        ensures
            token_result_view(data) == token_of_outcome(jwt::outcome_view(outcome)),
    {
        match outcome {
            Some(decoded) => match AuthenticationToken::from_claims(&decoded.claims) {
                Some(claims) => Ok(
                    TokenData { header: TokenHeader { alg: decoded.algorithm }, claims },
                ),
                None => Err(AuthError::InvalidToken),
            },
            None => Err(AuthError::InvalidToken),
        }
    }
}

impl AuthContext {
    /// The rules for access tokens.
    pub fn token_rules() -> (rules: TokenRules)
        ensures
            rules@ == access_token_rules(),
    {
        let rules = TokenRules {
            algorithm: "HS256".to_owned(),
            validate_exp: true,
            validate_aud: true,
            audience: vec!["pictou".to_owned()],
            issuer: vec!["pictou".to_owned()],
        };
        assert(rules@.audience =~= access_token_rules().audience);
        assert(rules@.issuer =~= access_token_rules().issuer);
        rules
    }

    /// Finds out who is behind a request. `jwt_secret` is the secret of the running service, if it
    /// was configured, `authorization` the value of the `Authorization` header, if there is one.
    ///
    /// Without a secret the error is internal. Then the header has to carry a bearer token, and the
    /// token has to be an accepted access token.
    pub fn authenticate_request(jwt_secret: Option<&[u8]>, authorization: Option<&[u8]>) -> (context:
        Result<AuthContext, AuthError>)
        ensures
            request_can_give(bytes_view(jwt_secret), bytes_view(authorization), context),
    {
        let secret = match jwt_secret {
            Some(secret) => secret,
            None => {
                let context = Err(AuthError::Internal);
                assert(authentication_can_give(None, bytes_view(authorization), 0, context));
                return context;
            },
        };
        let token = match Self::parse_bearer_token(authorization) {
            Ok(token) => token,
            Err(error) => {
                let context = Err(error);
                assert(authentication_can_give(
                    Some(secret@),
                    bytes_view(authorization),
                    0,
                    context,
                ));
                return context;
            },
        };
        let result = Self::decode_jwt(token.as_str(), secret);
        let ghost (now, outcome) = choose|now: u64, outcome: Option<DecodedTokenView>|
            outside::is_clock_second(now as int) && #[trigger] reading_can_give(
                token@,
                secret@,
                now,
                outcome,
            ) && token_result_view(result) == token_of_outcome(outcome);
        let context = Self::from_token(result);
        assert(reading_can_give(
            bearer::bearer_token(bytes_view(authorization))->0,
            bytes_view(jwt_secret)->0,
            now,
            outcome,
        ));
        assert(authentication_can_give(
            bytes_view(jwt_secret),
            bytes_view(authorization),
            now,
            context,
        ));
        context
    }

    /// Who is behind a request, by what was made of its token.
    pub fn from_token(result: Result<TokenData, AuthError>) -> (context: Result<
        AuthContext,
        AuthError,
    >)
        ensures
            context == context_of_token(token_result_view(result)),
    {
        match result {
            Ok(data) => Ok(AuthContext { user_id: data.claims.sub }),
            Err(error) => Err(error),
        }
    }

    /// Takes the bearer token out of the value of the `Authorization` header.
    pub fn parse_bearer_token(authorization: Option<&[u8]>) -> (token: Result<String, AuthError>)
        ensures
            match token {
                Ok(t) => bearer::bearer_token(bytes_view(authorization)) == Some(t@),
                Err(error) => bearer::bearer_token(bytes_view(authorization)) is None && error
                    == AuthError::InvalidAuthorizationHeader,
            },
    {
        let text = match authorization {
            Some(value) => header_text(value),
            None => None,
        };
        let text = match text {
            Some(text) => text,
            None => return Err(AuthError::InvalidAuthorizationHeader),
        };
        proof {
            reveal_strlit("Bearer ");
        }
        match strip_prefix(text.as_str(), "Bearer ") {
            Some(token) => Ok(token.to_owned()),
            None => Err(AuthError::InvalidAuthorizationHeader),
        }
    }

    /// Reads an access token with the secret of the service, and holds it to the rules for access
    /// tokens.
    ///
    /// Whether the token has expired goes by a reading of the system clock.
    pub fn decode_jwt(token: &str, secret: &[u8]) -> (data: Result<TokenData, AuthError>)
        ensures
            decoding_can_give(token@, secret@, data),
    {
        let rules = Self::token_rules();
        let read = jwt_decode(token, secret, &rules);
        let ghost now = choose|now: u64|
            outside::is_clock_second(now as int) && #[trigger] jwt::decode_can_give(
                rules@,
                jwt::jwt_claims(rules.algorithm@, token@, secret@),
                now,
                jwt::read_view(read),
            );
        assert(reading_can_give(token@, secret@, now, jwt::read_view(read)));
        match read {
            Ok(decoded) => TokenData::from_outcome(Some(decoded)),
            Err(_) => TokenData::from_outcome(None),
        }
    }

    /// Issues the access token of a user, signed with the secret of the service. It expires at the
    /// second that `expires_at` falls in.
    pub fn encode_jwt(subject: UserId, expires_at: Timestamp, secret: &[u8]) -> (token: Result<
        String,
        AuthError,
    >)
        ensures
            token is Ok,
            is_access_token(
                token->Ok_0@,
                subject,
                timestamp::floor_seconds(expires_at@) as i64,
                secret@,
            ),
    {
        let claims = AuthenticationToken {
            aud: "pictou".to_owned(),
            iss: "pictou".to_owned(),
            exp: expires_at.unix_timestamp(),
            sub: subject,
        };
        proof {
            token::lemma_claims_of_token(claims@);
        }
        match jwt_encode("HS256", &claims.to_claims(), secret) {
            Ok(token) => Ok(token),
            Err(_) => Err(AuthError::Internal),
        }
    }

    /// Makes a new refresh token by chance.
    pub fn generate_refresh_token() -> (token: String)
        ensures
            exists|bytes: Seq<u8>|
                outside::is_draw(bytes) && bytes.len() == REFRESH_TOKEN_BYTES && token@
                    == #[trigger] base64_text::base64_text(bytes),
            token@.len() == 172,
    {
        let mut bytes: Vec<u8> = vec![0u8; REFRESH_TOKEN_BYTES];
        fill_with_chance(&mut bytes);
        Self::refresh_token_of(&bytes)
    }

    /// The refresh token that bytes make.
    pub fn refresh_token_of(bytes: &Vec<u8>) -> (token: String)
        requires
            bytes@.len() == REFRESH_TOKEN_BYTES,
        ensures
            token@ == base64_text::base64_text(bytes@),
            token@.len() == 172,
    {
        base64_encode(bytes)
    }
}

/// `rand::RngCore::fill_bytes` on `rand::thread_rng`: overwrites all the bytes, with one draw of
/// values that chance decides.
#[verifier::external_body]
fn fill_with_chance(bytes: &mut Vec<u8>)
    ensures
        final(bytes)@.len() == old(bytes)@.len(),
        outside::is_draw(final(bytes)@),
{
    rand::thread_rng().fill_bytes(bytes);
}

} // verus!
