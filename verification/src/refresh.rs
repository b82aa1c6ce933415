//! Trading a refresh token for a new access token.
//!
//! A refresh goes through three steps. The stored users with the presented id are loaded and handed
//! to `refresh_token`, which refuses the request or grants it. What it grants holds a new refresh
//! token, which replaces the presented one in the store. The stored user and the grant then make
//! the response.

use vstd::prelude::*;

use crate::base64_text;
use crate::context;
use crate::context::{AuthContext, REFRESH_TOKEN_BYTES};
use crate::error::AuthError;
use crate::jwt;
use crate::outside;
use crate::timestamp;
use crate::timestamp::{Timestamp, NANOS_PER_SECOND};
use crate::user_id::UserId;

verus! {

/// How long a refresh token lives: 30 days, in seconds.
pub const REFRESH_TOKEN_LIFETIME: i64 = 2_592_000;

/// How long an access token lives: 3 minutes, in seconds.
pub const ACCESS_TOKEN_LIFETIME: i64 = 180;

/// What a client presents to get another access token.
#[derive(Debug)]
pub struct RefreshTokenParams {
    pub user_id: UserId,
    /// The opaque refresh token, in base64.
    pub refresh_token: String,
}

/// What a client presents to get another access token.
pub struct RefreshTokenParamsView {
    pub user_id: UserId,
    pub refresh_token: Seq<char>,
}

impl View for RefreshTokenParams {
    type V = RefreshTokenParamsView;

    open spec fn view(&self) -> RefreshTokenParamsView {
        RefreshTokenParamsView { user_id: self.user_id, refresh_token: self.refresh_token@ }
    }
}

/// What the store knows of a user that bears on a refresh.
#[derive(Debug)]
pub struct UserCredentials {
    pub user_id: UserId,
    pub email: String,
    pub refresh_token: Option<String>,
    pub refresh_token_exp: Timestamp,
}

/// What the store knows of a user that bears on a refresh.
pub struct UserCredentialsView {
    pub user_id: UserId,
    pub email: Seq<char>,
    pub refresh_token: Option<Seq<char>>,
    pub refresh_token_exp: int,
}

impl View for UserCredentials {
    type V = UserCredentialsView;

    open spec fn view(&self) -> UserCredentialsView {
        UserCredentialsView {
            user_id: self.user_id,
            email: self.email@,
            refresh_token: jwt::text_view(self.refresh_token),
            refresh_token_exp: self.refresh_token_exp@,
        }
    }
}

impl UserCredentialsView {
    /// Whether the store vouches for what a client presents: the ids are equal, the user has a
    /// refresh token, it is the presented one, and it has not expired at `now`.
    pub open spec fn accepts(self, params: RefreshTokenParamsView, now: int) -> bool {
        &&& self.user_id == params.user_id
        &&& self.refresh_token == Some(params.refresh_token)
        &&& self.refresh_token_exp >= now
    }

    /// The user with another refresh token in place of the stored one.
    pub open spec fn with_refresh_token(
        self,
        refresh_token: Seq<char>,
        refresh_token_exp: int,
    ) -> UserCredentialsView {
        UserCredentialsView { refresh_token: Some(refresh_token), refresh_token_exp, ..self }
    }
}

/// The email of the first user whom the store vouches for.
pub open spec fn vouched_email(
    users: Seq<UserCredentialsView>,
    params: RefreshTokenParamsView,
    now: int,
) -> Option<Seq<char>>
    decreases users.len(),
{
    if users.len() == 0 {
        None
    } else if users[0].accepts(params, now) {
        Some(users[0].email)
    } else {
        vouched_email(users.drop_first(), params, now)
    }
}

/// The users once the refresh token of one of them is replaced.
pub open spec fn with_replaced(
    users: Seq<UserCredentialsView>,
    user_id: UserId,
    refresh_token: Seq<char>,
    refresh_token_exp: int,
) -> Seq<UserCredentialsView> {
    users.map_values(
        |user: UserCredentialsView|
            if user.user_id == user_id {
                user.with_refresh_token(refresh_token, refresh_token_exp)
            } else {
                user
            },
    )
}

/// Users by view.
pub open spec fn users_view(users: Seq<UserCredentials>) -> Seq<UserCredentialsView> {
    users.map_values(|user: UserCredentials| user@)
}

/// A user as the store gives it back after an update.
#[derive(Debug)]
pub struct PersistedUserInfo {
    pub user_id: UserId,
    pub email: String,
    pub refresh_token: Option<String>,
    pub refresh_token_exp: Timestamp,
    pub name: Option<String>,
    pub given_name: Option<String>,
    pub family_name: Option<String>,
}

/// The answer to a granted refresh.
#[derive(Debug)]
pub struct AuthenticationResponse {
    pub user: PersistedUserInfo,
    pub access_token: String,
    pub access_token_exp: Timestamp,
}

/// A granted refresh: the new access token, and the refresh token that takes the place of the
/// presented one in the store.
#[derive(Debug)]
pub struct RefreshGrant {
    pub user_id: UserId,
    pub email: String,
    pub access_token: String,
    pub access_token_exp: Timestamp,
    pub refresh_token: String,
    pub refresh_token_exp: Timestamp,
}

/// Why a refresh was not granted.
#[derive(Clone, Copy, PartialEq, Eq, Structural, Debug)]
pub enum RefreshError {
    /// The request was turned away.
    Refused(AuthError),
    /// The system clock is so late that a token would outlive the years that a timestamp can hold.
    ClockOutOfRange,
}

/// The instant a number of seconds after another.
pub open spec fn seconds_after(instant: int, seconds: i64) -> int {
    instant + seconds * NANOS_PER_SECOND
}

/// Whether a granted refresh is the one for a user whose access token is issued at one instant, and
/// whose refresh token is replaced at another.
pub open spec fn is_grant(
    grant: RefreshGrant,
    user_id: UserId,
    email: Seq<char>,
    secret: Seq<u8>,
    issued_at: int,
    refresh_token: Seq<char>,
    replaced_at: int,
) -> bool {
    &&& grant.user_id == user_id
    &&& grant.email@ == email
    &&& grant.access_token_exp@ == seconds_after(issued_at, ACCESS_TOKEN_LIFETIME)
    &&& context::is_access_token(
        grant.access_token@,
        user_id,
        timestamp::floor_seconds(grant.access_token_exp@) as i64,
        secret,
    )
    &&& grant.refresh_token@ == refresh_token
    &&& grant.refresh_token_exp@ == seconds_after(replaced_at, REFRESH_TOKEN_LIFETIME)
}

/// What comes of granting a refresh: the grant, unless one of the tokens would outlive the years
/// that a timestamp can hold.
pub open spec fn granting_gives(
    user_id: UserId,
    email: Seq<char>,
    secret: Seq<u8>,
    issued_at: int,
    refresh_token: Seq<char>,
    replaced_at: int,
    result: Result<RefreshGrant, RefreshError>,
) -> bool {
    if timestamp::in_calendar(seconds_after(issued_at, ACCESS_TOKEN_LIFETIME))
        && timestamp::in_calendar(seconds_after(replaced_at, REFRESH_TOKEN_LIFETIME)) {
        result matches Ok(grant) && is_grant(
            grant,
            user_id,
            email,
            secret,
            issued_at,
            refresh_token,
            replaced_at,
        )
    } else {
        result == Err::<RefreshGrant, RefreshError>(RefreshError::ClockOutOfRange)
    }
}

/// What can come of a request for another access token, whatever the clock says and chance gives:
/// the credentials are invalid where the store vouches for no user; else the refresh is granted,
/// with two readings of the clock as the instants, and with the base64 text of one draw of bytes as
/// the new refresh token.
pub open spec fn refresh_can_give(
    users: Seq<UserCredentialsView>,
    params: RefreshTokenParamsView,
    now: int,
    secret: Seq<u8>,
    result: Result<RefreshGrant, RefreshError>,
) -> bool {
    match vouched_email(users, params, now) {
        None => result == Err::<RefreshGrant, RefreshError>(
            RefreshError::Refused(AuthError::InvalidCredentials),
        ),
        Some(email) => exists|issued_at: int, bytes: Seq<u8>, replaced_at: int|
            {
                &&& timestamp::in_calendar(issued_at)
                &&& outside::is_clock_reading(issued_at)
                &&& bytes.len() == REFRESH_TOKEN_BYTES
                &&& outside::is_draw(bytes)
                &&& timestamp::in_calendar(replaced_at)
                &&& outside::is_clock_reading(replaced_at)
                &&& #[trigger] granting_gives(
                    params.user_id,
                    email,
                    secret,
                    issued_at,
                    base64_text::base64_text(bytes),
                    replaced_at,
                    result,
                )
            },
    }
}

/// Whether the stored user is the one who presents a refresh token that is still good.
fn accepts(user: &UserCredentials, params: &RefreshTokenParams, now: &Timestamp) -> (accepted: bool)
    ensures
        accepted == user@.accepts(params@, now@),
{
    let same_token = match &user.refresh_token {
        Some(stored) => *stored == params.refresh_token,
        None => false,
    };
    user.user_id == params.user_id && same_token && user.refresh_token_exp.is_at_or_after(now)
}

/// Finds the email of the first user who has the presented id and, unexpired at `now`, the presented
/// refresh token.
pub fn find_email(users: &Vec<UserCredentials>, params: &RefreshTokenParams, now: &Timestamp) -> (email:
    Option<String>)
    ensures
        match email {
            Some(email) => vouched_email(users_view(users@), params@, now@) == Some(email@),
            None => vouched_email(users_view(users@), params@, now@) is None,
        },
{
    let ghost all = users_view(users@);
    let mut i: usize = 0;
    assert(all.skip(0) =~= all);
    while i < users.len()
        invariant
            i <= users.len(),
            all == users_view(users@),
            vouched_email(all, params@, now@) == vouched_email(all.skip(i as int), params@, now@),
        decreases users.len() - i,
    {
        assert(all.skip(i as int)[0] == users@[i as int]@);
        assert(all.skip(i as int).drop_first() =~= all.skip(i + 1));
        if accepts(&users[i], params, now) {
            return Some(users[i].email.clone());
        }
        i += 1;
    }
    None
}

/// Grants a refresh to a user: an access token issued at `issued_at`, and `refresh_token` as the
/// new refresh token from `replaced_at` on.
pub fn grant_refresh(
    user_id: UserId,
    email: String,
    jwt_secret: &[u8],
    issued_at: Timestamp,
    refresh_token: String,
    replaced_at: Timestamp,
) -> (result: Result<RefreshGrant, RefreshError>)
    ensures
        granting_gives(
            user_id,
            email@,
            jwt_secret@,
            issued_at@,
            refresh_token@,
            replaced_at@,
            result,
        ),
{
    let access_token_exp = match issued_at.checked_add_seconds(ACCESS_TOKEN_LIFETIME) {
        Some(exp) => exp,
        None => return Err(RefreshError::ClockOutOfRange),
    };
    let access_token = match AuthContext::encode_jwt(user_id, access_token_exp, jwt_secret) {
        Ok(token) => token,
        Err(error) => return Err(RefreshError::Refused(error)),
    };
    let refresh_token_exp = match replaced_at.checked_add_seconds(REFRESH_TOKEN_LIFETIME) {
        Some(exp) => exp,
        None => return Err(RefreshError::ClockOutOfRange),
    };
    Ok(
        RefreshGrant {
            user_id,
            email,
            access_token,
            access_token_exp,
            refresh_token,
            refresh_token_exp,
        },
    )
}

/// Answers a request for another access token. `users` are the stored users with the presented id,
/// and `now` is the time of the store.
///
/// The refresh is granted if and only if one of the users has the presented id and, unexpired, the
/// presented refresh token.
pub fn refresh_token(
    params: &RefreshTokenParams,
    users: &Vec<UserCredentials>,
    now: Timestamp,
    jwt_secret: &[u8],
) -> (result: Result<RefreshGrant, RefreshError>)
    ensures
        refresh_can_give(users_view(users@), params@, now@, jwt_secret@, result),
{
    let email = match find_email(users, params, &now) {
        Some(email) => email,
        None => return Err(RefreshError::Refused(AuthError::InvalidCredentials)),
    };
    let issued_at = Timestamp::now_utc();
    let token = AuthContext::generate_refresh_token();
    let ghost bytes = choose|bytes: Seq<u8>|
        outside::is_draw(bytes) && bytes.len() == REFRESH_TOKEN_BYTES && token@
            == #[trigger] base64_text::base64_text(bytes);
    let replaced_at = Timestamp::now_utc();
    let result = grant_refresh(params.user_id, email, jwt_secret, issued_at, token, replaced_at);
    assert(granting_gives(
        params@.user_id,
        vouched_email(users_view(users@), params@, now@)->0,
        jwt_secret@,
        issued_at@,
        base64_text::base64_text(bytes),
        replaced_at@,
        result,
    ));
    result
}

impl RefreshGrant {
    /// Makes the response of a granted refresh and of the user as stored with the new refresh token.
    pub fn into_response(self, user: PersistedUserInfo) -> (response: AuthenticationResponse)
        ensures
            response.user == user,
            response.access_token == self.access_token,
            response.access_token_exp == self.access_token_exp,
    {
        AuthenticationResponse {
            user,
            access_token: self.access_token,
            access_token_exp: self.access_token_exp,
        }
    }
}

} // verus!
