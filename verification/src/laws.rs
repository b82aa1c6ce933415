//! What holds of the crate as a whole.

use vstd::prelude::*;

use crate::base64_text;
use crate::bearer;
use crate::context;
use crate::context::{AuthContext, TokenData, TokenDataView};
use crate::error::AuthError;
use crate::jwt;
use crate::jwt::{ClaimView, ClaimsView, DecodedTokenView};
use crate::outside;
use crate::refresh;
use crate::refresh::{
    RefreshError, RefreshGrant, RefreshTokenParams, RefreshTokenParamsView, UserCredentials,
    UserCredentialsView,
};
use crate::timestamp;
use crate::token;
use crate::token::AuthenticationTokenView;
use crate::user_id;
use crate::user_id::UserId;

verus! {

/// The value of an `Authorization` header that carries a bearer token.
pub open spec fn bearer_header(token: Seq<char>) -> Seq<u8> {
    bearer::ascii_bytes("Bearer "@ + token)
}

/// An access token that was issued reads back: until it expires, it is accepted, with the claims
/// that it was issued with; from then on it is refused. One that expires before the Unix epoch is
/// refused whatever the clock says.
pub proof fn law_issued_token_reads_back(
    token: Seq<char>,
    subject: UserId,
    exp: i64,
    secret: Seq<u8>,
    now: u64,
    outcome: Option<DecodedTokenView>,
)
    requires
        context::is_access_token(token, subject, exp, secret),
        context::reading_can_give(token, secret, now, outcome),
    ensures
        context::token_of_outcome(outcome) == (if exp < 0 || jwt::has_expired(exp, now) {
            Err(AuthError::InvalidToken)
        } else {
            Ok(
                TokenDataView {
                    alg: "HS256"@,
                    claims: AuthenticationTokenView::of_user(subject, exp),
                },
            )
        }),
{
    let issued = AuthenticationTokenView::of_user(subject, exp);
    token::lemma_claims_of_token(issued);
    token::law_claims_read_back(issued, jwt::jwt_payload(token)->0);
    assert(seq!["pictou"@][0] == "pictou"@);
}

/// A text whose signature is not the one by HS256 and the secret is refused, whatever the clock
/// says.
pub proof fn law_unsigned_token_is_refused(
    token: Seq<char>,
    secret: Seq<u8>,
    now: u64,
    outcome: Option<DecodedTokenView>,
)
    requires
        !jwt::is_signed(token, "HS256"@, secret),
        context::reading_can_give(token, secret, now, outcome),
    ensures
        context::token_of_outcome(outcome) matches Err(error) && error.spec_status() == 401
            && error.spec_code() == Some("INVALID_TOKEN"@),
{
}

/// An access token that was issued with one secret is refused under any other with which its
/// signature differs.
pub proof fn law_other_secret_is_refused(
    token: Seq<char>,
    subject: UserId,
    exp: i64,
    secret: Seq<u8>,
    other: Seq<u8>,
    now: u64,
    outcome: Option<DecodedTokenView>,
)
    requires
        context::is_access_token(token, subject, exp, secret),
        jwt::jwt_signature("HS256"@, jwt::signed_part(token), other) != jwt::jwt_signature(
            "HS256"@,
            jwt::signed_part(token),
            secret,
        ),
        context::reading_can_give(token, other, now, outcome),
    ensures
        context::token_of_outcome(outcome) matches Err(error) && error.spec_status() == 401
            && error.spec_code() == Some("INVALID_TOKEN"@),
{
    law_unsigned_token_is_refused(token, other, now, outcome);
}

/// Access tokens of different users, or that expire in different seconds, are different, whatever
/// the secrets that they are signed with.
pub proof fn law_tokens_tell_users_apart(
    token: Seq<char>,
    subject: UserId,
    exp: i64,
    secret: Seq<u8>,
    other_token: Seq<char>,
    other_subject: UserId,
    other_exp: i64,
    other_secret: Seq<u8>,
)
    requires
        context::is_access_token(token, subject, exp, secret),
        context::is_access_token(other_token, other_subject, other_exp, other_secret),
        subject != other_subject || exp != other_exp,
    ensures
        token != other_token,
{
    let issued = AuthenticationTokenView::of_user(subject, exp);
    let other_issued = AuthenticationTokenView::of_user(other_subject, other_exp);
    token::law_claims_read_back(issued, jwt::jwt_payload(token)->0);
    token::law_claims_read_back(other_issued, jwt::jwt_payload(other_token)->0);
}

/// Only what this service made for itself is accepted, and only while it lasts: an accepted text is
/// signed with HS256 and the secret, holds the claims that come out, names `pictou` as its issuer
/// and its audience, and states an expiry that is not negative and has not passed.
pub proof fn law_accepted_token_is_our_own(
    token: Seq<char>,
    secret: Seq<u8>,
    now: u64,
    outcome: Option<DecodedTokenView>,
    data: TokenDataView,
)
    requires
        context::reading_can_give(token, secret, now, outcome),
        context::token_of_outcome(outcome) == Ok::<TokenDataView, AuthError>(data),
    ensures
        data.alg == "HS256"@,
        jwt::jwt_algorithm(token) == Some("HS256"@),
        jwt::is_signed(token, "HS256"@, secret),
        jwt::jwt_payload(token) is Some,
        AuthenticationTokenView::of_claims(jwt::jwt_payload(token)->0) == Some(data.claims),
        data.claims == AuthenticationTokenView::of_user(data.claims.sub, data.claims.exp),
        data.claims.exp >= 0,
        !jwt::has_expired(data.claims.exp, now),
{
}

/// A token that the service made for another audience is refused, whatever the clock says.
pub proof fn law_other_audience_is_refused(
    token: Seq<char>,
    issued: AuthenticationTokenView,
    secret: Seq<u8>,
    now: u64,
    outcome: Option<DecodedTokenView>,
)
    requires
        jwt::is_token_of(token, "HS256"@, issued.claims(), secret),
        issued.aud != "pictou"@,
        context::reading_can_give(token, secret, now, outcome),
    ensures
        context::token_of_outcome(outcome) == Err::<TokenDataView, AuthError>(
            AuthError::InvalidToken,
        ),
{
    token::lemma_claims_of_token(issued);
}

proof fn lemma_visible_char_as_byte(c: char)
    requires
        bearer::is_visible_char(c),
    ensures
        bearer::is_visible_ascii(c as u8),
        (c as u8) as char == c,
{
}

/// A bearer token comes out of the header as it went in.
pub proof fn law_bearer_token_reads_back(token: Seq<char>)
    requires
        forall|i: int| 0 <= i < token.len() ==> bearer::is_visible_char(#[trigger] token[i]),
    ensures
        bearer::bearer_token(Some(bearer_header(token))) == Some(token),
{
    reveal_strlit("Bearer ");
    let text = "Bearer "@ + token;
    let value = bearer_header(token);
    assert(bearer::is_text(value)) by {
        assert forall|i: int| 0 <= i < value.len() implies bearer::is_visible_ascii(
            #[trigger] value[i],
        ) by {
            if i >= 7 {
                assert(text[i] == token[i - 7]);
            }
            lemma_visible_char_as_byte(text[i]);
        }
    }
    assert(bearer::ascii_chars(value) =~= text) by {
        assert forall|i: int| 0 <= i < text.len() implies value[i] as char == text[i] by {
            if i >= 7 {
                assert(text[i] == token[i - 7]);
            }
            lemma_visible_char_as_byte(text[i]);
        }
    }
    assert("Bearer "@ =~= text.subrange(0, 7));
    assert(text.skip(7) =~= token);
}

/// A request whose header carries an issued access token is, until the token expires, the request of
/// the user whom the token was issued to; from then on it is answered that the token is invalid, and
/// so it always is where the token expires before the Unix epoch.
pub proof fn law_issued_token_authenticates(
    token: Seq<char>,
    subject: UserId,
    exp: i64,
    secret: Seq<u8>,
    now: u64,
    answer: Result<AuthContext, AuthError>,
)
    requires
        context::is_access_token(token, subject, exp, secret),
        context::authentication_can_give(Some(secret), Some(bearer_header(token)), now, answer),
    ensures
        answer == (if exp < 0 || jwt::has_expired(exp, now) {
            Err(AuthError::InvalidToken)
        } else {
            Ok(AuthContext { user_id: subject })
        }),
{
    law_bearer_token_reads_back(token);
    let outcome = choose|outcome: Option<DecodedTokenView>|
        #[trigger] context::reading_can_give(token, secret, now, outcome) && answer
            == context::context_of_token(context::token_of_outcome(outcome));
    law_issued_token_reads_back(token, subject, exp, secret, now, outcome);
}

/// A request that is turned away while the service is configured is answered `401`; one that meets
/// a service without a secret is answered `500`.
pub proof fn law_refusals_are_unauthorized(
    jwt_secret: Option<Seq<u8>>,
    authorization: Option<Seq<u8>>,
    now: u64,
    error: AuthError,
)
    requires
        context::authentication_can_give(jwt_secret, authorization, now, Err(error)),
    ensures
        jwt_secret is Some ==> error.spec_status() == 401,
        jwt_secret is None ==> error.spec_status() == 500,
{
}

/// The store vouches for what a client presents if and only if one of its users does.
pub proof fn law_vouched_if_some_user_accepts(
    users: Seq<UserCredentialsView>,
    params: RefreshTokenParamsView,
    now: int,
)
    ensures
        refresh::vouched_email(users, params, now) is Some <==> exists|i: int|
            0 <= i < users.len() && (#[trigger] users[i]).accepts(params, now),
    decreases users.len(),
{
    if users.len() > 0 {
        let rest = users.drop_first();
        law_vouched_if_some_user_accepts(rest, params, now);
        if users[0].accepts(params, now) {
        } else if refresh::vouched_email(users, params, now) is Some {
            let i = choose|i: int|
                0 <= i < rest.len() && (#[trigger] rest[i]).accepts(params, now);
            assert(users[i + 1].accepts(params, now));
        } else {
            assert forall|i: int| 0 <= i < users.len() implies !(#[trigger] users[i]).accepts(
                params,
                now,
            ) by {
                if i > 0 {
                    assert(rest[i - 1] == users[i]);
                }
            }
        }
    }
}

/// Without a user who has the presented id and, unexpired, the presented refresh token, a refresh is
/// refused with `401` and nothing is granted; with one, it is never refused.
pub proof fn law_refresh_is_granted_to_the_vouched_alone(
    users: Seq<UserCredentialsView>,
    params: RefreshTokenParamsView,
    now: int,
    secret: Seq<u8>,
    result: Result<RefreshGrant, RefreshError>,
)
    requires
        refresh::refresh_can_give(users, params, now, secret, result),
    ensures
        (exists|i: int| 0 <= i < users.len() && (#[trigger] users[i]).accepts(params, now)) <==> !(
        result matches Err(RefreshError::Refused(_))),
        result matches Err(RefreshError::Refused(error)) ==> error == AuthError::InvalidCredentials
            && error.spec_status() == 401,
        result matches Ok(grant) ==> grant.user_id == params.user_id,
{
    law_vouched_if_some_user_accepts(users, params, now);
}

/// Once the refresh token of a user is replaced, the store vouches for that user with the new one
/// alone, until it expires; of the other users it says what it said before.
pub proof fn law_replaced_refresh_token_is_spent(
    users: Seq<UserCredentialsView>,
    user_id: UserId,
    refresh_token: Seq<char>,
    refresh_token_exp: int,
    params: RefreshTokenParamsView,
    now: int,
)
    ensures
        params.user_id == user_id ==> (refresh::vouched_email(
            refresh::with_replaced(users, user_id, refresh_token, refresh_token_exp),
            params,
            now,
        ) is Some <==> {
            &&& params.refresh_token == refresh_token
            &&& now <= refresh_token_exp
            &&& exists|i: int| 0 <= i < users.len() && (#[trigger] users[i]).user_id == user_id
        }),
        params.user_id != user_id ==> refresh::vouched_email(
            refresh::with_replaced(users, user_id, refresh_token, refresh_token_exp),
            params,
            now,
        ) == refresh::vouched_email(users, params, now),
    decreases users.len(),
{
    if users.len() > 0 {
        let rest = users.drop_first();
        law_replaced_refresh_token_is_spent(
            rest,
            user_id,
            refresh_token,
            refresh_token_exp,
            params,
            now,
        );
        let replaced = refresh::with_replaced(users, user_id, refresh_token, refresh_token_exp);
        assert(replaced.drop_first() =~= refresh::with_replaced(
            rest,
            user_id,
            refresh_token,
            refresh_token_exp,
        ));
        assert(forall|i: int| 0 <= i < rest.len() ==> #[trigger] rest[i] == users[i + 1]);
        assert(forall|i: int| 1 <= i < users.len() ==> #[trigger] users[i] == rest[i - 1]);
    }
}

/// A refresh rotates the refresh token. Once a granted one is stored, another refresh for the user
/// is refused unless it presents the new token before that expires, and then it is not refused: the
/// token that was presented first is spent, unless chance gave it again.
pub proof fn law_refresh_rotates_the_refresh_token(
    users: Seq<UserCredentialsView>,
    params: RefreshTokenParamsView,
    now: int,
    secret: Seq<u8>,
    grant: RefreshGrant,
    next_params: RefreshTokenParamsView,
    next_now: int,
    next_secret: Seq<u8>,
    next_result: Result<RefreshGrant, RefreshError>,
)
    requires
        refresh::refresh_can_give(users, params, now, secret, Ok(grant)),
        next_params.user_id == params.user_id,
        refresh::refresh_can_give(
            refresh::with_replaced(
                users,
                grant.user_id,
                grant.refresh_token@,
                grant.refresh_token_exp@,
            ),
            next_params,
            next_now,
            next_secret,
            next_result,
        ),
    ensures
        next_params.refresh_token == grant.refresh_token@ && next_now <= grant.refresh_token_exp@
            <==> !(next_result matches Err(RefreshError::Refused(_))),
        next_params.refresh_token != grant.refresh_token@ ==> next_result == Err::<
            RefreshGrant,
            RefreshError,
        >(RefreshError::Refused(AuthError::InvalidCredentials)),
{
    law_vouched_if_some_user_accepts(users, params, now);
    law_replaced_refresh_token_is_spent(
        users,
        grant.user_id,
        grant.refresh_token@,
        grant.refresh_token_exp@,
        next_params,
        next_now,
    );
    let i = choose|i: int| 0 <= i < users.len() && (#[trigger] users[i]).accepts(params, now);
    assert(users[i].user_id == params.user_id);
}

/// Until it expires, the access token of a granted refresh authenticates the user who asked for it;
/// from then on it is invalid, and so it always is where it expires before the Unix epoch.
pub proof fn law_granted_access_token_authenticates(
    users: Seq<UserCredentialsView>,
    params: RefreshTokenParamsView,
    store_now: int,
    secret: Seq<u8>,
    grant: RefreshGrant,
    now: u64,
    answer: Result<AuthContext, AuthError>,
)
    requires
        refresh::refresh_can_give(users, params, store_now, secret, Ok(grant)),
        context::authentication_can_give(
            Some(secret),
            Some(bearer_header(grant.access_token@)),
            now,
            answer,
        ),
    ensures
        answer == (if grant.access_token_exp@ < 0 || timestamp::floor_seconds(
            grant.access_token_exp@,
        ) + jwt::LEEWAY_SECONDS < now {
            Err(AuthError::InvalidToken)
        } else {
            Ok(AuthContext { user_id: params.user_id })
        }),
{
    let exp = timestamp::floor_seconds(grant.access_token_exp@);
    assert(i64::MIN <= exp <= i64::MAX);
    law_issued_token_authenticates(
        grant.access_token@,
        params.user_id,
        exp as i64,
        secret,
        now,
        answer,
    );
}

/// A bearer token comes out of a header only where the header is the seven bytes of `Bearer ` and,
/// behind them, just that token in printable ASCII characters and tabs. So a header that does not
/// start with `Bearer ` carries no token.
pub proof fn law_token_comes_out_of_a_bearer_header_alone(value: Seq<u8>, token: Seq<char>)
    requires
        bearer::bearer_token(Some(value)) == Some(token),
    ensures
        value.len() == 7 + token.len(),
        value.take(7) == seq![66u8, 101, 97, 114, 101, 114, 32],
        forall|i: int|
            #![trigger token[i]]
            0 <= i < token.len() ==> {
                &&& 32 <= value[7 + i] <= 126 || value[7 + i] == 9
                &&& value[7 + i] as char == token[i]
            },
{
    reveal_strlit("Bearer ");
    let prefix = "Bearer "@;
    let text = bearer::ascii_chars(value);
    let scheme = seq![66u8, 101, 97, 114, 101, 114, 32];
    assert forall|i: int| 0 <= i < 7 implies value[i] == scheme[i] by {
        assert(text.subrange(0, 7)[i] == prefix[i]);
        assert(text[i] == value[i] as char);
        assert(bearer::is_visible_ascii(value[i]));
        assert(prefix[i] == scheme[i] as char);
    }
    assert(value.take(7) =~= scheme);
    assert forall|i: int| #![trigger token[i]] 0 <= i < token.len() implies {
        &&& 32 <= value[7 + i] <= 126 || value[7 + i] == 9
        &&& value[7 + i] as char == token[i]
    } by {
        assert(token[i] == text[7 + i]);
        assert(bearer::is_visible_ascii(value[7 + i]));
    }
}

/// A header that is the seven bytes of `Bearer ` and, behind them, a token in printable ASCII
/// characters and tabs carries that token.
pub proof fn law_bearer_header_carries_its_token(value: Seq<u8>, token: Seq<char>)
    requires
        value.len() == 7 + token.len(),
        value.take(7) == seq![66u8, 101, 97, 114, 101, 114, 32],
        forall|i: int|
            #![trigger token[i]]
            0 <= i < token.len() ==> {
                &&& 32 <= value[7 + i] <= 126 || value[7 + i] == 9
                &&& value[7 + i] as char == token[i]
            },
    ensures
        bearer::bearer_token(Some(value)) == Some(token),
{
    reveal_strlit("Bearer ");
    let prefix = "Bearer "@;
    let text = bearer::ascii_chars(value);
    let scheme = seq![66u8, 101, 97, 114, 101, 114, 32];
    assert forall|i: int| 0 <= i < value.len() implies bearer::is_visible_ascii(
        #[trigger] value[i],
    ) by {
        if i < 7 {
            assert(value.take(7)[i] == scheme[i]);
        } else {
            let c = token[i - 7];
        }
    }
    assert forall|i: int| 0 <= i < 7 implies text[i] == prefix[i] by {
        assert(value.take(7)[i] == scheme[i]);
        assert(prefix[i] == scheme[i] as char);
    }
    assert(prefix =~= text.subrange(0, 7));
    assert forall|i: int| 0 <= i < token.len() implies text.skip(7)[i] == token[i] by {
        let c = token[i];
    }
    assert(text.skip(7) =~= token);
}

/// What is taken out of a header, or of none: the token that its bytes carry, and nothing without a
/// header.
pub proof fn law_header_is_taken_as_it_is(authorization: Option<&[u8]>)
    ensures
        match authorization {
            Some(value) => context::bytes_view(authorization) == Some(value@),
            None => bearer::bearer_token(context::bytes_view(authorization)) is None,
        },
{
}

/// What an access token says: made by and for `pictou`, for the user, until the second, and nothing
/// else. It is signed with HS256 and the secret.
pub proof fn law_issued_token_says_who_and_until_when(
    token: Seq<char>,
    subject: UserId,
    exp: i64,
    secret: Seq<u8>,
)
    requires
        context::is_access_token(token, subject, exp, secret),
    ensures
        jwt::jwt_algorithm(token) == Some("HS256"@),
        jwt::signature_part(token) == jwt::jwt_signature("HS256"@, jwt::signed_part(token), secret),
        token == jwt::jwt_token(
            "HS256"@,
            seq![
                ("aud"@, ClaimView::Text("pictou"@)),
                ("iss"@, ClaimView::Text("pictou"@)),
                ("exp"@, ClaimView::Number(exp)),
                ("sub"@, ClaimView::Text(user_id::uuid_text(subject.value))),
            ],
            secret,
        ),
        jwt::jwt_payload(token) is Some,
        jwt::claim_named(jwt::jwt_payload(token)->0, "aud"@) == Some(ClaimView::Text("pictou"@)),
        jwt::claim_named(jwt::jwt_payload(token)->0, "iss"@) == Some(ClaimView::Text("pictou"@)),
        jwt::claim_named(jwt::jwt_payload(token)->0, "exp"@) == Some(ClaimView::Number(exp)),
        jwt::claim_named(jwt::jwt_payload(token)->0, "sub"@) == Some(
            ClaimView::Text(user_id::uuid_text(subject.value)),
        ),
        forall|name: Seq<char>|
            name != "aud"@ && name != "iss"@ && name != "exp"@ && name != "sub"@
                ==> #[trigger] jwt::claim_named(jwt::jwt_payload(token)->0, name) is None,
{
    let issued = AuthenticationTokenView::of_user(subject, exp);
    token::lemma_claims_of_token(issued);
    reveal_with_fuel(jwt::claim_named, 5);
}

/// What claims say of an access token, if they say enough: the texts of `aud` and `iss`, the number
/// of `exp`, and the user whose UUID the text of `sub` writes.
pub proof fn law_claims_are_read_by_name(claims: ClaimsView, token: AuthenticationTokenView)
    ensures
        AuthenticationTokenView::of_claims(claims) == Some(token) <==> {
            &&& jwt::claim_named(claims, "aud"@) == Some(ClaimView::Text(token.aud))
            &&& jwt::claim_named(claims, "iss"@) == Some(ClaimView::Text(token.iss))
            &&& jwt::claim_named(claims, "exp"@) == Some(ClaimView::Number(token.exp))
            &&& jwt::claim_named(claims, "sub"@) matches Some(ClaimView::Text(sub))
                && user_id::uuid_number(sub) == Some(token.sub.value as int)
        },
{
    if let Some(ClaimView::Text(sub)) = jwt::claim_named(claims, "sub"@) {
        user_id::law_id_is_the_number(sub, token.sub);
    }
}

/// An access token is accepted only where its header names HS256, its signature is the one by the
/// secret, it was made by and for `pictou`, and the system clock was read no later than a minute
/// behind its expiry; what comes out is what its claims say. Any other text is an invalid token.
pub proof fn law_accepted_token_is_genuine_and_unexpired(
    token: Seq<char>,
    secret: Seq<u8>,
    data: Result<TokenData, AuthError>,
)
    requires
        context::decoding_can_give(token, secret, data),
    ensures
        data matches Err(error) ==> error == AuthError::InvalidToken,
        data is Ok ==> {
            let accepted = data->Ok_0;
            &&& accepted.header.alg@ == "HS256"@
            &&& jwt::jwt_algorithm(token) == Some("HS256"@)
            &&& jwt::signature_part(token) == jwt::jwt_signature(
                "HS256"@,
                jwt::signed_part(token),
                secret,
            )
            &&& jwt::jwt_payload(token) matches Some(claims) && {
                &&& jwt::claim_named(claims, "aud"@) == Some(ClaimView::Text("pictou"@))
                &&& jwt::claim_named(claims, "iss"@) == Some(ClaimView::Text("pictou"@))
                &&& jwt::claim_named(claims, "exp"@) == Some(ClaimView::Number(accepted.claims.exp))
                &&& jwt::claim_named(claims, "sub"@) matches Some(ClaimView::Text(sub))
                    && user_id::uuid_number(sub) == Some(accepted.claims.sub.value as int)
            }
            &&& accepted.claims.aud@ == "pictou"@
            &&& accepted.claims.iss@ == "pictou"@
            &&& 0 <= accepted.claims.exp
            &&& exists|now: int| #[trigger]
                outside::is_clock_second(now) && now <= accepted.claims.exp + 60
        },
{
    let (now, outcome) = choose|now: u64, outcome: Option<DecodedTokenView>|
        outside::is_clock_second(now as int) && #[trigger] context::reading_can_give(
            token,
            secret,
            now,
            outcome,
        ) && context::token_result_view(data) == context::token_of_outcome(outcome);
    if let Ok(accepted) = data {
        law_accepted_token_is_our_own(token, secret, now, outcome, accepted@);
        law_claims_are_read_by_name(jwt::jwt_payload(token)->0, accepted.claims@);
        assert(outside::is_clock_second(now as int));
    }
}

/// A token with a header that names HS256, the signature by the secret, the audience and the issuer
/// `pictou`, an expiry that is not negative and a UUID as its subject is accepted, whatever else it
/// claims, unless the system clock was read more than a minute behind its expiry.
pub proof fn law_genuine_token_is_accepted_until_it_expires(
    token: Seq<char>,
    secret: Seq<u8>,
    claims: ClaimsView,
    exp: i64,
    sub: Seq<char>,
    subject: UserId,
    data: Result<TokenData, AuthError>,
)
    requires
        jwt::jwt_algorithm(token) == Some("HS256"@),
        jwt::signature_part(token) == jwt::jwt_signature("HS256"@, jwt::signed_part(token), secret),
        jwt::jwt_payload(token) == Some(claims),
        jwt::claim_named(claims, "aud"@) == Some(ClaimView::Text("pictou"@)),
        jwt::claim_named(claims, "iss"@) == Some(ClaimView::Text("pictou"@)),
        jwt::claim_named(claims, "exp"@) == Some(ClaimView::Number(exp)),
        0 <= exp,
        jwt::claim_named(claims, "sub"@) == Some(ClaimView::Text(sub)),
        user_id::uuid_number(sub) == Some(subject.value as int),
        context::decoding_can_give(token, secret, data),
    ensures
        data is Err ==> exists|now: int| #[trigger] outside::is_clock_second(now) && exp + 60 < now,
        data matches Ok(accepted) ==> accepted.claims.sub == subject && accepted.claims.exp == exp,
{
    let (now, outcome) = choose|now: u64, outcome: Option<DecodedTokenView>|
        outside::is_clock_second(now as int) && #[trigger] context::reading_can_give(
            token,
            secret,
            now,
            outcome,
        ) && context::token_result_view(data) == context::token_of_outcome(outcome);
    let said = AuthenticationTokenView { aud: "pictou"@, iss: "pictou"@, exp, sub: subject };
    law_claims_are_read_by_name(claims, said);
    assert(seq!["pictou"@][0] == "pictou"@);
    if data is Err {
        assert(outside::is_clock_second(now as int));
    }
}

/// A token that was issued is refused only where the system clock was read more than a minute behind
/// its expiry, or it expires before the Unix epoch; and accepted only where the clock was read no
/// later than that, and then as the token of its user.
pub proof fn law_issued_token_is_judged_by_the_clock(
    token: Seq<char>,
    subject: UserId,
    exp: i64,
    secret: Seq<u8>,
    data: Result<TokenData, AuthError>,
)
    requires
        context::is_access_token(token, subject, exp, secret),
        context::decoding_can_give(token, secret, data),
    ensures
        data is Err ==> exp < 0 || exists|now: int| #[trigger]
            outside::is_clock_second(now) && exp + 60 < now,
        data is Ok ==> 0 <= exp && exists|now: int| #[trigger]
            outside::is_clock_second(now) && now <= exp + 60,
        data matches Ok(accepted) ==> accepted.claims.sub == subject && accepted.claims.exp == exp,
{
    law_issued_token_says_who_and_until_when(token, subject, exp, secret);
    user_id::law_text_reads_back(subject);
    user_id::law_id_is_the_number(user_id::uuid_text(subject.value), subject);
    law_accepted_token_is_genuine_and_unexpired(token, secret, data);
    if exp >= 0 {
        law_genuine_token_is_accepted_until_it_expires(
            token,
            secret,
            jwt::jwt_payload(token)->0,
            exp,
            user_id::uuid_text(subject.value),
            subject,
            data,
        );
    }
}

/// Without a secret a request is answered with an internal error, whatever its header; with one, and
/// no header or one without a token, it is answered that the header is invalid.
pub proof fn law_request_without_secret_or_token(
    jwt_secret: Option<&[u8]>,
    authorization: Option<&[u8]>,
    context: Result<AuthContext, AuthError>,
)
    requires
        context::request_can_give(
            context::bytes_view(jwt_secret),
            context::bytes_view(authorization),
            context,
        ),
    ensures
        jwt_secret is None <==> context == Err::<AuthContext, AuthError>(AuthError::Internal),
        jwt_secret is Some && (authorization is None || bearer::bearer_token(
            Some(authorization->0@),
        ) is None) <==> context == Err::<AuthContext, AuthError>(
            AuthError::InvalidAuthorizationHeader,
        ),
{
}

/// Where there is a secret, and a token in the header, a user is behind the request only if the
/// token was read as an access token of that user at a reading of the system clock; else it was
/// refused at one, and the answer is that it is invalid.
pub proof fn law_request_is_judged_by_its_token(
    secret: &[u8],
    value: &[u8],
    token: Seq<char>,
    context: Result<AuthContext, AuthError>,
)
    requires
        bearer::bearer_token(Some(value@)) == Some(token),
        context::request_can_give(
            context::bytes_view(Some(secret)),
            context::bytes_view(Some(value)),
            context,
        ),
    ensures
        exists|now: u64, outcome: Option<DecodedTokenView>|
            {
                &&& outside::is_clock_second(now as int)
                &&& #[trigger] context::reading_can_give(token, secret@, now, outcome)
                &&& match context {
                    Ok(found) => context::token_of_outcome(outcome) matches Ok(data)
                        && data.claims.sub == found.user_id,
                    Err(error) => error == AuthError::InvalidToken && context::token_of_outcome(
                        outcome,
                    ) is Err,
                }
            },
{
    let now = choose|now: u64|
        {
            &&& #[trigger] context::authentication_can_give(
                Some(secret@),
                Some(value@),
                now,
                context,
            )
            &&& outside::is_clock_second(now as int)
        };
    let outcome = choose|outcome: Option<DecodedTokenView>|
        #[trigger] context::reading_can_give(token, secret@, now, outcome) && context
            == context::context_of_token(context::token_of_outcome(outcome));
    assert(context::reading_can_give(token, secret@, now, outcome));
}

/// A user is behind a request only where its header is `Bearer ` and a token that names HS256 and
/// has the signature by the secret, that was made by and for `pictou`, whose subject is the user,
/// and of which the system clock was read no later than a minute behind its expiry.
pub proof fn law_authenticated_user_has_a_genuine_token(
    jwt_secret: Option<&[u8]>,
    authorization: Option<&[u8]>,
    found: AuthContext,
)
    requires
        context::request_can_give(
            context::bytes_view(jwt_secret),
            context::bytes_view(authorization),
            Ok(found),
        ),
    ensures
        jwt_secret is Some,
        authorization is Some,
        bearer::bearer_token(Some(authorization->0@)) matches Some(token) && {
            &&& jwt::jwt_algorithm(token) == Some("HS256"@)
            &&& jwt::signature_part(token) == jwt::jwt_signature(
                "HS256"@,
                jwt::signed_part(token),
                jwt_secret->0@,
            )
            &&& jwt::jwt_payload(token) matches Some(claims) && {
                &&& jwt::claim_named(claims, "aud"@) == Some(ClaimView::Text("pictou"@))
                &&& jwt::claim_named(claims, "iss"@) == Some(ClaimView::Text("pictou"@))
                &&& jwt::claim_named(claims, "sub"@) matches Some(ClaimView::Text(sub))
                    && user_id::uuid_number(sub) == Some(found.user_id.value as int)
                &&& jwt::claim_named(claims, "exp"@) matches Some(ClaimView::Number(exp)) && 0 <= exp
                    && exists|now: int| #[trigger]
                    outside::is_clock_second(now) && now <= exp + 60
            }
        },
{
    law_request_without_secret_or_token(jwt_secret, authorization, Ok(found));
    let token = bearer::bearer_token(Some(authorization->0@))->0;
    let secret = jwt_secret->0@;
    law_request_is_judged_by_its_token(jwt_secret->0, authorization->0, token, Ok(found));
    let (now, outcome) = choose|now: u64, outcome: Option<DecodedTokenView>|
        {
            &&& outside::is_clock_second(now as int)
            &&& #[trigger] context::reading_can_give(token, secret, now, outcome)
            &&& context::token_of_outcome(outcome) matches Ok(data) && data.claims.sub
                == found.user_id
        };
    let data = context::token_of_outcome(outcome)->Ok_0;
    law_accepted_token_is_our_own(token, secret, now, outcome, data);
    law_claims_are_read_by_name(jwt::jwt_payload(token)->0, data.claims);
    assert(outside::is_clock_second(now as int));
}

/// A request whose header carries a token that names HS256, has the signature by the secret, was made
/// by and for `pictou`, and has an expiry that is not negative and a UUID as its subject is that of
/// the subject, unless the system clock was read more than a minute behind the expiry; then, and
/// only then, the answer is that the token is invalid.
pub proof fn law_genuine_token_authenticates_until_it_expires(
    secret: &[u8],
    value: &[u8],
    token: Seq<char>,
    claims: ClaimsView,
    exp: i64,
    sub: Seq<char>,
    subject: UserId,
    context: Result<AuthContext, AuthError>,
)
    requires
        bearer::bearer_token(Some(value@)) == Some(token),
        jwt::jwt_algorithm(token) == Some("HS256"@),
        jwt::signature_part(token) == jwt::jwt_signature("HS256"@, jwt::signed_part(token), secret@),
        jwt::jwt_payload(token) == Some(claims),
        jwt::claim_named(claims, "aud"@) == Some(ClaimView::Text("pictou"@)),
        jwt::claim_named(claims, "iss"@) == Some(ClaimView::Text("pictou"@)),
        jwt::claim_named(claims, "exp"@) == Some(ClaimView::Number(exp)),
        0 <= exp,
        jwt::claim_named(claims, "sub"@) == Some(ClaimView::Text(sub)),
        user_id::uuid_number(sub) == Some(subject.value as int),
        context::request_can_give(
            context::bytes_view(Some(secret)),
            context::bytes_view(Some(value)),
            context,
        ),
    ensures
        context == Ok::<AuthContext, AuthError>(AuthContext { user_id: subject }) || context == Err::<
            AuthContext,
            AuthError,
        >(AuthError::InvalidToken),
        context is Err ==> exists|now: int| #[trigger]
            outside::is_clock_second(now) && exp + 60 < now,
{
    law_request_is_judged_by_its_token(secret, value, token, context);
    let (now, outcome) = choose|now: u64, outcome: Option<DecodedTokenView>|
        {
            &&& outside::is_clock_second(now as int)
            &&& #[trigger] context::reading_can_give(token, secret@, now, outcome)
            &&& match context {
                Ok(found) => context::token_of_outcome(outcome) matches Ok(data) && data.claims.sub
                    == found.user_id,
                Err(error) => error == AuthError::InvalidToken && context::token_of_outcome(
                    outcome,
                ) is Err,
            }
        };
    let said = AuthenticationTokenView { aud: "pictou"@, iss: "pictou"@, exp, sub: subject };
    law_claims_are_read_by_name(claims, said);
    assert(seq!["pictou"@][0] == "pictou"@);
    assert(outside::is_clock_second(now as int));
}

/// The store vouches for what a client presents if and only if it has a user with the presented id
/// and a stored refresh token that is the presented text and expires at `now` or later; the email is
/// that of the first such user. So a user without a stored refresh token is never vouched for.
pub proof fn law_vouched_user_has_the_presented_token(
    users: Seq<UserCredentials>,
    params: RefreshTokenParams,
    now: int,
)
    ensures
        match refresh::vouched_email(refresh::users_view(users), params@, now) {
            Some(email) => exists|i: int|
                {
                    &&& 0 <= i < users.len()
                    &&& (#[trigger] users[i]).user_id == params.user_id
                    &&& users[i].refresh_token is Some
                    &&& users[i].refresh_token->0@ == params.refresh_token@
                    &&& users[i].refresh_token_exp@ >= now
                    &&& users[i].email@ == email
                    &&& forall|j: int|
                        0 <= j < i ==> {
                            ||| (#[trigger] users[j]).user_id != params.user_id
                            ||| users[j].refresh_token is None
                            ||| users[j].refresh_token->0@ != params.refresh_token@
                            ||| users[j].refresh_token_exp@ < now
                        }
                },
            None => forall|j: int|
                0 <= j < users.len() ==> {
                    ||| (#[trigger] users[j]).user_id != params.user_id
                    ||| users[j].refresh_token is None
                    ||| users[j].refresh_token->0@ != params.refresh_token@
                    ||| users[j].refresh_token_exp@ < now
                },
        },
    decreases users.len(),
{
    if users.len() > 0 {
        let rest = users.drop_first();
        assert(refresh::users_view(users).drop_first() =~= refresh::users_view(rest));
        assert(refresh::users_view(users)[0] == users[0]@);
        assert(forall|i: int| 1 <= i < users.len() ==> #[trigger] users[i] == rest[i - 1]);
        law_vouched_user_has_the_presented_token(rest, params, now);
        if !users[0]@.accepts(params@, now) {
            if let Some(email) = refresh::vouched_email(refresh::users_view(rest), params@, now) {
                let i = choose|i: int|
                    {
                        &&& 0 <= i < rest.len()
                        &&& (#[trigger] rest[i]).user_id == params.user_id
                        &&& rest[i].refresh_token is Some
                        &&& rest[i].refresh_token->0@ == params.refresh_token@
                        &&& rest[i].refresh_token_exp@ >= now
                        &&& rest[i].email@ == email
                        &&& forall|j: int|
                            0 <= j < i ==> {
                                ||| (#[trigger] rest[j]).user_id != params.user_id
                                ||| rest[j].refresh_token is None
                                ||| rest[j].refresh_token->0@ != params.refresh_token@
                                ||| rest[j].refresh_token_exp@ < now
                            }
                    };
                assert(users[i + 1] == rest[i]);
            }
        }
    }
}

/// A refresh is refused, with invalid credentials, if and only if no stored user has the presented
/// id and a stored refresh token that is the presented text and expires at `now` or later. A granted
/// one is for the presented user, under the email of such a stored user.
pub proof fn law_refresh_needs_the_stored_token(
    users: Seq<UserCredentials>,
    params: RefreshTokenParams,
    now: int,
    secret: Seq<u8>,
    result: Result<RefreshGrant, RefreshError>,
)
    requires
        refresh::refresh_can_give(refresh::users_view(users), params@, now, secret, result),
    ensures
        result == Err::<RefreshGrant, RefreshError>(
            RefreshError::Refused(AuthError::InvalidCredentials),
        ) <==> forall|j: int|
            0 <= j < users.len() ==> {
                ||| (#[trigger] users[j]).user_id != params.user_id
                ||| users[j].refresh_token is None
                ||| users[j].refresh_token->0@ != params.refresh_token@
                ||| users[j].refresh_token_exp@ < now
            },
        result matches Ok(grant) ==> grant.user_id == params.user_id && exists|i: int|
            {
                &&& 0 <= i < users.len()
                &&& (#[trigger] users[i]).user_id == params.user_id
                &&& users[i].refresh_token is Some
                &&& users[i].refresh_token->0@ == params.refresh_token@
                &&& users[i].refresh_token_exp@ >= now
                &&& users[i].email@ == grant.email@
            },
{
    law_vouched_user_has_the_presented_token(users, params, now);
}

/// What is granted lasts from readings of the system clock: the access token expires three minutes
/// after one, and says the second that this falls in; the refresh token expires thirty days after
/// one. The access token is that of the presented user, signed with the secret. The new refresh
/// token is the base64 text of one draw of 128 bytes.
pub proof fn law_grant_lasts_from_the_clock(
    users: Seq<UserCredentials>,
    params: RefreshTokenParams,
    now: int,
    secret: Seq<u8>,
    grant: RefreshGrant,
)
    requires
        refresh::refresh_can_give(refresh::users_view(users), params@, now, secret, Ok(grant)),
    ensures
        exists|issued_at: int| #[trigger]
            outside::is_clock_reading(issued_at) && grant.access_token_exp@ == issued_at + 3 * 60
                * 1_000_000_000,
        exists|replaced_at: int| #[trigger]
            outside::is_clock_reading(replaced_at) && grant.refresh_token_exp@ == replaced_at + 30
                * 24 * 60 * 60 * 1_000_000_000,
        exists|bytes: Seq<u8>| #[trigger]
            outside::is_draw(bytes) && bytes.len() == 128 && grant.refresh_token@
                == base64_text::base64_text(bytes),
        jwt::jwt_algorithm(grant.access_token@) == Some("HS256"@),
        jwt::signature_part(grant.access_token@) == jwt::jwt_signature(
            "HS256"@,
            jwt::signed_part(grant.access_token@),
            secret,
        ),
        jwt::jwt_payload(grant.access_token@) matches Some(claims) && {
            &&& jwt::claim_named(claims, "aud"@) == Some(ClaimView::Text("pictou"@))
            &&& jwt::claim_named(claims, "iss"@) == Some(ClaimView::Text("pictou"@))
            &&& jwt::claim_named(claims, "sub"@) == Some(
                ClaimView::Text(user_id::uuid_text(params.user_id.value)),
            )
            &&& jwt::claim_named(claims, "exp"@) matches Some(ClaimView::Number(exp)) && exp
                * 1_000_000_000 <= grant.access_token_exp@ < (exp + 1) * 1_000_000_000
        },
{
    let exp = timestamp::floor_seconds(grant.access_token_exp@);
    timestamp::law_second_of_an_instant(grant.access_token_exp@);
    law_issued_token_says_who_and_until_when(
        grant.access_token@,
        params.user_id,
        exp as i64,
        secret,
    );
}

/// At given instants a refresh is granted if and only if three minutes after the one, and thirty
/// days after the other, still fall in the years that a timestamp can hold; else the clock is out of
/// range. What is granted is for the user, under the email, and lasts just so long.
pub proof fn law_grant_at_given_instants(
    user_id: UserId,
    email: Seq<char>,
    secret: Seq<u8>,
    issued_at: int,
    refresh_token: Seq<char>,
    replaced_at: int,
    result: Result<RefreshGrant, RefreshError>,
)
    requires
        timestamp::in_calendar(issued_at),
        timestamp::in_calendar(replaced_at),
        refresh::granting_gives(
            user_id,
            email,
            secret,
            issued_at,
            refresh_token,
            replaced_at,
            result,
        ),
    ensures
        result is Ok <==> issued_at + 3 * 60 * 1_000_000_000 < 253_402_300_800 * 1_000_000_000
            && replaced_at + 30 * 24 * 60 * 60 * 1_000_000_000 < 253_402_300_800 * 1_000_000_000,
        result matches Err(error) ==> error == RefreshError::ClockOutOfRange,
        result matches Ok(grant) ==> {
            &&& grant.user_id == user_id
            &&& grant.email@ == email
            &&& grant.access_token_exp@ == issued_at + 3 * 60 * 1_000_000_000
            &&& grant.refresh_token@ == refresh_token
            &&& grant.refresh_token_exp@ == replaced_at + 30 * 24 * 60 * 60 * 1_000_000_000
            &&& exists|exp: i64|
                {
                    &&& #[trigger] context::is_access_token(
                        grant.access_token@,
                        user_id,
                        exp,
                        secret,
                    )
                    &&& exp * 1_000_000_000 <= grant.access_token_exp@ < (exp + 1) * 1_000_000_000
                }
        },
{
    if let Ok(grant) = result {
        let exp = timestamp::floor_seconds(grant.access_token_exp@);
        timestamp::law_second_of_an_instant(grant.access_token_exp@);
        assert(context::is_access_token(grant.access_token@, user_id, exp as i64, secret));
    }
}

/// What is made of an outcome, and who is behind a request by what was made of it: nothing but an
/// accepted token with all the claims gives a token, with the algorithm and the claims that it has,
/// and the user is its subject; an error stays what it is.
pub proof fn law_outcome_makes_the_context(outcome: Option<DecodedTokenView>, error: AuthError)
    ensures
        match outcome {
            None => context::token_of_outcome(outcome) == Err::<TokenDataView, AuthError>(
                AuthError::InvalidToken,
            ),
            Some(decoded) => match context::token_of_outcome(outcome) {
                Ok(data) => data.alg == decoded.algorithm && AuthenticationTokenView::of_claims(
                    decoded.claims,
                ) == Some(data.claims),
                Err(error) => error == AuthError::InvalidToken
                    && AuthenticationTokenView::of_claims(decoded.claims) is None,
            },
        },
        context::token_of_outcome(outcome) matches Ok(data) ==> context::context_of_token(Ok(data))
            == Ok::<AuthContext, AuthError>(AuthContext { user_id: data.claims.sub }),
        context::context_of_token(Err(error)) == Err::<AuthContext, AuthError>(error),
{
}

} // verus!
