//! JSON Web Tokens signed with a shared secret: what they hold, how they are made and under which
//! rules they are read.

use vstd::prelude::*;

use crate::outside;
use jsonwebtoken::{decode, DecodingKey, EncodingKey, Header, Validation};
use serde_json::value::RawValue;
use serde_json::{from_str, Value};
use std::collections::BTreeMap;

verus! {

/// The JSON value of a claim, as far as it matters here.
#[derive(Debug)]
pub enum ClaimValue {
    /// A string.
    Text(String),
    /// An integer in the range of `i64`.
    Number(i64),
    /// Any other value.
    Other,
}

/// The value of a claim.
pub enum ClaimView {
    Text(Seq<char>),
    Number(i64),
    Other,
}

impl View for ClaimValue {
    type V = ClaimView;

    open spec fn view(&self) -> ClaimView {
        match self {
            ClaimValue::Text(text) => ClaimView::Text(text@),
            ClaimValue::Number(number) => ClaimView::Number(*number),
            ClaimValue::Other => ClaimView::Other,
        }
    }
}

/// One claim of a token.
#[derive(Debug)]
pub struct Claim {
    pub name: String,
    pub value: ClaimValue,
}

/// The contents of an optional text.
pub open spec fn text_view(text: Option<String>) -> Option<Seq<char>> {
    match text {
        Some(t) => Some(t@),
        None => None,
    }
}

impl View for Claim {
    type V = (Seq<char>, ClaimView);

    open spec fn view(&self) -> (Seq<char>, ClaimView) {
        (self.name@, self.value@)
    }
}

/// Claims by name and value.
pub type ClaimsView = Seq<(Seq<char>, ClaimView)>;

/// The names and values of claims.
pub open spec fn claims_view(claims: Seq<Claim>) -> ClaimsView {
    claims.map_values(|claim: Claim| claim@)
}

/// The value of the first claim of a name, if there is one.
pub open spec fn claim_named(claims: ClaimsView, name: Seq<char>) -> Option<ClaimView>
    decreases claims.len(),
{
    if claims.len() == 0 {
        None
    } else if claims[0].0 == name {
        Some(claims[0].1)
    } else {
        claim_named(claims.drop_first(), name)
    }
}

/// Finds the first claim of a name.
pub fn find_claim<'a>(claims: &'a Vec<Claim>, name: &str) -> (found: Option<&'a Claim>)
    ensures
        match found {
            Some(claim) => claim.name@ == name@ && claim_named(claims_view(claims@), name@) == Some(
                claim@.1,
            ),
            None => claim_named(claims_view(claims@), name@) is None,
        },
{
    let wanted = name.to_owned();
    let ghost all = claims_view(claims@);
    let mut i: usize = 0;
    assert(all.skip(0) =~= all);
    while i < claims.len()
        invariant
            i <= claims.len(),
            wanted@ == name@,
            all == claims_view(claims@),
            claim_named(all, name@) == claim_named(all.skip(i as int), name@),
        decreases claims.len() - i,
    {
        assert(all.skip(i as int)[0] == claims@[i as int]@);
        assert(all.skip(i as int).drop_first() =~= all.skip(i + 1));
        if claims[i].name == wanted {
            return Some(&claims[i]);
        }
        i += 1;
    }
    None
}

/// The claim of a name is the first one that has the name; there is none where none has it.
pub proof fn law_claim_named_is_the_first(claims: ClaimsView, name: Seq<char>)
    ensures
        match claim_named(claims, name) {
            Some(value) => exists|i: int|
                {
                    &&& 0 <= i < claims.len()
                    &&& #[trigger] claims[i] == (name, value)
                    &&& forall|j: int| 0 <= j < i ==> (#[trigger] claims[j]).0 != name
                },
            None => forall|i: int| 0 <= i < claims.len() ==> (#[trigger] claims[i]).0 != name,
        },
    decreases claims.len(),
{
    if claims.len() > 0 {
        let rest = claims.drop_first();
        assert(forall|i: int| 1 <= i < claims.len() ==> #[trigger] claims[i] == rest[i - 1]);
        if claims[0].0 == name {
            assert(claims[0] == (name, claims[0].1));
        } else {
            law_claim_named_is_the_first(rest, name);
            if let Some(value) = claim_named(rest, name) {
                let i = choose|i: int|
                    {
                        &&& 0 <= i < rest.len()
                        &&& #[trigger] rest[i] == (name, value)
                        &&& forall|j: int| 0 <= j < i ==> (#[trigger] rest[j]).0 != name
                    };
                assert(claims[i + 1] == (name, value));
            }
        }
    }
}

/// Whether no name occurs twice and each claim is a string or an integer.
pub open spec fn plain_claims(claims: ClaimsView) -> bool {
    &&& forall|i: int, j: int|
        0 <= i < j < claims.len() ==> (#[trigger] claims[i]).0 != (#[trigger] claims[j]).0
    &&& forall|i: int| 0 <= i < claims.len() ==> (#[trigger] claims[i]).1 !is Other
}

/// Whether claims say the same under each name.
pub open spec fn same_claims(left: ClaimsView, right: ClaimsView) -> bool {
    forall|name: Seq<char>| #[trigger] claim_named(left, name) == claim_named(right, name)
}

/// Whether an algorithm of this name signs with a shared secret.
pub open spec fn signs_with_secret(algorithm: Seq<char>) -> bool {
    algorithm == "HS256"@ || algorithm == "HS384"@ || algorithm == "HS512"@
}

/// The characters of a token: the URL-safe base64 alphabet and the dot between the parts.
pub open spec fn is_token_char(c: char) -> bool {
    'A' <= c <= 'Z' || 'a' <= c <= 'z' || '0' <= c <= '9' || c == '-' || c == '_' || c == '.'
}

/// The token that `jsonwebtoken::encode` makes of claims, with a header that names the algorithm
/// and a signature by the algorithm and the secret.
pub uninterp spec fn jwt_token(
    algorithm: Seq<char>,
    claims: Seq<(Seq<char>, ClaimView)>,
    secret: Seq<u8>,
) -> Seq<char>;

/// The algorithm that the header of a token names, as `jsonwebtoken::decode_header` reads it;
/// nothing where the text is no token.
pub uninterp spec fn jwt_algorithm(token: Seq<char>) -> Option<Seq<char>>;

/// The claims in the payload of a token, by name, as `jsonwebtoken::decode` reads them; nothing
/// where the text is no token or its payload cannot be read as claims (say, it is no JSON object in
/// UTF-8, or names a registered claim twice).
pub uninterp spec fn jwt_payload(token: Seq<char>) -> Option<Seq<(Seq<char>, ClaimView)>>;

/// The signature of a text by an algorithm and a secret, as `jsonwebtoken::crypto::sign` makes it.
pub uninterp spec fn jwt_signature(
    algorithm: Seq<char>,
    text: Seq<char>,
    secret: Seq<u8>,
) -> Seq<char>;

/// Where the last dot of a text stands; -1 where it has none.
pub open spec fn last_dot(text: Seq<char>) -> int
    decreases text.len(),
{
    if text.len() == 0 {
        -1
    } else if text.last() == '.' {
        text.len() - 1
    } else {
        last_dot(text.drop_last())
    }
}

/// The part of a token that is signed: what stands before the last dot.
pub open spec fn signed_part(token: Seq<char>) -> Seq<char> {
    token.take(last_dot(token))
}

/// The signature of a token: what stands behind the last dot.
pub open spec fn signature_part(token: Seq<char>) -> Seq<char> {
    token.skip(last_dot(token) + 1)
}

/// Whether the signature of a token is the one by the algorithm and the secret.
pub open spec fn is_signed(token: Seq<char>, algorithm: Seq<char>, secret: Seq<u8>) -> bool {
    signature_part(token) == jwt_signature(algorithm, signed_part(token), secret)
}

/// The claims that a token holds for a reader who has the secret: those of its payload, if its
/// header names the algorithm and its signature is the one by the algorithm and the secret.
pub open spec fn jwt_claims(
    algorithm: Seq<char>,
    token: Seq<char>,
    secret: Seq<u8>,
) -> Option<ClaimsView> {
    if jwt_algorithm(token) == Some(algorithm) && is_signed(token, algorithm, secret) {
        jwt_payload(token)
    } else {
        None
    }
}

/// Whether a token was made of the claims with the secret: it is the token of the claims, its header
/// names the algorithm, its payload says what the claims say, it is signed with the secret, and it
/// is made of token characters.
pub open spec fn is_token_of(
    token: Seq<char>,
    algorithm: Seq<char>,
    claims: ClaimsView,
    secret: Seq<u8>,
) -> bool {
    &&& token == jwt_token(algorithm, claims, secret)
    &&& jwt_algorithm(token) == Some(algorithm)
    &&& jwt_payload(token) is Some
    &&& same_claims(jwt_payload(token)->0, claims)
    &&& is_signed(token, algorithm, secret)
    &&& forall|i: int| 0 <= i < token.len() ==> is_token_char(#[trigger] token[i])
}

/// The rules that a token has to meet to be accepted.
#[derive(Debug)]
pub struct TokenRules {
    /// The algorithm that has to have signed the token.
    pub algorithm: String,
    /// Whether an expired token is refused.
    pub validate_exp: bool,
    /// Whether the audience of a token is looked at.
    pub validate_aud: bool,
    /// The accepted audiences.
    pub audience: Vec<String>,
    /// The accepted issuers.
    pub issuer: Vec<String>,
}

/// The rules that a token has to meet to be accepted.
pub struct TokenRulesView {
    pub algorithm: Seq<char>,
    pub validate_exp: bool,
    pub validate_aud: bool,
    pub audience: Seq<Seq<char>>,
    pub issuer: Seq<Seq<char>>,
}

impl View for TokenRules {
    type V = TokenRulesView;

    open spec fn view(&self) -> TokenRulesView {
        TokenRulesView {
            algorithm: self.algorithm@,
            validate_exp: self.validate_exp,
            validate_aud: self.validate_aud,
            audience: self.audience@.map_values(|text: String| text@),
            issuer: self.issuer@.map_values(|text: String| text@),
        }
    }
}

/// A token that was read and met the rules: the algorithm that its header names, and its claims.
#[derive(Debug)]
pub struct DecodedToken {
    pub algorithm: String,
    pub claims: Vec<Claim>,
}

/// A token that was read and met the rules.
pub struct DecodedTokenView {
    pub algorithm: Seq<char>,
    pub claims: ClaimsView,
}

impl View for DecodedToken {
    type V = DecodedTokenView;

    open spec fn view(&self) -> DecodedTokenView {
        DecodedTokenView { algorithm: self.algorithm@, claims: claims_view(self.claims@) }
    }
}

/// What came of reading a token, by view: the token, if it was accepted.
pub open spec fn outcome_view(outcome: Option<DecodedToken>) -> Option<DecodedTokenView> {
    match outcome {
        Some(decoded) => Some(decoded@),
        None => None,
    }
}

/// Whether the claims say when the token expires: `exp` is there, is no string, and is not negative
/// where it is an integer.
pub open spec fn states_expiry(claims: ClaimsView) -> bool {
    match claim_named(claims, "exp"@) {
        Some(ClaimView::Number(seconds)) => seconds >= 0,
        Some(ClaimView::Other) => true,
        _ => false,
    }
}

/// Whether a claim is a string outside of the accepted ones.
pub open spec fn names_another(claim: Option<ClaimView>, accepted: Seq<Seq<char>>) -> bool {
    claim matches Some(ClaimView::Text(text)) && !accepted.contains(text)
}

/// Whether a claim is one of the accepted strings.
pub open spec fn names_one_of(claim: Option<ClaimView>, accepted: Seq<Seq<char>>) -> bool {
    claim matches Some(ClaimView::Text(text)) && accepted.contains(text)
}

/// For how long past its expiry a token is still accepted, in seconds.
pub const LEEWAY_SECONDS: u64 = 60;

/// Whether a token has expired, leeway included, when the clock reads `now`, in seconds since the
/// Unix epoch.
pub open spec fn has_expired(exp: i64, now: u64) -> bool {
    exp + LEEWAY_SECONDS < now
}

/// Whether nothing speaks against the claims when the clock reads `now`: `exp` is an integer, not
/// negative and not passed, `iss` and `aud` are among the accepted strings.
pub open spec fn meets_rules(rules: TokenRulesView, claims: ClaimsView, now: u64) -> bool {
    &&& claim_named(claims, "exp"@) matches Some(ClaimView::Number(exp)) && exp >= 0 && !(
    rules.validate_exp && has_expired(exp, now))
    &&& names_one_of(claim_named(claims, "iss"@), rules.issuer)
    &&& names_one_of(claim_named(claims, "aud"@), rules.audience)
}

/// What can come of reading a token under the rules when the clock reads `now`; `contents` are the
/// claims that the token holds, if it holds any.
///
/// A token is accepted with just those claims, and only where they state an expiry, have not
/// expired, and name no other issuer and no other audience. A token that holds no claims is not
/// accepted; one whose claims meet the rules is.
pub open spec fn decode_can_give(
    rules: TokenRulesView,
    contents: Option<ClaimsView>,
    now: u64,
    outcome: Option<DecodedTokenView>,
) -> bool {
    match outcome {
        Some(decoded) => {
            &&& contents == Some(decoded.claims)
            &&& decoded.algorithm == rules.algorithm
            &&& states_expiry(decoded.claims)
            &&& rules.validate_exp ==> (claim_named(decoded.claims, "exp"@) matches Some(
                ClaimView::Number(exp),
            ) ==> !has_expired(exp, now))
            &&& !names_another(claim_named(decoded.claims, "iss"@), rules.issuer)
            &&& rules.validate_aud ==> !names_another(
                claim_named(decoded.claims, "aud"@),
                rules.audience,
            )
        },
        None => contents matches Some(claims) ==> !meets_rules(rules, claims, now),
    }
}

/// What can come of reading a token under the rules at some reading of the system clock.
pub open spec fn decode_at_a_reading(
    rules: TokenRulesView,
    contents: Option<ClaimsView>,
    outcome: Option<DecodedTokenView>,
) -> bool {
    exists|now: u64|
        outside::is_clock_second(now as int) && #[trigger] decode_can_give(
            rules,
            contents,
            now,
            outcome,
        )
}

/// The errors of `jsonwebtoken`.
#[verifier::external_type_specification]
#[verifier::external_body]
pub struct ExJwtError(jsonwebtoken::errors::Error);

/// What came of reading a token, by view; why a token was not accepted does not matter.
pub open spec fn read_view(read: Result<DecodedToken, jsonwebtoken::errors::Error>) -> Option<
    DecodedTokenView,
> {
    match read {
        Ok(decoded) => Some(decoded@),
        Err(_) => None,
    }
}

/// `jsonwebtoken::encode` with `Header::new` and an `EncodingKey` from the secret. With an
/// algorithm that signs with a secret, and claims that are strings and integers, it always makes a
/// token: one that depends on the algorithm, the claims in their order and the secret alone, is
/// written in URL-safe base64 and dots, names the algorithm in its header, holds the claims in its
/// payload for `jsonwebtoken::decode`, and ends in the signature of what stands before the last dot.
#[verifier::external_body]
pub(crate) fn jwt_encode(algorithm: &str, claims: &Vec<Claim>, secret: &[u8]) -> (token: Result<
    String,
    jsonwebtoken::errors::Error,
>)
    requires
        signs_with_secret(algorithm@),
        plain_claims(claims_view(claims@)),
    ensures
        token is Ok,
        token->Ok_0@ == jwt_token(algorithm@, claims_view(claims@), secret@),
        jwt_algorithm(token->Ok_0@) == Some(algorithm@),
        jwt_payload(token->Ok_0@) is Some,
        same_claims(jwt_payload(token->Ok_0@)->0, claims_view(claims@)),
        signature_part(token->Ok_0@) == jwt_signature(
            algorithm@,
            signed_part(token->Ok_0@),
            secret@,
        ),
        forall|i: int|
            0 <= i < token->Ok_0@.len() ==> is_token_char(#[trigger] token->Ok_0@[i]),
{
    let claims: serde_json::Map<String, Value> = claims.iter().map(|claim| (
        claim.name.clone(),
        match &claim.value {
            ClaimValue::Text(text) => Value::from(text.as_str()),
            ClaimValue::Number(number) => Value::from(*number),
            ClaimValue::Other => Value::Null,
        },
    )).collect();
    let header = Header::new(algorithm.parse().unwrap());
    jsonwebtoken::encode(&header, &claims, &EncodingKey::from_secret(secret))
}

/// `jsonwebtoken::decode` with a `DecodingKey` from the secret and a `Validation` for the algorithm
/// with the given flags, audiences and issuers, and else as `Validation::new` makes it, with a
/// leeway of a minute. Claims are read as `serde_json::value::RawValue`, which passes over what it
/// does not have to understand, and those that are strings or integers as such. What comes of it is
/// an outcome of `decode_can_give` for the claims that the token holds and for a reading of the
/// system clock. Which reading, the clock decides; it is taken to be set past the first minute of
/// 1970, since `decode` cannot do with an earlier one.
#[verifier::external_body]
pub(crate) fn jwt_decode(token: &str, secret: &[u8], rules: &TokenRules) -> (read: Result<
    DecodedToken,
    jsonwebtoken::errors::Error,
>)
    requires
        signs_with_secret(rules.algorithm@),
    ensures
        decode_at_a_reading(
            rules@,
            jwt_claims(rules.algorithm@, token@, secret@),
            read_view(read),
        ),
{
    let mut validation = Validation::new(rules.algorithm.parse().unwrap());
    validation.validate_exp = rules.validate_exp;
    validation.validate_aud = rules.validate_aud;
    validation.set_audience(&rules.audience);
    validation.set_issuer(&rules.issuer);
    let key = DecodingKey::from_secret(secret);
    let data = decode::<BTreeMap<String, Box<RawValue>>>(token, &key, &validation)?;
    let claims = data.claims.into_iter().map(|(name, raw)| Claim {
        name,
        value: from_str(raw.get()).map(ClaimValue::Text)
            .or(from_str(raw.get()).map(ClaimValue::Number)).unwrap_or(ClaimValue::Other),
    }).collect();
    Ok(DecodedToken { algorithm: format!("{:?}", data.header.alg), claims })
}

} // verus!
