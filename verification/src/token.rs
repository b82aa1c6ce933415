//! The access token: what it claims, and how the claims are written and read.

use vstd::prelude::*;

use crate::jwt;
use crate::jwt::{find_claim, Claim, ClaimValue, ClaimView, ClaimsView};
use crate::user_id;
use crate::user_id::UserId;

verus! {

/// The claims of an access token.
#[derive(Debug)]
pub struct AuthenticationToken {
    /// For whom the token was made.
    pub aud: String,
    /// Who made the token.
    pub iss: String,
    /// When the token expires, in seconds since the Unix epoch.
    pub exp: i64,
    /// The user whom the token speaks for.
    pub sub: UserId,
}

/// The claims of an access token.
pub struct AuthenticationTokenView {
    pub aud: Seq<char>,
    pub iss: Seq<char>,
    pub exp: i64,
    pub sub: UserId,
}

impl View for AuthenticationToken {
    type V = AuthenticationTokenView;

    open spec fn view(&self) -> AuthenticationTokenView {
        AuthenticationTokenView { aud: self.aud@, iss: self.iss@, exp: self.exp, sub: self.sub }
    }
}

impl AuthenticationTokenView {
    /// The token of this service for a user: made by and for `pictou`.
    pub open spec fn of_user(subject: UserId, exp: i64) -> AuthenticationTokenView {
        AuthenticationTokenView { aud: "pictou"@, iss: "pictou"@, exp, sub: subject }
    }

    /// The claims by name: `aud`, `iss`, `exp` and `sub`, in this order; the user id is written as
    /// the canonical text of a UUID.
    pub open spec fn claims(self) -> ClaimsView {
        seq![
            ("aud"@, ClaimView::Text(self.aud)),
            ("iss"@, ClaimView::Text(self.iss)),
            ("exp"@, ClaimView::Number(self.exp)),
            ("sub"@, ClaimView::Text(user_id::uuid_text(self.sub.value))),
        ]
    }

    /// What claims say, if they hold all that an access token needs: the strings `aud` and `iss`,
    /// the integer `exp` and the string `sub`, which has to be a UUID. Other claims are passed
    /// over.
    pub open spec fn of_claims(claims: ClaimsView) -> Option<AuthenticationTokenView> {
        match (
            jwt::claim_named(claims, "aud"@),
            jwt::claim_named(claims, "iss"@),
            jwt::claim_named(claims, "exp"@),
            jwt::claim_named(claims, "sub"@),
        ) {
            (
                Some(ClaimView::Text(aud)),
                Some(ClaimView::Text(iss)),
                Some(ClaimView::Number(exp)),
                Some(ClaimView::Text(sub)),
            ) => match UserId::spec_parse(sub) {
                Some(sub) => Some(AuthenticationTokenView { aud, iss, exp, sub }),
                None => None,
            },
            _ => None,
        }
    }
}

/// The text of a claim, if the claim is there and a string.
fn claim_text(claims: &Vec<Claim>, name: &str) -> (text: Option<String>)
    ensures
        jwt::text_view(text) == (match jwt::claim_named(jwt::claims_view(claims@), name@) {
            Some(ClaimView::Text(text)) => Some(text),
            _ => None,
        }),
{
    match find_claim(claims, name) {
        Some(claim) => match &claim.value {
            ClaimValue::Text(text) => Some(text.clone()),
            _ => None,
        },
        None => None,
    }
}

/// The number of a claim, if the claim is there and an integer.
fn claim_number(claims: &Vec<Claim>, name: &str) -> (number: Option<i64>)
    ensures
        number == (match jwt::claim_named(jwt::claims_view(claims@), name@) {
            Some(ClaimView::Number(number)) => Some(number),
            _ => None,
        }),
{
    match find_claim(claims, name) {
        Some(claim) => match &claim.value {
            ClaimValue::Number(number) => Some(*number),
            _ => None,
        },
        None => None,
    }
}

impl AuthenticationToken {
    /// The claims by name, in the order in which a token holds them.
    pub fn to_claims(&self) -> (claims: Vec<Claim>)
        ensures
            jwt::claims_view(claims@) == self@.claims(),
    {
        let claims = vec![
            Claim { name: "aud".to_owned(), value: ClaimValue::Text(self.aud.clone()) },
            Claim { name: "iss".to_owned(), value: ClaimValue::Text(self.iss.clone()) },
            Claim { name: "exp".to_owned(), value: ClaimValue::Number(self.exp) },
            Claim { name: "sub".to_owned(), value: ClaimValue::Text(self.sub.to_text()) },
        ];
        assert(jwt::claims_view(claims@) =~= self@.claims());
        claims
    }

    /// Reads the claims of an access token; nothing where one is missing or not as it should be.
    pub fn from_claims(claims: &Vec<Claim>) -> (token: Option<AuthenticationToken>)
        ensures
            match token {
                Some(t) => AuthenticationTokenView::of_claims(jwt::claims_view(claims@))
                    == Some(t@),
                None => AuthenticationTokenView::of_claims(jwt::claims_view(claims@)) is None,
            },
    {
        let aud = match claim_text(claims, "aud") {
            Some(aud) => aud,
            None => return None,
        };
        let iss = match claim_text(claims, "iss") {
            Some(iss) => iss,
            None => return None,
        };
        let exp: i64 = match claim_number(claims, "exp") {
            Some(exp) => exp,
            None => return None,
        };
        let sub = match claim_text(claims, "sub") {
            Some(sub) => sub,
            None => return None,
        };
        match UserId::parse_str(sub.as_str()) {
            Some(sub) => Some(AuthenticationToken { aud, iss, exp, sub }),
            None => None,
        }
    }
}

proof fn lemma_claim_names_differ()
    ensures
        "aud"@ != "iss"@,
        "aud"@ != "exp"@,
        "aud"@ != "sub"@,
        "iss"@ != "exp"@,
        "iss"@ != "sub"@,
        "exp"@ != "sub"@,
{
    reveal_strlit("aud");
    reveal_strlit("iss");
    reveal_strlit("exp");
    reveal_strlit("sub");
    assert("aud"@[0] == 'a');
    assert("iss"@[0] == 'i');
    assert("exp"@[0] == 'e');
    assert("sub"@[0] == 's');
}

/// The claims of an access token have the values that the token says, under different names.
pub proof fn lemma_claims_of_token(token: AuthenticationTokenView)
    ensures
        jwt::plain_claims(token.claims()),
        jwt::claim_named(token.claims(), "aud"@) == Some(ClaimView::Text(token.aud)),
        jwt::claim_named(token.claims(), "iss"@) == Some(ClaimView::Text(token.iss)),
        jwt::claim_named(token.claims(), "exp"@) == Some(ClaimView::Number(token.exp)),
        jwt::claim_named(token.claims(), "sub"@) == Some(
            ClaimView::Text(user_id::uuid_text(token.sub.value)),
        ),
{
    lemma_claim_names_differ();
    reveal_with_fuel(jwt::claim_named, 5);
}

/// The claims of an access token are these four, in this order.
pub proof fn law_claims_in_order(token: AuthenticationTokenView)
    ensures
        token.claims().len() == 4,
        token.claims()[0] == ("aud"@, ClaimView::Text(token.aud)),
        token.claims()[1] == ("iss"@, ClaimView::Text(token.iss)),
        token.claims()[2] == ("exp"@, ClaimView::Number(token.exp)),
        token.claims()[3] == ("sub"@, ClaimView::Text(user_id::uuid_text(token.sub.value))),
{
}

/// The claims of an access token read back as that token, and so do any that say the same.
pub proof fn law_claims_read_back(token: AuthenticationTokenView, claims: ClaimsView)
    requires
        jwt::same_claims(claims, token.claims()),
    ensures
        AuthenticationTokenView::of_claims(claims) == Some(token),
{
    lemma_claims_of_token(token);
    user_id::law_text_reads_back(token.sub);
}

} // verus!
