//! The userinfo endpoint.

use crate::oidc::scope::{has_scope, scope_has};
use crate::text::{cat5, opt_text};
use vstd::prelude::*;

verus! {

/// Why a token is not accepted.
#[derive(Clone, Copy, Debug, PartialEq, Eq, Structural)]
pub enum TokenReject {
    Revoked,
    Invalid,
    Other,
}

/// What the userinfo endpoint reads of an accepted token.
pub struct UserInfoClaims {
    pub sub: String,
    pub scope: Option<String>,
}

/// A refusal of the userinfo endpoint: the HTTP status, the detail, and the
/// `WWW-Authenticate` challenge.
pub struct Challenge {
    pub status: u16,
    pub detail: String,
    pub authenticate: String,
}

pub struct ChallengeView {
    pub status: u16,
    pub detail: Seq<char>,
    pub authenticate: Seq<char>,
}

impl View for Challenge {
    type V = ChallengeView;

    open spec fn view(&self) -> ChallengeView {
        ChallengeView {
            status: self.status,
            detail: self.detail@,
            authenticate: self.authenticate@,
        }
    }
}

/// The challenge that names an error.
pub open spec fn challenge_of(status: u16, error: Seq<char>, description: Seq<char>) -> ChallengeView {
    ChallengeView {
        status,
        detail: description,
        authenticate: "Bearer error=\""@ + error + "\",error_description=\""@ + description
            + "\",realm=\"auth\""@,
    }
}

pub fn userinfo_error(status: u16, error: &str, description: &str) -> (r: Challenge)
    ensures
        r@ == challenge_of(status, error@, description@),
{
    Challenge {
        status,
        detail: description.to_owned(),
        authenticate: cat5(
            "Bearer error=\"",
            error,
            "\",error_description=\"",
            description,
            "\",realm=\"auth\"",
        ),
    }
}

/// The challenge to a request without a bearer token.
pub open spec fn bare_challenge() -> ChallengeView {
    ChallengeView { status: 401, detail: ""@, authenticate: "Bearer realm=\"auth\""@ }
}

/// The scope of a userinfo request, or why it is refused: the token must be
/// accepted, be an access token with a scope, and hold `openid`.
pub open spec fn userinfo_gate(
    has_bearer: bool,
    has_tenant: bool,
    token: Result<UserInfoClaims, TokenReject>,
) -> Result<Seq<char>, ChallengeView> {
    if !has_bearer {
        Err(bare_challenge())
    } else if !has_tenant {
        Err(challenge_of(401, "invalid_token"@, "Unknown tenant"@))
    } else {
        match token {
            Err(TokenReject::Revoked) => Err(
                challenge_of(401, "invalid_token"@, "The access token has been revoked"@),
            ),
            Err(TokenReject::Invalid) => Err(
                challenge_of(401, "invalid_token"@, "The access token is invalid or expired"@),
            ),
            Err(TokenReject::Other) => Err(
                challenge_of(401, "invalid_token"@, "The access token is invalid"@),
            ),
            Ok(c) => match c.scope {
                None => Err(challenge_of(401, "invalid_token"@, "The access token is invalid"@)),
                Some(s) => if scope_has(s@, "openid"@) {
                    Ok(s@)
                } else {
                    Err(
                        challenge_of(
                            403,
                            "insufficient_scope"@,
                            "The access token does not contain the openid scope"@,
                        ),
                    )
                },
            },
        }
    }
}

/// Checks a userinfo request.
pub fn userinfo(has_bearer: bool, has_tenant: bool, token: &Result<UserInfoClaims, TokenReject>) -> (r:
    Result<String, Challenge>)
    ensures
        (match r {
            Ok(s) => Ok(s@),
            Err(c) => Err(c@),
        }) == userinfo_gate(has_bearer, has_tenant, *token),
{
    if !has_bearer {
        return Err(
            Challenge {
                status: 401,
                detail: "".to_owned(),
                authenticate: "Bearer realm=\"auth\"".to_owned(),
            },
        );
    }
    if !has_tenant {
        return Err(userinfo_error(401, "invalid_token", "Unknown tenant"));
    }
    match token {
        Err(reject) => {
            let d = match reject {
                TokenReject::Revoked => "The access token has been revoked",
                TokenReject::Invalid => "The access token is invalid or expired",
                TokenReject::Other => "The access token is invalid",
            };
            Err(userinfo_error(401, "invalid_token", d))
        },
        Ok(c) => match &c.scope {
            None => Err(userinfo_error(401, "invalid_token", "The access token is invalid")),
            Some(s) => if has_scope(s.as_str(), "openid") {
                Ok(s.clone())
            } else {
                Err(
                    userinfo_error(
                        403,
                        "insufficient_scope",
                        "The access token does not contain the openid scope",
                    ),
                )
            },
        },
    }
}

/// An email address of a user, and when it was added.
pub struct EmailRecord {
    pub id: String,
    pub created_at: i128,
}

/// The address that was added first; of two added at once, the one listed
/// first.
pub open spec fn is_earliest(emails: Seq<EmailRecord>, i: int) -> bool {
    &&& 0 <= i < emails.len()
    &&& forall|j: int|
        0 <= j < emails.len() ==> emails[i].created_at <= (#[trigger] emails[j]).created_at
    &&& forall|j: int| 0 <= j < i ==> emails[i].created_at < (#[trigger] emails[j]).created_at
}

/// The position of the address that was added first.
pub fn earliest_email(emails: &Vec<EmailRecord>) -> (r: Option<usize>)
    ensures
        r is None <==> emails@.len() == 0,
        r matches Some(i) ==> is_earliest(emails@, i as int),
{
    if emails.len() == 0 {
        return None;
    }
    let mut best: usize = 0;
    let mut i: usize = 1;
    while i < emails.len()
        invariant
            1 <= i <= emails@.len(),
            best < i,
            forall|j: int|
                0 <= j < i ==> emails@[best as int].created_at <= (
                #[trigger] emails@[j]).created_at,
            forall|j: int|
                0 <= j < best ==> emails@[best as int].created_at < (
                #[trigger] emails@[j]).created_at,
        decreases emails@.len() - i,
    {
        if emails[i].created_at < emails[best].created_at {
            best = i;
        }
        i = i + 1;
    }
    Some(best)
}

/// The claims about a user.
pub struct UserInfoResponse {
    pub sub: String,
    pub name: Option<String>,
    pub given_name: Option<String>,
    pub family_name: Option<String>,
    pub preferred_username: Option<String>,
    pub email: Option<String>,
    pub email_verified: Option<bool>,
    pub picture: Option<String>,
}

/// The name by which a subject is known: the user's, or the subject itself
/// where there is no such user.
pub open spec fn username_of(sub: Seq<char>, user_name: Option<Seq<char>>) -> Seq<char> {
    match user_name {
        Some(n) => n,
        None => sub,
    }
}

impl UserInfoResponse {
    /// The claims about a subject that a scope gives.
    pub open spec fn tells(
        &self,
        sub: Seq<char>,
        scope: Seq<char>,
        user_name: Option<Seq<char>>,
        emails: Seq<EmailRecord>,
    ) -> bool {
        &&& self.sub@ == sub
        &&& self.name is None
        &&& self.given_name is None
        &&& self.family_name is None
        &&& self.picture is None
        &&& opt_text(self.preferred_username) == (if scope_has(scope, "profile"@) {
            Some(username_of(sub, user_name))
        } else {
            None
        })
        &&& self.email is Some <==> scope_has(scope, "email"@) && emails.len() > 0
        &&& self.email_verified == (if self.email is Some {
            Some(true)
        } else {
            None
        })
        &&& self.email matches Some(e) ==> exists|i: int| #[trigger]
            is_earliest(emails, i) && e@ == emails[i].id@
    }
}

/// The claims that a scope gives: the user name for `profile`, the address
/// that was added first for `email`.
pub fn userinfo_response(
    sub: &str,
    scope: &str,
    user_name: &Option<String>,
    emails: &Vec<EmailRecord>,
) -> (r: UserInfoResponse)
    ensures
        r.tells(sub@, scope@, opt_text(*user_name), emails@),
{
    let preferred_username = if has_scope(scope, "profile") {
        match user_name {
            Some(n) => Some(n.clone()),
            None => Some(sub.to_owned()),
        }
    } else {
        None
    };
    let (email, email_verified) = if has_scope(scope, "email") {
        match earliest_email(emails) {
            Some(i) => (Some(emails[i].id.clone()), Some(true)),
            None => (None, None),
        }
    } else {
        (None, None)
    };
    UserInfoResponse {
        sub: sub.to_owned(),
        name: None,
        given_name: None,
        family_name: None,
        preferred_username,
        email,
        email_verified,
        picture: None,
    }
}

} // verus!
