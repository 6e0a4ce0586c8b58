//! The discovery document.

use crate::text::{cat, cat3, texts};
use vstd::prelude::*;

verus! {

/// A sign-in factor as the discovery document lists it.
pub struct Factor {
    pub name: String,
    pub request: String,
    pub verify: String,
    pub identifier: Option<String>,
}

pub struct FactorView {
    pub name: Seq<char>,
    pub request: Seq<char>,
    pub verify: Seq<char>,
    pub identifier: Option<Seq<char>>,
}

impl View for Factor {
    type V = FactorView;

    open spec fn view(&self) -> FactorView {
        FactorView {
            name: self.name@,
            request: self.request@,
            verify: self.verify@,
            identifier: crate::text::opt_text(self.identifier),
        }
    }
}

/// A social sign-in provider as the discovery document lists it.
pub struct SocialProvider {
    pub id: String,
    pub request: String,
}

/// What a tenant has switched on.
pub struct TenantFeatures {
    pub email: bool,
    pub otp: bool,
    /// The identifiers of the social sign-in providers.
    pub providers: Vec<String>,
    /// Whether clients may register themselves.
    pub registration: bool,
}

/// The parts of the discovery document that depend on the issuer and on what
/// the tenant has switched on.
pub struct Discovery {
    pub issuer: String,
    pub jwks_uri: String,
    pub authorization_endpoint: String,
    pub token_endpoint: String,
    pub userinfo_endpoint: String,
    pub revocation_endpoint: String,
    pub introspection_endpoint: String,
    pub device_authorization_endpoint: String,
    pub end_session_endpoint: String,
    pub registration_endpoint: Option<String>,
    pub acr_values_supported: Vec<String>,
    /// The email, OTP and passkey factors, as far as they are switched on.
    pub factors: Vec<Factor>,
    pub social: Vec<SocialProvider>,
}

/// The factors that users can sign in with, in the order in which they are
/// listed; passkeys are always there.
pub open spec fn acr_values(f: Option<TenantFeatures>) -> Seq<Seq<char>> {
    let base = match f {
        Some(f) => {
            let e = if f.email {
                seq!["email"@]
            } else {
                seq![]
            };
            let o = if f.otp {
                e.push("otp"@)
            } else {
                e
            };
            if f.providers@.len() > 0 {
                o.push("social"@)
            } else {
                o
            }
        },
        None => seq![],
    };
    base.push("passkey"@)
}

pub open spec fn email_factor() -> FactorView {
    FactorView {
        name: "email"@,
        request: "/api/v1/auth/email/request"@,
        verify: "/api/v1/auth/email/verify"@,
        identifier: Some("email"@),
    }
}

pub open spec fn otp_factor() -> FactorView {
    FactorView {
        name: "otp"@,
        request: "/api/v1/auth/otp/request"@,
        verify: "/api/v1/auth/otp/verify"@,
        identifier: Some("mobile"@),
    }
}

pub open spec fn passkey_factor() -> FactorView {
    FactorView {
        name: "passkey"@,
        request: "/api/v1/auth/passkey/request"@,
        verify: "/api/v1/auth/passkey/verify"@,
        identifier: None,
    }
}

/// The views of a list of factors.
pub open spec fn factor_views(v: Seq<Factor>) -> Seq<FactorView> {
    v.map_values(|f: Factor| f@)
}

/// The factors listed with their endpoints.
pub open spec fn listed_factors(f: Option<TenantFeatures>) -> Seq<FactorView> {
    let base = match f {
        Some(f) => {
            let e = if f.email {
                seq![email_factor()]
            } else {
                seq![]
            };
            if f.otp {
                e.push(otp_factor())
            } else {
                e
            }
        },
        None => seq![],
    };
    base.push(passkey_factor())
}

impl Discovery {
    /// The document of a provider at `issuer` with the features `f`; none of
    /// them where the tenant is unknown.
    pub open spec fn describes(&self, issuer: Seq<char>, f: Option<TenantFeatures>) -> bool {
        &&& self.issuer@ == issuer
        &&& self.jwks_uri@ == issuer + "/.well-known/jwks.json"@
        &&& self.authorization_endpoint@ == issuer + "/authorize"@
        &&& self.token_endpoint@ == issuer + "/token"@
        &&& self.userinfo_endpoint@ == issuer + "/userinfo"@
        &&& self.revocation_endpoint@ == issuer + "/revoke"@
        &&& self.introspection_endpoint@ == issuer + "/introspect"@
        &&& self.device_authorization_endpoint@ == issuer + "/device_authorization"@
        &&& self.end_session_endpoint@ == issuer + "/end_session"@
        &&& crate::text::opt_text(self.registration_endpoint) == (if f is Some
            && f->0.registration {
            Some(issuer + "/register"@)
        } else {
            None
        })
        &&& texts(self.acr_values_supported@) == acr_values(f)
        &&& factor_views(self.factors@) == listed_factors(f)
        &&& self.social@.len() == (if f is Some {
            f->0.providers@.len()
        } else {
            0
        })
        &&& forall|i: int|
            0 <= i < self.social@.len() ==> (#[trigger] self.social@[i]).id@
                == f->0.providers@[i]@ && self.social@[i].request@ == "/api/v1/auth/social/"@
                + f->0.providers@[i]@ + "/request"@
    }
}

fn factor(name: &str, request: &str, verify: &str, identifier: Option<&str>) -> (r: Factor)
    ensures
        r@ == (FactorView {
            name: name@,
            request: request@,
            verify: verify@,
            identifier: crate::text::opt_str(identifier),
        }),
{
    let identifier = match identifier {
        Some(i) => Some(i.to_owned()),
        None => None,
    };
    Factor { name: name.to_owned(), request: request.to_owned(), verify: verify.to_owned(), identifier }
}

fn push_text(v: &mut Vec<String>, s: &str)
    ensures
        texts(final(v)@) == texts(old(v)@).push(s@),
{
    let ghost before = v@;
    v.push(s.to_owned());
    proof {
        assert(texts(v@) =~= texts(before).push(s@));
    }
}

fn push_factor(v: &mut Vec<Factor>, f: Factor)
    ensures
        factor_views(final(v)@) == factor_views(old(v)@).push(f@),
{
    let ghost before = v@;
    v.push(f);
    proof {
        assert(factor_views(v@) =~= factor_views(before).push(f@));
    }
}

/// The discovery document.
pub fn well_known(issuer: &str, features: &Option<TenantFeatures>) -> (r: Discovery)
    ensures
        r.describes(issuer@, *features),
{
    let mut acr: Vec<String> = Vec::new();
    let mut factors: Vec<Factor> = Vec::new();
    let mut social: Vec<SocialProvider> = Vec::new();
    let mut registration_endpoint: Option<String> = None;
    proof {
        assert(texts(acr@) =~= seq![]);
        assert(factor_views(factors@) =~= seq![]);
    }
    if let Some(f) = features {
        if f.registration {
            registration_endpoint = Some(cat(issuer, "/register"));
        }
        if f.email {
            push_text(&mut acr, "email");
            push_factor(
                &mut factors,
                factor(
                    "email",
                    "/api/v1/auth/email/request",
                    "/api/v1/auth/email/verify",
                    Some("email"),
                ),
            );
            proof {
                assert(texts(acr@) =~= seq!["email"@]);
                assert(factor_views(factors@) =~= seq![email_factor()]);
            }
        }
        if f.otp {
            push_text(&mut acr, "otp");
            push_factor(
                &mut factors,
                factor(
                    "otp",
                    "/api/v1/auth/otp/request",
                    "/api/v1/auth/otp/verify",
                    Some("mobile"),
                ),
            );
        }
        let mut i: usize = 0;
        while i < f.providers.len()
            invariant
                i <= f.providers@.len(),
                social@.len() == i,
                forall|j: int|
                    0 <= j < i ==> (#[trigger] social@[j]).id@ == f.providers@[j]@
                        && social@[j].request@ == "/api/v1/auth/social/"@ + f.providers@[j]@
                        + "/request"@,
            decreases f.providers@.len() - i,
        {
            let id = f.providers[i].as_str();
            social.push(
                SocialProvider {
                    id: id.to_owned(),
                    request: cat3("/api/v1/auth/social/", id, "/request"),
                },
            );
            i = i + 1;
        }
        if f.providers.len() > 0 {
            push_text(&mut acr, "social");
        }
    }
    push_text(&mut acr, "passkey");
    push_factor(
        &mut factors,
        factor("passkey", "/api/v1/auth/passkey/request", "/api/v1/auth/passkey/verify", None),
    );
    Discovery {
        issuer: issuer.to_owned(),
        jwks_uri: cat(issuer, "/.well-known/jwks.json"),
        authorization_endpoint: cat(issuer, "/authorize"),
        token_endpoint: cat(issuer, "/token"),
        userinfo_endpoint: cat(issuer, "/userinfo"),
        revocation_endpoint: cat(issuer, "/revoke"),
        introspection_endpoint: cat(issuer, "/introspect"),
        device_authorization_endpoint: cat(issuer, "/device_authorization"),
        end_session_endpoint: cat(issuer, "/end_session"),
        registration_endpoint,
        acr_values_supported: acr,
        factors,
        social,
    }
}

/// Passkeys are always on offer.
pub proof fn law_passkeys_are_always_listed(f: Option<TenantFeatures>)
    ensures
        acr_values(f).last() == "passkey"@,
        listed_factors(f).last() == passkey_factor(),
{
}

} // verus!
