//! Registered clients and how they authenticate.

use crate::outside::{
    base64_decode, base64_decoded, percent_decode, percent_decoded, string_from_utf8,
};
use crate::oidc::urls::{law_param_reads_back, param};
use crate::reply::{refuse, refused, Refusal};
use crate::text::{cat, opt_str, opt_text, same, split_first, split_once, starts_with, strip_prefix};
use vstd::prelude::*;
use vstd::utf8::{
    decode_utf8, encode_utf8, encode_utf8_decode_utf8, encode_utf8_valid_utf8, valid_utf8,
};

verus! {

/// A registered OAuth 2.0 client.
pub struct Client {
    pub id: String,
    /// The identifier of the client's service identity.
    pub uuid: String,
    pub domain_id: String,
    pub token_endpoint_auth_method: String,
    pub grant_types: Vec<String>,
    pub response_types: Vec<String>,
    /// The scope that a request without one asks for.
    pub scope: String,
    /// The scopes that the client may ask for.
    pub registered_scopes: Vec<String>,
}

/// A credential of a Basic header after percent-decoding; it stays as it is
/// where the decoded bytes are not UTF-8.
pub open spec fn credential_decoded(s: Seq<char>) -> Seq<char> {
    let bytes = percent_decoded(encode_utf8(s));
    if valid_utf8(bytes) {
        decode_utf8(bytes)
    } else {
        s
    }
}

pub fn basic_credential_decode(s: &str) -> (r: String)
    ensures
        r@ == credential_decoded(s@),
{
    match percent_decode(s) {
        Some(t) => {
            proof {
                encode_utf8_decode_utf8(t@);
            }
            t
        },
        None => s.to_owned(),
    }
}

/// A credential that was percent-encoded is read back as it was.
pub proof fn law_encoded_credential_reads_back(s: Seq<char>)
    ensures
        credential_decoded(param(s)) == s,
{
    law_param_reads_back(s);
    encode_utf8_valid_utf8(s);
    encode_utf8_decode_utf8(s);
}

/// The text that the bytes of a Basic header hold.
pub open spec fn basic_text(bytes: Option<Seq<u8>>) -> Option<Seq<char>> {
    match bytes {
        Some(b) => if valid_utf8(b) {
            Some(decode_utf8(b))
        } else {
            None
        },
        None => None,
    }
}

/// The raw identifier and secret of an `Authorization` header of the Basic
/// scheme: the base64 text behind `Basic `, cut at its first colon.
pub open spec fn basic_pair(authorization: Option<Seq<char>>) -> Option<(Seq<char>, Seq<char>)> {
    match authorization {
        Some(h) => if starts_with(h, "Basic "@) {
            match basic_text(base64_decoded(h.skip(6))) {
                Some(t) => split_first(t, ':'),
                None => None,
            }
        } else {
            None
        },
        None => None,
    }
}

/// The raw identifier and secret of a Basic `Authorization` header.
pub fn read_basic(authorization: Option<&str>) -> (r: Option<(String, String)>)
    ensures
        r is Some <==> basic_pair(opt_str(authorization)) is Some,
        r matches Some(p) ==> basic_pair(opt_str(authorization)) == Some((p.0@, p.1@)),
{
    proof {
        reveal_strlit("Basic ");
    }
    let header = match authorization {
        Some(h) => h,
        None => {
            return None;
        },
    };
    let encoded = match strip_prefix(header, "Basic ") {
        Some(e) => e,
        None => {
            return None;
        },
    };
    let bytes = match base64_decode(encoded.as_str()) {
        Some(b) => b,
        None => {
            return None;
        },
    };
    match string_from_utf8(bytes) {
        Some(t) => {
            proof {
                encode_utf8_decode_utf8(t@);
            }
            split_once(t.as_str(), ':')
        },
        None => None,
    }
}

/// How a client proves who it is: not at all, or by one of up to two secrets,
/// tried in order.
pub enum SecretPlan {
    Open,
    Try { first: String, second: Option<String> },
}

pub enum SecretPlanView {
    Open,
    Try { first: Seq<char>, second: Option<Seq<char>> },
}

impl View for SecretPlan {
    type V = SecretPlanView;

    open spec fn view(&self) -> SecretPlanView {
        match self {
            SecretPlan::Open => SecretPlanView::Open,
            SecretPlan::Try { first, second } => SecretPlanView::Try {
                first: first@,
                second: opt_text(*second),
            },
        }
    }
}

/// The view of an authentication plan or of the reason why there is none.
pub open spec fn plan_view(r: Result<SecretPlan, String>) -> Result<SecretPlanView, Seq<char>> {
    match r {
        Ok(p) => Ok(p@),
        Err(e) => Err(e@),
    }
}

/// The secrets to try for a client of the method `client_secret_basic`. The
/// header's identifier must name the client, decoded or raw; its secret wins
/// over the one of the body, and is tried decoded first and raw after.
pub open spec fn basic_plan(
    client_id: Seq<char>,
    body_secret: Option<Seq<char>>,
    pair: Option<(Seq<char>, Seq<char>)>,
) -> Result<SecretPlanView, Seq<char>> {
    let (id_raw, secret_raw) = match pair {
        Some(p) => p,
        None => (Seq::empty(), Seq::empty()),
    };
    let id = match pair {
        Some(p) => credential_decoded(p.0),
        None => Seq::empty(),
    };
    let secret = match pair {
        Some(p) => credential_decoded(p.1),
        None => Seq::empty(),
    };
    let body = match body_secret {
        Some(s) => s,
        None => Seq::empty(),
    };
    if id.len() > 0 && id != client_id && id_raw != client_id {
        Err("client_id mismatch between body and Basic auth header"@)
    } else if secret.len() > 0 {
        Ok(
            SecretPlanView::Try {
                first: secret,
                second: if secret_raw != secret {
                    Some(secret_raw)
                } else {
                    None
                },
            },
        )
    } else if body.len() > 0 {
        Ok(SecretPlanView::Try { first: body, second: None })
    } else {
        Err("Missing required parameter: client_secret"@)
    }
}

/// The secrets to try for a client of the method `client_secret_basic`, given
/// the pair that the header held.
pub fn verify_client_secret_basic(
    client_id: &str,
    body_secret: Option<&str>,
    pair: Option<(String, String)>,
) -> (r: Result<SecretPlan, String>)
    ensures
        plan_view(r) == basic_plan(
            client_id@,
            opt_str(body_secret),
            match pair {
                Some(p) => Some((p.0@, p.1@)),
                None => None,
            },
        ),
{
    if let Some((id_raw, secret_raw)) = pair {
        let id = basic_credential_decode(id_raw.as_str());
        if !id.as_str().is_empty() && !same(id.as_str(), client_id) && !same(
            id_raw.as_str(),
            client_id,
        ) {
            return Err("client_id mismatch between body and Basic auth header".to_owned());
        }
        let secret = basic_credential_decode(secret_raw.as_str());
        if !secret.as_str().is_empty() {
            let second = if same(secret_raw.as_str(), secret.as_str()) {
                None
            } else {
                Some(secret_raw)
            };
            return Ok(SecretPlan::Try { first: secret, second });
        }
    }
    match body_secret {
        Some(s) => if !s.is_empty() {
            Ok(SecretPlan::Try { first: s.to_owned(), second: None })
        } else {
            Err("Missing required parameter: client_secret".to_owned())
        },
        None => Err("Missing required parameter: client_secret".to_owned()),
    }
}

/// How a request authenticates its client, or why it cannot.
pub open spec fn auth_plan(
    client_id: Seq<char>,
    lookup: Result<Client, String>,
    secret: Option<Seq<char>>,
    pair: Option<(Seq<char>, Seq<char>)>,
) -> Result<SecretPlanView, Seq<char>> {
    if client_id.len() == 0 {
        Err("Missing required parameter: client_id"@)
    } else {
        match lookup {
            Err(e) => Err(e@),
            Ok(client) => {
                let method = client.token_endpoint_auth_method@;
                if method == "client_secret_post"@ {
                    match secret {
                        Some(s) => Ok(SecretPlanView::Try { first: s, second: None }),
                        None => Err("Missing required parameter: client_secret"@),
                    }
                } else if method == "client_secret_basic"@ {
                    basic_plan(client_id, secret, pair)
                } else if method == "none"@ {
                    Ok(SecretPlanView::Open)
                } else {
                    Err("Unsupported token_endpoint_auth_method: "@ + method)
                }
            },
        }
    }
}

/// How a request authenticates its client: by the secret of the body, by the
/// Basic `Authorization` header, or not at all.
pub fn authenticate_client(
    client_id: &str,
    lookup: &Result<Client, String>,
    secret: Option<&str>,
    authorization: Option<&str>,
) -> (r: Result<SecretPlan, String>)
    ensures
        plan_view(r) == auth_plan(
            client_id@,
            *lookup,
            opt_str(secret),
            basic_pair(opt_str(authorization)),
        ),
{
    if client_id.is_empty() {
        return Err("Missing required parameter: client_id".to_owned());
    }
    let client = match lookup {
        Ok(c) => c,
        Err(e) => {
            return Err(e.clone());
        },
    };
    let method = client.token_endpoint_auth_method.as_str();
    if same(method, "client_secret_post") {
        match secret {
            Some(s) => Ok(SecretPlan::Try { first: s.to_owned(), second: None }),
            None => Err("Missing required parameter: client_secret".to_owned()),
        }
    } else if same(method, "client_secret_basic") {
        let pair = read_basic(authorization);
        verify_client_secret_basic(client_id, secret, pair)
    } else if same(method, "none") {
        Ok(SecretPlan::Open)
    } else {
        Err(cat("Unsupported token_endpoint_auth_method: ", method))
    }
}

/// The outcome of trying the secrets of a plan: `first` and `second` are what
/// the password check said of each, `second` where it was tried.
pub open spec fn secret_verdict(
    first: Result<bool, String>,
    second: Option<Result<bool, String>>,
) -> Result<(), Seq<char>> {
    match first {
        Err(e) => Err(e@),
        Ok(true) => Ok(()),
        Ok(false) => match second {
            Some(Ok(true)) => Ok(()),
            Some(Err(e)) => Err(e@),
            _ => Err("Invalid client_credentials"@),
        },
    }
}

/// Whether the secrets tried authenticate the client.
pub fn verify_client_secret(
    first: Result<bool, String>,
    second: Option<Result<bool, String>>,
) -> (r: Result<(), String>)
    ensures
        r is Ok <==> secret_verdict(first, second) is Ok,
        r matches Err(e) ==> secret_verdict(first, second) == Err::<(), Seq<char>>(e@),
{
    match first {
        Err(e) => Err(e),
        Ok(ok) => {
            if ok {
                return Ok(());
            }
            match second {
                Some(Ok(again)) => if again {
                    Ok(())
                } else {
                    Err("Invalid client_credentials".to_owned())
                },
                Some(Err(e)) => Err(e),
                None => Err("Invalid client_credentials".to_owned()),
            }
        },
    }
}

/// The endpoints that answer about tokens are closed to public clients.
pub open spec fn public_client_refusal(auth_method: Seq<char>) -> Option<crate::reply::RefusalView> {
    if auth_method == "none"@ {
        Some(
            refused(
                401,
                "invalid_client"@,
                "public clients are not allowed on this endpoint"@,
            ),
        )
    } else {
        None
    }
}

/// Refuses a public client.
pub fn refuse_public_client(auth_method: &str) -> (r: Option<Refusal>)
    ensures
        r is Some <==> public_client_refusal(auth_method@) is Some,
        r matches Some(e) ==> public_client_refusal(auth_method@) == Some(e@),
{
    if same(auth_method, "none") {
        Some(
            refuse(401, "invalid_client", "public clients are not allowed on this endpoint"),
        )
    } else {
        None
    }
}

/// The token of a bearer `Authorization` header.
pub open spec fn bearer_of(authorization: Option<Seq<char>>) -> Option<Seq<char>> {
    match authorization {
        Some(h) => if starts_with(h, "Bearer "@) || starts_with(h, "bearer "@) {
            Some(h.skip(7))
        } else {
            None
        },
        None => None,
    }
}

pub fn get_bearer_token(authorization: Option<&str>) -> (r: Option<String>)
    ensures
        opt_text(r) == bearer_of(opt_str(authorization)),
{
    proof {
        reveal_strlit("Bearer ");
        reveal_strlit("bearer ");
    }
    match authorization {
        Some(h) => match strip_prefix(h, "Bearer ") {
            Some(t) => Some(t),
            None => strip_prefix(h, "bearer "),
        },
        None => None,
    }
}

/// The secret that a registration-management request presents: the one of a
/// Basic header, else the one of the form, where it is not empty.
pub open spec fn presented_secret(
    pair: Option<(Seq<char>, Seq<char>)>,
    form: Option<Seq<char>>,
) -> Option<Seq<char>> {
    let secret = match pair {
        Some((_, secret)) => secret,
        None => Seq::empty(),
    };
    if secret.len() > 0 {
        Some(credential_decoded(secret))
    } else if form is Some && form->0.len() > 0 {
        form
    } else {
        None
    }
}

pub fn presented_client_secret(authorization: Option<&str>, form: Option<&str>) -> (r: Option<
    String,
>)
    ensures
        opt_text(r) == presented_secret(basic_pair(opt_str(authorization)), opt_str(form)),
{
    if let Some((_id, secret)) = read_basic(authorization) {
        if !secret.as_str().is_empty() {
            return Some(basic_credential_decode(secret.as_str()));
        }
    }
    match form {
        Some(s) => if s.is_empty() {
            None
        } else {
            Some(s.to_owned())
        },
        None => None,
    }
}

} // verus!
