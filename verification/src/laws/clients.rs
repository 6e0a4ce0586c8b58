//! What clients see: authentication, introspection, revocation, user claims,
//! discovery and the redirects between pages.

use crate::laws::tokens::reads;
use crate::laws::words::{has_word, law_scope_names_stand_between_spaces};
use crate::oidc::client::{
    auth_plan, basic_pair, bearer_of, credential_decoded, law_encoded_credential_reads_back,
    presented_secret, secret_verdict, Client, SecretPlanView,
};
use crate::oidc::discovery::{acr_values, listed_factors, Discovery, TenantFeatures};
use crate::oidc::introspect::{
    introspection, query_verdict, revocation, token_query_gate, IntrospectFacts, TokenClaims,
};
use crate::oidc::mint::AccessEntry;
use crate::oidc::urls::{
    callback_url, consent_url, error_url, law_param_is_inert, law_param_reads_back, login_url,
    param,
};
use crate::oidc::userinfo::{
    is_earliest, userinfo_gate, username_of, EmailRecord, TokenReject, UserInfoClaims,
    UserInfoResponse,
};
use crate::outside::{base64_decoded, percent_decoded};
use crate::reply::RefusalView;
use crate::text::{opt_text, split_first, starts_with};
use vstd::prelude::*;
use vstd::utf8::{encode_utf8, encode_utf8_decode_utf8, encode_utf8_valid_utf8};

verus! {

/// A Basic header is read as it was written: the identifier before the first
/// colon and the secret behind it. A header of any other scheme holds none.
pub proof fn law_basic_headers_read_back(
    encoded: Seq<char>,
    id: Seq<char>,
    secret: Seq<char>,
    other: Seq<char>,
)
    requires
        base64_decoded(encoded) == Some(encode_utf8(id + seq![':'] + secret)),
        !id.contains(':'),
        !starts_with(other, "Basic "@),
    ensures
        basic_pair(Some("Basic "@ + encoded)) == Some((id, secret)),
        basic_pair(Some(other)) is None,
        basic_pair(None) is None,
{
    reveal_strlit("Basic ");
    let h = "Basic "@ + encoded;
    let text = id + seq![':'] + secret;
    assert(h.take(6) =~= "Basic "@);
    assert(h.skip(6) =~= encoded);
    encode_utf8_valid_utf8(text);
    encode_utf8_decode_utf8(text);
    lemma_cut_at_first(id, ':', secret);
}

/// A text is cut at the first occurrence of a character.
pub(crate) proof fn lemma_cut_at_first(front: Seq<char>, c: char, back: Seq<char>)
    requires
        !front.contains(c),
    ensures
        split_first(front + seq![c] + back, c) == Some((front, back)),
{
    let s = front + seq![c] + back;
    assert(s[front.len() as int] == c);
    assert(s.contains(c));
    s.index_of_first_ensures(c);
    let i = s.index_of_first(c)->0;
    if i < front.len() {
        assert(front[i] == c);
    }
    assert(i == front.len());
    assert(s.take(i) =~= front);
    assert(s.skip(i + 1) =~= back);
}

/// A client without a secret is let in without one; a client that posts its
/// secret has the very secret of the form tried; each is told what is missing.
pub proof fn law_clients_authenticate_by_their_method(
    client_id: Seq<char>,
    client: Client,
    secret: Option<Seq<char>>,
    pair: Option<(Seq<char>, Seq<char>)>,
)
    requires
        client_id.len() > 0,
    ensures
        client.token_endpoint_auth_method@ == "none"@ ==> auth_plan(
            client_id,
            Ok(client),
            secret,
            pair,
        ) == Ok::<SecretPlanView, Seq<char>>(SecretPlanView::Open),
        client.token_endpoint_auth_method@ == "client_secret_post"@ && secret is Some ==> auth_plan(
            client_id,
            Ok(client),
            secret,
            pair,
        ) == Ok::<SecretPlanView, Seq<char>>(
            SecretPlanView::Try { first: secret->0, second: None },
        ),
        client.token_endpoint_auth_method@ == "client_secret_post"@ && secret is None ==> auth_plan(
            client_id,
            Ok(client),
            secret,
            pair,
        ) == Err::<SecretPlanView, Seq<char>>("Missing required parameter: client_secret"@),
        auth_plan(client_id, Ok(client), secret, pair) == Ok::<SecretPlanView, Seq<char>>(
            SecretPlanView::Open,
        ) ==> client.token_endpoint_auth_method@ == "none"@,
        client.token_endpoint_auth_method@ != "none"@ && client.token_endpoint_auth_method@
            != "client_secret_post"@ && client.token_endpoint_auth_method@
            != "client_secret_basic"@ ==> auth_plan(client_id, Ok(client), secret, pair) is Err,
{
    reveal_strlit("none");
    reveal_strlit("client_secret_post");
    reveal_strlit("client_secret_basic");
    assert("none"@.len() == 4 && "client_secret_post"@.len() == 18 && "client_secret_basic"@.len()
        == 19);
}

/// Nobody is authenticated who is not named or not known, and the failure of
/// the lookup is what is told.
pub proof fn law_unknown_clients_are_not_authenticated(
    client_id: Seq<char>,
    lookup: Result<Client, String>,
    secret: Option<Seq<char>>,
    pair: Option<(Seq<char>, Seq<char>)>,
)
    ensures
        client_id.len() == 0 ==> auth_plan(client_id, lookup, secret, pair) == Err::<
            SecretPlanView,
            Seq<char>,
        >("Missing required parameter: client_id"@),
        client_id.len() > 0 ==> (lookup matches Err(e) ==> auth_plan(
            client_id,
            lookup,
            secret,
            pair,
        ) == Err::<SecretPlanView, Seq<char>>(e@)),
{
}

/// A client of the Basic method that encodes its credentials has its own
/// secret tried first, whatever characters it holds and whatever the form
/// says. Credentials of another client are refused, and without a header the
/// secret of the form is tried.
pub proof fn law_basic_clients_authenticate_by_their_header(
    client_id: Seq<char>,
    other: Seq<char>,
    raw: Seq<char>,
    client: Client,
    secret: Seq<char>,
    body: Option<Seq<char>>,
)
    requires
        client_id.len() > 0,
        client.token_endpoint_auth_method@ == "client_secret_basic"@,
        secret.len() > 0,
    ensures
        auth_plan(client_id, Ok(client), body, Some((param(client_id), param(secret)))) matches Ok(
            SecretPlanView::Try { first, second },
        ) && first == secret && (second is Some <==> param(secret) != secret) && (second matches
            Some(again) ==> again == param(secret)),
        other.len() > 0 && other != client_id && param(other) != client_id ==> auth_plan(
            client_id,
            Ok(client),
            body,
            Some((param(other), param(secret))),
        ) == Err::<SecretPlanView, Seq<char>>(
            "client_id mismatch between body and Basic auth header"@,
        ),
        body is Some && body->0.len() > 0 ==> auth_plan(client_id, Ok(client), body, None) == Ok::<
            SecretPlanView,
            Seq<char>,
        >(SecretPlanView::Try { first: body->0, second: None }),
        body is None || body->0.len() == 0 ==> auth_plan(client_id, Ok(client), body, None) == Err::<
            SecretPlanView,
            Seq<char>,
        >("Missing required parameter: client_secret"@),
        credential_decoded(raw) == raw ==> (auth_plan(
            client_id,
            Ok(client),
            body,
            Some((client_id, raw)),
        ) matches Ok(SecretPlanView::Try { first, second }) ==> second is None && (raw.len() > 0
            ==> first == raw)),
{
    law_encoded_credential_reads_back(client_id);
    law_encoded_credential_reads_back(secret);
    law_encoded_credential_reads_back(other);
    reveal_strlit("client_secret_post");
    reveal_strlit("client_secret_basic");
    assert("client_secret_post"@.len() == 18 && "client_secret_basic"@.len() == 19);
}

/// A client is authenticated exactly when one of the secrets tried is right;
/// the second counts only where the first is wrong.
pub proof fn law_one_right_secret_authenticates(
    first: Result<bool, String>,
    second: Option<Result<bool, String>>,
)
    ensures
        secret_verdict(first, second) is Ok <==> first == Ok::<bool, String>(true) || (first == Ok::<
            bool,
            String,
        >(false) && second == Some(Ok::<bool, String>(true))),
        first matches Err(e) ==> secret_verdict(first, second) == Err::<(), Seq<char>>(e@),
        first == Ok::<bool, String>(false) && (second is None || second == Some(
            Ok::<bool, String>(false),
        )) ==> secret_verdict(first, second) == Err::<(), Seq<char>>("Invalid client_credentials"@),
{
}

/// A bearer token is the text behind the scheme; other schemes carry none.
pub proof fn law_bearer_headers_carry_the_token(token: Seq<char>, other: Seq<char>)
    requires
        !starts_with(other, "Bearer "@),
        !starts_with(other, "bearer "@),
    ensures
        bearer_of(Some("Bearer "@ + token)) == Some(token),
        bearer_of(Some("bearer "@ + token)) == Some(token),
        bearer_of(Some(other)) is None,
        bearer_of(None) is None,
{
    reveal_strlit("Bearer ");
    reveal_strlit("bearer ");
    assert(("Bearer "@ + token).take(7) =~= "Bearer "@);
    assert(("bearer "@ + token).take(7) =~= "bearer "@);
    assert(("Bearer "@ + token).skip(7) =~= token);
    assert(("bearer "@ + token).skip(7) =~= token);
}

/// The secret that is presented is the header's, decoded, where it holds one,
/// else the form's; an empty one is none.
pub proof fn law_the_headers_secret_is_presented(
    id: Seq<char>,
    secret: Seq<char>,
    form: Option<Seq<char>>,
)
    ensures
        secret.len() > 0 ==> presented_secret(Some((id, param(secret))), form) == Some(secret),
        form matches Some(f) ==> f.len() > 0 ==> presented_secret(None, form) == form,
        form is None || form->0.len() == 0 ==> presented_secret(None, form) is None,
        presented_secret(Some((id, Seq::empty())), form) == presented_secret(None, form),
{
    law_encoded_credential_reads_back(secret);
    if secret.len() > 0 && param(secret).len() == 0 {
        assert(param(secret) =~= Seq::<char>::empty());
        law_encoded_credential_reads_back(Seq::<char>::empty());
        lemma_encoded_is_not_empty(secret);
    }
}

proof fn lemma_encoded_is_not_empty(s: Seq<char>)
    requires
        s.len() > 0,
    ensures
        param(s).len() > 0,
{
    if param(s).len() == 0 {
        let none = Seq::<char>::empty();
        assert(param(s) =~= none);
        assert(encode_utf8(none) =~= Seq::<u8>::empty());
        assert(param(none) =~= none);
        law_encoded_credential_reads_back(s);
        law_encoded_credential_reads_back(none);
    }
}

/// Tokens are described and revoked for every confidential client that a known
/// tenant authenticated, and for nobody else.
pub proof fn law_confidential_clients_ask_about_tokens(
    has_tenant: bool,
    client: Result<Client, String>,
)
    ensures
        token_query_gate(has_tenant, client) is None <==> has_tenant && client is Ok
            && client->Ok_0.token_endpoint_auth_method@ != "none"@,
        token_query_gate(has_tenant, client) matches Some(r) ==> r.status == 401 && r.error
            == "invalid_client"@,
        has_tenant && client is Ok && client->Ok_0.token_endpoint_auth_method@ == "none"@ ==> (
        token_query_gate(has_tenant, client) matches Some(r) && reads(
            r,
            401,
            "invalid_client"@,
            "public clients are not allowed on this endpoint"@,
        )),
{
}

/// A remembered access token is active exactly for its own client, before it
/// expires and unless it was revoked, and is described as it was issued.
pub proof fn law_live_access_tokens_are_active(
    issuer: Seq<char>,
    client_id: Seq<char>,
    f: IntrospectFacts,
    e: AccessEntry,
    now: i64,
)
    requires
        f.cached == Some(e),
    ensures
        introspection(issuer, client_id, f, now).active <==> now < e.exp && e.client_id@
            == client_id && !f.token_revoked,
        introspection(issuer, client_id, f, now).active ==> {
            let d = introspection(issuer, client_id, f, now);
            &&& d.client_id == Some(client_id)
            &&& d.scope == Some(e.scope@)
            &&& d.sub == Some(e.user_id@)
            &&& d.username == Some(e.user_id@)
            &&& d.aud == Some(seq![client_id])
            &&& d.iss == Some(issuer)
            &&& d.exp is Some <==> e.exp >= 0
            &&& d.exp matches Some(t) ==> t == e.exp
            &&& d.iat is Some <==> e.iat >= 0
            &&& d.iat matches Some(t) ==> t == e.iat
            &&& d.token_type == Some("Bearer"@)
        },
{
}

/// A token that is not remembered is active exactly when it verifies as the
/// client's own and, for a refresh token, its family is neither revoked nor
/// thirty days old; it is described by its own claims.
pub proof fn law_live_claims_are_active(
    issuer: Seq<char>,
    client_id: Seq<char>,
    f: IntrospectFacts,
    now: i64,
)
    requires
        f.cached is None,
    ensures
        introspection(issuer, client_id, f, now).active <==> {
            &&& f.claims matches Some(c)
            &&& given(opt_text(c.client_id)) == client_id
            &&& (c.typ is Some && c.typ->0@ == "refresh"@) ==> {
                &&& c.family is Some
                &&& c.family_created_at matches Some(t)
                &&& now < t + 30 * 24 * 3600
                &&& !f.family_revoked
            }
        },
        introspection(issuer, client_id, f, now).active ==> {
            let d = introspection(issuer, client_id, f, now);
            let c = f.claims->0;
            &&& d.client_id == Some(client_id)
            &&& d.scope == opt_text(c.scope)
            &&& d.sub == Some(c.sub@)
            &&& d.username == Some(c.sub@)
            &&& d.aud == Some(seq![c.aud@])
            &&& d.iss == Some(c.iss@)
            &&& d.exp == Some(c.exp)
            &&& d.iat == Some(c.iat)
            &&& d.token_type == Some("Bearer"@)
        },
{
}

/// The client's own token of this issuer is revoked: recorded to its expiry,
/// forgotten where it is an access token, and with its family to the end of
/// that where it is a refresh token. Nothing is done to any other token.
pub proof fn law_own_tokens_are_revoked(
    issuer: Seq<char>,
    client_id: Seq<char>,
    c: TokenClaims,
)
    ensures
        ({
            let plan = revocation(issuer, client_id, Some(c));
            let own = c.iss@ == issuer && given(opt_text(c.client_id)) == client_id;
            let refresh = c.typ is Some && c.typ->0@ == "refresh"@;
            &&& !own ==> plan.poison is None && !plan.forget && plan.record_until is None
            &&& own ==> (plan.forget <==> !refresh)
            &&& own ==> (plan.record_until is Some <==> c.exp <= 253402207200)
            &&& plan.record_until matches Some(t) ==> t == c.exp
            &&& own && (c.family is None || c.family_created_at is None) ==> plan.poison is None
            &&& own && refresh && c.family is Some && c.family_created_at is Some ==> (
            plan.poison matches Some(p) && p.0 == "oidc_refresh_family:"@ + c.family->0@ && p.1
                == c.family_created_at->0 + 30 * 24 * 3600)
            &&& own && !refresh ==> plan.poison is None
        }),
        revocation(issuer, client_id, None).record_until is None,
        !revocation(issuer, client_id, None).forget,
{
}

/// The claims about a user are given exactly to a bearer of an accepted token
/// whose scope says `openid`, on a known tenant, and to that scope; every
/// refusal names its cause.
pub proof fn law_user_claims_need_openid(
    has_bearer: bool,
    has_tenant: bool,
    token: Result<UserInfoClaims, TokenReject>,
)
    ensures
        userinfo_gate(has_bearer, has_tenant, token) is Ok <==> {
            &&& has_bearer
            &&& has_tenant
            &&& token matches Ok(c)
            &&& c.scope matches Some(s)
            &&& has_word(s@, "openid"@)
        },
        userinfo_gate(has_bearer, has_tenant, token) matches Ok(s) ==> s
            == token->Ok_0.scope->0@,
        userinfo_gate(has_bearer, has_tenant, token) matches Err(e) ==> {
            &&& e.status == 403 <==> has_bearer && has_tenant && token is Ok
                && token->Ok_0.scope is Some
            &&& e.status != 403 ==> e.status == 401
            &&& !has_bearer ==> e.authenticate == "Bearer realm=\"auth\""@
            &&& has_bearer && !has_tenant ==> e.detail == "Unknown tenant"@
            &&& has_bearer && has_tenant && token == Err::<UserInfoClaims, TokenReject>(
                TokenReject::Revoked,
            ) ==> e.detail == "The access token has been revoked"@
            &&& has_bearer && has_tenant && token == Err::<UserInfoClaims, TokenReject>(
                TokenReject::Invalid,
            ) ==> e.detail == "The access token is invalid or expired"@
            &&& has_bearer && e.status == 401 ==> e.authenticate == "Bearer error=\""@
                + "invalid_token"@ + "\",error_description=\""@ + e.detail + "\",realm=\"auth\""@
            &&& e.status == 403 ==> e.authenticate == "Bearer error=\""@ + "insufficient_scope"@
                + "\",error_description=\""@ + e.detail + "\",realm=\"auth\""@
        },
{
    if token is Ok && token->Ok_0.scope is Some {
        law_scope_names_stand_between_spaces(token->Ok_0.scope->0@, "openid"@);
    }
}

/// There is one earliest address, no address is older, and one that is listed
/// before it is younger.
pub proof fn law_the_earliest_address_is_one(emails: Seq<EmailRecord>, i: int, j: int)
    requires
        is_earliest(emails, i),
    ensures
        0 <= i < emails.len(),
        0 <= j < emails.len() ==> emails[i].created_at <= emails[j].created_at,
        0 <= j < i ==> emails[i].created_at < emails[j].created_at,
        is_earliest(emails, j) ==> i == j,
{
    if is_earliest(emails, j) {
        assert(emails[i].created_at <= emails[j].created_at);
        assert(emails[j].created_at <= emails[i].created_at);
    }
}

/// A subject is called by the user's name, or by itself where there is none.
pub proof fn law_subjects_are_called_by_name(sub: Seq<char>, name: Seq<char>)
    ensures
        username_of(sub, Some(name)) == name,
        username_of(sub, None) == sub,
{
}

/// The document names the endpoints below the issuer, and a registration
/// endpoint exactly where clients may register.
pub proof fn law_documents_name_the_endpoints(
    d: Discovery,
    issuer: Seq<char>,
    f: Option<TenantFeatures>,
)
    requires
        d.describes(issuer, f),
    ensures
        d.issuer@ == issuer,
        d.jwks_uri@ == issuer + "/.well-known/jwks.json"@,
        d.authorization_endpoint@ == issuer + "/authorize"@,
        d.token_endpoint@ == issuer + "/token"@,
        d.userinfo_endpoint@ == issuer + "/userinfo"@,
        d.revocation_endpoint@ == issuer + "/revoke"@,
        d.introspection_endpoint@ == issuer + "/introspect"@,
        d.device_authorization_endpoint@ == issuer + "/device_authorization"@,
        d.end_session_endpoint@ == issuer + "/end_session"@,
        d.registration_endpoint is Some <==> f is Some && f->0.registration,
        d.registration_endpoint matches Some(e) ==> e@ == issuer + "/register"@,
        f is Some ==> d.social@.len() == f->0.providers@.len(),
        f is None ==> d.social@.len() == 0,
        forall|i: int|
            0 <= i < d.social@.len() ==> (#[trigger] d.social@[i]).id@ == f->0.providers@[i]@
                && d.social@[i].request@ == "/api/v1/auth/social/"@ + f->0.providers@[i]@
                + "/request"@,
{
}

/// A factor is on offer exactly where the tenant has it switched on; passkeys
/// always are. Each factor with endpoints of its own is listed with them.
pub proof fn law_factors_on_offer_are_listed(f: Option<TenantFeatures>)
    ensures
        acr_values(f).contains("email"@) <==> f is Some && f->0.email,
        acr_values(f).contains("otp"@) <==> f is Some && f->0.otp,
        acr_values(f).contains("social"@) <==> f is Some && f->0.providers@.len() > 0,
        acr_values(f).contains("passkey"@),
        forall|name: Seq<char>| #[trigger]
            acr_values(f).contains(name) ==> name == "email"@ || name == "otp"@ || name
                == "social"@ || name == "passkey"@,
        listed_factors(f).len() == 1 + (if f is Some && f->0.email {
            1int
        } else {
            0
        }) + (if f is Some && f->0.otp {
            1int
        } else {
            0
        }),
        forall|i: int|
            0 <= i < listed_factors(f).len() ==> {
                let e = #[trigger] listed_factors(f)[i];
                &&& e.name == "email"@ || e.name == "otp"@ || e.name == "passkey"@
                &&& e.request == "/api/v1/auth/"@ + e.name + "/request"@
                &&& e.verify == "/api/v1/auth/"@ + e.name + "/verify"@
                &&& e.name == "email"@ ==> e.identifier == Some("email"@)
                &&& e.name == "otp"@ ==> e.identifier == Some("mobile"@)
                &&& e.name == "passkey"@ ==> e.identifier is None
                &&& i == listed_factors(f).len() - 1 <==> e.name == "passkey"@
                &&& e.name == "email"@ ==> f->0.email
                &&& e.name == "otp"@ ==> f->0.otp
            },
{
    reveal_strlit("email");
    reveal_strlit("otp");
    reveal_strlit("social");
    reveal_strlit("passkey");
    assert("email"@.len() == 5 && "otp"@.len() == 3 && "social"@.len() == 6 && "passkey"@.len()
        == 7);
    lemma_factor_paths();
    let base = acr_values(f).drop_last();
    let v = acr_values(f);
    assert(v[v.len() - 1] == "passkey"@);
    if let Some(t) = f {
        if t.email {
            assert(v[0] == "email"@);
            if t.otp {
                assert(v[1] == "otp"@);
            }
        } else if t.otp {
            assert(v[0] == "otp"@);
        }
        if t.providers@.len() > 0 {
            assert(v[v.len() - 2] == "social"@);
        }
    }
}

proof fn lemma_factor_paths()
    ensures
        "/api/v1/auth/email/request"@ == "/api/v1/auth/"@ + "email"@ + "/request"@,
        "/api/v1/auth/email/verify"@ == "/api/v1/auth/"@ + "email"@ + "/verify"@,
        "/api/v1/auth/otp/request"@ == "/api/v1/auth/"@ + "otp"@ + "/request"@,
        "/api/v1/auth/otp/verify"@ == "/api/v1/auth/"@ + "otp"@ + "/verify"@,
        "/api/v1/auth/passkey/request"@ == "/api/v1/auth/"@ + "passkey"@ + "/request"@,
        "/api/v1/auth/passkey/verify"@ == "/api/v1/auth/"@ + "passkey"@ + "/verify"@,
{
    reveal_strlit("/api/v1/auth/");
    reveal_strlit("/request");
    reveal_strlit("/verify");
    reveal_strlit("email");
    reveal_strlit("otp");
    reveal_strlit("passkey");
    reveal_strlit("/api/v1/auth/email/request");
    reveal_strlit("/api/v1/auth/email/verify");
    reveal_strlit("/api/v1/auth/otp/request");
    reveal_strlit("/api/v1/auth/otp/verify");
    reveal_strlit("/api/v1/auth/passkey/request");
    reveal_strlit("/api/v1/auth/passkey/verify");
    assert("/api/v1/auth/email/request"@ =~= "/api/v1/auth/"@ + "email"@ + "/request"@);
    assert("/api/v1/auth/email/verify"@ =~= "/api/v1/auth/"@ + "email"@ + "/verify"@);
    assert("/api/v1/auth/otp/request"@ =~= "/api/v1/auth/"@ + "otp"@ + "/request"@);
    assert("/api/v1/auth/otp/verify"@ =~= "/api/v1/auth/"@ + "otp"@ + "/verify"@);
    assert("/api/v1/auth/passkey/request"@ =~= "/api/v1/auth/"@ + "passkey"@ + "/request"@);
    assert("/api/v1/auth/passkey/verify"@ =~= "/api/v1/auth/"@ + "passkey"@ + "/verify"@);
}

/// The value of a parameter, encoded: it reads back as `value` and holds
/// nothing that could end it.
pub open spec fn encodes(encoded: Seq<char>, value: Seq<char>) -> bool {
    &&& percent_decoded(encode_utf8(encoded)) == encode_utf8(value)
    &&& !encoded.contains('&') && !encoded.contains('?') && !encoded.contains('=')
        && !encoded.contains('#')
}

/// What was given, or nothing.
pub open spec fn given(o: Option<Seq<char>>) -> Seq<char> {
    match o {
        Some(s) => s,
        None => Seq::empty(),
    }
}

pub(crate) proof fn lemma_encodes(value: Seq<char>)
    ensures
        encodes(param(value), value),
{
    law_param_reads_back(value);
    assert forall|i: int| 0 <= i < param(value).len() implies param(value)[i] != '&' && param(
        value,
    )[i] != '?' && param(value)[i] != '=' && #[trigger] param(value)[i] != '#' by {
        law_param_is_inert(value, i);
    }
}

/// The callback is the client's URI followed by the code and, where there are
/// any, the client's state and the scope, each under its name, each readable
/// by the client as it was.
pub proof fn law_callbacks_hand_over_the_code(
    callback_uri: Seq<char>,
    code: Seq<char>,
    state: Option<Seq<char>>,
    scope: Option<Seq<char>>,
)
    ensures
        exists|a: Seq<char>, b: Seq<char>, c: Seq<char>|
            {
                &&& #[trigger] encodes(a, code)
                &&& #[trigger] encodes(b, given(state))
                &&& #[trigger] encodes(c, given(scope))
                &&& callback_url(callback_uri, code, state, scope) == callback_uri + "?code="@ + a + (
                if state is Some {
                    "&state="@ + b
                } else {
                    Seq::empty()
                }) + (if scope is Some {
                    "&scope="@ + c
                } else {
                    Seq::empty()
                })
            },
{
    let s = given(state);
    let t = given(scope);
    lemma_encodes(code);
    lemma_encodes(s);
    lemma_encodes(t);
    assert(encodes(param(code), code) && encodes(param(s), s) && encodes(param(t), t));
}

/// An error redirect is the page followed by the error, its description where
/// there is one and the client's state where there was one, each readable.
pub proof fn law_error_redirects_tell_the_error(
    uri: Seq<char>,
    error: Seq<char>,
    description: Seq<char>,
    state: Option<Seq<char>>,
)
    ensures
        exists|a: Seq<char>, b: Seq<char>, c: Seq<char>|
            {
                &&& #[trigger] encodes(a, error)
                &&& #[trigger] encodes(b, description)
                &&& #[trigger] encodes(c, given(state))
                &&& error_url(uri, error, description, state) == uri + "?error="@ + a + (
                if description.len() > 0 {
                    "&error_description="@ + b
                } else {
                    Seq::empty()
                }) + (if state is Some {
                    "&state="@ + c
                } else {
                    Seq::empty()
                })
            },
{
    let s = given(state);
    lemma_encodes(error);
    lemma_encodes(description);
    lemma_encodes(s);
    assert(encodes(param(error), error) && encodes(param(description), description) && encodes(
        param(s),
        s,
    ));
}

/// The sign-in page is told the client, the state under which the request is
/// parked and where it will go; the consent page is told the state.
pub proof fn law_pages_are_told_the_state(
    client_id: Seq<char>,
    csrf: Seq<char>,
    callback_uri: Seq<char>,
    expired: bool,
)
    ensures
        exists|a: Seq<char>, b: Seq<char>, c: Seq<char>|
            {
                &&& #[trigger] encodes(a, client_id)
                &&& #[trigger] encodes(b, csrf)
                &&& #[trigger] encodes(c, callback_uri)
                &&& login_url(client_id, csrf, callback_uri, expired) == "/login?client_id="@ + a
                    + "&state="@ + b + "&redirect_uri="@ + c + (if expired {
                    "&error=session_expired"@
                } else {
                    Seq::empty()
                })
                &&& consent_url(csrf) == "/consent?state="@ + b
            },
{
    lemma_encodes(client_id);
    lemma_encodes(csrf);
    lemma_encodes(callback_uri);
    assert(encodes(param(client_id), client_id) && encodes(param(csrf), csrf) && encodes(
        param(callback_uri),
        callback_uri,
    ));
}

/// The user's claims are those that the scope names: the name under which the
/// subject is known for `profile`, the address that was added first for
/// `email`, which is then verified, and the subject always.
pub proof fn law_scopes_give_their_claims(
    r: UserInfoResponse,
    sub: Seq<char>,
    scope: Seq<char>,
    user_name: Option<Seq<char>>,
    emails: Seq<EmailRecord>,
    i: int,
)
    requires
        r.tells(sub, scope, user_name, emails),
        emails.len() > 0 ==> is_earliest(emails, i),
    ensures
        r.sub@ == sub,
        r.preferred_username is Some <==> has_word(scope, "profile"@),
        r.preferred_username matches Some(n) ==> n@ == (match user_name {
            Some(name) => name,
            None => sub,
        }),
        r.email is Some <==> has_word(scope, "email"@) && emails.len() > 0,
        r.email matches Some(e) ==> e@ == emails[i].id@,
        r.email_verified == (if r.email is Some {
            Some(true)
        } else {
            None
        }),
        r.name is None && r.given_name is None && r.family_name is None && r.picture is None,
{
    law_scope_names_stand_between_spaces(scope, "profile"@);
    law_scope_names_stand_between_spaces(scope, "email"@);
    if r.email is Some {
        let k = choose|k: int| #[trigger] is_earliest(emails, k) && r.email->0@ == emails[k].id@;
        law_the_earliest_address_is_one(emails, i, k);
    }
}

/// A token is looked at exactly for those who may ask, and a request without a
/// token looks at none, whoever asks.
pub proof fn law_tokens_are_looked_at_for_those_who_may_ask(
    token: Seq<char>,
    has_tenant: bool,
    client: Result<Client, String>,
)
    ensures
        token.len() == 0 ==> query_verdict(token, has_tenant, client) == Ok::<bool, RefusalView>(
            false,
        ),
        token.len() > 0 ==> {
            let may = has_tenant && client is Ok && client->Ok_0.token_endpoint_auth_method@
                != "none"@;
            &&& may ==> query_verdict(token, has_tenant, client) == Ok::<bool, RefusalView>(true)
            &&& !may ==> (query_verdict(token, has_tenant, client) matches Err(r) && r.status == 401
                && r.error == "invalid_client"@)
        },
{
    law_confidential_clients_ask_about_tokens(has_tenant, client);
}

/// The earliest address is the one that no other is older than and that is
/// listed before every other of its age.
pub proof fn law_the_earliest_address_is_the_oldest(emails: Seq<EmailRecord>, i: int)
    requires
        0 <= i < emails.len(),
        forall|j: int|
            0 <= j < emails.len() ==> emails[i].created_at <= (#[trigger] emails[j]).created_at,
        forall|j: int| 0 <= j < i ==> emails[i].created_at != (#[trigger] emails[j]).created_at,
    ensures
        is_earliest(emails, i),
{
}

/// What is wrong with a bearer token is told.
pub proof fn law_refused_bearers_are_told(
    has_tenant: bool,
    token: Result<UserInfoClaims, TokenReject>,
)
    ensures
        userinfo_gate(false, has_tenant, token) matches Err(e) && e.detail == ""@ && e.status == 401,
        userinfo_gate(true, true, token) matches Err(e) ==> e.detail == (if token == Err::<
            UserInfoClaims,
            TokenReject,
        >(TokenReject::Revoked) {
            "The access token has been revoked"@
        } else if token == Err::<UserInfoClaims, TokenReject>(TokenReject::Invalid) {
            "The access token is invalid or expired"@
        } else if token is Ok && token->Ok_0.scope is Some {
            "The access token does not contain the openid scope"@
        } else {
            "The access token is invalid"@
        }),
{
}

} // verus!
