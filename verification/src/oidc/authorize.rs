//! The authorization endpoint: what a request must satisfy, and where it goes
//! next.

use crate::oidc::client::Client;
use crate::oidc::codes::{challenge_is_ok, challenge_ok};
use crate::oidc::scope::{
    covers, known_scope, law_validated_scope_is_known_and_registered, scope_fault, scope_has,
    scopes_cover, validate_requested_scope,
};
use crate::oidc::urls::{
    callback_url, callback_url_with_code, consent_redirect, consent_url, error_url, login_redirect,
    login_url, oauth2_error_url,
};
use crate::outside::{lowercase, to_lower};

use crate::text::{
    as_opt_str, blank, cat, cat3, cat5, copy_opt, copy_texts, eq_ignore_ascii_case, has_text,
    is_blank, opt_str, opt_text, same, same_ignoring_case, starts_with, texts,
};
use vstd::prelude::*;

verus! {

/// The latest second that a timestamp can hold.
pub const LAST_SECOND: i64 = 253402207200;

/// The seconds of a clock that started at the epoch.
pub open spec fn is_clock(now: i64) -> bool {
    0 <= now <= LAST_SECOND
}

/// The parameters of an authorization request.
pub struct AuthorizeRequest {
    pub response_type: String,
    pub client_id: String,
    pub redirect_uri: Option<String>,
    pub scope: Option<String>,
    pub state: Option<String>,
    pub nonce: Option<String>,
    pub code_challenge: Option<String>,
    pub code_challenge_method: Option<String>,
}

/// What the store and the transport say of an authorization request.
pub struct AuthorizeFacts {
    /// The name of the tenant that serves the request's domain.
    pub tenant: Option<String>,
    /// The client that the request names.
    pub client: Option<Client>,
    /// The client's registered redirect URIs, or why they cannot be loaded.
    pub registered_uris: Result<Vec<String>, String>,
    /// Whether the request came over TLS.
    pub tls: bool,
}

/// A PKCE challenge and its method.
pub struct Pkce {
    pub method: String,
    pub challenge: String,
}

/// The view of an optional challenge: method and challenge.
pub open spec fn pkce_view(p: Option<Pkce>) -> Option<(Seq<char>, Seq<char>)> {
    match p {
        Some(p) => Some((p.method@, p.challenge@)),
        None => None,
    }
}

/// An authorization request that passed every check.
pub struct AuthorizeGrant {
    pub callback_uri: String,
    pub scope: String,
    pub pkce: Option<Pkce>,
}

pub struct AuthorizeGrantView {
    pub callback_uri: Seq<char>,
    pub scope: Seq<char>,
    pub pkce: Option<(Seq<char>, Seq<char>)>,
}

impl View for AuthorizeGrant {
    type V = AuthorizeGrantView;

    open spec fn view(&self) -> AuthorizeGrantView {
        AuthorizeGrantView {
            callback_uri: self.callback_uri@,
            scope: self.scope@,
            pkce: pkce_view(self.pkce),
        }
    }
}

/// An error code and its description.
pub struct Fault {
    pub error: String,
    pub description: String,
}

pub open spec fn grant_or_fault(r: Result<AuthorizeGrant, Fault>) -> Result<
    AuthorizeGrantView,
    (Seq<char>, Seq<char>),
> {
    match r {
        Ok(g) => Ok(g@),
        Err(f) => Err((f.error@, f.description@)),
    }
}

fn fault<T>(error: &str, description: &str) -> (r: Result<T, Fault>)
    ensures
        r matches Err(f) && f.error@ == error@ && f.description@ == description@,
{
    Err(Fault { error: error.to_owned(), description: description.to_owned() })
}

/// Whether a request came over TLS: a trusted proxy's header decides where
/// there is one, else the request's own scheme.
pub open spec fn tls_of(trusted: bool, forwarded: Option<Seq<char>>, scheme_is_https: bool) -> bool {
    match forwarded {
        Some(v) => if trusted {
            same_ignoring_case(v, "https"@)
        } else {
            scheme_is_https
        },
        None => scheme_is_https,
    }
}

pub fn is_tls(trusted: bool, forwarded: Option<&str>, scheme_is_https: bool) -> (r: bool)
    ensures
        r == tls_of(trusted, opt_str(forwarded), scheme_is_https),
{
    match forwarded {
        Some(v) => if trusted {
            eq_ignore_ascii_case(v, "https")
        } else {
            scheme_is_https
        },
        None => scheme_is_https,
    }
}

pub open spec fn malformed_challenge() -> Seq<char> {
    "Malformed code_challenge: must be 43-128 chars of [A-Z a-z 0-9 -._~]"@
}

/// The challenge that a request binds its code to, or what is wrong with it.
/// `method` is the requested method in lower case. A public client must bring
/// a challenge; the plain method needs TLS.
pub open spec fn pkce_choice(
    challenge: Option<Seq<char>>,
    method: Seq<char>,
    public: bool,
    tls: bool,
) -> Result<Option<(Seq<char>, Seq<char>)>, Seq<char>> {
    match challenge {
        Some(c) => if method == "s256"@ {
            if challenge_ok(c) {
                Ok(Some(("s256"@, c)))
            } else {
                Err(malformed_challenge())
            }
        } else if method == "plain"@ {
            if !tls {
                Err("code_challenge_method 'plain' requires TLS"@)
            } else if challenge_ok(c) {
                Ok(Some(("plain"@, c)))
            } else {
                Err(malformed_challenge())
            }
        } else {
            Err("Unsupported code_challenge_method: '"@ + method + "'"@)
        },
        None => if public {
            Err("PKCE is required for public clients"@)
        } else {
            Ok(None)
        },
    }
}

pub fn choose_pkce(challenge: Option<&str>, method: &str, public: bool, tls: bool) -> (r: Result<
    Option<Pkce>,
    String,
>)
    ensures
        (match r {
            Ok(p) => Ok(pkce_view(p)),
            Err(e) => Err(e@),
        }) == pkce_choice(opt_str(challenge), method@, public, tls),
{
    match challenge {
        Some(c) => if same(method, "s256") {
            if challenge_is_ok(c) {
                Ok(Some(Pkce { method: "s256".to_owned(), challenge: c.to_owned() }))
            } else {
                Err(
                    "Malformed code_challenge: must be 43-128 chars of [A-Z a-z 0-9 -._~]".to_owned(),
                )
            }
        } else if same(method, "plain") {
            if !tls {
                Err("code_challenge_method 'plain' requires TLS".to_owned())
            } else if challenge_is_ok(c) {
                Ok(Some(Pkce { method: "plain".to_owned(), challenge: c.to_owned() }))
            } else {
                Err(
                    "Malformed code_challenge: must be 43-128 chars of [A-Z a-z 0-9 -._~]".to_owned(),
                )
            }
        } else {
            Err(cat3("Unsupported code_challenge_method: '", method, "'"))
        },
        None => if public {
            Err("PKCE is required for public clients".to_owned())
        } else {
            Ok(None)
        },
    }
}

/// The scope that a request asks for: the client's own where it names none.
pub open spec fn effective_scope(requested: Option<Seq<char>>, default: Seq<char>) -> Seq<char> {
    match requested {
        Some(s) => if is_blank(s) {
            default
        } else {
            s
        },
        None => default,
    }
}

pub fn requested_or_default(requested: &Option<String>, default: &str) -> (r: String)
    ensures
        r@ == effective_scope(opt_text(*requested), default@),
{
    match requested {
        Some(s) => if blank(s.as_str()) {
            default.to_owned()
        } else {
            s.clone()
        },
        None => default.to_owned(),
    }
}

/// The requested challenge method in lower case; `plain` where none is given.
pub open spec fn folded_method(p: AuthorizeRequest) -> Seq<char> {
    match p.code_challenge_method {
        Some(m) => lowercase(m@),
        None => "plain"@,
    }
}

/// The checks of an authorization request in their order: response type,
/// client, tenant, redirect URI, PKCE, domain, scope. `method` is the
/// challenge method in lower case.
pub open spec fn authorize_checks(
    p: AuthorizeRequest,
    f: AuthorizeFacts,
    method: Seq<char>,
) -> Result<AuthorizeGrantView, (Seq<char>, Seq<char>)> {
    if p.response_type@ != "code"@ {
        Err(
            (
                "unsupported_response_type"@,
                "response_type '"@ + p.response_type@ + "' is not supported"@,
            ),
        )
    } else if p.client_id@.len() == 0 {
        Err(("invalid_client"@, "Missing required parameter: client_id"@))
    } else if f.tenant is None {
        Err(("invalid_client"@, "Unknown domain/tenant"@))
    } else if f.client is None {
        Err(("invalid_client"@, "Unknown client '"@ + p.client_id@ + "'"@))
    } else if !texts(f.client->0.response_types@).contains(p.response_type@) {
        Err(
            (
                "unauthorized_client"@,
                "client '"@ + f.client->0.id@ + "' is not registered for response_type '"@
                    + p.response_type@ + "'"@,
            ),
        )
    } else if p.redirect_uri is None {
        Err(("invalid_request"@, "Missing required parameter: redirect_uri"@))
    } else {
        match f.registered_uris {
            Err(e) => Err(("server_error"@, "Failed to load redirect URIs: "@ + e@)),
            Ok(uris) => {
                let callback = p.redirect_uri->0@;
                let client = f.client->0;
                if !texts(uris@).contains(callback) {
                    Err(
                        (
                            "invalid_redirect_uri"@,
                            "Redirect URI '"@ + callback
                                + "' is not registered for this client"@,
                        ),
                    )
                } else {
                    match pkce_choice(
                        opt_text(p.code_challenge),
                        method,
                        client.token_endpoint_auth_method@ == "none"@,
                        f.tls,
                    ) {
                        Err(e) => Err(("invalid_request"@, e)),
                        Ok(pkce) => if client.domain_id@ != f.tenant->0@ {
                            Err(("invalid_client"@, "Client is not registered for this tenant"@))
                        } else {
                            let scope = effective_scope(opt_text(p.scope), client.scope@);
                            match scope_fault(scope, texts(client.registered_scopes@)) {
                                Some(e) => Err(("invalid_scope"@, e)),
                                None => Ok(
                                    AuthorizeGrantView { callback_uri: callback, scope, pkce },
                                ),
                            }
                        },
                    }
                }
            },
        }
    }
}

/// Checks an authorization request, given its challenge method in lower case.
pub fn check_authorize(p: &AuthorizeRequest, f: &AuthorizeFacts, method: &str) -> (r: Result<
    AuthorizeGrant,
    Fault,
>)
    ensures
        grant_or_fault(r) == authorize_checks(*p, *f, method@),
{
    if !same(p.response_type.as_str(), "code") {
        let d = cat3("response_type '", p.response_type.as_str(), "' is not supported");
        return fault("unsupported_response_type", d.as_str());
    }
    if p.client_id.as_str().is_empty() {
        return fault("invalid_client", "Missing required parameter: client_id");
    }
    let tenant = match &f.tenant {
        Some(t) => t,
        None => {
            return fault("invalid_client", "Unknown domain/tenant");
        },
    };
    let client = match &f.client {
        Some(c) => c,
        None => {
            let d = cat3("Unknown client '", p.client_id.as_str(), "'");
            return fault("invalid_client", d.as_str());
        },
    };
    if !has_text(&client.response_types, p.response_type.as_str()) {
        let d = cat5(
            "client '",
            client.id.as_str(),
            "' is not registered for response_type '",
            p.response_type.as_str(),
            "'",
        );
        return fault("unauthorized_client", d.as_str());
    }
    let callback = match &p.redirect_uri {
        Some(uri) => uri,
        None => {
            return fault("invalid_request", "Missing required parameter: redirect_uri");
        },
    };
    let uris = match &f.registered_uris {
        Ok(uris) => uris,
        Err(e) => {
            let d = cat("Failed to load redirect URIs: ", e.as_str());
            return fault("server_error", d.as_str());
        },
    };
    if !has_text(uris, callback.as_str()) {
        let d = cat3("Redirect URI '", callback.as_str(), "' is not registered for this client");
        return fault("invalid_redirect_uri", d.as_str());
    }
    let public = same(client.token_endpoint_auth_method.as_str(), "none");
    let pkce = match choose_pkce(as_opt_str(&p.code_challenge), method, public, f.tls) {
        Ok(pkce) => pkce,
        Err(e) => {
            return fault("invalid_request", e.as_str());
        },
    };
    if !same(client.domain_id.as_str(), tenant.as_str()) {
        return fault("invalid_client", "Client is not registered for this tenant");
    }
    let scope = requested_or_default(&p.scope, client.scope.as_str());
    match validate_requested_scope(scope.as_str(), &client.registered_scopes) {
        Err(e) => fault("invalid_scope", e.as_str()),
        Ok(_) => Ok(AuthorizeGrant { callback_uri: callback.clone(), scope, pkce }),
    }
}

/// The view of a checked request, or of the error page that answers it.
pub open spec fn grant_or_url(r: Result<AuthorizeGrant, String>) -> Result<
    AuthorizeGrantView,
    Seq<char>,
> {
    match r {
        Ok(g) => Ok(g@),
        Err(u) => Err(u@),
    }
}

/// What an authorization request is granted, or the error page it is sent to.
pub open spec fn authorize_answer(p: AuthorizeRequest, f: AuthorizeFacts) -> Result<
    AuthorizeGrantView,
    Seq<char>,
> {
    match authorize_checks(p, f, folded_method(p)) {
        Ok(g) => Ok(g),
        Err(e) => Err(error_url("/error"@, e.0, e.1, opt_text(p.state))),
    }
}

/// Checks an authorization request. One that fails goes to the error page,
/// never to the redirect URI it names.
pub fn authorize_flow(p: &AuthorizeRequest, f: &AuthorizeFacts) -> (r: Result<
    AuthorizeGrant,
    String,
>)
    ensures
        grant_or_url(r) == authorize_answer(*p, *f),
{
    let method = match &p.code_challenge_method {
        Some(m) => to_lower(m.as_str()),
        None => "plain".to_owned(),
    };
    match check_authorize(p, f, method.as_str()) {
        Ok(g) => Ok(g),
        Err(e) => Err(
            oauth2_error_url(
                "/error",
                e.error.as_str(),
                e.description.as_str(),
                as_opt_str(&p.state),
            ),
        ),
    }
}

/// A signed-in user's session.
pub struct Session {
    /// The user's identifier.
    pub user: String,
    pub username: String,
    /// The factors that the session was authenticated with.
    pub mfa: Vec<String>,
    pub auth_time: Option<u64>,
}

/// What the store says of the user's earlier consent to a client: the scope
/// of the grant, that there is none, or why it cannot say.
pub type ConsentLookup = Result<Option<String>, String>;

/// Whether an earlier consent covers a scope.
pub open spec fn consented(lookup: ConsentLookup, scope: Seq<char>) -> bool {
    match lookup {
        Ok(Some(granted)) => covers(granted@, scope),
        _ => false,
    }
}

/// An authorization request parked while the user signs in or consents.
pub struct PendingAuth {
    pub client_id: String,
    pub callback_uri: String,
    pub scope: String,
    /// The client's own state, echoed on the callback.
    pub state: Option<String>,
    pub nonce: Option<String>,
    pub code_challenge: Option<String>,
    pub code_challenge_method: Option<String>,
    pub stage: String,
    /// The user whose session parked the request, where there was one.
    pub park_user: Option<String>,
    pub created_at: i64,
}

/// The key under which a parked request is kept.
pub open spec fn pending_key_of(csrf: Seq<char>) -> Seq<char> {
    "auth_pending:"@ + csrf
}

pub fn pending_key(csrf: &str) -> (r: String)
    ensures
        r@ == pending_key_of(csrf@),
{
    cat("auth_pending:", csrf)
}

impl PendingAuth {
    /// The entry of a request that is parked now, bound to `user` where there
    /// is a session.
    pub open spec fn parks(
        &self,
        p: AuthorizeRequest,
        g: AuthorizeGrant,
        user: Option<Seq<char>>,
        now: i64,
    ) -> bool {
        &&& self.client_id@ == p.client_id@
        &&& self.callback_uri@ == g@.callback_uri
        &&& self.scope@ == g@.scope
        &&& opt_text(self.state) == opt_text(p.state)
        &&& opt_text(self.nonce) == opt_text(p.nonce)
        &&& opt_text(self.code_challenge) == (match g@.pkce {
            Some(k) => Some(k.1),
            None => None,
        })
        &&& opt_text(self.code_challenge_method) == (match g@.pkce {
            Some(k) => Some(k.0),
            None => None,
        })
        &&& self.stage@ == (if user is Some {
            "consent"@
        } else {
            "login"@
        })
        &&& opt_text(self.park_user) == user
        &&& self.created_at == now
    }
}

/// The entry of a request to be parked. `user` is the session's user at the
/// consent stage, and none at the login stage.
pub fn park(p: &AuthorizeRequest, g: &AuthorizeGrant, user: Option<&str>, now: i64) -> (r:
    PendingAuth)
    ensures
        r.parks(*p, *g, opt_str(user), now),
{
    let (challenge, method) = match &g.pkce {
        Some(k) => (Some(k.challenge.clone()), Some(k.method.clone())),
        None => (None, None),
    };
    let (stage, park_user) = match user {
        Some(u) => ("consent".to_owned(), Some(u.to_owned())),
        None => ("login".to_owned(), None),
    };
    PendingAuth {
        client_id: p.client_id.clone(),
        callback_uri: g.callback_uri.clone(),
        scope: g.scope.clone(),
        state: copy_opt(&p.state),
        nonce: copy_opt(&p.nonce),
        code_challenge: challenge,
        code_challenge_method: method,
        stage,
        park_user,
        created_at: now,
    }
}

/// Where the browser goes once a request was parked for sign-in, or was not.
pub open spec fn sign_in_location(
    p: AuthorizeRequest,
    callback_uri: Seq<char>,
    csrf: Seq<char>,
    stored: bool,
    token_presented: bool,
) -> Seq<char> {
    if stored {
        login_url(p.client_id@, csrf, callback_uri, token_presented)
    } else {
        error_url(
            "/error"@,
            "server_error"@,
            "Failed to store pending authorization request"@,
            opt_text(p.state),
        )
    }
}

/// Where the browser goes once a request was parked for consent, or was not.
pub open spec fn ask_consent_location(
    state: Option<Seq<char>>,
    csrf: Seq<char>,
    stored: bool,
) -> Seq<char> {
    if stored {
        consent_url(csrf)
    } else {
        error_url(
            "/error"@,
            "server_error"@,
            "Failed to store pending consent request"@,
            state,
        )
    }
}

/// Where the browser goes once a code was issued, or could not be: back to the
/// client with the code, its state and `scope`, or to the error page.
pub open spec fn issued_location(
    callback_uri: Seq<char>,
    state: Option<Seq<char>>,
    scope: Option<Seq<char>>,
    code: Result<String, String>,
) -> Seq<char> {
    match code {
        Ok(c) => callback_url(callback_uri, c@, state, scope),
        Err(e) => error_url("/error"@, "server_error"@, e@, state),
    }
}

/// Where the browser goes once a request was parked for sign-in, or was not.
pub fn parked_for_login(
    p: &AuthorizeRequest,
    g: &AuthorizeGrant,
    csrf: &str,
    stored: bool,
    token_presented: bool,
) -> (r: String)
    ensures
        r@ == sign_in_location(*p, g@.callback_uri, csrf@, stored, token_presented),
{
    if stored {
        login_redirect(p.client_id.as_str(), csrf, g.callback_uri.as_str(), token_presented)
    } else {
        oauth2_error_url(
            "/error",
            "server_error",
            "Failed to store pending authorization request",
            as_opt_str(&p.state),
        )
    }
}

/// Where the browser goes once a request was parked for consent, or was not.
pub fn parked_for_consent(state: &Option<String>, csrf: &str, stored: bool) -> (r: String)
    ensures
        r@ == ask_consent_location(opt_text(*state), csrf@, stored),
{
    if stored {
        consent_redirect(csrf)
    } else {
        oauth2_error_url(
            "/error",
            "server_error",
            "Failed to store pending consent request",
            as_opt_str(state),
        )
    }
}

/// Where the browser goes once a code was issued, or could not be. The
/// callback carries the state and the scope as the client sent them.
pub fn authorize_issued(p: &AuthorizeRequest, g: &AuthorizeGrant, code: &Result<String, String>) -> (r:
    String)
    ensures
        r@ == issued_location(g@.callback_uri, opt_text(p.state), opt_text(p.scope), *code),
{
    match code {
        Ok(c) => callback_url_with_code(
            g.callback_uri.as_str(),
            c.as_str(),
            as_opt_str(&p.state),
            as_opt_str(&p.scope),
        ),
        Err(e) => oauth2_error_url("/error", "server_error", e.as_str(), as_opt_str(&p.state)),
    }
}

/// A parked request may be continued by the user who parked it, or by anyone
/// where no session parked it.
pub open spec fn user_matches(pending: PendingAuth, user: Seq<char>) -> bool {
    match pending.park_user {
        Some(u) => u@ == user,
        None => true,
    }
}

pub fn pending_user_matches(pending: &PendingAuth, session_user: &str) -> (r: bool)
    ensures
        r == user_matches(*pending, session_user@),
{
    match &pending.park_user {
        Some(u) => same(u.as_str(), session_user),
        None => true,
    }
}

/// A request for an authorization code.
pub struct IssueRequest {
    pub client_id: String,
    pub callback_uri: String,
    pub user_id: String,
    pub scope: String,
    pub nonce: Option<String>,
    pub pkce: Option<Pkce>,
    pub mfa: Vec<String>,
    pub auth_time: u64,
}

/// The challenge of a parked request; a method other than `plain` is `s256`.
pub open spec fn pending_pkce(pending: PendingAuth) -> Option<(Seq<char>, Seq<char>)> {
    match pending.code_challenge {
        Some(c) => Some(
            (
                if opt_text(pending.code_challenge_method) == Some("plain"@) {
                    "plain"@
                } else {
                    "s256"@
                },
                c@,
            ),
        ),
        None => None,
    }
}

/// When the session's user signed in: now, where the session does not say.
pub open spec fn auth_time_of(session: Session, now: i64) -> u64 {
    match session.auth_time {
        Some(t) => t,
        None => now as u64,
    }
}

impl IssueRequest {
    /// The code request of a parked request continued by `session`.
    pub open spec fn continues(&self, pending: PendingAuth, session: Session, now: i64) -> bool {
        &&& self.client_id@ == pending.client_id@
        &&& self.callback_uri@ == pending.callback_uri@
        &&& self.user_id@ == session.user@
        &&& self.scope@ == pending.scope@
        &&& opt_text(self.nonce) == opt_text(pending.nonce)
        &&& pkce_view(self.pkce) == pending_pkce(pending)
        &&& texts(self.mfa@) == texts(session.mfa@)
        &&& self.auth_time == auth_time_of(session, now)
    }

    /// The code request of a checked authorization request of `session`.
    pub open spec fn grants(
        &self,
        p: AuthorizeRequest,
        g: AuthorizeGrant,
        session: Session,
        now: i64,
    ) -> bool {
        &&& self.client_id@ == p.client_id@
        &&& self.callback_uri@ == g@.callback_uri
        &&& self.user_id@ == session.user@
        &&& self.scope@ == g@.scope
        &&& opt_text(self.nonce) == opt_text(p.nonce)
        &&& pkce_view(self.pkce) == g@.pkce
        &&& texts(self.mfa@) == texts(session.mfa@)
        &&& self.auth_time == auth_time_of(session, now)
    }
}

fn session_auth_time(session: &Session, now: i64) -> (r: u64)
    requires
        is_clock(now),
    ensures
        r == auth_time_of(*session, now),
{
    match session.auth_time {
        Some(t) => t,
        None => now as u64,
    }
}

fn copy_pkce(p: &Option<Pkce>) -> (r: Option<Pkce>)
    ensures
        pkce_view(r) == pkce_view(*p),
{
    match p {
        Some(k) => Some(Pkce { method: k.method.clone(), challenge: k.challenge.clone() }),
        None => None,
    }
}

/// The code request of a checked authorization request.
pub fn issue_for(p: &AuthorizeRequest, g: &AuthorizeGrant, session: &Session, now: i64) -> (r:
    IssueRequest)
    requires
        is_clock(now),
    ensures
        r.grants(*p, *g, *session, now),
{
    IssueRequest {
        client_id: p.client_id.clone(),
        callback_uri: g.callback_uri.clone(),
        user_id: session.user.clone(),
        scope: g.scope.clone(),
        nonce: copy_opt(&p.nonce),
        pkce: copy_pkce(&g.pkce),
        mfa: copy_texts(&session.mfa),
        auth_time: session_auth_time(session, now),
    }
}

/// What a checked authorization request leads to.
pub enum AuthorizeStep {
    /// Park the request and sign the user in.
    Login(PendingAuth),
    /// Park the request, bound to the user, and ask for consent.
    Consent(PendingAuth),
    /// Issue a code.
    Issue(IssueRequest),
    /// The store failed: go to this error page.
    Failed(String),
}

/// Which step a checked authorization request takes: without a session the
/// user signs in; with one, a consent that covers the scope issues a code, and
/// any other asks for consent.
pub open spec fn takes_step(
    r: AuthorizeStep,
    p: AuthorizeRequest,
    g: AuthorizeGrant,
    session: Option<Session>,
    lookup: ConsentLookup,
    now: i64,
) -> bool {
    match session {
        None => r matches AuthorizeStep::Login(e) && e.parks(p, g, None, now),
        Some(s) => match lookup {
            Err(e) => r matches AuthorizeStep::Failed(url) && url@ == error_url(
                "/error"@,
                "server_error"@,
                "Failed to query consent grants: "@ + e@,
                opt_text(p.state),
            ),
            Ok(_) => if consented(lookup, g@.scope) {
                r matches AuthorizeStep::Issue(i) && i.grants(p, g, s, now)
            } else {
                r matches AuthorizeStep::Consent(e) && e.parks(p, g, Some(s.user@), now)
            },
        },
    }
}

/// Decides what a checked authorization request leads to.
pub fn authorize_step(
    p: &AuthorizeRequest,
    g: &AuthorizeGrant,
    session: &Option<Session>,
    lookup: &ConsentLookup,
    now: i64,
) -> (r: AuthorizeStep)
    requires
        is_clock(now),
    ensures
        takes_step(r, *p, *g, *session, *lookup, now),
{
    let s = match session {
        Some(s) => s,
        None => {
            return AuthorizeStep::Login(park(p, g, None, now));
        },
    };
    let covered = match lookup {
        Err(e) => {
            let d = cat("Failed to query consent grants: ", e.as_str());
            return AuthorizeStep::Failed(
                oauth2_error_url("/error", "server_error", d.as_str(), as_opt_str(&p.state)),
            );
        },
        Ok(Some(granted)) => scopes_cover(granted.as_str(), g.scope.as_str()),
        Ok(None) => false,
    };
    if covered {
        AuthorizeStep::Issue(issue_for(p, g, s, now))
    } else {
        AuthorizeStep::Consent(park(p, g, Some(s.user.as_str()), now))
    }
}

/// The code request of a parked request.
pub fn issue_pending(pending: &PendingAuth, session: &Session, now: i64) -> (r: IssueRequest)
    requires
        is_clock(now),
    ensures
        r.continues(*pending, *session, now),
{
    let pkce = match &pending.code_challenge {
        Some(c) => {
            let plain = match &pending.code_challenge_method {
                Some(m) => same(m.as_str(), "plain"),
                None => false,
            };
            let method = if plain {
                "plain".to_owned()
            } else {
                "s256".to_owned()
            };
            Some(Pkce { method, challenge: c.clone() })
        },
        None => None,
    };
    IssueRequest {
        client_id: pending.client_id.clone(),
        callback_uri: pending.callback_uri.clone(),
        user_id: session.user.clone(),
        scope: pending.scope.clone(),
        nonce: copy_opt(&pending.nonce),
        pkce,
        mfa: copy_texts(&session.mfa),
        auth_time: session_auth_time(session, now),
    }
}

/// A granted request is one that its client is registered for: the callback is
/// one of the client's, every scope is known and the client's own, the client
/// belongs to the tenant, and a public client brought a challenge.
pub proof fn law_granted_requests_are_registered(p: AuthorizeRequest, f: AuthorizeFacts)
    requires
        authorize_answer(p, f) is Ok,
    ensures
        f.client is Some && f.tenant is Some && f.registered_uris is Ok,
        texts(f.registered_uris->Ok_0@).contains(authorize_answer(p, f)->Ok_0.callback_uri),
        forall|s: Seq<char>| #[trigger]
            scope_has(authorize_answer(p, f)->Ok_0.scope, s) ==> known_scope(s) && texts(
                f.client->0.registered_scopes@,
            ).contains(s),
        f.client->0.domain_id@ == f.tenant->0@,
        f.client->0.token_endpoint_auth_method@ == "none"@ ==> authorize_answer(
            p,
            f,
        )->Ok_0.pkce is Some,
{
    let scope = authorize_answer(p, f)->Ok_0.scope;
    law_validated_scope_is_known_and_registered(scope, texts(f.client->0.registered_scopes@));
}

/// A refused request goes to the server's own error page, whatever redirect
/// URI it names.
pub proof fn law_refused_requests_stay_here(p: AuthorizeRequest, f: AuthorizeFacts)
    requires
        authorize_answer(p, f) is Err,
    ensures
        starts_with(authorize_answer(p, f)->Err_0, "/error?error="@),
{
    reveal_strlit("/error");
    reveal_strlit("?error=");
    reveal_strlit("/error?error=");
    let url = authorize_answer(p, f)->Err_0;
    assert("/error"@ + "?error="@ =~= "/error?error="@);
    assert(url.take(13) =~= "/error?error="@);
}

} // verus!
