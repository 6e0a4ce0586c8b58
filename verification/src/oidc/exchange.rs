//! Authorization codes: issuing them and exchanging them for tokens.

use crate::oidc::authorize::{is_clock, IssueRequest};
use crate::oidc::codes::{verifier_matches, verify_challenge};
use crate::oidc::mint::{id_token_of, MintRequest, FAMILY_MINUTES};
use crate::oneshot::{law_taken_is_gone, lookup, store_run, OneShot, StoreOp};
use crate::outside::{check_second, parse_uuid, second_error, uuid_of};
use crate::reply::{refuse, refused, text_or_refusal, Refusal, RefusalView};
use crate::text::{cat, copy_opt, copy_texts, has_text, opt_str, opt_text, same, texts};
use vstd::prelude::*;

verus! {

/// How long an authorization code can be exchanged, in seconds.
pub const CODE_LIFETIME: i64 = 600;

/// An issued authorization code, waiting to be exchanged once.
pub struct AuthCodeEntry {
    pub client_id: String,
    pub callback_uri: String,
    pub user_id: String,
    pub scope: String,
    pub nonce: Option<String>,
    pub code_challenge_method: Option<String>,
    pub mfa: Vec<String>,
    pub auth_time: u64,
    pub jti: String,
    pub created_at: i64,
    pub expires_at: i64,
}

/// The key under which a code's entry is kept.
pub open spec fn code_key_of(code: Seq<char>) -> Seq<char> {
    "auth_code:"@ + code
}

pub fn auth_code_key(code: &str) -> (r: String)
    ensures
        r@ == code_key_of(code@),
{
    cat("auth_code:", code)
}

pub fn pkce_key(code: &str) -> (r: String)
    ensures
        r@ == "pkce:"@ + code@,
{
    cat("pkce:", code)
}

impl AuthCodeEntry {
    /// The entry of a code issued upon `req` at the second `now`.
    pub open spec fn stands_for(&self, req: IssueRequest, jti: Seq<char>, now: i64) -> bool {
        &&& self.client_id@ == req.client_id@
        &&& self.callback_uri@ == req.callback_uri@
        &&& self.user_id@ == req.user_id@
        &&& self.scope@ == req.scope@
        &&& opt_text(self.nonce) == opt_text(req.nonce)
        &&& opt_text(self.code_challenge_method) == (match req.pkce {
            Some(k) => Some(k.method@),
            None => None,
        })
        &&& texts(self.mfa@) == texts(req.mfa@)
        &&& self.auth_time == req.auth_time
        &&& self.jti@ == jti
        &&& self.created_at == now
        &&& self.expires_at == now + CODE_LIFETIME
    }
}

/// The entry of a code issued now.
pub fn auth_code_entry(req: &IssueRequest, jti: &str, now: i64) -> (r: AuthCodeEntry)
    requires
        is_clock(now),
    ensures
        r.client_id@ == req.client_id@,
        r.callback_uri@ == req.callback_uri@,
        r.user_id@ == req.user_id@,
        r.scope@ == req.scope@,
        opt_text(r.nonce) == opt_text(req.nonce),
        opt_text(r.code_challenge_method) == (match req.pkce {
            Some(k) => Some(k.method@),
            None => None,
        }),
        texts(r.mfa@) == texts(req.mfa@),
        r.auth_time == req.auth_time,
        r.jti@ == jti@,
        r.created_at == now,
        r.expires_at == now + CODE_LIFETIME,
        r.expires_at == now + 600,
        r.stands_for(*req, jti@, now),
{
    let method = match &req.pkce {
        Some(k) => Some(k.method.clone()),
        None => None,
    };
    AuthCodeEntry {
        client_id: req.client_id.clone(),
        callback_uri: req.callback_uri.clone(),
        user_id: req.user_id.clone(),
        scope: req.scope.clone(),
        nonce: copy_opt(&req.nonce),
        code_challenge_method: method,
        mfa: copy_texts(&req.mfa),
        auth_time: req.auth_time,
        jti: jti.to_owned(),
        created_at: now,
        expires_at: now + CODE_LIFETIME,
    }
}

/// Why a code could not be issued, and whether its entry must be taken back.
pub struct IssueFailure {
    pub message: String,
    pub drop_code: bool,
}

/// Why a code is not issued: its expiry is no timestamp, the grant could not
/// be recorded, or its challenge could not be stored.
pub open spec fn issue_failure(
    expires_at: i64,
    recorded: Result<(), String>,
    challenge_stored: Option<bool>,
) -> Option<(Seq<char>, bool)> {
    if !(-377705023201 <= expires_at <= 253402207200) {
        Some(("bad timestamp: "@ + second_error(expires_at), false))
    } else {
        match recorded {
            Err(e) => Some(("Failed to record authorization grant: "@ + e@, true)),
            Ok(_) => if challenge_stored == Some(false) {
                Some(("Failed to store PKCE challenge"@, true))
            } else {
                None
            },
        }
    }
}

/// Whether a code whose entry is in the cache is handed out. `recorded` says
/// whether its grant was recorded, `challenge_stored` whether its challenge
/// was, where it has one.
pub fn issue_authorization_code(
    code: String,
    expires_at: i64,
    recorded: &Result<(), String>,
    challenge_stored: Option<bool>,
) -> (r: Result<String, IssueFailure>)
    ensures
        r is Ok <==> issue_failure(expires_at, *recorded, challenge_stored) is None,
        r matches Ok(c) ==> c@ == code@,
        r matches Err(e) ==> issue_failure(expires_at, *recorded, challenge_stored) == Some(
            (e.message@, e.drop_code),
        ),
{
    if let Err(e) = check_second(expires_at) {
        return Err(IssueFailure { message: cat("bad timestamp: ", e.as_str()), drop_code: false });
    }
    if let Err(e) = recorded {
        return Err(
            IssueFailure {
                message: cat("Failed to record authorization grant: ", e.as_str()),
                drop_code: true,
            },
        );
    }
    match challenge_stored {
        Some(stored) => if stored {
            Ok(code)
        } else {
            Err(
                IssueFailure {
                    message: "Failed to store PKCE challenge".to_owned(),
                    drop_code: true,
                },
            )
        },
        None => Ok(code),
    }
}

/// The parameters of a token request.
pub struct TokenRequest {
    pub grant_type: String,
    pub code: Option<String>,
    pub redirect_uri: Option<String>,
    pub client_id: String,
    pub client_secret: Option<String>,
    pub code_verifier: Option<String>,
    pub scope: Option<String>,
    pub refresh_token: Option<String>,
    pub device_code: Option<String>,
}

/// The value that a form gives a parameter: the last one, where it is given
/// more than once.
pub open spec fn form_value(pairs: Seq<(String, String)>, name: Seq<char>) -> Option<Seq<char>>
    decreases pairs.len(),
{
    if pairs.len() == 0 {
        None
    } else if pairs.last().0@ == name {
        Some(pairs.last().1@)
    } else {
        form_value(pairs.drop_last(), name)
    }
}

pub fn form_get(pairs: &Vec<(String, String)>, name: &str) -> (r: Option<String>)
    ensures
        opt_text(r) == form_value(pairs@, name@),
{
    let mut i: usize = pairs.len();
    proof {
        assert(pairs@.take(pairs@.len() as int) =~= pairs@);
    }
    while i > 0
        invariant
            i <= pairs@.len(),
            form_value(pairs@, name@) == form_value(pairs@.take(i as int), name@),
        decreases i,
    {
        proof {
            assert(pairs@.take(i as int).drop_last() =~= pairs@.take(i - 1));
        }
        i = i - 1;
        if same(pairs[i].0.as_str(), name) {
            return Some(pairs[i].1.clone());
        }
    }
    None
}

/// An empty text where there is none.
pub open spec fn or_empty(o: Option<Seq<char>>) -> Seq<char> {
    match o {
        Some(s) => s,
        None => Seq::empty(),
    }
}

pub fn unwrap_text(o: Option<String>) -> (r: String)
    ensures
        r@ == or_empty(opt_text(o)),
{
    match o {
        Some(s) => s,
        None => String::new(),
    }
}

impl TokenRequest {
    /// The parameters are those of the form.
    pub open spec fn holds(&self, pairs: Seq<(String, String)>) -> bool {
        &&& self.grant_type@ == or_empty(form_value(pairs, "grant_type"@))
        &&& opt_text(self.code) == form_value(pairs, "code"@)
        &&& opt_text(self.redirect_uri) == form_value(pairs, "redirect_uri"@)
        &&& self.client_id@ == or_empty(form_value(pairs, "client_id"@))
        &&& opt_text(self.client_secret) == form_value(pairs, "client_secret"@)
        &&& opt_text(self.code_verifier) == form_value(pairs, "code_verifier"@)
        &&& opt_text(self.scope) == form_value(pairs, "scope"@)
        &&& opt_text(self.refresh_token) == form_value(pairs, "refresh_token"@)
        &&& opt_text(self.device_code) == form_value(pairs, "device_code"@)
    }
}

/// The token request that a form holds.
pub fn token_request(pairs: &Vec<(String, String)>) -> (r: TokenRequest)
    ensures
        r.holds(pairs@),
{
    TokenRequest {
        grant_type: unwrap_text(form_get(pairs, "grant_type")),
        code: form_get(pairs, "code"),
        redirect_uri: form_get(pairs, "redirect_uri"),
        client_id: unwrap_text(form_get(pairs, "client_id")),
        client_secret: form_get(pairs, "client_secret"),
        code_verifier: form_get(pairs, "code_verifier"),
        scope: form_get(pairs, "scope"),
        refresh_token: form_get(pairs, "refresh_token"),
        device_code: form_get(pairs, "device_code"),
    }
}

/// The code that a request wants to exchange, before it is taken out of the
/// cache: the redirect URI may be left out where exactly one is registered.
pub open spec fn code_request(
    code: Option<Seq<char>>,
    redirect_uri: Option<Seq<char>>,
    registered: Result<Vec<String>, String>,
) -> Result<Seq<char>, RefusalView> {
    if code is None || code->0.len() == 0 {
        Err(refused(400, "invalid_request"@, "Missing required parameter: code"@))
    } else {
        match registered {
            Err(e) => Err(
                refused(500, "server_error"@, "Failed to load redirect URIs: "@ + e@),
            ),
            Ok(uris) => match redirect_uri {
                None => if uris@.len() != 1 {
                    Err(refused(400, "invalid_request"@, "redirect_uri missing"@))
                } else {
                    Ok(code->0)
                },
                Some(u) => if texts(uris@).contains(u) {
                    Ok(code->0)
                } else {
                    Err(refused(400, "invalid_grant"@, "redirect_uri does not match"@))
                },
            },
        }
    }
}

pub fn auth_code_request(p: &TokenRequest, registered: &Result<Vec<String>, String>) -> (r: Result<
    String,
    Refusal,
>)
    ensures
        text_or_refusal(r) == code_request(opt_text(p.code), opt_text(p.redirect_uri), *registered),
{
    let code = match &p.code {
        Some(c) => {
            if c.as_str().is_empty() {
                return Err(refuse(400, "invalid_request", "Missing required parameter: code"));
            }
            c
        },
        None => {
            return Err(refuse(400, "invalid_request", "Missing required parameter: code"));
        },
    };
    let uris = match registered {
        Ok(uris) => uris,
        Err(e) => {
            let d = cat("Failed to load redirect URIs: ", e.as_str());
            return Err(refuse(500, "server_error", d.as_str()));
        },
    };
    match &p.redirect_uri {
        None => {
            if uris.len() != 1 {
                return Err(refuse(400, "invalid_request", "redirect_uri missing"));
            }
        },
        Some(u) => {
            if !has_text(uris, u.as_str()) {
                return Err(refuse(400, "invalid_grant", "redirect_uri does not match"));
            }
        },
    }
    Ok(code.clone())
}

/// Takes the entry of the code that a request wants to exchange: once the
/// redirect URI was accepted the entry is gone, whatever the exchange then
/// comes to.
pub fn take_code(
    codes: &mut OneShot<AuthCodeEntry>,
    p: &TokenRequest,
    registered: &Result<Vec<String>, String>,
) -> (r: Result<Option<AuthCodeEntry>, Refusal>)
    ensures
        (match code_request(opt_text(p.code), opt_text(p.redirect_uri), *registered) {
            Err(e) => (r matches Err(x) && x@ == e) && final(codes)@ == old(codes)@,
            Ok(code) => r == Ok::<Option<AuthCodeEntry>, Refusal>(
                lookup(old(codes)@, code_key_of(code)),
            ) && final(codes)@ == old(codes)@.remove(code_key_of(code)),
        }),
{
    match auth_code_request(p, registered) {
        Err(e) => Err(e),
        Ok(code) => Ok(codes.take(auth_code_key(code.as_str()).as_str())),
    }
}

/// Why a user gets no tokens: the identifier names no user, or the user is
/// deactivated. `active` is what the store says of the user.
pub open spec fn user_fault(user_id: Seq<char>, active: Option<bool>) -> Option<Seq<char>> {
    if uuid_of(user_id) is None {
        Some("unknown user"@)
    } else {
        lookup_fault(active)
    }
}

pub open spec fn lookup_fault(active: Option<bool>) -> Option<Seq<char>> {
    match active {
        Some(true) => None,
        Some(false) => Some("user is deactivated"@),
        None => Some("unknown user"@),
    }
}

/// Checks what the store says of a user.
pub fn check_lookup(active: Option<bool>) -> (r: Option<&'static str>)
    ensures
        opt_str(r) == lookup_fault(active),
{
    match active {
        Some(a) => if a {
            None
        } else {
            Some("user is deactivated")
        },
        None => Some("unknown user"),
    }
}

/// Checks that a user exists and is active.
pub fn require_active_user(user_id: &str, active: Option<bool>) -> (r: Result<(), String>)
    ensures
        r is Ok <==> user_fault(user_id@, active) is None,
        r matches Err(e) ==> user_fault(user_id@, active) == Some(e@),
{
    match parse_uuid(user_id) {
        None => Err("unknown user".to_owned()),
        Some(_) => match check_lookup(active) {
            Some(e) => Err(e.to_owned()),
            None => Ok(()),
        },
    }
}

/// The identifier under which the store is asked for a user.
pub fn user_key(user_id: &str) -> (r: Option<String>)
    ensures
        opt_text(r) == uuid_of(user_id@),
{
    parse_uuid(user_id)
}

/// What the caches and the store say of a code that was taken out.
pub struct CodeFacts {
    /// The entry of the code, taken out of the cache.
    pub entry: Option<AuthCodeEntry>,
    /// Whether the entry's user is active, where the store knows the user.
    pub user_active: Option<bool>,
    /// The challenge stored with the code, taken out of the cache.
    pub challenge: Option<String>,
    /// Whether the tenant has a signing key.
    pub has_key: bool,
}

/// Whether the proof of possession of a code holds: a code bound to a
/// challenge needs a verifier that matches it.
pub open spec fn pkce_fault(
    method: Option<Seq<char>>,
    verifier: Option<Seq<char>>,
    challenge: Option<Seq<char>>,
) -> Option<RefusalView> {
    match method {
        None => None,
        Some(m) => if verifier is None || verifier->0.len() == 0 {
            Some(refused(400, "invalid_grant"@, "Missing required parameter: code_verifier"@))
        } else if challenge is Some && verifier_matches(m, verifier->0, challenge->0) {
            None
        } else {
            Some(
                refused(
                    400,
                    "invalid_grant"@,
                    "PKCE code_verifier does not match the challenge"@,
                ),
            )
        },
    }
}

pub fn check_pkce(method: Option<&str>, verifier: Option<&str>, challenge: Option<&str>) -> (r:
    Result<(), Refusal>)
    ensures
        r is Ok <==> pkce_fault(opt_str(method), opt_str(verifier), opt_str(challenge)) is None,
        r matches Err(e) ==> pkce_fault(opt_str(method), opt_str(verifier), opt_str(challenge))
            == Some(e@),
{
    let m = match method {
        Some(m) => m,
        None => {
            return Ok(());
        },
    };
    let v = match verifier {
        Some(v) => {
            if v.is_empty() {
                return Err(
                    refuse(400, "invalid_grant", "Missing required parameter: code_verifier"),
                );
            }
            v
        },
        None => {
            return Err(
                refuse(400, "invalid_grant", "Missing required parameter: code_verifier"),
            );
        },
    };
    let verified = match challenge {
        Some(c) => verify_challenge(m, v, c),
        None => false,
    };
    if verified {
        Ok(())
    } else {
        Err(refuse(400, "invalid_grant", "PKCE code_verifier does not match the challenge"))
    }
}

/// Why a code that was taken out of the cache yields no tokens, in the order
/// of the checks: it must be the client's own, not expired, exchanged with the
/// redirect URI it was issued for, for an active user, with a matching
/// verifier, on a tenant that can sign.
pub open spec fn exchange_verdict(
    p: TokenRequest,
    client_id: Seq<char>,
    f: CodeFacts,
    user: Option<Seq<char>>,
    now: i64,
) -> Option<RefusalView> {
    match f.entry {
        None => Some(
            refused(
                400,
                "invalid_grant"@,
                "Authorization code has expired or was already used"@,
            ),
        ),
        Some(e) => if e.client_id@ != client_id {
            Some(
                refused(
                    401,
                    "invalid_client"@,
                    "Authorization code was issued to a different client"@,
                ),
            )
        } else if now > e.expires_at {
            Some(refused(400, "invalid_grant"@, "Authorization code has expired"@))
        } else if p.redirect_uri is Some && p.redirect_uri->0@ != e.callback_uri@ {
            Some(
                refused(
                    400,
                    "invalid_grant"@,
                    "redirect_uri does not match the authorization request"@,
                ),
            )
        } else if e.user_id@.len() == 0 {
            Some(refused(400, "invalid_grant"@, "Authorization code entry is malformed"@))
        } else {
            match user {
                Some(d) => Some(refused(400, "invalid_grant"@, d)),
                None => match pkce_fault(
                    opt_text(e.code_challenge_method),
                    opt_text(p.code_verifier),
                    opt_text(f.challenge),
                ) {
                    Some(r) => Some(r),
                    None => if f.has_key {
                        None
                    } else {
                        Some(
                            refused(
                                500,
                                "server_error"@,
                                "No active signing key for this tenant"@,
                            ),
                        )
                    },
                },
            }
        },
    }
}

/// Why a code yields no tokens, the entry's user included.
pub open spec fn exchange_fault(
    p: TokenRequest,
    client_id: Seq<char>,
    f: CodeFacts,
    now: i64,
) -> Option<RefusalView> {
    let user = match f.entry {
        Some(e) => user_fault(e.user_id@, f.user_active),
        None => None,
    };
    exchange_verdict(p, client_id, f, user, now)
}

impl MintRequest {
    /// What a code is exchanged for: tokens for its user, minted for its scope,
    /// with its nonce and with the sign-in that it was issued upon; a family of
    /// refresh tokens starts now.
    pub open spec fn redeems(&self, e: AuthCodeEntry, client_id: Seq<char>, family: Seq<char>, now: i64) -> bool {
        &&& self.user_id@ == e.user_id@
        &&& opt_text(self.nonce) == opt_text(e.nonce)
        &&& self.auth_time == e.auth_time
        &&& self.starts_family(e.scope@, e.jti@, client_id, texts(e.mfa@), family, now)
    }
}

/// Decides whether a code, taken out of the cache, is exchanged for tokens, and
/// for which. `family` names the family of refresh tokens that would start.
pub fn handle_auth_code(
    p: &TokenRequest,
    client_id: &str,
    f: &CodeFacts,
    family: &str,
    now: i64,
) -> (r: Result<MintRequest, Refusal>)
    ensures
        r is Ok <==> exchange_fault(*p, client_id@, *f, now) is None,
        r matches Ok(g) ==> g.redeems(f.entry->0, client_id@, family@, now),
        r matches Err(e) ==> exchange_fault(*p, client_id@, *f, now) == Some(e@),
{
    let user = match &f.entry {
        Some(e) => match require_active_user(e.user_id.as_str(), f.user_active) {
            Ok(_) => None,
            Err(d) => Some(d),
        },
        None => None,
    };
    if let Err(e) = exchange_code(p, client_id, f, &user, now) {
        return Err(e);
    }
    match &f.entry {
        Some(e) => Ok(
            MintRequest {
                user_id: e.user_id.clone(),
                scope: e.scope.clone(),
                jti: e.jti.clone(),
                client_id: client_id.to_owned(),
                nonce: copy_opt(&e.nonce),
                mfa: copy_texts(&e.mfa),
                auth_time: e.auth_time,
                family: family.to_owned(),
                family_created_at: now,
                refresh_minutes: FAMILY_MINUTES,
            },
        ),
        None => Err(
            refuse(400, "invalid_grant", "Authorization code has expired or was already used"),
        ),
    }
}

/// The ID token of an exchanged code has the nonce of the authorization
/// request and tells of the sign-in that the code was issued upon.
pub proof fn law_id_tokens_tell_of_the_codes_sign_in(
    m: MintRequest,
    e: AuthCodeEntry,
    client_id: Seq<char>,
    family: Seq<char>,
    now: i64,
    access_token: Seq<char>,
)
    requires
        m.redeems(e, client_id, family, now),
    ensures
        id_token_of(m, access_token) matches Some(t) ==> {
            &&& t.user_id == e.user_id@
            &&& t.client_id == client_id
            &&& t.nonce == opt_text(e.nonce)
            &&& t.mfa == texts(e.mfa@)
            &&& t.auth_time == e.auth_time
            &&& t.access_token == access_token
        },
{
}

/// Decides on a code, given what is wrong with its user, if anything.
pub fn exchange_code(
    p: &TokenRequest,
    client_id: &str,
    f: &CodeFacts,
    user: &Option<String>,
    now: i64,
) -> (r: Result<(), Refusal>)
    ensures
        r is Ok <==> exchange_verdict(*p, client_id@, *f, opt_text(*user), now) is None,
        r matches Err(e) ==> exchange_verdict(*p, client_id@, *f, opt_text(*user), now) == Some(e@),
{
    let e = match &f.entry {
        Some(e) => e,
        None => {
            return Err(
                refuse(400, "invalid_grant", "Authorization code has expired or was already used"),
            );
        },
    };
    if !same(e.client_id.as_str(), client_id) {
        return Err(
            refuse(401, "invalid_client", "Authorization code was issued to a different client"),
        );
    }
    if now > e.expires_at {
        return Err(refuse(400, "invalid_grant", "Authorization code has expired"));
    }
    if let Some(u) = &p.redirect_uri {
        if !same(u.as_str(), e.callback_uri.as_str()) {
            return Err(
                refuse(
                    400,
                    "invalid_grant",
                    "redirect_uri does not match the authorization request",
                ),
            );
        }
    }
    if e.user_id.as_str().is_empty() {
        return Err(refuse(400, "invalid_grant", "Authorization code entry is malformed"));
    }
    if let Some(d) = user {
        return Err(refuse(400, "invalid_grant", d.as_str()));
    }
    let method = crate::text::as_opt_str(&e.code_challenge_method);
    let verifier = crate::text::as_opt_str(&p.code_verifier);
    let challenge = crate::text::as_opt_str(&f.challenge);
    if let Err(refusal) = check_pkce(method, verifier, challenge) {
        return Err(refusal);
    }
    if f.has_key {
        Ok(())
    } else {
        Err(refuse(500, "server_error", "No active signing key for this tenant"))
    }
}

/// Tokens for a code go only to the client it was issued to, while it lives,
/// for a user who is active, and, where it was bound to a challenge, to the
/// holder of the verifier.
pub proof fn law_exchange_needs_the_issued_code(
    p: TokenRequest,
    client_id: Seq<char>,
    f: CodeFacts,
    now: i64,
)
    requires
        exchange_fault(p, client_id, f, now) is None,
    ensures
        f.entry is Some,
        f.entry->0.client_id@ == client_id,
        now <= f.entry->0.expires_at,
        p.redirect_uri is Some ==> p.redirect_uri->0@ == f.entry->0.callback_uri@,
        f.user_active == Some(true),
        f.entry->0.code_challenge_method is Some ==> p.code_verifier is Some && f.challenge is Some
            && verifier_matches(
            f.entry->0.code_challenge_method->0@,
            p.code_verifier->0@,
            f.challenge->0@,
        ),
{
}

/// A request to exchange a code, and what is known besides the code's entry.
pub struct CodeExchange {
    pub request: TokenRequest,
    pub registered: Result<Vec<String>, String>,
    pub client_id: Seq<char>,
    pub user_active: Option<bool>,
    pub challenge: Option<String>,
    pub has_key: bool,
    pub now: i64,
}

impl CodeExchange {
    /// The code whose entry the request takes, where it gets that far.
    pub open spec fn reaches(self) -> Result<Seq<char>, RefusalView> {
        code_request(
            opt_text(self.request.code),
            opt_text(self.request.redirect_uri),
            self.registered,
        )
    }

    /// Why the request yields no tokens on a store of codes.
    pub open spec fn fault(self, codes: Map<Seq<char>, AuthCodeEntry>) -> Option<RefusalView> {
        match self.reaches() {
            Err(e) => Some(e),
            Ok(code) => exchange_fault(
                self.request,
                self.client_id,
                CodeFacts {
                    entry: lookup(codes, code_key_of(code)),
                    user_active: self.user_active,
                    challenge: self.challenge,
                    has_key: self.has_key,
                },
                self.now,
            ),
        }
    }
}

/// What happens to codes.
pub enum CodeOp {
    Issue { code: Seq<char>, entry: AuthCodeEntry },
    /// A code is withdrawn that could not be recorded.
    Withdraw(Seq<char>),
    Exchange(CodeExchange),
}

impl CodeOp {
    /// What it does to the store of codes.
    pub open spec fn on_store(self) -> StoreOp<AuthCodeEntry> {
        match self {
            CodeOp::Issue { code, entry } => StoreOp::Put(code_key_of(code), entry),
            CodeOp::Withdraw(code) => StoreOp::Take(code_key_of(code)),
            CodeOp::Exchange(x) => match x.reaches() {
                Ok(code) => StoreOp::Take(code_key_of(code)),
                Err(_) => StoreOp::Leave,
            },
        }
    }
}

/// The codes that are left after a run.
pub open spec fn code_run(ops: Seq<CodeOp>) -> Map<Seq<char>, AuthCodeEntry> {
    store_run(ops.map_values(|o: CodeOp| o.on_store()))
}

proof fn lemma_code_keys_differ(a: Seq<char>, b: Seq<char>)
    ensures
        code_key_of(a) == code_key_of(b) ==> a == b,
{
    let n = "auth_code:"@.len() as int;
    assert(code_key_of(a).skip(n) =~= a);
    assert(code_key_of(b).skip(n) =~= b);
}

/// A code is redeemed at most once, and a failed redemption burns it: in any
/// run, a request that got past the redirect URI leaves every later one with
/// the same code refused, whether the earlier one got tokens, came from the
/// wrong client, brought the wrong verifier or was for an inactive user.
pub proof fn law_code_is_one_shot(
    ops: Seq<CodeOp>,
    i: int,
    j: int,
    code: Seq<char>,
    first: CodeExchange,
    later: CodeExchange,
)
    requires
        0 <= i < j < ops.len(),
        ops[i] == CodeOp::Exchange(first),
        ops[j] == CodeOp::Exchange(later),
        first.reaches() == Ok::<Seq<char>, RefusalView>(code),
        later.reaches() == Ok::<Seq<char>, RefusalView>(code),
        forall|k: int|
            i < k < j ==> !((#[trigger] ops[k]) matches CodeOp::Issue { code: other, entry }
                && other == code),
    ensures
        later.fault(code_run(ops.take(j))) == Some(
            refused(
                400,
                "invalid_grant"@,
                "Authorization code has expired or was already used"@,
            ),
        ),
{
    let f = |o: CodeOp| o.on_store();
    let stored = ops.map_values(f);
    assert(stored.take(j) =~= ops.take(j).map_values(f));
    assert forall|k: int| i < k < j implies !((#[trigger] stored[k]) matches StoreOp::Put(other, _)
        && other == code_key_of(code)) by {
        assert(stored[k] == ops[k].on_store());
        if let CodeOp::Issue { code: other, entry } = ops[k] {
            lemma_code_keys_differ(other, code);
        }
    }
    assert(stored[i] == ops[i].on_store());
    law_taken_is_gone(stored, i, j, code_key_of(code));
}

} // verus!
