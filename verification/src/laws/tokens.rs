//! Which codes and refresh tokens are worth tokens, and which tokens.

use crate::laws::authorize::{lemma_lists, lists};
use crate::laws::words::{
    has_word, law_blank_texts_say_nothing, law_covering_is_by_names,
    law_scope_names_stand_between_spaces, says_something,
};
use crate::oidc::authorize::{pending_key_of, IssueRequest};
use crate::oidc::client::Client;
use crate::oidc::codes::verifier_matches;
use crate::oidc::exchange::{
    code_key_of, code_request, exchange_fault, form_value, issue_failure, AuthCodeEntry,
    CodeFacts, TokenRequest,
};
use crate::oidc::introspect::{IntrospectRequest, RevokeRequest};
use crate::oidc::mint::{
    grant_kind, id_token_of, service_fault, signing_fault, token_gate, AccessEntry, GrantKind,
    MintPlan, MintRequest, OidcAccessTokenData, ServiceSession, Signing, TokenResponse,
};
use crate::oidc::refresh::{
    commit_of, family_marker, narrowed_scope, refresh_decision, RefreshClaims, RefreshCommitView,
    RefreshFacts,
};
use crate::outside::{base64url, sha256, uuid_of};
use crate::reply::RefusalView;
use crate::text::{opt_text, texts};
use vstd::prelude::*;
use vstd::utf8::encode_utf8;

verus! {

/// The refusal by its status, its error code and its description.
pub open spec fn reads(
    r: RefusalView,
    status: int,
    error: Seq<char>,
    description: Seq<char>,
) -> bool {
    r.status == status && r.error == error && r.description == description
}

/// The user's identifier is one, and the store knows the user as active.
pub open spec fn is_active_user(user_id: Seq<char>, active: Option<bool>) -> bool {
    uuid_of(user_id) is Some && active == Some(true)
}

/// The verifier is the secret that the challenge was made of: its digest for
/// `s256`, the secret itself for `plain`.
pub open spec fn opens(method: Seq<char>, verifier: Seq<char>, challenge: Seq<char>) -> bool {
    ||| method == "s256"@ && challenge == base64url(sha256(encode_utf8(verifier)))
    ||| method == "plain"@ && challenge == verifier
}

/// The request proves possession of the code: it is bound to no challenge, or
/// the request brings what opens it.
pub open spec fn possession_is_proved(p: TokenRequest, e: AuthCodeEntry, f: CodeFacts) -> bool {
    e.code_challenge_method matches Some(m) ==> {
        &&& p.code_verifier matches Some(v)
        &&& v@.len() > 0
        &&& f.challenge matches Some(c)
        &&& opens(m@, v@, c@)
    }
}

/// A code yields tokens exactly when it is the client's own and has not
/// expired, the request leaves the redirect URI out or repeats the code's own,
/// the user is there and active, possession is proved and the tenant can sign.
pub proof fn law_live_codes_are_exchanged(
    p: TokenRequest,
    client_id: Seq<char>,
    f: CodeFacts,
    now: i64,
)
    ensures
        exchange_fault(p, client_id, f, now) is None <==> {
            &&& f.entry matches Some(e)
            &&& e.client_id@ == client_id
            &&& now <= e.expires_at
            &&& (p.redirect_uri is None || p.redirect_uri->0@ == e.callback_uri@)
            &&& e.user_id@.len() > 0
            &&& is_active_user(e.user_id@, f.user_active)
            &&& possession_is_proved(p, e, f)
            &&& f.has_key
        },
{
    reveal_strlit("s256");
    reveal_strlit("plain");
    assert("s256"@.len() != "plain"@.len());
}

/// A verifier matches exactly the challenge that was made of it.
pub proof fn law_verifiers_open_their_own_challenge(
    method: Seq<char>,
    verifier: Seq<char>,
    challenge: Seq<char>,
)
    ensures
        verifier_matches(method, verifier, challenge) <==> opens(method, verifier, challenge),
{
    reveal_strlit("s256");
    reveal_strlit("plain");
    assert("s256"@.len() != "plain"@.len());
}

/// A code that was issued to a client is worth tokens to that client for ten
/// minutes and not a second longer, on the redirect URI it was issued for or
/// on none, given what opens the challenge of its authorization request.
pub proof fn law_issued_codes_live_ten_minutes(
    req: IssueRequest,
    e: AuthCodeEntry,
    jti: Seq<char>,
    issued: i64,
    p: TokenRequest,
    f: CodeFacts,
    now: i64,
)
    requires
        e.stands_for(req, jti, issued),
        f.entry == Some(e),
        p.redirect_uri is None || p.redirect_uri->0@ == req.callback_uri@,
        req.user_id@.len() > 0,
        is_active_user(req.user_id@, f.user_active),
        req.pkce matches Some(k) ==> {
            &&& p.code_verifier matches Some(v)
            &&& v@.len() > 0
            &&& f.challenge matches Some(c)
            &&& c@ == k.challenge@
            &&& opens(k.method@, v@, k.challenge@)
        },
        f.has_key,
    ensures
        exchange_fault(p, req.client_id@, f, now) is None <==> now <= issued + 600,
{
    law_live_codes_are_exchanged(p, req.client_id@, f, now);
}

/// Each fault of an exchange is told by its own error.
pub proof fn law_refused_exchanges_are_told(
    p: TokenRequest,
    client_id: Seq<char>,
    f: CodeFacts,
    now: i64,
)
    ensures
        f.entry is None ==> (exchange_fault(p, client_id, f, now) matches Some(r) && reads(
            r,
            400,
            "invalid_grant"@,
            "Authorization code has expired or was already used"@,
        )),
        f.entry matches Some(e) ==> {
            &&& e.client_id@ != client_id ==> (exchange_fault(p, client_id, f, now) matches Some(r)
                && reads(
                r,
                401,
                "invalid_client"@,
                "Authorization code was issued to a different client"@,
            ))
            &&& e.client_id@ == client_id && now > e.expires_at ==> (exchange_fault(
                p,
                client_id,
                f,
                now,
            ) matches Some(r) && reads(
                r,
                400,
                "invalid_grant"@,
                "Authorization code has expired"@,
            ))
            &&& e.client_id@ == client_id && now <= e.expires_at && p.redirect_uri is Some
                && p.redirect_uri->0@ != e.callback_uri@ ==> (exchange_fault(
                p,
                client_id,
                f,
                now,
            ) matches Some(r) && reads(
                r,
                400,
                "invalid_grant"@,
                "redirect_uri does not match the authorization request"@,
            ))
            &&& (e.client_id@ == client_id && now <= e.expires_at && (p.redirect_uri is None
                || p.redirect_uri->0@ == e.callback_uri@) && e.user_id@.len() > 0
                && !is_active_user(e.user_id@, f.user_active)) ==> (exchange_fault(
                p,
                client_id,
                f,
                now,
            ) matches Some(r) && reads(
                r,
                400,
                "invalid_grant"@,
                if uuid_of(e.user_id@) is Some && f.user_active is Some {
                    "user is deactivated"@
                } else {
                    "unknown user"@
                },
            ))
            &&& (e.client_id@ == client_id && now <= e.expires_at && (p.redirect_uri is None
                || p.redirect_uri->0@ == e.callback_uri@) && e.user_id@.len() > 0
                && is_active_user(e.user_id@, f.user_active) && !possession_is_proved(p, e, f))
                ==> (exchange_fault(p, client_id, f, now) matches Some(r) && reads(
                r,
                400,
                "invalid_grant"@,
                if p.code_verifier is None || p.code_verifier->0@.len() == 0 {
                    "Missing required parameter: code_verifier"@
                } else {
                    "PKCE code_verifier does not match the challenge"@
                },
            ))
        },
{
    reveal_strlit("s256");
    reveal_strlit("plain");
    assert("s256"@.len() != "plain"@.len());
}

/// A request reaches the code that it names exactly when it names one and
/// either names a registered redirect URI or names none where the client has
/// just one.
pub proof fn law_registered_redirects_reach_the_code(
    code: Option<Seq<char>>,
    redirect_uri: Option<Seq<char>>,
    registered: Result<Vec<String>, String>,
)
    ensures
        code_request(code, redirect_uri, registered) is Ok <==> {
            &&& code is Some && code->0.len() > 0
            &&& registered matches Ok(uris)
            &&& (redirect_uri matches Some(u) ==> lists(uris@, u))
            &&& (redirect_uri is None ==> uris@.len() == 1)
        },
        code_request(code, redirect_uri, registered) matches Ok(c) ==> code == Some(c),
{
    if registered is Ok && redirect_uri is Some {
        lemma_lists(registered->Ok_0@, redirect_uri->0);
    }
}

/// A form says of a parameter what it said last, and nothing where it never
/// names it.
pub proof fn law_the_last_value_counts(pairs: Seq<(String, String)>, name: Seq<char>, i: int)
    ensures
        0 <= i < pairs.len() && pairs[i].0@ == name && (forall|j: int|
            i < j < pairs.len() ==> (#[trigger] pairs[j]).0@ != name) ==> form_value(pairs, name)
            == Some(pairs[i].1@),
        (forall|j: int| 0 <= j < pairs.len() ==> (#[trigger] pairs[j]).0@ != name) ==> form_value(
            pairs,
            name,
        ) is None,
    decreases pairs.len(),
{
    if pairs.len() > 0 {
        let front = pairs.drop_last();
        law_the_last_value_counts(front, name, i);
        assert(pairs.last() == pairs[pairs.len() - 1]);
        assert forall|j: int| 0 <= j < front.len() implies front[j] == #[trigger] pairs[j] by {}
    }
}

/// A code is handed out exactly when its expiry can be told, its grant was
/// recorded and its challenge, where it has one, was stored; one that is not
/// handed out once the store was asked is taken back.
pub proof fn law_codes_are_handed_out_once_stored(
    expires_at: i64,
    recorded: Result<(), String>,
    challenge_stored: Option<bool>,
)
    ensures
        issue_failure(expires_at, recorded, challenge_stored) is None <==> recorded is Ok
            && challenge_stored != Some(false) && -377705023201 <= expires_at <= 253402207200,
        issue_failure(expires_at, recorded, challenge_stored) matches Some(e) ==> (e.1
            <==> -377705023201 <= expires_at <= 253402207200),
{
}

/// A code is worth what it was issued for: its user, its scope, its nonce, the
/// factors and the time of its sign-in, for its client; its refresh tokens
/// start a family now that lasts thirty days.
pub proof fn law_codes_are_worth_what_they_were_issued_for(
    m: MintRequest,
    req: IssueRequest,
    e: AuthCodeEntry,
    jti: Seq<char>,
    issued: i64,
    family: Seq<char>,
    now: i64,
)
    requires
        e.stands_for(req, jti, issued),
        m.redeems(e, req.client_id@, family, now),
    ensures
        m.user_id@ == req.user_id@,
        m.scope@ == req.scope@,
        m.client_id@ == req.client_id@,
        opt_text(m.nonce) == opt_text(req.nonce),
        texts(m.mfa@) == texts(req.mfa@),
        m.auth_time == req.auth_time,
        m.jti@ == jti,
        m.family@ == family,
        m.family_created_at == now,
        m.refresh_minutes == 30 * 24 * 60,
{
}

/// The access token lives an hour and says what was granted; a refresh token
/// comes with it exactly where the scope says `offline_access` and there is
/// time left, and says the same; an ID token comes exactly where the scope
/// says `openid`, and lives a quarter of an hour.
pub proof fn law_tokens_say_what_was_granted(
    plan: MintPlan,
    m: MintRequest,
    access_token: Seq<char>,
)
    requires
        plan.mints(m),
    ensures
        plan.user_id@ == m.user_id@ && texts(plan.mfa@) == texts(m.mfa@) && plan.auth_time
            == m.auth_time,
        plan.access.scope@ == m.scope@ && plan.access.jti@ == m.jti@ && plan.access.client_id@
            == m.client_id@,
        plan.access_minutes == 60,
        plan.refresh is Some <==> has_word(m.scope@, "offline_access"@) && m.refresh_minutes > 0,
        plan.refresh matches Some(t) ==> t.minutes == m.refresh_minutes && t.data.typ@ == "refresh"@
            && t.data.scope@ == m.scope@ && t.data.client_id@ == m.client_id@ && texts(t.data.mfa@)
            == texts(m.mfa@) && t.data.family@ == m.family@ && t.data.family_created_at
            == m.family_created_at,
        id_token_of(m, access_token) is Some <==> has_word(m.scope@, "openid"@),
        id_token_of(m, access_token) matches Some(t) ==> t.user_id == m.user_id@ && t.client_id
            == m.client_id@ && t.nonce == opt_text(m.nonce) && t.mfa == texts(m.mfa@)
            && t.auth_time == m.auth_time && t.access_token == access_token && t.minutes == 15,
{
    law_scope_names_stand_between_spaces(m.scope@, "offline_access"@);
    law_scope_names_stand_between_spaces(m.scope@, "openid"@);
}

/// A token request runs a grant exactly when it names one of the four, the
/// tenant is known, and the client authenticated and registered for it; and
/// it runs the one that it names.
pub proof fn law_registered_grants_run(
    grant_type: Seq<char>,
    has_tenant: bool,
    client: Result<Client, String>,
)
    ensures
        token_gate(grant_type, has_tenant, client) is Ok <==> {
            &&& has_tenant
            &&& client matches Ok(c)
            &&& lists(c.grant_types@, grant_type)
            &&& (grant_type == "authorization_code"@ || grant_type == "refresh_token"@ || grant_type
                == "client_credentials"@ || grant_type
                == "urn:ietf:params:oauth:grant-type:device_code"@)
        },
        token_gate(grant_type, has_tenant, client) matches Ok(kind) ==> {
            &&& kind == GrantKind::AuthorizationCode <==> grant_type == "authorization_code"@
            &&& kind == GrantKind::RefreshToken <==> grant_type == "refresh_token"@
            &&& kind == GrantKind::ClientCredentials <==> grant_type == "client_credentials"@
            &&& kind == GrantKind::DeviceCode <==> grant_type
                == "urn:ietf:params:oauth:grant-type:device_code"@
        },
        token_gate(grant_type, has_tenant, client) matches Err(r) ==> (if grant_type.len() == 0 {
            r.status == 400 && r.error == "invalid_request"@
        } else if !has_tenant || client is Err {
            r.status == 401 && r.error == "invalid_client"@
        } else if grant_kind(grant_type) is None {
            r.status == 400 && r.error == "unsupported_grant_type"@
        } else {
            r.status == 400 && r.error == "unauthorized_client"@
        }),
{
    reveal_strlit("authorization_code");
    reveal_strlit("refresh_token");
    reveal_strlit("client_credentials");
    reveal_strlit("urn:ietf:params:oauth:grant-type:device_code");
    assert("authorization_code"@[0] != "refresh_token"@[0]);
    assert("authorization_code"@[0] != "client_credentials"@[0]);
    assert("refresh_token"@[0] != "client_credentials"@[0]);
    assert("refresh_token"@.len() == 13);
    assert("authorization_code"@.len() == 18);
    assert("client_credentials"@.len() == 18);
    assert("urn:ietf:params:oauth:grant-type:device_code"@.len() == 44);
    if client is Ok {
        lemma_lists(client->Ok_0.grant_types@, grant_type);
    }
}

/// A client gets a service token exactly when it can authenticate and the
/// tenant can sign.
pub proof fn law_confidential_clients_get_service_tokens(auth_method: Seq<char>, has_key: bool)
    ensures
        service_fault(auth_method, has_key) is None <==> auth_method != "none"@ && has_key,
        auth_method == "none"@ ==> (service_fault(auth_method, has_key) matches Some(r) && reads(
            r,
            401,
            "invalid_client"@,
            "client_credentials requires a confidential client"@,
        )),
        auth_method != "none"@ && !has_key ==> (service_fault(auth_method, has_key) matches Some(r)
            && reads(r, 500, "server_error"@, "No active signing key for this tenant"@)),
{
}

/// The refresh asks for no scope of its own.
pub open spec fn asks_for_nothing(p: TokenRequest) -> bool {
    p.scope is None || !says_something(p.scope->0@)
}

/// Every name that the refresh asks for stands in the token's scope.
pub open spec fn stays_within(p: TokenRequest, scope: Seq<char>) -> bool {
    p.scope matches Some(s) ==> forall|w: Seq<char>| #[trigger]
        has_word(s@, w) ==> has_word(scope, w)
}

proof fn lemma_narrowed(p: TokenRequest, scope: Seq<char>)
    ensures
        narrowed_scope(scope, opt_text(p.scope)) is Some <==> asks_for_nothing(p) || stays_within(
            p,
            scope,
        ),
        asks_for_nothing(p) ==> narrowed_scope(scope, opt_text(p.scope)) == Some(scope),
        !asks_for_nothing(p) && stays_within(p, scope) ==> narrowed_scope(scope, opt_text(p.scope))
            == Some(p.scope->0@),
{
    if let Some(s) = p.scope {
        law_blank_texts_say_nothing(s@);
        law_covering_is_by_names(scope, s@);
    }
}

/// The token was signed here as a refresh token of this client, and its family
/// has not come to its end, thirty days after its start.
pub open spec fn is_own_token(
    c: RefreshClaims,
    issuer: Seq<char>,
    client_id: Seq<char>,
    now: i64,
) -> bool {
    &&& c.iss@ == issuer
    &&& c.data.typ@ == "refresh"@
    &&& c.data.client_id@ == client_id
    &&& now < c.data.family_created_at + 30 * 24 * 3600
}

/// A refresh token rotates exactly when it is presented and reads as one of
/// the client's own within its family's time, was never used or revoked, its
/// user is active, the requested scope stays within its own and the tenant
/// can sign.
pub proof fn law_good_tokens_rotate(
    p: TokenRequest,
    issuer: Seq<char>,
    client_id: Seq<char>,
    f: RefreshFacts,
    now: i64,
)
    ensures
        refresh_decision(p, issuer, client_id, f, now) is Rotate <==> {
            &&& p.refresh_token is Some && p.refresh_token->0@.len() > 0
            &&& f.decoded matches Some(c)
            &&& is_own_token(c, issuer, client_id, now)
            &&& !f.token_revoked && !f.family_revoked
            &&& is_active_user(c.sub@, f.user_active)
            &&& (asks_for_nothing(p) || stays_within(p, c.data.scope@))
            &&& f.has_key
        },
        refresh_decision(p, issuer, client_id, f, now) is Poison <==> {
            &&& p.refresh_token is Some && p.refresh_token->0@.len() > 0
            &&& f.decoded matches Some(c)
            &&& is_own_token(c, issuer, client_id, now)
            &&& f.token_revoked || f.family_revoked
        },
{
    if let Some(c) = f.decoded {
        lemma_narrowed(p, c.data.scope@);
    }
}

/// A refresh that asks for a scope, and rotates, rotates with exactly that
/// scope: the new tokens have a name if and only if it was asked for. One that
/// asks for none keeps the scope of the token.
pub proof fn law_rotation_has_the_requested_scope(
    p: TokenRequest,
    issuer: Seq<char>,
    client_id: Seq<char>,
    f: RefreshFacts,
    now: i64,
    name: Seq<char>,
)
    requires
        refresh_decision(p, issuer, client_id, f, now) is Rotate,
    ensures
        !asks_for_nothing(p) ==> refresh_decision(p, issuer, client_id, f, now)->Rotate_scope
            == p.scope->0@,
        !asks_for_nothing(p) ==> (has_word(
            refresh_decision(p, issuer, client_id, f, now)->Rotate_scope,
            name,
        ) <==> has_word(p.scope->0@, name)),
        asks_for_nothing(p) ==> refresh_decision(p, issuer, client_id, f, now)->Rotate_scope
            == f.decoded->0.data.scope@,
        has_word(refresh_decision(p, issuer, client_id, f, now)->Rotate_scope, name) ==> has_word(
            f.decoded->0.data.scope@,
            name,
        ),
{
    lemma_narrowed(p, f.decoded->0.data.scope@);
}

/// A successor lives to the end of its family, in whole minutes, and never
/// longer than thirty days.
pub proof fn law_successors_live_as_long_as_they_may(
    p: TokenRequest,
    issuer: Seq<char>,
    client_id: Seq<char>,
    f: RefreshFacts,
    now: i64,
)
    requires
        refresh_decision(p, issuer, client_id, f, now) is Rotate,
    ensures
        ({
            let seconds = refresh_decision(p, issuer, client_id, f, now)->Rotate_minutes * 60;
            let left = f.decoded->0.data.family_created_at + 30 * 24 * 3600 - now;
            &&& 0 <= seconds <= left
            &&& seconds <= 30 * 24 * 3600
            &&& left <= 30 * 24 * 3600 ==> left < seconds + 60
            &&& left >= 30 * 24 * 3600 ==> seconds == 30 * 24 * 3600
        }),
{
}

/// A used or revoked token takes its family with it: the family's marker is
/// set until the family ends, and the client is told.
pub proof fn law_reuse_marks_the_family(
    p: TokenRequest,
    issuer: Seq<char>,
    client_id: Seq<char>,
    f: RefreshFacts,
    now: i64,
)
    requires
        refresh_decision(p, issuer, client_id, f, now) is Poison,
    ensures
        refresh_decision(p, issuer, client_id, f, now)->marker == "oidc_refresh_family:"@
            + f.decoded->0.data.family@,
        refresh_decision(p, issuer, client_id, f, now)->until
            == f.decoded->0.data.family_created_at + 30 * 24 * 3600,
        reads(
            refresh_decision(p, issuer, client_id, f, now)->refusal,
            400,
            "invalid_grant"@,
            "Refresh token reuse detected; the token family has been revoked"@,
        ),
{
}

/// Each fault of a refresh is told by its own error.
pub proof fn law_refused_refreshes_are_told(
    p: TokenRequest,
    issuer: Seq<char>,
    client_id: Seq<char>,
    f: RefreshFacts,
    now: i64,
)
    requires
        refresh_decision(p, issuer, client_id, f, now) is Refuse,
    ensures
        ({
            let r = refresh_decision(p, issuer, client_id, f, now)->Refuse_0;
            if p.refresh_token is None || p.refresh_token->0@.len() == 0 {
                reads(r, 400, "invalid_request"@, "Missing required parameter: refresh_token"@)
            } else if f.decoded is None {
                reads(r, 400, "invalid_grant"@, "Unknown or expired refresh token"@)
            } else {
                let c = f.decoded->0;
                if c.iss@ != issuer || c.data.typ@ != "refresh"@ || c.data.client_id@
                    != client_id {
                    reads(
                        r,
                        400,
                        "invalid_grant"@,
                        "Refresh token was issued to a different client"@,
                    )
                } else if now >= c.data.family_created_at + 30 * 24 * 3600 {
                    reads(
                        r,
                        400,
                        "invalid_grant"@,
                        "Refresh token family has expired; re-authentication required"@,
                    )
                } else if uuid_of(c.sub@) is None || f.user_active is None {
                    reads(r, 400, "invalid_grant"@, "unknown user"@)
                } else if f.user_active == Some(false) {
                    reads(r, 400, "invalid_grant"@, "user is deactivated"@)
                } else if !asks_for_nothing(p) && !stays_within(p, c.data.scope@) {
                    reads(
                        r,
                        400,
                        "invalid_scope"@,
                        "Requested scope exceeds the scope granted to the refresh token"@,
                    )
                } else {
                    reads(r, 500, "server_error"@, "No active signing key for this tenant"@)
                }
            }
        }),
{
    if let Some(c) = f.decoded {
        lemma_narrowed(p, c.data.scope@);
    }
}

/// What rotation carries over: the user, the client, the factors, the sign-in
/// and the family with its start.
pub proof fn law_rotation_keeps_the_sign_in(
    m: MintRequest,
    c: RefreshClaims,
    jti: Seq<char>,
    client_id: Seq<char>,
    now: i64,
)
    requires
        m.carries(c, jti, client_id, now),
    ensures
        m.user_id@ == c.sub@,
        m.client_id@ == client_id,
        m.jti@ == jti,
        m.nonce is None,
        texts(m.mfa@) == texts(c.data.mfa@),
        c.auth_time matches Some(t) ==> m.auth_time == t,
        c.auth_time is None && now >= 0 ==> m.auth_time == now,
        m.family@ == c.data.family@,
        m.family_created_at == c.data.family_created_at,
{
}

/// An approved device gets tokens for the user who approved it, for the scope
/// that was asked for, without factors or nonce, as signed in now, with a
/// family of its own.
pub proof fn law_approved_devices_get_the_users_tokens(
    m: MintRequest,
    user_id: Seq<char>,
    scope: Seq<char>,
    jti: Seq<char>,
    client_id: Seq<char>,
    family: Seq<char>,
    now: i64,
)
    requires
        m.follows_approval(user_id, scope, jti, client_id, family, now),
    ensures
        m.user_id@ == user_id,
        m.scope@ == scope,
        m.jti@ == jti,
        m.client_id@ == client_id,
        m.nonce is None,
        texts(m.mfa@).len() == 0,
        m.auth_time == now,
        m.family@ == family,
        m.family_created_at == now,
        m.refresh_minutes == 30 * 24 * 60,
{
}

/// An access token is remembered as it was signed, for the hour that it lives.
pub proof fn law_access_tokens_are_remembered_for_an_hour(
    e: AccessEntry,
    access_token: Seq<char>,
    data: OidcAccessTokenData,
    user_id: Seq<char>,
    nonce: Option<Seq<char>>,
    now: i64,
)
    requires
        e.remembers(access_token, data, user_id, nonce, now),
    ensures
        e.client_id@ == data.client_id@,
        e.user_id@ == user_id,
        e.scope@ == data.scope@,
        e.jti@ == data.jti@,
        opt_text(e.nonce) == nonce,
        e.at_hash@ == base64url(sha256(encode_utf8(access_token)).take(16)),
        e.iat == now,
        e.exp == now + 3600,
{
}

/// The response hands out the very tokens, as bearer tokens for an hour, and
/// names the scope where there is one.
pub proof fn law_responses_hand_out_the_tokens(
    r: TokenResponse,
    access_token: Seq<char>,
    scope: Seq<char>,
    id_token: Option<Seq<char>>,
    refresh_token: Option<Seq<char>>,
)
    requires
        r.hands_out(access_token, scope, id_token, refresh_token),
    ensures
        r.access_token@ == access_token,
        r.token_type@ == "Bearer"@,
        r.expires_in == 3600,
        r.scope is Some <==> scope.len() > 0,
        r.scope matches Some(s) ==> s@ == scope,
        opt_text(r.id_token) == id_token,
        opt_text(r.refresh_token) == refresh_token,
{
}

/// A client's own token lasts ninety days, stands for the client's service
/// identity with the provisioning role alone, and comes without any other.
pub proof fn law_service_tokens_stand_for_the_client(
    session: ServiceSession,
    r: TokenResponse,
    client: Client,
    domain: Seq<char>,
    access_token: Seq<char>,
)
    requires
        session.stands_for(client, domain),
        r.serves(access_token),
    ensures
        session.user@ == client.uuid@,
        session.username@ == "client:"@ + client.id@,
        session.domain@ == domain,
        session.roles@.len() == 1,
        session.roles@[0]@ == "scim"@,
        session.mfa@.len() == 0,
        session.minutes == 90 * 24 * 60,
        r.access_token@ == access_token,
        r.token_type@ == "Bearer"@,
        r.expires_in == 90 * 24 * 3600,
        r.scope is None && r.id_token is None && r.refresh_token is None,
{
    assert(texts(session.roles@).len() == session.roles@.len());
    assert(texts(session.roles@)[0] == session.roles@[0]@);
}

/// New tokens are handed out exactly by the request that recorded the old one
/// as used; a request that came second takes the family with it.
pub proof fn law_one_request_rotates(recorded: Option<bool>)
    ensures
        commit_of(recorded) is Done <==> recorded == Some(true),
        commit_of(recorded) is Poison <==> recorded == Some(false),
        commit_of(recorded) matches RefreshCommitView::Poison(r) ==> reads(
            r,
            400,
            "invalid_grant"@,
            "Refresh token reuse detected; the token family has been revoked"@,
        ),
        commit_of(recorded) matches RefreshCommitView::Fail(r) ==> reads(
            r,
            500,
            "server_error"@,
            "Failed to revoke refresh token"@,
        ),
{
}

/// What a form says of a parameter, where it says it once.
pub open spec fn form_says(pairs: Seq<(String, String)>, name: Seq<char>, value: Seq<char>) -> bool {
    exists|i: int|
        0 <= i < pairs.len() && (#[trigger] pairs[i]).0@ == name && pairs[i].1@ == value && forall|
            j: int,
        | i < j < pairs.len() ==> (#[trigger] pairs[j]).0@ != name
}

proof fn lemma_form_says(pairs: Seq<(String, String)>, name: Seq<char>, value: Seq<char>)
    ensures
        form_value(pairs, name) == Some(value) <==> form_says(pairs, name, value),
    decreases pairs.len(),
{
    if form_says(pairs, name, value) {
        let i = choose|i: int|
            0 <= i < pairs.len() && (#[trigger] pairs[i]).0@ == name && pairs[i].1@ == value
                && forall|j: int| i < j < pairs.len() ==> (#[trigger] pairs[j]).0@ != name;
        law_the_last_value_counts(pairs, name, i);
    }
    if form_value(pairs, name) == Some(value) {
        let n = pairs.len() - 1;
        let front = pairs.drop_last();
        if pairs.last().0@ == name {
            assert(pairs[n].0@ == name && pairs[n].1@ == value);
        } else {
            lemma_form_says(front, name, value);
            let i = choose|i: int|
                0 <= i < front.len() && (#[trigger] front[i]).0@ == name && front[i].1@ == value
                    && forall|j: int| i < j < front.len() ==> (#[trigger] front[j]).0@ != name;
            assert(pairs[i].0@ == name && pairs[i].1@ == value);
            assert forall|j: int| i < j < pairs.len() implies (#[trigger] pairs[j]).0@ != name by {
                if j < front.len() {
                    assert(front[j] == pairs[j]);
                }
            }
        }
    }
}

/// A token request says what its form says, parameter by parameter.
pub proof fn law_token_requests_say_what_the_form_says(
    r: TokenRequest,
    pairs: Seq<(String, String)>,
    value: Seq<char>,
)
    requires
        r.holds(pairs),
    ensures
        form_says(pairs, "grant_type"@, value) ==> r.grant_type@ == value,
        form_says(pairs, "client_id"@, value) ==> r.client_id@ == value,
        opt_text(r.code) == Some(value) <==> form_says(pairs, "code"@, value),
        opt_text(r.redirect_uri) == Some(value) <==> form_says(pairs, "redirect_uri"@, value),
        opt_text(r.client_secret) == Some(value) <==> form_says(pairs, "client_secret"@, value),
        opt_text(r.code_verifier) == Some(value) <==> form_says(pairs, "code_verifier"@, value),
        opt_text(r.scope) == Some(value) <==> form_says(pairs, "scope"@, value),
        opt_text(r.refresh_token) == Some(value) <==> form_says(pairs, "refresh_token"@, value),
        opt_text(r.device_code) == Some(value) <==> form_says(pairs, "device_code"@, value),
{
    lemma_form_says(pairs, "grant_type"@, value);
    lemma_form_says(pairs, "client_id"@, value);
    lemma_form_says(pairs, "code"@, value);
    lemma_form_says(pairs, "redirect_uri"@, value);
    lemma_form_says(pairs, "client_secret"@, value);
    lemma_form_says(pairs, "code_verifier"@, value);
    lemma_form_says(pairs, "scope"@, value);
    lemma_form_says(pairs, "refresh_token"@, value);
    lemma_form_says(pairs, "device_code"@, value);
}

/// Requests about tokens say what their forms say, parameter by parameter.
pub proof fn law_token_queries_say_what_the_form_says(
    a: RevokeRequest,
    b: IntrospectRequest,
    pairs: Seq<(String, String)>,
    value: Seq<char>,
)
    requires
        a.holds(pairs),
        b.holds(pairs),
    ensures
        form_says(pairs, "token"@, value) ==> a.token@ == value && b.token@ == value,
        opt_text(a.token_type_hint) == Some(value) <==> form_says(
            pairs,
            "token_type_hint"@,
            value,
        ),
        opt_text(b.token_type_hint) == Some(value) <==> form_says(
            pairs,
            "token_type_hint"@,
            value,
        ),
        opt_text(a.client_id) == Some(value) <==> form_says(pairs, "client_id"@, value),
        opt_text(b.client_id) == Some(value) <==> form_says(pairs, "client_id"@, value),
        opt_text(a.client_secret) == Some(value) <==> form_says(pairs, "client_secret"@, value),
        opt_text(b.client_secret) == Some(value) <==> form_says(pairs, "client_secret"@, value),
{
    lemma_form_says(pairs, "token"@, value);
    lemma_form_says(pairs, "token_type_hint"@, value);
    lemma_form_says(pairs, "client_id"@, value);
    lemma_form_says(pairs, "client_secret"@, value);
}

/// A request that does not reach a code is told why.
pub proof fn law_refused_redirects_are_told(
    code: Option<Seq<char>>,
    redirect_uri: Option<Seq<char>>,
    registered: Result<Vec<String>, String>,
)
    requires
        code_request(code, redirect_uri, registered) is Err,
    ensures
        ({
            let r = code_request(code, redirect_uri, registered)->Err_0;
            if code is None || code->0.len() == 0 {
                reads(r, 400, "invalid_request"@, "Missing required parameter: code"@)
            } else if registered is Err {
                reads(
                    r,
                    500,
                    "server_error"@,
                    "Failed to load redirect URIs: "@ + registered->Err_0@,
                )
            } else if redirect_uri is None {
                reads(r, 400, "invalid_request"@, "redirect_uri missing"@)
            } else {
                reads(r, 400, "invalid_grant"@, "redirect_uri does not match"@)
            }
        }),
{
}

/// A token request that runs no grant is told why.
pub proof fn law_refused_grants_are_told(
    grant_type: Seq<char>,
    has_tenant: bool,
    client: Result<Client, String>,
)
    requires
        token_gate(grant_type, has_tenant, client) is Err,
    ensures
        ({
            let r = token_gate(grant_type, has_tenant, client)->Err_0;
            if grant_type.len() == 0 {
                r.description == "Missing required parameter: grant_type"@
            } else if !has_tenant {
                r.description == "Unknown tenant"@
            } else if client is Err {
                r.description == client->Err_0@
            } else if !(grant_type == "authorization_code"@ || grant_type == "refresh_token"@
                || grant_type == "client_credentials"@ || grant_type
                == "urn:ietf:params:oauth:grant-type:device_code"@) {
                reads(
                    r,
                    400,
                    "unsupported_grant_type"@,
                    "Unsupported grant_type: "@ + grant_type,
                )
            } else {
                reads(
                    r,
                    400,
                    "unauthorized_client"@,
                    "client '"@ + client->Ok_0.id@ + "' is not registered for grant_type '"@
                        + grant_type + "'"@,
                )
            }
        }),
{
}

/// A code that is not issued is told why, and what cannot be signed by what it
/// is.
pub proof fn law_failed_codes_are_told(
    expires_at: i64,
    recorded: Result<(), String>,
    challenge_stored: Option<bool>,
)
    requires
        -377705023201 <= expires_at <= 253402207200,
    ensures
        recorded matches Err(e) ==> (issue_failure(expires_at, recorded, challenge_stored) matches
            Some(f) && f.0 == "Failed to record authorization grant: "@ + e@),
        recorded is Ok && challenge_stored == Some(false) ==> (issue_failure(
            expires_at,
            recorded,
            challenge_stored,
        ) matches Some(f) && f.0 == "Failed to store PKCE challenge"@),
        signing_fault(Signing::Key) == "No active signing key for this tenant"@,
        signing_fault(Signing::AccessToken) == "Failed to sign access token"@,
        signing_fault(Signing::IdToken) == "Failed to sign ID token"@,
        signing_fault(Signing::RefreshToken) == "Failed to sign refresh token"@,
        signing_fault(Signing::ServiceToken) == "Failed to sign token"@,
{
}

/// Codes, parked requests and revoked families are kept under keys of their
/// own: two keys of a kind are the same exactly for the same thing, and keys
/// of two kinds never are.
pub proof fn law_keys_tell_things_apart(a: Seq<char>, b: Seq<char>)
    ensures
        code_key_of(a) == "auth_code:"@ + a,
        pending_key_of(a) == "auth_pending:"@ + a,
        family_marker(a) == "oidc_refresh_family:"@ + a,
        code_key_of(a) == code_key_of(b) <==> a == b,
        pending_key_of(a) == pending_key_of(b) <==> a == b,
        family_marker(a) == family_marker(b) <==> a == b,
        code_key_of(a) != pending_key_of(b),
        code_key_of(a) != family_marker(b),
        pending_key_of(a) != family_marker(b),
{
    reveal_strlit("auth_code:");
    reveal_strlit("auth_pending:");
    reveal_strlit("oidc_refresh_family:");
    assert(code_key_of(a).skip(10) =~= a);
    assert(code_key_of(b).skip(10) =~= b);
    assert(pending_key_of(a).skip(13) =~= a);
    assert(pending_key_of(b).skip(13) =~= b);
    assert(family_marker(a).skip(20) =~= a);
    assert(family_marker(b).skip(20) =~= b);
    assert(code_key_of(a)[5] == 'c');
    assert(pending_key_of(b)[5] == 'p');
    assert(code_key_of(a)[0] == 'a');
    assert(pending_key_of(a)[0] == 'a');
    assert(family_marker(b)[0] == 'o');
}

} // verus!
