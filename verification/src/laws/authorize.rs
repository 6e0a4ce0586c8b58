//! Which authorization requests are granted, what is granted to them, and how
//! a parked request goes on.

use crate::laws::words::{
    has_word, is_challenge_char, is_scope_name, law_blank_texts_say_nothing,
    law_challenges_are_unreserved_text, law_covering_is_by_names,
    law_requested_names_are_known_and_registered, says_something,
};
use crate::oidc::authorize::{
    ask_consent_location, authorize_answer, authorize_checks, folded_method, issued_location,
    pkce_view, sign_in_location, takes_step, tls_of, AuthorizeFacts, AuthorizeGrant,
    AuthorizeGrantView, AuthorizeRequest, AuthorizeStep, ConsentLookup, IssueRequest, PendingAuth,
    Session,
};
use crate::oidc::client::Client;
use crate::oidc::consent::{
    consent_hop, issued_hop, may_see, reparks, resume_step, resumed_key, shown_key, submit_step,
    ConsentStepView, ResumeStepView,
};
use crate::oidc::urls::{callback_url, consent_url, error_url, login_url};
use crate::outside::lowercase;
use crate::text::{opt_text, texts};
use vstd::prelude::*;

verus! {

/// One of the texts reads `s`.
pub open spec fn lists(v: Seq<String>, s: Seq<char>) -> bool {
    exists|i: int| 0 <= i < v.len() && (#[trigger] v[i])@ == s
}

pub(crate) proof fn lemma_lists(v: Seq<String>, s: Seq<char>)
    ensures
        texts(v).contains(s) <==> lists(v, s),
{
    if texts(v).contains(s) {
        let i = choose|i: int| 0 <= i < texts(v).len() && texts(v)[i] == s;
        assert(v[i]@ == s);
    }
    if lists(v, s) {
        let i = choose|i: int| 0 <= i < v.len() && (#[trigger] v[i])@ == s;
        assert(texts(v)[i] == s);
    }
}

/// The request's challenge can be used: its text is well formed and its method
/// is `s256`, or `plain` over TLS, in any spelling. Only a client that
/// authenticates may do without.
pub open spec fn challenge_in_order(p: AuthorizeRequest, client: Client, tls: bool) -> bool {
    match p.code_challenge {
        None => client.token_endpoint_auth_method@ != "none"@,
        Some(c) => {
            &&& 43 <= c@.len() <= 128
            &&& forall|i: int| 0 <= i < c@.len() ==> is_challenge_char(#[trigger] c@[i])
            &&& match p.code_challenge_method {
                None => tls,
                Some(m) => lowercase(m@) == "s256"@ || (lowercase(m@) == "plain"@ && tls),
            }
        },
    }
}

/// The scope that the request asks for: its own where that says something.
pub open spec fn asked_scope(p: AuthorizeRequest, client: Client) -> Seq<char> {
    if p.scope is Some && says_something(p.scope->0@) {
        p.scope->0@
    } else {
        client.scope@
    }
}

/// Every name of the scope is one of the four, and registered for the client.
pub open spec fn scope_in_order(scope: Seq<char>, client: Client) -> bool {
    forall|w: Seq<char>| #[trigger]
        has_word(scope, w) ==> is_scope_name(w) && lists(client.registered_scopes@, w)
}

/// Everything that an authorization request is asked for holds.
pub open spec fn request_in_order(p: AuthorizeRequest, f: AuthorizeFacts) -> bool {
    &&& p.response_type@ == "code"@
    &&& p.client_id@.len() > 0
    &&& f.tenant matches Some(tenant)
    &&& f.client matches Some(client)
    &&& client.domain_id@ == tenant@
    &&& lists(client.response_types@, "code"@)
    &&& p.redirect_uri matches Some(uri)
    &&& f.registered_uris matches Ok(uris)
    &&& lists(uris@, uri@)
    &&& challenge_in_order(p, client, f.tls)
    &&& scope_in_order(asked_scope(p, client), client)
}

proof fn lemma_request(p: AuthorizeRequest, f: AuthorizeFacts)
    requires
        f.client is Some,
    ensures
        texts(f.client->0.response_types@).contains("code"@) <==> lists(
            f.client->0.response_types@,
            "code"@,
        ),
        p.redirect_uri is Some && f.registered_uris is Ok ==> (texts(
            f.registered_uris->Ok_0@,
        ).contains(p.redirect_uri->0@) <==> lists(f.registered_uris->Ok_0@, p.redirect_uri->0@)),
        crate::oidc::authorize::effective_scope(opt_text(p.scope), f.client->0.scope@)
            == asked_scope(p, f.client->0),
        crate::oidc::scope::scope_fault(
            asked_scope(p, f.client->0),
            texts(f.client->0.registered_scopes@),
        ) is None <==> scope_in_order(asked_scope(p, f.client->0), f.client->0),
        crate::oidc::authorize::pkce_choice(
            opt_text(p.code_challenge),
            folded_method(p),
            f.client->0.token_endpoint_auth_method@ == "none"@,
            f.tls,
        ) is Ok <==> challenge_in_order(p, f.client->0, f.tls),
{
    let client = f.client->0;
    lemma_lists(client.response_types@, "code"@);
    if p.redirect_uri is Some && f.registered_uris is Ok {
        lemma_lists(f.registered_uris->Ok_0@, p.redirect_uri->0@);
    }
    if let Some(s) = p.scope {
        law_blank_texts_say_nothing(s@);
    }
    if let Some(c) = p.code_challenge {
        law_challenges_are_unreserved_text(c@);
        reveal_strlit("s256");
        reveal_strlit("plain");
        assert("s256"@.len() != "plain"@.len());
    }
    let scope = asked_scope(p, client);
    let registered = texts(client.registered_scopes@);
    law_requested_names_are_known_and_registered(scope, registered);
    assert forall|w: Seq<char>| registered.contains(w) == #[trigger] lists(
        client.registered_scopes@,
        w,
    ) by {
        lemma_lists(client.registered_scopes@, w);
    }
    if scope_in_order(scope, client) {
        assert forall|w: Seq<char>| #[trigger] has_word(scope, w) implies is_scope_name(w)
            && registered.contains(w) by {
            lemma_lists(client.registered_scopes@, w);
        }
    }
    if forall|w: Seq<char>| #[trigger]
        has_word(scope, w) ==> is_scope_name(w) && registered.contains(w) {
        assert forall|w: Seq<char>| #[trigger] has_word(scope, w) implies is_scope_name(w)
            && lists(client.registered_scopes@, w) by {
            lemma_lists(client.registered_scopes@, w);
        }
    }
}

/// A request is granted exactly when everything that is asked of it holds: it
/// wants a code, names a client of the tenant that is registered for codes,
/// redirects to any one of the client's registered URIs, brings a challenge
/// in order where one is needed, and asks for names that the client may ask
/// for.
pub proof fn law_requests_in_order_are_granted(p: AuthorizeRequest, f: AuthorizeFacts)
    ensures
        authorize_answer(p, f) is Ok <==> request_in_order(p, f),
{
    if f.client is Some {
        lemma_request(p, f);
    }
}

/// Any registered redirect URI will do, and it is the one that the browser is
/// sent back to.
pub proof fn law_every_registered_uri_is_granted(
    p: AuthorizeRequest,
    f: AuthorizeFacts,
    client: Client,
    uris: Vec<String>,
    k: int,
    i: int,
)
    requires
        p.response_type@ == "code"@,
        p.client_id@.len() > 0,
        f.tenant is Some,
        f.client == Some(client),
        client.domain_id@ == f.tenant->0@,
        0 <= k < client.response_types@.len(),
        client.response_types@[k]@ == "code"@,
        challenge_in_order(p, client, f.tls),
        scope_in_order(asked_scope(p, client), client),
        f.registered_uris == Ok::<Vec<String>, String>(uris),
        0 <= i < uris@.len(),
        p.redirect_uri is Some,
        p.redirect_uri->0@ == uris@[i]@,
    ensures
        authorize_answer(p, f) matches Ok(g) && g.callback_uri == uris@[i]@,
{
    assert(lists(uris@, uris@[i]@));
    assert(lists(client.response_types@, "code"@));
    law_requests_in_order_are_granted(p, f);
    law_grants_are_what_was_asked(p, f);
}

/// What is granted is what was asked: the request's own redirect URI, its own
/// scope where it says one and the client's otherwise, and its own challenge
/// under the method it names, `plain` where it names none.
pub proof fn law_grants_are_what_was_asked(p: AuthorizeRequest, f: AuthorizeFacts)
    requires
        authorize_answer(p, f) is Ok,
    ensures
        p.redirect_uri is Some && authorize_answer(p, f)->Ok_0.callback_uri == p.redirect_uri->0@,
        f.client is Some && authorize_answer(p, f)->Ok_0.scope == asked_scope(p, f.client->0),
        p.code_challenge is None ==> authorize_answer(p, f)->Ok_0.pkce is None,
        p.code_challenge matches Some(c) ==> (authorize_answer(p, f)->Ok_0.pkce matches Some(k)
            && k.1 == c@ && k.0 == (match p.code_challenge_method {
            None => "plain"@,
            Some(m) => lowercase(m@),
        })),
{
    lemma_request(p, f);
}

/// The refusal that a fault is told by.
pub open spec fn refused_with(
    p: AuthorizeRequest,
    f: AuthorizeFacts,
    error: Seq<char>,
    description: Seq<char>,
) -> bool {
    authorize_answer(p, f) == Err::<AuthorizeGrantView, Seq<char>>(
        error_url("/error"@, error, description, opt_text(p.state)),
    )
}

/// A request that does not want a code, or comes from nobody that is known
/// here, is told so.
pub proof fn law_strangers_are_told(p: AuthorizeRequest, f: AuthorizeFacts)
    ensures
        p.response_type@ != "code"@ ==> refused_with(
            p,
            f,
            "unsupported_response_type"@,
            "response_type '"@ + p.response_type@ + "' is not supported"@,
        ),
        p.response_type@ == "code"@ && p.client_id@.len() == 0 ==> refused_with(
            p,
            f,
            "invalid_client"@,
            "Missing required parameter: client_id"@,
        ),
        p.response_type@ == "code"@ && p.client_id@.len() > 0 && f.tenant is None ==> refused_with(
            p,
            f,
            "invalid_client"@,
            "Unknown domain/tenant"@,
        ),
        p.response_type@ == "code"@ && p.client_id@.len() > 0 && f.tenant is Some
            && f.client is None ==> refused_with(
            p,
            f,
            "invalid_client"@,
            "Unknown client '"@ + p.client_id@ + "'"@,
        ),
        p.response_type@ == "code"@ && p.client_id@.len() > 0 && f.tenant is Some
            && f.client is Some && !lists(f.client->0.response_types@, "code"@) ==> refused_with(
            p,
            f,
            "unauthorized_client"@,
            "client '"@ + f.client->0.id@ + "' is not registered for response_type '"@ + "code"@
                + "'"@,
        ),
{
    if f.client is Some {
        lemma_request(p, f);
    }
}

/// The client is known here and registered for codes.
pub open spec fn client_in_order(p: AuthorizeRequest, f: AuthorizeFacts) -> bool {
    &&& p.response_type@ == "code"@
    &&& p.client_id@.len() > 0
    &&& f.tenant is Some
    &&& f.client is Some
    &&& lists(f.client->0.response_types@, "code"@)
}

/// A redirect URI that is missing, cannot be looked up or is not registered is
/// refused, each with its own error.
pub proof fn law_foreign_redirects_are_told(p: AuthorizeRequest, f: AuthorizeFacts)
    requires
        client_in_order(p, f),
    ensures
        p.redirect_uri is None ==> refused_with(
            p,
            f,
            "invalid_request"@,
            "Missing required parameter: redirect_uri"@,
        ),
        p.redirect_uri is Some && f.registered_uris is Err ==> refused_with(
            p,
            f,
            "server_error"@,
            "Failed to load redirect URIs: "@ + f.registered_uris->Err_0@,
        ),
        p.redirect_uri is Some && f.registered_uris is Ok && !lists(
            f.registered_uris->Ok_0@,
            p.redirect_uri->0@,
        ) ==> refused_with(
            p,
            f,
            "invalid_redirect_uri"@,
            "Redirect URI '"@ + p.redirect_uri->0@ + "' is not registered for this client"@,
        ),
{
    lemma_request(p, f);
}

/// With client and redirect URI in order, a bad challenge, another tenant's
/// client and a bad scope are refused, in this order, each with its own error.
pub proof fn law_bad_requests_are_told(p: AuthorizeRequest, f: AuthorizeFacts)
    requires
        client_in_order(p, f),
        p.redirect_uri is Some && f.registered_uris is Ok,
        lists(f.registered_uris->Ok_0@, p.redirect_uri->0@),
    ensures
        p.code_challenge is None && f.client->0.token_endpoint_auth_method@ == "none"@
            ==> refused_with(p, f, "invalid_request"@, "PKCE is required for public clients"@),
        p.code_challenge is Some && p.code_challenge_method is Some && lowercase(
            p.code_challenge_method->0@,
        ) != "s256"@ && lowercase(p.code_challenge_method->0@) != "plain"@ ==> refused_with(
            p,
            f,
            "invalid_request"@,
            "Unsupported code_challenge_method: '"@ + lowercase(p.code_challenge_method->0@)
                + "'"@,
        ),
        p.code_challenge is Some && !f.tls && (p.code_challenge_method is None || lowercase(
            p.code_challenge_method->0@,
        ) == "plain"@) ==> refused_with(
            p,
            f,
            "invalid_request"@,
            "code_challenge_method 'plain' requires TLS"@,
        ),
        challenge_in_order(p, f.client->0, f.tls) && f.client->0.domain_id@ != f.tenant->0@
            ==> refused_with(
            p,
            f,
            "invalid_client"@,
            "Client is not registered for this tenant"@,
        ),
        challenge_in_order(p, f.client->0, f.tls) && f.client->0.domain_id@ == f.tenant->0@
            && !scope_in_order(asked_scope(p, f.client->0), f.client->0) ==> (authorize_checks(
            p,
            f,
            folded_method(p),
        ) matches Err(e) && e.0 == "invalid_scope"@),
{
    lemma_request(p, f);
    reveal_strlit("s256");
    reveal_strlit("plain");
    assert("s256"@.len() != "plain"@.len());
}

/// The user's earlier consent names everything that `scope` names.
pub open spec fn consent_names_all(lookup: ConsentLookup, scope: Seq<char>) -> bool {
    lookup matches Ok(Some(granted)) && forall|w: Seq<char>| #[trigger]
        has_word(scope, w) ==> has_word(granted@, w)
}

/// Nobody signed in: the request waits for a sign-in, bound to no user. Signed
/// in with a consent that names all that is asked: a code for that user.
/// Signed in without: the request waits for that user's consent. The store
/// failed: no code.
pub proof fn law_codes_need_a_session_and_consent(
    r: AuthorizeStep,
    p: AuthorizeRequest,
    g: AuthorizeGrant,
    session: Option<Session>,
    lookup: ConsentLookup,
    now: i64,
)
    requires
        takes_step(r, p, g, session, lookup, now),
    ensures
        r is Login <==> session is None,
        r is Failed <==> session is Some && lookup is Err,
        r is Issue <==> session is Some && consent_names_all(lookup, g.scope@),
        r is Consent <==> session is Some && lookup is Ok && !consent_names_all(lookup, g.scope@),
        r matches AuthorizeStep::Login(e) ==> e.park_user is None && keeps_request(e, p, g)
            && e.created_at == now && e.stage@ == "login"@,
        r matches AuthorizeStep::Consent(e) ==> opt_text(e.park_user) == Some(session->0.user@)
            && keeps_request(e, p, g) && e.created_at == now && e.stage@ == "consent"@,
        r matches AuthorizeStep::Issue(i) ==> answers_request(i, p, g) && signed_by(
            i,
            session->0,
            now,
        ),
{
    if let Ok(Some(granted)) = lookup {
        law_covering_is_by_names(granted@, g.scope@);
    }
    if let AuthorizeStep::Issue(i) = r {
        assert(g@.pkce == pkce_view(g.pkce));
        lemma_signed(i, session->0, now);
    }
}

/// A parked entry holds the request unchanged.
pub open spec fn keeps_request(e: PendingAuth, p: AuthorizeRequest, g: AuthorizeGrant) -> bool {
    &&& e.client_id@ == p.client_id@
    &&& e.callback_uri@ == g.callback_uri@
    &&& e.scope@ == g.scope@
    &&& opt_text(e.state) == opt_text(p.state)
    &&& opt_text(e.nonce) == opt_text(p.nonce)
    &&& match g.pkce {
        Some(k) => opt_text(e.code_challenge) == Some(k.challenge@) && opt_text(
            e.code_challenge_method,
        ) == Some(k.method@),
        None => e.code_challenge is None && e.code_challenge_method is None,
    }
}

/// A code is asked for what the request said.
pub open spec fn answers_request(i: IssueRequest, p: AuthorizeRequest, g: AuthorizeGrant) -> bool {
    &&& i.client_id@ == p.client_id@
    &&& i.callback_uri@ == g.callback_uri@
    &&& i.scope@ == g.scope@
    &&& opt_text(i.nonce) == opt_text(p.nonce)
    &&& match g.pkce {
        Some(k) => i.pkce is Some && i.pkce->0.challenge@ == k.challenge@ && i.pkce->0.method@
            == k.method@,
        None => i.pkce is None,
    }
}

/// A code is asked for in the name of the session's user, with the session's
/// factors and the time of its sign-in.
pub open spec fn signed_by(i: IssueRequest, session: Session, now: i64) -> bool {
    &&& i.user_id@ == session.user@
    &&& i.mfa@.len() == session.mfa@.len()
    &&& forall|k: int|
        0 <= k < session.mfa@.len() ==> (#[trigger] i.mfa@[k])@ == session.mfa@[k]@
    &&& match session.auth_time {
        Some(t) => i.auth_time == t,
        None => now >= 0 ==> i.auth_time == now,
    }
}

proof fn lemma_signed(i: IssueRequest, session: Session, now: i64)
    requires
        i.user_id@ == session.user@,
        texts(i.mfa@) == texts(session.mfa@),
        i.auth_time == crate::oidc::authorize::auth_time_of(session, now),
    ensures
        signed_by(i, session, now),
{
    assert(i.mfa@.len() == texts(i.mfa@).len());
    assert(session.mfa@.len() == texts(session.mfa@).len());
    assert forall|k: int| 0 <= k < session.mfa@.len() implies (#[trigger] i.mfa@[k])@
        == session.mfa@[k]@ by {
        assert(texts(i.mfa@)[k] == i.mfa@[k]@);
        assert(texts(session.mfa@)[k] == session.mfa@[k]@);
    }
}

/// Waiting loses nothing: a granted request that is parked, resumed, parked
/// again for consent and at last continued leads to the very code that it
/// would have led to at once.
pub proof fn law_waiting_changes_nothing(
    p: AuthorizeRequest,
    f: AuthorizeFacts,
    g: AuthorizeGrant,
    user: Option<Seq<char>>,
    parked: PendingAuth,
    again: PendingAuth,
    session: Session,
    early: IssueRequest,
    late: IssueRequest,
    then: i64,
    now: i64,
)
    requires
        authorize_answer(p, f) == Ok::<AuthorizeGrantView, Seq<char>>(g@),
        parked.parks(p, g, user, then),
        reparks(again, parked, session.user@, now),
        early.continues(parked, session, now),
        late.continues(again, session, now),
    ensures
        answers_request(early, p, g) && signed_by(early, session, now),
        answers_request(late, p, g) && signed_by(late, session, now),
        keeps_request(parked, p, g) && keeps_request(again, p, g),
        opt_text(again.park_user) == Some(session.user@),
        again.created_at == now && again.stage@ == "consent"@,
{
    lemma_request(p, f);
    assert(g@.pkce == pkce_view(g.pkce));
    lemma_signed(early, session, now);
    lemma_signed(late, session, now);
}

/// Whether the parked request is the user's to continue.
pub open spec fn is_theirs(pending: Option<PendingAuth>, user: Seq<char>) -> bool {
    pending matches Some(p) && (p.park_user matches Some(u) ==> u@ == user)
}

/// The client still belongs to the tenant that serves the request.
pub open spec fn client_is_here(tenant: Option<String>, client_domain: Option<String>) -> bool {
    tenant is Some && client_domain is Some && client_domain->0@ == tenant->0@
}

/// A parked request goes on to a code exactly when it is the user's own, its
/// client is still here and the user's consent names all that it asks for;
/// without that consent it goes on to the consent screen.
pub proof fn law_own_requests_are_resumed(
    user: Seq<char>,
    pending: Option<PendingAuth>,
    tenant: Option<String>,
    client_domain: Option<String>,
    lookup: ConsentLookup,
)
    ensures
        resume_step(user, pending, tenant, client_domain, lookup) is Issue <==> is_theirs(
            pending,
            user,
        ) && client_is_here(tenant, client_domain) && consent_names_all(
            lookup,
            pending->0.scope@,
        ),
        resume_step(user, pending, tenant, client_domain, lookup) is Consent <==> is_theirs(
            pending,
            user,
        ) && client_is_here(tenant, client_domain) && lookup is Ok && !consent_names_all(
            lookup,
            pending->0.scope@,
        ),
{
    if pending is Some {
        if let Ok(Some(granted)) = lookup {
            law_covering_is_by_names(granted@, pending->0.scope@);
        }
    }
}

/// The consent screen is shown to whoever may continue the request.
pub proof fn law_own_requests_are_shown(user: Seq<char>, pending: Option<PendingAuth>)
    ensures
        may_see(pending, user) <==> is_theirs(pending, user),
{
}

/// An accepted consent leads to a code exactly when the request is the user's
/// own and its client is still here.
pub proof fn law_accepted_consent_is_acted_on(
    user: Seq<char>,
    pending: Option<PendingAuth>,
    decision: Seq<char>,
    tenant: Option<String>,
    client_domain: Option<String>,
)
    ensures
        submit_step(user, pending, decision, tenant, client_domain) is Replace <==> is_theirs(
            pending,
            user,
        ) && decision == "accept"@ && client_is_here(tenant, client_domain),
{
}

/// A request that was parked leads to the page that waits for it, told under
/// which state; one that could not be parked leads to the error page.
pub proof fn law_parked_requests_lead_to_their_page(
    p: AuthorizeRequest,
    callback_uri: Seq<char>,
    csrf: Seq<char>,
    expired: bool,
    stored: bool,
)
    ensures
        stored ==> sign_in_location(p, callback_uri, csrf, stored, expired) == login_url(
            p.client_id@,
            csrf,
            callback_uri,
            expired,
        ) && ask_consent_location(opt_text(p.state), csrf, stored) == consent_url(csrf),
        !stored ==> sign_in_location(p, callback_uri, csrf, stored, expired) == error_url(
            "/error"@,
            "server_error"@,
            "Failed to store pending authorization request"@,
            opt_text(p.state),
        ) && ask_consent_location(opt_text(p.state), csrf, stored) == error_url(
            "/error"@,
            "server_error"@,
            "Failed to store pending consent request"@,
            opt_text(p.state),
        ),
        stored ==> consent_hop(opt_text(p.state), csrf, stored).status == 200 && consent_hop(
            opt_text(p.state),
            csrf,
            stored,
        ).url == consent_url(csrf),
        !stored ==> consent_hop(opt_text(p.state), csrf, stored).status == 500,
{
}

/// An issued code goes to the callback of its request, with the client's own
/// state; one that could not be issued goes to the error page, never there.
pub proof fn law_codes_go_to_their_callback(
    pending: PendingAuth,
    scope: Option<Seq<char>>,
    code: Result<String, String>,
)
    ensures
        code matches Ok(c) ==> {
            &&& issued_location(pending.callback_uri@, opt_text(pending.state), scope, code)
                == callback_url(pending.callback_uri@, c@, opt_text(pending.state), scope)
            &&& issued_hop(pending, code).status == 200
            &&& issued_hop(pending, code).url == callback_url(
                pending.callback_uri@,
                c@,
                opt_text(pending.state),
                Some(pending.scope@),
            )
        },
        code matches Err(e) ==> {
            &&& issued_location(pending.callback_uri@, opt_text(pending.state), scope, code)
                == error_url("/error"@, "server_error"@, e@, opt_text(pending.state))
            &&& issued_hop(pending, code).status == 500
            &&& issued_hop(pending, code).url == error_url(
                "/error"@,
                "server_error"@,
                e@,
                opt_text(pending.state),
            )
        },
{
}

/// A parked request is named by its state, and only by somebody with a
/// session.
pub proof fn law_states_name_parked_requests(has_session: bool, state: Option<Seq<char>>)
    ensures
        resumed_key(has_session, state) is Ok <==> has_session && state is Some && state->0.len()
            > 0,
        shown_key(has_session, state) is Ok <==> has_session && state is Some && state->0.len() > 0,
        resumed_key(has_session, state) matches Ok(k) ==> k == "auth_pending:"@ + state->0
            && shown_key(has_session, state)->Ok_0 == k,
        resumed_key(has_session, state) matches Err(h) ==> h.status == (if has_session {
            400int
        } else {
            401
        }) && h.url == (if has_session {
            "/login?error=invalid_state"@
        } else {
            "/login?error=session_expired"@
        }),
        shown_key(has_session, state) matches Err(p) ==> p.status == (if has_session {
            400int
        } else {
            401
        }),
{
}

/// Where a parked request cannot go on, the browser is told why: a request
/// that is not the user's is as unknown as any other state, a declined one is
/// told to the client, and a client that is not here any more is unknown.
pub proof fn law_stopped_requests_are_told(
    user: Seq<char>,
    pending: Option<PendingAuth>,
    decision: Seq<char>,
    tenant: Option<String>,
    client_domain: Option<String>,
    lookup: ConsentLookup,
)
    ensures
        !is_theirs(pending, user) ==> (submit_step(
            user,
            pending,
            decision,
            tenant,
            client_domain,
        ) matches ConsentStepView::Answer(h) && h.status == 400 && h.url
            == "/login?error=invalid_state"@) && (resume_step(
            user,
            pending,
            tenant,
            client_domain,
            lookup,
        ) matches ResumeStepView::Answer(g) && g.status == 400 && g.url
            == "/login?error=invalid_state"@),
        is_theirs(pending, user) && decision != "accept"@ ==> (submit_step(
            user,
            pending,
            decision,
            tenant,
            client_domain,
        ) matches ConsentStepView::Answer(h) && h.status == 200 && h.url == error_url(
            pending->0.callback_uri@,
            "access_denied"@,
            "User denied consent for this client."@,
            opt_text(pending->0.state),
        )),
        is_theirs(pending, user) && decision == "accept"@ && tenant is Some && !client_is_here(
            tenant,
            client_domain,
        ) ==> (submit_step(user, pending, decision, tenant, client_domain) matches
            ConsentStepView::Answer(h) && h.status == 400 && h.url == error_url(
            "/error"@,
            "invalid_client"@,
            "Unknown client '"@ + pending->0.client_id@ + "'"@,
            opt_text(pending->0.state),
        )),
        is_theirs(pending, user) && client_is_here(tenant, client_domain) && lookup is Err ==> (
        resume_step(user, pending, tenant, client_domain, lookup) matches ResumeStepView::Answer(h)
            && h.status == 500 && h.url == error_url(
            "/error"@,
            "server_error"@,
            "Failed to query consent grants: "@ + lookup->Err_0@,
            opt_text(pending->0.state),
        )),
{
}

/// Whether a request came over TLS is what a trusted proxy says, in any
/// spelling, and else what the connection says.
pub proof fn law_trusted_proxies_tell_of_tls(
    trusted: bool,
    forwarded: Seq<char>,
    scheme_is_https: bool,
)
    ensures
        tls_of(trusted, None, scheme_is_https) == scheme_is_https,
        tls_of(false, Some(forwarded), scheme_is_https) == scheme_is_https,
        tls_of(true, Some("https"@), scheme_is_https),
        tls_of(true, Some(forwarded), scheme_is_https) ==> forwarded.len() == 5,
        forwarded == "http"@ ==> !tls_of(true, Some(forwarded), scheme_is_https),
{
    reveal_strlit("https");
    reveal_strlit("http");
}

/// A challenge that is not well formed is told what one must be.
pub proof fn law_malformed_challenges_are_told(p: AuthorizeRequest, f: AuthorizeFacts, c: String)
    requires
        client_in_order(p, f),
        p.redirect_uri is Some && f.registered_uris is Ok,
        lists(f.registered_uris->Ok_0@, p.redirect_uri->0@),
        p.code_challenge == Some(c),
        f.tls,
        p.code_challenge_method is None || lowercase(p.code_challenge_method->0@) == "s256"@
            || lowercase(p.code_challenge_method->0@) == "plain"@,
        !(43 <= c@.len() <= 128 && forall|i: int|
            0 <= i < c@.len() ==> is_challenge_char(#[trigger] c@[i])),
    ensures
        refused_with(
            p,
            f,
            "invalid_request"@,
            "Malformed code_challenge: must be 43-128 chars of [A-Z a-z 0-9 -._~]"@,
        ),
{
    lemma_request(p, f);
    law_challenges_are_unreserved_text(c@);
}

/// A store that fails is told instead of a code.
pub proof fn law_failed_lookups_are_told(
    r: AuthorizeStep,
    p: AuthorizeRequest,
    g: AuthorizeGrant,
    session: Session,
    e: String,
    now: i64,
)
    requires
        takes_step(r, p, g, Some(session), Err(e), now),
    ensures
        r matches AuthorizeStep::Failed(url) && url@ == error_url(
            "/error"@,
            "server_error"@,
            "Failed to query consent grants: "@ + e@,
            opt_text(p.state),
        ),
{
}

/// A resumed request that cannot be parked for consent, one whose tenant is not
/// there, and a consent screen that is asked for without a state are told so.
pub proof fn law_failed_continuations_are_told(
    user: Seq<char>,
    pending: PendingAuth,
    state: Option<Seq<char>>,
    csrf: Seq<char>,
    decision: Seq<char>,
    client_domain: Option<String>,
    lookup: ConsentLookup,
)
    ensures
        consent_hop(state, csrf, false).url == error_url(
            "/error"@,
            "server_error"@,
            "Failed to store pending consent request"@,
            state,
        ),
        is_theirs(Some(pending), user) ==> (resume_step(
            user,
            Some(pending),
            None,
            client_domain,
            lookup,
        ) matches ResumeStepView::Answer(h) && h.status == 500 && h.url == error_url(
            "/error"@,
            "server_error"@,
            "Tenant unavailable"@,
            None,
        )),
        is_theirs(Some(pending), user) && decision == "accept"@ ==> (submit_step(
            user,
            Some(pending),
            decision,
            None,
            client_domain,
        ) matches ConsentStepView::Answer(h) && h.status == 500),
        shown_key(true, None) matches Err(p) && p.detail == "Missing state"@,
{
}

} // verus!
