//! Registration of clients: which registrations are accepted, as what, and
//! who manages them afterwards.

use crate::laws::tokens::reads;
use crate::laws::words::{
    has_word, is_scope_name, law_blank_texts_say_nothing, law_scope_names_stand_between_spaces,
    law_words_are_in_order, lemma_only_word, lemma_words_of_trimmed, says_something, word_at,
};
use crate::oidc::client::Client;
use crate::oidc_ext::registration::{
    backchannel_fault, dcr_grant_types, is_credential, known_scopes, management_fault, manages,
    may_manage, meta_fault, opt_texts, register_gate, register_next, registered_grants,
    registered_responses, registered_scope, registration_verdict, settings_fault, update_next,
    uri_fault, uris_fault, ClientMeta, ClientMetaRequest, ClientMetadata, Credentials,
    RegisterActionView, RegisterEvent, RegisterRequest, RegisterResponse, RegistrationClaims,
    UpdateEvent, ValidatedView,
};
use crate::outside::url_parts;
use crate::text::{
    first_outside, is_space, joined, lemma_none_outside, opt_text, starts_with, texts, trimmed,
    words,
};
use vstd::prelude::*;

verus! {

/// The URI is a URL without a fragment, over https, or over http on the machine
/// itself.
pub open spec fn usable_uri(uri: Seq<char>) -> bool {
    &&& url_parts(uri) matches Ok(u)
    &&& u.fragment is None
    &&& u.scheme == "https"@ || (u.scheme == "http"@ && (u.host == Some("127.0.0.1"@) || u.host
        == Some("localhost"@) || u.host == Some("[::1]"@) || u.host == Some("::1"@)))
}

/// Every one of the URIs is usable.
pub open spec fn usable_uris(uris: Seq<String>) -> bool {
    forall|i: int| 0 <= i < uris.len() ==> usable_uri((#[trigger] uris[i])@)
}

/// A client's URI is accepted exactly when it is usable, and a list of them
/// exactly when each is.
pub proof fn law_usable_uris_are_accepted(uri: Seq<char>, uris: Seq<String>)
    ensures
        uri_fault(uri) is None <==> usable_uri(uri),
        uris_fault(texts(uris)) is None <==> usable_uris(uris),
{
    lemma_uri(uri);
    lemma_uris(texts(uris));
    assert(texts(uris).len() == uris.len());
    if usable_uris(uris) {
        assert forall|i: int| 0 <= i < texts(uris).len() implies usable_uri(
            #[trigger] texts(uris)[i],
        ) by {
            assert(texts(uris)[i] == uris[i]@);
        }
    }
    if forall|i: int| 0 <= i < texts(uris).len() ==> usable_uri(#[trigger] texts(uris)[i]) {
        assert forall|i: int| 0 <= i < uris.len() implies usable_uri((#[trigger] uris[i])@) by {
            assert(texts(uris)[i] == uris[i]@);
        }
    }
}

proof fn lemma_uri(uri: Seq<char>)
    ensures
        uri_fault(uri) is None <==> usable_uri(uri),
{
}

proof fn lemma_uris(uris: Seq<Seq<char>>)
    ensures
        uris_fault(uris) is None <==> forall|i: int|
            0 <= i < uris.len() ==> usable_uri(#[trigger] uris[i]),
    decreases uris.len(),
{
    if uris.len() > 0 {
        let front = uris.drop_last();
        lemma_uris(front);
        lemma_uri(uris.last());
        assert(uris.last() == uris[uris.len() - 1]);
        if forall|i: int| 0 <= i < uris.len() ==> usable_uri(#[trigger] uris[i]) {
            assert forall|i: int| 0 <= i < front.len() implies usable_uri(#[trigger] front[i]) by {
                assert(front[i] == uris[i]);
            }
        }
        if uris_fault(uris) is None {
            assert forall|i: int| 0 <= i < uris.len() implies usable_uri(#[trigger] uris[i]) by {
                if i < front.len() {
                    assert(front[i] == uris[i]);
                }
            }
        }
    }
}

/// A grant type that acts for a user.
pub open spec fn is_user_grant(g: Seq<char>) -> bool {
    g == "authorization_code"@ || g == "refresh_token"@ || g
        == "urn:ietf:params:oauth:grant-type:device_code"@
}

proof fn lemma_user_grant(g: Seq<char>)
    ensures
        dcr_grant_types().contains(g) <==> is_user_grant(g),
{
    let all = dcr_grant_types();
    assert(all[0] == "authorization_code"@);
    assert(all[1] == "refresh_token"@);
    assert(all[2] == "urn:ietf:params:oauth:grant-type:device_code"@);
}

/// A client registers for the grants it asks for exactly when each acts for a
/// user and the code grant is among them; one that asks for none gets the code
/// grant.
pub proof fn law_user_grants_are_registered(asked: Seq<Seq<char>>)
    ensures
        asked.len() == 0 ==> registered_grants(asked) == Ok::<Seq<Seq<char>>, Seq<char>>(
            seq!["authorization_code"@],
        ),
        asked.len() > 0 ==> (registered_grants(asked) is Ok <==> (forall|i: int|
            0 <= i < asked.len() ==> is_user_grant(#[trigger] asked[i])) && asked.contains(
            "authorization_code"@,
        )),
        asked.len() > 0 && registered_grants(asked) is Ok ==> registered_grants(asked)->Ok_0
            == asked,
{
    lemma_none_outside(asked, dcr_grant_types());
    if forall|i: int| 0 <= i < asked.len() ==> is_user_grant(#[trigger] asked[i]) {
        assert forall|i: int| 0 <= i < asked.len() implies dcr_grant_types().contains(
            #[trigger] asked[i],
        ) by {
            lemma_user_grant(asked[i]);
        }
    }
    if forall|i: int| 0 <= i < asked.len() ==> dcr_grant_types().contains(#[trigger] asked[i]) {
        assert forall|i: int| 0 <= i < asked.len() implies is_user_grant(#[trigger] asked[i]) by {
            lemma_user_grant(asked[i]);
        }
    }
}

/// A client registers for the code response exactly when it asks for no other.
pub proof fn law_code_responses_are_registered(asked: Seq<Seq<char>>)
    ensures
        registered_responses(asked) is Ok <==> forall|i: int|
            0 <= i < asked.len() ==> #[trigger] asked[i] == "code"@,
        registered_responses(asked) matches Ok(r) ==> r == seq!["code"@],
{
    lemma_none_outside(asked, seq!["code"@]);
    assert(seq!["code"@][0] == "code"@);
    if forall|i: int| 0 <= i < asked.len() ==> #[trigger] asked[i] == "code"@ {
        assert forall|i: int| 0 <= i < asked.len() implies seq!["code"@].contains(
            #[trigger] asked[i],
        ) by {}
    }
    if forall|i: int| 0 <= i < asked.len() ==> seq!["code"@].contains(#[trigger] asked[i]) {
        assert forall|i: int| 0 <= i < asked.len() implies #[trigger] asked[i] == "code"@ by {
            assert(seq!["code"@].contains(asked[i]));
        }
    }
}

proof fn lemma_known(w: Seq<char>)
    ensures
        known_scopes().contains(w) <==> is_scope_name(w),
{
    let all = known_scopes();
    assert(all[0] == "openid"@);
    assert(all[1] == "profile"@);
    assert(all[2] == "email"@);
    assert(all[3] == "offline_access"@);
}

proof fn lemma_words_of_joined(ws: Seq<Seq<char>>)
    requires
        forall|i: int|
            0 <= i < ws.len() ==> (#[trigger] ws[i]).len() > 0 && forall|k: int|
                0 <= k < ws[i].len() ==> !is_space(#[trigger] ws[i][k]),
    ensures
        words(joined(ws, " "@)) == ws,
    decreases ws.len(),
{
    reveal_strlit(" ");
    if ws.len() == 0 {
        law_words_are_in_order(Seq::empty(), seq!['x']);
        assert(words(joined(ws, " "@)) =~= ws);
    } else if ws.len() == 1 {
        assert(ws[0].len() > 0);
        lemma_only_word(ws[0]);
        assert(seq![ws[0]] =~= ws);
    } else {
        let front = ws.drop_last();
        assert forall|i: int| 0 <= i < front.len() implies (#[trigger] front[i]).len() > 0
            && forall|k: int| 0 <= k < front[i].len() ==> !is_space(#[trigger] front[i][k]) by {
            assert(front[i] == ws[i]);
        }
        lemma_words_of_joined(front);
        let last = ws[ws.len() - 1];
        assert(last.len() > 0);
        law_words_are_in_order(joined(front, " "@), last);
        assert(joined(front, " "@) + " "@ + last =~= joined(front, " "@).push(' ') + last);
        assert(front.push(last) =~= ws);
    }
}

proof fn lemma_words_are_words(s: Seq<char>)
    ensures
        forall|i: int|
            0 <= i < words(s).len() ==> (#[trigger] words(s)[i]).len() > 0 && forall|k: int|
                0 <= k < words(s)[i].len() ==> !is_space(#[trigger] words(s)[i][k]),
{
    assert forall|i: int| 0 <= i < words(s).len() implies (#[trigger] words(s)[i]).len() > 0
        && forall|k: int| 0 <= k < words(s)[i].len() ==> !is_space(#[trigger] words(s)[i][k]) by {
        let w = words(s)[i];
        assert(words(s).contains(w));
        law_scope_names_stand_between_spaces(s, w);
        let (a, b) = choose|a: int, b: int| #[trigger] word_at(s, a, b) && w == s.subrange(a, b);
        assert forall|k: int| 0 <= k < w.len() implies !is_space(#[trigger] w[k]) by {
            assert(w[k] == s[a + k]);
        }
    }
}

/// A client registers for the scope it asks for exactly when each of its names
/// is one of the four; what is registered has a name if and only if it was
/// asked for. A client that asks for none gets `openid`.
pub proof fn law_known_scopes_are_registered(asked: Option<Seq<char>>, name: Seq<char>)
    ensures
        asked is None || !says_something(asked->0) ==> registered_scope(asked) == Ok::<
            Seq<char>,
            Seq<char>,
        >("openid"@),
        asked matches Some(s) ==> says_something(s) ==> {
            &&& registered_scope(asked) is Ok <==> forall|w: Seq<char>| #[trigger]
                has_word(s, w) ==> is_scope_name(w)
            &&& registered_scope(asked) matches Ok(r) ==> (has_word(r, name) <==> has_word(s, name))
        },
{
    if asked is None {
        reveal_strlit("openid");
        reveal_strlit(" ");
        let o = "openid"@;
        crate::laws::words::law_trimming_takes_the_blanks_around(Seq::empty(), o, Seq::empty());
        assert(Seq::<char>::empty() + o + Seq::<char>::empty() =~= o);
        lemma_only_word(o);
        lemma_none_outside(words(o), known_scopes());
        lemma_known(o);
    } else {
        let s = asked->0;
        let t = trimmed(s);
        law_blank_texts_say_nothing(s);
        if says_something(s) {
            lemma_words_of_trimmed(s);
            let ws = words(t);
            lemma_none_outside(ws, known_scopes());
            lemma_words_are_words(t);
            lemma_words_of_joined(ws);
            let r = joined(ws, " "@);
            law_scope_names_stand_between_spaces(r, name);
            law_scope_names_stand_between_spaces(s, name);
            if forall|w: Seq<char>| #[trigger] has_word(s, w) ==> is_scope_name(w) {
                assert forall|i: int| 0 <= i < ws.len() implies known_scopes().contains(
                    #[trigger] ws[i],
                ) by {
                    assert(words(s).contains(ws[i]));
                    law_scope_names_stand_between_spaces(s, ws[i]);
                    lemma_known(ws[i]);
                }
            }
            if forall|i: int| 0 <= i < ws.len() ==> known_scopes().contains(#[trigger] ws[i]) {
                assert forall|w: Seq<char>| #[trigger] has_word(s, w) implies is_scope_name(w) by {
                    law_scope_names_stand_between_spaces(s, w);
                    let i = choose|i: int| 0 <= i < ws.len() && ws[i] == w;
                    assert(known_scopes().contains(ws[i]));
                    lemma_known(w);
                }
            }
        }
    }
}

/// The list that was given, or none.
pub open spec fn given_list(o: Option<Vec<String>>) -> Seq<String> {
    match o {
        Some(v) => v@,
        None => Seq::empty(),
    }
}

proof fn lemma_given_list(o: Option<Vec<String>>)
    ensures
        opt_texts(o) == texts(given_list(o)),
{
    assert(texts(Seq::<String>::empty()) =~= Seq::<Seq<char>>::empty());
}

/// The logout URI to which tokens are posted is usable and over https, where
/// there is one.
pub open spec fn logout_uri_in_order(uri: Option<Seq<char>>) -> bool {
    uri matches Some(u) ==> usable_uri(u) && starts_with(u, "https://"@)
}

/// A registration is accepted exactly when everything in it is in order: at
/// least one redirect URI and every one usable, one of the three methods of
/// authentication, grants, responses and scope that can be registered, a name
/// of at most 200 characters, and usable logout URIs.
pub proof fn law_registrations_in_order_are_accepted(body: RegisterRequest)
    ensures
        registration_verdict(body) is Ok <==> {
            &&& body.redirect_uris@.len() > 0
            &&& usable_uris(body.redirect_uris@)
            &&& (body.token_endpoint_auth_method matches Some(m) ==> m@ == "client_secret_basic"@
                || m@ == "client_secret_post"@ || m@ == "none"@)
            &&& registered_grants(texts(given_list(body.grant_types))) is Ok
            &&& registered_responses(texts(given_list(body.response_types))) is Ok
            &&& registered_scope(opt_text(body.scope)) is Ok
            &&& (body.client_name matches Some(n) ==> n@.len() <= 200)
            &&& logout_uri_in_order(opt_text(body.backchannel_logout_uri))
            &&& usable_uris(given_list(body.post_logout_redirect_uris))
        },
        registration_verdict(body) matches Ok(v) ==> {
            &&& v.auth_method == (match body.token_endpoint_auth_method {
                Some(m) => m@,
                None => "client_secret_basic"@,
            })
            &&& Ok::<Seq<Seq<char>>, Seq<char>>(v.grant_types) == registered_grants(
                texts(given_list(body.grant_types)),
            )
            &&& Ok::<Seq<Seq<char>>, Seq<char>>(v.response_types) == registered_responses(
                texts(given_list(body.response_types)),
            )
            &&& Ok::<Seq<char>, Seq<char>>(v.scope) == registered_scope(opt_text(body.scope))
            &&& v.post_logout_uris == texts(given_list(body.post_logout_redirect_uris))
        },
        registration_verdict(body) matches Err(e) ==> (e.0 == "invalid_redirect_uri"@ <==> (
        body.redirect_uris@.len() == 0 || !usable_uris(body.redirect_uris@))) && (e.0
            != "invalid_redirect_uri"@ ==> e.0 == "invalid_client_metadata"@),
{
    reveal_strlit("invalid_redirect_uri");
    reveal_strlit("invalid_client_metadata");
    assert("invalid_redirect_uri"@.len() != "invalid_client_metadata"@.len());
    law_usable_uris_are_accepted(Seq::empty(), body.redirect_uris@);
    law_usable_uris_are_accepted(Seq::empty(), given_list(body.post_logout_redirect_uris));
    lemma_given_list(body.grant_types);
    lemma_given_list(body.response_types);
    lemma_given_list(body.post_logout_redirect_uris);
    if let Some(u) = body.backchannel_logout_uri {
        lemma_uri(u@);
    }
}

/// A registration goes on exactly on a tenant that is known and open for it,
/// with a body that reads and is in order.
pub proof fn law_open_tenants_register(
    has_tenant: bool,
    enabled: bool,
    body: Option<RegisterRequest>,
)
    ensures
        register_gate(has_tenant, enabled, body) is Ok <==> has_tenant && enabled && body is Some
            && registration_verdict(body->0) is Ok,
        register_gate(has_tenant, enabled, body) matches Ok(v) ==> registration_verdict(body->0)
            == Ok::<ValidatedView, (Seq<char>, Seq<char>)>(v),
        register_gate(has_tenant, enabled, body) matches Err(r) ==> r.status == 400 && (if !has_tenant {
            reads(r, 400, "invalid_client_metadata"@, "unknown tenant domain"@)
        } else if !enabled {
            reads(
                r,
                400,
                "invalid_client_metadata"@,
                "dynamic client registration is not enabled for this tenant"@,
            )
        } else if body is None {
            reads(r, 400, "invalid_client_metadata"@, "request body must be JSON"@)
        } else {
            registration_verdict(body->0) == Err::<ValidatedView, (Seq<char>, Seq<char>)>(
                (r.error, r.description),
            )
        }),
{
}

/// A registration goes from creating the client to saving its metadata, to
/// signing its credential, to putting that on record, to the answer; where a
/// step fails after the client was created, the client is deleted again, and
/// not before.
pub proof fn law_failed_registrations_leave_no_client(event: RegisterEvent)
    ensures
        register_next(event) is Ok <==> (match event {
            RegisterEvent::Created(r) => r is Ok,
            RegisterEvent::MetaSaved(r) => r is Ok,
            RegisterEvent::Signed(jti) => jti is Some,
            RegisterEvent::Recorded(r) => r is Ok,
        }),
        register_next(event) matches Err(e) ==> (e.1 <==> event !is Created),
        register_next(event) matches Err(e) ==> e.0.status == 400 && e.0.error
            == "invalid_client_metadata"@,
        register_next(event) matches Ok(a) ==> {
            &&& event is Created <==> a is SaveMeta
            &&& event is MetaSaved <==> a is SignToken
            &&& event is Recorded <==> a is Answer
            &&& event matches RegisterEvent::Signed(jti) ==> a == RegisterActionView::Record(
                jti->0@,
            )
        },
{
}

/// An update goes the same way: the identifier that goes on record is the one
/// that was signed.
pub proof fn law_updates_rotate_the_credential(event: UpdateEvent)
    ensures
        update_next(event) is Ok <==> (match event {
            UpdateEvent::Updated(r) => r is Ok,
            UpdateEvent::MetaSaved(r) => r is Ok,
            UpdateEvent::Signed(r) => r is Ok,
            UpdateEvent::Recorded(r) => r is Ok,
        }),
        update_next(event) matches Ok(a) ==> {
            &&& event is Updated <==> a is SaveMeta
            &&& event is MetaSaved <==> a is SignToken
            &&& event is Recorded <==> a is Answer
            &&& event matches UpdateEvent::Signed(jti) ==> a == RegisterActionView::Record(
                jti->Ok_0@,
            )
        },
        update_next(event) matches Err(r) ==> r.status == 400 && r.error
            == "invalid_client_metadata"@,
{
}

/// What is answered is what was registered.
pub proof fn law_answers_state_the_registration(
    r: RegisterResponse,
    body: RegisterRequest,
    v: ValidatedView,
)
    requires
        r.states(body, v),
    ensures
        texts(r.redirect_uris@) == texts(body.redirect_uris@),
        r.token_endpoint_auth_method@ == v.auth_method,
        texts(r.grant_types@) == v.grant_types,
        texts(r.response_types@) == v.response_types,
        r.scope@ == v.scope,
        opt_text(r.client_name) == opt_text(body.client_name),
        opt_text(r.backchannel_logout_uri) == opt_text(body.backchannel_logout_uri),
        texts(r.post_logout_redirect_uris@) == v.post_logout_uris,
        r.client_secret_expires_at == 0,
{
}

/// A token manages a client exactly when it was signed by this issuer as a
/// management credential, for the client and to the client, and is the one on
/// record.
pub proof fn law_the_credential_on_record_manages(
    decoded: Option<RegistrationClaims>,
    issuer: Seq<char>,
    client_id: Seq<char>,
    current: Option<Seq<char>>,
)
    ensures
        is_credential(decoded, issuer, client_id, current) <==> {
            &&& decoded matches Some(c)
            &&& c.iss@ == issuer
            &&& c.sub@ == client_id
            &&& c.aud@ == client_id
            &&& c.typ is Some && c.typ->0@ == "client_registration"@
            &&& current is Some && current->0 == c.jti@
        },
{
}

/// A management request goes on exactly when it names a client of the domain
/// that serves it and is authenticated for it; otherwise the first thing
/// missing is told.
pub proof fn law_own_clients_are_managed(
    client_id: Option<Seq<char>>,
    has_tenant: bool,
    client_domain: Option<Seq<char>>,
    domain: Seq<char>,
    authenticated: bool,
)
    ensures
        management_fault(client_id, has_tenant, client_domain, domain, authenticated) is None <==> {
            &&& client_id is Some && client_id->0.len() > 0
            &&& has_tenant
            &&& client_domain is Some && client_domain->0 == domain
            &&& authenticated
        },
        management_fault(client_id, has_tenant, client_domain, domain, authenticated) matches Some(r)
            ==> if client_id is None || client_id->0.len() == 0 {
            reads(r, 400, "invalid_request"@, "missing client_id"@)
        } else if !has_tenant {
            reads(r, 400, "invalid_request"@, "unknown tenant domain"@)
        } else if client_domain is None || client_domain->0 != domain {
            reads(r, 401, "invalid_client"@, "unknown client"@)
        } else {
            reads(r, 401, "invalid_client"@, "client authentication failed"@)
        },
{
}

/// Settings are read and changed by a request that reads, on a known tenant.
pub proof fn law_readable_settings_are_changed(readable: bool, has_tenant: bool)
    ensures
        settings_fault(readable, has_tenant) is None <==> readable && has_tenant,
        settings_fault(readable, has_tenant) matches Some(p) ==> p.status == 400 && p.detail == (
        if !readable {
            "Failed to parse request body"@
        } else {
            "Unknown domain"@
        }),
{
}

/// A change of metadata is accepted exactly when the logout URI is in order or
/// empty, which takes it away, and every other URI is usable.
pub proof fn law_usable_metadata_is_accepted(req: ClientMetaRequest)
    ensures
        meta_fault(req) is None <==> {
            &&& (req.backchannel_logout_uri matches Some(u) ==> u@.len() == 0
                || logout_uri_in_order(Some(u@)))
            &&& usable_uris(given_list(req.post_logout_redirect_uris))
        },
{
    law_usable_uris_are_accepted(Seq::empty(), given_list(req.post_logout_redirect_uris));
    lemma_given_list(req.post_logout_redirect_uris);
    if let Some(u) = req.backchannel_logout_uri {
        lemma_uri(u@);
    }
}

/// A client is managed by the credential on record, or by its secret where it
/// has one.
pub proof fn law_clients_are_managed_by_credential_or_secret(
    token_ok: bool,
    auth_method: Seq<char>,
    secret_ok: Option<bool>,
)
    ensures
        token_ok ==> may_manage(token_ok, auth_method, secret_ok),
        !token_ok ==> (may_manage(token_ok, auth_method, secret_ok) <==> secret_ok == Some(true)
            && auth_method != "none"@),
{
}

/// The metadata of a client that registers are those of its registration, and
/// a later change replaces what it gives and nothing else; an empty logout URI
/// takes the stored one away.
pub proof fn law_changes_replace_what_they_give(
    first: ClientMeta,
    body: RegisterRequest,
    v: ValidatedView,
    next: ClientMeta,
    req: ClientMetaRequest,
)
    requires
        first.keeps(body, v),
        next.changes(first, req),
    ensures
        first.dynamic && next.dynamic,
        opt_text(first.client_name) == opt_text(body.client_name),
        opt_text(first.backchannel_logout_uri) == opt_text(body.backchannel_logout_uri),
        texts(first.post_logout_redirect_uris@) == v.post_logout_uris,
        req.client_name is Some ==> opt_text(next.client_name) == opt_text(req.client_name),
        req.client_name is None ==> opt_text(next.client_name) == opt_text(first.client_name),
        req.backchannel_logout_uri is None ==> opt_text(next.backchannel_logout_uri) == opt_text(
            first.backchannel_logout_uri,
        ),
        req.backchannel_logout_uri matches Some(u) ==> (next.backchannel_logout_uri is Some
            <==> u@.len() > 0),
        req.backchannel_logout_uri matches Some(u) ==> (next.backchannel_logout_uri matches Some(n)
            ==> n@ == u@),
        req.post_logout_redirect_uris is None ==> texts(next.post_logout_redirect_uris@) == texts(
            first.post_logout_redirect_uris@,
        ),
        req.post_logout_redirect_uris matches Some(l) ==> texts(next.post_logout_redirect_uris@)
            == texts(l@),
{
}

/// A client is answered its identifier, its secret where it authenticates by
/// one, its credential and where it is managed.
pub proof fn law_clients_are_handed_their_credentials(
    r: RegisterResponse,
    c: Credentials,
    v: ValidatedView,
)
    requires
        r.hands_out(c, v),
    ensures
        r.client_id@ == c.client_id@,
        v.auth_method == "none"@ ==> r.client_secret is None,
        v.auth_method != "none"@ ==> opt_text(r.client_secret) == opt_text(c.secret),
        r.client_id_issued_at == c.issued_at,
        r.registration_access_token@ == c.access_token@,
        r.registration_client_uri@ == c.issuer@ + "/register/"@ + c.client_id@,
{
}

/// A client reads back what is stored of it.
pub proof fn law_clients_read_back_what_is_stored(
    r: ClientMetadata,
    client: Client,
    redirect_uris: Seq<Seq<char>>,
    meta: ClientMeta,
)
    requires
        r.describes(client, redirect_uris, meta),
    ensures
        r.client_id@ == client.id@,
        texts(r.redirect_uris@) == redirect_uris,
        r.token_endpoint_auth_method@ == client.token_endpoint_auth_method@,
        texts(r.grant_types@) == texts(client.grant_types@),
        texts(r.response_types@) == texts(client.response_types@),
        r.scope@ == client.scope@,
        opt_text(r.client_name) == opt_text(meta.client_name),
        opt_text(r.backchannel_logout_uri) == opt_text(meta.backchannel_logout_uri),
        texts(r.post_logout_redirect_uris@) == texts(meta.post_logout_redirect_uris@),
{
}

/// A part of a registration that cannot be registered is told by the first
/// value that is wrong with it.
pub proof fn law_faulty_metadata_is_told(asked: Seq<Seq<char>>, scope: Option<Seq<char>>)
    ensures
        registered_grants(asked) matches Err(e) ==> e
            == "grant_types must include 'authorization_code'"@ || exists|g: Seq<char>|
            #![trigger asked.contains(g)]
            asked.contains(g) && !is_user_grant(g) && e == "unsupported grant_type: '"@ + g + "'"@,
        registered_responses(asked) matches Err(e) ==> exists|g: Seq<char>|
            #![trigger asked.contains(g)]
            asked.contains(g) && g != "code"@ && e == "unsupported response_type: '"@ + g + "'"@,
        scope matches Some(s) ==> (registered_scope(scope) matches Err(e) ==> exists|w: Seq<char>|
            #![trigger has_word(s, w)]
            has_word(s, w) && !is_scope_name(w) && e == "unknown scope: '"@ + w + "'"@),
{
    lemma_none_outside(asked, dcr_grant_types());
    lemma_none_outside(asked, seq!["code"@]);
    if registered_grants(asked) is Err && first_outside(asked, dcr_grant_types()) is Some {
        let g = first_outside(asked, dcr_grant_types())->0;
        lemma_user_grant(g);
        assert(asked.contains(g));
    }
    if registered_responses(asked) is Err {
        let g = first_outside(asked, seq!["code"@])->0;
        assert(seq!["code"@][0] == "code"@);
        assert(asked.contains(g));
    }
    if let Some(s) = scope {
        if registered_scope(scope) is Err {
            lemma_words_of_trimmed(s);
            let ws = words(trimmed(s));
            lemma_none_outside(ws, known_scopes());
            let w = first_outside(ws, known_scopes())->0;
            lemma_known(w);
            law_scope_names_stand_between_spaces(s, w);
            assert(has_word(s, w));
        }
    }
}

/// A URI that is not accepted is told why.
pub proof fn law_faulty_uris_are_told(uri: Seq<char>)
    ensures
        uri_fault(uri) matches Some(e) ==> (match url_parts(uri) {
            Err(d) => e == "invalid URI '"@ + uri + "': "@ + d,
            Ok(u) => if u.fragment is Some {
                e == "URI must not contain a fragment: '"@ + uri + "'"@
            } else {
                e == "URI scheme '"@ + u.scheme
                    + "' not allowed (https, or http on loopback): '"@ + uri + "'"@
            },
        }),
        backchannel_fault(Some(uri)) == (if uri_fault(uri) is Some {
            uri_fault(uri)
        } else if starts_with(uri, "https://"@) {
            None
        } else {
            Some("backchannel_logout_uri must be https"@)
        }),
{
}

/// A registration or an update that fails is told why.
pub proof fn law_failed_registrations_are_told(event: RegisterEvent, update: UpdateEvent)
    ensures
        register_next(event) matches Err(e) ==> e.0.description == (match event {
            RegisterEvent::Created(Err(d)) => d@,
            RegisterEvent::MetaSaved(Err(d)) => d@,
            _ => "failed to issue the registration access token"@,
        }),
        update_next(update) matches Err(r) ==> r.description == (match update {
            UpdateEvent::Updated(Err(d)) => d@,
            UpdateEvent::MetaSaved(Err(d)) => d@,
            UpdateEvent::Signed(Err(d)) =>
                "metadata updated, but rotating the registration access token failed: "@ + d@,
            UpdateEvent::Recorded(Err(d)) =>
                "metadata updated, but rotating the registration access token failed: "@ + d@,
            _ => r.description,
        }),
{
}

} // verus!
