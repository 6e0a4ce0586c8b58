//! Logout: what is ended, who is told, and where the browser goes.

use crate::laws::authorize::{lemma_lists, lists};
use crate::laws::clients::{encodes, lemma_encodes};
use crate::oidc::urls::param;
use crate::oidc_ext::logout::{
    accepted_hint, delivery, doubled, end_session_next, ends_until, logout_client,
    logout_location, logout_redirect, logout_targets, seen_before, BackchannelTask, ConsentRow,
    Delivery, EndSessionAskView, EndSessionState, LogoutClient, LogoutToken, SessionClaims,
};
use crate::text::{opt_text, texts};
use vstd::prelude::*;

verus! {

/// The row names a client that is there and wants to be told at this URI, and
/// is the first of its client.
pub open spec fn wants_to_be_told(
    rows: Seq<ConsentRow>,
    i: int,
    uri: Seq<char>,
    client: Seq<char>,
) -> bool {
    &&& 0 <= i < rows.len()
    &&& rows[i].client is Some && rows[i].client->0@ == client
    &&& rows[i].uri is Some && rows[i].uri->0@ == uri && uri.len() > 0
    &&& forall|j: int| 0 <= j < i ==> (#[trigger] rows[j]).client_id@ != rows[i].client_id@
}

/// Exactly the clients with a consent that are there and want to be told are
/// told, each at its own URI.
pub proof fn law_clients_that_want_it_are_told(
    rows: Seq<ConsentRow>,
    uri: Seq<char>,
    client: Seq<char>,
)
    ensures
        logout_targets(rows).contains((uri, client)) <==> exists|i: int| #[trigger]
            wants_to_be_told(rows, i, uri, client),
    decreases rows.len(),
{
    let t = (uri, client);
    if rows.len() > 0 {
        let front = rows.drop_last();
        let n = rows.len() - 1;
        law_clients_that_want_it_are_told(front, uri, client);
        let before = logout_targets(front);
        let after = logout_targets(rows);
        assert forall|i: int| 0 <= i < n implies (wants_to_be_told(front, i, uri, client)
            <==> #[trigger] wants_to_be_told(rows, i, uri, client)) by {
            assert(front[i] == rows[i]);
            assert forall|j: int| 0 <= j < i implies front[j] == #[trigger] rows[j] by {}
            if wants_to_be_told(front, i, uri, client) {
                assert forall|j: int| 0 <= j < i implies (#[trigger] rows[j]).client_id@
                    != rows[i].client_id@ by {
                    assert(front[j] == rows[j]);
                }
            }
            if wants_to_be_told(rows, i, uri, client) {
                assert forall|j: int| 0 <= j < i implies (#[trigger] front[j]).client_id@
                    != front[i].client_id@ by {
                    assert(front[j] == rows[j]);
                }
            }
        }
        if before.contains(t) {
            let k = choose|k: int| 0 <= k < before.len() && before[k] == t;
            assert(after[k] == t);
            let i = choose|i: int| #[trigger] wants_to_be_told(front, i, uri, client);
            assert(wants_to_be_told(rows, i, uri, client));
        }
        if after.contains(t) && !before.contains(t) {
            let k = choose|k: int| 0 <= k < after.len() && after[k] == t;
            if k < before.len() {
                assert(before[k] == t);
            }
            assert(!seen_before(rows, n));
            assert forall|j: int| 0 <= j < n implies (#[trigger] rows[j]).client_id@
                != rows[n].client_id@ by {}
            assert(wants_to_be_told(rows, n, uri, client));
        }
        if exists|i: int| #[trigger] wants_to_be_told(rows, i, uri, client) {
            let i = choose|i: int| #[trigger] wants_to_be_told(rows, i, uri, client);
            if i < n {
                assert(wants_to_be_told(front, i, uri, client));
            } else {
                assert(!seen_before(rows, n));
                assert(after[before.len() as int] == t);
            }
        }
    } else {
        assert(logout_targets(rows).len() == 0);
    }
}

/// The minutes after which a delivery that failed for the `n`th time is tried
/// again: two at first, twice as many each time, and never more than 64.
pub open spec fn wait_minutes(n: int) -> int {
    if n <= 1 {
        2
    } else if n == 2 {
        4
    } else if n == 3 {
        8
    } else if n == 4 {
        16
    } else if n == 5 {
        32
    } else {
        64
    }
}

/// A delivery ends with the acknowledgement, or with its tenth failure; before
/// that a failure is counted and tried again after the minutes that belong to
/// it, or at once where no timestamp is that late.
pub proof fn law_deliveries_are_tried_ten_times(attempts: int, delivered: bool, now: int)
    requires
        0 <= attempts,
        -253402207200999999999 <= now <= 253402207200999999999,
    ensures
        delivery(attempts, delivered, now) == Delivery::Done <==> delivered,
        delivery(attempts, delivered, now) == Delivery::GivenUp <==> !delivered && attempts >= 9,
        delivery(attempts, delivered, now) matches Delivery::Retry {
            attempts: next,
            next_attempt_at,
        } ==> next == attempts + 1 && next_attempt_at == (if now + wait_minutes(attempts + 1)
            * 60_000_000_000 <= 253402207200999999999 {
            now + wait_minutes(attempts + 1) * 60_000_000_000
        } else {
            now
        }),
{
    reveal_with_fuel(doubled, 8);
}

/// A logout goes to the URI that it asks for exactly when a client of this
/// domain has registered it, for sign-in or for logout; one that asks for none
/// goes nowhere; any other is refused.
pub proof fn law_registered_uris_are_gone_to(
    asked: Option<Seq<char>>,
    client: Option<LogoutClient>,
    domain: Seq<char>,
)
    ensures
        asked is None || asked->0.len() == 0 ==> (logout_redirect(asked, client, domain) matches Ok(
            None,
        )),
        asked matches Some(uri) ==> uri.len() > 0 ==> {
            let registered = client is Some && client->0.domain_id@ == domain && (lists(
                client->0.redirect_uris@,
                uri,
            ) || lists(client->0.post_logout_uris@, uri));
            &&& registered ==> (logout_redirect(asked, client, domain) matches Ok(Some(u)) && u
                == uri)
            &&& !registered ==> (logout_redirect(asked, client, domain) matches Err(p) && p.status
                == 400)
        },
{
    if asked is Some && client is Some {
        lemma_lists(client->0.redirect_uris@, asked->0);
        lemma_lists(client->0.post_logout_uris@, asked->0);
    }
}

/// The state comes back to the client behind its URI, as a parameter of its
/// own, readable as it was sent; without a state the URI is gone to as it is.
pub proof fn law_logouts_hand_the_state_back(uri: Seq<char>, state: Seq<char>)
    ensures
        logout_location(uri, None) == uri,
        state.len() == 0 ==> logout_location(uri, Some(state)) == uri,
        state.len() > 0 ==> exists|e: Seq<char>| #[trigger]
            encodes(e, state) && logout_location(uri, Some(state)) == uri + (if uri.contains('?') {
                "&"@
            } else {
                "?"@
            }) + "state="@ + e,
{
    lemma_encodes(state);
    assert(encodes(param(state), state));
}

/// A hint counts exactly where this issuer signed it, and then says whom it
/// names and for which client; the hint's client goes before the parameter's.
pub proof fn law_own_hints_identify(
    iss: Seq<char>,
    sub: Seq<char>,
    aud: Seq<char>,
    issuer: Seq<char>,
    client_id: Option<Seq<char>>,
)
    ensures
        accepted_hint(Some((iss, sub, aud)), issuer) == (if iss == issuer {
            Some((aud, sub))
        } else {
            None
        }),
        accepted_hint(None, issuer) is None,
        logout_client(client_id, Some((aud, sub))) == Some(aud),
        client_id matches Some(c) ==> c.len() > 0 ==> logout_client(client_id, None) == client_id,
        client_id is None || client_id->0.len() == 0 ==> logout_client(client_id, None) is None,
{
}

/// A presented session is ended exactly where it is one of this issuer and
/// domain, and until it would have expired, where that can be told.
pub proof fn law_own_sessions_are_ended(
    c: SessionClaims,
    issuer: Seq<char>,
    domain: Seq<char>,
)
    ensures
        ends_until(Some(c), issuer, domain) is Some <==> c.iss@ == issuer && c.aud@ == domain
            && -377705023201 <= c.exp <= 253402207200,
        ends_until(Some(c), issuer, domain) matches Some(t) ==> t == c.exp,
        ends_until(None, issuer, domain) is None,
{
}

/// The hint that is known, where there is one.
pub open spec fn known_hint(s: EndSessionState) -> Option<(String, String)> {
    match s.hint {
        Some(h) => h,
        None => None,
    }
}

/// The hint has been looked at, or there is none.
pub open spec fn hint_is_settled(s: EndSessionState) -> bool {
    &&& s.domain is Some && s.issuer is Some
    &&& s.has_tenant == Some(true)
    &&& s.hint is Some || s.params.id_token_hint is None || s.params.id_token_hint->0@.len() == 0
}

/// Where the logout goes is settled: it asks for nothing, or for a URI that its
/// client has registered.
pub open spec fn target_is_settled(s: EndSessionState) -> bool {
    &&& hint_is_settled(s)
    &&& s.params.post_logout_redirect_uri matches Some(u) ==> u@.len() > 0 ==> {
        &&& s.client matches Some(Some(c))
        &&& c.domain_id@ == s.domain->0@
        &&& lists(c.redirect_uris@, u@) || lists(c.post_logout_uris@, u@)
    }
}

/// The user who logs out: the one of the session that was ended, else the one
/// of the hint.
pub open spec fn leaver(s: EndSessionState) -> Option<Seq<char>> {
    let ended = s.session is Some && ends_until(s.session->0, s.issuer->0@, s.domain->0@) is Some
        && s.ended == Some(true);
    if ended {
        Some(s.session->0->0.sub@)
    } else if known_hint(s) is Some {
        Some((known_hint(s)->0).1@)
    } else {
        None
    }
}

/// The presented session has been dealt with.
pub open spec fn session_is_settled(s: EndSessionState) -> bool {
    &&& target_is_settled(s)
    &&& s.session is Some
    &&& ends_until(s.session->0, s.issuer->0@, s.domain->0@) is Some ==> s.ended is Some
}

proof fn lemma_uris(s: EndSessionState)
    ensures
        s.params.post_logout_redirect_uri is Some && s.client is Some && s.client->0 is Some ==> {
            let u = s.params.post_logout_redirect_uri->0@;
            let c = s.client->0->0;
            &&& texts(c.redirect_uris@).contains(u) <==> lists(c.redirect_uris@, u)
            &&& texts(c.post_logout_uris@).contains(u) <==> lists(c.post_logout_uris@, u)
        },
{
    if s.params.post_logout_redirect_uri is Some && s.client is Some && s.client->0 is Some {
        let u = s.params.post_logout_redirect_uri->0@;
        let c = s.client->0->0;
        lemma_lists(c.redirect_uris@, u);
        lemma_lists(c.post_logout_uris@, u);
    }
}

/// A logout ends its own session first, then tells the clients of the user who
/// left, then goes where it asked to; each exactly once the one before is
/// settled.
pub proof fn law_logouts_end_tell_and_go(s: EndSessionState)
    ensures
        end_session_next(s) is Session <==> target_is_settled(s) && s.session is None,
        end_session_next(s) is End <==> target_is_settled(s) && s.session is Some && ends_until(
            s.session->0,
            s.issuer->0@,
            s.domain->0@,
        ) is Some && s.ended is None,
        end_session_next(s) matches EndSessionAskView::End(t) ==> t == s.session->0->0.exp,
        end_session_next(s) is Tell <==> session_is_settled(s) && leaver(s) is Some && !s.told,
        end_session_next(s) matches EndSessionAskView::Tell(u) ==> Some(u) == leaver(s),
        end_session_next(s) is Redirect || end_session_next(s) is LoggedOut <==> session_is_settled(
            s,
        ) && (leaver(s) is None || s.told),
        end_session_next(s) is Redirect ==> s.params.post_logout_redirect_uri is Some
            && s.params.post_logout_redirect_uri->0@.len() > 0,
        end_session_next(s) matches EndSessionAskView::Redirect(l) ==> l == logout_location(
            s.params.post_logout_redirect_uri->0@,
            opt_text(s.params.state),
        ),
        end_session_next(s) is LoggedOut ==> s.params.post_logout_redirect_uri is None
            || s.params.post_logout_redirect_uri->0@.len() == 0,
{
    lemma_uris(s);
}

/// Before that, the tenant is asked for, the hint is read, and the client is
/// looked up where the logout asks to go somewhere; what is wrong is refused.
pub proof fn law_logouts_ask_in_turn(s: EndSessionState)
    ensures
        end_session_next(s) is Tenant <==> s.domain is Some && s.issuer is Some
            && s.has_tenant is None,
        end_session_next(s) is Hint <==> s.domain is Some && s.issuer is Some && s.has_tenant
            == Some(true) && s.hint is None && s.params.id_token_hint is Some
            && s.params.id_token_hint->0@.len() > 0,
        end_session_next(s) matches EndSessionAskView::Hint(h) ==> h == s.params.id_token_hint->0@,
        end_session_next(s) is Client <==> hint_is_settled(s)
            && s.params.post_logout_redirect_uri is Some
            && s.params.post_logout_redirect_uri->0@.len() > 0 && s.client is None && (known_hint(
            s,
        ) is Some || (s.params.client_id is Some && s.params.client_id->0@.len() > 0)),
        end_session_next(s) matches EndSessionAskView::Client(c) ==> c == (match known_hint(s) {
            Some(h) => h.0@,
            None => s.params.client_id->0@,
        }),
        end_session_next(s) matches EndSessionAskView::Refuse(p) ==> p.status == 400,
        end_session_next(s) is Refuse <==> {
            ||| s.domain is None || s.issuer is None || s.has_tenant == Some(false)
            ||| hint_is_settled(s) && !target_is_settled(s) && end_session_next(s) !is Client
        },
{
    lemma_uris(s);
}

/// A logout is told to one client about one user, by a token of this issuer
/// that lives for two minutes; its delivery is due at once.
pub proof fn law_logouts_are_told_at_once(
    t: LogoutToken,
    task: BackchannelTask,
    target: (Seq<char>, Seq<char>),
    issuer: Seq<char>,
    domain: Seq<char>,
    user_id: Seq<char>,
    jti: Seq<char>,
    now: i64,
    queued: i128,
)
    requires
        t.tells(issuer, user_id, target.1, jti, now),
        task.queues(target, issuer, domain, user_id, queued),
    ensures
        t.iss@ == issuer,
        t.sub@ == user_id,
        t.aud@ == target.1,
        t.iat == now,
        t.exp == now + 120,
        t.data.jti@ == jti,
        t.data.event@ == "http://schemas.openid.net/event/backchannel-logout"@,
        task.uri@ == target.0,
        task.client_id@ == target.1,
        task.issuer@ == issuer,
        task.domain_id@ == domain,
        task.sub@ == user_id,
        task.attempts == 0,
        task.next_attempt_at == queued,
{
}

/// A logout that is refused is told why.
pub proof fn law_refused_logouts_are_told(s: EndSessionState)
    requires
        end_session_next(s) is Refuse,
    ensures
        end_session_next(s)->Refuse_0.status == 400,
        end_session_next(s)->Refuse_0.detail == (if s.domain is None {
            "unknown tenant domain"@
        } else if s.issuer is None {
            "unknown issuer"@
        } else if s.has_tenant == Some(false) {
            "unknown tenant domain"@
        } else {
            "post_logout_redirect_uri is not registered for this client"@
        }),
{
}

} // verus!
