//! Device requests: how long they live, what a poll learns, who decides.

use crate::laws::authorize::{lemma_lists, lists, scope_in_order};
use crate::laws::tokens::reads;
use crate::laws::words::{
    has_word, is_scope_name, law_blank_texts_say_nothing,
    law_requested_names_are_known_and_registered, says_something,
};
use crate::oidc::authorize::effective_scope;
use crate::oidc::client::Client;
use crate::oidc::device::{
    approve_next, approved_by, claim_step, decision_of, deny_step, device_gate, fresh_device,
    has_expired, poll_answer, poll_step, redeemed_key, rolled_back, ApproveAction, ApproveEvent,
    ClaimView, DecisionRefusalView, DeviceAction, DeviceApproveResult, DeviceAuthResponse,
    DeviceEntryView, DeviceStatusView, PollView,
};
use crate::oidc::scope::scope_fault;
use crate::oidc::urls::param;
use crate::reply::ProblemKind;
use crate::text::{opt_text, texts};
use vstd::prelude::*;

verus! {

/// A device request that starts at `start` is alive for half an hour and has
/// expired ever after.
pub proof fn law_device_requests_live_half_an_hour(
    client_id: Seq<char>,
    scope: Seq<char>,
    user_code: Seq<char>,
    start: int,
    now: int,
)
    requires
        0 <= start,
    ensures
        has_expired(fresh_device(client_id, scope, user_code, start), now) <==> now > start + 1800,
{
}

/// A device request starts pending, for its client, scope and user code,
/// decided by nobody and never polled.
pub proof fn law_device_requests_start_pending(
    client_id: Seq<char>,
    scope: Seq<char>,
    user_code: Seq<char>,
    start: int,
)
    ensures
        ({
            let e = fresh_device(client_id, scope, user_code, start);
            &&& e.client_id == client_id && e.scope == scope && e.user_code == user_code
            &&& e.status is Pending && e.user_id is None
            &&& e.last_polled_at == 0 && e.interval is None
            &&& e.expires_at == start + 1800
        }),
{
}

/// The first second at which the device may poll again.
pub open spec fn next_poll(e: DeviceEntryView) -> int {
    if e.last_polled_at > 0 {
        e.last_polled_at + (match e.interval {
            Some(i) => i,
            None => 5,
        })
    } else {
        e.last_polled_at
    }
}

/// The request is the client's own, has not ended and may be polled.
pub open spec fn may_poll(e: DeviceEntryView, client_id: Seq<char>, now: int) -> bool {
    &&& e.client_id == client_id
    &&& now <= e.expires_at || now <= 0
    &&& (e.last_polled_at > 0 ==> next_poll(e) <= now)
}

/// What a poll learns: only its own client learns anything, an end is an end,
/// a hasty poll is slowed down, and a timely one learns where the request
/// stands.
pub proof fn law_polls_tell_the_status(e: DeviceEntryView, client_id: Seq<char>, now: int)
    ensures
        poll_step(e, client_id, now).1 is ForeignClient <==> e.client_id != client_id,
        poll_step(e, client_id, now).1 is Expired <==> e.client_id == client_id && now
            > e.expires_at && now > 0,
        poll_step(e, client_id, now).1 is SlowDown <==> e.client_id == client_id && (now
            <= e.expires_at || now <= 0) && e.last_polled_at > 0 && now < next_poll(e),
        may_poll(e, client_id, now) ==> {
            &&& poll_step(e, client_id, now).1 is Pending <==> e.status is Pending
                || e.status is Approving
            &&& poll_step(e, client_id, now).1 is Denied <==> e.status is Denied
            &&& poll_step(e, client_id, now).1 is Approved <==> e.status is Approved
            &&& poll_step(e, client_id, now).1 is Invalid <==> e.status is Consumed
                || e.status is Other
        },
        poll_step(e, client_id, now).1 matches PollView::Approved { user_id, scope } ==> scope
            == e.scope && (e.user_id matches Some(u) ==> user_id == u) && (e.user_id is None
            ==> user_id.len() == 0),
{
}

/// What a poll leaves behind: whose request it is, for what, until when and
/// decided by whom stay; the status changes only from approved to consumed,
/// when the approval is handed out; the interval changes only by the five
/// seconds of a slow-down; and a poll that was heard is remembered.
pub proof fn law_polls_change_little(e: DeviceEntryView, client_id: Seq<char>, now: int)
    ensures
        ({
            let (next, learnt) = poll_step(e, client_id, now);
            &&& next.client_id == e.client_id && next.scope == e.scope && next.user_code
                == e.user_code && next.expires_at == e.expires_at && next.user_id == e.user_id
            &&& learnt is Approved ==> next.status is Consumed
            &&& learnt !is Approved ==> next.status == e.status
            &&& learnt is ForeignClient || learnt is Expired ==> next == e
            &&& learnt !is ForeignClient && learnt !is Expired ==> next.last_polled_at == now
            &&& learnt is SlowDown ==> next.interval == Some(
                (match e.interval {
                    Some(i) => i,
                    None => 5,
                }) + 5,
            )
            &&& learnt !is SlowDown ==> next.interval == e.interval
        }),
{
}

/// An approval reaches the device at any time before the request ends: one
/// that starts at `start` and is approved is handed to the first poll of its
/// client up to half an hour later, for the user who approved and the scope
/// that was asked for, and to no later poll.
pub proof fn law_approvals_are_handed_over_in_time(
    client_id: Seq<char>,
    scope: Seq<char>,
    user_code: Seq<char>,
    user_id: Seq<char>,
    start: int,
    now: int,
)
    requires
        0 <= start,
        user_id.len() > 0,
    ensures
        ({
            let e = approved_by(
                claim_step(fresh_device(client_id, scope, user_code, start)).0,
                user_id,
            );
            let answer = poll_answer(Some(poll_step(e, client_id, now).1));
            &&& now <= start + 1800 ==> (answer matches Ok(granted) && granted.0 == user_id
                && granted.1 == scope)
            &&& now > start + 1800 ==> (answer matches Err(r) && reads(
                r,
                400,
                "expired_token"@,
                "device_code has expired"@,
            ))
        }),
{
}

/// A device that polls no more often than every five seconds is never slowed
/// down: it hears that the request is pending, then that it was approved.
pub proof fn law_patient_devices_are_served(
    client_id: Seq<char>,
    scope: Seq<char>,
    user_code: Seq<char>,
    user_id: Seq<char>,
    start: int,
    first: int,
    second: int,
    third: int,
)
    requires
        0 <= start <= first,
        first + 5 <= second,
        second + 5 <= third <= start + 1800,
        first > 0,
    ensures
        ({
            let fresh = fresh_device(client_id, scope, user_code, start);
            let (polled, one) = poll_step(fresh, client_id, first);
            let (handed, two) = poll_step(
                approved_by(claim_step(polled).0, user_id),
                client_id,
                second,
            );
            let (_, three) = poll_step(handed, client_id, third);
            &&& one is Pending
            &&& two == PollView::Approved { user_id, scope }
            &&& three is Invalid
        }),
{
}

/// A device that polls sooner is slowed down and has to wait ten seconds from
/// then on.
pub proof fn law_hasty_devices_wait_longer(
    client_id: Seq<char>,
    scope: Seq<char>,
    user_code: Seq<char>,
    start: int,
    first: int,
    second: int,
    third: int,
)
    requires
        0 <= start <= first <= second <= third <= start + 1800,
        0 < first,
        second < first + 5,
    ensures
        ({
            let fresh = fresh_device(client_id, scope, user_code, start);
            let (a, one) = poll_step(fresh, client_id, first);
            let (b, two) = poll_step(a, client_id, second);
            let (_, three) = poll_step(b, client_id, third);
            &&& one is Pending
            &&& two is SlowDown
            &&& three is SlowDown <==> third < second + 10
            &&& three is Pending <==> third >= second + 10
        }),
{
}

/// Only an approval by somebody is worth tokens, and it is worth what the user
/// approved; every other outcome has its own error.
pub proof fn law_only_approvals_are_worth_tokens(poll: Option<PollView>)
    ensures
        poll_answer(poll) is Ok <==> (poll matches Some(PollView::Approved { user_id, scope })
            && user_id.len() > 0),
        poll_answer(poll) matches Ok(granted) ==> poll == Some(
            PollView::Approved { user_id: granted.0, scope: granted.1 },
        ),
        poll_answer(poll) matches Err(r) ==> r.status == 400 && r.error == (match poll {
            Some(PollView::Expired) => "expired_token"@,
            Some(PollView::SlowDown) => "slow_down"@,
            Some(PollView::Pending) => "authorization_pending"@,
            Some(PollView::Denied) => "access_denied"@,
            _ => "invalid_grant"@,
        }),
{
}

/// A pending request can be claimed, given up, approved and denied; each does
/// what it says to the status and nothing to the rest, and a request that was
/// decided, or is being decided, stays as it is.
pub proof fn law_decisions_do_what_they_say(e: DeviceEntryView, user_id: Seq<char>)
    ensures
        e.status is Pending ==> {
            &&& claim_step(e).0 == (DeviceEntryView { status: DeviceStatusView::Approving, ..e })
            &&& claim_step(e).1 == (ClaimView::Ready {
                client_id: e.client_id,
                scope: e.scope,
                expires_at: e.expires_at,
            })
            &&& deny_step(e).0.status is Denied && deny_step(e).0.user_id is None
            &&& deny_step(e).1 == "denied"@
            &&& rolled_back(claim_step(e).0) == e
        },
        e.status !is Pending ==> claim_step(e).0 == e && claim_step(e).1 is Already && deny_step(
            e,
        ).0 == e,
        e.status is Approving ==> claim_step(e).1 == ClaimView::Already("approving"@)
            && deny_step(e).1 == "approving"@,
        e.status is Approved ==> claim_step(e).1 == ClaimView::Already("approved"@) && deny_step(
            e,
        ).1 == "approved"@,
        e.status is Denied ==> claim_step(e).1 == ClaimView::Already("denied"@) && deny_step(e).1
            == "denied"@,
        e.status is Consumed ==> claim_step(e).1 == ClaimView::Already("consumed"@) && deny_step(
            e,
        ).1 == "consumed"@,
        deny_step(e).0.expires_at == e.expires_at && deny_step(e).0.scope == e.scope && deny_step(
            e,
        ).0.client_id == e.client_id && deny_step(e).0.last_polled_at == e.last_polled_at,
        approved_by(e, user_id).status is Approved,
        approved_by(e, user_id).user_id == Some(user_id),
        approved_by(e, user_id).scope == e.scope && approved_by(e, user_id).client_id
            == e.client_id && approved_by(e, user_id).expires_at == e.expires_at && approved_by(
            e,
            user_id,
        ).last_polled_at == e.last_polled_at && approved_by(e, user_id).interval == e.interval,
{
}

/// A decision is taken exactly when it names a request, is one of the two and
/// comes with a session; it is the one that was sent.
pub proof fn law_decisions_need_a_session(
    user_code: Seq<char>,
    action: Seq<char>,
    has_session: bool,
)
    ensures
        decision_of(user_code, action, has_session) is Ok <==> user_code.len() > 0 && (action
            == "approve"@ || action == "deny"@) && has_session,
        decision_of(user_code, action, has_session) matches Ok(a) ==> (a == DeviceAction::Approve
            <==> action == "approve"@),
        decision_of(user_code, action, has_session) matches Err(e) ==> (e is SignIn <==> user_code.len()
            > 0 && (action == "approve"@ || action == "deny"@)),
        decision_of(user_code, action, has_session) matches Err(DecisionRefusalView::SignIn(h))
            ==> h.status == 401 && h.url == "/login?redirect_uri="@ + param(
            "/device-login?user_code="@ + param(user_code),
        ),
{
    reveal_strlit("approve");
    reveal_strlit("deny");
    assert("approve"@.len() != "deny"@.len());
}

/// An approval goes from step to step exactly while the store agrees: the
/// client is this tenant's, the earlier consent is revoked, the new one is
/// recorded; only then is the request approved.
pub proof fn law_approvals_are_recorded_first(
    tenant: Seq<char>,
    expires_at: i64,
    event: ApproveEvent,
)
    ensures
        approve_next(tenant, expires_at, event) is Ok <==> (match event {
            ApproveEvent::Client(domain) => domain is Some && domain->0@ == tenant,
            ApproveEvent::Revoked(r) => r is Ok && -377705023201 <= expires_at <= 253402207200,
            ApproveEvent::Recorded(r) => r is Ok,
        }),
        approve_next(tenant, expires_at, event) matches Ok(a) ==> {
            &&& a == ApproveAction::RevokeConsent <==> event is Client
            &&& a == ApproveAction::RecordConsent <==> event is Revoked
            &&& a == ApproveAction::Commit <==> event is Recorded
        },
{
}

/// A device request starts exactly when it names its client, the tenant is
/// known, the client is authenticated and registered for devices, and every
/// name it asks for is known and the client's; the scope is its own where it
/// says one and the client's otherwise.
pub proof fn law_registered_devices_start(
    client_id: Option<Seq<char>>,
    scope: Option<Seq<char>>,
    has_tenant: bool,
    client: Result<Client, String>,
)
    ensures
        ({
            let asked = if scope is Some && says_something(scope->0) {
                scope->0
            } else {
                client->Ok_0.scope@
            };
            &&& device_gate(client_id, scope, has_tenant, client) is Ok <==> {
                &&& client_id is Some && client_id->0.len() > 0
                &&& has_tenant
                &&& client is Ok
                &&& lists(
                    client->Ok_0.grant_types@,
                    "urn:ietf:params:oauth:grant-type:device_code"@,
                )
                &&& scope_in_order(asked, client->Ok_0)
            }
            &&& device_gate(client_id, scope, has_tenant, client) matches Ok(granted) ==> granted
                == asked
        }),
{
    if let Some(s) = scope {
        law_blank_texts_say_nothing(s);
    }
    if let Ok(c) = client {
        lemma_lists(c.grant_types@, "urn:ietf:params:oauth:grant-type:device_code"@);
        lemma_scope_in_order(effective_scope(scope, c.scope@), c);
    }
}

proof fn lemma_scope_in_order(scope: Seq<char>, client: Client)
    ensures
        scope_fault(scope, texts(client.registered_scopes@)) is None <==> scope_in_order(
            scope,
            client,
        ),
{
    let registered = texts(client.registered_scopes@);
    law_requested_names_are_known_and_registered(scope, registered);
    if scope_in_order(scope, client) {
        assert forall|w: Seq<char>| #[trigger] has_word(scope, w) implies is_scope_name(w)
            && registered.contains(w) by {
            lemma_lists(client.registered_scopes@, w);
        }
    }
    if forall|w: Seq<char>| #[trigger]
        has_word(scope, w) ==> is_scope_name(w) && registered.contains(w) {
        assert forall|w: Seq<char>| #[trigger] has_word(scope, w) implies is_scope_name(w)
            && lists(client.registered_scopes@, w) by {
            lemma_lists(client.registered_scopes@, w);
        }
    }
}

/// A device is offered its codes, the page at which the user enters theirs,
/// half an hour, and five seconds between polls.
pub proof fn law_devices_are_told_how_to_poll(
    r: DeviceAuthResponse,
    issuer: Seq<char>,
    device_code: Seq<char>,
    user_code: Seq<char>,
)
    requires
        r.offers(issuer, device_code, user_code),
    ensures
        r.device_code@ == device_code,
        r.user_code@ == user_code,
        r.verification_uri@ == issuer + "/device-login"@,
        opt_text(r.verification_uri_complete) == Some(
            issuer + "/device-login?user_code="@ + user_code,
        ),
        r.expires_in == 1800,
        r.interval == 5,
{
}

/// A device code is redeemed under its own key, and a request without one is
/// told so.
pub proof fn law_device_codes_have_their_own_key(device_code: Option<Seq<char>>)
    ensures
        redeemed_key(device_code) is Ok <==> device_code is Some && device_code->0.len() > 0,
        redeemed_key(device_code) matches Ok(k) ==> k == "device:"@ + device_code->0,
        redeemed_key(device_code) matches Err(r) ==> reads(
            r,
            400,
            "invalid_request"@,
            "Missing required parameter: device_code"@,
        ),
{
}

/// A decision is answered with what became of it: who approved, who denied, or
/// that it had been decided before.
pub proof fn law_decisions_are_answered(
    approval: DeviceApproveResult,
    denial: DeviceApproveResult,
    earlier: DeviceApproveResult,
    status: Seq<char>,
    user_id: Seq<char>,
)
    requires
        approval.tells_approval(user_id),
        denial.tells_denial(status, user_id),
        earlier.tells_earlier(status),
    ensures
        approval.status@ == "approved"@ && opt_text(approval.user) == Some(user_id)
            && approval.already_processed is None,
        denial.status@ == status && earlier.status@ == status,
        denial.user is Some <==> status == "denied"@,
        denial.user matches Some(u) ==> u@ == user_id,
        denial.already_processed == (if status == "denied"@ {
            None
        } else {
            Some(true)
        }),
        earlier.user is None && earlier.already_processed == Some(true),
{
}

/// A device request that does not start is told why: what it lacks, that its
/// client did not authenticate or is not registered for devices, or what is
/// wrong with its scope.
pub proof fn law_refused_devices_are_told(
    client_id: Option<Seq<char>>,
    scope: Option<Seq<char>>,
    has_tenant: bool,
    client: Result<Client, String>,
)
    requires
        device_gate(client_id, scope, has_tenant, client) is Err,
    ensures
        ({
            let r = device_gate(client_id, scope, has_tenant, client)->Err_0;
            if client_id is None || client_id->0.len() == 0 {
                reads(r, 400, "invalid_request"@, "Missing required parameter: client_id"@)
            } else if !has_tenant {
                reads(r, 400, "invalid_request"@, "Unknown domain/tenant"@)
            } else if client is Err {
                reads(r, 401, "invalid_client"@, client->Err_0@)
            } else if !lists(
                client->Ok_0.grant_types@,
                "urn:ietf:params:oauth:grant-type:device_code"@,
            ) {
                reads(
                    r,
                    400,
                    "unauthorized_client"@,
                    "client is not registered for the device authorization grant"@,
                )
            } else {
                r.status == 400 && r.error == "invalid_scope"@
            }
        }),
{
    if let Ok(c) = client {
        lemma_lists(c.grant_types@, "urn:ietf:params:oauth:grant-type:device_code"@);
    }
}

/// A decision that is not taken is told why.
pub proof fn law_refused_decisions_are_told(
    user_code: Seq<char>,
    action: Seq<char>,
    has_session: bool,
)
    ensures
        decision_of(user_code, action, has_session) matches Err(DecisionRefusalView::Problem(p))
            ==> p.status == 400 && p.kind == ProblemKind::Validation && p.detail == (
        if user_code.len() == 0 {
            "Missing required parameter: user_code"@
        } else {
            "Invalid action: must be 'approve' or 'deny'"@
        }),
{
}

/// An approval that is not carried out is told why.
pub proof fn law_failed_approvals_are_told(tenant: Seq<char>, expires_at: i64, event: ApproveEvent)
    ensures
        approve_next(tenant, expires_at, event) matches Err(p) ==> (match event {
            ApproveEvent::Client(_) => p.status == 400 && p.kind == ProblemKind::NotFound
                && p.detail == "OAuth2 client is not registered with this provider"@,
            ApproveEvent::Revoked(Err(e)) => p.status == 500 && p.kind == ProblemKind::Server
                && p.detail == "Failed to update consent grants: "@ + e@,
            ApproveEvent::Revoked(Ok(_)) => p.status == 400 && p.kind == ProblemKind::Validation
                && p.detail == "Device code expired or not found"@,
            ApproveEvent::Recorded(Err(e)) => p.status == 500 && p.kind == ProblemKind::Server
                && p.detail == "Failed to record authorization grant: "@ + e@,
            ApproveEvent::Recorded(Ok(_)) => false,
        }),
{
}

/// A poll that yields no tokens is told why.
pub proof fn law_refused_polls_are_told(poll: Option<PollView>)
    ensures
        poll_answer(poll) matches Err(r) ==> r.description == (match poll {
            None => "device_code is invalid"@,
            Some(PollView::ForeignClient) => "device_code was issued to another client"@,
            Some(PollView::Expired) => "device_code has expired"@,
            Some(PollView::SlowDown) => "polling too fast"@,
            Some(PollView::Pending) => "user has not yet completed authorization"@,
            Some(PollView::Denied) => "user denied authorization"@,
            Some(PollView::Invalid) => "device_code is invalid"@,
            Some(PollView::Approved { user_id, scope }) => "device_code approval is malformed"@,
        }),
{
}

/// A device request has expired exactly once its end has passed, and one whose
/// end lies before the epoch as soon as the clock runs.
pub proof fn law_requests_expire_at_their_end(e: DeviceEntryView, now: int)
    ensures
        has_expired(e, now) <==> now > e.expires_at && now > 0,
{
}

} // verus!
