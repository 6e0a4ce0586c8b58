//! Parked authorization requests: resuming them and asking for consent.

use crate::oidc::authorize::{
    consented, is_clock, issue_pending, pending_key, pending_key_of, pending_pkce,
    pending_user_matches, user_matches, ConsentLookup, IssueRequest, PendingAuth, Session,
};
use crate::oidc::scope::{consent_screen, scopes_cover, ConsentRequestInfo};
use crate::oidc::urls::{
    callback_url, callback_url_with_code, consent_redirect, consent_url, error_url,
    oauth2_error_url,
};
use crate::oneshot::{law_taken_is_gone, lookup, store_run, OneShot, StoreOp};
use crate::reply::{
    hop, hop_to, problem, problem_of, Hop, HopView, Problem, ProblemKind, ProblemView,
};
use crate::text::{as_opt_str, cat, cat3, copy_opt, opt_str, opt_text, same};
use vstd::prelude::*;

verus! {

/// The answer to a continuation without a session.
pub open spec fn session_expired() -> HopView {
    hop_to(401, "/login?error=session_expired"@)
}

/// The answer to a continuation whose state names no request of the user.
pub open spec fn invalid_state() -> HopView {
    hop_to(400, "/login?error=invalid_state"@)
}

fn expired_hop() -> (r: Hop)
    ensures
        r@ == session_expired(),
{
    hop(401, "/login?error=session_expired".to_owned())
}

fn invalid_hop() -> (r: Hop)
    ensures
        r@ == invalid_state(),
{
    hop(400, "/login?error=invalid_state".to_owned())
}

/// The key of the parked request that a resume call names, or why it names
/// none.
pub open spec fn resumed_key(has_session: bool, state: Option<Seq<char>>) -> Result<
    Seq<char>,
    HopView,
> {
    if !has_session {
        Err(session_expired())
    } else {
        match state {
            Some(s) => if s.len() > 0 {
                Ok(pending_key_of(s))
            } else {
                Err(invalid_state())
            },
            None => Err(invalid_state()),
        }
    }
}

/// The key of the parked request that a resume call names.
pub fn resume_key(has_session: bool, state: Option<&str>) -> (r: Result<String, Hop>)
    ensures
        (match r {
            Ok(k) => Ok(k@),
            Err(h) => Err(h@),
        }) == resumed_key(has_session, opt_str(state)),
{
    if !has_session {
        return Err(expired_hop());
    }
    match state {
        Some(s) => if s.is_empty() {
            Err(invalid_hop())
        } else {
            Ok(pending_key(s))
        },
        None => Err(invalid_hop()),
    }
}

/// Takes the parked request of a state out of the store: whoever resumes or
/// decides, and whatever comes of it, the state is spent.
pub fn take_parked(parked: &mut OneShot<PendingAuth>, state: &str) -> (r: Option<PendingAuth>)
    ensures
        r == lookup(old(parked)@, pending_key_of(state@)),
        final(parked)@ == old(parked)@.remove(pending_key_of(state@)),
{
    parked.take(pending_key(state).as_str())
}

/// What is wrong with continuing a parked request on a tenant: the tenant must
/// be there and the client must be registered with it.
pub open spec fn continuation_fault(
    pending: PendingAuth,
    tenant: Option<String>,
    client_domain: Option<String>,
) -> Option<HopView> {
    match tenant {
        None => Some(
            hop_to(500, error_url("/error"@, "server_error"@, "Tenant unavailable"@, None)),
        ),
        Some(t) => if opt_text(client_domain) == Some(t@) {
            None
        } else {
            Some(
                hop_to(
                    400,
                    error_url(
                        "/error"@,
                        "invalid_client"@,
                        "Unknown client '"@ + pending.client_id@ + "'"@,
                        opt_text(pending.state),
                    ),
                ),
            )
        },
    }
}

fn check_continuation(
    pending: &PendingAuth,
    tenant: &Option<String>,
    client_domain: &Option<String>,
) -> (r: Result<(), Hop>)
    ensures
        r is Ok <==> continuation_fault(*pending, *tenant, *client_domain) is None,
        r matches Err(h) ==> continuation_fault(*pending, *tenant, *client_domain) == Some(h@),
{
    let t = match tenant {
        Some(t) => t,
        None => {
            return Err(
                hop(500, oauth2_error_url("/error", "server_error", "Tenant unavailable", None)),
            );
        },
    };
    let registered = match client_domain {
        Some(d) => same(d.as_str(), t.as_str()),
        None => false,
    };
    if registered {
        return Ok(());
    }
    let d = cat3("Unknown client '", pending.client_id.as_str(), "'");
    Err(
        hop(
            400,
            oauth2_error_url("/error", "invalid_client", d.as_str(), as_opt_str(&pending.state)),
        ),
    )
}

/// What a resumed request leads to.
pub enum ResumeStep {
    Answer(Hop),
    /// Issue a code and call the client back.
    Issue(IssueRequest),
    /// Park the request again and ask for consent.
    Consent(PendingAuth),
}

pub enum ResumeStepView {
    Answer(HopView),
    Issue,
    Consent,
}

impl View for ResumeStep {
    type V = ResumeStepView;

    open spec fn view(&self) -> ResumeStepView {
        match self {
            ResumeStep::Answer(h) => ResumeStepView::Answer(h@),
            ResumeStep::Issue(_) => ResumeStepView::Issue,
            ResumeStep::Consent(_) => ResumeStepView::Consent,
        }
    }
}

/// What resuming leads to: the parked request must be the user's own, its
/// client registered here; a covering consent issues a code.
pub open spec fn resume_step(
    user: Seq<char>,
    pending: Option<PendingAuth>,
    tenant: Option<String>,
    client_domain: Option<String>,
    lookup: ConsentLookup,
) -> ResumeStepView {
    match pending {
        None => ResumeStepView::Answer(invalid_state()),
        Some(p) => if !user_matches(p, user) {
            ResumeStepView::Answer(invalid_state())
        } else {
            match continuation_fault(p, tenant, client_domain) {
                Some(h) => ResumeStepView::Answer(h),
                None => match lookup {
                    Err(e) => ResumeStepView::Answer(
                        hop_to(
                            500,
                            error_url(
                                "/error"@,
                                "server_error"@,
                                "Failed to query consent grants: "@ + e@,
                                opt_text(p.state),
                            ),
                        ),
                    ),
                    Ok(_) => if consented(lookup, p.scope@) {
                        ResumeStepView::Issue
                    } else {
                        ResumeStepView::Consent
                    },
                },
            }
        },
    }
}

/// Resumes a parked request, taken out of the cache, after sign-in.
pub fn authorize_resume(
    session: &Session,
    pending: &Option<PendingAuth>,
    tenant: &Option<String>,
    client_domain: &Option<String>,
    lookup: &ConsentLookup,
    now: i64,
) -> (r: ResumeStep)
    requires
        is_clock(now),
    ensures
        r@ == resume_step(session.user@, *pending, *tenant, *client_domain, *lookup),
        r matches ResumeStep::Issue(i) ==> i.continues(pending->0, *session, now),
        r matches ResumeStep::Consent(e) ==> reparks(e, pending->0, session.user@, now),
{
    let user = session.user.as_str();
    let p = match pending {
        Some(p) => p,
        None => {
            return ResumeStep::Answer(invalid_hop());
        },
    };
    if !pending_user_matches(p, user) {
        return ResumeStep::Answer(invalid_hop());
    }
    if let Err(h) = check_continuation(p, tenant, client_domain) {
        return ResumeStep::Answer(h);
    }
    match lookup {
        Err(e) => {
            let d = cat("Failed to query consent grants: ", e.as_str());
            ResumeStep::Answer(
                hop(
                    500,
                    oauth2_error_url("/error", "server_error", d.as_str(), as_opt_str(&p.state)),
                ),
            )
        },
        Ok(Some(granted)) => if scopes_cover(granted.as_str(), p.scope.as_str()) {
            ResumeStep::Issue(issue_pending(p, session, now))
        } else {
            ResumeStep::Consent(park_for_consent(p, user, now))
        },
        Ok(None) => ResumeStep::Consent(park_for_consent(p, user, now)),
    }
}

/// The answer once a code for a parked request was issued, or could not be.
pub open spec fn issued_hop(pending: PendingAuth, code: Result<String, String>) -> HopView {
    match code {
        Ok(c) => hop_to(
            200,
            callback_url(
                pending.callback_uri@,
                c@,
                opt_text(pending.state),
                Some(pending.scope@),
            ),
        ),
        Err(e) => hop_to(
            500,
            error_url("/error"@, "server_error"@, e@, opt_text(pending.state)),
        ),
    }
}

/// The answer once a code for a parked request was issued, or could not be.
pub fn continuation_issued(pending: &PendingAuth, code: &Result<String, String>) -> (r: Hop)
    ensures
        r@ == issued_hop(*pending, *code),
{
    match code {
        Ok(c) => hop(
            200,
            callback_url_with_code(
                pending.callback_uri.as_str(),
                c.as_str(),
                as_opt_str(&pending.state),
                Some(pending.scope.as_str()),
            ),
        ),
        Err(e) => hop(
            500,
            oauth2_error_url("/error", "server_error", e.as_str(), as_opt_str(&pending.state)),
        ),
    }
}

/// The entry of a parked request that is parked again now, at the consent
/// stage and bound to `user`.
pub open spec fn reparks(e: PendingAuth, pending: PendingAuth, user: Seq<char>, now: i64) -> bool {
    &&& e.client_id@ == pending.client_id@
    &&& e.callback_uri@ == pending.callback_uri@
    &&& e.scope@ == pending.scope@
    &&& opt_text(e.state) == opt_text(pending.state)
    &&& opt_text(e.nonce) == opt_text(pending.nonce)
    &&& opt_text(e.code_challenge) == opt_text(pending.code_challenge)
    &&& opt_text(e.code_challenge_method) == (match pending_pkce(pending) {
        Some(k) => Some(k.0),
        None => None,
    })
    &&& e.stage@ == "consent"@
    &&& opt_text(e.park_user) == Some(user)
    &&& e.created_at == now
}

/// The parked request again, at the consent stage and bound to `user`.
pub fn park_for_consent(pending: &PendingAuth, user: &str, now: i64) -> (r: PendingAuth)
    ensures
        reparks(r, *pending, user@, now),
{
    let method = match &pending.code_challenge {
        Some(_) => {
            let plain = match &pending.code_challenge_method {
                Some(m) => same(m.as_str(), "plain"),
                None => false,
            };
            if plain {
                Some("plain".to_owned())
            } else {
                Some("s256".to_owned())
            }
        },
        None => None,
    };
    PendingAuth {
        client_id: pending.client_id.clone(),
        callback_uri: pending.callback_uri.clone(),
        scope: pending.scope.clone(),
        state: copy_opt(&pending.state),
        nonce: copy_opt(&pending.nonce),
        code_challenge: copy_opt(&pending.code_challenge),
        code_challenge_method: method,
        stage: "consent".to_owned(),
        park_user: Some(user.to_owned()),
        created_at: now,
    }
}

/// The answer once a resumed request was parked for consent, or was not.
pub open spec fn consent_hop(state: Option<Seq<char>>, csrf: Seq<char>, stored: bool) -> HopView {
    if stored {
        hop_to(200, consent_url(csrf))
    } else {
        hop_to(
            500,
            error_url(
                "/error"@,
                "server_error"@,
                "Failed to store pending consent request"@,
                state,
            ),
        )
    }
}

/// The answer once a resumed request was parked for consent, or was not.
pub fn resume_parked(pending: &PendingAuth, csrf: &str, stored: bool) -> (r: Hop)
    ensures
        r@ == consent_hop(opt_text(pending.state), csrf@, stored),
{
    if stored {
        hop(200, consent_redirect(csrf))
    } else {
        hop(
            500,
            oauth2_error_url(
                "/error",
                "server_error",
                "Failed to store pending consent request",
                as_opt_str(&pending.state),
            ),
        )
    }
}

/// The key of the parked request whose consent screen is asked for, or why none
/// is shown.
pub open spec fn shown_key(has_session: bool, state: Option<Seq<char>>) -> Result<
    Seq<char>,
    ProblemView,
> {
    if !has_session {
        Err(problem_of(401, ProblemKind::Unauthorized, ""@))
    } else {
        match state {
            Some(s) => if s.len() > 0 {
                Ok(pending_key_of(s))
            } else {
                Err(problem_of(400, ProblemKind::BadRequest, "Missing state"@))
            },
            None => Err(problem_of(400, ProblemKind::BadRequest, "Missing state"@)),
        }
    }
}

/// The key of the parked request whose consent screen is asked for.
pub fn consent_info_key(has_session: bool, state: Option<&str>) -> (r: Result<String, Problem>)
    ensures
        (match r {
            Ok(k) => Ok(k@),
            Err(p) => Err(p@),
        }) == shown_key(has_session, opt_str(state)),
{
    if !has_session {
        return Err(problem(401, ProblemKind::Unauthorized, ""));
    }
    match state {
        Some(s) => if s.is_empty() {
            Err(problem(400, ProblemKind::BadRequest, "Missing state"))
        } else {
            Ok(pending_key(s))
        },
        None => Err(problem(400, ProblemKind::BadRequest, "Missing state")),
    }
}

/// Whether a user may see the consent screen of a parked request.
pub open spec fn may_see(pending: Option<PendingAuth>, user: Seq<char>) -> bool {
    pending is Some && user_matches(pending->0, user)
}

/// The consent screen of a parked request, shown to the user who parked it.
pub fn consent_info(user: &str, pending: &Option<PendingAuth>) -> (r: Result<
    ConsentRequestInfo,
    Problem,
>)
    ensures
        r is Ok <==> may_see(*pending, user@),
        r matches Ok(info) ==> info.shows(pending->0.client_id@, pending->0.scope@),
        r matches Err(p) ==> p@ == problem_of(
            400,
            ProblemKind::BadRequest,
            "Unknown or expired consent state"@,
        ),
{
    match pending {
        Some(p) => if pending_user_matches(p, user) {
            Ok(consent_screen(p.client_id.as_str(), p.scope.as_str()))
        } else {
            Err(problem(400, ProblemKind::BadRequest, "Unknown or expired consent state"))
        },
        None => Err(problem(400, ProblemKind::BadRequest, "Unknown or expired consent state")),
    }
}

/// The user's decision on a consent screen.
pub struct ConsentDecision {
    pub state: String,
    pub decision: String,
}

/// What a consent decision leads to.
pub enum ConsentStep {
    Answer(Hop),
    /// Replace the user's earlier consent, then issue a code.
    Replace(IssueRequest),
}

pub enum ConsentStepView {
    Answer(HopView),
    Replace,
}

impl View for ConsentStep {
    type V = ConsentStepView;

    open spec fn view(&self) -> ConsentStepView {
        match self {
            ConsentStep::Answer(h) => ConsentStepView::Answer(h@),
            ConsentStep::Replace(_) => ConsentStepView::Replace,
        }
    }
}

/// The callback that tells the client that the user declined.
pub open spec fn denied_hop(pending: PendingAuth) -> HopView {
    hop_to(
        200,
        error_url(
            pending.callback_uri@,
            "access_denied"@,
            "User denied consent for this client."@,
            opt_text(pending.state),
        ),
    )
}

/// What a consent decision leads to: the parked request must be the user's
/// own; any decision but `accept` is told to the client.
pub open spec fn submit_step(
    user: Seq<char>,
    pending: Option<PendingAuth>,
    decision: Seq<char>,
    tenant: Option<String>,
    client_domain: Option<String>,
) -> ConsentStepView {
    match pending {
        None => ConsentStepView::Answer(invalid_state()),
        Some(p) => if !user_matches(p, user) {
            ConsentStepView::Answer(invalid_state())
        } else if decision != "accept"@ {
            ConsentStepView::Answer(denied_hop(p))
        } else {
            match continuation_fault(p, tenant, client_domain) {
                Some(h) => ConsentStepView::Answer(h),
                None => ConsentStepView::Replace,
            }
        },
    }
}

/// Decides on a submitted consent, given the parked request taken out of the
/// cache.
pub fn consent_submit(
    session: &Session,
    pending: &Option<PendingAuth>,
    decision: &str,
    tenant: &Option<String>,
    client_domain: &Option<String>,
    now: i64,
) -> (r: ConsentStep)
    requires
        is_clock(now),
    ensures
        r@ == submit_step(session.user@, *pending, decision@, *tenant, *client_domain),
        r matches ConsentStep::Replace(i) ==> i.continues(pending->0, *session, now),
{
    let user = session.user.as_str();
    let p = match pending {
        Some(p) => p,
        None => {
            return ConsentStep::Answer(invalid_hop());
        },
    };
    if !pending_user_matches(p, user) {
        return ConsentStep::Answer(invalid_hop());
    }
    if !same(decision, "accept") {
        return ConsentStep::Answer(
            hop(
                200,
                oauth2_error_url(
                    p.callback_uri.as_str(),
                    "access_denied",
                    "User denied consent for this client.",
                    as_opt_str(&p.state),
                ),
            ),
        );
    }
    match check_continuation(p, tenant, client_domain) {
        Err(h) => ConsentStep::Answer(h),
        Ok(_) => ConsentStep::Replace(issue_pending(p, session, now)),
    }
}

/// The answer where the user's earlier consent could not be replaced.
pub fn consent_not_replaced(pending: &PendingAuth, error: &str) -> (r: Hop)
    ensures
        r@ == hop_to(
            500,
            error_url(
                "/error"@,
                "server_error"@,
                "Failed to update consent grants: "@ + error@,
                opt_text(pending.state),
            ),
        ),
{
    let d = cat("Failed to update consent grants: ", error);
    hop(
        500,
        oauth2_error_url("/error", "server_error", d.as_str(), as_opt_str(&pending.state)),
    )
}

/// A request parked by one user's session yields nothing to another user: not
/// a code, not a consent, and the same answer as a state that does not exist.
pub proof fn law_parked_request_is_bound_to_its_user(
    user: Seq<char>,
    pending: PendingAuth,
    decision: Seq<char>,
    tenant: Option<String>,
    client_domain: Option<String>,
    lookup: ConsentLookup,
)
    requires
        pending.park_user is Some,
        pending.park_user->0@ != user,
    ensures
        resume_step(user, Some(pending), tenant, client_domain, lookup) == resume_step(
            user,
            None,
            tenant,
            client_domain,
            lookup,
        ),
        submit_step(user, Some(pending), decision, tenant, client_domain) == submit_step(
            user,
            None,
            decision,
            tenant,
            client_domain,
        ),
        resume_step(user, Some(pending), tenant, client_domain, lookup)
            == ResumeStepView::Answer(invalid_state()),
{
}

/// No code is issued for a resumed request unless an earlier consent of the
/// user covers every scope that it asks for.
pub proof fn law_resume_issues_only_under_consent(
    user: Seq<char>,
    pending: PendingAuth,
    tenant: Option<String>,
    client_domain: Option<String>,
    lookup: ConsentLookup,
)
    requires
        resume_step(user, Some(pending), tenant, client_domain, lookup) is Issue,
    ensures
        consented(lookup, pending.scope@),
        user_matches(pending, user),
        tenant is Some && opt_text(client_domain) == Some(tenant->0@),
{
}

/// What happens to parked requests.
pub enum ParkOp {
    Park { state: Seq<char>, entry: PendingAuth },
    /// The request of this state is resumed, by whoever.
    Resume(Seq<char>),
    /// A decision on the request of this state is submitted, by whoever.
    Submit(Seq<char>),
    /// The consent screen of this state is shown.
    Show(Seq<char>),
}

impl ParkOp {
    /// What it does to the store of parked requests.
    pub open spec fn on_store(self) -> StoreOp<PendingAuth> {
        match self {
            ParkOp::Park { state, entry } => StoreOp::Put(pending_key_of(state), entry),
            ParkOp::Resume(state) => StoreOp::Take(pending_key_of(state)),
            ParkOp::Submit(state) => StoreOp::Take(pending_key_of(state)),
            ParkOp::Show(_) => StoreOp::Leave,
        }
    }
}

/// The requests that are parked after a run.
pub open spec fn park_run(ops: Seq<ParkOp>) -> Map<Seq<char>, PendingAuth> {
    store_run(ops.map_values(|o: ParkOp| o.on_store()))
}

proof fn lemma_pending_keys_differ(a: Seq<char>, b: Seq<char>)
    ensures
        pending_key_of(a) == pending_key_of(b) ==> a == b,
{
    let n = "auth_pending:"@.len() as int;
    assert(pending_key_of(a).skip(n) =~= a);
    assert(pending_key_of(b).skip(n) =~= b);
}

/// A parked request is continued at most once: in any run, once its state was
/// resumed or decided upon, by its user or by anybody else, the state is worth
/// nothing. A later submission or resumption is answered as one of a state
/// that never was, and no consent screen is shown, not even to the user who
/// parked it.
pub proof fn law_states_are_spent(
    ops: Seq<ParkOp>,
    i: int,
    j: int,
    state: Seq<char>,
    user: Seq<char>,
    decision: Seq<char>,
    tenant: Option<String>,
    client_domain: Option<String>,
    consent: ConsentLookup,
)
    requires
        0 <= i < j <= ops.len(),
        ops[i] == ParkOp::Submit(state) || ops[i] == ParkOp::Resume(state),
        forall|k: int|
            i < k < j ==> !((#[trigger] ops[k]) matches ParkOp::Park { state: other, entry }
                && other == state),
    ensures
        ({
            let pending = lookup(park_run(ops.take(j)), pending_key_of(state));
            &&& submit_step(user, pending, decision, tenant, client_domain)
                == ConsentStepView::Answer(invalid_state())
            &&& resume_step(user, pending, tenant, client_domain, consent)
                == ResumeStepView::Answer(invalid_state())
            &&& !may_see(pending, user)
        }),
{
    let f = |o: ParkOp| o.on_store();
    let stored = ops.map_values(f);
    assert(stored.take(j) =~= ops.take(j).map_values(f));
    assert forall|k: int| i < k < j implies !((#[trigger] stored[k]) matches StoreOp::Put(other, _)
        && other == pending_key_of(state)) by {
        assert(stored[k] == ops[k].on_store());
        if let ParkOp::Park { state: other, entry } = ops[k] {
            lemma_pending_keys_differ(other, state);
        }
    }
    assert(stored[i] == ops[i].on_store());
    law_taken_is_gone(stored, i, j, pending_key_of(state));
}

/// Declining never changes a consent: the client is told on its own callback.
pub proof fn law_declined_consent_is_reported(
    user: Seq<char>,
    pending: PendingAuth,
    decision: Seq<char>,
    tenant: Option<String>,
    client_domain: Option<String>,
)
    requires
        user_matches(pending, user),
        decision != "accept"@,
    ensures
        submit_step(user, Some(pending), decision, tenant, client_domain)
            == ConsentStepView::Answer(denied_hop(pending)),
{
}

} // verus!
