//! The refresh grant: rotation of refresh tokens within a family that ends.

use crate::oidc::authorize::is_clock;
use crate::oidc::exchange::{require_active_user, user_fault, TokenRequest};
use crate::oidc::mint::{
    id_token_of, signing_fault, signing_refusal, MintPlan, MintRequest, OidcRefreshTokenData, Signing,
    FAMILY_LIFETIME,
};
use crate::oidc::scope::{covers, law_covers_reflexive, scopes_cover};
use crate::reply::{refuse, refused, Refusal, RefusalView};
use crate::text::{blank, cat, copy_texts, is_blank, opt_text, same, texts};
use vstd::prelude::*;

verus! {

/// A decoded refresh token.
pub struct RefreshClaims {
    pub iss: String,
    pub sub: String,
    pub exp: i64,
    pub auth_time: Option<u64>,
    pub data: OidcRefreshTokenData,
}

/// The name under which a revoked family is recorded.
pub open spec fn family_marker(family: Seq<char>) -> Seq<char> {
    "oidc_refresh_family:"@ + family
}

pub fn refresh_family_marker(family: &str) -> (r: String)
    ensures
        r@ == family_marker(family@),
{
    cat("oidc_refresh_family:", family)
}

/// The second at which a family ends, whatever is rotated in it.
pub open spec fn family_end(created_at: i64) -> int {
    created_at + FAMILY_LIFETIME
}

pub fn refresh_family_end(family_created_at: i64) -> (r: i64)
    requires
        family_end(family_created_at) <= i64::MAX,
    ensures
        r == family_end(family_created_at),
{
    family_created_at + FAMILY_LIFETIME
}

/// The minutes that the successor of a refresh token lives: at most to the
/// end of the family.
pub open spec fn successor_span(now: i64, end: int) -> int {
    (if now + FAMILY_LIFETIME < end {
        now + FAMILY_LIFETIME
    } else {
        end
    } - now) / 60
}

pub fn successor_minutes(now: i64, end: i64) -> (r: i32)
    requires
        is_clock(now),
        now < end,
    ensures
        r == successor_span(now, end as int),
        0 <= r,
        now + r * 60 <= end,
{
    let latest: i64 = now + FAMILY_LIFETIME;
    let until: i64 = if latest < end {
        latest
    } else {
        end
    };
    ((until - now) / 60) as i32
}

/// What the store says of a presented refresh token.
pub struct RefreshFacts {
    /// The token's claims, where its signature and expiry hold.
    pub decoded: Option<RefreshClaims>,
    /// Whether the token was revoked or already rotated.
    pub token_revoked: bool,
    /// Whether the token's family was revoked.
    pub family_revoked: bool,
    /// Whether the token's user is active, where the store knows the user.
    pub user_active: Option<bool>,
    /// Whether the tenant has a signing key.
    pub has_key: bool,
}

impl RefreshFacts {
    /// The end of the token's family is a second that can be represented.
    pub open spec fn wf(&self) -> bool {
        self.decoded matches Some(c) ==> family_end(c.data.family_created_at) <= i64::MAX
    }
}

/// What a refresh request leads to.
pub enum RefreshStep {
    /// Nothing changes.
    Refuse(Refusal),
    /// The token was used before: its family is revoked until it ends.
    Poison { marker: String, until: i64, refusal: Refusal },
    /// The token is exchanged for new ones.
    Rotate(MintRequest),
}

impl MintRequest {
    /// What a refresh token with the claims `c` is exchanged for, whatever the
    /// scope and however long the successor lives: tokens for its user, with
    /// the factors and the time of the sign-in and without a nonce; the client
    /// and the family stay, and the family's start with them.
    pub open spec fn carries(&self, c: RefreshClaims, jti: Seq<char>, client_id: Seq<char>, now: i64) -> bool {
        &&& self.user_id@ == c.sub@
        &&& self.auth_time == (match c.auth_time {
            Some(t) => t,
            None => now as u64,
        })
        &&& self.nonce is None
        &&& self.jti@ == jti
        &&& self.client_id@ == client_id
        &&& texts(self.mfa@) == texts(c.data.mfa@)
        &&& self.family@ == c.data.family@
        &&& self.family_created_at == c.data.family_created_at
    }
}

pub enum RefreshStepView {
    Refuse(RefusalView),
    Poison { marker: Seq<char>, until: int, refusal: RefusalView },
    Rotate { scope: Seq<char>, minutes: int },
}

impl View for RefreshStep {
    type V = RefreshStepView;

    open spec fn view(&self) -> RefreshStepView {
        match self {
            RefreshStep::Refuse(r) => RefreshStepView::Refuse(r@),
            RefreshStep::Poison { marker, until, refusal } => RefreshStepView::Poison {
                marker: marker@,
                until: *until as int,
                refusal: refusal@,
            },
            RefreshStep::Rotate(t) => RefreshStepView::Rotate {
                scope: t.scope@,
                minutes: t.refresh_minutes as int,
            },
        }
    }
}

/// The scope of a refreshed grant: the token's own, or a part of it.
pub open spec fn narrowed_scope(original: Seq<char>, requested: Option<Seq<char>>) -> Option<
    Seq<char>,
> {
    match requested {
        Some(s) => if is_blank(s) {
            Some(original)
        } else if covers(original, s) {
            Some(s)
        } else {
            None
        },
        None => Some(original),
    }
}

pub fn refresh_scope(original: &str, requested: &Option<String>) -> (r: Option<String>)
    ensures
        opt_text(r) == narrowed_scope(original@, opt_text(*requested)),
{
    match requested {
        Some(s) => if blank(s.as_str()) {
            Some(original.to_owned())
        } else if scopes_cover(original, s.as_str()) {
            Some(s.clone())
        } else {
            None
        },
        None => Some(original.to_owned()),
    }
}

pub open spec fn reuse_refusal() -> RefusalView {
    refused(
        400,
        "invalid_grant"@,
        "Refresh token reuse detected; the token family has been revoked"@,
    )
}

fn refuse_reuse() -> (r: Refusal)
    ensures
        r@ == reuse_refusal(),
{
    refuse(400, "invalid_grant", "Refresh token reuse detected; the token family has been revoked")
}

/// What a refresh request leads to, given what is wrong with the token's
/// user, if anything. A reused token revokes its family before the user is
/// looked at; every check comes before anything is changed.
pub open spec fn refresh_verdict(
    p: TokenRequest,
    issuer: Seq<char>,
    client_id: Seq<char>,
    f: RefreshFacts,
    user: Option<Seq<char>>,
    now: i64,
) -> RefreshStepView {
    if p.refresh_token is None || p.refresh_token->0@.len() == 0 {
        RefreshStepView::Refuse(
            refused(400, "invalid_request"@, "Missing required parameter: refresh_token"@),
        )
    } else if f.decoded is None {
        RefreshStepView::Refuse(
            refused(400, "invalid_grant"@, "Unknown or expired refresh token"@),
        )
    } else {
        let c = f.decoded->0;
        let end = family_end(c.data.family_created_at);
        if c.iss@ != issuer || c.data.typ@ != "refresh"@ || c.data.client_id@ != client_id {
            RefreshStepView::Refuse(
                refused(
                    400,
                    "invalid_grant"@,
                    "Refresh token was issued to a different client"@,
                ),
            )
        } else if now >= end {
            RefreshStepView::Refuse(
                refused(
                    400,
                    "invalid_grant"@,
                    "Refresh token family has expired; re-authentication required"@,
                ),
            )
        } else if f.token_revoked || f.family_revoked {
            RefreshStepView::Poison {
                marker: family_marker(c.data.family@),
                until: end,
                refusal: reuse_refusal(),
            }
        } else if user is Some {
            RefreshStepView::Refuse(refused(400, "invalid_grant"@, user->0))
        } else {
            match narrowed_scope(c.data.scope@, opt_text(p.scope)) {
                None => RefreshStepView::Refuse(
                    refused(
                        400,
                        "invalid_scope"@,
                        "Requested scope exceeds the scope granted to the refresh token"@,
                    ),
                ),
                Some(scope) => if !f.has_key {
                    RefreshStepView::Refuse(
                        refused(500, "server_error"@, signing_fault(Signing::Key)),
                    )
                } else {
                    RefreshStepView::Rotate { scope, minutes: successor_span(now, end) }
                },
            }
        }
    }
}

/// What a refresh request leads to, the token's user included.
pub open spec fn refresh_decision(
    p: TokenRequest,
    issuer: Seq<char>,
    client_id: Seq<char>,
    f: RefreshFacts,
    now: i64,
) -> RefreshStepView {
    let user = match f.decoded {
        Some(c) => user_fault(c.sub@, f.user_active),
        None => None,
    };
    refresh_verdict(p, issuer, client_id, f, user, now)
}

/// Decides on a refresh request before anything is signed or revoked.
pub fn handle_refresh(
    p: &TokenRequest,
    issuer: &str,
    client_id: &str,
    f: &RefreshFacts,
    jti: &str,
    now: i64,
) -> (r: RefreshStep)
    requires
        is_clock(now),
        f.wf(),
    ensures
        r@ == refresh_decision(*p, issuer@, client_id@, *f, now),
        r matches RefreshStep::Rotate(t) ==> t.carries(f.decoded->0, jti@, client_id@, now),
{
    let user = match &f.decoded {
        Some(c) => match require_active_user(c.sub.as_str(), f.user_active) {
            Ok(_) => None,
            Err(e) => Some(e),
        },
        None => None,
    };
    decide_refresh(p, issuer, client_id, f, &user, jti, now)
}

/// Decides on a refresh request, given what is wrong with the token's user.
pub fn decide_refresh(
    p: &TokenRequest,
    issuer: &str,
    client_id: &str,
    f: &RefreshFacts,
    user: &Option<String>,
    jti: &str,
    now: i64,
) -> (r: RefreshStep)
    requires
        is_clock(now),
        f.wf(),
    ensures
        r@ == refresh_verdict(*p, issuer@, client_id@, *f, opt_text(*user), now),
        r matches RefreshStep::Rotate(t) ==> t.carries(f.decoded->0, jti@, client_id@, now),
{
    let presented = match &p.refresh_token {
        Some(t) => !t.as_str().is_empty(),
        None => false,
    };
    if !presented {
        return RefreshStep::Refuse(
            refuse(400, "invalid_request", "Missing required parameter: refresh_token"),
        );
    }
    let c = match &f.decoded {
        Some(c) => c,
        None => {
            return RefreshStep::Refuse(
                refuse(400, "invalid_grant", "Unknown or expired refresh token"),
            );
        },
    };
    if !same(c.iss.as_str(), issuer) || !same(c.data.typ.as_str(), "refresh") || !same(
        c.data.client_id.as_str(),
        client_id,
    ) {
        return RefreshStep::Refuse(
            refuse(400, "invalid_grant", "Refresh token was issued to a different client"),
        );
    }
    let end: i64 = refresh_family_end(c.data.family_created_at);
    if now >= end {
        return RefreshStep::Refuse(
            refuse(
                400,
                "invalid_grant",
                "Refresh token family has expired; re-authentication required",
            ),
        );
    }
    if f.token_revoked || f.family_revoked {
        return RefreshStep::Poison {
            marker: refresh_family_marker(c.data.family.as_str()),
            until: end,
            refusal: refuse_reuse(),
        };
    }
    if let Some(e) = user {
        return RefreshStep::Refuse(refuse(400, "invalid_grant", e.as_str()));
    }
    match refresh_scope(c.data.scope.as_str(), &p.scope) {
        None => RefreshStep::Refuse(
            refuse(
                400,
                "invalid_scope",
                "Requested scope exceeds the scope granted to the refresh token",
            ),
        ),
        Some(scope) => if f.has_key {
            RefreshStep::Rotate(
                MintRequest {
                    user_id: c.sub.clone(),
                    scope,
                    jti: jti.to_owned(),
                    client_id: client_id.to_owned(),
                    nonce: None,
                    mfa: copy_texts(&c.data.mfa),
                    auth_time: match c.auth_time {
                        Some(t) => t,
                        None => now as u64,
                    },
                    family: c.data.family.clone(),
                    family_created_at: c.data.family_created_at,
                    refresh_minutes: successor_minutes(now, end),
                },
            )
        } else {
            RefreshStep::Refuse(signing_refusal(Signing::Key))
        },
    }
}

/// What recording the presented token as used leads to, after its successors
/// were signed.
pub enum RefreshCommit {
    /// The new tokens are handed out.
    Done,
    /// Another request used the token first: the family is revoked.
    Poison(Refusal),
    /// The token could not be recorded.
    Fail(Refusal),
}

pub enum RefreshCommitView {
    Done,
    Poison(RefusalView),
    Fail(RefusalView),
}

impl View for RefreshCommit {
    type V = RefreshCommitView;

    open spec fn view(&self) -> RefreshCommitView {
        match self {
            RefreshCommit::Done => RefreshCommitView::Done,
            RefreshCommit::Poison(e) => RefreshCommitView::Poison(e@),
            RefreshCommit::Fail(e) => RefreshCommitView::Fail(e@),
        }
    }
}

/// What recording the presented token leads to.
pub open spec fn commit_of(recorded: Option<bool>) -> RefreshCommitView {
    match recorded {
        Some(true) => RefreshCommitView::Done,
        Some(false) => RefreshCommitView::Poison(reuse_refusal()),
        None => RefreshCommitView::Fail(
            refused(500, "server_error"@, "Failed to revoke refresh token"@),
        ),
    }
}

/// Decides on the recording of the presented token: `recorded` says whether
/// this request was the one that recorded it, or that the store failed.
pub fn refresh_commit(recorded: Option<bool>) -> (r: RefreshCommit)
    ensures
        r@ == commit_of(recorded),
{
    match recorded {
        Some(won) => if won {
            RefreshCommit::Done
        } else {
            RefreshCommit::Poison(refuse_reuse())
        },
        None => RefreshCommit::Fail(
            refuse(500, "server_error", "Failed to revoke refresh token"),
        ),
    }
}

/// A successor stays in its family and never outlives it: neither by the
/// rotation at hand nor by any chain of rotations, since the family's end does
/// not move.
pub proof fn law_successor_ends_with_its_family(
    step: RefreshStep,
    p: TokenRequest,
    issuer: Seq<char>,
    client_id: Seq<char>,
    f: RefreshFacts,
    jti: Seq<char>,
    now: i64,
    plan: MintPlan,
)
    requires
        is_clock(now),
        step@ == refresh_decision(p, issuer, client_id, f, now),
        step matches RefreshStep::Rotate(t) && t.carries(f.decoded->0, jti, client_id, now)
            && plan.mints(t),
        plan.refresh is Some,
    ensures
        plan.refresh->0.data.family@ == f.decoded->0.data.family@,
        now + plan.refresh->0.minutes * 60 <= family_end(f.decoded->0.data.family_created_at),
        family_end(plan.refresh->0.data.family_created_at) == family_end(
            f.decoded->0.data.family_created_at,
        ),
{
}

/// A refreshed ID token has no nonce and tells of the sign-in that the token's
/// family goes back to, by the same factors; it vouches for the new access
/// token.
pub proof fn law_refreshed_id_tokens_tell_of_the_sign_in(
    m: MintRequest,
    c: RefreshClaims,
    jti: Seq<char>,
    client_id: Seq<char>,
    now: i64,
    access_token: Seq<char>,
)
    requires
        m.carries(c, jti, client_id, now),
        c.auth_time is Some,
    ensures
        id_token_of(m, access_token) matches Some(t) ==> {
            &&& t.user_id == c.sub@
            &&& t.client_id == client_id
            &&& t.nonce is None
            &&& t.mfa == texts(c.data.mfa@)
            &&& Some(t.auth_time) == c.auth_time
            &&& t.access_token == access_token
        },
{
}

/// A rotated grant never holds a scope that the presented token did not.
pub proof fn law_rotation_never_widens(
    p: TokenRequest,
    issuer: Seq<char>,
    client_id: Seq<char>,
    f: RefreshFacts,
    now: i64,
)
    requires
        refresh_decision(p, issuer, client_id, f, now) is Rotate,
    ensures
        refresh_decision(p, issuer, client_id, f, now) matches RefreshStepView::Rotate {
            scope,
            minutes,
        } && covers(f.decoded->0.data.scope@, scope),
{
    law_covers_reflexive(f.decoded->0.data.scope@);
}

/// A token that was used, or whose family was revoked, never rotates again;
/// while its family lives, presenting it revokes the family.
pub proof fn law_reuse_revokes_the_family(
    p: TokenRequest,
    issuer: Seq<char>,
    client_id: Seq<char>,
    f: RefreshFacts,
    used: RefreshFacts,
    now: i64,
    later: i64,
)
    requires
        refresh_decision(p, issuer, client_id, f, now) is Rotate,
        used.decoded == f.decoded,
        used.token_revoked || used.family_revoked,
    ensures
        !(refresh_decision(p, issuer, client_id, used, later) is Rotate),
        later < family_end(f.decoded->0.data.family_created_at) ==> refresh_decision(
            p,
            issuer,
            client_id,
            used,
            later,
        ) == (RefreshStepView::Poison {
            marker: family_marker(f.decoded->0.data.family@),
            until: family_end(f.decoded->0.data.family_created_at),
            refusal: reuse_refusal(),
        }),
{
}

/// A deactivated or deleted user's family does not rotate; the refusal changes
/// nothing, so the same token rotates once the user is active again.
pub proof fn law_inactive_user_does_not_rotate(
    p: TokenRequest,
    issuer: Seq<char>,
    client_id: Seq<char>,
    f: RefreshFacts,
    inactive: RefreshFacts,
    now: i64,
)
    requires
        refresh_decision(p, issuer, client_id, f, now) is Rotate,
        inactive.decoded == f.decoded,
        inactive.token_revoked == f.token_revoked,
        inactive.family_revoked == f.family_revoked,
        inactive.user_active != Some(true),
    ensures
        refresh_decision(p, issuer, client_id, inactive, now) is Refuse,
{
}

/// What is recorded of a family of refresh tokens: the members that were used,
/// and whether the family was revoked.
pub struct FamilyStore {
    pub used: Set<Seq<char>>,
    pub revoked: bool,
}

/// A member of the family presented at the token endpoint.
pub struct Presentation {
    pub request: TokenRequest,
    pub issuer: Seq<char>,
    pub client_id: Seq<char>,
    pub claims: Option<RefreshClaims>,
    pub user_active: Option<bool>,
    pub has_key: bool,
    pub now: i64,
}

impl Presentation {
    /// The presented token.
    pub open spec fn token(self) -> Seq<char> {
        match self.request.refresh_token {
            Some(t) => t@,
            None => Seq::empty(),
        }
    }

    /// What the store says when the token is presented.
    pub open spec fn facts(self, store: FamilyStore) -> RefreshFacts {
        RefreshFacts {
            decoded: self.claims,
            token_revoked: store.used.contains(self.token()),
            family_revoked: store.revoked,
            user_active: self.user_active,
            has_key: self.has_key,
        }
    }

    /// What presenting the token leads to.
    pub open spec fn decision(self, store: FamilyStore) -> RefreshStepView {
        refresh_decision(
            self.request,
            self.issuer,
            self.client_id,
            self.facts(store),
            self.now,
        )
    }
}

/// What is recorded once a token was presented: a rotated one is used, a
/// reused one revokes the family.
pub open spec fn recorded(store: FamilyStore, p: Presentation) -> FamilyStore {
    match p.decision(store) {
        RefreshStepView::Refuse(_) => store,
        RefreshStepView::Poison { marker, until, refusal } => FamilyStore { revoked: true, ..store },
        RefreshStepView::Rotate { scope, minutes } => FamilyStore {
            used: store.used.insert(p.token()),
            ..store
        },
    }
}

/// What is recorded of a family after its members were presented one by one.
pub open spec fn family_run(ps: Seq<Presentation>) -> FamilyStore
    decreases ps.len(),
{
    if ps.len() == 0 {
        FamilyStore { used: Set::empty(), revoked: false }
    } else {
        recorded(family_run(ps.drop_last()), ps.last())
    }
}

/// Whether the presentation at `i` rotates its token.
pub open spec fn rotates_at(ps: Seq<Presentation>, i: int) -> bool {
    ps[i].decision(family_run(ps.take(i))) is Rotate
}

/// Whether the presentation at `i` is found to be a reuse.
pub open spec fn reuse_at(ps: Seq<Presentation>, i: int) -> bool {
    ps[i].decision(family_run(ps.take(i))) is Poison
}

proof fn lemma_records_stay(ps: Seq<Presentation>, i: int, j: int)
    requires
        0 <= i <= j <= ps.len(),
    ensures
        family_run(ps.take(i)).revoked ==> family_run(ps.take(j)).revoked,
        forall|t: Seq<char>| #[trigger]
            family_run(ps.take(i)).used.contains(t) ==> family_run(ps.take(j)).used.contains(t),
    decreases j - i,
{
    if i < j {
        lemma_records_stay(ps, i, j - 1);
        assert(ps.take(j).drop_last() =~= ps.take(j - 1));
    }
}

/// However the members of a family are presented, each of them rotates at most
/// once, and once any of them was reused none of them ever rotates again.
pub proof fn law_rotation_is_once_and_reuse_is_final(ps: Seq<Presentation>, i: int, j: int)
    requires
        0 <= i < j < ps.len(),
    ensures
        rotates_at(ps, i) && ps[j].token() == ps[i].token() ==> !rotates_at(ps, j),
        reuse_at(ps, i) ==> !rotates_at(ps, j),
{
    lemma_records_stay(ps, i + 1, j);
    assert(ps.take(i + 1).drop_last() =~= ps.take(i));
    assert(ps.take(i + 1).last() == ps[i]);
    if rotates_at(ps, i) {
        let t = ps[i].token();
        assert(family_run(ps.take(i + 1)).used.contains(t));
        assert(family_run(ps.take(j)).used.contains(t));
        if ps[j].token() == t {
            assert(ps[j].facts(family_run(ps.take(j))).token_revoked);
        }
    }
}

} // verus!
