//! Logout: ending a session and telling the clients about it.

use crate::outside::{
    check_second, decode_hint, hint_of, hint_view, kid_of, token_kid, url_encode, HintClaims,
};
use crate::oidc::urls::param;
use crate::reply::{problem, problem_of, Problem, ProblemKind, ProblemView};
use crate::text::{has_char, has_text, opt_text, same, texts};
use vstd::prelude::*;

verus! {

/// A logout token lives for two minutes.
pub const LOGOUT_TOKEN_SECONDS: i64 = 120;

/// A delivery is given up after this many attempts.
pub const BACKCHANNEL_MAX_ATTEMPTS: i32 = 10;

/// The latest nanosecond that a timestamp can hold.
pub const LAST_NANOSECOND: i128 = 253402207200999999999;

/// What makes a token a logout token: an identifier of its own, and the event.
pub struct LogoutTokenData {
    pub jti: String,
    /// The name of the only event in the token's `events` claim.
    pub event: String,
}

/// What a logout token says: who logged out, to whom it is told, that it is a
/// logout. It carries no nonce and nothing of the session.
pub struct LogoutToken {
    pub iss: String,
    pub sub: String,
    pub aud: String,
    pub iat: i64,
    pub exp: i64,
    pub data: LogoutTokenData,
}

impl LogoutToken {
    /// The token tells a client of this issuer that a user logged out.
    pub open spec fn tells(
        &self,
        issuer: Seq<char>,
        sub: Seq<char>,
        client_id: Seq<char>,
        jti: Seq<char>,
        now: i64,
    ) -> bool {
        &&& self.iss@ == issuer
        &&& self.sub@ == sub
        &&& self.aud@ == client_id
        &&& self.iat == now
        &&& self.exp == now + LOGOUT_TOKEN_SECONDS
        &&& self.data.jti@ == jti
        &&& self.data.event@ == "http://schemas.openid.net/event/backchannel-logout"@
    }
}

/// The claims of a logout token signed now.
pub fn logout_token(issuer: &str, sub: &str, client_id: &str, jti: &str, now: i64) -> (r: LogoutToken)
    requires
        crate::oidc::authorize::is_clock(now),
    ensures
        r.tells(issuer@, sub@, client_id@, jti@, now),
{
    LogoutToken {
        iss: issuer.to_owned(),
        sub: sub.to_owned(),
        aud: client_id.to_owned(),
        iat: now,
        exp: now + LOGOUT_TOKEN_SECONDS,
        data: LogoutTokenData {
            jti: jti.to_owned(),
            event: "http://schemas.openid.net/event/backchannel-logout".to_owned(),
        },
    }
}

/// A consent of the user and what the store knows of its client.
pub struct ConsentRow {
    pub client_id: String,
    /// The client's identifier, where the client still exists.
    pub client: Option<String>,
    /// Where the client wants to be told of logouts.
    pub uri: Option<String>,
}

/// Whether an earlier row is of the same client.
pub open spec fn seen_before(rows: Seq<ConsentRow>, i: int) -> bool {
    exists|j: int| 0 <= j < i && (#[trigger] rows[j]).client_id@ == rows[i].client_id@
}

/// Where a row's client is told of a logout, if anywhere.
pub open spec fn row_target(row: ConsentRow) -> Option<(Seq<char>, Seq<char>)> {
    match (row.client, row.uri) {
        (Some(client), Some(uri)) => if uri@.len() > 0 {
            Some((uri@, client@))
        } else {
            None
        },
        _ => None,
    }
}

/// The clients to tell of a logout: each client with a consent once, in order,
/// where it exists and wants to be told.
pub open spec fn logout_targets(rows: Seq<ConsentRow>) -> Seq<(Seq<char>, Seq<char>)>
    decreases rows.len(),
{
    if rows.len() == 0 {
        Seq::empty()
    } else {
        let earlier = logout_targets(rows.drop_last());
        if seen_before(rows, rows.len() - 1) {
            earlier
        } else {
            match row_target(rows.last()) {
                Some(t) => earlier.push(t),
                None => earlier,
            }
        }
    }
}

/// The views of a list of targets.
pub open spec fn target_views(v: Seq<(String, String)>) -> Seq<(Seq<char>, Seq<char>)> {
    v.map_values(|t: (String, String)| (t.0@, t.1@))
}

/// The clients to tell of a logout: where, and which.
pub fn backchannel_logout_targets(rows: &Vec<ConsentRow>) -> (r: Vec<(String, String)>)
    ensures
        target_views(r@) == logout_targets(rows@),
{
    let mut out: Vec<(String, String)> = Vec::new();
    let mut i: usize = 0;
    proof {
        assert(target_views(out@) =~= logout_targets(rows@.take(0)));
    }
    while i < rows.len()
        invariant
            i <= rows@.len(),
            target_views(out@) == logout_targets(rows@.take(i as int)),
        decreases rows@.len() - i,
    {
        let ghost prefix = rows@.take(i + 1);
        proof {
            assert(prefix.drop_last() =~= rows@.take(i as int));
            assert(prefix.last() == rows@[i as int]);
        }
        let mut seen = false;
        let mut j: usize = 0;
        while j < i
            invariant
                j <= i < rows@.len(),
                seen <==> exists|k: int|
                    0 <= k < j && (#[trigger] rows@[k]).client_id@ == rows@[i as int].client_id@,
            decreases i - j,
        {
            if same(rows[j].client_id.as_str(), rows[i].client_id.as_str()) {
                seen = true;
            }
            j = j + 1;
        }
        proof {
            if seen {
                let k = choose|k: int|
                    0 <= k < i && (#[trigger] rows@[k]).client_id@ == rows@[i as int].client_id@;
                assert(prefix[k].client_id@ == prefix[i as int].client_id@);
                assert(seen_before(prefix, prefix.len() - 1));
            } else if seen_before(prefix, prefix.len() - 1) {
                let k = choose|k: int|
                    0 <= k < i && (#[trigger] prefix[k]).client_id@ == prefix[i as int].client_id@;
                assert(rows@[k].client_id@ == rows@[i as int].client_id@);
            }
        }
        let ghost before = target_views(out@);
        if !seen {
            if let (Some(client), Some(uri)) = (&rows[i].client, &rows[i].uri) {
                if !uri.as_str().is_empty() {
                    out.push((uri.clone(), client.clone()));
                    proof {
                        assert(target_views(out@) =~= before.push((uri@, client@)));
                    }
                }
            }
        }
        i = i + 1;
    }
    proof {
        assert(rows@.take(rows@.len() as int) =~= rows@);
    }
    out
}

/// A delivery that waits for its next attempt.
pub struct BackchannelTask {
    pub id: String,
    pub uri: String,
    pub issuer: String,
    pub domain_id: String,
    pub sub: String,
    pub client_id: String,
    pub attempts: i32,
    /// In nanoseconds.
    pub next_attempt_at: i128,
}

impl BackchannelTask {
    /// A task has a count of attempts that can take one more.
    pub open spec fn wf(&self) -> bool {
        0 <= self.attempts < i32::MAX
    }
}

impl BackchannelTask {
    /// A delivery to a client that was queued at `now` and not tried yet.
    pub open spec fn queues(
        &self,
        target: (Seq<char>, Seq<char>),
        issuer: Seq<char>,
        domain: Seq<char>,
        user_id: Seq<char>,
        now: i128,
    ) -> bool {
        &&& self.uri@ == target.0
        &&& self.client_id@ == target.1
        &&& self.issuer@ == issuer
        &&& self.domain_id@ == domain
        &&& self.sub@ == user_id
        &&& self.attempts == 0
        &&& self.next_attempt_at == now
    }
}

/// A delivery queued now, due at once.
pub fn queue_backchannel_delivery(
    id: String,
    target: (String, String),
    issuer: &str,
    domain: &str,
    user_id: &str,
    now: i128,
) -> (r: BackchannelTask)
    ensures
        r.id == id,
        r.uri == target.0,
        r.client_id == target.1,
        r.queues((target.0@, target.1@), issuer@, domain@, user_id@, now),
        r.wf(),
{
    BackchannelTask {
        id,
        uri: target.0,
        issuer: issuer.to_owned(),
        domain_id: domain.to_owned(),
        sub: user_id.to_owned(),
        client_id: target.1,
        attempts: 0,
        next_attempt_at: now,
    }
}

/// Whether a task is due.
pub fn is_due(task: &BackchannelTask, now: i128) -> (r: bool)
    ensures
        r == (task.next_attempt_at <= now),
{
    task.next_attempt_at <= now
}

/// Two to the power of `n`.
pub open spec fn doubled(n: nat) -> int
    decreases n,
{
    if n == 0 {
        1
    } else {
        2 * doubled((n - 1) as nat)
    }
}

/// The minutes between an attempt and the next: they double with every failed
/// attempt, up to 64.
pub open spec fn backoff_minutes(attempts: int) -> int {
    if attempts >= 6 {
        64
    } else if attempts <= 0 {
        1
    } else {
        doubled(attempts as nat)
    }
}

fn backoff(attempts: i32) -> (r: i128)
    requires
        1 <= attempts,
    ensures
        r == backoff_minutes(attempts as int),
{
    let mut n: i32 = 0;
    let mut minutes: i128 = 1;
    proof {
        reveal_with_fuel(doubled, 8);
    }
    while n < attempts && n < 6
        invariant
            0 <= n <= 6,
            n <= attempts,
            minutes == doubled(n as nat),
            1 <= minutes <= 64,
            minutes <= doubled(6),
        decreases 6 - n,
    {
        proof {
            reveal_with_fuel(doubled, 8);
        }
        minutes = minutes * 2;
        n = n + 1;
    }
    minutes
}

/// What becomes of a task after an attempt.
#[derive(Clone, Copy, Debug, PartialEq, Eq, Structural)]
pub enum Delivery {
    /// The client acknowledged: the task is deleted.
    Done,
    /// The last attempt failed: the task is deleted.
    GivenUp,
    /// The task waits for its next attempt.
    Retry { attempts: i32, next_attempt_at: i128 },
}

/// When the next attempt is made: after the backoff, or at once where no
/// timestamp is that late.
pub open spec fn next_attempt(attempts: int, now: int) -> int {
    let next = now + backoff_minutes(attempts) * 60 * 1_000_000_000;
    if next <= LAST_NANOSECOND {
        next
    } else {
        now
    }
}

/// What becomes of a task after an attempt.
pub open spec fn delivery(attempts: int, delivered: bool, now: int) -> Delivery {
    if delivered {
        Delivery::Done
    } else if attempts + 1 >= BACKCHANNEL_MAX_ATTEMPTS {
        Delivery::GivenUp
    } else {
        Delivery::Retry {
            attempts: (attempts + 1) as i32,
            next_attempt_at: next_attempt(attempts + 1, now) as i128,
        }
    }
}

/// Decides what becomes of a task after an attempt at `now`.
pub fn deliver_backchannel_task(task: &BackchannelTask, delivered: bool, now: i128) -> (r: Delivery)
    requires
        task.wf(),
        -LAST_NANOSECOND <= now <= LAST_NANOSECOND,
    ensures
        r == delivery(task.attempts as int, delivered, now as int),
{
    if delivered {
        return Delivery::Done;
    }
    let attempts: i32 = task.attempts + 1;
    if attempts >= BACKCHANNEL_MAX_ATTEMPTS {
        return Delivery::GivenUp;
    }
    let minutes: i128 = backoff(attempts);
    proof {
        reveal_with_fuel(doubled, 8);
        assert(1 <= minutes <= 64);
    }
    let next: i128 = now + minutes * 60 * 1_000_000_000;
    if next <= LAST_NANOSECOND {
        Delivery::Retry { attempts, next_attempt_at: next }
    } else {
        Delivery::Retry { attempts, next_attempt_at: now }
    }
}

/// A retried task keeps its invariant and has one attempt less before it; so
/// every task ends after at most ten attempts, and one that has made as many
/// ends with its next attempt.
pub proof fn law_deliveries_end(attempts: int, delivered: bool, now: int)
    requires
        0 <= attempts < i32::MAX,
    ensures
        delivery(attempts, delivered, now) matches Delivery::Retry {
            attempts: next,
            next_attempt_at,
        } ==> attempts < next < BACKCHANNEL_MAX_ATTEMPTS,
        attempts >= BACKCHANNEL_MAX_ATTEMPTS - 1 ==> delivery(attempts, delivered, now)
            == (if delivered {
            Delivery::Done
        } else {
            Delivery::GivenUp
        }),
{
}

/// A failed task is not due again at once, as long as timestamps last.
pub proof fn law_retry_backs_off(attempts: int, now: int)
    requires
        0 <= attempts < i32::MAX,
        -LAST_NANOSECOND <= now <= LAST_NANOSECOND - 3_840_000_000_000,
    ensures
        delivery(attempts, false, now) matches Delivery::Retry {
            attempts: next,
            next_attempt_at,
        } ==> now + 120_000_000_000 <= next_attempt_at <= now + 3_840_000_000_000,
{
    reveal_with_fuel(doubled, 8);
}

/// The parameters of a logout request.
pub struct EndSessionRequest {
    pub id_token_hint: Option<String>,
    pub client_id: Option<String>,
    pub post_logout_redirect_uri: Option<String>,
    pub state: Option<String>,
}

/// A text where there is one and it is not empty.
pub open spec fn given(o: Option<Seq<char>>) -> Option<Seq<char>> {
    match o {
        Some(s) => if s.len() > 0 {
            Some(s)
        } else {
            None
        },
        None => None,
    }
}

fn given_text(o: &Option<String>) -> (r: Option<String>)
    ensures
        opt_text(r) == given(opt_text(*o)),
{
    match o {
        Some(s) => if s.as_str().is_empty() {
            None
        } else {
            Some(s.clone())
        },
        None => None,
    }
}

/// The key that a logout hint is signed with.
pub fn hint_key(hint: &str) -> (r: Option<String>)
    ensures
        opt_text(r) == kid_of(hint@),
{
    token_kid(hint)
}

/// A hint is accepted from its own issuer only: whom it names, and for which
/// client.
pub open spec fn accepted_hint(
    claims: Option<(Seq<char>, Seq<char>, Seq<char>)>,
    issuer: Seq<char>,
) -> Option<(Seq<char>, Seq<char>)> {
    match claims {
        Some((iss, sub, aud)) => if iss == issuer {
            Some((aud, sub))
        } else {
            None
        },
        None => None,
    }
}

/// The view of an identified client and user.
pub open spec fn pair_view(o: Option<(String, String)>) -> Option<(Seq<char>, Seq<char>)> {
    match o {
        Some(p) => Some((p.0@, p.1@)),
        None => None,
    }
}

/// The client and the user that verified claims name, where they come from
/// `issuer`.
pub fn accept_hint(claims: Option<HintClaims>, issuer: &str) -> (r: Option<(String, String)>)
    ensures
        pair_view(r) == accepted_hint(hint_view(claims), issuer@),
{
    match claims {
        Some(c) => if same(c.iss.as_str(), issuer) {
            Some((c.aud, c.sub))
        } else {
            None
        },
        None => None,
    }
}

/// The client and the user that a hint names. Its signature and its issuer
/// must hold; an expired hint still identifies.
pub fn decode_id_token_hint(hint: &str, public_key: &[u8], issuer: &str) -> (r: Option<
    (String, String),
>)
    ensures
        pair_view(r) == accepted_hint(hint_of(hint@, public_key@), issuer@),
{
    accept_hint(decode_hint(hint, public_key), issuer)
}

/// The client that a logout request is made for: the one of the hint, else
/// the one of the parameter.
pub open spec fn logout_client(
    client_id: Option<Seq<char>>,
    hint: Option<(Seq<char>, Seq<char>)>,
) -> Option<Seq<char>> {
    match hint {
        Some((aud, _)) => Some(aud),
        None => given(client_id),
    }
}

/// The client and the user that a logout request names.
pub fn end_session_identity(client_id: &Option<String>, hint: Option<(String, String)>) -> (r: (
    Option<String>,
    Option<String>,
))
    ensures
        opt_text(r.0) == logout_client(opt_text(*client_id), pair_view(hint)),
        opt_text(r.1) == (match pair_view(hint) {
            Some((_, sub)) => Some(sub),
            None => None,
        }),
{
    match hint {
        Some((aud, sub)) => (Some(aud), Some(sub)),
        None => (given_text(client_id), None),
    }
}

/// What the store knows of the client of a logout request.
pub struct LogoutClient {
    pub domain_id: String,
    pub redirect_uris: Vec<String>,
    /// The logout redirect URIs of the client's extended metadata.
    pub post_logout_uris: Vec<String>,
}

/// Whether a client of the domain has registered a redirect URI.
pub open spec fn may_redirect(client: Option<LogoutClient>, domain: Seq<char>, uri: Seq<char>) -> bool {
    match client {
        Some(c) => c.domain_id@ == domain && (texts(c.redirect_uris@).contains(uri) || texts(
            c.post_logout_uris@,
        ).contains(uri)),
        None => false,
    }
}

/// Where a logout request wants to go to: nowhere, to a registered URI, or to
/// one that is refused.
pub open spec fn logout_redirect(
    asked: Option<Seq<char>>,
    client: Option<LogoutClient>,
    domain: Seq<char>,
) -> Result<Option<Seq<char>>, ProblemView> {
    match given(asked) {
        None => Ok(None),
        Some(uri) => if may_redirect(client, domain, uri) {
            Ok(Some(uri))
        } else {
            Err(
                problem_of(
                    400,
                    ProblemKind::Validation,
                    "post_logout_redirect_uri is not registered for this client"@,
                ),
            )
        },
    }
}

/// Checks where a logout request wants to go to; an unregistered URI is never
/// redirected to. `client` is the client that the request is made for.
pub fn end_session_redirect(asked: &Option<String>, client: &Option<LogoutClient>, domain: &str) -> (r:
    Result<Option<String>, Problem>)
    ensures
        (match r {
            Ok(u) => Ok(opt_text(u)),
            Err(p) => Err(p@),
        }) == logout_redirect(opt_text(*asked), *client, domain@),
{
    let uri = match given_text(asked) {
        Some(u) => u,
        None => {
            return Ok(None);
        },
    };
    let registered = match client {
        Some(c) => same(c.domain_id.as_str(), domain) && (has_text(&c.redirect_uris, uri.as_str())
            || has_text(&c.post_logout_uris, uri.as_str())),
        None => false,
    };
    if registered {
        Ok(Some(uri))
    } else {
        Err(
            problem(
                400,
                ProblemKind::Validation,
                "post_logout_redirect_uri is not registered for this client",
            ),
        )
    }
}

/// The claims of a session token that is presented at logout.
pub struct SessionClaims {
    pub iss: String,
    pub sub: String,
    pub aud: String,
    pub exp: i64,
}

/// Until when a presented session is recorded as ended: a session of this
/// issuer and domain until it would have expired, any other not at all.
pub fn session_to_end(claims: &Option<SessionClaims>, issuer: &str, domain: &str) -> (r: Option<i64>)
    ensures
        r == ends_until(*claims, issuer@, domain@),
{
    match claims {
        Some(c) => {
            if !same(c.iss.as_str(), issuer) || !same(c.aud.as_str(), domain) {
                return None;
            }
            match check_second(c.exp) {
                Ok(_) => Some(c.exp),
                Err(_) => None,
            }
        },
        None => None,
    }
}

/// Where the browser goes after logout, with the client's state where it sent
/// one.
pub open spec fn logout_location(uri: Seq<char>, state: Option<Seq<char>>) -> Seq<char> {
    match given(state) {
        Some(s) => uri + (if uri.contains('?') {
            "&"@
        } else {
            "?"@
        }) + "state="@ + param(s),
        None => uri,
    }
}

pub fn end_session_location(uri: &str, state: &Option<String>) -> (r: String)
    ensures
        r@ == logout_location(uri@, opt_text(*state)),
{
    let mut loc = uri.to_owned();
    if let Some(s) = given_text(state) {
        if has_char(uri, '?') {
            loc.append("&");
        } else {
            loc.append("?");
        }
        loc.append("state=");
        loc.append(url_encode(s.as_str()).as_str());
    }
    loc
}

/// What is known so far of a logout request. A fact that has not been asked
/// for yet is `None`.
pub struct EndSessionState {
    pub params: EndSessionRequest,
    pub domain: Option<String>,
    pub issuer: Option<String>,
    pub has_tenant: Option<bool>,
    /// The client and the user that the hint names, where it is accepted.
    pub hint: Option<Option<(String, String)>>,
    /// The client that the request is made for, where there is one.
    pub client: Option<Option<LogoutClient>>,
    /// The claims of the presented session token, where there is one.
    pub session: Option<Option<SessionClaims>>,
    /// Whether the presented session was recorded as ended.
    pub ended: Option<bool>,
    /// Whether the user's clients were told.
    pub told: bool,
}

/// What a logout request needs to know or to do next.
pub enum EndSessionAsk {
    Tenant,
    /// Decode this hint.
    Hint(String),
    /// Look up this client.
    Client(String),
    /// Read the presented session token.
    Session,
    /// Record the presented session as ended until this second.
    End(i64),
    /// Tell the clients of this user.
    Tell(String),
    /// Expire the session cookie and go to this location.
    Redirect(String),
    /// Expire the session cookie and say that the user is logged out.
    LoggedOut,
    Refuse(Problem),
}

pub enum EndSessionAskView {
    Tenant,
    Hint(Seq<char>),
    Client(Seq<char>),
    Session,
    End(i64),
    Tell(Seq<char>),
    Redirect(Seq<char>),
    LoggedOut,
    Refuse(ProblemView),
}

impl View for EndSessionAsk {
    type V = EndSessionAskView;

    open spec fn view(&self) -> EndSessionAskView {
        match self {
            EndSessionAsk::Tenant => EndSessionAskView::Tenant,
            EndSessionAsk::Hint(h) => EndSessionAskView::Hint(h@),
            EndSessionAsk::Client(c) => EndSessionAskView::Client(c@),
            EndSessionAsk::Session => EndSessionAskView::Session,
            EndSessionAsk::End(t) => EndSessionAskView::End(*t),
            EndSessionAsk::Tell(u) => EndSessionAskView::Tell(u@),
            EndSessionAsk::Redirect(l) => EndSessionAskView::Redirect(l@),
            EndSessionAsk::LoggedOut => EndSessionAskView::LoggedOut,
            EndSessionAsk::Refuse(p) => EndSessionAskView::Refuse(p@),
        }
    }
}

/// Until when a presented session is recorded as ended.
pub open spec fn ends_until(
    claims: Option<SessionClaims>,
    issuer: Seq<char>,
    domain: Seq<char>,
) -> Option<i64> {
    match claims {
        Some(c) => if c.iss@ == issuer && c.aud@ == domain && -377705023201 <= c.exp
            <= 253402207200 {
            Some(c.exp)
        } else {
            None
        },
        None => None,
    }
}

/// What a logout request needs next: where it wants to go is checked before
/// any session is ended; the user is the one of the ended session, else the
/// one of the hint.
pub open spec fn end_session_next(s: EndSessionState) -> EndSessionAskView {
    match (s.domain, s.issuer) {
        (None, _) => EndSessionAskView::Refuse(
            problem_of(400, ProblemKind::BadRequest, "unknown tenant domain"@),
        ),
        (Some(_), None) => EndSessionAskView::Refuse(
            problem_of(400, ProblemKind::BadRequest, "unknown issuer"@),
        ),
        (Some(domain), Some(issuer)) => match s.has_tenant {
            None => EndSessionAskView::Tenant,
            Some(false) => EndSessionAskView::Refuse(
                problem_of(400, ProblemKind::BadRequest, "unknown tenant domain"@),
            ),
            Some(true) => match (given(opt_text(s.params.id_token_hint)), s.hint) {
                (Some(h), None) => EndSessionAskView::Hint(h),
                (_, known) => end_session_for(
                    s,
                    domain@,
                    issuer@,
                    match known {
                        Some(h) => pair_view(h),
                        None => None,
                    },
                ),
            },
        },
    }
}

/// What a logout request needs once its hint is decoded.
pub open spec fn end_session_for(
    s: EndSessionState,
    domain: Seq<char>,
    issuer: Seq<char>,
    hint: Option<(Seq<char>, Seq<char>)>,
) -> EndSessionAskView {
    let asked = opt_text(s.params.post_logout_redirect_uri);
    match (given(asked), logout_client(opt_text(s.params.client_id), hint), s.client) {
        (Some(_), Some(client_id), None) => EndSessionAskView::Client(client_id),
        (_, _, known) => match logout_redirect(
            asked,
            match known {
                Some(c) => c,
                None => None,
            },
            domain,
        ) {
            Err(p) => EndSessionAskView::Refuse(p),
            Ok(target) => end_session_tell(s, domain, issuer, hint, target),
        },
    }
}

/// What a logout request needs once it is known where it goes.
pub open spec fn end_session_tell(
    s: EndSessionState,
    domain: Seq<char>,
    issuer: Seq<char>,
    hint: Option<(Seq<char>, Seq<char>)>,
    target: Option<Seq<char>>,
) -> EndSessionAskView {
    match s.session {
        None => EndSessionAskView::Session,
        Some(claims) => match (ends_until(claims, issuer, domain), s.ended) {
            (Some(until), None) => EndSessionAskView::End(until),
            (until, ended) => {
                let user = if until is Some && ended == Some(true) {
                    Some(claims->0.sub@)
                } else {
                    match hint {
                        Some((_, sub)) => Some(sub),
                        None => None,
                    }
                };
                if user is Some && !s.told {
                    EndSessionAskView::Tell(user->0)
                } else {
                    match target {
                        Some(uri) => EndSessionAskView::Redirect(
                            logout_location(uri, opt_text(s.params.state)),
                        ),
                        None => EndSessionAskView::LoggedOut,
                    }
                }
            },
        },
    }
}

/// Drives a logout request from what is known to what is needed next.
pub fn end_session(s: &EndSessionState) -> (r: EndSessionAsk)
    ensures
        r@ == end_session_next(*s),
{
    let domain = match &s.domain {
        Some(d) => d,
        None => {
            return EndSessionAsk::Refuse(
                problem(400, ProblemKind::BadRequest, "unknown tenant domain"),
            );
        },
    };
    let issuer = match &s.issuer {
        Some(i) => i,
        None => {
            return EndSessionAsk::Refuse(problem(400, ProblemKind::BadRequest, "unknown issuer"));
        },
    };
    match s.has_tenant {
        None => {
            return EndSessionAsk::Tenant;
        },
        Some(known) => {
            if !known {
                return EndSessionAsk::Refuse(
                    problem(400, ProblemKind::BadRequest, "unknown tenant domain"),
                );
            }
        },
    }
    let hint: Option<(String, String)> = match &s.hint {
        Some(Some((aud, sub))) => Some((aud.clone(), sub.clone())),
        Some(None) => None,
        None => match given_text(&s.params.id_token_hint) {
            Some(h) => {
                return EndSessionAsk::Hint(h);
            },
            None => None,
        },
    };
    let (client_id, hint_user) = end_session_identity(&s.params.client_id, hint);
    let target = {
        let asked = given_text(&s.params.post_logout_redirect_uri);
        match (asked, client_id, &s.client) {
            (Some(_), Some(id), None) => {
                return EndSessionAsk::Client(id);
            },
            (_, _, Some(client)) => end_session_redirect(
                &s.params.post_logout_redirect_uri,
                client,
                domain.as_str(),
            ),
            (_, _, None) => end_session_redirect(
                &s.params.post_logout_redirect_uri,
                &None,
                domain.as_str(),
            ),
        }
    };
    let target = match target {
        Ok(t) => t,
        Err(p) => {
            return EndSessionAsk::Refuse(p);
        },
    };
    let claims = match &s.session {
        Some(c) => c,
        None => {
            return EndSessionAsk::Session;
        },
    };
    let user = match session_to_end(claims, issuer.as_str(), domain.as_str()) {
        Some(until) => match s.ended {
            None => {
                return EndSessionAsk::End(until);
            },
            Some(ended) => match claims {
                Some(c) => if ended {
                    Some(c.sub.clone())
                } else {
                    hint_user
                },
                None => hint_user,
            },
        },
        None => hint_user,
    };
    if let Some(u) = user {
        if !s.told {
            return EndSessionAsk::Tell(u);
        }
    }
    match target {
        Some(uri) => EndSessionAsk::Redirect(
            end_session_location(uri.as_str(), &s.params.state),
        ),
        None => EndSessionAsk::LoggedOut,
    }
}

/// A logout request that asks to go to an unregistered URI ends nothing and
/// tells nobody: it is refused before.
pub proof fn law_refused_logout_ends_nothing(s: EndSessionState)
    requires
        end_session_next(s) is End || end_session_next(s) is Tell || end_session_next(s) is Redirect
            || end_session_next(s) is LoggedOut,
    ensures
        s.domain is Some,
        given(opt_text(s.params.post_logout_redirect_uri)) matches Some(uri) ==> s.client is Some
            && may_redirect(s.client->0, s.domain->0@, uri),
{
}

/// A logout redirects only to a URI that the client of this domain has
/// registered.
pub proof fn law_logout_redirects_to_registered_uris(
    asked: Option<Seq<char>>,
    client: Option<LogoutClient>,
    domain: Seq<char>,
    uri: Seq<char>,
)
    requires
        logout_redirect(asked, client, domain) == Ok::<Option<Seq<char>>, ProblemView>(Some(uri)),
    ensures
        client is Some,
        client->0.domain_id@ == domain,
        texts(client->0.redirect_uris@).contains(uri) || texts(
            client->0.post_logout_uris@,
        ).contains(uri),
{
}

/// Whether every row names its client by the client's own identifier.
pub open spec fn rows_resolved(rows: Seq<ConsentRow>) -> bool {
    forall|i: int|
        0 <= i < rows.len() ==> ((#[trigger] rows[i]).client matches Some(c) ==> c@
            == rows[i].client_id@)
}

/// Every client is told at most once of a logout, and only where the user has
/// a consent for it.
pub proof fn law_clients_are_told_once(rows: Seq<ConsentRow>)
    requires
        rows_resolved(rows),
    ensures
        forall|i: int, j: int|
            0 <= i < j < logout_targets(rows).len() ==> (#[trigger] logout_targets(rows)[i]).1 != (
            #[trigger] logout_targets(rows)[j]).1,
        forall|k: int|
            0 <= k < logout_targets(rows).len() ==> exists|i: int|
                0 <= i < rows.len() && (#[trigger] rows[i]).client_id@ == (
                #[trigger] logout_targets(rows)[k]).1,
    decreases rows.len(),
{
    if rows.len() > 0 {
        let front = rows.drop_last();
        let n = rows.len() - 1;
        assert(rows_resolved(front)) by {
            assert forall|i: int| 0 <= i < front.len() implies ((
            #[trigger] front[i]).client matches Some(c) ==> c@ == front[i].client_id@) by {
                assert(rows[i] == front[i]);
            }
        }
        law_clients_are_told_once(front);
        let old_targets = logout_targets(front);
        let new_targets = logout_targets(rows);
        assert forall|k: int| 0 <= k < new_targets.len() implies exists|i: int|
            0 <= i < rows.len() && (#[trigger] rows[i]).client_id@ == (
            #[trigger] new_targets[k]).1 by {
            if k < old_targets.len() {
                assert(new_targets[k] == old_targets[k]);
                let i = choose|i: int|
                    0 <= i < front.len() && (#[trigger] front[i]).client_id@ == old_targets[k].1;
                assert(rows[i].client_id@ == new_targets[k].1);
            } else {
                assert(rows[n].client_id@ == new_targets[k].1);
            }
        }
        assert forall|i: int, j: int| 0 <= i < j < new_targets.len() implies (
        #[trigger] new_targets[i]).1 != (#[trigger] new_targets[j]).1 by {
            assert(new_targets[i] == old_targets[i]);
            if j < old_targets.len() {
                assert(new_targets[j] == old_targets[j]);
            } else {
                let m = choose|m: int|
                    0 <= m < front.len() && (#[trigger] front[m]).client_id@ == old_targets[i].1;
                assert(new_targets[j].1 == rows[n].client_id@);
                if new_targets[i].1 == new_targets[j].1 {
                    assert(rows[m].client_id@ == rows[n].client_id@);
                    assert(seen_before(rows, n));
                }
            }
        }
    }
}

} // verus!
