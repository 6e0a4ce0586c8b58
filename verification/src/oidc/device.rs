//! The device grant: codes for devices, their approval and their redemption.

use crate::oidc::authorize::{effective_scope, is_clock, requested_or_default};
use crate::oidc::client::Client;
use crate::oidc::exchange::{form_get, form_value, require_active_user, user_fault};
use crate::oidc::scope::{consent_screen, scope_fault, validate_requested_scope, ConsentRequestInfo};
use crate::oidc::urls::param;
use crate::outside::{check_second, url_encode};
use crate::reply::{
    hop, hop_to, problem, problem_of, refuse, refused, text_or_refusal, Hop, HopView, Problem,
    ProblemKind, ProblemView, Refusal, RefusalView,
};
use crate::text::{cat, has_text, opt_text, same, texts};
use vstd::prelude::*;

verus! {

/// How long a device code lives, in seconds.
pub const DEVICE_LIFETIME: i64 = 1800;

/// The polling interval of a device that was told no other, in seconds.
pub const POLL_INTERVAL: i64 = 5;

/// Where a device request stands.
#[derive(Clone)]
pub enum DeviceStatus {
    Pending,
    /// An approval is being recorded.
    Approving,
    Approved,
    Denied,
    /// The approval was redeemed.
    Consumed,
    /// Any other status, by its name.
    Other(String),
}

pub enum DeviceStatusView {
    Pending,
    Approving,
    Approved,
    Denied,
    Consumed,
    Other(Seq<char>),
}

impl View for DeviceStatus {
    type V = DeviceStatusView;

    open spec fn view(&self) -> DeviceStatusView {
        match self {
            DeviceStatus::Pending => DeviceStatusView::Pending,
            DeviceStatus::Approving => DeviceStatusView::Approving,
            DeviceStatus::Approved => DeviceStatusView::Approved,
            DeviceStatus::Denied => DeviceStatusView::Denied,
            DeviceStatus::Consumed => DeviceStatusView::Consumed,
            DeviceStatus::Other(s) => DeviceStatusView::Other(s@),
        }
    }
}

/// The name of a status.
pub open spec fn status_name(status: DeviceStatusView) -> Seq<char> {
    match status {
        DeviceStatusView::Pending => "pending"@,
        DeviceStatusView::Approving => "approving"@,
        DeviceStatusView::Approved => "approved"@,
        DeviceStatusView::Denied => "denied"@,
        DeviceStatusView::Consumed => "consumed"@,
        DeviceStatusView::Other(s) => s,
    }
}

impl DeviceStatus {
    pub fn name(&self) -> (r: String)
        ensures
            r@ == status_name(self@),
    {
        match self {
            DeviceStatus::Pending => "pending".to_owned(),
            DeviceStatus::Approving => "approving".to_owned(),
            DeviceStatus::Approved => "approved".to_owned(),
            DeviceStatus::Denied => "denied".to_owned(),
            DeviceStatus::Consumed => "consumed".to_owned(),
            DeviceStatus::Other(s) => s.clone(),
        }
    }
}

/// A device request, from its start to its redemption.
#[derive(Clone)]
pub struct DeviceEntry {
    pub client_id: String,
    pub scope: String,
    pub user_code: String,
    pub status: DeviceStatus,
    pub user_id: Option<String>,
    pub expires_at: i64,
    pub last_polled_at: i64,
    /// The polling interval, once the device was told to slow down.
    pub interval: Option<i64>,
}

pub struct DeviceEntryView {
    pub client_id: Seq<char>,
    pub scope: Seq<char>,
    pub user_code: Seq<char>,
    pub status: DeviceStatusView,
    pub user_id: Option<Seq<char>>,
    pub expires_at: int,
    pub last_polled_at: int,
    pub interval: Option<int>,
}

impl View for DeviceEntry {
    type V = DeviceEntryView;

    open spec fn view(&self) -> DeviceEntryView {
        DeviceEntryView {
            client_id: self.client_id@,
            scope: self.scope@,
            user_code: self.user_code@,
            status: self.status@,
            user_id: opt_text(self.user_id),
            expires_at: self.expires_at as int,
            last_polled_at: self.last_polled_at as int,
            interval: match self.interval {
                Some(i) => Some(i as int),
                None => None,
            },
        }
    }
}

impl DeviceEntry {
    /// The interval can still be raised.
    pub open spec fn wf(&self) -> bool {
        interval_of(self@) <= i64::MAX - POLL_INTERVAL
    }
}

/// The polling interval in force.
pub open spec fn interval_of(e: DeviceEntryView) -> int {
    match e.interval {
        Some(i) => i,
        None => POLL_INTERVAL as int,
    }
}

/// Whether a device request has expired.
pub open spec fn has_expired(e: DeviceEntryView, now: int) -> bool {
    now > if e.expires_at < 0 {
        0
    } else {
        e.expires_at
    }
}

/// Whether a poll comes sooner than the interval allows.
pub open spec fn too_soon(e: DeviceEntryView, now: int) -> bool {
    e.last_polled_at > 0 && now - e.last_polled_at < interval_of(e)
}

/// What a poll learns.
pub enum Poll {
    ForeignClient,
    Expired,
    SlowDown,
    Pending,
    Denied,
    Approved { user_id: String, scope: String },
    Invalid,
}

pub enum PollView {
    ForeignClient,
    Expired,
    SlowDown,
    Pending,
    Denied,
    Approved { user_id: Seq<char>, scope: Seq<char> },
    Invalid,
}

impl View for Poll {
    type V = PollView;

    open spec fn view(&self) -> PollView {
        match self {
            Poll::ForeignClient => PollView::ForeignClient,
            Poll::Expired => PollView::Expired,
            Poll::SlowDown => PollView::SlowDown,
            Poll::Pending => PollView::Pending,
            Poll::Denied => PollView::Denied,
            Poll::Approved { user_id, scope } => PollView::Approved {
                user_id: user_id@,
                scope: scope@,
            },
            Poll::Invalid => PollView::Invalid,
        }
    }
}

/// One poll: the entry after it and what the poll learns. A poll by another
/// client, or after the end, leaves the entry alone; an approval is handed
/// out and consumed in one step.
pub open spec fn poll_step(e: DeviceEntryView, client_id: Seq<char>, now: int) -> (
    DeviceEntryView,
    PollView,
) {
    if e.client_id != client_id {
        (e, PollView::ForeignClient)
    } else if has_expired(e, now) {
        (e, PollView::Expired)
    } else if too_soon(e, now) {
        (
            DeviceEntryView {
                last_polled_at: now,
                interval: Some(interval_of(e) + POLL_INTERVAL),
                ..e
            },
            PollView::SlowDown,
        )
    } else {
        let polled = DeviceEntryView { last_polled_at: now, ..e };
        match e.status {
            DeviceStatusView::Pending => (polled, PollView::Pending),
            DeviceStatusView::Approving => (polled, PollView::Pending),
            DeviceStatusView::Denied => (polled, PollView::Denied),
            DeviceStatusView::Approved => (
                DeviceEntryView { status: DeviceStatusView::Consumed, ..polled },
                PollView::Approved {
                    user_id: match e.user_id {
                        Some(u) => u,
                        None => Seq::empty(),
                    },
                    scope: e.scope,
                },
            ),
            _ => (polled, PollView::Invalid),
        }
    }
}

/// Polls a device request for the client `client_id`.
pub fn poll_device(entry: &mut DeviceEntry, client_id: &str, now: i64) -> (r: Poll)
    requires
        is_clock(now),
        old(entry).wf(),
    ensures
        (final(entry)@, r@) == poll_step(old(entry)@, client_id@, now as int),
{
    if !same(entry.client_id.as_str(), client_id) {
        return Poll::ForeignClient;
    }
    let end: i64 = if entry.expires_at < 0 {
        0
    } else {
        entry.expires_at
    };
    if now > end {
        return Poll::Expired;
    }
    let interval: i64 = match entry.interval {
        Some(i) => i,
        None => POLL_INTERVAL,
    };
    if entry.last_polled_at > 0 && now - entry.last_polled_at < interval {
        entry.last_polled_at = now;
        entry.interval = Some(interval + POLL_INTERVAL);
        return Poll::SlowDown;
    }
    entry.last_polled_at = now;
    let approved = match &entry.status {
        DeviceStatus::Pending => {
            return Poll::Pending;
        },
        DeviceStatus::Approving => {
            return Poll::Pending;
        },
        DeviceStatus::Denied => {
            return Poll::Denied;
        },
        DeviceStatus::Approved => true,
        DeviceStatus::Consumed => false,
        DeviceStatus::Other(_) => false,
    };
    if !approved {
        return Poll::Invalid;
    }
    entry.status = DeviceStatus::Consumed;
    let user_id = match &entry.user_id {
        Some(u) => u.clone(),
        None => String::new(),
    };
    Poll::Approved { user_id, scope: entry.scope.clone() }
}

pub fn device_key(device_code: &str) -> (r: String)
    ensures
        r@ == "device:"@ + device_code@,
{
    cat("device:", device_code)
}

pub fn user_code_key(user_code: &str) -> (r: String)
    ensures
        r@ == "user_code:"@ + user_code@,
{
    cat("user_code:", user_code)
}

/// The key of the device request that a token request redeems, or why it
/// redeems none.
pub open spec fn redeemed_key(device_code: Option<Seq<char>>) -> Result<Seq<char>, RefusalView> {
    match device_code {
        Some(c) => if c.len() > 0 {
            Ok("device:"@ + c)
        } else {
            Err(refused(400, "invalid_request"@, "Missing required parameter: device_code"@))
        },
        None => Err(refused(400, "invalid_request"@, "Missing required parameter: device_code"@)),
    }
}

/// The key of the device request that a token request redeems.
pub fn device_token_request(device_code: &Option<String>) -> (r: Result<String, Refusal>)
    ensures
        text_or_refusal(r) == redeemed_key(opt_text(*device_code)),
{
    if let Some(c) = device_code {
        if !c.as_str().is_empty() {
            return Ok(device_key(c.as_str()));
        }
    }
    Err(refuse(400, "invalid_request", "Missing required parameter: device_code"))
}

/// What a poll is answered: nothing but an approval yields the user and the
/// scope to mint for. No poll at all means that the code is unknown.
pub open spec fn poll_answer(poll: Option<PollView>) -> Result<
    (Seq<char>, Seq<char>),
    RefusalView,
> {
    match poll {
        None => Err(refused(400, "invalid_grant"@, "device_code is invalid"@)),
        Some(p) => match p {
            PollView::ForeignClient => Err(
                refused(400, "invalid_grant"@, "device_code was issued to another client"@),
            ),
            PollView::Expired => Err(refused(400, "expired_token"@, "device_code has expired"@)),
            PollView::SlowDown => Err(refused(400, "slow_down"@, "polling too fast"@)),
            PollView::Pending => Err(
                refused(
                    400,
                    "authorization_pending"@,
                    "user has not yet completed authorization"@,
                ),
            ),
            PollView::Denied => Err(
                refused(400, "access_denied"@, "user denied authorization"@),
            ),
            PollView::Invalid => Err(refused(400, "invalid_grant"@, "device_code is invalid"@)),
            PollView::Approved { user_id, scope } => if user_id.len() == 0 {
                Err(refused(400, "invalid_grant"@, "device_code approval is malformed"@))
            } else {
                Ok((user_id, scope))
            },
        },
    }
}

pub fn answer_poll(poll: Option<Poll>) -> (r: Result<(String, String), Refusal>)
    ensures
        (match r {
            Ok(p) => Ok((p.0@, p.1@)),
            Err(e) => Err(e@),
        }) == poll_answer(
            match poll {
                Some(p) => Some(p@),
                None => None,
            },
        ),
{
    match poll {
        None => Err(refuse(400, "invalid_grant", "device_code is invalid")),
        Some(p) => match p {
            Poll::ForeignClient => Err(
                refuse(400, "invalid_grant", "device_code was issued to another client"),
            ),
            Poll::Expired => Err(refuse(400, "expired_token", "device_code has expired")),
            Poll::SlowDown => Err(refuse(400, "slow_down", "polling too fast")),
            Poll::Pending => Err(
                refuse(400, "authorization_pending", "user has not yet completed authorization"),
            ),
            Poll::Denied => Err(refuse(400, "access_denied", "user denied authorization")),
            Poll::Invalid => Err(refuse(400, "invalid_grant", "device_code is invalid")),
            Poll::Approved { user_id, scope } => if user_id.as_str().is_empty() {
                Err(refuse(400, "invalid_grant", "device_code approval is malformed"))
            } else {
                Ok((user_id, scope))
            },
        },
    }
}

/// Checks that the user who approved a device may still get tokens.
pub fn device_user_check(user_id: &str, active: Option<bool>) -> (r: Result<(), Refusal>)
    ensures
        r is Ok <==> user_fault(user_id@, active) is None,
        r matches Err(e) ==> user_fault(user_id@, active) is Some && e@ == refused(
            400,
            "invalid_grant"@,
            user_fault(user_id@, active)->0,
        ),
{
    match require_active_user(user_id, active) {
        Ok(_) => Ok(()),
        Err(e) => Err(refuse(400, "invalid_grant", e.as_str())),
    }
}

/// What a client that starts a device request is granted: the scope.
pub open spec fn device_gate(
    client_id: Option<Seq<char>>,
    scope: Option<Seq<char>>,
    has_tenant: bool,
    client: Result<Client, String>,
) -> Result<Seq<char>, RefusalView> {
    if client_id is None || client_id->0.len() == 0 {
        Err(refused(400, "invalid_request"@, "Missing required parameter: client_id"@))
    } else if !has_tenant {
        Err(refused(400, "invalid_request"@, "Unknown domain/tenant"@))
    } else {
        match client {
            Err(e) => Err(refused(401, "invalid_client"@, e@)),
            Ok(c) => if !texts(c.grant_types@).contains(
                "urn:ietf:params:oauth:grant-type:device_code"@,
            ) {
                Err(
                    refused(
                        400,
                        "unauthorized_client"@,
                        "client is not registered for the device authorization grant"@,
                    ),
                )
            } else {
                let asked = effective_scope(scope, c.scope@);
                match scope_fault(asked, texts(c.registered_scopes@)) {
                    Some(e) => Err(refused(400, "invalid_scope"@, e)),
                    None => Ok(asked),
                }
            },
        }
    }
}

/// A device authorization request.
pub struct DeviceAuthRequest {
    pub client_id: Option<String>,
    pub scope: Option<String>,
    pub client_secret: Option<String>,
}

/// The device authorization request that a form holds.
pub fn device_auth_request(pairs: &Vec<(String, String)>) -> (r: DeviceAuthRequest)
    ensures
        opt_text(r.client_id) == form_value(pairs@, "client_id"@),
        opt_text(r.scope) == form_value(pairs@, "scope"@),
        opt_text(r.client_secret) == form_value(pairs@, "client_secret"@),
{
    DeviceAuthRequest {
        client_id: form_get(pairs, "client_id"),
        scope: form_get(pairs, "scope"),
        client_secret: form_get(pairs, "client_secret"),
    }
}

/// Checks a device authorization request; `client` is the authenticated
/// client, or why authentication failed.
pub fn device_authorization(
    p: &DeviceAuthRequest,
    has_tenant: bool,
    client: &Result<Client, String>,
) -> (r: Result<String, Refusal>)
    ensures
        text_or_refusal(r) == device_gate(
            opt_text(p.client_id),
            opt_text(p.scope),
            has_tenant,
            *client,
        ),
{
    let named = match &p.client_id {
        Some(id) => !id.as_str().is_empty(),
        None => false,
    };
    if !named {
        return Err(refuse(400, "invalid_request", "Missing required parameter: client_id"));
    }
    if !has_tenant {
        return Err(refuse(400, "invalid_request", "Unknown domain/tenant"));
    }
    let c = match client {
        Ok(c) => c,
        Err(e) => {
            return Err(refuse(401, "invalid_client", e.as_str()));
        },
    };
    if !has_text(&c.grant_types, "urn:ietf:params:oauth:grant-type:device_code") {
        return Err(
            refuse(
                400,
                "unauthorized_client",
                "client is not registered for the device authorization grant",
            ),
        );
    }
    let asked = requested_or_default(&p.scope, c.scope.as_str());
    match validate_requested_scope(asked.as_str(), &c.registered_scopes) {
        Err(e) => Err(refuse(400, "invalid_scope", e.as_str())),
        Ok(_) => Ok(asked),
    }
}

/// A device request that starts now.
pub open spec fn fresh_device(
    client_id: Seq<char>,
    scope: Seq<char>,
    user_code: Seq<char>,
    now: int,
) -> DeviceEntryView {
    DeviceEntryView {
        client_id,
        scope,
        user_code,
        status: DeviceStatusView::Pending,
        user_id: None,
        expires_at: now + DEVICE_LIFETIME,
        last_polled_at: 0,
        interval: None,
    }
}

pub fn device_entry(client_id: &str, scope: &str, user_code: &str, now: i64) -> (r: DeviceEntry)
    requires
        is_clock(now),
    ensures
        r@ == fresh_device(client_id@, scope@, user_code@, now as int),
        r.wf(),
{
    DeviceEntry {
        client_id: client_id.to_owned(),
        scope: scope.to_owned(),
        user_code: user_code.to_owned(),
        status: DeviceStatus::Pending,
        user_id: None,
        expires_at: now + DEVICE_LIFETIME,
        last_polled_at: 0,
        interval: None,
    }
}

/// The answer to a device authorization request.
pub struct DeviceAuthResponse {
    pub device_code: String,
    pub user_code: String,
    pub verification_uri: String,
    pub verification_uri_complete: Option<String>,
    pub expires_in: u64,
    pub interval: u64,
}

impl DeviceAuthResponse {
    /// The codes of a device request, where the user enters theirs, and how the
    /// device polls.
    pub open spec fn offers(
        &self,
        issuer: Seq<char>,
        device_code: Seq<char>,
        user_code: Seq<char>,
    ) -> bool {
        &&& self.device_code@ == device_code
        &&& self.user_code@ == user_code
        &&& self.verification_uri@ == issuer + "/device-login"@
        &&& opt_text(self.verification_uri_complete) == Some(
            issuer + "/device-login?user_code="@ + user_code,
        )
        &&& self.expires_in == DEVICE_LIFETIME
        &&& self.interval == POLL_INTERVAL
    }
}

pub fn device_auth_response(issuer: &str, device_code: String, user_code: String) -> (r:
    DeviceAuthResponse)
    ensures
        r.offers(issuer@, device_code@, user_code@),
        r.device_code == device_code,
        r.user_code == user_code,
{
    let complete = crate::text::cat3(issuer, "/device-login?user_code=", user_code.as_str());
    DeviceAuthResponse {
        device_code,
        user_code,
        verification_uri: cat(issuer, "/device-login"),
        verification_uri_complete: Some(complete),
        expires_in: 1800,
        interval: 5,
    }
}

/// The answer where a device code could not be stored.
pub fn device_not_stored(error: &str) -> (r: Refusal)
    ensures
        r@ == refused(500, "server_error"@, "Failed to create device code: "@ + error@),
{
    let d = cat("Failed to create device code: ", error);
    refuse(500, "server_error", d.as_str())
}

/// The key of the device code that a user code names.
pub fn device_login_key(user_code: Option<&str>) -> (r: Result<String, Problem>)
    ensures
        (match r {
            Ok(k) => Ok(k@),
            Err(p) => Err(p@),
        }) == (match user_code {
            Some(c) => if c@.len() > 0 {
                Ok("user_code:"@ + c@)
            } else {
                Err(problem_of(400, ProblemKind::BadRequest, "Missing user_code"@))
            },
            None => Err(problem_of(400, ProblemKind::BadRequest, "Missing user_code"@)),
        }),
{
    match user_code {
        Some(c) => if c.is_empty() {
            Err(problem(400, ProblemKind::BadRequest, "Missing user_code"))
        } else {
            Ok(user_code_key(c))
        },
        None => Err(problem(400, ProblemKind::BadRequest, "Missing user_code")),
    }
}

/// The consent screen of a device request.
pub fn device_login_info(entry: &Option<DeviceEntry>) -> (r: Result<ConsentRequestInfo, Problem>)
    ensures
        r is Ok <==> entry is Some,
        r matches Ok(info) ==> info.shows(entry->0.client_id@, entry->0.scope@),
        r matches Err(p) ==> p@ == problem_of(
            400,
            ProblemKind::Validation,
            "User code not found or expired"@,
        ),
{
    match entry {
        Some(e) => Ok(consent_screen(e.client_id.as_str(), e.scope.as_str())),
        None => Err(problem(400, ProblemKind::Validation, "User code not found or expired")),
    }
}

/// A user's decision on a device request.
pub struct DeviceLoginApproveRequest {
    pub user_code: String,
    pub action: String,
}

/// The two decisions.
#[derive(Clone, Copy, Debug, PartialEq, Eq, Structural)]
pub enum DeviceAction {
    Approve,
    Deny,
}

/// Why a decision is not taken: a problem, or a hop to the sign-in page.
pub enum DecisionRefusal {
    Problem(Problem),
    SignIn(Hop),
}

pub enum DecisionRefusalView {
    Problem(ProblemView),
    SignIn(HopView),
}

impl View for DecisionRefusal {
    type V = DecisionRefusalView;

    open spec fn view(&self) -> DecisionRefusalView {
        match self {
            DecisionRefusal::Problem(p) => DecisionRefusalView::Problem(p@),
            DecisionRefusal::SignIn(h) => DecisionRefusalView::SignIn(h@),
        }
    }
}

/// The sign-in page that leads back to the device page.
pub open spec fn device_sign_in(user_code: Seq<char>) -> HopView {
    hop_to(
        401,
        "/login?redirect_uri="@ + param("/device-login?user_code="@ + param(user_code)),
    )
}

/// Which decision a request takes.
pub open spec fn decision_of(user_code: Seq<char>, action: Seq<char>, has_session: bool) -> Result<
    DeviceAction,
    DecisionRefusalView,
> {
    if user_code.len() == 0 {
        Err(
            DecisionRefusalView::Problem(
                problem_of(
                    400,
                    ProblemKind::Validation,
                    "Missing required parameter: user_code"@,
                ),
            ),
        )
    } else if action != "approve"@ && action != "deny"@ {
        Err(
            DecisionRefusalView::Problem(
                problem_of(
                    400,
                    ProblemKind::Validation,
                    "Invalid action: must be 'approve' or 'deny'"@,
                ),
            ),
        )
    } else if !has_session {
        Err(DecisionRefusalView::SignIn(device_sign_in(user_code)))
    } else if action == "approve"@ {
        Ok(DeviceAction::Approve)
    } else {
        Ok(DeviceAction::Deny)
    }
}

pub fn device_decision(p: &DeviceLoginApproveRequest, has_session: bool) -> (r: Result<
    DeviceAction,
    DecisionRefusal,
>)
    ensures
        (match r {
            Ok(a) => Ok(a),
            Err(e) => Err(e@),
        }) == decision_of(p.user_code@, p.action@, has_session),
{
    if p.user_code.as_str().is_empty() {
        return Err(
            DecisionRefusal::Problem(
                problem(400, ProblemKind::Validation, "Missing required parameter: user_code"),
            ),
        );
    }
    let approve = same(p.action.as_str(), "approve");
    if !approve && !same(p.action.as_str(), "deny") {
        return Err(
            DecisionRefusal::Problem(
                problem(
                    400,
                    ProblemKind::Validation,
                    "Invalid action: must be 'approve' or 'deny'",
                ),
            ),
        );
    }
    if !has_session {
        let back = cat("/device-login?user_code=", url_encode(p.user_code.as_str()).as_str());
        let url = cat("/login?redirect_uri=", url_encode(back.as_str()).as_str());
        return Err(DecisionRefusal::SignIn(hop(401, url)));
    }
    if approve {
        Ok(DeviceAction::Approve)
    } else {
        Ok(DeviceAction::Deny)
    }
}

/// What claiming a device request for approval finds.
pub enum Claim {
    /// It was decided before, or is being decided: its status.
    Already(String),
    /// It is claimed; this is what the consent records.
    Ready { client_id: String, scope: String, expires_at: i64 },
}

pub enum ClaimView {
    Already(Seq<char>),
    Ready { client_id: Seq<char>, scope: Seq<char>, expires_at: int },
}

impl View for Claim {
    type V = ClaimView;

    open spec fn view(&self) -> ClaimView {
        match self {
            Claim::Already(s) => ClaimView::Already(s@),
            Claim::Ready { client_id, scope, expires_at } => ClaimView::Ready {
                client_id: client_id@,
                scope: scope@,
                expires_at: *expires_at as int,
            },
        }
    }
}

/// Claiming: a pending request becomes one that is being approved; any other
/// stays as it is.
pub open spec fn claim_step(e: DeviceEntryView) -> (DeviceEntryView, ClaimView) {
    if e.status is Pending {
        (
            DeviceEntryView { status: DeviceStatusView::Approving, ..e },
            ClaimView::Ready { client_id: e.client_id, scope: e.scope, expires_at: e.expires_at },
        )
    } else {
        (e, ClaimView::Already(status_name(e.status)))
    }
}

pub fn claim_device(entry: &mut DeviceEntry) -> (r: Claim)
    ensures
        (final(entry)@, r@) == claim_step(old(entry)@),
{
    let pending = match &entry.status {
        DeviceStatus::Pending => true,
        _ => false,
    };
    if !pending {
        return Claim::Already(entry.status.name());
    }
    entry.status = DeviceStatus::Approving;
    Claim::Ready {
        client_id: entry.client_id.clone(),
        scope: entry.scope.clone(),
        expires_at: entry.expires_at,
    }
}

/// A claim given up: the request is pending again.
pub open spec fn rolled_back(e: DeviceEntryView) -> DeviceEntryView {
    DeviceEntryView { status: DeviceStatusView::Pending, ..e }
}

pub fn rollback_claim(entry: &mut DeviceEntry)
    ensures
        final(entry)@ == rolled_back(old(entry)@),
{
    entry.status = DeviceStatus::Pending;
}

/// A claim carried out: the request is approved by `user_id`.
pub open spec fn approved_by(e: DeviceEntryView, user_id: Seq<char>) -> DeviceEntryView {
    DeviceEntryView { status: DeviceStatusView::Approved, user_id: Some(user_id), ..e }
}

pub fn commit_approval(entry: &mut DeviceEntry, user_id: &str)
    ensures
        final(entry)@ == approved_by(old(entry)@, user_id@),
{
    entry.status = DeviceStatus::Approved;
    entry.user_id = Some(user_id.to_owned());
}

/// Denying: a pending request becomes a denied one; any other stays. The
/// status after it is told.
pub open spec fn deny_step(e: DeviceEntryView) -> (DeviceEntryView, Seq<char>) {
    if e.status is Pending {
        (
            DeviceEntryView { status: DeviceStatusView::Denied, user_id: None, ..e },
            "denied"@,
        )
    } else {
        (e, status_name(e.status))
    }
}

pub fn deny_device(entry: &mut DeviceEntry) -> (r: String)
    ensures
        (final(entry)@, r@) == deny_step(old(entry)@),
{
    let pending = match &entry.status {
        DeviceStatus::Pending => true,
        _ => false,
    };
    if !pending {
        return entry.status.name();
    }
    entry.status = DeviceStatus::Denied;
    entry.user_id = None;
    "denied".to_owned()
}

/// What the store answered while an approval is recorded.
pub enum ApproveEvent {
    /// The domain of the claimed request's client, where it is known.
    Client(Option<String>),
    /// Whether the user's earlier consent was revoked.
    Revoked(Result<(), String>),
    /// Whether the new consent was recorded.
    Recorded(Result<(), String>),
}

/// What to do next to record an approval.
#[derive(Clone, Copy, Debug, PartialEq, Eq, Structural)]
pub enum ApproveAction {
    RevokeConsent,
    RecordConsent,
    Commit,
}

/// The next action of an approval, or the problem on which the claim is given
/// up.
pub open spec fn approve_next(tenant: Seq<char>, expires_at: i64, event: ApproveEvent) -> Result<
    ApproveAction,
    ProblemView,
> {
    match event {
        ApproveEvent::Client(domain) => if opt_text(domain) == Some(tenant) {
            Ok(ApproveAction::RevokeConsent)
        } else {
            Err(
                problem_of(
                    400,
                    ProblemKind::NotFound,
                    "OAuth2 client is not registered with this provider"@,
                ),
            )
        },
        ApproveEvent::Revoked(Err(e)) => Err(
            problem_of(500, ProblemKind::Server, "Failed to update consent grants: "@ + e@),
        ),
        ApproveEvent::Revoked(Ok(_)) => if -377705023201 <= expires_at <= 253402207200 {
            Ok(ApproveAction::RecordConsent)
        } else {
            Err(
                problem_of(400, ProblemKind::Validation, "Device code expired or not found"@),
            )
        },
        ApproveEvent::Recorded(Err(e)) => Err(
            problem_of(500, ProblemKind::Server, "Failed to record authorization grant: "@ + e@),
        ),
        ApproveEvent::Recorded(Ok(_)) => Ok(ApproveAction::Commit),
    }
}

/// Drives an approval from one answer of the store to the next action.
pub fn device_login_approve(tenant: &str, expires_at: i64, event: &ApproveEvent) -> (r: Result<
    ApproveAction,
    Problem,
>)
    ensures
        (match r {
            Ok(a) => Ok(a),
            Err(p) => Err(p@),
        }) == approve_next(tenant@, expires_at, *event),
{
    match event {
        ApproveEvent::Client(domain) => {
            let here = match domain {
                Some(d) => same(d.as_str(), tenant),
                None => false,
            };
            if here {
                Ok(ApproveAction::RevokeConsent)
            } else {
                Err(
                    problem(
                        400,
                        ProblemKind::NotFound,
                        "OAuth2 client is not registered with this provider",
                    ),
                )
            }
        },
        ApproveEvent::Revoked(Err(e)) => {
            let d = cat("Failed to update consent grants: ", e.as_str());
            Err(problem(500, ProblemKind::Server, d.as_str()))
        },
        ApproveEvent::Revoked(Ok(_)) => match check_second(expires_at) {
            Ok(_) => Ok(ApproveAction::RecordConsent),
            Err(_) => Err(
                problem(400, ProblemKind::Validation, "Device code expired or not found"),
            ),
        },
        ApproveEvent::Recorded(Err(e)) => {
            let d = cat("Failed to record authorization grant: ", e.as_str());
            Err(problem(500, ProblemKind::Server, d.as_str()))
        },
        ApproveEvent::Recorded(Ok(_)) => Ok(ApproveAction::Commit),
    }
}

/// The answer to a device decision.
pub struct DeviceApproveResult {
    pub status: String,
    pub user: Option<String>,
    pub already_processed: Option<bool>,
}

impl DeviceApproveResult {
    /// The request was decided before.
    pub open spec fn tells_earlier(&self, status: Seq<char>) -> bool {
        &&& self.status@ == status
        &&& self.user is None
        &&& self.already_processed == Some(true)
    }

    /// The user approved it now.
    pub open spec fn tells_approval(&self, user_id: Seq<char>) -> bool {
        &&& self.status@ == "approved"@
        &&& opt_text(self.user) == Some(user_id)
        &&& self.already_processed is None
    }

    /// The user denied it now, where it is denied; else it was decided before.
    pub open spec fn tells_denial(&self, status: Seq<char>, user_id: Seq<char>) -> bool {
        if status == "denied"@ {
            &&& self.status@ == status
            &&& opt_text(self.user) == Some(user_id)
            &&& self.already_processed is None
        } else {
            self.tells_earlier(status)
        }
    }
}

/// The answer to a decision on a request that was decided before.
pub fn already_processed(status: String) -> (r: DeviceApproveResult)
    ensures
        r.tells_earlier(status@),
        r.status == status,
{
    DeviceApproveResult { status, user: None, already_processed: Some(true) }
}

/// The answer to an approval that was carried out.
pub fn approval_recorded(user_id: &str) -> (r: DeviceApproveResult)
    ensures
        r.tells_approval(user_id@),
{
    DeviceApproveResult {
        status: "approved".to_owned(),
        user: Some(user_id.to_owned()),
        already_processed: None,
    }
}

/// The answer to a denial, given the status that it found or left.
pub fn denial_answer(status: String, user_id: &str) -> (r: DeviceApproveResult)
    ensures
        r.tells_denial(status@, user_id@),
        r.status == status,
{
    if same(status.as_str(), "denied") {
        DeviceApproveResult { status, user: Some(user_id.to_owned()), already_processed: None }
    } else {
        already_processed(status)
    }
}

/// A poll by a client to which the code was not issued neither redeems the
/// request nor changes it.
pub proof fn law_foreign_poll_changes_nothing(e: DeviceEntryView, client_id: Seq<char>, now: int)
    requires
        e.client_id != client_id,
    ensures
        poll_step(e, client_id, now) == (e, PollView::ForeignClient),
        poll_answer(Some(poll_step(e, client_id, now).1)) is Err,
{
}

/// An approval is redeemed once: after the poll that got it, no poll by any
/// client at any time gets it again.
pub proof fn law_approval_is_redeemed_once(
    e: DeviceEntryView,
    client_id: Seq<char>,
    now: int,
    again: Seq<char>,
    later: int,
)
    requires
        poll_step(e, client_id, now).1 is Approved,
    ensures
        poll_step(e, client_id, now).0.status is Consumed,
        !(poll_step(poll_step(e, client_id, now).0, again, later).1 is Approved),
        poll_step(poll_step(e, client_id, now).0, again, later).0.status is Consumed,
{
}

/// A redeemed request stays redeemed whatever is done to it: polls, claims and
/// denials leave its status, and none of them yields an approval.
pub proof fn law_consumed_is_final(e: DeviceEntryView, client_id: Seq<char>, now: int)
    requires
        e.status is Consumed,
    ensures
        poll_step(e, client_id, now).0.status is Consumed,
        !(poll_step(e, client_id, now).1 is Approved),
        claim_step(e) == (e, ClaimView::Already("consumed"@)),
        deny_step(e) == (e, "consumed"@),
{
}

/// A decided request cannot be decided again.
pub proof fn law_decisions_are_final(e: DeviceEntryView)
    requires
        !(e.status is Pending),
    ensures
        claim_step(e).0 == e,
        claim_step(e).1 is Already,
        deny_step(e).0 == e,
{
}

/// A claim that is given up leaves the request as it was.
pub proof fn law_rollback_undoes_the_claim(e: DeviceEntryView)
    requires
        e.status is Pending,
    ensures
        rolled_back(claim_step(e).0) == e,
{
}

/// An approved request is handed to the client it belongs to, with the user
/// who approved it and the scope that was asked for.
pub proof fn law_approval_reaches_the_client(e: DeviceEntryView, user_id: Seq<char>, now: int)
    requires
        e.status is Pending,
        !has_expired(e, now),
        !too_soon(e, now),
    ensures
        poll_step(approved_by(claim_step(e).0, user_id), e.client_id, now).1 == (
        PollView::Approved { user_id, scope: e.scope }),
{
}

/// Polling too soon raises the interval by five seconds and learns nothing;
/// no other poll changes the interval.
pub proof fn law_slow_down_raises_the_interval(e: DeviceEntryView, client_id: Seq<char>, now: int)
    ensures
        poll_step(e, client_id, now).1 is SlowDown ==> interval_of(poll_step(e, client_id, now).0)
            == interval_of(e) + 5 && poll_step(e, client_id, now).0.status == e.status,
        !(poll_step(e, client_id, now).1 is SlowDown) ==> poll_step(e, client_id, now).0.interval
            == e.interval,
{
}

/// While an approval is being recorded the device is told to wait: it can
/// neither redeem nor lose the request.
pub proof fn law_claimed_request_is_pending_for_the_device(
    e: DeviceEntryView,
    client_id: Seq<char>,
    now: int,
)
    requires
        e.status is Approving,
    ensures
        !(poll_step(e, client_id, now).1 is Approved),
        poll_step(e, client_id, now).0.status is Approving,
{
}

/// What can happen to a device request.
pub enum DeviceOp {
    Poll { client_id: Seq<char>, now: int },
    /// A user's approval claims the request.
    Claim,
    /// The claim is given up.
    Rollback,
    /// The claim is carried out by this user.
    Commit(Seq<char>),
    Deny,
}

/// A device request in the course of what happens to it: whether somebody
/// holds the claim, and how many polls got the approval.
pub struct DeviceRun {
    pub entry: DeviceEntryView,
    pub claimed: bool,
    pub redeemed: nat,
}

/// One thing that happens to a device request. Only who holds the claim can
/// give it up or carry it out.
pub open spec fn run_step(r: DeviceRun, op: DeviceOp) -> DeviceRun {
    match op {
        DeviceOp::Poll { client_id, now } => DeviceRun {
            entry: poll_step(r.entry, client_id, now).0,
            redeemed: if poll_step(r.entry, client_id, now).1 is Approved {
                r.redeemed + 1
            } else {
                r.redeemed
            },
            ..r
        },
        DeviceOp::Claim => DeviceRun {
            entry: claim_step(r.entry).0,
            claimed: r.claimed || claim_step(r.entry).1 is Ready,
            ..r
        },
        DeviceOp::Rollback => if r.claimed {
            DeviceRun { entry: rolled_back(r.entry), claimed: false, ..r }
        } else {
            r
        },
        DeviceOp::Commit(user_id) => if r.claimed {
            DeviceRun { entry: approved_by(r.entry, user_id), claimed: false, ..r }
        } else {
            r
        },
        DeviceOp::Deny => DeviceRun { entry: deny_step(r.entry).0, ..r },
    }
}

/// A fresh device request after a sequence of things happened to it.
pub open spec fn device_run(e: DeviceEntryView, ops: Seq<DeviceOp>) -> DeviceRun
    decreases ops.len(),
{
    if ops.len() == 0 {
        DeviceRun { entry: e, claimed: false, redeemed: 0 }
    } else {
        run_step(device_run(e, ops.drop_last()), ops.last())
    }
}

/// Whatever happens to a pending device request, in whatever order and however
/// often, its approval is handed out at most once; it is handed out only where
/// a user carried an approval out, and once it was, the request is over.
pub proof fn law_one_approval_one_token(e: DeviceEntryView, ops: Seq<DeviceOp>)
    requires
        e.status is Pending,
    ensures
        device_run(e, ops).redeemed <= 1,
        device_run(e, ops).redeemed == 1 ==> device_run(e, ops).entry.status is Consumed,
        device_run(e, ops).redeemed == 1 ==> exists|i: int|
            0 <= i < ops.len() && #[trigger] ops[i] is Commit,
        device_run(e, ops).claimed <==> device_run(e, ops).entry.status is Approving,
    decreases ops.len(),
{
    lemma_run(e, ops);
}

proof fn lemma_run(e: DeviceEntryView, ops: Seq<DeviceOp>)
    requires
        e.status is Pending,
    ensures
        device_run(e, ops).redeemed <= 1,
        device_run(e, ops).redeemed == 1 <==> device_run(e, ops).entry.status is Consumed,
        device_run(e, ops).entry.status is Approved || device_run(e, ops).entry.status is Consumed
            ==> exists|i: int| 0 <= i < ops.len() && #[trigger] ops[i] is Commit,
        device_run(e, ops).claimed <==> device_run(e, ops).entry.status is Approving,
    decreases ops.len(),
{
    if ops.len() > 0 {
        let front = ops.drop_last();
        lemma_run(e, front);
        let before = device_run(e, front);
        let after = device_run(e, ops);
        if after.entry.status is Approved || after.entry.status is Consumed {
            if before.entry.status is Approved || before.entry.status is Consumed {
                let i = choose|i: int| 0 <= i < front.len() && #[trigger] front[i] is Commit;
                assert(ops[i] is Commit);
            } else {
                assert(ops[ops.len() - 1] is Commit);
            }
        }
    }
}

} // verus!
