//! Introspection and revocation of tokens.


use crate::oidc::client::{public_client_refusal, refuse_public_client, Client};
use crate::oidc::exchange::{form_get, form_value, or_empty, unwrap_text};
use crate::oidc::mint::AccessEntry;
use crate::oidc::refresh::{
    family_end, family_marker, refresh_family_end, refresh_family_marker,
};
use crate::outside::check_second;
use crate::reply::{
    problem, problem_of, refuse, refused, Problem, ProblemKind, Refusal, RefusalView,
};
use crate::text::{copy_opt, opt_text, same, texts};
use vstd::prelude::*;

verus! {

/// A request to revoke a token.
pub struct RevokeRequest {
    pub token: String,
    pub token_type_hint: Option<String>,
    pub client_id: Option<String>,
    pub client_secret: Option<String>,
}

impl RevokeRequest {
    /// The parameters are those of the form.
    pub open spec fn holds(&self, pairs: Seq<(String, String)>) -> bool {
        &&& self.token@ == or_empty(form_value(pairs, "token"@))
        &&& opt_text(self.token_type_hint) == form_value(pairs, "token_type_hint"@)
        &&& opt_text(self.client_id) == form_value(pairs, "client_id"@)
        &&& opt_text(self.client_secret) == form_value(pairs, "client_secret"@)
    }
}

/// The revocation request that a form holds.
pub fn revoke_request(pairs: &Vec<(String, String)>) -> (r: RevokeRequest)
    ensures
        r.holds(pairs@),
{
    RevokeRequest {
        token: unwrap_text(form_get(pairs, "token")),
        token_type_hint: form_get(pairs, "token_type_hint"),
        client_id: form_get(pairs, "client_id"),
        client_secret: form_get(pairs, "client_secret"),
    }
}

/// A request to describe a token.
pub struct IntrospectRequest {
    pub token: String,
    pub token_type_hint: Option<String>,
    pub client_id: Option<String>,
    pub client_secret: Option<String>,
}

impl IntrospectRequest {
    /// The parameters are those of the form.
    pub open spec fn holds(&self, pairs: Seq<(String, String)>) -> bool {
        &&& self.token@ == or_empty(form_value(pairs, "token"@))
        &&& opt_text(self.token_type_hint) == form_value(pairs, "token_type_hint"@)
        &&& opt_text(self.client_id) == form_value(pairs, "client_id"@)
        &&& opt_text(self.client_secret) == form_value(pairs, "client_secret"@)
    }
}

/// The introspection request that a form holds.
pub fn introspect_form(pairs: &Vec<(String, String)>) -> (r: IntrospectRequest)
    ensures
        r.holds(pairs@),
{
    IntrospectRequest {
        token: unwrap_text(form_get(pairs, "token")),
        token_type_hint: form_get(pairs, "token_type_hint"),
        client_id: form_get(pairs, "client_id"),
        client_secret: form_get(pairs, "client_secret"),
    }
}

/// The claims of a decoded token.
pub struct TokenClaims {
    pub iss: String,
    pub sub: String,
    pub aud: String,
    pub exp: u64,
    pub iat: u64,
    pub client_id: Option<String>,
    pub scope: Option<String>,
    pub typ: Option<String>,
    pub family: Option<String>,
    pub family_created_at: Option<i64>,
}

impl TokenClaims {
    /// Its expiry and the end of its family can be represented.
    pub open spec fn wf(&self) -> bool {
        &&& self.exp <= i64::MAX
        &&& self.family_created_at matches Some(t) ==> family_end(t) <= i64::MAX
    }

    /// Whether it is a refresh token.
    pub open spec fn refreshes(&self) -> bool {
        opt_text(self.typ) == Some("refresh"@)
    }

    /// Whether it was issued to `client_id`.
    pub open spec fn belongs_to(&self, client_id: Seq<char>) -> bool {
        client_of(*self) == client_id
    }
}

/// The client that a token was issued to; the empty name where it names none.
pub open spec fn client_of(c: TokenClaims) -> Seq<char> {
    match c.client_id {
        Some(id) => id@,
        None => Seq::empty(),
    }
}

fn is_refresh(c: &TokenClaims) -> (r: bool)
    ensures
        r == c.refreshes(),
{
    match &c.typ {
        Some(t) => same(t.as_str(), "refresh"),
        None => false,
    }
}

fn claimed_client(c: &TokenClaims) -> (r: String)
    ensures
        r@ == client_of(*c),
{
    match &c.client_id {
        Some(id) => id.clone(),
        None => String::new(),
    }
}

/// Who may ask about tokens: an authenticated confidential client of a known
/// tenant.
pub open spec fn token_query_gate(has_tenant: bool, client: Result<Client, String>) -> Option<
    RefusalView,
> {
    if !has_tenant {
        Some(refused(401, "invalid_client"@, "Unknown tenant"@))
    } else {
        match client {
            Err(e) => Some(refused(401, "invalid_client"@, e@)),
            Ok(c) => public_client_refusal(c.token_endpoint_auth_method@),
        }
    }
}

pub fn check_token_query(has_tenant: bool, client: &Result<Client, String>) -> (r: Result<
    (),
    Refusal,
>)
    ensures
        r is Ok <==> token_query_gate(has_tenant, *client) is None,
        r matches Err(e) ==> token_query_gate(has_tenant, *client) == Some(e@),
{
    if !has_tenant {
        return Err(refuse(401, "invalid_client", "Unknown tenant"));
    }
    match client {
        Err(e) => Err(refuse(401, "invalid_client", e.as_str())),
        Ok(c) => match refuse_public_client(c.token_endpoint_auth_method.as_str()) {
            Some(e) => Err(e),
            None => Ok(()),
        },
    }
}

/// Whether an introspection request looks at a token, or why it is refused.
pub open spec fn query_verdict(
    token: Seq<char>,
    has_tenant: bool,
    client: Result<Client, String>,
) -> Result<bool, RefusalView> {
    if token.len() == 0 {
        Ok(false)
    } else {
        match token_query_gate(has_tenant, client) {
            None => Ok(true),
            Some(e) => Err(e),
        }
    }
}

/// Checks an introspection request: whether the token is looked at, or the
/// request is refused. A request that names no token is answered as one about
/// an inactive token, whoever asks.
pub fn introspect_request(token: &str, has_tenant: bool, client: &Result<Client, String>) -> (r: Result<
    bool,
    Refusal,
>)
    ensures
        (match r {
            Ok(look) => Ok(look),
            Err(e) => Err(e@),
        }) == query_verdict(token@, has_tenant, *client),
{
    if token.is_empty() {
        return Ok(false);
    }
    match check_token_query(has_tenant, client) {
        Ok(_) => Ok(true),
        Err(e) => Err(e),
    }
}

/// The answer to an introspection request. An inactive token is described by
/// nothing but `active: false`.
pub struct IntrospectResponse {
    pub active: bool,
    pub client_id: Option<String>,
    pub scope: Option<String>,
    pub sub: Option<String>,
    pub aud: Option<Vec<String>>,
    pub iss: Option<String>,
    pub exp: Option<u64>,
    pub iat: Option<u64>,
    pub username: Option<String>,
    pub token_type: Option<String>,
}

pub struct IntrospectView {
    pub active: bool,
    pub client_id: Option<Seq<char>>,
    pub scope: Option<Seq<char>>,
    pub sub: Option<Seq<char>>,
    pub aud: Option<Seq<Seq<char>>>,
    pub iss: Option<Seq<char>>,
    pub exp: Option<u64>,
    pub iat: Option<u64>,
    pub username: Option<Seq<char>>,
    pub token_type: Option<Seq<char>>,
}

impl View for IntrospectResponse {
    type V = IntrospectView;

    open spec fn view(&self) -> IntrospectView {
        IntrospectView {
            active: self.active,
            client_id: opt_text(self.client_id),
            scope: opt_text(self.scope),
            sub: opt_text(self.sub),
            aud: match self.aud {
                Some(a) => Some(texts(a@)),
                None => None,
            },
            iss: opt_text(self.iss),
            exp: self.exp,
            iat: self.iat,
            username: opt_text(self.username),
            token_type: opt_text(self.token_type),
        }
    }
}

/// The description of a token that is not active, whatever the reason.
pub open spec fn inactive() -> IntrospectView {
    IntrospectView {
        active: false,
        client_id: None,
        scope: None,
        sub: None,
        aud: None,
        iss: None,
        exp: None,
        iat: None,
        username: None,
        token_type: None,
    }
}

impl Default for IntrospectResponse {
    fn default() -> (r: Self)
        ensures
            r@ == inactive(),
    {
        IntrospectResponse {
            active: false,
            client_id: None,
            scope: None,
            sub: None,
            aud: None,
            iss: None,
            exp: None,
            iat: None,
            username: None,
            token_type: None,
        }
    }
}

/// What is known of a token that is asked about.
pub struct IntrospectFacts {
    /// The remembered entry of an access token.
    pub cached: Option<AccessEntry>,
    /// Whether the token was revoked.
    pub token_revoked: bool,
    /// The token's claims, where it verifies and was not revoked.
    pub claims: Option<TokenClaims>,
    /// Whether the token's refresh family was revoked.
    pub family_revoked: bool,
}

impl IntrospectFacts {
    pub open spec fn wf(&self) -> bool {
        self.claims matches Some(c) ==> c.wf()
    }
}

/// A number of seconds where it is not negative.
pub open spec fn unsigned(n: i64) -> Option<u64> {
    if n >= 0 {
        Some(n as u64)
    } else {
        None
    }
}

fn to_unsigned(n: i64) -> (r: Option<u64>)
    ensures
        r == unsigned(n),
{
    if n >= 0 {
        Some(n as u64)
    } else {
        None
    }
}

/// The description of a remembered access token.
pub open spec fn cached_view(
    e: AccessEntry,
    revoked: bool,
    issuer: Seq<char>,
    client_id: Seq<char>,
    now: i64,
) -> IntrospectView {
    if now >= e.exp || e.client_id@ != client_id || revoked {
        inactive()
    } else {
        IntrospectView {
            active: true,
            client_id: Some(e.client_id@),
            scope: Some(e.scope@),
            sub: Some(e.user_id@),
            aud: Some(seq![e.client_id@]),
            iss: Some(issuer),
            exp: unsigned(e.exp),
            iat: unsigned(e.iat),
            username: Some(e.user_id@),
            token_type: Some("Bearer"@),
        }
    }
}

/// Whether the family of a refresh token is over: revoked, ended, or not even
/// named.
pub open spec fn family_dead(c: TokenClaims, family_revoked: bool, now: i64) -> bool {
    c.family is None || c.family_created_at is None || family_revoked || now >= family_end(
        c.family_created_at->0,
    )
}

/// The description of a verified token.
pub open spec fn claims_view(
    c: TokenClaims,
    family_revoked: bool,
    client_id: Seq<char>,
    now: i64,
) -> IntrospectView {
    if !c.belongs_to(client_id) || (c.refreshes() && family_dead(c, family_revoked, now)) {
        inactive()
    } else {
        IntrospectView {
            active: true,
            client_id: Some(client_of(c)),
            scope: opt_text(c.scope),
            sub: Some(c.sub@),
            aud: Some(seq![c.aud@]),
            iss: Some(c.iss@),
            exp: Some(c.exp),
            iat: Some(c.iat),
            username: Some(c.sub@),
            token_type: Some("Bearer"@),
        }
    }
}

/// The description of a token for a client that asks about it. A remembered
/// entry answers alone; without one the token's own claims do.
pub open spec fn introspection(
    issuer: Seq<char>,
    client_id: Seq<char>,
    f: IntrospectFacts,
    now: i64,
) -> IntrospectView {
    match f.cached {
        Some(e) => cached_view(e, f.token_revoked, issuer, client_id, now),
        None => match f.claims {
            Some(c) => claims_view(c, f.family_revoked, client_id, now),
            None => inactive(),
        },
    }
}

fn single(s: &str) -> (r: Option<Vec<String>>)
    ensures
        r is Some,
        texts(r->0@) == seq![s@],
{
    let mut v: Vec<String> = Vec::new();
    v.push(s.to_owned());
    proof {
        assert(texts(v@) =~= seq![s@]);
    }
    Some(v)
}

/// Describes a token to the client `client_id`.
pub fn introspect(issuer: &str, client_id: &str, f: &IntrospectFacts, now: i64) -> (r:
    IntrospectResponse)
    requires
        f.wf(),
    ensures
        r@ == introspection(issuer@, client_id@, *f, now),
{
    if let Some(e) = &f.cached {
        if now >= e.exp || !same(e.client_id.as_str(), client_id) || f.token_revoked {
            return IntrospectResponse::default();
        }
        return IntrospectResponse {
            active: true,
            client_id: Some(e.client_id.clone()),
            scope: Some(e.scope.clone()),
            sub: Some(e.user_id.clone()),
            aud: single(e.client_id.as_str()),
            iss: Some(issuer.to_owned()),
            exp: to_unsigned(e.exp),
            iat: to_unsigned(e.iat),
            username: Some(e.user_id.clone()),
            token_type: Some("Bearer".to_owned()),
        };
    }
    let c = match &f.claims {
        Some(c) => c,
        None => {
            return IntrospectResponse::default();
        },
    };
    let owner = claimed_client(c);
    if !same(owner.as_str(), client_id) {
        return IntrospectResponse::default();
    }
    if is_refresh(c) {
        let dead = match (&c.family, c.family_created_at) {
            (Some(_), Some(created_at)) => f.family_revoked || now >= refresh_family_end(
                created_at,
            ),
            _ => true,
        };
        if dead {
            return IntrospectResponse::default();
        }
    }
    IntrospectResponse {
        active: true,
        client_id: Some(owner),
        scope: copy_opt(&c.scope),
        sub: Some(c.sub.clone()),
        aud: single(c.aud.as_str()),
        iss: Some(c.iss.clone()),
        exp: Some(c.exp),
        iat: Some(c.iat),
        username: Some(c.sub.clone()),
        token_type: Some("Bearer".to_owned()),
    }
}

/// What a revocation request does; it is answered alike whatever that is.
pub struct RevokePlan {
    /// Revoke the refresh family of this marker, until it ends.
    pub poison: Option<(String, i64)>,
    /// Forget the remembered access token.
    pub forget: bool,
    /// Record the token as revoked until this second.
    pub record_until: Option<i64>,
}

pub struct RevokePlanView {
    pub poison: Option<(Seq<char>, int)>,
    pub forget: bool,
    pub record_until: Option<int>,
}

impl View for RevokePlan {
    type V = RevokePlanView;

    open spec fn view(&self) -> RevokePlanView {
        RevokePlanView {
            poison: match self.poison {
                Some(p) => Some((p.0@, p.1 as int)),
                None => None,
            },
            forget: self.forget,
            record_until: match self.record_until {
                Some(t) => Some(t as int),
                None => None,
            },
        }
    }
}

/// A revocation that does nothing.
pub open spec fn no_revocation() -> RevokePlanView {
    RevokePlanView { poison: None, forget: false, record_until: None }
}

/// What revoking a token does: nothing for a token that is unknown, from
/// another issuer or of another client; a refresh token takes its family with
/// it.
pub open spec fn revocation(issuer: Seq<char>, client_id: Seq<char>, decoded: Option<TokenClaims>) -> RevokePlanView {
    match decoded {
        None => no_revocation(),
        Some(c) => if c.iss@ != issuer || !c.belongs_to(client_id) {
            no_revocation()
        } else {
            RevokePlanView {
                poison: if c.refreshes() && c.family is Some && c.family_created_at is Some {
                    Some((family_marker(c.family->0@), family_end(c.family_created_at->0)))
                } else {
                    None
                },
                forget: !c.refreshes(),
                record_until: if c.exp <= 253402207200 {
                    Some(c.exp as int)
                } else {
                    None
                },
            }
        },
    }
}

/// Decides what a revocation request by `client_id` does.
pub fn revoke(issuer: &str, client_id: &str, decoded: &Option<TokenClaims>) -> (r: RevokePlan)
    requires
        decoded matches Some(c) ==> c.wf(),
    ensures
        r@ == revocation(issuer@, client_id@, *decoded),
{
    let c = match decoded {
        Some(c) => c,
        None => {
            return RevokePlan { poison: None, forget: false, record_until: None };
        },
    };
    let owner = claimed_client(c);
    if !same(c.iss.as_str(), issuer) || !same(owner.as_str(), client_id) {
        return RevokePlan { poison: None, forget: false, record_until: None };
    }
    let refresh = is_refresh(c);
    let poison = if refresh {
        match (&c.family, c.family_created_at) {
            (Some(family), Some(created_at)) => Some(
                (refresh_family_marker(family.as_str()), refresh_family_end(created_at)),
            ),
            _ => None,
        }
    } else {
        None
    };
    let exp: i64 = c.exp as i64;
    let record_until = match check_second(exp) {
        Ok(_) => Some(exp),
        Err(_) => None,
    };
    RevokePlan { poison, forget: !refresh, record_until }
}

/// Until when a revoked family is recorded: to its end, or to now where the
/// end is no timestamp.
pub fn revoke_refresh_token_family(end: i64, now: i64) -> (r: i64)
    ensures
        r == (if -377705023201 <= end <= 253402207200 {
            end
        } else {
            now
        }),
{
    match check_second(end) {
        Ok(_) => end,
        Err(_) => now,
    }
}

/// A request that names no token.
pub fn missing_token(token: &str) -> (r: Option<Problem>)
    ensures
        r is Some <==> token@.len() == 0,
        r matches Some(p) ==> p@ == problem_of(
            400,
            ProblemKind::Validation,
            "Missing required parameter: token"@,
        ),
{
    if token.is_empty() {
        Some(problem(400, ProblemKind::Validation, "Missing required parameter: token"))
    } else {
        None
    }
}

/// A client learns nothing of another client's token: it is described as one
/// that does not exist.
pub proof fn law_foreign_token_is_inactive(
    issuer: Seq<char>,
    client_id: Seq<char>,
    f: IntrospectFacts,
    now: i64,
)
    requires
        f.cached matches Some(e) ==> e.client_id@ != client_id,
        f.claims matches Some(c) ==> !c.belongs_to(client_id),
    ensures
        introspection(issuer, client_id, f, now) == inactive(),
{
}

/// An inactive token is described by nothing but that it is inactive.
pub proof fn law_inactive_tells_nothing(
    issuer: Seq<char>,
    client_id: Seq<char>,
    f: IntrospectFacts,
    now: i64,
)
    requires
        !introspection(issuer, client_id, f, now).active,
    ensures
        introspection(issuer, client_id, f, now) == inactive(),
{
}

/// A client cannot revoke another client's token, nor its family.
pub proof fn law_foreign_revocation_does_nothing(
    issuer: Seq<char>,
    client_id: Seq<char>,
    decoded: TokenClaims,
)
    requires
        !decoded.belongs_to(client_id),
    ensures
        revocation(issuer, client_id, Some(decoded)) == no_revocation(),
{
}

/// Once the family of a refresh token is revoked, the token is inactive.
pub proof fn law_revoked_family_is_inactive(
    issuer: Seq<char>,
    client_id: Seq<char>,
    f: IntrospectFacts,
    now: i64,
)
    requires
        f.cached is None,
        f.claims matches Some(c) ==> c.refreshes(),
        f.family_revoked,
    ensures
        introspection(issuer, client_id, f, now) == inactive(),
{
}

/// Revoking a refresh token revokes the family that rotation checks.
pub proof fn law_revoking_a_refresh_token_ends_its_family(
    issuer: Seq<char>,
    client_id: Seq<char>,
    c: TokenClaims,
)
    requires
        c.iss@ == issuer,
        c.belongs_to(client_id),
        c.refreshes(),
        c.family is Some,
        c.family_created_at is Some,
    ensures
        revocation(issuer, client_id, Some(c)).poison == Some(
            (family_marker(c.family->0@), family_end(c.family_created_at->0)),
        ),
{
}

} // verus!
