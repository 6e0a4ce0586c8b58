//! The token endpoint's common part: which grants there are, what is signed,
//! what is remembered and what is answered.

use crate::oidc::client::Client;
use crate::oidc::codes::{at_hash, token_digest};
use crate::oidc::exchange::TokenRequest;
use crate::oidc::scope::{has_scope, scope_has};
use crate::reply::{refuse, refused, Refusal, RefusalView};
use crate::text::{cat, cat5, copy_opt, copy_texts, has_text, opt_text, same, texts};
use vstd::prelude::*;

verus! {

/// How long a family of refresh tokens can rotate, in seconds: 30 days.
pub const FAMILY_LIFETIME: i64 = 2592000;

/// The first refresh token of a family lives as long as the family.
pub const FAMILY_MINUTES: i32 = 43200;

pub const ACCESS_MINUTES: i32 = 60;

pub const ACCESS_SECONDS: i64 = 3600;

pub const ID_TOKEN_MINUTES: i32 = 15;

/// How long a service token lives: 90 days.
pub const SERVICE_TOKEN_MINUTES: i32 = 129600;

pub const SERVICE_TOKEN_SECONDS: u64 = 7776000;

/// The grant types of the token endpoint.
#[derive(Clone, Copy, Debug, PartialEq, Eq, Structural)]
pub enum GrantKind {
    AuthorizationCode,
    RefreshToken,
    ClientCredentials,
    DeviceCode,
}

/// The grant type that a name stands for.
pub open spec fn grant_kind(name: Seq<char>) -> Option<GrantKind> {
    if name == "authorization_code"@ {
        Some(GrantKind::AuthorizationCode)
    } else if name == "refresh_token"@ {
        Some(GrantKind::RefreshToken)
    } else if name == "client_credentials"@ {
        Some(GrantKind::ClientCredentials)
    } else if name == "urn:ietf:params:oauth:grant-type:device_code"@ {
        Some(GrantKind::DeviceCode)
    } else {
        None
    }
}

pub fn supported_grant(name: &str) -> (r: Option<GrantKind>)
    ensures
        r == grant_kind(name@),
{
    if same(name, "authorization_code") {
        Some(GrantKind::AuthorizationCode)
    } else if same(name, "refresh_token") {
        Some(GrantKind::RefreshToken)
    } else if same(name, "client_credentials") {
        Some(GrantKind::ClientCredentials)
    } else if same(name, "urn:ietf:params:oauth:grant-type:device_code") {
        Some(GrantKind::DeviceCode)
    } else {
        None
    }
}

/// Which grant a token request runs: its tenant must be known, its client
/// authenticated, the grant type one of the provider's and one of the
/// client's.
pub open spec fn token_gate(
    grant_type: Seq<char>,
    has_tenant: bool,
    client: Result<Client, String>,
) -> Result<GrantKind, RefusalView> {
    if grant_type.len() == 0 {
        Err(refused(400, "invalid_request"@, "Missing required parameter: grant_type"@))
    } else if !has_tenant {
        Err(refused(401, "invalid_client"@, "Unknown tenant"@))
    } else {
        match client {
            Err(e) => Err(refused(401, "invalid_client"@, e@)),
            Ok(c) => match grant_kind(grant_type) {
                None => Err(
                    refused(
                        400,
                        "unsupported_grant_type"@,
                        "Unsupported grant_type: "@ + grant_type,
                    ),
                ),
                Some(kind) => if texts(c.grant_types@).contains(grant_type) {
                    Ok(kind)
                } else {
                    Err(
                        refused(
                            400,
                            "unauthorized_client"@,
                            "client '"@ + c.id@ + "' is not registered for grant_type '"@
                                + grant_type + "'"@,
                        ),
                    )
                },
            },
        }
    }
}

/// Decides which grant a token request runs. `client` is the authenticated
/// client, or why authentication failed.
pub fn token(p: &TokenRequest, has_tenant: bool, client: &Result<Client, String>) -> (r: Result<
    GrantKind,
    Refusal,
>)
    ensures
        (match r {
            Ok(k) => Ok(k),
            Err(e) => Err(e@),
        }) == token_gate(p.grant_type@, has_tenant, *client),
{
    let grant_type = p.grant_type.as_str();
    if grant_type.is_empty() {
        return Err(refuse(400, "invalid_request", "Missing required parameter: grant_type"));
    }
    if !has_tenant {
        return Err(refuse(401, "invalid_client", "Unknown tenant"));
    }
    let c = match client {
        Ok(c) => c,
        Err(e) => {
            return Err(refuse(401, "invalid_client", e.as_str()));
        },
    };
    let kind = match supported_grant(grant_type) {
        Some(kind) => kind,
        None => {
            let d = cat("Unsupported grant_type: ", grant_type);
            return Err(refuse(400, "unsupported_grant_type", d.as_str()));
        },
    };
    if has_text(&c.grant_types, grant_type) {
        Ok(kind)
    } else {
        let d = cat5(
            "client '",
            c.id.as_str(),
            "' is not registered for grant_type '",
            grant_type,
            "'",
        );
        Err(refuse(400, "unauthorized_client", d.as_str()))
    }
}

/// What an access token says.
pub struct OidcAccessTokenData {
    pub scope: String,
    pub jti: String,
    pub client_id: String,
}

/// What a refresh token says.
pub struct OidcRefreshTokenData {
    pub typ: String,
    pub scope: String,
    pub client_id: String,
    pub mfa: Vec<String>,
    pub family: String,
    pub family_created_at: i64,
}

/// A refresh token to sign, and how long it lives.
pub struct RefreshMint {
    pub data: OidcRefreshTokenData,
    pub minutes: i32,
}

/// The access token and the refresh token to sign for a grant.
pub struct MintPlan {
    /// Whose tokens they are, how the user signed in and when.
    pub user_id: String,
    pub mfa: Vec<String>,
    pub auth_time: u64,
    pub access: OidcAccessTokenData,
    pub access_minutes: i32,
    /// A refresh token is signed for the scope `offline_access` only.
    pub refresh: Option<RefreshMint>,
}

/// What a grant is minted for.
pub struct MintRequest {
    pub user_id: String,
    pub scope: String,
    pub jti: String,
    pub client_id: String,
    /// The nonce of the authorization request, for an ID token.
    pub nonce: Option<String>,
    /// How the user signed in, and when.
    pub mfa: Vec<String>,
    pub auth_time: u64,
    pub family: String,
    pub family_created_at: i64,
    pub refresh_minutes: i32,
}

impl MintPlan {
    pub open spec fn mints(&self, m: MintRequest) -> bool {
        &&& self.user_id@ == m.user_id@
        &&& texts(self.mfa@) == texts(m.mfa@)
        &&& self.auth_time == m.auth_time
        &&& self.access.scope@ == m.scope@
        &&& self.access.jti@ == m.jti@
        &&& self.access.client_id@ == m.client_id@
        &&& self.access_minutes == ACCESS_MINUTES
        &&& self.refresh is Some <==> (scope_has(m.scope@, "offline_access"@) && m.refresh_minutes
            > 0)
        &&& self.refresh matches Some(rt) ==> {
            &&& rt.minutes == m.refresh_minutes
            &&& rt.data.typ@ == "refresh"@
            &&& rt.data.scope@ == m.scope@
            &&& rt.data.client_id@ == m.client_id@
            &&& texts(rt.data.mfa@) == texts(m.mfa@)
            &&& rt.data.family@ == m.family@
            &&& rt.data.family_created_at == m.family_created_at
        }
    }
}

/// An ID token to sign, and how long it lives.
pub struct IdTokenMint {
    pub user_id: String,
    pub client_id: String,
    pub nonce: Option<String>,
    pub mfa: Vec<String>,
    pub auth_time: u64,
    /// The access token that it is handed out with and vouches for.
    pub access_token: String,
    pub minutes: i32,
}

pub struct IdTokenView {
    pub user_id: Seq<char>,
    pub client_id: Seq<char>,
    pub nonce: Option<Seq<char>>,
    pub mfa: Seq<Seq<char>>,
    pub auth_time: u64,
    pub access_token: Seq<char>,
    pub minutes: i32,
}

impl View for IdTokenMint {
    type V = IdTokenView;

    open spec fn view(&self) -> IdTokenView {
        IdTokenView {
            user_id: self.user_id@,
            client_id: self.client_id@,
            nonce: opt_text(self.nonce),
            mfa: texts(self.mfa@),
            auth_time: self.auth_time,
            access_token: self.access_token@,
            minutes: self.minutes,
        }
    }
}

/// The ID token of a grant, for the scope `openid` only. It says of the
/// sign-in what the grant says, and vouches for the access token.
pub open spec fn id_token_of(m: MintRequest, access_token: Seq<char>) -> Option<IdTokenView> {
    if scope_has(m.scope@, "openid"@) {
        Some(
            IdTokenView {
                user_id: m.user_id@,
                client_id: m.client_id@,
                nonce: opt_text(m.nonce),
                mfa: texts(m.mfa@),
                auth_time: m.auth_time,
                access_token,
                minutes: ID_TOKEN_MINUTES,
            },
        )
    } else {
        None
    }
}

/// The ID token to sign for a grant, once its access token is signed.
pub fn generate_id_token(m: &MintRequest, access_token: &str) -> (r: Option<IdTokenMint>)
    ensures
        (match r {
            Some(t) => Some(t@),
            None => None,
        }) == id_token_of(*m, access_token@),
{
    if has_scope(m.scope.as_str(), "openid") {
        Some(
            IdTokenMint {
                user_id: m.user_id.clone(),
                client_id: m.client_id.clone(),
                nonce: copy_opt(&m.nonce),
                mfa: copy_texts(&m.mfa),
                auth_time: m.auth_time,
                access_token: access_token.to_owned(),
                minutes: ID_TOKEN_MINUTES,
            },
        )
    } else {
        None
    }
}

/// The access token and the refresh token to sign for a grant.
pub fn mint_plan(m: &MintRequest) -> (r: MintPlan)
    ensures
        r.mints(*m),
{
    let refresh = if has_scope(m.scope.as_str(), "offline_access") && m.refresh_minutes > 0 {
        Some(
            RefreshMint {
                data: OidcRefreshTokenData {
                    typ: "refresh".to_owned(),
                    scope: m.scope.clone(),
                    client_id: m.client_id.clone(),
                    mfa: copy_texts(&m.mfa),
                    family: m.family.clone(),
                    family_created_at: m.family_created_at,
                },
                minutes: m.refresh_minutes,
            },
        )
    } else {
        None
    };
    MintPlan {
        user_id: m.user_id.clone(),
        mfa: copy_texts(&m.mfa),
        auth_time: m.auth_time,
        access: OidcAccessTokenData {
            scope: m.scope.clone(),
            jti: m.jti.clone(),
            client_id: m.client_id.clone(),
        },
        access_minutes: ACCESS_MINUTES,
        refresh,
    }
}

impl MintRequest {
    /// The tokens of a grant that starts a family of refresh tokens now.
    pub open spec fn starts_family(
        &self,
        scope: Seq<char>,
        jti: Seq<char>,
        client_id: Seq<char>,
        mfa: Seq<Seq<char>>,
        family: Seq<char>,
        now: i64,
    ) -> bool {
        &&& self.scope@ == scope
        &&& self.jti@ == jti
        &&& self.client_id@ == client_id
        &&& texts(self.mfa@) == mfa
        &&& self.family@ == family
        &&& self.family_created_at == now
        &&& self.refresh_minutes == FAMILY_MINUTES
    }

    /// The tokens of a device that `user_id` approved: without factors and
    /// without a nonce, and signed in now.
    pub open spec fn follows_approval(
        &self,
        user_id: Seq<char>,
        scope: Seq<char>,
        jti: Seq<char>,
        client_id: Seq<char>,
        family: Seq<char>,
        now: i64,
    ) -> bool {
        &&& self.user_id@ == user_id
        &&& self.starts_family(scope, jti, client_id, Seq::empty(), family, now)
        &&& self.nonce is None
        &&& self.auth_time == now
    }
}

/// What is minted for an approved device: the approval carries no factors and
/// no nonce, and counts as the sign-in.
pub fn mint_token_response(
    user_id: &str,
    scope: &str,
    jti: &str,
    client_id: &str,
    family: &str,
    now: i64,
) -> (r: MintRequest)
    requires
        crate::oidc::authorize::is_clock(now),
    ensures
        r.follows_approval(user_id@, scope@, jti@, client_id@, family@, now),
{
    let mfa: Vec<String> = Vec::new();
    proof {
        assert(texts(mfa@) =~= Seq::<Seq<char>>::empty());
    }
    MintRequest {
        user_id: user_id.to_owned(),
        scope: scope.to_owned(),
        jti: jti.to_owned(),
        client_id: client_id.to_owned(),
        nonce: None,
        mfa,
        auth_time: now as u64,
        family: family.to_owned(),
        family_created_at: now,
        refresh_minutes: FAMILY_MINUTES,
    }
}

/// What could not be signed.
#[derive(Clone, Copy, Debug, PartialEq, Eq, Structural)]
pub enum Signing {
    Key,
    AccessToken,
    IdToken,
    RefreshToken,
    ServiceToken,
}

pub open spec fn signing_fault(what: Signing) -> Seq<char> {
    match what {
        Signing::Key => "No active signing key for this tenant"@,
        Signing::AccessToken => "Failed to sign access token"@,
        Signing::IdToken => "Failed to sign ID token"@,
        Signing::RefreshToken => "Failed to sign refresh token"@,
        Signing::ServiceToken => "Failed to sign token"@,
    }
}

/// The answer where a token could not be signed.
pub fn signing_refusal(what: Signing) -> (r: Refusal)
    ensures
        r@ == refused(500, "server_error"@, signing_fault(what)),
{
    let d = match what {
        Signing::Key => "No active signing key for this tenant",
        Signing::AccessToken => "Failed to sign access token",
        Signing::IdToken => "Failed to sign ID token",
        Signing::RefreshToken => "Failed to sign refresh token",
        Signing::ServiceToken => "Failed to sign token",
    };
    refuse(500, "server_error", d)
}

/// What is remembered of an access token while it lives.
#[derive(Clone)]
pub struct AccessEntry {
    pub client_id: String,
    pub user_id: String,
    pub scope: String,
    pub jti: String,
    pub at_hash: String,
    pub nonce: Option<String>,
    pub iat: i64,
    pub exp: i64,
}

impl AccessEntry {
    /// The entry of an access token of `user_id` signed at the second `now`.
    pub open spec fn remembers(
        &self,
        access_token: Seq<char>,
        data: OidcAccessTokenData,
        user_id: Seq<char>,
        nonce: Option<Seq<char>>,
        now: i64,
    ) -> bool {
        &&& self.client_id@ == data.client_id@
        &&& self.user_id@ == user_id
        &&& self.scope@ == data.scope@
        &&& self.jti@ == data.jti@
        &&& self.at_hash@ == token_digest(access_token)
        &&& opt_text(self.nonce) == nonce
        &&& self.iat == now
        &&& self.exp == now + ACCESS_SECONDS
    }
}

pub fn access_key(access_token: &str) -> (r: String)
    ensures
        r@ == "token:access:"@ + access_token@,
{
    cat("token:access:", access_token)
}

/// The entry of an access token signed now.
pub fn access_entry(
    access_token: &str,
    data: &OidcAccessTokenData,
    user_id: &str,
    nonce: &Option<String>,
    now: i64,
) -> (r: AccessEntry)
    requires
        crate::oidc::authorize::is_clock(now),
    ensures
        r.remembers(access_token@, *data, user_id@, opt_text(*nonce), now),
{
    AccessEntry {
        client_id: data.client_id.clone(),
        user_id: user_id.to_owned(),
        scope: data.scope.clone(),
        jti: data.jti.clone(),
        at_hash: at_hash(access_token),
        nonce: copy_opt(nonce),
        iat: now,
        exp: now + ACCESS_SECONDS,
    }
}

/// A successful token response.
pub struct TokenResponse {
    pub access_token: String,
    pub token_type: String,
    pub expires_in: u64,
    pub scope: Option<String>,
    pub id_token: Option<String>,
    pub refresh_token: Option<String>,
}

impl TokenResponse {
    /// The response with these tokens; an empty scope is left out.
    pub open spec fn hands_out(
        &self,
        access_token: Seq<char>,
        scope: Seq<char>,
        id_token: Option<Seq<char>>,
        refresh_token: Option<Seq<char>>,
    ) -> bool {
        &&& self.access_token@ == access_token
        &&& self.token_type@ == "Bearer"@
        &&& self.expires_in == ACCESS_SECONDS
        &&& opt_text(self.scope) == (if scope.len() == 0 {
            None
        } else {
            Some(scope)
        })
        &&& opt_text(self.id_token) == id_token
        &&& opt_text(self.refresh_token) == refresh_token
    }

    /// The response with a service token and nothing else.
    pub open spec fn serves(&self, access_token: Seq<char>) -> bool {
        &&& self.access_token@ == access_token
        &&& self.token_type@ == "Bearer"@
        &&& self.expires_in == SERVICE_TOKEN_SECONDS
        &&& self.scope is None
        &&& self.id_token is None
        &&& self.refresh_token is None
    }
}

/// The response that hands out the signed tokens; an empty scope is left out.
pub fn token_response(
    access_token: String,
    scope: &str,
    id_token: Option<String>,
    refresh_token: Option<String>,
) -> (r: TokenResponse)
    ensures
        r.hands_out(access_token@, scope@, opt_text(id_token), opt_text(refresh_token)),
        r.access_token == access_token,
        r.id_token == id_token,
        r.refresh_token == refresh_token,
{
    let scope = if scope.is_empty() {
        None
    } else {
        Some(scope.to_owned())
    };
    TokenResponse {
        access_token,
        token_type: "Bearer".to_owned(),
        expires_in: 3600,
        scope,
        id_token,
        refresh_token,
    }
}

/// The session that a service token stands for.
pub struct ServiceSession {
    pub user: String,
    pub username: String,
    pub domain: String,
    pub roles: Vec<String>,
    /// The factors that the session was authenticated with: none.
    pub mfa: Vec<String>,
    pub minutes: i32,
}

impl ServiceSession {
    /// The session of a client's own service identity on a domain.
    pub open spec fn stands_for(&self, client: Client, domain: Seq<char>) -> bool {
        &&& self.user@ == client.uuid@
        &&& self.username@ == "client:"@ + client.id@
        &&& self.domain@ == domain
        &&& texts(self.roles@) == seq!["scim"@]
        &&& self.mfa@.len() == 0
        &&& self.minutes == SERVICE_TOKEN_MINUTES
    }
}

/// Why a client gets no service token: it is public, or nothing can sign.
pub open spec fn service_fault(auth_method: Seq<char>, has_key: bool) -> Option<RefusalView> {
    if auth_method == "none"@ {
        Some(
            refused(
                401,
                "invalid_client"@,
                "client_credentials requires a confidential client"@,
            ),
        )
    } else if !has_key {
        Some(refused(500, "server_error"@, signing_fault(Signing::Key)))
    } else {
        None
    }
}

/// The session to sign for a client's own credentials: its service identity,
/// with the provisioning role alone, and without any factor.
pub fn handle_client_credentials(client: &Client, domain: &str, has_key: bool) -> (r: Result<
    ServiceSession,
    Refusal,
>)
    ensures
        r is Ok <==> service_fault(client.token_endpoint_auth_method@, has_key) is None,
        r matches Err(e) ==> service_fault(client.token_endpoint_auth_method@, has_key) == Some(e@),
        r matches Ok(s) ==> s.stands_for(*client, domain@),
{
    if same(client.token_endpoint_auth_method.as_str(), "none") {
        return Err(
            refuse(401, "invalid_client", "client_credentials requires a confidential client"),
        );
    }
    if !has_key {
        return Err(signing_refusal(Signing::Key));
    }
    let mut roles: Vec<String> = Vec::new();
    roles.push("scim".to_owned());
    proof {
        assert(texts(roles@) =~= seq!["scim"@]);
    }
    Ok(
        ServiceSession {
            user: client.uuid.clone(),
            username: cat("client:", client.id.as_str()),
            domain: domain.to_owned(),
            roles,
            mfa: Vec::new(),
            minutes: SERVICE_TOKEN_MINUTES,
        },
    )
}

/// The response that hands out a service token: no scope, no refresh token.
pub fn service_response(access_token: String) -> (r: TokenResponse)
    ensures
        r.serves(access_token@),
        r.access_token == access_token,
{
    TokenResponse {
        access_token,
        token_type: "Bearer".to_owned(),
        expires_in: SERVICE_TOKEN_SECONDS,
        scope: None,
        id_token: None,
        refresh_token: None,
    }
}

/// A grant runs only for a client that is registered for it.
pub proof fn law_grant_is_registered(
    grant_type: Seq<char>,
    has_tenant: bool,
    client: Result<Client, String>,
)
    requires
        token_gate(grant_type, has_tenant, client) is Ok,
    ensures
        has_tenant,
        client is Ok,
        texts(client->Ok_0.grant_types@).contains(grant_type),
{
}

} // verus!
