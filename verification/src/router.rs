//! The routes of the server: which there are, who may reach them, how often,
//! and which are written to the audit log.

use crate::text::same;
use vstd::prelude::*;

verus! {

/// The parts of the server that share a guard and a quota.
#[derive(Clone, Copy, Debug, PartialEq, Eq, Structural)]
pub enum Area {
    /// Health probes.
    Health,
    /// Verification, rotation and end of session tokens.
    Token,
    /// Sign-in factors.
    Factor,
    /// Administration.
    Admin,
    /// Discovery documents.
    Discovery,
    /// The OpenID Connect endpoints.
    Protocol,
    /// What the provisioning interface says of itself.
    ScimDiscovery,
    /// Provisioning.
    Scim,
}

/// What stands before a route's handler.
#[derive(Clone, Copy, Debug, PartialEq, Eq, Structural)]
pub enum Guard {
    /// Nothing: the handler decides.
    Open,
    /// A session is read where there is one, and none is demanded.
    Session,
    /// Only what a policy allows gets through.
    Protect,
}

/// The methods that a route answers.
#[derive(Clone, Copy, Debug, PartialEq, Eq, Structural)]
pub enum Methods {
    Get,
    Post,
    GetPost,
    /// PUT, PATCH and DELETE.
    Change,
    /// PUT and DELETE.
    PutDelete,
}

/// A route: its area, its path below the area's root, its methods, and
/// whether it is audited.
#[derive(Clone, Copy, Debug)]
pub struct Route {
    pub area: Area,
    pub path: &'static str,
    pub methods: Methods,
    pub audited: bool,
}

pub struct RouteView {
    pub area: Area,
    pub path: Seq<char>,
    pub methods: Methods,
    pub audited: bool,
}

impl View for Route {
    type V = RouteView;

    open spec fn view(&self) -> RouteView {
        RouteView {
            area: self.area,
            path: self.path@,
            methods: self.methods,
            audited: self.audited,
        }
    }
}

/// The views of a list of routes.
pub open spec fn route_views(v: Seq<Route>) -> Seq<RouteView> {
    v.map_values(|r: Route| r@)
}

pub open spec fn route_of(area: Area, path: Seq<char>, methods: Methods, audited: bool) -> RouteView {
    RouteView { area, path, methods, audited }
}

fn route(area: Area, path: &'static str, methods: Methods, audited: bool) -> (r: Route)
    ensures
        r@ == route_of(area, path@, methods, audited),
{
    Route { area, path, methods, audited }
}

/// What guards an area.
pub open spec fn guard_of(area: Area) -> Guard {
    match area {
        Area::Factor => Guard::Session,
        Area::Admin => Guard::Protect,
        Area::Scim => Guard::Protect,
        _ => Guard::Open,
    }
}

pub fn area_guard(area: Area) -> (r: Guard)
    ensures
        r == guard_of(area),
{
    match area {
        Area::Factor => Guard::Session,
        Area::Admin => Guard::Protect,
        Area::Scim => Guard::Protect,
        _ => Guard::Open,
    }
}

/// How many requests a minute an area takes from one peer; no bound where
/// there is none.
pub open spec fn quota_of(area: Area) -> Option<u32> {
    match area {
        Area::Factor => Some(6),
        Area::Admin => Some(12),
        Area::Protocol => Some(12),
        Area::Scim => Some(60),
        _ => None,
    }
}

pub fn area_quota(area: Area) -> (r: Option<u32>)
    ensures
        r == quota_of(area),
{
    match area {
        Area::Factor => Some(6),
        Area::Admin => Some(12),
        Area::Protocol => Some(12),
        Area::Scim => Some(60),
        _ => None,
    }
}

/// Whether each route of an area counts its requests on its own.
pub open spec fn is_counted_by_route(area: Area) -> bool {
    area == Area::Scim
}

/// Whether each route of an area counts its requests on its own, rather than
/// all of them together.
pub fn counts_by_route(area: Area) -> (r: bool)
    ensures
        r == is_counted_by_route(area),
{
    match area {
        Area::Scim => true,
        _ => false,
    }
}

/// The path under which the routes of an area stand.
pub open spec fn root_of(area: Area) -> Seq<char> {
    match area {
        Area::Discovery => ""@,
        Area::Protocol => ""@,
        Area::ScimDiscovery => "scim/v2"@,
        Area::Scim => "scim/v2"@,
        _ => "api/v1"@,
    }
}

/// The path under which the routes of an area stand.
pub fn area_root(area: Area) -> (r: &'static str)
    ensures
        r@ == root_of(area),
{
    match area {
        Area::Discovery => "",
        Area::Protocol => "",
        Area::ScimDiscovery => "scim/v2",
        Area::Scim => "scim/v2",
        _ => "api/v1",
    }
}

/// The routes of the application interface.
pub open spec fn api_table() -> Seq<RouteView> {
    seq![
        route_of(Area::Health, "healthy"@, Methods::Get, false),
        route_of(Area::Health, "health/live"@, Methods::Get, false),
        route_of(Area::Health, "health/ready"@, Methods::Get, false),
        route_of(Area::Token, "auth/verify"@, Methods::GetPost, false),
        route_of(Area::Token, "auth/refresh"@, Methods::Post, true),
        route_of(Area::Token, "auth/logout"@, Methods::Post, true),
        route_of(Area::Factor, "auth/email/request"@, Methods::Post, false),
        route_of(Area::Factor, "auth/email/verify"@, Methods::Post, true),
        route_of(Area::Factor, "auth/email/add"@, Methods::Post, true),
        route_of(Area::Factor, "auth/email/add/verify"@, Methods::Post, true),
        route_of(Area::Factor, "auth/otp/request"@, Methods::Post, false),
        route_of(Area::Factor, "auth/otp/verify"@, Methods::Post, true),
        route_of(Area::Factor, "auth/otp/add"@, Methods::Post, true),
        route_of(Area::Factor, "auth/otp/add/verify"@, Methods::Post, true),
        route_of(Area::Factor, "auth/passkey/request"@, Methods::Post, false),
        route_of(Area::Factor, "auth/passkey/verify"@, Methods::Post, true),
        route_of(Area::Factor, "auth/passkey/remove"@, Methods::Post, true),
        route_of(Area::Factor, "auth/social/{id}/request"@, Methods::GetPost, false),
        route_of(Area::Factor, "auth/social/{id}/link"@, Methods::GetPost, true),
        route_of(Area::Factor, "auth/social/{id}/verify"@, Methods::GetPost, true),
        route_of(Area::Factor, "auth/social/redeem"@, Methods::Post, true),
        route_of(Area::Factor, "auth/totp/enroll"@, Methods::GetPost, true),
        route_of(Area::Factor, "auth/totp/verify"@, Methods::GetPost, true),
        route_of(Area::Admin, "admin/tenant/list"@, Methods::Get, false),
        route_of(Area::Admin, "admin/tenant/create"@, Methods::Post, true),
        route_of(Area::Admin, "admin/tenant/delete"@, Methods::Post, true),
        route_of(Area::Admin, "admin/domain/list"@, Methods::Get, false),
        route_of(Area::Admin, "admin/domain/create"@, Methods::Post, true),
        route_of(Area::Admin, "admin/domain/delete"@, Methods::Post, true),
        route_of(Area::Admin, "admin/user/list"@, Methods::Get, false),
        route_of(Area::Admin, "admin/user/create"@, Methods::Post, true),
        route_of(Area::Admin, "admin/user/activate"@, Methods::Post, true),
        route_of(Area::Admin, "admin/user/activate/self"@, Methods::Post, true),
        route_of(Area::Admin, "admin/user/delete"@, Methods::Post, true),
        route_of(Area::Admin, "admin/user/delete/self"@, Methods::Post, true),
        route_of(Area::Admin, "admin/user/add_role"@, Methods::Post, true),
        route_of(Area::Admin, "admin/user/remove_role"@, Methods::Post, true),
        route_of(Area::Admin, "admin/user/remove_email"@, Methods::Post, true),
        route_of(Area::Admin, "admin/user/remove_mobile"@, Methods::Post, true),
        route_of(Area::Admin, "admin/user/remove_social"@, Methods::Post, true),
        route_of(Area::Admin, "admin/user/roles"@, Methods::Get, false),
        route_of(Area::Admin, "admin/role/list"@, Methods::Get, false),
        route_of(Area::Admin, "admin/role/create"@, Methods::Post, true),
        route_of(Area::Admin, "admin/role/delete"@, Methods::Post, true),
        route_of(Area::Admin, "admin/provider/list"@, Methods::Get, false),
        route_of(Area::Admin, "admin/provider/create"@, Methods::Post, true),
        route_of(Area::Admin, "admin/provider/delete"@, Methods::Post, true),
        route_of(Area::Admin, "admin/policy/list"@, Methods::Get, false),
        route_of(Area::Admin, "admin/policy/create"@, Methods::Post, true),
        route_of(Area::Admin, "admin/policy/delete"@, Methods::Post, true),
        route_of(Area::Admin, "admin/key/list"@, Methods::Get, false),
        route_of(Area::Admin, "admin/key/create"@, Methods::Post, true),
        route_of(Area::Admin, "admin/key/delete"@, Methods::Post, true),
        route_of(Area::Admin, "admin/totp/list"@, Methods::Post, false),
        route_of(Area::Admin, "admin/totp/remove"@, Methods::Post, true),
        route_of(Area::Admin, "admin/oauth2client/list"@, Methods::Get, false),
        route_of(Area::Admin, "admin/oauth2client/create"@, Methods::Post, true),
        route_of(Area::Admin, "admin/oauth2client/delete"@, Methods::Post, true),
        route_of(Area::Admin, "admin/oauth2client/meta"@, Methods::Post, true),
        route_of(Area::Admin, "admin/oidc/config"@, Methods::Get, false),
        route_of(Area::Admin, "admin/oidc/config"@, Methods::Post, true),
        route_of(Area::Admin, "admin/metrics"@, Methods::Get, false),
    ]
}

/// The routes of the application interface.
pub fn api() -> (r: Vec<Route>)
    ensures
        route_views(r@) == api_table(),
{
    let mut v: Vec<Route> = Vec::new();
    v.push(route(Area::Health, "healthy", Methods::Get, false));
    v.push(route(Area::Health, "health/live", Methods::Get, false));
    v.push(route(Area::Health, "health/ready", Methods::Get, false));
    v.push(route(Area::Token, "auth/verify", Methods::GetPost, false));
    v.push(route(Area::Token, "auth/refresh", Methods::Post, true));
    v.push(route(Area::Token, "auth/logout", Methods::Post, true));
    v.push(route(Area::Factor, "auth/email/request", Methods::Post, false));
    v.push(route(Area::Factor, "auth/email/verify", Methods::Post, true));
    v.push(route(Area::Factor, "auth/email/add", Methods::Post, true));
    v.push(route(Area::Factor, "auth/email/add/verify", Methods::Post, true));
    v.push(route(Area::Factor, "auth/otp/request", Methods::Post, false));
    v.push(route(Area::Factor, "auth/otp/verify", Methods::Post, true));
    v.push(route(Area::Factor, "auth/otp/add", Methods::Post, true));
    v.push(route(Area::Factor, "auth/otp/add/verify", Methods::Post, true));
    v.push(route(Area::Factor, "auth/passkey/request", Methods::Post, false));
    v.push(route(Area::Factor, "auth/passkey/verify", Methods::Post, true));
    v.push(route(Area::Factor, "auth/passkey/remove", Methods::Post, true));
    v.push(route(Area::Factor, "auth/social/{id}/request", Methods::GetPost, false));
    v.push(route(Area::Factor, "auth/social/{id}/link", Methods::GetPost, true));
    v.push(route(Area::Factor, "auth/social/{id}/verify", Methods::GetPost, true));
    v.push(route(Area::Factor, "auth/social/redeem", Methods::Post, true));
    v.push(route(Area::Factor, "auth/totp/enroll", Methods::GetPost, true));
    v.push(route(Area::Factor, "auth/totp/verify", Methods::GetPost, true));
    v.push(route(Area::Admin, "admin/tenant/list", Methods::Get, false));
    v.push(route(Area::Admin, "admin/tenant/create", Methods::Post, true));
    v.push(route(Area::Admin, "admin/tenant/delete", Methods::Post, true));
    v.push(route(Area::Admin, "admin/domain/list", Methods::Get, false));
    v.push(route(Area::Admin, "admin/domain/create", Methods::Post, true));
    v.push(route(Area::Admin, "admin/domain/delete", Methods::Post, true));
    v.push(route(Area::Admin, "admin/user/list", Methods::Get, false));
    v.push(route(Area::Admin, "admin/user/create", Methods::Post, true));
    v.push(route(Area::Admin, "admin/user/activate", Methods::Post, true));
    v.push(route(Area::Admin, "admin/user/activate/self", Methods::Post, true));
    v.push(route(Area::Admin, "admin/user/delete", Methods::Post, true));
    v.push(route(Area::Admin, "admin/user/delete/self", Methods::Post, true));
    v.push(route(Area::Admin, "admin/user/add_role", Methods::Post, true));
    v.push(route(Area::Admin, "admin/user/remove_role", Methods::Post, true));
    v.push(route(Area::Admin, "admin/user/remove_email", Methods::Post, true));
    v.push(route(Area::Admin, "admin/user/remove_mobile", Methods::Post, true));
    v.push(route(Area::Admin, "admin/user/remove_social", Methods::Post, true));
    v.push(route(Area::Admin, "admin/user/roles", Methods::Get, false));
    v.push(route(Area::Admin, "admin/role/list", Methods::Get, false));
    v.push(route(Area::Admin, "admin/role/create", Methods::Post, true));
    v.push(route(Area::Admin, "admin/role/delete", Methods::Post, true));
    v.push(route(Area::Admin, "admin/provider/list", Methods::Get, false));
    v.push(route(Area::Admin, "admin/provider/create", Methods::Post, true));
    v.push(route(Area::Admin, "admin/provider/delete", Methods::Post, true));
    v.push(route(Area::Admin, "admin/policy/list", Methods::Get, false));
    v.push(route(Area::Admin, "admin/policy/create", Methods::Post, true));
    v.push(route(Area::Admin, "admin/policy/delete", Methods::Post, true));
    v.push(route(Area::Admin, "admin/key/list", Methods::Get, false));
    v.push(route(Area::Admin, "admin/key/create", Methods::Post, true));
    v.push(route(Area::Admin, "admin/key/delete", Methods::Post, true));
    v.push(route(Area::Admin, "admin/totp/list", Methods::Post, false));
    v.push(route(Area::Admin, "admin/totp/remove", Methods::Post, true));
    v.push(route(Area::Admin, "admin/oauth2client/list", Methods::Get, false));
    v.push(route(Area::Admin, "admin/oauth2client/create", Methods::Post, true));
    v.push(route(Area::Admin, "admin/oauth2client/delete", Methods::Post, true));
    v.push(route(Area::Admin, "admin/oauth2client/meta", Methods::Post, true));
    v.push(route(Area::Admin, "admin/oidc/config", Methods::Get, false));
    v.push(route(Area::Admin, "admin/oidc/config", Methods::Post, true));
    v.push(route(Area::Admin, "admin/metrics", Methods::Get, false));
    proof {
        assert(route_views(v@) =~= api_table());
    }
    v
}

/// The routes of the protocol.
pub open spec fn public_table() -> Seq<RouteView> {
    seq![
        route_of(Area::Discovery, ".well-known/openid-configuration"@, Methods::Get, false),
        route_of(Area::Discovery, ".well-known/jwks.json"@, Methods::Get, false),
        route_of(Area::Protocol, "authorize"@, Methods::GetPost, false),
        route_of(Area::Protocol, "authorize/resume"@, Methods::GetPost, false),
        route_of(Area::Protocol, "consent"@, Methods::Post, false),
        route_of(Area::Protocol, "consent/info"@, Methods::Get, false),
        route_of(Area::Protocol, "token"@, Methods::Post, false),
        route_of(Area::Protocol, "userinfo"@, Methods::Get, false),
        route_of(Area::Protocol, "revoke"@, Methods::Post, false),
        route_of(Area::Protocol, "introspect"@, Methods::Post, false),
        route_of(Area::Protocol, "device_authorization"@, Methods::Post, false),
        route_of(Area::Protocol, "register"@, Methods::Post, false),
        route_of(Area::Protocol, "register/{client_id}"@, Methods::Get, false),
        route_of(Area::Protocol, "register/{client_id}"@, Methods::PutDelete, false),
        route_of(Area::Protocol, "end_session"@, Methods::GetPost, false),
        route_of(Area::Protocol, "device-login/info"@, Methods::Get, false),
        route_of(Area::Protocol, "device-login/approve"@, Methods::Post, false),
    ]
}

/// The routes of the protocol.
pub fn public_routes() -> (r: Vec<Route>)
    ensures
        route_views(r@) == public_table(),
{
    let mut v: Vec<Route> = Vec::new();
    v.push(route(Area::Discovery, ".well-known/openid-configuration", Methods::Get, false));
    v.push(route(Area::Discovery, ".well-known/jwks.json", Methods::Get, false));
    v.push(route(Area::Protocol, "authorize", Methods::GetPost, false));
    v.push(route(Area::Protocol, "authorize/resume", Methods::GetPost, false));
    v.push(route(Area::Protocol, "consent", Methods::Post, false));
    v.push(route(Area::Protocol, "consent/info", Methods::Get, false));
    v.push(route(Area::Protocol, "token", Methods::Post, false));
    v.push(route(Area::Protocol, "userinfo", Methods::Get, false));
    v.push(route(Area::Protocol, "revoke", Methods::Post, false));
    v.push(route(Area::Protocol, "introspect", Methods::Post, false));
    v.push(route(Area::Protocol, "device_authorization", Methods::Post, false));
    v.push(route(Area::Protocol, "register", Methods::Post, false));
    v.push(route(Area::Protocol, "register/{client_id}", Methods::Get, false));
    v.push(route(Area::Protocol, "register/{client_id}", Methods::PutDelete, false));
    v.push(route(Area::Protocol, "end_session", Methods::GetPost, false));
    v.push(route(Area::Protocol, "device-login/info", Methods::Get, false));
    v.push(route(Area::Protocol, "device-login/approve", Methods::Post, false));
    proof {
        assert(route_views(v@) =~= public_table());
    }
    v
}

/// The routes of the provisioning interface.
pub open spec fn scim_table() -> Seq<RouteView> {
    seq![
        route_of(Area::ScimDiscovery, "ServiceProviderConfig"@, Methods::Get, false),
        route_of(Area::ScimDiscovery, "Schemas"@, Methods::Get, false),
        route_of(Area::ScimDiscovery, "ResourceTypes"@, Methods::Get, false),
        route_of(Area::Scim, "Users"@, Methods::Get, false),
        route_of(Area::Scim, "Users"@, Methods::Post, true),
        route_of(Area::Scim, "Users/{id}"@, Methods::Get, false),
        route_of(Area::Scim, "Users/{id}"@, Methods::Change, true),
    ]
}

/// The routes of the provisioning interface.
pub fn scim_routes() -> (r: Vec<Route>)
    ensures
        route_views(r@) == scim_table(),
{
    let mut v: Vec<Route> = Vec::new();
    v.push(route(Area::ScimDiscovery, "ServiceProviderConfig", Methods::Get, false));
    v.push(route(Area::ScimDiscovery, "Schemas", Methods::Get, false));
    v.push(route(Area::ScimDiscovery, "ResourceTypes", Methods::Get, false));
    v.push(route(Area::Scim, "Users", Methods::Get, false));
    v.push(route(Area::Scim, "Users", Methods::Post, true));
    v.push(route(Area::Scim, "Users/{id}", Methods::Get, false));
    v.push(route(Area::Scim, "Users/{id}", Methods::Change, true));
    proof {
        assert(route_views(v@) =~= scim_table());
    }
    v
}

/// Whether a path is that of a route of the table.
pub open spec fn names_route(table: Seq<RouteView>, path: Seq<char>) -> bool {
    exists|i: int| 0 <= i < table.len() && (#[trigger] table[i]).path == path
}

/// Whether a path is that of a route of the table.
pub fn has_route(routes: &Vec<Route>, path: &str) -> (r: bool)
    ensures
        r == names_route(route_views(routes@), path@),
{
    let ghost table = route_views(routes@);
    let mut i: usize = 0;
    while i < routes.len()
        invariant
            i <= routes@.len(),
            table == route_views(routes@),
            forall|j: int| 0 <= j < i ==> (#[trigger] table[j]).path != path@,
        decreases routes@.len() - i,
    {
        proof {
            assert(table[i as int].path == routes@[i as int].path@);
        }
        if same(routes[i].path, path) {
            return true;
        }
        i = i + 1;
    }
    false
}

/// Whether a route may change something.
pub open spec fn changes(r: RouteView) -> bool {
    !(r.methods is Get)
}

/// Everything under administration and provisioning is behind the policies
/// and within a quota.
pub proof fn law_administration_is_guarded(area: Area)
    requires
        area is Admin || area is Scim,
    ensures
        guard_of(area) is Protect,
        quota_of(area) is Some,
{
}

/// Every route of administration and of provisioning that may change something
/// is audited; the one that does not, lists.
pub proof fn law_changes_are_audited(i: int, j: int)
    ensures
        0 <= i < api_table().len() && api_table()[i].area is Admin && changes(api_table()[i]) ==> (
        api_table()[i].audited || api_table()[i].path == "admin/totp/list"@),
        0 <= j < scim_table().len() && changes(scim_table()[j]) ==> scim_table()[j].audited,
{
}

} // verus!
