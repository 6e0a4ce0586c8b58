use janux::identity::{inherit_factors, with_factor, HttpMethod, JwtData, SessionFactors};
use janux::policy::{
    all_policy_entries, cache_policy, capture_path, is_deleted, policy_create, policy_delete,
    policy_entry, uncache_policy,
    Access, CanAccess, Policy, PolicyCache, PolicyEntry, Source, SourceResolver, TargetResolver,
};
use janux::role::{
    builtin_level, check_admin_request, effective_level, render_admin_error, require_above_user, require_below,
    require_level, role_create, role_delete, user_effective_level, AdminError, Caller, Role,
    RoleCreation, RoleFault,
};
use janux::router::{
    api, area_guard, area_quota, area_root, counts_by_route, has_route, public_routes, scim_routes, Area, Guard, Methods,
};

fn texts(list: &[&str]) -> Vec<String> {
    list.iter().map(|s| s.to_string()).collect()
}

fn jwt(username: &str, roles: &[&str], mfa: &[&str]) -> JwtData {
    JwtData {
        user: format!("{username}-id"),
        username: username.to_string(),
        domain: "d.local".to_string(),
        mfa: texts(mfa),
        roles: texts(roles),
    }
}

fn rule(resource: &str, source: SourceResolver, target: TargetResolver) -> Policy {
    let entry = PolicyEntry {
        id: None,
        resource: resource.to_string(),
        domain: "ignored.local".to_string(),
        role: "user".to_string(),
        action: Some(HttpMethod::GET),
        source,
        target,
        mfa: false,
        allowed: true,
    };
    let role = Role {
        id: "user".to_string(),
        level: 40,
        builtin: true,
    };
    match policy_create(&Caller::Bootstrap, &vec![], &role, &entry, "p1", "d.local") {
        Ok(p) => p,
        Err(e) => panic!("{}", e.message()),
    }
}

#[test]
fn rules_belong_to_roles_below() {
    let entry = PolicyEntry {
        id: None,
        resource: "a/b".to_string(),
        domain: "d.local".to_string(),
        role: "admin".to_string(),
        action: None,
        source: SourceResolver::Nothing,
        target: TargetResolver::Nothing,
        mfa: false,
        allowed: true,
    };
    let t = table();
    let admin = caller(&["admin"]);
    assert!(policy_create(&admin, &t, &t[1], &entry, "p", "d.local").is_err(), "not its own role");
    assert!(policy_create(&admin, &t, &t[0], &entry, "p", "d.local").is_err());
    assert!(policy_create(&admin, &t, &t[3], &entry, "p", "d.local").is_ok());
    assert!(policy_delete(&admin, &t, &t[1]).is_err());
    assert!(policy_delete(&admin, &t, &t[4]).is_ok());
    let p = rule("a/b", SourceResolver::Nothing, TargetResolver::Nothing);
    assert!(is_deleted(&p, Some(HttpMethod::GET), "a/b"));
    assert!(!is_deleted(&p, None, "a/b"));
    assert!(!is_deleted(&p, Some(HttpMethod::GET), "a"));
    assert!(matches!(check_admin_request(true, true, true), Ok(())));
    assert!(matches!(check_admin_request(false, true, true), Err(p) if p.status == 400));
    assert!(matches!(check_admin_request(true, false, true), Err(p) if p.status == 401));
    assert!(matches!(check_admin_request(true, true, false), Err(p) if p.status == 400));
}

fn access(path: &[&str]) -> Access {
    Access {
        act: HttpMethod::GET,
        domain: "d.local".to_string(),
        path: texts(path),
        query: vec![("owner".to_string(), "alice".to_string())],
        header: vec![("x-user-id".to_string(), "alice".to_string())],
    }
}

const ALLOW: Option<CanAccess> = Some(CanAccess {
    can_access: true,
    expect_mfa: false,
});

#[test]
fn plain_rules_match_the_path() {
    let p = rule("posts/all", SourceResolver::Nothing, TargetResolver::Nothing);
    assert_eq!(p.domain_id, "d.local", "the entry's own domain is ignored");
    let alice = jwt("alice", &["user"], &[]);
    assert_eq!(p.can_access(&alice, &access(&["posts", "all"])), ALLOW);
    assert_eq!(p.can_access(&alice, &access(&["posts"])), None);
    let mut post = access(&["posts", "all"]);
    post.act = HttpMethod::POST;
    assert_eq!(p.can_access(&alice, &post), None);
    let mut any = rule("posts/all", SourceResolver::Nothing, TargetResolver::Nothing);
    any.action = None;
    assert_eq!(any.can_access(&alice, &post), ALLOW);
    let mut elsewhere = access(&["posts", "all"]);
    elsewhere.domain = "other.local".to_string();
    assert_eq!(p.can_access(&alice, &elsewhere), None);
}

#[test]
fn self_scoped_rules_compare_the_username() {
    let alice = jwt("alice", &["user"], &[]);
    let bob = jwt("bob", &["user"], &[]);
    let by_path = rule(
        "users/{username}",
        SourceResolver::User,
        TargetResolver::FromPath { pname: "username".to_string() },
    );
    assert_eq!(by_path.can_access(&alice, &access(&["users", "alice"])), ALLOW);
    assert_eq!(by_path.can_access(&bob, &access(&["users", "alice"])), None);
    assert_eq!(by_path.can_access(&alice, &access(&["posts", "alice"])), None);
    let by_query = rule(
        "x",
        SourceResolver::User,
        TargetResolver::FromQuery { qname: "owner".to_string() },
    );
    assert_eq!(by_query.can_access(&alice, &access(&["x"])), ALLOW);
    assert_eq!(by_query.can_access(&bob, &access(&["x"])), None);
    assert_eq!(
        by_query.can_access(&alice, &access(&["anything"])),
        None,
        "another resource"
    );
    let by_header = rule(
        "x",
        SourceResolver::User,
        TargetResolver::FromHeader { hname: "X-User-Id".to_string() },
    );
    assert_eq!(by_header.can_access(&alice, &access(&["x"])), ALLOW);
    assert_eq!(by_header.can_access(&alice, &access(&[])), None);
    assert_eq!(by_header.resolve_target(&access(&[])).as_deref(), Some("alice"));
    assert!(matches!(by_header.resolve_source(&bob), Some(Source::User(u)) if u == "bob"));
    let by_domain = rule("x", SourceResolver::Domain, TargetResolver::Nothing);
    assert!(matches!(by_domain.resolve_source(&bob), Some(Source::Domain(d)) if d == "d.local"));
    assert_eq!(by_domain.can_access(&bob, &access(&["x"])), None);
    let by_role = rule("x", SourceResolver::Role, TargetResolver::Nothing);
    assert!(matches!(by_role.resolve_source(&bob), Some(Source::Role(r)) if r == "user"));
    // A target that names nothing matches a source that names nothing.
    let missing = rule(
        "x",
        SourceResolver::Nothing,
        TargetResolver::FromQuery { qname: "absent".to_string() },
    );
    assert_eq!(missing.can_access(&bob, &access(&["x"])), ALLOW);
    assert_eq!(missing.can_access(&bob, &access(&["y"])), None);
    let scoped = rule(
        "users/{id}",
        SourceResolver::Nothing,
        TargetResolver::FromPath { pname: "id".to_string() },
    );
    assert_eq!(scoped.can_access(&bob, &access(&["admins", "7"])), None);
}

#[test]
fn templates_capture_segments() {
    let t = texts(&["a", "{x}", "{y}", "{x}"]);
    assert_eq!(
        capture_path(&t, &texts(&["a", "1", "2", "3"]), "x").as_deref(),
        Some("3")
    );
    assert_eq!(
        capture_path(&t, &texts(&["a", "1", "2", "3"]), "y").as_deref(),
        Some("2")
    );
    assert_eq!(capture_path(&t, &texts(&["b", "1", "2", "3"]), "x"), None);
    assert_eq!(capture_path(&t, &texts(&["a", "1"]), "x"), None);
    assert_eq!(capture_path(&t, &texts(&["a", "1", "2", "3"]), "z"), None);
    assert_eq!(capture_path(&texts(&["{"]), &texts(&["v"]), ""), None);
    assert_eq!(
        capture_path(&texts(&["{}"]), &texts(&["v"]), "").as_deref(),
        Some("v")
    );
}

#[test]
fn second_factors_are_asked_for() {
    let mut p = rule("x", SourceResolver::Nothing, TargetResolver::Nothing);
    p.mfa = true;
    let a = access(&["x"]);
    let ask = Some(CanAccess {
        can_access: false,
        expect_mfa: true,
    });
    assert_eq!(p.can_access(&jwt("a", &[], &[]), &a), ask);
    assert_eq!(p.can_access(&jwt("a", &[], &["totp"]), &a), ask);
    assert_eq!(p.can_access(&jwt("a", &[], &["email", "otp"]), &a), ask);
    assert_eq!(p.can_access(&jwt("a", &[], &["email", "totp"]), &a), ALLOW);
    p.allowed = false;
    assert_eq!(
        p.can_access(&jwt("a", &[], &["email", "totp"]), &a),
        Some(CanAccess {
            can_access: false,
            expect_mfa: false
        })
    );
}

fn cached(cache: &PolicyCache, role: &str) -> Vec<String> {
    match cache.get("d.local") {
        Some(roles) => match roles.get(role) {
            Some(rules) => rules.iter().map(|p| p.resource.join("/")).collect(),
            None => vec![],
        },
        None => vec![],
    }
}

#[test]
fn the_cache_follows_creates_and_deletes() {
    let plain = |r: &str| rule(r, SourceResolver::Nothing, TargetResolver::Nothing);
    let mut admin = plain("c");
    admin.role_id = "admin".to_string();
    let mut cache = all_policy_entries(vec![plain("a"), admin, plain("b")]);
    assert_eq!(cached(&cache, "user"), texts(&["a", "b"]));
    assert_eq!(cached(&cache, "admin"), texts(&["c"]));
    cache_policy(&mut cache, plain("a/{id}"));
    assert_eq!(cached(&cache, "user"), texts(&["a", "b", "a/{id}"]));
    uncache_policy(&mut cache, "d.local", "user", Some(HttpMethod::GET), "a/{id}");
    assert_eq!(cached(&cache, "user"), texts(&["a", "b"]));
    uncache_policy(&mut cache, "d.local", "user", None, "a");
    assert_eq!(cached(&cache, "user"), texts(&["a", "b"]), "another method");
    uncache_policy(&mut cache, "d.local", "admin", Some(HttpMethod::GET), "c");
    assert!(cache.get("d.local").unwrap().get("admin").is_none());
    uncache_policy(&mut cache, "nowhere", "user", Some(HttpMethod::GET), "a");
    assert_eq!(cached(&cache, "user"), texts(&["a", "b"]));
}

#[test]
fn path_templates_read_back() {
    for resource in ["users/{id}", "/consent/info", "", "a//b/"] {
        let p = rule(resource, SourceResolver::Nothing, TargetResolver::Nothing);
        assert_eq!(policy_entry(&p).resource, resource);
    }
}

// ── roles ───────────────────────────────────────────────────────────────

fn role(id: &str, level: i64, builtin: bool) -> Role {
    Role {
        id: id.to_string(),
        level,
        builtin,
    }
}

fn table() -> Vec<Role> {
    vec![
        role("root", 100, true),
        role("admin", 80, true),
        role("scim", 60, true),
        role("user", 40, true),
        role("guest", 20, true),
        role("editor", 50, false),
    ]
}

fn caller(roles: &[&str]) -> Caller {
    Caller::Jwt(jwt("alice", roles, &[]))
}

#[test]
fn builtin_roles_have_fixed_levels() {
    assert_eq!(builtin_level("root"), Some(100));
    assert_eq!(builtin_level("admin"), Some(80));
    assert_eq!(builtin_level("scim"), Some(60));
    assert_eq!(builtin_level("user"), Some(40));
    assert_eq!(builtin_level("guest"), Some(20));
    assert_eq!(builtin_level("editor"), None);
}

#[test]
fn callers_act_below_their_level() {
    let t = table();
    assert_eq!(effective_level(&Caller::Bootstrap, &t), Some(i64::MAX));
    assert_eq!(effective_level(&caller(&["guest", "admin", "ghost"]), &t), Some(80));
    assert_eq!(effective_level(&caller(&["ghost"]), &t), None);
    assert!(require_level(&caller(&["admin"]), &t, 79).is_ok());
    assert!(require_level(&caller(&["admin"]), &t, 80).is_err());
    assert!(require_level(&caller(&["ghost"]), &t, -1).is_err());
    assert!(require_below(&Caller::Bootstrap, &t, &t[0]).is_ok());
    assert!(require_below(&Caller::Bootstrap, &t, &role("top", i64::MAX, false)).is_ok());
    assert!(require_below(&caller(&["root"]), &t, &t[0]).is_err());
}

#[test]
fn admin_passkey_deactivate_is_level_gated() {
    let t = table();
    let admin = caller(&["admin"]);
    // admin (80) may free a user without roles, not one who holds root.
    assert!(require_above_user(&admin, &t, &Some(vec![])).is_ok());
    assert!(require_above_user(&admin, &t, &Some(vec![role("root", 100, true)])).is_err());
    assert!(require_above_user(&admin, &t, &Some(vec![role("admin", 80, true)])).is_err());
    assert!(require_above_user(&admin, &t, &None).is_ok());
    assert!(require_above_user(&caller(&[]), &t, &None).is_err());
    assert!(require_above_user(&Caller::Bootstrap, &t, &Some(table())).is_ok());
    assert_eq!(user_effective_level(&Some(table())), Some(100));
    assert_eq!(user_effective_level(&Some(vec![])), None);
}

#[test]
fn roles_are_created_below_their_creator() {
    let t = table();
    let admin = caller(&["admin"]);
    let create = |c: &Caller, name: &str, level: i64, known: bool| role_create(c, name, level, known, &t);
    assert!(matches!(
        create(&admin, "helper", 79, false),
        Ok(RoleCreation::Create { level: 79, builtin: false })
    ));
    assert!(matches!(
        create(&admin, "helper", 80, false),
        Err(RoleFault::Admin(AdminError::Forbidden))
    ));
    assert!(matches!(
        create(&admin, "helper", -1, false),
        Err(RoleFault::Invalid(m)) if m == "role level must be >= 0"
    ));
    assert!(matches!(
        create(&admin, "editor", 1, true),
        Err(RoleFault::Admin(AdminError::Conflict(m))) if m == "role 'editor' already exists"
    ));
    assert!(matches!(
        create(&admin, "guest", 1, false),
        Err(RoleFault::Admin(AdminError::Forbidden))
    ));
    assert!(matches!(
        create(&Caller::Bootstrap, "guest", 0, false),
        Ok(RoleCreation::Create { level: 20, builtin: true })
    ));
    assert!(matches!(create(&Caller::Bootstrap, "guest", 0, true), Ok(RoleCreation::Keep)));
    assert!(matches!(
        create(&Caller::Bootstrap, "odd", -5, false),
        Ok(RoleCreation::Create { level: -5, builtin: false })
    ));
    assert!(role_delete(&admin, &role("editor", 50, false), &t).is_ok());
    assert!(role_delete(&Caller::Bootstrap, &role("guest", 20, true), &t).is_err());
    assert!(role_delete(&caller(&["user"]), &role("editor", 50, false), &t).is_err());
}

#[test]
fn refusals_have_their_status() {
    let p = render_admin_error(&RoleFault::Admin(AdminError::Forbidden));
    assert_eq!(p.status, 403);
    let p = render_admin_error(&RoleFault::Admin(AdminError::Conflict("taken".to_string())));
    assert_eq!((p.status, p.detail.as_str()), (409, "taken"));
    let p = render_admin_error(&RoleFault::Invalid("no".to_string()));
    assert_eq!(p.status, 400);
    assert_eq!(
        AdminError::Forbidden.message(),
        "role level is not below the caller's effective level"
    );
}

// ── factors ─────────────────────────────────────────────────────────────

#[test]
fn factors_of_another_user_are_not_inherited() {
    let alice = Some(SessionFactors {
        username: "alice".to_string(),
        mfa: texts(&["totp"]),
    });
    assert_eq!(with_factor(inherit_factors(&alice, "bob"), "otp"), texts(&["otp"]));
    assert_eq!(with_factor(inherit_factors(&None, "bob"), "otp"), texts(&["otp"]));
}

#[test]
fn factors_of_the_same_user_are_inherited() {
    let bob = Some(SessionFactors {
        username: "bob".to_string(),
        mfa: texts(&["totp"]),
    });
    assert_eq!(
        with_factor(inherit_factors(&bob, "bob"), "otp"),
        texts(&["totp", "otp"])
    );
    assert_eq!(with_factor(texts(&["otp"]), "otp"), texts(&["otp"]));
}

// ── routes ──────────────────────────────────────────────────────────────

#[test]
fn routes_are_guarded_and_audited() {
    let routes = api();
    for r in routes.iter().filter(|r| r.area == Area::Admin) {
        assert!(r.path.starts_with("admin/"));
        assert_eq!(area_guard(r.area), Guard::Protect);
        assert!(r.audited || r.methods == Methods::Get || r.path == "admin/totp/list");
    }
    assert_eq!(routes.iter().filter(|r| r.area == Area::Admin).count(), 39);
    assert_eq!(routes.iter().filter(|r| r.area == Area::Factor).count(), 17);
    assert_eq!(area_quota(Area::Factor), Some(6));
    assert_eq!(area_quota(Area::Admin), Some(12));
    assert_eq!(area_quota(Area::Protocol), Some(12));
    assert_eq!(area_quota(Area::Scim), Some(60));
    assert_eq!(area_quota(Area::Health), None);
    assert!(counts_by_route(Area::Scim) && !counts_by_route(Area::Protocol));
    assert_eq!(area_root(Area::Token), "api/v1");
    assert_eq!(area_root(Area::Scim), "scim/v2");
    assert_eq!(public_routes().len(), 17);
    let own: Vec<Methods> = public_routes()
        .into_iter()
        .filter(|r| r.path == "register/{client_id}")
        .map(|r| r.methods)
        .collect();
    assert_eq!(own, vec![Methods::Get, Methods::PutDelete]);
    assert!(has_route(&public_routes(), "token") && !has_route(&public_routes(), "token/a1"));
    assert!(scim_routes().iter().all(|r| r.methods == Methods::Get || r.audited));
}

#[test]
fn public_oidc_endpoints_are_rate_limited_per_ip() {
    let route = public_routes()
        .into_iter()
        .find(|r| r.path == "authorize")
        .expect("the route is there");
    assert_eq!(area_quota(route.area), Some(12));
}

#[test]
fn discovery_documents_stay_unlimited() {
    for path in [".well-known/openid-configuration", ".well-known/jwks.json"] {
        let route = public_routes()
            .into_iter()
            .find(|r| r.path == path)
            .expect("the route is there");
        assert_eq!(area_quota(route.area), None);
    }
}
