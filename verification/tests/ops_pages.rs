use janux::ops::{adopted_id, auth_attempt, request_id, route_label};
use janux::pages::{
    check_drift, confine, content_type, disk_etag, embedded_etag, hex_text, pages_config_key,
    revalidates, serve, Drift, Served,
};
use std::path::{Path, PathBuf};

#[test]
fn route_label_bounds_cardinality() {
    assert_eq!(route_label("/api/v1/healthy"), "/api/v1/healthy");
    assert_eq!(
        route_label("/api/v1/auth/email/verify"),
        "/api/v1/auth/email/verify"
    );
    // social's {id} segment is dropped
    assert_eq!(
        route_label("/api/v1/auth/social/google/request"),
        "/api/v1/auth/social/request"
    );
    assert_eq!(
        route_label("/api/v1/admin/oauth2client/create"),
        "/api/v1/admin/oauth2client/create"
    );
    assert_eq!(route_label("/.well-known/jwks.json"), "discovery");
    assert_eq!(route_label("/token"), "token");
    assert_eq!(route_label("/authorize/resume"), "authorize/resume");
    // SCIM labels stay bounded: instance ids collapse to `{id}`
    assert_eq!(route_label("/scim/v2/Users"), "/scim/v2/Users");
    assert_eq!(
        route_label("/scim/v2/Users/01a058ed-b318-7c50-90a7-74469a942bf8"),
        "/scim/v2/Users/{id}"
    );
    assert_eq!(
        route_label("/scim/v2/ServiceProviderConfig"),
        "/scim/v2/ServiceProviderConfig"
    );
    // frontend catch-all and hosted pages collapse to one label
    assert_eq!(route_label("/assets/login-DujkBr0F.js"), "static");
    assert_eq!(route_label("/login"), "static");
    assert_eq!(route_label("/../../etc/passwd"), "static");
}

#[test]
fn route_labels_at_the_edges() {
    assert_eq!(route_label(""), "static");
    assert_eq!(route_label("/"), "static");
    assert_eq!(route_label("/api/v1"), "/api/v1/");
    assert_eq!(route_label("/api/v1/auth/refresh"), "/api/v1/auth/refresh");
    assert_eq!(route_label("/api/v2/x"), "static");
    assert_eq!(route_label("//token?x=1"), "token");
    assert_eq!(route_label("/scim/v2"), "/scim/v2");
    assert_eq!(route_label("/scim/v2/Users/a/b"), "/scim/v2");
    assert_eq!(route_label("/api/v1/auth/social/google"), "/api/v1/auth/social");
}

#[test]
fn auth_attempt_only_accepts_known_factors_and_actions() {
    assert_eq!(
        auth_attempt("/api/v1/auth/email/verify", 200),
        Some(("email", "verify", "ok"))
    );
    assert_eq!(
        auth_attempt("/api/v1/auth/otp/request", 429),
        Some(("otp", "request", "fail"))
    );
    assert_eq!(
        auth_attempt("/api/v1/auth/social/github/verify", 401),
        Some(("social", "verify", "fail"))
    );
    // unknown factor / action / non-auth paths are rejected
    assert_eq!(auth_attempt("/api/v1/auth/nuclear/verify", 200), None);
    assert_eq!(auth_attempt("/api/v1/auth/email/explode", 200), None);
    assert_eq!(auth_attempt("/api/v1/admin/user/list", 200), None);
}

#[test]
fn attempts_are_counted_by_bounded_names() {
    assert_eq!(
        auth_attempt("/api/v1/auth/otp/add/verify?x", 399),
        Some(("otp", "add/verify", "ok"))
    );
    assert_eq!(
        auth_attempt("/api/v1/auth/totp/enroll", 99),
        Some(("totp", "enroll", "fail"))
    );
    assert_eq!(auth_attempt("/api/v1/auth/social/redeem", 200), None);
    assert_eq!(auth_attempt("/api/v1/auth", 200), None);
}

#[test]
fn request_ids_are_adopted_or_made() {
    assert_eq!(request_id(Some("  abc-123 ")), "abc-123");
    assert_eq!(adopted_id(Some(&"x".repeat(128))), Some("x".repeat(128)));
    assert_eq!(adopted_id(Some(&"x".repeat(129))), None);
    assert_eq!(adopted_id(Some("a b")), None);
    assert_eq!(adopted_id(Some("é")), None);
    assert_eq!(adopted_id(Some("   ")), None);
    assert_eq!(adopted_id(None), None);
    let a = request_id(None);
    assert_eq!(a.len(), 36);
    assert_ne!(a, request_id(None));
}

fn confined(root: &Path, rel: &str) -> Option<PathBuf> {
    confine(root.to_str().unwrap(), rel).map(PathBuf::from)
}

#[test]
fn confine_accepts_plain_relative_paths() {
    let root = Path::new("/srv/pages");
    assert_eq!(
        confined(root, "login.html"),
        Some(PathBuf::from("/srv/pages/login.html"))
    );
    assert_eq!(
        confined(root, "/assets/app.css"),
        Some(PathBuf::from("/srv/pages/assets/app.css"))
    );
    assert_eq!(
        confined(root, "./a/./b.js"),
        Some(PathBuf::from("/srv/pages/a/b.js"))
    );
}

#[test]
fn confine_rejects_traversal() {
    let root = Path::new("/srv/pages");
    assert_eq!(confined(root, "../base.toml"), None);
    assert_eq!(confined(root, "a/../../etc/passwd"), None);
    assert_eq!(confined(root, "..%2f..%2fetc%2fpasswd"), None);
    assert_eq!(confined(root, "%2e%2e/%2e%2e/etc/passwd"), None);
    assert_eq!(confined(root, "..\\..\\windows\\system32"), None);
    // Double-encoded traversal decodes to a literal "%2e%2e%2fetc"
    // filename — harmless, but it must stay confined under the root.
    let doubled = confined(root, "%252e%252e%252fetc");
    assert!(
        doubled.as_ref().is_none_or(|p| p.starts_with(root)),
        "double-encoded input must never escape the root: {doubled:?}"
    );
}

#[test]
fn confine_rejects_root_itself_and_garbage() {
    let root = Path::new("/srv/pages");
    assert_eq!(confined(root, ""), None);
    assert_eq!(confined(root, "/"), None);
    assert_eq!(confined(root, "%ff%fe"), None);
}

#[test]
fn confined_paths_join_any_root() {
    assert_eq!(confine("/srv/", "a//b"), Some("/srv/a/b".to_string()));
    assert_eq!(confine("", "a/b"), Some("a/b".to_string()));
    assert_eq!(confine("/srv", "a%20b"), Some("/srv/a b".to_string()));
}

#[test]
fn validators_and_conditional_requests() {
    assert_eq!(hex_text(0), "0");
    assert_eq!(hex_text(255), "ff");
    assert_eq!(hex_text(u64::MAX), "ffffffffffffffff");
    assert_eq!(disk_etag(16, 0, 4096), "W/\"10-0-1000\"");
    assert_eq!(embedded_etag(&[1, 171]), "\"01ab\"");
    assert!(revalidates(Some("*"), "\"a\""));
    assert!(revalidates(Some("\"x\", W/\"a\""), "\"a\""));
    assert!(revalidates(Some("\"a\""), "W/\"a\""));
    assert!(!revalidates(Some("\"b\""), "\"a\""));
    assert!(!revalidates(None, "\"a\""));
}

#[test]
fn serve_prefers_disk_override_then_embedded() {
    assert_eq!(serve(None, Some(("\"d\"", true)), Some("\"e\"")), Served::Disk);
    assert_eq!(
        serve(Some("\"d\""), Some(("\"d\"", true)), Some("\"e\"")),
        Served::DiskUnchanged
    );
    assert_eq!(
        serve(None, Some(("\"d\"", false)), Some("\"e\"")),
        Served::Embedded,
        "a file that vanished falls through"
    );
    assert_eq!(serve(None, None, Some("\"e\"")), Served::Embedded);
    assert_eq!(serve(Some("W/\"e\""), None, Some("\"e\"")), Served::EmbeddedUnchanged);
    assert_eq!(serve(None, None, None), Served::NotFound);
    assert_eq!(content_type("a/login.html"), "text/html");
    assert_eq!(content_type("x.unknown-extension"), "application/octet-stream");
    assert_eq!(pages_config_key("d.local"), "pages.d.local");
}

#[test]
fn serve_revalidates_with_etag_on_both_tiers() {
    let etag = disk_etag(1_700_000_000, 5, 21);
    assert!(etag.starts_with("W/\""), "disk tier uses a weak validator");
    assert_eq!(
        serve(Some(&etag), Some((&etag, true)), None),
        Served::DiskUnchanged
    );
    let etag = embedded_etag(&[7u8; 32]);
    assert!(
        !etag.starts_with("W/") && etag.len() == 66,
        "embedded tier uses a strong sha256 validator: {etag}"
    );
    assert_eq!(
        serve(Some(&etag), None, Some(&etag)),
        Served::EmbeddedUnchanged
    );
    assert_eq!(
        serve(Some("\"deadbeef\""), None, Some(&etag)),
        Served::Embedded
    );
}

#[test]
fn serve_without_override_dir_uses_embedded() {
    assert_eq!(serve(None, None, Some("\"e\"")), Served::Embedded);
    assert_eq!(serve(None, None, None), Served::NotFound);
}

#[test]
fn drift_is_noticed() {
    assert_eq!(check_drift(false, Some("1"), "1"), Drift::Missing);
    assert_eq!(check_drift(true, Some(" 1\n"), "1"), Drift::Current);
    assert_eq!(check_drift(true, Some("2"), "1"), Drift::OtherVersion);
    assert_eq!(check_drift(true, None, "1"), Drift::Unmarked);
}

#[test]
fn invented_segments_make_no_labels() {
    for made_up in ["a1", "b1", "%2e%2e", "{id}"] {
        assert_eq!(route_label(&format!("/token/{made_up}")), "static");
        assert_eq!(route_label(&format!("/consent/{made_up}")), "static");
        assert_eq!(route_label(&format!("/scim/v2/{made_up}")), "/scim/v2");
        assert_eq!(route_label(&format!("/api/v1/{made_up}")), "/api/v1/");
        assert_eq!(route_label(&format!("/api/v1/auth/{made_up}/verify")), "/api/v1/");
        assert_eq!(route_label(&format!("/api/v1/auth/email/{made_up}")), "/api/v1/");
        assert_eq!(
            route_label(&format!("/api/v1/auth/social/google/{made_up}")),
            "/api/v1/"
        );
        assert_eq!(
            route_label(&format!("/api/v1/auth/social/{made_up}/link")),
            "/api/v1/auth/social/link"
        );
    }
    assert_eq!(route_label("/api/v1/auth"), "/api/v1/");
    assert_eq!(route_label("/api/v1/auth/social"), "/api/v1/auth/social");
    assert_eq!(route_label("/device-login"), "device-login");
    assert_eq!(route_label("/device-login/info"), "device-login/info");
    assert_eq!(auth_attempt("/api/v1/auth/social", 404), None);
}
