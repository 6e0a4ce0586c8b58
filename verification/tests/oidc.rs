use janux::oidc::authorize::{
    authorize_flow, authorize_issued, authorize_step, check_authorize, choose_pkce, is_tls,
    issue_for, issue_pending, park, parked_for_consent, parked_for_login, pending_key,
    pending_user_matches, AuthorizeFacts, AuthorizeRequest, AuthorizeStep, PendingAuth, Session,
};
use janux::oidc::client::{
    authenticate_client, basic_credential_decode, get_bearer_token, presented_client_secret,
    read_basic, refuse_public_client, verify_client_secret, Client, SecretPlan,
};
use janux::oidc::codes::{
    at_hash, challenge_is_ok, code_hash, collect_letters, constant_time_eq, generate_device_code,
    generate_user_code, ordered_id, random_id, random_urlsafe_string, verify_challenge,
};
use janux::oidc::consent::{
    authorize_resume, consent_info, consent_not_replaced, consent_submit, continuation_issued,
    park_for_consent, resume_key, resume_parked, take_parked, ConsentStep, ResumeStep,
};
use janux::oidc::device::{
    already_processed, answer_poll, approval_recorded, claim_device, commit_approval, denial_answer,
    deny_device, device_auth_request, device_auth_response, device_authorization, device_decision, device_entry,
    device_login_approve, device_login_info, device_login_key, device_token_request,
    device_user_check, poll_device, rollback_claim, ApproveAction, ApproveEvent, Claim,
    DecisionRefusal, DeviceAction, DeviceAuthRequest, DeviceEntry, DeviceLoginApproveRequest,
    DeviceStatus, Poll,
};
use janux::oidc::discovery::{well_known, TenantFeatures};
use janux::oidc::exchange::{
    auth_code_entry, auth_code_request, check_pkce, exchange_code, form_get, handle_auth_code,
    issue_authorization_code, require_active_user, take_code, token_request, user_key, AuthCodeEntry,
    CodeFacts, TokenRequest,
};
use janux::oidc::introspect::{
    check_token_query, introspect, introspect_form, introspect_request, missing_token, revoke,
    revoke_refresh_token_family, revoke_request, IntrospectFacts, IntrospectResponse, TokenClaims,
};
use janux::oidc::mint::{
    access_entry, access_key, generate_id_token, handle_client_credentials, mint_plan, mint_token_response,
    service_response,
    signing_refusal, token, token_response, AccessEntry, GrantKind, MintRequest,
    OidcAccessTokenData, OidcRefreshTokenData, Signing, FAMILY_LIFETIME, FAMILY_MINUTES,
};
use janux::oidc::refresh::{
    handle_refresh, refresh_commit, refresh_family_end, refresh_family_marker, refresh_scope,
    successor_minutes, RefreshClaims, RefreshCommit, RefreshFacts, RefreshStep,
};
use janux::oidc::scope::{scope_label, scopes_cover, validate_requested_scope};
use janux::oidc::urls::{
    callback_url_with_code, consent_redirect, login_redirect, oauth2_error_url,
};
use janux::oidc::userinfo::{
    userinfo, userinfo_response, EmailRecord, TokenReject, UserInfoClaims,
};
use janux::oneshot::OneShot;

const DEVICE_GRANT: &str = "urn:ietf:params:oauth:grant-type:device_code";
const USER: &str = "01a058ed-b318-7c50-90a7-74469a942bf8";
const NOW: i64 = 1_700_000_000;
const ISSUER: &str = "http://localhost";

fn texts(list: &[&str]) -> Vec<String> {
    list.iter().map(|s| s.to_string()).collect()
}

fn client(id: &str, method: &str) -> Client {
    Client {
        id: id.to_string(),
        uuid: "5f3c6b1e-0000-4000-8000-000000000001".to_string(),
        domain_id: "test-tenant".to_string(),
        token_endpoint_auth_method: method.to_string(),
        grant_types: texts(&["authorization_code", "refresh_token", DEVICE_GRANT]),
        response_types: texts(&["code"]),
        scope: "openid offline_access".to_string(),
        registered_scopes: texts(&["openid", "offline_access"]),
    }
}

fn token_params(grant_type: &str) -> TokenRequest {
    TokenRequest {
        grant_type: grant_type.to_string(),
        code: None,
        redirect_uri: None,
        client_id: "client-a".to_string(),
        client_secret: Some("secret-a".to_string()),
        code_verifier: None,
        scope: None,
        refresh_token: None,
        device_code: None,
    }
}

// ── scopes ──────────────────────────────────────────────────────────────

#[test]
fn scopes_cover_subset_semantics() {
    assert!(scopes_cover("openid profile email", "openid email"));
    assert!(scopes_cover("openid profile", "openid profile"));
    assert!(!scopes_cover("openid", "openid email"));
    assert!(!scopes_cover("", "openid"));
    assert!(scopes_cover("openid", ""));
    assert!(scopes_cover("openid", "   "));
}

#[test]
fn requested_scope_must_be_known_and_registered() {
    let registered: Vec<String> = vec!["openid".into(), "offline_access".into()];
    assert!(validate_requested_scope("openid", &registered).is_ok());
    assert!(validate_requested_scope("openid offline_access", &registered).is_ok());
    assert!(validate_requested_scope("", &registered).is_ok());
    assert!(
        validate_requested_scope("openid email", &registered).is_err(),
        "known but unregistered scope must be refused"
    );
    assert!(
        validate_requested_scope("openid admin", &registered).is_err(),
        "unknown scope must be refused"
    );
    assert!(
        validate_requested_scope("openid", &[]).is_err(),
        "nothing registered means nothing may be requested"
    );
}

#[test]
fn scope_errors_name_the_first_fault() {
    let registered = texts(&["openid"]);
    assert_eq!(
        validate_requested_scope("openid email admin", &registered),
        Err("scope 'email' is not registered for this client".to_string())
    );
    assert_eq!(
        validate_requested_scope("admin email", &registered),
        Err("unknown scope 'admin'".to_string())
    );
}

#[test]
fn scope_labels_known_and_unknown() {
    assert_eq!(scope_label("openid"), "Sign in with your identity");
    assert_eq!(scope_label("profile"), "Read your profile information");
    assert_eq!(scope_label("email"), "Read your email address");
    assert_eq!(
        scope_label("offline_access"),
        "Retain access while you are not present"
    );
    assert_eq!(scope_label("custom_scope"), "Additional access");
}

#[test]
fn narrowing_twice_never_widens() {
    let (a, b, c) = ("openid profile email", "openid email", "email");
    assert!(scopes_cover(a, b) && scopes_cover(b, c) && scopes_cover(a, c));
    assert!(!scopes_cover(c, a));
}

// ── URLs ────────────────────────────────────────────────────────────────

#[test]
fn oauth2_error_url_encodes_and_preserves_state() {
    let url = oauth2_error_url("/callback", "access_denied", "User said no", Some("s p&x"));
    assert!(url.starts_with("/callback?error=access_denied"));
    assert!(url.contains("error_description=User%20said%20no"));
    assert!(url.contains("state=s%20p%26x"));
}

#[test]
fn oauth2_error_url_omits_empty_description() {
    let url = oauth2_error_url("/e", "invalid_request", "", None);
    assert_eq!(url, "/e?error=invalid_request");
}

#[test]
fn callback_url_carries_code_state_scope() {
    let url = callback_url_with_code(
        "https://rp/cb",
        "code123",
        Some("st&ate"),
        Some("openid profile"),
    );
    assert!(url.starts_with("https://rp/cb?code=code123"));
    assert!(url.contains("state=st%26ate"));
    assert!(url.contains("scope=openid%20profile"));
}

#[test]
fn callback_url_without_optional_params() {
    let url = callback_url_with_code("https://rp/cb", "code123", None, None);
    assert_eq!(url, "https://rp/cb?code=code123");
}

#[test]
fn login_and_consent_hops() {
    assert_eq!(
        login_redirect("client a", "k/1", "https://rp/cb", true),
        "/login?client_id=client%20a&state=k%2F1&redirect_uri=https%3A%2F%2Frp%2Fcb&error=session_expired"
    );
    assert_eq!(consent_redirect("é"), "/consent?state=%C3%A9");
}

#[test]
fn encoded_state_reads_back() {
    for state in ["plain", "s p&x=1", "100%", "é/ü?#", "~._-"] {
        let url = oauth2_error_url("/e", "x", "", Some(state));
        let encoded = url.split("state=").nth(1).unwrap();
        assert!(!encoded.contains(['&', '=', '?', '#', ' ']));
        assert_eq!(basic_credential_decode(encoded), state);
    }
}

// ── codes ───────────────────────────────────────────────────────────────

#[test]
fn random_urlsafe_string_shape_and_uniqueness() {
    let a = random_urlsafe_string();
    let b = random_urlsafe_string();
    assert_ne!(a, b);
    assert_eq!(a.len(), 43);
    assert!(a
        .chars()
        .all(|c| c.is_ascii_alphanumeric() || c == '-' || c == '_'));
    assert_ne!(generate_device_code(), generate_device_code());
}

#[test]
fn constant_time_eq_matches_and_rejects() {
    assert!(constant_time_eq(b"abc", b"abc"));
    assert!(constant_time_eq(b"", b""));
    assert!(!constant_time_eq(b"abc", b"abd"));
    assert!(!constant_time_eq(b"abc", b"ab"));
    assert!(!constant_time_eq(b"ab", b"abc"));
}

#[test]
fn user_code_uses_rfc8628_alphabet() {
    const ALLOWED: &str = "BCDFGHJKLMNPQRSTVWXZ";
    for _ in 0..100 {
        let code = generate_user_code();
        assert_eq!(code.len(), 9, "XXXX-XXXX shape");
        assert_eq!(&code[4..5], "-");
        assert!(
            code.chars()
                .filter(|c| *c != '-')
                .all(|c| ALLOWED.contains(c)),
            "code {code} must stay within the RFC 8628 alphabet"
        );
    }
}

#[test]
fn biased_bytes_are_passed_over() {
    let mut letters: Vec<char> = Vec::new();
    collect_letters(&mut letters, &[255, 240, 0, 19, 20, 239]);
    assert_eq!(letters, vec!['B', 'Z', 'B', 'Z']);
    collect_letters(&mut letters, &[1, 2, 3, 4, 5, 6, 7]);
    assert_eq!(letters, vec!['B', 'Z', 'B', 'Z', 'C', 'D', 'F', 'G']);
}

#[test]
fn digests_have_their_known_values() {
    assert_eq!(
        code_hash("abc"),
        "ba7816bf8f01cfea414140de5dae2223b00361a396177a9cb410ff61f20015ad"
    );
    assert_eq!(at_hash("abc"), "ungWv48Bz-pBQUDeXa4iIw");
}

#[test]
fn pkce_verifiers_match_their_challenges() {
    let verifier = "dBjftJeZ4CVP-mB92K27uhbUJU1p1r_wW1gFWFOEjXk";
    let challenge = "E9Melhoa2OwvFrEMTJguCHaoeK1t8URWbuGJSstw-cM";
    assert!(verify_challenge("s256", verifier, challenge));
    assert!(!verify_challenge("s256", challenge, challenge));
    assert!(verify_challenge("plain", verifier, verifier));
    assert!(!verify_challenge("plain", verifier, challenge));
    assert!(!verify_challenge("S512", verifier, challenge));
    assert!(challenge_is_ok(challenge));
    assert!(!challenge_is_ok(&challenge[1..]));
    assert!(challenge_is_ok(&"a".repeat(128)));
    assert!(!challenge_is_ok(&"a".repeat(129)));
    assert!(!challenge_is_ok(&"=".repeat(43)));
}

// ── client authentication ───────────────────────────────────────────────

#[test]
fn basic_credential_decode_percent_decodes_rfc6749() {
    assert_eq!(basic_credential_decode("abc%20def"), "abc def");
    assert_eq!(basic_credential_decode("a%2Bb"), "a+b");
    assert_eq!(basic_credential_decode("%3D%3D"), "==");
}

#[test]
fn basic_credential_decode_preserves_literal_reserved_chars() {
    assert_eq!(basic_credential_decode("a+b"), "a+b");
    assert_eq!(basic_credential_decode("abc="), "abc=");
    assert_eq!(basic_credential_decode("plain"), "plain");
    assert_eq!(basic_credential_decode(""), "");
}

#[test]
fn basic_credential_decode_invalid_sequences_fall_back_to_raw() {
    assert_eq!(basic_credential_decode("100%"), "100%");
    assert_eq!(basic_credential_decode("x%ZZy"), "x%ZZy");
    assert_eq!(basic_credential_decode("%ff"), "%ff");
}

#[test]
fn basic_headers_are_read() {
    // client-a:s%20x:y
    let header = "Basic Y2xpZW50LWE6cyUyMHg6eQ==";
    assert_eq!(
        read_basic(Some(header)),
        Some(("client-a".to_string(), "s%20x:y".to_string()))
    );
    assert_eq!(read_basic(Some("basic Y2xpZW50LWE6cw==")), None);
    assert_eq!(read_basic(Some("Basic ***")), None);
    assert_eq!(read_basic(Some("Basic //8=")), None, "not UTF-8");
    assert_eq!(read_basic(Some("Basic YWJj")), None, "no colon");
    assert_eq!(read_basic(None), None);
    assert_eq!(
        presented_client_secret(Some(header), None),
        Some("s x:y".to_string())
    );
    assert_eq!(
        presented_client_secret(Some("Bearer x"), Some("form")),
        Some("form".to_string())
    );
    assert_eq!(presented_client_secret(None, Some("")), None);
}

fn plan(p: Result<SecretPlan, String>) -> Result<Option<(String, Option<String>)>, String> {
    match p {
        Ok(SecretPlan::Open) => Ok(None),
        Ok(SecretPlan::Try { first, second }) => Ok(Some((first, second))),
        Err(e) => Err(e),
    }
}

#[test]
fn clients_authenticate_by_their_method() {
    let post = Ok(client("client-a", "client_secret_post"));
    assert_eq!(
        plan(authenticate_client("client-a", &post, Some("s"), None)),
        Ok(Some(("s".to_string(), None)))
    );
    assert_eq!(
        plan(authenticate_client("client-a", &post, None, None)),
        Err("Missing required parameter: client_secret".to_string())
    );
    assert_eq!(
        plan(authenticate_client("", &post, Some("s"), None)),
        Err("Missing required parameter: client_id".to_string())
    );
    assert_eq!(
        plan(authenticate_client("x", &Err("no such client".to_string()), None, None)),
        Err("no such client".to_string())
    );
    let open = Ok(client("client-a", "none"));
    assert_eq!(plan(authenticate_client("client-a", &open, None, None)), Ok(None));
    let odd = Ok(client("client-a", "tls"));
    assert_eq!(
        plan(authenticate_client("client-a", &odd, None, None)),
        Err("Unsupported token_endpoint_auth_method: tls".to_string())
    );
    let basic = Ok(client("client-a", "client_secret_basic"));
    let header = "Basic Y2xpZW50LWE6cyUyMHg6eQ==";
    assert_eq!(
        plan(authenticate_client("client-a", &basic, None, Some(header))),
        Ok(Some(("s x:y".to_string(), Some("s%20x:y".to_string()))))
    );
    assert_eq!(
        plan(authenticate_client("client-b", &basic, None, Some(header))),
        Err("client_id mismatch between body and Basic auth header".to_string())
    );
    assert_eq!(
        plan(authenticate_client("client-a", &basic, Some("body"), None)),
        Ok(Some(("body".to_string(), None)))
    );
    assert_eq!(
        plan(authenticate_client("client-a", &basic, None, None)),
        Err("Missing required parameter: client_secret".to_string())
    );
}

#[test]
fn secrets_are_tried_in_order() {
    let wrong = Err("Invalid client_credentials".to_string());
    assert_eq!(verify_client_secret(Ok(true), None), Ok(()));
    assert_eq!(verify_client_secret(Ok(false), None), wrong);
    assert_eq!(verify_client_secret(Ok(false), Some(Ok(true))), Ok(()));
    assert_eq!(verify_client_secret(Ok(false), Some(Ok(false))), wrong);
    assert_eq!(
        verify_client_secret(Err("broken".to_string()), Some(Ok(true))),
        Err("broken".to_string())
    );
    assert_eq!(
        verify_client_secret(Ok(false), Some(Err("broken".to_string()))),
        Err("broken".to_string())
    );
}

#[test]
fn bearer_tokens_are_read() {
    assert_eq!(get_bearer_token(Some("Bearer abc")), Some("abc".to_string()));
    assert_eq!(get_bearer_token(Some("bearer abc")), Some("abc".to_string()));
    assert_eq!(get_bearer_token(Some("BEARER abc")), None);
    assert_eq!(get_bearer_token(None), None);
}

// ── authorization endpoint ──────────────────────────────────────────────

fn authorize_params() -> AuthorizeRequest {
    AuthorizeRequest {
        response_type: "code".to_string(),
        client_id: "client-a".to_string(),
        redirect_uri: Some("http://localhost/client-a/callback".to_string()),
        scope: Some("openid".to_string()),
        state: Some("rp-state-123".to_string()),
        nonce: None,
        code_challenge: None,
        code_challenge_method: None,
    }
}

fn facts(c: Client) -> AuthorizeFacts {
    let uri = format!("http://localhost/{}/callback", c.id);
    AuthorizeFacts {
        tenant: Some("test-tenant".to_string()),
        client: Some(c),
        registered_uris: Ok(vec![uri]),
        tls: false,
    }
}

fn authorize_error(p: &AuthorizeRequest, f: &AuthorizeFacts) -> String {
    match authorize_flow(p, f) {
        Ok(_) => panic!("the request must be refused"),
        Err(url) => url,
    }
}

#[test]
fn authorize_checks_redirect_uri_without_panicking() {
    let f = facts(client("client-a", "client_secret_post"));
    let mut p = authorize_params();
    p.redirect_uri = Some("https://evil.example/cb".to_string());
    assert!(authorize_error(&p, &f).contains("error=invalid_redirect_uri"));
    p.redirect_uri = None;
    assert_eq!(
        authorize_error(&p, &f),
        "/error?error=invalid_request&error_description=Missing%20required%20parameter%3A%20redirect_uri&state=rp-state-123"
    );
    let granted = match authorize_flow(&authorize_params(), &f) {
        Ok(g) => g,
        Err(e) => panic!("{e}"),
    };
    assert_eq!(granted.callback_uri, "http://localhost/client-a/callback");
    assert_eq!(granted.scope, "openid");
    assert!(granted.pkce.is_none());
}

#[test]
fn authorize_rejects_unregistered_or_unknown_scope() {
    let f = facts(client("client-a", "client_secret_post"));
    for scope in ["openid email", "openid admin"] {
        let mut p = authorize_params();
        p.scope = Some(scope.to_string());
        assert!(authorize_error(&p, &f).starts_with("/error?error=invalid_scope"));
    }
    let mut p = authorize_params();
    p.scope = Some("openid offline_access".to_string());
    assert!(authorize_flow(&p, &f).is_ok());
    p.scope = Some("  ".to_string());
    match authorize_flow(&p, &f) {
        Ok(g) => assert_eq!(g.scope, "openid offline_access", "the client's own scope"),
        Err(e) => panic!("{e}"),
    }
}

#[test]
fn authorize_refuses_in_order() {
    let f = facts(client("client-a", "client_secret_post"));
    let mut p = authorize_params();
    p.response_type = "token".to_string();
    assert!(authorize_error(&p, &f).starts_with("/error?error=unsupported_response_type"));
    let mut p = authorize_params();
    p.client_id = String::new();
    assert!(authorize_error(&p, &f).starts_with("/error?error=invalid_client"));
    let mut f = facts(client("client-a", "client_secret_post"));
    f.tenant = None;
    assert!(authorize_error(&authorize_params(), &f).contains("Unknown%20domain%2Ftenant"));
    let mut f = facts(client("client-a", "client_secret_post"));
    f.client = None;
    assert!(authorize_error(&authorize_params(), &f).contains("Unknown%20client%20%27client-a%27"));
    let mut f = facts(client("client-a", "client_secret_post"));
    f.registered_uris = Err("db".to_string());
    assert!(authorize_error(&authorize_params(), &f).starts_with("/error?error=server_error"));
    let mut c = client("client-a", "client_secret_post");
    c.domain_id = "elsewhere".to_string();
    assert!(authorize_error(&authorize_params(), &facts(c))
        .contains("Client%20is%20not%20registered%20for%20this%20tenant"));
    let mut c = client("client-a", "client_secret_post");
    c.response_types = texts(&["token"]);
    assert!(authorize_error(&authorize_params(), &facts(c))
        .contains("error=unauthorized_client"));
}

#[test]
fn pkce_rules() {
    let challenge = "E9Melhoa2OwvFrEMTJguCHaoeK1t8URWbuGJSstw-cM";
    let f = facts(client("client-a", "none"));
    assert!(authorize_error(&authorize_params(), &f)
        .contains("PKCE%20is%20required%20for%20public%20clients"));
    let mut p = authorize_params();
    p.code_challenge = Some(challenge.to_string());
    p.code_challenge_method = Some("S256".to_string());
    match authorize_flow(&p, &f) {
        Ok(g) => {
            let k = g.pkce.expect("challenge");
            assert_eq!(k.method, "s256");
            assert_eq!(k.challenge, challenge);
        }
        Err(e) => panic!("{e}"),
    }
    p.code_challenge_method = None;
    assert!(authorize_error(&p, &f).contains("requires%20TLS"), "plain is the default");
    p.code_challenge_method = Some("S512".to_string());
    assert!(authorize_error(&p, &f)
        .contains("Unsupported%20code_challenge_method%3A%20%27s512%27"));
    match choose_pkce(Some("short"), "plain", false, true) {
        Err(e) => assert!(e.starts_with("Malformed code_challenge")),
        Ok(_) => panic!("malformed"),
    }
    assert!(matches!(choose_pkce(None, "plain", false, false), Ok(None)));
    assert!(check_authorize(&p, &f, "s256").is_ok());
}

#[test]
fn tls_comes_from_a_trusted_proxy_or_the_scheme() {
    assert!(is_tls(true, Some("HTTPS"), false));
    assert!(!is_tls(true, Some("http"), true));
    assert!(is_tls(false, Some("http"), true));
    assert!(!is_tls(false, Some("https"), false));
    assert!(is_tls(true, None, true));
}

fn session(user: &str) -> Session {
    Session {
        user: user.to_string(),
        username: "alice".to_string(),
        mfa: texts(&["otp"]),
        auth_time: None,
    }
}

#[test]
fn authorize_steps() {
    let p = authorize_params();
    let g = match authorize_flow(&p, &facts(client("client-a", "client_secret_post"))) {
        Ok(g) => g,
        Err(e) => panic!("{e}"),
    };
    let alice = Some(session("alice-id"));
    let granted = |scope: &str| Ok(Some(scope.to_string()));
    assert!(matches!(
        authorize_step(&p, &g, &None, &Ok(None), NOW),
        AuthorizeStep::Login(e) if e.park_user.is_none() && e.stage == "login"
    ));
    assert!(matches!(
        authorize_step(&p, &g, &alice, &Ok(None), NOW),
        AuthorizeStep::Consent(e) if e.park_user.as_deref() == Some("alice-id")
    ));
    assert!(matches!(
        authorize_step(&p, &g, &alice, &granted("email"), NOW),
        AuthorizeStep::Consent(_)
    ));
    assert!(matches!(
        authorize_step(&p, &g, &alice, &granted("openid email"), NOW),
        AuthorizeStep::Issue(i) if i.user_id == "alice-id" && i.scope == "openid"
    ));
    match authorize_step(&p, &g, &alice, &Err("db".to_string()), NOW) {
        AuthorizeStep::Failed(url) => assert_eq!(
            url,
            "/error?error=server_error&error_description=Failed%20to%20query%20consent%20grants%3A%20db&state=rp-state-123"
        ),
        _ => panic!("the store failed"),
    }
}

#[test]
fn authorize_pending_key_is_server_random_not_rp_state() {
    let p = authorize_params();
    let g = match authorize_flow(&p, &facts(client("client-a", "client_secret_post"))) {
        Ok(g) => g,
        Err(e) => panic!("{e}"),
    };
    let csrf = random_urlsafe_string();
    let entry = park(&p, &g, None, NOW);
    assert_ne!(pending_key(&csrf), "auth_pending:rp-state-123");
    assert_eq!(entry.state.as_deref(), Some("rp-state-123"));
    assert_eq!(entry.stage, "login");
    assert_eq!(entry.park_user, None);
    let loc = parked_for_login(&p, &g, &csrf, true, false);
    assert!(loc.starts_with("/login?client_id=client-a"));
    assert!(!loc.contains("rp-state-123"));
    assert!(parked_for_login(&p, &g, &csrf, false, false)
        .starts_with("/error?error=server_error"));
    let bound = park(&p, &g, Some("alice-id"), NOW);
    assert_eq!(bound.stage, "consent");
    assert_eq!(bound.park_user.as_deref(), Some("alice-id"));
    assert_eq!(parked_for_consent(&p.state, "k", true), "/consent?state=k");
    assert!(parked_for_consent(&p.state, "k", false).contains("pending%20consent"));
    assert_eq!(
        authorize_issued(&p, &g, &Ok("c".to_string())),
        "http://localhost/client-a/callback?code=c&state=rp-state-123&scope=openid"
    );
    let req = issue_for(&p, &g, &session("alice-id"), NOW);
    assert_eq!(req.user_id, "alice-id");
    assert_eq!(req.auth_time, NOW as u64);
}

fn pending(park_user: Option<&str>) -> PendingAuth {
    PendingAuth {
        client_id: "client-a".to_string(),
        callback_uri: "http://localhost/client-a/callback".to_string(),
        scope: "openid".to_string(),
        state: Some("rp-1".to_string()),
        nonce: None,
        code_challenge: Some("c".to_string()),
        code_challenge_method: Some("other".to_string()),
        stage: "consent".to_string(),
        park_user: park_user.map(|u| u.to_string()),
        created_at: NOW,
    }
}

#[test]
fn consent_entry_is_bound_to_the_parking_session_user() {
    let tenant = Some("test-tenant".to_string());
    let domain = Some("test-tenant".to_string());
    let entry = Some(pending(Some("alice-id")));
    let mut store = OneShot::new();
    assert!(store.put(&pending_key("k"), pending(Some("alice-id"))));
    // bob probes: refused, and the entry stays.
    assert!(consent_info("bob-id", &entry).is_err());
    // alice sees her own.
    let info = match consent_info("alice-id", &entry) {
        Ok(i) => i,
        Err(_) => panic!("the parking session's user must still see the entry"),
    };
    assert_eq!(info.client_id, "client-a");
    assert_eq!(info.scopes.len(), 1);
    assert_eq!(info.scopes[0].label, "Sign in with your identity");
    assert!(store.get(&pending_key("k")).is_some());
    // bob submits: refused, and the entry is consumed.
    let taken = take_parked(&mut store, "k");
    assert!(taken.is_some());
    match consent_submit(&session("bob-id"), &taken, "accept", &tenant, &domain, NOW) {
        ConsentStep::Answer(h) => {
            assert_eq!(h.status, 400);
            assert_eq!(h.url, "/login?error=invalid_state");
        }
        ConsentStep::Replace(_) => panic!("a foreign session must not get a code"),
    }
    // The rightful user comes too late.
    let gone = take_parked(&mut store, "k");
    assert!(gone.is_none());
    assert!(consent_info("alice-id", &gone).is_err());
    match consent_submit(&session("alice-id"), &gone, "accept", &tenant, &domain, NOW) {
        ConsentStep::Answer(h) => {
            assert_eq!(h.status, 400);
            assert_eq!(h.url, "/login?error=invalid_state");
        }
        ConsentStep::Replace(_) => panic!("the entry was consumed"),
    }
    // Without a foreign submission alice's own succeeds.
    assert!(matches!(
        consent_submit(&session("alice-id"), &entry, "accept", &tenant, &domain, NOW),
        ConsentStep::Replace(i) if i.user_id == "alice-id" && i.client_id == "client-a"
    ));
    assert!(pending_user_matches(&pending(None), "anyone"));
}

#[test]
fn consent_decisions() {
    let tenant = Some("test-tenant".to_string());
    let entry = Some(pending(None));
    match consent_submit(&session("u"), &entry, "deny", &tenant, &tenant, NOW) {
        ConsentStep::Answer(h) => {
            assert_eq!(h.status, 200);
            assert_eq!(
                h.url,
                "http://localhost/client-a/callback?error=access_denied&error_description=User%20denied%20consent%20for%20this%20client.&state=rp-1"
            );
        }
        ConsentStep::Replace(_) => panic!("declined"),
    }
    match consent_submit(&session("u"), &entry, "accept", &None, &tenant, NOW) {
        ConsentStep::Answer(h) => assert_eq!(h.status, 500),
        ConsentStep::Replace(_) => panic!("no tenant"),
    }
    match consent_submit(&session("u"), &entry, "accept", &tenant, &Some("other".to_string()), NOW) {
        ConsentStep::Answer(h) => assert_eq!(h.status, 400),
        ConsentStep::Replace(_) => panic!("another tenant's client"),
    }
    let h = consent_not_replaced(&pending(None), "db");
    assert_eq!(h.status, 500);
    let h = continuation_issued(&pending(None), &Ok("c".to_string()));
    assert_eq!(
        h.url,
        "http://localhost/client-a/callback?code=c&state=rp-1&scope=openid"
    );
    assert_eq!(continuation_issued(&pending(None), &Err("x".to_string())).status, 500);
}

#[test]
fn resuming_a_parked_request() {
    let tenant = Some("test-tenant".to_string());
    assert!(matches!(resume_key(true, Some("k")), Ok(k) if k == "auth_pending:k"));
    match resume_key(false, Some("k")) {
        Err(h) => {
            assert_eq!(h.status, 401);
            assert_eq!(h.url, "/login?error=session_expired");
        }
        Ok(_) => panic!("no session"),
    }
    assert!(matches!(resume_key(true, Some("")), Err(h) if h.status == 400));
    let entry = Some(pending(Some("alice-id")));
    assert!(matches!(
        authorize_resume(&session("alice-id"), &entry, &tenant, &tenant, &Ok(Some("openid".to_string())), NOW),
        ResumeStep::Issue(i) if i.scope == "openid"
    ));
    assert!(matches!(
        authorize_resume(&session("alice-id"), &entry, &tenant, &tenant, &Ok(None), NOW),
        ResumeStep::Consent(e) if e.park_user.as_deref() == Some("alice-id")
    ));
    assert!(matches!(
        authorize_resume(&session("bob-id"), &entry, &tenant, &tenant, &Ok(None), NOW),
        ResumeStep::Answer(h) if h.status == 400
    ));
    assert!(matches!(
        authorize_resume(&session("alice-id"), &entry, &tenant, &None, &Ok(None), NOW),
        ResumeStep::Answer(h) if h.url.contains("Unknown%20client")
    ));
    assert!(matches!(
        authorize_resume(&session("alice-id"), &entry, &tenant, &tenant, &Err("db".to_string()), NOW),
        ResumeStep::Answer(h) if h.status == 500
    ));
    let again = park_for_consent(&pending(None), "alice-id", NOW + 1);
    assert_eq!(again.park_user.as_deref(), Some("alice-id"));
    assert_eq!(again.code_challenge_method.as_deref(), Some("s256"));
    assert_eq!(resume_parked(&pending(None), "k", true).url, "/consent?state=k");
    assert_eq!(resume_parked(&pending(None), "k", false).status, 500);
    let req = issue_pending(&pending(None), &session("alice-id"), NOW);
    assert_eq!(req.pkce.expect("challenge").method, "s256");
}

// ── token endpoint ──────────────────────────────────────────────────────

#[test]
fn forms_are_read_with_the_last_value() {
    let pairs = vec![
        ("code".to_string(), "first".to_string()),
        ("grant_type".to_string(), "authorization_code".to_string()),
        ("code".to_string(), "second".to_string()),
    ];
    assert_eq!(form_get(&pairs, "code"), Some("second".to_string()));
    assert_eq!(form_get(&pairs, "scope"), None);
    let p = token_request(&pairs);
    assert_eq!(p.grant_type, "authorization_code");
    assert_eq!(p.code.as_deref(), Some("second"));
    assert_eq!(p.client_id, "");
    let pairs = vec![
        ("token".to_string(), "t".to_string()),
        ("client_id".to_string(), "c".to_string()),
        ("scope".to_string(), "s".to_string()),
    ];
    assert_eq!(revoke_request(&pairs).token, "t");
    assert_eq!(introspect_form(&pairs).client_id.as_deref(), Some("c"));
    assert_eq!(introspect_form(&vec![]).token, "");
    assert_eq!(device_auth_request(&pairs).scope.as_deref(), Some("s"));
}

fn refused(r: Result<GrantKind, janux::reply::Refusal>) -> (u16, String) {
    match r {
        Ok(_) => panic!("the grant must be refused"),
        Err(e) => (e.status, e.error),
    }
}

#[test]
fn client_grant_and_response_type_allowlists_are_enforced() {
    let mut c = client("client-c", "client_secret_post");
    c.grant_types = texts(&["refresh_token"]);
    c.response_types = texts(&["token"]);
    c.registered_scopes = texts(&["openid"]);
    let authenticated = Ok(c);
    for grant in ["authorization_code", DEVICE_GRANT] {
        assert_eq!(
            refused(token(&token_params(grant), true, &authenticated)),
            (400, "unauthorized_client".to_string())
        );
    }
    assert_eq!(
        refused(token(
            &token_params("password"),
            true,
            &Ok(client("client-a", "client_secret_post"))
        )),
        (400, "unsupported_grant_type".to_string())
    );
    let start = DeviceAuthRequest {
        client_id: Some("client-c".to_string()),
        scope: None,
        client_secret: Some("secret-c".to_string()),
    };
    match device_authorization(&start, true, &authenticated) {
        Err(e) => assert_eq!(e.error, "unauthorized_client"),
        Ok(_) => panic!("device_authorization must refuse unregistered clients"),
    }
    let mut c = client("client-c", "client_secret_post");
    c.response_types = texts(&["token"]);
    let mut p = authorize_params();
    p.client_id = "client-c".to_string();
    assert!(authorize_error(&p, &facts(c)).contains("error=unauthorized_client"));
}

#[test]
fn token_requests_are_gated() {
    let ok = Ok(client("client-a", "client_secret_post"));
    assert_eq!(refused(token(&token_params(""), true, &ok)).0, 400);
    assert_eq!(
        refused(token(&token_params("refresh_token"), false, &ok)),
        (401, "invalid_client".to_string())
    );
    assert_eq!(
        refused(token(
            &token_params("refresh_token"),
            true,
            &Err("Invalid client_credentials".to_string())
        )),
        (401, "invalid_client".to_string())
    );
    assert!(matches!(
        token(&token_params(DEVICE_GRANT), true, &ok),
        Ok(GrantKind::DeviceCode)
    ));
    assert!(matches!(
        token(&token_params("authorization_code"), true, &ok),
        Ok(GrantKind::AuthorizationCode)
    ));
    assert!(matches!(
        token(&token_params("refresh_token"), true, &ok),
        Ok(GrantKind::RefreshToken)
    ));
}

#[test]
fn client_credentials_mints_scim_service_token() {
    let mut c = client("scim-client", "client_secret_post");
    c.grant_types = texts(&["client_credentials"]);
    let s = match handle_client_credentials(&c, "localhost", true) {
        Ok(s) => s,
        Err(e) => panic!("{}", e.description),
    };
    assert_eq!(s.user, c.uuid);
    assert_eq!(s.username, "client:scim-client");
    assert_eq!(s.roles, texts(&["scim"]));
    assert!(s.mfa.is_empty(), "a service token carries no factors");
    assert_eq!(s.minutes, 90 * 24 * 60);
    let r = service_response("jwt".to_string());
    assert_eq!(r.token_type, "Bearer");
    assert_eq!(r.expires_in, 90 * 24 * 3600);
    assert!(r.refresh_token.is_none(), "no refresh token for now");
    assert!(matches!(token(&token_params("client_credentials"), true, &Ok(c)), Ok(GrantKind::ClientCredentials)));
}

#[test]
fn client_credentials_refuses_unregistered_grant_and_public_clients() {
    let a = Ok(client("client-a", "client_secret_post"));
    assert_eq!(
        refused(token(&token_params("client_credentials"), true, &a)),
        (400, "unauthorized_client".to_string())
    );
    let public = client("public-cc", "none");
    match handle_client_credentials(&public, "localhost", true) {
        Err(e) => assert_eq!((e.status, e.error.as_str()), (401, "invalid_client")),
        Ok(_) => panic!("a public client cannot use the grant"),
    }
    match handle_client_credentials(&client("x", "client_secret_post"), "localhost", false) {
        Err(e) => assert_eq!((e.status, e.error.as_str()), (500, "server_error")),
        Ok(_) => panic!("no signing key"),
    }
}

fn mint_request(scope: &str, minutes: i32) -> MintRequest {
    MintRequest {
        user_id: USER.to_string(),
        scope: scope.to_string(),
        jti: "jti".to_string(),
        client_id: "client-a".to_string(),
        nonce: Some("n-0S6".to_string()),
        mfa: texts(&["otp"]),
        auth_time: 1_600_000_000,
        family: "fam".to_string(),
        family_created_at: NOW,
        refresh_minutes: minutes,
    }
}

#[test]
fn tokens_follow_the_scope() {
    let m = mint_request("openid offline_access", FAMILY_MINUTES);
    let p = mint_plan(&m);
    assert_eq!(p.access_minutes, 60);
    assert_eq!((p.user_id.as_str(), p.auth_time), (USER, 1_600_000_000));
    assert_eq!(p.mfa, texts(&["otp"]));
    let id = generate_id_token(&m, "at").expect("openid");
    assert_eq!((id.user_id.as_str(), id.client_id.as_str()), (USER, "client-a"));
    assert_eq!(id.nonce.as_deref(), Some("n-0S6"));
    assert_eq!((id.mfa, id.auth_time), (texts(&["otp"]), 1_600_000_000));
    assert_eq!((id.access_token.as_str(), id.minutes), ("at", 15));
    let rt = p.refresh.expect("offline_access");
    assert_eq!(rt.minutes, 30 * 24 * 60);
    assert_eq!(rt.data.typ, "refresh");
    assert_eq!(rt.data.family, "fam");
    let p = mint_plan(&mint_request("profile", FAMILY_MINUTES));
    assert!(generate_id_token(&mint_request("profile", 1), "at").is_none());
    assert!(p.refresh.is_none());
    assert!(mint_plan(&mint_request("offline_access", 0)).refresh.is_none());
    let m = mint_token_response(USER, "openid offline_access", "j", "client-a", "fam", NOW);
    assert!(m.mfa.is_empty() && m.nonce.is_none());
    assert_eq!((m.user_id.as_str(), m.auth_time), (USER, NOW as u64));
    assert_eq!(mint_plan(&m).refresh.map(|rt| rt.data.family_created_at), Some(NOW));
    let r = token_response("at".to_string(), "", None, None);
    assert_eq!(r.scope, None);
    assert_eq!(r.expires_in, 3600);
    let data = OidcAccessTokenData {
        scope: "openid".to_string(),
        jti: "j".to_string(),
        client_id: "c".to_string(),
    };
    let e = access_entry("abc", &data, "u", &Some("n".to_string()), NOW);
    assert_eq!(e.exp, NOW + 3600);
    assert_eq!(e.at_hash, "ungWv48Bz-pBQUDeXa4iIw");
    assert_eq!(access_key("abc"), "token:access:abc");
    assert_eq!(signing_refusal(Signing::IdToken).description, "Failed to sign ID token");
    assert_eq!(signing_refusal(Signing::ServiceToken).status, 500);
}

// ── authorization codes ─────────────────────────────────────────────────

fn code_entry(user: &str) -> AuthCodeEntry {
    AuthCodeEntry {
        client_id: "client-a".to_string(),
        callback_uri: "http://localhost/client-a/callback".to_string(),
        user_id: user.to_string(),
        scope: "openid".to_string(),
        nonce: None,
        code_challenge_method: None,
        mfa: vec![],
        auth_time: NOW as u64,
        jti: "j".to_string(),
        created_at: NOW,
        expires_at: NOW + 600,
    }
}

fn code_facts(user: &str, active: Option<bool>) -> CodeFacts {
    CodeFacts {
        entry: Some(code_entry(user)),
        user_active: active,
        challenge: None,
        has_key: true,
    }
}

fn exchange_error(p: &TokenRequest, client: &str, f: &CodeFacts, now: i64) -> (u16, String, String) {
    match handle_auth_code(p, client, f, "fam", now) {
        Ok(_) => panic!("the exchange must be refused"),
        Err(e) => (e.status, e.error, e.description),
    }
}

#[test]
fn auth_code_exchange_refuses_deactivated_user() {
    let p = token_params("authorization_code");
    let mut f = code_facts(USER, Some(true));
    f.entry = f.entry.map(|e| AuthCodeEntry {
        nonce: Some("n".to_string()),
        mfa: texts(&["otp"]),
        auth_time: 5,
        ..e
    });
    match handle_auth_code(&p, "client-a", &f, "fam", NOW) {
        Ok(m) => {
            let id = generate_id_token(&m, "at").expect("openid");
            assert_eq!(id.user_id, USER);
            assert_eq!((id.nonce.as_deref(), id.auth_time), (Some("n"), 5));
            assert_eq!(id.mfa, texts(&["otp"]));
        }
        Err(e) => panic!("{}", e.description),
    }
    assert_eq!(
        exchange_error(&p, "client-a", &code_facts(USER, Some(false)), NOW),
        (400, "invalid_grant".to_string(), "user is deactivated".to_string())
    );
    assert_eq!(
        exchange_error(&p, "client-a", &code_facts(USER, None), NOW).2,
        "unknown user"
    );
    assert_eq!(
        exchange_error(&p, "client-a", &code_facts("not-a-uuid", Some(true)), NOW).2,
        "unknown user"
    );
}

#[test]
fn auth_code_exchange_loads_redirect_uris() {
    let registered = Ok(texts(&["http://localhost/client-a/callback"]));
    let mut p = token_params("authorization_code");
    p.code = Some("whatever".to_string());
    p.redirect_uri = Some("https://evil.example/cb".to_string());
    match auth_code_request(&p, &registered) {
        Err(e) => {
            assert_eq!((e.status, e.error.as_str()), (400, "invalid_grant"));
            assert!(e.description.contains("redirect_uri"));
        }
        Ok(_) => panic!("mismatched redirect_uri"),
    }
    p.redirect_uri = None;
    assert!(matches!(auth_code_request(&p, &registered), Ok(c) if c == "whatever"));
    let gone = CodeFacts {
        entry: None,
        user_active: None,
        challenge: None,
        has_key: true,
    };
    let (status, error, description) = exchange_error(&p, "client-a", &gone, NOW);
    assert_eq!((status, error.as_str()), (400, "invalid_grant"));
    assert!(description.contains("expired or was already used"));
    let two = Ok(texts(&["a", "b"]));
    assert!(matches!(auth_code_request(&p, &two), Err(e) if e.description == "redirect_uri missing"));
    assert!(matches!(
        auth_code_request(&p, &Err("db".to_string())),
        Err(e) if e.status == 500
    ));
    p.code = Some(String::new());
    assert!(matches!(
        auth_code_request(&p, &registered),
        Err(e) if e.description == "Missing required parameter: code"
    ));
}

#[test]
fn codes_are_exchanged_by_their_own_client_in_time() {
    let p = token_params("authorization_code");
    let f = code_facts(USER, Some(true));
    assert_eq!(
        exchange_error(&p, "client-b", &f, NOW),
        (
            401,
            "invalid_client".to_string(),
            "Authorization code was issued to a different client".to_string()
        )
    );
    assert!(handle_auth_code(&p, "client-a", &f, "fam", NOW + 600).is_ok());
    assert_eq!(
        exchange_error(&p, "client-a", &f, NOW + 601).2,
        "Authorization code has expired"
    );
    let mut other = token_params("authorization_code");
    other.redirect_uri = Some("http://localhost/other".to_string());
    assert_eq!(
        exchange_error(&other, "client-a", &f, NOW).2,
        "redirect_uri does not match the authorization request"
    );
    assert_eq!(
        exchange_error(&p, "client-a", &code_facts("", Some(true)), NOW).2,
        "Authorization code entry is malformed"
    );
    let mut keyless = code_facts(USER, Some(true));
    keyless.has_key = false;
    assert_eq!(exchange_error(&p, "client-a", &keyless, NOW).0, 500);
    assert!(exchange_code(&p, "client-a", &f, &None, NOW).is_ok());
    assert!(exchange_code(&p, "client-a", &f, &Some("no".to_string()), NOW).is_err());
}

#[test]
fn bound_codes_need_their_verifier() {
    let verifier = "dBjftJeZ4CVP-mB92K27uhbUJU1p1r_wW1gFWFOEjXk";
    let challenge = "E9Melhoa2OwvFrEMTJguCHaoeK1t8URWbuGJSstw-cM";
    assert!(check_pkce(Some("s256"), Some(verifier), Some(challenge)).is_ok());
    assert!(check_pkce(None, None, None).is_ok());
    assert!(matches!(
        check_pkce(Some("s256"), None, Some(challenge)),
        Err(e) if e.description == "Missing required parameter: code_verifier"
    ));
    for wrong in [
        check_pkce(Some("s256"), Some("x"), Some(challenge)),
        check_pkce(Some("s256"), Some(verifier), None),
        check_pkce(Some("md5"), Some(verifier), Some(challenge)),
    ] {
        assert!(matches!(
            wrong,
            Err(e) if e.description == "PKCE code_verifier does not match the challenge"
        ));
    }
}

#[test]
fn codes_are_issued_or_taken_back() {
    let req = issue_pending(&pending(None), &session(USER), NOW);
    let e = auth_code_entry(&req, "jti", NOW);
    assert_eq!(e.expires_at, NOW + 600);
    assert_eq!(e.code_challenge_method.as_deref(), Some("s256"));
    let issued = issue_authorization_code("c".to_string(), NOW + 600, &Ok(()), Some(true));
    assert!(matches!(issued, Ok(c) if c == "c"));
    match issue_authorization_code("c".to_string(), NOW, &Err("db".to_string()), None) {
        Err(f) => {
            assert_eq!(f.message, "Failed to record authorization grant: db");
            assert!(f.drop_code);
        }
        Ok(_) => panic!("not recorded"),
    }
    match issue_authorization_code("c".to_string(), NOW, &Ok(()), Some(false)) {
        Err(f) => assert_eq!(f.message, "Failed to store PKCE challenge"),
        Ok(_) => panic!("challenge not stored"),
    }
    match issue_authorization_code("c".to_string(), 253402207201, &Ok(()), None) {
        Err(f) => {
            assert!(f.message.starts_with("bad timestamp: "));
            assert!(!f.drop_code);
        }
        Ok(_) => panic!("no such timestamp"),
    }
    assert!(issue_authorization_code("c".to_string(), 253402207200, &Ok(()), None).is_ok());
}

#[test]
fn users_must_be_active() {
    assert_eq!(require_active_user(USER, Some(true)), Ok(()));
    assert_eq!(
        require_active_user(USER, Some(false)),
        Err("user is deactivated".to_string())
    );
    assert_eq!(require_active_user(USER, None), Err("unknown user".to_string()));
    assert_eq!(
        require_active_user("alice", Some(true)),
        Err("unknown user".to_string())
    );
    assert_eq!(
        user_key("01A058ED-B318-7C50-90A7-74469A942BF8").as_deref(),
        Some(USER)
    );
    assert_eq!(user_key("alice"), None);
}

// ── refresh grant ───────────────────────────────────────────────────────

fn refresh_facts(active: Option<bool>) -> RefreshFacts {
    RefreshFacts {
        decoded: Some(RefreshClaims {
            iss: ISSUER.to_string(),
            sub: USER.to_string(),
            exp: NOW + 600,
            auth_time: Some(NOW as u64),
            data: OidcRefreshTokenData {
                typ: "refresh".to_string(),
                scope: "openid offline_access".to_string(),
                client_id: "client-a".to_string(),
                mfa: vec![],
                family: "fam".to_string(),
                family_created_at: NOW,
            },
        }),
        token_revoked: false,
        family_revoked: false,
        user_active: active,
        has_key: true,
    }
}

fn refresh_params(scope: Option<&str>) -> TokenRequest {
    let mut p = token_params("refresh_token");
    p.refresh_token = Some("rt".to_string());
    p.scope = scope.map(|s| s.to_string());
    p
}

fn refresh_refusal(f: &RefreshFacts, now: i64) -> (u16, String) {
    match handle_refresh(&refresh_params(None), ISSUER, "client-a", f, "jti", now) {
        RefreshStep::Refuse(e) => (e.status, e.description),
        _ => panic!("the refresh must be refused"),
    }
}

#[test]
fn refresh_grant_works_for_active_user() {
    match handle_refresh(&refresh_params(None), ISSUER, "client-a", &refresh_facts(Some(true)), "jti", NOW) {
        RefreshStep::Rotate(r) => {
            assert_eq!(r.scope, "openid offline_access");
            assert_eq!(r.refresh_minutes, 43200);
            assert_eq!(r.family, "fam");
            assert_eq!(r.family_created_at, NOW);
            assert_eq!(r.user_id, USER);
            assert_eq!((r.nonce.is_none(), r.auth_time), (true, NOW as u64));
        }
        _ => panic!("an active user must refresh"),
    }
}

#[test]
fn refresh_grant_rejects_deactivated_user() {
    assert_eq!(
        refresh_refusal(&refresh_facts(Some(false)), NOW),
        (400, "user is deactivated".to_string())
    );
}

#[test]
fn refresh_grant_rejects_deleted_user() {
    assert_eq!(
        refresh_refusal(&refresh_facts(None), NOW),
        (400, "unknown user".to_string())
    );
}

#[test]
fn refresh_reject_for_deactivated_user_does_not_consume_token() {
    // The refusal changes nothing, so the same facts with an active user
    // rotate.
    let mut f = refresh_facts(Some(false));
    assert_eq!(refresh_refusal(&f, NOW).0, 400);
    f.user_active = Some(true);
    assert!(matches!(
        handle_refresh(&refresh_params(None), ISSUER, "client-a", &f, "jti", NOW),
        RefreshStep::Rotate(_)
    ));
}

#[test]
fn reused_refresh_tokens_revoke_their_family() {
    for (token_revoked, family_revoked) in [(true, false), (false, true)] {
        let mut f = refresh_facts(Some(false));
        f.token_revoked = token_revoked;
        f.family_revoked = family_revoked;
        match handle_refresh(&refresh_params(None), ISSUER, "client-a", &f, "jti", NOW) {
            RefreshStep::Poison {
                marker,
                until,
                refusal,
            } => {
                assert_eq!(marker, "oidc_refresh_family:fam");
                assert_eq!(until, NOW + FAMILY_LIFETIME);
                assert_eq!(
                    refusal.description,
                    "Refresh token reuse detected; the token family has been revoked"
                );
            }
            _ => panic!("reuse"),
        }
    }
    assert!(matches!(refresh_commit(Some(true)), RefreshCommit::Done));
    assert!(matches!(refresh_commit(Some(false)), RefreshCommit::Poison(e) if e.status == 400));
    assert!(matches!(refresh_commit(None), RefreshCommit::Fail(e) if e.status == 500));
}

#[test]
fn refresh_requests_are_checked() {
    let f = refresh_facts(Some(true));
    let end = NOW + FAMILY_LIFETIME;
    assert!(refresh_refusal(&f, end).1.contains("family has expired"));
    match handle_refresh(&refresh_params(None), ISSUER, "client-a", &f, "jti", end - 61) {
        RefreshStep::Rotate(r) => assert_eq!(r.refresh_minutes, 1),
        _ => panic!("still alive"),
    }
    assert!(matches!(
        handle_refresh(&refresh_params(None), ISSUER, "client-b", &f, "jti", NOW),
        RefreshStep::Refuse(e) if e.description == "Refresh token was issued to a different client"
    ));
    assert!(matches!(
        handle_refresh(&refresh_params(None), "http://other", "client-a", &f, "jti", NOW),
        RefreshStep::Refuse(_)
    ));
    assert!(matches!(
        handle_refresh(&refresh_params(Some("openid email")), ISSUER, "client-a", &f, "jti", NOW),
        RefreshStep::Refuse(e) if e.error == "invalid_scope"
    ));
    assert!(matches!(
        handle_refresh(&refresh_params(Some("openid")), ISSUER, "client-a", &f, "jti", NOW),
        RefreshStep::Rotate(r) if r.scope == "openid"
    ));
    assert!(matches!(
        handle_refresh(&token_params("refresh_token"), ISSUER, "client-a", &f, "jti", NOW),
        RefreshStep::Refuse(e) if e.error == "invalid_request"
    ));
    let mut unknown = refresh_facts(Some(true));
    unknown.decoded = None;
    assert!(refresh_refusal(&unknown, NOW).1.contains("Unknown or expired"));
    let mut keyless = refresh_facts(Some(true));
    keyless.has_key = false;
    assert_eq!(refresh_refusal(&keyless, NOW).0, 500);
    assert_eq!(refresh_scope("openid email", &Some(" ".to_string())).as_deref(), Some("openid email"));
    assert_eq!(refresh_family_marker("x"), "oidc_refresh_family:x");
    assert_eq!(refresh_family_end(NOW), NOW + 30 * 24 * 3600);
    assert_eq!(successor_minutes(NOW, NOW + 59), 0);
}

// ── revocation and introspection ────────────────────────────────────────

fn claims(client_id: &str) -> TokenClaims {
    TokenClaims {
        iss: ISSUER.to_string(),
        sub: "user1".to_string(),
        aud: "client-a".to_string(),
        exp: (NOW + 3600) as u64,
        iat: NOW as u64,
        client_id: Some(client_id.to_string()),
        scope: Some("openid".to_string()),
        typ: None,
        family: None,
        family_created_at: None,
    }
}

fn refresh_token_claims(client_id: &str, created_at: i64) -> TokenClaims {
    let mut c = claims(client_id);
    c.typ = Some("refresh".to_string());
    c.scope = Some("openid offline_access".to_string());
    c.family = Some("fam".to_string());
    c.family_created_at = Some(created_at);
    c
}

fn introspect_facts(claims: Option<TokenClaims>) -> IntrospectFacts {
    IntrospectFacts {
        cached: None,
        token_revoked: false,
        claims,
        family_revoked: false,
    }
}

fn assert_inactive(r: IntrospectResponse) {
    assert!(!r.active);
    assert!(r.client_id.is_none() && r.scope.is_none() && r.sub.is_none());
    assert!(r.aud.is_none() && r.iss.is_none() && r.exp.is_none());
    assert!(r.iat.is_none() && r.username.is_none() && r.token_type.is_none());
}

#[test]
fn revoke_access_token_invalidates_it() {
    let p = revoke(ISSUER, "client-a", &Some(claims("client-a")));
    assert!(p.forget);
    assert_eq!(p.record_until, Some(NOW + 3600));
    assert_eq!(p.poison, None);
}

#[test]
fn revoke_refresh_token_poisons_its_family() {
    let p = revoke(ISSUER, "client-a", &Some(refresh_token_claims("client-a", NOW)));
    assert_eq!(
        p.poison,
        Some(("oidc_refresh_family:fam".to_string(), NOW + FAMILY_LIFETIME))
    );
    assert!(!p.forget);
    assert_eq!(p.record_until, Some(NOW + 3600));
    assert_eq!(revoke_refresh_token_family(NOW + 1, NOW), NOW + 1);
    assert_eq!(revoke_refresh_token_family(i64::MAX, NOW), NOW);
}

#[test]
fn revoke_foreign_client_token_is_a_silent_noop() {
    let p = revoke(ISSUER, "client-b", &Some(claims("client-a")));
    assert!(p.poison.is_none() && !p.forget && p.record_until.is_none());
}

#[test]
fn revoke_unknown_token_returns_200_empty() {
    let p = revoke(ISSUER, "client-a", &None);
    assert!(p.poison.is_none() && !p.forget && p.record_until.is_none());
    assert!(missing_token("not-a-jwt").is_none());
    assert!(matches!(missing_token(""), Some(p) if p.status == 400));
}

#[test]
fn introspect_active_access_token() {
    let r = introspect(ISSUER, "client-a", &introspect_facts(Some(claims("client-a"))), NOW);
    assert!(r.active, "a live access token must be active");
    assert_eq!(r.client_id.as_deref(), Some("client-a"));
    assert_eq!(r.sub.as_deref(), Some("user1"));
    assert_eq!(r.username.as_deref(), Some("user1"));
    assert_eq!(r.scope.as_deref(), Some("openid"));
    assert_eq!(r.iss.as_deref(), Some(ISSUER));
    assert_eq!(r.aud, Some(texts(&["client-a"])));
    assert_eq!(r.token_type.as_deref(), Some("Bearer"));
    assert_eq!(r.exp, Some((NOW + 3600) as u64));
    assert_eq!(r.iat, Some(NOW as u64));
}

#[test]
fn introspect_active_refresh_token() {
    let f = introspect_facts(Some(refresh_token_claims("client-a", NOW)));
    let r = introspect(ISSUER, "client-a", &f, NOW);
    assert!(r.active, "a live refresh token must be active");
    assert_eq!(r.scope.as_deref(), Some("openid offline_access"));
    assert_eq!(r.token_type.as_deref(), Some("Bearer"));
}

#[test]
fn introspect_requires_client_authentication() {
    for reason in ["Missing required parameter: client_id", "Invalid client_credentials"] {
        match introspect_request("jwt", true, &Err(reason.to_string())) {
            Err(e) => assert_eq!((e.status, e.error.as_str()), (401, "invalid_client")),
            Ok(_) => panic!("no credentials"),
        }
    }
    assert!(matches!(introspect_request("", false, &Err("x".to_string())), Ok(false)));
    assert!(matches!(
        introspect_request("jwt", true, &Ok(client("client-a", "client_secret_post"))),
        Ok(true)
    ));
    assert!(matches!(
        check_token_query(false, &Ok(client("client-a", "client_secret_post"))),
        Err(e) if e.description == "Unknown tenant"
    ));
}

#[test]
fn introspect_foreign_client_token_is_inactive() {
    assert_inactive(introspect(
        ISSUER,
        "client-b",
        &introspect_facts(Some(claims("client-a"))),
        NOW,
    ));
}

#[test]
fn introspect_revoked_token_is_inactive() {
    let mut f = introspect_facts(None);
    f.token_revoked = true;
    f.cached = Some(cached_token());
    assert_inactive(introspect(ISSUER, "client-a", &f, NOW));
}

#[test]
fn introspect_expired_refresh_family_is_inactive() {
    let created = NOW - FAMILY_LIFETIME - 1;
    let f = introspect_facts(Some(refresh_token_claims("client-a", created)));
    assert_inactive(introspect(ISSUER, "client-a", &f, NOW));
    let mut f = introspect_facts(Some(refresh_token_claims("client-a", NOW)));
    f.family_revoked = true;
    assert_inactive(introspect(ISSUER, "client-a", &f, NOW));
    let mut nameless = refresh_token_claims("client-a", NOW);
    nameless.family = None;
    assert_inactive(introspect(ISSUER, "client-a", &introspect_facts(Some(nameless)), NOW));
}

#[test]
fn introspect_unknown_token_is_inactive() {
    assert_inactive(introspect(ISSUER, "client-a", &introspect_facts(None), NOW));
    assert_inactive(IntrospectResponse::default());
}

fn cached_token() -> AccessEntry {
    AccessEntry {
        client_id: "client-a".to_string(),
        user_id: "user1".to_string(),
        scope: "openid".to_string(),
        jti: "j".to_string(),
        at_hash: "h".to_string(),
        nonce: None,
        iat: NOW,
        exp: NOW + 3600,
    }
}

#[test]
fn introspect_cached_opaque_access_token_is_active() {
    let mut f = introspect_facts(None);
    f.cached = Some(cached_token());
    let r = introspect(ISSUER, "client-a", &f, NOW);
    assert!(r.active, "a cached access token must be active");
    assert_eq!(r.client_id.as_deref(), Some("client-a"));
    assert_eq!(r.sub.as_deref(), Some("user1"));
    assert_eq!(r.username.as_deref(), Some("user1"));
    assert_eq!(r.scope.as_deref(), Some("openid"));
    assert_eq!(r.iss.as_deref(), Some(ISSUER));
    assert_eq!(r.token_type.as_deref(), Some("Bearer"));
    assert_inactive(introspect(ISSUER, "client-b", &f, NOW));
    assert_inactive(introspect(ISSUER, "client-a", &f, NOW + 3600));
}

#[test]
fn introspect_and_revoke_refuse_public_clients() {
    match check_token_query(true, &Ok(client("client-pub", "none"))) {
        Err(e) => assert_eq!((e.status, e.error.as_str()), (401, "invalid_client")),
        Ok(_) => panic!("public clients are refused"),
    }
    assert!(refuse_public_client("client_secret_post").is_none());
    assert!(refuse_public_client("none").is_some());
}

// ── device grant ────────────────────────────────────────────────────────

fn device(status: DeviceStatus, user: Option<&str>) -> DeviceEntry {
    let mut e = device_entry("client-a", "openid", "BCDF-GHJK", NOW);
    e.status = status;
    e.user_id = user.map(|u| u.to_string());
    e
}

fn poll_error(poll: Poll) -> String {
    match answer_poll(Some(poll)) {
        Ok(_) => panic!("the poll must be refused"),
        Err(e) => e.error,
    }
}

#[test]
fn device_code_is_bound_to_issuing_client() {
    let mut e = device(DeviceStatus::Approved, Some(USER));
    assert_eq!(poll_error(poll_device(&mut e, "client-b", NOW)), "invalid_grant");
    assert_eq!(e.last_polled_at, 0, "the rightful client's interval is untouched");
    match answer_poll(Some(poll_device(&mut e, "client-a", NOW))) {
        Ok((user, scope)) => {
            assert_eq!(user, USER);
            assert_eq!(scope, "openid");
        }
        Err(e) => panic!("rightful client must still redeem: {}", e.description),
    }
}

#[test]
fn device_grant_requires_device_code_parameter() {
    assert!(matches!(
        device_token_request(&None),
        Err(e) if e.error == "invalid_request"
    ));
    assert!(matches!(device_token_request(&Some(String::new())), Err(e) if e.status == 400));
    assert!(matches!(
        device_token_request(&Some("dc".to_string())),
        Ok(k) if k == "device:dc"
    ));
}

#[test]
fn device_exchange_is_one_shot() {
    let mut e = device(DeviceStatus::Approved, Some(USER));
    assert!(answer_poll(Some(poll_device(&mut e, "client-a", NOW))).is_ok());
    assert_eq!(
        poll_error(poll_device(&mut e, "client-a", NOW + 10)),
        "invalid_grant"
    );
    assert!(matches!(answer_poll(None), Err(e) if e.error == "invalid_grant"));
}

#[test]
fn device_slow_down_bumps_interval() {
    let mut e = device(DeviceStatus::Pending, None);
    assert_eq!(
        poll_error(poll_device(&mut e, "client-a", NOW)),
        "authorization_pending"
    );
    assert_eq!(poll_error(poll_device(&mut e, "client-a", NOW + 1)), "slow_down");
    assert_eq!(
        e.interval,
        Some(10),
        "slow_down must raise the interval by 5 s (RFC 8628 §3.5)"
    );
    assert_eq!(poll_error(poll_device(&mut e, "client-a", NOW + 10)), "slow_down");
    assert_eq!(e.interval, Some(15));
    assert_eq!(
        poll_error(poll_device(&mut e, "client-a", NOW + 25)),
        "authorization_pending"
    );
}

#[test]
fn device_exchange_refuses_approval_without_user() {
    let mut e = device(DeviceStatus::Approved, None);
    assert_eq!(poll_error(poll_device(&mut e, "client-a", NOW)), "invalid_grant");
}

#[test]
fn device_grant_refuses_deactivated_user_at_exchange() {
    match device_user_check(USER, Some(false)) {
        Err(e) => assert_eq!((e.status, e.error.as_str()), (400, "invalid_grant")),
        Ok(_) => panic!("a deactivated user must not receive tokens"),
    }
    assert!(device_user_check(USER, Some(true)).is_ok());
}

#[test]
fn device_authorization_rejects_unregistered_or_unknown_scope() {
    let c = Ok(client("client-a", "client_secret_post"));
    for scope in ["openid email", "openid admin"] {
        let p = DeviceAuthRequest {
            client_id: Some("client-a".to_string()),
            scope: Some(scope.to_string()),
            client_secret: None,
        };
        match device_authorization(&p, true, &c) {
            Err(e) => assert_eq!((e.status, e.error.as_str()), (400, "invalid_scope")),
            Ok(_) => panic!("scope '{scope}' must be refused"),
        }
    }
    let mut p = DeviceAuthRequest {
        client_id: Some("client-a".to_string()),
        scope: Some("openid".to_string()),
        client_secret: None,
    };
    assert!(matches!(device_authorization(&p, true, &c), Ok(s) if s == "openid"));
    p.scope = None;
    assert!(matches!(
        device_authorization(&p, true, &c),
        Ok(s) if s == "openid offline_access"
    ));
    assert!(matches!(device_authorization(&p, false, &c), Err(e) if e.error == "invalid_request"));
    assert!(matches!(
        device_authorization(&p, true, &Err("x".to_string())),
        Err(e) if e.status == 401
    ));
    p.client_id = None;
    assert!(matches!(device_authorization(&p, true, &c), Err(e) if e.status == 400));
}

#[test]
fn device_requests_are_approved_or_denied_once() {
    let mut e = device(DeviceStatus::Pending, None);
    match claim_device(&mut e) {
        Claim::Ready {
            client_id,
            scope,
            expires_at,
        } => {
            assert_eq!((client_id.as_str(), scope.as_str()), ("client-a", "openid"));
            assert_eq!(expires_at, NOW + 1800);
        }
        Claim::Already(_) => panic!("pending"),
    }
    assert_eq!(
        poll_error(poll_device(&mut e, "client-a", NOW)),
        "authorization_pending",
        "a decision in flight keeps the device polling"
    );
    assert!(matches!(claim_device(&mut e), Claim::Already(s) if s == "approving"));
    rollback_claim(&mut e);
    assert!(matches!(e.status, DeviceStatus::Pending));
    assert!(matches!(claim_device(&mut e), Claim::Ready { .. }));
    commit_approval(&mut e, USER);
    assert_eq!(deny_device(&mut e), "approved");
    assert!(answer_poll(Some(poll_device(&mut e, "client-a", NOW + 10))).is_ok());
    assert!(matches!(claim_device(&mut e), Claim::Already(s) if s == "consumed"));

    let mut d = device(DeviceStatus::Pending, None);
    assert_eq!(deny_device(&mut d), "denied");
    assert_eq!(poll_error(poll_device(&mut d, "client-a", NOW)), "access_denied");
    assert!(matches!(claim_device(&mut d), Claim::Already(s) if s == "denied"));

    let mut late = device(DeviceStatus::Approved, Some(USER));
    assert_eq!(
        poll_error(poll_device(&mut late, "client-a", NOW + 1801)),
        "expired_token"
    );
    let mut odd = device(DeviceStatus::Other("processed".to_string()), None);
    assert_eq!(poll_error(poll_device(&mut odd, "client-a", NOW)), "invalid_grant");
}

#[test]
fn device_decisions_are_checked() {
    let p = |code: &str, action: &str| DeviceLoginApproveRequest {
        user_code: code.to_string(),
        action: action.to_string(),
    };
    assert!(matches!(
        device_decision(&p("BCDF-GHJK", "approve"), true),
        Ok(DeviceAction::Approve)
    ));
    assert!(matches!(
        device_decision(&p("BCDF-GHJK", "deny"), true),
        Ok(DeviceAction::Deny)
    ));
    match device_decision(&p("", "approve"), true) {
        Err(DecisionRefusal::Problem(p)) => {
            assert_eq!(p.detail, "Missing required parameter: user_code")
        }
        _ => panic!("no user code"),
    }
    match device_decision(&p("BCDF-GHJK", "maybe"), true) {
        Err(DecisionRefusal::Problem(p)) => assert_eq!(p.status, 400),
        _ => panic!("no such action"),
    }
    match device_decision(&p("BC DF", "approve"), false) {
        Err(DecisionRefusal::SignIn(h)) => {
            assert_eq!(h.status, 401);
            assert_eq!(
                h.url,
                "/login?redirect_uri=%2Fdevice-login%3Fuser_code%3DBC%2520DF"
            );
        }
        _ => panic!("no session"),
    }
    let step = |e: ApproveEvent| device_login_approve("test-tenant", NOW, &e);
    assert!(matches!(
        step(ApproveEvent::Client(Some("test-tenant".to_string()))),
        Ok(ApproveAction::RevokeConsent)
    ));
    assert!(matches!(
        step(ApproveEvent::Client(Some("other".to_string()))),
        Err(p) if p.detail == "OAuth2 client is not registered with this provider"
    ));
    assert!(matches!(
        step(ApproveEvent::Revoked(Ok(()))),
        Ok(ApproveAction::RecordConsent)
    ));
    assert!(matches!(
        device_login_approve("t", i64::MAX, &ApproveEvent::Revoked(Ok(()))),
        Err(p) if p.detail == "Device code expired or not found"
    ));
    assert!(matches!(
        step(ApproveEvent::Revoked(Err("db".to_string()))),
        Err(p) if p.status == 500
    ));
    assert!(matches!(step(ApproveEvent::Recorded(Ok(()))), Ok(ApproveAction::Commit)));
    assert!(matches!(
        step(ApproveEvent::Recorded(Err("db".to_string()))),
        Err(p) if p.detail == "Failed to record authorization grant: db"
    ));
    assert_eq!(approval_recorded("u").status, "approved");
    assert_eq!(already_processed("denied".to_string()).already_processed, Some(true));
    assert_eq!(denial_answer("denied".to_string(), "u").user.as_deref(), Some("u"));
    assert_eq!(
        denial_answer("approved".to_string(), "u").already_processed,
        Some(true)
    );
    let e = Some(device(DeviceStatus::Pending, None));
    assert!(device_login_info(&e).is_ok());
    assert!(device_login_info(&None).is_err());
    assert!(matches!(device_login_key(Some("X")), Ok(k) if k == "user_code:X"));
    assert!(device_login_key(None).is_err());
    let r = device_auth_response("https://op", "dc".to_string(), "BCDF-GHJK".to_string());
    assert_eq!(r.verification_uri, "https://op/device-login");
    assert_eq!(
        r.verification_uri_complete.as_deref(),
        Some("https://op/device-login?user_code=BCDF-GHJK")
    );
    assert_eq!((r.expires_in, r.interval), (1800, 5));
}

// ── userinfo and discovery ──────────────────────────────────────────────

#[test]
fn userinfo_is_gated_by_token_and_scope() {
    let ok = |scope: Option<&str>| {
        Ok(UserInfoClaims {
            sub: USER.to_string(),
            scope: scope.map(|s| s.to_string()),
        })
    };
    let refused = |r: Result<String, janux::oidc::userinfo::Challenge>| match r {
        Ok(_) => panic!("refused"),
        Err(c) => (c.status, c.authenticate),
    };
    assert_eq!(
        refused(userinfo(false, true, &ok(None))),
        (401, "Bearer realm=\"auth\"".to_string())
    );
    assert_eq!(
        refused(userinfo(true, true, &Err(TokenReject::Revoked))).1,
        "Bearer error=\"invalid_token\",error_description=\"The access token has been revoked\",realm=\"auth\""
    );
    assert_eq!(refused(userinfo(true, false, &ok(Some("openid")))).0, 401);
    assert_eq!(refused(userinfo(true, true, &Err(TokenReject::Invalid))).0, 401);
    assert_eq!(refused(userinfo(true, true, &Err(TokenReject::Other))).0, 401);
    assert_eq!(refused(userinfo(true, true, &ok(None))).0, 401);
    assert_eq!(refused(userinfo(true, true, &ok(Some("profile")))).0, 403);
    assert!(matches!(userinfo(true, true, &ok(Some("openid email"))), Ok(s) if s == "openid email"));
}

#[test]
fn userinfo_claims_follow_the_scope() {
    let emails = vec![
        EmailRecord { id: "late@x".to_string(), created_at: 20 },
        EmailRecord { id: "first@x".to_string(), created_at: 10 },
        EmailRecord { id: "tied@x".to_string(), created_at: 10 },
    ];
    let r = userinfo_response(USER, "openid profile email", &Some("alice".to_string()), &emails);
    assert_eq!(r.preferred_username.as_deref(), Some("alice"));
    assert_eq!(r.email.as_deref(), Some("first@x"));
    assert_eq!(r.email_verified, Some(true));
    let r = userinfo_response(USER, "openid", &None, &emails);
    assert!(r.preferred_username.is_none() && r.email.is_none() && r.email_verified.is_none());
    let r = userinfo_response(USER, "openid profile email", &None, &vec![]);
    assert_eq!(r.preferred_username.as_deref(), Some(USER));
    assert!(r.email.is_none());
}

#[test]
fn discovery_lists_what_is_switched_on() {
    let d = well_known("https://op", &None);
    assert_eq!(d.token_endpoint, "https://op/token");
    assert_eq!(d.jwks_uri, "https://op/.well-known/jwks.json");
    assert_eq!(d.acr_values_supported, texts(&["passkey"]));
    assert_eq!(d.registration_endpoint, None);
    let d = well_known(
        "https://op",
        &Some(TenantFeatures {
            email: true,
            otp: true,
            providers: texts(&["google"]),
            registration: true,
        }),
    );
    assert_eq!(
        d.acr_values_supported,
        texts(&["email", "otp", "social", "passkey"])
    );
    assert_eq!(d.registration_endpoint.as_deref(), Some("https://op/register"));
    assert_eq!(d.social[0].request, "/api/v1/auth/social/google/request");
    assert_eq!(d.factors.len(), 3);
    assert_eq!(d.factors[1].identifier.as_deref(), Some("mobile"));
}

#[test]
fn identifiers_are_fresh() {
    let (a, b) = (random_id(), random_id());
    assert_eq!(a.len(), 36);
    assert_eq!(a.as_bytes()[14], b'4');
    assert_ne!(a, b);
    let (c, d) = (ordered_id(), ordered_id());
    assert_eq!(c.as_bytes()[14], b'7');
    assert!(c < d);
}

#[test]
fn a_code_is_redeemed_at_most_once() {
    let mut codes = OneShot::new();
    let mut p = token_params("authorization_code");
    p.code = Some("c0de".to_string());
    let registered = Ok(texts(&["http://localhost/client-a/callback"]));
    assert!(codes.put("auth_code:c0de", code_entry(USER)));
    assert!(!codes.put("auth_code:c0de", code_entry(USER)), "the key is taken");
    // A request that fails before the code is reached leaves it alone.
    p.redirect_uri = Some("http://evil/".to_string());
    assert!(take_code(&mut codes, &p, &registered).is_err());
    p.redirect_uri = None;
    let facts = |entry| CodeFacts {
        entry,
        user_active: Some(true),
        challenge: None,
        has_key: true,
    };
    // The wrong client burns it.
    let entry = match take_code(&mut codes, &p, &registered) {
        Ok(e) => e,
        Err(e) => panic!("{}", e.description),
    };
    assert!(entry.is_some());
    assert_eq!(exchange_error(&p, "client-b", &facts(entry), NOW).0, 401);
    let entry = match take_code(&mut codes, &p, &registered) {
        Ok(e) => e,
        Err(e) => panic!("{}", e.description),
    };
    let (status, error, description) = exchange_error(&p, "client-a", &facts(entry), NOW);
    assert_eq!((status, error.as_str()), (400, "invalid_grant"));
    assert_eq!(description, "Authorization code has expired or was already used");
}

#[test]
fn an_absent_challenge_method_is_plain() {
    let challenge = "a".repeat(43);
    let mut p = authorize_params();
    p.code_challenge = Some(challenge.clone());
    p.code_challenge_method = None;
    let mut f = facts(client("client-a", "client_secret_post"));
    f.tls = true;
    assert!(matches!(
        authorize_flow(&p, &f),
        Ok(g) if matches!(&g.pkce, Some(k) if k.method == "plain" && k.challenge == challenge)
    ));
    f.tls = false;
    assert!(authorize_error(&p, &f).contains("requires%20TLS"));
}
