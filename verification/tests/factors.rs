use janux::identity::SessionFactors;
use janux::oneshot::OneShot;
use janux::otp::{
    add, add_key, add_verify, byte_digit, canonical_mobile, collect_digits, dispatch_ceremony, fair_digit, flow_key,
    generate_fair_code, generate_otp_code, mobile_create, mobile_delete, plain_code, remove, request,
    signin_user_mobile, signup_user_mobile, throttle_digits, throttle_key, verify, AddAsk,
    AddState, AddVerifyAsk, AddVerifyState, FreshSession, MobileCreate, OtpData, RemoveOutcome,
    ReqRequest, RequestAsk, RequestState, SignUp, VerifyAsk, VerifyRequest, VerifyState,
};
use janux::reply::{problem, ProblemKind};

const DOMAIN: &str = "localhost";
const MOBILE: &str = "13800000000";

fn some(s: &str) -> Option<String> {
    Some(s.to_string())
}

#[test]
fn canonical_mobile_shapes() {
    assert_eq!(
        canonical_mobile("13800000000").as_deref(),
        Some("13800000000")
    );
    assert_eq!(
        canonical_mobile("138 0000-0000").as_deref(),
        Some("13800000000")
    );
    assert_eq!(
        canonical_mobile(" 138(0000)0000 ").as_deref(),
        Some("13800000000")
    );
    assert_eq!(
        canonical_mobile("+86 138-0000.0000").as_deref(),
        Some("+8613800000000")
    );
    assert_eq!(canonical_mobile("+"), None);
    assert_eq!(canonical_mobile(""), None);
    assert_eq!(canonical_mobile("   "), None);
    assert_eq!(canonical_mobile("call me"), None);
    assert_eq!(canonical_mobile("138x0000000"), None);
    // The throttle key ignores the `+` so a country-code prefix
    // cannot rotate around the per-recipient budget.
    assert_eq!(throttle_digits("+8613800000000"), "8613800000000");
}

#[test]
fn mobile_identity_canonicalizes() {
    assert!(matches!(
        mobile_create("139-1111-2222", None, "mobileuser"),
        Ok(MobileCreate::Create(m)) if m == "13911112222"
    ));
    for queried in ["13911112222", "139 1111 2222", "139-1111-2222"] {
        assert_eq!(canonical_mobile(queried).as_deref(), Some("13911112222"));
        assert_eq!(
            canonical_mobile(&canonical_mobile(queried).unwrap()).as_deref(),
            Some("13911112222")
        );
    }
    match mobile_create("139 (1111) 2222", Some("mobileuser"), "mobilerival") {
        Err(e) => assert!(e.contains("already"), "{e}"),
        Ok(_) => panic!("uniqueness sees through formatting"),
    }
    assert!(matches!(
        mobile_create("139 (1111) 2222", Some("mobileuser"), "mobileuser"),
        Ok(MobileCreate::Keep)
    ));
    assert!(matches!(
        mobile_create("not-a-number", None, "mobileuser"),
        Err(e) if e == "invalid mobile number"
    ));
    assert_eq!(mobile_delete("139 1111 2222"), Ok("13911112222".to_string()));
    assert!(mobile_delete("call me").is_err());
}

#[test]
fn codes_are_six_digits() {
    for _ in 0..50 {
        for code in [generate_otp_code(), generate_fair_code()] {
            assert_eq!(code.len(), 6);
            assert!(code.chars().all(|c| c.is_ascii_digit()));
        }
    }
    assert_eq!(byte_digit(255), '5');
    assert_eq!(fair_digit(249), Some('9'));
    assert_eq!(fair_digit(250), None);
    assert_eq!(plain_code(&[0, 10, 255, 9, 250, 131]), "005901");
    let mut digits = vec![];
    collect_digits(&mut digits, &[250, 7, 255, 19, 249]);
    assert_eq!(digits, vec!['7', '9', '9']);
    collect_digits(&mut digits, &[251, 0, 11, 22, 33]);
    assert_eq!(digits, vec!['7', '9', '9', '0', '1', '2']);
}

fn request_state(name: &str, mobile: &str) -> RequestState {
    RequestState {
        domain: DOMAIN.to_string(),
        body: Some(ReqRequest {
            name: name.to_string(),
            mobile: mobile.to_string(),
        }),
        throttle: None,
        gate: None,
        has_tenant: None,
        has_config: None,
        owner: None,
        owner_gate: None,
        prepared: None,
        dispatched: None,
    }
}

fn request_reply(s: &RequestState) -> (u16, String) {
    match request(s) {
        RequestAsk::Reply(r) => (r.code, r.msg),
        _ => panic!("an answer is due"),
    }
}

#[test]
fn request_throttles_per_mobile() {
    // Both spellings are counted under one key.
    for mobile in ["13800001111", "138 0000-1111"] {
        match request(&request_state("u", mobile)) {
            RequestAsk::Throttle(k) => assert_eq!(k, "localhost|mobile:13800001111"),
            _ => panic!("the throttle comes first"),
        }
    }
    assert_eq!(throttle_key("d", "+1"), throttle_key("d", "1"));
    let mut s = request_state("u", "138 0000-1111");
    s.throttle = Some(false);
    assert_eq!(request_reply(&s), (429, "Too many requests".to_string()));
}

#[test]
fn request_without_sms_config_fails_closed() {
    let mut s = request_state("alice", "13800002222");
    s.throttle = Some(true);
    s.gate = Some(true);
    s.has_tenant = Some(true);
    s.has_config = Some(false);
    assert_eq!(
        request_reply(&s),
        (401, "Unauthorized: Failed to load OTP config".to_string())
    );
}

#[test]
fn requests_run_in_order() {
    let mut s = request_state("alice", MOBILE);
    assert!(matches!(request(&s), RequestAsk::Throttle(_)));
    s.throttle = Some(true);
    assert!(matches!(request(&s), RequestAsk::Gate(n) if n == "alice"));
    s.gate = Some(true);
    assert!(matches!(request(&s), RequestAsk::Tenant));
    s.has_tenant = Some(true);
    assert!(matches!(request(&s), RequestAsk::Config));
    s.has_config = Some(true);
    assert!(matches!(request(&s), RequestAsk::Owner(m) if m == MOBILE));
    s.owner = Some(some("carol"));
    assert!(matches!(request(&s), RequestAsk::OwnerGate(n) if n == "carol"));
    s.owner_gate = Some(true);
    assert!(matches!(
        request(&s),
        RequestAsk::Prepare { name, signup: false, .. } if name == "carol"
    ));
    s.owner = Some(None);
    assert!(matches!(
        request(&s),
        RequestAsk::Prepare { name, signup: true, .. } if name == "alice"
    ));
    s.prepared = Some(true);
    assert!(matches!(request(&s), RequestAsk::Dispatch(m) if m == MOBILE));
    s.dispatched = Some(dispatch_ceremony("handle".to_string(), true, true));
    match request(&s) {
        RequestAsk::Reply(r) => {
            assert!(r.ok && r.code == 200);
            assert_eq!(r.jwt.as_deref(), Some("handle"));
        }
        _ => panic!("done"),
    }
    s.dispatched = Some(dispatch_ceremony("handle".to_string(), false, true));
    assert_eq!(request_reply(&s).1, "Unauthorized: Fail to send SMS");
    s.dispatched = Some(dispatch_ceremony("handle".to_string(), true, false));
    assert_eq!(request_reply(&s).1, "Unauthorized: Fail to start OTP ceremony");
    s.prepared = Some(false);
    assert_eq!(request_reply(&s).1, "Unauthorized: Fail to issue JWT");
}

#[test]
fn requests_are_refused() {
    let mut s = request_state("alice", "call me");
    assert_eq!(request_reply(&s), (400, "Invalid mobile number".to_string()));
    s.body = None;
    assert_eq!(request_reply(&s), (401, "Unauthorized: Invalid request".to_string()));
    let mut s = request_state("", MOBILE);
    s.throttle = Some(true);
    assert_eq!(request_reply(&s).1, "Unauthorized: Empty user name");
    let mut s = request_state("alice", MOBILE);
    s.throttle = Some(true);
    s.gate = Some(false);
    assert_eq!(request_reply(&s).0, 429);
    s.gate = Some(true);
    s.has_tenant = Some(false);
    assert_eq!(request_reply(&s).1, "Unauthorized: Failed to find tenant");
    s.has_tenant = Some(true);
    s.has_config = Some(true);
    s.owner = Some(some("carol"));
    s.owner_gate = Some(false);
    assert_eq!(request_reply(&s).0, 429, "the owner is locked out");
}

fn verify_state(code: &str, signup: bool) -> VerifyState {
    VerifyState {
        domain: DOMAIN.to_string(),
        body: Some(VerifyRequest {
            token: "flow".to_string(),
            name: "alice".to_string(),
            mobile: MOBILE.to_string(),
            code: code.to_string(),
        }),
        gate: Some(true),
        code: Some(some("123456")),
        has_tenant: Some(true),
        ceremony: Some(Some(OtpData {
            mobile: MOBILE.to_string(),
            signup,
        })),
        bound: None,
        session: None,
        minted: None,
    }
}

fn session_of(user: &str, mfa: &[&str]) -> Option<SessionFactors> {
    Some(SessionFactors {
        username: user.to_string(),
        mfa: mfa.iter().map(|f| f.to_string()).collect(),
    })
}

fn minted_factors(s: &VerifyState) -> Vec<String> {
    match verify(s) {
        VerifyAsk::Mint { name, factors } => {
            assert_eq!(name, "alice");
            factors
        }
        _ => panic!("a session is due"),
    }
}

#[test]
fn verify_does_not_inherit_factors_from_another_users_session() {
    let mut s = verify_state("123456", false);
    s.bound = Some(true);
    s.session = session_of("bob", &["totp", "email"]);
    assert_eq!(minted_factors(&s), vec!["otp".to_string()]);
    s.session = None;
    assert_eq!(minted_factors(&s), vec!["otp".to_string()]);
}

#[test]
fn verify_inherits_factors_from_the_same_users_session() {
    let mut s = verify_state("123456", false);
    s.bound = Some(true);
    s.session = session_of("alice", &["totp", "otp"]);
    assert_eq!(minted_factors(&s), vec!["totp".to_string(), "otp".to_string()]);
}

fn verify_reply(s: &VerifyState) -> (u16, String, bool, bool) {
    match verify(s) {
        VerifyAsk::Reply {
            response,
            record_failure,
            clear_failures,
        } => (response.code, response.msg, record_failure, clear_failures),
        _ => panic!("an answer is due"),
    }
}

#[test]
fn verify_with_issued_token_and_correct_code_succeeds() {
    let mut s = verify_state("123456", false);
    assert!(matches!(verify(&s), VerifyAsk::SignIn { name, .. } if name == "alice"));
    s.bound = Some(true);
    assert!(matches!(verify(&s), VerifyAsk::Mint { name, .. } if name == "alice"));
    s.minted = Some(some("jwt"));
    assert_eq!(verify_reply(&s), (200, "Success".to_string(), false, true));
}

#[test]
fn verify_with_raw_ceremony_jwt_is_rejected() {
    // A code is stored, but no ceremony under the handle.
    let mut s = verify_state("123456", false);
    s.ceremony = Some(None);
    assert_eq!(verify_reply(&s), (401, "Unauthorized: ".to_string(), false, false));
}

#[test]
fn verify_with_empty_token_is_rejected() {
    let mut s = verify_state("123456", false);
    s.code = Some(None);
    assert_eq!(
        verify_reply(&s),
        (401, "Unauthorized: Invalid request".to_string(), false, false)
    );
}

#[test]
fn verify_with_wrong_code_is_rejected() {
    let s = verify_state("000000", false);
    assert_eq!(verify_reply(&s), (401, "Unauthorized: ".to_string(), true, false));
    let mut s = verify_state("123456", false);
    if let Some(b) = s.body.as_mut() {
        b.mobile = "13900000000".to_string();
    }
    assert_eq!(verify_reply(&s), (401, "Unauthorized: ".to_string(), true, false));
}

#[test]
fn verify_locks_the_account_after_repeated_failures() {
    let mut s = verify_state("123456", false);
    s.gate = Some(false);
    s.code = None;
    assert_eq!(verify_reply(&s).0, 429, "refused before the code is taken");
    // The code is still there once the lock is gone, and the ceremony
    // completes.
    let mut codes = OneShot::new();
    assert!(codes.put(&flow_key(DOMAIN, "flow"), "123456".to_string()));
    s.gate = Some(true);
    match verify(&s) {
        VerifyAsk::TakeCode(k) => {
            assert_eq!(k, "localhost:flow");
            s.code = Some(codes.take(&k));
        }
        _ => panic!("the code is due"),
    }
    assert!(matches!(verify(&s), VerifyAsk::SignIn { .. }));
    s.bound = Some(true);
    assert_eq!(minted_factors(&s), vec!["otp".to_string()]);
    s.minted = Some(some("jwt"));
    assert_eq!(verify_reply(&s), (200, "Success".to_string(), false, true));
}

#[test]
fn verify_token_is_single_use() {
    let mut codes = OneShot::new();
    assert!(codes.put(&flow_key(DOMAIN, "flow"), "123456".to_string()));
    let mut s = verify_state("123456", false);
    s.code = Some(codes.take(&flow_key(DOMAIN, "flow")));
    s.bound = Some(true);
    s.minted = Some(some("jwt"));
    assert_eq!(verify_reply(&s).0, 200);
    s.code = Some(codes.take(&flow_key(DOMAIN, "flow")));
    assert_eq!(
        verify_reply(&s),
        (401, "Unauthorized: Invalid request".to_string(), false, false)
    );
}

#[test]
fn signup_with_existing_name_is_rejected_and_attaches_nothing() {
    let mut s = verify_state("123456", true);
    assert!(matches!(verify(&s), VerifyAsk::SignUp { .. }));
    s.bound = Some(false);
    assert_eq!(verify_reply(&s), (401, "Unauthorized: ".to_string(), true, false));
    assert_eq!(signup_user_mobile(false, false), SignUp::Refused);
}

#[test]
fn signup_rolls_back_user_when_mobile_is_already_claimed() {
    assert_eq!(signup_user_mobile(true, false), SignUp::RolledBack);
    assert_eq!(signup_user_mobile(true, true), SignUp::Done);
}

#[test]
fn signin_with_unknown_mobile_is_rejected_and_attaches_nothing() {
    assert!(!signin_user_mobile(None, "alice"));
    assert!(!signin_user_mobile(Some("bob"), "alice"));
    assert!(signin_user_mobile(Some("alice"), "alice"));
}

#[test]
fn verification_asks_in_order() {
    let mut s = verify_state("123456", false);
    s.gate = None;
    assert!(matches!(verify(&s), VerifyAsk::Gate(n) if n == "alice"));
    s.gate = Some(true);
    s.has_tenant = None;
    assert!(matches!(verify(&s), VerifyAsk::Tenant));
    s.has_tenant = Some(false);
    assert_eq!(verify_reply(&s).1, "Unauthorized: Failed to find tenant");
    s.has_tenant = Some(true);
    s.ceremony = None;
    assert!(matches!(verify(&s), VerifyAsk::Ceremony { key, .. } if key == flow_key(DOMAIN, "flow")));
    let mut s = verify_state("123456", false);
    s.bound = Some(true);
    s.minted = Some(None);
    assert!(verify_reply(&s).2);
    s.body = None;
    assert_eq!(verify_reply(&s).1, "Unauthorized: Invalid request");
}

#[test]
fn add_token_is_not_a_login_token() {
    assert_ne!(flow_key(DOMAIN, "t"), add_key(DOMAIN, "t"));
    assert_eq!(add_key(DOMAIN, "t"), "otp_add:localhost:t");
}

fn add_state(fresh: bool) -> AddState {
    AddState {
        domain: DOMAIN.to_string(),
        session: Some(FreshSession {
            username: "alice".to_string(),
            fresh,
        }),
        mobile: some("138 0000-0001"),
        throttle: None,
        has_tenant: None,
        taken: None,
        has_config: None,
        token: None,
        sent: None,
    }
}

fn add_reply(s: &AddState) -> (u16, String) {
    match add(s) {
        AddAsk::Reply { response, keep } => {
            assert!(keep.is_none());
            (response.code, response.msg)
        }
        _ => panic!("an answer is due"),
    }
}

#[test]
fn add_mobile_refuses_stale_session() {
    match add(&add_state(false)) {
        AddAsk::SignInAgain(r) => assert_eq!(r.code, 403),
        _ => panic!("a stale session adds nothing"),
    }
}

#[test]
fn add_refuses_an_owned_mobile() {
    let mut s = add_state(true);
    s.throttle = Some(true);
    s.has_tenant = Some(true);
    s.taken = Some(true);
    let (code, msg) = add_reply(&s);
    assert_eq!(code, 401);
    assert!(msg.contains("already in use"));
}

#[test]
fn adding_asks_in_order() {
    let mut s = add_state(true);
    assert!(matches!(add(&s), AddAsk::Throttle(k) if k == "localhost|mobile:13800000001"));
    s.throttle = Some(true);
    assert!(matches!(add(&s), AddAsk::Tenant));
    s.has_tenant = Some(true);
    assert!(matches!(add(&s), AddAsk::Taken(_)));
    s.taken = Some(false);
    assert!(matches!(add(&s), AddAsk::Config));
    s.has_config = Some(true);
    assert!(matches!(add(&s), AddAsk::Sign { user, .. } if user == "alice"));
    s.token = Some(some("tok"));
    assert!(matches!(add(&s), AddAsk::Send(m) if m == "13800000001"));
    s.sent = Some(false);
    assert_eq!(add_reply(&s).1, "Unauthorized: Fail to send SMS");
    s.sent = Some(true);
    match add(&s) {
        AddAsk::Reply { response, keep } => {
            assert!(response.ok);
            assert_eq!(response.jwt.as_deref(), Some("tok"));
            assert_eq!(keep.as_deref(), Some("otp_add:localhost:tok"));
        }
        _ => panic!("done"),
    }
    s.token = Some(None);
    assert_eq!(add_reply(&s).1, "Unauthorized: Fail to issue JWT");
    s.has_config = Some(false);
    assert_eq!(add_reply(&s).1, "Unauthorized: Failed to load OTP config");
    s.has_tenant = Some(false);
    assert_eq!(add_reply(&s).1, "Unauthorized: Failed to find tenant");
    s.throttle = Some(false);
    assert_eq!(add_reply(&s).0, 429);
    s.mobile = some("x");
    assert_eq!(add_reply(&s).0, 400);
    s.mobile = None;
    assert_eq!(add_reply(&s).1, "Unauthorized: Invalid request");
    s.session = None;
    assert_eq!(add_reply(&s).1, "Unauthorized: no valid session");
}

fn add_verify_state(user: Option<&str>, bound: Option<&str>) -> AddVerifyState {
    AddVerifyState {
        domain: DOMAIN.to_string(),
        user: user.map(|u| u.to_string()),
        body: Some(("tok".to_string(), "123456".to_string())),
        has_tenant: Some(true),
        stored: Some(some("123456")),
        bound: Some(bound.map(|m| m.to_string())),
        created: None,
    }
}

fn add_verify_reply(s: &AddVerifyState) -> (bool, String) {
    match add_verify(s) {
        AddVerifyAsk::Reply(r) => (r.ok, r.msg),
        _ => panic!("an answer is due"),
    }
}

#[test]
fn add_verify_attaches_mobile_to_the_session_user() {
    let mut s = add_verify_state(Some("alice"), Some("13777777777"));
    assert!(matches!(
        add_verify(&s),
        AddVerifyAsk::Attach { user, mobile } if user == "alice" && mobile == "13777777777"
    ));
    s.created = Some(true);
    assert_eq!(add_verify_reply(&s), (true, "Success".to_string()));
    s.created = Some(false);
    assert_eq!(add_verify_reply(&s).1, "Unauthorized: Mobile already in use");
}

#[test]
fn add_verify_refuses_a_foreign_session() {
    // The token was signed for alice, so it does not verify for bob.
    let s = add_verify_state(Some("bob"), None);
    assert_eq!(
        add_verify_reply(&s),
        (false, "Unauthorized: Invalid or expired token".to_string())
    );
}

#[test]
fn completing_an_addition_asks_in_order() {
    let mut s = add_verify_state(Some("alice"), Some(MOBILE));
    s.body = Some(("tok".to_string(), "000000".to_string()));
    assert_eq!(add_verify_reply(&s).1, "Unauthorized: Invalid or expired token");
    s.bound = None;
    assert!(matches!(add_verify(&s), AddVerifyAsk::Verify { token, .. } if token == "tok"));
    s.stored = Some(None);
    assert_eq!(add_verify_reply(&s).1, "Unauthorized: Invalid or expired token");
    s.stored = None;
    assert!(matches!(add_verify(&s), AddVerifyAsk::TakeCode(k) if k == "otp_add:localhost:tok"));
    s.has_tenant = Some(false);
    assert_eq!(add_verify_reply(&s).1, "Unauthorized: Failed to find tenant");
    s.has_tenant = None;
    assert!(matches!(add_verify(&s), AddVerifyAsk::Tenant));
    s.body = None;
    assert_eq!(add_verify_reply(&s).1, "Unauthorized: Invalid request");
    s.user = None;
    assert_eq!(add_verify_reply(&s).1, "Unauthorized: no valid session");
}

#[test]
fn numbers_are_removed_by_those_above() {
    let code = |o: RemoveOutcome| match o {
        RemoveOutcome::Problem(p) => p.status,
        RemoveOutcome::Response(m) => m.code,
    };
    let forbidden = || Some(problem(403, ProblemKind::Forbidden, ""));
    assert_eq!(code(remove(false, true, None, true)), 401);
    assert_eq!(code(remove(true, false, None, true)), 400);
    assert_eq!(code(remove(true, true, forbidden(), true)), 403);
    assert_eq!(code(remove(true, true, None, false)), 400);
    assert_eq!(code(remove(true, true, None, true)), 200);
}

#[test]
fn stores_hand_out_once() {
    let mut store: OneShot<u32> = OneShot::new();
    assert!(store.put("a", 1) && store.put("b", 2));
    assert!(!store.put("a", 3), "the key is taken");
    assert_eq!(store.get("a"), Some(&1));
    assert_eq!(store.take("a"), Some(1));
    assert_eq!((store.take("a"), store.get("a")), (None, None));
    assert_eq!(store.take("b"), Some(2));
    assert!(store.put("a", 4));
    assert_eq!(store.take("a"), Some(4));
}

#[test]
fn signs_and_separators() {
    assert_eq!(canonical_mobile("+1 (2)-3.4"), canonical_mobile("+1234"));
    assert_eq!(canonical_mobile("+ 1234").as_deref(), Some("+1234"));
    assert_ne!(canonical_mobile("1234"), canonical_mobile("+1234"));
}
