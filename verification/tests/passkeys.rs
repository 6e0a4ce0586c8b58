use base64::engine::general_purpose::URL_SAFE_NO_PAD;
use base64::Engine;
use janux::identity::SessionFactors;
use janux::oneshot::OneShot;
use janux::otp::FreshSession;
use janux::passkey::{
    active_passkey, ceremony_key, credential_kind, deactivate, exclude_credentials, finish,
    finish_passkey_login, finish_passkey_registration, name_credential, passkey_create,
    start_passkey_login, start_passkey_registration, update_credential, user_handle, verify,
    CeremonyFault, ChallengeAsk, ChallengeState, CompleteAsk, CompleteState, CredentialKind,
    Finished, Passkey, PasskeyResponse, RemoveOwn, VerifyRequest,
};
use janux::reply::{problem, Problem, ProblemKind};
use openssl::bn::{BigNum, BigNumContext};
use openssl::ec::{EcGroup, EcKey};
use openssl::ecdsa::EcdsaSig;
use openssl::nid::Nid;
use openssl::pkey::Private;
use serde_cbor_2::value::Value as Cbor;
use sha2::{Digest, Sha256};
use std::collections::BTreeMap;

const DOMAIN: &str = "auth.example.com";
const ORIGIN: &str = "http://auth.example.com";

fn b64url(bytes: &[u8]) -> String {
    URL_SAFE_NO_PAD.encode(bytes)
}

// ── a soft authenticator (P-256, ES256, no attestation) ─────────────────

struct SoftAuthenticator {
    cred_id: Vec<u8>,
    key: EcKey<Private>,
    counter: u32,
}

impl SoftAuthenticator {
    fn new() -> Self {
        let group = EcGroup::from_curve_name(Nid::X9_62_PRIME256V1).expect("p256 group");
        let key = EcKey::generate(&group).expect("p256 key");
        let (x, y) = Self::coordinates(&key);
        let mut seed = x;
        seed.extend_from_slice(&y);
        Self {
            cred_id: Sha256::digest(seed).to_vec(),
            key,
            counter: 0,
        }
    }

    fn coordinates(key: &EcKey<Private>) -> (Vec<u8>, Vec<u8>) {
        let mut ctx = BigNumContext::new().expect("bn ctx");
        let mut x = BigNum::new().expect("x");
        let mut y = BigNum::new().expect("y");
        key.public_key()
            .affine_coordinates(key.group(), &mut x, &mut y, &mut ctx)
            .expect("affine coordinates");
        (
            x.to_vec_padded(32).expect("x padded"),
            y.to_vec_padded(32).expect("y padded"),
        )
    }

    fn cose_key(&self) -> Vec<u8> {
        let (x, y) = Self::coordinates(&self.key);
        let mut key = BTreeMap::new();
        key.insert(Cbor::Integer(1), Cbor::Integer(2));
        key.insert(Cbor::Integer(3), Cbor::Integer(-7));
        key.insert(Cbor::Integer(-1), Cbor::Integer(1));
        key.insert(Cbor::Integer(-2), Cbor::Bytes(x));
        key.insert(Cbor::Integer(-3), Cbor::Bytes(y));
        serde_cbor_2::to_vec(&Cbor::Map(key)).expect("cose cbor")
    }

    fn client_data(&self, ty: &str, challenge: &[u8]) -> Vec<u8> {
        format!(
            r#"{{"type":"{ty}","challenge":"{}","origin":"{ORIGIN}","crossOrigin":false}}"#,
            b64url(challenge)
        )
        .into_bytes()
    }

    fn auth_data(&self, flags: u8, attested: bool) -> Vec<u8> {
        let mut auth_data = Sha256::digest(DOMAIN.as_bytes()).to_vec();
        auth_data.push(flags);
        auth_data.extend_from_slice(&self.counter.to_be_bytes());
        if attested {
            auth_data.extend_from_slice(&[0u8; 16]);
            auth_data.extend_from_slice(&(self.cred_id.len() as u16).to_be_bytes());
            auth_data.extend_from_slice(&self.cred_id);
            auth_data.extend_from_slice(&self.cose_key());
        }
        auth_data
    }

    /// The answer to a registration challenge.
    fn registration_credential(&self, challenge: &[u8]) -> Vec<u8> {
        let client_data = self.client_data("webauthn.create", challenge);
        let mut attestation = BTreeMap::new();
        attestation.insert(Cbor::Text("fmt".into()), Cbor::Text("none".into()));
        attestation.insert(Cbor::Text("attStmt".into()), Cbor::Map(BTreeMap::new()));
        attestation.insert(
            Cbor::Text("authData".into()),
            Cbor::Bytes(self.auth_data(0x45, true)),
        );
        let object = serde_cbor_2::to_vec(&Cbor::Map(attestation)).expect("attestation cbor");
        format!(
            r#"{{"id":"{id}","rawId":"{id}","response":{{"attestationObject":"{}","clientDataJSON":"{}"}},"type":"public-key"}}"#,
            b64url(&object),
            b64url(&client_data),
            id = b64url(&self.cred_id),
        )
        .into_bytes()
    }

    /// The answer to a sign-in challenge.
    fn assertion_credential(&self, challenge: &[u8]) -> Vec<u8> {
        let client_data = self.client_data("webauthn.get", challenge);
        let auth_data = self.auth_data(0x05, false);
        let mut signed = auth_data.clone();
        signed.extend_from_slice(&Sha256::digest(&client_data));
        let signature = EcdsaSig::sign(Sha256::digest(&signed).as_slice(), &self.key)
            .expect("ecdsa sign")
            .to_der()
            .expect("ecdsa der");
        format!(
            r#"{{"id":"{id}","rawId":"{id}","response":{{"authenticatorData":"{}","clientDataJSON":"{}","signature":"{}"}},"type":"public-key"}}"#,
            b64url(&auth_data),
            b64url(&client_data),
            b64url(&signature),
            id = b64url(&self.cred_id),
        )
        .into_bytes()
    }
}

/// A registration's answer in form only: no ceremony completes with it.
fn registration_credential() -> Vec<u8> {
    br#"{"id":"AAAA","rawId":"AAAA","response":{"attestationObject":"o2NmbXRkbm9uZWdhdHRTdG10oGhhdXRoRGF0YVjk","clientDataJSON":"eyJ0eXBlIjoid2ViYXV0aG4uY3JlYXRlIn0"},"type":"public-key"}"#.to_vec()
}

// ── a server in memory ──────────────────────────────────────────────────

fn copy(p: &Passkey) -> Passkey {
    Passkey {
        id: p.id.clone(),
        user_id: p.user_id.clone(),
        domain_id: p.domain_id.clone(),
        active: p.active,
        credential: p.credential.clone(),
        public_key: p.public_key.clone(),
    }
}

fn challenge_of(r: &PasskeyResponse) -> Vec<u8> {
    let opts: serde_json::Value = serde_json::from_str(&r.public_key_opts).expect("options");
    URL_SAFE_NO_PAD
        .decode(opts["publicKey"]["challenge"].as_str().expect("challenge"))
        .expect("challenge bytes")
}

struct Service {
    registrations: OneShot<Vec<u8>>,
    logins: OneShot<(Vec<u8>, String)>,
    rows: Vec<Passkey>,
}

impl Service {
    fn new() -> Self {
        Service {
            registrations: OneShot::new(),
            logins: OneShot::new(),
            rows: Vec::new(),
        }
    }

    fn stored(&self, user: &str) -> Vec<Passkey> {
        self.rows.iter().filter(|p| p.user_id == user).map(copy).collect()
    }

    fn post_request(
        &mut self,
        user: &str,
        session: Option<(&str, bool)>,
    ) -> Result<PasskeyResponse, u16> {
        let mut s = ChallengeState {
            username: Some(user.to_string()),
            passkeys: None,
            session: None,
        };
        loop {
            match janux::passkey::request(&s) {
                ChallengeAsk::Passkeys(u) => s.passkeys = Some(self.stored(&u)),
                ChallengeAsk::Session => {
                    s.session = Some(session.map(|(u, fresh)| FreshSession {
                        username: u.to_string(),
                        fresh,
                    }));
                }
                ChallengeAsk::Login(u) => {
                    let rows = self.stored(&u);
                    return start_passkey_login(&mut self.logins, &rows, DOMAIN, ORIGIN, &u)
                        .ok_or(401);
                }
                ChallengeAsk::Register(u) => {
                    let rows = self.stored(&u);
                    return start_passkey_registration(
                        &mut self.registrations,
                        &rows,
                        DOMAIN,
                        ORIGIN,
                        &u,
                    )
                    .ok_or(401);
                }
                ChallengeAsk::SignInAgain => return Err(403),
                ChallengeAsk::Reply(p) => return Err(p.status),
            }
        }
    }

    /// The user and the factors of the session that is signed, or the status.
    fn post_verify(
        &mut self,
        user: &str,
        credential: &[u8],
        token: &str,
        session: Option<&str>,
    ) -> Result<(String, Vec<String>), u16> {
        let mut s = complete(user, credential, token, session);
        let mut minted = None;
        loop {
            match verify(&s) {
                CompleteAsk::Finish => {
                    s.finished = Some(finish(&s, &mut self.registrations, &mut self.logins));
                }
                CompleteAsk::Store {
                    credential,
                    public_key,
                } => {
                    let row = passkey_create(user, DOMAIN, credential, public_key);
                    s.stored = Some(row.is_some());
                    self.rows.extend(row);
                }
                CompleteAsk::Passkeys(u) => s.passkeys = Some(self.stored(&u)),
                CompleteAsk::Update { id, credential } => {
                    for p in self.rows.iter_mut().filter(|p| p.id == id) {
                        p.credential = credential.clone();
                    }
                    s.updated = true;
                }
                CompleteAsk::Mint { name, factors } => {
                    minted = Some((name, factors));
                    s.minted = Some(Some("jwt".to_string()));
                }
                CompleteAsk::Done(t) => {
                    assert_eq!(t, "jwt");
                    return minted.ok_or(500);
                }
                CompleteAsk::Reply(p) => return Err(p.status),
            }
        }
    }

    /// Registers an authenticator for a user by a whole ceremony.
    fn seed(&mut self, user: &str, auth: &SoftAuthenticator) {
        let started = self.post_request(user, Some((user, true))).expect("challenge");
        let credential = auth.registration_credential(&challenge_of(&started));
        let session = self.post_verify(user, &credential, &started.token, Some(user));
        assert_eq!(session.expect("session").0, user);
    }
}

fn complete(user: &str, credential: &[u8], token: &str, session: Option<&str>) -> CompleteState {
    CompleteState {
        domain: DOMAIN.to_string(),
        origin: ORIGIN.to_string(),
        body: Some(VerifyRequest {
            username: user.to_string(),
            credential: credential.to_vec(),
            token: token.to_string(),
        }),
        session: session.map(|u| SessionFactors {
            username: u.to_string(),
            mfa: vec!["email".to_string()],
        }),
        finished: None,
        stored: None,
        passkeys: None,
        updated: false,
        minted: None,
    }
}

fn texts(list: &[&str]) -> Vec<String> {
    list.iter().map(|s| s.to_string()).collect()
}

// ── challenges ──────────────────────────────────────────────────────────

#[test]
fn registration_without_a_session_is_rejected() {
    assert!(matches!(Service::new().post_request("alice", None), Err(401)));
}

#[test]
fn registration_for_another_user_is_rejected() {
    assert!(matches!(
        Service::new().post_request("bob", Some(("alice", true))),
        Err(401)
    ));
}

#[test]
fn registration_with_a_matching_session_starts_a_challenge() {
    let mut s = Service::new();
    let started = s.post_request("alice", Some(("alice", true))).expect("challenge");
    let opts: serde_json::Value = serde_json::from_str(&started.public_key_opts).expect("json");
    assert!(opts["publicKey"].is_object());
    assert_eq!(opts["publicKey"]["rp"]["name"], "Passkey");
    assert_eq!(opts["publicKey"]["rp"]["id"], DOMAIN);
    assert_eq!(opts["publicKey"]["user"]["name"], "alice");
    assert_eq!(opts["publicKey"]["user"]["displayName"], "alice");
    let handle: Vec<u8> = user_handle("alice")
        .replace('-', "")
        .as_bytes()
        .chunks(2)
        .map(|c| u8::from_str_radix(std::str::from_utf8(c).expect("hex"), 16).expect("hex"))
        .collect();
    assert_eq!(opts["publicKey"]["user"]["id"], b64url(&handle).as_str());
    assert!(opts["publicKey"]["excludeCredentials"].is_null());
    assert_eq!(started.token.len(), 36);
}

#[test]
fn concurrent_registration_flows_do_not_block_each_other() {
    let mut s = Service::new();
    let first = s.post_request("alice", Some(("alice", true))).expect("challenge");
    let second = s.post_request("alice", Some(("alice", true))).expect("challenge");
    assert_ne!(first.token, second.token, "every flow gets its own random token");
}

#[test]
fn passkey_register_refuses_stale_session() {
    let mut s = Service::new();
    assert!(matches!(s.post_request("alice", Some(("alice", false))), Err(403)));
    assert!(s.post_request("alice", Some(("alice", true))).is_ok());
}

#[test]
fn passkey_remove_refuses_stale_session() {
    let s = |fresh| {
        Some(FreshSession {
            username: "alice".to_string(),
            fresh,
        })
    };
    assert!(matches!(janux::passkey::remove(&s(false)), RemoveOwn::SignInAgain));
    assert!(matches!(janux::passkey::remove(&s(true)), RemoveOwn::Deactivate(u) if u == "alice"));
    assert!(matches!(janux::passkey::remove(&None), RemoveOwn::Refuse(p) if p.status == 401));
}

#[test]
fn challenges_ask_in_order() {
    let mut s = ChallengeState {
        username: Some("alice".to_string()),
        passkeys: None,
        session: None,
    };
    assert!(matches!(janux::passkey::request(&s), ChallengeAsk::Passkeys(u) if u == "alice"));
    let row = |credential: &str, active| Passkey {
        id: "x".to_string(),
        user_id: "alice".to_string(),
        domain_id: DOMAIN.to_string(),
        active,
        credential: credential.as_bytes().to_vec(),
        public_key: String::new(),
    };
    // A passkey that is inactive or cannot be read does not sign in.
    s.passkeys = Some(vec![row(PASSKEY, false), row("{}", true)]);
    assert!(matches!(janux::passkey::request(&s), ChallengeAsk::Session));
    s.passkeys = Some(vec![row("{}", true), row(PASSKEY, true)]);
    assert!(matches!(janux::passkey::request(&s), ChallengeAsk::Login(u) if u == "alice"));
    s.username = Some(String::new());
    assert!(matches!(janux::passkey::request(&s), ChallengeAsk::Reply(p) if p.status == 400));
    s.username = None;
    assert!(matches!(janux::passkey::request(&s), ChallengeAsk::Reply(p) if p.status == 400));
}

#[test]
fn sign_ins_offer_the_active_passkeys() {
    let mut s = Service::new();
    let auth = SoftAuthenticator::new();
    s.seed("alice", &auth);
    let started = s.post_request("alice", None).expect("challenge");
    let opts: serde_json::Value = serde_json::from_str(&started.public_key_opts).expect("json");
    let offered = opts["publicKey"]["allowCredentials"].as_array().expect("list");
    assert_eq!(offered.len(), 1);
    assert_eq!(offered[0]["id"], b64url(&auth.cred_id).as_str());
    assert_eq!(opts["publicKey"]["rpId"], DOMAIN);
}

#[test]
fn known_credentials_are_excluded() {
    let mut s = Service::new();
    let auth = SoftAuthenticator::new();
    s.seed("alice", &auth);
    // Inactive, it does not sign in, and still is not registered again.
    s.rows[0].active = false;
    let started = s.post_request("alice", Some(("alice", true))).expect("challenge");
    let opts: serde_json::Value = serde_json::from_str(&started.public_key_opts).expect("json");
    assert_eq!(
        opts["publicKey"]["excludeCredentials"][0]["id"],
        b64url(&auth.cred_id).as_str()
    );
    let again = auth.registration_credential(&challenge_of(&started));
    assert_eq!(s.post_verify("alice", &again, &started.token, Some("alice")), Err(401));
    let started = s.post_request("alice", Some(("alice", true))).expect("challenge");
    let other = SoftAuthenticator::new().registration_credential(&challenge_of(&started));
    assert!(s.post_verify("alice", &other, &started.token, Some("alice")).is_ok());
    assert_eq!(s.rows.len(), 2);
}

#[test]
fn ceremonies_need_a_party() {
    let mut registrations = OneShot::new();
    let mut logins = OneShot::new();
    for (domain, origin) in [
        (DOMAIN, "not a url"),
        (DOMAIN, "http://elsewhere.example.com"),
        ("localhost", "http://auth.example.com"),
    ] {
        assert!(start_passkey_registration(&mut registrations, &vec![], domain, origin, "a").is_none());
        assert!(start_passkey_login(&mut logins, &vec![], domain, origin, "a").is_none());
    }
    assert!(start_passkey_registration(&mut registrations, &vec![], DOMAIN, ORIGIN, "").is_none());
    // Where there is no party nothing is spent.
    assert!(logins.put(&ceremony_key(DOMAIN, "t"), (vec![], "alice".to_string())));
    assert_eq!(
        finish_passkey_login(&mut logins, DOMAIN, "nowhere", "t", "alice", b"{}"),
        Err(CeremonyFault::NoParty)
    );
    assert_eq!(
        finish_passkey_login(&mut logins, DOMAIN, ORIGIN, "t", "alice", b"{}"),
        Err(CeremonyFault::Refused)
    );
    assert_eq!(
        finish_passkey_login(&mut logins, DOMAIN, ORIGIN, "t", "alice", b"{}"),
        Err(CeremonyFault::Unrecognized)
    );
    assert!(registrations.put(&ceremony_key(DOMAIN, "t"), vec![]));
    assert_eq!(
        finish_passkey_registration(&mut registrations, DOMAIN, "nowhere", "t", b"{}"),
        Err(CeremonyFault::NoParty)
    );
    assert_eq!(
        finish_passkey_registration(&mut registrations, DOMAIN, ORIGIN, "t", b"{}"),
        Err(CeremonyFault::Refused)
    );
    assert_eq!(
        finish_passkey_registration(&mut registrations, DOMAIN, ORIGIN, "t", b"{}"),
        Err(CeremonyFault::Unrecognized)
    );
}

// ── completion ──────────────────────────────────────────────────────────

#[test]
fn registration_verify_without_a_session_is_rejected() {
    let mut s = Service::new();
    let credential = registration_credential();
    assert_eq!(s.post_verify("alice", &credential, "t", None), Err(401));
    assert_eq!(s.post_verify("alice", &credential, "t", Some("bob")), Err(401));
}

#[test]
fn verify_with_an_unknown_flow_token_is_rejected() {
    let mut s = Service::new();
    assert_eq!(
        s.post_verify("alice", &registration_credential(), "t", Some("alice")),
        Err(401)
    );
}

#[test]
fn verify_without_a_flow_token_is_a_bad_request() {
    let mut s = complete("alice", &registration_credential(), "t", Some("alice"));
    s.body = None;
    assert!(matches!(verify(&s), CompleteAsk::Reply(p) if p.status == 400));
    assert_eq!(
        Service::new().post_verify("alice", b"{}", "t", Some("alice")),
        Err(400)
    );
}

#[test]
fn login_verify_for_a_different_username_is_rejected() {
    let mut s = Service::new();
    let auth = SoftAuthenticator::new();
    s.seed("alice", &auth);
    let started = s.post_request("alice", None).expect("challenge");
    let credential = auth.assertion_credential(&challenge_of(&started));
    assert_eq!(s.post_verify("bob", &credential, &started.token, None), Err(401));
}

#[test]
fn login_verify_with_matching_username_succeeds() {
    let mut s = Service::new();
    let auth = SoftAuthenticator::new();
    s.seed("alice", &auth);
    let started = s.post_request("alice", None).expect("challenge");
    let credential = auth.assertion_credential(&challenge_of(&started));
    assert_eq!(
        s.post_verify("alice", &credential, &started.token, None),
        Ok(("alice".to_string(), texts(&["passkey"])))
    );
}

#[test]
fn login_flow_token_is_single_use() {
    let mut s = Service::new();
    let auth = SoftAuthenticator::new();
    s.seed("alice", &auth);
    let started = s.post_request("alice", None).expect("challenge");
    let credential = auth.assertion_credential(&challenge_of(&started));
    assert!(s.post_verify("alice", &credential, &started.token, None).is_ok());
    assert_eq!(s.post_verify("alice", &credential, &started.token, None), Err(401));
    // A foreign attempt spends the token too.
    let started = s.post_request("alice", None).expect("challenge");
    let credential = auth.assertion_credential(&challenge_of(&started));
    assert_eq!(
        finish_passkey_login(&mut s.logins, DOMAIN, ORIGIN, &started.token, "bob", &credential),
        Err(CeremonyFault::OtherUser)
    );
    assert_eq!(
        finish_passkey_login(&mut s.logins, DOMAIN, ORIGIN, &started.token, "alice", &credential),
        Err(CeremonyFault::Unrecognized)
    );
}

#[test]
fn sign_ins_hold_against_their_challenge() {
    let mut s = Service::new();
    let auth = SoftAuthenticator::new();
    s.seed("alice", &auth);
    let first = s.post_request("alice", None).expect("challenge");
    let second = s.post_request("alice", None).expect("challenge");
    let credential = auth.assertion_credential(&challenge_of(&first));
    assert_eq!(s.post_verify("alice", &credential, &second.token, None), Err(401));
    // Another authenticator, even one of the same user on another account.
    let other = SoftAuthenticator::new();
    s.seed("bob", &other);
    let credential = other.assertion_credential(&challenge_of(&first));
    assert_eq!(s.post_verify("alice", &credential, &first.token, None), Err(401));
    // A key that is not the credential's.
    let started = s.post_request("alice", None).expect("challenge");
    let forged = SoftAuthenticator {
        cred_id: auth.cred_id.clone(),
        ..SoftAuthenticator::new()
    };
    let credential = forged.assertion_credential(&challenge_of(&started));
    assert_eq!(s.post_verify("alice", &credential, &started.token, None), Err(401));
    // A passkey that was deactivated in between.
    let started = s.post_request("alice", None).expect("challenge");
    let credential = auth.assertion_credential(&challenge_of(&started));
    s.rows[0].active = false;
    assert_eq!(s.post_verify("alice", &credential, &started.token, None), Err(401));
}

#[test]
fn sign_ins_write_the_counter_back() {
    let mut s = Service::new();
    let mut auth = SoftAuthenticator::new();
    s.seed("alice", &auth);
    let before = s.rows[0].credential.clone();
    let sign_in = |s: &mut Service, auth: &SoftAuthenticator| {
        let started = s.post_request("alice", None).expect("challenge");
        let credential = auth.assertion_credential(&challenge_of(&started));
        s.post_verify("alice", &credential, &started.token, Some("alice"))
    };
    let session = Ok(("alice".to_string(), texts(&["email", "passkey"])));
    assert_eq!(sign_in(&mut s, &auth), session);
    assert_eq!(s.rows[0].credential, before, "nothing changed");
    auth.counter = 7;
    assert_eq!(sign_in(&mut s, &auth), session);
    let row: serde_json::Value = serde_json::from_slice(&s.rows[0].credential).expect("json");
    assert_eq!(row["cred"]["counter"], 7);
    assert_eq!(sign_in(&mut s, &auth), Err(401), "a counter that stands still is a copy's");
}

#[test]
fn registrations_are_stored_before_a_session() {
    let mut s = Service::new();
    let auth = SoftAuthenticator::new();
    let started = s.post_request("alice", Some(("alice", true))).expect("challenge");
    let credential = auth.registration_credential(&challenge_of(&started));
    let mut c = complete("alice", &credential, &started.token, Some("alice"));
    assert!(matches!(verify(&c), CompleteAsk::Finish));
    c.finished = Some(finish(&c, &mut s.registrations, &mut s.logins));
    match verify(&c) {
        CompleteAsk::Store {
            credential,
            public_key,
        } => {
            assert_eq!(
                Passkey::cred_id(&credential).as_deref(),
                Some(b64url(&auth.cred_id).as_str())
            );
            let (x, _) = SoftAuthenticator::coordinates(&auth.key);
            let key: serde_json::Value = serde_json::from_str(&public_key).expect("json");
            assert_eq!(key["type_"], "ES256");
            assert_eq!(key["key"]["EC_EC2"]["x"], b64url(&x).as_str());
        }
        _ => panic!("the passkey is stored first"),
    }
    c.stored = Some(false);
    assert!(matches!(verify(&c), CompleteAsk::Reply(p) if p.status == 500 && p.detail == "Failed to persist passkey"));
    c.stored = Some(true);
    assert!(matches!(
        verify(&c),
        CompleteAsk::Mint { name, factors } if name == "alice" && factors == texts(&["email", "passkey"])
    ));
    c.minted = Some(None);
    assert!(matches!(verify(&c), CompleteAsk::Reply(p) if p.status == 401));
    for unwritten in [None, Some(b"{}".to_vec())] {
        c.finished = Some(Finished::Registered(unwritten));
        assert!(matches!(verify(&c), CompleteAsk::Reply(p) if p.status == 500 && p.detail == "error"));
    }
    c.finished = Some(Finished::Refused);
    assert!(matches!(verify(&c), CompleteAsk::Reply(p) if p.status == 401));
}

#[test]
fn credentials_are_told_apart() {
    let auth = SoftAuthenticator::new();
    assert_eq!(credential_kind(&auth.registration_credential(b"c")), CredentialKind::Registration);
    assert_eq!(credential_kind(&registration_credential()), CredentialKind::Registration);
    assert_eq!(credential_kind(&auth.assertion_credential(b"c")), CredentialKind::Assertion);
    assert_eq!(credential_kind(b"{}"), CredentialKind::Neither);
    assert_eq!(credential_kind(b"not json"), CredentialKind::Neither);
}

// ── rows ────────────────────────────────────────────────────────────────

const PASSKEY: &str = r#"{"cred":{"cred_id":"uZcVDBVS68E_MtAgeQpElJxldF_6cY9sSvbWqx_qRh8wiu42lyRBRmh5yFeD_r9k130dMbFHBHI9RTFgdJQIzQ","cred":{"type_":"ES256","key":{"EC_EC2":{"curve":"SECP256R1","x":[194,126,127,109,252,23,131,21,252,6,223,99,44,254,140,27,230,17,94,5,133,28,104,41,144,69,171,149,161,26,200,243],"y":[143,123,183,156,24,178,21,248,117,159,162,69,171,52,188,252,26,59,6,47,103,92,19,58,117,103,249,0,219,8,95,196]}}},"counter":2,"user_verified":false,"backup_eligible":false,"backup_state":false,"registration_policy":"preferred","extensions":{"cred_protect":"NotRequested","hmac_create_secret":"NotRequested"},"attestation":{"data":"None","metadata":"None"},"attestation_format":"Packed"}}"#;

#[test]
fn passkeys_are_named_by_their_credential() {
    assert_eq!(
        Passkey::cred_id(PASSKEY.as_bytes()).as_deref(),
        Some("uZcVDBVS68E_MtAgeQpElJxldF_6cY9sSvbWqx_qRh8wiu42lyRBRmh5yFeD_r9k130dMbFHBHI9RTFgdJQIzQ")
    );
    assert_eq!(Passkey::cred_id(b"{}"), None);
    let p = passkey_create("u", "d", PASSKEY.as_bytes().to_vec(), "pk".to_string()).expect("row");
    assert!(p.active && p.id.starts_with("uZcV"));
    assert_eq!(p.get_passkey().as_deref(), Some(PASSKEY.as_bytes()));
    assert!(passkey_create("u", "d", vec![], "pk".to_string()).is_none());
    assert_eq!(name_credential(&[0xb9, 0x97, 0x15]), "uZcV");
    assert_eq!(update_credential(&p, b"{}"), None);
    let row = |id: &str, active| Passkey {
        id: id.to_string(),
        user_id: "u".to_string(),
        domain_id: "d".to_string(),
        active,
        credential: vec![],
        public_key: String::new(),
    };
    assert_eq!(row("a", true).get_passkey(), None);
    let rows = vec![row("a", true), row("b", false), row("c", true)];
    let active: Vec<&str> = active_passkey(&rows).iter().map(|p| p.id.as_str()).collect();
    assert_eq!(active, vec!["a", "c"]);
    assert_eq!(exclude_credentials(vec![]), None);
    assert_eq!(exclude_credentials(vec![vec![1]]), Some(vec![vec![1]]));
}

#[test]
fn passkeys_are_deactivated_by_those_above() {
    let status = |r: Result<(), Problem>| match r {
        Ok(_) => 200,
        Err(p) => p.status,
    };
    let forbidden = || Some(problem(403, ProblemKind::Forbidden, ""));
    assert_eq!(status(deactivate(true, true, true, None, true)), 200);
    assert_eq!(status(deactivate(false, true, true, None, true)), 401);
    assert_eq!(status(deactivate(true, false, true, None, true)), 400);
    assert_eq!(status(deactivate(true, true, false, None, true)), 400);
    assert_eq!(status(deactivate(true, true, true, forbidden(), true)), 403);
    assert_eq!(status(deactivate(true, true, true, None, false)), 400);
}

#[test]
fn user_handles_are_name_based() {
    // The published example of a name in the namespace of domain names.
    assert_eq!(
        user_handle("www.example.com"),
        "2ed6657d-e927-568b-95e1-2665a8aea6a2"
    );
    assert_ne!(user_handle("alice"), user_handle("bob"));
}
