//! Passkeys: which ceremony is run, and what completes it.

use crate::identity::{
    inherit_factors, inherited, with_factor, with_factor_view, SessionFactors,
};
use crate::otp::FreshSession;
use crate::oidc::codes::random_id;
use crate::oneshot::{law_taken_is_gone, lookup, store_run, OneShot, StoreOp};
use crate::outside::{
    accepts_only, assertion_of, base64url, base64url_encode, bytes_of, check_party,
    credential_id_of, excludes, finish_assertion, finish_registration, is_assertion, is_party,
    is_registration, listed, name_uuid, passkey_credential_id, passkey_public_key, public_key_of,
    reads_as_assertion, reads_as_registration, registration_of, start_assertion,
    start_registration, update_passkey, updated_of, uuid_of, uuid_of_name,
};
use crate::reply::{problem, problem_of, Problem, ProblemKind, ProblemView};
use crate::text::{cat3, opt_text, same, texts};
use vstd::prelude::*;

verus! {

/// A stored passkey.
pub struct Passkey {
    pub id: String,
    pub user_id: String,
    pub domain_id: String,
    pub active: bool,
    /// The passkey as the WebAuthn library writes it.
    pub credential: Vec<u8>,
    pub public_key: String,
}

/// The name of a credential: its identifier in URL-safe base64.
pub open spec fn credential_name(id: Option<Seq<u8>>) -> Option<Seq<char>> {
    match id {
        Some(b) => Some(base64url(b)),
        None => None,
    }
}

/// The name of a credential identifier.
pub fn name_credential(id: &[u8]) -> (r: String)
    ensures
        r@ == base64url(id@),
{
    base64url_encode(id)
}

/// The passkey in a row, where it can be read.
pub open spec fn readable(p: Passkey) -> Option<Seq<u8>> {
    if credential_id_of(p.credential@) is Some {
        Some(p.credential@)
    } else {
        None
    }
}

fn copy_bytes(b: &Vec<u8>) -> (r: Vec<u8>)
    ensures
        r@ == b@,
{
    let r = b.clone();
    proof {
        assert(r@ =~= b@);
    }
    r
}

impl Passkey {
    /// The passkey as the WebAuthn library writes it, where it can be read.
    pub fn get_passkey(&self) -> (r: Option<Vec<u8>>)
        ensures
            (match r {
                Some(b) => Some(b@),
                None => None,
            }) == readable(*self),
    {
        match passkey_credential_id(self.credential.as_slice()) {
            Some(_) => Some(copy_bytes(&self.credential)),
            None => None,
        }
    }

    /// The identifier under which a passkey is stored.
    pub fn cred_id(credential: &[u8]) -> (r: Option<String>)
        ensures
            opt_text(r) == credential_name(credential_id_of(credential@)),
    {
        match passkey_credential_id(credential) {
            Some(id) => Some(name_credential(id.as_slice())),
            None => None,
        }
    }
}

/// The identifier by which an authenticator knows a user: the same for every
/// passkey of theirs.
pub fn user_handle(username: &str) -> (r: String)
    ensures
        r@ == uuid_of_name(username@),
        uuid_of(r@) is Some,
{
    name_uuid(username)
}

impl Passkey {
    /// The row of a new passkey of a user.
    pub open spec fn enrols(
        &self,
        user_id: Seq<char>,
        domain: Seq<char>,
        credential: Seq<u8>,
        public_key: Seq<char>,
    ) -> bool {
        &&& credential_name(credential_id_of(credential)) == Some(self.id@)
        &&& self.user_id@ == user_id
        &&& self.domain_id@ == domain
        &&& self.active
        &&& self.credential@ == credential
        &&& self.public_key@ == public_key
    }
}

/// The row of a new passkey, active from the start, where its credential can
/// be read.
pub fn passkey_create(user_id: &str, domain: &str, credential: Vec<u8>, public_key: String) -> (r:
    Option<Passkey>)
    ensures
        r is Some <==> credential_id_of(credential@) is Some,
        r matches Some(p) ==> p.enrols(user_id@, domain@, credential@, public_key@) && p.credential
            == credential && p.public_key == public_key,
{
    match Passkey::cred_id(credential.as_slice()) {
        Some(id) => Some(
            Passkey {
                id,
                user_id: user_id.to_owned(),
                domain_id: domain.to_owned(),
                active: true,
                credential,
                public_key,
            },
        ),
        None => None,
    }
}

/// The active ones of some passkeys.
pub open spec fn active_ones(ps: Seq<Passkey>) -> Seq<Passkey> {
    ps.filter(|p: Passkey| p.active)
}

/// The passkeys behind some references.
pub open spec fn rows(v: Seq<&Passkey>) -> Seq<Passkey> {
    v.map_values(|p: &Passkey| *p)
}

proof fn lemma_active_step(ps: Seq<Passkey>, i: int)
    requires
        0 <= i < ps.len(),
    ensures
        active_ones(ps.take(i + 1)) == (if ps[i].active {
            active_ones(ps.take(i)).push(ps[i])
        } else {
            active_ones(ps.take(i))
        }),
{
    reveal(Seq::filter);
    assert(ps.take(i + 1).drop_last() =~= ps.take(i));
    assert(ps.take(i + 1).last() == ps[i]);
}

/// The active ones of some passkeys.
pub fn active_passkey(ps: &Vec<Passkey>) -> (r: Vec<&Passkey>)
    ensures
        rows(r@) == active_ones(ps@),
{
    let mut out: Vec<&Passkey> = Vec::new();
    let mut i: usize = 0;
    proof {
        reveal(Seq::filter);
        assert(rows(out@) =~= active_ones(ps@.take(0)));
    }
    while i < ps.len()
        invariant
            i <= ps@.len(),
            rows(out@) == active_ones(ps@.take(i as int)),
        decreases ps@.len() - i,
    {
        let ghost before = rows(out@);
        proof {
            lemma_active_step(ps@, i as int);
        }
        if ps[i].active {
            out.push(&ps[i]);
            proof {
                assert(rows(out@) =~= before.push(ps@[i as int]));
            }
        }
        i = i + 1;
    }
    proof {
        assert(ps@.take(ps@.len() as int) =~= ps@);
    }
    out
}

/// The passkeys that a user signs in with: the active ones that can be read.
pub open spec fn login_credentials(ps: Seq<Passkey>) -> Seq<Seq<u8>> {
    active_ones(ps).filter_map(|p: Passkey| readable(p))
}

proof fn lemma_login_step(ps: Seq<Passkey>, i: int)
    requires
        0 <= i < ps.len(),
    ensures
        ps.take(i + 1).filter_map(|p: Passkey| readable(p)) == (match readable(ps[i]) {
            Some(b) => ps.take(i).filter_map(|p: Passkey| readable(p)).push(b),
            None => ps.take(i).filter_map(|p: Passkey| readable(p)),
        }),
{
    assert(ps.take(i + 1).drop_last() =~= ps.take(i));
    assert(ps.take(i + 1).last() == ps[i]);
}

/// The passkeys that a user signs in with.
fn credentials_for_login(ps: &Vec<Passkey>) -> (r: Vec<Vec<u8>>)
    ensures
        bytes_of(r@) == login_credentials(ps@),
{
    let active = active_passkey(ps);
    let ghost all = rows(active@);
    let mut out: Vec<Vec<u8>> = Vec::new();
    let mut i: usize = 0;
    proof {
        assert(bytes_of(out@) =~= all.take(0).filter_map(|p: Passkey| readable(p)));
    }
    while i < active.len()
        invariant
            i <= active@.len(),
            all == rows(active@),
            bytes_of(out@) == all.take(i as int).filter_map(|p: Passkey| readable(p)),
        decreases active@.len() - i,
    {
        let ghost before = bytes_of(out@);
        proof {
            assert(all[i as int] == *active@[i as int]);
            lemma_login_step(all, i as int);
        }
        if let Some(b) = active[i].get_passkey() {
            let ghost last = b@;
            out.push(b);
            proof {
                assert(bytes_of(out@) =~= before.push(last));
            }
        }
        i = i + 1;
    }
    proof {
        assert(all.take(all.len() as int) =~= all);
    }
    out
}

/// The identifiers of the credentials that some passkeys hold, active or not,
/// as far as they can be read.
pub open spec fn known_ids(ps: Seq<Passkey>) -> Seq<Seq<u8>> {
    ps.filter_map(|p: Passkey| credential_id_of(p.credential@))
}

proof fn lemma_known_step(ps: Seq<Passkey>, i: int)
    requires
        0 <= i < ps.len(),
    ensures
        known_ids(ps.take(i + 1)) == (match credential_id_of(ps[i].credential@) {
            Some(id) => known_ids(ps.take(i)).push(id),
            None => known_ids(ps.take(i)),
        }),
{
    assert(ps.take(i + 1).drop_last() =~= ps.take(i));
    assert(ps.take(i + 1).last() == ps[i]);
}

fn ids_of(ps: &Vec<Passkey>) -> (r: Vec<Vec<u8>>)
    ensures
        bytes_of(r@) == known_ids(ps@),
{
    let mut out: Vec<Vec<u8>> = Vec::new();
    let mut i: usize = 0;
    proof {
        assert(bytes_of(out@) =~= known_ids(ps@.take(0)));
    }
    while i < ps.len()
        invariant
            i <= ps@.len(),
            bytes_of(out@) == known_ids(ps@.take(i as int)),
        decreases ps@.len() - i,
    {
        let ghost before = bytes_of(out@);
        proof {
            lemma_known_step(ps@, i as int);
        }
        if let Some(id) = passkey_credential_id(ps[i].credential.as_slice()) {
            let ghost last = id@;
            out.push(id);
            proof {
                assert(bytes_of(out@) =~= before.push(last));
            }
        }
        i = i + 1;
    }
    proof {
        assert(ps@.take(ps@.len() as int) =~= ps@);
    }
    out
}

/// The credentials that a registration excludes: all stored ones; no list at
/// all where there are none.
pub fn exclude_credentials(existing: Vec<Vec<u8>>) -> (r: Option<Vec<Vec<u8>>>)
    ensures
        r == (if existing@.len() == 0 {
            None
        } else {
            Some(existing)
        }),
        listed(r) == bytes_of(existing@),
{
    if existing.len() == 0 {
        proof {
            assert(bytes_of(existing@) =~= Seq::<Seq<u8>>::empty());
        }
        None
    } else {
        Some(existing)
    }
}

/// What is known so far of a request for a challenge.
pub struct ChallengeState {
    /// The user that the request names.
    pub username: Option<String>,
    /// The passkeys stored for the user.
    pub passkeys: Option<Vec<Passkey>>,
    /// The session of the request, where it has one.
    pub session: Option<Option<FreshSession>>,
}

/// What a request for a challenge needs to know or to do next.
pub enum ChallengeAsk {
    /// Look up the passkeys of this user.
    Passkeys(String),
    Session,
    /// Start signing this user in.
    Login(String),
    /// Start registering a passkey for this user.
    Register(String),
    /// Ask the user to sign in again.
    SignInAgain,
    Reply(Problem),
}

pub enum ChallengeAskView {
    Passkeys(Seq<char>),
    Session,
    Login(Seq<char>),
    Register(Seq<char>),
    SignInAgain,
    Reply(ProblemView),
}

impl View for ChallengeAsk {
    type V = ChallengeAskView;

    open spec fn view(&self) -> ChallengeAskView {
        match self {
            ChallengeAsk::Passkeys(u) => ChallengeAskView::Passkeys(u@),
            ChallengeAsk::Session => ChallengeAskView::Session,
            ChallengeAsk::Login(u) => ChallengeAskView::Login(u@),
            ChallengeAsk::Register(u) => ChallengeAskView::Register(u@),
            ChallengeAsk::SignInAgain => ChallengeAskView::SignInAgain,
            ChallengeAsk::Reply(p) => ChallengeAskView::Reply(p@),
        }
    }
}

pub open spec fn no_session() -> ProblemView {
    problem_of(401, ProblemKind::Unauthorized, ""@)
}

/// What a request for a challenge needs next: a user with an active passkey
/// that can be read signs in with it; any other user registers one, which takes a session of
/// that very user who signed in a short while ago.
pub open spec fn challenge_next(s: ChallengeState) -> ChallengeAskView {
    match s.username {
        None => ChallengeAskView::Reply(
            problem_of(400, ProblemKind::Validation, "Bad request: Missing request body"@),
        ),
        Some(user) => if user@.len() == 0 {
            ChallengeAskView::Reply(
                problem_of(400, ProblemKind::Validation, "Bad request: Empty user name"@),
            )
        } else {
            match s.passkeys {
                None => ChallengeAskView::Passkeys(user@),
                Some(ps) => if login_credentials(ps@).len() > 0 {
                    ChallengeAskView::Login(user@)
                } else {
                    match s.session {
                        None => ChallengeAskView::Session,
                        Some(None) => ChallengeAskView::Reply(no_session()),
                        Some(Some(session)) => if session.username@ != user@ {
                            ChallengeAskView::Reply(no_session())
                        } else if !session.fresh {
                            ChallengeAskView::SignInAgain
                        } else {
                            ChallengeAskView::Register(user@)
                        },
                    }
                },
            }
        },
    }
}

fn refuse_session() -> (r: Problem)
    ensures
        r@ == no_session(),
{
    problem(401, ProblemKind::Unauthorized, "")
}

/// Drives a request for a challenge from what is known to what is needed next.
pub fn request(s: &ChallengeState) -> (r: ChallengeAsk)
    ensures
        r@ == challenge_next(*s),
{
    let user = match &s.username {
        Some(u) => u,
        None => {
            return ChallengeAsk::Reply(
                problem(400, ProblemKind::Validation, "Bad request: Missing request body"),
            );
        },
    };
    if user.as_str().is_empty() {
        return ChallengeAsk::Reply(
            problem(400, ProblemKind::Validation, "Bad request: Empty user name"),
        );
    }
    match &s.passkeys {
        None => {
            return ChallengeAsk::Passkeys(user.clone());
        },
        Some(ps) => {
            let usable = credentials_for_login(ps);
            proof {
                assert(bytes_of(usable@).len() == usable@.len());
            }
            if usable.len() > 0 {
                return ChallengeAsk::Login(user.clone());
            }
        },
    }
    match &s.session {
        None => ChallengeAsk::Session,
        Some(None) => ChallengeAsk::Reply(refuse_session()),
        Some(Some(session)) => if !same(session.username.as_str(), user.as_str()) {
            ChallengeAsk::Reply(refuse_session())
        } else if !session.fresh {
            ChallengeAsk::SignInAgain
        } else {
            ChallengeAsk::Register(user.clone())
        },
    }
}

/// A passkey is registered only in a fresh session of the user it is for.
pub proof fn law_registration_needs_the_users_session(s: ChallengeState)
    requires
        challenge_next(s) is Register,
    ensures
        s.session is Some && s.session->0 is Some,
        s.session->0->0.fresh,
        s.session->0->0.username@ == s.username->0@,
        challenge_next(s) == ChallengeAskView::Register(s.username->0@),
{
}

/// The key under which a ceremony waits for its completion.
pub open spec fn ceremony_key_of(domain: Seq<char>, token: Seq<char>) -> Seq<char> {
    domain + ":"@ + token
}

pub fn ceremony_key(domain: &str, token: &str) -> (r: String)
    ensures
        r@ == ceremony_key_of(domain@, token@),
{
    cat3(domain, ":", token)
}

/// A challenge for an authenticator, in JSON, and the token of its ceremony.
pub struct PasskeyResponse {
    pub public_key_opts: String,
    pub token: String,
}

/// A store after a value was put under a key that was free.
pub open spec fn parked<S>(before: Map<Seq<char>, S>, after: Map<Seq<char>, S>, key: Seq<char>) -> bool {
    &&& !before.contains_key(key)
    &&& after.contains_key(key)
    &&& after == before.insert(key, after[key])
}

/// Whether some token of a domain is taken.
pub open spec fn token_taken<S>(flows: Map<Seq<char>, S>, domain: Seq<char>) -> bool {
    exists|token: Seq<char>| flows.contains_key(#[trigger] ceremony_key_of(domain, token))
}

/// Starts signing a user in with one of the stored passkeys. The state of the
/// ceremony is parked for the user under a token of its own; it accepts none
/// but the active passkeys of the user. Nothing is started where the domain
/// cannot run ceremonies for the origin, or where the token is taken.
pub fn start_passkey_login(
    flows: &mut OneShot<(Vec<u8>, String)>,
    stored: &Vec<Passkey>,
    domain: &str,
    origin: &str,
    username: &str,
) -> (r: Option<PasskeyResponse>)
    ensures
        (match r {
            Some(p) => {
                let key = ceremony_key_of(domain@, p.token@);
                &&& is_party(domain@, origin@)
                &&& parked(old(flows)@, final(flows)@, key)
                &&& final(flows)@[key].1@ == username@
                &&& accepts_only(final(flows)@[key].0@, login_credentials(stored@))
            },
            None => final(flows)@ == old(flows)@ && (!is_party(domain@, origin@) || token_taken(
                old(flows)@,
                domain@,
            )),
        }),
{
    let creds = credentials_for_login(stored);
    proof {
        assert forall|i: int| 0 <= i < creds@.len() implies credential_id_of(
            (#[trigger] creds@[i])@,
        ) is Some by {
            assert(bytes_of(creds@)[i] == creds@[i]@);
            lemma_login_credentials(active_ones(stored@), i);
        }
    }
    match start_assertion(domain, origin, "Passkey", &creds) {
        Some((challenge, state)) => {
            let token = random_id();
            let key = ceremony_key(domain, token.as_str());
            if flows.put(key.as_str(), (state, username.to_owned())) {
                Some(PasskeyResponse { public_key_opts: challenge, token })
            } else {
                None
            }
        },
        None => None,
    }
}

pub(crate) proof fn lemma_login_credentials(ps: Seq<Passkey>, i: int)
    requires
        0 <= i < ps.filter_map(|p: Passkey| readable(p)).len(),
    ensures
        credential_id_of(ps.filter_map(|p: Passkey| readable(p))[i]) is Some,
        exists|j: int|
            0 <= j < ps.len() && (#[trigger] ps[j]).credential@ == ps.filter_map(
                |p: Passkey| readable(p),
            )[i],
    decreases ps.len(),
{
    let rest = ps.drop_last();
    let front = rest.filter_map(|p: Passkey| readable(p));
    if i < front.len() {
        lemma_login_credentials(rest, i);
        let j = choose|j: int|
            0 <= j < rest.len() && (#[trigger] rest[j]).credential@ == front[i];
        assert(ps[j] == rest[j]);
    } else {
        assert(ps[ps.len() - 1] == ps.last());
    }
}

/// Starts registering a passkey for a user. The state of the ceremony is
/// parked under a token of its own; none of the stored credentials, active or
/// not, can be registered again. Nothing is started where the domain cannot
/// run ceremonies for the origin, where the user has no name, or where the
/// token is taken.
pub fn start_passkey_registration(
    flows: &mut OneShot<Vec<u8>>,
    stored: &Vec<Passkey>,
    domain: &str,
    origin: &str,
    username: &str,
) -> (r: Option<PasskeyResponse>)
    ensures
        (match r {
            Some(p) => {
                let key = ceremony_key_of(domain@, p.token@);
                &&& is_party(domain@, origin@)
                &&& username@.len() > 0
                &&& parked(old(flows)@, final(flows)@, key)
                &&& excludes(final(flows)@[key]@, known_ids(stored@))
            },
            None => final(flows)@ == old(flows)@ && (!is_party(domain@, origin@) || username@.len()
                == 0 || token_taken(old(flows)@, domain@)),
        }),
{
    let exclude = exclude_credentials(ids_of(stored));
    let handle = user_handle(username);
    match start_registration(
        domain,
        origin,
        "Passkey",
        handle.as_str(),
        username,
        username,
        exclude,
    ) {
        Some((challenge, state)) => {
            let token = random_id();
            let key = ceremony_key(domain, token.as_str());
            if flows.put(key.as_str(), state) {
                Some(PasskeyResponse { public_key_opts: challenge, token })
            } else {
                None
            }
        },
        None => None,
    }
}

/// Why a ceremony is not completed.
#[derive(Clone, Copy, Debug, PartialEq, Eq, Structural)]
pub enum CeremonyFault {
    /// The domain cannot run ceremonies for the origin.
    NoParty,
    /// No ceremony waits under the token.
    Unrecognized,
    /// The ceremony was started for another user.
    OtherUser,
    /// What was shown does not hold against the ceremony.
    Refused,
}

/// What a registration comes to: the new passkey, as far as it can be written
/// down.
pub open spec fn registration_outcome(
    flows: Map<Seq<char>, Vec<u8>>,
    domain: Seq<char>,
    origin: Seq<char>,
    token: Seq<char>,
    credential: Seq<u8>,
) -> Result<Option<Seq<u8>>, CeremonyFault> {
    if !is_party(domain, origin) {
        Err(CeremonyFault::NoParty)
    } else {
        match lookup(flows, ceremony_key_of(domain, token)) {
            None => Err(CeremonyFault::Unrecognized),
            Some(state) => match registration_of(domain, origin, "Passkey"@, state@, credential) {
                Some(p) => Ok(p),
                None => Err(CeremonyFault::Refused),
            },
        }
    }
}

/// The ceremonies that are left after a request to complete one: it is gone,
/// whatever it came to, unless the domain cannot run ceremonies at all.
pub open spec fn flows_left<S>(
    flows: Map<Seq<char>, S>,
    domain: Seq<char>,
    origin: Seq<char>,
    token: Seq<char>,
) -> Map<Seq<char>, S> {
    if is_party(domain, origin) {
        flows.remove(ceremony_key_of(domain, token))
    } else {
        flows
    }
}

/// Completes a registration: takes its state out of the store and holds what
/// the authenticator answered against it.
pub fn finish_passkey_registration(
    flows: &mut OneShot<Vec<u8>>,
    domain: &str,
    origin: &str,
    token: &str,
    credential: &[u8],
) -> (r: Result<Option<Vec<u8>>, CeremonyFault>)
    ensures
        final(flows)@ == flows_left(old(flows)@, domain@, origin@, token@),
        (match r {
            Ok(Some(p)) => Ok(Some(p@)),
            Ok(None) => Ok(None),
            Err(e) => Err(e),
        }) == registration_outcome(old(flows)@, domain@, origin@, token@, credential@),
{
    if !check_party(domain, origin) {
        return Err(CeremonyFault::NoParty);
    }
    match flows.take(ceremony_key(domain, token).as_str()) {
        Some(state) => match finish_registration(
            domain,
            origin,
            "Passkey",
            state.as_slice(),
            credential,
        ) {
            Some(p) => Ok(p),
            None => Err(CeremonyFault::Refused),
        },
        None => Err(CeremonyFault::Unrecognized),
    }
}

/// What a sign-in comes to: the identifier of the credential that was shown,
/// and the outcome as it is written down. It must have been started for the
/// user that the request names.
pub open spec fn login_outcome(
    flows: Map<Seq<char>, (Vec<u8>, String)>,
    domain: Seq<char>,
    origin: Seq<char>,
    token: Seq<char>,
    username: Seq<char>,
    credential: Seq<u8>,
) -> Result<(Seq<u8>, Seq<u8>), CeremonyFault> {
    if !is_party(domain, origin) {
        Err(CeremonyFault::NoParty)
    } else {
        match lookup(flows, ceremony_key_of(domain, token)) {
            None => Err(CeremonyFault::Unrecognized),
            Some((state, user)) => if user@ != username {
                Err(CeremonyFault::OtherUser)
            } else {
                match assertion_of(domain, origin, "Passkey"@, state@, credential) {
                    Some(shown) => Ok(shown),
                    None => Err(CeremonyFault::Refused),
                }
            },
        }
    }
}

/// Completes a sign-in: takes its state out of the store and, for the user
/// that it was started for alone, holds what the authenticator answered against
/// it.
pub fn finish_passkey_login(
    flows: &mut OneShot<(Vec<u8>, String)>,
    domain: &str,
    origin: &str,
    token: &str,
    username: &str,
    credential: &[u8],
) -> (r: Result<(Vec<u8>, Vec<u8>), CeremonyFault>)
    ensures
        final(flows)@ == flows_left(old(flows)@, domain@, origin@, token@),
        (match r {
            Ok(shown) => Ok((shown.0@, shown.1@)),
            Err(e) => Err(e),
        }) == login_outcome(old(flows)@, domain@, origin@, token@, username@, credential@),
{
    if !check_party(domain, origin) {
        return Err(CeremonyFault::NoParty);
    }
    match flows.take(ceremony_key(domain, token).as_str()) {
        Some((state, user)) => if same(user.as_str(), username) {
            match finish_assertion(domain, origin, "Passkey", state.as_slice(), credential) {
                Some(shown) => Ok(shown),
                None => Err(CeremonyFault::Refused),
            }
        } else {
            Err(CeremonyFault::OtherUser)
        },
        None => Err(CeremonyFault::Unrecognized),
    }
}

/// A sign-in shows one of the active passkeys that its user had when it was
/// started, and no other credential.
pub proof fn law_sign_ins_show_an_offered_passkey(
    stored: Seq<Passkey>,
    state: Seq<u8>,
    domain: Seq<char>,
    origin: Seq<char>,
    credential: Seq<u8>,
    shown: (Seq<u8>, Seq<u8>),
)
    requires
        accepts_only(state, login_credentials(stored)),
        assertion_of(domain, origin, "Passkey"@, state, credential) == Some(shown),
    ensures
        exists|j: int|
            0 <= j < stored.len() && (#[trigger] stored[j]).active && credential_id_of(
                stored[j].credential@,
            ) == Some(shown.0),
{
    let active = active_ones(stored);
    let creds = login_credentials(stored);
    let i = choose|i: int|
        0 <= i < creds.len() && credential_id_of(#[trigger] creds[i]) == Some(shown.0);
    lemma_login_credentials(active, i);
    let k = choose|k: int| 0 <= k < active.len() && (#[trigger] active[k]).credential@ == creds[i];
    stored.lemma_filter_contains_rev(|p: Passkey| p.active, active[k]);
    lemma_active_are_active(stored, k);
    let j = choose|j: int| 0 <= j < stored.len() && stored[j] == active[k];
    assert(stored[j].active);
}

pub(crate) proof fn lemma_active_are_active(ps: Seq<Passkey>, k: int)
    requires
        0 <= k < active_ones(ps).len(),
    ensures
        active_ones(ps)[k].active,
    decreases ps.len(),
{
    reveal(Seq::filter);
    let rest = ps.drop_last();
    if k < active_ones(rest).len() {
        lemma_active_are_active(rest, k);
    }
}

/// No credential that a user has, active or not, is registered for them again.
pub proof fn law_known_credentials_are_not_registered_again(
    stored: Seq<Passkey>,
    state: Seq<u8>,
    domain: Seq<char>,
    origin: Seq<char>,
    credential: Seq<u8>,
    passkey: Seq<u8>,
    j: int,
)
    requires
        excludes(state, known_ids(stored)),
        registration_of(domain, origin, "Passkey"@, state, credential) == Some(Some(passkey)),
        0 <= j < stored.len(),
        credential_id_of(stored[j].credential@) is Some,
    ensures
        credential_id_of(passkey) != credential_id_of(stored[j].credential@),
{
    lemma_known_ids(stored, j);
}

pub(crate) proof fn lemma_known_ids(ps: Seq<Passkey>, j: int)
    requires
        0 <= j < ps.len(),
        credential_id_of(ps[j].credential@) is Some,
    ensures
        known_ids(ps).contains(credential_id_of(ps[j].credential@)->0),
    decreases ps.len(),
{
    let rest = ps.drop_last();
    let id = credential_id_of(ps[j].credential@)->0;
    if j < rest.len() {
        assert(rest[j] == ps[j]);
        lemma_known_ids(rest, j);
        let i = choose|i: int| 0 <= i < known_ids(rest).len() && known_ids(rest)[i] == id;
        assert(known_ids(ps)[i] == id);
    } else {
        assert(ps.last() == ps[j]);
        assert(known_ids(ps)[known_ids(ps).len() - 1] == id);
    }
}

/// What happens to the ceremonies that wait.
pub enum FlowOp<S> {
    Start { domain: Seq<char>, token: Seq<char>, state: S },
    /// A request to complete the ceremony of this token, by whoever.
    Finish { domain: Seq<char>, origin: Seq<char>, token: Seq<char> },
}

impl<S> FlowOp<S> {
    /// What it does to the store of ceremonies.
    pub open spec fn on_store(self) -> StoreOp<S> {
        match self {
            FlowOp::Start { domain, token, state } => StoreOp::Put(
                ceremony_key_of(domain, token),
                state,
            ),
            FlowOp::Finish { domain, origin, token } => if is_party(domain, origin) {
                StoreOp::Take(ceremony_key_of(domain, token))
            } else {
                StoreOp::Leave
            },
        }
    }
}

/// The ceremonies that wait after a run.
pub open spec fn flow_run<S>(ops: Seq<FlowOp<S>>) -> Map<Seq<char>, S> {
    store_run(ops.map_values(|o: FlowOp<S>| o.on_store()))
}

/// A ceremony is completed at most once: in any run, a request to complete it,
/// whether it succeeded or not and whoever made it, spends the token, and no
/// later request finds the ceremony.
pub proof fn law_flow_tokens_are_spent<S>(
    ops: Seq<FlowOp<S>>,
    i: int,
    j: int,
    domain: Seq<char>,
    origin: Seq<char>,
    token: Seq<char>,
)
    requires
        0 <= i < j <= ops.len(),
        ops[i] == (FlowOp::<S>::Finish { domain, origin, token }),
        is_party(domain, origin),
        forall|k: int|
            i < k < j ==> !((#[trigger] ops[k]) matches FlowOp::Start {
                domain: d,
                token: t,
                state,
            } && ceremony_key_of(d, t) == ceremony_key_of(domain, token)),
    ensures
        lookup(flow_run(ops.take(j)), ceremony_key_of(domain, token)) is None,
{
    let f = |o: FlowOp<S>| o.on_store();
    let stored = ops.map_values(f);
    assert(stored.take(j) =~= ops.take(j).map_values(f));
    assert forall|k: int| i < k < j implies !((#[trigger] stored[k]) matches StoreOp::Put(other, _)
        && other == ceremony_key_of(domain, token)) by {
        assert(stored[k] == ops[k].on_store());
    }
    assert(stored[i] == ops[i].on_store());
    law_taken_is_gone(stored, i, j, ceremony_key_of(domain, token));
}

/// A sign-in is completed at most once: in any run, once its token was used, by
/// whoever and with whatever credential, it is not recognized any more.
pub proof fn law_sign_ins_are_completed_once(
    ops: Seq<FlowOp<(Vec<u8>, String)>>,
    i: int,
    j: int,
    domain: Seq<char>,
    origin: Seq<char>,
    token: Seq<char>,
    username: Seq<char>,
    credential: Seq<u8>,
)
    requires
        0 <= i < j <= ops.len(),
        ops[i] == (FlowOp::<(Vec<u8>, String)>::Finish { domain, origin, token }),
        is_party(domain, origin),
        forall|k: int|
            i < k < j ==> !((#[trigger] ops[k]) matches FlowOp::Start {
                domain: d,
                token: t,
                state,
            } && ceremony_key_of(d, t) == ceremony_key_of(domain, token)),
    ensures
        login_outcome(flow_run(ops.take(j)), domain, origin, token, username, credential) == Err::<
            (Seq<u8>, Seq<u8>),
            CeremonyFault,
        >(CeremonyFault::Unrecognized),
{
    law_flow_tokens_are_spent(ops, i, j, domain, origin, token);
}

/// What the credential of a request is.
#[derive(Clone, Copy, Debug, PartialEq, Eq, Structural)]
pub enum CredentialKind {
    Registration,
    Assertion,
    Neither,
}

/// What a credential in JSON is: the answer to a registration where it can be
/// read so, else the answer to a sign-in where it can be read so.
pub open spec fn kind_of(credential: Seq<u8>) -> CredentialKind {
    if reads_as_registration(credential) {
        CredentialKind::Registration
    } else if reads_as_assertion(credential) {
        CredentialKind::Assertion
    } else {
        CredentialKind::Neither
    }
}

/// What a credential in JSON is.
pub fn credential_kind(credential: &[u8]) -> (r: CredentialKind)
    ensures
        r == kind_of(credential@),
{
    if is_registration(credential) {
        CredentialKind::Registration
    } else if is_assertion(credential) {
        CredentialKind::Assertion
    } else {
        CredentialKind::Neither
    }
}

/// A request to complete a ceremony.
pub struct VerifyRequest {
    pub username: String,
    /// What the authenticator answered, in JSON.
    pub credential: Vec<u8>,
    pub token: String,
}

/// What a ceremony came to.
pub enum Finished {
    /// The ceremony is not completed.
    Refused,
    /// The new passkey, where it can be written down.
    Registered(Option<Vec<u8>>),
    /// The identifier of the credential that was shown, and the outcome.
    Shown { id: Vec<u8>, outcome: Vec<u8> },
}

pub enum FinishedView {
    Refused,
    Registered(Option<Seq<u8>>),
    Shown { id: Seq<u8>, outcome: Seq<u8> },
}

impl View for Finished {
    type V = FinishedView;

    open spec fn view(&self) -> FinishedView {
        match self {
            Finished::Refused => FinishedView::Refused,
            Finished::Registered(Some(p)) => FinishedView::Registered(Some(p@)),
            Finished::Registered(None) => FinishedView::Registered(None),
            Finished::Shown { id, outcome } => FinishedView::Shown { id: id@, outcome: outcome@ },
        }
    }
}

/// What is known so far of a request to complete a ceremony.
pub struct CompleteState {
    pub domain: String,
    /// The address at which clients reach the server.
    pub origin: String,
    /// The request; none where the tenant is unknown or it cannot be read.
    pub body: Option<VerifyRequest>,
    /// The session that the request was made in, where there is one.
    pub session: Option<SessionFactors>,
    /// What the ceremony came to.
    pub finished: Option<Finished>,
    /// Whether the new passkey was stored.
    pub stored: Option<bool>,
    /// The passkeys stored for the user.
    pub passkeys: Option<Vec<Passkey>>,
    /// Whether the passkey that was used is written back.
    pub updated: bool,
    /// The session's token, where it was signed.
    pub minted: Option<Option<String>>,
}

/// What a request to complete a ceremony needs to know or to do next.
pub enum CompleteAsk {
    /// Complete the ceremony, by [`finish`].
    Finish,
    /// Store this new passkey.
    Store { credential: Vec<u8>, public_key: String },
    /// Look up the passkeys of this user.
    Passkeys(String),
    /// Write this passkey back under its identifier.
    Update { id: String, credential: Vec<u8> },
    /// Sign a session for this user, with these factors.
    Mint { name: String, factors: Vec<String> },
    Done(String),
    Reply(Problem),
}

pub enum CompleteAskView {
    Finish,
    Store { credential: Seq<u8>, public_key: Seq<char> },
    Passkeys(Seq<char>),
    Update { id: Seq<char>, credential: Seq<u8> },
    Mint { name: Seq<char>, factors: Seq<Seq<char>> },
    Done(Seq<char>),
    Reply(ProblemView),
}

impl View for CompleteAsk {
    type V = CompleteAskView;

    open spec fn view(&self) -> CompleteAskView {
        match self {
            CompleteAsk::Finish => CompleteAskView::Finish,
            CompleteAsk::Store { credential, public_key } => CompleteAskView::Store {
                credential: credential@,
                public_key: public_key@,
            },
            CompleteAsk::Passkeys(u) => CompleteAskView::Passkeys(u@),
            CompleteAsk::Update { id, credential } => CompleteAskView::Update {
                id: id@,
                credential: credential@,
            },
            CompleteAsk::Mint { name, factors } => CompleteAskView::Mint {
                name: name@,
                factors: texts(factors@),
            },
            CompleteAsk::Done(t) => CompleteAskView::Done(t@),
            CompleteAsk::Reply(p) => CompleteAskView::Reply(p@),
        }
    }
}

/// What completing the ceremony of a request comes to, given the ceremonies
/// that wait.
pub open spec fn ceremony_result(
    s: CompleteState,
    registrations: Map<Seq<char>, Vec<u8>>,
    logins: Map<Seq<char>, (Vec<u8>, String)>,
) -> FinishedView {
    match s.body {
        None => FinishedView::Refused,
        Some(b) => match kind_of(b.credential@) {
            CredentialKind::Registration => match registration_outcome(
                registrations,
                s.domain@,
                s.origin@,
                b.token@,
                b.credential@,
            ) {
                Ok(p) => FinishedView::Registered(p),
                Err(_) => FinishedView::Refused,
            },
            CredentialKind::Assertion => match login_outcome(
                logins,
                s.domain@,
                s.origin@,
                b.token@,
                b.username@,
                b.credential@,
            ) {
                Ok(shown) => FinishedView::Shown { id: shown.0, outcome: shown.1 },
                Err(_) => FinishedView::Refused,
            },
            CredentialKind::Neither => FinishedView::Refused,
        },
    }
}

/// The kind of the credential of a request.
pub open spec fn body_kind(s: CompleteState) -> CredentialKind {
    match s.body {
        Some(b) => kind_of(b.credential@),
        None => CredentialKind::Neither,
    }
}

/// Completes the ceremony of a request, with what waits in the store of its
/// kind; the other store stays as it is.
pub fn finish(
    s: &CompleteState,
    registrations: &mut OneShot<Vec<u8>>,
    logins: &mut OneShot<(Vec<u8>, String)>,
) -> (r: Finished)
    ensures
        r@ == ceremony_result(*s, old(registrations)@, old(logins)@),
        final(registrations)@ == (if body_kind(*s) == CredentialKind::Registration {
            flows_left(old(registrations)@, s.domain@, s.origin@, s.body->0.token@)
        } else {
            old(registrations)@
        }),
        final(logins)@ == (if body_kind(*s) == CredentialKind::Assertion {
            flows_left(old(logins)@, s.domain@, s.origin@, s.body->0.token@)
        } else {
            old(logins)@
        }),
{
    let b = match &s.body {
        Some(b) => b,
        None => {
            return Finished::Refused;
        },
    };
    match credential_kind(b.credential.as_slice()) {
        CredentialKind::Registration => match finish_passkey_registration(
            registrations,
            s.domain.as_str(),
            s.origin.as_str(),
            b.token.as_str(),
            b.credential.as_slice(),
        ) {
            Ok(p) => Finished::Registered(p),
            Err(_) => Finished::Refused,
        },
        CredentialKind::Assertion => match finish_passkey_login(
            logins,
            s.domain.as_str(),
            s.origin.as_str(),
            b.token.as_str(),
            b.username.as_str(),
            b.credential.as_slice(),
        ) {
            Ok((id, outcome)) => Finished::Shown { id, outcome },
            Err(_) => Finished::Refused,
        },
        CredentialKind::Neither => Finished::Refused,
    }
}

pub open spec fn unreadable() -> ProblemView {
    problem_of(400, ProblemKind::Validation, "Failed to parse request body"@)
}

/// The first of some passkeys that is stored under a name.
pub open spec fn first_named(ps: Seq<Passkey>, name: Seq<char>) -> Option<Passkey>
    decreases ps.len(),
{
    if ps.len() == 0 {
        None
    } else if ps[0].id@ == name {
        Some(ps[0])
    } else {
        first_named(ps.skip(1), name)
    }
}

fn find_named<'a>(ps: &Vec<&'a Passkey>, name: &str) -> (r: Option<&'a Passkey>)
    ensures
        (match r {
            Some(p) => Some(*p),
            None => None,
        }) == first_named(rows(ps@), name@),
{
    let ghost all = rows(ps@);
    let mut i: usize = 0;
    proof {
        assert(all.skip(0) =~= all);
    }
    while i < ps.len()
        invariant
            i <= ps@.len(),
            all == rows(ps@),
            first_named(all, name@) == first_named(all.skip(i as int), name@),
        decreases ps@.len() - i,
    {
        proof {
            assert(all[i as int] == *ps@[i as int]);
            assert(all.skip(i as int)[0] == all[i as int]);
            assert(all.skip(i as int).skip(1) =~= all.skip(i + 1));
        }
        if same(ps[i].id.as_str(), name) {
            return Some(ps[i]);
        }
        i = i + 1;
    }
    None
}

/// What a passkey becomes by a sign-in with it, where that changes it.
pub open spec fn update_due(p: Passkey, outcome: Seq<u8>) -> Option<Seq<u8>> {
    match updated_of(p.credential@, outcome) {
        Some((Some(true), bytes)) => Some(bytes),
        _ => None,
    }
}

/// What a passkey becomes by a sign-in with it, where that changes it.
pub fn update_credential(p: &Passkey, outcome: &[u8]) -> (r: Option<Vec<u8>>)
    ensures
        (match r {
            Some(b) => Some(b@),
            None => None,
        }) == update_due(*p, outcome@),
{
    match update_passkey(p.credential.as_slice(), outcome) {
        Some((Some(changed), bytes)) => if changed {
            Some(bytes)
        } else {
            None
        },
        _ => None,
    }
}

/// What a request to complete a ceremony needs next. A registration needs the
/// session of the user it is for; an assertion must show one of the user's own
/// active credentials.
pub open spec fn complete_next(s: CompleteState) -> CompleteAskView {
    match s.body {
        None => CompleteAskView::Reply(unreadable()),
        Some(b) => match kind_of(b.credential@) {
            CredentialKind::Neither => CompleteAskView::Reply(unreadable()),
            CredentialKind::Registration => if session_user(s) != Some(b.username@) {
                CompleteAskView::Reply(no_session())
            } else {
                match s.finished {
                    None => CompleteAskView::Finish,
                    Some(f) => complete_registration(s, b.username@, f@),
                }
            },
            CredentialKind::Assertion => match s.finished {
                None => CompleteAskView::Finish,
                Some(f) => complete_login(s, b.username@, f@),
            },
        },
    }
}

/// What a registration needs: its passkey stored, with its public key, before
/// a session is signed.
pub open spec fn complete_registration(s: CompleteState, user: Seq<char>, f: FinishedView) -> CompleteAskView {
    match f {
        FinishedView::Registered(Some(p)) => match public_key_of(p) {
            None => CompleteAskView::Reply(problem_of(500, ProblemKind::Server, "error"@)),
            Some(public_key) => match s.stored {
                None => CompleteAskView::Store { credential: p, public_key },
                Some(false) => CompleteAskView::Reply(
                    problem_of(500, ProblemKind::Server, "Failed to persist passkey"@),
                ),
                Some(true) => complete_mint(s, user),
            },
        },
        FinishedView::Registered(None) => CompleteAskView::Reply(
            problem_of(500, ProblemKind::Server, "error"@),
        ),
        _ => CompleteAskView::Reply(no_session()),
    }
}

/// What a sign-in needs: the credential that was shown among the user's active
/// ones, and written back where the sign-in changed it, before a session is
/// signed.
pub open spec fn complete_login(s: CompleteState, user: Seq<char>, f: FinishedView) -> CompleteAskView {
    match f {
        FinishedView::Shown { id, outcome } => match s.passkeys {
            None => CompleteAskView::Passkeys(user),
            Some(ps) => match first_named(active_ones(ps@), base64url(id)) {
                None => CompleteAskView::Reply(no_session()),
                Some(p) => match update_due(p, outcome) {
                    Some(credential) => if s.updated {
                        complete_mint(s, user)
                    } else {
                        CompleteAskView::Update { id: p.id@, credential }
                    },
                    None => complete_mint(s, user),
                },
            },
        },
        _ => CompleteAskView::Reply(no_session()),
    }
}

/// The user of the request's session, where it has one.
pub open spec fn session_user(s: CompleteState) -> Option<Seq<char>> {
    match s.session {
        Some(v) => Some(v.username@),
        None => None,
    }
}

/// What a completed ceremony needs: a session for its user, with the passkey
/// and the factors of a session of the same user.
pub open spec fn complete_mint(s: CompleteState, user: Seq<char>) -> CompleteAskView {
    match s.minted {
        None => CompleteAskView::Mint {
            name: user,
            factors: with_factor_view(inherited(s.session, user), "passkey"@),
        },
        Some(None) => CompleteAskView::Reply(no_session()),
        Some(Some(token)) => CompleteAskView::Done(token@),
    }
}

fn mint_session(s: &CompleteState, user: &str) -> (r: CompleteAsk)
    ensures
        r@ == complete_mint(*s, user@),
{
    match &s.minted {
        None => CompleteAsk::Mint {
            name: user.to_owned(),
            factors: with_factor(inherit_factors(&s.session, user), "passkey"),
        },
        Some(None) => CompleteAsk::Reply(refuse_session()),
        Some(Some(token)) => CompleteAsk::Done(token.clone()),
    }
}

fn store_new(s: &CompleteState, user: &str, f: &Finished) -> (r: CompleteAsk)
    ensures
        r@ == complete_registration(*s, user@, f@),
{
    let p = match f {
        Finished::Registered(Some(p)) => p,
        Finished::Registered(None) => {
            return CompleteAsk::Reply(problem(500, ProblemKind::Server, "error"));
        },
        _ => {
            return CompleteAsk::Reply(refuse_session());
        },
    };
    let public_key = match passkey_public_key(p.as_slice()) {
        Some(k) => k,
        None => {
            return CompleteAsk::Reply(problem(500, ProblemKind::Server, "error"));
        },
    };
    match s.stored {
        None => CompleteAsk::Store { credential: copy_bytes(p), public_key },
        Some(stored) => if stored {
            mint_session(s, user)
        } else {
            CompleteAsk::Reply(problem(500, ProblemKind::Server, "Failed to persist passkey"))
        },
    }
}

fn accept_shown(s: &CompleteState, user: &str, f: &Finished) -> (r: CompleteAsk)
    ensures
        r@ == complete_login(*s, user@, f@),
{
    let (id, outcome) = match f {
        Finished::Shown { id, outcome } => (id, outcome),
        _ => {
            return CompleteAsk::Reply(refuse_session());
        },
    };
    let ps = match &s.passkeys {
        Some(ps) => ps,
        None => {
            return CompleteAsk::Passkeys(user.to_owned());
        },
    };
    let active = active_passkey(ps);
    let name = name_credential(id.as_slice());
    let p = match find_named(&active, name.as_str()) {
        Some(p) => p,
        None => {
            return CompleteAsk::Reply(refuse_session());
        },
    };
    match update_credential(p, outcome.as_slice()) {
        Some(credential) => if s.updated {
            mint_session(s, user)
        } else {
            CompleteAsk::Update { id: p.id.clone(), credential }
        },
        None => mint_session(s, user),
    }
}

/// Drives a request to complete a ceremony from what is known to what is
/// needed next.
pub fn verify(s: &CompleteState) -> (r: CompleteAsk)
    ensures
        r@ == complete_next(*s),
{
    let b = match &s.body {
        Some(b) => b,
        None => {
            return CompleteAsk::Reply(
                problem(400, ProblemKind::Validation, "Failed to parse request body"),
            );
        },
    };
    match credential_kind(b.credential.as_slice()) {
        CredentialKind::Neither => CompleteAsk::Reply(
            problem(400, ProblemKind::Validation, "Failed to parse request body"),
        ),
        CredentialKind::Registration => {
            let own = match &s.session {
                Some(v) => same(v.username.as_str(), b.username.as_str()),
                None => false,
            };
            if !own {
                return CompleteAsk::Reply(refuse_session());
            }
            match &s.finished {
                None => CompleteAsk::Finish,
                Some(f) => store_new(s, b.username.as_str(), f),
            }
        },
        CredentialKind::Assertion => match &s.finished {
            None => CompleteAsk::Finish,
            Some(f) => accept_shown(s, b.username.as_str(), f),
        },
    }
}

pub(crate) proof fn lemma_first_named(ps: Seq<Passkey>, name: Seq<char>)
    ensures
        first_named(ps, name) matches Some(p) ==> p.id@ == name && ps.contains(p),
    decreases ps.len(),
{
    if ps.len() > 0 && ps[0].id@ != name {
        lemma_first_named(ps.skip(1), name);
        if let Some(p) = first_named(ps.skip(1), name) {
            let i = choose|i: int| 0 <= i < ps.skip(1).len() && ps.skip(1)[i] == p;
            assert(ps[i + 1] == p);
        }
    }
}

/// A session is signed for a completed ceremony alone, and for the user that
/// the request names: a sign-in that was started for that very user, whose
/// credential holds against the parked challenge and is one of the user's
/// active ones; or a registration in that user's session, whose credential
/// holds against the parked challenge.
pub proof fn law_sessions_belong_to_the_ceremonys_user(
    s: CompleteState,
    registrations: Map<Seq<char>, Vec<u8>>,
    logins: Map<Seq<char>, (Vec<u8>, String)>,
)
    requires
        s.finished matches Some(f) && f@ == ceremony_result(s, registrations, logins),
        complete_next(s) is Mint,
    ensures
        s.body is Some,
        complete_next(s) == (CompleteAskView::Mint {
            name: s.body->0.username@,
            factors: with_factor_view(inherited(s.session, s.body->0.username@), "passkey"@),
        }),
        body_kind(s) == CredentialKind::Assertion ==> {
            let b = s.body->0;
            let flow = lookup(logins, ceremony_key_of(s.domain@, b.token@));
            &&& flow is Some
            &&& (flow->0).1@ == b.username@
            &&& assertion_of(s.domain@, s.origin@, "Passkey"@, (flow->0).0@, b.credential@) is Some
            &&& s.passkeys is Some
            &&& exists|j: int|
                0 <= j < s.passkeys->0@.len() && (#[trigger] s.passkeys->0@[j]).active
                    && s.passkeys->0@[j].id@ == base64url(
                    (assertion_of(
                        s.domain@,
                        s.origin@,
                        "Passkey"@,
                        (flow->0).0@,
                        b.credential@,
                    )->0).0,
                )
        },
        body_kind(s) != CredentialKind::Assertion ==> {
            let b = s.body->0;
            let flow = lookup(registrations, ceremony_key_of(s.domain@, b.token@));
            &&& session_user(s) == Some(b.username@)
            &&& flow is Some
            &&& registration_of(s.domain@, s.origin@, "Passkey"@, flow->0@, b.credential@) is Some
            &&& s.stored == Some(true)
        },
{
    let b = s.body->0;
    if body_kind(s) == CredentialKind::Assertion {
        let ps = s.passkeys->0@;
        let shown = login_outcome(
            logins,
            s.domain@,
            s.origin@,
            b.token@,
            b.username@,
            b.credential@,
        )->Ok_0;
        let id = shown.0;
        lemma_first_named(active_ones(ps), base64url(id));
        let p = first_named(active_ones(ps), base64url(id))->0;
        let k = choose|k: int| 0 <= k < active_ones(ps).len() && active_ones(ps)[k] == p;
        lemma_active_are_active(ps, k);
        ps.lemma_filter_contains_rev(|p: Passkey| p.active, p);
        let j = choose|j: int| 0 <= j < ps.len() && ps[j] == p;
        assert(ps[j].active);
    }
}

/// Why an administrator does not deactivate a user's passkeys.
pub open spec fn deactivation_fault(
    has_session: bool,
    readable: bool,
    user_known: bool,
    refused: Option<ProblemView>,
    done: bool,
) -> Option<ProblemView> {
    if !has_session {
        Some(no_session())
    } else if !readable {
        Some(unreadable())
    } else if !user_known {
        Some(problem_of(400, ProblemKind::Validation, "Unknown user"@))
    } else if refused is Some {
        refused
    } else if !done {
        Some(problem_of(400, ProblemKind::Validation, "Failed to deactivate passkeys"@))
    } else {
        None
    }
}

/// What deactivating a user's passkeys by an administrator comes to.
pub fn deactivate(
    has_session: bool,
    readable: bool,
    user_known: bool,
    refused: Option<Problem>,
    done: bool,
) -> (r: Result<(), Problem>)
    ensures
        (match r {
            Ok(_) => None,
            Err(p) => Some(p@),
        }) == deactivation_fault(
            has_session,
            readable,
            user_known,
            match refused {
                Some(p) => Some(p@),
                None => None,
            },
            done,
        ),
{
    if !has_session {
        return Err(refuse_session());
    }
    if !readable {
        return Err(problem(400, ProblemKind::Validation, "Failed to parse request body"));
    }
    if !user_known {
        return Err(problem(400, ProblemKind::Validation, "Unknown user"));
    }
    if let Some(p) = refused {
        return Err(p);
    }
    if done {
        Ok(())
    } else {
        Err(problem(400, ProblemKind::Validation, "Failed to deactivate passkeys"))
    }
}

/// What removing one's own passkeys comes to, before anything is done.
pub enum RemoveOwn {
    /// Ask the user to sign in again.
    SignInAgain,
    Refuse(Problem),
    /// Deactivate the passkeys of this user.
    Deactivate(String),
}

/// Decides on removing one's own passkeys: it takes a session whose user
/// signed in a short while ago.
pub fn remove(session: &Option<FreshSession>) -> (r: RemoveOwn)
    ensures
        match *session {
            None => r matches RemoveOwn::Refuse(p) && p@ == no_session(),
            Some(s) => if s.fresh {
                r matches RemoveOwn::Deactivate(u) && u@ == s.username@
            } else {
                r is SignInAgain
            },
        },
{
    match session {
        None => RemoveOwn::Refuse(refuse_session()),
        Some(s) => if s.fresh {
            RemoveOwn::Deactivate(s.username.clone())
        } else {
            RemoveOwn::SignInAgain
        },
    }
}

} // verus!
