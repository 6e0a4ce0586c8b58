//! Passkeys: which ceremony is started, when it is completed, and what a
//! completed one is worth.

use crate::identity::{inherited, with_factor_view};
use crate::outside::{
    assertion_of, base64url, credential_id_of, is_party, public_key_of, reads_as_assertion,
    reads_as_registration, registration_of, updated_of,
};
use crate::passkey::{
    active_ones, ceremony_result, challenge_next, complete_next, credential_name,
    deactivation_fault, first_named, flows_left, kind_of, known_ids, lemma_active_are_active,
    lemma_known_ids, lemma_login_credentials, login_credentials, login_outcome, readable,
    registration_outcome, update_due, ChallengeAskView, ChallengeState, CompleteAskView,
    CompleteState, CredentialKind, FinishedView, Passkey,
};
use crate::reply::ProblemView;
use vstd::prelude::*;

verus! {

/// The passkey is active and can be read.
pub open spec fn can_sign_in(p: Passkey) -> bool {
    p.active && credential_id_of(p.credential@) is Some
}

/// A user signs in with exactly the passkeys that are active and can be read.
pub proof fn law_active_passkeys_sign_in(ps: Seq<Passkey>, credential: Seq<u8>)
    ensures
        login_credentials(ps).contains(credential) <==> exists|j: int|
            0 <= j < ps.len() && can_sign_in(#[trigger] ps[j]) && ps[j].credential@ == credential,
        login_credentials(ps).len() > 0 <==> exists|j: int|
            0 <= j < ps.len() && can_sign_in(#[trigger] ps[j]),
{
    let creds = login_credentials(ps);
    let active = active_ones(ps);
    if creds.len() > 0 {
        lemma_offered(ps, 0);
    }
    if creds.contains(credential) {
        let i = choose|i: int| 0 <= i < creds.len() && creds[i] == credential;
        lemma_offered(ps, i);
    }
    if exists|j: int| 0 <= j < ps.len() && can_sign_in(#[trigger] ps[j]) {
        let j = choose|j: int| 0 <= j < ps.len() && can_sign_in(#[trigger] ps[j]);
        lemma_offers(ps, j);
    }
    if exists|j: int|
        0 <= j < ps.len() && can_sign_in(#[trigger] ps[j]) && ps[j].credential@ == credential {
        let j = choose|j: int|
            0 <= j < ps.len() && can_sign_in(#[trigger] ps[j]) && ps[j].credential@ == credential;
        lemma_offers(ps, j);
    }
}

proof fn lemma_offered(ps: Seq<Passkey>, i: int)
    requires
        0 <= i < login_credentials(ps).len(),
    ensures
        exists|j: int|
            0 <= j < ps.len() && can_sign_in(#[trigger] ps[j]) && ps[j].credential@
                == login_credentials(ps)[i],
{
    let active = active_ones(ps);
    let creds = login_credentials(ps);
    lemma_login_credentials(active, i);
    let k = choose|k: int| 0 <= k < active.len() && (#[trigger] active[k]).credential@ == creds[i];
    ps.lemma_filter_contains_rev(|p: Passkey| p.active, active[k]);
    lemma_active_are_active(ps, k);
    let j = choose|j: int| 0 <= j < ps.len() && ps[j] == active[k];
    assert(can_sign_in(ps[j]));
}

proof fn lemma_offers(ps: Seq<Passkey>, j: int)
    requires
        0 <= j < ps.len(),
        can_sign_in(ps[j]),
    ensures
        login_credentials(ps).contains(ps[j].credential@),
        login_credentials(ps).len() > 0,
{
    let active = active_ones(ps);
    lemma_active_has(ps, j);
    let k = choose|k: int| 0 <= k < active.len() && active[k] == ps[j];
    lemma_readable_has(active, k);
    let creds = login_credentials(ps);
    let i = choose|i: int| 0 <= i < creds.len() && creds[i] == ps[j].credential@;
    assert(creds.len() > 0);
}

proof fn lemma_active_has(ps: Seq<Passkey>, j: int)
    requires
        0 <= j < ps.len(),
        ps[j].active,
    ensures
        active_ones(ps).contains(ps[j]),
    decreases ps.len(),
{
    reveal(Seq::filter);
    let rest = ps.drop_last();
    if j < rest.len() {
        assert(rest[j] == ps[j]);
        lemma_active_has(rest, j);
        let i = choose|i: int| 0 <= i < active_ones(rest).len() && active_ones(rest)[i] == ps[j];
        assert(active_ones(ps)[i] == ps[j]);
    } else {
        assert(ps.last() == ps[j]);
        assert(active_ones(ps)[active_ones(ps).len() - 1] == ps[j]);
    }
}

proof fn lemma_readable_has(ps: Seq<Passkey>, j: int)
    requires
        0 <= j < ps.len(),
        credential_id_of(ps[j].credential@) is Some,
    ensures
        ps.filter_map(|p: Passkey| readable(p)).contains(ps[j].credential@),
    decreases ps.len(),
{
    let rest = ps.drop_last();
    let all = ps.filter_map(|p: Passkey| readable(p));
    let front = rest.filter_map(|p: Passkey| readable(p));
    if j < rest.len() {
        assert(rest[j] == ps[j]);
        lemma_readable_has(rest, j);
        let i = choose|i: int| 0 <= i < front.len() && front[i] == ps[j].credential@;
        assert(all[i] == ps[j].credential@);
    } else {
        assert(ps.last() == ps[j]);
        assert(all[all.len() - 1] == ps[j].credential@);
    }
}

/// The credentials that cannot be registered again are those of every stored
/// passkey that can be read, active or not, and no others.
pub proof fn law_every_stored_credential_is_known(ps: Seq<Passkey>, id: Seq<u8>)
    ensures
        known_ids(ps).contains(id) <==> exists|j: int|
            0 <= j < ps.len() && credential_id_of((#[trigger] ps[j]).credential@) == Some(id),
{
    if exists|j: int|
        0 <= j < ps.len() && credential_id_of((#[trigger] ps[j]).credential@) == Some(id) {
        let j = choose|j: int|
            0 <= j < ps.len() && credential_id_of((#[trigger] ps[j]).credential@) == Some(id);
        lemma_known_ids(ps, j);
    }
    if known_ids(ps).contains(id) {
        let i = choose|i: int| 0 <= i < known_ids(ps).len() && known_ids(ps)[i] == id;
        lemma_known_back(ps, i);
    }
}

proof fn lemma_known_back(ps: Seq<Passkey>, i: int)
    requires
        0 <= i < known_ids(ps).len(),
    ensures
        exists|j: int|
            0 <= j < ps.len() && credential_id_of((#[trigger] ps[j]).credential@) == Some(
                known_ids(ps)[i],
            ),
    decreases ps.len(),
{
    let rest = ps.drop_last();
    if i < known_ids(rest).len() {
        lemma_known_back(rest, i);
        let j = choose|j: int|
            0 <= j < rest.len() && credential_id_of((#[trigger] rest[j]).credential@) == Some(
                known_ids(rest)[i],
            );
        assert(ps[j] == rest[j]);
    } else {
        assert(ps[ps.len() - 1] == ps.last());
    }
}

/// A user who has a passkey to sign in with signs in; a user who has none
/// registers one, which takes a fresh session of that very user; what is
/// missing is asked for, and what is wrong is told.
pub proof fn law_users_sign_in_or_register(s: ChallengeState)
    ensures
        ({
            let named = s.username is Some && s.username->0@.len() > 0;
            let can = s.passkeys is Some && exists|j: int|
                0 <= j < s.passkeys->0@.len() && can_sign_in(#[trigger] s.passkeys->0@[j]);
            let cannot = s.passkeys is Some && !can;
            &&& challenge_next(s) is Passkeys <==> named && s.passkeys is None
            &&& challenge_next(s) is Login <==> named && can
            &&& challenge_next(s) is Session <==> named && cannot && s.session is None
            &&& challenge_next(s) is SignInAgain <==> named && cannot && s.session is Some
                && s.session->0 is Some && s.session->0->0.username@ == s.username->0@
                && !s.session->0->0.fresh
            &&& challenge_next(s) is Register <==> named && cannot && s.session is Some
                && s.session->0 is Some && s.session->0->0.username@ == s.username->0@
                && s.session->0->0.fresh
            &&& challenge_next(s) matches ChallengeAskView::Passkeys(u) ==> u == s.username->0@
            &&& challenge_next(s) matches ChallengeAskView::Login(u) ==> u == s.username->0@
            &&& challenge_next(s) matches ChallengeAskView::Register(u) ==> u == s.username->0@
            &&& challenge_next(s) matches ChallengeAskView::Reply(p) ==> p.status == (if named {
                401int
            } else {
                400
            })
        }),
{
    if s.passkeys is Some {
        law_active_passkeys_sign_in(s.passkeys->0@, Seq::empty());
    }
}

/// A sign-in is completed exactly where the domain runs ceremonies for the
/// origin, one waits under the token that was started for the user, and what
/// was shown holds against it.
pub proof fn law_waiting_sign_ins_are_completed(
    flows: Map<Seq<char>, (Vec<u8>, String)>,
    domain: Seq<char>,
    origin: Seq<char>,
    token: Seq<char>,
    username: Seq<char>,
    credential: Seq<u8>,
)
    ensures
        ({
            let key = domain + ":"@ + token;
            let r = login_outcome(flows, domain, origin, token, username, credential);
            let held = assertion_of(domain, origin, "Passkey"@, flows[key].0@, credential);
            &&& r is Ok <==> is_party(domain, origin) && flows.contains_key(key) && flows[key].1@
                == username && held is Some
            &&& r matches Ok(shown) ==> Some(shown) == held
        }),
{
}

/// A registration is completed exactly where the domain runs ceremonies for
/// the origin, one waits under the token, and what was answered holds against
/// it.
pub proof fn law_waiting_registrations_are_completed(
    flows: Map<Seq<char>, Vec<u8>>,
    domain: Seq<char>,
    origin: Seq<char>,
    token: Seq<char>,
    credential: Seq<u8>,
)
    ensures
        ({
            let key = domain + ":"@ + token;
            let r = registration_outcome(flows, domain, origin, token, credential);
            let held = registration_of(domain, origin, "Passkey"@, flows[key]@, credential);
            &&& r is Ok <==> is_party(domain, origin) && flows.contains_key(key) && held is Some
            &&& r matches Ok(p) ==> Some(p) == held
        }),
{
}

/// Completing a ceremony spends its token and no other.
pub proof fn law_only_its_token_is_spent<S>(
    flows: Map<Seq<char>, S>,
    domain: Seq<char>,
    origin: Seq<char>,
    token: Seq<char>,
    key: Seq<char>,
)
    ensures
        is_party(domain, origin) ==> !flows_left(flows, domain, origin, token).contains_key(
            domain + ":"@ + token,
        ),
        key != domain + ":"@ + token ==> (flows_left(flows, domain, origin, token).contains_key(key)
            <==> flows.contains_key(key)),
        key != domain + ":"@ + token && flows.contains_key(key) ==> flows_left(
            flows,
            domain,
            origin,
            token,
        )[key] == flows[key],
{
}

/// A credential is the answer to a registration where it reads so, and the
/// answer to a sign-in where it reads so and not as the other; a request is
/// held against the ceremony of its kind.
pub proof fn law_credentials_are_told_apart(
    s: CompleteState,
    registrations: Map<Seq<char>, Vec<u8>>,
    logins: Map<Seq<char>, (Vec<u8>, String)>,
)
    ensures
        s.body is None ==> ceremony_result(s, registrations, logins) is Refused,
        s.body matches Some(b) ==> {
            let enrolled = registration_outcome(
                registrations,
                s.domain@,
                s.origin@,
                b.token@,
                b.credential@,
            );
            let shown = login_outcome(
                logins,
                s.domain@,
                s.origin@,
                b.token@,
                b.username@,
                b.credential@,
            );
            let first = reads_as_registration(b.credential@);
            let second = !first && reads_as_assertion(b.credential@);
            &&& kind_of(b.credential@) == CredentialKind::Registration <==> first
            &&& kind_of(b.credential@) == CredentialKind::Assertion <==> second
            &&& first && enrolled is Ok ==> ceremony_result(s, registrations, logins)
                == FinishedView::Registered(enrolled->Ok_0)
            &&& second && shown is Ok ==> ceremony_result(s, registrations, logins) == (
            FinishedView::Shown { id: (shown->Ok_0).0, outcome: (shown->Ok_0).1 })
            &&& !(first && enrolled is Ok) && !(second && shown is Ok) ==> ceremony_result(
                s,
                registrations,
                logins,
            ) is Refused
        },
{
}

/// A passkey is found under its name among the user's: the first one, and one
/// wherever there is any.
pub proof fn law_passkeys_are_found_by_name(ps: Seq<Passkey>, name: Seq<char>, i: int)
    ensures
        first_named(ps, name) is Some <==> exists|k: int|
            0 <= k < ps.len() && (#[trigger] ps[k]).id@ == name,
        0 <= i < ps.len() && ps[i].id@ == name && (forall|k: int|
            0 <= k < i ==> (#[trigger] ps[k]).id@ != name) ==> first_named(ps, name) == Some(ps[i]),
    decreases ps.len(),
{
    if ps.len() > 0 {
        let rest = ps.skip(1);
        law_passkeys_are_found_by_name(rest, name, i - 1);
        if exists|k: int| 0 <= k < rest.len() && (#[trigger] rest[k]).id@ == name {
            let k = choose|k: int| 0 <= k < rest.len() && (#[trigger] rest[k]).id@ == name;
            assert(ps[k + 1].id@ == name);
        }
        if exists|k: int| 0 <= k < ps.len() && (#[trigger] ps[k]).id@ == name {
            let k = choose|k: int| 0 <= k < ps.len() && (#[trigger] ps[k]).id@ == name;
            if k > 0 {
                assert(rest[k - 1].id@ == name);
            }
        }
        if 0 < i < ps.len() && forall|k: int| 0 <= k < i ==> (#[trigger] ps[k]).id@ != name {
            assert(ps[0].id@ != name);
            assert(rest[i - 1] == ps[i]);
            assert forall|k: int| 0 <= k < i - 1 implies (#[trigger] rest[k]).id@ != name by {
                assert(rest[k] == ps[k + 1]);
            }
        }
    }
}

/// A passkey is written back exactly where the sign-in changed it, as what it
/// became.
pub proof fn law_changed_passkeys_are_written_back(p: Passkey, outcome: Seq<u8>)
    ensures
        update_due(p, outcome) is Some <==> (updated_of(p.credential@, outcome) matches Some(u)
            && u.0 == Some(true)),
        update_due(p, outcome) matches Some(bytes) ==> bytes == (updated_of(
            p.credential@,
            outcome,
        )->0).1,
        credential_name(None) is None,
        credential_name(Some(outcome)) == Some(base64url(outcome)),
{
}

/// A registration of the request's user has been completed, with a new passkey
/// that can be written down and has a public key.
pub open spec fn enrolled(s: CompleteState, p: Seq<u8>) -> bool {
    &&& s.body matches Some(b)
    &&& reads_as_registration(b.credential@)
    &&& s.session is Some && s.session->0.username@ == b.username@
    &&& s.finished is Some && s.finished->0@ == FinishedView::Registered(Some(p))
    &&& public_key_of(p) is Some
}

/// A sign-in has been completed with this credential.
pub open spec fn shown(s: CompleteState, id: Seq<u8>, outcome: Seq<u8>) -> bool {
    &&& s.body matches Some(b)
    &&& !reads_as_registration(b.credential@) && reads_as_assertion(b.credential@)
    &&& s.finished is Some && s.finished->0@ == (FinishedView::Shown { id, outcome })
}

/// A registration goes on in the session of its user: the new passkey is
/// stored with its public key, then a session is signed, and its token ends
/// it.
pub proof fn law_registrations_are_stored_first(s: CompleteState, p: Seq<u8>)
    requires
        enrolled(s, p),
    ensures
        s.stored is None ==> complete_next(s) == (CompleteAskView::Store {
            credential: p,
            public_key: public_key_of(p)->0,
        }),
        s.stored == Some(false) ==> (complete_next(s) matches CompleteAskView::Reply(r) && r.status
            == 500),
        s.stored == Some(true) ==> signs_in(s),
{
    lemma_signs_in(s);
}

/// What a completed ceremony leads to: a session for the request's user with
/// the passkey among its factors, and then its token.
pub open spec fn signs_in(s: CompleteState) -> bool {
    match s.minted {
        None => complete_next(s) matches CompleteAskView::Mint { name, factors } && name
            == s.body->0.username@ && factors.contains("passkey"@),
        Some(Some(token)) => complete_next(s) == CompleteAskView::Done(token@),
        Some(None) => complete_next(s) matches CompleteAskView::Reply(r) && r.status == 401,
    }
}

proof fn lemma_signs_in(s: CompleteState)
    requires
        s.body is Some,
    ensures
        complete_next(s) == crate::passkey::complete_mint(s, s.body->0.username@) ==> signs_in(s),
{
    let before = inherited(s.session, s.body->0.username@);
    let after = with_factor_view(before, "passkey"@);
    if before.contains("passkey"@) {
    } else {
        assert(after[before.len() as int] == "passkey"@);
    }
}

/// A sign-in goes on with the user's passkeys: where the credential shown is
/// an active one of them, it is written back where the sign-in changed it, and
/// a session is signed; where it is none of them, there is no session.
pub proof fn law_own_passkeys_sign_in(s: CompleteState, id: Seq<u8>, outcome: Seq<u8>)
    requires
        shown(s, id, outcome),
    ensures
        s.passkeys is None ==> complete_next(s) == CompleteAskView::Passkeys(s.body->0.username@),
        s.passkeys matches Some(ps) ==> {
            let own = exists|j: int|
                0 <= j < ps@.len() && (#[trigger] ps@[j]).active && ps@[j].id@ == base64url(id);
            &&& !own ==> (complete_next(s) matches CompleteAskView::Reply(r) && r.status == 401)
            &&& own ==> {
                let p = first_named(active_ones(ps@), base64url(id))->0;
                &&& p.active && p.id@ == base64url(id) && ps@.contains(p)
                &&& update_due(p, outcome) is Some && !s.updated ==> complete_next(s) == (
                CompleteAskView::Update { id: p.id@, credential: update_due(p, outcome)->0 })
                &&& update_due(p, outcome) is None || s.updated ==> signs_in(s)
            }
        },
{
    lemma_signs_in(s);
    if s.passkeys is Some {
        let ps = s.passkeys->0@;
        let active = active_ones(ps);
        let name = base64url(id);
        law_passkeys_are_found_by_name(active, name, 0);
        if exists|j: int| 0 <= j < ps.len() && (#[trigger] ps[j]).active && ps[j].id@ == name {
            let j = choose|j: int|
                0 <= j < ps.len() && (#[trigger] ps[j]).active && ps[j].id@ == name;
            lemma_active_has(ps, j);
            let k = choose|k: int| 0 <= k < active.len() && active[k] == ps[j];
            assert(active[k].id@ == name);
        }
        if first_named(active, name) is Some {
            let p = first_named(active, name)->0;
            lemma_first_is_one(active, name);
            let k = choose|k: int| 0 <= k < active.len() && active[k] == p;
            lemma_active_are_active(ps, k);
            ps.lemma_filter_contains_rev(|p: Passkey| p.active, p);
            let j = choose|j: int| 0 <= j < ps.len() && ps[j] == p;
            assert(ps[j].active && ps[j].id@ == name);
        }
    }
}

proof fn lemma_first_is_one(ps: Seq<Passkey>, name: Seq<char>)
    requires
        first_named(ps, name) is Some,
    ensures
        ps.contains(first_named(ps, name)->0),
        first_named(ps, name)->0.id@ == name,
    decreases ps.len(),
{
    if ps[0].id@ != name {
        lemma_first_is_one(ps.skip(1), name);
        let p = first_named(ps, name)->0;
        let k = choose|k: int| 0 <= k < ps.skip(1).len() && ps.skip(1)[k] == p;
        assert(ps[k + 1] == p);
    } else {
        assert(ps[0] == first_named(ps, name)->0);
    }
}

/// A request that does not read is refused as such; a registration outside the
/// session of its user, and a ceremony that was not completed, get no session;
/// a request in order is held against its ceremony first.
pub proof fn law_other_ceremonies_get_no_session(s: CompleteState)
    ensures
        s.body is None ==> (complete_next(s) matches CompleteAskView::Reply(r) && r.status == 400),
        s.body matches Some(b) ==> {
            let first = reads_as_registration(b.credential@);
            let second = !first && reads_as_assertion(b.credential@);
            let allowed = s.session is Some && s.session->0.username@ == b.username@;
            &&& !first && !second ==> (complete_next(s) matches CompleteAskView::Reply(r)
                && r.status == 400)
            &&& first && !allowed ==> (complete_next(s) matches CompleteAskView::Reply(r)
                && r.status == 401)
            &&& complete_next(s) is Finish <==> (first && allowed || second) && s.finished is None
            &&& (first && allowed || second) && s.finished is Some && s.finished->0@ is Refused
                ==> (complete_next(s) matches CompleteAskView::Reply(r) && r.status == 401)
        },
{
}

/// A new passkey is the user's own, active from the start, and stored under
/// the name of its credential.
pub proof fn law_new_passkeys_are_active(
    p: Passkey,
    user_id: Seq<char>,
    domain: Seq<char>,
    credential: Seq<u8>,
    public_key: Seq<char>,
)
    requires
        p.enrols(user_id, domain, credential, public_key),
    ensures
        credential_id_of(credential) matches Some(id) && p.id@ == base64url(id),
        p.user_id@ == user_id,
        p.domain_id@ == domain,
        p.active,
        p.credential@ == credential,
        p.public_key@ == public_key,
        can_sign_in(p),
{
}

/// A user's passkeys are deactivated exactly where an administrator who may
/// asks for a user who is known and the store does it; the first thing wrong
/// is told.
pub proof fn law_passkeys_are_deactivated_for_those_who_may(
    has_session: bool,
    reads: bool,
    user_known: bool,
    refused: Option<ProblemView>,
    done: bool,
)
    ensures
        deactivation_fault(has_session, reads, user_known, refused, done) is None <==> has_session
            && reads && user_known && refused is None && done,
        !has_session ==> (deactivation_fault(has_session, reads, user_known, refused, done) matches
            Some(p) && p.status == 401),
        has_session && (!reads || !user_known) ==> (deactivation_fault(
            has_session,
            reads,
            user_known,
            refused,
            done,
        ) matches Some(p) && p.status == 400),
        has_session && reads && user_known && refused is Some ==> deactivation_fault(
            has_session,
            reads,
            user_known,
            refused,
            done,
        ) == refused,
{
}

/// What is wrong with a request about passkeys is told.
pub proof fn law_failed_ceremonies_are_told(s: CompleteState, c: ChallengeState)
    ensures
        complete_next(s) matches CompleteAskView::Reply(p) ==> p.detail == (if p.status == 400 {
            "Failed to parse request body"@
        } else if p.status == 401 {
            ""@
        } else if s.stored == Some(false) && s.finished is Some && (s.finished->0@ matches
            FinishedView::Registered(Some(k)) && public_key_of(k) is Some) {
            "Failed to persist passkey"@
        } else {
            "error"@
        }),
        challenge_next(c) matches ChallengeAskView::Reply(p) ==> p.detail == (
        if c.username is None {
            "Bad request: Missing request body"@
        } else if c.username->0@.len() == 0 {
            "Bad request: Empty user name"@
        } else {
            ""@
        }),
{
}

/// Why passkeys are not deactivated is told.
pub proof fn law_failed_deactivations_are_told(user_known: bool)
    ensures
        deactivation_fault(true, false, user_known, None, true) matches Some(p) && p.detail
            == "Failed to parse request body"@,
        deactivation_fault(true, true, false, None, true) matches Some(p) && p.detail
            == "Unknown user"@,
        deactivation_fault(true, true, true, None, false) matches Some(p) && p.status == 400
            && p.detail == "Failed to deactivate passkeys"@,
{
}

} // verus!
