//! Who a request acts for: the data of a session token.

use crate::text::{copy_texts, has_text, same, texts};
use vstd::prelude::*;

verus! {

/// The methods of HTTP requests.
#[derive(Clone, Copy, Debug, PartialEq, Eq, Structural)]
pub enum HttpMethod {
    GET,
    POST,
    PUT,
    PATCH,
    DELETE,
    HEAD,
    OPTIONS,
}

/// The data that a session token carries.
pub struct JwtData {
    /// The user's identifier.
    pub user: String,
    pub username: String,
    pub domain: String,
    /// The factors that the user was authenticated with, each once.
    pub mfa: Vec<String>,
    /// The user's roles, each once.
    pub roles: Vec<String>,
}

impl JwtData {
    /// Factors and roles are sets.
    pub open spec fn wf(&self) -> bool {
        &&& texts(self.mfa@).no_duplicates()
        &&& texts(self.roles@).no_duplicates()
    }
}

/// The factors of a session with one more: a factor that is there already is
/// not added again.
pub open spec fn with_factor_view(factors: Seq<Seq<char>>, factor: Seq<char>) -> Seq<Seq<char>> {
    if factors.contains(factor) {
        factors
    } else {
        factors.push(factor)
    }
}

/// Adds a factor to a set of factors.
pub fn with_factor(factors: Vec<String>, factor: &str) -> (r: Vec<String>)
    ensures
        texts(r@) == with_factor_view(texts(factors@), factor@),
        texts(factors@).no_duplicates() ==> texts(r@).no_duplicates(),
{
    let mut out = factors;
    if has_text(&out, factor) {
        return out;
    }
    let ghost before = texts(out@);
    out.push(factor.to_owned());
    proof {
        assert(texts(out@) =~= before.push(factor@));
        if before.no_duplicates() {
            assert forall|i: int, j: int|
                0 <= i < j < texts(out@).len() implies texts(out@)[i] != texts(out@)[j] by {
                if j == before.len() {
                    assert(before[i] == texts(out@)[i]);
                    assert(before.contains(before[i]));
                } else {
                    assert(before[i] != before[j]);
                }
            }
        }
    }
    out
}

/// The session of a request: whose it is, and its factors.
pub struct SessionFactors {
    pub username: String,
    pub mfa: Vec<String>,
}

/// The factors that a newly authenticated user brings along: those of a
/// session of the same user, none of anybody else's.
pub open spec fn inherited(session: Option<SessionFactors>, username: Seq<char>) -> Seq<Seq<char>> {
    match session {
        Some(s) => if s.username@ == username {
            texts(s.mfa@)
        } else {
            Seq::empty()
        },
        None => Seq::empty(),
    }
}

pub fn inherit_factors(session: &Option<SessionFactors>, username: &str) -> (r: Vec<String>)
    ensures
        texts(r@) == inherited(*session, username@),
{
    if let Some(s) = session {
        if same(s.username.as_str(), username) {
            return copy_texts(&s.mfa);
        }
    }
    let none: Vec<String> = Vec::new();
    proof {
        assert(texts(none@) =~= Seq::<Seq<char>>::empty());
    }
    none
}

/// A session of another user contributes nothing to what a user signs in
/// with.
pub proof fn law_factors_are_not_laundered(
    session: SessionFactors,
    username: Seq<char>,
    factor: Seq<char>,
)
    requires
        session.username@ != username,
    ensures
        with_factor_view(inherited(Some(session), username), factor) == seq![factor],
{
    assert(with_factor_view(Seq::<Seq<char>>::empty(), factor) =~= seq![factor]);
}

/// A session of the same user keeps its factors when one more is added.
pub proof fn law_factors_accumulate(
    session: SessionFactors,
    username: Seq<char>,
    factor: Seq<char>,
    prior: Seq<char>,
)
    requires
        session.username@ == username,
        texts(session.mfa@).contains(prior),
    ensures
        with_factor_view(inherited(Some(session), username), factor).contains(prior),
        with_factor_view(inherited(Some(session), username), factor).contains(factor),
{
    let all = texts(session.mfa@);
    let got = with_factor_view(all, factor);
    let k = choose|k: int| 0 <= k < all.len() && all[k] == prior;
    assert(got[k] == prior);
    if !all.contains(factor) {
        assert(got[all.len() as int] == factor);
    }
}

} // verus!
