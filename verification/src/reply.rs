//! What an endpoint answers: protocol errors, problems, next hops.

use vstd::prelude::*;

verus! {

/// An OAuth 2.0 error response: the HTTP status, the error code and its
/// description.
pub struct Refusal {
    pub status: u16,
    pub error: String,
    pub description: String,
}

pub struct RefusalView {
    pub status: u16,
    pub error: Seq<char>,
    pub description: Seq<char>,
}

impl View for Refusal {
    type V = RefusalView;

    open spec fn view(&self) -> RefusalView {
        RefusalView { status: self.status, error: self.error@, description: self.description@ }
    }
}

/// A refusal by its parts.
pub open spec fn refused(status: u16, error: Seq<char>, description: Seq<char>) -> RefusalView {
    RefusalView { status, error, description }
}

pub fn refuse(status: u16, error: &str, description: &str) -> (r: Refusal)
    ensures
        r@ == refused(status, error@, description@),
{
    Refusal { status, error: error.to_owned(), description: description.to_owned() }
}

/// The answer of an endpoint that a script follows: the HTTP status and the
/// URL to go to next.
pub struct Hop {
    pub status: u16,
    pub url: String,
}

pub struct HopView {
    pub status: u16,
    pub url: Seq<char>,
}

impl View for Hop {
    type V = HopView;

    open spec fn view(&self) -> HopView {
        HopView { status: self.status, url: self.url@ }
    }
}

pub open spec fn hop_to(status: u16, url: Seq<char>) -> HopView {
    HopView { status, url }
}

pub fn hop(status: u16, url: String) -> (r: Hop)
    ensures
        r@ == hop_to(status, url@),
{
    Hop { status, url }
}

/// The kinds of problem report that the administrative and sign-in endpoints
/// answer with.
#[derive(Clone, Copy, Debug, PartialEq, Eq, Structural)]
pub enum ProblemKind {
    BadRequest,
    Validation,
    NotFound,
    Unauthorized,
    Forbidden,
    Conflict,
    Server,
}

/// A problem report: the HTTP status, its kind and, where the kind alone does
/// not say it, the detail.
pub struct Problem {
    pub status: u16,
    pub kind: ProblemKind,
    pub detail: String,
}

pub struct ProblemView {
    pub status: u16,
    pub kind: ProblemKind,
    pub detail: Seq<char>,
}

impl View for Problem {
    type V = ProblemView;

    open spec fn view(&self) -> ProblemView {
        ProblemView { status: self.status, kind: self.kind, detail: self.detail@ }
    }
}

pub open spec fn problem_of(status: u16, kind: ProblemKind, detail: Seq<char>) -> ProblemView {
    ProblemView { status, kind, detail }
}

pub fn problem(status: u16, kind: ProblemKind, detail: &str) -> (r: Problem)
    ensures
        r@ == problem_of(status, kind, detail@),
{
    Problem { status, kind, detail: detail.to_owned() }
}

/// The view of a result whose success is a string and whose failure a refusal.
pub open spec fn text_or_refusal(r: Result<String, Refusal>) -> Result<Seq<char>, RefusalView> {
    match r {
        Ok(s) => Ok(s@),
        Err(e) => Err(e@),
    }
}

} // verus!
