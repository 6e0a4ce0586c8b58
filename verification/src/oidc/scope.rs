//! Scopes: which ones exist, what a grant covers, what a client may ask for.

use crate::text::{cat3, has_text, same, split_words, texts, words};
use vstd::prelude::*;

verus! {

/// The scopes that the provider knows.
pub open spec fn known_scope(s: Seq<char>) -> bool {
    s == "openid"@ || s == "profile"@ || s == "email"@ || s == "offline_access"@
}

pub fn is_known_scope(s: &str) -> (r: bool)
    ensures
        r == known_scope(s@),
{
    same(s, "openid") || same(s, "profile") || same(s, "email") || same(s, "offline_access")
}

/// Whether `scope`, a list of words, holds `name`.
pub open spec fn scope_has(scope: Seq<char>, name: Seq<char>) -> bool {
    words(scope).contains(name)
}

pub fn has_scope(scope: &str, name: &str) -> (r: bool)
    ensures
        r == scope_has(scope@, name@),
{
    has_text(&split_words(scope), name)
}

/// Whether every scope of `requested` is one of `granted`.
pub open spec fn covers(granted: Seq<char>, requested: Seq<char>) -> bool {
    forall|s: Seq<char>| #[trigger] scope_has(requested, s) ==> scope_has(granted, s)
}

/// Whether a grant of the scopes `granted` covers all of `requested`.
pub fn scopes_cover(granted: &str, requested: &str) -> (r: bool)
    ensures
        r == covers(granted@, requested@),
{
    let have = split_words(granted);
    let want = split_words(requested);
    let mut i: usize = 0;
    while i < want.len()
        invariant
            i <= want@.len(),
            texts(have@) == words(granted@),
            texts(want@) == words(requested@),
            forall|j: int| 0 <= j < i ==> words(granted@).contains(#[trigger] words(requested@)[j]),
        decreases want@.len() - i,
    {
        proof {
            assert(words(requested@)[i as int] == want@[i as int]@);
        }
        if !has_text(&have, want[i].as_str()) {
            proof {
                assert(scope_has(requested@, want@[i as int]@));
                assert(!scope_has(granted@, want@[i as int]@));
            }
            return false;
        }
        i = i + 1;
    }
    true
}

/// What the consent screen says of a scope.
pub open spec fn label_of(scope: Seq<char>) -> Seq<char> {
    if scope == "openid"@ {
        "Sign in with your identity"@
    } else if scope == "profile"@ {
        "Read your profile information"@
    } else if scope == "email"@ {
        "Read your email address"@
    } else if scope == "offline_access"@ {
        "Retain access while you are not present"@
    } else {
        "Additional access"@
    }
}

pub fn scope_label(scope: &str) -> (r: &'static str)
    ensures
        r@ == label_of(scope@),
{
    if same(scope, "openid") {
        "Sign in with your identity"
    } else if same(scope, "profile") {
        "Read your profile information"
    } else if same(scope, "email") {
        "Read your email address"
    } else if same(scope, "offline_access") {
        "Retain access while you are not present"
    } else {
        "Additional access"
    }
}

/// What is wrong with one requested scope, if anything: it must be known to
/// the provider and registered for the client.
pub open spec fn word_fault(word: Seq<char>, registered: Seq<Seq<char>>) -> Option<Seq<char>> {
    if !known_scope(word) {
        Some("unknown scope '"@ + word + "'"@)
    } else if !registered.contains(word) {
        Some("scope '"@ + word + "' is not registered for this client"@)
    } else {
        None
    }
}

/// What is wrong with the first faulty one of some requested scopes.
pub open spec fn words_fault(ws: Seq<Seq<char>>, registered: Seq<Seq<char>>) -> Option<Seq<char>>
    decreases ws.len(),
{
    if ws.len() == 0 {
        None
    } else {
        let earlier = words_fault(ws.drop_last(), registered);
        if earlier is Some {
            earlier
        } else {
            word_fault(ws.last(), registered)
        }
    }
}

/// What is wrong with a requested scope text.
pub open spec fn scope_fault(requested: Seq<char>, registered: Seq<Seq<char>>) -> Option<
    Seq<char>,
> {
    words_fault(words(requested), registered)
}

/// Checks that every requested scope is known to the provider and registered
/// for the client; the error names the first one that is not.
pub fn validate_requested_scope(requested: &str, registered: &[String]) -> (r: Result<
    (),
    String,
>)
    ensures
        r is Ok <==> scope_fault(requested@, texts(registered@)) is None,
        r matches Err(e) ==> scope_fault(requested@, texts(registered@)) == Some(e@),
{
    let ws = split_words(requested);
    let ghost all = words(requested@);
    let mut i: usize = 0;
    while i < ws.len()
        invariant
            i <= ws@.len(),
            texts(ws@) == all,
            all == words(requested@),
            words_fault(all.take(i as int), texts(registered@)) is None,
        decreases ws@.len() - i,
    {
        proof {
            assert(all.take(i + 1).drop_last() =~= all.take(i as int));
            assert(all.take(i + 1).last() == ws@[i as int]@);
        }
        let w = ws[i].as_str();
        if !is_known_scope(w) {
            proof {
                lemma_first_fault(all, i + 1, texts(registered@));
            }
            return Err(cat3("unknown scope '", w, "'"));
        }
        if !has_text(registered, w) {
            proof {
                lemma_first_fault(all, i + 1, texts(registered@));
            }
            return Err(cat3("scope '", w, "' is not registered for this client"));
        }
        i = i + 1;
    }
    proof {
        assert(all.take(all.len() as int) =~= all);
    }
    Ok(())
}

/// A fault among the first `n` scopes is the fault of them all.
proof fn lemma_first_fault(ws: Seq<Seq<char>>, n: int, registered: Seq<Seq<char>>)
    requires
        0 <= n <= ws.len(),
        words_fault(ws.take(n), registered) is Some,
    ensures
        words_fault(ws, registered) == words_fault(ws.take(n), registered),
    decreases ws.len() - n,
{
    if n == ws.len() {
        assert(ws.take(n) =~= ws);
    } else {
        assert(ws.take(n + 1).drop_last() =~= ws.take(n));
        lemma_first_fault(ws, n + 1, registered);
    }
}

/// One line of a consent screen.
pub struct ScopeDetail {
    pub scope: String,
    pub label: String,
}

/// The data of a consent screen.
pub struct ConsentRequestInfo {
    pub client_id: String,
    pub scopes: Vec<ScopeDetail>,
}

impl ConsentRequestInfo {
    /// The screen for `client_id` asking for `scope`: one line per word, in
    /// order, with its label.
    pub open spec fn shows(&self, client_id: Seq<char>, scope: Seq<char>) -> bool {
        &&& self.client_id@ == client_id
        &&& self.scopes@.len() == words(scope).len()
        &&& forall|i: int|
            0 <= i < words(scope).len() ==> (#[trigger] self.scopes@[i]).scope@ == words(scope)[i]
                && self.scopes@[i].label@ == label_of(words(scope)[i])
    }
}

/// The consent screen of a request by `client_id` for `scope`.
pub fn consent_screen(client_id: &str, scope: &str) -> (r: ConsentRequestInfo)
    ensures
        r.shows(client_id@, scope@),
{
    let ws = split_words(scope);
    let mut scopes: Vec<ScopeDetail> = Vec::new();
    let mut i: usize = 0;
    while i < ws.len()
        invariant
            i <= ws@.len(),
            texts(ws@) == words(scope@),
            scopes@.len() == i,
            forall|j: int|
                0 <= j < i ==> (#[trigger] scopes@[j]).scope@ == words(scope@)[j]
                    && scopes@[j].label@ == label_of(words(scope@)[j]),
        decreases ws@.len() - i,
    {
        proof {
            assert(words(scope@)[i as int] == ws@[i as int]@);
        }
        scopes.push(
            ScopeDetail { scope: ws[i].clone(), label: scope_label(ws[i].as_str()).to_owned() },
        );
        i = i + 1;
    }
    ConsentRequestInfo { client_id: client_id.to_owned(), scopes }
}

/// A scope check passes exactly when every requested scope is both known to
/// the provider and registered for the client.
pub proof fn law_validated_scope_is_known_and_registered(
    requested: Seq<char>,
    registered: Seq<Seq<char>>,
)
    ensures
        scope_fault(requested, registered) is None <==> forall|s: Seq<char>| #[trigger]
            scope_has(requested, s) ==> known_scope(s) && registered.contains(s),
{
    lemma_no_fault(words(requested), registered);
    if scope_fault(requested, registered) is None {
        assert forall|s: Seq<char>| #[trigger] scope_has(requested, s) implies known_scope(s)
            && registered.contains(s) by {
            assert(words(requested).contains(s));
        }
    } else if forall|s: Seq<char>| #[trigger]
        scope_has(requested, s) ==> known_scope(s) && registered.contains(s) {
        assert forall|s: Seq<char>| #[trigger] words(requested).contains(s) implies word_fault(
            s,
            registered,
        ) is None by {
            assert(scope_has(requested, s));
        }
    }
}

pub(crate) proof fn lemma_no_fault(ws: Seq<Seq<char>>, registered: Seq<Seq<char>>)
    ensures
        words_fault(ws, registered) is None <==> forall|s: Seq<char>| #[trigger]
            ws.contains(s) ==> word_fault(s, registered) is None,
    decreases ws.len(),
{
    if ws.len() > 0 {
        let front = ws.drop_last();
        lemma_no_fault(front, registered);
        assert(ws[ws.len() - 1] == ws.last());
        assert(ws.contains(ws.last()));
        if words_fault(ws, registered) is None {
            assert forall|s: Seq<char>| #[trigger] ws.contains(s) implies word_fault(
                s,
                registered,
            ) is None by {
                let k = choose|k: int| 0 <= k < ws.len() && ws[k] == s;
                if k < ws.len() - 1 {
                    assert(front[k] == s);
                    assert(front.contains(s));
                }
            }
        } else if forall|s: Seq<char>| #[trigger]
            ws.contains(s) ==> word_fault(s, registered) is None {
            assert forall|s: Seq<char>| #[trigger] front.contains(s) implies word_fault(
                s,
                registered,
            ) is None by {
                let k = choose|k: int| 0 <= k < front.len() && front[k] == s;
                assert(ws[k] == s);
                assert(ws.contains(s));
            }
        }
    }
}

/// A grant covers itself.
pub proof fn law_covers_reflexive(scope: Seq<char>)
    ensures
        covers(scope, scope),
{
}

/// What a covered scope covers, the grant covers too: narrowing a scope again
/// and again never widens it.
pub proof fn law_covers_transitive(a: Seq<char>, b: Seq<char>, c: Seq<char>)
    requires
        covers(a, b),
        covers(b, c),
    ensures
        covers(a, c),
{
}

/// Every grant covers a request for no scope at all.
pub proof fn law_covers_blank(granted: Seq<char>, blank: Seq<char>)
    requires
        words(blank).len() == 0,
    ensures
        covers(granted, blank),
{
}

} // verus!
