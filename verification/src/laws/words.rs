//! Words between white space, and what a scope says by them.

use crate::oidc::codes::challenge_ok;
use crate::oidc::scope::{
    covers, lemma_no_fault, scope_fault, scope_has, word_fault, ConsentRequestInfo,
};
use crate::outside::unreserved;
use crate::text::{
    is_blank, is_space, nonempty, pieces, trimmed, trimmed_end, trimmed_start, words, Cut,
};
use vstd::prelude::*;
use vstd::utf8::{encode_scalar, encode_utf8, is_ascii_chars, is_ascii_chars_encode_utf8};

verus! {

/// A stretch of `s` without white space that reaches as far as it can on both
/// sides.
pub open spec fn word_at(s: Seq<char>, i: int, j: int) -> bool {
    &&& 0 <= i < j <= s.len()
    &&& forall|k: int| i <= k < j ==> !is_space(#[trigger] s[k])
    &&& i == 0 || is_space(s[i - 1])
    &&& j == s.len() || is_space(s[j])
}

/// `w` stands in `s` between white space.
pub open spec fn has_word(s: Seq<char>, w: Seq<char>) -> bool {
    exists|i: int, j: int| #[trigger] word_at(s, i, j) && w == s.subrange(i, j)
}

/// Some character of `s` is not white space.
pub open spec fn says_something(s: Seq<char>) -> bool {
    exists|i: int| 0 <= i < s.len() && !is_space(#[trigger] s[i])
}

/// A word of `s` that white space follows.
spec fn has_closed_word(s: Seq<char>, w: Seq<char>) -> bool {
    exists|i: int, j: int| #[trigger] word_at(s, i, j) && j < s.len() && w == s.subrange(i, j)
}

/// Where the last piece of `s` starts.
spec fn last_start(s: Seq<char>) -> int
    decreases s.len(),
{
    if s.len() == 0 {
        0
    } else if is_space(s.last()) {
        s.len() as int
    } else {
        last_start(s.drop_last())
    }
}

proof fn lemma_last_start(s: Seq<char>)
    ensures
        0 <= last_start(s) <= s.len(),
        last_start(s) == 0 || is_space(s[last_start(s) - 1]),
        forall|k: int| last_start(s) <= k < s.len() ==> !is_space(#[trigger] s[k]),
        pieces(s, Cut::Blank).len() > 0,
        pieces(s, Cut::Blank).last() == s.skip(last_start(s)),
    decreases s.len(),
{
    if s.len() == 0 {
        assert(pieces(s, Cut::Blank).last() =~= s.skip(0));
    } else {
        let t = s.drop_last();
        lemma_last_start(t);
        if is_space(s.last()) {
            assert(s.skip(s.len() as int) =~= Seq::<char>::empty());
        } else {
            assert(s.skip(last_start(t)) =~= t.skip(last_start(t)).push(s.last()));
            assert forall|k: int| last_start(s) <= k < s.len() implies !is_space(
                #[trigger] s[k],
            ) by {
                if k < t.len() {
                    assert(t[k] == s[k]);
                }
            }
            if last_start(t) > 0 {
                assert(t[last_start(t) - 1] == s[last_start(t) - 1]);
            }
        }
    }
}

proof fn lemma_push_contains(ps: Seq<Seq<char>>, p: Seq<char>, w: Seq<char>)
    ensures
        ps.push(p).contains(w) <==> ps.contains(w) || w == p,
{
    if ps.contains(w) {
        let k = choose|k: int| 0 <= k < ps.len() && ps[k] == w;
        assert(ps.push(p)[k] == w);
    }
    assert(ps.push(p)[ps.len() as int] == p);
    if ps.push(p).contains(w) {
        let k = choose|k: int| 0 <= k < ps.push(p).len() && ps.push(p)[k] == w;
        if k < ps.len() {
            assert(ps[k] == w);
        }
    }
}

/// A word that lies before the last character lies in what precedes it.
proof fn lemma_word_in_front(s: Seq<char>, i: int, j: int)
    requires
        s.len() > 0,
        j < s.len(),
    ensures
        word_at(s, i, j) <==> word_at(s.drop_last(), i, j) && (j < s.len() - 1 || is_space(
            s.last(),
        )),
        0 <= i <= j ==> s.subrange(i, j) == s.drop_last().subrange(i, j),
{
    let t = s.drop_last();
    if 0 <= i <= j {
        assert(s.subrange(i, j) =~= t.subrange(i, j));
    }
    if word_at(s, i, j) {
        assert forall|k: int| i <= k < j implies !is_space(#[trigger] t[k]) by {
            assert(t[k] == s[k]);
        }
        if i > 0 {
            assert(t[i - 1] == s[i - 1]);
        }
    }
    if word_at(t, i, j) {
        assert forall|k: int| i <= k < j implies !is_space(#[trigger] s[k]) by {
            assert(t[k] == s[k]);
        }
        if i > 0 {
            assert(t[i - 1] == s[i - 1]);
        }
    }
}

/// The words of a text are the closed ones and the last one.
proof fn lemma_words_split(s: Seq<char>, w: Seq<char>)
    ensures
        has_word(s, w) <==> has_closed_word(s, w) || (last_start(s) < s.len() && w == s.skip(
            last_start(s),
        )),
{
    lemma_last_start(s);
    let k = last_start(s);
    if has_word(s, w) {
        let (i, j) = choose|i: int, j: int| #[trigger] word_at(s, i, j) && w == s.subrange(i, j);
        if j == s.len() {
            if i > k {
                assert(is_space(s[i - 1]));
            } else if k > i {
                assert(is_space(s[k - 1]));
            }
            assert(s.subrange(i, j) =~= s.skip(k));
        } else {
            assert(word_at(s, i, j) && j < s.len());
        }
    }
    if has_closed_word(s, w) {
        let (i, j) = choose|i: int, j: int| #[trigger]
            word_at(s, i, j) && j < s.len() && w == s.subrange(i, j);
        assert(word_at(s, i, j));
    }
    if k < s.len() && w == s.skip(k) {
        assert(word_at(s, k, s.len() as int));
        assert(s.subrange(k, s.len() as int) =~= s.skip(k));
    }
}

proof fn lemma_closed_words(s: Seq<char>, w: Seq<char>)
    ensures
        nonempty(pieces(s, Cut::Blank).drop_last()).contains(w) <==> has_closed_word(s, w),
    decreases s.len(),
{
    lemma_last_start(s);
    if s.len() == 0 {
        assert(pieces(s, Cut::Blank).drop_last() =~= Seq::<Seq<char>>::empty());
    } else {
        let t = s.drop_last();
        let before = pieces(t, Cut::Blank);
        lemma_last_start(t);
        lemma_closed_words(t, w);
        lemma_words_split(t, w);
        if is_space(s.last()) {
            assert(pieces(s, Cut::Blank).drop_last() =~= before);
            lemma_push_contains(nonempty(before.drop_last()), before.last(), w);
            if has_word(t, w) {
                let (i, j) = choose|i: int, j: int| #[trigger]
                    word_at(t, i, j) && w == t.subrange(i, j);
                lemma_word_in_front(s, i, j);
                assert(word_at(s, i, j));
            }
            if has_closed_word(s, w) {
                let (i, j) = choose|i: int, j: int| #[trigger]
                    word_at(s, i, j) && j < s.len() && w == s.subrange(i, j);
                lemma_word_in_front(s, i, j);
                assert(word_at(t, i, j));
            }
        } else {
            assert(pieces(s, Cut::Blank).drop_last() =~= before.drop_last());
            if has_closed_word(t, w) {
                let (i, j) = choose|i: int, j: int| #[trigger]
                    word_at(t, i, j) && j < t.len() && w == t.subrange(i, j);
                lemma_word_in_front(s, i, j);
                assert(word_at(s, i, j));
            }
            if has_closed_word(s, w) {
                let (i, j) = choose|i: int, j: int| #[trigger]
                    word_at(s, i, j) && j < s.len() && w == s.subrange(i, j);
                lemma_word_in_front(s, i, j);
                assert(word_at(t, i, j));
            }
        }
    }
}

/// A scope has exactly the names that stand in it between white space.
pub proof fn law_scope_names_stand_between_spaces(scope: Seq<char>, name: Seq<char>)
    ensures
        scope_has(scope, name) <==> has_word(scope, name),
        words(scope).contains(name) <==> has_word(scope, name),
{
    lemma_last_start(scope);
    lemma_closed_words(scope, name);
    lemma_words_split(scope, name);
    let ps = pieces(scope, Cut::Blank);
    lemma_push_contains(nonempty(ps.drop_last()), ps.last(), name);
}

/// Words put behind a text with a space between come last among its words, and
/// a text without characters has none: the words of a list are in its order.
pub proof fn law_words_are_in_order(s: Seq<char>, w: Seq<char>)
    requires
        w.len() > 0,
        forall|i: int| 0 <= i < w.len() ==> !is_space(#[trigger] w[i]),
    ensures
        words(s.push(' ') + w) == words(s).push(w),
        words(Seq::<char>::empty()).len() == 0,
{
    let p = s.push(' ');
    assert(p.drop_last() =~= s);
    assert(pieces(p, Cut::Blank) =~= pieces(s, Cut::Blank).push(Seq::<char>::empty()));
    lemma_piece_grows(p, w, pieces(s, Cut::Blank));
    assert(pieces(p + w, Cut::Blank).drop_last() =~= pieces(s, Cut::Blank));
    reveal_with_fuel(nonempty, 2);
    assert(pieces(Seq::<char>::empty(), Cut::Blank).drop_last() =~= Seq::<Seq<char>>::empty());
}

proof fn lemma_piece_grows(p: Seq<char>, w: Seq<char>, done: Seq<Seq<char>>)
    requires
        pieces(p, Cut::Blank) == done.push(Seq::<char>::empty()),
        forall|i: int| 0 <= i < w.len() ==> !is_space(#[trigger] w[i]),
    ensures
        pieces(p + w, Cut::Blank) == done.push(w),
    decreases w.len(),
{
    if w.len() == 0 {
        assert(p + w =~= p);
        assert(w =~= Seq::<char>::empty());
    } else {
        let v = w.drop_last();
        assert forall|i: int| 0 <= i < v.len() implies !is_space(#[trigger] v[i]) by {
            assert(v[i] == w[i]);
        }
        lemma_piece_grows(p, v, done);
        assert((p + w).drop_last() =~= p + v);
        assert((p + w).last() == w.last());
        assert(w.last() == w[w.len() - 1]);
        assert(v.push(w.last()) =~= w);
        assert(done.push(v).drop_last() =~= done);
    }
}

/// A text without white space is its only word.
pub(crate) proof fn lemma_only_word(w: Seq<char>)
    requires
        w.len() > 0,
        forall|i: int| 0 <= i < w.len() ==> !is_space(#[trigger] w[i]),
    ensures
        words(w) == seq![w],
{
    let none = Seq::<char>::empty();
    assert(pieces(none, Cut::Blank) =~= Seq::<Seq<char>>::empty().push(none));
    lemma_piece_grows(none, w, Seq::empty());
    assert(none + w =~= w);
    assert(Seq::<Seq<char>>::empty().push(w).drop_last() =~= Seq::<Seq<char>>::empty());
    reveal_with_fuel(nonempty, 2);
    assert(words(w) =~= seq![w]);
}

/// Trimming a text leaves its words.
pub(crate) proof fn lemma_words_of_trimmed(s: Seq<char>)
    ensures
        words(trimmed(s)) == words(s),
{
    lemma_words_trimmed_start(s);
    lemma_words_trimmed_end(s);
    lemma_words_trimmed_start(trimmed_end(s));
    lemma_words_trimmed_end(trimmed_start(s));
}

proof fn lemma_words_trimmed_end(s: Seq<char>)
    ensures
        words(trimmed_end(s)) == words(s),
    decreases s.len(),
{
    if s.len() > 0 && is_space(s.last()) {
        lemma_words_trimmed_end(s.drop_last());
        let before = pieces(s.drop_last(), Cut::Blank);
        assert(before.push(Seq::<char>::empty()).drop_last() =~= before);
    }
}

proof fn lemma_words_trimmed_start(s: Seq<char>)
    ensures
        words(trimmed_start(s)) == words(s),
    decreases s.len(),
{
    if s.len() > 0 && is_space(s[0]) {
        let t = s.skip(1);
        lemma_words_trimmed_start(t);
        lemma_blank_in_front(s);
        lemma_empty_in_front(pieces(t, Cut::Blank));
    }
}

proof fn lemma_blank_in_front(s: Seq<char>)
    requires
        s.len() > 0,
        is_space(s[0]),
    ensures
        pieces(s, Cut::Blank) == seq![Seq::<char>::empty()] + pieces(s.skip(1), Cut::Blank),
    decreases s.len(),
{
    let none = seq![Seq::<char>::empty()];
    let t = s.skip(1);
    if s.len() == 1 {
        assert(s.drop_last() =~= Seq::<char>::empty());
        assert(t =~= Seq::<char>::empty());
        assert(pieces(s, Cut::Blank) =~= none + pieces(t, Cut::Blank));
    } else {
        let u = s.drop_last();
        lemma_blank_in_front(u);
        assert(u.skip(1) =~= t.drop_last());
        lemma_last_start(t.drop_last());
        let before = pieces(t.drop_last(), Cut::Blank);
        assert((none + before).last() == before.last());
        assert((none + before).drop_last() =~= none + before.drop_last());
        assert(s.last() == t.last());
        assert(pieces(s, Cut::Blank) =~= none + pieces(t, Cut::Blank));
    }
}

proof fn lemma_empty_in_front(ps: Seq<Seq<char>>)
    ensures
        nonempty(seq![Seq::<char>::empty()] + ps) == nonempty(ps),
    decreases ps.len(),
{
    let all = seq![Seq::<char>::empty()] + ps;
    if ps.len() == 0 {
        assert(all.drop_last() =~= Seq::<Seq<char>>::empty());
        assert(all.last().len() == 0);
        assert(nonempty(all.drop_last()) =~= nonempty(ps));
    } else {
        lemma_empty_in_front(ps.drop_last());
        assert(all.drop_last() =~= seq![Seq::<char>::empty()] + ps.drop_last());
        assert(all.last() == ps.last());
    }
}

/// Space, tab and line break are white space; no visible ASCII character is.
pub proof fn law_visible_characters_are_no_space(c: char)
    ensures
        is_space(' ') && is_space('\t') && is_space('\n') && is_space('\r'),
        '!' <= c <= '~' ==> !is_space(c),
{
}

/// A text is blank exactly when it says nothing.
pub proof fn law_blank_texts_say_nothing(s: Seq<char>)
    ensures
        is_blank(s) <==> !says_something(s),
{
    lemma_trimmed_end(s);
    lemma_trimmed_start(trimmed_end(s));
    lemma_trimmed_start(s);
    lemma_trimmed_end(trimmed_start(s));
}

proof fn lemma_trimmed_end(s: Seq<char>)
    ensures
        trimmed_end(s).len() == 0 <==> !says_something(s),
        says_something(trimmed_end(s)) <==> says_something(s),
    decreases s.len(),
{
    if s.len() > 0 {
        let t = s.drop_last();
        if is_space(s.last()) {
            lemma_trimmed_end(t);
            if says_something(s) {
                let i = choose|i: int| 0 <= i < s.len() && !is_space(#[trigger] s[i]);
                assert(t[i] == s[i]);
            }
            if says_something(t) {
                let i = choose|i: int| 0 <= i < t.len() && !is_space(#[trigger] t[i]);
                assert(t[i] == s[i]);
            }
        } else {
            assert(!is_space(s[s.len() - 1]));
        }
    }
}

proof fn lemma_trimmed_start(s: Seq<char>)
    ensures
        trimmed_start(s).len() == 0 <==> !says_something(s),
        says_something(trimmed_start(s)) <==> says_something(s),
    decreases s.len(),
{
    if s.len() > 0 {
        let t = s.skip(1);
        if is_space(s[0]) {
            lemma_trimmed_start(t);
            if says_something(s) {
                let i = choose|i: int| 0 <= i < s.len() && !is_space(#[trigger] s[i]);
                assert(t[i - 1] == s[i]);
            }
            if says_something(t) {
                let i = choose|i: int| 0 <= i < t.len() && !is_space(#[trigger] t[i]);
                assert(t[i] == s[i + 1]);
            }
        } else {
            assert(!is_space(s[0]));
        }
    }
}

/// Trimming takes away the white space on both sides and nothing else.
pub proof fn law_trimming_takes_the_blanks_around(a: Seq<char>, s: Seq<char>, b: Seq<char>)
    requires
        forall|i: int| 0 <= i < a.len() ==> is_space(#[trigger] a[i]),
        forall|i: int| 0 <= i < b.len() ==> is_space(#[trigger] b[i]),
        s.len() > 0,
        !is_space(s[0]),
        !is_space(s.last()),
    ensures
        trimmed_start(a + s) == s,
        trimmed_end(s + b) == s,
        trimmed(a + s + b) == s,
{
    lemma_blanks_before(a, s);
    lemma_blanks_behind(s, b);
    lemma_blanks_before(a, s + b);
    lemma_blanks_behind(a + s, b);
    assert(a + s + b =~= a + (s + b));
    assert((a + s).last() == s.last());
}

proof fn lemma_blanks_before(a: Seq<char>, s: Seq<char>)
    requires
        forall|i: int| 0 <= i < a.len() ==> is_space(#[trigger] a[i]),
        s.len() > 0,
        !is_space(s[0]),
    ensures
        trimmed_start(a + s) == s,
    decreases a.len(),
{
    if a.len() == 0 {
        assert(a + s =~= s);
    } else {
        let rest = a.skip(1);
        assert forall|i: int| 0 <= i < rest.len() implies is_space(#[trigger] rest[i]) by {
            assert(rest[i] == a[i + 1]);
        }
        lemma_blanks_before(rest, s);
        assert((a + s).skip(1) =~= rest + s);
        assert((a + s)[0] == a[0]);
    }
}

proof fn lemma_blanks_behind(s: Seq<char>, b: Seq<char>)
    requires
        forall|i: int| 0 <= i < b.len() ==> is_space(#[trigger] b[i]),
        s.len() > 0,
        !is_space(s.last()),
    ensures
        trimmed_end(s + b) == s,
    decreases b.len(),
{
    if b.len() == 0 {
        assert(s + b =~= s);
    } else {
        let rest = b.drop_last();
        assert forall|i: int| 0 <= i < rest.len() implies is_space(#[trigger] rest[i]) by {
            assert(rest[i] == b[i]);
        }
        lemma_blanks_behind(s, rest);
        assert((s + b).drop_last() =~= s + rest);
        assert((s + b).last() == b[b.len() - 1]);
    }
}

/// The four names that a scope can be made of.
pub open spec fn is_scope_name(w: Seq<char>) -> bool {
    w == "openid"@ || w == "profile"@ || w == "email"@ || w == "offline_access"@
}

/// A grant covers a request exactly when every name in the request stands in
/// the grant.
pub proof fn law_covering_is_by_names(granted: Seq<char>, requested: Seq<char>)
    ensures
        covers(granted, requested) <==> forall|w: Seq<char>| #[trigger]
            has_word(requested, w) ==> has_word(granted, w),
{
    assert forall|w: Seq<char>| true implies scope_has(granted, w) == #[trigger] has_word(
        granted,
        w,
    ) && scope_has(requested, w) == has_word(requested, w) by {
        law_scope_names_stand_between_spaces(granted, w);
        law_scope_names_stand_between_spaces(requested, w);
    }
    assert forall|w: Seq<char>| true implies scope_has(granted, w) == has_word(granted, w)
        && scope_has(requested, w) == #[trigger] has_word(requested, w) by {
        law_scope_names_stand_between_spaces(granted, w);
        law_scope_names_stand_between_spaces(requested, w);
    }
    if covers(granted, requested) {
        assert forall|w: Seq<char>| #[trigger] has_word(requested, w) implies has_word(
            granted,
            w,
        ) by {
            assert(scope_has(requested, w));
        }
    }
    if forall|w: Seq<char>| #[trigger] has_word(requested, w) ==> has_word(granted, w) {
        assert forall|w: Seq<char>| #[trigger] scope_has(requested, w) implies scope_has(
            granted,
            w,
        ) by {
            assert(has_word(requested, w));
            assert(has_word(granted, w));
        }
    }
}

/// A requested scope is in order exactly when each of its names is one of the
/// four that there are and one that the client registered.
pub proof fn law_requested_names_are_known_and_registered(
    requested: Seq<char>,
    registered: Seq<Seq<char>>,
)
    ensures
        scope_fault(requested, registered) is None <==> forall|w: Seq<char>| #[trigger]
            has_word(requested, w) ==> is_scope_name(w) && registered.contains(w),
{
    lemma_no_fault(words(requested), registered);
    assert forall|w: Seq<char>| true implies words(requested).contains(w) == #[trigger] has_word(
        requested,
        w,
    ) by {
        law_scope_names_stand_between_spaces(requested, w);
    }
    if scope_fault(requested, registered) is None {
        assert forall|w: Seq<char>| #[trigger] has_word(requested, w) implies is_scope_name(w)
            && registered.contains(w) by {
            assert(words(requested).contains(w));
            assert(word_fault(w, registered) is None);
        }
    }
    if forall|w: Seq<char>| #[trigger]
        has_word(requested, w) ==> is_scope_name(w) && registered.contains(w) {
        assert forall|w: Seq<char>| #[trigger] words(requested).contains(w) implies word_fault(
            w,
            registered,
        ) is None by {
            law_scope_names_stand_between_spaces(requested, w);
            assert(has_word(requested, w));
        }
    }
}

/// A consent screen has a line for a name exactly where the scope has the
/// name, and tells each of the four names apart from the others.
pub proof fn law_consent_screens_name_every_scope(
    info: ConsentRequestInfo,
    client_id: Seq<char>,
    scope: Seq<char>,
    name: Seq<char>,
)
    requires
        info.shows(client_id, scope),
    ensures
        info.client_id@ == client_id,
        has_word(scope, name) <==> exists|i: int|
            0 <= i < info.scopes@.len() && (#[trigger] info.scopes@[i]).scope@ == name,
        forall|i: int|
            0 <= i < info.scopes@.len() ==> (#[trigger] info.scopes@[i]).label@ == (
            if info.scopes@[i].scope@ == "openid"@ {
                "Sign in with your identity"@
            } else if info.scopes@[i].scope@ == "profile"@ {
                "Read your profile information"@
            } else if info.scopes@[i].scope@ == "email"@ {
                "Read your email address"@
            } else if info.scopes@[i].scope@ == "offline_access"@ {
                "Retain access while you are not present"@
            } else {
                "Additional access"@
            }),
{
    law_scope_names_stand_between_spaces(scope, name);
    if words(scope).contains(name) {
        let k = choose|k: int| 0 <= k < words(scope).len() && words(scope)[k] == name;
        assert(info.scopes@[k].scope@ == name);
    }
    if exists|i: int| 0 <= i < info.scopes@.len() && (#[trigger] info.scopes@[i]).scope@ == name {
        let i = choose|i: int|
            0 <= i < info.scopes@.len() && (#[trigger] info.scopes@[i]).scope@ == name;
        assert(words(scope)[i] == name);
    }
}

/// A character that a challenge may hold.
pub open spec fn is_challenge_char(c: char) -> bool {
    'A' <= c <= 'Z' || 'a' <= c <= 'z' || '0' <= c <= '9' || c == '-' || c == '.' || c == '_' || c
        == '~'
}

/// A challenge is accepted exactly when it has 43 to 128 characters and each
/// is a letter, a digit or one of `-._~`.
pub proof fn law_challenges_are_unreserved_text(c: Seq<char>)
    ensures
        challenge_ok(c) <==> 43 <= c.len() <= 128 && forall|i: int|
            0 <= i < c.len() ==> is_challenge_char(#[trigger] c[i]),
{
    if forall|i: int| 0 <= i < c.len() ==> is_challenge_char(#[trigger] c[i]) {
        lemma_ascii_bytes(c);
        assert forall|i: int| 0 <= i < encode_utf8(c).len() implies unreserved(
            #[trigger] encode_utf8(c)[i],
        ) by {
            assert(is_challenge_char(c[i]));
        }
    } else if challenge_ok(c) {
        lemma_unreserved_chars(c);
    }
}

proof fn lemma_ascii_bytes(c: Seq<char>)
    requires
        forall|i: int| 0 <= i < c.len() ==> is_challenge_char(#[trigger] c[i]),
    ensures
        encode_utf8(c) == c.map_values(|x: char| x as u8),
{
    assert forall|i: int| 0 <= i < c.len() implies '\0' <= #[trigger] c[i] <= '\u{7f}' by {
        assert(is_challenge_char(c[i]));
    }
    assert(is_ascii_chars(c));
    is_ascii_chars_encode_utf8(c);
    assert(encode_utf8(c) =~= c.map_values(|x: char| x as u8));
}

proof fn lemma_unreserved_chars(c: Seq<char>)
    requires
        forall|i: int| 0 <= i < encode_utf8(c).len() ==> unreserved(#[trigger] encode_utf8(c)[i]),
    ensures
        forall|i: int| 0 <= i < c.len() ==> is_challenge_char(#[trigger] c[i]),
    decreases c.len(),
{
    if c.len() > 0 {
        let rest = c.drop_first();
        let first: char = c[0];
        let u: u32 = first as u32;
        let head = encode_scalar(u);
        let tail = encode_utf8(rest);
        assert(encode_utf8(c) == head + tail);
        assert forall|i: int| 0 <= i < tail.len() implies unreserved(#[trigger] tail[i]) by {
            assert(encode_utf8(c)[head.len() + i] == tail[i]);
        }
        lemma_unreserved_chars(rest);
        assert(unreserved(head[0])) by {
            assert(encode_utf8(c)[0] == head[0]);
        }
        lemma_leading_bytes(u);
        assert(u <= 0x7f);
        assert(head[0] == (u & 0x7f) as u8);
        assert(unreserved(u as u8));
        lemma_unreserved_char(first);
        assert forall|i: int| 0 <= i < c.len() implies is_challenge_char(#[trigger] c[i]) by {
            if i > 0 {
                assert(rest[i - 1] == c[i]);
            }
        }
    }
}

proof fn lemma_unreserved_char(c: char)
    requires
        c as u32 <= 0x7f,
        unreserved((c as u32) as u8),
    ensures
        is_challenge_char(c),
{
}

proof fn lemma_leading_bytes(u: u32)
    by (bit_vector)
    ensures
        u <= 0x7f ==> (u & 0x7f) as u8 == u,
        (0xC0 | ((u >> 6) & 0x1F) as u8) >= 0x80,
        (0xE0 | ((u >> 12) & 0x0F) as u8) >= 0x80,
        (0xF0 | ((u >> 18) & 0x7) as u8) >= 0x80,
{
}

/// A requested scope that is not in order is refused for a name in it: for one
/// that is none of the four, or for one that the client did not register; and
/// the refusal names it.
pub proof fn law_faulty_names_are_told(requested: Seq<char>, registered: Seq<Seq<char>>)
    requires
        scope_fault(requested, registered) is Some,
    ensures
        exists|w: Seq<char>|
            {
                &&& #[trigger] has_word(requested, w)
                &&& !is_scope_name(w) || !registered.contains(w)
                &&& scope_fault(requested, registered)->0 == (if !is_scope_name(w) {
                    "unknown scope '"@ + w + "'"@
                } else {
                    "scope '"@ + w + "' is not registered for this client"@
                })
            },
{
    let ws = words(requested);
    lemma_faulty_word(ws, registered);
    let k = choose|k: int|
        0 <= k < ws.len() && word_fault(#[trigger] ws[k], registered) is Some && word_fault(
            ws[k],
            registered,
        ) == crate::oidc::scope::words_fault(ws, registered);
    assert(ws.contains(ws[k]));
    law_scope_names_stand_between_spaces(requested, ws[k]);
    assert(has_word(requested, ws[k]));
}

proof fn lemma_faulty_word(ws: Seq<Seq<char>>, registered: Seq<Seq<char>>)
    requires
        crate::oidc::scope::words_fault(ws, registered) is Some,
    ensures
        exists|k: int|
            0 <= k < ws.len() && word_fault(#[trigger] ws[k], registered) is Some && word_fault(
                ws[k],
                registered,
            ) == crate::oidc::scope::words_fault(ws, registered),
    decreases ws.len(),
{
    let front = ws.drop_last();
    if crate::oidc::scope::words_fault(front, registered) is Some {
        lemma_faulty_word(front, registered);
        let k = choose|k: int|
            0 <= k < front.len() && word_fault(#[trigger] front[k], registered) is Some
                && word_fault(front[k], registered) == crate::oidc::scope::words_fault(
                front,
                registered,
            );
        assert(ws[k] == front[k]);
    } else {
        assert(ws[ws.len() - 1] == ws.last());
    }
}

} // verus!
