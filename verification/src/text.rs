//! Text as sequences of characters: cutting, trimming, joining.

use vstd::prelude::*;

verus! {

/// `String::push`: the character is appended at the end.
pub assume_specification[ String::push ](s: &mut String, c: char)
    ensures
        final(s)@ == old(s)@.push(c),
;

/// `<str as PartialEq>::eq`: two string slices are equal exactly when they
/// hold the same characters.
pub assume_specification[ <str as PartialEq<str>>::eq ](a: &str, b: &str) -> (r: bool)
    ensures
        r == (a@ == b@),
;

/// Where a text is cut into pieces.
#[derive(Clone, Copy)]
pub enum Cut {
    /// At every character of Unicode's `White_Space` property.
    Blank,
    /// At every occurrence of one character.
    At(char),
    /// At every `/` and every `\`.
    Slash,
}

/// The characters of Unicode's `White_Space` property.
pub open spec fn is_space(c: char) -> bool {
    let u = c as u32;
    ||| 0x9 <= u <= 0xd
    ||| u == 0x20
    ||| u == 0x85
    ||| u == 0xa0
    ||| u == 0x1680
    ||| 0x2000 <= u <= 0x200a
    ||| u == 0x2028
    ||| u == 0x2029
    ||| u == 0x202f
    ||| u == 0x205f
    ||| u == 0x3000
}

pub fn space_char(c: char) -> (r: bool)
    ensures
        r == is_space(c),
{
    let u: u32 = c as u32;
    (0x9 <= u && u <= 0xd) || u == 0x20 || u == 0x85 || u == 0xa0 || u == 0x1680 || (0x2000 <= u
        && u <= 0x200a) || u == 0x2028 || u == 0x2029 || u == 0x202f || u == 0x205f || u == 0x3000
}

impl Cut {
    pub open spec fn hits(self, c: char) -> bool {
        match self {
            Cut::Blank => is_space(c),
            Cut::At(a) => c == a,
            Cut::Slash => c == '/' || c == '\\',
        }
    }

    pub fn is_hit(&self, c: char) -> (r: bool)
        ensures
            r == self.hits(c),
    {
        match self {
            Cut::Blank => space_char(c),
            Cut::At(a) => c == *a,
            Cut::Slash => c == '/' || c == '\\',
        }
    }
}

/// The pieces of `s` between the characters that `cut` hits, empty pieces
/// included: always one more than there are hits.
pub open spec fn pieces(s: Seq<char>, cut: Cut) -> Seq<Seq<char>>
    decreases s.len(),
{
    if s.len() == 0 {
        seq![Seq::<char>::empty()]
    } else {
        let before = pieces(s.drop_last(), cut);
        if cut.hits(s.last()) {
            before.push(Seq::<char>::empty())
        } else {
            before.drop_last().push(before.last().push(s.last()))
        }
    }
}

/// The pieces that hold at least one character, in order.
pub open spec fn nonempty(ps: Seq<Seq<char>>) -> Seq<Seq<char>>
    decreases ps.len(),
{
    if ps.len() == 0 {
        Seq::empty()
    } else if ps.last().len() > 0 {
        nonempty(ps.drop_last()).push(ps.last())
    } else {
        nonempty(ps.drop_last())
    }
}

/// The words of `s`: its nonempty pieces between white space.
pub open spec fn words(s: Seq<char>) -> Seq<Seq<char>> {
    nonempty(pieces(s, Cut::Blank))
}

/// `parts` with `sep` between neighbours.
pub open spec fn joined(parts: Seq<Seq<char>>, sep: Seq<char>) -> Seq<char>
    decreases parts.len(),
{
    if parts.len() == 0 {
        Seq::empty()
    } else if parts.len() == 1 {
        parts[0]
    } else {
        joined(parts.drop_last(), sep) + sep + parts.last()
    }
}

/// `s` without the white space at its end.
pub open spec fn trimmed_end(s: Seq<char>) -> Seq<char>
    decreases s.len(),
{
    if s.len() > 0 && is_space(s.last()) {
        trimmed_end(s.drop_last())
    } else {
        s
    }
}

/// `s` without the white space at its start.
pub open spec fn trimmed_start(s: Seq<char>) -> Seq<char>
    decreases s.len(),
{
    if s.len() > 0 && is_space(s[0]) {
        trimmed_start(s.skip(1))
    } else {
        s
    }
}

/// `s` without the white space at either end.
pub open spec fn trimmed(s: Seq<char>) -> Seq<char> {
    trimmed_end(trimmed_start(s))
}

pub open spec fn starts_with(s: Seq<char>, prefix: Seq<char>) -> bool {
    prefix.len() <= s.len() && s.take(prefix.len() as int) == prefix
}

pub open spec fn ends_with(s: Seq<char>, suffix: Seq<char>) -> bool {
    suffix.len() <= s.len() && s.skip(s.len() - suffix.len()) == suffix
}

/// The views of a sequence of strings.
pub open spec fn texts(v: Seq<String>) -> Seq<Seq<char>> {
    v.map_values(|s: String| s@)
}

/// The view of an optional string.
pub open spec fn opt_text(o: Option<String>) -> Option<Seq<char>> {
    match o {
        Some(s) => Some(s@),
        None => None,
    }
}

/// The view of an optional string slice.
pub open spec fn opt_str(o: Option<&str>) -> Option<Seq<char>> {
    match o {
        Some(s) => Some(s@),
        None => None,
    }
}

/// The characters of `s` in a vector.
pub fn chars_of(s: &str) -> (r: Vec<char>)
    ensures
        r@ == s@,
{
    let mut out: Vec<char> = Vec::new();
    for c in it: s.chars()
        invariant
            it.seq() == s@,
            out@ == s@.take(it.index() as int),
    {
        proof {
            assert(s@.take(it.index() + 1) =~= s@.take(it.index() as int).push(c));
        }
        out.push(c);
    }
    proof {
        assert(s@.take(s@.len() as int) =~= s@);
    }
    out
}

/// The string of the characters `from..to` of `cs`.
pub fn string_of(cs: &Vec<char>, from: usize, to: usize) -> (r: String)
    requires
        from <= to <= cs@.len(),
    ensures
        r@ == cs@.subrange(from as int, to as int),
{
    let mut out = String::new();
    let mut i: usize = from;
    while i < to
        invariant
            from <= i <= to <= cs@.len(),
            out@ == cs@.subrange(from as int, i as int),
        decreases to - i,
    {
        proof {
            assert(cs@.subrange(from as int, i + 1) =~= cs@.subrange(from as int, i as int).push(
                cs@[i as int],
            ));
        }
        out.push(cs[i]);
        i = i + 1;
    }
    out
}

pub fn same(a: &str, b: &str) -> (r: bool)
    ensures
        r == (a@ == b@),
{
    a.eq(b)
}

/// The pieces of `s` between the characters that `cut` hits.
pub fn split(s: &str, cut: Cut) -> (r: Vec<String>)
    ensures
        texts(r@) == pieces(s@, cut),
{
    let cs = chars_of(s);
    let mut out: Vec<String> = Vec::new();
    let mut current = String::new();
    let mut i: usize = 0;
    proof {
        assert(cs@.take(0) =~= Seq::<char>::empty());
        assert(texts(out@).push(current@) =~= pieces(cs@.take(0), cut));
    }
    while i < cs.len()
        invariant
            i <= cs@.len(),
            texts(out@).push(current@) == pieces(cs@.take(i as int), cut),
        decreases cs@.len() - i,
    {
        let c: char = cs[i];
        let ghost before = texts(out@);
        proof {
            assert(cs@.take(i + 1).drop_last() =~= cs@.take(i as int));
            assert(cs@.take(i + 1).last() == c);
            assert(before.push(current@).drop_last() =~= before);
        }
        if cut.is_hit(c) {
            out.push(current);
            proof {
                assert(texts(out@) =~= before.push(out@.last()@));
            }
            current = String::new();
        } else {
            current.push(c);
        }
        i = i + 1;
    }
    proof {
        assert(cs@.take(cs@.len() as int) =~= s@);
    }
    let ghost before = texts(out@);
    out.push(current);
    proof {
        assert(texts(out@) =~= before.push(out@.last()@));
    }
    out
}

/// The nonempty pieces of `s`.
pub fn split_nonempty(s: &str, cut: Cut) -> (r: Vec<String>)
    ensures
        texts(r@) == nonempty(pieces(s@, cut)),
{
    let all = split(s, cut);
    let mut out: Vec<String> = Vec::new();
    let mut i: usize = 0;
    proof {
        assert(texts(all@).take(0) =~= Seq::<Seq<char>>::empty());
        assert(texts(out@) =~= nonempty(texts(all@).take(0)));
    }
    while i < all.len()
        invariant
            i <= all@.len(),
            texts(out@) == nonempty(texts(all@).take(i as int)),
        decreases all@.len() - i,
    {
        let ghost before = texts(out@);
        proof {
            assert(texts(all@).take(i + 1).drop_last() =~= texts(all@).take(i as int));
            assert(texts(all@).take(i + 1).last() == all@[i as int]@);
        }
        if !all[i].as_str().is_empty() {
            out.push(all[i].clone());
            proof {
                assert(texts(out@) =~= before.push(all@[i as int]@));
            }
        }
        i = i + 1;
    }
    proof {
        assert(texts(all@).take(all@.len() as int) =~= texts(all@));
    }
    out
}

/// The words of `s`.
pub fn split_words(s: &str) -> (r: Vec<String>)
    ensures
        texts(r@) == words(s@),
{
    split_nonempty(s, Cut::Blank)
}

pub fn join(parts: &[String], sep: &str) -> (r: String)
    ensures
        r@ == joined(texts(parts@), sep@),
{
    let mut out = String::new();
    let mut i: usize = 0;
    while i < parts.len()
        invariant
            i <= parts@.len(),
            out@ == joined(texts(parts@).take(i as int), sep@),
        decreases parts@.len() - i,
    {
        proof {
            assert(texts(parts@).take(i + 1).drop_last() =~= texts(parts@).take(i as int));
            assert(texts(parts@).take(i + 1).last() == parts@[i as int]@);
            if i == 0 {
                assert(out@ + parts@[0]@ =~= parts@[0]@);
            }
        }
        if i > 0 {
            out.append(sep);
        }
        out.append(parts[i].as_str());
        i = i + 1;
    }
    proof {
        assert(texts(parts@).take(parts@.len() as int) =~= texts(parts@));
    }
    out
}

/// Whether `x` is one of `v`.
pub fn has_text(v: &[String], x: &str) -> (r: bool)
    ensures
        r == texts(v@).contains(x@),
{
    let mut i: usize = 0;
    while i < v.len()
        invariant
            i <= v@.len(),
            forall|j: int| 0 <= j < i ==> texts(v@)[j] != x@,
        decreases v@.len() - i,
    {
        if same(v[i].as_str(), x) {
            proof {
                assert(texts(v@)[i as int] == x@);
            }
            return true;
        }
        i = i + 1;
    }
    false
}

/// `s` without the white space at either end.
pub fn trim(s: &str) -> (r: String)
    ensures
        r@ == trimmed(s@),
{
    let cs = chars_of(s);
    let mut from: usize = 0;
    proof {
        assert(cs@.skip(0) =~= cs@);
    }
    while from < cs.len() && space_char(cs[from])
        invariant
            from <= cs@.len(),
            trimmed_start(cs@) == trimmed_start(cs@.skip(from as int)),
        decreases cs@.len() - from,
    {
        proof {
            assert(cs@.skip(from as int).skip(1) =~= cs@.skip(from + 1));
        }
        from = from + 1;
    }
    let ghost rest = cs@.skip(from as int);
    let mut to: usize = cs.len();
    proof {
        assert(cs@.subrange(from as int, to as int) =~= rest);
    }
    while to > from && space_char(cs[to - 1])
        invariant
            from <= to <= cs@.len(),
            trimmed_end(rest) == trimmed_end(cs@.subrange(from as int, to as int)),
        decreases to,
    {
        proof {
            assert(cs@.subrange(from as int, to as int).drop_last() =~= cs@.subrange(
                from as int,
                to - 1,
            ));
        }
        to = to - 1;
    }
    string_of(&cs, from, to)
}

/// What follows `prefix` in `s`, where `s` starts with it.
pub fn strip_prefix(s: &str, prefix: &str) -> (r: Option<String>)
    ensures
        r is Some <==> starts_with(s@, prefix@),
        r matches Some(rest) ==> rest@ == s@.skip(prefix@.len() as int),
{
    let cs = chars_of(s);
    let ps = chars_of(prefix);
    if ps.len() > cs.len() {
        return None;
    }
    let mut i: usize = 0;
    while i < ps.len()
        invariant
            i <= ps@.len() <= cs@.len(),
            cs@ == s@,
            ps@ == prefix@,
            forall|j: int| 0 <= j < i ==> cs@[j] == ps@[j],
        decreases ps@.len() - i,
    {
        if cs[i] != ps[i] {
            proof {
                assert(cs@.take(ps@.len() as int)[i as int] != ps@[i as int]);
            }
            return None;
        }
        i = i + 1;
    }
    proof {
        assert(cs@.take(ps@.len() as int) =~= ps@);
        assert(cs@.subrange(ps@.len() as int, cs@.len() as int) =~= cs@.skip(ps@.len() as int));
    }
    Some(string_of(&cs, ps.len(), cs.len()))
}

/// What precedes `suffix` in `s`, where `s` ends with it.
pub fn strip_suffix(s: &str, suffix: &str) -> (r: Option<String>)
    ensures
        r is Some <==> ends_with(s@, suffix@),
        r matches Some(rest) ==> rest@ == s@.take(s@.len() - suffix@.len()),
{
    let cs = chars_of(s);
    let ps = chars_of(suffix);
    if ps.len() > cs.len() {
        return None;
    }
    let start: usize = cs.len() - ps.len();
    let mut i: usize = 0;
    while i < ps.len()
        invariant
            i <= ps@.len() <= cs@.len(),
            cs@ == s@,
            ps@ == suffix@,
            start == cs@.len() - ps@.len(),
            forall|j: int| 0 <= j < i ==> cs@[start + j] == ps@[j],
        decreases ps@.len() - i,
    {
        let at: usize = cs.len() - (ps.len() - i);
        if cs[at] != ps[i] {
            proof {
                assert(at == start + i);
                assert(cs@.skip(start as int)[i as int] != ps@[i as int]);
            }
            return None;
        }
        i = i + 1;
    }
    proof {
        assert(cs@.skip(start as int) =~= ps@);
        assert(cs@.subrange(0, start as int) =~= cs@.take(start as int));
    }
    Some(string_of(&cs, 0, start))
}

/// Whether `c` occurs in `s`.
pub fn has_char(s: &str, c: char) -> (r: bool)
    ensures
        r == s@.contains(c),
{
    let cs = chars_of(s);
    let mut i: usize = 0;
    while i < cs.len()
        invariant
            i <= cs@.len(),
            cs@ == s@,
            forall|j: int| 0 <= j < i ==> cs@[j] != c,
        decreases cs@.len() - i,
    {
        if cs[i] == c {
            proof {
                assert(s@[i as int] == c);
            }
            return true;
        }
        i = i + 1;
    }
    false
}

pub fn cat(a: &str, b: &str) -> (r: String)
    ensures
        r@ == a@ + b@,
{
    let mut out = a.to_owned();
    out.append(b);
    out
}

pub fn cat3(a: &str, b: &str, c: &str) -> (r: String)
    ensures
        r@ == a@ + b@ + c@,
{
    let mut out = a.to_owned();
    out.append(b);
    out.append(c);
    out
}

pub fn cat5(a: &str, b: &str, c: &str, d: &str, e: &str) -> (r: String)
    ensures
        r@ == a@ + b@ + c@ + d@ + e@,
{
    let mut out = a.to_owned();
    out.append(b);
    out.append(c);
    out.append(d);
    out.append(e);
    out
}

/// A copy of a list of strings.
pub fn copy_texts(v: &[String]) -> (r: Vec<String>)
    ensures
        texts(r@) == texts(v@),
{
    let mut out: Vec<String> = Vec::new();
    let mut i: usize = 0;
    while i < v.len()
        invariant
            i <= v@.len(),
            texts(out@) == texts(v@).take(i as int),
        decreases v@.len() - i,
    {
        let ghost before = texts(out@);
        out.push(v[i].clone());
        proof {
            assert(texts(out@) =~= before.push(v@[i as int]@));
            assert(texts(v@).take(i + 1) =~= before.push(v@[i as int]@));
        }
        i = i + 1;
    }
    proof {
        assert(texts(v@).take(v@.len() as int) =~= texts(v@));
    }
    out
}

/// A copy of an optional string.
pub fn copy_opt(o: &Option<String>) -> (r: Option<String>)
    ensures
        opt_text(r) == opt_text(*o),
{
    match o {
        Some(s) => Some(s.clone()),
        None => None,
    }
}

/// The optional string as an optional slice.
pub fn as_opt_str(o: &Option<String>) -> (r: Option<&str>)
    ensures
        opt_str(r) == opt_text(*o),
{
    match o {
        Some(s) => Some(s.as_str()),
        None => None,
    }
}

/// Whether a text holds nothing but white space.
pub open spec fn is_blank(s: Seq<char>) -> bool {
    trimmed(s).len() == 0
}

pub fn blank(s: &str) -> (r: bool)
    ensures
        r == is_blank(s@),
{
    trim(s).as_str().is_empty()
}

/// The first part of `s` up to the first `c`, and what follows that `c`.
pub open spec fn split_first(s: Seq<char>, c: char) -> Option<(Seq<char>, Seq<char>)> {
    match s.index_of_first(c) {
        Some(i) => Some((s.take(i), s.skip(i + 1))),
        None => None,
    }
}

pub fn split_once(s: &str, c: char) -> (r: Option<(String, String)>)
    ensures
        r is Some <==> split_first(s@, c) is Some,
        r matches Some(p) ==> split_first(s@, c) == Some((p.0@, p.1@)),
{
    let cs = chars_of(s);
    let mut i: usize = 0;
    proof {
        s@.index_of_first_ensures(c);
    }
    while i < cs.len()
        invariant
            i <= cs@.len(),
            cs@ == s@,
            forall|j: int| 0 <= j < i ==> cs@[j] != c,
        decreases cs@.len() - i,
    {
        if cs[i] == c {
            proof {
                s@.index_of_first_ensures(c);
                assert(s@.contains(s@[i as int]));
                assert(s@.index_of_first(c) == Some(i as int));
                assert(cs@.subrange(0, i as int) =~= s@.take(i as int));
                assert(cs@.subrange(i + 1, cs@.len() as int) =~= s@.skip(i + 1));
            }
            return Some((string_of(&cs, 0, i), string_of(&cs, i + 1, cs.len())));
        }
        i = i + 1;
    }
    None
}

/// The ASCII lower-case form of a character.
pub open spec fn ascii_lower(c: char) -> char {
    if 'A' <= c <= 'Z' {
        (c as u32 + 32) as char
    } else {
        c
    }
}

/// Whether two texts differ at most in the case of ASCII letters.
pub open spec fn same_ignoring_case(a: Seq<char>, b: Seq<char>) -> bool {
    &&& a.len() == b.len()
    &&& forall|i: int| 0 <= i < a.len() ==> ascii_lower(#[trigger] a[i]) == ascii_lower(b[i])
}

fn lower_char(c: char) -> (r: char)
    ensures
        r == ascii_lower(c),
{
    if 'A' <= c && c <= 'Z' {
        ((c as u8) + 32) as char
    } else {
        c
    }
}

pub fn eq_ignore_ascii_case(a: &str, b: &str) -> (r: bool)
    ensures
        r == same_ignoring_case(a@, b@),
{
    let x = chars_of(a);
    let y = chars_of(b);
    if x.len() != y.len() {
        return false;
    }
    let mut i: usize = 0;
    while i < x.len()
        invariant
            i <= x@.len(),
            x@ == a@,
            y@ == b@,
            x@.len() == y@.len(),
            forall|j: int| 0 <= j < i ==> ascii_lower(#[trigger] x@[j]) == ascii_lower(y@[j]),
        decreases x@.len() - i,
    {
        if lower_char(x[i]) != lower_char(y[i]) {
            proof {
                assert(ascii_lower(a@[i as int]) != ascii_lower(b@[i as int]));
            }
            return false;
        }
        i = i + 1;
    }
    true
}

/// The first of `ws` that is not one of `allowed`.
pub open spec fn first_outside(ws: Seq<Seq<char>>, allowed: Seq<Seq<char>>) -> Option<Seq<char>>
    decreases ws.len(),
{
    if ws.len() == 0 {
        None
    } else {
        let earlier = first_outside(ws.drop_last(), allowed);
        if earlier is Some {
            earlier
        } else if allowed.contains(ws.last()) {
            None
        } else {
            Some(ws.last())
        }
    }
}

proof fn lemma_first_outside(ws: Seq<Seq<char>>, n: int, allowed: Seq<Seq<char>>)
    requires
        0 <= n <= ws.len(),
        first_outside(ws.take(n), allowed) is Some,
    ensures
        first_outside(ws, allowed) == first_outside(ws.take(n), allowed),
    decreases ws.len() - n,
{
    if n == ws.len() {
        assert(ws.take(n) =~= ws);
    } else {
        assert(ws.take(n + 1).drop_last() =~= ws.take(n));
        lemma_first_outside(ws, n + 1, allowed);
    }
}

/// Nothing of `ws` is outside `allowed` exactly when all of it is inside.
pub proof fn lemma_none_outside(ws: Seq<Seq<char>>, allowed: Seq<Seq<char>>)
    ensures
        first_outside(ws, allowed) is None <==> forall|i: int|
            0 <= i < ws.len() ==> allowed.contains(#[trigger] ws[i]),
        first_outside(ws, allowed) matches Some(w) ==> ws.contains(w) && !allowed.contains(w),
    decreases ws.len(),
{
    if ws.len() > 0 {
        let front = ws.drop_last();
        lemma_none_outside(front, allowed);
        assert(ws.last() == ws[ws.len() - 1]);
        assert forall|i: int| 0 <= i < front.len() implies #[trigger] front[i] == ws[i] by {}
        if first_outside(ws, allowed) is None {
            assert forall|i: int| 0 <= i < ws.len() implies allowed.contains(#[trigger] ws[i]) by {
                if i < front.len() {
                    assert(allowed.contains(front[i]));
                }
            }
        } else {
            let w = first_outside(ws, allowed)->0;
            if first_outside(front, allowed) is Some {
                let k = choose|k: int| 0 <= k < front.len() && front[k] == w;
                assert(ws[k] == w);
                assert(!allowed.contains(ws[k]));
            } else {
                assert(!allowed.contains(ws[ws.len() - 1]));
            }
        }
    }
}

/// The first of `ws` that is not one of `allowed`.
pub fn find_outside(ws: &[String], allowed: &[String]) -> (r: Option<String>)
    ensures
        opt_text(r) == first_outside(texts(ws@), texts(allowed@)),
{
    let ghost all = texts(ws@);
    let mut i: usize = 0;
    while i < ws.len()
        invariant
            i <= ws@.len(),
            all == texts(ws@),
            first_outside(all.take(i as int), texts(allowed@)) is None,
        decreases ws@.len() - i,
    {
        proof {
            assert(all.take(i + 1).drop_last() =~= all.take(i as int));
            assert(all.take(i + 1).last() == ws@[i as int]@);
        }
        if !has_text(allowed, ws[i].as_str()) {
            proof {
                lemma_first_outside(all, i + 1, texts(allowed@));
            }
            return Some(ws[i].clone());
        }
        i = i + 1;
    }
    proof {
        assert(all.take(all.len() as int) =~= all);
    }
    None
}

/// A list of one string.
pub fn one_text(a: &str) -> (r: Vec<String>)
    ensures
        texts(r@) == seq![a@],
{
    let mut v: Vec<String> = Vec::new();
    v.push(a.to_owned());
    proof {
        assert(texts(v@) =~= seq![a@]);
    }
    v
}

} // verus!
