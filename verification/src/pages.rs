//! Pages: which file answers a request, and whether it has to be sent.

use crate::outside::{
    guess_media_type, hex_encode, hex_of, media_type_of, percent_decode, percent_decoded,
};
use crate::text::{
    cat, cat3, ends_with, join, joined, opt_str, opt_text, pieces, same, split, starts_with,
    strip_prefix, strip_suffix, texts, trim, trimmed, Cut,
};
use vstd::prelude::*;
use vstd::utf8::{decode_utf8, encode_utf8, encode_utf8_decode_utf8, valid_utf8};

verus! {

/// The store key of a domain's page directory.
pub fn pages_config_key(domain: &str) -> (r: String)
    ensures
        r@ == "pages."@ + domain@,
{
    cat("pages.", domain)
}

/// Whether a segment stands for the directory it is in.
pub open spec fn is_neutral(seg: Seq<char>) -> bool {
    seg.len() == 0 || seg == "."@
}

/// The segments that lead somewhere, in order.
pub open spec fn steps(segs: Seq<Seq<char>>) -> Seq<Seq<char>>
    decreases segs.len(),
{
    if segs.len() == 0 {
        Seq::empty()
    } else if is_neutral(segs.last()) {
        steps(segs.drop_last())
    } else {
        steps(segs.drop_last()).push(segs.last())
    }
}

/// The way from a root to what a decoded path names; none where the path has a
/// segment that leads up, or leads nowhere.
pub open spec fn way(decoded: Seq<char>) -> Option<Seq<Seq<char>>> {
    let segs = pieces(decoded, Cut::Slash);
    if segs.contains(".."@) || steps(segs).len() == 0 {
        None
    } else {
        Some(steps(segs))
    }
}

/// The way that a request path names, after percent-decoding.
pub open spec fn confined_way(rel: Seq<char>) -> Option<Seq<Seq<char>>> {
    let bytes = percent_decoded(encode_utf8(rel));
    if valid_utf8(bytes) {
        way(decode_utf8(bytes))
    } else {
        None
    }
}

/// The view of an optional list of strings.
pub open spec fn opt_list(o: Option<Vec<String>>) -> Option<Seq<Seq<char>>> {
    match o {
        Some(v) => Some(texts(v@)),
        None => None,
    }
}

/// The segments that lead from a root to what a decoded path names.
pub fn way_below(decoded: &str) -> (r: Option<Vec<String>>)
    ensures
        opt_list(r) == way(decoded@),
{
    let segs = split(decoded, Cut::Slash);
    let ghost all = texts(segs@);
    let mut out: Vec<String> = Vec::new();
    let mut i: usize = 0;
    proof {
        assert(texts(out@) =~= steps(all.take(0)));
    }
    while i < segs.len()
        invariant
            i <= segs@.len(),
            all == texts(segs@),
            all == pieces(decoded@, Cut::Slash),
            texts(out@) == steps(all.take(i as int)),
            forall|j: int| 0 <= j < i ==> all[j] != ".."@,
        decreases segs@.len() - i,
    {
        let ghost before = texts(out@);
        proof {
            assert(all.take(i + 1).drop_last() =~= all.take(i as int));
            assert(all.take(i + 1).last() == segs@[i as int]@);
        }
        let seg = segs[i].as_str();
        if same(seg, "..") {
            proof {
                assert(all[i as int] == ".."@);
                assert(all.contains(".."@));
            }
            return None;
        }
        if !seg.is_empty() && !same(seg, ".") {
            out.push(segs[i].clone());
            proof {
                assert(texts(out@) =~= before.push(segs@[i as int]@));
            }
        }
        i = i + 1;
    }
    proof {
        assert(all.take(all.len() as int) =~= all);
    }
    if out.len() == 0 {
        None
    } else {
        Some(out)
    }
}

/// A path below a root.
pub open spec fn below(root: Seq<char>, way: Seq<Seq<char>>) -> Seq<char> {
    if root.len() == 0 || root.last() == '/' {
        root + joined(way, "/"@)
    } else {
        root + "/"@ + joined(way, "/"@)
    }
}

/// The file below `root` that a request path names. The path is decoded first;
/// one that leads up, or to the root itself, names none.
pub fn confine(root: &str, rel: &str) -> (r: Option<String>)
    ensures
        opt_text(r) == (match confined_way(rel@) {
            Some(w) => Some(below(root@, w)),
            None => None,
        }),
{
    let decoded = match percent_decode(rel) {
        Some(d) => d,
        None => {
            return None;
        },
    };
    proof {
        encode_utf8_decode_utf8(decoded@);
    }
    let way = match way_below(decoded.as_str()) {
        Some(w) => w,
        None => {
            return None;
        },
    };
    let tail = join(&way, "/");
    proof {
        reveal_strlit("/");
        assert("/"@ =~= seq!['/']);
        if root@.len() > 0 {
            assert(root@.skip(root@.len() - 1) =~= seq![root@.last()]);
            if ends_with(root@, "/"@) {
                assert(seq![root@.last()][0] == seq!['/'][0]);
            } else if root@.last() == '/' {
                assert(root@.skip(root@.len() - 1) =~= "/"@);
            }
        }
    }
    if root.is_empty() {
        return Some(cat(root, tail.as_str()));
    }
    match strip_suffix(root, "/") {
        Some(_) => Some(cat(root, tail.as_str())),
        None => Some(cat3(root, "/", tail.as_str())),
    }
}

proof fn lemma_pieces_have_no_cut(s: Seq<char>, cut: Cut)
    ensures
        forall|i: int, j: int|
            0 <= i < pieces(s, cut).len() && 0 <= j < pieces(s, cut)[i].len() ==> !cut.hits(
                #[trigger] pieces(s, cut)[i][j],
            ),
        pieces(s, cut).len() >= 1,
    decreases s.len(),
{
    if s.len() > 0 {
        let before = pieces(s.drop_last(), cut);
        lemma_pieces_have_no_cut(s.drop_last(), cut);
        let after = pieces(s, cut);
        assert forall|i: int, j: int|
            0 <= i < after.len() && 0 <= j < after[i].len() implies !cut.hits(
            #[trigger] after[i][j],
        ) by {
            if i < before.len() - 1 {
                assert(after[i] == before[i]);
                assert(!cut.hits(before[i][j]));
            } else if cut.hits(s.last()) {
                if i < before.len() {
                    assert(after[i] == before[i]);
                    assert(!cut.hits(before[i][j]));
                }
            } else {
                let last = before.len() - 1;
                assert(before.last() == before[last]);
                if j < before.last().len() {
                    assert(!cut.hits(before[last][j]));
                }
            }
        }
    }
}

proof fn lemma_steps_are_segments(segs: Seq<Seq<char>>)
    ensures
        forall|i: int|
            0 <= i < steps(segs).len() ==> segs.contains(#[trigger] steps(segs)[i]) && !is_neutral(
                steps(segs)[i],
            ),
    decreases segs.len(),
{
    if segs.len() > 0 {
        let front = segs.drop_last();
        lemma_steps_are_segments(front);
        assert forall|i: int| 0 <= i < steps(segs).len() implies segs.contains(
            #[trigger] steps(segs)[i],
        ) && !is_neutral(steps(segs)[i]) by {
            if i < steps(front).len() {
                let w = steps(front)[i];
                assert(steps(segs)[i] == w);
                assert(front.contains(w));
                let k = choose|k: int| 0 <= k < front.len() && front[k] == w;
                assert(segs[k] == w);
            } else {
                assert(segs[segs.len() - 1] == segs.last());
            }
        }
    }
}

/// Whatever path is asked for, the file is below the root: the path starts
/// with the root, and no segment behind it is empty, leads up, or holds a
/// slash of either kind.
pub proof fn law_files_stay_below_the_root(root: Seq<char>, rel: Seq<char>, i: int, j: int)
    requires
        confined_way(rel) is Some,
        0 <= i < confined_way(rel)->0.len(),
    ensures
        starts_with(below(root, confined_way(rel)->0), root),
        confined_way(rel)->0[i].len() > 0,
        confined_way(rel)->0[i] != "."@,
        confined_way(rel)->0[i] != ".."@,
        0 <= j < confined_way(rel)->0[i].len() ==> confined_way(rel)->0[i][j] != '/'
            && confined_way(rel)->0[i][j] != '\\',
{
    let decoded = decode_utf8(percent_decoded(encode_utf8(rel)));
    let segs = pieces(decoded, Cut::Slash);
    let w = confined_way(rel)->0;
    lemma_steps_are_segments(segs);
    lemma_pieces_have_no_cut(decoded, Cut::Slash);
    assert(segs.contains(w[i]));
    let k = choose|k: int| 0 <= k < segs.len() && segs[k] == w[i];
    if 0 <= j < w[i].len() {
        assert(!Cut::Slash.hits(segs[k][j]));
    }
    assert(below(root, w).take(root.len() as int) =~= root);
}

/// The hexadecimal digits of a number.
pub open spec fn hex_number(n: nat) -> Seq<char>
    decreases n,
{
    if n < 16 {
        seq![crate::outside::hex_lower(n as u8)]
    } else {
        hex_number(n / 16).push(crate::outside::hex_lower((n % 16) as u8))
    }
}

fn hex_digit(n: u8) -> (r: char)
    requires
        n < 16,
    ensures
        r == crate::outside::hex_lower(n),
{
    if n < 10 {
        (0x30u8 + n) as char
    } else {
        (0x57u8 + n) as char
    }
}

/// The hexadecimal digits of a number.
pub fn hex_text(n: u64) -> (r: String)
    ensures
        r@ == hex_number(n as nat),
    decreases n,
{
    if n < 16 {
        let mut s = String::new();
        s.push(hex_digit(n as u8));
        proof {
            assert(s@ =~= hex_number(n as nat));
        }
        s
    } else {
        let mut s = hex_text(n / 16);
        s.push(hex_digit((n % 16) as u8));
        s
    }
}

/// The weak validator of a file on disk: when it was changed, and its length.
pub open spec fn disk_tag(secs: nat, nanos: nat, len: nat) -> Seq<char> {
    "W/\""@ + hex_number(secs) + "-"@ + hex_number(nanos) + "-"@ + hex_number(len) + "\""@
}

/// The weak validator of a file on disk: when it was changed, and its length.
pub fn disk_etag(secs: u64, nanos: u32, len: u64) -> (r: String)
    ensures
        r@ == disk_tag(secs as nat, nanos as nat, len as nat),
{
    let mut s = "W/\"".to_owned();
    s.append(hex_text(secs).as_str());
    s.append("-");
    s.append(hex_text(nanos as u64).as_str());
    s.append("-");
    s.append(hex_text(len).as_str());
    s.append("\"");
    s
}

/// The strong validator of an embedded file: the digest of what it holds.
pub fn embedded_etag(digest: &[u8]) -> (r: String)
    ensures
        r@ == "\""@ + hex_of(digest@) + "\""@,
{
    cat3("\"", hex_encode(digest).as_str(), "\"")
}

/// A validator without the mark of a weak one.
pub open spec fn bare_tag(tag: Seq<char>) -> Seq<char> {
    if starts_with(tag, "W/"@) {
        tag.skip(2)
    } else {
        tag
    }
}

fn strip_weak(tag: &str) -> (r: String)
    ensures
        r@ == bare_tag(tag@),
{
    proof {
        reveal_strlit("W/");
    }
    match strip_prefix(tag, "W/") {
        Some(t) => t,
        None => tag.to_owned(),
    }
}

/// Whether one candidate of a conditional request stands for a validator.
pub open spec fn candidate_hits(candidate: Seq<char>, etag: Seq<char>) -> bool {
    trimmed(candidate) == "*"@ || bare_tag(trimmed(candidate)) == bare_tag(etag)
}

/// Whether a caller has the file already: any candidate, weak or strong,
/// stands for it.
pub open spec fn has_copy(if_none_match: Option<Seq<char>>, etag: Seq<char>) -> bool {
    match if_none_match {
        Some(h) => exists|i: int|
            0 <= i < pieces(h, Cut::At(',')).len() && candidate_hits(
                #[trigger] pieces(h, Cut::At(','))[i],
                etag,
            ),
        None => false,
    }
}

/// Whether a conditional request shows that the caller has the file already.
pub fn revalidates(if_none_match: Option<&str>, etag: &str) -> (r: bool)
    ensures
        r == has_copy(opt_str(if_none_match), etag@),
{
    let header = match if_none_match {
        Some(h) => h,
        None => {
            return false;
        },
    };
    let bare = strip_weak(etag);
    let candidates = split(header, Cut::At(','));
    let ghost all = pieces(header@, Cut::At(','));
    let mut i: usize = 0;
    while i < candidates.len()
        invariant
            i <= candidates@.len(),
            texts(candidates@) == all,
            all == pieces(header@, Cut::At(',')),
            bare@ == bare_tag(etag@),
            if_none_match == Some(header),
            forall|j: int| 0 <= j < i ==> !candidate_hits(#[trigger] all[j], etag@),
        decreases candidates@.len() - i,
    {
        proof {
            assert(all[i as int] == candidates@[i as int]@);
        }
        let c = trim(candidates[i].as_str());
        let c_bare = strip_weak(c.as_str());
        if same(c.as_str(), "*") || same(c_bare.as_str(), bare.as_str()) {
            proof {
                assert(texts(candidates@).len() == candidates@.len());
                let k = i as int;
                assert(0 <= k < pieces(header@, Cut::At(',')).len());
                assert(pieces(header@, Cut::At(','))[k] == candidates@[k]@);
                assert(trimmed(pieces(header@, Cut::At(','))[k]) == c@);
                assert(candidate_hits(pieces(header@, Cut::At(','))[k], etag@));
                assert(has_copy(Some(header@), etag@));
                assert(opt_str(if_none_match) == Some(header@));
            }
            return true;
        }
        i = i + 1;
    }
    false
}

/// Which file answers, and how.
#[derive(Clone, Copy, Debug, PartialEq, Eq, Structural)]
pub enum Served {
    /// The caller has the file on disk already.
    DiskUnchanged,
    Disk,
    /// The caller has the embedded file already.
    EmbeddedUnchanged,
    Embedded,
    NotFound,
}

/// Which file answers: one on disk comes before the embedded one; a file that
/// the caller has is not sent. `disk` is the validator of the file on disk and
/// whether it can be read.
pub open spec fn served(
    if_none_match: Option<Seq<char>>,
    disk: Option<(Seq<char>, bool)>,
    embedded: Option<Seq<char>>,
) -> Served {
    match disk {
        Some((tag, readable)) => if has_copy(if_none_match, tag) {
            Served::DiskUnchanged
        } else if readable {
            Served::Disk
        } else {
            served_embedded(if_none_match, embedded)
        },
        None => served_embedded(if_none_match, embedded),
    }
}

pub open spec fn served_embedded(
    if_none_match: Option<Seq<char>>,
    embedded: Option<Seq<char>>,
) -> Served {
    match embedded {
        Some(tag) => if has_copy(if_none_match, tag) {
            Served::EmbeddedUnchanged
        } else {
            Served::Embedded
        },
        None => Served::NotFound,
    }
}

/// Decides which file answers a request.
pub fn serve(if_none_match: Option<&str>, disk: Option<(&str, bool)>, embedded: Option<&str>) -> (r:
    Served)
    ensures
        r == served(
            opt_str(if_none_match),
            match disk {
                Some((tag, readable)) => Some((tag@, readable)),
                None => None,
            },
            opt_str(embedded),
        ),
{
    if let Some((tag, readable)) = disk {
        if revalidates(if_none_match, tag) {
            return Served::DiskUnchanged;
        }
        if readable {
            return Served::Disk;
        }
    }
    match embedded {
        Some(tag) => if revalidates(if_none_match, tag) {
            Served::EmbeddedUnchanged
        } else {
            Served::Embedded
        },
        None => Served::NotFound,
    }
}

/// The media type under which a file is sent.
pub fn content_type(name: &str) -> (r: String)
    ensures
        r@ == media_type_of(name@),
{
    guess_media_type(name)
}

/// How a directory of pages relates to the running version.
#[derive(Clone, Copy, Debug, PartialEq, Eq, Structural)]
pub enum Drift {
    /// There is no such directory.
    Missing,
    Current,
    /// The directory was made by another version.
    OtherVersion,
    /// The directory does not say which version made it.
    Unmarked,
}

/// How a directory of pages relates to the running version.
pub open spec fn drift_of(is_dir: bool, stamp: Option<Seq<char>>, version: Seq<char>) -> Drift {
    if !is_dir {
        Drift::Missing
    } else {
        match stamp {
            Some(s) => if trimmed(s) == version {
                Drift::Current
            } else {
                Drift::OtherVersion
            },
            None => Drift::Unmarked,
        }
    }
}

/// How a directory of pages relates to the running version. `stamp` is what
/// the directory's marker file holds.
pub fn check_drift(is_dir: bool, stamp: Option<&str>, version: &str) -> (r: Drift)
    ensures
        r == drift_of(is_dir, opt_str(stamp), version@),
{
    if !is_dir {
        return Drift::Missing;
    }
    match stamp {
        Some(s) => if same(trim(s).as_str(), version) {
            Drift::Current
        } else {
            Drift::OtherVersion
        },
        None => Drift::Unmarked,
    }
}

} // verus!
