//! The server around the endpoints: stores, paths, routes, counters and files.

use crate::laws::provisioning::lemma_nonempty;
use crate::laws::words::law_trimming_takes_the_blanks_around;
use crate::oneshot::{lookup, store_run, with_value, StoreOp};
use crate::ops::{attempt, chosen_id, label, path_only, segments};
use crate::outside::hex_lower;
use crate::pages::{
    below, candidate_hits, disk_tag, drift_of, has_copy, hex_number, served, steps, way, Drift,
    Served,
};
use crate::router::{
    api_table, guard_of, is_counted_by_route, names_route, public_table, quota_of, root_of,
    scim_table, Area, Guard, Methods,
};
use crate::text::{
    is_space, joined, nonempty, pieces, same_ignoring_case, split_first, trimmed, Cut,
};
use vstd::prelude::*;
use vstd::utf8::{encode_utf8, is_ascii_chars, is_ascii_chars_encode_utf8};

verus! {

/// A value that is put under a free key is found there, once, and taking it
/// gives it; a taken key keeps its value; other keys are not touched.
pub proof fn law_stores_give_back_what_was_put<V>(
    ops: Seq<StoreOp<V>>,
    key: Seq<char>,
    value: V,
    other: Seq<char>,
)
    ensures
        ({
            let before = store_run(ops);
            let put = store_run(ops.push(StoreOp::Put(key, value)));
            let taken = store_run(ops.push(StoreOp::Take(key)));
            &&& lookup(before, key) is None ==> lookup(put, key) == Some(value)
            &&& lookup(before, key) is Some ==> lookup(put, key) == lookup(before, key)
            &&& lookup(taken, key) is None
            &&& other != key ==> lookup(put, other) == lookup(before, other) && lookup(taken, other)
                == lookup(before, other)
            &&& store_run(ops.push(StoreOp::Leave)) == before
            &&& with_value(before, key, value) == put
        }),
{
    assert(ops.push(StoreOp::Put(key, value)).drop_last() =~= ops);
    assert(ops.push(StoreOp::Take(key)).drop_last() =~= ops);
    assert(ops.push(StoreOp::Leave).drop_last() =~= ops);
}

/// A text is cut at every occurrence of a character and nowhere else: parts
/// that do not hold it, put together with it between them, come apart again.
pub proof fn law_parts_come_apart_again(parts: Seq<Seq<char>>, c: char)
    requires
        parts.len() > 0,
        forall|i: int| 0 <= i < parts.len() ==> !(#[trigger] parts[i]).contains(c),
    ensures
        pieces(joined(parts, seq![c]), Cut::At(c)) == parts,
    decreases parts.len(),
{
    let none = Seq::<char>::empty();
    if parts.len() == 1 {
        assert(pieces(none, Cut::At(c)) =~= Seq::<Seq<char>>::empty().push(none));
        assert(!parts[0].contains(c));
        lemma_part_grows(none, parts[0], Seq::empty(), c);
        assert(none + parts[0] =~= parts[0]);
        assert(Seq::<Seq<char>>::empty().push(parts[0]) =~= parts);
    } else {
        let front = parts.drop_last();
        assert forall|i: int| 0 <= i < front.len() implies !(#[trigger] front[i]).contains(c) by {
            assert(front[i] == parts[i]);
        }
        law_parts_come_apart_again(front, c);
        let last = parts[parts.len() - 1];
        assert(!last.contains(c));
        let p = joined(front, seq![c]) + seq![c];
        assert(p.drop_last() =~= joined(front, seq![c]));
        assert(p.last() == c);
        assert(pieces(p, Cut::At(c)) =~= front.push(none));
        lemma_part_grows(p, last, front, c);
        assert(joined(parts, seq![c]) == joined(front, seq![c]) + seq![c] + last);
        assert(front.push(last) =~= parts);
    }
}

proof fn lemma_part_grows(p: Seq<char>, w: Seq<char>, done: Seq<Seq<char>>, c: char)
    requires
        pieces(p, Cut::At(c)) == done.push(Seq::<char>::empty()),
        !w.contains(c),
    ensures
        pieces(p + w, Cut::At(c)) == done.push(w),
    decreases w.len(),
{
    if w.len() == 0 {
        assert(p + w =~= p);
        assert(w =~= Seq::<char>::empty());
    } else {
        let v = w.drop_last();
        assert(!v.contains(c)) by {
            if v.contains(c) {
                let i = choose|i: int| 0 <= i < v.len() && v[i] == c;
                assert(w[i] == c);
            }
        }
        lemma_part_grows(p, v, done, c);
        assert((p + w).drop_last() =~= p + v);
        assert((p + w).last() == w.last());
        assert(w.last() == w[w.len() - 1]);
        assert(w.last() != c);
        assert(v.push(w.last()) =~= w);
        assert(done.push(v).drop_last() =~= done);
    }
}

/// A path is what stands before its query.
pub proof fn law_queries_are_no_path(path: Seq<char>, query: Seq<char>)
    requires
        !path.contains('?'),
    ensures
        path_only(path) == path,
        path_only(path + seq!['?'] + query) == path,
        segments(path + seq!['?'] + query) == segments(path),
{
    let none = Seq::<char>::empty();
    assert(pieces(none, Cut::At('?')) =~= Seq::<Seq<char>>::empty().push(none));
    lemma_part_grows(none, path, Seq::empty(), '?');
    assert(none + path =~= path);
    lemma_first_piece(path, query);
}

proof fn lemma_first_piece(path: Seq<char>, query: Seq<char>)
    requires
        pieces(path, Cut::At('?')) == seq![path],
    ensures
        pieces(path + seq!['?'] + query, Cut::At('?')).len() > 1,
        pieces(path + seq!['?'] + query, Cut::At('?'))[0] == path,
    decreases query.len(),
{
    let all = path + seq!['?'] + query;
    if query.len() == 0 {
        assert(all.drop_last() =~= path);
    } else {
        lemma_first_piece(path, query.drop_last());
        assert(all.drop_last() =~= path + seq!['?'] + query.drop_last());
    }
}

/// The segments of a path are what stands between its slashes, without the
/// empty ones.
pub proof fn law_segments_stand_between_slashes(parts: Seq<Seq<char>>, seg: Seq<char>)
    requires
        parts.len() > 0,
        forall|i: int|
            0 <= i < parts.len() ==> !(#[trigger] parts[i]).contains('/') && !parts[i].contains('?'),
    ensures
        segments(joined(parts, seq!['/'])) == nonempty(parts),
        segments(joined(parts, seq!['/'])).contains(seg) <==> parts.contains(seg) && seg.len() > 0,
{
    law_parts_come_apart_again(parts, '/');
    lemma_joined_has_no(parts, '?', '/');
    law_queries_are_no_path(joined(parts, seq!['/']), Seq::empty());
    lemma_nonempty(parts, seg);
}

proof fn lemma_joined_has_no(parts: Seq<Seq<char>>, c: char, sep: char)
    requires
        c != sep,
        forall|i: int| 0 <= i < parts.len() ==> !(#[trigger] parts[i]).contains(c),
    ensures
        !joined(parts, seq![sep]).contains(c),
    decreases parts.len(),
{
    let all = joined(parts, seq![sep]);
    if all.contains(c) {
        let k = choose|k: int| 0 <= k < all.len() && all[k] == c;
        if parts.len() == 1 {
            assert(parts[0].contains(c));
        } else if parts.len() > 1 {
            let front = parts.drop_last();
            assert forall|i: int| 0 <= i < front.len() implies !(#[trigger] front[i]).contains(
                c,
            ) by {
                assert(front[i] == parts[i]);
            }
            lemma_joined_has_no(front, c, sep);
            let head = joined(front, seq![sep]);
            let last = parts[parts.len() - 1];
            assert(!last.contains(c));
            if k < head.len() {
                assert(head[k] == c);
            } else if k > head.len() {
                assert(last[k - head.len() - 1] == c);
            }
        }
    }
}

/// What guards each area, and how much it takes: administration and
/// provisioning are behind the policies, sign-in reads the session, and the
/// areas that face strangers have a quota.
pub proof fn law_areas_have_their_guard_and_quota(area: Area)
    ensures
        guard_of(area) == Guard::Protect <==> area == Area::Admin || area == Area::Scim,
        guard_of(area) == Guard::Session <==> area == Area::Factor,
        quota_of(area) is None <==> area == Area::Health || area == Area::Token || area
            == Area::Discovery || area == Area::ScimDiscovery,
        area == Area::Factor ==> quota_of(area) == Some(6u32),
        area == Area::Admin || area == Area::Protocol ==> quota_of(area) == Some(12u32),
        area == Area::Scim ==> quota_of(area) == Some(60u32),
{
}

/// The table answers this path with these methods in this area.
pub open spec fn answers(
    table: Seq<crate::router::RouteView>,
    area: Area,
    path: Seq<char>,
    methods: Methods,
) -> bool {
    exists|i: int|
        0 <= i < table.len() && (#[trigger] table[i]).path == path && table[i].area == area
            && table[i].methods == methods
}

/// Every endpoint that the protocol documents is answered.
pub proof fn law_documented_endpoints_are_answered()
    ensures
        answers(
            public_table(),
            Area::Discovery,
            ".well-known/openid-configuration"@,
            Methods::Get,
        ),
        answers(public_table(), Area::Discovery, ".well-known/jwks.json"@, Methods::Get),
        answers(public_table(), Area::Protocol, "authorize"@, Methods::GetPost),
        answers(public_table(), Area::Protocol, "authorize/resume"@, Methods::GetPost),
        answers(public_table(), Area::Protocol, "consent"@, Methods::Post),
        answers(public_table(), Area::Protocol, "consent/info"@, Methods::Get),
        answers(public_table(), Area::Protocol, "token"@, Methods::Post),
        answers(public_table(), Area::Protocol, "userinfo"@, Methods::Get),
        answers(public_table(), Area::Protocol, "revoke"@, Methods::Post),
        answers(public_table(), Area::Protocol, "introspect"@, Methods::Post),
        answers(public_table(), Area::Protocol, "device_authorization"@, Methods::Post),
        answers(public_table(), Area::Protocol, "register"@, Methods::Post),
        answers(public_table(), Area::Protocol, "register/{client_id}"@, Methods::Get),
        answers(public_table(), Area::Protocol, "register/{client_id}"@, Methods::PutDelete),
        answers(public_table(), Area::Protocol, "end_session"@, Methods::GetPost),
        answers(public_table(), Area::Protocol, "device-login/info"@, Methods::Get),
        answers(public_table(), Area::Protocol, "device-login/approve"@, Methods::Post),
        answers(scim_table(), Area::ScimDiscovery, "ServiceProviderConfig"@, Methods::Get),
        answers(scim_table(), Area::ScimDiscovery, "Schemas"@, Methods::Get),
        answers(scim_table(), Area::ScimDiscovery, "ResourceTypes"@, Methods::Get),
        answers(scim_table(), Area::Scim, "Users"@, Methods::Get),
        answers(scim_table(), Area::Scim, "Users"@, Methods::Post),
        answers(scim_table(), Area::Scim, "Users/{id}"@, Methods::Get),
        answers(scim_table(), Area::Scim, "Users/{id}"@, Methods::Change),
        public_table().len() == 17,
        scim_table().len() == 7,
{
    let p = public_table();
    let s = scim_table();
    assert(p[0].path == ".well-known/openid-configuration"@);
    assert(p[1].path == ".well-known/jwks.json"@);
    assert(p[2].path == "authorize"@);
    assert(p[3].path == "authorize/resume"@);
    assert(p[4].path == "consent"@);
    assert(p[5].path == "consent/info"@);
    assert(p[6].path == "token"@);
    assert(p[7].path == "userinfo"@);
    assert(p[8].path == "revoke"@);
    assert(p[9].path == "introspect"@);
    assert(p[10].path == "device_authorization"@);
    assert(p[11].path == "register"@);
    assert(p[12].path == "register/{client_id}"@);
    assert(p[13].path == "register/{client_id}"@);
    assert(p[14].path == "end_session"@);
    assert(p[15].path == "device-login/info"@);
    assert(p[16].path == "device-login/approve"@);
    assert(s[0].path == "ServiceProviderConfig"@);
    assert(s[1].path == "Schemas"@);
    assert(s[2].path == "ResourceTypes"@);
    assert(s[3].path == "Users"@);
    assert(s[4].path == "Users"@);
    assert(s[5].path == "Users/{id}"@);
    assert(s[6].path == "Users/{id}"@);
}

/// What is audited may change something, and what may change something below
/// administration and provisioning is audited, but for a route that lists.
pub proof fn law_audited_routes_change_something(i: int, j: int)
    ensures
        0 <= i < api_table().len() && api_table()[i].area == Area::Admin
            && api_table()[i].audited ==> api_table()[i].methods != Methods::Get,
        0 <= i < api_table().len() && api_table()[i].area == Area::Admin && api_table()[i].methods
            != Methods::Get ==> api_table()[i].audited || api_table()[i].path
            == "admin/totp/list"@,
        0 <= j < scim_table().len() ==> (scim_table()[j].audited <==> scim_table()[j].methods
            != Methods::Get),
{
}

/// A request to a route is counted under that route: below the application
/// interface and for the protocol under its own path, for a user's own path
/// and for a social sign-in whatever user or provider it names.
pub proof fn law_routes_are_counted_apart(path: Seq<char>, rest: Seq<Seq<char>>)
    ensures
        segments(path) == seq!["api"@, "v1"@] + rest && rest.len() > 0 && !(rest.len() >= 2
            && rest[0] == "auth"@ && rest[1] == "social"@) && names_route(
            api_table(),
            joined(rest, "/"@),
        ) ==> label(path) == "/api/v1/"@ + joined(rest, "/"@),
        segments(path) == seq!["api"@, "v1"@, "auth"@, "social"@] + rest && rest.len() >= 2
            && names_route(api_table(), "auth/social/{id}/"@ + joined(rest.skip(1), "/"@))
            ==> label(path) == "/api/v1/auth/social/"@ + joined(rest.skip(1), "/"@),
        segments(path) == seq!["scim"@, "v2"@] + rest && rest.len() == 1 && names_route(
            scim_table(),
            rest[0],
        ) ==> label(path) == "/scim/v2/"@ + rest[0],
        segments(path) == rest && rest.len() > 0 && (rest[0] == "authorize"@ || rest[0]
            == "consent"@ || rest[0] == "token"@ || rest[0] == "userinfo"@ || rest[0] == "revoke"@
            || rest[0] == "introspect"@ || rest[0] == "device_authorization"@ || rest[0]
            == "device-login"@) && names_route(public_table(), joined(rest, "/"@)) ==> label(path)
            == joined(rest, "/"@),
{
    let segs = segments(path);
    reveal_strlit("api");
    reveal_strlit("scim");
    reveal_strlit(".well-known");
    reveal_strlit("authorize");
    reveal_strlit("consent");
    reveal_strlit("token");
    reveal_strlit("userinfo");
    reveal_strlit("revoke");
    reveal_strlit("introspect");
    reveal_strlit("device_authorization");
    reveal_strlit("device-login");
    assert("api"@.len() == 3 && "scim"@.len() == 4 && ".well-known"@.len() == 11);
    assert("authorize"@.len() == 9 && "consent"@.len() == 7 && "token"@.len() == 5
        && "userinfo"@.len() == 8 && "revoke"@.len() == 6 && "introspect"@.len() == 10
        && "device_authorization"@.len() == 20 && "device-login"@.len() == 12);
    if segs == seq!["api"@, "v1"@] + rest {
        assert(segs[0] == "api"@ && segs[1] == "v1"@);
        assert(segs.skip(2) =~= rest);
    }
    if segs == seq!["api"@, "v1"@, "auth"@, "social"@] + rest && rest.len() > 0 {
        assert(segs[0] == "api"@ && segs[1] == "v1"@);
        assert(segs.skip(2)[0] == "auth"@ && segs.skip(2)[1] == "social"@);
        assert(segs.skip(2).skip(3) =~= rest.skip(1));
    }
    if segs == seq!["scim"@, "v2"@] + rest {
        assert(segs[0] == "scim"@ && segs[1] == "v2"@);
        assert(segs.skip(2) =~= rest);
        reveal_strlit("Users");
    }
}

/// The factors and the actions that attempts are counted by.
pub open spec fn is_counted(factor: Seq<char>, action: Seq<char>) -> bool {
    &&& factor == "email"@ || factor == "otp"@ || factor == "passkey"@ || factor == "social"@
        || factor == "totp"@
    &&& action == "request"@ || action == "verify"@ || action == "add"@ || action == "add/verify"@
        || action == "remove"@ || action == "enroll"@ || action == "link"@ || action == "redeem"@
}

/// An attempt with a factor is counted by the factor and the action that the
/// path names, and by its outcome: below 400 it is a success. A social factor
/// is counted whatever its provider.
pub proof fn law_attempts_are_counted(
    path: Seq<char>,
    factor: Seq<char>,
    provider: Seq<char>,
    action: Seq<Seq<char>>,
    status: u16,
)
    ensures
        ({
            let outcome = if 100 <= status < 400 {
                "ok"@
            } else {
                "fail"@
            };
            let named = joined(action, "/"@);
            &&& segments(path) == seq!["api"@, "v1"@, "auth"@, factor] + action && factor
                != "social"@ ==> attempt(path, status) == (if is_counted(factor, named) {
                Some((factor, named, outcome))
            } else {
                None
            })
            &&& segments(path) == seq!["api"@, "v1"@, "auth"@, "social"@, provider] + action
                ==> attempt(path, status) == (if is_counted("social"@, named) {
                Some(("social"@, named, outcome))
            } else {
                None
            })
        }),
{
    let segs = segments(path);
    if segs == seq!["api"@, "v1"@, "auth"@, factor] + action {
        assert(segs[0] == "api"@ && segs[1] == "v1"@ && segs[2] == "auth"@ && segs[3] == factor);
        assert(segs.skip(3)[0] == factor);
        assert(segs.skip(3).skip(1) =~= action);
    }
    if segs == seq!["api"@, "v1"@, "auth"@, "social"@, provider] + action {
        assert(segs[0] == "api"@ && segs[1] == "v1"@ && segs[2] == "auth"@ && segs[3]
            == "social"@);
        assert(segs.skip(3)[0] == "social"@);
        assert(segs.skip(3).skip(2) =~= action);
    }
}

/// A caller's own identifier is taken over, without the blanks around it, where
/// it is made of up to 128 visible ASCII characters.
pub proof fn law_visible_identifiers_are_taken_over(a: Seq<char>, id: Seq<char>, b: Seq<char>)
    requires
        forall|i: int| 0 <= i < a.len() ==> is_space(#[trigger] a[i]),
        forall|i: int| 0 <= i < b.len() ==> is_space(#[trigger] b[i]),
        0 < id.len() <= 128,
        forall|i: int| 0 <= i < id.len() ==> '!' <= #[trigger] id[i] <= '~',
    ensures
        chosen_id(Some(a + id + b)) == Some(id),
        chosen_id(None) is None,
{
    assert('!' <= id[0] <= '~');
    assert('!' <= id[id.len() - 1] <= '~');
    law_trimming_takes_the_blanks_around(a, id, b);
    assert forall|i: int| 0 <= i < id.len() implies '\0' <= #[trigger] id[i] <= '\u{7f}' by {}
    assert(is_ascii_chars(id));
    is_ascii_chars_encode_utf8(id);
    let bytes = encode_utf8(id);
    assert forall|i: int| 0 <= i < bytes.len() implies crate::ops::is_graphic(
        #[trigger] bytes[i],
    ) by {
        assert('!' <= id[i] <= '~');
    }
}

/// A longer identifier, an empty one, and one with an invisible ASCII character
/// in it are not taken over.
pub proof fn law_other_identifiers_are_not_taken_over(id: Seq<char>, k: int)
    requires
        forall|i: int| 0 <= i < id.len() ==> '\0' <= #[trigger] id[i] <= '\u{7f}',
        id.len() > 0 ==> !is_space(id[0]) && !is_space(id.last()),
    ensures
        id.len() == 0 || id.len() > 128 ==> chosen_id(Some(id)) is None,
        0 <= k < id.len() && !('!' <= id[k] <= '~') ==> chosen_id(Some(id)) is None,
{
    let none = Seq::<char>::empty();
    if id.len() == 0 {
        assert(id =~= none);
        assert(trimmed(id).len() == 0);
    } else {
        law_trimming_takes_the_blanks_around(none, id, none);
        assert(none + id + none =~= id);
        assert(is_ascii_chars(id));
        is_ascii_chars_encode_utf8(id);
        if 0 <= k < id.len() {
            assert(encode_utf8(id)[k] == id[k] as u8);
        }
    }
}

/// The segments that lead somewhere are those that are neither empty nor a
/// single dot, in their order.
pub proof fn law_dots_lead_nowhere(a: Seq<Seq<char>>, seg: Seq<char>)
    ensures
        steps(a.push(seg)) == (if seg.len() == 0 || seg == "."@ {
            steps(a)
        } else {
            steps(a).push(seg)
        }),
        steps(Seq::<Seq<char>>::empty()).len() == 0,
{
    assert(a.push(seg).drop_last() =~= a);
}

/// A path names a file exactly when no segment leads up and one leads
/// somewhere; the file is found by the segments that do, below the root.
pub proof fn law_paths_name_files(decoded: Seq<char>, root: Seq<char>)
    ensures
        way(decoded) is Some <==> !pieces(decoded, Cut::Slash).contains(".."@) && steps(
            pieces(decoded, Cut::Slash),
        ).len() > 0,
        way(decoded) matches Some(w) ==> w == steps(pieces(decoded, Cut::Slash)),
        way(decoded) matches Some(w) ==> below(root, w) == (if root.len() == 0 || root.last() == '/' {
            root + joined(w, "/"@)
        } else {
            root + "/"@ + joined(w, "/"@)
        }),
{
}

/// A copy is recognised by its validator, in a list of any length, with blanks
/// around it, and whether either is marked as weak or not; a star stands for
/// any.
pub proof fn law_copies_are_recognised(
    candidates: Seq<Seq<char>>,
    i: int,
    a: Seq<char>,
    tag: Seq<char>,
    b: Seq<char>,
)
    requires
        0 <= i < candidates.len(),
        forall|k: int| 0 <= k < candidates.len() ==> !(#[trigger] candidates[k]).contains(','),
        forall|k: int| 0 <= k < a.len() ==> is_space(#[trigger] a[k]),
        forall|k: int| 0 <= k < b.len() ==> is_space(#[trigger] b[k]),
        tag.len() > 0 && tag[0] == '"' && tag.last() == '"',
    ensures
        ({
            let header = joined(candidates, seq![',']);
            let weak = "W/"@ + tag;
            &&& candidates[i] == a + tag + b ==> has_copy(Some(header), tag) && has_copy(
                Some(header),
                weak,
            )
            &&& candidates[i] == a + weak + b ==> has_copy(Some(header), tag) && has_copy(
                Some(header),
                weak,
            )
            &&& candidates[i] == a + "*"@ + b ==> has_copy(Some(header), tag)
            &&& !has_copy(None, tag)
        }),
{
    let header = joined(candidates, seq![',']);
    let weak = "W/"@ + tag;
    law_parts_come_apart_again(candidates, ',');
    reveal_strlit("W/");
    reveal_strlit("*");
    assert(weak.take(2) =~= "W/"@);
    assert(weak.skip(2) =~= tag);
    assert(weak.last() == tag.last());
    assert(tag.len() >= 2 ==> tag.take(2)[0] == '"');
    assert(!crate::text::starts_with(tag, "W/"@)) by {
        if crate::text::starts_with(tag, "W/"@) {
            assert(tag.take(2)[0] == 'W');
        }
    }
    let p = pieces(header, Cut::At(','));
    assert(p[i] == candidates[i]);
    assert(!is_space('"') && !is_space('W') && !is_space('*'));
    if candidates[i] == a + tag + b {
        law_trimming_takes_the_blanks_around(a, tag, b);
        assert(candidate_hits(pieces(header, Cut::At(','))[i], tag));
        assert(candidate_hits(pieces(header, Cut::At(','))[i], weak));
        lemma_hit(header, tag, i);
        lemma_hit(header, weak, i);
    }
    if candidates[i] == a + weak + b {
        law_trimming_takes_the_blanks_around(a, weak, b);
        assert(candidate_hits(pieces(header, Cut::At(','))[i], tag));
        assert(candidate_hits(pieces(header, Cut::At(','))[i], weak));
        lemma_hit(header, tag, i);
        lemma_hit(header, weak, i);
    }
    if candidates[i] == a + "*"@ + b {
        law_trimming_takes_the_blanks_around(a, "*"@, b);
        assert(candidate_hits(pieces(header, Cut::At(','))[i], tag));
        lemma_hit(header, tag, i);
    }
}

proof fn lemma_hit(header: Seq<char>, etag: Seq<char>, i: int)
    requires
        0 <= i < pieces(header, Cut::At(',')).len(),
        candidate_hits(pieces(header, Cut::At(','))[i], etag),
    ensures
        has_copy(Some(header), etag),
{
    let h = Some(header)->0;
    assert(candidate_hits(pieces(h, Cut::At(','))[i], etag));
    assert(exists|k: int|
        0 <= k < pieces(h, Cut::At(',')).len() && candidate_hits(
            #[trigger] pieces(h, Cut::At(','))[k],
            etag,
        ));
}

/// A validator of another file is no copy.
pub proof fn law_other_validators_are_no_copy(other: Seq<char>, tag: Seq<char>)
    requires
        tag.len() > 0 && tag[0] == '"',
        other.len() > 0 && other[0] == '"' && other.last() == '"',
        !other.contains(','),
        other != tag,
    ensures
        !has_copy(Some(other), tag),
{
    let one = seq![other];
    let none = Seq::<char>::empty();
    law_parts_come_apart_again(one, ',');
    assert(joined(one, seq![',']) == other);
    reveal_strlit("W/");
    reveal_strlit("*");
    law_trimming_takes_the_blanks_around(none, other, none);
    assert(none + other + none =~= other);
    assert("*"@[0] == '*');
    assert(!crate::text::starts_with(tag, "W/"@)) by {
        if crate::text::starts_with(tag, "W/"@) {
            assert(tag.take(2)[0] == 'W');
        }
    }
    assert(!crate::text::starts_with(other, "W/"@)) by {
        if crate::text::starts_with(other, "W/"@) {
            assert(other.take(2)[0] == 'W');
        }
    }
    assert(!candidate_hits(one[0], tag));
}

/// The file on disk comes before the embedded one, a file that the caller has
/// is not sent, and where there is none at all nothing is found.
pub proof fn law_the_disk_comes_first(
    if_none_match: Option<Seq<char>>,
    disk: Option<(Seq<char>, bool)>,
    embedded: Option<Seq<char>>,
)
    ensures
        ({
            let r = served(if_none_match, disk, embedded);
            let has_disk = disk is Some && has_copy(if_none_match, (disk->0).0);
            let readable = disk is Some && (disk->0).1;
            let has_embedded = embedded is Some && has_copy(if_none_match, embedded->0);
            &&& r == Served::DiskUnchanged <==> has_disk
            &&& r == Served::Disk <==> readable && !has_disk
            &&& r == Served::EmbeddedUnchanged <==> !has_disk && !readable && has_embedded
            &&& r == Served::Embedded <==> !has_disk && !readable && embedded is Some
                && !has_embedded
            &&& r == Served::NotFound <==> !has_disk && !readable && embedded is None
        }),
{
}

/// The value of a hexadecimal digit.
pub open spec fn digit_value(c: char) -> int {
    if '0' <= c <= '9' {
        c as int - '0' as int
    } else {
        c as int - 'a' as int + 10
    }
}

/// The number that hexadecimal digits stand for.
pub open spec fn number_value(s: Seq<char>) -> int
    decreases s.len(),
{
    if s.len() == 0 {
        0
    } else {
        16 * number_value(s.drop_last()) + digit_value(s.last())
    }
}

/// A number is written so that it reads back.
pub proof fn law_hexadecimal_numbers_read_back(n: nat)
    ensures
        number_value(hex_number(n)) == n,
        hex_number(n).len() > 0,
    decreases n,
{
    if n < 16 {
        let one = seq![hex_lower(n as u8)];
        assert(one.drop_last() =~= Seq::<char>::empty());
        assert(number_value(one.drop_last()) == 0);
        assert(digit_value(hex_lower(n as u8)) == n);
    } else {
        law_hexadecimal_numbers_read_back(n / 16);
        let s = hex_number(n);
        assert(s.drop_last() =~= hex_number(n / 16));
        assert(digit_value(hex_lower((n % 16) as u8)) == n % 16);
    }
}

/// Case does not matter for ASCII letters, and everything else does.
pub proof fn law_case_does_not_matter(a: Seq<char>, b: Seq<char>, i: int)
    ensures
        same_ignoring_case(a, a),
        same_ignoring_case(a, b) ==> same_ignoring_case(b, a) && a.len() == b.len(),
        same_ignoring_case(a, b) && 0 <= i < a.len() && !('A' <= a[i] <= 'Z' || 'a' <= a[i] <= 'z')
            ==> a[i] == b[i],
        same_ignoring_case(a, b) && 0 <= i < a.len() && 'A' <= a[i] <= 'Z' ==> b[i] == a[i] || b[i]
            as int == a[i] as int + 32,
{
    if same_ignoring_case(a, b) && 0 <= i < a.len() {
        let x: char = a[i];
        let y: char = b[i];
        assert(crate::text::ascii_lower(x) == crate::text::ascii_lower(y));
    }
}

/// A capital letter and its small one are the same but for their case.
pub proof fn law_capitals_have_small_letters(c: char, d: char)
    requires
        'A' <= c <= 'Z',
        d as int == c as int + 32,
    ensures
        same_ignoring_case(seq![c], seq![d]),
        same_ignoring_case(seq![d], seq![c]),
{
    assert(crate::text::ascii_lower(c) == d);
    assert(crate::text::ascii_lower(d) == d);
}

/// A path is cut at slashes of either kind, a list at its own character, and
/// words at white space.
pub proof fn law_cuts_hit_their_characters(c: char, d: char)
    ensures
        Cut::Slash.hits(c) <==> c == '/' || c == '\\',
        Cut::At(d).hits(c) <==> c == d,
        Cut::Blank.hits(c) <==> is_space(c),
{
}

/// A text is cut in two at the first occurrence of a character.
pub proof fn law_the_first_occurrence_cuts(front: Seq<char>, c: char, back: Seq<char>)
    requires
        !front.contains(c),
    ensures
        split_first(front + seq![c] + back, c) == Some((front, back)),
        split_first(front, c) is None,
{
    crate::laws::clients::lemma_cut_at_first(front, c, back);
    front.index_of_first_ensures(c);
}

/// The routes of the application stand below `api/v1`, those of provisioning
/// below `scim/v2`, those of the protocol at the root; the routes of
/// provisioning are counted one by one.
pub proof fn law_areas_stand_below_their_root(area: Area)
    ensures
        root_of(area) == (if area == Area::Discovery || area == Area::Protocol {
            ""@
        } else if area == Area::Scim || area == Area::ScimDiscovery {
            "scim/v2"@
        } else {
            "api/v1"@
        }),
        is_counted_by_route(area) <==> area == Area::Scim,
{
}

/// A directory of pages is current exactly where its marker names the running
/// version, with any blanks around it.
pub proof fn law_marked_directories_are_current(
    a: Seq<char>,
    stamp: Seq<char>,
    b: Seq<char>,
    version: Seq<char>,
)
    requires
        forall|i: int| 0 <= i < a.len() ==> is_space(#[trigger] a[i]),
        forall|i: int| 0 <= i < b.len() ==> is_space(#[trigger] b[i]),
        stamp.len() > 0 && !is_space(stamp[0]) && !is_space(stamp.last()),
    ensures
        drift_of(true, Some(a + stamp + b), version) == (if stamp == version {
            Drift::Current
        } else {
            Drift::OtherVersion
        }),
        drift_of(true, None, version) == Drift::Unmarked,
        drift_of(false, Some(stamp), version) == Drift::Missing,
        drift_of(false, None, version) == Drift::Missing,
{
    law_trimming_takes_the_blanks_around(a, stamp, b);
}

/// The validator of a file on disk is weak and says when it was changed and how
/// long it is.
pub proof fn law_disk_validators_say_time_and_length(secs: nat, nanos: nat, len: nat)
    ensures
        disk_tag(secs, nanos, len) == "W/\""@ + hex_number(secs) + "-"@ + hex_number(nanos) + "-"@
            + hex_number(len) + "\""@,
        number_value(hex_number(secs)) == secs && number_value(hex_number(nanos)) == nanos
            && number_value(hex_number(len)) == len,
{
    law_hexadecimal_numbers_read_back(secs);
    law_hexadecimal_numbers_read_back(nanos);
    law_hexadecimal_numbers_read_back(len);
}

/// The table answers this path with these methods in this area, and audits it
/// or not.
pub open spec fn serves(
    table: Seq<crate::router::RouteView>,
    area: Area,
    path: Seq<char>,
    methods: Methods,
    audited: bool,
) -> bool {
    exists|i: int|
        0 <= i < table.len() && (#[trigger] table[i]).path == path && table[i].area == area
            && table[i].methods == methods && table[i].audited == audited
}

/// Every operation of the application interface is answered, and those that
/// change something are audited.
pub proof fn law_every_operation_is_answered()
    ensures
        serves(api_table(), Area::Health, "healthy"@, Methods::Get, false),
        serves(api_table(), Area::Health, "health/live"@, Methods::Get, false),
        serves(api_table(), Area::Health, "health/ready"@, Methods::Get, false),
        serves(api_table(), Area::Token, "auth/verify"@, Methods::GetPost, false),
        serves(api_table(), Area::Token, "auth/refresh"@, Methods::Post, true),
        serves(api_table(), Area::Token, "auth/logout"@, Methods::Post, true),
        serves(api_table(), Area::Factor, "auth/email/request"@, Methods::Post, false),
        serves(api_table(), Area::Factor, "auth/email/verify"@, Methods::Post, true),
        serves(api_table(), Area::Factor, "auth/email/add"@, Methods::Post, true),
        serves(api_table(), Area::Factor, "auth/email/add/verify"@, Methods::Post, true),
        serves(api_table(), Area::Factor, "auth/otp/request"@, Methods::Post, false),
        serves(api_table(), Area::Factor, "auth/otp/verify"@, Methods::Post, true),
        serves(api_table(), Area::Factor, "auth/otp/add"@, Methods::Post, true),
        serves(api_table(), Area::Factor, "auth/otp/add/verify"@, Methods::Post, true),
        serves(api_table(), Area::Factor, "auth/passkey/request"@, Methods::Post, false),
        serves(api_table(), Area::Factor, "auth/passkey/verify"@, Methods::Post, true),
        serves(api_table(), Area::Factor, "auth/passkey/remove"@, Methods::Post, true),
        serves(api_table(), Area::Factor, "auth/social/{id}/request"@, Methods::GetPost, false),
        serves(api_table(), Area::Factor, "auth/social/{id}/link"@, Methods::GetPost, true),
        serves(api_table(), Area::Factor, "auth/social/{id}/verify"@, Methods::GetPost, true),
        serves(api_table(), Area::Factor, "auth/social/redeem"@, Methods::Post, true),
        serves(api_table(), Area::Factor, "auth/totp/enroll"@, Methods::GetPost, true),
        serves(api_table(), Area::Factor, "auth/totp/verify"@, Methods::GetPost, true),
        serves(api_table(), Area::Admin, "admin/tenant/list"@, Methods::Get, false),
        serves(api_table(), Area::Admin, "admin/tenant/create"@, Methods::Post, true),
        serves(api_table(), Area::Admin, "admin/tenant/delete"@, Methods::Post, true),
        serves(api_table(), Area::Admin, "admin/domain/list"@, Methods::Get, false),
        serves(api_table(), Area::Admin, "admin/domain/create"@, Methods::Post, true),
        serves(api_table(), Area::Admin, "admin/domain/delete"@, Methods::Post, true),
        serves(api_table(), Area::Admin, "admin/user/list"@, Methods::Get, false),
        serves(api_table(), Area::Admin, "admin/user/create"@, Methods::Post, true),
        serves(api_table(), Area::Admin, "admin/user/activate"@, Methods::Post, true),
        serves(api_table(), Area::Admin, "admin/user/activate/self"@, Methods::Post, true),
        serves(api_table(), Area::Admin, "admin/user/delete"@, Methods::Post, true),
        serves(api_table(), Area::Admin, "admin/user/delete/self"@, Methods::Post, true),
        serves(api_table(), Area::Admin, "admin/user/add_role"@, Methods::Post, true),
        serves(api_table(), Area::Admin, "admin/user/remove_role"@, Methods::Post, true),
        serves(api_table(), Area::Admin, "admin/user/remove_email"@, Methods::Post, true),
        serves(api_table(), Area::Admin, "admin/user/remove_mobile"@, Methods::Post, true),
        serves(api_table(), Area::Admin, "admin/user/remove_social"@, Methods::Post, true),
        serves(api_table(), Area::Admin, "admin/user/roles"@, Methods::Get, false),
        serves(api_table(), Area::Admin, "admin/role/list"@, Methods::Get, false),
        serves(api_table(), Area::Admin, "admin/role/create"@, Methods::Post, true),
        serves(api_table(), Area::Admin, "admin/role/delete"@, Methods::Post, true),
        serves(api_table(), Area::Admin, "admin/provider/list"@, Methods::Get, false),
        serves(api_table(), Area::Admin, "admin/provider/create"@, Methods::Post, true),
        serves(api_table(), Area::Admin, "admin/provider/delete"@, Methods::Post, true),
        serves(api_table(), Area::Admin, "admin/policy/list"@, Methods::Get, false),
        serves(api_table(), Area::Admin, "admin/policy/create"@, Methods::Post, true),
        serves(api_table(), Area::Admin, "admin/policy/delete"@, Methods::Post, true),
        serves(api_table(), Area::Admin, "admin/key/list"@, Methods::Get, false),
        serves(api_table(), Area::Admin, "admin/key/create"@, Methods::Post, true),
        serves(api_table(), Area::Admin, "admin/key/delete"@, Methods::Post, true),
        serves(api_table(), Area::Admin, "admin/totp/list"@, Methods::Post, false),
        serves(api_table(), Area::Admin, "admin/totp/remove"@, Methods::Post, true),
        serves(api_table(), Area::Admin, "admin/oauth2client/list"@, Methods::Get, false),
        serves(api_table(), Area::Admin, "admin/oauth2client/create"@, Methods::Post, true),
        serves(api_table(), Area::Admin, "admin/oauth2client/delete"@, Methods::Post, true),
        serves(api_table(), Area::Admin, "admin/oauth2client/meta"@, Methods::Post, true),
        serves(api_table(), Area::Admin, "admin/oidc/config"@, Methods::Get, false),
        serves(api_table(), Area::Admin, "admin/oidc/config"@, Methods::Post, true),
        serves(api_table(), Area::Admin, "admin/metrics"@, Methods::Get, false),
        api_table().len() == 62,
{
    let t = api_table();
    assert(t[0].path == "healthy"@);
    assert(t[1].path == "health/live"@);
    assert(t[2].path == "health/ready"@);
    assert(t[3].path == "auth/verify"@);
    assert(t[4].path == "auth/refresh"@);
    assert(t[5].path == "auth/logout"@);
    assert(t[6].path == "auth/email/request"@);
    assert(t[7].path == "auth/email/verify"@);
    assert(t[8].path == "auth/email/add"@);
    assert(t[9].path == "auth/email/add/verify"@);
    assert(t[10].path == "auth/otp/request"@);
    assert(t[11].path == "auth/otp/verify"@);
    assert(t[12].path == "auth/otp/add"@);
    assert(t[13].path == "auth/otp/add/verify"@);
    assert(t[14].path == "auth/passkey/request"@);
    assert(t[15].path == "auth/passkey/verify"@);
    assert(t[16].path == "auth/passkey/remove"@);
    assert(t[17].path == "auth/social/{id}/request"@);
    assert(t[18].path == "auth/social/{id}/link"@);
    assert(t[19].path == "auth/social/{id}/verify"@);
    assert(t[20].path == "auth/social/redeem"@);
    assert(t[21].path == "auth/totp/enroll"@);
    assert(t[22].path == "auth/totp/verify"@);
    assert(t[23].path == "admin/tenant/list"@);
    assert(t[24].path == "admin/tenant/create"@);
    assert(t[25].path == "admin/tenant/delete"@);
    assert(t[26].path == "admin/domain/list"@);
    assert(t[27].path == "admin/domain/create"@);
    assert(t[28].path == "admin/domain/delete"@);
    assert(t[29].path == "admin/user/list"@);
    assert(t[30].path == "admin/user/create"@);
    assert(t[31].path == "admin/user/activate"@);
    assert(t[32].path == "admin/user/activate/self"@);
    assert(t[33].path == "admin/user/delete"@);
    assert(t[34].path == "admin/user/delete/self"@);
    assert(t[35].path == "admin/user/add_role"@);
    assert(t[36].path == "admin/user/remove_role"@);
    assert(t[37].path == "admin/user/remove_email"@);
    assert(t[38].path == "admin/user/remove_mobile"@);
    assert(t[39].path == "admin/user/remove_social"@);
    assert(t[40].path == "admin/user/roles"@);
    assert(t[41].path == "admin/role/list"@);
    assert(t[42].path == "admin/role/create"@);
    assert(t[43].path == "admin/role/delete"@);
    assert(t[44].path == "admin/provider/list"@);
    assert(t[45].path == "admin/provider/create"@);
    assert(t[46].path == "admin/provider/delete"@);
    assert(t[47].path == "admin/policy/list"@);
    assert(t[48].path == "admin/policy/create"@);
    assert(t[49].path == "admin/policy/delete"@);
    assert(t[50].path == "admin/key/list"@);
    assert(t[51].path == "admin/key/create"@);
    assert(t[52].path == "admin/key/delete"@);
    assert(t[53].path == "admin/totp/list"@);
    assert(t[54].path == "admin/totp/remove"@);
    assert(t[55].path == "admin/oauth2client/list"@);
    assert(t[56].path == "admin/oauth2client/create"@);
    assert(t[57].path == "admin/oauth2client/delete"@);
    assert(t[58].path == "admin/oauth2client/meta"@);
    assert(t[59].path == "admin/oidc/config"@);
    assert(t[60].path == "admin/oidc/config"@);
    assert(t[61].path == "admin/metrics"@);
}

/// A path names a route of a table exactly where one of them has it.
pub proof fn law_routes_are_named_by_their_path(
    table: Seq<crate::router::RouteView>,
    path: Seq<char>,
    i: int,
)
    ensures
        0 <= i < table.len() && table[i].path == path ==> names_route(table, path),
        (forall|k: int| 0 <= k < table.len() ==> (#[trigger] table[k]).path != path)
            ==> !names_route(table, path),
{
}

/// The protocol's own requests are not audited.
pub proof fn law_the_protocol_is_not_audited(i: int)
    ensures
        0 <= i < public_table().len() ==> !public_table()[i].audited,
{
}

} // verus!
