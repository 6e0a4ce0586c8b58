//! Operations: labels for metrics and identifiers for requests.

use crate::outside::random_uuid;
use crate::router::{
    api, api_table, has_route, names_route, public_routes, public_table, scim_routes, scim_table,
};
use crate::text::{
    cat, join, joined, nonempty, opt_str, opt_text, pieces, same, split, split_nonempty, texts,
    trim, trimmed, Cut,
};
use vstd::prelude::*;
use vstd::utf8::encode_utf8;

verus! {

/// A path without its query.
pub open spec fn path_only(path: Seq<char>) -> Seq<char> {
    pieces(path, Cut::At('?'))[0]
}

/// The nonempty segments of a path.
pub open spec fn segments(path: Seq<char>) -> Seq<Seq<char>> {
    nonempty(pieces(path_only(path), Cut::At('/')))
}

proof fn lemma_has_pieces(s: Seq<char>, cut: Cut)
    ensures
        pieces(s, cut).len() >= 1,
    decreases s.len(),
{
    if s.len() > 0 {
        lemma_has_pieces(s.drop_last(), cut);
    }
}

/// A path without its query.
pub fn strip_query(path: &str) -> (r: String)
    ensures
        r@ == path_only(path@),
{
    let parts = split(path, Cut::At('?'));
    proof {
        lemma_has_pieces(path@, Cut::At('?'));
        assert(texts(parts@)[0] == parts@[0]@);
    }
    parts[0].clone()
}

/// The strings of `v` from `from` on.
fn tail(v: &Vec<String>, from: usize) -> (r: Vec<String>)
    requires
        from <= v@.len(),
    ensures
        texts(r@) == texts(v@).skip(from as int),
{
    let mut out: Vec<String> = Vec::new();
    let mut i: usize = from;
    proof {
        assert(texts(out@) =~= texts(v@).subrange(from as int, i as int));
    }
    while i < v.len()
        invariant
            from <= i <= v@.len(),
            texts(out@) == texts(v@).subrange(from as int, i as int),
        decreases v@.len() - i,
    {
        let ghost before = texts(out@);
        out.push(v[i].clone());
        proof {
            assert(texts(out@) =~= before.push(v@[i as int]@));
            assert(texts(v@).subrange(from as int, i + 1) =~= before.push(v@[i as int]@));
        }
        i = i + 1;
    }
    proof {
        assert(texts(v@).subrange(from as int, v@.len() as int) =~= texts(v@).skip(from as int));
    }
    out
}

/// The segments behind `/api/v1/auth`, where a path has that shape.
pub open spec fn auth_rest(path: Seq<char>) -> Option<Seq<Seq<char>>> {
    let segs = segments(path);
    if segs.len() >= 3 && segs[0] == "api"@ && segs[1] == "v1"@ && segs[2] == "auth"@ {
        Some(segs.skip(3))
    } else {
        None
    }
}

/// Whether the segments behind `/api/v1/auth` name a factor, and for a social
/// one its provider.
pub open spec fn names_a_factor(rest: Seq<Seq<char>>) -> bool {
    rest.len() >= 1 && (rest[0] == "social"@ ==> rest.len() >= 2)
}

/// The action behind a factor; the provider of a social one is left out.
pub open spec fn factor_action(rest: Seq<Seq<char>>) -> Seq<char> {
    if rest[0] == "social"@ {
        joined(rest.skip(2), "/"@)
    } else {
        joined(rest.skip(1), "/"@)
    }
}

fn action_of(rest: &Vec<String>) -> (r: String)
    requires
        names_a_factor(texts(rest@)),
    ensures
        r@ == factor_action(texts(rest@)),
{
    proof {
        assert(texts(rest@)[0] == rest@[0]@);
    }
    if same(rest[0].as_str(), "social") {
        join(&tail(rest, 2), "/")
    } else {
        join(&tail(rest, 1), "/")
    }
}

/// The label of a path of the application interface, by the segments behind
/// `/api/v1`: that of its route, without the provider of a social sign-in. All
/// that has no route shares one label.
pub open spec fn api_label(rest: Seq<Seq<char>>) -> Seq<char> {
    if rest.len() >= 2 && rest[0] == "auth"@ && rest[1] == "social"@ {
        let action = joined(rest.skip(3), "/"@);
        if rest.len() <= 3 {
            "/api/v1/auth/social"@
        } else if names_route(api_table(), "auth/social/{id}/"@ + action) {
            "/api/v1/auth/social/"@ + action
        } else {
            "/api/v1/"@
        }
    } else if names_route(api_table(), joined(rest, "/"@)) {
        "/api/v1/"@ + joined(rest, "/"@)
    } else {
        "/api/v1/"@
    }
}

/// The label of a path of the provisioning interface, by the segments behind
/// `/scim/v2`: that of its route, whatever user it names. All that has no
/// route shares one label.
pub open spec fn scim_label(rest: Seq<Seq<char>>) -> Seq<char> {
    if rest.len() == 2 && rest[0] == "Users"@ {
        "/scim/v2/Users/{id}"@
    } else if rest.len() == 1 && names_route(scim_table(), rest[0]) {
        "/scim/v2/"@ + rest[0]
    } else {
        "/scim/v2"@
    }
}

/// The first segments of the protocol's paths.
pub open spec fn is_protocol(seg: Seq<char>) -> bool {
    ||| seg == "authorize"@
    ||| seg == "consent"@
    ||| seg == "token"@
    ||| seg == "userinfo"@
    ||| seg == "revoke"@
    ||| seg == "introspect"@
    ||| seg == "device_authorization"@
    ||| seg == "device-login"@
}

fn protocol_segment(seg: &str) -> (r: bool)
    ensures
        r == is_protocol(seg@),
{
    same(seg, "authorize") || same(seg, "consent") || same(seg, "token") || same(seg, "userinfo")
        || same(seg, "revoke") || same(seg, "introspect") || same(seg, "device_authorization")
        || same(seg, "device-login")
}

/// The label of a request path in metrics: that of its route. Paths without a
/// route share one label below each interface; everything else, pages and
/// whatever a client makes up, is one more.
pub open spec fn label(path: Seq<char>) -> Seq<char> {
    let segs = segments(path);
    let name = joined(segs, "/"@);
    if segs.len() >= 2 && segs[0] == "api"@ && segs[1] == "v1"@ {
        api_label(segs.skip(2))
    } else if segs.len() >= 1 && segs[0] == ".well-known"@ {
        "discovery"@
    } else if segs.len() >= 2 && segs[0] == "scim"@ && segs[1] == "v2"@ {
        scim_label(segs.skip(2))
    } else if segs.len() >= 1 && is_protocol(segs[0]) && (name == "device-login"@ || names_route(
        public_table(),
        name,
    )) {
        name
    } else {
        "static"@
    }
}

fn label_in_api(rest: &Vec<String>) -> (r: String)
    ensures
        r@ == api_label(texts(rest@)),
{
    proof {
        assert forall|i: int| 0 <= i < rest@.len() implies texts(rest@)[i] == (
        #[trigger] rest@[i])@ by {}
    }
    if rest.len() >= 2 && same(rest[0].as_str(), "auth") && same(rest[1].as_str(), "social") {
        if rest.len() <= 3 {
            return "/api/v1/auth/social".to_owned();
        }
        let action = join(&tail(rest, 3), "/");
        if has_route(&api(), cat("auth/social/{id}/", action.as_str()).as_str()) {
            return cat("/api/v1/auth/social/", action.as_str());
        }
        return "/api/v1/".to_owned();
    }
    let name = join(rest, "/");
    if has_route(&api(), name.as_str()) {
        cat("/api/v1/", name.as_str())
    } else {
        "/api/v1/".to_owned()
    }
}

fn label_in_scim(rest: &Vec<String>) -> (r: String)
    ensures
        r@ == scim_label(texts(rest@)),
{
    proof {
        assert forall|i: int| 0 <= i < rest@.len() implies texts(rest@)[i] == (
        #[trigger] rest@[i])@ by {}
    }
    if rest.len() == 2 && same(rest[0].as_str(), "Users") {
        "/scim/v2/Users/{id}".to_owned()
    } else if rest.len() == 1 && has_route(&scim_routes(), rest[0].as_str()) {
        cat("/scim/v2/", rest[0].as_str())
    } else {
        "/scim/v2".to_owned()
    }
}

/// The label of a request path in metrics.
pub fn route_label(path: &str) -> (r: String)
    ensures
        r@ == label(path@),
{
    let plain = strip_query(path);
    let segs = split_nonempty(plain.as_str(), Cut::At('/'));
    proof {
        assert(texts(segs@) == segments(path@));
        assert forall|i: int| 0 <= i < segs@.len() implies segments(path@)[i] == (
        #[trigger] segs@[i])@ by {}
    }
    if segs.len() >= 2 && same(segs[0].as_str(), "api") && same(segs[1].as_str(), "v1") {
        return label_in_api(&tail(&segs, 2));
    }
    if segs.len() >= 1 && same(segs[0].as_str(), ".well-known") {
        return "discovery".to_owned();
    }
    if segs.len() >= 2 && same(segs[0].as_str(), "scim") && same(segs[1].as_str(), "v2") {
        return label_in_scim(&tail(&segs, 2));
    }
    if segs.len() >= 1 && protocol_segment(segs[0].as_str()) {
        let name = join(&segs, "/");
        if same(name.as_str(), "device-login") || has_route(&public_routes(), name.as_str()) {
            return name;
        }
    }
    "static".to_owned()
}

/// All labels that there are.
pub open spec fn labels() -> Seq<Seq<char>> {
    Seq::new(api_table().len(), |i: int| "/api/v1/"@ + api_table()[i].path)
        + Seq::new(
        api_table().len(),
        |i: int| "/api/v1/auth/social/"@ + api_table()[i].path.skip(17),
    ) + Seq::new(scim_table().len(), |i: int| "/scim/v2/"@ + scim_table()[i].path) + Seq::new(
        public_table().len(),
        |i: int| public_table()[i].path,
    ) + seq![
        "/api/v1/"@,
        "/api/v1/auth/social"@,
        "/scim/v2"@,
        "/scim/v2/Users/{id}"@,
        "discovery"@,
        "device-login"@,
        "static"@,
    ]
}

/// No path makes a new label: every label is one of a list that is fixed by the
/// tables of routes, whatever a client sends.
pub proof fn law_labels_are_fixed(path: Seq<char>)
    ensures
        labels().contains(label(path)),
{
    let segs = segments(path);
    let l = label(path);
    let a = Seq::new(api_table().len(), |i: int| "/api/v1/"@ + api_table()[i].path);
    let b = Seq::new(
        api_table().len(),
        |i: int| "/api/v1/auth/social/"@ + api_table()[i].path.skip(17),
    );
    let c = Seq::new(scim_table().len(), |i: int| "/scim/v2/"@ + scim_table()[i].path);
    let d = Seq::new(public_table().len(), |i: int| public_table()[i].path);
    let n: int = (a.len() + b.len() + c.len() + d.len()) as int;
    assert(labels()[n] == "/api/v1/"@);
    assert(labels()[n + 1] == "/api/v1/auth/social"@);
    assert(labels()[n + 2] == "/scim/v2"@);
    assert(labels()[n + 3] == "/scim/v2/Users/{id}"@);
    assert(labels()[n + 4] == "discovery"@);
    assert(labels()[n + 5] == "device-login"@);
    assert(labels()[n + 6] == "static"@);
    if segs.len() >= 2 && segs[0] == "api"@ && segs[1] == "v1"@ {
        let rest = segs.skip(2);
        if rest.len() >= 2 && rest[0] == "auth"@ && rest[1] == "social"@ {
            let action = joined(rest.skip(3), "/"@);
            let name = "auth/social/{id}/"@ + action;
            if rest.len() > 3 && names_route(api_table(), name) {
                let i = choose|i: int|
                    0 <= i < api_table().len() && (#[trigger] api_table()[i]).path == name;
                reveal_strlit("auth/social/{id}/");
                assert(name.skip(17) =~= action);
                assert(labels()[a.len() + i] == b[i]);
            }
        } else if names_route(api_table(), joined(rest, "/"@)) {
            let i = choose|i: int|
                0 <= i < api_table().len() && (#[trigger] api_table()[i]).path == joined(
                    rest,
                    "/"@,
                );
            assert(labels()[i] == a[i]);
        }
    } else if segs.len() >= 1 && segs[0] == ".well-known"@ {
    } else if segs.len() >= 2 && segs[0] == "scim"@ && segs[1] == "v2"@ {
        let rest = segs.skip(2);
        if rest.len() == 1 && names_route(scim_table(), rest[0]) {
            let i = choose|i: int|
                0 <= i < scim_table().len() && (#[trigger] scim_table()[i]).path == rest[0];
            assert(labels()[a.len() + b.len() + i] == c[i]);
        }
    } else if segs.len() >= 1 && is_protocol(segs[0]) && names_route(
        public_table(),
        joined(segs, "/"@),
    ) {
        let i = choose|i: int|
            0 <= i < public_table().len() && (#[trigger] public_table()[i]).path == joined(
                segs,
                "/"@,
            );
        assert(labels()[a.len() + b.len() + c.len() + i] == d[i]);
    }
}

/// The factors that attempts are counted by.
pub open spec fn known_factor(name: Seq<char>) -> bool {
    name == "email"@ || name == "otp"@ || name == "passkey"@ || name == "social"@ || name == "totp"@
}

fn find_factor(name: &str) -> (r: Option<&'static str>)
    ensures
        opt_str(r) == (if known_factor(name@) {
            Some(name@)
        } else {
            None
        }),
{
    if same(name, "email") {
        Some("email")
    } else if same(name, "otp") {
        Some("otp")
    } else if same(name, "passkey") {
        Some("passkey")
    } else if same(name, "social") {
        Some("social")
    } else if same(name, "totp") {
        Some("totp")
    } else {
        None
    }
}

/// The actions that attempts are counted by.
pub open spec fn known_action(name: Seq<char>) -> bool {
    ||| name == "request"@
    ||| name == "verify"@
    ||| name == "add"@
    ||| name == "add/verify"@
    ||| name == "remove"@
    ||| name == "enroll"@
    ||| name == "link"@
    ||| name == "redeem"@
}

fn find_action(name: &str) -> (r: Option<&'static str>)
    ensures
        opt_str(r) == (if known_action(name@) {
            Some(name@)
        } else {
            None
        }),
{
    if same(name, "request") {
        Some("request")
    } else if same(name, "verify") {
        Some("verify")
    } else if same(name, "add") {
        Some("add")
    } else if same(name, "add/verify") {
        Some("add/verify")
    } else if same(name, "remove") {
        Some("remove")
    } else if same(name, "enroll") {
        Some("enroll")
    } else if same(name, "link") {
        Some("link")
    } else if same(name, "redeem") {
        Some("redeem")
    } else {
        None
    }
}

/// The factor, the action and the outcome that an attempt is counted under;
/// none for a path that names no known factor with a known action.
pub open spec fn attempt(path: Seq<char>, status: u16) -> Option<
    (Seq<char>, Seq<char>, Seq<char>),
> {
    match auth_rest(path) {
        None => None,
        Some(rest) => if names_a_factor(rest) && known_factor(rest[0]) && known_action(
            factor_action(rest),
        ) {
            Some(
                (
                    rest[0],
                    factor_action(rest),
                    if 100 <= status < 400 {
                        "ok"@
                    } else {
                        "fail"@
                    },
                ),
            )
        } else {
            None
        },
    }
}

/// The factor, the action and the outcome that an attempt is counted under.
pub fn auth_attempt(path: &str, status: u16) -> (r: Option<
    (&'static str, &'static str, &'static str),
>)
    ensures
        (match r {
            Some(t) => Some((t.0@, t.1@, t.2@)),
            None => None,
        }) == attempt(path@, status),
{
    let plain = strip_query(path);
    let segs = split_nonempty(plain.as_str(), Cut::At('/'));
    let ghost ss = segments(path@);
    proof {
        assert(texts(segs@) == ss);
        assert forall|i: int| 0 <= i < segs@.len() implies ss[i] == (#[trigger] segs@[i])@ by {}
    }
    if segs.len() < 3 || !same(segs[0].as_str(), "api") || !same(segs[1].as_str(), "v1") || !same(
        segs[2].as_str(),
        "auth",
    ) {
        return None;
    }
    let rest = tail(&segs, 3);
    if rest.len() == 0 {
        return None;
    }
    proof {
        assert(texts(rest@)[0] == rest@[0]@);
    }
    let factor = match find_factor(rest[0].as_str()) {
        Some(f) => f,
        None => {
            return None;
        },
    };
    if same(rest[0].as_str(), "social") && rest.len() < 2 {
        return None;
    }
    let action_text = action_of(&rest);
    let action = match find_action(action_text.as_str()) {
        Some(a) => a,
        None => {
            return None;
        },
    };
    let outcome = if 100 <= status && status < 400 {
        "ok"
    } else {
        "fail"
    };
    Some((factor, action, outcome))
}

/// Attempts are counted under five factors, eight actions and two outcomes,
/// whatever the path is.
pub proof fn law_attempts_are_bounded(path: Seq<char>, status: u16)
    ensures
        attempt(path, status) matches Some(t) ==> known_factor(t.0) && known_action(t.1) && (t.2
            == "ok"@ || t.2 == "fail"@),
{
}

/// Whatever user a provisioning path names, and whatever provider a social
/// sign-in does, the label is the same; so it is for every discovery document,
/// for every path that is neither of an interface nor of the protocol, and
/// below each of them for every path that has no route.
pub proof fn law_instances_share_a_label(path: Seq<char>)
    ensures
        segments(path).len() == 4 && segments(path)[0] == "scim"@ && segments(path)[1] == "v2"@
            && segments(path)[2] == "Users"@ ==> label(path) == "/scim/v2/Users/{id}"@,
        segments(path).len() >= 1 && segments(path)[0] == ".well-known"@ ==> label(path)
            == "discovery"@,
        segments(path).len() >= 1 && segments(path)[0] != "api"@ && segments(path)[0]
            != ".well-known"@ && segments(path)[0] != "scim"@ && joined(segments(path), "/"@)
            != "device-login"@ && !names_route(public_table(), joined(segments(path), "/"@))
            ==> label(path) == "static"@,
        segments(path).len() >= 2 && segments(path)[0] == "api"@ && segments(path)[1] == "v1"@ && !(
        segments(path).len() >= 4 && segments(path)[2] == "auth"@ && segments(path)[3] == "social"@)
            && !names_route(api_table(), joined(segments(path).skip(2), "/"@)) ==> label(path)
            == "/api/v1/"@,
        segments(path).len() == 5 && segments(path)[0] == "api"@ && segments(path)[1] == "v1"@
            && segments(path)[2] == "auth"@ && segments(path)[3] == "social"@ ==> label(path)
            == "/api/v1/auth/social"@,
        segments(path).len() >= 2 && segments(path)[0] == "scim"@ && segments(path)[1] == "v2"@ && !(
        segments(path).len() == 4 && segments(path)[2] == "Users"@) && !(segments(path).len() == 3
            && names_route(scim_table(), segments(path)[2])) ==> label(path) == "/scim/v2"@,
{
    reveal_strlit("api");
    reveal_strlit("scim");
    reveal_strlit(".well-known");
    assert("scim"@[0] == 's');
    assert("api"@[0] == 'a');
    assert(".well-known"@[0] == '.');
    let segs = segments(path);
    if segs.len() >= 3 {
        assert(segs.skip(2)[0] == segs[2]);
    }
    if segs.len() >= 4 {
        assert(segs.skip(2)[1] == segs[3]);
    }
}

/// A visible ASCII character.
pub open spec fn is_graphic(b: u8) -> bool {
    0x21 <= b <= 0x7e
}

/// The request identifier that a caller may choose: up to 128 visible ASCII
/// characters.
pub open spec fn chosen_id(header: Option<Seq<char>>) -> Option<Seq<char>> {
    match header {
        Some(h) => {
            let id = trimmed(h);
            let bytes = encode_utf8(id);
            if id.len() > 0 && bytes.len() <= 128 && forall|i: int|
                0 <= i < bytes.len() ==> is_graphic(#[trigger] bytes[i]) {
                Some(id)
            } else {
                None
            }
        },
        None => None,
    }
}

/// The request identifier that a caller chose, where it is acceptable.
pub fn adopted_id(header: Option<&str>) -> (r: Option<String>)
    ensures
        opt_text(r) == chosen_id(opt_str(header)),
{
    let id = match header {
        Some(h) => trim(h),
        None => {
            return None;
        },
    };
    if id.as_str().is_empty() {
        return None;
    }
    let bytes = id.as_str().as_bytes();
    if bytes.len() > 128 {
        return None;
    }
    let mut i: usize = 0;
    while i < bytes.len()
        invariant
            i <= bytes@.len(),
            bytes@ == encode_utf8(id@),
            id@ == trimmed(header->0@),
            header is Some,
            forall|j: int| 0 <= j < i ==> is_graphic(#[trigger] bytes@[j]),
        decreases bytes@.len() - i,
    {
        let b: u8 = bytes[i];
        if b < 0x21 || b > 0x7e {
            proof {
                assert(!is_graphic(bytes@[i as int]));
            }
            return None;
        }
        i = i + 1;
    }
    Some(id)
}

/// The identifier of a request: the caller's own where it is acceptable, else
/// a new one.
pub fn request_id(header: Option<&str>) -> (r: String)
    ensures
        chosen_id(opt_str(header)) matches Some(id) ==> r@ == id,
        chosen_id(opt_str(header)) is None ==> r@.len() == 36,
{
    match adopted_id(header) {
        Some(id) => id,
        None => random_uuid(),
    }
}

} // verus!
