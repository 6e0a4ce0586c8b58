//! Roles, factors and rules: who stands above whom, and what is allowed.

use crate::identity::{inherited, with_factor_view, HttpMethod, JwtData, SessionFactors};
use crate::laws::authorize::{lemma_lists, lists};
use crate::outside::lowercase;
use crate::policy::{
    captured, is_about, others, outcome, rules_at, source_of, target_header, target_of, with_rule,
    without_rule, Access, Policy, PolicyEntry, SourceResolver, TargetResolver,
};
use crate::reply::ProblemKind;
use crate::role::{
    builtin_level_of, caller_level, creation, highest, highest_of, level_in, may_administer,
    may_delete, outranks, reported, request_fault, user_level, AdminErrorView, Caller, Role,
    RoleCreation, RoleFaultView,
};
use crate::text::{opt_text, pieces, texts, Cut};
use vstd::prelude::*;

verus! {

/// The ladder of built-in roles: root at 100, admin at 80, scim at 60, user at
/// 40, guest at 20, and nothing else.
pub proof fn law_the_ladder_has_five_rungs(name: Seq<char>)
    ensures
        builtin_level_of(name) == Some(100i64) <==> name == "root"@,
        builtin_level_of(name) == Some(80i64) <==> name == "admin"@,
        builtin_level_of(name) == Some(60i64) <==> name == "scim"@,
        builtin_level_of(name) == Some(40i64) <==> name == "user"@,
        builtin_level_of(name) == Some(20i64) <==> name == "guest"@,
        builtin_level_of(name) is Some ==> name == "root"@ || name == "admin"@ || name == "scim"@
            || name == "user"@ || name == "guest"@,
{
    reveal_strlit("root");
    reveal_strlit("admin");
    reveal_strlit("scim");
    reveal_strlit("user");
    reveal_strlit("guest");
    assert("root"@[0] == 'r' && "admin"@[0] == 'a' && "scim"@[0] == 's' && "user"@[0] == 'u'
        && "guest"@[0] == 'g');
}

/// A role has the level of its first entry in the table, and none where it has
/// no entry.
pub proof fn law_roles_have_the_level_of_their_entry(table: Seq<Role>, name: Seq<char>, k: int)
    ensures
        0 <= k < table.len() && table[k].id@ == name && (forall|j: int|
            0 <= j < k ==> (#[trigger] table[j]).id@ != name) ==> level_in(table, name) == Some(
            table[k].level,
        ),
        (forall|j: int| 0 <= j < table.len() ==> (#[trigger] table[j]).id@ != name) ==> level_in(
            table,
            name,
        ) is None,
    decreases table.len(),
{
    if table.len() > 0 {
        let rest = table.skip(1);
        law_roles_have_the_level_of_their_entry(rest, name, k - 1);
        assert forall|j: int| 0 <= j < rest.len() implies rest[j] == #[trigger] table[j + 1] by {}
        if 0 < k < table.len() && forall|j: int|
            0 <= j < k ==> (#[trigger] table[j]).id@ != name {
            assert(table[0].id@ != name);
            assert forall|j: int| 0 <= j < k - 1 implies (#[trigger] rest[j]).id@ != name by {
                assert(rest[j] == table[j + 1]);
            }
        }
        if forall|j: int| 0 <= j < table.len() ==> (#[trigger] table[j]).id@ != name {
            assert(table[0].id@ != name);
            assert forall|j: int| 0 <= j < rest.len() implies (#[trigger] rest[j]).id@ != name by {
                assert(rest[j] == table[j + 1]);
            }
        }
    }
}

/// One of the named roles has the level `l`.
pub open spec fn has_level(roles: Seq<String>, table: Seq<Role>, l: i64) -> bool {
    exists|i: int| 0 <= i < roles.len() && level_in(table, (#[trigger] roles[i])@) == Some(l)
}

/// A session stands where the highest of its known roles stands: at a level
/// that one of them has and none of them exceeds. The set-up stands above
/// everybody.
pub proof fn law_sessions_stand_at_their_highest_role(data: JwtData, table: Seq<Role>, i: int)
    ensures
        caller_level(Caller::Bootstrap, table) == Some(i64::MAX),
        caller_level(Caller::Jwt(data), table) matches Some(l) ==> has_level(data.roles@, table, l),
        0 <= i < data.roles@.len() ==> (level_in(table, data.roles@[i]@) matches Some(l) ==> (
        caller_level(Caller::Jwt(data), table) matches Some(m) && l <= m)),
{
    let names = texts(data.roles@);
    lemma_highest(names, table);
    if let Some(l) = caller_level(Caller::Jwt(data), table) {
        let k = choose|k: int|
            0 <= k < names.len() && level_in(table, #[trigger] names[k]) == Some(l);
        assert(names[k] == data.roles@[k]@);
    }
    if 0 <= i < data.roles@.len() {
        assert(names[i] == data.roles@[i]@);
    }
}

proof fn lemma_highest(names: Seq<Seq<char>>, table: Seq<Role>)
    ensures
        highest(names, table) matches Some(l) ==> exists|k: int|
            0 <= k < names.len() && level_in(table, #[trigger] names[k]) == Some(l),
        forall|k: int|
            0 <= k < names.len() ==> (level_in(table, #[trigger] names[k]) matches Some(l) ==> (
            highest(names, table) matches Some(m) && l <= m)),
    decreases names.len(),
{
    if names.len() > 0 {
        let front = names.drop_last();
        lemma_highest(front, table);
        assert(names.last() == names[names.len() - 1]);
        assert forall|k: int| 0 <= k < front.len() implies front[k] == #[trigger] names[k] by {}
        if let Some(l) = highest(names, table) {
            if highest(front, table) == Some(l) {
                let k = choose|k: int|
                    0 <= k < front.len() && level_in(table, #[trigger] front[k]) == Some(l);
                assert(level_in(table, names[k]) == Some(l));
            } else {
                assert(level_in(table, names[names.len() - 1]) == Some(l));
            }
        }
        assert forall|k: int| 0 <= k < names.len() implies (level_in(
            table,
            #[trigger] names[k],
        ) matches Some(l) ==> (highest(names, table) matches Some(m) && l <= m)) by {
            if k < front.len() {
                assert(front[k] == names[k]);
            }
        }
    }
}

/// A user stands where the highest of the user's roles stands.
pub proof fn law_users_stand_at_their_highest_role(roles: Vec<Role>, i: int)
    ensures
        user_level(Some(roles)) is None <==> roles@.len() == 0,
        user_level(None) is None,
        user_level(Some(roles)) matches Some(l) ==> exists|k: int|
            0 <= k < roles@.len() && (#[trigger] roles@[k]).level == l,
        0 <= i < roles@.len() ==> (user_level(Some(roles)) matches Some(l) && roles@[i].level <= l),
{
    lemma_highest_of(roles@);
}

proof fn lemma_highest_of(roles: Seq<Role>)
    ensures
        highest_of(roles) is None <==> roles.len() == 0,
        highest_of(roles) matches Some(l) ==> exists|k: int|
            0 <= k < roles.len() && (#[trigger] roles[k]).level == l,
        forall|k: int|
            0 <= k < roles.len() ==> (highest_of(roles) matches Some(l) && (
            #[trigger] roles[k]).level <= l),
    decreases roles.len(),
{
    if roles.len() > 0 {
        let front = roles.drop_last();
        lemma_highest_of(front);
        assert(roles.last() == roles[roles.len() - 1]);
        if let Some(l) = highest_of(roles) {
            if highest_of(front) == Some(l) {
                let k = choose|k: int| 0 <= k < front.len() && (#[trigger] front[k]).level == l;
                assert(roles[k].level == l);
            } else {
                assert(roles[roles.len() - 1].level == l);
            }
        }
        assert forall|k: int| 0 <= k < roles.len() implies (highest_of(roles) matches Some(l) && (
        #[trigger] roles[k]).level <= l) by {
            if k < front.len() {
                assert(front[k] == roles[k]);
            }
        }
    }
}

/// A session administers exactly what stands strictly below it: a role by its
/// level, a user by the user's, and a user without roles from any level. The
/// set-up administers everybody.
pub proof fn law_superiors_administer(
    data: JwtData,
    table: Seq<Role>,
    level: i64,
    target: Option<i64>,
)
    ensures
        may_administer(Caller::Bootstrap, table, target),
        may_administer(Caller::Jwt(data), table, target) <==> (caller_level(
            Caller::Jwt(data),
            table,
        ) matches Some(l) && (target matches Some(t) ==> l > t)),
        outranks(caller_level(Caller::Jwt(data), table), level) <==> (caller_level(
            Caller::Jwt(data),
            table,
        ) matches Some(l) && l > level),
{
}

/// A session creates a role exactly where the name is neither built in nor
/// taken and the level is not negative and strictly below its own; the role
/// is then what was asked for. The set-up creates what is not there, built-in
/// roles at their own level.
pub proof fn law_free_names_below_are_created(
    data: JwtData,
    name: Seq<char>,
    level: i64,
    taken: bool,
    table: Seq<Role>,
)
    ensures
        creation(Caller::Jwt(data), name, level, taken, table) is Ok <==> builtin_level_of(
            name,
        ) is None && !taken && level >= 0 && (caller_level(Caller::Jwt(data), table) matches Some(l)
            && l > level),
        creation(Caller::Jwt(data), name, level, taken, table) matches Ok(c) ==> c
            == (RoleCreation::Create { level, builtin: false }),
        creation(Caller::Bootstrap, name, level, taken, table) == Ok::<
            RoleCreation,
            RoleFaultView,
        >(
            if taken {
                RoleCreation::Keep
            } else {
                match builtin_level_of(name) {
                    Some(own) => RoleCreation::Create { level: own, builtin: true },
                    None => RoleCreation::Create { level, builtin: false },
                }
            },
        ),
        creation(Caller::Jwt(data), name, level, taken, table) matches Err(e) ==> (
        if builtin_level_of(name) is Some {
            e == RoleFaultView::Admin(AdminErrorView::Forbidden)
        } else if taken {
            e == RoleFaultView::Admin(
                AdminErrorView::Conflict("role '"@ + name + "' already exists"@),
            )
        } else if level < 0 {
            e == RoleFaultView::Invalid("role level must be >= 0"@)
        } else {
            e == RoleFaultView::Admin(AdminErrorView::Forbidden)
        }),
{
}

/// An administrative request is looked at exactly when it reads, comes with a
/// session and reaches a tenant; without a session the answer is 401.
pub proof fn law_readable_requests_are_looked_at(
    readable: bool,
    has_session: bool,
    has_tenant: bool,
)
    ensures
        request_fault(readable, has_session, has_tenant) is None <==> readable && has_session
            && has_tenant,
        request_fault(readable, has_session, has_tenant) matches Some(p) ==> {
            &&& p.status == 401 <==> readable && !has_session
            &&& p.status != 401 ==> p.status == 400 && p.kind == ProblemKind::Validation
            &&& p.status == 401 ==> p.kind == ProblemKind::Unauthorized
        },
{
}

/// One more factor is that factor and the ones before it, each as often as it
/// was; a user's own session hands its factors on in order, and nobody
/// else's does.
pub proof fn law_one_more_factor(
    factors: Seq<Seq<char>>,
    factor: Seq<char>,
    any: Seq<char>,
    session: SessionFactors,
    username: Seq<char>,
)
    ensures
        with_factor_view(factors, factor).contains(any) <==> factors.contains(any) || any == factor,
        factors.contains(factor) ==> with_factor_view(factors, factor) == factors,
        !factors.contains(factor) ==> with_factor_view(factors, factor).len() == factors.len() + 1,
        inherited(None, username).len() == 0,
        session.username@ == username ==> inherited(Some(session), username).len()
            == session.mfa@.len() && forall|i: int|
            0 <= i < session.mfa@.len() ==> #[trigger] inherited(Some(session), username)[i]
                == session.mfa@[i]@,
        session.username@ != username ==> inherited(Some(session), username).len() == 0,
{
    if factors.contains(any) {
        let k = choose|k: int| 0 <= k < factors.len() && factors[k] == any;
        assert(with_factor_view(factors, factor)[k] == any);
    }
    if !factors.contains(factor) {
        assert(with_factor_view(factors, factor)[factors.len() as int] == factor);
    }
    let got = with_factor_view(factors, factor);
    if got.contains(any) {
        let k = choose|k: int| 0 <= k < got.len() && got[k] == any;
        if k < factors.len() {
            assert(factors[k] == any);
        }
    }
}

/// A template segment in braces, with its name.
pub open spec fn braced(seg: Seq<char>, name: Seq<char>) -> bool {
    seg == seq!['{'] + name + seq!['}']
}

/// Segment by segment, the path is the template's own or stands for one of its
/// parameters.
pub open spec fn follows(path: Seq<String>, template: Seq<String>) -> bool {
    &&& path.len() == template.len()
    &&& forall|i: int|
        0 <= i < path.len() ==> (#[trigger] path[i])@ == template[i]@ || exists|name: Seq<char>| #[trigger]
            braced(template[i]@, name)
}

proof fn lemma_braced(seg: Seq<char>)
    ensures
        crate::policy::is_param(seg) <==> exists|name: Seq<char>| #[trigger] braced(seg, name),
{
    if crate::policy::is_param(seg) {
        let name = seg.subrange(1, seg.len() - 1);
        assert(seg =~= seq!['{'] + name + seq!['}']);
        assert(braced(seg, name));
    }
    if exists|name: Seq<char>| #[trigger] braced(seg, name) {
        let name = choose|name: Seq<char>| #[trigger] braced(seg, name);
        assert(seg.last() == '}');
    }
}

proof fn lemma_follows(path: Seq<String>, template: Seq<String>)
    ensures
        crate::policy::fits(texts(template), texts(path)) <==> follows(path, template),
{
    let ps = texts(path);
    let ts = texts(template);
    assert(ps.len() == path.len() && ts.len() == template.len());
    if crate::policy::fits(ts, ps) {
        assert forall|i: int| 0 <= i < path.len() implies (#[trigger] path[i])@ == template[i]@
            || exists|name: Seq<char>| #[trigger] braced(template[i]@, name) by {
            assert(ts[i] == template[i]@);
            assert(ps[i] == path[i]@);
            lemma_braced(template[i]@);
        }
    }
    if follows(path, template) {
        assert forall|i: int| 0 <= i < ts.len() implies crate::policy::is_param(#[trigger] ts[i])
            || ts[i] == ps[i] by {
            assert(ts[i] == template[i]@);
            assert(ps[i] == path[i]@);
            lemma_braced(template[i]@);
        }
    }
}

/// The same paths, segment by segment.
pub open spec fn same_path(a: Seq<String>, b: Seq<String>) -> bool {
    a.len() == b.len() && forall|i: int| 0 <= i < a.len() ==> (#[trigger] a[i])@ == b[i]@
}

proof fn lemma_same_path(a: Seq<String>, b: Seq<String>)
    ensures
        texts(a) == texts(b) <==> same_path(a, b),
{
    assert(texts(a).len() == a.len() && texts(b).len() == b.len());
    if texts(a) == texts(b) {
        assert forall|i: int| 0 <= i < a.len() implies (#[trigger] a[i])@ == b[i]@ by {
            assert(texts(a)[i] == a[i]@);
            assert(texts(b)[i] == b[i]@);
        }
    }
    if same_path(a, b) {
        assert forall|i: int| 0 <= i < a.len() implies texts(a)[i] == texts(b)[i] by {
            assert(a[i]@ == b[i]@);
        }
        assert(texts(a) =~= texts(b));
    }
}

/// The caller has shown a one-time password and another factor besides.
pub open spec fn has_second_factor(jwt: JwtData) -> bool {
    lists(jwt.mfa@, "totp"@) && jwt.mfa@.len() >= 2
}

/// A rule speaks of a request exactly when it is a request of the rule's domain
/// by a caller of that domain, with the rule's method, on the rule's path: on
/// the very path where the rule binds nobody, and otherwise on one that
/// follows the template, with the identity that the rule binds. What it then
/// says is what it was written to say, once a second factor was shown where
/// it asks for one.
pub proof fn law_rules_say_what_was_written(p: Policy, jwt: JwtData, a: Access, header: Seq<char>)
    ensures
        ({
            let speaks = {
                &&& a.domain@ == jwt.domain@ && a.domain@ == p.domain_id@
                &&& p.action matches Some(act) ==> act == a.act
                &&& if p.source == SourceResolver::Nothing && p.target is Nothing {
                    same_path(a.path@, p.resource@)
                } else {
                    follows(a.path@, p.resource@) && source_of(p, jwt) == target_of(p, a, header)
                }
            };
            &&& outcome(p, jwt, a, header) is Some <==> speaks
            &&& outcome(p, jwt, a, header) matches Some(c) ==> {
                &&& c.can_access <==> p.allowed && (p.mfa ==> has_second_factor(jwt))
                &&& c.expect_mfa <==> p.mfa && !has_second_factor(jwt)
            }
        }),
{
    lemma_same_path(a.path@, p.resource@);
    lemma_follows(a.path@, p.resource@);
    lemma_lists(jwt.mfa@, "totp"@);
}

/// The identity that acts is the caller's name, the caller's domain or the
/// rule's role, as the rule says; the one acted upon is taken from the path,
/// the query or a header, whose name may be spelled in any case.
pub proof fn law_rules_bind_who_they_name(p: Policy, jwt: JwtData, a: Access, header: Seq<char>)
    ensures
        p.source == SourceResolver::Nothing ==> source_of(p, jwt) is None,
        p.source == SourceResolver::User ==> source_of(p, jwt) == Some(jwt.username@),
        p.source == SourceResolver::Domain ==> source_of(p, jwt) == Some(jwt.domain@),
        p.source == SourceResolver::Role ==> source_of(p, jwt) == Some(p.role_id@),
        p.target is Nothing ==> target_of(p, a, header) is None,
        p.target matches TargetResolver::FromQuery { qname } ==> target_of(p, a, header)
            == crate::oidc::exchange::form_value(a.query@, qname@),
        p.target matches TargetResolver::FromHeader { hname } ==> target_of(p, a, header)
            == crate::oidc::exchange::form_value(a.header@, header),
        p.target matches TargetResolver::FromHeader { hname } ==> target_header(p) == lowercase(
            hname@,
        ),
        p.target matches TargetResolver::FromPath { pname } ==> target_of(p, a, header) == captured(
            texts(p.resource@),
            texts(a.path@),
            pname@,
        ),
{
}

/// A template captures the segment in the place of the parameter, the last one
/// where there are more, and nothing where no parameter has the name or the
/// path does not follow.
pub proof fn law_templates_capture_their_parameters(
    template: Seq<String>,
    path: Seq<String>,
    name: Seq<char>,
    i: int,
)
    ensures
        !follows(path, template) ==> captured(texts(template), texts(path), name) is None,
        follows(path, template) && 0 <= i < template.len() && braced(template[i]@, name) && (
        forall|j: int| i < j < template.len() ==> !braced((#[trigger] template[j])@, name))
            ==> captured(texts(template), texts(path), name) == Some(path[i]@),
        (forall|j: int| 0 <= j < template.len() ==> !braced((#[trigger] template[j])@, name))
            ==> captured(texts(template), texts(path), name) is None,
{
    let ts = texts(template);
    let ps = texts(path);
    lemma_follows(path, template);
    assert forall|j: int| 0 <= j < template.len() implies ts[j] == (#[trigger] template[j])@ by {}
    if follows(path, template) {
        assert(ts.len() == template.len() && ps.len() == path.len());
        if 0 <= i < template.len() {
            assert(ps[i] == path[i]@);
            assert(ts[i] == template[i]@);
        }
        if forall|j: int| 0 <= j < template.len() ==> !braced((#[trigger] template[j])@, name) {
            assert forall|j: int| 0 <= j < ts.len() implies !braced(#[trigger] ts[j], name) by {
                assert(ts[j] == template[j]@);
            }
        }
        if 0 <= i && forall|j: int|
            i < j < template.len() ==> !braced((#[trigger] template[j])@, name) {
            assert forall|j: int| i < j < ts.len() implies !braced(#[trigger] ts[j], name) by {
                assert(ts[j] == template[j]@);
            }
        }
        lemma_capture(ts, ps, name, i);
    }
}

proof fn lemma_capture(ts: Seq<Seq<char>>, ps: Seq<Seq<char>>, name: Seq<char>, i: int)
    requires
        ts.len() == ps.len(),
    ensures
        0 <= i < ts.len() && braced(ts[i], name) && (forall|j: int|
            i < j < ts.len() ==> !braced(#[trigger] ts[j], name)) ==> crate::policy::capture(
            ts,
            ps,
            name,
        ) == Some(ps[i]),
        (forall|j: int| 0 <= j < ts.len() ==> !braced(#[trigger] ts[j], name))
            ==> crate::policy::capture(ts, ps, name) is None,
    decreases ts.len(),
{
    if ts.len() > 0 {
        let front = ts.drop_last();
        lemma_capture(front, ps.drop_last(), name, i);
        let last = ts.last();
        assert(last == ts[ts.len() - 1]);
        assert(ps.last() == ps[ps.len() - 1]);
        lemma_braced(last);
        assert(crate::policy::is_param(last) && crate::policy::param_name(last) == name <==> braced(
            last,
            name,
        )) by {
            if crate::policy::is_param(last) && crate::policy::param_name(last) == name {
                assert(last =~= seq!['{'] + name + seq!['}']);
            }
            if braced(last, name) {
                assert(last.last() == '}');
                assert(last.subrange(1, last.len() - 1) =~= name);
            }
        }
        assert forall|j: int| 0 <= j < front.len() implies front[j] == #[trigger] ts[j] by {}
        if forall|j: int| 0 <= j < ts.len() ==> !braced(#[trigger] ts[j], name) {
            assert forall|j: int| 0 <= j < front.len() implies !braced(
                #[trigger] front[j],
                name,
            ) by {
                assert(front[j] == ts[j]);
            }
            assert(!braced(ts[ts.len() - 1], name));
        }
        if 0 <= i < front.len() && forall|j: int| i < j < ts.len() ==> !braced(#[trigger] ts[j], name) {
            assert forall|j: int| i < j < front.len() implies !braced(#[trigger] front[j], name) by {
                assert(front[j] == ts[j]);
            }
            assert(!braced(ts[ts.len() - 1], name));
        }
    }
}

/// A rule that is added is the one that was written, in the domain that serves
/// the request.
pub proof fn law_added_rules_are_as_written(
    p: Policy,
    entry: PolicyEntry,
    id: Seq<char>,
    domain: Seq<char>,
)
    requires
        p.adds(entry, id, domain),
    ensures
        p.id@ == id,
        p.domain_id@ == domain,
        p.role_id@ == entry.role@,
        p.action == entry.action,
        p.source == entry.source,
        p.target == entry.target,
        p.mfa == entry.mfa,
        p.allowed == entry.allowed,
        texts(p.resource@) == pieces(entry.resource@, Cut::At('/')),
{
}

/// A deletion takes away exactly the rules about its method and path, and
/// leaves the others; an addition adds one rule and leaves all others.
pub proof fn law_only_named_rules_are_deleted(
    ps: Seq<Policy>,
    action: Option<HttpMethod>,
    resource: Seq<Seq<char>>,
    p: Policy,
)
    ensures
        others(ps, action, resource).contains(p) <==> ps.contains(p) && !(p.action == action
            && texts(p.resource@) == resource),
    decreases ps.len(),
{
    if ps.len() > 0 {
        let front = ps.drop_last();
        let last = ps.last();
        law_only_named_rules_are_deleted(front, action, resource, p);
        assert(ps[ps.len() - 1] == last);
        if ps.contains(p) {
            let k = choose|k: int| 0 <= k < ps.len() && ps[k] == p;
            if k < front.len() {
                assert(front[k] == p);
            }
        }
        if front.contains(p) {
            let k = choose|k: int| 0 <= k < front.len() && front[k] == p;
            assert(ps[k] == p);
        }
        let before = others(front, action, resource);
        let after = others(ps, action, resource);
        if before.contains(p) {
            let k = choose|k: int| 0 <= k < before.len() && before[k] == p;
            assert(after[k] == p);
        }
        if after.contains(p) {
            let k = choose|k: int| 0 <= k < after.len() && after[k] == p;
            if k < before.len() {
                assert(before[k] == p);
            }
        }
        if !is_about(last, action, resource) {
            assert(after[before.len() as int] == last);
        }
    }
}

/// A rule that is put into the cache comes last among those of its domain and
/// role; the rules of every other stay.
pub proof fn law_cached_rules_come_last(
    m: Map<(Seq<char>, Seq<char>), Seq<Policy>>,
    p: Policy,
    domain: Seq<char>,
    role: Seq<char>,
)
    ensures
        domain == p.domain_id@ && role == p.role_id@ ==> rules_at(with_rule(m, p), domain, role)
            == rules_at(m, domain, role).push(p),
        !(domain == p.domain_id@ && role == p.role_id@) ==> rules_at(with_rule(m, p), domain, role)
            == rules_at(m, domain, role),
{
}

/// The segments of a path hold no slash.
pub proof fn law_segments_hold_no_slash(s: Seq<char>, i: int)
    requires
        0 <= i < pieces(s, Cut::At('/')).len(),
    ensures
        !pieces(s, Cut::At('/'))[i].contains('/'),
{
    lemma_segments(s);
    assert(!pieces(s, Cut::At('/'))[i].contains('/'));
}

proof fn lemma_segments(s: Seq<char>)
    ensures
        pieces(s, Cut::At('/')).len() > 0,
        forall|i: int|
            0 <= i < pieces(s, Cut::At('/')).len() ==> !(#[trigger] pieces(
                s,
                Cut::At('/'),
            )[i]).contains('/'),
    decreases s.len(),
{
    let ps = pieces(s, Cut::At('/'));
    if s.len() > 0 {
        let before = pieces(s.drop_last(), Cut::At('/'));
        lemma_segments(s.drop_last());
        assert forall|i: int| 0 <= i < ps.len() implies !(#[trigger] ps[i]).contains('/') by {
            if i < ps.len() - 1 {
                assert(ps[i] == before[i]);
            } else if s.last() != '/' {
                let grown = before.last().push(s.last());
                assert(ps[i] == grown);
                assert(!before[before.len() - 1].contains('/'));
                if grown.contains('/') {
                    let k = choose|k: int| 0 <= k < grown.len() && grown[k] == '/';
                    if k < before.last().len() {
                        assert(before.last()[k] == '/');
                    }
                }
            }
        }
    }
}

/// A role is deleted exactly where it is not built in and the caller stands
/// strictly above it; the set-up deletes any other.
pub proof fn law_inferior_roles_are_deleted(caller: Caller, role: Role, table: Seq<Role>)
    ensures
        role.builtin ==> !may_delete(caller, role, table),
        !role.builtin && caller is Bootstrap ==> may_delete(caller, role, table),
        !role.builtin && caller is Jwt ==> (may_delete(caller, role, table) <==> (caller_level(
            caller,
            table,
        ) matches Some(l) && l > role.level)),
{
}

/// A refusal by level is reported as 403, a name that is taken as 409, and a
/// request that makes no sense as 400, each in its own words.
pub proof fn law_refusals_are_reported_apart(e: RoleFaultView)
    ensures
        e == RoleFaultView::Admin(AdminErrorView::Forbidden) <==> reported(e).status == 403,
        e matches RoleFaultView::Admin(AdminErrorView::Conflict(m)) ==> reported(e).status == 409
            && reported(e).detail == m && reported(e).kind == ProblemKind::Conflict,
        e matches RoleFaultView::Invalid(m) ==> reported(e).status == 400 && reported(e).detail == m
            && reported(e).kind == ProblemKind::Validation,
        reported(e).status == 403 ==> reported(e).kind == ProblemKind::Forbidden && reported(
            e,
        ).detail == "role level is not below the caller's effective level"@,
{
}

/// A rule is listed as it was written: adding it and listing it gives back what
/// was sent, but for the domain, which is the one that serves the request.
pub proof fn law_rules_are_listed_as_written(
    sent: PolicyEntry,
    stored: Policy,
    shown: PolicyEntry,
    id: Seq<char>,
    domain: Seq<char>,
)
    requires
        stored.adds(sent, id, domain),
        shown.lists(stored),
    ensures
        opt_text(shown.id) == Some(id),
        shown.resource@ == sent.resource@,
        shown.domain@ == domain,
        shown.role@ == sent.role@,
        shown.action == sent.action,
        shown.source == sent.source,
        shown.target == sent.target,
        shown.mfa == sent.mfa,
        shown.allowed == sent.allowed,
{
    crate::policy::law_resource_reads_back(sent.resource@);
}

/// A request that is not looked at is told why.
pub proof fn law_unreadable_requests_are_told(readable: bool, has_session: bool, has_tenant: bool)
    ensures
        request_fault(readable, has_session, has_tenant) matches Some(p) ==> p.detail == (
        if readable && !has_session {
            ""@
        } else {
            "Failed to parse request body"@
        }),
{
}

/// Taking rules out of the cache leaves the others of their domain and role,
/// and no entry where none is left.
pub proof fn law_the_other_rules_stay_cached(
    m: Map<(Seq<char>, Seq<char>), Seq<Policy>>,
    domain: Seq<char>,
    role: Seq<char>,
    action: Option<HttpMethod>,
    resource: Seq<Seq<char>>,
)
    ensures
        ({
            let left = others(rules_at(m, domain, role), action, resource);
            let after = without_rule(m, domain, role, action, resource);
            &&& rules_at(after, domain, role) == left
            &&& after.contains_key((domain, role)) <==> left.len() > 0
        }),
{
    let left = others(rules_at(m, domain, role), action, resource);
    if left.len() == 0 {
        assert(left =~= Seq::<Policy>::empty());
    }
}

} // verus!
