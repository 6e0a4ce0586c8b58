//! Policies: which requests a role allows or denies, and the cache of them.

use crate::identity::{HttpMethod, JwtData};
use crate::oidc::exchange::{form_get, form_value};
use crate::outside::{lowercase, to_lower};
use crate::role::{caller_level, outranks, require_below, AdminError, Caller, Role};
use crate::text::{
    chars_of, has_text, join, joined, opt_text, pieces, same, split, string_of, texts, Cut,
};
use dashmap::DashMap;
use vstd::prelude::*;

verus! {

/// From where the identity that acts is taken.
#[derive(Clone, Copy, Debug, PartialEq, Eq, Structural)]
pub enum SourceResolver {
    Nothing,
    User,
    Domain,
    Role,
}

/// The identity that acts.
pub enum Source {
    User(String),
    Domain(String),
    Role(String),
}

/// The name of the identity that acts.
pub open spec fn source_name(s: Source) -> Seq<char> {
    match s {
        Source::User(n) => n@,
        Source::Domain(n) => n@,
        Source::Role(n) => n@,
    }
}

/// From where the identity that is acted upon is taken.
pub enum TargetResolver {
    Nothing,
    FromPath { pname: String },
    FromQuery { qname: String },
    FromHeader { hname: String },
}

/// A rule for the holders of a role.
pub struct Policy {
    pub id: String,
    pub domain_id: String,
    /// The method that the rule is about; every method where there is none.
    pub action: Option<HttpMethod>,
    /// The path template, cut at its slashes.
    pub resource: Vec<String>,
    pub role_id: String,
    pub source: SourceResolver,
    pub target: TargetResolver,
    /// Whether the rule asks for a second factor.
    pub mfa: bool,
    pub allowed: bool,
}

/// The outcome of a rule that applies.
#[derive(Clone, Copy, Debug, PartialEq, Eq, Structural)]
pub struct CanAccess {
    pub can_access: bool,
    /// The rule asks for a second factor that the caller has not shown.
    pub expect_mfa: bool,
}

/// A request as the rules see it.
pub struct Access {
    pub act: HttpMethod,
    pub domain: String,
    pub path: Vec<String>,
    pub query: Vec<(String, String)>,
    /// The headers by their names in lower case.
    pub header: Vec<(String, String)>,
}

/// Whether a template segment stands for any segment.
pub open spec fn is_param(seg: Seq<char>) -> bool {
    seg.len() >= 2 && seg[0] == '{' && seg.last() == '}'
}

/// The name between the braces.
pub open spec fn param_name(seg: Seq<char>) -> Seq<char> {
    seg.subrange(1, seg.len() - 1)
}

/// Whether a path fits a template: as many segments, and equal ones wherever
/// the template names no parameter.
pub open spec fn fits(template: Seq<Seq<char>>, path: Seq<Seq<char>>) -> bool {
    &&& template.len() == path.len()
    &&& forall|i: int|
        0 <= i < template.len() ==> is_param(#[trigger] template[i]) || template[i] == path[i]
}

/// The segment in the place of a template's parameter; the last one, where the
/// template names the parameter more than once.
pub open spec fn capture(template: Seq<Seq<char>>, path: Seq<Seq<char>>, name: Seq<char>) -> Option<
    Seq<char>,
>
    decreases template.len(),
{
    if template.len() == 0 || path.len() == 0 {
        None
    } else if is_param(template.last()) && param_name(template.last()) == name {
        Some(path.last())
    } else {
        capture(template.drop_last(), path.drop_last(), name)
    }
}

/// What a path template captures under a name, where the path fits it.
pub open spec fn captured(template: Seq<Seq<char>>, path: Seq<Seq<char>>, name: Seq<char>) -> Option<
    Seq<char>,
> {
    if fits(template, path) {
        capture(template, path, name)
    } else {
        None
    }
}

/// The name of a template segment's parameter, where it has one.
fn segment_param(seg: &str) -> (r: Option<String>)
    ensures
        r is Some <==> is_param(seg@),
        r matches Some(n) ==> n@ == param_name(seg@),
{
    let cs = chars_of(seg);
    if cs.len() >= 2 && cs[0] == '{' && cs[cs.len() - 1] == '}' {
        Some(string_of(&cs, 1, cs.len() - 1))
    } else {
        None
    }
}

fn path_fits(template: &[String], path: &[String]) -> (r: bool)
    ensures
        r == fits(texts(template@), texts(path@)),
{
    let ghost ts = texts(template@);
    let ghost ps = texts(path@);
    if template.len() != path.len() {
        return false;
    }
    let mut i: usize = 0;
    while i < template.len()
        invariant
            i <= template@.len(),
            template@.len() == path@.len(),
            ts == texts(template@),
            ps == texts(path@),
            forall|j: int| 0 <= j < i ==> is_param(#[trigger] ts[j]) || ts[j] == ps[j],
        decreases template@.len() - i,
    {
        proof {
            assert(ts[i as int] == template@[i as int]@);
            assert(ps[i as int] == path@[i as int]@);
        }
        if segment_param(template[i].as_str()).is_none() && !same(
            template[i].as_str(),
            path[i].as_str(),
        ) {
            return false;
        }
        i = i + 1;
    }
    true
}

/// What a path template captures under a name.
pub fn capture_path(template: &[String], path: &[String], name: &str) -> (r: Option<String>)
    ensures
        opt_text(r) == captured(texts(template@), texts(path@), name@),
{
    let ghost ts = texts(template@);
    let ghost ps = texts(path@);
    if template.len() != path.len() {
        return None;
    }
    let mut found: Option<String> = None;
    let mut i: usize = 0;
    while i < template.len()
        invariant
            i <= template@.len(),
            template@.len() == path@.len(),
            ts == texts(template@),
            ps == texts(path@),
            forall|j: int| 0 <= j < i ==> is_param(#[trigger] ts[j]) || ts[j] == ps[j],
            opt_text(found) == capture(ts.take(i as int), ps.take(i as int), name@),
        decreases template@.len() - i,
    {
        proof {
            assert(ts.take(i + 1).drop_last() =~= ts.take(i as int));
            assert(ps.take(i + 1).drop_last() =~= ps.take(i as int));
            assert(ts.take(i + 1).last() == template@[i as int]@);
            assert(ps.take(i + 1).last() == path@[i as int]@);
        }
        match segment_param(template[i].as_str()) {
            Some(n) => {
                if same(n.as_str(), name) {
                    found = Some(path[i].clone());
                }
            },
            None => {
                if !same(template[i].as_str(), path[i].as_str()) {
                    proof {
                        assert(ts[i as int] == template@[i as int]@);
                        assert(ps[i as int] == path@[i as int]@);
                        assert(!fits(ts, ps));
                    }
                    return None;
                }
            },
        }
        i = i + 1;
    }
    proof {
        assert(ts.take(ts.len() as int) =~= ts);
        assert(ps.take(ps.len() as int) =~= ps);
        assert(fits(ts, ps));
    }
    found
}

/// The identity that a rule's source names: the caller's username, the
/// caller's domain, or the rule's own role.
pub open spec fn source_of(p: Policy, jwt: JwtData) -> Option<Seq<char>> {
    match p.source {
        SourceResolver::Nothing => None,
        SourceResolver::User => Some(jwt.username@),
        SourceResolver::Domain => Some(jwt.domain@),
        SourceResolver::Role => Some(p.role_id@),
    }
}

/// The identity that a rule's target names. `header_name` is the header's name
/// in lower case.
pub open spec fn target_of(p: Policy, a: Access, header_name: Seq<char>) -> Option<Seq<char>> {
    match p.target {
        TargetResolver::Nothing => None,
        TargetResolver::FromPath { pname } => captured(
            texts(p.resource@),
            texts(a.path@),
            pname@,
        ),
        TargetResolver::FromQuery { qname } => form_value(a.query@, qname@),
        TargetResolver::FromHeader { hname } => form_value(a.header@, header_name),
    }
}

/// The name of the header that a rule's target is taken from, in lower case.
pub open spec fn target_header(p: Policy) -> Seq<char> {
    match p.target {
        TargetResolver::FromHeader { hname } => lowercase(hname@),
        _ => Seq::empty(),
    }
}

/// Whether a rule applies to a request: domain, method and path must be those
/// of the rule. A rule that names neither a source nor a target takes its path
/// as it is written; any other takes every path that fits its template, where
/// source and target are the same identity.
pub open spec fn applies(p: Policy, jwt: JwtData, a: Access, header_name: Seq<char>) -> bool {
    &&& a.domain@ == jwt.domain@
    &&& a.domain@ == p.domain_id@
    &&& p.action is None || p.action == Some(a.act)
    &&& if p.source == SourceResolver::Nothing && p.target is Nothing {
        texts(a.path@) == texts(p.resource@)
    } else {
        fits(texts(p.resource@), texts(a.path@)) && source_of(p, jwt) == target_of(
            p,
            a,
            header_name,
        )
    }
}

/// Whether a caller has shown a second factor: a one-time password and one
/// factor besides.
pub open spec fn has_mfa(jwt: JwtData) -> bool {
    texts(jwt.mfa@).contains("totp"@) && jwt.mfa@.len() > 1
}

/// The outcome of a rule for a request, where it applies.
pub open spec fn outcome(p: Policy, jwt: JwtData, a: Access, header_name: Seq<char>) -> Option<
    CanAccess,
> {
    if !applies(p, jwt, a, header_name) {
        None
    } else if !p.mfa {
        Some(CanAccess { can_access: p.allowed, expect_mfa: false })
    } else {
        Some(CanAccess { can_access: has_mfa(jwt) && p.allowed, expect_mfa: !has_mfa(jwt) })
    }
}

fn same_texts(a: &[String], b: &[String]) -> (r: bool)
    ensures
        r == (texts(a@) == texts(b@)),
{
    if a.len() != b.len() {
        proof {
            assert(texts(a@).len() != texts(b@).len());
        }
        return false;
    }
    let mut i: usize = 0;
    while i < a.len()
        invariant
            i <= a@.len(),
            a@.len() == b@.len(),
            forall|j: int| 0 <= j < i ==> texts(a@)[j] == texts(b@)[j],
        decreases a@.len() - i,
    {
        if !same(a[i].as_str(), b[i].as_str()) {
            proof {
                assert(texts(a@)[i as int] != texts(b@)[i as int]);
            }
            return false;
        }
        i = i + 1;
    }
    proof {
        assert(texts(a@) =~= texts(b@));
    }
    true
}

impl Policy {
    /// The identity that acts, where the rule asks for one.
    pub fn resolve_source(&self, jwt: &JwtData) -> (r: Option<Source>)
        ensures
            (match r {
                Some(s) => Some(source_name(s)),
                None => None,
            }) == source_of(*self, *jwt),
            r matches Some(Source::User(_)) <==> self.source == SourceResolver::User,
            r matches Some(Source::Domain(_)) <==> self.source == SourceResolver::Domain,
            r matches Some(Source::Role(_)) <==> self.source == SourceResolver::Role,
    {
        match self.source {
            SourceResolver::Nothing => None,
            SourceResolver::Domain => Some(Source::Domain(jwt.domain.clone())),
            SourceResolver::User => Some(Source::User(jwt.username.clone())),
            SourceResolver::Role => Some(Source::Role(self.role_id.clone())),
        }
    }

    /// The identity that is acted upon, given the name of the target's header
    /// in lower case.
    pub fn resolve_target_at(&self, a: &Access, header_name: &str) -> (r: Option<String>)
        ensures
            opt_text(r) == target_of(*self, *a, header_name@),
    {
        match &self.target {
            TargetResolver::Nothing => None,
            TargetResolver::FromPath { pname } => capture_path(
                &self.resource,
                &a.path,
                pname.as_str(),
            ),
            TargetResolver::FromQuery { qname } => form_get(&a.query, qname.as_str()),
            TargetResolver::FromHeader { hname: _ } => form_get(&a.header, header_name),
        }
    }

    /// The name of the target's header in lower case; empty where the target
    /// is taken from elsewhere.
    fn header_name(&self) -> (r: String)
        ensures
            r@ == target_header(*self),
    {
        match &self.target {
            TargetResolver::FromHeader { hname } => to_lower(hname.as_str()),
            _ => String::new(),
        }
    }

    /// The identity that is acted upon.
    pub fn resolve_target(&self, a: &Access) -> (r: Option<String>)
        ensures
            opt_text(r) == target_of(*self, *a, target_header(*self)),
    {
        let name = self.header_name();
        self.resolve_target_at(a, name.as_str())
    }

    /// The outcome of this rule for a request, given the name of the target's
    /// header in lower case.
    pub fn can_access_at(&self, jwt: &JwtData, a: &Access, header_name: &str) -> (r: Option<
        CanAccess,
    >)
        requires
            jwt.wf(),
        ensures
            r == outcome(*self, *jwt, *a, header_name@),
    {
        if !same(a.domain.as_str(), jwt.domain.as_str()) || !same(
            a.domain.as_str(),
            self.domain_id.as_str(),
        ) {
            return None;
        }
        if let Some(action) = self.action {
            if action != a.act {
                return None;
            }
        }
        let target_is_nothing = match &self.target {
            TargetResolver::Nothing => true,
            _ => false,
        };
        let matched = if self.source == SourceResolver::Nothing && target_is_nothing {
            same_texts(&a.path, &self.resource)
        } else if !path_fits(&self.resource, &a.path) {
            false
        } else {
            let source = match self.resolve_source(jwt) {
                Some(Source::User(n)) => Some(n),
                Some(Source::Domain(n)) => Some(n),
                Some(Source::Role(n)) => Some(n),
                None => None,
            };
            let target = self.resolve_target_at(a, header_name);
            match (source, target) {
                (None, None) => true,
                (Some(s), Some(t)) => same(s.as_str(), t.as_str()),
                _ => false,
            }
        };
        if !matched {
            return None;
        }
        if !self.mfa {
            return Some(CanAccess { can_access: self.allowed, expect_mfa: false });
        }
        let shown = has_text(&jwt.mfa, "totp") && jwt.mfa.len() > 1;
        Some(CanAccess { can_access: shown && self.allowed, expect_mfa: !shown })
    }

    /// The outcome of this rule for a request; none where the rule does not
    /// apply.
    pub fn can_access(&self, jwt: &JwtData, a: &Access) -> (r: Option<CanAccess>)
        requires
            jwt.wf(),
        ensures
            r == outcome(*self, *jwt, *a, target_header(*self)),
    {
        let name = self.header_name();
        self.can_access_at(jwt, a, name.as_str())
    }
}

/// A rule for another domain never applies, and a denying rule never allows.
pub proof fn law_rules_stay_in_their_domain(p: Policy, jwt: JwtData, a: Access, h: Seq<char>)
    ensures
        a.domain@ != p.domain_id@ ==> outcome(p, jwt, a, h) is None,
        a.domain@ != jwt.domain@ ==> outcome(p, jwt, a, h) is None,
        !p.allowed ==> (outcome(p, jwt, a, h) matches Some(c) ==> !c.can_access),
{
}

/// A rule never reaches beyond its resource: a path that does not fit the
/// template is not its concern, whatever its source and target are.
pub proof fn law_rules_stay_on_their_resource(p: Policy, jwt: JwtData, a: Access, h: Seq<char>)
    ensures
        !fits(texts(p.resource@), texts(a.path@)) ==> outcome(p, jwt, a, h) is None,
{
}

/// A rule that asks for a second factor allows nothing without one; it then
/// says so, and says so only then.
pub proof fn law_mfa_is_asked_for(p: Policy, jwt: JwtData, a: Access, h: Seq<char>)
    ensures
        outcome(p, jwt, a, h) matches Some(c) ==> {
            &&& c.expect_mfa <==> p.mfa && !has_mfa(jwt)
            &&& c.expect_mfa ==> !c.can_access
        },
{
}

/// `dashmap::DashMap`.
#[verifier::external_type_specification]
#[verifier::external_body]
#[verifier::reject_recursive_types(K)]
#[verifier::reject_recursive_types(V)]
#[verifier::reject_recursive_types(S)]
pub struct ExDashMap<K, V, S>(DashMap<K, V, S>);

/// The rules of a tenant by domain and role.
pub type PolicyCache = DashMap<String, DashMap<String, Vec<Policy>>>;

/// The rules that a cache holds for each domain and role.
pub uninterp spec fn cached(cache: PolicyCache) -> Map<(Seq<char>, Seq<char>), Seq<Policy>>;

/// No rules at all.
pub open spec fn no_rules() -> Map<(Seq<char>, Seq<char>), Seq<Policy>> {
    Map::empty()
}

/// `DashMap::new`: an empty cache.
#[verifier::external_body]
fn empty_cache() -> (r: PolicyCache)
    ensures
        cached(r) == no_rules(),
{
    DashMap::new()
}

/// `DashMap::remove` on the map of a domain, found by `DashMap::get`: the rules
/// of a role leave the cache and are handed out; where there are none, nothing
/// changes.
#[verifier::external_body]
fn take_rules(cache: &mut PolicyCache, domain: &str, role: &str) -> (r: Option<Vec<Policy>>)
    ensures
        r is Some <==> cached(*old(cache)).contains_key((domain@, role@)),
        r matches Some(v) ==> v@ == cached(*old(cache))[(domain@, role@)],
        cached(*final(cache)) == cached(*old(cache)).remove((domain@, role@)),
{
    cache.get(domain).and_then(|roles| roles.remove(role)).map(|entry| entry.1)
}

/// `DashMap::insert` on the map of a domain, which `DashMap::entry` makes where
/// it is missing: the rules become those of the role.
#[verifier::external_body]
fn put_rules(cache: &mut PolicyCache, domain: &str, role: &str, rules: Vec<Policy>)
    ensures
        cached(*final(cache)) == cached(*old(cache)).insert((domain@, role@), rules@),
{
    cache.entry(domain.to_string()).or_insert_with(DashMap::new).insert(role.to_string(), rules);
}

/// The rules of a domain and role in a map of rules; none where there is no
/// entry.
pub open spec fn rules_at(
    m: Map<(Seq<char>, Seq<char>), Seq<Policy>>,
    domain: Seq<char>,
    role: Seq<char>,
) -> Seq<Policy> {
    if m.contains_key((domain, role)) {
        m[(domain, role)]
    } else {
        Seq::empty()
    }
}

/// A map of rules with one rule more, behind those of its domain and role.
pub open spec fn with_rule(m: Map<(Seq<char>, Seq<char>), Seq<Policy>>, p: Policy) -> Map<
    (Seq<char>, Seq<char>),
    Seq<Policy>,
> {
    m.insert(
        (p.domain_id@, p.role_id@),
        rules_at(m, p.domain_id@, p.role_id@).push(p),
    )
}

/// Puts a rule into the cache.
pub fn cache_policy(cache: &mut PolicyCache, p: Policy)
    ensures
        cached(*final(cache)) == with_rule(cached(*old(cache)), p),
{
    let ghost before = cached(*cache);
    let domain = p.domain_id.clone();
    let role = p.role_id.clone();
    let mut rules = match take_rules(cache, domain.as_str(), role.as_str()) {
        Some(v) => v,
        None => Vec::new(),
    };
    proof {
        assert(rules@ =~= rules_at(before, domain@, role@));
    }
    rules.push(p);
    put_rules(cache, domain.as_str(), role.as_str(), rules);
    proof {
        assert(cached(*cache) =~= with_rule(before, p));
    }
}

/// The rules of a list, by domain and role, each in the order of the list.
pub open spec fn grouped(ps: Seq<Policy>) -> Map<(Seq<char>, Seq<char>), Seq<Policy>>
    decreases ps.len(),
{
    if ps.len() == 0 {
        Map::empty()
    } else {
        with_rule(grouped(ps.drop_last()), ps.last())
    }
}

/// The cache of all rules of a tenant.
pub fn all_policy_entries(policies: Vec<Policy>) -> (r: PolicyCache)
    ensures
        cached(r) == grouped(policies@),
{
    let ghost all = policies@;
    let mut cache = empty_cache();
    let mut rest = policies;
    let mut reversed: Vec<Policy> = Vec::new();
    while rest.len() > 0
        invariant
            rest@.len() + reversed@.len() == all.len(),
            rest@ == all.take(rest@.len() as int),
            forall|i: int|
                0 <= i < reversed@.len() ==> (#[trigger] reversed@[i]) == all[all.len() - 1 - i],
        decreases rest@.len(),
    {
        let ghost n = rest@.len() as int;
        match rest.pop() {
            Some(p) => {
                reversed.push(p);
                proof {
                    assert(rest@ =~= all.take(n - 1));
                }
            },
            None => {},
        }
    }
    let ghost mut done: int = 0;
    proof {
        assert(all.take(0) =~= Seq::<Policy>::empty());
    }
    while reversed.len() > 0
        invariant
            0 <= done <= all.len(),
            done + reversed@.len() == all.len(),
            forall|i: int|
                0 <= i < reversed@.len() ==> (#[trigger] reversed@[i]) == all[all.len() - 1 - i],
            cached(cache) == grouped(all.take(done)),
        decreases reversed@.len(),
    {
        proof {
            assert(all.take(done + 1).drop_last() =~= all.take(done));
        }
        match reversed.pop() {
            Some(p) => {
                proof {
                    assert(p == all[done]);
                    assert(all.take(done + 1).last() == p);
                }
                cache_policy(&mut cache, p);
                proof {
                    done = done + 1;
                }
            },
            None => {},
        }
    }
    proof {
        assert(all.take(all.len() as int) =~= all);
    }
    cache
}

/// Whether a rule is the one about a method and a path template.
pub open spec fn is_about(p: Policy, action: Option<HttpMethod>, resource: Seq<Seq<char>>) -> bool {
    p.action == action && texts(p.resource@) == resource
}

/// The rules that are not about a method and a path template, in order.
pub open spec fn others(ps: Seq<Policy>, action: Option<HttpMethod>, resource: Seq<Seq<char>>) -> Seq<
    Policy,
>
    decreases ps.len(),
{
    if ps.len() == 0 {
        Seq::empty()
    } else if is_about(ps.last(), action, resource) {
        others(ps.drop_last(), action, resource)
    } else {
        others(ps.drop_last(), action, resource).push(ps.last())
    }
}

/// A map of rules without those of a domain and role about a method and a path
/// template; a role left without rules has no entry.
pub open spec fn without_rule(
    m: Map<(Seq<char>, Seq<char>), Seq<Policy>>,
    domain: Seq<char>,
    role: Seq<char>,
    action: Option<HttpMethod>,
    resource: Seq<Seq<char>>,
) -> Map<(Seq<char>, Seq<char>), Seq<Policy>> {
    let left = others(rules_at(m, domain, role), action, resource);
    if left.len() > 0 {
        m.insert((domain, role), left)
    } else {
        m.remove((domain, role))
    }
}

fn keep_others(rules: Vec<Policy>, action: Option<HttpMethod>, resource: &[String]) -> (r: Vec<
    Policy,
>)
    ensures
        r@ == others(rules@, action, texts(resource@)),
{
    let ghost all = rules@;
    let mut rest = rules;
    let mut kept: Vec<Policy> = Vec::new();
    proof {
        assert(others(all, action, texts(resource@)) =~= others(
            all,
            action,
            texts(resource@),
        ) + Seq::<Policy>::empty());
    }
    let ghost mut tail: Seq<Policy> = Seq::empty();
    while rest.len() > 0
        invariant
            others(all, action, texts(resource@)) == others(rest@, action, texts(resource@))
                + tail,
            tail == kept@.reverse(),
        decreases rest@.len(),
    {
        let ghost before = rest@;
        let ghost kept_before = kept@;
        match rest.pop() {
            Some(p) => {
                proof {
                    assert(rest@ =~= before.drop_last());
                    assert(p == before.last());
                }
                let about = match (p.action, action) {
                    (Some(x), Some(y)) => x == y,
                    (None, None) => true,
                    _ => false,
                } && same_texts(&p.resource, resource);
                if !about {
                    kept.push(p);
                    proof {
                        let front = others(rest@, action, texts(resource@));
                        assert(front.push(p) + tail =~= front + (seq![p] + tail));
                        assert(kept@.reverse() =~= seq![p] + kept_before.reverse());
                        tail = seq![p] + tail;
                    }
                }
            },
            None => {},
        }
    }
    let mut out: Vec<Policy> = Vec::new();
    proof {
        assert(others(rest@, action, texts(resource@)) + tail =~= tail);
        assert(kept@.reverse() =~= out@ + kept@.reverse());
    }
    while kept.len() > 0
        invariant
            tail == out@ + kept@.reverse(),
        decreases kept@.len(),
    {
        let ghost before = kept@;
        let ghost out_before = out@;
        match kept.pop() {
            Some(p) => {
                out.push(p);
                proof {
                    assert(kept@ =~= before.drop_last());
                    assert(before.reverse() =~= seq![p] + kept@.reverse());
                    assert(out_before + (seq![p] + kept@.reverse()) =~= out@ + kept@.reverse());
                }
            },
            None => {},
        }
    }
    proof {
        assert(out@ + kept@.reverse() =~= out@);
    }
    out
}

/// Takes the rules of a domain and role about a method and a path out of the
/// cache.
pub fn uncache_policy(
    cache: &mut PolicyCache,
    domain: &str,
    role: &str,
    action: Option<HttpMethod>,
    resource: &str,
)
    ensures
        cached(*final(cache)) == without_rule(
            cached(*old(cache)),
            domain@,
            role@,
            action,
            pieces(resource@, Cut::At('/')),
        ),
{
    let ghost before = cached(*cache);
    let segments = split(resource, Cut::At('/'));
    if let Some(rules) = take_rules(cache, domain, role) {
        let left = keep_others(rules, action, &segments);
        if left.len() > 0 {
            put_rules(cache, domain, role, left);
        }
        proof {
            assert(cached(*cache) =~= without_rule(
                before,
                domain@,
                role@,
                action,
                pieces(resource@, Cut::At('/')),
            ));
        }
    } else {
        proof {
            assert(cached(*cache) =~= before.remove((domain@, role@)));
        }
    }
}

/// A rule to be added, as it is written.
pub struct PolicyEntry {
    pub id: Option<String>,
    /// The path template with slashes.
    pub resource: String,
    pub domain: String,
    pub role: String,
    pub action: Option<HttpMethod>,
    pub source: SourceResolver,
    pub target: TargetResolver,
    pub mfa: bool,
    pub allowed: bool,
}

fn copy_target(t: &TargetResolver) -> (r: TargetResolver)
    ensures
        r == *t,
{
    match t {
        TargetResolver::Nothing => TargetResolver::Nothing,
        TargetResolver::FromPath { pname } => TargetResolver::FromPath { pname: pname.clone() },
        TargetResolver::FromQuery { qname } => TargetResolver::FromQuery { qname: qname.clone() },
        TargetResolver::FromHeader { hname } => TargetResolver::FromHeader {
            hname: hname.clone(),
        },
    }
}

impl Policy {
    /// The rule that an entry adds to a role. Its domain is the one that serves
    /// the request, whatever the entry says.
    pub open spec fn adds(&self, entry: PolicyEntry, id: Seq<char>, domain: Seq<char>) -> bool {
        &&& self.id@ == id
        &&& self.domain_id@ == domain
        &&& self.action == entry.action
        &&& texts(self.resource@) == pieces(entry.resource@, Cut::At('/'))
        &&& self.role_id@ == entry.role@
        &&& self.source == entry.source
        &&& self.target == entry.target
        &&& self.mfa == entry.mfa
        &&& self.allowed == entry.allowed
    }
}

/// The rule to store for an entry. A session may add rules only to a role that
/// it stands strictly above; the set-up may add them to any.
pub fn policy_create(
    caller: &Caller,
    table: &Vec<Role>,
    role: &Role,
    entry: &PolicyEntry,
    id: &str,
    domain: &str,
) -> (r: Result<Policy, AdminError>)
    ensures
        r is Ok <==> *caller is Bootstrap || outranks(caller_level(*caller, table@), role.level),
        r matches Ok(p) ==> p.adds(*entry, id@, domain@),
        r matches Err(e) ==> e@ is Forbidden,
{
    match require_below(caller, table, role) {
        Ok(_) => Ok(policy_row(entry, id, domain)),
        Err(e) => Err(e),
    }
}

/// Whether a caller may take rules from a role: the same that may add them.
pub fn policy_delete(caller: &Caller, table: &Vec<Role>, role: &Role) -> (r: Result<(), AdminError>)
    ensures
        r is Ok <==> *caller is Bootstrap || outranks(caller_level(*caller, table@), role.level),
        r matches Err(e) ==> e@ is Forbidden,
{
    require_below(caller, table, role)
}

/// Whether a stored rule is one that a deletion is about.
pub fn is_deleted(p: &Policy, action: Option<HttpMethod>, resource: &str) -> (r: bool)
    ensures
        r == is_about(*p, action, pieces(resource@, Cut::At('/'))),
{
    let segments = split(resource, Cut::At('/'));
    let same_action = match (p.action, action) {
        (Some(x), Some(y)) => x == y,
        (None, None) => true,
        _ => false,
    };
    same_action && same_texts(&p.resource, &segments)
}

fn policy_row(entry: &PolicyEntry, id: &str, domain: &str) -> (r: Policy)
    ensures
        r.adds(*entry, id@, domain@),
{
    Policy {
        id: id.to_owned(),
        domain_id: domain.to_owned(),
        action: entry.action,
        resource: split(entry.resource.as_str(), Cut::At('/')),
        role_id: entry.role.clone(),
        source: entry.source,
        target: copy_target(&entry.target),
        mfa: entry.mfa,
        allowed: entry.allowed,
    }
}

impl PolicyEntry {
    /// The entry under which a stored rule is listed.
    pub open spec fn lists(&self, p: Policy) -> bool {
        &&& opt_text(self.id) == Some(p.id@)
        &&& self.resource@ == joined(texts(p.resource@), "/"@)
        &&& self.domain@ == p.domain_id@
        &&& self.role@ == p.role_id@
        &&& self.action == p.action
        &&& self.source == p.source
        &&& self.target == p.target
        &&& self.mfa == p.mfa
        &&& self.allowed == p.allowed
    }
}

/// A stored rule as it is listed.
pub fn policy_entry(p: &Policy) -> (r: PolicyEntry)
    ensures
        r.lists(*p),
{
    PolicyEntry {
        id: Some(p.id.clone()),
        resource: join(&p.resource, "/"),
        domain: p.domain_id.clone(),
        role: p.role_id.clone(),
        action: p.action,
        source: p.source,
        target: copy_target(&p.target),
        mfa: p.mfa,
        allowed: p.allowed,
    }
}

proof fn lemma_pieces_nonempty(s: Seq<char>, cut: Cut)
    ensures
        pieces(s, cut).len() >= 1,
    decreases s.len(),
{
    if s.len() > 0 {
        lemma_pieces_nonempty(s.drop_last(), cut);
    }
}

/// A path template is listed as it was written.
pub proof fn law_resource_reads_back(resource: Seq<char>)
    ensures
        joined(pieces(resource, Cut::At('/')), "/"@) == resource,
    decreases resource.len(),
{
    reveal_strlit("/");
    let cut = Cut::At('/');
    if resource.len() == 0 {
        assert(joined(pieces(resource, cut), "/"@) =~= resource);
    } else {
        let front = resource.drop_last();
        let before = pieces(front, cut);
        law_resource_reads_back(front);
        lemma_pieces_nonempty(front, cut);
        if cut.hits(resource.last()) {
            let after = before.push(Seq::<char>::empty());
            assert(after.drop_last() =~= before);
            assert(joined(after, "/"@) == joined(before, "/"@) + "/"@ + Seq::<char>::empty());
            assert("/"@ =~= seq!['/']);
            assert(joined(after, "/"@) =~= resource);
        } else {
            let grown = before.last().push(resource.last());
            let after = before.drop_last().push(grown);
            assert(after.drop_last() =~= before.drop_last());
            assert(front.push(resource.last()) =~= resource);
            if before.len() == 1 {
                assert(before[0] == before.last());
                assert(joined(before, "/"@) == before[0]);
                assert(after.len() == 1 && after[0] == grown);
                assert(joined(after, "/"@) =~= resource);
            } else {
                assert(joined(before, "/"@) == joined(before.drop_last(), "/"@) + "/"@
                    + before.last());
                assert(joined(after, "/"@) == joined(before.drop_last(), "/"@) + "/"@ + grown);
                assert(joined(after, "/"@) =~= resource);
            }
        }
    }
}

proof fn lemma_others_unchanged(
    ps: Seq<Policy>,
    action: Option<HttpMethod>,
    resource: Seq<Seq<char>>,
)
    requires
        forall|i: int| 0 <= i < ps.len() ==> !is_about(#[trigger] ps[i], action, resource),
    ensures
        others(ps, action, resource) == ps,
    decreases ps.len(),
{
    if ps.len() > 0 {
        let front = ps.drop_last();
        assert forall|i: int| 0 <= i < front.len() implies !is_about(
            #[trigger] front[i],
            action,
            resource,
        ) by {
            assert(front[i] == ps[i]);
        }
        lemma_others_unchanged(front, action, resource);
        assert(ps[ps.len() - 1] == ps.last());
        assert(front.push(ps.last()) =~= ps);
    } else {
        assert(ps =~= Seq::<Policy>::empty());
    }
}

/// Taking a rule out undoes putting it in, where no other rule of its domain
/// and role is about the same method and path, and no role has an entry
/// without rules.
pub proof fn law_delete_undoes_create(
    m: Map<(Seq<char>, Seq<char>), Seq<Policy>>,
    p: Policy,
)
    requires
        forall|i: int|
            0 <= i < rules_at(m, p.domain_id@, p.role_id@).len() ==> !is_about(
                #[trigger] rules_at(m, p.domain_id@, p.role_id@)[i],
                p.action,
                texts(p.resource@),
            ),
        m.contains_key((p.domain_id@, p.role_id@)) ==> m[(p.domain_id@, p.role_id@)].len() > 0,
    ensures
        without_rule(
            with_rule(m, p),
            p.domain_id@,
            p.role_id@,
            p.action,
            texts(p.resource@),
        ) == m,
{
    let key = (p.domain_id@, p.role_id@);
    let old_rules = rules_at(m, p.domain_id@, p.role_id@);
    let new_rules = rules_at(with_rule(m, p), p.domain_id@, p.role_id@);
    assert(new_rules =~= old_rules.push(p));
    assert(new_rules.drop_last() =~= old_rules);
    lemma_others_unchanged(old_rules, p.action, texts(p.resource@));
    let back = without_rule(
        with_rule(m, p),
        p.domain_id@,
        p.role_id@,
        p.action,
        texts(p.resource@),
    );
    assert(back =~= m);
}

/// Once taken out, no rule of the domain and role is about the method and path
/// any more, and the rules of every other domain and role are untouched.
pub proof fn law_deleted_rules_are_gone(
    m: Map<(Seq<char>, Seq<char>), Seq<Policy>>,
    domain: Seq<char>,
    role: Seq<char>,
    action: Option<HttpMethod>,
    resource: Seq<Seq<char>>,
    other: (Seq<char>, Seq<char>),
    i: int,
)
    ensures
        0 <= i < rules_at(without_rule(m, domain, role, action, resource), domain, role).len()
            ==> !is_about(
            rules_at(without_rule(m, domain, role, action, resource), domain, role)[i],
            action,
            resource,
        ),
        other != (domain, role) ==> rules_at(
            without_rule(m, domain, role, action, resource),
            other.0,
            other.1,
        ) == rules_at(m, other.0, other.1),
{
    lemma_others_are_others(rules_at(m, domain, role), action, resource);
}

proof fn lemma_others_are_others(
    ps: Seq<Policy>,
    action: Option<HttpMethod>,
    resource: Seq<Seq<char>>,
)
    ensures
        forall|i: int|
            0 <= i < others(ps, action, resource).len() ==> !is_about(
                #[trigger] others(ps, action, resource)[i],
                action,
                resource,
            ),
    decreases ps.len(),
{
    if ps.len() > 0 {
        let front = others(ps.drop_last(), action, resource);
        lemma_others_are_others(ps.drop_last(), action, resource);
        assert forall|i: int| 0 <= i < others(ps, action, resource).len() implies !is_about(
            #[trigger] others(ps, action, resource)[i],
            action,
            resource,
        ) by {
            if i < front.len() {
                assert(others(ps, action, resource)[i] == front[i]);
            }
        }
    }
}

/// The cache of a list of rules holds each of them under its domain and role,
/// and nothing else.
pub proof fn law_cache_holds_the_rules(ps: Seq<Policy>, p: Policy)
    ensures
        ps.contains(p) <==> rules_at(grouped(ps), p.domain_id@, p.role_id@).contains(p),
    decreases ps.len(),
{
    if ps.len() > 0 {
        let front = ps.drop_last();
        let last = ps.last();
        law_cache_holds_the_rules(front, p);
        let before = rules_at(grouped(front), p.domain_id@, p.role_id@);
        let after = rules_at(grouped(ps), p.domain_id@, p.role_id@);
        assert(ps[ps.len() - 1] == last);
        if ps.contains(p) {
            let k = choose|k: int| 0 <= k < ps.len() && ps[k] == p;
            if k < front.len() {
                assert(front[k] == p);
            }
        }
        if front.contains(p) {
            let k = choose|k: int| 0 <= k < front.len() && front[k] == p;
            assert(ps[k] == p);
        }
        if (last.domain_id@, last.role_id@) == (p.domain_id@, p.role_id@) {
            assert(after =~= before.push(last));
            if before.contains(p) {
                let k = choose|k: int| 0 <= k < before.len() && before[k] == p;
                assert(after[k] == p);
            }
            if after.contains(p) {
                let k = choose|k: int| 0 <= k < after.len() && after[k] == p;
                if k < before.len() {
                    assert(before[k] == p);
                } else {
                    assert(p == last);
                }
            }
            assert(after[before.len() as int] == last);
        } else {
            assert(after =~= before);
        }
    }
}

} // verus!
