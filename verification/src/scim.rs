//! Provisioning of users (SCIM 2.0).

use crate::identity::JwtData;
use crate::ops::{segments, strip_query};
use crate::outside::{
    format_second, lowercase, parse_uuid, rfc3339_of, to_lower, uuid_of,
};
use crate::role::{
    admin_error_text, caller_level, may_administer, require_above_user, user_level, AdminError,
    AdminErrorView, Caller, Role,
};
use crate::text::{
    cat, cat3, chars_of, copy_opt, copy_texts, has_text, opt_str, opt_text, same, split_nonempty,
    starts_with, string_of, strip_prefix, texts, trim, trimmed, trimmed_start, Cut,
};
use vstd::prelude::*;

verus! {

/// How many users a listing holds at most.
pub const MAX_RESULTS: usize = 200;

/// An error of the provisioning interface: the HTTP status, the error type
/// where there is one, the detail.
pub struct ScimFault {
    pub status: u16,
    pub scim_type: Option<String>,
    pub detail: String,
}

pub struct ScimFaultView {
    pub status: u16,
    pub scim_type: Option<Seq<char>>,
    pub detail: Seq<char>,
}

impl View for ScimFault {
    type V = ScimFaultView;

    open spec fn view(&self) -> ScimFaultView {
        ScimFaultView {
            status: self.status,
            scim_type: opt_text(self.scim_type),
            detail: self.detail@,
        }
    }
}

pub open spec fn fault_of(status: u16, scim_type: Option<Seq<char>>, detail: Seq<char>) -> ScimFaultView {
    ScimFaultView { status, scim_type, detail }
}

pub fn scim_error(status: u16, scim_type: Option<&str>, detail: &str) -> (r: ScimFault)
    ensures
        r@ == fault_of(status, opt_str(scim_type), detail@),
{
    let scim_type = match scim_type {
        Some(t) => Some(t.to_owned()),
        None => None,
    };
    ScimFault { status, scim_type, detail: detail.to_owned() }
}

/// Whether a text occurs in another one.
pub open spec fn occurs(s: Seq<char>, needle: Seq<char>) -> bool {
    exists|i: int| 0 <= i <= s.len() && starts_with(#[trigger] s.skip(i), needle)
}

fn contains_text(s: &str, needle: &str) -> (r: bool)
    ensures
        r == occurs(s@, needle@),
{
    let cs = chars_of(s);
    let mut i: usize = 0;
    while i <= cs.len()
        invariant
            i <= cs@.len() + 1,
            cs@ == s@,
            forall|j: int| 0 <= j < i ==> !starts_with(#[trigger] s@.skip(j), needle@),
        decreases cs@.len() + 1 - i,
    {
        let rest = string_of(&cs, i, cs.len());
        proof {
            assert(rest@ =~= s@.skip(i as int));
        }
        if strip_prefix(rest.as_str(), needle).is_some() {
            proof {
                assert(starts_with(s@.skip(i as int), needle@));
            }
            return true;
        }
        if i == cs.len() {
            return false;
        }
        i = i + 1;
    }
    false
}

/// What a failure of the store is told as.
pub enum StoreError {
    Admin(AdminError),
    Other(String),
}

/// The answer to a failure of the store: refusals by level are 403,
/// names that are taken 409, what is not there 404, anything else 400.
pub open spec fn tenant_fault(e: StoreError) -> ScimFaultView {
    match e {
        StoreError::Admin(AdminError::Forbidden) => fault_of(
            403,
            None,
            admin_error_text(AdminErrorView::Forbidden),
        ),
        StoreError::Admin(AdminError::Conflict(m)) => fault_of(409, Some("uniqueness"@), m@),
        StoreError::Other(m) => if occurs(m@, "already exists"@) || occurs(m@, "UNIQUE"@) {
            fault_of(409, Some("uniqueness"@), m@)
        } else if occurs(m@, "not found"@) {
            fault_of(404, None, m@)
        } else {
            fault_of(400, None, m@)
        },
    }
}

pub fn render_tenant_error(e: &StoreError) -> (r: ScimFault)
    ensures
        r@ == tenant_fault(*e),
{
    match e {
        StoreError::Admin(a) => match a {
            AdminError::Forbidden => scim_error(
                403,
                None,
                "role level is not below the caller's effective level",
            ),
            AdminError::Conflict(m) => scim_error(409, Some("uniqueness"), m.as_str()),
        },
        StoreError::Other(m) => {
            let text = m.as_str();
            if contains_text(text, "already exists") || contains_text(text, "UNIQUE") {
                scim_error(409, Some("uniqueness"), text)
            } else if contains_text(text, "not found") {
                scim_error(404, None, text)
            } else {
                scim_error(400, None, text)
            }
        },
    }
}

/// The path under which the policies of a provisioning request are looked up:
/// every user's own path is one.
pub open spec fn policy_path(path: Seq<char>) -> Seq<char> {
    let segs = segments(path);
    if segs.len() == 4 && segs[0] == "scim"@ && segs[1] == "v2"@ && segs[2] == "Users"@ {
        "/scim/v2/Users/{id}"@
    } else {
        crate::ops::path_only(path)
    }
}

pub fn canonical_resource(path: &str) -> (r: String)
    ensures
        r@ == policy_path(path@),
{
    let plain = strip_query(path);
    let segs = split_nonempty(plain.as_str(), Cut::At('/'));
    proof {
        let ss = segments(path@);
        assert(texts(segs@) == ss);
        assert forall|i: int| 0 <= i < segs@.len() implies ss[i] == (#[trigger] segs@[i])@ by {}
    }
    if segs.len() == 4 && same(segs[0].as_str(), "scim") && same(segs[1].as_str(), "v2") && same(
        segs[2].as_str(),
        "Users",
    ) {
        "/scim/v2/Users/{id}".to_owned()
    } else {
        plain
    }
}

/// One policy covers every user: all users' paths are looked up alike.
pub proof fn law_users_share_a_policy_path(a: Seq<char>, b: Seq<char>)
    requires
        segments(a).len() == 4 && segments(b).len() == 4,
        forall|i: int| 0 <= i < 3 ==> segments(a)[i] == #[trigger] segments(b)[i],
        segments(a)[0] == "scim"@,
        segments(a)[1] == "v2"@,
        segments(a)[2] == "Users"@,
    ensures
        policy_path(a) == policy_path(b),
{
    assert(segments(a)[0] == segments(b)[0]);
    assert(segments(a)[1] == segments(b)[1]);
    assert(segments(a)[2] == segments(b)[2]);
}

/// The name between the quotes of a value.
pub open spec fn quoted(value: Seq<char>) -> Option<Seq<char>> {
    if value.len() >= 2 && value[0] == '"' && value.last() == '"' {
        Some(value.subrange(1, value.len() - 1))
    } else {
        None
    }
}

/// What a filter asks for, by its text in lower case: everything, one name, or
/// something that is not supported.
pub open spec fn filter_of(filter: Seq<char>, lower: Seq<char>) -> Result<
    Option<Seq<char>>,
    (),
> {
    if trimmed(filter).len() == 0 {
        Ok(None)
    } else if !starts_with(lower, "username"@) {
        Err(())
    } else {
        let rest = trimmed_start(lower.skip(8));
        if !starts_with(rest, "eq"@) {
            Err(())
        } else {
            match quoted(trimmed(rest.skip(2))) {
                Some(name) => Ok(Some(name)),
                None => Err(()),
            }
        }
    }
}

/// What a filter asks for.
pub open spec fn user_filter(filter: Seq<char>) -> Result<Option<Seq<char>>, ()> {
    filter_of(filter, lowercase(trimmed(filter)))
}

/// The view of a filter.
pub open spec fn filter_view(r: Result<Option<String>, ()>) -> Result<Option<Seq<char>>, ()> {
    match r {
        Ok(o) => Ok(opt_text(o)),
        Err(_) => Err(()),
    }
}

fn skip_blanks(s: &str) -> (r: String)
    ensures
        r@ == trimmed_start(s@),
{
    let cs = chars_of(s);
    let mut i: usize = 0;
    proof {
        assert(cs@.skip(0) =~= cs@);
    }
    while i < cs.len() && crate::text::space_char(cs[i])
        invariant
            i <= cs@.len(),
            trimmed_start(cs@) == trimmed_start(cs@.skip(i as int)),
        decreases cs@.len() - i,
    {
        proof {
            assert(cs@.skip(i as int).skip(1) =~= cs@.skip(i + 1));
        }
        i = i + 1;
    }
    proof {
        assert(cs@.subrange(i as int, cs@.len() as int) =~= cs@.skip(i as int));
    }
    string_of(&cs, i, cs.len())
}

/// Reads a filter, given its text in lower case without the blanks around it.
pub fn read_filter(filter: &str, lower: &str) -> (r: Result<Option<String>, ()>)
    ensures
        filter_view(r) == filter_of(filter@, lower@),
{
    proof {
        reveal_strlit("username");
        reveal_strlit("eq");
    }
    if trim(filter).as_str().is_empty() {
        return Ok(None);
    }
    let rest = match strip_prefix(lower, "username") {
        Some(r) => skip_blanks(r.as_str()),
        None => {
            return Err(());
        },
    };
    let value = match strip_prefix(rest.as_str(), "eq") {
        Some(v) => trim(v.as_str()),
        None => {
            return Err(());
        },
    };
    let cs = chars_of(value.as_str());
    if cs.len() >= 2 && cs[0] == '"' && cs[cs.len() - 1] == '"' {
        Ok(Some(string_of(&cs, 1, cs.len() - 1)))
    } else {
        Err(())
    }
}

/// Reads the one filter that is supported, `userName eq "..."`.
pub fn parse_user_name_filter(filter: &str) -> (r: Result<Option<String>, ()>)
    ensures
        filter_view(r) == user_filter(filter@),
{
    let lower = to_lower(trim(filter).as_str());
    read_filter(filter, lower.as_str())
}

/// A page of a listing: where it starts, counted from one, and the positions
/// of its users in the whole list.
#[derive(Clone, Copy, Debug, PartialEq, Eq, Structural)]
pub struct Page {
    pub start_index: usize,
    pub from: usize,
    pub to: usize,
}

/// The smaller of two numbers.
pub open spec fn smaller(a: int, b: int) -> int {
    if a < b {
        a
    } else {
        b
    }
}

impl Page {
    /// The page of a listing of `total` users from `start_index` on, with at
    /// most `count` users and never more than a listing holds.
    pub open spec fn cuts(
        &self,
        total: int,
        start_index: Option<usize>,
        count: Option<usize>,
    ) -> bool {
        &&& self.start_index == (match start_index {
            Some(s) => if s < 1 {
                1
            } else {
                s
            },
            None => 1,
        })
        &&& self.from == smaller(self.start_index - 1, total)
        &&& self.to == smaller(
            self.from + smaller(
                match count {
                    Some(c) => c as int,
                    None => MAX_RESULTS as int,
                },
                MAX_RESULTS as int,
            ),
            total,
        )
    }
}

/// The page that a listing of `total` users is cut to.
pub fn page_of(total: usize, start_index: Option<usize>, count: Option<usize>) -> (r: Page)
    ensures
        r.cuts(total as int, start_index, count),
{
    let start: usize = match start_index {
        Some(s) => if s < 1 {
            1
        } else {
            s
        },
        None => 1,
    };
    let wanted: usize = match count {
        Some(c) => if c < MAX_RESULTS {
            c
        } else {
            MAX_RESULTS
        },
        None => MAX_RESULTS,
    };
    let from: usize = if start - 1 < total {
        start - 1
    } else {
        total
    };
    let to: usize = if total - from < wanted {
        total
    } else {
        from + wanted
    };
    Page { start_index: start, from, to }
}

/// An email address of a provisioned user.
pub struct ScimEmailValue {
    pub value: String,
    pub primary: Option<bool>,
}

/// A provisioned user.
pub struct ScimUser {
    pub id: String,
    pub user_name: String,
    pub active: bool,
    pub external_id: Option<String>,
    pub emails: Vec<ScimEmailValue>,
    pub created: String,
    pub last_modified: String,
    pub location: String,
}

/// A user as the store holds it.
pub struct UserRow {
    pub id: String,
    pub name: String,
    pub active: bool,
    pub external_id: Option<String>,
    /// In seconds.
    pub created_at: i64,
    /// In seconds.
    pub updated_at: i64,
}

/// The second is one that a timestamp can hold.
pub open spec fn is_second(s: i64) -> bool {
    -377705023201 <= s <= 253402207200
}

impl ScimUser {
    pub open spec fn shows(&self, u: UserRow, emails: Seq<Seq<char>>) -> bool {
        &&& self.id@ == u.id@
        &&& self.user_name@ == u.name@
        &&& self.active == u.active
        &&& opt_text(self.external_id) == opt_text(u.external_id)
        &&& self.emails@.len() == emails.len()
        &&& forall|i: int|
            0 <= i < emails.len() ==> (#[trigger] self.emails@[i]).value@ == emails[i]
                && self.emails@[i].primary == (if i == 0 {
                Some(true)
            } else {
                None
            })
        &&& self.created@ == rfc3339_of(u.created_at)
        &&& self.last_modified@ == rfc3339_of(u.updated_at)
        &&& self.location@ == "/scim/v2/Users/"@ + u.id@
    }
}

/// A stored user as it is shown; the first email address is the primary one.
pub fn to_scim_user(u: &UserRow, emails: &[String]) -> (r: ScimUser)
    requires
        is_second(u.created_at),
        is_second(u.updated_at),
    ensures
        r.shows(*u, texts(emails@)),
{
    let mut list: Vec<ScimEmailValue> = Vec::new();
    let mut i: usize = 0;
    while i < emails.len()
        invariant
            i <= emails@.len(),
            list@.len() == i,
            forall|j: int|
                0 <= j < i ==> (#[trigger] list@[j]).value@ == texts(emails@)[j]
                    && list@[j].primary == (if j == 0 {
                    Some(true)
                } else {
                    None
                }),
        decreases emails@.len() - i,
    {
        let primary = if i == 0 {
            Some(true)
        } else {
            None
        };
        list.push(ScimEmailValue { value: emails[i].clone(), primary });
        i = i + 1;
    }
    ScimUser {
        id: u.id.clone(),
        user_name: u.name.clone(),
        active: u.active,
        external_id: copy_opt(&u.external_id),
        emails: list,
        created: format_second(u.created_at),
        last_modified: format_second(u.updated_at),
        location: cat("/scim/v2/Users/", u.id.as_str()),
    }
}

/// How a user is looked up.
pub enum UserLookup {
    ById(String),
    ByName(String),
}

/// How the user that a path names is looked up: by identifier where the
/// segment is one, and by name.
pub fn resolve_path_user(id: &str) -> (r: (Option<UserLookup>, UserLookup))
    ensures
        (match r.0 {
            Some(UserLookup::ById(u)) => uuid_of(id@) == Some(u@),
            Some(UserLookup::ByName(_)) => false,
            None => uuid_of(id@) is None,
        }),
        r.1 matches UserLookup::ByName(n) && n@ == id@,
{
    let by_id = match parse_uuid(id) {
        Some(u) => Some(UserLookup::ById(u)),
        None => None,
    };
    (by_id, UserLookup::ByName(id.to_owned()))
}

/// The attributes of a provisioning request.
pub struct ScimUserRequest {
    pub user_name: Option<String>,
    pub active: Option<bool>,
    pub external_id: Option<String>,
    /// The email addresses.
    pub emails: Vec<String>,
}

/// What applying attributes to a user does, in this order.
pub struct AttrPlan {
    /// Rename the user.
    pub rename: Option<String>,
    /// Set the external identifier, or take it away.
    pub external_id: Option<Option<String>>,
    /// Activate or deactivate the user.
    pub set_active: Option<bool>,
    /// Attach these email addresses, as far as they are free.
    pub attach: Vec<String>,
}

pub struct AttrPlanView {
    pub rename: Option<Seq<char>>,
    pub external_id: Option<Option<Seq<char>>>,
    pub set_active: Option<bool>,
    pub attach: Seq<Seq<char>>,
}

impl View for AttrPlan {
    type V = AttrPlanView;

    open spec fn view(&self) -> AttrPlanView {
        AttrPlanView {
            rename: opt_text(self.rename),
            external_id: match self.external_id {
                Some(o) => Some(opt_text(o)),
                None => None,
            },
            set_active: self.set_active,
            attach: texts(self.attach@),
        }
    }
}

/// The external identifier that a request gives: an empty one takes the stored
/// one away.
pub open spec fn given_external(e: Seq<char>) -> Option<Seq<char>> {
    if e.len() == 0 {
        None
    } else {
        Some(e)
    }
}

/// What applying attributes to a user does: only what differs is changed, and
/// empty names and addresses are passed over.
pub open spec fn attr_plan(u: UserRow, body: ScimUserRequest) -> AttrPlanView {
    AttrPlanView {
        rename: match body.user_name {
            Some(n) => if n@.len() > 0 && n@ != u.name@ {
                Some(n@)
            } else {
                None
            },
            None => None,
        },
        external_id: match body.external_id {
            Some(e) => if given_external(e@) != opt_text(u.external_id) {
                Some(given_external(e@))
            } else {
                None
            },
            None => None,
        },
        set_active: match body.active {
            Some(a) => if a != u.active {
                Some(a)
            } else {
                None
            },
            None => None,
        },
        attach: crate::text::nonempty(texts(body.emails@)),
    }
}

fn nonempty_texts(v: &[String]) -> (r: Vec<String>)
    ensures
        texts(r@) == crate::text::nonempty(texts(v@)),
{
    let ghost all = texts(v@);
    let mut out: Vec<String> = Vec::new();
    let mut i: usize = 0;
    proof {
        assert(texts(out@) =~= crate::text::nonempty(all.take(0)));
    }
    while i < v.len()
        invariant
            i <= v@.len(),
            all == texts(v@),
            texts(out@) == crate::text::nonempty(all.take(i as int)),
        decreases v@.len() - i,
    {
        let ghost before = texts(out@);
        proof {
            assert(all.take(i + 1).drop_last() =~= all.take(i as int));
            assert(all.take(i + 1).last() == v@[i as int]@);
        }
        if !v[i].as_str().is_empty() {
            out.push(v[i].clone());
            proof {
                assert(texts(out@) =~= before.push(v@[i as int]@));
            }
        }
        i = i + 1;
    }
    proof {
        assert(all.take(all.len() as int) =~= all);
    }
    out
}

/// Decides what applying attributes to a user does.
pub fn apply_attrs(u: &UserRow, body: &ScimUserRequest) -> (r: AttrPlan)
    ensures
        r@ == attr_plan(*u, *body),
{
    let rename = match &body.user_name {
        Some(n) => if !n.as_str().is_empty() && !same(n.as_str(), u.name.as_str()) {
            Some(n.clone())
        } else {
            None
        },
        None => None,
    };
    let external_id = match &body.external_id {
        Some(e) => {
            let unchanged = match &u.external_id {
                Some(stored) => !e.as_str().is_empty() && same(e.as_str(), stored.as_str()),
                None => e.as_str().is_empty(),
            };
            if unchanged {
                None
            } else if e.as_str().is_empty() {
                Some(None)
            } else {
                Some(Some(e.clone()))
            }
        },
        None => None,
    };
    let set_active = match body.active {
        Some(a) => if a != u.active {
            Some(a)
        } else {
            None
        },
        None => None,
    };
    AttrPlan { rename, external_id, set_active, attach: nonempty_texts(&body.emails) }
}

/// What applying a plan leaves of a user's name, external identifier and
/// state.
pub open spec fn applied(u: UserRow, body: ScimUserRequest) -> (
    Seq<char>,
    Option<Seq<char>>,
    bool,
) {
    let plan = attr_plan(u, body);
    (
        match plan.rename {
            Some(n) => n,
            None => u.name@,
        },
        match plan.external_id {
            Some(e) => e,
            None => opt_text(u.external_id),
        },
        match plan.set_active {
            Some(a) => a,
            None => u.active,
        },
    )
}

/// After a plan is carried out, the user is as the request says, wherever it
/// says something.
pub proof fn law_attributes_take_effect(u: UserRow, body: ScimUserRequest)
    ensures
        body.user_name matches Some(n) ==> n@.len() > 0 ==> applied(u, body).0 == n@,
        body.external_id matches Some(e) ==> applied(u, body).1 == given_external(e@),
        body.active matches Some(a) ==> applied(u, body).2 == a,
        body.user_name is None ==> applied(u, body).0 == u.name@,
        body.external_id is None ==> applied(u, body).1 == opt_text(u.external_id),
        body.active is None ==> applied(u, body).2 == u.active,
{
}

/// The addresses of `current` that are not among `keep`, in order.
pub open spec fn dropped(current: Seq<Seq<char>>, keep: Seq<Seq<char>>) -> Seq<Seq<char>>
    decreases current.len(),
{
    if current.len() == 0 {
        Seq::empty()
    } else if keep.contains(current.last()) {
        dropped(current.drop_last(), keep)
    } else {
        dropped(current.drop_last(), keep).push(current.last())
    }
}

/// The stored addresses that a replacing request takes away.
pub fn emails_to_delete(current: &[String], keep: &[String]) -> (r: Vec<String>)
    ensures
        texts(r@) == dropped(texts(current@), texts(keep@)),
{
    let ghost all = texts(current@);
    let mut out: Vec<String> = Vec::new();
    let mut i: usize = 0;
    proof {
        assert(texts(out@) =~= dropped(all.take(0), texts(keep@)));
    }
    while i < current.len()
        invariant
            i <= current@.len(),
            all == texts(current@),
            texts(out@) == dropped(all.take(i as int), texts(keep@)),
        decreases current@.len() - i,
    {
        let ghost before = texts(out@);
        proof {
            assert(all.take(i + 1).drop_last() =~= all.take(i as int));
            assert(all.take(i + 1).last() == current@[i as int]@);
        }
        if !has_text(keep, current[i].as_str()) {
            out.push(current[i].clone());
            proof {
                assert(texts(out@) =~= before.push(current@[i as int]@));
            }
        }
        i = i + 1;
    }
    proof {
        assert(all.take(all.len() as int) =~= all);
    }
    out
}

/// A replacing request takes away exactly the stored addresses that it lacks.
pub proof fn law_replacing_drops_what_is_missing(
    current: Seq<Seq<char>>,
    keep: Seq<Seq<char>>,
    address: Seq<char>,
)
    ensures
        dropped(current, keep).contains(address) <==> current.contains(address) && !keep.contains(
            address,
        ),
    decreases current.len(),
{
    if current.len() > 0 {
        let front = current.drop_last();
        law_replacing_drops_what_is_missing(front, keep, address);
        assert(current[current.len() - 1] == current.last());
        if current.contains(address) {
            let k = choose|k: int| 0 <= k < current.len() && current[k] == address;
            if k < front.len() {
                assert(front[k] == address);
            }
        }
        if front.contains(address) {
            let k = choose|k: int| 0 <= k < front.len() && front[k] == address;
            assert(current[k] == address);
        }
        let before = dropped(front, keep);
        let after = dropped(current, keep);
        if before.contains(address) {
            let k = choose|k: int| 0 <= k < before.len() && before[k] == address;
            assert(after[k] == address);
        }
        if after.contains(address) {
            let k = choose|k: int| 0 <= k < after.len() && after[k] == address;
            if k < before.len() {
                assert(before[k] == address);
            }
        }
        if !keep.contains(current.last()) {
            assert(after[before.len() as int] == current.last());
        }
    }
}

/// The name of the user that a request creates, or why it creates none.
pub open spec fn new_user(
    has_session: bool,
    body: Option<ScimUserRequest>,
    has_tenant: bool,
) -> Result<Seq<char>, ScimFaultView> {
    if !has_session {
        Err(fault_of(401, None, "no verified session"@))
    } else {
        match body {
            None => Err(fault_of(400, Some("invalidValue"@), "malformed body"@)),
            Some(b) => if b.user_name is None || b.user_name->0@.len() == 0 {
                Err(fault_of(400, Some("invalidValue"@), "userName is required"@))
            } else if !has_tenant {
                Err(fault_of(404, None, "unknown tenant"@))
            } else {
                Ok(b.user_name->0@)
            },
        }
    }
}

/// Why a provisioning request is refused before the store is asked: there is
/// no session, the body cannot be read, or, for a new user, it names nobody.
pub fn create_user(has_session: bool, body: &Option<ScimUserRequest>, has_tenant: bool) -> (r:
    Result<String, ScimFault>)
    ensures
        (match r {
            Ok(n) => Ok(n@),
            Err(e) => Err(e@),
        }) == new_user(has_session, *body, has_tenant),
{
    if !has_session {
        return Err(scim_error(401, None, "no verified session"));
    }
    let b = match body {
        Some(b) => b,
        None => {
            return Err(scim_error(400, Some("invalidValue"), "malformed body"));
        },
    };
    let name = match &b.user_name {
        Some(n) => if n.as_str().is_empty() {
            return Err(scim_error(400, Some("invalidValue"), "userName is required"));
        } else {
            n.clone()
        },
        None => {
            return Err(scim_error(400, Some("invalidValue"), "userName is required"));
        },
    };
    if !has_tenant {
        return Err(scim_error(404, None, "unknown tenant"));
    }
    Ok(name)
}

/// Why a request about one user is refused: there is no session, the body
/// cannot be read, the tenant is unknown, or there is no such user.
pub open spec fn user_request_fault(
    has_session: bool,
    has_body: bool,
    has_tenant: bool,
    has_user: bool,
) -> Option<ScimFaultView> {
    if !has_session {
        Some(fault_of(401, None, "no verified session"@))
    } else if !has_body {
        Some(fault_of(400, Some("invalidValue"@), "malformed body"@))
    } else if !has_tenant {
        Some(fault_of(404, None, "unknown tenant"@))
    } else if !has_user {
        Some(fault_of(404, None, "Resource not found"@))
    } else {
        None
    }
}

/// Checks a request about one user. A request without a body, such as a
/// deletion, counts as having one.
pub fn check_user_request(has_session: bool, has_body: bool, has_tenant: bool, has_user: bool) -> (r:
    Result<(), ScimFault>)
    ensures
        r is Ok <==> user_request_fault(has_session, has_body, has_tenant, has_user) is None,
        r matches Err(e) ==> user_request_fault(has_session, has_body, has_tenant, has_user) == Some(
            e@,
        ),
{
    if !has_session {
        return Err(scim_error(401, None, "no verified session"));
    }
    if !has_body {
        return Err(scim_error(400, Some("invalidValue"), "malformed body"));
    }
    if !has_tenant {
        return Err(scim_error(404, None, "unknown tenant"));
    }
    if !has_user {
        return Err(scim_error(404, None, "Resource not found"));
    }
    Ok(())
}

/// Which users a listing is about: all, or those of one name.
pub open spec fn listed(has_tenant: bool, filter: Result<Option<Seq<char>>, ()>) -> Result<
    Option<Seq<char>>,
    ScimFaultView,
> {
    if !has_tenant {
        Err(fault_of(404, None, "unknown tenant"@))
    } else {
        match filter {
            Ok(name) => Ok(name),
            Err(_) => Err(
                fault_of(
                    400,
                    Some("invalidFilter"@),
                    "only `userName eq \"value\"` is supported"@,
                ),
            ),
        }
    }
}

/// Decides which users a listing is about.
pub fn list_users(has_tenant: bool, filter: &str) -> (r: Result<Option<String>, ScimFault>)
    ensures
        (match r {
            Ok(name) => Ok(opt_text(name)),
            Err(e) => Err(e@),
        }) == listed(has_tenant, user_filter(filter@)),
{
    if !has_tenant {
        return Err(scim_error(404, None, "unknown tenant"));
    }
    match parse_user_name_filter(filter) {
        Ok(name) => Ok(name),
        Err(_) => Err(invalid_filter()),
    }
}

/// Checks a request to show one user.
pub fn get_user(has_tenant: bool, has_user: bool) -> (r: Result<(), ScimFault>)
    ensures
        r is Ok <==> has_tenant && has_user,
        r matches Err(e) ==> user_request_fault(true, true, has_tenant, has_user) == Some(e@),
{
    check_user_request(true, true, has_tenant, has_user)
}

/// Checks a request to delete one user.
pub fn delete_user(has_session: bool, has_tenant: bool, has_user: bool) -> (r: Result<
    (),
    ScimFault,
>)
    ensures
        r is Ok <==> has_session && has_tenant && has_user,
        r matches Err(e) ==> user_request_fault(has_session, true, has_tenant, has_user) == Some(
            e@,
        ),
{
    check_user_request(has_session, true, has_tenant, has_user)
}

/// What replacing a user does: the stored addresses that go, then the
/// attributes.
pub struct ReplacePlan {
    pub delete_emails: Vec<String>,
    pub attrs: AttrPlan,
}

impl ReplacePlan {
    /// The plan that makes a user with these addresses what the request says.
    pub open spec fn replaces(
        &self,
        u: UserRow,
        current: Seq<Seq<char>>,
        body: ScimUserRequest,
    ) -> bool {
        &&& texts(self.delete_emails@) == dropped(current, texts(body.emails@))
        &&& self.attrs@ == attr_plan(u, body)
    }
}

/// The answer to a change of somebody whom the caller does not stand above.
pub open spec fn above_fault() -> ScimFaultView {
    fault_of(403, None, admin_error_text(AdminErrorView::Forbidden))
}

/// The condition for changing a user: the caller must stand strictly above the
/// user, so a provisioning token administers no administrator.
fn check_above(caller: &Caller, table: &Vec<Role>, target_roles: &Option<Vec<Role>>) -> (r: Result<
    (),
    ScimFault,
>)
    ensures
        r is Ok <==> may_administer(*caller, table@, user_level(*target_roles)),
        r matches Err(e) ==> e@ == above_fault(),
{
    match require_above_user(caller, table, target_roles) {
        Ok(_) => Ok(()),
        Err(e) => Err(render_tenant_error(&StoreError::Admin(e))),
    }
}

/// Decides what replacing the attributes of a user does. Nothing is changed of
/// a user whom the caller does not stand above.
pub fn put_user(
    caller: &Caller,
    table: &Vec<Role>,
    target_roles: &Option<Vec<Role>>,
    u: &UserRow,
    current_emails: &[String],
    body: &ScimUserRequest,
) -> (r: Result<ReplacePlan, ScimFault>)
    ensures
        r is Ok <==> may_administer(*caller, table@, user_level(*target_roles)),
        r matches Ok(p) ==> p.replaces(*u, texts(current_emails@), *body),
        r matches Err(e) ==> e@ == above_fault() && e.status == 403,
{
    if let Err(e) = check_above(caller, table, target_roles) {
        return Err(e);
    }
    Ok(
        ReplacePlan {
            delete_emails: emails_to_delete(current_emails, &body.emails),
            attrs: apply_attrs(u, body),
        },
    )
}

/// A JSON value as far as a patch can use it.
pub enum PatchValue {
    Bool(bool),
    Text(String),
    /// An array of email addresses.
    Emails(Vec<String>),
    /// Anything else.
    Other,
}

/// What a patch operation carries.
pub enum PatchContent {
    Nothing,
    Value(PatchValue),
    /// An object, by its members.
    Object(Vec<(String, PatchValue)>),
}

/// An operation of a patch.
pub struct PatchOperation {
    pub op: String,
    pub path: Option<String>,
    pub content: PatchContent,
}

/// The attributes that an operation sets, by their names in lower case, or why
/// it sets none. `op` is the operation's name in lower case.
pub open spec fn operation_fault(op: Seq<char>, o: PatchOperation) -> Option<ScimFaultView> {
    if op != "replace"@ && op != "add"@ {
        Some(fault_of(400, Some("invalidValue"@), "unsupported op '"@ + o.op@ + "'"@))
    } else if o.content is Nothing || (o.path is None && !(o.content is Object)) {
        Some(fault_of(400, Some("noTarget"@), "operation needs a path or a value object"@))
    } else {
        None
    }
}

/// Checks an operation of a patch.
pub fn check_operation(op: &str, o: &PatchOperation) -> (r: Result<(), ScimFault>)
    ensures
        r is Ok <==> operation_fault(op@, *o) is None,
        r matches Err(e) ==> operation_fault(op@, *o) == Some(e@),
{
    if !same(op, "replace") && !same(op, "add") {
        let d = cat3("unsupported op '", o.op.as_str(), "'");
        return Err(scim_error(400, Some("invalidValue"), d.as_str()));
    }
    let usable = match (&o.path, &o.content) {
        (_, PatchContent::Nothing) => false,
        (None, PatchContent::Object(_)) => true,
        (None, PatchContent::Value(_)) => false,
        (Some(_), _) => true,
    };
    if usable {
        Ok(())
    } else {
        Err(scim_error(400, Some("noTarget"), "operation needs a path or a value object"))
    }
}

/// What setting one attribute does to the gathered request, or why it cannot
/// be set.
pub struct Gathered {
    pub user_name: Option<String>,
    pub active: Option<bool>,
    pub external_id: Option<String>,
    pub emails: Vec<String>,
    /// The lists of addresses that replaced the stored ones, one after the
    /// other: every stored address that one of them lacks is taken away.
    pub replaced: Vec<Vec<String>>,
}

pub struct GatheredView {
    pub user_name: Option<Seq<char>>,
    pub active: Option<bool>,
    pub external_id: Option<Seq<char>>,
    pub emails: Seq<Seq<char>>,
    pub replaced: Seq<Seq<Seq<char>>>,
}

/// The views of a list of lists of strings.
pub open spec fn lists(v: Seq<Vec<String>>) -> Seq<Seq<Seq<char>>> {
    v.map_values(|l: Vec<String>| texts(l@))
}

impl View for Gathered {
    type V = GatheredView;

    open spec fn view(&self) -> GatheredView {
        GatheredView {
            user_name: opt_text(self.user_name),
            active: self.active,
            external_id: opt_text(self.external_id),
            emails: texts(self.emails@),
            replaced: lists(self.replaced@),
        }
    }
}

/// Nothing gathered yet.
pub open spec fn nothing_gathered() -> GatheredView {
    GatheredView {
        user_name: None,
        active: None,
        external_id: None,
        emails: Seq::empty(),
        replaced: Seq::empty(),
    }
}

pub open spec fn invalid_value<T>(detail: Seq<char>) -> Result<T, ScimFaultView> {
    Err(fault_of(400, Some("invalidValue"@), detail))
}

/// What setting the attribute `attr`, in lower case, gathers, or why it cannot
/// be set.
pub open spec fn set_attr(g: GatheredView, attr: Seq<char>, value: PatchValue) -> Result<
    GatheredView,
    ScimFaultView,
> {
    if attr == "active"@ {
        match value {
            PatchValue::Bool(b) => Ok(GatheredView { active: Some(b), ..g }),
            _ => invalid_value("active must be a boolean"@),
        }
    } else if attr == "username"@ {
        match value {
            PatchValue::Text(s) => Ok(GatheredView { user_name: Some(s@), ..g }),
            _ => invalid_value("userName must be a string"@),
        }
    } else if attr == "externalid"@ {
        match value {
            PatchValue::Text(s) => Ok(GatheredView { external_id: Some(s@), ..g }),
            _ => invalid_value("externalId must be a string"@),
        }
    } else if attr == "emails"@ {
        match value {
            PatchValue::Emails(v) => Ok(
                GatheredView {
                    emails: texts(v@),
                    replaced: g.replaced.push(texts(v@)),
                    ..g
                },
            ),
            _ => invalid_value("emails must be an array of {value}"@),
        }
    } else {
        Err(fault_of(400, Some("invalidPath"@), "unsupported attribute '"@ + attr + "'"@))
    }
}

fn invalid(detail: &str) -> (r: Result<(), ScimFault>)
    ensures
        r matches Err(e) && e@ == fault_of(400, Some("invalidValue"@), detail@),
{
    Err(scim_error(400, Some("invalidValue"), detail))
}

/// Sets an attribute of the gathered request. On an error nothing is changed.
pub fn gather(g: &mut Gathered, attr: &str, value: &PatchValue) -> (r: Result<(), ScimFault>)
    ensures
        r is Ok <==> set_attr(old(g)@, attr@, *value) is Ok,
        r is Ok ==> set_attr(old(g)@, attr@, *value) == Ok::<GatheredView, ScimFaultView>(
            final(g)@,
        ),
        r matches Err(e) ==> set_attr(old(g)@, attr@, *value) == Err::<GatheredView, ScimFaultView>(
            e@,
        ) && final(g)@ == old(g)@,
{
    if same(attr, "active") {
        match value {
            PatchValue::Bool(b) => {
                g.active = Some(*b);
                Ok(())
            },
            _ => invalid("active must be a boolean"),
        }
    } else if same(attr, "username") {
        match value {
            PatchValue::Text(s) => {
                g.user_name = Some(s.clone());
                Ok(())
            },
            _ => invalid("userName must be a string"),
        }
    } else if same(attr, "externalid") {
        match value {
            PatchValue::Text(s) => {
                g.external_id = Some(s.clone());
                Ok(())
            },
            _ => invalid("externalId must be a string"),
        }
    } else if same(attr, "emails") {
        match value {
            PatchValue::Emails(v) => {
                g.emails = copy_texts(v);
                let ghost before = g.replaced@;
                let kept = copy_texts(v);
                g.replaced.push(kept);
                proof {
                    assert(lists(g.replaced@) =~= lists(before).push(texts(v@)));
                }
                Ok(())
            },
            _ => invalid("emails must be an array of {value}"),
        }
    } else {
        let d = cat3("unsupported attribute '", attr, "'");
        Err(scim_error(400, Some("invalidPath"), d.as_str()))
    }
}

/// What the members of an object gather, in order, up to the first that cannot
/// be set; and why it cannot. The names are folded to lower case.
pub open spec fn set_all(members: Seq<(String, PatchValue)>) -> (
    GatheredView,
    Option<ScimFaultView>,
)
    decreases members.len(),
{
    if members.len() == 0 {
        (nothing_gathered(), None)
    } else {
        let (g, fault) = set_all(members.drop_last());
        if fault is Some {
            (g, fault)
        } else {
            match set_attr(g, lowercase(members.last().0@), members.last().1) {
                Ok(next) => (next, None),
                Err(e) => (g, Some(e)),
            }
        }
    }
}

proof fn lemma_set_all_stops(members: Seq<(String, PatchValue)>, n: int)
    requires
        0 <= n <= members.len(),
        set_all(members.take(n)).1 is Some,
    ensures
        set_all(members) == set_all(members.take(n)),
    decreases members.len() - n,
{
    if n == members.len() {
        assert(members.take(n) =~= members);
    } else {
        assert(members.take(n + 1).drop_last() =~= members.take(n));
        lemma_set_all_stops(members, n + 1);
    }
}

fn no_attributes() -> (r: Gathered)
    ensures
        r@ == nothing_gathered(),
{
    let g = Gathered {
        user_name: None,
        active: None,
        external_id: None,
        emails: Vec::new(),
        replaced: Vec::new(),
    };
    proof {
        assert(texts(g.emails@) =~= Seq::<Seq<char>>::empty());
        assert(lists(g.replaced@) =~= Seq::<Seq<Seq<char>>>::empty());
    }
    g
}

/// The view of an optional error.
pub open spec fn opt_fault(o: Option<ScimFault>) -> Option<ScimFaultView> {
    match o {
        Some(f) => Some(f@),
        None => None,
    }
}

fn gather_members(members: &Vec<(String, PatchValue)>) -> (r: (Gathered, Option<ScimFault>))
    ensures
        (r.0@, opt_fault(r.1)) == set_all(members@),
{
    let mut g = no_attributes();
    let mut i: usize = 0;
    while i < members.len()
        invariant
            i <= members@.len(),
            set_all(members@.take(i as int)) == (g@, None::<ScimFaultView>),
        decreases members@.len() - i,
    {
        proof {
            assert(members@.take(i + 1).drop_last() =~= members@.take(i as int));
            assert(members@.take(i + 1).last() == members@[i as int]);
        }
        let attr = to_lower(members[i].0.as_str());
        if let Err(e) = gather(&mut g, attr.as_str(), &members[i].1) {
            proof {
                lemma_set_all_stops(members@, i + 1);
            }
            return (g, Some(e));
        }
        i = i + 1;
    }
    proof {
        assert(members@.take(members@.len() as int) =~= members@);
    }
    (g, None)
}

/// What an operation of a patch gathers. What was gathered before an error is
/// still there: replaced addresses have been replaced by then.
pub open spec fn operation_effect(o: PatchOperation) -> (GatheredView, Option<ScimFaultView>) {
    match operation_fault(lowercase(o.op@), o) {
        Some(e) => (nothing_gathered(), Some(e)),
        None => match (o.path, o.content) {
            (None, PatchContent::Object(members)) => set_all(members@),
            (Some(path), PatchContent::Value(v)) => set_one(lowercase(path@), v),
            (Some(path), PatchContent::Object(_)) => set_one(lowercase(path@), PatchValue::Other),
            _ => (nothing_gathered(), None),
        },
    }
}

/// What setting a single attribute gathers.
pub open spec fn set_one(attr: Seq<char>, value: PatchValue) -> (
    GatheredView,
    Option<ScimFaultView>,
) {
    match set_attr(nothing_gathered(), attr, value) {
        Ok(g) => (g, None),
        Err(e) => (nothing_gathered(), Some(e)),
    }
}

/// What an operation of a patch gathers for a caller: nothing where the caller
/// does not stand above the user.
pub open spec fn patch_effect(
    caller: Caller,
    table: Seq<Role>,
    target: Option<i64>,
    o: PatchOperation,
) -> (GatheredView, Option<ScimFaultView>) {
    if operation_fault(lowercase(o.op@), o) is None && !may_administer(caller, table, target) {
        (nothing_gathered(), Some(above_fault()))
    } else {
        operation_effect(o)
    }
}

/// A session changes nobody who stands at its own level or above: a patch
/// gathers and replaces nothing, and a replacement is refused.
pub proof fn law_superiors_are_not_provisioned(
    data: JwtData,
    table: Seq<Role>,
    level: i64,
    o: PatchOperation,
)
    requires
        caller_level(Caller::Jwt(data), table) matches Some(l) ==> l <= level,
    ensures
        !may_administer(Caller::Jwt(data), table, Some(level)),
        patch_effect(Caller::Jwt(data), table, Some(level), o).0 == nothing_gathered(),
        patch_effect(Caller::Jwt(data), table, Some(level), o).1 is Some,
{
}

/// Gathers what an operation of a patch sets, and the error that stops it.
pub fn patch_user(
    caller: &Caller,
    table: &Vec<Role>,
    target_roles: &Option<Vec<Role>>,
    o: &PatchOperation,
) -> (r: (Gathered, Option<ScimFault>))
    ensures
        (r.0@, opt_fault(r.1)) == patch_effect(*caller, table@, user_level(*target_roles), *o),
{
    let op = to_lower(o.op.as_str());
    if let Err(e) = check_operation(op.as_str(), o) {
        return (no_attributes(), Some(e));
    }
    if let Err(e) = check_above(caller, table, target_roles) {
        return (no_attributes(), Some(e));
    }
    match (&o.path, &o.content) {
        (None, PatchContent::Object(members)) => gather_members(members),
        (Some(path), PatchContent::Value(v)) => {
            let mut g = no_attributes();
            let attr = to_lower(path.as_str());
            match gather(&mut g, attr.as_str(), v) {
                Ok(_) => (g, None),
                Err(e) => (g, Some(e)),
            }
        },
        (Some(path), PatchContent::Object(_)) => {
            let mut g = no_attributes();
            let attr = to_lower(path.as_str());
            match gather(&mut g, attr.as_str(), &PatchValue::Other) {
                Ok(_) => (g, None),
                Err(e) => (g, Some(e)),
            }
        },
        _ => (no_attributes(), None),
    }
}

/// Whether the schemas of a body say that it is a patch.
pub open spec fn is_patch(schemas: Seq<Seq<char>>) -> bool {
    schemas.contains("urn:ietf:params:scim:api:messages:2.0:PatchOp"@)
}

/// Why a patch is refused as a whole: its schemas must say that it is one.
pub fn check_patch(schemas: &[String]) -> (r: Result<(), ScimFault>)
    ensures
        r is Ok <==> is_patch(texts(schemas@)),
        r matches Err(e) ==> e@ == fault_of(
            400,
            Some("invalidSyntax"@),
            "expected a PatchOp payload"@,
        ),
{
    if has_text(schemas, "urn:ietf:params:scim:api:messages:2.0:PatchOp") {
        Ok(())
    } else {
        Err(scim_error(400, Some("invalidSyntax"), "expected a PatchOp payload"))
    }
}

/// The answer to a filter that is not supported.
pub fn invalid_filter() -> (r: ScimFault)
    ensures
        r@ == fault_of(
            400,
            Some("invalidFilter"@),
            "only `userName eq \"value\"` is supported"@,
        ),
{
    scim_error(400, Some("invalidFilter"), "only `userName eq \"value\"` is supported")
}

} // verus!
