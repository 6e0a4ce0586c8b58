//! Provisioning: a request gathers, plans and shows what it says.

use crate::laws::authorize::{lemma_lists, lists};
use crate::outside::{lowercase, rfc3339_of};
use crate::role::{may_administer, AdminError, Caller, Role};
use crate::scim::{
    above_fault, applied, attr_plan, filter_of, is_patch, listed, new_user, nothing_gathered,
    occurs, patch_effect, policy_path, set_all, set_attr, tenant_fault, user_filter, user_request_fault,
    GatheredView, Page, PatchContent, PatchOperation, PatchValue, ReplacePlan, ScimUser,
    ScimUserRequest, StoreError, UserRow,
};
use crate::text::{
    is_space, nonempty, opt_text, starts_with, texts, trimmed, trimmed_end, trimmed_start,
};
use vstd::prelude::*;

verus! {

/// The operation is one that sets attributes.
pub open spec fn sets(o: PatchOperation) -> bool {
    lowercase(o.op@) == "replace"@ || lowercase(o.op@) == "add"@
}

/// A value that can be given to the attribute `attr`, named in lower case.
pub open spec fn fits(attr: Seq<char>, value: PatchValue) -> bool {
    ||| attr == "active"@ && value is Bool
    ||| attr == "username"@ && value is Text
    ||| attr == "externalid"@ && value is Text
    ||| attr == "emails"@ && value is Emails
}

proof fn lemma_attr_names()
    ensures
        "active"@ != "username"@,
        "active"@ != "externalid"@,
        "active"@ != "emails"@,
        "username"@ != "externalid"@,
        "username"@ != "emails"@,
        "externalid"@ != "emails"@,
{
    reveal_strlit("active");
    reveal_strlit("username");
    reveal_strlit("externalid");
    reveal_strlit("emails");
    assert("active"@[0] != "emails"@[0]);
    assert("active"@.len() == 6 && "username"@.len() == 8 && "externalid"@.len() == 10
        && "emails"@.len() == 6);
}

/// Setting an attribute to a value that fits gathers that value for that
/// attribute and leaves every other attribute as it was; any other value and
/// any other name is refused.
pub proof fn law_setting_gathers_the_value(g: GatheredView, attr: Seq<char>, value: PatchValue)
    ensures
        set_attr(g, attr, value) is Ok <==> fits(attr, value),
        set_attr(g, attr, value) matches Ok(next) ==> {
            &&& next.active == (if attr == "active"@ {
                Some(value->Bool_0)
            } else {
                g.active
            })
            &&& next.user_name == (if attr == "username"@ {
                Some(value->Text_0@)
            } else {
                g.user_name
            })
            &&& next.external_id == (if attr == "externalid"@ {
                Some(value->Text_0@)
            } else {
                g.external_id
            })
            &&& next.emails == (if attr == "emails"@ {
                texts(value->Emails_0@)
            } else {
                g.emails
            })
            &&& next.replaced == (if attr == "emails"@ {
                g.replaced.push(texts(value->Emails_0@))
            } else {
                g.replaced
            })
        },
        set_attr(g, attr, value) matches Err(e) ==> e.status == 400 && (e.scim_type == Some(
            "invalidPath"@,
        ) <==> attr != "active"@ && attr != "username"@ && attr != "externalid"@ && attr
            != "emails"@),
{
    lemma_attr_names();
    reveal_strlit("invalidPath");
    reveal_strlit("invalidValue");
    assert("invalidPath"@.len() != "invalidValue"@.len());
}

/// A patch by a caller who stands above the user gathers the value that it
/// sets: `active` is the very boolean that was sent, the names the very texts,
/// the addresses the very list; and it gathers nothing else.
pub proof fn law_patches_gather_what_they_set(
    caller: Caller,
    table: Seq<Role>,
    target: Option<i64>,
    o: PatchOperation,
    path: String,
    value: PatchValue,
)
    requires
        sets(o),
        may_administer(caller, table, target),
        o.path == Some(path),
        o.content == PatchContent::Value(value),
        fits(lowercase(path@), value),
    ensures
        ({
            let (g, fault) = patch_effect(caller, table, target, o);
            let attr = lowercase(path@);
            &&& fault is None
            &&& attr == "active"@ ==> g.active == Some(value->Bool_0)
            &&& attr != "active"@ ==> g.active is None
            &&& attr == "username"@ ==> g.user_name == Some(value->Text_0@)
            &&& attr != "username"@ ==> g.user_name is None
            &&& attr == "externalid"@ ==> g.external_id == Some(value->Text_0@)
            &&& attr != "externalid"@ ==> g.external_id is None
            &&& attr == "emails"@ ==> g.emails == texts(value->Emails_0@) && g.replaced == seq![
                texts(value->Emails_0@),
            ]
            &&& attr != "emails"@ ==> g.emails.len() == 0 && g.replaced.len() == 0
        }),
{
    lemma_attr_names();
    law_setting_gathers_the_value(nothing_gathered(), lowercase(path@), value);
    assert(Seq::<Seq<Seq<char>>>::empty().push(texts(value->Emails_0@)) =~= seq![
        texts(value->Emails_0@),
    ]);
}

/// A user is activated and deactivated by a patch: whichever of the two was
/// sent is what the user then is.
pub proof fn law_patched_users_are_as_patched(
    caller: Caller,
    table: Seq<Role>,
    target: Option<i64>,
    o: PatchOperation,
    path: String,
    b: bool,
    u: UserRow,
    body: ScimUserRequest,
)
    requires
        sets(o),
        may_administer(caller, table, target),
        o.path == Some(path),
        lowercase(path@) == "active"@,
        o.content == PatchContent::Value(PatchValue::Bool(b)),
        body.active == patch_effect(caller, table, target, o).0.active,
        opt_text(body.user_name) == patch_effect(caller, table, target, o).0.user_name,
        opt_text(body.external_id) == patch_effect(caller, table, target, o).0.external_id,
    ensures
        patch_effect(caller, table, target, o).1 is None,
        patch_effect(caller, table, target, o).0.active == Some(b),
        applied(u, body).2 == b,
        applied(u, body).0 == u.name@,
        applied(u, body).1 == opt_text(u.external_id),
{
    law_patches_gather_what_they_set(caller, table, target, o, path, PatchValue::Bool(b));
    lemma_attr_names();
}

/// The attribute that a member of an object names.
pub open spec fn member_names(m: (String, PatchValue), attr: Seq<char>) -> bool {
    lowercase(m.0@) == attr
}

/// The members of an object are all gathered exactly when each fits; each
/// attribute then has the value of the last member that names it, and one
/// that no member names has none.
pub proof fn law_objects_gather_their_members(
    members: Seq<(String, PatchValue)>,
    attr: Seq<char>,
    i: int,
)
    ensures
        set_all(members).1 is None <==> forall|k: int|
            0 <= k < members.len() ==> fits(
                lowercase((#[trigger] members[k]).0@),
                members[k].1,
            ),
        set_all(members).1 is None && (forall|k: int|
            0 <= k < members.len() ==> !member_names(#[trigger] members[k], attr)) ==> {
            let g = set_all(members).0;
            &&& attr == "active"@ ==> g.active is None
            &&& attr == "username"@ ==> g.user_name is None
            &&& attr == "externalid"@ ==> g.external_id is None
            &&& attr == "emails"@ ==> g.emails.len() == 0 && g.replaced.len() == 0
        },
        set_all(members).1 is None && 0 <= i < members.len() && member_names(members[i], attr) && (
        forall|k: int|
            i < k < members.len() ==> !member_names(#[trigger] members[k], attr)) ==> {
            let g = set_all(members).0;
            &&& attr == "active"@ ==> g.active == Some(members[i].1->Bool_0)
            &&& attr == "username"@ ==> g.user_name == Some(members[i].1->Text_0@)
            &&& attr == "externalid"@ ==> g.external_id == Some(members[i].1->Text_0@)
            &&& attr == "emails"@ ==> g.emails == texts(members[i].1->Emails_0@)
                && g.replaced.len() > 0 && g.replaced.last() == texts(members[i].1->Emails_0@)
        },
    decreases members.len(),
{
    lemma_attr_names();
    if members.len() > 0 {
        let front = members.drop_last();
        let last = members.last();
        assert(last == members[members.len() - 1]);
        law_objects_gather_their_members(front, attr, i);
        law_setting_gathers_the_value(set_all(front).0, lowercase(last.0@), last.1);
        assert forall|k: int| 0 <= k < front.len() implies front[k] == #[trigger] members[k] by {}
        if forall|k: int|
            0 <= k < front.len() ==> fits(lowercase((#[trigger] front[k]).0@), front[k].1) {
            if fits(lowercase(last.0@), last.1) {
                assert forall|k: int| 0 <= k < members.len() implies fits(
                    lowercase((#[trigger] members[k]).0@),
                    members[k].1,
                ) by {
                    if k < front.len() {
                        assert(front[k] == members[k]);
                    }
                }
            }
        }
        if forall|k: int|
            0 <= k < members.len() ==> fits(lowercase((#[trigger] members[k]).0@), members[k].1) {
            assert forall|k: int| 0 <= k < front.len() implies fits(
                lowercase((#[trigger] front[k]).0@),
                front[k].1,
            ) by {
                assert(front[k] == members[k]);
            }
        }
        if forall|k: int| 0 <= k < members.len() ==> !member_names(#[trigger] members[k], attr) {
            assert forall|k: int| 0 <= k < front.len() implies !member_names(
                #[trigger] front[k],
                attr,
            ) by {
                assert(front[k] == members[k]);
            }
        }
        if 0 <= i && forall|k: int|
            i < k < members.len() ==> !member_names(#[trigger] members[k], attr) {
            assert forall|k: int| i < k < front.len() implies !member_names(
                #[trigger] front[k],
                attr,
            ) by {
                assert(front[k] == members[k]);
            }
        }
    }
}

/// An object without a path is gathered member by member; a path with anything
/// but a value that fits, and an operation that sets nothing, are refused.
pub proof fn law_operations_are_read_as_sent(
    caller: Caller,
    table: Seq<Role>,
    target: Option<i64>,
    o: PatchOperation,
)
    ensures
        sets(o) && may_administer(caller, table, target) && o.path is None ==> (o.content matches
            PatchContent::Object(members) ==> patch_effect(caller, table, target, o) == set_all(
            members@,
        )),
        patch_effect(caller, table, target, o).1 is None <==> {
            &&& sets(o)
            &&& may_administer(caller, table, target)
            &&& match o.content {
                PatchContent::Nothing => false,
                PatchContent::Value(v) => o.path is Some && fits(lowercase(o.path->0@), v),
                PatchContent::Object(members) => o.path is None && set_all(members@).1 is None,
            }
        },
        !sets(o) ==> (patch_effect(caller, table, target, o).1 matches Some(e) && e.status == 400
            && e.scim_type == Some("invalidValue"@) && e.detail == "unsupported op '"@ + o.op@
            + "'"@),
        sets(o) && (o.content is Nothing || o.path is None && o.content is Value) ==> (patch_effect(
            caller,
            table,
            target,
            o,
        ).1 matches Some(e) && e.status == 400 && e.scim_type == Some("noTarget"@)),
{
    lemma_attr_names();
    if let Some(p) = o.path {
        if let PatchContent::Value(v) = o.content {
            law_setting_gathers_the_value(nothing_gathered(), lowercase(p@), v);
        }
        law_setting_gathers_the_value(nothing_gathered(), lowercase(p@), PatchValue::Other);
    }
}

/// Applying a request makes the user what the request says and leaves what it
/// does not say: a name that is not empty, an external identifier (an empty
/// one takes it away), and whether the user is active. Nothing is written
/// that is so already, and every address that is not empty is attached.
pub proof fn law_requests_are_applied_as_said(u: UserRow, body: ScimUserRequest, address: Seq<char>)
    ensures
        applied(u, body).0 == (if body.user_name is Some && body.user_name->0@.len() > 0 {
            body.user_name->0@
        } else {
            u.name@
        }),
        applied(u, body).1 == (if body.external_id is None {
            opt_text(u.external_id)
        } else if body.external_id->0@.len() == 0 {
            None
        } else {
            Some(body.external_id->0@)
        }),
        applied(u, body).2 == (match body.active {
            Some(b) => b,
            None => u.active,
        }),
        attr_plan(u, body).rename is Some <==> applied(u, body).0 != u.name@,
        attr_plan(u, body).external_id is Some <==> applied(u, body).1 != opt_text(u.external_id),
        attr_plan(u, body).set_active is Some <==> applied(u, body).2 != u.active,
        attr_plan(u, body).rename matches Some(n) ==> n == applied(u, body).0,
        attr_plan(u, body).external_id matches Some(e) ==> e == applied(u, body).1,
        attr_plan(u, body).set_active matches Some(a) ==> a == applied(u, body).2,
        attr_plan(u, body).attach.contains(address) <==> lists(body.emails@, address)
            && address.len() > 0,
{
    lemma_lists(body.emails@, address);
    lemma_nonempty(texts(body.emails@), address);
}

pub(crate) proof fn lemma_nonempty(ps: Seq<Seq<char>>, p: Seq<char>)
    ensures
        nonempty(ps).contains(p) <==> ps.contains(p) && p.len() > 0,
    decreases ps.len(),
{
    if ps.len() > 0 {
        let front = ps.drop_last();
        lemma_nonempty(front, p);
        assert(ps.last() == ps[ps.len() - 1]);
        if ps.contains(p) {
            let k = choose|k: int| 0 <= k < ps.len() && ps[k] == p;
            if k < front.len() {
                assert(front[k] == p);
            }
        }
        if front.contains(p) {
            let k = choose|k: int| 0 <= k < front.len() && front[k] == p;
            assert(ps[k] == p);
        }
        let before = nonempty(front);
        let after = nonempty(ps);
        if before.contains(p) {
            let k = choose|k: int| 0 <= k < before.len() && before[k] == p;
            assert(after[k] == p);
        }
        if after.contains(p) {
            let k = choose|k: int| 0 <= k < after.len() && after[k] == p;
            if k < before.len() {
                assert(before[k] == p);
            }
        }
        if ps.last().len() > 0 {
            assert(after[before.len() as int] == ps.last());
        }
    }
}

/// A user is shown as the store holds the user: every attribute, every
/// address in order with the first as the primary one, and the user's own
/// location.
pub proof fn law_users_are_shown_as_stored(shown: ScimUser, u: UserRow, emails: Seq<Seq<char>>)
    requires
        shown.shows(u, emails),
    ensures
        shown.id@ == u.id@,
        shown.user_name@ == u.name@,
        shown.active == u.active,
        opt_text(shown.external_id) == opt_text(u.external_id),
        shown.created@ == rfc3339_of(u.created_at),
        shown.last_modified@ == rfc3339_of(u.updated_at),
        shown.location@ == "/scim/v2/Users/"@ + u.id@,
        shown.emails@.len() == emails.len(),
        forall|i: int|
            0 <= i < emails.len() ==> (#[trigger] shown.emails@[i]).value@ == emails[i] && (
            shown.emails@[i].primary == Some(true) <==> i == 0),
{
}

/// A request about one user goes on exactly when there is a session, a body
/// that reads, the tenant and the user; otherwise the first that is missing
/// is told.
pub proof fn law_user_requests_name_what_is_missing(
    has_session: bool,
    has_body: bool,
    has_tenant: bool,
    has_user: bool,
)
    ensures
        user_request_fault(has_session, has_body, has_tenant, has_user) is None <==> has_session
            && has_body && has_tenant && has_user,
        user_request_fault(has_session, has_body, has_tenant, has_user) matches Some(e)
            ==> e.status == (if !has_session {
            401int
        } else if !has_body {
            400
        } else {
            404
        }) && e.detail == (if !has_session {
            "no verified session"@
        } else if !has_body {
            "malformed body"@
        } else if !has_tenant {
            "unknown tenant"@
        } else {
            "Resource not found"@
        }),
{
}

/// A listing is about what its filter asks for, on a tenant that is known.
pub proof fn law_listings_follow_the_filter(
    has_tenant: bool,
    filter: Result<Option<Seq<char>>, ()>,
)
    ensures
        listed(has_tenant, filter) is Ok <==> has_tenant && filter is Ok,
        listed(has_tenant, filter) matches Ok(name) ==> filter == Ok::<Option<Seq<char>>, ()>(name),
        !has_tenant ==> (listed(has_tenant, filter) matches Err(e) && e.status == 404),
        has_tenant && filter is Err ==> (listed(has_tenant, filter) matches Err(e) && e.status
            == 400 && e.scim_type == Some("invalidFilter"@)),
{
}

proof fn lemma_skip_blanks(a: Seq<char>, s: Seq<char>)
    requires
        forall|i: int| 0 <= i < a.len() ==> is_space(#[trigger] a[i]),
        s.len() > 0,
        !is_space(s[0]),
    ensures
        trimmed_start(a + s) == s,
    decreases a.len(),
{
    if a.len() == 0 {
        assert(a + s =~= s);
    } else {
        let rest = a.skip(1);
        assert forall|i: int| 0 <= i < rest.len() implies is_space(#[trigger] rest[i]) by {
            assert(rest[i] == a[i + 1]);
        }
        lemma_skip_blanks(rest, s);
        assert((a + s).skip(1) =~= rest + s);
        assert((a + s)[0] == a[0]);
    }
}

/// A filter finds the users of a name: `userName eq "..."`, with any blanks
/// between the parts, asks for the name between the quotes.
pub proof fn law_filters_ask_for_the_quoted_name(
    filter: Seq<char>,
    a: Seq<char>,
    b: Seq<char>,
    name: Seq<char>,
)
    requires
        trimmed(filter).len() > 0,
        forall|i: int| 0 <= i < a.len() ==> is_space(#[trigger] a[i]),
        forall|i: int| 0 <= i < b.len() ==> is_space(#[trigger] b[i]),
    ensures
        filter_of(filter, "username"@ + a + "eq"@ + b + seq!['"'] + name + seq!['"']) == Ok::<
            Option<Seq<char>>,
            (),
        >(Some(name)),
{
    reveal_strlit("username");
    reveal_strlit("eq");
    let value = seq!['"'] + name + seq!['"'];
    let lower = "username"@ + a + "eq"@ + b + seq!['"'] + name + seq!['"'];
    assert(lower.take(8) =~= "username"@);
    assert(lower.skip(8) =~= a + ("eq"@ + (b + value)));
    let rest = "eq"@ + (b + value);
    assert(rest[0] == 'e');
    assert(!is_space('e') && !is_space('"'));
    lemma_skip_blanks(a, rest);
    assert(rest.take(2) =~= "eq"@);
    assert(rest.skip(2) =~= b + value);
    assert(value[0] == '"');
    lemma_skip_blanks(b, value);
    assert((b + value).last() == '"');
    assert(value.last() == '"');
    assert(trimmed_end(b + value) == b + value);
    assert(trimmed_end(value) == value);
    assert(trimmed(b + value) == value);
    assert(value.subrange(1, value.len() - 1) =~= name);
}

/// A blank filter asks for everybody, and one that is about anything but the
/// user name is not supported.
pub proof fn law_other_filters_are_refused(filter: Seq<char>, lower: Seq<char>)
    ensures
        trimmed(filter).len() == 0 ==> filter_of(filter, lower) == Ok::<Option<Seq<char>>, ()>(
            None,
        ),
        trimmed(filter).len() > 0 && !starts_with(lower, "username"@) ==> filter_of(filter, lower)
            is Err,
        filter_of(filter, lower) matches Ok(Some(name)) ==> lower.len() >= 12 + name.len()
            && trimmed(filter).len() > 0,
{
    reveal_strlit("username");
    reveal_strlit("eq");
    lemma_trimmed_shorter(lower.skip(8));
    lemma_trimmed_shorter(trimmed_start(lower.skip(8)).skip(2));
}

proof fn lemma_trimmed_shorter(s: Seq<char>)
    ensures
        trimmed_start(s).len() <= s.len(),
        trimmed_end(s).len() <= s.len(),
        trimmed(s).len() <= s.len(),
{
    lemma_start_shorter(s);
    lemma_end_shorter(s);
    lemma_start_shorter(trimmed_end(s));
    lemma_end_shorter(trimmed_start(s));
}

proof fn lemma_start_shorter(s: Seq<char>)
    ensures
        trimmed_start(s).len() <= s.len(),
    decreases s.len(),
{
    if s.len() > 0 && is_space(s[0]) {
        lemma_start_shorter(s.skip(1));
    }
}

proof fn lemma_end_shorter(s: Seq<char>)
    ensures
        trimmed_end(s).len() <= s.len(),
    decreases s.len(),
{
    if s.len() > 0 && is_space(s.last()) {
        lemma_end_shorter(s.drop_last());
    }
}

/// A text occurs in another one exactly where that one holds it between any
/// two parts.
pub proof fn law_parts_occur(before: Seq<char>, needle: Seq<char>, after: Seq<char>, s: Seq<char>)
    ensures
        occurs(before + needle + after, needle),
        occurs(s, needle) ==> exists|i: int|
            0 <= i && i + needle.len() <= s.len() && #[trigger] s.subrange(i, i + needle.len())
                == needle,
{
    let all = before + needle + after;
    let at = before.len() as int;
    assert(all.skip(at).take(needle.len() as int) =~= needle);
    assert(starts_with(all.skip(at), needle));
    if occurs(s, needle) {
        let i = choose|i: int| 0 <= i <= s.len() && starts_with(#[trigger] s.skip(i), needle);
        assert(s.subrange(i, i + needle.len()) =~= s.skip(i).take(needle.len() as int));
    }
}

/// A failure of the store is told by what it is: 403 where the caller stands
/// too low, 409 where a name is taken, 404 where something is not there, 400
/// otherwise; and in the store's own words.
pub proof fn law_store_failures_are_told_apart(e: StoreError)
    ensures
        tenant_fault(e).status == 403 || tenant_fault(e).status == 409 || tenant_fault(e).status
            == 404 || tenant_fault(e).status == 400,
        tenant_fault(e).status == 403 <==> e == StoreError::Admin(AdminError::Forbidden),
        tenant_fault(e).status == 409 <==> (match e {
            StoreError::Admin(a) => a is Conflict,
            StoreError::Other(m) => occurs(m@, "already exists"@) || occurs(m@, "UNIQUE"@),
        }),
        tenant_fault(e).status == 404 ==> (e matches StoreError::Other(m) && occurs(
            m@,
            "not found"@,
        )),
        tenant_fault(e).status == 400 ==> (e matches StoreError::Other(m) && !occurs(
            m@,
            "not found"@,
        )),
        tenant_fault(e).scim_type == (if tenant_fault(e).status == 409 {
            Some("uniqueness"@)
        } else {
            None
        }),
        e matches StoreError::Other(m) ==> tenant_fault(e).detail == m@,
        e matches StoreError::Admin(AdminError::Conflict(m)) ==> tenant_fault(e).detail == m@,
{
}

/// A user is created under the name that the request gives, exactly where there
/// is a session, a body with a name, and a tenant; otherwise the first that is
/// missing is told.
pub proof fn law_named_users_are_created(
    has_session: bool,
    body: Option<ScimUserRequest>,
    has_tenant: bool,
)
    ensures
        ({
            let named = body is Some && body->0.user_name is Some && body->0.user_name->0@.len()
                > 0;
            let r = new_user(has_session, body, has_tenant);
            &&& r is Ok <==> has_session && named && has_tenant
            &&& r matches Ok(n) ==> n == body->0.user_name->0@
            &&& r matches Err(e) ==> e.status == (if !has_session {
                401int
            } else if !named {
                400
            } else {
                404
            })
            &&& r matches Err(e) ==> (has_session && body is Some && !named ==> e.detail
                == "userName is required"@)
        }),
{
}

/// A page starts where it was asked to, counted from one, follows the order of
/// the listing without a gap, and is as long as it was asked to be, but for the
/// end of the listing and for the 200 users that it holds at most.
pub proof fn law_pages_are_as_asked(
    page: Page,
    total: int,
    start_index: Option<usize>,
    count: Option<usize>,
)
    requires
        page.cuts(total, start_index, count),
        0 <= total,
    ensures
        0 <= page.from <= page.to <= total,
        start_index matches Some(s) ==> 1 <= s <= total ==> page.from == s - 1 && page.start_index
            == s,
        start_index is None || start_index->0 == 0 ==> page.from == 0 && page.start_index == 1,
        start_index matches Some(s) ==> s > total ==> page.from == page.to,
        page.to - page.from <= 200,
        count matches Some(c) ==> page.to - page.from <= c,
        page.to < total ==> (page.to - page.from == 200 || (count is Some && page.to - page.from
            == count->0)),
        page.to < total && count is None ==> page.to - page.from == 200,
{
}

/// A body is a patch exactly where its schemas say so.
pub proof fn law_patches_say_that_they_are(schemas: Seq<String>)
    ensures
        is_patch(texts(schemas)) <==> lists(
            schemas,
            "urn:ietf:params:scim:api:messages:2.0:PatchOp"@,
        ),
{
    lemma_lists(schemas, "urn:ietf:params:scim:api:messages:2.0:PatchOp"@);
}

/// Replacing a user makes the user what the request says: the attributes are
/// applied, every address of the request is attached, and every stored address
/// that the request lacks is taken away.
pub proof fn law_replaced_users_are_as_said(
    plan: ReplacePlan,
    u: UserRow,
    current: Seq<Seq<char>>,
    body: ScimUserRequest,
    address: Seq<char>,
)
    requires
        plan.replaces(u, current, body),
    ensures
        plan.attrs@ == attr_plan(u, body),
        lists(plan.delete_emails@, address) <==> current.contains(address) && !lists(
            body.emails@,
            address,
        ),
        lists(plan.attrs.attach@, address) <==> lists(body.emails@, address) && address.len() > 0,
{
    lemma_lists(plan.delete_emails@, address);
    lemma_lists(plan.attrs.attach@, address);
    lemma_lists(body.emails@, address);
    crate::scim::law_replacing_drops_what_is_missing(current, texts(body.emails@), address);
    lemma_nonempty(texts(body.emails@), address);
}

/// Whoever does not stand above the user is refused with 403, for a patch that
/// could be read as for a replacement, and nothing is gathered.
pub proof fn law_inferiors_are_refused(
    caller: Caller,
    table: Seq<Role>,
    target: Option<i64>,
    o: PatchOperation,
)
    requires
        !may_administer(caller, table, target),
        sets(o),
        o.content !is Nothing,
        o.path is None ==> o.content is Object,
    ensures
        patch_effect(caller, table, target, o).0 == nothing_gathered(),
        patch_effect(caller, table, target, o).1 == Some(above_fault()),
        above_fault().status == 403,
        above_fault().scim_type is None,
        above_fault().detail == "role level is not below the caller's effective level"@,
{
}

/// Nothing gathered is nothing of anything.
pub proof fn law_nothing_is_gathered_of_nothing()
    ensures
        nothing_gathered().active is None,
        nothing_gathered().user_name is None,
        nothing_gathered().external_id is None,
        nothing_gathered().emails.len() == 0,
        nothing_gathered().replaced.len() == 0,
{
}

/// An attribute that cannot be set is told what it must be.
pub proof fn law_values_that_do_not_fit_are_told(
    g: GatheredView,
    attr: Seq<char>,
    value: PatchValue,
)
    requires
        !fits(attr, value),
    ensures
        set_attr(g, attr, value) matches Err(e) && e.detail == (if attr == "active"@ {
            "active must be a boolean"@
        } else if attr == "username"@ {
            "userName must be a string"@
        } else if attr == "externalid"@ {
            "externalId must be a string"@
        } else if attr == "emails"@ {
            "emails must be an array of {value}"@
        } else {
            "unsupported attribute '"@ + attr + "'"@
        }) && (attr == "active"@ || attr == "username"@ || attr == "externalid"@ || attr
            == "emails"@ ==> e.scim_type == Some("invalidValue"@)),
{
    lemma_attr_names();
}

/// Every user's own path is looked up as one; any other path as it is, without
/// its query.
pub proof fn law_paths_are_looked_up_without_names(path: Seq<char>)
    ensures
        ({
            let segs = crate::ops::segments(path);
            let one_user = segs.len() == 4 && segs[0] == "scim"@ && segs[1] == "v2"@ && segs[2]
                == "Users"@;
            &&& one_user ==> policy_path(path) == "/scim/v2/Users/{id}"@
            &&& !one_user ==> policy_path(path) == crate::ops::path_only(path)
        }),
{
}

/// A filter may be written in capitals and with blanks around it: what counts
/// is its text without them, in lower case.
pub proof fn law_filters_are_read_in_any_case(
    filter: Seq<char>,
    a: Seq<char>,
    b: Seq<char>,
    name: Seq<char>,
)
    requires
        trimmed(filter).len() > 0,
        forall|i: int| 0 <= i < a.len() ==> is_space(#[trigger] a[i]),
        forall|i: int| 0 <= i < b.len() ==> is_space(#[trigger] b[i]),
        lowercase(trimmed(filter)) == "username"@ + a + "eq"@ + b + seq!['"'] + name + seq!['"'],
    ensures
        user_filter(filter) == Ok::<Option<Seq<char>>, ()>(Some(name)),
{
    law_filters_ask_for_the_quoted_name(filter, a, b, name);
}

/// A filter with any other operator, or with a value that is not quoted, is not
/// supported.
pub proof fn law_unsupported_filters_are_refused(
    filter: Seq<char>,
    a: Seq<char>,
    rest: Seq<char>,
    b: Seq<char>,
    value: Seq<char>,
)
    requires
        trimmed(filter).len() > 0,
        forall|i: int| 0 <= i < a.len() ==> is_space(#[trigger] a[i]),
        forall|i: int| 0 <= i < b.len() ==> is_space(#[trigger] b[i]),
        rest.len() > 0 && !is_space(rest[0]),
        !starts_with(rest, "eq"@),
        value.len() > 0 && !is_space(value[0]) && !is_space(value.last()),
        value[0] != '"' || value.last() != '"' || value.len() < 2,
    ensures
        filter_of(filter, "username"@ + a + rest) is Err,
        filter_of(filter, "username"@ + a + "eq"@ + b + value) is Err,
{
    reveal_strlit("username");
    reveal_strlit("eq");
    let first = "username"@ + a + rest;
    assert(first.take(8) =~= "username"@);
    assert(first.skip(8) =~= a + rest);
    lemma_skip_blanks(a, rest);
    let second = "username"@ + a + "eq"@ + b + value;
    assert(second.take(8) =~= "username"@);
    assert(second.skip(8) =~= a + ("eq"@ + (b + value)));
    let tail = "eq"@ + (b + value);
    assert(tail[0] == 'e');
    assert(!is_space('e'));
    lemma_skip_blanks(a, tail);
    assert(tail.take(2) =~= "eq"@);
    assert(tail.skip(2) =~= b + value);
    let none = Seq::<char>::empty();
    crate::laws::words::law_trimming_takes_the_blanks_around(b, value, none);
    assert(b + value + none =~= b + value);
}

} // verus!
