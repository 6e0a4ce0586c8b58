use janux::identity::JwtData;
use janux::role::{AdminError, Caller, Role};
use janux::scim::{
    apply_attrs, canonical_resource, check_operation, check_patch, check_user_request, create_user,
    delete_user, emails_to_delete, get_user, invalid_filter, list_users, put_user, page_of, parse_user_name_filter, patch_user, read_filter,
    render_tenant_error, resolve_path_user, to_scim_user, Page, PatchContent, PatchOperation,
    PatchValue, ScimUserRequest, StoreError, UserLookup, UserRow,
};

fn texts(list: &[&str]) -> Vec<String> {
    list.iter().map(|s| s.to_string()).collect()
}

fn jdoe() -> UserRow {
    UserRow {
        id: "01a058ed-b318-7c50-90a7-74469a942bf8".to_string(),
        name: "jdoe".to_string(),
        active: true,
        external_id: Some("ext-1".to_string()),
        created_at: 0,
        updated_at: 86400,
    }
}

fn request() -> ScimUserRequest {
    ScimUserRequest {
        user_name: None,
        active: None,
        external_id: None,
        emails: vec![],
    }
}

#[test]
fn users_are_shown() {
    let u = to_scim_user(&jdoe(), &texts(&["jdoe@example.com", "j@example.com"]));
    assert_eq!(u.user_name, "jdoe");
    assert_eq!(u.external_id.as_deref(), Some("ext-1"));
    assert_eq!(u.emails[0].value, "jdoe@example.com");
    assert_eq!(u.emails[0].primary, Some(true));
    assert_eq!(u.emails[1].primary, None);
    assert_eq!(u.created, "1970-01-01T00:00:00Z");
    assert_eq!(u.last_modified, "1970-01-02T00:00:00Z");
    assert_eq!(
        u.location,
        "/scim/v2/Users/01a058ed-b318-7c50-90a7-74469a942bf8"
    );
}

#[test]
fn store_errors_have_their_status() {
    let other = |m: &str| render_tenant_error(&StoreError::Other(m.to_string()));
    assert_eq!(
        render_tenant_error(&StoreError::Admin(AdminError::Forbidden)).status,
        403
    );
    let e = render_tenant_error(&StoreError::Admin(AdminError::Conflict("x".to_string())));
    assert_eq!((e.status, e.scim_type.as_deref()), (409, Some("uniqueness")));
    let e = other("user jdoe already exists");
    assert_eq!((e.status, e.scim_type.as_deref()), (409, Some("uniqueness")));
    assert_eq!(other("UNIQUE constraint failed").status, 409);
    assert_eq!(other("user not found").status, 404);
    assert_eq!(other("disk full").status, 400);
    assert_eq!(other("").status, 400);
}

#[test]
fn filters_are_read() {
    assert_eq!(
        parse_user_name_filter("userName eq \"JDoe\""),
        Ok(Some("jdoe".to_string()))
    );
    assert_eq!(
        parse_user_name_filter("  USERNAME   EQ\"a b\"  "),
        Ok(Some("a b".to_string()))
    );
    assert_eq!(parse_user_name_filter("userName eq \"\""), Ok(Some(String::new())));
    assert_eq!(parse_user_name_filter("   "), Ok(None));
    assert_eq!(parse_user_name_filter("userName co \"x\""), Err(()));
    assert_eq!(parse_user_name_filter("userName eq \""), Err(()));
    assert_eq!(parse_user_name_filter("emails eq \"x\""), Err(()));
    assert_eq!(read_filter("x", "username eq \"x\""), Ok(Some("x".to_string())));
    assert_eq!(invalid_filter().scim_type.as_deref(), Some("invalidFilter"));
}

#[test]
fn policies_see_one_path_for_all_users() {
    assert_eq!(canonical_resource("/scim/v2/Users/abc"), "/scim/v2/Users/{id}");
    assert_eq!(canonical_resource("/scim/v2/Users/x?a=b"), "/scim/v2/Users/{id}");
    assert_eq!(canonical_resource("/scim/v2/Users?count=1"), "/scim/v2/Users");
    assert_eq!(canonical_resource("/scim/v2/Groups/abc"), "/scim/v2/Groups/abc");
}

#[test]
fn listings_are_paged() {
    let page = |start_index, from, to| Page { start_index, from, to };
    assert_eq!(page_of(500, None, None), page(1, 0, 200));
    assert_eq!(page_of(500, Some(0), Some(1000)), page(1, 0, 200));
    assert_eq!(page_of(500, Some(450), Some(100)), page(450, 449, 500));
    assert_eq!(page_of(3, Some(10), None), page(10, 3, 3));
    assert_eq!(page_of(3, Some(2), Some(1)), page(2, 1, 2));
    assert_eq!(page_of(3, None, Some(0)), page(1, 0, 0));
}

#[test]
fn path_segments_are_looked_up_both_ways() {
    let (by_id, by_name) = resolve_path_user("01A058ED-B318-7C50-90A7-74469A942BF8");
    assert!(matches!(by_id, Some(UserLookup::ById(id)) if id == jdoe().id));
    assert!(matches!(by_name, UserLookup::ByName(n) if n == "01A058ED-B318-7C50-90A7-74469A942BF8"));
    assert!(resolve_path_user("jdoe").0.is_none());
}

#[test]
fn attributes_change_only_what_differs() {
    let mut b = request();
    b.user_name = Some("jdorian".to_string());
    b.active = Some(false);
    b.external_id = Some(String::new());
    b.emails = texts(&["", "a@x"]);
    let p = apply_attrs(&jdoe(), &b);
    assert_eq!(p.rename.as_deref(), Some("jdorian"));
    assert_eq!(p.set_active, Some(false));
    assert_eq!(p.external_id, Some(None));
    assert_eq!(p.attach, texts(&["a@x"]));
    let mut b = request();
    b.user_name = Some("jdoe".to_string());
    b.active = Some(true);
    b.external_id = Some("ext-1".to_string());
    let p = apply_attrs(&jdoe(), &b);
    assert!(p.rename.is_none() && p.set_active.is_none() && p.external_id.is_none());
    assert!(p.attach.is_empty());
    let mut b = request();
    b.user_name = Some(String::new());
    b.external_id = Some("ext-2".to_string());
    let p = apply_attrs(&jdoe(), &b);
    assert!(p.rename.is_none());
    assert_eq!(p.external_id, Some(Some("ext-2".to_string())));
    assert_eq!(
        emails_to_delete(&texts(&["a", "b", "c"]), &texts(&["b", "d"])),
        texts(&["a", "c"])
    );
}

#[test]
fn requests_are_checked_in_order() {
    let named = || {
        let mut b = request();
        b.user_name = Some("jdoe".to_string());
        Some(b)
    };
    assert!(matches!(create_user(true, &named(), true), Ok(n) if n == "jdoe"));
    assert!(matches!(create_user(false, &named(), true), Err(e) if e.status == 401));
    assert!(matches!(create_user(true, &None, true), Err(e) if e.detail == "malformed body"));
    assert!(matches!(
        create_user(true, &Some(request()), true),
        Err(e) if e.detail == "userName is required"
    ));
    assert!(matches!(create_user(true, &named(), false), Err(e) if e.status == 404));
    assert!(check_user_request(true, true, true, true).is_ok());
    assert!(matches!(check_user_request(false, true, true, true), Err(e) if e.status == 401));
    assert!(matches!(check_user_request(true, false, true, true), Err(e) if e.status == 400));
    assert!(matches!(check_user_request(true, true, false, true), Err(e) if e.detail == "unknown tenant"));
    assert!(matches!(check_user_request(true, true, true, false), Err(e) if e.detail == "Resource not found"));
}

fn op(op: &str, path: Option<&str>, content: PatchContent) -> PatchOperation {
    PatchOperation {
        op: op.to_string(),
        path: path.map(|p| p.to_string()),
        content,
    }
}

fn role(id: &str, level: i64) -> Role {
    Role {
        id: id.to_string(),
        level,
        builtin: true,
    }
}

fn table() -> Vec<Role> {
    vec![role("admin", 80), role("scim", 60), role("user", 40)]
}

fn held(id: &str, level: i64) -> Option<Vec<Role>> {
    Some(vec![role(id, level)])
}

fn scim() -> Caller {
    Caller::Jwt(JwtData {
        user: "u".to_string(),
        username: "client:hr".to_string(),
        domain: "d".to_string(),
        mfa: vec![],
        roles: texts(&["scim"]),
    })
}

fn patch(o: &PatchOperation) -> (janux::scim::Gathered, Option<janux::scim::ScimFault>) {
    patch_user(&scim(), &table(), &held("user", 40), o)
}

#[test]
fn provisioning_administers_no_administrator() {
    let mut b = request();
    b.emails = vec![];
    let stored = texts(&["root@x"]);
    for (id, level) in [("admin", 80), ("scim", 60)] {
        let roles = held(id, level);
        assert!(matches!(
            put_user(&scim(), &table(), &roles, &jdoe(), &stored, &b),
            Err(e) if e.status == 403
        ));
        let drop_all = PatchContent::Value(PatchValue::Emails(vec![]));
        let (g, e) = patch_user(
            &scim(),
            &table(),
            &roles,
            &op("replace", Some("emails"), drop_all),
        );
        assert!(g.replaced.is_empty() && g.emails.is_empty());
        assert!(matches!(e, Some(f) if f.status == 403));
    }
    assert!(put_user(&scim(), &table(), &None, &jdoe(), &stored, &b).is_ok());
    assert!(put_user(&Caller::Bootstrap, &table(), &held("admin", 80), &jdoe(), &stored, &b).is_ok());
}

#[test]
fn patches_gather_attributes() {
    let schema = texts(&["urn:ietf:params:scim:api:messages:2.0:PatchOp"]);
    assert!(check_patch(&schema).is_ok());
    assert!(matches!(check_patch(&[]), Err(e) if e.scim_type.as_deref() == Some("invalidSyntax")));

    let (g, e) = patch(&op("replace", Some("active"), PatchContent::Value(PatchValue::Bool(false))));
    assert!(e.is_none());
    assert_eq!(g.active, Some(false));

    let members = PatchContent::Object(vec![
        ("userName".to_string(), PatchValue::Text("jdorian".to_string())),
        ("EMAILS".to_string(), PatchValue::Emails(texts(&["a@x"]))),
        ("externalId".to_string(), PatchValue::Text("e".to_string())),
    ]);
    let (g, e) = patch(&op("Add", None, members));
    assert!(e.is_none());
    assert_eq!(g.user_name.as_deref(), Some("jdorian"));
    assert_eq!(g.external_id.as_deref(), Some("e"));
    assert_eq!(g.emails, texts(&["a@x"]));
    assert_eq!(g.replaced, vec![texts(&["a@x"])]);
}

#[test]
fn patches_stop_at_the_first_error() {
    let fault = |o: PatchOperation| match patch(&o).1 {
        Some(e) => (e.scim_type.unwrap_or_default(), e.detail),
        None => panic!("the operation must be refused"),
    };
    let value = |v: PatchValue| PatchContent::Value(v);
    assert_eq!(
        fault(op("Remove", Some("active"), value(PatchValue::Bool(true)))),
        ("invalidValue".to_string(), "unsupported op 'Remove'".to_string())
    );
    assert_eq!(
        fault(op("add", None, value(PatchValue::Bool(true)))).0,
        "noTarget"
    );
    assert_eq!(fault(op("add", Some("active"), PatchContent::Nothing)).0, "noTarget");
    assert_eq!(
        fault(op("add", Some("active"), value(PatchValue::Other))).1,
        "active must be a boolean"
    );
    assert_eq!(
        fault(op("add", Some("userName"), value(PatchValue::Bool(true)))).1,
        "userName must be a string"
    );
    assert_eq!(
        fault(op("add", Some("externalId"), value(PatchValue::Other))).1,
        "externalId must be a string"
    );
    assert_eq!(
        fault(op("add", Some("emails"), PatchContent::Object(vec![]))).1,
        "emails must be an array of {value}"
    );
    assert_eq!(
        fault(op("add", Some("Title"), value(PatchValue::Other))),
        ("invalidPath".to_string(), "unsupported attribute 'title'".to_string())
    );
    let members = PatchContent::Object(vec![
        ("emails".to_string(), PatchValue::Emails(vec![])),
        ("title".to_string(), PatchValue::Other),
        ("active".to_string(), PatchValue::Bool(false)),
    ]);
    let (g, e) = patch(&op("replace", None, members));
    assert!(e.is_some());
    assert_eq!(g.replaced.len(), 1, "replaced addresses were replaced by then");
    assert_eq!(g.active, None);
    assert!(check_operation("add", &op("ADD", Some("x"), value(PatchValue::Other))).is_ok());
}

#[test]
fn listings_and_single_users() {
    assert!(matches!(list_users(true, ""), Ok(None)));
    assert!(matches!(list_users(true, "userName eq \"jdoe\""), Ok(Some(n)) if n == "jdoe"));
    assert!(matches!(
        list_users(true, "id eq \"1\""),
        Err(e) if e.scim_type.as_deref() == Some("invalidFilter") && e.status == 400
    ));
    assert!(matches!(list_users(false, ""), Err(e) if e.status == 404));
    assert!(get_user(true, true).is_ok());
    assert!(matches!(get_user(true, false), Err(e) if e.detail == "Resource not found"));
    assert!(matches!(delete_user(false, true, true), Err(e) if e.status == 401));
    assert!(delete_user(true, true, true).is_ok());
    let mut b = request();
    b.emails = texts(&["new@x", "kept@x"]);
    let stored = texts(&["kept@x", "old@x"]);
    let p = match put_user(&scim(), &table(), &held("user", 40), &jdoe(), &stored, &b) {
        Ok(p) => p,
        Err(e) => panic!("{}", e.detail),
    };
    assert_eq!(p.delete_emails, texts(&["old@x"]));
    assert_eq!(p.attrs.attach, texts(&["new@x", "kept@x"]));
}
