use sqltui::form::FormData;
use sqltui::pg_role::{build_role_ddl, map_bool_str, map_str_bool, new_role_member_rows, pg_privilege_from_dialog,
    role_member_rows, Privilege, Role, RoleDetailComponent, RoleInputError, RoleMember};

fn role(name: &str) -> Role {
    Role {
        oid: 10,
        name: name.to_string(),
        super_user: false,
        inherit: true,
        create_role: false,
        create_db: false,
        can_login: true,
        replication: false,
        password: None,
        conn_limit: -1,
        bypassrls: false,
        expiry_date: None,
        comment: String::new(),
    }
}

fn form(entries: &[(&str, Option<&str>)]) -> FormData {
    FormData {
        entries: entries.iter().map(|(k, v)| (k.to_string(), v.map(|s| s.to_string()))).collect(),
    }
}

fn role_form(limit: Option<&str>, expiry: Option<&str>) -> FormData {
    form(&[
        ("name", Some("app")),
        ("superuser", Some("true")),
        ("inherit privileges", Some("true")),
        ("can create roles", Some("false")),
        ("can create databases", Some("false")),
        ("can login", Some("true")),
        ("can replicate", Some("false")),
        ("can bypass rls", Some("false")),
        ("connect limit", limit),
        ("expiry date", expiry),
    ])
}

fn editor(stored: Option<Role>, f: FormData, comment: Vec<String>) -> RoleDetailComponent {
    RoleDetailComponent {
        role: stored,
        member_ofs: vec![],
        old_member_ofs: vec![],
        members: vec![],
        old_members: vec![],
        privileges: vec![],
        old_privileges: vec![],
        comment,
        form: f,
    }
}

#[test]
fn unchanged_role_has_no_statement() {
    let r = role("app");
    assert!(build_role_ddl(&r, &r).is_empty());
}

#[test]
fn one_statement_per_changed_attribute() {
    let old = role("app");
    let mut r = role("app");
    r.super_user = true;
    r.can_login = false;
    r.conn_limit = 5;
    r.expiry_date = Some("2030-01-02 03:04:05".to_string());
    r.comment = "team".to_string();
    assert_eq!(build_role_ddl(&r, &old), vec![
        "ALTER ROLE \"app\" WITH SUPERUSER",
        "ALTER ROLE \"app\" WITH NOLOGIN",
        "ALTER ROLE \"app\" WITH CONNECTION LIIMIT 5",
        "ALTER ROLE \"app\" WITH VALID UNTIL '2030-01-02 03:04:05'",
        "COMMENT ON ROLE \"app\" IS 'team'",
    ]);
    let mut back = role("app");
    back.expiry_date = None;
    assert_eq!(build_role_ddl(&back, &r), vec![
        "ALTER ROLE \"app\" WITH NOSUPERUSER",
        "ALTER ROLE \"app\" WITH LOGIN",
        "ALTER ROLE \"app\" WITH CONNECTION LIIMIT -1",
        "ALTER ROLE \"app\" WITH VALID UNTIL 'infinity'",
        "COMMENT ON ROLE \"app\" IS ''",
    ]);
}

#[test]
fn flag_keywords() {
    let f = role_form(None, None);
    assert_eq!(map_bool_str(&f, "superuser"), "SUPERUSER");
    assert_eq!(map_bool_str(&f, "can create roles"), "NOCREATEROLE");
    assert_eq!(map_bool_str(&f, "name"), "");
    assert!(map_str_bool(&f, "superuser"));
    assert!(!map_str_bool(&f, "can replicate"));
    assert!(!map_str_bool(&f, "name"));
}

#[test]
fn input_role_reads_limit_and_expiry() {
    let e = editor(Some(role("old")), role_form(Some("12"), Some("2030-01-02 03:04:05")),
        vec!["line one".to_string(), "line two".to_string()]);
    let r = e.get_input_role().ok().unwrap();
    assert_eq!(r.oid, 10);
    assert_eq!(r.name, "app");
    assert!(r.super_user);
    assert!(r.can_login);
    assert!(!r.create_db);
    assert_eq!(r.conn_limit, 12);
    assert_eq!(r.expiry_date.as_deref(), Some("2030-01-02 03:04:05"));
    assert_eq!(r.comment, "line one\nline two");
    let e = editor(Some(role("old")), role_form(None, None), vec![]);
    let r = e.get_input_role().ok().unwrap();
    assert_eq!(r.conn_limit, -1);
    assert!(r.expiry_date.is_none());
}

#[test]
fn input_role_errors() {
    let e = editor(Some(role("old")), role_form(Some("ten"), None), vec![]);
    assert!(matches!(e.get_input_role(), Err(RoleInputError::InvalidConnectLimit)));
    let e = editor(Some(role("old")), role_form(Some("99999999999"), None), vec![]);
    assert!(matches!(e.get_input_role(), Err(RoleInputError::InvalidConnectLimit)));
    let e = editor(Some(role("old")), role_form(Some("-3"), Some("2030-13-40 00:00:00")), vec![]);
    assert!(matches!(e.get_input_role(), Err(RoleInputError::InvalidExpiryDate)));
    assert!(matches!(e.build_alter_ddl(&vec![], &vec![], &vec![]), Err(RoleInputError::InvalidExpiryDate)));
}

#[test]
fn alter_statements_of_the_editor() {
    let mut stored = role("app");
    stored.super_user = true;
    let e = editor(Some(stored), role_form(Some("3"), None), vec![]);
    let s = e.build_alter_ddl(&vec!["GRANT \"r\" TO \"app\"".to_string()], &vec![], &vec![]).ok().unwrap();
    assert_eq!(s, "ALTER ROLE \"app\" WITH CONNECTION LIIMIT 3\nGRANT \"r\" TO \"app\"");
}

#[test]
fn create_role_statement() {
    let f = form(&[
        ("superuser", Some("false")),
        ("can create databases", Some("true")),
        ("can create roles", Some("false")),
        ("inherit priviliges", Some("true")),
        ("can login", Some("true")),
        ("can replicate", Some("false")),
        ("can bypass rls", Some("false")),
        ("password", Some("pw")),
        ("expiry date", None),
        ("connect limit", Some("4")),
    ]);
    let mut e = editor(None, f, vec!["note".to_string()]);
    e.member_ofs = vec![RoleMember {
        role_oid: Some(1),
        role_name: Some("readers".to_string()),
        member_oid: None,
        member_name: None,
        granted: true,
        admin_option: false,
    }];
    let mut privs = [false; 7];
    privs[0] = true;
    e.privileges = vec![Privilege { id: 1, db: "d".to_string(), schema: "s".to_string(), name: "t".to_string(), privs }];
    assert_eq!(e.build_create_ddl(Some("app")),
        "CREATE ROLE \"app\" WITH NOSUPERUSER CREATEDB NOCREATEROLE  LOGIN NOREPLICATION NOBYPASSRLS  PASSWORD 'pw' CONNECTION LIMIT 4IN ROLE \"readers\"\n\
GRANT SELECT ON TABLE \"d\".\"s\".\"t\" TO \"app\"\nCOMMET ON ROLE \"app\" IS 'note'");
}

#[test]
fn membership_rows_of_roles() {
    let roles = vec![role("a"), Role { oid: 11, ..role("b") }];
    let me = Role { oid: 20, ..role("me") };
    let member_ofs = vec![RoleMember {
        role_oid: Some(11),
        role_name: Some("b".to_string()),
        member_oid: Some(20),
        member_name: Some("me".to_string()),
        granted: true,
        admin_option: true,
    }];
    let (mo, ms) = role_member_rows(&roles, &me, &member_ofs, &vec![]);
    assert_eq!(mo.len(), 2);
    assert!(!mo[0].granted);
    assert!(mo[1].granted && mo[1].admin_option);
    assert_eq!(mo[1].member_name.as_deref(), Some("me"));
    assert!(!ms[1].granted);
    assert_eq!(ms[1].member_oid, Some(11));
    let (a, b) = new_role_member_rows(&roles);
    assert_eq!(a[0].role_name.as_deref(), Some("a"));
    assert!(b[1].role_oid.is_none());
    assert!(!a[1].granted);
}

#[test]
fn membership_dialog_sets_flags_of_named_row() {
    let mut e = editor(Some(role("me")), role_form(None, None), vec![]);
    let row = |role_oid: u32| RoleMember {
        role_oid: Some(role_oid),
        role_name: Some("r".to_string()),
        member_oid: Some(20),
        member_name: Some("me".to_string()),
        granted: false,
        admin_option: false,
    };
    e.member_ofs = vec![row(11), row(12)];
    e.apply_member_of_dialog(&form(&[("role_oid", Some("+12")), ("member_oid", Some("20")), ("granted", Some("true")),
        ("admin option", Some("true"))]));
    assert!(!e.member_ofs[0].granted);
    assert!(e.member_ofs[1].granted && e.member_ofs[1].admin_option);
    e.members = vec![RoleMember { role_oid: Some(20), member_oid: None, ..row(0) }];
    e.apply_members_dialog(&form(&[("role_oid", Some("20")), ("member_oid", None), ("granted", Some("true")),
        ("admin option", Some("no"))]));
    assert!(e.members[0].granted);
    assert!(!e.members[0].admin_option);
}

#[test]
fn pg_privilege_dialog_gives_grant() {
    let mut entries = vec![("id", None), ("database", Some("d")), ("schema", Some("s")), ("name", Some("t"))];
    for key in ["select", "delete", "insert", "references", "trigger", "truncate", "update"] {
        entries.push((key, Some(if key == "truncate" { "true" } else { "false" })));
    }
    let p = pg_privilege_from_dialog(&form(&entries)).unwrap();
    assert_eq!(p.schema, "s");
    assert_eq!(p.privs, [false, false, false, false, false, true, false]);
    let mut e = editor(None, form(&[]), vec![]);
    e.save_privilege(p, false, None);
    assert_eq!(e.privileges.len(), 1);
    entries[0] = ("id", Some("zzz"));
    assert!(pg_privilege_from_dialog(&form(&entries)).is_none());
}

#[test]
fn expiry_date_is_written_back_in_full() {
    let e = editor(Some(role("old")), role_form(None, Some("2030-1-2 3:4:5")), vec![]);
    let r = e.get_input_role().ok().unwrap();
    assert_eq!(r.expiry_date.as_deref(), Some("2030-01-02 03:04:05"));
}

#[test]
fn role_save_chooses_create_or_alter() {
    let e = editor(Some(role("app")), role_form(Some("x"), None), vec![]);
    assert!(matches!(e.build_sql(None, &vec![], &vec![], &vec![]), Err(RoleInputError::InvalidConnectLimit)));
    let f = form(&[
        ("superuser", Some("true")),
        ("can create databases", Some("true")),
        ("can create roles", Some("true")),
        ("inherit priviliges", Some("true")),
        ("can login", Some("false")),
        ("can replicate", Some("false")),
        ("can bypass rls", Some("true")),
    ]);
    let e = editor(None, f, vec![]);
    assert_eq!(e.build_sql(None, &vec![], &vec![], &vec![]).ok().unwrap(),
        "CREATE ROLE \"new_role\" WITH SUPERUSER CREATEDB CREATEROLE  NOLOGIN NOREPLICATION BYPASSRLS PASSWORD NULL\n\n");
}

#[test]
fn loading_a_role_fills_the_form_and_baselines() {
    let app = || {
        let mut r = role("app");
        r.oid = 20;
        r.conn_limit = 5;
        r.expiry_date = Some("2030-01-02 03:04:05".to_string());
        r
    };
    let r = app();
    let roles = vec![role("admin"), app()];
    let mut e = editor(None, FormData::new(), vec![]);
    let mo = vec![RoleMember { role_oid: Some(10), role_name: None, member_oid: Some(20), member_name: None, granted: true, admin_option: true }];
    e.load_role(&roles, r, &mo, &vec![], vec![]);
    assert_eq!(e.role.as_ref().map(|r| r.oid), Some(20));
    assert_eq!(e.form.get("name"), Some(Some("app".to_string())));
    assert_eq!(e.form.get("connect limit"), Some(Some("5".to_string())));
    assert_eq!(e.form.get("can login"), Some(Some("true".to_string())));
    assert_eq!(e.form.get("superuser"), Some(Some("false".to_string())));
    assert_eq!(e.form.get("expiry date"), Some(Some("2030-01-02 03:04:05".to_string())));
    assert_eq!(e.form.get("password"), Some(None));
    assert_eq!(e.member_ofs.len(), 2);
    assert!(e.member_ofs[0].granted && e.member_ofs[0].admin_option);
    assert!(!e.member_ofs[1].granted);
    assert!(e.old_member_ofs[0].granted);
    assert_eq!(e.old_members.len(), 2);
}

#[test]
fn a_new_role_has_the_default_form() {
    let mut e = editor(None, FormData::new(), vec![]);
    e.load_new_role(&vec![role("admin")]);
    assert_eq!(e.form.get("name"), Some(None));
    assert_eq!(e.form.get("connect limit"), Some(Some("-1".to_string())));
    assert_eq!(e.form.get("expiry date"), Some(None));
    for k in ["can login", "superuser", "can create databases", "can create roles", "inherit privileges", "can replicate", "can bypass rls"] {
        assert_eq!(e.form.get(k), Some(Some("false".to_string())));
    }
    assert_eq!(e.member_ofs[0].role_name, Some("admin".to_string()));
    assert!(!e.members[0].granted);
}

#[test]
fn connect_limits_are_read_as_decimal() {
    let e = editor(Some(role("app")), role_form(Some("+7"), None), vec![]);
    assert_eq!(e.get_input_role().ok().map(|r| r.conn_limit), Some(7));
    let e = editor(Some(role("app")), role_form(Some("-2147483648"), None), vec![]);
    assert_eq!(e.get_input_role().ok().map(|r| r.conn_limit), Some(i32::MIN));
    let e = editor(Some(role("app")), role_form(Some("2147483648"), None), vec![]);
    assert!(matches!(e.get_input_role(), Err(RoleInputError::InvalidConnectLimit)));
    let e = editor(Some(role("app")), role_form(Some("1a"), None), vec![]);
    assert!(matches!(e.get_input_role(), Err(RoleInputError::InvalidConnectLimit)));
    let e = editor(Some(role("app")), role_form(Some("-"), None), vec![]);
    assert!(matches!(e.get_input_role(), Err(RoleInputError::InvalidConnectLimit)));
}

#[test]
fn the_role_is_read_with_a_given_expiry() {
    let e = editor(Some(role("app")), role_form(Some("3"), Some("whatever")), vec!["c".to_string()]);
    let r = e.input_role_with_expiry(Some(Some("2030-01-02 03:04:05".to_string()))).ok().unwrap();
    assert_eq!(r.expiry_date, Some("2030-01-02 03:04:05".to_string()));
    assert_eq!(r.conn_limit, 3);
    assert!(matches!(e.input_role_with_expiry(None), Err(RoleInputError::InvalidExpiryDate)));
    let e = editor(Some(role("app")), role_form(Some("x"), None), vec![]);
    assert!(matches!(e.input_role_with_expiry(None), Err(RoleInputError::InvalidConnectLimit)));
}
