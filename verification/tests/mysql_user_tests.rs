use sqltui::form::FormData;
use sqltui::panel::Version;
use sqltui::panel::mysql_user::PanelKind;
use sqltui::mysql_user::{build_user_ddl, clone_strings, privilege_from_dialog, user_member_rows, Privilege, User, UserDetailComponent,
    UserMember};

fn user(name: &str, host: &str) -> User {
    User {
        host: host.to_string(),
        name: name.to_string(),
        plugin: Some("caching_sha2_password".to_string()),
        password: None,
        max_queries: None,
        max_updates: None,
        max_connections: None,
        max_user_connections: None,
        srv_privs: [false; 28],
    }
}

fn form(entries: &[(&str, Option<&str>)]) -> FormData {
    FormData {
        entries: entries.iter().map(|(k, v)| (k.to_string(), v.map(|s| s.to_string()))).collect(),
    }
}

fn adv(q: Option<&str>) -> FormData {
    form(&[
        ("Max queries per hour", q),
        ("Max updates per hour", None),
        ("Max connections per hour", Some("")),
        ("Max user connections", None),
    ])
}

fn editor(old_user: Option<User>, general: FormData, advanced: FormData) -> UserDetailComponent {
    UserDetailComponent {
        old_user,
        member_ofs: vec![],
        old_member_ofs: vec![],
        members: vec![],
        old_members: vec![],
        srv_privs: [false; 28],
        privileges: vec![],
        old_privileges: vec![],
        form: general,
        adv_form: advanced,
        panel: PanelKind::General,
        db_version: Version::Eight,
    }
}

#[test]
fn unchanged_user_has_no_statement() {
    let u = user("app", "%");
    assert!(build_user_ddl(&u, &u).is_empty());
}

#[test]
fn typed_password_alone_gives_alter_user() {
    let old = user("app", "%");
    let mut u = user("app", "%");
    u.password = Some("pw".to_string());
    assert_eq!(build_user_ddl(&u, &old), vec!["ALTER USER `app`@`%` IDENTIFIED BY 'pw';"]);
}

#[test]
fn rename_plugin_password_limits_and_privileges() {
    let mut old = user("app", "%");
    old.srv_privs[15] = true;
    let mut u = user("web", "localhost");
    u.plugin = Some("mysql_native_password".to_string());
    u.password = Some("pw".to_string());
    u.max_queries = Some("10".to_string());
    u.max_user_connections = Some("".to_string());
    u.srv_privs[0] = true;
    u.srv_privs[21] = true;
    assert_eq!(build_user_ddl(&u, &old), vec![
        "RENAME USER `app`@`%` TO `web`@`localhost`",
        "ALTER USER `web`@`localhost` IDENTIFIED WITH mysql_native_password BY 'pw' WITH MAX_QUERIES_PER_HOUR 10;",
        "GRANT Alter,Select ON *.* TO `web`@`localhost`;",
        "REVOKE Locak Tables ON *.* FROM `web`@`localhost`;",
    ]);
}

#[test]
fn changed_limit_without_password() {
    let old = user("app", "%");
    let mut u = user("app", "%");
    u.max_updates = Some("5".to_string());
    assert_eq!(build_user_ddl(&u, &old), vec!["ALTER USER `app`@`%`  WITH MAX_UPDATES_PER_HOUR 5;"]);
}

#[test]
fn create_user_statement() {
    let mut e = editor(None,
        form(&[("Name", Some("bob")), ("Host", None), ("Plugin", Some("mysql_native_password")), ("Password", Some("pw"))]),
        adv(Some("100")));
    e.srv_privs[2] = true;
    e.members = vec![UserMember {
        user_host: None,
        user_name: None,
        member_host: Some("%".to_string()),
        member_name: Some("alice".to_string()),
        granted: true,
    }];
    let mut privs = [false; 12];
    privs[8] = true;
    privs[6] = true;
    e.privileges = vec![Privilege { id: 1, db: "shop".to_string(), name: "orders".to_string(), privs }];
    assert_eq!(e.build_create_ddl(),
        "CREATE USER `bob`@`localhost` IDENTIFIED WITH mysql_native_password BY 'pw' WITH MAX_QUERIES_PER_HOUR 100;\n\n\
GRANT `bob`@`localhost` TO `alice`@`%`;\nGRANT Create ON *.* TO `bob`@`localhost`;\n\
GRANT Insert,Select ON `shop`.`orders` TO `bob`@`localhost`;\n");
}

#[test]
fn create_user_defaults() {
    let e = editor(None, form(&[("Name", None), ("Host", None), ("Plugin", None), ("Password", None)]), adv(None));
    assert_eq!(e.build_create_ddl(), "CREATE USER `username`@`localhost`;\n\n\n\n\n");
    assert_eq!(e.build_sql(&vec![], &vec![], &vec![]), "CREATE USER `username`@`localhost`;\n\n\n\n\n");
}

#[test]
fn input_user_and_alter() {
    let general = form(&[("Name", Some("app")), ("Host", Some("%")), ("Plugin", Some("caching_sha2_password")),
        ("Password", Some("")), ("Confirm Password", Some(""))]);
    let e = editor(Some(user("app", "%")), general, adv(Some("7")));
    let u = e.get_input_user();
    assert_eq!(u.name, "app");
    assert_eq!(u.max_queries.as_deref(), Some("7"));
    assert_eq!(e.build_alter_ddl(&vec![], &vec!["GRANT x;".to_string()], &vec![]),
        "ALTER USER `app`@`%`  WITH MAX_QUERIES_PER_HOUR 7;\nGRANT x;");
    assert!(e.passwords_match());
}

#[test]
fn passwords_must_match() {
    let general = form(&[("Name", Some("a")), ("Host", Some("%")), ("Plugin", None), ("Password", Some("x")),
        ("Confirm Password", Some("y"))]);
    let e = editor(None, general, adv(None));
    assert!(!e.passwords_match());
}

#[test]
fn membership_rows_for_an_account() {
    let all = vec![user("app", "%"), user("r1", "%"), user("r2", "localhost")];
    let me = user("app", "%");
    let member_ofs = vec![UserMember {
        user_host: Some("%".to_string()),
        user_name: Some("r1".to_string()),
        member_host: Some("%".to_string()),
        member_name: Some("app".to_string()),
        granted: true,
    }];
    let (mo, ms) = user_member_rows(&all, &me, &member_ofs, &vec![]);
    assert_eq!(mo.len(), 2);
    assert_eq!(mo[0].user_name.as_deref(), Some("r1"));
    assert_eq!(mo[1].user_name.as_deref(), Some("r2"));
    assert_eq!(mo[0].member_name.as_deref(), Some("app"));
    assert!(mo[0].granted);
    assert!(mo[1].granted);
    assert_eq!(ms.len(), 2);
    assert_eq!(ms[0].member_name.as_deref(), Some("r1"));
    assert!(!ms[0].granted);
}

#[test]
fn strings_are_copied() {
    let v = vec!["a".to_string(), "b".to_string()];
    assert_eq!(clone_strings(&v), v);
}

#[test]
fn toggles_flip_grants_and_privileges() {
    let mut e = editor(None, form(&[]), form(&[]));
    e.member_ofs = vec![UserMember {
        user_host: Some("%".to_string()),
        user_name: Some("r".to_string()),
        member_host: None,
        member_name: None,
        granted: false,
    }];
    e.members = e.member_ofs.iter().map(|m| UserMember { granted: true, ..clone_row(m) }).collect();
    e.toggle_member_of(0);
    assert!(e.member_ofs[0].granted);
    e.toggle_member_of(0);
    assert!(!e.member_ofs[0].granted);
    e.toggle_member(0);
    assert!(!e.members[0].granted);
    e.toggle_server_privilege(27);
    assert!(e.srv_privs[27]);
    e.toggle_server_privilege(27);
    assert!(!e.srv_privs[27]);
}

fn clone_row(m: &UserMember) -> UserMember {
    UserMember {
        user_host: m.user_host.clone(),
        user_name: m.user_name.clone(),
        member_host: m.member_host.clone(),
        member_name: m.member_name.clone(),
        granted: m.granted,
    }
}

fn privilege_form(id: Option<&str>) -> FormData {
    let mut entries = vec![("id", id), ("database", Some("shop")), ("name", Some("orders"))];
    for key in ["alter", "create", "create view", "delete", "drop", "index", "insert", "references", "select",
        "show view", "trigger", "update"] {
        entries.push((key, Some(if key == "select" || key == "update" { "true" } else { "false" })));
    }
    form(&entries)
}

#[test]
fn privilege_dialog_gives_grant() {
    let p = privilege_from_dialog(&privilege_form(Some("67e55044-10b1-426f-9247-bb680e5fe0c8"))).unwrap();
    assert_eq!(p.id, 0x67e5504410b1426f9247bb680e5fe0c8);
    assert_eq!(p.db, "shop");
    assert_eq!(p.name, "orders");
    let mut expected = [false; 12];
    expected[8] = true;
    expected[11] = true;
    assert_eq!(p.privs, expected);
    assert!(privilege_from_dialog(&privilege_form(Some("bad"))).is_none());
    let fresh = privilege_from_dialog(&privilege_form(None)).unwrap();
    let mut e = editor(None, form(&[]), form(&[]));
    e.save_privilege(fresh, false, None);
    assert_eq!(e.privileges.len(), 1);
    let edited = privilege_from_dialog(&privilege_form(Some("67e55044-10b1-426f-9247-bb680e5fe0c8"))).unwrap();
    e.save_privilege(edited, true, Some(0));
    assert_eq!(e.privileges.len(), 1);
    assert_eq!(e.privileges[0].id, 0x67e5504410b1426f9247bb680e5fe0c8);
    let again = privilege_from_dialog(&privilege_form(None)).unwrap();
    e.save_privilege(again, true, None);
    assert_eq!(e.privileges.len(), 1);
}

fn member(user: (&str, &str), member: (&str, &str)) -> UserMember {
    UserMember {
        user_host: Some(user.1.to_string()),
        user_name: Some(user.0.to_string()),
        member_host: Some(member.1.to_string()),
        member_name: Some(member.0.to_string()),
        granted: true,
    }
}

#[test]
fn loading_an_account_fills_the_editor_and_its_baselines() {
    let mut u = user("app", "%");
    u.srv_privs[21] = true;
    u.max_queries = Some("10".to_string());
    let all = vec![user("root", "localhost"), user("app", "%"), user("reader", "%")];
    let mut e = UserDetailComponent::new();
    let grants = vec![Privilege { id: 1, db: "shop".to_string(), name: "orders".to_string(), privs: [true; 12] }];
    e.load_user(Version::Eight, &all, u, &vec![member(("root", "localhost"), ("app", "%"))], &vec![], grants);
    assert_eq!(e.old_user.as_ref().map(|u| u.name.clone()), Some("app".to_string()));
    assert!(e.srv_privs[21] && !e.srv_privs[0]);
    assert_eq!(e.form.get("Name"), Some(Some("app".to_string())));
    assert_eq!(e.form.get("Host"), Some(Some("%".to_string())));
    assert_eq!(e.form.get("Plugin"), Some(Some("caching_sha2_password".to_string())));
    assert_eq!(e.form.get("Password"), Some(None));
    assert_eq!(e.adv_form.get("Max queries per hour"), Some(Some("10".to_string())));
    assert_eq!(e.member_ofs.len(), 2);
    assert_eq!(e.member_ofs[0].user_name, Some("root".to_string()));
    assert!(e.member_ofs.iter().all(|m| m.granted));
    assert!(e.members.iter().all(|m| !m.granted));
    assert_eq!(e.old_member_ofs.len(), 2);
    assert_eq!(e.old_members[1].member_name, Some("reader".to_string()));
    assert_eq!(e.old_privileges.len(), 1);
    assert_eq!(e.old_privileges[0].name, "orders");
    assert_eq!(e.build_alter_ddl(&vec![], &vec![], &vec![]), "");
}

#[test]
fn loading_an_account_on_mysql_five_leaves_the_membership_tables() {
    let mut e = UserDetailComponent::new();
    e.load_user(Version::Five, &vec![user("root", "localhost")], user("app", "%"), &vec![], &vec![], vec![]);
    assert!(e.member_ofs.is_empty() && e.members.is_empty());
    assert!(matches!(e.db_version, Version::Five));
}

#[test]
fn a_new_account_has_empty_forms_and_ungranted_rows() {
    let mut e = UserDetailComponent::new();
    e.load_new_user(Version::Eight, &vec![user("root", "localhost"), user("app", "%")]);
    assert_eq!(e.form.get("Name"), Some(None));
    assert_eq!(e.form.get("Confirm Password"), Some(None));
    assert_eq!(e.adv_form.get("Max user connections"), Some(None));
    assert_eq!(e.member_ofs.len(), 2);
    assert_eq!(e.member_ofs[1].user_name, Some("app".to_string()));
    assert_eq!(e.member_ofs[1].member_name, None);
    assert_eq!(e.members[0].member_host, Some("localhost".to_string()));
    assert_eq!(e.members[0].user_name, None);
    assert!(e.member_ofs.iter().chain(e.members.iter()).all(|m| !m.granted));
    assert!(e.old_user.is_none());
}

#[test]
fn tabbing_right_then_left_returns_to_the_panel() {
    let mut e = UserDetailComponent::new();
    e.db_version = Version::Five;
    e.panel = PanelKind::Advanced;
    e.handle_tab_event(true);
    assert!(matches!(e.panel, PanelKind::ServerPrivs));
    e.handle_tab_event(false);
    assert!(matches!(e.panel, PanelKind::Advanced));
    e.db_version = Version::Eight;
    e.handle_tab_event(true);
    assert!(matches!(e.panel, PanelKind::MemberOf));
    e.handle_tab_event(false);
    assert!(matches!(e.panel, PanelKind::Advanced));
}

#[test]
fn a_save_with_differing_passwords_is_refused() {
    let mut e = UserDetailComponent::new();
    e.load_new_user(Version::Eight, &vec![]);
    e.form.set("Password", Some("a".to_string()));
    e.form.set("Confirm Password", Some("b".to_string()));
    match e.save_sql(&vec![], &vec![], &vec![]) {
        Err(err) => assert_eq!(err.message(), "Password is not same!"),
        Ok(_) => panic!("the save went through"),
    }
    e.form.set("Confirm Password", Some("a".to_string()));
    assert!(e.save_sql(&vec![], &vec![], &vec![]).is_ok());
}

#[test]
fn a_saved_account_becomes_the_baseline() {
    let mut e = UserDetailComponent::new();
    e.load_user(Version::Eight, &vec![user("root", "localhost")], user("app", "%"), &vec![], &vec![], vec![]);
    e.form.set("Host", Some("localhost".to_string()));
    e.members[0].granted = true;
    e.accept_saved();
    assert_eq!(e.old_user.as_ref().map(|u| u.host.clone()), Some("localhost".to_string()));
    assert!(e.old_members[0].granted);
    assert_eq!(e.build_alter_ddl(&vec![], &vec![], &vec![]), "");
}
