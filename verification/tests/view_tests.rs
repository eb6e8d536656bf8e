use sqltui::form::FormData;
use sqltui::mysql_view::ViewDetailComponent;
use sqltui::pg_view;
use sqltui::pg_view::PgView;

fn form(entries: &[(&str, Option<&str>)]) -> FormData {
    FormData {
        entries: entries.iter().map(|(k, v)| (k.to_string(), v.map(|s| s.to_string()))).collect(),
    }
}

fn mysql_view(name: Option<&str>, f: FormData, old: FormData) -> ViewDetailComponent {
    ViewDetailComponent {
        view_name: name.map(|s| s.to_string()),
        form: f,
        old_form: old,
        definition: vec!["SELECT id".to_string(), "FROM users".to_string()],
        old_definition: vec!["SELECT id".to_string(), "FROM users".to_string()],
    }
}

#[test]
fn mysql_create_view_statement() {
    let f = form(&[("Algorithm", Some("MERGE")), ("Definer", Some("`root`@`%`")), ("Check Option", Some("LOCAL")),
        ("Security", Some("INVOKER"))]);
    let v = mysql_view(None, f, FormData::new());
    assert_eq!(v.build_create_ddl(Some("active")),
        "CREATE ALGORITHM=MERGE DEFINER = `root`@`%` SQL SECURITY INVOKER VIEW `active` AS SELECT id\nFROM users WITH LOCAL CHECK OPTION");
    let f = form(&[("Algorithm", None), ("Definer", Some("")), ("Check Option", None), ("Security", None)]);
    let v = mysql_view(None, f, FormData::new());
    assert_eq!(v.build_sql(None), "CREATE VIEW `new view` AS SELECT id\nFROM users");
}

#[test]
fn mysql_alter_view_writes_changed_clauses() {
    let old = form(&[("Algorithm", Some("MERGE")), ("Definer", Some("a")), ("Check Option", Some("NONE")),
        ("Security", Some("DEFINER"))]);
    let new = form(&[("Algorithm", Some("TEMPTABLE")), ("Definer", Some("a")), ("Check Option", Some("NONE")),
        ("Security", Some("INVOKER"))]);
    let v = mysql_view(Some("active"), new, old);
    assert_eq!(v.build_sql(None), "ALTER ALGORITHM=TEMPTABLE SQL SECURITY INVOKER VIEW `active` AS SELECT id\nFROM users");
}

#[test]
fn mysql_view_loaded_and_new() {
    let mut v = mysql_view(None, FormData::new(), FormData::new());
    v.set_view("active".to_string(), Some("MERGE".to_string()), "`root`@`%`".to_string(), "NONE".to_string(), "DEFINER".to_string(),
        "select 1".to_string());
    assert_eq!(v.form.get("Algorithm"), Some(Some("MERGE".to_string())));
    assert_eq!(v.form.get("Definer"), Some(Some("`root`@`%`".to_string())));
    assert_eq!(v.old_form.get("Security"), Some(Some("DEFINER".to_string())));
    assert_eq!(v.definition, vec!["select 1".to_string()]);
    assert_eq!(v.build_alter_ddl(), "ALTER VIEW `active` AS select 1");
    assert_eq!(v.view_name, Some("active".to_string()));
    assert_eq!(v.old_definition, vec!["select 1".to_string()]);
    v.set_new_view();
    assert_eq!(v.view_name, None);
    assert_eq!(v.form.get("Definer"), Some(None));
    assert_eq!(v.definition, vec![String::new()]);
    assert_eq!(v.old_definition, vec![String::new()]);
}

fn pg_view_editor(view: Option<PgView>, definition: &[&str], comment: &[&str], owner: Option<&str>) -> pg_view::ViewDetailComponent {
    pg_view::ViewDetailComponent {
        schema_name: Some("public".to_string()),
        view,
        definition: definition.iter().map(|s| s.to_string()).collect(),
        comment: comment.iter().map(|s| s.to_string()).collect(),
        owner: owner.map(|s| s.to_string()),
    }
}

fn stored() -> PgView {
    PgView {
        name: "v".to_string(),
        definition: "select 1".to_string(),
        owner: Some("me".to_string()),
        comment: "c".to_string(),
    }
}

#[test]
fn pg_create_view_statements() {
    let e = pg_view_editor(None, &["select 1"], &["hello"], Some("me"));
    assert_eq!(e.build_create_ddl(None, &vec!["CREATE RULE r;".to_string()]),
        "CREATE VIEW \"new view\" AS select 1\nALTER VIEW \"new view\" OWNER TO me\nCREATE RULE r;\nCOMMENT ON hello");
    let e = pg_view_editor(None, &["select 1"], &[""], None);
    assert_eq!(e.build_create_ddl(Some("w"), &vec![]), "CREATE VIEW \"w\" AS select 1\n\n\n");
}

#[test]
fn pg_alter_view_statements() {
    let e = pg_view_editor(Some(stored()), &["select 1"], &["c"], Some("me"));
    assert_eq!(e.build_alter_ddl(&vec![], &vec![], &vec![]), "");
    let e = pg_view_editor(Some(stored()), &["select 1"], &["d"], None);
    assert_eq!(e.build_alter_ddl(&vec![], &vec!["ALTER RULE;".to_string()], &vec![]),
        "ALTER RULE;\nALTER VIEW \"public\".\"v\" OWNER TO CURRENT_ROLE\nCOMMENT ON VIEW \"public\".\"v\" IS 'd'");
    let e = pg_view_editor(Some(stored()), &["select 2"], &["c"], Some("me"));
    assert_eq!(e.build_alter_ddl(&vec![], &vec!["ignored".to_string()], &vec![]),
        "DROP VIEW \"public\".\"v\"\nCREATE VIEW \"v\" AS select 2\nALTER VIEW \"v\" OWNER TO me\n\nCOMMENT ON c");
    let none = pg_view_editor(None, &["x"], &[""], None);
    assert_eq!(none.build_alter_ddl(&vec![], &vec![], &vec![]), "");
}

#[test]
fn pg_view_save_chooses_create_or_alter() {
    let e = pg_view_editor(Some(stored()), &["select 1"], &["c"], Some("other"));
    assert_eq!(e.build_sql(None, &vec![], &vec![], &vec![]), "ALTER VIEW \"public\".\"v\" OWNER TO other");
    let e = pg_view_editor(None, &["select 1"], &[""], None);
    assert_eq!(e.build_sql(Some("w"), &vec![], &vec![], &vec![]), "CREATE VIEW \"w\" AS select 1\n\n\n");
}

#[test]
fn a_saved_view_becomes_the_baseline() {
    let mut v = mysql_view(Some("active"), FormData::new(), FormData::new());
    v.set_view("active".to_string(), Some("MERGE".to_string()), "`root`@`%`".to_string(), "NONE".to_string(),
        "DEFINER".to_string(), "select 1".to_string());
    v.form.set("Algorithm", Some("TEMPTABLE".to_string()));
    v.definition = vec!["select 2".to_string()];
    v.accept_saved();
    assert_eq!(v.old_form.get("Algorithm"), Some(Some("TEMPTABLE".to_string())));
    assert_eq!(v.old_definition, vec!["select 2".to_string()]);
}
