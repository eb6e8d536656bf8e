use sqltui::database::{generate_mysql_database, generate_pg_database, generate_pg_schema, pg_database_changes,
    schema_changes, DatabaseFormError, PGDatabase, Schema};
use sqltui::form::FormData;

fn form(entries: &[(&str, Option<&str>)]) -> FormData {
    FormData {
        entries: entries.iter().map(|(k, v)| (k.to_string(), v.map(|s| s.to_string()))).collect(),
    }
}

fn pg_form(name: Option<&str>, allow: Option<&str>, template: Option<&str>) -> FormData {
    form(&[
        ("name", name),
        ("owner", Some("postgres")),
        ("collation order", None),
        ("character class", None),
        ("template", Some("template0")),
        ("tablespace", None),
        ("connection limit", Some("10")),
        ("allow connection", allow),
        ("is template", template),
    ])
}

#[test]
fn mysql_database_from_form() {
    let db = generate_mysql_database(&form(&[("name", Some("shop")), ("character set", Some("utf8mb4")), ("collation", None)]))
        .ok().unwrap();
    assert_eq!(db.name, "shop");
    assert_eq!(db.character_set.as_deref(), Some("utf8mb4"));
    assert!(db.collation.is_none());
    let r = generate_mysql_database(&form(&[("name", None), ("character set", None), ("collation", None)]));
    assert!(matches!(r, Err(DatabaseFormError::MissingName)));
}

#[test]
fn pg_database_flags_read_true_or_capital_true() {
    let db = generate_pg_database(&pg_form(Some("app"), Some("true"), Some("True"))).ok().unwrap();
    assert_eq!(db.name, "app");
    assert_eq!(db.owner.as_deref(), Some("postgres"));
    assert_eq!(db.template.as_deref(), Some("template0"));
    assert_eq!(db.connection_limit.as_deref(), Some("10"));
    assert!(db.allow_connection);
    assert!(db.is_template);
    let db = generate_pg_database(&pg_form(Some("app"), Some("TRUE"), Some("false"))).ok().unwrap();
    assert!(!db.allow_connection);
    assert!(!db.is_template);
}

#[test]
fn pg_database_form_errors_in_order() {
    assert!(matches!(generate_pg_database(&pg_form(None, None, None)), Err(DatabaseFormError::MissingName)));
    assert!(matches!(generate_pg_database(&pg_form(Some("a"), None, None)), Err(DatabaseFormError::MissingAllowConnection)));
    assert!(matches!(generate_pg_database(&pg_form(Some("a"), Some("true"), None)), Err(DatabaseFormError::MissingIsTemplate)));
    assert_eq!(DatabaseFormError::MissingName.message(), "cannot get name");
    assert_eq!(DatabaseFormError::MissingAllowConnection.message(), "cannot get allow connection");
    assert_eq!(DatabaseFormError::MissingIsTemplate.message(), "canot get is template");
}

#[test]
fn schema_from_form() {
    let s = generate_pg_schema(&form(&[("name", Some("sales")), ("owner", None)])).ok().unwrap();
    assert_eq!(s.name, "sales");
    assert!(s.owner.is_none());
    assert!(matches!(generate_pg_schema(&form(&[("name", None), ("owner", None)])), Err(DatabaseFormError::MissingName)));
}

fn pgdb(name: &str, owner: Option<&str>, limit: Option<&str>, allow: bool) -> PGDatabase {
    PGDatabase {
        name: name.to_string(),
        owner: owner.map(|s| s.to_string()),
        collation_order: None,
        character_class: None,
        template: None,
        tablespace: None,
        connection_limit: limit.map(|s| s.to_string()),
        allow_connection: allow,
        is_template: false,
    }
}

#[test]
fn database_edit_changes() {
    let old = pgdb("a", Some("me"), None, true);
    let c = pg_database_changes(&pgdb("a", Some("me"), None, true), &old);
    assert!(!c.rename && !c.owner && !c.tablespace && !c.options);
    let c = pg_database_changes(&pgdb("b", None, Some("5"), true), &old);
    assert!(c.rename && c.owner && !c.tablespace && c.options);
    let c = pg_database_changes(&pgdb("a", Some("me"), None, false), &old);
    assert!(!c.rename && c.options);
}

#[test]
fn schema_edit_changes() {
    let old = Schema { name: "s".to_string(), owner: Some("me".to_string()) };
    assert_eq!(schema_changes(&Schema { name: "s".to_string(), owner: Some("me".to_string()) }, &old), (false, false));
    assert_eq!(schema_changes(&Schema { name: "t".to_string(), owner: None }, &old), (true, true));
}
