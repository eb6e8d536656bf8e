use sqltui::connection::{generate_mysql_connection, generate_pg_connection, ConnectionFormError};
use sqltui::form::FormData;

fn form(entries: &[(&str, Option<&str>)]) -> FormData {
    FormData {
        entries: entries.iter().map(|(k, v)| (k.to_string(), v.map(|s| s.to_string()))).collect(),
    }
}

fn full(id: Option<&str>, port: Option<&str>) -> FormData {
    form(&[
        ("id", id),
        ("name", Some("local")),
        ("host", Some("127.0.0.1")),
        ("port", port),
        ("init db", Some("postgres")),
        ("user", Some("root")),
        ("password", Some("pw")),
    ])
}

#[test]
fn mysql_connection_reads_form_and_parses_id() {
    let c = generate_mysql_connection(&full(Some("67e55044-10b1-426f-9247-bb680e5fe0c8"), Some("3307"))).ok().unwrap();
    assert_eq!(c.id, 0x67e5504410b1426f9247bb680e5fe0c8);
    assert_eq!(c.name, "local");
    assert_eq!(c.host, "127.0.0.1");
    assert_eq!(c.port, "3307");
    assert_eq!(c.user, "root");
    assert_eq!(c.password, "pw");
    assert!(c.add_at.ends_with('Z'));
}

#[test]
fn empty_port_defaults_to_3306() {
    let c = generate_mysql_connection(&full(None, None)).ok().unwrap();
    assert_eq!(c.port, "3306");
    let p = generate_pg_connection(&full(None, None)).ok().unwrap();
    assert_eq!(p.port, "3306");
    assert_eq!(p.init_db.as_deref(), Some("postgres"));
}

#[test]
fn missing_id_gives_fresh_ids() {
    let a = generate_mysql_connection(&full(None, None)).ok().unwrap();
    let b = generate_mysql_connection(&full(None, None)).ok().unwrap();
    assert_ne!(a.id, b.id);
}

#[test]
fn invalid_id_is_an_error() {
    let r = generate_pg_connection(&full(Some("not-a-uuid"), None));
    let expected = uuid::Uuid::parse_str("not-a-uuid").unwrap_err().to_string();
    match r {
        Err(e) => {
            assert!(matches!(e, ConnectionFormError::InvalidId(_)));
            assert_eq!(e.message(true), expected);
        },
        Ok(_) => panic!("an invalid id was accepted"),
    }
}

#[test]
fn missing_fields_give_their_errors_in_order() {
    let f = form(&[("name", None), ("host", None), ("port", None), ("user", None), ("password", None)]);
    assert!(matches!(generate_mysql_connection(&f), Err(ConnectionFormError::MissingName)));
    let f = form(&[("name", Some("n")), ("host", None), ("port", None), ("user", None), ("password", None)]);
    assert!(matches!(generate_mysql_connection(&f), Err(ConnectionFormError::MissingHost)));
    let f = form(&[("name", Some("n")), ("host", Some("h")), ("port", None), ("user", None), ("password", None)]);
    assert!(matches!(generate_mysql_connection(&f), Err(ConnectionFormError::MissingUser)));
    let f = form(&[("name", Some("n")), ("host", Some("h")), ("port", None), ("user", Some("u")), ("password", None)]);
    assert!(matches!(generate_mysql_connection(&f), Err(ConnectionFormError::MissingPassword)));
}

#[test]
fn error_messages() {
    assert_eq!(ConnectionFormError::MissingName.message(false), "cannot get name");
    assert_eq!(ConnectionFormError::MissingHost.message(true), "cannot get host");
    assert_eq!(ConnectionFormError::MissingUser.message(false), "cannot get user");
    assert_eq!(ConnectionFormError::MissingPassword.message(false), "cannot get password");
    assert_eq!(ConnectionFormError::MissingPassword.message(true), "cannot get passowrd");
    assert_eq!(ConnectionFormError::InvalidId("bad".to_string()).message(true), "bad");
}
