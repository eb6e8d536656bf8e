use sqltui::config::Config;
use sqltui::connection::{MySQLConnection, PGConnection};

fn mysql(id: u128, name: &str) -> MySQLConnection {
    MySQLConnection {
        id,
        name: name.to_string(),
        host: "localhost".to_string(),
        port: "3306".to_string(),
        user: "root".to_string(),
        password: "secret".to_string(),
        add_at: "2023-01-01T00:00:00+00:00".to_string(),
    }
}

fn pg(id: u128, name: &str) -> PGConnection {
    PGConnection {
        id,
        name: name.to_string(),
        host: "localhost".to_string(),
        port: "5432".to_string(),
        init_db: None,
        user: "postgres".to_string(),
        password: "secret".to_string(),
        add_at: "2023-01-01T00:00:00+00:00".to_string(),
    }
}

#[test]
fn new_config_is_empty() {
    let c = Config::new();
    assert_eq!(c.version, "0.1");
    assert!(c.get_mysql_connections().is_empty());
    assert!(c.get_pg_connections().is_empty());
}

#[test]
fn save_adds_then_replaces_by_id() {
    let mut c = Config::new();
    c.save_mysql_connection(&mysql(1, "a"));
    c.save_mysql_connection(&mysql(2, "b"));
    assert_eq!(c.get_mysql_connections().len(), 2);
    c.save_mysql_connection(&mysql(1, "renamed"));
    let conns = c.get_mysql_connections();
    assert_eq!(conns.len(), 2);
    assert_eq!(conns[0].name, "renamed");
    assert_eq!(conns[1].name, "b");
    assert!(c.get_pg_connections().is_empty());
}

#[test]
fn save_is_idempotent() {
    let mut c = Config::new();
    c.save_pg_connection(&pg(5, "x"));
    c.save_pg_connection(&pg(5, "x"));
    assert_eq!(c.get_pg_connections().len(), 1);
    assert_eq!(c.get_pg_connections()[0].name, "x");
}

#[test]
fn delete_undoes_save_of_new_connection() {
    let mut c = Config::new();
    c.save_mysql_connection(&mysql(1, "a"));
    c.save_mysql_connection(&mysql(9, "new"));
    c.delete_mysql_connection(9);
    let conns = c.get_mysql_connections();
    assert_eq!(conns.len(), 1);
    assert_eq!(conns[0].id, 1);
}

#[test]
fn delete_removes_only_that_id() {
    let mut c = Config::new();
    c.save_pg_connection(&pg(1, "a"));
    c.save_pg_connection(&pg(2, "b"));
    c.save_mysql_connection(&mysql(2, "m"));
    c.delete_pg_connection(2);
    assert_eq!(c.get_pg_connections().len(), 1);
    assert_eq!(c.get_pg_connections()[0].id, 1);
    assert_eq!(c.get_mysql_connections().len(), 1);
    c.delete_pg_connection(42);
    assert_eq!(c.get_pg_connections().len(), 1);
}

#[test]
fn duplicate_copies_connection() {
    let a = mysql(3, "a");
    let b = a.duplicate();
    assert_eq!(b.id, 3);
    assert_eq!(b.name, "a");
    assert_eq!(b.password, "secret");
    let p = pg(4, "p").duplicate();
    assert_eq!(p.port, "5432");
}
