use sqltui::app::{ComponentResult, DatabaseKind, Focus, Goto};
use sqltui::connection_list::{ConnectionListComponent, TreeAction, TreeCommand, TreeItem};

fn tree() -> ConnectionListComponent {
    ConnectionListComponent::new(&vec![
        (1, "mysql local".to_string(), DatabaseKind::MySQL),
        (2, "pg local".to_string(), DatabaseKind::PostgreSQL),
    ])
}

fn row_name(item: &TreeItem) -> String {
    match item {
        TreeItem::Connection(c) => format!("conn:{}", c.name),
        TreeItem::Database(d) => format!("db:{}", d.name),
        TreeItem::Schema(s) => format!("schema:{}", s.name),
        TreeItem::Query(x) => format!("query:{}", x.db_name),
        TreeItem::Table(x) => format!("table:{}", x.db_name),
        TreeItem::View(x) => format!("view:{}", x.db_name),
    }
}

fn shown(t: &ConnectionListComponent) -> Vec<String> {
    t.show_items.iter().map(row_name).collect()
}

fn all(t: &ConnectionListComponent) -> Vec<String> {
    t.tree_items.iter().map(row_name).collect()
}

fn open_connection(t: &mut ConnectionListComponent, index: usize, dbs: &[&str]) {
    t.selected = Some(index);
    let action = t.handle_main_event(TreeCommand::Confirm);
    match action {
        TreeAction::ToggleConnection(c) => {
            let names: Vec<String> = dbs.iter().map(|s| s.to_string()).collect();
            t.set_conn_items_collapsed(&c, !c.is_collapsed, &names);
        }
        _ => panic!("expected a connection toggle"),
    }
}

#[test]
fn new_tree_shows_collapsed_connections() {
    let t = tree();
    assert_eq!(shown(&t), vec!["conn:mysql local", "conn:pg local"]);
    assert!(t.selected.is_none());
    match &t.tree_items[0] {
        TreeItem::Connection(c) => {
            assert_eq!(c.id, 1);
            assert!(c.is_collapsed);
            assert!(!c.is_open);
        }
        _ => panic!("expected a connection"),
    }
}

#[test]
fn commands_without_selection() {
    let t = tree();
    assert!(t.get_main_commands() == vec![("New Connection", TreeCommand::New), ("Down", TreeCommand::Down)]);
    let empty = ConnectionListComponent::new(&vec![]);
    assert!(empty.get_main_commands() == vec![("New Connection", TreeCommand::New)]);
}

#[test]
fn up_down_cancel_move_selection() {
    let mut t = tree();
    assert!(matches!(t.handle_main_event(TreeCommand::Down), TreeAction::Nothing));
    assert_eq!(t.selected, Some(0));
    t.handle_main_event(TreeCommand::Down);
    t.handle_main_event(TreeCommand::Down);
    assert_eq!(t.selected, Some(1));
    t.handle_main_event(TreeCommand::Up);
    t.handle_main_event(TreeCommand::Up);
    assert_eq!(t.selected, Some(0));
    t.handle_main_event(TreeCommand::Cancel);
    assert_eq!(t.selected, None);
    let mut empty = ConnectionListComponent::new(&vec![]);
    empty.handle_main_event(TreeCommand::Down);
    assert_eq!(empty.selected, None);
}

#[test]
fn commands_of_a_selected_connection() {
    let mut t = tree();
    t.selected = Some(0);
    assert!(t.get_main_commands() == vec![
        ("New Database", TreeCommand::New),
        ("Edit", TreeCommand::Edit),
        ("Delete", TreeCommand::Delete),
        ("Users", TreeCommand::Users),
        ("Open/Close", TreeCommand::Confirm),
        ("Down", TreeCommand::Down),
        ("Cancel", TreeCommand::Cancel),
    ]);
    t.selected = Some(1);
    let cmds = t.get_main_commands();
    assert!(cmds[5] == ("Up", TreeCommand::Up));
    assert!(cmds[6] == ("Cancel", TreeCommand::Cancel));
}

#[test]
fn users_right_new_edit_delete_answers() {
    let mut t = tree();
    t.selected = Some(0);
    assert!(matches!(t.handle_main_event(TreeCommand::Users),
        TreeAction::Answer(ComponentResult::Goto(Goto::UserListMySQL { conn_id: 1 }))));
    t.selected = Some(1);
    assert!(matches!(t.handle_main_event(TreeCommand::Users),
        TreeAction::Answer(ComponentResult::Goto(Goto::RoleListPG { conn_id: 2 }))));
    assert!(matches!(t.handle_main_event(TreeCommand::Right),
        TreeAction::Answer(ComponentResult::Focus(Focus::MainPanel))));
    assert!(matches!(t.handle_main_event(TreeCommand::New),
        TreeAction::NewDatabase { conn_id: 2, kind: DatabaseKind::PostgreSQL }));
    assert!(matches!(t.handle_main_event(TreeCommand::Edit),
        TreeAction::EditConnection { conn_id: 2, kind: DatabaseKind::PostgreSQL }));
    assert!(matches!(t.handle_main_event(TreeCommand::Delete), TreeAction::ConfirmDeleteConnection));
    t.selected = None;
    assert!(matches!(t.handle_main_event(TreeCommand::New), TreeAction::ChooseConnectionKind));
    assert!(matches!(t.handle_main_event(TreeCommand::Other), TreeAction::Nothing));
}

#[test]
fn opening_mysql_connection_and_database() {
    let mut t = tree();
    t.selected = Some(0);
    let action = t.handle_main_event(TreeCommand::Confirm);
    assert!(ConnectionListComponent::needs_loading(&action));
    open_connection(&mut t, 0, &["shop", "blog"]);
    assert_eq!(all(&t), vec!["conn:mysql local", "db:shop", "db:blog", "conn:pg local"]);
    assert_eq!(shown(&t), all(&t));
    match &t.tree_items[0] {
        TreeItem::Connection(c) => assert!(c.is_open && !c.is_collapsed),
        _ => panic!("expected a connection"),
    }
    t.selected = Some(1);
    let action = t.handle_main_event(TreeCommand::Confirm);
    assert!(!ConnectionListComponent::needs_loading(&action));
    match action {
        TreeAction::ToggleDatabase(d) => t.set_db_items_collapsed(&d, false, &vec![]),
        _ => panic!("expected a database toggle"),
    }
    assert_eq!(shown(&t), vec![
        "conn:mysql local", "db:shop", "query:shop", "table:shop", "view:shop", "db:blog", "conn:pg local",
    ]);
    t.selected = Some(3);
    assert!(matches!(t.handle_main_event(TreeCommand::Confirm),
        TreeAction::Answer(ComponentResult::Goto(Goto::TableListMySQL { conn_id: 1, .. }))));
    t.selected = Some(2);
    match t.handle_main_event(TreeCommand::Confirm) {
        TreeAction::Answer(ComponentResult::Goto(Goto::QueryList { conn_id, db_name, kind })) => {
            assert_eq!(conn_id, 1);
            assert_eq!(db_name, "shop");
            assert!(kind == DatabaseKind::MySQL);
        }
        _ => panic!("expected the query list"),
    }
    t.selected = Some(2);
    assert!(t.get_main_commands() == vec![
        ("Open", TreeCommand::Confirm), ("Up", TreeCommand::Up), ("Down", TreeCommand::Down), ("Cancel", TreeCommand::Cancel),
    ]);
}

#[test]
fn collapsing_connection_hides_its_rows_and_reopening_reads_nothing() {
    let mut t = tree();
    open_connection(&mut t, 0, &["shop"]);
    assert_eq!(shown(&t).len(), 3);
    open_connection(&mut t, 0, &[]);
    assert_eq!(shown(&t), vec!["conn:mysql local", "conn:pg local"]);
    assert_eq!(all(&t).len(), 3);
    t.selected = Some(0);
    let action = t.handle_main_event(TreeCommand::Confirm);
    assert!(!ConnectionListComponent::needs_loading(&action));
    open_connection(&mut t, 0, &["ignored"]);
    assert_eq!(shown(&t), vec!["conn:mysql local", "db:shop", "conn:pg local"]);
}

#[test]
fn postgres_schema_rows_and_list_goto() {
    let mut t = tree();
    open_connection(&mut t, 1, &["pgdb"]);
    t.selected = Some(2);
    assert!(t.get_main_commands()[0] == ("New Schema", TreeCommand::New));
    let action = t.handle_main_event(TreeCommand::Confirm);
    assert!(ConnectionListComponent::needs_loading(&action));
    match action {
        TreeAction::ToggleDatabase(d) => t.set_db_items_collapsed(&d, false, &vec!["public".to_string()]),
        _ => panic!("expected a database toggle"),
    }
    assert_eq!(all(&t), vec![
        "conn:mysql local", "conn:pg local", "db:pgdb", "schema:public", "query:pgdb", "table:pgdb", "view:pgdb",
    ]);
    assert_eq!(shown(&t), vec!["conn:mysql local", "conn:pg local", "db:pgdb", "schema:public"]);
    t.selected = Some(3);
    assert!(matches!(t.handle_main_event(TreeCommand::Confirm), TreeAction::Nothing));
    assert_eq!(shown(&t).len(), 7);
    t.selected = Some(5);
    match t.handle_main_event(TreeCommand::Confirm) {
        TreeAction::Answer(ComponentResult::Goto(Goto::TableListPG { conn_id, db_name, schema_name })) => {
            assert_eq!(conn_id, 2);
            assert_eq!(db_name, "pgdb");
            assert_eq!(schema_name, "public");
        }
        _ => panic!("expected the table list"),
    }
    t.selected = Some(3);
    match t.handle_main_event(TreeCommand::Edit) {
        TreeAction::EditSchema { conn_id, db_name, schema_name } => {
            assert_eq!(conn_id, 2);
            assert_eq!(db_name, "pgdb");
            assert_eq!(schema_name, "public");
        }
        _ => panic!("expected a schema edit"),
    }
    t.handle_main_event(TreeCommand::Confirm);
    assert_eq!(shown(&t).len(), 4);
}

#[test]
fn renaming_database_renames_its_rows() {
    let mut t = tree();
    open_connection(&mut t, 1, &["pgdb"]);
    t.selected = Some(2);
    if let TreeAction::ToggleDatabase(d) = t.handle_main_event(TreeCommand::Confirm) {
        t.set_db_items_collapsed(&d, false, &vec!["public".to_string()]);
    }
    let db_id = match &t.tree_items[2] {
        TreeItem::Database(d) => d.id,
        _ => panic!("expected a database"),
    };
    t.rename_pg_db_item(db_id, "renamed".to_string());
    assert_eq!(all(&t)[2..].to_vec(), vec!["db:renamed", "schema:public", "query:renamed", "table:renamed", "view:renamed"]);
    match &t.tree_items[3] {
        TreeItem::Schema(s) => assert_eq!(s.db_name, "renamed"),
        _ => panic!("expected a schema"),
    }
    let schema_id = match &t.tree_items[3] {
        TreeItem::Schema(s) => s.id,
        _ => panic!("expected a schema"),
    };
    t.rename_pg_schema_item(schema_id, "app".to_string());
    match &t.tree_items[5] {
        TreeItem::Table(x) => assert_eq!(x.schema_name.as_deref(), Some("app")),
        _ => panic!("expected a table list"),
    }
}

#[test]
fn deleting_removes_exactly_the_rows_of_the_item() {
    let mut t = tree();
    open_connection(&mut t, 0, &["shop", "blog"]);
    t.selected = Some(1);
    let shop_id = match &t.show_items[1] {
        TreeItem::Database(d) => d.id,
        _ => panic!("expected a database"),
    };
    t.delete_database_items(shop_id);
    assert_eq!(all(&t), vec!["conn:mysql local", "db:blog", "conn:pg local"]);
    assert!(t.selected.is_none());
    t.delete_connection_items(1);
    assert_eq!(all(&t), vec!["conn:pg local"]);
    assert_eq!(shown(&t), vec!["conn:pg local"]);
}

#[test]
fn adding_database_and_schema_after_selection() {
    let mut t = tree();
    t.selected = Some(0);
    t.add_database_item("fresh".to_string(), DatabaseKind::MySQL);
    assert_eq!(all(&t), vec!["conn:mysql local", "db:fresh", "conn:pg local"]);
    assert_eq!(shown(&t), vec!["conn:mysql local", "db:fresh", "conn:pg local"]);
    match &t.tree_items[1] {
        TreeItem::Database(d) => {
            assert_eq!(d.conn_id, 1);
            assert!(d.is_collapsed);
            assert!(d.is_conn_collapsed);
        }
        _ => panic!("expected a database"),
    }
    t.selected = Some(1);
    t.add_database_item("x".to_string(), DatabaseKind::MySQL);
    assert_eq!(all(&t).len(), 3);

    let mut p = tree();
    open_connection(&mut p, 1, &["pgdb"]);
    p.selected = Some(2);
    p.add_schema_item("sales".to_string());
    assert_eq!(all(&p), vec!["conn:mysql local", "conn:pg local", "db:pgdb", "schema:sales", "query:pgdb", "table:pgdb", "view:pgdb"]);
    assert_eq!(shown(&p), vec!["conn:mysql local", "conn:pg local", "db:pgdb", "schema:sales"]);
}

#[test]
fn saving_connection_renames_or_appends() {
    let mut t = tree();
    t.save_connection_item(2, "pg remote".to_string(), DatabaseKind::PostgreSQL);
    assert_eq!(all(&t), vec!["conn:mysql local", "conn:pg remote"]);
    assert_eq!(shown(&t), vec!["conn:mysql local", "conn:pg remote"]);
    t.save_connection_item(3, "third".to_string(), DatabaseKind::MySQL);
    assert_eq!(all(&t), vec!["conn:mysql local", "conn:pg remote", "conn:third"]);
    assert_eq!(shown(&t).len(), 3);
    t.save_connection_item(3, "third".to_string(), DatabaseKind::MySQL);
    assert_eq!(all(&t).len(), 3);
}
