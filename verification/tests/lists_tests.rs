use sqltui::app::{ComponentResult, DatabaseKind, Focus, Goto};
use sqltui::lists::{ListAction, ListCommand, QueryListComponent, TableListComponent, UserListComponent, ViewListComponent};

fn names(v: &[&str]) -> Vec<String> {
    v.iter().map(|s| s.to_string()).collect()
}

#[test]
fn query_list_opens_and_deletes_queries() {
    let mut q = QueryListComponent::new();
    assert!(q.kind == DatabaseKind::MySQL);
    q.set_data(3, "shop".to_string(), DatabaseKind::PostgreSQL, names(&["top sellers", "stock"]));
    assert!(matches!(q.handle_main_event(ListCommand::Confirm), ListAction::Nothing));
    assert!(matches!(q.handle_main_event(ListCommand::Delete), ListAction::Nothing));
    q.handle_main_event(ListCommand::Down);
    q.handle_main_event(ListCommand::Down);
    assert_eq!(q.selected, Some(1));
    match q.handle_main_event(ListCommand::Confirm) {
        ListAction::Answer(ComponentResult::Goto(Goto::QueryDetailPG { conn_id, db_name, query_name })) => {
            assert_eq!(conn_id, 3);
            assert_eq!(db_name, "shop");
            assert_eq!(query_name.as_deref(), Some("stock"));
        }
        _ => panic!("expected the query editor"),
    }
    assert!(matches!(q.handle_main_event(ListCommand::New),
        ListAction::Answer(ComponentResult::Goto(Goto::QueryDetailPG { query_name: None, .. }))));
    assert!(matches!(q.handle_main_event(ListCommand::Delete), ListAction::ConfirmDelete));
    assert!(matches!(q.handle_main_event(ListCommand::Left), ListAction::Answer(ComponentResult::Focus(Focus::LeftPanel))));
    assert!(matches!(q.handle_main_event(ListCommand::Refresh), ListAction::Reload));
    let cmds: Vec<&str> = q.get_main_commands().iter().map(|c| c.0).collect();
    assert_eq!(cmds, vec!["Up", "Down", "New Query", "Open Query", "Delete Query", "To Connections"]);
    q.remove_selected();
    assert_eq!(q.names, names(&["top sellers"]));
    assert_eq!(q.selected, None);
    let cmds: Vec<&str> = q.get_main_commands().iter().map(|c| c.0).collect();
    assert_eq!(cmds, vec!["Up", "Down", "New Query", "To Connections"]);
}

fn tables() -> TableListComponent {
    TableListComponent {
        conn_id: Some(1),
        db_name: Some("app".to_string()),
        schema_name: Some("public".to_string()),
        names: names(&["orders", "users"]),
        selected: None,
    }
}

#[test]
fn table_list_opens_rows_and_editor() {
    let mut t = tables();
    assert!(matches!(t.handle_main_event(ListCommand::Edit), ListAction::Nothing));
    assert!(matches!(t.handle_main_event(ListCommand::Delete), ListAction::ConfirmDelete));
    assert!(t.drop_statement().is_none());
    t.handle_main_event(ListCommand::Up);
    assert_eq!(t.selected, Some(0));
    match t.handle_main_event(ListCommand::Confirm) {
        ListAction::Answer(ComponentResult::Goto(Goto::DataListPG { conn_id, db_name, schema_name, table_name })) => {
            assert_eq!(conn_id, 1);
            assert_eq!(db_name, "app");
            assert_eq!(schema_name, "public");
            assert_eq!(table_name, "orders");
        }
        _ => panic!("expected the rows of the table"),
    }
    match t.handle_main_event(ListCommand::Edit) {
        ListAction::Answer(ComponentResult::Goto(Goto::TableDetailPG { table_name, .. })) => {
            assert_eq!(table_name.as_deref(), Some("orders"));
        }
        _ => panic!("expected the table editor"),
    }
    assert!(matches!(t.handle_main_event(ListCommand::New),
        ListAction::Answer(ComponentResult::Goto(Goto::TableDetailPG { table_name: None, .. }))));
    assert_eq!(t.drop_statement().as_deref(), Some("DROP TABLE IF EXISTS \"orders\""));
    let cmds: Vec<&str> = t.get_main_commands().iter().map(|c| c.0).collect();
    assert_eq!(cmds, vec!["Up", "Down", "New Table", "Open Table", "Edit Table", "Delete Table", "Refresh", "To Connections"]);
    t.remove_selected();
    assert_eq!(t.names, names(&["users"]));
    let empty = TableListComponent::new();
    assert!(empty.names.is_empty());
}

#[test]
fn view_list_opens_rows_and_editor() {
    let mut v = ViewListComponent {
        conn_id: Some(2),
        db_name: Some("app".to_string()),
        schema_name: Some("report".to_string()),
        names: names(&["daily"]),
        selected: Some(0),
    };
    assert!(matches!(v.handle_main_event(ListCommand::Confirm),
        ListAction::Answer(ComponentResult::Goto(Goto::DataListPG { conn_id: 2, .. }))));
    match v.handle_main_event(ListCommand::Edit) {
        ListAction::Answer(ComponentResult::Goto(Goto::ViewDetailPG { schema_name, view_name, .. })) => {
            assert_eq!(schema_name, "report");
            assert_eq!(view_name.as_deref(), Some("daily"));
        }
        _ => panic!("expected the view editor"),
    }
    assert_eq!(v.drop_statement().as_deref(), Some("DROP VIEW \"daily\""));
    v.handle_main_event(ListCommand::Down);
    assert_eq!(v.selected, Some(0));
    let cmds: Vec<&str> = v.get_main_commands().iter().map(|c| c.0).collect();
    assert_eq!(cmds, vec!["Up", "Down", "New View", "Open View", "Edit View", "Delete View", "Refresh", "To Connections"]);
    v.remove_selected();
    assert!(v.names.is_empty());
    let cmds: Vec<&str> = ViewListComponent::new().get_main_commands().iter().map(|c| c.0).collect();
    assert_eq!(cmds, vec!["Up", "Down", "New View", "Refresh", "To Connections"]);
}

#[test]
fn user_list_opens_accounts() {
    let mut u = UserListComponent::new();
    u.conn_id = Some(9);
    u.set_users(vec![("%".to_string(), "app".to_string()), ("localhost".to_string(), "root".to_string())]);
    assert!(matches!(u.handle_main_event(ListCommand::New),
        ListAction::Answer(ComponentResult::Goto(Goto::UserDetailMySQL { conn_id: 9, user_host: None, user_name: None }))));
    u.handle_main_event(ListCommand::Down);
    u.handle_main_event(ListCommand::Down);
    match u.handle_main_event(ListCommand::Confirm) {
        ListAction::Answer(ComponentResult::Goto(Goto::UserDetailMySQL { user_host, user_name, .. })) => {
            assert_eq!(user_host.as_deref(), Some("localhost"));
            assert_eq!(user_name.as_deref(), Some("root"));
        }
        _ => panic!("expected the account editor"),
    }
    assert_eq!(u.drop_statement().as_deref(), Some("DROP USER 'root'@'localhost'"));
    let cmds: Vec<&str> = u.get_main_commands().iter().map(|c| c.0).collect();
    assert_eq!(cmds, vec!["Up", "Down", "New User", "Open User", "Delete User", "To Connections", "Refresh"]);
    u.remove_selected();
    assert_eq!(u.users.len(), 1);
    assert_eq!(u.selected, None);
}
