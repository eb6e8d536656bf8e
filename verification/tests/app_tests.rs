use sqltui::app::{Action, App, ComponentResult, DatabaseKind, Focus, Goto, MainPanel, Target};
use sqltui::command_bar::{left_key, quit_app_key, CommandBarComponent, Command, Key, KeyCode, KeyModifier};
use sqltui::home::HomeComponent;

#[test]
fn app_starts_on_tree_with_home_panel() {
    let app = App::new();
    assert!(app.focus == Focus::LeftPanel);
    assert!(app.main_panel == MainPanel::Home);
    assert!(app.target() == Target::ConnectionList);
}

#[test]
fn opening_table_list_from_tree_focuses_main_panel() {
    let app = App::new();
    let (action, focus, panel) = app.handle_input_event(ComponentResult::Goto(Goto::TableListMySQL {
        conn_id: 7,
        db_name: "shop".to_string(),
    }));
    assert!(focus == Focus::MainPanel);
    assert!(panel == MainPanel::TableListMySQL);
    match action {
        Action::SetData { goto: Goto::TableListMySQL { conn_id, db_name }, back } => {
            assert_eq!(conn_id, 7);
            assert_eq!(db_name, "shop");
            assert!(back.is_none());
        }
        _ => panic!("expected a load of the table list"),
    }
}

#[test]
fn done_changes_nothing() {
    let mut app = App::new();
    app.apply(Focus::MainPanel, MainPanel::UserDetailMySQL);
    let (action, focus, panel) = app.handle_input_event(ComponentResult::Done);
    assert!(matches!(action, Action::Nothing));
    assert!(focus == Focus::MainPanel);
    assert!(panel == MainPanel::UserDetailMySQL);
}

#[test]
fn focus_answer_moves_only_focus() {
    let mut app = App::new();
    app.apply(Focus::MainPanel, MainPanel::QueryList);
    let (action, focus, panel) = app.handle_input_event(ComponentResult::Focus(Focus::LeftPanel));
    assert!(matches!(action, Action::Nothing));
    assert!(focus == Focus::LeftPanel);
    assert!(panel == MainPanel::QueryList);
}

#[test]
fn detail_back_returns_to_its_list() {
    let mut app = App::new();
    app.apply(Focus::MainPanel, MainPanel::TableDetailPG);
    let (action, _, panel) = app.handle_input_event(ComponentResult::Back(MainPanel::Home));
    assert!(matches!(action, Action::Nothing));
    assert!(panel == MainPanel::TableListPG);
    let (action, _, panel) = app.handle_input_event(ComponentResult::BackRefresh(MainPanel::Home));
    assert!(matches!(action, Action::RefreshTableListPG));
    assert!(panel == MainPanel::TableListPG);
}

#[test]
fn data_list_back_goes_where_it_came_from() {
    let mut app = App::new();
    app.apply(Focus::MainPanel, MainPanel::TableListPG);
    let (action, focus, panel) = app.handle_input_event(ComponentResult::Goto(Goto::DataListPG {
        conn_id: 1,
        db_name: "d".to_string(),
        schema_name: "public".to_string(),
        table_name: "t".to_string(),
    }));
    assert!(matches!(action, Action::SetData { back: Some(MainPanel::TableListPG), .. }));
    app.apply(focus, panel);
    assert!(app.main_panel == MainPanel::DataListPG);
    let (_, _, panel) = app.handle_input_event(ComponentResult::Back(MainPanel::TableListPG));
    assert!(panel == MainPanel::TableListPG);
}

#[test]
fn tree_ignores_detail_goto() {
    let app = App::new();
    let (action, focus, panel) = app.handle_input_event(ComponentResult::Goto(Goto::QueryList {
        conn_id: 1,
        db_name: "d".to_string(),
        kind: DatabaseKind::PostgreSQL,
    }));
    assert!(matches!(action, Action::SetData { .. }));
    assert!(focus == Focus::MainPanel);
    assert!(panel == MainPanel::QueryList);
    let (action, focus, panel) = app.handle_input_event(ComponentResult::Goto(Goto::RoleDetailPG {
        conn_id: 1,
        role_name: None,
    }));
    assert!(matches!(action, Action::Nothing));
    assert!(focus == Focus::LeftPanel);
    assert!(panel == MainPanel::Home);
}

#[test]
fn home_answers_left_key_with_focus() {
    let home = HomeComponent::new();
    assert!(matches!(home.handle_event(&left_key()), ComponentResult::Focus(Focus::LeftPanel)));
    let other = Key { code: KeyCode::Right, modifier: KeyModifier::Plain };
    assert!(matches!(home.handle_event(&other), ComponentResult::Done));
}

#[test]
fn command_bar_appends_quit() {
    let mut bar = CommandBarComponent::new();
    assert!(bar.commands.is_empty());
    let mut cmds = vec![Command { name: "Up", key: Key { code: KeyCode::Up, modifier: KeyModifier::Plain } }];
    bar.set_commands(&mut cmds);
    assert_eq!(cmds.len(), 2);
    assert_eq!(cmds[0].name, "Up");
    assert_eq!(cmds[1].name, "Quit App");
    assert!(cmds[1].key == quit_app_key());
    assert_eq!(bar.commands.len(), 2);
    assert_eq!(bar.commands[1].name, "Quit App");
}
