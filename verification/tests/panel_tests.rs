use sqltui::panel::{EditorCommand, Version};
use sqltui::panel::{mysql_table, mysql_user, mysql_view, pg_role, pg_table, pg_view};

#[test]
fn mysql_table_panels_depend_on_version() {
    assert!(mysql_table::tab_right(mysql_table::PanelKind::Triggers, Version::Eight) == mysql_table::PanelKind::Checks);
    assert!(mysql_table::tab_right(mysql_table::PanelKind::Triggers, Version::Five) == mysql_table::PanelKind::Options);
    assert!(mysql_table::tab_left(mysql_table::PanelKind::Options, Version::Five) == mysql_table::PanelKind::Triggers);
    assert!(mysql_table::tab_left(mysql_table::PanelKind::Fields, Version::Eight) == mysql_table::PanelKind::SQLPreview);
    let mut p = mysql_table::PanelKind::Fields;
    for _ in 0..7 {
        p = mysql_table::tab_right(p, Version::Eight);
    }
    assert!(p == mysql_table::PanelKind::SQLPreview);
    assert!(mysql_table::tab_right(p, Version::Eight) == mysql_table::PanelKind::Fields);
}

#[test]
fn mysql_user_panels_depend_on_version() {
    assert!(mysql_user::tab_right(mysql_user::PanelKind::Advanced, Version::Eight) == mysql_user::PanelKind::MemberOf);
    assert!(mysql_user::tab_right(mysql_user::PanelKind::Advanced, Version::Five) == mysql_user::PanelKind::ServerPrivs);
    assert!(mysql_user::tab_left(mysql_user::PanelKind::ServerPrivs, Version::Five) == mysql_user::PanelKind::Advanced);
    assert!(mysql_user::tab_left(mysql_user::PanelKind::ServerPrivs, Version::Eight) == mysql_user::PanelKind::Members);
    assert!(mysql_user::tab_right(mysql_user::PanelKind::SQLPreview, Version::Five) == mysql_user::PanelKind::General);
}

#[test]
fn other_panels_cycle() {
    assert!(mysql_view::tab_right(mysql_view::PanelKind::SQLPreview) == mysql_view::PanelKind::Definition);
    assert!(mysql_view::tab_left(mysql_view::PanelKind::Definition) == mysql_view::PanelKind::SQLPreview);
    assert!(pg_view::tab_right(pg_view::PanelKind::Definition) == pg_view::PanelKind::Rules);
    assert!(pg_view::tab_left(pg_view::PanelKind::Advanced) == pg_view::PanelKind::Rules);
    assert!(pg_role::tab_right(pg_role::PanelKind::Privileges) == pg_role::PanelKind::Comment);
    assert!(pg_role::tab_left(pg_role::PanelKind::General) == pg_role::PanelKind::SQLPreview);
    let mut p = pg_table::PanelKind::Fields;
    for _ in 0..10 {
        let q = pg_table::tab_right(p);
        assert!(pg_table::tab_left(q) == p);
        p = q;
    }
    assert!(p == pg_table::PanelKind::Fields);
}

#[test]
fn table_editor_commands_follow_the_panel() {
    let names = |p: mysql_table::PanelKind, sel: bool| -> Vec<&'static str> { mysql_table::get_main_commands(p, sel).iter().map(|c| c.0).collect() };
    assert_eq!(names(mysql_table::PanelKind::Fields, true),
        vec!["Up", "Down", "Next Panel", "Prev Panel", "Add Field", "Edit Field", "Delete Field", "Back", "Save"]);
    assert_eq!(names(mysql_table::PanelKind::Indexes, false), vec!["Up", "Down", "Next Panel", "Previous Panel", "Add Index", "Back", "Save"]);
    assert_eq!(names(mysql_table::PanelKind::Comment, true), vec!["Next Panel", "Previous Panel", "Back", "Save"]);
    let cmds = mysql_table::get_main_commands(mysql_table::PanelKind::Checks, true);
    assert!(matches!(cmds[5].1, EditorCommand::Edit));
    let cmds = mysql_table::get_main_commands(mysql_table::PanelKind::Fields, true);
    assert!(matches!(cmds[5].1, EditorCommand::Confirm));
}

#[test]
fn table_list_panel_keys() {
    let (p, s, a) = mysql_table::handle_list_panel_event(mysql_table::PanelKind::Triggers, Version::Five, EditorCommand::NextPanel, None, 0);
    assert!(p == mysql_table::PanelKind::Options && s.is_none() && a == mysql_table::PanelAction::Nothing);
    let (_, s, _) = mysql_table::handle_list_panel_event(mysql_table::PanelKind::Fields, Version::Eight, EditorCommand::Down, Some(2), 3);
    assert_eq!(s, Some(2));
    let (_, s, _) = mysql_table::handle_list_panel_event(mysql_table::PanelKind::Fields, Version::Eight, EditorCommand::Up, None, 0);
    assert_eq!(s, None);
    let (_, _, a) = mysql_table::handle_list_panel_event(mysql_table::PanelKind::Checks, Version::Eight, EditorCommand::Delete, Some(1), 3);
    assert!(a == mysql_table::PanelAction::DeleteItem(1));
    let (_, _, a) = mysql_table::handle_list_panel_event(mysql_table::PanelKind::Indexes, Version::Eight, EditorCommand::Confirm, None, 3);
    assert!(a == mysql_table::PanelAction::Nothing);
    let (_, _, a) = mysql_table::handle_list_panel_event(mysql_table::PanelKind::Fields, Version::Eight, EditorCommand::New, None, 0);
    assert!(a == mysql_table::PanelAction::NewItem);
}
