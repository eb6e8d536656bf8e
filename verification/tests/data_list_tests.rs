use sqltui::app::MainPanel;
use sqltui::data_list::{DataAction, DataCommand, DataListComponent, PAGE_SIZE};

#[test]
fn new_list_is_empty() {
    let d = DataListComponent::new();
    assert_eq!(d.page, 0);
    assert_eq!(d.total_page, 0);
    assert_eq!(d.page_size, PAGE_SIZE);
    assert_eq!(PAGE_SIZE, 1000);
}

#[test]
fn page_count_rounds_up() {
    let mut d = DataListComponent::new();
    d.set_data(MainPanel::TableListPG, 1000, 2500);
    assert_eq!(d.page, 1);
    assert_eq!(d.total_page, 3);
    d.set_data(MainPanel::TableListPG, 1000, 2000);
    assert_eq!(d.total_page, 2);
    d.set_data(MainPanel::TableListPG, 1, 1);
    assert_eq!(d.total_page, 1);
    d.set_data(MainPanel::TableListPG, 0, 0);
    assert_eq!(d.page, 0);
    assert_eq!(d.total_page, 0);
    d.refresh(0, 1001);
    assert_eq!(d.total_page, 2);
    assert_eq!(d.page, 0);
}

#[test]
fn paging_moves_within_pages() {
    let mut d = DataListComponent::new();
    d.set_data(MainPanel::ViewListPG, 1000, 2500);
    assert!(d.handle_main_event(DataCommand::PagePrev) == DataAction::Nothing);
    assert!(d.handle_main_event(DataCommand::PageNext) == DataAction::Reload);
    assert_eq!(d.page, 2);
    assert_eq!(d.offset(), 1000);
    assert!(d.handle_main_event(DataCommand::PageNext) == DataAction::Reload);
    assert!(d.handle_main_event(DataCommand::PageNext) == DataAction::Nothing);
    assert_eq!(d.page, 3);
    assert!(d.handle_main_event(DataCommand::PagePrev) == DataAction::Reload);
    assert_eq!(d.page, 2);
}

#[test]
fn selection_back_open_refresh() {
    let mut d = DataListComponent::new();
    d.set_data(MainPanel::TableListPG, 3, 3);
    assert!(d.handle_main_event(DataCommand::Confirm) == DataAction::Nothing);
    d.handle_main_event(DataCommand::Down);
    d.handle_main_event(DataCommand::Down);
    d.handle_main_event(DataCommand::Down);
    d.handle_main_event(DataCommand::Down);
    assert_eq!(d.selected, Some(2));
    d.handle_main_event(DataCommand::Up);
    assert_eq!(d.selected, Some(1));
    assert!(d.handle_main_event(DataCommand::Confirm) == DataAction::OpenRow(1));
    assert!(d.handle_main_event(DataCommand::Refresh) == DataAction::Reload);
    assert!(d.handle_main_event(DataCommand::Back) == DataAction::Back(MainPanel::TableListPG));
}

#[test]
fn data_commands_list() {
    let mut d = DataListComponent::new();
    d.set_data(MainPanel::TableListPG, 3, 3);
    let names: Vec<&str> = d.get_main_commands().iter().map(|c| c.0).collect();
    assert_eq!(names, vec!["Up", "Down", "Page Next", "Page Prev", "Refresh", "Back"]);
    d.handle_main_event(DataCommand::Down);
    let names: Vec<&str> = d.get_main_commands().iter().map(|c| c.0).collect();
    assert_eq!(names, vec!["Up", "Down", "Page Next", "Page Prev", "Open", "Refresh", "Back"]);
}
