use sqltui::index::{get_table_down_index, get_table_up_index};

#[test]
fn up_index_stops_at_top() {
    assert_eq!(get_table_up_index(None), 0);
    assert_eq!(get_table_up_index(Some(0)), 0);
    assert_eq!(get_table_up_index(Some(5)), 4);
}

#[test]
fn down_index_stops_at_bottom() {
    assert_eq!(get_table_down_index(None, 0), 0);
    assert_eq!(get_table_down_index(Some(0), 3), 1);
    assert_eq!(get_table_down_index(Some(2), 3), 2);
    assert_eq!(get_table_down_index(Some(7), 3), 2);
}
