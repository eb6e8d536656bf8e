use sqltui::diff::{compose_alter, diff_ids, index_of, ItemChange};

#[test]
fn index_of_finds_first() {
    assert_eq!(index_of(&vec![5, 7, 5], 5), Some(0));
    assert_eq!(index_of(&vec![5, 7, 5], 7), Some(1));
    assert_eq!(index_of(&vec![5, 7], 9), None);
    assert_eq!(index_of(&vec![], 9), None);
}

#[test]
fn diff_reports_drops_and_updates() {
    let (dropped, updates) = diff_ids(&vec![1, 2, 3], &vec![3, 4, 1]);
    assert_eq!(dropped, vec![1]);
    assert!(updates == vec![ItemChange::Change(0, 2), ItemChange::Add(1), ItemChange::Change(2, 0)]);
}

#[test]
fn unchanged_list_has_no_drop_and_only_changes() {
    let (dropped, updates) = diff_ids(&vec![4, 5], &vec![4, 5]);
    assert!(dropped.is_empty());
    assert!(updates == vec![ItemChange::Change(0, 0), ItemChange::Change(1, 1)]);
}

#[test]
fn emptied_list_drops_everything() {
    let (dropped, updates) = diff_ids(&vec![4, 5, 6], &vec![]);
    assert_eq!(dropped, vec![0, 1, 2]);
    assert!(updates.is_empty());
}

#[test]
fn alter_clauses_follow_the_ids() {
    let s = |v: &[&str]| -> Vec<String> { v.iter().map(|x| x.to_string()).collect() };
    let old = vec![1u128, 2, 3];
    let new = vec![3u128, 4, 1];
    let adds = s(&["ADD 3", "ADD 4", "ADD 1"]);
    let changes = vec![s(&["CHANGE 3"]), s(&["CHANGE 4"]), vec![]];
    let drops = s(&["DROP 1", "DROP 2", "DROP 3"]);
    assert_eq!(compose_alter(&old, &new, &adds, &changes, &drops), s(&["CHANGE 3", "ADD 4", "DROP 2"]));
    assert!(compose_alter(&vec![], &vec![], &vec![], &vec![], &vec![]).is_empty());
}
