use sqltui::pattern::{create_table_options, create_view_algorithm};

#[test]
fn table_options_read_from_definition() {
    let def = "CREATE TABLE `users` (\n  `id` int NOT NULL,\n  PRIMARY KEY (`id`)\n) ENGINE=InnoDB DEFAULT CHARSET=utf8mb4 COLLATE=utf8mb4_0900_ai_ci COMMENT='people'";
    let caps = create_table_options(def).unwrap();
    assert_eq!(caps.len(), 8);
    assert_eq!(caps[0].as_deref(), Some("InnoDB"));
    assert_eq!(caps[1].as_deref(), Some("utf8mb4"));
    assert_eq!(caps[2].as_deref(), Some("utf8mb4_0900_ai_ci"));
    assert_eq!(caps[3], None);
    assert_eq!(caps[7].as_deref(), Some("people"));
}

#[test]
fn table_definition_that_does_not_match() {
    assert!(create_table_options("SELECT 1").is_none());
}

#[test]
fn view_algorithm_read_from_definition() {
    assert_eq!(create_view_algorithm("CREATE ALGORITHM=MERGE DEFINER=`root`@`%` VIEW `v` AS select 1"),
        Some(Some("MERGE".to_string())));
    assert_eq!(create_view_algorithm("CREATE VIEW `v` AS select 1"), Some(None));
    assert_eq!(create_view_algorithm("ALTER VIEW v"), None);
}
