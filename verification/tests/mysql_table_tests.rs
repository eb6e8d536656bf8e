use sqltui::form::FormData;
use sqltui::mysql_table::{checks_from_rows, parse_trigger_action, parse_trigger_time, strip_parens, triggers_from_rows,
    AlterParts, Check, CheckRow, CreateParts, ForeignKey, Index, TableDetailComponent, TableField, TableParts, Trigger,
    TriggerAction, TriggerRow, TriggerTime};
use sqltui::panel::Version;
use sqltui::mysql_table::{check_from_form, field_from_form, foreign_key_from_form, index_from_form, trigger_from_form,
    FieldAttrs, FieldKind, ItemFormError, MySqlFieldAttrs};

fn form(entries: &[(&str, Option<&str>)]) -> FormData {
    FormData {
        entries: entries.iter().map(|(k, v)| (k.to_string(), v.map(|s| s.to_string()))).collect(),
    }
}

fn options(engine: Option<&str>, charset: Option<&str>, max_rows: Option<&str>) -> FormData {
    form(&[
        ("engine", engine),
        ("default character set", charset),
        ("default collation", None),
        ("avg row length", Some("")),
        ("min rows", None),
        ("max rows", max_rows),
        ("key block size", None),
    ])
}

fn attrs() -> FieldAttrs {
    FieldAttrs::MySql(MySqlFieldAttrs {
        kind: FieldKind::Int,
        not_null: true,
        comment: None,
        length: None,
        default_value: None,
        decimal: None,
        character_set: None,
        collation: None,
        auto_increment: false,
        unsigned: false,
        zerofill: false,
        on_update: false,
        options: String::new(),
    })
}

fn field(id: u128, name: &str, key: bool) -> TableField {
    TableField { id, name: name.to_string(), key, attrs: attrs() }
}

fn editor(fields: Vec<TableField>, old_fields: Vec<TableField>, f: FormData, old: FormData, comment: &[&str], old_comment: &[&str]) -> TableDetailComponent {
    TableDetailComponent {
        table_name: Some("users".to_string()),
        db_version: Version::Eight,
        fields,
        old_fields,
        indexes: vec![],
        old_indexes: vec![],
        foreign_keys: vec![],
        old_foreign_keys: vec![],
        triggers: vec![],
        old_triggers: vec![],
        checks: vec![],
        old_checks: vec![],
        form: f,
        old_form: old,
        comment: comment.iter().map(|s| s.to_string()).collect(),
        old_comment: old_comment.iter().map(|s| s.to_string()).collect(),
    }
}

fn index(id: u128, name: &str) -> Index {
    Index { id, name: name.to_string(), fields: "name".to_string(), kind: None, method: None, comment: None }
}

fn trigger(id: u128, name: &str) -> Trigger {
    Trigger { id, name: name.to_string(), time: TriggerTime::Before, action: TriggerAction::Insert, statement: "SET @x = 1".to_string() }
}

fn check(id: u128, name: &str) -> Check {
    Check { id, name: name.to_string(), expression: "a > 0".to_string(), not_enforced: false }
}

fn foreign_key(id: u128, name: &str) -> ForeignKey {
    ForeignKey {
        id,
        name: name.to_string(),
        field: "org".to_string(),
        ref_db: "shop".to_string(),
        ref_table: "orgs".to_string(),
        ref_field: "id".to_string(),
        on_delete: Some("CASCADE".to_string()),
        on_update: None,
    }
}

fn parts() -> TableParts {
    TableParts {
        indexes: vec![index(10, "ix")],
        foreign_keys: vec![foreign_key(11, "fk")],
        triggers: vec![trigger(12, "t")],
        checks: vec![check(13, "c")],
    }
}

fn strings(v: &[&str]) -> Vec<String> {
    v.iter().map(|s| s.to_string()).collect()
}

#[test]
fn options_sql_lists_non_empty_options() {
    let e = editor(vec![], vec![], options(Some("InnoDB"), Some("utf8mb4"), Some("10")), FormData::new(), &[""], &[""]);
    assert_eq!(e.build_options_sql(), "ENGINE InnoDB CHARACTER SET = utf8mb4 MAX_ROWS = 10");
    let e = editor(vec![], vec![], options(None, None, None), FormData::new(), &["a", "b"], &[""]);
    assert_eq!(e.build_options_sql(), "COMMENT = 'a\nb'");
}

#[test]
fn create_table_statement() {
    let mut e = editor(vec![field(1, "id", true), field(2, "org", true), field(3, "name", false)], vec![],
        options(Some("InnoDB"), None, None), FormData::new(), &[""], &[""]);
    e.indexes = vec![index(4, "ix")];
    e.triggers = vec![trigger(5, "t1"), trigger(6, "t2")];
    let parts = CreateParts {
        fields: strings(&["`id` int NOT NULL", "`org` int NOT NULL", "`name` varchar(20)"]),
        indexes: strings(&["INDEX `ix` (`name`)"]),
        foreign_keys: vec![],
        checks: vec![],
        triggers: strings(&["CREATE TRIGGER t1;", "CREATE TRIGGER t2;"]),
    };
    assert_eq!(e.build_create_ddl(None, &parts),
        "CREATE TABLE `new table` (\n`id` int NOT NULL,\n`org` int NOT NULL,\n`name` varchar(20),\n\nPRIMARY KEY (`id`,`org`),\nINDEX `ix` (`name`)\n)ENGINE InnoDB ;\nCREATE TRIGGER t1;\nCREATE TRIGGER t2;");
}

#[test]
fn primary_key_alter_when_keys_change() {
    let e = editor(vec![field(1, "id", true), field(2, "org", true)], vec![field(1, "id", true), field(2, "org", false)],
        FormData::new(), FormData::new(), &[""], &[""]);
    assert_eq!(e.build_primary_key_alter(), vec!["DROP PRIMARY KEY", "ADD PRIMARY KEY (`id`,`org`)"]);
    let e = editor(vec![field(1, "id", true)], vec![field(1, "id", false)], FormData::new(), FormData::new(), &[""], &[""]);
    assert_eq!(e.build_primary_key_alter(), vec!["ADD PRIMARY KEY (`id`)"]);
    let e = editor(vec![field(1, "id", true)], vec![field(1, "id", true)], FormData::new(), FormData::new(), &[""], &[""]);
    assert!(e.build_primary_key_alter().is_empty());
}

#[test]
fn options_alter_lists_changed_options() {
    let e = editor(vec![], vec![], options(Some("MyISAM"), Some("utf8mb4"), None),
        options(Some("InnoDB"), Some("utf8mb4"), Some("10")), &["new"], &["old"]);
    assert_eq!(e.build_options_alter_ddl(), " ENGINE = MyISAM MAX_ROWS = 0 COMMENT = 'new'");
    let e = editor(vec![], vec![], options(None, None, None), options(None, None, None), &["same"], &["same"]);
    assert_eq!(e.build_options_alter_ddl(), "");
}

#[test]
fn alter_table_statement() {
    let e = editor(vec![field(1, "id", true)], vec![field(1, "id", false)], options(Some("InnoDB"), None, None),
        options(Some("InnoDB"), None, None), &[""], &[""]);
    let parts = AlterParts {
        field_changes: strings(&["MODIFY COLUMN `id` int NOT NULL"]),
        field_drops: strings(&["DROP COLUMN `old`"]),
        indexes: vec![],
        foreign_keys: vec![],
        checks: vec![],
        triggers: strings(&["DROP TRIGGER t;"]),
    };
    assert_eq!(e.build_alter_ddl(&parts),
        "ALTER TABLE `users`\nMODIFY COLUMN `id` int NOT NULL,\nDROP COLUMN `old`,\nADD PRIMARY KEY (`id`);\nDROP TRIGGER t;");
}

#[test]
fn unchanged_table_has_no_statement() {
    let e = editor(vec![field(1, "id", true)], vec![field(1, "id", true)], options(Some("InnoDB"), None, None),
        options(Some("InnoDB"), None, None), &["c"], &["c"]);
    let parts = AlterParts { field_changes: vec![], field_drops: vec![], indexes: vec![], foreign_keys: vec![], checks: vec![], triggers: vec![] };
    assert_eq!(e.build_alter_ddl(&parts), "");
}

#[test]
fn options_loaded_from_definition() {
    let mut e = editor(vec![], vec![], FormData::new(), FormData::new(), &[""], &[""]);
    let caps = vec![Some("InnoDB".to_string()), Some("utf8mb4".to_string()), None, None, Some("100".to_string()),
        None, None, Some("people".to_string())];
    e.set_options(&caps);
    assert_eq!(e.form.get("engine"), Some(Some("InnoDB".to_string())));
    assert_eq!(e.form.get("default character set"), Some(Some("utf8mb4".to_string())));
    assert_eq!(e.form.get("max rows"), Some(Some("100".to_string())));
    assert_eq!(e.form.get("min rows"), Some(None));
    assert_eq!(e.old_form.get("engine"), Some(Some("InnoDB".to_string())));
    assert_eq!(e.comment, vec!["people".to_string()]);
    assert_eq!(e.old_comment, vec!["people".to_string()]);
    assert_eq!(e.build_options_alter_ddl(), "");
    e.set_new_options();
    assert_eq!(e.form.get("engine"), Some(None));
    assert_eq!(e.form.entries.len(), 7);
}

#[test]
fn save_chooses_create_or_alter() {
    let create = CreateParts { fields: strings(&["`id` int"]), indexes: vec![], foreign_keys: vec![], checks: vec![], triggers: vec![] };
    let alter = AlterParts { field_changes: vec![], field_drops: vec![], indexes: vec![], foreign_keys: vec![], checks: vec![], triggers: vec![] };
    let mut e = editor(vec![field(1, "id", false)], vec![field(1, "id", false)], options(None, None, None),
        options(None, None, None), &[""], &[""]);
    assert_eq!(e.build_sql(Some("t"), &create, &alter), "");
    e.table_name = None;
    assert_eq!(e.build_sql(Some("t"), &create, &alter), "CREATE TABLE `t` (\n`id` int\n);\n");
}

#[test]
fn loading_a_table_makes_it_the_baseline() {
    let mut t = editor(vec![], vec![], FormData::new(), FormData::new(), &[], &[]);
    t.table_name = None;
    let caps = vec![Some("InnoDB".to_string()), Some("utf8mb4".to_string()), None, None, None, None, None,
        Some("people".to_string())];
    t.load_table(Version::Eight, "users".to_string(), vec![field(1, "id", true), field(2, "name", false)], parts(), &caps);
    assert_eq!(t.old_indexes.len(), 1);
    assert_eq!(t.old_indexes[0].name, "ix");
    assert_eq!(t.old_foreign_keys[0].ref_table, "orgs");
    assert_eq!(t.old_triggers[0].id, 12);
    assert_eq!(t.old_checks[0].expression, "a > 0");
    assert_eq!(t.checks.len(), 1);
    assert_eq!(t.table_name, Some("users".to_string()));
    assert_eq!(t.old_fields.len(), 2);
    assert_eq!(t.old_fields[0].name, "id");
    assert_eq!(t.form.get("engine"), Some(Some("InnoDB".to_string())));
    assert_eq!(t.old_form.get("default character set"), Some(Some("utf8mb4".to_string())));
    assert_eq!(t.comment, strings(&["people"]));
    assert_eq!(t.old_comment, strings(&["people"]));
    assert_eq!(t.build_alter_ddl(&AlterParts {
        field_changes: vec![], field_drops: vec![], indexes: vec![], foreign_keys: vec![], checks: vec![], triggers: vec![],
    }), "");
}

#[test]
fn loading_a_table_definition_reads_its_options() {
    let mut t = editor(vec![], vec![], FormData::new(), FormData::new(), &[], &[]);
    let def = "CREATE TABLE `users` (\n  `id` int NOT NULL\n) ENGINE=InnoDB DEFAULT CHARSET=latin1 ";
    assert!(t.load_table_definition(Version::Five, "users".to_string(), vec![field(1, "id", true)], parts(), def));
    assert_eq!(t.form.get("engine"), Some(Some("InnoDB".to_string())));
    assert_eq!(t.form.get("default character set"), Some(Some("latin1".to_string())));
    assert_eq!(t.old_fields.len(), 1);
    let mut u = editor(vec![], vec![], FormData::new(), FormData::new(), &[], &[]);
    assert!(!u.load_table_definition(Version::Eight, "users".to_string(), vec![], parts(), "not a definition"));
    assert!(u.form.entries.is_empty());
}

#[test]
fn a_new_table_has_no_stored_name_and_empty_options() {
    let mut t = editor(vec![], vec![], FormData::new(), FormData::new(), &[], &[]);
    t.load_new_table(Version::Five);
    assert!(matches!(t.db_version, Version::Five));
    assert_eq!(t.table_name, None);
    assert_eq!(t.form.get("engine"), Some(None));
    assert_eq!(t.form.get("key block size"), Some(None));
}

#[test]
fn loading_on_mysql_five_keeps_the_checks() {
    let mut t = editor(vec![], vec![], FormData::new(), FormData::new(), &[], &[]);
    let caps = vec![None, None, None, None, None, None, None, None];
    t.load_table(Version::Five, "users".to_string(), vec![], parts(), &caps);
    assert!(t.checks.is_empty() && t.old_checks.is_empty());
    assert_eq!(t.old_triggers.len(), 1);
}

#[test]
fn trigger_rows_are_read() {
    assert!(matches!(parse_trigger_time("BEFORE"), Some(TriggerTime::Before)));
    assert!(matches!(parse_trigger_time("AFTER"), Some(TriggerTime::After)));
    assert!(parse_trigger_time("before").is_none());
    assert!(matches!(parse_trigger_action("DELETE"), Some(TriggerAction::Delete)));
    assert!(parse_trigger_action("SELECT").is_none());
    let rows = vec![TriggerRow { name: "t".to_string(), timing: "AFTER".to_string(), event: "UPDATE".to_string(),
        statement: "SET @n = 1".to_string() }];
    let ts = triggers_from_rows(&rows).unwrap();
    assert_eq!(ts.len(), 1);
    assert_eq!(ts[0].name, "t");
    assert!(matches!(ts[0].time, TriggerTime::After) && matches!(ts[0].action, TriggerAction::Update));
    assert_eq!(ts[0].statement, "SET @n = 1");
    let bad = vec![TriggerRow { name: "t".to_string(), timing: "LATER".to_string(), event: "UPDATE".to_string(),
        statement: String::new() }];
    assert!(triggers_from_rows(&bad).is_none());
}

#[test]
fn check_rows_lose_their_parentheses() {
    assert_eq!(strip_parens("((`age` > 0) and (`age` < 200))"), "`age` > 0 and `age` < 200");
    assert_eq!(strip_parens("é(ü)"), "éü");
    let rows = vec![
        CheckRow { name: "c1".to_string(), clause: "(`a` > 0)".to_string(), enforced: "NO".to_string() },
        CheckRow { name: "c2".to_string(), clause: "`b`".to_string(), enforced: "YES".to_string() },
    ];
    let cs = checks_from_rows(&rows);
    assert_eq!(cs.len(), 2);
    assert_eq!(cs[0].expression, "`a` > 0");
    assert!(cs[0].not_enforced && !cs[1].not_enforced);
    assert_eq!(cs[1].name, "c2");
    assert_ne!(cs[0].id, cs[1].id);
}

#[test]
fn a_saved_table_becomes_the_baseline() {
    let mut t = editor(vec![field(1, "id", true)], vec![], options(Some("InnoDB"), None, None), FormData::new(), &["c"], &[]);
    t.indexes = vec![index(2, "ix")];
    t.checks = vec![check(3, "ck")];
    t.accept_saved();
    assert_eq!(t.old_fields.len(), 1);
    assert_eq!(t.old_indexes[0].id, 2);
    assert_eq!(t.old_checks[0].name, "ck");
    assert_eq!(t.old_form.get("engine"), Some(Some("InnoDB".to_string())));
    assert_eq!(t.old_comment, strings(&["c"]));
    assert_eq!(t.build_alter_ddl(&AlterParts {
        field_changes: vec![], field_drops: vec![], indexes: vec![], foreign_keys: vec![], checks: vec![], triggers: vec![],
    }), "");
}

fn dialog(entries: &[(&str, Option<&str>)]) -> FormData {
    form(entries)
}

const ID: &str = "67e55044-10b1-426f-9247-bb680e5fe0c8";

#[test]
fn int_field_from_its_dialog() {
    let f = field_from_form(FieldKind::BigInt, &dialog(&[("id", Some(ID)), ("name", Some("id")), ("not null", Some("true")),
        ("key", Some("true")), ("comment", None), ("length", Some("20")), ("default value", None), ("auto increment", Some("true")),
        ("unsigned", Some("true")), ("zerofill", Some("false"))])).ok().unwrap();
    assert_eq!(f.id, uuid::Uuid::parse_str(ID).unwrap().as_u128());
    assert!(f.key);
    match f.attrs {
        FieldAttrs::MySql(a) => {
            assert!(matches!(a.kind, FieldKind::BigInt));
            assert!(a.not_null && a.auto_increment && a.unsigned && !a.zerofill && !a.on_update);
            assert_eq!(a.length, Some("20".to_string()));
            assert_eq!(a.character_set, None);
            assert_eq!(a.options, "");
        },
        _ => panic!("not a MySQL field"),
    }
}

#[test]
fn other_field_kinds_read_their_attributes() {
    let e = field_from_form(FieldKind::SetOf, &dialog(&[("name", Some("tags")), ("not null", Some("false")), ("key", Some("false")),
        ("comment", Some("c")), ("options", Some("a,b,c")), ("default value", Some("a")), ("character set", Some("utf8mb4")),
        ("collation", None), ("length", Some("9"))])).ok().unwrap();
    match e.attrs {
        FieldAttrs::MySql(a) => {
            assert_eq!(a.option_list(), strings(&["a", "b", "c"]));
            assert_eq!(a.length, None);
            assert_eq!(a.character_set, Some("utf8mb4".to_string()));
            assert_eq!(a.default_value, Some("a".to_string()));
        },
        _ => panic!("not a MySQL field"),
    }
    let d = field_from_form(FieldKind::Timestamp, &dialog(&[("name", Some("at")), ("not null", Some("true")), ("key", Some("false")),
        ("comment", None), ("length", None), ("default value", Some("CURRENT_TIMESTAMP")), ("on update", Some("true"))])).ok().unwrap();
    match d.attrs {
        FieldAttrs::MySql(a) => assert!(a.on_update && !a.unsigned && a.decimal.is_none()),
        _ => panic!("not a MySQL field"),
    }
    let b = field_from_form(FieldKind::Json, &dialog(&[("name", Some("doc")), ("not null", Some("false")), ("key", Some("false")),
        ("comment", None), ("default value", Some("{}"))])).ok().unwrap();
    match b.attrs {
        FieldAttrs::MySql(a) => assert!(a.default_value.is_none()),
        _ => panic!("not a MySQL field"),
    }
    let bad = field_from_form(FieldKind::Blob, &dialog(&[("id", Some("no")), ("name", Some("doc")), ("not null", Some("false")),
        ("key", Some("false")), ("comment", None)]));
    match bad {
        Err(ItemFormError::InvalidId(t)) => assert_eq!(t, uuid::Uuid::parse_str("no").unwrap_err().to_string()),
        _ => panic!("an invalid id was accepted"),
    }
}

#[test]
fn items_from_their_dialogs() {
    let i = index_from_form(&dialog(&[("name", Some("ix")), ("fields", Some("a,b(10)")), ("kind", None), ("method", Some("BTREE")),
        ("comment", None)])).ok().unwrap();
    assert_eq!(i.field_list(), strings(&["a", "b(10)"]));
    assert_eq!(i.kind, None);
    let k = foreign_key_from_form(&dialog(&[("name", Some("fk")), ("field", Some("org")), ("reference db", Some("shop")),
        ("reference table", Some("orgs")), ("reference field", Some("id")), ("on delete", None), ("on update", Some("CASCADE"))]))
        .ok().unwrap();
    assert_eq!(k.ref_db, "shop");
    assert_eq!(k.on_update, Some("CASCADE".to_string()));
    let t = trigger_from_form(&dialog(&[("id", Some(ID)), ("name", Some("t")), ("time", Some("AFTER")), ("action", Some("DELETE")),
        ("statement", Some("SET @x = 1"))])).ok().unwrap();
    assert!(matches!(t.time, TriggerTime::After) && matches!(t.action, TriggerAction::Delete));
    assert!(matches!(trigger_from_form(&dialog(&[("name", Some("t")), ("time", Some("SOON")), ("action", Some("DELETE")),
        ("statement", Some("s"))])), Err(ItemFormError::UnknownTriggerTime)));
    assert!(matches!(trigger_from_form(&dialog(&[("name", Some("t")), ("time", Some("BEFORE")), ("action", Some("READ")),
        ("statement", Some("s"))])), Err(ItemFormError::UnknownTriggerAction)));
    let c = check_from_form(&dialog(&[("name", Some("ck")), ("expression", Some("a > 0")), ("not enforced", Some("true"))])).ok().unwrap();
    assert!(c.not_enforced);
    assert_eq!(c.expression, "a > 0");
}
