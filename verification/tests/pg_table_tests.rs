use sqltui::mysql_table::{FieldAttrs, PgFieldAttrs, TableField};
use sqltui::form::FormData;
use sqltui::mysql_table::ItemFormError;
use sqltui::pg_table::{check_from_form, exclude_from_form, foreign_key_from_form, index_from_form, pg_field_from_form,
    rule_from_form, trigger_from_form, unique_from_form, Check, Exclude, ForeignKey, Index, PgTableParts, Rule, Trigger, Unique,
    comment_lines, split_lines, PartAlter, PartDdl, PgAlterParts, PgCreateParts, TableDetailComponent};

fn field(id: u128, name: &str, key: bool) -> TableField {
    let attrs = FieldAttrs::Pg(PgFieldAttrs {
        kind: "int4".to_string(),
        not_null: true,
        comment: None,
        default_value: None,
        length: None,
        decimal: None,
    });
    TableField { id, name: name.to_string(), key, attrs }
}

fn part(ddl: &str, comment: Option<&str>) -> PartDdl {
    PartDdl { ddl: ddl.to_string(), comment: comment.map(|s| s.to_string()) }
}

fn none() -> PartAlter {
    PartAlter { rename: vec![], comments: vec![], alter: vec![] }
}

fn editor(fields: Vec<TableField>, old_fields: Vec<TableField>, key_name: Option<&str>, comment: &[&str], old_comment: &[&str]) -> TableDetailComponent {
    TableDetailComponent {
        schema_name: Some("public".to_string()),
        table_name: Some("users".to_string()),
        key_name: key_name.map(|s| s.to_string()),
        fields,
        old_fields,
        indexes: vec![],
        old_indexes: vec![],
        foreign_keys: vec![],
        old_foreign_keys: vec![],
        uniques: vec![],
        old_uniques: vec![],
        checks: vec![],
        old_checks: vec![],
        excludes: vec![],
        old_excludes: vec![],
        rules: vec![],
        old_rules: vec![],
        triggers: vec![],
        old_triggers: vec![],
        comment: comment.iter().map(|s| s.to_string()).collect(),
        old_comment: old_comment.iter().map(|s| s.to_string()).collect(),
    }
}

#[test]
fn pg_create_table_statement() {
    let e = editor(vec![field(1, "id", true)], vec![], None, &[""], &[""]);
    let parts = PgCreateParts {
        fields: vec![part("\"id\" int4", Some("COMMENT ON COLUMN id IS 'key'")), part("\"name\" text", None)],
        foreign_keys: vec![],
        uniques: vec![],
        checks: vec![],
        excludes: vec![],
        indexes: vec![part("CREATE INDEX ix ON users (name);", None)],
        rules: vec![],
        triggers: vec![],
    };
    assert_eq!(e.build_create_ddl(Some("users"), &parts),
        "CREATE TABLE \"public\".\"users\" (\n\"id\" int4,\n\"name\" text,\n\nPRIMARY KEY (\"id\")\n);\n            CREATE INDEX ix ON users (name);\n            \n            \n            COMMENT ON COLUMN id IS 'key'");
}

#[test]
fn primary_key_alter_drops_named_constraint() {
    let e = editor(vec![field(1, "a", true), field(2, "b", true)], vec![field(1, "a", true)], Some("users_pkey"), &[""], &[""]);
    assert_eq!(e.build_primary_key_alter(), vec!["DROP CONSTRAINT \"users_pkey\"", "ADD PRIMARY KEY (a,b)"]);
    let e = editor(vec![field(1, "a", true)], vec![field(1, "a", true)], Some("users_pkey"), &[""], &[""]);
    assert!(e.build_primary_key_alter().is_empty());
}

#[test]
fn alter_table_statements() {
    let e = editor(vec![field(1, "id", true)], vec![field(1, "id", true)], Some("pk"), &["new"], &["old"]);
    let p = PgAlterParts {
        fields: PartAlter {
            rename: vec!["ALTER TABLE r RENAME COLUMN a TO b;".to_string()],
            comments: vec![],
            alter: vec!["ALTER COLUMN \"b\" TYPE text".to_string()],
        },
        indexes: none(),
        foreign_keys: none(),
        uniques: none(),
        checks: none(),
        excludes: none(),
        rules: none(),
        triggers: none(),
    };
    assert_eq!(e.build_alter_ddl(&p),
        "ALTER TABLE r RENAME COLUMN a TO b;\nALTER TABLE \"public\".\"users\"\nALTER COLUMN \"b\" TYPE text;\nCOMMENT ON TABLE \"public\".\"users\" IS 'new';");
}

#[test]
fn pg_unchanged_table_has_no_statement() {
    let e = editor(vec![field(1, "id", true)], vec![field(1, "id", true)], Some("pk"), &["c"], &["c"]);
    let p = PgAlterParts {
        fields: none(), indexes: none(), foreign_keys: none(), uniques: none(),
        checks: none(), excludes: none(), rules: none(), triggers: none(),
    };
    assert_eq!(e.build_alter_ddl(&p), "");
}

#[test]
fn pg_save_chooses_create_or_alter() {
    let create = PgCreateParts {
        fields: vec![part("\"id\" int4", None)], foreign_keys: vec![], uniques: vec![], checks: vec![], excludes: vec![],
        indexes: vec![], rules: vec![], triggers: vec![],
    };
    let alter = PgAlterParts {
        fields: none(), indexes: none(), foreign_keys: none(), uniques: none(),
        checks: none(), excludes: none(), rules: none(), triggers: none(),
    };
    let mut e = editor(vec![field(1, "id", false)], vec![field(1, "id", false)], None, &["x"], &["y"]);
    assert_eq!(e.build_sql(None, &create, &alter), "COMMENT ON TABLE \"public\".\"users\" IS 'x';");
    e.table_name = None;
    assert_eq!(e.build_sql(None, &create, &alter),
        "CREATE TABLE \"public\".\"new_table\" (\n\"id\" int4\n);\n            \n            \n            \n            ");
}

#[test]
fn text_is_split_into_lines_as_std_does() {
    for t in ["", "a", "a\n", "a\r\nb", "a\n\nb\r", "\n", "x\ry\n\r\n"] {
        let expected: Vec<String> = t.lines().map(|l| l.to_string()).collect();
        assert_eq!(split_lines(t), expected, "{:?}", t);
    }
}

#[test]
fn loading_a_pg_table_makes_it_the_baseline() {
    let mut e = editor(vec![], vec![], None, &[""], &[""]);
    e.load_table("sales".to_string(), "orders".to_string(), vec![field(1, "id", true)], Some("orders_pkey".to_string()),
        parts(), Some("first\r\nsecond\n".to_string()));
    assert_eq!(e.old_indexes[0].name, "ix");
    assert_eq!(e.old_foreign_keys[0].ref_table, "orgs");
    assert_eq!(e.old_uniques[0].fields, "a,b");
    assert_eq!(e.old_checks[0].expression, "a > 0");
    assert_eq!(e.old_excludes[0].element, "c WITH &&");
    assert_eq!(e.old_rules[0].event, "INSERT");
    assert_eq!(e.old_triggers[0].fn_name, "audit");
    assert_eq!(e.triggers.len(), 1);
    assert_eq!(e.schema_name, Some("sales".to_string()));
    assert_eq!(e.table_name, Some("orders".to_string()));
    assert_eq!(e.key_name, Some("orders_pkey".to_string()));
    assert_eq!(e.old_fields.len(), 1);
    assert_eq!(e.comment, vec!["first".to_string(), "second".to_string()]);
    assert_eq!(e.old_comment, e.comment);
    e.load_table("sales".to_string(), "orders".to_string(), vec![], None, empty_parts(), None);
    assert!(e.old_indexes.is_empty());
    assert_eq!(e.comment, vec![String::new()]);
    assert_eq!(comment_lines(&Some(String::new())), vec![String::new()]);
    e.load_new_table("public".to_string());
    assert_eq!(e.table_name, None);
    assert_eq!(e.schema_name, Some("public".to_string()));
}

fn empty_parts() -> PgTableParts {
    PgTableParts { indexes: vec![], foreign_keys: vec![], uniques: vec![], checks: vec![], excludes: vec![], rules: vec![], triggers: vec![] }
}

fn text(v: &str) -> String {
    v.to_string()
}

fn parts() -> PgTableParts {
    PgTableParts {
        indexes: vec![Index { id: 2, name: text("ix"), fields: text("a"), index_method: None, unique: false, concurrent: false, comment: None }],
        foreign_keys: vec![ForeignKey { id: 3, name: text("fk"), field: text("org"), ref_schema: text("public"), ref_table: text("orgs"),
            ref_field: text("id"), on_delete: None, on_update: None, comment: None }],
        uniques: vec![Unique { id: 4, name: text("uq"), fields: text("a,b"), comment: None }],
        checks: vec![Check { id: 5, name: text("ck"), expression: text("a > 0"), no_inherit: false, comment: None }],
        excludes: vec![Exclude { id: 6, name: text("ex"), index_method: Some(text("gist")), element: text("c WITH &&"), comment: None }],
        rules: vec![Rule { id: 7, name: text("r"), event: text("INSERT"), do_instead: None, where_condition: None, definition: None,
            enable: true, comment: None }],
        triggers: vec![Trigger { id: 8, name: text("t"), for_each: None, fires: None, insert: true, update: false, delete: false,
            truncate: false, update_fields: String::new(), enable: true, where_condition: None, fn_schema: text("public"),
            fn_name: text("audit"), fn_arg: None }],
    }
}

fn form(entries: &[(&str, Option<&str>)]) -> FormData {
    FormData { entries: entries.iter().map(|(k, v)| (k.to_string(), v.map(|s| s.to_string()))).collect() }
}

const ID: &str = "67e55044-10b1-426f-9247-bb680e5fe0c8";

#[test]
fn pg_field_from_its_dialog() {
    let f = pg_field_from_form(&form(&[("id", Some(ID)), ("name", Some("price")), ("type", Some("numeric")), ("not null", Some("true")),
        ("key", Some("false")), ("comment", None), ("default value", None), ("length", Some("10")), ("decimal", Some("x"))])).ok().unwrap();
    assert_eq!(f.id, uuid::Uuid::parse_str(ID).unwrap().as_u128());
    assert_eq!(f.name, "price");
    assert!(!f.key);
    match f.attrs {
        FieldAttrs::Pg(a) => {
            assert_eq!(a.kind, "numeric");
            assert!(a.not_null);
            assert_eq!(a.default_value, Some(String::new()));
            assert_eq!(a.length, Some(10));
            assert_eq!(a.decimal, None);
        },
        _ => panic!("not a PostgreSQL field"),
    }
    let g = pg_field_from_form(&form(&[("name", Some("n")), ("type", Some("text")), ("not null", Some("false")),
        ("key", Some("true")), ("comment", Some("c"))])).ok().unwrap();
    assert!(g.key);
    match g.attrs {
        FieldAttrs::Pg(a) => assert!(a.default_value.is_none() && a.length.is_none() && a.comment == Some(text("c"))),
        _ => panic!("not a PostgreSQL field"),
    }
    let bad = pg_field_from_form(&form(&[("id", Some("nope")), ("name", Some("n")), ("type", Some("text")),
        ("not null", Some("false")), ("key", Some("true")), ("comment", None)]));
    assert!(matches!(bad, Err(ItemFormError::InvalidId(_))));
}

#[test]
fn pg_items_from_their_dialogs() {
    let i = index_from_form(&form(&[("id", Some(ID)), ("name", Some("ix")), ("fields", Some("a,b")), ("index method", Some("btree")),
        ("unique", Some("true")), ("concurrent", Some("false")), ("comment", None)])).ok().unwrap();
    assert!(i.unique && !i.concurrent);
    assert_eq!(i.field_list(), vec![text("a"), text("b")]);
    assert_eq!(i.index_method, Some(text("btree")));
    let k = foreign_key_from_form(&form(&[("name", Some("fk")), ("field", Some("org")), ("reference schema", Some("s")),
        ("reference table", Some("t")), ("reference field", Some("id")), ("on delete", Some("CASCADE")), ("on update", None),
        ("comment", None)])).ok().unwrap();
    assert_eq!(k.ref_schema, "s");
    assert_eq!(k.on_delete, Some(text("CASCADE")));
    let u = unique_from_form(&form(&[("name", Some("uq")), ("fields", Some("x")), ("comment", Some("c"))])).ok().unwrap();
    assert_eq!(u.field_list(), vec![text("x")]);
    let r = rule_from_form(&form(&[("name", Some("r")), ("event", Some("UPDATE")), ("do instead", Some("NOTHING")), ("where", None),
        ("definition", None), ("enable", Some("true")), ("comment", None)])).ok().unwrap();
    assert!(r.enable);
    assert_eq!(r.do_instead, Some(text("NOTHING")));
    let t = trigger_from_form(&form(&[("name", Some("t")), ("for each", Some("ROW")), ("fires", Some("BEFORE")), ("insert", Some("true")),
        ("update", Some("true")), ("delete", Some("false")), ("truncate", Some("false")), ("update fields", Some("a,b")),
        ("enable", Some("true")), ("where", None), ("function schema", Some("public")), ("function name", Some("f")),
        ("function arg", None)])).ok().unwrap();
    assert!(t.insert && t.update && !t.delete);
    assert_eq!(t.update_field_list(), vec![text("a"), text("b")]);
    let c = check_from_form(&form(&[("name", Some("ck")), ("expression", Some("a > 0")), ("no inherit", Some("true")),
        ("comment", None)])).ok().unwrap();
    assert!(c.no_inherit);
    let x = exclude_from_form(&form(&[("name", Some("ex")), ("index method", None), ("element", Some("a WITH =,b WITH &&")),
        ("comment", None)])).ok().unwrap();
    assert_eq!(x.element_list(), vec![text("a WITH ="), text("b WITH &&")]);
    assert!(matches!(check_from_form(&form(&[("id", Some("x")), ("name", Some("ck")), ("expression", Some("e")),
        ("no inherit", Some("false")), ("comment", None)])), Err(ItemFormError::InvalidId(_))));
}
