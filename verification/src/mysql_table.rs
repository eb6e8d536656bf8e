//! The statements that create or alter a MySQL table.
use vstd::prelude::*;
use vstd::string::*;
use crate::form::{filled, form_entry, item_at, lookup, opt_clone, opt_str_eq, opt_view, reads_true_at, text_at, value_at, EntryView, FormData};
use crate::connection::{form_id, id_error, id_from_form};
use crate::mysql_user::{clone_strings, form_value};
use crate::text::{cat, cat3, join, seq_join, views};
use crate::panel::Version;
use crate::connection::new_uuid;
use crate::text::{char_pieces, chars_of, copy_strings, push_char, split_char};
use crate::pattern::{create_table_groups, create_table_options, regex_captures, CREATE_TABLE_PATTERN};

verus! {

/// A field of a table: its id, its name, whether it is in the primary key, and the attributes
/// that its dialog sets (see `FieldAttrs`).
pub struct TableField {
    pub id: u128,
    pub name: String,
    pub key: bool,
    pub attrs: FieldAttrs,
}

/// The attributes of a field beyond its id, name and key, as the MySQL or PostgreSQL field
/// dialog sets them.
pub enum FieldAttrs {
    MySql(MySqlFieldAttrs),
    Pg(PgFieldAttrs),
}

/// The type of a MySQL field, as the field dialog offers it.
#[derive(PartialEq, Eq, Structural, Clone, Copy)]
pub enum FieldKind {
    BigInt, Binary, Bit, Blob, Char, Date, DateTime, Decimal, Double, Enum, Float, Geometry,
    GeometryCollection, Int, Integer, Json, LineString, LongBlob, LongText, MediumBlob, MediumInt,
    MediumText, MultiLineString, MultiPoint, MultiPolygon, Numeric, Point, Polygon, Real, SetOf,
    SmallInt, Text, Time, Timestamp, TinyBlob, TinyInt, TinyText, VarBinary, VarChar, Year,
}

/// The families of MySQL field types that share the attributes they read from the dialog.
#[derive(PartialEq, Eq, Structural, Clone, Copy)]
pub enum FieldShape {
    Int, Binary, Simple, Char, Date, DateTime, Decimal, Float, Enum, Time, Text,
}

/// The family of a MySQL field type.
pub open spec fn shape_of(k: FieldKind) -> FieldShape {
    match k {
        FieldKind::BigInt | FieldKind::Int | FieldKind::Integer | FieldKind::MediumInt
            | FieldKind::SmallInt | FieldKind::TinyInt => FieldShape::Int,
        FieldKind::Binary | FieldKind::Bit | FieldKind::VarBinary => FieldShape::Binary,
        FieldKind::Blob | FieldKind::Geometry | FieldKind::GeometryCollection | FieldKind::Json
            | FieldKind::LineString | FieldKind::LongBlob | FieldKind::MediumBlob | FieldKind::MultiLineString
            | FieldKind::MultiPoint | FieldKind::MultiPolygon | FieldKind::Point | FieldKind::Polygon
            | FieldKind::TinyBlob => FieldShape::Simple,
        FieldKind::Char | FieldKind::VarChar => FieldShape::Char,
        FieldKind::Date | FieldKind::Year => FieldShape::Date,
        FieldKind::DateTime | FieldKind::Timestamp => FieldShape::DateTime,
        FieldKind::Decimal | FieldKind::Numeric => FieldShape::Decimal,
        FieldKind::Double | FieldKind::Float | FieldKind::Real => FieldShape::Float,
        FieldKind::Enum | FieldKind::SetOf => FieldShape::Enum,
        FieldKind::Time => FieldShape::Time,
        FieldKind::LongText | FieldKind::MediumText | FieldKind::Text | FieldKind::TinyText => FieldShape::Text,
    }
}

/// The family of a MySQL field type (see `shape_of`).
pub fn field_shape(k: FieldKind) -> (r: FieldShape)
    ensures
        r == shape_of(k),
{
    match k {
        FieldKind::BigInt | FieldKind::Int | FieldKind::Integer | FieldKind::MediumInt
            | FieldKind::SmallInt | FieldKind::TinyInt => FieldShape::Int,
        FieldKind::Binary | FieldKind::Bit | FieldKind::VarBinary => FieldShape::Binary,
        FieldKind::Blob | FieldKind::Geometry | FieldKind::GeometryCollection | FieldKind::Json
            | FieldKind::LineString | FieldKind::LongBlob | FieldKind::MediumBlob | FieldKind::MultiLineString
            | FieldKind::MultiPoint | FieldKind::MultiPolygon | FieldKind::Point | FieldKind::Polygon
            | FieldKind::TinyBlob => FieldShape::Simple,
        FieldKind::Char | FieldKind::VarChar => FieldShape::Char,
        FieldKind::Date | FieldKind::Year => FieldShape::Date,
        FieldKind::DateTime | FieldKind::Timestamp => FieldShape::DateTime,
        FieldKind::Decimal | FieldKind::Numeric => FieldShape::Decimal,
        FieldKind::Double | FieldKind::Float | FieldKind::Real => FieldShape::Float,
        FieldKind::Enum | FieldKind::SetOf => FieldShape::Enum,
        FieldKind::Time => FieldShape::Time,
        FieldKind::LongText | FieldKind::MediumText | FieldKind::Text | FieldKind::TinyText => FieldShape::Text,
    }
}

/// Whether a field of the family reads "length".
pub open spec fn reads_length(sh: FieldShape) -> bool {
    sh == FieldShape::Int || sh == FieldShape::Binary || sh == FieldShape::Char || sh == FieldShape::DateTime
        || sh == FieldShape::Decimal || sh == FieldShape::Float || sh == FieldShape::Time
}

/// Whether a field of the family reads "default value".
pub open spec fn reads_default(sh: FieldShape) -> bool {
    sh != FieldShape::Simple && sh != FieldShape::Text
}

/// Whether a field of the family reads "auto increment".
pub open spec fn reads_auto_increment(sh: FieldShape) -> bool {
    sh == FieldShape::Int || sh == FieldShape::Float
}

/// Whether a field of the family reads "unsigned" and "zerofill".
pub open spec fn reads_sign(sh: FieldShape) -> bool {
    sh == FieldShape::Int || sh == FieldShape::Decimal || sh == FieldShape::Float
}

/// Whether a field of the family reads "decimal".
pub open spec fn reads_decimal(sh: FieldShape) -> bool {
    sh == FieldShape::Decimal || sh == FieldShape::Float
}

/// Whether a field of the family reads "character set" and "collation".
pub open spec fn reads_charset(sh: FieldShape) -> bool {
    sh == FieldShape::Char || sh == FieldShape::Enum || sh == FieldShape::Text
}

/// The attributes of a MySQL field. An attribute that the field's type does not read is absent
/// (`None`, `false` or empty options). The options of an enumeration are held as the dialog
/// writes them, separated by commas (`option_list` splits them).
pub struct MySqlFieldAttrs {
    pub kind: FieldKind,
    pub not_null: bool,
    pub comment: Option<String>,
    pub length: Option<String>,
    pub default_value: Option<String>,
    pub decimal: Option<String>,
    pub character_set: Option<String>,
    pub collation: Option<String>,
    pub auto_increment: bool,
    pub unsigned: bool,
    pub zerofill: bool,
    pub on_update: bool,
    pub options: String,
}

/// The attributes of a PostgreSQL field: its type as the dialog names it, whether it is not
/// null, its comment, default value, length and decimals.
pub struct PgFieldAttrs {
    pub kind: String,
    pub not_null: bool,
    pub comment: Option<String>,
    pub default_value: Option<String>,
    pub length: Option<i32>,
    pub decimal: Option<i32>,
}

/// An index of the table as the editor lists it: its id, name, indexed fields (as the index
/// dialog writes them, separated by commas; `field_list` splits them), kind (`None` for a
/// normal index), method and comment.
pub struct Index {
    pub id: u128,
    pub name: String,
    pub fields: String,
    pub kind: Option<String>,
    pub method: Option<String>,
    pub comment: Option<String>,
}

/// A foreign key of the table as the editor lists it: its id, name, field, the database, table
/// and field it refers to, and its ON DELETE and ON UPDATE actions.
pub struct ForeignKey {
    pub id: u128,
    pub name: String,
    pub field: String,
    pub ref_db: String,
    pub ref_table: String,
    pub ref_field: String,
    pub on_delete: Option<String>,
    pub on_update: Option<String>,
}

/// When a trigger fires.
#[derive(PartialEq, Eq, Structural, Clone, Copy)]
pub enum TriggerTime {
    Before,
    After,
}

/// The statement that fires a trigger.
#[derive(PartialEq, Eq, Structural, Clone, Copy)]
pub enum TriggerAction {
    Insert,
    Update,
    Delete,
}

/// A trigger of the table: its id, name, time, action and statement.
pub struct Trigger {
    pub id: u128,
    pub name: String,
    pub time: TriggerTime,
    pub action: TriggerAction,
    pub statement: String,
}

/// A check constraint of the table: its id, name, expression and whether it is not enforced.
pub struct Check {
    pub id: u128,
    pub name: String,
    pub expression: String,
    pub not_enforced: bool,
}

/// The names of the primary-key fields, in order.
pub open spec fn key_names(fields: Seq<TableField>) -> Seq<Seq<char>>
    decreases fields.len(),
{
    if fields.len() == 0 {
        Seq::empty()
    } else {
        let rest = key_names(fields.drop_last());
        if fields.last().key { rest.push(fields.last().name@) } else { rest }
    }
}

/// Each name between two quote characters `q`.
pub open spec fn quoted(names: Seq<Seq<char>>, q: Seq<char>) -> Seq<Seq<char>>
    decreases names.len(),
{
    if names.len() == 0 {
        Seq::empty()
    } else {
        quoted(names.drop_last(), q).push(q + names.last() + q)
    }
}

/// The names of the primary-key fields.
pub fn key_field_names(fields: &Vec<TableField>) -> (r: Vec<String>)
    ensures
        views(r@) == key_names(fields@),
{
    let mut r: Vec<String> = Vec::new();
    let n = fields.len();
    for i in 0..n
        invariant
            n == fields@.len(),
            views(r@) == key_names(fields@.take(i as int)),
    {
        assert(fields@.take(i + 1).drop_last() =~= fields@.take(i as int));
        if fields[i].key {
            let ghost before = views(r@);
            r.push(fields[i].name.clone());
            assert(views(r@) =~= before.push(fields@[i as int].name@));
        }
    }
    assert(fields@.take(n as int) =~= fields@);
    r
}

/// Each name between two `q`.
pub fn quote_names(names: &Vec<String>, q: &str) -> (r: Vec<String>)
    ensures
        views(r@) == quoted(views(names@), q@),
{
    let mut r: Vec<String> = Vec::new();
    let n = names.len();
    for i in 0..n
        invariant
            n == names@.len(),
            views(r@) == quoted(views(names@).take(i as int), q@),
    {
        assert(views(names@).take(i + 1).drop_last() =~= views(names@).take(i as int));
        let ghost before = views(r@);
        r.push(cat3(q, names[i].as_str(), q));
        assert(views(r@) =~= before.push(q@ + views(names@)[i as int] + q@));
    }
    assert(views(names@).take(n as int) =~= views(names@));
    r
}

/// Whether two lists of strings are equal.
pub fn strings_eq(a: &Vec<String>, b: &Vec<String>) -> (r: bool)
    ensures
        r == (views(a@) == views(b@)),
{
    if a.len() != b.len() {
        assert(views(a@).len() != views(b@).len());
        return false;
    }
    let n = a.len();
    for i in 0..n
        invariant
            n == a@.len(),
            n == b@.len(),
            forall|k: int| 0 <= k < i ==> a@[k]@ == b@[k]@,
    {
        if !(a[i] == b[i]) {
            assert(views(a@)[i as int] != views(b@)[i as int]);
            return false;
        }
    }
    assert(views(a@) =~= views(b@));
    true
}

/// The statements that change the primary key when its fields changed: a drop of the old key
/// (when there was one) and the new key, its fields quoted with backticks.
pub open spec fn primary_key_alter(old: Seq<TableField>, new: Seq<TableField>) -> Seq<Seq<char>> {
    if key_names(old) != key_names(new) {
        (if key_names(old).len() > 0 { seq!["DROP PRIMARY KEY"@] } else { Seq::empty() })
            + seq!["ADD PRIMARY KEY ("@ + seq_join(quoted(key_names(new), "`"@), ","@) + ")"@]
    } else {
        Seq::empty()
    }
}

/// The comment lines of an empty comment editor: one empty line.
pub open spec fn lines_empty(lines: Seq<Seq<char>>) -> bool {
    lines.len() == 1 && lines[0].len() == 0
}

/// `before` `value` `after` for a non-empty value, else empty.
pub open spec fn piece(v: Option<Seq<char>>, before: Seq<char>, after: Seq<char>) -> Seq<char> {
    match v {
        Some(x) => if x.len() > 0 { before + x + after } else { Seq::empty() },
        None => Seq::empty(),
    }
}

/// The option keys of the table form.
pub open spec fn options_form_complete(form: Seq<EntryView>) -> bool {
    &&& lookup(form, "engine"@) is Some
    &&& lookup(form, "avg row length"@) is Some
    &&& lookup(form, "default character set"@) is Some
    &&& lookup(form, "default collation"@) is Some
    &&& lookup(form, "key block size"@) is Some
    &&& lookup(form, "max rows"@) is Some
    &&& lookup(form, "min rows"@) is Some
}

/// The table options of a CREATE TABLE statement, each non-empty option in the order engine,
/// average row length, character set, collation, key block size, max rows and min rows, then the
/// comment when the comment editor is not empty.
pub open spec fn options_sql(form: Seq<EntryView>, comment: Seq<Seq<char>>) -> Seq<char> {
    piece(form_value(form, "engine"@), "ENGINE "@, " "@)
        + piece(form_value(form, "avg row length"@), "AVG_ROW_LENGTH = "@, " "@)
        + piece(form_value(form, "default character set"@), "CHARACTER SET = "@, " "@)
        + piece(form_value(form, "default collation"@), "COLLATE "@, " "@)
        + piece(form_value(form, "key block size"@), "KEY_BLOCK_SIZE = "@, " "@)
        + piece(form_value(form, "max rows"@), "MAX_ROWS = "@, Seq::empty())
        + piece(form_value(form, "min rows"@), "MIN_ROWS = "@, Seq::empty())
        + (if !lines_empty(comment) { "COMMENT = '"@ + seq_join(comment, "\n"@) + "'"@ } else { Seq::empty() })
}

/// " `label` `value`" when the option changed to a value, else empty.
pub open spec fn changed_option(new: Option<Seq<char>>, old: Option<Seq<char>>, label: Seq<char>) -> Seq<char> {
    if new != old && new is Some { label + new->0 } else { Seq::empty() }
}

/// " `label` `value`" when the option changed; a cleared value is written "0".
pub open spec fn changed_number(new: Option<Seq<char>>, old: Option<Seq<char>>, label: Seq<char>) -> Seq<char> {
    if new != old { label + (match new { Some(v) => v, None => "0"@ }) } else { Seq::empty() }
}

/// The option clauses of an ALTER TABLE statement: each changed option, in the order engine,
/// character set, collation, average row length, min rows, max rows, key block size, comment.
pub open spec fn options_alter(form: Seq<EntryView>, old_form: Seq<EntryView>, comment: Seq<Seq<char>>,
    old_comment: Seq<Seq<char>>) -> Seq<char> {
    let c = seq_join(comment, "\n"@);
    changed_option(form_value(form, "engine"@), form_value(old_form, "engine"@), " ENGINE = "@)
        + changed_option(form_value(form, "default character set"@), form_value(old_form, "default character set"@),
            " DEFAULT CHARACTER SET = "@)
        + changed_option(form_value(form, "default collation"@), form_value(old_form, "default collation"@),
            " DEFAULT COLLATE = "@)
        + changed_number(form_value(form, "avg row length"@), form_value(old_form, "avg row length"@), " AVG_ROW_LENGTH = "@)
        + changed_number(form_value(form, "min rows"@), form_value(old_form, "min rows"@), " MIN_ROWS = "@)
        + changed_number(form_value(form, "max rows"@), form_value(old_form, "max rows"@), " MAX_ROWS = "@)
        + changed_number(form_value(form, "key block size"@), form_value(old_form, "key block size"@), " KEY_BLOCK_SIZE = "@)
        + (if c != seq_join(old_comment, "\n"@) { " COMMENT = '"@ + c + "'"@ } else { Seq::empty() })
}

/// The statements of the table's parts, as the parts themselves write them.
pub struct CreateParts {
    pub fields: Vec<String>,
    pub indexes: Vec<String>,
    pub foreign_keys: Vec<String>,
    pub checks: Vec<String>,
    pub triggers: Vec<String>,
}

/// The clauses that alter the table's parts, as the parts write them, each list in the order
/// that `diff_ids` gives (`crate::diff::compose_alter` composes such a list from each item's
/// clauses): for fields the additions and alterations, then the drops; for the other parts the
/// whole list.
pub struct AlterParts {
    pub field_changes: Vec<String>,
    pub field_drops: Vec<String>,
    pub indexes: Vec<String>,
    pub foreign_keys: Vec<String>,
    pub checks: Vec<String>,
    pub triggers: Vec<String>,
}

/// Whether the statements of `parts` are one per field, index, foreign key, check and trigger
/// of the editor `t`.
pub open spec fn create_parts_match(t: TableDetailComponent, parts: CreateParts) -> bool {
    &&& parts.fields@.len() == t.fields@.len()
    &&& parts.indexes@.len() == t.indexes@.len()
    &&& parts.foreign_keys@.len() == t.foreign_keys@.len()
    &&& parts.checks@.len() == t.checks@.len()
    &&& parts.triggers@.len() == t.triggers@.len()
}

/// The CREATE TABLE statement: the fields, the primary key, the indexes, foreign keys and
/// checks, one per line, then the options, then the triggers.
pub open spec fn create_table_ddl(name: Seq<char>, fields: Seq<TableField>, parts: Seq<Seq<Seq<char>>>,
    options: Seq<char>) -> Seq<char> {
    let keys = key_names(fields);
    let body = parts[0]
        + (if keys.len() > 0 { seq!["\nPRIMARY KEY ("@ + seq_join(quoted(keys, "`"@), ","@) + ")"@] } else { Seq::empty() })
        + parts[1] + parts[2] + parts[3];
    "CREATE TABLE `"@ + name + "` (\n"@ + seq_join(body, ",\n"@) + "\n)"@ + options + ";\n"@ + seq_join(parts[4], "\n"@)
}

/// The ALTER TABLE statement (when anything but the triggers changed), then the trigger
/// statements, one per line.
pub open spec fn alter_table_ddl(name: Seq<char>, old_fields: Seq<TableField>, fields: Seq<TableField>,
    p: Seq<Seq<Seq<char>>>, options: Seq<char>) -> Seq<char> {
    let alter = p[0] + p[1] + primary_key_alter(old_fields, fields) + p[2] + p[3] + p[4]
        + (if options.len() > 0 { seq![options] } else { Seq::empty() });
    let head = if alter.len() > 0 {
        seq!["ALTER TABLE `"@ + name + "`\n"@ + seq_join(alter, ",\n"@) + ";"@]
    } else {
        Seq::empty()
    };
    seq_join(head + p[5], "\n"@)
}

/// The state of the table editor that the statements are made from. `comment` holds the lines
/// of the comment editor.
pub struct TableDetailComponent {
    pub table_name: Option<String>,
    pub db_version: Version,
    pub fields: Vec<TableField>,
    pub old_fields: Vec<TableField>,
    pub indexes: Vec<Index>,
    pub old_indexes: Vec<Index>,
    pub foreign_keys: Vec<ForeignKey>,
    pub old_foreign_keys: Vec<ForeignKey>,
    pub triggers: Vec<Trigger>,
    pub old_triggers: Vec<Trigger>,
    pub checks: Vec<Check>,
    pub old_checks: Vec<Check>,
    pub form: FormData,
    pub old_form: FormData,
    pub comment: Vec<String>,
    pub old_comment: Vec<String>,
}

fn piece_str(form: &FormData, key: &str, before: &str, after: &str) -> (r: String)
    requires
        lookup(form@, key@) is Some,
    ensures
        r@ == piece(form_value(form@, key@), before@, after@),
{
    match form.get(key) {
        Some(Some(x)) => if !x.as_str().is_empty() { cat3(before, x.as_str(), after) } else { String::new() },
        _ => String::new(),
    }
}

fn value_of(form: &FormData, key: &str) -> (r: Option<String>)
    requires
        lookup(form@, key@) is Some,
    ensures
        crate::form::opt_view(r) == form_value(form@, key@),
{
    match form.get(key) {
        Some(v) => v,
        None => None,
    }
}

fn changed_option_str(new: &Option<String>, prev: &Option<String>, label: &str) -> (r: String)
    ensures
        r@ == changed_option(crate::form::opt_view(*new), crate::form::opt_view(*prev), label@),
{
    if !opt_str_eq(new, prev) {
        match new {
            Some(v) => cat(label, v.as_str()),
            None => String::new(),
        }
    } else {
        String::new()
    }
}

fn changed_number_str(new: &Option<String>, prev: &Option<String>, label: &str) -> (r: String)
    ensures
        r@ == changed_number(crate::form::opt_view(*new), crate::form::opt_view(*prev), label@),
{
    if !opt_str_eq(new, prev) {
        match new {
            Some(v) => cat(label, v.as_str()),
            None => cat(label, "0"),
        }
    } else {
        String::new()
    }
}

impl TableDetailComponent {
    /// The statements that change the primary key (see `primary_key_alter`).
    pub fn build_primary_key_alter(&self) -> (r: Vec<String>)
        ensures
            views(r@) == primary_key_alter(self.old_fields@, self.fields@),
    {
        let old_keys = key_field_names(&self.old_fields);
        let keys = key_field_names(&self.fields);
        let mut r: Vec<String> = Vec::new();
        if !strings_eq(&old_keys, &keys) {
            if old_keys.len() > 0 {
                r.push("DROP PRIMARY KEY".to_owned());
            }
            let ghost before = views(r@);
            r.push(cat3("ADD PRIMARY KEY (", join(&quote_names(&keys, "`"), ",").as_str(), ")"));
            assert(views(r@) =~= before.push(views(r@).last()));
        }
        assert(views(r@) =~= primary_key_alter(self.old_fields@, self.fields@));
        r
    }

    /// The table options of a CREATE TABLE statement (see `options_sql`).
    pub fn build_options_sql(&self) -> (r: String)
        requires
            options_form_complete(self.form@),
        ensures
            r@ == options_sql(self.form@, views(self.comment@)),
    {
        let mut s = String::new();
        s.append(piece_str(&self.form, "engine", "ENGINE ", " ").as_str());
        s.append(piece_str(&self.form, "avg row length", "AVG_ROW_LENGTH = ", " ").as_str());
        s.append(piece_str(&self.form, "default character set", "CHARACTER SET = ", " ").as_str());
        s.append(piece_str(&self.form, "default collation", "COLLATE ", " ").as_str());
        s.append(piece_str(&self.form, "key block size", "KEY_BLOCK_SIZE = ", " ").as_str());
        proof { reveal_strlit(""); }
        s.append(piece_str(&self.form, "max rows", "MAX_ROWS = ", "").as_str());
        s.append(piece_str(&self.form, "min rows", "MIN_ROWS = ", "").as_str());
        let empty = self.comment.len() == 1 && self.comment[0].as_str().is_empty();
        assert(empty == lines_empty(views(self.comment@)));
        if !empty {
            s.append(cat3("COMMENT = '", join(&self.comment, "\n").as_str(), "'").as_str());
        }
        s
    }

    /// The option clauses of an ALTER TABLE statement (see `options_alter`).
    pub fn build_options_alter_ddl(&self) -> (r: String)
        requires
            options_form_complete(self.form@),
            options_form_complete(self.old_form@),
        ensures
            r@ == options_alter(self.form@, self.old_form@, views(self.comment@), views(self.old_comment@)),
    {
        let mut s = String::new();
        s.append(changed_option_str(&value_of(&self.form, "engine"), &value_of(&self.old_form, "engine"), " ENGINE = ").as_str());
        s.append(changed_option_str(&value_of(&self.form, "default character set"),
            &value_of(&self.old_form, "default character set"), " DEFAULT CHARACTER SET = ").as_str());
        s.append(changed_option_str(&value_of(&self.form, "default collation"),
            &value_of(&self.old_form, "default collation"), " DEFAULT COLLATE = ").as_str());
        proof { reveal_strlit("0"); }
        s.append(changed_number_str(&value_of(&self.form, "avg row length"),
            &value_of(&self.old_form, "avg row length"), " AVG_ROW_LENGTH = ").as_str());
        s.append(changed_number_str(&value_of(&self.form, "min rows"), &value_of(&self.old_form, "min rows"),
            " MIN_ROWS = ").as_str());
        s.append(changed_number_str(&value_of(&self.form, "max rows"), &value_of(&self.old_form, "max rows"),
            " MAX_ROWS = ").as_str());
        s.append(changed_number_str(&value_of(&self.form, "key block size"),
            &value_of(&self.old_form, "key block size"), " KEY_BLOCK_SIZE = ").as_str());
        let c = join(&self.comment, "\n");
        let oc = join(&self.old_comment, "\n");
        if !(c == oc) {
            s.append(cat3(" COMMENT = '", c.as_str(), "'").as_str());
        }
        s
    }

    /// The CREATE TABLE statement for the table named `table_name` or "new table" (see
    /// `create_table_ddl`), from the statements that its parts write: `parts.fields[i]` is the
    /// column definition of the `i`-th field, and likewise one entry per index, foreign key,
    /// check and trigger, in the editor's order.
    pub fn build_create_ddl(&self, table_name: Option<&str>, parts: &CreateParts) -> (r: String)
        requires
            options_form_complete(self.form@),
            create_parts_match(*self, *parts),
        ensures
            r@ == create_table_ddl(match table_name { Some(n) => n@, None => "new table"@ }, self.fields@,
                seq![views(parts.fields@), views(parts.indexes@), views(parts.foreign_keys@), views(parts.checks@),
                    views(parts.triggers@)],
                options_sql(self.form@, views(self.comment@))),
    {
        let name = match table_name { Some(n) => n, None => "new table" };
        let mut body = clone_strings(&parts.fields);
        let keys = key_field_names(&self.fields);
        let ghost b0 = views(body@);
        if keys.len() > 0 {
            body.push(cat3("\nPRIMARY KEY (", join(&quote_names(&keys, "`"), ",").as_str(), ")"));
        }
        let ghost b1 = views(body@);
        body.append(&mut clone_strings(&parts.indexes));
        body.append(&mut clone_strings(&parts.foreign_keys));
        body.append(&mut clone_strings(&parts.checks));
        let ghost parts_v = seq![views(parts.fields@), views(parts.indexes@), views(parts.foreign_keys@),
            views(parts.checks@), views(parts.triggers@)];
        assert(views(body@) =~= parts_v[0]
            + (if key_names(self.fields@).len() > 0 {
                seq!["\nPRIMARY KEY ("@ + seq_join(quoted(key_names(self.fields@), "`"@), ","@) + ")"@]
            } else { Seq::empty() })
            + parts_v[1] + parts_v[2] + parts_v[3]);
        let mut s = cat3("CREATE TABLE `", name, "` (\n");
        s.append(join(&body, ",\n").as_str());
        s.append("\n)");
        s.append(self.build_options_sql().as_str());
        s.append(";\n");
        s.append(join(&parts.triggers, "\n").as_str());
        s
    }

    /// The statements that alter the stored table (see `alter_table_ddl`), from the clauses that
    /// its parts write.
    pub fn build_alter_ddl(&self, parts: &AlterParts) -> (r: String)
        requires
            self.table_name is Some,
            options_form_complete(self.form@),
            options_form_complete(self.old_form@),
        ensures
            r@ == alter_table_ddl(self.table_name->0@, self.old_fields@, self.fields@,
                seq![views(parts.field_changes@), views(parts.field_drops@), views(parts.indexes@),
                    views(parts.foreign_keys@), views(parts.checks@), views(parts.triggers@)],
                options_alter(self.form@, self.old_form@, views(self.comment@), views(self.old_comment@))),
    {
        let name = match &self.table_name { Some(n) => n.as_str(), None => "" };
        let mut alter = clone_strings(&parts.field_changes);
        alter.append(&mut clone_strings(&parts.field_drops));
        alter.append(&mut self.build_primary_key_alter());
        alter.append(&mut clone_strings(&parts.indexes));
        alter.append(&mut clone_strings(&parts.foreign_keys));
        alter.append(&mut clone_strings(&parts.checks));
        let options = self.build_options_alter_ddl();
        let ghost a0 = views(alter@);
        if !options.as_str().is_empty() {
            alter.push(options);
        }
        let ghost p = seq![views(parts.field_changes@), views(parts.field_drops@), views(parts.indexes@),
            views(parts.foreign_keys@), views(parts.checks@), views(parts.triggers@)];
        let ghost ov = options_alter(self.form@, self.old_form@, views(self.comment@), views(self.old_comment@));
        assert(views(alter@) =~= p[0] + p[1] + primary_key_alter(self.old_fields@, self.fields@) + p[2] + p[3] + p[4]
            + (if ov.len() > 0 { seq![ov] } else { Seq::empty() }));
        let mut ddl: Vec<String> = Vec::new();
        if alter.len() > 0 {
            let mut s = cat3("ALTER TABLE `", name, "`\n");
            s.append(join(&alter, ",\n").as_str());
            s.append(";");
            ddl.push(s);
        }
        let ghost h = views(ddl@);
        let ghost av = views(alter@);
        assert(h =~= if av.len() > 0 {
            seq!["ALTER TABLE `"@ + self.table_name->0@ + "`\n"@ + seq_join(av, ",\n"@) + ";"@]
        } else {
            Seq::empty()
        });
        ddl.append(&mut clone_strings(&parts.triggers));
        assert(views(ddl@) =~= h + p[5]);
        join(&ddl, "\n")
    }
}

/// The options form of a table whose definition gave the options `caps` (engine, character
/// set, collation, min rows, max rows, average row length, key block size, comment; see
/// `create_table_options`).
pub open spec fn table_options_entries(caps: Seq<Option<Seq<char>>>) -> Seq<EntryView> {
    seq![
        ("engine"@, caps[0]),
        ("default character set"@, caps[1]),
        ("default collation"@, caps[2]),
        ("avg row length"@, caps[5]),
        ("min rows"@, caps[3]),
        ("max rows"@, caps[4]),
        ("key block size"@, caps[6]),
    ]
}

/// The options form of a new table: every option empty.
pub open spec fn empty_table_options() -> Seq<EntryView> {
    table_options_entries(Seq::new(8, |i: int| None::<Seq<char>>))
}

fn cap_at(caps: &Vec<Option<String>>, i: usize) -> (r: Option<String>)
    requires
        i < caps@.len(),
    ensures
        opt_view(r) == opt_view(caps@[i as int]),
{
    opt_clone(&caps[i])
}

fn options_form(caps: &Vec<Option<String>>) -> (r: FormData)
    requires
        caps@.len() == 8,
    ensures
        r@ == table_options_entries(caps@.map_values(|o: Option<String>| opt_view(o))),
{
    let mut entries: Vec<(String, Option<String>)> = Vec::new();
    entries.push(form_entry("engine", cap_at(caps, 0)));
    entries.push(form_entry("default character set", cap_at(caps, 1)));
    entries.push(form_entry("default collation", cap_at(caps, 2)));
    entries.push(form_entry("avg row length", cap_at(caps, 5)));
    entries.push(form_entry("min rows", cap_at(caps, 3)));
    entries.push(form_entry("max rows", cap_at(caps, 4)));
    entries.push(form_entry("key block size", cap_at(caps, 6)));
    let r = FormData { entries };
    assert(r@ =~= table_options_entries(caps@.map_values(|o: Option<String>| opt_view(o))));
    r
}

impl TableDetailComponent {
    /// Loads the options that the definition of the stored table gave (see
    /// `create_table_options`) into the options form, which becomes the stored options too;
    /// a comment that the definition gives becomes the comment and the stored comment.
    pub fn set_options(&mut self, caps: &Vec<Option<String>>)
        requires
            caps@.len() == 8,
        ensures
            final(self).form@ == table_options_entries(caps@.map_values(|o: Option<String>| opt_view(o))),
            final(self).old_form@ == final(self).form@,
            caps@[7] matches Some(c) ==> views(final(self).comment@) == seq![c@] && views(final(self).old_comment@) == seq![c@],
            caps@[7] is None ==> final(self).comment == old(self).comment && final(self).old_comment == old(self).old_comment,
            final(self).table_name == old(self).table_name,
            final(self).fields == old(self).fields,
            final(self).old_fields == old(self).old_fields,
            final(self).db_version == old(self).db_version,
            final(self).indexes == old(self).indexes,
            final(self).old_indexes == old(self).old_indexes,
            final(self).foreign_keys == old(self).foreign_keys,
            final(self).old_foreign_keys == old(self).old_foreign_keys,
            final(self).triggers == old(self).triggers,
            final(self).old_triggers == old(self).old_triggers,
            final(self).checks == old(self).checks,
            final(self).old_checks == old(self).old_checks,
    {
        self.form = options_form(caps);
        self.old_form = options_form(caps);
        if let Some(c) = &caps[7] {
            let mut comment: Vec<String> = Vec::new();
            comment.push(c.clone());
            let mut old_comment: Vec<String> = Vec::new();
            old_comment.push(c.clone());
            self.comment = comment;
            self.old_comment = old_comment;
            assert(views(self.comment@) =~= seq![c@]);
            assert(views(self.old_comment@) =~= seq![c@]);
        }
    }

    /// The options form of a new table: every option empty; the rest as it was.
    pub fn set_new_options(&mut self)
        ensures
            final(self).form@ == empty_table_options(),
            final(self).old_form == old(self).old_form,
            final(self).comment == old(self).comment,
            final(self).old_comment == old(self).old_comment,
            final(self).table_name == old(self).table_name,
            final(self).fields == old(self).fields,
            final(self).old_fields == old(self).old_fields,
            final(self).db_version == old(self).db_version,
            final(self).indexes == old(self).indexes,
            final(self).old_indexes == old(self).old_indexes,
            final(self).foreign_keys == old(self).foreign_keys,
            final(self).old_foreign_keys == old(self).old_foreign_keys,
            final(self).triggers == old(self).triggers,
            final(self).old_triggers == old(self).old_triggers,
            final(self).checks == old(self).checks,
            final(self).old_checks == old(self).old_checks,
    {
        let mut caps: Vec<Option<String>> = Vec::new();
        for i in 0..8usize
            invariant
                caps@.len() == i,
                forall|j: int| 0 <= j < i ==> caps@[j] is None,
        {
            caps.push(None);
        }
        self.form = options_form(&caps);
        assert(caps@.map_values(|o: Option<String>| opt_view(o)) =~= Seq::new(8, |i: int| None::<Seq<char>>));
    }
}

/// An options form and comment left as they were give no option clause.
pub proof fn lemma_unchanged_options(form: Seq<EntryView>, comment: Seq<Seq<char>>)
    ensures
        options_alter(form, form, comment, comment) == Seq::<char>::empty(),
{
    assert(options_alter(form, form, comment, comment) =~= Seq::<char>::empty());
}

/// The primary key is altered exactly when its fields changed.
pub proof fn lemma_primary_key_alter_iff_changed(old: Seq<TableField>, new: Seq<TableField>)
    ensures
        (primary_key_alter(old, new).len() > 0) == (key_names(old) != key_names(new)),
{
}

/// A table whose fields, parts and options did not change gets no statement.
pub proof fn lemma_unchanged_table(name: Seq<char>, fields: Seq<TableField>)
    ensures
        alter_table_ddl(name, fields, fields, Seq::new(6, |i: int| Seq::<Seq<char>>::empty()), Seq::<char>::empty())
            == Seq::<char>::empty(),
{
    let p = Seq::new(6, |i: int| Seq::<Seq<char>>::empty());
    let alter = p[0] + p[1] + primary_key_alter(fields, fields) + p[2] + p[3] + p[4];
    assert(alter =~= Seq::<Seq<char>>::empty());
    assert(Seq::<Seq<char>>::empty() + p[5] =~= Seq::<Seq<char>>::empty());
}

impl TableDetailComponent {
    /// The statements to run on save: those that alter the stored table when there is one, else
    /// the CREATE TABLE statement for the table named `table_name` or "new table".
    pub fn build_sql(&self, table_name: Option<&str>, create: &CreateParts, alter: &AlterParts) -> (r: String)
        requires
            options_form_complete(self.form@),
            self.table_name is Some ==> options_form_complete(self.old_form@),
            self.table_name is None ==> create_parts_match(*self, *create),
        ensures
            self.table_name is Some ==> r@ == alter_table_ddl(self.table_name->0@, self.old_fields@, self.fields@,
                seq![views(alter.field_changes@), views(alter.field_drops@), views(alter.indexes@),
                    views(alter.foreign_keys@), views(alter.checks@), views(alter.triggers@)],
                options_alter(self.form@, self.old_form@, views(self.comment@), views(self.old_comment@))),
            self.table_name is None ==> r@ == create_table_ddl(match table_name { Some(n) => n@, None => "new table"@ },
                self.fields@, seq![views(create.fields@), views(create.indexes@), views(create.foreign_keys@),
                    views(create.checks@), views(create.triggers@)],
                options_sql(self.form@, views(self.comment@))),
    {
        if self.table_name.is_some() {
            self.build_alter_ddl(alter)
        } else {
            self.build_create_ddl(table_name, create)
        }
    }
}

/// The trigger time that `SHOW TRIGGERS` reports as `t`.
pub open spec fn trigger_time_of(t: Seq<char>) -> Option<TriggerTime> {
    if t == "BEFORE"@ {
        Some(TriggerTime::Before)
    } else if t == "AFTER"@ {
        Some(TriggerTime::After)
    } else {
        None
    }
}

/// The trigger action that `SHOW TRIGGERS` reports as `e`.
pub open spec fn trigger_action_of(e: Seq<char>) -> Option<TriggerAction> {
    if e == "INSERT"@ {
        Some(TriggerAction::Insert)
    } else if e == "UPDATE"@ {
        Some(TriggerAction::Update)
    } else if e == "DELETE"@ {
        Some(TriggerAction::Delete)
    } else {
        None
    }
}

fn text_is(a: &str, b: &str) -> (r: bool)
    ensures
        r == (a@ == b@),
{
    a.to_owned() == b.to_owned()
}

/// The trigger time written `t` (see `trigger_time_of`).
pub fn parse_trigger_time(t: &str) -> (r: Option<TriggerTime>)
    ensures
        r == trigger_time_of(t@),
{
    if text_is(t, "BEFORE") {
        Some(TriggerTime::Before)
    } else if text_is(t, "AFTER") {
        Some(TriggerTime::After)
    } else {
        None
    }
}

/// The trigger action written `e` (see `trigger_action_of`).
pub fn parse_trigger_action(e: &str) -> (r: Option<TriggerAction>)
    ensures
        r == trigger_action_of(e@),
{
    if text_is(e, "INSERT") {
        Some(TriggerAction::Insert)
    } else if text_is(e, "UPDATE") {
        Some(TriggerAction::Update)
    } else if text_is(e, "DELETE") {
        Some(TriggerAction::Delete)
    } else {
        None
    }
}

/// `s` without its parentheses.
pub open spec fn without_parens(s: Seq<char>) -> Seq<char>
    decreases s.len(),
{
    if s.len() == 0 {
        Seq::empty()
    } else {
        let rest = without_parens(s.drop_last());
        if s.last() == '(' || s.last() == ')' { rest } else { rest.push(s.last()) }
    }
}

/// The text `s` with every parenthesis removed, as the check clauses that the server reports
/// are shown.
pub fn strip_parens(s: &str) -> (r: String)
    ensures
        r@ == without_parens(s@),
{
    let cs = chars_of(s);
    let mut r = String::new();
    for i in 0..cs.len()
        invariant
            r@ == without_parens(cs@.take(i as int)),
    {
        assert(cs@.take(i + 1).drop_last() =~= cs@.take(i as int));
        let c = cs[i];
        if !(c == '(' || c == ')') {
            push_char(&mut r, c);
        }
    }
    assert(cs@.take(cs@.len() as int) =~= cs@);
    r
}

/// A row of `SHOW TRIGGERS`: the trigger's name, timing, event and statement.
pub struct TriggerRow {
    pub name: String,
    pub timing: String,
    pub event: String,
    pub statement: String,
}

/// A check constraint as the server's information schema reports it: its name, its clause and
/// whether it is enforced ("YES" or "NO").
pub struct CheckRow {
    pub name: String,
    pub clause: String,
    pub enforced: String,
}

/// Whether `t` is the trigger that the row `r` describes (its id aside).
pub open spec fn trigger_of_row(t: Trigger, r: TriggerRow) -> bool {
    &&& t.name@ == r.name@
    &&& trigger_time_of(r.timing@) == Some(t.time)
    &&& trigger_action_of(r.event@) == Some(t.action)
    &&& t.statement@ == r.statement@
}

/// Whether every row names a known timing and event.
pub open spec fn trigger_rows_known(rows: Seq<TriggerRow>) -> bool {
    forall|i: int| 0 <= i < rows.len() ==> trigger_time_of((#[trigger] rows[i]).timing@) is Some
        && trigger_action_of(rows[i].event@) is Some
}

/// Whether `c` is the check that the row `r` describes (its id aside): its expression is the
/// clause without parentheses, and it is not enforced exactly when the row says "NO".
pub open spec fn check_of_row(c: Check, r: CheckRow) -> bool {
    &&& c.name@ == r.name@
    &&& c.expression@ == without_parens(r.clause@)
    &&& c.not_enforced == (r.enforced@ == "NO"@)
}

/// The triggers that the rows of `SHOW TRIGGERS` describe, each with a fresh id, in order;
/// `None` when a row names an unknown timing or event.
pub fn triggers_from_rows(rows: &Vec<TriggerRow>) -> (r: Option<Vec<Trigger>>)
    ensures
        r is Some == trigger_rows_known(rows@),
        r matches Some(v) ==> v@.len() == rows@.len()
            && forall|i: int| 0 <= i < rows@.len() ==> trigger_of_row(#[trigger] v@[i], rows@[i]),
{
    let mut v: Vec<Trigger> = Vec::new();
    for i in 0..rows.len()
        invariant
            v@.len() == i,
            forall|j: int| 0 <= j < i ==> trigger_of_row(#[trigger] v@[j], rows@[j]),
            forall|j: int| 0 <= j < i ==> trigger_time_of((#[trigger] rows@[j]).timing@) is Some
                && trigger_action_of(rows@[j].event@) is Some,
    {
        let row = &rows[i];
        let time = match parse_trigger_time(row.timing.as_str()) {
            Some(t) => t,
            None => {
                assert(trigger_time_of(rows@[i as int].timing@) is None);
                return None;
            },
        };
        let action = match parse_trigger_action(row.event.as_str()) {
            Some(a) => a,
            None => {
                assert(trigger_action_of(rows@[i as int].event@) is None);
                return None;
            },
        };
        v.push(Trigger {
            id: new_uuid(),
            name: row.name.clone(),
            time,
            action,
            statement: row.statement.clone(),
        });
    }
    Some(v)
}

/// The checks that the rows describe, each with a fresh id, in order (see `check_of_row`).
pub fn checks_from_rows(rows: &Vec<CheckRow>) -> (r: Vec<Check>)
    ensures
        r@.len() == rows@.len(),
        forall|i: int| 0 <= i < rows@.len() ==> check_of_row(#[trigger] r@[i], rows@[i]),
{
    let mut v: Vec<Check> = Vec::new();
    for i in 0..rows.len()
        invariant
            v@.len() == i,
            forall|j: int| 0 <= j < i ==> check_of_row(#[trigger] v@[j], rows@[j]),
    {
        let row = &rows[i];
        v.push(Check {
            id: new_uuid(),
            name: row.name.clone(),
            expression: strip_parens(row.clause.as_str()),
            not_enforced: text_is(row.enforced.as_str(), "NO"),
        });
    }
    v
}

fn copy_opt(o: &Option<String>) -> (r: Option<String>)
    ensures
        r == *o,
{
    match o {
        Some(x) => Some(x.clone()),
        None => None,
    }
}

pub(crate) fn copy_fields(v: &Vec<TableField>) -> (r: Vec<TableField>)
    ensures
        r@ == v@,
{
    let mut r: Vec<TableField> = Vec::new();
    for i in 0..v.len()
        invariant
            r@ == v@.take(i as int),
    {
        let f = &v[i];
        r.push(TableField { id: f.id, name: f.name.clone(), key: f.key, attrs: copy_attrs(&f.attrs) });
        assert(r@ =~= v@.take(i + 1));
    }
    assert(v@.take(v@.len() as int) =~= v@);
    r
}

fn copy_indexes(v: &Vec<Index>) -> (r: Vec<Index>)
    ensures
        r@ == v@,
{
    let mut r: Vec<Index> = Vec::new();
    for i in 0..v.len()
        invariant
            r@ == v@.take(i as int),
    {
        let x = &v[i];
        r.push(Index {
            id: x.id,
            name: x.name.clone(),
            fields: x.fields.clone(),
            kind: copy_opt(&x.kind),
            method: copy_opt(&x.method),
            comment: copy_opt(&x.comment),
        });
        assert(r@ =~= v@.take(i + 1));
    }
    assert(v@.take(v@.len() as int) =~= v@);
    r
}

fn copy_foreign_keys(v: &Vec<ForeignKey>) -> (r: Vec<ForeignKey>)
    ensures
        r@ == v@,
{
    let mut r: Vec<ForeignKey> = Vec::new();
    for i in 0..v.len()
        invariant
            r@ == v@.take(i as int),
    {
        let x = &v[i];
        r.push(ForeignKey {
            id: x.id,
            name: x.name.clone(),
            field: x.field.clone(),
            ref_db: x.ref_db.clone(),
            ref_table: x.ref_table.clone(),
            ref_field: x.ref_field.clone(),
            on_delete: copy_opt(&x.on_delete),
            on_update: copy_opt(&x.on_update),
        });
        assert(r@ =~= v@.take(i + 1));
    }
    assert(v@.take(v@.len() as int) =~= v@);
    r
}

fn copy_triggers(v: &Vec<Trigger>) -> (r: Vec<Trigger>)
    ensures
        r@ == v@,
{
    let mut r: Vec<Trigger> = Vec::new();
    for i in 0..v.len()
        invariant
            r@ == v@.take(i as int),
    {
        let x = &v[i];
        r.push(Trigger { id: x.id, name: x.name.clone(), time: x.time, action: x.action, statement: x.statement.clone() });
        assert(r@ =~= v@.take(i + 1));
    }
    assert(v@.take(v@.len() as int) =~= v@);
    r
}

fn copy_checks(v: &Vec<Check>) -> (r: Vec<Check>)
    ensures
        r@ == v@,
{
    let mut r: Vec<Check> = Vec::new();
    for i in 0..v.len()
        invariant
            r@ == v@.take(i as int),
    {
        let x = &v[i];
        r.push(Check { id: x.id, name: x.name.clone(), expression: x.expression.clone(), not_enforced: x.not_enforced });
        assert(r@ =~= v@.take(i + 1));
    }
    assert(v@.take(v@.len() as int) =~= v@);
    r
}

/// The parts of a stored table besides its fields, as the server reports them.
pub struct TableParts {
    pub indexes: Vec<Index>,
    pub foreign_keys: Vec<ForeignKey>,
    pub triggers: Vec<Trigger>,
    pub checks: Vec<Check>,
}

impl TableDetailComponent {
    /// Loads the stored table `table_name` of a server of version `version` into the editor: its
    /// fields, indexes, foreign keys and triggers, and on MySQL 8 its checks, each of which
    /// becomes its stored copy too, and the options that its definition gave (`caps`, see
    /// `set_options`). On MySQL 5 the checks stay as they were.
    pub fn load_table(&mut self, version: Version, table_name: String, fields: Vec<TableField>, parts: TableParts,
        caps: &Vec<Option<String>>)
        requires
            caps@.len() == 8,
        ensures
            final(self).db_version == version,
            final(self).table_name == Some(table_name),
            final(self).fields == fields,
            final(self).old_fields@ == fields@,
            final(self).indexes == parts.indexes,
            final(self).old_indexes@ == parts.indexes@,
            final(self).foreign_keys == parts.foreign_keys,
            final(self).old_foreign_keys@ == parts.foreign_keys@,
            final(self).triggers == parts.triggers,
            final(self).old_triggers@ == parts.triggers@,
            version == Version::Eight ==> final(self).checks == parts.checks && final(self).old_checks@ == parts.checks@,
            version == Version::Five ==> final(self).checks == old(self).checks && final(self).old_checks == old(self).old_checks,
            final(self).form@ == table_options_entries(caps@.map_values(|o: Option<String>| opt_view(o))),
            final(self).old_form@ == final(self).form@,
            caps@[7] matches Some(c) ==> views(final(self).comment@) == seq![c@] && views(final(self).old_comment@) == seq![c@],
            caps@[7] is None ==> final(self).comment == old(self).comment && final(self).old_comment == old(self).old_comment,
    {
        self.set_options(caps);
        self.db_version = version;
        self.old_fields = copy_fields(&fields);
        self.fields = fields;
        self.old_indexes = copy_indexes(&parts.indexes);
        self.indexes = parts.indexes;
        self.old_foreign_keys = copy_foreign_keys(&parts.foreign_keys);
        self.foreign_keys = parts.foreign_keys;
        self.old_triggers = copy_triggers(&parts.triggers);
        self.triggers = parts.triggers;
        if version == Version::Eight {
            self.old_checks = copy_checks(&parts.checks);
            self.checks = parts.checks;
        }
        self.table_name = Some(table_name);
    }

    /// Loads the stored table `table_name` with its fields, parts and its definition `def` as
    /// `SHOW CREATE TABLE` reports it: when the definition matches the table pattern, as
    /// `load_table` with the options read out of it (`create_table_options`), and `true`;
    /// otherwise the editor stays as it was and the answer is `false`.
    pub fn load_table_definition(&mut self, version: Version, table_name: String, fields: Vec<TableField>,
        parts: TableParts, def: &str) -> (r: bool)
        ensures
            r == (regex_captures(CREATE_TABLE_PATTERN@, def@, create_table_groups()) is Some),
            r ==> {
                let caps = regex_captures(CREATE_TABLE_PATTERN@, def@, create_table_groups())->0;
                &&& final(self).db_version == version
                &&& final(self).table_name == Some(table_name)
                &&& final(self).fields == fields
                &&& final(self).old_fields@ == fields@
                &&& final(self).indexes == parts.indexes
                &&& final(self).old_indexes@ == parts.indexes@
                &&& final(self).foreign_keys == parts.foreign_keys
                &&& final(self).old_foreign_keys@ == parts.foreign_keys@
                &&& final(self).triggers == parts.triggers
                &&& final(self).old_triggers@ == parts.triggers@
                &&& version == Version::Eight ==> final(self).checks == parts.checks && final(self).old_checks@ == parts.checks@
                &&& version == Version::Five ==> final(self).checks == old(self).checks && final(self).old_checks == old(self).old_checks
                &&& final(self).form@ == table_options_entries(caps)
                &&& final(self).old_form@ == final(self).form@
                &&& caps[7] matches Some(c) ==> views(final(self).comment@) == seq![c] && views(final(self).old_comment@) == seq![c]
                &&& caps[7] is None ==> final(self).comment == old(self).comment && final(self).old_comment == old(self).old_comment
            },
            !r ==> *final(self) == *old(self),
    {
        match create_table_options(def) {
            Some(caps) => {
                self.load_table(version, table_name, fields, parts, &caps);
                true
            },
            None => false,
        }
    }

    /// Prepares the editor for a new table on a server of version `version`: no stored table,
    /// and the options form of a new table (see `set_new_options`); the rest stays as it was.
    pub fn load_new_table(&mut self, version: Version)
        ensures
            final(self).db_version == version,
            final(self).table_name is None,
            final(self).form@ == empty_table_options(),
            final(self).old_form == old(self).old_form,
            final(self).fields == old(self).fields,
            final(self).old_fields == old(self).old_fields,
            final(self).indexes == old(self).indexes,
            final(self).old_indexes == old(self).old_indexes,
            final(self).foreign_keys == old(self).foreign_keys,
            final(self).old_foreign_keys == old(self).old_foreign_keys,
            final(self).triggers == old(self).triggers,
            final(self).old_triggers == old(self).old_triggers,
            final(self).checks == old(self).checks,
            final(self).old_checks == old(self).old_checks,
            final(self).comment == old(self).comment,
            final(self).old_comment == old(self).old_comment,
    {
        self.set_new_options();
        self.table_name = None;
        self.db_version = version;
    }

    /// After a successful save: everything that the editor holds becomes its stored copy.
    pub fn accept_saved(&mut self)
        ensures
            final(self).old_fields@ == old(self).fields@,
            final(self).old_indexes@ == old(self).indexes@,
            final(self).old_foreign_keys@ == old(self).foreign_keys@,
            final(self).old_triggers@ == old(self).triggers@,
            final(self).old_checks@ == old(self).checks@,
            final(self).old_form.entries@ == old(self).form.entries@,
            final(self).old_comment@ == old(self).comment@,
            final(self).table_name == old(self).table_name,
            final(self).db_version == old(self).db_version,
            final(self).fields == old(self).fields,
            final(self).indexes == old(self).indexes,
            final(self).foreign_keys == old(self).foreign_keys,
            final(self).triggers == old(self).triggers,
            final(self).checks == old(self).checks,
            final(self).form == old(self).form,
            final(self).comment == old(self).comment,
    {
        self.old_fields = copy_fields(&self.fields);
        self.old_indexes = copy_indexes(&self.indexes);
        self.old_foreign_keys = copy_foreign_keys(&self.foreign_keys);
        self.old_triggers = copy_triggers(&self.triggers);
        self.old_checks = copy_checks(&self.checks);
        self.old_form = self.form.duplicate();
        self.old_comment = copy_strings(&self.comment);
    }
}

/// An editor whose fields, options and comment are still those loaded (as `load_table` leaves
/// them, with the comment equal to its baseline) gets no ALTER statement until something else
/// is added.
pub proof fn lemma_loaded_table_unchanged(t: TableDetailComponent)
    requires
        t.table_name is Some,
        t.old_fields@ == t.fields@,
        t.old_form@ == t.form@,
        views(t.comment@) == views(t.old_comment@),
    ensures
        alter_table_ddl(t.table_name->0@, t.old_fields@, t.fields@, Seq::new(6, |i: int| Seq::<Seq<char>>::empty()),
            options_alter(t.form@, t.old_form@, views(t.comment@), views(t.old_comment@))) == Seq::<char>::empty(),
{
    lemma_unchanged_options(t.form@, views(t.comment@));
    lemma_unchanged_table(t.table_name->0@, t.fields@);
}

fn copy_attrs(a: &FieldAttrs) -> (r: FieldAttrs)
    ensures
        r == *a,
{
    match a {
        FieldAttrs::MySql(m) => FieldAttrs::MySql(MySqlFieldAttrs {
            kind: m.kind,
            not_null: m.not_null,
            comment: copy_opt(&m.comment),
            length: copy_opt(&m.length),
            default_value: copy_opt(&m.default_value),
            decimal: copy_opt(&m.decimal),
            character_set: copy_opt(&m.character_set),
            collation: copy_opt(&m.collation),
            auto_increment: m.auto_increment,
            unsigned: m.unsigned,
            zerofill: m.zerofill,
            on_update: m.on_update,
            options: m.options.clone(),
        }),
        FieldAttrs::Pg(p) => FieldAttrs::Pg(PgFieldAttrs {
            kind: p.kind.clone(),
            not_null: p.not_null,
            comment: copy_opt(&p.comment),
            default_value: copy_opt(&p.default_value),
            length: p.length,
            decimal: p.decimal,
        }),
    }
}

/// Why a dialog's form does not describe an item of a table.
pub enum ItemFormError {
    /// The id is no UUID; the text is what `uuid::Uuid::parse_str` reported.
    InvalidId(String),
    /// The trigger's time is neither "BEFORE" nor "AFTER".
    UnknownTriggerTime,
    /// The trigger's action is none of "INSERT", "UPDATE" and "DELETE".
    UnknownTriggerAction,
}

/// Whether `e` is the error that the form's id gives.
pub open spec fn id_error_is(form: Seq<EntryView>, e: ItemFormError) -> bool {
    e matches ItemFormError::InvalidId(t) && id_error(form) == Some(t@)
}

/// The id that a dialog's form gives (see `form_id`).
pub(crate) fn item_id(form: &FormData) -> (r: Result<u128, ItemFormError>)
    ensures
        match r {
            Ok(id) => id_error(form@) is None && id_from_form(form@, id),
            Err(e) => id_error_is(form@, e),
        },
{
    match form_id(form) {
        Ok(id) => Ok(id),
        Err(t) => Err(ItemFormError::InvalidId(t)),
    }
}

/// Whether the form holds "true" under `key`.
pub open spec fn flag_of(form: Seq<EntryView>, key: Seq<char>) -> bool {
    value_at(form, key) == "true"@
}

/// The item under `key` when `read`, else nothing.
pub open spec fn item_if(form: Seq<EntryView>, key: Seq<char>, read: bool) -> Option<Seq<char>> {
    if read { lookup(form, key)->0 } else { None }
}

pub(crate) fn flag_at(form: &FormData, key: &str) -> (r: bool)
    requires
        filled(form@, key@),
    ensures
        r == flag_of(form@, key@),
{
    reads_true_at(form, key)
}

fn item_when(form: &FormData, key: &str, read: bool) -> (r: Option<String>)
    requires
        read ==> lookup(form@, key@) is Some,
    ensures
        opt_view(r) == item_if(form@, key@, read),
{
    if read { item_at(form, key) } else { None }
}

fn flag_when(form: &FormData, key: &str, read: bool) -> (r: bool)
    requires
        read ==> filled(form@, key@),
    ensures
        r == (read && flag_of(form@, key@)),
{
    if read { flag_at(form, key) } else { false }
}

/// The items that the field dialog must hold for a field of type `k`: a name, "not null" and
/// "key" with values, a comment item, and each attribute that the type reads (with a value for
/// the flags, the length of a binary type and the options of an enumeration).
pub open spec fn mysql_field_form_ready(k: FieldKind, form: Seq<EntryView>) -> bool {
    let sh = shape_of(k);
    &&& filled(form, "name"@) && filled(form, "not null"@) && filled(form, "key"@)
    &&& lookup(form, "comment"@) is Some
    &&& reads_length(sh) ==> lookup(form, "length"@) is Some
    &&& sh == FieldShape::Binary ==> filled(form, "length"@)
    &&& reads_default(sh) ==> lookup(form, "default value"@) is Some
    &&& reads_decimal(sh) ==> lookup(form, "decimal"@) is Some
    &&& reads_charset(sh) ==> lookup(form, "character set"@) is Some && lookup(form, "collation"@) is Some
    &&& reads_auto_increment(sh) ==> filled(form, "auto increment"@)
    &&& reads_sign(sh) ==> filled(form, "unsigned"@) && filled(form, "zerofill"@)
    &&& sh == FieldShape::DateTime ==> filled(form, "on update"@)
    &&& sh == FieldShape::Enum ==> filled(form, "options"@)
}

/// Whether `a` are the attributes that the field dialog gives a field of type `k`: each
/// attribute that the type reads, taken from the form, the others absent.
pub open spec fn mysql_attrs_of(k: FieldKind, form: Seq<EntryView>, a: MySqlFieldAttrs) -> bool {
    let sh = shape_of(k);
    &&& a.kind == k
    &&& a.not_null == flag_of(form, "not null"@)
    &&& opt_view(a.comment) == lookup(form, "comment"@)->0
    &&& opt_view(a.length) == item_if(form, "length"@, reads_length(sh))
    &&& opt_view(a.default_value) == item_if(form, "default value"@, reads_default(sh))
    &&& opt_view(a.decimal) == item_if(form, "decimal"@, reads_decimal(sh))
    &&& opt_view(a.character_set) == item_if(form, "character set"@, reads_charset(sh))
    &&& opt_view(a.collation) == item_if(form, "collation"@, reads_charset(sh))
    &&& a.auto_increment == (reads_auto_increment(sh) && flag_of(form, "auto increment"@))
    &&& a.unsigned == (reads_sign(sh) && flag_of(form, "unsigned"@))
    &&& a.zerofill == (reads_sign(sh) && flag_of(form, "zerofill"@))
    &&& a.on_update == (sh == FieldShape::DateTime && flag_of(form, "on update"@))
    &&& a.options@ == if sh == FieldShape::Enum { value_at(form, "options"@) } else { Seq::empty() }
}

/// The MySQL field of type `kind` that the field dialog's form describes: its id (the one the
/// form names, or a fresh one), name, key flag and attributes (see `mysql_attrs_of`); an error
/// when the form names an id that is no UUID.
pub fn field_from_form(kind: FieldKind, form: &FormData) -> (r: Result<TableField, ItemFormError>)
    requires
        mysql_field_form_ready(kind, form@),
    ensures
        match r {
            Ok(f) => {
                &&& id_error(form@) is None && id_from_form(form@, f.id)
                &&& f.name@ == value_at(form@, "name"@)
                &&& f.key == flag_of(form@, "key"@)
                &&& f.attrs matches FieldAttrs::MySql(a) && mysql_attrs_of(kind, form@, a)
            },
            Err(e) => id_error_is(form@, e),
        },
{
    let id = item_id(form)?;
    let sh = field_shape(kind);
    let r_len = matches!(sh, FieldShape::Int | FieldShape::Binary | FieldShape::Char | FieldShape::DateTime
        | FieldShape::Decimal | FieldShape::Float | FieldShape::Time);
    let r_default = !matches!(sh, FieldShape::Simple | FieldShape::Text);
    let r_auto = matches!(sh, FieldShape::Int | FieldShape::Float);
    let r_sign = matches!(sh, FieldShape::Int | FieldShape::Decimal | FieldShape::Float);
    let r_decimal = matches!(sh, FieldShape::Decimal | FieldShape::Float);
    let r_charset = matches!(sh, FieldShape::Char | FieldShape::Enum | FieldShape::Text);
    let r_on_update = matches!(sh, FieldShape::DateTime);
    let r_options = matches!(sh, FieldShape::Enum);
    let options = if r_options { text_at(form, "options") } else { String::new() };
    let attrs = MySqlFieldAttrs {
        kind,
        not_null: flag_at(form, "not null"),
        comment: item_at(form, "comment"),
        length: item_when(form, "length", r_len),
        default_value: item_when(form, "default value", r_default),
        decimal: item_when(form, "decimal", r_decimal),
        character_set: item_when(form, "character set", r_charset),
        collation: item_when(form, "collation", r_charset),
        auto_increment: flag_when(form, "auto increment", r_auto),
        unsigned: flag_when(form, "unsigned", r_sign),
        zerofill: flag_when(form, "zerofill", r_sign),
        on_update: flag_when(form, "on update", r_on_update),
        options,
    };
    Ok(TableField { id, name: text_at(form, "name"), key: flag_at(form, "key"), attrs: FieldAttrs::MySql(attrs) })
}

/// The index that the index dialog's form describes: its id, name, fields,
/// kind, method and comment; an error when the form names an id that is no UUID.
pub fn index_from_form(form: &FormData) -> (r: Result<Index, ItemFormError>)
    requires
        filled(form@, "name"@),
        filled(form@, "fields"@),
        lookup(form@, "kind"@) is Some,
        lookup(form@, "method"@) is Some,
        lookup(form@, "comment"@) is Some,
    ensures
        match r {
            Ok(x) => {
                &&& id_error(form@) is None && id_from_form(form@, x.id)
                &&& x.name@ == value_at(form@, "name"@)
                &&& x.fields@ == value_at(form@, "fields"@)
                &&& opt_view(x.kind) == lookup(form@, "kind"@)->0
                &&& opt_view(x.method) == lookup(form@, "method"@)->0
                &&& opt_view(x.comment) == lookup(form@, "comment"@)->0
            },
            Err(e) => id_error_is(form@, e),
        },
{
    let id = item_id(form)?;
    Ok(Index {
        id,
        name: text_at(form, "name"),
        fields: text_at(form, "fields"),
        kind: item_at(form, "kind"),
        method: item_at(form, "method"),
        comment: item_at(form, "comment"),
    })
}

/// The foreign key that the foreign-key dialog's form describes; an error when the form names
/// an id that is no UUID.
pub fn foreign_key_from_form(form: &FormData) -> (r: Result<ForeignKey, ItemFormError>)
    requires
        filled(form@, "name"@),
        filled(form@, "field"@),
        filled(form@, "reference db"@),
        filled(form@, "reference table"@),
        filled(form@, "reference field"@),
        lookup(form@, "on delete"@) is Some,
        lookup(form@, "on update"@) is Some,
    ensures
        match r {
            Ok(x) => {
                &&& id_error(form@) is None && id_from_form(form@, x.id)
                &&& x.name@ == value_at(form@, "name"@)
                &&& x.field@ == value_at(form@, "field"@)
                &&& x.ref_db@ == value_at(form@, "reference db"@)
                &&& x.ref_table@ == value_at(form@, "reference table"@)
                &&& x.ref_field@ == value_at(form@, "reference field"@)
                &&& opt_view(x.on_delete) == lookup(form@, "on delete"@)->0
                &&& opt_view(x.on_update) == lookup(form@, "on update"@)->0
            },
            Err(e) => id_error_is(form@, e),
        },
{
    let id = item_id(form)?;
    Ok(ForeignKey {
        id,
        name: text_at(form, "name"),
        field: text_at(form, "field"),
        ref_db: text_at(form, "reference db"),
        ref_table: text_at(form, "reference table"),
        ref_field: text_at(form, "reference field"),
        on_delete: item_at(form, "on delete"),
        on_update: item_at(form, "on update"),
    })
}

/// The trigger that the trigger dialog's form describes: an error for an id that is no UUID,
/// else for an unknown time, else for an unknown action (see `trigger_time_of` and
/// `trigger_action_of`).
pub fn trigger_from_form(form: &FormData) -> (r: Result<Trigger, ItemFormError>)
    requires
        filled(form@, "name"@),
        filled(form@, "time"@),
        filled(form@, "action"@),
        filled(form@, "statement"@),
    ensures
        match r {
            Ok(x) => {
                &&& id_error(form@) is None && id_from_form(form@, x.id)
                &&& x.name@ == value_at(form@, "name"@)
                &&& trigger_time_of(value_at(form@, "time"@)) == Some(x.time)
                &&& trigger_action_of(value_at(form@, "action"@)) == Some(x.action)
                &&& x.statement@ == value_at(form@, "statement"@)
            },
            Err(e) => if id_error(form@) is Some {
                id_error_is(form@, e)
            } else if trigger_time_of(value_at(form@, "time"@)) is None {
                e == ItemFormError::UnknownTriggerTime
            } else {
                trigger_action_of(value_at(form@, "action"@)) is None && e == ItemFormError::UnknownTriggerAction
            },
        },
{
    let id = item_id(form)?;
    let time = match parse_trigger_time(text_at(form, "time").as_str()) {
        Some(t) => t,
        None => { return Err(ItemFormError::UnknownTriggerTime); },
    };
    let action = match parse_trigger_action(text_at(form, "action").as_str()) {
        Some(a) => a,
        None => { return Err(ItemFormError::UnknownTriggerAction); },
    };
    Ok(Trigger { id, name: text_at(form, "name"), time, action, statement: text_at(form, "statement") })
}

/// The check that the check dialog's form describes; it is not enforced when the form says
/// "true" under "not enforced". An error when the form names an id that is no UUID.
pub fn check_from_form(form: &FormData) -> (r: Result<Check, ItemFormError>)
    requires
        filled(form@, "name"@),
        filled(form@, "expression"@),
        filled(form@, "not enforced"@),
    ensures
        match r {
            Ok(x) => {
                &&& id_error(form@) is None && id_from_form(form@, x.id)
                &&& x.name@ == value_at(form@, "name"@)
                &&& x.expression@ == value_at(form@, "expression"@)
                &&& x.not_enforced == flag_of(form@, "not enforced"@)
            },
            Err(e) => id_error_is(form@, e),
        },
{
    let id = item_id(form)?;
    Ok(Check {
        id,
        name: text_at(form, "name"),
        expression: text_at(form, "expression"),
        not_enforced: flag_at(form, "not enforced"),
    })
}

impl Index {
    /// The indexed fields, one per comma-separated piece of `fields`.
    pub fn field_list(&self) -> (r: Vec<String>)
        ensures
            views(r@) == char_pieces(self.fields@, ','),
    {
        split_char(self.fields.as_str(), ',')
    }
}

impl MySqlFieldAttrs {
    /// The options of an enumeration, one per comma-separated piece of `options`.
    pub fn option_list(&self) -> (r: Vec<String>)
        ensures
            views(r@) == char_pieces(self.options@, ','),
    {
        split_char(self.options.as_str(), ',')
    }
}

/// The table options of the options form, in the order in which an ALTER TABLE statement writes
/// their changes.
pub open spec fn option_keys() -> Seq<Seq<char>> {
    seq!["engine"@, "default character set"@, "default collation"@, "avg row length"@, "min rows"@,
        "max rows"@, "key block size"@]
}

/// The clause that changes each option of `option_keys`, before its new value.
pub open spec fn option_labels() -> Seq<Seq<char>> {
    seq![" ENGINE = "@, " DEFAULT CHARACTER SET = "@, " DEFAULT COLLATE = "@, " AVG_ROW_LENGTH = "@,
        " MIN_ROWS = "@, " MAX_ROWS = "@, " KEY_BLOCK_SIZE = "@]
}

/// Every option that changed to a value gets its clause with that value in the option text of
/// the ALTER TABLE statement, whatever else changed: the text is some `x`, then the clause of the
/// option and its new value, then some `y`.
#[verifier::rlimit(60)]
pub proof fn lemma_every_changed_option_has_its_clause(form: Seq<EntryView>, old: Seq<EntryView>,
    comment: Seq<Seq<char>>, old_comment: Seq<Seq<char>>, w: int) -> (r: (Seq<char>, Seq<char>))
    requires
        0 <= w < 7,
        form_value(form, option_keys()[w]) is Some,
        form_value(form, option_keys()[w]) != form_value(old, option_keys()[w]),
    ensures
        options_alter(form, old, comment, old_comment)
            == r.0 + option_labels()[w] + form_value(form, option_keys()[w])->0 + r.1,
{
    let keys = option_keys();
    let p0 = changed_option(form_value(form, keys[0]), form_value(old, keys[0]), " ENGINE = "@);
    let p1 = changed_option(form_value(form, keys[1]), form_value(old, keys[1]), " DEFAULT CHARACTER SET = "@);
    let p2 = changed_option(form_value(form, keys[2]), form_value(old, keys[2]), " DEFAULT COLLATE = "@);
    let p3 = changed_number(form_value(form, keys[3]), form_value(old, keys[3]), " AVG_ROW_LENGTH = "@);
    let p4 = changed_number(form_value(form, keys[4]), form_value(old, keys[4]), " MIN_ROWS = "@);
    let p5 = changed_number(form_value(form, keys[5]), form_value(old, keys[5]), " MAX_ROWS = "@);
    let p6 = changed_number(form_value(form, keys[6]), form_value(old, keys[6]), " KEY_BLOCK_SIZE = "@);
    let c = seq_join(comment, "\n"@);
    let p7: Seq<char> = if c != seq_join(old_comment, "\n"@) { " COMMENT = '"@ + c + "'"@ } else { Seq::empty() };
    assert(options_alter(form, old, comment, old_comment) == p0 + p1 + p2 + p3 + p4 + p5 + p6 + p7);
    let v = form_value(form, keys[w])->0;
    let o = options_alter(form, old, comment, old_comment);
    if w == 0 {
        assert(p0 == option_labels()[0] + v);
        let r = (Seq::<char>::empty(), p1 + p2 + p3 + p4 + p5 + p6 + p7);
        assert(o =~= r.0 + option_labels()[w] + v + r.1);
        r
    } else if w == 1 {
        assert(p1 == option_labels()[1] + v);
        let r = (p0, p2 + p3 + p4 + p5 + p6 + p7);
        assert(o =~= r.0 + option_labels()[w] + v + r.1);
        r
    } else if w == 2 {
        assert(p2 == option_labels()[2] + v);
        let r = (p0 + p1, p3 + p4 + p5 + p6 + p7);
        assert(o =~= r.0 + option_labels()[w] + v + r.1);
        r
    } else if w == 3 {
        assert(p3 == option_labels()[3] + v);
        let r = (p0 + p1 + p2, p4 + p5 + p6 + p7);
        assert(o =~= r.0 + option_labels()[w] + v + r.1);
        r
    } else if w == 4 {
        assert(p4 == option_labels()[4] + v);
        let r = (p0 + p1 + p2 + p3, p5 + p6 + p7);
        assert(o =~= r.0 + option_labels()[w] + v + r.1);
        r
    } else if w == 5 {
        assert(p5 == option_labels()[5] + v);
        let r = (p0 + p1 + p2 + p3 + p4, p6 + p7);
        assert(o =~= r.0 + option_labels()[w] + v + r.1);
        r
    } else {
        assert(p6 == option_labels()[6] + v);
        let r = (p0 + p1 + p2 + p3 + p4 + p5, p7);
        assert(o =~= r.0 + option_labels()[w] + v + r.1);
        r
    }
}

/// When one option alone changed (and the comment did not), the option text of the ALTER TABLE
/// statement is exactly the clause of that option with its new value. An engine, character set
/// or collation that was cleared gives no clause; a cleared number is written "0".
pub proof fn lemma_one_changed_option(form: Seq<EntryView>, old: Seq<EntryView>, comment: Seq<Seq<char>>, w: int)
    requires
        0 <= w < 7,
        forall|k: int| 0 <= k < 7 && k != w
            ==> form_value(form, #[trigger] option_keys()[k]) == form_value(old, option_keys()[k]),
        form_value(form, option_keys()[w]) != form_value(old, option_keys()[w]),
    ensures
        options_alter(form, old, comment, comment) == match form_value(form, option_keys()[w]) {
            Some(v) => option_labels()[w] + v,
            None => if w < 3 { Seq::<char>::empty() } else { option_labels()[w] + "0"@ },
        },
{
    let keys = option_keys();
    let p0 = changed_option(form_value(form, keys[0]), form_value(old, keys[0]), " ENGINE = "@);
    let p1 = changed_option(form_value(form, keys[1]), form_value(old, keys[1]), " DEFAULT CHARACTER SET = "@);
    let p2 = changed_option(form_value(form, keys[2]), form_value(old, keys[2]), " DEFAULT COLLATE = "@);
    let p3 = changed_number(form_value(form, keys[3]), form_value(old, keys[3]), " AVG_ROW_LENGTH = "@);
    let p4 = changed_number(form_value(form, keys[4]), form_value(old, keys[4]), " MIN_ROWS = "@);
    let p5 = changed_number(form_value(form, keys[5]), form_value(old, keys[5]), " MAX_ROWS = "@);
    let p6 = changed_number(form_value(form, keys[6]), form_value(old, keys[6]), " KEY_BLOCK_SIZE = "@);
    let c = seq_join(comment, "\n"@);
    let p7: Seq<char> = if c != seq_join(comment, "\n"@) { " COMMENT = '"@ + c + "'"@ } else { Seq::empty() };
    assert(options_alter(form, old, comment, comment) == p0 + p1 + p2 + p3 + p4 + p5 + p6 + p7);
    assert(p7 == Seq::<char>::empty());
    let target = match form_value(form, option_keys()[w]) {
        Some(v) => option_labels()[w] + v,
        None => if w < 3 { Seq::<char>::empty() } else { option_labels()[w] + "0"@ },
    };
    if w == 0 {
        assert(p1.len() == 0 && p2.len() == 0 && p3.len() == 0 && p4.len() == 0 && p5.len() == 0 && p6.len() == 0) by {
            assert(form_value(form, keys[1]) == form_value(old, keys[1]));
            assert(form_value(form, keys[2]) == form_value(old, keys[2]));
            assert(form_value(form, keys[3]) == form_value(old, keys[3]));
            assert(form_value(form, keys[4]) == form_value(old, keys[4]));
            assert(form_value(form, keys[5]) == form_value(old, keys[5]));
            assert(form_value(form, keys[6]) == form_value(old, keys[6]));
        }
        assert(p0 + p1 + p2 + p3 + p4 + p5 + p6 + p7 =~= target);
    } else if w == 1 {
        assert(p0.len() == 0 && p2.len() == 0 && p3.len() == 0 && p4.len() == 0 && p5.len() == 0 && p6.len() == 0) by {
            assert(form_value(form, keys[0]) == form_value(old, keys[0]));
            assert(form_value(form, keys[2]) == form_value(old, keys[2]));
            assert(form_value(form, keys[3]) == form_value(old, keys[3]));
            assert(form_value(form, keys[4]) == form_value(old, keys[4]));
            assert(form_value(form, keys[5]) == form_value(old, keys[5]));
            assert(form_value(form, keys[6]) == form_value(old, keys[6]));
        }
        assert(p0 + p1 + p2 + p3 + p4 + p5 + p6 + p7 =~= target);
    } else if w == 2 {
        assert(p0.len() == 0 && p1.len() == 0 && p3.len() == 0 && p4.len() == 0 && p5.len() == 0 && p6.len() == 0) by {
            assert(form_value(form, keys[0]) == form_value(old, keys[0]));
            assert(form_value(form, keys[1]) == form_value(old, keys[1]));
            assert(form_value(form, keys[3]) == form_value(old, keys[3]));
            assert(form_value(form, keys[4]) == form_value(old, keys[4]));
            assert(form_value(form, keys[5]) == form_value(old, keys[5]));
            assert(form_value(form, keys[6]) == form_value(old, keys[6]));
        }
        assert(p0 + p1 + p2 + p3 + p4 + p5 + p6 + p7 =~= target);
    } else if w == 3 {
        assert(p0.len() == 0 && p1.len() == 0 && p2.len() == 0 && p4.len() == 0 && p5.len() == 0 && p6.len() == 0) by {
            assert(form_value(form, keys[0]) == form_value(old, keys[0]));
            assert(form_value(form, keys[1]) == form_value(old, keys[1]));
            assert(form_value(form, keys[2]) == form_value(old, keys[2]));
            assert(form_value(form, keys[4]) == form_value(old, keys[4]));
            assert(form_value(form, keys[5]) == form_value(old, keys[5]));
            assert(form_value(form, keys[6]) == form_value(old, keys[6]));
        }
        assert(p0 + p1 + p2 + p3 + p4 + p5 + p6 + p7 =~= target);
    } else if w == 4 {
        assert(p0.len() == 0 && p1.len() == 0 && p2.len() == 0 && p3.len() == 0 && p5.len() == 0 && p6.len() == 0) by {
            assert(form_value(form, keys[0]) == form_value(old, keys[0]));
            assert(form_value(form, keys[1]) == form_value(old, keys[1]));
            assert(form_value(form, keys[2]) == form_value(old, keys[2]));
            assert(form_value(form, keys[3]) == form_value(old, keys[3]));
            assert(form_value(form, keys[5]) == form_value(old, keys[5]));
            assert(form_value(form, keys[6]) == form_value(old, keys[6]));
        }
        assert(p0 + p1 + p2 + p3 + p4 + p5 + p6 + p7 =~= target);
    } else if w == 5 {
        assert(p0.len() == 0 && p1.len() == 0 && p2.len() == 0 && p3.len() == 0 && p4.len() == 0 && p6.len() == 0) by {
            assert(form_value(form, keys[0]) == form_value(old, keys[0]));
            assert(form_value(form, keys[1]) == form_value(old, keys[1]));
            assert(form_value(form, keys[2]) == form_value(old, keys[2]));
            assert(form_value(form, keys[3]) == form_value(old, keys[3]));
            assert(form_value(form, keys[4]) == form_value(old, keys[4]));
            assert(form_value(form, keys[6]) == form_value(old, keys[6]));
        }
        assert(p0 + p1 + p2 + p3 + p4 + p5 + p6 + p7 =~= target);
    } else {
        assert(p0.len() == 0 && p1.len() == 0 && p2.len() == 0 && p3.len() == 0 && p4.len() == 0 && p5.len() == 0) by {
            assert(form_value(form, keys[0]) == form_value(old, keys[0]));
            assert(form_value(form, keys[1]) == form_value(old, keys[1]));
            assert(form_value(form, keys[2]) == form_value(old, keys[2]));
            assert(form_value(form, keys[3]) == form_value(old, keys[3]));
            assert(form_value(form, keys[4]) == form_value(old, keys[4]));
            assert(form_value(form, keys[5]) == form_value(old, keys[5]));
        }
        assert(p0 + p1 + p2 + p3 + p4 + p5 + p6 + p7 =~= target);
    }
}

/// Whether `d` stands on a line of its own in the column list of the CREATE TABLE statement
/// `s`: after a line break, and followed by ",\n" (another entry) or "\n)" (the end of the list).
pub open spec fn in_column_list(s: Seq<char>, d: Seq<char>) -> bool {
    exists|pre: Seq<char>, post: Seq<char>|
        s == pre + "\n"@ + d + ",\n"@ + post || s == pre + "\n"@ + d + "\n)"@ + post
}

spec fn create_body(fields: Seq<TableField>, parts: Seq<Seq<Seq<char>>>) -> Seq<Seq<char>> {
    let keys = key_names(fields);
    parts[0]
        + (if keys.len() > 0 { seq!["\nPRIMARY KEY ("@ + seq_join(quoted(keys, "`"@), ","@) + ")"@] } else { Seq::empty() })
        + parts[1] + parts[2] + parts[3]
}

proof fn lemma_entry_in_column_list(name: Seq<char>, fields: Seq<TableField>, parts: Seq<Seq<Seq<char>>>,
    options: Seq<char>, idx: int)
    requires
        0 <= idx < create_body(fields, parts).len(),
    ensures
        in_column_list(create_table_ddl(name, fields, parts, options), create_body(fields, parts)[idx]),
{
    let body = create_body(fields, parts);
    let tail = options + ";\n"@ + seq_join(parts[4], "\n"@);
    let head0 = "CREATE TABLE `"@ + name + "` ("@;
    let full = create_table_ddl(name, fields, parts, options);
    assert(full == "CREATE TABLE `"@ + name + "` (\n"@ + seq_join(body, ",\n"@) + "\n)"@ + tail);
    let (a, b) = crate::text::lemma_seq_join_at(body, ",\n"@, idx);
    let d = body[idx];
    reveal_strlit("` (\n");
    reveal_strlit("` (");
    reveal_strlit(",\n");
    reveal_strlit(",");
    reveal_strlit("\n");
    let pre = if idx == 0 { head0 } else { head0 + "\n"@ + seq_join(body.take(idx), ",\n"@) + ","@ };
    assert(pre + "\n"@ =~= "CREATE TABLE `"@ + name + "` (\n"@ + a);
    if idx < body.len() - 1 {
        let post = seq_join(body.skip(idx + 1), ",\n"@) + "\n)"@ + tail;
        assert(full =~= pre + "\n"@ + d + ",\n"@ + post);
        assert(full == pre + "\n"@ + d + ",\n"@ + post || full == pre + "\n"@ + d + "\n)"@ + post);
    } else {
        assert(full =~= pre + "\n"@ + d + "\n)"@ + tail);
        assert(full == pre + "\n"@ + d + ",\n"@ + tail || full == pre + "\n"@ + d + "\n)"@ + tail);
    }
}

/// Every field, index, foreign key and check statement of a new table stands on a line of its
/// own in the column list of its CREATE TABLE statement, and so does the primary key when some
/// field is in it.
pub proof fn lemma_create_parts_in_column_list(name: Seq<char>, fields: Seq<TableField>, parts: Seq<Seq<Seq<char>>>,
    options: Seq<char>)
    requires
        parts.len() == 5,
    ensures
        forall|k: int| 0 <= k < parts[0].len() ==> in_column_list(create_table_ddl(name, fields, parts, options), #[trigger] parts[0][k]),
        forall|k: int| 0 <= k < parts[1].len() ==> in_column_list(create_table_ddl(name, fields, parts, options), #[trigger] parts[1][k]),
        forall|k: int| 0 <= k < parts[2].len() ==> in_column_list(create_table_ddl(name, fields, parts, options), #[trigger] parts[2][k]),
        forall|k: int| 0 <= k < parts[3].len() ==> in_column_list(create_table_ddl(name, fields, parts, options), #[trigger] parts[3][k]),
        key_names(fields).len() > 0 ==> in_column_list(create_table_ddl(name, fields, parts, options),
            "\nPRIMARY KEY ("@ + seq_join(quoted(key_names(fields), "`"@), ","@) + ")"@),
{
    let body = create_body(fields, parts);
    let keys = key_names(fields);
    let kp: Seq<Seq<char>> = if keys.len() > 0 {
        seq!["\nPRIMARY KEY ("@ + seq_join(quoted(keys, "`"@), ","@) + ")"@]
    } else {
        Seq::empty()
    };
    let n0: int = parts[0].len() as int;
    let n1: int = n0 + kp.len();
    let n2: int = n1 + parts[1].len();
    let n3: int = n2 + parts[2].len();
    assert(body =~= parts[0] + kp + parts[1] + parts[2] + parts[3]);
    assert forall|k: int| 0 <= k < parts[0].len() implies
        in_column_list(create_table_ddl(name, fields, parts, options), #[trigger] parts[0][k]) by {
        assert(body[k] == parts[0][k]);
        lemma_entry_in_column_list(name, fields, parts, options, k);
    }
    if keys.len() > 0 {
        assert(body[n0] == kp[0]);
        lemma_entry_in_column_list(name, fields, parts, options, n0);
    }
    assert forall|k: int| 0 <= k < parts[1].len() implies
        in_column_list(create_table_ddl(name, fields, parts, options), #[trigger] parts[1][k]) by {
        assert(body[n1 + k] == parts[1][k]);
        lemma_entry_in_column_list(name, fields, parts, options, n1 + k);
    }
    assert forall|k: int| 0 <= k < parts[2].len() implies
        in_column_list(create_table_ddl(name, fields, parts, options), #[trigger] parts[2][k]) by {
        assert(body[n2 + k] == parts[2][k]);
        lemma_entry_in_column_list(name, fields, parts, options, n2 + k);
    }
    assert forall|k: int| 0 <= k < parts[3].len() implies
        in_column_list(create_table_ddl(name, fields, parts, options), #[trigger] parts[3][k]) by {
        assert(body[n3 + k] == parts[3][k]);
        lemma_entry_in_column_list(name, fields, parts, options, n3 + k);
    }
}

/// When only the comment changed, the option text of the ALTER TABLE statement is exactly the
/// comment clause with the new comment's lines joined by line breaks.
pub proof fn lemma_changed_comment_option(form: Seq<EntryView>, old: Seq<EntryView>, comment: Seq<Seq<char>>,
    old_comment: Seq<Seq<char>>)
    requires
        forall|k: int| 0 <= k < 7 ==> form_value(form, #[trigger] option_keys()[k]) == form_value(old, option_keys()[k]),
        seq_join(comment, "\n"@) != seq_join(old_comment, "\n"@),
    ensures
        options_alter(form, old, comment, old_comment) == " COMMENT = '"@ + seq_join(comment, "\n"@) + "'"@,
{
    let keys = option_keys();
    assert(form_value(form, keys[0]) == form_value(old, keys[0]));
    assert(form_value(form, keys[1]) == form_value(old, keys[1]));
    assert(form_value(form, keys[2]) == form_value(old, keys[2]));
    assert(form_value(form, keys[3]) == form_value(old, keys[3]));
    assert(form_value(form, keys[4]) == form_value(old, keys[4]));
    assert(form_value(form, keys[5]) == form_value(old, keys[5]));
    assert(form_value(form, keys[6]) == form_value(old, keys[6]));
    assert(options_alter(form, old, comment, old_comment) =~= " COMMENT = '"@ + seq_join(comment, "\n"@) + "'"@);
}

} // verus!
