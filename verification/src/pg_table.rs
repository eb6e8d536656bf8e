//! The statements that create or alter a PostgreSQL table.
use vstd::prelude::*;
use vstd::string::*;
use crate::mysql_table::{copy_fields, flag_at, flag_of, id_error_is, item_id, key_field_names, key_names, strings_eq,
    FieldAttrs, ItemFormError, PgFieldAttrs, TableField};
use crate::connection::{id_error, id_from_form};
use crate::pg_role::{parse_i32, parse_i32_spec};
use crate::form::{filled, item_at, lookup, opt_view, text_at, value_at, EntryView, FormData};
use crate::mysql_user::clone_strings;
use crate::text::{char_pieces, lemma_char_pieces_nonempty, cat, cat3, chars_of, copy_strings, join, push_char, seq_join, split_char, views};

verus! {

/// "\n" followed by the indentation with which the CREATE TABLE statement separates its parts.
pub open spec fn part_sep() -> Seq<char> {
    "\n            "@
}

/// A statement of a part with the comment statement that goes with it, if any.
pub struct PartDdl {
    pub ddl: String,
    pub comment: Option<String>,
}

/// The statements of the parts.
pub open spec fn ddls(ps: Seq<PartDdl>) -> Seq<Seq<char>>
    decreases ps.len(),
{
    if ps.len() == 0 { Seq::empty() } else { ddls(ps.drop_last()).push(ps.last().ddl@) }
}

/// The comment statements of the parts that have one.
pub open spec fn comments(ps: Seq<PartDdl>) -> Seq<Seq<char>>
    decreases ps.len(),
{
    if ps.len() == 0 {
        Seq::empty()
    } else {
        let rest = comments(ps.drop_last());
        match ps.last().comment {
            Some(c) => rest.push(c@),
            None => rest,
        }
    }
}

fn split_parts(ps: &Vec<PartDdl>) -> (r: (Vec<String>, Vec<String>))
    ensures
        views(r.0@) == ddls(ps@),
        views(r.1@) == comments(ps@),
{
    let mut a: Vec<String> = Vec::new();
    let mut b: Vec<String> = Vec::new();
    let n = ps.len();
    for i in 0..n
        invariant
            n == ps@.len(),
            views(a@) == ddls(ps@.take(i as int)),
            views(b@) == comments(ps@.take(i as int)),
    {
        assert(ps@.take(i + 1).drop_last() =~= ps@.take(i as int));
        let ghost ba = views(a@);
        let ghost bb = views(b@);
        a.push(ps[i].ddl.clone());
        assert(views(a@) =~= ba.push(ps@[i as int].ddl@));
        match &ps[i].comment {
            Some(c) => {
                b.push(c.clone());
                assert(views(b@) =~= bb.push(c@));
            },
            None => {},
        }
    }
    assert(ps@.take(n as int) =~= ps@);
    (a, b)
}

/// The statements that the parts of a new table write.
pub struct PgCreateParts {
    pub fields: Vec<PartDdl>,
    pub foreign_keys: Vec<PartDdl>,
    pub uniques: Vec<PartDdl>,
    pub checks: Vec<PartDdl>,
    pub excludes: Vec<PartDdl>,
    pub indexes: Vec<PartDdl>,
    pub rules: Vec<String>,
    pub triggers: Vec<String>,
}

/// The CREATE TABLE statement of the table `schema`.`name`: the fields, the primary key (its
/// fields in double quotes), the foreign keys, uniques, checks and excludes, one per line; then,
/// each after a line break and indentation, the indexes, rules, triggers and all comments.
pub open spec fn pg_create_table_ddl(schema: Seq<char>, name: Seq<char>, fields: Seq<TableField>,
    p: PgCreateParts) -> Seq<char> {
    let keys = key_names(fields);
    let body = ddls(p.fields@)
        + (if keys.len() > 0 {
            seq!["\nPRIMARY KEY ("@ + seq_join(crate::mysql_table::quoted(keys, "\""@), ","@) + ")"@]
        } else {
            Seq::empty()
        })
        + ddls(p.foreign_keys@) + ddls(p.uniques@) + ddls(p.checks@) + ddls(p.excludes@);
    let all_comments = comments(p.fields@) + comments(p.foreign_keys@) + comments(p.uniques@)
        + comments(p.checks@) + comments(p.excludes@) + comments(p.indexes@);
    "CREATE TABLE \""@ + schema + "\".\""@ + name + "\" (\n"@ + seq_join(body, ",\n"@) + "\n);"@
        + part_sep() + seq_join(ddls(p.indexes@), "\n"@)
        + part_sep() + seq_join(views(p.rules@), "\n"@)
        + part_sep() + seq_join(views(p.triggers@), "\n"@)
        + part_sep() + seq_join(all_comments, "\n"@)
}

/// The statements that alter one kind of part: renames, comment statements and clauses of the
/// ALTER TABLE statement (for rules and triggers: whole statements), in the order of `diff_ids`.
pub struct PartAlter {
    pub rename: Vec<String>,
    pub comments: Vec<String>,
    pub alter: Vec<String>,
}

/// The statements that alter the parts of the stored table.
pub struct PgAlterParts {
    pub fields: PartAlter,
    pub indexes: PartAlter,
    pub foreign_keys: PartAlter,
    pub uniques: PartAlter,
    pub checks: PartAlter,
    pub excludes: PartAlter,
    pub rules: PartAlter,
    pub triggers: PartAlter,
}

/// The clauses that change the primary key when its fields changed: a drop of the old key
/// constraint (when it has a name) and the new key, its fields unquoted.
pub open spec fn pg_primary_key_alter(old: Seq<TableField>, new: Seq<TableField>, key_name: Option<Seq<char>>) -> Seq<Seq<char>> {
    if key_names(old) != key_names(new) {
        (match key_name { Some(k) => seq!["DROP CONSTRAINT \""@ + k + "\""@], None => Seq::empty() })
            + seq!["ADD PRIMARY KEY ("@ + seq_join(key_names(new), ","@) + ")"@]
    } else {
        Seq::empty()
    }
}

/// The statements that alter the stored table `schema`.`name`, one per line: the renames of
/// fields, indexes, foreign keys, uniques, checks and excludes; the rule and trigger statements;
/// the ALTER TABLE statement (when it has clauses) on two lines; the index statements; the
/// comment statements of all parts; and the table's comment when it changed.
pub open spec fn pg_alter_table_ddl(schema: Seq<char>, name: Seq<char>, old_fields: Seq<TableField>,
    fields: Seq<TableField>, key_name: Option<Seq<char>>, p: PgAlterParts, comment: Seq<Seq<char>>,
    old_comment: Seq<Seq<char>>) -> Seq<char> {
    let main = views(p.fields.alter@) + pg_primary_key_alter(old_fields, fields, key_name)
        + views(p.foreign_keys.alter@) + views(p.uniques.alter@) + views(p.checks.alter@) + views(p.excludes.alter@);
    let ddl = views(p.fields.rename@) + views(p.indexes.rename@) + views(p.foreign_keys.rename@)
        + views(p.uniques.rename@) + views(p.checks.rename@) + views(p.excludes.rename@)
        + views(p.rules.alter@) + views(p.triggers.alter@)
        + (if main.len() > 0 {
            seq!["ALTER TABLE \""@ + schema + "\".\""@ + name + "\""@, seq_join(main, ",\n"@) + ";"@]
        } else {
            Seq::empty()
        })
        + views(p.indexes.alter@)
        + views(p.fields.comments@) + views(p.indexes.comments@) + views(p.foreign_keys.comments@)
        + views(p.uniques.comments@) + views(p.checks.comments@) + views(p.excludes.comments@)
        + views(p.rules.comments@) + views(p.triggers.comments@)
        + (if comment != old_comment {
            seq!["COMMENT ON TABLE \""@ + schema + "\".\""@ + name + "\" IS '"@ + seq_join(comment, "\n"@) + "';"@]
        } else {
            Seq::empty()
        });
    seq_join(ddl, "\n"@)
}

/// The state of the table editor that the statements are made from. `comment` holds the lines
/// of the comment editor; `key_name` the name of the stored primary-key constraint.
pub struct TableDetailComponent {
    pub schema_name: Option<String>,
    pub table_name: Option<String>,
    pub key_name: Option<String>,
    pub fields: Vec<TableField>,
    pub old_fields: Vec<TableField>,
    pub indexes: Vec<Index>,
    pub old_indexes: Vec<Index>,
    pub foreign_keys: Vec<ForeignKey>,
    pub old_foreign_keys: Vec<ForeignKey>,
    pub uniques: Vec<Unique>,
    pub old_uniques: Vec<Unique>,
    pub checks: Vec<Check>,
    pub old_checks: Vec<Check>,
    pub excludes: Vec<Exclude>,
    pub old_excludes: Vec<Exclude>,
    pub rules: Vec<Rule>,
    pub old_rules: Vec<Rule>,
    pub triggers: Vec<Trigger>,
    pub old_triggers: Vec<Trigger>,
    pub comment: Vec<String>,
    pub old_comment: Vec<String>,
}

fn quote_names_dq(names: &Vec<String>) -> (r: Vec<String>)
    ensures
        views(r@) == crate::mysql_table::quoted(views(names@), "\""@),
{
    crate::mysql_table::quote_names(names, "\"")
}

impl TableDetailComponent {
    /// The CREATE TABLE statement of the table named `table_name` or "new_table" in the edited
    /// schema (see `pg_create_table_ddl`), from the statements that its parts write.
    pub fn build_create_ddl(&self, table_name: Option<&str>, parts: &PgCreateParts) -> (r: String)
        requires
            self.schema_name is Some,
        ensures
            r@ == pg_create_table_ddl(self.schema_name->0@, match table_name { Some(n) => n@, None => "new_table"@ },
                self.fields@, *parts),
    {
        let name = match table_name { Some(n) => n, None => "new_table" };
        let schema = match &self.schema_name { Some(s) => s.as_str(), None => "" };
        let (mut body, c_fields) = split_parts(&parts.fields);
        let keys = key_field_names(&self.fields);
        if keys.len() > 0 {
            body.push(cat3("\nPRIMARY KEY (", join(&quote_names_dq(&keys), ",").as_str(), ")"));
        }
        let (mut d_fk, c_fk) = split_parts(&parts.foreign_keys);
        let (mut d_un, c_un) = split_parts(&parts.uniques);
        let (mut d_ck, c_ck) = split_parts(&parts.checks);
        let (mut d_ex, c_ex) = split_parts(&parts.excludes);
        let (d_ix, c_ix) = split_parts(&parts.indexes);
        body.append(&mut d_fk);
        body.append(&mut d_un);
        body.append(&mut d_ck);
        body.append(&mut d_ex);
        let ghost keys_v = key_names(self.fields@);
        assert(views(body@) =~= ddls(parts.fields@)
            + (if keys_v.len() > 0 {
                seq!["\nPRIMARY KEY ("@ + seq_join(crate::mysql_table::quoted(keys_v, "\""@), ","@) + ")"@]
            } else {
                Seq::empty()
            })
            + ddls(parts.foreign_keys@) + ddls(parts.uniques@) + ddls(parts.checks@) + ddls(parts.excludes@));
        let mut cs = c_fields;
        cs.append(&mut clone_strings(&c_fk));
        cs.append(&mut clone_strings(&c_un));
        cs.append(&mut clone_strings(&c_ck));
        cs.append(&mut clone_strings(&c_ex));
        cs.append(&mut clone_strings(&c_ix));
        assert(views(cs@) =~= comments(parts.fields@) + comments(parts.foreign_keys@) + comments(parts.uniques@)
            + comments(parts.checks@) + comments(parts.excludes@) + comments(parts.indexes@));
        let sep = "\n            ";
        let mut s = cat3("CREATE TABLE \"", schema, "\".\"");
        s.append(name);
        s.append("\" (\n");
        s.append(join(&body, ",\n").as_str());
        s.append("\n);");
        s.append(sep);
        s.append(join(&d_ix, "\n").as_str());
        s.append(sep);
        s.append(join(&parts.rules, "\n").as_str());
        s.append(sep);
        s.append(join(&parts.triggers, "\n").as_str());
        s.append(sep);
        s.append(join(&cs, "\n").as_str());
        s
    }

    /// The clauses that change the primary key (see `pg_primary_key_alter`).
    pub fn build_primary_key_alter(&self) -> (r: Vec<String>)
        ensures
            views(r@) == pg_primary_key_alter(self.old_fields@, self.fields@,
                crate::form::opt_view(self.key_name)),
    {
        let old_keys = key_field_names(&self.old_fields);
        let keys = key_field_names(&self.fields);
        let mut r: Vec<String> = Vec::new();
        if !strings_eq(&old_keys, &keys) {
            match &self.key_name {
                Some(k) => r.push(cat3("DROP CONSTRAINT \"", k.as_str(), "\"")),
                None => {},
            }
            let ghost before = views(r@);
            r.push(cat3("ADD PRIMARY KEY (", join(&keys, ",").as_str(), ")"));
            assert(views(r@) =~= before.push(views(r@).last()));
        }
        assert(views(r@) =~= pg_primary_key_alter(self.old_fields@, self.fields@, crate::form::opt_view(self.key_name)));
        r
    }

    /// The statements that alter the stored table (see `pg_alter_table_ddl`), from the
    /// statements that its parts write.
    pub fn build_alter_ddl(&self, p: &PgAlterParts) -> (r: String)
        requires
            self.schema_name is Some,
            self.table_name is Some,
        ensures
            r@ == pg_alter_table_ddl(self.schema_name->0@, self.table_name->0@, self.old_fields@, self.fields@,
                crate::form::opt_view(self.key_name), *p, views(self.comment@), views(self.old_comment@)),
    {
        let schema = match &self.schema_name { Some(s) => s.as_str(), None => "" };
        let name = match &self.table_name { Some(s) => s.as_str(), None => "" };
        let mut main = clone_strings(&p.fields.alter);
        main.append(&mut self.build_primary_key_alter());
        main.append(&mut clone_strings(&p.foreign_keys.alter));
        main.append(&mut clone_strings(&p.uniques.alter));
        main.append(&mut clone_strings(&p.checks.alter));
        main.append(&mut clone_strings(&p.excludes.alter));
        assert(views(main@) =~= views(p.fields.alter@) + pg_primary_key_alter(self.old_fields@, self.fields@,
            crate::form::opt_view(self.key_name)) + views(p.foreign_keys.alter@) + views(p.uniques.alter@)
            + views(p.checks.alter@) + views(p.excludes.alter@));
        let mut ddl = clone_strings(&p.fields.rename);
        ddl.append(&mut clone_strings(&p.indexes.rename));
        ddl.append(&mut clone_strings(&p.foreign_keys.rename));
        ddl.append(&mut clone_strings(&p.uniques.rename));
        ddl.append(&mut clone_strings(&p.checks.rename));
        ddl.append(&mut clone_strings(&p.excludes.rename));
        ddl.append(&mut clone_strings(&p.rules.alter));
        ddl.append(&mut clone_strings(&p.triggers.alter));
        let ghost d0 = views(ddl@);
        if main.len() > 0 {
            let mut h = cat3("ALTER TABLE \"", schema, "\".\"");
            h.append(name);
            h.append("\"");
            ddl.push(h);
            ddl.push(cat(join(&main, ",\n").as_str(), ";"));
        }
        let ghost d1 = views(ddl@);
        ddl.append(&mut clone_strings(&p.indexes.alter));
        ddl.append(&mut clone_strings(&p.fields.comments));
        ddl.append(&mut clone_strings(&p.indexes.comments));
        ddl.append(&mut clone_strings(&p.foreign_keys.comments));
        ddl.append(&mut clone_strings(&p.uniques.comments));
        ddl.append(&mut clone_strings(&p.checks.comments));
        ddl.append(&mut clone_strings(&p.excludes.comments));
        ddl.append(&mut clone_strings(&p.rules.comments));
        ddl.append(&mut clone_strings(&p.triggers.comments));
        let ghost d2 = views(ddl@);
        if !strings_eq(&self.comment, &self.old_comment) {
            let mut c = cat3("COMMENT ON TABLE \"", schema, "\".\"");
            c.append(name);
            c.append("\" IS '");
            c.append(join(&self.comment, "\n").as_str());
            c.append("';");
            ddl.push(c);
        }
        let ghost mv = views(main@);
        assert(d1 =~= d0 + (if mv.len() > 0 {
            seq!["ALTER TABLE \""@ + schema@ + "\".\""@ + name@ + "\""@, seq_join(mv, ",\n"@) + ";"@]
        } else {
            Seq::empty()
        }));
        assert(views(ddl@) =~= views(p.fields.rename@) + views(p.indexes.rename@) + views(p.foreign_keys.rename@)
            + views(p.uniques.rename@) + views(p.checks.rename@) + views(p.excludes.rename@)
            + views(p.rules.alter@) + views(p.triggers.alter@)
            + (if mv.len() > 0 {
                seq!["ALTER TABLE \""@ + schema@ + "\".\""@ + name@ + "\""@, seq_join(mv, ",\n"@) + ";"@]
            } else {
                Seq::empty()
            })
            + views(p.indexes.alter@)
            + views(p.fields.comments@) + views(p.indexes.comments@) + views(p.foreign_keys.comments@)
            + views(p.uniques.comments@) + views(p.checks.comments@) + views(p.excludes.comments@)
            + views(p.rules.comments@) + views(p.triggers.comments@)
            + (if views(self.comment@) != views(self.old_comment@) {
                seq!["COMMENT ON TABLE \""@ + schema@ + "\".\""@ + name@ + "\" IS '"@
                    + seq_join(views(self.comment@), "\n"@) + "';"@]
            } else {
                Seq::empty()
            }));
        join(&ddl, "\n")
    }
}

/// The primary key is altered exactly when its fields changed.
pub proof fn lemma_pg_primary_key_alter_iff_changed(old: Seq<TableField>, new: Seq<TableField>, key_name: Option<Seq<char>>)
    ensures
        (pg_primary_key_alter(old, new, key_name).len() > 0) == (key_names(old) != key_names(new)),
{
}

/// Whether a part writes no statement.
pub open spec fn no_statements(a: PartAlter) -> bool {
    a.rename@.len() == 0 && a.comments@.len() == 0 && a.alter@.len() == 0
}

/// A table saved with nothing changed (no part statement, the same fields and comment) gets no
/// statement.
pub proof fn lemma_unchanged_pg_table(schema: Seq<char>, name: Seq<char>, fields: Seq<TableField>,
    key_name: Option<Seq<char>>, p: PgAlterParts, comment: Seq<Seq<char>>)
    requires
        no_statements(p.fields),
        no_statements(p.indexes),
        no_statements(p.foreign_keys),
        no_statements(p.uniques),
        no_statements(p.checks),
        no_statements(p.excludes),
        no_statements(p.rules),
        no_statements(p.triggers),
    ensures
        pg_alter_table_ddl(schema, name, fields, fields, key_name, p, comment, comment) == Seq::<char>::empty(),
{
    let main = views(p.fields.alter@) + pg_primary_key_alter(fields, fields, key_name)
        + views(p.foreign_keys.alter@) + views(p.uniques.alter@) + views(p.checks.alter@) + views(p.excludes.alter@);
    assert(main =~= Seq::<Seq<char>>::empty());
    let ddl = views(p.fields.rename@) + views(p.indexes.rename@) + views(p.foreign_keys.rename@)
        + views(p.uniques.rename@) + views(p.checks.rename@) + views(p.excludes.rename@)
        + views(p.rules.alter@) + views(p.triggers.alter@)
        + Seq::<Seq<char>>::empty()
        + views(p.indexes.alter@)
        + views(p.fields.comments@) + views(p.indexes.comments@) + views(p.foreign_keys.comments@)
        + views(p.uniques.comments@) + views(p.checks.comments@) + views(p.excludes.comments@)
        + views(p.rules.comments@) + views(p.triggers.comments@)
        + Seq::<Seq<char>>::empty();
    assert(ddl =~= Seq::<Seq<char>>::empty());
}

impl TableDetailComponent {
    /// The statements to run on save: those that alter the stored table when there is one, else
    /// those that create the table named `table_name` or "new_table".
    pub fn build_sql(&self, table_name: Option<&str>, create: &PgCreateParts, alter: &PgAlterParts) -> (r: String)
        requires
            self.schema_name is Some,
        ensures
            self.table_name is Some ==> r@ == pg_alter_table_ddl(self.schema_name->0@, self.table_name->0@,
                self.old_fields@, self.fields@, crate::form::opt_view(self.key_name), *alter, views(self.comment@),
                views(self.old_comment@)),
            self.table_name is None ==> r@ == pg_create_table_ddl(self.schema_name->0@,
                match table_name { Some(n) => n@, None => "new_table"@ }, self.fields@, *create),
    {
        if self.table_name.is_some() {
            self.build_alter_ddl(alter)
        } else {
            self.build_create_ddl(table_name, create)
        }
    }
}

/// The pieces of `s` between its line feeds (one more than there are line feeds).
pub open spec fn nl_pieces(s: Seq<char>) -> Seq<Seq<char>> {
    char_pieces(s, '\n')
}

/// A line without the carriage return that ends it, if any.
pub open spec fn strip_cr(x: Seq<char>) -> Seq<char> {
    if x.len() > 0 && x.last() == '\r' { x.drop_last() } else { x }
}

/// The lines of a text as `str::lines` gives them: split at each line feed, a carriage return
/// right before a line feed dropped, and no last line when the text ends with a line feed.
pub open spec fn text_lines(s: Seq<char>) -> Seq<Seq<char>> {
    let p = nl_pieces(s);
    let body = p.drop_last().map_values(|x: Seq<char>| strip_cr(x));
    if p.last().len() == 0 { body } else { body.push(p.last()) }
}

/// The lines that the comment editor shows for a stored comment: the lines of its text, and
/// one empty line when there is no comment or it has no line.
pub open spec fn comment_editor_lines(c: Option<Seq<char>>) -> Seq<Seq<char>> {
    match c {
        Some(t) => if text_lines(t).len() == 0 { seq![Seq::<char>::empty()] } else { text_lines(t) },
        None => seq![Seq::<char>::empty()],
    }
}

fn string_of_prefix(cs: &Vec<char>, n: usize) -> (r: String)
    requires
        n <= cs@.len(),
    ensures
        r@ == cs@.take(n as int),
{
    let mut r = String::new();
    for i in 0..n
        invariant
            n <= cs@.len(),
            r@ == cs@.take(i as int),
    {
        push_char(&mut r, cs[i]);
        assert(r@ =~= cs@.take(i + 1));
    }
    r
}

fn text_pieces(s: &str) -> (r: Vec<Vec<char>>)
    ensures
        r@.map_values(|v: Vec<char>| v@) == nl_pieces(s@),
{
    let cs = chars_of(s);
    let mut done: Vec<Vec<char>> = Vec::new();
    let mut cur: Vec<char> = Vec::new();
    for i in 0..cs.len()
        invariant
            cs@ == s@,
            done@.map_values(|v: Vec<char>| v@).push(cur@) == nl_pieces(cs@.take(i as int)),
    {
        let ghost before = done@.map_values(|v: Vec<char>| v@).push(cur@);
        assert(cs@.take(i + 1).drop_last() =~= cs@.take(i as int));
        let c = cs[i];
        if c == '\n' {
            let old_cur = cur;
            cur = Vec::new();
            done.push(old_cur);
            assert(done@.map_values(|v: Vec<char>| v@).push(cur@) =~= before.push(Seq::empty()));
        } else {
            cur.push(c);
            assert(done@.map_values(|v: Vec<char>| v@).push(cur@) =~= before.update(before.len() - 1, before.last().push(c)));
        }
    }
    assert(cs@.take(cs@.len() as int) =~= cs@);
    let ghost before = done@.map_values(|v: Vec<char>| v@).push(cur@);
    done.push(cur);
    assert(done@.map_values(|v: Vec<char>| v@) =~= before);
    done
}

/// The lines of `s` (see `text_lines`).
pub fn split_lines(s: &str) -> (r: Vec<String>)
    ensures
        views(r@) == text_lines(s@),
{
    let p = text_pieces(s);
    let ghost pv = p@.map_values(|v: Vec<char>| v@);
    proof { lemma_char_pieces_nonempty(s@, '\n'); }
    let n = p.len();
    let mut r: Vec<String> = Vec::new();
    for j in 0..n - 1
        invariant
            n == p@.len(),
            n >= 1,
            pv == p@.map_values(|v: Vec<char>| v@),
            views(r@) == pv.drop_last().take(j as int).map_values(|x: Seq<char>| strip_cr(x)),
    {
        let x = &p[j];
        let len = x.len();
        let keep = if len > 0 && x[len - 1] == '\r' { len - 1 } else { len };
        let line = string_of_prefix(x, keep);
        assert(pv[j as int] == x@);
        assert(line@ == strip_cr(x@)) by {
            if len > 0 && x@[len - 1] == '\r' {
                assert(x@.take(keep as int) =~= x@.drop_last());
            } else {
                assert(x@.take(keep as int) =~= x@);
            }
        }
        let ghost before = views(r@);
        r.push(line);
        assert(views(r@) =~= before.push(strip_cr(pv[j as int])));
        assert(pv.drop_last().take(j + 1) =~= pv.drop_last().take(j as int).push(pv[j as int]));
        assert(pv.drop_last().take(j + 1).map_values(|x: Seq<char>| strip_cr(x))
            =~= pv.drop_last().take(j as int).map_values(|x: Seq<char>| strip_cr(x)).push(strip_cr(pv[j as int])));
    }
    assert(pv.drop_last().take((n - 1) as int) =~= pv.drop_last());
    let last = &p[n - 1];
    assert(pv.last() == last@);
    if last.len() > 0 {
        let line = string_of_prefix(last, last.len());
        assert(last@.take(last@.len() as int) =~= last@);
        let ghost before = views(r@);
        r.push(line);
        assert(views(r@) =~= before.push(last@));
    }
    r
}

/// The lines of the comment editor for a stored comment (see `comment_editor_lines`).
pub fn comment_lines(c: &Option<String>) -> (r: Vec<String>)
    ensures
        views(r@) == comment_editor_lines(opt_view(*c)),
{
    let one_empty = || -> (v: Vec<String>)
        ensures
            views(v@) == seq![Seq::<char>::empty()],
    {
        let mut v: Vec<String> = Vec::new();
        v.push(String::new());
        assert(views(v@) =~= seq![Seq::<char>::empty()]);
        v
    };
    match c {
        Some(t) => {
            let l = split_lines(t.as_str());
            if l.len() == 0 { one_empty() } else { l }
        },
        None => one_empty(),
    }
}

/// An index of a PostgreSQL table: its id, name, indexed fields (as the dialog writes them,
/// separated by commas), index method, whether it is unique and built concurrently, and comment.
pub struct Index {
    pub id: u128,
    pub name: String,
    pub fields: String,
    pub index_method: Option<String>,
    pub unique: bool,
    pub concurrent: bool,
    pub comment: Option<String>,
}

/// A foreign key of a PostgreSQL table: its id, name, field, the schema, table and field it
/// refers to, its ON DELETE and ON UPDATE actions, and comment.
pub struct ForeignKey {
    pub id: u128,
    pub name: String,
    pub field: String,
    pub ref_schema: String,
    pub ref_table: String,
    pub ref_field: String,
    pub on_delete: Option<String>,
    pub on_update: Option<String>,
    pub comment: Option<String>,
}

/// A unique constraint: its id, name, fields (separated by commas) and comment.
pub struct Unique {
    pub id: u128,
    pub name: String,
    pub fields: String,
    pub comment: Option<String>,
}

/// A rule: its id, name, event, DO INSTEAD action, WHERE condition, definition, whether it is
/// enabled, and comment.
pub struct Rule {
    pub id: u128,
    pub name: String,
    pub event: String,
    pub do_instead: Option<String>,
    pub where_condition: Option<String>,
    pub definition: Option<String>,
    pub enable: bool,
    pub comment: Option<String>,
}

/// A trigger: its id, name, FOR EACH and firing time, the events it fires on, the fields of an
/// UPDATE event (separated by commas), whether it is enabled, its WHERE condition, and the
/// schema, name and argument of its function.
pub struct Trigger {
    pub id: u128,
    pub name: String,
    pub for_each: Option<String>,
    pub fires: Option<String>,
    pub insert: bool,
    pub update: bool,
    pub delete: bool,
    pub truncate: bool,
    pub update_fields: String,
    pub enable: bool,
    pub where_condition: Option<String>,
    pub fn_schema: String,
    pub fn_name: String,
    pub fn_arg: Option<String>,
}

/// A check constraint: its id, name, expression, whether it is NO INHERIT, and comment.
pub struct Check {
    pub id: u128,
    pub name: String,
    pub expression: String,
    pub no_inherit: bool,
    pub comment: Option<String>,
}

/// An exclusion constraint: its id, name, index method, elements (separated by commas) and comment.
pub struct Exclude {
    pub id: u128,
    pub name: String,
    pub index_method: Option<String>,
    pub element: String,
    pub comment: Option<String>,
}

/// The default value that the field dialog gives: absent when the form has no such item, else
/// its value, or the empty text when the item is empty.
pub open spec fn pg_default_value(form: Seq<EntryView>) -> Option<Seq<char>> {
    match lookup(form, "default value"@) {
        Some(v) => Some(match v { Some(t) => t, None => Seq::empty() }),
        None => None,
    }
}

/// A number that the field dialog gives under `key`: the decimal `i32` that its value reads as,
/// if it holds a value and that value reads as one.
pub open spec fn pg_number(form: Seq<EntryView>, key: Seq<char>) -> Option<i32> {
    match lookup(form, key) {
        Some(Some(t)) => parse_i32_spec(t),
        _ => None,
    }
}

fn number_at(form: &FormData, key: &str) -> (r: Option<i32>)
    ensures
        r == pg_number(form@, key@),
{
    match form.get(key) {
        Some(Some(t)) => parse_i32(t.as_str()),
        _ => None,
    }
}

/// The PostgreSQL field that the field dialog's form describes: its id (the one the form names,
/// or a fresh one), name, key flag, type, not-null flag, comment, default value (see
/// `pg_default_value`), length and decimals (see `pg_number`); an error when the form names an
/// id that is no UUID.
pub fn pg_field_from_form(form: &FormData) -> (r: Result<TableField, ItemFormError>)
    requires
        filled(form@, "name"@),
        filled(form@, "type"@),
        filled(form@, "not null"@),
        filled(form@, "key"@),
        lookup(form@, "comment"@) is Some,
    ensures
        match r {
            Ok(f) => {
                &&& id_error(form@) is None && id_from_form(form@, f.id)
                &&& f.name@ == value_at(form@, "name"@)
                &&& f.key == flag_of(form@, "key"@)
                &&& f.attrs matches FieldAttrs::Pg(a) && {
                    &&& a.kind@ == value_at(form@, "type"@)
                    &&& a.not_null == flag_of(form@, "not null"@)
                    &&& opt_view(a.comment) == lookup(form@, "comment"@)->0
                    &&& opt_view(a.default_value) == pg_default_value(form@)
                    &&& a.length == pg_number(form@, "length"@)
                    &&& a.decimal == pg_number(form@, "decimal"@)
                }
            },
            Err(e) => id_error_is(form@, e),
        },
{
    let not_null = flag_at(form, "not null");
    let key = flag_at(form, "key");
    let id = item_id(form)?;
    let default_value = match form.get("default value") {
        Some(Some(t)) => Some(t),
        Some(None) => Some(String::new()),
        None => None,
    };
    let attrs = PgFieldAttrs {
        kind: text_at(form, "type"),
        not_null,
        comment: item_at(form, "comment"),
        default_value,
        length: number_at(form, "length"),
        decimal: number_at(form, "decimal"),
    };
    Ok(TableField { id, name: text_at(form, "name"), key, attrs: FieldAttrs::Pg(attrs) })
}

/// The index that the index dialog's form describes; an error when the form names an id that is
/// no UUID.
pub fn index_from_form(form: &FormData) -> (r: Result<Index, ItemFormError>)
    requires
        filled(form@, "name"@),
        filled(form@, "fields"@),
        lookup(form@, "index method"@) is Some,
        filled(form@, "unique"@),
        filled(form@, "concurrent"@),
        lookup(form@, "comment"@) is Some,
    ensures
        match r {
            Ok(x) => {
                &&& id_error(form@) is None && id_from_form(form@, x.id)
                &&& x.name@ == value_at(form@, "name"@)
                &&& x.fields@ == value_at(form@, "fields"@)
                &&& opt_view(x.index_method) == lookup(form@, "index method"@)->0
                &&& x.unique == flag_of(form@, "unique"@)
                &&& x.concurrent == flag_of(form@, "concurrent"@)
                &&& opt_view(x.comment) == lookup(form@, "comment"@)->0
            },
            Err(e) => id_error_is(form@, e),
        },
{
    let id = item_id(form)?;
    Ok(Index {
        id,
        name: text_at(form, "name"),
        fields: text_at(form, "fields"),
        index_method: item_at(form, "index method"),
        unique: flag_at(form, "unique"),
        concurrent: flag_at(form, "concurrent"),
        comment: item_at(form, "comment"),
    })
}

/// The foreign key that the foreign-key dialog's form describes; an error when the form names
/// an id that is no UUID.
pub fn foreign_key_from_form(form: &FormData) -> (r: Result<ForeignKey, ItemFormError>)
    requires
        filled(form@, "name"@),
        filled(form@, "field"@),
        filled(form@, "reference schema"@),
        filled(form@, "reference table"@),
        filled(form@, "reference field"@),
        lookup(form@, "on delete"@) is Some,
        lookup(form@, "on update"@) is Some,
        lookup(form@, "comment"@) is Some,
    ensures
        match r {
            Ok(x) => {
                &&& id_error(form@) is None && id_from_form(form@, x.id)
                &&& x.name@ == value_at(form@, "name"@)
                &&& x.field@ == value_at(form@, "field"@)
                &&& x.ref_schema@ == value_at(form@, "reference schema"@)
                &&& x.ref_table@ == value_at(form@, "reference table"@)
                &&& x.ref_field@ == value_at(form@, "reference field"@)
                &&& opt_view(x.on_delete) == lookup(form@, "on delete"@)->0
                &&& opt_view(x.on_update) == lookup(form@, "on update"@)->0
                &&& opt_view(x.comment) == lookup(form@, "comment"@)->0
            },
            Err(e) => id_error_is(form@, e),
        },
{
    let id = item_id(form)?;
    Ok(ForeignKey {
        id,
        name: text_at(form, "name"),
        field: text_at(form, "field"),
        ref_schema: text_at(form, "reference schema"),
        ref_table: text_at(form, "reference table"),
        ref_field: text_at(form, "reference field"),
        on_delete: item_at(form, "on delete"),
        on_update: item_at(form, "on update"),
        comment: item_at(form, "comment"),
    })
}

/// The unique constraint that the unique dialog's form describes; an error when the form names
/// an id that is no UUID.
pub fn unique_from_form(form: &FormData) -> (r: Result<Unique, ItemFormError>)
    requires
        filled(form@, "name"@),
        filled(form@, "fields"@),
        lookup(form@, "comment"@) is Some,
    ensures
        match r {
            Ok(x) => {
                &&& id_error(form@) is None && id_from_form(form@, x.id)
                &&& x.name@ == value_at(form@, "name"@)
                &&& x.fields@ == value_at(form@, "fields"@)
                &&& opt_view(x.comment) == lookup(form@, "comment"@)->0
            },
            Err(e) => id_error_is(form@, e),
        },
{
    let id = item_id(form)?;
    Ok(Unique { id, name: text_at(form, "name"), fields: text_at(form, "fields"), comment: item_at(form, "comment") })
}

/// The rule that the rule dialog's form describes; an error when the form names an id that is
/// no UUID.
pub fn rule_from_form(form: &FormData) -> (r: Result<Rule, ItemFormError>)
    requires
        filled(form@, "name"@),
        filled(form@, "event"@),
        lookup(form@, "do instead"@) is Some,
        lookup(form@, "where"@) is Some,
        lookup(form@, "definition"@) is Some,
        filled(form@, "enable"@),
        lookup(form@, "comment"@) is Some,
    ensures
        match r {
            Ok(x) => {
                &&& id_error(form@) is None && id_from_form(form@, x.id)
                &&& x.name@ == value_at(form@, "name"@)
                &&& x.event@ == value_at(form@, "event"@)
                &&& opt_view(x.do_instead) == lookup(form@, "do instead"@)->0
                &&& opt_view(x.where_condition) == lookup(form@, "where"@)->0
                &&& opt_view(x.definition) == lookup(form@, "definition"@)->0
                &&& x.enable == flag_of(form@, "enable"@)
                &&& opt_view(x.comment) == lookup(form@, "comment"@)->0
            },
            Err(e) => id_error_is(form@, e),
        },
{
    let id = item_id(form)?;
    Ok(Rule {
        id,
        name: text_at(form, "name"),
        event: text_at(form, "event"),
        do_instead: item_at(form, "do instead"),
        where_condition: item_at(form, "where"),
        definition: item_at(form, "definition"),
        enable: flag_at(form, "enable"),
        comment: item_at(form, "comment"),
    })
}

/// The trigger that the trigger dialog's form describes; an error when the form names an id
/// that is no UUID.
pub fn trigger_from_form(form: &FormData) -> (r: Result<Trigger, ItemFormError>)
    requires
        filled(form@, "name"@),
        lookup(form@, "for each"@) is Some,
        lookup(form@, "fires"@) is Some,
        filled(form@, "insert"@),
        filled(form@, "update"@),
        filled(form@, "delete"@),
        filled(form@, "truncate"@),
        filled(form@, "update fields"@),
        filled(form@, "enable"@),
        lookup(form@, "where"@) is Some,
        filled(form@, "function schema"@),
        filled(form@, "function name"@),
        lookup(form@, "function arg"@) is Some,
    ensures
        match r {
            Ok(x) => {
                &&& id_error(form@) is None && id_from_form(form@, x.id)
                &&& x.name@ == value_at(form@, "name"@)
                &&& opt_view(x.for_each) == lookup(form@, "for each"@)->0
                &&& opt_view(x.fires) == lookup(form@, "fires"@)->0
                &&& x.insert == flag_of(form@, "insert"@)
                &&& x.update == flag_of(form@, "update"@)
                &&& x.delete == flag_of(form@, "delete"@)
                &&& x.truncate == flag_of(form@, "truncate"@)
                &&& x.update_fields@ == value_at(form@, "update fields"@)
                &&& x.enable == flag_of(form@, "enable"@)
                &&& opt_view(x.where_condition) == lookup(form@, "where"@)->0
                &&& x.fn_schema@ == value_at(form@, "function schema"@)
                &&& x.fn_name@ == value_at(form@, "function name"@)
                &&& opt_view(x.fn_arg) == lookup(form@, "function arg"@)->0
            },
            Err(e) => id_error_is(form@, e),
        },
{
    let id = item_id(form)?;
    Ok(Trigger {
        id,
        name: text_at(form, "name"),
        for_each: item_at(form, "for each"),
        fires: item_at(form, "fires"),
        insert: flag_at(form, "insert"),
        update: flag_at(form, "update"),
        delete: flag_at(form, "delete"),
        truncate: flag_at(form, "truncate"),
        update_fields: text_at(form, "update fields"),
        enable: flag_at(form, "enable"),
        where_condition: item_at(form, "where"),
        fn_schema: text_at(form, "function schema"),
        fn_name: text_at(form, "function name"),
        fn_arg: item_at(form, "function arg"),
    })
}

/// The check that the check dialog's form describes; an error when the form names an id that
/// is no UUID.
pub fn check_from_form(form: &FormData) -> (r: Result<Check, ItemFormError>)
    requires
        filled(form@, "name"@),
        filled(form@, "expression"@),
        filled(form@, "no inherit"@),
        lookup(form@, "comment"@) is Some,
    ensures
        match r {
            Ok(x) => {
                &&& id_error(form@) is None && id_from_form(form@, x.id)
                &&& x.name@ == value_at(form@, "name"@)
                &&& x.expression@ == value_at(form@, "expression"@)
                &&& x.no_inherit == flag_of(form@, "no inherit"@)
                &&& opt_view(x.comment) == lookup(form@, "comment"@)->0
            },
            Err(e) => id_error_is(form@, e),
        },
{
    let id = item_id(form)?;
    Ok(Check {
        id,
        name: text_at(form, "name"),
        expression: text_at(form, "expression"),
        no_inherit: flag_at(form, "no inherit"),
        comment: item_at(form, "comment"),
    })
}

/// The exclusion constraint that the exclude dialog's form describes; an error when the form
/// names an id that is no UUID.
pub fn exclude_from_form(form: &FormData) -> (r: Result<Exclude, ItemFormError>)
    requires
        filled(form@, "name"@),
        lookup(form@, "index method"@) is Some,
        filled(form@, "element"@),
        lookup(form@, "comment"@) is Some,
    ensures
        match r {
            Ok(x) => {
                &&& id_error(form@) is None && id_from_form(form@, x.id)
                &&& x.name@ == value_at(form@, "name"@)
                &&& opt_view(x.index_method) == lookup(form@, "index method"@)->0
                &&& x.element@ == value_at(form@, "element"@)
                &&& opt_view(x.comment) == lookup(form@, "comment"@)->0
            },
            Err(e) => id_error_is(form@, e),
        },
{
    let id = item_id(form)?;
    Ok(Exclude {
        id,
        name: text_at(form, "name"),
        index_method: item_at(form, "index method"),
        element: text_at(form, "element"),
        comment: item_at(form, "comment"),
    })
}

fn copy_opt(o: &Option<String>) -> (r: Option<String>)
    ensures
        r == *o,
{
    match o {
        Some(x) => Some(x.clone()),
        None => None,
    }
}

fn copy_index(x: &Index) -> (r: Index)
    ensures
        r == *x,
{
    Index {
        id: x.id,
        name: x.name.clone(),
        fields: x.fields.clone(),
        index_method: copy_opt(&x.index_method),
        unique: x.unique,
        concurrent: x.concurrent,
        comment: copy_opt(&x.comment),
    }
}

fn copy_foreign_key(x: &ForeignKey) -> (r: ForeignKey)
    ensures
        r == *x,
{
    ForeignKey {
        id: x.id,
        name: x.name.clone(),
        field: x.field.clone(),
        ref_schema: x.ref_schema.clone(),
        ref_table: x.ref_table.clone(),
        ref_field: x.ref_field.clone(),
        on_delete: copy_opt(&x.on_delete),
        on_update: copy_opt(&x.on_update),
        comment: copy_opt(&x.comment),
    }
}

fn copy_unique(x: &Unique) -> (r: Unique)
    ensures
        r == *x,
{
    Unique { id: x.id, name: x.name.clone(), fields: x.fields.clone(), comment: copy_opt(&x.comment) }
}

fn copy_rule(x: &Rule) -> (r: Rule)
    ensures
        r == *x,
{
    Rule {
        id: x.id,
        name: x.name.clone(),
        event: x.event.clone(),
        do_instead: copy_opt(&x.do_instead),
        where_condition: copy_opt(&x.where_condition),
        definition: copy_opt(&x.definition),
        enable: x.enable,
        comment: copy_opt(&x.comment),
    }
}

fn copy_trigger(x: &Trigger) -> (r: Trigger)
    ensures
        r == *x,
{
    Trigger {
        id: x.id,
        name: x.name.clone(),
        for_each: copy_opt(&x.for_each),
        fires: copy_opt(&x.fires),
        insert: x.insert,
        update: x.update,
        delete: x.delete,
        truncate: x.truncate,
        update_fields: x.update_fields.clone(),
        enable: x.enable,
        where_condition: copy_opt(&x.where_condition),
        fn_schema: x.fn_schema.clone(),
        fn_name: x.fn_name.clone(),
        fn_arg: copy_opt(&x.fn_arg),
    }
}

fn copy_check(x: &Check) -> (r: Check)
    ensures
        r == *x,
{
    Check {
        id: x.id,
        name: x.name.clone(),
        expression: x.expression.clone(),
        no_inherit: x.no_inherit,
        comment: copy_opt(&x.comment),
    }
}

fn copy_exclude(x: &Exclude) -> (r: Exclude)
    ensures
        r == *x,
{
    Exclude {
        id: x.id,
        name: x.name.clone(),
        index_method: copy_opt(&x.index_method),
        element: x.element.clone(),
        comment: copy_opt(&x.comment),
    }
}

fn copy_indexes(v: &Vec<Index>) -> (r: Vec<Index>)
    ensures
        r@ == v@,
{
    let mut r: Vec<Index> = Vec::new();
    for i in 0..v.len()
        invariant
            r@ == v@.take(i as int),
    {
        r.push(copy_index(&v[i]));
        assert(r@ =~= v@.take(i + 1));
    }
    assert(v@.take(v@.len() as int) =~= v@);
    r
}

fn copy_foreign_keys(v: &Vec<ForeignKey>) -> (r: Vec<ForeignKey>)
    ensures
        r@ == v@,
{
    let mut r: Vec<ForeignKey> = Vec::new();
    for i in 0..v.len()
        invariant
            r@ == v@.take(i as int),
    {
        r.push(copy_foreign_key(&v[i]));
        assert(r@ =~= v@.take(i + 1));
    }
    assert(v@.take(v@.len() as int) =~= v@);
    r
}

fn copy_uniques(v: &Vec<Unique>) -> (r: Vec<Unique>)
    ensures
        r@ == v@,
{
    let mut r: Vec<Unique> = Vec::new();
    for i in 0..v.len()
        invariant
            r@ == v@.take(i as int),
    {
        r.push(copy_unique(&v[i]));
        assert(r@ =~= v@.take(i + 1));
    }
    assert(v@.take(v@.len() as int) =~= v@);
    r
}

fn copy_rules(v: &Vec<Rule>) -> (r: Vec<Rule>)
    ensures
        r@ == v@,
{
    let mut r: Vec<Rule> = Vec::new();
    for i in 0..v.len()
        invariant
            r@ == v@.take(i as int),
    {
        r.push(copy_rule(&v[i]));
        assert(r@ =~= v@.take(i + 1));
    }
    assert(v@.take(v@.len() as int) =~= v@);
    r
}

fn copy_triggers(v: &Vec<Trigger>) -> (r: Vec<Trigger>)
    ensures
        r@ == v@,
{
    let mut r: Vec<Trigger> = Vec::new();
    for i in 0..v.len()
        invariant
            r@ == v@.take(i as int),
    {
        r.push(copy_trigger(&v[i]));
        assert(r@ =~= v@.take(i + 1));
    }
    assert(v@.take(v@.len() as int) =~= v@);
    r
}

fn copy_checks(v: &Vec<Check>) -> (r: Vec<Check>)
    ensures
        r@ == v@,
{
    let mut r: Vec<Check> = Vec::new();
    for i in 0..v.len()
        invariant
            r@ == v@.take(i as int),
    {
        r.push(copy_check(&v[i]));
        assert(r@ =~= v@.take(i + 1));
    }
    assert(v@.take(v@.len() as int) =~= v@);
    r
}

fn copy_excludes(v: &Vec<Exclude>) -> (r: Vec<Exclude>)
    ensures
        r@ == v@,
{
    let mut r: Vec<Exclude> = Vec::new();
    for i in 0..v.len()
        invariant
            r@ == v@.take(i as int),
    {
        r.push(copy_exclude(&v[i]));
        assert(r@ =~= v@.take(i + 1));
    }
    assert(v@.take(v@.len() as int) =~= v@);
    r
}

/// The parts of a stored PostgreSQL table besides its fields, as the server reports them.
pub struct PgTableParts {
    pub indexes: Vec<Index>,
    pub foreign_keys: Vec<ForeignKey>,
    pub uniques: Vec<Unique>,
    pub checks: Vec<Check>,
    pub excludes: Vec<Exclude>,
    pub rules: Vec<Rule>,
    pub triggers: Vec<Trigger>,
}

impl TableDetailComponent {
    /// Loads the stored table `table_name` of the schema `schema_name` into the editor: its
    /// fields, the name of its primary-key constraint, its indexes, foreign keys, unique
    /// constraints, checks, exclusion constraints, rules and triggers, and its comment (see
    /// `comment_lines`); each list and the comment become their stored copies too.
    pub fn load_table(&mut self, schema_name: String, table_name: String, fields: Vec<TableField>,
        key_name: Option<String>, parts: PgTableParts, comment: Option<String>)
        ensures
            final(self).schema_name == Some(schema_name),
            final(self).table_name == Some(table_name),
            final(self).key_name == key_name,
            final(self).fields == fields,
            final(self).old_fields@ == fields@,
            final(self).indexes == parts.indexes,
            final(self).old_indexes@ == parts.indexes@,
            final(self).foreign_keys == parts.foreign_keys,
            final(self).old_foreign_keys@ == parts.foreign_keys@,
            final(self).uniques == parts.uniques,
            final(self).old_uniques@ == parts.uniques@,
            final(self).checks == parts.checks,
            final(self).old_checks@ == parts.checks@,
            final(self).excludes == parts.excludes,
            final(self).old_excludes@ == parts.excludes@,
            final(self).rules == parts.rules,
            final(self).old_rules@ == parts.rules@,
            final(self).triggers == parts.triggers,
            final(self).old_triggers@ == parts.triggers@,
            views(final(self).comment@) == comment_editor_lines(opt_view(comment)),
            final(self).old_comment@ == final(self).comment@,
    {
        let lines = comment_lines(&comment);
        self.old_comment = copy_strings(&lines);
        self.comment = lines;
        self.old_fields = copy_fields(&fields);
        self.fields = fields;
        self.old_indexes = copy_indexes(&parts.indexes);
        self.indexes = parts.indexes;
        self.old_foreign_keys = copy_foreign_keys(&parts.foreign_keys);
        self.foreign_keys = parts.foreign_keys;
        self.old_uniques = copy_uniques(&parts.uniques);
        self.uniques = parts.uniques;
        self.old_checks = copy_checks(&parts.checks);
        self.checks = parts.checks;
        self.old_excludes = copy_excludes(&parts.excludes);
        self.excludes = parts.excludes;
        self.old_rules = copy_rules(&parts.rules);
        self.rules = parts.rules;
        self.old_triggers = copy_triggers(&parts.triggers);
        self.triggers = parts.triggers;
        self.key_name = key_name;
        self.schema_name = Some(schema_name);
        self.table_name = Some(table_name);
    }

    /// Prepares the editor for a new table in the schema `schema_name`; the rest stays as it was.
    pub fn load_new_table(&mut self, schema_name: String)
        ensures
            final(self).schema_name == Some(schema_name),
            final(self).table_name is None,
            final(self).key_name == old(self).key_name,
            final(self).fields == old(self).fields,
            final(self).old_fields == old(self).old_fields,
            final(self).indexes == old(self).indexes,
            final(self).old_indexes == old(self).old_indexes,
            final(self).foreign_keys == old(self).foreign_keys,
            final(self).old_foreign_keys == old(self).old_foreign_keys,
            final(self).uniques == old(self).uniques,
            final(self).old_uniques == old(self).old_uniques,
            final(self).checks == old(self).checks,
            final(self).old_checks == old(self).old_checks,
            final(self).excludes == old(self).excludes,
            final(self).old_excludes == old(self).old_excludes,
            final(self).rules == old(self).rules,
            final(self).old_rules == old(self).old_rules,
            final(self).triggers == old(self).triggers,
            final(self).old_triggers == old(self).old_triggers,
            final(self).comment == old(self).comment,
            final(self).old_comment == old(self).old_comment,
    {
        self.schema_name = Some(schema_name);
        self.table_name = None;
    }
}

impl Index {
    /// The indexed fields, one per comma-separated piece of `fields`.
    pub fn field_list(&self) -> (r: Vec<String>)
        ensures
            views(r@) == char_pieces(self.fields@, ','),
    {
        split_char(self.fields.as_str(), ',')
    }
}

impl Unique {
    /// The fields of the constraint, one per comma-separated piece of `fields`.
    pub fn field_list(&self) -> (r: Vec<String>)
        ensures
            views(r@) == char_pieces(self.fields@, ','),
    {
        split_char(self.fields.as_str(), ',')
    }
}

impl Trigger {
    /// The fields of an UPDATE event, one per comma-separated piece of `update_fields`.
    pub fn update_field_list(&self) -> (r: Vec<String>)
        ensures
            views(r@) == char_pieces(self.update_fields@, ','),
    {
        split_char(self.update_fields.as_str(), ',')
    }
}

impl Exclude {
    /// The elements of the constraint, one per comma-separated piece of `element`.
    pub fn element_list(&self) -> (r: Vec<String>)
        ensures
            views(r@) == char_pieces(self.element@, ','),
    {
        split_char(self.element.as_str(), ',')
    }
}

/// The statements of the parts are one per part, in order.
pub proof fn lemma_ddls(ps: Seq<PartDdl>)
    ensures
        ddls(ps).len() == ps.len(),
        forall|i: int| 0 <= i < ps.len() ==> #[trigger] ddls(ps)[i] == ps[i].ddl@,
    decreases ps.len(),
{
    if ps.len() > 0 {
        lemma_ddls(ps.drop_last());
        assert forall|i: int| 0 <= i < ps.len() implies #[trigger] ddls(ps)[i] == ps[i].ddl@ by {
            if i < ps.len() - 1 {
                assert(ps.drop_last()[i] == ps[i]);
            }
        }
    }
}

/// The column list of the CREATE TABLE statement of a new table: the fields, the primary key,
/// the foreign keys, uniques, checks and excludes.
spec fn create_body(fields: Seq<TableField>, p: PgCreateParts) -> Seq<Seq<char>> {
    let keys = key_names(fields);
    ddls(p.fields@)
        + (if keys.len() > 0 {
            seq!["\nPRIMARY KEY ("@ + seq_join(crate::mysql_table::quoted(keys, "\""@), ","@) + ")"@]
        } else {
            Seq::empty()
        })
        + ddls(p.foreign_keys@) + ddls(p.uniques@) + ddls(p.checks@) + ddls(p.excludes@)
}

proof fn lemma_entry_on_its_own_line(schema: Seq<char>, name: Seq<char>, fields: Seq<TableField>,
    p: PgCreateParts, idx: int) -> (r: (Seq<char>, Seq<char>, bool))
    requires
        0 <= idx < create_body(fields, p).len(),
    ensures
        r.2 ==> pg_create_table_ddl(schema, name, fields, p) == r.0 + "\n"@ + create_body(fields, p)[idx] + ",\n"@ + r.1,
        !r.2 ==> pg_create_table_ddl(schema, name, fields, p) == r.0 + "\n"@ + create_body(fields, p)[idx] + "\n);"@ + r.1,
{
    let body = create_body(fields, p);
    let all_comments = comments(p.fields@) + comments(p.foreign_keys@) + comments(p.uniques@)
        + comments(p.checks@) + comments(p.excludes@) + comments(p.indexes@);
    let tail = part_sep() + seq_join(ddls(p.indexes@), "\n"@)
        + part_sep() + seq_join(views(p.rules@), "\n"@)
        + part_sep() + seq_join(views(p.triggers@), "\n"@)
        + part_sep() + seq_join(all_comments, "\n"@);
    let head0 = "CREATE TABLE \""@ + schema + "\".\""@ + name + "\" ("@;
    let full = pg_create_table_ddl(schema, name, fields, p);
    assert(full == "CREATE TABLE \""@ + schema + "\".\""@ + name + "\" (\n"@ + seq_join(body, ",\n"@) + "\n);"@ + tail);
    let (a, b) = crate::text::lemma_seq_join_at(body, ",\n"@, idx);
    let d = body[idx];
    reveal_strlit("\" (\n");
    reveal_strlit("\" (");
    reveal_strlit(",\n");
    reveal_strlit(",");
    reveal_strlit("\n");
    let pre = if idx == 0 { head0 } else { head0 + "\n"@ + seq_join(body.take(idx), ",\n"@) + ","@ };
    assert(pre + "\n"@ =~= "CREATE TABLE \""@ + schema + "\".\""@ + name + "\" (\n"@ + a);
    if idx < body.len() - 1 {
        let post = seq_join(body.skip(idx + 1), ",\n"@) + "\n);"@ + tail;
        assert(full =~= pre + "\n"@ + d + ",\n"@ + post);
        (pre, post, true)
    } else {
        assert(full =~= pre + "\n"@ + d + "\n);"@ + tail);
        (pre, tail, false)
    }
}

/// Whether `d` stands on a line of its own in the column list of the statement `s`: after a
/// line break, and followed by ",\n" (another entry) or "\n);" (the end of the list).
pub open spec fn on_its_own_line(s: Seq<char>, d: Seq<char>) -> bool {
    exists|pre: Seq<char>, post: Seq<char>|
        s == pre + "\n"@ + d + ",\n"@ + post || s == pre + "\n"@ + d + "\n);"@ + post
}

proof fn lemma_witness_own_line(s: Seq<char>, d: Seq<char>, r: (Seq<char>, Seq<char>, bool))
    requires
        r.2 ==> s == r.0 + "\n"@ + d + ",\n"@ + r.1,
        !r.2 ==> s == r.0 + "\n"@ + d + "\n);"@ + r.1,
    ensures
        on_its_own_line(s, d),
{
    let (pre, post, _) = r;
    assert(s == pre + "\n"@ + d + ",\n"@ + post || s == pre + "\n"@ + d + "\n);"@ + post);
}

/// Every field, foreign key, unique, check and exclude of a new table stands on a line of its
/// own in the column list of its CREATE TABLE statement, and so does the primary key when some
/// field is in it.
pub proof fn lemma_parts_on_their_own_lines(schema: Seq<char>, name: Seq<char>, fields: Seq<TableField>, p: PgCreateParts)
    ensures
        forall|k: int| 0 <= k < p.fields@.len() ==>
            on_its_own_line(pg_create_table_ddl(schema, name, fields, p), (#[trigger] p.fields@[k]).ddl@),
        forall|k: int| 0 <= k < p.foreign_keys@.len() ==>
            on_its_own_line(pg_create_table_ddl(schema, name, fields, p), (#[trigger] p.foreign_keys@[k]).ddl@),
        forall|k: int| 0 <= k < p.uniques@.len() ==>
            on_its_own_line(pg_create_table_ddl(schema, name, fields, p), (#[trigger] p.uniques@[k]).ddl@),
        forall|k: int| 0 <= k < p.checks@.len() ==>
            on_its_own_line(pg_create_table_ddl(schema, name, fields, p), (#[trigger] p.checks@[k]).ddl@),
        forall|k: int| 0 <= k < p.excludes@.len() ==>
            on_its_own_line(pg_create_table_ddl(schema, name, fields, p), (#[trigger] p.excludes@[k]).ddl@),
        key_names(fields).len() > 0 ==> on_its_own_line(pg_create_table_ddl(schema, name, fields, p),
            "\nPRIMARY KEY ("@ + seq_join(crate::mysql_table::quoted(key_names(fields), "\""@), ","@) + ")"@),
{
    let full = pg_create_table_ddl(schema, name, fields, p);
    let body = create_body(fields, p);
    lemma_ddls(p.fields@);
    lemma_ddls(p.foreign_keys@);
    lemma_ddls(p.uniques@);
    lemma_ddls(p.checks@);
    lemma_ddls(p.excludes@);
    let keys = key_names(fields);
    let kp: Seq<Seq<char>> = if keys.len() > 0 {
        seq!["\nPRIMARY KEY ("@ + seq_join(crate::mysql_table::quoted(keys, "\""@), ","@) + ")"@]
    } else {
        Seq::empty()
    };
    let n0: int = p.fields@.len() as int;
    let n1: int = n0 + kp.len();
    let n2: int = n1 + p.foreign_keys@.len();
    let n3: int = n2 + p.uniques@.len();
    let n4: int = n3 + p.checks@.len();
    assert(body =~= ddls(p.fields@) + kp + ddls(p.foreign_keys@) + ddls(p.uniques@) + ddls(p.checks@) + ddls(p.excludes@));
    assert forall|k: int| 0 <= k < p.fields@.len() implies
        on_its_own_line(full, (#[trigger] p.fields@[k]).ddl@) by {
        assert(body[k] == p.fields@[k].ddl@);
        let r = lemma_entry_on_its_own_line(schema, name, fields, p, k);
        lemma_witness_own_line(full, p.fields@[k].ddl@, r);
    }
    if keys.len() > 0 {
        assert(body[n0] == kp[0]);
        let r = lemma_entry_on_its_own_line(schema, name, fields, p, n0);
        lemma_witness_own_line(full, kp[0], r);
    }
    assert forall|k: int| 0 <= k < p.foreign_keys@.len() implies
        on_its_own_line(full, (#[trigger] p.foreign_keys@[k]).ddl@) by {
        assert(body[n1 + k] == p.foreign_keys@[k].ddl@);
        let r = lemma_entry_on_its_own_line(schema, name, fields, p, n1 + k);
        lemma_witness_own_line(full, p.foreign_keys@[k].ddl@, r);
    }
    assert forall|k: int| 0 <= k < p.uniques@.len() implies
        on_its_own_line(full, (#[trigger] p.uniques@[k]).ddl@) by {
        assert(body[n2 + k] == p.uniques@[k].ddl@);
        let r = lemma_entry_on_its_own_line(schema, name, fields, p, n2 + k);
        lemma_witness_own_line(full, p.uniques@[k].ddl@, r);
    }
    assert forall|k: int| 0 <= k < p.checks@.len() implies
        on_its_own_line(full, (#[trigger] p.checks@[k]).ddl@) by {
        assert(body[n3 + k] == p.checks@[k].ddl@);
        let r = lemma_entry_on_its_own_line(schema, name, fields, p, n3 + k);
        lemma_witness_own_line(full, p.checks@[k].ddl@, r);
    }
    assert forall|k: int| 0 <= k < p.excludes@.len() implies
        on_its_own_line(full, (#[trigger] p.excludes@[k]).ddl@) by {
        assert(body[n4 + k] == p.excludes@[k].ddl@);
        let r = lemma_entry_on_its_own_line(schema, name, fields, p, n4 + k);
        lemma_witness_own_line(full, p.excludes@[k].ddl@, r);
    }
}

} // verus!
