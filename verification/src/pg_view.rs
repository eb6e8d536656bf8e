//! The PostgreSQL view editor: the statements that create or alter a view.
use vstd::prelude::*;
use vstd::string::*;
use crate::form::opt_view;
use crate::mysql_user::clone_strings;
use crate::text::{cat, cat3, join, seq_join, views};

verus! {

/// A stored PostgreSQL view as the view editor holds it.
pub struct PgView {
    pub name: String,
    pub definition: String,
    pub owner: Option<String>,
    pub comment: String,
}

/// The statements that create the PostgreSQL view `name`, one per line: the CREATE VIEW
/// statement, the owner change (empty without an owner), the rules' statements and the comment
/// statement (written "COMMENT ON" and the comment; empty without a comment).
pub open spec fn pg_create_view(name: Seq<char>, definition: Seq<Seq<char>>, owner: Option<Seq<char>>,
    rules: Seq<Seq<char>>, comment: Seq<Seq<char>>) -> Seq<char> {
    let c = seq_join(comment, "\n"@);
    "CREATE VIEW \""@ + name + "\" AS "@ + seq_join(definition, "\n"@) + "\n"@
        + (match owner { Some(o) => "ALTER VIEW \""@ + name + "\" OWNER TO "@ + o, None => Seq::empty() }) + "\n"@
        + seq_join(rules, "\n"@) + "\n"@
        + (if c.len() > 0 { "COMMENT ON "@ + c } else { Seq::empty() })
}

/// The statements that alter the stored PostgreSQL view `schema`.`view.name`, one per line. A
/// changed definition drops the view and creates it again under its name with `rules_create`;
/// else come the rule statements and their comments, an owner change (to "CURRENT_ROLE" when
/// the owner was cleared) and a comment change.
pub open spec fn pg_alter_view(schema: Seq<char>, view: PgView, definition: Seq<Seq<char>>, owner: Option<Seq<char>>,
    comment: Seq<Seq<char>>, rules_create: Seq<Seq<char>>, rules_alter: Seq<Seq<char>>,
    rules_comments: Seq<Seq<char>>) -> Seq<char> {
    let def = seq_join(definition, "\n"@);
    let c = seq_join(comment, "\n"@);
    let n = view.name@;
    let ddl = if view.definition@ != def {
        seq!["DROP VIEW \""@ + schema + "\".\""@ + n + "\""@, pg_create_view(n, definition, owner, rules_create, comment)]
    } else {
        rules_alter + rules_comments
            + (if opt_view(view.owner) != owner {
                seq!["ALTER VIEW \""@ + schema + "\".\""@ + n + "\" OWNER TO "@
                    + (match owner { Some(o) => o, None => "CURRENT_ROLE"@ })]
            } else {
                Seq::empty()
            })
            + (if view.comment@ != c {
                seq!["COMMENT ON VIEW \""@ + schema + "\".\""@ + n + "\" IS '"@ + c + "'"@]
            } else {
                Seq::empty()
            })
    };
    seq_join(ddl, "\n"@)
}

/// The state of the PostgreSQL view editor that the statements are made from. `definition`
/// and `comment` hold the lines of their editors; `owner` the form's owner.
pub struct ViewDetailComponent {
    pub schema_name: Option<String>,
    pub view: Option<PgView>,
    pub definition: Vec<String>,
    pub comment: Vec<String>,
    pub owner: Option<String>,
}

impl ViewDetailComponent {
    /// The statements that create the view named `view_name` or "new view" (see `pg_create_view`),
    /// with the statements that its rules write.
    pub fn build_create_ddl(&self, view_name: Option<&str>, rules: &Vec<String>) -> (r: String)
        ensures
            r@ == pg_create_view(match view_name { Some(n) => n@, None => "new view"@ }, views(self.definition@),
                opt_view(self.owner), views(rules@), views(self.comment@)),
    {
        let name = match view_name { Some(n) => n, None => "new view" };
        let mut s = cat3("CREATE VIEW \"", name, "\" AS ");
        s.append(join(&self.definition, "\n").as_str());
        s.append("\n");
        match &self.owner {
            Some(o) => {
                s.append(cat3("ALTER VIEW \"", name, "\" OWNER TO ").as_str());
                s.append(o.as_str());
            },
            None => {},
        }
        s.append("\n");
        s.append(join(rules, "\n").as_str());
        s.append("\n");
        let c = join(&self.comment, "\n");
        if !c.as_str().is_empty() {
            s.append(cat("COMMENT ON ", c.as_str()).as_str());
        }
        s
    }

    /// The statements that alter the stored view (see `pg_alter_view`); empty when no view is stored.
    pub fn build_alter_ddl(&self, rules_create: &Vec<String>, rules_alter: &Vec<String>,
        rules_comments: &Vec<String>) -> (r: String)
        requires
            self.view is Some ==> self.schema_name is Some,
        ensures
            self.view is None ==> r@.len() == 0,
            self.view is Some ==> r@ == pg_alter_view(self.schema_name->0@, self.view->0, views(self.definition@),
                opt_view(self.owner), views(self.comment@), views(rules_create@), views(rules_alter@),
                views(rules_comments@)),
    {
        let view = match &self.view { Some(v) => v, None => { return String::new(); } };
        let schema = match &self.schema_name { Some(s) => s.as_str(), None => "" };
        let def = join(&self.definition, "\n");
        let c = join(&self.comment, "\n");
        let mut ddl: Vec<String> = Vec::new();
        if !(view.definition == def) {
            let mut d = cat3("DROP VIEW \"", schema, "\".\"");
            d.append(view.name.as_str());
            d.append("\"");
            ddl.push(d);
            ddl.push(self.build_create_ddl(Some(view.name.as_str()), rules_create));
            assert(views(ddl@) =~= seq!["DROP VIEW \""@ + schema@ + "\".\""@ + view.name@ + "\""@,
                pg_create_view(view.name@, views(self.definition@), opt_view(self.owner), views(rules_create@),
                    views(self.comment@))]);
        } else {
            ddl = clone_strings(rules_alter);
            ddl.append(&mut clone_strings(rules_comments));
            let ghost d0 = views(ddl@);
            if !crate::form::opt_str_eq(&view.owner, &self.owner) {
                let mut o = cat3("ALTER VIEW \"", schema, "\".\"");
                o.append(view.name.as_str());
                o.append("\" OWNER TO ");
                match &self.owner {
                    Some(x) => o.append(x.as_str()),
                    None => o.append("CURRENT_ROLE"),
                }
                ddl.push(o);
            }
            let ghost d1 = views(ddl@);
            if !(view.comment == c) {
                let mut m = cat3("COMMENT ON VIEW \"", schema, "\".\"");
                m.append(view.name.as_str());
                m.append("\" IS '");
                m.append(c.as_str());
                m.append("'");
                ddl.push(m);
            }
            assert(views(ddl@) =~= views(rules_alter@) + views(rules_comments@)
                + (if opt_view(view.owner) != opt_view(self.owner) {
                    seq!["ALTER VIEW \""@ + schema@ + "\".\""@ + view.name@ + "\" OWNER TO "@
                        + (match opt_view(self.owner) { Some(o) => o, None => "CURRENT_ROLE"@ })]
                } else {
                    Seq::empty()
                })
                + (if view.comment@ != c@ {
                    seq!["COMMENT ON VIEW \""@ + schema@ + "\".\""@ + view.name@ + "\" IS '"@ + c@ + "'"@]
                } else {
                    Seq::empty()
                }));
        }
        join(&ddl, "\n")
    }
}

/// A PostgreSQL view saved as it was stored, with no rule changed, gets no statement.
pub proof fn lemma_unchanged_pg_view(schema: Seq<char>, view: PgView, definition: Seq<Seq<char>>,
    comment: Seq<Seq<char>>, rules_create: Seq<Seq<char>>)
    requires
        view.definition@ == seq_join(definition, "\n"@),
        view.comment@ == seq_join(comment, "\n"@),
    ensures
        pg_alter_view(schema, view, definition, opt_view(view.owner), comment, rules_create,
            Seq::empty(), Seq::empty()) == Seq::<char>::empty(),
{
    let e = Seq::<Seq<char>>::empty();
    assert(e + e + e + e =~= e);
}


impl ViewDetailComponent {
    /// The statements to run on save: those that alter the stored view when there is one, else
    /// those that create the view named `view_name` or "new view".
    pub fn build_sql(&self, view_name: Option<&str>, rules_create: &Vec<String>, rules_alter: &Vec<String>,
        rules_comments: &Vec<String>) -> (r: String)
        requires
            self.view is Some ==> self.schema_name is Some,
        ensures
            self.view is Some ==> r@ == pg_alter_view(self.schema_name->0@, self.view->0, views(self.definition@),
                opt_view(self.owner), views(self.comment@), views(rules_create@), views(rules_alter@),
                views(rules_comments@)),
            self.view is None ==> r@ == pg_create_view(match view_name { Some(n) => n@, None => "new view"@ },
                views(self.definition@), opt_view(self.owner), views(rules_create@), views(self.comment@)),
    {
        if self.view.is_some() {
            self.build_alter_ddl(rules_create, rules_alter, rules_comments)
        } else {
            self.build_create_ddl(view_name, rules_create)
        }
    }
}

} // verus!
