//! The MySQL view editor: the statements that create or alter a view, and the form it shows.
use vstd::prelude::*;
use vstd::string::*;
use crate::form::{form_entry, lookup, opt_view, EntryView, FormData};
use crate::mysql_user::form_value;
use crate::text::{cat, cat3, copy_strings, join, seq_join, views};

verus! {

/// `before` `v` `after` when the form holds a value `v` under the key, else empty.
pub open spec fn clause(v: Option<Option<Seq<char>>>, before: Seq<char>, after: Seq<char>) -> Seq<char> {
    match v {
        Some(Some(x)) => before + x + after,
        _ => Seq::empty(),
    }
}

/// The CREATE VIEW statement of a MySQL view named `name` with the form's algorithm, definer
/// (when not empty), security and check option, and the definition's lines joined.
pub open spec fn mysql_create_view(form: Seq<EntryView>, name: Seq<char>, definition: Seq<Seq<char>>) -> Seq<char> {
    let definer = match form_value(form, "Definer"@) {
        Some(d) => if d.len() > 0 { " DEFINER = "@ + d } else { Seq::empty() },
        None => Seq::empty(),
    };
    "CREATE"@ + clause(lookup(form, "Algorithm"@), " ALGORITHM="@, Seq::empty()) + definer
        + clause(lookup(form, "Security"@), " SQL SECURITY "@, Seq::empty()) + " VIEW `"@ + name + "` AS "@
        + seq_join(definition, "\n"@) + clause(lookup(form, "Check Option"@), " WITH "@, " CHECK OPTION"@)
}

/// `clause` when the form's entry for the key differs from the stored form's, else empty.
pub open spec fn changed_clause(new: Option<Option<Seq<char>>>, old: Option<Option<Seq<char>>>, before: Seq<char>,
    after: Seq<char>) -> Seq<char> {
    if new != old { clause(new, before, after) } else { Seq::empty() }
}

/// The ALTER VIEW statement of the MySQL view `name`: the clauses whose entries changed, then
/// the definition.
pub open spec fn mysql_alter_view(form: Seq<EntryView>, old: Seq<EntryView>, name: Seq<char>,
    definition: Seq<Seq<char>>) -> Seq<char> {
    "ALTER"@ + changed_clause(lookup(form, "Algorithm"@), lookup(old, "Algorithm"@), " ALGORITHM="@, Seq::empty())
        + changed_clause(lookup(form, "Definer"@), lookup(old, "Definer"@), " DEFINER="@, Seq::empty())
        + changed_clause(lookup(form, "Security"@), lookup(old, "Security"@), " SQL SECURITY "@, Seq::empty())
        + " VIEW `"@ + name + "` AS "@ + seq_join(definition, "\n"@)
        + changed_clause(lookup(form, "Check Option"@), lookup(old, "Check Option"@), " WITH "@, " CHECK OPTION"@)
}

fn clause_str(form: &FormData, key: &str, before: &str, after: &str) -> (r: String)
    ensures
        r@ == clause(lookup(form@, key@), before@, after@),
{
    match form.get(key) {
        Some(Some(x)) => cat3(before, x.as_str(), after),
        _ => String::new(),
    }
}

fn entries_eq(a: &Option<Option<String>>, b: &Option<Option<String>>) -> (r: bool)
    ensures
        r == (match (a, b) {
            (Some(x), Some(y)) => opt_view(*x) == opt_view(*y),
            (None, None) => true,
            _ => false,
        }),
{
    match (a, b) {
        (Some(x), Some(y)) => crate::form::opt_str_eq(x, y),
        (None, None) => true,
        _ => false,
    }
}

fn changed_clause_str(form: &FormData, old: &FormData, key: &str, before: &str, after: &str) -> (r: String)
    ensures
        r@ == changed_clause(lookup(form@, key@), lookup(old@, key@), before@, after@),
{
    let a = form.get(key);
    let b = old.get(key);
    if !entries_eq(&a, &b) {
        clause_str(form, key, before, after)
    } else {
        String::new()
    }
}

/// The state of the MySQL view editor that the statements are made from. `view_name` names the
/// stored view being edited (`None` for a new view); `definition` holds the lines of the
/// definition editor and `old_definition` those that were loaded.
pub struct ViewDetailComponent {
    pub view_name: Option<String>,
    pub form: FormData,
    pub old_form: FormData,
    pub definition: Vec<String>,
    pub old_definition: Vec<String>,
}

impl ViewDetailComponent {
    /// The CREATE VIEW statement for the view named `view_name` or "new view" (see `mysql_create_view`).
    pub fn build_create_ddl(&self, view_name: Option<&str>) -> (r: String)
        requires
            lookup(self.form@, "Definer"@) is Some,
        ensures
            r@ == mysql_create_view(self.form@, match view_name { Some(n) => n@, None => "new view"@ },
                views(self.definition@)),
    {
        let name = match view_name { Some(n) => n, None => "new view" };
        proof { reveal_strlit(""); }
        let definer = match self.form.get("Definer") {
            Some(Some(d)) => if !d.as_str().is_empty() { cat(" DEFINER = ", d.as_str()) } else { String::new() },
            _ => String::new(),
        };
        let mut s = "CREATE".to_owned();
        s.append(clause_str(&self.form, "Algorithm", " ALGORITHM=", "").as_str());
        s.append(definer.as_str());
        s.append(clause_str(&self.form, "Security", " SQL SECURITY ", "").as_str());
        s.append(" VIEW `");
        s.append(name);
        s.append("` AS ");
        s.append(join(&self.definition, "\n").as_str());
        s.append(clause_str(&self.form, "Check Option", " WITH ", " CHECK OPTION").as_str());
        s
    }

    /// The ALTER VIEW statement for the stored view (see `mysql_alter_view`).
    pub fn build_alter_ddl(&self) -> (r: String)
        requires
            self.view_name is Some,
        ensures
            r@ == mysql_alter_view(self.form@, self.old_form@, self.view_name->0@, views(self.definition@)),
    {
        let name = match &self.view_name { Some(n) => n.as_str(), None => "" };
        proof { reveal_strlit(""); }
        let mut s = "ALTER".to_owned();
        s.append(changed_clause_str(&self.form, &self.old_form, "Algorithm", " ALGORITHM=", "").as_str());
        s.append(changed_clause_str(&self.form, &self.old_form, "Definer", " DEFINER=", "").as_str());
        s.append(changed_clause_str(&self.form, &self.old_form, "Security", " SQL SECURITY ", "").as_str());
        s.append(" VIEW `");
        s.append(name);
        s.append("` AS ");
        s.append(join(&self.definition, "\n").as_str());
        s.append(changed_clause_str(&self.form, &self.old_form, "Check Option", " WITH ", " CHECK OPTION").as_str());
        s
    }

    /// The statement to run on save: the ALTER VIEW statement for a stored view, else the
    /// CREATE VIEW statement.
    pub fn build_sql(&self, view_name: Option<&str>) -> (r: String)
        requires
            self.view_name is None ==> lookup(self.form@, "Definer"@) is Some,
        ensures
            self.view_name is Some ==> r@ == mysql_alter_view(self.form@, self.old_form@, self.view_name->0@,
                views(self.definition@)),
            self.view_name is None ==> r@ == mysql_create_view(self.form@,
                match view_name { Some(n) => n@, None => "new view"@ }, views(self.definition@)),
    {
        if self.view_name.is_some() { self.build_alter_ddl() } else { self.build_create_ddl(view_name) }
    }
}

/// The form of a stored MySQL view: its algorithm (as its definition gives it), definer,
/// check option and security.
pub open spec fn view_form_entries(algorithm: Option<Seq<char>>, definer: Option<Seq<char>>,
    check_option: Option<Seq<char>>, security: Option<Seq<char>>) -> Seq<EntryView> {
    seq![
        ("Algorithm"@, algorithm),
        ("Definer"@, definer),
        ("Check Option"@, check_option),
        ("Security"@, security),
    ]
}

fn view_form(algorithm: Option<String>, definer: Option<String>, check_option: Option<String>,
    security: Option<String>) -> (r: FormData)
    ensures
        r@ == view_form_entries(opt_view(algorithm), opt_view(definer), opt_view(check_option), opt_view(security)),
{
    let mut entries: Vec<(String, Option<String>)> = Vec::new();
    entries.push(form_entry("Algorithm", algorithm));
    entries.push(form_entry("Definer", definer));
    entries.push(form_entry("Check Option", check_option));
    entries.push(form_entry("Security", security));
    let r = FormData { entries };
    assert(r@ =~= view_form_entries(opt_view(algorithm), opt_view(definer), opt_view(check_option), opt_view(security)));
    r
}

impl ViewDetailComponent {
    /// Loads the stored view `view_name`: the algorithm read out of its definition (see
    /// `create_view_algorithm`), and the definer, check option, security and definition that the
    /// server reports. The form and the definition become the stored ones too.
    pub fn set_view(&mut self, view_name: String, algorithm: Option<String>, definer: String, check_option: String,
        security: String, definition: String)
        ensures
            final(self).view_name == Some(view_name),
            final(self).form@ == view_form_entries(opt_view(algorithm), Some(definer@), Some(check_option@), Some(security@)),
            final(self).old_form@ == final(self).form@,
            views(final(self).definition@) == seq![definition@],
            final(self).old_definition@ == final(self).definition@,
    {
        self.view_name = Some(view_name);
        let a2 = match &algorithm { Some(a) => Some(a.clone()), None => None };
        self.form = view_form(algorithm, Some(definer.clone()), Some(check_option.clone()), Some(security.clone()));
        self.old_form = view_form(a2, Some(definer), Some(check_option), Some(security));
        let mut d: Vec<String> = Vec::new();
        d.push(definition.clone());
        let mut od: Vec<String> = Vec::new();
        od.push(definition);
        self.definition = d;
        self.old_definition = od;
        assert(views(self.definition@) =~= seq![definition@]);
        assert(self.old_definition@ =~= self.definition@);
    }

    /// The form of a new view: no stored view, every value empty, the definition one empty
    /// line; the form and the definition become the stored ones too.
    pub fn set_new_view(&mut self)
        ensures
            final(self).view_name is None,
            final(self).form@ == view_form_entries(None, None, None, None),
            final(self).old_form@ == final(self).form@,
            views(final(self).definition@) == seq![Seq::<char>::empty()],
            final(self).old_definition@ == final(self).definition@,
    {
        self.view_name = None;
        self.form = view_form(None, None, None, None);
        self.old_form = view_form(None, None, None, None);
        let empty = String::new();
        let mut od: Vec<String> = Vec::new();
        od.push(empty.clone());
        let mut d: Vec<String> = Vec::new();
        d.push(empty);
        self.definition = d;
        self.old_definition = od;
        assert(views(self.definition@) =~= seq![Seq::<char>::empty()]);
        assert(self.old_definition@ =~= self.definition@);
    }
}

impl ViewDetailComponent {
    /// After a successful save: the form and the definition become their stored copies.
    pub fn accept_saved(&mut self)
        ensures
            final(self).old_form.entries@ == old(self).form.entries@,
            final(self).old_definition@ == old(self).definition@,
            final(self).form == old(self).form,
            final(self).definition == old(self).definition,
            final(self).view_name == old(self).view_name,
    {
        self.old_form = self.form.duplicate();
        self.old_definition = copy_strings(&self.definition);
    }
}

/// The items of the view form, in the order in which ALTER VIEW writes their changes.
pub open spec fn view_keys() -> Seq<Seq<char>> {
    seq!["Algorithm"@, "Definer"@, "Security"@, "Check Option"@]
}

/// An ALTER VIEW statement names exactly the view options that changed: with no option changed
/// it is "ALTER VIEW `name` AS definition"; with only the algorithm, definer or security changed
/// to a value `v`, that option's clause with `v` stands between "ALTER" and " VIEW"; with only
/// the check option changed to `v`, " WITH v CHECK OPTION" ends the statement.
pub proof fn lemma_alter_view_names_changed_options(form: Seq<EntryView>, old: Seq<EntryView>, name: Seq<char>,
    definition: Seq<Seq<char>>, w: int)
    requires
        0 <= w <= 4,
        forall|k: int| 0 <= k < 4 && k != w ==> lookup(form, #[trigger] view_keys()[k]) == lookup(old, view_keys()[k]),
        w < 4 ==> lookup(form, view_keys()[w]) != lookup(old, view_keys()[w]) && lookup(form, view_keys()[w]) matches Some(Some(_)),
    ensures
        ({
            let rest = " VIEW `"@ + name + "` AS "@ + seq_join(definition, "\n"@);
            let v = lookup(form, view_keys()[w])->0->0;
            mysql_alter_view(form, old, name, definition) == if w == 4 {
                "ALTER"@ + rest
            } else if w == 0 {
                "ALTER"@ + (" ALGORITHM="@ + v) + rest
            } else if w == 1 {
                "ALTER"@ + (" DEFINER="@ + v) + rest
            } else if w == 2 {
                "ALTER"@ + (" SQL SECURITY "@ + v) + rest
            } else {
                "ALTER"@ + rest + (" WITH "@ + v + " CHECK OPTION"@)
            }
        }),
{
    let keys = view_keys();
    let c0 = changed_clause(lookup(form, keys[0]), lookup(old, keys[0]), " ALGORITHM="@, Seq::empty());
    let c1 = changed_clause(lookup(form, keys[1]), lookup(old, keys[1]), " DEFINER="@, Seq::empty());
    let c2 = changed_clause(lookup(form, keys[2]), lookup(old, keys[2]), " SQL SECURITY "@, Seq::empty());
    let c3 = changed_clause(lookup(form, keys[3]), lookup(old, keys[3]), " WITH "@, " CHECK OPTION"@);
    let rest = " VIEW `"@ + name + "` AS "@ + seq_join(definition, "\n"@);
    assert(mysql_alter_view(form, old, name, definition) =~= "ALTER"@ + c0 + c1 + c2 + rest + c3);
    if w != 0 { assert(lookup(form, keys[0]) == lookup(old, keys[0])); }
    if w != 1 { assert(lookup(form, keys[1]) == lookup(old, keys[1])); }
    if w != 2 { assert(lookup(form, keys[2]) == lookup(old, keys[2])); }
    if w != 3 { assert(lookup(form, keys[3]) == lookup(old, keys[3])); }
    let v = lookup(form, keys[w])->0->0;
    if w == 4 {
        assert("ALTER"@ + c0 + c1 + c2 + rest + c3 =~= "ALTER"@ + rest);
    } else if w == 0 {
        assert(c0 =~= " ALGORITHM="@ + v);
        assert("ALTER"@ + c0 + c1 + c2 + rest + c3 =~= "ALTER"@ + (" ALGORITHM="@ + v) + rest);
    } else if w == 1 {
        assert(c1 =~= " DEFINER="@ + v);
        assert("ALTER"@ + c0 + c1 + c2 + rest + c3 =~= "ALTER"@ + (" DEFINER="@ + v) + rest);
    } else if w == 2 {
        assert(c2 =~= " SQL SECURITY "@ + v);
        assert("ALTER"@ + c0 + c1 + c2 + rest + c3 =~= "ALTER"@ + (" SQL SECURITY "@ + v) + rest);
    } else {
        assert("ALTER"@ + c0 + c1 + c2 + rest + c3 =~= "ALTER"@ + rest + (" WITH "@ + v + " CHECK OPTION"@));
    }
}

} // verus!
