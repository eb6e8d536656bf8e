//! The statements that create or alter a PostgreSQL role.
use vstd::prelude::*;
use vstd::string::*;
use crate::connection::{form_id, id_from_form, uuid_value};
use crate::form::{filled, form_entry, lookup, opt_str_eq, opt_view, reads_true_at, EntryView, FormData};
use crate::mysql_user::{clone_strings, form_value};
use crate::text::{all_digits, chars_of, digits_value, read_digits, cat, cat3, decimal, int_to_text, join, select_names, selected, seq_join, str_views, views};

verus! {

/// The form in which the role editor writes times: "%Y-%m-%d %H:%M:%S".
pub const TIMESTAMP_FORMAT: &'static str = "%Y-%m-%d %H:%M:%S";

/// What `chrono::NaiveDateTime::parse_from_str(text, "%Y-%m-%d %H:%M:%S")` gives, written back
/// with the same format (`None` when the text does not parse).
pub uninterp spec fn normalized_timestamp(text: Seq<char>) -> Option<Seq<char>>;

/// Parses `text` as a time in `TIMESTAMP_FORMAT` with chrono and writes it back in that format.
/// The contract only names the result (`normalized_timestamp`); what chrono accepts is not restated.
#[verifier::external_body]
fn normalize_timestamp(text: &str) -> (r: Option<String>)
    ensures
        opt_view(r) == normalized_timestamp(text@),
{
    chrono::NaiveDateTime::parse_from_str(text, TIMESTAMP_FORMAT).ok().map(|d| d.format(TIMESTAMP_FORMAT).to_string())
}

/// The value of `s` as an `i32` in decimal, as `str::parse::<i32>` reads it: an optional sign,
/// then at least one ASCII digit and nothing else, within the range of `i32`.
pub open spec fn parse_i32_spec(s: Seq<char>) -> Option<i32> {
    let neg = s.len() > 0 && s[0] == '-';
    let signed = s.len() > 0 && (s[0] == '-' || s[0] == '+');
    let digits = if signed { s.drop_first() } else { s };
    if digits.len() > 0 && all_digits(digits) {
        let v = if neg { -digits_value(digits) } else { digits_value(digits) };
        if i32::MIN <= v <= i32::MAX { Some(v as i32) } else { None }
    } else {
        None
    }
}

/// Reads a decimal `i32` as `parse_i32_spec` describes.
pub(crate) fn parse_i32(s: &str) -> (r: Option<i32>)
    ensures
        r == parse_i32_spec(s@),
{
    let cs = chars_of(s);
    let neg = cs.len() > 0 && cs[0] == '-';
    let signed = cs.len() > 0 && (cs[0] == '-' || cs[0] == '+');
    let start: usize = if signed { 1 } else { 0 };
    assert(cs@.skip(0) =~= cs@);
    assert(signed ==> cs@.skip(1) =~= cs@.drop_first());
    let ghost digits = if s@.len() > 0 && (s@[0] == '-' || s@[0] == '+') { s@.drop_first() } else { s@ };
    assert(digits == cs@.skip(start as int));
    let cap: u64 = if neg { 2147483648 } else { 2147483647 };
    match read_digits(&cs, start, cap) {
        Some(v) => {
            if neg {
                let n: i64 = -(v as i64);
                Some(n as i32)
            } else {
                Some(v as i32)
            }
        },
        None => None,
    }
}

/// A PostgreSQL role as the role editor holds it. The expiry date is written in `TIMESTAMP_FORMAT`.
pub struct Role {
    pub oid: u32,
    pub name: String,
    pub super_user: bool,
    pub inherit: bool,
    pub create_role: bool,
    pub create_db: bool,
    pub can_login: bool,
    pub replication: bool,
    pub password: Option<String>,
    pub conn_limit: i32,
    pub bypassrls: bool,
    pub expiry_date: Option<String>,
    pub comment: String,
}

/// A role seen as plain values.
pub struct RoleView {
    pub oid: u32,
    pub name: Seq<char>,
    pub super_user: bool,
    pub inherit: bool,
    pub create_role: bool,
    pub create_db: bool,
    pub can_login: bool,
    pub replication: bool,
    pub password: Option<Seq<char>>,
    pub conn_limit: i32,
    pub bypassrls: bool,
    pub expiry_date: Option<Seq<char>>,
    pub comment: Seq<char>,
}

impl View for Role {
    type V = RoleView;

    open spec fn view(&self) -> RoleView {
        RoleView {
            oid: self.oid,
            name: self.name@,
            super_user: self.super_user,
            inherit: self.inherit,
            create_role: self.create_role,
            create_db: self.create_db,
            can_login: self.can_login,
            replication: self.replication,
            password: opt_view(self.password),
            conn_limit: self.conn_limit,
            bypassrls: self.bypassrls,
            expiry_date: opt_view(self.expiry_date),
            comment: self.comment@,
        }
    }
}

/// One row of the membership tables of the role editor.
pub struct RoleMember {
    pub role_oid: Option<u32>,
    pub role_name: Option<String>,
    pub member_oid: Option<u32>,
    pub member_name: Option<String>,
    pub granted: bool,
    pub admin_option: bool,
}

/// A grant on one table: `privs[i]` tells whether `pg_priv_names()[i]` is granted.
pub struct Privilege {
    pub id: u128,
    pub db: String,
    pub schema: String,
    pub name: String,
    pub privs: [bool; 7],
}

/// The privileges that a table grant can hold, in order.
pub open spec fn pg_priv_names() -> Seq<Seq<char>> {
    seq!["SELECT"@, "DELETE"@, "INSERT"@, "REFERENCES"@, "TRIGGER"@, "TRUNCATE"@, "UPDATE"@]
}

fn pg_priv_names_vec() -> (v: Vec<&'static str>)
    ensures
        str_views(v@) == pg_priv_names(),
{
    let v = vec!["SELECT", "DELETE", "INSERT", "REFERENCES", "TRIGGER", "TRUNCATE", "UPDATE"];
    assert(str_views(v@) =~= pg_priv_names());
    v
}

/// "ALTER ROLE "name" WITH `clause`".
pub open spec fn alter_with(name: Seq<char>, clause: Seq<char>) -> Seq<char> {
    "ALTER ROLE \""@ + name + "\" WITH "@ + clause
}

/// The statement for a changed flag: the keyword when set, "NO" and the keyword when cleared.
pub open spec fn flag_change(name: Seq<char>, new: bool, old: bool, on: Seq<char>, off: Seq<char>) -> Seq<Seq<char>> {
    if new != old { seq![alter_with(name, if new { on } else { off })] } else { Seq::empty() }
}

/// The statement for a changed connection limit.
pub open spec fn conn_limit_change(name: Seq<char>, new: i32, old: i32) -> Seq<Seq<char>> {
    if new != old { seq![alter_with(name, "CONNECTION LIIMIT "@ + decimal(new as int))] } else { Seq::empty() }
}

/// The statement for a changed expiry date; no date is written "infinity".
pub open spec fn expiry_change(name: Seq<char>, new: Option<Seq<char>>, old: Option<Seq<char>>) -> Seq<Seq<char>> {
    if new != old {
        seq![alter_with(name, "VALID UNTIL '"@ + (match new { Some(d) => d, None => "infinity"@ }) + "'"@)]
    } else {
        Seq::empty()
    }
}

/// The statement for a changed comment.
pub open spec fn comment_change(name: Seq<char>, new: Seq<char>, old: Seq<char>) -> Seq<Seq<char>> {
    if new != old { seq!["COMMENT ON ROLE \""@ + name + "\" IS '"@ + new + "'"@] } else { Seq::empty() }
}

/// The statements that turn the role `old` into `role`, one per changed attribute, in the order
/// superuser, inherit, create role, create database, login, replication, connection limit,
/// bypass RLS, expiry date and comment. All name the role by its new name.
pub open spec fn role_ddl(role: RoleView, old: RoleView) -> Seq<Seq<char>> {
    let n = role.name;
    flag_change(n, role.super_user, old.super_user, "SUPERUSER"@, "NOSUPERUSER"@)
        + flag_change(n, role.inherit, old.inherit, "INHERIT"@, "NOINHERIT"@)
        + flag_change(n, role.create_role, old.create_role, "CREATEROLE"@, "NOCREATEROLE"@)
        + flag_change(n, role.create_db, old.create_db, "CREATEDB"@, "NOCREATEDB"@)
        + flag_change(n, role.can_login, old.can_login, "LOGIN"@, "NOLOGIN"@)
        + flag_change(n, role.replication, old.replication, "REPLICATION"@, "NOREPLICATION"@)
        + conn_limit_change(n, role.conn_limit, old.conn_limit)
        + flag_change(n, role.bypassrls, old.bypassrls, "BYPASSRLS"@, "NOBYPASSRLS"@)
        + expiry_change(n, role.expiry_date, old.expiry_date)
        + comment_change(n, role.comment, old.comment)
}

fn alter_with_str(name: &str, clause: &str) -> (r: String)
    ensures
        r@ == alter_with(name@, clause@),
{
    let mut s = "ALTER ROLE \"".to_owned();
    s.append(name);
    s.append("\" WITH ");
    s.append(clause);
    s
}

fn push_flag_change(ddl: &mut Vec<String>, name: &str, new: bool, prev: bool, on: &str, off: &str)
    ensures
        views(final(ddl)@) == views(old(ddl)@) + flag_change(name@, new, prev, on@, off@),
{
    let ghost before = views(ddl@);
    if new != prev {
        ddl.push(alter_with_str(name, if new { on } else { off }));
    }
    assert(views(ddl@) =~= before + flag_change(name@, new, prev, on@, off@));
}

fn push_conn_limit_change(ddl: &mut Vec<String>, name: &str, new: i32, prev: i32)
    ensures
        views(final(ddl)@) == views(old(ddl)@) + conn_limit_change(name@, new, prev),
{
    let ghost before = views(ddl@);
    if new != prev {
        ddl.push(alter_with_str(name, cat("CONNECTION LIIMIT ", int_to_text(new as i64).as_str()).as_str()));
    }
    assert(views(ddl@) =~= before + conn_limit_change(name@, new, prev));
}

fn push_expiry_change(ddl: &mut Vec<String>, name: &str, new: &Option<String>, prev: &Option<String>)
    ensures
        views(final(ddl)@) == views(old(ddl)@) + expiry_change(name@, opt_view(*new), opt_view(*prev)),
{
    let ghost before = views(ddl@);
    if !opt_str_eq(new, prev) {
        let d = match new { Some(d) => d.clone(), None => "infinity".to_owned() };
        ddl.push(alter_with_str(name, cat3("VALID UNTIL '", d.as_str(), "'").as_str()));
    }
    assert(views(ddl@) =~= before + expiry_change(name@, opt_view(*new), opt_view(*prev)));
}

fn push_comment_change(ddl: &mut Vec<String>, name: &str, new: &String, prev: &String)
    ensures
        views(final(ddl)@) == views(old(ddl)@) + comment_change(name@, new@, prev@),
{
    let ghost before = views(ddl@);
    if !(*new == *prev) {
        let mut s = "COMMENT ON ROLE \"".to_owned();
        s.append(name);
        s.append("\" IS '");
        s.append(new.as_str());
        s.append("'");
        ddl.push(s);
    }
    assert(views(ddl@) =~= before + comment_change(name@, new@, prev@));
}

/// The statements that turn the role `old_role` into `role` (see `role_ddl`).
pub fn build_role_ddl(role: &Role, old_role: &Role) -> (r: Vec<String>)
    ensures
        views(r@) == role_ddl(role@, old_role@),
{
    let mut ddl: Vec<String> = Vec::new();
    let n = role.name.as_str();
    push_flag_change(&mut ddl, n, role.super_user, old_role.super_user, "SUPERUSER", "NOSUPERUSER");
    push_flag_change(&mut ddl, n, role.inherit, old_role.inherit, "INHERIT", "NOINHERIT");
    push_flag_change(&mut ddl, n, role.create_role, old_role.create_role, "CREATEROLE", "NOCREATEROLE");
    push_flag_change(&mut ddl, n, role.create_db, old_role.create_db, "CREATEDB", "NOCREATEDB");
    push_flag_change(&mut ddl, n, role.can_login, old_role.can_login, "LOGIN", "NOLOGIN");
    push_flag_change(&mut ddl, n, role.replication, old_role.replication, "REPLICATION", "NOREPLICATION");
    push_conn_limit_change(&mut ddl, n, role.conn_limit, old_role.conn_limit);
    push_flag_change(&mut ddl, n, role.bypassrls, old_role.bypassrls, "BYPASSRLS", "NOBYPASSRLS");
    push_expiry_change(&mut ddl, n, &role.expiry_date, &old_role.expiry_date);
    push_comment_change(&mut ddl, n, &role.comment, &old_role.comment);
    assert(views(ddl@) =~= role_ddl(role@, old_role@));
    ddl
}

/// The keyword that a flag of the role form stands for: the keyword when the form holds "true"
/// under `key`, else "NO" and the keyword; empty for a key that is no flag.
pub open spec fn bool_keyword(key: Seq<char>, val: Seq<char>) -> Seq<char> {
    let t = val == "true"@;
    if key == "superuser"@ { if t { "SUPERUSER"@ } else { "NOSUPERUSER"@ } }
    else if key == "can create databases"@ { if t { "CREATEDB"@ } else { "NOCREATEDB"@ } }
    else if key == "can create roles"@ { if t { "CREATEROLE"@ } else { "NOCREATEROLE"@ } }
    else if key == "inherit privileges"@ { if t { "INHERIT"@ } else { "NOINHERIT"@ } }
    else if key == "can login"@ { if t { "LOGIN"@ } else { "NOLOGIN"@ } }
    else if key == "can replicate"@ { if t { "REPLICATION"@ } else { "NOREPLICATION"@ } }
    else if key == "can bypass rls"@ { if t { "BYPASSRLS"@ } else { "NOBYPASSRLS"@ } }
    else { Seq::empty() }
}

/// The flags of the role form.
pub open spec fn is_flag_key(key: Seq<char>) -> bool {
    key == "superuser"@ || key == "can create databases"@ || key == "can create roles"@
        || key == "inherit privileges"@ || key == "can login"@ || key == "can replicate"@
        || key == "can bypass rls"@
}

/// Whether the form holds a value under `key`.
pub open spec fn has_value(form: Seq<EntryView>, key: Seq<char>) -> bool {
    lookup(form, key) is Some && form_value(form, key) is Some
}

fn str_is(a: &str, b: &str) -> (r: bool)
    ensures
        r == (a@ == b@),
{
    a.to_owned() == b.to_owned()
}

/// The keyword for the flag `key` of the form (see `bool_keyword`).
pub fn map_bool_str(form: &FormData, key: &str) -> (r: &'static str)
    requires
        has_value(form@, key@),
    ensures
        r@ == bool_keyword(key@, form_value(form@, key@)->0),
{
    let val = match form.get(key) { Some(Some(v)) => v, _ => String::new() };
    let t = str_is(val.as_str(), "true");
    if str_is(key, "superuser") { if t { "SUPERUSER" } else { "NOSUPERUSER" } }
    else if str_is(key, "can create databases") { if t { "CREATEDB" } else { "NOCREATEDB" } }
    else if str_is(key, "can create roles") { if t { "CREATEROLE" } else { "NOCREATEROLE" } }
    else if str_is(key, "inherit privileges") { if t { "INHERIT" } else { "NOINHERIT" } }
    else if str_is(key, "can login") { if t { "LOGIN" } else { "NOLOGIN" } }
    else if str_is(key, "can replicate") { if t { "REPLICATION" } else { "NOREPLICATION" } }
    else if str_is(key, "can bypass rls") { if t { "BYPASSRLS" } else { "NOBYPASSRLS" } }
    else {
        proof { reveal_strlit(""); }
        ""
    }
}

/// Whether the flag `key` of the form is set: it is one of the flags and the form holds "true".
pub fn map_str_bool(form: &FormData, key: &str) -> (r: bool)
    requires
        has_value(form@, key@),
    ensures
        r == (is_flag_key(key@) && form_value(form@, key@)->0 == "true"@),
{
    let val = match form.get(key) { Some(Some(v)) => v, _ => String::new() };
    let t = str_is(val.as_str(), "true");
    (str_is(key, "superuser") || str_is(key, "can create databases") || str_is(key, "can create roles")
        || str_is(key, "inherit privileges") || str_is(key, "can login") || str_is(key, "can replicate")
        || str_is(key, "can bypass rls")) && t
}


/// The admin option of the first relation between `role_oid` (the role) and `member_oid` (the
/// member), if there is one.
pub open spec fn membership_admin(ms: Seq<RoleMember>, role_oid: u32, member_oid: u32) -> Option<bool>
    decreases ms.len(),
{
    if ms.len() == 0 {
        None
    } else if ms[0].role_oid == Some(role_oid) && ms[0].member_oid == Some(member_oid) {
        Some(ms[0].admin_option)
    } else {
        membership_admin(ms.drop_first(), role_oid, member_oid)
    }
}

/// Whether `row` is the membership row of `role_oid`/`role_name` over `member_oid`/`member_name`
/// as the relations `ms` set it.
pub open spec fn is_membership_row(row: RoleMember, role_oid: u32, role_name: Seq<char>, member_oid: u32,
    member_name: Seq<char>, ms: Seq<RoleMember>) -> bool {
    &&& row.role_oid == Some(role_oid)
    &&& opt_view(row.role_name) == Some(role_name)
    &&& row.member_oid == Some(member_oid)
    &&& opt_view(row.member_name) == Some(member_name)
    &&& row.granted == membership_admin(ms, role_oid, member_oid) is Some
    &&& row.admin_option == (match membership_admin(ms, role_oid, member_oid) { Some(a) => a, None => false })
}

fn find_membership(ms: &Vec<RoleMember>, role_oid: u32, member_oid: u32) -> (r: Option<bool>)
    ensures
        r == membership_admin(ms@, role_oid, member_oid),
{
    let n = ms.len();
    let ghost s = ms@;
    assert(s.skip(0) =~= s);
    for i in 0..n
        invariant
            n == ms@.len(),
            s == ms@,
            membership_admin(s, role_oid, member_oid) == membership_admin(s.skip(i as int), role_oid, member_oid),
    {
        assert(s.skip(i as int)[0] == s[i as int]);
        assert(s.skip(i as int).drop_first() =~= s.skip(i + 1));
        if ms[i].role_oid == Some(role_oid) && ms[i].member_oid == Some(member_oid) {
            return Some(ms[i].admin_option);
        }
    }
    None
}

/// The rows of the role editor's membership tables for an existing role `role`: one row per
/// role of `roles`, in order. In the first table the listed role is the role and `role` the
/// member, set as the relations `member_ofs` say; in the second the listed role is the member of
/// `role`, set as `members` say.
pub fn role_member_rows(roles: &Vec<Role>, role: &Role, member_ofs: &Vec<RoleMember>, members: &Vec<RoleMember>)
    -> (r: (Vec<RoleMember>, Vec<RoleMember>))
    ensures
        r.0@.len() == roles@.len(),
        r.1@.len() == roles@.len(),
        forall|i: int| 0 <= i < roles@.len() ==> is_membership_row(#[trigger] r.0@[i], roles@[i].oid, roles@[i].name@,
            role.oid, role.name@, member_ofs@),
        forall|i: int| 0 <= i < roles@.len() ==> is_membership_row(#[trigger] r.1@[i], role.oid, role.name@,
            roles@[i].oid, roles@[i].name@, members@),
{
    let mut a: Vec<RoleMember> = Vec::new();
    let mut b: Vec<RoleMember> = Vec::new();
    for i in 0..roles.len()
        invariant
            a@.len() == i,
            b@.len() == i,
            forall|j: int| 0 <= j < i ==> is_membership_row(#[trigger] a@[j], roles@[j].oid, roles@[j].name@,
                role.oid, role.name@, member_ofs@),
            forall|j: int| 0 <= j < i ==> is_membership_row(#[trigger] b@[j], role.oid, role.name@,
                roles@[j].oid, roles@[j].name@, members@),
    {
        let r = &roles[i];
        let mo = find_membership(member_ofs, r.oid, role.oid);
        a.push(RoleMember {
            role_oid: Some(r.oid),
            role_name: Some(r.name.clone()),
            member_oid: Some(role.oid),
            member_name: Some(role.name.clone()),
            granted: mo.is_some(),
            admin_option: match mo { Some(x) => x, None => false },
        });
        let ms = find_membership(members, role.oid, r.oid);
        b.push(RoleMember {
            role_oid: Some(role.oid),
            role_name: Some(role.name.clone()),
            member_oid: Some(r.oid),
            member_name: Some(r.name.clone()),
            granted: ms.is_some(),
            admin_option: match ms { Some(x) => x, None => false },
        });
    }
    (a, b)
}

/// The rows of the role editor's membership tables for a new role: one row per role of `roles`,
/// in order, none granted; in the first table the listed role is the role, in the second the member.
pub fn new_role_member_rows(roles: &Vec<Role>) -> (r: (Vec<RoleMember>, Vec<RoleMember>))
    ensures
        r.0@.len() == roles@.len(),
        r.1@.len() == roles@.len(),
        forall|i: int| 0 <= i < roles@.len() ==> {
            let m = #[trigger] r.0@[i];
            &&& m.role_oid == Some(roles@[i].oid) && opt_view(m.role_name) == Some(roles@[i].name@)
            &&& m.member_oid is None && m.member_name is None && !m.granted && !m.admin_option
        },
        forall|i: int| 0 <= i < roles@.len() ==> {
            let m = #[trigger] r.1@[i];
            &&& m.member_oid == Some(roles@[i].oid) && opt_view(m.member_name) == Some(roles@[i].name@)
            &&& m.role_oid is None && m.role_name is None && !m.granted && !m.admin_option
        },
{
    let mut a: Vec<RoleMember> = Vec::new();
    let mut b: Vec<RoleMember> = Vec::new();
    for i in 0..roles.len()
        invariant
            a@.len() == i,
            b@.len() == i,
            forall|j: int| 0 <= j < i ==> {
                let m = #[trigger] a@[j];
                &&& m.role_oid == Some(roles@[j].oid) && opt_view(m.role_name) == Some(roles@[j].name@)
                &&& m.member_oid is None && m.member_name is None && !m.granted && !m.admin_option
            },
            forall|j: int| 0 <= j < i ==> {
                let m = #[trigger] b@[j];
                &&& m.member_oid == Some(roles@[j].oid) && opt_view(m.member_name) == Some(roles@[j].name@)
                &&& m.role_oid is None && m.role_name is None && !m.granted && !m.admin_option
            },
    {
        let r = &roles[i];
        a.push(RoleMember { role_oid: Some(r.oid), role_name: Some(r.name.clone()), member_oid: None,
            member_name: None, granted: false, admin_option: false });
        b.push(RoleMember { role_oid: None, role_name: None, member_oid: Some(r.oid),
            member_name: Some(r.name.clone()), granted: false, admin_option: false });
    }
    (a, b)
}

/// Why the role form does not describe a role.
pub enum RoleInputError {
    /// The connection limit is no decimal `i32`.
    InvalidConnectLimit,
    /// The expiry date is no time in `TIMESTAMP_FORMAT`.
    InvalidExpiryDate,
}

/// The state of the role editor that the statements are made from. `comment` holds the lines
/// of the comment editor.
pub struct RoleDetailComponent {
    pub role: Option<Role>,
    pub member_ofs: Vec<RoleMember>,
    pub old_member_ofs: Vec<RoleMember>,
    pub members: Vec<RoleMember>,
    pub old_members: Vec<RoleMember>,
    pub privileges: Vec<Privilege>,
    pub old_privileges: Vec<Privilege>,
    pub comment: Vec<String>,
    pub form: FormData,
}

/// The keys that `get_input_role` reads from the role form.
pub open spec fn role_form_complete(form: Seq<EntryView>) -> bool {
    &&& has_value(form, "name"@)
    &&& has_value(form, "superuser"@)
    &&& has_value(form, "inherit privileges"@)
    &&& has_value(form, "can create roles"@)
    &&& has_value(form, "can create databases"@)
    &&& has_value(form, "can login"@)
    &&& has_value(form, "can replicate"@)
    &&& has_value(form, "can bypass rls"@)
    &&& lookup(form, "connect limit"@) is Some
    &&& lookup(form, "expiry date"@) is Some
}

/// Whether the flag `key` of the form holds "true".
pub open spec fn form_flag(form: Seq<EntryView>, key: Seq<char>) -> bool {
    form_value(form, key)->0 == "true"@
}

/// The connection limit that the form gives: -1 when it holds none.
pub open spec fn input_conn_limit(form: Seq<EntryView>) -> Option<i32> {
    match form_value(form, "connect limit"@) {
        Some(c) => parse_i32_spec(c),
        None => Some(-1i32),
    }
}

/// The expiry date that the form gives, written in `TIMESTAMP_FORMAT`.
pub open spec fn input_expiry(form: Seq<EntryView>) -> Option<Option<Seq<char>>> {
    match form_value(form, "expiry date"@) {
        Some(e) => match normalized_timestamp(e) {
            Some(d) => Some(Some(d)),
            None => None,
        },
        None => Some(None),
    }
}

/// Whether `role` is the role that the form describes, with the stored oid `oid`, the expiry
/// date `expiry` and the comment lines `comment`.
pub open spec fn role_from_form(role: RoleView, oid: u32, f: Seq<EntryView>, expiry: Option<Seq<char>>,
    comment: Seq<Seq<char>>) -> bool {
    &&& role.oid == oid
    &&& role.name == form_value(f, "name"@)->0
    &&& role.super_user == form_flag(f, "superuser"@)
    &&& role.inherit == form_flag(f, "inherit privileges"@)
    &&& role.create_role == form_flag(f, "can create roles"@)
    &&& role.create_db == form_flag(f, "can create databases"@)
    &&& role.can_login == form_flag(f, "can login"@)
    &&& role.replication == form_flag(f, "can replicate"@)
    &&& role.password is None
    &&& role.conn_limit == input_conn_limit(f)->0
    &&& role.bypassrls == form_flag(f, "can bypass rls"@)
    &&& role.expiry_date == expiry
    &&& role.comment == seq_join(comment, "\n"@)
}

impl RoleDetailComponent {
    /// The role that the editor describes: the stored role's oid, the form's name and flags, its
    /// connection limit (-1 when empty) and expiry date, no password, and the comment's lines
    /// joined by line breaks. An error names the first field that cannot be read.
    pub fn get_input_role(&self) -> (r: Result<Role, RoleInputError>)
        requires
            self.role is Some,
            role_form_complete(self.form@),
        ensures
            input_conn_limit(self.form@) is None ==> r matches Err(RoleInputError::InvalidConnectLimit),
            input_conn_limit(self.form@) is Some && input_expiry(self.form@) is None
                ==> r matches Err(RoleInputError::InvalidExpiryDate),
            input_conn_limit(self.form@) is Some && input_expiry(self.form@) is Some ==> (r matches Ok(role)
                && role_from_form(role@, self.role->0.oid, self.form@, input_expiry(self.form@)->0, views(self.comment@))),
    {
        let expiry = match self.form.get("expiry date") {
            Some(Some(e)) => match normalize_timestamp(e.as_str()) {
                Some(d) => Some(Some(d)),
                None => None,
            },
            _ => Some(None),
        };
        self.input_role_with_expiry(expiry)
    }

    /// The role that the editor describes (see `get_input_role`), given the expiry date that the
    /// form's "expiry date" reads as: `Some(None)` for none, `Some(Some(d))` for the normalized
    /// time `d`, `None` when the text is no time.
    pub fn input_role_with_expiry(&self, expiry: Option<Option<String>>) -> (r: Result<Role, RoleInputError>)
        requires
            self.role is Some,
            role_form_complete(self.form@),
        ensures
            input_conn_limit(self.form@) is None ==> r matches Err(RoleInputError::InvalidConnectLimit),
            input_conn_limit(self.form@) is Some && expiry is None ==> r matches Err(RoleInputError::InvalidExpiryDate),
            input_conn_limit(self.form@) is Some && expiry is Some ==> (r matches Ok(role)
                && role_from_form(role@, self.role->0.oid, self.form@, opt_view(expiry->0), views(self.comment@))),
    {
        let oid = match &self.role { Some(r) => r.oid, None => 0 };
        let name = match self.form.get("name") { Some(Some(n)) => n, _ => String::new() };
        let conn_limit = match self.form.get("connect limit") {
            Some(Some(c)) => match parse_i32(c.as_str()) {
                Some(v) => v,
                None => { return Err(RoleInputError::InvalidConnectLimit); },
            },
            _ => -1,
        };
        let expiry_date = match expiry {
            Some(e) => e,
            None => { return Err(RoleInputError::InvalidExpiryDate); },
        };
        let role = Role {
            oid,
            name,
            super_user: map_str_bool(&self.form, "superuser"),
            inherit: map_str_bool(&self.form, "inherit privileges"),
            create_role: map_str_bool(&self.form, "can create roles"),
            create_db: map_str_bool(&self.form, "can create databases"),
            can_login: map_str_bool(&self.form, "can login"),
            replication: map_str_bool(&self.form, "can replicate"),
            password: None,
            conn_limit,
            bypassrls: map_str_bool(&self.form, "can bypass rls"),
            expiry_date,
            comment: join(&self.comment, "\n"),
        };
        proof {
            reveal_strlit("superuser");
            reveal_strlit("inherit privileges");
            reveal_strlit("can create roles");
            reveal_strlit("can create databases");
            reveal_strlit("can login");
            reveal_strlit("can replicate");
            reveal_strlit("can bypass rls");
        }
        Ok(role)
    }
}


/// The keys that `build_create_ddl` reads from the role form: the seven flags as it names them.
/// It names the inheritance flag "inherit priviliges", a key that yields an empty keyword.
pub open spec fn create_form_complete(form: Seq<EntryView>) -> bool {
    &&& has_value(form, "superuser"@)
    &&& has_value(form, "can create databases"@)
    &&& has_value(form, "can create roles"@)
    &&& has_value(form, "inherit priviliges"@)
    &&& has_value(form, "can login"@)
    &&& has_value(form, "can replicate"@)
    &&& has_value(form, "can bypass rls"@)
}

/// "IN ROLE "name"" for each granted role the new role joins.
pub open spec fn in_roles(rows: Seq<RoleMember>) -> Seq<Seq<char>>
    decreases rows.len(),
{
    if rows.len() == 0 {
        Seq::empty()
    } else {
        let rest = in_roles(rows.drop_last());
        if rows.last().granted {
            rest.push("IN ROLE \""@ + opt_view(rows.last().role_name)->0 + "\""@)
        } else {
            rest
        }
    }
}

/// The GRANT statement of one table grant to the role `role_name`.
pub open spec fn pg_privilege_grant(p: Privilege, role_name: Seq<char>) -> Seq<char> {
    "GRANT "@ + seq_join(selected(p.privs@, pg_priv_names()), ","@) + " ON TABLE \""@ + p.db@ + "\".\""@
        + p.schema@ + "\".\""@ + p.name@ + "\" TO \""@ + role_name + "\""@
}

/// The GRANT statements of the table grants, in order.
pub open spec fn pg_privilege_grants(ps: Seq<Privilege>, role_name: Seq<char>) -> Seq<Seq<char>>
    decreases ps.len(),
{
    if ps.len() == 0 {
        Seq::empty()
    } else {
        pg_privilege_grants(ps.drop_last(), role_name).push(pg_privilege_grant(ps.last(), role_name))
    }
}

/// The keyword of the form's flag `key`.
pub open spec fn kw(form: Seq<EntryView>, key: Seq<char>) -> Seq<char> {
    bool_keyword(key, form_value(form, key)->0)
}

/// The CREATE ROLE statement: the flags in the order superuser, create database, create role,
/// inherit, login, replication and bypass RLS, then the password (" PASSWORD 'p'" when typed,
/// "PASSWORD NULL" when the form has no password item), expiry date, connection limit and the
/// roles joined. The lists of members and admins are never written.
pub open spec fn create_role_stmt(form: Seq<EntryView>, member_ofs: Seq<RoleMember>, role_name: Seq<char>) -> Seq<char> {
    let pwd = match lookup(form, "password"@) {
        Some(Some(p)) => " PASSWORD '"@ + p + "'"@,
        Some(None) => Seq::empty(),
        None => "PASSWORD NULL"@,
    };
    let expiry = match lookup(form, "expiry date"@) {
        Some(Some(e)) => " VALID UNTIL '"@ + e + "'"@,
        _ => Seq::empty(),
    };
    let limit = match lookup(form, "connect limit"@) {
        Some(Some(c)) => " CONNECTION LIMIT "@ + c,
        _ => Seq::empty(),
    };
    "CREATE ROLE \""@ + role_name + "\" WITH "@ + kw(form, "superuser"@) + " "@ + kw(form, "can create databases"@)
        + " "@ + kw(form, "can create roles"@) + " "@ + kw(form, "inherit priviliges"@) + " "@
        + kw(form, "can login"@) + " "@ + kw(form, "can replicate"@) + " "@ + kw(form, "can bypass rls"@)
        + " "@ + pwd + expiry + limit + seq_join(in_roles(member_ofs), ","@)
}

/// The statements that create a role named `role_name`: the CREATE ROLE statement, its table
/// grants one per line, and the comment statement (written "COMMET ON ROLE") when there is a comment.
pub open spec fn create_role_ddl(form: Seq<EntryView>, member_ofs: Seq<RoleMember>, privileges: Seq<Privilege>,
    comment: Seq<char>, role_name: Seq<char>) -> Seq<char> {
    let comment_ddl = if comment.len() > 0 {
        "COMMET ON ROLE \""@ + role_name + "\" IS '"@ + comment + "'"@
    } else {
        Seq::empty()
    };
    create_role_stmt(form, member_ofs, role_name) + "\n"@ + seq_join(pg_privilege_grants(privileges, role_name), "\n"@)
        + "\n"@ + comment_ddl
}

/// Whether every granted row names the role or member that the statements write.
pub open spec fn role_rows_complete(member_ofs: Seq<RoleMember>, members: Seq<RoleMember>) -> bool {
    &&& forall|i: int| 0 <= i < member_ofs.len() && #[trigger] member_ofs[i].granted ==> member_ofs[i].role_name is Some
    &&& forall|i: int| 0 <= i < members.len() && #[trigger] members[i].granted ==> members[i].member_name is Some
}

fn in_roles_vec(rows: &Vec<RoleMember>) -> (r: Vec<String>)
    requires
        forall|i: int| 0 <= i < rows@.len() && #[trigger] rows@[i].granted ==> rows@[i].role_name is Some,
    ensures
        views(r@) == in_roles(rows@),
{
    let mut r: Vec<String> = Vec::new();
    let n = rows.len();
    for i in 0..n
        invariant
            n == rows@.len(),
            forall|i: int| 0 <= i < rows@.len() && #[trigger] rows@[i].granted ==> rows@[i].role_name is Some,
            views(r@) == in_roles(rows@.take(i as int)),
    {
        assert(rows@.take(i + 1).drop_last() =~= rows@.take(i as int));
        if rows[i].granted {
            let Some(name) = &rows[i].role_name else { return r };
            let ghost before = views(r@);
            r.push(cat3("IN ROLE \"", name.as_str(), "\""));
            assert(views(r@) =~= before.push(views(r@).last()));
        }
    }
    assert(rows@.take(n as int) =~= rows@);
    r
}

fn pg_privilege_grants_vec(ps: &Vec<Privilege>, role_name: &str) -> (r: Vec<String>)
    ensures
        views(r@) == pg_privilege_grants(ps@, role_name@),
{
    let mut r: Vec<String> = Vec::new();
    let n = ps.len();
    let names = pg_priv_names_vec();
    for i in 0..n
        invariant
            n == ps@.len(),
            str_views(names@) == pg_priv_names(),
            views(r@) == pg_privilege_grants(ps@.take(i as int), role_name@),
    {
        assert(ps@.take(i + 1).drop_last() =~= ps@.take(i as int));
        let p = &ps[i];
        assert(names@.len() == str_views(names@).len());
        let sel = select_names(&p.privs, &names);
        let mut s = "GRANT ".to_owned();
        s.append(join(&sel, ",").as_str());
        s.append(" ON TABLE \"");
        s.append(p.db.as_str());
        s.append("\".\"");
        s.append(p.schema.as_str());
        s.append("\".\"");
        s.append(p.name.as_str());
        s.append("\" TO \"");
        s.append(role_name);
        s.append("\"");
        let ghost before = views(r@);
        r.push(s);
        assert(views(r@) =~= before.push(pg_privilege_grant(ps@[i as int], role_name@)));
    }
    assert(ps@.take(n as int) =~= ps@);
    r
}

fn optional_clause(form: &FormData, key: &str, before: &str, after: &str, absent: &str) -> (r: String)
    ensures
        r@ == match lookup(form@, key@) {
            Some(Some(v)) => before@ + v + after@,
            Some(None) => Seq::empty(),
            None => absent@,
        },
{
    match form.get(key) {
        Some(Some(v)) => cat3(before, v.as_str(), after),
        Some(None) => String::new(),
        None => absent.to_owned(),
    }
}

impl RoleDetailComponent {
    /// The statements that create the role that the editor describes, named `role_name` or
    /// "new_role" (see `create_role_ddl`).
    pub fn build_create_ddl(&self, role_name: Option<&str>) -> (r: String)
        requires
            create_form_complete(self.form@),
            role_rows_complete(self.member_ofs@, self.members@),
        ensures
            r@ == create_role_ddl(self.form@, self.member_ofs@, self.privileges@,
                seq_join(views(self.comment@), "\n"@), match role_name { Some(n) => n@, None => "new_role"@ }),
    {
        let role_name = match role_name { Some(n) => n, None => "new_role" };
        let ins = in_roles_vec(&self.member_ofs);
        let pwd = optional_clause(&self.form, "password", " PASSWORD '", "'", "PASSWORD NULL");
        let expiry = optional_clause(&self.form, "expiry date", " VALID UNTIL '", "'", "");
        let limit = optional_clause(&self.form, "connect limit", " CONNECTION LIMIT ", "", "");
        proof { reveal_strlit(""); }
        let mut s = "CREATE ROLE \"".to_owned();
        s.append(role_name);
        s.append("\" WITH ");
        s.append(map_bool_str(&self.form, "superuser"));
        s.append(" ");
        s.append(map_bool_str(&self.form, "can create databases"));
        s.append(" ");
        s.append(map_bool_str(&self.form, "can create roles"));
        s.append(" ");
        s.append(map_bool_str(&self.form, "inherit priviliges"));
        s.append(" ");
        s.append(map_bool_str(&self.form, "can login"));
        s.append(" ");
        s.append(map_bool_str(&self.form, "can replicate"));
        s.append(" ");
        s.append(map_bool_str(&self.form, "can bypass rls"));
        s.append(" ");
        s.append(pwd.as_str());
        s.append(expiry.as_str());
        s.append(limit.as_str());
        s.append(join(&ins, ",").as_str());
        assert(s@ =~= create_role_stmt(self.form@, self.member_ofs@, role_name@));
        let privs = pg_privilege_grants_vec(&self.privileges, role_name);
        let comment = join(&self.comment, "\n");
        let comment_ddl = if !comment.as_str().is_empty() {
            let mut c = "COMMET ON ROLE \"".to_owned();
            c.append(role_name);
            c.append("\" IS '");
            c.append(comment.as_str());
            c.append("'");
            c
        } else {
            String::new()
        };
        s.append("\n");
        s.append(join(&privs, "\n").as_str());
        s.append("\n");
        s.append(comment_ddl.as_str());
        s
    }

    /// The statements that turn the stored role into the one the editor describes, followed by
    /// the given statements for memberships, members and table grants, one per line. An error
    /// of `get_input_role` comes back unchanged.
    pub fn build_alter_ddl(&self, member_ofs_ddl: &Vec<String>, members_ddl: &Vec<String>,
        privileges_ddl: &Vec<String>) -> (r: Result<String, RoleInputError>)
        requires
            self.role is Some,
            role_form_complete(self.form@),
        ensures
            result_view(r) == role_alter_text(self.form@, self.role->0@, views(self.comment@), views(member_ofs_ddl@),
                views(members_ddl@), views(privileges_ddl@)),
    {
        let role = match self.get_input_role() {
            Ok(role) => role,
            Err(e) => { return Err(e); },
        };
        let old = match &self.role { Some(r) => r, None => { return Ok(String::new()); } };
        let mut ddls = build_role_ddl(&role, old);
        let ghost a = views(ddls@);
        ddls.append(&mut clone_strings(member_ofs_ddl));
        ddls.append(&mut clone_strings(members_ddl));
        ddls.append(&mut clone_strings(privileges_ddl));
        assert(views(ddls@) =~= a + views(member_ofs_ddl@) + views(members_ddl@) + views(privileges_ddl@));
        Ok(join(&ddls, "\n"))
    }
}

/// Saving a role as it was runs no statement.
pub proof fn lemma_unchanged_role(r: RoleView)
    ensures
        role_ddl(r, r) == Seq::<Seq<char>>::empty(),
{
    assert(role_ddl(r, r) =~= Seq::<Seq<char>>::empty());
}

/// The number of attributes in which `role` differs from `old`.
pub open spec fn changed_attributes(role: RoleView, old: RoleView) -> int {
    (if role.super_user != old.super_user { 1int } else { 0 })
        + (if role.inherit != old.inherit { 1int } else { 0 })
        + (if role.create_role != old.create_role { 1int } else { 0 })
        + (if role.create_db != old.create_db { 1int } else { 0 })
        + (if role.can_login != old.can_login { 1int } else { 0 })
        + (if role.replication != old.replication { 1int } else { 0 })
        + (if role.conn_limit != old.conn_limit { 1int } else { 0 })
        + (if role.bypassrls != old.bypassrls { 1int } else { 0 })
        + (if role.expiry_date != old.expiry_date { 1int } else { 0 })
        + (if role.comment != old.comment { 1int } else { 0 })
}

/// Saving a role runs one statement for each attribute that changed, and no other.
pub proof fn lemma_one_statement_per_change(role: RoleView, old: RoleView)
    ensures
        role_ddl(role, old).len() == changed_attributes(role, old),
{
}

/// The keys under which the privilege dialog holds the privileges of `pg_priv_names`, in order.
pub open spec fn pg_priv_keys() -> Seq<Seq<char>> {
    seq!["select"@, "delete"@, "insert"@, "references"@, "trigger"@, "truncate"@, "update"@]
}

fn pg_priv_keys_vec() -> (v: Vec<&'static str>)
    ensures
        str_views(v@) == pg_priv_keys(),
{
    let v = vec!["select", "delete", "insert", "references", "trigger", "truncate", "update"];
    assert(str_views(v@) =~= pg_priv_keys());
    v
}

/// Whether the privilege dialog holds the database, schema, table and every privilege flag.
pub open spec fn pg_privilege_dialog_complete(form: Seq<EntryView>) -> bool {
    &&& filled(form, "database"@)
    &&& filled(form, "schema"@)
    &&& filled(form, "name"@)
    &&& forall|i: int| 0 <= i < 7 ==> filled(form, #[trigger] pg_priv_keys()[i])
}

/// The table grant that the privilege dialog describes: its id (a fresh one when the dialog
/// names none), database, schema, table, and each privilege set when its flag reads "true";
/// `None` when the id that it names is no UUID.
pub fn pg_privilege_from_dialog(form: &FormData) -> (r: Option<Privilege>)
    requires
        pg_privilege_dialog_complete(form@),
    ensures
        match r {
            Some(p) => {
                &&& id_from_form(form@, p.id)
                &&& Some(p.db@) == form_value(form@, "database"@)
                &&& Some(p.schema@) == form_value(form@, "schema"@)
                &&& Some(p.name@) == form_value(form@, "name"@)
                &&& forall|i: int| 0 <= i < 7 ==> p.privs@[i] == (form_value(form@, pg_priv_keys()[i])->0 == "true"@)
            },
            None => lookup(form@, "id"@) matches Some(Some(t)) && uuid_value(t) is None,
        },
{
    let id = match form_id(form) {
        Ok(id) => id,
        Err(_) => { return None; },
    };
    let db = match form.get("database") { Some(Some(v)) => v, _ => String::new() };
    let schema = match form.get("schema") { Some(Some(v)) => v, _ => String::new() };
    let name = match form.get("name") { Some(Some(v)) => v, _ => String::new() };
    let keys = pg_priv_keys_vec();
    assert(keys@.len() == str_views(keys@).len());
    let mut privs = [false; 7];
    for i in 0..7usize
        invariant
            pg_privilege_dialog_complete(form@),
            str_views(keys@) == pg_priv_keys(),
            keys@.len() == 7,
            forall|j: int| 0 <= j < i ==> privs@[j] == (form_value(form@, pg_priv_keys()[j])->0 == "true"@),
    {
        assert(str_views(keys@)[i as int] == keys@[i as int]@);
        assert(filled(form@, pg_priv_keys()[i as int]));
        privs[i] = reads_true_at(form, keys[i]);
    }
    Some(Privilege { id, db, schema, name, privs })
}

/// The value of `s` as a `u32` in decimal, as `str::parse::<u32>` reads it: an optional "+",
/// then at least one ASCII digit and nothing else, at most `u32::MAX`.
pub open spec fn parse_u32_spec(s: Seq<char>) -> Option<u32> {
    let digits = if s.len() > 0 && s[0] == '+' { s.drop_first() } else { s };
    if digits.len() > 0 && all_digits(digits) {
        if digits_value(digits) <= u32::MAX { Some(digits_value(digits) as u32) } else { None }
    } else {
        None
    }
}

/// Reads a decimal `u32` as `parse_u32_spec` describes.
fn parse_u32(s: &str) -> (r: Option<u32>)
    ensures
        r == parse_u32_spec(s@),
{
    let cs = chars_of(s);
    let plus = cs.len() > 0 && cs[0] == '+';
    let start: usize = if plus { 1 } else { 0 };
    assert(cs@.skip(0) =~= cs@);
    assert(plus ==> cs@.skip(1) =~= cs@.drop_first());
    let ghost digits = if s@.len() > 0 && s@[0] == '+' { s@.drop_first() } else { s@ };
    assert(digits == cs@.skip(start as int));
    match read_digits(&cs, start, 4294967295) {
        Some(v) => Some(v as u32),
        None => None,
    }
}

/// The oid that the membership dialog holds under `key`, if any.
pub open spec fn dialog_oid(form: Seq<EntryView>, key: Seq<char>) -> Option<u32> {
    match lookup(form, key) {
        Some(Some(t)) => parse_u32_spec(t),
        _ => None,
    }
}

/// Whether the row relates the role and member that the membership dialog names.
pub open spec fn names_row(form: Seq<EntryView>, row: RoleMember) -> bool {
    row.role_oid == dialog_oid(form, "role_oid"@) && row.member_oid == dialog_oid(form, "member_oid"@)
}

/// Whether the membership dialog can be applied to `rows`: it holds both oids (each a decimal
/// `u32` when given) and both flags, and some row relates the role and member it names.
pub open spec fn member_dialog_ready(form: Seq<EntryView>, rows: Seq<RoleMember>) -> bool {
    &&& lookup(form, "role_oid"@) is Some
    &&& lookup(form, "member_oid"@) is Some
    &&& filled(form, "role_oid"@) ==> dialog_oid(form, "role_oid"@) is Some
    &&& filled(form, "member_oid"@) ==> dialog_oid(form, "member_oid"@) is Some
    &&& filled(form, "granted"@)
    &&& filled(form, "admin option"@)
    &&& exists|i: int| 0 <= i < rows.len() && names_row(form, #[trigger] rows[i])
}

/// The first row that the membership dialog names.
pub open spec fn dialog_row(form: Seq<EntryView>, rows: Seq<RoleMember>) -> int {
    choose|t: int| 0 <= t < rows.len() && names_row(form, rows[t])
        && forall|j: int| 0 <= j < t ==> !names_row(form, #[trigger] rows[j])
}

/// The row with the grant and admin option that the membership dialog sets.
pub open spec fn dialog_applied(form: Seq<EntryView>, row: RoleMember) -> RoleMember {
    RoleMember {
        granted: form_value(form, "granted"@)->0 == "true"@,
        admin_option: form_value(form, "admin option"@)->0 == "true"@,
        ..row
    }
}

fn read_oid(form: &FormData, key: &str) -> (r: Option<u32>)
    requires
        lookup(form@, key@) is Some,
        filled(form@, key@) ==> dialog_oid(form@, key@) is Some,
    ensures
        r == dialog_oid(form@, key@),
{
    match form.get(key) {
        Some(Some(t)) => parse_u32(t.as_str()),
        _ => None,
    }
}

fn copy_member(m: &RoleMember) -> (r: RoleMember)
    ensures
        r == *m,
{
    RoleMember {
        role_oid: m.role_oid,
        role_name: match &m.role_name { Some(x) => Some(x.clone()), None => None },
        member_oid: m.member_oid,
        member_name: match &m.member_name { Some(x) => Some(x.clone()), None => None },
        granted: m.granted,
        admin_option: m.admin_option,
    }
}

fn apply_dialog(rows: &mut Vec<RoleMember>, form: &FormData)
    requires
        member_dialog_ready(form@, old(rows)@),
    ensures
        final(rows)@ == old(rows)@.update(dialog_row(form@, old(rows)@), dialog_applied(form@, old(rows)@[dialog_row(form@, old(rows)@)])),
{
    let role_oid = read_oid(form, "role_oid");
    let member_oid = read_oid(form, "member_oid");
    let granted = reads_true_at(form, "granted");
    let admin = reads_true_at(form, "admin option");
    let ghost before = rows@;
    let n = rows.len();
    let mut i: usize = 0;
    while i < n
        invariant
            n == rows@.len(),
            rows@ == before,
            before == old(rows)@,
            i <= n,
            role_oid == dialog_oid(form@, "role_oid"@),
            member_oid == dialog_oid(form@, "member_oid"@),
            granted == (form_value(form@, "granted"@)->0 == "true"@),
            admin == (form_value(form@, "admin option"@)->0 == "true"@),
            member_dialog_ready(form@, before),
            forall|j: int| 0 <= j < i ==> !names_row(form@, #[trigger] before[j]),
        decreases n - i,
    {
        if rows[i].role_oid == role_oid && rows[i].member_oid == member_oid {
            let mut row = copy_member(&rows[i]);
            row.granted = granted;
            row.admin_option = admin;
            proof {
                let k = i as int;
                assert(names_row(form@, before[k]));
                assert(0 <= k < before.len() && names_row(form@, before[k])
                    && forall|j: int| 0 <= j < k ==> !names_row(form@, #[trigger] before[j]));
                let t = dialog_row(form@, before);
                assert(0 <= t < before.len() && names_row(form@, before[t])
                    && forall|j: int| 0 <= j < t ==> !names_row(form@, #[trigger] before[j]));
                if t < k {
                    assert(!names_row(form@, before[t]));
                }
                if k < t {
                    assert(!names_row(form@, before[k]));
                }
                assert(t == k);
                assert(row == dialog_applied(form@, before[k]));
            }
            rows.set(i, row);
            return;
        }
        i = i + 1;
    }
    proof {
        let w = choose|k: int| 0 <= k < before.len() && names_row(form@, #[trigger] before[k]);
        assert(!names_row(form@, before[w]));
    }
}

impl RoleDetailComponent {
    /// Sets the grant and admin option of the first row of the roles that the role joins that
    /// the membership dialog names.
    pub fn apply_member_of_dialog(&mut self, form: &FormData)
        requires
            member_dialog_ready(form@, old(self).member_ofs@),
        ensures
            final(self).member_ofs@ == old(self).member_ofs@.update(dialog_row(form@, old(self).member_ofs@),
                dialog_applied(form@, old(self).member_ofs@[dialog_row(form@, old(self).member_ofs@)])),
            final(self).members == old(self).members,
            final(self).old_member_ofs == old(self).old_member_ofs,
    {
        apply_dialog(&mut self.member_ofs, form);
    }

    /// Sets the grant and admin option of the first row of the role's members that the
    /// membership dialog names.
    pub fn apply_members_dialog(&mut self, form: &FormData)
        requires
            member_dialog_ready(form@, old(self).members@),
        ensures
            final(self).members@ == old(self).members@.update(dialog_row(form@, old(self).members@),
                dialog_applied(form@, old(self).members@[dialog_row(form@, old(self).members@)])),
            final(self).member_ofs == old(self).member_ofs,
            final(self).old_members == old(self).old_members,
    {
        apply_dialog(&mut self.members, form);
    }

    /// Adds the grant of a new privilege dialog at the end, or puts the grant of an edit dialog
    /// (`editing`) in place of the selected one (nothing without a selection).
    pub fn save_privilege(&mut self, p: Privilege, editing: bool, selected: Option<usize>)
        requires
            editing && selected is Some ==> selected->0 < old(self).privileges@.len(),
        ensures
            final(self).privileges@ == if !editing {
                old(self).privileges@.push(p)
            } else {
                match selected {
                    Some(i) => old(self).privileges@.update(i as int, p),
                    None => old(self).privileges@,
                }
            },
            final(self).old_privileges == old(self).old_privileges,
    {
        if !editing {
            self.privileges.push(p);
        } else if let Some(i) = selected {
            self.privileges.set(i, p);
        }
    }
}

/// The role that the form and comment lines describe in place of the stored role `old` (when
/// the form's connection limit and expiry date read): the stored oid, the form's name and flags,
/// its connection limit and expiry date, no password, and the comment's lines joined.
pub open spec fn input_role(f: Seq<EntryView>, old: RoleView, comment: Seq<Seq<char>>) -> RoleView {
    RoleView {
        oid: old.oid,
        name: form_value(f, "name"@)->0,
        super_user: form_flag(f, "superuser"@),
        inherit: form_flag(f, "inherit privileges"@),
        create_role: form_flag(f, "can create roles"@),
        create_db: form_flag(f, "can create databases"@),
        can_login: form_flag(f, "can login"@),
        replication: form_flag(f, "can replicate"@),
        password: None,
        conn_limit: input_conn_limit(f)->0,
        bypassrls: form_flag(f, "can bypass rls"@),
        expiry_date: input_expiry(f)->0,
        comment: seq_join(comment, "\n"@),
    }
}

/// What saving the stored role `old` gives: an error when the connection limit or else the
/// expiry date does not read; else the statements that turn `old` into the described role,
/// followed by those for memberships, members and table grants, one per line.
pub open spec fn role_alter_text(f: Seq<EntryView>, old: RoleView, comment: Seq<Seq<char>>, member_ofs: Seq<Seq<char>>,
    members: Seq<Seq<char>>, privileges: Seq<Seq<char>>) -> Result<Seq<char>, RoleInputError> {
    if input_conn_limit(f) is None {
        Err(RoleInputError::InvalidConnectLimit)
    } else if input_expiry(f) is None {
        Err(RoleInputError::InvalidExpiryDate)
    } else {
        Ok(seq_join(role_ddl(input_role(f, old, comment), old) + member_ofs + members + privileges, "\n"@))
    }
}

/// The text of a result.
pub open spec fn result_view(r: Result<String, RoleInputError>) -> Result<Seq<char>, RoleInputError> {
    match r {
        Ok(s) => Ok(s@),
        Err(e) => Err(e),
    }
}

impl RoleDetailComponent {
    /// The statements to run on save: those that alter the stored role when there is one (see
    /// `role_alter_text`), else those that create the role named `role_name` or "new_role".
    pub fn build_sql(&self, role_name: Option<&str>, member_ofs_ddl: &Vec<String>, members_ddl: &Vec<String>,
        privileges_ddl: &Vec<String>) -> (r: Result<String, RoleInputError>)
        requires
            self.role is Some ==> role_form_complete(self.form@),
            self.role is None ==> create_form_complete(self.form@) && role_rows_complete(self.member_ofs@, self.members@),
        ensures
            self.role is Some ==> result_view(r) == role_alter_text(self.form@, self.role->0@, views(self.comment@),
                views(member_ofs_ddl@), views(members_ddl@), views(privileges_ddl@)),
            self.role is None ==> result_view(r) == Ok::<Seq<char>, RoleInputError>(create_role_ddl(self.form@,
                self.member_ofs@, self.privileges@, seq_join(views(self.comment@), "\n"@),
                match role_name { Some(n) => n@, None => "new_role"@ })),
    {
        if self.role.is_some() {
            self.build_alter_ddl(member_ofs_ddl, members_ddl, privileges_ddl)
        } else {
            Ok(self.build_create_ddl(role_name))
        }
    }
}

/// How the role form writes a flag.
pub open spec fn flag_text(b: bool) -> Seq<char> {
    if b { "true"@ } else { "false"@ }
}

fn flag_str(b: bool) -> (r: String)
    ensures
        r@ == flag_text(b),
{
    if b { "true".to_owned() } else { "false".to_owned() }
}

/// The role form for an existing role `r`: its name, flags, connection limit and expiry date,
/// and no password typed.
pub open spec fn role_form(r: RoleView) -> Seq<EntryView> {
    seq![
        ("name"@, Some(r.name)),
        ("can login"@, Some(flag_text(r.can_login))),
        ("password"@, None),
        ("connect limit"@, Some(decimal(r.conn_limit as int))),
        ("expiry date"@, r.expiry_date),
        ("superuser"@, Some(flag_text(r.super_user))),
        ("can create databases"@, Some(flag_text(r.create_db))),
        ("can create roles"@, Some(flag_text(r.create_role))),
        ("inherit privileges"@, Some(flag_text(r.inherit))),
        ("can replicate"@, Some(flag_text(r.replication))),
        ("can bypass rls"@, Some(flag_text(r.bypassrls))),
    ]
}

/// The role form for a new role: no name, password or expiry date, connection limit -1, and
/// every flag off.
pub open spec fn new_role_form() -> Seq<EntryView> {
    seq![
        ("name"@, None),
        ("can login"@, Some("false"@)),
        ("password"@, None),
        ("connect limit"@, Some("-1"@)),
        ("expiry date"@, None),
        ("superuser"@, Some("false"@)),
        ("can create databases"@, Some("false"@)),
        ("can create roles"@, Some("false"@)),
        ("inherit privileges"@, Some("false"@)),
        ("can replicate"@, Some("false"@)),
        ("can bypass rls"@, Some("false"@)),
    ]
}

fn copy_role_members(v: &Vec<RoleMember>) -> (r: Vec<RoleMember>)
    ensures
        r@ == v@,
{
    let mut r: Vec<RoleMember> = Vec::new();
    for i in 0..v.len()
        invariant
            r@ == v@.take(i as int),
    {
        r.push(copy_member(&v[i]));
        assert(r@ =~= v@.take(i + 1));
    }
    assert(v@.take(v@.len() as int) =~= v@);
    r
}

fn copy_pg_privileges(v: &Vec<Privilege>) -> (r: Vec<Privilege>)
    ensures
        r@ == v@,
{
    let mut r: Vec<Privilege> = Vec::new();
    for i in 0..v.len()
        invariant
            r@ == v@.take(i as int),
    {
        let p = &v[i];
        r.push(Privilege {
            id: p.id,
            db: p.db.clone(),
            schema: p.schema.clone(),
            name: p.name.clone(),
            privs: p.privs,
        });
        assert(r@ =~= v@.take(i + 1));
    }
    assert(v@.take(v@.len() as int) =~= v@);
    r
}

impl RoleDetailComponent {
    /// Loads an existing role into the editor, given what the server answered: all roles, the
    /// relations in which `role` is a member and those in which it is the role, and its grants.
    /// The role becomes the baseline, the form shows it (see `role_form`), the membership tables
    /// get one row per role (see `role_member_rows`), and each table is its own baseline. The
    /// comment stays as it was.
    pub fn load_role(
        &mut self,
        roles: &Vec<Role>,
        role: Role,
        member_ofs: &Vec<RoleMember>,
        members: &Vec<RoleMember>,
        privileges: Vec<Privilege>,
    )
        ensures
            final(self).role == Some(role),
            final(self).form@ == role_form(role@),
            final(self).member_ofs@.len() == roles@.len(),
            final(self).members@.len() == roles@.len(),
            forall|i: int| 0 <= i < roles@.len() ==> is_membership_row(#[trigger] final(self).member_ofs@[i],
                roles@[i].oid, roles@[i].name@, role.oid, role.name@, member_ofs@),
            forall|i: int| 0 <= i < roles@.len() ==> is_membership_row(#[trigger] final(self).members@[i],
                role.oid, role.name@, roles@[i].oid, roles@[i].name@, members@),
            final(self).old_member_ofs@ == final(self).member_ofs@,
            final(self).old_members@ == final(self).members@,
            final(self).privileges == privileges,
            final(self).old_privileges@ == privileges@,
            final(self).comment == old(self).comment,
    {
        let rows = role_member_rows(roles, &role, member_ofs, members);
        self.old_member_ofs = copy_role_members(&rows.0);
        self.old_members = copy_role_members(&rows.1);
        self.member_ofs = rows.0;
        self.members = rows.1;
        self.form = FormData {
            entries: vec![
                form_entry("name", Some(role.name.clone())),
                form_entry("can login", Some(flag_str(role.can_login))),
                form_entry("password", None),
                form_entry("connect limit", Some(int_to_text(role.conn_limit as i64))),
                form_entry("expiry date", match &role.expiry_date { Some(e) => Some(e.clone()), None => None }),
                form_entry("superuser", Some(flag_str(role.super_user))),
                form_entry("can create databases", Some(flag_str(role.create_db))),
                form_entry("can create roles", Some(flag_str(role.create_role))),
                form_entry("inherit privileges", Some(flag_str(role.inherit))),
                form_entry("can replicate", Some(flag_str(role.replication))),
                form_entry("can bypass rls", Some(flag_str(role.bypassrls))),
            ],
        };
        assert(self.form@ =~= role_form(role@));
        self.old_privileges = copy_pg_privileges(&privileges);
        self.privileges = privileges;
        self.role = Some(role);
    }

    /// Prepares the editor for a new role: the form of `new_role_form`, and membership tables
    /// with one ungranted row per role (see `new_role_member_rows`). Everything else stays as
    /// it was.
    pub fn load_new_role(&mut self, roles: &Vec<Role>)
        ensures
            final(self).form@ == new_role_form(),
            final(self).member_ofs@.len() == roles@.len(),
            final(self).members@.len() == roles@.len(),
            forall|i: int| 0 <= i < roles@.len() ==> {
                let m = #[trigger] final(self).member_ofs@[i];
                &&& m.role_oid == Some(roles@[i].oid) && opt_view(m.role_name) == Some(roles@[i].name@)
                &&& m.member_oid is None && m.member_name is None && !m.granted && !m.admin_option
            },
            forall|i: int| 0 <= i < roles@.len() ==> {
                let m = #[trigger] final(self).members@[i];
                &&& m.member_oid == Some(roles@[i].oid) && opt_view(m.member_name) == Some(roles@[i].name@)
                &&& m.role_oid is None && m.role_name is None && !m.granted && !m.admin_option
            },
            final(self).role == old(self).role,
            final(self).old_member_ofs == old(self).old_member_ofs,
            final(self).old_members == old(self).old_members,
            final(self).privileges == old(self).privileges,
            final(self).old_privileges == old(self).old_privileges,
            final(self).comment == old(self).comment,
    {
        let rows = new_role_member_rows(roles);
        self.member_ofs = rows.0;
        self.members = rows.1;
        self.form = FormData {
            entries: vec![
                form_entry("name", None),
                form_entry("can login", Some("false".to_owned())),
                form_entry("password", None),
                form_entry("connect limit", Some("-1".to_owned())),
                form_entry("expiry date", None),
                form_entry("superuser", Some("false".to_owned())),
                form_entry("can create databases", Some("false".to_owned())),
                form_entry("can create roles", Some("false".to_owned())),
                form_entry("inherit privileges", Some("false".to_owned())),
                form_entry("can replicate", Some("false".to_owned())),
                form_entry("can bypass rls", Some("false".to_owned())),
            ],
        };
        assert(self.form@ =~= new_role_form());
    }
}

/// What any of ten parts holds, their concatenation holds.
proof fn lemma_parts_contain(a: Seq<Seq<char>>, b: Seq<Seq<char>>, c: Seq<Seq<char>>, d: Seq<Seq<char>>,
    e: Seq<Seq<char>>, f: Seq<Seq<char>>, g: Seq<Seq<char>>, h: Seq<Seq<char>>, i: Seq<Seq<char>>, j: Seq<Seq<char>>)
    ensures
        forall|x: Seq<char>| (a.contains(x) || b.contains(x) || c.contains(x) || d.contains(x) || e.contains(x)
            || f.contains(x) || g.contains(x) || h.contains(x) || i.contains(x) || j.contains(x))
            ==> #[trigger] (a + b + c + d + e + f + g + h + i + j).contains(x),
{
    crate::text::lemma_concat_contains(a, b);
    crate::text::lemma_concat_contains(a + b, c);
    crate::text::lemma_concat_contains(a + b + c, d);
    crate::text::lemma_concat_contains(a + b + c + d, e);
    crate::text::lemma_concat_contains(a + b + c + d + e, f);
    crate::text::lemma_concat_contains(a + b + c + d + e + f, g);
    crate::text::lemma_concat_contains(a + b + c + d + e + f + g, h);
    crate::text::lemma_concat_contains(a + b + c + d + e + f + g + h, i);
    crate::text::lemma_concat_contains(a + b + c + d + e + f + g + h + i, j);
}

/// Each changed flag of a role gets its statement, which ends in the keyword of the flag's new
/// value: "ALTER ROLE "name" WITH CREATEDB" when `create_db` was set, "... WITH NOCREATEDB" when
/// it was cleared, and likewise for the other flags.
pub proof fn lemma_changed_flags_get_their_keyword(role: RoleView, old: RoleView)
    ensures
        role.super_user != old.super_user ==> role_ddl(role, old).contains(
            "ALTER ROLE \""@ + role.name + "\" WITH "@ + if role.super_user { "SUPERUSER"@ } else { "NOSUPERUSER"@ }),
        role.inherit != old.inherit ==> role_ddl(role, old).contains(
            "ALTER ROLE \""@ + role.name + "\" WITH "@ + if role.inherit { "INHERIT"@ } else { "NOINHERIT"@ }),
        role.create_role != old.create_role ==> role_ddl(role, old).contains(
            "ALTER ROLE \""@ + role.name + "\" WITH "@ + if role.create_role { "CREATEROLE"@ } else { "NOCREATEROLE"@ }),
        role.create_db != old.create_db ==> role_ddl(role, old).contains(
            "ALTER ROLE \""@ + role.name + "\" WITH "@ + if role.create_db { "CREATEDB"@ } else { "NOCREATEDB"@ }),
        role.can_login != old.can_login ==> role_ddl(role, old).contains(
            "ALTER ROLE \""@ + role.name + "\" WITH "@ + if role.can_login { "LOGIN"@ } else { "NOLOGIN"@ }),
        role.replication != old.replication ==> role_ddl(role, old).contains(
            "ALTER ROLE \""@ + role.name + "\" WITH "@ + if role.replication { "REPLICATION"@ } else { "NOREPLICATION"@ }),
        role.bypassrls != old.bypassrls ==> role_ddl(role, old).contains(
            "ALTER ROLE \""@ + role.name + "\" WITH "@ + if role.bypassrls { "BYPASSRLS"@ } else { "NOBYPASSRLS"@ }),
{
    let n = role.name;
    let a = flag_change(n, role.super_user, old.super_user, "SUPERUSER"@, "NOSUPERUSER"@);
    let b = flag_change(n, role.inherit, old.inherit, "INHERIT"@, "NOINHERIT"@);
    let c = flag_change(n, role.create_role, old.create_role, "CREATEROLE"@, "NOCREATEROLE"@);
    let d = flag_change(n, role.create_db, old.create_db, "CREATEDB"@, "NOCREATEDB"@);
    let e = flag_change(n, role.can_login, old.can_login, "LOGIN"@, "NOLOGIN"@);
    let f = flag_change(n, role.replication, old.replication, "REPLICATION"@, "NOREPLICATION"@);
    let g = conn_limit_change(n, role.conn_limit, old.conn_limit);
    let h = flag_change(n, role.bypassrls, old.bypassrls, "BYPASSRLS"@, "NOBYPASSRLS"@);
    let i = expiry_change(n, role.expiry_date, old.expiry_date);
    let j = comment_change(n, role.comment, old.comment);
    lemma_parts_contain(a, b, c, d, e, f, g, h, i, j);
    assert(role_ddl(role, old) == a + b + c + d + e + f + g + h + i + j);
    if role.super_user != old.super_user { assert(a.contains(a[0])); }
    if role.inherit != old.inherit { assert(b.contains(b[0])); }
    if role.create_role != old.create_role { assert(c.contains(c[0])); }
    if role.create_db != old.create_db { assert(d.contains(d[0])); }
    if role.can_login != old.can_login { assert(e.contains(e[0])); }
    if role.replication != old.replication { assert(f.contains(f[0])); }
    if role.bypassrls != old.bypassrls { assert(h.contains(h[0])); }
}


/// A changed connection limit, expiry date or comment gets its statement with the new value:
/// the limit in decimal, the date (or "infinity" when it was cleared) and the comment text.
pub proof fn lemma_changed_values_get_their_statement(role: RoleView, old: RoleView)
    ensures
        role.conn_limit != old.conn_limit ==> role_ddl(role, old).contains(
            "ALTER ROLE \""@ + role.name + "\" WITH "@ + ("CONNECTION LIIMIT "@ + decimal(role.conn_limit as int))),
        role.expiry_date != old.expiry_date ==> role_ddl(role, old).contains(
            "ALTER ROLE \""@ + role.name + "\" WITH "@
                + ("VALID UNTIL '"@ + (match role.expiry_date { Some(d) => d, None => "infinity"@ }) + "'"@)),
        role.comment != old.comment ==> role_ddl(role, old).contains(
            "COMMENT ON ROLE \""@ + role.name + "\" IS '"@ + role.comment + "'"@),
{
    let n = role.name;
    let a = flag_change(n, role.super_user, old.super_user, "SUPERUSER"@, "NOSUPERUSER"@);
    let b = flag_change(n, role.inherit, old.inherit, "INHERIT"@, "NOINHERIT"@);
    let c = flag_change(n, role.create_role, old.create_role, "CREATEROLE"@, "NOCREATEROLE"@);
    let d = flag_change(n, role.create_db, old.create_db, "CREATEDB"@, "NOCREATEDB"@);
    let e = flag_change(n, role.can_login, old.can_login, "LOGIN"@, "NOLOGIN"@);
    let f = flag_change(n, role.replication, old.replication, "REPLICATION"@, "NOREPLICATION"@);
    let g = conn_limit_change(n, role.conn_limit, old.conn_limit);
    let h = flag_change(n, role.bypassrls, old.bypassrls, "BYPASSRLS"@, "NOBYPASSRLS"@);
    let i = expiry_change(n, role.expiry_date, old.expiry_date);
    let j = comment_change(n, role.comment, old.comment);
    lemma_parts_contain(a, b, c, d, e, f, g, h, i, j);
    assert(role_ddl(role, old) == a + b + c + d + e + f + g + h + i + j);
    if role.conn_limit != old.conn_limit { assert(g.contains(g[0])); }
    if role.expiry_date != old.expiry_date { assert(i.contains(i[0])); }
    if role.comment != old.comment { assert(j.contains(j[0])); }
}

} // verus!
