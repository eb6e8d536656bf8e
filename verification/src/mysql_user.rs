//! The statements that create or alter a MySQL user account.
use vstd::prelude::*;
use vstd::string::*;
use crate::connection::{form_id, id_from_form, uuid_value};
use crate::form::{filled, form_entry, lookup, opt_str_eq, opt_view, reads_true_at, EntryView, FormData};
use crate::panel::Version;
use crate::panel::mysql_user::{left_of, right_of, tab_left, tab_right, PanelKind};
use crate::app::ComponentResult;
use crate::text::{cat, cat3, cat4, cat5, opt_or_empty, join, prefixed_if_nonempty, select_names, selected, seq_join, str_views, views};

verus! {

/// The names of the server-wide privileges, in the order in which the account editor lists them.
pub open spec fn srv_priv_names() -> Seq<Seq<char>> {
    seq![
        "Alter"@, "Alter Routine"@, "Create"@, "Create Routine"@, "Create Temporary Tables"@,
        "Create User"@, "Create View"@, "Delete"@, "Drop"@, "Event"@, "Execute"@, "File"@,
        "Grant Option"@, "Index"@, "Insert"@, "Lock Tables"@, "Process"@, "References"@,
        "Reload"@, "Replication Client"@, "Replication Slave"@, "Select"@, "Show Databases"@,
        "Show View"@, "Shutdown"@, "Super"@, "Trigger"@, "Update"@,
    ]
}

/// The names under which a withdrawn server-wide privilege is written in a REVOKE statement:
/// those of `srv_priv_names`, but for "Lock Tables", which is written "Locak Tables".
pub open spec fn srv_priv_revoke_names() -> Seq<Seq<char>> {
    srv_priv_names().update(15, "Locak Tables"@)
}

/// The names of the privileges that a grant on one table can hold, in order.
pub open spec fn db_priv_names() -> Seq<Seq<char>> {
    seq![
        "Alter"@, "Create"@, "Create View"@, "Delete"@, "Drop"@, "Index"@, "Insert"@,
        "References"@, "Select"@, "Show View"@, "Trigger"@, "Update"@,
    ]
}

fn srv_priv_names_vec() -> (v: Vec<&'static str>)
    ensures
        str_views(v@) == srv_priv_names(),
{
    let v = vec![
        "Alter", "Alter Routine", "Create", "Create Routine", "Create Temporary Tables",
        "Create User", "Create View", "Delete", "Drop", "Event", "Execute", "File",
        "Grant Option", "Index", "Insert", "Lock Tables", "Process", "References",
        "Reload", "Replication Client", "Replication Slave", "Select", "Show Databases",
        "Show View", "Shutdown", "Super", "Trigger", "Update",
    ];
    assert(str_views(v@) =~= srv_priv_names());
    v
}

fn srv_priv_revoke_names_vec() -> (v: Vec<&'static str>)
    ensures
        str_views(v@) == srv_priv_revoke_names(),
{
    let v = vec![
        "Alter", "Alter Routine", "Create", "Create Routine", "Create Temporary Tables",
        "Create User", "Create View", "Delete", "Drop", "Event", "Execute", "File",
        "Grant Option", "Index", "Insert", "Locak Tables", "Process", "References",
        "Reload", "Replication Client", "Replication Slave", "Select", "Show Databases",
        "Show View", "Shutdown", "Super", "Trigger", "Update",
    ];
    assert(str_views(v@) =~= srv_priv_revoke_names());
    v
}

fn db_priv_names_vec() -> (v: Vec<&'static str>)
    ensures
        str_views(v@) == db_priv_names(),
{
    let v = vec![
        "Alter", "Create", "Create View", "Delete", "Drop", "Index", "Insert",
        "References", "Select", "Show View", "Trigger", "Update",
    ];
    assert(str_views(v@) =~= db_priv_names());
    v
}

/// A MySQL account as the account editor holds it. `srv_privs[i]` tells whether the
/// server-wide privilege named `srv_priv_names()[i]` is held.
pub struct User {
    pub host: String,
    pub name: String,
    pub plugin: Option<String>,
    pub password: Option<String>,
    pub max_queries: Option<String>,
    pub max_updates: Option<String>,
    pub max_connections: Option<String>,
    pub max_user_connections: Option<String>,
    pub srv_privs: [bool; 28],
}

/// A MySQL account seen as plain values.
pub struct UserView {
    pub host: Seq<char>,
    pub name: Seq<char>,
    pub plugin: Option<Seq<char>>,
    pub password: Option<Seq<char>>,
    pub max_queries: Option<Seq<char>>,
    pub max_updates: Option<Seq<char>>,
    pub max_connections: Option<Seq<char>>,
    pub max_user_connections: Option<Seq<char>>,
    pub srv_privs: Seq<bool>,
}

impl View for User {
    type V = UserView;

    open spec fn view(&self) -> UserView {
        UserView {
            host: self.host@,
            name: self.name@,
            plugin: opt_view(self.plugin),
            password: opt_view(self.password),
            max_queries: opt_view(self.max_queries),
            max_updates: opt_view(self.max_updates),
            max_connections: opt_view(self.max_connections),
            max_user_connections: opt_view(self.max_user_connections),
            srv_privs: self.srv_privs@,
        }
    }
}

/// One row of the role-membership tables of the account editor.
pub struct UserMember {
    pub user_host: Option<String>,
    pub user_name: Option<String>,
    pub member_host: Option<String>,
    pub member_name: Option<String>,
    pub granted: bool,
}

/// A grant on one table: `privs[i]` tells whether `db_priv_names()[i]` is granted.
pub struct Privilege {
    pub id: u128,
    pub db: String,
    pub name: String,
    pub privs: [bool; 12],
}

/// "`name`@`host`".
pub open spec fn account(name: Seq<char>, host: Seq<char>) -> Seq<char> {
    "`"@ + name + "`@`"@ + host + "`"@
}

fn account_str(name: &str, host: &str) -> (r: String)
    ensures
        r@ == account(name@, host@),
{
    cat5("`", name, "`@`", host, "`")
}

/// The value of a non-empty optional string, or the empty sequence.
pub open spec fn nonempty_value(o: Option<Seq<char>>) -> Seq<char> {
    match o {
        Some(s) => s,
        None => Seq::empty(),
    }
}

/// The clause "`label` `value`" for a resource limit that changed to a non-empty value.
pub open spec fn changed_limit(label: Seq<char>, new: Option<Seq<char>>, old: Option<Seq<char>>) -> Seq<Seq<char>> {
    if new != old && new is Some && new->0.len() > 0 {
        seq![label + new->0]
    } else {
        Seq::empty()
    }
}

/// The resource-limit clauses of an ALTER USER statement: those limits that changed.
pub open spec fn resource_changes(user: UserView, old: UserView) -> Seq<Seq<char>> {
    changed_limit("MAX_QUERIES_PER_HOUR "@, user.max_queries, old.max_queries)
        + changed_limit("MAX_UPDATES_PER_HOUR "@, user.max_updates, old.max_updates)
        + changed_limit("MAX_CONNECTIONS_PER_HOUR "@, user.max_connections, old.max_connections)
        + changed_limit("MAX_USER_CONNECTIONS "@, user.max_user_connections, old.max_user_connections)
}

/// " BY 'password'" when a non-empty password was typed, else empty.
pub open spec fn password_clause(password: Option<Seq<char>>) -> Seq<char> {
    match password {
        Some(p) => if p.len() > 0 { " BY '"@ + p + "'"@ } else { Seq::empty() },
        None => Seq::empty(),
    }
}

/// " WITH plugin" when the plugin changed to a non-empty one, else empty.
pub open spec fn plugin_change_clause(new: Option<Seq<char>>, old: Option<Seq<char>>) -> Seq<char> {
    if new != old && new is Some && new->0.len() > 0 {
        " WITH "@ + new->0
    } else {
        Seq::empty()
    }
}

/// "IDENTIFIED" followed by the plugin and password clauses, when either is present.
pub open spec fn identified(prefix: Seq<char>, plugin: Seq<char>, pwd: Seq<char>) -> Seq<char> {
    if pwd.len() > 0 || plugin.len() > 0 {
        prefix + plugin + pwd
    } else {
        Seq::empty()
    }
}

/// The flags of the privileges granted by the change from `old` to `new`.
pub open spec fn granted_flags(new: Seq<bool>, old: Seq<bool>) -> Seq<bool> {
    Seq::new(new.len(), |i: int| new[i] && !old[i])
}

/// The flags of the privileges withdrawn by the change from `old` to `new`.
pub open spec fn revoked_flags(new: Seq<bool>, old: Seq<bool>) -> Seq<bool> {
    Seq::new(new.len(), |i: int| !new[i] && old[i])
}

/// The statements that turn the account `old` into `user`, in order: a rename, an ALTER USER
/// for a new password or changed resource limits, a GRANT and a REVOKE of server-wide privileges.
pub open spec fn user_ddl(user: UserView, old: UserView) -> Seq<Seq<char>> {
    rename_part(user, old) + alter_part(user, old) + grant_part(user, old) + revoke_part(user, old)
}

/// The RENAME USER statement when the name or host changed.
pub open spec fn rename_part(user: UserView, old: UserView) -> Seq<Seq<char>> {
    if user.name != old.name || user.host != old.host {
        seq!["RENAME USER "@ + account(old.name, old.host) + " TO "@ + account(user.name, user.host)]
    } else {
        Seq::empty()
    }
}

/// The ALTER USER statement when a password was typed or a resource limit changed.
pub open spec fn alter_part(user: UserView, old: UserView) -> Seq<Seq<char>> {
    let pwd = password_clause(user.password);
    let plugin = plugin_change_clause(user.plugin, old.plugin);
    let identity = identified("IDENTIFIED"@, plugin, pwd);
    let res = resource_changes(user, old);
    if pwd.len() > 0 || res.len() > 0 {
        seq!["ALTER USER "@ + account(user.name, user.host) + " "@ + identity
            + prefixed_if_nonempty(" WITH "@, seq_join(res, "\n"@)) + ";"@]
    } else {
        Seq::empty()
    }
}

/// The GRANT statement of the server-wide privileges that were added.
pub open spec fn grant_part(user: UserView, old: UserView) -> Seq<Seq<char>> {
    let grants = selected(granted_flags(user.srv_privs, old.srv_privs), srv_priv_names());
    if grants.len() > 0 {
        seq!["GRANT "@ + seq_join(grants, ","@) + " ON *.* TO "@ + account(user.name, user.host) + ";"@]
    } else {
        Seq::empty()
    }
}

/// The REVOKE statement of the server-wide privileges that were withdrawn.
pub open spec fn revoke_part(user: UserView, old: UserView) -> Seq<Seq<char>> {
    let revokes = selected(revoked_flags(user.srv_privs, old.srv_privs), srv_priv_revoke_names());
    if revokes.len() > 0 {
        seq!["REVOKE "@ + seq_join(revokes, ","@) + " ON *.* FROM "@ + account(user.name, user.host) + ";"@]
    } else {
        Seq::empty()
    }
}

fn push_changed_limit(res: &mut Vec<String>, label: &str, new: &Option<String>, prev: &Option<String>)
    ensures
        views(final(res)@) == views(old(res)@) + changed_limit(label@, opt_view(*new), opt_view(*prev)),
{
    let ghost before = views(res@);
    if !opt_str_eq(new, prev) {
        if let Some(v) = new {
            if !v.as_str().is_empty() {
                res.push(cat(label, v.as_str()));
                assert(views(res@) =~= before + changed_limit(label@, opt_view(*new), opt_view(*prev)));
                return;
            }
        }
    }
    assert(views(res@) =~= before + changed_limit(label@, opt_view(*new), opt_view(*prev)));
}

fn password_clause_str(password: &Option<String>) -> (r: String)
    ensures
        r@ == password_clause(opt_view(*password)),
{
    match password {
        Some(p) => if !p.as_str().is_empty() { cat3(" BY '", p.as_str(), "'") } else { String::new() },
        None => String::new(),
    }
}

/// Flags `a[i] && !b[i]`.
fn and_not(a: &[bool; 28], b: &[bool; 28]) -> (r: Vec<bool>)
    ensures
        r@ == granted_flags(a@, b@),
{
    let mut r: Vec<bool> = Vec::new();
    for i in 0..28
        invariant
            a@.len() == 28,
            b@.len() == 28,
            r@.len() == i,
            forall|j: int| 0 <= j < i ==> r@[j] == (a@[j] && !b@[j]),
    {
        r.push(a[i] && !b[i]);
    }
    assert(r@ =~= granted_flags(a@, b@));
    r
}

/// The statements that turn the account `old_user` into `user` (see `user_ddl`).
fn rename_stmt(user: &User, old_user: &User) -> (r: Vec<String>)
    ensures
        views(r@) == rename_part(user@, old_user@),
{
    let mut ddl: Vec<String> = Vec::new();
    if !(user.name == old_user.name) || !(user.host == old_user.host) {
        let mut s = String::new();
        s.append("RENAME USER ");
        s.append(account_str(old_user.name.as_str(), old_user.host.as_str()).as_str());
        s.append(" TO ");
        s.append(account_str(user.name.as_str(), user.host.as_str()).as_str());
        ddl.push(s);
    }
    assert(views(ddl@) =~= rename_part(user@, old_user@));
    ddl
}

fn alter_stmt(user: &User, old_user: &User) -> (r: Vec<String>)
    ensures
        views(r@) == alter_part(user@, old_user@),
{
    let pwd = password_clause_str(&user.password);
    let plugin = if !opt_str_eq(&user.plugin, &old_user.plugin) && user.plugin.is_some() {
        match &user.plugin {
            Some(p) => if !p.as_str().is_empty() { cat(" WITH ", p.as_str()) } else { String::new() },
            None => String::new(),
        }
    } else {
        String::new()
    };
    assert(plugin@ == plugin_change_clause(opt_view(user.plugin), opt_view(old_user.plugin)));
    let identity = if !pwd.as_str().is_empty() || !plugin.as_str().is_empty() {
        cat3("IDENTIFIED", plugin.as_str(), pwd.as_str())
    } else {
        String::new()
    };
    let mut res: Vec<String> = Vec::new();
    push_changed_limit(&mut res, "MAX_QUERIES_PER_HOUR ", &user.max_queries, &old_user.max_queries);
    push_changed_limit(&mut res, "MAX_UPDATES_PER_HOUR ", &user.max_updates, &old_user.max_updates);
    push_changed_limit(&mut res, "MAX_CONNECTIONS_PER_HOUR ", &user.max_connections, &old_user.max_connections);
    push_changed_limit(&mut res, "MAX_USER_CONNECTIONS ", &user.max_user_connections, &old_user.max_user_connections);
    assert(views(res@) =~= resource_changes(user@, old_user@));
    let mut ddl: Vec<String> = Vec::new();
    if !pwd.as_str().is_empty() || res.len() > 0 {
        let with = if res.len() > 0 {
            cat(" WITH ", join(&res, "\n").as_str())
        } else {
            String::new()
        };
        let mut s = String::new();
        s.append("ALTER USER ");
        s.append(account_str(user.name.as_str(), user.host.as_str()).as_str());
        s.append(" ");
        s.append(identity.as_str());
        s.append(with.as_str());
        s.append(";");
        ddl.push(s);
    }
    assert(views(ddl@) =~= alter_part(user@, old_user@));
    ddl
}

fn grant_revoke_stmts(user: &User, old_user: &User) -> (r: Vec<String>)
    ensures
        views(r@) == grant_part(user@, old_user@) + revoke_part(user@, old_user@),
{
    let acc = account_str(user.name.as_str(), user.host.as_str());
    let gflags = and_not(&user.srv_privs, &old_user.srv_privs);
    let rflags = and_not(&old_user.srv_privs, &user.srv_privs);
    let gnames = srv_priv_names_vec();
    let rnames = srv_priv_revoke_names_vec();
    assert(gnames@.len() == str_views(gnames@).len());
    assert(rnames@.len() == str_views(rnames@).len());
    let grants = select_names(gflags.as_slice(), &gnames);
    let revokes = select_names(rflags.as_slice(), &rnames);
    assert(revoked_flags(user.srv_privs@, old_user.srv_privs@) =~= granted_flags(old_user.srv_privs@, user.srv_privs@));
    let mut ddl: Vec<String> = Vec::new();
    if grants.len() > 0 {
        let mut s = String::new();
        s.append("GRANT ");
        s.append(join(&grants, ",").as_str());
        s.append(" ON *.* TO ");
        s.append(acc.as_str());
        s.append(";");
        ddl.push(s);
    }
    let ghost g = views(ddl@);
    assert(g =~= grant_part(user@, old_user@));
    if revokes.len() > 0 {
        let mut s = String::new();
        s.append("REVOKE ");
        s.append(join(&revokes, ",").as_str());
        s.append(" ON *.* FROM ");
        s.append(acc.as_str());
        s.append(";");
        ddl.push(s);
    }
    assert(views(ddl@) =~= g + revoke_part(user@, old_user@));
    ddl
}

/// The statements that turn the account `old_user` into `user` (see `user_ddl`).
pub fn build_user_ddl(user: &User, old_user: &User) -> (r: Vec<String>)
    ensures
        views(r@) == user_ddl(user@, old_user@),
{
    let mut ddl = rename_stmt(user, old_user);
    let ghost a = views(ddl@);
    let mut x = alter_stmt(user, old_user);
    let ghost xv = views(x@);
    ddl.append(&mut x);
    assert(views(ddl@) =~= a + xv);
    let ghost b = views(ddl@);
    let mut y = grant_revoke_stmts(user, old_user);
    let ghost yv = views(y@);
    ddl.append(&mut y);
    assert(views(ddl@) =~= b + yv);
    assert(views(ddl@) =~= a + alter_part(user@, old_user@) + grant_part(user@, old_user@) + revoke_part(user@, old_user@));
    ddl
}


/// The value that a form holds under `key`, when it holds the key.
pub open spec fn form_value(form: Seq<EntryView>, key: Seq<char>) -> Option<Seq<char>> {
    lookup(form, key)->0
}

/// The value, or `default` when there is none.
pub open spec fn value_or(o: Option<Seq<char>>, default: Seq<char>) -> Seq<char> {
    match o {
        Some(s) => s,
        None => default,
    }
}

/// The clause "`label` `value`" for a limit that holds a non-empty value.
pub open spec fn present_limit(label: Seq<char>, v: Option<Seq<char>>) -> Seq<Seq<char>> {
    if v is Some && v->0.len() > 0 { seq![label + v->0] } else { Seq::empty() }
}

/// "GRANT `role` TO `account`;" for each granted row in which the edited account is the member.
pub open spec fn member_of_grants(rows: Seq<UserMember>, name: Seq<char>, host: Seq<char>) -> Seq<Seq<char>>
    decreases rows.len(),
{
    if rows.len() == 0 {
        Seq::empty()
    } else {
        let rest = member_of_grants(rows.drop_last(), name, host);
        let m = rows.last();
        if m.granted {
            rest.push("GRANT "@ + account(opt_or_empty(opt_view(m.user_name)), opt_or_empty(opt_view(m.user_host)))
                + " TO "@ + account(name, host) + ";"@)
        } else {
            rest
        }
    }
}

/// "GRANT `account` TO `member`;" for each granted row in which the edited account is the role.
pub open spec fn members_grants(rows: Seq<UserMember>, name: Seq<char>, host: Seq<char>) -> Seq<Seq<char>>
    decreases rows.len(),
{
    if rows.len() == 0 {
        Seq::empty()
    } else {
        let rest = members_grants(rows.drop_last(), name, host);
        let m = rows.last();
        if m.granted {
            rest.push("GRANT "@ + account(name, host) + " TO "@
                + account(opt_or_empty(opt_view(m.member_name)), opt_or_empty(opt_view(m.member_host))) + ";"@)
        } else {
            rest
        }
    }
}

/// The GRANT statement of one table grant for the account `name`@`host`.
pub open spec fn privilege_grant(p: Privilege, name: Seq<char>, host: Seq<char>) -> Seq<char> {
    "GRANT "@ + seq_join(selected(p.privs@, db_priv_names()), ","@) + " ON `"@ + p.db@ + "`.`"@ + p.name@
        + "` TO "@ + account(name, host) + ";"@
}

/// The GRANT statements of the table grants, in order.
pub open spec fn privilege_grants(ps: Seq<Privilege>, name: Seq<char>, host: Seq<char>) -> Seq<Seq<char>>
    decreases ps.len(),
{
    if ps.len() == 0 {
        Seq::empty()
    } else {
        privilege_grants(ps.drop_last(), name, host).push(privilege_grant(ps.last(), name, host))
    }
}

/// Whether every granted row names its role and member where the statements need them.
pub open spec fn rows_complete(member_ofs: Seq<UserMember>, members: Seq<UserMember>) -> bool {
    &&& forall|i: int| 0 <= i < member_ofs.len() && #[trigger] member_ofs[i].granted
        ==> member_ofs[i].user_name is Some && member_ofs[i].user_host is Some
    &&& forall|i: int| 0 <= i < members.len() && #[trigger] members[i].granted
        ==> members[i].member_name is Some && members[i].member_host is Some
}

/// The state of the account editor that the statements are made from.
pub struct UserDetailComponent {
    pub old_user: Option<User>,
    pub member_ofs: Vec<UserMember>,
    pub old_member_ofs: Vec<UserMember>,
    pub members: Vec<UserMember>,
    pub old_members: Vec<UserMember>,
    pub srv_privs: [bool; 28],
    pub privileges: Vec<Privilege>,
    pub old_privileges: Vec<Privilege>,
    pub form: FormData,
    pub adv_form: FormData,
    pub panel: PanelKind,
    pub db_version: Version,
}

/// The keys that the general form of the account editor holds.
pub open spec fn general_keys_present(form: Seq<EntryView>) -> bool {
    &&& lookup(form, "Name"@) is Some
    &&& lookup(form, "Host"@) is Some
    &&& lookup(form, "Plugin"@) is Some
    &&& lookup(form, "Password"@) is Some
}

/// The keys that the advanced form of the account editor holds.
pub open spec fn advanced_keys_present(form: Seq<EntryView>) -> bool {
    &&& lookup(form, "Max queries per hour"@) is Some
    &&& lookup(form, "Max updates per hour"@) is Some
    &&& lookup(form, "Max connections per hour"@) is Some
    &&& lookup(form, "Max user connections"@) is Some
}

/// The CREATE USER statement of a new account.
pub open spec fn create_user_stmt(form: Seq<EntryView>, adv: Seq<EntryView>) -> Seq<char> {
    let name = value_or(form_value(form, "Name"@), "username"@);
    let host = value_or(form_value(form, "Host"@), "localhost"@);
    let res = present_limit("MAX_QUERIES_PER_HOUR "@, form_value(adv, "Max queries per hour"@))
        + present_limit("MAX_UPDATES_PER_HOUR "@, form_value(adv, "Max updates per hour"@))
        + present_limit("MAX_CONNECTIONS_PER_HOUR "@, form_value(adv, "Max connections per hour"@))
        + present_limit("MAX_USER_CONNECTIONS "@, form_value(adv, "Max user connections"@));
    let pwd = password_clause(form_value(form, "Password"@));
    let plugin = match form_value(form, "Plugin"@) {
        Some(p) => if p.len() > 0 { " WITH "@ + p } else { Seq::empty() },
        None => Seq::empty(),
    };
    "CREATE USER "@ + account(name, host) + identified(" IDENTIFIED"@, plugin, pwd)
        + prefixed_if_nonempty(" WITH "@, seq_join(res, "\n"@)) + ";"@
}

/// The statements that create a new account, each part ended by a line break: the CREATE USER,
/// the role grants to it, its grants to members, the server-wide grant and the table grants.
pub open spec fn create_user_ddl(
    form: Seq<EntryView>,
    adv: Seq<EntryView>,
    member_ofs: Seq<UserMember>,
    members: Seq<UserMember>,
    srv_privs: Seq<bool>,
    privileges: Seq<Privilege>,
) -> Seq<char> {
    let name = value_or(form_value(form, "Name"@), "username"@);
    let host = value_or(form_value(form, "Host"@), "localhost"@);
    let srv = selected(srv_privs, srv_priv_names());
    let srv_ddl = if srv.len() > 0 {
        "GRANT "@ + seq_join(srv, ","@) + " ON *.* TO "@ + account(name, host) + ";"@
    } else {
        Seq::empty()
    };
    create_user_stmt(form, adv) + "\n"@ + seq_join(member_of_grants(member_ofs, name, host), "\n"@) + "\n"@
        + seq_join(members_grants(members, name, host), "\n"@) + "\n"@ + srv_ddl + "\n"@
        + seq_join(privilege_grants(privileges, name, host), "\n"@) + "\n"@
}

fn form_value_or(form: &FormData, key: &str, default: &str) -> (r: String)
    requires
        lookup(form@, key@) is Some,
    ensures
        r@ == value_or(form_value(form@, key@), default@),
{
    match form.get(key) {
        Some(Some(v)) => v,
        _ => default.to_owned(),
    }
}

fn push_present_limit(res: &mut Vec<String>, label: &str, form: &FormData, key: &str)
    requires
        lookup(form@, key@) is Some,
    ensures
        views(final(res)@) == views(old(res)@) + present_limit(label@, form_value(form@, key@)),
{
    let ghost before = views(res@);
    if let Some(Some(v)) = form.get(key) {
        if !v.as_str().is_empty() {
            res.push(cat(label, v.as_str()));
            assert(views(res@) =~= before + present_limit(label@, form_value(form@, key@)));
            return;
        }
    }
    assert(views(res@) =~= before + present_limit(label@, form_value(form@, key@)));
}

fn member_of_grants_vec(rows: &Vec<UserMember>, name: &str, host: &str) -> (r: Vec<String>)
    requires
        forall|i: int| 0 <= i < rows@.len() && #[trigger] rows@[i].granted
            ==> rows@[i].user_name is Some && rows@[i].user_host is Some,
    ensures
        views(r@) == member_of_grants(rows@, name@, host@),
{
    let mut r: Vec<String> = Vec::new();
    let n = rows.len();
    let acc = account_str(name, host);
    for i in 0..n
        invariant
            n == rows@.len(),
            acc@ == account(name@, host@),
            forall|i: int| 0 <= i < rows@.len() && #[trigger] rows@[i].granted
                ==> rows@[i].user_name is Some && rows@[i].user_host is Some,
            views(r@) == member_of_grants(rows@.take(i as int), name@, host@),
    {
        assert(rows@.take(i + 1).drop_last() =~= rows@.take(i as int));
        let m = &rows[i];
        if m.granted {
            let (Some(un), Some(uh)) = (&m.user_name, &m.user_host) else { return r };
            let s = cat4("GRANT ", account_str(un.as_str(), uh.as_str()).as_str(), " TO ", acc.as_str());
            let ghost before = views(r@);
            r.push(cat(s.as_str(), ";"));
            assert(views(r@) =~= before.push(views(r@).last()));
        }
    }
    assert(rows@.take(n as int) =~= rows@);
    r
}

fn members_grants_vec(rows: &Vec<UserMember>, name: &str, host: &str) -> (r: Vec<String>)
    requires
        forall|i: int| 0 <= i < rows@.len() && #[trigger] rows@[i].granted
            ==> rows@[i].member_name is Some && rows@[i].member_host is Some,
    ensures
        views(r@) == members_grants(rows@, name@, host@),
{
    let mut r: Vec<String> = Vec::new();
    let n = rows.len();
    let acc = account_str(name, host);
    for i in 0..n
        invariant
            n == rows@.len(),
            acc@ == account(name@, host@),
            forall|i: int| 0 <= i < rows@.len() && #[trigger] rows@[i].granted
                ==> rows@[i].member_name is Some && rows@[i].member_host is Some,
            views(r@) == members_grants(rows@.take(i as int), name@, host@),
    {
        assert(rows@.take(i + 1).drop_last() =~= rows@.take(i as int));
        let m = &rows[i];
        if m.granted {
            let (Some(mn), Some(mh)) = (&m.member_name, &m.member_host) else { return r };
            let s = cat4("GRANT ", acc.as_str(), " TO ", account_str(mn.as_str(), mh.as_str()).as_str());
            let ghost before = views(r@);
            r.push(cat(s.as_str(), ";"));
            assert(views(r@) =~= before.push(views(r@).last()));
        }
    }
    assert(rows@.take(n as int) =~= rows@);
    r
}

fn privilege_grants_vec(ps: &Vec<Privilege>, name: &str, host: &str) -> (r: Vec<String>)
    ensures
        views(r@) == privilege_grants(ps@, name@, host@),
{
    let mut r: Vec<String> = Vec::new();
    let n = ps.len();
    let acc = account_str(name, host);
    let names = db_priv_names_vec();
    for i in 0..n
        invariant
            n == ps@.len(),
            acc@ == account(name@, host@),
            str_views(names@) == db_priv_names(),
            views(r@) == privilege_grants(ps@.take(i as int), name@, host@),
    {
        assert(ps@.take(i + 1).drop_last() =~= ps@.take(i as int));
        let p = &ps[i];
        assert(names@.len() == str_views(names@).len());
        let sel = select_names(&p.privs, &names);
        let mut s = String::new();
        s.append("GRANT ");
        s.append(join(&sel, ",").as_str());
        s.append(" ON `");
        s.append(p.db.as_str());
        s.append("`.`");
        s.append(p.name.as_str());
        s.append("` TO ");
        s.append(acc.as_str());
        s.append(";");
        let ghost before = views(r@);
        r.push(s);
        assert(views(r@) =~= before.push(privilege_grant(ps@[i as int], name@, host@)));
    }
    assert(ps@.take(n as int) =~= ps@);
    r
}

impl UserDetailComponent {
    /// The statements that create the account described by the editor (see `create_user_ddl`).
    pub fn build_create_ddl(&self) -> (r: String)
        requires
            general_keys_present(self.form@),
            advanced_keys_present(self.adv_form@),
            rows_complete(self.member_ofs@, self.members@),
        ensures
            r@ == create_user_ddl(self.form@, self.adv_form@, self.member_ofs@, self.members@,
                self.srv_privs@, self.privileges@),
    {
        let name = form_value_or(&self.form, "Name", "username");
        let host = form_value_or(&self.form, "Host", "localhost");
        let mo = member_of_grants_vec(&self.member_ofs, name.as_str(), host.as_str());
        let ms = members_grants_vec(&self.members, name.as_str(), host.as_str());
        let mut res: Vec<String> = Vec::new();
        push_present_limit(&mut res, "MAX_QUERIES_PER_HOUR ", &self.adv_form, "Max queries per hour");
        push_present_limit(&mut res, "MAX_UPDATES_PER_HOUR ", &self.adv_form, "Max updates per hour");
        push_present_limit(&mut res, "MAX_CONNECTIONS_PER_HOUR ", &self.adv_form, "Max connections per hour");
        push_present_limit(&mut res, "MAX_USER_CONNECTIONS ", &self.adv_form, "Max user connections");
        let pwd = match self.form.get("Password") {
            Some(Some(p)) => if !p.as_str().is_empty() { cat3(" BY '", p.as_str(), "'") } else { String::new() },
            _ => String::new(),
        };
        let plugin = match self.form.get("Plugin") {
            Some(Some(p)) => if !p.as_str().is_empty() { cat(" WITH ", p.as_str()) } else { String::new() },
            _ => String::new(),
        };
        let identity = if !pwd.as_str().is_empty() || !plugin.as_str().is_empty() {
            cat3(" IDENTIFIED", plugin.as_str(), pwd.as_str())
        } else {
            String::new()
        };
        let with = if res.len() > 0 { cat(" WITH ", join(&res, "\n").as_str()) } else { String::new() };
        let acc = account_str(name.as_str(), host.as_str());
        let user_ddl = cat5("CREATE USER ", acc.as_str(), identity.as_str(), with.as_str(), ";");
        assert(user_ddl@ == create_user_stmt(self.form@, self.adv_form@));
        let privs = privilege_grants_vec(&self.privileges, name.as_str(), host.as_str());
        let names = srv_priv_names_vec();
        assert(names@.len() == str_views(names@).len());
        let srv = select_names(&self.srv_privs, &names);
        let srv_ddl = if srv.len() > 0 {
            cat5("GRANT ", join(&srv, ",").as_str(), " ON *.* TO ", acc.as_str(), ";")
        } else {
            String::new()
        };
        let mut r = String::new();
        r.append(user_ddl.as_str());
        r.append("\n");
        r.append(join(&mo, "\n").as_str());
        r.append("\n");
        r.append(join(&ms, "\n").as_str());
        r.append("\n");
        r.append(srv_ddl.as_str());
        r.append("\n");
        r.append(join(&privs, "\n").as_str());
        r.append("\n");
        r
    }
}


/// The account that the editor's forms and server-wide privileges describe.
pub open spec fn input_user(form: Seq<EntryView>, adv: Seq<EntryView>, srv_privs: Seq<bool>) -> UserView {
    UserView {
        host: form_value(form, "Host"@)->0,
        name: form_value(form, "Name"@)->0,
        plugin: form_value(form, "Plugin"@),
        password: form_value(form, "Password"@),
        max_queries: form_value(adv, "Max queries per hour"@),
        max_updates: form_value(adv, "Max updates per hour"@),
        max_connections: form_value(adv, "Max connections per hour"@),
        max_user_connections: form_value(adv, "Max user connections"@),
        srv_privs,
    }
}

/// Whether the forms can describe an existing account: name and host are filled in.
pub open spec fn input_complete(form: Seq<EntryView>, adv: Seq<EntryView>) -> bool {
    &&& general_keys_present(form)
    &&& advanced_keys_present(adv)
    &&& form_value(form, "Host"@) is Some
    &&& form_value(form, "Name"@) is Some
}

/// Whether `rows` are the membership rows of the account `user` with each account of `users`,
/// in order, all granted as `granted` says: with `user` as the member (`as_member`) or as the role.
pub open spec fn rows_of_users(
    users: Seq<User>,
    user: UserView,
    granted: bool,
    rows: Seq<UserMember>,
    as_member: bool,
) -> bool {
    &&& rows.len() == users.len()
    &&& forall|i: int| 0 <= i < rows.len() ==> {
        let r = #[trigger] rows[i];
        let u = users[i];
        &&& r.granted == granted
        &&& if as_member {
            &&& opt_view(r.user_host) == Some(u.host@)
            &&& opt_view(r.user_name) == Some(u.name@)
            &&& opt_view(r.member_host) == Some(user.host)
            &&& opt_view(r.member_name) == Some(user.name)
        } else {
            &&& opt_view(r.user_host) == Some(user.host)
            &&& opt_view(r.user_name) == Some(user.name)
            &&& opt_view(r.member_host) == Some(u.host@)
            &&& opt_view(r.member_name) == Some(u.name@)
        }
    }
}

/// The accounts other than `user`, in order.
pub open spec fn other_users(users: Seq<User>, user: UserView) -> Seq<User> {
    users.filter(is_other(user))
}

/// Whether an account is another than `user`.
pub open spec fn is_other(user: UserView) -> spec_fn(User) -> bool {
    |u: User| u.name@ != user.name || u.host@ != user.host
}

impl UserDetailComponent {
    /// The account that the forms describe.
    pub fn get_input_user(&self) -> (r: User)
        requires
            input_complete(self.form@, self.adv_form@),
        ensures
            r@ == input_user(self.form@, self.adv_form@, self.srv_privs@),
    {
        let host = match self.form.get("Host") { Some(Some(h)) => h, _ => String::new() };
        let name = match self.form.get("Name") { Some(Some(n)) => n, _ => String::new() };
        let plugin = match self.form.get("Plugin") { Some(p) => p, None => None };
        let password = match self.form.get("Password") { Some(p) => p, None => None };
        let max_queries = match self.adv_form.get("Max queries per hour") { Some(v) => v, None => None };
        let max_updates = match self.adv_form.get("Max updates per hour") { Some(v) => v, None => None };
        let max_connections = match self.adv_form.get("Max connections per hour") { Some(v) => v, None => None };
        let max_user_connections = match self.adv_form.get("Max user connections") { Some(v) => v, None => None };
        let r = User {
            host,
            name,
            plugin,
            password,
            max_queries,
            max_updates,
            max_connections,
            max_user_connections,
            srv_privs: self.srv_privs,
        };
        assert(r@ == input_user(self.form@, self.adv_form@, self.srv_privs@));
        r
    }

    /// The statements that turn the stored account into the one the editor describes, followed
    /// by the given statements for role memberships, members and table grants, one per line.
    pub fn build_alter_ddl(
        &self,
        member_ofs_ddl: &Vec<String>,
        members_ddl: &Vec<String>,
        privileges_ddl: &Vec<String>,
    ) -> (r: String)
        requires
            self.old_user is Some,
            input_complete(self.form@, self.adv_form@),
        ensures
            r@ == seq_join(
                user_ddl(input_user(self.form@, self.adv_form@, self.srv_privs@), self.old_user->0@)
                    + views(member_ofs_ddl@) + views(members_ddl@) + views(privileges_ddl@),
                "\n"@,
            ),
    {
        let user = self.get_input_user();
        let old = match &self.old_user { Some(u) => u, None => { return String::new() } };
        let mut ddls = build_user_ddl(&user, old);
        let ghost a = views(ddls@);
        let ghost parts = a + views(member_ofs_ddl@) + views(members_ddl@) + views(privileges_ddl@);
        ddls.append(&mut clone_strings(member_ofs_ddl));
        ddls.append(&mut clone_strings(members_ddl));
        ddls.append(&mut clone_strings(privileges_ddl));
        assert(views(ddls@) =~= parts);
        join(&ddls, "\n")
    }

    /// The statements to run on save: those that alter the stored account when there is one,
    /// else those that create the account.
    pub fn build_sql(
        &self,
        member_ofs_ddl: &Vec<String>,
        members_ddl: &Vec<String>,
        privileges_ddl: &Vec<String>,
    ) -> (r: String)
        requires
            self.old_user is Some ==> input_complete(self.form@, self.adv_form@),
            self.old_user is None ==> general_keys_present(self.form@) && advanced_keys_present(self.adv_form@)
                && rows_complete(self.member_ofs@, self.members@),
        ensures
            self.old_user is Some ==> r@ == seq_join(
                user_ddl(input_user(self.form@, self.adv_form@, self.srv_privs@), self.old_user->0@)
                    + views(member_ofs_ddl@) + views(members_ddl@) + views(privileges_ddl@),
                "\n"@,
            ),
            self.old_user is None ==> r@ == create_user_ddl(self.form@, self.adv_form@, self.member_ofs@,
                self.members@, self.srv_privs@, self.privileges@),
    {
        if self.old_user.is_some() {
            self.build_alter_ddl(member_ofs_ddl, members_ddl, privileges_ddl)
        } else {
            self.build_create_ddl()
        }
    }

    /// Whether the password and its confirmation agree; saving is refused when they do not.
    pub fn passwords_match(&self) -> (r: bool)
        ensures
            r == (lookup(self.form@, "Password"@) == lookup(self.form@, "Confirm Password"@)),
    {
        let a = self.form.get("Password");
        let b = self.form.get("Confirm Password");
        match (&a, &b) {
            (Some(x), Some(y)) => opt_str_eq(x, y),
            (None, None) => true,
            _ => false,
        }
    }
}

/// Copies of the strings.
pub fn clone_strings(v: &Vec<String>) -> (r: Vec<String>)
    ensures
        views(r@) == views(v@),
{
    let mut r: Vec<String> = Vec::new();
    let n = v.len();
    for i in 0..n
        invariant
            n == v@.len(),
            views(r@) == views(v@).take(i as int),
    {
        let ghost before = views(r@);
        let c = v[i].clone();
        assert(c@ == views(v@)[i as int]);
        r.push(c);
        assert(views(r@) =~= before.push(c@));
        assert(views(r@) =~= views(v@).take(i + 1));
    }
    assert(views(v@).take(v@.len() as int) =~= views(v@));
    r
}

fn clone_user_str(s: &String) -> (r: Option<String>)
    ensures
        opt_view(r) == Some(s@),
{
    Some(s.clone())
}

/// The rows of the account editor's membership tables for an existing account `user` on a server
/// with roles: one row per other account, in order. In the first table the other account is the
/// role and `user` the member; in the second the roles are swapped. A first-table row is marked
/// granted when some row of `member_ofs` has `user` as its member; a second-table row when some
/// row of `members` has `user` as its role.
pub fn user_member_rows(
    all_users: &Vec<User>,
    user: &User,
    member_ofs: &Vec<UserMember>,
    members: &Vec<UserMember>,
) -> (r: (Vec<UserMember>, Vec<UserMember>))
    requires
        forall|i: int| 0 <= i < member_ofs@.len() ==> (#[trigger] member_ofs@[i]).member_host is Some
            && member_ofs@[i].member_name is Some,
        forall|i: int| 0 <= i < members@.len() ==> (#[trigger] members@[i]).user_host is Some
            && members@[i].user_name is Some,
    ensures
        rows_of_users(other_users(all_users@, user@), user@,
            exists|i: int| 0 <= i < member_ofs@.len()
                && opt_view(#[trigger] member_ofs@[i].member_host) == Some(user.host@)
                && opt_view(member_ofs@[i].member_name) == Some(user.name@),
            r.0@, true),
        rows_of_users(other_users(all_users@, user@), user@,
            exists|i: int| 0 <= i < members@.len()
                && opt_view(#[trigger] members@[i].user_host) == Some(user.host@)
                && opt_view(members@[i].user_name) == Some(user.name@),
            r.1@, false),
{
    let mut granted_of = false;
    for i in 0..member_ofs.len()
        invariant
            granted_of == exists|j: int| 0 <= j < i
                && opt_view(#[trigger] member_ofs@[j].member_host) == Some(user.host@)
                && opt_view(member_ofs@[j].member_name) == Some(user.name@),
    {
        let m = &member_ofs[i];
        let hit = match (&m.member_host, &m.member_name) {
            (Some(h), Some(n)) => *h == user.host && *n == user.name,
            _ => false,
        };
        if hit {
            granted_of = true;
        }
        assert(opt_view(member_ofs@[i as int].member_host) == Some(user.host@)
            && opt_view(member_ofs@[i as int].member_name) == Some(user.name@) ==> hit);
    }
    let mut granted_ms = false;
    for i in 0..members.len()
        invariant
            granted_ms == exists|j: int| 0 <= j < i
                && opt_view(#[trigger] members@[j].user_host) == Some(user.host@)
                && opt_view(members@[j].user_name) == Some(user.name@),
    {
        let m = &members[i];
        let hit = match (&m.user_host, &m.user_name) {
            (Some(h), Some(n)) => *h == user.host && *n == user.name,
            _ => false,
        };
        if hit {
            granted_ms = true;
        }
        assert(opt_view(members@[i as int].user_host) == Some(user.host@)
            && opt_view(members@[i as int].user_name) == Some(user.name@) ==> hit);
    }
    let mut rows_of: Vec<UserMember> = Vec::new();
    let mut rows_ms: Vec<UserMember> = Vec::new();
    let ghost others: Seq<User> = Seq::empty();
    let ghost pred = is_other(user@);
    for i in 0..all_users.len()
        invariant
            pred == is_other(user@),
            others == all_users@.take(i as int).filter(pred),
            rows_of_users(others, user@, granted_of, rows_of@, true),
            rows_of_users(others, user@, granted_ms, rows_ms@, false),
    {
        let u = &all_users[i];
        reveal_with_fuel(Seq::<_>::filter, 1);
        assert(all_users@.take(i + 1).drop_last() =~= all_users@.take(i as int));
        if !(u.name == user.name) || !(u.host == user.host) {
            rows_of.push(UserMember {
                user_host: clone_user_str(&u.host),
                user_name: clone_user_str(&u.name),
                member_host: clone_user_str(&user.host),
                member_name: clone_user_str(&user.name),
                granted: granted_of,
            });
            rows_ms.push(UserMember {
                user_host: clone_user_str(&user.host),
                user_name: clone_user_str(&user.name),
                member_host: clone_user_str(&u.host),
                member_name: clone_user_str(&u.name),
                granted: granted_ms,
            });
            proof {
                others = others.push(*u);
            }
        }
    }
    assert(all_users@.take(all_users@.len() as int) =~= all_users@);
    (rows_of, rows_ms)
}

/// Saving an account as it was runs no statement when no password was typed, and only the
/// ALTER USER statement that sets the password when one was.
pub proof fn lemma_unchanged_user(u: UserView)
    ensures
        password_clause(u.password).len() == 0 ==> user_ddl(u, u) == Seq::<Seq<char>>::empty(),
        password_clause(u.password).len() > 0 ==> user_ddl(u, u) == alter_part(u, u) && alter_part(u, u).len() == 1,
{
    crate::text::lemma_selected_none(granted_flags(u.srv_privs, u.srv_privs), srv_priv_names());
    crate::text::lemma_selected_none(revoked_flags(u.srv_privs, u.srv_privs), srv_priv_revoke_names());
    assert(resource_changes(u, u) =~= Seq::<Seq<char>>::empty());
    assert(rename_part(u, u) =~= Seq::<Seq<char>>::empty());
    assert(grant_part(u, u) =~= Seq::<Seq<char>>::empty());
    assert(revoke_part(u, u) =~= Seq::<Seq<char>>::empty());
    if password_clause(u.password).len() == 0 {
        assert(alter_part(u, u) =~= Seq::<Seq<char>>::empty());
        assert(user_ddl(u, u) =~= Seq::<Seq<char>>::empty());
    } else {
        assert(user_ddl(u, u) =~= alter_part(u, u));
    }
}

/// No server-wide privilege is both granted and revoked by one save.
pub proof fn lemma_grant_and_revoke_disjoint(new: Seq<bool>, old: Seq<bool>, i: int)
    requires
        0 <= i < new.len(),
    ensures
        !(granted_flags(new, old)[i] && revoked_flags(new, old)[i]),
{
}

/// The row with its grant flipped.
pub open spec fn flipped(m: UserMember) -> UserMember {
    UserMember { granted: !m.granted, ..m }
}

fn flip_row(m: &UserMember) -> (r: UserMember)
    ensures
        r == flipped(*m),
{
    UserMember {
        user_host: match &m.user_host { Some(x) => Some(x.clone()), None => None },
        user_name: match &m.user_name { Some(x) => Some(x.clone()), None => None },
        member_host: match &m.member_host { Some(x) => Some(x.clone()), None => None },
        member_name: match &m.member_name { Some(x) => Some(x.clone()), None => None },
        granted: !m.granted,
    }
}

impl UserDetailComponent {
    /// Grants the account the role of the row at `index`, or withdraws it when granted.
    pub fn toggle_member_of(&mut self, index: usize)
        requires
            index < old(self).member_ofs@.len(),
        ensures
            final(self).member_ofs@ == old(self).member_ofs@.update(index as int, flipped(old(self).member_ofs@[index as int])),
            final(self).members == old(self).members,
            final(self).srv_privs == old(self).srv_privs,
            final(self).old_member_ofs == old(self).old_member_ofs,
    {
        let row = flip_row(&self.member_ofs[index]);
        self.member_ofs.set(index, row);
    }

    /// Grants the account to the member of the row at `index`, or withdraws it when granted.
    pub fn toggle_member(&mut self, index: usize)
        requires
            index < old(self).members@.len(),
        ensures
            final(self).members@ == old(self).members@.update(index as int, flipped(old(self).members@[index as int])),
            final(self).member_ofs == old(self).member_ofs,
            final(self).srv_privs == old(self).srv_privs,
            final(self).old_members == old(self).old_members,
    {
        let row = flip_row(&self.members[index]);
        self.members.set(index, row);
    }

    /// Sets or clears the server-wide privilege at `index` of `srv_priv_names`.
    pub fn toggle_server_privilege(&mut self, index: usize)
        requires
            index < 28,
        ensures
            final(self).srv_privs@ == old(self).srv_privs@.update(index as int, !old(self).srv_privs@[index as int]),
            final(self).member_ofs == old(self).member_ofs,
            final(self).members == old(self).members,
    {
        let v = !self.srv_privs[index];
        self.srv_privs[index] = v;
    }
}

/// Flipping a grant twice leaves the row as it was.
pub proof fn lemma_flip_twice(m: UserMember)
    ensures
        flipped(flipped(m)) == m,
{
}

/// The keys under which the privilege dialog holds the privileges of `db_priv_names`, in order.
pub open spec fn db_priv_keys() -> Seq<Seq<char>> {
    seq![
        "alter"@, "create"@, "create view"@, "delete"@, "drop"@, "index"@, "insert"@,
        "references"@, "select"@, "show view"@, "trigger"@, "update"@,
    ]
}

fn db_priv_keys_vec() -> (v: Vec<&'static str>)
    ensures
        str_views(v@) == db_priv_keys(),
{
    let v = vec!["alter", "create", "create view", "delete", "drop", "index", "insert", "references", "select",
        "show view", "trigger", "update"];
    assert(str_views(v@) =~= db_priv_keys());
    v
}

/// Whether the privilege dialog holds the database, the table and every privilege flag.
pub open spec fn privilege_dialog_complete(form: Seq<EntryView>) -> bool {
    &&& filled(form, "database"@)
    &&& filled(form, "name"@)
    &&& forall|i: int| 0 <= i < 12 ==> filled(form, #[trigger] db_priv_keys()[i])
}

/// The table grant that the privilege dialog describes: its id (a fresh one when the dialog
/// names none), database, table, and each privilege set when its flag reads "true"; `None`
/// when the id that it names is no UUID.
pub fn privilege_from_dialog(form: &FormData) -> (r: Option<Privilege>)
    requires
        privilege_dialog_complete(form@),
    ensures
        match r {
            Some(p) => {
                &&& id_from_form(form@, p.id)
                &&& Some(p.db@) == form_value(form@, "database"@)
                &&& Some(p.name@) == form_value(form@, "name"@)
                &&& forall|i: int| 0 <= i < 12 ==> p.privs@[i] == (form_value(form@, db_priv_keys()[i])->0 == "true"@)
            },
            None => lookup(form@, "id"@) matches Some(Some(t)) && uuid_value(t) is None,
        },
{
    let id = match form_id(form) {
        Ok(id) => id,
        Err(_) => { return None; },
    };
    let db = match form.get("database") { Some(Some(v)) => v, _ => String::new() };
    let name = match form.get("name") { Some(Some(v)) => v, _ => String::new() };
    let keys = db_priv_keys_vec();
    assert(keys@.len() == str_views(keys@).len());
    let mut privs = [false; 12];
    for i in 0..12usize
        invariant
            privilege_dialog_complete(form@),
            str_views(keys@) == db_priv_keys(),
            keys@.len() == 12,
            forall|j: int| 0 <= j < i ==> privs@[j] == (form_value(form@, db_priv_keys()[j])->0 == "true"@),
    {
        assert(str_views(keys@)[i as int] == keys@[i as int]@);
        assert(filled(form@, db_priv_keys()[i as int]));
        privs[i] = reads_true_at(form, keys[i]);
    }
    Some(Privilege { id, db, name, privs })
}

impl UserDetailComponent {
    /// Adds the grant of a new privilege dialog at the end, or puts the grant of an edit dialog
    /// (`editing`) in place of the selected one (nothing without a selection).
    pub fn save_privilege(&mut self, p: Privilege, editing: bool, selected: Option<usize>)
        requires
            editing && selected is Some ==> selected->0 < old(self).privileges@.len(),
        ensures
            final(self).privileges@ == if !editing {
                old(self).privileges@.push(p)
            } else {
                match selected {
                    Some(i) => old(self).privileges@.update(i as int, p),
                    None => old(self).privileges@,
                }
            },
            final(self).old_privileges == old(self).old_privileges,
    {
        if !editing {
            self.privileges.push(p);
        } else if let Some(i) = selected {
            self.privileges.set(i, p);
        }
    }
}

/// The general form of the account editor for an existing account: its name, host and plugin,
/// and no password typed.
pub open spec fn user_general_form(u: UserView) -> Seq<EntryView> {
    seq![
        ("Name"@, Some(u.name)),
        ("Host"@, Some(u.host)),
        ("Plugin"@, u.plugin),
        ("Password"@, None),
        ("Confirm Password"@, None),
    ]
}

/// The advanced form of the account editor for an existing account: its four resource limits.
pub open spec fn user_advanced_form(u: UserView) -> Seq<EntryView> {
    seq![
        ("Max queries per hour"@, u.max_queries),
        ("Max updates per hour"@, u.max_updates),
        ("Max connections per hour"@, u.max_connections),
        ("Max user connections"@, u.max_user_connections),
    ]
}

/// The general form of the account editor for a new account: every item without a value.
pub open spec fn new_user_general_form() -> Seq<EntryView> {
    seq![
        ("Name"@, None),
        ("Host"@, None),
        ("Plugin"@, None),
        ("Password"@, None),
        ("Confirm Password"@, None),
    ]
}

/// The advanced form of the account editor for a new account: every limit without a value.
pub open spec fn new_user_advanced_form() -> Seq<EntryView> {
    seq![
        ("Max queries per hour"@, None),
        ("Max updates per hour"@, None),
        ("Max connections per hour"@, None),
        ("Max user connections"@, None),
    ]
}

/// Whether `rows` are the membership rows of a new account: one per account of `users`, in
/// order, none granted. With `as_member` the listed account is the role and the member is left
/// open; otherwise the listed account is the member and the role is left open.
pub open spec fn new_user_rows(users: Seq<User>, rows: Seq<UserMember>, as_member: bool) -> bool {
    &&& rows.len() == users.len()
    &&& forall|i: int| 0 <= i < rows.len() ==> {
        let r = #[trigger] rows[i];
        let u = users[i];
        &&& !r.granted
        &&& if as_member {
            &&& opt_view(r.user_host) == Some(u.host@)
            &&& opt_view(r.user_name) == Some(u.name@)
            &&& r.member_host is None
            &&& r.member_name is None
        } else {
            &&& r.user_host is None
            &&& r.user_name is None
            &&& opt_view(r.member_host) == Some(u.host@)
            &&& opt_view(r.member_name) == Some(u.name@)
        }
    }
}

/// The rows of the account editor's membership tables for a new account (see `new_user_rows`).
pub fn new_user_member_rows(all_users: &Vec<User>) -> (r: (Vec<UserMember>, Vec<UserMember>))
    ensures
        new_user_rows(all_users@, r.0@, true),
        new_user_rows(all_users@, r.1@, false),
{
    let mut a: Vec<UserMember> = Vec::new();
    let mut b: Vec<UserMember> = Vec::new();
    for i in 0..all_users.len()
        invariant
            new_user_rows(all_users@.take(i as int), a@, true),
            new_user_rows(all_users@.take(i as int), b@, false),
    {
        let u = &all_users[i];
        a.push(UserMember {
            user_host: clone_user_str(&u.host),
            user_name: clone_user_str(&u.name),
            member_host: None,
            member_name: None,
            granted: false,
        });
        b.push(UserMember {
            user_host: None,
            user_name: None,
            member_host: clone_user_str(&u.host),
            member_name: clone_user_str(&u.name),
            granted: false,
        });
        assert(all_users@.take(i + 1) =~= all_users@.take(i as int).push(*u));
    }
    assert(all_users@.take(all_users@.len() as int) =~= all_users@);
    (a, b)
}

fn copy_opt(o: &Option<String>) -> (r: Option<String>)
    ensures
        r == *o,
{
    match o {
        Some(x) => Some(x.clone()),
        None => None,
    }
}

fn copy_user_member(m: &UserMember) -> (r: UserMember)
    ensures
        r == *m,
{
    UserMember {
        user_host: copy_opt(&m.user_host),
        user_name: copy_opt(&m.user_name),
        member_host: copy_opt(&m.member_host),
        member_name: copy_opt(&m.member_name),
        granted: m.granted,
    }
}

fn copy_user_members(v: &Vec<UserMember>) -> (r: Vec<UserMember>)
    ensures
        r@ == v@,
{
    let mut r: Vec<UserMember> = Vec::new();
    for i in 0..v.len()
        invariant
            r@ == v@.take(i as int),
    {
        r.push(copy_user_member(&v[i]));
        assert(r@ =~= v@.take(i + 1));
    }
    assert(v@.take(v@.len() as int) =~= v@);
    r
}

fn copy_privileges(v: &Vec<Privilege>) -> (r: Vec<Privilege>)
    ensures
        r@ == v@,
{
    let mut r: Vec<Privilege> = Vec::new();
    for i in 0..v.len()
        invariant
            r@ == v@.take(i as int),
    {
        let p = &v[i];
        r.push(Privilege { id: p.id, db: p.db.clone(), name: p.name.clone(), privs: p.privs });
        assert(r@ =~= v@.take(i + 1));
    }
    assert(v@.take(v@.len() as int) =~= v@);
    r
}

impl UserDetailComponent {
    /// An account editor that holds nothing yet: no account, empty tables and forms, and no
    /// server-wide privilege held.
    pub fn new() -> (r: UserDetailComponent)
        ensures
            r.old_user is None,
            r.member_ofs@.len() == 0 && r.old_member_ofs@.len() == 0,
            r.members@.len() == 0 && r.old_members@.len() == 0,
            r.privileges@.len() == 0 && r.old_privileges@.len() == 0,
            forall|i: int| 0 <= i < 28 ==> !#[trigger] r.srv_privs@[i],
            r.form@.len() == 0,
            r.adv_form@.len() == 0,
            r.panel == PanelKind::General,
            r.db_version == Version::Eight,
    {
        UserDetailComponent {
            old_user: None,
            member_ofs: Vec::new(),
            old_member_ofs: Vec::new(),
            members: Vec::new(),
            old_members: Vec::new(),
            srv_privs: [false; 28],
            privileges: Vec::new(),
            old_privileges: Vec::new(),
            form: FormData::new(),
            adv_form: FormData::new(),
            panel: PanelKind::General,
            db_version: Version::Eight,
        }
    }

    /// The answer to a tab key while no dialog is open: the editor moves to the panel to the
    /// right (`right`) or to the left, as the server's version has them, and changes nothing
    /// else. Moving right and then left, or the other way round, returns to the same panel
    /// (`crate::panel::mysql_user::lemma_tabs_undo_each_other`).
    pub fn handle_tab_event(&mut self, right: bool) -> (r: ComponentResult)
        ensures
            r == ComponentResult::Done,
            final(self).panel == if right {
                right_of(old(self).panel, old(self).db_version)
            } else {
                left_of(old(self).panel, old(self).db_version)
            },
            final(self).db_version == old(self).db_version,
            final(self).old_user == old(self).old_user,
            final(self).member_ofs == old(self).member_ofs,
            final(self).members == old(self).members,
            final(self).srv_privs == old(self).srv_privs,
            final(self).privileges == old(self).privileges,
            final(self).form == old(self).form,
            final(self).adv_form == old(self).adv_form,
    {
        self.panel = if right {
            tab_right(self.panel, self.db_version)
        } else {
            tab_left(self.panel, self.db_version)
        };
        ComponentResult::Done
    }

    /// Loads an existing account `user` into the editor, given what the server answered: all
    /// accounts, the role grants to `user` and its grants to others, and its table grants. The
    /// account becomes the baseline, its server-wide privileges and limits fill the editor, and
    /// on MySQL 8 the membership tables get one row per other account (see `user_member_rows`),
    /// each table its own baseline. On MySQL 5 the membership tables stay as they were.
    pub fn load_user(
        &mut self,
        version: Version,
        all_users: &Vec<User>,
        user: User,
        member_ofs: &Vec<UserMember>,
        members: &Vec<UserMember>,
        privileges: Vec<Privilege>,
    )
        requires
            version == Version::Eight ==> forall|i: int| 0 <= i < member_ofs@.len()
                ==> (#[trigger] member_ofs@[i]).member_host is Some && member_ofs@[i].member_name is Some,
            version == Version::Eight ==> forall|i: int| 0 <= i < members@.len()
                ==> (#[trigger] members@[i]).user_host is Some && members@[i].user_name is Some,
        ensures
            final(self).old_user == Some(user),
            final(self).db_version == version,
            final(self).srv_privs == user.srv_privs,
            final(self).form@ == user_general_form(user@),
            final(self).adv_form@ == user_advanced_form(user@),
            final(self).privileges == privileges,
            final(self).old_privileges@ == privileges@,
            version == Version::Eight ==> {
                &&& rows_of_users(other_users(all_users@, user@), user@,
                    exists|i: int| 0 <= i < member_ofs@.len()
                        && opt_view(#[trigger] member_ofs@[i].member_host) == Some(user.host@)
                        && opt_view(member_ofs@[i].member_name) == Some(user.name@),
                    final(self).member_ofs@, true)
                &&& rows_of_users(other_users(all_users@, user@), user@,
                    exists|i: int| 0 <= i < members@.len()
                        && opt_view(#[trigger] members@[i].user_host) == Some(user.host@)
                        && opt_view(members@[i].user_name) == Some(user.name@),
                    final(self).members@, false)
                &&& final(self).old_member_ofs@ == final(self).member_ofs@
                &&& final(self).old_members@ == final(self).members@
            },
            version == Version::Five ==> {
                &&& final(self).member_ofs == old(self).member_ofs
                &&& final(self).old_member_ofs == old(self).old_member_ofs
                &&& final(self).members == old(self).members
                &&& final(self).old_members == old(self).old_members
            },
    {
        self.db_version = version;
        if version == Version::Eight {
            let rows = user_member_rows(all_users, &user, member_ofs, members);
            self.old_member_ofs = copy_user_members(&rows.0);
            self.old_members = copy_user_members(&rows.1);
            self.member_ofs = rows.0;
            self.members = rows.1;
        }
        self.form = FormData {
            entries: vec![
                form_entry("Name", Some(user.name.clone())),
                form_entry("Host", Some(user.host.clone())),
                form_entry("Plugin", copy_opt(&user.plugin)),
                form_entry("Password", None),
                form_entry("Confirm Password", None),
            ],
        };
        assert(self.form@ =~= user_general_form(user@));
        self.adv_form = FormData {
            entries: vec![
                form_entry("Max queries per hour", copy_opt(&user.max_queries)),
                form_entry("Max updates per hour", copy_opt(&user.max_updates)),
                form_entry("Max connections per hour", copy_opt(&user.max_connections)),
                form_entry("Max user connections", copy_opt(&user.max_user_connections)),
            ],
        };
        assert(self.adv_form@ =~= user_advanced_form(user@));
        self.srv_privs = user.srv_privs;
        self.old_privileges = copy_privileges(&privileges);
        self.privileges = privileges;
        self.old_user = Some(user);
    }

    /// Prepares the editor for a new account: both forms without values and, on MySQL 8, the
    /// membership tables with one ungranted row per account (see `new_user_rows`). Everything
    /// else stays as it was.
    pub fn load_new_user(&mut self, version: Version, all_users: &Vec<User>)
        ensures
            final(self).form@ == new_user_general_form(),
            final(self).adv_form@ == new_user_advanced_form(),
            final(self).db_version == version,
            version == Version::Eight ==> new_user_rows(all_users@, final(self).member_ofs@, true)
                && new_user_rows(all_users@, final(self).members@, false),
            version == Version::Five ==> final(self).member_ofs == old(self).member_ofs
                && final(self).members == old(self).members,
            final(self).old_user == old(self).old_user,
            final(self).old_member_ofs == old(self).old_member_ofs,
            final(self).old_members == old(self).old_members,
            final(self).srv_privs == old(self).srv_privs,
            final(self).privileges == old(self).privileges,
            final(self).old_privileges == old(self).old_privileges,
    {
        self.db_version = version;
        if version == Version::Eight {
            let rows = new_user_member_rows(all_users);
            self.member_ofs = rows.0;
            self.members = rows.1;
        }
        self.form = FormData {
            entries: vec![
                form_entry("Name", None),
                form_entry("Host", None),
                form_entry("Plugin", None),
                form_entry("Password", None),
                form_entry("Confirm Password", None),
            ],
        };
        assert(self.form@ =~= new_user_general_form());
        self.adv_form = FormData {
            entries: vec![
                form_entry("Max queries per hour", None),
                form_entry("Max updates per hour", None),
                form_entry("Max connections per hour", None),
                form_entry("Max user connections", None),
            ],
        };
        assert(self.adv_form@ =~= new_user_advanced_form());
    }
}

/// Why the account editor refuses to save.
pub enum UserSaveError {
    /// The password and its confirmation differ.
    PasswordMismatch,
}

impl UserSaveError {
    /// The message shown for the error.
    pub fn message(&self) -> (r: String)
        ensures
            r@ == "Password is not same!"@,
    {
        "Password is not same!".to_owned()
    }
}

/// The statements that a save of the editor `e` runs (see `build_sql`).
pub open spec fn save_text(e: UserDetailComponent, member_ofs_ddl: Seq<Seq<char>>, members_ddl: Seq<Seq<char>>,
    privileges_ddl: Seq<Seq<char>>) -> Seq<char> {
    match e.old_user {
        Some(old) => seq_join(
            user_ddl(input_user(e.form@, e.adv_form@, e.srv_privs@), old@) + member_ofs_ddl + members_ddl
                + privileges_ddl,
            "\n"@,
        ),
        None => create_user_ddl(e.form@, e.adv_form@, e.member_ofs@, e.members@, e.srv_privs@, e.privileges@),
    }
}

impl UserDetailComponent {
    /// What a save does: refused with `PasswordMismatch` when the password and its confirmation
    /// differ, before any statement is made; otherwise the statements to run (see `build_sql`).
    pub fn save_sql(
        &self,
        member_ofs_ddl: &Vec<String>,
        members_ddl: &Vec<String>,
        privileges_ddl: &Vec<String>,
    ) -> (r: Result<String, UserSaveError>)
        requires
            self.old_user is Some ==> input_complete(self.form@, self.adv_form@),
            self.old_user is None ==> general_keys_present(self.form@) && advanced_keys_present(self.adv_form@)
                && rows_complete(self.member_ofs@, self.members@),
        ensures
            r is Err <==> lookup(self.form@, "Password"@) != lookup(self.form@, "Confirm Password"@),
            r matches Ok(s) ==> s@ == save_text(*self, views(member_ofs_ddl@), views(members_ddl@), views(privileges_ddl@)),
    {
        if !self.passwords_match() {
            return Err(UserSaveError::PasswordMismatch);
        }
        Ok(self.build_sql(member_ofs_ddl, members_ddl, privileges_ddl))
    }

    /// After a successful save: the account that the forms describe becomes the stored account,
    /// and the membership tables and table grants their own stored copies.
    pub fn accept_saved(&mut self)
        requires
            input_complete(old(self).form@, old(self).adv_form@),
        ensures
            final(self).old_user matches Some(u) && u@ == input_user(old(self).form@, old(self).adv_form@, old(self).srv_privs@),
            final(self).old_member_ofs@ == old(self).member_ofs@,
            final(self).old_members@ == old(self).members@,
            final(self).old_privileges@ == old(self).privileges@,
            final(self).member_ofs == old(self).member_ofs,
            final(self).members == old(self).members,
            final(self).privileges == old(self).privileges,
            final(self).srv_privs == old(self).srv_privs,
            final(self).form == old(self).form,
            final(self).adv_form == old(self).adv_form,
            final(self).panel == old(self).panel,
            final(self).db_version == old(self).db_version,
    {
        let u = self.get_input_user();
        self.old_user = Some(u);
        self.old_member_ofs = copy_user_members(&self.member_ofs);
        self.old_members = copy_user_members(&self.members);
        self.old_privileges = copy_privileges(&self.privileges);
    }
}

/// An account whose name or host changed is first renamed: the first statement of a save is
/// "RENAME USER `old name`@`old host` TO `new name`@`new host`"; one whose name and host stayed
/// gets no RENAME USER statement at all.
pub proof fn lemma_moved_account_is_renamed_first(user: UserView, old: UserView)
    ensures
        (user.name != old.name || user.host != old.host) ==> user_ddl(user, old).len() >= 1
            && user_ddl(user, old)[0] == "RENAME USER "@ + ("`"@ + old.name + "`@`"@ + old.host + "`"@) + " TO "@
                + ("`"@ + user.name + "`@`"@ + user.host + "`"@),
        (user.name == old.name && user.host == old.host) ==> rename_part(user, old).len() == 0
            && user_ddl(user, old) == alter_part(user, old) + grant_part(user, old) + revoke_part(user, old),
{
    let r = rename_part(user, old);
    let rest = alter_part(user, old) + grant_part(user, old) + revoke_part(user, old);
    assert(user_ddl(user, old) =~= r + rest);
    if user.name != old.name || user.host != old.host {
        assert((r + rest)[0] == r[0]);
    } else {
        assert(r + rest =~= rest);
    }
}

/// Server-wide privileges: each one newly set is named in the GRANT statement of the save, and
/// that statement names no other; each one newly cleared is named (as REVOKE writes it) in the
/// REVOKE statement, and that statement names no other.
pub proof fn lemma_privileges_granted_and_revoked(user: UserView, old: UserView)
    requires
        user.srv_privs.len() == 28,
        old.srv_privs.len() == 28,
    ensures
        grant_part(user, old).len() > 0 ==> user_ddl(user, old).contains(grant_part(user, old)[0]),
        revoke_part(user, old).len() > 0 ==> user_ddl(user, old).contains(revoke_part(user, old)[0]),
        forall|i: int| 0 <= i < 28 && user.srv_privs[i] && !old.srv_privs[i] ==>
            exists|names: Seq<Seq<char>>| #[trigger] names.contains(srv_priv_names()[i])
                && grant_part(user, old) == seq!["GRANT "@ + seq_join(names, ","@) + " ON *.* TO "@
                    + ("`"@ + user.name + "`@`"@ + user.host + "`"@) + ";"@]
                && forall|x: Seq<char>| names.contains(x) ==>
                    exists|j: int| 0 <= j < 28 && user.srv_privs[j] && !old.srv_privs[j] && srv_priv_names()[j] == x,
        forall|i: int| 0 <= i < 28 && !user.srv_privs[i] && old.srv_privs[i] ==>
            exists|names: Seq<Seq<char>>| #[trigger] names.contains(srv_priv_revoke_names()[i])
                && revoke_part(user, old) == seq!["REVOKE "@ + seq_join(names, ","@) + " ON *.* FROM "@
                    + ("`"@ + user.name + "`@`"@ + user.host + "`"@) + ";"@]
                && forall|x: Seq<char>| names.contains(x) ==>
                    exists|j: int| 0 <= j < 28 && !user.srv_privs[j] && old.srv_privs[j] && srv_priv_revoke_names()[j] == x,
{
    let gf = granted_flags(user.srv_privs, old.srv_privs);
    let rf = revoked_flags(user.srv_privs, old.srv_privs);
    let gs = selected(gf, srv_priv_names());
    let rs = selected(rf, srv_priv_revoke_names());
    crate::text::lemma_selected_members(gf, srv_priv_names());
    crate::text::lemma_selected_members(rf, srv_priv_revoke_names());
    let r = rename_part(user, old);
    let a = alter_part(user, old);
    let g = grant_part(user, old);
    let v = revoke_part(user, old);
    crate::text::lemma_concat_contains(r, a);
    crate::text::lemma_concat_contains(r + a, g);
    crate::text::lemma_concat_contains(r + a + g, v);
    if g.len() > 0 { assert(g.contains(g[0])); }
    if v.len() > 0 { assert(v.contains(v[0])); }
    assert forall|i: int| 0 <= i < 28 && user.srv_privs[i] && !old.srv_privs[i] implies
        exists|names: Seq<Seq<char>>| #[trigger] names.contains(srv_priv_names()[i])
            && grant_part(user, old) == seq!["GRANT "@ + seq_join(names, ","@) + " ON *.* TO "@
                + ("`"@ + user.name + "`@`"@ + user.host + "`"@) + ";"@]
            && forall|x: Seq<char>| names.contains(x) ==>
                exists|j: int| 0 <= j < 28 && user.srv_privs[j] && !old.srv_privs[j] && srv_priv_names()[j] == x by {
        assert(gf[i]);
        assert(gs.contains(srv_priv_names()[i]));
        assert forall|x: Seq<char>| gs.contains(x) implies
            exists|j: int| 0 <= j < 28 && user.srv_privs[j] && !old.srv_privs[j] && srv_priv_names()[j] == x by {
            let j = choose|j: int| 0 <= j < gf.len() && gf[j] && srv_priv_names()[j] == x;
            assert(user.srv_privs[j] && !old.srv_privs[j]);
        }
    }
    assert forall|i: int| 0 <= i < 28 && !user.srv_privs[i] && old.srv_privs[i] implies
        exists|names: Seq<Seq<char>>| #[trigger] names.contains(srv_priv_revoke_names()[i])
            && revoke_part(user, old) == seq!["REVOKE "@ + seq_join(names, ","@) + " ON *.* FROM "@
                + ("`"@ + user.name + "`@`"@ + user.host + "`"@) + ";"@]
            && forall|x: Seq<char>| names.contains(x) ==>
                exists|j: int| 0 <= j < 28 && !user.srv_privs[j] && old.srv_privs[j] && srv_priv_revoke_names()[j] == x by {
        assert(rf[i]);
        assert(rs.contains(srv_priv_revoke_names()[i]));
        assert forall|x: Seq<char>| rs.contains(x) implies
            exists|j: int| 0 <= j < 28 && !user.srv_privs[j] && old.srv_privs[j] && srv_priv_revoke_names()[j] == x by {
            let j = choose|j: int| 0 <= j < rf.len() && rf[j] && srv_priv_revoke_names()[j] == x;
            assert(!user.srv_privs[j] && old.srv_privs[j]);
        }
    }
}

} // verus!
