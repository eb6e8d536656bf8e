//! The lists that the main half of the screen shows for a database: its saved queries, its
//! PostgreSQL tables and views, and the accounts of a MySQL server; what a key asks of each.
use vstd::prelude::*;
use crate::app::{ComponentResult, DatabaseKind, Focus, Goto};
use crate::index::{get_table_down_index, get_table_up_index};
use crate::text::cat3;

verus! {

/// What a key asks of a list; the key bindings of the application decide which key asks what.
#[derive(PartialEq, Eq, Structural, Clone, Copy)]
pub enum ListCommand {
    Up,
    Down,
    Left,
    Confirm,
    New,
    Edit,
    Delete,
    Refresh,
    Other,
}

/// What the application does after a list has taken a command. Every action but `Answer` ends
/// with the component answering `Done`.
pub enum ListAction {
    /// Nothing more.
    Nothing,
    /// The component answers this result.
    Answer(ComponentResult),
    /// Ask to confirm the deletion of the selected row.
    ConfirmDelete,
    /// Read the rows again.
    Reload,
}

/// The selection after a command: up and down move it within the `len` rows (when there are
/// any); other commands leave it.
pub open spec fn moved(cmd: ListCommand, selected: Option<usize>, len: nat) -> Option<usize> {
    match cmd {
        ListCommand::Up => if len > 0 {
            Some(match selected { Some(i) => if i > 0 { (i - 1) as usize } else { 0 }, None => 0 })
        } else {
            selected
        },
        ListCommand::Down => if len > 0 {
            Some(match selected {
                Some(i) => if i < len - 1 { (i + 1) as usize } else { (len - 1) as usize },
                None => 0,
            })
        } else {
            selected
        },
        _ => selected,
    }
}

fn move_selection(cmd: ListCommand, selected: Option<usize>, len: usize) -> (r: Option<usize>)
    ensures
        r == moved(cmd, selected, len as nat),
{
    match cmd {
        ListCommand::Up => if len > 0 { Some(get_table_up_index(selected)) } else { selected },
        ListCommand::Down => if len > 0 { Some(get_table_down_index(selected, len)) } else { selected },
        _ => selected,
    }
}

/// Whether the selection, if any, is one of the `len` rows.
pub open spec fn in_range(selected: Option<usize>, len: nat) -> bool {
    selected matches Some(i) ==> i < len
}

/// The commands as the command bar lists them: name and what it asks.
pub open spec fn list_command_views(v: Seq<(&'static str, ListCommand)>) -> Seq<(Seq<char>, ListCommand)> {
    v.map_values(|c: (&'static str, ListCommand)| (c.0@, c.1))
}

/// The saved queries of a database.
pub struct QueryListComponent {
    pub kind: DatabaseKind,
    pub conn_id: Option<u128>,
    pub db_name: Option<String>,
    pub names: Vec<String>,
    pub selected: Option<usize>,
}

/// The query editor that the query list opens.
pub open spec fn query_goto(kind: DatabaseKind, conn_id: u128, db_name: String, query_name: Option<String>) -> Goto {
    match kind {
        DatabaseKind::MySQL => Goto::QueryDetailMySQL { conn_id, db_name, query_name },
        DatabaseKind::PostgreSQL => Goto::QueryDetailPG { conn_id, db_name, query_name },
    }
}

/// What the query list asks for a command.
pub open spec fn query_action(q: QueryListComponent, cmd: ListCommand) -> ListAction {
    match cmd {
        ListCommand::New => ListAction::Answer(ComponentResult::Goto(query_goto(q.kind, q.conn_id->0, q.db_name->0, None))),
        ListCommand::Confirm => match q.selected {
            Some(i) => ListAction::Answer(ComponentResult::Goto(
                query_goto(q.kind, q.conn_id->0, q.db_name->0, Some(q.names@[i as int])))),
            None => ListAction::Nothing,
        },
        ListCommand::Delete => if q.selected is Some { ListAction::ConfirmDelete } else { ListAction::Nothing },
        ListCommand::Left => ListAction::Answer(ComponentResult::Focus(Focus::LeftPanel)),
        ListCommand::Refresh => ListAction::Reload,
        _ => ListAction::Nothing,
    }
}

/// The commands that the query list offers.
pub open spec fn query_commands(selected: bool) -> Seq<(Seq<char>, ListCommand)> {
    seq![("Up"@, ListCommand::Up), ("Down"@, ListCommand::Down), ("New Query"@, ListCommand::New)]
        + (if selected {
            seq![("Open Query"@, ListCommand::Confirm), ("Delete Query"@, ListCommand::Delete)]
        } else {
            Seq::empty()
        })
        + seq![("To Connections"@, ListCommand::Left)]
}

impl QueryListComponent {
    /// An empty list of MySQL queries.
    pub fn new() -> (r: QueryListComponent)
        ensures
            r.kind == DatabaseKind::MySQL,
            r.conn_id is None,
            r.db_name is None,
            r.names@.len() == 0,
            r.selected is None,
    {
        QueryListComponent { kind: DatabaseKind::MySQL, conn_id: None, db_name: None, names: Vec::new(), selected: None }
    }

    /// Shows the queries `names` of the database `db_name` of the connection `conn_id`, with
    /// nothing selected.
    pub fn set_data(&mut self, conn_id: u128, db_name: String, kind: DatabaseKind, names: Vec<String>)
        ensures
            final(self).conn_id == Some(conn_id),
            final(self).db_name == Some(db_name),
            final(self).kind == kind,
            final(self).names == names,
            final(self).selected is None,
    {
        self.conn_id = Some(conn_id);
        self.db_name = Some(db_name);
        self.kind = kind;
        self.names = names;
        self.selected = None;
    }

    /// Takes a command: up and down move the selection; the rest is asked of the application
    /// (see `query_action`).
    pub fn handle_main_event(&mut self, cmd: ListCommand) -> (r: ListAction)
        requires
            in_range(old(self).selected, old(self).names@.len()),
            cmd == ListCommand::New || (cmd == ListCommand::Confirm && old(self).selected is Some)
                ==> old(self).conn_id is Some && old(self).db_name is Some,
        ensures
            r == query_action(*old(self), cmd),
            final(self).selected == moved(cmd, old(self).selected, old(self).names@.len()),
            final(self).names == old(self).names,
            final(self).kind == old(self).kind,
            final(self).conn_id == old(self).conn_id,
            final(self).db_name == old(self).db_name,
    {
        let action = match cmd {
            ListCommand::New | ListCommand::Confirm => {
                let conn_id = match self.conn_id { Some(c) => c, None => 0 };
                let db_name = match &self.db_name { Some(d) => d.clone(), None => String::new() };
                let query_name = match cmd {
                    ListCommand::Confirm => match self.selected {
                        Some(i) => Some(self.names[i].clone()),
                        None => None,
                    },
                    _ => None,
                };
                if cmd == ListCommand::Confirm && query_name.is_none() {
                    ListAction::Nothing
                } else {
                    ListAction::Answer(ComponentResult::Goto(match self.kind {
                        DatabaseKind::MySQL => Goto::QueryDetailMySQL { conn_id, db_name, query_name },
                        DatabaseKind::PostgreSQL => Goto::QueryDetailPG { conn_id, db_name, query_name },
                    }))
                }
            },
            ListCommand::Delete => if self.selected.is_some() { ListAction::ConfirmDelete } else { ListAction::Nothing },
            ListCommand::Left => ListAction::Answer(ComponentResult::Focus(Focus::LeftPanel)),
            ListCommand::Refresh => ListAction::Reload,
            _ => ListAction::Nothing,
        };
        self.selected = move_selection(cmd, self.selected, self.names.len());
        action
    }

    /// Drops the selected query from the list once it is deleted, and clears the selection.
    pub fn remove_selected(&mut self)
        requires
            in_range(old(self).selected, old(self).names@.len()),
        ensures
            final(self).selected is None,
            final(self).names@ == match old(self).selected {
                Some(i) => old(self).names@.remove(i as int),
                None => old(self).names@,
            },
    {
        if let Some(i) = self.selected {
            self.names.remove(i);
        }
        self.selected = None;
    }

    /// The commands that the list offers for the command bar (see `query_commands`).
    pub fn get_main_commands(&self) -> (r: Vec<(&'static str, ListCommand)>)
        ensures
            list_command_views(r@) == query_commands(self.selected is Some),
    {
        let mut cmds: Vec<(&'static str, ListCommand)> = Vec::new();
        cmds.push(("Up", ListCommand::Up));
        cmds.push(("Down", ListCommand::Down));
        cmds.push(("New Query", ListCommand::New));
        if self.selected.is_some() {
            cmds.push(("Open Query", ListCommand::Confirm));
            cmds.push(("Delete Query", ListCommand::Delete));
        }
        cmds.push(("To Connections", ListCommand::Left));
        assert(list_command_views(cmds@) =~= query_commands(self.selected is Some));
        cmds
    }
}

/// The tables (or views) of a PostgreSQL schema.
pub struct TableListComponent {
    pub conn_id: Option<u128>,
    pub db_name: Option<String>,
    pub schema_name: Option<String>,
    pub names: Vec<String>,
    pub selected: Option<usize>,
}

/// The views of a PostgreSQL schema.
pub struct ViewListComponent {
    pub conn_id: Option<u128>,
    pub db_name: Option<String>,
    pub schema_name: Option<String>,
    pub names: Vec<String>,
    pub selected: Option<usize>,
}

/// Whether the list knows where it is: connection, database and schema.
pub open spec fn located(conn_id: Option<u128>, db_name: Option<String>, schema_name: Option<String>) -> bool {
    conn_id is Some && db_name is Some && schema_name is Some
}

/// What a list of PostgreSQL tables (`tables`) or views asks for a command: confirm shows the
/// rows of the selected one, new and edit open its editor, delete asks to confirm.
pub open spec fn schema_list_action(tables: bool, conn_id: Option<u128>, db_name: Option<String>,
    schema_name: Option<String>, names: Seq<String>, selected: Option<usize>, cmd: ListCommand) -> ListAction {
    let (c, d, s) = (conn_id->0, db_name->0, schema_name->0);
    let editor = |name: Option<String>| if tables {
        Goto::TableDetailPG { conn_id: c, db_name: d, schema_name: s, table_name: name }
    } else {
        Goto::ViewDetailPG { conn_id: c, db_name: d, schema_name: s, view_name: name }
    };
    match cmd {
        ListCommand::Confirm => match selected {
            Some(i) => ListAction::Answer(ComponentResult::Goto(
                Goto::DataListPG { conn_id: c, db_name: d, schema_name: s, table_name: names[i as int] })),
            None => ListAction::Nothing,
        },
        ListCommand::New => ListAction::Answer(ComponentResult::Goto(editor(None))),
        ListCommand::Edit => match selected {
            Some(i) => ListAction::Answer(ComponentResult::Goto(editor(Some(names[i as int])))),
            None => ListAction::Nothing,
        },
        ListCommand::Delete => ListAction::ConfirmDelete,
        ListCommand::Left => ListAction::Answer(ComponentResult::Focus(Focus::LeftPanel)),
        ListCommand::Refresh => ListAction::Reload,
        _ => ListAction::Nothing,
    }
}

/// The commands that a list of tables or views (`noun`) offers.
pub open spec fn schema_list_commands(noun: Seq<char>, selected: bool) -> Seq<(Seq<char>, ListCommand)> {
    seq![("Up"@, ListCommand::Up), ("Down"@, ListCommand::Down), ("New "@ + noun, ListCommand::New)]
        + (if selected {
            seq![("Open "@ + noun, ListCommand::Confirm), ("Edit "@ + noun, ListCommand::Edit),
                ("Delete "@ + noun, ListCommand::Delete)]
        } else {
            Seq::empty()
        })
        + seq![("Refresh"@, ListCommand::Refresh), ("To Connections"@, ListCommand::Left)]
}

/// Whether a list may take the command: the rows it names are there, and it knows where it is
/// when the command opens something.
pub open spec fn schema_list_ready(conn_id: Option<u128>, db_name: Option<String>, schema_name: Option<String>,
    len: nat, selected: Option<usize>, cmd: ListCommand) -> bool {
    &&& in_range(selected, len)
    &&& (cmd == ListCommand::New || ((cmd == ListCommand::Confirm || cmd == ListCommand::Edit) && selected is Some))
        ==> located(conn_id, db_name, schema_name)
}

fn schema_list_event(tables: bool, conn_id: &Option<u128>, db_name: &Option<String>, schema_name: &Option<String>,
    names: &Vec<String>, selected: Option<usize>, cmd: ListCommand) -> (r: ListAction)
    requires
        schema_list_ready(*conn_id, *db_name, *schema_name, names@.len(), selected, cmd),
    ensures
        r == schema_list_action(tables, *conn_id, *db_name, *schema_name, names@, selected, cmd),
{
    let c = match conn_id { Some(c) => *c, None => 0 };
    let d = match db_name { Some(d) => d.clone(), None => String::new() };
    let s = match schema_name { Some(s) => s.clone(), None => String::new() };
    match cmd {
        ListCommand::Confirm => match selected {
            Some(i) => ListAction::Answer(ComponentResult::Goto(
                Goto::DataListPG { conn_id: c, db_name: d, schema_name: s, table_name: names[i].clone() })),
            None => ListAction::Nothing,
        },
        ListCommand::New => ListAction::Answer(ComponentResult::Goto(if tables {
            Goto::TableDetailPG { conn_id: c, db_name: d, schema_name: s, table_name: None }
        } else {
            Goto::ViewDetailPG { conn_id: c, db_name: d, schema_name: s, view_name: None }
        })),
        ListCommand::Edit => match selected {
            Some(i) => {
                let n = Some(names[i].clone());
                ListAction::Answer(ComponentResult::Goto(if tables {
                    Goto::TableDetailPG { conn_id: c, db_name: d, schema_name: s, table_name: n }
                } else {
                    Goto::ViewDetailPG { conn_id: c, db_name: d, schema_name: s, view_name: n }
                }))
            },
            None => ListAction::Nothing,
        },
        ListCommand::Delete => ListAction::ConfirmDelete,
        ListCommand::Left => ListAction::Answer(ComponentResult::Focus(Focus::LeftPanel)),
        ListCommand::Refresh => ListAction::Reload,
        _ => ListAction::Nothing,
    }
}

fn schema_list_commands_vec(tables: bool, selected: bool) -> (r: Vec<(&'static str, ListCommand)>)
    ensures
        list_command_views(r@) == schema_list_commands(if tables { "Table"@ } else { "View"@ }, selected),
{
    proof {
        reveal_strlit("Table");
        reveal_strlit("View");
        reveal_strlit("New Table");
        reveal_strlit("New View");
        reveal_strlit("Open Table");
        reveal_strlit("Open View");
        reveal_strlit("Edit Table");
        reveal_strlit("Edit View");
        reveal_strlit("Delete Table");
        reveal_strlit("Delete View");
        reveal_strlit("New ");
        reveal_strlit("Open ");
        reveal_strlit("Edit ");
        reveal_strlit("Delete ");
        assert("New "@ + "Table"@ =~= "New Table"@);
        assert("Open "@ + "Table"@ =~= "Open Table"@);
        assert("Edit "@ + "Table"@ =~= "Edit Table"@);
        assert("Delete "@ + "Table"@ =~= "Delete Table"@);
        assert("New "@ + "View"@ =~= "New View"@);
        assert("Open "@ + "View"@ =~= "Open View"@);
        assert("Edit "@ + "View"@ =~= "Edit View"@);
        assert("Delete "@ + "View"@ =~= "Delete View"@);
    }
    let mut cmds: Vec<(&'static str, ListCommand)> = Vec::new();
    cmds.push(("Up", ListCommand::Up));
    cmds.push(("Down", ListCommand::Down));
    cmds.push((if tables { "New Table" } else { "New View" }, ListCommand::New));
    if selected {
        cmds.push((if tables { "Open Table" } else { "Open View" }, ListCommand::Confirm));
        cmds.push((if tables { "Edit Table" } else { "Edit View" }, ListCommand::Edit));
        cmds.push((if tables { "Delete Table" } else { "Delete View" }, ListCommand::Delete));
    }
    cmds.push(("Refresh", ListCommand::Refresh));
    cmds.push(("To Connections", ListCommand::Left));
    assert(list_command_views(cmds@) =~= schema_list_commands(if tables { "Table"@ } else { "View"@ }, selected));
    cmds
}

impl TableListComponent {
    /// An empty list.
    pub fn new() -> (r: TableListComponent)
        ensures
            r.conn_id is None && r.db_name is None && r.schema_name is None,
            r.names@.len() == 0,
            r.selected is None,
    {
        TableListComponent { conn_id: None, db_name: None, schema_name: None, names: Vec::new(), selected: None }
    }

    /// Takes a command: up and down move the selection; the rest is asked of the application
    /// (see `schema_list_action`).
    pub fn handle_main_event(&mut self, cmd: ListCommand) -> (r: ListAction)
        requires
            schema_list_ready(old(self).conn_id, old(self).db_name, old(self).schema_name, old(self).names@.len(),
                old(self).selected, cmd),
        ensures
            r == schema_list_action(true, old(self).conn_id, old(self).db_name, old(self).schema_name,
                old(self).names@, old(self).selected, cmd),
            final(self).selected == moved(cmd, old(self).selected, old(self).names@.len()),
            final(self).names == old(self).names,
    {
        let action = schema_list_event(true, &self.conn_id, &self.db_name, &self.schema_name, &self.names,
            self.selected, cmd);
        self.selected = move_selection(cmd, self.selected, self.names.len());
        action
    }

    /// The statement that drops the selected table.
    pub fn drop_statement(&self) -> (r: Option<String>)
        requires
            in_range(self.selected, self.names@.len()),
        ensures
            match self.selected {
                Some(i) => r matches Some(s) && s@ == "DROP TABLE IF EXISTS \""@ + self.names@[i as int]@ + "\""@,
                None => r is None,
            },
    {
        match self.selected {
            Some(i) => Some(cat3("DROP TABLE IF EXISTS \"", self.names[i].as_str(), "\"")),
            None => None,
        }
    }

    /// Drops the selected table from the list once it is dropped, and clears the selection.
    pub fn remove_selected(&mut self)
        requires
            in_range(old(self).selected, old(self).names@.len()),
        ensures
            final(self).selected is None,
            final(self).names@ == match old(self).selected {
                Some(i) => old(self).names@.remove(i as int),
                None => old(self).names@,
            },
    {
        if let Some(i) = self.selected {
            self.names.remove(i);
        }
        self.selected = None;
    }

    /// The commands that the list offers for the command bar (see `schema_list_commands`).
    pub fn get_main_commands(&self) -> (r: Vec<(&'static str, ListCommand)>)
        ensures
            list_command_views(r@) == schema_list_commands("Table"@, self.selected is Some),
    {
        schema_list_commands_vec(true, self.selected.is_some())
    }
}

impl ViewListComponent {
    /// An empty list.
    pub fn new() -> (r: ViewListComponent)
        ensures
            r.conn_id is None && r.db_name is None && r.schema_name is None,
            r.names@.len() == 0,
            r.selected is None,
    {
        ViewListComponent { conn_id: None, db_name: None, schema_name: None, names: Vec::new(), selected: None }
    }

    /// Takes a command: up and down move the selection; the rest is asked of the application
    /// (see `schema_list_action`).
    pub fn handle_main_event(&mut self, cmd: ListCommand) -> (r: ListAction)
        requires
            schema_list_ready(old(self).conn_id, old(self).db_name, old(self).schema_name, old(self).names@.len(),
                old(self).selected, cmd),
        ensures
            r == schema_list_action(false, old(self).conn_id, old(self).db_name, old(self).schema_name,
                old(self).names@, old(self).selected, cmd),
            final(self).selected == moved(cmd, old(self).selected, old(self).names@.len()),
            final(self).names == old(self).names,
    {
        let action = schema_list_event(false, &self.conn_id, &self.db_name, &self.schema_name, &self.names,
            self.selected, cmd);
        self.selected = move_selection(cmd, self.selected, self.names.len());
        action
    }

    /// The statement that drops the selected view.
    pub fn drop_statement(&self) -> (r: Option<String>)
        requires
            in_range(self.selected, self.names@.len()),
        ensures
            match self.selected {
                Some(i) => r matches Some(s) && s@ == "DROP VIEW \""@ + self.names@[i as int]@ + "\""@,
                None => r is None,
            },
    {
        match self.selected {
            Some(i) => Some(cat3("DROP VIEW \"", self.names[i].as_str(), "\"")),
            None => None,
        }
    }

    /// Drops the selected view from the list once it is dropped, and clears the selection.
    pub fn remove_selected(&mut self)
        requires
            in_range(old(self).selected, old(self).names@.len()),
        ensures
            final(self).selected is None,
            final(self).names@ == match old(self).selected {
                Some(i) => old(self).names@.remove(i as int),
                None => old(self).names@,
            },
    {
        if let Some(i) = self.selected {
            self.names.remove(i);
        }
        self.selected = None;
    }

    /// The commands that the list offers for the command bar (see `schema_list_commands`).
    pub fn get_main_commands(&self) -> (r: Vec<(&'static str, ListCommand)>)
        ensures
            list_command_views(r@) == schema_list_commands("View"@, self.selected is Some),
    {
        schema_list_commands_vec(false, self.selected.is_some())
    }
}

/// The accounts of a MySQL server, each as its host and name.
pub struct UserListComponent {
    pub conn_id: Option<u128>,
    pub users: Vec<(String, String)>,
    pub selected: Option<usize>,
}

/// What the account list asks for a command: new and confirm open the account editor.
pub open spec fn user_action(l: UserListComponent, cmd: ListCommand) -> ListAction {
    match cmd {
        ListCommand::New => ListAction::Answer(ComponentResult::Goto(
            Goto::UserDetailMySQL { conn_id: l.conn_id->0, user_host: None, user_name: None })),
        ListCommand::Confirm => match l.selected {
            Some(i) => ListAction::Answer(ComponentResult::Goto(Goto::UserDetailMySQL {
                conn_id: l.conn_id->0,
                user_host: Some(l.users@[i as int].0),
                user_name: Some(l.users@[i as int].1),
            })),
            None => ListAction::Nothing,
        },
        ListCommand::Delete => ListAction::ConfirmDelete,
        ListCommand::Left => ListAction::Answer(ComponentResult::Focus(Focus::LeftPanel)),
        ListCommand::Refresh => ListAction::Reload,
        _ => ListAction::Nothing,
    }
}

/// The commands that the account list offers.
pub open spec fn user_commands(selected: bool) -> Seq<(Seq<char>, ListCommand)> {
    seq![("Up"@, ListCommand::Up), ("Down"@, ListCommand::Down), ("New User"@, ListCommand::New)]
        + (if selected {
            seq![("Open User"@, ListCommand::Confirm), ("Delete User"@, ListCommand::Delete)]
        } else {
            Seq::empty()
        })
        + seq![("To Connections"@, ListCommand::Left), ("Refresh"@, ListCommand::Refresh)]
}

impl UserListComponent {
    /// An empty list.
    pub fn new() -> (r: UserListComponent)
        ensures
            r.conn_id is None,
            r.users@.len() == 0,
            r.selected is None,
    {
        UserListComponent { conn_id: None, users: Vec::new(), selected: None }
    }

    /// Shows the accounts `users` read again from the server, with nothing selected.
    pub fn set_users(&mut self, users: Vec<(String, String)>)
        ensures
            final(self).users == users,
            final(self).selected is None,
            final(self).conn_id == old(self).conn_id,
    {
        self.users = users;
        self.selected = None;
    }

    /// Takes a command: up and down move the selection; the rest is asked of the application
    /// (see `user_action`).
    pub fn handle_main_event(&mut self, cmd: ListCommand) -> (r: ListAction)
        requires
            in_range(old(self).selected, old(self).users@.len()),
            cmd == ListCommand::New || (cmd == ListCommand::Confirm && old(self).selected is Some)
                ==> old(self).conn_id is Some,
        ensures
            r == user_action(*old(self), cmd),
            final(self).selected == moved(cmd, old(self).selected, old(self).users@.len()),
            final(self).users == old(self).users,
            final(self).conn_id == old(self).conn_id,
    {
        let c = match self.conn_id { Some(c) => c, None => 0 };
        let action = match cmd {
            ListCommand::New => ListAction::Answer(ComponentResult::Goto(
                Goto::UserDetailMySQL { conn_id: c, user_host: None, user_name: None })),
            ListCommand::Confirm => match self.selected {
                Some(i) => ListAction::Answer(ComponentResult::Goto(Goto::UserDetailMySQL {
                    conn_id: c,
                    user_host: Some(self.users[i].0.clone()),
                    user_name: Some(self.users[i].1.clone()),
                })),
                None => ListAction::Nothing,
            },
            ListCommand::Delete => ListAction::ConfirmDelete,
            ListCommand::Left => ListAction::Answer(ComponentResult::Focus(Focus::LeftPanel)),
            ListCommand::Refresh => ListAction::Reload,
            _ => ListAction::Nothing,
        };
        self.selected = move_selection(cmd, self.selected, self.users.len());
        action
    }

    /// The statement that drops the selected account.
    pub fn drop_statement(&self) -> (r: Option<String>)
        requires
            in_range(self.selected, self.users@.len()),
        ensures
            match self.selected {
                Some(i) => r matches Some(s) && s@ == "DROP USER '"@ + self.users@[i as int].1@ + "'@'"@
                    + self.users@[i as int].0@ + "'"@,
                None => r is None,
            },
    {
        match self.selected {
            Some(i) => {
                let mut s = cat3("DROP USER '", self.users[i].1.as_str(), "'@'");
                s.append(self.users[i].0.as_str());
                s.append("'");
                Some(s)
            },
            None => None,
        }
    }

    /// Drops the selected account from the list once it is dropped, and resets the selection.
    pub fn remove_selected(&mut self)
        requires
            in_range(old(self).selected, old(self).users@.len()),
        ensures
            final(self).selected is None,
            final(self).users@ == match old(self).selected {
                Some(i) => old(self).users@.remove(i as int),
                None => old(self).users@,
            },
    {
        if let Some(i) = self.selected {
            self.users.remove(i);
        }
        self.selected = None;
    }

    /// The commands that the list offers for the command bar (see `user_commands`).
    pub fn get_main_commands(&self) -> (r: Vec<(&'static str, ListCommand)>)
        ensures
            list_command_views(r@) == user_commands(self.selected is Some),
    {
        let mut cmds: Vec<(&'static str, ListCommand)> = Vec::new();
        cmds.push(("Up", ListCommand::Up));
        cmds.push(("Down", ListCommand::Down));
        cmds.push(("New User", ListCommand::New));
        if self.selected.is_some() {
            cmds.push(("Open User", ListCommand::Confirm));
            cmds.push(("Delete User", ListCommand::Delete));
        }
        cmds.push(("To Connections", ListCommand::Left));
        cmds.push(("Refresh", ListCommand::Refresh));
        assert(list_command_views(cmds@) =~= user_commands(self.selected is Some));
        cmds
    }
}

/// Moving up or down keeps a selection among the rows.
pub proof fn lemma_moves_stay_in_list(cmd: ListCommand, selected: Option<usize>, len: nat)
    requires
        in_range(selected, len),
    ensures
        in_range(moved(cmd, selected, len), len),
{
}

} // verus!
