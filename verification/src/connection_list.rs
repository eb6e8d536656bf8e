//! The tree of connections, databases, schemas and their lists that the left half of the
//! screen shows, with the items that are expanded far enough to be seen.
use vstd::prelude::*;
use crate::app::{ComponentResult, DatabaseKind, Focus, Goto};
use crate::index::{get_table_down_index, get_table_up_index};
use crate::connection::new_uuid;

verus! {

/// A saved connection in the tree.
pub struct ConnectionItem {
    pub id: u128,
    pub name: String,
    pub kind: DatabaseKind,
    pub is_collapsed: bool,
    pub is_open: bool,
}

/// A database of an opened connection.
pub struct DatabaseItem {
    pub id: u128,
    pub conn_id: u128,
    pub name: String,
    pub kind: DatabaseKind,
    pub is_collapsed: bool,
    pub is_conn_collapsed: bool,
    pub is_open: bool,
}

/// A schema of an opened PostgreSQL database.
pub struct SchemaItem {
    pub id: u128,
    pub conn_id: u128,
    pub db_id: u128,
    pub db_name: String,
    pub name: String,
    pub is_collapsed: bool,
    pub is_db_collapsed: bool,
}

/// The queries, tables or views of a database (MySQL) or of a schema (PostgreSQL).
pub struct DatabaseSubItem {
    pub conn_id: u128,
    pub db_id: u128,
    pub schema_id: Option<u128>,
    pub db_name: String,
    pub schema_name: Option<String>,
    pub kind: DatabaseKind,
    pub is_parent_collapsed: bool,
}

/// A row of the tree.
pub enum TreeItem {
    Connection(ConnectionItem),
    Database(DatabaseItem),
    Schema(SchemaItem),
    Query(DatabaseSubItem),
    Table(DatabaseSubItem),
    View(DatabaseSubItem),
}

fn opt_string(o: &Option<String>) -> (r: Option<String>)
    ensures
        r == *o,
{
    match o {
        Some(s) => Some(s.clone()),
        None => None,
    }
}

impl ConnectionItem {
    /// A copy of the item.
    pub fn duplicate(&self) -> (r: ConnectionItem)
        ensures
            r == *self,
    {
        ConnectionItem {
            id: self.id,
            name: self.name.clone(),
            kind: self.kind,
            is_collapsed: self.is_collapsed,
            is_open: self.is_open,
        }
    }
}

impl DatabaseItem {
    /// A copy of the item.
    pub fn duplicate(&self) -> (r: DatabaseItem)
        ensures
            r == *self,
    {
        DatabaseItem {
            id: self.id,
            conn_id: self.conn_id,
            name: self.name.clone(),
            kind: self.kind,
            is_collapsed: self.is_collapsed,
            is_conn_collapsed: self.is_conn_collapsed,
            is_open: self.is_open,
        }
    }
}

impl SchemaItem {
    /// A copy of the item.
    pub fn duplicate(&self) -> (r: SchemaItem)
        ensures
            r == *self,
    {
        SchemaItem {
            id: self.id,
            conn_id: self.conn_id,
            db_id: self.db_id,
            db_name: self.db_name.clone(),
            name: self.name.clone(),
            is_collapsed: self.is_collapsed,
            is_db_collapsed: self.is_db_collapsed,
        }
    }
}

impl DatabaseSubItem {
    /// A copy of the item.
    pub fn duplicate(&self) -> (r: DatabaseSubItem)
        ensures
            r == *self,
    {
        DatabaseSubItem {
            conn_id: self.conn_id,
            db_id: self.db_id,
            schema_id: self.schema_id,
            db_name: self.db_name.clone(),
            schema_name: opt_string(&self.schema_name),
            kind: self.kind,
            is_parent_collapsed: self.is_parent_collapsed,
        }
    }
}

impl TreeItem {
    /// A copy of the item.
    pub fn duplicate(&self) -> (r: TreeItem)
        ensures
            r == *self,
    {
        match self {
            TreeItem::Connection(x) => TreeItem::Connection(x.duplicate()),
            TreeItem::Database(x) => TreeItem::Database(x.duplicate()),
            TreeItem::Schema(x) => TreeItem::Schema(x.duplicate()),
            TreeItem::Query(x) => TreeItem::Query(x.duplicate()),
            TreeItem::Table(x) => TreeItem::Table(x.duplicate()),
            TreeItem::View(x) => TreeItem::View(x.duplicate()),
        }
    }
}

/// Whether the row is expanded far enough to be seen: connections always are, the rest when
/// their parent is open.
pub open spec fn visible(item: TreeItem) -> bool {
    match item {
        TreeItem::Connection(_) => true,
        TreeItem::Database(d) => !d.is_conn_collapsed,
        TreeItem::Schema(s) => !s.is_db_collapsed,
        TreeItem::Query(x) => !x.is_parent_collapsed,
        TreeItem::Table(x) => !x.is_parent_collapsed,
        TreeItem::View(x) => !x.is_parent_collapsed,
    }
}

/// Whether the row belongs to the connection `id` (the connection itself included).
pub open spec fn of_connection(item: TreeItem, id: u128) -> bool {
    match item {
        TreeItem::Connection(c) => c.id == id,
        TreeItem::Database(d) => d.conn_id == id,
        TreeItem::Schema(s) => s.conn_id == id,
        TreeItem::Query(x) => x.conn_id == id,
        TreeItem::Table(x) => x.conn_id == id,
        TreeItem::View(x) => x.conn_id == id,
    }
}

/// Whether the row belongs to the database `id` (the database itself included).
pub open spec fn of_database(item: TreeItem, id: u128) -> bool {
    match item {
        TreeItem::Connection(_) => false,
        TreeItem::Database(d) => d.id == id,
        TreeItem::Schema(s) => s.db_id == id,
        TreeItem::Query(x) => x.db_id == id,
        TreeItem::Table(x) => x.db_id == id,
        TreeItem::View(x) => x.db_id == id,
    }
}

/// Whether the row belongs to the schema `id` (the schema itself included).
pub open spec fn of_schema(item: TreeItem, id: u128) -> bool {
    match item {
        TreeItem::Connection(_) => false,
        TreeItem::Database(_) => false,
        TreeItem::Schema(s) => s.id == id,
        TreeItem::Query(x) => x.schema_id == Some(id),
        TreeItem::Table(x) => x.schema_id == Some(id),
        TreeItem::View(x) => x.schema_id == Some(id),
    }
}

/// Which rows a filter keeps.
#[derive(Clone, Copy)]
pub enum Keep {
    /// The rows that can be seen.
    Visible,
    /// The rows that do not belong to the connection.
    NotConnection(u128),
    /// The rows that do not belong to the database.
    NotDatabase(u128),
    /// The rows that do not belong to the schema.
    NotSchema(u128),
}

/// Whether the filter `k` keeps the row.
pub open spec fn keeps(k: Keep, item: TreeItem) -> bool {
    match k {
        Keep::Visible => visible(item),
        Keep::NotConnection(id) => !of_connection(item, id),
        Keep::NotDatabase(id) => !of_database(item, id),
        Keep::NotSchema(id) => !of_schema(item, id),
    }
}

/// The rows that the filter `k` keeps, in their order.
pub open spec fn kept(items: Seq<TreeItem>, k: Keep) -> Seq<TreeItem> {
    items.filter(|i: TreeItem| keeps(k, i))
}

/// The rows of the tree that can be seen, in their order.
pub open spec fn shown(items: Seq<TreeItem>) -> Seq<TreeItem> {
    kept(items, Keep::Visible)
}

fn keeps_item(k: Keep, item: &TreeItem) -> (r: bool)
    ensures
        r == keeps(k, *item),
{
    match k {
        Keep::Visible => match item {
            TreeItem::Connection(_) => true,
            TreeItem::Database(d) => !d.is_conn_collapsed,
            TreeItem::Schema(s) => !s.is_db_collapsed,
            TreeItem::Query(x) => !x.is_parent_collapsed,
            TreeItem::Table(x) => !x.is_parent_collapsed,
            TreeItem::View(x) => !x.is_parent_collapsed,
        },
        Keep::NotConnection(id) => match item {
            TreeItem::Connection(c) => c.id != id,
            TreeItem::Database(d) => d.conn_id != id,
            TreeItem::Schema(s) => s.conn_id != id,
            TreeItem::Query(x) => x.conn_id != id,
            TreeItem::Table(x) => x.conn_id != id,
            TreeItem::View(x) => x.conn_id != id,
        },
        Keep::NotDatabase(id) => match item {
            TreeItem::Connection(_) => true,
            TreeItem::Database(d) => d.id != id,
            TreeItem::Schema(s) => s.db_id != id,
            TreeItem::Query(x) => x.db_id != id,
            TreeItem::Table(x) => x.db_id != id,
            TreeItem::View(x) => x.db_id != id,
        },
        Keep::NotSchema(id) => match item {
            TreeItem::Connection(_) => true,
            TreeItem::Database(_) => true,
            TreeItem::Schema(s) => s.id != id,
            TreeItem::Query(x) => x.schema_id != Some(id),
            TreeItem::Table(x) => x.schema_id != Some(id),
            TreeItem::View(x) => x.schema_id != Some(id),
        },
    }
}

/// The rows of `items` that the filter `k` keeps.
pub fn keep_items(items: &Vec<TreeItem>, k: Keep) -> (r: Vec<TreeItem>)
    ensures
        r@ == kept(items@, k),
{
    let mut out: Vec<TreeItem> = Vec::new();
    let n = items.len();
    for i in 0..n
        invariant
            n == items@.len(),
            out@ == kept(items@.take(i as int), k),
    {
        let ghost pre = items@.take(i as int);
        assert(items@.take(i + 1) =~= pre.push(items@[i as int]));
        proof {
            pre.lemma_filter_push(items@[i as int], |x: TreeItem| keeps(k, x));
        }
        if keeps_item(k, &items[i]) {
            out.push(items[i].duplicate());
        }
    }
    assert(items@.take(n as int) =~= items@);
    out
}

/// A change that the tree makes to each of its rows that it concerns.
pub enum Change {
    /// Collapses (`true`) or expands the connection: its rows follow.
    CollapseConnection(u128, bool),
    /// Collapses (`true`) or expands the database: its rows follow.
    CollapseDatabase(u128, bool),
    /// Collapses (`true`) or expands the schema: its lists follow.
    CollapseSchema(u128, bool),
    /// Marks the connection as opened: its databases have been read.
    OpenConnection(u128),
    /// Marks the database as opened: its rows have been made.
    OpenDatabase(u128),
    /// Gives the database a new name, in its rows too.
    RenameDatabase(u128, String),
    /// Gives the schema a new name, in its lists too.
    RenameSchema(u128, String),
}

/// The connection row after the change.
pub open spec fn changed_connection(c: Change, x: ConnectionItem) -> ConnectionItem {
    match c {
        Change::CollapseConnection(id, v) => if x.id == id { ConnectionItem { is_collapsed: v, ..x } } else { x },
        Change::OpenConnection(id) => if x.id == id { ConnectionItem { is_open: true, ..x } } else { x },
        _ => x,
    }
}

/// The database row after the change.
pub open spec fn changed_database(c: Change, x: DatabaseItem) -> DatabaseItem {
    match c {
        Change::CollapseConnection(id, v) => if x.conn_id == id {
            DatabaseItem { is_conn_collapsed: v, is_collapsed: v || x.is_collapsed, ..x }
        } else { x },
        Change::CollapseDatabase(id, v) => if x.id == id { DatabaseItem { is_collapsed: v, ..x } } else { x },
        Change::OpenDatabase(id) => if x.id == id { DatabaseItem { is_open: true, ..x } } else { x },
        Change::RenameDatabase(id, n) => if x.id == id { DatabaseItem { name: n, ..x } } else { x },
        _ => x,
    }
}

/// The schema row after the change.
pub open spec fn changed_schema(c: Change, x: SchemaItem) -> SchemaItem {
    match c {
        Change::CollapseConnection(id, v) => if x.conn_id == id && v {
            SchemaItem { is_db_collapsed: true, is_collapsed: true, ..x }
        } else { x },
        Change::CollapseDatabase(id, v) => if x.db_id == id {
            SchemaItem { is_db_collapsed: v, is_collapsed: v || x.is_collapsed, ..x }
        } else { x },
        Change::CollapseSchema(id, v) => if x.id == id { SchemaItem { is_collapsed: v, ..x } } else { x },
        Change::RenameDatabase(id, n) => if x.db_id == id { SchemaItem { db_name: n, ..x } } else { x },
        Change::RenameSchema(id, n) => if x.id == id { SchemaItem { name: n, ..x } } else { x },
        _ => x,
    }
}

/// The row of queries, tables or views after the change.
pub open spec fn changed_sub(c: Change, x: DatabaseSubItem) -> DatabaseSubItem {
    match c {
        Change::CollapseConnection(id, v) => if x.conn_id == id && v {
            DatabaseSubItem { is_parent_collapsed: true, ..x }
        } else { x },
        Change::CollapseDatabase(id, v) => if x.db_id == id {
            DatabaseSubItem {
                is_parent_collapsed: if x.schema_name is None { v } else { v || x.is_parent_collapsed },
                ..x
            }
        } else { x },
        Change::CollapseSchema(id, v) => if x.schema_id == Some(id) {
            DatabaseSubItem { is_parent_collapsed: v, ..x }
        } else { x },
        Change::RenameDatabase(id, n) => if x.db_id == id { DatabaseSubItem { db_name: n, ..x } } else { x },
        Change::RenameSchema(id, n) => if x.schema_id == Some(id) {
            DatabaseSubItem { schema_name: Some(n), ..x }
        } else { x },
        _ => x,
    }
}

/// The row after the change.
pub open spec fn changed(c: Change, item: TreeItem) -> TreeItem {
    match item {
        TreeItem::Connection(x) => TreeItem::Connection(changed_connection(c, x)),
        TreeItem::Database(x) => TreeItem::Database(changed_database(c, x)),
        TreeItem::Schema(x) => TreeItem::Schema(changed_schema(c, x)),
        TreeItem::Query(x) => TreeItem::Query(changed_sub(c, x)),
        TreeItem::Table(x) => TreeItem::Table(changed_sub(c, x)),
        TreeItem::View(x) => TreeItem::View(changed_sub(c, x)),
    }
}

/// Every row after the change.
pub open spec fn changed_all(items: Seq<TreeItem>, c: Change) -> Seq<TreeItem> {
    items.map_values(|i: TreeItem| changed(c, i))
}

fn change_connection(c: &Change, x: &ConnectionItem) -> (r: ConnectionItem)
    ensures
        r == changed_connection(*c, *x),
{
    let mut y = x.duplicate();
    match c {
        Change::CollapseConnection(id, v) => if x.id == *id { y.is_collapsed = *v; },
        Change::OpenConnection(id) => if x.id == *id { y.is_open = true; },
        _ => {},
    }
    y
}

fn change_database(c: &Change, x: &DatabaseItem) -> (r: DatabaseItem)
    ensures
        r == changed_database(*c, *x),
{
    let mut y = x.duplicate();
    match c {
        Change::CollapseConnection(id, v) => if x.conn_id == *id {
            y.is_conn_collapsed = *v;
            if *v {
                y.is_collapsed = true;
            }
        },
        Change::CollapseDatabase(id, v) => if x.id == *id { y.is_collapsed = *v; },
        Change::OpenDatabase(id) => if x.id == *id { y.is_open = true; },
        Change::RenameDatabase(id, n) => if x.id == *id { y.name = n.clone(); },
        _ => {},
    }
    y
}

fn change_schema(c: &Change, x: &SchemaItem) -> (r: SchemaItem)
    ensures
        r == changed_schema(*c, *x),
{
    let mut y = x.duplicate();
    match c {
        Change::CollapseConnection(id, v) => if x.conn_id == *id && *v {
            y.is_db_collapsed = true;
            y.is_collapsed = true;
        },
        Change::CollapseDatabase(id, v) => if x.db_id == *id {
            y.is_db_collapsed = *v;
            if *v {
                y.is_collapsed = true;
            }
        },
        Change::CollapseSchema(id, v) => if x.id == *id { y.is_collapsed = *v; },
        Change::RenameDatabase(id, n) => if x.db_id == *id { y.db_name = n.clone(); },
        Change::RenameSchema(id, n) => if x.id == *id { y.name = n.clone(); },
        _ => {},
    }
    y
}

fn change_sub(c: &Change, x: &DatabaseSubItem) -> (r: DatabaseSubItem)
    ensures
        r == changed_sub(*c, *x),
{
    let mut y = x.duplicate();
    match c {
        Change::CollapseConnection(id, v) => if x.conn_id == *id && *v { y.is_parent_collapsed = true; },
        Change::CollapseDatabase(id, v) => if x.db_id == *id {
            if x.schema_name.is_none() {
                y.is_parent_collapsed = *v;
            } else if *v {
                y.is_parent_collapsed = true;
            }
        },
        Change::CollapseSchema(id, v) => if x.schema_id == Some(*id) { y.is_parent_collapsed = *v; },
        Change::RenameDatabase(id, n) => if x.db_id == *id { y.db_name = n.clone(); },
        Change::RenameSchema(id, n) => if x.schema_id == Some(*id) { y.schema_name = Some(n.clone()); },
        _ => {},
    }
    y
}

fn change_item(c: &Change, item: &TreeItem) -> (r: TreeItem)
    ensures
        r == changed(*c, *item),
{
    match item {
        TreeItem::Connection(x) => TreeItem::Connection(change_connection(c, x)),
        TreeItem::Database(x) => TreeItem::Database(change_database(c, x)),
        TreeItem::Schema(x) => TreeItem::Schema(change_schema(c, x)),
        TreeItem::Query(x) => TreeItem::Query(change_sub(c, x)),
        TreeItem::Table(x) => TreeItem::Table(change_sub(c, x)),
        TreeItem::View(x) => TreeItem::View(change_sub(c, x)),
    }
}

/// Makes the change to every row of `items`.
pub fn change_items(items: &mut Vec<TreeItem>, c: &Change)
    ensures
        final(items)@ == changed_all(old(items)@, *c),
{
    let ghost before = items@;
    let n = items.len();
    for i in 0..n
        invariant
            items@.len() == n,
            before.len() == n,
            forall|j: int| 0 <= j < i ==> items@[j] == changed(*c, before[j]),
            forall|j: int| i <= j < n ==> items@[j] == before[j],
    {
        let item = change_item(c, &items[i]);
        items.set(i, item);
    }
    assert(items@ =~= changed_all(before, *c));
}

/// How a row is found: the connection or the database of that id.
#[derive(Clone, Copy)]
pub enum ItemKey {
    Connection(u128),
    Database(u128),
}

/// Whether the row is the one that `key` names.
pub open spec fn has_key(item: TreeItem, key: ItemKey) -> bool {
    match key {
        ItemKey::Connection(id) => item matches TreeItem::Connection(c) && c.id == id,
        ItemKey::Database(id) => item matches TreeItem::Database(d) && d.id == id,
    }
}

/// Whether some row of `items` is the one that `key` names.
pub open spec fn has_item(items: Seq<TreeItem>, key: ItemKey) -> bool {
    exists|t: int| 0 <= t < items.len() && has_key(#[trigger] items[t], key)
}

/// Whether `t` is the first row of `items` that `key` names.
pub open spec fn first_match(items: Seq<TreeItem>, key: ItemKey, t: int) -> bool {
    &&& 0 <= t < items.len()
    &&& has_key(items[t], key)
    &&& forall|j: int| 0 <= j < t ==> !has_key(#[trigger] items[j], key)
}

/// The index of the first row of `items` that `key` names (when there is one).
pub open spec fn first_position(items: Seq<TreeItem>, key: ItemKey) -> int {
    choose|t: int| first_match(items, key, t)
}

/// `items` with `new` put right after the row at `at`.
pub open spec fn inserted_after(items: Seq<TreeItem>, at: int, new: Seq<TreeItem>) -> Seq<TreeItem> {
    items.take(at + 1) + new + items.skip(at + 1)
}

/// The first row that `key` names is the first position.
pub proof fn lemma_first_position(items: Seq<TreeItem>, key: ItemKey, t: int)
    requires
        first_match(items, key, t),
    ensures
        first_position(items, key) == t,
{
    let u = first_position(items, key);
    assert(first_match(items, key, u));
    if u < t {
        assert(!has_key(items[u], key));
    }
    if t < u {
        assert(!has_key(items[t], key));
    }
}

/// A change to every row keeps which rows the keys name.
pub proof fn lemma_changed_keeps_keys(items: Seq<TreeItem>, c: Change, key: ItemKey)
    ensures
        forall|j: int| 0 <= j < items.len() ==>
            has_key(#[trigger] changed_all(items, c)[j], key) == has_key(items[j], key),
        has_item(items, key) ==> has_item(changed_all(items, c), key),
        has_item(items, key) ==> first_position(changed_all(items, c), key) == first_position(items, key),
{
    let ch = changed_all(items, c);
    assert forall|j: int| 0 <= j < items.len() implies has_key(#[trigger] ch[j], key) == has_key(items[j], key) by {
    }
    if has_item(items, key) {
        let w = choose|t: int| 0 <= t < items.len() && has_key(#[trigger] items[t], key);
        assert(has_key(ch[w], key));
        let t = find_first(items, key, w);
        lemma_first_position(items, key, t);
        assert(first_match(ch, key, t));
        lemma_first_position(ch, key, t);
    }
}

/// Some row is the first one that `key` names, at or before `w`.
pub proof fn find_first(items: Seq<TreeItem>, key: ItemKey, w: int) -> (t: int)
    requires
        0 <= w < items.len(),
        has_key(items[w], key),
    ensures
        first_match(items, key, t),
    decreases w,
{
    if exists|j: int| 0 <= j < w && has_key(#[trigger] items[j], key) {
        let j = choose|j: int| 0 <= j < w && has_key(#[trigger] items[j], key);
        find_first(items, key, j)
    } else {
        w
    }
}

fn key_matches(item: &TreeItem, key: ItemKey) -> (r: bool)
    ensures
        r == has_key(*item, key),
{
    match key {
        ItemKey::Connection(id) => match item {
            TreeItem::Connection(c) => c.id == id,
            _ => false,
        },
        ItemKey::Database(id) => match item {
            TreeItem::Database(d) => d.id == id,
            _ => false,
        },
    }
}

/// The index of the first row of `items` that `key` names, if there is one.
pub fn find_item(items: &Vec<TreeItem>, key: ItemKey) -> (r: Option<usize>)
    ensures
        match r {
            Some(t) => first_match(items@, key, t as int) && t == first_position(items@, key),
            None => !has_item(items@, key),
        },
{
    let n = items.len();
    let mut i: usize = 0;
    while i < n
        invariant
            n == items@.len(),
            i <= n,
            forall|j: int| 0 <= j < i ==> !has_key(#[trigger] items@[j], key),
        decreases n - i,
    {
        if key_matches(&items[i], key) {
            proof {
                lemma_first_position(items@, key, i as int);
            }
            return Some(i);
        }
        i = i + 1;
    }
    None
}

/// Puts copies of `new` right after the row at `at`.
pub fn insert_after(items: &mut Vec<TreeItem>, at: usize, new: &Vec<TreeItem>)
    requires
        at < old(items)@.len(),
    ensures
        final(items)@ == inserted_after(old(items)@, at as int, new@),
{
    let ghost before = items@;
    let n = items.len();
    let m = new.len();
    let mut out: Vec<TreeItem> = Vec::new();
    for j in 0..at + 1
        invariant
            at < n,
            n == items@.len(),
            before == items@,
            out@ == before.take(j as int),
    {
        assert(before.take(j + 1) =~= before.take(j as int).push(before[j as int]));
        out.push(items[j].duplicate());
    }
    for k in 0..m
        invariant
            m == new@.len(),
            out@ == before.take(at + 1) + new@.take(k as int),
    {
        assert(new@.take(k + 1) =~= new@.take(k as int).push(new@[k as int]));
        out.push(new[k].duplicate());
    }
    assert(new@.take(m as int) =~= new@);
    let ghost head = before.take(at + 1) + new@;
    for j in at + 1..n
        invariant
            at < n,
            n == items@.len(),
            before == items@,
            out@ == head + before.subrange(at + 1, j as int),
    {
        assert(before.subrange(at + 1, j + 1) =~= before.subrange(at + 1, j as int).push(before[j as int]));
        out.push(items[j].duplicate());
    }
    assert(before.subrange(at + 1, n as int) =~= before.skip(at + 1));
    *items = out;
}

/// A connection row as the tree makes it for a saved connection: collapsed, not yet opened.
pub open spec fn connection_entry(id: u128, name: String, kind: DatabaseKind) -> TreeItem {
    TreeItem::Connection(ConnectionItem { id, name, kind, is_collapsed: true, is_open: false })
}

/// A database row as the tree makes it: collapsed, not yet opened.
pub open spec fn database_entry(id: u128, conn_id: u128, name: String, kind: DatabaseKind, conn_collapsed: bool) -> TreeItem {
    TreeItem::Database(DatabaseItem {
        id,
        conn_id,
        name,
        kind,
        is_collapsed: true,
        is_conn_collapsed: conn_collapsed,
        is_open: false,
    })
}

/// The rows of the databases `names` read for the opened connection, with their ids.
pub open spec fn database_entries(ids: Seq<u128>, conn: ConnectionItem, names: Seq<String>) -> Seq<TreeItem> {
    Seq::new(names.len(), |j: int| database_entry(ids[j], conn.id, names[j], conn.kind, false))
}

/// A list row (queries, tables or views) of a database or a schema.
pub open spec fn sub_entry(db: DatabaseItem, kind: DatabaseKind, schema_id: Option<u128>,
    schema_name: Option<String>, collapsed: bool) -> DatabaseSubItem {
    DatabaseSubItem {
        conn_id: db.conn_id,
        db_id: db.id,
        schema_id,
        db_name: db.name,
        schema_name,
        kind,
        is_parent_collapsed: collapsed,
    }
}

/// The rows of a MySQL database when it is opened: its queries, tables and views, shown.
pub open spec fn mysql_database_rows(db: DatabaseItem) -> Seq<TreeItem> {
    let x = sub_entry(db, DatabaseKind::MySQL, None, None, false);
    seq![TreeItem::Query(x), TreeItem::Table(x), TreeItem::View(x)]
}

/// The rows of a PostgreSQL schema: the schema (collapsed) and its queries, tables and views.
pub open spec fn schema_rows(id: u128, db: DatabaseItem, name: String, db_collapsed: bool) -> Seq<TreeItem> {
    let x = sub_entry(db, DatabaseKind::PostgreSQL, Some(id), Some(name), true);
    seq![
        TreeItem::Schema(SchemaItem {
            id,
            conn_id: db.conn_id,
            db_id: db.id,
            db_name: db.name,
            name,
            is_collapsed: true,
            is_db_collapsed: db_collapsed,
        }),
        TreeItem::Query(x),
        TreeItem::Table(x),
        TreeItem::View(x),
    ]
}

/// The rows of the schemas `names` read for the opened PostgreSQL database, with their ids.
pub open spec fn schemas_rows(ids: Seq<u128>, db: DatabaseItem, names: Seq<String>) -> Seq<TreeItem>
    decreases names.len(),
{
    if names.len() == 0 {
        Seq::empty()
    } else {
        schemas_rows(ids.drop_last(), db, names.drop_last()) + schema_rows(ids.last(), db, names.last(), false)
    }
}

fn mysql_rows(db: &DatabaseItem) -> (r: Vec<TreeItem>)
    ensures
        r@ == mysql_database_rows(*db),
{
    let mut out: Vec<TreeItem> = Vec::new();
    out.push(TreeItem::Query(DatabaseSubItem {
        conn_id: db.conn_id,
        db_id: db.id,
        schema_id: None,
        db_name: db.name.clone(),
        schema_name: None,
        kind: DatabaseKind::MySQL,
        is_parent_collapsed: false,
    }));
    out.push(TreeItem::Table(DatabaseSubItem {
        conn_id: db.conn_id,
        db_id: db.id,
        schema_id: None,
        db_name: db.name.clone(),
        schema_name: None,
        kind: DatabaseKind::MySQL,
        is_parent_collapsed: false,
    }));
    out.push(TreeItem::View(DatabaseSubItem {
        conn_id: db.conn_id,
        db_id: db.id,
        schema_id: None,
        db_name: db.name.clone(),
        schema_name: None,
        kind: DatabaseKind::MySQL,
        is_parent_collapsed: false,
    }));
    assert(out@ =~= mysql_database_rows(*db));
    out
}

fn pg_sub(db: &DatabaseItem, id: u128, name: &String) -> (r: DatabaseSubItem)
    ensures
        r == sub_entry(*db, DatabaseKind::PostgreSQL, Some(id), Some(*name), true),
{
    DatabaseSubItem {
        conn_id: db.conn_id,
        db_id: db.id,
        schema_id: Some(id),
        db_name: db.name.clone(),
        schema_name: Some(name.clone()),
        kind: DatabaseKind::PostgreSQL,
        is_parent_collapsed: true,
    }
}

fn push_schema_rows(out: &mut Vec<TreeItem>, id: u128, db: &DatabaseItem, name: &String, db_collapsed: bool)
    ensures
        final(out)@ == old(out)@ + schema_rows(id, *db, *name, db_collapsed),
{
    out.push(TreeItem::Schema(SchemaItem {
        id,
        conn_id: db.conn_id,
        db_id: db.id,
        db_name: db.name.clone(),
        name: name.clone(),
        is_collapsed: true,
        is_db_collapsed: db_collapsed,
    }));
    out.push(TreeItem::Query(pg_sub(db, id, name)));
    out.push(TreeItem::Table(pg_sub(db, id, name)));
    out.push(TreeItem::View(pg_sub(db, id, name)));
    assert(final(out)@ =~= old(out)@ + schema_rows(id, *db, *name, db_collapsed));
}

fn new_database_rows(conn: &ConnectionItem, names: &Vec<String>) -> (r: Vec<TreeItem>)
    ensures
        exists|ids: Seq<u128>| ids.len() == names@.len() && r@ == database_entries(ids, *conn, names@),
{
    let mut out: Vec<TreeItem> = Vec::new();
    let ghost mut ids: Seq<u128> = Seq::empty();
    let n = names.len();
    for k in 0..n
        invariant
            n == names@.len(),
            ids.len() == k,
            out@ == database_entries(ids, *conn, names@.take(k as int)),
    {
        let id = new_uuid();
        out.push(TreeItem::Database(DatabaseItem {
            id,
            conn_id: conn.id,
            name: names[k].clone(),
            kind: conn.kind,
            is_collapsed: true,
            is_conn_collapsed: false,
            is_open: false,
        }));
        proof {
            ids = ids.push(id);
        }
        assert(out@ =~= database_entries(ids, *conn, names@.take(k + 1)));
    }
    assert(names@.take(n as int) =~= names@);
    out
}

fn new_schemas_rows(db: &DatabaseItem, names: &Vec<String>) -> (r: Vec<TreeItem>)
    ensures
        exists|ids: Seq<u128>| ids.len() == names@.len() && r@ == schemas_rows(ids, *db, names@),
{
    let mut out: Vec<TreeItem> = Vec::new();
    let ghost mut ids: Seq<u128> = Seq::empty();
    let n = names.len();
    for k in 0..n
        invariant
            n == names@.len(),
            ids.len() == k,
            out@ == schemas_rows(ids, *db, names@.take(k as int)),
    {
        let id = new_uuid();
        push_schema_rows(&mut out, id, db, &names[k], false);
        proof {
            let pre = names@.take(k as int);
            let next = names@.take(k + 1);
            assert(next.drop_last() =~= pre);
            assert(ids.push(id).drop_last() =~= ids);
            ids = ids.push(id);
        }
    }
    assert(names@.take(n as int) =~= names@);
    out
}

/// The tree once the connection `conn` is expanded and opened: its databases `names` (with
/// the ids `ids`) come right after it.
pub open spec fn opened_connection(items: Seq<TreeItem>, conn: ConnectionItem, ids: Seq<u128>, names: Seq<String>) -> Seq<TreeItem> {
    let flagged = changed_all(items, Change::CollapseConnection(conn.id, false));
    changed_all(
        inserted_after(flagged, first_position(items, ItemKey::Connection(conn.id)), database_entries(ids, conn, names)),
        Change::OpenConnection(conn.id),
    )
}

/// The tree once the database `db` is expanded and opened: the rows `children` come right
/// after it.
pub open spec fn opened_database(items: Seq<TreeItem>, db: DatabaseItem, children: Seq<TreeItem>) -> Seq<TreeItem> {
    let flagged = changed_all(items, Change::CollapseDatabase(db.id, false));
    changed_all(
        inserted_after(flagged, first_position(items, ItemKey::Database(db.id)), children),
        Change::OpenDatabase(db.id),
    )
}

/// Whether the selection, if any, is a shown row.
pub open spec fn selection_in_range(selected: Option<usize>, show: Seq<TreeItem>) -> bool {
    selected matches Some(i) ==> i < show.len()
}

/// The tree of connections that the left half of the screen shows: every row, the rows shown,
/// and the index of the selected shown row.
pub struct ConnectionListComponent {
    pub tree_items: Vec<TreeItem>,
    pub show_items: Vec<TreeItem>,
    pub selected: Option<usize>,
}

impl ConnectionListComponent {
    /// A tree of the saved connections `conns` (id, name, kind), all collapsed; nothing selected.
    pub fn new(conns: &Vec<(u128, String, DatabaseKind)>) -> (r: ConnectionListComponent)
        ensures
            r.tree_items@ == conns@.map_values(|c: (u128, String, DatabaseKind)| connection_entry(c.0, c.1, c.2)),
            r.show_items@ == r.tree_items@,
            r.selected is None,
    {
        let mut tree: Vec<TreeItem> = Vec::new();
        let mut show: Vec<TreeItem> = Vec::new();
        let n = conns.len();
        for k in 0..n
            invariant
                n == conns@.len(),
                tree@ == conns@.take(k as int).map_values(|c: (u128, String, DatabaseKind)| connection_entry(c.0, c.1, c.2)),
                show@ == tree@,
        {
            let c = &conns[k];
            tree.push(TreeItem::Connection(ConnectionItem {
                id: c.0,
                name: c.1.clone(),
                kind: c.2,
                is_collapsed: true,
                is_open: false,
            }));
            show.push(TreeItem::Connection(ConnectionItem {
                id: c.0,
                name: c.1.clone(),
                kind: c.2,
                is_collapsed: true,
                is_open: false,
            }));
            assert(tree@ =~= conns@.take(k + 1).map_values(|c: (u128, String, DatabaseKind)| connection_entry(c.0, c.1, c.2)));
        }
        assert(conns@.take(n as int) =~= conns@);
        ConnectionListComponent { tree_items: tree, show_items: show, selected: None }
    }

    /// Collapses (`true`) or expands the connection. Expanding a connection not yet opened
    /// puts its databases `databases` (read from the server) right after it and marks it
    /// opened; otherwise `databases` is not used. The shown rows are then those of the tree
    /// that can be seen.
    pub fn set_conn_items_collapsed(&mut self, conn_item: &ConnectionItem, is_collapsed: bool, databases: &Vec<String>)
        requires
            !is_collapsed && !conn_item.is_open ==> has_item(old(self).tree_items@, ItemKey::Connection(conn_item.id)),
        ensures
            final(self).selected == old(self).selected,
            final(self).show_items@ == shown(final(self).tree_items@),
            is_collapsed || conn_item.is_open ==> final(self).tree_items@
                == changed_all(old(self).tree_items@, Change::CollapseConnection(conn_item.id, is_collapsed)),
            !is_collapsed && !conn_item.is_open ==> exists|ids: Seq<u128>| ids.len() == databases@.len()
                && final(self).tree_items@ == opened_connection(old(self).tree_items@, *conn_item, ids, databases@),
    {
        let ghost before = self.tree_items@;
        change_items(&mut self.tree_items, &Change::CollapseConnection(conn_item.id, is_collapsed));
        if !is_collapsed && !conn_item.is_open {
            let rows = new_database_rows(conn_item, databases);
            proof {
                lemma_changed_keeps_keys(before, Change::CollapseConnection(conn_item.id, is_collapsed), ItemKey::Connection(conn_item.id));
            }
            let found = find_item(&self.tree_items, ItemKey::Connection(conn_item.id));
            if let Some(t) = found {
                insert_after(&mut self.tree_items, t, &rows);
            }
            change_items(&mut self.tree_items, &Change::OpenConnection(conn_item.id));
            proof {
                let ids = choose|ids: Seq<u128>| ids.len() == databases@.len()
                    && rows@ == database_entries(ids, *conn_item, databases@);
                assert(self.tree_items@ == opened_connection(before, *conn_item, ids, databases@));
            }
        }
        self.show_items = keep_items(&self.tree_items, Keep::Visible);
    }

    /// Collapses (`true`) or expands the database. Expanding a database not yet opened puts
    /// its rows right after it and marks it opened: for MySQL its queries, tables and views;
    /// for PostgreSQL its schemas `schemas` (read from the server), each with its lists.
    /// Otherwise `schemas` is not used. The shown rows are then those that can be seen.
    pub fn set_db_items_collapsed(&mut self, db_item: &DatabaseItem, is_collapsed: bool, schemas: &Vec<String>)
        requires
            !is_collapsed && !db_item.is_open ==> has_item(old(self).tree_items@, ItemKey::Database(db_item.id)),
        ensures
            final(self).selected == old(self).selected,
            final(self).show_items@ == shown(final(self).tree_items@),
            is_collapsed || db_item.is_open ==> final(self).tree_items@
                == changed_all(old(self).tree_items@, Change::CollapseDatabase(db_item.id, is_collapsed)),
            !is_collapsed && !db_item.is_open && db_item.kind == DatabaseKind::MySQL ==> final(self).tree_items@
                == opened_database(old(self).tree_items@, *db_item, mysql_database_rows(*db_item)),
            !is_collapsed && !db_item.is_open && db_item.kind == DatabaseKind::PostgreSQL ==>
                exists|ids: Seq<u128>| ids.len() == schemas@.len() && final(self).tree_items@
                    == opened_database(old(self).tree_items@, *db_item, schemas_rows(ids, *db_item, schemas@)),
    {
        let ghost before = self.tree_items@;
        change_items(&mut self.tree_items, &Change::CollapseDatabase(db_item.id, is_collapsed));
        if !is_collapsed && !db_item.is_open {
            let rows = match db_item.kind {
                DatabaseKind::MySQL => mysql_rows(db_item),
                DatabaseKind::PostgreSQL => new_schemas_rows(db_item, schemas),
            };
            proof {
                lemma_changed_keeps_keys(before, Change::CollapseDatabase(db_item.id, is_collapsed), ItemKey::Database(db_item.id));
            }
            let found = find_item(&self.tree_items, ItemKey::Database(db_item.id));
            if let Some(t) = found {
                insert_after(&mut self.tree_items, t, &rows);
            }
            change_items(&mut self.tree_items, &Change::OpenDatabase(db_item.id));
        }
        self.show_items = keep_items(&self.tree_items, Keep::Visible);
    }

    /// Collapses (`true`) or expands the schema; the shown rows are then those that can be seen.
    pub fn set_schema_items_collapsed(&mut self, schema_item: &SchemaItem, is_collapsed: bool)
        ensures
            final(self).selected == old(self).selected,
            final(self).tree_items@ == changed_all(old(self).tree_items@, Change::CollapseSchema(schema_item.id, is_collapsed)),
            final(self).show_items@ == shown(final(self).tree_items@),
    {
        change_items(&mut self.tree_items, &Change::CollapseSchema(schema_item.id, is_collapsed));
        self.show_items = keep_items(&self.tree_items, Keep::Visible);
    }
}

/// The selected shown row, if any.
pub open spec fn selected_row(selected: Option<usize>, show: Seq<TreeItem>) -> Option<TreeItem> {
    match selected {
        Some(i) => Some(show[i as int]),
        None => None,
    }
}

/// The connection row with its name changed to `name` (other rows as they are).
pub open spec fn renamed_connection(item: TreeItem, name: String) -> TreeItem {
    match item {
        TreeItem::Connection(c) => TreeItem::Connection(ConnectionItem { name, ..c }),
        _ => item,
    }
}

/// Whether the row is a connection named `name`.
pub open spec fn connection_named(item: TreeItem, name: Seq<char>) -> bool {
    item matches TreeItem::Connection(c) && c.name@ == name
}

fn rename_connection_row(item: &TreeItem, name: &String) -> (r: TreeItem)
    ensures
        r == renamed_connection(*item, *name),
{
    match item {
        TreeItem::Connection(c) => {
            let mut y = c.duplicate();
            y.name = name.clone();
            TreeItem::Connection(y)
        },
        _ => item.duplicate(),
    }
}

fn selected_connection(show: &Vec<TreeItem>, selected: Option<usize>) -> (r: Option<ConnectionItem>)
    requires
        selection_in_range(selected, show@),
    ensures
        match selected_row(selected, show@) {
            Some(TreeItem::Connection(c)) => r == Some(c),
            _ => r is None,
        },
{
    match selected {
        Some(i) => match &show[i] {
            TreeItem::Connection(c) => Some(c.duplicate()),
            _ => None,
        },
        None => None,
    }
}

fn selected_database(show: &Vec<TreeItem>, selected: Option<usize>) -> (r: Option<DatabaseItem>)
    requires
        selection_in_range(selected, show@),
    ensures
        match selected_row(selected, show@) {
            Some(TreeItem::Database(d)) => r == Some(d),
            _ => r is None,
        },
{
    match selected {
        Some(i) => match &show[i] {
            TreeItem::Database(d) => Some(d.duplicate()),
            _ => None,
        },
        None => None,
    }
}

impl ConnectionListComponent {
    /// Puts a new database `name` of kind `kind` (with a fresh id) right after the selected
    /// connection, in the tree and in the shown rows; it is collapsed, and seen as the
    /// connection is. Nothing changes when no connection is selected.
    pub fn add_database_item(&mut self, name: String, kind: DatabaseKind)
        requires
            selection_in_range(old(self).selected, old(self).show_items@),
            selected_row(old(self).selected, old(self).show_items@) matches Some(TreeItem::Connection(c))
                ==> has_item(old(self).tree_items@, ItemKey::Connection(c.id)),
        ensures
            final(self).selected == old(self).selected,
            match selected_row(old(self).selected, old(self).show_items@) {
                Some(TreeItem::Connection(c)) => exists|id: u128|
                    final(self).tree_items@ == inserted_after(old(self).tree_items@,
                        first_position(old(self).tree_items@, ItemKey::Connection(c.id)),
                        seq![#[trigger] database_entry(id, c.id, name, kind, c.is_collapsed)])
                    && final(self).show_items@ == inserted_after(old(self).show_items@, old(self).selected->0 as int,
                        seq![database_entry(id, c.id, name, kind, c.is_collapsed)]),
                _ => final(self).tree_items@ == old(self).tree_items@ && final(self).show_items@ == old(self).show_items@,
            },
    {
        let sel = self.selected;
        if let Some(conn) = selected_connection(&self.show_items, sel) {
            let show_index = sel.unwrap();
            if let Some(t) = find_item(&self.tree_items, ItemKey::Connection(conn.id)) {
                let id = new_uuid();
                let mut rows: Vec<TreeItem> = Vec::new();
                rows.push(TreeItem::Database(DatabaseItem {
                    id,
                    conn_id: conn.id,
                    name: name,
                    kind,
                    is_collapsed: true,
                    is_conn_collapsed: conn.is_collapsed,
                    is_open: false,
                }));
                insert_after(&mut self.tree_items, t, &rows);
                insert_after(&mut self.show_items, show_index, &rows);
                assert(rows@ =~= seq![database_entry(id, conn.id, name, kind, conn.is_collapsed)]);
            }
        }
    }

    /// Puts a new schema `name` (with a fresh id) and its lists right after the selected
    /// PostgreSQL database in the tree; the shown rows get the schema row right after the
    /// database. The schema and its lists are collapsed; the schema is seen as the database
    /// is. Nothing changes when no database is selected.
    pub fn add_schema_item(&mut self, name: String)
        requires
            selection_in_range(old(self).selected, old(self).show_items@),
            selected_row(old(self).selected, old(self).show_items@) matches Some(TreeItem::Database(d))
                ==> has_item(old(self).tree_items@, ItemKey::Database(d.id)),
        ensures
            final(self).selected == old(self).selected,
            match selected_row(old(self).selected, old(self).show_items@) {
                Some(TreeItem::Database(d)) => exists|id: u128|
                    final(self).tree_items@ == inserted_after(old(self).tree_items@,
                        first_position(old(self).tree_items@, ItemKey::Database(d.id)),
                        #[trigger] schema_rows(id, d, name, d.is_collapsed))
                    && final(self).show_items@ == inserted_after(old(self).show_items@, old(self).selected->0 as int,
                        seq![schema_rows(id, d, name, d.is_collapsed)[0]]),
                _ => final(self).tree_items@ == old(self).tree_items@ && final(self).show_items@ == old(self).show_items@,
            },
    {
        let sel = self.selected;
        if let Some(db) = selected_database(&self.show_items, sel) {
            let show_index = sel.unwrap();
            if let Some(t) = find_item(&self.tree_items, ItemKey::Database(db.id)) {
                let id = new_uuid();
                let mut rows: Vec<TreeItem> = Vec::new();
                push_schema_rows(&mut rows, id, &db, &name, db.is_collapsed);
                let mut first: Vec<TreeItem> = Vec::new();
                first.push(rows[0].duplicate());
                insert_after(&mut self.tree_items, t, &rows);
                insert_after(&mut self.show_items, show_index, &first);
                assert(rows@ =~= schema_rows(id, db, name, db.is_collapsed));
                assert(first@ =~= seq![schema_rows(id, db, name, db.is_collapsed)[0]]);
            }
        }
    }

    /// Records a saved connection. A connection already in the tree gets the name `name`,
    /// in its first tree row and its first shown row, when its name differs; a new one is put
    /// at the end of the tree and of the shown rows, collapsed.
    pub fn save_connection_item(&mut self, id: u128, name: String, kind: DatabaseKind)
        ensures
            final(self).selected == old(self).selected,
            ({
                let key = ItemKey::Connection(id);
                let t = first_position(old(self).tree_items@, key);
                let s = first_position(old(self).show_items@, key);
                if !has_item(old(self).tree_items@, key) {
                    &&& final(self).tree_items@ == old(self).tree_items@.push(connection_entry(id, name, kind))
                    &&& final(self).show_items@ == old(self).show_items@.push(connection_entry(id, name, kind))
                } else if connection_named(old(self).tree_items@[t], name@) {
                    &&& final(self).tree_items@ == old(self).tree_items@
                    &&& final(self).show_items@ == old(self).show_items@
                } else {
                    &&& final(self).tree_items@ == old(self).tree_items@.update(t, renamed_connection(old(self).tree_items@[t], name))
                    &&& final(self).show_items@ == if has_item(old(self).show_items@, key) {
                        old(self).show_items@.update(s, renamed_connection(old(self).show_items@[s], name))
                    } else {
                        old(self).show_items@
                    }
                }
            }),
    {
        let key = ItemKey::Connection(id);
        match find_item(&self.tree_items, key) {
            Some(t) => {
                let differs = match &self.tree_items[t] {
                    TreeItem::Connection(c) => !(c.name == name),
                    _ => false,
                };
                if differs {
                    let row = rename_connection_row(&self.tree_items[t], &name);
                    self.tree_items.set(t, row);
                    if let Some(s) = find_item(&self.show_items, key) {
                        let row = rename_connection_row(&self.show_items[s], &name);
                        self.show_items.set(s, row);
                    }
                }
            },
            None => {
                self.tree_items.push(TreeItem::Connection(ConnectionItem {
                    id,
                    name: name.clone(),
                    kind,
                    is_collapsed: true,
                    is_open: false,
                }));
                self.show_items.push(TreeItem::Connection(ConnectionItem {
                    id,
                    name: name,
                    kind,
                    is_collapsed: true,
                    is_open: false,
                }));
            },
        }
    }

    /// Gives the PostgreSQL database `db_id` the name `name`, in its own rows and in those of
    /// its schemas and lists, in the tree and in the shown rows.
    pub fn rename_pg_db_item(&mut self, db_id: u128, name: String)
        ensures
            final(self).selected == old(self).selected,
            final(self).tree_items@ == changed_all(old(self).tree_items@, Change::RenameDatabase(db_id, name)),
            final(self).show_items@ == changed_all(old(self).show_items@, Change::RenameDatabase(db_id, name)),
    {
        let c = Change::RenameDatabase(db_id, name);
        change_items(&mut self.tree_items, &c);
        change_items(&mut self.show_items, &c);
    }

    /// Gives the schema `schema_id` the name `name`, in its own row and in those of its lists,
    /// in the tree and in the shown rows.
    pub fn rename_pg_schema_item(&mut self, schema_id: u128, name: String)
        ensures
            final(self).selected == old(self).selected,
            final(self).tree_items@ == changed_all(old(self).tree_items@, Change::RenameSchema(schema_id, name)),
            final(self).show_items@ == changed_all(old(self).show_items@, Change::RenameSchema(schema_id, name)),
    {
        let c = Change::RenameSchema(schema_id, name);
        change_items(&mut self.tree_items, &c);
        change_items(&mut self.show_items, &c);
    }

    /// Drops the rows of the deleted connection `conn_id` from the tree and the shown rows, and
    /// clears the selection.
    pub fn delete_connection_items(&mut self, conn_id: u128)
        ensures
            final(self).selected is None,
            final(self).tree_items@ == kept(old(self).tree_items@, Keep::NotConnection(conn_id)),
            final(self).show_items@ == kept(old(self).show_items@, Keep::NotConnection(conn_id)),
    {
        self.tree_items = keep_items(&self.tree_items, Keep::NotConnection(conn_id));
        self.show_items = keep_items(&self.show_items, Keep::NotConnection(conn_id));
        self.selected = None;
    }

    /// Drops the rows of the dropped database `db_id` from the tree and the shown rows, and
    /// clears the selection.
    pub fn delete_database_items(&mut self, db_id: u128)
        ensures
            final(self).selected is None,
            final(self).tree_items@ == kept(old(self).tree_items@, Keep::NotDatabase(db_id)),
            final(self).show_items@ == kept(old(self).show_items@, Keep::NotDatabase(db_id)),
    {
        self.tree_items = keep_items(&self.tree_items, Keep::NotDatabase(db_id));
        self.show_items = keep_items(&self.show_items, Keep::NotDatabase(db_id));
        self.selected = None;
    }

    /// Drops the rows of the dropped schema `schema_id` from the tree and the shown rows, and
    /// clears the selection.
    pub fn delete_schema_items(&mut self, schema_id: u128)
        ensures
            final(self).selected is None,
            final(self).tree_items@ == kept(old(self).tree_items@, Keep::NotSchema(schema_id)),
            final(self).show_items@ == kept(old(self).show_items@, Keep::NotSchema(schema_id)),
    {
        self.tree_items = keep_items(&self.tree_items, Keep::NotSchema(schema_id));
        self.show_items = keep_items(&self.show_items, Keep::NotSchema(schema_id));
        self.selected = None;
    }
}

/// What a key asks of the connection tree; the key bindings of the application decide which
/// key asks what.
#[derive(PartialEq, Eq, Structural, Clone, Copy)]
pub enum TreeCommand {
    Users,
    New,
    Edit,
    Delete,
    Up,
    Down,
    Cancel,
    Right,
    Confirm,
    Other,
}

/// What the application does after the tree has taken a command. Every action but `Answer`
/// ends with the component answering `Done`.
pub enum TreeAction {
    /// Nothing more.
    Nothing,
    /// The component answers this result.
    Answer(ComponentResult),
    /// Ask which kind of server the new connection is for.
    ChooseConnectionKind,
    /// Open the dialog for a new database of the connection.
    NewDatabase { conn_id: u128, kind: DatabaseKind },
    /// Read the roles of the PostgreSQL database and open the dialog for a new schema.
    NewSchema { conn_id: u128, db_name: String },
    /// Open the dialog that edits the connection.
    EditConnection { conn_id: u128, kind: DatabaseKind },
    /// Read the database and open the dialog that edits it.
    EditDatabase { conn_id: u128, db_name: String, kind: DatabaseKind },
    /// Read the schema and the roles and open the dialog that edits the schema.
    EditSchema { conn_id: u128, db_name: String, schema_name: String },
    /// Ask to confirm the deletion of the selected connection.
    ConfirmDeleteConnection,
    /// Ask to confirm the deletion of the selected database.
    ConfirmDeleteDatabase,
    /// Ask to confirm the deletion of the selected schema.
    ConfirmDeleteSchema,
    /// Expand or collapse the connection (reading its databases when it opens for the first
    /// time), with `set_conn_items_collapsed`.
    ToggleConnection(ConnectionItem),
    /// Expand or collapse the database (reading its schemas when a PostgreSQL database opens
    /// for the first time), with `set_db_items_collapsed`.
    ToggleDatabase(DatabaseItem),
}

/// The list that a row of queries, tables or views opens.
pub open spec fn open_list(item: TreeItem) -> Option<Goto> {
    match item {
        TreeItem::Query(q) => Some(Goto::QueryList { conn_id: q.conn_id, db_name: q.db_name, kind: q.kind }),
        TreeItem::Table(x) => Some(match x.kind {
            DatabaseKind::MySQL => Goto::TableListMySQL { conn_id: x.conn_id, db_name: x.db_name },
            DatabaseKind::PostgreSQL => Goto::TableListPG {
                conn_id: x.conn_id,
                db_name: x.db_name,
                schema_name: x.schema_name->0,
            },
        }),
        TreeItem::View(x) => Some(match x.kind {
            DatabaseKind::MySQL => Goto::ViewListMySQL { conn_id: x.conn_id, db_name: x.db_name },
            DatabaseKind::PostgreSQL => Goto::ViewListPG {
                conn_id: x.conn_id,
                db_name: x.db_name,
                schema_name: x.schema_name->0,
            },
        }),
        _ => None,
    }
}

/// What the tree asks the application to do for a command, given the selected shown row.
pub open spec fn main_action(cmd: TreeCommand, row: Option<TreeItem>) -> TreeAction {
    match cmd {
        TreeCommand::Users => match row {
            Some(TreeItem::Connection(c)) => TreeAction::Answer(ComponentResult::Goto(match c.kind {
                DatabaseKind::MySQL => Goto::UserListMySQL { conn_id: c.id },
                DatabaseKind::PostgreSQL => Goto::RoleListPG { conn_id: c.id },
            })),
            _ => TreeAction::Nothing,
        },
        TreeCommand::New => match row {
            None => TreeAction::ChooseConnectionKind,
            Some(TreeItem::Connection(c)) => TreeAction::NewDatabase { conn_id: c.id, kind: c.kind },
            Some(TreeItem::Database(d)) => if d.kind == DatabaseKind::PostgreSQL {
                TreeAction::NewSchema { conn_id: d.conn_id, db_name: d.name }
            } else {
                TreeAction::Nothing
            },
            _ => TreeAction::Nothing,
        },
        TreeCommand::Edit => match row {
            Some(TreeItem::Connection(c)) => TreeAction::EditConnection { conn_id: c.id, kind: c.kind },
            Some(TreeItem::Database(d)) => TreeAction::EditDatabase { conn_id: d.conn_id, db_name: d.name, kind: d.kind },
            Some(TreeItem::Schema(s)) => TreeAction::EditSchema { conn_id: s.conn_id, db_name: s.db_name, schema_name: s.name },
            _ => TreeAction::Nothing,
        },
        TreeCommand::Delete => match row {
            Some(TreeItem::Connection(_)) => TreeAction::ConfirmDeleteConnection,
            Some(TreeItem::Database(_)) => TreeAction::ConfirmDeleteDatabase,
            Some(TreeItem::Schema(_)) => TreeAction::ConfirmDeleteSchema,
            _ => TreeAction::Nothing,
        },
        TreeCommand::Right => TreeAction::Answer(ComponentResult::Focus(Focus::MainPanel)),
        TreeCommand::Confirm => match row {
            Some(TreeItem::Connection(c)) => TreeAction::ToggleConnection(c),
            Some(TreeItem::Database(d)) => TreeAction::ToggleDatabase(d),
            Some(item) => match open_list(item) {
                Some(g) => TreeAction::Answer(ComponentResult::Goto(g)),
                None => TreeAction::Nothing,
            },
            None => TreeAction::Nothing,
        },
        _ => TreeAction::Nothing,
    }
}

/// The selection after a command: up and down move it within the shown rows (when there are
/// any), cancel clears it.
pub open spec fn main_selection(cmd: TreeCommand, selected: Option<usize>, len: nat) -> Option<usize> {
    match cmd {
        TreeCommand::Up => if len > 0 {
            Some(match selected {
                Some(i) => if i > 0 { (i - 1) as usize } else { 0 },
                None => 0,
            })
        } else {
            selected
        },
        TreeCommand::Down => if len > 0 {
            Some(match selected {
                Some(i) => if i < len - 1 { (i + 1) as usize } else { (len - 1) as usize },
                None => 0,
            })
        } else {
            selected
        },
        TreeCommand::Cancel => None,
        _ => selected,
    }
}

/// Whether the row, a PostgreSQL list, has the name of its schema (every such row the tree
/// makes has one).
pub open spec fn list_has_schema(item: TreeItem) -> bool {
    match item {
        TreeItem::Query(x) => x.kind == DatabaseKind::PostgreSQL ==> x.schema_name is Some,
        TreeItem::Table(x) => x.kind == DatabaseKind::PostgreSQL ==> x.schema_name is Some,
        TreeItem::View(x) => x.kind == DatabaseKind::PostgreSQL ==> x.schema_name is Some,
        _ => true,
    }
}

fn list_goto(item: &TreeItem) -> (r: Option<Goto>)
    requires
        list_has_schema(*item),
    ensures
        r == open_list(*item),
{
    match item {
        TreeItem::Query(q) => Some(Goto::QueryList { conn_id: q.conn_id, db_name: q.db_name.clone(), kind: q.kind }),
        TreeItem::Table(x) => Some(match x.kind {
            DatabaseKind::MySQL => Goto::TableListMySQL { conn_id: x.conn_id, db_name: x.db_name.clone() },
            DatabaseKind::PostgreSQL => Goto::TableListPG {
                conn_id: x.conn_id,
                db_name: x.db_name.clone(),
                schema_name: x.schema_name.as_ref().unwrap().clone(),
            },
        }),
        TreeItem::View(x) => Some(match x.kind {
            DatabaseKind::MySQL => Goto::ViewListMySQL { conn_id: x.conn_id, db_name: x.db_name.clone() },
            DatabaseKind::PostgreSQL => Goto::ViewListPG {
                conn_id: x.conn_id,
                db_name: x.db_name.clone(),
                schema_name: x.schema_name.as_ref().unwrap().clone(),
            },
        }),
        _ => None,
    }
}

fn action_for(cmd: TreeCommand, row: Option<&TreeItem>) -> (r: TreeAction)
    requires
        cmd is Confirm ==> (row matches Some(item) ==> list_has_schema(*item)),
    ensures
        r == main_action(cmd, match row { Some(item) => Some(*item), None => None }),
{
    match cmd {
        TreeCommand::Users => match row {
            Some(TreeItem::Connection(c)) => TreeAction::Answer(ComponentResult::Goto(match c.kind {
                DatabaseKind::MySQL => Goto::UserListMySQL { conn_id: c.id },
                DatabaseKind::PostgreSQL => Goto::RoleListPG { conn_id: c.id },
            })),
            _ => TreeAction::Nothing,
        },
        TreeCommand::New => match row {
            None => TreeAction::ChooseConnectionKind,
            Some(TreeItem::Connection(c)) => TreeAction::NewDatabase { conn_id: c.id, kind: c.kind },
            Some(TreeItem::Database(d)) => if d.kind == DatabaseKind::PostgreSQL {
                TreeAction::NewSchema { conn_id: d.conn_id, db_name: d.name.clone() }
            } else {
                TreeAction::Nothing
            },
            _ => TreeAction::Nothing,
        },
        TreeCommand::Edit => match row {
            Some(TreeItem::Connection(c)) => TreeAction::EditConnection { conn_id: c.id, kind: c.kind },
            Some(TreeItem::Database(d)) => TreeAction::EditDatabase { conn_id: d.conn_id, db_name: d.name.clone(), kind: d.kind },
            Some(TreeItem::Schema(s)) => TreeAction::EditSchema {
                conn_id: s.conn_id,
                db_name: s.db_name.clone(),
                schema_name: s.name.clone(),
            },
            _ => TreeAction::Nothing,
        },
        TreeCommand::Delete => match row {
            Some(TreeItem::Connection(_)) => TreeAction::ConfirmDeleteConnection,
            Some(TreeItem::Database(_)) => TreeAction::ConfirmDeleteDatabase,
            Some(TreeItem::Schema(_)) => TreeAction::ConfirmDeleteSchema,
            _ => TreeAction::Nothing,
        },
        TreeCommand::Right => TreeAction::Answer(ComponentResult::Focus(Focus::MainPanel)),
        TreeCommand::Confirm => match row {
            Some(TreeItem::Connection(c)) => TreeAction::ToggleConnection(c.duplicate()),
            Some(TreeItem::Database(d)) => TreeAction::ToggleDatabase(d.duplicate()),
            Some(item) => match list_goto(item) {
                Some(g) => TreeAction::Answer(ComponentResult::Goto(g)),
                None => TreeAction::Nothing,
            },
            None => TreeAction::Nothing,
        },
        _ => TreeAction::Nothing,
    }
}

impl ConnectionListComponent {
    /// Takes a command of the keyboard. Up, down and cancel move the selection; confirming
    /// a schema expands or collapses it here; what needs the server or a dialog comes back as
    /// the action (see `main_action`).
    pub fn handle_main_event(&mut self, cmd: TreeCommand) -> (r: TreeAction)
        requires
            selection_in_range(old(self).selected, old(self).show_items@),
            cmd is Confirm ==> (selected_row(old(self).selected, old(self).show_items@) matches Some(item)
                ==> list_has_schema(item)),
        ensures
            r == main_action(cmd, selected_row(old(self).selected, old(self).show_items@)),
            final(self).selected == main_selection(cmd, old(self).selected, old(self).show_items@.len()),
            match (cmd, selected_row(old(self).selected, old(self).show_items@)) {
                (TreeCommand::Confirm, Some(TreeItem::Schema(s))) => {
                    &&& final(self).tree_items@ == changed_all(old(self).tree_items@, Change::CollapseSchema(s.id, !s.is_collapsed))
                    &&& final(self).show_items@ == shown(final(self).tree_items@)
                },
                _ => final(self).tree_items@ == old(self).tree_items@ && final(self).show_items@ == old(self).show_items@,
            },
    {
        let action = match self.selected {
            Some(i) => action_for(cmd, Some(&self.show_items[i])),
            None => action_for(cmd, None),
        };
        match cmd {
            TreeCommand::Up => {
                if self.show_items.len() > 0 {
                    self.selected = Some(get_table_up_index(self.selected));
                }
            },
            TreeCommand::Down => {
                if self.show_items.len() > 0 {
                    self.selected = Some(get_table_down_index(self.selected, self.show_items.len()));
                }
            },
            TreeCommand::Cancel => {
                self.selected = None;
            },
            TreeCommand::Confirm => {
                let schema = match self.selected {
                    Some(i) => match &self.show_items[i] {
                        TreeItem::Schema(s) => Some(s.duplicate()),
                        _ => None,
                    },
                    None => None,
                };
                if let Some(s) = schema {
                    self.set_schema_items_collapsed(&s, !s.is_collapsed);
                }
            },
            _ => {},
        }
        action
    }

    /// Whether expanding the row calls for reading from the server first: a connection, or a
    /// PostgreSQL database, that is collapsed and not yet opened.
    pub fn needs_loading(action: &TreeAction) -> (r: bool)
        ensures
            r == match *action {
                TreeAction::ToggleConnection(c) => c.is_collapsed && !c.is_open,
                TreeAction::ToggleDatabase(d) => d.is_collapsed && !d.is_open && d.kind == DatabaseKind::PostgreSQL,
                _ => false,
            },
    {
        match action {
            TreeAction::ToggleConnection(c) => c.is_collapsed && !c.is_open,
            TreeAction::ToggleDatabase(d) => d.is_collapsed && !d.is_open && d.kind == DatabaseKind::PostgreSQL,
            _ => false,
        }
    }
}

/// Every row that a filter keeps is one that it keeps and one of the rows it was given; and
/// every row it keeps of those given is there.
pub proof fn lemma_kept_rows(items: Seq<TreeItem>, k: Keep)
    ensures
        kept(items, k).len() <= items.len(),
        forall|i: int| 0 <= i < kept(items, k).len() ==>
            keeps(k, #[trigger] kept(items, k)[i]) && items.contains(kept(items, k)[i]),
        forall|j: int| 0 <= j < items.len() && keeps(k, #[trigger] items[j]) ==> kept(items, k).contains(items[j]),
{
    let f = |x: TreeItem| keeps(k, x);
    let out = kept(items, k);
    items.lemma_filter_len(f);
    assert forall|i: int| 0 <= i < out.len() implies keeps(k, #[trigger] out[i]) && items.contains(out[i]) by {
        items.lemma_filter_pred(f, i);
        assert(out.contains(out[i]));
        items.lemma_filter_contains_rev(f, out[i]);
    }
    assert forall|j: int| 0 <= j < items.len() && keeps(k, #[trigger] items[j]) implies out.contains(items[j]) by {
        items.lemma_filter_contains(f, j);
    }
}

/// The shown rows are rows of the tree that can be seen, and every row of the tree that can
/// be seen is shown.
pub proof fn lemma_shown_rows(items: Seq<TreeItem>)
    ensures
        forall|i: int| 0 <= i < shown(items).len() ==>
            visible(#[trigger] shown(items)[i]) && items.contains(shown(items)[i]),
        forall|j: int| 0 <= j < items.len() && visible(#[trigger] items[j]) ==> shown(items).contains(items[j]),
{
    lemma_kept_rows(items, Keep::Visible);
}

/// Once a connection is collapsed, no row of it but the connection itself is shown.
pub proof fn lemma_collapsed_connection_hides_its_rows(items: Seq<TreeItem>, id: u128)
    ensures
        forall|i: int| 0 <= i < shown(changed_all(items, Change::CollapseConnection(id, true))).len()
            && of_connection(#[trigger] shown(changed_all(items, Change::CollapseConnection(id, true)))[i], id)
            ==> shown(changed_all(items, Change::CollapseConnection(id, true)))[i] is Connection,
{
    let c = Change::CollapseConnection(id, true);
    let t = changed_all(items, c);
    lemma_shown_rows(t);
    assert forall|i: int| 0 <= i < shown(t).len() && of_connection(#[trigger] shown(t)[i], id)
        implies shown(t)[i] is Connection by {
        let r = shown(t)[i];
        let j = choose|j: int| 0 <= j < t.len() && t[j] == r;
        assert(t[j] == changed(c, items[j]));
    }
}

/// Once a database is collapsed, none of its schemas and lists is shown.
pub proof fn lemma_collapsed_database_hides_its_rows(items: Seq<TreeItem>, id: u128)
    ensures
        forall|i: int| 0 <= i < shown(changed_all(items, Change::CollapseDatabase(id, true))).len()
            && of_database(#[trigger] shown(changed_all(items, Change::CollapseDatabase(id, true)))[i], id)
            ==> shown(changed_all(items, Change::CollapseDatabase(id, true)))[i] is Database,
{
    let c = Change::CollapseDatabase(id, true);
    let t = changed_all(items, c);
    lemma_shown_rows(t);
    assert forall|i: int| 0 <= i < shown(t).len() && of_database(#[trigger] shown(t)[i], id)
        implies shown(t)[i] is Database by {
        let r = shown(t)[i];
        let j = choose|j: int| 0 <= j < t.len() && t[j] == r;
        assert(t[j] == changed(c, items[j]));
    }
}

/// Once a schema is collapsed, none of its lists is shown.
pub proof fn lemma_collapsed_schema_hides_its_lists(items: Seq<TreeItem>, id: u128)
    ensures
        forall|i: int| 0 <= i < shown(changed_all(items, Change::CollapseSchema(id, true))).len()
            && of_schema(#[trigger] shown(changed_all(items, Change::CollapseSchema(id, true)))[i], id)
            ==> shown(changed_all(items, Change::CollapseSchema(id, true)))[i] is Schema,
{
    let c = Change::CollapseSchema(id, true);
    let t = changed_all(items, c);
    lemma_shown_rows(t);
    assert forall|i: int| 0 <= i < shown(t).len() && of_schema(#[trigger] shown(t)[i], id)
        implies shown(t)[i] is Schema by {
        let r = shown(t)[i];
        let j = choose|j: int| 0 <= j < t.len() && t[j] == r;
        assert(t[j] == changed(c, items[j]));
    }
}

/// After a deletion no row of what was deleted is left, and every other row is.
pub proof fn lemma_deletion_removes_exactly(items: Seq<TreeItem>, k: Keep)
    requires
        !(k is Visible),
    ensures
        forall|i: int| 0 <= i < kept(items, k).len() ==> keeps(k, #[trigger] kept(items, k)[i]),
        forall|j: int| 0 <= j < items.len() && keeps(k, #[trigger] items[j]) ==> kept(items, k).contains(items[j]),
{
    lemma_kept_rows(items, k);
}

/// Whether every PostgreSQL list row of `items` has the name of its schema.
pub open spec fn lists_have_schemas(items: Seq<TreeItem>) -> bool {
    forall|i: int| 0 <= i < items.len() ==> list_has_schema(#[trigger] items[i])
}

/// Every change, filter and insertion of rows that the tree makes keeps each PostgreSQL list
/// row with the name of its schema.
pub proof fn lemma_lists_keep_schemas(items: Seq<TreeItem>, c: Change, k: Keep, at: int, db: DatabaseItem,
    conn: ConnectionItem, ids: Seq<u128>, names: Seq<String>, id: u128, name: String, flag: bool)
    requires
        lists_have_schemas(items),
        0 <= at < items.len(),
        ids.len() == names.len(),
    ensures
        lists_have_schemas(changed_all(items, c)),
        lists_have_schemas(kept(items, k)),
        lists_have_schemas(inserted_after(items, at, database_entries(ids, conn, names))),
        lists_have_schemas(inserted_after(items, at, mysql_database_rows(db))),
        lists_have_schemas(inserted_after(items, at, schemas_rows(ids, db, names))),
        lists_have_schemas(inserted_after(items, at, schema_rows(id, db, name, flag))),
{
    let ch = changed_all(items, c);
    assert forall|i: int| 0 <= i < ch.len() implies list_has_schema(#[trigger] ch[i]) by {
        assert(list_has_schema(items[i]));
    }
    lemma_kept_rows(items, k);
    let kp = kept(items, k);
    assert forall|i: int| 0 <= i < kp.len() implies list_has_schema(#[trigger] kp[i]) by {
        let j = choose|j: int| 0 <= j < items.len() && items[j] == kp[i];
        assert(list_has_schema(items[j]));
    }
    lemma_inserted_keeps_schemas(items, at, database_entries(ids, conn, names));
    lemma_inserted_keeps_schemas(items, at, mysql_database_rows(db));
    lemma_schemas_rows_have_schemas(ids, db, names);
    lemma_inserted_keeps_schemas(items, at, schemas_rows(ids, db, names));
    lemma_inserted_keeps_schemas(items, at, schema_rows(id, db, name, flag));
}

proof fn lemma_inserted_keeps_schemas(items: Seq<TreeItem>, at: int, new: Seq<TreeItem>)
    requires
        lists_have_schemas(items),
        lists_have_schemas(new),
        0 <= at < items.len(),
    ensures
        lists_have_schemas(inserted_after(items, at, new)),
{
    let r = inserted_after(items, at, new);
    assert forall|i: int| 0 <= i < r.len() implies list_has_schema(#[trigger] r[i]) by {
        if i <= at {
            assert(r[i] == items[i]);
        } else if i < at + 1 + new.len() {
            assert(r[i] == new[i - at - 1]);
        } else {
            assert(r[i] == items[i - new.len()]);
        }
    }
}

proof fn lemma_schemas_rows_have_schemas(ids: Seq<u128>, db: DatabaseItem, names: Seq<String>)
    requires
        ids.len() == names.len(),
    ensures
        lists_have_schemas(schemas_rows(ids, db, names)),
    decreases names.len(),
{
    if names.len() > 0 {
        lemma_schemas_rows_have_schemas(ids.drop_last(), db, names.drop_last());
        let a = schemas_rows(ids.drop_last(), db, names.drop_last());
        let b = schema_rows(ids.last(), db, names.last(), false);
        let r = a + b;
        assert forall|i: int| 0 <= i < r.len() implies list_has_schema(#[trigger] r[i]) by {
            if i < a.len() {
                assert(r[i] == a[i]);
            } else {
                assert(r[i] == b[i - a.len()]);
            }
        }
    }
}

/// Moving up or down keeps the selection on a shown row; cancelling clears it; no other
/// command moves it.
pub proof fn lemma_selection_stays_in_range(cmd: TreeCommand, selected: Option<usize>, show: Seq<TreeItem>)
    requires
        selection_in_range(selected, show),
    ensures
        selection_in_range(main_selection(cmd, selected, show.len()), show),
{
}

/// A command as the command bar lists it: its name and what it asks.
pub open spec fn command_views(v: Seq<(&'static str, TreeCommand)>) -> Seq<(Seq<char>, TreeCommand)> {
    v.map_values(|c: (&'static str, TreeCommand)| (c.0@, c.1))
}

/// The commands that the tree offers, given the selected shown row (at `index` of `len` shown
/// rows): those of the row's kind, then up (unless on the first row), down (unless on the last)
/// and cancel; with nothing selected, a new connection, and down when there are rows.
pub open spec fn main_commands(row: Option<TreeItem>, index: int, len: int) -> Seq<(Seq<char>, TreeCommand)> {
    match row {
        Some(item) => {
            let own = match item {
                TreeItem::Connection(_) => seq![
                    ("New Database"@, TreeCommand::New),
                    ("Edit"@, TreeCommand::Edit),
                    ("Delete"@, TreeCommand::Delete),
                    ("Users"@, TreeCommand::Users),
                    ("Open/Close"@, TreeCommand::Confirm),
                ],
                TreeItem::Database(d) => (if d.kind == DatabaseKind::PostgreSQL {
                    seq![("New Schema"@, TreeCommand::New)]
                } else {
                    Seq::empty()
                }) + seq![
                    ("Edit"@, TreeCommand::Edit),
                    ("Delete"@, TreeCommand::Delete),
                    ("Open/Close"@, TreeCommand::Confirm),
                ],
                TreeItem::Schema(_) => seq![
                    ("Edit"@, TreeCommand::Edit),
                    ("Delete"@, TreeCommand::Delete),
                    ("Open/Close"@, TreeCommand::Confirm),
                ],
                _ => seq![("Open"@, TreeCommand::Confirm)],
            };
            own + (if index != 0 { seq![("Up"@, TreeCommand::Up)] } else { Seq::empty() })
                + (if index < len - 1 { seq![("Down"@, TreeCommand::Down)] } else { Seq::empty() })
                + seq![("Cancel"@, TreeCommand::Cancel)]
        },
        None => seq![("New Connection"@, TreeCommand::New)]
            + (if len > 0 { seq![("Down"@, TreeCommand::Down)] } else { Seq::empty() }),
    }
}

impl ConnectionListComponent {
    /// The commands that the tree offers for the command bar (see `main_commands`).
    pub fn get_main_commands(&self) -> (r: Vec<(&'static str, TreeCommand)>)
        requires
            selection_in_range(self.selected, self.show_items@),
        ensures
            command_views(r@) == main_commands(selected_row(self.selected, self.show_items@),
                match self.selected { Some(i) => i as int, None => 0 }, self.show_items@.len() as int),
    {
        let mut cmds: Vec<(&'static str, TreeCommand)> = Vec::new();
        match self.selected {
            Some(index) => {
                match &self.show_items[index] {
                    TreeItem::Connection(_) => {
                        cmds.push(("New Database", TreeCommand::New));
                        cmds.push(("Edit", TreeCommand::Edit));
                        cmds.push(("Delete", TreeCommand::Delete));
                        cmds.push(("Users", TreeCommand::Users));
                        cmds.push(("Open/Close", TreeCommand::Confirm));
                    },
                    TreeItem::Database(d) => {
                        if d.kind == DatabaseKind::PostgreSQL {
                            cmds.push(("New Schema", TreeCommand::New));
                        }
                        cmds.push(("Edit", TreeCommand::Edit));
                        cmds.push(("Delete", TreeCommand::Delete));
                        cmds.push(("Open/Close", TreeCommand::Confirm));
                    },
                    TreeItem::Schema(_) => {
                        cmds.push(("Edit", TreeCommand::Edit));
                        cmds.push(("Delete", TreeCommand::Delete));
                        cmds.push(("Open/Close", TreeCommand::Confirm));
                    },
                    _ => {
                        cmds.push(("Open", TreeCommand::Confirm));
                    },
                }
                if index != 0 {
                    cmds.push(("Up", TreeCommand::Up));
                }
                if index < self.show_items.len() - 1 {
                    cmds.push(("Down", TreeCommand::Down));
                }
                cmds.push(("Cancel", TreeCommand::Cancel));
            },
            None => {
                cmds.push(("New Connection", TreeCommand::New));
                if self.show_items.len() > 0 {
                    cmds.push(("Down", TreeCommand::Down));
                }
            },
        }
        assert(command_views(cmds@) =~= main_commands(selected_row(self.selected, self.show_items@),
            match self.selected { Some(i) => i as int, None => 0 }, self.show_items@.len() as int));
        cmds
    }
}

/// Whether the row is a list (queries, tables or views) of the database `id` that hangs under the
/// database itself, not under a schema.
pub open spec fn schemaless_list_of(item: TreeItem, id: u128) -> bool {
    match item {
        TreeItem::Query(x) => x.db_id == id && x.schema_name is None,
        TreeItem::Table(x) => x.db_id == id && x.schema_name is None,
        TreeItem::View(x) => x.db_id == id && x.schema_name is None,
        _ => false,
    }
}

/// Expanding a database shows every list row that hangs under it directly, whatever was
/// collapsed before; collapsing it hides them.
pub proof fn lemma_expanded_database_shows_its_lists(items: Seq<TreeItem>, id: u128, j: int)
    requires
        0 <= j < items.len(),
        schemaless_list_of(items[j], id),
    ensures
        visible(changed_all(items, Change::CollapseDatabase(id, false))[j]),
        shown(changed_all(items, Change::CollapseDatabase(id, false))).contains(
            changed_all(items, Change::CollapseDatabase(id, false))[j]),
        !visible(changed_all(items, Change::CollapseDatabase(id, true))[j]),
{
    let t = changed_all(items, Change::CollapseDatabase(id, false));
    assert(t[j] == changed(Change::CollapseDatabase(id, false), items[j]));
    assert(changed_all(items, Change::CollapseDatabase(id, true))[j] == changed(Change::CollapseDatabase(id, true), items[j]));
    lemma_shown_rows(t);
}

/// Expanding a connection shows every database row of it; expanding a schema shows every list
/// row of it.
pub proof fn lemma_expanded_rows_show_their_children(items: Seq<TreeItem>, id: u128, j: int)
    requires
        0 <= j < items.len(),
    ensures
        items[j] is Database && of_connection(items[j], id) ==>
            visible(changed_all(items, Change::CollapseConnection(id, false))[j])
            && shown(changed_all(items, Change::CollapseConnection(id, false))).contains(
                changed_all(items, Change::CollapseConnection(id, false))[j]),
        !(items[j] is Schema) && !(items[j] is Connection) && !(items[j] is Database) && of_schema(items[j], id) ==>
            visible(changed_all(items, Change::CollapseSchema(id, false))[j])
            && shown(changed_all(items, Change::CollapseSchema(id, false))).contains(
                changed_all(items, Change::CollapseSchema(id, false))[j]),
{
    let t = changed_all(items, Change::CollapseConnection(id, false));
    let u = changed_all(items, Change::CollapseSchema(id, false));
    assert(t[j] == changed(Change::CollapseConnection(id, false), items[j]));
    assert(u[j] == changed(Change::CollapseSchema(id, false), items[j]));
    lemma_shown_rows(t);
    lemma_shown_rows(u);
}

} // verus!
