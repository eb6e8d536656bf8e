//! The application's configuration: the saved connections. Reading and writing the file is
//! left to the caller; here the lists change.
use vstd::prelude::*;
use vstd::string::*;
use crate::connection::{MySQLConnection, PGConnection};

verus! {

/// The ids of the connections, in order.
pub open spec fn mysql_ids(cs: Seq<MySQLConnection>) -> Seq<u128> {
    cs.map_values(|c: MySQLConnection| c.id)
}

/// The ids of the connections, in order.
pub open spec fn pg_ids(cs: Seq<PGConnection>) -> Seq<u128> {
    cs.map_values(|c: PGConnection| c.id)
}

/// The list after saving `c`: it replaces the first connection with its id, or is added at the end.
pub open spec fn saved<C>(cs: Seq<C>, ids: Seq<u128>, c: C, id: u128) -> Seq<C> {
    match crate::diff::first_index(ids, id) {
        Some(i) => cs.update(i, c),
        None => cs.push(c),
    }
}

/// Whether no id stands twice.
pub open spec fn distinct(ids: Seq<u128>) -> bool {
    forall|a: int, b: int| 0 <= a < ids.len() && 0 <= b < ids.len() && a != b ==> ids[a] != ids[b]
}

/// The application's configuration.
pub struct Config {
    pub version: String,
    pub mysql_connections: Vec<MySQLConnection>,
    pub pg_connections: Vec<PGConnection>,
}

impl Config {
    /// The configuration written when there is none yet: version "0.1" and no connections.
    pub fn new() -> (r: Config)
        ensures
            r.version@ == "0.1"@,
            r.mysql_connections@.len() == 0,
            r.pg_connections@.len() == 0,
    {
        Config { version: "0.1".to_owned(), mysql_connections: Vec::new(), pg_connections: Vec::new() }
    }

    /// The saved MySQL connections.
    pub fn get_mysql_connections(&self) -> (r: &Vec<MySQLConnection>)
        ensures
            r@ == self.mysql_connections@,
    {
        &self.mysql_connections
    }

    /// The saved PostgreSQL connections.
    pub fn get_pg_connections(&self) -> (r: &Vec<PGConnection>)
        ensures
            r@ == self.pg_connections@,
    {
        &self.pg_connections
    }

    /// Saves a MySQL connection: it replaces the saved one with its id, or is added at the end.
    pub fn save_mysql_connection(&mut self, conn: &MySQLConnection)
        ensures
            final(self).mysql_connections@ == saved(old(self).mysql_connections@,
                mysql_ids(old(self).mysql_connections@), *conn, conn.id),
            final(self).pg_connections@ == old(self).pg_connections@,
            final(self).version == old(self).version,
    {
        let mut ids: Vec<u128> = Vec::new();
        let n = self.mysql_connections.len();
        for i in 0..n
            invariant
                n == self.mysql_connections@.len(),
                ids@ =~= mysql_ids(self.mysql_connections@).take(i as int),
        {
            ids.push(self.mysql_connections[i].id);
        }
        assert(ids@ =~= mysql_ids(self.mysql_connections@));
        match crate::diff::index_of(&ids, conn.id) {
            Some(i) => {
                proof { crate::diff::lemma_first_index(ids@, conn.id); }
                self.mysql_connections.set(i, conn.duplicate());
            },
            None => {
                self.mysql_connections.push(conn.duplicate());
            },
        }
    }

    /// Saves a PostgreSQL connection: it replaces the saved one with its id, or is added at the end.
    pub fn save_pg_connection(&mut self, conn: &PGConnection)
        ensures
            final(self).pg_connections@ == saved(old(self).pg_connections@,
                pg_ids(old(self).pg_connections@), *conn, conn.id),
            final(self).mysql_connections@ == old(self).mysql_connections@,
            final(self).version == old(self).version,
    {
        let mut ids: Vec<u128> = Vec::new();
        let n = self.pg_connections.len();
        for i in 0..n
            invariant
                n == self.pg_connections@.len(),
                ids@ =~= pg_ids(self.pg_connections@).take(i as int),
        {
            ids.push(self.pg_connections[i].id);
        }
        assert(ids@ =~= pg_ids(self.pg_connections@));
        match crate::diff::index_of(&ids, conn.id) {
            Some(i) => {
                proof { crate::diff::lemma_first_index(ids@, conn.id); }
                self.pg_connections.set(i, conn.duplicate());
            },
            None => {
                self.pg_connections.push(conn.duplicate());
            },
        }
    }

    /// Deletes the MySQL connections with the id `conn_id`, keeping the others in order.
    pub fn delete_mysql_connection(&mut self, conn_id: u128)
        ensures
            final(self).mysql_connections@ == old(self).mysql_connections@.filter(|c: MySQLConnection| c.id != conn_id),
            final(self).pg_connections@ == old(self).pg_connections@,
            final(self).version == old(self).version,
    {
        let mut kept: Vec<MySQLConnection> = Vec::new();
        let n = self.mysql_connections.len();
        let ghost all = self.mysql_connections@;
        let ghost pred = |c: MySQLConnection| c.id != conn_id;
        for i in 0..n
            invariant
                n == all.len(),
                all == self.mysql_connections@,
                pred == (|c: MySQLConnection| c.id != conn_id),
                kept@ == all.take(i as int).filter(pred),
        {
            reveal_with_fuel(Seq::<_>::filter, 1);
            assert(all.take(i + 1).drop_last() =~= all.take(i as int));
            if self.mysql_connections[i].id != conn_id {
                kept.push(self.mysql_connections[i].duplicate());
            }
        }
        assert(all.take(n as int) =~= all);
        self.mysql_connections = kept;
    }

    /// Deletes the PostgreSQL connections with the id `conn_id`, keeping the others in order.
    pub fn delete_pg_connection(&mut self, conn_id: u128)
        ensures
            final(self).pg_connections@ == old(self).pg_connections@.filter(|c: PGConnection| c.id != conn_id),
            final(self).mysql_connections@ == old(self).mysql_connections@,
            final(self).version == old(self).version,
    {
        let mut kept: Vec<PGConnection> = Vec::new();
        let n = self.pg_connections.len();
        let ghost all = self.pg_connections@;
        let ghost pred = |c: PGConnection| c.id != conn_id;
        for i in 0..n
            invariant
                n == all.len(),
                all == self.pg_connections@,
                pred == (|c: PGConnection| c.id != conn_id),
                kept@ == all.take(i as int).filter(pred),
        {
            reveal_with_fuel(Seq::<_>::filter, 1);
            assert(all.take(i + 1).drop_last() =~= all.take(i as int));
            if self.pg_connections[i].id != conn_id {
                kept.push(self.pg_connections[i].duplicate());
            }
        }
        assert(all.take(n as int) =~= all);
        self.pg_connections = kept;
    }
}


/// The ids of the list after a save: the saved id at the saved place, the others unchanged.
proof fn lemma_saved_ids<C>(cs: Seq<C>, f: spec_fn(C) -> u128, c: C)
    ensures
        saved(cs, cs.map_values(f), c, f(c)).map_values(f)
            == saved(cs.map_values(f), cs.map_values(f), f(c), f(c)),
{
    let ids = cs.map_values(f);
    crate::diff::lemma_first_index(ids, f(c));
    match crate::diff::first_index(ids, f(c)) {
        Some(i) => {
            assert(cs.update(i, c).map_values(f) =~= ids.update(i, f(c)));
        },
        None => {
            assert(cs.push(c).map_values(f) =~= ids.push(f(c)));
        },
    }
}

/// The first index of `id` in a list where it stands first at `i`.
proof fn lemma_first_index_at(ids: Seq<u128>, id: u128, i: int)
    requires
        0 <= i < ids.len(),
        ids[i] == id,
        forall|k: int| 0 <= k < i ==> ids[k] != id,
    ensures
        crate::diff::first_index(ids, id) == Some(i),
{
    crate::diff::lemma_first_index(ids, id);
    assert(ids.contains(id));
    let j = crate::diff::first_index(ids, id)->0;
    if j < i {
        assert(ids[j] != id);
    } else if j > i {
        assert(ids[i] != id);
    }
}

/// Saving keeps the ids distinct, puts the saved connection where its id stands, and saving the
/// same connection again changes nothing.
proof fn lemma_save<C>(cs: Seq<C>, f: spec_fn(C) -> u128, c: C)
    requires
        distinct(cs.map_values(f)),
    ensures
        distinct(saved(cs, cs.map_values(f), c, f(c)).map_values(f)),
        saved(cs, cs.map_values(f), c, f(c)).contains(c),
        forall|k: int| 0 <= k < saved(cs, cs.map_values(f), c, f(c)).len()
            && f(#[trigger] saved(cs, cs.map_values(f), c, f(c))[k]) == f(c)
            ==> saved(cs, cs.map_values(f), c, f(c))[k] == c,
        ({
            let s1 = saved(cs, cs.map_values(f), c, f(c));
            saved(s1, s1.map_values(f), c, f(c)) == s1
        }),
{
    let ids = cs.map_values(f);
    let s1 = saved(cs, ids, c, f(c));
    lemma_saved_ids(cs, f, c);
    crate::diff::lemma_first_index(ids, f(c));
    let ids1 = s1.map_values(f);
    match crate::diff::first_index(ids, f(c)) {
        Some(i) => {
            assert(ids1 =~= ids.update(i, f(c)));
            assert(s1[i] == c);
            assert forall|k: int| 0 <= k < i implies ids1[k] != f(c) by {
                assert(ids1[k] == ids[k]);
            }
            lemma_first_index_at(ids1, f(c), i);
            assert(s1.update(i, c) =~= s1);
            assert forall|k: int| 0 <= k < s1.len() && f(#[trigger] s1[k]) == f(c) implies s1[k] == c by {
                if k != i {
                    assert(ids[k] == f(s1[k]));
                    assert(ids[i] == f(c));
                }
            }
        },
        None => {
            assert(ids1 =~= ids.push(f(c)));
            let n = cs.len() as int;
            assert(s1[n] == c);
            assert forall|k: int| 0 <= k < n implies ids1[k] != f(c) by {
                assert(ids1[k] == ids[k]);
            }
            lemma_first_index_at(ids1, f(c), n);
            assert(s1.update(n, c) =~= s1);
            assert forall|k: int| 0 <= k < s1.len() && f(#[trigger] s1[k]) == f(c) implies s1[k] == c by {
                if k < n {
                    assert(ids[k] == f(s1[k]));
                }
            }
        },
    }
}

/// Deleting an id that a save has just added gives back the list as it was.
proof fn lemma_delete_undoes_new_save<C>(cs: Seq<C>, f: spec_fn(C) -> u128, c: C)
    requires
        !cs.map_values(f).contains(f(c)),
    ensures
        saved(cs, cs.map_values(f), c, f(c)).filter(|x: C| f(x) != f(c)) == cs,
{
    let ids = cs.map_values(f);
    crate::diff::lemma_first_index(ids, f(c));
    assert(saved(cs, ids, c, f(c)) == cs.push(c));
    let p = |x: C| f(x) != f(c);
    assert(cs.push(c).filter(p) == cs.filter(p)) by {
        reveal_with_fuel(Seq::<_>::filter, 1);
        assert(cs.push(c).drop_last() =~= cs);
    }
    assert forall|k: int| 0 <= k < cs.len() implies p(cs[k]) by {
        assert(ids[k] == f(cs[k]));
        if f(cs[k]) == f(c) {
            assert(ids.contains(f(c)));
        }
    }
    lemma_filter_all(cs, p);
}

/// Filtering a list whose items all pass keeps it whole.
proof fn lemma_filter_all<C>(cs: Seq<C>, p: spec_fn(C) -> bool)
    requires
        forall|k: int| 0 <= k < cs.len() ==> p(cs[k]),
    ensures
        cs.filter(p) == cs,
    decreases cs.len(),
{
    reveal_with_fuel(Seq::<_>::filter, 1);
    if cs.len() > 0 {
        lemma_filter_all(cs.drop_last(), p);
        assert(cs.drop_last().push(cs.last()) =~= cs);
    } else {
        assert(cs.filter(p) =~= cs);
    }
}

/// Saving a MySQL connection keeps the ids distinct and puts it where its id stands; saving it
/// again changes nothing.
pub proof fn lemma_save_mysql(cs: Seq<MySQLConnection>, c: MySQLConnection)
    requires
        distinct(mysql_ids(cs)),
    ensures
        distinct(mysql_ids(saved(cs, mysql_ids(cs), c, c.id))),
        saved(cs, mysql_ids(cs), c, c.id).contains(c),
        forall|k: int| 0 <= k < saved(cs, mysql_ids(cs), c, c.id).len()
            && (#[trigger] saved(cs, mysql_ids(cs), c, c.id)[k]).id == c.id
            ==> saved(cs, mysql_ids(cs), c, c.id)[k] == c,
        saved(saved(cs, mysql_ids(cs), c, c.id), mysql_ids(saved(cs, mysql_ids(cs), c, c.id)), c, c.id)
            == saved(cs, mysql_ids(cs), c, c.id),
{
    let f = |x: MySQLConnection| x.id;
    assert(mysql_ids(cs) == cs.map_values(f));
    lemma_save(cs, f, c);
    assert(mysql_ids(saved(cs, mysql_ids(cs), c, c.id)) == saved(cs, mysql_ids(cs), c, c.id).map_values(f));
}

/// Deleting the id of a MySQL connection that a save has just added gives back the list as it was.
pub proof fn lemma_delete_undoes_new_mysql_save(cs: Seq<MySQLConnection>, c: MySQLConnection)
    requires
        !mysql_ids(cs).contains(c.id),
    ensures
        saved(cs, mysql_ids(cs), c, c.id).filter(|x: MySQLConnection| x.id != c.id) == cs,
{
    let f = |x: MySQLConnection| x.id;
    assert(mysql_ids(cs) == cs.map_values(f));
    lemma_delete_undoes_new_save(cs, f, c);
    assert((|x: MySQLConnection| f(x) != f(c)) =~= (|x: MySQLConnection| x.id != c.id));
}

/// Saving a PostgreSQL connection keeps the ids distinct and puts it where its id stands; saving
/// it again changes nothing.
pub proof fn lemma_save_pg(cs: Seq<PGConnection>, c: PGConnection)
    requires
        distinct(pg_ids(cs)),
    ensures
        distinct(pg_ids(saved(cs, pg_ids(cs), c, c.id))),
        saved(cs, pg_ids(cs), c, c.id).contains(c),
        forall|k: int| 0 <= k < saved(cs, pg_ids(cs), c, c.id).len()
            && (#[trigger] saved(cs, pg_ids(cs), c, c.id)[k]).id == c.id
            ==> saved(cs, pg_ids(cs), c, c.id)[k] == c,
        saved(saved(cs, pg_ids(cs), c, c.id), pg_ids(saved(cs, pg_ids(cs), c, c.id)), c, c.id)
            == saved(cs, pg_ids(cs), c, c.id),
{
    let f = |x: PGConnection| x.id;
    assert(pg_ids(cs) == cs.map_values(f));
    lemma_save(cs, f, c);
    assert(pg_ids(saved(cs, pg_ids(cs), c, c.id)) == saved(cs, pg_ids(cs), c, c.id).map_values(f));
}

/// Deleting the id of a PostgreSQL connection that a save has just added gives back the list.
pub proof fn lemma_delete_undoes_new_pg_save(cs: Seq<PGConnection>, c: PGConnection)
    requires
        !pg_ids(cs).contains(c.id),
    ensures
        saved(cs, pg_ids(cs), c, c.id).filter(|x: PGConnection| x.id != c.id) == cs,
{
    let f = |x: PGConnection| x.id;
    assert(pg_ids(cs) == cs.map_values(f));
    lemma_delete_undoes_new_save(cs, f, c);
    assert((|x: PGConnection| f(x) != f(c)) =~= (|x: PGConnection| x.id != c.id));
}

/// After deleting an id no connection with it is left.
pub proof fn lemma_delete_removes(cs: Seq<MySQLConnection>, id: u128)
    ensures
        !mysql_ids(cs.filter(|x: MySQLConnection| x.id != id)).contains(id),
{
    let p = |x: MySQLConnection| x.id != id;
    let d = cs.filter(p);
    if mysql_ids(d).contains(id) {
        let k = choose|k: int| 0 <= k < mysql_ids(d).len() && mysql_ids(d)[k] == id;
        cs.lemma_filter_pred(p, k);
        assert(d[k].id == id);
    }
}

} // verus!
