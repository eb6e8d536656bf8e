//! How the items of an edited table (fields, indexes, keys, ...) changed: which were added,
//! which kept (and possibly altered), which dropped. Items are known by their ids.
use vstd::prelude::*;

verus! {

/// What became of one item of the edited list.
#[derive(PartialEq, Eq, Structural, Clone, Copy)]
pub enum ItemChange {
    /// The item at this index of the new list is new.
    Add(usize),
    /// The item at the first index of the new list was at the second index of the old one.
    Change(usize, usize),
}

/// The index of the first occurrence of `id`, if any.
pub open spec fn first_index(ids: Seq<u128>, id: u128) -> Option<int>
    decreases ids.len(),
{
    if ids.len() == 0 {
        None
    } else if ids[0] == id {
        Some(0)
    } else {
        match first_index(ids.drop_first(), id) {
            Some(i) => Some(i + 1),
            None => None,
        }
    }
}

/// The indexes of the old items whose ids the new list no longer holds, in order.
pub open spec fn dropped(old: Seq<u128>, new: Seq<u128>) -> Seq<usize>
    decreases old.len(),
{
    if old.len() == 0 {
        Seq::empty()
    } else {
        let rest = dropped(old.drop_last(), new);
        if new.contains(old.last()) { rest } else { rest.push((old.len() - 1) as usize) }
    }
}

/// For each new item in order: `Add` when its id is new, else `Change` with the first old item
/// of that id.
pub open spec fn updates(old: Seq<u128>, new: Seq<u128>) -> Seq<ItemChange> {
    Seq::new(new.len(), |j: int| match first_index(old, new[j]) {
        Some(i) => ItemChange::Change(j as usize, i as usize),
        None => ItemChange::Add(j as usize),
    })
}

/// What the first index says of the list.
pub proof fn lemma_first_index(ids: Seq<u128>, id: u128)
    ensures
        match first_index(ids, id) {
            Some(i) => 0 <= i < ids.len() && ids[i] == id && forall|k: int| 0 <= k < i ==> ids[k] != id,
            None => !ids.contains(id),
        },
    decreases ids.len(),
{
    if ids.len() > 0 {
        lemma_first_index(ids.drop_first(), id);
        if ids[0] != id {
            if first_index(ids.drop_first(), id) is None {
                assert forall|k: int| 0 <= k < ids.len() implies ids[k] != id by {
                    if k > 0 {
                        assert(ids[k] == ids.drop_first()[k - 1]);
                    }
                }
            } else {
                let i = first_index(ids.drop_first(), id)->0;
                assert forall|k: int| 0 <= k < i + 1 implies ids[k] != id by {
                    if k > 0 {
                        assert(ids[k] == ids.drop_first()[k - 1]);
                    }
                }
            }
        }
    }
}

/// The index of the first occurrence of `id` in `ids`.
pub fn index_of(ids: &Vec<u128>, id: u128) -> (r: Option<usize>)
    ensures
        match r {
            Some(i) => first_index(ids@, id) == Some(i as int),
            None => first_index(ids@, id) is None,
        },
{
    let n = ids.len();
    let mut i: usize = 0;
    while i < n
        invariant
            n == ids@.len(),
            i <= n,
            forall|k: int| 0 <= k < i ==> ids@[k] != id,
        decreases n - i,
    {
        if ids[i] == id {
            proof {
                lemma_first_index(ids@, id);
            }
            return Some(i);
        }
        i = i + 1;
    }
    proof {
        lemma_first_index(ids@, id);
    }
    None
}

/// How the list `old` became `new`: the indexes of the dropped old items, and what became of
/// each new item (see `dropped` and `updates`).
pub fn diff_ids(old: &Vec<u128>, new: &Vec<u128>) -> (r: (Vec<usize>, Vec<ItemChange>))
    ensures
        r.0@ == dropped(old@, new@),
        r.1@ == updates(old@, new@),
{
    let mut drops: Vec<usize> = Vec::new();
    let n = old.len();
    for i in 0..n
        invariant
            n == old@.len(),
            drops@ == dropped(old@.take(i as int), new@),
    {
        assert(old@.take(i + 1).drop_last() =~= old@.take(i as int));
        let k = index_of(new, old[i]);
        proof {
            lemma_first_index(new@, old@[i as int]);
        }
        if k.is_none() {
            drops.push(i);
        }
    }
    assert(old@.take(n as int) =~= old@);
    let mut ups: Vec<ItemChange> = Vec::new();
    let m = new.len();
    for j in 0..m
        invariant
            m == new@.len(),
            ups@ =~= updates(old@, new@).take(j as int),
    {
        let c = match index_of(old, new[j]) {
            Some(i) => ItemChange::Change(j, i),
            None => ItemChange::Add(j),
        };
        ups.push(c);
        assert(ups@ =~= updates(old@, new@).take(j + 1));
    }
    assert(updates(old@, new@).take(m as int) =~= updates(old@, new@));
    (drops, ups)
}

/// An old item is dropped exactly when its id is gone from the new list; each drop names an old item.
pub proof fn lemma_dropped_iff_gone(old: Seq<u128>, new: Seq<u128>, i: int)
    requires
        0 <= i < old.len(),
        old.len() <= usize::MAX,
    ensures
        dropped(old, new).contains(i as usize) <==> !new.contains(old[i]),
    decreases old.len(),
{
    let rest = dropped(old.drop_last(), new);
    let last = (old.len() - 1) as usize;
    lemma_dropped_indexes_below(old.drop_last(), new);
    assert(dropped(old, new) == if new.contains(old.last()) { rest } else { rest.push(last) });
    if i == old.len() - 1 {
        if rest.contains(i as usize) {
            let k = choose|k: int| 0 <= k < rest.len() && rest[k] == i as usize;
            assert(rest[k] < old.len() - 1);
        }
        if !new.contains(old[i]) {
            assert(dropped(old, new)[rest.len() as int] == i as usize);
        }
    } else {
        lemma_dropped_iff_gone(old.drop_last(), new, i);
        assert(old.drop_last()[i] == old[i]);
        if !new.contains(old.last()) {
            let d = dropped(old, new);
            if rest.contains(i as usize) {
                let k = choose|k: int| 0 <= k < rest.len() && rest[k] == i as usize;
                assert(d[k] == i as usize);
            }
            if d.contains(i as usize) {
                let k = choose|k: int| 0 <= k < d.len() && d[k] == i as usize;
                if k == rest.len() {
                    assert(d[k] == last);
                }
                assert(rest[k] == i as usize);
            }
        }
    }
}

/// Every dropped index lies below the length of the old list.
pub proof fn lemma_dropped_indexes_below(old: Seq<u128>, new: Seq<u128>)
    requires
        old.len() <= usize::MAX,
    ensures
        forall|k: int| 0 <= k < dropped(old, new).len() ==> dropped(old, new)[k] < old.len(),
    decreases old.len(),
{
    if old.len() > 0 {
        let rest = dropped(old.drop_last(), new);
        lemma_dropped_indexes_below(old.drop_last(), new);
        assert(dropped(old, new) == if new.contains(old.last()) { rest } else { rest.push((old.len() - 1) as usize) });
    }
}

/// Editing nothing changes nothing: a list compared with itself drops nothing, adds nothing, and
/// when its ids are distinct each item is its own old counterpart.
pub proof fn lemma_unchanged_list(ids: Seq<u128>)
    ensures
        dropped(ids, ids).len() == 0,
        forall|j: int| 0 <= j < ids.len() ==> updates(ids, ids)[j] is Change,
        (forall|a: int, b: int| 0 <= a < b < ids.len() ==> ids[a] != ids[b])
            ==> forall|j: int| 0 <= j < ids.len() ==> updates(ids, ids)[j] == ItemChange::Change(j as usize, j as usize),
{
    lemma_dropped_none(ids, ids);
    assert forall|j: int| 0 <= j < ids.len() implies updates(ids, ids)[j] is Change by {
        lemma_first_index(ids, ids[j]);
        assert(ids.contains(ids[j]));
    }
    if forall|a: int, b: int| 0 <= a < b < ids.len() ==> ids[a] != ids[b] {
        assert forall|j: int| 0 <= j < ids.len() implies updates(ids, ids)[j] == ItemChange::Change(j as usize, j as usize) by {
            lemma_first_index(ids, ids[j]);
            let i = first_index(ids, ids[j])->0;
            assert(ids.contains(ids[j]));
            if i < j {
                assert(ids[i] != ids[j]);
            }
        }
    }
}

/// Nothing is dropped when every old id is still there.
pub proof fn lemma_dropped_none(old: Seq<u128>, new: Seq<u128>)
    requires
        forall|i: int| 0 <= i < old.len() ==> new.contains(old[i]),
    ensures
        dropped(old, new).len() == 0,
    decreases old.len(),
{
    if old.len() > 0 {
        assert(new.contains(old[old.len() - 1]));
        lemma_dropped_none(old.drop_last(), new);
    }
}

/// The clauses that one new item writes: its addition clause when it is new, else the clauses
/// of its change against the old item with its id.
pub open spec fn item_clauses(u: ItemChange, adds: Seq<Seq<char>>, changes: Seq<Seq<Seq<char>>>) -> Seq<Seq<char>> {
    match u {
        ItemChange::Add(j) => seq![adds[j as int]],
        ItemChange::Change(j, _) => changes[j as int],
    }
}

/// The clauses of the new items, in order.
pub open spec fn items_clauses(us: Seq<ItemChange>, adds: Seq<Seq<char>>, changes: Seq<Seq<Seq<char>>>) -> Seq<Seq<char>>
    decreases us.len(),
{
    if us.len() == 0 {
        Seq::empty()
    } else {
        items_clauses(us.drop_last(), adds, changes) + item_clauses(us.last(), adds, changes)
    }
}

/// The drop clauses of the dropped old items, in order.
pub open spec fn drop_clauses(ds: Seq<usize>, drops: Seq<Seq<char>>) -> Seq<Seq<char>> {
    ds.map_values(|i: usize| drops[i as int])
}

/// The clauses that alter a list of items whose ids went from `old` to `new`: for each new item
/// in order its addition clause (a new id) or its change clauses (a kept id), then the drop
/// clause of each old item whose id is gone, in order.
pub open spec fn alter_clauses(old: Seq<u128>, new: Seq<u128>, adds: Seq<Seq<char>>, changes: Seq<Seq<Seq<char>>>,
    drops: Seq<Seq<char>>) -> Seq<Seq<char>> {
    items_clauses(updates(old, new), adds, changes) + drop_clauses(dropped(old, new), drops)
}

/// The character sequences of lists of strings.
pub open spec fn nested_views(v: Seq<Vec<String>>) -> Seq<Seq<Seq<char>>> {
    v.map_values(|x: Vec<String>| x@.map_values(|s: String| s@))
}

/// The clauses that alter a list of items (see `alter_clauses`), given for each new item its
/// addition clause and its change clauses, and for each old item its drop clause.
pub fn compose_alter(old: &Vec<u128>, new: &Vec<u128>, adds: &Vec<String>, changes: &Vec<Vec<String>>,
    drops: &Vec<String>) -> (r: Vec<String>)
    requires
        adds@.len() == new@.len(),
        changes@.len() == new@.len(),
        drops@.len() == old@.len(),
    ensures
        r@.map_values(|s: String| s@) == alter_clauses(old@, new@, adds@.map_values(|s: String| s@),
            nested_views(changes@), drops@.map_values(|s: String| s@)),
{
    let ghost av = adds@.map_values(|s: String| s@);
    let ghost cv = nested_views(changes@);
    let ghost dv = drops@.map_values(|s: String| s@);
    let (ds, us) = diff_ids(old, new);
    let mut r: Vec<String> = Vec::new();
    for k in 0..us.len()
        invariant
            us@ == updates(old@, new@),
            adds@.len() == new@.len(),
            changes@.len() == new@.len(),
            av == adds@.map_values(|s: String| s@),
            cv == nested_views(changes@),
            r@.map_values(|s: String| s@) == items_clauses(us@.take(k as int), av, cv),
    {
        let ghost before = r@.map_values(|s: String| s@);
        assert(us@.take(k + 1).drop_last() =~= us@.take(k as int));
        match us[k] {
            ItemChange::Add(j) => {
                r.push(adds[j].clone());
                assert(r@.map_values(|s: String| s@) =~= before + seq![av[j as int]]);
            },
            ItemChange::Change(j, _) => {
                let c = &changes[j];
                let ghost mid = r@.map_values(|s: String| s@);
                let ghost cs = c@.map_values(|s: String| s@);
                for t in 0..c.len()
                    invariant
                        cs == c@.map_values(|s: String| s@),
                        r@.map_values(|s: String| s@) == mid + cs.take(t as int),
                {
                    let ghost b = r@.map_values(|s: String| s@);
                    let x = c[t].clone();
                    r.push(x);
                    assert(r@.map_values(|s: String| s@) =~= b.push(cs[t as int]));
                    assert(cs.take(t + 1) =~= cs.take(t as int).push(cs[t as int]));
                    assert(r@.map_values(|s: String| s@) =~= mid + cs.take(t + 1));
                }
                assert(cs.take(cs.len() as int) =~= cs);
                assert(cs == cv[j as int]);
                assert(r@.map_values(|s: String| s@) =~= before + cv[j as int]);
            },
        }
    }
    assert(us@.take(us@.len() as int) =~= us@);
    let ghost mid = r@.map_values(|s: String| s@);
    assert(old@.len() == old.len());
    proof { lemma_dropped_indexes_below(old@, new@); }
    for k in 0..ds.len()
        invariant
            ds@ == dropped(old@, new@),
            forall|i: int| 0 <= i < ds@.len() ==> (ds@[i] as int) < old@.len(),
            drops@.len() == old@.len(),
            dv == drops@.map_values(|s: String| s@),
            r@.map_values(|s: String| s@) == mid + drop_clauses(ds@.take(k as int), dv),
    {
        let ghost b = r@.map_values(|s: String| s@);
        let x = drops[ds[k]].clone();
        r.push(x);
        assert(r@.map_values(|s: String| s@) =~= b.push(dv[ds@[k as int] as int]));
        assert(drop_clauses(ds@.take(k + 1), dv) =~= drop_clauses(ds@.take(k as int), dv).push(dv[ds@[k as int] as int]));
        assert(r@.map_values(|s: String| s@) =~= mid + drop_clauses(ds@.take(k + 1), dv));
    }
    assert(ds@.take(ds@.len() as int) =~= ds@);
    r
}

} // verus!
