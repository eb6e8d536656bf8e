use vstd::prelude::*;
use vstd::string::*;

verus! {

/// The view of an optional string.
pub open spec fn opt_view(o: Option<String>) -> Option<Seq<char>> {
    match o {
        Some(s) => Some(s@),
        None => None,
    }
}

/// A form entry seen as plain character sequences.
pub type EntryView = (Seq<char>, Option<Seq<char>>);

/// What a form holds under `key`: the value of the first entry with that key, if any.
pub open spec fn lookup(entries: Seq<EntryView>, key: Seq<char>) -> Option<Option<Seq<char>>>
    decreases entries.len(),
{
    if entries.len() == 0 {
        None
    } else if entries[0].0 == key {
        Some(entries[0].1)
    } else {
        lookup(entries.drop_first(), key)
    }
}

/// Whether two optional strings are equal.
pub fn opt_str_eq(a: &Option<String>, b: &Option<String>) -> (r: bool)
    ensures
        r == (opt_view(*a) == opt_view(*b)),
{
    match (a, b) {
        (Some(x), Some(y)) => *x == *y,
        (None, None) => true,
        _ => false,
    }
}

/// A form entry: the key and its value.
pub fn form_entry(key: &str, value: Option<String>) -> (r: (String, Option<String>))
    ensures
        r.0@ == key@,
        r.1 == value,
{
    (key.to_owned(), value)
}

/// A copy of an optional string.
pub fn opt_clone(a: &Option<String>) -> (r: Option<String>)
    ensures
        opt_view(r) == opt_view(*a),
{
    match a {
        Some(x) => Some(x.clone()),
        None => None,
    }
}

/// The values that a form holds, keyed by the label of each item: what the forms of the
/// application hand back as their data. A key stands once (`keys_distinct`); `set` keeps it so.
pub struct FormData {
    pub entries: Vec<(String, Option<String>)>,
}

impl View for FormData {
    type V = Seq<EntryView>;

    open spec fn view(&self) -> Seq<EntryView> {
        self.entries@.map_values(|e: (String, Option<String>)| (e.0@, opt_view(e.1)))
    }
}

impl FormData {
    /// A copy of the form, entry for entry.
    pub fn duplicate(&self) -> (r: FormData)
        ensures
            r.entries@ == self.entries@,
    {
        let mut entries: Vec<(String, Option<String>)> = Vec::new();
        for i in 0..self.entries.len()
            invariant
                entries@ == self.entries@.take(i as int),
        {
            let e = &self.entries[i];
            entries.push((e.0.clone(), match &e.1 { Some(x) => Some(x.clone()), None => None }));
            assert(entries@ =~= self.entries@.take(i + 1));
        }
        assert(self.entries@.take(self.entries@.len() as int) =~= self.entries@);
        FormData { entries }
    }

    /// A form that holds nothing.
    pub fn new() -> (r: FormData)
        ensures
            r@ == Seq::<EntryView>::empty(),
            keys_distinct(r@),
    {
        FormData { entries: Vec::new() }
    }

    /// What the form holds under `key` (`None` when the form has no such item).
    pub fn get(&self, key: &str) -> (r: Option<Option<String>>)
        ensures
            match r {
                Some(v) => lookup(self@, key@) == Some(opt_view(v)),
                None => lookup(self@, key@) is None,
            },
    {
        let k = key.to_owned();
        let n = self.entries.len();
        let ghost s = self@;
        assert(s.skip(0) =~= s);
        for i in 0..n
            invariant
                n == self.entries.len(),
                s == self@,
                k@ == key@,
                lookup(s, key@) == lookup(s.skip(i as int), key@),
        {
            assert(s.skip(i as int)[0] == s[i as int]);
            assert(s.skip(i as int).drop_first() =~= s.skip(i + 1));
            if self.entries[i].0 == k {
                return Some(opt_clone(&self.entries[i].1));
            }
        }
        assert(s.skip(n as int).len() == 0);
        None
    }

    /// Sets the value of `key`, replacing the entry that holds it or adding one at the end.
    pub fn set(&mut self, key: &str, value: Option<String>)
        ensures
            lookup(final(self)@, key@) == Some(opt_view(value)),
            forall|k: Seq<char>| k != key@ ==> lookup(final(self)@, k) == lookup(old(self)@, k),
            keys_distinct(old(self)@) ==> keys_distinct(final(self)@),
    {
        let k = key.to_owned();
        let n = self.entries.len();
        let ghost s = self@;
        let mut i: usize = 0;
        let mut found = false;
        while i < n && !found
            invariant
                n == self.entries.len(),
                s == self@,
                k@ == key@,
                i <= n,
                found ==> i < n && s[i as int].0 == key@,
                forall|j: int| 0 <= j < i ==> s[j].0 != key@,
            decreases n - i + (if found { 0int } else { 1int }),
        {
            if self.entries[i].0 == k {
                found = true;
            } else {
                i = i + 1;
            }
        }
        proof {
            lemma_lookup_prefix_absent(s, key@, i as int);
        }
        if found {
            self.entries.set(i, (k, value));
            proof {
                let t = self@;
                assert(t =~= s.update(i as int, (key@, opt_view(value))));
                assert(forall|j: int| 0 <= j < t.len() ==> t[j].0 == s[j].0);
                lemma_lookup_update(s, i as int, key@, opt_view(value), key@);
                assert forall|k2: Seq<char>| k2 != key@ implies lookup(t, k2) == lookup(s, k2) by {
                    lemma_lookup_update(s, i as int, key@, opt_view(value), k2);
                }
            }
        } else {
            self.entries.push((k, value));
            proof {
                let t = self@;
                assert(t =~= s.push((key@, opt_view(value))));
                assert(i == n);
                assert(forall|j: int| 0 <= j < s.len() ==> t[j] == s[j]);
                lemma_lookup_push(s, key@, opt_view(value), key@);
                assert forall|k2: Seq<char>| k2 != key@ implies lookup(t, k2) == lookup(s, k2) by {
                    lemma_lookup_push(s, key@, opt_view(value), k2);
                }
            }
        }
    }
}

/// Looking up through a prefix in which the key does not stand.
pub proof fn lemma_lookup_prefix_absent(s: Seq<EntryView>, key: Seq<char>, i: int)
    requires
        0 <= i <= s.len(),
        forall|j: int| 0 <= j < i ==> s[j].0 != key,
    ensures
        lookup(s, key) == lookup(s.skip(i), key),
    decreases i,
{
    if i > 0 {
        assert(s[0].0 != key);
        assert(s.drop_first().skip(i - 1) =~= s.skip(i));
        lemma_lookup_prefix_absent(s.drop_first(), key, i - 1);
    } else {
        assert(s.skip(0) =~= s);
    }
}

/// Replacing the first entry that holds `key`.
pub proof fn lemma_lookup_update(s: Seq<EntryView>, i: int, key: Seq<char>, v: Option<Seq<char>>, k: Seq<char>)
    requires
        0 <= i < s.len(),
        s[i].0 == key,
        forall|j: int| 0 <= j < i ==> s[j].0 != key,
    ensures
        lookup(s.update(i, (key, v)), key) == Some(v),
        k != key ==> lookup(s.update(i, (key, v)), k) == lookup(s, k),
    decreases i,
{
    let t = s.update(i, (key, v));
    if i == 0 {
        assert(t.drop_first() =~= s.drop_first());
    } else {
        assert(t.drop_first() =~= s.drop_first().update(i - 1, (key, v)));
        lemma_lookup_update(s.drop_first(), i - 1, key, v, k);
    }
}

/// Adding an entry for a key that the form does not hold.
pub proof fn lemma_lookup_push(s: Seq<EntryView>, key: Seq<char>, v: Option<Seq<char>>, k: Seq<char>)
    requires
        lookup(s, key) is None,
    ensures
        lookup(s.push((key, v)), key) == Some(v),
        k != key ==> lookup(s.push((key, v)), k) == lookup(s, k),
    decreases s.len(),
{
    let t = s.push((key, v));
    if s.len() == 0 {
        assert(t.drop_first() =~= s);
    } else {
        assert(t.drop_first() =~= s.drop_first().push((key, v)));
        lemma_lookup_push(s.drop_first(), key, v, k);
    }
}

/// Whether no key stands twice in the form: the invariant that `set` keeps.
pub open spec fn keys_distinct(entries: Seq<EntryView>) -> bool {
    forall|i: int, j: int| 0 <= i < j < entries.len() ==> entries[i].0 != entries[j].0
}

/// Whether the form holds a value (not an empty item) under `key`.
pub open spec fn filled(entries: Seq<EntryView>, key: Seq<char>) -> bool {
    lookup(entries, key) matches Some(Some(_))
}

/// Whether the value that the form holds under `key` is "true".
pub fn reads_true_at(form: &FormData, key: &str) -> (r: bool)
    requires
        filled(form@, key@),
    ensures
        r == (lookup(form@, key@)->0->0 == "true"@),
{
    let t = "true".to_owned();
    match form.get(key) {
        Some(Some(v)) => v == t,
        _ => false,
    }
}

/// The value of `key` in a form that holds a value there.
pub open spec fn value_at(form: Seq<EntryView>, key: Seq<char>) -> Seq<char> {
    lookup(form, key)->0->0
}

/// The value that the form holds under `key`, where it holds one.
pub fn text_at(form: &FormData, key: &str) -> (r: String)
    requires
        filled(form@, key@),
    ensures
        r@ == value_at(form@, key@),
{
    match form.get(key) {
        Some(Some(v)) => v,
        _ => String::new(),
    }
}

/// The item of the form under `key`, which the form holds.
pub fn item_at(form: &FormData, key: &str) -> (r: Option<String>)
    requires
        lookup(form@, key@) is Some,
    ensures
        opt_view(r) == lookup(form@, key@)->0,
{
    match form.get(key) {
        Some(v) => v,
        None => None,
    }
}

} // verus!
