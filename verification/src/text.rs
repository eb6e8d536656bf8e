use vstd::prelude::*;
use vstd::string::*;

verus! {

/// The character sequences of a list of strings.
pub open spec fn views(v: Seq<String>) -> Seq<Seq<char>> {
    v.map_values(|s: String| s@)
}

/// The parts joined with `sep` between each two neighbours.
pub open spec fn seq_join(parts: Seq<Seq<char>>, sep: Seq<char>) -> Seq<char>
    decreases parts.len(),
{
    if parts.len() == 0 {
        Seq::empty()
    } else if parts.len() == 1 {
        parts[0]
    } else {
        seq_join(parts.drop_last(), sep) + sep + parts.last()
    }
}

/// Joins the strings with `sep` between each two neighbours (as `[String]::join`).
pub fn join(parts: &Vec<String>, sep: &str) -> (res: String)
    ensures
        res@ == seq_join(views(parts@), sep@),
{
    let mut res = String::new();
    let ghost all = views(parts@);
    let n = parts.len();
    for i in 0..n
        invariant
            n == parts.len(),
            all == views(parts@),
            res@ == seq_join(all.take(i as int), sep@),
    {
        if i != 0 {
            res.append(sep);
        }
        res.append(parts[i].as_str());
        assert(all.take(i + 1).drop_last() =~= all.take(i as int));
    }
    assert(all.take(n as int) =~= all);
    res
}


/// The character sequences of a list of string slices.
pub open spec fn str_views(v: Seq<&str>) -> Seq<Seq<char>> {
    v.map_values(|s: &str| s@)
}

/// The names whose flag is set, in the order of the names.
pub open spec fn selected(flags: Seq<bool>, names: Seq<Seq<char>>) -> Seq<Seq<char>>
    decreases flags.len(),
{
    if flags.len() == 0 || names.len() == 0 {
        Seq::empty()
    } else {
        let rest = selected(flags.drop_last(), names.drop_last());
        if flags.last() {
            rest.push(names.last())
        } else {
            rest
        }
    }
}

/// The names whose flag is set, in the order of the names (both lists have one length).
pub fn select_names(flags: &[bool], names: &Vec<&'static str>) -> (r: Vec<String>)
    requires
        flags@.len() == names@.len(),
    ensures
        views(r@) == selected(flags@, str_views(names@)),
{
    let mut r: Vec<String> = Vec::new();
    let n = names.len();
    let ghost all = str_views(names@);
    for i in 0..n
        invariant
            n == names@.len(),
            n == flags@.len(),
            all == str_views(names@),
            views(r@) == selected(flags@.take(i as int), all.take(i as int)),
    {
        assert(flags@.take(i + 1).drop_last() =~= flags@.take(i as int));
        assert(all.take(i + 1).drop_last() =~= all.take(i as int));
        if flags[i] {
            let ghost before = views(r@);
            r.push(names[i].to_owned());
            assert(views(r@) =~= before.push(all[i as int]));
        }
    }
    assert(flags@.take(n as int) =~= flags@);
    assert(all.take(n as int) =~= all);
    r
}

/// `s` with `prefix` before it when `s` is not empty, else the empty sequence.
pub open spec fn prefixed_if_nonempty(prefix: Seq<char>, s: Seq<char>) -> Seq<char> {
    if s.len() == 0 { Seq::empty() } else { prefix + s }
}

/// An optional string as a sequence: the empty sequence stands for `None`.
pub open spec fn opt_or_empty(o: Option<Seq<char>>) -> Seq<char> {
    match o {
        Some(s) => s,
        None => Seq::empty(),
    }
}

/// `a` followed by `b`.
pub fn cat(a: &str, b: &str) -> (r: String)
    ensures
        r@ == a@ + b@,
{
    let mut r = a.to_owned();
    r.append(b);
    r
}

/// The concatenation of three strings.
pub fn cat3(a: &str, b: &str, c: &str) -> (r: String)
    ensures
        r@ == a@ + b@ + c@,
{
    let mut r = a.to_owned();
    r.append(b);
    r.append(c);
    r
}

/// The concatenation of four strings.
pub fn cat4(a: &str, b: &str, c: &str, d: &str) -> (r: String)
    ensures
        r@ == a@ + b@ + c@ + d@,
{
    let mut r = a.to_owned();
    r.append(b);
    r.append(c);
    r.append(d);
    r
}

/// The concatenation of five strings.
pub fn cat5(a: &str, b: &str, c: &str, d: &str, e: &str) -> (r: String)
    ensures
        r@ == a@ + b@ + c@ + d@ + e@,
{
    let mut r = a.to_owned();
    r.append(b);
    r.append(c);
    r.append(d);
    r.append(e);
    r
}


/// The decimal digit for `d` (0 to 9).
pub open spec fn digit_char(d: int) -> char {
    if d == 0 { '0' } else if d == 1 { '1' } else if d == 2 { '2' } else if d == 3 { '3' }
    else if d == 4 { '4' } else if d == 5 { '5' } else if d == 6 { '6' } else if d == 7 { '7' }
    else if d == 8 { '8' } else { '9' }
}

/// The decimal digits of a natural number, without leading zeros.
pub open spec fn nat_decimal(n: nat) -> Seq<char>
    decreases n,
{
    if n < 10 {
        seq![digit_char(n as int)]
    } else {
        nat_decimal(n / 10).push(digit_char((n % 10) as int))
    }
}

/// The decimal form of an integer, with a leading '-' when negative (as `Display` writes it).
pub open spec fn decimal(n: int) -> Seq<char> {
    if n < 0 { seq!['-'] + nat_decimal((-n) as nat) } else { nat_decimal(n as nat) }
}

fn digit_str(d: u64) -> (r: &'static str)
    requires
        d < 10,
    ensures
        r@ == seq![digit_char(d as int)],
{
    proof {
        reveal_strlit("0"); reveal_strlit("1"); reveal_strlit("2"); reveal_strlit("3"); reveal_strlit("4");
        reveal_strlit("5"); reveal_strlit("6"); reveal_strlit("7"); reveal_strlit("8"); reveal_strlit("9");
    }
    let r = if d == 0 { "0" } else if d == 1 { "1" } else if d == 2 { "2" } else if d == 3 { "3" }
        else if d == 4 { "4" } else if d == 5 { "5" } else if d == 6 { "6" } else if d == 7 { "7" }
        else if d == 8 { "8" } else { "9" };
    assert(r@ =~= seq![digit_char(d as int)]);
    r
}

fn nat_to_text(n: u64) -> (r: String)
    ensures
        r@ == nat_decimal(n as nat),
    decreases n,
{
    if n < 10 {
        digit_str(n).to_owned()
    } else {
        let mut s = nat_to_text(n / 10);
        s.append(digit_str(n % 10));
        s
    }
}

/// The decimal form of `n` (see `decimal`).
pub fn int_to_text(n: i64) -> (r: String)
    ensures
        r@ == decimal(n as int),
{
    if n < 0 {
        let m: u64 = if n == i64::MIN { 9223372036854775808u64 } else { (-n) as u64 };
        let mut s = "-".to_owned();
        proof { reveal_strlit("-"); }
        s.append(nat_to_text(m).as_str());
        assert(s@ =~= decimal(n as int));
        s
    } else {
        nat_to_text(n as u64)
    }
}

/// With no flag set, no name is selected.
pub proof fn lemma_selected_none(flags: Seq<bool>, names: Seq<Seq<char>>)
    requires
        forall|i: int| 0 <= i < flags.len() ==> !flags[i],
    ensures
        selected(flags, names) == Seq::<Seq<char>>::empty(),
    decreases flags.len(),
{
    if flags.len() > 0 && names.len() > 0 {
        lemma_selected_none(flags.drop_last(), names.drop_last());
    }
}

/// The characters of `s`, in order.
pub fn chars_of(s: &str) -> (r: Vec<char>)
    ensures
        r@ == s@,
{
    broadcast use vstd::string::axiom_spec_iter, vstd::string::next_postcondition;
    let mut it = s.chars();
    let mut r: Vec<char> = Vec::new();
    assert(vstd::std_specs::iter::IteratorSpec::remaining(&it) == s@);
    loop
        invariant
            vstd::std_specs::iter::IteratorSpec::obeys_prophetic_iter_laws(&it),
            r@ + vstd::std_specs::iter::IteratorSpec::remaining(&it) == s@,
            vstd::std_specs::iter::IteratorSpec::decrease(&it) is Some,
        decreases vstd::std_specs::iter::IteratorSpec::decrease(&it)->0,
    {
        let ghost before = vstd::std_specs::iter::IteratorSpec::remaining(&it);
        match it.next() {
            Some(c) => {
                assert(before.len() > 0);
                assert(r@.push(c) + vstd::std_specs::iter::IteratorSpec::remaining(&it) =~= r@ + before);
                r.push(c);
            },
            None => {
                assert(before.len() == 0);
                assert(r@ =~= r@ + before);
                return r;
            },
        }
    }
}

/// The value of a sequence of decimal digits.
pub open spec fn digits_value(d: Seq<char>) -> int
    decreases d.len(),
{
    if d.len() == 0 { 0 } else { digits_value(d.drop_last()) * 10 + (d.last() as int - '0' as int) }
}

/// Whether every character of `s` is an ASCII digit.
pub open spec fn all_digits(s: Seq<char>) -> bool {
    forall|i: int| 0 <= i < s.len() ==> '0' <= #[trigger] s[i] <= '9'
}

proof fn lemma_digits_value_nonneg(d: Seq<char>)
    requires
        all_digits(d),
    ensures
        digits_value(d) >= 0,
    decreases d.len(),
{
    if d.len() > 0 {
        assert(all_digits(d.drop_last()));
        lemma_digits_value_nonneg(d.drop_last());
    }
}

/// The value of the digits of `d` from `start` on, when there is at least one, all are digits
/// and the value is at most `cap`; `None` otherwise.
pub fn read_digits(d: &Vec<char>, start: usize, cap: u64) -> (r: Option<u64>)
    requires
        start <= d@.len(),
        cap <= 4294967296,
    ensures
        r matches Some(v) ==> v == digits_value(d@.skip(start as int)) && v <= cap,
        r is Some <==> (d@.len() > start && all_digits(d@.skip(start as int))
            && digits_value(d@.skip(start as int)) <= cap),
{
    if start == d.len() {
        return None;
    }
    let mut acc: u64 = 0;
    let mut over = false;
    let mut i = start;
    while i < d.len()
        invariant
            start <= i <= d@.len(),
            cap <= 4294967296,
            all_digits(d@.subrange(start as int, i as int)),
            !over ==> acc == digits_value(d@.subrange(start as int, i as int)) && acc <= cap,
            over ==> digits_value(d@.subrange(start as int, i as int)) > cap,
        decreases d@.len() - i,
    {
        let c = d[i];
        let ghost prev = d@.subrange(start as int, i as int);
        let ghost next = d@.subrange(start as int, i + 1);
        assert(next.drop_last() =~= prev);
        assert(next.last() == c);
        if !('0' <= c && c <= '9') {
            assert(d@.skip(start as int)[i - start] == c);
            return None;
        }
        assert(all_digits(next));
        proof { lemma_digits_value_nonneg(prev); }
        if !over {
            let dv: u64 = (c as u32 - 48u32) as u64;
            let n = acc * 10 + dv;
            if n > cap {
                over = true;
            } else {
                acc = n;
            }
        }
        i = i + 1;
    }
    assert(d@.subrange(start as int, d@.len() as int) =~= d@.skip(start as int));
    if over { None } else { Some(acc) }
}

/// Appends `c` to `s` with `String::push`, which std documents as appending the character to
/// the end of the string; the contract says that and no more.
#[verifier::external_body]
pub(crate) fn push_char(s: &mut String, c: char)
    ensures
        final(s)@ == old(s)@.push(c),
{
    s.push(c)
}

/// Copies of the strings, equal to them.
pub fn copy_strings(v: &Vec<String>) -> (r: Vec<String>)
    ensures
        r@ == v@,
{
    let mut r: Vec<String> = Vec::new();
    for i in 0..v.len()
        invariant
            r@ == v@.take(i as int),
    {
        r.push(v[i].clone());
        assert(r@ =~= v@.take(i + 1));
    }
    assert(v@.take(v@.len() as int) =~= v@);
    r
}

/// The pieces of `s` between the occurrences of `sep` (one more than there are occurrences), as
/// `str::split` with a character gives them.
pub open spec fn char_pieces(s: Seq<char>, sep: char) -> Seq<Seq<char>>
    decreases s.len(),
{
    if s.len() == 0 {
        seq![Seq::<char>::empty()]
    } else {
        let p = char_pieces(s.drop_last(), sep);
        if s.last() == sep {
            p.push(Seq::empty())
        } else {
            p.update(p.len() - 1, p.last().push(s.last()))
        }
    }
}

/// There is always at least one piece.
pub proof fn lemma_char_pieces_nonempty(s: Seq<char>, sep: char)
    ensures
        char_pieces(s, sep).len() >= 1,
    decreases s.len(),
{
    if s.len() > 0 {
        lemma_char_pieces_nonempty(s.drop_last(), sep);
    }
}

/// The pieces of `s` between the occurrences of `sep` (see `char_pieces`).
pub fn split_char(s: &str, sep: char) -> (r: Vec<String>)
    ensures
        views(r@) == char_pieces(s@, sep),
{
    let cs = chars_of(s);
    let mut done: Vec<String> = Vec::new();
    let mut cur = String::new();
    for i in 0..cs.len()
        invariant
            cs@ == s@,
            views(done@).push(cur@) == char_pieces(cs@.take(i as int), sep),
    {
        let ghost before = views(done@).push(cur@);
        proof { lemma_char_pieces_nonempty(cs@.take(i as int), sep); }
        assert(cs@.take(i + 1).drop_last() =~= cs@.take(i as int));
        let c = cs[i];
        if c == sep {
            let old_cur = cur;
            cur = String::new();
            done.push(old_cur);
            assert(views(done@).push(cur@) =~= before.push(Seq::empty()));
        } else {
            push_char(&mut cur, c);
            assert(views(done@).push(cur@) =~= before.update(before.len() - 1, before.last().push(c)));
        }
    }
    assert(cs@.take(cs@.len() as int) =~= cs@);
    let ghost before = views(done@).push(cur@);
    done.push(cur);
    assert(views(done@) =~= before);
    done
}

/// Where a part stands in a joined text: after the parts before it and a separator (none for
/// the first part), and before a separator and the parts after it (nothing for the last).
pub proof fn lemma_seq_join_at(parts: Seq<Seq<char>>, sep: Seq<char>, k: int) -> (r: (Seq<char>, Seq<char>))
    requires
        0 <= k < parts.len(),
    ensures
        seq_join(parts, sep) == r.0 + parts[k] + r.1,
        k == 0 ==> r.0 == Seq::<char>::empty(),
        k > 0 ==> r.0 == seq_join(parts.take(k), sep) + sep,
        k == parts.len() - 1 ==> r.1 == Seq::<char>::empty(),
        k < parts.len() - 1 ==> r.1 == sep + seq_join(parts.skip(k + 1), sep),
    decreases parts.len(),
{
    let n = parts.len();
    if k == n - 1 {
        if n == 1 {
            assert(seq_join(parts, sep) =~= Seq::<char>::empty() + parts[k] + Seq::<char>::empty());
            (Seq::empty(), Seq::empty())
        } else {
            assert(parts.drop_last() =~= parts.take(k));
            let a = seq_join(parts.take(k), sep) + sep;
            assert(seq_join(parts, sep) =~= a + parts[k] + Seq::<char>::empty());
            (a, Seq::empty())
        }
    } else {
        let dl = parts.drop_last();
        let (a, b) = lemma_seq_join_at(dl, sep, k);
        assert(dl[k] == parts[k]);
        if k > 0 {
            assert(dl.take(k) =~= parts.take(k));
        }
        let b2 = b + sep + parts.last();
        assert(seq_join(parts, sep) =~= a + parts[k] + b2);
        if k == n - 2 {
            assert(parts.skip(k + 1) =~= seq![parts.last()]);
            assert(b2 =~= sep + seq_join(parts.skip(k + 1), sep));
        } else {
            assert(parts.skip(k + 1).drop_last() =~= dl.skip(k + 1));
            assert(parts.skip(k + 1).last() == parts.last());
            assert(b2 =~= sep + seq_join(parts.skip(k + 1), sep));
        }
        (a, b2)
    }
}

/// What either part of a concatenation holds, the concatenation holds.
pub proof fn lemma_concat_contains(s: Seq<Seq<char>>, t: Seq<Seq<char>>)
    ensures
        forall|x: Seq<char>| (s.contains(x) || t.contains(x)) ==> #[trigger] (s + t).contains(x),
{
    assert forall|x: Seq<char>| (s.contains(x) || t.contains(x)) implies #[trigger] (s + t).contains(x) by {
        if s.contains(x) {
            let k = choose|k: int| 0 <= k < s.len() && s[k] == x;
            assert((s + t)[k] == x);
        } else {
            let k = choose|k: int| 0 <= k < t.len() && t[k] == x;
            assert((s + t)[s.len() + k] == x);
        }
    }
}

/// The names that `selected` keeps are exactly those whose flag is set.
pub proof fn lemma_selected_members(flags: Seq<bool>, names: Seq<Seq<char>>)
    requires
        flags.len() == names.len(),
    ensures
        forall|i: int| 0 <= i < flags.len() && flags[i] ==> #[trigger] selected(flags, names).contains(names[i]),
        forall|x: Seq<char>| #[trigger] selected(flags, names).contains(x) ==>
            exists|i: int| 0 <= i < flags.len() && flags[i] && names[i] == x,
    decreases flags.len(),
{
    if flags.len() > 0 {
        let fl = flags.drop_last();
        let nl = names.drop_last();
        lemma_selected_members(fl, nl);
        let rest = selected(fl, nl);
        let n = flags.len() - 1;
        assert forall|i: int| 0 <= i < flags.len() && flags[i] implies #[trigger] selected(flags, names).contains(names[i]) by {
            if i < n {
                assert(fl[i] == flags[i] && nl[i] == names[i]);
                assert(rest.contains(names[i]));
                if flags.last() {
                    let k = choose|k: int| 0 <= k < rest.len() && rest[k] == names[i];
                    assert(rest.push(names.last())[k] == names[i]);
                }
            } else {
                assert(rest.push(names.last())[rest.len() as int] == names[i]);
            }
        }
        assert forall|x: Seq<char>| #[trigger] selected(flags, names).contains(x) implies
            exists|i: int| 0 <= i < flags.len() && flags[i] && names[i] == x by {
            let sel = selected(flags, names);
            let k = choose|k: int| 0 <= k < sel.len() && sel[k] == x;
            if flags.last() && k == rest.len() {
                assert(flags[n] && names[n] == x);
            } else {
                assert(rest[k] == x);
                assert(rest.contains(x));
                let i = choose|i: int| 0 <= i < fl.len() && fl[i] && nl[i] == x;
                assert(flags[i] && names[i] == x);
            }
        }
    }
}

} // verus!
