//! Task maps: the properties of a task, held as a list of key/value entries.
use vstd::prelude::*;
use crate::text::{key_lt, key_less, lemma_key_order_is_lexicographic, lexicographically_before};

verus! {

/// A key/value entry, as text.
pub type EntryView = (Seq<char>, Seq<char>);

/// The text of an entry.
pub open spec fn entry_view(e: (String, String)) -> EntryView {
    (e.0@, e.1@)
}

/// The text of a list of entries.
pub open spec fn entries_view(s: Seq<(String, String)>) -> Seq<EntryView> {
    s.map_values(|e: (String, String)| entry_view(e))
}

/// No key occurs twice.
pub open spec fn keys_distinct(s: Seq<EntryView>) -> bool {
    forall|i: int, j: int| 0 <= i < s.len() && 0 <= j < s.len() && i != j ==> s[i].0 != s[j].0
}

/// The map that a list of entries stands for (a later entry wins over an earlier one).
pub open spec fn entries_map(s: Seq<EntryView>) -> Map<Seq<char>, Seq<char>>
    decreases s.len(),
{
    if s.len() == 0 {
        Map::empty()
    } else {
        entries_map(s.drop_last()).insert(s.last().0, s.last().1)
    }
}

/// `t` with `x` inserted after the entries whose keys do not come after its key.
pub open spec fn insert_entry(t: Seq<EntryView>, x: EntryView) -> Seq<EntryView>
    decreases t.len(),
{
    if t.len() == 0 {
        seq![x]
    } else if key_lt(x.0, t[0].0) {
        seq![x] + t
    } else {
        seq![t[0]] + insert_entry(t.drop_first(), x)
    }
}

/// The entries ordered by key; entries with equal keys keep their order (a stable sort).
pub open spec fn sort_entries(s: Seq<EntryView>) -> Seq<EntryView>
    decreases s.len(),
{
    if s.len() == 0 {
        s
    } else {
        insert_entry(sort_entries(s.drop_last()), s.last())
    }
}

proof fn lemma_insert_entry_at(t: Seq<EntryView>, x: EntryView, j: int)
    requires
        0 <= j <= t.len(),
        forall|k: int| 0 <= k < j ==> !key_lt(x.0, #[trigger] t[k].0),
        j < t.len() ==> key_lt(x.0, t[j].0),
    ensures
        insert_entry(t, x) == t.insert(j, x),
    decreases t.len(),
{
    if t.len() == 0 {
        assert(t.insert(j, x) =~= seq![x]);
    } else if j == 0 {
        assert(t.insert(0, x) =~= seq![x] + t);
    } else {
        let r = t.drop_first();
        assert forall|k: int| 0 <= k < j - 1 implies !key_lt(x.0, #[trigger] r[k].0) by {
            assert(r[k] == t[k + 1]);
        }
        lemma_insert_entry_at(r, x, j - 1);
        assert(t.insert(j, x) =~= seq![t[0]] + r.insert(j - 1, x));
    }
}

/// Copies an entry.
pub fn clone_entry(e: &(String, String)) -> (r: (String, String))
    ensures
        entry_view(r) == entry_view(*e),
{
    (e.0.clone(), e.1.clone())
}

/// Copies a list of entries.
pub fn clone_entries(s: &Vec<(String, String)>) -> (r: Vec<(String, String)>)
    ensures
        entries_view(r@) == entries_view(s@),
{
    let mut r: Vec<(String, String)> = Vec::new();
    let mut i: usize = 0;
    while i < s.len()
        invariant
            i <= s@.len(),
            entries_view(r@) == entries_view(s@).take(i as int),
        decreases s@.len() - i,
    {
        let e = clone_entry(&s[i]);
        let ghost before = r@;
        r.push(e);
        assert(r@ == before.push(e));
        assert(entries_view(r@) =~= entries_view(before).push(entry_view(e)));
        assert(entries_view(s@).take(i + 1) =~= entries_view(s@).take(i as int).push(entry_view(s@[i as int])));
        i = i + 1;
    }
    assert(entries_view(s@).take(s@.len() as int) =~= entries_view(s@));
    r
}

/// Orders entries by key, as `sort_entries` says.
pub fn sorted_entries(s: &Vec<(String, String)>) -> (r: Vec<(String, String)>)
    ensures
        entries_view(r@) == sort_entries(entries_view(s@)),
{
    let ghost sv = entries_view(s@);
    let mut r: Vec<(String, String)> = Vec::new();
    let mut i: usize = 0;
    while i < s.len()
        invariant
            i <= s@.len(),
            sv == entries_view(s@),
            entries_view(r@) == sort_entries(sv.take(i as int)),
        decreases s@.len() - i,
    {
        let x = clone_entry(&s[i]);
        let mut j: usize = 0;
        while j < r.len() && !key_less(x.0.as_str(), r[j].0.as_str())
            invariant
                j <= r@.len(),
                forall|k: int| 0 <= k < j ==> !key_lt(x.0@, #[trigger] r@[k].0@),
            decreases r@.len() - j,
        {
            j = j + 1;
        }
        let ghost before = entries_view(r@);
        proof {
            assert forall|k: int| 0 <= k < j implies !key_lt(entry_view(x).0, #[trigger] before[k].0) by {
                assert(before[k] == entry_view(r@[k]));
            }
            if j < r@.len() {
                assert(before[j as int] == entry_view(r@[j as int]));
            }
            lemma_insert_entry_at(before, entry_view(x), j as int);
        }
        r.insert(j, x);
        proof {
            assert(entries_view(r@) =~= before.insert(j as int, entry_view(x)));
            assert(sv.take(i + 1).drop_last() =~= sv.take(i as int));
            assert(sv.take(i + 1).last() == sv[i as int]);
            assert(sv[i as int] == entry_view(s@[i as int]));
        }
        i = i + 1;
    }
    assert(sv.take(s@.len() as int) =~= sv);
    r
}

} // verus!

verus! {

/// The entries are in strictly increasing order of their keys.
pub open spec fn strictly_sorted(t: Seq<EntryView>) -> bool {
    forall|i: int, j: int| 0 <= i < j < t.len() ==> key_lt(#[trigger] t[i].0, #[trigger] t[j].0)
}

proof fn lemma_insert_entry_contains(t: Seq<EntryView>, x: EntryView, e: EntryView)
    ensures
        insert_entry(t, x).contains(e) <==> (t.contains(e) || e == x),
        insert_entry(t, x).len() == t.len() + 1,
    decreases t.len(),
{
    if t.len() == 0 {
        assert(insert_entry(t, x) =~= seq![x]);
        if insert_entry(t, x).contains(e) {
            assert(insert_entry(t, x)[0] == e);
        } else {
            assert(insert_entry(t, x)[0] == x);
        }
    } else if key_lt(x.0, t[0].0) {
        let r = seq![x] + t;
        if r.contains(e) {
            let i = choose|i: int| 0 <= i < r.len() && r[i] == e;
            if i > 0 {
                assert(t[i - 1] == e);
            }
        }
        if t.contains(e) {
            let i = choose|i: int| 0 <= i < t.len() && t[i] == e;
            assert(r[i + 1] == e);
        }
        if e == x {
            assert(r[0] == e);
        }
    } else {
        let rest = t.drop_first();
        lemma_insert_entry_contains(rest, x, e);
        let ins = insert_entry(rest, x);
        let r = seq![t[0]] + ins;
        assert(t =~= seq![t[0]] + rest);
        if r.contains(e) {
            let i = choose|i: int| 0 <= i < r.len() && r[i] == e;
            if i > 0 {
                assert(ins[i - 1] == e);
                if rest.contains(e) {
                    let j = choose|j: int| 0 <= j < rest.len() && rest[j] == e;
                    assert(t[j + 1] == e);
                }
            } else {
                assert(t[0] == e);
            }
        }
        if t.contains(e) {
            let i = choose|i: int| 0 <= i < t.len() && t[i] == e;
            if i > 0 {
                assert(rest[i - 1] == e);
                assert(ins.contains(e));
                let j = choose|j: int| 0 <= j < ins.len() && ins[j] == e;
                assert(r[j + 1] == e);
            } else {
                assert(r[0] == e);
            }
        }
        if e == x {
            assert(ins.contains(e));
            let j = choose|j: int| 0 <= j < ins.len() && ins[j] == e;
            assert(r[j + 1] == e);
        }
    }
}

proof fn lemma_sort_entries_contains(s: Seq<EntryView>, e: EntryView)
    ensures
        sort_entries(s).contains(e) <==> s.contains(e),
        sort_entries(s).len() == s.len(),
    decreases s.len(),
{
    if s.len() > 0 {
        let rest = s.drop_last();
        lemma_sort_entries_contains(rest, e);
        lemma_insert_entry_contains(sort_entries(rest), s.last(), e);
        assert(s =~= rest.push(s.last()));
        if s.contains(e) {
            let i = choose|i: int| 0 <= i < s.len() && s[i] == e;
            if i < rest.len() {
                assert(rest[i] == e);
            }
        }
        if rest.contains(e) {
            let i = choose|i: int| 0 <= i < rest.len() && rest[i] == e;
            assert(s[i] == e);
        }
        if e == s.last() {
            assert(s[s.len() - 1] == e);
        }
    }
}

proof fn lemma_insert_entry_sorted(t: Seq<EntryView>, x: EntryView)
    requires
        strictly_sorted(t),
        forall|i: int| 0 <= i < t.len() ==> #[trigger] t[i].0 != x.0,
    ensures
        strictly_sorted(insert_entry(t, x)),
    decreases t.len(),
{
    if t.len() == 0 {
        assert(insert_entry(t, x) =~= seq![x]);
    } else if key_lt(x.0, t[0].0) {
        let r = seq![x] + t;
        assert forall|i: int, j: int| 0 <= i < j < r.len() implies key_lt(#[trigger] r[i].0, #[trigger] r[j].0) by {
            if i == 0 {
                if j > 1 {
                    crate::text::lemma_key_order(x.0, t[0].0, t[j - 1].0);
                }
            } else {
                assert(r[i] == t[i - 1] && r[j] == t[j - 1]);
            }
        }
    } else {
        let rest = t.drop_first();
        crate::text::lemma_key_order(x.0, t[0].0, x.0);
        assert(key_lt(t[0].0, x.0));
        assert forall|i: int| 0 <= i < rest.len() implies #[trigger] rest[i].0 != x.0 by {
            assert(rest[i] == t[i + 1]);
        }
        assert(strictly_sorted(rest)) by {
            assert forall|i: int, j: int| 0 <= i < j < rest.len() implies key_lt(#[trigger] rest[i].0, #[trigger] rest[j].0) by {
                assert(rest[i] == t[i + 1] && rest[j] == t[j + 1]);
            }
        }
        lemma_insert_entry_sorted(rest, x);
        let ins = insert_entry(rest, x);
        let r = seq![t[0]] + ins;
        assert forall|i: int, j: int| 0 <= i < j < r.len() implies key_lt(#[trigger] r[i].0, #[trigger] r[j].0) by {
            if i == 0 {
                let e = ins[j - 1];
                lemma_insert_entry_contains(rest, x, e);
                assert(ins.contains(e));
                if e != x {
                    let k = choose|k: int| 0 <= k < rest.len() && rest[k] == e;
                    assert(t[k + 1] == e);
                }
            } else {
                assert(r[i] == ins[i - 1] && r[j] == ins[j - 1]);
            }
        }
    }
}

proof fn lemma_sort_entries_sorted(s: Seq<EntryView>)
    requires
        keys_distinct(s),
    ensures
        strictly_sorted(sort_entries(s)),
    decreases s.len(),
{
    if s.len() > 0 {
        let rest = s.drop_last();
        assert forall|i: int, j: int| 0 <= i < rest.len() && 0 <= j < rest.len() && i != j implies rest[i].0 != rest[j].0 by {
            assert(rest[i] == s[i] && rest[j] == s[j]);
        }
        lemma_sort_entries_sorted(rest);
        let t = sort_entries(rest);
        assert forall|i: int| 0 <= i < t.len() implies #[trigger] t[i].0 != s.last().0 by {
            lemma_sort_entries_contains(rest, t[i]);
            assert(t.contains(t[i]));
            let k = choose|k: int| 0 <= k < rest.len() && rest[k] == t[i];
            assert(s[k] == t[i]);
        }
        lemma_insert_entry_sorted(t, s.last());
    }
}

proof fn lemma_sorted_unique(t1: Seq<EntryView>, t2: Seq<EntryView>)
    requires
        strictly_sorted(t1),
        strictly_sorted(t2),
        forall|e: EntryView| t1.contains(e) <==> t2.contains(e),
    ensures
        t1 == t2,
    decreases t1.len(),
{
    if t1.len() == 0 {
        if t2.len() > 0 {
            assert(t2.contains(t2[0]));
        }
        assert(t1 =~= t2);
    } else {
        assert(t1.contains(t1[0]));
        assert(t2.len() > 0);
        assert(t2.contains(t2[0]));
        let j = choose|j: int| 0 <= j < t2.len() && t2[j] == t1[0];
        let k = choose|k: int| 0 <= k < t1.len() && t1[k] == t2[0];
        if j > 0 {
            if k > 0 {
                crate::text::lemma_key_order(t1[0].0, t1[k].0, t1[0].0);
            } else {
                crate::text::lemma_key_order(t2[0].0, t2[0].0, t2[0].0);
            }
        }
        assert(t1[0] == t2[0]);
        let r1 = t1.drop_first();
        let r2 = t2.drop_first();
        assert forall|e: EntryView| r1.contains(e) <==> r2.contains(e) by {
            crate::text::lemma_key_order(t1[0].0, t1[0].0, t1[0].0);
            if r1.contains(e) {
                let i = choose|i: int| 0 <= i < r1.len() && r1[i] == e;
                assert(t1[i + 1] == e);
                assert(t1.contains(e));
                let m = choose|m: int| 0 <= m < t2.len() && t2[m] == e;
                if m == 0 {
                    assert(key_lt(t1[0].0, t1[i + 1].0));
                }
                assert(r2[m - 1] == e);
            }
            if r2.contains(e) {
                let i = choose|i: int| 0 <= i < r2.len() && r2[i] == e;
                assert(t2[i + 1] == e);
                assert(t2.contains(e));
                let m = choose|m: int| 0 <= m < t1.len() && t1[m] == e;
                if m == 0 {
                    assert(key_lt(t2[0].0, t2[i + 1].0));
                }
                assert(r1[m - 1] == e);
            }
        }
        assert(strictly_sorted(r1)) by {
            assert forall|a: int, b: int| 0 <= a < b < r1.len() implies key_lt(#[trigger] r1[a].0, #[trigger] r1[b].0) by {
                assert(r1[a] == t1[a + 1] && r1[b] == t1[b + 1]);
            }
        }
        assert(strictly_sorted(r2)) by {
            assert forall|a: int, b: int| 0 <= a < b < r2.len() implies key_lt(#[trigger] r2[a].0, #[trigger] r2[b].0) by {
                assert(r2[a] == t2[a + 1] && r2[b] == t2[b + 1]);
            }
        }
        lemma_sorted_unique(r1, r2);
        assert(t1 =~= seq![t1[0]] + r1);
        assert(t2 =~= seq![t2[0]] + r2);
    }
}

proof fn lemma_entries_map_contains(s: Seq<EntryView>, e: EntryView)
    requires
        keys_distinct(s),
    ensures
        s.contains(e) <==> (entries_map(s).contains_key(e.0) && entries_map(s)[e.0] == e.1),
    decreases s.len(),
{
    if s.len() > 0 {
        let rest = s.drop_last();
        assert forall|i: int, j: int| 0 <= i < rest.len() && 0 <= j < rest.len() && i != j implies rest[i].0 != rest[j].0 by {
            assert(rest[i] == s[i] && rest[j] == s[j]);
        }
        lemma_entries_map_contains(rest, e);
        if s.contains(e) {
            let i = choose|i: int| 0 <= i < s.len() && s[i] == e;
            if i < rest.len() {
                assert(rest[i] == e);
                assert(s[i].0 != s[s.len() - 1].0);
            }
        }
        if entries_map(s).contains_key(e.0) && entries_map(s)[e.0] == e.1 {
            if e.0 == s.last().0 {
                assert(s[s.len() - 1] == e);
            } else {
                assert(rest.contains(e));
                let i = choose|i: int| 0 <= i < rest.len() && rest[i] == e;
                assert(s[i] == e);
            }
        }
        if s.contains(e) && e.0 != s.last().0 {
            let i = choose|i: int| 0 <= i < s.len() && s[i] == e;
            assert(rest[i] == e);
        }
    }
}

/// Lists of entries with distinct keys that stand for the same map are ordered alike: the
/// order of a task map's entries does not show in their sorted list.
pub proof fn lemma_sort_entries_determined_by_map(a: Seq<EntryView>, b: Seq<EntryView>)
    requires
        keys_distinct(a),
        keys_distinct(b),
        entries_map(a) == entries_map(b),
    ensures
        sort_entries(a) == sort_entries(b),
        strictly_sorted(sort_entries(a)),
{
    lemma_sort_entries_sorted(a);
    lemma_sort_entries_sorted(b);
    assert forall|e: EntryView| sort_entries(a).contains(e) <==> sort_entries(b).contains(e) by {
        lemma_sort_entries_contains(a, e);
        lemma_sort_entries_contains(b, e);
        lemma_entries_map_contains(a, e);
        lemma_entries_map_contains(b, e);
    }
    lemma_sorted_unique(sort_entries(a), sort_entries(b));
}

} // verus!

verus! {

/// Every key of the map that a list of entries stands for is the key of one of the entries,
/// and every entry's key is in the map.
pub proof fn lemma_entries_map_keys(s: Seq<EntryView>, k: Seq<char>)
    ensures
        entries_map(s).contains_key(k) <==> exists|i: int| 0 <= i < s.len() && #[trigger] s[i].0 == k,
    decreases s.len(),
{
    if s.len() > 0 {
        let rest = s.drop_last();
        lemma_entries_map_keys(rest, k);
        if entries_map(s).contains_key(k) {
            if k == s.last().0 {
                assert(s[s.len() - 1].0 == k);
            } else {
                let i = choose|i: int| 0 <= i < rest.len() && #[trigger] rest[i].0 == k;
                assert(s[i].0 == k);
            }
        }
        if exists|i: int| 0 <= i < s.len() && #[trigger] s[i].0 == k {
            let i = choose|i: int| 0 <= i < s.len() && #[trigger] s[i].0 == k;
            if i < rest.len() {
                assert(rest[i].0 == k);
            }
        }
    }
}

} // verus!

verus! {

/// Two lists hold the same entries, whatever their order.
pub open spec fn same_entries(a: Seq<EntryView>, b: Seq<EntryView>) -> bool {
    forall|e: EntryView| a.contains(e) <==> b.contains(e)
}

/// Whether a list of entries holds the entry.
pub fn entries_contain(s: &Vec<(String, String)>, e: &(String, String)) -> (r: bool)
    ensures
        r == entries_view(s@).contains(entry_view(*e)),
{
    let ghost sv = entries_view(s@);
    let mut i: usize = 0;
    while i < s.len()
        invariant
            i <= s@.len(),
            sv == entries_view(s@),
            forall|j: int| 0 <= j < i ==> sv[j] != entry_view(*e),
        decreases s@.len() - i,
    {
        assert(sv[i as int] == entry_view(s@[i as int]));
        if s[i].0 == e.0 && s[i].1 == e.1 {
            return true;
        }
        i = i + 1;
    }
    proof {
        if sv.contains(entry_view(*e)) {
            let j = choose|j: int| 0 <= j < sv.len() && sv[j] == entry_view(*e);
            assert(sv[j] != entry_view(*e));
        }
    }
    false
}

/// Whether every entry of `a` is in `b`.
fn entries_within(a: &Vec<(String, String)>, b: &Vec<(String, String)>) -> (r: bool)
    ensures
        r == forall|e: EntryView| entries_view(a@).contains(e) ==> entries_view(b@).contains(e),
{
    let ghost av = entries_view(a@);
    let ghost bv = entries_view(b@);
    let mut i: usize = 0;
    while i < a.len()
        invariant
            i <= a@.len(),
            av == entries_view(a@),
            bv == entries_view(b@),
            forall|j: int| 0 <= j < i ==> bv.contains(#[trigger] av[j]),
        decreases a@.len() - i,
    {
        assert(av[i as int] == entry_view(a@[i as int]));
        if !entries_contain(b, &a[i]) {
            return false;
        }
        i = i + 1;
    }
    assert forall|e: EntryView| av.contains(e) implies bv.contains(e) by {
        let j = choose|j: int| 0 <= j < av.len() && av[j] == e;
        assert(bv.contains(av[j]));
    }
    true
}

/// Whether two lists hold the same entries, whatever their order.
pub fn entries_equal(a: &Vec<(String, String)>, b: &Vec<(String, String)>) -> (r: bool)
    ensures
        r == same_entries(entries_view(a@), entries_view(b@)),
{
    let x = entries_within(a, b);
    let y = entries_within(b, a);
    x && y
}

/// For lists with distinct keys, holding the same entries is standing for the same map.
pub proof fn lemma_same_entries_iff_same_map(a: Seq<EntryView>, b: Seq<EntryView>)
    requires
        keys_distinct(a),
        keys_distinct(b),
    ensures
        same_entries(a, b) <==> entries_map(a) == entries_map(b),
{
    assert forall|e: EntryView| #![trigger a.contains(e), b.contains(e)]
        a.contains(e) <==> (entries_map(a).contains_key(e.0) && entries_map(a)[e.0] == e.1) by {
        lemma_entries_map_contains(a, e);
    }
    assert forall|e: EntryView| #![trigger a.contains(e), b.contains(e)]
        b.contains(e) <==> (entries_map(b).contains_key(e.0) && entries_map(b)[e.0] == e.1) by {
        lemma_entries_map_contains(b, e);
    }
    if same_entries(a, b) {
        assert forall|k: Seq<char>| #[trigger] entries_map(a).contains_key(k) implies entries_map(b).contains_key(k)
            && entries_map(b)[k] == entries_map(a)[k] by {
            let e = (k, entries_map(a)[k]);
            lemma_entries_map_contains(a, e);
            lemma_entries_map_contains(b, e);
        }
        assert forall|k: Seq<char>| #[trigger] entries_map(b).contains_key(k) implies entries_map(a).contains_key(k) by {
            let e = (k, entries_map(b)[k]);
            lemma_entries_map_contains(a, e);
            lemma_entries_map_contains(b, e);
        }
        assert(entries_map(a).dom() =~= entries_map(b).dom());
        assert(entries_map(a) =~= entries_map(b));
    }
    if entries_map(a) == entries_map(b) {
        assert forall|e: EntryView| a.contains(e) <==> b.contains(e) by {
            lemma_entries_map_contains(a, e);
            lemma_entries_map_contains(b, e);
        }
    }
}

} // verus!

verus! {

/// Sorting entries with distinct keys lists the keys in dictionary order of code points,
/// whatever the lengths of the keys: an earlier key is a proper prefix of a later one, or
/// has the smaller code point at the first position where they differ.
pub proof fn lemma_sorted_keys_in_dictionary_order(t: Seq<EntryView>)
    requires
        keys_distinct(t),
    ensures
        forall|i: int, j: int|
            0 <= i < j < sort_entries(t).len() ==> lexicographically_before(
                #[trigger] sort_entries(t)[i].0,
                #[trigger] sort_entries(t)[j].0,
            ),
{
    lemma_sort_entries_determined_by_map(t, t);
    assert forall|i: int, j: int|
        0 <= i < j < sort_entries(t).len() implies lexicographically_before(
            #[trigger] sort_entries(t)[i].0,
            #[trigger] sort_entries(t)[j].0,
        ) by {
        lemma_key_order_is_lexicographic(sort_entries(t)[i].0, sort_entries(t)[j].0);
    }
}

} // verus!
