//! The working set: the small integer indices by which pending tasks are named.
use vstd::prelude::*;
use crate::error::Error;
use crate::ids::{hyphenated, lemma_hyphenated_injective, parsed_uuid, uuid2tc, uuid_to_string};

verus! {

/// A working set, as taskchampion's `WorkingSet`: for each index, the UUID of the task that
/// it names, or none.
#[verifier::external_body]
pub struct WorkingSet {
    /// The taskchampion value.
    pub inner: taskchampion::WorkingSet,
}

/// What a working set holds: the task at each index, from index 0 up.
pub uninterp spec fn working_set_entries(ws: WorkingSet) -> Seq<Option<u128>>;

/// The number of indices that name a task.
pub open spec fn count_present(s: Seq<Option<u128>>) -> nat
    decreases s.len(),
{
    if s.len() == 0 {
        0
    } else {
        count_present(s.drop_last()) + if s.last() is Some {
            1nat
        } else {
            0nat
        }
    }
}

/// The task at an index, where there is one.
pub open spec fn entry_at(s: Seq<Option<u128>>, index: int) -> Option<u128> {
    if 0 <= index < s.len() {
        s[index]
    } else {
        None
    }
}

/// The largest index of the working set (0 where it holds no index at all).
pub open spec fn largest_index_of(s: Seq<Option<u128>>) -> nat {
    if s.len() == 0 {
        0
    } else {
        (s.len() - 1) as nat
    }
}

/// The index of a task: the largest index that names it, or `None` where none does.
pub open spec fn index_of(s: Seq<Option<u128>>, uuid: u128, r: Option<usize>) -> bool {
    match r {
        Some(i) => i < s.len() && s[i as int] == Some(uuid) && forall|j: int|
            i < j < s.len() ==> s[j] != Some(uuid),
        None => forall|j: int| 0 <= j < s.len() ==> s[j] != Some(uuid),
    }
}

/// The text of a working set, as its `__repr__` writes it.
pub open spec fn working_set_text(s: Seq<Option<u128>>) -> Seq<char> {
    "WorkingSet(len="@ + decimal_text(count_present(s)) + ", largest_index="@ + decimal_text(
        largest_index_of(s),
    ) + ")"@
}

/// The decimal digit for `d`, which lies in `0..10`.
pub open spec fn decimal_digit(d: nat) -> char {
    (48 + d) as char
}

/// The decimal text of a number, without leading zeros.
pub open spec fn decimal_text(n: nat) -> Seq<char>
    decreases n,
{
    if n < 10 {
        seq![decimal_digit(n)]
    } else {
        decimal_text(n / 10) + seq![decimal_digit(n % 10)]
    }
}

/// Writes a number with `ToString` of `usize`. Trusted: `Display` of an unsigned integer
/// writes its decimal digits without leading zeros.
#[verifier::external_body]
pub fn usize_to_string(n: usize) -> (r: String)
    ensures
        r@ == decimal_text(n as nat),
{
    n.to_string()
}

/// Calls `WorkingSet::len`. Trusted: as its source shows, it counts the indices that name a
/// task.
#[verifier::external_body]
fn tc_len(ws: &WorkingSet) -> (r: usize)
    ensures
        r == count_present(working_set_entries(*ws)),
{
    ws.inner.len()
}

/// Calls `WorkingSet::largest_index`. Trusted: as its source shows, it is the length of the
/// index list less one, and 0 for an empty list; the list is a `Vec`, whose length is at
/// most `isize::MAX`, so the result is below `usize::MAX`.
#[verifier::external_body]
fn tc_largest_index(ws: &WorkingSet) -> (r: usize)
    ensures
        r == largest_index_of(working_set_entries(*ws)),
        r < usize::MAX,
{
    ws.inner.largest_index()
}

/// Calls `WorkingSet::is_empty`. Trusted: as its source shows, it tells whether no index
/// names a task.
#[verifier::external_body]
fn tc_is_empty(ws: &WorkingSet) -> (r: bool)
    ensures
        r == (forall|i: int| 0 <= i < working_set_entries(*ws).len() ==> working_set_entries(*ws)[i] is None),
{
    ws.inner.is_empty()
}

/// Calls `WorkingSet::by_index`. Trusted: as its source shows, it returns the task at the
/// index, or `None` past the end or where the index names none.
#[verifier::external_body]
fn tc_by_index(ws: &WorkingSet, index: usize) -> (r: Option<u128>)
    ensures
        r == entry_at(working_set_entries(*ws), index as int),
{
    ws.inner.by_index(index).map(|u| u.as_u128())
}

/// Calls `WorkingSet::by_uuid`. Trusted: as its source shows, the answer comes from a map
/// filled from the index list in increasing order, so the largest index that names the task
/// wins.
#[verifier::external_body]
fn tc_by_uuid(ws: &WorkingSet, uuid: u128) -> (r: Option<usize>)
    ensures
        index_of(working_set_entries(*ws), uuid, r),
{
    ws.inner.by_uuid(taskchampion::Uuid::from_u128(uuid))
}

impl WorkingSet {
    /// The number of indices that name a task.
    pub fn __len__(&self) -> (r: usize)
        ensures
            r == count_present(working_set_entries(*self)),
    {
        tc_len(self)
    }

    /// The text of the working set.
    pub fn __repr__(&self) -> (r: String)
        ensures
            r@ == working_set_text(working_set_entries(*self)),
    {
        let mut r = String::from_str("WorkingSet(len=");
        r.append(usize_to_string(tc_len(self)).as_str());
        r.append(", largest_index=");
        r.append(usize_to_string(tc_largest_index(self)).as_str());
        r.append(")");
        r
    }

    /// The largest index.
    pub fn largest_index(&self) -> (r: usize)
        ensures
            r == largest_index_of(working_set_entries(*self)),
    {
        tc_largest_index(self)
    }

    /// Whether no index names a task.
    pub fn is_empty(&self) -> (r: bool)
        ensures
            r == (forall|i: int|
                0 <= i < working_set_entries(*self).len() ==> working_set_entries(*self)[i] is None),
    {
        tc_is_empty(self)
    }

    /// The UUID of the task at an index, or `None`.
    pub fn by_index(&self, index: usize) -> (r: Option<String>)
        ensures
            match entry_at(working_set_entries(*self), index as int) {
                Some(u) => r matches Some(s) && s@ == hyphenated(u),
                None => r is None,
            },
    {
        match tc_by_index(self, index) {
            Some(u) => Some(uuid_to_string(u)),
            None => None,
        }
    }

    /// The index of the task with the given UUID, or `None`; text that is not a UUID is refused.
    pub fn by_uuid(&self, uuid: String) -> (r: Result<Option<usize>, Error>)
        ensures
            match parsed_uuid(uuid@) {
                Some(u) => r matches Ok(i) && index_of(working_set_entries(*self), u, i),
                None => r matches Err(e) && e == Error::InvalidUuid,
            },
    {
        let u = uuid2tc(uuid.as_str())?;
        Ok(tc_by_uuid(self, u))
    }

    /// A cursor over the indices that name a task, from index 0 up to the largest index.
    pub fn __iter__(&self) -> (r: WorkingSetIter)
        ensures
            r.next_index() == 0,
            r.last_index() == largest_index_of(working_set_entries(*self)),
    {
        let largest = tc_largest_index(self);
        WorkingSetIter { idx: 0, largest }
    }
}

/// What a call of `__next__` gives, as values: the index and the UUID's text.
pub open spec fn next_view(r: Option<(usize, String)>) -> Option<(nat, Seq<char>)> {
    match r {
        Some((i, t)) => Some((i as nat, t@)),
        None => None,
    }
}

/// One call of `__next__` on a working set whose entries are `s`, by a cursor whose last
/// index is `last`: from position `cur`, the result is the next index up to `last` that names
/// a task, with that task's UUID text, and the cursor moves past it; where none is left, the
/// result is `None` and the cursor moves past `last`.
pub open spec fn iter_step(
    s: Seq<Option<u128>>,
    last: nat,
    cur: nat,
    r: Option<(nat, Seq<char>)>,
    next: nat,
) -> bool {
    match r {
        Some((i, t)) => {
            &&& cur <= i <= last
            &&& entry_at(s, i as int) matches Some(u) && t == hyphenated(u)
            &&& forall|j: int| cur <= j < i ==> entry_at(s, j) is None
            &&& next == i + 1
        },
        None => {
            &&& forall|j: int| cur <= j <= last ==> entry_at(s, j) is None
            &&& next > last
        },
    }
}

/// The indices from `from` on that name a task, in increasing order.
pub open spec fn present_from(s: Seq<Option<u128>>, from: nat) -> Seq<nat>
    decreases s.len() - from,
{
    if from >= s.len() {
        Seq::empty()
    } else if s[from as int] is Some {
        seq![from] + present_from(s, from + 1)
    } else {
        present_from(s, from + 1)
    }
}

/// A cursor over a working set's indices.
pub struct WorkingSetIter {
    idx: usize,
    largest: usize,
}

impl WorkingSetIter {
    #[verifier::type_invariant]
    spec fn bounded(self) -> bool {
        self.largest < usize::MAX
    }

    /// The next index to look at.
    pub closed spec fn next_index(self) -> nat {
        self.idx as nat
    }

    /// The last index to look at.
    pub closed spec fn last_index(self) -> nat {
        self.largest as nat
    }

    /// The next index, from the cursor's position up to its last index, that names a task, with
    /// that task's UUID; the cursor moves past it. `None` once no such index is left.
    pub fn __next__(&mut self, ws: &WorkingSet) -> (r: Option<(usize, String)>)
        ensures
            final(self).last_index() == old(self).last_index(),
            iter_step(
                working_set_entries(*ws),
                old(self).last_index(),
                old(self).next_index(),
                next_view(r),
                final(self).next_index(),
            ),
    {
        proof {
            use_type_invariant(&*self);
        }
        let ghost start = self.idx;
        while self.idx <= self.largest
            invariant
                self.largest < usize::MAX,
                start <= self.idx,
                self.largest == old(self).largest,
                start == old(self).idx,
                forall|j: int| start <= j < self.idx ==> entry_at(working_set_entries(*ws), j) is None,
            decreases self.largest - self.idx + 1,
        {
            let i = self.idx;
            self.idx = self.idx + 1;
            if let Some(u) = tc_by_index(ws, i) {
                return Some((i, uuid_to_string(u)));
            }
        }
        None
    }
}

} // verus!

verus! {

/// The index that `by_uuid` gives for a task names that task in `by_index`.
pub proof fn lemma_by_uuid_then_by_index(s: Seq<Option<u128>>, uuid: u128, i: usize)
    requires
        index_of(s, uuid, Some(i)),
    ensures
        entry_at(s, i as int) == Some(uuid),
{
}

/// `by_uuid` finds every task that an index names.
pub proof fn lemma_by_index_then_by_uuid(s: Seq<Option<u128>>, i: int, uuid: u128, r: Option<usize>)
    requires
        entry_at(s, i) == Some(uuid),
        index_of(s, uuid, r),
    ensures
        r matches Some(j) && i <= j,
{
}

} // verus!

verus! {

/// A working set is empty exactly when it counts no task: `is_empty` and `__len__` agree.
pub proof fn lemma_empty_iff_len_zero(s: Seq<Option<u128>>)
    ensures
        (forall|i: int| 0 <= i < s.len() ==> s[i] is None) <==> count_present(s) == 0,
    decreases s.len(),
{
    if s.len() > 0 {
        let rest = s.drop_last();
        lemma_empty_iff_len_zero(rest);
        if forall|i: int| 0 <= i < s.len() ==> s[i] is None {
            assert forall|i: int| 0 <= i < rest.len() implies rest[i] is None by {
                assert(rest[i] == s[i]);
            }
            assert(s[s.len() - 1] is None);
        }
        if count_present(s) == 0 {
            assert forall|i: int| 0 <= i < s.len() implies s[i] is None by {
                if i < rest.len() {
                    assert(rest[i] == s[i]);
                }
            }
        }
    }
}

} // verus!

verus! {

proof fn lemma_present_from_found(s: Seq<Option<u128>>, cur: nat, i: nat)
    requires
        cur <= i < s.len(),
        s[i as int] is Some,
        forall|j: int| cur <= j < i ==> entry_at(s, j) is None,
    ensures
        present_from(s, cur) == seq![i] + present_from(s, i + 1),
    decreases i - cur,
{
    if cur < i {
        assert(entry_at(s, cur as int) is None);
        lemma_present_from_found(s, cur + 1, i);
    }
}

proof fn lemma_present_from_none(s: Seq<Option<u128>>, cur: nat)
    requires
        forall|j: int| cur <= j < s.len() ==> entry_at(s, j) is None,
    ensures
        present_from(s, cur).len() == 0,
    decreases s.len() - cur,
{
    if cur < s.len() {
        assert(entry_at(s, cur as int) is None);
        lemma_present_from_none(s, cur + 1);
    }
}

proof fn lemma_iter_step(
    s: Seq<Option<u128>>,
    cur: nat,
    r: Option<(nat, Seq<char>)>,
    next: nat,
)
    requires
        iter_step(s, largest_index_of(s), cur, r, next),
    ensures
        present_from(s, cur).len() > 0 ==> {
            let p = present_from(s, cur);
            &&& r == Some((p[0], hyphenated(s[p[0] as int]->0)))
            &&& present_from(s, next) == p.drop_first()
        },
        present_from(s, cur).len() == 0 ==> r is None && present_from(s, next).len() == 0,
{
    match r {
        Some((i, t)) => {
            lemma_present_from_found(s, cur, i);
            assert(present_from(s, cur).drop_first() =~= present_from(s, i + 1));
        },
        None => {
            if s.len() > 0 {
                lemma_present_from_none(s, cur);
            }
            assert(next >= s.len());
        },
    }
}

proof fn lemma_iteration_cursor(
    s: Seq<Option<u128>>,
    cursors: Seq<nat>,
    results: Seq<Option<(nat, Seq<char>)>>,
    k: int,
)
    requires
        cursors.len() == results.len() + 1,
        cursors[0] == 0,
        forall|m: int|
            0 <= m < results.len() ==> iter_step(
                s,
                largest_index_of(s),
                cursors[m],
                #[trigger] results[m],
                cursors[m + 1],
            ),
        0 <= k <= results.len(),
    ensures
        present_from(s, cursors[k]) == present_from(s, 0).subrange(
            if k < present_from(s, 0).len() { k } else { present_from(s, 0).len() as int },
            present_from(s, 0).len() as int,
        ),
    decreases k,
{
    let p = present_from(s, 0);
    if k == 0 {
        assert(p.subrange(0, p.len() as int) =~= p);
    } else {
        lemma_iteration_cursor(s, cursors, results, k - 1);
        assert(iter_step(s, largest_index_of(s), cursors[k - 1], results[k - 1], cursors[k]));
        lemma_iter_step(s, cursors[k - 1], results[k - 1], cursors[k]);
        if k - 1 < p.len() {
            assert(p.subrange(k - 1, p.len() as int).drop_first() =~= p.subrange(
                if k < p.len() { k } else { p.len() as int },
                p.len() as int,
            ));
        } else {
            assert(present_from(s, cursors[k]) =~= p.subrange(p.len() as int, p.len() as int));
        }
    }
}

/// Iterating a working set from a fresh cursor of `__iter__` (at index 0, with the working
/// set's largest index as its last) yields, call after call, each index that names a task
/// together with that task's UUID text, each once and in increasing order; once they are all
/// given, that call and every later one yields `None`.
pub proof fn lemma_iteration_yields_entries(
    s: Seq<Option<u128>>,
    cursors: Seq<nat>,
    results: Seq<Option<(nat, Seq<char>)>>,
)
    requires
        cursors.len() == results.len() + 1,
        cursors[0] == 0,
        forall|m: int|
            0 <= m < results.len() ==> iter_step(
                s,
                largest_index_of(s),
                cursors[m],
                #[trigger] results[m],
                cursors[m + 1],
            ),
    ensures
        forall|k: int|
            0 <= k < results.len() ==> #[trigger] results[k] == if k < present_from(s, 0).len() {
                Some(
                    (
                        present_from(s, 0)[k],
                        hyphenated(s[present_from(s, 0)[k] as int]->0),
                    ),
                )
            } else {
                None
            },
        forall|i: int, j: int|
            0 <= i < j < present_from(s, 0).len() ==> present_from(s, 0)[i] < present_from(
                s,
                0,
            )[j],
        forall|i: nat| i < s.len() && s[i as int] is Some <==> present_from(s, 0).contains(i),
{
    let p = present_from(s, 0);
    assert forall|k: int| 0 <= k < results.len() implies #[trigger] results[k] == if k < p.len() {
        Some((p[k], hyphenated(s[p[k] as int]->0)))
    } else {
        None
    } by {
        lemma_iteration_cursor(s, cursors, results, k);
        assert(iter_step(s, largest_index_of(s), cursors[k], results[k], cursors[k + 1]));
        lemma_iter_step(s, cursors[k], results[k], cursors[k + 1]);
        if k < p.len() {
            assert(present_from(s, cursors[k])[0] == p[k]);
        }
    }
    lemma_present_from_shape(s, 0);
}

proof fn lemma_present_from_shape(s: Seq<Option<u128>>, from: nat)
    ensures
        forall|i: int, j: int|
            0 <= i < j < present_from(s, from).len() ==> present_from(s, from)[i] < present_from(
                s,
                from,
            )[j],
        forall|i: int| 0 <= i < present_from(s, from).len() ==> from <= #[trigger] present_from(s, from)[i],
        forall|i: nat|
            from <= i < s.len() && s[i as int] is Some <==> present_from(s, from).contains(i),
    decreases s.len() - from,
{
    if from < s.len() {
        lemma_present_from_shape(s, from + 1);
        let rest = present_from(s, from + 1);
        if s[from as int] is Some {
            let p = seq![from] + rest;
            assert(present_from(s, from) == p);
            assert forall|i: nat| from <= i < s.len() && s[i as int] is Some <==> p.contains(i) by {
                if p.contains(i) {
                    let k = choose|k: int| 0 <= k < p.len() && p[k] == i;
                    if k > 0 {
                        assert(rest[k - 1] == i);
                        assert(rest.contains(i));
                    } else {
                        assert(i == from);
                    }
                }
                if from <= i < s.len() && s[i as int] is Some {
                    if i == from {
                        assert(p[0] == i);
                    } else {
                        assert(from + 1 <= i < s.len() && s[i as int] is Some);
                        assert(rest.contains(i));
                        let k = choose|k: int| 0 <= k < rest.len() && rest[k] == i;
                        assert(p[k + 1] == i);
                    }
                }
            }
        } else {
            assert forall|i: nat| from <= i < s.len() && s[i as int] is Some <==> rest.contains(i) by {
                if rest.contains(i) {
                    let k = choose|k: int| 0 <= k < rest.len() && rest[k] == i;
                    assert(from + 1 <= rest[k]);
                }
            }
        }
    }
}

/// No UUID stands at two indices.
pub open spec fn entries_distinct(s: Seq<Option<u128>>) -> bool {
    forall|i: int, j: int|
        0 <= i < s.len() && 0 <= j < s.len() && i != j && s[i] is Some ==> s[i] != s[j]
}

/// Where no UUID stands at two indices, `by_uuid` and `by_index` agree on texts: `by_uuid`
/// gives index `i` exactly when `by_index(i)` gives the task's canonical text, and gives none
/// exactly when no index gives it.
pub proof fn lemma_by_uuid_agrees_with_by_index(
    s: Seq<Option<u128>>,
    uuid: u128,
    r: Option<usize>,
    i: usize,
)
    requires
        entries_distinct(s),
        index_of(s, uuid, r),
    ensures
        r == Some(i) <==> (entry_at(s, i as int) matches Some(v) && hyphenated(v) == hyphenated(
            uuid,
        )),
        r is None <==> forall|j: int|
            #![trigger entry_at(s, j)]
            entry_at(s, j) is Some ==> hyphenated(entry_at(s, j)->0) != hyphenated(uuid),
{
    if let Some(v) = entry_at(s, i as int) {
        if hyphenated(v) == hyphenated(uuid) {
            lemma_hyphenated_injective(v, uuid);
            let j = r->0;
            assert(s[j as int] == Some(uuid));
        }
    }
    if r is None {
        assert forall|j: int|
            #![trigger entry_at(s, j)]
            entry_at(s, j) is Some implies hyphenated(entry_at(s, j)->0) != hyphenated(uuid) by {
            if hyphenated(entry_at(s, j)->0) == hyphenated(uuid) {
                lemma_hyphenated_injective(entry_at(s, j)->0, uuid);
            }
        }
    } else {
        let j = r->0;
        assert(entry_at(s, j as int) == Some(uuid));
    }
}

} // verus!

verus! {

proof fn lemma_present_from_drop_last(s: Seq<Option<u128>>, from: nat)
    requires
        s.len() > 0,
        from <= s.len(),
    ensures
        present_from(s, from).len() == present_from(s.drop_last(), from).len() + if from < s.len()
            && s.last() is Some {
            1nat
        } else {
            0nat
        },
    decreases s.len() - from,
{
    let t = s.drop_last();
    if from + 1 < s.len() {
        assert(t[from as int] == s[from as int]);
        lemma_present_from_drop_last(s, from + 1);
    } else if from + 1 == s.len() {
        assert(present_from(s, from + 1).len() == 0);
        assert(present_from(t, from).len() == 0);
    }
}

/// The number of indices that name a task (`__len__`) is the number of entries that
/// iterating the working set yields.
pub proof fn lemma_len_counts_iteration(s: Seq<Option<u128>>)
    ensures
        count_present(s) == present_from(s, 0).len(),
    decreases s.len(),
{
    if s.len() > 0 {
        lemma_len_counts_iteration(s.drop_last());
        lemma_present_from_drop_last(s, 0);
    }
}

/// The text of a working set gives, as `len`, how many entries iterating it yields, and, as
/// `largest_index`, its last index (0 when it has none).
pub proof fn lemma_repr_fields(s: Seq<Option<u128>>)
    ensures
        working_set_text(s) == "WorkingSet(len="@ + decimal_text(present_from(s, 0).len())
            + ", largest_index="@ + decimal_text(
            if s.len() == 0 {
                0nat
            } else {
                (s.len() - 1) as nat
            },
        ) + ")"@,
{
    lemma_len_counts_iteration(s);
}

} // verus!
