//! Sequences of operations, indexed and sliced as a Python list is.
use vstd::prelude::*;
use crate::error::Error;
use crate::operation::{
    format_operation, operation_text, operations_equal, Operation, OperationKind, OperationView,
};
use crate::text::{join_strings, join_texts};
use crate::timestamp::Timestamp;

verus! {

/// A sequence of operations.
#[derive(Debug, Eq)]
pub struct Operations {
    pub(crate) ops: Vec<Operation>,
}

impl View for Operations {
    type V = Seq<OperationView>;

    closed spec fn view(&self) -> Seq<OperationView> {
        self.ops@.map_values(|o: Operation| o@)
    }
}

/// What a sequence of operations is indexed by: an integer (negative ones count from the
/// end), a slice resolved against the sequence's length (as Python's `slice.indices`
/// resolves it), or anything else.
pub enum OperationsKey {
    Index(isize),
    Slice { start: isize, step: isize, slicelength: usize },
    Other,
}

/// What indexing gives: one operation, or the operations of a slice.
pub enum OperationsItem {
    One(Operation),
    Many(Operations),
}

/// The position that the `k`-th element of a slice comes from.
pub open spec fn slice_position(start: int, step: int, k: int) -> int {
    start + k * step
}

/// Every element of the slice comes from a position inside a sequence of length `len`.
pub open spec fn slice_in_bounds(start: int, step: int, slicelength: int, len: int) -> bool {
    forall|k: int| 0 <= k < slicelength ==> 0 <= #[trigger] slice_position(start, step, k) < len
}

/// The elements of a slice.
pub open spec fn slice_of<A>(s: Seq<A>, start: int, step: int, slicelength: int) -> Seq<A> {
    Seq::new(slicelength as nat, |k: int| s[slice_position(start, step, k)])
}

/// The position that an integer index stands for in a sequence of length `len`.
pub open spec fn normalized_index(idx: int, len: int) -> int {
    if idx < 0 {
        idx + len
    } else {
        idx
    }
}

/// What `__getitem__` gives for a key, in a sequence of operations `s`.
pub open spec fn getitem_result(s: Seq<OperationView>, key: OperationsKey, r: Result<OperationsItem, Error>) -> bool {
    match key {
        OperationsKey::Index(idx) => {
            let n = normalized_index(idx as int, s.len() as int);
            if 0 <= n < s.len() {
                r matches Ok(OperationsItem::One(op)) && op@ == s[n]
            } else {
                r matches Err(e) && e == Error::IndexOutOfRange
            }
        },
        OperationsKey::Slice { start, step, slicelength } => r matches Ok(OperationsItem::Many(ops))
            && ops@ == slice_of(s, start as int, step as int, slicelength as int),
        OperationsKey::Other => r matches Err(e) && e == Error::InvalidIndexType,
    }
}

/// The text of a sequence of operations, as its `__repr__` writes it.
pub open spec fn operations_text(s: Seq<OperationView>) -> Seq<char> {
    "Operations(["@ + join_texts(s.map_values(|v: OperationView| operation_text(v)), ", "@)
        + "])"@
}

/// Whether two sequences of operations are equal: of the same length, with equal operations
/// at each position.
pub open spec fn sequences_equal(a: Seq<OperationView>, b: Seq<OperationView>) -> bool {
    a.len() == b.len() && forall|i: int| 0 <= i < a.len() ==> operations_equal(a[i], b[i])
}

impl PartialEq for Operations {
    fn eq(&self, other: &Operations) -> (r: bool) {
        if self.ops.len() != other.ops.len() {
            return false;
        }
        let mut i: usize = 0;
        while i < self.ops.len()
            invariant
                i <= self.ops@.len(),
                self.ops@.len() == other.ops@.len(),
                forall|j: int| 0 <= j < i ==> operations_equal(#[trigger] self@[j], other@[j]),
            decreases self.ops@.len() - i,
        {
            let same = self.ops[i] == other.ops[i];
            assert(self@[i as int] == self.ops@[i as int]@ && other@[i as int] == other.ops@[i as int]@);
            if !same {
                return false;
            }
            i = i + 1;
        }
        true
    }
}

impl vstd::std_specs::cmp::PartialEqSpecImpl for Operations {
    open spec fn obeys_eq_spec() -> bool {
        true
    }

    open spec fn eq_spec(&self, other: &Operations) -> bool {
        sequences_equal(self@, other@)
    }
}

impl Operations {
    /// An empty sequence.
    pub fn new() -> (r: Operations)
        ensures
            r@ == Seq::<OperationView>::empty(),
    {
        let r = Operations { ops: Vec::new() };
        assert(r@ =~= Seq::<OperationView>::empty());
        r
    }

    /// Appends an operation.
    pub fn append(&mut self, op: Operation)
        ensures
            final(self)@ == old(self)@.push(op@),
    {
        let ghost before = self.ops@;
        self.ops.push(op);
        assert(self.ops@.map_values(|o: Operation| o@) =~= before.map_values(|o: Operation| o@).push(
            op@,
        ));
    }

    /// The number of operations.
    pub fn __len__(&self) -> (r: usize)
        ensures
            r == self@.len(),
    {
        self.ops.len()
    }

    /// The text of the sequence.
    pub fn __repr__(&self) -> (r: String)
        ensures
            r@ == operations_text(self@),
    {
        let mut body: Vec<String> = Vec::new();
        let mut i: usize = 0;
        while i < self.ops.len()
            invariant
                i <= self.ops@.len(),
                body@.len() == i,
                forall|k: int| 0 <= k < i ==> #[trigger] body@[k]@ == operation_text(self.ops@[k]@),
            decreases self.ops@.len() - i,
        {
            body.push(format_operation(&self.ops[i]));
            i = i + 1;
        }
        let joined = join_strings(&body, ", ");
        assert(body@.map_values(|p: String| p@) =~= self@.map_values(
            |v: OperationView| operation_text(v),
        ));
        let mut r = String::from_str("Operations([");
        r.append(joined.as_str());
        r.append("])");
        r
    }

    /// Indexes the sequence: by an integer, by a resolved slice, or (refused) by anything else.
    pub fn __getitem__(&self, key: OperationsKey) -> (r: Result<OperationsItem, Error>)
        requires
            key matches OperationsKey::Slice { start, step, slicelength } ==> slice_in_bounds(
                start as int,
                step as int,
                slicelength as int,
                self@.len() as int,
            ),
        ensures
            getitem_result(self@, key, r),
    {
        let len = self.ops.len();
        match key {
            OperationsKey::Slice { start, step, slicelength } => {
                let mut result = Operations::new();
                let mut k: usize = 0;
                let mut i: usize = if slicelength > 0 {
                    assert(0 <= slice_position(start as int, step as int, 0) < len);
                    start as usize
                } else {
                    0
                };
                while k < slicelength
                    invariant
                        len == self.ops@.len(),
                        k <= slicelength,
                        slice_in_bounds(start as int, step as int, slicelength as int, len as int),
                        k < slicelength ==> i == slice_position(start as int, step as int, k as int),
                        result@ == slice_of(self@, start as int, step as int, k as int),
                    decreases slicelength - k,
                {
                    assert(0 <= slice_position(start as int, step as int, k as int) < len);
                    let op = self.ops[i].clone();
                    result.append(op);
                    assert(result@ =~= slice_of(self@, start as int, step as int, k + 1));
                    if k + 1 < slicelength {
                        assert(0 <= slice_position(start as int, step as int, k + 1) < len);
                        assert(slice_position(start as int, step as int, k + 1) == slice_position(
                            start as int,
                            step as int,
                            k as int,
                        ) + step) by (nonlinear_arith);
                        if step >= 0 {
                            i = i + step as usize;
                        } else {
                            let back: usize = ((-(step + 1)) as usize) + 1;
                            i = i - back;
                        }
                    }
                    k = k + 1;
                }
                Ok(OperationsItem::Many(result))
            },
            OperationsKey::Index(idx) => {
                let pos: usize;
                if idx >= 0 {
                    pos = idx as usize;
                    if pos >= len {
                        return Err(Error::IndexOutOfRange);
                    }
                } else {
                    let back: usize = ((-(idx + 1)) as usize) + 1;
                    if back > len {
                        return Err(Error::IndexOutOfRange);
                    }
                    pos = len - back;
                }
                Ok(OperationsItem::One(self.ops[pos].clone()))
            },
            OperationsKey::Other => Err(Error::InvalidIndexType),
        }
    }

    /// The operations, in order.
    pub fn operations(&self) -> (r: &Vec<Operation>)
        ensures
            r@.map_values(|o: Operation| o@) == self@,
    {
        &self.ops
    }
}

impl Clone for Operations {
    fn clone(&self) -> (r: Operations)
        ensures
            r@ == self@,
    {
        let mut r = Operations::new();
        let mut i: usize = 0;
        while i < self.ops.len()
            invariant
                i <= self.ops@.len(),
                r@ == self@.take(i as int),
            decreases self.ops@.len() - i,
        {
            r.append(self.ops[i].clone());
            assert(r@ =~= self@.take(i + 1));
            i = i + 1;
        }
        assert(self@.take(self.ops@.len() as int) =~= self@);
        r
    }
}

impl Default for Operations {
    fn default() -> (r: Operations)
        ensures
            r@ == Seq::<OperationView>::empty(),
    {
        Operations::new()
    }
}

/// Operations that taskchampion appended to a list of its own, before they become the
/// library's.
#[verifier::external_body]
pub struct TcOperations {
    /// The taskchampion operations.
    pub inner: Vec<taskchampion::Operation>,
}

/// What a list of taskchampion's operations holds, as operation values in their order.
pub uninterp spec fn tc_operations_view(ops: TcOperations) -> Seq<OperationView>;

impl TcOperations {
    /// Converts taskchampion's operations one by one, variant by variant: a UUID becomes its
    /// 128-bit value, a deleted task's map the list of its entries, an update's
    /// `DateTime<Utc>` its seconds and nanoseconds (`timestamp`, `timestamp_subsec_nanos`).
    /// Trusted: the result holds, in order, the values that `tc_operations_view` names.
    #[verifier::external_body]
    pub(crate) fn into_operations(self) -> (r: Vec<Operation>)
        ensures
            r@.map_values(|o: Operation| o@) == tc_operations_view(self),
    {
        self.inner.into_iter().map(|op| Operation { kind: match op {
            taskchampion::Operation::Create { uuid } => OperationKind::Create { uuid: uuid.as_u128() },
            taskchampion::Operation::Delete { uuid, old_task } =>
                OperationKind::Delete { uuid: uuid.as_u128(), old_task: old_task.into_iter().collect() },
            taskchampion::Operation::Update { uuid, property, old_value, value, timestamp } =>
                OperationKind::Update { uuid: uuid.as_u128(), property, old_value, value, timestamp:
                    Timestamp { seconds: timestamp.timestamp(), nanos: timestamp.timestamp_subsec_nanos() } },
            taskchampion::Operation::UndoPoint => OperationKind::UndoPoint,
        } }).collect()
    }
}

impl Operations {
    /// Appends the operations that taskchampion appended to a list of its own.
    pub fn extend_from_tc(&mut self, tc: TcOperations)
        ensures
            final(self)@ == old(self)@ + tc_operations_view(tc),
    {
        let ghost added = tc_operations_view(tc);
        let mut converted = tc.into_operations();
        let ghost before = self@;
        let ghost conv = converted@;
        self.ops.append(&mut converted);
        assert(self@ =~= before + conv.map_values(|o: Operation| o@));
    }
}

} // verus!

verus! {

/// A negative index counts from the end: index `i - len` stands for the same position as
/// index `i`, for every position `i` of a sequence of length `len`.
pub proof fn lemma_negative_index(i: int, len: int)
    requires
        0 <= i < len,
    ensures
        normalized_index(i - len, len) == normalized_index(i, len),
        0 <= normalized_index(i - len, len) < len,
{
}

/// The slice from the start with step 1 and the sequence's length is the whole sequence.
pub proof fn lemma_full_slice<A>(s: Seq<A>)
    ensures
        slice_in_bounds(0, 1, s.len() as int, s.len() as int),
        slice_of(s, 0, 1, s.len() as int) == s,
{
    assert(slice_of(s, 0, 1, s.len() as int) =~= s);
}

/// After `append`, the sequence is one longer and index `-1` gives the appended operation.
pub proof fn lemma_append_then_last(before: Seq<OperationView>, op: OperationView)
    ensures
        before.push(op).len() == before.len() + 1,
        before.push(op)[normalized_index(-1, before.push(op).len() as int)] == op,
{
}

} // verus!
