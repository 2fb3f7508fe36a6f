//! Operations: the changes that are made to tasks and committed to a replica.
use vstd::prelude::*;
use crate::entries::{
    clone_entries, entries_equal, entries_map, entries_view, keys_distinct,
    lemma_same_entries_iff_same_map, same_entries, sort_entries, sorted_entries, EntryView,
};
use crate::error::{Error, OperationAttribute};
use crate::ids::{hyphenated, parsed_uuid, uuid2tc, uuid_to_string};
use crate::text::{debug_string, debug_text, join_strings, join_texts};
use crate::timestamp::{rfc3339_text, Timestamp};

verus! {

/// The four kinds of operation and what each carries.
#[derive(Debug, Eq)]
pub enum OperationKind {
    /// A task was created.
    Create { uuid: u128 },
    /// A task was deleted; `old_task` holds its properties before the deletion.
    Delete { uuid: u128, old_task: Vec<(String, String)> },
    /// A property was set (`value` is `Some`) or removed (`value` is `None`).
    Update {
        uuid: u128,
        property: String,
        old_value: Option<String>,
        value: Option<String>,
        timestamp: Timestamp,
    },
    /// A point to which changes can be undone.
    UndoPoint,
}

/// An operation, as values.
pub enum OperationView {
    Create { uuid: u128 },
    Delete { uuid: u128, old_task: Seq<EntryView> },
    Update {
        uuid: u128,
        property: Seq<char>,
        old_value: Option<Seq<char>>,
        value: Option<Seq<char>>,
        seconds: i64,
        nanos: u32,
    },
    UndoPoint,
}

/// The text of an optional string.
pub open spec fn opt_view(o: Option<String>) -> Option<Seq<char>> {
    match o {
        Some(s) => Some(s@),
        None => None,
    }
}

/// The value of an operation.
pub open spec fn kind_view(k: OperationKind) -> OperationView {
    match k {
        OperationKind::Create { uuid } => OperationView::Create { uuid },
        OperationKind::Delete { uuid, old_task } => OperationView::Delete {
            uuid,
            old_task: entries_view(old_task@),
        },
        OperationKind::Update { uuid, property, old_value, value, timestamp } => OperationView::Update {
            uuid,
            property: property@,
            old_value: opt_view(old_value),
            value: opt_view(value),
            seconds: timestamp.secs(),
            nanos: timestamp.subsec_nanos(),
        },
        OperationKind::UndoPoint => OperationView::UndoPoint,
    }
}

/// Whether an operation value can be held: a deleted task's properties have distinct keys.
pub open spec fn operation_view_wf(v: OperationView) -> bool {
    v matches OperationView::Delete { old_task, .. } ==> keys_distinct(old_task)
}

/// Whether two operations are equal, as taskchampion compares them: a deleted task's
/// properties are compared as a map, whatever the order of their entries; everything else
/// is compared as it is.
pub open spec fn operations_equal(x: OperationView, y: OperationView) -> bool {
    match x {
        OperationView::Delete { uuid, old_task } => match y {
            OperationView::Delete { uuid: other_uuid, old_task: other_task } => uuid == other_uuid
                && same_entries(old_task, other_task),
            _ => false,
        },
        _ => x == y,
    }
}

/// Compares two optional strings.
fn opt_equal(a: &Option<String>, b: &Option<String>) -> (r: bool)
    ensures
        r == (opt_view(*a) == opt_view(*b)),
{
    match (a, b) {
        (Some(x), Some(y)) => *x == *y,
        (None, None) => true,
        _ => false,
    }
}

impl PartialEq for OperationKind {
    fn eq(&self, other: &OperationKind) -> (r: bool) {
        match (self, other) {
            (OperationKind::Create { uuid: a }, OperationKind::Create { uuid: b }) => *a == *b,
            (
                OperationKind::Delete { uuid: a, old_task: s },
                OperationKind::Delete { uuid: b, old_task: t },
            ) => *a == *b && entries_equal(s, t),
            (
                OperationKind::Update {
                    uuid: a,
                    property: p,
                    old_value: o,
                    value: v,
                    timestamp: ts,
                },
                OperationKind::Update {
                    uuid: b,
                    property: q,
                    old_value: o2,
                    value: v2,
                    timestamp: ts2,
                },
            ) => *a == *b && *p == *q && opt_equal(o, o2) && opt_equal(v, v2) && ts.seconds()
                == ts2.seconds() && ts.nanos() == ts2.nanos(),
            (OperationKind::UndoPoint, OperationKind::UndoPoint) => true,
            _ => false,
        }
    }
}

impl vstd::std_specs::cmp::PartialEqSpecImpl for OperationKind {
    open spec fn obeys_eq_spec() -> bool {
        true
    }

    open spec fn eq_spec(&self, other: &OperationKind) -> bool {
        operations_equal(kind_view(*self), kind_view(*other))
    }
}

impl PartialEq for Operation {
    fn eq(&self, other: &Operation) -> (r: bool) {
        self.kind == other.kind
    }
}

impl vstd::std_specs::cmp::PartialEqSpecImpl for Operation {
    open spec fn obeys_eq_spec() -> bool {
        true
    }

    open spec fn eq_spec(&self, other: &Operation) -> bool {
        operations_equal(self@, other@)
    }
}

/// An operation.
#[derive(Debug, Eq)]
pub struct Operation {
    pub(crate) kind: OperationKind,
}

impl View for Operation {
    type V = OperationView;

    closed spec fn view(&self) -> OperationView {
        kind_view(self.kind)
    }
}

/// The UUID that an operation carries, if any.
pub open spec fn view_uuid(v: OperationView) -> Option<u128> {
    match v {
        OperationView::Create { uuid } => Some(uuid),
        OperationView::Delete { uuid, .. } => Some(uuid),
        OperationView::Update { uuid, .. } => Some(uuid),
        OperationView::UndoPoint => None,
    }
}

/// The text of an optional value in an operation's text: quoted, or `None`.
pub open spec fn opt_text(o: Option<Seq<char>>) -> Seq<char> {
    match o {
        Some(s) => debug_text(s),
        None => "None"@,
    }
}

/// The text of an entry in an operation's text.
pub open spec fn entry_text(e: EntryView) -> Seq<char> {
    debug_text(e.0) + ": "@ + debug_text(e.1)
}

/// The text of an operation, as its `__repr__` writes it.
pub open spec fn operation_text(v: OperationView) -> Seq<char> {
    match v {
        OperationView::Create { uuid } => "Operation.Create(uuid="@ + debug_text(hyphenated(uuid))
            + ")"@,
        OperationView::Delete { uuid, old_task } => "Operation.Delete(uuid="@ + debug_text(
            hyphenated(uuid),
        ) + ", old_task={"@ + join_texts(
            sort_entries(old_task).map_values(|e: EntryView| entry_text(e)),
            ", "@,
        ) + "})"@,
        OperationView::Update { uuid, property, old_value, value, seconds, nanos } =>
            "Operation.Update(uuid="@ + debug_text(hyphenated(uuid)) + ", property="@ + debug_text(
            property,
        ) + ", timestamp="@ + debug_text(rfc3339_text(seconds, nanos)) + ", old_value="@
            + opt_text(old_value) + ", value="@ + opt_text(value) + ")"@,
        OperationView::UndoPoint => "Operation.UndoPoint()"@,
    }
}

/// Copies an optional string.
pub fn clone_opt(o: &Option<String>) -> (r: Option<String>)
    ensures
        opt_view(r) == opt_view(*o),
{
    match o {
        Some(s) => Some(s.clone()),
        None => None,
    }
}

/// The text of an optional value: quoted, or `None`.
fn format_opt(o: &Option<String>) -> (r: String)
    ensures
        r@ == opt_text(opt_view(*o)),
{
    match o {
        Some(s) => debug_string(s.as_str()),
        None => String::from_str("None"),
    }
}

/// Writes the text of an operation.
pub fn format_operation(op: &Operation) -> (r: String)
    ensures
        r@ == operation_text(op@),
{
    match &op.kind {
        OperationKind::Create { uuid } => {
            let mut r = String::from_str("Operation.Create(uuid=");
            let u = debug_string(uuid_to_string(*uuid).as_str());
            r.append(u.as_str());
            r.append(")");
            r
        },
        OperationKind::Delete { uuid, old_task } => {
            let sorted = sorted_entries(old_task);
            let mut body: Vec<String> = Vec::new();
            let ghost sv = entries_view(sorted@);
            let mut i: usize = 0;
            while i < sorted.len()
                invariant
                    i <= sorted@.len(),
                    sv == entries_view(sorted@),
                    body@.len() == i,
                    forall|k: int| 0 <= k < i ==> #[trigger] body@[k]@ == entry_text(sv[k]),
                decreases sorted@.len() - i,
            {
                let mut t = debug_string(sorted[i].0.as_str());
                t.append(": ");
                let v = debug_string(sorted[i].1.as_str());
                t.append(v.as_str());
                proof {
                    assert(sv[i as int] == (sorted@[i as int].0@, sorted@[i as int].1@));
                }
                body.push(t);
                i = i + 1;
            }
            let joined = join_strings(&body, ", ");
            proof {
                assert(body@.map_values(|p: String| p@) =~= sv.map_values(
                    |e: EntryView| entry_text(e),
                ));
            }
            let mut r = String::from_str("Operation.Delete(uuid=");
            let u = debug_string(uuid_to_string(*uuid).as_str());
            r.append(u.as_str());
            r.append(", old_task={");
            r.append(joined.as_str());
            r.append("})");
            r
        },
        OperationKind::Update { uuid, property, old_value, value, timestamp } => {
            let mut r = String::from_str("Operation.Update(uuid=");
            let u = debug_string(uuid_to_string(*uuid).as_str());
            r.append(u.as_str());
            r.append(", property=");
            let p = debug_string(property.as_str());
            r.append(p.as_str());
            r.append(", timestamp=");
            let t = debug_string(timestamp.to_rfc3339().as_str());
            r.append(t.as_str());
            r.append(", old_value=");
            let o = format_opt(old_value);
            r.append(o.as_str());
            r.append(", value=");
            let v = format_opt(value);
            r.append(v.as_str());
            r.append(")");
            r
        },
        OperationKind::UndoPoint => String::from_str("Operation.UndoPoint()"),
    }
}

impl Operation {
    #[verifier::type_invariant]
    spec fn wf(self) -> bool {
        operation_view_wf(kind_view(self.kind))
    }

    /// An operation that creates the task with the given UUID.
    #[allow(non_snake_case)]
    pub fn Create(uuid: String) -> (r: Result<Operation, Error>)
        ensures
            match parsed_uuid(uuid@) {
                Some(u) => r matches Ok(op) && op@ == (OperationView::Create { uuid: u }),
                None => r matches Err(e) && e == Error::InvalidUuid,
            },
    {
        let u = uuid2tc(uuid.as_str())?;
        Ok(Operation { kind: OperationKind::Create { uuid: u } })
    }

    /// An operation that deletes the task with the given UUID, whose properties were `old_task`.
    #[allow(non_snake_case)]
    pub fn Delete(uuid: String, old_task: Vec<(String, String)>) -> (r: Result<Operation, Error>)
        requires
            keys_distinct(entries_view(old_task@)),
        ensures
            match parsed_uuid(uuid@) {
                Some(u) => r matches Ok(op) && op@ == (OperationView::Delete {
                    uuid: u,
                    old_task: entries_view(old_task@),
                }),
                None => r matches Err(e) && e == Error::InvalidUuid,
            },
    {
        let u = uuid2tc(uuid.as_str())?;
        Ok(Operation { kind: OperationKind::Delete { uuid: u, old_task } })
    }

    /// An operation that sets (`value` is `Some`) or removes a property of the task with the
    /// given UUID.
    #[allow(non_snake_case)]
    pub fn Update(
        uuid: String,
        property: String,
        timestamp: Timestamp,
        old_value: Option<String>,
        value: Option<String>,
    ) -> (r: Result<Operation, Error>)
        ensures
            match parsed_uuid(uuid@) {
                Some(u) => r matches Ok(op) && op@ == (OperationView::Update {
                    uuid: u,
                    property: property@,
                    old_value: opt_view(old_value),
                    value: opt_view(value),
                    seconds: timestamp.secs(),
                    nanos: timestamp.subsec_nanos(),
                }),
                None => r matches Err(e) && e == Error::InvalidUuid,
            },
    {
        let u = uuid2tc(uuid.as_str())?;
        Ok(Operation { kind: OperationKind::Update { uuid: u, property, old_value, value, timestamp } })
    }

    /// An undo point.
    #[allow(non_snake_case)]
    pub fn UndoPoint() -> (r: Operation)
        ensures
            r@ == OperationView::UndoPoint,
    {
        Operation { kind: OperationKind::UndoPoint }
    }

    /// The text of this operation.
    pub fn __repr__(&self) -> (r: String)
        ensures
            r@ == operation_text(self@),
    {
        format_operation(self)
    }

    pub fn is_create(&self) -> (r: bool)
        ensures
            r == self@ is Create,
    {
        matches!(self.kind, OperationKind::Create { .. })
    }

    pub fn is_delete(&self) -> (r: bool)
        ensures
            r == self@ is Delete,
    {
        matches!(self.kind, OperationKind::Delete { .. })
    }

    pub fn is_update(&self) -> (r: bool)
        ensures
            r == self@ is Update,
    {
        matches!(self.kind, OperationKind::Update { .. })
    }

    pub fn is_undo_point(&self) -> (r: bool)
        ensures
            r == self@ is UndoPoint,
    {
        matches!(self.kind, OperationKind::UndoPoint)
    }

    /// The task's UUID; present on the Create, Update and Delete variants.
    pub fn get_uuid(&self) -> (r: Result<String, Error>)
        ensures
            match view_uuid(self@) {
                Some(u) => r matches Ok(s) && s@ == hyphenated(u),
                None => r matches Err(e) && e == Error::MissingAttribute(OperationAttribute::Uuid),
            },
    {
        match &self.kind {
            OperationKind::Create { uuid } => Ok(uuid_to_string(*uuid)),
            OperationKind::Delete { uuid, .. } => Ok(uuid_to_string(*uuid)),
            OperationKind::Update { uuid, .. } => Ok(uuid_to_string(*uuid)),
            _ => Err(Error::MissingAttribute(OperationAttribute::Uuid)),
        }
    }

    /// The deleted task's properties; present on the Delete variant.
    pub fn get_old_task(&self) -> (r: Result<Vec<(String, String)>, Error>)
        ensures
            match self@ {
                OperationView::Delete { old_task, .. } => r matches Ok(t) && entries_view(t@)
                    == old_task && keys_distinct(old_task),
                _ => r matches Err(e) && e == Error::MissingAttribute(OperationAttribute::OldTask),
            },
    {
        proof {
            use_type_invariant(self);
        }
        match &self.kind {
            OperationKind::Delete { old_task, .. } => Ok(clone_entries(old_task)),
            _ => Err(Error::MissingAttribute(OperationAttribute::OldTask)),
        }
    }

    /// The updated property; present on the Update variant.
    pub fn get_property(&self) -> (r: Result<String, Error>)
        ensures
            match self@ {
                OperationView::Update { property, .. } => r matches Ok(p) && p@ == property,
                _ => r matches Err(e) && e == Error::MissingAttribute(OperationAttribute::Property),
            },
    {
        match &self.kind {
            OperationKind::Update { property, .. } => Ok(property.clone()),
            _ => Err(Error::MissingAttribute(OperationAttribute::Property)),
        }
    }

    /// When the update was made; present on the Update variant.
    pub fn get_timestamp(&self) -> (r: Result<Timestamp, Error>)
        ensures
            match self@ {
                OperationView::Update { seconds, nanos, .. } => r matches Ok(t) && t.secs()
                    == seconds && t.subsec_nanos() == nanos,
                _ => r matches Err(e) && e == Error::MissingAttribute(OperationAttribute::Timestamp),
            },
    {
        match &self.kind {
            OperationKind::Update { timestamp, .. } => Ok(*timestamp),
            _ => Err(Error::MissingAttribute(OperationAttribute::Timestamp)),
        }
    }

    /// The property's value before the update; present on the Update variant.
    pub fn get_old_value(&self) -> (r: Result<Option<String>, Error>)
        ensures
            match self@ {
                OperationView::Update { old_value, .. } => r matches Ok(v) && opt_view(v)
                    == old_value,
                _ => r matches Err(e) && e == Error::MissingAttribute(OperationAttribute::OldValue),
            },
    {
        match &self.kind {
            OperationKind::Update { old_value, .. } => Ok(clone_opt(old_value)),
            _ => Err(Error::MissingAttribute(OperationAttribute::OldValue)),
        }
    }

    /// The property's value after the update; present on the Update variant.
    pub fn get_value(&self) -> (r: Result<Option<String>, Error>)
        ensures
            match self@ {
                OperationView::Update { value, .. } => r matches Ok(v) && opt_view(v) == value,
                _ => r matches Err(e) && e == Error::MissingAttribute(OperationAttribute::Value),
            },
    {
        match &self.kind {
            OperationKind::Update { value, .. } => Ok(clone_opt(value)),
            _ => Err(Error::MissingAttribute(OperationAttribute::Value)),
        }
    }
}

impl Operation {
    /// The kind of this operation and what it carries.
    pub fn kind(&self) -> (r: &OperationKind)
        ensures
            kind_view(*r) == self@,
            operation_view_wf(self@),
    {
        proof {
            use_type_invariant(self);
        }
        &self.kind
    }

}

impl Clone for Operation {
    fn clone(&self) -> (r: Operation)
        ensures
            r@ == self@,
    {
        proof {
            use_type_invariant(self);
        }
        let kind = match &self.kind {
            OperationKind::Create { uuid } => OperationKind::Create { uuid: *uuid },
            OperationKind::Delete { uuid, old_task } => OperationKind::Delete {
                uuid: *uuid,
                old_task: clone_entries(old_task),
            },
            OperationKind::Update { uuid, property, old_value, value, timestamp } => OperationKind::Update {
                uuid: *uuid,
                property: property.clone(),
                old_value: clone_opt(old_value),
                value: clone_opt(value),
                timestamp: *timestamp,
            },
            OperationKind::UndoPoint => OperationKind::UndoPoint,
        };
        Operation { kind }
    }
}

} // verus!

verus! {

/// The text of a `Delete` does not depend on the order in which the deleted task's entries
/// are held: entries that stand for the same map give the same text, listed by key.
pub proof fn lemma_delete_text_ignores_entry_order(uuid: u128, a: Seq<EntryView>, b: Seq<EntryView>)
    requires
        keys_distinct(a),
        keys_distinct(b),
        crate::entries::entries_map(a) == crate::entries::entries_map(b),
    ensures
        operation_text((OperationView::Delete { uuid, old_task: a })) == operation_text(
            (OperationView::Delete { uuid, old_task: b }),
        ),
{
    crate::entries::lemma_sort_entries_determined_by_map(a, b);
}

} // verus!

verus! {

/// Two `Delete` operations are equal exactly when they delete the same task with the same
/// properties as a map; the order in which the properties are held does not matter.
pub proof fn lemma_delete_equality_is_map_equality(
    uuid: u128,
    a: Seq<EntryView>,
    other_uuid: u128,
    b: Seq<EntryView>,
)
    requires
        keys_distinct(a),
        keys_distinct(b),
    ensures
        operations_equal(
            (OperationView::Delete { uuid, old_task: a }),
            (OperationView::Delete { uuid: other_uuid, old_task: b }),
        ) <==> (uuid == other_uuid && entries_map(a) == entries_map(b)),
{
    lemma_same_entries_iff_same_map(a, b);
}

} // verus!
