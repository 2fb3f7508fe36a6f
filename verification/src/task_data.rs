//! Task data: a task as a plain map from property names to values.
use vstd::prelude::*;
use crate::entries::{entries_map, entries_view, keys_distinct};
use crate::error::Error;
use crate::ids::{hyphenated, parsed_uuid, uuid2tc, uuid_to_string};
use crate::operation::{opt_view, OperationView};
use crate::operations::{tc_operations_view, Operations, TcOperations};
use crate::text::{debug_string, debug_text};

verus! {

/// A task as taskchampion's `TaskData`: its UUID and the map of its properties.
#[verifier::external_body]
pub struct TaskData {
    /// The taskchampion value.
    pub inner: taskchampion::TaskData,
}

/// The properties of a task's data.
pub uninterp spec fn task_data_props(d: TaskData) -> Map<Seq<char>, Seq<char>>;

/// The UUID of a task's data.
pub uninterp spec fn task_data_uuid(d: TaskData) -> u128;

/// The properties of a task that has none.
pub open spec fn no_props() -> Map<Seq<char>, Seq<char>> {
    Map::empty()
}

/// `value` read from `props` at `key`: `None` where the key is absent.
pub open spec fn prop_get(props: Map<Seq<char>, Seq<char>>, key: Seq<char>) -> Option<Seq<char>> {
    if props.contains_key(key) {
        Some(props[key])
    } else {
        None
    }
}

/// `props` after setting (`Some`) or removing (`None`) a property.
pub open spec fn prop_update(
    props: Map<Seq<char>, Seq<char>>,
    key: Seq<char>,
    value: Option<Seq<char>>,
) -> Map<Seq<char>, Seq<char>> {
    match value {
        Some(v) => props.insert(key, v),
        None => props.remove(key),
    }
}

/// `op` is the operation that updating `key` to `value` on a task with this UUID and these
/// properties records, at some time.
pub open spec fn is_update_of(
    op: OperationView,
    uuid: u128,
    props: Map<Seq<char>, Seq<char>>,
    key: Seq<char>,
    value: Option<Seq<char>>,
) -> bool {
    op matches OperationView::Update { uuid: u, property, old_value, value: v, .. } && u == uuid
        && property == key && old_value == prop_get(props, key) && v == value
}

/// `op` is the operation that deleting a task with this UUID and these properties records.
pub open spec fn is_delete_of(op: OperationView, uuid: u128, props: Map<Seq<char>, Seq<char>>) -> bool {
    op matches OperationView::Delete { uuid: u, old_task } && u == uuid && keys_distinct(old_task)
        && entries_map(old_task) == props
}

/// The text of task data, as its `__repr__` writes it.
pub open spec fn task_data_text(uuid: u128) -> Seq<char> {
    "TaskData(uuid="@ + debug_text(hyphenated(uuid)) + ")"@
}

/// Calls `TaskData::create`, which appends `Create` to the operations and makes an empty task.
/// Trusted: as its source shows, the new task has the UUID and no properties, and the only
/// operation appended is `Create` with the UUID.
#[verifier::external_body]
fn tc_create(uuid: u128) -> (r: (TaskData, TcOperations))
    ensures
        task_data_uuid(r.0) == uuid,
        task_data_props(r.0) == no_props(),
        tc_operations_view(r.1) == seq![(OperationView::Create { uuid })],
{
    let mut ops = Vec::new();
    let inner = taskchampion::TaskData::create(taskchampion::Uuid::from_u128(uuid), &mut ops);
    (TaskData { inner }, TcOperations { inner: ops })
}

/// Calls `TaskData::get_uuid`. Trusted: it returns the task's UUID.
#[verifier::external_body]
fn tc_get_uuid(d: &TaskData) -> (r: u128)
    ensures
        r == task_data_uuid(*d),
{
    d.inner.get_uuid().as_u128()
}

/// Calls `TaskData::get`. Trusted: it returns the property's value, or `None` where the
/// property is not set.
#[verifier::external_body]
fn tc_get(d: &TaskData, property: &str) -> (r: Option<String>)
    ensures
        opt_view(r) == prop_get(task_data_props(*d), property@),
{
    d.inner.get(property).map(|v| v.to_owned())
}

/// Calls `TaskData::has`. Trusted: it tells whether the property is set.
#[verifier::external_body]
fn tc_has(d: &TaskData, property: &str) -> (r: bool)
    ensures
        r == task_data_props(*d).contains_key(property@),
{
    d.inner.has(property)
}

/// Calls `TaskData::properties`, which walks the task's map. Trusted: each property name
/// comes once; the order is the map's, which depends on its hasher, and is not stated.
#[verifier::external_body]
fn tc_properties(d: &TaskData) -> (r: Vec<String>)
    ensures
        r@.map_values(|s: String| s@).no_duplicates(),
        r@.map_values(|s: String| s@).to_set() == task_data_props(*d).dom(),
{
    d.inner.properties().cloned().collect()
}

/// Calls `TaskData::iter`, which walks the task's map. Trusted: each property comes once
/// with its value; the order is the map's and is not stated.
#[verifier::external_body]
fn tc_items(d: &TaskData) -> (r: Vec<(String, String)>)
    ensures
        keys_distinct(entries_view(r@)),
        entries_map(entries_view(r@)) == task_data_props(*d),
{
    d.inner.iter().map(|(k, v)| (k.clone(), v.clone())).collect()
}

/// Calls `TaskData::update`. Trusted: as its source shows, the property is set (or removed
/// where the value is `None`) and one `Update` is appended, carrying the old and new value;
/// its timestamp is the current time (`Utc::now`), which is not stated.
#[verifier::external_body]
fn tc_update(d: &mut TaskData, property: String, value: Option<String>) -> (r: TcOperations)
    ensures
        task_data_uuid(*final(d)) == task_data_uuid(*old(d)),
        task_data_props(*final(d)) == prop_update(task_data_props(*old(d)), property@, opt_view(value)),
        tc_operations_view(r).len() == 1,
        is_update_of(tc_operations_view(r)[0], task_data_uuid(*old(d)), task_data_props(*old(d)), property@, opt_view(value)),
{
    let mut ops = Vec::new();
    d.inner.update(property, value, &mut ops);
    TcOperations { inner: ops }
}

/// Calls `TaskData::delete`. Trusted: as its source shows, the task's map is taken out
/// (leaving it empty) and one `Delete` carrying it is appended.
#[verifier::external_body]
fn tc_delete(d: &mut TaskData) -> (r: TcOperations)
    ensures
        task_data_uuid(*final(d)) == task_data_uuid(*old(d)),
        task_data_props(*final(d)) == no_props(),
        tc_operations_view(r).len() == 1,
        is_delete_of(tc_operations_view(r)[0], task_data_uuid(*old(d)), task_data_props(*old(d))),
{
    let mut ops = Vec::new();
    d.inner.delete(&mut ops);
    TcOperations { inner: ops }
}

impl TaskData {
    /// Creates an empty task with the given UUID, appending `Create` to `ops`.
    pub fn create(uuid: String, ops: &mut Operations) -> (r: Result<TaskData, Error>)
        ensures
            match parsed_uuid(uuid@) {
                Some(u) => r matches Ok(d) && task_data_uuid(d) == u && task_data_props(d)
                    == no_props() && final(ops)@ == old(ops)@.push(
                    (OperationView::Create { uuid: u }),
                ),
                None => r matches Err(e) && e == Error::InvalidUuid && final(ops)@ == old(ops)@,
            },
    {
        let u = uuid2tc(uuid.as_str())?;
        let (d, added) = tc_create(u);
        ops.extend_from_tc(added);
        Ok(d)
    }

    /// The text of the task data.
    pub fn __repr__(&self) -> (r: String)
        ensures
            r@ == task_data_text(task_data_uuid(*self)),
    {
        let mut r = String::from_str("TaskData(uuid=");
        let u = debug_string(uuid_to_string(tc_get_uuid(self)).as_str());
        r.append(u.as_str());
        r.append(")");
        r
    }

    /// The task's UUID.
    pub fn get_uuid(&self) -> (r: String)
        ensures
            r@ == hyphenated(task_data_uuid(*self)),
    {
        uuid_to_string(tc_get_uuid(self))
    }

    /// A property's value, or `None` where it is not set.
    pub fn get(&self, value: String) -> (r: Option<String>)
        ensures
            opt_view(r) == prop_get(task_data_props(*self), value@),
    {
        tc_get(self, value.as_str())
    }

    /// Whether a property is set.
    pub fn has(&self, value: String) -> (r: bool)
        ensures
            r == task_data_props(*self).contains_key(value@),
    {
        tc_has(self, value.as_str())
    }

    /// The names of the task's properties, each once, in no stated order.
    pub fn properties(&self) -> (r: Vec<String>)
        ensures
            r@.map_values(|s: String| s@).no_duplicates(),
            r@.map_values(|s: String| s@).to_set() == task_data_props(*self).dom(),
    {
        tc_properties(self)
    }

    /// The task's properties with their values, each once, in no stated order.
    pub fn items(&self) -> (r: Vec<(String, String)>)
        ensures
            keys_distinct(entries_view(r@)),
            entries_map(entries_view(r@)) == task_data_props(*self),
    {
        tc_items(self)
    }

    /// Sets (`Some`) or removes (`None`) a property, appending an `Update` to `ops`.
    pub fn update(&mut self, property: String, value: Option<String>, ops: &mut Operations)
        ensures
            task_data_uuid(*final(self)) == task_data_uuid(*old(self)),
            task_data_props(*final(self)) == prop_update(
                task_data_props(*old(self)),
                property@,
                opt_view(value),
            ),
            final(ops)@.len() == old(ops)@.len() + 1,
            final(ops)@.take(old(ops)@.len() as int) == old(ops)@,
            is_update_of(
                final(ops)@.last(),
                task_data_uuid(*old(self)),
                task_data_props(*old(self)),
                property@,
                opt_view(value),
            ),
    {
        let added = tc_update(self, property, value);
        let ghost before = ops@;
        ops.extend_from_tc(added);
        assert(ops@.take(before.len() as int) =~= before);
    }

    /// Deletes the task, appending a `Delete` that carries its properties to `ops`; the task
    /// data is left without properties.
    pub fn delete(&mut self, ops: &mut Operations)
        ensures
            task_data_uuid(*final(self)) == task_data_uuid(*old(self)),
            task_data_props(*final(self)) == no_props(),
            final(ops)@.len() == old(ops)@.len() + 1,
            final(ops)@.take(old(ops)@.len() as int) == old(ops)@,
            is_delete_of(final(ops)@.last(), task_data_uuid(*old(self)), task_data_props(*old(self))),
    {
        let added = tc_delete(self);
        let ghost before = ops@;
        ops.extend_from_tc(added);
        assert(ops@.take(before.len() as int) =~= before);
    }
}

} // verus!

verus! {

/// Reading a property after `update` gives what was written, and leaves every other property
/// as it was.
pub proof fn lemma_update_then_get(
    props: Map<Seq<char>, Seq<char>>,
    key: Seq<char>,
    value: Option<Seq<char>>,
    other: Seq<char>,
)
    ensures
        prop_get(prop_update(props, key, value), key) == value,
        other != key ==> prop_get(prop_update(props, key, value), other) == prop_get(props, other),
{
}

} // verus!
