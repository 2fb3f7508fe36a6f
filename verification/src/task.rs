//! Tasks: task data read through the task model, with a high-level interface.
use vstd::prelude::*;
use crate::annotation::{Annotation, AnnotationView};
use crate::entries::{entries_map, entries_view, keys_distinct};
use crate::error::Error;
use crate::ids::{hyphenated, parsed_uuid, uuid2tc, uuid_to_string, uuids_to_strings};
use crate::operation::opt_view;
use crate::operations::{tc_operations_view, Operations, TcOperations};
use crate::status::{status_of_value, value_of_status, Status, StatusValue};
use crate::tag::{is_synthetic_name, parsed_tag, Tag};
use crate::task_data::{prop_get, task_data_props, task_data_uuid, TaskData};
use crate::task_model::{
appended, blocked, blocking, extends, has_tag_answer, int_text,
    is_known_key, lemma_append_parts, parsed_i64, prop_or_empty, set_status_rel,
    set_timestamp_rel, set_value_rel, start_rel, status_of_props, status_value_of_props,
    synthetic_present, timestamp_readable, timestamp_secs, TaskState, parse_i64,
    bad_annotation_key, lemma_status_read_agrees_with_stored_text,
};
use crate::entries::lemma_entries_map_keys;
use crate::text::has_prefix;
use crate::dependency_map::{dependencies_of, dependents_of};
use crate::text::{debug_string, debug_text};
use crate::timestamp::{chrono_accepts, Timestamp};

verus! {

/// A task, as taskchampion's `Task`: its data, the dependency map that it was read with, and
/// whether it has already recorded an update of `modified`.
#[verifier::external_body]
pub struct Task {
    /// The taskchampion value.
    pub inner: taskchampion::Task,
}

/// The properties of a task.
pub uninterp spec fn task_props(t: Task) -> Map<Seq<char>, Seq<char>>;

/// The UUID of a task.
pub uninterp spec fn task_uuid(t: Task) -> u128;

/// The edges of the dependency map that a task was read with.
pub uninterp spec fn task_edges(t: Task) -> Seq<(u128, u128)>;

/// Whether a task has already recorded an update of its `modified` property.
pub uninterp spec fn task_modified_set(t: Task) -> bool;

/// A task, as values.
pub open spec fn task_state(t: Task) -> TaskState {
    TaskState {
        props: task_props(t),
        uuid: task_uuid(t),
        edges: task_edges(t),
        modified_set: task_modified_set(t),
    }
}

/// The text of a task, as its `__repr__` writes it.
pub open spec fn task_text(s: TaskState) -> Seq<char> {
    "Task(uuid="@ + debug_text(hyphenated(s.uuid)) + ", description="@ + debug_text(
        prop_or_empty(s.props, "description"@),
    ) + ")"@
}

/// A name that `get_tags` may list: a valid tag whose `tag_` property is set, a synthetic
/// tag that is present, or `WAITING` where a wait time is set.
pub open spec fn tag_listed(s: TaskState, name: Seq<char>) -> bool {
    ||| parsed_tag(name) is Some && s.props.contains_key("tag_"@ + name)
    ||| is_synthetic_name(name) && name != "WAITING"@ && synthetic_present(s, name)
    ||| name == "WAITING"@ && timestamp_secs(s.props, "wait"@) is Some
}

/// Every `annotation_` property whose suffix is an integer can be read as a timestamp.
pub open spec fn annotations_readable(props: Map<Seq<char>, Seq<char>>) -> bool {
    forall|x: Seq<char>|
        #![trigger props.contains_key("annotation_"@ + x)]
        props.contains_key("annotation_"@ + x) && parsed_i64(x) is Some ==> chrono_accepts(
            parsed_i64(x)->0,
            0,
        )
}

/// The annotation that an `annotation_` property stands for.
pub open spec fn annotation_of(props: Map<Seq<char>, Seq<char>>, x: Seq<char>) -> AnnotationView {
    AnnotationView { seconds: parsed_i64(x)->0, nanos: 0, description: props["annotation_"@ + x] }
}

/// An annotation comes from an `annotation_` property whose suffix is an integer.
pub open spec fn annotation_from(props: Map<Seq<char>, Seq<char>>, a: AnnotationView) -> bool {
    exists|x: Seq<char>|
        #![trigger props.contains_key("annotation_"@ + x)]
        props.contains_key("annotation_"@ + x) && parsed_i64(x) is Some && a == annotation_of(
            props,
            x,
        )
}

/// The text of a UUID that a `dep_` property names.
pub open spec fn dependency_text(props: Map<Seq<char>, Seq<char>>, s: Seq<char>) -> bool {
    exists|x: Seq<char>|
        #![trigger props.contains_key("dep_"@ + x)]
        props.contains_key("dep_"@ + x) && parsed_uuid(x) is Some && s == hyphenated(
            parsed_uuid(x)->0,
        )
}

/// The properties of a task that are not in the task model: its user-defined attributes.
pub open spec fn user_defined(props: Map<Seq<char>, Seq<char>>) -> Map<Seq<char>, Seq<char>> {
    Map::new(|k: Seq<char>| props.contains_key(k) && !is_known_key(k), |k: Seq<char>| props[k])
}

/// The message of taskchampion's refusal to change a synthetic tag.
pub open spec fn synthetic_tag_message() -> Seq<char> {
    "Usage Error: Synthetic tags cannot be modified"@
}

/// The message of taskchampion's refusal to use a task model property as a user-defined one.
pub open spec fn known_key_message(key: Seq<char>) -> Seq<char> {
    "Usage Error: Property name "@ + key + " as special meaning in a task and cannot be used as a UDA"@
}

/// Calls `Task::get_uuid`. Trusted: it returns the task's UUID.
#[verifier::external_body]
fn tc_uuid(t: &Task) -> (r: u128)
    ensures
        r == task_uuid(*t),
{
    t.inner.get_uuid().as_u128()
}

/// Calls `Task::into_task_data` on a copy. Trusted: the data keeps the task's UUID and
/// properties.
#[verifier::external_body]
fn tc_to_task_data(t: &Task) -> (r: TaskData)
    ensures
        task_data_uuid(r) == task_uuid(*t),
        task_data_props(r) == task_props(*t),
{
    TaskData { inner: t.inner.clone().into_task_data() }
}

/// Calls `Task::get_status`. Trusted: as its source shows, it reads `status` through
/// `Status::from_taskmap`, and is `Pending` where `status` is not set.
#[verifier::external_body]
fn tc_status(t: &Task) -> (r: StatusValue)
    ensures
        status_value_of_props(task_props(*t), r),
{
    match t.inner.get_status() {
        taskchampion::Status::Pending => StatusValue::Pending,
        taskchampion::Status::Completed => StatusValue::Completed,
        taskchampion::Status::Deleted => StatusValue::Deleted,
        taskchampion::Status::Recurring => StatusValue::Recurring,
        taskchampion::Status::Unknown(s) => StatusValue::Unknown(s),
    }
}

/// Calls `Task::get_value`. Trusted: it returns the property's value, or `None`.
#[verifier::external_body]
fn tc_value(t: &Task, property: String) -> (r: Option<String>)
    ensures
        opt_view(r) == prop_get(task_props(*t), property@),
{
    t.inner.get_value(property).map(|v| v.to_owned())
}

/// Calls `Task::get_timestamp`. Trusted: as its source shows, a property that holds an
/// integer `n` gives `utc_timestamp(n)` (`n` seconds, no nanoseconds) and anything else gives
/// `None`; `utc_timestamp` panics where chrono cannot represent `n`, which `requires` excludes.
#[verifier::external_body]
fn tc_timestamp(t: &Task, property: &str) -> (r: Option<Timestamp>)
    requires
        timestamp_readable(task_props(*t), property@),
    ensures
        match timestamp_secs(task_props(*t), property@) {
            Some(n) => r matches Some(ts) && ts.secs() == n && ts.subsec_nanos() == 0,
            None => r is None,
        },
{
    t.inner.get_timestamp(property).map(|d| Timestamp { seconds: d.timestamp(), nanos: d.timestamp_subsec_nanos() })
}

/// Calls `Task::is_waiting`, which compares the wait time with the current time. Trusted:
/// a waiting task has a wait time; which tasks with one are waiting depends on the time and
/// is not stated.
#[verifier::external_body]
fn tc_is_waiting(t: &Task) -> (r: bool)
    requires
        timestamp_readable(task_props(*t), "wait"@),
    ensures
        r ==> timestamp_secs(task_props(*t), "wait"@) is Some,
{
    t.inner.is_waiting()
}

/// Calls `Task::is_blocked`. Trusted: as its source shows, it tells whether the dependency
/// map lists a dependency of the task.
#[verifier::external_body]
fn tc_is_blocked(t: &Task) -> (r: bool)
    ensures
        r == (dependencies_of(task_edges(*t), task_uuid(*t)).len() > 0),
{
    t.inner.is_blocked()
}

/// Calls `Task::is_blocking`. Trusted: as its source shows, it tells whether the dependency
/// map lists a task that depends on this one.
#[verifier::external_body]
fn tc_is_blocking(t: &Task) -> (r: bool)
    ensures
        r == (dependents_of(task_edges(*t), task_uuid(*t)).len() > 0),
{
    t.inner.is_blocking()
}

/// Calls `Task::has_tag` with the tag parsed by `Tag::try_from`. Trusted: as its source
/// shows, a user tag is present when its `tag_` property is set, and a synthetic tag is
/// computed from the status, `start`, the dependency map, or (for `WAITING`) the wait time.
#[verifier::external_body]
fn tc_has_tag(t: &Task, tag: &Tag) -> (r: bool)
    requires
        parsed_tag(tag@) is Some,
        tag@ == "WAITING"@ ==> timestamp_readable(task_props(*t), "wait"@),
    ensures
        has_tag_answer(task_state(*t), tag@, r),
{
    t.inner.has_tag(&taskchampion::Tag::try_from(tag.name.as_str()).unwrap())
}

/// Calls `Task::get_tags`, converting each tag by its text (`Display`). Trusted: as its source
/// shows, it lists the valid tags of the `tag_` properties (in the map's order), then the
/// synthetic tags that are present, `WAITING` among them only where a wait time is set.
#[verifier::external_body]
fn tc_tags(t: &Task) -> (r: Vec<Tag>)
    requires
        timestamp_readable(task_props(*t), "wait"@),
    ensures
        forall|i: int| 0 <= i < r@.len() ==> tag_listed(task_state(*t), #[trigger] r@[i]@),
        forall|x: Seq<char>|
            parsed_tag(x) is Some && #[trigger] task_props(*t).contains_key("tag_"@ + x)
                ==> r@.map_values(|g: Tag| g@).contains(x),
        forall|x: Seq<char>|
            is_synthetic_name(x) && x != "WAITING"@ && #[trigger] synthetic_present(task_state(*t), x)
                ==> r@.map_values(|g: Tag| g@).contains(x),
{
    t.inner.get_tags().map(|g| Tag { name: g.to_string() }).collect()
}

/// Calls `Task::get_annotations`. Trusted: as its source shows, each `annotation_` property
/// whose suffix is an integer gives an annotation at that many seconds (in the map's order);
/// `utc_timestamp` panics on seconds that chrono cannot represent, which `requires` excludes.
#[verifier::external_body]
fn tc_annotations(t: &Task) -> (r: Vec<Annotation>)
    requires
        annotations_readable(task_props(*t)),
    ensures
        forall|i: int| 0 <= i < r@.len() ==> annotation_from(task_props(*t), #[trigger] r@[i]@),
        forall|x: Seq<char>|
            #![trigger task_props(*t).contains_key("annotation_"@ + x)]
            task_props(*t).contains_key("annotation_"@ + x) && parsed_i64(x) is Some
                ==> r@.map_values(|a: Annotation| a@).contains(annotation_of(task_props(*t), x)),
{
    t.inner.get_annotations().map(|a| Annotation {
        entry: Timestamp { seconds: a.entry.timestamp(), nanos: a.entry.timestamp_subsec_nanos() },
        description: a.description,
    }).collect()
}

/// Calls `Task::get_user_defined_attribute`. Trusted: as its source shows, a task model
/// property gives `None`; any other gives its value.
#[verifier::external_body]
fn tc_uda(t: &Task, key: &str) -> (r: Option<String>)
    ensures
        opt_view(r) == if is_known_key(key@) {
            None
        } else {
            prop_get(task_props(*t), key@)
        },
{
    t.inner.get_user_defined_attribute(key).map(|v| v.to_owned())
}

/// Calls `Task::get_user_defined_attributes`. Trusted: as its source shows, it lists the
/// properties outside the task model with their values, each once, in the map's order.
#[verifier::external_body]
fn tc_udas(t: &Task) -> (r: Vec<(String, String)>)
    ensures
        keys_distinct(entries_view(r@)),
        entries_map(entries_view(r@)) == user_defined(task_props(*t)),
{
    t.inner.get_user_defined_attributes().map(|(k, v)| (k.to_owned(), v.to_owned())).collect()
}

/// Calls `Task::get_dependencies`. Trusted: as its source shows, each `dep_` property whose
/// suffix parses as a UUID gives that UUID (in the map's order).
#[verifier::external_body]
fn tc_dependencies(t: &Task) -> (r: Vec<u128>)
    ensures
        forall|i: int|
            #![trigger r@[i]]
            0 <= i < r@.len() ==> exists|x: Seq<char>|
                #![trigger task_props(*t).contains_key("dep_"@ + x)]
                task_props(*t).contains_key("dep_"@ + x) && parsed_uuid(x) == Some(r@[i]),
        forall|x: Seq<char>|
            #![trigger task_props(*t).contains_key("dep_"@ + x)]
            task_props(*t).contains_key("dep_"@ + x) && parsed_uuid(x) is Some ==> r@.contains(
                parsed_uuid(x)->0,
            ),
{
    t.inner.get_dependencies().map(|u| u.as_u128()).collect()
}

/// Calls `Task::set_status`. Trusted: as its source shows, it handles `end` and then sets
/// `status` to the status's stored text through `set_value`, and always succeeds.
#[verifier::external_body]
fn tc_set_status(t: &mut Task, status: StatusValue) -> (r: TcOperations)
    ensures
        set_status_rel(task_state(*old(t)), task_state(*final(t)), tc_operations_view(r), status),
{
    let status = match status {
        StatusValue::Pending => taskchampion::Status::Pending,
        StatusValue::Completed => taskchampion::Status::Completed,
        StatusValue::Deleted => taskchampion::Status::Deleted,
        StatusValue::Recurring => taskchampion::Status::Recurring,
        StatusValue::Unknown(s) => taskchampion::Status::Unknown(s),
    };
    let mut ops = Vec::new();
    t.inner.set_status(status, &mut ops).unwrap();
    TcOperations { inner: ops }
}

/// Calls `Task::set_value`. Trusted: as its source shows, it changes the task as
/// `set_value_rel` says, and always succeeds.
#[verifier::external_body]
fn tc_set_value(t: &mut Task, property: String, value: Option<String>) -> (r: TcOperations)
    ensures
        task_modified_set(*final(t)),
        set_value_rel(task_state(*old(t)), task_state(*final(t)), tc_operations_view(r), property@, opt_view(value)),
{
    let mut ops = Vec::new();
    t.inner.set_value(property, value, &mut ops).unwrap();
    TcOperations { inner: ops }
}

/// Calls `Task::set_timestamp`. Trusted: as its source shows, it sets the property to the
/// timestamp's whole seconds (or removes it) through `set_value`, and always succeeds.
#[verifier::external_body]
fn tc_set_timestamp(t: &mut Task, property: &str, value: Option<Timestamp>) -> (r: TcOperations)
    requires
        value matches Some(ts) ==> chrono_accepts(ts.secs(), ts.subsec_nanos()),
    ensures
        set_timestamp_rel(task_state(*old(t)), task_state(*final(t)), tc_operations_view(r), property@,
            match value { Some(ts) => Some(ts.secs()), None => None }),
{
    let value = value.map(|ts| chrono::DateTime::from_timestamp(ts.seconds, ts.nanos).unwrap());
    let mut ops = Vec::new();
    t.inner.set_timestamp(property, value, &mut ops).unwrap();
    TcOperations { inner: ops }
}

/// Calls `Task::start`. Trusted: as its source shows, an active task is left alone, and
/// otherwise `start` is set to the current time; it always succeeds.
#[verifier::external_body]
fn tc_start(t: &mut Task) -> (r: TcOperations)
    ensures
        start_rel(task_state(*old(t)), task_state(*final(t)), tc_operations_view(r)),
{
    let mut ops = Vec::new();
    t.inner.start(&mut ops).unwrap();
    TcOperations { inner: ops }
}

/// Calls `Task::add_tag` with the tag parsed by `Tag::try_from`. Trusted: as its source
/// shows, a synthetic tag is refused with a usage error and no change; a user tag has its
/// `tag_` property set to the empty text through `set_value`.
#[verifier::external_body]
fn tc_add_tag(t: &mut Task, tag: &Tag) -> (r: Result<TcOperations, String>)
    requires
        parsed_tag(tag@) is Some,
    ensures
        match r {
            Ok(ops) => parsed_tag(tag@) == Some(false) && set_value_rel(task_state(*old(t)), task_state(*final(t)),
                tc_operations_view(ops), "tag_"@ + tag@, Some(Seq::empty())),
            Err(m) => parsed_tag(tag@) == Some(true) && m@ == synthetic_tag_message() && *final(t) == *old(t),
        },
{
    let tag = taskchampion::Tag::try_from(tag.name.as_str()).unwrap();
    let mut ops = Vec::new();
    t.inner.add_tag(&tag, &mut ops).map(|_| TcOperations { inner: ops }).map_err(|e| e.to_string())
}

/// Calls `Task::remove_tag` with the tag parsed by `Tag::try_from`. Trusted: as its source
/// shows, a synthetic tag is refused with a usage error and no change; a user tag has its
/// `tag_` property removed through `set_value`.
#[verifier::external_body]
fn tc_remove_tag(t: &mut Task, tag: &Tag) -> (r: Result<TcOperations, String>)
    requires
        parsed_tag(tag@) is Some,
    ensures
        match r {
            Ok(ops) => parsed_tag(tag@) == Some(false) && set_value_rel(task_state(*old(t)), task_state(*final(t)),
                tc_operations_view(ops), "tag_"@ + tag@, None),
            Err(m) => parsed_tag(tag@) == Some(true) && m@ == synthetic_tag_message() && *final(t) == *old(t),
        },
{
    let tag = taskchampion::Tag::try_from(tag.name.as_str()).unwrap();
    let mut ops = Vec::new();
    t.inner.remove_tag(&tag, &mut ops).map(|_| TcOperations { inner: ops }).map_err(|e| e.to_string())
}

/// Calls `Task::add_annotation`. Trusted: as its source shows, it sets
/// `annotation_<seconds of the entry>` to the description through `set_value`, and always
/// succeeds.
#[verifier::external_body]
fn tc_add_annotation(t: &mut Task, ann: Annotation) -> (r: TcOperations)
    requires
        chrono_accepts(ann@.seconds, ann@.nanos),
    ensures
        set_value_rel(task_state(*old(t)), task_state(*final(t)), tc_operations_view(r),
            "annotation_"@ + int_text(ann@.seconds as int), Some(ann@.description)),
{
    let entry = chrono::DateTime::from_timestamp(ann.entry.seconds, ann.entry.nanos).unwrap();
    let mut ops = Vec::new();
    t.inner.add_annotation(taskchampion::Annotation { entry, description: ann.description }, &mut ops).unwrap();
    TcOperations { inner: ops }
}

/// Calls `Task::remove_annotation`. Trusted: as its source shows, it removes
/// `annotation_<seconds of the entry>` through `set_value`, and always succeeds.
#[verifier::external_body]
fn tc_remove_annotation(t: &mut Task, entry: Timestamp) -> (r: TcOperations)
    requires
        chrono_accepts(entry.secs(), entry.subsec_nanos()),
    ensures
        set_value_rel(task_state(*old(t)), task_state(*final(t)), tc_operations_view(r),
            "annotation_"@ + int_text(entry.secs() as int), None),
{
    let entry = chrono::DateTime::from_timestamp(entry.seconds, entry.nanos).unwrap();
    let mut ops = Vec::new();
    t.inner.remove_annotation(entry, &mut ops).unwrap();
    TcOperations { inner: ops }
}

/// Calls `Task::set_user_defined_attribute`. Trusted: as its source shows, a task model
/// property is refused with a usage error and no change; any other is set through
/// `set_value`.
#[verifier::external_body]
fn tc_set_uda(t: &mut Task, key: String, value: String) -> (r: Result<TcOperations, String>)
    ensures
        match r {
            Ok(ops) => !is_known_key(key@) && set_value_rel(task_state(*old(t)), task_state(*final(t)),
                tc_operations_view(ops), key@, Some(value@)),
            Err(m) => is_known_key(key@) && m@ == known_key_message(key@) && *final(t) == *old(t),
        },
{
    let mut ops = Vec::new();
    t.inner.set_user_defined_attribute(key, value, &mut ops).map(|_| TcOperations { inner: ops }).map_err(|e| e.to_string())
}

/// Calls `Task::remove_user_defined_attribute`. Trusted: as its source shows, a task model
/// property is refused with a usage error and no change; any other is removed through
/// `set_value`.
#[verifier::external_body]
fn tc_remove_uda(t: &mut Task, key: String) -> (r: Result<TcOperations, String>)
    ensures
        match r {
            Ok(ops) => !is_known_key(key@) && set_value_rel(task_state(*old(t)), task_state(*final(t)),
                tc_operations_view(ops), key@, None),
            Err(m) => is_known_key(key@) && m@ == known_key_message(key@) && *final(t) == *old(t),
        },
{
    let mut ops = Vec::new();
    t.inner.remove_user_defined_attribute(key, &mut ops).map(|_| TcOperations { inner: ops }).map_err(|e| e.to_string())
}

/// Calls `Task::add_dependency`. Trusted: as its source shows, `dep_<the UUID's text>` is set
/// to the empty text through `set_value`; it always succeeds.
#[verifier::external_body]
fn tc_add_dependency(t: &mut Task, dep: u128) -> (r: TcOperations)
    ensures
        set_value_rel(task_state(*old(t)), task_state(*final(t)), tc_operations_view(r),
            "dep_"@ + hyphenated(dep), Some(Seq::empty())),
{
    let mut ops = Vec::new();
    t.inner.add_dependency(taskchampion::Uuid::from_u128(dep), &mut ops).unwrap();
    TcOperations { inner: ops }
}

/// Calls `Task::remove_dependency`. Trusted: as its source shows, `dep_<the UUID's text>` is
/// removed through `set_value`; it always succeeds.
#[verifier::external_body]
fn tc_remove_dependency(t: &mut Task, dep: u128) -> (r: TcOperations)
    ensures
        set_value_rel(task_state(*old(t)), task_state(*final(t)), tc_operations_view(r),
            "dep_"@ + hyphenated(dep), None),
{
    let mut ops = Vec::new();
    t.inner.remove_dependency(taskchampion::Uuid::from_u128(dep), &mut ops).unwrap();
    TcOperations { inner: ops }
}


/// Appends to `ops` the operations that taskchampion recorded.
fn record(ops: &mut Operations, added: TcOperations)
    ensures
        extends(old(ops)@, final(ops)@),
        appended(old(ops)@, final(ops)@) == tc_operations_view(added),
{
    let ghost before = ops@;
    ops.extend_from_tc(added);
    proof {
        lemma_append_parts(before, tc_operations_view(added));
    }
}

impl Task {
    /// Whether a timestamp property can be read: it is unset, not an integer, or a number of
    /// seconds that chrono can represent. The timestamp getters require this.
    pub fn can_read_timestamp(&self, property: &str) -> (r: bool)
        ensures
            r == timestamp_readable(task_props(*self), property@),
    {
        match tc_value(self, String::from_str(property)) {
            None => true,
            Some(v) => match parse_i64(v.as_str()) {
                None => true,
                Some(n) => Timestamp::new(n, 0).is_some(),
            },
        }
    }

    /// Whether every annotation property can be read. `get_annotations` requires this.
    pub fn can_read_annotations(&self) -> (r: bool)
        ensures
            r == annotations_readable(task_props(*self)),
    {
        let data = tc_to_task_data(self);
        let items = data.items();
        let ghost props = task_props(*self);
        let ghost ev = entries_view(items@);
        let mut i: usize = 0;
        while i < items.len()
            invariant
                i <= items@.len(),
                ev == entries_view(items@),
                props == task_props(*self),
                entries_map(ev) == props,
                forall|j: int| 0 <= j < i ==> !bad_annotation_key(#[trigger] ev[j].0),
            decreases items@.len() - i,
        {
            let key = items[i].0.as_str();
            assert(ev[i as int].0 == key@);
            if has_prefix(key, "annotation_") {
                proof {
                    reveal_strlit("annotation_");
                }
                let len = key.unicode_len();
                let suffix = key.substring_char(11, len);
                if let Some(n) = parse_i64(suffix) {
                    if Timestamp::new(n, 0).is_none() {
                        proof {
                            let x = suffix@;
                            assert(key@ =~= "annotation_"@ + x);
                            lemma_entries_map_keys(ev, key@);
                            assert(ev[i as int].0 == key@);
                            assert(props.contains_key("annotation_"@ + x));
                        }
                        return false;
                    }
                }
                proof {
                    assert(suffix@ =~= key@.skip(11));
                }
            }
            i = i + 1;
        }
        proof {
            assert forall|x: Seq<char>|
                #![trigger props.contains_key("annotation_"@ + x)]
                props.contains_key("annotation_"@ + x) && parsed_i64(x) is Some implies chrono_accepts(
                    parsed_i64(x)->0,
                    0,
                ) by {
                reveal_strlit("annotation_");
                let k = "annotation_"@ + x;
                lemma_entries_map_keys(ev, k);
                let j = choose|j: int| 0 <= j < ev.len() && #[trigger] ev[j].0 == k;
                assert(!bad_annotation_key(ev[j].0));
                assert("annotation_"@.is_prefix_of(k)) by {
                    assert("annotation_"@ =~= k.subrange(0, 11));
                }
                assert(k.skip(11) =~= x);
            }
        }
        true
    }

    /// The text of the task.
    pub fn __repr__(&self) -> (r: String)
        ensures
            r@ == task_text(task_state(*self)),
    {
        let mut r = String::from_str("Task(uuid=");
        let u = debug_string(uuid_to_string(tc_uuid(self)).as_str());
        r.append(u.as_str());
        r.append(", description=");
        let description = self.get_description();
        let d = debug_string(description.as_str());
        r.append(d.as_str());
        r.append(")");
        r
    }

    /// The task's data: its UUID and properties.
    pub fn to_task_data(&self) -> (r: TaskData)
        ensures
            task_data_uuid(r) == task_uuid(*self),
            task_data_props(r) == task_props(*self),
    {
        tc_to_task_data(self)
    }

    /// The task's UUID.
    pub fn get_uuid(&self) -> (r: String)
        ensures
            r@ == hyphenated(task_uuid(*self)),
    {
        uuid_to_string(tc_uuid(self))
    }

    /// The task's status; `Pending` where none is set.
    pub fn get_status(&self) -> (r: Status)
        ensures
            r == status_of_props(task_props(*self)),
            forall|v: StatusValue|
                status_value_of_props(task_props(*self), v) ==> r == status_of_value(v),
    {
        let v = tc_status(self);
        let r = Status::from(v);
        proof {
            lemma_status_read_agrees_with_stored_text(task_props(*self), v);
            assert forall|w: StatusValue|
                status_value_of_props(task_props(*self), w) implies r == status_of_value(w) by {
                lemma_status_read_agrees_with_stored_text(task_props(*self), w);
            }
        }
        r
    }

    /// The task's description; empty where none is set.
    pub fn get_description(&self) -> (r: String)
        ensures
            r@ == prop_or_empty(task_props(*self), "description"@),
    {
        match tc_value(self, String::from_str("description")) {
            Some(d) => d,
            None => String::new(),
        }
    }

    /// The task's priority; empty where none is set.
    pub fn get_priority(&self) -> (r: String)
        ensures
            r@ == prop_or_empty(task_props(*self), "priority"@),
    {
        match tc_value(self, String::from_str("priority")) {
            Some(p) => p,
            None => String::new(),
        }
    }

    /// When the task was entered, where `entry` holds whole seconds.
    pub fn get_entry(&self) -> (r: Option<Timestamp>)
        requires
            timestamp_readable(task_props(*self), "entry"@),
        ensures
            match timestamp_secs(task_props(*self), "entry"@) {
                Some(n) => r matches Some(ts) && ts.secs() == n && ts.subsec_nanos() == 0,
                None => r is None,
            },
    {
        tc_timestamp(self, "entry")
    }

    /// Until when the task waits, where `wait` holds whole seconds (even a time past).
    pub fn get_wait(&self) -> (r: Option<Timestamp>)
        requires
            timestamp_readable(task_props(*self), "wait"@),
        ensures
            match timestamp_secs(task_props(*self), "wait"@) {
                Some(n) => r matches Some(ts) && ts.secs() == n && ts.subsec_nanos() == 0,
                None => r is None,
            },
    {
        tc_timestamp(self, "wait")
    }

    /// When the task was last modified, where `modified` holds whole seconds.
    pub fn get_modified(&self) -> (r: Option<Timestamp>)
        requires
            timestamp_readable(task_props(*self), "modified"@),
        ensures
            match timestamp_secs(task_props(*self), "modified"@) {
                Some(n) => r matches Some(ts) && ts.secs() == n && ts.subsec_nanos() == 0,
                None => r is None,
            },
    {
        tc_timestamp(self, "modified")
    }

    /// When the task is due, where `due` holds whole seconds.
    pub fn get_due(&self) -> (r: Option<Timestamp>)
        requires
            timestamp_readable(task_props(*self), "due"@),
        ensures
            match timestamp_secs(task_props(*self), "due"@) {
                Some(n) => r matches Some(ts) && ts.secs() == n && ts.subsec_nanos() == 0,
                None => r is None,
            },
    {
        tc_timestamp(self, "due")
    }

    /// Whether the task waits now: taskchampion compares its wait time with the current
    /// time. A waiting task has a wait time; which tasks with one are waiting depends on
    /// the time of the call and is not stated.
    pub fn is_waiting(&self) -> (r: bool)
        requires
            timestamp_readable(task_props(*self), "wait"@),
        ensures
            r ==> timestamp_secs(task_props(*self), "wait"@) is Some,
    {
        tc_is_waiting(self)
    }

    /// Whether the task has been started and not stopped.
    pub fn is_active(&self) -> (r: bool)
        ensures
            r == task_props(*self).contains_key("start"@),
    {
        tc_value(self, String::from_str("start")).is_some()
    }

    /// Whether the task has a dependency.
    pub fn is_blocked(&self) -> (r: bool)
        ensures
            r == blocked(task_state(*self)),
    {
        tc_is_blocked(self)
    }

    /// Whether a task depends on this one.
    pub fn is_blocking(&self) -> (r: bool)
        ensures
            r == blocking(task_state(*self)),
    {
        tc_is_blocking(self)
    }

    /// Whether the task has the tag.
    pub fn has_tag(&self, tag: &Tag) -> (r: bool)
        requires
            tag@ == "WAITING"@ ==> timestamp_readable(task_props(*self), "wait"@),
        ensures
            has_tag_answer(task_state(*self), tag@, r),
    {
        proof {
            use_type_invariant(tag);
        }
        tc_has_tag(self, tag)
    }

    /// The task's tags: the valid tags of its `tag_` properties and the synthetic tags that
    /// are present.
    pub fn get_tags(&self) -> (r: Vec<Tag>)
        requires
            timestamp_readable(task_props(*self), "wait"@),
        ensures
            forall|i: int| 0 <= i < r@.len() ==> tag_listed(task_state(*self), #[trigger] r@[i]@),
            forall|x: Seq<char>|
                parsed_tag(x) is Some && #[trigger] task_props(*self).contains_key("tag_"@ + x)
                    ==> r@.map_values(|g: Tag| g@).contains(x),
            forall|x: Seq<char>|
                is_synthetic_name(x) && x != "WAITING"@ && #[trigger] synthetic_present(task_state(*self), x)
                    ==> r@.map_values(|g: Tag| g@).contains(x),
    {
        tc_tags(self)
    }

    /// The task's annotations, one for each `annotation_` property whose suffix is an integer.
    pub fn get_annotations(&self) -> (r: Vec<Annotation>)
        requires
            annotations_readable(task_props(*self)),
        ensures
            forall|i: int| 0 <= i < r@.len() ==> annotation_from(task_props(*self), #[trigger] r@[i]@),
            forall|x: Seq<char>|
                #![trigger task_props(*self).contains_key("annotation_"@ + x)]
                task_props(*self).contains_key("annotation_"@ + x) && parsed_i64(x) is Some
                    ==> r@.map_values(|a: Annotation| a@).contains(annotation_of(task_props(*self), x)),
    {
        tc_annotations(self)
    }

    /// A user-defined attribute; `None` for a task model property, set or not.
    pub fn get_user_defined_attribute(&self, key: &str) -> (r: Option<String>)
        ensures
            opt_view(r) == if is_known_key(key@) {
                None
            } else {
                prop_get(task_props(*self), key@)
            },
    {
        tc_uda(self, key)
    }

    /// The user-defined attributes with their values, each once, in no stated order.
    pub fn get_user_defined_attributes(&self) -> (r: Vec<(String, String)>)
        ensures
            keys_distinct(entries_view(r@)),
            entries_map(entries_view(r@)) == user_defined(task_props(*self)),
    {
        tc_udas(self)
    }

    /// The UUIDs of the tasks on which this one depends: one for each `dep_` property whose
    /// suffix is a UUID.
    pub fn get_dependencies(&self) -> (r: Vec<String>)
        ensures
            forall|i: int| 0 <= i < r@.len() ==> dependency_text(task_props(*self), #[trigger] r@[i]@),
            forall|x: Seq<char>|
                #![trigger task_props(*self).contains_key("dep_"@ + x)]
                task_props(*self).contains_key("dep_"@ + x) && parsed_uuid(x) is Some
                    ==> r@.map_values(|s: String| s@).contains(hyphenated(parsed_uuid(x)->0)),
    {
        let deps = tc_dependencies(self);
        let r = uuids_to_strings(&deps);
        proof {
            assert forall|x: Seq<char>|
                #![trigger task_props(*self).contains_key("dep_"@ + x)]
                task_props(*self).contains_key("dep_"@ + x) && parsed_uuid(x) is Some
                    implies r@.map_values(|s: String| s@).contains(hyphenated(parsed_uuid(x)->0)) by {
                let u = parsed_uuid(x)->0;
                let i = choose|i: int| 0 <= i < deps@.len() && deps@[i] == u;
                assert(r@.map_values(|s: String| s@)[i] == hyphenated(u));
            }
            assert forall|i: int| 0 <= i < r@.len() implies dependency_text(
                task_props(*self),
                #[trigger] r@[i]@,
            ) by {
                assert(r@[i]@ == hyphenated(deps@[i]));
                let d = deps@[i];
                let x = choose|x: Seq<char>|
                    #![trigger task_props(*self).contains_key("dep_"@ + x)]
                    task_props(*self).contains_key("dep_"@ + x) && parsed_uuid(x) == Some(d);
                assert(task_props(*self).contains_key("dep_"@ + x));
            }
        }
        r
    }

    /// A property's value, or `None`.
    pub fn get_value(&self, property: String) -> (r: Option<String>)
        ensures
            opt_view(r) == prop_get(task_props(*self), property@),
    {
        tc_value(self, property)
    }

    /// Sets the status, handling `end`; `Unknown` cannot be set.
    pub fn set_status(&mut self, status: Status, ops: &mut Operations) -> (r: Result<(), Error>)
        ensures
            match value_of_status(status) {
                Ok(v) => r is Ok && extends(old(ops)@, final(ops)@) && set_status_rel(
                    task_state(*old(self)),
                    task_state(*final(self)),
                    appended(old(ops)@, final(ops)@),
                    v,
                ),
                Err(e) => r matches Err(x) && x == e && *final(self) == *old(self) && final(ops)@
                    == old(ops)@,
            },
    {
        match StatusValue::try_from(status) {
            Ok(v) => {
                let added = tc_set_status(self, v);
                record(ops, added);
                Ok(())
            },
            Err(e) => Err(e),
        }
    }

    /// Sets the description.
    pub fn set_description(&mut self, description: String, ops: &mut Operations) -> (r: Result<(), Error>)
        ensures
            r is Ok,
            extends(old(ops)@, final(ops)@),
            set_value_rel(
                task_state(*old(self)),
                task_state(*final(self)),
                appended(old(ops)@, final(ops)@),
                "description"@,
                Some(description@),
            ),
    {
        let added = tc_set_value(self, String::from_str("description"), Some(description));
        record(ops, added);
        Ok(())
    }

    /// Sets the priority.
    pub fn set_priority(&mut self, priority: String, ops: &mut Operations) -> (r: Result<(), Error>)
        ensures
            r is Ok,
            extends(old(ops)@, final(ops)@),
            set_value_rel(
                task_state(*old(self)),
                task_state(*final(self)),
                appended(old(ops)@, final(ops)@),
                "priority"@,
                Some(priority@),
            ),
    {
        let added = tc_set_value(self, String::from_str("priority"), Some(priority));
        record(ops, added);
        Ok(())
    }

    /// Sets (by its whole seconds) or removes a timestamp property.
    fn set_timestamp_prop(&mut self, property: &str, value: Option<Timestamp>, ops: &mut Operations)
        ensures
            extends(old(ops)@, final(ops)@),
            set_timestamp_rel(
                task_state(*old(self)),
                task_state(*final(self)),
                appended(old(ops)@, final(ops)@),
                property@,
                match value {
                    Some(ts) => Some(ts.secs()),
                    None => None,
                },
            ),
    {
        if let Some(ts) = &value {
            proof {
                use_type_invariant(ts);
            }
        }
        let added = tc_set_timestamp(self, property, value);
        record(ops, added);
    }

    /// Sets (by its whole seconds) or removes the entry time.
    pub fn set_entry(&mut self, entry: Option<Timestamp>, ops: &mut Operations) -> (r: Result<(), Error>)
        ensures
            r is Ok,
            extends(old(ops)@, final(ops)@),
            set_timestamp_rel(
                task_state(*old(self)),
                task_state(*final(self)),
                appended(old(ops)@, final(ops)@),
                "entry"@,
                match entry {
                    Some(ts) => Some(ts.secs()),
                    None => None,
                },
            ),
    {
        self.set_timestamp_prop("entry", entry, ops);
        Ok(())
    }

    /// Sets (by its whole seconds) or removes the wait time.
    pub fn set_wait(&mut self, wait: Option<Timestamp>, ops: &mut Operations) -> (r: Result<(), Error>)
        ensures
            r is Ok,
            extends(old(ops)@, final(ops)@),
            set_timestamp_rel(
                task_state(*old(self)),
                task_state(*final(self)),
                appended(old(ops)@, final(ops)@),
                "wait"@,
                match wait {
                    Some(ts) => Some(ts.secs()),
                    None => None,
                },
            ),
    {
        self.set_timestamp_prop("wait", wait, ops);
        Ok(())
    }

    /// Sets (by its whole seconds) the modification time.
    pub fn set_modified(&mut self, modified: Timestamp, ops: &mut Operations) -> (r: Result<(), Error>)
        ensures
            r is Ok,
            extends(old(ops)@, final(ops)@),
            set_timestamp_rel(
                task_state(*old(self)),
                task_state(*final(self)),
                appended(old(ops)@, final(ops)@),
                "modified"@,
                Some(modified.secs()),
            ),
    {
        self.set_timestamp_prop("modified", Some(modified), ops);
        Ok(())
    }

    /// Sets (by its whole seconds) or removes the due time.
    pub fn set_due(&mut self, due: Option<Timestamp>, ops: &mut Operations) -> (r: Result<(), Error>)
        ensures
            r is Ok,
            extends(old(ops)@, final(ops)@),
            set_timestamp_rel(
                task_state(*old(self)),
                task_state(*final(self)),
                appended(old(ops)@, final(ops)@),
                "due"@,
                match due {
                    Some(ts) => Some(ts.secs()),
                    None => None,
                },
            ),
    {
        self.set_timestamp_prop("due", due, ops);
        Ok(())
    }

    /// Sets (`Some`) or removes a property by name.
    pub fn set_value(&mut self, property: String, value: Option<String>, ops: &mut Operations) -> (r: Result<(), Error>)
        ensures
            r is Ok,
            extends(old(ops)@, final(ops)@),
            set_value_rel(
                task_state(*old(self)),
                task_state(*final(self)),
                appended(old(ops)@, final(ops)@),
                property@,
                opt_view(value),
            ),
    {
        let added = tc_set_value(self, property, value);
        record(ops, added);
        Ok(())
    }

    /// Starts the task, unless it is active.
    pub fn start(&mut self, ops: &mut Operations) -> (r: Result<(), Error>)
        ensures
            r is Ok,
            extends(old(ops)@, final(ops)@),
            start_rel(task_state(*old(self)), task_state(*final(self)), appended(old(ops)@, final(ops)@)),
    {
        let added = tc_start(self);
        record(ops, added);
        Ok(())
    }

    /// Stops the task: removes `start`.
    pub fn stop(&mut self, ops: &mut Operations) -> (r: Result<(), Error>)
        ensures
            r is Ok,
            extends(old(ops)@, final(ops)@),
            set_timestamp_rel(
                task_state(*old(self)),
                task_state(*final(self)),
                appended(old(ops)@, final(ops)@),
                "start"@,
                None,
            ),
    {
        self.set_timestamp_prop("start", None, ops);
        Ok(())
    }

    /// Marks the task completed.
    pub fn done(&mut self, ops: &mut Operations) -> (r: Result<(), Error>)
        ensures
            r is Ok,
            extends(old(ops)@, final(ops)@),
            set_status_rel(
                task_state(*old(self)),
                task_state(*final(self)),
                appended(old(ops)@, final(ops)@),
                StatusValue::Completed,
            ),
    {
        let added = tc_set_status(self, StatusValue::Completed);
        record(ops, added);
        Ok(())
    }

    /// Adds a user tag; a synthetic tag is refused with taskchampion's message.
    pub fn add_tag(&mut self, tag: &Tag, ops: &mut Operations) -> (r: Result<(), Error>)
        ensures
            if parsed_tag(tag@) == Some(false) {
                r is Ok && extends(old(ops)@, final(ops)@) && set_value_rel(
                    task_state(*old(self)),
                    task_state(*final(self)),
                    appended(old(ops)@, final(ops)@),
                    "tag_"@ + tag@,
                    Some(Seq::empty()),
                )
            } else {
                r matches Err(Error::Runtime(m)) && m@ == synthetic_tag_message() && *final(self)
                    == *old(self) && final(ops)@ == old(ops)@
            },
    {
        proof {
            use_type_invariant(tag);
        }
        match tc_add_tag(self, tag) {
            Ok(added) => {
                record(ops, added);
                Ok(())
            },
            Err(m) => Err(Error::Runtime(m)),
        }
    }

    /// Removes a user tag; a synthetic tag is refused with taskchampion's message.
    pub fn remove_tag(&mut self, tag: &Tag, ops: &mut Operations) -> (r: Result<(), Error>)
        ensures
            if parsed_tag(tag@) == Some(false) {
                r is Ok && extends(old(ops)@, final(ops)@) && set_value_rel(
                    task_state(*old(self)),
                    task_state(*final(self)),
                    appended(old(ops)@, final(ops)@),
                    "tag_"@ + tag@,
                    None,
                )
            } else {
                r matches Err(Error::Runtime(m)) && m@ == synthetic_tag_message() && *final(self)
                    == *old(self) && final(ops)@ == old(ops)@
            },
    {
        proof {
            use_type_invariant(tag);
        }
        match tc_remove_tag(self, tag) {
            Ok(added) => {
                record(ops, added);
                Ok(())
            },
            Err(m) => Err(Error::Runtime(m)),
        }
    }

    /// Adds an annotation under its entry time (in whole seconds).
    pub fn add_annotation(&mut self, annotation: Annotation, ops: &mut Operations) -> (r: Result<(), Error>)
        ensures
            r is Ok,
            extends(old(ops)@, final(ops)@),
            set_value_rel(
                task_state(*old(self)),
                task_state(*final(self)),
                appended(old(ops)@, final(ops)@),
                "annotation_"@ + int_text(annotation@.seconds as int),
                Some(annotation@.description),
            ),
    {
        let entry = annotation.entry();
        proof {
            use_type_invariant(&entry);
        }
        let added = tc_add_annotation(self, annotation);
        record(ops, added);
        Ok(())
    }

    /// Removes the annotation made at the given time (in whole seconds).
    pub fn remove_annotation(&mut self, timestamp: Timestamp, ops: &mut Operations) -> (r: Result<(), Error>)
        ensures
            r is Ok,
            extends(old(ops)@, final(ops)@),
            set_value_rel(
                task_state(*old(self)),
                task_state(*final(self)),
                appended(old(ops)@, final(ops)@),
                "annotation_"@ + int_text(timestamp.secs() as int),
                None,
            ),
    {
        proof {
            use_type_invariant(&timestamp);
        }
        let added = tc_remove_annotation(self, timestamp);
        record(ops, added);
        Ok(())
    }

    /// Sets a user-defined attribute; a task model property is refused with taskchampion's
    /// message.
    pub fn set_user_defined_attribute(&mut self, key: String, value: String, ops: &mut Operations) -> (r: Result<(), Error>)
        ensures
            if !is_known_key(key@) {
                r is Ok && extends(old(ops)@, final(ops)@) && set_value_rel(
                    task_state(*old(self)),
                    task_state(*final(self)),
                    appended(old(ops)@, final(ops)@),
                    key@,
                    Some(value@),
                )
            } else {
                r matches Err(Error::Runtime(m)) && m@ == known_key_message(key@) && *final(self)
                    == *old(self) && final(ops)@ == old(ops)@
            },
    {
        match tc_set_uda(self, key, value) {
            Ok(added) => {
                record(ops, added);
                Ok(())
            },
            Err(m) => Err(Error::Runtime(m)),
        }
    }

    /// Removes a user-defined attribute; a task model property is refused with
    /// taskchampion's message.
    pub fn remove_user_defined_attribute(&mut self, key: String, ops: &mut Operations) -> (r: Result<(), Error>)
        ensures
            if !is_known_key(key@) {
                r is Ok && extends(old(ops)@, final(ops)@) && set_value_rel(
                    task_state(*old(self)),
                    task_state(*final(self)),
                    appended(old(ops)@, final(ops)@),
                    key@,
                    None,
                )
            } else {
                r matches Err(Error::Runtime(m)) && m@ == known_key_message(key@) && *final(self)
                    == *old(self) && final(ops)@ == old(ops)@
            },
    {
        match tc_remove_uda(self, key) {
            Ok(added) => {
                record(ops, added);
                Ok(())
            },
            Err(m) => Err(Error::Runtime(m)),
        }
    }

    /// Adds a dependency on the task with the given UUID; text that is not a UUID is refused.
    pub fn add_dependency(&mut self, dep: String, ops: &mut Operations) -> (r: Result<(), Error>)
        ensures
            match parsed_uuid(dep@) {
                Some(u) => r is Ok && extends(old(ops)@, final(ops)@) && set_value_rel(
                    task_state(*old(self)),
                    task_state(*final(self)),
                    appended(old(ops)@, final(ops)@),
                    "dep_"@ + hyphenated(u),
                    Some(Seq::empty()),
                ),
                None => r matches Err(e) && e == Error::InvalidUuid && *final(self) == *old(self)
                    && final(ops)@ == old(ops)@,
            },
    {
        let u = uuid2tc(dep.as_str())?;
        let added = tc_add_dependency(self, u);
        record(ops, added);
        Ok(())
    }

    /// Removes the dependency on the task with the given UUID; text that is not a UUID is
    /// refused.
    pub fn remove_dependency(&mut self, dep: String, ops: &mut Operations) -> (r: Result<(), Error>)
        ensures
            match parsed_uuid(dep@) {
                Some(u) => r is Ok && extends(old(ops)@, final(ops)@) && set_value_rel(
                    task_state(*old(self)),
                    task_state(*final(self)),
                    appended(old(ops)@, final(ops)@),
                    "dep_"@ + hyphenated(u),
                    None,
                ),
                None => r matches Err(e) && e == Error::InvalidUuid && *final(self) == *old(self)
                    && final(ops)@ == old(ops)@,
            },
    {
        let u = uuid2tc(dep.as_str())?;
        let added = tc_remove_dependency(self, u);
        record(ops, added);
        Ok(())
    }
}

} // verus!
