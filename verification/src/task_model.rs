//! The task model: what a task's properties mean, and how setting one changes a task.
use vstd::prelude::*;
use crate::dependency_map::{dependencies_of, dependents_of};
use crate::operation::OperationView;
use crate::status::{
    status_of_value, status_value_read, status_value_text, value_of_status, Status, StatusValue,
};
use crate::tag::parsed_tag;
use crate::task_data::{is_update_of, prop_get, prop_update};
use crate::timestamp::chrono_accepts;
use crate::working_set::decimal_text;

verus! {

/// What a task is, as values: its properties, its UUID, the edges of the dependency map that
/// it was read with, and whether it has already recorded an update of `modified`.
pub struct TaskState {
    pub props: Map<Seq<char>, Seq<char>>,
    pub uuid: u128,
    pub edges: Seq<(u128, u128)>,
    pub modified_set: bool,
}

/// The decimal text of an integer, with a leading `-` for a negative one.
pub open spec fn int_text(n: int) -> Seq<char> {
    if n < 0 {
        "-"@ + decimal_text((-n) as nat)
    } else {
        decimal_text(n as nat)
    }
}

/// Whether every character is an ASCII digit.
pub open spec fn all_digits(s: Seq<char>) -> bool {
    forall|i: int| 0 <= i < s.len() ==> 48 <= #[trigger] (s[i] as int) <= 57
}

/// The value of a text of ASCII digits.
pub open spec fn digits_value(s: Seq<char>) -> int
    decreases s.len(),
{
    if s.len() == 0 {
        0
    } else {
        digits_value(s.drop_last()) * 10 + (s.last() as int - 48)
    }
}

/// What `str::parse::<i64>` makes of a text: an optional `+` or `-`, then one or more ASCII
/// digits, whose value must fit in an `i64`.
pub open spec fn parsed_i64(s: Seq<char>) -> Option<i64> {
    let neg = s.len() > 0 && s[0] == '-';
    let body = if s.len() > 0 && (s[0] == '-' || s[0] == '+') {
        s.drop_first()
    } else {
        s
    };
    let v = if neg {
        -digits_value(body)
    } else {
        digits_value(body)
    };
    if body.len() > 0 && all_digits(body) && i64::MIN <= v <= i64::MAX {
        Some(v as i64)
    } else {
        None
    }
}

/// The seconds that a timestamp property holds, where it is set and is an integer.
pub open spec fn timestamp_secs(props: Map<Seq<char>, Seq<char>>, key: Seq<char>) -> Option<i64> {
    if props.contains_key(key) {
        parsed_i64(props[key])
    } else {
        None
    }
}

/// A timestamp property can be read: where it holds an integer, chrono can represent that
/// many seconds (taskchampion's `utc_timestamp` panics on the others).
pub open spec fn timestamp_readable(props: Map<Seq<char>, Seq<char>>, key: Seq<char>) -> bool {
    timestamp_secs(props, key) matches Some(n) ==> chrono_accepts(n, 0)
}

/// Whether a property name belongs to the task model: one of its named properties, or a
/// tag, annotation or dependency property.
pub open spec fn is_known_key(k: Seq<char>) -> bool {
    ||| k == "description"@
    ||| k == "due"@
    ||| k == "modified"@
    ||| k == "start"@
    ||| k == "status"@
    ||| k == "priority"@
    ||| k == "wait"@
    ||| k == "end"@
    ||| k == "entry"@
    ||| "tag_"@.is_prefix_of(k)
    ||| "annotation_"@.is_prefix_of(k)
    ||| "dep_"@.is_prefix_of(k)
}

/// A property's value, or the empty text where it is not set.
pub open spec fn prop_or_empty(props: Map<Seq<char>, Seq<char>>, key: Seq<char>) -> Seq<char> {
    if props.contains_key(key) {
        props[key]
    } else {
        Seq::empty()
    }
}

/// The status that a task's properties give: `Pending` where `status` is not set.
pub open spec fn status_of_props(props: Map<Seq<char>, Seq<char>>) -> Status {
    if !props.contains_key("status"@) {
        Status::Pending
    } else {
        let t = props["status"@];
        if t == "pending"@ {
            Status::Pending
        } else if t == "completed"@ {
            Status::Completed
        } else if t == "deleted"@ {
            Status::Deleted
        } else if t == "recurring"@ {
            Status::Recurring
        } else {
            Status::Unknown
        }
    }
}

/// The stored status that a task's properties give.
pub open spec fn status_value_of_props(props: Map<Seq<char>, Seq<char>>, v: StatusValue) -> bool {
    if props.contains_key("status"@) {
        status_value_read(v, props["status"@])
    } else {
        v == StatusValue::Pending
    }
}

/// The task has at least one dependency in its dependency map.
pub open spec fn blocked(s: TaskState) -> bool {
    dependencies_of(s.edges, s.uuid).len() > 0
}

/// At least one task depends on the task in its dependency map.
pub open spec fn blocking(s: TaskState) -> bool {
    dependents_of(s.edges, s.uuid).len() > 0
}

/// Whether a synthetic tag other than `WAITING` is present; `WAITING` depends on the time.
pub open spec fn synthetic_present(s: TaskState, name: Seq<char>) -> bool {
    if name == "ACTIVE"@ {
        s.props.contains_key("start"@)
    } else if name == "PENDING"@ {
        status_of_props(s.props) == Status::Pending
    } else if name == "COMPLETED"@ {
        status_of_props(s.props) == Status::Completed
    } else if name == "DELETED"@ {
        status_of_props(s.props) == Status::Deleted
    } else if name == "BLOCKED"@ {
        blocked(s)
    } else if name == "UNBLOCKED"@ {
        !blocked(s)
    } else if name == "BLOCKING"@ {
        blocking(s)
    } else {
        false
    }
}

/// What `has_tag` answers for a tag, where it does not depend on the time: a user tag is
/// present when its `tag_` property is set; a synthetic tag as `synthetic_present` says;
/// `WAITING` is present only where a wait time is set.
pub open spec fn has_tag_answer(s: TaskState, name: Seq<char>, r: bool) -> bool {
    if parsed_tag(name) == Some(false) {
        r == s.props.contains_key("tag_"@ + name)
    } else if name == "WAITING"@ {
        r ==> timestamp_secs(s.props, "wait"@) is Some
    } else {
        r == synthetic_present(s, name)
    }
}

/// Setting a property by `Task::set_value`: unless the property is `modified` or the task
/// has already recorded an update of `modified`, `modified` is first set to the current time
/// (in seconds, some `now`); then the property is set or removed. Each change records an
/// `Update`, and the task then counts `modified` as recorded.
pub open spec fn set_value_rel(
    s0: TaskState,
    s1: TaskState,
    added: Seq<OperationView>,
    prop: Seq<char>,
    value: Option<Seq<char>>,
) -> bool {
    &&& s1.uuid == s0.uuid
    &&& s1.edges == s0.edges
    &&& s1.modified_set
    &&& if prop != "modified"@ && !s0.modified_set {
        exists|now: i64|
            {
                let p1 = #[trigger] s0.props.insert("modified"@, int_text(now as int));
                &&& added.len() == 2
                &&& is_update_of(
                    added[0],
                    s0.uuid,
                    s0.props,
                    "modified"@,
                    Some(int_text(now as int)),
                )
                &&& is_update_of(added[1], s0.uuid, p1, prop, value)
                &&& s1.props == prop_update(p1, prop, value)
            }
    } else {
        &&& added.len() == 1
        &&& is_update_of(added[0], s0.uuid, s0.props, prop, value)
        &&& s1.props == prop_update(s0.props, prop, value)
    }
}

/// Setting or removing a timestamp property (by its whole seconds), by `Task::set_timestamp`.
pub open spec fn set_timestamp_rel(
    s0: TaskState,
    s1: TaskState,
    added: Seq<OperationView>,
    prop: Seq<char>,
    seconds: Option<i64>,
) -> bool {
    set_value_rel(
        s0,
        s1,
        added,
        prop,
        match seconds {
            Some(n) => Some(int_text(n as int)),
            None => None,
        },
    )
}

/// Nothing changes and nothing is recorded.
pub open spec fn unchanged(s0: TaskState, s1: TaskState, added: Seq<OperationView>) -> bool {
    s1 == s0 && added.len() == 0
}

/// The first step of `Task::set_status`: a pending or recurring task loses `end`; a completed
/// or deleted one gets `end` set to the current time, where it has none.
pub open spec fn end_step_rel(s0: TaskState, s1: TaskState, added: Seq<OperationView>, v: StatusValue) -> bool {
    let has_end = s0.props.contains_key("end"@);
    match v {
        StatusValue::Pending | StatusValue::Recurring => if has_end {
            set_value_rel(s0, s1, added, "end"@, None)
        } else {
            unchanged(s0, s1, added)
        },
        StatusValue::Completed | StatusValue::Deleted => if !has_end {
            exists|now: i64| set_value_rel(s0, s1, added, "end"@, Some(#[trigger] int_text(now as int)))
        } else {
            unchanged(s0, s1, added)
        },
        StatusValue::Unknown(_) => unchanged(s0, s1, added),
    }
}

/// Setting the status, by `Task::set_status`: the step on `end`, then `status` is set to the
/// status's stored text.
pub open spec fn set_status_rel(s0: TaskState, s1: TaskState, added: Seq<OperationView>, v: StatusValue) -> bool {
    exists|mid: TaskState, a1: Seq<OperationView>|
        {
            &&& extends(a1, added)
            &&& #[trigger] end_step_rel(s0, mid, a1, v)
            &&& set_value_rel(mid, s1, appended(a1, added), "status"@, Some(status_value_text(v)))
        }
}

/// Starting a task, by `Task::start`: nothing happens to an active task; otherwise `start` is
/// set to the current time.
pub open spec fn start_rel(s0: TaskState, s1: TaskState, added: Seq<OperationView>) -> bool {
    if s0.props.contains_key("start"@) {
        unchanged(s0, s1, added)
    } else {
        exists|now: i64| set_value_rel(s0, s1, added, "start"@, Some(#[trigger] int_text(now as int)))
    }
}

/// `b` extends `a`.
pub open spec fn extends<A>(a: Seq<A>, b: Seq<A>) -> bool {
    a.len() <= b.len() && b.take(a.len() as int) == a
}

/// What `b` adds to `a`.
pub open spec fn appended<A>(a: Seq<A>, b: Seq<A>) -> Seq<A> {
    b.skip(a.len() as int)
}

/// Appending `b` to `a` extends `a` by exactly `b`.
pub proof fn lemma_append_parts<A>(a: Seq<A>, b: Seq<A>)
    ensures
        extends(a, a + b),
        appended(a, a + b) == b,
{
    assert((a + b).take(a.len() as int) =~= a);
    assert((a + b).skip(a.len() as int) =~= b);
}

} // verus!

verus! {

/// After `set_value`, the property holds the value written (or is unset for `None`); every
/// property other than it and `modified` is as it was; the UUID and the dependency map do not
/// change.
pub proof fn lemma_set_value_then_get(
    s0: TaskState,
    s1: TaskState,
    added: Seq<OperationView>,
    prop: Seq<char>,
    value: Option<Seq<char>>,
    other: Seq<char>,
)
    requires
        set_value_rel(s0, s1, added, prop, value),
    ensures
        prop_get(s1.props, prop) == value,
        other != prop && other != "modified"@ ==> prop_get(s1.props, other) == prop_get(
            s0.props,
            other,
        ),
        s1.uuid == s0.uuid,
        s1.edges == s0.edges,
{
    if prop != "modified"@ && !s0.modified_set {
        let now = choose|now: i64|
            {
                let p1 = #[trigger] s0.props.insert("modified"@, int_text(now as int));
                &&& added.len() == 2
                &&& is_update_of(
                    added[0],
                    s0.uuid,
                    s0.props,
                    "modified"@,
                    Some(int_text(now as int)),
                )
                &&& is_update_of(added[1], s0.uuid, p1, prop, value)
                &&& s1.props == prop_update(p1, prop, value)
            };
        let p1 = s0.props.insert("modified"@, int_text(now as int));
        assert(prop_get(p1, other) == prop_get(s0.props, other) || other == "modified"@);
    }
}

/// A task records the update of `modified` at most once: once any property has been set,
/// setting another records exactly one operation.
pub proof fn lemma_modified_recorded_once(
    s0: TaskState,
    s1: TaskState,
    a1: Seq<OperationView>,
    p1: Seq<char>,
    v1: Option<Seq<char>>,
    s2: TaskState,
    a2: Seq<OperationView>,
    p2: Seq<char>,
    v2: Option<Seq<char>>,
)
    requires
        set_value_rel(s0, s1, a1, p1, v1),
        set_value_rel(s1, s2, a2, p2, v2),
    ensures
        a2.len() == 1,
        is_update_of(a2[0], s1.uuid, s1.props, p2, v2),
{
}

} // verus!

verus! {

/// Parses an integer with `str::parse::<i64>`. Trusted: as the documentation of
/// `i64::from_str` says, the text must be an optional `+` or `-` sign followed by digits only,
/// with a value that fits, which is what `parsed_i64` states.
#[verifier::external_body]
pub(crate) fn parse_i64(s: &str) -> (r: Option<i64>)
    ensures
        r == parsed_i64(s@),
{
    s.parse::<i64>().ok()
}

/// A property key that names an annotation whose time chrono cannot represent.
pub open spec fn bad_annotation_key(k: Seq<char>) -> bool {
    &&& "annotation_"@.is_prefix_of(k)
    &&& parsed_i64(k.skip(11)) matches Some(n) && !chrono_accepts(n, 0)
}

} // verus!

verus! {

/// After `set_status`, the task stores the status's text; a completed or deleted task has an
/// `end` time, and a pending or recurring one has none.
pub proof fn lemma_set_status_outcome(
    s0: TaskState,
    s1: TaskState,
    added: Seq<OperationView>,
    v: StatusValue,
)
    requires
        set_status_rel(s0, s1, added, v),
    ensures
        prop_get(s1.props, "status"@) == Some(status_value_text(v)),
        (v == StatusValue::Completed || v == StatusValue::Deleted) ==> s1.props.contains_key("end"@),
        (v == StatusValue::Pending || v == StatusValue::Recurring) ==> !s1.props.contains_key("end"@),
        s1.uuid == s0.uuid,
{
    let (mid, a1) = choose|mid: TaskState, a1: Seq<OperationView>|
        {
            &&& extends(a1, added)
            &&& #[trigger] end_step_rel(s0, mid, a1, v)
            &&& set_value_rel(mid, s1, appended(a1, added), "status"@, Some(status_value_text(v)))
        };
    reveal_strlit("end");
    reveal_strlit("status");
    reveal_strlit("modified");
    assert("end"@ != "status"@ && "end"@ != "modified"@) by {
        assert("end"@[0] != "status"@[0]);
        assert("end"@[0] != "modified"@[0]);
    }
    lemma_set_value_then_get(mid, s1, appended(a1, added), "status"@, Some(status_value_text(v)), "end"@);
    let has_end = s0.props.contains_key("end"@);
    match v {
        StatusValue::Pending | StatusValue::Recurring => {
            if has_end {
                lemma_set_value_then_get(s0, mid, a1, "end"@, None, "end"@);
            } else {
                assert(mid == s0);
            }
        },
        StatusValue::Completed | StatusValue::Deleted => {
            if !has_end {
                let now = choose|now: i64|
                    set_value_rel(s0, mid, a1, "end"@, Some(#[trigger] int_text(now as int)));
                lemma_set_value_then_get(s0, mid, a1, "end"@, Some(int_text(now as int)), "end"@);
            }
        },
        StatusValue::Unknown(_) => {},
    }
}

/// After `start`, the task is active; after `stop`, it is not.
pub proof fn lemma_start_stop_active(
    s0: TaskState,
    s1: TaskState,
    a1: Seq<OperationView>,
    s2: TaskState,
    a2: Seq<OperationView>,
)
    requires
        start_rel(s0, s1, a1),
        set_timestamp_rel(s1, s2, a2, "start"@, None),
    ensures
        s1.props.contains_key("start"@),
        !s2.props.contains_key("start"@),
{
    if !s0.props.contains_key("start"@) {
        let now = choose|now: i64|
            set_value_rel(s0, s1, a1, "start"@, Some(#[trigger] int_text(now as int)));
        lemma_set_value_then_get(s0, s1, a1, "start"@, Some(int_text(now as int)), "start"@);
    }
    lemma_set_value_then_get(s1, s2, a2, "start"@, None, "start"@);
}

} // verus!

verus! {

proof fn lemma_status_texts_distinct()
    ensures
        "pending"@ != "completed"@,
        "pending"@ != "deleted"@,
        "pending"@ != "recurring"@,
        "completed"@ != "deleted"@,
        "completed"@ != "recurring"@,
        "deleted"@ != "recurring"@,
{
    reveal_strlit("pending");
    reveal_strlit("completed");
    reveal_strlit("deleted");
    reveal_strlit("recurring");
    assert("pending"@[0] != "completed"@[0]);
    assert("pending"@[0] != "deleted"@[0]);
    assert("pending"@[0] != "recurring"@[0]);
    assert("completed"@[0] != "deleted"@[0]);
    assert("completed"@[0] != "recurring"@[0]);
    assert("deleted"@[0] != "recurring"@[0]);
}

/// The status that `get_status` reads is the one that the stored status text stands for:
/// whatever taskchampion reads from the `status` property (`Pending` where it is unset),
/// `get_status` gives the caller's status of that stored status.
pub proof fn lemma_status_read_agrees_with_stored_text(
    props: Map<Seq<char>, Seq<char>>,
    v: StatusValue,
)
    requires
        status_value_of_props(props, v),
    ensures
        status_of_props(props) == status_of_value(v),
{
    lemma_status_texts_distinct();
}

/// Setting a status that can be set and reading the status back gives that status.
pub proof fn lemma_set_status_then_get_status(
    s0: TaskState,
    s1: TaskState,
    added: Seq<OperationView>,
    st: Status,
)
    requires
        value_of_status(st) is Ok,
        set_status_rel(s0, s1, added, value_of_status(st)->Ok_0),
    ensures
        status_of_props(s1.props) == st,
{
    let v = value_of_status(st)->Ok_0;
    lemma_set_status_outcome(s0, s1, added, v);
    lemma_status_texts_distinct();
}

} // verus!
