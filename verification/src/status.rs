//! Task statuses: the five that callers see, and the values that the task model stores.
use vstd::prelude::*;
use vstd::std_specs::convert::FromSpecImpl;
use vstd::std_specs::convert::TryFromSpecImpl;
use crate::error::Error;

verus! {

/// The status of a task as callers see it. `Unknown` stands for every status text that
/// the task model does not define; it can be read but not written.
#[derive(Clone, Copy, PartialEq, Eq, Structural, Debug)]
pub enum Status {
    Pending,
    Completed,
    Deleted,
    Recurring,
    Unknown,
}

/// The status of a task as the task model stores it; `Unknown` keeps the stored text.
#[derive(Clone, PartialEq, Eq, Debug)]
pub enum StatusValue {
    Pending,
    Completed,
    Deleted,
    Recurring,
    Unknown(String),
}

/// The text under which the task model stores a status.
pub open spec fn status_value_text(v: StatusValue) -> Seq<char> {
    match v {
        StatusValue::Pending => "pending"@,
        StatusValue::Completed => "completed"@,
        StatusValue::Deleted => "deleted"@,
        StatusValue::Recurring => "recurring"@,
        StatusValue::Unknown(s) => s@,
    }
}

/// The status that the task model reads from a stored text: one of the four that it
/// defines, or `Unknown` carrying the text.
pub open spec fn status_value_read(v: StatusValue, text: Seq<char>) -> bool {
    if text == "pending"@ {
        v == StatusValue::Pending
    } else if text == "completed"@ {
        v == StatusValue::Completed
    } else if text == "deleted"@ {
        v == StatusValue::Deleted
    } else if text == "recurring"@ {
        v == StatusValue::Recurring
    } else {
        v matches StatusValue::Unknown(s) && s@ == text
    }
}

/// The status that callers see for a stored status.
pub open spec fn status_of_value(v: StatusValue) -> Status {
    match v {
        StatusValue::Pending => Status::Pending,
        StatusValue::Completed => Status::Completed,
        StatusValue::Deleted => Status::Deleted,
        StatusValue::Recurring => Status::Recurring,
        StatusValue::Unknown(_) => Status::Unknown,
    }
}

/// The stored status that writing a caller's status produces; `Unknown` cannot be written.
pub open spec fn value_of_status(s: Status) -> Result<StatusValue, Error> {
    match s {
        Status::Pending => Ok(StatusValue::Pending),
        Status::Completed => Ok(StatusValue::Completed),
        Status::Deleted => Ok(StatusValue::Deleted),
        Status::Recurring => Ok(StatusValue::Recurring),
        Status::Unknown => Err(Error::UnknownStatusNotSettable),
    }
}

impl From<StatusValue> for Status {
    fn from(v: StatusValue) -> (r: Status)
        ensures
            r == status_of_value(v),
    {
        match v {
            StatusValue::Pending => Status::Pending,
            StatusValue::Completed => Status::Completed,
            StatusValue::Deleted => Status::Deleted,
            StatusValue::Recurring => Status::Recurring,
            StatusValue::Unknown(_) => Status::Unknown,
        }
    }
}

impl FromSpecImpl<StatusValue> for Status {
    open spec fn obeys_from_spec() -> bool {
        true
    }

    open spec fn from_spec(v: StatusValue) -> Status {
        status_of_value(v)
    }
}

impl TryFrom<Status> for StatusValue {
    type Error = Error;

    fn try_from(s: Status) -> (r: Result<StatusValue, Error>)
        ensures
            r == value_of_status(s),
    {
        match s {
            Status::Pending => Ok(StatusValue::Pending),
            Status::Completed => Ok(StatusValue::Completed),
            Status::Deleted => Ok(StatusValue::Deleted),
            Status::Recurring => Ok(StatusValue::Recurring),
            Status::Unknown => Err(Error::UnknownStatusNotSettable),
        }
    }
}

impl TryFromSpecImpl<Status> for StatusValue {
    open spec fn obeys_try_from_spec() -> bool {
        true
    }

    open spec fn try_from_spec(s: Status) -> Result<StatusValue, Error> {
        value_of_status(s)
    }
}

/// Writing a status that can be written and reading it back gives the same status; only
/// `Unknown` is refused.
pub proof fn lemma_status_round_trip(s: Status)
    ensures
        s != Status::Unknown ==> (value_of_status(s) matches Ok(v) && status_of_value(v) == s),
        s == Status::Unknown ==> value_of_status(s) == Err::<StatusValue, Error>(
            Error::UnknownStatusNotSettable,
        ),
{
}

/// Reading a stored text and writing the status back stores the same text.
pub proof fn lemma_stored_text_round_trip(v: StatusValue, text: Seq<char>)
    requires
        status_value_read(v, text),
    ensures
        status_value_text(v) == text,
{
}

} // verus!
