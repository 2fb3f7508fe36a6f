//! The errors of the library, one for each kind of failure that a caller sees.
use vstd::prelude::*;
use crate::text::{debug_string, debug_text};

verus! {

/// An attribute that only some variants of an operation carry.
#[derive(PartialEq, Eq, Structural, Clone, Copy, Debug)]
pub enum OperationAttribute {
    Uuid,
    OldTask,
    Property,
    Timestamp,
    OldValue,
    Value,
}

/// The errors that the library reports.
#[derive(PartialEq, Eq, Clone, Debug)]
pub enum Error {
    /// A text that should hold a UUID does not.
    InvalidUuid,
    /// An operation was asked for an attribute that its variant does not carry.
    MissingAttribute(OperationAttribute),
    /// An index into a sequence of operations lies outside it.
    IndexOutOfRange,
    /// A sequence of operations was indexed by something that is neither an integer nor a slice.
    InvalidIndexType,
    /// `Status::Unknown` was given where a status is written.
    UnknownStatusNotSettable,
    /// A text is not a valid tag; the text is kept.
    InvalidTag(String),
    /// The task database refused a request; the text is its message.
    Runtime(String),
}

/// The name under which an attribute is known.
pub open spec fn attribute_name(a: OperationAttribute) -> Seq<char> {
    match a {
        OperationAttribute::Uuid => "uuid"@,
        OperationAttribute::OldTask => "old_task"@,
        OperationAttribute::Property => "property"@,
        OperationAttribute::Timestamp => "timestamp"@,
        OperationAttribute::OldValue => "old_value"@,
        OperationAttribute::Value => "value"@,
    }
}

impl OperationAttribute {
    /// The name under which this attribute is known.
    pub fn name(&self) -> (r: &'static str)
        ensures
            r@ == attribute_name(*self),
    {
        match self {
            OperationAttribute::Uuid => "uuid",
            OperationAttribute::OldTask => "old_task",
            OperationAttribute::Property => "property",
            OperationAttribute::Timestamp => "timestamp",
            OperationAttribute::OldValue => "old_value",
            OperationAttribute::Value => "value",
        }
    }
}

/// The message that goes with an error.
pub open spec fn error_message(e: Error) -> Seq<char> {
    match e {
        Error::InvalidUuid => "Invalid UUID"@,
        Error::MissingAttribute(a) => "Variant does not have attribute '"@ + attribute_name(a) + "'"@,
        Error::IndexOutOfRange => "operation index out of range"@,
        Error::InvalidIndexType => "Operations indices must be integers or slices"@,
        Error::UnknownStatusNotSettable => "Status.Unknown cannot be set: the original status string is not preserved on read. Use Task.set_value(\"status\", \"<value>\", ops) to set a custom status."@,
        Error::InvalidTag(t) => "invalid tag "@ + debug_text(t@),
        Error::Runtime(m) => m@,
    }
}

impl Error {
    /// The message that goes with this error.
    pub fn message(&self) -> (r: String)
        ensures
            r@ == error_message(*self),
    {
        match self {
            Error::InvalidUuid => String::from_str("Invalid UUID"),
            Error::MissingAttribute(a) => {
                let mut m = String::from_str("Variant does not have attribute '");
                m.append(a.name());
                m.append("'");
                m
            },
            Error::IndexOutOfRange => String::from_str("operation index out of range"),
            Error::InvalidIndexType => String::from_str("Operations indices must be integers or slices"),
            Error::UnknownStatusNotSettable => String::from_str(
                "Status.Unknown cannot be set: the original status string is not preserved on read. Use Task.set_value(\"status\", \"<value>\", ops) to set a custom status.",
            ),
            Error::InvalidTag(t) => {
                let mut m = String::from_str("invalid tag ");
                let q = debug_string(t.as_str());
                m.append(q.as_str());
                m
            },
            Error::Runtime(m) => m.clone(),
        }
    }
}

} // verus!
