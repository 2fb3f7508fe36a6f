//! Annotations: timestamped notes attached to a task.
use vstd::prelude::*;
use crate::text::{debug_string, debug_text};
use crate::timestamp::{rfc3339_text, Timestamp};

verus! {

/// An annotation for a task: when it was made, and its text.
#[derive(PartialEq, Eq, Hash, Debug)]
pub struct Annotation {
    pub(crate) entry: Timestamp,
    pub(crate) description: String,
}

/// An annotation, as values.
pub struct AnnotationView {
    pub seconds: i64,
    pub nanos: u32,
    pub description: Seq<char>,
}

impl View for Annotation {
    type V = AnnotationView;

    closed spec fn view(&self) -> AnnotationView {
        AnnotationView {
            seconds: self.entry.secs(),
            nanos: self.entry.subsec_nanos(),
            description: self.description@,
        }
    }
}

/// The text of an annotation, as its `__repr__` writes it.
pub open spec fn annotation_text(a: AnnotationView) -> Seq<char> {
    "Annotation(entry="@ + debug_text(rfc3339_text(a.seconds, a.nanos)) + ", description="@
        + debug_text(a.description) + ")"@
}

impl Annotation {
    /// An annotation made at `entry` with the given text.
    pub fn new(entry: Timestamp, description: String) -> (r: Annotation)
        ensures
            r@ == (AnnotationView {
                seconds: entry.secs(),
                nanos: entry.subsec_nanos(),
                description: description@,
            }),
    {
        Annotation { entry, description }
    }

    /// The text of the annotation.
    pub fn __repr__(&self) -> (r: String)
        ensures
            r@ == annotation_text(self@),
    {
        let mut r = String::from_str("Annotation(entry=");
        let e = debug_string(self.entry.to_rfc3339().as_str());
        r.append(e.as_str());
        r.append(", description=");
        let d = debug_string(self.description.as_str());
        r.append(d.as_str());
        r.append(")");
        r
    }

    /// When the annotation was made.
    pub fn entry(&self) -> (r: Timestamp)
        ensures
            r.secs() == self@.seconds,
            r.subsec_nanos() == self@.nanos,
    {
        self.entry
    }

    /// The annotation's text.
    pub fn description(&self) -> (r: String)
        ensures
            r@ == self@.description,
    {
        self.description.clone()
    }
}

impl Clone for Annotation {
    fn clone(&self) -> (r: Annotation)
        ensures
            r@ == self@,
    {
        Annotation { entry: self.entry, description: self.description.clone() }
    }
}

} // verus!
