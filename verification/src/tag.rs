//! Tags: descriptors that a task has or has not.
use vstd::prelude::*;
use crate::error::Error;

verus! {

/// What taskchampion's `Tag::try_from` makes of a text: `Some(true)` for one of its synthetic
/// tags, `Some(false)` for a valid user tag, `None` for a text that is not a tag.
pub uninterp spec fn parsed_tag(s: Seq<char>) -> Option<bool>;

/// The names of the synthetic tags, whose presence is computed from a task's other data.
pub open spec fn is_synthetic_name(s: Seq<char>) -> bool {
    s == "WAITING"@ || s == "ACTIVE"@ || s == "PENDING"@ || s == "COMPLETED"@ || s == "DELETED"@
        || s == "BLOCKED"@ || s == "UNBLOCKED"@ || s == "BLOCKING"@
}

/// Parses a tag with taskchampion's `Tag::try_from`. Trusted: the result is what
/// `parsed_tag` names (`Some` of `is_synthetic()` on success); as its source shows, a
/// synthetic tag is one of the eight names of `SyntheticTag` written in upper case.
#[verifier::external_body]
fn tc_parse_tag(s: &str) -> (r: Option<bool>)
    ensures
        r == parsed_tag(s@),
        r == Some(true) ==> is_synthetic_name(s@),
{
    match taskchampion::Tag::try_from(s) {
        Ok(t) => Some(t.is_synthetic()),
        Err(_) => None,
    }
}

/// A tag: a valid user tag or a synthetic tag, held by its text.
#[derive(PartialEq, Eq, Hash, Debug)]
pub struct Tag {
    pub(crate) name: String,
}

impl View for Tag {
    type V = Seq<char>;

    closed spec fn view(&self) -> Seq<char> {
        self.name@
    }
}

impl Tag {
    #[verifier::type_invariant]
    pub(crate) open spec fn valid(self) -> bool {
        parsed_tag(self@) is Some
    }

    /// The tag with the given text, or `Error::InvalidTag` where the text is not a tag.
    pub fn new(tag: String) -> (r: Result<Tag, Error>)
        ensures
            match parsed_tag(tag@) {
                Some(_) => r matches Ok(t) && t@ == tag@,
                None => r matches Err(e) && e == Error::InvalidTag(tag),
            },
    {
        match tc_parse_tag(tag.as_str()) {
            Some(_) => Ok(Tag { name: tag }),
            None => Err(Error::InvalidTag(tag)),
        }
    }

    /// Whether this is a synthetic tag.
    pub fn is_synthetic(&self) -> (r: bool)
        ensures
            r == (parsed_tag(self@) == Some(true)),
            r ==> is_synthetic_name(self@),
    {
        proof {
            use_type_invariant(self);
        }
        tc_parse_tag(self.name.as_str()) == Some(true)
    }

    /// Whether this is a user tag.
    pub fn is_user(&self) -> (r: bool)
        ensures
            r == (parsed_tag(self@) == Some(false)),
    {
        proof {
            use_type_invariant(self);
        }
        tc_parse_tag(self.name.as_str()) == Some(false)
    }

    /// The tag's text.
    pub fn __str__(&self) -> (r: String)
        ensures
            r@ == self@,
    {
        self.name.clone()
    }
}

impl Clone for Tag {
    fn clone(&self) -> (r: Tag)
        ensures
            r@ == self@,
    {
        proof {
            use_type_invariant(self);
        }
        Tag { name: self.name.clone() }
    }
}

} // verus!
