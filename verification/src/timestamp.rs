//! Points in time, as seconds and nanoseconds since the Unix epoch (UTC).
use vstd::prelude::*;

verus! {

/// Whether `chrono::DateTime::<Utc>::from_timestamp` accepts these seconds and nanoseconds,
/// that is, whether they name a date and time that chrono can represent.
pub uninterp spec fn chrono_accepts(seconds: i64, nanos: u32) -> bool;

/// The RFC 3339 text that chrono's `DateTime::<Utc>::to_rfc3339` writes for this point in time.
pub uninterp spec fn rfc3339_text(seconds: i64, nanos: u32) -> Seq<char>;

/// Asks `chrono::DateTime::<Utc>::from_timestamp` whether the point in time exists.
/// Trusted: the result is the value that `chrono_accepts` names.
#[verifier::external_body]
fn chrono_representable(seconds: i64, nanos: u32) -> (r: bool)
    ensures
        r == chrono_accepts(seconds, nanos),
{
    chrono::DateTime::<chrono::Utc>::from_timestamp(seconds, nanos).is_some()
}

/// A point in time that chrono can represent.
#[derive(Clone, Copy, Debug, PartialEq, Eq, Hash)]
pub struct Timestamp {
    pub(crate) seconds: i64,
    pub(crate) nanos: u32,
}

impl Timestamp {
    #[verifier::type_invariant]
    pub(crate) open spec fn representable(self) -> bool {
        chrono_accepts(self.secs(), self.subsec_nanos())
    }

    /// Seconds since the epoch.
    pub closed spec fn secs(self) -> i64 {
        self.seconds
    }

    /// Nanoseconds past `secs`.
    pub closed spec fn subsec_nanos(self) -> u32 {
        self.nanos
    }

    /// Makes the point in time, or `None` where chrono cannot represent it.
    pub fn new(seconds: i64, nanos: u32) -> (r: Option<Timestamp>)
        ensures
            r is Some <==> chrono_accepts(seconds, nanos),
            r matches Some(t) ==> t.secs() == seconds && t.subsec_nanos() == nanos,
    {
        if chrono_representable(seconds, nanos) {
            Some(Timestamp { seconds, nanos })
        } else {
            None
        }
    }

    /// Seconds since the epoch.
    pub fn seconds(&self) -> (r: i64)
        ensures
            r == self.secs(),
    {
        self.seconds
    }

    /// Nanoseconds past `seconds()`.
    pub fn nanos(&self) -> (r: u32)
        ensures
            r == self.subsec_nanos(),
    {
        self.nanos
    }

    /// The RFC 3339 text of this point in time.
    pub fn to_rfc3339(&self) -> (r: String)
        ensures
            r@ == rfc3339_text(self.secs(), self.subsec_nanos()),
    {
        proof {
            use_type_invariant(self);
        }
        format_rfc3339(self.seconds, self.nanos)
    }
}

/// Formats a point in time with chrono's `DateTime::<Utc>::to_rfc3339`.
/// Trusted: the text is the one that `rfc3339_text` names; `from_timestamp` does not fail on
/// the points in time that `chrono_accepts`.
#[verifier::external_body]
fn format_rfc3339(seconds: i64, nanos: u32) -> (r: String)
    requires
        chrono_accepts(seconds, nanos),
    ensures
        r@ == rfc3339_text(seconds, nanos),
{
    chrono::DateTime::<chrono::Utc>::from_timestamp(seconds, nanos).unwrap().to_rfc3339()
}

} // verus!
