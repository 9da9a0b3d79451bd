use vstd::prelude::*;

verus! {

/// Whether chrono can hold the UTC instant `secs` seconds and `nanos`
/// nanoseconds after the Unix epoch.
pub uninterp spec fn utc_representable(secs: int, nanos: int) -> bool;

/// The RFC 3339 text that chrono renders for that UTC instant.
pub uninterp spec fn rfc3339_utc(secs: int, nanos: int) -> Seq<char>;

/// Relies on chrono::DateTime::<Utc>::from_timestamp: whether it gives an
/// instant for these values.
#[verifier::external_body]
fn chrono_accepts(secs: i64, nanos: u32) -> (r: bool)
    ensures
        r == utc_representable(secs as int, nanos as int),
{
    chrono::DateTime::<chrono::Utc>::from_timestamp(secs, nanos).is_some()
}

/// Relies on chrono::DateTime::to_rfc3339, applied to the instant that
/// chrono::DateTime::<Utc>::from_timestamp builds from these values.
#[verifier::external_body]
fn chrono_rfc3339(secs: i64, nanos: u32) -> (r: String)
    requires
        utc_representable(secs as int, nanos as int),
    ensures
        r@ == rfc3339_utc(secs as int, nanos as int),
{
    match chrono::DateTime::<chrono::Utc>::from_timestamp(secs, nanos) {
        Some(d) => d.to_rfc3339(),
        None => String::new(),
    }
}

/// A UTC instant, as seconds and nanoseconds since the Unix epoch.
#[derive(Clone, Copy, Debug)]
pub struct Timestamp {
    secs: i64,
    nanos: u32,
}

impl View for Timestamp {
    type V = (int, int);

    closed spec fn view(&self) -> (int, int) {
        (self.secs as int, self.nanos as int)
    }
}

impl Timestamp {
    #[verifier::type_invariant]
    closed spec fn representable(self) -> bool {
        utc_representable(self.secs as int, self.nanos as int)
    }

    /// The instant `secs` seconds and `nanos` nanoseconds after the epoch, if
    /// chrono can hold it.
    pub fn from_unix(secs: i64, nanos: u32) -> (r: Option<Timestamp>)
        ensures
            r is Some <==> utc_representable(secs as int, nanos as int),
            r matches Some(t) ==> t@ == (secs as int, nanos as int),
    {
        if chrono_accepts(secs, nanos) {
            Some(Timestamp { secs, nanos })
        } else {
            None
        }
    }

    pub fn secs(&self) -> (r: i64)
        ensures
            r as int == self@.0,
    {
        self.secs
    }

    pub fn nanos(&self) -> (r: u32)
        ensures
            r as int == self@.1,
    {
        self.nanos
    }

    /// The instant as RFC 3339 text.
    pub fn to_rfc3339(&self) -> (r: String)
        ensures
            r@ == rfc3339_utc(self@.0, self@.1),
    {
        proof {
            use_type_invariant(self);
        }
        chrono_rfc3339(self.secs, self.nanos)
    }
}

} // verus!
