//! Instants in time, as the API writes them.
use vstd::prelude::*;

verus! {

/// The RFC 3339 text (`Z` for UTC, fractional seconds only where there
/// are any) that chrono writes for the instant `seconds` and `nanos` after
/// the Unix epoch, or `None` where chrono has no such instant.
pub uninterp spec fn rfc3339_of(seconds: int, nanos: nat) -> Option<Seq<char>>;

/// Relies on chrono's DateTime::<Utc>::from_timestamp, for the instant,
/// and DateTime::to_rfc3339_opts with `SecondsFormat::AutoSi` and `Z`, for
/// its text: the form in which chrono's serde support writes it.
#[verifier::external_body]
fn rfc3339_text(seconds: i64, nanos: u32) -> (r: Option<String>)
    ensures
        r is Some <==> rfc3339_of(seconds as int, nanos as nat) is Some,
        r matches Some(t) ==> t@ == rfc3339_of(seconds as int, nanos as nat)->0,
{
    chrono::DateTime::from_timestamp(seconds, nanos).map(
        |d| d.to_rfc3339_opts(chrono::SecondsFormat::AutoSi, true),
    )
}

/// An instant: seconds and nanoseconds after the Unix epoch, with the
/// RFC 3339 text it is sent as.
#[derive(Debug)]
pub struct Timestamp {
    seconds: i64,
    nanos: u32,
    text: String,
}

impl Timestamp {
    #[verifier::type_invariant]
    spec fn text_matches(self) -> bool {
        rfc3339_of(self.seconds as int, self.nanos as nat) == Some(self.text@)
    }

    pub closed spec fn seconds(&self) -> int {
        self.seconds as int
    }

    pub closed spec fn nanos(&self) -> nat {
        self.nanos as nat
    }

    pub closed spec fn rfc3339(&self) -> Seq<char> {
        self.text@
    }

    /// The instant `seconds` and `nanos` after the Unix epoch; `None`
    /// where chrono has no such instant.
    pub fn new(seconds: i64, nanos: u32) -> (r: Option<Timestamp>)
        ensures
            r is Some <==> rfc3339_of(seconds as int, nanos as nat) is Some,
            r matches Some(t) ==> {
                &&& t.seconds() == seconds as int
                &&& t.nanos() == nanos as nat
                &&& t.rfc3339() == rfc3339_of(seconds as int, nanos as nat)->0
            },
    {
        match rfc3339_text(seconds, nanos) {
            Some(text) => Some(Timestamp { seconds, nanos, text }),
            None => None,
        }
    }

    /// The text of the instant.
    pub fn rfc3339_text(&self) -> (r: &str)
        ensures
            r@ == self.rfc3339(),
            rfc3339_of(self.seconds(), self.nanos()) == Some(r@),
    {
        proof {
            use_type_invariant(self);
        }
        self.text.as_str()
    }

    pub fn seconds_since_epoch(&self) -> (r: i64)
        ensures
            r as int == self.seconds(),
    {
        self.seconds
    }

    pub fn subsec_nanos(&self) -> (r: u32)
        ensures
            r as nat == self.nanos(),
    {
        self.nanos
    }
}

impl Clone for Timestamp {
    fn clone(&self) -> (r: Timestamp)
        ensures
            r.seconds() == self.seconds(),
            r.nanos() == self.nanos(),
            r.rfc3339() == self.rfc3339(),
    {
        proof {
            use_type_invariant(self);
        }
        Timestamp { seconds: self.seconds, nanos: self.nanos, text: self.text.clone() }
    }
}

} // verus!
