//! Instants in time, and their RFC 3339 text.

use vstd::prelude::*;
use vstd::utf8::encode_utf8;

verus! {

/// The RFC 3339 text, in UTC with the suffix `Z` and with no more fractional
/// digits than the instant needs (none, three, six or nine), of the instant
/// `secs` seconds and `nanos` nanoseconds after the Unix epoch; `None` where
/// `chrono` has no such instant.
pub uninterp spec fn rfc3339_utc(secs: i64, nanos: u32) -> Option<Seq<char>>;

/// `chrono::DateTime::from_timestamp`, then `to_rfc3339_opts` with
/// `SecondsFormat::AutoSi` and `use_z` set: the text of the instant, or `None`
/// where `from_timestamp` gives none.
#[verifier::external_body]
pub(crate) fn format_rfc3339(secs: i64, nanos: u32) -> (text: Option<String>)
    ensures
        match text {
            Some(t) => rfc3339_utc(secs, nanos) == Some(t@),
            None => rfc3339_utc(secs, nanos) is None,
        },
{
    match chrono::DateTime::from_timestamp(secs, nanos) {
        Some(instant) => Some(instant.to_rfc3339_opts(chrono::SecondsFormat::AutoSi, true)),
        None => None,
    }
}

/// An instant that has an RFC 3339 text: seconds and nanoseconds since the
/// Unix epoch, in UTC.
#[derive(Clone, Copy, Debug)]
pub struct Timestamp {
    secs: i64,
    nanos: u32,
}

impl Timestamp {
    #[verifier::type_invariant]
    spec fn representable(self) -> bool {
        rfc3339_utc(self.secs, self.nanos) is Some
    }

    /// Whole seconds since the epoch.
    pub closed spec fn seconds(self) -> i64 {
        self.secs
    }

    /// Nanoseconds past the whole second.
    pub closed spec fn nanoseconds(self) -> u32 {
        self.nanos
    }

    /// The bytes of the instant's RFC 3339 text.
    pub open spec fn text(self) -> Seq<u8> {
        match rfc3339_utc(self.seconds(), self.nanoseconds()) {
            Some(chars) => encode_utf8(chars),
            None => Seq::empty(),
        }
    }

    /// The instant `secs` seconds and `nanos` nanoseconds after the epoch, where
    /// there is one.
    pub fn new(secs: i64, nanos: u32) -> (made: Option<Timestamp>)
        ensures
            match made {
                Some(t) => t.seconds() == secs && t.nanoseconds() == nanos && rfc3339_utc(
                    secs,
                    nanos,
                ) is Some,
                None => rfc3339_utc(secs, nanos) is None,
            },
    {
        match format_rfc3339(secs, nanos) {
            Some(_) => Some(Timestamp { secs, nanos }),
            None => None,
        }
    }

    pub fn secs(&self) -> (secs: i64)
        ensures
            secs == self.seconds(),
    {
        self.secs
    }

    pub fn nanos(&self) -> (nanos: u32)
        ensures
            nanos == self.nanoseconds(),
    {
        self.nanos
    }

    /// The instant's RFC 3339 text, as bytes.
    pub fn to_text(&self) -> (bytes: Vec<u8>)
        ensures
            bytes@ == self.text(),
            rfc3339_utc(self.seconds(), self.nanoseconds()) is Some,
    {
        proof {
            use_type_invariant(self);
        }
        match format_rfc3339(self.secs, self.nanos) {
            Some(text) => text.as_str().as_bytes_vec(),
            None => Vec::new(),
        }
    }
}

} // verus!
