//! What every sensor shares: timestamps, and loading a descriptor.

use std::cmp::Ordering;
use vstd::prelude::*;
use vstd::std_specs::cmp::{PartialOrdSpec, PartialOrdSpecImpl};
use vstd::std_specs::convert::FromSpecImpl;
use vstd::string::*;
use vstd::utf8::*;
use crate::error::{Flaw, ReadError, Source};
use crate::files::Snapshot;
use crate::yaml::{loaded, parse_documents, Node};

verus! {

/// A point in time, in nanoseconds since an epoch that the dataset does not name.
/// Timestamps are ordered as their nanoseconds are.
#[derive(Debug, Clone, Copy, PartialEq, Eq, Ord, Structural)]
pub struct Timestamp(u64);

impl View for Timestamp {
    type V = u64;

    closed spec fn view(&self) -> u64 {
        self.0
    }
}

impl Timestamp {
    /// The timestamp of `ns` nanoseconds.
    pub closed spec fn of(ns: u64) -> Timestamp {
        Timestamp(ns)
    }

    /// The timestamp of `ns` nanoseconds.
    pub fn from_nsecs(ns: u64) -> (t: Timestamp)
        ensures
            t == Timestamp::of(ns),
            t@ == ns,
    {
        Timestamp(ns)
    }

    /// The timestamp in nanoseconds.
    pub fn nsecs(self) -> (ns: u64)
        ensures
            ns == self@,
    {
        self.0
    }
}

impl From<u64> for Timestamp {
    fn from(v: u64) -> (t: Self)
        ensures
            t@ == v,
    {
        Self(v)
    }
}

impl PartialOrd for Timestamp {
    fn partial_cmp(&self, other: &Self) -> (r: Option<Ordering>) {
        if self.0 < other.0 {
            Some(Ordering::Less)
        } else if self.0 == other.0 {
            Some(Ordering::Equal)
        } else {
            Some(Ordering::Greater)
        }
    }
}

impl PartialOrdSpecImpl for Timestamp {
    open spec fn obeys_partial_cmp_spec() -> bool {
        true
    }

    open spec fn partial_cmp_spec(&self, other: &Self) -> Option<Ordering> {
        if self.view() < other.view() {
            Some(Ordering::Less)
        } else if self.view() == other.view() {
            Some(Ordering::Equal)
        } else {
            Some(Ordering::Greater)
        }
    }
}

/// A timestamp is its nanoseconds and nothing more: two timestamps are the same where
/// their nanoseconds are, and the timestamp of a number holds that number.
pub proof fn law_timestamp_is_its_nanoseconds(a: Timestamp, b: Timestamp, ns: u64)
    ensures
        a == b <==> a@ == b@,
        Timestamp::of(ns)@ == ns,
        a == Timestamp::of(a@),
{
}

/// Timestamps stand in the order of their nanoseconds, which is total: of two timestamps
/// one is less than the other, or they are the same.
pub proof fn law_timestamps_are_ordered(a: u64, b: u64)
    ensures
        PartialOrdSpec::partial_cmp_spec(&Timestamp::of(a), &Timestamp::of(b)) == Some(Ordering::Less) <==> a < b,
        PartialOrdSpec::partial_cmp_spec(&Timestamp::of(a), &Timestamp::of(b)) == Some(Ordering::Equal) <==> a == b,
        PartialOrdSpec::partial_cmp_spec(&Timestamp::of(a), &Timestamp::of(b)) == Some(Ordering::Greater) <==> a > b,
        Timestamp::of(a) == Timestamp::of(b) <==> a == b,
{
}

impl FromSpecImpl<u64> for Timestamp {
    open spec fn obeys_from_spec() -> bool {
        true
    }

    open spec fn from_spec(v: u64) -> Self {
        Timestamp::of(v)
    }
}

/// `std::str::Utf8Error`, the error of `std::str::from_utf8`. Nothing is read from it.
#[verifier::external_type_specification]
#[verifier::external_body]
pub struct ExUtf8Error(std::str::Utf8Error);

/// Calls `std::str::from_utf8`: the bytes as a string where they are UTF-8, an error where
/// they are not.
#[verifier::external_body]
fn text_of(bytes: &[u8]) -> (r: Result<&str, std::str::Utf8Error>)
    ensures
        r is Ok <==> valid_utf8(bytes@),
        r is Ok ==> r->Ok_0.spec_bytes() == bytes@,
{
    std::str::from_utf8(bytes)
}

/// The documents of the descriptor that stands under `path`. The file has to be there and
/// to hold UTF-8 text, and the text has to be well-formed and to hold a document.
pub open spec fn descriptor_of(files: Snapshot, path: Seq<char>) -> Result<Seq<Node>, ReadError> {
    match files.content(path) {
        None => Err(ReadError::Io(Source::Descriptor)),
        Some(bytes) => if !valid_utf8(bytes) {
            Err(ReadError::Io(Source::Descriptor))
        } else {
            match loaded(decode_utf8(bytes)) {
                None => Err(ReadError::Malformed(Flaw::Document)),
                Some(docs) => if docs.len() == 0 {
                    Err(ReadError::Malformed(Flaw::Document))
                } else {
                    Ok(docs)
                },
            }
        },
    }
}

/// Reads the descriptor that stands under `path` and returns its documents, of which there
/// is at least one.
pub fn load_yaml(files: &Snapshot, path: &str) -> (r: Result<Vec<Node>, ReadError>)
    ensures
        match r {
            Ok(docs) => descriptor_of(*files, path@) == Ok::<Seq<Node>, ReadError>(docs@),
            Err(e) => descriptor_of(*files, path@) == Err::<Seq<Node>, ReadError>(e),
        },
        r matches Ok(docs) ==> docs@.len() > 0,
{
    let bytes = match files.read(path) {
        Some(bytes) => bytes,
        None => {
            return Err(ReadError::Io(Source::Descriptor));
        },
    };
    let text = match text_of(bytes) {
        Ok(text) => text,
        Err(_) => {
            return Err(ReadError::Io(Source::Descriptor));
        },
    };
    proof {
        encode_utf8_decode_utf8(text@);
    }
    match parse_documents(text) {
        Ok(docs) => if docs.len() == 0 {
            Err(ReadError::Malformed(Flaw::Document))
        } else {
            Ok(docs)
        },
        Err(e) => Err(e),
    }
}

} // verus!
