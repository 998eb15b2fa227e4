//! The fields of a calibration descriptor.
//!
//! A descriptor is one document, a mapping from field names to values. Each reader here
//! looks one field up in the first document and checks its shape; nothing is defaulted.

use vstd::prelude::*;
use vstd::string::*;
use crate::error::{Flaw, Key, ReadError};
use crate::number::is_real_literal;
use crate::values::{literals, Real};
use crate::yaml::Node;

verus! {

/// The value of the field `key` in the document `doc`. The extrinsics are the `data` of
/// `T_BS`; every other field stands in the document itself.
pub open spec fn field_of(doc: Node, key: Key) -> Option<Node> {
    match key {
        Key::Resolution => doc.entry("resolution"@),
        Key::Intrinsics => doc.entry("intrinsics"@),
        Key::Distortion => doc.entry("distortion_coefficients"@),
        Key::Extrinsics => match doc.entry("T_BS"@) {
            Some(transform) => transform.entry("data"@),
            None => None,
        },
        Key::GyroNoiseDensity => doc.entry("gyroscope_noise_density"@),
        Key::GyroRandomWalk => doc.entry("gyroscope_random_walk"@),
        Key::AccelNoiseDensity => doc.entry("accelerometer_noise_density"@),
        Key::AccelRandomWalk => doc.entry("accelerometer_random_walk"@),
    }
}

/// The literal of a node that is a real number.
pub open spec fn real_of(node: Node) -> Option<Seq<char>> {
    match node {
        Node::Real(text) => if is_real_literal(text@) {
            Some(text@)
        } else {
            None
        },
        _ => None,
    }
}

/// Every one of `items` is a real number.
pub open spec fn all_real(items: Seq<Node>) -> bool {
    forall|i: int| 0 <= i < items.len() ==> real_of(#[trigger] items[i]) is Some
}

/// The literals of `items`.
pub open spec fn reals_in(items: Seq<Node>) -> Seq<Seq<char>> {
    items.map_values(|node: Node| real_of(node)->Some_0)
}

/// The real number in the field `key` of a descriptor.
pub open spec fn scalar_of(docs: Seq<Node>, key: Key) -> Result<Seq<char>, ReadError> {
    if docs.len() == 0 {
        Err(ReadError::Malformed(Flaw::Document))
    } else {
        match field_of(docs[0], key) {
            None => Err(ReadError::Malformed(Flaw::Absent(key))),
            Some(node) => match real_of(node) {
                Some(text) => Ok(text),
                None => Err(ReadError::Malformed(Flaw::Shape(key))),
            },
        }
    }
}

/// The `len` real numbers in the field `key` of a descriptor.
pub open spec fn vector_of(docs: Seq<Node>, key: Key, len: nat) -> Result<
    Seq<Seq<char>>,
    ReadError,
> {
    if docs.len() == 0 {
        Err(ReadError::Malformed(Flaw::Document))
    } else {
        match field_of(docs[0], key) {
            None => Err(ReadError::Malformed(Flaw::Absent(key))),
            Some(Node::Sequence(items)) => if !all_real(items@) {
                Err(ReadError::Malformed(Flaw::Shape(key)))
            } else if items@.len() != len {
                Err(ReadError::Malformed(Flaw::Length(key)))
            } else {
                Ok(reals_in(items@))
            },
            Some(_) => Err(ReadError::Malformed(Flaw::Shape(key))),
        }
    }
}

/// The number of pixels that a node of the resolution gives.
pub open spec fn pixels_of(node: Node) -> Result<u32, ReadError> {
    match node {
        Node::Integer(n) => if 0 <= n <= u32::MAX {
            Ok(n as u32)
        } else {
            Err(ReadError::OutOfRange(Key::Resolution))
        },
        _ => Err(ReadError::Malformed(Flaw::Shape(Key::Resolution))),
    }
}

/// The failure of the first of `items` that gives no number of pixels.
pub open spec fn first_pixel_fault(items: Seq<Node>) -> Option<ReadError>
    decreases items.len(),
{
    if items.len() == 0 {
        None
    } else {
        match pixels_of(items[0]) {
            Err(e) => Some(e),
            Ok(_) => first_pixel_fault(items.drop_first()),
        }
    }
}

/// The resolution in a descriptor: width, then height.
pub open spec fn resolution_of(docs: Seq<Node>) -> Result<(u32, u32), ReadError> {
    if docs.len() == 0 {
        Err(ReadError::Malformed(Flaw::Document))
    } else {
        match field_of(docs[0], Key::Resolution) {
            None => Err(ReadError::Malformed(Flaw::Absent(Key::Resolution))),
            Some(Node::Sequence(items)) => match first_pixel_fault(items@) {
                Some(e) => Err(e),
                None => if items@.len() != 2 {
                    Err(ReadError::Malformed(Flaw::Length(Key::Resolution)))
                } else {
                    Ok((pixels_of(items@[0])->Ok_0, pixels_of(items@[1])->Ok_0))
                },
            },
            Some(_) => Err(ReadError::Malformed(Flaw::Shape(Key::Resolution))),
        }
    }
}

/// Looks up the value of the field `key` in the document `doc`.
pub fn field(doc: &Node, key: Key) -> (r: Option<&Node>)
    ensures
        match r {
            Some(node) => field_of(*doc, key) == Some(*node),
            None => field_of(*doc, key) is None,
        },
{
    match key {
        Key::Resolution => doc.get("resolution"),
        Key::Intrinsics => doc.get("intrinsics"),
        Key::Distortion => doc.get("distortion_coefficients"),
        Key::Extrinsics => match doc.get("T_BS") {
            Some(transform) => transform.get("data"),
            None => None,
        },
        Key::GyroNoiseDensity => doc.get("gyroscope_noise_density"),
        Key::GyroRandomWalk => doc.get("gyroscope_random_walk"),
        Key::AccelNoiseDensity => doc.get("accelerometer_noise_density"),
        Key::AccelRandomWalk => doc.get("accelerometer_random_walk"),
    }
}

/// Reads a node as a real number.
pub fn number(node: &Node) -> (r: Option<Real>)
    ensures
        match r {
            Some(value) => real_of(*node) == Some(value@),
            None => real_of(*node) is None,
        },
{
    match node {
        Node::Real(text) => Real::from_descriptor(text.as_str()),
        _ => None,
    }
}

/// Reads the real number in the field `key` of a descriptor.
pub fn scalar(docs: &Vec<Node>, key: Key) -> (r: Result<Real, ReadError>)
    ensures
        match r {
            Ok(value) => scalar_of(docs@, key) == Ok::<Seq<char>, ReadError>(value@),
            Err(e) => scalar_of(docs@, key) == Err::<Seq<char>, ReadError>(e),
        },
{
    if docs.len() == 0 {
        return Err(ReadError::Malformed(Flaw::Document));
    }
    match field(&docs[0], key) {
        None => Err(ReadError::Malformed(Flaw::Absent(key))),
        Some(node) => match number(node) {
            Some(value) => Ok(value),
            None => Err(ReadError::Malformed(Flaw::Shape(key))),
        },
    }
}

/// Reads the `len` real numbers in the field `key` of a descriptor.
pub fn vector(docs: &Vec<Node>, key: Key, len: usize) -> (r: Result<Vec<Real>, ReadError>)
    ensures
        match r {
            Ok(values) => vector_of(docs@, key, len as nat) == Ok::<Seq<Seq<char>>, ReadError>(
                literals(values@),
            ),
            Err(e) => vector_of(docs@, key, len as nat) == Err::<Seq<Seq<char>>, ReadError>(e),
        },
        r matches Ok(values) ==> values@.len() == len,
{
    if docs.len() == 0 {
        return Err(ReadError::Malformed(Flaw::Document));
    }
    let items = match field(&docs[0], key) {
        None => {
            return Err(ReadError::Malformed(Flaw::Absent(key)));
        },
        Some(Node::Sequence(items)) => items,
        Some(_) => {
            return Err(ReadError::Malformed(Flaw::Shape(key)));
        },
    };
    let mut values: Vec<Real> = Vec::new();
    let mut i: usize = 0;
    while i < items.len()
        invariant
            0 <= i <= items@.len(),
            forall|k: int| 0 <= k < i ==> real_of(#[trigger] items@[k]) is Some,
            literals(values@) =~= reals_in(items@.subrange(0, i as int)),
            docs@.len() > 0,
            field_of(docs@[0], key) == Some(Node::Sequence(*items)),
        decreases items@.len() - i,
    {
        match number(&items[i]) {
            Some(value) => {
                let ghost before = values@;
                values.push(value);
                assert(literals(values@) =~= literals(before).push(value@));
                assert(items@.subrange(0, i + 1) =~= items@.subrange(0, i as int).push(
                    items@[i as int],
                ));
            },
            None => {
                return Err(ReadError::Malformed(Flaw::Shape(key)));
            },
        }
        i = i + 1;
    }
    assert(items@.subrange(0, i as int) =~= items@);
    if values.len() != len {
        return Err(ReadError::Malformed(Flaw::Length(key)));
    }
    Ok(values)
}

/// Reads the resolution in a descriptor: width, then height.
pub fn resolution(docs: &Vec<Node>) -> (r: Result<(u32, u32), ReadError>)
    ensures
        r == resolution_of(docs@),
{
    if docs.len() == 0 {
        return Err(ReadError::Malformed(Flaw::Document));
    }
    let items = match field(&docs[0], Key::Resolution) {
        None => {
            return Err(ReadError::Malformed(Flaw::Absent(Key::Resolution)));
        },
        Some(Node::Sequence(items)) => items,
        Some(_) => {
            return Err(ReadError::Malformed(Flaw::Shape(Key::Resolution)));
        },
    };
    let mut pixels: Vec<u32> = Vec::new();
    let mut i: usize = 0;
    assert(items@.skip(0) =~= items@);
    while i < items.len()
        invariant
            0 <= i <= items@.len(),
            pixels@.len() == i,
            forall|k: int| 0 <= k < i ==> pixels_of(#[trigger] items@[k]) == Ok::<u32, ReadError>(pixels@[k]),
            first_pixel_fault(items@) == first_pixel_fault(items@.skip(i as int)),
            docs@.len() > 0,
            field_of(docs@[0], Key::Resolution) == Some(Node::Sequence(*items)),
        decreases items@.len() - i,
    {
        let ghost rest = items@.skip(i as int);
        assert(rest[0] == items@[i as int]);
        assert(rest.drop_first() =~= items@.skip(i + 1));
        match &items[i] {
            Node::Integer(n) => {
                if *n < 0 || *n > 0xffff_ffff {
                    return Err(ReadError::OutOfRange(Key::Resolution));
                }
                pixels.push(*n as u32);
            },
            _ => {
                return Err(ReadError::Malformed(Flaw::Shape(Key::Resolution)));
            },
        }
        i = i + 1;
    }
    if pixels.len() != 2 {
        return Err(ReadError::Malformed(Flaw::Length(Key::Resolution)));
    }
    Ok((pixels[0], pixels[1]))
}

/// A field that a descriptor lacks fails every reading of that field, and with the failure
/// that names it.
pub proof fn law_absent_field_fails(docs: Seq<Node>, key: Key, len: nat)
    requires
        docs.len() > 0,
        field_of(docs[0], key) is None,
    ensures
        scalar_of(docs, key) == Err::<Seq<char>, ReadError>(
            ReadError::Malformed(Flaw::Absent(key)),
        ),
        vector_of(docs, key, len) == Err::<Seq<Seq<char>>, ReadError>(
            ReadError::Malformed(Flaw::Absent(key)),
        ),
        key == Key::Resolution ==> resolution_of(docs) == Err::<(u32, u32), ReadError>(
            ReadError::Malformed(Flaw::Absent(key)),
        ),
{
}

/// What is read from a field depends on that field alone: two descriptors that hold the
/// same under `key` read the same there, whatever else they hold or lack.
pub proof fn law_fields_are_read_alone(a: Seq<Node>, b: Seq<Node>, key: Key, len: nat)
    requires
        a.len() > 0,
        b.len() > 0,
        field_of(a[0], key) == field_of(b[0], key),
    ensures
        scalar_of(a, key) == scalar_of(b, key),
        vector_of(a, key, len) == vector_of(b, key, len),
        key == Key::Resolution ==> resolution_of(a) == resolution_of(b),
{
}

} // verus!
