//! The ways in which reading a dataset fails.

use vstd::prelude::*;

verus! {

/// A directory or file that the layout of a dataset requires.
#[derive(Clone, Copy, Debug, PartialEq, Eq, Structural)]
pub enum Item {
    /// The root directory of the dataset.
    Root,
    /// The folder of one sensor.
    Folder,
    /// The `data` directory of a camera, which holds its images.
    Images,
    /// The data log, `data.csv`.
    Log,
    /// The calibration descriptor, `sensor.yaml`.
    Descriptor,
}

/// Something that was to be read and could not be.
#[derive(Clone, Copy, Debug, PartialEq, Eq, Structural)]
pub enum Source {
    /// The calibration descriptor.
    Descriptor,
    /// The data log as a whole.
    Log,
    /// The data row with this number, counted from zero behind the header.
    Row(u64),
    /// The image that the data row with this number names.
    Image(u64),
}

/// A field of a calibration descriptor.
#[derive(Clone, Copy, Debug, PartialEq, Eq, Structural)]
pub enum Key {
    /// `resolution`
    Resolution,
    /// `intrinsics`
    Intrinsics,
    /// `distortion_coefficients`
    Distortion,
    /// `T_BS`, and `data` inside it
    Extrinsics,
    /// `gyroscope_noise_density`
    GyroNoiseDensity,
    /// `gyroscope_random_walk`
    GyroRandomWalk,
    /// `accelerometer_noise_density`
    AccelNoiseDensity,
    /// `accelerometer_random_walk`
    AccelRandomWalk,
}

/// What is wrong with the content of a file.
#[derive(Clone, Copy, Debug, PartialEq, Eq, Structural)]
pub enum Flaw {
    /// The descriptor is no well-formed text, holds more marks of nesting or of aliases than
    /// the library hands to its loader, or holds no document.
    Document,
    /// The descriptor lacks this field.
    Absent(Key),
    /// This field of the descriptor is of another kind than a number, or than a sequence of
    /// numbers, as the field requires.
    Shape(Key),
    /// This field of the descriptor is a sequence of another length than the field requires.
    Length(Key),
    /// A column of a data row is missing or holds no number of the kind that it requires.
    Column { row: u64, column: usize },
    /// The image that a data row names cannot be decoded.
    Image(u64),
}

/// Why an operation on a dataset failed.
#[derive(Clone, Copy, Debug, PartialEq, Eq, Structural)]
pub enum ReadError {
    /// The layout lacks a directory or file.
    NotFound(Item),
    /// A file, or a part of one, could not be read.
    Io(Source),
    /// A file was read and its content is not what it has to be.
    Malformed(Flaw),
    /// A number of this field does not fit the integer type that holds it.
    OutOfRange(Key),
}

} // verus!
