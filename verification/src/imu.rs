//! The inertial measurement unit: its calibration and its measurements.

use vstd::prelude::*;
use crate::common::Timestamp;
use crate::error::{Key, ReadError};
use crate::files::Snapshot;
use crate::rows::{parse_sample, sample_of, Records, RowDecoder};
use crate::sensor::{
    layout_check, read_literal, read_matrix, scalar_in, starts, vector_in, SensorFolder,
};
use crate::values::{literals, Matrix4, Real, Vector3};

verus! {

/// The folder of the inertial measurement unit.
#[derive(Debug)]
pub struct ImuData<'a> {
    folder: SensorFolder<'a>,
}

/// One measurement of the unit.
#[derive(Debug, Clone)]
pub struct ImuRecord {
    pub timestamp: Timestamp,
    /// Angular velocity, in rad/s.
    pub gyro: Vector3,
    /// Linear acceleration, in m/s².
    pub accel: Vector3,
}

impl ImuRecord {
    /// The literals of the measurement, in the order of the columns of the log.
    pub open spec fn values(&self) -> Seq<Seq<char>> {
        self.gyro.entries() + self.accel.entries()
    }
}

/// How a row of the log of the unit is read: a timestamp, then angular velocity and linear
/// acceleration, three numbers each.
#[derive(Debug, Clone, Copy)]
pub struct ImuRows;

impl RowDecoder for ImuRows {
    type Record = ImuRecord;

    type Model = (u64, Seq<Seq<char>>);

    open spec fn model(record: ImuRecord) -> (u64, Seq<Seq<char>>) {
        (record.timestamp@, record.values())
    }

    open spec fn decoded(&self, fields: Seq<Seq<char>>, row: u64) -> Result<
        (u64, Seq<Seq<char>>),
        ReadError,
    > {
        sample_of(fields, 6, row)
    }

    fn decode(&self, fields: &Vec<String>, row: u64) -> (r: Result<ImuRecord, ReadError>) {
        let (timestamp, values) = match parse_sample(fields, 6, row) {
            Ok(sample) => sample,
            Err(e) => {
                return Err(e);
            },
        };
        let record = ImuRecord {
            timestamp,
            gyro: Vector3::from_slice(&values, 0),
            accel: Vector3::from_slice(&values, 3),
        };
        assert(record.values() =~= literals(values@));
        Ok(record)
    }
}

/// The measurements of the unit, one for each row of its log.
pub type ImuIterator<'a> = Records<'a, ImuRows>;

impl<'a> ImuData<'a> {
    /// The path of the folder.
    pub closed spec fn path(&self) -> Seq<char> {
        self.folder.path()
    }

    /// The files that the folder is looked up in.
    pub closed spec fn files(&self) -> Snapshot {
        self.folder.files()
    }

    /// What opening the folder `path` has to give.
    pub open spec fn opens(r: Result<Self, ReadError>, path: Seq<char>, files: Snapshot) -> bool {
        match r {
            Ok(data) => layout_check(files, path, false) is Ok && data.path() == path
                && data.files() == files,
            Err(e) => layout_check(files, path, false) == Err::<(), ReadError>(e),
        }
    }

    /// Opens the folder `path`, which has to hold a data log and a descriptor.
    pub fn new(path: String, files: &'a Snapshot) -> (r: Result<Self, ReadError>)
        ensures
            Self::opens(r, path@, *files),
    {
        match SensorFolder::open(path, files, false) {
            Ok(folder) => Ok(ImuData { folder }),
            Err(e) => Err(e),
        }
    }

    /// The transform between the frame of the unit and that of the body.
    pub fn extrinsics(&self) -> (r: Result<Matrix4, ReadError>)
        ensures
            read_matrix(r) == vector_in(self.files(), self.path(), Key::Extrinsics, 16),
    {
        self.folder.extrinsics()
    }

    /// The white noise of the gyroscope, in rad/s/√Hz.
    pub fn gyro_noise_density(&self) -> (r: Result<Real, ReadError>)
        ensures
            read_literal(r) == scalar_in(self.files(), self.path(), Key::GyroNoiseDensity),
    {
        self.folder.scalar(Key::GyroNoiseDensity)
    }

    /// The random walk of the gyroscope, in rad/s²/√Hz.
    pub fn gyro_random_walk(&self) -> (r: Result<Real, ReadError>)
        ensures
            read_literal(r) == scalar_in(self.files(), self.path(), Key::GyroRandomWalk),
    {
        self.folder.scalar(Key::GyroRandomWalk)
    }

    /// The white noise of the accelerometer, in m/s²/√Hz.
    pub fn accel_noise_density(&self) -> (r: Result<Real, ReadError>)
        ensures
            read_literal(r) == scalar_in(self.files(), self.path(), Key::AccelNoiseDensity),
    {
        self.folder.scalar(Key::AccelNoiseDensity)
    }

    /// The random walk of the accelerometer, in m/s³/√Hz.
    pub fn accel_random_walk(&self) -> (r: Result<Real, ReadError>)
        ensures
            read_literal(r) == scalar_in(self.files(), self.path(), Key::AccelRandomWalk),
    {
        self.folder.scalar(Key::AccelRandomWalk)
    }

    /// The measurements of the log, from its first row on.
    pub fn records(&self) -> (r: Result<ImuIterator<'a>, ReadError>)
        ensures
            starts(r, self.files(), self.path(), ImuRows),
    {
        self.folder.records(ImuRows)
    }
}

} // verus!
