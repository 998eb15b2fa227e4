//! The ground truth: the estimated state of the vehicle over time.

use vstd::prelude::*;
use crate::common::Timestamp;
use crate::error::{Key, ReadError};
use crate::files::Snapshot;
use crate::rows::{parse_sample, sample_of, Records, RowDecoder};
use crate::sensor::{layout_check, read_matrix, starts, vector_in, SensorFolder};
use crate::values::{literals, Matrix4, Quaternion, Vector3};

verus! {

/// The folder of the ground truth.
#[derive(Debug, Clone)]
pub struct GroundTruthData<'a> {
    folder: SensorFolder<'a>,
}

/// One estimate of the state.
#[derive(Debug, Clone)]
pub struct GroundTruthRecord {
    pub timestamp: Timestamp,
    /// Position, in m.
    pub position: Vector3,
    /// Orientation.
    pub quaternion: Quaternion,
    /// Linear velocity, in m/s.
    pub velocity: Vector3,
    /// Angular velocity, in rad/s.
    pub gyro: Vector3,
    /// Linear acceleration, in m/s².
    pub accel: Vector3,
}

impl GroundTruthRecord {
    /// The literals of the estimate, in the order of the columns of the log.
    pub open spec fn values(&self) -> Seq<Seq<char>> {
        self.position.entries() + self.quaternion.entries() + self.velocity.entries()
            + self.gyro.entries() + self.accel.entries()
    }
}

/// How a row of the log of the ground truth is read: a timestamp, then position,
/// orientation, velocity, angular velocity and acceleration, sixteen numbers in all.
#[derive(Debug, Clone, Copy)]
pub struct GroundTruthRows;

impl RowDecoder for GroundTruthRows {
    type Record = GroundTruthRecord;

    type Model = (u64, Seq<Seq<char>>);

    open spec fn model(record: GroundTruthRecord) -> (u64, Seq<Seq<char>>) {
        (record.timestamp@, record.values())
    }

    open spec fn decoded(&self, fields: Seq<Seq<char>>, row: u64) -> Result<
        (u64, Seq<Seq<char>>),
        ReadError,
    > {
        sample_of(fields, 16, row)
    }

    fn decode(&self, fields: &Vec<String>, row: u64) -> (r: Result<GroundTruthRecord, ReadError>) {
        let (timestamp, values) = match parse_sample(fields, 16, row) {
            Ok(sample) => sample,
            Err(e) => {
                return Err(e);
            },
        };
        let record = GroundTruthRecord {
            timestamp,
            position: Vector3::from_slice(&values, 0),
            quaternion: Quaternion::from_slice(&values, 3),
            velocity: Vector3::from_slice(&values, 7),
            gyro: Vector3::from_slice(&values, 10),
            accel: Vector3::from_slice(&values, 13),
        };
        assert(record.values() =~= literals(values@));
        Ok(record)
    }
}

/// The estimates of the state, one for each row of the log.
pub type GroundTruthIterator<'a> = Records<'a, GroundTruthRows>;

impl<'a> GroundTruthData<'a> {
    /// The path of the folder.
    pub closed spec fn path(&self) -> Seq<char> {
        self.folder.path()
    }

    /// The files that the folder is looked up in.
    pub closed spec fn files(&self) -> Snapshot {
        self.folder.files()
    }

    /// What opening the folder `path` has to give.
    pub open spec fn opens(r: Result<Self, ReadError>, path: Seq<char>, files: Snapshot) -> bool {
        match r {
            Ok(data) => layout_check(files, path, false) is Ok && data.path() == path
                && data.files() == files,
            Err(e) => layout_check(files, path, false) == Err::<(), ReadError>(e),
        }
    }

    /// Opens the folder `path`, which has to hold a data log and a descriptor.
    pub fn new(path: String, files: &'a Snapshot) -> (r: Result<Self, ReadError>)
        ensures
            Self::opens(r, path@, *files),
    {
        match SensorFolder::open(path, files, false) {
            Ok(folder) => Ok(GroundTruthData { folder }),
            Err(e) => Err(e),
        }
    }

    /// The transform between the frame of the estimate and that of the body.
    pub fn extrinsics(&self) -> (r: Result<Matrix4, ReadError>)
        ensures
            read_matrix(r) == vector_in(self.files(), self.path(), Key::Extrinsics, 16),
    {
        self.folder.extrinsics()
    }

    /// The estimates of the log, from its first row on.
    pub fn records(&self) -> (r: Result<GroundTruthIterator<'a>, ReadError>)
        ensures
            starts(r, self.files(), self.path(), GroundTruthRows),
    {
        self.folder.records(GroundTruthRows)
    }
}

} // verus!
