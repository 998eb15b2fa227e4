//! The position tracker: where an outside instrument saw the vehicle.

use vstd::prelude::*;
use crate::common::Timestamp;
use crate::error::{Key, ReadError};
use crate::files::Snapshot;
use crate::rows::{parse_sample, sample_of, Records, RowDecoder};
use crate::sensor::{layout_check, read_matrix, starts, vector_in, SensorFolder};
use crate::values::{literals, Matrix4, Vector3};

verus! {

/// The folder of the position tracker.
#[derive(Debug, Clone)]
pub struct PositionData<'a> {
    folder: SensorFolder<'a>,
}

/// One measurement of the tracker.
#[derive(Debug, Clone)]
pub struct PositionRecord {
    pub timestamp: Timestamp,
    /// Position, in m.
    pub position: Vector3,
}

impl PositionRecord {
    /// The literals of the measurement, in the order of the columns of the log.
    pub open spec fn values(&self) -> Seq<Seq<char>> {
        self.position.entries()
    }
}

/// How a row of the log of the tracker is read: a timestamp, then the position.
#[derive(Debug, Clone, Copy)]
pub struct PositionRows;

impl RowDecoder for PositionRows {
    type Record = PositionRecord;

    type Model = (u64, Seq<Seq<char>>);

    open spec fn model(record: PositionRecord) -> (u64, Seq<Seq<char>>) {
        (record.timestamp@, record.values())
    }

    open spec fn decoded(&self, fields: Seq<Seq<char>>, row: u64) -> Result<
        (u64, Seq<Seq<char>>),
        ReadError,
    > {
        sample_of(fields, 3, row)
    }

    fn decode(&self, fields: &Vec<String>, row: u64) -> (r: Result<PositionRecord, ReadError>) {
        let (timestamp, values) = match parse_sample(fields, 3, row) {
            Ok(sample) => sample,
            Err(e) => {
                return Err(e);
            },
        };
        let record = PositionRecord { timestamp, position: Vector3::from_slice(&values, 0) };
        assert(record.values() =~= literals(values@));
        Ok(record)
    }
}

/// The measurements of the tracker, one for each row of its log.
pub type PositionIterator<'a> = Records<'a, PositionRows>;

impl<'a> PositionData<'a> {
    /// The path of the folder.
    pub closed spec fn path(&self) -> Seq<char> {
        self.folder.path()
    }

    /// The files that the folder is looked up in.
    pub closed spec fn files(&self) -> Snapshot {
        self.folder.files()
    }

    /// What opening the folder `path` has to give.
    pub open spec fn opens(r: Result<Self, ReadError>, path: Seq<char>, files: Snapshot) -> bool {
        match r {
            Ok(data) => layout_check(files, path, false) is Ok && data.path() == path
                && data.files() == files,
            Err(e) => layout_check(files, path, false) == Err::<(), ReadError>(e),
        }
    }

    /// Opens the folder `path`, which has to hold a data log and a descriptor.
    pub fn new(path: String, files: &'a Snapshot) -> (r: Result<Self, ReadError>)
        ensures
            Self::opens(r, path@, *files),
    {
        match SensorFolder::open(path, files, false) {
            Ok(folder) => Ok(PositionData { folder }),
            Err(e) => Err(e),
        }
    }

    /// The transform between the frame of the tracker and that of the body.
    pub fn extrinsics(&self) -> (r: Result<Matrix4, ReadError>)
        ensures
            read_matrix(r) == vector_in(self.files(), self.path(), Key::Extrinsics, 16),
    {
        self.folder.extrinsics()
    }

    /// The measurements of the log, from its first row on.
    pub fn records(&self) -> (r: Result<PositionIterator<'a>, ReadError>)
        ensures
            starts(r, self.files(), self.path(), PositionRows),
    {
        self.folder.records(PositionRows)
    }
}

} // verus!
