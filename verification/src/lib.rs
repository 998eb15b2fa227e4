//! Reads datasets that are laid out as the EuRoC MAV datasets are: one folder for each
//! sensor, and in it a calibration descriptor and a log of timestamped data.
//!
//! The library reads from a [`Snapshot`] of the dataset's directories and files. It checks
//! the layout, reads calibration from the descriptors, and hands out the records of the
//! logs one by one. Real numbers stay the literals that the files write; see [`Real`].

use vstd::prelude::*;
use vstd::string::*;

pub mod camera;
pub mod common;
pub mod descriptor;
pub mod error;
pub mod files;
pub mod ground_truth;
pub mod imu;
pub mod number;
pub mod position;
pub mod rows;
pub mod sensor;
pub mod values;
pub mod yaml;

pub use crate::camera::{CameraRecords, ImageIterator, ImageRecord, ImageRows};
pub use crate::common::{load_yaml, Timestamp};
pub use crate::error::{Flaw, Item, Key, ReadError, Source};
pub use crate::files::{Entry, Snapshot};
pub use crate::ground_truth::{
    GroundTruthData, GroundTruthIterator, GroundTruthRecord, GroundTruthRows,
};
pub use crate::imu::{ImuData, ImuIterator, ImuRecord, ImuRows};
pub use crate::position::{PositionData, PositionIterator, PositionRecord, PositionRows};
pub use crate::rows::{Records, RowDecoder, RowReader};
pub use crate::values::{Matrix3, Matrix4, Quaternion, Real, Vector3, Vector4};
pub use crate::yaml::Node;

verus! {

/// A dataset: a root directory with one folder for each sensor.
#[derive(Debug)]
pub struct EuRoC<'a> {
    root: String,
    files: &'a Snapshot,
}

impl<'a> EuRoC<'a> {
    /// The path of the root directory.
    pub closed spec fn root(&self) -> Seq<char> {
        self.root@
    }

    /// The files that the dataset is looked up in.
    pub closed spec fn files(&self) -> Snapshot {
        *self.files
    }

    /// Opens the dataset under `root`, which has to be a directory.
    pub fn new(root: &str, files: &'a Snapshot) -> (r: Result<Self, ReadError>)
        ensures
            match r {
                Ok(dataset) => files.has_dir(root@) && dataset.root() == root@ && dataset.files()
                    == *files,
                Err(e) => !files.has_dir(root@) && e == ReadError::NotFound(Item::Root),
            },
    {
        if files.is_dir(root) {
            Ok(EuRoC { root: root.to_owned(), files })
        } else {
            Err(ReadError::NotFound(Item::Root))
        }
    }

    /// The left camera, in the folder `cam0`.
    pub fn left_camera(&self) -> (r: Result<CameraRecords<'a>, ReadError>)
        ensures
            CameraRecords::opens(r, files::joined(self.root(), "cam0"@), self.files()),
    {
        CameraRecords::new(files::join(self.root.as_str(), "cam0"), self.files)
    }

    /// The right camera, in the folder `cam1`.
    pub fn right_camera(&self) -> (r: Result<CameraRecords<'a>, ReadError>)
        ensures
            CameraRecords::opens(r, files::joined(self.root(), "cam1"@), self.files()),
    {
        CameraRecords::new(files::join(self.root.as_str(), "cam1"), self.files)
    }

    /// The inertial measurement unit, in the folder `imu0`.
    pub fn imu(&self) -> (r: Result<ImuData<'a>, ReadError>)
        ensures
            ImuData::opens(r, files::joined(self.root(), "imu0"@), self.files()),
    {
        ImuData::new(files::join(self.root.as_str(), "imu0"), self.files)
    }

    /// The position tracker, in the folder `leica0`.
    pub fn position(&self) -> (r: Result<PositionData<'a>, ReadError>)
        ensures
            PositionData::opens(r, files::joined(self.root(), "leica0"@), self.files()),
    {
        PositionData::new(files::join(self.root.as_str(), "leica0"), self.files)
    }

    /// The ground truth, in the folder `state_groundtruth_estimate0`.
    pub fn ground_truth(&self) -> (r: Result<GroundTruthData<'a>, ReadError>)
        ensures
            GroundTruthData::opens(
                r,
                files::joined(self.root(), "state_groundtruth_estimate0"@),
                self.files(),
            ),
    {
        GroundTruthData::new(
            files::join(self.root.as_str(), "state_groundtruth_estimate0"),
            self.files,
        )
    }
}

} // verus!
