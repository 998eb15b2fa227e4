//! The folder of one sensor: a calibration descriptor, a data log and, for a camera, a
//! directory of images.

use vstd::prelude::*;
use vstd::string::*;
use crate::common::{descriptor_of, load_yaml};
use crate::descriptor::{resolution, resolution_of, scalar, scalar_of, vector, vector_of};
use crate::error::{Item, Key, ReadError, Source};
use crate::files::{join, joined, Snapshot};
use crate::rows::{
    advanced, item_of, law_same_rows_same_records, log_rows, model_of, Records, RowDecoder,
};
use crate::values::{literals, Matrix4, Real};
use crate::yaml::Node;

verus! {

/// The name of the directory of images in the folder of a camera.
pub open spec fn images_name() -> Seq<char> {
    "data"@
}

/// The name of the data log in a sensor folder.
pub open spec fn log_name() -> Seq<char> {
    "data.csv"@
}

/// The name of the calibration descriptor in a sensor folder.
pub open spec fn descriptor_name() -> Seq<char> {
    "sensor.yaml"@
}

/// The first thing that the folder `path` lacks, in this order: the folder itself, the
/// directory of images where `camera` asks for one, the data log, the descriptor.
pub open spec fn layout_fault(files: Snapshot, path: Seq<char>, camera: bool) -> Option<Item> {
    if !files.has_dir(path) {
        Some(Item::Folder)
    } else if camera && !files.has_dir(joined(path, images_name())) {
        Some(Item::Images)
    } else if !files.has_file(joined(path, log_name())) {
        Some(Item::Log)
    } else if !files.has_file(joined(path, descriptor_name())) {
        Some(Item::Descriptor)
    } else {
        None
    }
}

/// What the check of the layout of the folder `path` gives: nothing where the layout is
/// complete, and else the first thing that the folder lacks.
pub open spec fn layout_check(files: Snapshot, path: Seq<char>, camera: bool) -> Result<
    (),
    ReadError,
> {
    match layout_fault(files, path, camera) {
        None => Ok(()),
        Some(item) => Err(ReadError::NotFound(item)),
    }
}

/// The documents of the descriptor in the folder `path`.
pub open spec fn documents_of(files: Snapshot, path: Seq<char>) -> Result<Seq<Node>, ReadError> {
    descriptor_of(files, joined(path, descriptor_name()))
}

/// The real number in the field `key` of the descriptor in the folder `path`.
pub open spec fn scalar_in(files: Snapshot, path: Seq<char>, key: Key) -> Result<
    Seq<char>,
    ReadError,
> {
    match documents_of(files, path) {
        Ok(docs) => scalar_of(docs, key),
        Err(e) => Err(e),
    }
}

/// The `len` real numbers in the field `key` of the descriptor in the folder `path`.
pub open spec fn vector_in(files: Snapshot, path: Seq<char>, key: Key, len: nat) -> Result<
    Seq<Seq<char>>,
    ReadError,
> {
    match documents_of(files, path) {
        Ok(docs) => vector_of(docs, key, len),
        Err(e) => Err(e),
    }
}

/// The resolution in the descriptor in the folder `path`.
pub open spec fn resolution_in(files: Snapshot, path: Seq<char>) -> Result<(u32, u32), ReadError> {
    match documents_of(files, path) {
        Ok(docs) => resolution_of(docs),
        Err(e) => Err(e),
    }
}

/// What opening the data log in the folder `path` has to give: the records from the first
/// row behind the header on, or the failure to read the log where it is not there.
pub open spec fn starts<D: RowDecoder>(
    r: Result<Records<'_, D>, ReadError>,
    files: Snapshot,
    path: Seq<char>,
    decoder: D,
) -> bool {
    match r {
        Ok(records) => files.content(joined(path, log_name())) matches Some(log)
            && records.ahead() == log_rows(log) && records.row() == 0 && records.decoder()
            == decoder,
        Err(e) => files.content(joined(path, log_name())) is None && e == ReadError::Io(
            Source::Log,
        ),
    }
}

/// What a reading of real numbers holds: their literals, or the failure.
pub open spec fn read_literals(r: Result<Vec<Real>, ReadError>) -> Result<
    Seq<Seq<char>>,
    ReadError,
> {
    match r {
        Ok(values) => Ok(literals(values@)),
        Err(e) => Err(e),
    }
}

/// What a reading of one real number holds: its literal, or the failure.
pub open spec fn read_literal(r: Result<Real, ReadError>) -> Result<Seq<char>, ReadError> {
    match r {
        Ok(value) => Ok(value@),
        Err(e) => Err(e),
    }
}

/// What a reading of a matrix holds: the literals of its entries, row after row, or the
/// failure.
pub open spec fn read_matrix(r: Result<Matrix4, ReadError>) -> Result<Seq<Seq<char>>, ReadError> {
    match r {
        Ok(m) => Ok(m.entries()),
        Err(e) => Err(e),
    }
}

/// A sensor folder whose layout was found complete.
#[derive(Debug, Clone)]
pub struct SensorFolder<'a> {
    path: String,
    files: &'a Snapshot,
}

impl<'a> SensorFolder<'a> {
    /// The path of the folder.
    pub closed spec fn path(&self) -> Seq<char> {
        self.path@
    }

    /// The files that the folder is looked up in.
    pub closed spec fn files(&self) -> Snapshot {
        *self.files
    }

    /// What opening the folder `path` has to give: the folder where its layout is
    /// complete, and else the first thing that it lacks.
    pub open spec fn opens(
        r: Result<Self, ReadError>,
        path: Seq<char>,
        files: Snapshot,
        camera: bool,
    ) -> bool {
        match r {
            Ok(folder) => layout_check(files, path, camera) is Ok && folder.path() == path
                && folder.files() == files,
            Err(e) => layout_check(files, path, camera) == Err::<(), ReadError>(e),
        }
    }

    /// Checks the layout of the folder `path`. Nothing is parsed.
    pub fn open(path: String, files: &'a Snapshot, camera: bool) -> (r: Result<Self, ReadError>)
        ensures
            Self::opens(r, path@, *files, camera),
    {
        if !files.is_dir(path.as_str()) {
            return Err(ReadError::NotFound(Item::Folder));
        }
        if camera && !files.is_dir(join(path.as_str(), "data").as_str()) {
            return Err(ReadError::NotFound(Item::Images));
        }
        if !files.is_file(join(path.as_str(), "data.csv").as_str()) {
            return Err(ReadError::NotFound(Item::Log));
        }
        if !files.is_file(join(path.as_str(), "sensor.yaml").as_str()) {
            return Err(ReadError::NotFound(Item::Descriptor));
        }
        Ok(SensorFolder { path, files })
    }

    /// The files that the folder is looked up in.
    pub fn snapshot(&self) -> (files: &'a Snapshot)
        ensures
            *files == self.files(),
    {
        self.files
    }

    /// The path of the directory of images.
    pub fn images(&self) -> (path: String)
        ensures
            path@ == joined(self.path(), images_name()),
    {
        join(self.path.as_str(), "data")
    }

    /// Reads the descriptor anew and returns its documents.
    pub fn descriptor(&self) -> (r: Result<Vec<Node>, ReadError>)
        ensures
            match r {
                Ok(docs) => documents_of(self.files(), self.path()) == Ok::<Seq<Node>, ReadError>(
                    docs@,
                ),
                Err(e) => documents_of(self.files(), self.path()) == Err::<Seq<Node>, ReadError>(e),
            },
    {
        load_yaml(self.files, join(self.path.as_str(), "sensor.yaml").as_str())
    }

    /// Reads the real number in the field `key` of the descriptor.
    pub fn scalar(&self, key: Key) -> (r: Result<Real, ReadError>)
        ensures
            read_literal(r) == scalar_in(self.files(), self.path(), key),
    {
        match self.descriptor() {
            Ok(docs) => scalar(&docs, key),
            Err(e) => Err(e),
        }
    }

    /// Reads the `len` real numbers in the field `key` of the descriptor.
    pub fn vector(&self, key: Key, len: usize) -> (r: Result<Vec<Real>, ReadError>)
        ensures
            read_literals(r) == vector_in(self.files(), self.path(), key, len as nat),
            r matches Ok(values) ==> values@.len() == len,
    {
        match self.descriptor() {
            Ok(docs) => vector(&docs, key, len),
            Err(e) => Err(e),
        }
    }

    /// Reads the resolution in the descriptor: width, then height.
    pub fn resolution(&self) -> (r: Result<(u32, u32), ReadError>)
        ensures
            r == resolution_in(self.files(), self.path()),
    {
        match self.descriptor() {
            Ok(docs) => resolution(&docs),
            Err(e) => Err(e),
        }
    }

    /// Reads the transform between the frame of the sensor and that of the body: the
    /// sixteen numbers of `T_BS`, row after row. No direction is read into it.
    pub fn extrinsics(&self) -> (r: Result<Matrix4, ReadError>)
        ensures
            read_matrix(r) == vector_in(self.files(), self.path(), Key::Extrinsics, 16),
    {
        match self.vector(Key::Extrinsics, 16) {
            Ok(values) => Ok(Matrix4::from_row_slice(&values)),
            Err(e) => Err(e),
        }
    }

    /// Opens the data log anew, for `decoder` to read its rows. Only a log that is not
    /// there makes this fail.
    pub fn records<D: RowDecoder>(&self, decoder: D) -> (r: Result<Records<'a, D>, ReadError>)
        ensures
            starts(r, self.files(), self.path(), decoder),
    {
        match self.files.read(join(self.path.as_str(), "data.csv").as_str()) {
            Some(log) => Ok(Records::open(log, decoder)),
            None => Err(ReadError::Io(Source::Log)),
        }
    }
}

/// A folder whose layout was found complete holds its data log and its descriptor: no
/// later reading fails for want of the file.
pub proof fn law_complete_layout_has_files(files: Snapshot, path: Seq<char>, camera: bool)
    requires
        layout_check(files, path, camera) is Ok,
    ensures
        files.content(joined(path, log_name())) is Some,
        files.content(joined(path, descriptor_name())) is Some,
        camera ==> files.has_dir(joined(path, images_name())),
{
}

/// Reading a number twice from the same files gives the same literal or the same failure.
pub proof fn law_scalar_reads_alike(
    files: Snapshot,
    path: Seq<char>,
    key: Key,
    first: Result<Real, ReadError>,
    second: Result<Real, ReadError>,
)
    requires
        read_literal(first) == scalar_in(files, path, key),
        read_literal(second) == scalar_in(files, path, key),
    ensures
        read_literal(first) == read_literal(second),
{
}

/// Reading numbers twice from the same files gives the same literals or the same failure.
pub proof fn law_vector_reads_alike(
    files: Snapshot,
    path: Seq<char>,
    key: Key,
    len: nat,
    first: Result<Vec<Real>, ReadError>,
    second: Result<Vec<Real>, ReadError>,
)
    requires
        read_literals(first) == vector_in(files, path, key, len),
        read_literals(second) == vector_in(files, path, key, len),
    ensures
        read_literals(first) == read_literals(second),
{
}

/// Reading the extrinsics twice from the same files gives the same entries or the same
/// failure.
pub proof fn law_extrinsics_read_alike(
    files: Snapshot,
    path: Seq<char>,
    first: Result<Matrix4, ReadError>,
    second: Result<Matrix4, ReadError>,
)
    requires
        read_matrix(first) == vector_in(files, path, Key::Extrinsics, 16),
        read_matrix(second) == vector_in(files, path, Key::Extrinsics, 16),
    ensures
        read_matrix(first) == read_matrix(second),
{
}

/// Reading the resolution twice from the same files gives the same.
pub proof fn law_resolution_reads_alike(
    files: Snapshot,
    path: Seq<char>,
    first: Result<(u32, u32), ReadError>,
    second: Result<(u32, u32), ReadError>,
)
    requires
        first == resolution_in(files, path),
        second == resolution_in(files, path),
    ensures
        first == second,
{
}

/// The records of a folder are those of its log: as many as the log has rows behind its
/// header, in the order of the rows, the record at each place read from the row there,
/// under its number.
pub proof fn law_records_follow_log<D: RowDecoder>(
    files: Snapshot,
    path: Seq<char>,
    decoder: D,
    records: Records<'_, D>,
    all: Seq<Result<D::Record, ReadError>>,
)
    requires
        starts(Ok(records), files, path, decoder),
        records.yields(all),
    ensures
        files.content(joined(path, log_name())) matches Some(log) && all.len() == log_rows(
            log,
        ).len() && forall|i: int|
            0 <= i < all.len() ==> model_of::<D>(all[i]) == item_of(
                decoder,
                log_rows(log)[i],
                advanced(0, i as nat),
            ),
{
    let log = files.content(joined(path, log_name()))->Some_0;
    assert forall|i: int| 0 <= i < all.len() implies model_of::<D>(all[i]) == item_of(
        decoder,
        log_rows(log)[i],
        advanced(0, i as nat),
    ) by {
        assert(model_of::<D>(all[i]) == item_of(
            records.decoder(),
            records.ahead()[i],
            advanced(records.row(), i as nat),
        ));
    }
}

/// Opening the log of a folder twice gives the same records: two sequences that both start
/// at the log of the same files hold as many results, and at each place the same record
/// or the same failure.
pub proof fn law_records_start_alike<D: RowDecoder>(
    files: Snapshot,
    path: Seq<char>,
    decoder: D,
    first: Records<'_, D>,
    second: Records<'_, D>,
    xs: Seq<Result<D::Record, ReadError>>,
    ys: Seq<Result<D::Record, ReadError>>,
)
    requires
        starts(Ok(first), files, path, decoder),
        starts(Ok(second), files, path, decoder),
        first.yields(xs),
        second.yields(ys),
    ensures
        xs.len() == ys.len(),
        forall|i: int| 0 <= i < xs.len() ==> model_of::<D>(xs[i]) == model_of::<D>(ys[i]),
{
    law_same_rows_same_records(first, second, xs, ys);
}

} // verus!
