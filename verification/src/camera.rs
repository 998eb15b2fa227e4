//! A camera: its calibration and its images.

use vstd::prelude::*;
use vstd::string::*;
use image::{DynamicImage, ImageError, ImageFormat};
use crate::common::Timestamp;
use crate::error::{Flaw, Key, ReadError, Source};
use crate::files::{join, joined, Snapshot};
use crate::number::{parse_u64, unsigned_of};
use crate::rows::{law_same_rows_same_records, log_rows, model_of, Records, RowDecoder};
use crate::sensor::{
    images_name, layout_check, log_name, read_matrix, resolution_in, vector_in, SensorFolder,
};
use crate::values::{literals, Matrix3, Matrix4, Real, Vector4};

verus! {

/// `image::DynamicImage`, a decoded image. It is carried as it is.
#[verifier::external_type_specification]
#[verifier::external_body]
pub struct ExDynamicImage(DynamicImage);

/// `image::ImageError`, the error of a decoder. Nothing is read from it.
#[verifier::external_type_specification]
#[verifier::external_body]
pub struct ExImageError(ImageError);

/// `image::ImageFormat`, the format of an image file. It is carried as it is.
#[verifier::external_type_specification]
#[verifier::external_body]
pub struct ExImageFormat(ImageFormat);

/// `Clone::clone` of `image::DynamicImage`, which the copy of an [`ImageRecord`] calls:
/// the copy is the same image.
pub assume_specification[ <DynamicImage as Clone>::clone ](image: &DynamicImage) -> (copy:
    DynamicImage)
    ensures
        copy == *image,
;

/// The format that `image::ImageFormat::from_path` tells from the extension of `path`;
/// `None` where it knows none for it.
pub uninterp spec fn format_of(path: Seq<char>) -> Option<ImageFormat>;

/// The image that `image::load_from_memory_with_format` decodes from `data`, taken to be
/// of the format `format`; `None` where it reports an error.
pub uninterp spec fn image_of(data: Seq<u8>, format: ImageFormat) -> Option<DynamicImage>;

/// Calls `image::ImageFormat::from_path`, which looks at the extension of `path` alone
/// and at no file. The contract names what comes back.
#[verifier::external_body]
fn format_from_path(path: &str) -> (r: Result<ImageFormat, ImageError>)
    ensures
        r is Ok <==> format_of(path@) is Some,
        r is Ok ==> r->Ok_0 == format_of(path@)->Some_0,
{
    ImageFormat::from_path(path)
}

/// Calls `image::load_from_memory_with_format` on the bytes of an image file. The
/// contract names what comes back. That the decoder of each format returns, with an image
/// or with an error, whatever the bytes are, is taken from the crate as it stands.
#[verifier::external_body]
fn decode_image(data: &[u8], format: ImageFormat) -> (r: Result<DynamicImage, ImageError>)
    ensures
        r is Ok <==> image_of(data@, format) is Some,
        r is Ok ==> r->Ok_0 == image_of(data@, format)->Some_0,
{
    image::load_from_memory_with_format(data, format)
}

/// The image in the file `path`, as row `row` of a log asks for it: the file has to be
/// there, its extension has to tell a format, and its content has to decode.
pub open spec fn image_in(files: Snapshot, path: Seq<char>, row: u64) -> Result<
    DynamicImage,
    ReadError,
> {
    match files.content(path) {
        None => Err(ReadError::Io(Source::Image(row))),
        Some(data) => match format_of(path) {
            None => Err(ReadError::Malformed(Flaw::Image(row))),
            Some(format) => match image_of(data, format) {
                None => Err(ReadError::Malformed(Flaw::Image(row))),
                Some(image) => Ok(image),
            },
        },
    }
}

/// What row number `row` of the log of a camera gives: the timestamp of column 0 and the
/// image that column 1 names inside the directory `dir`.
pub open spec fn frame_of(files: Snapshot, dir: Seq<char>, fields: Seq<Seq<char>>, row: u64)
    -> Result<(u64, DynamicImage), ReadError> {
    if fields.len() < 1 || unsigned_of(fields[0]) is None {
        Err(ReadError::Malformed(Flaw::Column { row, column: 0 }))
    } else if fields.len() < 2 {
        Err(ReadError::Malformed(Flaw::Column { row, column: 1 }))
    } else {
        match image_in(files, joined(dir, fields[1]), row) {
            Ok(image) => Ok((unsigned_of(fields[0])->Some_0, image)),
            Err(e) => Err(e),
        }
    }
}

/// The pinhole matrix of the intrinsics `k`, which are the focal lengths `fu` and `fv` and
/// the principal point `cu`, `cv`: the rows `fu 0 cu`, `0 fv cv` and `0 0 1`.
pub open spec fn pinhole_of(k: Seq<Seq<char>>) -> Seq<Seq<char>> {
    seq![k[0], seq!['0'], k[2], seq!['0'], k[1], k[3], seq!['0'], seq!['0'], seq!['1']]
}

/// The pinhole matrix of the intrinsics in the descriptor in the folder `path`.
pub open spec fn camera_matrix_in(files: Snapshot, path: Seq<char>) -> Result<
    Seq<Seq<char>>,
    ReadError,
> {
    match vector_in(files, path, Key::Intrinsics, 4) {
        Ok(k) => Ok(pinhole_of(k)),
        Err(e) => Err(e),
    }
}

/// What a reading of the intrinsics holds: the four literals, or the failure.
pub open spec fn read_intrinsics(r: Result<(Real, Real, Real, Real), ReadError>) -> Result<
    Seq<Seq<char>>,
    ReadError,
> {
    match r {
        Ok(k) => Ok(seq![k.0@, k.1@, k.2@, k.3@]),
        Err(e) => Err(e),
    }
}

/// What a reading of four numbers holds: the literals, or the failure.
pub open spec fn read_vector(r: Result<Vector4, ReadError>) -> Result<Seq<Seq<char>>, ReadError> {
    match r {
        Ok(v) => Ok(v.entries()),
        Err(e) => Err(e),
    }
}

/// What a reading of a pinhole matrix holds: the literals of its entries, row after row,
/// or the failure.
pub open spec fn read_pinhole(r: Result<Matrix3, ReadError>) -> Result<Seq<Seq<char>>, ReadError> {
    match r {
        Ok(m) => Ok(m.entries()),
        Err(e) => Err(e),
    }
}

/// The pinhole matrix of a camera with the focal lengths `fu` and `fv` and the principal
/// point `cu`, `cv`.
pub fn pinhole(fu: Real, fv: Real, cu: Real, cv: Real) -> (m: Matrix3)
    ensures
        m.entries() == pinhole_of(seq![fu@, fv@, cu@, cv@]),
{
    let m = Matrix3 {
        m11: fu,
        m12: Real::zero(),
        m13: cu,
        m21: Real::zero(),
        m22: fv,
        m23: cv,
        m31: Real::zero(),
        m32: Real::zero(),
        m33: Real::one(),
    };
    assert(m.entries() =~= pinhole_of(seq![fu@, fv@, cu@, cv@]));
    m
}

/// The folder of a camera.
#[derive(Debug, Clone)]
pub struct CameraRecords<'a> {
    folder: SensorFolder<'a>,
}

/// One image of a camera.
#[derive(Debug, Clone)]
pub struct ImageRecord {
    pub timestamp: Timestamp,
    pub image: DynamicImage,
}

/// How a row of the log of a camera is read: a timestamp, then the name of an image file
/// in the directory of images.
pub struct ImageRows<'a> {
    dir: String,
    files: &'a Snapshot,
}

impl<'a> ImageRows<'a> {
    /// The reading of rows whose images stand in the directory `dir` of `files`.
    pub fn new(dir: String, files: &'a Snapshot) -> (rows: Self)
        ensures
            rows.dir() == dir@,
            rows.files() == *files,
    {
        ImageRows { dir, files }
    }

    /// The path of the directory of images.
    pub closed spec fn dir(&self) -> Seq<char> {
        self.dir@
    }

    /// The files that the images are looked up in.
    pub closed spec fn files(&self) -> Snapshot {
        *self.files
    }

    /// Reads and decodes the image file `name` of the directory of images.
    fn load(&self, name: &str, row: u64) -> (r: Result<DynamicImage, ReadError>)
        ensures
            r == image_in(self.files(), joined(self.dir(), name@), row),
    {
        let path = join(self.dir.as_str(), name);
        let data = match self.files.read(path.as_str()) {
            Some(data) => data,
            None => {
                return Err(ReadError::Io(Source::Image(row)));
            },
        };
        let format = match format_from_path(path.as_str()) {
            Ok(format) => format,
            Err(_) => {
                return Err(ReadError::Malformed(Flaw::Image(row)));
            },
        };
        match decode_image(data, format) {
            Ok(image) => Ok(image),
            Err(_) => Err(ReadError::Malformed(Flaw::Image(row))),
        }
    }
}

impl<'a> RowDecoder for ImageRows<'a> {
    type Record = ImageRecord;

    type Model = (u64, DynamicImage);

    open spec fn model(record: ImageRecord) -> (u64, DynamicImage) {
        (record.timestamp@, record.image)
    }

    open spec fn decoded(&self, fields: Seq<Seq<char>>, row: u64) -> Result<
        (u64, DynamicImage),
        ReadError,
    > {
        frame_of(self.files(), self.dir(), fields, row)
    }

    fn decode(&self, fields: &Vec<String>, row: u64) -> (r: Result<ImageRecord, ReadError>) {
        if fields.len() < 1 {
            return Err(ReadError::Malformed(Flaw::Column { row, column: 0 }));
        }
        let timestamp = match parse_u64(fields[0].as_str()) {
            Some(ns) => Timestamp::from_nsecs(ns),
            None => {
                return Err(ReadError::Malformed(Flaw::Column { row, column: 0 }));
            },
        };
        if fields.len() < 2 {
            return Err(ReadError::Malformed(Flaw::Column { row, column: 1 }));
        }
        match self.load(fields[1].as_str(), row) {
            Ok(image) => Ok(ImageRecord { timestamp, image }),
            Err(e) => Err(e),
        }
    }
}

/// The images of a camera, one for each row of its log.
pub type ImageIterator<'a> = Records<'a, ImageRows<'a>>;

impl<'a> CameraRecords<'a> {
    /// The path of the folder.
    pub closed spec fn path(&self) -> Seq<char> {
        self.folder.path()
    }

    /// The files that the folder is looked up in.
    pub closed spec fn files(&self) -> Snapshot {
        self.folder.files()
    }

    /// What opening the folder `path` has to give.
    pub open spec fn opens(r: Result<Self, ReadError>, path: Seq<char>, files: Snapshot) -> bool {
        match r {
            Ok(data) => layout_check(files, path, true) is Ok && data.path() == path
                && data.files() == files,
            Err(e) => layout_check(files, path, true) == Err::<(), ReadError>(e),
        }
    }

    /// What opening the data log has to give.
    pub open spec fn starts(&self, r: Result<ImageIterator<'a>, ReadError>) -> bool {
        match r {
            Ok(records) => self.files().content(joined(self.path(), log_name())) matches Some(log)
                && records.ahead() == log_rows(log) && records.row() == 0
                && records.decoder().dir() == joined(self.path(), images_name())
                && records.decoder().files() == self.files(),
            Err(e) => self.files().content(joined(self.path(), log_name())) is None && e
                == ReadError::Io(Source::Log),
        }
    }

    /// Opens the folder `path`, which has to hold a directory of images, a data log and a
    /// descriptor.
    pub fn new(path: String, files: &'a Snapshot) -> (r: Result<Self, ReadError>)
        ensures
            Self::opens(r, path@, *files),
    {
        match SensorFolder::open(path, files, true) {
            Ok(folder) => Ok(CameraRecords { folder }),
            Err(e) => Err(e),
        }
    }

    /// The size of the images: width, then height.
    pub fn image_size(&self) -> (r: Result<(u32, u32), ReadError>)
        ensures
            r == resolution_in(self.files(), self.path()),
    {
        self.folder.resolution()
    }

    /// The intrinsics: the focal lengths `fu` and `fv`, then the principal point `cu`, `cv`.
    pub fn intrinsics(&self) -> (r: Result<(Real, Real, Real, Real), ReadError>)
        ensures
            read_intrinsics(r) == vector_in(self.files(), self.path(), Key::Intrinsics, 4),
    {
        match self.folder.vector(Key::Intrinsics, 4) {
            Ok(values) => {
                let k = (
                    values[0].clone(),
                    values[1].clone(),
                    values[2].clone(),
                    values[3].clone(),
                );
                assert(seq![k.0@, k.1@, k.2@, k.3@] =~= literals(values@));
                Ok(k)
            },
            Err(e) => Err(e),
        }
    }

    /// The pinhole matrix of the intrinsics, made anew from the descriptor.
    pub fn camera_matrix(&self) -> (r: Result<Matrix3, ReadError>)
        ensures
            read_pinhole(r) == camera_matrix_in(self.files(), self.path()),
    {
        match self.intrinsics() {
            Ok((fu, fv, cu, cv)) => {
                let m = pinhole(fu, fv, cu, cv);
                assert(pinhole_of(seq![fu@, fv@, cu@, cv@]) =~= pinhole_of(
                    vector_in(self.files(), self.path(), Key::Intrinsics, 4)->Ok_0,
                ));
                Ok(m)
            },
            Err(e) => Err(e),
        }
    }

    /// The distortion coefficients.
    pub fn distrotion_coeff(&self) -> (r: Result<Vector4, ReadError>)
        ensures
            read_vector(r) == vector_in(self.files(), self.path(), Key::Distortion, 4),
    {
        match self.folder.vector(Key::Distortion, 4) {
            Ok(values) => Ok(Vector4::from_slice(&values)),
            Err(e) => Err(e),
        }
    }

    /// The transform between the frame of the camera and that of the body.
    pub fn extrinsics(&self) -> (r: Result<Matrix4, ReadError>)
        ensures
            read_matrix(r) == vector_in(self.files(), self.path(), Key::Extrinsics, 16),
    {
        self.folder.extrinsics()
    }

    /// The images of the log, from its first row on.
    pub fn records(&self) -> (r: Result<ImageIterator<'a>, ReadError>)
        ensures
            self.starts(r),
    {
        let decoder = ImageRows::new(self.folder.images(), self.folder.snapshot());
        self.folder.records(decoder)
    }
}

/// A pinhole matrix holds the focal lengths on its diagonal, the principal point in its
/// last column, one in its last corner and zero everywhere else.
pub proof fn law_pinhole_entries(
    m: Matrix3,
    fu: Seq<char>,
    fv: Seq<char>,
    cu: Seq<char>,
    cv: Seq<char>,
)
    requires
        m.entries() == pinhole_of(seq![fu, fv, cu, cv]),
    ensures
        m.m11@ == fu,
        m.m22@ == fv,
        m.m13@ == cu,
        m.m23@ == cv,
        m.m33@ == seq!['1'],
        m.m12@ == seq!['0'],
        m.m21@ == seq!['0'],
        m.m31@ == seq!['0'],
        m.m32@ == seq!['0'],
{
    let e = m.entries();
    assert(e[0] == m.m11@ && e[1] == m.m12@ && e[2] == m.m13@);
    assert(e[3] == m.m21@ && e[4] == m.m22@ && e[5] == m.m23@);
    assert(e[6] == m.m31@ && e[7] == m.m32@ && e[8] == m.m33@);
}

/// The camera matrix is made of the intrinsics and of nothing else: read from the same
/// files, it is the pinhole matrix of what the intrinsics read, or fails as they do.
pub proof fn law_camera_matrix_follows_intrinsics(
    files: Snapshot,
    path: Seq<char>,
    k: Result<(Real, Real, Real, Real), ReadError>,
    m: Result<Matrix3, ReadError>,
)
    requires
        read_intrinsics(k) == vector_in(files, path, Key::Intrinsics, 4),
        read_pinhole(m) == camera_matrix_in(files, path),
    ensures
        read_pinhole(m) == match read_intrinsics(k) {
            Ok(k) => Ok::<Seq<Seq<char>>, ReadError>(pinhole_of(k)),
            Err(e) => Err::<Seq<Seq<char>>, ReadError>(e),
        },
{
}

/// Reading the intrinsics, the camera matrix or the distortion coefficients twice from the
/// same files gives the same literals or the same failure.
pub proof fn law_calibration_reads_alike(
    files: Snapshot,
    path: Seq<char>,
    k1: Result<(Real, Real, Real, Real), ReadError>,
    k2: Result<(Real, Real, Real, Real), ReadError>,
    m1: Result<Matrix3, ReadError>,
    m2: Result<Matrix3, ReadError>,
    d1: Result<Vector4, ReadError>,
    d2: Result<Vector4, ReadError>,
)
    requires
        read_intrinsics(k1) == vector_in(files, path, Key::Intrinsics, 4),
        read_intrinsics(k2) == vector_in(files, path, Key::Intrinsics, 4),
        read_pinhole(m1) == camera_matrix_in(files, path),
        read_pinhole(m2) == camera_matrix_in(files, path),
        read_vector(d1) == vector_in(files, path, Key::Distortion, 4),
        read_vector(d2) == vector_in(files, path, Key::Distortion, 4),
    ensures
        read_intrinsics(k1) == read_intrinsics(k2),
        read_pinhole(m1) == read_pinhole(m2),
        read_vector(d1) == read_vector(d2),
{
}

/// Opening the log of a camera twice gives the same images: two sequences that both start
/// at the log of the same folder hold as many results, and at each place the same image
/// or the same failure.
pub proof fn law_images_start_alike<'a>(
    data: CameraRecords<'a>,
    first: ImageIterator<'a>,
    second: ImageIterator<'a>,
    xs: Seq<Result<ImageRecord, ReadError>>,
    ys: Seq<Result<ImageRecord, ReadError>>,
)
    requires
        data.starts(Ok(first)),
        data.starts(Ok(second)),
        first.yields(xs),
        second.yields(ys),
    ensures
        xs.len() == ys.len(),
        forall|i: int|
            0 <= i < xs.len() ==> model_of::<ImageRows<'a>>(xs[i]) == model_of::<ImageRows<'a>>(
                ys[i],
            ),
{
    law_same_rows_same_records(first, second, xs, ys);
}

} // verus!
