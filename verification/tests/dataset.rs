use std::io::Cursor;

use euroc::{
    Entry, EuRoC, Flaw, Item, Key, Matrix3, Matrix4, ReadError, Real, Snapshot, Source, Timestamp,
    Vector3,
};
use image::GenericImageView;
use nalgebra as na;

const CAMERA_YAML: &str = "\
# General sensor definitions.
sensor_type: camera
comment: VI-Sensor cam0 (MT9M034)

# Sensor extrinsics wrt. the body-frame.
T_BS:
  cols: 4
  rows: 4
  data: [0.0148655429818, -0.999880929698, 0.00414029679422, -0.0216401454975,
         0.999557249008, 0.0149672133247, 0.025715529948, -0.064676986768,
        -0.0257744366974, 0.00375618835797, 0.999660727178, 0.00981073058949,
         0.0, 0.0, 0.0, 1.0]

# Camera specific definitions.
rate_hz: 20
resolution: [752, 480]
camera_model: pinhole
intrinsics: [458.654, 457.296, 367.215, 248.375] #fu, fv, cu, cv
distortion_model: radial-tangential
distortion_coefficients: [-0.28340811, 0.07395907, 0.00019359, 1.76187114e-05]
";

const CAMERA_CSV: &str = "\
#timestamp [ns],filename
1403636579763555584,1403636579763555584.png
1403636579813555456,1403636579813555456.png
1403636579863555584,1403636579863555584.png
1403636579913555456,1403636579913555456.png
1403636579963555584,1403636579963555584.png
";

const IMU_YAML: &str = "\
#Default imu sensor yaml file
sensor_type: imu
comment: VI-Sensor IMU (ADIS16448)

# Sensor extrinsics wrt. the body-frame.
T_BS:
  cols: 4
  rows: 4
  data: [1.0, 0.0, 0.0, 0.0,
         0.0, 1.0, 0.0, 0.0,
         0.0, 0.0, 1.0, 0.0,
         0.0, 0.0, 0.0, 1.0]
rate_hz: 200

# inertial sensor noise model parameters (static)
gyroscope_noise_density: 1.6968e-04     # [ rad / s / sqrt(Hz) ]   ( gyro \"white noise\" )
gyroscope_random_walk: 1.9393e-05       # [ rad / s^2 / sqrt(Hz) ] ( gyro bias diffusion )
accelerometer_noise_density: 2.0000e-3  # [ m / s^2 / sqrt(Hz) ]   ( accel \"white noise\" )
accelerometer_random_walk: 3.0000e-3    # [ m / s^3 / sqrt(Hz) ].  ( accel bias diffusion )
";

const IMU_CSV: &str = "\
#timestamp [ns],w_RS_S_x [rad s^-1],w_RS_S_y [rad s^-1],w_RS_S_z [rad s^-1],a_RS_S_x [m s^-2],a_RS_S_y [m s^-2],a_RS_S_z [m s^-2]
1403636579758555392,-0.099134701513277898,0.14730578886832138,0.02722713633111154,8.1476917083333333,-0.37592158333333331,-2.4026292499999999
1403636579763555584,-0.099134701513277898,0.14032447186034408,0.029321531433504733,8.033280791666666,-0.40861041666666664,-2.4026292499999999
1403636579768555520,-0.098436569812480182,0.12775810124598494,0.037699111843077518,7.8861810416666662,-0.42495483333333334,-2.4353180833333332
1403636579773555456,-0.10262536001726656,0.11868238913561441,0.040491638646268445,7.8453200000000001,-0.43312704166666666,-2.4434902916666665
1403636579778555392,-0.10611601852125524,0.11309733552923257,0.045378560551852569,7.8371477916666668,-0.44947145833333335,-2.4761791249999998
";

const POSITION_YAML: &str = "\
# General sensor definitions.
sensor_type: position
comment: Position measurement from Leica Nova MS50.

# Sensor extrinsics wrt. the body-frame.
T_BS:
  cols: 4
  rows: 4
  data: [1.0, 0.0, 0.0,  7.48903e-02,
         0.0, 1.0, 0.0, -1.84772e-02,
         0.0, 0.0, 1.0, -1.20209e-01,
         0.0, 0.0, 0.0,  1.0]
";

const POSITION_CSV: &str = "\
#timestamp [ns],p_RS_R_x [m],p_RS_R_y [m],p_RS_R_z [m]
1403636578963881984,4.7816159216180941,-1.8128481202995560,0.87542091438634835
1403636579000881920,4.7811475224177549,-1.8130467764954270,0.87484758608585219
1403636579022881280,4.7807530761485442,-1.8131922179613229,0.87462386853895402
1403636579062881792,4.7803654789330579,-1.8134101097082429,0.87424524644338404
1403636579114882048,4.7798673090869869,-1.8135705549560290,0.87355901578297739
";

const GROUND_TRUTH_YAML: &str = "\
# General sensor definitions.
sensor_type: visual-inertial
comment: The nonlinear least-squares batch solution over the Vicon pose and IMU measurements.

# Sensor extrinsics wrt. the body-frame.
T_BS:
  cols: 4
  rows: 4
  data: [1.0, 0.0, 0.0, 0.0,
         0.0, 1.0, 0.0, 0.0,
         0.0, 0.0, 1.0, 0.0,
         0.0, 0.0, 0.0, 1.0]
";

const GROUND_TRUTH_CSV: &str = "\
#timestamp, p_RS_R_x [m], p_RS_R_y [m], p_RS_R_z [m], q_RS_w [], q_RS_x [], q_RS_y [], q_RS_z [], v_RS_R_x [m s^-1], v_RS_R_y [m s^-1], v_RS_R_z [m s^-1], b_w_RS_S_x [rad s^-1], b_w_RS_S_y [rad s^-1], b_w_RS_S_z [rad s^-1], b_a_RS_S_x [m s^-2], b_a_RS_S_y [m s^-2], b_a_RS_S_z [m s^-2]
1403636580838555648,4.688319,-1.786938,0.783338,0.534108,-0.153029,-0.827383,-0.082152,-0.027876,0.033207,0.800006,-0.003172,0.021267,0.078502,-0.025266,0.136696,0.075593
1403636580843555328,4.688177,-1.786770,0.787350,0.534640,-0.152990,-0.826976,-0.082863,-0.029272,0.033992,0.804771,-0.003172,0.021267,0.078502,-0.025266,0.136696,0.075593
1403636580848555520,4.688028,-1.786598,0.791382,0.535178,-0.152945,-0.826562,-0.083605,-0.030043,0.034999,0.808240,-0.003172,0.021267,0.078502,-0.025266,0.136696,0.075593
1403636580853555456,4.687878,-1.786421,0.795429,0.535715,-0.152884,-0.826146,-0.084391,-0.030230,0.035853,0.810462,-0.003172,0.021267,0.078502,-0.025266,0.136696,0.075593
1403636580858555648,4.687727,-1.786240,0.799484,0.536244,-0.152821,-0.825731,-0.085213,-0.029905,0.036316,0.811406,-0.003172,0.021267,0.078502,-0.025266,0.136696,0.075593
";

fn dir(path: &str) -> Entry {
    Entry { path: path.to_string(), data: None }
}

fn file(path: &str, data: &[u8]) -> Entry {
    Entry { path: path.to_string(), data: Some(data.to_vec()) }
}

fn png(width: u32, height: u32) -> Vec<u8> {
    let mut bytes = Vec::new();
    image::DynamicImage::new_luma8(width, height)
        .write_to(&mut Cursor::new(&mut bytes), image::ImageFormat::Png)
        .unwrap();
    bytes
}

fn camera(entries: &mut Vec<Entry>, folder: &str) {
    let picture = png(752, 480);
    entries.push(dir(folder));
    entries.push(dir(&format!("{}/data", folder)));
    entries.push(file(&format!("{}/data.csv", folder), CAMERA_CSV.as_bytes()));
    entries.push(file(&format!("{}/sensor.yaml", folder), CAMERA_YAML.as_bytes()));
    for row in CAMERA_CSV.lines().skip(1) {
        let name = row.split(',').nth(1).unwrap();
        entries.push(file(&format!("{}/data/{}", folder, name), &picture));
    }
}

fn sensor(entries: &mut Vec<Entry>, folder: &str, yaml: &str, csv: &str) {
    entries.push(dir(folder));
    entries.push(file(&format!("{}/data.csv", folder), csv.as_bytes()));
    entries.push(file(&format!("{}/sensor.yaml", folder), yaml.as_bytes()));
}

fn test_data() -> Snapshot {
    let mut entries = vec![dir("test_data")];
    camera(&mut entries, "test_data/cam0");
    camera(&mut entries, "test_data/cam1");
    sensor(&mut entries, "test_data/imu0", IMU_YAML, IMU_CSV);
    sensor(&mut entries, "test_data/leica0", POSITION_YAML, POSITION_CSV);
    sensor(
        &mut entries,
        "test_data/state_groundtruth_estimate0",
        GROUND_TRUTH_YAML,
        GROUND_TRUTH_CSV,
    );
    Snapshot { entries }
}

fn without(files: Snapshot, path: &str) -> Snapshot {
    Snapshot { entries: files.entries.into_iter().filter(|e| e.path != path).collect() }
}

fn with_file(files: Snapshot, path: &str, data: &[u8]) -> Snapshot {
    let mut entries = vec![file(path, data)];
    entries.extend(files.entries);
    Snapshot { entries }
}

fn number(value: &Real) -> f64 {
    value.as_str().parse().unwrap()
}

fn vector3(v: &Vector3) -> na::Vector3<f64> {
    na::Vector3::new(number(&v.x), number(&v.y), number(&v.z))
}

fn matrix3(m: &Matrix3) -> na::Matrix3<f64> {
    na::Matrix3::from_rows(&[
        na::RowVector3::new(number(&m.m11), number(&m.m12), number(&m.m13)),
        na::RowVector3::new(number(&m.m21), number(&m.m22), number(&m.m23)),
        na::RowVector3::new(number(&m.m31), number(&m.m32), number(&m.m33)),
    ])
}

fn matrix4(m: &Matrix4) -> na::Matrix4<f64> {
    na::Matrix4::from_rows(&[
        na::RowVector4::new(number(&m.m11), number(&m.m12), number(&m.m13), number(&m.m14)),
        na::RowVector4::new(number(&m.m21), number(&m.m22), number(&m.m23), number(&m.m24)),
        na::RowVector4::new(number(&m.m31), number(&m.m32), number(&m.m33), number(&m.m34)),
        na::RowVector4::new(number(&m.m41), number(&m.m42), number(&m.m43), number(&m.m44)),
    ])
}

#[test]
fn image_size() {
    let files = test_data();
    let data = EuRoC::new("test_data", &files).unwrap().left_camera().unwrap();
    assert_eq!(data.image_size().unwrap(), (752, 480));
}

#[test]
fn intrinsics() {
    let files = test_data();
    let data = EuRoC::new("test_data", &files).unwrap().left_camera().unwrap();
    let (fu, fv, cu, cv) = data.intrinsics().unwrap();
    assert_eq!(
        (number(&fu), number(&fv), number(&cu), number(&cv)),
        (458.654, 457.296, 367.215, 248.375)
    );
}

#[test]
fn camera_matrix() {
    let files = test_data();
    let data = EuRoC::new("test_data", &files).unwrap().left_camera().unwrap();
    assert_eq!(
        matrix3(&data.camera_matrix().unwrap()),
        na::Matrix3::from_rows(&[
            na::RowVector3::new(458.654, 0., 367.215),
            na::RowVector3::new(0., 457.296, 248.375),
            na::RowVector3::new(0.0, 0.0, 1.0),
        ])
    );
}

#[test]
fn distrotion_coeff() {
    let files = test_data();
    let data = EuRoC::new("test_data", &files).unwrap().left_camera().unwrap();
    let d = data.distrotion_coeff().unwrap();
    assert_eq!(
        na::Vector4::new(number(&d.x), number(&d.y), number(&d.z), number(&d.w)),
        na::Vector4::new(-0.28340811, 0.07395907, 0.00019359, 1.76187114e-05)
    );
}

#[test]
fn camera_extrinsics() {
    let files = test_data();
    let data = EuRoC::new("test_data", &files).unwrap().left_camera().unwrap();
    assert_eq!(
        matrix4(&data.extrinsics().unwrap()),
        na::Matrix4::from_rows(&[
            na::RowVector4::new(
                0.0148655429818,
                -0.999880929698,
                0.00414029679422,
                -0.0216401454975
            ),
            na::RowVector4::new(0.999557249008, 0.0149672133247, 0.025715529948, -0.064676986768,),
            na::RowVector4::new(
                -0.0257744366974,
                0.00375618835797,
                0.999660727178,
                0.00981073058949
            ),
            na::RowVector4::new(0.0, 0.0, 0.0, 1.0)
        ])
    );
}

#[test]
fn camera_records() {
    let files = test_data();
    let data = EuRoC::new("test_data", &files).unwrap().left_camera().unwrap();
    let mut records = data.records().unwrap();
    records.next();
    records.next();
    let record = records.next().unwrap().unwrap();

    assert_eq!(record.timestamp, 1403636579863555584.into());
    assert_eq!(record.image.dimensions(), (752, 480));

    assert_eq!(data.records().unwrap().collect().len(), 5);
}

#[test]
fn ground_truth_extrinsics() {
    let files = test_data();
    let data = EuRoC::new("test_data", &files).unwrap().ground_truth().unwrap();
    assert_eq!(matrix4(&data.extrinsics().unwrap()), na::Matrix4::identity());
}

#[test]
fn ground_truth_records() {
    let files = test_data();
    let data = EuRoC::new("test_data", &files).unwrap().ground_truth().unwrap();
    let mut records = data.records().unwrap();
    records.next();
    records.next();
    let record = records.next().unwrap().unwrap();

    assert_eq!(record.timestamp, 1403636580848555520.into());
    assert_eq!(vector3(&record.position), na::Vector3::new(4.688028, -1.786598, 0.791382));
    let q = &record.quaternion;
    assert_eq!(
        na::Quaternion::new(number(&q.w), number(&q.i), number(&q.j), number(&q.k)),
        na::Quaternion::new(0.535178, -0.152945, -0.826562, -0.083605)
    );
    assert_eq!(vector3(&record.velocity), na::Vector3::new(-0.030043, 0.034999, 0.808240));
    assert_eq!(vector3(&record.gyro), na::Vector3::new(-0.003172, 0.021267, 0.078502));
    assert_eq!(vector3(&record.accel), na::Vector3::new(-0.025266, 0.136696, 0.075593));

    assert_eq!(data.records().unwrap().collect().len(), 5);
}

#[test]
fn imu_extrinsics() {
    let files = test_data();
    let data = EuRoC::new("test_data", &files).unwrap().imu().unwrap();
    assert_eq!(matrix4(&data.extrinsics().unwrap()), na::Matrix4::identity());
}

#[test]
fn gyro_noise_density() {
    let files = test_data();
    let data = EuRoC::new("test_data", &files).unwrap().imu().unwrap();
    assert_eq!(number(&data.gyro_noise_density().unwrap()), 1.6968e-04);
}

#[test]
fn gyro_random_walk() {
    let files = test_data();
    let data = EuRoC::new("test_data", &files).unwrap().imu().unwrap();
    assert_eq!(number(&data.gyro_random_walk().unwrap()), 1.9393e-05);
}

#[test]
fn accel_noise_density() {
    let files = test_data();
    let data = EuRoC::new("test_data", &files).unwrap().imu().unwrap();
    assert_eq!(number(&data.accel_noise_density().unwrap()), 2.0000e-3);
}

#[test]
fn accel_random_walk() {
    let files = test_data();
    let data = EuRoC::new("test_data", &files).unwrap().imu().unwrap();
    assert_eq!(number(&data.accel_random_walk().unwrap()), 3.0000e-3);
}

#[test]
fn imu_records() {
    let files = test_data();
    let data = EuRoC::new("test_data", &files).unwrap().imu().unwrap();
    let mut records = data.records().unwrap();
    records.next();
    records.next();
    let record = records.next().unwrap().unwrap();

    assert_eq!(record.timestamp, 1403636579768555520.into());
    assert_eq!(
        vector3(&record.gyro),
        na::Vector3::new(-0.098436569812480182, 0.12775810124598494, 0.037699111843077518)
    );
    assert_eq!(
        vector3(&record.accel),
        na::Vector3::new(7.8861810416666662, -0.42495483333333334, -2.4353180833333332)
    );
    assert_eq!(data.records().unwrap().collect().len(), 5);
}

#[test]
fn right_camera() {
    let files = test_data();
    let _ = EuRoC::new("test_data", &files).unwrap().right_camera().unwrap();
}

#[test]
fn position_extrinsics() {
    let files = test_data();
    let data = EuRoC::new("test_data", &files).unwrap().position().unwrap();
    assert_eq!(
        matrix4(&data.extrinsics().unwrap()),
        na::Matrix4::from_rows(&[
            na::RowVector4::new(1.0, 0.0, 0.0, 7.48903e-02),
            na::RowVector4::new(0.0, 1.0, 0.0, -1.84772e-02),
            na::RowVector4::new(0.0, 0.0, 1.0, -1.20209e-01),
            na::RowVector4::new(0.0, 0.0, 0.0, 1.0)
        ])
    );
}

#[test]
fn position_records() {
    let files = test_data();
    let data = EuRoC::new("test_data", &files).unwrap().position().unwrap();
    let mut records = data.records().unwrap();
    records.next();
    records.next();
    let record = records.next().unwrap().unwrap();

    assert_eq!(record.timestamp, 1403636579022881280.into());
    assert_eq!(
        vector3(&record.position),
        na::Vector3::new(4.7807530761485442, -1.8131922179613229, 0.87462386853895402)
    );
    assert_eq!(data.records().unwrap().collect().len(), 5);
}

#[test]
fn timestamp_keeps_its_nanoseconds() {
    let t: Timestamp = 1403636579768555520.into();
    assert_eq!(t.nsecs(), 1403636579768555520);
    assert_eq!(Timestamp::from_nsecs(7), Timestamp::from(7));
    assert_eq!(Timestamp::from_nsecs(7).nsecs(), 7);
}

#[test]
fn timestamps_are_ordered_as_their_nanoseconds() {
    let samples = [0u64, 1, 2, 1403636579768555520, 1403636579768555521, u64::MAX];
    for a in samples {
        for b in samples {
            let (x, y) = (Timestamp::from(a), Timestamp::from(b));
            assert_eq!(x < y, a < b);
            assert_eq!(x <= y, a <= b);
            assert_eq!(x > y, a > b);
            assert_eq!(x >= y, a >= b);
            assert_eq!(x == y, a == b);
            assert_eq!(x.partial_cmp(&y), a.partial_cmp(&b));
            assert_eq!(x.cmp(&y), a.cmp(&b));
        }
    }
    let mut stamps: Vec<Timestamp> = vec![5.into(), 1.into(), 3.into()];
    stamps.sort();
    assert_eq!(stamps, vec![Timestamp::from(1), Timestamp::from(3), Timestamp::from(5)]);
}

#[test]
fn records_and_folders_can_be_copied() {
    let files = test_data();
    let root = EuRoC::new("test_data", &files).unwrap();
    let camera = root.left_camera().unwrap().clone();
    assert_eq!(camera.image_size().unwrap(), (752, 480));
    let frame = camera.records().unwrap().next().unwrap().unwrap();
    let copy = frame.clone();
    assert_eq!(copy.timestamp, frame.timestamp);
    assert_eq!(copy.image, frame.image);
    let sample = root.imu().unwrap().records().unwrap().next().unwrap().unwrap();
    let copy = sample.clone();
    assert_eq!(copy.timestamp, sample.timestamp);
    assert_eq!(copy.gyro.x.as_str(), sample.gyro.x.as_str());
    assert_eq!(copy.accel.z.as_str(), "-2.4026292499999999");
    let truth = root.ground_truth().unwrap().clone().records().unwrap().next().unwrap().unwrap();
    assert_eq!(truth.clone().quaternion.w.as_str(), "0.534108");
    let place = root.position().unwrap().clone().records().unwrap().next().unwrap().unwrap();
    assert_eq!(place.clone().position.y.as_str(), place.position.y.as_str());
    assert!(format!("{:?}", place).contains("1403636578963881984"));
    assert!(format!("{:?}", root).contains("test_data"));
}

#[test]
fn root_has_to_be_a_directory() {
    let files = test_data();
    assert_eq!(EuRoC::new("elsewhere", &files).err(), Some(ReadError::NotFound(Item::Root)));
    assert_eq!(
        EuRoC::new("test_data/imu0/data.csv", &files).err(),
        Some(ReadError::NotFound(Item::Root))
    );
}

#[test]
fn opening_names_what_the_folder_lacks() {
    let files = without(test_data(), "test_data/cam0");
    let root = EuRoC::new("test_data", &files).unwrap();
    assert_eq!(root.left_camera().err(), Some(ReadError::NotFound(Item::Folder)));
    assert!(root.right_camera().is_ok());

    let files = without(test_data(), "test_data/cam0/data");
    let root = EuRoC::new("test_data", &files).unwrap();
    assert_eq!(root.left_camera().err(), Some(ReadError::NotFound(Item::Images)));

    let files = without(test_data(), "test_data/cam0/data.csv");
    let root = EuRoC::new("test_data", &files).unwrap();
    assert_eq!(root.left_camera().err(), Some(ReadError::NotFound(Item::Log)));

    let files = without(test_data(), "test_data/imu0/sensor.yaml");
    let root = EuRoC::new("test_data", &files).unwrap();
    assert_eq!(root.imu().err(), Some(ReadError::NotFound(Item::Descriptor)));

    let files = without(test_data(), "test_data/leica0/data.csv");
    let root = EuRoC::new("test_data", &files).unwrap();
    assert_eq!(root.position().err(), Some(ReadError::NotFound(Item::Log)));

    let files = without(test_data(), "test_data/state_groundtruth_estimate0");
    let root = EuRoC::new("test_data", &files).unwrap();
    assert_eq!(root.ground_truth().err(), Some(ReadError::NotFound(Item::Folder)));
}

#[test]
fn a_folder_without_images_serves_every_sensor_but_a_camera() {
    let files = test_data();
    assert!(euroc::ImuData::new("test_data/imu0".to_string(), &files).is_ok());
    assert_eq!(
        euroc::CameraRecords::new("test_data/imu0".to_string(), &files).err(),
        Some(ReadError::NotFound(Item::Images))
    );
}

#[test]
fn accessors_read_the_same_twice() {
    let files = test_data();
    let data = EuRoC::new("test_data", &files).unwrap().left_camera().unwrap();
    assert_eq!(data.image_size(), data.image_size());
    let first = data.extrinsics().unwrap();
    let second = data.extrinsics().unwrap();
    assert_eq!(first.m14.as_str(), second.m14.as_str());
    assert_eq!(first.m14.as_str(), "-0.0216401454975");
    let imu = EuRoC::new("test_data", &files).unwrap().imu().unwrap();
    assert_eq!(
        imu.gyro_noise_density().unwrap().as_str(),
        imu.gyro_noise_density().unwrap().as_str()
    );
}

#[test]
fn records_come_in_the_order_of_the_log() {
    let files = test_data();
    let data = EuRoC::new("test_data", &files).unwrap().imu().unwrap();
    let stamps: Vec<u64> = data
        .records()
        .unwrap()
        .collect()
        .into_iter()
        .map(|r| r.unwrap().timestamp.nsecs())
        .collect();
    assert_eq!(
        stamps,
        vec![
            1403636579758555392,
            1403636579763555584,
            1403636579768555520,
            1403636579773555456,
            1403636579778555392
        ]
    );
}

#[test]
fn records_read_the_same_when_the_log_is_opened_again() {
    let files = test_data();
    let data = EuRoC::new("test_data", &files).unwrap().position().unwrap();
    let first = data.records().unwrap().collect();
    let second = data.records().unwrap().collect();
    assert_eq!(first.len(), second.len());
    for (a, b) in first.iter().zip(second.iter()) {
        let (a, b) = (a.as_ref().unwrap(), b.as_ref().unwrap());
        assert_eq!(a.timestamp, b.timestamp);
        assert_eq!(a.position.x.as_str(), b.position.x.as_str());
        assert_eq!(a.position.y.as_str(), b.position.y.as_str());
        assert_eq!(a.position.z.as_str(), b.position.z.as_str());
    }
}

#[test]
fn the_end_of_the_log_is_no_error() {
    let files = test_data();
    let data = EuRoC::new("test_data", &files).unwrap().position().unwrap();
    let mut records = data.records().unwrap();
    for _ in 0..5 {
        assert!(records.next().unwrap().is_ok());
    }
    assert!(records.next().is_none());
    assert!(records.next().is_none());
}

#[test]
fn a_log_of_a_header_alone_has_no_records() {
    let files = with_file(test_data(), "test_data/imu0/data.csv", b"#timestamp [ns],w_x\n");
    let data = EuRoC::new("test_data", &files).unwrap().imu().unwrap();
    assert!(data.records().unwrap().next().is_none());
    let files = with_file(test_data(), "test_data/imu0/data.csv", b"");
    let data = EuRoC::new("test_data", &files).unwrap().imu().unwrap();
    assert_eq!(data.records().unwrap().collect().len(), 0);
}

#[test]
fn a_bad_column_fails_its_row_alone() {
    let log = "#t,x,y,z\n1,0.5,oops,2\n2,1,2,3\n3,1,2\n4,1e3,-.5,+7.\n";
    let files = with_file(test_data(), "test_data/leica0/data.csv", log.as_bytes());
    let data = EuRoC::new("test_data", &files).unwrap().position().unwrap();
    let mut records = data.records().unwrap();
    assert_eq!(
        records.next().unwrap().err(),
        Some(ReadError::Malformed(Flaw::Column { row: 0, column: 2 }))
    );
    let second = records.next().unwrap().unwrap();
    assert_eq!(second.timestamp.nsecs(), 2);
    assert_eq!(vector3(&second.position), na::Vector3::new(1.0, 2.0, 3.0));
    assert_eq!(records.next().unwrap().err(), Some(ReadError::Io(Source::Row(2))));
    let fourth = records.next().unwrap().unwrap();
    assert_eq!(vector3(&fourth.position), na::Vector3::new(1000.0, -0.5, 7.0));
    assert!(records.next().is_none());
}

#[test]
fn a_bad_timestamp_is_a_bad_first_column() {
    let log = "#t,x,y,z\n-1,1,2,3\n18446744073709551616,1,2,3\n18446744073709551615,1,2,3\n";
    let files = with_file(test_data(), "test_data/leica0/data.csv", log.as_bytes());
    let data = EuRoC::new("test_data", &files).unwrap().position().unwrap();
    let all = data.records().unwrap().collect();
    assert_eq!(all.len(), 3);
    assert_eq!(
        all[0].as_ref().err(),
        Some(&ReadError::Malformed(Flaw::Column { row: 0, column: 0 }))
    );
    assert_eq!(
        all[1].as_ref().err(),
        Some(&ReadError::Malformed(Flaw::Column { row: 1, column: 0 }))
    );
    assert_eq!(all[2].as_ref().unwrap().timestamp.nsecs(), u64::MAX);
}

#[test]
fn a_short_log_lacks_columns() {
    let log = "#t,x\n1,2\n";
    let files = with_file(test_data(), "test_data/leica0/data.csv", log.as_bytes());
    let data = EuRoC::new("test_data", &files).unwrap().position().unwrap();
    assert_eq!(
        data.records().unwrap().next().unwrap().err(),
        Some(ReadError::Malformed(Flaw::Column { row: 0, column: 2 }))
    );
}

#[test]
fn an_image_fails_alone() {
    let log = "#t,name\n1,gone.png\n2,notes.txt\n3,broken.png\nx,1403636579763555584.png\n5\n6,1403636579763555584.png\n";
    let files = with_file(test_data(), "test_data/cam0/data.csv", log.as_bytes());
    let files = with_file(files, "test_data/cam0/data/notes.txt", b"text");
    let files = with_file(files, "test_data/cam0/data/broken.png", b"no picture");
    let data = EuRoC::new("test_data", &files).unwrap().left_camera().unwrap();
    let mut records = data.records().unwrap();
    assert_eq!(records.next().unwrap().err(), Some(ReadError::Io(Source::Image(0))));
    assert_eq!(records.next().unwrap().err(), Some(ReadError::Malformed(Flaw::Image(1))));
    assert_eq!(records.next().unwrap().err(), Some(ReadError::Malformed(Flaw::Image(2))));
    assert_eq!(
        records.next().unwrap().err(),
        Some(ReadError::Malformed(Flaw::Column { row: 3, column: 0 }))
    );
    assert_eq!(records.next().unwrap().err(), Some(ReadError::Io(Source::Row(4))));
    let last = records.next().unwrap().unwrap();
    assert_eq!(last.timestamp.nsecs(), 6);
    assert_eq!(last.image.dimensions(), (752, 480));
    assert!(records.next().is_none());
}

#[test]
fn a_missing_field_leaves_the_others() {
    let yaml = "resolution: [752, 480]\nintrinsics: [458.654, 457.296, 367.215, 248.375]\n";
    let files = with_file(test_data(), "test_data/cam0/sensor.yaml", yaml.as_bytes());
    let data = EuRoC::new("test_data", &files).unwrap().left_camera().unwrap();
    assert_eq!(
        data.extrinsics().err(),
        Some(ReadError::Malformed(Flaw::Absent(Key::Extrinsics)))
    );
    assert_eq!(
        data.distrotion_coeff().err(),
        Some(ReadError::Malformed(Flaw::Absent(Key::Distortion)))
    );
    assert_eq!(data.image_size().unwrap(), (752, 480));
    assert_eq!(number(&data.intrinsics().unwrap().0), 458.654);
}

#[test]
fn a_descriptor_has_to_be_text_with_a_document() {
    let files = with_file(test_data(), "test_data/imu0/sensor.yaml", b"");
    let data = EuRoC::new("test_data", &files).unwrap().imu().unwrap();
    assert_eq!(data.extrinsics().err(), Some(ReadError::Malformed(Flaw::Document)));
    let files = with_file(test_data(), "test_data/imu0/sensor.yaml", b"a: [1, 2");
    let data = EuRoC::new("test_data", &files).unwrap().imu().unwrap();
    assert_eq!(data.gyro_random_walk().err(), Some(ReadError::Malformed(Flaw::Document)));
    let files = with_file(test_data(), "test_data/imu0/sensor.yaml", &[0xff, 0xfe]);
    let data = EuRoC::new("test_data", &files).unwrap().imu().unwrap();
    assert_eq!(data.accel_random_walk().err(), Some(ReadError::Io(Source::Descriptor)));
}

#[test]
fn fields_are_held_to_their_shape() {
    let yaml = "\
resolution: [752, 480, 3]
intrinsics: [458.654, 457, 367.215, 248.375]
distortion_coefficients: 0.5
T_BS:
  data: [1.0, 0.0]
gyroscope_noise_density: fast
gyroscope_random_walk: 2
accelerometer_noise_density: .inf
accelerometer_random_walk: -.INF
";
    let files = with_file(test_data(), "test_data/cam0/sensor.yaml", yaml.as_bytes());
    let files = with_file(files, "test_data/imu0/sensor.yaml", yaml.as_bytes());
    let root = EuRoC::new("test_data", &files).unwrap();
    let data = root.left_camera().unwrap();
    assert_eq!(
        data.image_size().err(),
        Some(ReadError::Malformed(Flaw::Length(Key::Resolution)))
    );
    assert_eq!(
        data.intrinsics().err(),
        Some(ReadError::Malformed(Flaw::Shape(Key::Intrinsics)))
    );
    assert_eq!(
        data.camera_matrix().err(),
        Some(ReadError::Malformed(Flaw::Shape(Key::Intrinsics)))
    );
    assert_eq!(
        data.distrotion_coeff().err(),
        Some(ReadError::Malformed(Flaw::Shape(Key::Distortion)))
    );
    assert_eq!(
        data.extrinsics().err(),
        Some(ReadError::Malformed(Flaw::Length(Key::Extrinsics)))
    );
    let imu = root.imu().unwrap();
    assert_eq!(
        imu.gyro_noise_density().err(),
        Some(ReadError::Malformed(Flaw::Shape(Key::GyroNoiseDensity)))
    );
    assert_eq!(
        imu.gyro_random_walk().err(),
        Some(ReadError::Malformed(Flaw::Shape(Key::GyroRandomWalk)))
    );
    assert_eq!(imu.accel_noise_density().unwrap().as_str(), ".inf");
    assert_eq!(imu.accel_random_walk().unwrap().as_str(), "-.INF");
}

#[test]
fn a_resolution_has_to_fit() {
    let files =
        with_file(test_data(), "test_data/cam0/sensor.yaml", b"resolution: [4294967296, 480]\n");
    let data = EuRoC::new("test_data", &files).unwrap().left_camera().unwrap();
    assert_eq!(data.image_size().err(), Some(ReadError::OutOfRange(Key::Resolution)));
    let files = with_file(test_data(), "test_data/cam0/sensor.yaml", b"resolution: [752, -1]\n");
    let data = EuRoC::new("test_data", &files).unwrap().left_camera().unwrap();
    assert_eq!(data.image_size().err(), Some(ReadError::OutOfRange(Key::Resolution)));
    let files =
        with_file(test_data(), "test_data/cam0/sensor.yaml", b"resolution: [4294967295, 0]\n");
    let data = EuRoC::new("test_data", &files).unwrap().left_camera().unwrap();
    assert_eq!(data.image_size().unwrap(), (4294967295, 0));
    let files = with_file(test_data(), "test_data/cam0/sensor.yaml", b"resolution: [7.5, -1]\n");
    let data = EuRoC::new("test_data", &files).unwrap().left_camera().unwrap();
    assert_eq!(
        data.image_size().err(),
        Some(ReadError::Malformed(Flaw::Shape(Key::Resolution)))
    );
}

#[test]
fn a_damaged_image_fails_its_row_alone() {
    let whole = png(64, 48);
    let mut entries = vec![dir("c"), dir("c/data"), file("c/sensor.yaml", b"a: 1\n")];
    let mut log = String::from("#t,name\n");
    for cut in 0..whole.len() {
        entries.push(file(&format!("c/data/cut{}.png", cut), &whole[..cut]));
        log.push_str(&format!("{},cut{}.png\n", cut, cut));
    }
    for at in 0..whole.len() {
        let mut bytes = whole.clone();
        bytes[at] ^= 0x55;
        entries.push(file(&format!("c/data/flip{}.png", at), &bytes));
        log.push_str(&format!("{},flip{}.png\n", at, at));
    }
    entries.push(file("c/data/whole.png", &whole));
    log.push_str("7,whole.png\n");
    entries.push(file("c/data.csv", log.as_bytes()));
    let files = Snapshot { entries };
    let data = euroc::CameraRecords::new("c".to_string(), &files).unwrap();
    let all = data.records().unwrap().collect();
    assert_eq!(all.len(), 2 * whole.len() + 1);
    for (row, item) in all.iter().enumerate().take(2 * whole.len()) {
        match item {
            Ok(record) => {
                assert_eq!(record.timestamp.nsecs(), (row % whole.len()) as u64);
                assert_eq!(record.image.dimensions(), (64, 48));
            }
            Err(e) => assert_eq!(*e, ReadError::Malformed(Flaw::Image(row as u64))),
        }
    }
    assert!(all[0].is_err());
    assert!(all[whole.len() / 2].is_err());
    let last = all[2 * whole.len()].as_ref().unwrap();
    assert_eq!(last.image.dimensions(), (64, 48));
}
