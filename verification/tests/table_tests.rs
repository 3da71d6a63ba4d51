use nusc_tables::common::{SensorChannel, SensorModality};
use nusc_tables::domain::Sensor;
use nusc_tables::geom::{EmptyMatrix3AsNone, Mat3, MatrixError, Vec3};
use nusc_tables::table::Table;

fn sensor(token: u128, channel: SensorChannel, modality: SensorModality) -> Sensor {
    Sensor { token, channel, modality }
}

#[test]
fn lookup_finds_each_present_token() {
    let rows = vec![
        sensor(1, SensorChannel::CamFront, SensorModality::Camera),
        sensor(2, SensorChannel::LidarTop, SensorModality::Lidar),
        sensor(3, SensorChannel::RadarFront, SensorModality::Radar),
    ];
    let t = Table::new(rows);
    assert_eq!(t.len(), 3);
    for tok in 1u128..=3 {
        let rec = t.get(tok).expect("present token");
        assert_eq!(rec.token, tok);
    }
}

#[test]
fn lookup_of_absent_token_is_none() {
    let t = Table::new(vec![sensor(7, SensorChannel::CamBack, SensorModality::Camera)]);
    assert!(t.get(8).is_none());
    assert!(t.get(0).is_none());
}

#[test]
fn duplicate_token_last_row_wins() {
    let rows = vec![
        sensor(5, SensorChannel::CamFront, SensorModality::Camera),
        sensor(5, SensorChannel::LidarTop, SensorModality::Lidar),
    ];
    let t = Table::new(rows);
    let rec = t.get(5).expect("present token");
    assert_eq!(rec.channel, SensorChannel::LidarTop);
    assert_eq!(t.len(), 2);
}

#[test]
fn scan_preserves_source_order() {
    let rows = vec![
        sensor(9, SensorChannel::CamFront, SensorModality::Camera),
        sensor(4, SensorChannel::LidarTop, SensorModality::Lidar),
        sensor(6, SensorChannel::RadarFront, SensorModality::Radar),
    ];
    let t = Table::new(rows);
    assert_eq!(t.at(0).token, 9);
    assert_eq!(t.at(1).token, 4);
    assert_eq!(t.at(2).token, 6);
}

#[test]
fn empty_matrix_rows_mean_absent() {
    assert_eq!(EmptyMatrix3AsNone::convert(&vec![]), Ok(None));
}

#[test]
fn three_matrix_rows_form_a_matrix() {
    let r0 = Vec3 { x: 1, y: 2, z: 3 };
    let r1 = Vec3 { x: 4, y: 5, z: 6 };
    let r2 = Vec3 { x: 7, y: 8, z: 9 };
    assert_eq!(EmptyMatrix3AsNone::convert(&vec![r0, r1, r2]), Ok(Some(Mat3 { r0, r1, r2 })));
}

#[test]
fn other_matrix_row_counts_are_malformed() {
    let r = Vec3 { x: 0, y: 0, z: 0 };
    assert_eq!(EmptyMatrix3AsNone::convert(&vec![r]), Err(MatrixError::NotThreeByThree));
    assert_eq!(EmptyMatrix3AsNone::convert(&vec![r, r]), Err(MatrixError::NotThreeByThree));
    assert_eq!(
        EmptyMatrix3AsNone::convert(&vec![r, r, r, r]),
        Err(MatrixError::NotThreeByThree)
    );
}
