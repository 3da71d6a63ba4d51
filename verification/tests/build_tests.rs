use nusc_tables::common::{SensorChannel, SensorModality, Visibility};
use nusc_tables::error::{BuildError, QueryError, SourceId};
use nusc_tables::geom::{Vec3, Vec4};
use nusc_tables::model::{
    AttributeModel, CalibratedSensorModel, CategoryModel, EgoPoseModel, InstanceModel, LogModel,
    MapModel, SampleAnnotationModel, SampleDataModel, SampleModel, SceneModel, SensorModel,
};
use nusc_tables::nusc::{RawSources, RecordRef, SourceOutcome, Tables};
use nusc_tables::token::encode_hex;

const MAP: u128 = 0x100;
const LOG1: u128 = 0x1;
const LOG2: u128 = 0x2;
const SEN_CAM: u128 = 0x10;
const SEN_LIDAR: u128 = 0x11;
const CAL_CAM: u128 = 0x20;
const CAL_LIDAR: u128 = 0x21;
const EGO1: u128 = 0x30;
const SCENE: u128 = 0x40;
const SMP1: u128 = 0x50;
const SMP2: u128 = 0x51;
const SD1: u128 = 0x60;
const SD2: u128 = 0x61;
const SD3: u128 = 0x62;
const INS: u128 = 0x70;
const CAT: u128 = 0x80;
const ATTR: u128 = 0x90;
const ANN1: u128 = 0xa0;
const ANN2: u128 = 0xa1;
const ANN3: u128 = 0xa2;

fn v3() -> Vec3 {
    Vec3 { x: 0, y: 0, z: 0 }
}

fn v4() -> Vec4 {
    Vec4 { x: 0, y: 0, z: 0, w: 0x3f800000 }
}

fn log_model(token: u128) -> LogModel {
    LogModel {
        token,
        logfile: String::from("logfile"),
        vehicle: String::from("n015"),
        date_captured: String::from("2018-08-01"),
        location: String::from("singapore-onenorth"),
    }
}

fn sample_data_model(token: u128, sample_token: u128, calibrated_sensor_token: u128)
    -> SampleDataModel {
    SampleDataModel {
        token,
        sample_token,
        ego_pose_token: EGO1,
        calibrated_sensor_token,
        prev: None,
        next: None,
        fileformat: String::from("jpg"),
        filename: String::from("sweeps/file.jpg"),
        timestamp: 1_532_402_927_612_460,
        is_key_frame: true,
        height: 900,
        width: 1600,
    }
}

fn annotation_model(token: u128, sample_token: u128) -> SampleAnnotationModel {
    SampleAnnotationModel {
        token,
        sample_token,
        instance_token: INS,
        attribute_tokens: vec![ATTR],
        prev: None,
        next: None,
        visibility: Visibility::V80_100,
        translation: v3(),
        rotation: v4(),
        size: v3(),
        num_lidar_pts: 12,
        num_radar_pts: 3,
    }
}

fn sources() -> RawSources {
    RawSources {
        logs: SourceOutcome::Rows(vec![log_model(LOG1), log_model(LOG2)]),
        maps: SourceOutcome::Rows(vec![MapModel {
            token: MAP,
            log_tokens: vec![LOG1, LOG2],
            category: String::from("semantic_prior"),
            filename: String::from("maps/map.png"),
        }]),
        sensors: SourceOutcome::Rows(vec![
            SensorModel {
                token: SEN_CAM,
                channel: SensorChannel::CamFront,
                modality: SensorModality::Camera,
            },
            SensorModel {
                token: SEN_LIDAR,
                channel: SensorChannel::LidarTop,
                modality: SensorModality::Lidar,
            },
        ]),
        calibrated_sensors: SourceOutcome::Rows(vec![
            CalibratedSensorModel {
                token: CAL_CAM,
                sensor_token: SEN_CAM,
                translation: v3(),
                rotation: v4(),
                camera_intrinsic: None,
            },
            CalibratedSensorModel {
                token: CAL_LIDAR,
                sensor_token: SEN_LIDAR,
                translation: v3(),
                rotation: v4(),
                camera_intrinsic: None,
            },
        ]),
        scenes: SourceOutcome::Rows(vec![SceneModel {
            token: SCENE,
            log_token: LOG1,
            name: String::from("scene-0001"),
            description: String::from("a short scene"),
            nbr_samples: 2,
            first_sample_token: SMP1,
            last_sample_token: SMP2,
        }]),
        samples: SourceOutcome::Rows(vec![
            SampleModel {
                token: SMP1,
                scene_token: SCENE,
                prev: None,
                next: Some(SMP2),
                timestamp: 100,
            },
            SampleModel {
                token: SMP2,
                scene_token: SCENE,
                prev: Some(SMP1),
                next: None,
                timestamp: 200,
            },
        ]),
        sample_data: SourceOutcome::Rows(vec![
            sample_data_model(SD1, SMP1, CAL_CAM),
            sample_data_model(SD2, SMP1, CAL_LIDAR),
            sample_data_model(SD3, SMP2, CAL_CAM),
        ]),
        ego_poses: SourceOutcome::Rows(vec![EgoPoseModel {
            token: EGO1,
            timestamp: 100,
            translation: v3(),
            rotation: v4(),
        }]),
        instances: SourceOutcome::Rows(vec![InstanceModel {
            token: INS,
            category_token: CAT,
            nbr_annotations: 3,
            first_annotation_token: ANN1,
            last_annotation_token: ANN3,
        }]),
        sample_annotations: SourceOutcome::Rows(vec![
            annotation_model(ANN1, SMP1),
            annotation_model(ANN2, SMP1),
            annotation_model(ANN3, SMP2),
        ]),
        categories: SourceOutcome::Rows(vec![CategoryModel {
            token: CAT,
            name: String::from("vehicle.car"),
            description: String::from("a car"),
            index: None,
        }]),
        attributes: SourceOutcome::Rows(vec![AttributeModel {
            token: ATTR,
            name: String::from("vehicle.moving"),
            description: String::from("the vehicle is moving"),
        }]),
        lidarseg: SourceOutcome::Missing,
        panoptic: SourceOutcome::Missing,
    }
}

fn hex(token: u128) -> String {
    String::from_utf8(encode_hex(token)).expect("hex is ascii")
}

#[test]
fn open_succeeds_on_consistent_sources() {
    let t = Tables::new("v1.0-mini", "/data/sets/nuscenes", sources()).expect("build");
    assert_eq!(t.version().as_str(), "v1.0-mini");
    assert_eq!(t.dataroot().as_str(), "/data/sets/nuscenes");
    assert_eq!(t.log().len(), 2);
    assert_eq!(t.map().len(), 1);
    assert_eq!(t.sensor().len(), 2);
    assert_eq!(t.calibrated_sensor().len(), 2);
    assert_eq!(t.scene().len(), 1);
    assert_eq!(t.sample().len(), 2);
    assert_eq!(t.sample_data().len(), 3);
    assert_eq!(t.ego_pose().len(), 1);
    assert_eq!(t.instance().len(), 1);
    assert_eq!(t.sample_annotation().len(), 3);
    assert_eq!(t.category().len(), 1);
    assert_eq!(t.attribute().len(), 1);
}

#[test]
fn missing_sample_source_aborts_with_its_file() {
    let mut s = sources();
    s.samples = SourceOutcome::Missing;
    let r = Tables::new("v1.0-mini", "/data", s);
    assert_eq!(r.err(), Some(BuildError::NotFoundSource(SourceId::Sample)));
    assert_eq!(SourceId::Sample.file_name(), "sample.json");
}

#[test]
fn missing_lidarseg_source_is_tolerated() {
    let t = Tables::new("v1.0-mini", "/data", sources()).expect("build");
    assert!(t.lidarseg().is_none());
    assert!(t.panoptic().is_none());
    let r = t.get("lidarseg", &hex(SD1));
    assert_eq!(r.err(), Some(QueryError::TableUnavailable(SourceId::Lidarseg)));
}

#[test]
fn malformed_source_aborts_with_its_table() {
    let mut s = sources();
    s.maps = SourceOutcome::Malformed;
    let r = Tables::new("v1.0-mini", "/data", s);
    assert_eq!(r.err(), Some(BuildError::Malformed(SourceId::MapTable)));
}

#[test]
fn source_errors_follow_canonical_order() {
    let mut s = sources();
    s.samples = SourceOutcome::Missing;
    s.scenes = SourceOutcome::Missing;
    let r = Tables::new("v1.0-mini", "/data", s);
    assert_eq!(r.err(), Some(BuildError::NotFoundSource(SourceId::Scene)));
}

#[test]
fn log_points_back_at_owning_map() {
    let t = Tables::new("v1.0-mini", "/data", sources()).expect("build");
    let l1 = t.log().get(LOG1).expect("log present");
    let l2 = t.log().get(LOG2).expect("log present");
    assert_eq!(l1.map_token, MAP);
    assert_eq!(l2.map_token, MAP);
}

#[test]
fn unowned_log_is_an_unresolved_reference() {
    let mut s = sources();
    s.maps = SourceOutcome::Rows(vec![MapModel {
        token: MAP,
        log_tokens: vec![LOG1],
        category: String::from("semantic_prior"),
        filename: String::from("maps/map.png"),
    }]);
    let r = Tables::new("v1.0-mini", "/data", s);
    assert_eq!(
        r.err(),
        Some(BuildError::UnresolvedReference { table: SourceId::MapTable, token: LOG2 })
    );
}

#[test]
fn capture_carries_sensor_modality_and_channel() {
    let t = Tables::new("v1.0-mini", "/data", sources()).expect("build");
    let d1 = t.sample_data().get(SD1).expect("capture present");
    assert_eq!(d1.modality, SensorModality::Camera);
    assert_eq!(d1.channel, SensorChannel::CamFront);
    let d2 = t.sample_data().get(SD2).expect("capture present");
    assert_eq!(d2.modality, SensorModality::Lidar);
    assert_eq!(d2.channel, SensorChannel::LidarTop);
}

#[test]
fn dangling_calibrated_sensor_is_reported() {
    let mut s = sources();
    s.sample_data = SourceOutcome::Rows(vec![sample_data_model(SD1, SMP1, 0xdead)]);
    let r = Tables::new("v1.0-mini", "/data", s);
    assert_eq!(
        r.err(),
        Some(BuildError::UnresolvedReference {
            table: SourceId::CalibratedSensor,
            token: 0xdead,
        })
    );
}

#[test]
fn annotation_caches_category_name() {
    let t = Tables::new("v1.0-mini", "/data", sources()).expect("build");
    let a = t.sample_annotation().get(ANN1).expect("annotation present");
    assert_eq!(a.category_name.as_str(), "vehicle.car");
    assert_eq!(a.visibility, Visibility::V80_100);
}

#[test]
fn dangling_instance_is_reported() {
    let mut s = sources();
    s.sample_annotations = SourceOutcome::Rows(vec![annotation_model(ANN1, SMP1)]);
    s.instances = SourceOutcome::Rows(vec![]);
    let r = Tables::new("v1.0-mini", "/data", s);
    assert_eq!(
        r.err(),
        Some(BuildError::UnresolvedReference { table: SourceId::Instance, token: INS })
    );
}

#[test]
fn sample_slots_hold_each_channel_capture() {
    let t = Tables::new("v1.0-mini", "/data", sources()).expect("build");
    let s1 = t.sample().get(SMP1).expect("sample present");
    assert_eq!(s1.data.get(SensorChannel::CamFront), SD1);
    assert_eq!(s1.data.get(SensorChannel::LidarTop), SD2);
    assert_eq!(s1.data.get(SensorChannel::RadarFront), 0);
    let s2 = t.sample().get(SMP2).expect("sample present");
    assert_eq!(s2.data.get(SensorChannel::CamFront), SD3);
    assert_eq!(s2.data.get(SensorChannel::LidarTop), 0);
}

#[test]
fn same_channel_twice_keeps_last_capture() {
    let mut s = sources();
    s.sample_data = SourceOutcome::Rows(vec![
        sample_data_model(SD1, SMP1, CAL_CAM),
        sample_data_model(SD2, SMP1, CAL_CAM),
    ]);
    let t = Tables::new("v1.0-mini", "/data", s).expect("build");
    let s1 = t.sample().get(SMP1).expect("sample present");
    assert_eq!(s1.data.get(SensorChannel::CamFront), SD2);
}

#[test]
fn sample_annotation_sets_group_by_sample() {
    let t = Tables::new("v1.0-mini", "/data", sources()).expect("build");
    let s1 = t.sample().get(SMP1).expect("sample present");
    assert_eq!(s1.anns, vec![ANN1, ANN2]);
    let s2 = t.sample().get(SMP2).expect("sample present");
    assert_eq!(s2.anns, vec![ANN3]);
}

#[test]
fn query_finds_record_by_table_and_token() {
    let t = Tables::new("v1.0-mini", "/data", sources()).expect("build");
    let r = t.get("category", &hex(CAT));
    assert!(matches!(r, Ok(RecordRef::Category(c)) if c.token == CAT));
    let r = t.get("log", &hex(LOG1));
    assert!(matches!(r, Ok(RecordRef::Log(l)) if l.map_token == MAP));
    let r = t.get("sample_data", &hex(SD2));
    assert!(matches!(r, Ok(RecordRef::SampleData(d)) if d.channel == SensorChannel::LidarTop));
}

#[test]
fn query_of_absent_token_is_not_found() {
    let t = Tables::new("v1.0-mini", "/data", sources()).expect("build");
    let r = t.get("category", "00000000000000000000000000000000");
    assert_eq!(r.err(), Some(QueryError::NotFoundRecord(0)));
}

#[test]
fn query_of_unknown_table_is_reported() {
    let t = Tables::new("v1.0-mini", "/data", sources()).expect("build");
    let r = t.get("velocity", &hex(CAT));
    assert_eq!(r.err(), Some(QueryError::UnknownTable));
}

#[test]
fn query_with_malformed_token_is_reported() {
    let t = Tables::new("v1.0-mini", "/data", sources()).expect("build");
    assert_eq!(t.get("category", "xyz").err(), Some(QueryError::MalformedToken));
    assert_eq!(t.get("category", "").err(), Some(QueryError::MalformedToken));
    assert_eq!(
        t.get("velocity", "xyz").err(),
        Some(QueryError::MalformedToken),
    );
}

#[test]
fn reopening_with_same_identity_reproduces_the_snapshot() {
    let a = Tables::new("v1.0-mini", "/data", sources()).expect("build");
    let b = Tables::new(a.version().as_str(), a.dataroot().as_str(), sources()).expect("build");
    assert_eq!(a.version(), b.version());
    assert_eq!(a.dataroot(), b.dataroot());
    assert_eq!(a.sample().len(), b.sample().len());
    let sa = a.sample().get(SMP1).expect("sample present");
    let sb = b.sample().get(SMP1).expect("sample present");
    assert_eq!(sa.anns, sb.anns);
    assert_eq!(
        sa.data.get(SensorChannel::CamFront),
        sb.data.get(SensorChannel::CamFront),
    );
}

#[test]
fn scan_hands_out_each_table_in_source_order() {
    let t = Tables::new("v1.0-mini", "/data", sources()).expect("build");
    match t.scan("log") {
        Ok(nusc_tables::nusc::TableRef::Log(tab)) => {
            assert_eq!(tab.len(), 2);
            assert_eq!(tab.at(0).token, LOG1);
            assert_eq!(tab.at(1).token, LOG2);
        },
        _ => panic!("expected the log table"),
    }
    match t.scan("sample_annotation") {
        Ok(nusc_tables::nusc::TableRef::SampleAnnotation(tab)) => {
            assert_eq!(tab.len(), 3);
            assert_eq!(tab.at(0).token, ANN1);
        },
        _ => panic!("expected the annotation table"),
    }
}

#[test]
fn scan_of_unknown_or_unavailable_table_is_reported() {
    let t = Tables::new("v1.0-mini", "/data", sources()).expect("build");
    assert!(matches!(t.scan("velocity"), Err(QueryError::UnknownTable)));
    assert!(matches!(
        t.scan("panoptic"),
        Err(QueryError::TableUnavailable(SourceId::Panoptic))
    ));
}
