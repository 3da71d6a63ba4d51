use nusc_tables::common::{str_eq, SensorChannel, SensorModality, Visibility};

const CHANNELS: [SensorChannel; 12] = [
    SensorChannel::CamBack,
    SensorChannel::CamBackLeft,
    SensorChannel::CamBackRight,
    SensorChannel::CamFront,
    SensorChannel::CamFrontLeft,
    SensorChannel::CamFrontRight,
    SensorChannel::LidarTop,
    SensorChannel::RadarBackLeft,
    SensorChannel::RadarBackRight,
    SensorChannel::RadarFront,
    SensorChannel::RadarFrontLeft,
    SensorChannel::RadarFrontRight,
];

#[test]
fn channel_names_round_trip() {
    for &c in CHANNELS.iter() {
        assert_eq!(SensorChannel::from_name(c.name()), Some(c));
    }
    assert_eq!(SensorChannel::from_name("CAM_FRONT"), Some(SensorChannel::CamFront));
    assert_eq!(SensorChannel::from_name("cam_front"), None);
    assert_eq!(SensorChannel::from_name(""), None);
}

#[test]
fn channel_slots_are_distinct_and_below_twelve() {
    let mut seen = [false; 12];
    for &c in CHANNELS.iter() {
        let s = c.slot();
        assert!(s < 12);
        assert!(!seen[s]);
        seen[s] = true;
    }
}

#[test]
fn modality_names_round_trip() {
    for &m in &[SensorModality::Camera, SensorModality::Lidar, SensorModality::Radar] {
        assert_eq!(SensorModality::from_name(m.name()), Some(m));
    }
    assert_eq!(SensorModality::from_name("camera"), Some(SensorModality::Camera));
    assert_eq!(SensorModality::from_name("sonar"), None);
}

#[test]
fn visibility_codes_and_names() {
    assert_eq!(Visibility::from_code("1"), Some(Visibility::V0_40));
    assert_eq!(Visibility::from_code("2"), Some(Visibility::V40_60));
    assert_eq!(Visibility::from_code("3"), Some(Visibility::V60_80));
    assert_eq!(Visibility::from_code("4"), Some(Visibility::V80_100));
    assert_eq!(Visibility::from_code("5"), None);
    assert_eq!(Visibility::from_code(""), None);
    assert_eq!(Visibility::V0_40.name(), "v0-40");
    assert_eq!(Visibility::V80_100.name(), "v80-100");
}

#[test]
fn str_eq_compares_characters() {
    assert!(str_eq("", ""));
    assert!(str_eq("abc", "abc"));
    assert!(!str_eq("abc", "abd"));
    assert!(!str_eq("abc", "ab"));
    assert!(str_eq("snow\u{2603}man", "snow\u{2603}man"));
    assert!(!str_eq("snow\u{2603}man", "snow_man"));
}
