//! The closed enumerations shared by every table: the twelve sensor
//! channels, the three sensor modalities, and the four visibility bins.

use vstd::prelude::*;
use vstd::string::StrSliceExecFns;

verus! {

/// Character-exact equality of two string slices.
pub fn str_eq(a: &str, b: &str) -> (r: bool)
    ensures
        r == (a@ == b@),
{
    let alen = a.unicode_len();
    let blen = b.unicode_len();
    if alen != blen {
        assert(a@.len() != b@.len());
        return false;
    }
    let mut i: usize = 0;
    while i < alen
        invariant
            i <= alen,
            alen == a@.len(),
            alen == b@.len(),
            forall|j: int| 0 <= j < i ==> a@[j] == b@[j],
        decreases alen - i,
    {
        if a.get_char(i) != b.get_char(i) {
            return false;
        }
        i = i + 1;
    }
    proof {
        assert(a@ =~= b@);
    }
    true
}

/// One of the twelve fixed sensor positions a capture can come from.
#[derive(Clone, Copy, Debug, PartialEq, Eq, Hash, Structural)]
pub enum SensorChannel {
    CamBack,
    CamBackLeft,
    CamBackRight,
    CamFront,
    CamFrontLeft,
    CamFrontRight,
    LidarTop,
    RadarBackLeft,
    RadarBackRight,
    RadarFront,
    RadarFrontLeft,
    RadarFrontRight,
}

/// The sensor category a channel belongs to.
#[derive(Clone, Copy, Debug, PartialEq, Eq, Hash, Structural)]
pub enum SensorModality {
    Camera,
    Lidar,
    Radar,
}

/// How much of an annotated object was visible, in coarse bins.
#[derive(Clone, Copy, Debug, PartialEq, Eq, Hash, Structural)]
pub enum Visibility {
    V0_40,
    V40_60,
    V60_80,
    V80_100,
}

impl SensorChannel {
    /// The channel's fixed slot position, below twelve.
    pub open spec fn spec_slot(self) -> int {
        match self {
            SensorChannel::CamBack => 0,
            SensorChannel::CamBackLeft => 1,
            SensorChannel::CamBackRight => 2,
            SensorChannel::CamFront => 3,
            SensorChannel::CamFrontLeft => 4,
            SensorChannel::CamFrontRight => 5,
            SensorChannel::LidarTop => 6,
            SensorChannel::RadarBackLeft => 7,
            SensorChannel::RadarBackRight => 8,
            SensorChannel::RadarFront => 9,
            SensorChannel::RadarFrontLeft => 10,
            SensorChannel::RadarFrontRight => 11,
        }
    }

    pub fn slot(self) -> (i: usize)
        ensures
            i == self.spec_slot(),
            i < 12,
    {
        match self {
            SensorChannel::CamBack => 0,
            SensorChannel::CamBackLeft => 1,
            SensorChannel::CamBackRight => 2,
            SensorChannel::CamFront => 3,
            SensorChannel::CamFrontLeft => 4,
            SensorChannel::CamFrontRight => 5,
            SensorChannel::LidarTop => 6,
            SensorChannel::RadarBackLeft => 7,
            SensorChannel::RadarBackRight => 8,
            SensorChannel::RadarFront => 9,
            SensorChannel::RadarFrontLeft => 10,
            SensorChannel::RadarFrontRight => 11,
        }
    }

    pub open spec fn spec_name(self) -> Seq<char> {
        match self {
            SensorChannel::CamBack => "CAM_BACK"@,
            SensorChannel::CamBackLeft => "CAM_BACK_LEFT"@,
            SensorChannel::CamBackRight => "CAM_BACK_RIGHT"@,
            SensorChannel::CamFront => "CAM_FRONT"@,
            SensorChannel::CamFrontLeft => "CAM_FRONT_LEFT"@,
            SensorChannel::CamFrontRight => "CAM_FRONT_RIGHT"@,
            SensorChannel::LidarTop => "LIDAR_TOP"@,
            SensorChannel::RadarBackLeft => "RADAR_BACK_LEFT"@,
            SensorChannel::RadarBackRight => "RADAR_BACK_RIGHT"@,
            SensorChannel::RadarFront => "RADAR_FRONT"@,
            SensorChannel::RadarFrontLeft => "RADAR_FRONT_LEFT"@,
            SensorChannel::RadarFrontRight => "RADAR_FRONT_RIGHT"@,
        }
    }

    /// The channel's name as it appears in the source files.
    pub fn name(self) -> (s: &'static str)
        ensures
            s@ == self.spec_name(),
    {
        match self {
            SensorChannel::CamBack => "CAM_BACK",
            SensorChannel::CamBackLeft => "CAM_BACK_LEFT",
            SensorChannel::CamBackRight => "CAM_BACK_RIGHT",
            SensorChannel::CamFront => "CAM_FRONT",
            SensorChannel::CamFrontLeft => "CAM_FRONT_LEFT",
            SensorChannel::CamFrontRight => "CAM_FRONT_RIGHT",
            SensorChannel::LidarTop => "LIDAR_TOP",
            SensorChannel::RadarBackLeft => "RADAR_BACK_LEFT",
            SensorChannel::RadarBackRight => "RADAR_BACK_RIGHT",
            SensorChannel::RadarFront => "RADAR_FRONT",
            SensorChannel::RadarFrontLeft => "RADAR_FRONT_LEFT",
            SensorChannel::RadarFrontRight => "RADAR_FRONT_RIGHT",
        }
    }

    pub open spec fn spec_from_name(s: Seq<char>) -> Option<SensorChannel> {
        if s == "CAM_BACK"@ {
            Some(SensorChannel::CamBack)
        } else if s == "CAM_BACK_LEFT"@ {
            Some(SensorChannel::CamBackLeft)
        } else if s == "CAM_BACK_RIGHT"@ {
            Some(SensorChannel::CamBackRight)
        } else if s == "CAM_FRONT"@ {
            Some(SensorChannel::CamFront)
        } else if s == "CAM_FRONT_LEFT"@ {
            Some(SensorChannel::CamFrontLeft)
        } else if s == "CAM_FRONT_RIGHT"@ {
            Some(SensorChannel::CamFrontRight)
        } else if s == "LIDAR_TOP"@ {
            Some(SensorChannel::LidarTop)
        } else if s == "RADAR_BACK_LEFT"@ {
            Some(SensorChannel::RadarBackLeft)
        } else if s == "RADAR_BACK_RIGHT"@ {
            Some(SensorChannel::RadarBackRight)
        } else if s == "RADAR_FRONT"@ {
            Some(SensorChannel::RadarFront)
        } else if s == "RADAR_FRONT_LEFT"@ {
            Some(SensorChannel::RadarFrontLeft)
        } else if s == "RADAR_FRONT_RIGHT"@ {
            Some(SensorChannel::RadarFrontRight)
        } else {
            None
        }
    }

    /// Parses a channel from its source-file name.
    pub fn from_name(s: &str) -> (r: Option<SensorChannel>)
        ensures
            r == Self::spec_from_name(s@),
    {
        if str_eq(s, "CAM_BACK") {
            Some(SensorChannel::CamBack)
        } else if str_eq(s, "CAM_BACK_LEFT") {
            Some(SensorChannel::CamBackLeft)
        } else if str_eq(s, "CAM_BACK_RIGHT") {
            Some(SensorChannel::CamBackRight)
        } else if str_eq(s, "CAM_FRONT") {
            Some(SensorChannel::CamFront)
        } else if str_eq(s, "CAM_FRONT_LEFT") {
            Some(SensorChannel::CamFrontLeft)
        } else if str_eq(s, "CAM_FRONT_RIGHT") {
            Some(SensorChannel::CamFrontRight)
        } else if str_eq(s, "LIDAR_TOP") {
            Some(SensorChannel::LidarTop)
        } else if str_eq(s, "RADAR_BACK_LEFT") {
            Some(SensorChannel::RadarBackLeft)
        } else if str_eq(s, "RADAR_BACK_RIGHT") {
            Some(SensorChannel::RadarBackRight)
        } else if str_eq(s, "RADAR_FRONT") {
            Some(SensorChannel::RadarFront)
        } else if str_eq(s, "RADAR_FRONT_LEFT") {
            Some(SensorChannel::RadarFrontLeft)
        } else if str_eq(s, "RADAR_FRONT_RIGHT") {
            Some(SensorChannel::RadarFrontRight)
        } else {
            None
        }
    }
}

impl SensorModality {
    pub open spec fn spec_name(self) -> Seq<char> {
        match self {
            SensorModality::Camera => "camera"@,
            SensorModality::Lidar => "lidar"@,
            SensorModality::Radar => "radar"@,
        }
    }

    /// The modality's name as it appears in the source files.
    pub fn name(self) -> (s: &'static str)
        ensures
            s@ == self.spec_name(),
    {
        match self {
            SensorModality::Camera => "camera",
            SensorModality::Lidar => "lidar",
            SensorModality::Radar => "radar",
        }
    }

    pub open spec fn spec_from_name(s: Seq<char>) -> Option<SensorModality> {
        if s == "camera"@ {
            Some(SensorModality::Camera)
        } else if s == "lidar"@ {
            Some(SensorModality::Lidar)
        } else if s == "radar"@ {
            Some(SensorModality::Radar)
        } else {
            None
        }
    }

    /// Parses a modality from its source-file name.
    pub fn from_name(s: &str) -> (r: Option<SensorModality>)
        ensures
            r == Self::spec_from_name(s@),
    {
        if str_eq(s, "camera") {
            Some(SensorModality::Camera)
        } else if str_eq(s, "lidar") {
            Some(SensorModality::Lidar)
        } else if str_eq(s, "radar") {
            Some(SensorModality::Radar)
        } else {
            None
        }
    }
}

impl Visibility {
    pub open spec fn spec_name(self) -> Seq<char> {
        match self {
            Visibility::V0_40 => "v0-40"@,
            Visibility::V40_60 => "v40-60"@,
            Visibility::V60_80 => "v60-80"@,
            Visibility::V80_100 => "v80-100"@,
        }
    }

    /// The bin's human-readable name.
    pub fn name(self) -> (s: &'static str)
        ensures
            s@ == self.spec_name(),
    {
        match self {
            Visibility::V0_40 => "v0-40",
            Visibility::V40_60 => "v40-60",
            Visibility::V60_80 => "v60-80",
            Visibility::V80_100 => "v80-100",
        }
    }

    pub open spec fn spec_from_code(s: Seq<char>) -> Option<Visibility> {
        if s == "1"@ {
            Some(Visibility::V0_40)
        } else if s == "2"@ {
            Some(Visibility::V40_60)
        } else if s == "3"@ {
            Some(Visibility::V60_80)
        } else if s == "4"@ {
            Some(Visibility::V80_100)
        } else {
            None
        }
    }

    /// Parses a bin from the numeric code used in the source files.
    pub fn from_code(s: &str) -> (r: Option<Visibility>)
        ensures
            r == Self::spec_from_code(s@),
    {
        if str_eq(s, "1") {
            Some(Visibility::V0_40)
        } else if str_eq(s, "2") {
            Some(Visibility::V40_60)
        } else if str_eq(s, "3") {
            Some(Visibility::V60_80)
        } else if str_eq(s, "4") {
            Some(Visibility::V80_100)
        } else {
            None
        }
    }
}

} // verus!
