//! The error taxonomy. Construction-time errors abort the whole snapshot
//! build and no partial snapshot is ever returned; query-time errors are
//! returned to the caller and leave the snapshot untouched.

use vstd::prelude::*;

use crate::token::Token;

verus! {

/// One of the fourteen sources a snapshot is built from. The two
/// segmentation sources are optional; the other twelve are required.
#[derive(Clone, Copy, Debug, PartialEq, Eq, Hash, Structural)]
pub enum SourceId {
    Log,
    MapTable,
    Sensor,
    CalibratedSensor,
    Scene,
    Sample,
    SampleData,
    EgoPose,
    Instance,
    SampleAnnotation,
    Category,
    Attribute,
    Lidarseg,
    Panoptic,
}

impl SourceId {
    /// A source may be absent without error only if it is optional.
    pub open spec fn spec_is_optional(self) -> bool {
        self == SourceId::Lidarseg || self == SourceId::Panoptic
    }

    pub fn is_optional(self) -> (r: bool)
        ensures
            r == self.spec_is_optional(),
    {
        match self {
            SourceId::Lidarseg => true,
            SourceId::Panoptic => true,
            _ => false,
        }
    }

    pub open spec fn spec_file_name(self) -> Seq<char> {
        match self {
            SourceId::Log => "log.json"@,
            SourceId::MapTable => "map.json"@,
            SourceId::Sensor => "sensor.json"@,
            SourceId::CalibratedSensor => "calibrated_sensor.json"@,
            SourceId::Scene => "scene.json"@,
            SourceId::Sample => "sample.json"@,
            SourceId::SampleData => "sample_data.json"@,
            SourceId::EgoPose => "ego_pose.json"@,
            SourceId::Instance => "instance.json"@,
            SourceId::SampleAnnotation => "sample_annotation.json"@,
            SourceId::Category => "category.json"@,
            SourceId::Attribute => "attribute.json"@,
            SourceId::Lidarseg => "lidarseg.json"@,
            SourceId::Panoptic => "panoptic.json"@,
        }
    }

    /// The file this source is read from, relative to the versioned root.
    pub fn file_name(self) -> (s: &'static str)
        ensures
            s@ == self.spec_file_name(),
    {
        match self {
            SourceId::Log => "log.json",
            SourceId::MapTable => "map.json",
            SourceId::Sensor => "sensor.json",
            SourceId::CalibratedSensor => "calibrated_sensor.json",
            SourceId::Scene => "scene.json",
            SourceId::Sample => "sample.json",
            SourceId::SampleData => "sample_data.json",
            SourceId::EgoPose => "ego_pose.json",
            SourceId::Instance => "instance.json",
            SourceId::SampleAnnotation => "sample_annotation.json",
            SourceId::Category => "category.json",
            SourceId::Attribute => "attribute.json",
            SourceId::Lidarseg => "lidarseg.json",
            SourceId::Panoptic => "panoptic.json",
        }
    }
}

/// Why a snapshot build was aborted. Every construction error names the
/// source it arose from; nothing partially built is ever handed out.
#[derive(Clone, Copy, Debug, PartialEq, Eq, Structural)]
pub enum BuildError {
    /// A required source is absent.
    NotFoundSource(SourceId),
    /// A source could be read but not decoded into rows.
    Malformed(SourceId),
    /// A join pass followed a reference into `table` and found no row
    /// carrying `token` there.
    UnresolvedReference { table: SourceId, token: Token },
}

/// Why a query returned nothing. Queries never abort or mutate anything.
#[derive(Clone, Copy, Debug, PartialEq, Eq, Structural)]
pub enum QueryError {
    /// The token text is not 32 hex characters.
    MalformedToken,
    /// The table name is not one of the fourteen.
    UnknownTable,
    /// The table holds no row carrying the token.
    NotFoundRecord(Token),
    /// The queried optional table was not present in this snapshot.
    TableUnavailable(SourceId),
}

} // verus!
