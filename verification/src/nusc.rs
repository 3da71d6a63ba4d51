//! The snapshot root: builds every table from the loaded sources, runs the
//! resolver passes in order, and owns the finished immutable aggregate.
//! Construction is all-or-nothing: the first fatal condition aborts the
//! whole build and nothing partially built is handed out.

use vstd::prelude::*;

use crate::domain::{Attribute, CalibratedSensor, Category, EgoPose, Instance, LidarSeg, Log,
    MapRecord, Panoptic, Sample, SampleAnnotation, SampleData, Scene, Sensor};
use crate::common::str_eq;
use crate::error::{BuildError, QueryError, SourceId};
use crate::model::{AttributeModel, CalibratedSensorModel, CategoryModel, EgoPoseModel,
    InstanceModel, LidarSegModel, LogModel, MapModel, PanopticModel, SampleAnnotationModel,
    SampleDataModel, SampleModel, SceneModel, SensorModel};
use crate::resolve::{aggregate_samples, aggregated_sample, ann_tokens, annotation_link,
    channel_slot, log_map_token,
    resolve_annotations, resolve_logs, resolve_sample_data, resolved_annotation, resolved_log,
    resolved_sample_data, reversed, sample_data_link, unresolved_annotation_error,
    unresolved_capture_error};
use crate::table::{lookup_rows, Table};
use crate::token::{decode_required_token, hex_val, token_text_valid, Token};
use vstd::string::StringSliceAdditionalSpecFns;

verus! {

/// What the loader found for one source: the file was absent, the file
/// could not be decoded into rows, or the decoded rows themselves.
pub enum SourceOutcome<T> {
    Missing,
    Malformed,
    Rows(Vec<T>),
}

/// The loader's findings for all fourteen sources, in the canonical order
/// in which construction inspects them.
pub struct RawSources {
    pub logs: SourceOutcome<LogModel>,
    pub maps: SourceOutcome<MapModel>,
    pub sensors: SourceOutcome<SensorModel>,
    pub calibrated_sensors: SourceOutcome<CalibratedSensorModel>,
    pub scenes: SourceOutcome<SceneModel>,
    pub samples: SourceOutcome<SampleModel>,
    pub sample_data: SourceOutcome<SampleDataModel>,
    pub ego_poses: SourceOutcome<EgoPoseModel>,
    pub instances: SourceOutcome<InstanceModel>,
    pub sample_annotations: SourceOutcome<SampleAnnotationModel>,
    pub categories: SourceOutcome<CategoryModel>,
    pub attributes: SourceOutcome<AttributeModel>,
    pub lidarseg: SourceOutcome<LidarSegModel>,
    pub panoptic: SourceOutcome<PanopticModel>,
}

impl RawSources {
    /// The first fatal source condition, in canonical order: a required
    /// source that is absent or undecodable, or an optional source that is
    /// present but undecodable. An absent optional source is no error.
    pub open spec fn spec_source_error(self) -> Option<BuildError> {
        if self.logs is Missing {
            Some(BuildError::NotFoundSource(SourceId::Log))
        } else if self.logs is Malformed {
            Some(BuildError::Malformed(SourceId::Log))
        } else if self.maps is Missing {
            Some(BuildError::NotFoundSource(SourceId::MapTable))
        } else if self.maps is Malformed {
            Some(BuildError::Malformed(SourceId::MapTable))
        } else if self.sensors is Missing {
            Some(BuildError::NotFoundSource(SourceId::Sensor))
        } else if self.sensors is Malformed {
            Some(BuildError::Malformed(SourceId::Sensor))
        } else if self.calibrated_sensors is Missing {
            Some(BuildError::NotFoundSource(SourceId::CalibratedSensor))
        } else if self.calibrated_sensors is Malformed {
            Some(BuildError::Malformed(SourceId::CalibratedSensor))
        } else if self.scenes is Missing {
            Some(BuildError::NotFoundSource(SourceId::Scene))
        } else if self.scenes is Malformed {
            Some(BuildError::Malformed(SourceId::Scene))
        } else if self.samples is Missing {
            Some(BuildError::NotFoundSource(SourceId::Sample))
        } else if self.samples is Malformed {
            Some(BuildError::Malformed(SourceId::Sample))
        } else if self.sample_data is Missing {
            Some(BuildError::NotFoundSource(SourceId::SampleData))
        } else if self.sample_data is Malformed {
            Some(BuildError::Malformed(SourceId::SampleData))
        } else if self.ego_poses is Missing {
            Some(BuildError::NotFoundSource(SourceId::EgoPose))
        } else if self.ego_poses is Malformed {
            Some(BuildError::Malformed(SourceId::EgoPose))
        } else if self.instances is Missing {
            Some(BuildError::NotFoundSource(SourceId::Instance))
        } else if self.instances is Malformed {
            Some(BuildError::Malformed(SourceId::Instance))
        } else if self.sample_annotations is Missing {
            Some(BuildError::NotFoundSource(SourceId::SampleAnnotation))
        } else if self.sample_annotations is Malformed {
            Some(BuildError::Malformed(SourceId::SampleAnnotation))
        } else if self.categories is Missing {
            Some(BuildError::NotFoundSource(SourceId::Category))
        } else if self.categories is Malformed {
            Some(BuildError::Malformed(SourceId::Category))
        } else if self.attributes is Missing {
            Some(BuildError::NotFoundSource(SourceId::Attribute))
        } else if self.attributes is Malformed {
            Some(BuildError::Malformed(SourceId::Attribute))
        } else if self.lidarseg is Malformed {
            Some(BuildError::Malformed(SourceId::Lidarseg))
        } else if self.panoptic is Malformed {
            Some(BuildError::Malformed(SourceId::Panoptic))
        } else {
            None
        }
    }
}

pub open spec fn spec_map_records(s: RawSources) -> Seq<MapRecord> {
    Seq::new(s.maps->Rows_0@.len(), |i: int| MapRecord::spec_from_model(s.maps->Rows_0@[i]))
}

pub open spec fn spec_sensor_records(s: RawSources) -> Seq<Sensor> {
    Seq::new(s.sensors->Rows_0@.len(), |i: int| Sensor::spec_from_model(s.sensors->Rows_0@[i]))
}

pub open spec fn spec_calib_records(s: RawSources) -> Seq<CalibratedSensor> {
    Seq::new(
        s.calibrated_sensors->Rows_0@.len(),
        |i: int| CalibratedSensor::spec_from_model(s.calibrated_sensors->Rows_0@[i]),
    )
}

pub open spec fn spec_scene_records(s: RawSources) -> Seq<Scene> {
    Seq::new(s.scenes->Rows_0@.len(), |i: int| Scene::spec_from_model(s.scenes->Rows_0@[i]))
}

pub open spec fn spec_ego_pose_records(s: RawSources) -> Seq<EgoPose> {
    Seq::new(s.ego_poses->Rows_0@.len(), |i: int| EgoPose::spec_from_model(s.ego_poses->Rows_0@[i]))
}

pub open spec fn spec_instance_records(s: RawSources) -> Seq<Instance> {
    Seq::new(
        s.instances->Rows_0@.len(),
        |i: int| Instance::spec_from_model(s.instances->Rows_0@[i]),
    )
}

pub open spec fn spec_category_records(s: RawSources) -> Seq<Category> {
    Seq::new(
        s.categories->Rows_0@.len(),
        |i: int| Category::spec_from_model(s.categories->Rows_0@[i]),
    )
}

pub open spec fn spec_attribute_records(s: RawSources) -> Seq<Attribute> {
    Seq::new(
        s.attributes->Rows_0@.len(),
        |i: int| Attribute::spec_from_model(s.attributes->Rows_0@[i]),
    )
}

pub open spec fn spec_lidarseg_records(s: RawSources) -> Seq<LidarSeg> {
    Seq::new(s.lidarseg->Rows_0@.len(), |i: int| LidarSeg::spec_from_model(s.lidarseg->Rows_0@[i]))
}

pub open spec fn spec_panoptic_records(s: RawSources) -> Seq<Panoptic> {
    Seq::new(s.panoptic->Rows_0@.len(), |i: int| Panoptic::spec_from_model(s.panoptic->Rows_0@[i]))
}

/// Every log token can be traced back to an owning map.
pub open spec fn logs_resolvable(s: RawSources) -> bool {
    forall|i: int|
        0 <= i < s.logs->Rows_0@.len() ==> log_map_token(
            spec_map_records(s),
            (#[trigger] s.logs->Rows_0@[i]).token,
        ) is Some
}

/// Every capture reaches a sensor through its calibrated sensor.
pub open spec fn captures_resolvable(s: RawSources) -> bool {
    forall|i: int|
        0 <= i < s.sample_data->Rows_0@.len() ==> sample_data_link(
            spec_calib_records(s),
            spec_sensor_records(s),
            #[trigger] s.sample_data->Rows_0@[i],
        ) is Some
}

/// Every annotation reaches a category through its instance.
pub open spec fn annotations_resolvable(s: RawSources) -> bool {
    forall|i: int|
        0 <= i < s.sample_annotations->Rows_0@.len() ==> annotation_link(
            spec_instance_records(s),
            spec_category_records(s),
            #[trigger] s.sample_annotations->Rows_0@[i],
        ) is Some
}

/// The exact error construction reports when a resolver pass fails: the
/// passes run in order, and the reported reference belongs to a row of the
/// first pass with a dangling reference.
pub open spec fn resolution_failure(s: RawSources, e: BuildError) -> bool {
    if !logs_resolvable(s) {
        exists|i: int|
            0 <= i < s.logs->Rows_0@.len() && log_map_token(
                spec_map_records(s),
                (#[trigger] s.logs->Rows_0@[i]).token,
            ) is None && e == (BuildError::UnresolvedReference {
                table: SourceId::MapTable,
                token: s.logs->Rows_0@[i].token,
            })
    } else if !captures_resolvable(s) {
        exists|i: int|
            0 <= i < s.sample_data->Rows_0@.len() && unresolved_capture_error(
                spec_calib_records(s),
                spec_sensor_records(s),
                #[trigger] s.sample_data->Rows_0@[i],
                e,
            )
    } else {
        exists|i: int|
            0 <= i < s.sample_annotations->Rows_0@.len() && unresolved_annotation_error(
                spec_instance_records(s),
                spec_category_records(s),
                #[trigger] s.sample_annotations->Rows_0@[i],
                e,
            )
    }
}

fn map_records(models: Vec<MapModel>) -> (out: Vec<MapRecord>)
    ensures
        out@.len() == models@.len(),
        forall|i: int|
            0 <= i < models@.len() ==> #[trigger] out@[i] == MapRecord::spec_from_model(
                models@[i],
            ),
{
    let ghost orig = models@;
    let mut rev = reversed(models);
    let mut out: Vec<MapRecord> = Vec::new();
    while rev.len() > 0
        invariant
            rev@ =~= orig.reverse().take(rev@.len() as int),
            out@.len() + rev@.len() == orig.len(),
            forall|i: int|
                0 <= i < out@.len() ==> #[trigger] out@[i] == MapRecord::spec_from_model(orig[i]),
        decreases rev@.len(),
    {
        let ghost k = out@.len() as int;
        proof {
            assert(rev@.last() == orig.reverse()[rev@.len() - 1]);
            assert(orig.reverse()[rev@.len() - 1] == orig[k]);
        }
        let m = rev.pop().unwrap();
        out.push(MapRecord::from_model(m));
    }
    out
}

fn sensor_records(models: Vec<SensorModel>) -> (out: Vec<Sensor>)
    ensures
        out@.len() == models@.len(),
        forall|i: int|
            0 <= i < models@.len() ==> #[trigger] out@[i] == Sensor::spec_from_model(models@[i]),
{
    let ghost orig = models@;
    let mut rev = reversed(models);
    let mut out: Vec<Sensor> = Vec::new();
    while rev.len() > 0
        invariant
            rev@ =~= orig.reverse().take(rev@.len() as int),
            out@.len() + rev@.len() == orig.len(),
            forall|i: int|
                0 <= i < out@.len() ==> #[trigger] out@[i] == Sensor::spec_from_model(orig[i]),
        decreases rev@.len(),
    {
        let ghost k = out@.len() as int;
        proof {
            assert(rev@.last() == orig.reverse()[rev@.len() - 1]);
            assert(orig.reverse()[rev@.len() - 1] == orig[k]);
        }
        let m = rev.pop().unwrap();
        out.push(Sensor::from_model(m));
    }
    out
}

fn calib_records(models: Vec<CalibratedSensorModel>) -> (out: Vec<CalibratedSensor>)
    ensures
        out@.len() == models@.len(),
        forall|i: int|
            0 <= i < models@.len() ==> #[trigger] out@[i] == CalibratedSensor::spec_from_model(
                models@[i],
            ),
{
    let ghost orig = models@;
    let mut rev = reversed(models);
    let mut out: Vec<CalibratedSensor> = Vec::new();
    while rev.len() > 0
        invariant
            rev@ =~= orig.reverse().take(rev@.len() as int),
            out@.len() + rev@.len() == orig.len(),
            forall|i: int|
                0 <= i < out@.len() ==> #[trigger] out@[i] == CalibratedSensor::spec_from_model(
                    orig[i],
                ),
        decreases rev@.len(),
    {
        let ghost k = out@.len() as int;
        proof {
            assert(rev@.last() == orig.reverse()[rev@.len() - 1]);
            assert(orig.reverse()[rev@.len() - 1] == orig[k]);
        }
        let m = rev.pop().unwrap();
        out.push(CalibratedSensor::from_model(m));
    }
    out
}

fn scene_records(models: Vec<SceneModel>) -> (out: Vec<Scene>)
    ensures
        out@.len() == models@.len(),
        forall|i: int|
            0 <= i < models@.len() ==> #[trigger] out@[i] == Scene::spec_from_model(models@[i]),
{
    let ghost orig = models@;
    let mut rev = reversed(models);
    let mut out: Vec<Scene> = Vec::new();
    while rev.len() > 0
        invariant
            rev@ =~= orig.reverse().take(rev@.len() as int),
            out@.len() + rev@.len() == orig.len(),
            forall|i: int|
                0 <= i < out@.len() ==> #[trigger] out@[i] == Scene::spec_from_model(orig[i]),
        decreases rev@.len(),
    {
        let ghost k = out@.len() as int;
        proof {
            assert(rev@.last() == orig.reverse()[rev@.len() - 1]);
            assert(orig.reverse()[rev@.len() - 1] == orig[k]);
        }
        let m = rev.pop().unwrap();
        out.push(Scene::from_model(m));
    }
    out
}

fn ego_pose_records(models: Vec<EgoPoseModel>) -> (out: Vec<EgoPose>)
    ensures
        out@.len() == models@.len(),
        forall|i: int|
            0 <= i < models@.len() ==> #[trigger] out@[i] == EgoPose::spec_from_model(models@[i]),
{
    let ghost orig = models@;
    let mut rev = reversed(models);
    let mut out: Vec<EgoPose> = Vec::new();
    while rev.len() > 0
        invariant
            rev@ =~= orig.reverse().take(rev@.len() as int),
            out@.len() + rev@.len() == orig.len(),
            forall|i: int|
                0 <= i < out@.len() ==> #[trigger] out@[i] == EgoPose::spec_from_model(orig[i]),
        decreases rev@.len(),
    {
        let ghost k = out@.len() as int;
        proof {
            assert(rev@.last() == orig.reverse()[rev@.len() - 1]);
            assert(orig.reverse()[rev@.len() - 1] == orig[k]);
        }
        let m = rev.pop().unwrap();
        out.push(EgoPose::from_model(m));
    }
    out
}

fn instance_records(models: Vec<InstanceModel>) -> (out: Vec<Instance>)
    ensures
        out@.len() == models@.len(),
        forall|i: int|
            0 <= i < models@.len() ==> #[trigger] out@[i] == Instance::spec_from_model(models@[i]),
{
    let ghost orig = models@;
    let mut rev = reversed(models);
    let mut out: Vec<Instance> = Vec::new();
    while rev.len() > 0
        invariant
            rev@ =~= orig.reverse().take(rev@.len() as int),
            out@.len() + rev@.len() == orig.len(),
            forall|i: int|
                0 <= i < out@.len() ==> #[trigger] out@[i] == Instance::spec_from_model(orig[i]),
        decreases rev@.len(),
    {
        let ghost k = out@.len() as int;
        proof {
            assert(rev@.last() == orig.reverse()[rev@.len() - 1]);
            assert(orig.reverse()[rev@.len() - 1] == orig[k]);
        }
        let m = rev.pop().unwrap();
        out.push(Instance::from_model(m));
    }
    out
}

fn category_records(models: Vec<CategoryModel>) -> (out: Vec<Category>)
    ensures
        out@.len() == models@.len(),
        forall|i: int|
            0 <= i < models@.len() ==> #[trigger] out@[i] == Category::spec_from_model(models@[i]),
{
    let ghost orig = models@;
    let mut rev = reversed(models);
    let mut out: Vec<Category> = Vec::new();
    while rev.len() > 0
        invariant
            rev@ =~= orig.reverse().take(rev@.len() as int),
            out@.len() + rev@.len() == orig.len(),
            forall|i: int|
                0 <= i < out@.len() ==> #[trigger] out@[i] == Category::spec_from_model(orig[i]),
        decreases rev@.len(),
    {
        let ghost k = out@.len() as int;
        proof {
            assert(rev@.last() == orig.reverse()[rev@.len() - 1]);
            assert(orig.reverse()[rev@.len() - 1] == orig[k]);
        }
        let m = rev.pop().unwrap();
        out.push(Category::from_model(m));
    }
    out
}

fn attribute_records(models: Vec<AttributeModel>) -> (out: Vec<Attribute>)
    ensures
        out@.len() == models@.len(),
        forall|i: int|
            0 <= i < models@.len() ==> #[trigger] out@[i] == Attribute::spec_from_model(models@[i]),
{
    let ghost orig = models@;
    let mut rev = reversed(models);
    let mut out: Vec<Attribute> = Vec::new();
    while rev.len() > 0
        invariant
            rev@ =~= orig.reverse().take(rev@.len() as int),
            out@.len() + rev@.len() == orig.len(),
            forall|i: int|
                0 <= i < out@.len() ==> #[trigger] out@[i] == Attribute::spec_from_model(orig[i]),
        decreases rev@.len(),
    {
        let ghost k = out@.len() as int;
        proof {
            assert(rev@.last() == orig.reverse()[rev@.len() - 1]);
            assert(orig.reverse()[rev@.len() - 1] == orig[k]);
        }
        let m = rev.pop().unwrap();
        out.push(Attribute::from_model(m));
    }
    out
}

fn lidarseg_records(models: Vec<LidarSegModel>) -> (out: Vec<LidarSeg>)
    ensures
        out@.len() == models@.len(),
        forall|i: int|
            0 <= i < models@.len() ==> #[trigger] out@[i] == LidarSeg::spec_from_model(models@[i]),
{
    let ghost orig = models@;
    let mut rev = reversed(models);
    let mut out: Vec<LidarSeg> = Vec::new();
    while rev.len() > 0
        invariant
            rev@ =~= orig.reverse().take(rev@.len() as int),
            out@.len() + rev@.len() == orig.len(),
            forall|i: int|
                0 <= i < out@.len() ==> #[trigger] out@[i] == LidarSeg::spec_from_model(orig[i]),
        decreases rev@.len(),
    {
        let ghost k = out@.len() as int;
        proof {
            assert(rev@.last() == orig.reverse()[rev@.len() - 1]);
            assert(orig.reverse()[rev@.len() - 1] == orig[k]);
        }
        let m = rev.pop().unwrap();
        out.push(LidarSeg::from_model(m));
    }
    out
}

fn panoptic_records(models: Vec<PanopticModel>) -> (out: Vec<Panoptic>)
    ensures
        out@.len() == models@.len(),
        forall|i: int|
            0 <= i < models@.len() ==> #[trigger] out@[i] == Panoptic::spec_from_model(models@[i]),
{
    let ghost orig = models@;
    let mut rev = reversed(models);
    let mut out: Vec<Panoptic> = Vec::new();
    while rev.len() > 0
        invariant
            rev@ =~= orig.reverse().take(rev@.len() as int),
            out@.len() + rev@.len() == orig.len(),
            forall|i: int|
                0 <= i < out@.len() ==> #[trigger] out@[i] == Panoptic::spec_from_model(orig[i]),
        decreases rev@.len(),
    {
        let ghost k = out@.len() as int;
        proof {
            assert(rev@.last() == orig.reverse()[rev@.len() - 1]);
            assert(orig.reverse()[rev@.len() - 1] == orig[k]);
        }
        let m = rev.pop().unwrap();
        out.push(Panoptic::from_model(m));
    }
    out
}

/// The finished snapshot: one indexed table per entity kind, the two
/// optional segmentation tables, and the `(version, dataroot)` pair it can
/// be rebuilt from. Immutable once constructed.
pub struct Tables {
    pub version: String,
    pub dataroot: String,
    pub log: Table<Log>,
    pub map: Table<MapRecord>,
    pub sensor: Table<Sensor>,
    pub calib: Table<CalibratedSensor>,
    pub scene: Table<Scene>,
    pub sample: Table<Sample>,
    pub sample_data: Table<SampleData>,
    pub ego_pose: Table<EgoPose>,
    pub instance: Table<Instance>,
    pub sample_ann: Table<SampleAnnotation>,
    pub category: Table<Category>,
    pub attribute: Table<Attribute>,
    pub lidarseg: Option<Table<LidarSeg>>,
    pub panoptic: Option<Table<Panoptic>>,
}

/// The sensor a stored capture record reaches through its calibrated
/// sensor, or nothing when either hop dangles.
pub open spec fn capture_link(
    calibs: Seq<CalibratedSensor>,
    sensors: Seq<Sensor>,
    d: SampleData,
) -> Option<Sensor> {
    match lookup_rows(calibs, d.calibrated_sensor_token) {
        None => None,
        Some(cal) => lookup_rows(sensors, cal.sensor_token),
    }
}

/// The category a stored annotation record reaches through its instance,
/// or nothing when either hop dangles.
pub open spec fn record_annotation_link(
    instances: Seq<Instance>,
    cats: Seq<Category>,
    a: SampleAnnotation,
) -> Option<Category> {
    match lookup_rows(instances, a.instance_token) {
        None => None,
        Some(ins) => lookup_rows(cats, ins.category_token),
    }
}

impl Tables {
    /// Every log's `map_token` is the owning map found by reverse lookup.
    pub open spec fn log_links_resolved(self) -> bool {
        forall|i: int|
            0 <= i < self.log.rows().len() ==> log_map_token(
                self.map.rows(),
                (#[trigger] self.log.rows()[i]).token,
            ) == Some(self.log.rows()[i].map_token)
    }

    /// Every capture's modality and channel come from the sensor reached
    /// through its calibrated sensor.
    pub open spec fn captures_resolved(self) -> bool {
        forall|i: int|
            0 <= i < self.sample_data.rows().len() ==> {
                let d = #[trigger] self.sample_data.rows()[i];
                &&& capture_link(self.calib.rows(), self.sensor.rows(), d) is Some
                &&& d.modality == capture_link(
                    self.calib.rows(),
                    self.sensor.rows(),
                    d,
                )->Some_0.modality
                &&& d.channel == capture_link(
                    self.calib.rows(),
                    self.sensor.rows(),
                    d,
                )->Some_0.channel
            }
    }

    /// Every annotation's cached category name is the name of the category
    /// reached through its instance.
    pub open spec fn annotations_resolved(self) -> bool {
        forall|i: int|
            0 <= i < self.sample_ann.rows().len() ==> {
                let a = #[trigger] self.sample_ann.rows()[i];
                &&& record_annotation_link(self.instance.rows(), self.category.rows(), a) is Some
                &&& a.category_name@ == record_annotation_link(
                    self.instance.rows(),
                    self.category.rows(),
                    a,
                )->Some_0.name@
            }
    }

    /// Every sample carries the full channel-slot map and annotation set
    /// grouped from the capture and annotation tables.
    pub open spec fn samples_aggregated(self) -> bool {
        forall|i: int|
            0 <= i < self.sample.rows().len() ==> {
                let smp = #[trigger] self.sample.rows()[i];
                &&& smp.data.wf()
                &&& forall|c: crate::common::SensorChannel| smp.data.spec_get(c) == channel_slot(
                    self.sample_data.rows(),
                    smp.token,
                    c,
                )
                &&& smp.anns@ == ann_tokens(self.sample_ann.rows(), smp.token)
            }
    }

    /// A usable snapshot: every index is consistent with its rows, and
    /// every derived field agrees with the tables it was resolved from.
    pub open spec fn wf(self) -> bool {
        &&& self.log.wf()
        &&& self.map.wf()
        &&& self.sensor.wf()
        &&& self.calib.wf()
        &&& self.scene.wf()
        &&& self.sample.wf()
        &&& self.sample_data.wf()
        &&& self.ego_pose.wf()
        &&& self.instance.wf()
        &&& self.sample_ann.wf()
        &&& self.category.wf()
        &&& self.attribute.wf()
        &&& (self.lidarseg matches Some(t) ==> t.wf())
        &&& (self.panoptic matches Some(t) ==> t.wf())
        &&& self.log_links_resolved()
        &&& self.captures_resolved()
        &&& self.annotations_resolved()
        &&& self.samples_aggregated()
    }

    /// The snapshot a successful construction returns, pinned table by
    /// table to the sources it was built from.
    pub open spec fn built_from(self, version: Seq<char>, dataroot: Seq<char>, s: RawSources) -> bool {
        &&& self.version@ == version
        &&& self.dataroot@ == dataroot
        &&& self.map.rows() == spec_map_records(s)
        &&& self.sensor.rows() == spec_sensor_records(s)
        &&& self.calib.rows() == spec_calib_records(s)
        &&& self.scene.rows() == spec_scene_records(s)
        &&& self.ego_pose.rows() == spec_ego_pose_records(s)
        &&& self.instance.rows() == spec_instance_records(s)
        &&& self.category.rows() == spec_category_records(s)
        &&& self.attribute.rows() == spec_attribute_records(s)
        &&& (self.lidarseg is Some <==> s.lidarseg is Rows)
        &&& (self.lidarseg matches Some(t) ==> t.rows() == spec_lidarseg_records(s))
        &&& (self.panoptic is Some <==> s.panoptic is Rows)
        &&& (self.panoptic matches Some(t) ==> t.rows() == spec_panoptic_records(s))
        &&& self.log.rows().len() == s.logs->Rows_0@.len()
        &&& forall|i: int|
            0 <= i < self.log.rows().len() ==> {
                let m = s.logs->Rows_0@[i];
                &&& log_map_token(spec_map_records(s), m.token) is Some
                &&& #[trigger] self.log.rows()[i] == resolved_log(
                    m,
                    log_map_token(spec_map_records(s), m.token)->Some_0,
                )
            }
        &&& self.sample_data.rows().len() == s.sample_data->Rows_0@.len()
        &&& forall|i: int|
            0 <= i < self.sample_data.rows().len() ==> {
                let m = s.sample_data->Rows_0@[i];
                let link = sample_data_link(spec_calib_records(s), spec_sensor_records(s), m);
                &&& link is Some
                &&& #[trigger] self.sample_data.rows()[i] == resolved_sample_data(
                    m,
                    link->Some_0.modality,
                    link->Some_0.channel,
                )
            }
        &&& self.sample_ann.rows().len() == s.sample_annotations->Rows_0@.len()
        &&& forall|i: int|
            0 <= i < self.sample_ann.rows().len() ==> {
                let m = s.sample_annotations->Rows_0@[i];
                let link = annotation_link(spec_instance_records(s), spec_category_records(s), m);
                &&& link is Some
                &&& resolved_annotation(
                    #[trigger] self.sample_ann.rows()[i],
                    m,
                    link->Some_0.name@,
                )
            }
        &&& self.sample.rows().len() == s.samples->Rows_0@.len()
        &&& forall|i: int|
            0 <= i < self.sample.rows().len() ==> aggregated_sample(
                #[trigger] self.sample.rows()[i],
                s.samples->Rows_0@[i],
                self.sample_data.rows(),
                self.sample_ann.rows(),
            )
    }
}

impl Tables {
    /// Builds the whole snapshot from the loaded sources: checks the
    /// fourteen sources in canonical order, indexes every table, and runs
    /// the resolver passes in dependency order. Construction succeeds
    /// exactly when every required source is present and decodable, no
    /// optional source is undecodable, and every cross-table reference
    /// resolves; otherwise the first fatal condition is reported and
    /// nothing is returned.
    pub fn new(version: &str, dataroot: &str, sources: RawSources) -> (r: Result<
        Tables,
        BuildError,
    >)
        ensures
            r is Ok <==> (sources.spec_source_error() is None && logs_resolvable(sources)
                && captures_resolvable(sources) && annotations_resolvable(sources)),
            r matches Ok(t) ==> t.built_from(version@, dataroot@, sources) && t.wf(),
            r matches Err(e) ==> match sources.spec_source_error() {
                Some(se) => e == se,
                None => resolution_failure(sources, e),
            },
    {
        let ghost src = sources;
        let RawSources {
            logs,
            maps,
            sensors,
            calibrated_sensors,
            scenes,
            samples,
            sample_data,
            ego_poses,
            instances,
            sample_annotations,
            categories,
            attributes,
            lidarseg,
            panoptic,
        } = sources;
        let log_rows = match logs {
            SourceOutcome::Rows(v) => v,
            SourceOutcome::Missing => {
                return Err(BuildError::NotFoundSource(SourceId::Log));
            },
            SourceOutcome::Malformed => {
                return Err(BuildError::Malformed(SourceId::Log));
            },
        };
        let map_rows = match maps {
            SourceOutcome::Rows(v) => v,
            SourceOutcome::Missing => {
                return Err(BuildError::NotFoundSource(SourceId::MapTable));
            },
            SourceOutcome::Malformed => {
                return Err(BuildError::Malformed(SourceId::MapTable));
            },
        };
        let sensor_rows = match sensors {
            SourceOutcome::Rows(v) => v,
            SourceOutcome::Missing => {
                return Err(BuildError::NotFoundSource(SourceId::Sensor));
            },
            SourceOutcome::Malformed => {
                return Err(BuildError::Malformed(SourceId::Sensor));
            },
        };
        let calib_rows = match calibrated_sensors {
            SourceOutcome::Rows(v) => v,
            SourceOutcome::Missing => {
                return Err(BuildError::NotFoundSource(SourceId::CalibratedSensor));
            },
            SourceOutcome::Malformed => {
                return Err(BuildError::Malformed(SourceId::CalibratedSensor));
            },
        };
        let scene_rows = match scenes {
            SourceOutcome::Rows(v) => v,
            SourceOutcome::Missing => {
                return Err(BuildError::NotFoundSource(SourceId::Scene));
            },
            SourceOutcome::Malformed => {
                return Err(BuildError::Malformed(SourceId::Scene));
            },
        };
        let sample_rows = match samples {
            SourceOutcome::Rows(v) => v,
            SourceOutcome::Missing => {
                return Err(BuildError::NotFoundSource(SourceId::Sample));
            },
            SourceOutcome::Malformed => {
                return Err(BuildError::Malformed(SourceId::Sample));
            },
        };
        let sd_rows = match sample_data {
            SourceOutcome::Rows(v) => v,
            SourceOutcome::Missing => {
                return Err(BuildError::NotFoundSource(SourceId::SampleData));
            },
            SourceOutcome::Malformed => {
                return Err(BuildError::Malformed(SourceId::SampleData));
            },
        };
        let ego_rows = match ego_poses {
            SourceOutcome::Rows(v) => v,
            SourceOutcome::Missing => {
                return Err(BuildError::NotFoundSource(SourceId::EgoPose));
            },
            SourceOutcome::Malformed => {
                return Err(BuildError::Malformed(SourceId::EgoPose));
            },
        };
        let instance_rows = match instances {
            SourceOutcome::Rows(v) => v,
            SourceOutcome::Missing => {
                return Err(BuildError::NotFoundSource(SourceId::Instance));
            },
            SourceOutcome::Malformed => {
                return Err(BuildError::Malformed(SourceId::Instance));
            },
        };
        let ann_rows = match sample_annotations {
            SourceOutcome::Rows(v) => v,
            SourceOutcome::Missing => {
                return Err(BuildError::NotFoundSource(SourceId::SampleAnnotation));
            },
            SourceOutcome::Malformed => {
                return Err(BuildError::Malformed(SourceId::SampleAnnotation));
            },
        };
        let category_rows = match categories {
            SourceOutcome::Rows(v) => v,
            SourceOutcome::Missing => {
                return Err(BuildError::NotFoundSource(SourceId::Category));
            },
            SourceOutcome::Malformed => {
                return Err(BuildError::Malformed(SourceId::Category));
            },
        };
        let attribute_rows = match attributes {
            SourceOutcome::Rows(v) => v,
            SourceOutcome::Missing => {
                return Err(BuildError::NotFoundSource(SourceId::Attribute));
            },
            SourceOutcome::Malformed => {
                return Err(BuildError::Malformed(SourceId::Attribute));
            },
        };
        let lidarseg_rows = match lidarseg {
            SourceOutcome::Rows(v) => Some(v),
            SourceOutcome::Missing => None,
            SourceOutcome::Malformed => {
                return Err(BuildError::Malformed(SourceId::Lidarseg));
            },
        };
        let panoptic_rows = match panoptic {
            SourceOutcome::Rows(v) => Some(v),
            SourceOutcome::Missing => None,
            SourceOutcome::Malformed => {
                return Err(BuildError::Malformed(SourceId::Panoptic));
            },
        };
        proof {
            assert(src.spec_source_error() is None);
            assert(log_rows@ == src.logs->Rows_0@);
            assert(sd_rows@ == src.sample_data->Rows_0@);
            assert(ann_rows@ == src.sample_annotations->Rows_0@);
            assert(sample_rows@ == src.samples->Rows_0@);
        }

        let map = Table::new(map_records(map_rows));
        let sensor = Table::new(sensor_records(sensor_rows));
        let calib = Table::new(calib_records(calib_rows));
        let scene = Table::new(scene_records(scene_rows));
        let ego_pose = Table::new(ego_pose_records(ego_rows));
        let instance = Table::new(instance_records(instance_rows));
        let category = Table::new(category_records(category_rows));
        let attribute = Table::new(attribute_records(attribute_rows));
        let lidarseg_t = match lidarseg_rows {
            Some(v) => Some(Table::new(lidarseg_records(v))),
            None => None,
        };
        let panoptic_t = match panoptic_rows {
            Some(v) => Some(Table::new(panoptic_records(v))),
            None => None,
        };
        proof {
            assert(map.rows() =~= spec_map_records(src));
            assert(sensor.rows() =~= spec_sensor_records(src));
            assert(calib.rows() =~= spec_calib_records(src));
            assert(scene.rows() =~= spec_scene_records(src));
            assert(ego_pose.rows() =~= spec_ego_pose_records(src));
            assert(instance.rows() =~= spec_instance_records(src));
            assert(category.rows() =~= spec_category_records(src));
            assert(attribute.rows() =~= spec_attribute_records(src));
            assert(lidarseg_t matches Some(t) ==> t.rows() =~= spec_lidarseg_records(src));
            assert(panoptic_t matches Some(t) ==> t.rows() =~= spec_panoptic_records(src));
        }

        let log = match resolve_logs(log_rows, &map) {
            Ok(v) => Table::new(v),
            Err(e) => {
                proof {
                    assert(!logs_resolvable(src));
                    assert(resolution_failure(src, e));
                }
                return Err(e);
            },
        };
        let sample_data_t = match resolve_sample_data(sd_rows, &calib, &sensor) {
            Ok(v) => Table::new(v),
            Err(e) => {
                proof {
                    assert(logs_resolvable(src));
                    assert(!captures_resolvable(src));
                    assert(resolution_failure(src, e));
                }
                return Err(e);
            },
        };
        let sample_ann = match resolve_annotations(ann_rows, &instance, &category) {
            Ok(v) => Table::new(v),
            Err(e) => {
                proof {
                    assert(logs_resolvable(src));
                    assert(captures_resolvable(src));
                    assert(!annotations_resolvable(src));
                    assert(resolution_failure(src, e));
                }
                return Err(e);
            },
        };
        let sample = Table::new(aggregate_samples(sample_rows, &sample_data_t, &sample_ann));

        let t = Tables {
            version: version.to_owned(),
            dataroot: dataroot.to_owned(),
            log,
            map,
            sensor,
            calib,
            scene,
            sample,
            sample_data: sample_data_t,
            ego_pose,
            instance,
            sample_ann,
            category,
            attribute,
            lidarseg: lidarseg_t,
            panoptic: panoptic_t,
        };
        proof {
            assert(t.built_from(version@, dataroot@, src));
            lemma_built_from_wf(t, version@, dataroot@, src);
        }
        Ok(t)
    }
}

/// A snapshot pinned to its sources satisfies every internal resolution
/// invariant: the derived fields agree with the stored tables themselves.
proof fn lemma_built_from_wf(t: Tables, version: Seq<char>, dataroot: Seq<char>, s: RawSources)
    requires
        t.log.wf(),
        t.map.wf(),
        t.sensor.wf(),
        t.calib.wf(),
        t.scene.wf(),
        t.sample.wf(),
        t.sample_data.wf(),
        t.ego_pose.wf(),
        t.instance.wf(),
        t.sample_ann.wf(),
        t.category.wf(),
        t.attribute.wf(),
        t.lidarseg matches Some(tab) ==> tab.wf(),
        t.panoptic matches Some(tab) ==> tab.wf(),
        t.built_from(version, dataroot, s),
    ensures
        t.wf(),
{
    assert forall|i: int| 0 <= i < t.log.rows().len() implies log_map_token(
        t.map.rows(),
        (#[trigger] t.log.rows()[i]).token,
    ) == Some(t.log.rows()[i].map_token) by {
        let m = s.logs->Rows_0@[i];
        assert(t.log.rows()[i] == resolved_log(
            m,
            log_map_token(spec_map_records(s), m.token)->Some_0,
        ));
    }
    assert forall|i: int| 0 <= i < t.sample_data.rows().len() implies {
        let d = #[trigger] t.sample_data.rows()[i];
        &&& capture_link(t.calib.rows(), t.sensor.rows(), d) is Some
        &&& d.modality == capture_link(t.calib.rows(), t.sensor.rows(), d)->Some_0.modality
        &&& d.channel == capture_link(t.calib.rows(), t.sensor.rows(), d)->Some_0.channel
    } by {
        let m = s.sample_data->Rows_0@[i];
        let link = sample_data_link(spec_calib_records(s), spec_sensor_records(s), m);
        assert(link is Some);
        assert(t.sample_data.rows()[i] == resolved_sample_data(
            m,
            link->Some_0.modality,
            link->Some_0.channel,
        ));
        assert(t.sample_data.rows()[i].calibrated_sensor_token == m.calibrated_sensor_token);
        assert(capture_link(t.calib.rows(), t.sensor.rows(), t.sample_data.rows()[i]) == link);
    }
    assert forall|i: int| 0 <= i < t.sample_ann.rows().len() implies {
        let a = #[trigger] t.sample_ann.rows()[i];
        &&& record_annotation_link(t.instance.rows(), t.category.rows(), a) is Some
        &&& a.category_name@ == record_annotation_link(
            t.instance.rows(),
            t.category.rows(),
            a,
        )->Some_0.name@
    } by {
        let m = s.sample_annotations->Rows_0@[i];
        let link = annotation_link(spec_instance_records(s), spec_category_records(s), m);
        assert(link is Some);
        assert(resolved_annotation(t.sample_ann.rows()[i], m, link->Some_0.name@));
        assert(t.sample_ann.rows()[i].instance_token == m.instance_token);
        assert(record_annotation_link(t.instance.rows(), t.category.rows(), t.sample_ann.rows()[i])
            == link);
    }
    assert forall|i: int| 0 <= i < t.sample.rows().len() implies {
        let smp = #[trigger] t.sample.rows()[i];
        &&& smp.data.wf()
        &&& forall|c: crate::common::SensorChannel| smp.data.spec_get(c) == channel_slot(
            t.sample_data.rows(),
            smp.token,
            c,
        )
        &&& smp.anns@ == ann_tokens(t.sample_ann.rows(), smp.token)
    } by {
        let m = s.samples->Rows_0@[i];
        assert(aggregated_sample(t.sample.rows()[i], m, t.sample_data.rows(), t.sample_ann.rows()));
        assert(t.sample.rows()[i].token == m.token);
    }
}

/// A borrowed view of one record, of whichever kind the queried table
/// holds.
pub enum RecordRef<'a> {
    Log(&'a Log),
    MapTable(&'a MapRecord),
    Sensor(&'a Sensor),
    CalibratedSensor(&'a CalibratedSensor),
    Scene(&'a Scene),
    Sample(&'a Sample),
    SampleData(&'a SampleData),
    EgoPose(&'a EgoPose),
    Instance(&'a Instance),
    SampleAnnotation(&'a SampleAnnotation),
    Category(&'a Category),
    Attribute(&'a Attribute),
    LidarSeg(&'a LidarSeg),
    Panoptic(&'a Panoptic),
}

/// The table a query name denotes, or nothing for an unknown name.
pub open spec fn spec_table_of_name(s: Seq<char>) -> Option<SourceId> {
    if s == "log"@ {
        Some(SourceId::Log)
    } else if s == "map"@ {
        Some(SourceId::MapTable)
    } else if s == "sensor"@ {
        Some(SourceId::Sensor)
    } else if s == "calibrated_sensor"@ {
        Some(SourceId::CalibratedSensor)
    } else if s == "scene"@ {
        Some(SourceId::Scene)
    } else if s == "sample"@ {
        Some(SourceId::Sample)
    } else if s == "sample_data"@ {
        Some(SourceId::SampleData)
    } else if s == "ego_pose"@ {
        Some(SourceId::EgoPose)
    } else if s == "instance"@ {
        Some(SourceId::Instance)
    } else if s == "sample_annotation"@ {
        Some(SourceId::SampleAnnotation)
    } else if s == "category"@ {
        Some(SourceId::Category)
    } else if s == "attribute"@ {
        Some(SourceId::Attribute)
    } else if s == "lidarseg"@ {
        Some(SourceId::Lidarseg)
    } else if s == "panoptic"@ {
        Some(SourceId::Panoptic)
    } else {
        None
    }
}

impl Tables {
    /// What a point lookup in the named table must return: the last row
    /// carrying the token, a not-found error naming the token, or, for an
    /// optional table this snapshot does not hold, an unavailability error.
    pub open spec fn get_matches<'a>(
        self,
        kind: SourceId,
        tok: Token,
        r: Result<RecordRef<'a>, QueryError>,
    ) -> bool {
        match kind {
            SourceId::Log => match r {
                Ok(RecordRef::Log(rec)) => lookup_rows(self.log.rows(), tok) == Some(*rec),
                Err(e) => e == QueryError::NotFoundRecord(tok) && lookup_rows(self.log.rows(), tok)
                    is None,
                _ => false,
            },
            SourceId::MapTable => match r {
                Ok(RecordRef::MapTable(rec)) => lookup_rows(self.map.rows(), tok) == Some(*rec),
                Err(e) => e == QueryError::NotFoundRecord(tok) && lookup_rows(self.map.rows(), tok)
                    is None,
                _ => false,
            },
            SourceId::Sensor => match r {
                Ok(RecordRef::Sensor(rec)) => lookup_rows(self.sensor.rows(), tok) == Some(*rec),
                Err(e) => e == QueryError::NotFoundRecord(tok) && lookup_rows(
                    self.sensor.rows(),
                    tok,
                ) is None,
                _ => false,
            },
            SourceId::CalibratedSensor => match r {
                Ok(RecordRef::CalibratedSensor(rec)) => lookup_rows(self.calib.rows(), tok)
                    == Some(*rec),
                Err(e) => e == QueryError::NotFoundRecord(tok) && lookup_rows(
                    self.calib.rows(),
                    tok,
                ) is None,
                _ => false,
            },
            SourceId::Scene => match r {
                Ok(RecordRef::Scene(rec)) => lookup_rows(self.scene.rows(), tok) == Some(*rec),
                Err(e) => e == QueryError::NotFoundRecord(tok) && lookup_rows(
                    self.scene.rows(),
                    tok,
                ) is None,
                _ => false,
            },
            SourceId::Sample => match r {
                Ok(RecordRef::Sample(rec)) => lookup_rows(self.sample.rows(), tok) == Some(*rec),
                Err(e) => e == QueryError::NotFoundRecord(tok) && lookup_rows(
                    self.sample.rows(),
                    tok,
                ) is None,
                _ => false,
            },
            SourceId::SampleData => match r {
                Ok(RecordRef::SampleData(rec)) => lookup_rows(self.sample_data.rows(), tok)
                    == Some(*rec),
                Err(e) => e == QueryError::NotFoundRecord(tok) && lookup_rows(
                    self.sample_data.rows(),
                    tok,
                ) is None,
                _ => false,
            },
            SourceId::EgoPose => match r {
                Ok(RecordRef::EgoPose(rec)) => lookup_rows(self.ego_pose.rows(), tok)
                    == Some(*rec),
                Err(e) => e == QueryError::NotFoundRecord(tok) && lookup_rows(
                    self.ego_pose.rows(),
                    tok,
                ) is None,
                _ => false,
            },
            SourceId::Instance => match r {
                Ok(RecordRef::Instance(rec)) => lookup_rows(self.instance.rows(), tok)
                    == Some(*rec),
                Err(e) => e == QueryError::NotFoundRecord(tok) && lookup_rows(
                    self.instance.rows(),
                    tok,
                ) is None,
                _ => false,
            },
            SourceId::SampleAnnotation => match r {
                Ok(RecordRef::SampleAnnotation(rec)) => lookup_rows(self.sample_ann.rows(), tok)
                    == Some(*rec),
                Err(e) => e == QueryError::NotFoundRecord(tok) && lookup_rows(
                    self.sample_ann.rows(),
                    tok,
                ) is None,
                _ => false,
            },
            SourceId::Category => match r {
                Ok(RecordRef::Category(rec)) => lookup_rows(self.category.rows(), tok)
                    == Some(*rec),
                Err(e) => e == QueryError::NotFoundRecord(tok) && lookup_rows(
                    self.category.rows(),
                    tok,
                ) is None,
                _ => false,
            },
            SourceId::Attribute => match r {
                Ok(RecordRef::Attribute(rec)) => lookup_rows(self.attribute.rows(), tok)
                    == Some(*rec),
                Err(e) => e == QueryError::NotFoundRecord(tok) && lookup_rows(
                    self.attribute.rows(),
                    tok,
                ) is None,
                _ => false,
            },
            SourceId::Lidarseg => match self.lidarseg {
                None => r == Err::<RecordRef<'a>, QueryError>(
                    QueryError::TableUnavailable(SourceId::Lidarseg),
                ),
                Some(tab) => match r {
                    Ok(RecordRef::LidarSeg(rec)) => lookup_rows(tab.rows(), tok) == Some(*rec),
                    Err(e) => e == QueryError::NotFoundRecord(tok) && lookup_rows(tab.rows(), tok)
                        is None,
                    _ => false,
                },
            },
            SourceId::Panoptic => match self.panoptic {
                None => r == Err::<RecordRef<'a>, QueryError>(
                    QueryError::TableUnavailable(SourceId::Panoptic),
                ),
                Some(tab) => match r {
                    Ok(RecordRef::Panoptic(rec)) => lookup_rows(tab.rows(), tok) == Some(*rec),
                    Err(e) => e == QueryError::NotFoundRecord(tok) && lookup_rows(tab.rows(), tok)
                        is None,
                    _ => false,
                },
            },
        }
    }

    /// The version this snapshot was opened with.
    pub fn version(&self) -> (v: &String)
        ensures
            v == &self.version,
    {
        &self.version
    }

    /// The data root this snapshot was opened with.
    pub fn dataroot(&self) -> (d: &String)
        ensures
            d == &self.dataroot,
    {
        &self.dataroot
    }

    pub fn log(&self) -> (t: &Table<Log>)
        ensures
            t == &self.log,
    {
        &self.log
    }

    pub fn map(&self) -> (t: &Table<MapRecord>)
        ensures
            t == &self.map,
    {
        &self.map
    }

    pub fn sensor(&self) -> (t: &Table<Sensor>)
        ensures
            t == &self.sensor,
    {
        &self.sensor
    }

    pub fn calibrated_sensor(&self) -> (t: &Table<CalibratedSensor>)
        ensures
            t == &self.calib,
    {
        &self.calib
    }

    pub fn scene(&self) -> (t: &Table<Scene>)
        ensures
            t == &self.scene,
    {
        &self.scene
    }

    pub fn sample(&self) -> (t: &Table<Sample>)
        ensures
            t == &self.sample,
    {
        &self.sample
    }

    pub fn sample_data(&self) -> (t: &Table<SampleData>)
        ensures
            t == &self.sample_data,
    {
        &self.sample_data
    }

    pub fn ego_pose(&self) -> (t: &Table<EgoPose>)
        ensures
            t == &self.ego_pose,
    {
        &self.ego_pose
    }

    pub fn instance(&self) -> (t: &Table<Instance>)
        ensures
            t == &self.instance,
    {
        &self.instance
    }

    pub fn sample_annotation(&self) -> (t: &Table<SampleAnnotation>)
        ensures
            t == &self.sample_ann,
    {
        &self.sample_ann
    }

    pub fn category(&self) -> (t: &Table<Category>)
        ensures
            t == &self.category,
    {
        &self.category
    }

    pub fn attribute(&self) -> (t: &Table<Attribute>)
        ensures
            t == &self.attribute,
    {
        &self.attribute
    }

    /// The lidar segmentation table, when its source was present.
    pub fn lidarseg(&self) -> (t: &Option<Table<LidarSeg>>)
        ensures
            t == &self.lidarseg,
    {
        &self.lidarseg
    }

    /// The panoptic segmentation table, when its source was present.
    pub fn panoptic(&self) -> (t: &Option<Table<Panoptic>>)
        ensures
            t == &self.panoptic,
    {
        &self.panoptic
    }

    /// Point query: decodes the token text, dispatches on the table name,
    /// and looks the token up in that table's index. Query errors never
    /// touch the snapshot.
    pub fn get<'a>(&'a self, table: &str, token: &str) -> (r: Result<RecordRef<'a>, QueryError>)
        requires
            self.wf(),
        ensures
            !token_text_valid(token.spec_bytes()) ==> r == Err::<RecordRef<'a>, QueryError>(
                QueryError::MalformedToken,
            ),
            token_text_valid(token.spec_bytes()) ==> match spec_table_of_name(table@) {
                None => r == Err::<RecordRef<'a>, QueryError>(QueryError::UnknownTable),
                Some(kind) => self.get_matches(
                    kind,
                    hex_val(token.spec_bytes()) as Token,
                    r,
                ),
            },
    {
        let tok = match decode_required_token(token.as_bytes()) {
            Ok(t) => t,
            Err(_) => {
                return Err(QueryError::MalformedToken);
            },
        };
        proof {
            lemma_lookup_some_iff_has_all(self);
        }
        if str_eq(table, "log") {
            match self.log.get(tok) {
                Some(rec) => Ok(RecordRef::Log(rec)),
                None => Err(QueryError::NotFoundRecord(tok)),
            }
        } else if str_eq(table, "map") {
            match self.map.get(tok) {
                Some(rec) => Ok(RecordRef::MapTable(rec)),
                None => Err(QueryError::NotFoundRecord(tok)),
            }
        } else if str_eq(table, "sensor") {
            match self.sensor.get(tok) {
                Some(rec) => Ok(RecordRef::Sensor(rec)),
                None => Err(QueryError::NotFoundRecord(tok)),
            }
        } else if str_eq(table, "calibrated_sensor") {
            match self.calib.get(tok) {
                Some(rec) => Ok(RecordRef::CalibratedSensor(rec)),
                None => Err(QueryError::NotFoundRecord(tok)),
            }
        } else if str_eq(table, "scene") {
            match self.scene.get(tok) {
                Some(rec) => Ok(RecordRef::Scene(rec)),
                None => Err(QueryError::NotFoundRecord(tok)),
            }
        } else if str_eq(table, "sample") {
            match self.sample.get(tok) {
                Some(rec) => Ok(RecordRef::Sample(rec)),
                None => Err(QueryError::NotFoundRecord(tok)),
            }
        } else if str_eq(table, "sample_data") {
            match self.sample_data.get(tok) {
                Some(rec) => Ok(RecordRef::SampleData(rec)),
                None => Err(QueryError::NotFoundRecord(tok)),
            }
        } else if str_eq(table, "ego_pose") {
            match self.ego_pose.get(tok) {
                Some(rec) => Ok(RecordRef::EgoPose(rec)),
                None => Err(QueryError::NotFoundRecord(tok)),
            }
        } else if str_eq(table, "instance") {
            match self.instance.get(tok) {
                Some(rec) => Ok(RecordRef::Instance(rec)),
                None => Err(QueryError::NotFoundRecord(tok)),
            }
        } else if str_eq(table, "sample_annotation") {
            match self.sample_ann.get(tok) {
                Some(rec) => Ok(RecordRef::SampleAnnotation(rec)),
                None => Err(QueryError::NotFoundRecord(tok)),
            }
        } else if str_eq(table, "category") {
            match self.category.get(tok) {
                Some(rec) => Ok(RecordRef::Category(rec)),
                None => Err(QueryError::NotFoundRecord(tok)),
            }
        } else if str_eq(table, "attribute") {
            match self.attribute.get(tok) {
                Some(rec) => Ok(RecordRef::Attribute(rec)),
                None => Err(QueryError::NotFoundRecord(tok)),
            }
        } else if str_eq(table, "lidarseg") {
            match &self.lidarseg {
                Some(tab) => match tab.get(tok) {
                    Some(rec) => Ok(RecordRef::LidarSeg(rec)),
                    None => Err(QueryError::NotFoundRecord(tok)),
                },
                None => Err(QueryError::TableUnavailable(SourceId::Lidarseg)),
            }
        } else if str_eq(table, "panoptic") {
            match &self.panoptic {
                Some(tab) => match tab.get(tok) {
                    Some(rec) => Ok(RecordRef::Panoptic(rec)),
                    None => Err(QueryError::NotFoundRecord(tok)),
                },
                None => Err(QueryError::TableUnavailable(SourceId::Panoptic)),
            }
        } else {
            Err(QueryError::UnknownTable)
        }
    }
}

/// A borrowed view of one whole table, of whichever kind a scan named.
pub enum TableRef<'a> {
    Log(&'a Table<Log>),
    MapTable(&'a Table<MapRecord>),
    Sensor(&'a Table<Sensor>),
    CalibratedSensor(&'a Table<CalibratedSensor>),
    Scene(&'a Table<Scene>),
    Sample(&'a Table<Sample>),
    SampleData(&'a Table<SampleData>),
    EgoPose(&'a Table<EgoPose>),
    Instance(&'a Table<Instance>),
    SampleAnnotation(&'a Table<SampleAnnotation>),
    Category(&'a Table<Category>),
    Attribute(&'a Table<Attribute>),
    LidarSeg(&'a Table<LidarSeg>),
    Panoptic(&'a Table<Panoptic>),
}

impl Tables {
    /// What a scan of the named table must hand out: that table itself, or,
    /// for an optional table this snapshot does not hold, an unavailability
    /// error.
    pub open spec fn scan_matches<'a>(
        self,
        kind: SourceId,
        r: Result<TableRef<'a>, QueryError>,
    ) -> bool {
        match kind {
            SourceId::Log => r matches Ok(TableRef::Log(t)) && *t == self.log,
            SourceId::MapTable => r matches Ok(TableRef::MapTable(t)) && *t == self.map,
            SourceId::Sensor => r matches Ok(TableRef::Sensor(t)) && *t == self.sensor,
            SourceId::CalibratedSensor => r matches Ok(TableRef::CalibratedSensor(t)) && *t
                == self.calib,
            SourceId::Scene => r matches Ok(TableRef::Scene(t)) && *t == self.scene,
            SourceId::Sample => r matches Ok(TableRef::Sample(t)) && *t == self.sample,
            SourceId::SampleData => r matches Ok(TableRef::SampleData(t)) && *t
                == self.sample_data,
            SourceId::EgoPose => r matches Ok(TableRef::EgoPose(t)) && *t == self.ego_pose,
            SourceId::Instance => r matches Ok(TableRef::Instance(t)) && *t == self.instance,
            SourceId::SampleAnnotation => r matches Ok(TableRef::SampleAnnotation(t)) && *t
                == self.sample_ann,
            SourceId::Category => r matches Ok(TableRef::Category(t)) && *t == self.category,
            SourceId::Attribute => r matches Ok(TableRef::Attribute(t)) && *t == self.attribute,
            SourceId::Lidarseg => match self.lidarseg {
                None => r == Err::<TableRef<'a>, QueryError>(
                    QueryError::TableUnavailable(SourceId::Lidarseg),
                ),
                Some(tab) => r matches Ok(TableRef::LidarSeg(t)) && *t == tab,
            },
            SourceId::Panoptic => match self.panoptic {
                None => r == Err::<TableRef<'a>, QueryError>(
                    QueryError::TableUnavailable(SourceId::Panoptic),
                ),
                Some(tab) => r matches Ok(TableRef::Panoptic(t)) && *t == tab,
            },
        }
    }

    /// Full-table scan: hands out the named table, whose backing array
    /// preserves source-file order.
    pub fn scan<'a>(&'a self, table: &str) -> (r: Result<TableRef<'a>, QueryError>)
        ensures
            match spec_table_of_name(table@) {
                None => r == Err::<TableRef<'a>, QueryError>(QueryError::UnknownTable),
                Some(kind) => self.scan_matches(kind, r),
            },
    {
        if str_eq(table, "log") {
            Ok(TableRef::Log(&self.log))
        } else if str_eq(table, "map") {
            Ok(TableRef::MapTable(&self.map))
        } else if str_eq(table, "sensor") {
            Ok(TableRef::Sensor(&self.sensor))
        } else if str_eq(table, "calibrated_sensor") {
            Ok(TableRef::CalibratedSensor(&self.calib))
        } else if str_eq(table, "scene") {
            Ok(TableRef::Scene(&self.scene))
        } else if str_eq(table, "sample") {
            Ok(TableRef::Sample(&self.sample))
        } else if str_eq(table, "sample_data") {
            Ok(TableRef::SampleData(&self.sample_data))
        } else if str_eq(table, "ego_pose") {
            Ok(TableRef::EgoPose(&self.ego_pose))
        } else if str_eq(table, "instance") {
            Ok(TableRef::Instance(&self.instance))
        } else if str_eq(table, "sample_annotation") {
            Ok(TableRef::SampleAnnotation(&self.sample_ann))
        } else if str_eq(table, "category") {
            Ok(TableRef::Category(&self.category))
        } else if str_eq(table, "attribute") {
            Ok(TableRef::Attribute(&self.attribute))
        } else if str_eq(table, "lidarseg") {
            match &self.lidarseg {
                Some(tab) => Ok(TableRef::LidarSeg(tab)),
                None => Err(QueryError::TableUnavailable(SourceId::Lidarseg)),
            }
        } else if str_eq(table, "panoptic") {
            match &self.panoptic {
                Some(tab) => Ok(TableRef::Panoptic(tab)),
                None => Err(QueryError::TableUnavailable(SourceId::Panoptic)),
            }
        } else {
            Err(QueryError::UnknownTable)
        }
    }
}

/// In a well-formed snapshot a lookup returns a record exactly when some
/// row carries the token, in every table.
proof fn lemma_lookup_some_iff_has_all(t: &Tables)
    ensures
        forall|tok: Token| #[trigger] lookup_rows(t.log.rows(), tok) is Some <==> crate::table::has_token(t.log.rows(), tok),
        forall|tok: Token| #[trigger] lookup_rows(t.map.rows(), tok) is Some <==> crate::table::has_token(t.map.rows(), tok),
        forall|tok: Token| #[trigger] lookup_rows(t.sensor.rows(), tok) is Some <==> crate::table::has_token(t.sensor.rows(), tok),
        forall|tok: Token| #[trigger] lookup_rows(t.calib.rows(), tok) is Some <==> crate::table::has_token(t.calib.rows(), tok),
        forall|tok: Token| #[trigger] lookup_rows(t.scene.rows(), tok) is Some <==> crate::table::has_token(t.scene.rows(), tok),
        forall|tok: Token| #[trigger] lookup_rows(t.sample.rows(), tok) is Some <==> crate::table::has_token(t.sample.rows(), tok),
        forall|tok: Token| #[trigger] lookup_rows(t.sample_data.rows(), tok) is Some <==> crate::table::has_token(t.sample_data.rows(), tok),
        forall|tok: Token| #[trigger] lookup_rows(t.ego_pose.rows(), tok) is Some <==> crate::table::has_token(t.ego_pose.rows(), tok),
        forall|tok: Token| #[trigger] lookup_rows(t.instance.rows(), tok) is Some <==> crate::table::has_token(t.instance.rows(), tok),
        forall|tok: Token| #[trigger] lookup_rows(t.sample_ann.rows(), tok) is Some <==> crate::table::has_token(t.sample_ann.rows(), tok),
        forall|tok: Token| #[trigger] lookup_rows(t.category.rows(), tok) is Some <==> crate::table::has_token(t.category.rows(), tok),
        forall|tok: Token| #[trigger] lookup_rows(t.attribute.rows(), tok) is Some <==> crate::table::has_token(t.attribute.rows(), tok),
        t.lidarseg matches Some(tab) ==> forall|tok: Token| #[trigger] lookup_rows(tab.rows(), tok) is Some <==> crate::table::has_token(tab.rows(), tok),
        t.panoptic matches Some(tab) ==> forall|tok: Token| #[trigger] lookup_rows(tab.rows(), tok) is Some <==> crate::table::has_token(tab.rows(), tok),
{
    assert forall|tok: Token| #[trigger] lookup_rows(t.log.rows(), tok) is Some <==> crate::table::has_token(t.log.rows(), tok) by {
        crate::table::lemma_lookup_some_iff_has(t.log.rows(), tok);
    }
    assert forall|tok: Token| #[trigger] lookup_rows(t.map.rows(), tok) is Some <==> crate::table::has_token(t.map.rows(), tok) by {
        crate::table::lemma_lookup_some_iff_has(t.map.rows(), tok);
    }
    assert forall|tok: Token| #[trigger] lookup_rows(t.sensor.rows(), tok) is Some <==> crate::table::has_token(t.sensor.rows(), tok) by {
        crate::table::lemma_lookup_some_iff_has(t.sensor.rows(), tok);
    }
    assert forall|tok: Token| #[trigger] lookup_rows(t.calib.rows(), tok) is Some <==> crate::table::has_token(t.calib.rows(), tok) by {
        crate::table::lemma_lookup_some_iff_has(t.calib.rows(), tok);
    }
    assert forall|tok: Token| #[trigger] lookup_rows(t.scene.rows(), tok) is Some <==> crate::table::has_token(t.scene.rows(), tok) by {
        crate::table::lemma_lookup_some_iff_has(t.scene.rows(), tok);
    }
    assert forall|tok: Token| #[trigger] lookup_rows(t.sample.rows(), tok) is Some <==> crate::table::has_token(t.sample.rows(), tok) by {
        crate::table::lemma_lookup_some_iff_has(t.sample.rows(), tok);
    }
    assert forall|tok: Token| #[trigger] lookup_rows(t.sample_data.rows(), tok) is Some <==> crate::table::has_token(t.sample_data.rows(), tok) by {
        crate::table::lemma_lookup_some_iff_has(t.sample_data.rows(), tok);
    }
    assert forall|tok: Token| #[trigger] lookup_rows(t.ego_pose.rows(), tok) is Some <==> crate::table::has_token(t.ego_pose.rows(), tok) by {
        crate::table::lemma_lookup_some_iff_has(t.ego_pose.rows(), tok);
    }
    assert forall|tok: Token| #[trigger] lookup_rows(t.instance.rows(), tok) is Some <==> crate::table::has_token(t.instance.rows(), tok) by {
        crate::table::lemma_lookup_some_iff_has(t.instance.rows(), tok);
    }
    assert forall|tok: Token| #[trigger] lookup_rows(t.sample_ann.rows(), tok) is Some <==> crate::table::has_token(t.sample_ann.rows(), tok) by {
        crate::table::lemma_lookup_some_iff_has(t.sample_ann.rows(), tok);
    }
    assert forall|tok: Token| #[trigger] lookup_rows(t.category.rows(), tok) is Some <==> crate::table::has_token(t.category.rows(), tok) by {
        crate::table::lemma_lookup_some_iff_has(t.category.rows(), tok);
    }
    assert forall|tok: Token| #[trigger] lookup_rows(t.attribute.rows(), tok) is Some <==> crate::table::has_token(t.attribute.rows(), tok) by {
        crate::table::lemma_lookup_some_iff_has(t.attribute.rows(), tok);
    }
    if t.lidarseg is Some {
        let tab = t.lidarseg->0;
        assert forall|tok: Token| #[trigger] lookup_rows(tab.rows(), tok) is Some <==> crate::table::has_token(tab.rows(), tok) by {
            crate::table::lemma_lookup_some_iff_has(tab.rows(), tok);
        }
    }
    if t.panoptic is Some {
        let tab = t.panoptic->0;
        assert forall|tok: Token| #[trigger] lookup_rows(tab.rows(), tok) is Some <==> crate::table::has_token(tab.rows(), tok) by {
            crate::table::lemma_lookup_some_iff_has(tab.rows(), tok);
        }
    }
}

} // verus!
