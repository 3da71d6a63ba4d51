//! Denormalized, query-ready records: one struct per table, each carrying
//! its source fields plus the fields the resolver derives from other
//! tables (a log's owning map, a capture's modality and channel, an
//! annotation's category name, a sample's per-channel slots and
//! annotation set).

use vstd::pervasive::VecAdditionalExecFns;
use vstd::prelude::*;

use crate::common::{SensorChannel, SensorModality, Visibility};
use crate::geom::{Mat3, Vec3, Vec4};
use crate::model::{
    AttributeModel, CalibratedSensorModel, CategoryModel, EgoPoseModel, InstanceModel,
    LidarSegModel, LogModel, MapModel, PanopticModel, SampleAnnotationModel, SampleDataModel,
    SampleModel, SceneModel, SensorModel,
};
use crate::table::AsRefToken;
use crate::token::Token;

verus! {

/// The capture slot of every sensor channel for one sample: a fixed array
/// with one token per channel, the zero token standing for an absent
/// capture.
#[derive(Clone, Debug)]
pub struct ChannelSlots {
    pub slots: Vec<Token>,
}

impl ChannelSlots {
    /// One slot per channel, no more, no fewer.
    pub open spec fn wf(self) -> bool {
        self.slots@.len() == 12
    }

    /// The token in a channel's slot.
    pub open spec fn spec_get(self, c: SensorChannel) -> Token {
        self.slots@[c.spec_slot()]
    }

    /// All twelve slots empty.
    pub fn empty() -> (r: Self)
        ensures
            r.wf(),
            forall|c: SensorChannel| r.spec_get(c) == 0,
    {
        let mut slots: Vec<Token> = Vec::new();
        let mut i: usize = 0;
        while i < 12
            invariant
                i <= 12,
                slots@.len() == i,
                forall|j: int| 0 <= j < i ==> slots@[j] == 0,
            decreases 12 - i,
        {
            slots.push(0);
            i = i + 1;
        }
        ChannelSlots { slots }
    }

    pub fn get(&self, c: SensorChannel) -> (t: Token)
        requires
            self.wf(),
        ensures
            t == self.spec_get(c),
    {
        self.slots[c.slot()]
    }

    pub fn set(&mut self, c: SensorChannel, t: Token)
        requires
            old(self).wf(),
        ensures
            final(self).wf(),
            final(self).spec_get(c) == t,
            forall|c2: SensorChannel| c2 != c ==> final(self).spec_get(c2) == old(self).spec_get(
                c2,
            ),
    {
        let i = c.slot();
        self.slots.set(i, t);
    }
}

/// One continuous recording: the vehicle, the place, the date, and the
/// owning map, found by reverse lookup through the map table.
#[derive(Clone, Debug)]
pub struct Log {
    pub token: Token,
    pub logfile: String,
    pub vehicle: String,
    pub location: String,
    pub date_captured: String,
    pub map_token: Token,
}

impl Log {
    pub fn from_model(map_token: Token, model: LogModel) -> (r: Self)
        ensures
            r == (Log {
                token: model.token,
                logfile: model.logfile,
                vehicle: model.vehicle,
                location: model.location,
                date_captured: model.date_captured,
                map_token,
            }),
    {
        Log {
            token: model.token,
            logfile: model.logfile,
            vehicle: model.vehicle,
            location: model.location,
            date_captured: model.date_captured,
            map_token,
        }
    }
}

/// A map, owning the logs recorded on it through `log_tokens`.
#[derive(Clone, Debug)]
pub struct MapRecord {
    pub token: Token,
    pub log_tokens: Vec<Token>,
    pub category: String,
    pub filename: String,
}

impl MapRecord {
    pub open spec fn spec_from_model(m: MapModel) -> MapRecord {
        MapRecord {
            token: m.token,
            log_tokens: m.log_tokens,
            category: m.category,
            filename: m.filename,
        }
    }

    pub fn from_model(model: MapModel) -> (r: Self)
        ensures
            r == (MapRecord {
                token: model.token,
                log_tokens: model.log_tokens,
                category: model.category,
                filename: model.filename,
            }),
    {
        MapRecord {
            token: model.token,
            log_tokens: model.log_tokens,
            category: model.category,
            filename: model.filename,
        }
    }
}

/// One of the twelve physical sensors.
#[derive(Clone, Copy, Debug)]
pub struct Sensor {
    pub token: Token,
    pub channel: SensorChannel,
    pub modality: SensorModality,
}

impl Sensor {
    pub open spec fn spec_from_model(m: SensorModel) -> Sensor {
        Sensor { token: m.token, channel: m.channel, modality: m.modality }
    }

    pub fn from_model(model: SensorModel) -> (r: Self)
        ensures
            r == (Sensor { token: model.token, channel: model.channel, modality: model.modality }),
    {
        Sensor { token: model.token, channel: model.channel, modality: model.modality }
    }
}

/// A sensor's mounting pose and optional camera intrinsic.
#[derive(Clone, Copy, Debug)]
pub struct CalibratedSensor {
    pub token: Token,
    pub sensor_token: Token,
    pub translation: Vec3,
    pub rotation: Vec4,
    pub camera_intrinsic: Option<Mat3>,
}

impl CalibratedSensor {
    pub open spec fn spec_from_model(m: CalibratedSensorModel) -> CalibratedSensor {
        CalibratedSensor {
            token: m.token,
            sensor_token: m.sensor_token,
            translation: m.translation,
            rotation: m.rotation,
            camera_intrinsic: m.camera_intrinsic,
        }
    }

    pub fn from_model(model: CalibratedSensorModel) -> (r: Self)
        ensures
            r == (CalibratedSensor {
                token: model.token,
                sensor_token: model.sensor_token,
                translation: model.translation,
                rotation: model.rotation,
                camera_intrinsic: model.camera_intrinsic,
            }),
    {
        CalibratedSensor {
            token: model.token,
            sensor_token: model.sensor_token,
            translation: model.translation,
            rotation: model.rotation,
            camera_intrinsic: model.camera_intrinsic,
        }
    }
}

/// The vehicle's pose at one capture instant.
#[derive(Clone, Copy, Debug)]
pub struct EgoPose {
    pub token: Token,
    pub timestamp: u64,
    pub translation: Vec3,
    pub rotation: Vec4,
}

impl EgoPose {
    pub open spec fn spec_from_model(m: EgoPoseModel) -> EgoPose {
        EgoPose {
            token: m.token,
            timestamp: m.timestamp,
            translation: m.translation,
            rotation: m.rotation,
        }
    }

    pub fn from_model(model: EgoPoseModel) -> (r: Self)
        ensures
            r == (EgoPose {
                token: model.token,
                timestamp: model.timestamp,
                translation: model.translation,
                rotation: model.rotation,
            }),
    {
        EgoPose {
            token: model.token,
            timestamp: model.timestamp,
            translation: model.translation,
            rotation: model.rotation,
        }
    }
}

/// An ordered run of samples from one log.
#[derive(Clone, Debug)]
pub struct Scene {
    pub token: Token,
    pub log_token: Token,
    pub name: String,
    pub desc: String,
    pub nbr_samples: u16,
    pub first_sample_token: Token,
    pub last_sample_token: Token,
}

impl Scene {
    pub open spec fn spec_from_model(m: SceneModel) -> Scene {
        Scene {
            token: m.token,
            log_token: m.log_token,
            name: m.name,
            desc: m.description,
            nbr_samples: m.nbr_samples,
            first_sample_token: m.first_sample_token,
            last_sample_token: m.last_sample_token,
        }
    }

    pub fn from_model(model: SceneModel) -> (r: Self)
        ensures
            r == (Scene {
                token: model.token,
                log_token: model.log_token,
                name: model.name,
                desc: model.description,
                nbr_samples: model.nbr_samples,
                first_sample_token: model.first_sample_token,
                last_sample_token: model.last_sample_token,
            }),
    {
        Scene {
            token: model.token,
            log_token: model.log_token,
            name: model.name,
            desc: model.description,
            nbr_samples: model.nbr_samples,
            first_sample_token: model.first_sample_token,
            last_sample_token: model.last_sample_token,
        }
    }
}

/// One keyframe instant: the per-channel capture slots and the set of
/// annotations, both derived by the aggregation pass.
#[derive(Clone, Debug)]
pub struct Sample {
    pub token: Token,
    pub scene_token: Token,
    pub prev: Option<Token>,
    pub next: Option<Token>,
    pub timestamp: u64,
    pub data: ChannelSlots,
    pub anns: Vec<Token>,
}

impl Sample {
    pub fn from_model(data: ChannelSlots, anns: Vec<Token>, model: SampleModel) -> (r: Self)
        ensures
            r == (Sample {
                token: model.token,
                scene_token: model.scene_token,
                prev: model.prev,
                next: model.next,
                timestamp: model.timestamp,
                data,
                anns,
            }),
    {
        Sample {
            token: model.token,
            scene_token: model.scene_token,
            prev: model.prev,
            next: model.next,
            timestamp: model.timestamp,
            data,
            anns,
        }
    }
}

/// One capture: a single sensor reading, with the modality and channel
/// derived through its calibrated sensor.
#[derive(Clone, Debug)]
pub struct SampleData {
    pub token: Token,
    pub sample_token: Token,
    pub ego_pose_token: Token,
    pub calibrated_sensor_token: Token,
    pub prev: Option<Token>,
    pub next: Option<Token>,
    pub fileformat: String,
    pub filename: String,
    pub timestamp: u64,
    pub is_key_frame: bool,
    pub height: u16,
    pub width: u16,
    pub modality: SensorModality,
    pub channel: SensorChannel,
}

impl SampleData {
    pub fn from_model(
        modality: SensorModality,
        channel: SensorChannel,
        model: SampleDataModel,
    ) -> (r: Self)
        ensures
            r == (SampleData {
                token: model.token,
                sample_token: model.sample_token,
                ego_pose_token: model.ego_pose_token,
                calibrated_sensor_token: model.calibrated_sensor_token,
                prev: model.prev,
                next: model.next,
                fileformat: model.fileformat,
                filename: model.filename,
                timestamp: model.timestamp,
                is_key_frame: model.is_key_frame,
                height: model.height,
                width: model.width,
                modality,
                channel,
            }),
    {
        SampleData {
            token: model.token,
            sample_token: model.sample_token,
            ego_pose_token: model.ego_pose_token,
            calibrated_sensor_token: model.calibrated_sensor_token,
            prev: model.prev,
            next: model.next,
            fileformat: model.fileformat,
            filename: model.filename,
            timestamp: model.timestamp,
            is_key_frame: model.is_key_frame,
            height: model.height,
            width: model.width,
            modality,
            channel,
        }
    }
}

/// One tracked object across its annotated lifetime.
#[derive(Clone, Copy, Debug)]
pub struct Instance {
    pub token: Token,
    pub category_token: Token,
    pub nbr_annotations: u32,
    pub first_annotation_token: Token,
    pub last_annotation_token: Token,
}

impl Instance {
    pub open spec fn spec_from_model(m: InstanceModel) -> Instance {
        Instance {
            token: m.token,
            category_token: m.category_token,
            nbr_annotations: m.nbr_annotations,
            first_annotation_token: m.first_annotation_token,
            last_annotation_token: m.last_annotation_token,
        }
    }

    pub fn from_model(model: InstanceModel) -> (r: Self)
        ensures
            r == (Instance {
                token: model.token,
                category_token: model.category_token,
                nbr_annotations: model.nbr_annotations,
                first_annotation_token: model.first_annotation_token,
                last_annotation_token: model.last_annotation_token,
            }),
    {
        Instance {
            token: model.token,
            category_token: model.category_token,
            nbr_annotations: model.nbr_annotations,
            first_annotation_token: model.first_annotation_token,
            last_annotation_token: model.last_annotation_token,
        }
    }
}

/// One object box in one sample, with the category name cached from
/// its instance's category.
#[derive(Clone, Debug)]
pub struct SampleAnnotation {
    pub token: Token,
    pub sample_token: Token,
    pub instance_token: Token,
    pub attribute_tokens: Vec<Token>,
    pub prev: Option<Token>,
    pub next: Option<Token>,
    pub visibility: Visibility,
    pub translation: Vec3,
    pub rotation: Vec4,
    pub size: Vec3,
    pub num_lidar_pts: u32,
    pub num_radar_pts: u32,
    pub category_name: String,
}

impl SampleAnnotation {
    pub fn from_model(category_name: String, model: SampleAnnotationModel) -> (r: Self)
        ensures
            r == (SampleAnnotation {
                token: model.token,
                sample_token: model.sample_token,
                instance_token: model.instance_token,
                attribute_tokens: model.attribute_tokens,
                prev: model.prev,
                next: model.next,
                visibility: model.visibility,
                translation: model.translation,
                rotation: model.rotation,
                size: model.size,
                num_lidar_pts: model.num_lidar_pts,
                num_radar_pts: model.num_radar_pts,
                category_name,
            }),
    {
        SampleAnnotation {
            token: model.token,
            sample_token: model.sample_token,
            instance_token: model.instance_token,
            attribute_tokens: model.attribute_tokens,
            prev: model.prev,
            next: model.next,
            visibility: model.visibility,
            translation: model.translation,
            rotation: model.rotation,
            size: model.size,
            num_lidar_pts: model.num_lidar_pts,
            num_radar_pts: model.num_radar_pts,
            category_name,
        }
    }
}

/// A taxonomy class, with its optional segmentation index.
#[derive(Clone, Debug)]
pub struct Category {
    pub token: Token,
    pub name: String,
    pub desc: String,
    pub index: Option<u32>,
}

impl Category {
    pub open spec fn spec_from_model(m: CategoryModel) -> Category {
        Category { token: m.token, name: m.name, desc: m.description, index: m.index }
    }

    pub fn from_model(model: CategoryModel) -> (r: Self)
        ensures
            r == (Category {
                token: model.token,
                name: model.name,
                desc: model.description,
                index: model.index,
            }),
    {
        Category {
            token: model.token,
            name: model.name,
            desc: model.description,
            index: model.index,
        }
    }
}

/// A state an annotated object can be in.
#[derive(Clone, Debug)]
pub struct Attribute {
    pub token: Token,
    pub name: String,
    pub desc: String,
}

impl Attribute {
    pub open spec fn spec_from_model(m: AttributeModel) -> Attribute {
        Attribute { token: m.token, name: m.name, desc: m.description }
    }

    pub fn from_model(model: AttributeModel) -> (r: Self)
        ensures
            r == (Attribute { token: model.token, name: model.name, desc: model.description }),
    {
        Attribute { token: model.token, name: model.name, desc: model.description }
    }
}

/// A per-capture lidar segmentation mask.
#[derive(Clone, Debug)]
pub struct LidarSeg {
    pub token: Token,
    pub sample_data_token: Token,
    pub filename: String,
}

impl LidarSeg {
    pub open spec fn spec_from_model(m: LidarSegModel) -> LidarSeg {
        LidarSeg {
            token: m.token,
            sample_data_token: m.sample_data_token,
            filename: m.filename,
        }
    }

    pub fn from_model(model: LidarSegModel) -> (r: Self)
        ensures
            r == (LidarSeg {
                token: model.token,
                sample_data_token: model.sample_data_token,
                filename: model.filename,
            }),
    {
        LidarSeg {
            token: model.token,
            sample_data_token: model.sample_data_token,
            filename: model.filename,
        }
    }
}

/// A per-capture panoptic segmentation mask.
#[derive(Clone, Debug)]
pub struct Panoptic {
    pub token: Token,
    pub sample_data_token: Token,
    pub filename: String,
}

impl Panoptic {
    pub open spec fn spec_from_model(m: PanopticModel) -> Panoptic {
        Panoptic {
            token: m.token,
            sample_data_token: m.sample_data_token,
            filename: m.filename,
        }
    }

    pub fn from_model(model: PanopticModel) -> (r: Self)
        ensures
            r == (Panoptic {
                token: model.token,
                sample_data_token: model.sample_data_token,
                filename: model.filename,
            }),
    {
        Panoptic {
            token: model.token,
            sample_data_token: model.sample_data_token,
            filename: model.filename,
        }
    }
}

impl AsRefToken for Log {
    open spec fn spec_token(&self) -> Token {
        self.token
    }

    fn as_ref_token(&self) -> (t: Token) {
        self.token
    }
}

impl AsRefToken for MapRecord {
    open spec fn spec_token(&self) -> Token {
        self.token
    }

    fn as_ref_token(&self) -> (t: Token) {
        self.token
    }
}

impl AsRefToken for Sensor {
    open spec fn spec_token(&self) -> Token {
        self.token
    }

    fn as_ref_token(&self) -> (t: Token) {
        self.token
    }
}

impl AsRefToken for CalibratedSensor {
    open spec fn spec_token(&self) -> Token {
        self.token
    }

    fn as_ref_token(&self) -> (t: Token) {
        self.token
    }
}

impl AsRefToken for EgoPose {
    open spec fn spec_token(&self) -> Token {
        self.token
    }

    fn as_ref_token(&self) -> (t: Token) {
        self.token
    }
}

impl AsRefToken for Scene {
    open spec fn spec_token(&self) -> Token {
        self.token
    }

    fn as_ref_token(&self) -> (t: Token) {
        self.token
    }
}

impl AsRefToken for Sample {
    open spec fn spec_token(&self) -> Token {
        self.token
    }

    fn as_ref_token(&self) -> (t: Token) {
        self.token
    }
}

impl AsRefToken for SampleData {
    open spec fn spec_token(&self) -> Token {
        self.token
    }

    fn as_ref_token(&self) -> (t: Token) {
        self.token
    }
}

impl AsRefToken for Instance {
    open spec fn spec_token(&self) -> Token {
        self.token
    }

    fn as_ref_token(&self) -> (t: Token) {
        self.token
    }
}

impl AsRefToken for SampleAnnotation {
    open spec fn spec_token(&self) -> Token {
        self.token
    }

    fn as_ref_token(&self) -> (t: Token) {
        self.token
    }
}

impl AsRefToken for Category {
    open spec fn spec_token(&self) -> Token {
        self.token
    }

    fn as_ref_token(&self) -> (t: Token) {
        self.token
    }
}

impl AsRefToken for Attribute {
    open spec fn spec_token(&self) -> Token {
        self.token
    }

    fn as_ref_token(&self) -> (t: Token) {
        self.token
    }
}

impl AsRefToken for LidarSeg {
    open spec fn spec_token(&self) -> Token {
        self.token
    }

    fn as_ref_token(&self) -> (t: Token) {
        self.token
    }
}

impl AsRefToken for Panoptic {
    open spec fn spec_token(&self) -> Token {
        self.token
    }

    fn as_ref_token(&self) -> (t: Token) {
        self.token
    }
}

} // verus!
