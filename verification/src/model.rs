//! Source-shaped rows: one struct per table, holding exactly the fields a
//! row carries in its source file, with tokens already decoded. The
//! resolver consumes these and produces the denormalized records of
//! `domain`.

use vstd::prelude::*;

use crate::common::{SensorChannel, SensorModality, Visibility};
use crate::geom::{Mat3, Vec3, Vec4};
use crate::token::Token;

verus! {

#[derive(Clone, Debug)]
pub struct LogModel {
    pub token: Token,
    pub logfile: String,
    pub vehicle: String,
    pub date_captured: String,
    pub location: String,
}

#[derive(Clone, Debug)]
pub struct MapModel {
    pub token: Token,
    pub log_tokens: Vec<Token>,
    pub category: String,
    pub filename: String,
}

#[derive(Clone, Copy, Debug)]
pub struct SensorModel {
    pub token: Token,
    pub channel: SensorChannel,
    pub modality: SensorModality,
}

#[derive(Clone, Copy, Debug)]
pub struct CalibratedSensorModel {
    pub token: Token,
    pub sensor_token: Token,
    pub translation: Vec3,
    pub rotation: Vec4,
    pub camera_intrinsic: Option<Mat3>,
}

#[derive(Clone, Copy, Debug)]
pub struct EgoPoseModel {
    pub token: Token,
    pub timestamp: u64,
    pub translation: Vec3,
    pub rotation: Vec4,
}

#[derive(Clone, Debug)]
pub struct SceneModel {
    pub token: Token,
    pub log_token: Token,
    pub name: String,
    pub description: String,
    pub nbr_samples: u16,
    pub first_sample_token: Token,
    pub last_sample_token: Token,
}

#[derive(Clone, Copy, Debug)]
pub struct SampleModel {
    pub token: Token,
    pub scene_token: Token,
    pub prev: Option<Token>,
    pub next: Option<Token>,
    pub timestamp: u64,
}

#[derive(Clone, Debug)]
pub struct SampleDataModel {
    pub token: Token,
    pub sample_token: Token,
    pub ego_pose_token: Token,
    pub calibrated_sensor_token: Token,
    pub prev: Option<Token>,
    pub next: Option<Token>,
    pub fileformat: String,
    pub filename: String,
    pub timestamp: u64,
    pub is_key_frame: bool,
    pub height: u16,
    pub width: u16,
}

#[derive(Clone, Copy, Debug)]
pub struct InstanceModel {
    pub token: Token,
    pub category_token: Token,
    pub nbr_annotations: u32,
    pub first_annotation_token: Token,
    pub last_annotation_token: Token,
}

#[derive(Clone, Debug)]
pub struct SampleAnnotationModel {
    pub token: Token,
    pub sample_token: Token,
    pub instance_token: Token,
    pub attribute_tokens: Vec<Token>,
    pub prev: Option<Token>,
    pub next: Option<Token>,
    pub visibility: Visibility,
    pub translation: Vec3,
    pub rotation: Vec4,
    pub size: Vec3,
    pub num_lidar_pts: u32,
    pub num_radar_pts: u32,
}

#[derive(Clone, Debug)]
pub struct CategoryModel {
    pub token: Token,
    pub name: String,
    pub description: String,
    pub index: Option<u32>,
}

#[derive(Clone, Debug)]
pub struct AttributeModel {
    pub token: Token,
    pub name: String,
    pub description: String,
}

#[derive(Clone, Debug)]
pub struct LidarSegModel {
    pub token: Token,
    pub sample_data_token: Token,
    pub filename: String,
}

#[derive(Clone, Debug)]
pub struct PanopticModel {
    pub token: Token,
    pub sample_data_token: Token,
    pub filename: String,
}

} // verus!
