//! Geometric payloads carried by pose, calibration and annotation records.
//!
//! The engine never computes with these values; it only stores and hands
//! them back. Each component is kept as the 32-bit IEEE-754 bit pattern of
//! the source value, so the records stay plain data; the host boundary
//! converts bit patterns to and from native floating point.

use vstd::prelude::*;

verus! {

/// A 3-vector of IEEE-754 bit patterns (a translation or a box size).
#[derive(Clone, Copy, Debug, PartialEq, Eq, Structural)]
pub struct Vec3 {
    pub x: u32,
    pub y: u32,
    pub z: u32,
}

/// A 4-vector of IEEE-754 bit patterns (a rotation quaternion).
#[derive(Clone, Copy, Debug, PartialEq, Eq, Structural)]
pub struct Vec4 {
    pub x: u32,
    pub y: u32,
    pub z: u32,
    pub w: u32,
}

/// A 3x3 matrix of IEEE-754 bit patterns (a camera intrinsic), row-major.
#[derive(Clone, Copy, Debug, PartialEq, Eq, Structural)]
pub struct Mat3 {
    pub r0: Vec3,
    pub r1: Vec3,
    pub r2: Vec3,
}

/// A row list that is not empty yet not exactly three rows is malformed.
#[derive(Clone, Copy, Debug, PartialEq, Eq, Structural)]
pub enum MatrixError {
    NotThreeByThree,
}

/// Shape rule for the camera-intrinsic field: the source stores either an
/// empty row list, meaning "no intrinsic", or exactly three rows.
pub struct EmptyMatrix3AsNone;

impl EmptyMatrix3AsNone {
    /// Converts a row list into an optional matrix: no rows mean absence,
    /// exactly three rows form a matrix, anything else is malformed.
    pub fn convert(rows: &Vec<Vec3>) -> (r: Result<Option<Mat3>, MatrixError>)
        ensures
            rows@.len() == 0 ==> r == Ok::<Option<Mat3>, MatrixError>(None),
            rows@.len() == 3 ==> r == Ok::<Option<Mat3>, MatrixError>(
                Some(Mat3 { r0: rows@[0], r1: rows@[1], r2: rows@[2] }),
            ),
            rows@.len() != 0 && rows@.len() != 3 ==> r == Err::<Option<Mat3>, MatrixError>(
                MatrixError::NotThreeByThree,
            ),
    {
        if rows.len() == 0 {
            Ok(None)
        } else if rows.len() == 3 {
            Ok(Some(Mat3 { r0: rows[0], r1: rows[1], r2: rows[2] }))
        } else {
            Err(MatrixError::NotThreeByThree)
        }
    }
}

} // verus!
