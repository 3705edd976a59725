//! Quaternions and the rotations they stand for, over any scalar type.
//!
//! Every operation returns what a specification function of the same name,
//! with `_spec` appended, builds from the operations of the scalar type, in
//! the order in which the code applies them. The module `laws` proves the
//! identities that hold when the scalar type computes without rounding, and
//! `real_algebra` holds the arithmetic of real numbers that they rest on.

pub mod angle;
pub mod laws;
pub mod matrix;
pub mod point;
pub mod quaternion;
pub mod real_algebra;
pub mod rotation;
pub mod round_trip;
pub mod scalar;
pub mod text;
pub mod vector;

pub use angle::{acos, cos, rad, sin, sin_cos, Rad};
pub use matrix::{Matrix3, Matrix4, ToMatrix3, ToMatrix4};
pub use point::{Point2, Point3};
pub use quaternion::{Quaternion, ToQuaternion};
pub use rotation::{Basis3, Rotation, Rotation3, ToBasis3};
pub use scalar::Scalar;
pub use text::render;
pub use vector::{Vector3, Vector4};
