//! Sine and cosine by CORDIC rotations over a binary fixed-point number type.
//!
//! `fixed` holds the number type; `engine` holds the angle table, the gain
//! factor and the rotation loop; `laws` states and proves what they obey,
//! and `magnitude` proves that the result keeps close to unit length.

pub mod engine;
pub mod fixed;
pub mod laws;
pub mod magnitude;

pub use engine::{build_angle_table, cordic, gain_factor, reduce_angle, rotate, CordicError};
pub use fixed::FixedPoint;
