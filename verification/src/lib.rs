//! Small fixed-size vectors, matrices, complex numbers, multivectors, Euler
//! angles, rectangles and colours over bounded integer scalars.
//!
//! Every aggregate is generic in its scalar type `T`. Its view is the same
//! aggregate over `int`, and every operation is specified there, on
//! mathematical integers. An operation on `T` demands that `T` holds each
//! intermediate result and then returns exactly what the specification
//! says. Division rounds toward zero; where an operation guards against a
//! zero divisor it leaves its left operand unchanged.

pub mod adjugate;
pub mod blade;
pub mod color;
pub mod complex;
pub mod euler;
pub mod expansion;
pub mod mat2x2;
pub mod mat3x3;
pub mod mat4x4;
pub mod multivec2;
pub mod multivec3;
pub mod multivec4;
pub mod quaternion;
pub mod rectangle;
pub mod scalar;
pub mod signed;
pub mod text;
pub mod unsigned;
pub mod vector;

pub use color::{RGB, RGBA};
pub use complex::Complex;
pub use euler::YPB;
pub use mat2x2::Mat2x2;
pub use mat3x3::Mat3x3;
pub use mat4x4::Mat4x4;
pub use multivec2::MultiVec2;
pub use multivec3::MultiVec3;
pub use multivec4::MultiVec4;
pub use quaternion::Quaternion;
pub use rectangle::Rectangle;
pub use scalar::{Integer, One, Signed, Zero};
pub use vector::{XY, XYZ, XYZW};
