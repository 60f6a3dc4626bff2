//! A small Monte Carlo path tracer, generic in its arithmetic.
//!
//! A path tracer follows rays from the eye into a scene and sums the light
//! they find. This crate holds the tracer: the vector algebra, rays and the
//! camera, shapes and which crossing of a ray with them counts as the hit,
//! materials and whether they scatter a ray or absorb it, the scene and how
//! far a path is followed in it, and the frame with the bytes it stores.
//!
//! Scalars are IEEE-754 binary64 values, held as their bits. The crate
//! itself orders, negates, clamps and truncates them, and never rounds:
//! every sum, product, quotient, root and random number is asked of a
//! [`Kernel`], and the tracer goes on with whatever the kernel hands back.
//! What a function that asks the kernel promises is therefore a relation
//! between its result and the kernel's answers. What is decided on those
//! answers is stated exactly: the functions named `decide` take the answers
//! and make the decision.
//!
//! [`Kernel`]: kernel::Kernel

pub mod algebra;
pub mod camera;
pub mod energy;
pub mod float3;
pub mod frame;
pub mod fuga;
pub mod kernel;
pub mod nearest;
pub mod probe;
pub mod quaternion;
pub mod ray;
pub mod render;
pub mod scalar;
pub mod sameness;
pub mod scene;
pub mod shape;
pub mod value;
