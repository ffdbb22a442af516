//! Numerical methods over an abstract scalar type: finite-difference
//! derivatives, fixed-step quadrature, root finding and propagation of
//! measurement uncertainty.
//!
//! Every routine is generic over [`scalar::Scalar`] and is specified by a
//! `*_spec` function built from the scalar's own operators, so a result is
//! pinned down exactly as far as the scalar's arithmetic is.

pub mod scalar;
pub mod vector;
pub mod matrix;
pub mod evaluate;
pub mod differentiate;
pub mod integrate;
pub mod solver;
pub mod uncertainty;
pub mod linalg;
