//! Geometric primitives over any numeric type: vectors of two, three and
//! four components; axis-aligned boxes in three representations that convert
//! into one another; circles, spheres and balls in four dimensions; line
//! segments with their intersection; and a table of easing curves.
//!
//! Every function is generic over its numeric type `T` and asks of `T` only
//! the operators it uses. A contract states the result in the arithmetic of
//! `T`: it requires that each operator is defined on its operands, and it
//! speaks of the value that the operator's specification gives. The laws in
//! `laws` are proved for the types of `numeric::Integral`, whose operators
//! compute on mathematical integers.

pub mod float_ops;
pub mod interpolate;
pub mod laws;
pub mod numeric;
pub mod shapes;
pub mod vectors;
