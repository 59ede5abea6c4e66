//! Laws of the shapes, proved for every numeric type that they name.

pub mod agreement;
pub mod conversions;
pub mod meaning;
pub mod predicates;
pub mod resizing;
