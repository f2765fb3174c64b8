//! Angles in degrees and in radians.
pub mod deg;
pub mod rad;

pub use self::deg::Deg;
pub use self::rad::Rad;
