//! Naval-architecture design ratios for sailboat hulls.
//!
//! Physical quantities are held exactly, as fractions of their canonical
//! units, and every ratio category is decided on the exact ratio by whole-number
//! comparisons, so that no value near a category bound is misread.
pub mod bignum;
pub mod number;
pub mod si;
pub mod boat;
pub mod ratio;
pub mod length_beam;
pub mod displacement_length;
pub mod sail_area;
pub mod convert;
pub mod text;
