//! Rectangles measured in whole pixels.
//!
//! A [`Rectangle`] is a plain value: two unsigned sides, no hidden state.
//! The library computes its area and decides whether one rectangle can hold
//! another. Areas are returned as `u64`, wide enough for the product of any
//! two `u32` sides, so no operation here can overflow, wrap or fail.

pub mod measure;
pub mod rectangle;

pub use measure::{area, area_with_tuple};
pub use rectangle::{area_using_struct, Rectangle};
