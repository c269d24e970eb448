//! Offsets: vectors that stand for a displacement or a velocity.

use crate::vector::{ToVector2D, Vector2D};
use vstd::prelude::*;

verus! {

/// Marker for a vector used as a displacement or velocity.
#[derive(Debug, Clone, Copy, PartialEq, Hash)]
pub struct Offset;

/// A two-dimensional vector representing an offset.
pub type Offset2D<T> = Vector2D<T, Offset>;

/// Anything that converts into an [`Offset2D`].
pub trait ToOffset2D<T>: ToVector2D<T, Offset> {

}

impl<T, V: ToVector2D<T, Offset>> ToOffset2D<T> for V {

}

} // verus!
