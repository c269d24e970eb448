//! Points: vectors that stand for a position.

use crate::bounds::Bounds2D;
use crate::offset::Offset2D;
use crate::size::ToSize2D;
use crate::vector::{ToVector2D, Vector2D};
use std::ops::Sub;
use vstd::prelude::*;
use vstd::std_specs::ops::SubSpec;

verus! {

/// Marker for a vector used as a point.
#[derive(Debug, Default, Clone, Copy, PartialEq, Hash)]
pub struct Point;

/// A two-dimensional vector representing a point.
pub type Point2D<T> = Vector2D<T, Point>;

impl<T> Vector2D<T, Point> {
    /// Returns the offset that leads from `self` to `point`.
    ///
    /// Order matters: the offset that takes point A to point B is
    /// `a.offset(b)`.
    pub fn offset<P: ToPoint2D<T>>(self, point: P) -> (o: Offset2D<T>) where T: Sub<Output = T>
        requires
            point.as_vector().x.sub_req(self.x),
            point.as_vector().y.sub_req(self.y),
        ensures
            T::obeys_sub_spec() ==> o == Offset2D::of(
                point.as_vector().x.sub_spec(self.x),
                point.as_vector().y.sub_spec(self.y),
            ),
    {
        let point = point.to_vector();
        Offset2D::new(point.x - self.x, point.y - self.y)
    }

    /// Returns the [`Bounds2D`] that has `self` as position and `size` as
    /// size.
    pub fn with_size<S: ToSize2D<T>>(self, size: S) -> (b: Bounds2D<T>) where T: Copy
        ensures
            b == (Bounds2D { position: self, size: size.as_size() }),
    {
        Bounds2D::from_position_and_size(self, size)
    }
}

/// Anything that converts into a [`Point2D`].
pub trait ToPoint2D<T>: ToVector2D<T, Point> {

}

impl<T, V: ToVector2D<T, Point>> ToPoint2D<T> for V {

}

} // verus!
