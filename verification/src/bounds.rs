//! A two-dimensional bounding box: a position and a size.

use crate::point::{Point2D, ToPoint2D};
use crate::size::{comparable_areas, grown, larger, shrunk, smaller, Size2D, ToSize2D};
use crate::vector::{ToVector2D, Vector2D};
use std::ops::{Add, Mul};
use vstd::prelude::*;
use vstd::std_specs::cmp::PartialOrdSpec;
use vstd::std_specs::ops::{AddSpec, MulSpec};

verus! {

/// A two-dimensional bounding box.
#[derive(Debug, PartialEq, Hash)]
pub struct Bounds2D<T> {
    pub position: Point2D<T>,
    pub size: Size2D<T>,
}

impl<T: Copy> Clone for Bounds2D<T> {
    fn clone(&self) -> (b: Self)
        ensures
            b == *self,
    {
        *self
    }
}

impl<T: Copy> Copy for Bounds2D<T> {

}

impl<T: Default> Default for Bounds2D<T> {
    /// The bounds whose four components are all the default of `T`.
    fn default() -> (b: Self)
        ensures
            call_ensures(T::default, (), b.position.x),
            call_ensures(T::default, (), b.position.y),
            call_ensures(T::default, (), b.size.width),
            call_ensures(T::default, (), b.size.height),
    {
        Bounds2D {
            position: Vector2D::new(T::default(), T::default()),
            size: Size2D { width: T::default(), height: T::default() },
        }
    }
}

impl<T: Copy> Bounds2D<T> {
    /// The bounds at `(x, y)` that are `width` wide and `height` high.
    pub open spec fn of(x: T, y: T, width: T, height: T) -> Self {
        Bounds2D { position: Vector2D::of(x, y), size: Size2D { width, height } }
    }

    /// Creates a new [`Bounds2D`].
    pub fn new(x: T, y: T, width: T, height: T) -> (b: Self)
        ensures
            b == Self::of(x, y, width, height),
    {
        let position = Point2D::new(x, y);
        let size = Size2D::new(width, height);
        Self { position, size }
    }

    /// Returns a new [`Bounds2D`] where all components are set to `value`.
    pub fn splat(value: T) -> (b: Self)
        ensures
            b == Self::of(value, value, value, value),
    {
        Self::from_position_and_size(Point2D::splat(value), Size2D::square(value))
    }

    /// Creates a new [`Bounds2D`] from a position and size.
    pub fn from_position_and_size<P, S>(position: P, size: S) -> (b: Self) where
        P: ToPoint2D<T>,
        S: ToSize2D<T>,

        ensures
            b == (Bounds2D { position: position.as_vector(), size: size.as_size() }),
    {
        let position = position.to_vector();
        let size = size.to_size();
        Self { position, size }
    }

    /// Creates a new [`Bounds2D`] with the specified position and the size
    /// of `self`.
    pub fn with_position<P: ToPoint2D<T>>(&self, point: P) -> (b: Bounds2D<T>)
        ensures
            b == (Bounds2D { position: point.as_vector(), size: self.size }),
    {
        Bounds2D::from_position_and_size(point, self.size)
    }

    /// Creates a new [`Bounds2D`] with the specified size and the position
    /// of `self`.
    pub fn with_size<S: ToSize2D<T>>(&self, size: S) -> (b: Bounds2D<T>)
        ensures
            b == (Bounds2D { position: self.position, size: size.as_size() }),
    {
        Bounds2D::from_position_and_size(self.position, size)
    }

    /// The extent along X.
    pub fn width(&self) -> (w: T)
        ensures
            w == self.size.width,
    {
        self.size.width
    }

    /// The extent along Y.
    pub fn height(&self) -> (h: T)
        ensures
            h == self.size.height,
    {
        self.size.height
    }

    /// The Y coordinate of the top edge.
    pub fn top(&self) -> (y: T)
        ensures
            y == self.position.y,
    {
        self.position.y
    }

    /// The X coordinate of the left edge.
    pub fn left(&self) -> (x: T)
        ensures
            x == self.position.x,
    {
        self.position.x
    }

    /// The X coordinate just past the right edge: `x + width`.
    pub fn right(&self) -> (r: T) where T: Add<Output = T>
        requires
            self.position.x.add_req(self.size.width),
        ensures
            T::obeys_add_spec() ==> r == self.position.x.add_spec(self.size.width),
    {
        self.position.x + self.size.width
    }

    /// The Y coordinate just past the bottom edge: `y + height`.
    pub fn bottom(&self) -> (b: T) where T: Add<Output = T>
        requires
            self.position.y.add_req(self.size.height),
        ensures
            T::obeys_add_spec() ==> b == self.position.y.add_spec(self.size.height),
    {
        self.position.y + self.size.height
    }

    /// The area of the size: `width * height`.
    pub fn area(&self) -> (a: T) where T: Mul<Output = T>
        requires
            self.size.width.mul_req(self.size.height),
        ensures
            T::obeys_mul_spec() ==> a == self.size.width.mul_spec(self.size.height),
    {
        self.size.area()
    }

    /// The size of the box.
    pub fn size(&self) -> (s: Size2D<T>)
        ensures
            s == self.size,
    {
        self.size
    }

    /// The position of the top-left corner.
    pub fn position(&self) -> (p: Point2D<T>)
        ensures
            p == self.position,
    {
        self.position
    }

    /// The same box, its size grown component-wise to at least `size`.
    pub fn grow<S: ToSize2D<T>>(&self, size: S) -> (b: Bounds2D<T>) where T: PartialOrd
        ensures
            b.position == self.position,
            T::obeys_partial_cmp_spec() ==> b.size == grown(self.size, size.as_size()),
    {
        Bounds2D::from_position_and_size(self.position, self.size.grow(size))
    }

    /// The same box, its size shrunk component-wise to at most `size`.
    pub fn shrink<S: ToSize2D<T>>(&self, size: S) -> (b: Bounds2D<T>) where T: PartialOrd
        ensures
            b.position == self.position,
            T::obeys_partial_cmp_spec() ==> b.size == shrunk(self.size, size.as_size()),
    {
        Bounds2D::from_position_and_size(self.position, self.size.shrink(size))
    }

    /// The same box, its size constrained component-wise within `min` and
    /// `max`.
    pub fn constrain<S: ToSize2D<T>>(&self, min: S, max: S) -> (b: Bounds2D<T>) where T: PartialOrd
        ensures
            b.position == self.position,
            T::obeys_partial_cmp_spec() ==> b.size == grown(
                shrunk(self.size, max.as_size()),
                min.as_size(),
            ),
    {
        Bounds2D::from_position_and_size(self.position, self.size.constrain(min, max))
    }

    /// The same box with whichever of its size and `size` has the bigger
    /// area.
    pub fn max_area<S: ToSize2D<T>>(&self, size: S) -> (b: Bounds2D<T>) where
        T: Mul<Output = T> + PartialOrd,

        requires
            self.size.width.mul_req(self.size.height),
            size.as_size().width.mul_req(size.as_size().height),
        ensures
            b.position == self.position,
            b.size == self.size || b.size == size.as_size(),
            comparable_areas::<T>() ==> b.size == larger(self.size, size.as_size()),
    {
        Bounds2D::from_position_and_size(self.position, self.size.max_area(size))
    }

    /// The same box with whichever of its size and `size` has the smaller
    /// area.
    pub fn min_area<S: ToSize2D<T>>(&self, size: S) -> (b: Bounds2D<T>) where
        T: Mul<Output = T> + PartialOrd,

        requires
            self.size.width.mul_req(self.size.height),
            size.as_size().width.mul_req(size.as_size().height),
        ensures
            b.position == self.position,
            b.size == self.size || b.size == size.as_size(),
            comparable_areas::<T>() ==> b.size == smaller(self.size, size.as_size()),
    {
        Bounds2D::from_position_and_size(self.position, self.size.min_area(size))
    }

    /// The same box, the area of its size clamped between that of `min` and
    /// that of `max`.
    pub fn clamp_area<S: ToSize2D<T>>(&self, min: S, max: S) -> (b: Bounds2D<T>) where
        T: Mul<Output = T> + PartialOrd,

        requires
            self.size.width.mul_req(self.size.height),
            min.as_size().width.mul_req(min.as_size().height),
            max.as_size().width.mul_req(max.as_size().height),
        ensures
            b.position == self.position,
            b.size == self.size || b.size == min.as_size() || b.size == max.as_size(),
            comparable_areas::<T>() ==> b.size == larger(
                smaller(self.size, max.as_size()),
                min.as_size(),
            ),
    {
        Bounds2D::from_position_and_size(self.position, self.size.clamp_area(min, max))
    }
}

/// Anything that can stand where a [`Bounds2D`] is expected.
pub trait IntoBounds2D<T>: Sized {
    /// The bounds that `self` converts into.
    spec fn as_bounds(self) -> Bounds2D<T>;

    /// Converts this value into a [`Bounds2D`].
    fn to_bounds(self) -> (b: Bounds2D<T>)
        ensures
            b == self.as_bounds(),
    ;
}

impl<T> IntoBounds2D<T> for Bounds2D<T> {
    open spec fn as_bounds(self) -> Bounds2D<T> {
        self
    }

    fn to_bounds(self) -> (b: Bounds2D<T>) {
        self
    }
}

impl<T: Copy> IntoBounds2D<T> for (T, T, T, T) {
    open spec fn as_bounds(self) -> Bounds2D<T> {
        Bounds2D::of(self.0, self.1, self.2, self.3)
    }

    fn to_bounds(self) -> (b: Bounds2D<T>) {
        let (x, y, width, height) = self;
        Bounds2D::new(x, y, width, height)
    }
}

impl<T: Copy> IntoBounds2D<T> for [T; 4] {
    open spec fn as_bounds(self) -> Bounds2D<T> {
        Bounds2D::of(self[0], self[1], self[2], self[3])
    }

    fn to_bounds(self) -> (b: Bounds2D<T>) {
        Bounds2D::new(self[0], self[1], self[2], self[3])
    }
}

} // verus!
