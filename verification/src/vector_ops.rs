//! Arithmetic on points and offsets, and conversions of vectors to and
//! from pairs.

use crate::offset::{Offset, Offset2D, ToOffset2D};
use crate::point::{Point, Point2D};
use crate::vector::{ToVector2D, Vector2D};
use std::ops::{Add, Mul, Sub};
use vstd::prelude::*;
use vstd::std_specs::convert::FromSpecImpl;
use vstd::std_specs::ops::{AddSpec, AddSpecImpl, MulSpec, MulSpecImpl, SubSpec, SubSpecImpl};

verus! {

impl<T, Rhs> AddSpecImpl<Rhs> for Vector2D<T, Point> where Rhs: ToOffset2D<T>, T: Add<Output = T> {
    open spec fn obeys_add_spec() -> bool {
        T::obeys_add_spec()
    }

    open spec fn add_req(self, rhs: Rhs) -> bool {
        self.x.add_req(rhs.as_vector().x) && self.y.add_req(rhs.as_vector().y)
    }

    open spec fn add_spec(self, rhs: Rhs) -> Point2D<T> {
        Vector2D::of(self.x.add_spec(rhs.as_vector().x), self.y.add_spec(rhs.as_vector().y))
    }
}

/// Moves a point by an offset.
impl<T, Rhs> Add<Rhs> for Vector2D<T, Point> where Rhs: ToOffset2D<T>, T: Add<Output = T> {
    type Output = Point2D<T>;

    fn add(self, rhs: Rhs) -> (moved: Point2D<T>) {
        self.add_components(rhs)
    }
}

impl<T, Rhs> SubSpecImpl<Rhs> for Vector2D<T, Point> where Rhs: ToOffset2D<T>, T: Sub<Output = T> {
    open spec fn obeys_sub_spec() -> bool {
        T::obeys_sub_spec()
    }

    open spec fn sub_req(self, rhs: Rhs) -> bool {
        self.x.sub_req(rhs.as_vector().x) && self.y.sub_req(rhs.as_vector().y)
    }

    open spec fn sub_spec(self, rhs: Rhs) -> Point2D<T> {
        Vector2D::of(self.x.sub_spec(rhs.as_vector().x), self.y.sub_spec(rhs.as_vector().y))
    }
}

/// Moves a point back by an offset.
impl<T, Rhs> Sub<Rhs> for Vector2D<T, Point> where Rhs: ToOffset2D<T>, T: Sub<Output = T> {
    type Output = Point2D<T>;

    fn sub(self, rhs: Rhs) -> (moved: Point2D<T>) {
        self.sub_components(rhs)
    }
}

impl<T, Rhs> AddSpecImpl<Rhs> for Vector2D<T, Offset> where Rhs: ToOffset2D<T>, T: Add<Output = T> {
    open spec fn obeys_add_spec() -> bool {
        T::obeys_add_spec()
    }

    open spec fn add_req(self, rhs: Rhs) -> bool {
        self.x.add_req(rhs.as_vector().x) && self.y.add_req(rhs.as_vector().y)
    }

    open spec fn add_spec(self, rhs: Rhs) -> Offset2D<T> {
        Vector2D::of(self.x.add_spec(rhs.as_vector().x), self.y.add_spec(rhs.as_vector().y))
    }
}

/// Moves an offset by an offset.
impl<T, Rhs> Add<Rhs> for Vector2D<T, Offset> where Rhs: ToOffset2D<T>, T: Add<Output = T> {
    type Output = Offset2D<T>;

    fn add(self, rhs: Rhs) -> (moved: Offset2D<T>) {
        self.add_components(rhs)
    }
}

impl<T, Rhs> SubSpecImpl<Rhs> for Vector2D<T, Offset> where Rhs: ToOffset2D<T>, T: Sub<Output = T> {
    open spec fn obeys_sub_spec() -> bool {
        T::obeys_sub_spec()
    }

    open spec fn sub_req(self, rhs: Rhs) -> bool {
        self.x.sub_req(rhs.as_vector().x) && self.y.sub_req(rhs.as_vector().y)
    }

    open spec fn sub_spec(self, rhs: Rhs) -> Offset2D<T> {
        Vector2D::of(self.x.sub_spec(rhs.as_vector().x), self.y.sub_spec(rhs.as_vector().y))
    }
}

/// Moves an offset back by an offset.
impl<T, Rhs> Sub<Rhs> for Vector2D<T, Offset> where Rhs: ToOffset2D<T>, T: Sub<Output = T> {
    type Output = Offset2D<T>;

    fn sub(self, rhs: Rhs) -> (moved: Offset2D<T>) {
        self.sub_components(rhs)
    }
}

impl<T> MulSpecImpl<T> for Vector2D<T, Offset> where T: Copy + Mul<Output = T> {
    open spec fn obeys_mul_spec() -> bool {
        T::obeys_mul_spec()
    }

    open spec fn mul_req(self, rhs: T) -> bool {
        self.x.mul_req(rhs) && self.y.mul_req(rhs)
    }

    open spec fn mul_spec(self, rhs: T) -> Offset2D<T> {
        Vector2D::of(self.x.mul_spec(rhs), self.y.mul_spec(rhs))
    }
}

/// Scales an offset: both components are multiplied by `rhs`.
impl<T> Mul<T> for Vector2D<T, Offset> where T: Copy + Mul<Output = T> {
    type Output = Offset2D<T>;

    fn mul(self, rhs: T) -> (scaled: Offset2D<T>) {
        Offset2D::new(self.x * rhs, self.y * rhs)
    }
}

impl<T, K> FromSpecImpl<Vector2D<T, K>> for (T, T) {
    open spec fn obeys_from_spec() -> bool {
        true
    }

    open spec fn from_spec(vector: Vector2D<T, K>) -> (T, T) {
        (vector.x, vector.y)
    }
}

impl<T, K> From<Vector2D<T, K>> for (T, T) {
    fn from(vector: Vector2D<T, K>) -> (pair: (T, T)) {
        (vector.x, vector.y)
    }
}

impl<T, K> FromSpecImpl<(T, T)> for Vector2D<T, K> {
    open spec fn obeys_from_spec() -> bool {
        true
    }

    open spec fn from_spec(tuple: (T, T)) -> Vector2D<T, K> {
        Vector2D::of(tuple.0, tuple.1)
    }
}

impl<T, K> From<(T, T)> for Vector2D<T, K> {
    fn from(tuple: (T, T)) -> (vector: Vector2D<T, K>) {
        Vector2D::new(tuple.0, tuple.1)
    }
}

} // verus!
