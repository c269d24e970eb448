//! A generic two-component vector, tagged at the type level with what it measures.

use crate::magnitude::Magnitude;
use std::marker::PhantomData;
use std::ops::{Add, Mul, Sub};
use vstd::prelude::*;
use vstd::std_specs::ops::{AddSpec, MulSpec, SubSpec};

verus! {

/// A generic vector with an X and Y component.
///
/// `Kind` is a marker that keeps points, offsets and other pairs apart
/// without any cost at run time.
#[derive(Debug, PartialEq, Hash)]
pub struct Vector2D<T, Kind> {
    pub x: T,
    pub y: T,
    pub kind: PhantomData<Kind>,
}

impl<T: Copy, K> Clone for Vector2D<T, K> {
    fn clone(&self) -> (v: Self)
        ensures
            v == *self,
    {
        *self
    }
}

impl<T: Copy, K> Copy for Vector2D<T, K> {

}

impl<T: Default, K> Default for Vector2D<T, K> {
    /// The vector whose components are both the default of `T`.
    fn default() -> (v: Self)
        ensures
            call_ensures(T::default, (), v.x),
            call_ensures(T::default, (), v.y),
    {
        Vector2D { x: T::default(), y: T::default(), kind: PhantomData }
    }
}

impl<T, K> Vector2D<T, K> {
    /// The vector with the given components.
    pub open spec fn of(x: T, y: T) -> Self {
        Vector2D { x, y, kind: PhantomData }
    }

    /// Returns a new vector with `x` and `y` components.
    pub fn new(x: T, y: T) -> (v: Self)
        ensures
            v == Self::of(x, y),
    {
        Vector2D { x, y, kind: PhantomData }
    }

    /// Returns a new vector where both components are set to `value`.
    pub fn splat(value: T) -> (v: Self) where T: Copy
        ensures
            v == Self::of(value, value),
    {
        Vector2D { x: value, y: value, kind: PhantomData }
    }

    /// Adds `rhs` to `self`, component by component.
    pub fn add_components<V: ToVector2D<T, U>, U>(self, rhs: V) -> (v: Self) where
        T: Add<Output = T>,

        requires
            self.x.add_req(rhs.as_vector().x),
            self.y.add_req(rhs.as_vector().y),
        ensures
            T::obeys_add_spec() ==> v == Self::of(
                self.x.add_spec(rhs.as_vector().x),
                self.y.add_spec(rhs.as_vector().y),
            ),
    {
        let rhs = rhs.to_vector();
        Self::new(self.x + rhs.x, self.y + rhs.y)
    }

    /// Subtracts `rhs` from `self`, component by component.
    pub fn sub_components<V: ToVector2D<T, U>, U>(self, rhs: V) -> (v: Self) where
        T: Sub<Output = T>,

        requires
            self.x.sub_req(rhs.as_vector().x),
            self.y.sub_req(rhs.as_vector().y),
        ensures
            T::obeys_sub_spec() ==> v == Self::of(
                self.x.sub_spec(rhs.as_vector().x),
                self.y.sub_spec(rhs.as_vector().y),
            ),
    {
        let rhs = rhs.to_vector();
        Self::new(self.x - rhs.x, self.y - rhs.y)
    }
}

/// The two products of a dot product can be taken and added.
pub open spec fn dot_req<T: Mul<Output = T> + Add<Output = T>>(a: (T, T), b: (T, T)) -> bool {
    &&& T::obeys_mul_spec()
    &&& a.0.mul_req(b.0)
    &&& a.1.mul_req(b.1)
    &&& a.0.mul_spec(b.0).add_req(a.1.mul_spec(b.1))
}

/// The dot product of `a` and `b`: `a.x * b.x + a.y * b.y`.
pub open spec fn dot_of<T: Mul<Output = T> + Add<Output = T>>(a: (T, T), b: (T, T)) -> T {
    a.0.mul_spec(b.0).add_spec(a.1.mul_spec(b.1))
}

/// The two products of a cross product can be taken and subtracted.
pub open spec fn cross_req<T: Mul<Output = T> + Sub<Output = T>>(a: (T, T), b: (T, T)) -> bool {
    &&& T::obeys_mul_spec()
    &&& a.0.mul_req(b.1)
    &&& a.1.mul_req(b.0)
    &&& a.0.mul_spec(b.1).sub_req(a.1.mul_spec(b.0))
}

/// The cross product of `a` and `b`: `a.x * b.y - a.y * b.x`.
pub open spec fn cross_of<T: Mul<Output = T> + Sub<Output = T>>(a: (T, T), b: (T, T)) -> T {
    a.0.mul_spec(b.1).sub_spec(a.1.mul_spec(b.0))
}

/// The differences of the components can be taken, each has an absolute
/// value, and the two absolute values can be added.
pub open spec fn distance_req<T: Magnitude + Add<Output = T> + Sub<Output = T>>(
    a: (T, T),
    b: (T, T),
) -> bool {
    &&& T::obeys_sub_spec()
    &&& b.0.sub_req(a.0)
    &&& b.1.sub_req(a.1)
    &&& b.0.sub_spec(a.0).magnitude_req()
    &&& b.1.sub_spec(a.1).magnitude_req()
    &&& b.0.sub_spec(a.0).magnitude_spec().add_req(b.1.sub_spec(a.1).magnitude_spec())
}

/// The distance between `a` and `b`: `|b.x - a.x| + |b.y - a.y|`.
pub open spec fn distance_of<T: Magnitude + Add<Output = T> + Sub<Output = T>>(
    a: (T, T),
    b: (T, T),
) -> T {
    b.0.sub_spec(a.0).magnitude_spec().add_spec(b.1.sub_spec(a.1).magnitude_spec())
}

/// Common helper methods of a vector, or of a type with an underlying
/// vector.
pub trait Vector<T, ToVector> {
    /// The components of `self`.
    spec fn components(&self) -> (T, T);

    /// The components of the vector that `rhs` stands for.
    spec fn components_of(rhs: ToVector) -> (T, T);

    /// Returns the dot product of `self` and `rhs`.
    fn dot(&self, rhs: ToVector) -> (d: T) where T: Copy + Mul<Output = T> + Add<Output = T>
        requires
            dot_req(self.components(), Self::components_of(rhs)),
        ensures
            T::obeys_add_spec() ==> d == dot_of(self.components(), Self::components_of(rhs)),
    ;

    /// Returns the normal of the cross product between `self` and `rhs`.
    fn cross(&self, rhs: ToVector) -> (c: T) where T: Copy + Mul<Output = T> + Sub<Output = T>
        requires
            cross_req(self.components(), Self::components_of(rhs)),
        ensures
            T::obeys_sub_spec() ==> c == cross_of(self.components(), Self::components_of(rhs)),
    ;

    /// Returns the absolute distance between `self` and `rhs`: the sum of
    /// the absolute differences of their components.
    fn distance(&self, rhs: ToVector) -> (d: T) where
        T: Magnitude + Add<Output = T> + Sub<Output = T>,

        requires
            distance_req(self.components(), Self::components_of(rhs)),
        ensures
            T::obeys_add_spec() ==> d == distance_of(self.components(), Self::components_of(rhs)),
    ;
}

impl<T, K, ToVector> Vector<T, ToVector> for Vector2D<T, K> where ToVector: ToVector2D<T, K> {
    open spec fn components(&self) -> (T, T) {
        (self.x, self.y)
    }

    open spec fn components_of(rhs: ToVector) -> (T, T) {
        (rhs.as_vector().x, rhs.as_vector().y)
    }

    fn dot(&self, rhs: ToVector) -> (d: T) where T: Copy + Mul<Output = T> + Add<Output = T> {
        let rhs = rhs.to_vector();
        let a = self.x * rhs.x;
        let b = self.y * rhs.y;
        a + b
    }

    fn cross(&self, rhs: ToVector) -> (c: T) where T: Copy + Mul<Output = T> + Sub<Output = T> {
        let rhs = rhs.to_vector();
        self.x * rhs.y - self.y * rhs.x
    }

    fn distance(&self, rhs: ToVector) -> (d: T) where
        T: Magnitude + Add<Output = T> + Sub<Output = T>,
     {
        let rhs = rhs.to_vector();
        (rhs.x - self.x).magnitude() + (rhs.y - self.y).magnitude()
    }
}

/// Anything that can stand where a [`Vector2D`] is expected.
pub trait ToVector2D<T, K>: Sized {
    /// The vector that `self` converts into.
    spec fn as_vector(self) -> Vector2D<T, K>;

    /// Converts this value into a [`Vector2D`].
    fn to_vector(self) -> (v: Vector2D<T, K>)
        ensures
            v == self.as_vector(),
    ;
}

impl<T, K> ToVector2D<T, K> for Vector2D<T, K> {
    open spec fn as_vector(self) -> Vector2D<T, K> {
        self
    }

    fn to_vector(self) -> (v: Vector2D<T, K>) {
        self
    }
}

impl<T, K> ToVector2D<T, K> for (T, T) {
    open spec fn as_vector(self) -> Vector2D<T, K> {
        Vector2D::of(self.0, self.1)
    }

    fn to_vector(self) -> (v: Vector2D<T, K>) {
        Vector2D::new(self.0, self.1)
    }
}

} // verus!
