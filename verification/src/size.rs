//! A two-dimensional size, with component-wise and area-wise comparisons.

use std::cmp::Ordering;
use std::ops::Mul;
use vstd::prelude::*;
use vstd::std_specs::cmp::{PartialEqSpec, PartialOrdIs, PartialOrdSpec};
use vstd::std_specs::ops::MulSpec;

verus! {

/// A vector describing a two-dimensional size.
#[derive(Debug, PartialEq, Hash)]
pub struct Size2D<T> {
    pub width: T,
    pub height: T,
}

impl<T: Copy> Clone for Size2D<T> {
    fn clone(&self) -> (s: Self)
        ensures
            s == *self,
    {
        *self
    }
}

impl<T: Copy> Copy for Size2D<T> {

}

impl<T: Default> Default for Size2D<T> {
    /// The size whose components are both the default of `T`.
    fn default() -> (s: Self)
        ensures
            call_ensures(T::default, (), s.width),
            call_ensures(T::default, (), s.height),
    {
        Size2D { width: T::default(), height: T::default() }
    }
}

/// The size whose components are the greater of those of `a` and `b`;
/// where neither is greater, the component of `a`.
pub open spec fn grown<T: PartialOrd>(a: Size2D<T>, b: Size2D<T>) -> Size2D<T> {
    Size2D {
        width: if b.width.is_gt(&a.width) { b.width } else { a.width },
        height: if b.height.is_gt(&a.height) { b.height } else { a.height },
    }
}

/// The size whose components are the lesser of those of `a` and `b`;
/// where neither is lesser, the component of `a`.
pub open spec fn shrunk<T: PartialOrd>(a: Size2D<T>, b: Size2D<T>) -> Size2D<T> {
    Size2D {
        width: if b.width.is_lt(&a.width) { b.width } else { a.width },
        height: if b.height.is_lt(&a.height) { b.height } else { a.height },
    }
}

/// The product of the two components of `s`.
pub open spec fn area_of<T: Mul<Output = T>>(s: Size2D<T>) -> T {
    s.width.mul_spec(s.height)
}

/// How the area of `a` compares with the area of `b`: equal when `==` says
/// so of the two areas, greater when `>` says so, less in every other case.
pub open spec fn area_order<T: Mul<Output = T> + PartialOrd>(a: Size2D<T>, b: Size2D<T>) -> Ordering {
    if area_of(a).eq_spec(&area_of(b)) {
        Ordering::Equal
    } else if area_of(a).is_gt(&area_of(b)) {
        Ordering::Greater
    } else {
        Ordering::Less
    }
}

/// Of `a` and `b` the one with the greater area; `a` where the areas tie.
pub open spec fn larger<T: Mul<Output = T> + PartialOrd>(a: Size2D<T>, b: Size2D<T>) -> Size2D<T> {
    if area_order(b, a) == Ordering::Greater {
        b
    } else {
        a
    }
}

/// Of `a` and `b` the one with the lesser area; `a` where the areas tie.
pub open spec fn smaller<T: Mul<Output = T> + PartialOrd>(a: Size2D<T>, b: Size2D<T>) -> Size2D<T> {
    if area_order(b, a) == Ordering::Less {
        b
    } else {
        a
    }
}

/// What a component type must promise before areas can be compared:
/// its `*`, `==` and `<` behave as their specifications say.
pub open spec fn comparable_areas<T: Mul<Output = T> + PartialOrd>() -> bool {
    T::obeys_mul_spec() && T::obeys_eq_spec() && T::obeys_partial_cmp_spec()
}

impl<T: Copy> Size2D<T> {
    /// Creates a new size.
    pub fn new(width: T, height: T) -> (s: Self)
        ensures
            s == (Size2D { width, height }),
    {
        Self { width, height }
    }

    /// Returns a new size where `width` and `height` are equal.
    pub fn square(size: T) -> (s: Self)
        ensures
            s == (Size2D { width: size, height: size }),
    {
        Self::new(size, size)
    }

    /// Gets the area of the size: `width * height`.
    pub fn area(&self) -> (a: T) where T: Mul<Output = T>
        requires
            self.width.mul_req(self.height),
        ensures
            T::obeys_mul_spec() ==> a == area_of(*self),
    {
        self.width * self.height
    }

    /// Compares the components of `size` and `self`, and returns the size
    /// made of the greater ones.
    pub fn grow<S: ToSize2D<T>>(&self, size: S) -> (s: Size2D<T>) where T: PartialOrd
        ensures
            T::obeys_partial_cmp_spec() ==> s == grown(*self, size.as_size()),
    {
        let size = size.to_size();
        let bigger_width = if size.width > self.width {
            size.width
        } else {
            self.width
        };
        let bigger_height = if size.height > self.height {
            size.height
        } else {
            self.height
        };
        Size2D::new(bigger_width, bigger_height)
    }

    /// Compares the components of `size` and `self`, and returns the size
    /// made of the lesser ones.
    pub fn shrink<S: ToSize2D<T>>(&self, size: S) -> (s: Size2D<T>) where T: PartialOrd
        ensures
            T::obeys_partial_cmp_spec() ==> s == shrunk(*self, size.as_size()),
    {
        let size = size.to_size();
        let smaller_width = if size.width < self.width {
            size.width
        } else {
            self.width
        };
        let smaller_height = if size.height < self.height {
            size.height
        } else {
            self.height
        };
        Size2D::new(smaller_width, smaller_height)
    }

    /// Returns a new size constrained within `min` and `max`:
    /// `self.shrink(max).grow(min)`.
    pub fn constrain<S: ToSize2D<T>>(&self, min: S, max: S) -> (s: Size2D<T>) where T: PartialOrd
        ensures
            T::obeys_partial_cmp_spec() ==> s == grown(shrunk(*self, max.as_size()), min.as_size()),
    {
        let min = min.to_size();
        let max = max.to_size();
        self.shrink(max).grow(min)
    }

    /// Compares the area of `self` with the area of `other`.
    ///
    /// The answer is always `Some`: sizes are ordered by area alone.
    pub fn partial_cmp(&self, other: &Self) -> (o: Option<Ordering>) where
        T: Mul<Output = T> + PartialOrd,

        requires
            self.width.mul_req(self.height),
            other.width.mul_req(other.height),
        ensures
            o is Some,
            comparable_areas::<T>() ==> o == Some(area_order(*self, *other)),
    {
        let area = self.area();
        let other = other.area();
        if area == other {
            return Some(Ordering::Equal);
        }
        if area > other {
            Some(Ordering::Greater)
        } else {
            Some(Ordering::Less)
        }
    }

    /// Returns the size with the bigger area between `self` and `size`.
    pub fn max_area<S: ToSize2D<T>>(&self, size: S) -> (s: Size2D<T>) where
        T: Mul<Output = T> + PartialOrd,

        requires
            self.width.mul_req(self.height),
            size.as_size().width.mul_req(size.as_size().height),
        ensures
            s == *self || s == size.as_size(),
            comparable_areas::<T>() ==> s == larger(*self, size.as_size()),
    {
        let this = *self;
        let size = size.to_size();
        match size.partial_cmp(&this) {
            Some(Ordering::Greater) => size,
            _ => this,
        }
    }

    /// Returns the size with the smaller area between `self` and `size`.
    pub fn min_area<S: ToSize2D<T>>(&self, size: S) -> (s: Size2D<T>) where
        T: Mul<Output = T> + PartialOrd,

        requires
            self.width.mul_req(self.height),
            size.as_size().width.mul_req(size.as_size().height),
        ensures
            s == *self || s == size.as_size(),
            comparable_areas::<T>() ==> s == smaller(*self, size.as_size()),
    {
        let this = *self;
        let size = size.to_size();
        match size.partial_cmp(&this) {
            Some(Ordering::Less) => size,
            _ => this,
        }
    }

    /// Clamps the area of the size between that of `min` and that of `max`:
    /// `self.min_area(max).max_area(min)`.
    pub fn clamp_area<S: ToSize2D<T>>(&self, min: S, max: S) -> (s: Size2D<T>) where
        T: Mul<Output = T> + PartialOrd,

        requires
            self.width.mul_req(self.height),
            min.as_size().width.mul_req(min.as_size().height),
            max.as_size().width.mul_req(max.as_size().height),
        ensures
            s == *self || s == min.as_size() || s == max.as_size(),
            comparable_areas::<T>() ==> s == larger(smaller(*self, max.as_size()), min.as_size()),
    {
        let min = min.to_size();
        let max = max.to_size();
        self.min_area(max).max_area(min)
    }
}

/// Anything that can stand where a [`Size2D`] is expected.
pub trait ToSize2D<T>: Sized {
    /// The size that `self` converts into.
    spec fn as_size(self) -> Size2D<T>;

    /// Creates a new [`Size2D`] from `self`.
    fn to_size(self) -> (s: Size2D<T>)
        ensures
            s == self.as_size(),
    ;
}

impl<T> ToSize2D<T> for Size2D<T> {
    open spec fn as_size(self) -> Size2D<T> {
        self
    }

    fn to_size(self) -> (s: Size2D<T>) {
        self
    }
}

impl<T: Copy> ToSize2D<T> for (T, T) {
    open spec fn as_size(self) -> Size2D<T> {
        Size2D { width: self.0, height: self.1 }
    }

    fn to_size(self) -> (s: Size2D<T>) {
        Size2D::new(self.0, self.1)
    }
}

} // verus!
