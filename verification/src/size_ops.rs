//! Component-wise arithmetic on sizes, and conversions to and from pairs.

use crate::size::{Size2D, ToSize2D};
use std::ops::{Add, Div, Mul, Sub};
use vstd::prelude::*;
use vstd::std_specs::convert::FromSpecImpl;
use vstd::std_specs::ops::{
    AddSpec, AddSpecImpl, DivSpec, DivSpecImpl, MulSpec, MulSpecImpl, SubSpec, SubSpecImpl,
};

verus! {

impl<T, R> AddSpecImpl<R> for Size2D<T> where T: Add<Output = T> + Copy, R: ToSize2D<T> {
    open spec fn obeys_add_spec() -> bool {
        T::obeys_add_spec()
    }

    open spec fn add_req(self, rhs: R) -> bool {
        self.width.add_req(rhs.as_size().width) && self.height.add_req(rhs.as_size().height)
    }

    open spec fn add_spec(self, rhs: R) -> Size2D<T> {
        Size2D {
            width: self.width.add_spec(rhs.as_size().width),
            height: self.height.add_spec(rhs.as_size().height),
        }
    }
}

/// Adds two sizes together, component by component.
impl<T, R> Add<R> for Size2D<T> where T: Add<Output = T> + Copy, R: ToSize2D<T> {
    type Output = Size2D<T>;

    fn add(self, rhs: R) -> (sum: Size2D<T>) {
        let rhs = rhs.to_size();
        Size2D::new(self.width + rhs.width, self.height + rhs.height)
    }
}

impl<T, R> SubSpecImpl<R> for Size2D<T> where T: Sub<Output = T> + Copy, R: ToSize2D<T> {
    open spec fn obeys_sub_spec() -> bool {
        T::obeys_sub_spec()
    }

    open spec fn sub_req(self, rhs: R) -> bool {
        self.width.sub_req(rhs.as_size().width) && self.height.sub_req(rhs.as_size().height)
    }

    open spec fn sub_spec(self, rhs: R) -> Size2D<T> {
        Size2D {
            width: self.width.sub_spec(rhs.as_size().width),
            height: self.height.sub_spec(rhs.as_size().height),
        }
    }
}

/// Subtracts one size from another, component by component.
impl<T, R> Sub<R> for Size2D<T> where T: Sub<Output = T> + Copy, R: ToSize2D<T> {
    type Output = Size2D<T>;

    fn sub(self, rhs: R) -> (difference: Size2D<T>) {
        let rhs = rhs.to_size();
        Size2D::new(self.width - rhs.width, self.height - rhs.height)
    }
}

impl<T, R> MulSpecImpl<R> for Size2D<T> where T: Mul<Output = T> + Copy, R: ToSize2D<T> {
    open spec fn obeys_mul_spec() -> bool {
        T::obeys_mul_spec()
    }

    open spec fn mul_req(self, rhs: R) -> bool {
        self.width.mul_req(rhs.as_size().width) && self.height.mul_req(rhs.as_size().height)
    }

    open spec fn mul_spec(self, rhs: R) -> Size2D<T> {
        Size2D {
            width: self.width.mul_spec(rhs.as_size().width),
            height: self.height.mul_spec(rhs.as_size().height),
        }
    }
}

/// Multiplies two sizes, component by component.
impl<T, R> Mul<R> for Size2D<T> where T: Mul<Output = T> + Copy, R: ToSize2D<T> {
    type Output = Size2D<T>;

    fn mul(self, rhs: R) -> (product: Size2D<T>) {
        let rhs = rhs.to_size();
        Size2D::new(self.width * rhs.width, self.height * rhs.height)
    }
}

impl<T, R> DivSpecImpl<R> for Size2D<T> where T: Div<Output = T> + Copy, R: ToSize2D<T> {
    open spec fn obeys_div_spec() -> bool {
        T::obeys_div_spec()
    }

    open spec fn div_req(self, rhs: R) -> bool {
        self.width.div_req(rhs.as_size().width) && self.height.div_req(rhs.as_size().height)
    }

    open spec fn div_spec(self, rhs: R) -> Size2D<T> {
        Size2D {
            width: self.width.div_spec(rhs.as_size().width),
            height: self.height.div_spec(rhs.as_size().height),
        }
    }
}

/// Divides one size by another, component by component.
impl<T, R> Div<R> for Size2D<T> where T: Div<Output = T> + Copy, R: ToSize2D<T> {
    type Output = Size2D<T>;

    fn div(self, rhs: R) -> (quotient: Size2D<T>) {
        let rhs = rhs.to_size();
        Size2D::new(self.width / rhs.width, self.height / rhs.height)
    }
}

impl<T: Copy> Size2D<T> {
    /// Adds `rhs` to `self` in place, component by component.
    pub fn add_assign<R: ToSize2D<T>>(&mut self, rhs: R) where T: Add<Output = T>
        requires
            old(self).width.add_req(rhs.as_size().width),
            old(self).height.add_req(rhs.as_size().height),
        ensures
            T::obeys_add_spec() ==> *final(self) == (Size2D {
                width: old(self).width.add_spec(rhs.as_size().width),
                height: old(self).height.add_spec(rhs.as_size().height),
            }),
    {
        let rhs = rhs.to_size();
        self.width = self.width + rhs.width;
        self.height = self.height + rhs.height;
    }

    /// Subtracts `rhs` from `self` in place, component by component.
    pub fn sub_assign<R: ToSize2D<T>>(&mut self, rhs: R) where T: Sub<Output = T>
        requires
            old(self).width.sub_req(rhs.as_size().width),
            old(self).height.sub_req(rhs.as_size().height),
        ensures
            T::obeys_sub_spec() ==> *final(self) == (Size2D {
                width: old(self).width.sub_spec(rhs.as_size().width),
                height: old(self).height.sub_spec(rhs.as_size().height),
            }),
    {
        let rhs = rhs.to_size();
        self.width = self.width - rhs.width;
        self.height = self.height - rhs.height;
    }

    /// Multiplies by `rhs` `self` in place, component by component.
    pub fn mul_assign<R: ToSize2D<T>>(&mut self, rhs: R) where T: Mul<Output = T>
        requires
            old(self).width.mul_req(rhs.as_size().width),
            old(self).height.mul_req(rhs.as_size().height),
        ensures
            T::obeys_mul_spec() ==> *final(self) == (Size2D {
                width: old(self).width.mul_spec(rhs.as_size().width),
                height: old(self).height.mul_spec(rhs.as_size().height),
            }),
    {
        let rhs = rhs.to_size();
        self.width = self.width * rhs.width;
        self.height = self.height * rhs.height;
    }

    /// Divides by `rhs` `self` in place, component by component.
    pub fn div_assign<R: ToSize2D<T>>(&mut self, rhs: R) where T: Div<Output = T>
        requires
            old(self).width.div_req(rhs.as_size().width),
            old(self).height.div_req(rhs.as_size().height),
        ensures
            T::obeys_div_spec() ==> *final(self) == (Size2D {
                width: old(self).width.div_spec(rhs.as_size().width),
                height: old(self).height.div_spec(rhs.as_size().height),
            }),
    {
        let rhs = rhs.to_size();
        self.width = self.width / rhs.width;
        self.height = self.height / rhs.height;
    }
}

impl<T: Copy> FromSpecImpl<(T, T)> for Size2D<T> {
    open spec fn obeys_from_spec() -> bool {
        true
    }

    open spec fn from_spec(tuple: (T, T)) -> Size2D<T> {
        Size2D { width: tuple.0, height: tuple.1 }
    }
}

impl<T: Copy> From<(T, T)> for Size2D<T> {
    fn from(tuple: (T, T)) -> (size: Size2D<T>) {
        Size2D::new(tuple.0, tuple.1)
    }
}

impl<T> FromSpecImpl<Size2D<T>> for (T, T) {
    open spec fn obeys_from_spec() -> bool {
        true
    }

    open spec fn from_spec(size: Size2D<T>) -> (T, T) {
        (size.width, size.height)
    }
}

impl<T> From<Size2D<T>> for (T, T) {
    fn from(size: Size2D<T>) -> (pair: (T, T)) {
        (size.width, size.height)
    }
}

} // verus!
