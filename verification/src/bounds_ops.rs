//! Moving and resizing bounds with `+` and `-`, and conversions of bounds
//! into plain components.

use crate::bounds::Bounds2D;
use crate::offset::Offset2D;
use crate::size::Size2D;
use crate::vector::Vector2D;
use std::ops::{Add, Sub};
use vstd::prelude::*;
use vstd::std_specs::convert::FromSpecImpl;
use vstd::std_specs::ops::{AddSpec, AddSpecImpl, SubSpec, SubSpecImpl};

verus! {

impl<T> AddSpecImpl<Offset2D<T>> for Bounds2D<T> where T: Add<Output = T> + Copy {
    open spec fn obeys_add_spec() -> bool {
        T::obeys_add_spec()
    }

    open spec fn add_req(self, rhs: Offset2D<T>) -> bool {
        self.position.x.add_req(rhs.x) && self.position.y.add_req(rhs.y)
    }

    open spec fn add_spec(self, rhs: Offset2D<T>) -> Bounds2D<T> {
        Bounds2D {
            position: Vector2D::of(self.position.x.add_spec(rhs.x), self.position.y.add_spec(rhs.y)),
            size: self.size,
        }
    }
}

/// Moves the bounds by an offset; the size stays.
impl<T> Add<Offset2D<T>> for Bounds2D<T> where T: Add<Output = T> + Copy {
    type Output = Bounds2D<T>;

    fn add(self, rhs: Offset2D<T>) -> (moved: Bounds2D<T>) {
        Bounds2D::from_position_and_size(self.position + rhs, self.size)
    }
}

impl<T> AddSpecImpl<Size2D<T>> for Bounds2D<T> where T: Add<Output = T> + Copy {
    open spec fn obeys_add_spec() -> bool {
        T::obeys_add_spec()
    }

    open spec fn add_req(self, rhs: Size2D<T>) -> bool {
        self.size.width.add_req(rhs.width) && self.size.height.add_req(rhs.height)
    }

    open spec fn add_spec(self, rhs: Size2D<T>) -> Bounds2D<T> {
        Bounds2D {
            position: self.position,
            size: Size2D {
                width: self.size.width.add_spec(rhs.width),
                height: self.size.height.add_spec(rhs.height),
            },
        }
    }
}

/// Enlarges the bounds by a size; the position stays.
impl<T> Add<Size2D<T>> for Bounds2D<T> where T: Add<Output = T> + Copy {
    type Output = Bounds2D<T>;

    fn add(self, rhs: Size2D<T>) -> (resized: Bounds2D<T>) {
        Bounds2D::from_position_and_size(self.position, self.size + rhs)
    }
}

impl<T> SubSpecImpl<Offset2D<T>> for Bounds2D<T> where T: Sub<Output = T> + Copy {
    open spec fn obeys_sub_spec() -> bool {
        T::obeys_sub_spec()
    }

    open spec fn sub_req(self, rhs: Offset2D<T>) -> bool {
        self.position.x.sub_req(rhs.x) && self.position.y.sub_req(rhs.y)
    }

    open spec fn sub_spec(self, rhs: Offset2D<T>) -> Bounds2D<T> {
        Bounds2D {
            position: Vector2D::of(self.position.x.sub_spec(rhs.x), self.position.y.sub_spec(rhs.y)),
            size: self.size,
        }
    }
}

/// Moves the bounds back by an offset; the size stays.
impl<T> Sub<Offset2D<T>> for Bounds2D<T> where T: Sub<Output = T> + Copy {
    type Output = Bounds2D<T>;

    fn sub(self, rhs: Offset2D<T>) -> (moved: Bounds2D<T>) {
        Bounds2D::from_position_and_size(self.position - rhs, self.size)
    }
}

impl<T> SubSpecImpl<Size2D<T>> for Bounds2D<T> where T: Sub<Output = T> + Copy {
    open spec fn obeys_sub_spec() -> bool {
        T::obeys_sub_spec()
    }

    open spec fn sub_req(self, rhs: Size2D<T>) -> bool {
        self.size.width.sub_req(rhs.width) && self.size.height.sub_req(rhs.height)
    }

    open spec fn sub_spec(self, rhs: Size2D<T>) -> Bounds2D<T> {
        Bounds2D {
            position: self.position,
            size: Size2D {
                width: self.size.width.sub_spec(rhs.width),
                height: self.size.height.sub_spec(rhs.height),
            },
        }
    }
}

/// Reduces the bounds by a size; the position stays.
impl<T> Sub<Size2D<T>> for Bounds2D<T> where T: Sub<Output = T> + Copy {
    type Output = Bounds2D<T>;

    fn sub(self, rhs: Size2D<T>) -> (resized: Bounds2D<T>) {
        Bounds2D::from_position_and_size(self.position, self.size - rhs)
    }
}

impl<T> FromSpecImpl<Bounds2D<T>> for [T; 4] {
    open spec fn obeys_from_spec() -> bool {
        true
    }

    open spec fn from_spec(bounds: Bounds2D<T>) -> [T; 4] {
        [bounds.position.x, bounds.position.y, bounds.size.width, bounds.size.height]
    }
}

impl<T> From<Bounds2D<T>> for [T; 4] {
    fn from(bounds: Bounds2D<T>) -> (parts: [T; 4]) {
        [bounds.position.x, bounds.position.y, bounds.size.width, bounds.size.height]
    }
}

impl<T> FromSpecImpl<Bounds2D<T>> for (T, T, T, T) {
    open spec fn obeys_from_spec() -> bool {
        true
    }

    open spec fn from_spec(bounds: Bounds2D<T>) -> (T, T, T, T) {
        (bounds.position.x, bounds.position.y, bounds.size.width, bounds.size.height)
    }
}

impl<T> From<Bounds2D<T>> for (T, T, T, T) {
    fn from(bounds: Bounds2D<T>) -> (parts: (T, T, T, T)) {
        (bounds.position.x, bounds.position.y, bounds.size.width, bounds.size.height)
    }
}

} // verus!
