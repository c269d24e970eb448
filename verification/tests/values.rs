use geologic::{
    Bounds2D, IntoBounds2D, Magnitude, Offset2D, Point2D, Size2D, ToSize2D, ToVector2D, Vector,
    Vector2D,
};
use std::cmp::Ordering;

#[test]
fn vector_new_and_splat_set_the_components() {
    let point: Point2D<i32> = Vector2D::new(20, 40);
    assert_eq!(point.x, 20);
    assert_eq!(point.y, 40);
    let offset = Offset2D::splat(5);
    assert_eq!(offset, Offset2D::new(5, 5));
    let zero: Point2D<u8> = Point2D::default();
    assert_eq!(zero, Point2D::new(0, 0));
}

#[test]
fn vector_adds_and_subtracts_by_component() {
    let a: Offset2D<i32> = Offset2D::new(5, 10);
    assert_eq!(a.add_components(Offset2D::new(1, -2)), Offset2D::new(6, 8));
    assert_eq!(a.sub_components(Offset2D::new(1, -2)), Offset2D::new(4, 12));
    assert_eq!(a.add_components::<(i32, i32), geologic::Offset>((1, 1)), Offset2D::new(6, 11));
}

#[test]
fn dot_and_cross_products() {
    let a: Offset2D<i32> = Offset2D::new(5, 10);
    let b: Offset2D<i32> = Offset2D::new(10, 5);
    assert_eq!(a.dot(b), 100);
    assert_eq!(a.cross(b), 25 - 100);
    let zero: Offset2D<i32> = Offset2D::new(0, 0);
    assert_eq!(zero.cross(Offset2D::new(20, 20)), 0);
    assert_eq!(a.dot((2, 3)), 40);
}

#[test]
fn vector_converts_to_and_from_a_pair() {
    let pair: (i32, i32) = Point2D::new(3, 4).into();
    assert_eq!(pair, (3, 4));
    let point: Point2D<i32> = (3, 4).into();
    assert_eq!(point, Point2D::new(3, 4));
    let offset: Offset2D<i32> = (7, 8).to_vector();
    assert_eq!(offset, Offset2D::new(7, 8));
    let same: Offset2D<i32> = offset.to_vector();
    assert_eq!(same, offset);
}

#[test]
fn offset_between_two_points() {
    let a: Point2D<i32> = Point2D::new(10, 40);
    let b: Point2D<i32> = Point2D::new(5, 60);
    assert_eq!(a.offset(b), Offset2D::new(-5, 20));
    assert_eq!(b.offset(a), Offset2D::new(5, -20));
}

#[test]
fn a_point_moves_by_an_offset() {
    let point: Point2D<i32> = Point2D::new(10, 0);
    assert_eq!(point + Offset2D::new(20, 5), Point2D::new(30, 5));
    assert_eq!(point + (20, 5), Point2D::new(30, 5));
    assert_eq!(point - Offset2D::new(20, 5), Point2D::new(-10, -5));
}

#[test]
fn offsets_add_subtract_and_scale() {
    let offset: Offset2D<i32> = Offset2D::new(3, -4);
    assert_eq!(offset + Offset2D::new(1, 1), Offset2D::new(4, -3));
    assert_eq!(offset - (1, 1), Offset2D::new(2, -5));
    assert_eq!(offset * 3, Offset2D::new(9, -12));
}

#[test]
fn point_with_size_makes_bounds() {
    let bounds = Point2D::new(20u32, 30).with_size(Size2D::square(50));
    assert_eq!(bounds, Bounds2D::new(20, 30, 50, 50));
}

#[test]
fn size_new_square_and_area() {
    assert_eq!(Size2D::square(200), Size2D::new(200, 200));
    assert_eq!(Size2D::new(100, 200).area(), 20000);
    assert_eq!(Size2D::new(0u8, 200).area(), 0);
    assert_eq!((200, 100).to_size(), Size2D::new(200, 100));
}

#[test]
fn size_grow_takes_the_greater_components() {
    let inner = Size2D::new(500, 700);
    let outer = Size2D::new(400, 900);
    assert_eq!(inner.grow(outer), Size2D::new(500, 900));
    assert_eq!(inner.grow((400, 200)), inner);
}

#[test]
fn size_shrink_takes_the_lesser_components() {
    let outer = Size2D::new(500, 200);
    let inner = Size2D::new(100, 300);
    assert_eq!(outer.shrink(inner), Size2D::new(100, 200));
}

#[test]
fn size_constrain_keeps_components_within_min_and_max() {
    let min = Size2D::new(200, 300);
    let max = Size2D::new(500, 500);
    assert_eq!(Size2D::new(100, 400).constrain(min, max), Size2D::new(200, 400));
    assert_eq!(Size2D::new(600, 300).constrain(min, max), Size2D::new(500, 300));
}

#[test]
fn size_max_and_min_area() {
    let a = Size2D::new(200, 400);
    let b = Size2D::new(100, 300);
    assert_eq!(a.max_area(b), Size2D::new(200, 400));
    assert_eq!(b.max_area(a), Size2D::new(200, 400));
    let a = Size2D::new(100, 300);
    let b = Size2D::new(200, 600);
    assert_eq!(a.min_area(b), Size2D::new(100, 300));
    assert_eq!(b.min_area(a), Size2D::new(100, 300));
    // equal areas keep the receiver
    assert_eq!(Size2D::new(2, 6).max_area(Size2D::new(3, 4)), Size2D::new(2, 6));
    assert_eq!(Size2D::new(2, 6).min_area(Size2D::new(3, 4)), Size2D::new(2, 6));
}

#[test]
fn size_clamp_area() {
    let a = Size2D::new(200, 600);
    let b = Size2D::new(100, 200);
    assert_eq!(a.clamp_area(b, Size2D::new(300, 300)), Size2D::new(300, 300));
    assert_eq!(Size2D::new(10, 10).clamp_area(b, Size2D::new(300, 300)), b);
    assert_eq!(
        Size2D::new(150, 200).clamp_area(b, Size2D::new(300, 300)),
        Size2D::new(150, 200)
    );
}

#[test]
fn sizes_compare_by_area() {
    let a = Size2D::new(2, 6);
    assert_eq!(a.partial_cmp(&Size2D::new(3, 4)), Some(Ordering::Equal));
    assert_eq!(a.partial_cmp(&Size2D::new(3, 5)), Some(Ordering::Less));
    assert_eq!(a.partial_cmp(&Size2D::new(1, 11)), Some(Ordering::Greater));
}

#[test]
fn size_arithmetic_is_component_wise() {
    let a = Size2D::new(20, 50);
    assert_eq!(a + Size2D::new(1, 2), Size2D::new(21, 52));
    assert_eq!(a - (1, 2), Size2D::new(19, 48));
    assert_eq!(a * (2, 3), Size2D::new(40, 150));
    assert_eq!(a / Size2D::new(3, 7), Size2D::new(6, 7));
    assert_eq!(Size2D::new(-7, 7) / (2, -2), Size2D::new(-3, -3));
}

#[test]
fn size_arithmetic_in_place() {
    let mut a = Size2D::new(20, 50);
    a.add_assign((1, 2));
    assert_eq!(a, Size2D::new(21, 52));
    a.sub_assign(Size2D::new(1, 2));
    assert_eq!(a, Size2D::new(20, 50));
    a.mul_assign((2, 3));
    assert_eq!(a, Size2D::new(40, 150));
    a.div_assign((3, 7));
    assert_eq!(a, Size2D::new(13, 21));
}

#[test]
fn size_converts_to_and_from_a_pair() {
    let pair: (u32, u32) = Size2D::new(3, 4).into();
    assert_eq!(pair, (3, 4));
    assert_eq!(Size2D::from((3, 4)), Size2D::new(3, 4));
}

#[test]
fn bounds_constructors_agree() {
    let bounds = Bounds2D::new(20, 50, 80, 90);
    assert_eq!(Bounds2D::from_position_and_size(Point2D::new(20, 50), Size2D::new(80, 90)), bounds);
    assert_eq!(Bounds2D::from_position_and_size((20, 50), (80, 90)), bounds);
    assert_eq!(Bounds2D::splat(8), Bounds2D::new(8, 8, 8, 8));
    assert_eq!((20, 50, 80, 90).to_bounds(), bounds);
    assert_eq!([20, 50, 80, 90].to_bounds(), bounds);
    assert_eq!(bounds.to_bounds(), bounds);
    assert_eq!(Bounds2D::<u16>::default(), Bounds2D::new(0, 0, 0, 0));
}

#[test]
fn bounds_edges_and_parts() {
    let bounds = Bounds2D::new(20, 50, 80, 90);
    assert_eq!(bounds.left(), 20);
    assert_eq!(bounds.top(), 50);
    assert_eq!(bounds.width(), 80);
    assert_eq!(bounds.height(), 90);
    assert_eq!(bounds.right(), 100);
    assert_eq!(bounds.bottom(), 140);
    assert_eq!(bounds.area(), 7200);
    assert_eq!(bounds.size(), Size2D::new(80, 90));
    assert_eq!(bounds.position(), Point2D::new(20, 50));
}

#[test]
fn bounds_with_position_and_with_size() {
    let bounds = Bounds2D::new(20, 50, 80, 90);
    assert_eq!(bounds.with_position((1, 2)), Bounds2D::new(1, 2, 80, 90));
    assert_eq!(bounds.with_size((1, 2)), Bounds2D::new(20, 50, 1, 2));
}

#[test]
fn bounds_resize_like_their_size_and_keep_their_position() {
    let bounds = Bounds2D::new(1, 2, 500, 700);
    assert_eq!(bounds.grow((400, 900)), Bounds2D::new(1, 2, 500, 900));
    assert_eq!(bounds.shrink((400, 900)), Bounds2D::new(1, 2, 400, 700));
    assert_eq!(bounds.constrain((600, 100), (700, 300)), Bounds2D::new(1, 2, 600, 300));
    assert_eq!(bounds.max_area((1000, 1000)), Bounds2D::new(1, 2, 1000, 1000));
    assert_eq!(bounds.max_area((10, 10)), bounds);
    assert_eq!(bounds.min_area((10, 10)), Bounds2D::new(1, 2, 10, 10));
    assert_eq!(bounds.clamp_area((10, 10), (20, 20)), Bounds2D::new(1, 2, 20, 20));
}

#[test]
fn bounds_move_with_offsets_and_resize_with_sizes() {
    let position = Point2D::new(0, 40);
    let size = Size2D::square(5);
    let bounds = position.with_size(size);
    let moved_bounds = bounds + Offset2D::new(3, 5);
    let enlarged_bounds = moved_bounds + Size2D::new(10, 10);
    assert_eq!(enlarged_bounds, Bounds2D::new(3, 45, 15, 15));
    assert_eq!(enlarged_bounds - Offset2D::new(3, 5), Bounds2D::new(0, 40, 15, 15));
    assert_eq!(enlarged_bounds - Size2D::new(10, 10), moved_bounds);
}

#[test]
fn bounds_convert_into_their_components() {
    let bounds = Bounds2D::new(1, 2, 3, 4);
    let array: [i32; 4] = bounds.into();
    assert_eq!(array, [1, 2, 3, 4]);
    let tuple: (i32, i32, i32, i32) = bounds.into();
    assert_eq!(tuple, (1, 2, 3, 4));
}

#[test]
fn distance_is_the_sum_of_absolute_differences() {
    let a: Offset2D<i32> = Offset2D::new(10, 10);
    let b: Offset2D<i32> = Offset2D::new(0, 0);
    assert_eq!(a.distance(b), 20);
    assert_eq!(b.distance(a), 20);
    assert_eq!(Point2D::new(-3i32, 4).distance(Point2D::new(2, -1)), 10);
}

#[test]
fn distance_for_every_signed_width() {
    assert_eq!(Point2D::new(5i8, -5).distance((-5, 5)), 20);
    assert_eq!(Point2D::new(5i16, -5).distance((-5, 5)), 20);
    assert_eq!(Point2D::new(5i64, -5).distance((-5, 5)), 20);
    assert_eq!(Point2D::new(5i128, -5).distance((-5, 5)), 20);
    assert_eq!(Point2D::new(5isize, -5).distance((-5, 5)), 20);
    assert_eq!(Point2D::new(i8::MAX, 0).distance((0, 0)), 127);
}

#[test]
fn magnitude_is_the_absolute_value() {
    assert_eq!((-7i8).magnitude(), 7);
    assert_eq!((-7i16).magnitude(), 7);
    assert_eq!((-7i32).magnitude(), 7);
    assert_eq!((-7i64).magnitude(), 7);
    assert_eq!((-7i128).magnitude(), 7);
    assert_eq!((-7isize).magnitude(), 7);
    assert_eq!(7i32.magnitude(), 7);
    assert_eq!(0i32.magnitude(), 0);
    assert_eq!((i32::MIN + 1).magnitude(), i32::MAX);
}

#[test]
fn defaults_are_made_of_default_components() {
    assert_eq!(Size2D::<i32>::default(), Size2D::new(0, 0));
    assert_eq!(Offset2D::<i64>::default(), Offset2D::new(0, 0));
    assert_eq!(Bounds2D::<u8>::default(), Bounds2D::splat(0));
}
