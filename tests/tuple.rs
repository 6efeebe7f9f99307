use raytracer::tuple::{point, tuple, vector, Tuple};

#[test]
fn point_creates_tuples_with_w_1() {
    let p = point(4, -4, 3);
    assert_eq!(p, tuple(4, -4, 3, 1));
}

#[test]
fn vector_creates_tuples_with_w_0() {
    let p = vector(4, -4, 3);
    assert_eq!(p, tuple(4, -4, 3, 0));
}

#[test]
fn adding_two_tuples() {
    let a1 = tuple(3, -2, 5, 1);
    let a2 = tuple(-2, 3, 1, 0);
    assert_eq!(a1.add(a2), tuple(1, 1, 6, 1));
}

#[test]
fn subtracting_two_tuples() {
    let p1 = point(3, 2, 1);
    let p2 = point(5, 6, 7);
    assert_eq!(p1.sub(p2), vector(-2, -4, -6));
}

#[test]
fn subtracting_a_vector_from_a_point() {
    let p = point(3, 2, 1);
    let v = vector(5, 6, 7);
    assert_eq!(p.sub(v), point(-2, -4, -6));
}

#[test]
fn subtracting_two_vectors() {
    let v1 = vector(3, 2, 1);
    let v2 = vector(5, 6, 7);
    assert_eq!(v1.sub(v2), vector(-2, -4, -6));
}

#[test]
fn subtracting_a_vector_from_the_zero_vector() {
    let zero = vector(0, 0, 0);
    let v = vector(1, -2, 3);
    assert_eq!(zero.sub(v), vector(-1, 2, -3));
}

#[test]
fn negating_a_tuple() {
    let a = tuple(1, -2, 3, -4);
    assert_eq!(a.neg(), tuple(-1, 2, -3, 4));
}

#[test]
fn the_dot_product_of_two_tuples() {
    let a = vector(1, 2, 3);
    let b = vector(2, 3, 4);
    assert_eq!(a.dot(b), 20);
}

#[test]
fn the_cross_product_of_two_vectors() {
    let a = vector(1, 2, 3);
    let b = vector(2, 3, 4);
    assert_eq!(a.cross(b), vector(-1, 2, -1));
    assert_eq!(b.cross(a), vector(1, -2, 1));
}

#[test]
fn a_tuple_with_w_1_is_a_point_and_not_a_vector() {
    let a = tuple(4, -4, 3, 1);
    assert_eq!(a.x, 4);
    assert_eq!(a.y, -4);
    assert_eq!(a.z, 3);
    assert!(a.is_point());
    assert!(!a.is_vector());
}

#[test]
fn a_tuple_with_w_0_is_a_vector_and_not_a_point() {
    let a = tuple(4, -4, 3, 0);
    assert!(!a.is_point());
    assert!(a.is_vector());
}

#[test]
fn a_tuple_with_another_w_is_neither() {
    let a = point(1, 2, 3).add(point(4, 5, 6));
    assert_eq!(a, tuple(5, 7, 9, 2));
    assert!(!a.is_point());
    assert!(!a.is_vector());
}

#[test]
fn multiplying_a_tuple_by_an_integer_scalar() {
    let a = tuple(1, -2, 3, -4);
    assert_eq!(a.mul(3), tuple(3, -6, 9, -12));
    assert_eq!(a.mul(0), tuple(0, 0, 0, 0));
    assert_eq!(a.mul(-1), a.neg());
}

#[test]
fn a_point_plus_a_vector_is_a_point() {
    let p = point(3, 2, 1).add(vector(5, 6, 7));
    assert_eq!(p, point(8, 8, 8));
    assert!(p.is_point());
}

#[test]
fn the_cross_product_is_anti_commutative() {
    let a = tuple(7, -3, 2, 1);
    let b = tuple(-5, 4, 9, 1);
    assert_eq!(a.cross(b), b.cross(a).neg());
    assert_eq!(a.cross(b).w, 0);
}

#[test]
fn the_dot_product_counts_w() {
    assert_eq!(point(1, 2, 3).dot(point(2, 3, 4)), 21);
}

#[test]
fn the_cross_product_of_a_vector_with_itself_is_zero() {
    let a = vector(6, -7, 8);
    assert_eq!(a.cross(a), vector(0, 0, 0));
}

#[test]
fn components_at_the_edge_of_the_range() {
    let a = tuple(i64::MAX, i64::MIN, 0, 1);
    assert_eq!(a.sub(tuple(1, -1, 0, 0)), tuple(i64::MAX - 1, i64::MIN + 1, 0, 1));
    assert_eq!(tuple(i64::MAX, 0, 0, 0).neg(), tuple(-i64::MAX, 0, 0, 0));
}

#[test]
fn a_new_tuple_holds_its_components() {
    let t = Tuple::new(1, 2, 3, 4);
    assert_eq!((t.x, t.y, t.z, t.w), (1, 2, 3, 4));
}
