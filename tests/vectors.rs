use vector2::vectors::Vector;

#[test]
fn creates_default_vector() {
    let v: Vector<i32> = Vector::default();
    assert_eq!(v.x, 0);
    assert_eq!(v.y, 0);
}

#[test]
fn creates_vector_with_specified_coordinates() {
    let v = Vector::with_coords(42, 42);
    assert_eq!(v.x, 42);
    assert_eq!(v.y, 42);
}

#[test]
fn creates_unit_vector_alongside_horizontal_axis() {
    let x_unit: Vector<i32> = Vector::i_hat();
    assert_eq!(x_unit, Vector::with_coords(1, 0));
}

#[test]
fn creates_unit_vector_alongside_vertical_axis() {
    let y_unit: Vector<i32> = Vector::j_hat();
    assert_eq!(y_unit, Vector::with_coords(0, 1));
}

#[test]
fn creates_string_representation_of_vector() {
    let v = Vector::with_coords(-42, 0);
    assert_eq!(v.to_string(), "[-42, 0]");
}

#[test]
fn recognizes_two_equal_vectors() {
    let v = Vector::with_coords(42, 42);
    let w = Vector::with_coords(42, 42);
    assert!(v == w);
}

#[test]
fn distinguishes_two_different_vectors() {
    let v = Vector::with_coords(42, 0);
    let w = Vector::with_coords(-1, -1);
    assert!(!(v == w));
    assert!(v != w);
}

#[test]
fn negates_vector() {
    let v = Vector::with_coords(42, 42);
    assert_eq!(-v, Vector::with_coords(-42, -42));
}

#[test]
fn adds_two_vectors() {
    let horizontal = Vector::with_coords(42, 0);
    let vertical = Vector::with_coords(0, 42);
    assert_eq!(horizontal + vertical, Vector::with_coords(42, 42));
}

#[test]
fn subtracts_two_vectors() {
    let horizontal = Vector::with_coords(42, 0);
    let vertical = Vector::with_coords(0, 42);
    assert_eq!(horizontal - vertical, Vector::with_coords(42, -42));
}

#[test]
fn multiplies_vector_by_scalar() {
    let v = Vector::with_coords(21, 12);
    assert_eq!(v * 2, Vector::with_coords(42, 24));
}

#[test]
fn divides_vector_by_scalar() {
    let v = Vector::with_coords(42, 24);
    assert_eq!(v / 2, Vector::with_coords(21, 12));
}

#[test]
fn divides_vector_with_integer_coords_by_scalar() {
    let v = Vector::with_coords(41, 24);
    assert_eq!(v / 2, Vector::with_coords(20, 12));
}

#[test]
fn computes_dot_product_of_two_vectors() {
    let v = Vector::with_coords(1, 0);
    let w = Vector::with_coords(42, 42);
    assert_eq!(v.dot(w), 42);
}

#[test]
fn computes_cross_product_of_two_vectors() {
    let v = Vector::with_coords(42, 2);
    let w = Vector::with_coords(3, 1);
    assert_eq!(v.cross(w), 36);
}
