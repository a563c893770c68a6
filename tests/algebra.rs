use vector2::vectors::Vector;

#[test]
fn vector_plus_its_negation_is_zero() {
    let v = Vector::with_coords(17, -5);
    let neg = -Vector::with_coords(17, -5);
    assert_eq!(v + neg, Vector::default());
}

#[test]
fn subtraction_is_addition_of_negation() {
    let a = Vector::with_coords(7, -3) - Vector::with_coords(-2, 9);
    let b = Vector::with_coords(7, -3) + -Vector::with_coords(-2, 9);
    assert_eq!(a, b);
    assert_eq!(a, Vector::with_coords(9, -12));
}

#[test]
fn subtraction_undoes_addition() {
    let sum = Vector::with_coords(5, -8) + Vector::with_coords(-13, 21);
    assert_eq!(sum - Vector::with_coords(-13, 21), Vector::with_coords(5, -8));
}

#[test]
fn scaling_distributes_over_addition() {
    let left = (Vector::with_coords(3, -4) + Vector::with_coords(6, 1)) * -3;
    let right = Vector::with_coords(3, -4) * -3 + Vector::with_coords(6, 1) * -3;
    assert_eq!(left, right);
    assert_eq!(left, Vector::with_coords(-27, 9));
}

#[test]
fn dot_product_commutes() {
    let a = Vector::with_coords(3, -7).dot(Vector::with_coords(-2, 5));
    let b = Vector::with_coords(-2, 5).dot(Vector::with_coords(3, -7));
    assert_eq!(a, b);
    assert_eq!(a, -41);
}

#[test]
fn cross_product_anticommutes() {
    let a = Vector::with_coords(3, -7).cross(Vector::with_coords(-2, 5));
    let b = Vector::with_coords(-2, 5).cross(Vector::with_coords(3, -7));
    assert_eq!(a, -b);
    assert_eq!(a, 1);
}

#[test]
fn unit_vectors_pick_out_coordinates() {
    let v = Vector::with_coords(-9i64, 31i64);
    assert_eq!(Vector::i_hat().dot(Vector::with_coords(-9i64, 31i64)), -9);
    assert_eq!(Vector::j_hat().dot(v), 31);
}

#[test]
fn equality_is_exact_and_symmetric() {
    let v = Vector::with_coords(42, 42);
    assert!(v == v);
    assert!(Vector::with_coords(42, 1) != Vector::with_coords(42, 0));
    assert!(Vector::with_coords(42, 0) != Vector::with_coords(41, 0));
    assert_eq!(
        Vector::with_coords(42, 0) == Vector::with_coords(-1, -1),
        Vector::with_coords(-1, -1) == Vector::with_coords(42, 0)
    );
}

#[test]
fn division_truncates_toward_zero_for_negatives() {
    assert_eq!(Vector::with_coords(-41, 41) / 2, Vector::with_coords(-20, 20));
    assert_eq!(Vector::with_coords(-41, 41) / -2, Vector::with_coords(20, -20));
    assert_eq!(Vector::with_coords(7, -1) / -7, Vector::with_coords(-1, 0));
}

#[test]
fn renders_other_coordinate_types() {
    assert_eq!(Vector::with_coords(0i8, -128i8).to_string(), "[0, -128]");
    assert_eq!(Vector::with_coords(i128::MIN, 1).to_string(), "[-170141183460469231731687303715884105728, 1]");
    assert_eq!(Vector::with_coords(1234567isize, -10).to_string(), "[1234567, -10]");
    assert_eq!(Vector::with_coords(i64::MAX, 9).to_string(), "[9223372036854775807, 9]");
}

#[test]
fn works_at_the_bounds_of_the_type() {
    let v = Vector::with_coords(i8::MAX, i8::MIN + 1);
    assert_eq!(-v, Vector::with_coords(-127i8, 127i8));
    let w = Vector::with_coords(100i8, -100i8) + Vector::with_coords(27i8, -28i8);
    assert_eq!(w, Vector::with_coords(i8::MAX, i8::MIN));
    assert_eq!(Vector::with_coords(-16i16, 15i16) * 2048, Vector::with_coords(i16::MIN, 30720));
}

#[test]
fn default_vectors_of_each_type_are_zero() {
    let a: Vector<i8> = Vector::default();
    let b: Vector<i128> = Vector::default();
    let c: Vector<isize> = Vector::default();
    assert_eq!((a.x, a.y), (0, 0));
    assert_eq!((b.x, b.y), (0, 0));
    assert_eq!((c.x, c.y), (0, 0));
}
