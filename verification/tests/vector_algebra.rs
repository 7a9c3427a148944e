use rolling_ball::vector::Vector3;

#[test]
fn new_keeps_the_components() {
    let v = Vector3::new(3, -4, 5);
    assert_eq!((v.x, v.y, v.z), (3, -4, 5));
}

#[test]
fn zero_and_up() {
    assert_eq!(Vector3::zero(), Vector3::new(0, 0, 0));
    assert_eq!(Vector3::up(), Vector3::new(0, 1, 0));
}

#[test]
fn plus_adds_by_component() {
    assert_eq!(Vector3::new(1, 2, 3).plus(Vector3::new(10, -20, 30)), Vector3::new(11, -18, 33));
    assert_eq!(Vector3::new(7, 8, 9).plus(Vector3::zero()), Vector3::new(7, 8, 9));
    assert_eq!(
        Vector3::new(i32::MAX - 1, i32::MIN + 1, 0).plus(Vector3::new(1, -1, i32::MIN)),
        Vector3::new(i32::MAX, i32::MIN, i32::MIN)
    );
}

#[test]
fn negated_flips_every_sign() {
    assert_eq!(Vector3::new(1, -2, 0).negated(), Vector3::new(-1, 2, 0));
    assert_eq!(Vector3::new(i32::MAX, -i32::MAX, 1).negated(), Vector3::new(-i32::MAX, i32::MAX, -1));
    let v = Vector3::new(4, 5, -6);
    assert_eq!(v.plus(v.negated()), Vector3::zero());
}

#[test]
fn cross_of_the_axes_is_right_handed() {
    let x = Vector3::new(1, 0, 0);
    let y = Vector3::new(0, 1, 0);
    let z = Vector3::new(0, 0, 1);
    assert_eq!(x.cross(y), z);
    assert_eq!(y.cross(z), x);
    assert_eq!(z.cross(x), y);
    assert_eq!(y.cross(x), z.negated());
    assert_eq!(x.cross(x), Vector3::zero());
}

#[test]
fn cross_of_general_vectors() {
    assert_eq!(Vector3::new(1, 2, 3).cross(Vector3::new(4, 5, 6)), Vector3::new(-3, 6, -3));
    assert_eq!(Vector3::new(4, 5, 6).cross(Vector3::new(1, 2, 3)), Vector3::new(3, -6, 3));
    assert_eq!(Vector3::new(2, -7, 1).cross(Vector3::new(-3, 0, 5)), Vector3::new(-35, -13, -21));
}

#[test]
fn cross_takes_its_products_in_64_bits() {
    assert_eq!(
        Vector3::new(46_340, 0, 0).cross(Vector3::new(0, 46_340, 0)),
        Vector3::new(0, 0, 2_147_395_600)
    );
    assert_eq!(
        Vector3::new(i32::MAX, i32::MAX, 0).cross(Vector3::new(i32::MAX, i32::MAX, 0)),
        Vector3::zero()
    );
    assert_eq!(
        Vector3::new(i32::MIN, 1, 0).cross(Vector3::new(i32::MIN, 2, 0)),
        Vector3::new(0, 0, i32::MIN)
    );
}
