use tetromino_core::isometry::Isometry;
use tetromino_core::isometry::add_isometries;
use tetromino_core::isometry::div_isometry;
use tetromino_core::isometry::sub_isometries;

#[test]
fn identity_is_all_zeroes() {
    let id = Isometry::identity();
    assert_eq!(id, Isometry { x: 0, y: 0, rot: 0 });
}

#[test]
fn compose_adds_componentwise() {
    let a = Isometry::new(1, 2, 3);
    let b = Isometry::new(40, -5, 100);
    assert_eq!(add_isometries(&a, &b), Isometry { x: 41, y: -3, rot: 103 });
}

#[test]
fn difference_subtracts_componentwise() {
    let a = Isometry::new(10, 20, 300);
    let b = Isometry::new(1, -2, 100);
    assert_eq!(sub_isometries(&a, &b), Isometry { x: 9, y: 22, rot: 200 });
}

#[test]
fn scale_divides_toward_zero() {
    let a = Isometry::new(41, -41, 100);
    assert_eq!(div_isometry(&a, 20), Isometry { x: 2, y: -2, rot: 5 });
}

#[test]
fn scale_by_negative_divisor() {
    let a = Isometry::new(40, -40, 100);
    assert_eq!(div_isometry(&a, -20), Isometry { x: -2, y: 2, rot: -5 });
}

#[test]
fn compose_is_associative_on_samples() {
    let a = Isometry::new(1, 2, 3);
    let b = Isometry::new(-7, 11, -100);
    let c = Isometry::new(40, 0, 200);
    let left = add_isometries(&add_isometries(&a, &b), &c);
    let right = add_isometries(&a, &add_isometries(&b, &c));
    assert_eq!(left, right);
}

#[test]
fn compose_translation_commutes_on_samples() {
    let a = Isometry::new(3, -40, 100);
    let b = Isometry::new(-8, 40, -300);
    let ab = add_isometries(&a, &b);
    let ba = add_isometries(&b, &a);
    assert_eq!(ab.x, ba.x);
    assert_eq!(ab.y, ba.y);
}

#[test]
fn difference_inverts_compose_on_samples() {
    let a = Isometry::new(5, -6, 700);
    let b = Isometry::new(-40, 40, -100);
    assert_eq!(sub_isometries(&add_isometries(&a, &b), &b), a);
}
