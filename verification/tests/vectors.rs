use quick_noise::math::vec::{Vec2, Vec3};

#[test]
fn constructors_set_components() {
    let pair = Vec2::new(1, 2);
    assert_eq!((pair.x, pair.y), (1, 2));
    let triple = Vec3::new(1, 2, 3);
    assert_eq!((triple.x, triple.y, triple.z), (1, 2, 3));
    let same = Vec2::splat(7u8);
    assert_eq!((same.x, same.y), (7, 7));
    let same = Vec3::splat(-7i64);
    assert_eq!((same.x, same.y, same.z), (-7, -7, -7));
}

#[test]
fn tuples_convert_to_vectors() {
    let pair: Vec2<i32> = (3, 4).into();
    assert_eq!((pair.x, pair.y), (3, 4));
    let triple = Vec3::from((5u8, 6u8, 7u8));
    assert_eq!((triple.x, triple.y, triple.z), (5, 6, 7));
}

#[test]
fn map_applies_to_each_component() {
    let pair = Vec2::new(1i32, -2).map(|c| c * 10);
    assert_eq!((pair.x, pair.y), (10, -20));
    let triple = Vec3::new(1u8, 2, 3).map(|c| u32::from(c) + 1000);
    assert_eq!((triple.x, triple.y, triple.z), (1001, 1002, 1003));
}

#[test]
fn cast_widens_each_component() {
    let pair: Vec2<i64> = Vec2::new(-3i32, 4).cast();
    assert_eq!((pair.x, pair.y), (-3i64, 4i64));
    let triple: Vec3<u32> = Vec3::new(1u8, 2, 255).cast();
    assert_eq!((triple.x, triple.y, triple.z), (1, 2, 255));
}

#[test]
fn max_and_min_go_axis_by_axis() {
    let a = Vec2::new(3, -4);
    let b = Vec2::new(1, 9);
    let hi = a.max(b);
    let lo = a.min(b);
    assert_eq!((hi.x, hi.y), (3, 9));
    assert_eq!((lo.x, lo.y), (1, -4));
    let a = Vec3::new(3u32, 4, 5);
    let b = Vec3::new(9u32, 0, 5);
    let hi = a.max(b);
    let lo = a.min(b);
    assert_eq!((hi.x, hi.y, hi.z), (9, 4, 5));
    assert_eq!((lo.x, lo.y, lo.z), (3, 0, 5));
}

#[test]
fn sum_adds_the_components() {
    assert_eq!(Vec2::new(40i32, 2).sum(), 42);
    assert_eq!(Vec3::new(1u64, 2, 3).sum(), 6);
    assert_eq!(Vec2::new(-5i8, 5).sum(), 0);
}

#[test]
fn scalars_convert_to_vectors() {
    let pair: Vec2<i32> = 9.into();
    assert_eq!((pair.x, pair.y), (9, 9));
    let triple = Vec3::from(4u8);
    assert_eq!((triple.x, triple.y, triple.z), (4, 4, 4));
}

#[test]
fn vectors_combine_component_by_component() {
    let a = Vec2::new(7i32, -8);
    let b = Vec2::new(2i32, 3);
    let sum = a + b;
    let difference = a - b;
    let product = a * b;
    let quotient = a / b;
    let remainder = a % b;
    assert_eq!((sum.x, sum.y), (9, -5));
    assert_eq!((difference.x, difference.y), (5, -11));
    assert_eq!((product.x, product.y), (14, -24));
    assert_eq!((quotient.x, quotient.y), (3, -2));
    assert_eq!((remainder.x, remainder.y), (1, -2));
    let a = Vec3::new(10u32, 20, 30);
    let b = Vec3::new(1u32, 2, 4);
    let sum = a + b;
    let difference = a - b;
    let product = a * b;
    let quotient = a / b;
    let remainder = a % b;
    assert_eq!((sum.x, sum.y, sum.z), (11, 22, 34));
    assert_eq!((difference.x, difference.y, difference.z), (9, 18, 26));
    assert_eq!((product.x, product.y, product.z), (10, 40, 120));
    assert_eq!((quotient.x, quotient.y, quotient.z), (10, 10, 7));
    assert_eq!((remainder.x, remainder.y, remainder.z), (0, 0, 2));
}

#[test]
fn vectors_combine_with_a_scalar() {
    let a = Vec2::new(7i32, -8);
    let sum = a + 1;
    let difference = a - 1;
    let product = a * 32;
    let quotient = a / 2;
    let remainder = a % 3;
    assert_eq!((sum.x, sum.y), (8, -7));
    assert_eq!((difference.x, difference.y), (6, -9));
    assert_eq!((product.x, product.y), (224, -256));
    assert_eq!((quotient.x, quotient.y), (3, -4));
    assert_eq!((remainder.x, remainder.y), (1, -2));
    let a = Vec3::new(7i64, 8, 9) * 2;
    assert_eq!((a.x, a.y, a.z), (14, 16, 18));
}

#[test]
fn scalars_combine_with_a_vector() {
    let v = Vec2::new(2i32, 5);
    let sum = 10 + v;
    let difference = 10 - v;
    let product = 10 * v;
    let quotient = 10 / v;
    let remainder = 10 % v;
    assert_eq!((sum.x, sum.y), (12, 15));
    assert_eq!((difference.x, difference.y), (8, 5));
    assert_eq!((product.x, product.y), (20, 50));
    assert_eq!((quotient.x, quotient.y), (5, 2));
    assert_eq!((remainder.x, remainder.y), (0, 0));
    let v = Vec3::new(1u8, 2, 3);
    let difference = 3u8 - v;
    assert_eq!((difference.x, difference.y, difference.z), (2, 1, 0));
    let v = Vec3::new(1u64, 2, 4);
    let quotient = 8u64 / v;
    assert_eq!((quotient.x, quotient.y, quotient.z), (8, 4, 2));
}

#[test]
fn assignment_forms_update_in_place() {
    let mut v = Vec2::new(7i32, -8);
    v += Vec2::new(1, 1);
    assert_eq!((v.x, v.y), (8, -7));
    v -= 8;
    assert_eq!((v.x, v.y), (0, -15));
    v *= Vec2::new(5, 2);
    assert_eq!((v.x, v.y), (0, -30));
    v /= 4;
    assert_eq!((v.x, v.y), (0, -7));
    v %= 4;
    assert_eq!((v.x, v.y), (0, -3));
    let mut w = Vec3::new(9u16, 8, 7);
    w -= Vec3::new(1, 2, 3);
    w *= 2;
    w /= Vec3::new(4, 4, 4);
    w %= Vec3::new(3, 3, 3);
    w += 1;
    assert_eq!((w.x, w.y, w.z), (2, 1, 3));
}
