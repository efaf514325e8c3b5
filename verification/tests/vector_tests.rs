use vecmat::arch::Arch;
use vecmat::vector::Vec2;
use vecmat::vector::Vec3;
use vecmat::vector::Vec4;

#[test]
fn test_vec2_creation() {
    let v = Vec2::new(1, 2);
    assert_eq!(v.x, 1);
    assert_eq!(v.y, 2);
}

#[test]
fn test_vec2_add() {
    let v1 = Vec2::new(1, 2);
    let v2 = Vec2::new(3, 4);
    let result = v1.add(&v2);
    assert_eq!(result, Vec2::new(4, 6));
}

#[test]
fn test_vec2_sub() {
    let v1 = Vec2::new(5, 6);
    let v2 = Vec2::new(2, 3);
    let result = v1.sub(&v2);
    assert_eq!(result, Vec2::new(3, 3));
}

#[test]
fn test_vec2_mul_scalar() {
    let v = Vec2::new(1, 2);
    let result = v.mul_scalar(3);
    assert_eq!(result, Vec2::new(3, 6));
}

#[test]
fn test_vec2_dot() {
    let v1 = Vec2::new(1, 2);
    let v2 = Vec2::new(3, 4);
    let result = v1.dot(&v2);
    assert_eq!(result, 11);
}

#[test]
fn test_vec3_creation() {
    let v = Vec3::new(1, 2, 3);
    assert_eq!(v.x, 1);
    assert_eq!(v.y, 2);
    assert_eq!(v.z, 3);
}

#[test]
fn test_vec3_add() {
    let v1 = Vec3::new(1, 2, 3);
    let v2 = Vec3::new(4, 5, 6);
    let result = v1.add(&v2);
    assert_eq!(result, Vec3::new(5, 7, 9));
}

#[test]
fn test_vec3_sub() {
    let v1 = Vec3::new(7, 8, 9);
    let v2 = Vec3::new(4, 5, 6);
    let result = v1.sub(&v2);
    assert_eq!(result, Vec3::new(3, 3, 3));
}

#[test]
fn test_vec3_mul_scalar() {
    let v = Vec3::new(1, 2, 3);
    let result = v.mul_scalar(2);
    assert_eq!(result, Vec3::new(2, 4, 6));
}

#[test]
fn test_vec3_dot() {
    let v1 = Vec3::new(1, 2, 3);
    let v2 = Vec3::new(4, 5, 6);
    let result = v1.dot(&v2);
    assert_eq!(result, 32);
}

#[test]
fn test_vec3_cross() {
    let v1 = Vec3::new(1, 2, 3);
    let v2 = Vec3::new(4, 5, 6);
    let result = v1.cross(&v2);
    assert_eq!(result, Vec3::new(-3, 6, -3));
}

#[test]
fn test_vec4_creation() {
    let v = Vec4::new(1, 2, 3, 4);
    assert_eq!(v.x, 1);
    assert_eq!(v.y, 2);
    assert_eq!(v.z, 3);
    assert_eq!(v.w, 4);
}

#[test]
fn test_vec4_add() {
    let v1 = Vec4::new(1, 2, 3, 4);
    let v2 = Vec4::new(5, 6, 7, 8);
    let result = v1.add(&v2);
    assert_eq!(result, Vec4::new(6, 8, 10, 12));
}

#[test]
fn test_vec4_sub() {
    let v1 = Vec4::new(10, 11, 12, 13);
    let v2 = Vec4::new(1, 2, 3, 4);
    let result = v1.sub(&v2);
    assert_eq!(result, Vec4::new(9, 9, 9, 9));
}

#[test]
fn test_vec4_mul_scalar() {
    let v = Vec4::new(1, 2, 3, 4);
    let result = v.mul_scalar(2);
    assert_eq!(result, Vec4::new(2, 4, 6, 8));
}

#[test]
fn test_vec4_dot() {
    let v1 = Vec4::new(1, 2, 3, 4);
    let v2 = Vec4::new(5, 6, 7, 8);
    let result = v1.dot(&v2);
    assert_eq!(result, 70);
}

#[test]
fn test_vec4_dot_simd() {
    let v1 = Vec4::new(1, 2, 3, 4);
    let v2 = Vec4::new(5, 6, 7, 8);
    let result = v1.dot_simd(&v2, Arch::X86Family);
    assert_eq!(result, 70);
}

#[test]
fn dot_simd_arm_order_returns_the_scalar_value() {
    let v1 = Vec4::new(1, 2, 3, 4);
    let v2 = Vec4::new(5, 6, 7, 8);
    assert_eq!(v1.dot_simd(&v2, Arch::ArmFamily), 70);
    let v3 = Vec4::new(-7, 11, 0, -2);
    let v4 = Vec4::new(3, -5, 9, 1);
    assert_eq!(v3.dot_simd(&v4, Arch::ArmFamily), v3.dot(&v4));
    assert_eq!(v3.dot_simd(&v4, Arch::X86Family), v3.dot(&v4));
}

#[test]
fn dot_of_zero_vector_is_zero() {
    let zero = Vec4::new(0, 0, 0, 0);
    let anything = Vec4::new(123, -456, 789, -101112);
    assert_eq!(zero.dot(&anything), 0);
    assert_eq!(zero.dot_simd(&anything, Arch::X86Family), 0);
    assert_eq!(zero.dot_simd(&anything, Arch::ArmFamily), 0);
}

#[test]
fn dot_with_one_large_lane() {
    let axis = Vec4::new(1, 0, 0, 0);
    let big = Vec4::new(i64::MAX, 5, -5, 7);
    assert_eq!(axis.dot(&big), i64::MAX);
    assert_eq!(axis.dot_simd(&big, Arch::X86Family), i64::MAX);
}
