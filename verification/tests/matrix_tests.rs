use vecmat::arch::Arch;
use vecmat::matrix::Mat4;
use vecmat::vector::Vec4;

fn rows(r0: [i64; 4], r1: [i64; 4], r2: [i64; 4], r3: [i64; 4]) -> Mat4 {
    Mat4 {
        row0: Vec4::new(r0[0], r0[1], r0[2], r0[3]),
        row1: Vec4::new(r1[0], r1[1], r1[2], r1[3]),
        row2: Vec4::new(r2[0], r2[1], r2[2], r2[3]),
        row3: Vec4::new(r3[0], r3[1], r3[2], r3[3]),
    }
}

#[test]
fn test_new_identity() {
    let identity = Mat4::new_identity();
    let expected = rows([1, 0, 0, 0], [0, 1, 0, 0], [0, 0, 1, 0], [0, 0, 0, 1]);
    assert_eq!(identity, expected);
}

#[test]
fn test_new_zero() {
    let zero = Mat4::new_zero();
    let expected = rows([0, 0, 0, 0], [0, 0, 0, 0], [0, 0, 0, 0], [0, 0, 0, 0]);
    assert_eq!(zero, expected);
}

#[test]
fn test_add() {
    let mat1 = rows([1, 2, 3, 4], [5, 6, 7, 8], [9, 10, 11, 12], [13, 14, 15, 16]);
    let mat2 = rows([1, 1, 1, 1], [1, 1, 1, 1], [1, 1, 1, 1], [1, 1, 1, 1]);
    let result = mat1.add(&mat2);
    let expected = rows([2, 3, 4, 5], [6, 7, 8, 9], [10, 11, 12, 13], [14, 15, 16, 17]);
    assert_eq!(result, expected);
}

#[test]
fn test_mul() {
    let mat1 = rows([1, 2, 3, 4], [5, 6, 7, 8], [9, 10, 11, 12], [13, 14, 15, 16]);
    let mat2 = rows([1, 0, 0, 0], [0, 1, 0, 0], [0, 0, 1, 0], [0, 0, 0, 1]);
    let result = mat1.mul(&mat2);
    assert_eq!(result, mat1);
}

#[test]
fn test_scale() {
    let scale_mat = Mat4::scale(2, 3, 4);
    let expected = rows([2, 0, 0, 0], [0, 3, 0, 0], [0, 0, 4, 0], [0, 0, 0, 1]);
    assert_eq!(scale_mat, expected);
}

#[test]
fn test_rotate_x() {
    let rotation_mat = Mat4::rotate_x(0, 1);
    let expected = rows([1, 0, 0, 0], [0, 0, -1, 0], [0, 1, 0, 0], [0, 0, 0, 1]);
    assert_eq!(rotation_mat, expected);
}

#[test]
fn test_rotate_y() {
    let rotation_mat = Mat4::rotate_y(0, 1);
    let expected = rows([0, 0, 1, 0], [0, 1, 0, 0], [-1, 0, 0, 0], [0, 0, 0, 1]);
    assert_eq!(rotation_mat, expected);
}

#[test]
fn test_rotate_z() {
    let rotation_mat = Mat4::rotate_z(0, 1);
    let expected = rows([0, -1, 0, 0], [1, 0, 0, 0], [0, 0, 1, 0], [0, 0, 0, 1]);
    assert_eq!(rotation_mat, expected);
}

#[test]
fn test_translate() {
    let translation_mat = Mat4::translate(1, 2, 3);
    let expected = rows([1, 0, 0, 1], [0, 1, 0, 2], [0, 0, 1, 3], [0, 0, 0, 1]);
    assert_eq!(translation_mat, expected);
}

#[test]
fn test_mul_auto() {
    let mat1 = rows([1, 2, 3, 4], [5, 6, 7, 8], [9, 10, 11, 12], [13, 14, 15, 16]);
    let mat2 = Mat4::new_identity();
    let result = mat1.mul_auto(&mat2, Arch::X86Family);
    let expected = mat1.clone();
    assert_eq!(result, expected);
}

#[test]
fn multiply_known_product() {
    let a = rows([1, 2, 3, 4], [5, 6, 7, 8], [9, 10, 11, 12], [13, 14, 15, 16]);
    let b = rows([17, 18, 19, 20], [21, 22, 23, 24], [25, 26, 27, 28], [29, 30, 31, 32]);
    let expected = rows(
        [250, 260, 270, 280],
        [618, 644, 670, 696],
        [986, 1028, 1070, 1112],
        [1354, 1412, 1470, 1528],
    );
    assert_eq!(a.mul(&b), expected);
    assert_eq!(a.mul_simd(&b), expected);
    assert_eq!(a.mul_neon(&b), expected);
}
