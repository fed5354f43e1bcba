use itemops::ops::{ItemProduct, ItemSum};

#[test]
fn sum_empty_any_stride() {
    let v: Vec<i32> = Vec::new();
    assert_eq!(v.sum_step(0), 0);
    assert_eq!(v.sum_step(1), 0);
    assert_eq!(v.sum_step(5), 0);
    assert_eq!(v.sum_step(usize::MAX), 0);
}

#[test]
fn sum_zero_stride() {
    let v = vec![4, 5, 6];
    assert_eq!(v.sum_step(0), 0);
    let w = vec![i32::MAX, i32::MAX];
    assert_eq!(w.sum_step(0), 0);
}

#[test]
fn product_empty_or_zero_stride() {
    let v: Vec<i32> = Vec::new();
    assert_eq!(v.product_step(0), 0);
    assert_eq!(v.product_step(1), 0);
    assert_eq!(v.product_step(7), 0);
    let w = vec![4, 5, 6];
    assert_eq!(w.product_step(0), 0);
}

#[test]
fn product_single_element() {
    let v = vec![9];
    assert_eq!(v.product_step(1), 9);
    assert_eq!(v.product_step(3), 9);
    assert_eq!(v.product_step(100), 9);
    assert_eq!(v.product_step(usize::MAX), 9);
}

#[test]
fn stride_at_least_length() {
    let v = vec![3, 1, 2];
    assert_eq!(v.sum_step(3), 3);
    assert_eq!(v.sum_step(7), 3);
    assert_eq!(v.sum_step(usize::MAX), 3);
    assert_eq!(v.product_step(3), 3);
    assert_eq!(v.product_step(7), 3);
    assert_eq!(v.product_step(usize::MAX), 3);
}

#[test]
fn sum_concrete_strides() {
    let v = vec![3, 7, 4, 2, 8, 5];
    assert_eq!(v.sum_step(2), 15);
    assert_eq!(v.sum_step(3), 5);
    assert_eq!(v.sum_step(1), 29);
}

#[test]
fn product_concrete_strides() {
    let a = [2, 5, 1, 6, 3, 7];
    assert_eq!(a.product_step(2), 6);
    assert_eq!(a.product_step(3), 12);
    assert_eq!(a.product_step(1), 1260);
}

#[test]
fn calls_are_pure() {
    let v = vec![5, 6, 14, 2, 17, 21];
    let before = v.clone();
    let s1 = v.sum_step(2);
    let s2 = v.sum_step(2);
    assert_eq!(s1, s2);
    let p1 = v.product_step(3);
    let p2 = v.product_step(3);
    assert_eq!(p1, p2);
    assert_eq!(v, before);
}

#[test]
fn unsigned_element_types() {
    let bytes: Vec<u8> = vec![100, 7, 100, 7, 55];
    assert_eq!(bytes.sum_step(2), 255);
    let factors: Vec<u8> = vec![5, 9, 7, 9, 7];
    assert_eq!(factors.product_step(2), 245);
    let shorts: Vec<u16> = vec![1000, 2000, 3000];
    assert_eq!(shorts.sum_step(1), 6000);
    let words: Vec<u32> = vec![1 << 30, 9, 1 << 30, 9, 1 << 30];
    assert_eq!(words.sum_step(2), 3 << 30);
    let longs: Vec<u64> = vec![1 << 30, 1 << 30];
    assert_eq!(longs.product_step(1), 1 << 60);
    let sizes: Vec<usize> = vec![10, 20, 30, 40];
    assert_eq!(sizes.sum_step(3), 50);
}

#[test]
fn signed_element_types() {
    let small: Vec<i8> = vec![-100, 50, -27, 50];
    assert_eq!(small.sum_step(2), -127);
    let short: Vec<i16> = vec![-300, 7, 100];
    assert_eq!(short.sum_step(2), -200);
    assert_eq!(short.product_step(2), -30000);
    let long: Vec<i64> = vec![1 << 40, 0, -(1 << 40)];
    assert_eq!(long.sum_step(2), 0);
    assert_eq!(long.product_step(1), 0);
}
