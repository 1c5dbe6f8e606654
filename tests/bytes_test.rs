use std140::array::{array, ArrayElementWrapper};
use std140::layout::pack_block;
use std140::matrix::{mat3x2, mat4x4};
use std140::scalar::{boolean, float, int32, uint};
use std140::vector::{bvec2, ivec3, vec2, vec3, vec4};
use std140::{write_word, write_zeros, ReprStd140, Std140Write};

fn bytes_of<T: Std140Write>(value: &T) -> Vec<u8> {
    let mut out = Vec::new();
    value.write_std140(&mut out);
    out
}

fn word(w: u32) -> Vec<u8> {
    w.to_le_bytes().to_vec()
}

#[test]
fn scalar_bytes() {
    assert_eq!(bytes_of(&int32(-1)), vec![255, 255, 255, 255]);
    assert_eq!(bytes_of(&int32(258)), vec![2, 1, 0, 0]);
    assert_eq!(bytes_of(&uint(0x0102_0304)), vec![4, 3, 2, 1]);
    assert_eq!(bytes_of(&float(1.5f32.to_bits())), 1.5f32.to_le_bytes().to_vec());
    assert_eq!(bytes_of(&boolean::True), vec![1, 0, 0, 0]);
    assert_eq!(bytes_of(&boolean::False), vec![0, 0, 0, 0]);
}

#[test]
fn word_and_zero_helpers() {
    let mut out = vec![9];
    write_word(0xAABB_CCDD, &mut out);
    write_zeros(3, &mut out);
    assert_eq!(out, vec![9, 0xDD, 0xCC, 0xBB, 0xAA, 0, 0, 0]);
}

#[test]
fn vector_bytes() {
    let mut expected = word(1);
    expected.extend(word(2));
    expected.extend(word(3));
    assert_eq!(bytes_of(&ivec3(1, 2, 3)), expected);
    assert_eq!(bytes_of(&bvec2(boolean::False, boolean::True)), vec![0, 0, 0, 0, 1, 0, 0, 0]);
    assert_eq!(bytes_of(&vec4::zero()).len(), 16);
}

#[test]
fn array_bytes_pad_each_slot() {
    let a: array<int32, 2> = array::from_wrapped([
        ArrayElementWrapper { element: int32(1) },
        ArrayElementWrapper { element: int32(2) },
    ]);
    let mut expected = word(1);
    expected.extend(vec![0; 12]);
    expected.extend(word(2));
    expected.extend(vec![0; 12]);
    assert_eq!(bytes_of(&a), expected);
    assert_eq!(bytes_of(&a).len(), array::<int32, 2>::layout().size());
}

#[test]
fn equal_arrays_have_equal_bytes() {
    let a: array<vec2, 2> = array::splat(vec2(1, 2));
    let b: array<vec2, 2> = array::from_wrapped([
        ArrayElementWrapper { element: vec2(1, 2) },
        ArrayElementWrapper { element: vec2(1, 2) },
    ]);
    assert!(a == b);
    assert_eq!(bytes_of(&a), bytes_of(&b));
}

#[test]
fn matrix_columns_take_sixteen_bytes_each() {
    let m = mat3x2(vec2(1, 2), vec2(3, 4), vec2(5, 6));
    let bytes = bytes_of(&m);
    assert_eq!(bytes.len(), 48);
    assert_eq!(&bytes[0..8], &[1, 0, 0, 0, 2, 0, 0, 0]);
    assert_eq!(&bytes[8..16], &[0; 8]);
    assert_eq!(&bytes[16..24], &[3, 0, 0, 0, 4, 0, 0, 0]);
    assert_eq!(&bytes[32..40], &[5, 0, 0, 0, 6, 0, 0, 0]);
    assert_eq!(bytes_of(&mat4x4::zero()), vec![0; 64]);
}

#[test]
fn point_light_bytes() {
    let fields = vec![vec3::layout(), float::layout()];
    let images = vec![bytes_of(&vec3(1, 2, 3)), bytes_of(&float(7))];
    let bytes = pack_block(&fields, &images);
    let mut expected = word(1);
    expected.extend(word(2));
    expected.extend(word(3));
    expected.extend(word(7));
    assert_eq!(bytes, expected);
}

#[test]
fn block_bytes_pad_between_fields() {
    let fields = vec![float::layout(), vec3::layout(), vec2::layout()];
    let images = vec![bytes_of(&float(1)), bytes_of(&vec3(2, 3, 4)), bytes_of(&vec2(5, 6))];
    let bytes = pack_block(&fields, &images);
    assert_eq!(bytes.len(), 48);
    assert_eq!(&bytes[0..4], &word(1)[..]);
    assert_eq!(&bytes[4..16], &[0; 12]);
    assert_eq!(&bytes[16..20], &word(2)[..]);
    assert_eq!(&bytes[28..32], &[0; 4]);
    assert_eq!(&bytes[32..36], &word(5)[..]);
    assert_eq!(&bytes[40..48], &[0; 8]);
}
