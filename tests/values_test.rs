use std140::array::{array, ArrayElementWrapper};
use std140::matrix::{mat2x2, mat3x2, mat4x4};
use std140::scalar::{boolean, float, int32, uint};
use std140::vector::{bvec3, ivec2, ivec3, ivec4, uvec2, uvec3, uvec4, vec2, vec3, vec4};

fn bits(x: f32) -> u32 {
    x.to_bits()
}

fn int_array(values: [i32; 3]) -> array<int32, 3> {
    array::from_wrapped([
        ArrayElementWrapper { element: int32(values[0]) },
        ArrayElementWrapper { element: int32(values[1]) },
        ArrayElementWrapper { element: int32(values[2]) },
    ])
}

#[test]
fn array_round_trip() {
    let a = int_array([7, -3, 11]);
    assert_eq!(a.len(), 3);
    assert_eq!(*a.index(0), int32(7));
    assert_eq!(*a.index(1), int32(-3));
    assert_eq!(*a.index(2), int32(11));
    assert_eq!(a.to_vec(), vec![int32(7), int32(-3), int32(11)]);
}

#[test]
fn array_set_replaces_one_element() {
    let mut a = int_array([1, 2, 3]);
    a.set(1, int32(20));
    assert_eq!(a.to_vec(), vec![int32(1), int32(20), int32(3)]);
}

#[test]
fn array_splat_repeats_value() {
    let a: array<uvec2, 4> = array::splat(uvec2(1, 2));
    assert_eq!(a.to_vec(), vec![uvec2(1, 2); 4]);
}

#[test]
fn array_equality_compares_elements() {
    let a = int_array([1, 2, 3]);
    let b = int_array([1, 2, 3]);
    let c = int_array([1, 2, 4]);
    assert!(a == b);
    assert!(a != c);
    assert!(a.eq_elements(&b));
    assert!(!a.eq_elements(&c));
}

#[test]
fn array_rendering_lists_elements_in_order() {
    let a = int_array([0, 1, 2]);
    assert_eq!(format!("{:?}", a.to_vec()), "[int32(0), int32(1), int32(2)]");
    let f: array<float, 2> = array::from_wrapped([
        ArrayElementWrapper { element: float(bits(0.0)) },
        ArrayElementWrapper { element: float(bits(1.0)) },
    ]);
    let elems = f.to_vec();
    assert_eq!(f32::from_bits(elems[0].0), 0.0);
    assert_eq!(f32::from_bits(elems[1].0), 1.0);
}

#[test]
fn vector_index_reads_components() {
    let v = ivec4(1, 2, 3, 4);
    assert_eq!(*v.index(0), 1);
    assert_eq!(*v.index(3), 4);
    let u = uvec3(5, 6, 7);
    assert_eq!(*u.index(1), 6);
    let b = bvec3(boolean::False, boolean::True, boolean::False);
    assert_eq!(*b.index(1), boolean::True);
    let f = vec2(bits(0.5), bits(2.0));
    assert_eq!(f32::from_bits(*f.index(1)), 2.0);
}

#[test]
fn vector_index_mut_writes_one_component() {
    let mut v = ivec3(1, 2, 3);
    *v.index_mut(2) = 30;
    assert_eq!(v, ivec3(1, 2, 30));
    let mut u = uvec4(0, 0, 0, 0);
    *u.index_mut(0) = 9;
    assert_eq!(u, uvec4(9, 0, 0, 0));
}

#[test]
fn zero_vectors() {
    assert_eq!(ivec2::zero(), ivec2(0, 0));
    assert_eq!(ivec3::zero(), ivec3(0, 0, 0));
    assert_eq!(ivec4::zero(), ivec4(0, 0, 0, 0));
    assert_eq!(uvec2::zero(), uvec2(0, 0));
    assert_eq!(uvec3::zero(), uvec3(0, 0, 0));
    assert_eq!(uvec4::zero(), uvec4(0, 0, 0, 0));
    assert_eq!(vec3::zero(), vec3(bits(0.0), bits(0.0), bits(0.0)));
}

#[test]
fn boolean_words() {
    assert_eq!(boolean::from(true), boolean::True);
    assert_eq!(boolean::from(false), boolean::False);
    assert_eq!(boolean::True.bits(), 1);
    assert_eq!(boolean::False.bits(), 0);
    assert_eq!(uint(boolean::True.bits()), uint(1));
}

#[test]
fn matrix_columns_in_order() {
    let m = mat2x2(vec2(bits(1.0), bits(0.0)), vec2(bits(0.0), bits(1.0)));
    let cols = m.deref().to_vec();
    assert_eq!(cols, vec![vec2(bits(1.0), bits(0.0)), vec2(bits(0.0), bits(1.0))]);
    let z = mat3x2::zero();
    assert_eq!(z.deref().to_vec(), vec![vec2::zero(); 3]);
}

#[test]
fn matrix_deref_mut_writes_a_column() {
    let mut m = mat4x4::zero();
    m.deref_mut().set(3, vec4(bits(1.0), bits(2.0), bits(3.0), bits(1.0)));
    assert_eq!(*m.deref().index(3), vec4(bits(1.0), bits(2.0), bits(3.0), bits(1.0)));
    assert_eq!(*m.deref().index(0), vec4::zero());
}

#[test]
fn matrix_equality_compares_columns() {
    let a = mat2x2(vec2(1, 2), vec2(3, 4));
    let b = mat2x2(vec2(1, 2), vec2(3, 4));
    let c = mat2x2(vec2(1, 2), vec2(3, 5));
    assert!(a == b);
    assert!(a != c);
}
