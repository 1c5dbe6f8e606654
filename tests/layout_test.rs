use std140::array::{array, ArrayElementWrapper};
use std140::block::{expand_repr_std140, FieldDecl, ItemKind, StructDecl};
use std140::layout::{field_offsets, round_up_exec, ScalarKind, Std140Type};
use std140::matrix::{mat2x2, mat2x3, mat2x4, mat3x2, mat3x3, mat3x4, mat4x2, mat4x3, mat4x4};
use std140::scalar::{boolean, float, int32, uint};
use std140::vector::{bvec2, bvec3, bvec4, ivec2, ivec3, ivec4, uvec2, uvec3, uvec4, vec2, vec3, vec4};
use std140::{ReprStd140, Std140Struct};

fn size_align<T: ReprStd140>() -> (usize, usize) {
    let t = T::layout();
    (t.size(), t.align())
}

struct PointLight {
    position: vec3,
    intensity: float,
}

impl Std140Struct for PointLight {
    fn std140_fields() -> Vec<Std140Type> {
        Self::field_types()
    }

    fn field_types() -> Vec<Std140Type> {
        vec![vec3::layout(), float::layout()]
    }
}

#[test]
fn scalar_sizes_and_alignments() {
    assert_eq!(size_align::<float>(), (4, 4));
    assert_eq!(size_align::<int32>(), (4, 4));
    assert_eq!(size_align::<uint>(), (4, 4));
    assert_eq!(size_align::<boolean>(), (4, 4));
}

#[test]
fn vector_sizes_and_alignments() {
    assert_eq!(size_align::<vec2>(), (8, 8));
    assert_eq!(size_align::<vec3>(), (12, 16));
    assert_eq!(size_align::<vec4>(), (16, 16));
    assert_eq!(size_align::<ivec2>(), (8, 8));
    assert_eq!(size_align::<ivec3>(), (12, 16));
    assert_eq!(size_align::<ivec4>(), (16, 16));
    assert_eq!(size_align::<uvec2>(), (8, 8));
    assert_eq!(size_align::<uvec3>(), (12, 16));
    assert_eq!(size_align::<uvec4>(), (16, 16));
    assert_eq!(size_align::<bvec2>(), (8, 8));
    assert_eq!(size_align::<bvec3>(), (12, 16));
    assert_eq!(size_align::<bvec4>(), (16, 16));
}

#[test]
fn matrix_sizes_use_column_stride() {
    assert_eq!(size_align::<mat2x2>(), (32, 16));
    assert_eq!(size_align::<mat2x3>(), (32, 16));
    assert_eq!(size_align::<mat2x4>(), (32, 16));
    assert_eq!(size_align::<mat3x2>(), (48, 16));
    assert_eq!(size_align::<mat3x3>(), (48, 16));
    assert_eq!(size_align::<mat3x4>(), (48, 16));
    assert_eq!(size_align::<mat4x2>(), (64, 16));
    assert_eq!(size_align::<mat4x3>(), (64, 16));
    assert_eq!(size_align::<mat4x4>(), (64, 16));
}

#[test]
fn mat3x2_is_not_packed() {
    let size = mat3x2::layout().size();
    assert_eq!(size, 3 * round_up_exec(8, 16));
    assert_eq!(size, 48);
    assert_ne!(size, 24);
}

#[test]
fn array_sizes_round_each_slot_to_sixteen() {
    assert_eq!(size_align::<array<float, 4>>(), (64, 16));
    assert_eq!(size_align::<array<vec2, 2>>(), (32, 16));
    assert_eq!(size_align::<array<ivec3, 3>>(), (48, 16));
    assert_eq!(size_align::<array<uvec4, 1>>(), (16, 16));
    assert_eq!(size_align::<array<mat2x3, 2>>(), (64, 16));
}

#[test]
fn round_up_values() {
    assert_eq!(round_up_exec(0, 16), 0);
    assert_eq!(round_up_exec(1, 16), 16);
    assert_eq!(round_up_exec(12, 16), 16);
    assert_eq!(round_up_exec(16, 16), 16);
    assert_eq!(round_up_exec(17, 16), 32);
    assert_eq!(round_up_exec(5, 4), 8);
}

#[test]
fn point_light_layout() {
    let fields = PointLight::field_types();
    assert_eq!(field_offsets(&fields), vec![0, 12]);
    assert_eq!(PointLight::layout().size(), 16);
    assert_eq!(PointLight::layout().align(), 16);
    let light = PointLight { position: vec3(0, 0, 0), intensity: float(0) };
    assert_eq!(light.position, vec3::zero());
    assert_eq!(light.intensity, float(0));
}

#[test]
fn point_light_array_size() {
    assert_eq!(array::<PointLight, 2>::layout().size(), 2 * round_up_exec(16, 16));
    assert_eq!(array::<PointLight, 2>::layout().size(), 32);
}

#[test]
fn uniforms_block_layout() {
    let fields = vec![
        mat4x4::layout(),
        vec3::layout(),
        array::<PointLight, 2>::layout(),
    ];
    assert_eq!(field_offsets(&fields), vec![0, 64, 80]);
    assert_eq!(Std140Type::Struct(fields).size(), 112);
}

#[test]
fn offsets_follow_each_field_alignment() {
    let fields = vec![
        Std140Type::Scalar(ScalarKind::Float),
        Std140Type::Vector(ScalarKind::Int, 2),
        Std140Type::Scalar(ScalarKind::Bool),
        Std140Type::Vector(ScalarKind::Uint, 3),
        Std140Type::Scalar(ScalarKind::Float),
        Std140Type::Matrix(2, 2),
        Std140Type::Scalar(ScalarKind::Int),
    ];
    assert_eq!(field_offsets(&fields), vec![0, 8, 16, 32, 44, 48, 80]);
    assert_eq!(Std140Type::Struct(fields).size(), 96);
}

#[test]
fn empty_aggregate_has_no_size() {
    assert_eq!(Std140Type::Struct(Vec::new()).size(), 0);
    assert_eq!(field_offsets(&Vec::new()), Vec::<usize>::new());
}

#[test]
fn nested_block_is_a_sixteen_byte_field() {
    let inner = Std140Type::Struct(vec![Std140Type::Scalar(ScalarKind::Float)]);
    assert_eq!(inner.size(), 16);
    let fields = vec![Std140Type::Scalar(ScalarKind::Float), inner, Std140Type::Scalar(ScalarKind::Float)];
    assert_eq!(field_offsets(&fields), vec![0, 16, 32]);
    assert_eq!(Std140Type::Struct(fields).size(), 48);
}

#[test]
fn zero_length_array_is_empty() {
    let t = Std140Type::Array(Box::new(Std140Type::Vector(ScalarKind::Float, 3)), 0);
    assert_eq!(t.size(), 0);
    assert_eq!(t.align(), 16);
}

#[test]
fn validated_block_layout() {
    let decl = StructDecl {
        name: "PointLight".to_string(),
        kind: ItemKind::Struct,
        attributes: vec![],
        fields: vec![
            FieldDecl { name: "position".to_string(), ty: Some(vec3::layout()) },
            FieldDecl { name: "intensity".to_string(), ty: Some(float::layout()) },
        ],
    };
    let block = expand_repr_std140(decl).unwrap();
    assert_eq!(block.offsets(), vec![0, 12]);
    assert_eq!(block.size(), 16);
    let wrapped = ArrayElementWrapper { element: int32(1) };
    assert_eq!(wrapped.element, int32(1));
}
