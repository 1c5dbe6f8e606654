use std140::array::{array, ArrayElementWrapper};
use std140::matrix::{mat2x2, mat2x3, mat2x4, mat3x2, mat3x3, mat3x4, mat4x2, mat4x3, mat4x4};
use std140::scalar::float;
use std140::vector::{vec2, vec3, vec4};

fn f(x: f32) -> u32 {
    x.to_bits()
}

fn num(bits: u32) -> String {
    format!("{:?}", f32::from_bits(bits))
}

fn list(items: Vec<String>) -> String {
    format!("[{}]", items.join(", "))
}

fn show2(v: &vec2) -> String {
    format!("vec2({}, {})", num(v.0), num(v.1))
}

fn show3(v: &vec3) -> String {
    format!("vec3({}, {}, {})", num(v.0), num(v.1), num(v.2))
}

fn show4(v: &vec4) -> String {
    format!("vec4({}, {}, {}, {})", num(v.0), num(v.1), num(v.2), num(v.3))
}

#[test]
fn fmt_array_test() {
    let a: array<float, 2> = array::from_wrapped([
        ArrayElementWrapper { element: float(f(0.0)) },
        ArrayElementWrapper { element: float(f(1.0)) },
    ]);
    let rendered = list(a.to_vec().iter().map(|x| format!("float({})", num(x.0))).collect());
    assert_eq!(rendered, "[float(0.0), float(1.0)]");
}

#[test]
fn fmt_mat2x2_test() {
    let m = mat2x2(
        vec2(f(1.0), f(0.0)),
        vec2(f(0.0), f(1.0)),
    );
    let columns: Vec<String> = m.deref().to_vec().iter().map(show2).collect();
    assert_eq!(
        format!("mat2x2{}", list(columns)),
        "mat2x2[vec2(1.0, 0.0), vec2(0.0, 1.0)]"
    );
}

#[test]
fn fmt_mat2x3_test() {
    let m = mat2x3(
        vec3(f(1.0), f(0.0), f(0.0)),
        vec3(f(0.0), f(1.0), f(0.0)),
    );
    let columns: Vec<String> = m.deref().to_vec().iter().map(show3).collect();
    assert_eq!(
        format!("mat2x3{}", list(columns)),
        "mat2x3[vec3(1.0, 0.0, 0.0), vec3(0.0, 1.0, 0.0)]"
    );
}

#[test]
fn fmt_mat2x4_test() {
    let m = mat2x4(
        vec4(f(1.0), f(0.0), f(0.0), f(0.0)),
        vec4(f(0.0), f(1.0), f(0.0), f(0.0)),
    );
    let columns: Vec<String> = m.deref().to_vec().iter().map(show4).collect();
    assert_eq!(
        format!("mat2x4{}", list(columns)),
        "mat2x4[vec4(1.0, 0.0, 0.0, 0.0), vec4(0.0, 1.0, 0.0, 0.0)]"
    );
}

#[test]
fn fmt_mat3x2_test() {
    let m = mat3x2(
        vec2(f(1.0), f(0.0)),
        vec2(f(0.0), f(1.0)),
        vec2(f(0.0), f(0.0)),
    );
    let columns: Vec<String> = m.deref().to_vec().iter().map(show2).collect();
    assert_eq!(
        format!("mat3x2{}", list(columns)),
        "mat3x2[vec2(1.0, 0.0), vec2(0.0, 1.0), vec2(0.0, 0.0)]"
    );
}

#[test]
fn fmt_mat3x3_test() {
    let m = mat3x3(
        vec3(f(1.0), f(0.0), f(0.0)),
        vec3(f(0.0), f(1.0), f(0.0)),
        vec3(f(0.0), f(0.0), f(1.0)),
    );
    let columns: Vec<String> = m.deref().to_vec().iter().map(show3).collect();
    assert_eq!(
        format!("mat3x3{}", list(columns)),
        "mat3x3[vec3(1.0, 0.0, 0.0), vec3(0.0, 1.0, 0.0), vec3(0.0, 0.0, 1.0)]"
    );
}

#[test]
fn fmt_mat3x4_test() {
    let m = mat3x4(
        vec4(f(1.0), f(0.0), f(0.0), f(0.0)),
        vec4(f(0.0), f(1.0), f(0.0), f(0.0)),
        vec4(f(0.0), f(0.0), f(1.0), f(0.0)),
    );
    let columns: Vec<String> = m.deref().to_vec().iter().map(show4).collect();
    assert_eq!(
        format!("mat3x4{}", list(columns)),
        "mat3x4[vec4(1.0, 0.0, 0.0, 0.0), vec4(0.0, 1.0, 0.0, 0.0), vec4(0.0, 0.0, 1.0, 0.0)]"
    );
}

#[test]
fn fmt_mat4x2_test() {
    let m = mat4x2(
        vec2(f(1.0), f(0.0)),
        vec2(f(0.0), f(1.0)),
        vec2(f(0.0), f(0.0)),
        vec2(f(0.0), f(0.0)),
    );
    let columns: Vec<String> = m.deref().to_vec().iter().map(show2).collect();
    assert_eq!(
        format!("mat4x2{}", list(columns)),
        "mat4x2[vec2(1.0, 0.0), vec2(0.0, 1.0), vec2(0.0, 0.0), vec2(0.0, 0.0)]"
    );
}

#[test]
fn fmt_mat4x3_test() {
    let m = mat4x3(
        vec3(f(1.0), f(0.0), f(0.0)),
        vec3(f(0.0), f(1.0), f(0.0)),
        vec3(f(0.0), f(0.0), f(1.0)),
        vec3(f(0.0), f(0.0), f(0.0)),
    );
    let columns: Vec<String> = m.deref().to_vec().iter().map(show3).collect();
    assert_eq!(
        format!("mat4x3{}", list(columns)),
        "mat4x3[vec3(1.0, 0.0, 0.0), vec3(0.0, 1.0, 0.0), vec3(0.0, 0.0, 1.0), vec3(0.0, 0.0, 0.0)]"
    );
}

#[test]
fn fmt_mat4x4_test() {
    let m = mat4x4(
        vec4(f(1.0), f(0.0), f(0.0), f(0.0)),
        vec4(f(0.0), f(1.0), f(0.0), f(0.0)),
        vec4(f(0.0), f(0.0), f(1.0), f(0.0)),
        vec4(f(0.0), f(0.0), f(0.0), f(1.0)),
    );
    let columns: Vec<String> = m.deref().to_vec().iter().map(show4).collect();
    assert_eq!(
        format!("mat4x4{}", list(columns)),
        "mat4x4[vec4(1.0, 0.0, 0.0, 0.0), vec4(0.0, 1.0, 0.0, 0.0), vec4(0.0, 0.0, 1.0, 0.0), vec4(0.0, 0.0, 0.0, 1.0)]"
    );
}
