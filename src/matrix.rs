//! Float matrices of the `std140` catalog, 2 to 4 columns by 2 to 4 rows. Each is held as an
//! [array] of column vectors, so every column takes a 16-byte aligned slot whatever the number of
//! rows.
use vstd::prelude::*;
use vstd::std_specs::cmp::PartialEqSpec;

use crate::array::{array, elements_eq, ArrayElementWrapper};
use crate::layout::{align_of, round_up, size_of, ScalarKind, Std140Type};
use crate::vector::{vec2, vec3, vec4};
use crate::{ReprStd140, Std140ArrayElement, Std140Write};

verus! {

/// A matrix with 2 columns and 2 rows, held as 2 [vec2] column vectors.
#[derive(Clone, Copy)]
pub struct mat2x2 {
    columns: array<vec2, 2>,
}

impl View for mat2x2 {
    type V = Seq<vec2>;

    /// The columns, in order.
    closed spec fn view(&self) -> Seq<vec2> {
        self.columns@
    }
}

impl mat2x2 {
    /// Creates a new [mat2x2] with zeros in all positions.
    pub fn zero() -> (r: Self)
        ensures
            r@ == seq![vec2::zero_spec(), vec2::zero_spec()],
    {
        mat2x2(vec2::zero(), vec2::zero())
    }

    /// The column array.
    pub fn deref(&self) -> (r: &array<vec2, 2>)
        ensures
            r@ == self@,
    {
        &self.columns
    }

    /// The column array, for writing.
    pub fn deref_mut(&mut self) -> (r: &mut array<vec2, 2>)
        ensures
            r@ == old(self)@,
            final(self)@ == final(r)@,
    {
        &mut self.columns
    }
}

/// Initializes a [mat2x2] from its columns, in order.
pub fn mat2x2(c0: vec2, c1: vec2) -> (r: mat2x2)
    ensures
        r@ == seq![c0, c1],
{
    let r = mat2x2 { columns: array::from_wrapped([ArrayElementWrapper { element: c0 }, ArrayElementWrapper { element: c1 }]) };
    proof {
        assert(r@ =~= seq![c0, c1]);
    }
    r
}

impl PartialEq for mat2x2 {
    fn eq(&self, other: &Self) -> (r: bool) {
        self.columns.eq_elements(&other.columns)
    }
}

impl vstd::std_specs::cmp::PartialEqSpecImpl for mat2x2 {
    open spec fn obeys_eq_spec() -> bool {
        <vec2 as PartialEqSpec>::obeys_eq_spec()
    }

    /// Equal when the columns in each position are equal.
    open spec fn eq_spec(&self, other: &Self) -> bool {
        elements_eq(self@, other@)
    }
}

impl ReprStd140 for mat2x2 {
    open spec fn std140_type() -> Std140Type {
        Std140Type::Matrix(2, 2)
    }

    fn layout() -> (r: Std140Type) {
        Std140Type::Matrix(2, 2)
    }
}

impl Std140ArrayElement for mat2x2 {

}

impl Std140Write for mat2x2 {
    /// The bytes of the column array.
    closed spec fn std140_bytes(&self) -> Seq<u8> {
        self.columns.std140_bytes()
    }

    proof fn lemma_std140_bytes_len(&self) {
        self.columns.lemma_std140_bytes_len();
        lemma_matrix_size(2, 2);
    }

    fn write_std140(&self, out: &mut Vec<u8>) {
        proof {
            lemma_matrix_size(2, 2);
        }
        self.columns.write_std140(out);
    }
}

/// A matrix with 2 columns and 3 rows, held as 2 [vec3] column vectors.
#[derive(Clone, Copy)]
pub struct mat2x3 {
    columns: array<vec3, 2>,
}

impl View for mat2x3 {
    type V = Seq<vec3>;

    /// The columns, in order.
    closed spec fn view(&self) -> Seq<vec3> {
        self.columns@
    }
}

impl mat2x3 {
    /// Creates a new [mat2x3] with zeros in all positions.
    pub fn zero() -> (r: Self)
        ensures
            r@ == seq![vec3::zero_spec(), vec3::zero_spec()],
    {
        mat2x3(vec3::zero(), vec3::zero())
    }

    /// The column array.
    pub fn deref(&self) -> (r: &array<vec3, 2>)
        ensures
            r@ == self@,
    {
        &self.columns
    }

    /// The column array, for writing.
    pub fn deref_mut(&mut self) -> (r: &mut array<vec3, 2>)
        ensures
            r@ == old(self)@,
            final(self)@ == final(r)@,
    {
        &mut self.columns
    }
}

/// Initializes a [mat2x3] from its columns, in order.
pub fn mat2x3(c0: vec3, c1: vec3) -> (r: mat2x3)
    ensures
        r@ == seq![c0, c1],
{
    let r = mat2x3 { columns: array::from_wrapped([ArrayElementWrapper { element: c0 }, ArrayElementWrapper { element: c1 }]) };
    proof {
        assert(r@ =~= seq![c0, c1]);
    }
    r
}

impl PartialEq for mat2x3 {
    fn eq(&self, other: &Self) -> (r: bool) {
        self.columns.eq_elements(&other.columns)
    }
}

impl vstd::std_specs::cmp::PartialEqSpecImpl for mat2x3 {
    open spec fn obeys_eq_spec() -> bool {
        <vec3 as PartialEqSpec>::obeys_eq_spec()
    }

    /// Equal when the columns in each position are equal.
    open spec fn eq_spec(&self, other: &Self) -> bool {
        elements_eq(self@, other@)
    }
}

impl ReprStd140 for mat2x3 {
    open spec fn std140_type() -> Std140Type {
        Std140Type::Matrix(2, 3)
    }

    fn layout() -> (r: Std140Type) {
        Std140Type::Matrix(2, 3)
    }
}

impl Std140ArrayElement for mat2x3 {

}

impl Std140Write for mat2x3 {
    /// The bytes of the column array.
    closed spec fn std140_bytes(&self) -> Seq<u8> {
        self.columns.std140_bytes()
    }

    proof fn lemma_std140_bytes_len(&self) {
        self.columns.lemma_std140_bytes_len();
        lemma_matrix_size(2, 3);
    }

    fn write_std140(&self, out: &mut Vec<u8>) {
        proof {
            lemma_matrix_size(2, 3);
        }
        self.columns.write_std140(out);
    }
}

/// A matrix with 2 columns and 4 rows, held as 2 [vec4] column vectors.
#[derive(Clone, Copy)]
pub struct mat2x4 {
    columns: array<vec4, 2>,
}

impl View for mat2x4 {
    type V = Seq<vec4>;

    /// The columns, in order.
    closed spec fn view(&self) -> Seq<vec4> {
        self.columns@
    }
}

impl mat2x4 {
    /// Creates a new [mat2x4] with zeros in all positions.
    pub fn zero() -> (r: Self)
        ensures
            r@ == seq![vec4::zero_spec(), vec4::zero_spec()],
    {
        mat2x4(vec4::zero(), vec4::zero())
    }

    /// The column array.
    pub fn deref(&self) -> (r: &array<vec4, 2>)
        ensures
            r@ == self@,
    {
        &self.columns
    }

    /// The column array, for writing.
    pub fn deref_mut(&mut self) -> (r: &mut array<vec4, 2>)
        ensures
            r@ == old(self)@,
            final(self)@ == final(r)@,
    {
        &mut self.columns
    }
}

/// Initializes a [mat2x4] from its columns, in order.
pub fn mat2x4(c0: vec4, c1: vec4) -> (r: mat2x4)
    ensures
        r@ == seq![c0, c1],
{
    let r = mat2x4 { columns: array::from_wrapped([ArrayElementWrapper { element: c0 }, ArrayElementWrapper { element: c1 }]) };
    proof {
        assert(r@ =~= seq![c0, c1]);
    }
    r
}

impl PartialEq for mat2x4 {
    fn eq(&self, other: &Self) -> (r: bool) {
        self.columns.eq_elements(&other.columns)
    }
}

impl vstd::std_specs::cmp::PartialEqSpecImpl for mat2x4 {
    open spec fn obeys_eq_spec() -> bool {
        <vec4 as PartialEqSpec>::obeys_eq_spec()
    }

    /// Equal when the columns in each position are equal.
    open spec fn eq_spec(&self, other: &Self) -> bool {
        elements_eq(self@, other@)
    }
}

impl ReprStd140 for mat2x4 {
    open spec fn std140_type() -> Std140Type {
        Std140Type::Matrix(2, 4)
    }

    fn layout() -> (r: Std140Type) {
        Std140Type::Matrix(2, 4)
    }
}

impl Std140ArrayElement for mat2x4 {

}

impl Std140Write for mat2x4 {
    /// The bytes of the column array.
    closed spec fn std140_bytes(&self) -> Seq<u8> {
        self.columns.std140_bytes()
    }

    proof fn lemma_std140_bytes_len(&self) {
        self.columns.lemma_std140_bytes_len();
        lemma_matrix_size(2, 4);
    }

    fn write_std140(&self, out: &mut Vec<u8>) {
        proof {
            lemma_matrix_size(2, 4);
        }
        self.columns.write_std140(out);
    }
}

/// A matrix with 3 columns and 2 rows, held as 3 [vec2] column vectors.
#[derive(Clone, Copy)]
pub struct mat3x2 {
    columns: array<vec2, 3>,
}

impl View for mat3x2 {
    type V = Seq<vec2>;

    /// The columns, in order.
    closed spec fn view(&self) -> Seq<vec2> {
        self.columns@
    }
}

impl mat3x2 {
    /// Creates a new [mat3x2] with zeros in all positions.
    pub fn zero() -> (r: Self)
        ensures
            r@ == seq![vec2::zero_spec(), vec2::zero_spec(), vec2::zero_spec()],
    {
        mat3x2(vec2::zero(), vec2::zero(), vec2::zero())
    }

    /// The column array.
    pub fn deref(&self) -> (r: &array<vec2, 3>)
        ensures
            r@ == self@,
    {
        &self.columns
    }

    /// The column array, for writing.
    pub fn deref_mut(&mut self) -> (r: &mut array<vec2, 3>)
        ensures
            r@ == old(self)@,
            final(self)@ == final(r)@,
    {
        &mut self.columns
    }
}

/// Initializes a [mat3x2] from its columns, in order.
pub fn mat3x2(c0: vec2, c1: vec2, c2: vec2) -> (r: mat3x2)
    ensures
        r@ == seq![c0, c1, c2],
{
    let r = mat3x2 { columns: array::from_wrapped([ArrayElementWrapper { element: c0 }, ArrayElementWrapper { element: c1 }, ArrayElementWrapper { element: c2 }]) };
    proof {
        assert(r@ =~= seq![c0, c1, c2]);
    }
    r
}

impl PartialEq for mat3x2 {
    fn eq(&self, other: &Self) -> (r: bool) {
        self.columns.eq_elements(&other.columns)
    }
}

impl vstd::std_specs::cmp::PartialEqSpecImpl for mat3x2 {
    open spec fn obeys_eq_spec() -> bool {
        <vec2 as PartialEqSpec>::obeys_eq_spec()
    }

    /// Equal when the columns in each position are equal.
    open spec fn eq_spec(&self, other: &Self) -> bool {
        elements_eq(self@, other@)
    }
}

impl ReprStd140 for mat3x2 {
    open spec fn std140_type() -> Std140Type {
        Std140Type::Matrix(3, 2)
    }

    fn layout() -> (r: Std140Type) {
        Std140Type::Matrix(3, 2)
    }
}

impl Std140ArrayElement for mat3x2 {

}

impl Std140Write for mat3x2 {
    /// The bytes of the column array.
    closed spec fn std140_bytes(&self) -> Seq<u8> {
        self.columns.std140_bytes()
    }

    proof fn lemma_std140_bytes_len(&self) {
        self.columns.lemma_std140_bytes_len();
        lemma_matrix_size(3, 2);
    }

    fn write_std140(&self, out: &mut Vec<u8>) {
        proof {
            lemma_matrix_size(3, 2);
        }
        self.columns.write_std140(out);
    }
}

/// A matrix with 3 columns and 3 rows, held as 3 [vec3] column vectors.
#[derive(Clone, Copy)]
pub struct mat3x3 {
    columns: array<vec3, 3>,
}

impl View for mat3x3 {
    type V = Seq<vec3>;

    /// The columns, in order.
    closed spec fn view(&self) -> Seq<vec3> {
        self.columns@
    }
}

impl mat3x3 {
    /// Creates a new [mat3x3] with zeros in all positions.
    pub fn zero() -> (r: Self)
        ensures
            r@ == seq![vec3::zero_spec(), vec3::zero_spec(), vec3::zero_spec()],
    {
        mat3x3(vec3::zero(), vec3::zero(), vec3::zero())
    }

    /// The column array.
    pub fn deref(&self) -> (r: &array<vec3, 3>)
        ensures
            r@ == self@,
    {
        &self.columns
    }

    /// The column array, for writing.
    pub fn deref_mut(&mut self) -> (r: &mut array<vec3, 3>)
        ensures
            r@ == old(self)@,
            final(self)@ == final(r)@,
    {
        &mut self.columns
    }
}

/// Initializes a [mat3x3] from its columns, in order.
pub fn mat3x3(c0: vec3, c1: vec3, c2: vec3) -> (r: mat3x3)
    ensures
        r@ == seq![c0, c1, c2],
{
    let r = mat3x3 { columns: array::from_wrapped([ArrayElementWrapper { element: c0 }, ArrayElementWrapper { element: c1 }, ArrayElementWrapper { element: c2 }]) };
    proof {
        assert(r@ =~= seq![c0, c1, c2]);
    }
    r
}

impl PartialEq for mat3x3 {
    fn eq(&self, other: &Self) -> (r: bool) {
        self.columns.eq_elements(&other.columns)
    }
}

impl vstd::std_specs::cmp::PartialEqSpecImpl for mat3x3 {
    open spec fn obeys_eq_spec() -> bool {
        <vec3 as PartialEqSpec>::obeys_eq_spec()
    }

    /// Equal when the columns in each position are equal.
    open spec fn eq_spec(&self, other: &Self) -> bool {
        elements_eq(self@, other@)
    }
}

impl ReprStd140 for mat3x3 {
    open spec fn std140_type() -> Std140Type {
        Std140Type::Matrix(3, 3)
    }

    fn layout() -> (r: Std140Type) {
        Std140Type::Matrix(3, 3)
    }
}

impl Std140ArrayElement for mat3x3 {

}

impl Std140Write for mat3x3 {
    /// The bytes of the column array.
    closed spec fn std140_bytes(&self) -> Seq<u8> {
        self.columns.std140_bytes()
    }

    proof fn lemma_std140_bytes_len(&self) {
        self.columns.lemma_std140_bytes_len();
        lemma_matrix_size(3, 3);
    }

    fn write_std140(&self, out: &mut Vec<u8>) {
        proof {
            lemma_matrix_size(3, 3);
        }
        self.columns.write_std140(out);
    }
}

/// A matrix with 3 columns and 4 rows, held as 3 [vec4] column vectors.
#[derive(Clone, Copy)]
pub struct mat3x4 {
    columns: array<vec4, 3>,
}

impl View for mat3x4 {
    type V = Seq<vec4>;

    /// The columns, in order.
    closed spec fn view(&self) -> Seq<vec4> {
        self.columns@
    }
}

impl mat3x4 {
    /// Creates a new [mat3x4] with zeros in all positions.
    pub fn zero() -> (r: Self)
        ensures
            r@ == seq![vec4::zero_spec(), vec4::zero_spec(), vec4::zero_spec()],
    {
        mat3x4(vec4::zero(), vec4::zero(), vec4::zero())
    }

    /// The column array.
    pub fn deref(&self) -> (r: &array<vec4, 3>)
        ensures
            r@ == self@,
    {
        &self.columns
    }

    /// The column array, for writing.
    pub fn deref_mut(&mut self) -> (r: &mut array<vec4, 3>)
        ensures
            r@ == old(self)@,
            final(self)@ == final(r)@,
    {
        &mut self.columns
    }
}

/// Initializes a [mat3x4] from its columns, in order.
pub fn mat3x4(c0: vec4, c1: vec4, c2: vec4) -> (r: mat3x4)
    ensures
        r@ == seq![c0, c1, c2],
{
    let r = mat3x4 { columns: array::from_wrapped([ArrayElementWrapper { element: c0 }, ArrayElementWrapper { element: c1 }, ArrayElementWrapper { element: c2 }]) };
    proof {
        assert(r@ =~= seq![c0, c1, c2]);
    }
    r
}

impl PartialEq for mat3x4 {
    fn eq(&self, other: &Self) -> (r: bool) {
        self.columns.eq_elements(&other.columns)
    }
}

impl vstd::std_specs::cmp::PartialEqSpecImpl for mat3x4 {
    open spec fn obeys_eq_spec() -> bool {
        <vec4 as PartialEqSpec>::obeys_eq_spec()
    }

    /// Equal when the columns in each position are equal.
    open spec fn eq_spec(&self, other: &Self) -> bool {
        elements_eq(self@, other@)
    }
}

impl ReprStd140 for mat3x4 {
    open spec fn std140_type() -> Std140Type {
        Std140Type::Matrix(3, 4)
    }

    fn layout() -> (r: Std140Type) {
        Std140Type::Matrix(3, 4)
    }
}

impl Std140ArrayElement for mat3x4 {

}

impl Std140Write for mat3x4 {
    /// The bytes of the column array.
    closed spec fn std140_bytes(&self) -> Seq<u8> {
        self.columns.std140_bytes()
    }

    proof fn lemma_std140_bytes_len(&self) {
        self.columns.lemma_std140_bytes_len();
        lemma_matrix_size(3, 4);
    }

    fn write_std140(&self, out: &mut Vec<u8>) {
        proof {
            lemma_matrix_size(3, 4);
        }
        self.columns.write_std140(out);
    }
}

/// A matrix with 4 columns and 2 rows, held as 4 [vec2] column vectors.
#[derive(Clone, Copy)]
pub struct mat4x2 {
    columns: array<vec2, 4>,
}

impl View for mat4x2 {
    type V = Seq<vec2>;

    /// The columns, in order.
    closed spec fn view(&self) -> Seq<vec2> {
        self.columns@
    }
}

impl mat4x2 {
    /// Creates a new [mat4x2] with zeros in all positions.
    pub fn zero() -> (r: Self)
        ensures
            r@ == seq![vec2::zero_spec(), vec2::zero_spec(), vec2::zero_spec(), vec2::zero_spec()],
    {
        mat4x2(vec2::zero(), vec2::zero(), vec2::zero(), vec2::zero())
    }

    /// The column array.
    pub fn deref(&self) -> (r: &array<vec2, 4>)
        ensures
            r@ == self@,
    {
        &self.columns
    }

    /// The column array, for writing.
    pub fn deref_mut(&mut self) -> (r: &mut array<vec2, 4>)
        ensures
            r@ == old(self)@,
            final(self)@ == final(r)@,
    {
        &mut self.columns
    }
}

/// Initializes a [mat4x2] from its columns, in order.
pub fn mat4x2(c0: vec2, c1: vec2, c2: vec2, c3: vec2) -> (r: mat4x2)
    ensures
        r@ == seq![c0, c1, c2, c3],
{
    let r = mat4x2 { columns: array::from_wrapped([ArrayElementWrapper { element: c0 }, ArrayElementWrapper { element: c1 }, ArrayElementWrapper { element: c2 }, ArrayElementWrapper { element: c3 }]) };
    proof {
        assert(r@ =~= seq![c0, c1, c2, c3]);
    }
    r
}

impl PartialEq for mat4x2 {
    fn eq(&self, other: &Self) -> (r: bool) {
        self.columns.eq_elements(&other.columns)
    }
}

impl vstd::std_specs::cmp::PartialEqSpecImpl for mat4x2 {
    open spec fn obeys_eq_spec() -> bool {
        <vec2 as PartialEqSpec>::obeys_eq_spec()
    }

    /// Equal when the columns in each position are equal.
    open spec fn eq_spec(&self, other: &Self) -> bool {
        elements_eq(self@, other@)
    }
}

impl ReprStd140 for mat4x2 {
    open spec fn std140_type() -> Std140Type {
        Std140Type::Matrix(4, 2)
    }

    fn layout() -> (r: Std140Type) {
        Std140Type::Matrix(4, 2)
    }
}

impl Std140ArrayElement for mat4x2 {

}

impl Std140Write for mat4x2 {
    /// The bytes of the column array.
    closed spec fn std140_bytes(&self) -> Seq<u8> {
        self.columns.std140_bytes()
    }

    proof fn lemma_std140_bytes_len(&self) {
        self.columns.lemma_std140_bytes_len();
        lemma_matrix_size(4, 2);
    }

    fn write_std140(&self, out: &mut Vec<u8>) {
        proof {
            lemma_matrix_size(4, 2);
        }
        self.columns.write_std140(out);
    }
}

/// A matrix with 4 columns and 3 rows, held as 4 [vec3] column vectors.
#[derive(Clone, Copy)]
pub struct mat4x3 {
    columns: array<vec3, 4>,
}

impl View for mat4x3 {
    type V = Seq<vec3>;

    /// The columns, in order.
    closed spec fn view(&self) -> Seq<vec3> {
        self.columns@
    }
}

impl mat4x3 {
    /// Creates a new [mat4x3] with zeros in all positions.
    pub fn zero() -> (r: Self)
        ensures
            r@ == seq![vec3::zero_spec(), vec3::zero_spec(), vec3::zero_spec(), vec3::zero_spec()],
    {
        mat4x3(vec3::zero(), vec3::zero(), vec3::zero(), vec3::zero())
    }

    /// The column array.
    pub fn deref(&self) -> (r: &array<vec3, 4>)
        ensures
            r@ == self@,
    {
        &self.columns
    }

    /// The column array, for writing.
    pub fn deref_mut(&mut self) -> (r: &mut array<vec3, 4>)
        ensures
            r@ == old(self)@,
            final(self)@ == final(r)@,
    {
        &mut self.columns
    }
}

/// Initializes a [mat4x3] from its columns, in order.
pub fn mat4x3(c0: vec3, c1: vec3, c2: vec3, c3: vec3) -> (r: mat4x3)
    ensures
        r@ == seq![c0, c1, c2, c3],
{
    let r = mat4x3 { columns: array::from_wrapped([ArrayElementWrapper { element: c0 }, ArrayElementWrapper { element: c1 }, ArrayElementWrapper { element: c2 }, ArrayElementWrapper { element: c3 }]) };
    proof {
        assert(r@ =~= seq![c0, c1, c2, c3]);
    }
    r
}

impl PartialEq for mat4x3 {
    fn eq(&self, other: &Self) -> (r: bool) {
        self.columns.eq_elements(&other.columns)
    }
}

impl vstd::std_specs::cmp::PartialEqSpecImpl for mat4x3 {
    open spec fn obeys_eq_spec() -> bool {
        <vec3 as PartialEqSpec>::obeys_eq_spec()
    }

    /// Equal when the columns in each position are equal.
    open spec fn eq_spec(&self, other: &Self) -> bool {
        elements_eq(self@, other@)
    }
}

impl ReprStd140 for mat4x3 {
    open spec fn std140_type() -> Std140Type {
        Std140Type::Matrix(4, 3)
    }

    fn layout() -> (r: Std140Type) {
        Std140Type::Matrix(4, 3)
    }
}

impl Std140ArrayElement for mat4x3 {

}

impl Std140Write for mat4x3 {
    /// The bytes of the column array.
    closed spec fn std140_bytes(&self) -> Seq<u8> {
        self.columns.std140_bytes()
    }

    proof fn lemma_std140_bytes_len(&self) {
        self.columns.lemma_std140_bytes_len();
        lemma_matrix_size(4, 3);
    }

    fn write_std140(&self, out: &mut Vec<u8>) {
        proof {
            lemma_matrix_size(4, 3);
        }
        self.columns.write_std140(out);
    }
}

/// A matrix with 4 columns and 4 rows, held as 4 [vec4] column vectors.
#[derive(Clone, Copy)]
pub struct mat4x4 {
    columns: array<vec4, 4>,
}

impl View for mat4x4 {
    type V = Seq<vec4>;

    /// The columns, in order.
    closed spec fn view(&self) -> Seq<vec4> {
        self.columns@
    }
}

impl mat4x4 {
    /// Creates a new [mat4x4] with zeros in all positions.
    pub fn zero() -> (r: Self)
        ensures
            r@ == seq![vec4::zero_spec(), vec4::zero_spec(), vec4::zero_spec(), vec4::zero_spec()],
    {
        mat4x4(vec4::zero(), vec4::zero(), vec4::zero(), vec4::zero())
    }

    /// The column array.
    pub fn deref(&self) -> (r: &array<vec4, 4>)
        ensures
            r@ == self@,
    {
        &self.columns
    }

    /// The column array, for writing.
    pub fn deref_mut(&mut self) -> (r: &mut array<vec4, 4>)
        ensures
            r@ == old(self)@,
            final(self)@ == final(r)@,
    {
        &mut self.columns
    }
}

/// Initializes a [mat4x4] from its columns, in order.
pub fn mat4x4(c0: vec4, c1: vec4, c2: vec4, c3: vec4) -> (r: mat4x4)
    ensures
        r@ == seq![c0, c1, c2, c3],
{
    let r = mat4x4 { columns: array::from_wrapped([ArrayElementWrapper { element: c0 }, ArrayElementWrapper { element: c1 }, ArrayElementWrapper { element: c2 }, ArrayElementWrapper { element: c3 }]) };
    proof {
        assert(r@ =~= seq![c0, c1, c2, c3]);
    }
    r
}

impl PartialEq for mat4x4 {
    fn eq(&self, other: &Self) -> (r: bool) {
        self.columns.eq_elements(&other.columns)
    }
}

impl vstd::std_specs::cmp::PartialEqSpecImpl for mat4x4 {
    open spec fn obeys_eq_spec() -> bool {
        <vec4 as PartialEqSpec>::obeys_eq_spec()
    }

    /// Equal when the columns in each position are equal.
    open spec fn eq_spec(&self, other: &Self) -> bool {
        elements_eq(self@, other@)
    }
}

impl ReprStd140 for mat4x4 {
    open spec fn std140_type() -> Std140Type {
        Std140Type::Matrix(4, 4)
    }

    fn layout() -> (r: Std140Type) {
        Std140Type::Matrix(4, 4)
    }
}

impl Std140ArrayElement for mat4x4 {

}

impl Std140Write for mat4x4 {
    /// The bytes of the column array.
    closed spec fn std140_bytes(&self) -> Seq<u8> {
        self.columns.std140_bytes()
    }

    proof fn lemma_std140_bytes_len(&self) {
        self.columns.lemma_std140_bytes_len();
        lemma_matrix_size(4, 4);
    }

    fn write_std140(&self, out: &mut Vec<u8>) {
        proof {
            lemma_matrix_size(4, 4);
        }
        self.columns.write_std140(out);
    }
}

/// A matrix of `c` columns and `r` rows takes `c` column slots of 16 bytes each: its size is
/// that of an array of `c` column vectors, whatever the number of rows, and it is aligned to 16.
pub proof fn lemma_matrix_size(c: usize, r: usize)
    requires
        2 <= c <= 4,
        2 <= r <= 4,
    ensures
        size_of(Std140Type::Matrix(c, r)) == c * round_up(
            size_of(Std140Type::Vector(ScalarKind::Float, r)),
            16,
        ),
        size_of(Std140Type::Matrix(c, r)) == size_of(
            Std140Type::Array(Box::new(Std140Type::Vector(ScalarKind::Float, r)), c),
        ),
        size_of(Std140Type::Matrix(c, r)) == 16 * c,
        align_of(Std140Type::Matrix(c, r)) == 16,
{
    assert(round_up(4 * r as nat, 16) == 16);
    assert(c as nat * 16 == 16 * c as nat) by (nonlinear_arith);
}

/// The size of each matrix type of the catalog is its number of columns times the size of a
/// column vector rounded up to 16.
pub proof fn lemma_catalog_matrix_sizes()
    ensures
        size_of(<mat2x2 as ReprStd140>::std140_type())
            == 2 * round_up(size_of(<vec2 as ReprStd140>::std140_type()), 16),
        size_of(<mat2x3 as ReprStd140>::std140_type())
            == 2 * round_up(size_of(<vec3 as ReprStd140>::std140_type()), 16),
        size_of(<mat2x4 as ReprStd140>::std140_type())
            == 2 * round_up(size_of(<vec4 as ReprStd140>::std140_type()), 16),
        size_of(<mat3x2 as ReprStd140>::std140_type())
            == 3 * round_up(size_of(<vec2 as ReprStd140>::std140_type()), 16),
        size_of(<mat3x3 as ReprStd140>::std140_type())
            == 3 * round_up(size_of(<vec3 as ReprStd140>::std140_type()), 16),
        size_of(<mat3x4 as ReprStd140>::std140_type())
            == 3 * round_up(size_of(<vec4 as ReprStd140>::std140_type()), 16),
        size_of(<mat4x2 as ReprStd140>::std140_type())
            == 4 * round_up(size_of(<vec2 as ReprStd140>::std140_type()), 16),
        size_of(<mat4x3 as ReprStd140>::std140_type())
            == 4 * round_up(size_of(<vec3 as ReprStd140>::std140_type()), 16),
        size_of(<mat4x4 as ReprStd140>::std140_type())
            == 4 * round_up(size_of(<vec4 as ReprStd140>::std140_type()), 16),
{
    lemma_matrix_size(2, 2);
    lemma_matrix_size(2, 3);
    lemma_matrix_size(2, 4);
    lemma_matrix_size(3, 2);
    lemma_matrix_size(3, 3);
    lemma_matrix_size(3, 4);
    lemma_matrix_size(4, 2);
    lemma_matrix_size(4, 3);
    lemma_matrix_size(4, 4);
}

} // verus!
