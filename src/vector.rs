//! Column vectors of the `std140` catalog, with 2, 3 or 4 components. A 2-vector occupies 8
//! bytes aligned to 8; a 3-vector occupies 12 bytes aligned to 16; a 4-vector occupies 16 bytes
//! aligned to 16.
use vstd::prelude::*;

use crate::layout::{align_of, size_of, ScalarKind, Std140Type};
use crate::scalar::{float, int32, uint};
use crate::scalar::boolean;
use crate::{word_bytes, write_word, ReprStd140, Std140ArrayElement, Std140Write};

verus! {

/// A column vector of 2 [float](crate::scalar::float) bit patterns.
#[derive(Clone, Copy, Debug, PartialEq, Eq, Structural)]
pub struct vec2(pub u32, pub u32);

impl View for vec2 {
    type V = Seq<u32>;

    open spec fn view(&self) -> Seq<u32> {
        seq![self.0, self.1]
    }
}

impl vec2 {
    /// A vector with zeros in all positions.
    pub open spec fn zero_spec() -> Self {
        vec2(0, 0)
    }

    /// Creates a new [vec2] with zeros in all positions.
    pub fn zero() -> (r: Self)
        ensures
            r == Self::zero_spec(),
            r == vec2(0, 0),
    {
        vec2(0, 0)
    }

    /// The component at position `index`.
    pub fn index(&self, index: usize) -> (r: &u32)
        requires
            index < 2,
        ensures
            *r == self@[index as int],
    {
        match index {
            0 => &self.0,
            _ => &self.1,
        }
    }

    /// The component at position `index`, for writing.
    pub fn index_mut(&mut self, index: usize) -> (r: &mut u32)
        requires
            index < 2,
        ensures
            *r == old(self)@[index as int],
            final(self)@ == old(self)@.update(index as int, *final(r)),
    {
        match index {
            0 => &mut self.0,
            _ => &mut self.1,
        }
    }
}

impl ReprStd140 for vec2 {
    open spec fn std140_type() -> Std140Type {
        Std140Type::Vector(ScalarKind::Float, 2)
    }

    fn layout() -> (r: Std140Type) {
        Std140Type::Vector(ScalarKind::Float, 2)
    }
}

impl Std140ArrayElement for vec2 {

}

/// A column vector of 3 [float](crate::scalar::float) bit patterns.
#[derive(Clone, Copy, Debug, PartialEq, Eq, Structural)]
pub struct vec3(pub u32, pub u32, pub u32);

impl View for vec3 {
    type V = Seq<u32>;

    open spec fn view(&self) -> Seq<u32> {
        seq![self.0, self.1, self.2]
    }
}

impl vec3 {
    /// A vector with zeros in all positions.
    pub open spec fn zero_spec() -> Self {
        vec3(0, 0, 0)
    }

    /// Creates a new [vec3] with zeros in all positions.
    pub fn zero() -> (r: Self)
        ensures
            r == Self::zero_spec(),
            r == vec3(0, 0, 0),
    {
        vec3(0, 0, 0)
    }

    /// The component at position `index`.
    pub fn index(&self, index: usize) -> (r: &u32)
        requires
            index < 3,
        ensures
            *r == self@[index as int],
    {
        match index {
            0 => &self.0,
            1 => &self.1,
            _ => &self.2,
        }
    }

    /// The component at position `index`, for writing.
    pub fn index_mut(&mut self, index: usize) -> (r: &mut u32)
        requires
            index < 3,
        ensures
            *r == old(self)@[index as int],
            final(self)@ == old(self)@.update(index as int, *final(r)),
    {
        match index {
            0 => &mut self.0,
            1 => &mut self.1,
            _ => &mut self.2,
        }
    }
}

impl ReprStd140 for vec3 {
    open spec fn std140_type() -> Std140Type {
        Std140Type::Vector(ScalarKind::Float, 3)
    }

    fn layout() -> (r: Std140Type) {
        Std140Type::Vector(ScalarKind::Float, 3)
    }
}

impl Std140ArrayElement for vec3 {

}

/// A column vector of 4 [float](crate::scalar::float) bit patterns.
#[derive(Clone, Copy, Debug, PartialEq, Eq, Structural)]
pub struct vec4(pub u32, pub u32, pub u32, pub u32);

impl View for vec4 {
    type V = Seq<u32>;

    open spec fn view(&self) -> Seq<u32> {
        seq![self.0, self.1, self.2, self.3]
    }
}

impl vec4 {
    /// A vector with zeros in all positions.
    pub open spec fn zero_spec() -> Self {
        vec4(0, 0, 0, 0)
    }

    /// Creates a new [vec4] with zeros in all positions.
    pub fn zero() -> (r: Self)
        ensures
            r == Self::zero_spec(),
            r == vec4(0, 0, 0, 0),
    {
        vec4(0, 0, 0, 0)
    }

    /// The component at position `index`.
    pub fn index(&self, index: usize) -> (r: &u32)
        requires
            index < 4,
        ensures
            *r == self@[index as int],
    {
        match index {
            0 => &self.0,
            1 => &self.1,
            2 => &self.2,
            _ => &self.3,
        }
    }

    /// The component at position `index`, for writing.
    pub fn index_mut(&mut self, index: usize) -> (r: &mut u32)
        requires
            index < 4,
        ensures
            *r == old(self)@[index as int],
            final(self)@ == old(self)@.update(index as int, *final(r)),
    {
        match index {
            0 => &mut self.0,
            1 => &mut self.1,
            2 => &mut self.2,
            _ => &mut self.3,
        }
    }
}

impl ReprStd140 for vec4 {
    open spec fn std140_type() -> Std140Type {
        Std140Type::Vector(ScalarKind::Float, 4)
    }

    fn layout() -> (r: Std140Type) {
        Std140Type::Vector(ScalarKind::Float, 4)
    }
}

impl Std140ArrayElement for vec4 {

}

/// A column vector of 2 [int32](crate::scalar::int32) values.
#[derive(Clone, Copy, Debug, PartialEq, Eq, Structural)]
pub struct ivec2(pub i32, pub i32);

impl View for ivec2 {
    type V = Seq<i32>;

    open spec fn view(&self) -> Seq<i32> {
        seq![self.0, self.1]
    }
}

impl ivec2 {
    /// A vector with zeros in all positions.
    pub open spec fn zero_spec() -> Self {
        ivec2(0, 0)
    }

    /// Creates a new [ivec2] with zeros in all positions.
    pub fn zero() -> (r: Self)
        ensures
            r == Self::zero_spec(),
            r == ivec2(0, 0),
    {
        ivec2(0, 0)
    }

    /// The component at position `index`.
    pub fn index(&self, index: usize) -> (r: &i32)
        requires
            index < 2,
        ensures
            *r == self@[index as int],
    {
        match index {
            0 => &self.0,
            _ => &self.1,
        }
    }

    /// The component at position `index`, for writing.
    pub fn index_mut(&mut self, index: usize) -> (r: &mut i32)
        requires
            index < 2,
        ensures
            *r == old(self)@[index as int],
            final(self)@ == old(self)@.update(index as int, *final(r)),
    {
        match index {
            0 => &mut self.0,
            _ => &mut self.1,
        }
    }
}

impl ReprStd140 for ivec2 {
    open spec fn std140_type() -> Std140Type {
        Std140Type::Vector(ScalarKind::Int, 2)
    }

    fn layout() -> (r: Std140Type) {
        Std140Type::Vector(ScalarKind::Int, 2)
    }
}

impl Std140ArrayElement for ivec2 {

}

/// A column vector of 3 [int32](crate::scalar::int32) values.
#[derive(Clone, Copy, Debug, PartialEq, Eq, Structural)]
pub struct ivec3(pub i32, pub i32, pub i32);

impl View for ivec3 {
    type V = Seq<i32>;

    open spec fn view(&self) -> Seq<i32> {
        seq![self.0, self.1, self.2]
    }
}

impl ivec3 {
    /// A vector with zeros in all positions.
    pub open spec fn zero_spec() -> Self {
        ivec3(0, 0, 0)
    }

    /// Creates a new [ivec3] with zeros in all positions.
    pub fn zero() -> (r: Self)
        ensures
            r == Self::zero_spec(),
            r == ivec3(0, 0, 0),
    {
        ivec3(0, 0, 0)
    }

    /// The component at position `index`.
    pub fn index(&self, index: usize) -> (r: &i32)
        requires
            index < 3,
        ensures
            *r == self@[index as int],
    {
        match index {
            0 => &self.0,
            1 => &self.1,
            _ => &self.2,
        }
    }

    /// The component at position `index`, for writing.
    pub fn index_mut(&mut self, index: usize) -> (r: &mut i32)
        requires
            index < 3,
        ensures
            *r == old(self)@[index as int],
            final(self)@ == old(self)@.update(index as int, *final(r)),
    {
        match index {
            0 => &mut self.0,
            1 => &mut self.1,
            _ => &mut self.2,
        }
    }
}

impl ReprStd140 for ivec3 {
    open spec fn std140_type() -> Std140Type {
        Std140Type::Vector(ScalarKind::Int, 3)
    }

    fn layout() -> (r: Std140Type) {
        Std140Type::Vector(ScalarKind::Int, 3)
    }
}

impl Std140ArrayElement for ivec3 {

}

/// A column vector of 4 [int32](crate::scalar::int32) values.
#[derive(Clone, Copy, Debug, PartialEq, Eq, Structural)]
pub struct ivec4(pub i32, pub i32, pub i32, pub i32);

impl View for ivec4 {
    type V = Seq<i32>;

    open spec fn view(&self) -> Seq<i32> {
        seq![self.0, self.1, self.2, self.3]
    }
}

impl ivec4 {
    /// A vector with zeros in all positions.
    pub open spec fn zero_spec() -> Self {
        ivec4(0, 0, 0, 0)
    }

    /// Creates a new [ivec4] with zeros in all positions.
    pub fn zero() -> (r: Self)
        ensures
            r == Self::zero_spec(),
            r == ivec4(0, 0, 0, 0),
    {
        ivec4(0, 0, 0, 0)
    }

    /// The component at position `index`.
    pub fn index(&self, index: usize) -> (r: &i32)
        requires
            index < 4,
        ensures
            *r == self@[index as int],
    {
        match index {
            0 => &self.0,
            1 => &self.1,
            2 => &self.2,
            _ => &self.3,
        }
    }

    /// The component at position `index`, for writing.
    pub fn index_mut(&mut self, index: usize) -> (r: &mut i32)
        requires
            index < 4,
        ensures
            *r == old(self)@[index as int],
            final(self)@ == old(self)@.update(index as int, *final(r)),
    {
        match index {
            0 => &mut self.0,
            1 => &mut self.1,
            2 => &mut self.2,
            _ => &mut self.3,
        }
    }
}

impl ReprStd140 for ivec4 {
    open spec fn std140_type() -> Std140Type {
        Std140Type::Vector(ScalarKind::Int, 4)
    }

    fn layout() -> (r: Std140Type) {
        Std140Type::Vector(ScalarKind::Int, 4)
    }
}

impl Std140ArrayElement for ivec4 {

}

/// A column vector of 2 [uint](crate::scalar::uint) values.
#[derive(Clone, Copy, Debug, PartialEq, Eq, Structural)]
pub struct uvec2(pub u32, pub u32);

impl View for uvec2 {
    type V = Seq<u32>;

    open spec fn view(&self) -> Seq<u32> {
        seq![self.0, self.1]
    }
}

impl uvec2 {
    /// A vector with zeros in all positions.
    pub open spec fn zero_spec() -> Self {
        uvec2(0, 0)
    }

    /// Creates a new [uvec2] with zeros in all positions.
    pub fn zero() -> (r: Self)
        ensures
            r == Self::zero_spec(),
            r == uvec2(0, 0),
    {
        uvec2(0, 0)
    }

    /// The component at position `index`.
    pub fn index(&self, index: usize) -> (r: &u32)
        requires
            index < 2,
        ensures
            *r == self@[index as int],
    {
        match index {
            0 => &self.0,
            _ => &self.1,
        }
    }

    /// The component at position `index`, for writing.
    pub fn index_mut(&mut self, index: usize) -> (r: &mut u32)
        requires
            index < 2,
        ensures
            *r == old(self)@[index as int],
            final(self)@ == old(self)@.update(index as int, *final(r)),
    {
        match index {
            0 => &mut self.0,
            _ => &mut self.1,
        }
    }
}

impl ReprStd140 for uvec2 {
    open spec fn std140_type() -> Std140Type {
        Std140Type::Vector(ScalarKind::Uint, 2)
    }

    fn layout() -> (r: Std140Type) {
        Std140Type::Vector(ScalarKind::Uint, 2)
    }
}

impl Std140ArrayElement for uvec2 {

}

/// A column vector of 3 [uint](crate::scalar::uint) values.
#[derive(Clone, Copy, Debug, PartialEq, Eq, Structural)]
pub struct uvec3(pub u32, pub u32, pub u32);

impl View for uvec3 {
    type V = Seq<u32>;

    open spec fn view(&self) -> Seq<u32> {
        seq![self.0, self.1, self.2]
    }
}

impl uvec3 {
    /// A vector with zeros in all positions.
    pub open spec fn zero_spec() -> Self {
        uvec3(0, 0, 0)
    }

    /// Creates a new [uvec3] with zeros in all positions.
    pub fn zero() -> (r: Self)
        ensures
            r == Self::zero_spec(),
            r == uvec3(0, 0, 0),
    {
        uvec3(0, 0, 0)
    }

    /// The component at position `index`.
    pub fn index(&self, index: usize) -> (r: &u32)
        requires
            index < 3,
        ensures
            *r == self@[index as int],
    {
        match index {
            0 => &self.0,
            1 => &self.1,
            _ => &self.2,
        }
    }

    /// The component at position `index`, for writing.
    pub fn index_mut(&mut self, index: usize) -> (r: &mut u32)
        requires
            index < 3,
        ensures
            *r == old(self)@[index as int],
            final(self)@ == old(self)@.update(index as int, *final(r)),
    {
        match index {
            0 => &mut self.0,
            1 => &mut self.1,
            _ => &mut self.2,
        }
    }
}

impl ReprStd140 for uvec3 {
    open spec fn std140_type() -> Std140Type {
        Std140Type::Vector(ScalarKind::Uint, 3)
    }

    fn layout() -> (r: Std140Type) {
        Std140Type::Vector(ScalarKind::Uint, 3)
    }
}

impl Std140ArrayElement for uvec3 {

}

/// A column vector of 4 [uint](crate::scalar::uint) values.
#[derive(Clone, Copy, Debug, PartialEq, Eq, Structural)]
pub struct uvec4(pub u32, pub u32, pub u32, pub u32);

impl View for uvec4 {
    type V = Seq<u32>;

    open spec fn view(&self) -> Seq<u32> {
        seq![self.0, self.1, self.2, self.3]
    }
}

impl uvec4 {
    /// A vector with zeros in all positions.
    pub open spec fn zero_spec() -> Self {
        uvec4(0, 0, 0, 0)
    }

    /// Creates a new [uvec4] with zeros in all positions.
    pub fn zero() -> (r: Self)
        ensures
            r == Self::zero_spec(),
            r == uvec4(0, 0, 0, 0),
    {
        uvec4(0, 0, 0, 0)
    }

    /// The component at position `index`.
    pub fn index(&self, index: usize) -> (r: &u32)
        requires
            index < 4,
        ensures
            *r == self@[index as int],
    {
        match index {
            0 => &self.0,
            1 => &self.1,
            2 => &self.2,
            _ => &self.3,
        }
    }

    /// The component at position `index`, for writing.
    pub fn index_mut(&mut self, index: usize) -> (r: &mut u32)
        requires
            index < 4,
        ensures
            *r == old(self)@[index as int],
            final(self)@ == old(self)@.update(index as int, *final(r)),
    {
        match index {
            0 => &mut self.0,
            1 => &mut self.1,
            2 => &mut self.2,
            _ => &mut self.3,
        }
    }
}

impl ReprStd140 for uvec4 {
    open spec fn std140_type() -> Std140Type {
        Std140Type::Vector(ScalarKind::Uint, 4)
    }

    fn layout() -> (r: Std140Type) {
        Std140Type::Vector(ScalarKind::Uint, 4)
    }
}

impl Std140ArrayElement for uvec4 {

}

/// A column vector of 2 [boolean] values.
#[derive(Clone, Copy, Debug, PartialEq, Eq, Structural)]
pub struct bvec2(pub boolean, pub boolean);

impl View for bvec2 {
    type V = Seq<boolean>;

    open spec fn view(&self) -> Seq<boolean> {
        seq![self.0, self.1]
    }
}

impl bvec2 {
    /// The component at position `index`.
    pub fn index(&self, index: usize) -> (r: &boolean)
        requires
            index < 2,
        ensures
            *r == self@[index as int],
    {
        match index {
            0 => &self.0,
            _ => &self.1,
        }
    }

    /// The component at position `index`, for writing.
    pub fn index_mut(&mut self, index: usize) -> (r: &mut boolean)
        requires
            index < 2,
        ensures
            *r == old(self)@[index as int],
            final(self)@ == old(self)@.update(index as int, *final(r)),
    {
        match index {
            0 => &mut self.0,
            _ => &mut self.1,
        }
    }
}

impl ReprStd140 for bvec2 {
    open spec fn std140_type() -> Std140Type {
        Std140Type::Vector(ScalarKind::Bool, 2)
    }

    fn layout() -> (r: Std140Type) {
        Std140Type::Vector(ScalarKind::Bool, 2)
    }
}

impl Std140ArrayElement for bvec2 {

}

/// A column vector of 3 [boolean] values.
#[derive(Clone, Copy, Debug, PartialEq, Eq, Structural)]
pub struct bvec3(pub boolean, pub boolean, pub boolean);

impl View for bvec3 {
    type V = Seq<boolean>;

    open spec fn view(&self) -> Seq<boolean> {
        seq![self.0, self.1, self.2]
    }
}

impl bvec3 {
    /// The component at position `index`.
    pub fn index(&self, index: usize) -> (r: &boolean)
        requires
            index < 3,
        ensures
            *r == self@[index as int],
    {
        match index {
            0 => &self.0,
            1 => &self.1,
            _ => &self.2,
        }
    }

    /// The component at position `index`, for writing.
    pub fn index_mut(&mut self, index: usize) -> (r: &mut boolean)
        requires
            index < 3,
        ensures
            *r == old(self)@[index as int],
            final(self)@ == old(self)@.update(index as int, *final(r)),
    {
        match index {
            0 => &mut self.0,
            1 => &mut self.1,
            _ => &mut self.2,
        }
    }
}

impl ReprStd140 for bvec3 {
    open spec fn std140_type() -> Std140Type {
        Std140Type::Vector(ScalarKind::Bool, 3)
    }

    fn layout() -> (r: Std140Type) {
        Std140Type::Vector(ScalarKind::Bool, 3)
    }
}

impl Std140ArrayElement for bvec3 {

}

/// A column vector of 4 [boolean] values.
#[derive(Clone, Copy, Debug, PartialEq, Eq, Structural)]
pub struct bvec4(pub boolean, pub boolean, pub boolean, pub boolean);

impl View for bvec4 {
    type V = Seq<boolean>;

    open spec fn view(&self) -> Seq<boolean> {
        seq![self.0, self.1, self.2, self.3]
    }
}

impl bvec4 {
    /// The component at position `index`.
    pub fn index(&self, index: usize) -> (r: &boolean)
        requires
            index < 4,
        ensures
            *r == self@[index as int],
    {
        match index {
            0 => &self.0,
            1 => &self.1,
            2 => &self.2,
            _ => &self.3,
        }
    }

    /// The component at position `index`, for writing.
    pub fn index_mut(&mut self, index: usize) -> (r: &mut boolean)
        requires
            index < 4,
        ensures
            *r == old(self)@[index as int],
            final(self)@ == old(self)@.update(index as int, *final(r)),
    {
        match index {
            0 => &mut self.0,
            1 => &mut self.1,
            2 => &mut self.2,
            _ => &mut self.3,
        }
    }
}

impl ReprStd140 for bvec4 {
    open spec fn std140_type() -> Std140Type {
        Std140Type::Vector(ScalarKind::Bool, 4)
    }

    fn layout() -> (r: Std140Type) {
        Std140Type::Vector(ScalarKind::Bool, 4)
    }
}

impl Std140ArrayElement for bvec4 {

}

impl Std140Write for vec2 {
    open spec fn std140_bytes(&self) -> Seq<u8> {
        word_bytes(self.0) + word_bytes(self.1)
    }

    proof fn lemma_std140_bytes_len(&self) {
    }

    fn write_std140(&self, out: &mut Vec<u8>) {
        let ghost start = out@;
        write_word(self.0, out);
        write_word(self.1, out);
        proof {
            assert(out@ =~= start + self.std140_bytes());
        }
    }
}

impl Std140Write for vec3 {
    open spec fn std140_bytes(&self) -> Seq<u8> {
        word_bytes(self.0) + word_bytes(self.1) + word_bytes(self.2)
    }

    proof fn lemma_std140_bytes_len(&self) {
    }

    fn write_std140(&self, out: &mut Vec<u8>) {
        let ghost start = out@;
        write_word(self.0, out);
        write_word(self.1, out);
        write_word(self.2, out);
        proof {
            assert(out@ =~= start + self.std140_bytes());
        }
    }
}

impl Std140Write for vec4 {
    open spec fn std140_bytes(&self) -> Seq<u8> {
        word_bytes(self.0) + word_bytes(self.1) + word_bytes(self.2) + word_bytes(self.3)
    }

    proof fn lemma_std140_bytes_len(&self) {
    }

    fn write_std140(&self, out: &mut Vec<u8>) {
        let ghost start = out@;
        write_word(self.0, out);
        write_word(self.1, out);
        write_word(self.2, out);
        write_word(self.3, out);
        proof {
            assert(out@ =~= start + self.std140_bytes());
        }
    }
}

impl Std140Write for ivec2 {
    open spec fn std140_bytes(&self) -> Seq<u8> {
        word_bytes(self.0 as u32) + word_bytes(self.1 as u32)
    }

    proof fn lemma_std140_bytes_len(&self) {
    }

    fn write_std140(&self, out: &mut Vec<u8>) {
        let ghost start = out@;
        write_word(self.0 as u32, out);
        write_word(self.1 as u32, out);
        proof {
            assert(out@ =~= start + self.std140_bytes());
        }
    }
}

impl Std140Write for ivec3 {
    open spec fn std140_bytes(&self) -> Seq<u8> {
        word_bytes(self.0 as u32) + word_bytes(self.1 as u32) + word_bytes(self.2 as u32)
    }

    proof fn lemma_std140_bytes_len(&self) {
    }

    fn write_std140(&self, out: &mut Vec<u8>) {
        let ghost start = out@;
        write_word(self.0 as u32, out);
        write_word(self.1 as u32, out);
        write_word(self.2 as u32, out);
        proof {
            assert(out@ =~= start + self.std140_bytes());
        }
    }
}

impl Std140Write for ivec4 {
    open spec fn std140_bytes(&self) -> Seq<u8> {
        word_bytes(self.0 as u32) + word_bytes(self.1 as u32) + word_bytes(self.2 as u32) + word_bytes(self.3 as u32)
    }

    proof fn lemma_std140_bytes_len(&self) {
    }

    fn write_std140(&self, out: &mut Vec<u8>) {
        let ghost start = out@;
        write_word(self.0 as u32, out);
        write_word(self.1 as u32, out);
        write_word(self.2 as u32, out);
        write_word(self.3 as u32, out);
        proof {
            assert(out@ =~= start + self.std140_bytes());
        }
    }
}

impl Std140Write for uvec2 {
    open spec fn std140_bytes(&self) -> Seq<u8> {
        word_bytes(self.0) + word_bytes(self.1)
    }

    proof fn lemma_std140_bytes_len(&self) {
    }

    fn write_std140(&self, out: &mut Vec<u8>) {
        let ghost start = out@;
        write_word(self.0, out);
        write_word(self.1, out);
        proof {
            assert(out@ =~= start + self.std140_bytes());
        }
    }
}

impl Std140Write for uvec3 {
    open spec fn std140_bytes(&self) -> Seq<u8> {
        word_bytes(self.0) + word_bytes(self.1) + word_bytes(self.2)
    }

    proof fn lemma_std140_bytes_len(&self) {
    }

    fn write_std140(&self, out: &mut Vec<u8>) {
        let ghost start = out@;
        write_word(self.0, out);
        write_word(self.1, out);
        write_word(self.2, out);
        proof {
            assert(out@ =~= start + self.std140_bytes());
        }
    }
}

impl Std140Write for uvec4 {
    open spec fn std140_bytes(&self) -> Seq<u8> {
        word_bytes(self.0) + word_bytes(self.1) + word_bytes(self.2) + word_bytes(self.3)
    }

    proof fn lemma_std140_bytes_len(&self) {
    }

    fn write_std140(&self, out: &mut Vec<u8>) {
        let ghost start = out@;
        write_word(self.0, out);
        write_word(self.1, out);
        write_word(self.2, out);
        write_word(self.3, out);
        proof {
            assert(out@ =~= start + self.std140_bytes());
        }
    }
}

impl Std140Write for bvec2 {
    open spec fn std140_bytes(&self) -> Seq<u8> {
        word_bytes(self.0.spec_bits()) + word_bytes(self.1.spec_bits())
    }

    proof fn lemma_std140_bytes_len(&self) {
    }

    fn write_std140(&self, out: &mut Vec<u8>) {
        let ghost start = out@;
        write_word(self.0.bits(), out);
        write_word(self.1.bits(), out);
        proof {
            assert(out@ =~= start + self.std140_bytes());
        }
    }
}

impl Std140Write for bvec3 {
    open spec fn std140_bytes(&self) -> Seq<u8> {
        word_bytes(self.0.spec_bits()) + word_bytes(self.1.spec_bits()) + word_bytes(self.2.spec_bits())
    }

    proof fn lemma_std140_bytes_len(&self) {
    }

    fn write_std140(&self, out: &mut Vec<u8>) {
        let ghost start = out@;
        write_word(self.0.bits(), out);
        write_word(self.1.bits(), out);
        write_word(self.2.bits(), out);
        proof {
            assert(out@ =~= start + self.std140_bytes());
        }
    }
}

impl Std140Write for bvec4 {
    open spec fn std140_bytes(&self) -> Seq<u8> {
        word_bytes(self.0.spec_bits()) + word_bytes(self.1.spec_bits()) + word_bytes(self.2.spec_bits()) + word_bytes(self.3.spec_bits())
    }

    proof fn lemma_std140_bytes_len(&self) {
    }

    fn write_std140(&self, out: &mut Vec<u8>) {
        let ghost start = out@;
        write_word(self.0.bits(), out);
        write_word(self.1.bits(), out);
        write_word(self.2.bits(), out);
        write_word(self.3.bits(), out);
        proof {
            assert(out@ =~= start + self.std140_bytes());
        }
    }
}

/// The size and alignment of every scalar and vector of the catalog: a scalar takes 4 bytes
/// aligned to 4, a 2-vector 8 bytes aligned to 8, a 3-vector 12 bytes aligned to 16 and a
/// 4-vector 16 bytes aligned to 16.
pub proof fn lemma_catalog_layout()
    ensures
        size_of(<float as ReprStd140>::std140_type()) == 4,
        align_of(<float as ReprStd140>::std140_type()) == 4,
        size_of(<int32 as ReprStd140>::std140_type()) == 4,
        align_of(<int32 as ReprStd140>::std140_type()) == 4,
        size_of(<uint as ReprStd140>::std140_type()) == 4,
        align_of(<uint as ReprStd140>::std140_type()) == 4,
        size_of(<boolean as ReprStd140>::std140_type()) == 4,
        align_of(<boolean as ReprStd140>::std140_type()) == 4,
        size_of(<vec2 as ReprStd140>::std140_type()) == 8,
        align_of(<vec2 as ReprStd140>::std140_type()) == 8,
        size_of(<vec3 as ReprStd140>::std140_type()) == 12,
        align_of(<vec3 as ReprStd140>::std140_type()) == 16,
        size_of(<vec4 as ReprStd140>::std140_type()) == 16,
        align_of(<vec4 as ReprStd140>::std140_type()) == 16,
        size_of(<ivec2 as ReprStd140>::std140_type()) == 8,
        align_of(<ivec2 as ReprStd140>::std140_type()) == 8,
        size_of(<ivec3 as ReprStd140>::std140_type()) == 12,
        align_of(<ivec3 as ReprStd140>::std140_type()) == 16,
        size_of(<ivec4 as ReprStd140>::std140_type()) == 16,
        align_of(<ivec4 as ReprStd140>::std140_type()) == 16,
        size_of(<uvec2 as ReprStd140>::std140_type()) == 8,
        align_of(<uvec2 as ReprStd140>::std140_type()) == 8,
        size_of(<uvec3 as ReprStd140>::std140_type()) == 12,
        align_of(<uvec3 as ReprStd140>::std140_type()) == 16,
        size_of(<uvec4 as ReprStd140>::std140_type()) == 16,
        align_of(<uvec4 as ReprStd140>::std140_type()) == 16,
        size_of(<bvec2 as ReprStd140>::std140_type()) == 8,
        align_of(<bvec2 as ReprStd140>::std140_type()) == 8,
        size_of(<bvec3 as ReprStd140>::std140_type()) == 12,
        align_of(<bvec3 as ReprStd140>::std140_type()) == 16,
        size_of(<bvec4 as ReprStd140>::std140_type()) == 16,
        align_of(<bvec4 as ReprStd140>::std140_type()) == 16,
{
}

} // verus!
