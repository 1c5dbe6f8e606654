//! Scalars of the `std140` catalog: 32-bit floats, signed and unsigned integers and booleans.
//! Each occupies 4 bytes aligned to 4 bytes.
use vstd::prelude::*;

use crate::layout::{ScalarKind, Std140Type};
use crate::{word_bytes, write_word, ReprStd140, Std140ArrayElement, Std140Write};

verus! {

/// A 32-bit floating point value (GLSL `float`), held as its IEEE 754 binary32 bit pattern:
/// the layout carries the bits through unchanged.
#[derive(Clone, Copy, Debug, PartialEq, Eq, Structural)]
pub struct float(pub u32);

impl ReprStd140 for float {
    open spec fn std140_type() -> Std140Type {
        Std140Type::Scalar(ScalarKind::Float)
    }

    fn layout() -> (r: Std140Type) {
        Std140Type::Scalar(ScalarKind::Float)
    }
}

impl Std140ArrayElement for float {

}

/// A 32-bit signed integer value (GLSL `int`).
#[derive(Clone, Copy, Debug, PartialEq, Eq, Structural)]
pub struct int32(pub i32);

impl ReprStd140 for int32 {
    open spec fn std140_type() -> Std140Type {
        Std140Type::Scalar(ScalarKind::Int)
    }

    fn layout() -> (r: Std140Type) {
        Std140Type::Scalar(ScalarKind::Int)
    }
}

impl Std140ArrayElement for int32 {

}

/// A 32-bit unsigned integer value (GLSL `uint`).
#[derive(Clone, Copy, Debug, PartialEq, Eq, Structural)]
pub struct uint(pub u32);

impl ReprStd140 for uint {
    open spec fn std140_type() -> Std140Type {
        Std140Type::Scalar(ScalarKind::Uint)
    }

    fn layout() -> (r: Std140Type) {
        Std140Type::Scalar(ScalarKind::Uint)
    }
}

impl Std140ArrayElement for uint {

}

/// A 32-bit boolean value (GLSL `bool`). [boolean::False] is stored as a [uint] of `0` and
/// [boolean::True] as a [uint] of `1`.
#[derive(Clone, Copy, Debug, PartialEq, Eq, Structural)]
pub enum boolean {
    True,
    False,
}

impl boolean {
    /// The 32-bit word that stores this value.
    pub open spec fn spec_bits(self) -> u32 {
        match self {
            boolean::True => 1,
            boolean::False => 0,
        }
    }

    /// The 32-bit word that stores this value: `1` for true, `0` for false.
    pub fn bits(self) -> (r: u32)
        ensures
            r == self.spec_bits(),
    {
        match self {
            boolean::True => 1,
            boolean::False => 0,
        }
    }
}

impl From<bool> for boolean {
    fn from(value: bool) -> (r: Self) {
        match value {
            true => boolean::True,
            false => boolean::False,
        }
    }
}

impl vstd::std_specs::convert::FromSpecImpl<bool> for boolean {
    open spec fn obeys_from_spec() -> bool {
        true
    }

    open spec fn from_spec(value: bool) -> Self {
        if value {
            boolean::True
        } else {
            boolean::False
        }
    }
}

impl ReprStd140 for boolean {
    open spec fn std140_type() -> Std140Type {
        Std140Type::Scalar(ScalarKind::Bool)
    }

    fn layout() -> (r: Std140Type) {
        Std140Type::Scalar(ScalarKind::Bool)
    }
}

impl Std140ArrayElement for boolean {

}

impl Std140Write for float {
    open spec fn std140_bytes(&self) -> Seq<u8> {
        word_bytes(self.0)
    }

    proof fn lemma_std140_bytes_len(&self) {
    }

    fn write_std140(&self, out: &mut Vec<u8>) {
        let ghost start = out@;
        write_word(self.0, out);
        proof {
            assert(out@ =~= start + self.std140_bytes());
        }
    }
}

impl Std140Write for int32 {
    open spec fn std140_bytes(&self) -> Seq<u8> {
        word_bytes(self.0 as u32)
    }

    proof fn lemma_std140_bytes_len(&self) {
    }

    fn write_std140(&self, out: &mut Vec<u8>) {
        let ghost start = out@;
        write_word(self.0 as u32, out);
        proof {
            assert(out@ =~= start + self.std140_bytes());
        }
    }
}

impl Std140Write for uint {
    open spec fn std140_bytes(&self) -> Seq<u8> {
        word_bytes(self.0)
    }

    proof fn lemma_std140_bytes_len(&self) {
    }

    fn write_std140(&self, out: &mut Vec<u8>) {
        let ghost start = out@;
        write_word(self.0, out);
        proof {
            assert(out@ =~= start + self.std140_bytes());
        }
    }
}

impl Std140Write for boolean {
    open spec fn std140_bytes(&self) -> Seq<u8> {
        word_bytes(self.spec_bits())
    }

    proof fn lemma_std140_bytes_len(&self) {
    }

    fn write_std140(&self, out: &mut Vec<u8>) {
        let ghost start = out@;
        write_word(self.bits(), out);
        proof {
            assert(out@ =~= start + self.std140_bytes());
        }
    }
}

} // verus!
