//! Types whose layout follows the GLSL `std140` uniform-block convention, a model of that
//! layout (size, alignment, field offsets, array stride), the bytes a shader reads for each
//! value, and the validation of aggregates ("blocks") declared from them.
//!
//! - [`layout`]: the layout rules, over [`Std140Type`] shapes, and the packing of a block's
//!   fields into its bytes.
//! - [`scalar`], [`vector`], [`matrix`]: the catalog of GLSL types.
//! - [`array::array`]: fixed-length arrays whose elements take 16-byte aligned slots; matrices
//!   hold their columns in one.
//! - [`block`]: the validation of a declared aggregate as a block.
#![allow(non_camel_case_types)]

use vstd::prelude::*;

pub mod layout;
pub mod scalar;
pub mod vector;
pub mod array;
pub mod matrix;
pub mod block;

pub use layout::Std140Type;
use layout::size_of;

verus! {

/// Types that may be used as fields of a `std140` block. Each one states its layout shape.
pub trait ReprStd140 {
    /// The layout shape of values of this type.
    spec fn std140_type() -> Std140Type;

    /// The layout shape of values of this type.
    fn layout() -> (r: Std140Type)
        ensures
            r == Self::std140_type(),
    ;
}

/// Values that can be written out in their `std140` form: the bytes a shader reads for them,
/// padding (as zero bytes) included.
pub trait Std140Write: ReprStd140 {
    /// The `std140` bytes of this value.
    spec fn std140_bytes(&self) -> Seq<u8>;

    /// The bytes of a value take exactly the size of its layout.
    proof fn lemma_std140_bytes_len(&self)
        ensures
            self.std140_bytes().len() == size_of(Self::std140_type()),
    ;

    /// Appends the `std140` bytes of this value to `out`.
    fn write_std140(&self, out: &mut Vec<u8>)
        requires
            size_of(Self::std140_type()) <= usize::MAX,
        ensures
            final(out)@ == old(out)@ + self.std140_bytes(),
    ;
}

/// The four bytes of a 32-bit word, least significant first.
pub open spec fn word_bytes(w: u32) -> Seq<u8> {
    seq![w as u8, (w >> 8) as u8, (w >> 16) as u8, (w >> 24) as u8]
}

/// `n` zero bytes.
pub open spec fn zeros(n: nat) -> Seq<u8> {
    Seq::new(n, |i: int| 0u8)
}

/// Appends the four bytes of `w`, least significant first.
pub fn write_word(w: u32, out: &mut Vec<u8>)
    ensures
        final(out)@ == old(out)@ + word_bytes(w),
{
    out.push(w as u8);
    out.push((w >> 8) as u8);
    out.push((w >> 16) as u8);
    out.push((w >> 24) as u8);
    proof {
        assert(out@ =~= old(out)@ + word_bytes(w));
    }
}

/// Appends `n` zero bytes.
pub fn write_zeros(n: usize, out: &mut Vec<u8>)
    ensures
        final(out)@ == old(out)@ + zeros(n as nat),
{
    let ghost start = out@;
    let mut i: usize = 0;
    while i < n
        invariant
            i <= n,
            out@ == start + zeros(i as nat),
        decreases n - i,
    {
        out.push(0u8);
        i = i + 1;
        proof {
            assert(out@ =~= start + zeros(i as nat));
        }
    }
}

/// Types that may be the element type of an [`array::array`].
pub trait Std140ArrayElement: ReprStd140 {

}

/// Aggregates that were validated as `std140` blocks (see [`block::expand_repr_std140`]). Such
/// an aggregate may be a field or an array element of another block.
pub trait Std140Struct {
    /// The layouts of the fields, in declaration order.
    spec fn std140_fields() -> Vec<Std140Type>;

    /// The layouts of the fields, in declaration order.
    fn field_types() -> (r: Vec<Std140Type>)
        ensures
            r == Self::std140_fields(),
    ;
}

impl<T: Std140Struct> ReprStd140 for T {
    open spec fn std140_type() -> Std140Type {
        Std140Type::Struct(T::std140_fields())
    }

    fn layout() -> (r: Std140Type) {
        Std140Type::Struct(T::field_types())
    }
}

impl<T: Std140Struct> Std140ArrayElement for T {

}

} // verus!
