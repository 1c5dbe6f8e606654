//! The `std140` array: a fixed number of elements, each in a slot padded up to a multiple of
//! 16 bytes. The same wrapper holds the columns of every matrix type.
use vstd::std_specs::cmp::PartialEqSpec;
use vstd::prelude::*;

use crate::layout::{
    align_of, lemma_round_up, round_up, round_up_exec, size_of, stride_of, Std140Type, BLOCK_ALIGN,
};
use vstd::laws_eq::obeys_concrete_eq;
use crate::{write_zeros, zeros, ReprStd140, Std140ArrayElement, Std140Write};

verus! {

/// One slot of an [array]: the element, padded on its trailing side to a 16-byte boundary.
#[derive(Clone, Copy, Debug, PartialEq, Eq, Hash)]
pub struct ArrayElementWrapper<T> where T: Std140ArrayElement {
    pub element: T,
}

/// A `std140` array of `LEN` elements of type `T`. Each element occupies a 16-byte aligned
/// slot; the padding of a slot is not part of the array's value.
#[derive(Clone, Copy)]
pub struct array<T, const LEN: usize> where T: Std140ArrayElement {
    internal: [ArrayElementWrapper<T>; LEN],
}

/// The elements held by a sequence of slots, in order.
pub open spec fn unwrapped<T: Std140ArrayElement>(slots: Seq<ArrayElementWrapper<T>>) -> Seq<T> {
    Seq::new(slots.len(), |i: int| slots[i].element)
}

impl<T: Std140ArrayElement, const LEN: usize> View for array<T, LEN> {
    type V = Seq<T>;

    /// The logical elements, in order.
    closed spec fn view(&self) -> Seq<T> {
        unwrapped(self.internal@)
    }
}

impl<T: Std140ArrayElement, const LEN: usize> array<T, LEN> {
    /// Builds an array from its slots, in order.
    pub fn from_wrapped(wrapped: [ArrayElementWrapper<T>; LEN]) -> (r: Self)
        ensures
            r@ == unwrapped(wrapped@),
    {
        array { internal: wrapped }
    }

    /// Number of elements.
    pub fn len(&self) -> (r: usize)
        ensures
            r == LEN,
            r == self@.len(),
    {
        proof {
            vstd::array::array_len_matches_n(&self.internal);
        }
        LEN
    }

    /// The element at position `index`.
    pub fn index(&self, index: usize) -> (r: &T)
        requires
            index < LEN,
        ensures
            *r == self@[index as int],
    {
        proof {
            vstd::array::array_len_matches_n(&self.internal);
        }
        &vstd::array::array_index_get(&self.internal, index).element
    }

    /// Replaces the element at position `index`.
    pub fn set(&mut self, index: usize, value: T)
        requires
            index < LEN,
        ensures
            final(self)@ == old(self)@.update(index as int, value),
    {
        proof {
            vstd::array::array_len_matches_n(&self.internal);
        }
        self.internal[index] = ArrayElementWrapper { element: value };
        proof {
            assert(final(self)@ =~= old(self)@.update(index as int, value));
        }
    }
}

impl<T: Std140ArrayElement + Copy, const LEN: usize> array<T, LEN> {
    /// An array holding `value` in every position.
    pub fn splat(value: T) -> (r: Self)
        ensures
            r@ == Seq::new(LEN as nat, |i: int| value),
    {
        let internal = vstd::array::array_fill_for_copy_types(ArrayElementWrapper { element: value });
        let r = array { internal };
        proof {
            vstd::array::array_len_matches_n(&r.internal);
            assert(r@ =~= Seq::new(LEN as nat, |i: int| value));
        }
        r
    }

    /// The logical elements, in order, without the padding of their slots.
    pub fn to_vec(&self) -> (r: Vec<T>)
        ensures
            r@ == self@,
    {
        proof {
            vstd::array::array_len_matches_n(&self.internal);
        }
        let mut r: Vec<T> = Vec::new();
        let mut i: usize = 0;
        while i < LEN
            invariant
                i <= LEN,
                self.internal@.len() == LEN,
                r@ == self@.subrange(0, i as int),
            decreases LEN - i,
        {
            r.push(*self.index(i));
            i = i + 1;
            proof {
                assert(r@ =~= self@.subrange(0, i as int));
            }
        }
        proof {
            assert(r@ =~= self@);
        }
        r
    }
}

/// Arrays of equal length whose elements are equal in each position.
pub open spec fn elements_eq<T: PartialEq>(a: Seq<T>, b: Seq<T>) -> bool {
    &&& a.len() == b.len()
    &&& forall|k: int| 0 <= k < a.len() ==> PartialEqSpec::eq_spec(#[trigger] &a[k], &b[k])
}

impl<T: Std140ArrayElement + PartialEq, const LEN: usize> array<T, LEN> {
    /// Compares the elements in each position; the slots' padding plays no part.
    pub fn eq_elements(&self, other: &Self) -> (r: bool)
        ensures
            <T as PartialEqSpec>::obeys_eq_spec() ==> r == elements_eq(self@, other@),
    {
        proof {
            vstd::array::array_len_matches_n(&self.internal);
            vstd::array::array_len_matches_n(&other.internal);
        }
        let mut i: usize = 0;
        while i < LEN
            invariant
                i <= LEN,
                self@.len() == LEN,
                other@.len() == LEN,
                <T as PartialEqSpec>::obeys_eq_spec() ==> forall|k: int|
                    0 <= k < i ==> PartialEqSpec::eq_spec(#[trigger] &self@[k], &other@[k]),
            decreases LEN - i,
        {
            if !(*self.index(i) == *other.index(i)) {
                return false;
            }
            i = i + 1;
        }
        true
    }
}

impl<T: Std140ArrayElement + PartialEq, const LEN: usize> PartialEq for array<T, LEN> {
    fn eq(&self, other: &Self) -> (r: bool) {
        self.eq_elements(other)
    }
}

impl<T: Std140ArrayElement + PartialEq, const LEN: usize> vstd::std_specs::cmp::PartialEqSpecImpl for array<T, LEN> {
    open spec fn obeys_eq_spec() -> bool {
        <T as PartialEqSpec>::obeys_eq_spec()
    }

    /// Equal when the elements in each position are equal; the slots' padding plays no part.
    open spec fn eq_spec(&self, other: &Self) -> bool {
        elements_eq(self@, other@)
    }
}

impl<T: Std140ArrayElement, const LEN: usize> ReprStd140 for array<T, LEN> {
    open spec fn std140_type() -> Std140Type {
        Std140Type::Array(Box::new(T::std140_type()), LEN)
    }

    fn layout() -> (r: Std140Type) {
        Std140Type::Array(Box::new(T::layout()), LEN)
    }
}

/// One slot: the element's bytes followed by zeros up to `stride`.
pub open spec fn slot_bytes<T: Std140Write>(x: T, stride: nat) -> Seq<u8> {
    x.std140_bytes() + zeros((stride - x.std140_bytes().len()) as nat)
}

/// The slots of `elems`, in order, each `stride` bytes long.
pub open spec fn slots_bytes<T: Std140Write>(elems: Seq<T>, stride: nat) -> Seq<u8>
    decreases elems.len(),
{
    if elems.len() == 0 {
        Seq::empty()
    } else {
        slots_bytes(elems.drop_last(), stride) + slot_bytes(elems.last(), stride)
    }
}

/// Slots of elements no longer than the stride take `stride` bytes each.
pub proof fn lemma_slots_bytes_len<T: Std140Write>(elems: Seq<T>, stride: nat)
    requires
        size_of(T::std140_type()) <= stride,
    ensures
        slots_bytes(elems, stride).len() == elems.len() * stride,
    decreases elems.len(),
{
    if elems.len() > 0 {
        lemma_slots_bytes_len(elems.drop_last(), stride);
        elems.last().lemma_std140_bytes_len();
        assert((elems.len() - 1) * stride + stride == elems.len() * stride) by (nonlinear_arith);
    }
}

impl<T: Std140ArrayElement + Std140Write, const LEN: usize> Std140Write for array<T, LEN> {
    /// Each element followed by the zero padding of its slot, in order.
    closed spec fn std140_bytes(&self) -> Seq<u8> {
        slots_bytes(self@, stride_of(T::std140_type()))
    }

    proof fn lemma_std140_bytes_len(&self) {
        vstd::array::array_len_matches_n(&self.internal);
        lemma_round_up(size_of(T::std140_type()), 16);
        lemma_slots_bytes_len(self@, stride_of(T::std140_type()));
    }

    fn write_std140(&self, out: &mut Vec<u8>) {
        proof {
            vstd::array::array_len_matches_n(&self.internal);
        }
        if LEN == 0 {
            proof {
                assert(self.std140_bytes() =~= Seq::empty());
                assert(out@ =~= old(out)@ + self.std140_bytes());
            }
            return;
        }
        proof {
            let s = stride_of(T::std140_type());
            lemma_round_up(size_of(T::std140_type()), 16);
            assert(s <= LEN as nat * s) by (nonlinear_arith)
                requires
                    LEN > 0,
            ;
        }
        let size = T::layout().size();
        let stride = round_up_exec(size, BLOCK_ALIGN);
        let ghost start = out@;
        let mut i: usize = 0;
        while i < LEN
            invariant
                i <= LEN,
                self@.len() == LEN,
                size == size_of(T::std140_type()),
                stride == stride_of(T::std140_type()),
                size <= stride,
                out@ == start + slots_bytes(self@.subrange(0, i as int), stride as nat),
            decreases LEN - i,
        {
            let x = self.index(i);
            proof {
                x.lemma_std140_bytes_len();
            }
            x.write_std140(out);
            write_zeros(stride - size, out);
            i = i + 1;
            proof {
                let s = self@.subrange(0, i as int);
                assert(s.drop_last() =~= self@.subrange(0, i - 1));
                assert(out@ =~= start + slots_bytes(s, stride as nat));
            }
        }
        proof {
            assert(self@.subrange(0, LEN as int) =~= self@);
        }
    }
}

/// An array of `LEN` elements of `T` takes `LEN` slots, each the size of `T` rounded up to 16
/// bytes, and is aligned to 16.
pub proof fn lemma_array_size<T: Std140ArrayElement, const LEN: usize>()
    requires
        LEN >= 1,
    ensures
        size_of(<array<T, LEN> as ReprStd140>::std140_type()) == LEN * round_up(
            size_of(T::std140_type()),
            16,
        ),
        stride_of(T::std140_type()) % 16 == 0,
        align_of(<array<T, LEN> as ReprStd140>::std140_type()) == 16,
{
    lemma_round_up(size_of(T::std140_type()), 16);
}

/// Reading back, in order, the elements of an array built from a list of slots gives the
/// elements of that list.
pub proof fn lemma_array_round_trip<T: Std140ArrayElement, const LEN: usize>(
    wrapped: [ArrayElementWrapper<T>; LEN],
)
    ensures
        unwrapped(wrapped@).len() == LEN,
        forall|i: int| 0 <= i < LEN ==> #[trigger] unwrapped(wrapped@)[i] == wrapped@[i].element,
{
    vstd::array::array_len_matches_n(&wrapped);
}

/// Two arrays are equal exactly when they hold the same elements in the same order, whatever
/// lies in the padding of their slots.
pub proof fn lemma_array_eq_is_element_eq<T: Std140ArrayElement + PartialEq, const LEN: usize>(
    a: array<T, LEN>,
    b: array<T, LEN>,
)
    requires
        obeys_concrete_eq::<T>(),
    ensures
        <T as PartialEqSpec>::obeys_eq_spec(),
        PartialEqSpec::eq_spec(&a, &b) <==> a@ == b@,
{
    reveal(obeys_concrete_eq);
    vstd::array::array_len_matches_n(&a.internal);
    vstd::array::array_len_matches_n(&b.internal);
    if PartialEqSpec::eq_spec(&a, &b) {
        assert(a@ =~= b@);
    }
}

} // verus!
