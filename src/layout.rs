//! The `std140` layout rules as a model: what a type occupies, how it is aligned, and where
//! the fields of an aggregate are placed.
use vstd::prelude::*;

use crate::{write_zeros, zeros};

verus! {

/// The numeric kind of a scalar or of each component of a vector.
#[derive(Clone, Copy, Debug, PartialEq, Eq, Structural)]
pub enum ScalarKind {
    Float,
    Int,
    Uint,
    Bool,
}

/// The shape of a type that may stand in a `std140` block.
#[derive(Debug)]
pub enum Std140Type {
    /// One component of the given kind.
    Scalar(ScalarKind),
    /// A column vector of the given kind with 2, 3 or 4 components.
    Vector(ScalarKind, usize),
    /// A float matrix with the given numbers of columns and rows (each 2, 3 or 4).
    Matrix(usize, usize),
    /// A fixed-length array of elements of one type.
    Array(Box<Std140Type>, usize),
    /// A validated aggregate: its field types in declaration order.
    Struct(Vec<Std140Type>),
}

/// The boundary of every array slot, matrix column and aggregate.
pub const BLOCK_ALIGN: usize = 16;

/// The smallest multiple of `a` that is at least `x`.
pub open spec fn round_up(x: nat, a: nat) -> nat
    recommends
        a > 0,
{
    if x % a == 0 {
        x
    } else {
        x + (a - x % a) as nat
    }
}

/// Size of a vector of `n` components: 4 bytes each.
pub open spec fn vector_size(n: nat) -> nat {
    4 * n
}

/// Alignment of a vector of `n` components: 8 for two, 16 for three or four (a 3-vector is
/// aligned as if it had four components).
pub open spec fn vector_align(n: nat) -> nat {
    if n == 2 {
        8
    } else {
        16
    }
}

/// Alignment of a shape. Arrays, matrices and aggregates are all aligned to 16 bytes.
pub open spec fn align_of(t: Std140Type) -> nat {
    match t {
        Std140Type::Scalar(_) => 4,
        Std140Type::Vector(_, n) => vector_align(n as nat),
        _ => BLOCK_ALIGN as nat,
    }
}

/// The distance between consecutive elements of an array of `e`.
pub open spec fn stride_of(e: Std140Type) -> nat {
    round_up(size_of(e), BLOCK_ALIGN as nat)
}

/// Size in bytes of a shape.
pub open spec fn size_of(t: Std140Type) -> nat
    decreases t, 0nat,
{
    match t {
        Std140Type::Scalar(_) => 4,
        Std140Type::Vector(_, n) => vector_size(n as nat),
        Std140Type::Matrix(c, r) => c as nat * round_up(vector_size(r as nat), BLOCK_ALIGN as nat),
        Std140Type::Array(e, n) => n as nat * round_up(size_of(*e), BLOCK_ALIGN as nat),
        Std140Type::Struct(fs) => round_up(fields_end(fs@, fs@.len()), BLOCK_ALIGN as nat),
    }
}

/// Offset of field `k` of an aggregate with fields `fs`: the end of the field before it,
/// rounded up to the field's own alignment.
pub open spec fn field_offset(fs: Seq<Std140Type>, k: nat) -> nat
    recommends
        k < fs.len(),
    decreases fs, k, 1nat,
{
    if k < fs.len() {
        round_up(fields_end(fs, k), align_of(fs[k as int]))
    } else {
        0
    }
}

/// Where the first `k` fields of an aggregate end.
pub open spec fn fields_end(fs: Seq<Std140Type>, k: nat) -> nat
    decreases fs, k, 0nat,
{
    if k == 0 || k > fs.len() {
        0
    } else {
        field_offset(fs, (k - 1) as nat) + size_of(fs[k - 1])
    }
}

/// Rounding up never lowers a value, and lands on a multiple of `a` less than `a` above it.
pub proof fn lemma_round_up(x: nat, a: nat)
    requires
        a > 0,
    ensures
        x <= round_up(x, a),
        round_up(x, a) < x + a,
        round_up(x, a) % a == 0,
{
    if x % a != 0 {
        assert((x + (a - x % a) as nat) % a == 0) by (nonlinear_arith)
            requires
                a > 0,
                x % a != 0,
        {
            assert(x == a * (x / a) + x % a);
            assert(x + (a - x % a) == a * (x / a + 1));
        }
    }
}

/// The ends of the leading fields of an aggregate never decrease, and each field lies before
/// the end of any longer run of fields.
pub proof fn lemma_fields_end_monotone(fs: Seq<Std140Type>, j: nat, k: nat)
    requires
        j <= k <= fs.len(),
    ensures
        fields_end(fs, j) <= fields_end(fs, k),
        j < k ==> fields_end(fs, j) <= field_offset(fs, j),
        j < k ==> field_offset(fs, j) + size_of(fs[j as int]) <= fields_end(fs, k),
    decreases k - j,
{
    if j < k {
        lemma_round_up(fields_end(fs, j), align_of(fs[j as int]));
        lemma_fields_end_monotone(fs, j + 1, k);
    }
}

/// Every field of an aggregate lies within its size.
pub proof fn lemma_fields_within(fs: Vec<Std140Type>, k: nat)
    requires
        k < fs@.len(),
    ensures
        fields_end(fs@, k) <= field_offset(fs@, k),
        field_offset(fs@, k) + size_of(fs@[k as int]) <= fields_end(fs@, fs@.len()),
        fields_end(fs@, fs@.len()) <= size_of(Std140Type::Struct(fs)),
{
    lemma_fields_end_monotone(fs@, k, fs@.len());
    lemma_round_up(fields_end(fs@, fs@.len()), BLOCK_ALIGN as nat);
}

/// The smallest multiple of `a` that is at least `x`.
pub fn round_up_exec(x: usize, a: usize) -> (r: usize)
    requires
        a > 0,
        round_up(x as nat, a as nat) <= usize::MAX,
    ensures
        r == round_up(x as nat, a as nat),
{
    let rem: usize = x % a;
    if rem == 0 {
        x
    } else {
        x + (a - rem)
    }
}

impl Std140Type {
    /// Alignment in bytes.
    pub fn align(&self) -> (r: usize)
        ensures
            r == align_of(*self),
    {
        match self {
            Std140Type::Scalar(_) => 4,
            Std140Type::Vector(_, n) => {
                if *n == 2 {
                    8
                } else {
                    16
                }
            },
            _ => BLOCK_ALIGN,
        }
    }

    /// Size in bytes, trailing padding of aggregates included.
    pub fn size(&self) -> (r: usize)
        requires
            size_of(*self) <= usize::MAX,
        ensures
            r == size_of(*self),
        decreases self, 0nat,
    {
        match self {
            Std140Type::Scalar(_) => 4,
            Std140Type::Vector(_, n) => 4 * *n,
            Std140Type::Matrix(cols, rows) => {
                proof {
                    lemma_round_up(vector_size(*rows as nat), BLOCK_ALIGN as nat);
                    let s = round_up(vector_size(*rows as nat), BLOCK_ALIGN as nat);
                    if *cols > 0 {
                        assert(s <= *cols as nat * s) by (nonlinear_arith)
                            requires
                                *cols > 0,
                        ;
                    }
                }
                if *cols == 0 {
                    proof {
                        let s = round_up(vector_size(*rows as nat), BLOCK_ALIGN as nat);
                        assert(*cols as nat * s == 0) by (nonlinear_arith)
                            requires
                                *cols == 0,
                        ;
                    }
                    0
                } else {
                    *cols * round_up_exec(4 * *rows, BLOCK_ALIGN)
                }
            },
            Std140Type::Array(e, n) => {
                if *n == 0 {
                    proof {
                        let s = round_up(size_of(**e), BLOCK_ALIGN as nat);
                        assert(*n as nat * s == 0) by (nonlinear_arith)
                            requires
                                *n == 0,
                        ;
                    }
                    0
                } else {
                    proof {
                        let es = size_of(**e);
                        lemma_round_up(es, BLOCK_ALIGN as nat);
                        let s = round_up(es, BLOCK_ALIGN as nat);
                        assert(s <= *n as nat * s) by (nonlinear_arith)
                            requires
                                *n > 0,
                        ;
                    }
                    let es = e.size();
                    *n * round_up_exec(es, BLOCK_ALIGN)
                }
            },
            Std140Type::Struct(fs) => struct_size(fs),
        }
    }
}

/// Where the first `k` fields of an aggregate end.
fn fields_end_exec(fs: &Vec<Std140Type>, k: usize) -> (r: usize)
    requires
        k <= fs@.len(),
        size_of(Std140Type::Struct(*fs)) <= usize::MAX,
    ensures
        r == fields_end(fs@, k as nat),
    decreases fs, 0nat,
{
    let mut end: usize = 0;
    let mut i: usize = 0;
    while i < k
        invariant
            i <= k <= fs@.len(),
            size_of(Std140Type::Struct(*fs)) <= usize::MAX,
            end == fields_end(fs@, i as nat),
        decreases k - i,
    {
        proof {
            lemma_fields_within(*fs, i as nat);
        }
        let off = round_up_exec(end, fs[i].align());
        end = off + fs[i].size();
        i = i + 1;
    }
    end
}

/// Offsets of the fields of an aggregate, in declaration order.
pub fn field_offsets(fs: &Vec<Std140Type>) -> (r: Vec<usize>)
    requires
        size_of(Std140Type::Struct(*fs)) <= usize::MAX,
    ensures
        r@.len() == fs@.len(),
        forall|k: int| 0 <= k < fs@.len() ==> r@[k] == field_offset(fs@, k as nat),
{
    let mut r: Vec<usize> = Vec::new();
    let mut end: usize = 0;
    let mut i: usize = 0;
    while i < fs.len()
        invariant
            i <= fs@.len(),
            size_of(Std140Type::Struct(*fs)) <= usize::MAX,
            end == fields_end(fs@, i as nat),
            r@.len() == i,
            forall|k: int| 0 <= k < i ==> r@[k] == field_offset(fs@, k as nat),
        decreases fs@.len() - i,
    {
        proof {
            lemma_fields_within(*fs, i as nat);
        }
        let off = round_up_exec(end, fs[i].align());
        r.push(off);
        end = off + fs[i].size();
        i = i + 1;
    }
    r
}

/// Size in bytes of an aggregate with fields `fs`, trailing padding included.
pub fn struct_size(fs: &Vec<Std140Type>) -> (r: usize)
    requires
        size_of(Std140Type::Struct(*fs)) <= usize::MAX,
    ensures
        r == size_of(Std140Type::Struct(*fs)),
    decreases fs, 1nat,
{
    let end = fields_end_exec(fs, fs.len());
    round_up_exec(end, BLOCK_ALIGN)
}

/// The bytes that field `i` of an aggregate with fields `fs` occupies within `bytes`.
pub open spec fn field_slice(bytes: Seq<u8>, fs: Seq<Std140Type>, i: int) -> Seq<u8> {
    bytes.subrange(
        field_offset(fs, i as nat) as int,
        (field_offset(fs, i as nat) + size_of(fs[i])) as int,
    )
}

/// The bytes of the first `k` fields of an aggregate: each field's bytes at its offset, the gaps
/// between them zero.
pub open spec fn fields_bytes(fs: Seq<Std140Type>, images: Seq<Seq<u8>>, k: nat) -> Seq<u8>
    decreases k,
{
    if k == 0 {
        Seq::empty()
    } else {
        let i = (k - 1) as nat;
        fields_bytes(fs, images, i) + zeros((field_offset(fs, i) - fields_end(fs, i)) as nat)
            + images[i as int]
    }
}

/// The bytes of an aggregate whose fields have the bytes `images`: each at its field's offset,
/// everything else zero, up to the aggregate's size.
pub open spec fn block_bytes(fs: Seq<Std140Type>, images: Seq<Seq<u8>>) -> Seq<u8> {
    let end = fields_end(fs, fs.len());
    fields_bytes(fs, images, fs.len()) + zeros((round_up(end, BLOCK_ALIGN as nat) - end) as nat)
}

/// Field images of the sizes of their fields.
pub open spec fn images_fit(fs: Seq<Std140Type>, images: Seq<Seq<u8>>) -> bool {
    &&& images.len() == fs.len()
    &&& forall|i: int| 0 <= i < fs.len() ==> (#[trigger] images[i]).len() == size_of(fs[i])
}

/// The bytes of the first `k` fields end where those fields end, and each of those fields'
/// bytes stands at its offset.
pub proof fn lemma_fields_bytes(fs: Seq<Std140Type>, images: Seq<Seq<u8>>, k: nat)
    requires
        k <= fs.len(),
        images_fit(fs, images),
    ensures
        fields_bytes(fs, images, k).len() == fields_end(fs, k),
        forall|i: int|
            0 <= i < k ==> field_slice(fields_bytes(fs, images, k), fs, i) == #[trigger] images[i],
    decreases k,
{
    if k > 0 {
        let j = (k - 1) as nat;
        lemma_fields_bytes(fs, images, j);
        lemma_fields_end_monotone(fs, j, k);
        let prev = fields_bytes(fs, images, j);
        let cur = fields_bytes(fs, images, k);
        assert forall|i: int| 0 <= i < k implies field_slice(cur, fs, i) == #[trigger] images[i] by {
            if i < j {
                lemma_fields_end_monotone(fs, i as nat, j);
                assert(field_slice(cur, fs, i) =~= field_slice(prev, fs, i));
            } else {
                assert(field_slice(cur, fs, i) =~= images[i]);
            }
        }
    }
}

/// The bytes of an aggregate take its size, and each field's bytes stand at the field's offset.
pub proof fn lemma_block_bytes(fs: Vec<Std140Type>, images: Seq<Seq<u8>>)
    requires
        images_fit(fs@, images),
    ensures
        block_bytes(fs@, images).len() == size_of(Std140Type::Struct(fs)),
        forall|i: int|
            0 <= i < fs@.len() ==> field_slice(block_bytes(fs@, images), fs@, i) == #[trigger] images[i],
{
    let k = fs@.len();
    lemma_fields_bytes(fs@, images, k);
    lemma_round_up(fields_end(fs@, k), BLOCK_ALIGN as nat);
    let all = block_bytes(fs@, images);
    let body = fields_bytes(fs@, images, k);
    assert forall|i: int| 0 <= i < fs@.len() implies field_slice(all, fs@, i) == #[trigger] images[i] by {
        lemma_fields_end_monotone(fs@, i as nat, k);
        assert(field_slice(all, fs@, i) =~= field_slice(body, fs@, i));
    }
}

/// Lays out the bytes of the fields of an aggregate: each at its offset, with zero padding
/// between fields and after the last one up to the aggregate's size.
pub fn pack_block(fs: &Vec<Std140Type>, images: &Vec<Vec<u8>>) -> (r: Vec<u8>)
    requires
        size_of(Std140Type::Struct(*fs)) <= usize::MAX,
        images_fit(fs@, images@.map_values(|v: Vec<u8>| v@)),
    ensures
        r@ == block_bytes(fs@, images@.map_values(|v: Vec<u8>| v@)),
        r@.len() == size_of(Std140Type::Struct(*fs)),
{
    let ghost ims = images@.map_values(|v: Vec<u8>| v@);
    let mut out: Vec<u8> = Vec::new();
    let mut end: usize = 0;
    let mut i: usize = 0;
    while i < fs.len()
        invariant
            i <= fs@.len(),
            size_of(Std140Type::Struct(*fs)) <= usize::MAX,
            ims == images@.map_values(|v: Vec<u8>| v@),
            images_fit(fs@, ims),
            end == fields_end(fs@, i as nat),
            out@ == fields_bytes(fs@, ims, i as nat),
        decreases fs@.len() - i,
    {
        proof {
            lemma_fields_within(*fs, i as nat);
        }
        let off = round_up_exec(end, fs[i].align());
        write_zeros(off - end, &mut out);
        let img = &images[i];
        let mut j: usize = 0;
        let ghost before = out@;
        while j < img.len()
            invariant
                j <= img@.len(),
                out@ == before + img@.subrange(0, j as int),
            decreases img@.len() - j,
        {
            out.push(img[j]);
            j = j + 1;
            proof {
                assert(out@ =~= before + img@.subrange(0, j as int));
            }
        }
        proof {
            assert(img@.subrange(0, img@.len() as int) =~= img@);
            assert(ims[i as int] == img@);
        }
        end = off + fs[i].size();
        i = i + 1;
    }
    let total = round_up_exec(end, BLOCK_ALIGN);
    proof {
        lemma_round_up(end as nat, BLOCK_ALIGN as nat);
    }
    write_zeros(total - end, &mut out);
    proof {
        lemma_block_bytes(*fs, ims);
    }
    out
}

} // verus!
