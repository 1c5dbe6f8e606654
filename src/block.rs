//! Validation of a declared aggregate as a `std140` block: the aggregate must be a plain struct
//! with no layout directive of its own, and every field's type must have a `std140` layout. A
//! validated block is aligned to 16 bytes and may itself be a field or an array element.
use vstd::prelude::*;
use vstd::string::StringExecFns;

use crate::layout::{
    align_of, field_offset, field_offsets, fields_end, lemma_round_up, size_of, Std140Type,
};

verus! {

/// What kind of item a declaration introduces.
#[derive(Clone, Copy, Debug, PartialEq, Eq, Structural)]
pub enum ItemKind {
    Struct,
    Enum,
    Union,
}

/// A declared field: its name, and the layout of its type when that type has one (`None`
/// for a type outside the catalog that is not a validated block).
#[derive(Debug)]
pub struct FieldDecl {
    pub name: String,
    pub ty: Option<Std140Type>,
}

/// A declared aggregate, before validation.
#[derive(Debug)]
pub struct StructDecl {
    pub name: String,
    pub kind: ItemKind,
    /// The paths of the attributes written on the declaration (`repr`, `derive`, ...).
    pub attributes: Vec<String>,
    pub fields: Vec<FieldDecl>,
}

/// Why a declaration cannot be a `std140` block.
#[derive(Debug)]
pub enum ReprError {
    /// The declaration is an enum or a union.
    NotAStruct,
    /// The declaration carries a `repr` attribute of its own.
    OtherRepr,
    /// The named field's type has no `std140` layout.
    FieldNotStd140(String),
}

/// A declaration that passed validation: aligned to 16 bytes, its fields in declaration order.
#[derive(Debug)]
pub struct ValidatedBlock {
    pub name: String,
    /// The attributes of the emitted declaration: `repr` (C order, 16-byte alignment) first,
    /// then those written on the input.
    pub attributes: Vec<String>,
    pub field_names: Vec<String>,
    pub field_types: Vec<Std140Type>,
}

/// The path of the layout attribute.
pub open spec fn repr_path() -> Seq<char> {
    seq!['r', 'e', 'p', 'r']
}

/// Some attribute is a `repr`.
pub open spec fn has_repr(attributes: Seq<String>) -> bool {
    exists|i: int| 0 <= i < attributes.len() && (#[trigger] attributes[i])@ == repr_path()
}

/// The field has a `std140` layout.
pub open spec fn field_supported(f: FieldDecl) -> bool {
    f.ty is Some
}

/// Every field has a `std140` layout.
pub open spec fn all_fields_supported(fields: Seq<FieldDecl>) -> bool {
    forall|i: int| 0 <= i < fields.len() ==> field_supported(#[trigger] fields[i])
}

/// Field `i` is the first field without a `std140` layout.
pub open spec fn first_unsupported(fields: Seq<FieldDecl>, i: int) -> bool {
    &&& 0 <= i < fields.len()
    &&& !field_supported(fields[i])
    &&& forall|j: int| 0 <= j < i ==> field_supported(#[trigger] fields[j])
}

/// The declaration can be a `std140` block.
pub open spec fn accepted(decl: StructDecl) -> bool {
    &&& decl.kind == ItemKind::Struct
    &&& !has_repr(decl.attributes@)
    &&& all_fields_supported(decl.fields@)
}

/// Whether any attribute of a declaration is a `repr`.
pub fn has_other_repr(attributes: &Vec<String>) -> (r: bool)
    ensures
        r == has_repr(attributes@),
{
    let repr = String::from_str("repr");
    proof {
        reveal_strlit("repr");
        assert(repr@ =~= repr_path());
    }
    let mut i: usize = 0;
    while i < attributes.len()
        invariant
            i <= attributes@.len(),
            repr@ == repr_path(),
            forall|j: int| 0 <= j < i ==> (#[trigger] attributes@[j])@ != repr_path(),
        decreases attributes@.len() - i,
    {
        if attributes[i] == repr {
            return true;
        }
        i = i + 1;
    }
    false
}

/// The names of the fields, in declaration order.
pub open spec fn names_of(fields: Seq<FieldDecl>) -> Seq<String> {
    Seq::new(fields.len(), |i: int| fields[i].name)
}

/// The layouts of the fields, in declaration order.
pub open spec fn types_of(fields: Seq<FieldDecl>) -> Seq<Std140Type> {
    Seq::new(fields.len(), |i: int| fields[i].ty.unwrap())
}

/// What validating `decl` gives: the block, or the reason it was rejected. Checks come in this
/// order: the kind of item, then its attributes, then its fields in declaration order.
pub open spec fn validates_to(decl: StructDecl, r: Result<ValidatedBlock, ReprError>) -> bool {
    if decl.kind != ItemKind::Struct {
        r matches Err(ReprError::NotAStruct)
    } else if has_repr(decl.attributes@) {
        r matches Err(ReprError::OtherRepr)
    } else if !all_fields_supported(decl.fields@) {
        exists|i: int|
            first_unsupported(decl.fields@, i) && #[trigger] rejected_field(r, decl.fields@[i].name)
    } else {
        &&& r is Ok
        &&& r->Ok_0.name == decl.name
        &&& r->Ok_0.attributes@.len() == decl.attributes@.len() + 1
        &&& r->Ok_0.attributes@[0]@ == repr_path()
        &&& r->Ok_0.attributes@.subrange(1, decl.attributes@.len() + 1int) == decl.attributes@
        &&& r->Ok_0.field_names@ == names_of(decl.fields@)
        &&& r->Ok_0.field_types@ == types_of(decl.fields@)
    }
}

/// `r` rejects the field called `name`.
pub open spec fn rejected_field(r: Result<ValidatedBlock, ReprError>, name: String) -> bool {
    match r {
        Err(ReprError::FieldNotStd140(n)) => n@ == name@,
        _ => false,
    }
}

/// Checks what a `std140` block asks of a declaration itself, before its fields: it must be a
/// struct, and carry no `repr` attribute of its own.
pub fn check_item(kind: ItemKind, attributes: &Vec<String>) -> (r: Result<(), ReprError>)
    ensures
        kind != ItemKind::Struct ==> r matches Err(ReprError::NotAStruct),
        kind == ItemKind::Struct && has_repr(attributes@) ==> r matches Err(ReprError::OtherRepr),
        kind == ItemKind::Struct && !has_repr(attributes@) ==> r is Ok,
{
    if kind != ItemKind::Struct {
        return Err(ReprError::NotAStruct);
    }
    if has_other_repr(attributes) {
        return Err(ReprError::OtherRepr);
    }
    Ok(())
}

/// Validates a declared aggregate as a `std140` block, all at once: either every check passes
/// and the block is returned with its fields in declaration order, or nothing is.
pub fn expand_repr_std140(input: StructDecl) -> (r: Result<ValidatedBlock, ReprError>)
    ensures
        validates_to(input, r),
        r is Ok <==> accepted(input),
{
    if let Err(e) = check_item(input.kind, &input.attributes) {
        return Err(e);
    }
    let mut i: usize = 0;
    while i < input.fields.len()
        invariant
            i <= input.fields@.len(),
            input.kind == ItemKind::Struct,
            !has_repr(input.attributes@),
            forall|j: int| 0 <= j < i ==> field_supported(#[trigger] input.fields@[j]),
        decreases input.fields@.len() - i,
    {
        if input.fields[i].ty.is_none() {
            let name = input.fields[i].name.clone();
            let r = Err(ReprError::FieldNotStd140(name));
            proof {
                assert(first_unsupported(input.fields@, i as int));
                assert(rejected_field(r, input.fields@[i as int].name));
                assert(!field_supported(input.fields@[i as int]));
                assert(!all_fields_supported(input.fields@));
            }
            return r;
        }
        i = i + 1;
    }
    let ghost old_fields = input.fields@;
    let StructDecl { name, kind: _, attributes, mut fields } = input;
    let mut emitted: Vec<String> = Vec::new();
    emitted.push(String::from_str("repr"));
    proof {
        reveal_strlit("repr");
        assert(emitted@[0]@ =~= repr_path());
    }
    let mut k: usize = 0;
    while k < attributes.len()
        invariant
            k <= attributes@.len(),
            emitted@.len() == k + 1,
            emitted@[0]@ == repr_path(),
            emitted@.subrange(1, k + 1) == attributes@.subrange(0, k as int),
        decreases attributes@.len() - k,
    {
        emitted.push(attributes[k].clone());
        k = k + 1;
        proof {
            assert(emitted@.subrange(1, k + 1) =~= attributes@.subrange(0, k as int));
        }
    }
    let mut field_names: Vec<String> = Vec::new();
    let mut field_types: Vec<Std140Type> = Vec::new();
    let ghost total = old_fields.len();
    while fields.len() > 0
        invariant
            total == old_fields.len(),
            all_fields_supported(old_fields),
            field_names@.len() + fields@.len() == total,
            field_types@.len() == field_names@.len(),
            fields@ == old_fields.subrange(field_names@.len() as int, total as int),
            field_names@ == names_of(old_fields).subrange(0, field_names@.len() as int),
            field_types@ == types_of(old_fields).subrange(0, field_names@.len() as int),
        decreases fields@.len(),
    {
        let ghost done = field_names@.len();
        let f = fields.remove(0);
        proof {
            assert(f == old_fields[done as int]);
            assert(field_supported(old_fields[done as int]));
        }
        field_names.push(f.name);
        field_types.push(f.ty.unwrap());
        proof {
            assert(fields@ =~= old_fields.subrange(field_names@.len() as int, total as int));
            assert(field_names@ =~= names_of(old_fields).subrange(0, field_names@.len() as int));
            assert(field_types@ =~= types_of(old_fields).subrange(0, field_names@.len() as int));
        }
    }
    proof {
        assert(field_names@ =~= names_of(old_fields));
        assert(field_types@ =~= types_of(old_fields));
        assert(attributes@.subrange(0, attributes@.len() as int) =~= attributes@);
    }
    Ok(ValidatedBlock { name, attributes: emitted, field_names, field_types })
}

/// The text that reports an error where the declaration stands.
pub open spec fn message_of(e: ReprError) -> Seq<char> {
    match e {
        ReprError::NotAStruct => "Cannot represent an enum or union as std140, only a struct."@,
        ReprError::OtherRepr => "Cannot parse another #[repr] attribute on a struct marked with #[repr_std140]"@,
        ReprError::FieldNotStd140(n) => "The type of field `"@ + n@
            + "` does not implement ReprStd140: it is not layout-compatible with std140."@,
    }
}

impl ReprError {
    /// The text that reports this error; a rejected field is named in it.
    pub fn message(&self) -> (r: String)
        ensures
            r@ == message_of(*self),
    {
        match self {
            ReprError::NotAStruct => String::from_str(
                "Cannot represent an enum or union as std140, only a struct.",
            ),
            ReprError::OtherRepr => String::from_str(
                "Cannot parse another #[repr] attribute on a struct marked with #[repr_std140]",
            ),
            ReprError::FieldNotStd140(n) => {
                let mut m = String::from_str("The type of field `");
                m.append(n.as_str());
                m.append("` does not implement ReprStd140: it is not layout-compatible with std140.");
                m
            },
        }
    }
}

/// Validates `input` as a `std140` block, reporting a rejection as the text to show where the
/// declaration stands. The attribute takes no arguments.
pub fn repr_std140(args: &Vec<String>, input: StructDecl) -> (r: Result<ValidatedBlock, String>)
    requires
        args@.len() == 0,
    ensures
        accepted(input) ==> r is Ok && validates_to(input, Ok(r->Ok_0)),
        !accepted(input) ==> r is Err && exists|e: ReprError|
            validates_to(input, Err(e)) && r->Err_0@ == #[trigger] message_of(e),
{
    match expand_repr_std140(input) {
        Ok(b) => Ok(b),
        Err(e) => {
            let m = e.message();
            Err(m)
        },
    }
}

/// The layout of a validated block: an aggregate of its field types.
pub open spec fn block_type(b: ValidatedBlock) -> Std140Type {
    Std140Type::Struct(b.field_types)
}

impl ValidatedBlock {
    /// Size in bytes, trailing padding included.
    pub fn size(&self) -> (r: usize)
        requires
            size_of(block_type(*self)) <= usize::MAX,
        ensures
            r == size_of(block_type(*self)),
    {
        let f = &self.field_types;
        crate::layout::struct_size(f)
    }

    /// The offset of each field from the start of the block, in declaration order.
    pub fn offsets(&self) -> (r: Vec<usize>)
        requires
            size_of(block_type(*self)) <= usize::MAX,
        ensures
            r@.len() == self.field_types@.len(),
            forall|k: int|
                0 <= k < r@.len() ==> r@[k] == field_offset(self.field_types@, k as nat),
    {
        field_offsets(&self.field_types)
    }

    /// The layout of the block, for use as a field or an array element of another block.
    pub fn into_layout(self) -> (r: Std140Type)
        ensures
            r == block_type(self),
    {
        Std140Type::Struct(self.field_types)
    }

    /// The declaration that the validation emits: the input with the `repr` attribute that fixes
    /// declaration order and 16-byte alignment.
    pub fn into_declaration(self) -> (r: StructDecl)
        requires
            self.field_names@.len() == self.field_types@.len(),
        ensures
            r.name == self.name,
            r.kind == ItemKind::Struct,
            r.attributes == self.attributes,
            names_of(r.fields@) == self.field_names@,
            types_of(r.fields@) == self.field_types@,
            all_fields_supported(r.fields@),
    {
        let ValidatedBlock { name, attributes, mut field_names, mut field_types } = self;
        let mut fields: Vec<FieldDecl> = Vec::new();
        let ghost names = field_names@;
        let ghost types = field_types@;
        let ghost total = names.len();
        while field_names.len() > 0 && field_types.len() > 0
            invariant
                names.len() == total,
                types.len() == total,
                fields@.len() + field_names@.len() == total,
                field_types@.len() == field_names@.len(),
                field_names@ == names.subrange(fields@.len() as int, total as int),
                field_types@ == types.subrange(fields@.len() as int, total as int),
                names_of(fields@) == names.subrange(0, fields@.len() as int),
                types_of(fields@) == types.subrange(0, fields@.len() as int),
                all_fields_supported(fields@),
            decreases field_names@.len(),
        {
            let n = field_names.remove(0);
            let t = field_types.remove(0);
            fields.push(FieldDecl { name: n, ty: Some(t) });
            proof {
                assert(field_names@ =~= names.subrange(fields@.len() as int, total as int));
                assert(field_types@ =~= types.subrange(fields@.len() as int, total as int));
                assert(names_of(fields@) =~= names.subrange(0, fields@.len() as int));
                assert(types_of(fields@) =~= types.subrange(0, fields@.len() as int));
            }
        }
        proof {
            assert(names_of(fields@) =~= names);
            assert(types_of(fields@) =~= types);
        }
        StructDecl { name, kind: ItemKind::Struct, attributes, fields }
    }
}

/// A struct with a field whose type has no `std140` layout is rejected as a whole, whatever its
/// other fields; a struct whose fields all have one, and no `repr` of its own, is accepted.
pub proof fn lemma_validation_all_or_nothing(
    decl: StructDecl,
    r: Result<ValidatedBlock, ReprError>,
)
    requires
        validates_to(decl, r),
    ensures
        (exists|i: int| 0 <= i < decl.fields@.len() && !field_supported(#[trigger] decl.fields@[i]))
            ==> r is Err,
        accepted(decl) ==> r is Ok,
{
}

/// A validated block is aligned to 16 bytes, its size is a multiple of 16, and it may stand as a
/// field of another block.
pub proof fn lemma_validated_block_nests(
    decl: StructDecl,
    b: ValidatedBlock,
    field_name: String,
)
    requires
        validates_to(decl, Ok(b)),
    ensures
        align_of(block_type(b)) == 16,
        size_of(block_type(b)) % 16 == 0,
        field_supported(FieldDecl { name: field_name, ty: Some(block_type(b)) }),
{
    lemma_round_up(fields_end(b.field_types@, b.field_types@.len()), 16);
}

/// The declaration that validation emits carries a `repr`, so validating it again fails.
pub proof fn lemma_validation_not_repeatable(
    decl: StructDecl,
    b: ValidatedBlock,
    again: StructDecl,
    r: Result<ValidatedBlock, ReprError>,
)
    requires
        validates_to(decl, Ok(b)),
        again.attributes == b.attributes,
        validates_to(again, r),
    ensures
        r is Err,
{
    assert(b.attributes@[0]@ == repr_path());
    if again.kind == ItemKind::Struct {
        assert(has_repr(again.attributes@));
    }
}

} // verus!
