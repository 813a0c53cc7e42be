//! The static size analysis: whether every value of a type serializes to the
//! same number of bytes, decided from the type's layout alone.

use vstd::prelude::*;
use crate::layout::{StructLayout, StructLayoutView, TypeLayout, TypeLayoutView};

verus! {

/// Whether `layout` is one of the scalar, address, signer or auth variants.
pub open spec fn is_primitive(layout: TypeLayoutView) -> bool {
    match layout {
        TypeLayoutView::Vector(_) | TypeLayoutView::Struct(_) | TypeLayoutView::Native(
            _,
            _,
        ) => false,
        _ => true,
    }
}

/// The number of bytes every value of a primitive layout takes; 0 for the
/// other layouts.
pub open spec fn primitive_width(layout: TypeLayoutView) -> nat {
    match layout {
        TypeLayoutView::Bool | TypeLayoutView::U8 => 1,
        TypeLayoutView::U16 => 2,
        TypeLayoutView::U32 => 4,
        TypeLayoutView::U64 => 8,
        TypeLayoutView::U128 => 16,
        TypeLayoutView::U256
        | TypeLayoutView::Address
        | TypeLayoutView::Signer
        | TypeLayoutView::AuthDescriptor => 32,
        _ => 0,
    }
}

/// The number of bytes that every value of `layout` serializes to, or `None`
/// where that number depends on the value or the layout is not analyzable.
///
/// A primitive has its width. A vector has no constant size, whatever it
/// holds. A runtime struct has the sum of its fields' sizes, and none as soon
/// as one field has none; a struct described in any other form has none. A
/// native wrapper has the size of what it wraps.
pub open spec fn constant_size(layout: TypeLayoutView) -> Option<nat>
    decreases layout, 0nat,
{
    match layout {
        TypeLayoutView::Vector(_) => None,
        TypeLayoutView::Struct(StructLayoutView::Runtime(fields)) => fields_size(
            fields,
            fields.len(),
        ),
        TypeLayoutView::Struct(_) => None,
        TypeLayoutView::Native(_, inner) => constant_size(*inner),
        _ => Some(primitive_width(layout)),
    }
}

/// The sum of the constant sizes of the first `n` layouts of `fields`, or
/// `None` where one of them has none.
pub open spec fn fields_size(fields: Seq<TypeLayoutView>, n: nat) -> Option<nat>
    decreases fields, n,
{
    if n == 0 || n > fields.len() {
        Some(0)
    } else {
        match (fields_size(fields, (n - 1) as nat), constant_size(fields[n - 1])) {
            (Some(before), Some(size)) => Some(before + size),
            _ => None,
        }
    }
}

/// What a machine word can hold of a size: the size itself where it fits in
/// `usize`, `None` otherwise.
pub open spec fn word_sized(size: Option<nat>) -> Option<usize> {
    match size {
        Some(n) if n <= usize::MAX => Some(n as usize),
        _ => None,
    }
}

/// A prefix of the fields never has a larger total than the whole, and has
/// none only where the whole has none.
pub proof fn lemma_fields_size_monotonic(fields: Seq<TypeLayoutView>, m: nat, n: nat)
    requires
        m <= n <= fields.len(),
    ensures
        fields_size(fields, m) is None ==> fields_size(fields, n) is None,
        fields_size(fields, n) is Some ==> fields_size(fields, m) is Some && fields_size(
            fields,
            m,
        )->Some_0 <= fields_size(fields, n)->Some_0,
    decreases n,
{
    if m < n {
        lemma_fields_size_monotonic(fields, m, (n - 1) as nat);
    }
}

/// Decides whether every value of `layout` serializes to the same number of
/// bytes, and if so to how many. A size that no `usize` can hold is reported
/// as `None`.
pub fn compute_constant_size(layout: &TypeLayout) -> (size: Option<usize>)
    ensures
        size == word_sized(constant_size(layout@)),
    decreases *layout,
{
    match layout {
        TypeLayout::Bool => Some(1),
        TypeLayout::U8 => Some(1),
        TypeLayout::U16 => Some(2),
        TypeLayout::U32 => Some(4),
        TypeLayout::U64 => Some(8),
        TypeLayout::U128 => Some(16),
        TypeLayout::U256 => Some(32),
        TypeLayout::Address => Some(32),
        TypeLayout::Signer => Some(32),
        TypeLayout::AuthDescriptor => Some(32),
        TypeLayout::Vector(_) => None,
        TypeLayout::Struct(s) => {
            match s {
                StructLayout::Runtime(fields) => {
                    let ghost sizes = s@->Runtime_0;
                    let mut total_size: usize = 0;
                    let mut i: usize = 0;
                    while i < fields.len()
                        invariant
                            i <= fields.len(),
                            *layout == TypeLayout::Struct(*s),
                            *s == StructLayout::Runtime(*fields),
                            s@ == StructLayoutView::Runtime(sizes),
                            sizes.len() == fields.len(),
                            forall|k: int| 0 <= k < fields.len() ==> sizes[k] == fields[k]@,
                            fields_size(sizes, i as nat) == Some(total_size as nat),
                        decreases fields.len() - i,
                    {
                        proof {
                            lemma_fields_size_monotonic(sizes, (i + 1) as nat, sizes.len());
                        }
                        match compute_constant_size(&fields[i]) {
                            Some(size) => {
                                match total_size.checked_add(size) {
                                    Some(sum) => {
                                        total_size = sum;
                                    },
                                    None => {
                                        return None;
                                    },
                                }
                            },
                            None => {
                                return None;
                            },
                        }
                        i += 1;
                    }
                    Some(total_size)
                },
                _ => None,
            }
        },
        TypeLayout::Native(_, inner) => compute_constant_size(inner),
    }
}

/// Whether `layout` is built from primitives alone, directly or as runtime
/// structs nested to any depth.
pub open spec fn composed_of_primitives(layout: TypeLayoutView) -> bool
    decreases layout,
{
    match layout {
        TypeLayoutView::Struct(StructLayoutView::Runtime(fields)) => forall|i: int|
            0 <= i < fields.len() ==> composed_of_primitives(#[trigger] fields[i]),
        _ => is_primitive(layout),
    }
}

/// The widths of the primitives in `layout`, added up.
pub open spec fn total_width(layout: TypeLayoutView) -> nat
    decreases layout, 0nat,
{
    match layout {
        TypeLayoutView::Struct(StructLayoutView::Runtime(fields)) => fields_width(
            fields,
            fields.len(),
        ),
        _ => primitive_width(layout),
    }
}

/// The total widths of the first `n` layouts of `fields`, added up.
pub open spec fn fields_width(fields: Seq<TypeLayoutView>, n: nat) -> nat
    decreases fields, n,
{
    if n == 0 || n > fields.len() {
        0
    } else {
        fields_width(fields, (n - 1) as nat) + total_width(fields[n - 1])
    }
}

/// Whether a vector occurs in `layout` at any depth.
pub open spec fn contains_vector(layout: TypeLayoutView) -> bool
    decreases layout,
{
    match layout {
        TypeLayoutView::Vector(_) => true,
        TypeLayoutView::Struct(StructLayoutView::Runtime(fields)) => exists|i: int|
            0 <= i < fields.len() && contains_vector(#[trigger] fields[i]),
        TypeLayoutView::Struct(StructLayoutView::WithFields(fields)) => exists|i: int|
            0 <= i < fields.len() && contains_vector((#[trigger] fields[i]).layout),
        TypeLayoutView::Struct(StructLayoutView::WithTypes { fields, .. }) => exists|i: int|
            0 <= i < fields.len() && contains_vector((#[trigger] fields[i]).layout),
        TypeLayoutView::Native(_, inner) => contains_vector(*inner),
        _ => false,
    }
}

/// A layout built from primitives alone has a constant size: the sum of the
/// widths of its primitives.
pub proof fn lemma_primitives_have_constant_size(layout: TypeLayoutView)
    requires
        composed_of_primitives(layout),
    ensures
        constant_size(layout) == Some(total_width(layout)),
    decreases layout, 0nat,
{
    match layout {
        TypeLayoutView::Struct(StructLayoutView::Runtime(fields)) => {
            lemma_primitive_fields_have_constant_size(fields, fields.len());
        },
        _ => {},
    }
}

/// The first `n` of a sequence of layouts built from primitives alone have a
/// total size: the sum of their widths.
pub proof fn lemma_primitive_fields_have_constant_size(fields: Seq<TypeLayoutView>, n: nat)
    requires
        n <= fields.len(),
        forall|i: int| 0 <= i < fields.len() ==> composed_of_primitives(#[trigger] fields[i]),
    ensures
        fields_size(fields, n) == Some(fields_width(fields, n)),
    decreases fields, n,
{
    if n > 0 {
        lemma_primitive_fields_have_constant_size(fields, (n - 1) as nat);
        lemma_primitives_have_constant_size(fields[n - 1]);
    }
}

/// A layout in which a vector occurs, at whatever depth, has no constant
/// size.
pub proof fn lemma_vector_has_no_constant_size(layout: TypeLayoutView)
    requires
        contains_vector(layout),
    ensures
        constant_size(layout) is None,
    decreases layout,
{
    match layout {
        TypeLayoutView::Struct(StructLayoutView::Runtime(fields)) => {
            let i = choose|i: int| 0 <= i < fields.len() && contains_vector(#[trigger] fields[i]);
            lemma_vector_has_no_constant_size(fields[i]);
            lemma_fields_size_monotonic(fields, (i + 1) as nat, fields.len());
        },
        TypeLayoutView::Native(_, inner) => {
            lemma_vector_has_no_constant_size(*inner);
        },
        _ => {},
    }
}

/// Whether `cuts` cuts `total` bytes into `pieces` pieces, first to last:
/// it starts at 0, never goes backwards, and ends at `total`.
pub open spec fn cuts_fit(cuts: Seq<int>, pieces: nat, total: nat) -> bool {
    &&& cuts.len() == pieces + 1
    &&& cuts[0] == 0
    &&& cuts[pieces as int] == total
    &&& forall|i: int| 0 <= i < pieces ==> #[trigger] cuts[i] <= cuts[i + 1]
}

/// Whether `bytes` is cut the way the canonical encoding lays out a value of
/// `layout`: a primitive takes exactly its width, the fields of a runtime
/// struct follow one another in declaration order with nothing between
/// them, and a native wrapper is laid out as what it wraps. Nothing is asked
/// of a vector or of a struct described in another form.
pub open spec fn laid_out(layout: TypeLayoutView, bytes: Seq<u8>) -> bool
    decreases layout,
{
    match layout {
        TypeLayoutView::Vector(_) => true,
        TypeLayoutView::Struct(StructLayoutView::Runtime(fields)) => exists|cuts: Seq<int>|
            {
                &&& #[trigger] cuts_fit(cuts, fields.len(), bytes.len())
                &&& forall|i: int|
                    0 <= i < fields.len() ==> laid_out(
                        #[trigger] fields[i],
                        bytes.subrange(cuts[i], cuts[i + 1]),
                    )
            },
        TypeLayoutView::Struct(_) => true,
        TypeLayoutView::Native(_, inner) => laid_out(*inner, bytes),
        _ => bytes.len() == primitive_width(layout),
    }
}

/// Bytes that `cuts` cuts into one piece for each field, each piece laid out
/// as its field, are laid out as the runtime struct of the fields.
pub proof fn lemma_pieces_make_a_struct(
    fields: Seq<TypeLayoutView>,
    bytes: Seq<u8>,
    cuts: Seq<int>,
)
    requires
        cuts_fit(cuts, fields.len(), bytes.len()),
        forall|i: int|
            0 <= i < fields.len() ==> laid_out(
                #[trigger] fields[i],
                bytes.subrange(cuts[i], cuts[i + 1]),
            ),
    ensures
        laid_out(TypeLayoutView::Struct(StructLayoutView::Runtime(fields)), bytes),
{
    let layout = TypeLayoutView::Struct(StructLayoutView::Runtime(fields));
    assert(cuts_fit(cuts, layout->Struct_0->Runtime_0.len(), bytes.len()));
}

/// Bytes laid out as a layout of constant size are exactly that many.
pub proof fn lemma_constant_size_is_the_encoded_length(layout: TypeLayoutView, bytes: Seq<u8>)
    requires
        laid_out(layout, bytes),
        constant_size(layout) is Some,
    ensures
        bytes.len() == constant_size(layout)->Some_0,
    decreases layout, 0nat,
{
    match layout {
        TypeLayoutView::Struct(StructLayoutView::Runtime(fields)) => {
            let cuts = choose|cuts: Seq<int>|
                {
                    &&& #[trigger] cuts_fit(cuts, fields.len(), bytes.len())
                    &&& forall|i: int|
                        0 <= i < fields.len() ==> laid_out(
                            #[trigger] fields[i],
                            bytes.subrange(cuts[i], cuts[i + 1]),
                        )
                };
            lemma_cuts_are_the_sizes(fields, bytes, cuts, fields.len());
        },
        TypeLayoutView::Native(_, inner) => {
            lemma_constant_size_is_the_encoded_length(*inner, bytes);
        },
        _ => {},
    }
}

/// Cuts never go backwards.
pub proof fn lemma_cuts_are_ordered(cuts: Seq<int>, pieces: nat, total: nat, from: int, to: int)
    requires
        cuts_fit(cuts, pieces, total),
        0 <= from <= to <= pieces,
    ensures
        cuts[from] <= cuts[to],
    decreases to - from,
{
    if from < to {
        lemma_cuts_are_ordered(cuts, pieces, total, from, to - 1);
        assert(cuts[to - 1] <= cuts[to - 1 + 1]);
    }
}

/// Where the fields have a total size and each is laid out in its piece,
/// the first `n` of them end at the `n`-th cut.
pub proof fn lemma_cuts_are_the_sizes(
    fields: Seq<TypeLayoutView>,
    bytes: Seq<u8>,
    cuts: Seq<int>,
    n: nat,
)
    requires
        n <= fields.len(),
        cuts_fit(cuts, fields.len(), bytes.len()),
        forall|i: int|
            0 <= i < fields.len() ==> laid_out(
                #[trigger] fields[i],
                bytes.subrange(cuts[i], cuts[i + 1]),
            ),
        fields_size(fields, fields.len()) is Some,
    ensures
        fields_size(fields, n) == Some(cuts[n as int] as nat),
    decreases fields, n,
{
    lemma_fields_size_monotonic(fields, n, fields.len());
    lemma_cuts_are_ordered(cuts, fields.len(), bytes.len(), 0, n as int);
    if n > 0 {
        lemma_cuts_are_the_sizes(fields, bytes, cuts, (n - 1) as nat);
        lemma_cuts_are_ordered(cuts, fields.len(), bytes.len(), 0, n - 1);
        lemma_cuts_are_ordered(cuts, fields.len(), bytes.len(), n as int, fields.len() as int);
        assert(cuts[n - 1] <= cuts[n - 1 + 1]);
        let piece = bytes.subrange(cuts[n - 1], cuts[n - 1 + 1]);
        assert(laid_out(fields[n - 1], piece));
        lemma_constant_size_is_the_encoded_length(fields[n - 1], piece);
    }
}

} // verus!
