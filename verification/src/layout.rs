//! Type layouts: the trees that describe how the values of a type are
//! encoded.

use vstd::prelude::*;

verus! {

/// A field of a decorated struct layout: the field's name and its layout.
#[derive(Debug, PartialEq, Eq)]
pub struct FieldLayout {
    pub name: String,
    pub layout: TypeLayout,
}

/// How the fields of a struct are described.
#[derive(Debug, PartialEq, Eq)]
pub enum StructLayout {
    /// The bare form the virtual machine works with: the field layouts in
    /// declaration order.
    Runtime(Vec<TypeLayout>),
    /// Fields together with their names.
    WithFields(Vec<FieldLayout>),
    /// Fields together with their names and the struct's declared type.
    WithTypes { type_tag: String, fields: Vec<FieldLayout> },
}

/// The tree that describes how a type is encoded.
#[derive(Debug, PartialEq, Eq)]
pub enum TypeLayout {
    Bool,
    U8,
    U16,
    U32,
    U64,
    U128,
    U256,
    Address,
    Signer,
    AuthDescriptor,
    Vector(Box<TypeLayout>),
    Struct(StructLayout),
    /// A value that the host wraps: the wrapper's tag and the layout of what
    /// it wraps.
    Native(u32, Box<TypeLayout>),
}

/// The mathematical value of a [`FieldLayout`].
pub struct FieldLayoutView {
    pub name: Seq<char>,
    pub layout: TypeLayoutView,
}

/// The mathematical value of a [`StructLayout`].
pub enum StructLayoutView {
    Runtime(Seq<TypeLayoutView>),
    WithFields(Seq<FieldLayoutView>),
    WithTypes { type_tag: Seq<char>, fields: Seq<FieldLayoutView> },
}

/// The mathematical value of a [`TypeLayout`].
pub enum TypeLayoutView {
    Bool,
    U8,
    U16,
    U32,
    U64,
    U128,
    U256,
    Address,
    Signer,
    AuthDescriptor,
    Vector(Box<TypeLayoutView>),
    Struct(StructLayoutView),
    Native(u32, Box<TypeLayoutView>),
}

/// The mathematical value of a type layout.
pub open spec fn type_layout_view(layout: TypeLayout) -> TypeLayoutView
    decreases layout,
{
    match layout {
        TypeLayout::Bool => TypeLayoutView::Bool,
        TypeLayout::U8 => TypeLayoutView::U8,
        TypeLayout::U16 => TypeLayoutView::U16,
        TypeLayout::U32 => TypeLayoutView::U32,
        TypeLayout::U64 => TypeLayoutView::U64,
        TypeLayout::U128 => TypeLayoutView::U128,
        TypeLayout::U256 => TypeLayoutView::U256,
        TypeLayout::Address => TypeLayoutView::Address,
        TypeLayout::Signer => TypeLayoutView::Signer,
        TypeLayout::AuthDescriptor => TypeLayoutView::AuthDescriptor,
        TypeLayout::Vector(inner) => TypeLayoutView::Vector(Box::new(type_layout_view(*inner))),
        TypeLayout::Struct(fields) => TypeLayoutView::Struct(struct_layout_view(fields)),
        TypeLayout::Native(tag, inner) => TypeLayoutView::Native(
            tag,
            Box::new(type_layout_view(*inner)),
        ),
    }
}

/// The mathematical value of a struct layout.
pub open spec fn struct_layout_view(layout: StructLayout) -> StructLayoutView
    decreases layout,
{
    match layout {
        StructLayout::Runtime(fields) => StructLayoutView::Runtime(
            Seq::new(
                fields@.len(),
                |i: int|
                    if 0 <= i < fields@.len() {
                        type_layout_view(fields@[i])
                    } else {
                        TypeLayoutView::Bool
                    },
            ),
        ),
        StructLayout::WithFields(fields) => StructLayoutView::WithFields(
            Seq::new(
                fields@.len(),
                |i: int|
                    if 0 <= i < fields@.len() {
                        field_layout_view(fields@[i])
                    } else {
                        FieldLayoutView { name: Seq::empty(), layout: TypeLayoutView::Bool }
                    },
            ),
        ),
        StructLayout::WithTypes { type_tag, fields } => StructLayoutView::WithTypes {
            type_tag: type_tag@,
            fields: Seq::new(
                fields@.len(),
                |i: int|
                    if 0 <= i < fields@.len() {
                        field_layout_view(fields@[i])
                    } else {
                        FieldLayoutView { name: Seq::empty(), layout: TypeLayoutView::Bool }
                    },
            ),
        },
    }
}

/// The mathematical value of a field layout.
pub open spec fn field_layout_view(field: FieldLayout) -> FieldLayoutView
    decreases field,
{
    FieldLayoutView { name: field.name@, layout: type_layout_view(field.layout) }
}

impl View for FieldLayout {
    type V = FieldLayoutView;

    open spec fn view(&self) -> FieldLayoutView {
        field_layout_view(*self)
    }
}

impl View for StructLayout {
    type V = StructLayoutView;

    open spec fn view(&self) -> StructLayoutView {
        struct_layout_view(*self)
    }
}

impl View for TypeLayout {
    type V = TypeLayoutView;

    open spec fn view(&self) -> TypeLayoutView {
        type_layout_view(*self)
    }
}

} // verus!
