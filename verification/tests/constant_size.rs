use native_bridge::constant_size::compute_constant_size;
use native_bridge::layout::{FieldLayout, StructLayout, TypeLayout};

fn runtime(fields: Vec<TypeLayout>) -> TypeLayout {
    TypeLayout::Struct(StructLayout::Runtime(fields))
}

fn field(name: &str, layout: TypeLayout) -> FieldLayout {
    FieldLayout { name: name.to_string(), layout }
}

#[test]
fn primitives_have_their_widths() {
    assert_eq!(compute_constant_size(&TypeLayout::Bool), Some(1));
    assert_eq!(compute_constant_size(&TypeLayout::U8), Some(1));
    assert_eq!(compute_constant_size(&TypeLayout::U16), Some(2));
    assert_eq!(compute_constant_size(&TypeLayout::U32), Some(4));
    assert_eq!(compute_constant_size(&TypeLayout::U64), Some(8));
    assert_eq!(compute_constant_size(&TypeLayout::U128), Some(16));
    assert_eq!(compute_constant_size(&TypeLayout::U256), Some(32));
    assert_eq!(compute_constant_size(&TypeLayout::Signer), Some(32));
    assert_eq!(compute_constant_size(&TypeLayout::AuthDescriptor), Some(32));
}

#[test]
fn address_has_thirty_two_bytes() {
    assert_eq!(compute_constant_size(&TypeLayout::Address), Some(32));
}

#[test]
fn vector_of_bytes_has_no_constant_size() {
    let layout = TypeLayout::Vector(Box::new(TypeLayout::U8));
    assert_eq!(compute_constant_size(&layout), None);
}

#[test]
fn vector_has_no_constant_size_whatever_it_holds() {
    let of_structs = TypeLayout::Vector(Box::new(runtime(vec![TypeLayout::U64])));
    assert_eq!(compute_constant_size(&of_structs), None);
    let of_vectors = TypeLayout::Vector(Box::new(TypeLayout::Vector(Box::new(TypeLayout::Bool))));
    assert_eq!(compute_constant_size(&of_vectors), None);
}

#[test]
fn runtime_struct_adds_up_its_fields() {
    let layout = runtime(vec![TypeLayout::U8, TypeLayout::U64, TypeLayout::U8]);
    assert_eq!(compute_constant_size(&layout), Some(10));
}

#[test]
fn runtime_struct_of_every_primitive() {
    let layout = runtime(vec![
        TypeLayout::Bool,
        TypeLayout::U8,
        TypeLayout::U16,
        TypeLayout::U32,
        TypeLayout::U64,
        TypeLayout::U128,
        TypeLayout::U256,
        TypeLayout::Address,
        TypeLayout::Signer,
        TypeLayout::AuthDescriptor,
    ]);
    assert_eq!(compute_constant_size(&layout), Some(1 + 1 + 2 + 4 + 8 + 16 + 32 + 32 + 32 + 32));
}

#[test]
fn empty_runtime_struct_has_size_zero() {
    assert_eq!(compute_constant_size(&runtime(vec![])), Some(0));
}

#[test]
fn nested_runtime_structs_add_up() {
    let inner = runtime(vec![TypeLayout::U16, TypeLayout::U32]);
    let outer = runtime(vec![TypeLayout::Bool, inner, runtime(vec![TypeLayout::U128])]);
    assert_eq!(compute_constant_size(&outer), Some(1 + 6 + 16));
}

#[test]
fn one_variable_field_makes_the_struct_variable() {
    let first = runtime(vec![
        TypeLayout::Vector(Box::new(TypeLayout::U8)),
        TypeLayout::U64,
        TypeLayout::U8,
    ]);
    assert_eq!(compute_constant_size(&first), None);
    let middle = runtime(vec![
        TypeLayout::U64,
        TypeLayout::Vector(Box::new(TypeLayout::U8)),
        TypeLayout::U8,
    ]);
    assert_eq!(compute_constant_size(&middle), None);
    let last = runtime(vec![
        TypeLayout::U64,
        TypeLayout::U8,
        TypeLayout::Vector(Box::new(TypeLayout::U8)),
    ]);
    assert_eq!(compute_constant_size(&last), None);
}

#[test]
fn vector_deep_inside_makes_the_struct_variable() {
    let deep = runtime(vec![
        TypeLayout::U8,
        runtime(vec![
            TypeLayout::U64,
            runtime(vec![TypeLayout::Native(7, Box::new(TypeLayout::Vector(Box::new(TypeLayout::U8))))]),
        ]),
    ]);
    assert_eq!(compute_constant_size(&deep), None);
}

#[test]
fn decorated_structs_are_not_analyzed() {
    let with_fields = TypeLayout::Struct(StructLayout::WithFields(vec![
        field("a", TypeLayout::U8),
        field("b", TypeLayout::U64),
    ]));
    assert_eq!(compute_constant_size(&with_fields), None);
    let with_types = TypeLayout::Struct(StructLayout::WithTypes {
        type_tag: "0x1::m::S".to_string(),
        fields: vec![field("a", TypeLayout::U8)],
    });
    assert_eq!(compute_constant_size(&with_types), None);
    let without_fields = TypeLayout::Struct(StructLayout::WithFields(vec![]));
    assert_eq!(compute_constant_size(&without_fields), None);
}

#[test]
fn decorated_struct_inside_a_runtime_struct() {
    let layout = runtime(vec![
        TypeLayout::U8,
        TypeLayout::Struct(StructLayout::WithFields(vec![field("a", TypeLayout::U8)])),
    ]);
    assert_eq!(compute_constant_size(&layout), None);
}

#[test]
fn native_wrapper_has_the_size_of_what_it_wraps() {
    let fixed = TypeLayout::Native(1, Box::new(TypeLayout::U64));
    assert_eq!(compute_constant_size(&fixed), Some(8));
    let other_tag = TypeLayout::Native(9, Box::new(TypeLayout::U64));
    assert_eq!(compute_constant_size(&other_tag), Some(8));
    let of_struct = TypeLayout::Native(1, Box::new(runtime(vec![TypeLayout::U8, TypeLayout::U8])));
    assert_eq!(compute_constant_size(&of_struct), Some(2));
    let variable = TypeLayout::Native(1, Box::new(TypeLayout::Vector(Box::new(TypeLayout::U8))));
    assert_eq!(compute_constant_size(&variable), None);
    let twice = TypeLayout::Native(1, Box::new(TypeLayout::Native(2, Box::new(TypeLayout::U16))));
    assert_eq!(compute_constant_size(&twice), Some(2));
}

#[test]
fn many_fields_add_up() {
    let mut fields = Vec::new();
    for _ in 0..1000 {
        fields.push(TypeLayout::U256);
    }
    assert_eq!(compute_constant_size(&runtime(fields)), Some(32_000));
}
