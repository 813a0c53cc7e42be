//! The values a native hands back to the virtual machine.

use vstd::prelude::*;
use smallvec::SmallVec;

verus! {

/// A value as a native builds it for the operand stack.
#[derive(Debug, PartialEq, Eq)]
pub enum NativeValue {
    /// A `vector<u8>`.
    VectorU8(Vec<u8>),
    /// A `vector<u64>`.
    VectorU64(Vec<u64>),
    /// A struct, given by its fields in declaration order.
    Struct(Vec<NativeValue>),
}

/// The mathematical value of a [`NativeValue`].
pub enum NativeValueView {
    VectorU8(Seq<u8>),
    VectorU64(Seq<u64>),
    Struct(Seq<NativeValueView>),
}

/// The mathematical value of a native value.
pub open spec fn native_value_view(value: NativeValue) -> NativeValueView
    decreases value,
{
    match value {
        NativeValue::VectorU8(bytes) => NativeValueView::VectorU8(bytes@),
        NativeValue::VectorU64(words) => NativeValueView::VectorU64(words@),
        NativeValue::Struct(fields) => NativeValueView::Struct(
            Seq::new(
                fields@.len(),
                |i: int|
                    if 0 <= i < fields@.len() {
                        native_value_view(fields@[i])
                    } else {
                        NativeValueView::Struct(Seq::empty())
                    },
            ),
        ),
    }
}

impl View for NativeValue {
    type V = NativeValueView;

    open spec fn view(&self) -> NativeValueView {
        native_value_view(*self)
    }
}

/// How the virtual machine lays out an `Option<u64>`: a struct whose one
/// field is a `vector<u64>`, empty for `None` and holding the number for
/// `Some`.
pub open spec fn option_u64_view(value: Option<u64>) -> NativeValueView {
    NativeValueView::Struct(
        seq![
            NativeValueView::VectorU64(
                match value {
                    Some(number) => seq![number],
                    None => Seq::empty(),
                },
            ),
        ],
    )
}

impl NativeValue {
    /// Builds the virtual machine's form of an `Option<u64>`.
    pub fn option_u64(value: Option<u64>) -> (packed: NativeValue)
        ensures
            packed@ == option_u64_view(value),
    {
        let words = match value {
            Some(number) => vec![number],
            None => Vec::new(),
        };
        let ghost numbers = words@;
        assert(numbers =~= match value {
            Some(number) => seq![number],
            None => Seq::empty(),
        });
        let fields = vec![NativeValue::VectorU64(words)];
        assert(fields@[0]@ == NativeValueView::VectorU64(numbers));
        let packed = NativeValue::Struct(fields);
        assert(packed@->Struct_0 =~= option_u64_view(value)->Struct_0);
        packed
    }
}

/// The values a native returns, in a `SmallVec` of smallvec with room for
/// one value inline. What the vector holds is known only as [`returned`]
/// names it, through the two functions below that fill and empty it.
#[derive(Debug, PartialEq, Eq)]
#[verifier::external_body]
pub struct ReturnValues {
    values: SmallVec<[NativeValue; 1]>,
}

/// The values that the vector inside `values` holds, first to last.
pub uninterp spec fn returned(values: ReturnValues) -> Seq<NativeValue>;

/// The mathematical values of native values, in order.
pub open spec fn values_view(values: Seq<NativeValue>) -> Seq<NativeValueView> {
    values.map_values(|value: NativeValue| value@)
}

impl View for ReturnValues {
    type V = Seq<NativeValueView>;

    open spec fn view(&self) -> Seq<NativeValueView> {
        values_view(returned(*self))
    }
}

/// `SmallVec::from_buf` of smallvec, on an array of one value: the vector
/// holds the array's elements, here the one value.
#[verifier::external_body]
fn small_vec_of(value: NativeValue) -> (values: ReturnValues)
    ensures
        returned(values) == seq![value],
{
    ReturnValues { values: SmallVec::from_buf([value]) }
}

/// `SmallVec::into_vec` of smallvec: the values that the vector held, in the
/// same order.
#[verifier::external_body]
fn vec_of(values: ReturnValues) -> (items: Vec<NativeValue>)
    ensures
        items@ == returned(values),
{
    values.values.into_vec()
}

impl ReturnValues {
    /// The return of a native that yields exactly one value.
    pub fn single(value: NativeValue) -> (values: ReturnValues)
        ensures
            values@ == seq![value@],
    {
        let values = small_vec_of(value);
        assert(values@ =~= seq![value@]);
        values
    }

    /// Hands the values out, first to last.
    pub fn into_vec(self) -> (items: Vec<NativeValue>)
        ensures
            values_view(items@) == self@,
    {
        vec_of(self)
    }
}

} // verus!
