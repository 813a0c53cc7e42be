//! The serialization natives: `to_bytes`, which encodes a value and bills for
//! it, and `constant_serialized_size`, which reports the fixed encoded size
//! of a type where it has one.

use vstd::prelude::*;
use move_core_types::vm_status::sub_status::NFE_BCS_SERIALIZATION_FAILURE;
use crate::constant_size::{compute_constant_size, constant_size, word_sized};
use crate::gas::{metered, serialization_cost, GasParameters};
use crate::layout::{TypeLayout, TypeLayoutView};
use crate::protocol::{Action, ActionView, NativeError};
use crate::table::named_view;
use crate::value::{option_u64_view, NativeValue, NativeValueView, ReturnValues};

verus! {

/// The abort code of a failed serialization.
pub open spec fn serialization_failure_code() -> u64 {
    0x1C5
}

/// `NFE_BCS_SERIALIZATION_FAILURE` of move-core-types, the sub-status of a
/// native whose serialization failed: the constant is 0x1C5.
#[verifier::external_body]
fn serialization_failure() -> (code: u64)
    ensures
        code == serialization_failure_code(),
{
    NFE_BCS_SERIALIZATION_FAILURE
}

/// Where a call of `to_bytes` stands.
#[derive(Debug, PartialEq, Eq)]
pub enum ToBytesState {
    /// Not called yet.
    Ready,
    /// The host is taking the arguments off the call.
    TakingArguments,
    /// The host is resolving the type argument.
    ResolvingLayout,
    /// The host is reading through the reference.
    ReadingReference,
    /// The host is encoding the value.
    Serializing,
    /// The meter is billing for these bytes.
    ChargingOutput(Vec<u8>),
    /// The meter is billing the failure fee.
    ChargingFailure,
    /// The call has ended.
    Done,
}

/// The mathematical value of a [`ToBytesState`].
pub enum ToBytesStateView {
    Ready,
    TakingArguments,
    ResolvingLayout,
    ReadingReference,
    Serializing,
    ChargingOutput(Seq<u8>),
    ChargingFailure,
    Done,
}

impl View for ToBytesState {
    type V = ToBytesStateView;

    open spec fn view(&self) -> ToBytesStateView {
        match self {
            ToBytesState::Ready => ToBytesStateView::Ready,
            ToBytesState::TakingArguments => ToBytesStateView::TakingArguments,
            ToBytesState::ResolvingLayout => ToBytesStateView::ResolvingLayout,
            ToBytesState::ReadingReference => ToBytesStateView::ReadingReference,
            ToBytesState::Serializing => ToBytesStateView::Serializing,
            ToBytesState::ChargingOutput(bytes) => ToBytesStateView::ChargingOutput(bytes@),
            ToBytesState::ChargingFailure => ToBytesStateView::ChargingFailure,
            ToBytesState::Done => ToBytesStateView::Done,
        }
    }
}

/// What the host reports to a call of `to_bytes`.
#[derive(Debug, PartialEq, Eq)]
pub enum ToBytesEvent<E> {
    /// The virtual machine calls the native with this many type arguments
    /// and arguments.
    Invoked { ty_args: usize, args: usize },
    /// The host took the reference and the type off the call, or could not.
    ArgumentsTaken(Result<(), E>),
    /// The resolver ran on the type argument: whether it gave a layout.
    LayoutResolved(bool),
    /// The host read through the reference, or could not.
    ReferenceRead(Result<(), E>),
    /// The encoder ran: the bytes, or nothing where the value cannot be
    /// encoded under the layout.
    Serialized(Option<Vec<u8>>),
    /// The meter took the amount, or refused it.
    Charged(Result<(), E>),
}

/// The mathematical value of a [`ToBytesEvent`].
pub enum ToBytesEventView<E> {
    Invoked { ty_args: usize, args: usize },
    ArgumentsTaken(Result<(), E>),
    LayoutResolved(bool),
    ReferenceRead(Result<(), E>),
    Serialized(Option<Seq<u8>>),
    Charged(Result<(), E>),
}

impl<E> View for ToBytesEvent<E> {
    type V = ToBytesEventView<E>;

    open spec fn view(&self) -> ToBytesEventView<E> {
        match self {
            ToBytesEvent::Invoked { ty_args, args } => ToBytesEventView::Invoked {
                ty_args: *ty_args,
                args: *args,
            },
            ToBytesEvent::ArgumentsTaken(taken) => ToBytesEventView::ArgumentsTaken(*taken),
            ToBytesEvent::LayoutResolved(resolved) => ToBytesEventView::LayoutResolved(*resolved),
            ToBytesEvent::ReferenceRead(read) => ToBytesEventView::ReferenceRead(*read),
            ToBytesEvent::Serialized(Some(bytes)) => ToBytesEventView::Serialized(Some(bytes@)),
            ToBytesEvent::Serialized(None) => ToBytesEventView::Serialized(None),
            ToBytesEvent::Charged(charged) => ToBytesEventView::Charged(*charged),
        }
    }
}

/// The end of a call that broke what the native relies on.
pub open spec fn violation<S, E>(done: S) -> (S, ActionView<E>) {
    (done, ActionView::Finish(Err(NativeError::InvariantViolation)))
}

/// One step of `to_bytes`: from where the call stands and what the host
/// reports to where it stands next and what the host does next.
///
/// The call takes one type argument and one argument. The layout is resolved
/// first, then the value is read and encoded. Where the resolver gives no
/// layout, or the encoder no bytes, the failure fee is billed and the call
/// aborts with the serialization failure code. Where bytes come back, their
/// price is billed and they are returned as the call's one value. A failure
/// of the host or of the meter ends the call and is handed on. A report that
/// does not answer the last request ends the call as a violation.
pub open spec fn to_bytes_step<E>(
    gas: GasParameters,
    state: ToBytesStateView,
    event: ToBytesEventView<E>,
) -> (ToBytesStateView, ActionView<E>) {
    match (state, event) {
        (ToBytesStateView::Ready, ToBytesEventView::Invoked { ty_args, args }) => {
            if ty_args == 1 && args == 1 {
                (ToBytesStateView::TakingArguments, ActionView::TakeArguments)
            } else {
                violation(ToBytesStateView::Done)
            }
        },
        (ToBytesStateView::TakingArguments, ToBytesEventView::ArgumentsTaken(Ok(_))) => (
            ToBytesStateView::ResolvingLayout,
            ActionView::ResolveLayout,
        ),
        (ToBytesStateView::ResolvingLayout, ToBytesEventView::LayoutResolved(true)) => (
            ToBytesStateView::ReadingReference,
            ActionView::ReadReference,
        ),
        (ToBytesStateView::ResolvingLayout, ToBytesEventView::LayoutResolved(false)) => (
            ToBytesStateView::ChargingFailure,
            ActionView::Charge(gas.failure),
        ),
        (ToBytesStateView::ReadingReference, ToBytesEventView::ReferenceRead(Ok(_))) => (
            ToBytesStateView::Serializing,
            ActionView::Serialize,
        ),
        (ToBytesStateView::Serializing, ToBytesEventView::Serialized(Some(bytes))) => (
            ToBytesStateView::ChargingOutput(bytes),
            ActionView::Charge(metered(serialization_cost(gas, bytes.len()))),
        ),
        (ToBytesStateView::Serializing, ToBytesEventView::Serialized(None)) => (
            ToBytesStateView::ChargingFailure,
            ActionView::Charge(gas.failure),
        ),
        (ToBytesStateView::ChargingOutput(bytes), ToBytesEventView::Charged(Ok(_))) => (
            ToBytesStateView::Done,
            ActionView::Finish(Ok(seq![NativeValueView::VectorU8(bytes)])),
        ),
        (ToBytesStateView::ChargingFailure, ToBytesEventView::Charged(Ok(_))) => (
            ToBytesStateView::Done,
            ActionView::Finish(
                Err(NativeError::Abort { abort_code: serialization_failure_code() }),
            ),
        ),
        (ToBytesStateView::TakingArguments, ToBytesEventView::ArgumentsTaken(Err(error)))
        | (ToBytesStateView::ReadingReference, ToBytesEventView::ReferenceRead(Err(error)))
        | (ToBytesStateView::ChargingOutput(_), ToBytesEventView::Charged(Err(error)))
        | (ToBytesStateView::ChargingFailure, ToBytesEventView::Charged(Err(error))) => (
            ToBytesStateView::Done,
            ActionView::Finish(Err(NativeError::Host(error))),
        ),
        _ => violation(ToBytesStateView::Done),
    }
}

/// The native `to_bytes<T>(&T): vector<u8>`, one step at a time.
pub fn native_to_bytes<E>(gas: &GasParameters, state: ToBytesState, event: ToBytesEvent<E>) -> (next:
    (ToBytesState, Action<E>))
    ensures
        (next.0@, next.1@) == to_bytes_step(*gas, state@, event@),
{
    match (state, event) {
        (ToBytesState::Ready, ToBytesEvent::Invoked { ty_args, args }) => {
            if ty_args == 1 && args == 1 {
                (ToBytesState::TakingArguments, Action::TakeArguments)
            } else {
                (ToBytesState::Done, Action::Finish(Err(NativeError::InvariantViolation)))
            }
        },
        (ToBytesState::TakingArguments, ToBytesEvent::ArgumentsTaken(Ok(_))) => (
            ToBytesState::ResolvingLayout,
            Action::ResolveLayout,
        ),
        (ToBytesState::ResolvingLayout, ToBytesEvent::LayoutResolved(true)) => (
            ToBytesState::ReadingReference,
            Action::ReadReference,
        ),
        (ToBytesState::ResolvingLayout, ToBytesEvent::LayoutResolved(false)) => (
            ToBytesState::ChargingFailure,
            Action::Charge(gas.failure),
        ),
        (ToBytesState::ReadingReference, ToBytesEvent::ReferenceRead(Ok(_))) => (
            ToBytesState::Serializing,
            Action::Serialize,
        ),
        (ToBytesState::Serializing, ToBytesEvent::Serialized(Some(bytes))) => {
            let amount = gas.serialization_charge(bytes.len());
            (ToBytesState::ChargingOutput(bytes), Action::Charge(amount))
        },
        (ToBytesState::Serializing, ToBytesEvent::Serialized(None)) => (
            ToBytesState::ChargingFailure,
            Action::Charge(gas.failure),
        ),
        (ToBytesState::ChargingOutput(bytes), ToBytesEvent::Charged(Ok(_))) => (
            ToBytesState::Done,
            Action::Finish(Ok(ReturnValues::single(NativeValue::VectorU8(bytes)))),
        ),
        (ToBytesState::ChargingFailure, ToBytesEvent::Charged(Ok(_))) => (
            ToBytesState::Done,
            Action::Finish(Err(NativeError::Abort { abort_code: serialization_failure() })),
        ),
        (ToBytesState::TakingArguments, ToBytesEvent::ArgumentsTaken(Err(error))) => (
            ToBytesState::Done,
            Action::Finish(Err(NativeError::Host(error))),
        ),
        (ToBytesState::ReadingReference, ToBytesEvent::ReferenceRead(Err(error))) => (
            ToBytesState::Done,
            Action::Finish(Err(NativeError::Host(error))),
        ),
        (ToBytesState::ChargingOutput(_), ToBytesEvent::Charged(Err(error))) => (
            ToBytesState::Done,
            Action::Finish(Err(NativeError::Host(error))),
        ),
        (ToBytesState::ChargingFailure, ToBytesEvent::Charged(Err(error))) => (
            ToBytesState::Done,
            Action::Finish(Err(NativeError::Host(error))),
        ),
        _ => (ToBytesState::Done, Action::Finish(Err(NativeError::InvariantViolation))),
    }
}

/// Where a call of `constant_serialized_size` stands.
#[derive(Clone, Copy, Debug, PartialEq, Eq, Structural)]
pub enum SizeState {
    /// Not called yet.
    Ready,
    /// The meter is billing the flat fee.
    Charging,
    /// The host is resolving the type argument.
    ResolvingLayout,
    /// The call has ended.
    Done,
}

/// What the host reports to a call of `constant_serialized_size`.
#[derive(Debug, PartialEq, Eq)]
pub enum SizeEvent<E> {
    /// The virtual machine calls the native with this many type arguments
    /// and arguments.
    Invoked { ty_args: usize, args: usize },
    /// The meter took the amount, or refused it.
    Charged(Result<(), E>),
    /// The resolver ran on the type argument: the layout, or nothing where
    /// it gave none.
    LayoutResolved(Option<TypeLayout>),
}

/// The mathematical value of a [`SizeEvent`].
pub enum SizeEventView<E> {
    Invoked { ty_args: usize, args: usize },
    Charged(Result<(), E>),
    LayoutResolved(Option<TypeLayoutView>),
}

impl<E> View for SizeEvent<E> {
    type V = SizeEventView<E>;

    open spec fn view(&self) -> SizeEventView<E> {
        match self {
            SizeEvent::Invoked { ty_args, args } => SizeEventView::Invoked {
                ty_args: *ty_args,
                args: *args,
            },
            SizeEvent::Charged(charged) => SizeEventView::Charged(*charged),
            SizeEvent::LayoutResolved(Some(layout)) => SizeEventView::LayoutResolved(
                Some(layout@),
            ),
            SizeEvent::LayoutResolved(None) => SizeEventView::LayoutResolved(None),
        }
    }
}

/// What the size query answers for a type whose layout the resolver gave, or
/// did not give: the constant size of the layout where it has one that a
/// machine word holds, and nothing otherwise. A type without a layout and a
/// type of variable size get the same answer.
pub open spec fn reported_size(layout: Option<TypeLayoutView>) -> Option<u64> {
    match layout {
        Some(layout) => match word_sized(constant_size(layout)) {
            Some(size) => Some(size as u64),
            None => None,
        },
        None => None,
    }
}

/// One step of `constant_serialized_size`: from where the call stands and
/// what the host reports to where it stands next and what the host does
/// next.
///
/// The call takes one type argument and no argument. The flat fee is billed
/// first, whatever the type turns out to be. Then the layout is resolved and
/// the answer returned as the call's one value, an `Option<u64>` in the
/// virtual machine's form. A refusal of the meter ends the call and is
/// handed on. A report that does not answer the last request ends the call
/// as a violation.
pub open spec fn size_step<E>(gas: GasParameters, state: SizeState, event: SizeEventView<E>) -> (
    SizeState,
    ActionView<E>,
) {
    match (state, event) {
        (SizeState::Ready, SizeEventView::Invoked { ty_args, args }) => {
            if ty_args == 1 && args == 0 {
                (SizeState::Charging, ActionView::Charge(gas.failure))
            } else {
                violation(SizeState::Done)
            }
        },
        (SizeState::Charging, SizeEventView::Charged(Ok(_))) => (
            SizeState::ResolvingLayout,
            ActionView::ResolveLayout,
        ),
        (SizeState::Charging, SizeEventView::Charged(Err(error))) => (
            SizeState::Done,
            ActionView::Finish(Err(NativeError::Host(error))),
        ),
        (SizeState::ResolvingLayout, SizeEventView::LayoutResolved(layout)) => (
            SizeState::Done,
            ActionView::Finish(Ok(seq![option_u64_view(reported_size(layout))])),
        ),
        _ => violation(SizeState::Done),
    }
}

/// The native `constant_serialized_size<T>(): Option<u64>`, one step at a
/// time.
pub fn native_constant_serialized_size<E>(
    gas: &GasParameters,
    state: SizeState,
    event: SizeEvent<E>,
) -> (next: (SizeState, Action<E>))
    ensures
        (next.0, next.1@) == size_step(*gas, state, event@),
{
    match (state, event) {
        (SizeState::Ready, SizeEvent::Invoked { ty_args, args }) => {
            if ty_args == 1 && args == 0 {
                (SizeState::Charging, Action::Charge(gas.failure))
            } else {
                (SizeState::Done, Action::Finish(Err(NativeError::InvariantViolation)))
            }
        },
        (SizeState::Charging, SizeEvent::Charged(Ok(_))) => (
            SizeState::ResolvingLayout,
            Action::ResolveLayout,
        ),
        (SizeState::Charging, SizeEvent::Charged(Err(error))) => (
            SizeState::Done,
            Action::Finish(Err(NativeError::Host(error))),
        ),
        (SizeState::ResolvingLayout, SizeEvent::LayoutResolved(resolved)) => {
            let size = match resolved {
                Some(layout) => match compute_constant_size(&layout) {
                    Some(size) => Some(size as u64),
                    None => None,
                },
                None => None,
            };
            (SizeState::Done, Action::Finish(Ok(ReturnValues::single(NativeValue::option_u64(size)))))
        },
        _ => (SizeState::Done, Action::Finish(Err(NativeError::InvariantViolation))),
    }
}

/// The natives of this module.
#[derive(Clone, Copy, Debug, PartialEq, Eq, Structural)]
pub enum BcsNative {
    /// `to_bytes<T>(&T): vector<u8>`, run by [`native_to_bytes`].
    ToBytes,
    /// `constant_serialized_size<T>(): Option<u64>`, run by
    /// [`native_constant_serialized_size`].
    ConstantSerializedSize,
}

/// The natives of this module under their names, in the order they are
/// registered.
pub open spec fn bcs_natives() -> Seq<(Seq<char>, BcsNative)> {
    seq![
        ("to_bytes"@, BcsNative::ToBytes),
        ("constant_serialized_size"@, BcsNative::ConstantSerializedSize),
    ]
}

/// The natives of this module under their names, ready to be registered.
pub fn make_all() -> (natives: Vec<(String, BcsNative)>)
    ensures
        named_view(natives@) == bcs_natives(),
{
    let mut natives: Vec<(String, BcsNative)> = Vec::new();
    natives.push(("to_bytes".to_owned(), BcsNative::ToBytes));
    natives.push(("constant_serialized_size".to_owned(), BcsNative::ConstantSerializedSize));
    assert(named_view(natives@) =~= bcs_natives());
    natives
}

} // verus!
