//! What a native and its host say to each other: the host reports what its
//! own operations gave, the native answers with the next thing to do.

use vstd::prelude::*;
use crate::value::{NativeValueView, ReturnValues};

verus! {

/// How a native fails.
#[derive(Debug, PartialEq, Eq)]
pub enum NativeError<E> {
    /// A typed abort, which the calling code can handle.
    Abort { abort_code: u64 },
    /// The call breaks what the native relies on: a wrong number of
    /// arguments, or a report that does not answer the last request.
    InvariantViolation,
    /// A failure of the host's own, handed on as it came.
    Host(E),
}

/// What the host does next on behalf of a native.
#[derive(Debug, PartialEq, Eq)]
pub enum Action<E> {
    /// Take the arguments off the call.
    TakeArguments,
    /// Resolve the type argument to its layout.
    ResolveLayout,
    /// Read the value behind the reference argument.
    ReadReference,
    /// Encode the value that was read under the layout that was resolved.
    Serialize,
    /// Bill the amount to the meter.
    Charge(u64),
    /// End the call with this result.
    Finish(Result<ReturnValues, NativeError<E>>),
}

/// The mathematical value of an [`Action`].
pub enum ActionView<E> {
    TakeArguments,
    ResolveLayout,
    ReadReference,
    Serialize,
    Charge(u64),
    Finish(Result<Seq<NativeValueView>, NativeError<E>>),
}

impl<E> View for Action<E> {
    type V = ActionView<E>;

    open spec fn view(&self) -> ActionView<E> {
        match self {
            Action::TakeArguments => ActionView::TakeArguments,
            Action::ResolveLayout => ActionView::ResolveLayout,
            Action::ReadReference => ActionView::ReadReference,
            Action::Serialize => ActionView::Serialize,
            Action::Charge(amount) => ActionView::Charge(*amount),
            Action::Finish(Ok(values)) => ActionView::Finish(Ok(values@)),
            Action::Finish(Err(error)) => ActionView::Finish(Err(*error)),
        }
    }
}

/// The amounts that `actions` bill, in order.
pub open spec fn charges<E>(actions: Seq<ActionView<E>>) -> Seq<u64>
    decreases actions.len(),
{
    if actions.len() == 0 {
        Seq::empty()
    } else {
        match actions.last() {
            ActionView::Charge(amount) => charges(actions.drop_last()).push(amount),
            _ => charges(actions.drop_last()),
        }
    }
}

/// The total that `amounts` come to.
pub open spec fn total(amounts: Seq<u64>) -> nat
    decreases amounts.len(),
{
    if amounts.len() == 0 {
        0
    } else {
        total(amounts.drop_last()) + amounts.last() as nat
    }
}

} // verus!
