//! Whole calls of the serialization natives: what a call does over any
//! sequence of reports from its host, and what it bills.

use vstd::prelude::*;
use crate::bcs::{
    reported_size, serialization_failure_code, size_step, to_bytes_step, SizeEventView, SizeState,
    ToBytesEventView, ToBytesStateView,
};
use crate::constant_size::{
    composed_of_primitives, contains_vector, lemma_primitives_have_constant_size,
    lemma_vector_has_no_constant_size, total_width,
};
use crate::gas::{metered, serialization_cost, GasParameters};
use crate::layout::TypeLayoutView;
use crate::protocol::{charges, total, ActionView, NativeError};
use crate::value::{option_u64_view, NativeValueView};

verus! {

/// A call of `to_bytes` that has received `events`, in order: where it
/// stands and what it has asked of its host.
pub open spec fn to_bytes_run<E>(gas: GasParameters, events: Seq<ToBytesEventView<E>>) -> (
    ToBytesStateView,
    Seq<ActionView<E>>,
)
    decreases events.len(),
{
    if events.len() == 0 {
        (ToBytesStateView::Ready, Seq::empty())
    } else {
        let before = to_bytes_run(gas, events.drop_last());
        let step = to_bytes_step(gas, before.0, events.last());
        (step.0, before.1.push(step.1))
    }
}

/// Whether, in a call that has received `events`, the resolver gave no
/// layout or the encoder gave no bytes.
pub open spec fn serialization_failed<E>(gas: GasParameters, events: Seq<ToBytesEventView<E>>) -> bool
    decreases events.len(),
{
    events.len() > 0 && {
        let before = to_bytes_run(gas, events.drop_last()).0;
        ||| serialization_failed(gas, events.drop_last())
        ||| before == ToBytesStateView::ResolvingLayout && events.last()
            == ToBytesEventView::<E>::LayoutResolved(false)
        ||| before == ToBytesStateView::Serializing && events.last()
            == ToBytesEventView::<E>::Serialized(None)
    }
}

/// What holds of every call of `to_bytes`, whatever its host reports: until
/// the encoder has answered nothing is billed; bytes are billed at their
/// price, once; a failure is billed the failure fee, once.
pub open spec fn to_bytes_accounts<E>(gas: GasParameters, events: Seq<ToBytesEventView<E>>) -> bool {
    let run = to_bytes_run(gas, events);
    let billed = charges(run.1);
    let failed = serialization_failed(gas, events);
    match run.0 {
        ToBytesStateView::ChargingOutput(bytes) => !failed && billed == seq![
            metered(serialization_cost(gas, bytes.len())),
        ],
        ToBytesStateView::ChargingFailure => failed && billed == seq![gas.failure],
        ToBytesStateView::Done => billed.len() <= 1 && (failed ==> billed == seq![gas.failure]),
        _ => !failed && billed == Seq::<u64>::empty(),
    }
}

/// Billing one more action: the amounts billed grow by the action's amount
/// where it is a charge, and stay as they are otherwise.
pub proof fn lemma_charges_push<E>(actions: Seq<ActionView<E>>, action: ActionView<E>)
    ensures
        charges(actions.push(action)) == match action {
            ActionView::Charge(amount) => charges(actions).push(amount),
            _ => charges(actions),
        },
{
    assert(actions.push(action).drop_last() =~= actions);
}

/// Every call of `to_bytes` keeps its accounts, whatever its host reports.
pub proof fn lemma_to_bytes_accounts<E>(gas: GasParameters, events: Seq<ToBytesEventView<E>>)
    ensures
        to_bytes_accounts(gas, events),
    decreases events.len(),
{
    if events.len() > 0 {
        let before = to_bytes_run(gas, events.drop_last());
        lemma_to_bytes_accounts(gas, events.drop_last());
        lemma_charges_push(before.1, to_bytes_step(gas, before.0, events.last()).1);
    }
}

/// The failure fee: a call of `to_bytes` in which the resolver gave no
/// layout, or the encoder no bytes, is billed the failure fee, once, and
/// nothing else, whatever its host reports before and after. So it is never
/// billed the price of any bytes, and never nothing where the fee is not
/// zero.
pub proof fn lemma_failure_is_billed_the_failure_fee<E>(
    gas: GasParameters,
    events: Seq<ToBytesEventView<E>>,
)
    requires
        serialization_failed(gas, events),
    ensures
        charges(to_bytes_run(gas, events).1) == seq![gas.failure],
        total(charges(to_bytes_run(gas, events).1)) == gas.failure,
        gas.failure > 0 ==> total(charges(to_bytes_run(gas, events).1)) > 0,
{
    lemma_to_bytes_accounts(gas, events);
    let billed = charges(to_bytes_run(gas, events).1);
    assert(billed.last() == gas.failure);
    assert(total(billed.drop_last()) == 0);
}

/// A call of `to_bytes` that returns values returns one: the bytes that the
/// encoder gave in the report before the last. It is billed the price of
/// that many bytes, once, and nothing else.
pub proof fn lemma_returned_bytes_are_billed_their_price<E>(
    gas: GasParameters,
    events: Seq<ToBytesEventView<E>>,
    values: Seq<NativeValueView>,
)
    requires
        events.len() > 0,
        to_bytes_run(gas, events).1.last() == ActionView::<E>::Finish(Ok(values)),
    ensures
        events.len() >= 2,
        values.len() == 1,
        values[0] is VectorU8,
        events[events.len() - 2] == ToBytesEventView::<E>::Serialized(
            Some(values[0]->VectorU8_0),
        ),
        !serialization_failed(gas, events),
        charges(to_bytes_run(gas, events).1) == seq![
            metered(serialization_cost(gas, values[0]->VectorU8_0.len())),
        ],
{
    let earlier = events.drop_last();
    let before = to_bytes_run(gas, earlier);
    lemma_to_bytes_accounts(gas, earlier);
    lemma_charges_push(before.1, to_bytes_step(gas, before.0, events.last()).1);
    assert(before.0 is ChargingOutput);
    assert(earlier.len() > 0);
    assert(earlier.last() == events[events.len() - 2]);
}

/// A call of `to_bytes` that aborts does so with the serialization failure
/// code, after a failure of the resolver or the encoder, and is billed the
/// failure fee, once, and nothing else.
pub proof fn lemma_abort_follows_a_failure<E>(
    gas: GasParameters,
    events: Seq<ToBytesEventView<E>>,
    abort_code: u64,
)
    requires
        events.len() > 0,
        to_bytes_run(gas, events).1.last() == ActionView::<E>::Finish(
            Err(NativeError::Abort { abort_code }),
        ),
    ensures
        abort_code == serialization_failure_code(),
        serialization_failed(gas, events),
        charges(to_bytes_run(gas, events).1) == seq![gas.failure],
{
    let earlier = events.drop_last();
    let before = to_bytes_run(gas, earlier);
    lemma_to_bytes_accounts(gas, earlier);
    lemma_to_bytes_accounts(gas, events);
    assert(before.0 is ChargingFailure);
}

/// The reports of a host on which nothing fails, for a call of `to_bytes`
/// whose value encodes to `bytes`.
pub open spec fn to_bytes_reports<E>(bytes: Seq<u8>) -> Seq<ToBytesEventView<E>> {
    seq![
        ToBytesEventView::Invoked { ty_args: 1, args: 1 },
        ToBytesEventView::ArgumentsTaken(Ok(())),
        ToBytesEventView::LayoutResolved(true),
        ToBytesEventView::ReferenceRead(Ok(())),
        ToBytesEventView::Serialized(Some(bytes)),
        ToBytesEventView::Charged(Ok(())),
    ]
}

/// On a host on which nothing fails, `to_bytes` asks for each of the host's
/// operations in turn, bills the price of the bytes, and returns them.
pub proof fn lemma_to_bytes_returns_the_bytes<E>(gas: GasParameters, bytes: Seq<u8>)
    ensures
        to_bytes_run(gas, to_bytes_reports::<E>(bytes)) == (
            ToBytesStateView::Done,
            seq![
                ActionView::<E>::TakeArguments,
                ActionView::ResolveLayout,
                ActionView::ReadReference,
                ActionView::Serialize,
                ActionView::Charge(metered(serialization_cost(gas, bytes.len()))),
                ActionView::Finish(Ok(seq![NativeValueView::VectorU8(bytes)])),
            ],
        ),
{
    let events = to_bytes_reports::<E>(bytes);
    let e5 = events.drop_last();
    let e4 = e5.drop_last();
    let e3 = e4.drop_last();
    let e2 = e3.drop_last();
    let e1 = e2.drop_last();
    let e0 = e1.drop_last();
    assert(e0.len() == 0);
    assert(to_bytes_run(gas, e0).0 == ToBytesStateView::Ready);
    assert(to_bytes_run(gas, e1).0 == ToBytesStateView::TakingArguments);
    assert(to_bytes_run(gas, e2).0 == ToBytesStateView::ResolvingLayout);
    assert(to_bytes_run(gas, e3).0 == ToBytesStateView::ReadingReference);
    assert(to_bytes_run(gas, e4).0 == ToBytesStateView::Serializing);
    assert(to_bytes_run(gas, e5).0 == ToBytesStateView::ChargingOutput(bytes));
    assert(to_bytes_run(gas, events).1 =~= seq![
        ActionView::<E>::TakeArguments,
        ActionView::ResolveLayout,
        ActionView::ReadReference,
        ActionView::Serialize,
        ActionView::Charge(metered(serialization_cost(gas, bytes.len()))),
        ActionView::Finish(Ok(seq![NativeValueView::VectorU8(bytes)])),
    ]);
}

/// A call of `constant_serialized_size` that has received `events`, in
/// order: where it stands and what it has asked of its host.
pub open spec fn size_run<E>(gas: GasParameters, events: Seq<SizeEventView<E>>) -> (
    SizeState,
    Seq<ActionView<E>>,
)
    decreases events.len(),
{
    if events.len() == 0 {
        (SizeState::Ready, Seq::empty())
    } else {
        let before = size_run(gas, events.drop_last());
        let step = size_step(gas, before.0, events.last());
        (step.0, before.1.push(step.1))
    }
}

/// What holds of every call of `constant_serialized_size`, whatever its host
/// reports: the flat fee is billed as soon as the call is taken up, and
/// nothing else ever is.
pub open spec fn size_accounts<E>(gas: GasParameters, events: Seq<SizeEventView<E>>) -> bool {
    let run = size_run(gas, events);
    let billed = charges(run.1);
    match run.0 {
        SizeState::Ready => events.len() == 0 && billed == Seq::<u64>::empty(),
        SizeState::Charging => events.len() == 1 && billed == seq![gas.failure],
        SizeState::ResolvingLayout => events.len() == 2 && billed == seq![gas.failure],
        SizeState::Done => billed == Seq::<u64>::empty() || billed == seq![gas.failure],
    }
}

/// Every call of `constant_serialized_size` keeps its accounts, whatever its
/// host reports.
pub proof fn lemma_size_accounts<E>(gas: GasParameters, events: Seq<SizeEventView<E>>)
    ensures
        size_accounts(gas, events),
    decreases events.len(),
{
    if events.len() > 0 {
        let before = size_run(gas, events.drop_last());
        lemma_size_accounts(gas, events.drop_last());
        lemma_charges_push(before.1, size_step(gas, before.0, events.last()).1);
    }
}

/// The flat fee: a call of `constant_serialized_size` that returns values
/// has been billed the flat fee, once, and nothing else, whether or not the
/// type resolved and whatever its layout. It returns one value, the answer
/// for what the resolver reported last.
pub proof fn lemma_size_query_is_billed_the_flat_fee<E>(
    gas: GasParameters,
    events: Seq<SizeEventView<E>>,
    values: Seq<NativeValueView>,
)
    requires
        events.len() > 0,
        size_run(gas, events).1.last() == ActionView::<E>::Finish(Ok(values)),
    ensures
        events.len() == 3,
        events.last() is LayoutResolved,
        values == seq![option_u64_view(reported_size(events.last()->LayoutResolved_0))],
        charges(size_run(gas, events).1) == seq![gas.failure],
{
    let earlier = events.drop_last();
    let before = size_run(gas, earlier);
    lemma_size_accounts(gas, earlier);
    lemma_charges_push(before.1, size_step(gas, before.0, events.last()).1);
    assert(before.0 == SizeState::ResolvingLayout);
}

/// On a host whose meter takes the fee, `constant_serialized_size` bills the
/// flat fee, asks for the layout, and returns the answer for it.
pub proof fn lemma_size_query_answers<E>(gas: GasParameters, layout: Option<TypeLayoutView>)
    ensures
        size_run(
            gas,
            seq![
                SizeEventView::<E>::Invoked { ty_args: 1, args: 0 },
                SizeEventView::Charged(Ok(())),
                SizeEventView::LayoutResolved(layout),
            ],
        ) == (
            SizeState::Done,
            seq![
                ActionView::<E>::Charge(gas.failure),
                ActionView::ResolveLayout,
                ActionView::Finish(Ok(seq![option_u64_view(reported_size(layout))])),
            ],
        ),
{
    let events = seq![
        SizeEventView::<E>::Invoked { ty_args: 1, args: 0 },
        SizeEventView::Charged(Ok(())),
        SizeEventView::LayoutResolved(layout),
    ];
    let e2 = events.drop_last();
    let e1 = e2.drop_last();
    let e0 = e1.drop_last();
    assert(e0.len() == 0);
    assert(size_run(gas, e0).0 == SizeState::Ready);
    assert(size_run(gas, e1).0 == SizeState::Charging);
    assert(size_run(gas, e2).0 == SizeState::ResolvingLayout);
    assert(size_run(gas, events).1 =~= seq![
        ActionView::<E>::Charge(gas.failure),
        ActionView::ResolveLayout,
        ActionView::Finish(Ok(seq![option_u64_view(reported_size(layout))])),
    ]);
}

/// For a layout built from primitives alone, the size query answers with the
/// sum of the widths of its primitives, where a machine word holds that sum.
pub proof fn lemma_size_query_on_primitives(layout: TypeLayoutView)
    requires
        composed_of_primitives(layout),
        total_width(layout) <= usize::MAX,
    ensures
        reported_size(Some(layout)) == Some(total_width(layout) as u64),
{
    lemma_primitives_have_constant_size(layout);
}

/// For a layout in which a vector occurs, at whatever depth, the size query
/// answers with nothing.
pub proof fn lemma_size_query_on_vectors(layout: TypeLayoutView)
    requires
        contains_vector(layout),
    ensures
        reported_size(Some(layout)) is None,
{
    lemma_vector_has_no_constant_size(layout);
}

} // verus!
