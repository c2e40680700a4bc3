//! The interpretation of a block's events.
//!
//! Each event is interpreted on its own: it yields one record, or none, or is
//! rejected. A block's events are interpreted in the order of their emission,
//! and the first event that is rejected ends the interpretation.

use vstd::prelude::*;
use crate::dispatch::{
    module_resolution, resolution, resolve_dispatch_error, resolve_module_error, DispatchError,
    InterpretError,
};
use crate::event::{ChainEvent, Record, SudoEvent, SystemEvent};
use crate::pallet::{Pallet, PalletRegistry, Runtime};

verus! {

/// The record that a failed dispatch yields.
pub open spec fn failure_record(error: DispatchError, registry: Seq<String>) -> Result<
    Option<Record>,
    InterpretError,
> {
    match resolution(error, registry) {
        Ok(failure) => Ok(Some(Record::Failure(failure))),
        Err(e) => Err(e),
    }
}

/// What one event means on a runtime under a registry: a record, nothing, or
/// the reason it is rejected.
pub open spec fn interpretation(
    runtime: Runtime,
    event: ChainEvent,
    registry: Seq<String>,
) -> Result<Option<Record>, InterpretError> {
    if !runtime.has_pallet(event.pallet_of()) {
        Err(InterpretError::ForeignEvent { pallet: event.pallet_of() })
    } else {
        match event {
            ChainEvent::System(SystemEvent::ExtrinsicSuccess(info)) => Ok(
                Some(Record::Success(info)),
            ),
            ChainEvent::System(SystemEvent::ExtrinsicFailed(error, _)) => failure_record(
                error,
                registry,
            ),
            ChainEvent::System(SystemEvent::CodeUpdated) => Ok(Some(Record::CodeUpdated)),
            ChainEvent::System(SystemEvent::NewAccount(rendering)) => Ok(
                Some(Record::System(rendering)),
            ),
            ChainEvent::Sudo(SudoEvent::Sudid { sudo_result: Ok(_) }) => Ok(None),
            ChainEvent::Sudo(SudoEvent::Sudid { sudo_result: Err(error) }) => failure_record(
                error,
                registry,
            ),
            ChainEvent::Balances(rendering) => Ok(
                Some(Record::Rendered { pallet: Pallet::Balances, rendering }),
            ),
            ChainEvent::Assets(rendering) => Ok(
                Some(Record::Rendered { pallet: Pallet::Assets, rendering }),
            ),
            ChainEvent::Uniques(rendering) => Ok(
                Some(Record::Rendered { pallet: Pallet::Uniques, rendering }),
            ),
            _ => Err(InterpretError::UnsupportedEvent { pallet: event.pallet_of() }),
        }
    }
}

/// Whether the event is of a kind that is shown by a record of its own.
pub open spec fn has_explicit_handling(event: ChainEvent) -> bool {
    match event {
        ChainEvent::System(SystemEvent::ExtrinsicSuccess(_)) => true,
        ChainEvent::System(SystemEvent::ExtrinsicFailed(_, _)) => true,
        ChainEvent::System(SystemEvent::CodeUpdated) => true,
        ChainEvent::System(SystemEvent::NewAccount(_)) => true,
        ChainEvent::Balances(_) => true,
        ChainEvent::Assets(_) => true,
        ChainEvent::Uniques(_) => true,
        _ => false,
    }
}

/// Whether every event of the sequence is interpreted without rejection.
pub open spec fn all_accepted(
    runtime: Runtime,
    events: Seq<ChainEvent>,
    registry: Seq<String>,
) -> bool {
    forall|i: int|
        0 <= i < events.len() ==> (#[trigger] interpretation(runtime, events[i], registry)) is Ok
}

/// The records that a sequence of events yields, in the order of the events.
/// An event that yields no record, or is rejected, adds nothing.
pub open spec fn records_of(
    runtime: Runtime,
    events: Seq<ChainEvent>,
    registry: Seq<String>,
) -> Seq<Record>
    decreases events.len(),
{
    if events.len() == 0 {
        Seq::empty()
    } else {
        let before = records_of(runtime, events.drop_last(), registry);
        match interpretation(runtime, events.last(), registry) {
            Ok(Some(record)) => before.push(record),
            _ => before,
        }
    }
}

/// The rejection of a block's events: the first event that was rejected, why,
/// and the records of the events before it.
#[derive(Clone, Debug, PartialEq, Eq)]
pub struct Rejection {
    pub index: usize,
    pub error: InterpretError,
    pub emitted: Vec<Record>,
}

/// What the interpretation of a block's events may return.
pub open spec fn is_interpretation_of(
    out: Result<Vec<Record>, Rejection>,
    runtime: Runtime,
    events: Seq<ChainEvent>,
    registry: Seq<String>,
) -> bool {
    match out {
        Ok(records) => {
            &&& all_accepted(runtime, events, registry)
            &&& records@ == records_of(runtime, events, registry)
        },
        Err(rejection) => {
            &&& rejection.index < events.len()
            &&& all_accepted(runtime, events.take(rejection.index as int), registry)
            &&& interpretation(runtime, events[rejection.index as int], registry) == Err::<
                Option<Record>,
                InterpretError,
            >(rejection.error)
            &&& rejection.emitted@ == records_of(
                runtime,
                events.take(rejection.index as int),
                registry,
            )
        },
    }
}

fn interpret_failure(error: DispatchError, registry: &PalletRegistry) -> (out: Result<
    Option<Record>,
    InterpretError,
>)
    ensures
        out == failure_record(error, registry@),
{
    match resolve_dispatch_error(error, registry) {
        Ok(failure) => Ok(Some(Record::Failure(failure))),
        Err(e) => Err(e),
    }
}

/// Interprets one event.
pub fn interpret_event(
    runtime: Runtime,
    event: &ChainEvent,
    registry: &PalletRegistry,
) -> (out: Result<Option<Record>, InterpretError>)
    ensures
        out == interpretation(runtime, *event, registry@),
{
    let pallet = event.pallet();
    if !runtime.supports(pallet) {
        return Err(InterpretError::ForeignEvent { pallet });
    }
    match event {
        ChainEvent::System(system) => match system {
            SystemEvent::ExtrinsicSuccess(info) => Ok(Some(Record::Success(*info))),
            SystemEvent::ExtrinsicFailed(error, _) => interpret_failure(*error, registry),
            SystemEvent::CodeUpdated => Ok(Some(Record::CodeUpdated)),
            SystemEvent::NewAccount(rendering) => Ok(Some(Record::System(rendering.clone()))),
            _ => Err(InterpretError::UnsupportedEvent { pallet }),
        },
        ChainEvent::Sudo(sudo) => match sudo {
            SudoEvent::Sudid { sudo_result } => match sudo_result {
                Ok(_) => Ok(None),
                Err(error) => interpret_failure(*error, registry),
            },
            _ => Err(InterpretError::UnsupportedEvent { pallet }),
        },
        ChainEvent::Balances(rendering) => Ok(
            Some(Record::Rendered { pallet: Pallet::Balances, rendering: rendering.clone() }),
        ),
        ChainEvent::Assets(rendering) => Ok(
            Some(Record::Rendered { pallet: Pallet::Assets, rendering: rendering.clone() }),
        ),
        ChainEvent::Uniques(rendering) => Ok(
            Some(Record::Rendered { pallet: Pallet::Uniques, rendering: rendering.clone() }),
        ),
        _ => Err(InterpretError::UnsupportedEvent { pallet }),
    }
}

/// The line that shows one event, nothing for an event that yields no
/// record, or the reason the event is rejected.
pub open spec fn displayed(runtime: Runtime, event: ChainEvent, registry: Seq<String>) -> Result<
    Option<Seq<char>>,
    InterpretError,
> {
    match interpretation(runtime, event, registry) {
        Ok(Some(record)) => Ok(Some(record.line_of())),
        Ok(None) => Ok(None),
        Err(e) => Err(e),
    }
}

/// The line of a module error, or the reason it cannot be decoded.
pub open spec fn displayed_module_error(index: u8, error: u8, registry: Seq<String>) -> Result<
    Seq<char>,
    InterpretError,
> {
    match module_resolution(index, error, registry) {
        Ok(failure) => Ok(failure.line_of()),
        Err(e) => Err(e),
    }
}

/// The text of a line that was shown for an event, if one was.
pub open spec fn shown(out: Result<Option<String>, InterpretError>) -> Result<
    Option<Seq<char>>,
    InterpretError,
> {
    match out {
        Ok(Some(line)) => Ok(Some(line@)),
        Ok(None) => Ok(None),
        Err(e) => Err(e),
    }
}

/// The text of a line that was shown for an error, if one was.
pub open spec fn shown_error(out: Result<String, InterpretError>) -> Result<
    Seq<char>,
    InterpretError,
> {
    match out {
        Ok(line) => Ok(line@),
        Err(e) => Err(e),
    }
}

/// Interprets one event and renders its record, if it yields one.
pub fn display(runtime: Runtime, event: &ChainEvent, registry: &PalletRegistry) -> (out: Result<
    Option<String>,
    InterpretError,
>)
    ensures
        shown(out) == displayed(runtime, *event, registry@),
{
    match interpret_event(runtime, event, registry) {
        Ok(Some(record)) => Ok(Some(record.line())),
        Ok(None) => Ok(None),
        Err(e) => Err(e),
    }
}

/// Decodes a module error and renders it.
pub fn display_module_error(index: u8, error: u8, registry: &PalletRegistry) -> (out: Result<
    String,
    InterpretError,
>)
    ensures
        shown_error(out) == displayed_module_error(index, error, registry@),
{
    match resolve_module_error(index, error, registry) {
        Ok(failure) => Ok(failure.line()),
        Err(e) => Err(e),
    }
}

/// Interprets the events of one block in the order of their emission. The
/// first event that is rejected ends the interpretation; the rejection holds
/// the records of the events before it.
pub fn interpret_events(
    runtime: Runtime,
    events: &Vec<ChainEvent>,
    registry: &PalletRegistry,
) -> (out: Result<Vec<Record>, Rejection>)
    ensures
        is_interpretation_of(out, runtime, events@, registry@),
{
    let mut records: Vec<Record> = Vec::new();
    let mut index: usize = 0;
    while index < events.len()
        invariant
            index <= events@.len(),
            all_accepted(runtime, events@.take(index as int), registry@),
            records@ == records_of(runtime, events@.take(index as int), registry@),
        decreases events@.len() - index,
    {
        let ghost before = events@.take(index as int);
        let ghost upto = events@.take(index + 1);
        proof {
            assert(upto.drop_last() == before);
            assert(upto.last() == events@[index as int]);
        }
        match interpret_event(runtime, &events[index], registry) {
            Ok(Some(record)) => {
                records.push(record);
            },
            Ok(None) => {},
            Err(error) => {
                return Err(Rejection { index, error, emitted: records });
            },
        }
        proof {
            assert forall|i: int| 0 <= i < upto.len() implies (#[trigger] interpretation(
                runtime,
                upto[i],
                registry@,
            )) is Ok by {
                if i < index {
                    assert(upto[i] == before[i]);
                }
            }
        }
        index = index + 1;
    }
    proof {
        assert(events@.take(index as int) == events@);
    }
    Ok(records)
}

/// Interpreting the same events twice gives the same outcome: the same
/// records in the same order, or the same rejection at the same event after
/// the same records.
pub proof fn lemma_interpretation_is_deterministic(
    first: Result<Vec<Record>, Rejection>,
    second: Result<Vec<Record>, Rejection>,
    runtime: Runtime,
    events: Seq<ChainEvent>,
    registry: Seq<String>,
)
    requires
        is_interpretation_of(first, runtime, events, registry),
        is_interpretation_of(second, runtime, events, registry),
    ensures
        first is Ok <==> second is Ok,
        first is Ok ==> first->Ok_0@ == second->Ok_0@,
        first is Err ==> {
            &&& first->Err_0.index == second->Err_0.index
            &&& first->Err_0.error == second->Err_0.error
            &&& first->Err_0.emitted@ == second->Err_0.emitted@
        },
{
    if first is Err {
        let i = first->Err_0.index as int;
        assert(!(interpretation(runtime, events[i], registry) is Ok));
        if second is Err {
            let j = second->Err_0.index as int;
            if i < j {
                assert(events.take(j)[i] == events[i]);
            }
            if j < i {
                assert(events.take(i)[j] == events[j]);
            }
        }
    } else if second is Err {
        let j = second->Err_0.index as int;
        assert(!(interpretation(runtime, events[j], registry) is Ok));
    }
}

/// The records of two sequences of events, one after the other, are the
/// records of the first followed by the records of the second.
pub proof fn lemma_records_follow_the_events(
    runtime: Runtime,
    first: Seq<ChainEvent>,
    second: Seq<ChainEvent>,
    registry: Seq<String>,
)
    ensures
        records_of(runtime, first + second, registry) == records_of(runtime, first, registry)
            + records_of(runtime, second, registry),
    decreases second.len(),
{
    if second.len() == 0 {
        assert(first + second == first);
    } else {
        assert((first + second).drop_last() == first + second.drop_last());
        assert((first + second).last() == second.last());
        lemma_records_follow_the_events(runtime, first, second.drop_last(), registry);
    }
}

/// Where every event is of a kind with explicit handling and none is
/// rejected, there is exactly one record per event, and the record at each
/// position is the one that the event at that position yields.
pub proof fn lemma_one_record_per_event(
    runtime: Runtime,
    events: Seq<ChainEvent>,
    registry: Seq<String>,
)
    requires
        forall|i: int| 0 <= i < events.len() ==> has_explicit_handling(#[trigger] events[i]),
        all_accepted(runtime, events, registry),
    ensures
        records_of(runtime, events, registry).len() == events.len(),
        forall|i: int|
            0 <= i < events.len() ==> interpretation(runtime, #[trigger] events[i], registry)
                == Ok::<Option<Record>, InterpretError>(
                Some(records_of(runtime, events, registry)[i]),
            ),
    decreases events.len(),
{
    if events.len() > 0 {
        let before = events.drop_last();
        assert forall|i: int| 0 <= i < before.len() implies (#[trigger] interpretation(
            runtime,
            before[i],
            registry,
        )) is Ok by {
            assert(before[i] == events[i]);
        }
        assert forall|i: int| 0 <= i < before.len() implies has_explicit_handling(
            #[trigger] before[i],
        ) by {
            assert(before[i] == events[i]);
        }
        lemma_one_record_per_event(runtime, before, registry);
        let last = events.last();
        assert(has_explicit_handling(last));
        assert(interpretation(runtime, last, registry) is Ok);
        assert forall|i: int| 0 <= i < events.len() implies interpretation(
            runtime,
            #[trigger] events[i],
            registry,
        ) == Ok::<Option<Record>, InterpretError>(
            Some(records_of(runtime, events, registry)[i]),
        ) by {
            if i < before.len() {
                assert(before[i] == events[i]);
            }
        }
    }
}

} // verus!
