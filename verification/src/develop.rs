//! The develop runtime.

use vstd::prelude::*;
use crate::dispatch::InterpretError;
use crate::event::{ChainEvent, Record};
use crate::interpreter::{
    display, display_module_error, displayed, displayed_module_error, interpret_events,
    is_interpretation_of, shown, shown_error, Rejection,
};
use crate::pallet::{PalletRegistry, Runtime};

verus! {

/// Shows one event of the develop runtime: the line of its record, nothing
/// for an event that yields no record, or the reason the event is rejected.
pub fn display_event(event: &ChainEvent, registry: &PalletRegistry) -> (out: Result<
    Option<String>,
    InterpretError,
>)
    ensures
        shown(out) == displayed(Runtime::Develop, *event, registry@),
{
    display(Runtime::Develop, event, registry)
}

/// Shows a module error of the develop runtime: the line that names the
/// pallet and the decoded error, or the reason the error cannot be decoded.
pub fn decode_module_error(index: u8, error: u8, registry: &PalletRegistry) -> (out: Result<
    String,
    InterpretError,
>)
    ensures
        shown_error(out) == displayed_module_error(index, error, registry@),
{
    display_module_error(index, error, registry)
}

/// Interprets the events of one block of the develop runtime.
pub fn interpret_block(events: &Vec<ChainEvent>, registry: &PalletRegistry) -> (out: Result<
    Vec<Record>,
    Rejection,
>)
    ensures
        is_interpretation_of(out, Runtime::Develop, events@, registry@),
{
    interpret_events(Runtime::Develop, events, registry)
}

} // verus!
