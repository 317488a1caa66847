//! The end of a task on the execution side: how a fault is described and
//! reported.

use crate::types::Completion;
use vstd::prelude::*;
use vstd::string::*;

verus! {

/// What a faulted task left behind.
#[derive(Clone, Debug, PartialEq, Eq)]
pub enum PanicPayload {
    /// A string slice.
    Str(String),
    /// An owned string.
    Text(String),
    /// A value of any other type.
    Other,
}

/// The description of a payload that is no text.
pub open spec fn placeholder() -> Seq<char> {
    "Box<Any>"@
}

/// The description of a fault: the payload's own text where it is text, in
/// either form, and the placeholder otherwise.
pub open spec fn spec_description(payload: PanicPayload) -> Seq<char> {
    match payload {
        PanicPayload::Str(text) => text@,
        PanicPayload::Text(text) => text@,
        PanicPayload::Other => placeholder(),
    }
}

/// Describes a fault by its payload.
pub fn downcast_panic_payload(payload: &PanicPayload) -> (description: String)
    ensures
        description@ == spec_description(*payload),
{
    match payload {
        PanicPayload::Str(text) => text.clone(),
        PanicPayload::Text(text) => text.clone(),
        PanicPayload::Other => String::from_str("Box<Any>"),
    }
}

/// The completion to report for a task that returned (`None`) or faulted
/// with a payload.
pub fn completion_of(fault: Option<PanicPayload>) -> (completion: Completion)
    ensures
        match fault {
            Some(payload) => completion matches Completion::Panicked(description)
                && description@ == spec_description(payload),
            None => completion == Completion::Returned,
        },
{
    match fault {
        Some(payload) => Completion::Panicked(downcast_panic_payload(&payload)),
        None => Completion::Returned,
    }
}

} // verus!
