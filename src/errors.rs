//! The failures that a statement execution or a mutation can end in.

use vstd::prelude::*;

verus! {

/// A failure that the database session reported (network, server side,
/// serialization), with its message.
#[derive(Clone, Debug, PartialEq, Eq)]
pub struct TransportFault {
    pub message: String,
}

/// A row whose shape does not match the entity type's columns.
#[derive(Clone, Debug, PartialEq, Eq)]
pub struct DecodeFault {
    pub message: String,
}

/// A before- or after-hook that reported failure.
#[derive(Clone, Debug, PartialEq, Eq)]
pub struct HookFault {
    pub message: String,
}

/// The phase of a mutation in which a hook ran.
#[derive(Clone, Copy, Debug, PartialEq, Eq, Structural)]
pub enum HookPhase {
    Before,
    After,
}

/// Programmer errors, caught where they can be checked.
#[derive(Clone, Copy, Debug, PartialEq, Eq, Structural)]
pub enum Misuse {
    /// The number of bound values differs from the statement's placeholders.
    WrongArity { expected: usize, given: usize },
    /// A paging stream was advanced while its fetch was still pending, or
    /// handed a page it had not asked for.
    OutOfTurn,
}

/// Every failure that a terminal call can return.
#[derive(Clone, Debug, PartialEq, Eq)]
pub enum QueryError {
    /// No row came back where one was expected.
    NotFound,
    Decode(DecodeFault),
    Transport(TransportFault),
    /// The hook at `index` of `phase` failed.
    Hook { phase: HookPhase, index: usize, fault: HookFault },
    Misuse(Misuse),
}

} // verus!
