//! The library's error values. Hosts turn them into Boson's error types at the edge.
use vstd::prelude::*;

verus! {

/// Identity reconstruction failed at the handler boundary.
#[derive(Debug)]
pub enum IdentityError {
    /// The inner Valence factory refused the actor JSON; the text is its error message.
    InvalidActor(String),
}

/// Recovering the staged Valence for a dispatch failed.
#[derive(Debug)]
pub enum DispatchError {
    /// An internal dispatch failure with an operator-safe message.
    Internal {
        /// What went wrong.
        message: String,
    },
}

/// Message when the context label names no invoke id.
pub open spec fn invalid_label_message() -> Seq<char> {
    "missing invoke valence (invalid execution context label)"@
}

/// Message when no Valence is staged under the label's invoke id.
pub open spec fn missing_valence_message() -> Seq<char> {
    "missing invoke valence"@
}

/// Message of the context-free recovery entry point, which never succeeds.
pub open spec fn context_required_message() -> Seq<char> {
    "missing invoke valence (use valence_from_context with the dispatch ExecutionContext)"@
}

/// `e` is an internal dispatch error with the given message.
pub open spec fn is_internal_with(e: DispatchError, message: Seq<char>) -> bool {
    e matches DispatchError::Internal { message: m } && m@ == message
}

/// The internal dispatch error for a missing staged Valence.
pub fn missing_valence() -> (e: DispatchError)
    ensures
        is_internal_with(e, missing_valence_message()),
{
    DispatchError::Internal { message: "missing invoke valence".to_owned() }
}

/// The internal dispatch error for a label without an invoke id.
pub fn invalid_label() -> (e: DispatchError)
    ensures
        is_internal_with(e, invalid_label_message()),
{
    DispatchError::Internal {
        message: "missing invoke valence (invalid execution context label)".to_owned(),
    }
}

} // verus!
