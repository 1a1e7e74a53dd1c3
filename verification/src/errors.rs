//! The recoverable error a remote operation returns when the managed
//! runtime raises an exception during the call.
//!
//! Protocol violations and reference-table failures are not represented
//! here: they indicate a defect in the bridge itself, and the explicit
//! object-table model makes them impossible by construction rather than
//! recoverable at run time. Marshaling failures have no representation
//! either: every argument of the fixed call surface — a 16-bit identifier,
//! a string, a byte sequence, a registered exception kind — marshals
//! totally, so no call site could ever return one.

use vstd::prelude::*;

verus! {

/// A named remote operation raised an exception; carries the exception
/// kind, for assertion in tests.
#[derive(Debug, PartialEq, Eq)]
pub struct RemoteInvocationError {
    /// The exception kind that was raised.
    pub kind: String,
}

impl RemoteInvocationError {
    /// The exception kind that was raised.
    pub fn kind_name(&self) -> (r: &String)
        ensures
            r@ == self.kind@,
    {
        &self.kind
    }
}

} // verus!
