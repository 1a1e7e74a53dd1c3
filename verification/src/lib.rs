//! A native-side bridge for building, configuring and driving a test-double
//! service object that lives inside a separately managed runtime.
//!
//! The bridge models the managed runtime's object table explicitly, so that
//! every remote call a builder or proxy issues — its method name, its wire
//! signature, and its effect on the remote object — is stated in a contract
//! and proved.
//!
//! - `runtime` holds the object-table model, remote references with their
//!   ownership counts, and the executor with its attachment discipline.
//! - `wire` holds the fixed call surface: method names, exact wire
//!   signatures, and the 16-bit identifier marshaling.
//! - `builder` holds the fluent, consuming builder protocol.
//! - `proxy` holds the finished service proxy and the outcome of each of
//!   its lifecycle operations.
//! - `hash` holds the fixed-size state-hash values and the opaque digest
//!   primitive.
//! - `errors` holds the recoverable remote-invocation error.
//! - `laws` states and proves the protocol's laws: one field per setter,
//!   last write wins, and the isolation of each injected exception.

pub mod builder;
pub mod errors;
pub mod hash;
pub mod laws;
pub mod proxy;
pub mod runtime;
pub mod wire;
