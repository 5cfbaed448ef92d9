//! Runtime pieces of an enclave standard library, verified with Verus.
//!
//! The heart of the crate is a two-phase stack-unwinding exception
//! propagation engine: the machinery that lets an abrupt-termination
//! signal raised deep in a call stack travel upward, run the cleanup
//! code owed by intervening frames, and either be intercepted by an
//! enclosing handler or end the process.
//!
//! - [`exception`] owns the exception envelope: the payload, the 8-byte
//!   class tag identifying which runtime produced it, and the guarded
//!   extraction that keeps foreign payloads unread.
//! - [`eh`] decodes per-function call-site metadata and resolves the
//!   action owed at a given program counter.
//! - [`personality`] is the per-frame callback of the two-phase
//!   protocol: it maps a resolved action and a phase to the answer the
//!   native unwinder expects, installing registers when control is to
//!   transfer into a landing pad.
//! - [`unwind`] models the native unwinder's frame walk over a stack of
//!   frame contexts and proves the end-to-end behaviour of a raise:
//!   payload round trip, single disposal, cleanup ordering.
//! - [`chacha`] is a self-contained ChaCha20 pseudo-random stream,
//!   unrelated to unwinding but part of the same runtime.

pub mod chacha;
pub mod eh;
pub mod exception;
pub mod personality;
pub mod unwind;

use vstd::prelude::*;

verus! {

} // verus!
