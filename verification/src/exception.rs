//! The exception envelope and the guarded reclaim path.
//!
//! An envelope is created at raise time and is exclusively owned by the
//! unwind machinery while in flight.  It carries an opaque payload and
//! an 8-byte class tag identifying which runtime produced it.  The one
//! extraction operation, [`cleanup`], is guarded by that tag: a foreign
//! envelope (one some other runtime raised on the same native unwinder)
//! is disposed of whole, its payload never read.

use vstd::prelude::*;

verus! {

/// The 8-byte class tag stamped on every exception this runtime raises,
/// identifying them to all cooperating runtimes on the same native
/// unwinder (vendor and language, `M O Z \0 R U S T`).
pub const RUST_EXCEPTION_CLASS: u64 = 0x4d4f_5a00_5255_5354;

/// This runtime's exception class identifier, as personality routines
/// read it to decide whether an exception was thrown by their own
/// runtime.
pub fn rust_exception_class() -> (class: u64)
    ensures
        class == RUST_EXCEPTION_CLASS,
{
    0x4d4f_5a00_5255_5354
}

/// An exception object in flight: the class tag of the runtime that
/// raised it, and the payload that runtime owns.
///
/// The payload field is private: the only way to take it out again is
/// [`cleanup`], which first checks the class tag.
pub struct ExceptionObject<T> {
    class: u64,
    payload: T,
}

impl<T> ExceptionObject<T> {
    /// The class tag, as contracts speak of it.
    pub closed spec fn spec_class(&self) -> u64 {
        self.class
    }

    /// The payload, as contracts speak of it.
    pub closed spec fn spec_payload(&self) -> T {
        self.payload
    }

    /// Seals a payload under a class tag.  A raise in this runtime uses
    /// [`RUST_EXCEPTION_CLASS`]; any other tag builds the stand-in for
    /// an exception of a different runtime.
    pub fn new(class: u64, payload: T) -> (obj: ExceptionObject<T>)
        ensures
            obj.spec_class() == class,
            obj.spec_payload() == payload,
    {
        ExceptionObject { class, payload }
    }

    /// Reads the class tag, the one field any runtime may look at.
    pub fn class(&self) -> (class: u64)
        ensures
            class == self.spec_class(),
    {
        self.class
    }
}

/// What became of an exception object handed to [`cleanup`].
pub enum CleanupVerdict<T> {
    /// The object was ours: the envelope is reclaimed and the payload
    /// returned to the code running at the catch landing pad.
    Claimed(T),
    /// The object was foreign: it is disposed of whole, payload unread,
    /// and this verdict is the dedicated foreign-exception fault.
    ForeignDisposed,
}

/// Reclaims an exception object the native runtime is about to discard.
///
/// If the class tag matches this runtime's own, the envelope is
/// consumed and the payload returned.  If it does not, the object must
/// be assumed to belong to a different unwinding implementation in the
/// same process: it is dropped whole — standing for the hand-off to the
/// native runtime's own delete primitive — and the verdict is the
/// foreign-exception fault.  The payload of a foreign object is never
/// read.
pub fn cleanup<T>(obj: ExceptionObject<T>) -> (verdict: CleanupVerdict<T>)
    ensures
        obj.spec_class() == RUST_EXCEPTION_CLASS ==> verdict == CleanupVerdict::Claimed(
            obj.spec_payload(),
        ),
        obj.spec_class() != RUST_EXCEPTION_CLASS ==> verdict
            == CleanupVerdict::<T>::ForeignDisposed,
{
    if obj.class != RUST_EXCEPTION_CLASS {
        CleanupVerdict::ForeignDisposed
    } else {
        CleanupVerdict::Claimed(obj.payload)
    }
}

/// The fixed cleanup hook every envelope is created with: it fires
/// exactly once, when the native runtime disposes of an exception that
/// no catch code reclaimed — because no frame anywhere claimed it.  It
/// consumes the envelope, payload and all.
pub fn dispose<T>(obj: ExceptionObject<T>) {
    let _ = obj;
}

} // verus!
