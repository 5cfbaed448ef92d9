//! The per-frame personality routine of the two-phase protocol.
//!
//! The native unwinder walks stack frames from the most recently called
//! upward, once per phase, and invokes [`personality`] for each.  In
//! the search phase the routine only classifies the frame — continue,
//! or handler found — so that the ultimate handler is known before any
//! destructor runs.  In the cleanup phase it installs the context for a
//! landing pad: the exception pointer in one register, zero in the
//! selector register, and the instruction pointer at the pad.
//!
//! Resolution is recomputed independently in each phase rather than
//! cached: the two phases are distinct invocation sequences and no
//! mutable state is threaded between them, which keeps the routine pure
//! and re-entrant.

use vstd::prelude::*;

use crate::eh;
use crate::eh::{DecodeError, EHAction, EHContext};

verus! {

/// Answer of a personality invocation, as the native unwinder reads
/// it.
#[derive(Clone, Copy, Debug, PartialEq, Eq, Structural)]
pub enum ReasonCode {
    /// The frame has no claim in this phase: keep walking.
    ContinueUnwind,
    /// Search phase only: this frame is the handler; the search ends.
    HandlerFound,
    /// Cleanup phase only: registers and instruction pointer are set;
    /// transfer control into the frame's landing pad.
    InstallContext,
    /// Fatal error while searching: abort the first phase.
    FatalPhase1Error,
    /// Fatal error while cleaning up: abort the second phase.
    FatalPhase2Error,
}

/// Bit the native unwinder sets when the invocation belongs to the
/// search phase.
pub const UA_SEARCH_PHASE: i32 = 1;

/// Bit set when the invocation belongs to the cleanup phase.
pub const UA_CLEANUP_PHASE: i32 = 2;

/// Bit set, during cleanup, on the frame the search phase picked.
pub const UA_HANDLER_FRAME: i32 = 4;

/// The protocol version this engine understands; any other version is
/// an immediate fatal error, with no compatibility attempted.
pub const UNWIND_VERSION: i32 = 1;

/// What the native unwinder exposes of one stack frame: the raw
/// instruction-pointer information, the function start, the two
/// relocation bases, and the per-function metadata blob (empty when
/// the function has none).
#[derive(Debug)]
pub struct Frame {
    /// Instruction pointer as reported for this frame.
    pub ip: u64,
    /// Whether the pointer refers to the faulting instruction itself;
    /// when false it is a return address, one past the call, and is
    /// decremented before lookup so that it cannot alias the next
    /// call-site range.
    pub ip_before_instr: bool,
    /// Start address of the function this frame executes.
    pub func_start: u64,
    /// Text-relative relocation base.
    pub text_start: u64,
    /// Data-relative relocation base.
    pub data_start: u64,
    /// The per-function unwind metadata blob.
    pub lsda: Vec<u8>,
}

/// The machine state a personality invocation may write through the
/// native unwinder: the two architecture-defined data registers that
/// hand the exception pointer and selector to a landing pad, and the
/// instruction pointer control resumes at.
#[derive(Clone, Copy, Debug, PartialEq, Eq, Structural)]
pub struct Registers {
    /// Register carrying the exception pointer into the landing pad.
    pub exception_reg: u64,
    /// Register carrying the type selector; this runtime always hands
    /// zero.
    pub selector_reg: u64,
    /// Instruction pointer control transfers to.
    pub ip: u64,
}

/// The action frame resolution computes for a frame: the adjusted
/// instruction pointer is looked up in the frame's metadata.  A return
/// address of zero cannot be decremented and marks a malformed
/// context.
pub open spec fn spec_frame_eh_action(f: Frame) -> Result<EHAction, DecodeError> {
    if !f.ip_before_instr && f.ip == 0 {
        Result::Err(DecodeError)
    } else {
        let ip = if f.ip_before_instr {
            f.ip
        } else {
            (f.ip - 1) as u64
        };
        eh::spec_find_eh_action(
            f.lsda@,
            EHContext {
                ip,
                func_start: f.func_start,
                text_start: f.text_start,
                data_start: f.data_start,
            },
        )
    }
}

/// Builds the frame's lookup context — adjusting a return address down
/// by one byte — and decodes the metadata blob.  A decode failure is
/// surfaced as an error for the dispatcher to turn fatal, never as a
/// crash.
pub fn frame_eh_action(f: &Frame) -> (r: Result<EHAction, DecodeError>)
    ensures
        r == spec_frame_eh_action(*f),
{
    if !f.ip_before_instr && f.ip == 0 {
        return Result::Err(DecodeError);
    }
    let ip: u64 = if f.ip_before_instr {
        f.ip
    } else {
        f.ip - 1
    };
    let ctx = EHContext {
        ip,
        func_start: f.func_start,
        text_start: f.text_start,
        data_start: f.data_start,
    };
    eh::find_eh_action(f.lsda.as_slice(), &ctx)
}

/// The answer the dispatcher owes for a resolved action in a given
/// phase: the state machine of the two-phase protocol.
pub open spec fn spec_personality_code(
    version: i32,
    actions: i32,
    act: Result<EHAction, DecodeError>,
) -> ReasonCode {
    if version != UNWIND_VERSION {
        ReasonCode::FatalPhase1Error
    } else {
        match act {
            Result::Err(e) => if actions & UA_SEARCH_PHASE != 0 {
                ReasonCode::FatalPhase1Error
            } else {
                ReasonCode::FatalPhase2Error
            },
            Result::Ok(a) => if actions & UA_SEARCH_PHASE != 0 {
                match a {
                    EHAction::NoAction => ReasonCode::ContinueUnwind,
                    EHAction::Cleanup(pad) => ReasonCode::ContinueUnwind,
                    EHAction::Catch(pad) => ReasonCode::HandlerFound,
                    EHAction::Terminate => ReasonCode::FatalPhase1Error,
                }
            } else {
                match a {
                    EHAction::NoAction => ReasonCode::ContinueUnwind,
                    EHAction::Cleanup(pad) => ReasonCode::InstallContext,
                    EHAction::Catch(pad) => ReasonCode::InstallContext,
                    EHAction::Terminate => ReasonCode::FatalPhase2Error,
                }
            },
        }
    }
}

/// The landing pad the resolved action names, when it names one.
pub open spec fn spec_action_pad(act: Result<EHAction, DecodeError>) -> Option<u64> {
    match act {
        Result::Ok(EHAction::Cleanup(pad)) => Option::Some(pad),
        Result::Ok(EHAction::Catch(pad)) => Option::Some(pad),
        _ => Option::None,
    }
}

/// The personality routine: invoked by the native unwinder once per
/// frame per phase.  It recomputes the frame's action, classifies in
/// the search phase without touching machine state, and in the cleanup
/// phase installs the context for a cleanup or catch landing pad —
/// exception pointer and a zero selector in the two data registers,
/// instruction pointer at the pad.  An unknown protocol version is an
/// immediate fatal error; malformed or undecodable metadata aborts
/// whichever phase is running.
pub fn personality(
    version: i32,
    actions: i32,
    _exception_class: u64,
    exception_ptr: u64,
    frame: &Frame,
    regs: &mut Registers,
) -> (rc: ReasonCode)
    ensures
        rc == spec_personality_code(version, actions, spec_frame_eh_action(*frame)),
        rc != ReasonCode::InstallContext ==> *final(regs) == *old(regs),
        rc == ReasonCode::InstallContext ==> final(regs).exception_reg == exception_ptr
            && final(regs).selector_reg == 0 && spec_action_pad(spec_frame_eh_action(*frame))
            == Option::Some(final(regs).ip),
{
    if version != UNWIND_VERSION {
        return ReasonCode::FatalPhase1Error;
    }
    let eh_action = match frame_eh_action(frame) {
        Result::Ok(action) => action,
        Result::Err(_) => {
            // a decode failure aborts whichever phase is running
            return if actions & UA_SEARCH_PHASE != 0 {
                ReasonCode::FatalPhase1Error
            } else {
                ReasonCode::FatalPhase2Error
            };
        },
    };
    if actions & UA_SEARCH_PHASE != 0 {
        match eh_action {
            EHAction::NoAction => ReasonCode::ContinueUnwind,
            EHAction::Cleanup(_pad) => ReasonCode::ContinueUnwind,
            EHAction::Catch(_pad) => ReasonCode::HandlerFound,
            EHAction::Terminate => ReasonCode::FatalPhase1Error,
        }
    } else {
        match eh_action {
            EHAction::NoAction => ReasonCode::ContinueUnwind,
            EHAction::Cleanup(pad) => {
                regs.exception_reg = exception_ptr;
                regs.selector_reg = 0;
                regs.ip = pad;
                ReasonCode::InstallContext
            },
            EHAction::Catch(pad) => {
                regs.exception_reg = exception_ptr;
                regs.selector_reg = 0;
                regs.ip = pad;
                ReasonCode::InstallContext
            },
            EHAction::Terminate => ReasonCode::FatalPhase2Error,
        }
    }
}

} // verus!
