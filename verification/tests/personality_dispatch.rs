//! The per-frame dispatcher: phase answers, register installs, version
//! checks and the return-address adjustment.

use enclave_rt::personality::{
    personality, Frame, ReasonCode, Registers, UA_CLEANUP_PHASE, UA_HANDLER_FRAME,
    UA_SEARCH_PHASE, UNWIND_VERSION,
};

fn fresh_regs() -> Registers {
    Registers { exception_reg: 0, selector_reg: 0, ip: 0 }
}

/// A frame whose single record covers [10, 20) with landing pad 7 and
/// the given action index.
fn frame_with_action(ip: u64, before: bool, action: u8) -> Frame {
    Frame {
        ip,
        ip_before_instr: before,
        func_start: 100,
        text_start: 0,
        data_start: 0,
        lsda: vec![0xff, 0xff, 4, 10, 10, 7, action, 1, 0],
    }
}

#[test]
fn search_continues_past_frame_without_interest() {
    let frame = frame_with_action(150, true, 0);
    let mut regs = fresh_regs();
    let rc = personality(UNWIND_VERSION, UA_SEARCH_PHASE, 0, 0xabcd, &frame, &mut regs);
    assert_eq!(rc, ReasonCode::ContinueUnwind);
    assert_eq!(regs, fresh_regs());
}

#[test]
fn search_continues_past_cleanup_frame() {
    let frame = frame_with_action(115, true, 0);
    let mut regs = fresh_regs();
    let rc = personality(UNWIND_VERSION, UA_SEARCH_PHASE, 0, 0xabcd, &frame, &mut regs);
    assert_eq!(rc, ReasonCode::ContinueUnwind);
    assert_eq!(regs, fresh_regs());
}

#[test]
fn search_reports_handler() {
    let frame = frame_with_action(115, true, 1);
    let mut regs = fresh_regs();
    let rc = personality(UNWIND_VERSION, UA_SEARCH_PHASE, 0, 0xabcd, &frame, &mut regs);
    assert_eq!(rc, ReasonCode::HandlerFound);
    // the search phase never touches machine state
    assert_eq!(regs, fresh_regs());
}

#[test]
fn cleanup_installs_context_for_cleanup_pad() {
    let frame = frame_with_action(115, true, 0);
    let mut regs = fresh_regs();
    let rc = personality(UNWIND_VERSION, UA_CLEANUP_PHASE, 0, 0xabcd, &frame, &mut regs);
    assert_eq!(rc, ReasonCode::InstallContext);
    assert_eq!(regs.exception_reg, 0xabcd);
    assert_eq!(regs.selector_reg, 0);
    assert_eq!(regs.ip, 107);
}

#[test]
fn cleanup_installs_context_for_catch_pad() {
    let frame = frame_with_action(115, true, 1);
    let mut regs = fresh_regs();
    let rc = personality(
        UNWIND_VERSION,
        UA_CLEANUP_PHASE | UA_HANDLER_FRAME,
        0,
        0x1234,
        &frame,
        &mut regs,
    );
    assert_eq!(rc, ReasonCode::InstallContext);
    assert_eq!(regs.exception_reg, 0x1234);
    assert_eq!(regs.selector_reg, 0);
    assert_eq!(regs.ip, 107);
}

#[test]
fn cleanup_continues_past_frame_without_interest() {
    let frame = frame_with_action(150, true, 0);
    let mut regs = fresh_regs();
    let rc = personality(UNWIND_VERSION, UA_CLEANUP_PHASE, 0, 0xabcd, &frame, &mut regs);
    assert_eq!(rc, ReasonCode::ContinueUnwind);
    assert_eq!(regs, fresh_regs());
}

#[test]
fn unknown_version_is_fatal_in_either_phase() {
    let frame = frame_with_action(115, true, 0);
    let mut regs = fresh_regs();
    assert_eq!(
        personality(3, UA_SEARCH_PHASE, 0, 0, &frame, &mut regs),
        ReasonCode::FatalPhase1Error
    );
    assert_eq!(
        personality(0, UA_CLEANUP_PHASE, 0, 0, &frame, &mut regs),
        ReasonCode::FatalPhase1Error
    );
}

#[test]
fn malformed_metadata_is_fatal_per_phase() {
    // Truncated action chain: the decoder resolves Terminate.
    let frame = Frame {
        ip: 115,
        ip_before_instr: true,
        func_start: 100,
        text_start: 0,
        data_start: 0,
        lsda: vec![0xff, 0xff, 4, 10, 10, 7, 9],
    };
    let mut regs = fresh_regs();
    assert_eq!(
        personality(UNWIND_VERSION, UA_SEARCH_PHASE, 0, 0, &frame, &mut regs),
        ReasonCode::FatalPhase1Error
    );
    assert_eq!(
        personality(UNWIND_VERSION, UA_CLEANUP_PHASE, 0, 0, &frame, &mut regs),
        ReasonCode::FatalPhase2Error
    );
    assert_eq!(regs, fresh_regs());
}

#[test]
fn undecodable_metadata_is_fatal() {
    // A decode failure aborts whichever phase is running.
    let frame = Frame {
        ip: 115,
        ip_before_instr: true,
        func_start: 100,
        text_start: 0,
        data_start: 0,
        lsda: vec![0xff, 0xff, 0x80],
    };
    let mut regs = fresh_regs();
    assert_eq!(
        personality(UNWIND_VERSION, UA_SEARCH_PHASE, 0, 0, &frame, &mut regs),
        ReasonCode::FatalPhase1Error
    );
    assert_eq!(
        personality(UNWIND_VERSION, UA_CLEANUP_PHASE, 0, 0, &frame, &mut regs),
        ReasonCode::FatalPhase2Error
    );
    assert_eq!(regs, fresh_regs());
}

#[test]
fn return_address_is_adjusted_down_one_byte() {
    // The record covers [10, 20).  A return address of exactly
    // func_start + 20 points one past the last covered call, and after
    // the one-byte adjustment it still falls in the range; the same
    // address taken as a precise pointer falls outside.
    let ret_addr = frame_with_action(120, false, 0);
    let precise = frame_with_action(120, true, 0);
    let mut regs = fresh_regs();
    assert_eq!(
        personality(UNWIND_VERSION, UA_CLEANUP_PHASE, 0, 0, &ret_addr, &mut regs),
        ReasonCode::InstallContext
    );
    assert_eq!(
        personality(UNWIND_VERSION, UA_CLEANUP_PHASE, 0, 0, &precise, &mut regs),
        ReasonCode::ContinueUnwind
    );
}

#[test]
fn zero_return_address_is_fatal() {
    let frame = Frame {
        ip: 0,
        ip_before_instr: false,
        func_start: 0,
        text_start: 0,
        data_start: 0,
        lsda: vec![],
    };
    let mut regs = fresh_regs();
    assert_eq!(
        personality(UNWIND_VERSION, UA_SEARCH_PHASE, 0, 0, &frame, &mut regs),
        ReasonCode::FatalPhase1Error
    );
}
