//! End-to-end raises over modelled stacks: round trip, cleanup
//! ordering, independence and the fatal paths.

use enclave_rt::personality::{Frame, ReasonCode};
use enclave_rt::unwind::{raise, RaiseOutcome, UnwindEvent};

/// A frame whose function has no unwind metadata at all.
fn frame_none(func_start: u64) -> Frame {
    Frame {
        ip: func_start + 5,
        ip_before_instr: true,
        func_start,
        text_start: 0,
        data_start: 0,
        lsda: vec![],
    }
}

/// A frame owing cleanup work at `func_start + 7`.
fn frame_cleanup(func_start: u64) -> Frame {
    Frame {
        ip: func_start + 5,
        ip_before_instr: true,
        func_start,
        text_start: 0,
        data_start: 0,
        lsda: vec![0xff, 0xff, 4, 0, 16, 7, 0],
    }
}

/// A frame declaring a handler at `func_start + 7`.
fn frame_catch(func_start: u64) -> Frame {
    Frame {
        ip: func_start + 5,
        ip_before_instr: true,
        func_start,
        text_start: 0,
        data_start: 0,
        lsda: vec![0xff, 0xff, 4, 0, 16, 7, 1, 1, 0],
    }
}

/// A frame whose metadata cannot be decoded.
fn frame_malformed(func_start: u64) -> Frame {
    Frame {
        ip: func_start + 5,
        ip_before_instr: true,
        func_start,
        text_start: 0,
        data_start: 0,
        lsda: vec![0xff, 0xff, 0x80],
    }
}

#[test]
fn end_to_end_three_frames() {
    // F3 raises (innermost, no interest), F2 owes cleanup, F1 declares
    // a handler.  Search: F3 continue, F2 continue, F1 handler found.
    // Cleanup: F3 skipped, F2's pad runs, F1's catch receives the
    // payload.
    let stack = vec![frame_none(100), frame_cleanup(200), frame_catch(300)];
    let run = raise(String::from("P"), &stack);
    match run.outcome {
        RaiseOutcome::Caught { frame, landing_pad, payload } => {
            assert_eq!(frame, 2);
            assert_eq!(landing_pad, 307);
            assert_eq!(payload, "P");
        },
        _ => panic!("the handler frame must catch"),
    }
    let expected = vec![
        UnwindEvent::SearchVisit { frame: 0, code: ReasonCode::ContinueUnwind },
        UnwindEvent::SearchVisit { frame: 1, code: ReasonCode::ContinueUnwind },
        UnwindEvent::SearchVisit { frame: 2, code: ReasonCode::HandlerFound },
        UnwindEvent::CleanupVisit { frame: 0, code: ReasonCode::ContinueUnwind },
        UnwindEvent::CleanupVisit { frame: 1, code: ReasonCode::InstallContext },
        UnwindEvent::CleanupRun { frame: 1, pad: 207 },
        UnwindEvent::CleanupVisit { frame: 2, code: ReasonCode::InstallContext },
        UnwindEvent::PayloadDelivered { frame: 2, pad: 307 },
    ];
    assert_eq!(run.trace, expected);
}

#[test]
fn round_trip_payload_reaches_nearest_handler() {
    // Two enclosing handlers: the nearest one catches, and the payload
    // arrives identical.
    let stack = vec![frame_catch(100), frame_catch(200)];
    let run = raise(vec![10u8, 20, 30], &stack);
    match run.outcome {
        RaiseOutcome::Caught { frame, landing_pad, payload } => {
            assert_eq!(frame, 0);
            assert_eq!(landing_pad, 107);
            assert_eq!(payload, vec![10u8, 20, 30]);
        },
        _ => panic!("a declared handler must catch"),
    }
    // exactly one event consumes the envelope
    let reclaims = run
        .trace
        .iter()
        .filter(|e| {
            matches!(
                e,
                UnwindEvent::PayloadDelivered { .. } | UnwindEvent::EnvelopeDisposed
            )
        })
        .count();
    assert_eq!(reclaims, 1);
}

#[test]
fn uncaught_runs_every_cleanup_then_disposes_once() {
    // No handler anywhere: all cleanup pads run, in stack order, and
    // the envelope's cleanup hook fires exactly once, after them all.
    let stack = vec![frame_cleanup(100), frame_none(200), frame_cleanup(300)];
    let run = raise(0xdeadbeefu64, &stack);
    assert!(matches!(run.outcome, RaiseOutcome::Uncaught));
    let expected = vec![
        UnwindEvent::SearchVisit { frame: 0, code: ReasonCode::ContinueUnwind },
        UnwindEvent::SearchVisit { frame: 1, code: ReasonCode::ContinueUnwind },
        UnwindEvent::SearchVisit { frame: 2, code: ReasonCode::ContinueUnwind },
        UnwindEvent::CleanupVisit { frame: 0, code: ReasonCode::InstallContext },
        UnwindEvent::CleanupRun { frame: 0, pad: 107 },
        UnwindEvent::CleanupVisit { frame: 1, code: ReasonCode::ContinueUnwind },
        UnwindEvent::CleanupVisit { frame: 2, code: ReasonCode::InstallContext },
        UnwindEvent::CleanupRun { frame: 2, pad: 307 },
        UnwindEvent::EnvelopeDisposed,
    ];
    assert_eq!(run.trace, expected);
    // the disposal is the last event: every cleanup pad ran before it
    assert_eq!(run.trace.last(), Some(&UnwindEvent::EnvelopeDisposed));
}

#[test]
fn malformed_frame_aborts_search_before_any_cleanup() {
    let stack = vec![frame_cleanup(100), frame_malformed(200), frame_catch(300)];
    let run = raise(5u32, &stack);
    match run.outcome {
        RaiseOutcome::Fatal { code } => assert_eq!(code, ReasonCode::FatalPhase1Error),
        _ => panic!("malformed metadata must abort the search"),
    }
    let expected = vec![
        UnwindEvent::SearchVisit { frame: 0, code: ReasonCode::ContinueUnwind },
        UnwindEvent::SearchVisit { frame: 1, code: ReasonCode::FatalPhase1Error },
    ];
    assert_eq!(run.trace, expected);
    // no cleanup pad ran
    assert!(
        run.trace
            .iter()
            .all(|e| !matches!(e, UnwindEvent::CleanupRun { .. }))
    );
}

#[test]
fn independent_stacks_see_only_their_own_payloads() {
    // Two raise/catch sequences on two independent stacks: each catch
    // site sees exactly its own payload, and neither walk disturbs the
    // other — re-running either gives the identical trace.
    let stack_a = vec![frame_cleanup(100), frame_catch(200)];
    let stack_b = vec![frame_none(1000), frame_cleanup(2000), frame_catch(3000)];

    let run_a = raise(111u64, &stack_a);
    let run_b = raise(222u64, &stack_b);

    match run_a.outcome {
        RaiseOutcome::Caught { frame, payload, .. } => {
            assert_eq!(frame, 1);
            assert_eq!(payload, 111);
        },
        _ => panic!("stack A must catch"),
    }
    match run_b.outcome {
        RaiseOutcome::Caught { frame, payload, .. } => {
            assert_eq!(frame, 2);
            assert_eq!(payload, 222);
        },
        _ => panic!("stack B must catch"),
    }

    let again_a = raise(111u64, &stack_a);
    let again_b = raise(222u64, &stack_b);
    assert_eq!(run_a.trace, again_a.trace);
    assert_eq!(run_b.trace, again_b.trace);
}

#[test]
fn raise_over_empty_stack_disposes_the_envelope() {
    let stack: Vec<Frame> = vec![];
    let run = raise('x', &stack);
    assert!(matches!(run.outcome, RaiseOutcome::Uncaught));
    assert_eq!(run.trace, vec![UnwindEvent::EnvelopeDisposed]);
}
