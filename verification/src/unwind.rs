//! A model of the native unwinder's two-phase frame walk, driving the
//! engine end to end.
//!
//! The native runtime's low-level primitives — walking real machine
//! frames, reading registers — are outside this engine; what is modelled
//! here is its fixed contract: it calls the personality routine once
//! per frame in a search phase, then again in a cleanup phase, and
//! follows the answers.  [`raise`] seals a payload into an envelope and
//! performs that walk over a stack of frame contexts, producing both an
//! outcome and the exact trace of events: which frames were visited in
//! which phase, which cleanup landing pads ran, and where the payload
//! or the envelope ended up.
//!
//! The walk is a pure function of the stack and payload it is given:
//! two raises on two independent stacks share no state and cannot
//! interfere.  Its contract pins the full trace, and with it the
//! end-to-end laws: a caught payload arrives at the nearest handler
//! unchanged and the envelope is reclaimed exactly once; an uncaught
//! exception runs every cleanup obligation exactly once, in stack
//! order, and only then is the envelope disposed of.

use vstd::prelude::*;

use crate::eh::{DecodeError, EHAction};
use crate::exception;
use crate::exception::{CleanupVerdict, ExceptionObject, RUST_EXCEPTION_CLASS};
use crate::personality;
use crate::personality::{
    Frame,
    ReasonCode,
    Registers,
    UA_CLEANUP_PHASE,
    UA_HANDLER_FRAME,
    UA_SEARCH_PHASE,
    UNWIND_VERSION,
    spec_frame_eh_action,
    spec_personality_code,
};

verus! {

/// One observable step of an unwind, in the order it happened.
#[derive(Clone, Copy, Debug, PartialEq, Eq, Structural)]
pub enum UnwindEvent {
    /// The search phase asked this frame, and got this answer.
    SearchVisit { frame: usize, code: ReasonCode },
    /// The cleanup phase asked this frame, and got this answer.
    CleanupVisit { frame: usize, code: ReasonCode },
    /// Control transferred into this frame's cleanup landing pad; the
    /// pad ran and handed control back to the unwinder.
    CleanupRun { frame: usize, pad: u64 },
    /// Control transferred into the handler frame's catch landing pad,
    /// which reclaimed the envelope and received the payload.
    PayloadDelivered { frame: usize, pad: u64 },
    /// No frame claimed the exception: the envelope's cleanup hook
    /// fired, once, after every cleanup pad had run.
    EnvelopeDisposed,
}

/// How a raise ended.
#[derive(Debug)]
pub enum RaiseOutcome<T> {
    /// A frame declared a handler: its catch landing pad received the
    /// payload.
    Caught { frame: usize, landing_pad: u64, payload: T },
    /// No frame on the stack declared a handler: after all cleanup
    /// obligations ran, the envelope was disposed of — at this point
    /// the process would abort, not continue.
    Uncaught,
    /// A phase aborted: unrecognised protocol version or malformed
    /// metadata.
    Fatal { code: ReasonCode },
}

/// Outcome and full event trace of one raise.
#[derive(Debug)]
pub struct UnwindRun<T> {
    /// How the raise ended.
    pub outcome: RaiseOutcome<T>,
    /// Every observable step, in order.
    pub trace: Vec<UnwindEvent>,
}

/// The action frame `i` of the stack resolves to.
pub open spec fn frame_act(stack: Seq<Frame>, i: int) -> Result<EHAction, DecodeError> {
    spec_frame_eh_action(stack[i])
}

/// Whether a resolved action lets the search phase keep walking: the
/// frame is of no interest, or owes only cleanup work.
pub open spec fn continues_search(act: Result<EHAction, DecodeError>) -> bool {
    act matches Result::Ok(EHAction::NoAction) || act matches Result::Ok(EHAction::Cleanup(_))
}

/// The first frame at or above `from` at which the search phase stops:
/// a handler, malformed metadata, or a decode failure.  `None` when
/// every remaining frame lets the search continue.
pub open spec fn search_stop(stack: Seq<Frame>, from: int) -> Option<int>
    decreases stack.len() - from,
{
    if from < 0 || from >= stack.len() {
        Option::None
    } else if !continues_search(frame_act(stack, from)) {
        Option::Some(from)
    } else {
        search_stop(stack, from + 1)
    }
}

/// The search-phase visits of frames `0 .. n`, in walk order.
pub open spec fn search_events(stack: Seq<Frame>, n: int) -> Seq<UnwindEvent>
    decreases n,
{
    if n <= 0 {
        Seq::empty()
    } else {
        search_events(stack, n - 1) + seq![
            UnwindEvent::SearchVisit {
                frame: (n - 1) as usize,
                code: spec_personality_code(
                    UNWIND_VERSION,
                    UA_SEARCH_PHASE,
                    frame_act(stack, n - 1),
                ),
            },
        ]
    }
}

/// The cleanup-phase visits of frames `0 .. n`, in walk order, for a
/// walk on which every one of those frames continues the search: a
/// frame owing cleanup work gets its context installed and its landing
/// pad run; any other is skipped.
pub open spec fn cleanup_events(stack: Seq<Frame>, n: int) -> Seq<UnwindEvent>
    decreases n,
{
    if n <= 0 {
        Seq::empty()
    } else {
        cleanup_events(stack, n - 1) + (match frame_act(stack, n - 1) {
            Result::Ok(EHAction::Cleanup(pad)) => seq![
                UnwindEvent::CleanupVisit {
                    frame: (n - 1) as usize,
                    code: ReasonCode::InstallContext,
                },
                UnwindEvent::CleanupRun { frame: (n - 1) as usize, pad },
            ],
            _ => seq![
                UnwindEvent::CleanupVisit {
                    frame: (n - 1) as usize,
                    code: ReasonCode::ContinueUnwind,
                },
            ],
        })
    }
}

/// The frame the search stops at is the nearest one with a claim:
/// every frame below it lets the search continue, so a handler that
/// catches is the nearest enclosing one that declares a handler.
pub proof fn lemma_search_stops_at_nearest(stack: Seq<Frame>, from: int)
    requires
        0 <= from <= stack.len(),
    ensures
        search_stop(stack, from) matches Option::Some(k) ==> from <= k < stack.len()
            && !continues_search(frame_act(stack, k)) && (forall|j: int|
            from <= j < k ==> continues_search(#[trigger] frame_act(stack, j))),
    decreases stack.len() - from,
{
    if from < stack.len() && continues_search(frame_act(stack, from)) {
        lemma_search_stops_at_nearest(stack, from + 1);
    }
}

/// Whether an event consumes the envelope: a delivery to catch code,
/// or the disposal of an unclaimed exception.
pub open spec fn is_reclaim(e: UnwindEvent) -> bool {
    e matches UnwindEvent::PayloadDelivered { .. } || e matches UnwindEvent::EnvelopeDisposed
}

/// How many events of a trace consume the envelope.
pub open spec fn reclaim_count(trace: Seq<UnwindEvent>) -> nat
    decreases trace.len(),
{
    if trace.len() == 0 {
        0
    } else {
        reclaim_count(trace.drop_last()) + (if is_reclaim(trace.last()) {
            1nat
        } else {
            0nat
        })
    }
}

/// Reclaim counts add up across concatenation.
proof fn lemma_reclaim_count_concat(a: Seq<UnwindEvent>, b: Seq<UnwindEvent>)
    ensures
        reclaim_count(a + b) == reclaim_count(a) + reclaim_count(b),
    decreases b.len(),
{
    if b.len() == 0 {
        assert(a + b =~= a);
    } else {
        lemma_reclaim_count_concat(a, b.drop_last());
        assert((a + b).drop_last() =~= a + b.drop_last());
        assert((a + b).last() == b.last());
    }
}

/// No search-phase visit consumes the envelope.
proof fn lemma_no_reclaim_in_search(stack: Seq<Frame>, n: int)
    ensures
        reclaim_count(search_events(stack, n)) == 0,
    decreases n,
{
    if n > 0 {
        lemma_no_reclaim_in_search(stack, n - 1);
        let e = UnwindEvent::SearchVisit {
            frame: (n - 1) as usize,
            code: spec_personality_code(UNWIND_VERSION, UA_SEARCH_PHASE, frame_act(stack, n - 1)),
        };
        assert(seq![e].drop_last() =~= Seq::<UnwindEvent>::empty());
        assert(reclaim_count(Seq::<UnwindEvent>::empty()) == 0);
        assert(reclaim_count(seq![e]) == 0);
        lemma_reclaim_count_concat(search_events(stack, n - 1), seq![e]);
    }
}

/// No cleanup-phase visit or landing-pad run consumes the envelope:
/// a cleanup pad hands control back to the walk with the exception
/// still in flight.
proof fn lemma_no_reclaim_in_cleanup(stack: Seq<Frame>, n: int)
    ensures
        reclaim_count(cleanup_events(stack, n)) == 0,
    decreases n,
{
    if n > 0 {
        lemma_no_reclaim_in_cleanup(stack, n - 1);
        match frame_act(stack, n - 1) {
            Result::Ok(EHAction::Cleanup(pad)) => {
                let visit = UnwindEvent::CleanupVisit {
                    frame: (n - 1) as usize,
                    code: ReasonCode::InstallContext,
                };
                let run = UnwindEvent::CleanupRun { frame: (n - 1) as usize, pad };
                let evs = seq![visit, run];
                assert(evs.drop_last() =~= seq![visit]);
                assert(seq![visit].drop_last() =~= Seq::<UnwindEvent>::empty());
                assert(reclaim_count(Seq::<UnwindEvent>::empty()) == 0);
                assert(reclaim_count(seq![visit]) == 0);
                assert(reclaim_count(evs) == 0);
                lemma_reclaim_count_concat(cleanup_events(stack, n - 1), evs);
            },
            _ => {
                let visit = UnwindEvent::CleanupVisit {
                    frame: (n - 1) as usize,
                    code: ReasonCode::ContinueUnwind,
                };
                assert(seq![visit].drop_last() =~= Seq::<UnwindEvent>::empty());
                assert(reclaim_count(Seq::<UnwindEvent>::empty()) == 0);
                assert(reclaim_count(seq![visit]) == 0);
                lemma_reclaim_count_concat(cleanup_events(stack, n - 1), seq![visit]);
            },
        }
    }
}

/// Round trip, caught: when the search stops at a handler, the trace
/// [`raise`] is bound to ends with the one payload delivery, and no
/// other event consumes the envelope — it is reclaimed exactly once,
/// by the handler's catch code.
pub proof fn lemma_envelope_reclaimed_once_caught(stack: Seq<Frame>, k: int, pad: u64)
    requires
        search_stop(stack, 0) == Option::Some(k),
        frame_act(stack, k) == Result::<EHAction, DecodeError>::Ok(EHAction::Catch(pad)),
    ensures
        reclaim_count(
            search_events(stack, k + 1) + cleanup_events(stack, k) + seq![
                UnwindEvent::CleanupVisit { frame: k as usize, code: ReasonCode::InstallContext },
                UnwindEvent::PayloadDelivered { frame: k as usize, pad },
            ],
        ) == 1,
{
    let visit = UnwindEvent::CleanupVisit { frame: k as usize, code: ReasonCode::InstallContext };
    let delivered = UnwindEvent::PayloadDelivered { frame: k as usize, pad };
    let tail = seq![visit, delivered];
    lemma_no_reclaim_in_search(stack, k + 1);
    lemma_no_reclaim_in_cleanup(stack, k);
    lemma_reclaim_count_concat(search_events(stack, k + 1), cleanup_events(stack, k));
    lemma_reclaim_count_concat(search_events(stack, k + 1) + cleanup_events(stack, k), tail);
    assert(tail.drop_last() =~= seq![visit]);
    assert(seq![visit].drop_last() =~= Seq::<UnwindEvent>::empty());
    assert(reclaim_count(Seq::<UnwindEvent>::empty()) == 0);
    assert(reclaim_count(seq![visit]) == 0);
    assert(reclaim_count(tail) == 1);
}

/// Single cleanup, uncaught: when no frame claims the exception, the
/// trace [`raise`] is bound to runs every cleanup obligation first and
/// ends with the one disposal — the cleanup hook fires exactly once,
/// after all cleanup landing pads, never before.
pub proof fn lemma_envelope_reclaimed_once_uncaught(stack: Seq<Frame>)
    requires
        search_stop(stack, 0) is None,
    ensures
        reclaim_count(
            search_events(stack, stack.len() as int) + cleanup_events(stack, stack.len() as int)
                + seq![UnwindEvent::EnvelopeDisposed],
        ) == 1,
{
    let n = stack.len() as int;
    lemma_no_reclaim_in_search(stack, n);
    lemma_no_reclaim_in_cleanup(stack, n);
    lemma_reclaim_count_concat(search_events(stack, n), cleanup_events(stack, n));
    lemma_reclaim_count_concat(
        search_events(stack, n) + cleanup_events(stack, n),
        seq![UnwindEvent::EnvelopeDisposed],
    );
    assert(seq![UnwindEvent::EnvelopeDisposed].drop_last() =~= Seq::<UnwindEvent>::empty());
    assert(reclaim_count(Seq::<UnwindEvent>::empty()) == 0);
    assert(reclaim_count(seq![UnwindEvent::EnvelopeDisposed]) == 1);
}

/// The phase bits as the engine tests them: searching is exactly the
/// invocations whose action mask carries [`UA_SEARCH_PHASE`].
proof fn lemma_phase_bits()
    ensures
        UA_SEARCH_PHASE & UA_SEARCH_PHASE != 0,
        UA_CLEANUP_PHASE & UA_SEARCH_PHASE == 0,
        (UA_CLEANUP_PHASE | UA_HANDLER_FRAME) & UA_SEARCH_PHASE == 0,
{
    assert(1i32 & 1i32 != 0) by (bit_vector);
    assert(2i32 & 1i32 == 0) by (bit_vector);
    assert((2i32 | 4i32) & 1i32 == 0) by (bit_vector);
}

/// A walk that continued through every frame below `k` and stops at
/// `k` stops there first.
proof fn lemma_search_stop_at(stack: Seq<Frame>, from: int, k: int)
    requires
        0 <= from <= k < stack.len(),
        forall|j: int| from <= j < k ==> continues_search(#[trigger] frame_act(stack, j)),
        !continues_search(frame_act(stack, k)),
    ensures
        search_stop(stack, from) == Option::Some(k),
    decreases k - from,
{
    if from < k {
        lemma_search_stop_at(stack, from + 1, k);
    }
}

/// A walk that continues through every frame stops nowhere.
proof fn lemma_search_stop_none(stack: Seq<Frame>, from: int)
    requires
        0 <= from <= stack.len(),
        forall|j: int| from <= j < stack.len() ==> continues_search(
            #[trigger] frame_act(stack, j),
        ),
    ensures
        search_stop(stack, from) is None,
    decreases stack.len() - from,
{
    if from < stack.len() {
        lemma_search_stop_none(stack, from + 1);
    }
}

/// What the search phase ended with.
enum SearchOutcome {
    /// Every frame continued: the stack holds no handler.
    NoHandler,
    /// The search stopped at this frame, a handler.
    Handler(usize),
    /// The search aborted at the first fatal frame.
    Aborted(ReasonCode),
}

/// Phase one: walk the stack from the most recent frame upward, asking
/// each frame's personality whether it claims the exception.  No
/// machine state is touched — the search only classifies.
fn search_phase(
    stack: &Vec<Frame>,
    exception_ptr: u64,
    trace: &mut Vec<UnwindEvent>,
    regs: &mut Registers,
) -> (r: SearchOutcome)
    ensures
        *final(regs) == *old(regs),
        r matches SearchOutcome::NoHandler ==> search_stop(stack@, 0) is None && final(trace)@
            == old(trace)@ + search_events(stack@, stack@.len() as int) && (forall|j: int|
            0 <= j < stack@.len() ==> continues_search(#[trigger] frame_act(stack@, j))),
        r matches SearchOutcome::Handler(k) ==> k < stack@.len() && search_stop(stack@, 0)
            == Option::Some(k as int) && (frame_act(stack@, k as int) matches Result::Ok(
            EHAction::Catch(pad),
        )) && final(trace)@ == old(trace)@ + search_events(stack@, k as int + 1) && (forall|
            j: int,
        |
            0 <= j < k ==> continues_search(#[trigger] frame_act(stack@, j))),
        r matches SearchOutcome::Aborted(code) ==> code == ReasonCode::FatalPhase1Error && (
        search_stop(stack@, 0) matches Option::Some(k) && !(frame_act(stack@, k) matches
            Result::Ok(EHAction::Catch(_))) && final(trace)@ == old(trace)@ + search_events(
            stack@,
            k + 1,
        )),
{
    let n: usize = stack.len();
    let mut i: usize = 0;
    while i < n
        invariant
            i <= n,
            n == stack@.len(),
            forall|j: int| 0 <= j < i ==> continues_search(#[trigger] frame_act(stack@, j)),
            trace@ == old(trace)@ + search_events(stack@, i as int),
            *regs == *old(regs),
        decreases n - i,
    {
        let rc = personality::personality(
            UNWIND_VERSION,
            UA_SEARCH_PHASE,
            RUST_EXCEPTION_CLASS,
            exception_ptr,
            &stack[i],
            regs,
        );
        trace.push(UnwindEvent::SearchVisit { frame: i, code: rc });
        proof {
            lemma_phase_bits();
            assert(trace@ =~= old(trace)@ + search_events(stack@, i as int + 1));
        }
        match rc {
            ReasonCode::ContinueUnwind => {
                i = i + 1;
            },
            ReasonCode::HandlerFound => {
                proof {
                    lemma_search_stop_at(stack@, 0, i as int);
                }
                return SearchOutcome::Handler(i);
            },
            _ => {
                proof {
                    lemma_search_stop_at(stack@, 0, i as int);
                }
                return SearchOutcome::Aborted(rc);
            },
        }
    }
    proof {
        lemma_search_stop_none(stack@, 0);
    }
    SearchOutcome::NoHandler
}

/// Phase two, below the handler: revisit frames `0 .. upto`, each of
/// which continued the search, and run the cleanup landing pad of each
/// frame that owes one.  Control transfers into the pad — modelled by
/// recording the pad the registers were aimed at — and comes back to
/// the walk.
fn run_cleanup_phase(
    stack: &Vec<Frame>,
    upto: usize,
    exception_ptr: u64,
    trace: &mut Vec<UnwindEvent>,
    regs: &mut Registers,
)
    requires
        upto <= stack@.len(),
        forall|j: int| 0 <= j < upto ==> continues_search(#[trigger] frame_act(stack@, j)),
    ensures
        final(trace)@ == old(trace)@ + cleanup_events(stack@, upto as int),
{
    let mut j: usize = 0;
    while j < upto
        invariant
            j <= upto,
            upto <= stack@.len(),
            forall|l: int| 0 <= l < upto ==> continues_search(#[trigger] frame_act(stack@, l)),
            trace@ == old(trace)@ + cleanup_events(stack@, j as int),
        decreases upto - j,
    {
        let rc = personality::personality(
            UNWIND_VERSION,
            UA_CLEANUP_PHASE,
            RUST_EXCEPTION_CLASS,
            exception_ptr,
            &stack[j],
            regs,
        );
        trace.push(UnwindEvent::CleanupVisit { frame: j, code: rc });
        proof {
            lemma_phase_bits();
        }
        match rc {
            ReasonCode::InstallContext => {
                trace.push(UnwindEvent::CleanupRun { frame: j, pad: regs.ip });
            },
            _ => {},
        }
        proof {
            assert(trace@ =~= old(trace)@ + cleanup_events(stack@, j as int + 1));
        }
        j = j + 1;
    }
}

/// Raises a payload over a stack of frame contexts: seals it into an
/// envelope tagged with this runtime's class, then performs the native
/// unwinder's two-phase walk.
///
/// The contract pins the whole behaviour.  When some frame stops the
/// search, the first one does.  If it is a handler, the payload — the
/// very value raised — is delivered to that frame's catch landing pad
/// after the cleanup pads of every earlier frame ran, in stack order,
/// and the envelope is reclaimed by exactly that delivery.  If it is a
/// fatal frame, the first phase aborts before any cleanup code runs.
/// When no frame stops the search, every cleanup obligation on the
/// stack runs, in stack order, and only after the last one does the
/// envelope's cleanup hook dispose of it.
#[verifier::rlimit(60)]
pub fn raise<T>(payload: T, stack: &Vec<Frame>) -> (run: UnwindRun<T>)
    ensures
        search_stop(stack@, 0) is None ==> run.outcome is Uncaught && run.trace@ == search_events(
            stack@,
            stack@.len() as int,
        ) + cleanup_events(stack@, stack@.len() as int) + seq![UnwindEvent::EnvelopeDisposed],
        search_stop(stack@, 0) matches Option::Some(k) ==> {
            &&& (frame_act(stack@, k) matches Result::Ok(EHAction::Catch(pad)) ==> run.outcome
                == (RaiseOutcome::Caught { frame: k as usize, landing_pad: pad, payload })
                && run.trace@ == search_events(stack@, k + 1) + cleanup_events(stack@, k) + seq![
                UnwindEvent::CleanupVisit {
                    frame: k as usize,
                    code: ReasonCode::InstallContext,
                },
                UnwindEvent::PayloadDelivered { frame: k as usize, pad },
            ])
            &&& (!(frame_act(stack@, k) matches Result::Ok(EHAction::Catch(_)))
                ==> run.outcome == (RaiseOutcome::<T>::Fatal { code: ReasonCode::FatalPhase1Error })
                && run.trace@ == search_events(stack@, k + 1))
        },
{
    let obj = ExceptionObject::new(exception::rust_exception_class(), payload);
    // The model carries no machine addresses; zero stands in for the
    // envelope pointer the registers would hand to a landing pad.
    let exception_ptr: u64 = 0;
    let mut regs = Registers { exception_reg: 0, selector_reg: 0, ip: 0 };
    let mut trace: Vec<UnwindEvent> = Vec::new();

    let search = search_phase(stack, exception_ptr, &mut trace, &mut regs);
    match search {
        SearchOutcome::Aborted(code) => {
            // Phase one aborted: no cleanup code has run, none will,
            // and the process cannot continue.
            UnwindRun { outcome: RaiseOutcome::Fatal { code }, trace }
        },
        SearchOutcome::NoHandler => {
            // No frame claims the exception.  The stack is walked once
            // more for its cleanup obligations; then — and only then —
            // the envelope's cleanup hook fires, and the process would
            // abort.
            let n: usize = stack.len();
            run_cleanup_phase(stack, n, exception_ptr, &mut trace, &mut regs);
            exception::dispose(obj);
            trace.push(UnwindEvent::EnvelopeDisposed);
            proof {
                assert(trace@ =~= search_events(stack@, stack@.len() as int) + cleanup_events(
                    stack@,
                    stack@.len() as int,
                ) + seq![UnwindEvent::EnvelopeDisposed]);
            }
            UnwindRun { outcome: RaiseOutcome::Uncaught, trace }
        },
        SearchOutcome::Handler(k) => {
            // Phase two: run the cleanup obligations below the handler,
            // then install the handler frame's catch context.
            run_cleanup_phase(stack, k, exception_ptr, &mut trace, &mut regs);
            let rc = personality::personality(
                UNWIND_VERSION,
                UA_CLEANUP_PHASE | UA_HANDLER_FRAME,
                RUST_EXCEPTION_CLASS,
                exception_ptr,
                &stack[k],
                &mut regs,
            );
            trace.push(UnwindEvent::CleanupVisit { frame: k, code: rc });
            proof {
                lemma_phase_bits();
            }
            let pad: u64 = regs.ip;
            // Control is now at the catch landing pad, whose code
            // reclaims the envelope; the class tag is this runtime's
            // own, so the claim succeeds and yields the payload.
            match exception::cleanup(obj) {
                CleanupVerdict::Claimed(p) => {
                    trace.push(UnwindEvent::PayloadDelivered { frame: k, pad });
                    proof {
                        assert(trace@ =~= search_events(stack@, k as int + 1) + cleanup_events(
                            stack@,
                            k as int,
                        ) + seq![
                            UnwindEvent::CleanupVisit {
                                frame: k,
                                code: ReasonCode::InstallContext,
                            },
                            UnwindEvent::PayloadDelivered { frame: k, pad },
                        ]);
                    }
                    UnwindRun {
                        outcome: RaiseOutcome::Caught { frame: k, landing_pad: pad, payload: p },
                        trace,
                    }
                },
                CleanupVerdict::ForeignDisposed => {
                    proof {
                        assert(false);
                    }
                    UnwindRun {
                        outcome: RaiseOutcome::Fatal { code: ReasonCode::FatalPhase2Error },
                        trace,
                    }
                },
            }
        },
    }
}

} // verus!
