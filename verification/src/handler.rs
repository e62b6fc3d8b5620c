//! The composed execution handler: given a composed context (observer plus
//! inner execution context) and a root frame request, drives a transaction
//! end-to-end with full instrumentation wired in — frame creation through
//! the lifecycle wrapper, nested requests recursing through it, and every
//! resolved outcome flowing back through the exit post-hook before it
//! reaches its parent.
//!
//! Its contract carries the global pairing law: when a run completes, the
//! frame-correlation stack has drained, the trace's residual is empty, and
//! every frame entry that was not overridden has exactly one matching
//! frame exit, paired in LIFO order.

use vstd::prelude::*;

use crate::ctx::InspectorCtx;
use crate::frame::{EngineError, EngineFrame, FrameOrResultGen, FrameTagged, InspectorEthFrame};
use crate::trace::{
    exit_count, lemma_frame_hook_pairing, lemma_stack_after_enter, lemma_stack_after_exit,
    lemma_stack_after_neutral, lemma_stack_after_override, lemma_stack_after_step_suffix,
    pushed_enter_count, stack_after, TraceEvent,
};
use crate::types::{FrameInput, FrameInputV, FrameResult};

verus! {

/// The instrumented execution handler.
pub struct InspectorHandler;

/// Creates the instrumented execution handler.
pub fn inspector_handler() -> (r: InspectorHandler)
    ensures
        r == InspectorHandler,
{
    InspectorHandler
}

impl InspectorHandler {
    /// Runs one transaction end-to-end. `fuel` bounds the number of
    /// engine interactions the driver will make; a run that does not
    /// complete within it is abandoned with `Ok(None)`, with at least the
    /// root frame still open, and an engine error is passed through
    /// unchanged. Whatever the outcome, the caller's trace is only ever
    /// extended and the correlation stack keeps matching the trace's
    /// residual. On completion (`Ok(Some(..))`) the stack has drained and
    /// the residual is empty, so non-overridden frame entries pair
    /// one-to-one, in LIFO order, with frame exits; with no overrides,
    /// entry and exit hooks fired equally often.
    pub fn run<CTX, F>(&self, ctx: &mut CTX, first_input: FrameInput, fuel: usize) -> (r: Result<
        Option<FrameResult>,
        EngineError,
    >) where CTX: InspectorCtx, F: EngineFrame<CTX>
        requires
            crate::ctx::frame_correspondence(old(ctx)),
            old(ctx).frame_stack().len() == 0,
        ensures
            old(ctx).trace().len() <= final(ctx).trace().len(),
            crate::trace::trace_extends(
                old(ctx).trace(),
                final(ctx).trace(),
                final(ctx).trace().len() - old(ctx).trace().len(),
            ),
            stack_after(final(ctx).trace()) == Some(final(ctx).frame_stack()),
            r matches Ok(None) ==> final(ctx).frame_stack().len() >= 1,
            r matches Ok(Some(_)) ==> {
                &&& final(ctx).frame_stack().len() == 0
                &&& stack_after(final(ctx).trace()) == Some(Seq::<FrameInputV>::empty())
                &&& pushed_enter_count(final(ctx).trace()) == exit_count(final(ctx).trace())
                &&& crate::trace::no_overrides(final(ctx).trace()) ==> crate::trace::enter_count(
                    final(ctx).trace(),
                ) == exit_count(final(ctx).trace())
            },
    {
        let ghost t_start = ctx.trace();
        let ghost s_start = ctx.frame_stack();
        proof {
            assert(s_start =~= Seq::<FrameInputV>::empty());
        }
        let first = InspectorEthFrame::<F>::init_first(ctx, first_input);
        let mut frames: Vec<InspectorEthFrame<F>> = Vec::new();
        match first {
            Err(e) => {
                proof {
                    let t1 = ctx.trace();
                    match t1.last() {
                        TraceEvent::FrameEnter { input, .. } => {
                            lemma_stack_after_enter(t_start, s_start, input);
                            assert(t_start.push(t1.last()) =~= t1);
                        },
                        _ => {
                            assert(false);
                        },
                    }
                }
                return Err(e);
            },
            Ok(FrameOrResultGen::Result(res)) => {
                proof {
                    Self::lemma_resolved_creation(t_start, s_start, ctx.trace());
                    assert(ctx.frame_stack() =~= Seq::<FrameInputV>::empty());
                    lemma_frame_hook_pairing(ctx.trace());
                }
                return Ok(Some(res));
            },
            Ok(FrameOrResultGen::Frame(f)) => {
                proof {
                    let t1 = ctx.trace();
                    let e1 = t1[t_start.len() as int];
                    match e1 {
                        TraceEvent::FrameEnter { input, .. } => {
                            lemma_stack_after_enter(t_start, s_start, input);
                            lemma_stack_after_neutral(t_start.push(e1), t1.last());
                            assert(t_start.push(e1).push(t1.last()) =~= t1);
                        },
                        _ => {
                            assert(false);
                        },
                    }
                }
                frames.push(f);
            },
        }
        let mut fuel_left: usize = fuel;
        loop
            invariant
                t_start == old(ctx).trace(),
                1 <= frames@.len(),
                ctx.frame_stack().len() == frames@.len(),
                stack_after(ctx.trace()) == Some(ctx.frame_stack()),
                t_start.len() <= ctx.trace().len(),
                crate::trace::trace_extends(
                    t_start,
                    ctx.trace(),
                    ctx.trace().len() - t_start.len(),
                ),
                forall|i: int|
                    0 <= i < frames@.len() ==> (#[trigger] frames@[i].kind())
                        == ctx.frame_stack()[i].kind(),
            decreases fuel_left,
        {
            if fuel_left == 0 {
                return Ok(None);
            }
            fuel_left = fuel_left - 1;
            let ghost frames0 = frames@;
            let popped = frames.pop();
            let mut cur = match popped {
                Some(f) => f,
                None => vstd::pervasive::unreached(),
            };
            let ghost t_a = ctx.trace();
            let ghost s_a = ctx.frame_stack();
            proof {
                assert(cur.kind() == s_a[s_a.len() - 1].kind());
            }
            let stepped = cur.run(ctx);
            proof {
                lemma_stack_after_step_suffix(t_a, ctx.trace());
                crate::trace::lemma_trace_extends_trans(t_start, t_a, ctx.trace());
            }
            let ghost t_b = ctx.trace();
            match stepped {
                Err(e) => {
                    return Err(e);
                },
                Ok(FrameOrResultGen::Frame(next_input)) => {
                    let created = cur.init(ctx, next_input);
                    match created {
                        Err(e) => {
                            proof {
                                let t1 = ctx.trace();
                                match t1.last() {
                                    TraceEvent::FrameEnter { input, .. } => {
                                        lemma_stack_after_enter(t_b, s_a, input);
                                        assert(t_b.push(t1.last()) =~= t1);
                                    },
                                    _ => {
                                        assert(false);
                                    },
                                }
                                crate::trace::lemma_trace_extends_trans(t_start, t_b, t1);
                            }
                            return Err(e);
                        },
                        Ok(FrameOrResultGen::Frame(child)) => {
                            proof {
                                let t1 = ctx.trace();
                                let e1 = t1[t_b.len() as int];
                                match e1 {
                                    TraceEvent::FrameEnter { input, .. } => {
                                        lemma_stack_after_enter(t_b, s_a, input);
                                        lemma_stack_after_neutral(t_b.push(e1), t1.last());
                                        assert(t_b.push(e1).push(t1.last()) =~= t1);
                                    },
                                    _ => {
                                        assert(false);
                                    },
                                }
                                crate::trace::lemma_trace_extends_trans(t_start, t_b, t1);
                            }
                            frames.push(cur);
                            frames.push(child);
                        },
                        Ok(FrameOrResultGen::Result(res)) => {
                            proof {
                                Self::lemma_resolved_creation(t_b, s_a, ctx.trace());
                                crate::trace::lemma_trace_extends_trans(t_start, t_b, ctx.trace());
                            }
                            let folded = cur.fold_resolved(ctx, res);
                            match folded {
                                Err(e) => {
                                    return Err(e);
                                },
                                Ok(()) => {},
                            }
                            frames.push(cur);
                        },
                    }
                },
                Ok(FrameOrResultGen::Result(res)) => {
                    if frames.len() == 0 {
                        let mut res = res;
                        let finished = InspectorEthFrame::<F>::final_return(ctx, &mut res);
                        match finished {
                            Err(_) => vstd::pervasive::unreached(),
                            Ok(()) => {},
                        }
                        proof {
                            let t1 = ctx.trace();
                            match t1.last() {
                                TraceEvent::FrameExit { outcome, .. } => {
                                    lemma_stack_after_exit(t_b, s_a, outcome);
                                },
                                _ => {
                                    assert(false);
                                },
                            }
                            assert(t_b.push(t1.last()) =~= t1);
                            assert(t1.subrange(0, t_b.len() as int) =~= t_b);
                            assert(s_a.drop_last() =~= Seq::<FrameInputV>::empty());
                            assert(ctx.frame_stack() =~= Seq::<FrameInputV>::empty());
                            lemma_frame_hook_pairing(t1);
                            crate::trace::lemma_trace_extends_trans(t_start, t_b, t1);
                        }
                        return Ok(Some(res));
                    } else {
                        let popped_parent = frames.pop();
                        let mut parent = match popped_parent {
                            Some(f) => f,
                            None => vstd::pervasive::unreached(),
                        };
                        let folded = parent.return_result(ctx, res);
                        proof {
                            let t1 = ctx.trace();
                            match t1.last() {
                                TraceEvent::FrameExit { outcome, .. } => {
                                    lemma_stack_after_exit(t_b, s_a, outcome);
                                    assert(t_b.push(
                                        TraceEvent::FrameExit { input: s_a.last(), outcome },
                                    ) =~= t1);
                                },
                                _ => {
                                    assert(false);
                                },
                            }
                            crate::trace::lemma_trace_extends_trans(t_start, t_b, t1);
                        }
                        match folded {
                            Err(e) => {
                                return Err(e);
                            },
                            Ok(()) => {},
                        }
                        frames.push(parent);
                        proof {
                            assert forall|i: int| 0 <= i < frames@.len() implies (
                            #[trigger] frames@[i].kind()) == ctx.frame_stack()[i].kind() by {
                                if i < frames@.len() - 1 {
                                    assert(frames@[i] == frames0[i]);
                                }
                            }
                        }
                    }
                },
            }
        }
    }

    /// The two shapes a resolved frame creation leaves behind — an
    /// override (one entry event, nothing pushed) or an engine-immediate
    /// resolution (entry and exit, push and pop) — both leave the
    /// correlation stack where it was.
    proof fn lemma_resolved_creation(
        t0: Seq<TraceEvent>,
        s0: Seq<FrameInputV>,
        t1: Seq<TraceEvent>,
    )
        requires
            stack_after(t0) == Some(s0),
            ({
                ||| {
                    &&& crate::trace::trace_extends(t0, t1, 1)
                    &&& t1.last() matches TraceEvent::FrameEnter { outcome, .. }
                        && outcome is Some
                }
                ||| {
                    &&& crate::trace::trace_extends(t0, t1, 2)
                    &&& t1[t0.len() as int] matches TraceEvent::FrameEnter {
                        input,
                        outcome: None,
                    } && t1.last() matches TraceEvent::FrameExit { input: exit_input, .. }
                        && exit_input == input
                }
            }),
        ensures
            stack_after(t1) == Some(s0),
    {
        if t1.len() == t0.len() + 1 {
            match t1.last() {
                TraceEvent::FrameEnter { input, outcome } => {
                    match outcome {
                        Some(o) => {
                            lemma_stack_after_override(t0, s0, input, o);
                            assert(t0.push(t1.last()) =~= t1);
                        },
                        None => {
                            assert(false);
                        },
                    }
                },
                _ => {
                    assert(false);
                },
            }
        } else {
            let e1 = t1[t0.len() as int];
            match e1 {
                TraceEvent::FrameEnter { input, outcome } => {
                    match t1.last() {
                        TraceEvent::FrameExit { input: exit_input, outcome: exit_outcome } => {
                            lemma_stack_after_enter(t0, s0, input);
                            lemma_stack_after_exit(t0.push(e1), s0.push(input), exit_outcome);
                            assert(t0.push(e1).push(t1.last()) =~= t1);
                            assert(s0.push(input).drop_last() =~= s0);
                        },
                        _ => {
                            assert(false);
                        },
                    }
                },
                _ => {
                    assert(false);
                },
            }
        }
    }
}

} // verus!
