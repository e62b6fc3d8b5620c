//! The frame lifecycle wrapper: decorates the engine's frame protocol
//! (create a first frame, create a nested frame, run a frame, finalize its
//! result) with the entry pre-hook, the interpreter-initialization hook
//! and the exit post-hook, and keeps the frame-correlation stack in step
//! with the trace.
//!
//! An entry pre-hook that overrides a frame returns before anything is
//! pushed: the override outcome is the frame's result verbatim, the
//! frame's run phase never executes, and no exit post-hook will fire for
//! it. A frame that is entered pushes exactly one stack entry, matched by
//! exactly one later exit.

use vstd::prelude::*;

use crate::ctx::InspectorCtx;
use crate::trace::{trace_extends, is_step_level, TraceEvent};
use crate::types::{FrameInput, FrameResult, Interpreter};

verus! {

/// An error of the underlying engine, passed through this layer unchanged
/// and never caught, reinterpreted or suppressed.
#[derive(Clone, Copy, PartialEq, Eq, Structural, Debug)]
pub struct EngineError {
    pub code: u64,
}

/// Either a spawned frame (ready to run) or an already resolved result.
#[derive(Debug)]
pub enum FrameOrResultGen<F, R> {
    Frame(F),
    Result(R),
}

/// A frame that knows which kind of request (call, creation, extended
/// creation) it answers.
pub trait FrameTagged {
    /// The kind of request this frame resolves.
    spec fn kind(&self) -> crate::types::FrameKind;
}

/// The engine's own frame machinery, an external collaborator. Creating a
/// frame either spawns an active interpreter or resolves immediately (for
/// example on a precondition failure); running an active frame yields
/// either the next nested frame request or the frame's final result.
///
/// Frame creation and result folding perform no instruction dispatch, so
/// they fire no hooks: they leave the trace and the correlation stack of
/// the surrounding context untouched. Running a frame dispatches
/// instructions through the instrumented table, so what it appends to the
/// trace decomposes into per-instruction groups, each matching the shape
/// of the wrapper the table assigns to its opcode — step-level events
/// only, never frame events — and it never moves the correlation stack.
/// An immediately resolved creation resolves the request it was given,
/// with an outcome of the same kind.
pub trait EngineFrame<CTX: InspectorCtx>: Sized + FrameTagged {
    /// Creates and initializes the first frame of an execution.
    fn init_first(ctx: &mut CTX, frame_input: FrameInput) -> (r: Result<
        FrameOrResultGen<(Self, Interpreter), FrameResult>,
        EngineError,
    >)
        ensures
            final(ctx).trace() == old(ctx).trace(),
            final(ctx).frame_stack() == old(ctx).frame_stack(),
            r matches Ok(FrameOrResultGen::Result(res)) ==> res@.kind() == frame_input@.kind(),
            r matches Ok(FrameOrResultGen::Frame(spawned)) ==> spawned.0.kind()
                == frame_input@.kind(),
    ;

    /// Creates a nested frame from this parent frame.
    fn init(&self, ctx: &mut CTX, frame_input: FrameInput) -> (r: Result<
        FrameOrResultGen<(Self, Interpreter), FrameResult>,
        EngineError,
    >)
        ensures
            final(ctx).trace() == old(ctx).trace(),
            final(ctx).frame_stack() == old(ctx).frame_stack(),
            r matches Ok(FrameOrResultGen::Result(res)) ==> res@.kind() == frame_input@.kind(),
            r matches Ok(FrameOrResultGen::Frame(spawned)) ==> spawned.0.kind()
                == frame_input@.kind(),
    ;

    /// Runs this frame until it requests a nested frame or resolves.
    fn run(&mut self, interp: &mut Interpreter, ctx: &mut CTX) -> (r: Result<
        FrameOrResultGen<FrameInput, FrameResult>,
        EngineError,
    >)
        ensures
            old(ctx).trace().len() <= final(ctx).trace().len(),
            trace_extends(
                old(ctx).trace(),
                final(ctx).trace(),
                final(ctx).trace().len() - old(ctx).trace().len(),
            ),
            forall|i: int|
                old(ctx).trace().len() <= i < final(ctx).trace().len() ==> is_step_level(
                    #[trigger] final(ctx).trace()[i],
                ),
            final(ctx).frame_stack() == old(ctx).frame_stack(),
            exists|n: nat|
                #[trigger] crate::table::instrumented_run_events(
                    old(ctx).trace(),
                    final(ctx).trace(),
                    n,
                ),
            final(self).kind() == old(self).kind(),
            r matches Ok(FrameOrResultGen::Result(res)) ==> res@.kind() == old(self).kind(),
    ;

    /// Folds a resolved child result into this parent frame.
    fn return_result(&mut self, ctx: &mut CTX, result: FrameResult) -> (r: Result<
        (),
        EngineError,
    >)
        ensures
            final(ctx).trace() == old(ctx).trace(),
            final(ctx).frame_stack() == old(ctx).frame_stack(),
            final(self).kind() == old(self).kind(),
    ;
}

/// A frame of the instrumented execution: the engine's frame plus the
/// interpreter it runs, stepped through the instrumented dispatch table.
pub struct InspectorEthFrame<F> {
    pub eth_frame: F,
    pub interpreter: Interpreter,
}

impl<F: FrameTagged> FrameTagged for InspectorEthFrame<F> {
    open spec fn kind(&self) -> crate::types::FrameKind {
        self.eth_frame.kind()
    }
}

impl<F> InspectorEthFrame<F> {
    /// Creates and initializes the first frame of an execution, with the
    /// entry pre-hook consulted first.
    ///
    /// If the pre-hook overrides, its outcome is the frame's result
    /// verbatim: the engine never runs, nothing is pushed onto the
    /// correlation stack and the interpreter-initialization hook never
    /// fires. Otherwise the (possibly hook-adjusted) input is pushed; an
    /// immediately resolved frame fires the exit post-hook at once,
    /// popping that entry again, while a spawned frame keeps it on the
    /// stack and fires the interpreter-initialization hook exactly once.
    pub fn init_first<CTX>(ctx: &mut CTX, frame_input: FrameInput) -> (r: Result<
        FrameOrResultGen<InspectorEthFrame<F>, FrameResult>,
        EngineError,
    >) where CTX: InspectorCtx, F: EngineFrame<CTX>
        ensures
            ({
                let t0 = old(ctx).trace();
                let t1 = final(ctx).trace();
                let s0 = old(ctx).frame_stack();
                let s1 = final(ctx).frame_stack();
                match r {
                    Ok(FrameOrResultGen::Result(res)) => {
                        ||| {
                            &&& trace_extends(t0, t1, 1)
                            &&& t1.last() matches TraceEvent::FrameEnter { outcome, .. }
                                && outcome == Some(res@)
                            &&& s1 == s0
                        }
                        ||| {
                            &&& trace_extends(t0, t1, 2)
                            &&& t1[t0.len() as int] matches TraceEvent::FrameEnter {
                                input,
                                outcome: None,
                            } && t1.last() matches TraceEvent::FrameExit {
                                input: exit_input,
                                outcome,
                            } && exit_input == input && outcome == res@
                            &&& s1 == s0
                        }
                    },
                    Ok(FrameOrResultGen::Frame(fr)) => {
                        &&& trace_extends(t0, t1, 2)
                        &&& t1[t0.len() as int] matches TraceEvent::FrameEnter {
                            input,
                            outcome: None,
                        } && s1 == s0.push(input) && fr.kind() == input.kind()
                        &&& t1.last() == TraceEvent::InterpInit
                    },
                    Err(_) => {
                        &&& t1.len() == t0.len() + 1
                        &&& trace_extends(t0, t1, 1)
                        &&& t1.last() matches TraceEvent::FrameEnter { input, outcome: None }
                            && s1 == s0.push(input)
                    },
                }
            }),
    {
        let mut frame_input = frame_input;
        match ctx.frame_start(&mut frame_input) {
            Some(output) => {
                proof {
                    assert(final(ctx).trace().subrange(0, old(ctx).trace().len() as int)
                        =~= old(ctx).trace());
                }
                return Ok(FrameOrResultGen::Result(output));
            },
            None => {},
        }
        let ret = F::init_first(ctx, frame_input);
        let out = match ret {
            Ok(FrameOrResultGen::Result(res)) => {
                let mut res = res;
                ctx.frame_end(&mut res);
                Ok(FrameOrResultGen::Result(res))
            },
            Ok(FrameOrResultGen::Frame(spawned)) => {
                let (eth_frame, mut interpreter) = spawned;
                ctx.initialize_interp(&mut interpreter);
                Ok(FrameOrResultGen::Frame(InspectorEthFrame { eth_frame, interpreter }))
            },
            Err(e) => Err(e),
        };
        proof {
            assert(final(ctx).trace().subrange(0, old(ctx).trace().len() as int)
                =~= old(ctx).trace());
        }
        out
    }

    /// Creates a nested frame, with the entry pre-hook consulted first;
    /// the hook's override and exit semantics are those of `init_first`.
    /// In particular, a nested frame the engine resolves immediately has
    /// its entry popped and its exit post-hook fired right here, so that
    /// folding the result into the parent (see `fold_resolved`) pairs no
    /// foreign entry; an overridden nested frame pushed nothing and gets
    /// no exit at all.
    pub fn init<CTX>(&self, ctx: &mut CTX, frame_input: FrameInput) -> (r: Result<
        FrameOrResultGen<InspectorEthFrame<F>, FrameResult>,
        EngineError,
    >) where CTX: InspectorCtx, F: EngineFrame<CTX>
        ensures
            ({
                let t0 = old(ctx).trace();
                let t1 = final(ctx).trace();
                let s0 = old(ctx).frame_stack();
                let s1 = final(ctx).frame_stack();
                match r {
                    Ok(FrameOrResultGen::Result(res)) => {
                        ||| {
                            &&& trace_extends(t0, t1, 1)
                            &&& t1.last() matches TraceEvent::FrameEnter { outcome, .. }
                                && outcome == Some(res@)
                            &&& s1 == s0
                        }
                        ||| {
                            &&& trace_extends(t0, t1, 2)
                            &&& t1[t0.len() as int] matches TraceEvent::FrameEnter {
                                input,
                                outcome: None,
                            } && t1.last() matches TraceEvent::FrameExit {
                                input: exit_input,
                                outcome,
                            } && exit_input == input && outcome == res@
                            &&& s1 == s0
                        }
                    },
                    Ok(FrameOrResultGen::Frame(fr)) => {
                        &&& trace_extends(t0, t1, 2)
                        &&& t1[t0.len() as int] matches TraceEvent::FrameEnter {
                            input,
                            outcome: None,
                        } && s1 == s0.push(input) && fr.kind() == input.kind()
                        &&& t1.last() == TraceEvent::InterpInit
                    },
                    Err(_) => {
                        &&& trace_extends(t0, t1, 1)
                        &&& t1.last() matches TraceEvent::FrameEnter { input, outcome: None }
                            && s1 == s0.push(input)
                    },
                }
            }),
    {
        let mut frame_input = frame_input;
        match ctx.frame_start(&mut frame_input) {
            Some(output) => {
                proof {
                    assert(final(ctx).trace().subrange(0, old(ctx).trace().len() as int)
                        =~= old(ctx).trace());
                }
                return Ok(FrameOrResultGen::Result(output));
            },
            None => {},
        }
        let ret = self.eth_frame.init(ctx, frame_input);
        let out = match ret {
            Ok(FrameOrResultGen::Result(res)) => {
                let mut res = res;
                ctx.frame_end(&mut res);
                Ok(FrameOrResultGen::Result(res))
            },
            Ok(FrameOrResultGen::Frame(spawned)) => {
                let (eth_frame, mut interpreter) = spawned;
                ctx.initialize_interp(&mut interpreter);
                Ok(FrameOrResultGen::Frame(InspectorEthFrame { eth_frame, interpreter }))
            },
            Err(e) => Err(e),
        };
        proof {
            assert(final(ctx).trace().subrange(0, old(ctx).trace().len() as int)
                =~= old(ctx).trace());
        }
        out
    }

    /// Runs this frame one stretch further, delegated to the engine
    /// unchanged: the wrapper intercepts mid-run only through the
    /// instrumented dispatch table's per-instruction hooks.
    pub fn run<CTX>(&mut self, ctx: &mut CTX) -> (r: Result<
        FrameOrResultGen<FrameInput, FrameResult>,
        EngineError,
    >) where CTX: InspectorCtx, F: EngineFrame<CTX>
        ensures
            old(ctx).trace().len() <= final(ctx).trace().len(),
            trace_extends(
                old(ctx).trace(),
                final(ctx).trace(),
                final(ctx).trace().len() - old(ctx).trace().len(),
            ),
            forall|i: int|
                old(ctx).trace().len() <= i < final(ctx).trace().len() ==> is_step_level(
                    #[trigger] final(ctx).trace()[i],
                ),
            final(ctx).frame_stack() == old(ctx).frame_stack(),
            exists|n: nat|
                #[trigger] crate::table::instrumented_run_events(
                    old(ctx).trace(),
                    final(ctx).trace(),
                    n,
                ),
            final(self).kind() == old(self).kind(),
            r matches Ok(FrameOrResultGen::Result(res)) ==> res@.kind() == old(self).kind(),
    {
        self.eth_frame.run(&mut self.interpreter, ctx)
    }

    /// Folds a resolved child result into this parent frame: fires the
    /// exit post-hook, popping the child's entry from the correlation
    /// stack, then hands the (possibly hook-adjusted) outcome to the
    /// engine.
    pub fn return_result<CTX>(&mut self, ctx: &mut CTX, result: FrameResult) -> (r: Result<
        (),
        EngineError,
    >) where CTX: InspectorCtx, F: EngineFrame<CTX>
        requires
            old(ctx).frame_stack().len() > 0,
            old(ctx).frame_stack().last().kind() == result@.kind(),
        ensures
            final(ctx).frame_stack() == old(ctx).frame_stack().drop_last(),
            trace_extends(old(ctx).trace(), final(ctx).trace(), 1),
            final(ctx).trace().last() matches TraceEvent::FrameExit { input, .. } && input == old(
                ctx,
            ).frame_stack().last(),
            final(self).kind() == old(self).kind(),
    {
        let mut result = result;
        ctx.frame_end(&mut result);
        let out = self.eth_frame.return_result(ctx, result);
        proof {
            assert(final(ctx).trace().subrange(0, old(ctx).trace().len() as int)
                =~= old(ctx).trace());
        }
        out
    }

    /// Folds into this parent a result whose exit is already settled: the
    /// outcome of a nested frame that `init` resolved on the spot, whether
    /// overridden (no entry was pushed, no exit is owed) or immediately
    /// resolved by the engine (its entry was already popped and its exit
    /// post-hook already fired inside `init`). No hook fires here; the
    /// engine alone absorbs the result.
    pub fn fold_resolved<CTX>(&mut self, ctx: &mut CTX, result: FrameResult) -> (r: Result<
        (),
        EngineError,
    >) where CTX: InspectorCtx, F: EngineFrame<CTX>
        ensures
            final(ctx).trace() == old(ctx).trace(),
            final(ctx).frame_stack() == old(ctx).frame_stack(),
            final(self).kind() == old(self).kind(),
    {
        self.eth_frame.return_result(ctx, result)
    }

    /// Finalizes the root frame's result: fires the exit post-hook for
    /// the execution's first frame, popping its entry, and lets the hook
    /// adjust the outcome before it reaches the top-level caller.
    pub fn final_return<CTX>(ctx: &mut CTX, result: &mut FrameResult) -> (r: Result<
        (),
        EngineError,
    >) where CTX: InspectorCtx
        requires
            old(ctx).frame_stack().len() > 0,
            old(ctx).frame_stack().last().kind() == old(result)@.kind(),
        ensures
            final(ctx).frame_stack() == old(ctx).frame_stack().drop_last(),
            final(ctx).trace() == old(ctx).trace().push(
                TraceEvent::FrameExit {
                    input: old(ctx).frame_stack().last(),
                    outcome: final(result)@,
                },
            ),
            r is Ok,
    {
        ctx.frame_end(result);
        Ok(())
    }
}

} // verus!
