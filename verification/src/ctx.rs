//! The context adapter: owns the observer, the inner execution context and
//! the frame-correlation stack, and exposes the hook surface that the
//! instrumented dispatch table and the frame lifecycle wrapper drive.
//!
//! Every hook invocation and every dispatch of a base instruction handler
//! appends one [`TraceEvent`] to a ghost trace; the contracts below state
//! the exact extension, so callers can reason about hook ordering and about
//! the correlation stack without looking at any hook's body.

use vstd::prelude::*;

use crate::inspector::{GetInspector, Inspector};
use crate::journal::{JournalExtGetter, JournaledState};
use crate::trace::TraceEvent;
use crate::types::{
    Address, FrameInput, FrameInputV, FrameResult, InstructionStatus, Interpreter, LogData, U256,
    is_log_opcode, OPCODE_SELFDESTRUCT,
};

verus! {

/// The engine's base per-opcode handlers, as the inner execution context
/// exposes them. This is an external collaborator of the instrumentation
/// layer: the handler may change the interpreter, the journal and the rest
/// of the context arbitrarily, but a conforming engine guarantees the two
/// journal invariants below — the log list is non-empty immediately after a
/// log instruction completes with continue status, and the current
/// change-log segment is non-empty immediately after a self-destruct
/// instruction completes with self-destruct status.
pub trait BaseInstructions: JournalExtGetter {
    /// Runs the base handler of `opcode` on the interpreter.
    fn run_base_instruction(&mut self, opcode: u8, interp: &mut Interpreter)
        ensures
            is_log_opcode(opcode) && final(interp).status == InstructionStatus::Continue
                ==> final(self).journal().logs_v().len() > 0,
            opcode == OPCODE_SELFDESTRUCT && final(interp).status
                == InstructionStatus::SelfDestruct ==> final(self).journal().journal@.len() > 0
                && final(self).journal().cur_segment().len() > 0,
    ;
}

/// The hook surface of a composed execution context: the dispatch table
/// and the frame lifecycle wrapper see the context only through this
/// trait. The ghost `trace` records every hook and base-handler invocation;
/// `frame_stack` is the view of the frame-correlation stack.
pub trait InspectorCtx: JournalExtGetter {
    /// Ghost trace of the hook and base-handler invocations made so far.
    spec fn trace(&self) -> Seq<TraceEvent>;

    /// View of the frame-correlation stack.
    spec fn frame_stack(&self) -> Seq<FrameInputV>;

    /// Fires the step hook for the instruction about to run. The recorded
    /// event carries the program counter the hook observed on entry and
    /// the counter and status it left behind.
    fn step(&mut self, interp: &mut Interpreter)
        ensures
            final(self).trace() == old(self).trace().push(
                TraceEvent::StepHook {
                    pc: old(interp).pc,
                    pc_after: final(interp).pc,
                    result: final(interp).status,
                },
            ),
            final(self).frame_stack() == old(self).frame_stack(),
    ;

    /// Fires the step-end hook for the instruction that just ran.
    fn step_end(&mut self, interp: &mut Interpreter)
        ensures
            final(self).trace() == old(self).trace().push(TraceEvent::StepEndHook),
            final(self).frame_stack() == old(self).frame_stack(),
    ;

    /// Fires the interpreter-initialization hook for a fresh frame.
    fn initialize_interp(&mut self, interp: &mut Interpreter)
        ensures
            final(self).trace() == old(self).trace().push(TraceEvent::InterpInit),
            final(self).frame_stack() == old(self).frame_stack(),
    ;

    /// Delivers an emitted log to the log hook.
    fn inspector_log(&mut self, interp: &mut Interpreter, log_entry: &LogData)
        ensures
            final(self).trace() == old(self).trace().push(
                TraceEvent::LogHook { log: log_entry@ },
            ),
            final(self).frame_stack() == old(self).frame_stack(),
    ;

    /// Delivers a resolved self-destruct to the self-destruct hook.
    fn inspector_selfdestruct(&mut self, contract: Address, target: Address, value: U256)
        ensures
            final(self).trace() == old(self).trace().push(
                TraceEvent::SelfdestructHook { contract, target, value },
            ),
            final(self).frame_stack() == old(self).frame_stack(),
    ;

    /// Fires the frame-entry pre-hook. `Some` is a total override: the
    /// returned outcome carries the same kind as the request, and the
    /// correlation stack is left alone. `None` means the frame proceeds:
    /// its (possibly hook-adjusted) input is pushed onto the stack.
    fn frame_start(&mut self, frame_input: &mut FrameInput) -> (r: Option<FrameResult>)
        ensures
            match r {
                Some(res) => {
                    &&& final(self).trace() == old(self).trace().push(
                        TraceEvent::FrameEnter {
                            input: final(frame_input)@,
                            outcome: Some(res@),
                        },
                    )
                    &&& final(self).frame_stack() == old(self).frame_stack()
                    &&& res@.kind() == final(frame_input)@.kind()
                },
                None => {
                    &&& final(self).trace() == old(self).trace().push(
                        TraceEvent::FrameEnter { input: final(frame_input)@, outcome: None },
                    )
                    &&& final(self).frame_stack() == old(self).frame_stack().push(
                        final(frame_input)@,
                    )
                },
            },
    ;

    /// Fires the frame-exit post-hook: pops the matching entry from the
    /// correlation stack and lets the hook adjust the outcome in place.
    /// An empty stack or a kind mismatch is an internal invariant failure
    /// of the surrounding wiring, so both are ruled out by precondition.
    fn frame_end(&mut self, frame_output: &mut FrameResult)
        requires
            old(self).frame_stack().len() > 0,
            old(self).frame_stack().last().kind() == old(frame_output)@.kind(),
        ensures
            final(self).frame_stack() == old(self).frame_stack().drop_last(),
            final(self).trace() == old(self).trace().push(
                TraceEvent::FrameExit {
                    input: old(self).frame_stack().last(),
                    outcome: final(frame_output)@,
                },
            ),
    ;

    /// Dispatches the base handler of `opcode` and records the dispatch,
    /// with the interpreter status and a snapshot of the journal as they
    /// stand when the handler returns.
    fn run_base(&mut self, opcode: u8, interp: &mut Interpreter)
        ensures
            final(self).trace() == old(self).trace().push(
                TraceEvent::BaseInstruction {
                    opcode,
                    pc: old(interp).pc,
                    result: final(interp).status,
                    logs: final(self).journal().logs_v(),
                    segment: final(self).journal().cur_segment(),
                },
            ),
            final(self).frame_stack() == old(self).frame_stack(),
            is_log_opcode(opcode) && final(interp).status == InstructionStatus::Continue
                ==> final(self).journal().logs_v().len() > 0,
            opcode == OPCODE_SELFDESTRUCT && final(interp).status
                == InstructionStatus::SelfDestruct ==> final(self).journal().journal@.len() > 0
                && final(self).journal().cur_segment().len() > 0,
    ;
}

/// The adapter's core invariant: the correlation stack equals the residual
/// of the trace. `InspectorContext::new` establishes it over an empty
/// trace and stack; every operation of [`InspectorCtx`] preserves it (the
/// lemmas in [`crate::trace`] discharge each step), and once the stack has
/// drained, [`crate::trace::lemma_frame_hook_pairing`] turns it into the
/// global law that non-overridden frame entries pair one-to-one, in LIFO
/// order, with frame exits.
pub open spec fn frame_correspondence<C: InspectorCtx>(c: &C) -> bool {
    crate::trace::stack_after(c.trace()) == Some(c.frame_stack())
}

/// A freshly composed context satisfies the correspondence invariant.
pub proof fn lemma_new_correspondence<INSP, CTX>(c: &InspectorContext<INSP, CTX>) where
    INSP: GetInspector<CTX>,
    CTX: BaseInstructions,

    requires
        c.events@ == Seq::<TraceEvent>::empty(),
        c.frame_input_stack@ == Seq::<FrameInput>::empty(),
    ensures
        frame_correspondence(c),
{
    assert(c.frame_input_stack@.map_values(|i: FrameInput| i@)
        =~= Seq::<FrameInputV>::empty());
}

/// Composition of an observer with an inner execution context. Forwards
/// every host-capability operation to `inner` unchanged, owns the
/// frame-correlation stack, and records its hook invocations in `events`.
pub struct InspectorContext<INSP, CTX> {
    pub inspector: INSP,
    pub inner: CTX,
    pub frame_input_stack: Vec<FrameInput>,
    pub events: Ghost<Seq<TraceEvent>>,
}

impl<INSP, CTX> InspectorContext<INSP, CTX> {
    /// Composes an observer with an inner execution context. The
    /// correlation stack starts empty and no hook has fired yet.
    pub fn new(inner: CTX, inspector: INSP) -> (r: Self)
        ensures
            r.inner == inner,
            r.inspector == inspector,
            r.frame_input_stack@ == Seq::<FrameInput>::empty(),
            r.events@ == Seq::<TraceEvent>::empty(),
    {
        InspectorContext { inner, inspector, frame_input_stack: Vec::new(), events: Ghost(
            Seq::empty(),
        ) }
    }
}

impl<INSP, CTX: JournalExtGetter> JournalExtGetter for InspectorContext<INSP, CTX> {
    open spec fn journal(&self) -> JournaledState {
        self.inner.journal()
    }

    fn journal_ext(&self) -> (r: &JournaledState) {
        self.inner.journal_ext()
    }
}

impl<INSP, CTX> InspectorCtx for InspectorContext<INSP, CTX> where
    INSP: GetInspector<CTX>,
    CTX: BaseInstructions,
 {
    open spec fn trace(&self) -> Seq<TraceEvent> {
        self.events@
    }

    open spec fn frame_stack(&self) -> Seq<FrameInputV> {
        self.frame_input_stack@.map_values(|i: FrameInput| i@)
    }

    fn step(&mut self, interp: &mut Interpreter) {
        let ghost entry_pc = interp.pc;
        self.inspector.get_inspector().step(interp, &mut self.inner);
        self.events = Ghost(
            self.events@.push(
                TraceEvent::StepHook { pc: entry_pc, pc_after: interp.pc, result: interp.status },
            ),
        );
    }

    fn step_end(&mut self, interp: &mut Interpreter) {
        self.inspector.get_inspector().step_end(interp, &mut self.inner);
        self.events = Ghost(self.events@.push(TraceEvent::StepEndHook));
    }

    fn initialize_interp(&mut self, interp: &mut Interpreter) {
        self.inspector.get_inspector().initialize_interp(interp, &mut self.inner);
        self.events = Ghost(self.events@.push(TraceEvent::InterpInit));
    }

    fn inspector_log(&mut self, interp: &mut Interpreter, log_entry: &LogData) {
        self.inspector.get_inspector().log(interp, &mut self.inner, log_entry);
        self.events = Ghost(
            self.events@.push(TraceEvent::LogHook { log: log_entry@ }),
        );
    }

    fn inspector_selfdestruct(&mut self, contract: Address, target: Address, value: U256) {
        self.inspector.get_inspector().selfdestruct(contract, target, value);
        self.events = Ghost(
            self.events@.push(TraceEvent::SelfdestructHook { contract, target, value }),
        );
    }

    fn frame_start(&mut self, frame_input: &mut FrameInput) -> (r: Option<FrameResult>) {
        let overridden: Option<FrameResult> = match frame_input {
            FrameInput::Call(i) => match self.inspector.get_inspector().call(
                &mut self.inner,
                i,
            ) {
                Some(out) => Some(FrameResult::Call(out)),
                None => None,
            },
            FrameInput::Create(i) => match self.inspector.get_inspector().create(
                &mut self.inner,
                i,
            ) {
                Some(out) => Some(FrameResult::Create(out)),
                None => None,
            },
            FrameInput::EofCreate(i) => match self.inspector.get_inspector().eofcreate(
                &mut self.inner,
                i,
            ) {
                Some(out) => Some(FrameResult::EofCreate(out)),
                None => None,
            },
        };
        match overridden {
            Some(res) => {
                self.events = Ghost(
                    self.events@.push(
                        TraceEvent::FrameEnter { input: frame_input@, outcome: Some(res@) },
                    ),
                );
                Some(res)
            },
            None => {
                let copy = frame_input.duplicate();
                self.frame_input_stack.push(copy);
                self.events = Ghost(
                    self.events@.push(
                        TraceEvent::FrameEnter { input: frame_input@, outcome: None },
                    ),
                );
                proof {
                    assert(self.frame_input_stack@.map_values(|i: FrameInput| i@)
                        =~= old(self).frame_input_stack@.map_values(|i: FrameInput| i@).push(
                        frame_input@,
                    ));
                }
                None
            },
        }
    }

    fn frame_end(&mut self, frame_output: &mut FrameResult) {
        let popped = self.frame_input_stack.pop();
        let frame_input = match popped {
            Some(fi) => fi,
            None => vstd::pervasive::unreached(),
        };
        proof {
            assert(old(self).frame_stack().last() == frame_input@);
        }
        match frame_output {
            FrameResult::Call(outcome) => {
                let i = match &frame_input {
                    FrameInput::Call(i) => i,
                    _ => vstd::pervasive::unreached(),
                };
                self.inspector.get_inspector().call_end(&mut self.inner, i, outcome);
            },
            FrameResult::Create(outcome) => {
                let i = match &frame_input {
                    FrameInput::Create(i) => i,
                    _ => vstd::pervasive::unreached(),
                };
                self.inspector.get_inspector().create_end(&mut self.inner, i, outcome);
            },
            FrameResult::EofCreate(outcome) => {
                let i = match &frame_input {
                    FrameInput::EofCreate(i) => i,
                    _ => vstd::pervasive::unreached(),
                };
                self.inspector.get_inspector().eofcreate_end(&mut self.inner, i, outcome);
            },
        }
        self.events = Ghost(
            self.events@.push(
                TraceEvent::FrameExit { input: frame_input@, outcome: frame_output@ },
            ),
        );
        proof {
            assert(self.frame_input_stack@.map_values(|i: FrameInput| i@)
                =~= old(self).frame_stack().drop_last());
        }
    }

    fn run_base(&mut self, opcode: u8, interp: &mut Interpreter) {
        let ghost entry_pc = interp.pc;
        self.inner.run_base_instruction(opcode, interp);
        self.events = Ghost(
            self.events@.push(
                TraceEvent::BaseInstruction {
                    opcode,
                    pc: entry_pc,
                    result: interp.status,
                    logs: self.inner.journal().logs_v(),
                    segment: self.inner.journal().cur_segment(),
                },
            ),
        );
    }
}

} // verus!
