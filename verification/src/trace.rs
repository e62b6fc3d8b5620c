//! Ghost trace of the hook and engine invocations this layer makes, and the
//! laws relating that trace to the frame-correlation stack.
//!
//! Every hook call site in the context adapter appends one event to a ghost
//! trace. The contracts of the adapter and of the frame lifecycle wrapper
//! speak of that trace, and the lemmas here turn those contracts into the
//! global pairing guarantee: over any completed execution, frame entries
//! that were not overridden pair with frame exits in strict LIFO order.

use vstd::prelude::*;

use crate::types::{Address, FrameInputV, FrameResultV, InstructionStatus, JournalEntry, LogDataV, U256};

verus! {

/// One observable action of the instrumentation layer: a hook invocation
/// or a dispatch of a base instruction handler.
///
/// `BaseInstruction` records, beside the opcode, the interpreter status and
/// a snapshot of the journal (log list and current change-log segment) as
/// they stood immediately after the base handler returned; the log and
/// self-destruct wrappers' contracts compare the data they deliver against
/// that snapshot.
pub enum TraceEvent {
    /// `initialize_interp` fired for a freshly spawned frame.
    InterpInit,
    /// `step` fired: `pc` is the program counter the hook observed on
    /// entry, `pc_after` the counter and `result` the status it left
    /// behind.
    StepHook { pc: usize, pc_after: usize, result: InstructionStatus },
    /// `step_end` fired.
    StepEndHook,
    /// A base instruction handler ran, with the program counter at `pc`.
    BaseInstruction {
        opcode: u8,
        pc: usize,
        result: InstructionStatus,
        logs: Seq<LogDataV>,
        segment: Seq<JournalEntry>,
    },
    /// The log hook fired with `log`.
    LogHook { log: LogDataV },
    /// The self-destruct hook fired with the resolved triple.
    SelfdestructHook { contract: Address, target: Address, value: U256 },
    /// A frame-entry pre-hook fired. `outcome` is `Some` exactly when the
    /// hook overrode the frame, in which case no entry was pushed onto the
    /// correlation stack.
    FrameEnter { input: FrameInputV, outcome: Option<FrameResultV> },
    /// A frame-exit post-hook fired: `input` is the entry popped from the
    /// correlation stack, `outcome` the (possibly adjusted) result.
    FrameExit { input: FrameInputV, outcome: FrameResultV },
}

/// True of the events an instruction wrapper may append: everything except
/// frame entries, frame exits and interpreter initialization.
pub open spec fn is_step_level(e: TraceEvent) -> bool {
    match e {
        TraceEvent::StepHook { .. } => true,
        TraceEvent::StepEndHook => true,
        TraceEvent::BaseInstruction { .. } => true,
        TraceEvent::LogHook { .. } => true,
        TraceEvent::SelfdestructHook { .. } => true,
        TraceEvent::InterpInit => false,
        TraceEvent::FrameEnter { .. } => false,
        TraceEvent::FrameExit { .. } => false,
    }
}

/// `t1` extends `t0` by exactly `k` events.
pub open spec fn trace_extends(t0: Seq<TraceEvent>, t1: Seq<TraceEvent>, k: int) -> bool {
    &&& t1.len() == t0.len() + k
    &&& t1.subrange(0, t0.len() as int) == t0
}

/// Extending a trace twice extends it once: the original trace stays a
/// prefix throughout.
pub proof fn lemma_trace_extends_trans(t0: Seq<TraceEvent>, t1: Seq<TraceEvent>, t2: Seq<TraceEvent>)
    requires
        t0.len() <= t1.len(),
        t1.len() <= t2.len(),
        trace_extends(t0, t1, t1.len() - t0.len()),
        trace_extends(t1, t2, t2.len() - t1.len()),
    ensures
        trace_extends(t0, t2, t2.len() - t0.len()),
{
    assert(t2.subrange(0, t0.len() as int) =~= t0) by {
        assert forall|i: int| 0 <= i < t0.len() implies t2.subrange(0, t0.len() as int)[i]
            == t0[i] by {
            assert(t1.subrange(0, t0.len() as int)[i] == t1[i]);
            assert(t2.subrange(0, t1.len() as int)[i] == t2[i]);
        }
    }
}

/// The frame-correlation stack that a trace leaves behind: a non-overridden
/// frame entry pushes its input, a frame exit pops it, and every other
/// event leaves the stack alone. `None` means the trace is ill-formed: some
/// exit did not match the most recent unmatched entry. A `Some` result is
/// therefore itself the LIFO-pairing guarantee: every exit in the trace
/// carries exactly the input of the latest entry still open at that point.
pub open spec fn stack_after(t: Seq<TraceEvent>) -> Option<Seq<FrameInputV>>
    decreases t.len(),
{
    if t.len() == 0 {
        Some(Seq::empty())
    } else {
        match stack_after(t.drop_last()) {
            None => None,
            Some(s) => match t.last() {
                TraceEvent::FrameEnter { input, outcome } => if outcome is None {
                    Some(s.push(input))
                } else {
                    Some(s)
                },
                TraceEvent::FrameExit { input, .. } => if s.len() > 0 && s.last() == input {
                    Some(s.drop_last())
                } else {
                    None
                },
                _ => Some(s),
            },
        }
    }
}

/// Number of frame-entry hook firings in the trace.
pub open spec fn enter_count(t: Seq<TraceEvent>) -> nat
    decreases t.len(),
{
    if t.len() == 0 {
        0
    } else {
        enter_count(t.drop_last()) + if t.last() is FrameEnter {
            1nat
        } else {
            0nat
        }
    }
}

/// Number of frame-entry hook firings that were not overridden (those that
/// pushed an entry onto the correlation stack).
pub open spec fn pushed_enter_count(t: Seq<TraceEvent>) -> nat
    decreases t.len(),
{
    if t.len() == 0 {
        0
    } else {
        pushed_enter_count(t.drop_last()) + if t.last() matches TraceEvent::FrameEnter {
            outcome: None,
            ..
        } {
            1nat
        } else {
            0nat
        }
    }
}

/// Number of frame-exit hook firings in the trace.
pub open spec fn exit_count(t: Seq<TraceEvent>) -> nat
    decreases t.len(),
{
    if t.len() == 0 {
        0
    } else {
        exit_count(t.drop_last()) + if t.last() is FrameExit {
            1nat
        } else {
            0nat
        }
    }
}

/// True when no frame entry in the trace was overridden.
pub open spec fn no_overrides(t: Seq<TraceEvent>) -> bool {
    forall|i: int|
        0 <= i < t.len() ==> (#[trigger] t[i] matches TraceEvent::FrameEnter { outcome, .. }
            ==> outcome is None)
}

/// A well-formed trace keeps the correlation stack exactly one entry deep
/// per open frame: the number of non-overridden entries always exceeds the
/// number of exits by the residual stack's depth.
pub proof fn lemma_stack_depth(t: Seq<TraceEvent>, s: Seq<FrameInputV>)
    requires
        stack_after(t) == Some(s),
    ensures
        pushed_enter_count(t) == exit_count(t) + s.len(),
    decreases t.len(),
{
    if t.len() == 0 {
        assert(s =~= Seq::<FrameInputV>::empty());
    } else {
        let prev = stack_after(t.drop_last());
        match prev {
            None => {},
            Some(s0) => {
                lemma_stack_depth(t.drop_last(), s0);
            },
        }
    }
}

/// The pairing law for completed executions: when the correlation stack has
/// drained, every non-overridden frame entry has exactly one matching frame
/// exit. If in addition no entry was overridden, the entry pre-hook and the
/// exit post-hook fired the same number of times. The LIFO order of those
/// pairs is already enforced by `stack_after` returning `Some`: each exit
/// event records precisely the input of the most recent unmatched entry.
pub proof fn lemma_frame_hook_pairing(t: Seq<TraceEvent>)
    requires
        stack_after(t) == Some(Seq::<FrameInputV>::empty()),
    ensures
        pushed_enter_count(t) == exit_count(t),
        no_overrides(t) ==> enter_count(t) == exit_count(t),
{
    lemma_stack_depth(t, Seq::empty());
    if no_overrides(t) {
        lemma_no_override_counts(t);
    }
}

/// With no overrides, every entry is a pushed entry.
proof fn lemma_no_override_counts(t: Seq<TraceEvent>)
    requires
        no_overrides(t),
    ensures
        enter_count(t) == pushed_enter_count(t),
    decreases t.len(),
{
    if t.len() > 0 {
        assert(no_overrides(t.drop_last())) by {
            assert(forall|i: int|
                0 <= i < t.drop_last().len() ==> t.drop_last()[i] == t[i]);
        }
        lemma_no_override_counts(t.drop_last());
        assert(t[t.len() - 1] == t.last());
    }
}

/// Events that neither enter nor exit a frame never move the correlation
/// stack; that covers every step-level event and interpreter
/// initialization.
pub proof fn lemma_stack_after_neutral(t: Seq<TraceEvent>, e: TraceEvent)
    requires
        !(e is FrameEnter),
        !(e is FrameExit),
    ensures
        stack_after(t.push(e)) == stack_after(t),
{
    assert(t.push(e).drop_last() =~= t);
}

/// A suffix made only of step-level events never moves the correlation
/// stack, whatever its length.
pub proof fn lemma_stack_after_step_suffix(t0: Seq<TraceEvent>, t1: Seq<TraceEvent>)
    requires
        t0.len() <= t1.len(),
        trace_extends(t0, t1, t1.len() - t0.len()),
        forall|i: int| t0.len() <= i < t1.len() ==> is_step_level(#[trigger] t1[i]),
    ensures
        stack_after(t1) == stack_after(t0),
    decreases t1.len() - t0.len(),
{
    if t1.len() > t0.len() {
        let shorter = t1.drop_last();
        assert(shorter.subrange(0, t0.len() as int) =~= t1.subrange(0, t0.len() as int));
        lemma_stack_after_step_suffix(t0, shorter);
        lemma_stack_after_neutral(shorter, t1.last());
        assert(shorter.push(t1.last()) =~= t1);
    } else {
        assert(t1.subrange(0, t0.len() as int) =~= t1);
    }
}

/// A non-overridden frame entry pushes its input onto the correlation
/// stack.
pub proof fn lemma_stack_after_enter(t: Seq<TraceEvent>, s: Seq<FrameInputV>, input: FrameInputV)
    requires
        stack_after(t) == Some(s),
    ensures
        stack_after(t.push(TraceEvent::FrameEnter { input, outcome: None })) == Some(s.push(input)),
{
    assert(t.push(TraceEvent::FrameEnter { input, outcome: None }).drop_last() =~= t);
}

/// An overridden frame entry leaves the correlation stack alone.
pub proof fn lemma_stack_after_override(
    t: Seq<TraceEvent>,
    s: Seq<FrameInputV>,
    input: FrameInputV,
    res: FrameResultV,
)
    requires
        stack_after(t) == Some(s),
    ensures
        stack_after(t.push(TraceEvent::FrameEnter { input, outcome: Some(res) })) == Some(s),
{
    assert(t.push(TraceEvent::FrameEnter { input, outcome: Some(res) }).drop_last() =~= t);
}

/// A frame exit that carries the top of the correlation stack pops it.
pub proof fn lemma_stack_after_exit(
    t: Seq<TraceEvent>,
    s: Seq<FrameInputV>,
    outcome: FrameResultV,
)
    requires
        stack_after(t) == Some(s),
        s.len() > 0,
    ensures
        stack_after(t.push(TraceEvent::FrameExit { input: s.last(), outcome })) == Some(
            s.drop_last(),
        ),
{
    assert(t.push(TraceEvent::FrameExit { input: s.last(), outcome }).drop_last() =~= t);
}

} // verus!
