//! The instrumented dispatch table: a 256-entry table built once per
//! execution from the base opcode table. Every entry runs the step /
//! step-end bracket around its base handler; the log opcodes and
//! self-destruct additionally deliver their hook, inside the bracket,
//! right after the base handler. The wrappers' contracts state exactly
//! which hooks fire, in which order, at which program counter, and with
//! which data.

use vstd::prelude::*;

use crate::ctx::InspectorCtx;
use crate::journal::JournalExt;
use crate::trace::TraceEvent;
use crate::types::{
    InstructionStatus, Interpreter, JournalEntry, is_log_opcode, OPCODE_LOG0, OPCODE_LOG4,
    OPCODE_SELFDESTRUCT,
};

verus! {

/// Which wrapper an instrumented table entry applies around its base
/// handler.
#[derive(Clone, Copy, PartialEq, Eq, Structural, Debug)]
pub enum WrapperKind {
    Generic,
    Log,
    SelfDestruct,
}

/// The wrapper that the table builder assigns to an opcode: the log
/// opcodes get the log wrapper, self-destruct its own wrapper, and every
/// other opcode the generic step wrapper.
pub open spec fn wrapper_kind_for(op: u8) -> WrapperKind {
    if is_log_opcode(op) {
        WrapperKind::Log
    } else if op == OPCODE_SELFDESTRUCT {
        WrapperKind::SelfDestruct
    } else {
        WrapperKind::Generic
    }
}

/// One instrumented dispatch-table entry: the opcode whose base handler it
/// runs, and the wrapper it applies around that handler.
#[derive(Clone, Copy, PartialEq, Eq, Structural, Debug)]
pub struct InspectorInstruction {
    pub base_handler: u8,
    pub wrapper: WrapperKind,
}

/// Trace shape of an instruction the step hook aborted: the step hook is
/// the only event — neither the base handler nor the step-end hook ran.
/// The hook observed the counter rewound by one from `entry_pc` (the
/// pre-advance address of the instruction about to run) and left a
/// non-continue status.
pub open spec fn step_abort_events(
    t0: Seq<TraceEvent>,
    t1: Seq<TraceEvent>,
    entry_pc: usize,
) -> bool {
    &&& t1.len() == t0.len() + 1
    &&& t1.subrange(0, t0.len() as int) == t0
    &&& t1.last() matches TraceEvent::StepHook { pc, result, .. } && pc == entry_pc - 1 && result
        != InstructionStatus::Continue
}

/// The first two events of a completed instrumented instruction: a step
/// hook that observed the counter rewound by one from `entry_pc` and left
/// continue, then the base handler of `op`, dispatched at the restored
/// counter — one past the counter the hook left, wrapping at the end of
/// the address space.
pub open spec fn bracket_prologue(
    t0: Seq<TraceEvent>,
    t1: Seq<TraceEvent>,
    entry_pc: usize,
    op: u8,
) -> bool {
    &&& t1.len() >= t0.len() + 2
    &&& t1.subrange(0, t0.len() as int) == t0
    &&& t1[t0.len() as int] matches TraceEvent::StepHook { pc, pc_after, result } && pc == entry_pc
        - 1 && result == InstructionStatus::Continue && (t1[t0.len() as int + 1]
        matches TraceEvent::BaseInstruction { opcode, pc: base_pc, .. } && opcode == op && (
    pc_after < usize::MAX ==> base_pc == pc_after + 1) && (pc_after == usize::MAX ==> base_pc
        == 0))
}

/// Trace shape of the generic step wrapper: either the step hook aborted
/// the instruction, or the full bracket ran — step hook, base handler,
/// step-end hook, in that order, each exactly once.
pub open spec fn generic_wrapper_events(
    op: u8,
    t0: Seq<TraceEvent>,
    t1: Seq<TraceEvent>,
    entry_pc: usize,
) -> bool {
    ||| step_abort_events(t0, t1, entry_pc)
    ||| {
        &&& bracket_prologue(t0, t1, entry_pc, op)
        &&& t1.len() == t0.len() + 3
        &&& t1.last() == TraceEvent::StepEndHook
    }
}

/// Trace shape of the log wrapper: either the step hook aborted the
/// instruction, or the bracket ran with the base handler of `op` inside,
/// and — exactly when the handler completed with continue status — the log
/// hook fired once, between the base handler and the step-end hook, with
/// the last entry of the journal's log list as it stood right after the
/// append. A reverted log fires no log hook.
pub open spec fn log_wrapper_events(
    op: u8,
    t0: Seq<TraceEvent>,
    t1: Seq<TraceEvent>,
    entry_pc: usize,
) -> bool {
    ||| step_abort_events(t0, t1, entry_pc)
    ||| {
        &&& bracket_prologue(t0, t1, entry_pc, op)
        &&& t1[t0.len() as int + 1] matches TraceEvent::BaseInstruction { result, logs, .. } && (
        if result == InstructionStatus::Continue {
            &&& t1.len() == t0.len() + 4
            &&& logs.len() > 0
            &&& t1[t0.len() as int + 2] == (TraceEvent::LogHook { log: logs.last() })
        } else {
            t1.len() == t0.len() + 3
        })
        &&& t1.last() == TraceEvent::StepEndHook
    }
}

/// Trace shape of the self-destruct wrapper: either the step hook aborted
/// the instruction, or the bracket ran with the base handler of `op`
/// inside, and — exactly when the handler completed with self-destruct
/// status and the most recent record of the journal's current change-log
/// segment is an account-destroyed or balance-transfer record — the
/// self-destruct hook fired once, between the base handler and the
/// step-end hook, with that record's (contract, target, value) triple.
pub open spec fn selfdestruct_wrapper_events(
    op: u8,
    t0: Seq<TraceEvent>,
    t1: Seq<TraceEvent>,
    entry_pc: usize,
) -> bool {
    ||| step_abort_events(t0, t1, entry_pc)
    ||| {
        &&& bracket_prologue(t0, t1, entry_pc, op)
        &&& t1[t0.len() as int + 1] matches TraceEvent::BaseInstruction { result, segment, .. }
            && (if result == InstructionStatus::SelfDestruct {
            &&& segment.len() > 0
            &&& match segment.last() {
                JournalEntry::AccountDestroyed { address, target, had_balance } => t1.len()
                    == t0.len() + 4 && t1[t0.len() as int + 2] == (TraceEvent::SelfdestructHook {
                    contract: address,
                    target,
                    value: had_balance,
                }),
                JournalEntry::BalanceTransfer { from, to, balance } => t1.len() == t0.len() + 4
                    && t1[t0.len() as int + 2] == (TraceEvent::SelfdestructHook {
                    contract: from,
                    target: to,
                    value: balance,
                }),
                JournalEntry::Other => t1.len() == t0.len() + 3,
            }
        } else {
            t1.len() == t0.len() + 3
        })
        &&& t1.last() == TraceEvent::StepEndHook
    }
}

/// One instrumented instruction's worth of trace events: the shape the
/// table's wrapper produces for some opcode and some entry counter.
pub open spec fn instruction_events(t0: Seq<TraceEvent>, t1: Seq<TraceEvent>) -> bool {
    ||| exists|op: u8, entry_pc: usize|
        #[trigger] generic_wrapper_events(op, t0, t1, entry_pc) && wrapper_kind_for(op)
            == WrapperKind::Generic
    ||| exists|op: u8, entry_pc: usize|
        #[trigger] log_wrapper_events(op, t0, t1, entry_pc) && wrapper_kind_for(op)
            == WrapperKind::Log
    ||| exists|op: u8, entry_pc: usize|
        #[trigger] selfdestruct_wrapper_events(op, t0, t1, entry_pc) && wrapper_kind_for(op)
            == WrapperKind::SelfDestruct
}

/// A frame run's worth of trace events: at most `n` instrumented
/// instructions, each appended by the wrapper that the table assigns to
/// its opcode. This is the shape of everything an engine stepping through
/// the instrumented dispatch table can add to the trace.
pub open spec fn instrumented_run_events(
    t0: Seq<TraceEvent>,
    t1: Seq<TraceEvent>,
    n: nat,
) -> bool
    decreases n,
{
    if n == 0 {
        t1 == t0
    } else {
        ||| t1 == t0
        ||| exists|mid: Seq<TraceEvent>|
            #[trigger] instrumented_run_events(t0, mid, (n - 1) as nat) && instruction_events(
                mid,
                t1,
            )
    }
}

impl InspectorInstruction {
    /// A sound table entry: the specialized wrappers stand only on the
    /// opcodes whose engine guarantees they rely on.
    pub open spec fn wf(&self) -> bool {
        match self.wrapper {
            WrapperKind::Generic => true,
            WrapperKind::Log => is_log_opcode(self.base_handler),
            WrapperKind::SelfDestruct => self.base_handler == OPCODE_SELFDESTRUCT,
        }
    }

    /// Wraps a base handler with the generic step wrapper.
    pub fn from_base(base_handler: u8) -> (r: Self)
        ensures
            r == (InspectorInstruction { base_handler, wrapper: WrapperKind::Generic }),
    {
        InspectorInstruction { base_handler, wrapper: WrapperKind::Generic }
    }

    /// Runs this instrumented entry. The dispatch loop advances the
    /// program counter before dispatching, so every wrapper first rewinds
    /// it by one, letting the step hook observe the instruction about to
    /// run; a non-continue status after the hook aborts the instruction,
    /// the observer's sole pre-emption point. Otherwise the counter is
    /// restored (one past the counter the hook left, wrapping at the end
    /// of the address space), the base handler runs — with the log or
    /// self-destruct hook delivered right after it, where this entry
    /// carries one — and the step-end hook closes the bracket. The
    /// correlation stack is never touched.
    pub fn exec<H: InspectorCtx>(&self, interp: &mut Interpreter, host: &mut H)
        requires
            old(interp).pc >= 1,
            self.wf(),
        ensures
            final(host).frame_stack() == old(host).frame_stack(),
            ({
                let t0 = old(host).trace();
                let t1 = final(host).trace();
                match self.wrapper {
                    WrapperKind::Generic => generic_wrapper_events(
                        self.base_handler,
                        t0,
                        t1,
                        old(interp).pc,
                    ),
                    WrapperKind::Log => log_wrapper_events(
                        self.base_handler,
                        t0,
                        t1,
                        old(interp).pc,
                    ),
                    WrapperKind::SelfDestruct => selfdestruct_wrapper_events(
                        self.base_handler,
                        t0,
                        t1,
                        old(interp).pc,
                    ),
                }
            }),
            // On the abort path the interpreter keeps exactly the counter
            // and status the step hook left, as recorded in its event.
            step_abort_events(old(host).trace(), final(host).trace(), old(interp).pc)
                ==> (final(host).trace().last() matches TraceEvent::StepHook {
                pc_after,
                result,
                ..
            } && final(interp).pc == pc_after && final(interp).status == result),
    {
        interp.pc = interp.pc - 1;
        host.step(interp);
        if interp.status != InstructionStatus::Continue {
            proof {
                assert(final(host).trace().subrange(0, old(host).trace().len() as int)
                    =~= old(host).trace());
            }
            return ;
        }
        interp.pc = interp.pc.wrapping_add(1);
        match self.wrapper {
            WrapperKind::Generic => {
                host.run_base(self.base_handler, interp);
            },
            WrapperKind::Log => {
                host.run_base(self.base_handler, interp);
                if interp.status == InstructionStatus::Continue {
                    let jm = host.journal_ext();
                    let idx = jm.logs.len() - 1;
                    let last_log = jm.logs[idx].duplicate();
                    proof {
                        assert(host.journal().logs_v().last() == last_log@);
                    }
                    host.inspector_log(interp, &last_log);
                }
            },
            WrapperKind::SelfDestruct => {
                host.run_base(self.base_handler, interp);
                if interp.status == InstructionStatus::SelfDestruct {
                    let jm = host.journal_ext();
                    let seg = jm.last_journal();
                    let last = seg[seg.len() - 1];
                    match last {
                        JournalEntry::AccountDestroyed { address, target, had_balance } => {
                            host.inspector_selfdestruct(address, target, had_balance);
                        },
                        JournalEntry::BalanceTransfer { from, to, balance } => {
                            host.inspector_selfdestruct(from, to, balance);
                        },
                        JournalEntry::Other => {},
                    }
                }
            },
        }
        host.step_end(interp);
        proof {
            assert(final(host).trace().subrange(0, old(host).trace().len() as int)
                =~= old(host).trace());
        }
    }
}

/// Builder and owner of the 256-entry instrumented dispatch table. The
/// table is built exactly once per execution and then shared read-only, by
/// reference, across every frame of that execution.
pub struct InspectorInstructionProvider {
    instruction_table: Vec<InspectorInstruction>,
}

impl InspectorInstructionProvider {
    /// The table's contents.
    pub closed spec fn table_view(&self) -> Seq<InspectorInstruction> {
        self.instruction_table@
    }

    /// A fully built table: 256 entries with no gaps, entry `i` wrapping
    /// base handler `i` with the wrapper assigned to opcode `i`.
    pub open spec fn wf(&self) -> bool {
        &&& self.table_view().len() == 256

        &&& forall|i: int|
            0 <= i < 256 ==> #[trigger] self.table_view()[i] == (InspectorInstruction {
                base_handler: i as u8,
                wrapper: wrapper_kind_for(i as u8),
            })
    }

    /// Builds the instrumented table from the base table in one pass over
    /// the full opcode space, then replaces the entries of the five log
    /// opcodes and of self-destruct with their specialized wrappers.
    pub fn new() -> (r: Self)
        ensures
            r.wf(),
    {
        let mut table: Vec<InspectorInstruction> = Vec::new();
        let mut op: usize = 0;
        while op < 256
            invariant
                op <= 256,
                table@.len() == op,
                forall|i: int|
                    0 <= i < op ==> #[trigger] table@[i] == (InspectorInstruction {
                        base_handler: i as u8,
                        wrapper: WrapperKind::Generic,
                    }),
            decreases 256 - op,
        {
            table.push(InspectorInstruction::from_base(op as u8));
            op = op + 1;
        }
        let mut log_op: usize = OPCODE_LOG0 as usize;
        while log_op <= OPCODE_LOG4 as usize
            invariant
                OPCODE_LOG0 as int <= log_op as int <= OPCODE_LOG4 as int + 1,
                table@.len() == 256,
                forall|i: int|
                    0 <= i < 256 ==> #[trigger] table@[i] == (InspectorInstruction {
                        base_handler: i as u8,
                        wrapper: if OPCODE_LOG0 as int <= i < log_op as int {
                            WrapperKind::Log
                        } else {
                            WrapperKind::Generic
                        },
                    }),
            decreases OPCODE_LOG4 as int + 1 - log_op,
        {
            table.set(
                log_op,
                InspectorInstruction { base_handler: log_op as u8, wrapper: WrapperKind::Log },
            );
            log_op = log_op + 1;
        }
        table.set(
            OPCODE_SELFDESTRUCT as usize,
            InspectorInstruction {
                base_handler: OPCODE_SELFDESTRUCT,
                wrapper: WrapperKind::SelfDestruct,
            },
        );
        let r = InspectorInstructionProvider { instruction_table: table };
        proof {
            assert forall|i: int| 0 <= i < 256 implies #[trigger] r.table_view()[i]
                == (InspectorInstruction {
                base_handler: i as u8,
                wrapper: wrapper_kind_for(i as u8),
            }) by {
                assert(is_log_opcode(i as u8) <==> OPCODE_LOG0 as int <= i <= OPCODE_LOG4 as int);
            }
        }
        r
    }

    /// Read access to the table; callers share it by reference across all
    /// frames of one execution and never rebuild or copy it.
    pub fn table(&self) -> (r: &Vec<InspectorInstruction>)
        ensures
            r@ == self.table_view(),
    {
        &self.instruction_table
    }
}

} // verus!
