use inspector::ctx::{BaseInstructions, InspectorContext};
use inspector::frame::{EngineError, EngineFrame, FrameOrResultGen, FrameTagged, InspectorEthFrame};
use inspector::inspector::Inspector;
use inspector::journal::{JournalExtGetter, JournaledState};
use inspector::types::{
    Address, CallInputs, CallOutcome, FrameInput, FrameKind, FrameResult, InstructionStatus,
    Interpreter, U256,
};

fn addr(n: u128) -> Address {
    Address { hi: 0, lo: n }
}

fn word(n: u128) -> U256 {
    U256 { hi: 0, lo: n }
}

fn call_input(target: u128, gas_limit: u64) -> FrameInput {
    FrameInput::Call(CallInputs {
        caller: addr(1),
        target: addr(target),
        value: word(0),
        input: vec![0xca, 0xfe],
        gas_limit,
    })
}

struct TestCtx {
    journal: JournaledState,
}

impl TestCtx {
    fn fresh() -> TestCtx {
        TestCtx { journal: JournaledState { logs: Vec::new(), journal: vec![Vec::new()] } }
    }
}

impl JournalExtGetter for TestCtx {
    // Ghost accessor, required by the trait but never called at runtime.
    fn journal(&self) -> JournaledState {
        JournaledState { logs: Vec::new(), journal: Vec::new() }
    }

    fn journal_ext(&self) -> &JournaledState {
        &self.journal
    }
}

impl BaseInstructions for TestCtx {
    fn run_base_instruction(&mut self, _opcode: u8, interp: &mut Interpreter) {
        interp.status = InstructionStatus::Continue;
    }
}

struct RecInsp {
    rec: Vec<String>,
    override_targets: Vec<u128>,
}

impl Inspector<TestCtx> for RecInsp {
    fn initialize_interp(&mut self, _interp: &mut Interpreter, _context: &mut TestCtx) {
        self.rec.push(String::from("init"));
    }

    fn call(&mut self, _context: &mut TestCtx, inputs: &mut CallInputs) -> Option<CallOutcome> {
        self.rec.push(format!("call target={}", inputs.target.lo));
        if self.override_targets.contains(&inputs.target.lo) {
            Some(CallOutcome {
                result: InstructionStatus::Stop,
                output: vec![0x99],
                gas_remaining: 42,
            })
        } else {
            None
        }
    }

    fn call_end(
        &mut self,
        _context: &mut TestCtx,
        inputs: &CallInputs,
        outcome: &mut CallOutcome,
    ) {
        self.rec.push(format!("call_end target={}", inputs.target.lo));
        outcome.gas_remaining += 1;
    }
}

type Ctx = InspectorContext<RecInsp, TestCtx>;

/// A model of the engine's frame machinery: the call input's gas limit
/// picks the creation outcome — 0 resolves immediately, 1 fails, anything
/// else spawns an active frame.
struct TestFrame;

fn gas_of(input: &FrameInput) -> u64 {
    match input {
        FrameInput::Call(c) => c.gas_limit,
        FrameInput::Create(c) => c.gas_limit,
        FrameInput::EofCreate(c) => c.gas_limit,
    }
}

fn resolved(input: &FrameInput) -> FrameResult {
    let outcome = CallOutcome {
        result: InstructionStatus::Stop,
        output: vec![],
        gas_remaining: 5,
    };
    match input {
        FrameInput::Call(_) => FrameResult::Call(outcome),
        FrameInput::Create(_) => unreachable!("only call frames are modelled here"),
        FrameInput::EofCreate(_) => unreachable!("only call frames are modelled here"),
    }
}

fn create_frame(
    frame_input: FrameInput,
) -> Result<FrameOrResultGen<(TestFrame, Interpreter), FrameResult>, EngineError> {
    match gas_of(&frame_input) {
        0 => Ok(FrameOrResultGen::Result(resolved(&frame_input))),
        1 => Err(EngineError { code: 7 }),
        _ => Ok(FrameOrResultGen::Frame((
            TestFrame,
            Interpreter { pc: 1, status: InstructionStatus::Continue },
        ))),
    }
}

impl FrameTagged for TestFrame {
    // Ghost accessor, required by the trait but never called at runtime.
    fn kind(&self) -> FrameKind {
        FrameKind::Call
    }
}

impl EngineFrame<Ctx> for TestFrame {
    fn init_first(
        _ctx: &mut Ctx,
        frame_input: FrameInput,
    ) -> Result<FrameOrResultGen<(TestFrame, Interpreter), FrameResult>, EngineError> {
        create_frame(frame_input)
    }

    fn init(
        &self,
        _ctx: &mut Ctx,
        frame_input: FrameInput,
    ) -> Result<FrameOrResultGen<(TestFrame, Interpreter), FrameResult>, EngineError> {
        create_frame(frame_input)
    }

    fn run(
        &mut self,
        _interp: &mut Interpreter,
        _ctx: &mut Ctx,
    ) -> Result<FrameOrResultGen<FrameInput, FrameResult>, EngineError> {
        Ok(FrameOrResultGen::Result(FrameResult::Call(CallOutcome {
            result: InstructionStatus::Stop,
            output: vec![],
            gas_remaining: 3,
        })))
    }

    fn return_result(
        &mut self,
        _ctx: &mut Ctx,
        _result: FrameResult,
    ) -> Result<(), EngineError> {
        Ok(())
    }
}

fn composed(override_targets: Vec<u128>) -> Ctx {
    InspectorContext::new(TestCtx::fresh(), RecInsp { rec: Vec::new(), override_targets })
}

#[test]
fn override_outcome_is_returned_verbatim_without_entering_the_frame() {
    let mut ctx = composed(vec![0xa]);
    let r = InspectorEthFrame::<TestFrame>::init_first(&mut ctx, call_input(0xa, 100));
    match r {
        Ok(FrameOrResultGen::Result(FrameResult::Call(outcome))) => {
            assert_eq!(outcome.result, InstructionStatus::Stop);
            assert_eq!(outcome.output, vec![0x99]);
            assert_eq!(outcome.gas_remaining, 42);
        }
        _ => panic!("expected an overridden result"),
    }
    // The pre-hook fired; nothing else did, and the correlation stack
    // never moved.
    assert_eq!(ctx.inspector.rec, vec![String::from("call target=10")]);
    assert_eq!(ctx.frame_input_stack.len(), 0);
}

#[test]
fn entered_frame_pushes_entry_and_fires_initialize_interp() {
    let mut ctx = composed(vec![]);
    let r = InspectorEthFrame::<TestFrame>::init_first(&mut ctx, call_input(0xa, 100));
    assert!(matches!(r, Ok(FrameOrResultGen::Frame(_))));
    assert_eq!(
        ctx.inspector.rec,
        vec![String::from("call target=10"), String::from("init")]
    );
    assert_eq!(ctx.frame_input_stack.len(), 1);
}

#[test]
fn immediately_resolved_first_frame_fires_exit_hook_and_balances_stack() {
    let mut ctx = composed(vec![]);
    let r = InspectorEthFrame::<TestFrame>::init_first(&mut ctx, call_input(0xa, 0));
    match r {
        Ok(FrameOrResultGen::Result(FrameResult::Call(outcome))) => {
            // The exit post-hook adjusted the outcome before delivery.
            assert_eq!(outcome.gas_remaining, 6);
        }
        _ => panic!("expected an immediate result"),
    }
    assert_eq!(
        ctx.inspector.rec,
        vec![String::from("call target=10"), String::from("call_end target=10")]
    );
    assert_eq!(ctx.frame_input_stack.len(), 0);
}

#[test]
fn engine_error_passes_through_unchanged() {
    let mut ctx = composed(vec![]);
    let r = InspectorEthFrame::<TestFrame>::init_first(&mut ctx, call_input(0xa, 1));
    match r {
        Err(e) => assert_eq!(e.code, 7),
        _ => panic!("expected the engine's error"),
    }
}

#[test]
fn nested_frames_pair_entries_and_exits_in_lifo_order() {
    let mut ctx = composed(vec![]);
    let root = InspectorEthFrame::<TestFrame>::init_first(&mut ctx, call_input(0xa, 100));
    let mut root_frame = match root {
        Ok(FrameOrResultGen::Frame(f)) => f,
        _ => panic!("expected a spawned root frame"),
    };
    assert_eq!(ctx.frame_input_stack.len(), 1);

    // A nested frame that the engine resolves immediately: its entry is
    // pushed and popped inside `init`, its exit post-hook firing at once;
    // folding the settled result into the parent fires nothing further.
    let child = root_frame.init(&mut ctx, call_input(0xb, 0));
    let child_result = match child {
        Ok(FrameOrResultGen::Result(res)) => res,
        _ => panic!("expected the child to resolve immediately"),
    };
    assert_eq!(ctx.frame_input_stack.len(), 1);
    assert!(root_frame.fold_resolved(&mut ctx, child_result).is_ok());
    assert_eq!(ctx.frame_input_stack.len(), 1);

    // The root frame resolves through run and final_return.
    let run = root_frame.run(&mut ctx);
    let mut root_result = match run {
        Ok(FrameOrResultGen::Result(res)) => res,
        _ => panic!("expected the root run to resolve"),
    };
    assert!(InspectorEthFrame::<TestFrame>::final_return(&mut ctx, &mut root_result).is_ok());
    assert_eq!(ctx.frame_input_stack.len(), 0);

    assert_eq!(
        ctx.inspector.rec,
        vec![
            String::from("call target=10"),
            String::from("init"),
            String::from("call target=11"),
            String::from("call_end target=11"),
            String::from("call_end target=10"),
        ]
    );
}

#[test]
fn overridden_nested_frame_leaves_stack_depth_unchanged() {
    let mut ctx = composed(vec![0xb]);
    let root = InspectorEthFrame::<TestFrame>::init_first(&mut ctx, call_input(0xa, 100));
    let mut root_frame = match root {
        Ok(FrameOrResultGen::Frame(f)) => f,
        _ => panic!("expected a spawned root frame"),
    };
    assert_eq!(ctx.frame_input_stack.len(), 1);

    let child = root_frame.init(&mut ctx, call_input(0xb, 100));
    match child {
        Ok(FrameOrResultGen::Result(FrameResult::Call(outcome))) => {
            assert_eq!(outcome.output, vec![0x99]);
            assert_eq!(outcome.gas_remaining, 42);
        }
        _ => panic!("expected the child to be overridden"),
    }
    // No push for the overridden child, no exit hook for it, and no
    // initialize_interp.
    assert_eq!(ctx.frame_input_stack.len(), 1);
    assert_eq!(
        ctx.inspector.rec,
        vec![
            String::from("call target=10"),
            String::from("init"),
            String::from("call target=11"),
        ]
    );
}
