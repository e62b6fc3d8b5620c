//! End-to-end runs through the composed execution handler: frame entries
//! pair with exits in LIFO order, the correlation stack drains, and an
//! overridden nested frame neither pushes an entry nor receives an exit.

use inspector::ctx::{BaseInstructions, InspectorContext};
use inspector::frame::{EngineError, EngineFrame, FrameOrResultGen, FrameTagged};
use inspector::handler::inspector_handler;
use inspector::inspector::Inspector;
use inspector::journal::{JournalExtGetter, JournaledState};
use inspector::types::{
    Address, CallInputs, CallOutcome, FrameInput, FrameKind, FrameResult, InstructionStatus,
    Interpreter, U256,
};

fn addr(n: u128) -> Address {
    Address { hi: 0, lo: n }
}

fn word(n: u128) -> U256 {
    U256 { hi: 0, lo: n }
}

fn call_input(target: u128, gas_limit: u64) -> FrameInput {
    FrameInput::Call(CallInputs {
        caller: addr(1),
        target: addr(target),
        value: word(0),
        input: vec![],
        gas_limit,
    })
}

struct TestCtx {
    journal: JournaledState,
}

impl TestCtx {
    fn fresh() -> TestCtx {
        TestCtx { journal: JournaledState { logs: Vec::new(), journal: vec![Vec::new()] } }
    }
}

impl JournalExtGetter for TestCtx {
    // Ghost accessor, required by the trait but never called at runtime.
    fn journal(&self) -> JournaledState {
        JournaledState { logs: Vec::new(), journal: Vec::new() }
    }

    fn journal_ext(&self) -> &JournaledState {
        &self.journal
    }
}

impl BaseInstructions for TestCtx {
    fn run_base_instruction(&mut self, _opcode: u8, interp: &mut Interpreter) {
        interp.status = InstructionStatus::Continue;
    }
}

struct RecInsp {
    rec: Vec<String>,
    override_targets: Vec<u128>,
}

impl Inspector<TestCtx> for RecInsp {
    fn initialize_interp(&mut self, _interp: &mut Interpreter, _context: &mut TestCtx) {
        self.rec.push(String::from("init"));
    }

    fn call(&mut self, _context: &mut TestCtx, inputs: &mut CallInputs) -> Option<CallOutcome> {
        self.rec.push(format!("call target={}", inputs.target.lo));
        if self.override_targets.contains(&inputs.target.lo) {
            Some(CallOutcome {
                result: InstructionStatus::Stop,
                output: vec![0x77],
                gas_remaining: 9,
            })
        } else {
            None
        }
    }

    fn call_end(
        &mut self,
        _context: &mut TestCtx,
        inputs: &CallInputs,
        _outcome: &mut CallOutcome,
    ) {
        self.rec.push(format!("call_end target={}", inputs.target.lo));
    }
}

type Ctx = InspectorContext<RecInsp, TestCtx>;

/// A model engine frame. The request's gas limit scripts the run: 0
/// resolves immediately, 1 fails, 10 and above spawns; a spawned frame
/// with gas 100 + g requests one nested frame with gas g before it
/// resolves.
struct TestFrame {
    pending: Vec<u64>,
}

fn gas_of(input: &FrameInput) -> u64 {
    match input {
        FrameInput::Call(c) => c.gas_limit,
        FrameInput::Create(c) => c.gas_limit,
        FrameInput::EofCreate(c) => c.gas_limit,
    }
}

fn create_frame(
    frame_input: FrameInput,
) -> Result<FrameOrResultGen<(TestFrame, Interpreter), FrameResult>, EngineError> {
    let gas = gas_of(&frame_input);
    if gas == 1 {
        Err(EngineError { code: 13 })
    } else if gas < 10 {
        Ok(FrameOrResultGen::Result(FrameResult::Call(CallOutcome {
            result: InstructionStatus::Stop,
            output: vec![],
            gas_remaining: 2,
        })))
    } else {
        let pending = if gas >= 100 { vec![gas - 100] } else { vec![] };
        Ok(FrameOrResultGen::Frame((
            TestFrame { pending },
            Interpreter { pc: 1, status: InstructionStatus::Continue },
        )))
    }
}

impl FrameTagged for TestFrame {
    // Ghost accessor, required by the trait but never called at runtime.
    fn kind(&self) -> FrameKind {
        FrameKind::Call
    }
}

impl EngineFrame<Ctx> for TestFrame {
    fn init_first(
        _ctx: &mut Ctx,
        frame_input: FrameInput,
    ) -> Result<FrameOrResultGen<(TestFrame, Interpreter), FrameResult>, EngineError> {
        create_frame(frame_input)
    }

    fn init(
        &self,
        _ctx: &mut Ctx,
        frame_input: FrameInput,
    ) -> Result<FrameOrResultGen<(TestFrame, Interpreter), FrameResult>, EngineError> {
        create_frame(frame_input)
    }

    fn run(
        &mut self,
        _interp: &mut Interpreter,
        _ctx: &mut Ctx,
    ) -> Result<FrameOrResultGen<FrameInput, FrameResult>, EngineError> {
        match self.pending.pop() {
            Some(gas) => Ok(FrameOrResultGen::Frame(call_input(0xb, gas))),
            None => Ok(FrameOrResultGen::Result(FrameResult::Call(CallOutcome {
                result: InstructionStatus::Stop,
                output: vec![],
                gas_remaining: 4,
            }))),
        }
    }

    fn return_result(
        &mut self,
        _ctx: &mut Ctx,
        _result: FrameResult,
    ) -> Result<(), EngineError> {
        Ok(())
    }
}

fn composed(override_targets: Vec<u128>) -> Ctx {
    InspectorContext::new(TestCtx::fresh(), RecInsp { rec: Vec::new(), override_targets })
}

fn run_to_end(ctx: &mut Ctx, input: FrameInput) -> Option<FrameResult> {
    let handler = inspector_handler();
    handler.run::<Ctx, TestFrame>(ctx, input, 32).expect("engine error")
}

#[test]
fn plain_run_fires_entry_and_exit_once() {
    let mut ctx = composed(vec![]);
    let res = run_to_end(&mut ctx, call_input(0xa, 10));
    assert!(res.is_some());
    assert_eq!(ctx.frame_input_stack.len(), 0);
    assert_eq!(
        ctx.inspector.rec,
        vec![
            String::from("call target=10"),
            String::from("init"),
            String::from("call_end target=10"),
        ]
    );
}

#[test]
fn nested_spawned_frame_pairs_inside_the_parent() {
    let mut ctx = composed(vec![]);
    // Root gas 110: one nested request with gas 10, itself spawned.
    let res = run_to_end(&mut ctx, call_input(0xa, 110));
    assert!(res.is_some());
    assert_eq!(ctx.frame_input_stack.len(), 0);
    assert_eq!(
        ctx.inspector.rec,
        vec![
            String::from("call target=10"),
            String::from("init"),
            String::from("call target=11"),
            String::from("init"),
            String::from("call_end target=11"),
            String::from("call_end target=10"),
        ]
    );
}

#[test]
fn immediately_resolved_nested_frame_pairs_at_creation() {
    let mut ctx = composed(vec![]);
    // Root gas 100: one nested request with gas 0, resolved on the spot.
    let res = run_to_end(&mut ctx, call_input(0xa, 100));
    assert!(res.is_some());
    assert_eq!(ctx.frame_input_stack.len(), 0);
    assert_eq!(
        ctx.inspector.rec,
        vec![
            String::from("call target=10"),
            String::from("init"),
            String::from("call target=11"),
            String::from("call_end target=11"),
            String::from("call_end target=10"),
        ]
    );
}

#[test]
fn overridden_nested_frame_gets_no_exit_and_balance_holds() {
    let mut ctx = composed(vec![0xb]);
    let res = run_to_end(&mut ctx, call_input(0xa, 100));
    assert!(res.is_some());
    assert_eq!(ctx.frame_input_stack.len(), 0);
    // The overridden child fires its entry pre-hook only: no entry was
    // pushed for it, so no exit pairs with it, while the parent's own
    // exit still fires exactly once.
    assert_eq!(
        ctx.inspector.rec,
        vec![
            String::from("call target=10"),
            String::from("init"),
            String::from("call target=11"),
            String::from("call_end target=10"),
        ]
    );
}

#[test]
fn overridden_root_run_is_the_result_verbatim() {
    let mut ctx = composed(vec![0xa]);
    let res = run_to_end(&mut ctx, call_input(0xa, 10));
    match res {
        Some(FrameResult::Call(outcome)) => {
            assert_eq!(outcome.output, vec![0x77]);
            assert_eq!(outcome.gas_remaining, 9);
        }
        _ => panic!("expected the overridden outcome"),
    }
    assert_eq!(ctx.inspector.rec, vec![String::from("call target=10")]);
    assert_eq!(ctx.frame_input_stack.len(), 0);
}

#[test]
fn engine_error_during_creation_is_passed_through() {
    let mut ctx = composed(vec![]);
    let handler = inspector_handler();
    let r = handler.run::<Ctx, TestFrame>(&mut ctx, call_input(0xa, 1), 32);
    match r {
        Err(e) => assert_eq!(e.code, 13),
        _ => panic!("expected the engine's error"),
    }
}

#[test]
fn exhausted_fuel_reports_an_unfinished_run() {
    let mut ctx = composed(vec![]);
    let handler = inspector_handler();
    let r = handler.run::<Ctx, TestFrame>(&mut ctx, call_input(0xa, 10), 0);
    assert!(matches!(r, Ok(None)));
}
