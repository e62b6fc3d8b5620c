use inspector::ctx::{BaseInstructions, InspectorContext, InspectorCtx};
use inspector::inspector::Inspector;
use inspector::journal::{JournalExtGetter, JournaledState};
use inspector::table::InspectorInstructionProvider;
use inspector::types::{InstructionStatus, Interpreter, LogData};

struct TestCtx {
    journal: JournaledState,
}

impl TestCtx {
    fn fresh() -> TestCtx {
        TestCtx { journal: JournaledState { logs: Vec::new(), journal: vec![Vec::new()] } }
    }
}

impl JournalExtGetter for TestCtx {
    // Ghost accessor, required by the trait but never called at runtime.
    fn journal(&self) -> JournaledState {
        JournaledState { logs: Vec::new(), journal: Vec::new() }
    }

    fn journal_ext(&self) -> &JournaledState {
        &self.journal
    }
}

impl BaseInstructions for TestCtx {
    fn run_base_instruction(&mut self, opcode: u8, interp: &mut Interpreter) {
        match opcode {
            0x00 => interp.status = InstructionStatus::Stop,
            _ => interp.status = InstructionStatus::Continue,
        }
    }
}

struct RecInsp {
    rec: Vec<String>,
    abort_on_step: bool,
}

impl Inspector<TestCtx> for RecInsp {
    fn step(&mut self, interp: &mut Interpreter, _context: &mut TestCtx) {
        self.rec.push(format!("step pc={}", interp.pc));
        if self.abort_on_step {
            interp.status = InstructionStatus::Revert;
        }
    }

    fn step_end(&mut self, interp: &mut Interpreter, _context: &mut TestCtx) {
        self.rec.push(format!("step_end pc={}", interp.pc));
    }

    fn log(&mut self, _interp: &mut Interpreter, _context: &mut TestCtx, _log_entry: &LogData) {
        self.rec.push(String::from("log"));
    }
}

fn composed(abort_on_step: bool) -> InspectorContext<RecInsp, TestCtx> {
    InspectorContext::new(TestCtx::fresh(), RecInsp { rec: Vec::new(), abort_on_step })
}

#[test]
fn step_and_step_end_bracket_an_ordinary_instruction() {
    let provider = InspectorInstructionProvider::new();
    let mut ctx = composed(false);
    let mut interp = Interpreter { pc: 4, status: InstructionStatus::Continue };
    let entry = provider.table()[0x01];
    entry.exec(&mut interp, &mut ctx);
    // The step hook observes the rewound counter; the counter is restored
    // before the base handler runs.
    assert_eq!(ctx.inspector.rec, vec![String::from("step pc=3"), String::from("step_end pc=4")]);
    assert_eq!(interp.status, InstructionStatus::Continue);
}

#[test]
fn step_abort_skips_base_handler_and_step_end() {
    let provider = InspectorInstructionProvider::new();
    let mut ctx = composed(true);
    let mut interp = Interpreter { pc: 4, status: InstructionStatus::Continue };
    let entry = provider.table()[0x01];
    entry.exec(&mut interp, &mut ctx);
    assert_eq!(ctx.inspector.rec, vec![String::from("step pc=3")]);
    assert_eq!(interp.status, InstructionStatus::Revert);
}

#[test]
fn base_handler_status_is_visible_to_step_end() {
    let provider = InspectorInstructionProvider::new();
    let mut ctx = composed(false);
    let mut interp = Interpreter { pc: 1, status: InstructionStatus::Continue };
    let entry = provider.table()[0x00];
    entry.exec(&mut interp, &mut ctx);
    assert_eq!(ctx.inspector.rec.len(), 2);
    assert_eq!(interp.status, InstructionStatus::Stop);
}

#[test]
fn step_hooks_fire_once_per_instruction() {
    let provider = InspectorInstructionProvider::new();
    let mut ctx = composed(false);
    for _ in 0..5 {
        let mut interp = Interpreter { pc: 2, status: InstructionStatus::Continue };
        let entry = provider.table()[0x01];
        entry.exec(&mut interp, &mut ctx);
    }
    let steps = ctx.inspector.rec.iter().filter(|r| r.starts_with("step pc")).count();
    let ends = ctx.inspector.rec.iter().filter(|r| r.starts_with("step_end")).count();
    assert_eq!(steps, 5);
    assert_eq!(ends, 5);
}

#[test]
fn direct_step_hook_reaches_the_inspector() {
    let mut ctx = composed(false);
    let mut interp = Interpreter { pc: 9, status: InstructionStatus::Continue };
    ctx.step(&mut interp);
    ctx.step_end(&mut interp);
    assert_eq!(ctx.inspector.rec, vec![String::from("step pc=9"), String::from("step_end pc=9")]);
}
