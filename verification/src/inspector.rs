//! The observer interface: eleven hook points, each with a no-op default,
//! so a partial implementation is always valid. Pre-hooks for frames may
//! return an outcome, which totally overrides the frame; post-hooks may
//! adjust a computed outcome in place; `step` and `step_end` bracket every
//! instruction and may abort it by setting a non-continue status.

use vstd::prelude::*;

use crate::types::{
    Address, CallInputs, CallOutcome, CreateInputs, CreateOutcome, EofCreateInputs, Interpreter,
    LogData, U256,
};

verus! {

/// Interpreter callbacks. `CTX` is the inner execution context handed to
/// each hook; hooks are arbitrary user code and carry no contract.
pub trait Inspector<CTX> {
    /// Called once before a freshly created frame's interpreter runs.
    fn initialize_interp(&mut self, interp: &mut Interpreter, context: &mut CTX) {
        let _ = interp;
        let _ = context;
    }

    /// Called before each instruction executes, with the program counter
    /// rewound to the instruction about to run. Setting a non-continue
    /// status aborts the instruction: neither the base handler nor
    /// `step_end` will run.
    fn step(&mut self, interp: &mut Interpreter, context: &mut CTX) {
        let _ = interp;
        let _ = context;
    }

    /// Called after each instruction that `step` let run.
    fn step_end(&mut self, interp: &mut Interpreter, context: &mut CTX) {
        let _ = interp;
        let _ = context;
    }

    /// Called when a log has been emitted, after it was appended to the
    /// journal; the hook cannot alter the log.
    fn log(&mut self, interp: &mut Interpreter, context: &mut CTX, log_entry: &LogData) {
        let _ = interp;
        let _ = context;
        let _ = log_entry;
    }

    /// Called when a call frame is about to start. Returning `Some`
    /// overrides the call: the frame is never entered and the returned
    /// outcome is used verbatim as its result.
    fn call(&mut self, context: &mut CTX, inputs: &mut CallInputs) -> (r: Option<CallOutcome>) {
        let _ = context;
        let _ = inputs;
        None
    }

    /// Called when a call frame has concluded; may adjust the outcome.
    fn call_end(&mut self, context: &mut CTX, inputs: &CallInputs, outcome: &mut CallOutcome) {
        let _ = context;
        let _ = inputs;
        let _ = outcome;
    }

    /// Called when a creation frame is about to start; `Some` overrides it.
    fn create(&mut self, context: &mut CTX, inputs: &mut CreateInputs) -> (r: Option<
        CreateOutcome,
    >) {
        let _ = context;
        let _ = inputs;
        None
    }

    /// Called when a creation frame has concluded; may adjust the outcome.
    fn create_end(
        &mut self,
        context: &mut CTX,
        inputs: &CreateInputs,
        outcome: &mut CreateOutcome,
    ) {
        let _ = context;
        let _ = inputs;
        let _ = outcome;
    }

    /// Called when an extended-creation frame is about to start; `Some`
    /// overrides it.
    fn eofcreate(&mut self, context: &mut CTX, inputs: &mut EofCreateInputs) -> (r: Option<
        CreateOutcome,
    >) {
        let _ = context;
        let _ = inputs;
        None
    }

    /// Called when an extended-creation frame has concluded; may adjust
    /// the outcome.
    fn eofcreate_end(
        &mut self,
        context: &mut CTX,
        inputs: &EofCreateInputs,
        outcome: &mut CreateOutcome,
    ) {
        let _ = context;
        let _ = inputs;
        let _ = outcome;
    }

    /// Called when a contract has been self-destructed with its balance
    /// transferred to the target.
    fn selfdestruct(&mut self, contract: Address, target: Address, value: U256) {
        let _ = contract;
        let _ = target;
        let _ = value;
    }
}

/// Provides access to an [`Inspector`] instance.
pub trait GetInspector<CTX> {
    /// The inspector type handed out.
    type Insp: Inspector<CTX>;

    /// Returns the associated inspector.
    fn get_inspector(&mut self) -> &mut Self::Insp;
}

impl<CTX, INSP: Inspector<CTX>> GetInspector<CTX> for INSP {
    type Insp = INSP;

    fn get_inspector(&mut self) -> &mut INSP {
        self
    }
}

} // verus!
