//! Plain-value models of the data that flows through the instrumentation
//! layer: addresses, 256-bit words, the interpreter's control state, log
//! entries, journal records, and the inputs and outcomes of call and
//! creation frames.

use vstd::prelude::*;

verus! {

/// A 160-bit account address, held as plain integers.
#[derive(Clone, Copy, PartialEq, Eq, Structural, Debug)]
pub struct Address {
    pub hi: u32,
    pub lo: u128,
}

/// A 256-bit word, held as two plain 128-bit halves.
#[derive(Clone, Copy, PartialEq, Eq, Structural, Debug)]
pub struct U256 {
    pub hi: u128,
    pub lo: u128,
}

/// The interpreter's control status after an instruction or a hook runs.
/// `Continue` means the dispatch loop keeps stepping; any other value ends
/// the current frame's run. `SelfDestruct` is the status a successful
/// self-destruct instruction leaves behind.
#[derive(Clone, Copy, PartialEq, Eq, Structural, Debug)]
pub enum InstructionStatus {
    Continue,
    Stop,
    Revert,
    SelfDestruct,
    Fault,
}

/// The slice of interpreter state that this layer reads and writes: the
/// program counter and the control status register. Everything else about
/// the interpreter (stack, memory, gas) belongs to the engine and stays
/// opaque to the instrumentation.
#[derive(Clone, Copy, PartialEq, Eq, Structural, Debug)]
pub struct Interpreter {
    pub pc: usize,
    pub status: InstructionStatus,
}

/// One emitted log entry: the emitting address, its topics and its data.
#[derive(Debug)]
pub struct LogData {
    pub address: Address,
    pub topics: Vec<U256>,
    pub data: Vec<u8>,
}

/// Mathematical view of a [`LogData`].
pub struct LogDataV {
    pub address: Address,
    pub topics: Seq<U256>,
    pub data: Seq<u8>,
}

impl View for LogData {
    type V = LogDataV;

    open spec fn view(&self) -> LogDataV {
        LogDataV { address: self.address, topics: self.topics@, data: self.data@ }
    }
}

/// One record of the journal's current change-log segment. The
/// instrumentation only distinguishes the two records a self-destruct can
/// append; every other record kind is `Other`.
#[derive(Clone, Copy, PartialEq, Eq, Structural, Debug)]
pub enum JournalEntry {
    AccountDestroyed { address: Address, target: Address, had_balance: U256 },
    BalanceTransfer { from: Address, to: Address, balance: U256 },
    Other,
}

/// The three kinds of frame: a call, a contract creation, or an extended
/// (EOF) creation.
#[derive(Clone, Copy, PartialEq, Eq, Structural, Debug)]
pub enum FrameKind {
    Call,
    Create,
    EofCreate,
}

/// Inputs of a call frame.
#[derive(Debug)]
pub struct CallInputs {
    pub caller: Address,
    pub target: Address,
    pub value: U256,
    pub input: Vec<u8>,
    pub gas_limit: u64,
}

/// Mathematical view of [`CallInputs`].
pub struct CallInputsV {
    pub caller: Address,
    pub target: Address,
    pub value: U256,
    pub input: Seq<u8>,
    pub gas_limit: u64,
}

impl View for CallInputs {
    type V = CallInputsV;

    open spec fn view(&self) -> CallInputsV {
        CallInputsV {
            caller: self.caller,
            target: self.target,
            value: self.value,
            input: self.input@,
            gas_limit: self.gas_limit,
        }
    }
}

/// Inputs of a creation frame.
#[derive(Debug)]
pub struct CreateInputs {
    pub caller: Address,
    pub value: U256,
    pub init_code: Vec<u8>,
    pub gas_limit: u64,
}

/// Mathematical view of [`CreateInputs`].
pub struct CreateInputsV {
    pub caller: Address,
    pub value: U256,
    pub init_code: Seq<u8>,
    pub gas_limit: u64,
}

impl View for CreateInputs {
    type V = CreateInputsV;

    open spec fn view(&self) -> CreateInputsV {
        CreateInputsV {
            caller: self.caller,
            value: self.value,
            init_code: self.init_code@,
            gas_limit: self.gas_limit,
        }
    }
}

/// Inputs of an extended-creation frame.
#[derive(Debug)]
pub struct EofCreateInputs {
    pub caller: Address,
    pub value: U256,
    pub init_code: Vec<u8>,
    pub gas_limit: u64,
}

/// Mathematical view of [`EofCreateInputs`].
pub struct EofCreateInputsV {
    pub caller: Address,
    pub value: U256,
    pub init_code: Seq<u8>,
    pub gas_limit: u64,
}

impl View for EofCreateInputs {
    type V = EofCreateInputsV;

    open spec fn view(&self) -> EofCreateInputsV {
        EofCreateInputsV {
            caller: self.caller,
            value: self.value,
            init_code: self.init_code@,
            gas_limit: self.gas_limit,
        }
    }
}

/// A frame-entry descriptor: the request to enter a call, creation or
/// extended-creation frame, with that frame's inputs.
#[derive(Debug)]
pub enum FrameInput {
    Call(CallInputs),
    Create(CreateInputs),
    EofCreate(EofCreateInputs),
}

/// Mathematical view of [`FrameInput`].
pub enum FrameInputV {
    Call(CallInputsV),
    Create(CreateInputsV),
    EofCreate(EofCreateInputsV),
}

impl View for FrameInput {
    type V = FrameInputV;

    open spec fn view(&self) -> FrameInputV {
        match self {
            FrameInput::Call(i) => FrameInputV::Call(i@),
            FrameInput::Create(i) => FrameInputV::Create(i@),
            FrameInput::EofCreate(i) => FrameInputV::EofCreate(i@),
        }
    }
}

impl FrameInputV {
    /// The kind of frame this input requests.
    pub open spec fn kind(self) -> FrameKind {
        match self {
            FrameInputV::Call(_) => FrameKind::Call,
            FrameInputV::Create(_) => FrameKind::Create,
            FrameInputV::EofCreate(_) => FrameKind::EofCreate,
        }
    }
}

/// Outcome of a call frame: final status, return data and remaining gas.
#[derive(Debug)]
pub struct CallOutcome {
    pub result: InstructionStatus,
    pub output: Vec<u8>,
    pub gas_remaining: u64,
}

/// Mathematical view of [`CallOutcome`].
pub struct CallOutcomeV {
    pub result: InstructionStatus,
    pub output: Seq<u8>,
    pub gas_remaining: u64,
}

impl View for CallOutcome {
    type V = CallOutcomeV;

    open spec fn view(&self) -> CallOutcomeV {
        CallOutcomeV {
            result: self.result,
            output: self.output@,
            gas_remaining: self.gas_remaining,
        }
    }
}

/// Outcome of a creation or extended-creation frame: final status, return
/// data, remaining gas, and the created address if creation succeeded.
#[derive(Debug)]
pub struct CreateOutcome {
    pub result: InstructionStatus,
    pub output: Vec<u8>,
    pub gas_remaining: u64,
    pub address: Option<Address>,
}

/// Mathematical view of [`CreateOutcome`].
pub struct CreateOutcomeV {
    pub result: InstructionStatus,
    pub output: Seq<u8>,
    pub gas_remaining: u64,
    pub address: Option<Address>,
}

impl View for CreateOutcome {
    type V = CreateOutcomeV;

    open spec fn view(&self) -> CreateOutcomeV {
        CreateOutcomeV {
            result: self.result,
            output: self.output@,
            gas_remaining: self.gas_remaining,
            address: self.address,
        }
    }
}

/// A frame's resolved outcome, tagged with the same kind as the input that
/// requested the frame.
#[derive(Debug)]
pub enum FrameResult {
    Call(CallOutcome),
    Create(CreateOutcome),
    EofCreate(CreateOutcome),
}

/// Mathematical view of [`FrameResult`].
pub enum FrameResultV {
    Call(CallOutcomeV),
    Create(CreateOutcomeV),
    EofCreate(CreateOutcomeV),
}

impl View for FrameResult {
    type V = FrameResultV;

    open spec fn view(&self) -> FrameResultV {
        match self {
            FrameResult::Call(o) => FrameResultV::Call(o@),
            FrameResult::Create(o) => FrameResultV::Create(o@),
            FrameResult::EofCreate(o) => FrameResultV::EofCreate(o@),
        }
    }
}

impl FrameResultV {
    /// The kind of frame this outcome resolves.
    pub open spec fn kind(self) -> FrameKind {
        match self {
            FrameResultV::Call(_) => FrameKind::Call,
            FrameResultV::Create(_) => FrameKind::Create,
            FrameResultV::EofCreate(_) => FrameKind::EofCreate,
        }
    }
}

/// Opcode byte of the log instruction with zero topics.
pub const OPCODE_LOG0: u8 = 0xa0;

/// Opcode byte of the log instruction with one topic.
pub const OPCODE_LOG1: u8 = 0xa1;

/// Opcode byte of the log instruction with two topics.
pub const OPCODE_LOG2: u8 = 0xa2;

/// Opcode byte of the log instruction with three topics.
pub const OPCODE_LOG3: u8 = 0xa3;

/// Opcode byte of the log instruction with four topics.
pub const OPCODE_LOG4: u8 = 0xa4;

/// Opcode byte of the self-destruct instruction.
pub const OPCODE_SELFDESTRUCT: u8 = 0xff;

/// True of the five log opcodes.
pub open spec fn is_log_opcode(op: u8) -> bool {
    OPCODE_LOG0 <= op <= OPCODE_LOG4
}

/// Copies a vector of plain values element by element.
fn copy_vec<T: Copy>(v: &Vec<T>) -> (r: Vec<T>)
    ensures
        r@ == v@,
{
    let mut r: Vec<T> = Vec::new();
    let mut i: usize = 0;
    while i < v.len()
        invariant
            i <= v.len(),
            r@ == v@.subrange(0, i as int),
        decreases v.len() - i,
    {
        r.push(v[i]);
        proof {
            assert(v@.subrange(0, i as int).push(v@[i as int]) =~= v@.subrange(0, i + 1 as int));
        }
        i = i + 1;
    }
    proof {
        assert(v@.subrange(0, v@.len() as int) =~= v@);
    }
    r
}

impl LogData {
    /// A fresh value with the same contents.
    pub fn duplicate(&self) -> (r: LogData)
        ensures
            r@ == self@,
    {
        LogData { address: self.address, topics: copy_vec(&self.topics), data: copy_vec(&self.data) }
    }
}

impl CallInputs {
    /// A fresh value with the same contents.
    pub fn duplicate(&self) -> (r: CallInputs)
        ensures
            r@ == self@,
    {
        CallInputs {
            caller: self.caller,
            target: self.target,
            value: self.value,
            input: copy_vec(&self.input),
            gas_limit: self.gas_limit,
        }
    }
}

impl CreateInputs {
    /// A fresh value with the same contents.
    pub fn duplicate(&self) -> (r: CreateInputs)
        ensures
            r@ == self@,
    {
        CreateInputs {
            caller: self.caller,
            value: self.value,
            init_code: copy_vec(&self.init_code),
            gas_limit: self.gas_limit,
        }
    }
}

impl EofCreateInputs {
    /// A fresh value with the same contents.
    pub fn duplicate(&self) -> (r: EofCreateInputs)
        ensures
            r@ == self@,
    {
        EofCreateInputs {
            caller: self.caller,
            value: self.value,
            init_code: copy_vec(&self.init_code),
            gas_limit: self.gas_limit,
        }
    }
}

impl FrameInput {
    /// A fresh value with the same contents.
    pub fn duplicate(&self) -> (r: FrameInput)
        ensures
            r@ == self@,
    {
        match self {
            FrameInput::Call(i) => FrameInput::Call(i.duplicate()),
            FrameInput::Create(i) => FrameInput::Create(i.duplicate()),
            FrameInput::EofCreate(i) => FrameInput::EofCreate(i.duplicate()),
        }
    }
}

} // verus!
