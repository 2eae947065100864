//! Owned, serializable trace events.
//!
//! Every significant runtime event is described by one `Event` value that
//! owns its payload, so a host can ship it to an external observer. The
//! zero-copy forms for in-process observers live in `trace`.

use vstd::prelude::*;

use crate::context::{Context, CreateScheme};
use crate::exit::{Capture, ExitReason};
use crate::handler::Transfer;
use crate::machine::Opcode;
use crate::memory::Memory;
use crate::stack::Stack;
use crate::types::{H160, H256, U256};

verus! {

/// One runtime event, with its payload held by value.
#[derive(Debug)]
pub enum Event {
    /// A nested call is dispatched.
    Call {
        /// Address whose code is called.
        code_address: H160,
        /// Value movement accompanying the call.
        transfer: Option<Transfer>,
        /// Input data handed to the callee.
        input: Vec<u8>,
        /// Gas budget, `None` for unlimited.
        target_gas: Option<u64>,
        /// Whether state mutation is forbidden.
        is_static: bool,
        /// Context of the child frame.
        context: Context,
    },
    /// A contract creation is dispatched.
    Create {
        /// Creator address.
        caller: H160,
        /// Address of the created account.
        address: H160,
        /// How the new address derives.
        scheme: CreateScheme,
        /// Endowment of the created account.
        value: U256,
        /// Init code.
        init_code: Vec<u8>,
        /// Gas budget, `None` for unlimited.
        target_gas: Option<u64>,
    },
    /// A frame marked its account for deletion.
    Suicide {
        /// The deleted address.
        address: H160,
        /// Heir of its balance.
        target: H160,
        /// Balance before the deletion.
        balance: U256,
    },
    /// A frame terminated.
    Exit {
        /// Terminal disposition.
        reason: ExitReason,
        /// Bytes the frame returned.
        return_value: Vec<u8>,
    },
    /// A transaction-level call begins.
    TransactCall {
        /// Caller account.
        caller: H160,
        /// Destination account.
        address: H160,
        /// Value transferred.
        value: U256,
        /// Input data.
        data: Vec<u8>,
        /// Gas limit.
        gas_limit: U256,
    },
    /// A transaction-level creation begins.
    TransactCreate {
        /// Creator account.
        caller: H160,
        /// Endowment.
        value: U256,
        /// Init code.
        init_code: Vec<u8>,
        /// Gas limit.
        gas_limit: U256,
        /// Address of the created account.
        address: H160,
    },
    /// A transaction-level salted creation begins.
    TransactCreate2 {
        /// Creator account.
        caller: H160,
        /// Endowment.
        value: U256,
        /// Init code.
        init_code: Vec<u8>,
        /// Salt.
        salt: H256,
        /// Gas limit.
        gas_limit: U256,
        /// Address of the created account.
        address: H160,
    },
    /// One opcode is about to execute.
    Step {
        /// Context of the frame.
        context: Context,
        /// The opcode.
        opcode: Opcode,
        /// Program counter before the opcode.
        position: Result<usize, ExitReason>,
        /// Snapshot of the stack before the opcode.
        stack: Stack,
        /// Snapshot of the memory before the opcode.
        memory: Memory,
    },
    /// The opcode of the last `Step` finished.
    StepResult {
        /// What the machine step produced.
        result: Result<(), Capture<ExitReason, Opcode>>,
        /// Return data designated so far.
        return_value: Vec<u8>,
        /// Snapshot of the stack after the opcode.
        stack: Stack,
        /// Snapshot of the memory after the opcode.
        memory: Memory,
    },
    /// A storage slot was read.
    SLoad {
        /// Account read.
        address: H160,
        /// Slot key.
        index: U256,
        /// Value read.
        value: U256,
    },
    /// A storage slot is about to be written.
    SStore {
        /// Account written.
        address: H160,
        /// Slot key.
        index: U256,
        /// Value to write.
        value: U256,
    },
    /// Value moved between accounts.
    Transfer {
        /// Source account.
        source: H160,
        /// Target account.
        target: H160,
        /// Value moved.
        value: U256,
    },
    /// Value left an account.
    WithDraw {
        /// Source account.
        source: H160,
        /// Value withdrawn.
        value: U256,
    },
    /// A storage slot was set directly by the host.
    SetStorage {
        /// Account written.
        address: H160,
        /// Slot key.
        key: U256,
        /// Value written.
        value: U256,
    },
    /// An account nonce grew by one.
    IncrementNonce {
        /// The account.
        address: H160,
    },
    /// An account's code was installed.
    SetCode {
        /// The account.
        address: H160,
        /// The code.
        code: Vec<u8>,
    },
    /// An account was destroyed.
    SelfDestruct {
        /// The account.
        address: H160,
    },
}

/// Flattened stack descriptor for observers that cannot hold references:
/// a host-chosen handle to the words plus the counts.
#[derive(Clone, Debug)]
pub struct StackOnStack {
    /// Host-chosen handle to the word array.
    pub data: u64,
    /// Number of words.
    pub data_len: usize,
    /// Stack limit.
    pub limit: usize,
}

/// Flattened memory descriptor for observers that cannot hold references.
#[derive(Clone, Debug)]
pub struct MemoryOnStack {
    /// Host-chosen handle to the bytes.
    pub data: u64,
    /// Number of bytes held.
    pub data_len: usize,
    /// Logical size of the memory.
    pub effective_len: usize,
    /// Memory limit.
    pub limit: usize,
}

/// Flattened form of a call dispatch event.
#[derive(Clone, Debug)]
pub struct CallTrace {
    /// Address whose code is called.
    pub code_address: H160,
    /// Value movement accompanying the call.
    pub transfer: Option<Transfer>,
    /// Host-chosen handle to the input bytes.
    pub input: u64,
    /// Number of input bytes.
    pub input_len: usize,
    /// Gas budget, `None` for unlimited.
    pub target_gas: Option<u64>,
    /// Whether state mutation is forbidden.
    pub is_static: bool,
    /// Context of the child frame.
    pub context: Context,
}

/// Flattened form of a creation dispatch event.
#[derive(Clone, Debug)]
pub struct CreateTrace {
    /// Creator address.
    pub caller: H160,
    /// Address of the created account.
    pub address: H160,
    /// How the new address derives.
    pub scheme: CreateScheme,
    /// Endowment of the created account.
    pub value: U256,
    /// Host-chosen handle to the init code.
    pub init_code: u64,
    /// Number of init-code bytes.
    pub init_code_len: usize,
    /// Gas budget, `None` for unlimited.
    pub target_gas: Option<u64>,
}

/// Flattened form of a frame exit event.
#[derive(Clone, Debug)]
pub struct ExitTrace {
    /// Terminal disposition.
    pub reason: ExitReason,
    /// Host-chosen handle to the returned bytes.
    pub return_value: u64,
    /// Number of returned bytes.
    pub return_value_len: usize,
}

/// Flattened form of an account-deletion event.
#[derive(Clone, Debug)]
pub struct SuicideTrace {
    /// The deleted address.
    pub address: H160,
    /// Heir of its balance.
    pub target: H160,
    /// Balance before the deletion.
    pub balance: U256,
}

/// Flattened form of a transaction-level call event.
#[derive(Clone, Debug)]
pub struct TransactCallTrace {
    /// Caller account.
    pub caller: H160,
    /// Destination account.
    pub address: H160,
    /// Value transferred.
    pub value: U256,
    /// Host-chosen handle to the input bytes.
    pub data: u64,
    /// Number of input bytes.
    pub data_len: usize,
    /// Gas limit.
    pub gas_limit: U256,
}

/// Flattened form of a transaction-level creation event.
#[derive(Clone, Debug)]
pub struct TransactCreateTrace {
    /// Creator account.
    pub caller: H160,
    /// Endowment.
    pub value: U256,
    /// Host-chosen handle to the init code.
    pub init_code: u64,
    /// Number of init-code bytes.
    pub init_code_len: usize,
    /// Gas limit.
    pub gas_limit: U256,
    /// Address of the created account.
    pub address: H160,
}

/// Flattened form of a transaction-level salted creation event.
#[derive(Clone, Debug)]
pub struct TransactCreate2Trace {
    /// Creator account.
    pub caller: H160,
    /// Endowment.
    pub value: U256,
    /// Host-chosen handle to the init code.
    pub init_code: u64,
    /// Number of init-code bytes.
    pub init_code_len: usize,
    /// Salt.
    pub salt: H256,
    /// Gas limit.
    pub gas_limit: U256,
    /// Address of the created account.
    pub address: H160,
}

/// Flattened form of a step announcement.
#[derive(Debug)]
pub struct StepTrace {
    /// Context of the frame.
    pub context: Context,
    /// The opcode.
    pub opcode: Opcode,
    /// Program counter before the opcode.
    pub position: Result<usize, ExitReason>,
    /// Flattened stack snapshot.
    pub stack: StackOnStack,
    /// Flattened memory snapshot.
    pub memory: MemoryOnStack,
    /// Extra payload bytes chosen by the host.
    pub vec: Vec<u8>,
}

/// Flattened form of a step outcome.
#[derive(Debug)]
pub struct StepResultTrace {
    /// What the machine step produced.
    pub result: Result<(), Capture<ExitReason, Opcode>>,
    /// Host-chosen handle to the return data.
    pub return_value: u64,
    /// Number of return-data bytes.
    pub return_value_len: usize,
    /// Flattened stack snapshot.
    pub stack: StackOnStack,
    /// Flattened memory snapshot.
    pub memory: MemoryOnStack,
}

/// Flattened form of a storage read.
#[derive(Clone, Debug)]
pub struct SLoadTrace {
    /// Account read.
    pub address: H160,
    /// Slot key.
    pub index: U256,
    /// Value read.
    pub value: U256,
}

/// Flattened form of a storage write.
#[derive(Clone, Debug)]
pub struct SStoreTrace {
    /// Account written.
    pub address: H160,
    /// Slot key.
    pub index: U256,
    /// Value to write.
    pub value: U256,
}

/// One runtime event in the flattened form.
#[derive(Debug)]
pub enum EventOnStack {
    /// A nested call is dispatched.
    Call(CallTrace),
    /// A contract creation is dispatched.
    Create(CreateTrace),
    /// A frame marked its account for deletion.
    Suicide(SuicideTrace),
    /// A frame terminated.
    Exit(ExitTrace),
    /// A transaction-level call begins.
    TransactCall(TransactCallTrace),
    /// A transaction-level creation begins.
    TransactCreate(TransactCreateTrace),
    /// A transaction-level salted creation begins.
    TransactCreate2(TransactCreate2Trace),
    /// One opcode is about to execute.
    Step(StepTrace),
    /// The opcode of the last `Step` finished.
    StepResult(StepResultTrace),
    /// A storage slot was read.
    SLoad(SLoadTrace),
    /// A storage slot is about to be written.
    SStore(SStoreTrace),
}

/// `e` announces an opcode step.
pub open spec fn is_step(e: Event) -> bool {
    e is Step
}

/// `e` reports the outcome of an opcode step.
pub open spec fn is_step_result(e: Event) -> bool {
    e is StepResult
}

/// `e` is the step announcement with exactly this payload: the frame
/// context, the opcode about to run, and the machine state before it.
pub open spec fn step_event_matches(
    e: Event,
    ctx: Context,
    op: Opcode,
    pos: Result<usize, ExitReason>,
    stack: Seq<Seq<u8>>,
    mem: Seq<u8>,
) -> bool {
    match e {
        Event::Step { context, opcode, position, stack: st, memory } => {
            &&& context.address@ == ctx.address@
            &&& context.caller@ == ctx.caller@
            &&& context.apparent_value@ == ctx.apparent_value@
            &&& opcode == op
            &&& position == pos
            &&& st@ == stack
            &&& memory@ == mem
        },
        _ => false,
    }
}

/// `e` is the step-result report with exactly this payload.
pub open spec fn step_result_event_matches(
    e: Event,
    res: Result<(), Capture<ExitReason, Opcode>>,
    ret: Seq<u8>,
    stack: Seq<Seq<u8>>,
    mem: Seq<u8>,
) -> bool {
    match e {
        Event::StepResult { result, return_value, stack: st, memory } => {
            &&& result == res
            &&& return_value@ == ret
            &&& st@ == stack
            &&& memory@ == mem
        },
        _ => false,
    }
}

/// `e` is the storage-read event with exactly these payload bytes.
pub open spec fn sload_event(e: Event, address: Seq<u8>, index: Seq<u8>, value: Seq<u8>) -> bool {
    match e {
        Event::SLoad { address: a, index: i, value: v } => a@ == address && i@ == index && v@
            == value,
        _ => false,
    }
}

/// `e` is the storage-write event with exactly these payload bytes.
pub open spec fn sstore_event(e: Event, address: Seq<u8>, index: Seq<u8>, value: Seq<u8>) -> bool {
    match e {
        Event::SStore { address: a, index: i, value: v } => a@ == address && i@ == index && v@
            == value,
        _ => false,
    }
}

} // verus!
