//! Zero-copy trace events for in-process observers.
//!
//! These forms borrow their byte payloads from the live runtime, so an
//! observer can look at an event without any copy. Each converts into
//! the owned, serializable form in `tracing`, and the conversion keeps
//! every payload equal value for value.

use vstd::prelude::*;

use crate::context::{context_matches, scheme_matches, Context, CreateScheme};
use crate::exit::{Capture, ExitReason};
use crate::handler::Transfer;
use crate::machine::Opcode;
use crate::memory::Memory;
use crate::stack::Stack;
use crate::types::{copy_bytes, H160, H256, U256};

verus! {

/// Borrowed form of a call dispatch event.
#[derive(Debug)]
pub struct CallTrace<'a> {
    /// Address whose code is called.
    pub code_address: H160,
    /// Value movement accompanying the call.
    pub transfer: &'a Option<Transfer>,
    /// Input data handed to the callee.
    pub input: &'a Vec<u8>,
    /// Gas budget, `None` for unlimited.
    pub target_gas: Option<u64>,
    /// Whether state mutation is forbidden.
    pub is_static: bool,
    /// Context of the child frame.
    pub context: &'a Context,
}

/// Borrowed form of a creation dispatch event.
#[derive(Debug)]
pub struct CreateTrace<'a> {
    /// Creator address.
    pub caller: H160,
    /// Address of the created account.
    pub address: H160,
    /// How the new address derives.
    pub scheme: CreateScheme,
    /// Endowment of the created account.
    pub value: U256,
    /// Init code.
    pub init_code: &'a Vec<u8>,
    /// Gas budget, `None` for unlimited.
    pub target_gas: Option<u64>,
}

/// Borrowed form of an account-deletion event.
#[derive(Debug)]
pub struct SuicideTrace {
    /// The deleted address.
    pub address: H160,
    /// Heir of its balance.
    pub target: H160,
    /// Balance before the deletion.
    pub balance: U256,
}

/// Borrowed form of a frame exit event.
#[derive(Debug)]
pub struct ExitTrace<'a> {
    /// Terminal disposition.
    pub reason: &'a ExitReason,
    /// Bytes the frame returned.
    pub return_value: &'a Vec<u8>,
}

/// Borrowed form of a transaction-level call event.
#[derive(Debug)]
pub struct TransactCallTrace<'a> {
    /// Caller account.
    pub caller: H160,
    /// Destination account.
    pub address: H160,
    /// Value transferred.
    pub value: U256,
    /// Input data.
    pub data: &'a Vec<u8>,
    /// Gas limit.
    pub gas_limit: U256,
}

/// Borrowed form of a transaction-level creation event.
#[derive(Debug)]
pub struct TransactCreateTrace<'a> {
    /// Creator account.
    pub caller: H160,
    /// Endowment.
    pub value: U256,
    /// Init code.
    pub init_code: &'a Vec<u8>,
    /// Gas limit.
    pub gas_limit: U256,
    /// Address of the created account.
    pub address: H160,
}

/// Borrowed form of a transaction-level salted creation event.
#[derive(Debug)]
pub struct TransactCreate2Trace<'a> {
    /// Creator account.
    pub caller: H160,
    /// Endowment.
    pub value: U256,
    /// Init code.
    pub init_code: &'a Vec<u8>,
    /// Salt.
    pub salt: H256,
    /// Gas limit.
    pub gas_limit: U256,
    /// Address of the created account.
    pub address: H160,
}

/// Borrowed form of a step announcement.
#[derive(Debug)]
pub struct StepTrace<'a> {
    /// Context of the frame.
    pub context: &'a Context,
    /// The opcode.
    pub opcode: Opcode,
    /// Program counter before the opcode.
    pub position: &'a Result<usize, ExitReason>,
    /// Snapshot of the stack before the opcode.
    pub stack: &'a Stack,
    /// Snapshot of the memory before the opcode.
    pub memory: &'a Memory,
}

/// Borrowed form of a step outcome.
#[derive(Debug)]
pub struct StepResultTrace<'a> {
    /// What the machine step produced.
    pub result: &'a Result<(), Capture<ExitReason, Opcode>>,
    /// Return data designated so far.
    pub return_value: &'a Vec<u8>,
    /// Snapshot of the stack after the opcode.
    pub stack: &'a Stack,
    /// Snapshot of the memory after the opcode.
    pub memory: &'a Memory,
}

/// Borrowed form of a storage read.
#[derive(Debug)]
pub struct SLoadTrace {
    /// Account read.
    pub address: H160,
    /// Slot key.
    pub index: U256,
    /// Value read.
    pub value: U256,
}

/// Borrowed form of a storage write.
#[derive(Debug)]
pub struct SStoreTrace {
    /// Account written.
    pub address: H160,
    /// Slot key.
    pub index: U256,
    /// Value to write.
    pub value: U256,
}

/// Borrowed form of a value transfer.
#[derive(Debug)]
pub struct TransferTrace {
    /// Source account.
    pub source: H160,
    /// Target account.
    pub target: H160,
    /// Value moved.
    pub value: U256,
}

/// Borrowed form of a withdrawal.
#[derive(Debug)]
pub struct WithDrawTrace {
    /// Source account.
    pub source: H160,
    /// Value withdrawn.
    pub value: U256,
}

/// Borrowed form of a direct storage write by the host.
#[derive(Debug)]
pub struct SetStorageTrace {
    /// Account written.
    pub address: H160,
    /// Slot key.
    pub key: U256,
    /// Value written.
    pub value: U256,
}

/// Borrowed form of a nonce increment.
#[derive(Debug)]
pub struct IncrementNonceTrace {
    /// The account.
    pub address: H160,
}

/// Borrowed form of a code installation.
#[derive(Debug)]
pub struct SetCodeTrace<'a> {
    /// The account.
    pub address: H160,
    /// The code.
    pub code: &'a Vec<u8>,
}

/// Borrowed form of an account destruction.
#[derive(Debug)]
pub struct SelfDestructTrace {
    /// The account.
    pub address: H160,
}

/// One runtime event in the borrowed form.
#[derive(Debug)]
pub enum Event<'a> {
    /// A nested call is dispatched.
    Call(CallTrace<'a>),
    /// A contract creation is dispatched.
    Create(CreateTrace<'a>),
    /// A frame marked its account for deletion.
    Suicide(SuicideTrace),
    /// A frame terminated.
    Exit(ExitTrace<'a>),
    /// A transaction-level call begins.
    TransactCall(TransactCallTrace<'a>),
    /// A transaction-level creation begins.
    TransactCreate(TransactCreateTrace<'a>),
    /// A transaction-level salted creation begins.
    TransactCreate2(TransactCreate2Trace<'a>),
    /// One opcode is about to execute.
    Step(StepTrace<'a>),
    /// The opcode of the last `Step` finished.
    StepResult(StepResultTrace<'a>),
    /// A storage slot was read.
    SLoad(SLoadTrace),
    /// A storage slot is about to be written.
    SStore(SStoreTrace),
    /// Value moved between accounts.
    Transfer(TransferTrace),
    /// Value left an account.
    WithDraw(WithDrawTrace),
    /// A storage slot was set directly by the host.
    SetStorage(SetStorageTrace),
    /// An account nonce grew by one.
    IncrementNonce(IncrementNonceTrace),
    /// An account's code was installed.
    SetCode(SetCodeTrace<'a>),
    /// An account was destroyed.
    SelfDestruct(SelfDestructTrace),
}

/// The two transfers carry the same bytes.
pub open spec fn transfer_matches(a: Transfer, b: Transfer) -> bool {
    a.source@ == b.source@ && a.target@ == b.target@ && a.value@ == b.value@
}

/// The two optional transfers carry the same bytes.
pub open spec fn opt_transfer_matches(a: Option<Transfer>, b: Option<Transfer>) -> bool {
    match (a, b) {
        (Some(x), Some(y)) => transfer_matches(x, y),
        (None, None) => true,
        _ => false,
    }
}

/// The owned event `o` carries exactly the payload of the borrowed
/// event `b`: same variant, every field equal value for value.
pub open spec fn corresponds<'a>(b: Event<'a>, o: crate::tracing::Event) -> bool {
    match (b, o) {
        (Event::Call(t), crate::tracing::Event::Call {
            code_address,
            transfer,
            input,
            target_gas,
            is_static,
            context,
        }) => {
            &&& code_address@ == t.code_address@
            &&& opt_transfer_matches(transfer, *t.transfer)
            &&& input@ == t.input@
            &&& target_gas == t.target_gas
            &&& is_static == t.is_static
            &&& context_matches(context, *t.context)
        },
        (Event::Create(t), crate::tracing::Event::Create {
            caller,
            address,
            scheme,
            value,
            init_code,
            target_gas,
        }) => {
            &&& caller@ == t.caller@
            &&& address@ == t.address@
            &&& scheme_matches(scheme, t.scheme)
            &&& value@ == t.value@
            &&& init_code@ == t.init_code@
            &&& target_gas == t.target_gas
        },
        (Event::Suicide(t), crate::tracing::Event::Suicide { address, target, balance }) => {
            &&& address@ == t.address@
            &&& target@ == t.target@
            &&& balance@ == t.balance@
        },
        (Event::Exit(t), crate::tracing::Event::Exit { reason, return_value }) => {
            &&& reason == *t.reason
            &&& return_value@ == t.return_value@
        },
        (Event::TransactCall(t), crate::tracing::Event::TransactCall {
            caller,
            address,
            value,
            data,
            gas_limit,
        }) => {
            &&& caller@ == t.caller@
            &&& address@ == t.address@
            &&& value@ == t.value@
            &&& data@ == t.data@
            &&& gas_limit@ == t.gas_limit@
        },
        (Event::TransactCreate(t), crate::tracing::Event::TransactCreate {
            caller,
            value,
            init_code,
            gas_limit,
            address,
        }) => {
            &&& caller@ == t.caller@
            &&& value@ == t.value@
            &&& init_code@ == t.init_code@
            &&& gas_limit@ == t.gas_limit@
            &&& address@ == t.address@
        },
        (Event::TransactCreate2(t), crate::tracing::Event::TransactCreate2 {
            caller,
            value,
            init_code,
            salt,
            gas_limit,
            address,
        }) => {
            &&& caller@ == t.caller@
            &&& value@ == t.value@
            &&& init_code@ == t.init_code@
            &&& salt@ == t.salt@
            &&& gas_limit@ == t.gas_limit@
            &&& address@ == t.address@
        },
        (Event::Step(t), crate::tracing::Event::Step {
            context,
            opcode,
            position,
            stack,
            memory,
        }) => {
            &&& context_matches(context, *t.context)
            &&& opcode == t.opcode
            &&& position == *t.position
            &&& stack@ == t.stack@
            &&& stack.limit == t.stack.limit
            &&& memory@ == t.memory@
            &&& memory.limit == t.memory.limit
        },
        (Event::StepResult(t), crate::tracing::Event::StepResult {
            result,
            return_value,
            stack,
            memory,
        }) => {
            &&& result == *t.result
            &&& return_value@ == t.return_value@
            &&& stack@ == t.stack@
            &&& stack.limit == t.stack.limit
            &&& memory@ == t.memory@
            &&& memory.limit == t.memory.limit
        },
        (Event::SLoad(t), crate::tracing::Event::SLoad { address, index, value }) => {
            &&& address@ == t.address@
            &&& index@ == t.index@
            &&& value@ == t.value@
        },
        (Event::SStore(t), crate::tracing::Event::SStore { address, index, value }) => {
            &&& address@ == t.address@
            &&& index@ == t.index@
            &&& value@ == t.value@
        },
        (Event::Transfer(t), crate::tracing::Event::Transfer { source, target, value }) => {
            &&& source@ == t.source@
            &&& target@ == t.target@
            &&& value@ == t.value@
        },
        (Event::WithDraw(t), crate::tracing::Event::WithDraw { source, value }) => {
            &&& source@ == t.source@
            &&& value@ == t.value@
        },
        (Event::SetStorage(t), crate::tracing::Event::SetStorage { address, key, value }) => {
            &&& address@ == t.address@
            &&& key@ == t.key@
            &&& value@ == t.value@
        },
        (Event::IncrementNonce(t), crate::tracing::Event::IncrementNonce { address }) => address@
            == t.address@,
        (Event::SetCode(t), crate::tracing::Event::SetCode { address, code }) => {
            &&& address@ == t.address@
            &&& code@ == t.code@
        },
        (Event::SelfDestruct(t), crate::tracing::Event::SelfDestruct { address }) => address@
            == t.address@,
        _ => false,
    }
}

impl<'a> Event<'a> {
    /// The owned, serializable form of this event. The borrowed and the
    /// owned representation are value-equal for identical payloads:
    /// every field of the result carries exactly the bytes this event
    /// borrows.
    pub fn to_owned(&self) -> (r: crate::tracing::Event)
        ensures
            corresponds(*self, r),
    {
        match self {
            Event::Call(t) => crate::tracing::Event::Call {
                code_address: t.code_address.clone(),
                transfer: match t.transfer {
                    Some(tr) => Some(tr.clone()),
                    None => None,
                },
                input: copy_bytes(t.input),
                target_gas: t.target_gas,
                is_static: t.is_static,
                context: t.context.clone(),
            },
            Event::Create(t) => crate::tracing::Event::Create {
                caller: t.caller.clone(),
                address: t.address.clone(),
                scheme: t.scheme.clone(),
                value: t.value.clone(),
                init_code: copy_bytes(t.init_code),
                target_gas: t.target_gas,
            },
            Event::Suicide(t) => crate::tracing::Event::Suicide {
                address: t.address.clone(),
                target: t.target.clone(),
                balance: t.balance.clone(),
            },
            Event::Exit(t) => crate::tracing::Event::Exit {
                reason: *t.reason,
                return_value: copy_bytes(t.return_value),
            },
            Event::TransactCall(t) => crate::tracing::Event::TransactCall {
                caller: t.caller.clone(),
                address: t.address.clone(),
                value: t.value.clone(),
                data: copy_bytes(t.data),
                gas_limit: t.gas_limit.clone(),
            },
            Event::TransactCreate(t) => crate::tracing::Event::TransactCreate {
                caller: t.caller.clone(),
                value: t.value.clone(),
                init_code: copy_bytes(t.init_code),
                gas_limit: t.gas_limit.clone(),
                address: t.address.clone(),
            },
            Event::TransactCreate2(t) => crate::tracing::Event::TransactCreate2 {
                caller: t.caller.clone(),
                value: t.value.clone(),
                init_code: copy_bytes(t.init_code),
                salt: t.salt.clone(),
                gas_limit: t.gas_limit.clone(),
                address: t.address.clone(),
            },
            Event::Step(t) => crate::tracing::Event::Step {
                context: t.context.clone(),
                opcode: t.opcode,
                position: *t.position,
                stack: t.stack.clone(),
                memory: t.memory.clone(),
            },
            Event::StepResult(t) => crate::tracing::Event::StepResult {
                result: *t.result,
                return_value: copy_bytes(t.return_value),
                stack: t.stack.clone(),
                memory: t.memory.clone(),
            },
            Event::SLoad(t) => crate::tracing::Event::SLoad {
                address: t.address.clone(),
                index: t.index.clone(),
                value: t.value.clone(),
            },
            Event::SStore(t) => crate::tracing::Event::SStore {
                address: t.address.clone(),
                index: t.index.clone(),
                value: t.value.clone(),
            },
            Event::Transfer(t) => crate::tracing::Event::Transfer {
                source: t.source.clone(),
                target: t.target.clone(),
                value: t.value.clone(),
            },
            Event::WithDraw(t) => crate::tracing::Event::WithDraw {
                source: t.source.clone(),
                value: t.value.clone(),
            },
            Event::SetStorage(t) => crate::tracing::Event::SetStorage {
                address: t.address.clone(),
                key: t.key.clone(),
                value: t.value.clone(),
            },
            Event::IncrementNonce(t) => crate::tracing::Event::IncrementNonce {
                address: t.address.clone(),
            },
            Event::SetCode(t) => crate::tracing::Event::SetCode {
                address: t.address.clone(),
                code: copy_bytes(t.code),
            },
            Event::SelfDestruct(t) => crate::tracing::Event::SelfDestruct {
                address: t.address.clone(),
            },
        }
    }
}

} // verus!
