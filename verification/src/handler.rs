//! The capability the runtime requires from its embedding: world-state
//! reads and writes, hashing, block introspection and nested execution.
//!
//! Handler calls are the only way the runtime observes or mutates the
//! world. Nothing is promised about the values a handler returns beyond
//! their well-formedness; the runtime states what holds of its own state
//! whatever comes back.

use vstd::prelude::*;

use crate::context::{Context, CreateScheme};
use crate::exit::{Capture, ExitError, ExitReason};
use crate::machine::Opcode;
use crate::stack::Stack;
use crate::types::{H160, H256, U256};

verus! {

/// Value movement accompanying a call.
#[derive(Debug, PartialEq, Eq)]
pub struct Transfer {
    /// Source address.
    pub source: H160,
    /// Target address.
    pub target: H160,
    /// Transfer value.
    pub value: U256,
}

impl Transfer {
    /// Both addresses and the value have their exact widths.
    pub open spec fn wf(&self) -> bool {
        self.source.wf() && self.target.wf() && self.value.wf()
    }
}

impl Clone for Transfer {
    fn clone(&self) -> (r: Self)
        ensures
            r.source@ == self.source@,
            r.target@ == self.target@,
            r.value@ == self.value@,
            r.wf() == self.wf(),
    {
        Transfer {
            source: self.source.clone(),
            target: self.target.clone(),
            value: self.value.clone(),
        }
    }
}

/// The embedding the runtime operates against.
///
/// `call` and `create` may return a trap, which asks the runtime to
/// suspend; the handler itself does not recurse.
pub trait Handler {
    /// Payload surfaced to the driver when a nested call suspends.
    type CallInterrupt;

    /// Payload surfaced to the driver when a contract creation suspends.
    type CreateInterrupt;

    /// Keccak-256 digest of the given bytes, as a 32-byte word.
    fn keccak256_h256(&self, data: &[u8]) -> (r: H256)
        ensures
            r.wf(),
    ;

    /// Balance of the account.
    fn balance(&self, address: &H160) -> (r: U256)
        ensures
            r.wf(),
    ;

    /// Size of the account's code.
    fn code_size(&self, address: &H160) -> (r: U256)
        ensures
            r.wf(),
    ;

    /// Hash of the account's code.
    fn code_hash(&self, address: &H160) -> (r: H256)
        ensures
            r.wf(),
    ;

    /// The account's code.
    fn code(&self, address: &H160) -> Vec<u8>;

    /// Current value of one storage slot.
    fn storage(&self, address: &H160, index: &U256) -> (r: U256)
        ensures
            r.wf(),
    ;

    /// Origin address of the enclosing transaction.
    fn origin(&self) -> (r: H160)
        ensures
            r.wf(),
    ;

    /// Remaining gas.
    fn gas_left(&self) -> (r: U256)
        ensures
            r.wf(),
    ;

    /// Gas price of the enclosing transaction.
    fn gas_price(&self) -> (r: U256)
        ensures
            r.wf(),
    ;

    /// Chain identifier.
    fn chain_id(&self) -> (r: U256)
        ensures
            r.wf(),
    ;

    /// Hash of the block with the given number.
    fn block_hash(&self, number: &U256) -> (r: H256)
        ensures
            r.wf(),
    ;

    /// Beneficiary address of the current block.
    fn block_coinbase(&self) -> (r: H160)
        ensures
            r.wf(),
    ;

    /// Timestamp of the current block.
    fn block_timestamp(&self) -> (r: U256)
        ensures
            r.wf(),
    ;

    /// Number of the current block.
    fn block_number(&self) -> (r: U256)
        ensures
            r.wf(),
    ;

    /// Difficulty of the current block.
    fn block_difficulty(&self) -> (r: U256)
        ensures
            r.wf(),
    ;

    /// Gas limit of the current block.
    fn block_gas_limit(&self) -> (r: U256)
        ensures
            r.wf(),
    ;

    /// Write one storage slot.
    fn set_storage(&mut self, address: &H160, index: &U256, value: &U256) -> Result<(), ExitError>;

    /// Append a log record.
    fn log(&mut self, address: &H160, topics: Vec<H256>, data: Vec<u8>) -> Result<(), ExitError>;

    /// Mark `address` for deletion, with `target` as heir of its balance.
    fn mark_delete(&mut self, address: &H160, target: H160) -> Result<(), ExitError>;

    /// Run a contract creation, or trap so the driver performs it. The
    /// exit reason describes the child frame, so it is never the step
    /// budget marker, which cannot escape an inner frame.
    fn create(
        &mut self,
        caller: &H160,
        scheme: CreateScheme,
        value: U256,
        init_code: Vec<u8>,
        target_gas: Option<u64>,
    ) -> (r: Capture<(ExitReason, Option<H160>, Vec<u8>), Self::CreateInterrupt>)
        ensures
            (r matches Capture::Exit(t) && t.1 matches Some(a) ==> a.wf()),
            (r matches Capture::Exit(t) ==> !(t.0 is StepLimitReached)),
    ;

    /// Run a nested call, or trap so the driver performs it. The exit
    /// reason describes the child frame, so it is never the step budget
    /// marker, which cannot escape an inner frame.
    fn call(
        &mut self,
        code_address: &H160,
        transfer: Option<Transfer>,
        input: Vec<u8>,
        target_gas: Option<u64>,
        is_static: bool,
        context: Context,
    ) -> (r: Capture<(ExitReason, Vec<u8>), Self::CallInterrupt>)
        ensures
            (r matches Capture::Exit(t) ==> !(t.0 is StepLimitReached)),
    ;

    /// Validation run before every opcode; a failure terminates the
    /// frame with the returned error.
    fn pre_validate(&mut self, context: &Context, opcode: Opcode, stack: &Stack) -> Result<
        (),
        ExitError,
    >;
}

} // verus!
