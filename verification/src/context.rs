//! Per-frame identity and the discriminators of call and creation flavors.

use vstd::prelude::*;

use crate::types::{H160, H256, U256};

verus! {

/// How the address of a new contract is derived.
#[derive(Debug, PartialEq, Eq)]
pub enum CreateScheme {
    /// Legacy creation: the address derives from the caller and its nonce.
    Legacy {
        /// Caller of the create.
        caller: H160,
    },
    /// Salted creation: the address derives from caller, code hash and salt.
    Create2 {
        /// Caller of the create.
        caller: H160,
        /// Hash of the init code.
        code_hash: H256,
        /// Salt.
        salt: H256,
    },
    /// Creation at a fixed address.
    Fixed(H160),
}

impl CreateScheme {
    /// Every address and hash held by the scheme has its exact width.
    pub open spec fn wf(&self) -> bool {
        match self {
            CreateScheme::Legacy { caller } => caller.wf(),
            CreateScheme::Create2 { caller, code_hash, salt } => caller.wf() && code_hash.wf()
                && salt.wf(),
            CreateScheme::Fixed(addr) => addr.wf(),
        }
    }
}

impl Clone for CreateScheme {
    fn clone(&self) -> (r: Self)
        ensures
            r.wf() == self.wf(),
            scheme_matches(r, *self),
    {
        match self {
            CreateScheme::Legacy { caller } => CreateScheme::Legacy { caller: caller.clone() },
            CreateScheme::Create2 { caller, code_hash, salt } => CreateScheme::Create2 {
                caller: caller.clone(),
                code_hash: code_hash.clone(),
                salt: salt.clone(),
            },
            CreateScheme::Fixed(addr) => CreateScheme::Fixed(addr.clone()),
        }
    }
}

/// The two schemes describe the same creation: same variant with
/// payloads equal byte for byte.
pub open spec fn scheme_matches(a: CreateScheme, b: CreateScheme) -> bool {
    match (a, b) {
        (CreateScheme::Legacy { caller: x }, CreateScheme::Legacy { caller: y }) => x@ == y@,
        (
            CreateScheme::Create2 { caller: x, code_hash: xh, salt: xs },
            CreateScheme::Create2 { caller: y, code_hash: yh, salt: ys },
        ) => x@ == y@ && xh@ == yh@ && xs@ == ys@,
        (CreateScheme::Fixed(x), CreateScheme::Fixed(y)) => x@ == y@,
        _ => false,
    }
}

/// Which flavor of call is in progress.
#[derive(Clone, Copy, Debug, PartialEq, Eq, Structural)]
pub enum CallScheme {
    /// Plain call.
    Call,
    /// Run the target's code on the caller's account.
    CallCode,
    /// Inherit the parent's context verbatim.
    DelegateCall,
    /// Call with all state mutation forbidden.
    StaticCall,
}

/// The two contexts are equal byte for byte.
pub open spec fn context_matches(a: Context, b: Context) -> bool {
    a.address@ == b.address@ && a.caller@ == b.caller@ && a.apparent_value@ == b.apparent_value@
}

/// Immutable identity of one frame.
#[derive(Debug, PartialEq, Eq)]
pub struct Context {
    /// Execution address: the account whose code is running.
    pub address: H160,
    /// Caller address; its meaning depends on the call scheme.
    pub caller: H160,
    /// Apparent value visible to the code; not always a real transfer.
    pub apparent_value: U256,
}

impl Context {
    /// Both addresses and the value have their exact widths.
    pub open spec fn wf(&self) -> bool {
        self.address.wf() && self.caller.wf() && self.apparent_value.wf()
    }
}

impl Clone for Context {
    fn clone(&self) -> (r: Self)
        ensures
            context_matches(r, *self),
            r.wf() == self.wf(),
    {
        Context {
            address: self.address.clone(),
            caller: self.caller.clone(),
            apparent_value: self.apparent_value.clone(),
        }
    }
}

} // verus!
