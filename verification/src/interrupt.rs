//! The suspension token a trapped step surfaces to the outer driver.

use vstd::prelude::*;

verus! {

/// Token carried by a trap out of `step` or `run`: the handler asked the
/// driver to perform a nested call or creation.
///
/// The cooperative discipline is part of the contract: after receiving a
/// token the driver must not advance the suspended runtime again until it
/// has delivered the child outcome through `save_return_value` (for
/// `Call`) or `save_created_address` (for `Create`); those functions fold
/// the outcome into the parent frame and make it runnable again.
#[derive(Clone, Copy, Debug, PartialEq, Eq)]
pub enum Resolve<CallI, CreateI> {
    /// A nested call suspended; the payload came from the handler.
    Call(CallI),
    /// A contract creation suspended; the payload came from the handler.
    Create(CreateI),
}

} // verus!
