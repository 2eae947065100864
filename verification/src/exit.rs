//! Terminal dispositions of a frame, and the capture type that carries
//! either an exit or a suspension out of a step.

use vstd::prelude::*;

verus! {

/// Successful termination of a frame.
#[derive(Clone, Copy, Debug, PartialEq, Eq, Structural)]
pub enum ExitSucceed {
    /// The code ran off its end or executed a stop.
    Stopped,
    /// The code returned a byte slice.
    Returned,
    /// The frame marked its own account for deletion.
    Suicided,
}

/// Frame-local failure; the parent observes it as a zero result word.
#[derive(Clone, Copy, Debug, PartialEq, Eq, Structural)]
pub enum ExitError {
    /// The gas budget is exhausted.
    OutOfGas,
    /// An operation popped more words than the stack holds.
    StackUnderflow,
    /// A push would grow the stack beyond its limit.
    StackOverflow,
    /// A jump target is not a valid destination.
    InvalidJump,
    /// A bounds computation overflowed the address space.
    InvalidRange,
    /// An opcode outside the supported set was executed.
    InvalidCode,
    /// The designated invalid opcode was executed.
    DesignatedInvalid,
    /// The nested-call depth limit was reached.
    CallTooDeep,
    /// A read beyond the end of the return-data buffer was requested.
    OutOfOffset,
    /// A state mutation was attempted under a static call.
    StaticModeViolation,
    /// A memory resize would exceed the configured memory limit.
    MemoryLimitExceeded,
}

/// Explicit revert requested by the code; return data stays observable.
#[derive(Clone, Copy, Debug, PartialEq, Eq, Structural)]
pub enum ExitRevert {
    /// The code executed a revert.
    Reverted,
}

/// Unrecoverable failure; it propagates past call boundaries unchanged.
#[derive(Clone, Copy, Debug, PartialEq, Eq, Structural)]
pub enum ExitFatal {
    /// An argument does not fit the machine's address space.
    NotSupported,
    /// A suspension was never resolved.
    UnhandledInterrupt,
    /// A frame-local error escalated by the embedding.
    CallErrorAsFatal(ExitError),
}

/// Terminal disposition of a frame.
#[derive(Clone, Copy, Debug, PartialEq, Eq, Structural)]
pub enum ExitReason {
    /// Normal completion; the only reason a caller counts as success.
    Succeed(ExitSucceed),
    /// Frame-local failure.
    Error(ExitError),
    /// Explicit revert.
    Revert(ExitRevert),
    /// Unrecoverable failure of the whole execution stack.
    Fatal(ExitFatal),
    /// The step budget ran out; the frame stays resumable.
    StepLimitReached,
}

/// Outcome of driving a frame: either a terminal exit or a trap that asks
/// the driver to perform a nested operation.
#[derive(Clone, Copy, Debug, PartialEq, Eq)]
pub enum Capture<E, T> {
    /// The operation exited.
    Exit(E),
    /// The operation suspended, handing the payload to the driver.
    Trap(T),
}

} // verus!
