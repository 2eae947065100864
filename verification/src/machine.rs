//! The lower stack machine: code, program counter, word stack, memory and
//! call data of one frame, with the pure opcodes it executes itself.
//!
//! The pure set kept here is the control and data plumbing the runtime
//! layer rests on: stop, pop, the pushes, the jumps and their marker,
//! the word loads and stores, return, revert and the designated invalid
//! opcode. Opcodes outside the pure set are handed upward as traps; the
//! runtime layer decides whether they are system opcodes or invalid.

use vstd::prelude::*;

use crate::exit::{Capture, ExitError, ExitFatal, ExitReason, ExitRevert, ExitSucceed};
use crate::memory::{Memory, read_padded, write_bytes, zero_extend};
use crate::stack::Stack;
use crate::types::{all_zero, fits_u64, lo_u64, zero_bytes, H256, U256};

verus! {

/// One EVM opcode byte.
#[derive(Clone, Copy, Debug, PartialEq, Eq, Structural, Hash)]
pub struct Opcode(pub u8);

/// The 32-byte word a push opcode at `pc` puts on the stack: the `n`
/// immediate bytes after the opcode, left-padded with zeros; immediate
/// bytes beyond the end of the code read as zero.
pub open spec fn push_word(code: Seq<u8>, pc: int, n: int) -> Seq<u8> {
    Seq::new(
        32,
        |i: int|
            if i < 32 - n {
                0u8
            } else {
                let j = pc + 1 + (i - (32 - n));
                if 0 <= j < code.len() {
                    code[j]
                } else {
                    0u8
                }
            },
    )
}

/// `d` is a valid jump destination under the validity bitmap.
pub open spec fn valid_jump(valids: Seq<u8>, d: int) -> bool {
    0 <= d < valids.len() && valids[d] != 0
}

/// A 256-bit word holds a value that fits a program-counter or memory
/// offset.
pub open spec fn word_fits_usize(w: Seq<u8>) -> bool {
    fits_u64(w) && lo_u64(w) <= usize::MAX
}

/// The machine of one frame.
#[derive(Debug, PartialEq, Eq)]
pub struct Machine {
    /// The code under execution.
    pub code: Vec<u8>,
    /// Jump-destination validity bitmap, one byte per code byte.
    pub valids: Vec<u8>,
    /// The call data handed to this frame.
    pub data: Vec<u8>,
    /// Program counter, or the exit reason once the frame terminated.
    pub position: Result<usize, ExitReason>,
    /// Start of the byte range returned on exit.
    pub return_start: usize,
    /// Length of the byte range returned on exit.
    pub return_len: usize,
    /// The word stack.
    pub stack: Stack,
    /// The frame memory.
    pub memory: Memory,
}

/// Code, call data, bitmap and both limits are untouched.
pub open spec fn keeps_frame(pre: Machine, post: Machine) -> bool {
    &&& post.code@ == pre.code@
    &&& post.valids@ == pre.valids@
    &&& post.data@ == pre.data@
    &&& post.stack.limit == pre.stack.limit
    &&& post.memory.limit == pre.memory.limit
}

/// The machine exited with `e`, touching neither memory nor the return
/// range on the way out.
pub open spec fn exits(pre: Machine, post: Machine, e: ExitReason) -> bool {
    &&& keeps_frame(pre, post)
    &&& post.memory@ == pre.memory@
    &&& post.return_start == pre.return_start
    &&& post.return_len == pre.return_len
    &&& post.position == Err::<usize, ExitReason>(e)
}

/// The machine advanced to `pc` and kept memory and return range.
pub open spec fn advances(pre: Machine, post: Machine, pc: int) -> bool {
    &&& keeps_frame(pre, post)
    &&& post.memory@ == pre.memory@
    &&& post.return_start == pre.return_start
    &&& post.return_len == pre.return_len
    &&& post.position == Ok::<usize, ExitReason>(pc as usize)
}

/// What one step on the opcode `op` at position `pc` does.
pub open spec fn op_rel(
    pre: Machine,
    post: Machine,
    pc: int,
    op: u8,
    r: Result<(), Capture<ExitReason, Opcode>>,
) -> bool {
    let stopped = ExitReason::Succeed(ExitSucceed::Stopped);
    if op == 0x00 {
        // STOP: exit successfully with an empty return range.
        &&& keeps_frame(pre, post)
        &&& post.stack@ == pre.stack@
        &&& post.memory@ == pre.memory@
        &&& post.return_start == 0
        &&& post.return_len == 0
        &&& post.position == Err::<usize, ExitReason>(stopped)
        &&& r == Err::<(), Capture<ExitReason, Opcode>>(Capture::Exit(stopped))
    } else if op == 0x50 {
        // POP: discard the top word.
        if pre.stack@.len() == 0 {
            &&& exits(pre, post, ExitReason::Error(ExitError::StackUnderflow))
            &&& post.stack@ == pre.stack@
            &&& r == Err::<(), Capture<ExitReason, Opcode>>(
                Capture::Exit(ExitReason::Error(ExitError::StackUnderflow)),
            )
        } else {
            &&& advances(pre, post, pc + 1)
            &&& post.stack@ == pre.stack@.drop_last()
            &&& r == Ok::<(), Capture<ExitReason, Opcode>>(())
        }
    } else if 0x60 <= op < 0x80 {
        // PUSH1..PUSH32: put the immediate bytes on the stack.
        let n = op - 0x5f;
        if pre.stack@.len() >= pre.stack.limit {
            &&& exits(pre, post, ExitReason::Error(ExitError::StackOverflow))
            &&& post.stack@ == pre.stack@
            &&& r == Err::<(), Capture<ExitReason, Opcode>>(
                Capture::Exit(ExitReason::Error(ExitError::StackOverflow)),
            )
        } else {
            &&& keeps_frame(pre, post)
            &&& post.memory@ == pre.memory@
            &&& post.return_start == pre.return_start
            &&& post.return_len == pre.return_len
            &&& post.stack@ == pre.stack@.push(push_word(pre.code@, pc, n as int))
            &&& post.position matches Ok(p) && (if pc + 1 + n <= usize::MAX {
                p == pc + 1 + n
            } else {
                p == usize::MAX
            })
            &&& r == Ok::<(), Capture<ExitReason, Opcode>>(())
        }
    } else if op == 0x5b {
        // JUMPDEST: a no-op marking a valid jump target.
        &&& advances(pre, post, pc + 1)
        &&& post.stack@ == pre.stack@
        &&& r == Ok::<(), Capture<ExitReason, Opcode>>(())
    } else if op == 0x56 {
        // JUMP: pop the destination and jump when it is valid.
        if pre.stack@.len() == 0 {
            &&& exits(pre, post, ExitReason::Error(ExitError::StackUnderflow))
            &&& post.stack@ == pre.stack@
            &&& r == Err::<(), Capture<ExitReason, Opcode>>(
                Capture::Exit(ExitReason::Error(ExitError::StackUnderflow)),
            )
        } else {
            let dest = pre.stack@.last();
            let popped = pre.stack@.drop_last();
            if word_fits_usize(dest) && valid_jump(pre.valids@, lo_u64(dest) as int) {
                &&& advances(pre, post, lo_u64(dest) as int)
                &&& post.stack@ == popped
                &&& r == Ok::<(), Capture<ExitReason, Opcode>>(())
            } else {
                &&& exits(pre, post, ExitReason::Error(ExitError::InvalidJump))
                &&& post.stack@ == popped
                &&& r == Err::<(), Capture<ExitReason, Opcode>>(
                    Capture::Exit(ExitReason::Error(ExitError::InvalidJump)),
                )
            }
        }
    } else if op == 0x57 {
        // JUMPI: pop destination and condition; jump when the condition
        // is non-zero, otherwise fall through.
        if pre.stack@.len() < 2 {
            &&& exits(pre, post, ExitReason::Error(ExitError::StackUnderflow))
            &&& post.stack@ == (if pre.stack@.len() == 0 {
                pre.stack@
            } else {
                pre.stack@.drop_last()
            })
            &&& r == Err::<(), Capture<ExitReason, Opcode>>(
                Capture::Exit(ExitReason::Error(ExitError::StackUnderflow)),
            )
        } else {
            let dest = pre.stack@.last();
            let cond = pre.stack@.drop_last().last();
            let popped = pre.stack@.drop_last().drop_last();
            if all_zero(cond) {
                &&& advances(pre, post, pc + 1)
                &&& post.stack@ == popped
                &&& r == Ok::<(), Capture<ExitReason, Opcode>>(())
            } else if word_fits_usize(dest) && valid_jump(pre.valids@, lo_u64(dest) as int) {
                &&& advances(pre, post, lo_u64(dest) as int)
                &&& post.stack@ == popped
                &&& r == Ok::<(), Capture<ExitReason, Opcode>>(())
            } else {
                &&& exits(pre, post, ExitReason::Error(ExitError::InvalidJump))
                &&& post.stack@ == popped
                &&& r == Err::<(), Capture<ExitReason, Opcode>>(
                    Capture::Exit(ExitReason::Error(ExitError::InvalidJump)),
                )
            }
        }
    } else if op == 0x51 {
        // MLOAD: pop an offset, grow memory over the word there, push it.
        if pre.stack@.len() == 0 {
            &&& exits(pre, post, ExitReason::Error(ExitError::StackUnderflow))
            &&& post.stack@ == pre.stack@
            &&& r == Err::<(), Capture<ExitReason, Opcode>>(
                Capture::Exit(ExitReason::Error(ExitError::StackUnderflow)),
            )
        } else {
            let off_w = pre.stack@.last();
            let popped = pre.stack@.drop_last();
            if !word_fits_usize(off_w) {
                &&& exits(pre, post, ExitReason::Fatal(ExitFatal::NotSupported))
                &&& post.stack@ == popped
                &&& r == Err::<(), Capture<ExitReason, Opcode>>(
                    Capture::Exit(ExitReason::Fatal(ExitFatal::NotSupported)),
                )
            } else {
                let off = lo_u64(off_w) as int;
                if off + 32 > usize::MAX || off + 32 > pre.memory.limit {
                    let e = if off + 32 > usize::MAX {
                        ExitError::InvalidRange
                    } else {
                        ExitError::MemoryLimitExceeded
                    };
                    &&& keeps_frame(pre, post)
                    &&& post.memory@ == pre.memory@
                    &&& post.return_start == pre.return_start
                    &&& post.return_len == pre.return_len
                    &&& post.stack@ == popped
                    &&& post.position == Err::<usize, ExitReason>(ExitReason::Error(e))
                    &&& r == Err::<(), Capture<ExitReason, Opcode>>(
                        Capture::Exit(ExitReason::Error(e)),
                    )
                } else {
                    &&& keeps_frame(pre, post)
                    &&& post.memory@ == zero_extend(pre.memory@, off + 32)
                    &&& post.return_start == pre.return_start
                    &&& post.return_len == pre.return_len
                    &&& post.stack@ == popped.push(read_padded(pre.memory@, off, 32))
                    &&& post.position == Ok::<usize, ExitReason>((pc + 1) as usize)
                    &&& r == Ok::<(), Capture<ExitReason, Opcode>>(())
                }
            }
        }
    } else if op == 0x52 {
        // MSTORE: pop an offset and a word, write the word into memory.
        if pre.stack@.len() < 2 {
            &&& exits(pre, post, ExitReason::Error(ExitError::StackUnderflow))
            &&& post.stack@ == (if pre.stack@.len() == 0 {
                pre.stack@
            } else {
                pre.stack@.drop_last()
            })
            &&& r == Err::<(), Capture<ExitReason, Opcode>>(
                Capture::Exit(ExitReason::Error(ExitError::StackUnderflow)),
            )
        } else {
            let off_w = pre.stack@.last();
            let value = pre.stack@.drop_last().last();
            let popped = pre.stack@.drop_last().drop_last();
            if !word_fits_usize(off_w) {
                &&& exits(pre, post, ExitReason::Fatal(ExitFatal::NotSupported))
                &&& post.stack@ == popped
                &&& r == Err::<(), Capture<ExitReason, Opcode>>(
                    Capture::Exit(ExitReason::Fatal(ExitFatal::NotSupported)),
                )
            } else {
                let off = lo_u64(off_w) as int;
                if off + 32 > usize::MAX || off + 32 > pre.memory.limit {
                    let e = if off + 32 > usize::MAX {
                        ExitError::InvalidRange
                    } else {
                        ExitError::MemoryLimitExceeded
                    };
                    &&& keeps_frame(pre, post)
                    &&& post.memory@ == pre.memory@
                    &&& post.return_start == pre.return_start
                    &&& post.return_len == pre.return_len
                    &&& post.stack@ == popped
                    &&& post.position == Err::<usize, ExitReason>(ExitReason::Error(e))
                    &&& r == Err::<(), Capture<ExitReason, Opcode>>(
                        Capture::Exit(ExitReason::Error(e)),
                    )
                } else {
                    &&& keeps_frame(pre, post)
                    &&& post.memory@ == write_bytes(zero_extend(pre.memory@, off + 32), off, value)
                    &&& post.return_start == pre.return_start
                    &&& post.return_len == pre.return_len
                    &&& post.stack@ == popped
                    &&& post.position == Ok::<usize, ExitReason>((pc + 1) as usize)
                    &&& r == Ok::<(), Capture<ExitReason, Opcode>>(())
                }
            }
        }
    } else if op == 0xf3 || op == 0xfd {
        // RETURN / REVERT: pop offset and length, grow memory over the
        // range, record it and exit.
        let good = if op == 0xf3 {
            ExitReason::Succeed(ExitSucceed::Returned)
        } else {
            ExitReason::Revert(ExitRevert::Reverted)
        };
        if pre.stack@.len() < 2 {
            &&& exits(pre, post, ExitReason::Error(ExitError::StackUnderflow))
            &&& post.stack@ == (if pre.stack@.len() == 0 {
                pre.stack@
            } else {
                pre.stack@.drop_last()
            })
            &&& r == Err::<(), Capture<ExitReason, Opcode>>(
                Capture::Exit(ExitReason::Error(ExitError::StackUnderflow)),
            )
        } else {
            let off_w = pre.stack@.last();
            let len_w = pre.stack@.drop_last().last();
            let popped = pre.stack@.drop_last().drop_last();
            if !(word_fits_usize(off_w) && word_fits_usize(len_w)) {
                &&& exits(pre, post, ExitReason::Fatal(ExitFatal::NotSupported))
                &&& post.stack@ == popped
                &&& r == Err::<(), Capture<ExitReason, Opcode>>(
                    Capture::Exit(ExitReason::Fatal(ExitFatal::NotSupported)),
                )
            } else {
                let off = lo_u64(off_w) as int;
                let rlen = lo_u64(len_w) as int;
                if off + rlen > usize::MAX || off + rlen > pre.memory.limit {
                    let e = if off + rlen > usize::MAX {
                        ExitError::InvalidRange
                    } else {
                        ExitError::MemoryLimitExceeded
                    };
                    &&& keeps_frame(pre, post)
                    &&& post.memory@ == pre.memory@
                    &&& post.return_start == pre.return_start
                    &&& post.return_len == pre.return_len
                    &&& post.stack@ == popped
                    &&& post.position == Err::<usize, ExitReason>(ExitReason::Error(e))
                    &&& r == Err::<(), Capture<ExitReason, Opcode>>(
                        Capture::Exit(ExitReason::Error(e)),
                    )
                } else {
                    &&& keeps_frame(pre, post)
                    &&& post.memory@ == zero_extend(pre.memory@, off + rlen)
                    &&& post.return_start == off
                    &&& post.return_len == rlen
                    &&& post.stack@ == popped
                    &&& post.position == Err::<usize, ExitReason>(good)
                    &&& r == Err::<(), Capture<ExitReason, Opcode>>(Capture::Exit(good))
                }
            }
        }
    } else if op == 0xfe {
        // INVALID: the designated invalid opcode.
        &&& exits(pre, post, ExitReason::Error(ExitError::DesignatedInvalid))
        &&& post.stack@ == pre.stack@
        &&& r == Err::<(), Capture<ExitReason, Opcode>>(
            Capture::Exit(ExitReason::Error(ExitError::DesignatedInvalid)),
        )
    } else {
        // Anything else is not a pure opcode: advance past it and hand
        // it upward as a trap.
        &&& advances(pre, post, pc + 1)
        &&& post.stack@ == pre.stack@
        &&& r == Err::<(), Capture<ExitReason, Opcode>>(Capture::Trap(Opcode(op)))
    }
}

/// What one machine step does, for every starting state.
pub open spec fn step_rel(
    pre: Machine,
    post: Machine,
    r: Result<(), Capture<ExitReason, Opcode>>,
) -> bool {
    match pre.position {
        Err(e) => post == pre && r == Err::<(), Capture<ExitReason, Opcode>>(Capture::Exit(e)),
        Ok(pc0) => {
            let pc = pc0 as int;
            if pc >= pre.code@.len() {
                &&& exits(pre, post, ExitReason::Succeed(ExitSucceed::Stopped))
                &&& post.stack@ == pre.stack@
                &&& r == Err::<(), Capture<ExitReason, Opcode>>(
                    Capture::Exit(ExitReason::Succeed(ExitSucceed::Stopped)),
                )
            } else {
                op_rel(pre, post, pc, pre.code@[pc], r)
            }
        },
    }
}

impl Machine {
    /// Stack and memory respect their limits and word widths.
    pub open spec fn wf(&self) -> bool {
        self.stack.wf() && self.memory.wf()
    }

    /// The opcode the next step would execute, if the frame is live and
    /// the counter is inside the code.
    pub open spec fn spec_next_opcode(&self) -> Option<Opcode> {
        match self.position {
            Ok(pc) => if pc < self.code@.len() {
                Some(Opcode(self.code@[pc as int]))
            } else {
                None
            },
            Err(_) => None,
        }
    }

    /// A fresh machine at position zero with the given code, validity
    /// bitmap, call data and limits.
    pub fn new(
        code: Vec<u8>,
        valids: Vec<u8>,
        data: Vec<u8>,
        stack_limit: usize,
        memory_limit: usize,
    ) -> (r: Self)
        ensures
            r.wf(),
            r.code@ == code@,
            r.valids@ == valids@,
            r.data@ == data@,
            r.position == Ok::<usize, ExitReason>(0),
            r.return_start == 0,
            r.return_len == 0,
            r.stack@ == Seq::<Seq<u8>>::empty(),
            r.stack.limit == stack_limit,
            r.memory@ == Seq::<u8>::empty(),
            r.memory.limit == memory_limit,
    {
        Machine {
            code,
            valids,
            data,
            position: Ok(0),
            return_start: 0,
            return_len: 0,
            stack: Stack::new(stack_limit),
            memory: Memory::new(memory_limit),
        }
    }

    /// The next opcode, when the frame is live and inside the code.
    pub fn next_opcode(&self) -> (r: Option<Opcode>)
        ensures
            r == self.spec_next_opcode(),
    {
        match self.position {
            Ok(pc) => {
                if pc < self.code.len() {
                    Some(Opcode(self.code[pc]))
                } else {
                    None
                }
            },
            Err(_) => None,
        }
    }

    /// Program counter, or the exit reason once terminated.
    pub fn position(&self) -> (r: Result<usize, ExitReason>)
        ensures
            r == self.position,
    {
        self.position
    }

    /// The word stack.
    pub fn stack(&self) -> (r: &Stack)
        ensures
            *r == self.stack,
    {
        &self.stack
    }

    /// The frame memory.
    pub fn memory(&self) -> (r: &Memory)
        ensures
            *r == self.memory,
    {
        &self.memory
    }

    /// The call data.
    pub fn data(&self) -> (r: &Vec<u8>)
        ensures
            *r == self.data,
    {
        &self.data
    }

    /// Terminate the frame with the given reason.
    pub fn exit(&mut self, reason: ExitReason)
        requires
            old(self).wf(),
        ensures
            final(self).wf(),
            keeps_frame(*old(self), *final(self)),
            final(self).stack@ == old(self).stack@,
            final(self).memory@ == old(self).memory@,
            final(self).return_start == old(self).return_start,
            final(self).return_len == old(self).return_len,
            final(self).position == Err::<usize, ExitReason>(reason),
    {
        self.position = Err(reason);
    }

    /// The bytes the frame designated as its return data.
    pub fn return_value(&self) -> (r: Vec<u8>)
        ensures
            r@ == read_padded(self.memory@, self.return_start as int, self.return_len as int),
    {
        self.memory.get(self.return_start, self.return_len)
    }

    /// Execute exactly one opcode, or report why that cannot happen.
    #[verifier::rlimit(100)]
    pub fn step(&mut self) -> (r: Result<(), Capture<ExitReason, Opcode>>)
        requires
            old(self).wf(),
        ensures
            final(self).wf(),
            step_rel(*old(self), *final(self), r),
            final(self).memory@.len() >= old(self).memory@.len(),
            (old(self).position is Ok ==> (r matches Err(Capture::Exit(e)) ==> !(e
                is StepLimitReached))),
    {
        let pc = match self.position {
            Ok(pc) => pc,
            Err(e) => {
                return Err(Capture::Exit(e));
            },
        };
        if pc >= self.code.len() {
            self.position = Err(ExitReason::Succeed(ExitSucceed::Stopped));
            return Err(Capture::Exit(ExitReason::Succeed(ExitSucceed::Stopped)));
        }
        let op = self.code[pc];
        if op == 0x00 {
            // STOP
            self.return_start = 0;
            self.return_len = 0;
            self.position = Err(ExitReason::Succeed(ExitSucceed::Stopped));
            Err(Capture::Exit(ExitReason::Succeed(ExitSucceed::Stopped)))
        } else if op == 0x50 {
            // POP
            match self.stack.pop() {
                Ok(_) => {
                    self.position = Ok(pc + 1);
                    Ok(())
                },
                Err(e) => {
                    self.position = Err(ExitReason::Error(e));
                    Err(Capture::Exit(ExitReason::Error(e)))
                },
            }
        } else if 0x60 <= op && op < 0x80 {
            // PUSH1..PUSH32
            let n: usize = (op - 0x5f) as usize;
            let mut v = zero_bytes(32 - n);
            let mut k: usize = 0;
            while k < n
                invariant
                    k <= n,
                    n <= 32,
                    pc < self.code@.len(),
                    v@.len() == 32 - n + k,
                    forall|i: int| 0 <= i < v@.len() ==> v@[i] == push_word(
                        self.code@,
                        pc as int,
                        n as int,
                    )[i],
                decreases n - k,
            {
                let b = match pc.checked_add(1 + k) {
                    Some(j) => {
                        if j < self.code.len() {
                            self.code[j]
                        } else {
                            0u8
                        }
                    },
                    None => 0u8,
                };
                proof {
                    assert(self.code.len() == self.code@.len());
                    assert(b == push_word(self.code@, pc as int, n as int)[32 - n + k]);
                }
                v.push(b);
                k = k + 1;
            }
            proof {
                assert(v@ =~= push_word(self.code@, pc as int, n as int));
            }
            let word = H256::from_bytes(v);
            match self.stack.push(word) {
                Ok(()) => {
                    self.position = Ok(pc.saturating_add(1 + n));
                    Ok(())
                },
                Err(e) => {
                    self.position = Err(ExitReason::Error(e));
                    Err(Capture::Exit(ExitReason::Error(e)))
                },
            }
        } else if op == 0x5b {
            // JUMPDEST
            self.position = Ok(pc + 1);
            Ok(())
        } else if op == 0x56 {
            // JUMP
            let dest = match self.stack.pop() {
                Ok(w) => w,
                Err(e) => {
                    self.position = Err(ExitReason::Error(e));
                    return Err(Capture::Exit(ExitReason::Error(e)));
                },
            };
            self.do_jump(&dest)
        } else if op == 0x57 {
            // JUMPI
            let dest = match self.stack.pop() {
                Ok(w) => w,
                Err(e) => {
                    self.position = Err(ExitReason::Error(e));
                    return Err(Capture::Exit(ExitReason::Error(e)));
                },
            };
            let cond = match self.stack.pop() {
                Ok(w) => w,
                Err(e) => {
                    self.position = Err(ExitReason::Error(e));
                    return Err(Capture::Exit(ExitReason::Error(e)));
                },
            };
            if cond.is_zero() {
                self.position = Ok(pc + 1);
                Ok(())
            } else {
                self.do_jump(&dest)
            }
        } else if op == 0x51 {
            // MLOAD
            let off_w = match self.stack.pop() {
                Ok(w) => w,
                Err(e) => {
                    self.position = Err(ExitReason::Error(e));
                    return Err(Capture::Exit(ExitReason::Error(e)));
                },
            };
            let off = match U256::from_h256(&off_w).as_usize() {
                Some(o) => o,
                None => {
                    let f = ExitReason::Fatal(ExitFatal::NotSupported);
                    self.position = Err(f);
                    return Err(Capture::Exit(f));
                },
            };
            match self.memory.resize_offset(off, 32) {
                Ok(()) => (),
                Err(e) => {
                    self.position = Err(ExitReason::Error(e));
                    return Err(Capture::Exit(ExitReason::Error(e)));
                },
            }
            let ghost pre_mem = old(self).memory@;
            let bytes = self.memory.get(off, 32);
            proof {
                assert(bytes@ =~= read_padded(pre_mem, off as int, 32));
            }
            let word = H256::from_bytes(bytes);
            match self.stack.push(word) {
                Ok(()) => {
                    self.position = Ok(pc + 1);
                    Ok(())
                },
                Err(e) => {
                    self.position = Err(ExitReason::Error(e));
                    Err(Capture::Exit(ExitReason::Error(e)))
                },
            }
        } else if op == 0x52 {
            // MSTORE
            let off_w = match self.stack.pop() {
                Ok(w) => w,
                Err(e) => {
                    self.position = Err(ExitReason::Error(e));
                    return Err(Capture::Exit(ExitReason::Error(e)));
                },
            };
            let value = match self.stack.pop() {
                Ok(w) => w,
                Err(e) => {
                    self.position = Err(ExitReason::Error(e));
                    return Err(Capture::Exit(ExitReason::Error(e)));
                },
            };
            let off = match U256::from_h256(&off_w).as_usize() {
                Some(o) => o,
                None => {
                    let f = ExitReason::Fatal(ExitFatal::NotSupported);
                    self.position = Err(f);
                    return Err(Capture::Exit(f));
                },
            };
            match self.memory.copy_large(off, 0, 32, value.bytes.as_slice()) {
                Ok(()) => {
                    proof {
                        assert(read_padded(value@, 0, 32) =~= value@);
                    }
                    self.position = Ok(pc + 1);
                    Ok(())
                },
                Err(e) => {
                    self.position = Err(ExitReason::Error(e));
                    Err(Capture::Exit(ExitReason::Error(e)))
                },
            }
        } else if op == 0xf3 || op == 0xfd {
            // RETURN / REVERT
            let good = if op == 0xf3 {
                ExitReason::Succeed(ExitSucceed::Returned)
            } else {
                ExitReason::Revert(ExitRevert::Reverted)
            };
            let off_w = match self.stack.pop() {
                Ok(w) => w,
                Err(e) => {
                    self.position = Err(ExitReason::Error(e));
                    return Err(Capture::Exit(ExitReason::Error(e)));
                },
            };
            let len_w = match self.stack.pop() {
                Ok(w) => w,
                Err(e) => {
                    self.position = Err(ExitReason::Error(e));
                    return Err(Capture::Exit(ExitReason::Error(e)));
                },
            };
            let off = match U256::from_h256(&off_w).as_usize() {
                Some(o) => o,
                None => {
                    let f = ExitReason::Fatal(ExitFatal::NotSupported);
                    self.position = Err(f);
                    return Err(Capture::Exit(f));
                },
            };
            let rlen = match U256::from_h256(&len_w).as_usize() {
                Some(l) => l,
                None => {
                    let f = ExitReason::Fatal(ExitFatal::NotSupported);
                    self.position = Err(f);
                    return Err(Capture::Exit(f));
                },
            };
            match self.memory.resize_offset(off, rlen) {
                Ok(()) => (),
                Err(e) => {
                    self.position = Err(ExitReason::Error(e));
                    return Err(Capture::Exit(ExitReason::Error(e)));
                },
            }
            self.return_start = off;
            self.return_len = rlen;
            self.position = Err(good);
            Err(Capture::Exit(good))
        } else if op == 0xfe {
            // INVALID
            self.position = Err(ExitReason::Error(ExitError::DesignatedInvalid));
            Err(Capture::Exit(ExitReason::Error(ExitError::DesignatedInvalid)))
        } else {
            // Not a pure opcode: trap to the layer above.
            self.position = Ok(pc + 1);
            Err(Capture::Trap(Opcode(op)))
        }
    }

    /// Shared tail of the jump opcodes: validate the destination word and
    /// move the counter there.
    fn do_jump(&mut self, dest: &H256) -> (r: Result<(), Capture<ExitReason, Opcode>>)
        requires
            old(self).wf(),
            dest.wf(),
        ensures
            final(self).wf(),
            keeps_frame(*old(self), *final(self)),
            final(self).stack@ == old(self).stack@,
            final(self).memory@ == old(self).memory@,
            final(self).return_start == old(self).return_start,
            final(self).return_len == old(self).return_len,
            if word_fits_usize(dest@) && valid_jump(old(self).valids@, lo_u64(dest@) as int) {
                final(self).position == Ok::<usize, ExitReason>(lo_u64(dest@) as usize) && r == Ok::<
                    (),
                    Capture<ExitReason, Opcode>,
                >(())
            } else {
                final(self).position == Err::<usize, ExitReason>(
                    ExitReason::Error(ExitError::InvalidJump),
                ) && r == Err::<(), Capture<ExitReason, Opcode>>(
                    Capture::Exit(ExitReason::Error(ExitError::InvalidJump)),
                )
            },
    {
        let d = match U256::from_h256(dest).as_usize() {
            Some(d) => d,
            None => {
                self.position = Err(ExitReason::Error(ExitError::InvalidJump));
                return Err(Capture::Exit(ExitReason::Error(ExitError::InvalidJump)));
            },
        };
        if d < self.valids.len() && self.valids[d] != 0 {
            self.position = Ok(d);
            Ok(())
        } else {
            self.position = Err(ExitReason::Error(ExitError::InvalidJump));
            Err(Capture::Exit(ExitReason::Error(ExitError::InvalidJump)))
        }
    }
}

} // verus!
