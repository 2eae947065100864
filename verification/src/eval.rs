//! System-opcode dispatch: the opcodes that leave the purely arithmetic
//! domain and touch the world through the handler, together with the two
//! merge points that fold a child frame's outcome into its parent.

use vstd::prelude::*;

use crate::context::{CallScheme, Context, CreateScheme};
use crate::exit::{Capture, ExitError, ExitFatal, ExitReason, ExitSucceed};
use crate::handler::{Handler, Transfer};
use crate::machine::{keeps_frame, word_fits_usize, Opcode};
use crate::memory::{read_padded, write_bytes, zero_extend};
use crate::tracing::{is_step, is_step_result, sload_event, sstore_event, Event};
use crate::types::{fits_u64, lo_u64, word_of_address, H160, H256, U256};
use crate::Runtime;

verus! {

/// What a dispatched system opcode asks the step loop to do next.
#[derive(Debug)]
pub enum Control<CI, CRI> {
    /// The opcode completed; keep stepping.
    Continue,
    /// A nested call suspended with this handler payload.
    CallInterrupt(CI),
    /// A contract creation suspended with this handler payload.
    CreateInterrupt(CRI),
    /// The frame terminates with this reason.
    Exit(ExitReason),
}

/// The all-zero 32-byte word.
pub open spec fn word_zero() -> Seq<u8> {
    Seq::new(32, |i: int| 0u8)
}

/// The 32-byte word with value one.
pub open spec fn word_one() -> Seq<u8> {
    Seq::new(
        32,
        |i: int|
            if i == 31 {
                1u8
            } else {
                0u8
            },
    )
}

/// Dispatch never touches the code, the position, the status, the
/// context or the return range: those belong to the step loop.
pub open spec fn keeps_outer(pre: Runtime, post: Runtime) -> bool {
    &&& keeps_frame(pre.machine, post.machine)
    &&& post.machine.position == pre.machine.position
    &&& post.machine.return_start == pre.machine.return_start
    &&& post.machine.return_len == pre.machine.return_len
    &&& post.status == pre.status
    &&& post.context == pre.context
}

/// The trace log is untouched.
pub open spec fn trace_same(pre: Runtime, post: Runtime) -> bool {
    post.trace@ == pre.trace@
}

/// The return-data buffer is untouched.
pub open spec fn buffer_same(pre: Runtime, post: Runtime) -> bool {
    post.return_data_buffer@ == pre.return_data_buffer@
}

/// Stack and memory are untouched.
pub open spec fn state_same(pre: Runtime, post: Runtime) -> bool {
    &&& post.machine.stack@ == pre.machine.stack@
    &&& post.machine.memory@ == pre.machine.memory@
}

/// One 32-byte word was pushed, or the push overflowed and nothing
/// changed; memory is untouched either way.
pub open spec fn push_applied<CI, CRI>(pre: Runtime, post: Runtime, r: Control<CI, CRI>) -> bool {
    if pre.machine.stack@.len() < pre.machine.stack.limit {
        &&& post.machine.stack@.len() == pre.machine.stack@.len() + 1
        &&& post.machine.stack@.drop_last() == pre.machine.stack@
        &&& post.machine.stack@.last().len() == 32
        &&& post.machine.memory@ == pre.machine.memory@
        &&& r is Continue
    } else {
        &&& state_same(pre, post)
        &&& r == Control::<CI, CRI>::Exit(ExitReason::Error(ExitError::StackOverflow))
    }
}

/// One word was popped and one 32-byte word pushed in its place, or the
/// stack was empty and nothing changed; memory is untouched either way.
pub open spec fn pop_push_applied<CI, CRI>(pre: Runtime, post: Runtime, r: Control<CI, CRI>) -> bool {
    if pre.machine.stack@.len() == 0 {
        &&& state_same(pre, post)
        &&& r == Control::<CI, CRI>::Exit(ExitReason::Error(ExitError::StackUnderflow))
    } else {
        &&& post.machine.stack@.len() == pre.machine.stack@.len()
        &&& post.machine.stack@.drop_last() == pre.machine.stack@.drop_last()
        &&& post.machine.stack@.last().len() == 32
        &&& post.machine.memory@ == pre.machine.memory@
        &&& r is Continue
    }
}

/// Push a word for a system opcode, turning an overflow into an exit.
fn push_ctl<H: Handler>(runtime: &mut Runtime, value: H256) -> (r: Control<
    H::CallInterrupt,
    H::CreateInterrupt,
>)
    requires
        old(runtime).wf(),
        value.wf(),
    ensures
        final(runtime).wf(),
        keeps_outer(*old(runtime), *final(runtime)),
        trace_same(*old(runtime), *final(runtime)),
        buffer_same(*old(runtime), *final(runtime)),
        push_applied(*old(runtime), *final(runtime), r),
        (old(runtime).machine.stack@.len() < old(runtime).machine.stack.limit
            ==> final(runtime).machine.stack@ == old(runtime).machine.stack@.push(value@)),
{
    match runtime.machine.stack.push(value) {
        Ok(()) => {
            proof {
                assert(runtime.machine.stack@.drop_last() =~= old(runtime).machine.stack@);
            }
            Control::Continue
        },
        Err(e) => Control::Exit(ExitReason::Error(e)),
    }
}

/// Push the chain identifier.
pub fn chainid<H: Handler>(runtime: &mut Runtime, handler: &H) -> (r: Control<
    H::CallInterrupt,
    H::CreateInterrupt,
>)
    requires
        old(runtime).wf(),
    ensures
        final(runtime).wf(),
        keeps_outer(*old(runtime), *final(runtime)),
        trace_same(*old(runtime), *final(runtime)),
        buffer_same(*old(runtime), *final(runtime)),
        push_applied(*old(runtime), *final(runtime), r),
{
    let value = handler.chain_id();
    push_ctl::<H>(runtime, value.to_h256())
}

/// Push the execution address, left-padded to a word.
pub fn address<H: Handler>(runtime: &mut Runtime) -> (r: Control<
    H::CallInterrupt,
    H::CreateInterrupt,
>)
    requires
        old(runtime).wf(),
    ensures
        final(runtime).wf(),
        keeps_outer(*old(runtime), *final(runtime)),
        trace_same(*old(runtime), *final(runtime)),
        buffer_same(*old(runtime), *final(runtime)),
        push_applied(*old(runtime), *final(runtime), r),
        (old(runtime).machine.stack@.len() < old(runtime).machine.stack.limit
            ==> final(runtime).machine.stack@ == old(runtime).machine.stack@.push(
                word_of_address(old(runtime).context.address@),
            )),
{
    let word = H256::from_h160(&runtime.context.address);
    push_ctl::<H>(runtime, word)
}

/// Pop an address word and push the balance of that account.
pub fn balance<H: Handler>(runtime: &mut Runtime, handler: &H) -> (r: Control<
    H::CallInterrupt,
    H::CreateInterrupt,
>)
    requires
        old(runtime).wf(),
    ensures
        final(runtime).wf(),
        keeps_outer(*old(runtime), *final(runtime)),
        trace_same(*old(runtime), *final(runtime)),
        buffer_same(*old(runtime), *final(runtime)),
        pop_push_applied(*old(runtime), *final(runtime), r),
{
    let word = match runtime.machine.stack.pop() {
        Ok(w) => w,
        Err(e) => {
            return Control::Exit(ExitReason::Error(e));
        },
    };
    let addr = H160::from_h256(&word);
    let value = handler.balance(&addr);
    push_ctl::<H>(runtime, value.to_h256())
}

/// Push the balance of the executing account itself.
pub fn selfbalance<H: Handler>(runtime: &mut Runtime, handler: &H) -> (r: Control<
    H::CallInterrupt,
    H::CreateInterrupt,
>)
    requires
        old(runtime).wf(),
    ensures
        final(runtime).wf(),
        keeps_outer(*old(runtime), *final(runtime)),
        trace_same(*old(runtime), *final(runtime)),
        buffer_same(*old(runtime), *final(runtime)),
        push_applied(*old(runtime), *final(runtime), r),
{
    let value = handler.balance(&runtime.context.address);
    push_ctl::<H>(runtime, value.to_h256())
}

/// Push the transaction origin address.
pub fn origin<H: Handler>(runtime: &mut Runtime, handler: &H) -> (r: Control<
    H::CallInterrupt,
    H::CreateInterrupt,
>)
    requires
        old(runtime).wf(),
    ensures
        final(runtime).wf(),
        keeps_outer(*old(runtime), *final(runtime)),
        trace_same(*old(runtime), *final(runtime)),
        buffer_same(*old(runtime), *final(runtime)),
        push_applied(*old(runtime), *final(runtime), r),
{
    let a = handler.origin();
    let word = H256::from_h160(&a);
    push_ctl::<H>(runtime, word)
}

/// Push the caller address, left-padded to a word.
pub fn caller<H: Handler>(runtime: &mut Runtime) -> (r: Control<
    H::CallInterrupt,
    H::CreateInterrupt,
>)
    requires
        old(runtime).wf(),
    ensures
        final(runtime).wf(),
        keeps_outer(*old(runtime), *final(runtime)),
        trace_same(*old(runtime), *final(runtime)),
        buffer_same(*old(runtime), *final(runtime)),
        push_applied(*old(runtime), *final(runtime), r),
        (old(runtime).machine.stack@.len() < old(runtime).machine.stack.limit
            ==> final(runtime).machine.stack@ == old(runtime).machine.stack@.push(
                word_of_address(old(runtime).context.caller@),
            )),
{
    let word = H256::from_h160(&runtime.context.caller);
    push_ctl::<H>(runtime, word)
}

/// Push the apparent value of this frame.
pub fn callvalue<H: Handler>(runtime: &mut Runtime) -> (r: Control<
    H::CallInterrupt,
    H::CreateInterrupt,
>)
    requires
        old(runtime).wf(),
    ensures
        final(runtime).wf(),
        keeps_outer(*old(runtime), *final(runtime)),
        trace_same(*old(runtime), *final(runtime)),
        buffer_same(*old(runtime), *final(runtime)),
        push_applied(*old(runtime), *final(runtime), r),
        (old(runtime).machine.stack@.len() < old(runtime).machine.stack.limit
            ==> final(runtime).machine.stack@ == old(runtime).machine.stack@.push(
                old(runtime).context.apparent_value@,
            )),
{
    let word = runtime.context.apparent_value.to_h256();
    push_ctl::<H>(runtime, word)
}

/// Push the gas price of the enclosing transaction.
pub fn gasprice<H: Handler>(runtime: &mut Runtime, handler: &H) -> (r: Control<
    H::CallInterrupt,
    H::CreateInterrupt,
>)
    requires
        old(runtime).wf(),
    ensures
        final(runtime).wf(),
        keeps_outer(*old(runtime), *final(runtime)),
        trace_same(*old(runtime), *final(runtime)),
        buffer_same(*old(runtime), *final(runtime)),
        push_applied(*old(runtime), *final(runtime), r),
{
    let value = handler.gas_price();
    push_ctl::<H>(runtime, value.to_h256())
}

/// Pop an address word and push the size of that account's code.
pub fn extcodesize<H: Handler>(runtime: &mut Runtime, handler: &H) -> (r: Control<
    H::CallInterrupt,
    H::CreateInterrupt,
>)
    requires
        old(runtime).wf(),
    ensures
        final(runtime).wf(),
        keeps_outer(*old(runtime), *final(runtime)),
        trace_same(*old(runtime), *final(runtime)),
        buffer_same(*old(runtime), *final(runtime)),
        pop_push_applied(*old(runtime), *final(runtime), r),
{
    let word = match runtime.machine.stack.pop() {
        Ok(w) => w,
        Err(e) => {
            return Control::Exit(ExitReason::Error(e));
        },
    };
    let addr = H160::from_h256(&word);
    let value = handler.code_size(&addr);
    push_ctl::<H>(runtime, value.to_h256())
}

/// Pop an address word and push the hash of that account's code.
pub fn extcodehash<H: Handler>(runtime: &mut Runtime, handler: &H) -> (r: Control<
    H::CallInterrupt,
    H::CreateInterrupt,
>)
    requires
        old(runtime).wf(),
    ensures
        final(runtime).wf(),
        keeps_outer(*old(runtime), *final(runtime)),
        trace_same(*old(runtime), *final(runtime)),
        buffer_same(*old(runtime), *final(runtime)),
        pop_push_applied(*old(runtime), *final(runtime), r),
{
    let word = match runtime.machine.stack.pop() {
        Ok(w) => w,
        Err(e) => {
            return Control::Exit(ExitReason::Error(e));
        },
    };
    let addr = H160::from_h256(&word);
    let value = handler.code_hash(&addr);
    push_ctl::<H>(runtime, value)
}

/// Push the size of the return-data buffer.
pub fn returndatasize<H: Handler>(runtime: &mut Runtime) -> (r: Control<
    H::CallInterrupt,
    H::CreateInterrupt,
>)
    requires
        old(runtime).wf(),
    ensures
        final(runtime).wf(),
        keeps_outer(*old(runtime), *final(runtime)),
        trace_same(*old(runtime), *final(runtime)),
        buffer_same(*old(runtime), *final(runtime)),
        push_applied(*old(runtime), *final(runtime), r),
        (old(runtime).machine.stack@.len() < old(runtime).machine.stack.limit ==> {
            let w = final(runtime).machine.stack@.last();
            fits_u64(w) && lo_u64(w) == old(runtime).return_data_buffer@.len()
        }),
{
    let size = U256::from_u64(runtime.return_data_buffer.len() as u64);
    push_ctl::<H>(runtime, size.to_h256())
}

/// Pop a block number and push the hash of that block.
pub fn blockhash<H: Handler>(runtime: &mut Runtime, handler: &H) -> (r: Control<
    H::CallInterrupt,
    H::CreateInterrupt,
>)
    requires
        old(runtime).wf(),
    ensures
        final(runtime).wf(),
        keeps_outer(*old(runtime), *final(runtime)),
        trace_same(*old(runtime), *final(runtime)),
        buffer_same(*old(runtime), *final(runtime)),
        pop_push_applied(*old(runtime), *final(runtime), r),
{
    let word = match runtime.machine.stack.pop() {
        Ok(w) => w,
        Err(e) => {
            return Control::Exit(ExitReason::Error(e));
        },
    };
    let number = U256::from_h256(&word);
    let value = handler.block_hash(&number);
    push_ctl::<H>(runtime, value)
}

/// Push the block beneficiary address.
pub fn coinbase<H: Handler>(runtime: &mut Runtime, handler: &H) -> (r: Control<
    H::CallInterrupt,
    H::CreateInterrupt,
>)
    requires
        old(runtime).wf(),
    ensures
        final(runtime).wf(),
        keeps_outer(*old(runtime), *final(runtime)),
        trace_same(*old(runtime), *final(runtime)),
        buffer_same(*old(runtime), *final(runtime)),
        push_applied(*old(runtime), *final(runtime), r),
{
    let a = handler.block_coinbase();
    let word = H256::from_h160(&a);
    push_ctl::<H>(runtime, word)
}

/// Push the block timestamp.
pub fn timestamp<H: Handler>(runtime: &mut Runtime, handler: &H) -> (r: Control<
    H::CallInterrupt,
    H::CreateInterrupt,
>)
    requires
        old(runtime).wf(),
    ensures
        final(runtime).wf(),
        keeps_outer(*old(runtime), *final(runtime)),
        trace_same(*old(runtime), *final(runtime)),
        buffer_same(*old(runtime), *final(runtime)),
        push_applied(*old(runtime), *final(runtime), r),
{
    let value = handler.block_timestamp();
    push_ctl::<H>(runtime, value.to_h256())
}

/// Push the block number.
pub fn number<H: Handler>(runtime: &mut Runtime, handler: &H) -> (r: Control<
    H::CallInterrupt,
    H::CreateInterrupt,
>)
    requires
        old(runtime).wf(),
    ensures
        final(runtime).wf(),
        keeps_outer(*old(runtime), *final(runtime)),
        trace_same(*old(runtime), *final(runtime)),
        buffer_same(*old(runtime), *final(runtime)),
        push_applied(*old(runtime), *final(runtime), r),
{
    let value = handler.block_number();
    push_ctl::<H>(runtime, value.to_h256())
}

/// Push the block difficulty.
pub fn difficulty<H: Handler>(runtime: &mut Runtime, handler: &H) -> (r: Control<
    H::CallInterrupt,
    H::CreateInterrupt,
>)
    requires
        old(runtime).wf(),
    ensures
        final(runtime).wf(),
        keeps_outer(*old(runtime), *final(runtime)),
        trace_same(*old(runtime), *final(runtime)),
        buffer_same(*old(runtime), *final(runtime)),
        push_applied(*old(runtime), *final(runtime), r),
{
    let value = handler.block_difficulty();
    push_ctl::<H>(runtime, value.to_h256())
}

/// Push the block gas limit.
pub fn gaslimit<H: Handler>(runtime: &mut Runtime, handler: &H) -> (r: Control<
    H::CallInterrupt,
    H::CreateInterrupt,
>)
    requires
        old(runtime).wf(),
    ensures
        final(runtime).wf(),
        keeps_outer(*old(runtime), *final(runtime)),
        trace_same(*old(runtime), *final(runtime)),
        buffer_same(*old(runtime), *final(runtime)),
        push_applied(*old(runtime), *final(runtime), r),
{
    let value = handler.block_gas_limit();
    push_ctl::<H>(runtime, value.to_h256())
}

/// Push the remaining gas.
pub fn gas<H: Handler>(runtime: &mut Runtime, handler: &H) -> (r: Control<
    H::CallInterrupt,
    H::CreateInterrupt,
>)
    requires
        old(runtime).wf(),
    ensures
        final(runtime).wf(),
        keeps_outer(*old(runtime), *final(runtime)),
        trace_same(*old(runtime), *final(runtime)),
        buffer_same(*old(runtime), *final(runtime)),
        push_applied(*old(runtime), *final(runtime), r),
{
    let value = handler.gas_left();
    push_ctl::<H>(runtime, value.to_h256())
}

/// Pop a slot key, push the slot's value and record the read.
pub fn sload<H: Handler>(runtime: &mut Runtime, handler: &H) -> (r: Control<
    H::CallInterrupt,
    H::CreateInterrupt,
>)
    requires
        old(runtime).wf(),
    ensures
        final(runtime).wf(),
        keeps_outer(*old(runtime), *final(runtime)),
        buffer_same(*old(runtime), *final(runtime)),
        pop_push_applied(*old(runtime), *final(runtime), r),
        (if old(runtime).machine.stack@.len() == 0 {
            trace_same(*old(runtime), *final(runtime))
        } else {
            final(runtime).trace@ == old(runtime).trace@.push(final(runtime).trace@.last())
                && sload_event(
                final(runtime).trace@.last(),
                old(runtime).context.address@,
                old(runtime).machine.stack@.last(),
                final(runtime).machine.stack@.last(),
            )
        }),
{
    let word = match runtime.machine.stack.pop() {
        Ok(w) => w,
        Err(e) => {
            return Control::Exit(ExitReason::Error(e));
        },
    };
    let index = U256::from_h256(&word);
    let value = handler.storage(&runtime.context.address, &index);
    let value_word = value.to_h256();
    match runtime.machine.stack.push(value_word) {
        Ok(()) => {
            proof {
                assert(runtime.machine.stack@.drop_last() =~= old(
                    runtime,
                ).machine.stack@.drop_last());
            }
            runtime.trace.push(
                Event::SLoad {
                    address: runtime.context.address.clone(),
                    index,
                    value,
                },
            );
            proof {
                assert(runtime.trace@ =~= old(runtime).trace@.push(runtime.trace@.last()));
            }
            Control::Continue
        },
        Err(_) => {
            // A pop precedes the push, so room is always there.
            proof {
                assert(false);
            }
            Control::Exit(ExitReason::Error(ExitError::StackOverflow))
        },
    }
}

/// Pop a slot key and a value, record the write, then ask the handler to
/// perform it; the record precedes the mutation, so the trace is a
/// pre-image log even when the handler rejects the write.
pub fn sstore<H: Handler>(runtime: &mut Runtime, handler: &mut H) -> (r: Control<
    H::CallInterrupt,
    H::CreateInterrupt,
>)
    requires
        old(runtime).wf(),
    ensures
        final(runtime).wf(),
        keeps_outer(*old(runtime), *final(runtime)),
        buffer_same(*old(runtime), *final(runtime)),
        final(runtime).machine.memory@ == old(runtime).machine.memory@,
        (if old(runtime).machine.stack@.len() < 2 {
            &&& trace_same(*old(runtime), *final(runtime))
            &&& final(runtime).machine.stack@ == Seq::<Seq<u8>>::empty()
            &&& r == Control::<H::CallInterrupt, H::CreateInterrupt>::Exit(
                ExitReason::Error(ExitError::StackUnderflow),
            )
        } else {
            &&& final(runtime).machine.stack@ == old(runtime).machine.stack@.drop_last().drop_last()
            &&& final(runtime).trace@ == old(runtime).trace@.push(final(runtime).trace@.last())
            &&& sstore_event(
                final(runtime).trace@.last(),
                old(runtime).context.address@,
                old(runtime).machine.stack@.last(),
                old(runtime).machine.stack@.drop_last().last(),
            )
            &&& (r is Continue || r matches Control::Exit(ExitReason::Error(_)))
        }),
{
    let index_word = match runtime.machine.stack.pop() {
        Ok(w) => w,
        Err(e) => {
            return Control::Exit(ExitReason::Error(e));
        },
    };
    let value_word = match runtime.machine.stack.pop() {
        Ok(w) => w,
        Err(e) => {
            return Control::Exit(ExitReason::Error(e));
        },
    };
    let index = U256::from_h256(&index_word);
    let value = U256::from_h256(&value_word);
    runtime.trace.push(
        Event::SStore {
            address: runtime.context.address.clone(),
            index: U256::from_h256(&index_word),
            value: U256::from_h256(&value_word),
        },
    );
    proof {
        assert(runtime.trace@ =~= old(runtime).trace@.push(runtime.trace@.last()));
    }
    match handler.set_storage(&runtime.context.address, &index, &value) {
        Ok(()) => Control::Continue,
        Err(e) => Control::Exit(ExitReason::Error(e)),
    }
}

/// Pop the heir address, mark the executing account for deletion and
/// exit the frame.
pub fn suicide<H: Handler>(runtime: &mut Runtime, handler: &mut H) -> (r: Control<
    H::CallInterrupt,
    H::CreateInterrupt,
>)
    requires
        old(runtime).wf(),
    ensures
        final(runtime).wf(),
        keeps_outer(*old(runtime), *final(runtime)),
        trace_same(*old(runtime), *final(runtime)),
        buffer_same(*old(runtime), *final(runtime)),
        final(runtime).machine.memory@ == old(runtime).machine.memory@,
        (if old(runtime).machine.stack@.len() == 0 {
            &&& final(runtime).machine.stack@ == old(runtime).machine.stack@
            &&& r == Control::<H::CallInterrupt, H::CreateInterrupt>::Exit(
                ExitReason::Error(ExitError::StackUnderflow),
            )
        } else {
            &&& final(runtime).machine.stack@ == old(runtime).machine.stack@.drop_last()
            &&& (r == Control::<H::CallInterrupt, H::CreateInterrupt>::Exit(
                ExitReason::Succeed(ExitSucceed::Suicided),
            ) || r matches Control::Exit(ExitReason::Error(_)))
        }),
{
    let target_word = match runtime.machine.stack.pop() {
        Ok(w) => w,
        Err(e) => {
            return Control::Exit(ExitReason::Error(e));
        },
    };
    let target = H160::from_h256(&target_word);
    match handler.mark_delete(&runtime.context.address, target) {
        Ok(()) => Control::Exit(ExitReason::Succeed(ExitSucceed::Suicided)),
        Err(e) => Control::Exit(ExitReason::Error(e)),
    }
}

/// What the hashing opcode does: pop offset and length, grow memory over
/// the range, hash it and push the digest.
pub open spec fn sha3_post<CI, CRI>(pre: Runtime, post: Runtime, r: Control<CI, CRI>) -> bool {
    let s = pre.machine.stack@;
    let m = pre.machine.memory@;
    let mlimit = pre.machine.memory.limit;
    if s.len() < 2 {
        &&& post.machine.stack@ == Seq::<Seq<u8>>::empty()
        &&& post.machine.memory@ == m
        &&& r == Control::<CI, CRI>::Exit(ExitReason::Error(ExitError::StackUnderflow))
    } else {
        let ow = s[s.len() - 1];
        let lw = s[s.len() - 2];
        let rest = s.take(s.len() - 2);
        if !(word_fits_usize(ow) && word_fits_usize(lw)) {
            &&& post.machine.stack@ == rest
            &&& post.machine.memory@ == m
            &&& r == Control::<CI, CRI>::Exit(ExitReason::Fatal(ExitFatal::NotSupported))
        } else {
            let off = lo_u64(ow) as int;
            let len = lo_u64(lw) as int;
            if off + len > usize::MAX {
                &&& post.machine.stack@ == rest
                &&& post.machine.memory@ == m
                &&& r == Control::<CI, CRI>::Exit(ExitReason::Error(ExitError::InvalidRange))
            } else if off + len > mlimit {
                &&& post.machine.stack@ == rest
                &&& post.machine.memory@ == m
                &&& r == Control::<CI, CRI>::Exit(ExitReason::Error(ExitError::MemoryLimitExceeded))
            } else {
                &&& post.machine.memory@ == zero_extend(m, off + len)
                &&& post.machine.stack@.len() == rest.len() + 1
                &&& post.machine.stack@.drop_last() == rest
                &&& post.machine.stack@.last().len() == 32
                &&& r is Continue
            }
        }
    }
}

/// Pop an offset and a length, grow memory over the range, hash the
/// bytes there through the handler and push the digest. A zero length
/// hashes the empty sequence, yet memory still grows up to the offset.
pub fn sha3<H: Handler>(runtime: &mut Runtime, handler: &H) -> (r: Control<
    H::CallInterrupt,
    H::CreateInterrupt,
>)
    requires
        old(runtime).wf(),
    ensures
        final(runtime).wf(),
        keeps_outer(*old(runtime), *final(runtime)),
        trace_same(*old(runtime), *final(runtime)),
        buffer_same(*old(runtime), *final(runtime)),
        sha3_post(*old(runtime), *final(runtime), r),
{
    let ow = match runtime.machine.stack.pop() {
        Ok(w) => w,
        Err(e) => {
            proof {
                assert(runtime.machine.stack@ =~= Seq::<Seq<u8>>::empty());
            }
            return Control::Exit(ExitReason::Error(e));
        },
    };
    let lw = match runtime.machine.stack.pop() {
        Ok(w) => w,
        Err(e) => {
            proof {
                assert(runtime.machine.stack@ =~= Seq::<Seq<u8>>::empty());
            }
            return Control::Exit(ExitReason::Error(e));
        },
    };
    proof {
        assert(runtime.machine.stack@ =~= old(runtime).machine.stack@.take(
            old(runtime).machine.stack@.len() - 2,
        ));
    }
    let off = match U256::from_h256(&ow).as_usize() {
        Some(o) => o,
        None => {
            return Control::Exit(ExitReason::Fatal(ExitFatal::NotSupported));
        },
    };
    let len = match U256::from_h256(&lw).as_usize() {
        Some(l) => l,
        None => {
            return Control::Exit(ExitReason::Fatal(ExitFatal::NotSupported));
        },
    };
    match runtime.machine.memory.resize_offset(off, len) {
        Ok(()) => (),
        Err(e) => {
            return Control::Exit(ExitReason::Error(e));
        },
    }
    let data = if len == 0 {
        Vec::new()
    } else {
        runtime.machine.memory.get(off, len)
    };
    let digest = handler.keccak256_h256(data.as_slice());
    match runtime.machine.stack.push(digest) {
        Ok(()) => {
            proof {
                assert(runtime.machine.stack@.drop_last() =~= old(runtime).machine.stack@.take(
                    old(runtime).machine.stack@.len() - 2,
                ));
            }
            Control::Continue
        },
        Err(_) => {
            proof {
                assert(false);
            }
            Control::Exit(ExitReason::Error(ExitError::StackOverflow))
        },
    }
}

/// The memory `m1` is `m0` grown over `[mo, mo+len)` with that window
/// holding `len` bytes read at offset `co` of some byte sequence,
/// reads past its end giving zero.
pub open spec fn window_from_code(m0: Seq<u8>, mo: int, co: int, len: int, m1: Seq<u8>) -> bool {
    exists|code: Seq<u8>| m1 == write_bytes(zero_extend(m0, mo + len), mo, read_padded(code, co, len))
}

/// What the external code copy does: pop an address and three range
/// words, grow memory over the target range and fill it with the
/// account's code read at the code offset, reads past its end giving
/// zero.
pub open spec fn extcodecopy_post<CI, CRI>(pre: Runtime, post: Runtime, r: Control<
    CI,
    CRI,
>) -> bool {
    let s = pre.machine.stack@;
    let m = pre.machine.memory@;
    let mlimit = pre.machine.memory.limit;
    if s.len() < 4 {
        &&& post.machine.stack@ == Seq::<Seq<u8>>::empty()
        &&& post.machine.memory@ == m
        &&& r == Control::<CI, CRI>::Exit(ExitReason::Error(ExitError::StackUnderflow))
    } else {
        let mo_w = s[s.len() - 2];
        let co_w = s[s.len() - 3];
        let len_w = s[s.len() - 4];
        let rest = s.take(s.len() - 4);
        if !(word_fits_usize(mo_w) && word_fits_usize(co_w)
            && word_fits_usize(len_w)) {
            &&& post.machine.stack@ == rest
            &&& post.machine.memory@ == m
            &&& r == Control::<CI, CRI>::Exit(ExitReason::Fatal(ExitFatal::NotSupported))
        } else {
            let mo = lo_u64(mo_w) as int;
            let co = lo_u64(co_w) as int;
            let len = lo_u64(len_w) as int;
            if mo + len > usize::MAX {
                &&& post.machine.stack@ == rest
                &&& post.machine.memory@ == m
                &&& r == Control::<CI, CRI>::Exit(ExitReason::Error(ExitError::InvalidRange))
            } else if mo + len > mlimit {
                &&& post.machine.stack@ == rest
                &&& post.machine.memory@ == m
                &&& r == Control::<CI, CRI>::Exit(ExitReason::Error(ExitError::MemoryLimitExceeded))
            } else {
                &&& post.machine.stack@ == rest
                &&& window_from_code(m, mo, co, len, post.machine.memory@)
                &&& r is Continue
            }
        }
    }
}

/// Pop an address and a target range, grow memory over the range and
/// copy the account's code into it; reads beyond the code give zero.
pub fn extcodecopy<H: Handler>(runtime: &mut Runtime, handler: &H) -> (r: Control<
    H::CallInterrupt,
    H::CreateInterrupt,
>)
    requires
        old(runtime).wf(),
    ensures
        final(runtime).wf(),
        keeps_outer(*old(runtime), *final(runtime)),
        trace_same(*old(runtime), *final(runtime)),
        buffer_same(*old(runtime), *final(runtime)),
        extcodecopy_post(*old(runtime), *final(runtime), r),
{
    let aw = match runtime.machine.stack.pop() {
        Ok(w) => w,
        Err(e) => {
            proof {
                assert(runtime.machine.stack@ =~= Seq::<Seq<u8>>::empty());
            }
            return Control::Exit(ExitReason::Error(e));
        },
    };
    let mo_w = match runtime.machine.stack.pop() {
        Ok(w) => w,
        Err(e) => {
            proof {
                assert(runtime.machine.stack@ =~= Seq::<Seq<u8>>::empty());
            }
            return Control::Exit(ExitReason::Error(e));
        },
    };
    let co_w = match runtime.machine.stack.pop() {
        Ok(w) => w,
        Err(e) => {
            proof {
                assert(runtime.machine.stack@ =~= Seq::<Seq<u8>>::empty());
            }
            return Control::Exit(ExitReason::Error(e));
        },
    };
    let len_w = match runtime.machine.stack.pop() {
        Ok(w) => w,
        Err(e) => {
            proof {
                assert(runtime.machine.stack@ =~= Seq::<Seq<u8>>::empty());
            }
            return Control::Exit(ExitReason::Error(e));
        },
    };
    proof {
        assert(runtime.machine.stack@ =~= old(runtime).machine.stack@.take(
            old(runtime).machine.stack@.len() - 4,
        ));
    }
    let mo = match U256::from_h256(&mo_w).as_usize() {
        Some(o) => o,
        None => {
            return Control::Exit(ExitReason::Fatal(ExitFatal::NotSupported));
        },
    };
    let co = match U256::from_h256(&co_w).as_usize() {
        Some(o) => o,
        None => {
            return Control::Exit(ExitReason::Fatal(ExitFatal::NotSupported));
        },
    };
    let len = match U256::from_h256(&len_w).as_usize() {
        Some(l) => l,
        None => {
            return Control::Exit(ExitReason::Fatal(ExitFatal::NotSupported));
        },
    };
    match runtime.machine.memory.resize_offset(mo, len) {
        Ok(()) => (),
        Err(e) => {
            return Control::Exit(ExitReason::Error(e));
        },
    }
    let addr = H160::from_h256(&aw);
    let code = handler.code(&addr);
    let ghost resized = runtime.machine.memory@;
    match runtime.machine.memory.copy_large(mo, co, len, code.as_slice()) {
        Ok(()) => {
            proof {
                assert(zero_extend(resized, mo + len) =~= resized);
                assert(window_from_code(
                    old(runtime).machine.memory@,
                    mo as int,
                    co as int,
                    len as int,
                    runtime.machine.memory@,
                ));
            }
            Control::Continue
        },
        Err(_) => {
            proof {
                assert(false);
            }
            Control::Exit(ExitReason::Error(ExitError::InvalidRange))
        },
    }
}

/// What the return-data copy does: pop three range words, grow memory
/// over the target range, then fail with `OutOfOffset` whenever the
/// source range leaves the buffer, wrap-around included; otherwise copy.
pub open spec fn returndatacopy_post<CI, CRI>(pre: Runtime, post: Runtime, r: Control<
    CI,
    CRI,
>) -> bool {
    let s = pre.machine.stack@;
    let m = pre.machine.memory@;
    let mlimit = pre.machine.memory.limit;
    let buf = pre.return_data_buffer@;
    if s.len() < 3 {
        &&& post.machine.stack@ == Seq::<Seq<u8>>::empty()
        &&& post.machine.memory@ == m
        &&& r == Control::<CI, CRI>::Exit(ExitReason::Error(ExitError::StackUnderflow))
    } else {
        let mo_w = s[s.len() - 1];
        let do_w = s[s.len() - 2];
        let len_w = s[s.len() - 3];
        let rest = s.take(s.len() - 3);
        if !(word_fits_usize(mo_w) && word_fits_usize(do_w)
            && word_fits_usize(len_w)) {
            &&& post.machine.stack@ == rest
            &&& post.machine.memory@ == m
            &&& r == Control::<CI, CRI>::Exit(ExitReason::Fatal(ExitFatal::NotSupported))
        } else {
            let mo = lo_u64(mo_w) as int;
            let doff = lo_u64(do_w) as int;
            let len = lo_u64(len_w) as int;
            if mo + len > usize::MAX {
                &&& post.machine.stack@ == rest
                &&& post.machine.memory@ == m
                &&& r == Control::<CI, CRI>::Exit(ExitReason::Error(ExitError::InvalidRange))
            } else if mo + len > mlimit {
                &&& post.machine.stack@ == rest
                &&& post.machine.memory@ == m
                &&& r == Control::<CI, CRI>::Exit(ExitReason::Error(ExitError::MemoryLimitExceeded))
            } else if doff + len > buf.len() {
                &&& post.machine.stack@ == rest
                &&& post.machine.memory@ == zero_extend(m, mo + len)
                &&& r == Control::<CI, CRI>::Exit(ExitReason::Error(ExitError::OutOfOffset))
            } else {
                &&& post.machine.stack@ == rest
                &&& post.machine.memory@ == write_bytes(
                    zero_extend(m, mo + len),
                    mo,
                    buf.subrange(doff, doff + len),
                )
                &&& r is Continue
            }
        }
    }
}

/// Pop a target range and a source offset and copy that slice of the
/// return-data buffer into memory; a source range that leaves the
/// buffer, by length or by wrap-around, fails with `OutOfOffset`.
pub fn returndatacopy<H: Handler>(runtime: &mut Runtime) -> (r: Control<
    H::CallInterrupt,
    H::CreateInterrupt,
>)
    requires
        old(runtime).wf(),
    ensures
        final(runtime).wf(),
        keeps_outer(*old(runtime), *final(runtime)),
        trace_same(*old(runtime), *final(runtime)),
        buffer_same(*old(runtime), *final(runtime)),
        returndatacopy_post(*old(runtime), *final(runtime), r),
{
    let mo_w = match runtime.machine.stack.pop() {
        Ok(w) => w,
        Err(e) => {
            proof {
                assert(runtime.machine.stack@ =~= Seq::<Seq<u8>>::empty());
            }
            return Control::Exit(ExitReason::Error(e));
        },
    };
    let do_w = match runtime.machine.stack.pop() {
        Ok(w) => w,
        Err(e) => {
            proof {
                assert(runtime.machine.stack@ =~= Seq::<Seq<u8>>::empty());
            }
            return Control::Exit(ExitReason::Error(e));
        },
    };
    let len_w = match runtime.machine.stack.pop() {
        Ok(w) => w,
        Err(e) => {
            proof {
                assert(runtime.machine.stack@ =~= Seq::<Seq<u8>>::empty());
            }
            return Control::Exit(ExitReason::Error(e));
        },
    };
    proof {
        assert(runtime.machine.stack@ =~= old(runtime).machine.stack@.take(
            old(runtime).machine.stack@.len() - 3,
        ));
    }
    let mo = match U256::from_h256(&mo_w).as_usize() {
        Some(o) => o,
        None => {
            return Control::Exit(ExitReason::Fatal(ExitFatal::NotSupported));
        },
    };
    let doff = match U256::from_h256(&do_w).as_usize() {
        Some(o) => o,
        None => {
            return Control::Exit(ExitReason::Fatal(ExitFatal::NotSupported));
        },
    };
    let len = match U256::from_h256(&len_w).as_usize() {
        Some(l) => l,
        None => {
            return Control::Exit(ExitReason::Fatal(ExitFatal::NotSupported));
        },
    };
    match runtime.machine.memory.resize_offset(mo, len) {
        Ok(()) => (),
        Err(e) => {
            return Control::Exit(ExitReason::Error(e));
        },
    }
    proof {
        assert(runtime.return_data_buffer.len() == runtime.return_data_buffer@.len());
    }
    let out_of_range = match doff.checked_add(len) {
        Some(end) => end > runtime.return_data_buffer.len(),
        None => true,
    };
    if out_of_range {
        return Control::Exit(ExitReason::Error(ExitError::OutOfOffset));
    }
    let ghost resized = runtime.machine.memory@;
    match runtime.machine.memory.copy_large(mo, doff, len, runtime.return_data_buffer.as_slice()) {
        Ok(()) => {
            proof {
                assert(zero_extend(resized, mo + len) =~= resized);
                assert(read_padded(
                    old(runtime).return_data_buffer@,
                    doff as int,
                    len as int,
                ) =~= old(runtime).return_data_buffer@.subrange(doff as int, doff + len));
            }
            Control::Continue
        },
        Err(_) => {
            proof {
                assert(false);
            }
            Control::Exit(ExitReason::Error(ExitError::InvalidRange))
        },
    }
}

/// What a log opcode does: pop a data range, grow memory over it, pop
/// `n` topic words, then hand the record to the handler.
pub open spec fn log_post<CI, CRI>(pre: Runtime, post: Runtime, n: int, r: Control<
    CI,
    CRI,
>) -> bool {
    let s = pre.machine.stack@;
    let m = pre.machine.memory@;
    let mlimit = pre.machine.memory.limit;
    if s.len() < 2 {
        &&& post.machine.stack@ == Seq::<Seq<u8>>::empty()
        &&& post.machine.memory@ == m
        &&& r == Control::<CI, CRI>::Exit(ExitReason::Error(ExitError::StackUnderflow))
    } else {
        let ow = s[s.len() - 1];
        let lw = s[s.len() - 2];
        let rest2 = s.take(s.len() - 2);
        if !(word_fits_usize(ow) && word_fits_usize(lw)) {
            &&& post.machine.stack@ == rest2
            &&& post.machine.memory@ == m
            &&& r == Control::<CI, CRI>::Exit(ExitReason::Fatal(ExitFatal::NotSupported))
        } else {
            let off = lo_u64(ow) as int;
            let len = lo_u64(lw) as int;
            if off + len > usize::MAX {
                &&& post.machine.stack@ == rest2
                &&& post.machine.memory@ == m
                &&& r == Control::<CI, CRI>::Exit(ExitReason::Error(ExitError::InvalidRange))
            } else if off + len > mlimit {
                &&& post.machine.stack@ == rest2
                &&& post.machine.memory@ == m
                &&& r == Control::<CI, CRI>::Exit(ExitReason::Error(ExitError::MemoryLimitExceeded))
            } else {
                &&& post.machine.memory@ == zero_extend(m, off + len)
                &&& (if rest2.len() < n {
                    &&& post.machine.stack@ == Seq::<Seq<u8>>::empty()
                    &&& r == Control::<CI, CRI>::Exit(ExitReason::Error(ExitError::StackUnderflow))
                } else {
                    &&& post.machine.stack@ == s.take(s.len() - 2 - n)
                    &&& (r is Continue || r matches Control::Exit(ExitReason::Error(_)))
                })
            }
        }
    }
}

/// Pop a data range and `n` topic words, grow memory over the range and
/// hand the log record to the handler; an empty range logs no bytes but
/// memory still grows up to the offset.
pub fn log<H: Handler>(runtime: &mut Runtime, n: u8, handler: &mut H) -> (r: Control<
    H::CallInterrupt,
    H::CreateInterrupt,
>)
    requires
        old(runtime).wf(),
        n <= 4,
    ensures
        final(runtime).wf(),
        keeps_outer(*old(runtime), *final(runtime)),
        trace_same(*old(runtime), *final(runtime)),
        buffer_same(*old(runtime), *final(runtime)),
        log_post(*old(runtime), *final(runtime), n as int, r),
{
    let ow = match runtime.machine.stack.pop() {
        Ok(w) => w,
        Err(e) => {
            proof {
                assert(runtime.machine.stack@ =~= Seq::<Seq<u8>>::empty());
            }
            return Control::Exit(ExitReason::Error(e));
        },
    };
    let lw = match runtime.machine.stack.pop() {
        Ok(w) => w,
        Err(e) => {
            proof {
                assert(runtime.machine.stack@ =~= Seq::<Seq<u8>>::empty());
            }
            return Control::Exit(ExitReason::Error(e));
        },
    };
    proof {
        assert(runtime.machine.stack@ =~= old(runtime).machine.stack@.take(
            old(runtime).machine.stack@.len() - 2,
        ));
    }
    let off = match U256::from_h256(&ow).as_usize() {
        Some(o) => o,
        None => {
            return Control::Exit(ExitReason::Fatal(ExitFatal::NotSupported));
        },
    };
    let len = match U256::from_h256(&lw).as_usize() {
        Some(l) => l,
        None => {
            return Control::Exit(ExitReason::Fatal(ExitFatal::NotSupported));
        },
    };
    match runtime.machine.memory.resize_offset(off, len) {
        Ok(()) => (),
        Err(e) => {
            return Control::Exit(ExitReason::Error(e));
        },
    }
    let data = if len == 0 {
        Vec::new()
    } else {
        runtime.machine.memory.get(off, len)
    };
    let mut topics: Vec<H256> = Vec::new();
    let mut k: u8 = 0;
    while k < n
        invariant
            old(runtime).wf(),
            k <= n,
            runtime.wf(),
            keeps_outer(*old(runtime), *runtime),
            trace_same(*old(runtime), *runtime),
            buffer_same(*old(runtime), *runtime),
            old(runtime).machine.stack@.len() >= 2,
            k as int <= old(runtime).machine.stack@.len() - 2,
            word_fits_usize(
                old(runtime).machine.stack@[old(runtime).machine.stack@.len() - 1],
            ),
            word_fits_usize(
                old(runtime).machine.stack@[old(runtime).machine.stack@.len() - 2],
            ),
            lo_u64(old(runtime).machine.stack@[old(runtime).machine.stack@.len() - 1]) + lo_u64(
                old(runtime).machine.stack@[old(runtime).machine.stack@.len() - 2],
            ) <= old(runtime).machine.memory.limit,
            runtime.machine.memory@.len() >= old(runtime).machine.memory@.len(),
            runtime.machine.memory@ == zero_extend(
                old(runtime).machine.memory@,
                lo_u64(old(runtime).machine.stack@[old(runtime).machine.stack@.len() - 1]) as int
                    + lo_u64(
                    old(runtime).machine.stack@[old(runtime).machine.stack@.len() - 2],
                ) as int,
            ),
            runtime.machine.stack@ == old(runtime).machine.stack@.take(
                old(runtime).machine.stack@.len() - 2 - k,
            ),
        decreases n - k,
    {
        match runtime.machine.stack.pop() {
            Ok(value) => {
                topics.push(value);
            },
            Err(e) => {
                proof {
                    assert(runtime.machine.stack@ =~= Seq::<Seq<u8>>::empty());
                }
                return Control::Exit(ExitReason::Error(e));
            },
        }
        proof {
            assert(runtime.machine.stack@ =~= old(runtime).machine.stack@.take(
                old(runtime).machine.stack@.len() - 2 - (k + 1),
            ));
        }
        k = k + 1;
    }
    match handler.log(&runtime.context.address, topics, data) {
        Ok(()) => Control::Continue,
        Err(e) => Control::Exit(ExitReason::Error(e)),
    }
}

/// Gas budget handed to a nested call: a requested amount above the
/// 64-bit range counts as unlimited.
pub fn call_gas_limit(gas: &U256) -> (r: Option<u64>)
    requires
        gas.wf(),
    ensures
        r is None <==> !fits_u64(gas@),
        (r matches Some(g) ==> g == lo_u64(gas@)),
{
    gas.as_u64()
}

/// The child context a call builds, by scheme: a plain or static call
/// runs the target's code at the target; a code-call runs it at the
/// caller's own account; a delegate call inherits the parent verbatim.
pub fn build_call_context(scheme: CallScheme, parent: &Context, to: &H160, value: &U256) -> (r:
    Context)
    requires
        parent.wf(),
        to.wf(),
        value.wf(),
    ensures
        r.wf(),
        (match scheme {
            CallScheme::Call | CallScheme::StaticCall => r.address@ == to@ && r.caller@
                == parent.address@ && r.apparent_value@ == value@,
            CallScheme::CallCode => r.address@ == parent.address@ && r.caller@ == parent.address@
                && r.apparent_value@ == value@,
            CallScheme::DelegateCall => r.address@ == parent.address@ && r.caller@
                == parent.caller@ && r.apparent_value@ == parent.apparent_value@,
        }),
{
    match scheme {
        CallScheme::Call | CallScheme::StaticCall => Context {
            address: to.clone(),
            caller: parent.address.clone(),
            apparent_value: value.clone(),
        },
        CallScheme::CallCode => Context {
            address: parent.address.clone(),
            caller: parent.address.clone(),
            apparent_value: value.clone(),
        },
        CallScheme::DelegateCall => parent.clone(),
    }
}

/// The transfer a call performs, by scheme: a plain call moves the value
/// to the target, a code-call moves it from the caller to itself, and
/// the delegate and static schemes move nothing.
pub fn build_call_transfer(scheme: CallScheme, parent: &Context, to: &H160, value: &U256) -> (r:
    Option<Transfer>)
    requires
        parent.wf(),
        to.wf(),
        value.wf(),
    ensures
        (match scheme {
            CallScheme::Call => r matches Some(t) && t.wf() && t.source@ == parent.address@
                && t.target@ == to@ && t.value@ == value@,
            CallScheme::CallCode => r matches Some(t) && t.wf() && t.source@ == parent.address@
                && t.target@ == parent.address@ && t.value@ == value@,
            CallScheme::DelegateCall | CallScheme::StaticCall => r is None,
        }),
{
    if scheme == CallScheme::Call {
        Some(
            Transfer {
                source: parent.address.clone(),
                target: to.clone(),
                value: value.clone(),
            },
        )
    } else if scheme == CallScheme::CallCode {
        Some(
            Transfer {
                source: parent.address.clone(),
                target: parent.address.clone(),
                value: value.clone(),
            },
        )
    } else {
        None
    }
}

/// The scheme a creation hands to the handler: the salted scheme keeps
/// the popped salt and the handler-computed hash of the init code next
/// to the creating address; the legacy scheme names that address alone.
pub fn build_create_scheme(parent: &Context, salted: Option<(H256, H256)>) -> (r: CreateScheme)
    requires
        parent.wf(),
        (salted matches Some(p) ==> p.0.wf() && p.1.wf()),
    ensures
        r.wf(),
        (match salted {
            None => r matches CreateScheme::Legacy { caller } && caller@ == parent.address@,
            Some((salt, code_hash)) => r matches CreateScheme::Create2 {
                caller,
                code_hash: h,
                salt: s,
            } && caller@ == parent.address@ && h@ == code_hash@ && s@ == salt@,
        }),
{
    match salted {
        None => CreateScheme::Legacy { caller: parent.address.clone() },
        Some((salt, code_hash)) => CreateScheme::Create2 {
            caller: parent.address.clone(),
            salt,
            code_hash,
        },
    }
}

/// How a child creation's outcome folds into the parent stack: success
/// pushes the created address as a word, a revert or frame-local error
/// pushes zero, and a fatal reason pushes zero and then re-exits with
/// the same reason; exactly one word is pushed whenever room exists.
pub open spec fn save_created_rel<CI, CRI>(
    s0: Seq<Seq<u8>>,
    slimit: int,
    reason: ExitReason,
    addr: Option<Seq<u8>>,
    s1: Seq<Seq<u8>>,
    r: Control<CI, CRI>,
) -> bool {
    let w = match addr {
        Some(a) => word_of_address(a),
        None => word_zero(),
    };
    match reason {
        ExitReason::Succeed(_) => if s0.len() < slimit {
            s1 == s0.push(w) && r is Continue
        } else {
            s1 == s0 && r == Control::<CI, CRI>::Exit(ExitReason::Error(ExitError::StackOverflow))
        },
        ExitReason::Revert(_) => if s0.len() < slimit {
            s1 == s0.push(word_zero()) && r is Continue
        } else {
            s1 == s0 && r == Control::<CI, CRI>::Exit(ExitReason::Error(ExitError::StackOverflow))
        },
        ExitReason::Error(_) => if s0.len() < slimit {
            s1 == s0.push(word_zero()) && r is Continue
        } else {
            s1 == s0 && r == Control::<CI, CRI>::Exit(ExitReason::Error(ExitError::StackOverflow))
        },
        ExitReason::Fatal(e) => if s0.len() < slimit {
            s1 == s0.push(word_zero()) && r == Control::<CI, CRI>::Exit(ExitReason::Fatal(e))
        } else {
            s1 == s0 && r == Control::<CI, CRI>::Exit(ExitReason::Error(ExitError::StackOverflow))
        },
        ExitReason::StepLimitReached => false,
    }
}

/// The view of an optional created address.
pub open spec fn opt_addr_view(a: Option<H160>) -> Option<Seq<u8>> {
    match a {
        Some(x) => Some(x@),
        None => None,
    }
}

/// Fold a finished child creation into the parent frame: push the
/// created address on success and zero otherwise, re-exiting on a fatal
/// reason. On entry the parent stack does not yet hold the result word;
/// on return its top is exactly the one pushed word.
pub fn save_created_address<H: Handler>(
    runtime: &mut Runtime,
    reason: ExitReason,
    address: Option<H160>,
    _handler: &H,
) -> (r: Control<H::CallInterrupt, H::CreateInterrupt>)
    requires
        old(runtime).wf(),
        !(reason is StepLimitReached),
        (address matches Some(a) ==> a.wf()),
    ensures
        final(runtime).wf(),
        keeps_outer(*old(runtime), *final(runtime)),
        trace_same(*old(runtime), *final(runtime)),
        buffer_same(*old(runtime), *final(runtime)),
        final(runtime).machine.memory@ == old(runtime).machine.memory@,
        save_created_rel(
            old(runtime).machine.stack@,
            old(runtime).machine.stack.limit as int,
            reason,
            opt_addr_view(address),
            final(runtime).machine.stack@,
            r,
        ),
{
    let create_address = match address {
        Some(a) => H256::from_h160(&a),
        None => {
            let z = H256::zero();
            proof {
                assert(z@ =~= word_zero());
            }
            z
        },
    };
    match reason {
        ExitReason::Succeed(_) => {
            match runtime.machine.stack.push(create_address) {
                Ok(()) => Control::Continue,
                Err(e) => Control::Exit(ExitReason::Error(e)),
            }
        },
        ExitReason::Revert(_) => {
            let z = H256::zero();
            proof {
                assert(z@ =~= word_zero());
            }
            match runtime.machine.stack.push(z) {
                Ok(()) => Control::Continue,
                Err(e) => Control::Exit(ExitReason::Error(e)),
            }
        },
        ExitReason::Error(_) => {
            let z = H256::zero();
            proof {
                assert(z@ =~= word_zero());
            }
            match runtime.machine.stack.push(z) {
                Ok(()) => Control::Continue,
                Err(e) => Control::Exit(ExitReason::Error(e)),
            }
        },
        ExitReason::Fatal(e) => {
            let z = H256::zero();
            proof {
                assert(z@ =~= word_zero());
            }
            match runtime.machine.stack.push(z) {
                Ok(()) => Control::Exit(ExitReason::Fatal(e)),
                Err(pe) => Control::Exit(ExitReason::Error(pe)),
            }
        },
        ExitReason::StepLimitReached => {
            proof {
                assert(false);
            }
            Control::Continue
        },
    }
}

/// How a finished child call's outcome folds into the parent: the
/// still-present output window is popped and memory grown over it, the
/// return-data buffer becomes the child's bytes, the data is copied into
/// the window on success and on revert, and exactly one word lands on
/// the stack: one on success, zero otherwise; a fatal reason re-exits.
pub open spec fn save_return_rel<CI, CRI>(
    s0: Seq<Seq<u8>>,
    m0: Seq<u8>,
    mlimit: int,
    buf0: Seq<u8>,
    reason: ExitReason,
    rdata: Seq<u8>,
    s1: Seq<Seq<u8>>,
    m1: Seq<u8>,
    buf1: Seq<u8>,
    r: Control<CI, CRI>,
) -> bool {
    if s0.len() < 2 {
        &&& s1 == Seq::<Seq<u8>>::empty()
        &&& m1 == m0
        &&& buf1 == buf0
        &&& r == Control::<CI, CRI>::Exit(ExitReason::Error(ExitError::StackUnderflow))
    } else {
        let ow = s0[s0.len() - 1];
        let lw = s0[s0.len() - 2];
        let rest = s0.take(s0.len() - 2);
        if !(word_fits_usize(ow) && word_fits_usize(lw)) {
            &&& s1 == rest
            &&& m1 == m0
            &&& buf1 == buf0
            &&& r == Control::<CI, CRI>::Exit(ExitReason::Fatal(ExitFatal::NotSupported))
        } else {
            let oo = lo_u64(ow) as int;
            let ol = lo_u64(lw) as int;
            if oo + ol > usize::MAX {
                &&& s1 == rest
                &&& m1 == m0
                &&& buf1 == buf0
                &&& r == Control::<CI, CRI>::Exit(ExitReason::Error(ExitError::InvalidRange))
            } else if oo + ol > mlimit {
                &&& s1 == rest
                &&& m1 == m0
                &&& buf1 == buf0
                &&& r == Control::<CI, CRI>::Exit(ExitReason::Error(ExitError::MemoryLimitExceeded))
            } else {
                let mres = zero_extend(m0, oo + ol);
                let tlen = if ol < rdata.len() {
                    ol
                } else {
                    rdata.len() as int
                };
                &&& buf1 == rdata
                &&& match reason {
                    ExitReason::Succeed(_) => s1 == rest.push(word_one()) && m1 == write_bytes(
                        mres,
                        oo,
                        rdata.take(tlen),
                    ) && r is Continue,
                    ExitReason::Revert(_) => s1 == rest.push(word_zero()) && m1 == write_bytes(
                        mres,
                        oo,
                        rdata.take(tlen),
                    ) && r is Continue,
                    ExitReason::Error(_) => s1 == rest.push(word_zero()) && m1 == mres
                        && r is Continue,
                    ExitReason::Fatal(e) => s1 == rest.push(word_zero()) && m1 == mres && r
                        == Control::<CI, CRI>::Exit(ExitReason::Fatal(e)),
                    ExitReason::StepLimitReached => false,
                }
            }
        }
    }
}

/// Fold a finished child call into the parent frame. The parent stack
/// still holds the output window `(out_offset, out_len)` left there by
/// the call dispatch; it is popped here so the window survives a
/// suspension on the stack itself. After the fold the buffer holds
/// exactly the child's returned bytes and the stack top is the one
/// result word.
pub fn save_return_value<H: Handler>(
    runtime: &mut Runtime,
    reason: ExitReason,
    return_data: Vec<u8>,
    _handler: &H,
) -> (r: Control<H::CallInterrupt, H::CreateInterrupt>)
    requires
        old(runtime).wf(),
        !(reason is StepLimitReached),
    ensures
        final(runtime).wf(),
        keeps_outer(*old(runtime), *final(runtime)),
        trace_same(*old(runtime), *final(runtime)),
        final(runtime).machine.memory@.len() >= old(runtime).machine.memory@.len(),
        save_return_rel(
            old(runtime).machine.stack@,
            old(runtime).machine.memory@,
            old(runtime).machine.memory.limit as int,
            old(runtime).return_data_buffer@,
            reason,
            return_data@,
            final(runtime).machine.stack@,
            final(runtime).machine.memory@,
            final(runtime).return_data_buffer@,
            r,
        ),
{
    let ow = match runtime.machine.stack.pop() {
        Ok(w) => w,
        Err(e) => {
            proof {
                assert(runtime.machine.stack@ =~= Seq::<Seq<u8>>::empty());
            }
            return Control::Exit(ExitReason::Error(e));
        },
    };
    let lw = match runtime.machine.stack.pop() {
        Ok(w) => w,
        Err(e) => {
            proof {
                assert(runtime.machine.stack@ =~= Seq::<Seq<u8>>::empty());
            }
            return Control::Exit(ExitReason::Error(e));
        },
    };
    proof {
        assert(runtime.machine.stack@ =~= old(runtime).machine.stack@.take(
            old(runtime).machine.stack@.len() - 2,
        ));
    }
    let oo = match U256::from_h256(&ow).as_usize() {
        Some(o) => o,
        None => {
            return Control::Exit(ExitReason::Fatal(ExitFatal::NotSupported));
        },
    };
    let ol = match U256::from_h256(&lw).as_usize() {
        Some(l) => l,
        None => {
            return Control::Exit(ExitReason::Fatal(ExitFatal::NotSupported));
        },
    };
    match runtime.machine.memory.resize_offset(oo, ol) {
        Ok(()) => (),
        Err(e) => {
            return Control::Exit(ExitReason::Error(e));
        },
    }
    let ghost resized = runtime.machine.memory@;
    runtime.return_data_buffer = return_data;
    let target_len = if ol < runtime.return_data_buffer.len() {
        ol
    } else {
        runtime.return_data_buffer.len()
    };
    proof {
        assert(runtime.return_data_buffer.len() == runtime.return_data_buffer@.len());
    }
    match reason {
        ExitReason::Succeed(_) => {
            match runtime.machine.memory.copy_large(
                oo,
                0,
                target_len,
                runtime.return_data_buffer.as_slice(),
            ) {
                Ok(()) => {
                    proof {
                        assert(zero_extend(resized, oo + target_len) =~= resized);
                        assert(read_padded(
                            runtime.return_data_buffer@,
                            0,
                            target_len as int,
                        ) =~= runtime.return_data_buffer@.take(target_len as int));
                    }
                    let one = U256::one().to_h256();
                    proof {
                        assert(one@ =~= word_one());
                    }
                    match runtime.machine.stack.push(one) {
                        Ok(()) => Control::Continue,
                        Err(_) => {
                            proof {
                                assert(false);
                            }
                            Control::Exit(ExitReason::Error(ExitError::StackOverflow))
                        },
                    }
                },
                Err(_) => {
                    proof {
                        assert(false);
                    }
                    Control::Exit(ExitReason::Error(ExitError::InvalidRange))
                },
            }
        },
        ExitReason::Revert(_) => {
            let z = H256::zero();
            proof {
                assert(z@ =~= word_zero());
            }
            match runtime.machine.stack.push(z) {
                Ok(()) => (),
                Err(_) => {
                    proof {
                        assert(false);
                    }
                    return Control::Exit(ExitReason::Error(ExitError::StackOverflow));
                },
            }
            match runtime.machine.memory.copy_large(
                oo,
                0,
                target_len,
                runtime.return_data_buffer.as_slice(),
            ) {
                Ok(()) => (),
                Err(_) => {
                    proof {
                        assert(false);
                    }
                },
            }
            proof {
                assert(zero_extend(resized, oo + target_len) =~= resized);
                assert(read_padded(runtime.return_data_buffer@, 0, target_len as int)
                    =~= runtime.return_data_buffer@.take(target_len as int));
            }
            Control::Continue
        },
        ExitReason::Error(_) => {
            let z = H256::zero();
            proof {
                assert(z@ =~= word_zero());
            }
            match runtime.machine.stack.push(z) {
                Ok(()) => Control::Continue,
                Err(_) => {
                    proof {
                        assert(false);
                    }
                    Control::Exit(ExitReason::Error(ExitError::StackOverflow))
                },
            }
        },
        ExitReason::Fatal(e) => {
            let z = H256::zero();
            proof {
                assert(z@ =~= word_zero());
            }
            match runtime.machine.stack.push(z) {
                Ok(()) => Control::Exit(ExitReason::Fatal(e)),
                Err(_) => {
                    proof {
                        assert(false);
                    }
                    Control::Exit(ExitReason::Error(ExitError::StackOverflow))
                },
            }
        },
        ExitReason::StepLimitReached => {
            proof {
                assert(false);
            }
            Control::Continue
        },
    }
}

/// A creation dispatch finished: either it suspended leaving the popped
/// stack as is, or the handler exited with some reason and optional
/// address and the created-address rule folded them in.
pub open spec fn created_outcome<CI, CRI>(
    rest: Seq<Seq<u8>>,
    slimit: int,
    s1: Seq<Seq<u8>>,
    r: Control<CI, CRI>,
) -> bool {
    ||| (r is CreateInterrupt && s1 == rest)
    ||| (exists|reason: ExitReason, addr: Option<Seq<u8>>|
        !(reason is StepLimitReached) && save_created_rel(rest, slimit, reason, addr, s1, r))
}

/// A call dispatch finished: either it suspended leaving the popped
/// stack, grown memory and empty buffer as they are, or the handler
/// exited with some reason and data and the return-value rule folded
/// them in.
pub open spec fn call_outcome<CI, CRI>(
    rest: Seq<Seq<u8>>,
    m1: Seq<u8>,
    mlimit: int,
    s1: Seq<Seq<u8>>,
    mem1: Seq<u8>,
    buf1: Seq<u8>,
    r: Control<CI, CRI>,
) -> bool {
    ||| (r is CallInterrupt && s1 == rest && mem1 == m1 && buf1 == Seq::<u8>::empty())
    ||| (exists|reason: ExitReason, rdata: Seq<u8>|
        !(reason is StepLimitReached) && save_return_rel(
            rest,
            m1,
            mlimit,
            Seq::<u8>::empty(),
            reason,
            rdata,
            s1,
            mem1,
            buf1,
            r,
        ))
}

/// What the creation opcodes do: reset the return-data buffer, pop value
/// and init-code range (plus a salt for the salted scheme), grow memory
/// over the range, then either suspend on a handler trap or fold the
/// handler's exit through the created-address rule. The buffer stays
/// empty in every outcome: the parent sees the child's data only when a
/// suspension is resolved.
pub open spec fn create_post<CI, CRI>(pre: Runtime, post: Runtime, is_create2: bool, r: Control<
    CI,
    CRI,
>) -> bool {
    let s = pre.machine.stack@;
    let m = pre.machine.memory@;
    let mlimit = pre.machine.memory.limit;
    let slimit = pre.machine.stack.limit;
    &&& post.return_data_buffer@ == Seq::<u8>::empty()
    &&& if s.len() < 3 {
        &&& post.machine.stack@ == Seq::<Seq<u8>>::empty()
        &&& post.machine.memory@ == m
        &&& r == Control::<CI, CRI>::Exit(ExitReason::Error(ExitError::StackUnderflow))
    } else {
        let cow = s[s.len() - 2];
        let lw = s[s.len() - 3];
        let rest3 = s.take(s.len() - 3);
        if !(word_fits_usize(cow) && word_fits_usize(lw)) {
            &&& post.machine.stack@ == rest3
            &&& post.machine.memory@ == m
            &&& r == Control::<CI, CRI>::Exit(ExitReason::Fatal(ExitFatal::NotSupported))
        } else {
            let co = lo_u64(cow) as int;
            let cl = lo_u64(lw) as int;
            if co + cl > usize::MAX {
                &&& post.machine.stack@ == rest3
                &&& post.machine.memory@ == m
                &&& r == Control::<CI, CRI>::Exit(ExitReason::Error(ExitError::InvalidRange))
            } else if co + cl > mlimit {
                &&& post.machine.stack@ == rest3
                &&& post.machine.memory@ == m
                &&& r == Control::<CI, CRI>::Exit(ExitReason::Error(ExitError::MemoryLimitExceeded))
            } else {
                &&& post.machine.memory@ == zero_extend(m, co + cl)
                &&& if is_create2 && rest3.len() == 0 {
                    &&& post.machine.stack@ == Seq::<Seq<u8>>::empty()
                    &&& r == Control::<CI, CRI>::Exit(ExitReason::Error(ExitError::StackUnderflow))
                } else {
                    let rest = if is_create2 {
                        rest3.drop_last()
                    } else {
                        rest3
                    };
                    created_outcome(rest, slimit as int, post.machine.stack@, r)
                }
            }
        }
    }
}

/// Dispatch a contract creation: build the scheme, hand the init code to
/// the handler, and either suspend or fold the outcome into the parent.
#[verifier::rlimit(100)]
#[verifier::spinoff_prover]
pub fn create<H: Handler>(runtime: &mut Runtime, is_create2: bool, handler: &mut H) -> (r: Control<
    H::CallInterrupt,
    H::CreateInterrupt,
>)
    requires
        old(runtime).wf(),
    ensures
        final(runtime).wf(),
        keeps_outer(*old(runtime), *final(runtime)),
        trace_same(*old(runtime), *final(runtime)),
        create_post(*old(runtime), *final(runtime), is_create2, r),
{
    runtime.return_data_buffer = Vec::new();
    let vw = match runtime.machine.stack.pop() {
        Ok(w) => w,
        Err(e) => {
            proof {
                assert(runtime.machine.stack@ =~= Seq::<Seq<u8>>::empty());
            }
            return Control::Exit(ExitReason::Error(e));
        },
    };
    let cow = match runtime.machine.stack.pop() {
        Ok(w) => w,
        Err(e) => {
            proof {
                assert(runtime.machine.stack@ =~= Seq::<Seq<u8>>::empty());
            }
            return Control::Exit(ExitReason::Error(e));
        },
    };
    let lw = match runtime.machine.stack.pop() {
        Ok(w) => w,
        Err(e) => {
            proof {
                assert(runtime.machine.stack@ =~= Seq::<Seq<u8>>::empty());
            }
            return Control::Exit(ExitReason::Error(e));
        },
    };
    proof {
        let s0 = old(runtime).machine.stack@;
        assert(runtime.machine.stack@ =~= s0.take(s0.len() - 3));
        assert(cow@ == s0[s0.len() - 2]);
        assert(lw@ == s0[s0.len() - 3]);
    }
    let co = match U256::from_h256(&cow).as_usize() {
        Some(o) => o,
        None => {
            return Control::Exit(ExitReason::Fatal(ExitFatal::NotSupported));
        },
    };
    let cl = match U256::from_h256(&lw).as_usize() {
        Some(l) => l,
        None => {
            return Control::Exit(ExitReason::Fatal(ExitFatal::NotSupported));
        },
    };
    match runtime.machine.memory.resize_offset(co, cl) {
        Ok(()) => (),
        Err(e) => {
            return Control::Exit(ExitReason::Error(e));
        },
    }
    let code = if cl == 0 {
        Vec::new()
    } else {
        runtime.machine.memory.get(co, cl)
    };
    let scheme = if is_create2 {
        let salt = match runtime.machine.stack.pop() {
            Ok(w) => w,
            Err(e) => {
                proof {
                    assert(runtime.machine.stack@ =~= Seq::<Seq<u8>>::empty());
                }
                return Control::Exit(ExitReason::Error(e));
            },
        };
        let code_hash = handler.keccak256_h256(code.as_slice());
        build_create_scheme(&runtime.context, Some((salt, code_hash)))
    } else {
        build_create_scheme(&runtime.context, None)
    };
    let value = U256::from_h256(&vw);
    let caller_addr = runtime.context.address.clone();
    match handler.create(&caller_addr, scheme, value, code, None) {
        Capture::Exit((reason, addr, _return_data)) => {
            let ghost gaddr = opt_addr_view(addr);
            let ghost mid_stack = runtime.machine.stack@;
            let res = save_created_address(runtime, reason, addr, handler);
            proof {
                let s0 = old(runtime).machine.stack@;
                let rest3 = s0.take(s0.len() - 3);
                if is_create2 {
                    assert(mid_stack =~= rest3.drop_last());
                } else {
                    assert(mid_stack =~= rest3);
                }
                assert(save_created_rel(
                    mid_stack,
                    old(runtime).machine.stack.limit as int,
                    reason,
                    gaddr,
                    runtime.machine.stack@,
                    res,
                ));
                let grest = if is_create2 {
                    rest3.drop_last()
                } else {
                    rest3
                };
                assert(created_outcome(
                    grest,
                    old(runtime).machine.stack.limit as int,
                    runtime.machine.stack@,
                    res,
                ));
            }
            res
        },
        Capture::Trap(interrupt) => {
            let res = Control::<H::CallInterrupt, H::CreateInterrupt>::CreateInterrupt(interrupt);
            proof {
                assert(create_post(*old(runtime), *runtime, is_create2, res));
            }
            res
        },
    }
}

/// What the call opcodes do: reset the return-data buffer, pop gas,
/// target, value where the scheme carries one, and the input range; grow
/// memory over the input; leave the output window on the stack; then
/// either suspend on a handler trap or fold the handler's exit through
/// the return-value rule. While suspended the buffer is empty.
pub open spec fn call_post<CI, CRI>(pre: Runtime, post: Runtime, scheme: CallScheme, r: Control<
    CI,
    CRI,
>) -> bool {
    let s = pre.machine.stack@;
    let m = pre.machine.memory@;
    let mlimit = pre.machine.memory.limit;
    let needed: int = if scheme is Call || scheme is CallCode {
        5
    } else {
        4
    };
    if s.len() < needed {
        &&& post.machine.stack@ == Seq::<Seq<u8>>::empty()
        &&& post.machine.memory@ == m
        &&& post.return_data_buffer@ == Seq::<u8>::empty()
        &&& r == Control::<CI, CRI>::Exit(ExitReason::Error(ExitError::StackUnderflow))
    } else {
        let io_w = s[s.len() - needed + 1];
        let il_w = s[s.len() - needed];
        let rest = s.take(s.len() - needed);
        if !(word_fits_usize(io_w) && word_fits_usize(il_w)) {
            &&& post.machine.stack@ == rest
            &&& post.machine.memory@ == m
            &&& post.return_data_buffer@ == Seq::<u8>::empty()
            &&& r == Control::<CI, CRI>::Exit(ExitReason::Fatal(ExitFatal::NotSupported))
        } else {
            let io = lo_u64(io_w) as int;
            let il = lo_u64(il_w) as int;
            if io + il > usize::MAX {
                &&& post.machine.stack@ == rest
                &&& post.machine.memory@ == m
                &&& post.return_data_buffer@ == Seq::<u8>::empty()
                &&& r == Control::<CI, CRI>::Exit(ExitReason::Error(ExitError::InvalidRange))
            } else if io + il > mlimit {
                &&& post.machine.stack@ == rest
                &&& post.machine.memory@ == m
                &&& post.return_data_buffer@ == Seq::<u8>::empty()
                &&& r == Control::<CI, CRI>::Exit(ExitReason::Error(ExitError::MemoryLimitExceeded))
            } else {
                let m1 = zero_extend(m, io + il);
                call_outcome(
                    rest,
                    m1,
                    mlimit as int,
                    post.machine.stack@,
                    post.machine.memory@,
                    post.return_data_buffer@,
                    r,
                )
            }
        }
    }
}

/// Dispatch a nested call: build the child context and transfer by
/// scheme, clamp the gas budget, hand the input to the handler, and
/// either suspend or fold the outcome into the parent. The output
/// window stays on the stack for the resume path.
#[verifier::rlimit(100)]
#[verifier::spinoff_prover]
pub fn call<H: Handler>(runtime: &mut Runtime, scheme: CallScheme, handler: &mut H) -> (r: Control<
    H::CallInterrupt,
    H::CreateInterrupt,
>)
    requires
        old(runtime).wf(),
    ensures
        final(runtime).wf(),
        keeps_outer(*old(runtime), *final(runtime)),
        trace_same(*old(runtime), *final(runtime)),
        call_post(*old(runtime), *final(runtime), scheme, r),
{
    runtime.return_data_buffer = Vec::new();
    let ghost s0 = old(runtime).machine.stack@;
    let gas_w = match runtime.machine.stack.pop() {
        Ok(w) => w,
        Err(e) => {
            proof {
                assert(runtime.machine.stack@ =~= Seq::<Seq<u8>>::empty());
            }
            return Control::Exit(ExitReason::Error(e));
        },
    };
    proof {
        assert(runtime.machine.stack@ =~= s0.take(s0.len() - 1));
        assert(gas_w@ == s0[s0.len() - 1]);
    }
    let to_w = match runtime.machine.stack.pop() {
        Ok(w) => w,
        Err(e) => {
            proof {
                assert(runtime.machine.stack@ =~= Seq::<Seq<u8>>::empty());
            }
            return Control::Exit(ExitReason::Error(e));
        },
    };
    proof {
        assert(runtime.machine.stack@ =~= s0.take(s0.len() - 2));
        assert(to_w@ == s0[s0.len() - 2]);
    }
    let value = if scheme == CallScheme::Call || scheme == CallScheme::CallCode {
        let vw = match runtime.machine.stack.pop() {
            Ok(w) => w,
            Err(e) => {
                proof {
                    assert(runtime.machine.stack@ =~= Seq::<Seq<u8>>::empty());
                }
                return Control::Exit(ExitReason::Error(e));
            },
        };
        proof {
            assert(runtime.machine.stack@ =~= s0.take(s0.len() - 3));
        }
        U256::from_h256(&vw)
    } else {
        U256::zero()
    };
    let ghost needed: int = if scheme is Call || scheme is CallCode {
        5
    } else {
        4
    };
    let io_w = match runtime.machine.stack.pop() {
        Ok(w) => w,
        Err(e) => {
            proof {
                assert(runtime.machine.stack@ =~= Seq::<Seq<u8>>::empty());
            }
            return Control::Exit(ExitReason::Error(e));
        },
    };
    proof {
        assert(runtime.machine.stack@ =~= s0.take(s0.len() - needed + 1));
        assert(io_w@ == s0[s0.len() - needed + 1]);
    }
    let il_w = match runtime.machine.stack.pop() {
        Ok(w) => w,
        Err(e) => {
            proof {
                assert(runtime.machine.stack@ =~= Seq::<Seq<u8>>::empty());
            }
            return Control::Exit(ExitReason::Error(e));
        },
    };
    proof {
        assert(runtime.machine.stack@ =~= s0.take(s0.len() - needed));
        assert(il_w@ == s0[s0.len() - needed]);
    }
    let gas_limit = call_gas_limit(&U256::from_h256(&gas_w));
    let io = match U256::from_h256(&io_w).as_usize() {
        Some(o) => o,
        None => {
            return Control::Exit(ExitReason::Fatal(ExitFatal::NotSupported));
        },
    };
    let il = match U256::from_h256(&il_w).as_usize() {
        Some(l) => l,
        None => {
            return Control::Exit(ExitReason::Fatal(ExitFatal::NotSupported));
        },
    };
    match runtime.machine.memory.resize_offset(io, il) {
        Ok(()) => (),
        Err(e) => {
            return Control::Exit(ExitReason::Error(e));
        },
    }
    let input = if il == 0 {
        Vec::new()
    } else {
        runtime.machine.memory.get(io, il)
    };
    let to = H160::from_h256(&to_w);
    let context = build_call_context(scheme, &runtime.context, &to, &value);
    let transfer = build_call_transfer(scheme, &runtime.context, &to, &value);
    match handler.call(
        &to,
        transfer,
        input,
        gas_limit,
        scheme == CallScheme::StaticCall,
        context,
    ) {
        Capture::Exit((reason, return_data)) => {
            let ghost grd = return_data@;
            let ghost mid_stack = runtime.machine.stack@;
            let ghost mid_mem = runtime.machine.memory@;
            let res = save_return_value(runtime, reason, return_data, handler);
            proof {
                assert(save_return_rel(
                    mid_stack,
                    mid_mem,
                    old(runtime).machine.memory.limit as int,
                    Seq::<u8>::empty(),
                    reason,
                    grd,
                    runtime.machine.stack@,
                    runtime.machine.memory@,
                    runtime.return_data_buffer@,
                    res,
                ));
                assert(call_outcome(
                    mid_stack,
                    mid_mem,
                    old(runtime).machine.memory.limit as int,
                    runtime.machine.stack@,
                    runtime.machine.memory@,
                    runtime.return_data_buffer@,
                    res,
                ));
            }
            res
        },
        Capture::Trap(interrupt) => {
            let res = Control::<H::CallInterrupt, H::CreateInterrupt>::CallInterrupt(interrupt);
            proof {
                assert(call_post(*old(runtime), *runtime, scheme, res));
            }
            res
        },
    }
}

/// What the dispatch does for each opcode: exactly the contract of the
/// matching handler function, and an invalid-code exit, with nothing
/// else touched, for a trap outside the system set.
pub open spec fn eval_dispatch_rel<CI, CRI>(
    pre: Runtime,
    post: Runtime,
    opcode: Opcode,
    r: Control<CI, CRI>,
) -> bool {
    let op = opcode.0;
    if op == 0x20 {
        trace_same(pre, post) && buffer_same(pre, post) && sha3_post(pre, post, r)
    } else if op == 0x30 {
        &&& trace_same(pre, post)
        &&& buffer_same(pre, post)
        &&& push_applied(pre, post, r)
        &&& (pre.machine.stack@.len() < pre.machine.stack.limit ==> post.machine.stack@
            == pre.machine.stack@.push(word_of_address(pre.context.address@)))
    } else if op == 0x31 || op == 0x3b || op == 0x3f || op == 0x40 {
        trace_same(pre, post) && buffer_same(pre, post) && pop_push_applied(pre, post, r)
    } else if op == 0x32 || op == 0x3a || (0x41 <= op < 0x48) || op == 0x5a {
        trace_same(pre, post) && buffer_same(pre, post) && push_applied(pre, post, r)
    } else if op == 0x33 {
        &&& trace_same(pre, post)
        &&& buffer_same(pre, post)
        &&& push_applied(pre, post, r)
        &&& (pre.machine.stack@.len() < pre.machine.stack.limit ==> post.machine.stack@
            == pre.machine.stack@.push(word_of_address(pre.context.caller@)))
    } else if op == 0x34 {
        &&& trace_same(pre, post)
        &&& buffer_same(pre, post)
        &&& push_applied(pre, post, r)
        &&& (pre.machine.stack@.len() < pre.machine.stack.limit ==> post.machine.stack@
            == pre.machine.stack@.push(pre.context.apparent_value@))
    } else if op == 0x3c {
        trace_same(pre, post) && buffer_same(pre, post) && extcodecopy_post(pre, post, r)
    } else if op == 0x3d {
        &&& trace_same(pre, post)
        &&& buffer_same(pre, post)
        &&& push_applied(pre, post, r)
        &&& (pre.machine.stack@.len() < pre.machine.stack.limit ==> {
            let w = post.machine.stack@.last();
            fits_u64(w) && lo_u64(w) == pre.return_data_buffer@.len()
        })
    } else if op == 0x3e {
        trace_same(pre, post) && buffer_same(pre, post) && returndatacopy_post(pre, post, r)
    } else if op == 0x54 {
        &&& buffer_same(pre, post)
        &&& pop_push_applied(pre, post, r)
        &&& (if pre.machine.stack@.len() == 0 {
            trace_same(pre, post)
        } else {
            post.trace@ == pre.trace@.push(post.trace@.last()) && sload_event(
                post.trace@.last(),
                pre.context.address@,
                pre.machine.stack@.last(),
                post.machine.stack@.last(),
            )
        })
    } else if op == 0x55 {
        &&& buffer_same(pre, post)
        &&& post.machine.memory@ == pre.machine.memory@
        &&& (if pre.machine.stack@.len() < 2 {
            &&& trace_same(pre, post)
            &&& post.machine.stack@ == Seq::<Seq<u8>>::empty()
            &&& r == Control::<CI, CRI>::Exit(ExitReason::Error(ExitError::StackUnderflow))
        } else {
            &&& post.machine.stack@ == pre.machine.stack@.drop_last().drop_last()
            &&& post.trace@ == pre.trace@.push(post.trace@.last())
            &&& sstore_event(
                post.trace@.last(),
                pre.context.address@,
                pre.machine.stack@.last(),
                pre.machine.stack@.drop_last().last(),
            )
            &&& (r is Continue || r matches Control::Exit(ExitReason::Error(_)))
        })
    } else if 0xa0 <= op < 0xa5 {
        trace_same(pre, post) && buffer_same(pre, post) && log_post(
            pre,
            post,
            (op - 0xa0) as int,
            r,
        )
    } else if op == 0xf0 {
        trace_same(pre, post) && create_post(pre, post, false, r)
    } else if op == 0xf5 {
        trace_same(pre, post) && create_post(pre, post, true, r)
    } else if op == 0xf1 {
        trace_same(pre, post) && call_post(pre, post, CallScheme::Call, r)
    } else if op == 0xf2 {
        trace_same(pre, post) && call_post(pre, post, CallScheme::CallCode, r)
    } else if op == 0xf4 {
        trace_same(pre, post) && call_post(pre, post, CallScheme::DelegateCall, r)
    } else if op == 0xfa {
        trace_same(pre, post) && call_post(pre, post, CallScheme::StaticCall, r)
    } else if op == 0xff {
        &&& trace_same(pre, post)
        &&& buffer_same(pre, post)
        &&& post.machine.memory@ == pre.machine.memory@
        &&& (if pre.machine.stack@.len() == 0 {
            &&& post.machine.stack@ == pre.machine.stack@
            &&& r == Control::<CI, CRI>::Exit(ExitReason::Error(ExitError::StackUnderflow))
        } else {
            &&& post.machine.stack@ == pre.machine.stack@.drop_last()
            &&& (r == Control::<CI, CRI>::Exit(ExitReason::Succeed(ExitSucceed::Suicided)) || (r
                matches Control::Exit(ExitReason::Error(_))))
        })
    } else {
        &&& state_same(pre, post)
        &&& trace_same(pre, post)
        &&& buffer_same(pre, post)
        &&& r == Control::<CI, CRI>::Exit(ExitReason::Error(ExitError::InvalidCode))
    }
}

/// Flat dispatch over the system opcodes: run the matching handler, or
/// report an invalid opcode for a trap outside the set. At most one
/// storage event joins the trace, never a step event, and whenever the
/// result is a suspension the return-data buffer is empty.
#[verifier::rlimit(100)]
#[verifier::spinoff_prover]
pub fn eval<H: Handler>(runtime: &mut Runtime, opcode: Opcode, handler: &mut H) -> (r: Control<
    H::CallInterrupt,
    H::CreateInterrupt,
>)
    requires
        old(runtime).wf(),
    ensures
        final(runtime).wf(),
        keeps_outer(*old(runtime), *final(runtime)),
        final(runtime).machine.memory@.len() >= old(runtime).machine.memory@.len(),
        final(runtime).trace@ == old(runtime).trace@ || (final(runtime).trace@.len() == old(
            runtime,
        ).trace@.len() + 1 && final(runtime).trace@.drop_last() == old(runtime).trace@ && !is_step(
            final(runtime).trace@.last(),
        ) && !is_step_result(final(runtime).trace@.last())),
        ((r is CallInterrupt || r is CreateInterrupt) ==> final(runtime).return_data_buffer@
            == Seq::<u8>::empty()),
        (r matches Control::Exit(e) ==> !(e is StepLimitReached)),
        eval_dispatch_rel(*old(runtime), *final(runtime), opcode, r),
{
    let op = opcode.0;
    let r = if op == 0x20 {
        sha3(runtime, handler)
    } else if op == 0x30 {
        address::<H>(runtime)
    } else if op == 0x31 {
        balance(runtime, handler)
    } else if op == 0x32 {
        origin(runtime, handler)
    } else if op == 0x33 {
        caller::<H>(runtime)
    } else if op == 0x34 {
        callvalue::<H>(runtime)
    } else if op == 0x3a {
        gasprice(runtime, handler)
    } else if op == 0x3b {
        extcodesize(runtime, handler)
    } else if op == 0x3c {
        extcodecopy(runtime, handler)
    } else if op == 0x3d {
        returndatasize::<H>(runtime)
    } else if op == 0x3e {
        returndatacopy::<H>(runtime)
    } else if op == 0x3f {
        extcodehash(runtime, handler)
    } else if op == 0x40 {
        blockhash(runtime, handler)
    } else if op == 0x41 {
        coinbase(runtime, handler)
    } else if op == 0x42 {
        timestamp(runtime, handler)
    } else if op == 0x43 {
        number(runtime, handler)
    } else if op == 0x44 {
        difficulty(runtime, handler)
    } else if op == 0x45 {
        gaslimit(runtime, handler)
    } else if op == 0x46 {
        chainid(runtime, handler)
    } else if op == 0x47 {
        selfbalance(runtime, handler)
    } else if op == 0x54 {
        sload(runtime, handler)
    } else if op == 0x55 {
        sstore(runtime, handler)
    } else if op == 0x5a {
        gas(runtime, handler)
    } else if op == 0xa0 {
        log(runtime, 0, handler)
    } else if op == 0xa1 {
        log(runtime, 1, handler)
    } else if op == 0xa2 {
        log(runtime, 2, handler)
    } else if op == 0xa3 {
        log(runtime, 3, handler)
    } else if op == 0xa4 {
        log(runtime, 4, handler)
    } else if op == 0xf0 {
        create(runtime, false, handler)
    } else if op == 0xf5 {
        create(runtime, true, handler)
    } else if op == 0xf1 {
        call(runtime, CallScheme::Call, handler)
    } else if op == 0xf2 {
        call(runtime, CallScheme::CallCode, handler)
    } else if op == 0xf4 {
        call(runtime, CallScheme::DelegateCall, handler)
    } else if op == 0xfa {
        call(runtime, CallScheme::StaticCall, handler)
    } else if op == 0xff {
        suicide(runtime, handler)
    } else {
        Control::Exit(ExitReason::Error(ExitError::InvalidCode))
    };
    proof {
        if runtime.trace@.len() == old(runtime).trace@.len() + 1 {
            assert(runtime.trace@.drop_last() =~= old(runtime).trace@);
        }
    }
    r
}

} // verus!
