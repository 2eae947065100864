//! Tests of the word types, stack, memory, configuration and the
//! owned/borrowed trace event correspondence.

use evm_runtime::context::Context;
use evm_runtime::exit::{ExitError, ExitReason, ExitSucceed};
use evm_runtime::memory::Memory;
use evm_runtime::stack::Stack;
use evm_runtime::trace;
use evm_runtime::tracing::Event;
use evm_runtime::types::{H160, H256, U256};
use evm_runtime::Config;

fn h160(b: u8) -> H160 {
    H160 { bytes: vec![b; 20] }
}

fn word(x: u64) -> H256 {
    U256::from_u64(x).to_h256()
}

#[test]
fn u256_from_u64_roundtrip() {
    let v = U256::from_u64(0x1122334455667788);
    assert_eq!(v.bytes.len(), 32);
    assert_eq!(&v.bytes[..24], &[0u8; 24]);
    assert_eq!(
        &v.bytes[24..],
        &[0x11, 0x22, 0x33, 0x44, 0x55, 0x66, 0x77, 0x88]
    );
    assert_eq!(v.as_u64(), Some(0x1122334455667788));
    assert_eq!(v.as_usize(), Some(0x1122334455667788));
}

#[test]
fn u256_as_u64_rejects_wide_values() {
    let mut bytes = vec![0u8; 32];
    bytes[23] = 1;
    let v = U256::from_bytes(bytes);
    assert_eq!(v.as_u64(), None);
    assert_eq!(v.as_usize(), None);
}

#[test]
fn u256_one_is_one() {
    let one = U256::one();
    assert_eq!(&one.bytes[..31], &[0u8; 31]);
    assert_eq!(one.bytes[31], 1);
}

#[test]
fn h256_from_h160_pads_left() {
    let a = h160(0xAB);
    let w = H256::from_h160(&a);
    assert_eq!(&w.bytes[..12], &[0u8; 12]);
    assert_eq!(&w.bytes[12..], &a.bytes[..]);
    let back = H160::from_h256(&w);
    assert_eq!(back, a);
}

#[test]
fn stack_overflow_leaves_stack_unchanged() {
    let mut s = Stack::new(2);
    assert!(s.push(word(1)).is_ok());
    assert!(s.push(word(2)).is_ok());
    assert_eq!(s.push(word(3)), Err(ExitError::StackOverflow));
    assert_eq!(s.len(), 2);
    assert_eq!(s.peek(0).unwrap(), word(2));
    assert_eq!(s.peek(1).unwrap(), word(1));
}

#[test]
fn stack_pop_and_underflow() {
    let mut s = Stack::new(4);
    s.push(word(7)).unwrap();
    assert_eq!(s.pop().unwrap(), word(7));
    assert_eq!(s.pop(), Err(ExitError::StackUnderflow));
    assert_eq!(s.peek(0), Err(ExitError::StackUnderflow));
}

#[test]
fn memory_resize_with_zero_len_still_grows_to_offset() {
    let mut m = Memory::new(1000);
    assert!(m.resize_offset(0x20, 0).is_ok());
    assert_eq!(m.len(), 0x20);
    assert_eq!(m.get(0, 0x20), vec![0u8; 0x20]);
    // A range already inside changes nothing.
    assert!(m.resize_offset(0x10, 0).is_ok());
    assert_eq!(m.len(), 0x20);
}

#[test]
fn memory_never_shrinks_and_respects_limit() {
    let mut m = Memory::new(0x40);
    assert!(m.resize_offset(0x10, 0x10).is_ok());
    assert_eq!(m.len(), 0x20);
    assert_eq!(m.resize_offset(0x40, 1), Err(ExitError::MemoryLimitExceeded));
    assert_eq!(m.len(), 0x20);
    assert!(m.resize_offset(0, 8).is_ok());
    assert_eq!(m.len(), 0x20);
}

#[test]
fn memory_copy_reads_past_source_as_zero() {
    let mut m = Memory::new(1000);
    let src = vec![1u8, 2, 3];
    assert!(m.copy_large(0, 1, 5, &src).is_ok());
    assert_eq!(m.get(0, 5), vec![2, 3, 0, 0, 0]);
}

#[test]
fn config_istanbul_values() {
    let c = Config::istanbul();
    assert_eq!(c.gas_sload, 800);
    assert_eq!(c.gas_call, 700);
    assert_eq!(c.gas_transaction_create, 53000);
    assert_eq!(c.stack_limit, 1024);
    assert_eq!(c.call_stipend, 2300);
    assert_eq!(c.create_contract_limit, Some(0x6000));
    assert!(c.has_create2);
    assert!(c.has_chain_id);
    assert!(!c.estimate);
}

#[test]
fn config_frontier_values() {
    let c = Config::frontier();
    assert_eq!(c.gas_sload, 50);
    assert_eq!(c.gas_call, 40);
    assert_eq!(c.gas_transaction_create, 21000);
    assert_eq!(c.create_contract_limit, None);
    assert!(!c.has_create2);
    assert!(!c.has_revert);
    assert!(c.err_on_call_with_more_gas);
}

#[test]
fn config_default_is_istanbul() {
    let c = Config::default();
    assert_eq!(c.gas_sload, 800);
    assert_eq!(c.stack_limit, 1024);
}

#[test]
fn borrowed_sload_event_to_owned_keeps_payload() {
    let b = trace::Event::SLoad(trace::SLoadTrace {
        address: h160(0x11),
        index: U256::from_u64(7),
        value: U256::from_u64(0x42),
    });
    match b.to_owned() {
        Event::SLoad {
            address,
            index,
            value,
        } => {
            assert_eq!(address, h160(0x11));
            assert_eq!(index, U256::from_u64(7));
            assert_eq!(value, U256::from_u64(0x42));
        }
        other => panic!("wrong variant: {:?}", other),
    }
}

#[test]
fn borrowed_exit_event_to_owned_keeps_payload() {
    let reason = ExitReason::Succeed(ExitSucceed::Returned);
    let data = vec![0xDE, 0xAD, 0xBE, 0xEF];
    let b = trace::Event::Exit(trace::ExitTrace {
        reason: &reason,
        return_value: &data,
    });
    match b.to_owned() {
        Event::Exit {
            reason: r,
            return_value,
        } => {
            assert_eq!(r, reason);
            assert_eq!(return_value, data);
        }
        other => panic!("wrong variant: {:?}", other),
    }
}

#[test]
fn borrowed_step_event_to_owned_keeps_payload() {
    let ctx = Context {
        address: h160(1),
        caller: h160(2),
        apparent_value: U256::from_u64(3),
    };
    let mut stack = Stack::new(16);
    stack.push(word(9)).unwrap();
    let mut memory = Memory::new(100);
    memory.resize_offset(0, 4).unwrap();
    let position: Result<usize, ExitReason> = Ok(5);
    let b = trace::Event::Step(trace::StepTrace {
        context: &ctx,
        opcode: evm_runtime::machine::Opcode(0x60),
        position: &position,
        stack: &stack,
        memory: &memory,
    });
    match b.to_owned() {
        Event::Step {
            context,
            opcode,
            position: pos,
            stack: st,
            memory: mem,
        } => {
            assert_eq!(context, ctx);
            assert_eq!(opcode, evm_runtime::machine::Opcode(0x60));
            assert_eq!(pos, Ok(5));
            assert_eq!(st.data, stack.data);
            assert_eq!(st.limit, 16);
            assert_eq!(mem.data, memory.data);
            assert_eq!(mem.limit, 100);
        }
        other => panic!("wrong variant: {:?}", other),
    }
}

#[test]
fn borrowed_transfer_event_to_owned_keeps_payload() {
    let b = trace::Event::Transfer(trace::TransferTrace {
        source: h160(1),
        target: h160(2),
        value: U256::from_u64(55),
    });
    match b.to_owned() {
        Event::Transfer {
            source,
            target,
            value,
        } => {
            assert_eq!(source, h160(1));
            assert_eq!(target, h160(2));
            assert_eq!(value, U256::from_u64(55));
        }
        other => panic!("wrong variant: {:?}", other),
    }
}
