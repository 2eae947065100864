//! End-to-end tests of the step/run loop and the system-opcode dispatch,
//! driven through a scripted handler.

use evm_runtime::context::{CallScheme, Context, CreateScheme};
use evm_runtime::eval::{
    build_call_context, build_call_transfer, call_gas_limit, save_return_value, Control,
};
use evm_runtime::exit::{Capture, ExitError, ExitFatal, ExitReason, ExitRevert, ExitSucceed};
use evm_runtime::handler::{Handler, Transfer};
use evm_runtime::interrupt::Resolve;
use evm_runtime::machine::Opcode;
use evm_runtime::stack::Stack;
use evm_runtime::tracing::Event;
use evm_runtime::types::{H160, H256, U256};
use evm_runtime::Runtime;

fn h160(b: u8) -> H160 {
    H160 { bytes: vec![b; 20] }
}

fn word(x: u64) -> H256 {
    U256::from_u64(x).to_h256()
}

fn ctx() -> Context {
    Context {
        address: h160(0x11),
        caller: h160(0x22),
        apparent_value: U256::from_u64(0),
    }
}

fn runtime_for(code: Vec<u8>) -> Runtime {
    let valids = vec![0u8; code.len()];
    Runtime::new(code, valids, Vec::new(), ctx())
}

/// What the scripted handler answers to a nested call.
enum CallScript {
    Exit(ExitReason, Vec<u8>),
    Trap(u32),
}

/// What the scripted handler answers to a creation.
enum CreateScript {
    Exit(ExitReason, Option<H160>, Vec<u8>),
    Trap(u32),
}

struct CallRecord {
    code_address: H160,
    transfer: Option<(H160, H160, U256)>,
    input: Vec<u8>,
    target_gas: Option<u64>,
    is_static: bool,
    context: Context,
}

struct CreateRecord {
    caller: H160,
    scheme_caller: Option<H160>,
    scheme_salt: Option<H256>,
    scheme_code_hash: Option<H256>,
    value: U256,
    init_code: Vec<u8>,
}

struct ScriptedHandler {
    storage: Vec<(Vec<u8>, Vec<u8>)>,
    call_script: CallScript,
    create_script: CreateScript,
    pre_validate_error: Option<ExitError>,
    set_storage_error: Option<ExitError>,
    last_call: Option<CallRecord>,
    last_create: Option<CreateRecord>,
    logs: Vec<(H160, Vec<H256>, Vec<u8>)>,
    deleted: Vec<(H160, H160)>,
}

impl ScriptedHandler {
    fn new() -> Self {
        ScriptedHandler {
            storage: Vec::new(),
            call_script: CallScript::Exit(ExitReason::Succeed(ExitSucceed::Returned), Vec::new()),
            create_script: CreateScript::Exit(
                ExitReason::Succeed(ExitSucceed::Returned),
                None,
                Vec::new(),
            ),
            pre_validate_error: None,
            set_storage_error: None,
            last_call: None,
            last_create: None,
            logs: Vec::new(),
            deleted: Vec::new(),
        }
    }
}

fn dummy_hash(data: &[u8]) -> H256 {
    let mut bytes = vec![0u8; 32];
    bytes[0] = 0xD1;
    bytes[31] = data.len() as u8;
    H256 { bytes }
}

impl Handler for ScriptedHandler {
    type CallInterrupt = u32;
    type CreateInterrupt = u32;

    fn keccak256_h256(&self, data: &[u8]) -> H256 {
        dummy_hash(data)
    }

    fn balance(&self, _address: &H160) -> U256 {
        U256::from_u64(1_000_000)
    }

    fn code_size(&self, _address: &H160) -> U256 {
        U256::from_u64(3)
    }

    fn code_hash(&self, _address: &H160) -> H256 {
        dummy_hash(&[0])
    }

    fn code(&self, _address: &H160) -> Vec<u8> {
        vec![1, 2, 3]
    }

    fn storage(&self, _address: &H160, index: &U256) -> U256 {
        for (k, v) in self.storage.iter() {
            if k == &index.bytes {
                return U256 { bytes: v.clone() };
            }
        }
        U256::zero()
    }

    fn origin(&self) -> H160 {
        h160(0x99)
    }

    fn gas_left(&self) -> U256 {
        U256::from_u64(777)
    }

    fn gas_price(&self) -> U256 {
        U256::from_u64(13)
    }

    fn chain_id(&self) -> U256 {
        U256::from_u64(245022934)
    }

    fn block_hash(&self, _number: &U256) -> H256 {
        dummy_hash(&[1, 2])
    }

    fn block_coinbase(&self) -> H160 {
        h160(0x55)
    }

    fn block_timestamp(&self) -> U256 {
        U256::from_u64(1_600_000_000)
    }

    fn block_number(&self) -> U256 {
        U256::from_u64(12_345)
    }

    fn block_difficulty(&self) -> U256 {
        U256::from_u64(0)
    }

    fn block_gas_limit(&self) -> U256 {
        U256::from_u64(30_000_000)
    }

    fn set_storage(&mut self, _address: &H160, index: &U256, value: &U256) -> Result<(), ExitError> {
        if let Some(e) = self.set_storage_error {
            return Err(e);
        }
        for (k, v) in self.storage.iter_mut() {
            if k == &index.bytes {
                *v = value.bytes.clone();
                return Ok(());
            }
        }
        self.storage.push((index.bytes.clone(), value.bytes.clone()));
        Ok(())
    }

    fn log(&mut self, address: &H160, topics: Vec<H256>, data: Vec<u8>) -> Result<(), ExitError> {
        self.logs.push((address.clone(), topics, data));
        Ok(())
    }

    fn mark_delete(&mut self, address: &H160, target: H160) -> Result<(), ExitError> {
        self.deleted.push((address.clone(), target));
        Ok(())
    }

    fn create(
        &mut self,
        caller: &H160,
        scheme: CreateScheme,
        value: U256,
        init_code: Vec<u8>,
        _target_gas: Option<u64>,
    ) -> Capture<(ExitReason, Option<H160>, Vec<u8>), u32> {
        let (scheme_caller, scheme_salt, scheme_code_hash) = match &scheme {
            CreateScheme::Legacy { caller } => (Some(caller.clone()), None, None),
            CreateScheme::Create2 {
                caller,
                code_hash,
                salt,
            } => (
                Some(caller.clone()),
                Some(salt.clone()),
                Some(code_hash.clone()),
            ),
            CreateScheme::Fixed(addr) => (Some(addr.clone()), None, None),
        };
        self.last_create = Some(CreateRecord {
            caller: caller.clone(),
            scheme_caller,
            scheme_salt,
            scheme_code_hash,
            value,
            init_code,
        });
        match &self.create_script {
            CreateScript::Exit(reason, addr, data) => {
                Capture::Exit((*reason, addr.clone(), data.clone()))
            }
            CreateScript::Trap(i) => Capture::Trap(*i),
        }
    }

    fn call(
        &mut self,
        code_address: &H160,
        transfer: Option<Transfer>,
        input: Vec<u8>,
        target_gas: Option<u64>,
        is_static: bool,
        context: Context,
    ) -> Capture<(ExitReason, Vec<u8>), u32> {
        self.last_call = Some(CallRecord {
            code_address: code_address.clone(),
            transfer: transfer.map(|t| (t.source, t.target, t.value)),
            input,
            target_gas,
            is_static,
            context,
        });
        match &self.call_script {
            CallScript::Exit(reason, data) => Capture::Exit((*reason, data.clone())),
            CallScript::Trap(i) => Capture::Trap(*i),
        }
    }

    fn pre_validate(
        &mut self,
        _context: &Context,
        _opcode: Opcode,
        _stack: &Stack,
    ) -> Result<(), ExitError> {
        match self.pre_validate_error {
            Some(e) => Err(e),
            None => Ok(()),
        }
    }
}

fn step_to_exit(rt: &mut Runtime, h: &mut ScriptedHandler) -> ExitReason {
    loop {
        match rt.step(h) {
            Ok(()) => continue,
            Err(Capture::Exit(e)) => return e,
            Err(Capture::Trap(_)) => panic!("unexpected suspension"),
        }
    }
}

#[test]
fn sstore_then_sload_reads_back_value() {
    // PUSH1 0x42, PUSH1 0x07, SSTORE, PUSH1 0x07, SLOAD, STOP
    let code = vec![0x60, 0x42, 0x60, 0x07, 0x55, 0x60, 0x07, 0x54, 0x00];
    let mut rt = runtime_for(code);
    let mut h = ScriptedHandler::new();
    let reason = step_to_exit(&mut rt, &mut h);
    assert_eq!(reason, ExitReason::Succeed(ExitSucceed::Stopped));
    assert_eq!(rt.machine().stack().peek(0).unwrap(), word(0x42));

    // The write is recorded before the read, both on slot 7 with 0x42.
    let trace = rt.trace();
    let sstore_at = trace
        .iter()
        .position(|e| {
            matches!(e, Event::SStore { index, value, .. }
                if *index == U256::from_u64(7) && *value == U256::from_u64(0x42))
        })
        .expect("storage write event missing");
    let sload_at = trace
        .iter()
        .position(|e| {
            matches!(e, Event::SLoad { index, value, .. }
                if *index == U256::from_u64(7) && *value == U256::from_u64(0x42))
        })
        .expect("storage read event missing");
    assert!(sstore_at < sload_at);
}

#[test]
fn sstore_trace_precedes_rejected_write() {
    let code = vec![0x60, 0x42, 0x60, 0x07, 0x55];
    let mut rt = runtime_for(code);
    let mut h = ScriptedHandler::new();
    h.set_storage_error = Some(ExitError::StaticModeViolation);
    let reason = step_to_exit(&mut rt, &mut h);
    assert_eq!(reason, ExitReason::Error(ExitError::StaticModeViolation));
    // The pre-image record is present although the handler rejected it.
    assert!(rt.trace().iter().any(|e| {
        matches!(e, Event::SStore { index, value, .. }
            if *index == U256::from_u64(7) && *value == U256::from_u64(0x42))
    }));
}

/// Code that performs one CALL with the given windows and then stops.
/// Pushes: out_len, out_off, in_len, in_off, value, to, gas (gas on top).
fn call_code(out_len: u8, out_off: u8) -> Vec<u8> {
    vec![
        0x60, out_len, // out_len
        0x60, out_off, // out_off
        0x60, 0x00, // in_len
        0x60, 0x00, // in_off
        0x60, 0x00, // value
        0x60, 0x05, // to
        0x60, 0x64, // gas
        0xF1, // CALL
        0x00, // STOP
    ]
}

#[test]
fn call_with_zero_out_len_keeps_memory_and_pushes_one() {
    let mut rt = runtime_for(call_code(0, 0x10));
    let mut h = ScriptedHandler::new();
    h.call_script = CallScript::Exit(
        ExitReason::Succeed(ExitSucceed::Returned),
        vec![0xAA, 0xBB, 0xCC],
    );
    let reason = step_to_exit(&mut rt, &mut h);
    assert_eq!(reason, ExitReason::Succeed(ExitSucceed::Stopped));
    // Nothing was copied: the window has zero length.
    assert_eq!(rt.machine().memory().get(0x10, 3), vec![0, 0, 0]);
    // The buffer still holds all returned bytes.
    assert_eq!(rt.return_data(), &vec![0xAA, 0xBB, 0xCC]);
    // Success pushes one.
    assert_eq!(rt.machine().stack().peek(0).unwrap(), word(1));
}

#[test]
fn call_revert_copies_prefix_and_pushes_zero() {
    let mut rt = runtime_for(call_code(4, 0x20));
    let mut h = ScriptedHandler::new();
    h.call_script = CallScript::Exit(
        ExitReason::Revert(ExitRevert::Reverted),
        vec![0xDE, 0xAD],
    );
    let reason = step_to_exit(&mut rt, &mut h);
    assert_eq!(reason, ExitReason::Succeed(ExitSucceed::Stopped));
    assert_eq!(rt.machine().stack().peek(0).unwrap(), word(0));
    assert_eq!(rt.machine().memory().get(0x20, 4), vec![0xDE, 0xAD, 0, 0]);
    assert_eq!(rt.return_data(), &vec![0xDE, 0xAD]);
}

#[test]
fn call_passes_context_transfer_and_static_flag() {
    // STATICCALL pops gas, to, in_off, in_len; out window stays.
    let code = vec![
        0x60, 0x00, // out_len
        0x60, 0x00, // out_off
        0x60, 0x00, // in_len
        0x60, 0x00, // in_off
        0x60, 0x05, // to
        0x60, 0x64, // gas
        0xFA, // STATICCALL
        0x00,
    ];
    let mut rt = runtime_for(code);
    let mut h = ScriptedHandler::new();
    let reason = step_to_exit(&mut rt, &mut h);
    assert_eq!(reason, ExitReason::Succeed(ExitSucceed::Stopped));
    let rec = h.last_call.expect("no call recorded");
    assert!(rec.is_static);
    assert!(rec.transfer.is_none());
    assert_eq!(rec.target_gas, Some(0x64));
    // Static call: child runs the target's code, caller is this frame.
    let mut to = vec![0u8; 20];
    to[19] = 0x05;
    assert_eq!(rec.context.address.bytes, to);
    assert_eq!(rec.context.caller, h160(0x11));
}

#[test]
fn create2_success_pushes_created_address() {
    // CREATE2 pops value, code_off, code_len, salt.
    let code = vec![
        0x60, 0x01, // salt
        0x60, 0x00, // code_len
        0x60, 0x00, // code_off
        0x60, 0x00, // value
        0xF5, // CREATE2
        0x00,
    ];
    let mut rt = runtime_for(code);
    let mut h = ScriptedHandler::new();
    let created = h160(0xAB);
    h.create_script = CreateScript::Exit(
        ExitReason::Succeed(ExitSucceed::Returned),
        Some(created.clone()),
        Vec::new(),
    );
    let reason = step_to_exit(&mut rt, &mut h);
    assert_eq!(reason, ExitReason::Succeed(ExitSucceed::Stopped));
    // The created 20-byte address lands left-padded to a 32-byte word.
    assert_eq!(
        rt.machine().stack().peek(0).unwrap(),
        H256::from_h160(&created)
    );
    let rec = h.last_create.expect("no creation recorded");
    assert_eq!(rec.caller, h160(0x11));
    assert_eq!(rec.scheme_caller, Some(h160(0x11)));
    assert_eq!(rec.scheme_salt, Some(word(1)));
    // The init code was empty, so its hash is the hash of no bytes.
    assert_eq!(rec.scheme_code_hash, Some(dummy_hash(&[])));
    assert_eq!(rec.init_code, Vec::<u8>::new());
}

#[test]
fn call_trap_then_fatal_resolution_pushes_zero_and_exits() {
    let mut rt = runtime_for(call_code(0, 0));
    let mut h = ScriptedHandler::new();
    h.call_script = CallScript::Trap(7);
    let interrupt = loop {
        match rt.step(&mut h) {
            Ok(()) => continue,
            Err(Capture::Trap(Resolve::Call(i))) => break i,
            Err(other) => panic!("expected suspension, got {:?}", other),
        }
    };
    assert_eq!(interrupt, 7);
    // Freshly suspended: the buffer holds nothing of the child yet.
    assert_eq!(rt.return_data(), &Vec::<u8>::new());
    let depth_before = rt.machine().stack().len();
    let fatal = ExitReason::Fatal(ExitFatal::CallErrorAsFatal(ExitError::OutOfGas));
    let ctl: Control<u32, u32> = save_return_value(&mut rt, fatal, Vec::new(), &h);
    match ctl {
        Control::Exit(e) => assert_eq!(e, fatal),
        other => panic!("expected an exit, got {:?}", other),
    }
    // The output window was popped and exactly one zero word pushed.
    assert_eq!(rt.machine().stack().len(), depth_before - 1);
    assert_eq!(rt.machine().stack().peek(0).unwrap(), word(0));
}

#[test]
fn run_honors_step_budget_and_resumes() {
    let code = vec![0x5B; 10];
    let mut rt = runtime_for(code);
    let mut h = ScriptedHandler::new();
    let (steps, capture) = rt.run(3, &mut h);
    assert_eq!(steps, 3);
    assert!(matches!(capture, Capture::Exit(ExitReason::StepLimitReached)));
    let (steps, capture) = rt.run(100, &mut h);
    assert_eq!(steps, 7);
    assert!(matches!(
        capture,
        Capture::Exit(ExitReason::Succeed(ExitSucceed::Stopped))
    ));
}

#[test]
fn run_after_exit_reports_zero_steps() {
    let mut rt = runtime_for(vec![0x00]);
    let mut h = ScriptedHandler::new();
    let (steps, capture) = rt.run(10, &mut h);
    assert_eq!(steps, 0);
    assert!(matches!(
        capture,
        Capture::Exit(ExitReason::Succeed(ExitSucceed::Stopped))
    ));
    let (steps, capture) = rt.run(10, &mut h);
    assert_eq!(steps, 0);
    assert!(matches!(
        capture,
        Capture::Exit(ExitReason::Succeed(ExitSucceed::Stopped))
    ));
}

#[test]
fn step_after_exit_returns_same_reason_without_advancing() {
    let mut rt = runtime_for(vec![0x00]);
    let mut h = ScriptedHandler::new();
    let first = step_to_exit(&mut rt, &mut h);
    assert_eq!(first, ExitReason::Succeed(ExitSucceed::Stopped));
    let trace_len = rt.trace().len();
    for _ in 0..3 {
        match rt.step(&mut h) {
            Err(Capture::Exit(e)) => assert_eq!(e, first),
            other => panic!("expected the same exit, got {:?}", other),
        }
    }
    assert_eq!(rt.trace().len(), trace_len);
    assert_eq!(rt.machine().position(), Err(first));
}

#[test]
fn gas_above_u64_max_means_unlimited() {
    assert_eq!(call_gas_limit(&U256::from_u64(5)), Some(5));
    assert_eq!(
        call_gas_limit(&U256::from_u64(u64::MAX)),
        Some(u64::MAX)
    );
    let mut bytes = vec![0u8; 32];
    bytes[23] = 1; // one above the 64-bit range
    assert_eq!(call_gas_limit(&U256::from_bytes(bytes)), None);
}

#[test]
fn call_with_wide_gas_reaches_handler_as_unlimited() {
    // PUSH9 0x01_00000000_00000000 as gas: wider than 64 bits.
    let code = vec![
        0x60, 0x00, // out_len
        0x60, 0x00, // out_off
        0x60, 0x00, // in_len
        0x60, 0x00, // in_off
        0x60, 0x00, // value
        0x60, 0x05, // to
        0x68, 0x01, 0x00, 0x00, 0x00, 0x00, 0x00, 0x00, 0x00, 0x00, // gas
        0xF1, 0x00,
    ];
    let mut rt = runtime_for(code);
    let mut h = ScriptedHandler::new();
    let reason = step_to_exit(&mut rt, &mut h);
    assert_eq!(reason, ExitReason::Succeed(ExitSucceed::Stopped));
    assert_eq!(h.last_call.expect("no call recorded").target_gas, None);
}

#[test]
fn returndatacopy_wrapping_range_is_out_of_offset() {
    // Pushes: len, data_off (wrapping), mem_off; then RETURNDATACOPY.
    let mut code = vec![0x60, 0x02]; // len = 2
    code.extend([0x67]); // PUSH8
    code.extend([0xFF; 8]); // data_off = u64::MAX
    code.extend([0x60, 0x00]); // mem_off
    code.push(0x3E);
    let mut rt = runtime_for(code);
    rt.set_return_data(vec![1, 2, 3]);
    let mut h = ScriptedHandler::new();
    let reason = step_to_exit(&mut rt, &mut h);
    assert_eq!(reason, ExitReason::Error(ExitError::OutOfOffset));
}

#[test]
fn returndatacopy_past_buffer_end_is_out_of_offset() {
    let code = vec![
        0x60, 0x03, // len
        0x60, 0x02, // data_off: 2 + 3 > 3
        0x60, 0x00, // mem_off
        0x3E,
    ];
    let mut rt = runtime_for(code);
    rt.set_return_data(vec![1, 2, 3]);
    let mut h = ScriptedHandler::new();
    let reason = step_to_exit(&mut rt, &mut h);
    assert_eq!(reason, ExitReason::Error(ExitError::OutOfOffset));
}

#[test]
fn returndatacopy_in_range_copies() {
    let code = vec![
        0x60, 0x02, // len
        0x60, 0x01, // data_off
        0x60, 0x10, // mem_off
        0x3E, 0x00,
    ];
    let mut rt = runtime_for(code);
    rt.set_return_data(vec![1, 2, 3]);
    let mut h = ScriptedHandler::new();
    let reason = step_to_exit(&mut rt, &mut h);
    assert_eq!(reason, ExitReason::Succeed(ExitSucceed::Stopped));
    assert_eq!(rt.machine().memory().get(0x10, 2), vec![2, 3]);
}

#[test]
fn returndatasize_reports_buffer_length() {
    let code = vec![0x3D, 0x00];
    let mut rt = runtime_for(code);
    rt.set_return_data(vec![9, 9, 9, 9, 9]);
    let mut h = ScriptedHandler::new();
    let reason = step_to_exit(&mut rt, &mut h);
    assert_eq!(reason, ExitReason::Succeed(ExitSucceed::Stopped));
    assert_eq!(rt.machine().stack().peek(0).unwrap(), word(5));
}

#[test]
fn trace_sandwiches_each_step() {
    let code = vec![0x5B, 0x5B, 0x00];
    let mut rt = runtime_for(code);
    let mut h = ScriptedHandler::new();
    let _ = step_to_exit(&mut rt, &mut h);
    let kinds: Vec<&str> = rt
        .trace()
        .iter()
        .map(|e| match e {
            Event::Step { .. } => "step",
            Event::StepResult { .. } => "result",
            _ => "other",
        })
        .collect();
    assert_eq!(
        kinds,
        vec!["step", "result", "step", "result", "step", "result"]
    );
}

#[test]
fn failing_pre_validate_emits_step_without_result() {
    let code = vec![0x5B, 0x00];
    let mut rt = runtime_for(code);
    let mut h = ScriptedHandler::new();
    h.pre_validate_error = Some(ExitError::OutOfGas);
    match rt.step(&mut h) {
        Err(Capture::Exit(e)) => assert_eq!(e, ExitReason::Error(ExitError::OutOfGas)),
        other => panic!("expected an exit, got {:?}", other),
    }
    assert_eq!(rt.trace().len(), 1);
    assert!(matches!(rt.trace()[0], Event::Step { .. }));
}

#[test]
fn pop_on_empty_stack_underflows() {
    let mut rt = runtime_for(vec![0x50]);
    let mut h = ScriptedHandler::new();
    assert_eq!(
        step_to_exit(&mut rt, &mut h),
        ExitReason::Error(ExitError::StackUnderflow)
    );
}

#[test]
fn jump_to_invalid_destination_fails() {
    let mut rt = runtime_for(vec![0x60, 0x03, 0x56, 0x5B]);
    let mut h = ScriptedHandler::new();
    assert_eq!(
        step_to_exit(&mut rt, &mut h),
        ExitReason::Error(ExitError::InvalidJump)
    );
}

#[test]
fn jump_to_marked_destination_succeeds() {
    let code = vec![0x60, 0x03, 0x56, 0x5B, 0x00];
    let mut valids = vec![0u8; code.len()];
    valids[3] = 1;
    let mut rt = Runtime::new(code, valids, Vec::new(), ctx());
    let mut h = ScriptedHandler::new();
    assert_eq!(
        step_to_exit(&mut rt, &mut h),
        ExitReason::Succeed(ExitSucceed::Stopped)
    );
}

#[test]
fn unknown_opcode_is_invalid_code() {
    let mut rt = runtime_for(vec![0x01]);
    let mut h = ScriptedHandler::new();
    assert_eq!(
        step_to_exit(&mut rt, &mut h),
        ExitReason::Error(ExitError::InvalidCode)
    );
}

#[test]
fn designated_invalid_opcode() {
    let mut rt = runtime_for(vec![0xFE]);
    let mut h = ScriptedHandler::new();
    assert_eq!(
        step_to_exit(&mut rt, &mut h),
        ExitReason::Error(ExitError::DesignatedInvalid)
    );
}

#[test]
fn revert_opcode_returns_memory_slice() {
    // MSTORE a word at 0, then REVERT the two bytes at offset 30.
    let code = vec![
        0x60, 0xBE, // value (ends up in byte 31)
        0x60, 0x00, // offset
        0x52, // MSTORE
        0x60, 0x02, // len
        0x60, 0x1E, // offset
        0xFD, // REVERT
    ];
    let mut rt = runtime_for(code);
    let mut h = ScriptedHandler::new();
    // MSTORE pops offset first, so push value below the offset.
    let reason = step_to_exit(&mut rt, &mut h);
    assert_eq!(reason, ExitReason::Revert(ExitRevert::Reverted));
    assert_eq!(rt.machine().return_value(), vec![0x00, 0xBE]);
}

#[test]
fn memory_size_never_shrinks_within_a_frame() {
    // Touch offset 0x40, then offset 0: the size stays at its peak.
    let code = vec![
        0x60, 0x01, 0x60, 0x40, 0x52, // MSTORE at 0x40
        0x60, 0x02, 0x60, 0x00, 0x52, // MSTORE at 0x00
        0x00,
    ];
    let mut rt = runtime_for(code);
    let mut h = ScriptedHandler::new();
    let mut peak = 0;
    loop {
        let size = rt.machine().memory().len();
        assert!(size >= peak, "memory shrank from {} to {}", peak, size);
        peak = size;
        match rt.step(&mut h) {
            Ok(()) => continue,
            Err(Capture::Exit(e)) => {
                assert_eq!(e, ExitReason::Succeed(ExitSucceed::Stopped));
                break;
            }
            Err(other) => panic!("unexpected {:?}", other),
        }
    }
    assert_eq!(rt.machine().memory().len(), 0x60);
}

#[test]
fn sha3_hashes_requested_slice() {
    let code = vec![
        0x60, 0x00, // len = 0
        0x60, 0x30, // offset
        0x20, // SHA3
        0x00,
    ];
    let mut rt = runtime_for(code);
    let mut h = ScriptedHandler::new();
    let reason = step_to_exit(&mut rt, &mut h);
    assert_eq!(reason, ExitReason::Succeed(ExitSucceed::Stopped));
    assert_eq!(rt.machine().stack().peek(0).unwrap(), dummy_hash(&[]));
    // A zero length still grew the memory up to the offset.
    assert_eq!(rt.machine().memory().len(), 0x30);
}

#[test]
fn log_two_topics_in_stack_order() {
    let code = vec![
        0x60, 0x0B, // topic 2 (deepest)
        0x60, 0x0A, // topic 1
        0x60, 0x00, // len
        0x60, 0x00, // offset
        0xA2, // LOG2
        0x00,
    ];
    let mut rt = runtime_for(code);
    let mut h = ScriptedHandler::new();
    let reason = step_to_exit(&mut rt, &mut h);
    assert_eq!(reason, ExitReason::Succeed(ExitSucceed::Stopped));
    assert_eq!(h.logs.len(), 1);
    let (address, topics, data) = &h.logs[0];
    assert_eq!(*address, h160(0x11));
    assert_eq!(*topics, vec![word(0x0A), word(0x0B)]);
    assert_eq!(*data, Vec::<u8>::new());
}

#[test]
fn suicide_marks_deletion_and_exits() {
    let code = vec![0x60, 0x07, 0xFF];
    let mut rt = runtime_for(code);
    let mut h = ScriptedHandler::new();
    let reason = step_to_exit(&mut rt, &mut h);
    assert_eq!(reason, ExitReason::Succeed(ExitSucceed::Suicided));
    assert_eq!(h.deleted.len(), 1);
    let (address, target) = &h.deleted[0];
    assert_eq!(*address, h160(0x11));
    let mut expected = vec![0u8; 20];
    expected[19] = 0x07;
    assert_eq!(target.bytes, expected);
}

#[test]
fn extcodecopy_pads_missing_code_with_zero() {
    let code = vec![
        0x60, 0x05, // len
        0x60, 0x01, // code_off
        0x60, 0x00, // mem_off
        0x60, 0x09, // address
        0x3C, // EXTCODECOPY
        0x00,
    ];
    let mut rt = runtime_for(code);
    let mut h = ScriptedHandler::new();
    let reason = step_to_exit(&mut rt, &mut h);
    assert_eq!(reason, ExitReason::Succeed(ExitSucceed::Stopped));
    // Handler code is [1, 2, 3]; from offset 1 the read is [2, 3, 0, 0, 0].
    assert_eq!(rt.machine().memory().get(0, 5), vec![2, 3, 0, 0, 0]);
}

#[test]
fn address_opcode_pushes_padded_execution_address() {
    let mut rt = runtime_for(vec![0x30, 0x00]);
    let mut h = ScriptedHandler::new();
    let reason = step_to_exit(&mut rt, &mut h);
    assert_eq!(reason, ExitReason::Succeed(ExitSucceed::Stopped));
    assert_eq!(
        rt.machine().stack().peek(0).unwrap(),
        H256::from_h160(&h160(0x11))
    );
}

#[test]
fn caller_and_callvalue_come_from_context() {
    let mut rt = Runtime::new(
        vec![0x33, 0x34, 0x00],
        vec![0, 0, 0],
        Vec::new(),
        Context {
            address: h160(0x11),
            caller: h160(0x22),
            apparent_value: U256::from_u64(31337),
        },
    );
    let mut h = ScriptedHandler::new();
    let reason = step_to_exit(&mut rt, &mut h);
    assert_eq!(reason, ExitReason::Succeed(ExitSucceed::Stopped));
    assert_eq!(rt.machine().stack().peek(0).unwrap(), word(31337));
    assert_eq!(
        rt.machine().stack().peek(1).unwrap(),
        H256::from_h160(&h160(0x22))
    );
}

#[test]
fn delegate_call_inherits_parent_context() {
    let parent = ctx();
    let to = h160(0x77);
    let value = U256::from_u64(5);
    let child = build_call_context(CallScheme::DelegateCall, &parent, &to, &value);
    assert_eq!(child.address, parent.address);
    assert_eq!(child.caller, parent.caller);
    assert_eq!(child.apparent_value, parent.apparent_value);
    assert!(build_call_transfer(CallScheme::DelegateCall, &parent, &to, &value).is_none());
}

#[test]
fn plain_call_transfer_moves_value_to_target() {
    let parent = ctx();
    let to = h160(0x77);
    let value = U256::from_u64(5);
    let t = build_call_transfer(CallScheme::Call, &parent, &to, &value).unwrap();
    assert_eq!(t.source, parent.address);
    assert_eq!(t.target, to);
    assert_eq!(t.value, value);
    let t = build_call_transfer(CallScheme::CallCode, &parent, &to, &value).unwrap();
    assert_eq!(t.source, parent.address);
    assert_eq!(t.target, parent.address);
}

#[test]
fn take_trace_drains_the_log() {
    let mut rt = runtime_for(vec![0x5B, 0x00]);
    let mut h = ScriptedHandler::new();
    let _ = step_to_exit(&mut rt, &mut h);
    let taken = rt.take_trace();
    assert!(!taken.is_empty());
    assert!(rt.trace().is_empty());
}

#[test]
fn chainid_and_gas_opcodes_push_handler_values() {
    let mut rt = runtime_for(vec![0x46, 0x5A, 0x00]);
    let mut h = ScriptedHandler::new();
    let reason = step_to_exit(&mut rt, &mut h);
    assert_eq!(reason, ExitReason::Succeed(ExitSucceed::Stopped));
    assert_eq!(rt.machine().stack().peek(0).unwrap(), word(777));
    assert_eq!(rt.machine().stack().peek(1).unwrap(), word(245022934));
}

#[test]
fn mstore_then_mload_reads_back_word() {
    let code = vec![
        0x60, 0xBE, // value
        0x60, 0x00, // offset
        0x52, // MSTORE
        0x60, 0x00, // offset
        0x51, // MLOAD
        0x00,
    ];
    let mut rt = runtime_for(code);
    let mut h = ScriptedHandler::new();
    let reason = step_to_exit(&mut rt, &mut h);
    assert_eq!(reason, ExitReason::Succeed(ExitSucceed::Stopped));
    assert_eq!(rt.machine().stack().peek(0).unwrap(), word(0xBE));
    assert_eq!(rt.machine().memory().len(), 0x20);
}

#[test]
fn push32_loads_full_word() {
    let mut code = vec![0x7F];
    let payload: Vec<u8> = (1..=32).collect();
    code.extend(&payload);
    code.push(0x00);
    let mut rt = runtime_for(code);
    let mut h = ScriptedHandler::new();
    let reason = step_to_exit(&mut rt, &mut h);
    assert_eq!(reason, ExitReason::Succeed(ExitSucceed::Stopped));
    assert_eq!(rt.machine().stack().peek(0).unwrap().bytes, payload);
}

#[test]
fn push_missing_immediate_bytes_read_as_zero() {
    // PUSH2 with only one immediate byte in the code.
    let mut rt = runtime_for(vec![0x61, 0xAA]);
    let mut h = ScriptedHandler::new();
    let reason = step_to_exit(&mut rt, &mut h);
    assert_eq!(reason, ExitReason::Succeed(ExitSucceed::Stopped));
    assert_eq!(rt.machine().stack().peek(0).unwrap(), word(0xAA00));
}

#[test]
fn jumpi_with_zero_condition_falls_through() {
    // condition 0, dest 5 (invalid): not taken, so no failure.
    let code = vec![
        0x60, 0x00, // condition
        0x60, 0x05, // dest
        0x57, // JUMPI
        0x00,
    ];
    let mut rt = runtime_for(code);
    let mut h = ScriptedHandler::new();
    assert_eq!(
        step_to_exit(&mut rt, &mut h),
        ExitReason::Succeed(ExitSucceed::Stopped)
    );
}

#[test]
fn jumpi_with_nonzero_condition_jumps() {
    let code = vec![
        0x60, 0x01, // condition
        0x60, 0x06, // dest
        0x57, // JUMPI
        0xFE, // skipped
        0x5B, 0x00,
    ];
    let mut valids = vec![0u8; code.len()];
    valids[6] = 1;
    let mut rt = Runtime::new(code, valids, Vec::new(), ctx());
    let mut h = ScriptedHandler::new();
    assert_eq!(
        step_to_exit(&mut rt, &mut h),
        ExitReason::Succeed(ExitSucceed::Stopped)
    );
}

#[test]
fn pushing_past_the_stack_limit_overflows() {
    // The default limit is 1024 words; the 1025th push must fail.
    let mut code = Vec::new();
    for _ in 0..1025 {
        code.extend([0x60, 0x01]);
    }
    let mut rt = runtime_for(code);
    let mut h = ScriptedHandler::new();
    assert_eq!(
        step_to_exit(&mut rt, &mut h),
        ExitReason::Error(ExitError::StackOverflow)
    );
    assert_eq!(rt.machine().stack().len(), 1024);
}

#[test]
fn callcode_runs_target_code_on_own_account() {
    let code = vec![
        0x60, 0x00, // out_len
        0x60, 0x00, // out_off
        0x60, 0x00, // in_len
        0x60, 0x00, // in_off
        0x60, 0x09, // value
        0x60, 0x05, // to
        0x60, 0x64, // gas
        0xF2, // CALLCODE
        0x00,
    ];
    let mut rt = runtime_for(code);
    let mut h = ScriptedHandler::new();
    let reason = step_to_exit(&mut rt, &mut h);
    assert_eq!(reason, ExitReason::Succeed(ExitSucceed::Stopped));
    let rec = h.last_call.expect("no call recorded");
    assert!(!rec.is_static);
    // The child context stays on this account, and the transfer moves
    // the value from the account to itself.
    assert_eq!(rec.context.address, h160(0x11));
    assert_eq!(rec.context.caller, h160(0x11));
    assert_eq!(rec.context.apparent_value, U256::from_u64(9));
    let (source, target, value) = rec.transfer.expect("transfer missing");
    assert_eq!(source, h160(0x11));
    assert_eq!(target, h160(0x11));
    assert_eq!(value, U256::from_u64(9));
}

#[test]
fn delegatecall_inherits_context_and_moves_nothing() {
    let code = vec![
        0x60, 0x00, // out_len
        0x60, 0x00, // out_off
        0x60, 0x00, // in_len
        0x60, 0x00, // in_off
        0x60, 0x05, // to
        0x60, 0x64, // gas
        0xF4, // DELEGATECALL
        0x00,
    ];
    let mut rt = Runtime::new(
        code,
        vec![0u8; 16],
        Vec::new(),
        Context {
            address: h160(0x11),
            caller: h160(0x22),
            apparent_value: U256::from_u64(77),
        },
    );
    let mut h = ScriptedHandler::new();
    let reason = step_to_exit(&mut rt, &mut h);
    assert_eq!(reason, ExitReason::Succeed(ExitSucceed::Stopped));
    let rec = h.last_call.expect("no call recorded");
    assert!(rec.transfer.is_none());
    assert_eq!(rec.context.address, h160(0x11));
    assert_eq!(rec.context.caller, h160(0x22));
    assert_eq!(rec.context.apparent_value, U256::from_u64(77));
}

#[test]
fn create_legacy_scheme_carries_value_and_code() {
    // Write one byte of init code into memory first, then CREATE.
    let code = vec![
        0x60, 0x33, // word ending in 0x33
        0x60, 0x00, // offset
        0x52, // MSTORE
        0x60, 0x01, // code_len = 1
        0x60, 0x1F, // code_off = 31 (the 0x33 byte)
        0x60, 0x07, // value
        0xF0, // CREATE
        0x00,
    ];
    let mut rt = runtime_for(code);
    let mut h = ScriptedHandler::new();
    h.create_script = CreateScript::Exit(
        ExitReason::Succeed(ExitSucceed::Returned),
        Some(h160(0xCD)),
        Vec::new(),
    );
    let reason = step_to_exit(&mut rt, &mut h);
    assert_eq!(reason, ExitReason::Succeed(ExitSucceed::Stopped));
    let rec = h.last_create.expect("no creation recorded");
    assert_eq!(rec.scheme_caller, Some(h160(0x11)));
    assert_eq!(rec.scheme_salt, None);
    assert_eq!(rec.value, U256::from_u64(7));
    assert_eq!(rec.init_code, vec![0x33]);
    assert_eq!(
        rt.machine().stack().peek(0).unwrap(),
        H256::from_h160(&h160(0xCD))
    );
}

#[test]
fn failed_creation_pushes_zero() {
    let code = vec![
        0x60, 0x00, // code_len
        0x60, 0x00, // code_off
        0x60, 0x00, // value
        0xF0, // CREATE
        0x00,
    ];
    let mut rt = runtime_for(code);
    let mut h = ScriptedHandler::new();
    h.create_script = CreateScript::Exit(
        ExitReason::Revert(ExitRevert::Reverted),
        None,
        Vec::new(),
    );
    let reason = step_to_exit(&mut rt, &mut h);
    assert_eq!(reason, ExitReason::Succeed(ExitSucceed::Stopped));
    assert_eq!(rt.machine().stack().peek(0).unwrap(), word(0));
}

#[test]
fn introspection_opcodes_push_handler_values() {
    // ORIGIN, GASPRICE, NUMBER, TIMESTAMP
    let code = vec![0x32, 0x3A, 0x43, 0x42, 0x00];
    let mut rt = runtime_for(code);
    let mut h = ScriptedHandler::new();
    let reason = step_to_exit(&mut rt, &mut h);
    assert_eq!(reason, ExitReason::Succeed(ExitSucceed::Stopped));
    assert_eq!(rt.machine().stack().peek(0).unwrap(), word(1_600_000_000));
    assert_eq!(rt.machine().stack().peek(1).unwrap(), word(12_345));
    assert_eq!(rt.machine().stack().peek(2).unwrap(), word(13));
    assert_eq!(
        rt.machine().stack().peek(3).unwrap(),
        H256::from_h160(&h160(0x99))
    );
}

#[test]
fn sload_of_unset_slot_reads_zero() {
    let code = vec![0x60, 0x09, 0x54, 0x00];
    let mut rt = runtime_for(code);
    let mut h = ScriptedHandler::new();
    let reason = step_to_exit(&mut rt, &mut h);
    assert_eq!(reason, ExitReason::Succeed(ExitSucceed::Stopped));
    assert_eq!(rt.machine().stack().peek(0).unwrap(), word(0));
}

#[test]
fn call_sends_requested_input_slice() {
    let code = vec![
        0x60, 0xAB, // word ending in 0xAB
        0x60, 0x00, // offset
        0x52, // MSTORE
        0x60, 0x00, // out_len
        0x60, 0x00, // out_off
        0x60, 0x02, // in_len
        0x60, 0x1E, // in_off: last two bytes of the stored word
        0x60, 0x00, // value
        0x60, 0x05, // to
        0x60, 0x64, // gas
        0xF1, // CALL
        0x00,
    ];
    let mut rt = runtime_for(code);
    let mut h = ScriptedHandler::new();
    let reason = step_to_exit(&mut rt, &mut h);
    assert_eq!(reason, ExitReason::Succeed(ExitSucceed::Stopped));
    let rec = h.last_call.expect("no call recorded");
    assert_eq!(rec.input, vec![0x00, 0xAB]);
}

#[test]
fn create_scheme_builder_shapes() {
    let parent = ctx();
    let salt = word(0x5A);
    let hash = dummy_hash(&[1]);
    match evm_runtime::eval::build_create_scheme(&parent, Some((salt.clone(), hash.clone()))) {
        CreateScheme::Create2 {
            caller,
            code_hash,
            salt: s,
        } => {
            assert_eq!(caller, parent.address);
            assert_eq!(code_hash, hash);
            assert_eq!(s, salt);
        }
        other => panic!("wrong scheme: {:?}", other),
    }
    match evm_runtime::eval::build_create_scheme(&parent, None) {
        CreateScheme::Legacy { caller } => assert_eq!(caller, parent.address),
        other => panic!("wrong scheme: {:?}", other),
    }
}

#[test]
fn run_with_zero_budget_changes_nothing() {
    let mut rt = runtime_for(vec![0x5B, 0x00]);
    let mut h = ScriptedHandler::new();
    let (steps, capture) = rt.run(0, &mut h);
    assert_eq!(steps, 0);
    assert!(matches!(capture, Capture::Exit(ExitReason::StepLimitReached)));
    assert!(matches!(rt.machine().position(), Ok(0)));
    let (steps, capture) = rt.run(5, &mut h);
    // The marker opcode counts; the stop that ends the frame does not.
    assert_eq!(steps, 1);
    assert!(matches!(
        capture,
        Capture::Exit(ExitReason::Succeed(ExitSucceed::Stopped))
    ));
}

#[test]
fn run_off_the_code_end_stops_at_zero_steps() {
    let mut rt = runtime_for(Vec::new());
    let mut h = ScriptedHandler::new();
    let (steps, capture) = rt.run(9, &mut h);
    assert_eq!(steps, 0);
    assert!(matches!(
        capture,
        Capture::Exit(ExitReason::Succeed(ExitSucceed::Stopped))
    ));
}

#[test]
fn step_off_the_code_end_stops() {
    let mut rt = runtime_for(Vec::new());
    let mut h = ScriptedHandler::new();
    match rt.step(&mut h) {
        Err(Capture::Exit(e)) => assert_eq!(e, ExitReason::Succeed(ExitSucceed::Stopped)),
        other => panic!("expected a stop, got {:?}", other),
    }
    assert!(rt.trace().is_empty());
}
