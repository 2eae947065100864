//! Execution runtime layer of an EVM interpreter.
//!
//! The runtime drives the lower stack machine through bytecode, mediates
//! every environment-touching operation through a pluggable `Handler`,
//! and records a structured trace of what happened. On a nested call or
//! contract creation whose handler traps, `step` and `run` suspend by
//! returning a `Resolve` token; the driver performs the child frame and
//! folds its outcome back in through `save_return_value` or
//! `save_created_address`.

pub mod context;
pub mod eval;
pub mod exit;
pub mod handler;
pub mod interrupt;
pub mod machine;
pub mod memory;
pub mod stack;
pub mod trace;
pub mod tracing;
pub mod types;

pub use crate::context::{CallScheme, Context, CreateScheme};
pub use crate::eval::{save_created_address, save_return_value, Control};
pub use crate::exit::{Capture, ExitError, ExitFatal, ExitReason, ExitRevert, ExitSucceed};
pub use crate::handler::{Handler, Transfer};
pub use crate::interrupt::Resolve;
pub use crate::machine::{Machine, Opcode};
pub use crate::memory::Memory;
pub use crate::stack::Stack;
pub use crate::tracing::Event;
pub use crate::types::{H160, H256, U256};

use vstd::prelude::*;

use crate::machine::{keeps_frame, step_rel};
use crate::memory::read_padded;
use crate::tracing::{is_step, is_step_result, step_event_matches, step_result_event_matches};

verus! {

/// One in-flight execution frame: the lower machine plus return-data
/// buffer, status, context and the trace log.
#[derive(Debug)]
pub struct Runtime {
    /// The lower machine.
    pub machine: Machine,
    /// `Ok` while running; the exit reason once terminated.
    pub status: Result<(), ExitReason>,
    /// Return data of the most recent child frame only.
    pub return_data_buffer: Vec<u8>,
    /// Immutable identity of this frame.
    pub context: Context,
    /// Events recorded so far, oldest first; the host drains them.
    pub trace: Vec<Event>,
}

/// How the machine outcome recorded by a step commits to the frame: on
/// a pure step or a machine exit the final machine is exactly the
/// recorded one; on a trap the dispatch ran from the recorded state,
/// keeping the frame and growing memory at most, and the counter either
/// stays where the trap left it or holds the dispatch's exit.
pub open spec fn step_commit<CI, CRI>(
    mid: Machine,
    r0: Result<(), Capture<ExitReason, Opcode>>,
    post: Runtime,
    r: Result<(), Capture<ExitReason, Resolve<CI, CRI>>>,
) -> bool {
    match r0 {
        Ok(()) => post.machine == mid && r is Ok,
        Err(Capture::Exit(e)) => post.machine == mid && r == Err::<
            (),
            Capture<ExitReason, Resolve<CI, CRI>>,
        >(Capture::Exit(e)),
        Err(Capture::Trap(_)) => {
            &&& keeps_frame(mid, post.machine)
            &&& post.machine.memory@.len() >= mid.memory@.len()
            &&& (match r {
                Ok(()) => post.machine.position == mid.position,
                Err(c) => match c {
                    Capture::Trap(_) => post.machine.position == mid.position,
                    Capture::Exit(e) => post.machine.position == Err::<usize, ExitReason>(e),
                },
            })
        },
    }
}

/// `e` reports the machine step this call executed and committed: some
/// step of the machine out of `pre_m` produced the recorded result, the
/// recorded return data, stack and memory are snapshots of the machine
/// right after it, and the final frame is what that outcome commits to.
pub open spec fn step_result_commit<CI, CRI>(
    pre_m: Machine,
    e: Event,
    post: Runtime,
    r: Result<(), Capture<ExitReason, Resolve<CI, CRI>>>,
) -> bool {
    exists|mid: Machine, r0: Result<(), Capture<ExitReason, Opcode>>|
        step_rel(pre_m, mid, r0) && step_result_event_matches(
            e,
            r0,
            read_padded(mid.memory@, mid.return_start as int, mid.return_len as int),
            mid.stack@,
            mid.memory@,
        ) && step_commit(mid, r0, post, r)
}

/// The counter of a live machine has run past the end of its code, so
/// the next step can only stop it.
pub open spec fn past_code_end(m: Machine) -> bool {
    match m.position {
        Ok(pc) => pc >= m.code@.len(),
        Err(_) => false,
    }
}

/// One completed opcode out of `m0`: either a pure machine step, or a
/// machine trap whose dispatch kept the frame and the counter where the
/// trap left them and grew memory at most.
pub open spec fn stepped_once(m0: Machine, m1: Machine) -> bool {
    exists|mid: Machine, r0: Result<(), Capture<ExitReason, Opcode>>|
        step_rel(m0, mid, r0) && (match r0 {
            Ok(()) => m1 == mid,
            Err(c) => match c {
                Capture::Trap(_) => keeps_frame(mid, m1) && m1.position == mid.position
                    && m1.memory@.len() >= mid.memory@.len(),
                Capture::Exit(_) => false,
            },
        })
}

/// `m1` is reachable from `m0` by exactly `n` completed opcodes.
pub open spec fn stepped(m0: Machine, m1: Machine, n: nat) -> bool
    decreases n,
{
    if n == 0 {
        m1 == m0
    } else {
        exists|mk: Machine| stepped(m0, mk, (n - 1) as nat) && stepped_once(mk, m1)
    }
}

/// A machine exited out of `mk` in one of the three ways a running frame
/// terminates: the handler rejected the next opcode, the machine step
/// itself exited, or a trapped opcode's dispatch asked for the exit.
pub open spec fn run_exit_rel(mk: Machine, mf: Machine, e: ExitReason) -> bool {
    ||| (mk.spec_next_opcode() is Some && (e matches ExitReason::Error(_)) && crate::machine::exits(
        mk,
        mf,
        e,
    ) && mf.stack@ == mk.stack@)
    ||| step_rel(mk, mf, Err(Capture::Exit(e)))
    ||| (exists|mid: Machine, op: Opcode|
        step_rel(mk, mid, Err(Capture::Trap(op))) && keeps_frame(mid, mf) && mf.position == Err::<
            usize,
            ExitReason,
        >(e) && mf.memory@.len() >= mid.memory@.len())
}

/// A completed opcode extends a reachability chain by one.
proof fn lemma_stepped_extend(m0: Machine, mk: Machine, m1: Machine, n: nat)
    requires
        stepped(m0, mk, n),
        stepped_once(mk, m1),
    ensures
        stepped(m0, m1, n + 1),
{
    assert(stepped(m0, m1, n + 1));
}

/// Out of a terminated machine, or one whose counter ran off the code,
/// no opcode completes: the only reachable state is the start itself.
proof fn lemma_stepped_stuck(m0: Machine, m1: Machine, n: nat)
    requires
        stepped(m0, m1, n),
        (match m0.position {
            Ok(pc) => pc >= m0.code@.len(),
            Err(_) => true,
        }),
    ensures
        n == 0,
        m1 == m0,
    decreases n,
{
    if n > 0 {
        let mk = choose|mk: Machine| stepped(m0, mk, (n - 1) as nat) && stepped_once(mk, m1);
        lemma_stepped_stuck(m0, mk, (n - 1) as nat);
        let (mid, r0) = choose|mid: Machine, r0: Result<(), Capture<ExitReason, Opcode>>|
            step_rel(m0, mid, r0) && (match r0 {
                Ok(()) => m1 == mid,
                Err(c) => match c {
                    Capture::Trap(_) => keeps_frame(mid, m1) && m1.position == mid.position
                        && m1.memory@.len() >= mid.memory@.len(),
                    Capture::Exit(_) => false,
                },
            });
        assert(r0 matches Err(Capture::Exit(_)));
        assert(false);
    }
}

impl Runtime {
    /// Machine and context are well-formed and the status agrees with the
    /// machine: running exactly while the machine has a program counter,
    /// and otherwise holding the same exit reason.
    pub open spec fn wf(&self) -> bool {
        &&& self.machine.wf()
        &&& self.context.wf()
        &&& match self.status {
            Ok(()) => self.machine.position is Ok,
            Err(e) => self.machine.position == Err::<usize, ExitReason>(e),
        }
    }

    /// A fresh frame over the given code, jump-validity bitmap and call
    /// data, with the default (Istanbul) stack and memory limits.
    pub fn new(code: Vec<u8>, valids: Vec<u8>, data: Vec<u8>, context: Context) -> (r: Self)
        requires
            context.wf(),
        ensures
            r.wf(),
            r.machine.code@ == code@,
            r.machine.valids@ == valids@,
            r.machine.data@ == data@,
            r.machine.position == Ok::<usize, ExitReason>(0),
            r.machine.stack@ == Seq::<Seq<u8>>::empty(),
            r.machine.stack.limit == 1024,
            r.machine.memory@ == Seq::<u8>::empty(),
            r.machine.memory.limit == usize::MAX,
            r.status == Ok::<(), ExitReason>(()),
            r.return_data_buffer@ == Seq::<u8>::empty(),
            r.context == context,
            r.trace@ == Seq::<Event>::empty(),
    {
        let config = Config::istanbul();
        Runtime {
            machine: Machine::new(code, valids, data, config.stack_limit, config.memory_limit),
            status: Ok(()),
            return_data_buffer: Vec::new(),
            context,
            trace: Vec::new(),
        }
    }

    /// The return data of the most recent child frame.
    pub fn return_data(&self) -> (r: &Vec<u8>)
        ensures
            *r == self.return_data_buffer,
    {
        &self.return_data_buffer
    }

    /// Overwrite the return-data buffer.
    pub fn set_return_data(&mut self, data: Vec<u8>)
        ensures
            *final(self) == (Runtime { return_data_buffer: data, ..*old(self) }),
    {
        self.return_data_buffer = data;
    }

    /// The lower machine.
    pub fn machine(&self) -> (r: &Machine)
        ensures
            *r == self.machine,
    {
        &self.machine
    }

    /// The events recorded so far.
    pub fn trace(&self) -> (r: &Vec<Event>)
        ensures
            *r == self.trace,
    {
        &self.trace
    }

    /// Advance the frame by exactly one opcode.
    ///
    /// When a next opcode exists, a step announcement joins the trace
    /// before the handler validates the opcode; on approval the opcode
    /// executes and exactly one step-result event follows before any
    /// storage event, while a rejection terminates the frame with no
    /// step result. Once terminated, every further call returns the same
    /// exit without advancing anything. A trap hands a suspension token
    /// to the driver with the return-data buffer freshly emptied.
    pub fn step<H: Handler>(&mut self, handler: &mut H) -> (r: Result<
        (),
        Capture<ExitReason, Resolve<H::CallInterrupt, H::CreateInterrupt>>,
    >)
        requires
            old(self).wf(),
        ensures
            final(self).wf(),
            final(self).context == old(self).context,
            keeps_frame(old(self).machine, final(self).machine),
            final(self).machine.memory@.len() >= old(self).machine.memory@.len(),
            final(self).trace@.len() >= old(self).trace@.len(),
            final(self).trace@.take(old(self).trace@.len() as int) == old(self).trace@,
            (old(self).status matches Err(e) ==> r == Err::<
                (),
                Capture<ExitReason, Resolve<H::CallInterrupt, H::CreateInterrupt>>,
            >(Capture::Exit(e)) && *final(self) == *old(self)),
            ((old(self).status is Ok && (match old(self).machine.position {
                Ok(pc) => pc >= old(self).machine.code@.len(),
                Err(_) => false,
            })) ==> r == Err::<
                (),
                Capture<ExitReason, Resolve<H::CallInterrupt, H::CreateInterrupt>>,
            >(Capture::Exit(ExitReason::Succeed(ExitSucceed::Stopped))) && final(self).status
                == Err::<(), ExitReason>(ExitReason::Succeed(ExitSucceed::Stopped))),
            (match r {
                Ok(()) => final(self).status is Ok,
                Err(c) => match c {
                    Capture::Exit(e) => final(self).status == Err::<(), ExitReason>(e),
                    Capture::Trap(_) => final(self).status is Ok && final(self).return_data_buffer@ == Seq::<u8>::empty(),
                },
            }),
            (match old(self).machine.spec_next_opcode() {
                None => final(self).trace@ == old(self).trace@,
                Some(op) => {
                    let appended = final(self).trace@.skip(old(self).trace@.len() as int);
                    &&& appended.len() >= 1
                    &&& step_event_matches(
                        appended[0],
                        old(self).context,
                        op,
                        old(self).machine.position,
                        old(self).machine.stack@,
                        old(self).machine.memory@,
                    )
                    &&& (if appended.len() == 1 {
                        final(self).status matches Err(ExitReason::Error(_))
                    } else {
                        is_step_result(appended[1]) && step_result_commit(
                            old(self).machine,
                            appended[1],
                            *final(self),
                            r,
                        ) && (forall|i: int|
                            2 <= i < appended.len() ==> !is_step(#[trigger] appended[i])
                                && !is_step_result(appended[i]))
                    })
                },
            }),
    {
        let ghost n0 = self.trace@.len();
        let mut skip_step_result = true;
        match self.machine.next_opcode() {
            Some(op) => {
                let ev = Event::Step {
                    context: self.context.clone(),
                    opcode: op,
                    position: self.machine.position(),
                    stack: self.machine.stack.clone(),
                    memory: self.machine.memory.clone(),
                };
                self.trace.push(ev);
                proof {
                    assert(self.trace@.take(n0 as int) =~= old(self).trace@);
                    assert(self.trace@.skip(n0 as int) =~= seq![self.trace@.last()]);
                }
                skip_step_result = false;
                match handler.pre_validate(&self.context, op, &self.machine.stack) {
                    Ok(()) => (),
                    Err(e) => {
                        self.machine.exit(ExitReason::Error(e));
                        self.status = Err(ExitReason::Error(e));
                    },
                }
            },
            None => (),
        }
        let status_now = self.status;
        match status_now {
            Ok(_) => (),
            Err(e) => {
                return Err(Capture::Exit(e));
            },
        }
        proof {
            assert(self.status is Ok);
        }
        let result = self.machine.step();
        let ghost machine_after = self.machine;
        if !skip_step_result {
            let ev = Event::StepResult {
                result,
                return_value: self.machine.return_value(),
                stack: self.machine.stack.clone(),
                memory: self.machine.memory.clone(),
            };
            self.trace.push(ev);
            proof {
                assert(self.trace@.take(n0 as int) =~= old(self).trace@);
                assert(self.trace@.skip(n0 as int) =~= seq![
                    self.trace@[n0 as int],
                    self.trace@[n0 as int + 1],
                ]);
                assert(step_result_event_matches(
                    self.trace@[n0 as int + 1],
                    result,
                    read_padded(
                        machine_after.memory@,
                        machine_after.return_start as int,
                        machine_after.return_len as int,
                    ),
                    machine_after.stack@,
                    machine_after.memory@,
                ));
            }
        }
        match result {
            Ok(()) => {
                let res: Result<
                    (),
                    Capture<ExitReason, Resolve<H::CallInterrupt, H::CreateInterrupt>>,
                > = Ok(());
                proof {
                    if !skip_step_result {
                        assert(step_commit(machine_after, result, *self, res));
                        assert(step_result_commit(
                            old(self).machine,
                            self.trace@[n0 as int + 1],
                            *self,
                            res,
                        ));
                    }
                }
                res
            },
            Err(Capture::Exit(e)) => {
                self.status = Err(e);
                let res: Result<
                    (),
                    Capture<ExitReason, Resolve<H::CallInterrupt, H::CreateInterrupt>>,
                > = Err(Capture::Exit(e));
                proof {
                    if !skip_step_result {
                        assert(step_commit(machine_after, result, *self, res));
                        assert(step_result_commit(
                            old(self).machine,
                            self.trace@[n0 as int + 1],
                            *self,
                            res,
                        ));
                    }
                }
                res
            },
            Err(Capture::Trap(opcode)) => {
                let ghost mid = *self;
                let ctl = crate::eval::eval(self, opcode, handler);
                proof {
                    if self.trace@.len() == mid.trace@.len() + 1 {
                        assert(self.trace@.take(n0 as int) =~= old(self).trace@);
                        assert(self.trace@.skip(n0 as int) =~= seq![
                            self.trace@[n0 as int],
                            self.trace@[n0 as int + 1],
                            self.trace@[n0 as int + 2],
                        ]);
                        assert(self.trace@[n0 as int + 1] == self.trace@.drop_last()[n0 as int
                            + 1]);
                    } else {
                        assert(self.trace@ == mid.trace@);
                    }
                }
                match ctl {
                    Control::Continue => {
                        let res: Result<
                            (),
                            Capture<ExitReason, Resolve<H::CallInterrupt, H::CreateInterrupt>>,
                        > = Ok(());
                        proof {
                            assert(step_commit(machine_after, result, *self, res));
                            assert(step_result_commit(
                                old(self).machine,
                                self.trace@[n0 as int + 1],
                                *self,
                                res,
                            ));
                        }
                        res
                    },
                    Control::CallInterrupt(i) => {
                        let res: Result<
                            (),
                            Capture<ExitReason, Resolve<H::CallInterrupt, H::CreateInterrupt>>,
                        > = Err(Capture::Trap(Resolve::Call(i)));
                        proof {
                            assert(step_commit(machine_after, result, *self, res));
                            assert(step_result_commit(
                                old(self).machine,
                                self.trace@[n0 as int + 1],
                                *self,
                                res,
                            ));
                        }
                        res
                    },
                    Control::CreateInterrupt(i) => {
                        let res: Result<
                            (),
                            Capture<ExitReason, Resolve<H::CallInterrupt, H::CreateInterrupt>>,
                        > = Err(Capture::Trap(Resolve::Create(i)));
                        proof {
                            assert(step_commit(machine_after, result, *self, res));
                            assert(step_result_commit(
                                old(self).machine,
                                self.trace@[n0 as int + 1],
                                *self,
                                res,
                            ));
                        }
                        res
                    },
                    Control::Exit(exit) => {
                        self.machine.exit(exit);
                        self.status = Err(exit);
                        let res: Result<
                            (),
                            Capture<ExitReason, Resolve<H::CallInterrupt, H::CreateInterrupt>>,
                        > = Err(Capture::Exit(exit));
                        proof {
                            assert(step_commit(machine_after, result, *self, res));
                            assert(step_result_commit(
                                old(self).machine,
                                self.trace@[n0 as int + 1],
                                *self,
                                res,
                            ));
                        }
                        res
                    },
                }
            },
        }
    }

    /// Run the frame until it exits, suspends, or exhausts the step
    /// budget; every completed opcode counts against the budget. Unlike
    /// `step` this tight loop announces no step events, though storage
    /// events still join the trace. An exhausted budget surfaces the
    /// step-limit marker while the frame stays runnable; once terminated,
    /// every further call returns the same exit at zero steps.
    pub fn run<H: Handler>(&mut self, max_steps: u64, handler: &mut H) -> (r: (
        u64,
        Capture<ExitReason, Resolve<H::CallInterrupt, H::CreateInterrupt>>,
    ))
        requires
            old(self).wf(),
        ensures
            final(self).wf(),
            final(self).context == old(self).context,
            keeps_frame(old(self).machine, final(self).machine),
            final(self).machine.memory@.len() >= old(self).machine.memory@.len(),
            final(self).trace@.len() >= old(self).trace@.len(),
            final(self).trace@.take(old(self).trace@.len() as int) == old(self).trace@,
            (forall|i: int|
                old(self).trace@.len() <= i < final(self).trace@.len() ==> !is_step(
                    #[trigger] final(self).trace@[i],
                ) && !is_step_result(final(self).trace@[i])),
            r.0 <= max_steps,
            (old(self).status matches Err(e) ==> r == (
                0u64,
                Capture::<ExitReason, Resolve<H::CallInterrupt, H::CreateInterrupt>>::Exit(e),
            ) && *final(self) == *old(self)),
            ((old(self).status is Ok && r.1 == Capture::<
                ExitReason,
                Resolve<H::CallInterrupt, H::CreateInterrupt>,
            >::Exit(ExitReason::StepLimitReached)) ==> r.0 == max_steps),
            ((old(self).status is Ok && max_steps == 0) ==> r == (
                0u64,
                Capture::<ExitReason, Resolve<H::CallInterrupt, H::CreateInterrupt>>::Exit(
                    ExitReason::StepLimitReached,
                ),
            ) && *final(self) == *old(self)),
            ((old(self).status is Ok && max_steps > 0 && past_code_end(old(self).machine)) ==> r
                == (
                0u64,
                Capture::<ExitReason, Resolve<H::CallInterrupt, H::CreateInterrupt>>::Exit(
                    ExitReason::Succeed(ExitSucceed::Stopped),
                ),
            ) && final(self).status == Err::<(), ExitReason>(
                ExitReason::Succeed(ExitSucceed::Stopped),
            )),
            (old(self).status is Ok ==> (match r.1 {
                Capture::Exit(e) => if e is StepLimitReached {
                    stepped(old(self).machine, final(self).machine, r.0 as nat)
                } else {
                    exists|mk: Machine|
                        stepped(old(self).machine, mk, r.0 as nat) && run_exit_rel(
                            mk,
                            final(self).machine,
                            e,
                        )
                },
                Capture::Trap(_) => exists|mk: Machine, mid: Machine, op: Opcode|
                    stepped(old(self).machine, mk, r.0 as nat) && step_rel(
                        mk,
                        mid,
                        Err(Capture::Trap(op)),
                    ) && keeps_frame(mid, final(self).machine) && final(self).machine.position
                        == mid.position && final(self).machine.memory@.len()
                        >= mid.memory@.len(),
            })),
            (match r.1 {
                Capture::Exit(e) => if e is StepLimitReached {
                    old(self).status is Ok ==> final(self).status is Ok
                } else {
                    final(self).status == Err::<(), ExitReason>(e)
                },
                Capture::Trap(_) => final(self).status is Ok && final(self).return_data_buffer@
                    == Seq::<u8>::empty(),
            }),
    {
        let status_now = self.status;
        match status_now {
            Ok(_) => (),
            Err(e) => {
                return (0, Capture::Exit(e));
            },
        }
        if max_steps == 0 {
            proof {
                assert(stepped(old(self).machine, self.machine, 0));
            }
            return (0, Capture::Exit(ExitReason::StepLimitReached));
        }
        let mut steps: u64 = 0;
        proof {
            assert(stepped(old(self).machine, self.machine, 0));
        }
        while steps < max_steps
            invariant
                self.wf(),
                old(self).status is Ok,
                self.status is Ok,
                self.context == old(self).context,
                keeps_frame(old(self).machine, self.machine),
                self.machine.memory@.len() >= old(self).machine.memory@.len(),
                self.trace@.len() >= old(self).trace@.len(),
                self.trace@.take(old(self).trace@.len() as int) == old(self).trace@,
                (forall|i: int|
                    old(self).trace@.len() <= i < self.trace@.len() ==> !is_step(
                        #[trigger] self.trace@[i],
                    ) && !is_step_result(self.trace@[i])),
                steps <= max_steps,
                stepped(old(self).machine, self.machine, steps as nat),
            decreases max_steps - steps,
        {
            let ghost m_before = self.machine;
            match self.machine.next_opcode() {
                Some(op) => {
                    match handler.pre_validate(&self.context, op, &self.machine.stack) {
                        Ok(()) => (),
                        Err(e) => {
                            self.machine.exit(ExitReason::Error(e));
                            self.status = Err(ExitReason::Error(e));
                            proof {
                                if past_code_end(old(self).machine) {
                                    lemma_stepped_stuck(
                                        old(self).machine,
                                        m_before,
                                        steps as nat,
                                    );
                                }
                                assert(run_exit_rel(
                                    m_before,
                                    self.machine,
                                    ExitReason::Error(e),
                                ));
                                assert(exists|mk: Machine|
                                    stepped(old(self).machine, mk, steps as nat) && run_exit_rel(
                                        mk,
                                        self.machine,
                                        ExitReason::Error(e),
                                    ));
                            }
                            return (steps, Capture::Exit(ExitReason::Error(e)));
                        },
                    }
                },
                None => (),
            }
            let result = self.machine.step();
            match result {
                Ok(()) => {
                    proof {
                        assert(stepped_once(m_before, self.machine));
                        lemma_stepped_extend(
                            old(self).machine,
                            m_before,
                            self.machine,
                            steps as nat,
                        );
                    }
                    steps = steps + 1;
                },
                Err(Capture::Exit(e)) => {
                    self.status = Err(e);
                    proof {
                        if past_code_end(old(self).machine) {
                            lemma_stepped_stuck(old(self).machine, m_before, steps as nat);
                        }
                        assert(run_exit_rel(m_before, self.machine, e));
                        assert(exists|mk: Machine|
                            stepped(old(self).machine, mk, steps as nat) && run_exit_rel(
                                mk,
                                self.machine,
                                e,
                            ));
                    }
                    return (steps, Capture::Exit(e));
                },
                Err(Capture::Trap(opcode)) => {
                    let ghost mid = *self;
                    let ctl = crate::eval::eval(self, opcode, handler);
                    proof {
                        assert(self.trace@.take(old(self).trace@.len() as int) =~= old(
                            self,
                        ).trace@);
                        assert forall|i: int|
                            old(self).trace@.len() <= i < self.trace@.len() implies !is_step(
                            #[trigger] self.trace@[i],
                        ) && !is_step_result(self.trace@[i]) by {
                            if self.trace@.len() == mid.trace@.len() + 1 {
                                if i < mid.trace@.len() {
                                    assert(self.trace@[i] == self.trace@.drop_last()[i]);
                                } else {
                                    assert(self.trace@[i] == self.trace@.last());
                                }
                            } else {
                                assert(self.trace@[i] == mid.trace@[i]);
                            }
                        }
                    }
                    match ctl {
                        Control::Continue => {
                            proof {
                                assert(stepped_once(m_before, self.machine));
                                lemma_stepped_extend(
                                    old(self).machine,
                                    m_before,
                                    self.machine,
                                    steps as nat,
                                );
                            }
                            steps = steps + 1;
                        },
                        Control::CallInterrupt(i) => {
                            proof {
                                if past_code_end(old(self).machine) {
                                    lemma_stepped_stuck(
                                        old(self).machine,
                                        m_before,
                                        steps as nat,
                                    );
                                }
                                assert(exists|mk: Machine, mid2: Machine, op2: Opcode|
                                    stepped(old(self).machine, mk, steps as nat) && step_rel(
                                        mk,
                                        mid2,
                                        Err(Capture::Trap(op2)),
                                    ) && keeps_frame(mid2, self.machine) && self.machine.position
                                        == mid2.position && self.machine.memory@.len()
                                        >= mid2.memory@.len());
                            }
                            return (steps, Capture::Trap(Resolve::Call(i)));
                        },
                        Control::CreateInterrupt(i) => {
                            proof {
                                if past_code_end(old(self).machine) {
                                    lemma_stepped_stuck(
                                        old(self).machine,
                                        m_before,
                                        steps as nat,
                                    );
                                }
                                assert(exists|mk: Machine, mid2: Machine, op2: Opcode|
                                    stepped(old(self).machine, mk, steps as nat) && step_rel(
                                        mk,
                                        mid2,
                                        Err(Capture::Trap(op2)),
                                    ) && keeps_frame(mid2, self.machine) && self.machine.position
                                        == mid2.position && self.machine.memory@.len()
                                        >= mid2.memory@.len());
                            }
                            return (steps, Capture::Trap(Resolve::Create(i)));
                        },
                        Control::Exit(exit) => {
                            self.machine.exit(exit);
                            self.status = Err(exit);
                            proof {
                                if past_code_end(old(self).machine) {
                                    lemma_stepped_stuck(
                                        old(self).machine,
                                        m_before,
                                        steps as nat,
                                    );
                                }
                                assert(run_exit_rel(m_before, self.machine, exit));
                                assert(exists|mk: Machine|
                                    stepped(old(self).machine, mk, steps as nat) && run_exit_rel(
                                        mk,
                                        self.machine,
                                        exit,
                                    ));
                            }
                            return (steps, Capture::Exit(exit));
                        },
                    }
                },
            }
        }
        proof {
            if past_code_end(old(self).machine) {
                lemma_stepped_stuck(old(self).machine, self.machine, steps as nat);
            }
        }
        (steps, Capture::Exit(ExitReason::StepLimitReached))
    }

    /// Hand the recorded events over and leave the log empty.
    pub fn take_trace(&mut self) -> (r: Vec<Event>)
        ensures
            r == old(self).trace,
            final(self).machine == old(self).machine,
            final(self).status == old(self).status,
            final(self).return_data_buffer == old(self).return_data_buffer,
            final(self).context == old(self).context,
            final(self).trace@ == Seq::<Event>::empty(),
    {
        let mut out: Vec<Event> = Vec::new();
        core::mem::swap(&mut out, &mut self.trace);
        proof {
            assert(self.trace@ =~= Seq::<Event>::empty());
        }
        out
    }
}

/// Gas schedule and feature flags of one hard fork.
#[derive(Clone, Debug)]
pub struct Config {
    /// Gas paid for an external code read.
    pub gas_ext_code: u64,
    /// Gas paid for an external code-hash read.
    pub gas_ext_code_hash: u64,
    /// Gas paid for a storage write that sets a fresh slot.
    pub gas_sstore_set: u64,
    /// Gas paid for a storage write that resets a slot.
    pub gas_sstore_reset: u64,
    /// Refund for a storage write that clears a slot.
    pub refund_sstore_clears: i64,
    /// Gas paid for a balance read.
    pub gas_balance: u64,
    /// Gas paid for a storage read.
    pub gas_sload: u64,
    /// Gas paid for a self-destruct.
    pub gas_suicide: u64,
    /// Gas paid for a self-destruct that hits a new account.
    pub gas_suicide_new_account: u64,
    /// Gas paid for a call.
    pub gas_call: u64,
    /// Gas paid per byte of an exponent.
    pub gas_expbyte: u64,
    /// Gas paid for a contract-creation transaction.
    pub gas_transaction_create: u64,
    /// Gas paid for a message-call transaction.
    pub gas_transaction_call: u64,
    /// Gas paid per zero byte of transaction data.
    pub gas_transaction_zero_data: u64,
    /// Gas paid per non-zero byte of transaction data.
    pub gas_transaction_non_zero_data: u64,
    /// Whether net storage-gas metering applies.
    pub sstore_gas_metering: bool,
    /// Whether a storage write under the stipend reverts.
    pub sstore_revert_under_stipend: bool,
    /// Whether asking for more gas than remains is an error.
    pub err_on_call_with_more_gas: bool,
    /// Whether the all-but-one-64th rule applies after gas.
    pub call_l64_after_gas: bool,
    /// Whether an empty account counts as existing.
    pub empty_considered_exists: bool,
    /// Whether creation increases the creator nonce.
    pub create_increase_nonce: bool,
    /// Stack limit.
    pub stack_limit: usize,
    /// Memory limit.
    pub memory_limit: usize,
    /// Nested-call depth limit.
    pub call_stack_limit: usize,
    /// Size limit of a created contract, if any.
    pub create_contract_limit: Option<usize>,
    /// Gas stipend handed to a value-bearing call.
    pub call_stipend: u64,
    /// Whether the delegate-call opcode is available.
    pub has_delegate_call: bool,
    /// Whether the salted creation opcode is available.
    pub has_create2: bool,
    /// Whether the revert opcode is available.
    pub has_revert: bool,
    /// Whether the return-data opcodes are available.
    pub has_return_data: bool,
    /// Whether the bitwise shift opcodes are available.
    pub has_bitwise_shifting: bool,
    /// Whether the chain-id opcode is available.
    pub has_chain_id: bool,
    /// Whether the self-balance opcode is available.
    pub has_self_balance: bool,
    /// Whether the external code-hash opcode is available.
    pub has_ext_code_hash: bool,
    /// Whether the gasometer runs in estimate mode.
    pub estimate: bool,
}

impl Config {
    /// The Frontier hard fork configuration.
    pub fn frontier() -> (r: Config)
        ensures
            r.gas_ext_code == 20,
            r.gas_ext_code_hash == 20,
            r.gas_balance == 20,
            r.gas_sload == 50,
            r.gas_sstore_set == 20000,
            r.gas_sstore_reset == 5000,
            r.refund_sstore_clears == 15000,
            r.gas_suicide == 0,
            r.gas_suicide_new_account == 0,
            r.gas_call == 40,
            r.gas_expbyte == 10,
            r.gas_transaction_create == 21000,
            r.gas_transaction_call == 21000,
            r.gas_transaction_zero_data == 4,
            r.gas_transaction_non_zero_data == 68,
            !r.sstore_gas_metering,
            !r.sstore_revert_under_stipend,
            r.err_on_call_with_more_gas,
            !r.call_l64_after_gas,
            r.empty_considered_exists,
            !r.create_increase_nonce,
            r.stack_limit == 1024,
            r.memory_limit == usize::MAX,
            r.call_stack_limit == 1024,
            r.create_contract_limit is None,
            r.call_stipend == 2300,
            !r.has_delegate_call,
            !r.has_create2,
            !r.has_revert,
            !r.has_return_data,
            !r.has_bitwise_shifting,
            !r.has_chain_id,
            !r.has_self_balance,
            !r.has_ext_code_hash,
            !r.estimate,
    {
        Config {
            gas_ext_code: 20,
            gas_ext_code_hash: 20,
            gas_balance: 20,
            gas_sload: 50,
            gas_sstore_set: 20000,
            gas_sstore_reset: 5000,
            refund_sstore_clears: 15000,
            gas_suicide: 0,
            gas_suicide_new_account: 0,
            gas_call: 40,
            gas_expbyte: 10,
            gas_transaction_create: 21000,
            gas_transaction_call: 21000,
            gas_transaction_zero_data: 4,
            gas_transaction_non_zero_data: 68,
            sstore_gas_metering: false,
            sstore_revert_under_stipend: false,
            err_on_call_with_more_gas: true,
            call_l64_after_gas: false,
            empty_considered_exists: true,
            create_increase_nonce: false,
            stack_limit: 1024,
            memory_limit: usize::MAX,
            call_stack_limit: 1024,
            create_contract_limit: None,
            call_stipend: 2300,
            has_delegate_call: false,
            has_create2: false,
            has_revert: false,
            has_return_data: false,
            has_bitwise_shifting: false,
            has_chain_id: false,
            has_self_balance: false,
            has_ext_code_hash: false,
            estimate: false,
        }
    }

    /// The Istanbul hard fork configuration; its values are the normative
    /// defaults of this runtime.
    pub fn istanbul() -> (r: Config)
        ensures
            r.gas_ext_code == 700,
            r.gas_ext_code_hash == 700,
            r.gas_balance == 700,
            r.gas_sload == 800,
            r.gas_sstore_set == 20000,
            r.gas_sstore_reset == 5000,
            r.refund_sstore_clears == 15000,
            r.gas_suicide == 5000,
            r.gas_suicide_new_account == 25000,
            r.gas_call == 700,
            r.gas_expbyte == 50,
            r.gas_transaction_create == 53000,
            r.gas_transaction_call == 21000,
            r.gas_transaction_zero_data == 4,
            r.gas_transaction_non_zero_data == 16,
            r.sstore_gas_metering,
            r.sstore_revert_under_stipend,
            !r.err_on_call_with_more_gas,
            r.call_l64_after_gas,
            !r.empty_considered_exists,
            r.create_increase_nonce,
            r.stack_limit == 1024,
            r.memory_limit == usize::MAX,
            r.call_stack_limit == 1024,
            r.create_contract_limit == Some(0x6000usize),
            r.call_stipend == 2300,
            r.has_delegate_call,
            r.has_create2,
            r.has_revert,
            r.has_return_data,
            r.has_bitwise_shifting,
            r.has_chain_id,
            r.has_self_balance,
            r.has_ext_code_hash,
            !r.estimate,
    {
        Config {
            gas_ext_code: 700,
            gas_ext_code_hash: 700,
            gas_balance: 700,
            gas_sload: 800,
            gas_sstore_set: 20000,
            gas_sstore_reset: 5000,
            refund_sstore_clears: 15000,
            gas_suicide: 5000,
            gas_suicide_new_account: 25000,
            gas_call: 700,
            gas_expbyte: 50,
            gas_transaction_create: 53000,
            gas_transaction_call: 21000,
            gas_transaction_zero_data: 4,
            gas_transaction_non_zero_data: 16,
            sstore_gas_metering: true,
            sstore_revert_under_stipend: true,
            err_on_call_with_more_gas: false,
            call_l64_after_gas: true,
            empty_considered_exists: false,
            create_increase_nonce: true,
            stack_limit: 1024,
            memory_limit: usize::MAX,
            call_stack_limit: 1024,
            create_contract_limit: Some(0x6000),
            call_stipend: 2300,
            has_delegate_call: true,
            has_create2: true,
            has_revert: true,
            has_return_data: true,
            has_bitwise_shifting: true,
            has_chain_id: true,
            has_self_balance: true,
            has_ext_code_hash: true,
            estimate: false,
        }
    }

    /// The default configuration, which is Istanbul.
    pub fn default() -> (r: Config)
        ensures
            r.gas_ext_code == 700,
            r.gas_ext_code_hash == 700,
            r.gas_balance == 700,
            r.gas_sload == 800,
            r.gas_sstore_set == 20000,
            r.gas_sstore_reset == 5000,
            r.refund_sstore_clears == 15000,
            r.gas_suicide == 5000,
            r.gas_suicide_new_account == 25000,
            r.gas_call == 700,
            r.gas_expbyte == 50,
            r.gas_transaction_create == 53000,
            r.gas_transaction_call == 21000,
            r.gas_transaction_zero_data == 4,
            r.gas_transaction_non_zero_data == 16,
            r.sstore_gas_metering,
            r.sstore_revert_under_stipend,
            !r.err_on_call_with_more_gas,
            r.call_l64_after_gas,
            !r.empty_considered_exists,
            r.create_increase_nonce,
            r.stack_limit == 1024,
            r.memory_limit == usize::MAX,
            r.call_stack_limit == 1024,
            r.create_contract_limit == Some(0x6000usize),
            r.call_stipend == 2300,
            r.has_delegate_call,
            r.has_create2,
            r.has_revert,
            r.has_return_data,
            r.has_bitwise_shifting,
            r.has_chain_id,
            r.has_self_balance,
            r.has_ext_code_hash,
            !r.estimate,
    {
        Config::istanbul()
    }
}

} // verus!
