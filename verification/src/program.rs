//! Plans of register accesses, and the machine that carries a plan out one SPI transfer at a
//! time.
//!
//! The procedures of the driver are plans: writes and reads of registers and buffers, and
//! waits for a socket's status or interrupt. A `Runner` walks through a plan: each call of
//! `next` takes the bytes that the previous action read, if any, and names the next action,
//! until it answers `Done`. The reads that a plan keeps are its results.

use crate::endian::{be_bytes, decode_u16, encode_u16};
use crate::register::{
    register_of, status_of, Block, Interrupt, Register, Socket, SocketRegister, SocketStatus,
};
use vstd::prelude::*;
use vstd::slice::slice_to_vec;

verus! {

/// Reads of a socket's interrupt register before a wait for an interrupt gives up.
pub const INTERRUPT_ATTEMPTS: u32 = 0xFFFF;

/// One step of a plan.
#[derive(Clone, PartialEq, Eq, Debug)]
pub enum Instruction {
    /// Write these bytes from the address on.
    Write(Register, Vec<u8>),
    /// Write the first `n` bytes of the caller's data from the address on.
    WriteData(Register, usize),
    /// Read `n` bytes from the address on; they are kept as a result.
    Read(Register, usize),
    /// Read `n` bytes from the address on into the caller's buffer.
    ReadData(Register, usize),
    /// Read the socket's status until it is (`true`), or until it is not (`false`), the given
    /// state; yield after each read that does not end the wait.
    AwaitStatus(Socket, SocketStatus, bool),
    /// Read the socket's interrupt register until the interrupt is set, then clear it by
    /// writing its mask; yield after each read that does not show it, and give up after
    /// `INTERRUPT_ATTEMPTS` reads.
    AwaitInterrupt(Socket, Interrupt),
    /// Read a two-byte register twice in a row, again and again until both reads agree; the
    /// value read is kept as a result.
    ReadSettled(Register),
}

/// What an instruction asks for, with its bytes as a sequence.
pub enum Step {
    Write(Register, Seq<u8>),
    WriteData(Register, nat),
    Read(Register, nat),
    ReadData(Register, nat),
    AwaitStatus(Socket, SocketStatus, bool),
    AwaitInterrupt(Socket, Interrupt),
    ReadSettled(Register),
}

impl View for Instruction {
    type V = Step;

    open spec fn view(&self) -> Step {
        match self {
            Instruction::Write(r, d) => Step::Write(*r, d@),
            Instruction::WriteData(r, n) => Step::WriteData(*r, *n as nat),
            Instruction::Read(r, n) => Step::Read(*r, *n as nat),
            Instruction::ReadData(r, n) => Step::ReadData(*r, *n as nat),
            Instruction::AwaitStatus(s, t, b) => Step::AwaitStatus(*s, *t, *b),
            Instruction::AwaitInterrupt(s, i) => Step::AwaitInterrupt(*s, *i),
            Instruction::ReadSettled(r) => Step::ReadSettled(*r),
        }
    }
}

/// The steps of a plan.
pub open spec fn steps(plan: Seq<Instruction>) -> Seq<Step> {
    plan.map_values(|i: Instruction| i@)
}

/// One SPI transfer, or a pause, that a runner asks for.
#[derive(Clone, PartialEq, Eq, Debug)]
pub enum Action {
    /// Write these bytes from the address on.
    Write(Register, Vec<u8>),
    /// Write the first `n` bytes of the caller's data from the address on.
    WriteData(Register, usize),
    /// Read `n` bytes from the address on, and hand them to the next call of `next`.
    Read(Register, usize),
    /// Read `n` bytes from the address on into the caller's buffer.
    ReadData(Register, usize),
    /// Give other tasks a turn.
    Yield,
    /// The plan is carried out.
    Done,
}

/// What an action asks for, with its bytes as a sequence.
pub enum Effect {
    Write(Register, Seq<u8>),
    WriteData(Register, nat),
    Read(Register, nat),
    ReadData(Register, nat),
    Yield,
    Done,
}

impl View for Action {
    type V = Effect;

    open spec fn view(&self) -> Effect {
        match self {
            Action::Write(r, d) => Effect::Write(*r, d@),
            Action::WriteData(r, n) => Effect::WriteData(*r, *n as nat),
            Action::Read(r, n) => Effect::Read(*r, *n as nat),
            Action::ReadData(r, n) => Effect::ReadData(*r, *n as nat),
            Action::Yield => Effect::Yield,
            Action::Done => Effect::Done,
        }
    }
}

/// Byte `i` of `bytes`, or zero where `bytes` is too short.
pub open spec fn byte_at(bytes: Seq<u8>, i: int) -> u8 {
    if 0 <= i < bytes.len() {
        bytes[i]
    } else {
        0
    }
}

/// The two-byte value at `i` of `bytes`, most significant byte first; missing bytes are zero.
pub open spec fn u16_at(bytes: Seq<u8>, i: int) -> u16 {
    (byte_at(bytes, i) * 256 + byte_at(bytes, i + 1)) as u16
}

/// Byte `i` of `bytes`, or zero where `bytes` is too short.
pub fn get_byte(bytes: &[u8], i: usize) -> (b: u8)
    ensures
        b == byte_at(bytes@, i as int),
{
    if i < bytes.len() {
        bytes[i]
    } else {
        0
    }
}

/// The two-byte value at `i` of `bytes`, most significant byte first; missing bytes are zero.
pub fn get_u16(bytes: &[u8], i: usize) -> (v: u16)
    ensures
        v == u16_at(bytes@, i as int),
{
    assert(bytes@.len() <= usize::MAX) by {
        let _ = bytes.len();
    }
    let lo = if i < usize::MAX {
        get_byte(bytes, i + 1)
    } else {
        0
    };
    assert(lo == byte_at(bytes@, i + 1));
    let pair = [get_byte(bytes, i), lo];
    decode_u16(&pair)
}

/// Where a runner stands within the instruction at its position.
#[derive(Copy, Clone, PartialEq, Eq, Structural, Debug)]
pub enum Phase {
    /// No action of the instruction has been asked for yet.
    Ready,
    /// The one action of a write or read has been asked for.
    Issued,
    /// A read of the status register has been asked for.
    StatusRead,
    /// A pause has been asked for after a status read.
    StatusYield,
    /// A read of the interrupt register has been asked for; so many reads were left.
    InterruptRead(u32),
    /// A pause has been asked for after an interrupt read; so many reads were left.
    InterruptYield(u32),
    /// The write that clears the interrupt has been asked for.
    InterruptClear,
    /// The first of two reads of a settling value has been asked for.
    SettleFirst,
    /// The second read has been asked for; the first gave this value.
    SettleSecond(u16),
}

/// The state of a runner: its plan, its position, where it stands within the instruction at
/// that position, and the results kept so far.
pub struct RunnerState {
    pub plan: Seq<Step>,
    pub pc: nat,
    pub phase: Phase,
    pub results: Seq<Seq<u8>>,
}

/// The register of `socket` at `register`.
pub open spec fn socket_reg(socket: Socket, register: SocketRegister) -> Register {
    register_of(Block::Registers(socket), register.offset())
}

/// The register that the wait `step` reads.
pub open spec fn polled_register(step: Step) -> Register {
    match step {
        Step::AwaitStatus(s, _, _) => socket_reg(s, SocketRegister::Status),
        Step::AwaitInterrupt(s, _) => socket_reg(s, SocketRegister::Interrupt),
        Step::ReadSettled(r) => r,
        _ => register_of(Block::Common, 0),
    }
}

/// The runner at the start of the next instruction.
pub open spec fn advanced(st: RunnerState) -> RunnerState {
    RunnerState { pc: st.pc + 1, phase: Phase::Ready, ..st }
}

/// The first action of the instruction at the runner's position, or `Done` past the plan's end.
pub open spec fn issue(st: RunnerState) -> (RunnerState, Effect) {
    if st.pc >= st.plan.len() {
        (st, Effect::Done)
    } else {
        match st.plan[st.pc as int] {
            Step::Write(r, d) => (RunnerState { phase: Phase::Issued, ..st }, Effect::Write(r, d)),
            Step::WriteData(r, n) => (
                RunnerState { phase: Phase::Issued, ..st },
                Effect::WriteData(r, n),
            ),
            Step::Read(r, n) => (RunnerState { phase: Phase::Issued, ..st }, Effect::Read(r, n)),
            Step::ReadData(r, n) => (
                RunnerState { phase: Phase::Issued, ..st },
                Effect::ReadData(r, n),
            ),
            Step::AwaitStatus(s, _, _) => (
                RunnerState { phase: Phase::StatusRead, ..st },
                Effect::Read(socket_reg(s, SocketRegister::Status), 1),
            ),
            Step::AwaitInterrupt(s, _) => (
                RunnerState { phase: Phase::InterruptRead(INTERRUPT_ATTEMPTS), ..st },
                Effect::Read(socket_reg(s, SocketRegister::Interrupt), 1),
            ),
            Step::ReadSettled(r) => (
                RunnerState { phase: Phase::SettleFirst, ..st },
                Effect::Read(r, 2),
            ),
        }
    }
}

/// Whether the status byte `b` ends the wait `step`.
pub open spec fn status_wait_over(step: Step, b: u8) -> bool {
    match step {
        Step::AwaitStatus(_, target, until) => (status_of(b) == target) == until,
        _ => true,
    }
}

/// Whether the interrupt byte `b` shows the interrupt that `step` waits for.
pub open spec fn interrupt_seen(step: Step, b: u8) -> bool {
    match step {
        Step::AwaitInterrupt(_, i) => b & i.mask() != 0,
        _ => true,
    }
}

/// The mask of the interrupt that `step` waits for.
pub open spec fn awaited_mask(step: Step) -> u8 {
    match step {
        Step::AwaitInterrupt(_, i) => i.mask(),
        _ => 0,
    }
}

/// One turn of a runner: given the bytes that its previous action read (empty after actions
/// that read nothing), the runner's next state and the action that it asks for.
///
/// A write or read instruction asks for its one action; once that is done, a read keeps its
/// bytes as a result. A status wait reads the status register, and while the wait goes on it
/// yields and reads again. An interrupt wait reads the interrupt register; once the interrupt
/// shows it writes the mask to clear it, and otherwise it yields and reads again, up to
/// `INTERRUPT_ATTEMPTS` reads. A settling read reads twice, keeps the value when both reads
/// agree and otherwise starts over. Past the plan's end the runner answers `Done`.
pub open spec fn runner_step(st: RunnerState, reply: Seq<u8>) -> (RunnerState, Effect) {
    let step = st.plan[st.pc as int];
    match st.phase {
        Phase::Ready => issue(st),
        Phase::Issued => {
            let kept = if step is Read {
                RunnerState { results: st.results.push(reply), ..st }
            } else {
                st
            };
            issue(advanced(kept))
        },
        Phase::StatusRead => {
            if status_wait_over(step, byte_at(reply, 0)) {
                issue(advanced(st))
            } else {
                (RunnerState { phase: Phase::StatusYield, ..st }, Effect::Yield)
            }
        },
        Phase::StatusYield => (
            RunnerState { phase: Phase::StatusRead, ..st },
            Effect::Read(polled_register(step), 1),
        ),
        Phase::InterruptRead(left) => {
            if interrupt_seen(step, byte_at(reply, 0)) {
                (
                    RunnerState { phase: Phase::InterruptClear, ..st },
                    Effect::Write(polled_register(step), seq![awaited_mask(step)]),
                )
            } else {
                (RunnerState { phase: Phase::InterruptYield(left), ..st }, Effect::Yield)
            }
        },
        Phase::InterruptYield(left) => {
            if left <= 1 {
                issue(advanced(st))
            } else {
                (
                    RunnerState { phase: Phase::InterruptRead((left - 1) as u32), ..st },
                    Effect::Read(polled_register(step), 1),
                )
            }
        },
        Phase::InterruptClear => issue(advanced(st)),
        Phase::SettleFirst => (
            RunnerState { phase: Phase::SettleSecond(u16_at(reply, 0)), ..st },
            Effect::Read(polled_register(step), 2),
        ),
        Phase::SettleSecond(first) => {
            if u16_at(reply, 0) == first {
                issue(advanced(RunnerState { results: st.results.push(reply), ..st }))
            } else {
                (RunnerState { phase: Phase::SettleFirst, ..st }, Effect::Read(polled_register(step), 2))
            }
        },
    }
}

/// A runner's invariant: its position lies within the plan, past the plan's end it stands
/// ready, and where it stands within an instruction fits the kind of that instruction.
pub open spec fn runner_wf(st: RunnerState) -> bool {
    let step = st.plan[st.pc as int];
    &&& st.pc <= st.plan.len()
    &&& st.pc == st.plan.len() ==> st.phase == Phase::Ready
    &&& st.phase is Issued ==> !(step is AwaitStatus || step is AwaitInterrupt || step is ReadSettled)
    &&& (st.phase is StatusRead || st.phase is StatusYield) ==> step is AwaitStatus
    &&& (st.phase is InterruptRead || st.phase is InterruptYield || st.phase is InterruptClear)
        ==> step is AwaitInterrupt
    &&& (st.phase is SettleFirst || st.phase is SettleSecond) ==> step is ReadSettled
}

/// A runner carries its plan out in order: each turn keeps the plan, stays on the same
/// instruction or moves on to the next one, keeps at most the bytes just read as a new result,
/// and answers `Done` exactly once it is past the plan's end.
pub proof fn lemma_runner_in_order(st: RunnerState, reply: Seq<u8>)
    requires
        runner_wf(st),
    ensures
        runner_wf(runner_step(st, reply).0),
        runner_step(st, reply).0.plan == st.plan,
        runner_step(st, reply).0.pc == st.pc || runner_step(st, reply).0.pc == st.pc + 1,
        runner_step(st, reply).0.results == st.results || runner_step(st, reply).0.results
            == st.results.push(reply),
        runner_step(st, reply).1 is Done <==> runner_step(st, reply).0.pc == st.plan.len(),
{
}

/// The runner after `n` turns that each get the bytes `reply`.
pub open spec fn turns(st: RunnerState, n: nat, reply: Seq<u8>) -> RunnerState
    decreases n,
{
    if n == 0 {
        st
    } else {
        turns(runner_step(st, reply).0, (n - 1) as nat, reply)
    }
}

/// A wait for an interrupt that never shows gives up after its last read: from a read with `k`
/// reads left, answered each time by a byte with the interrupt's bit clear, the runner stays on
/// the wait for fewer than `2 * k` turns (a read and a pause per attempt) and is past it after
/// `2 * k` turns.
pub proof fn lemma_interrupt_wait_gives_up(st: RunnerState, k: u32, reply: Seq<u8>, n: nat)
    requires
        runner_wf(st),
        st.phase == Phase::InterruptRead(k),
        k >= 1,
        !interrupt_seen(st.plan[st.pc as int], byte_at(reply, 0)),
    ensures
        n < 2 * k ==> turns(st, n, reply).pc == st.pc,
        n == 2 * k ==> turns(st, n, reply).pc == st.pc + 1,
    decreases k,
{
    let st1 = runner_step(st, reply).0;
    let st2 = runner_step(st1, reply).0;
    assert(st1.phase == Phase::InterruptYield(k) && st1.pc == st.pc);
    if n == 0 {
    } else if n == 1 {
        assert(turns(st1, 0, reply) == st1);
    } else {
        assert(turns(st, n, reply) == turns(st2, (n - 2) as nat, reply)) by {
            assert(turns(st, n, reply) == turns(st1, (n - 1) as nat, reply));
            assert(turns(st1, (n - 1) as nat, reply) == turns(st2, (n - 2) as nat, reply));
        }
        if k == 1 {
            assert(st2.pc == st.pc + 1);
            assert(n == 2 ==> turns(st2, 0, reply) == st2);
        } else {
            assert(st2.phase == Phase::InterruptRead((k - 1) as u32) && st2.pc == st.pc);
            lemma_interrupt_wait_gives_up(st2, (k - 1) as u32, reply, (n - 2) as nat);
        }
    }
}

/// A plan and where a runner stands in it.
struct Cursor {
    plan: Vec<Instruction>,
    pc: usize,
    phase: Phase,
}

impl Cursor {
    /// The runner's invariant, as `runner_wf` states it.
    #[verifier::type_invariant]
    spec fn inv(self) -> bool {
        runner_wf(
            RunnerState {
                plan: steps(self.plan@),
                pc: self.pc as nat,
                phase: self.phase,
                results: seq![],
            },
        )
    }
}

/// Carries out a plan, one action at a time.
pub struct Runner {
    cursor: Cursor,
    results: Vec<Vec<u8>>,
}

impl View for Runner {
    type V = RunnerState;

    closed spec fn view(&self) -> RunnerState {
        RunnerState {
            plan: steps(self.cursor.plan@),
            pc: self.cursor.pc as nat,
            phase: self.cursor.phase,
            results: self.results@.map_values(|r: Vec<u8>| r@),
        }
    }
}

impl Runner {

    /// A runner at the start of `plan`.
    pub fn new(plan: Vec<Instruction>) -> (runner: Runner)
        ensures
            runner@ == (RunnerState {
                plan: steps(plan@),
                pc: 0,
                phase: Phase::Ready,
                results: seq![],
            }),
    {
        let runner = Runner { cursor: Cursor { plan, pc: 0, phase: Phase::Ready }, results: Vec::new() };
        assert(runner@.results =~= seq![]);
        runner
    }

    /// The reads that the plan has kept so far, in the order of the plan.
    pub fn results(&self) -> (results: &Vec<Vec<u8>>)
        ensures
            results@.map_values(|r: Vec<u8>| r@) == self@.results,
    {
        &self.results
    }

    /// The reads that the plan has kept, in the order of the plan.
    pub fn into_results(self) -> (results: Vec<Vec<u8>>)
        ensures
            results@.map_values(|r: Vec<u8>| r@) == self@.results,
    {
        self.results
    }

    /// Hands the runner the bytes that its previous action read (empty after actions that read
    /// nothing), and takes the next action of the plan, as `runner_step` describes.
    pub fn next(&mut self, reply: &[u8]) -> (action: Action)
        ensures
            (final(self)@, action@) == runner_step(old(self)@, reply@),
    {
        proof {
            use_type_invariant(&self.cursor);
        }
        let ghost st = self@;
        assert(self@.plan.len() == self.cursor.plan@.len());
        assert(self.cursor.phase != Phase::Ready ==> self.cursor.pc < self.cursor.plan.len());
        match self.cursor.phase {
            Phase::Ready => self.issue(),
            Phase::Issued => {
                let keeps = match &self.cursor.plan[self.cursor.pc] {
                    Instruction::Read(_, _) => true,
                    _ => false,
                };
                if keeps {
                    self.results.push(slice_to_vec(reply));
                }
                self.cursor.phase = Phase::Ready;
                self.cursor.pc = self.cursor.pc + 1;
                proof {
                    assert(st.plan[st.pc as int] == self.cursor.plan@[st.pc as int]@);
                    let kept = if st.plan[st.pc as int] is Read {
                        RunnerState { results: st.results.push(reply@), ..st }
                    } else {
                        st
                    };
                    assert(self@.results =~= kept.results);
                    assert(self@ == advanced(kept));
                }
                self.issue()
            },
            Phase::StatusRead => {
                let over = match &self.cursor.plan[self.cursor.pc] {
                    Instruction::AwaitStatus(_, target, until) => {
                        let status = SocketStatus::from_u8(get_byte(reply, 0));
                        (status == *target) == *until
                    },
                    _ => true,
                };
                proof {
                    assert(st.plan[st.pc as int] == self.cursor.plan@[st.pc as int]@);
                }
                if over {
                    self.cursor.phase = Phase::Ready;
                    self.cursor.pc = self.cursor.pc + 1;
                    assert(self@ == advanced(st));
                    self.issue()
                } else {
                    self.cursor.phase = Phase::StatusYield;
                    Action::Yield
                }
            },
            Phase::StatusYield => {
                let r = self.polled_register();
                self.cursor.phase = Phase::StatusRead;
                Action::Read(r, 1)
            },
            Phase::InterruptRead(left) => {
                let mask = self.awaited_mask();
                if get_byte(reply, 0) & mask != 0 {
                    let r = self.polled_register();
                    self.cursor.phase = Phase::InterruptClear;
                    proof {
                        assert(st.plan[st.pc as int] == self.cursor.plan@[st.pc as int]@);
                    }
                    let mut clear = Vec::new();
                    clear.push(mask);
                    assert(clear@ =~= seq![mask]);
                    Action::Write(r, clear)
                } else {
                    self.cursor.phase = Phase::InterruptYield(left);
                    proof {
                        assert(st.plan[st.pc as int] == self.cursor.plan@[st.pc as int]@);
                    }
                    Action::Yield
                }
            },
            Phase::InterruptYield(left) => {
                if left <= 1 {
                    self.cursor.phase = Phase::Ready;
                    self.cursor.pc = self.cursor.pc + 1;
                    assert(self@ == advanced(st));
                    self.issue()
                } else {
                    let r = self.polled_register();
                    self.cursor.phase = Phase::InterruptRead(left - 1);
                    Action::Read(r, 1)
                }
            },
            Phase::InterruptClear => {
                self.cursor.phase = Phase::Ready;
                self.cursor.pc = self.cursor.pc + 1;
                assert(self@ == advanced(st));
                self.issue()
            },
            Phase::SettleFirst => {
                let r = self.polled_register();
                self.cursor.phase = Phase::SettleSecond(get_u16(reply, 0));
                Action::Read(r, 2)
            },
            Phase::SettleSecond(first) => {
                let r = self.polled_register();
                if get_u16(reply, 0) == first {
                    self.results.push(slice_to_vec(reply));
                    self.cursor.phase = Phase::Ready;
                    self.cursor.pc = self.cursor.pc + 1;
                    proof {
                        assert(self@.results =~= st.results.push(reply@));
                    }
                    self.issue()
                } else {
                    self.cursor.phase = Phase::SettleFirst;
                    Action::Read(r, 2)
                }
            },
        }
    }

    /// The register that the wait at the runner's position reads.
    fn polled_register(&self) -> (r: Register)
        requires
            self@.pc < self@.plan.len(),
        ensures
            r == polled_register(self@.plan[self@.pc as int]),
    {
        proof {
            assert(self@.plan[self@.pc as int] == self.cursor.plan@[self@.pc as int]@);
        }
        match &self.cursor.plan[self.cursor.pc] {
            Instruction::AwaitStatus(s, _, _) => s.at(SocketRegister::Status),
            Instruction::AwaitInterrupt(s, _) => s.at(SocketRegister::Interrupt),
            Instruction::ReadSettled(r) => *r,
            _ => Register::CommonRegister(0),
        }
    }

    /// The mask of the interrupt that the wait at the runner's position waits for.
    fn awaited_mask(&self) -> (m: u8)
        requires
            self@.pc < self@.plan.len(),
        ensures
            m == awaited_mask(self@.plan[self@.pc as int]),
    {
        proof {
            assert(self@.plan[self@.pc as int] == self.cursor.plan@[self@.pc as int]@);
        }
        match &self.cursor.plan[self.cursor.pc] {
            Instruction::AwaitInterrupt(_, i) => i.value(),
            _ => 0,
        }
    }

    fn issue(&mut self) -> (action: Action)
        requires
            old(self)@.phase == Phase::Ready,
        ensures
            (final(self)@, action@) == issue(old(self)@),
    {
        proof {
            use_type_invariant(&self.cursor);
        }
        if self.cursor.pc >= self.cursor.plan.len() {
            return Action::Done;
        }
        let ghost st = self@;
        assert(st.plan[self.cursor.pc as int] == self.cursor.plan@[self.cursor.pc as int]@);
        match &self.cursor.plan[self.cursor.pc] {
            Instruction::Write(r, d) => {
                let data = slice_to_vec(d.as_slice());
                let r = *r;
                self.cursor.phase = Phase::Issued;
                Action::Write(r, data)
            },
            Instruction::WriteData(r, n) => {
                let (r, n) = (*r, *n);
                self.cursor.phase = Phase::Issued;
                Action::WriteData(r, n)
            },
            Instruction::Read(r, n) => {
                let (r, n) = (*r, *n);
                self.cursor.phase = Phase::Issued;
                Action::Read(r, n)
            },
            Instruction::ReadData(r, n) => {
                let (r, n) = (*r, *n);
                self.cursor.phase = Phase::Issued;
                Action::ReadData(r, n)
            },
            Instruction::AwaitStatus(s, _, _) => {
                let r = s.at(SocketRegister::Status);
                self.cursor.phase = Phase::StatusRead;
                Action::Read(r, 1)
            },
            Instruction::AwaitInterrupt(s, _) => {
                let r = s.at(SocketRegister::Interrupt);
                self.cursor.phase = Phase::InterruptRead(INTERRUPT_ATTEMPTS);
                Action::Read(r, 1)
            },
            Instruction::ReadSettled(r) => {
                let r = *r;
                self.cursor.phase = Phase::SettleFirst;
                Action::Read(r, 2)
            },
        }
    }
}

/// The reads that a plan kept, as sequences of bytes.
pub open spec fn reads(results: Seq<Vec<u8>>) -> Seq<Seq<u8>> {
    results.map_values(|r: Vec<u8>| r@)
}

/// Read `i` of `reads`, or no bytes where there is no such read.
pub open spec fn read_at(reads: Seq<Seq<u8>>, i: int) -> Seq<u8> {
    if 0 <= i < reads.len() {
        reads[i]
    } else {
        Seq::empty()
    }
}

/// Read `i` of `results`, or no bytes where there is no such read.
pub fn get_read(results: &Vec<Vec<u8>>, i: usize) -> (bytes: &[u8])
    ensures
        bytes@ == read_at(reads(results@), i as int),
{
    if i < results.len() {
        results[i].as_slice()
    } else {
        &[]
    }
}

/// What a multi-stage procedure asks for next: to run a plan and hand back its results, or
/// nothing more, with its outcome.
#[derive(Clone, PartialEq, Eq, Debug)]
pub enum Stage<R> {
    Run(Vec<Instruction>),
    Finished(R),
}

/// A stage with its plan as steps.
pub enum StageView<R> {
    Run(Seq<Step>),
    Finished(R),
}

impl<R> View for Stage<R> {
    type V = StageView<R>;

    open spec fn view(&self) -> StageView<R> {
        match self {
            Stage::Run(plan) => StageView::Run(steps(plan@)),
            Stage::Finished(r) => StageView::Finished(*r),
        }
    }
}

/// A write of `bytes` to the register of `socket` at `register`.
pub open spec fn write_reg(socket: Socket, register: SocketRegister, bytes: Seq<u8>) -> Step {
    Step::Write(socket_reg(socket, register), bytes)
}

/// A read of `n` bytes from the register of `socket` at `register` on.
pub open spec fn read_reg(socket: Socket, register: SocketRegister, n: nat) -> Step {
    Step::Read(socket_reg(socket, register), n)
}

/// A write of `bytes` to the register of `socket` at `register`.
pub fn write_socket(socket: Socket, register: SocketRegister, bytes: Vec<u8>) -> (i: Instruction)
    ensures
        i@ == write_reg(socket, register, bytes@),
{
    Instruction::Write(socket.at(register), bytes)
}

/// A write of one byte to the register of `socket` at `register`.
pub fn write_socket_byte(socket: Socket, register: SocketRegister, b: u8) -> (i: Instruction)
    ensures
        i@ == write_reg(socket, register, seq![b]),
{
    let bytes = vec![b];
    assert(bytes@ =~= seq![b]);
    Instruction::Write(socket.at(register), bytes)
}

/// A write of two bytes to the register of `socket` at `register`.
pub fn write_socket_pair(socket: Socket, register: SocketRegister, a: u8, b: u8) -> (i: Instruction)
    ensures
        i@ == write_reg(socket, register, seq![a, b]),
{
    let bytes = vec![a, b];
    assert(bytes@ =~= seq![a, b]);
    Instruction::Write(socket.at(register), bytes)
}

/// A write of a two-byte value, most significant byte first, to the register of `socket` at
/// `register`.
pub fn write_socket_u16(socket: Socket, register: SocketRegister, value: u16) -> (i: Instruction)
    ensures
        i@ == write_reg(socket, register, be_bytes(value)),
{
    let bytes = encode_u16(value);
    write_socket_pair(socket, register, bytes[0], bytes[1])
}

/// A read of `n` bytes from the register of `socket` at `register` on.
pub fn read_socket(socket: Socket, register: SocketRegister, n: usize) -> (i: Instruction)
    ensures
        i@ == read_reg(socket, register, n as nat),
{
    Instruction::Read(socket.at(register), n)
}

/// The register that `step` writes, reads or polls.
pub open spec fn step_register(step: Step) -> Register {
    match step {
        Step::Write(r, _) => r,
        Step::WriteData(r, _) => r,
        Step::Read(r, _) => r,
        Step::ReadData(r, _) => r,
        Step::AwaitStatus(s, _, _) => socket_reg(s, SocketRegister::Status),
        Step::AwaitInterrupt(s, _) => socket_reg(s, SocketRegister::Interrupt),
        Step::ReadSettled(r) => r,
    }
}

/// Whether `register` lies in one of the blocks of `socket`: its registers, its transmit
/// buffer or its receive buffer.
pub open spec fn owned_by(register: Register, socket: Socket) -> bool {
    let b = register.block();
    b == Block::Registers(socket) || b == Block::TxBuffer(socket) || b == Block::RxBuffer(socket)
}

/// Whether every step of `plan` stays within the blocks of `socket`.
pub open spec fn confined(plan: Seq<Step>, socket: Socket) -> bool {
    forall|i: int| 0 <= i < plan.len() ==> #[trigger] owned_by(step_register(plan[i]), socket)
}

/// Whether the plan of `stage`, if it has one, stays within the blocks of `socket`.
pub open spec fn stage_confined<R>(stage: StageView<R>, socket: Socket) -> bool {
    match stage {
        StageView::Run(plan) => confined(plan, socket),
        StageView::Finished(_) => true,
    }
}

} // verus!
