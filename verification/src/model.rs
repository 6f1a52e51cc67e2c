//! A model of the stopped child, and what the engine does to it.
//!
//! The engine never sees the child; it sees answers. To say what its steps
//! achieve, this module describes the child as far as the debugger reads and
//! writes it, lets that description answer the requests, and proves what
//! holds of it afterwards.

use vstd::prelude::*;
use crate::breakpoint::{high_bytes, low_byte, spec_trap_word, TRAP_OPCODE};
use crate::dbg::{DbgInfo, Running, State, ZDbg};
use crate::host::{ChildStatus, Event, Fault, Notice, Op, Request};
use crate::registers::Registers;
use crate::task::{
    ask, begin_install, begin_motion, finish_install, running, step, told, After, Motion, Next,
    Phase, Task, Turn,
};

verus! {

/// A stopped child: the word that a read returns at each address, and the
/// register file. Only reads and writes at one and the same address are
/// related; words that overlap are not modelled.
pub struct Tracee {
    pub mem: Map<u64, u64>,
    pub regs: Registers,
}

impl Tracee {
    /// The answer of the stopped child to an operation that leaves it
    /// stopped; `None` for one that lets it run, or waits for it.
    pub open spec fn answer(self, op: Op) -> Option<Event> {
        match op {
            Op::Peek { addr } => Some(Event::Word { word: self.mem[addr] }),
            Op::Poke { .. } => Some(Event::Done),
            Op::GetRegs => Some(Event::Regs { regs: self.regs }),
            Op::SetRegs { .. } => Some(Event::Done),
            _ => None,
        }
    }

    /// The child after an operation that leaves it stopped.
    pub open spec fn after(self, op: Op) -> Tracee {
        match op {
            Op::Poke { addr, word } => Tracee { mem: self.mem.insert(addr, word), ..self },
            Op::SetRegs { regs } => Tracee { regs, ..self },
            _ => self,
        }
    }
}

/// Lets the stopped child answer the request that `turn` makes and takes the
/// step that follows. A turn that is settled, or whose request lets the child
/// run, stays as it is.
pub open spec fn serve(turn: Turn, child: Tracee) -> (Result<Turn, Fault>, Tracee) {
    match turn.next {
        Next::Pending(task, Request::Trace { pid, op }) => match child.answer(op) {
            Some(event) => (step(task, event), child.after(op)),
            None => (Ok(turn), child),
        },
        _ => (Ok(turn), child),
    }
}

/// [`serve`], `n` times over.
pub open spec fn serve_n(turn: Turn, child: Tracee, n: nat) -> (Result<Turn, Fault>, Tracee)
    decreases n,
{
    if n == 0 {
        (Ok(turn), child)
    } else {
        match serve(turn, child) {
            (Ok(next), child) => serve_n(next, child, (n - 1) as nat),
            (Err(e), child) => (Err(e), child),
        }
    }
}

/// Installing a breakpoint takes two operations. After them the word at the
/// breakpoint holds the trap opcode in its lowest-order byte and is unchanged
/// in its other bytes, the record holds the word as it was, and the command
/// goes on as it does once the trap is in place.
pub proof fn install_writes_trap(info: DbgInfo, addr: u64, after: After, child: Tracee)
    ensures
        ({
            let (turn, patched) = serve_n(begin_install(info, addr, after), child, 2);
            &&& turn == Ok::<Turn, Fault>(
                finish_install(DbgInfo { brk_val: child.mem[addr], ..info }, after),
            )
            &&& low_byte(patched.mem[addr]) == TRAP_OPCODE
            &&& high_bytes(patched.mem[addr]) == high_bytes(child.mem[addr])
            &&& patched.regs == child.regs
        }),
{
    reveal_with_fuel(serve_n, 3);
}

/// A child that stops one byte past the breakpoint has executed the trap.
/// When the stop has been dealt with, the command is over, the debugger has
/// reported the breakpoint address as the place of the stop, the
/// instruction pointer of the child stands on the breakpoint and on nothing
/// else has a register changed, and the word at the breakpoint is the
/// original one that the record holds.
pub proof fn trap_stop_is_repaired(info: DbgInfo, addr: u64, child: Tracee)
    requires
        info.brk_addr == Some(addr),
        child.regs.rip == addr + 1,
    ensures
        step(Task { info, phase: Phase::Awaiting }, Event::Status { status: ChildStatus::Stopped })
            == Ok::<Turn, Fault>(ask(info, Phase::Inspecting, Op::GetRegs)),
        ({
            let (turn, repaired) = serve_n(ask(info, Phase::Inspecting, Op::GetRegs), child, 3);
            &&& turn == Ok::<Turn, Fault>(told(Notice::Stopped { pc: addr }, running(info)))
            &&& repaired.regs == child.regs.spec_with_rip(addr)
            &&& repaired.mem[addr] == info.brk_val
        }),
{
    reveal_with_fuel(serve_n, 4);
}

/// A stop anywhere else changes nothing in the child, and its instruction
/// pointer is reported as it is.
pub proof fn other_stop_is_left_alone(info: DbgInfo, child: Tracee)
    requires
        info.brk_addr matches Some(addr) ==> child.regs.rip != addr + 1,
    ensures
        serve(ask(info, Phase::Inspecting, Op::GetRegs), child) == (
            Ok::<Turn, Fault>(told(Notice::Stopped { pc: child.regs.rip }, running(info))),
            child,
        ),
{
}

/// `continue` with the child standing on the breakpoint. First the original
/// word is written back, and the one request that follows is a single step.
/// The step is followed by a wait. When that reports a stop, the trap is
/// written again into the child as the step has left it, and only then is
/// the child asked to run freely. So exactly one instruction of the target is
/// executed while the trap is absent.
pub proof fn continue_steps_over_breakpoint(
    info: DbgInfo,
    addr: u64,
    child: Tracee,
    stepped: Tracee,
)
    requires
        info.brk_addr == Some(addr),
        child.regs.rip == addr,
    ensures
        ({
            let (turn, restored) = serve_n(begin_motion(info, Motion::Continue), child, 2);
            &&& turn == Ok::<Turn, Fault>(
                ask(info, Phase::StepOver { addr, motion: Motion::Continue }, Op::Step),
            )
            &&& restored.mem[addr] == info.brk_val
            &&& restored.regs == child.regs
        }),
        step(Task { info, phase: Phase::StepOver { addr, motion: Motion::Continue } }, Event::Done)
            == Ok::<Turn, Fault>(
            ask(info, Phase::StepOverWait { addr, motion: Motion::Continue }, Op::Wait),
        ),
        ({
            let waited = step(
                Task { info, phase: Phase::StepOverWait { addr, motion: Motion::Continue } },
                Event::Status { status: ChildStatus::Stopped },
            );
            let (turn, armed) = serve_n(waited->Ok_0, stepped, 2);
            &&& waited is Ok
            &&& turn == Ok::<Turn, Fault>(
                ask(DbgInfo { brk_val: stepped.mem[addr], ..info }, Phase::Resuming, Op::Resume),
            )
            &&& armed.mem[addr] == spec_trap_word(stepped.mem[addr])
            &&& armed.regs == stepped.regs
        }),
{
    reveal_with_fuel(serve_n, 3);
}

/// `stepi` with the child standing on the breakpoint does the same, and then
/// stops: the child is not asked to run.
pub proof fn stepi_steps_over_breakpoint(info: DbgInfo, addr: u64, child: Tracee, stepped: Tracee)
    requires
        info.brk_addr == Some(addr),
        child.regs.rip == addr,
    ensures
        ({
            let (turn, restored) = serve_n(begin_motion(info, Motion::Stepi), child, 2);
            &&& turn == Ok::<Turn, Fault>(
                ask(info, Phase::StepOver { addr, motion: Motion::Stepi }, Op::Step),
            )
            &&& restored.mem[addr] == info.brk_val
        }),
        ({
            let waited = step(
                Task { info, phase: Phase::StepOverWait { addr, motion: Motion::Stepi } },
                Event::Status { status: ChildStatus::Stopped },
            );
            let (turn, armed) = serve_n(waited->Ok_0, stepped, 2);
            &&& waited is Ok
            &&& turn == Ok::<Turn, Fault>(
                crate::task::settled(running(DbgInfo { brk_val: stepped.mem[addr], ..info })),
            )
            &&& armed.mem[addr] == spec_trap_word(stepped.mem[addr])
        }),
{
    reveal_with_fuel(serve_n, 3);
}

impl Tracee {
    /// The word at `addr` is `original`: no trap is in place.
    pub open spec fn absent(self, addr: u64, original: u64) -> bool {
        self.mem[addr] == original
    }

    /// The word at `addr` is `original` with the trap over its lowest-order
    /// byte.
    pub open spec fn present(self, addr: u64, original: u64) -> bool {
        self.mem[addr] == spec_trap_word(original)
    }

    /// `event` is a true answer of this child to `op`, and `then` is the
    /// child after it. A read tells what is there; a write changes what it
    /// names and nothing else; setting the child in motion returns at once;
    /// by the time a wait returns, the child may have done anything, except
    /// that a program does not write over its own instruction at `code`.
    pub open spec fn answers(self, op: Op, event: Event, then: Tracee, code: u64) -> bool {
        match op {
            Op::Peek { addr } => event == Event::Word { word: self.mem[addr] } && then == self,
            Op::Poke { .. } | Op::SetRegs { .. } => event == Event::Done && then == self.after(op),
            Op::GetRegs => event == Event::Regs { regs: self.regs } && then == self,
            Op::Step | Op::Resume | Op::Kill => event == Event::Done && then == self,
            Op::Wait => event is Status && then.mem[code] == self.mem[code],
        }
    }
}

/// The record and the stopped child agree between two commands: the record
/// holds the original word, and the trap is in place, unless the child
/// stands on the breakpoint with the original word back.
pub open spec fn at_rest(info: DbgInfo, child: Tracee, original: u64) -> bool {
    info.brk_addr matches Some(addr) ==> {
        &&& info.brk_val == original
        &&& child.present(addr, original) || (child.absent(addr, original) && child.regs.rip
            == addr)
    }
}

/// The record and the child agree in the middle of a command. What the
/// phase is about to do fits what is in the child's memory: the trap is not
/// written over a trap, the child does not run freely without the trap, and
/// the instruction under the trap is executed with the original word in
/// place.
pub open spec fn in_step(task: Task, child: Tracee, original: u64) -> bool {
    let info = task.info;
    task.consistent() && (info.brk_addr matches Some(addr) ==> match task.phase {
        Phase::Spawning | Phase::Killing | Phase::Reaping => true,
        Phase::FirstStop { .. } | Phase::InstallRead { .. } => child.absent(addr, original),
        Phase::InstallWrite { word, .. } => child.absent(addr, original) && word == original,
        Phase::Probe { .. } | Phase::ReadingRegs => at_rest(info, child, original),
        Phase::Restoring { .. } => info.brk_val == original,
        Phase::StepOver { .. } | Phase::StepOverWait { .. } => {
            info.brk_val == original && child.absent(addr, original)
        },
        Phase::Resuming | Phase::Stepping | Phase::Awaiting | Phase::Inspecting
        | Phase::Rewinding { .. } => info.brk_val == original && child.present(addr, original),
        Phase::Disarming { .. } => info.brk_val == original && child.regs.rip == addr,
    })
}

/// The record and the child agree at the end of a step.
pub open spec fn in_order(turn: Turn, child: Tracee, original: u64) -> bool {
    match turn.next {
        Next::Settled(State::Running(dbg)) => at_rest(dbg.info, child, original),
        Next::Settled(_) => true,
        Next::Pending(task, _) => turn.consistent() && in_step(task, child, original),
    }
}

/// A command on a debugger at rest begins in order. A breakpoint that
/// `break` registers on a stopped child finds the original word in place.
pub proof fn commands_begin_in_order(
    dbg: ZDbg<Running>,
    tokens: Seq<Seq<char>>,
    child: Tracee,
    original: u64,
)
    requires
        at_rest(dbg.info, child, original),
        dbg.info.brk_addr is None ==> (dbg.info.registration(tokens) matches Ok(addr)
            ==> child.absent(addr, original)),
    ensures
        in_order(dbg.spec_do_cmd(tokens), child, original),
{
}

/// A new child that comes to its first stop with the original word in place
/// is taken up in order.
pub proof fn launch_begins_in_order(info: DbgInfo, pid: i32, child: Tracee, original: u64)
    requires
        info.brk_addr matches Some(addr) ==> child.absent(addr, original),
    ensures
        step(Task { info, phase: Phase::Spawning }, Event::Spawned { pid }) matches Ok(turn)
            && in_order(turn, child, original),
{
}

/// Every step keeps the order. So, from a launch on: the trap is written
/// over the original word only; while the child runs freely the trap is in
/// place; while the instruction under the trap is executed the original word
/// is; and when a command is done, the debugger is at rest.
pub proof fn steps_keep_order(
    task: Task,
    pid: i32,
    op: Op,
    child: Tracee,
    original: u64,
    event: Event,
    then: Tracee,
)
    requires
        in_order(
            Turn { notice: None, next: Next::Pending(task, Request::Trace { pid, op }) },
            child,
            original,
        ),
        task.info.brk_addr matches Some(addr) ==> child.answers(op, event, then, addr),
        step(task, event) is Ok,
    ensures
        in_order(step(task, event)->Ok_0, then, original),
{
}

} // verus!
