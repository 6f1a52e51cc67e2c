//! A command in progress: the steps it takes between two prompts.
//!
//! A command that touches the child cannot finish in one step: the engine
//! asks for one operation, the caller performs it, and [`Task::resume`]
//! decides from the answer what comes next.

use vstd::prelude::*;
use crate::breakpoint::{spec_trap_word, trap_word};
use crate::dbg::{DbgInfo, NotRunning, Running, State, ZDbg};
use crate::host::{ChildStatus, DbgError, Event, Fault, Notice, Op, Request};
use crate::registers::Registers;

verus! {

/// How the child is set in motion.
#[derive(Clone, Copy, Debug, PartialEq, Eq, Structural)]
pub enum Motion {
    /// Run freely.
    Continue,
    /// Execute one machine instruction.
    Stepi,
}

/// What follows once the trap has been written.
#[derive(Clone, Copy, Debug, PartialEq, Eq, Structural)]
pub enum After {
    /// `break` on a stopped child: nothing.
    Break,
    /// `run`: the child is set running.
    Launch,
    /// The instruction under the trap has been executed; the motion that was
    /// asked for goes on.
    StepOver { motion: Motion },
}

/// Where a command stands: which answer it waits for.
#[derive(Clone, Copy, Debug, PartialEq, Eq, Structural)]
pub enum Phase {
    /// The fork was asked for.
    Spawning,
    /// The first state change of the new child `child` is waited for.
    FirstStop { child: i32 },
    /// Installing: the word at `addr` is being read.
    InstallRead { addr: u64, after: After },
    /// Installing: the trap word is being written over `word` at `addr`.
    InstallWrite { addr: u64, word: u64, after: After },
    /// The instruction pointer is being read, to see whether the child stands
    /// at the breakpoint.
    Probe { motion: Motion },
    /// Stepping over: the original word is being written back to `addr`.
    Restoring { addr: u64, motion: Motion },
    /// Stepping over: the one instruction is being executed.
    StepOver { addr: u64, motion: Motion },
    /// Stepping over: the stop after that instruction is waited for.
    StepOverWait { addr: u64, motion: Motion },
    /// The child is being resumed.
    Resuming,
    /// The child is being single-stepped.
    Stepping,
    /// The next stop or the termination of the child is waited for.
    Awaiting,
    /// The child stopped; its registers are being read.
    Inspecting,
    /// The trap at `addr` was hit; the instruction pointer is being set back.
    Rewinding { addr: u64 },
    /// The trap at `addr` was hit; the original word is being written back.
    Disarming { addr: u64 },
    /// The registers are being read for display.
    ReadingRegs,
    /// The kill signal is being sent.
    Killing,
    /// The termination of the killed child is waited for.
    Reaping,
}

/// A command in progress.
#[derive(Debug)]
pub struct Task {
    pub info: DbgInfo,
    pub phase: Phase,
}

/// How a step ended.
#[derive(Debug)]
pub enum Next {
    /// The command is done; the debugger is in this state.
    Settled(State),
    /// The caller performs the request and resumes the task with the answer.
    Pending(Task, Request),
}

/// The result of one step: what to tell the user, and how to go on.
#[derive(Debug)]
pub struct Turn {
    pub notice: Option<Notice>,
    pub next: Next,
}

impl Task {
    /// The address that the phase works on, where it works on one, is that
    /// of the registered breakpoint.
    pub open spec fn consistent(self) -> bool {
        match self.phase {
            Phase::InstallRead { addr, .. }
            | Phase::InstallWrite { addr, .. }
            | Phase::Restoring { addr, .. }
            | Phase::StepOver { addr, .. }
            | Phase::StepOverWait { addr, .. }
            | Phase::Rewinding { addr }
            | Phase::Disarming { addr } => self.info.brk_addr == Some(addr),
            _ => true,
        }
    }

    /// `op` is the operation whose answer the phase waits for.
    pub open spec fn awaits(self, op: Op) -> bool {
        match self.phase {
            Phase::Spawning => false,
            Phase::FirstStop { .. } => op == Op::Wait,
            Phase::InstallRead { addr, .. } => op == Op::Peek { addr },
            Phase::InstallWrite { addr, word, .. } => op == Op::Poke {
                addr,
                word: spec_trap_word(word),
            },
            Phase::Probe { .. } => op == Op::GetRegs,
            Phase::Restoring { addr, .. } => op == Op::Poke { addr, word: self.info.brk_val },
            Phase::StepOver { .. } => op == Op::Step,
            Phase::StepOverWait { .. } => op == Op::Wait,
            Phase::Resuming => op == Op::Resume,
            Phase::Stepping => op == Op::Step,
            Phase::Awaiting => op == Op::Wait,
            Phase::Inspecting => op == Op::GetRegs,
            Phase::Rewinding { addr } => op matches Op::SetRegs { regs } && regs.rip == addr,
            Phase::Disarming { addr } => op == Op::Poke { addr, word: self.info.brk_val },
            Phase::ReadingRegs => op == Op::GetRegs,
            Phase::Killing => op == Op::Kill,
            Phase::Reaping => op == Op::Wait,
        }
    }

    /// The process that the phase works on: the new child while its first
    /// stop is waited for, else the traced child of the record.
    pub open spec fn subject(self) -> i32 {
        match self.phase {
            Phase::FirstStop { child } => child,
            _ => self.info.pid,
        }
    }
}

impl Phase {
    /// The most answers that the command can still need before it is done,
    /// this one included. `exit` has no such bound: it kills until the child
    /// is gone.
    pub open spec fn steps_left(self) -> nat {
        match self {
            Phase::Spawning => 15,
            Phase::FirstStop { .. } => 14,
            Phase::InstallRead { after: After::Launch, .. } => 13,
            Phase::InstallWrite { after: After::Launch, .. } => 12,
            Phase::Probe { motion: Motion::Continue } => 11,
            Phase::Restoring { motion: Motion::Continue, .. } => 10,
            Phase::StepOver { motion: Motion::Continue, .. } => 9,
            Phase::StepOverWait { motion: Motion::Continue, .. } => 8,
            Phase::InstallRead { after: After::StepOver { motion: Motion::Continue }, .. } => 7,
            Phase::InstallWrite { after: After::StepOver { motion: Motion::Continue }, .. } => 6,
            Phase::Probe { motion: Motion::Stepi } => 6,
            Phase::Restoring { motion: Motion::Stepi, .. } => 5,
            Phase::StepOver { motion: Motion::Stepi, .. } => 4,
            Phase::StepOverWait { motion: Motion::Stepi, .. } => 3,
            Phase::InstallRead { .. } => 2,
            Phase::InstallWrite { .. } => 1,
            Phase::Resuming => 5,
            Phase::Stepping => 5,
            Phase::Awaiting => 4,
            Phase::Inspecting => 3,
            Phase::Rewinding { .. } => 2,
            Phase::Disarming { .. } => 1,
            Phase::ReadingRegs => 1,
            Phase::Killing => 0,
            Phase::Reaping => 0,
        }
    }
}

impl Turn {
    /// The most answers that the command can still need.
    pub open spec fn steps_left(self) -> nat {
        match self.next {
            Next::Pending(task, _) => task.phase.steps_left(),
            Next::Settled(_) => 0,
        }
    }

    /// The record that the turn carries on, unless the session is over.
    pub open spec fn info(self) -> Option<DbgInfo> {
        match self.next {
            Next::Settled(State::Running(dbg)) => Some(dbg.info),
            Next::Settled(State::NotRunning(dbg)) => Some(dbg.info),
            Next::Settled(State::Exit) => None,
            Next::Pending(task, _) => Some(task.info),
        }
    }

    /// The task that the turn leaves pending, if any, is consistent, and
    /// the request is the one whose answer its phase waits for.
    pub open spec fn consistent(self) -> bool {
        match self.next {
            Next::Settled(_) => true,
            Next::Pending(task, Request::Spawn { .. }) => task.phase == Phase::Spawning,
            Next::Pending(task, Request::Trace { pid, op }) => {
                &&& task.consistent()
                &&& task.awaits(op)
                &&& pid == task.subject()
            },
        }
    }
}

/// The child is at a trap-induced stop: it has just executed the one-byte
/// trap instruction at `addr`.
pub open spec fn trap_hit(brk_addr: Option<u64>, regs: Registers) -> bool {
    brk_addr matches Some(addr) && regs.rip as int - 1 == addr as int
}

/// The debugger with a running child.
pub open spec fn running(info: DbgInfo) -> State {
    State::Running(ZDbg { info, _state: Running })
}

/// The debugger without a child.
pub open spec fn not_running(info: DbgInfo) -> State {
    State::NotRunning(ZDbg { info, _state: NotRunning })
}

/// A step that ends the command without a word to the user.
pub open spec fn settled(state: State) -> Turn {
    Turn { notice: None, next: Next::Settled(state) }
}

/// A step that ends the command with a notice.
pub open spec fn told(notice: Notice, state: State) -> Turn {
    Turn { notice: Some(notice), next: Next::Settled(state) }
}

/// A step that asks for `op` on the child and enters `phase`.
pub open spec fn ask(info: DbgInfo, phase: Phase, op: Op) -> Turn {
    Turn {
        notice: None,
        next: Next::Pending(Task { info, phase }, Request::Trace { pid: info.pid, op }),
    }
}

/// Sets the child in motion, with no regard to the breakpoint.
pub open spec fn go(info: DbgInfo, motion: Motion) -> Turn {
    match motion {
        Motion::Continue => ask(info, Phase::Resuming, Op::Resume),
        Motion::Stepi => ask(info, Phase::Stepping, Op::Step),
    }
}

/// Starts `continue` or `stepi`: with a breakpoint registered the
/// instruction pointer is looked at first.
pub open spec fn begin_motion(info: DbgInfo, motion: Motion) -> Turn {
    if info.brk_addr is Some {
        ask(info, Phase::Probe { motion }, Op::GetRegs)
    } else {
        go(info, motion)
    }
}

/// Starts installing the trap at `addr`.
pub open spec fn begin_install(info: DbgInfo, addr: u64, after: After) -> Turn {
    ask(info, Phase::InstallRead { addr, after }, Op::Peek { addr })
}

/// What follows the installed trap.
pub open spec fn finish_install(info: DbgInfo, after: After) -> Turn {
    match after {
        After::Break => settled(running(info)),
        After::Launch => begin_motion(info, Motion::Continue),
        After::StepOver { motion: Motion::Continue } => go(info, Motion::Continue),
        After::StepOver { motion: Motion::Stepi } => settled(running(info)),
    }
}

/// The first steps on a child that has stopped for the first time: any
/// pending breakpoint is installed, then the child runs.
pub open spec fn begin_session(info: DbgInfo) -> Turn {
    match info.brk_addr {
        Some(addr) => begin_install(info, addr, After::Launch),
        None => begin_motion(info, Motion::Continue),
    }
}

/// The step that a task takes on an event.
pub open spec fn step(task: Task, event: Event) -> Result<Turn, Fault> {
    let info = task.info;
    match (task.phase, event) {
        (_, Event::Failed { errno }) => Err(Fault { error: DbgError::Os { errno }, info }),
        (Phase::Spawning, Event::Spawned { pid }) => Ok(
            Turn {
                notice: None,
                next: Next::Pending(
                    Task { info, phase: Phase::FirstStop { child: pid } },
                    Request::Trace { pid, op: Op::Wait },
                ),
            },
        ),
        (Phase::FirstStop { child }, Event::Status { status }) => match status {
            ChildStatus::Stopped => Ok(
                Turn {
                    notice: Some(Notice::Launched { pid: child }),
                    next: begin_session(DbgInfo { pid: child, ..info }).next,
                },
            ),
            ChildStatus::Exited | ChildStatus::Signaled => Ok(
                told(Notice::LaunchFailed, not_running(info)),
            ),
            ChildStatus::Other => Err(Fault { error: DbgError::InvalidChildState, info }),
        },
        (Phase::InstallRead { addr, after }, Event::Word { word }) => Ok(
            ask(
                info,
                Phase::InstallWrite { addr, word, after },
                Op::Poke { addr, word: spec_trap_word(word) },
            ),
        ),
        (Phase::InstallWrite { addr, word, after }, Event::Done) => Ok(
            finish_install(DbgInfo { brk_val: word, ..info }, after),
        ),
        (Phase::Probe { motion }, Event::Regs { regs }) => match info.brk_addr {
            Some(addr) if regs.rip == addr => Ok(
                ask(info, Phase::Restoring { addr, motion }, Op::Poke { addr, word: info.brk_val }),
            ),
            _ => Ok(go(info, motion)),
        },
        (Phase::Restoring { addr, motion }, Event::Done) => Ok(
            ask(info, Phase::StepOver { addr, motion }, Op::Step),
        ),
        (Phase::StepOver { addr, motion }, Event::Done) => Ok(
            ask(info, Phase::StepOverWait { addr, motion }, Op::Wait),
        ),
        (Phase::StepOverWait { addr, motion }, Event::Status { status }) => match status {
            ChildStatus::Stopped => Ok(begin_install(info, addr, After::StepOver { motion })),
            ChildStatus::Exited | ChildStatus::Signaled => Ok(
                told(Notice::Terminated, not_running(info)),
            ),
            ChildStatus::Other => Err(Fault { error: DbgError::InvalidWaitStatus, info }),
        },
        (Phase::Resuming, Event::Done) => Ok(ask(info, Phase::Awaiting, Op::Wait)),
        (Phase::Stepping, Event::Done) => Ok(ask(info, Phase::Awaiting, Op::Wait)),
        (Phase::Awaiting, Event::Status { status }) => match status {
            ChildStatus::Stopped => Ok(ask(info, Phase::Inspecting, Op::GetRegs)),
            ChildStatus::Exited | ChildStatus::Signaled => Ok(
                told(Notice::Terminated, not_running(info)),
            ),
            ChildStatus::Other => Err(Fault { error: DbgError::InvalidWaitStatus, info }),
        },
        (Phase::Inspecting, Event::Regs { regs }) => match info.brk_addr {
            Some(addr) if trap_hit(info.brk_addr, regs) => Ok(
                ask(
                    info,
                    Phase::Rewinding { addr },
                    Op::SetRegs { regs: regs.spec_with_rip(addr) },
                ),
            ),
            _ => Ok(told(Notice::Stopped { pc: regs.rip }, running(info))),
        },
        (Phase::Rewinding { addr }, Event::Done) => Ok(
            ask(info, Phase::Disarming { addr }, Op::Poke { addr, word: info.brk_val }),
        ),
        (Phase::Disarming { addr }, Event::Done) => Ok(
            told(Notice::Stopped { pc: addr }, running(info)),
        ),
        (Phase::ReadingRegs, Event::Regs { regs }) => Ok(
            told(Notice::Registers { regs }, running(info)),
        ),
        (Phase::Killing, Event::Done) => Ok(ask(info, Phase::Reaping, Op::Wait)),
        (Phase::Reaping, Event::Status { status }) => if status.is_terminated() {
            Ok(settled(State::Exit))
        } else {
            Ok(ask(info, Phase::Killing, Op::Kill))
        },
        _ => Err(Fault { error: DbgError::UnexpectedEvent, info }),
    }
}

impl Turn {
    /// Ends the command without a word to the user.
    pub fn settle(state: State) -> (turn: Turn)
        ensures
            turn == settled(state),
    {
        Turn { notice: None, next: Next::Settled(state) }
    }

    /// Ends the command with a notice.
    pub fn tell(notice: Notice, state: State) -> (turn: Turn)
        ensures
            turn == told(notice, state),
    {
        Turn { notice: Some(notice), next: Next::Settled(state) }
    }

    /// Asks for `op` on the child and enters `phase`.
    pub fn request(info: DbgInfo, phase: Phase, op: Op) -> (turn: Turn)
        ensures
            turn == ask(info, phase, op),
    {
        let pid = info.pid;
        Turn { notice: None, next: Next::Pending(Task { info, phase }, Request::Trace { pid, op }) }
    }

    /// Sets the child in motion, with no regard to the breakpoint.
    pub fn set_off(info: DbgInfo, motion: Motion) -> (turn: Turn)
        ensures
            turn == go(info, motion),
    {
        match motion {
            Motion::Continue => Turn::request(info, Phase::Resuming, Op::Resume),
            Motion::Stepi => Turn::request(info, Phase::Stepping, Op::Step),
        }
    }

    /// Starts `continue` or `stepi`.
    pub fn approach(info: DbgInfo, motion: Motion) -> (turn: Turn)
        ensures
            turn == begin_motion(info, motion),
    {
        if info.brk_addr.is_some() {
            Turn::request(info, Phase::Probe { motion }, Op::GetRegs)
        } else {
            Turn::set_off(info, motion)
        }
    }

    /// Starts installing the trap at `addr`.
    pub fn install(info: DbgInfo, addr: u64, after: After) -> (turn: Turn)
        ensures
            turn == begin_install(info, addr, after),
    {
        Turn::request(info, Phase::InstallRead { addr, after }, Op::Peek { addr })
    }

    /// Goes on after the trap has been installed.
    pub fn installed(info: DbgInfo, after: After) -> (turn: Turn)
        ensures
            turn == finish_install(info, after),
    {
        match after {
            After::Break => Turn::settle(State::Running(ZDbg { info, _state: Running })),
            After::Launch => Turn::approach(info, Motion::Continue),
            After::StepOver { motion: Motion::Continue } => Turn::set_off(info, Motion::Continue),
            After::StepOver { motion: Motion::Stepi } => Turn::settle(
                State::Running(ZDbg { info, _state: Running }),
            ),
        }
    }

    /// Takes up a child that has stopped for the first time.
    pub fn open_session(info: DbgInfo) -> (turn: Turn)
        ensures
            turn == begin_session(info),
    {
        match info.brk_addr {
            Some(addr) => Turn::install(info, addr, After::Launch),
            None => Turn::approach(info, Motion::Continue),
        }
    }
}

impl Task {
    /// Takes the next step of the command, given the answer to the request
    /// that the last step made.
    ///
    /// A failed system call and an answer that does not fit the request end
    /// the command with an error.
    pub fn resume(self, event: Event) -> (r: Result<Turn, Fault>)
        ensures
            r == step(self, event),
    {
        if let Event::Failed { errno } = event {
            return Err(Fault { error: DbgError::Os { errno }, info: self.info });
        }
        let Task { info, phase } = self;
        match (phase, event) {
            (Phase::Spawning, Event::Spawned { pid }) => Ok(
                Turn {
                    notice: None,
                    next: Next::Pending(
                        Task { info, phase: Phase::FirstStop { child: pid } },
                        Request::Trace { pid, op: Op::Wait },
                    ),
                },
            ),
            (Phase::FirstStop { child }, Event::Status { status }) => Task::first_stop(
                info,
                child,
                status,
            ),
            (Phase::InstallRead { addr, after }, Event::Word { word }) => Ok(
                Turn::request(
                    info,
                    Phase::InstallWrite { addr, word, after },
                    Op::Poke { addr, word: trap_word(word) },
                ),
            ),
            (Phase::InstallWrite { addr, word, after }, Event::Done) => {
                let mut info = info;
                info.brk_val = word;
                Ok(Turn::installed(info, after))
            },
            (Phase::Probe { motion }, Event::Regs { regs }) => Ok(
                Task::step_and_break(info, motion, regs),
            ),
            (Phase::Restoring { addr, motion }, Event::Done) => Ok(
                Turn::request(info, Phase::StepOver { addr, motion }, Op::Step),
            ),
            (Phase::StepOver { addr, motion }, Event::Done) => Ok(
                Turn::request(info, Phase::StepOverWait { addr, motion }, Op::Wait),
            ),
            (Phase::StepOverWait { addr, motion }, Event::Status { status }) => match status {
                ChildStatus::Stopped => Ok(Turn::install(info, addr, After::StepOver { motion })),
                ChildStatus::Exited | ChildStatus::Signaled => Ok(
                    Turn::tell(
                        Notice::Terminated,
                        State::NotRunning(ZDbg { info, _state: NotRunning }),
                    ),
                ),
                ChildStatus::Other => Err(Fault { error: DbgError::InvalidWaitStatus, info }),
            },
            (Phase::Resuming, Event::Done) => Ok(Turn::request(info, Phase::Awaiting, Op::Wait)),
            (Phase::Stepping, Event::Done) => Ok(Turn::request(info, Phase::Awaiting, Op::Wait)),
            (Phase::Awaiting, Event::Status { status }) => Task::wait_child(info, status),
            (Phase::Inspecting, Event::Regs { regs }) => Ok(Task::inspect_stop(info, regs)),
            (Phase::Rewinding { addr }, Event::Done) => {
                let word = info.brk_val;
                Ok(Turn::request(info, Phase::Disarming { addr }, Op::Poke { addr, word }))
            },
            (Phase::Disarming { addr }, Event::Done) => Ok(
                Turn::tell(
                    Notice::Stopped { pc: addr },
                    State::Running(ZDbg { info, _state: Running }),
                ),
            ),
            (Phase::ReadingRegs, Event::Regs { regs }) => Ok(
                Turn::tell(
                    Notice::Registers { regs },
                    State::Running(ZDbg { info, _state: Running }),
                ),
            ),
            (Phase::Killing, Event::Done) => Ok(Turn::request(info, Phase::Reaping, Op::Wait)),
            (Phase::Reaping, Event::Status { status }) => Ok(Task::reap(info, status)),
            _ => Err(Fault { error: DbgError::UnexpectedEvent, info }),
        }
    }

    /// The first report of a new child: stopped, it becomes the traced
    /// child; terminated, the launch has failed.
    pub fn first_stop(info: DbgInfo, child: i32, status: ChildStatus) -> (r: Result<Turn, Fault>)
        ensures
            r == step(Task { info, phase: Phase::FirstStop { child } }, Event::Status { status }),
    {
        match status {
            ChildStatus::Stopped => {
                let mut info = info;
                info.pid = child;
                let turn = Turn::open_session(info);
                Ok(Turn { notice: Some(Notice::Launched { pid: child }), next: turn.next })
            },
            ChildStatus::Exited | ChildStatus::Signaled => Ok(
                Turn::tell(
                    Notice::LaunchFailed,
                    State::NotRunning(ZDbg { info, _state: NotRunning }),
                ),
            ),
            ChildStatus::Other => Err(Fault { error: DbgError::InvalidChildState, info }),
        }
    }

    /// With the child at the breakpoint, begins to step over it: the
    /// original word goes back first. Elsewhere the child is set in motion
    /// at once.
    pub fn step_and_break(info: DbgInfo, motion: Motion, regs: Registers) -> (turn: Turn)
        ensures
            Ok::<Turn, Fault>(turn) == step(
                Task { info, phase: Phase::Probe { motion } },
                Event::Regs { regs },
            ),
    {
        match info.brk_addr {
            Some(addr) if regs.rip == addr => {
                let word = info.brk_val;
                Turn::request(info, Phase::Restoring { addr, motion }, Op::Poke { addr, word })
            },
            _ => Turn::set_off(info, motion),
        }
    }

    /// The report of a wait on the running child.
    pub fn wait_child(info: DbgInfo, status: ChildStatus) -> (r: Result<Turn, Fault>)
        ensures
            r == step(Task { info, phase: Phase::Awaiting }, Event::Status { status }),
    {
        match status {
            ChildStatus::Stopped => Ok(Turn::request(info, Phase::Inspecting, Op::GetRegs)),
            ChildStatus::Exited | ChildStatus::Signaled => Ok(
                Turn::tell(Notice::Terminated, State::NotRunning(ZDbg { info, _state: NotRunning })),
            ),
            ChildStatus::Other => Err(Fault { error: DbgError::InvalidWaitStatus, info }),
        }
    }

    /// The registers of the stopped child: after a trap the instruction
    /// pointer is set back onto the breakpoint.
    pub fn inspect_stop(info: DbgInfo, regs: Registers) -> (turn: Turn)
        ensures
            Ok::<Turn, Fault>(turn) == step(
                Task { info, phase: Phase::Inspecting },
                Event::Regs { regs },
            ),
    {
        match info.brk_addr {
            Some(addr) if addr < u64::MAX && regs.rip == addr + 1 => {
                let regs = regs.with_rip(addr);
                Turn::request(info, Phase::Rewinding { addr }, Op::SetRegs { regs })
            },
            _ => Turn::tell(
                Notice::Stopped { pc: regs.rip },
                State::Running(ZDbg { info, _state: Running }),
            ),
        }
    }

    /// The report of a wait on the killed child: the session ends once the
    /// child is gone; until then it is killed again.
    pub fn reap(info: DbgInfo, status: ChildStatus) -> (turn: Turn)
        ensures
            Ok::<Turn, Fault>(turn) == step(
                Task { info, phase: Phase::Reaping },
                Event::Status { status },
            ),
    {
        match status {
            ChildStatus::Exited | ChildStatus::Signaled => Turn::settle(State::Exit),
            _ => Turn::request(info, Phase::Killing, Op::Kill),
        }
    }
}

} // verus!
