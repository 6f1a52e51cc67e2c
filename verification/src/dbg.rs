//! The debugger between two commands: its record, its two states, and what
//! each command does in each of them.

use vstd::prelude::*;
use vstd::slice::*;
use vstd::string::*;
use crate::address::{address_of, parse_address};
use crate::command::{classify, keyword, texts, Command};
use crate::host::{Notice, Op, Request};
use crate::task::{
    ask, begin_install, begin_motion, not_running, settled, told, After, Motion, Next, Phase,
    Task, Turn,
};

verus! {

/// What the debugger knows of its target.
#[derive(Debug)]
pub struct DbgInfo {
    /// The traced child; 0 while there is none.
    pub pid: i32,
    /// The address of the breakpoint, once one is registered.
    pub brk_addr: Option<u64>,
    /// The memory word that stood at the breakpoint before the trap was
    /// written over its lowest-order byte.
    pub brk_val: u64,
    /// The executable to launch.
    pub filename: String,
}

/// The debugger in the state `T`: [`Running`] with a stopped child under
/// trace, [`NotRunning`] without one.
#[derive(Debug)]
pub struct ZDbg<T> {
    pub info: DbgInfo,
    pub _state: T,
}

/// Marks the debugger whose child is alive and stopped.
#[derive(Debug)]
pub struct Running;

/// Marks the debugger that has no child.
#[derive(Debug)]
pub struct NotRunning;

/// The debugger in whichever state it is.
#[derive(Debug)]
pub enum State {
    Running(ZDbg<Running>),
    NotRunning(ZDbg<NotRunning>),
    /// The session is over.
    Exit,
}

/// The address that the tokens of a `break` line give, or the notice that
/// says why they give none.
pub open spec fn break_addr(tokens: Seq<Seq<char>>) -> Result<u64, Notice> {
    if tokens.len() < 2 {
        Err(Notice::AddressMissing)
    } else {
        match address_of(tokens[1]) {
            Ok(addr) => Ok(addr),
            Err(why) => Err(Notice::AddressRejected { why }),
        }
    }
}

/// Reads the address argument of a `break` line.
pub fn get_break_addr(cmd: &[&str]) -> (r: Result<u64, Notice>)
    ensures
        r == break_addr(texts(cmd@)),
{
    if cmd.len() < 2 {
        return Err(Notice::AddressMissing);
    }
    match parse_address(cmd[1]) {
        Ok(addr) => Ok(addr),
        Err(why) => Err(Notice::AddressRejected { why }),
    }
}

/// The texts of owned strings.
pub open spec fn owned_texts(strings: Seq<String>) -> Seq<Seq<char>> {
    Seq::new(strings.len(), |i: int| strings[i]@)
}

/// Copies the tokens of a line.
pub fn to_argv(cmd: &[&str]) -> (argv: Vec<String>)
    ensures
        owned_texts(argv@) == texts(cmd@),
{
    let mut argv: Vec<String> = Vec::new();
    let mut i: usize = 0;
    while i < cmd.len()
        invariant
            i <= cmd.len(),
            argv.len() == i,
            forall|j: int| 0 <= j < i ==> argv@[j]@ == cmd@[j]@,
        decreases cmd.len() - i,
    {
        argv.push(cmd[i].to_owned());
        i += 1;
    }
    assert(owned_texts(argv@) =~= texts(cmd@));
    argv
}

impl DbgInfo {
    /// What registering a breakpoint from the tokens of a `break` line
    /// yields: the address, unless one is registered already or the tokens
    /// give none.
    pub open spec fn registration(self, tokens: Seq<Seq<char>>) -> Result<u64, Notice> {
        match self.brk_addr {
            Some(addr) => Err(Notice::BreakpointTaken { addr }),
            None => break_addr(tokens),
        }
    }

    /// The record once the breakpoint of a `break` line is registered; the
    /// same record where the line is rejected.
    pub open spec fn registered(self, tokens: Seq<Seq<char>>) -> DbgInfo {
        match self.registration(tokens) {
            Ok(addr) => DbgInfo { brk_addr: Some(addr), ..self },
            Err(_) => self,
        }
    }
}

impl<T> ZDbg<T> {
    /// Registers the breakpoint that a `break` line names. No memory is
    /// touched. Only one breakpoint can be registered: with one in place, and
    /// on a line that names no address, nothing changes.
    pub fn set_break_addr(&mut self, cmd: &[&str]) -> (r: Result<u64, Notice>)
        ensures
            r == old(self).info.registration(texts(cmd@)),
            final(self).info == old(self).info.registered(texts(cmd@)),
            final(self)._state == old(self)._state,
            r is Err ==> *final(self) == *old(self),
    {
        if let Some(addr) = self.info.brk_addr {
            return Err(Notice::BreakpointTaken { addr });
        }
        match get_break_addr(cmd) {
            Ok(addr) => {
                self.info.brk_addr = Some(addr);
                Ok(addr)
            },
            Err(notice) => Err(notice),
        }
    }
}

impl ZDbg<NotRunning> {
    /// The debugger at its start: no child, no breakpoint.
    pub fn new(filename: String) -> (dbg: Self)
        ensures
            dbg.info == (DbgInfo { pid: 0, brk_addr: None, brk_val: 0, filename }),
    {
        ZDbg { info: DbgInfo { pid: 0, brk_addr: None, brk_val: 0, filename }, _state: NotRunning }
    }

    /// What a line does that is not `run`.
    pub open spec fn spec_do_cmd(self, tokens: Seq<Seq<char>>) -> Turn
        recommends
            tokens.len() > 0 ==> keyword(tokens[0]) != Command::Run,
    {
        if tokens.len() == 0 {
            settled(State::NotRunning(self))
        } else {
            match keyword(tokens[0]) {
                Command::Break => match self.info.registration(tokens) {
                    Ok(_) => settled(not_running(self.info.registered(tokens))),
                    Err(notice) => told(notice, State::NotRunning(self)),
                },
                Command::Exit => settled(State::Exit),
                Command::Continue | Command::Stepi | Command::Registers => told(
                    Notice::NotRunning,
                    State::NotRunning(self),
                ),
                Command::Help => told(Notice::Help, State::NotRunning(self)),
                _ => settled(State::NotRunning(self)),
            }
        }
    }

    /// Registers a breakpoint for the child to come.
    pub fn do_break(&mut self, cmd: &[&str]) -> (r: Result<u64, Notice>)
        ensures
            r == old(self).info.registration(texts(cmd@)),
            final(self).info == old(self).info.registered(texts(cmd@)),
            final(self)._state == old(self)._state,
            r is Err ==> *final(self) == *old(self),
    {
        self.set_break_addr(cmd)
    }

    /// Starts the launch: asks for a child that runs the target with the
    /// tokens of the line as its arguments.
    pub fn do_run(self, cmd: &[&str]) -> (turn: Turn)
        ensures
            turn.notice is None,
            turn.next matches Next::Pending(task, Request::Spawn { argv })
                && task == (Task { info: self.info, phase: Phase::Spawning })
                && owned_texts(argv@) == texts(cmd@),
    {
        let argv = to_argv(cmd);
        Turn {
            notice: None,
            next: Next::Pending(
                Task { info: self.info, phase: Phase::Spawning },
                Request::Spawn { argv },
            ),
        }
    }

    /// Carries out one line while no child runs.
    ///
    /// `run` asks for the child. `break` registers the breakpoint. `exit`
    /// ends the session. `continue`, `stepi` and `registers` need a child
    /// and only say so. An empty line and an unknown word do nothing.
    pub fn do_cmd(self, cmd: &[&str]) -> (turn: Turn)
        ensures
            cmd@.len() > 0 && keyword(cmd@[0]@) == Command::Run ==> {
                &&& turn.notice is None
                &&& turn.next matches Next::Pending(task, Request::Spawn { argv })
                &&& task == (Task { info: self.info, phase: Phase::Spawning })
                &&& owned_texts(argv@) == texts(cmd@)
            },
            !(cmd@.len() > 0 && keyword(cmd@[0]@) == Command::Run) ==> turn == self.spec_do_cmd(
                texts(cmd@),
            ),
    {
        if cmd.len() == 0 {
            return Turn::settle(State::NotRunning(self));
        }
        let mut dbg = self;
        match classify(cmd[0]) {
            Command::Run => dbg.do_run(cmd),
            Command::Break => match dbg.do_break(cmd) {
                Ok(_) => Turn::settle(State::NotRunning(dbg)),
                Err(notice) => Turn::tell(notice, State::NotRunning(dbg)),
            },
            Command::Exit => Turn::settle(State::Exit),
            Command::Continue | Command::Stepi | Command::Registers => Turn::tell(
                Notice::NotRunning,
                State::NotRunning(dbg),
            ),
            Command::Help => Turn::tell(Notice::Help, State::NotRunning(dbg)),
            Command::Unknown => Turn::settle(State::NotRunning(dbg)),
        }
    }
}

impl ZDbg<Running> {
    /// What a line does while the child is stopped.
    pub open spec fn spec_do_cmd(self, tokens: Seq<Seq<char>>) -> Turn {
        if tokens.len() == 0 {
            settled(State::Running(self))
        } else {
            match keyword(tokens[0]) {
                Command::Break => match self.info.registration(tokens) {
                    Ok(addr) => begin_install(self.info.registered(tokens), addr, After::Break),
                    Err(notice) => told(notice, State::Running(self)),
                },
                Command::Continue => begin_motion(self.info, Motion::Continue),
                Command::Stepi => begin_motion(self.info, Motion::Stepi),
                Command::Registers => ask(self.info, Phase::ReadingRegs, Op::GetRegs),
                Command::Run => told(Notice::AlreadyRunning, State::Running(self)),
                Command::Exit => ask(self.info, Phase::Killing, Op::Kill),
                Command::Help => told(Notice::Help, State::Running(self)),
                Command::Unknown => settled(State::Running(self)),
            }
        }
    }

    /// Registers a breakpoint and begins to write its trap into the child.
    pub fn do_break(self, cmd: &[&str]) -> (turn: Turn)
        ensures
            turn == match self.info.registration(texts(cmd@)) {
                Ok(addr) => begin_install(self.info.registered(texts(cmd@)), addr, After::Break),
                Err(notice) => told(notice, State::Running(self)),
            },
    {
        let mut dbg = self;
        match dbg.set_break_addr(cmd) {
            Ok(addr) => Turn::install(dbg.info, addr, After::Break),
            Err(notice) => Turn::tell(notice, State::Running(dbg)),
        }
    }

    /// Begins `continue`.
    pub fn do_continue(self) -> (turn: Turn)
        ensures
            turn == begin_motion(self.info, Motion::Continue),
    {
        Turn::approach(self.info, Motion::Continue)
    }

    /// Begins `stepi`.
    pub fn do_stepi(self) -> (turn: Turn)
        ensures
            turn == begin_motion(self.info, Motion::Stepi),
    {
        Turn::approach(self.info, Motion::Stepi)
    }

    /// Begins `exit`: the child is killed first.
    pub fn do_exit(self) -> (turn: Turn)
        ensures
            turn == ask(self.info, Phase::Killing, Op::Kill),
    {
        Turn::request(self.info, Phase::Killing, Op::Kill)
    }

    /// Carries out one line while the child is stopped.
    ///
    /// `break` registers the breakpoint and writes its trap. `continue`,
    /// `stepi` and `registers` act on the child. `run` only says that the
    /// target runs already. `exit` kills the child, then ends the session. An
    /// empty line and an unknown word do nothing.
    pub fn do_cmd(self, cmd: &[&str]) -> (turn: Turn)
        ensures
            turn == self.spec_do_cmd(texts(cmd@)),
    {
        if cmd.len() == 0 {
            return Turn::settle(State::Running(self));
        }
        match classify(cmd[0]) {
            Command::Break => self.do_break(cmd),
            Command::Continue => self.do_continue(),
            Command::Stepi => self.do_stepi(),
            Command::Registers => Turn::request(self.info, Phase::ReadingRegs, Op::GetRegs),
            Command::Run => Turn::tell(Notice::AlreadyRunning, State::Running(self)),
            Command::Exit => self.do_exit(),
            Command::Help => Turn::tell(Notice::Help, State::Running(self)),
            Command::Unknown => Turn::settle(State::Running(self)),
        }
    }
}

impl State {
    /// Hands a line to the debugger in its present state. After `exit`
    /// nothing is carried out any more.
    pub fn dispatch(self, cmd: &[&str]) -> (turn: Turn)
        ensures
            match self {
                State::Running(dbg) => turn == dbg.spec_do_cmd(texts(cmd@)),
                State::NotRunning(dbg) => if cmd@.len() > 0 && keyword(cmd@[0]@) == Command::Run {
                    &&& turn.notice is None
                    &&& turn.next matches Next::Pending(task, Request::Spawn { argv })
                    &&& task == (Task { info: dbg.info, phase: Phase::Spawning })
                    &&& owned_texts(argv@) == texts(cmd@)
                } else {
                    turn == dbg.spec_do_cmd(texts(cmd@))
                },
                State::Exit => turn == settled(State::Exit),
            },
    {
        match self {
            State::Running(dbg) => dbg.do_cmd(cmd),
            State::NotRunning(dbg) => dbg.do_cmd(cmd),
            State::Exit => Turn::settle(State::Exit),
        }
    }
}

} // verus!
