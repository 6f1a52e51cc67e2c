//! What holds of the commands in every state.

use vstd::prelude::*;
use crate::address::{address_of, all_hex, has_prefix, hex_value, AddressError};
use crate::command::{keyword, Command};
use crate::dbg::{DbgInfo, NotRunning, Running, State, ZDbg};
use crate::host::{ChildStatus, DbgError, Event, Fault, Notice, Op};
use crate::task::{ask, settled, step, told, Next, Phase, Task, Turn};

verus! {

/// The words of the prompt, each with its short form.
pub proof fn command_words()
    ensures
        keyword("run"@) == Command::Run,
        keyword("r"@) == Command::Run,
        keyword("break"@) == Command::Break,
        keyword("b"@) == Command::Break,
        keyword("continue"@) == Command::Continue,
        keyword("c"@) == Command::Continue,
        keyword("stepi"@) == Command::Stepi,
        keyword("s"@) == Command::Stepi,
        keyword("registers"@) == Command::Registers,
        keyword("regs"@) == Command::Registers,
        keyword("exit"@) == Command::Exit,
        keyword("help"@) == Command::Help,
        keyword("h"@) == Command::Help,
{
    reveal_strlit("run");
    reveal_strlit("r");
    reveal_strlit("break");
    reveal_strlit("b");
    reveal_strlit("continue");
    reveal_strlit("c");
    reveal_strlit("stepi");
    reveal_strlit("s");
    reveal_strlit("registers");
    reveal_strlit("regs");
    reveal_strlit("exit");
    reveal_strlit("help");
    reveal_strlit("h");
    assert("run"@.len() == 3 && "run"@[0] == 'r');
    assert("r"@.len() == 1 && "r"@[0] == 'r');
    assert("break"@.len() == 5 && "break"@[0] == 'b');
    assert("b"@.len() == 1 && "b"@[0] == 'b');
    assert("continue"@.len() == 8 && "continue"@[0] == 'c');
    assert("c"@.len() == 1 && "c"@[0] == 'c');
    assert("stepi"@.len() == 5 && "stepi"@[0] == 's');
    assert("s"@.len() == 1 && "s"@[0] == 's');
    assert("registers"@.len() == 9 && "registers"@[0] == 'r');
    assert("regs"@.len() == 4 && "regs"@[0] == 'r');
    assert("exit"@.len() == 4 && "exit"@[0] == 'e');
    assert("help"@.len() == 4 && "help"@[0] == 'h');
    assert("h"@.len() == 1 && "h"@[0] == 'h');
}

/// The prefix `0x` before one or more hexadecimal digits whose number fits in
/// 64 bits is an address, and it is that number.
pub proof fn well_formed_address_is_read(digits: Seq<char>)
    requires
        digits.len() > 0,
        all_hex(digits),
        hex_value(digits) <= u64::MAX,
    ensures
        address_of(seq!['0', 'x'] + digits) == Ok::<u64, AddressError>(hex_value(digits) as u64),
{
    assert((seq!['0', 'x'] + digits).skip(2) == digits);
}

/// A token that lacks the prefix, or holds anything but hexadecimal digits
/// after it, is no address.
pub proof fn malformed_address_is_rejected(token: Seq<char>)
    requires
        !has_prefix(token) || !all_hex(token.skip(2)),
    ensures
        address_of(token) is Err,
{
}

/// A `break` line without an argument, or with one that is no address,
/// registers nothing in either state: a notice says so, and the record stays
/// as it is.
pub proof fn rejected_address_changes_nothing(info: DbgInfo, tokens: Seq<Seq<char>>)
    requires
        tokens.len() > 0,
        keyword(tokens[0]) == Command::Break,
        tokens.len() < 2 || address_of(tokens[1]) is Err,
    ensures
        info.registration(tokens) is Err,
        info.registered(tokens) == info,
        (ZDbg { info, _state: Running }).spec_do_cmd(tokens) == told(
            info.registration(tokens)->Err_0,
            State::Running(ZDbg { info, _state: Running }),
        ),
        (ZDbg { info, _state: NotRunning }).spec_do_cmd(tokens) == told(
            info.registration(tokens)->Err_0,
            State::NotRunning(ZDbg { info, _state: NotRunning }),
        ),
{
}

/// With a breakpoint registered, a `break` line is refused, whatever it
/// names, in either state, and the record with its breakpoint stays as it is.
pub proof fn second_breakpoint_is_refused(info: DbgInfo, addr: u64, tokens: Seq<Seq<char>>)
    requires
        info.brk_addr == Some(addr),
        tokens.len() > 0,
        keyword(tokens[0]) == Command::Break,
    ensures
        info.registration(tokens) == Err::<u64, Notice>(Notice::BreakpointTaken { addr }),
        info.registered(tokens) == info,
        (ZDbg { info, _state: Running }).spec_do_cmd(tokens) == told(
            Notice::BreakpointTaken { addr },
            State::Running(ZDbg { info, _state: Running }),
        ),
        (ZDbg { info, _state: NotRunning }).spec_do_cmd(tokens) == told(
            Notice::BreakpointTaken { addr },
            State::NotRunning(ZDbg { info, _state: NotRunning }),
        ),
{
}

/// `run` with a child alive says that the target runs already and ends the
/// command there: no child is asked for, and the state is kept.
pub proof fn run_while_running_is_refused(dbg: ZDbg<Running>, tokens: Seq<Seq<char>>)
    requires
        tokens.len() > 0,
        keyword(tokens[0]) == Command::Run,
    ensures
        dbg.spec_do_cmd(tokens) == told(Notice::AlreadyRunning, State::Running(dbg)),
{
}

/// `continue`, `stepi` and `registers` without a child say that nothing
/// runs and end the command there: nothing is asked of the platform, and the
/// state is kept.
pub proof fn motion_needs_a_child(dbg: ZDbg<NotRunning>, tokens: Seq<Seq<char>>)
    requires
        tokens.len() > 0,
        keyword(tokens[0]) == Command::Continue || keyword(tokens[0]) == Command::Stepi || keyword(
            tokens[0],
        ) == Command::Registers,
    ensures
        dbg.spec_do_cmd(tokens) == told(Notice::NotRunning, State::NotRunning(dbg)),
{
}

/// `exit` with a child alive first asks for the kill, then waits. The
/// session ends when the wait reports that the child is gone; on any other
/// report the child is killed again.
pub proof fn exit_reaps_the_child(dbg: ZDbg<Running>, tokens: Seq<Seq<char>>, status: ChildStatus)
    requires
        tokens.len() > 0,
        keyword(tokens[0]) == Command::Exit,
    ensures
        dbg.spec_do_cmd(tokens) == ask(dbg.info, Phase::Killing, Op::Kill),
        step(Task { info: dbg.info, phase: Phase::Killing }, Event::Done) == Ok::<Turn, Fault>(
            ask(dbg.info, Phase::Reaping, Op::Wait),
        ),
        step(Task { info: dbg.info, phase: Phase::Reaping }, Event::Status { status })
            == Ok::<Turn, Fault>(
            if status.is_terminated() {
                settled(State::Exit)
            } else {
                ask(dbg.info, Phase::Killing, Op::Kill)
            },
        ),
{
}

/// No step of a command ends the session unless it is the step on a wait
/// that reported the termination of the child being killed.
pub proof fn session_ends_only_on_termination(task: Task, event: Event)
    requires
        step(task, event) matches Ok(turn) && turn.next == Next::Settled(State::Exit),
    ensures
        task.phase == Phase::Reaping,
        event matches Event::Status { status } && status.is_terminated(),
{
}

/// No step of a command leaves the debugger without a child unless it is the
/// step on a wait that reported the child's termination.
pub proof fn child_is_lost_only_on_termination(task: Task, event: Event)
    requires
        step(task, event) matches Ok(turn) && turn.next matches Next::Settled(
            State::NotRunning(_),
        ),
    ensures
        event matches Event::Status { status } && status.is_terminated(),
{
}

/// No step of a command registers, moves or forgets the breakpoint, or
/// changes the target; and a step of a consistent task leaves a consistent
/// task.
pub proof fn step_keeps_the_breakpoint(task: Task, event: Event)
    requires
        step(task, event) is Ok,
    ensures
        step(task, event)->Ok_0.info() matches Some(info) ==> info.brk_addr == task.info.brk_addr
            && info.filename == task.info.filename,
        task.consistent() ==> step(task, event)->Ok_0.consistent(),
{
}

/// A command registers a breakpoint only where none was registered, and
/// the task that it leaves pending is consistent.
pub proof fn commands_keep_the_breakpoint(info: DbgInfo, tokens: Seq<Seq<char>>)
    requires
        !(tokens.len() > 0 && keyword(tokens[0]) == Command::Run),
    ensures
        ({
            let turn = (ZDbg { info, _state: NotRunning }).spec_do_cmd(tokens);
            &&& turn.consistent()
            &&& turn.info() matches Some(next) ==> info.brk_addr is Some ==> next.brk_addr
                == info.brk_addr
        }),
        ({
            let turn = (ZDbg { info, _state: Running }).spec_do_cmd(tokens);
            &&& turn.consistent()
            &&& turn.info() matches Some(next) ==> info.brk_addr is Some ==> next.brk_addr
                == info.brk_addr
        }),
{
}

/// Every command but `exit` comes to its end: each answer brings it
/// nearer, and the longest, a launch onto a breakpoint at the entry, needs
/// fifteen.
pub proof fn commands_come_to_an_end(task: Task, event: Event)
    requires
        task.phase != Phase::Killing,
        task.phase != Phase::Reaping,
        step(task, event) is Ok,
    ensures
        step(task, event)->Ok_0.steps_left() < task.phase.steps_left() <= 15,
{
}

/// A command that is abandoned hands the record back as it stood. It is
/// abandoned when the system call failed, when a wait reported neither a stop
/// nor the end of the child, or when the answer does not fit the request.
pub proof fn failure_keeps_the_record(task: Task, event: Event)
    requires
        step(task, event) is Err,
    ensures
        step(task, event)->Err_0.info == task.info,
        event matches Event::Failed { errno } ==> step(task, event)->Err_0.error == (DbgError::Os {
            errno,
        }),
        step(task, event)->Err_0.error is InvalidChildState || step(task, event)->Err_0.error
            is InvalidWaitStatus ==> event == (Event::Status { status: ChildStatus::Other }),
{
}

/// A child that is gone before its first stop was never running: the
/// launch is reported as failed, and the debugger stays without a child, its
/// record as it was.
pub proof fn failed_launch_leaves_no_child(info: DbgInfo, child: i32, status: ChildStatus)
    requires
        status.is_terminated(),
    ensures
        step(Task { info, phase: Phase::FirstStop { child } }, Event::Status { status }) == Ok::<
            Turn,
            Fault,
        >(told(Notice::LaunchFailed, State::NotRunning(ZDbg { info, _state: NotRunning }))),
{
}

} // verus!
