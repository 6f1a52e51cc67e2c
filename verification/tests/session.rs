use std::collections::HashMap;
use zdbg::breakpoint::trap_word;
use zdbg::dbg::{DbgInfo, NotRunning, Running, State, ZDbg};
use zdbg::host::{ChildStatus, DbgError, Event, Fault, Notice, Op, Request};
use zdbg::registers::Registers;
use zdbg::task::{After, Motion, Next, Phase, Task, Turn};

const PID: i32 = 4711;
const ENTRY: u64 = 0x3ffc;
const END: u64 = 0x4004;
const CODE: u64 = 0x9090_9090_e589_4855;

fn regs_at(rip: u64) -> Registers {
    Registers {
        r15: 15,
        r14: 14,
        r13: 13,
        r12: 12,
        rbp: 0x7ffd_0000_1000,
        rbx: 3,
        r11: 11,
        r10: 10,
        r9: 9,
        r8: 8,
        rax: 1,
        rcx: 2,
        rdx: 4,
        rsi: 5,
        rdi: 6,
        orig_rax: 59,
        rip,
        cs: 0x33,
        eflags: 0x246,
        rsp: 0x7ffd_0000_0ff0,
        ss: 0x2b,
        fs_base: 0,
        gs_base: 0,
        ds: 0,
        es: 0,
        fs: 0,
        gs: 0,
    }
}

/// A stand-in for the traced child: a run of one-byte instructions from
/// `ENTRY` to `END`, walked through `laps + 1` times.
struct Child {
    mem: HashMap<u64, u64>,
    regs: Registers,
    laps: u32,
    executed: u64,
    report: Option<ChildStatus>,
    ops: Vec<Op>,
    spawned: Vec<Vec<String>>,
}

impl Child {
    fn new(laps: u32) -> Child {
        Child {
            mem: HashMap::new(),
            regs: regs_at(ENTRY),
            laps,
            executed: 0,
            report: Some(ChildStatus::Stopped),
            ops: Vec::new(),
            spawned: Vec::new(),
        }
    }

    fn word(&self, addr: u64) -> u64 {
        *self.mem.get(&addr).unwrap_or(&CODE)
    }

    /// Executes one instruction; true when the child has stopped or ended.
    fn execute(&mut self, single: bool) -> bool {
        if self.word(self.regs.rip) & 0xff == 0xcc {
            self.regs.rip += 1;
            self.report = Some(ChildStatus::Stopped);
            return true;
        }
        self.regs.rip += 1;
        self.executed += 1;
        if self.regs.rip == END {
            if self.laps == 0 {
                self.report = Some(ChildStatus::Exited);
                return true;
            }
            self.laps -= 1;
            self.regs.rip = ENTRY;
        }
        if single {
            self.report = Some(ChildStatus::Stopped);
        }
        single
    }

    fn perform(&mut self, request: &Request) -> Event {
        let op = match request {
            Request::Spawn { argv } => {
                self.spawned.push(argv.clone());
                return Event::Spawned { pid: PID };
            }
            Request::Trace { pid, op } => {
                assert_eq!(*pid, PID);
                *op
            }
        };
        self.ops.push(op);
        match op {
            Op::Wait => Event::Status { status: self.report.take().expect("nothing to wait for") },
            Op::Peek { addr } => Event::Word { word: self.word(addr) },
            Op::Poke { addr, word } => {
                self.mem.insert(addr, word);
                Event::Done
            }
            Op::GetRegs => Event::Regs { regs: self.regs },
            Op::SetRegs { regs } => {
                self.regs = regs;
                Event::Done
            }
            Op::Step => {
                self.execute(true);
                Event::Done
            }
            Op::Resume => {
                while !self.execute(false) {}
                Event::Done
            }
            Op::Kill => {
                self.report = Some(ChildStatus::Signaled);
                Event::Done
            }
        }
    }
}

fn drive(mut turn: Turn, child: &mut Child, notices: &mut Vec<Notice>) -> Result<State, Fault> {
    loop {
        if let Some(notice) = turn.notice {
            notices.push(notice);
        }
        match turn.next {
            Next::Settled(state) => return Ok(state),
            Next::Pending(task, request) => {
                let event = child.perform(&request);
                turn = task.resume(event)?;
            }
        }
    }
}

fn line(state: State, cmd: &[&str], child: &mut Child) -> (State, Vec<Notice>) {
    let mut notices = Vec::new();
    let state = drive(state.dispatch(cmd), child, &mut notices).expect("the command failed");
    (state, notices)
}

fn start() -> State {
    State::NotRunning(ZDbg::new(String::from("./target")))
}

fn info(state: &State) -> &DbgInfo {
    match state {
        State::Running(dbg) => &dbg.info,
        State::NotRunning(dbg) => &dbg.info,
        State::Exit => panic!("the session is over"),
    }
}

fn task(phase: Phase, brk_addr: Option<u64>, brk_val: u64) -> Task {
    Task {
        info: DbgInfo { pid: PID, brk_addr, brk_val, filename: String::from("./target") },
        phase,
    }
}

fn asked(r: Result<Turn, Fault>) -> (Option<Notice>, Task, Op) {
    let turn = r.expect("the step failed");
    match turn.next {
        Next::Pending(task, Request::Trace { pid, op }) => {
            assert_eq!(pid, task.info.pid);
            (turn.notice, task, op)
        }
        other => panic!("no operation asked for: {:?}", other),
    }
}

fn ended(r: Result<Turn, Fault>) -> (Option<Notice>, State) {
    let turn = r.expect("the step failed");
    match turn.next {
        Next::Settled(state) => (turn.notice, state),
        other => panic!("not settled: {:?}", other),
    }
}

fn failed(r: Result<Turn, Fault>) -> DbgError {
    match r {
        Err(fault) => {
            assert_eq!(fault.info.pid, PID);
            assert_eq!(fault.info.filename, "./target");
            fault.error
        }
        Ok(turn) => panic!("no error: {:?}", turn),
    }
}

#[test]
fn break_run_registers_continue() {
    let mut child = Child::new(0);
    let (state, notices) = line(start(), &["break", "0x4000"], &mut child);
    assert!(notices.is_empty());
    assert!(matches!(state, State::NotRunning(_)));
    assert!(child.ops.is_empty());

    let (state, notices) = line(state, &["run"], &mut child);
    assert_eq!(notices, vec![Notice::Launched { pid: PID }, Notice::Stopped { pc: 0x4000 }]);
    assert!(matches!(state, State::Running(_)));
    assert_eq!(child.spawned, vec![vec![String::from("run")]]);
    assert_eq!(info(&state).pid, PID);
    assert_eq!(info(&state).brk_addr, Some(0x4000));
    assert_eq!(info(&state).brk_val, CODE);
    assert_eq!(child.regs.rip, 0x4000);
    assert_eq!(child.word(0x4000), CODE);
    assert_eq!(child.executed, 4);
    assert_eq!(notices[1].text(), "<<子プロセスが停止しました：PC = 0x4000>>");

    let (state, notices) = line(state, &["registers"], &mut child);
    assert_eq!(notices, vec![Notice::Registers { regs: regs_at(0x4000) }]);
    assert!(notices[0].text().starts_with("RIP: 0x00000000004000, RSP: "));
    assert!(matches!(state, State::Running(_)));

    let (state, notices) = line(state, &["continue"], &mut child);
    assert_eq!(notices, vec![Notice::Terminated]);
    assert!(matches!(state, State::NotRunning(_)));
    assert_eq!(child.executed, 8);
    assert_eq!(info(&state).brk_addr, Some(0x4000));
}

#[test]
fn launch_installs_the_pending_breakpoint() {
    let mut child = Child::new(0);
    let (state, _) = line(start(), &["b", "0x4000"], &mut child);
    let (_, _) = line(state, &["r", "arg"], &mut child);
    assert_eq!(child.spawned, vec![vec![String::from("r"), String::from("arg")]]);
    assert_eq!(
        child.ops,
        vec![
            Op::Wait,
            Op::Peek { addr: 0x4000 },
            Op::Poke { addr: 0x4000, word: trap_word(CODE) },
            Op::GetRegs,
            Op::Resume,
            Op::Wait,
            Op::GetRegs,
            Op::SetRegs { regs: regs_at(0x4000) },
            Op::Poke { addr: 0x4000, word: CODE },
        ]
    );
}

#[test]
fn launch_without_breakpoint_runs_to_the_end() {
    let mut child = Child::new(2);
    let (state, notices) = line(start(), &["run"], &mut child);
    assert_eq!(notices, vec![Notice::Launched { pid: PID }, Notice::Terminated]);
    assert!(matches!(state, State::NotRunning(_)));
    assert_eq!(child.ops, vec![Op::Wait, Op::Resume, Op::Wait]);
    assert_eq!(child.executed, 24);
    assert!(child.mem.is_empty());
}

#[test]
fn continue_from_the_breakpoint_steps_over_it() {
    let mut child = Child::new(1);
    let (state, _) = line(start(), &["break", "0x4000"], &mut child);
    let (state, _) = line(state, &["run"], &mut child);
    assert_eq!(child.executed, 4);
    child.ops.clear();

    let (state, notices) = line(state, &["c"], &mut child);
    assert_eq!(notices, vec![Notice::Stopped { pc: 0x4000 }]);
    assert!(matches!(state, State::Running(_)));
    assert_eq!(
        child.ops,
        vec![
            Op::GetRegs,
            Op::Poke { addr: 0x4000, word: CODE },
            Op::Step,
            Op::Wait,
            Op::Peek { addr: 0x4000 },
            Op::Poke { addr: 0x4000, word: trap_word(CODE) },
            Op::Resume,
            Op::Wait,
            Op::GetRegs,
            Op::SetRegs { regs: regs_at(0x4000) },
            Op::Poke { addr: 0x4000, word: CODE },
        ]
    );
    assert_eq!(child.executed, 12);
    assert_eq!(child.regs.rip, 0x4000);
    assert_eq!(child.word(0x4000), CODE);

    let (state, notices) = line(state, &["continue"], &mut child);
    assert_eq!(notices, vec![Notice::Terminated]);
    assert!(matches!(state, State::NotRunning(_)));
    assert_eq!(child.executed, 16);
}

#[test]
fn stepi_from_the_breakpoint_executes_one_instruction() {
    let mut child = Child::new(0);
    let (state, _) = line(start(), &["break", "0x4000"], &mut child);
    let (state, _) = line(state, &["run"], &mut child);
    child.ops.clear();

    let (state, notices) = line(state, &["stepi"], &mut child);
    assert!(notices.is_empty());
    assert!(matches!(state, State::Running(_)));
    assert_eq!(
        child.ops,
        vec![
            Op::GetRegs,
            Op::Poke { addr: 0x4000, word: CODE },
            Op::Step,
            Op::Wait,
            Op::Peek { addr: 0x4000 },
            Op::Poke { addr: 0x4000, word: trap_word(CODE) },
        ]
    );
    assert_eq!(child.executed, 5);
    assert_eq!(child.regs.rip, 0x4001);
    assert_eq!(child.word(0x4000), trap_word(CODE));
    assert_eq!(info(&state).brk_val, CODE);
}

#[test]
fn stepi_elsewhere_is_a_plain_step() {
    let mut child = Child::new(0);
    let (state, _) = line(start(), &["break", "0x4000"], &mut child);
    let (state, _) = line(state, &["run"], &mut child);
    let (state, _) = line(state, &["s"], &mut child);
    child.ops.clear();

    let (state, notices) = line(state, &["s"], &mut child);
    assert_eq!(notices, vec![Notice::Stopped { pc: 0x4002 }]);
    assert_eq!(child.ops, vec![Op::GetRegs, Op::Step, Op::Wait, Op::GetRegs]);
    assert_eq!(child.executed, 6);

    let (state, notices) = line(state, &["s"], &mut child);
    assert_eq!(notices, vec![Notice::Stopped { pc: 0x4003 }]);
    let (state, notices) = line(state, &["s"], &mut child);
    assert_eq!(notices, vec![Notice::Terminated]);
    assert!(matches!(state, State::NotRunning(_)));
}

#[test]
fn stepi_without_breakpoint_reads_no_registers_first() {
    let mut child = Child::new(0);
    child.report = None;
    let dbg = ZDbg {
        info: DbgInfo { pid: PID, brk_addr: None, brk_val: 0, filename: String::from("./target") },
        _state: Running,
    };
    let (state, notices) = line(State::Running(dbg), &["stepi"], &mut child);
    assert_eq!(notices, vec![Notice::Stopped { pc: ENTRY + 1 }]);
    assert!(matches!(state, State::Running(_)));
    assert_eq!(child.ops, vec![Op::Step, Op::Wait, Op::GetRegs]);
}

#[test]
fn breakpoint_at_the_entry_is_stepped_over_at_launch() {
    let mut child = Child::new(0);
    let (state, _) = line(start(), &["break", "0x3ffc"], &mut child);
    let (state, notices) = line(state, &["run"], &mut child);
    assert_eq!(notices, vec![Notice::Launched { pid: PID }, Notice::Terminated]);
    assert!(matches!(state, State::NotRunning(_)));
    assert_eq!(
        child.ops,
        vec![
            Op::Wait,
            Op::Peek { addr: ENTRY },
            Op::Poke { addr: ENTRY, word: trap_word(CODE) },
            Op::GetRegs,
            Op::Poke { addr: ENTRY, word: CODE },
            Op::Step,
            Op::Wait,
            Op::Peek { addr: ENTRY },
            Op::Poke { addr: ENTRY, word: trap_word(CODE) },
            Op::Resume,
            Op::Wait,
        ]
    );
    assert_eq!(child.executed, 8);
}

#[test]
fn break_on_a_stopped_child_patches_at_once() {
    let mut child = Child::new(1);
    let (state, _) = line(start(), &["break", "0x4002"], &mut child);
    let (state, _) = line(state, &["run"], &mut child);
    assert_eq!(child.regs.rip, 0x4002);
    child.ops.clear();
    let (state, notices) = line(state, &["break", "0x4000"], &mut child);
    assert_eq!(notices, vec![Notice::BreakpointTaken { addr: 0x4002 }]);
    assert!(child.ops.is_empty());
    assert_eq!(info(&state).brk_addr, Some(0x4002));

    let mut child = Child::new(0);
    child.report = None;
    child.mem.insert(0x4000, 0x1122_3344_5566_7788);
    let dbg = ZDbg {
        info: DbgInfo { pid: PID, brk_addr: None, brk_val: 0, filename: String::from("./target") },
        _state: Running,
    };
    let (state, notices) = line(State::Running(dbg), &["break", "0x4000"], &mut child);
    assert!(notices.is_empty());
    assert!(matches!(state, State::Running(_)));
    assert_eq!(
        child.ops,
        vec![Op::Peek { addr: 0x4000 }, Op::Poke { addr: 0x4000, word: 0x1122_3344_5566_77cc }]
    );
    assert_eq!(child.word(0x4000), 0x1122_3344_5566_77cc);
    assert_eq!(info(&state).brk_addr, Some(0x4000));
    assert_eq!(info(&state).brk_val, 0x1122_3344_5566_7788);
}

#[test]
fn exit_kills_and_reaps() {
    let mut child = Child::new(0);
    let (state, _) = line(start(), &["break", "0x4000"], &mut child);
    let (state, _) = line(state, &["run"], &mut child);
    child.ops.clear();
    let (state, notices) = line(state, &["exit"], &mut child);
    assert!(notices.is_empty());
    assert!(matches!(state, State::Exit));
    assert_eq!(child.ops, vec![Op::Kill, Op::Wait]);
    assert_eq!(child.report, None);
}

#[test]
fn exit_kills_until_the_child_is_gone() {
    let (_, t, op) = asked(task(Phase::Killing, None, 0).resume(Event::Done));
    assert_eq!((t.phase, op), (Phase::Reaping, Op::Wait));
    let (_, t, op) = asked(t.resume(Event::Status { status: ChildStatus::Stopped }));
    assert_eq!((t.phase, op), (Phase::Killing, Op::Kill));
    let (_, t, op) = asked(t.resume(Event::Done));
    assert_eq!((t.phase, op), (Phase::Reaping, Op::Wait));
    let (_, t, op) = asked(t.resume(Event::Status { status: ChildStatus::Other }));
    assert_eq!((t.phase, op), (Phase::Killing, Op::Kill));
    let (_, t, _) = asked(t.resume(Event::Done));
    let (notice, state) = ended(t.resume(Event::Status { status: ChildStatus::Exited }));
    assert_eq!(notice, None);
    assert!(matches!(state, State::Exit));

    let t = task(Phase::Reaping, Some(1), 2);
    let (_, state) = ended(t.resume(Event::Status { status: ChildStatus::Signaled }));
    assert!(matches!(state, State::Exit));
}

#[test]
fn launch_fails_when_the_child_ends_first() {
    for status in [ChildStatus::Exited, ChildStatus::Signaled] {
        let t = task(Phase::FirstStop { child: 99 }, Some(0x4000), 5);
        let (notice, state) = ended(t.resume(Event::Status { status }));
        assert_eq!(notice, Some(Notice::LaunchFailed));
        assert!(matches!(state, State::NotRunning(_)));
        assert_eq!(info(&state).pid, PID);
        assert_eq!(info(&state).brk_addr, Some(0x4000));
        assert_eq!(info(&state).brk_val, 5);
    }
}

#[test]
fn spawn_waits_on_the_new_child() {
    let mut t = task(Phase::Spawning, None, 0);
    t.info.pid = 0;
    let turn = t.resume(Event::Spawned { pid: 99 }).expect("the step failed");
    assert_eq!(turn.notice, None);
    match turn.next {
        Next::Pending(t, Request::Trace { pid, op }) => {
            assert_eq!(pid, 99);
            assert_eq!(op, Op::Wait);
            assert_eq!(t.info.pid, 0);
            assert_eq!(t.phase, Phase::FirstStop { child: 99 });
            let (notice, t, op) = asked(t.resume(Event::Status { status: ChildStatus::Stopped }));
            assert_eq!(notice, Some(Notice::Launched { pid: 99 }));
            assert_eq!(t.info.pid, 99);
            assert_eq!((t.phase, op), (Phase::Resuming, Op::Resume));
        }
        other => panic!("no wait asked for: {:?}", other),
    }
}

#[test]
fn unexpected_first_status_is_an_error() {
    let t = task(Phase::FirstStop { child: 99 }, None, 0);
    assert_eq!(
        failed(t.resume(Event::Status { status: ChildStatus::Other })),
        DbgError::InvalidChildState
    );
}

#[test]
fn unexpected_wait_status_is_an_error() {
    let t = task(Phase::Awaiting, None, 0);
    assert_eq!(
        failed(t.resume(Event::Status { status: ChildStatus::Other })),
        DbgError::InvalidWaitStatus
    );
    let t = task(Phase::StepOverWait { addr: 1, motion: Motion::Continue }, Some(1), 0);
    assert_eq!(
        failed(t.resume(Event::Status { status: ChildStatus::Other })),
        DbgError::InvalidWaitStatus
    );
}

#[test]
fn failed_call_ends_the_command() {
    let phases = [
        Phase::Spawning,
        Phase::FirstStop { child: 1 },
        Phase::InstallRead { addr: 1, after: After::Break },
        Phase::InstallWrite { addr: 1, word: 2, after: After::Launch },
        Phase::Probe { motion: Motion::Stepi },
        Phase::Restoring { addr: 1, motion: Motion::Continue },
        Phase::StepOver { addr: 1, motion: Motion::Continue },
        Phase::StepOverWait { addr: 1, motion: Motion::Continue },
        Phase::Resuming,
        Phase::Stepping,
        Phase::Awaiting,
        Phase::Inspecting,
        Phase::Rewinding { addr: 1 },
        Phase::Disarming { addr: 1 },
        Phase::ReadingRegs,
        Phase::Killing,
        Phase::Reaping,
    ];
    for phase in phases {
        let t = task(phase, Some(1), 0);
        assert_eq!(failed(t.resume(Event::Failed { errno: 3 })), DbgError::Os { errno: 3 });
    }
}

#[test]
fn answer_that_does_not_fit_ends_the_command() {
    let done = Event::Done;
    let word = Event::Word { word: 1 };
    let regs = Event::Regs { regs: regs_at(1) };
    let status = Event::Status { status: ChildStatus::Stopped };
    let spawned = Event::Spawned { pid: 1 };
    let cases = [
        (Phase::Spawning, done),
        (Phase::FirstStop { child: 1 }, spawned),
        (Phase::InstallRead { addr: 1, after: After::Break }, done),
        (Phase::InstallWrite { addr: 1, word: 2, after: After::Break }, word),
        (Phase::Probe { motion: Motion::Stepi }, status),
        (Phase::Restoring { addr: 1, motion: Motion::Continue }, regs),
        (Phase::StepOver { addr: 1, motion: Motion::Continue }, status),
        (Phase::StepOverWait { addr: 1, motion: Motion::Continue }, done),
        (Phase::Resuming, status),
        (Phase::Stepping, regs),
        (Phase::Awaiting, done),
        (Phase::Inspecting, status),
        (Phase::Rewinding { addr: 1 }, regs),
        (Phase::Disarming { addr: 1 }, word),
        (Phase::ReadingRegs, done),
        (Phase::Killing, status),
        (Phase::Reaping, done),
    ];
    for (phase, event) in cases {
        let t = task(phase, Some(1), 0);
        assert_eq!(failed(t.resume(event)), DbgError::UnexpectedEvent);
    }
}

#[test]
fn trap_stop_sets_the_instruction_pointer_back() {
    let t = task(Phase::Awaiting, Some(0x4000), CODE);
    let (_, t, op) = asked(t.resume(Event::Status { status: ChildStatus::Stopped }));
    assert_eq!((t.phase, op), (Phase::Inspecting, Op::GetRegs));
    let (_, t, op) = asked(t.resume(Event::Regs { regs: regs_at(0x4001) }));
    assert_eq!(t.phase, Phase::Rewinding { addr: 0x4000 });
    assert_eq!(op, Op::SetRegs { regs: regs_at(0x4000) });
    let (_, t, op) = asked(t.resume(Event::Done));
    assert_eq!(t.phase, Phase::Disarming { addr: 0x4000 });
    assert_eq!(op, Op::Poke { addr: 0x4000, word: CODE });
    let (notice, state) = ended(t.resume(Event::Done));
    assert_eq!(notice, Some(Notice::Stopped { pc: 0x4000 }));
    assert!(matches!(state, State::Running(_)));
    assert_eq!(info(&state).brk_val, CODE);
}

#[test]
fn stop_elsewhere_is_reported_as_it_is() {
    for rip in [0u64, 0x3fff, 0x4000, 0x4002, u64::MAX] {
        let t = task(Phase::Inspecting, Some(0x4000), CODE);
        let (notice, state) = ended(t.resume(Event::Regs { regs: regs_at(rip) }));
        assert_eq!(notice, Some(Notice::Stopped { pc: rip }));
        assert!(matches!(state, State::Running(_)));
    }
    let t = task(Phase::Inspecting, None, 0);
    let (notice, _) = ended(t.resume(Event::Regs { regs: regs_at(0x4001) }));
    assert_eq!(notice, Some(Notice::Stopped { pc: 0x4001 }));
}

#[test]
fn breakpoint_at_either_end_of_memory() {
    let t = task(Phase::Inspecting, Some(u64::MAX), CODE);
    let (notice, _) = ended(t.resume(Event::Regs { regs: regs_at(0) }));
    assert_eq!(notice, Some(Notice::Stopped { pc: 0 }));

    let t = task(Phase::Inspecting, Some(0), CODE);
    let (_, t, op) = asked(t.resume(Event::Regs { regs: regs_at(1) }));
    assert_eq!(t.phase, Phase::Rewinding { addr: 0 });
    assert_eq!(op, Op::SetRegs { regs: regs_at(0) });
}

#[test]
fn termination_leaves_the_debugger_without_child() {
    for status in [ChildStatus::Exited, ChildStatus::Signaled] {
        let t = task(Phase::Awaiting, Some(0x4000), CODE);
        let (notice, state) = ended(t.resume(Event::Status { status }));
        assert_eq!(notice, Some(Notice::Terminated));
        match state {
            State::NotRunning(ZDbg { info, _state: NotRunning }) => {
                assert_eq!(info.brk_addr, Some(0x4000));
                assert_eq!(info.brk_val, CODE);
                assert_eq!(info.filename, "./target");
            }
            other => panic!("still running: {:?}", other),
        }

        let t = task(Phase::StepOverWait { addr: 0x4000, motion: Motion::Stepi }, Some(0x4000), 1);
        let (notice, state) = ended(t.resume(Event::Status { status }));
        assert_eq!(notice, Some(Notice::Terminated));
        assert!(matches!(state, State::NotRunning(_)));
    }
}

#[test]
fn install_saves_the_word_once_it_is_written() {
    let t = task(Phase::InstallRead { addr: 0x4000, after: After::Break }, Some(0x4000), 0);
    let (_, t, op) = asked(t.resume(Event::Word { word: 0xffff_ffff_ffff_ff00 }));
    assert_eq!(t.info.brk_val, 0);
    assert_eq!(
        t.phase,
        Phase::InstallWrite { addr: 0x4000, word: 0xffff_ffff_ffff_ff00, after: After::Break }
    );
    assert_eq!(op, Op::Poke { addr: 0x4000, word: 0xffff_ffff_ffff_ffcc });
    let (notice, state) = ended(t.resume(Event::Done));
    assert_eq!(notice, None);
    assert_eq!(info(&state).brk_val, 0xffff_ffff_ffff_ff00);
}

#[test]
fn registers_are_reported() {
    let t = task(Phase::ReadingRegs, None, 0);
    let (notice, state) = ended(t.resume(Event::Regs { regs: regs_at(0x1234) }));
    assert_eq!(notice, Some(Notice::Registers { regs: regs_at(0x1234) }));
    assert!(matches!(state, State::Running(_)));
}

#[test]
fn second_run_installs_the_breakpoint_again() {
    let mut child = Child::new(0);
    let (state, _) = line(start(), &["break", "0x4000"], &mut child);
    let (state, _) = line(state, &["run"], &mut child);
    let (state, _) = line(state, &["continue"], &mut child);
    assert!(matches!(state, State::NotRunning(_)));

    let mut child = Child::new(0);
    child.mem.insert(0x4000, 0x0101_0101_0101_0101);
    let (state, notices) = line(state, &["run"], &mut child);
    assert_eq!(notices, vec![Notice::Launched { pid: PID }, Notice::Stopped { pc: 0x4000 }]);
    assert_eq!(info(&state).brk_val, 0x0101_0101_0101_0101);
    assert_eq!(child.word(0x4000), 0x0101_0101_0101_0101);
}

#[test]
fn longest_command_takes_fifteen_answers() {
    let mut child = Child::new(1);
    let (state, _) = line(start(), &["break", "0x3ffc"], &mut child);
    let mut turn = state.dispatch(&["run"]);
    let mut answers = 0;
    let state = loop {
        match turn.next {
            Next::Settled(state) => break state,
            Next::Pending(task, request) => {
                answers += 1;
                turn = task.resume(child.perform(&request)).expect("the step failed");
            }
        }
    };
    assert_eq!(answers, 15);
    assert!(matches!(state, State::Running(_)));
    assert_eq!(turn.notice, Some(Notice::Stopped { pc: ENTRY }));
    assert_eq!(child.regs.rip, ENTRY);
    assert_eq!(child.word(ENTRY), CODE);
    assert_eq!(child.executed, 8);
}

#[test]
fn failure_hands_the_record_back() {
    let t = task(Phase::InstallWrite { addr: 0x4000, word: 7, after: After::Break }, Some(0x4000), 1);
    match t.resume(Event::Failed { errno: 5 }) {
        Err(fault) => {
            assert_eq!(fault.error, DbgError::Os { errno: 5 });
            assert_eq!(fault.info.pid, PID);
            assert_eq!(fault.info.brk_addr, Some(0x4000));
            assert_eq!(fault.info.brk_val, 1);
            assert_eq!(fault.info.filename, "./target");
        }
        Ok(turn) => panic!("no error: {:?}", turn),
    }
    let t = task(Phase::FirstStop { child: 99 }, None, 0);
    match t.resume(Event::Status { status: ChildStatus::Other }) {
        Err(fault) => {
            assert_eq!(fault.error, DbgError::InvalidChildState);
            assert_eq!(fault.info.pid, PID);
        }
        Ok(turn) => panic!("no error: {:?}", turn),
    }
}

#[test]
fn failed_launch_can_be_tried_again() {
    let mut child = Child::new(0);
    child.report = Some(ChildStatus::Exited);
    let (state, notices) = line(start(), &["run"], &mut child);
    assert_eq!(notices, vec![Notice::LaunchFailed]);
    assert!(matches!(state, State::NotRunning(_)));
    assert_eq!(info(&state).pid, 0);
    assert_eq!(child.ops, vec![Op::Wait]);

    let mut child = Child::new(0);
    let (state, notices) = line(state, &["run"], &mut child);
    assert_eq!(notices, vec![Notice::Launched { pid: PID }, Notice::Terminated]);
    assert!(matches!(state, State::NotRunning(_)));
}
