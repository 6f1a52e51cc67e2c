//! What the engine asks of the platform that runs the traced child, and what
//! the platform answers.
//!
//! The engine itself performs no system call. Each step of a command ends
//! either settled or with one [`Request`]; the caller performs it and hands
//! the resulting [`Event`] back.

use vstd::prelude::*;
use crate::address::AddressError;
use crate::dbg::DbgInfo;
use crate::registers::Registers;

verus! {

/// How a wait on the child ended.
#[derive(Clone, Copy, Debug, PartialEq, Eq, Structural)]
pub enum ChildStatus {
    /// The child is stopped and under trace.
    Stopped,
    /// The child exited.
    Exited,
    /// A signal killed the child.
    Signaled,
    /// Any other report.
    Other,
}

impl ChildStatus {
    /// The child is gone, by exit or by signal.
    pub open spec fn is_terminated(self) -> bool {
        self is Exited || self is Signaled
    }
}

/// One operation on a traced child.
#[derive(Clone, Copy, Debug, PartialEq, Eq, Structural)]
pub enum Op {
    /// Block until the child changes state.
    Wait,
    /// Read the memory word at `addr`.
    Peek { addr: u64 },
    /// Write `word` to the memory at `addr`.
    Poke { addr: u64, word: u64 },
    /// Read the register file.
    GetRegs,
    /// Write the register file.
    SetRegs { regs: Registers },
    /// Let the child execute one machine instruction.
    Step,
    /// Let the child run freely.
    Resume,
    /// Send the child the kill signal.
    Kill,
}

/// What the caller has to do next.
#[derive(Debug)]
pub enum Request {
    /// Fork; in the child switch off address-space randomization, ask to be
    /// traced and replace the image by the executable that the record of the
    /// pending task names, with the arguments `argv`.
    Spawn { argv: Vec<String> },
    /// Perform `op` on the child `pid`.
    Trace { pid: i32, op: Op },
}

/// What the platform answered.
#[derive(Clone, Copy, Debug, PartialEq, Eq, Structural)]
pub enum Event {
    /// The fork succeeded; `pid` is the child.
    Spawned { pid: i32 },
    /// The wait returned.
    Status { status: ChildStatus },
    /// The memory word that was read.
    Word { word: u64 },
    /// The register file that was read.
    Regs { regs: Registers },
    /// The operation succeeded and has no result.
    Done,
    /// The system call failed with `errno`.
    Failed { errno: i32 },
}

/// Something to tell the user.
#[derive(Clone, Copy, Debug, PartialEq, Eq, Structural)]
pub enum Notice {
    /// The list of commands was asked for.
    Help,
    /// The command needs a running target.
    NotRunning,
    /// The target is running already.
    AlreadyRunning,
    /// A breakpoint is registered already, at `addr`.
    BreakpointTaken { addr: u64 },
    /// `break` was given no address.
    AddressMissing,
    /// The argument of `break` is no address.
    AddressRejected { why: AddressError },
    /// The target was started as process `pid`.
    Launched { pid: i32 },
    /// The target could not be started: the child was gone before it ever
    /// stopped.
    LaunchFailed,
    /// The child stopped with its instruction pointer at `pc`.
    Stopped { pc: u64 },
    /// The child terminated.
    Terminated,
    /// The register file that was asked for.
    Registers { regs: Registers },
}

/// Why a command was abandoned.
#[derive(Clone, Copy, Debug, PartialEq, Eq, Structural)]
pub enum DbgError {
    /// The first wait on the new child reported neither a stop nor its end.
    InvalidChildState,
    /// A later wait reported neither a stop nor the end of the child.
    InvalidWaitStatus,
    /// A system call failed with `errno`.
    Os { errno: i32 },
    /// The event does not answer the request that was made.
    UnexpectedEvent,
}

/// An abandoned command: the reason, and the record as it stood before the
/// step that failed.
#[derive(Debug)]
pub struct Fault {
    pub error: DbgError,
    pub info: DbgInfo,
}

} // verus!
