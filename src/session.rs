//! The debugger session: which operations each user command calls for, given
//! whether a traced process is alive, and the bookkeeping of their results.
//!
//! The caller performs the operations (killing, starting and resuming the
//! process, patching memory, walking the stack) and reports back.
use vstd::prelude::*;
use crate::address::{address_of, parse_address};
use crate::breakpoints::{Breakpoint, BreakpointTable, index_of};
use crate::command::DebuggerCommand;
use crate::memory::TRAP_OPCODE;
use crate::status::{Status, TraceError};

verus! {

/// A user mistake, reported without disturbing the session.
#[derive(Clone, Copy, Debug, PartialEq, Eq, Structural)]
pub enum UserError {
    /// The command needs a traced process and there is none.
    NoProcess,
    /// `break` without an address.
    MissingAddress,
    /// `break` with text that is not a hexadecimal address.
    BadAddress,
}

/// What a command calls for.
#[derive(Debug)]
pub enum Plan {
    /// Kill the live process first when `kill_first`, then start the program
    /// with `args`, arm the breakpoint table in it, and resume it once.
    Start { kill_first: bool, args: Vec<String> },
    /// Resume the live process.
    Resume,
    /// Walk the live process's stack.
    Walk,
    /// Patch a trap at the address in the live process and record the byte
    /// it replaced.
    PatchLive(usize),
    /// Breakpoint number `index` at `addr` is recorded with a placeholder
    /// byte; the next start arms it.
    Recorded { addr: usize, index: usize },
    /// A breakpoint at `addr` is already set (number `index`) and armed.
    AlreadySet { addr: usize, index: usize },
    /// End the session, killing the live process first when `kill`.
    Exit { kill: bool },
    /// The command cannot be carried out.
    Refuse(UserError),
}

/// The session: the breakpoint table, which outlives any one process, and
/// whether a traced process is alive.
pub struct Session {
    pub table: BreakpointTable,
    pub live: bool,
}

impl Session {
    pub open spec fn wf(&self) -> bool {
        self.table.wf()
    }

    /// A session with no process and no breakpoints.
    pub fn new() -> (r: Session)
        ensures
            r.wf(),
            !r.live,
            r.table@ == Seq::<Breakpoint>::empty(),
    {
        Session { table: BreakpointTable::new(), live: false }
    }

    /// Decides what `cmd` calls for.
    pub fn plan(&mut self, cmd: DebuggerCommand) -> (r: Plan)
        requires
            old(self).wf(),
        ensures
            final(self).wf(),
            match cmd {
                DebuggerCommand::Run(args) => r == (Plan::Start { kill_first: old(self).live, args })
                    && !final(self).live && final(self).table@ == old(self).table@,
                DebuggerCommand::Cont => *final(self) == *old(self) && if old(self).live {
                    r is Resume
                } else {
                    r == Plan::Refuse(UserError::NoProcess)
                },
                DebuggerCommand::Backtrace => *final(self) == *old(self) && if old(self).live {
                    r is Walk
                } else {
                    r == Plan::Refuse(UserError::NoProcess)
                },
                DebuggerCommand::Quit => r == (Plan::Exit { kill: old(self).live }) && !final(self).live
                    && final(self).table@ == old(self).table@,
                DebuggerCommand::Break(args) => final(self).live == old(self).live && if args.len()
                    == 0 {
                    r == Plan::Refuse(UserError::MissingAddress) && final(self).table@ == old(self).table@
                } else {
                    match address_of(args[0]@) {
                        None => r == Plan::Refuse(UserError::BadAddress) && final(self).table@
                            == old(self).table@,
                        Some(a) => {
                            let addr = a as usize;
                            if old(self).live {
                                final(self).table@ == old(self).table@ && match index_of(
                                    old(self).table@,
                                    addr,
                                ) {
                                    Some(i) => r == (Plan::AlreadySet { addr, index: i as usize }),
                                    None => r == Plan::PatchLive(addr),
                                }
                            } else {
                                match r {
                                    Plan::Recorded { addr: ra, index } => ra == addr && final(self).table.saved(addr) == TRAP_OPCODE && Self::inserted(
                                        old(self).table@,
                                        final(self).table@,
                                        addr,
                                        TRAP_OPCODE,
                                        index,
                                    ),
                                    _ => false,
                                }
                            }
                        },
                    }
                },
            },
    {
        match cmd {
            DebuggerCommand::Run(args) => {
                let kill_first = self.live;
                self.live = false;
                Plan::Start { kill_first, args }
            },
            DebuggerCommand::Cont => {
                if self.live {
                    Plan::Resume
                } else {
                    Plan::Refuse(UserError::NoProcess)
                }
            },
            DebuggerCommand::Backtrace => {
                if self.live {
                    Plan::Walk
                } else {
                    Plan::Refuse(UserError::NoProcess)
                }
            },
            DebuggerCommand::Quit => {
                let kill = self.live;
                self.live = false;
                Plan::Exit { kill }
            },
            DebuggerCommand::Break(args) => {
                if args.len() == 0 {
                    return Plan::Refuse(UserError::MissingAddress);
                }
                let addr = match parse_address(args[0].as_str()) {
                    Some(addr) => addr,
                    None => return Plan::Refuse(UserError::BadAddress),
                };
                if self.live {
                    match self.table.position(addr) {
                        Some(index) => Plan::AlreadySet { addr, index },
                        None => Plan::PatchLive(addr),
                    }
                } else {
                    let index = self.insert_breakpoint(addr, TRAP_OPCODE);
                    Plan::Recorded { addr, index }
                }
            },
        }
    }

    /// `after` is `before` with the breakpoint at `addr` set to `saved` and
    /// numbered `index`: overwritten in place if it was there, else appended.
    pub open spec fn inserted(
        before: Seq<Breakpoint>,
        after: Seq<Breakpoint>,
        addr: usize,
        saved: u8,
        index: usize,
    ) -> bool {
        let bp = Breakpoint { breakpoint: addr, ori_byte: saved };
        match index_of(before, addr) {
            Some(i) => index == i && after == before.update(i, bp),
            None => index == before.len() && after == before.push(bp),
        }
    }

    /// Records a breakpoint at `addr` whose replaced byte is `val`, and
    /// returns its number.
    pub fn insert_breakpoint(&mut self, addr: usize, val: u8) -> (r: usize)
        requires
            old(self).wf(),
        ensures
            final(self).wf(),
            final(self).live == old(self).live,
            Self::inserted(old(self).table@, final(self).table@, addr, val, r),
            final(self).table.has(addr),
            final(self).table.saved(addr) == val,
    {
        let r = self.table.set(addr, val);
        proof {
            let bp = Breakpoint { breakpoint: addr, ori_byte: val };
            assert(self.table@[r as int] == bp);
            let k = index_of(self.table@, addr)->Some_0;
            assert(self.table@[k].breakpoint == addr);
        }
        r
    }

    /// Takes the result of a `PatchLive`: the replaced byte is recorded and
    /// the breakpoint's number returned; a failed patch records nothing.
    pub fn patched(&mut self, addr: usize, result: Result<u8, TraceError>) -> (r: Result<usize, TraceError>)
        requires
            old(self).wf(),
        ensures
            final(self).wf(),
            final(self).live == old(self).live,
            match result {
                Ok(byte) => r matches Ok(index) && Self::inserted(
                    old(self).table@,
                    final(self).table@,
                    addr,
                    byte,
                    index,
                ),
                Err(e) => r == Err::<usize, TraceError>(e) && final(self).table@ == old(self).table@,
            },
    {
        match result {
            Ok(byte) => Ok(self.insert_breakpoint(addr, byte)),
            Err(e) => Err(e),
        }
    }

    /// Takes the result of starting the program: the process is alive when
    /// it started and its breakpoints were armed.
    pub fn started(&mut self, ok: bool)
        ensures
            final(self).live == ok,
            final(self).table == old(self).table,
    {
        self.live = ok;
    }

    /// Takes the result of a resume. A process that exited, was killed, or is
    /// found gone is no longer alive; one that stopped still is.
    pub fn resumed(&mut self, result: &Result<Status, TraceError>)
        ensures
            final(self).table == old(self).table,
            final(self).live == (old(self).live && match result {
                Ok(st) => !st.is_terminal(),
                Err(e) => *e != TraceError::NoSuchProcess,
            }),
    {
        let gone = match result {
            Ok(st) => st.terminal(),
            Err(e) => match e {
                TraceError::NoSuchProcess => true,
                TraceError::Os(_) => false,
            },
        };
        if gone {
            self.live = false;
        }
    }
}

} // verus!
