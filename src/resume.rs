//! Resuming a stopped process, stepping transparently past a breakpoint it
//! has just hit.
//!
//! A breakpoint overwrites an instruction with a one-byte trap, and the CPU
//! reports the trap with the instruction pointer one past it. To resume from
//! there, the real instruction is put back, the instruction pointer rewound
//! onto it, exactly one instruction single-stepped, the trap written again,
//! and only then the process continued. `Resume` makes these decisions; the
//! caller performs each `Effect` on the process and reports its `Outcome`.
use vstd::prelude::*;
use crate::breakpoints::BreakpointTable;
use crate::memory::TRAP_OPCODE;
use crate::status::{Status, TraceError};

verus! {

/// One operation on the stopped process.
#[derive(Clone, Copy, Debug, PartialEq, Eq)]
pub enum Effect {
    /// Patch the byte at the address with the value; the result is not needed.
    WriteByte(usize, u8),
    /// Set the instruction pointer to the address; the result is not needed.
    SetIp(usize),
    /// Single-step one instruction, then wait for the process.
    SingleStep,
    /// Continue the process, then wait for it.
    Continue,
    /// Resuming is over, with this result.
    Finish(Result<Status, TraceError>),
}

/// What performing an `Effect` gave.
#[derive(Clone, Copy, Debug, PartialEq, Eq)]
pub enum Outcome {
    /// A `WriteByte` or `SetIp` was carried out (successfully or not).
    Done,
    /// The wait after `SingleStep` or `Continue` returned this (or the
    /// request itself failed with this error).
    Waited(Result<Status, TraceError>),
}

/// Which outcome the protocol waits for.
#[derive(Clone, Copy, Debug, PartialEq, Eq, Structural)]
pub enum Phase {
    AwaitDisarm,
    AwaitRewind,
    AwaitStep,
    AwaitRearm,
    AwaitContinue,
    Finished,
}

/// The state of one resume.
#[derive(Clone, Copy, Debug, PartialEq, Eq, Structural)]
pub struct Resume {
    pub phase: Phase,
    /// The address of the breakpoint being stepped over.
    pub addr: usize,
}

/// The byte writes among `effects`, in order.
pub open spec fn writes_of(effects: Seq<Effect>) -> Seq<(usize, u8)>
    decreases effects.len(),
{
    if effects.len() == 0 {
        Seq::empty()
    } else {
        let rest = writes_of(effects.drop_last());
        match effects.last() {
            Effect::WriteByte(a, v) => rest.push((a, v)),
            _ => rest,
        }
    }
}

/// How many single steps `effects` holds.
pub open spec fn step_count(effects: Seq<Effect>) -> nat
    decreases effects.len(),
{
    if effects.len() == 0 {
        0
    } else {
        step_count(effects.drop_last()) + if effects.last() is SingleStep {
            1nat
        } else {
            0nat
        }
    }
}

impl Resume {
    /// How a resume from instruction pointer `ip` begins: when `ip - 1` holds
    /// a breakpoint, by restoring its instruction byte; otherwise by simply
    /// continuing.
    pub open spec fn start_spec(table: BreakpointTable, ip: usize) -> (Resume, Effect) {
        if ip >= 1 && table.has((ip - 1) as usize) {
            let a = (ip - 1) as usize;
            (Resume { phase: Phase::AwaitDisarm, addr: a }, Effect::WriteByte(a, table.saved(a)))
        } else {
            (Resume { phase: Phase::AwaitContinue, addr: ip }, Effect::Continue)
        }
    }

    /// Whether `o` is the kind of outcome the protocol waits for in state `s`.
    pub open spec fn accepts(s: Resume, o: Outcome) -> bool {
        match s.phase {
            Phase::AwaitDisarm | Phase::AwaitRewind | Phase::AwaitRearm => o is Done,
            Phase::AwaitStep | Phase::AwaitContinue => o is Waited,
            Phase::Finished => false,
        }
    }

    /// The next state and effect after outcome `o` in state `s`.
    pub open spec fn transition(s: Resume, o: Outcome) -> (Resume, Effect) {
        match s.phase {
            Phase::AwaitDisarm => (Resume { phase: Phase::AwaitRewind, ..s }, Effect::SetIp(s.addr)),
            Phase::AwaitRewind => (Resume { phase: Phase::AwaitStep, ..s }, Effect::SingleStep),
            Phase::AwaitStep => match o {
                Outcome::Waited(Ok(st)) => if st.is_terminal() {
                    // nothing is left to re-arm
                    (Resume { phase: Phase::Finished, ..s }, Effect::Finish(Ok(st)))
                } else {
                    (
                        Resume { phase: Phase::AwaitRearm, ..s },
                        Effect::WriteByte(s.addr, TRAP_OPCODE),
                    )
                },
                // the step failed: the breakpoint stays disarmed, the process goes on
                _ => (Resume { phase: Phase::AwaitContinue, ..s }, Effect::Continue),
            },
            Phase::AwaitRearm => (Resume { phase: Phase::AwaitContinue, ..s }, Effect::Continue),
            _ => match o {
                Outcome::Waited(r) => (Resume { phase: Phase::Finished, ..s }, Effect::Finish(r)),
                _ => (s, Effect::Finish(Err(TraceError::NoSuchProcess))),
            },
        }
    }

    /// The effects that follow state `s` when the outcomes are `outcomes`,
    /// up to the first outcome that does not fit.
    pub open spec fn run(s: Resume, outcomes: Seq<Outcome>) -> Seq<Effect>
        decreases outcomes.len(),
    {
        if outcomes.len() == 0 || !Self::accepts(s, outcomes[0]) {
            Seq::empty()
        } else {
            let (s2, e) = Self::transition(s, outcomes[0]);
            seq![e] + Self::run(s2, outcomes.drop_first())
        }
    }

    /// Begins resuming a process stopped at instruction pointer `ip`.
    pub fn start(table: &BreakpointTable, ip: usize) -> (r: (Resume, Effect))
        requires
            table.wf(),
        ensures
            r == Self::start_spec(*table, ip),
    {
        if ip >= 1 {
            let a = ip - 1;
            match table.get(a) {
                Some(bp) => {
                    return (Resume { phase: Phase::AwaitDisarm, addr: a }, Effect::WriteByte(a, bp.ori_byte));
                },
                None => {},
            }
        }
        (Resume { phase: Phase::AwaitContinue, addr: ip }, Effect::Continue)
    }

    /// Takes the outcome of the last effect and returns the next one.
    pub fn next(&mut self, o: Outcome) -> (r: Effect)
        requires
            Self::accepts(*old(self), o),
        ensures
            (*final(self), r) == Self::transition(*old(self), o),
    {
        let a = self.addr;
        match self.phase {
            Phase::AwaitDisarm => {
                self.phase = Phase::AwaitRewind;
                Effect::SetIp(a)
            },
            Phase::AwaitRewind => {
                self.phase = Phase::AwaitStep;
                Effect::SingleStep
            },
            Phase::AwaitStep => match o {
                Outcome::Waited(Ok(st)) => if st.terminal() {
                    self.phase = Phase::Finished;
                    Effect::Finish(Ok(st))
                } else {
                    self.phase = Phase::AwaitRearm;
                    Effect::WriteByte(a, TRAP_OPCODE)
                },
                _ => {
                    self.phase = Phase::AwaitContinue;
                    Effect::Continue
                },
            },
            Phase::AwaitRearm => {
                self.phase = Phase::AwaitContinue;
                Effect::Continue
            },
            _ => match o {
                Outcome::Waited(r) => {
                    self.phase = Phase::Finished;
                    Effect::Finish(r)
                },
                _ => Effect::Finish(Err(TraceError::NoSuchProcess)),
            },
        }
    }
}

/// Resuming a process stopped just past a breakpoint at `a`, when the single
/// step ends in an ordinary stop, restores the instruction, rewinds onto it,
/// executes it exactly once, writes the trap back, and then continues: the
/// byte resident at `a` afterwards is the trap opcode, not the saved byte.
pub proof fn lemma_resume_past_breakpoint(
    table: BreakpointTable,
    a: usize,
    signal: i32,
    ip_after_step: usize,
    last: Result<Status, TraceError>,
    before: u8,
)
    requires
        table.wf(),
        table.has(a),
        a < usize::MAX,
    ensures
        ({
            let (s0, e0) = Resume::start_spec(table, (a + 1) as usize);
            let outcomes = seq![
                Outcome::Done,
                Outcome::Done,
                Outcome::Waited(Ok(Status::Stopped(signal, ip_after_step))),
                Outcome::Done,
                Outcome::Waited(last),
            ];
            let effects = seq![e0] + Resume::run(s0, outcomes);
            &&& effects == seq![
                Effect::WriteByte(a, table.saved(a)),
                Effect::SetIp(a),
                Effect::SingleStep,
                Effect::WriteByte(a, TRAP_OPCODE),
                Effect::Continue,
                Effect::Finish(last),
            ]
            &&& step_count(effects) == 1
            &&& crate::memory::resident(writes_of(effects), a, before) == TRAP_OPCODE
        }),
{
    let (s0, e0) = Resume::start_spec(table, (a + 1) as usize);
    let outcomes = seq![
        Outcome::Done,
        Outcome::Done,
        Outcome::Waited(Ok(Status::Stopped(signal, ip_after_step))),
        Outcome::Done,
        Outcome::Waited(last),
    ];
    let effects = seq![e0] + Resume::run(s0, outcomes);
    let expected = seq![
        Effect::WriteByte(a, table.saved(a)),
        Effect::SetIp(a),
        Effect::SingleStep,
        Effect::WriteByte(a, TRAP_OPCODE),
        Effect::Continue,
        Effect::Finish(last),
    ];
    reveal_with_fuel(Resume::run, 6);
    assert(outcomes.drop_first().drop_first().drop_first().drop_first().drop_first().len() == 0);
    assert(effects =~= expected);
    reveal_with_fuel(writes_of, 7);
    reveal_with_fuel(step_count, 7);
    assert(expected.drop_last().drop_last().drop_last().drop_last().drop_last().drop_last().len()
        == 0);
    assert(writes_of(expected) =~= seq![(a, table.saved(a)), (a, TRAP_OPCODE)]);
    reveal_with_fuel(crate::memory::resident, 2);
}

} // verus!
