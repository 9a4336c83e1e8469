//! The breakpoint table: which addresses should trap, and the instruction byte
//! that each trap replaces. It records user intent and survives across runs
//! of the traced program.
use vstd::prelude::*;
use crate::memory::{resident, TRAP_OPCODE};
use crate::status::TraceError;

verus! {

/// A breakpoint: its address and the instruction byte the trap overwrote.
#[derive(Clone, Copy, Debug, PartialEq, Eq, Structural)]
pub struct Breakpoint {
    pub breakpoint: usize,
    pub ori_byte: u8,
}

/// Breakpoints in the order they were first set, at most one per address.
pub struct BreakpointTable {
    entries: Vec<Breakpoint>,
}

/// No address occurs twice in `s`.
pub open spec fn distinct_addresses(s: Seq<Breakpoint>) -> bool {
    forall|i: int, j: int|
        0 <= i < s.len() && 0 <= j < s.len() && i != j ==> #[trigger] s[i].breakpoint
            != #[trigger] s[j].breakpoint
}

/// The position of the entry for `addr` in `s`, if there is one.
pub open spec fn index_of(s: Seq<Breakpoint>, addr: usize) -> Option<int> {
    if exists|i: int| 0 <= i < s.len() && s[i].breakpoint == addr {
        Some(choose|i: int| 0 <= i < s.len() && s[i].breakpoint == addr)
    } else {
        None
    }
}

impl View for BreakpointTable {
    type V = Seq<Breakpoint>;

    closed spec fn view(&self) -> Seq<Breakpoint> {
        self.entries@
    }
}

impl BreakpointTable {
    pub open spec fn wf(&self) -> bool {
        distinct_addresses(self@)
    }

    /// Whether `addr` has an entry.
    pub open spec fn has(&self, addr: usize) -> bool {
        index_of(self@, addr) is Some
    }

    /// The instruction byte recorded for `addr` (meaningful when `has(addr)`).
    pub open spec fn saved(&self, addr: usize) -> u8 {
        self@[index_of(self@, addr)->Some_0].ori_byte
    }

    /// An empty table.
    pub fn new() -> (r: BreakpointTable)
        ensures
            r.wf(),
            r@ == Seq::<Breakpoint>::empty(),
    {
        BreakpointTable { entries: Vec::new() }
    }

    /// Number of breakpoints.
    pub fn len(&self) -> (r: usize)
        ensures
            r == self@.len(),
    {
        self.entries.len()
    }

    /// The `i`-th breakpoint in order of first setting.
    pub fn entry(&self, i: usize) -> (r: Breakpoint)
        requires
            i < self@.len(),
        ensures
            r == self@[i as int],
    {
        self.entries[i]
    }

    /// The position of `addr`'s entry.
    pub fn position(&self, addr: usize) -> (r: Option<usize>)
        requires
            self.wf(),
        ensures
            match r {
                Some(i) => i < self@.len() && self@[i as int].breakpoint == addr && index_of(
                    self@,
                    addr,
                ) == Some(i as int),
                None => index_of(self@, addr) is None,
            },
    {
        let mut i: usize = 0;
        while i < self.entries.len()
            invariant
                self.wf(),
                i <= self@.len(),
                forall|j: int| 0 <= j < i ==> self@[j].breakpoint != addr,
            decreases self@.len() - i,
        {
            if self.entries[i].breakpoint == addr {
                proof {
                    let k = choose|k: int| 0 <= k < self@.len() && self@[k].breakpoint == addr;
                    assert(k == i as int);
                }
                return Some(i);
            }
            i += 1;
        }
        None
    }

    /// The breakpoint at `addr`, if one is set.
    pub fn get(&self, addr: usize) -> (r: Option<Breakpoint>)
        requires
            self.wf(),
        ensures
            self.has(addr) <==> r is Some,
            r matches Some(bp) ==> bp.breakpoint == addr && bp.ori_byte == self.saved(addr),
    {
        match self.position(addr) {
            Some(i) => Some(self.entries[i]),
            None => None,
        }
    }

    /// Sets a breakpoint at `addr` whose replaced instruction byte is `saved`:
    /// overwrites the entry for `addr` if there is one, else appends a new one.
    /// Returns the entry's 0-based position, the breakpoint's number for the user.
    pub fn set(&mut self, addr: usize, saved: u8) -> (r: usize)
        requires
            old(self).wf(),
        ensures
            final(self).wf(),
            old(self).has(addr) ==> r == index_of(old(self)@, addr)->Some_0 && final(self)@
                == old(self)@.update(r as int, Breakpoint { breakpoint: addr, ori_byte: saved }),
            !old(self).has(addr) ==> r == old(self)@.len() && final(self)@ == old(self)@.push(
                Breakpoint { breakpoint: addr, ori_byte: saved },
            ),
    {
        let bp = Breakpoint { breakpoint: addr, ori_byte: saved };
        match self.position(addr) {
            Some(i) => {
                self.entries.set(i, bp);
                i
            },
            None => {
                let n = self.entries.len();
                self.entries.push(bp);
                n
            },
        }
    }

    /// Records `byte` as the instruction byte of the `i`-th breakpoint.
    pub fn record_saved(&mut self, i: usize, byte: u8)
        requires
            old(self).wf(),
            i < old(self)@.len(),
        ensures
            final(self).wf(),
            final(self)@ == old(self)@.update(
                i as int,
                Breakpoint { breakpoint: old(self)@[i as int].breakpoint, ori_byte: byte },
            ),
    {
        let addr = self.entries[i].breakpoint;
        self.entries.set(i, Breakpoint { breakpoint: addr, ori_byte: byte });
    }
}

/// What the arming pass of a freshly started process asks for next.
#[derive(Clone, Copy, Debug, PartialEq, Eq, Structural)]
pub enum ArmStep {
    /// Patch `TRAP_OPCODE` over the byte at this address and report the byte
    /// that was there.
    Arm(usize),
    /// Every breakpoint is armed.
    Complete,
    /// A patch failed: the process cannot be used.
    Failed,
}

/// Arms every breakpoint of a table, in table order, recording the
/// instruction byte found under each trap.
pub struct ArmingPass {
    next: usize,
}

impl ArmingPass {
    /// The position of the breakpoint being armed.
    pub closed spec fn index(&self) -> int {
        self.next as int
    }

    /// The step that arms the `i`-th breakpoint, or ends the pass after the last.
    pub open spec fn step_for(table: Seq<Breakpoint>, i: int) -> ArmStep {
        if i < table.len() {
            ArmStep::Arm(table[i].breakpoint)
        } else {
            ArmStep::Complete
        }
    }

    /// Starts arming the breakpoints of `table`.
    pub fn start(table: &BreakpointTable) -> (r: (ArmingPass, ArmStep))
        ensures
            r.0.index() == 0,
            r.1 == Self::step_for(table@, 0),
    {
        let step = if table.len() > 0 {
            ArmStep::Arm(table.entry(0).breakpoint)
        } else {
            ArmStep::Complete
        };
        (ArmingPass { next: 0 }, step)
    }

    /// Takes the result of the patch that `Arm` asked for: the byte it
    /// replaced, which is recorded, or the error, which ends the pass.
    pub fn next(&mut self, table: &mut BreakpointTable, patched: Result<u8, TraceError>) -> (r:
        ArmStep)
        requires
            old(table).wf(),
            old(self).index() < old(table)@.len(),
        ensures
            final(table).wf(),
            match patched {
                Ok(byte) => {
                    &&& final(table)@ == old(table)@.update(
                        old(self).index(),
                        Breakpoint {
                            breakpoint: old(table)@[old(self).index()].breakpoint,
                            ori_byte: byte,
                        },
                    )
                    &&& final(self).index() == old(self).index() + 1
                    &&& r == Self::step_for(final(table)@, final(self).index())
                },
                Err(_) => final(table)@ == old(table)@ && r == ArmStep::Failed && *final(self)
                    == *old(self),
            },
    {
        match patched {
            Ok(byte) => {
                let n = table.len();
                table.record_saved(self.next, byte);
                self.next = self.next + 1;
                if self.next < table.len() {
                    ArmStep::Arm(table.entry(self.next).breakpoint)
                } else {
                    ArmStep::Complete
                }
            },
            Err(_) => ArmStep::Failed,
        }
    }
}

/// The byte writes of a completed arming pass over `table`: the trap opcode at
/// each breakpoint's address, in table order.
pub open spec fn arm_writes(table: Seq<Breakpoint>) -> Seq<(usize, u8)> {
    table.map_values(|bp: Breakpoint| (bp.breakpoint, TRAP_OPCODE))
}

/// When every write of `writes` puts `v`, and one of them is at `addr`, the
/// byte resident at `addr` afterwards is `v`.
proof fn lemma_uniform_writes(writes: Seq<(usize, u8)>, addr: usize, v: u8, initial: u8)
    requires
        forall|i: int| 0 <= i < writes.len() ==> (#[trigger] writes[i]).1 == v,
        exists|i: int| 0 <= i < writes.len() && (#[trigger] writes[i]).0 == addr,
    ensures
        resident(writes, addr, initial) == v,
    decreases writes.len(),
{
    if writes.last().0 != addr {
        let w = writes.drop_last();
        let i = choose|i: int| 0 <= i < writes.len() && (#[trigger] writes[i]).0 == addr;
        assert(w[i].0 == addr);
        lemma_uniform_writes(w, addr, v, initial);
    }
}

/// After a completed arming pass in a fresh process, every address in the
/// table holds the trap opcode, whatever byte each held before: a new run
/// re-arms every breakpoint before the process is first continued.
pub proof fn lemma_rerun_rearms(table: BreakpointTable, addr: usize, before: u8)
    requires
        table.wf(),
        table.has(addr),
    ensures
        resident(arm_writes(table@), addr, before) == TRAP_OPCODE,
{
    let w = arm_writes(table@);
    let i = index_of(table@, addr)->Some_0;
    assert(w[i].0 == addr);
    lemma_uniform_writes(w, addr, TRAP_OPCODE, before);
}

} // verus!
