//! Reconstructing the call chain of a stopped process from its instruction
//! pointer, its frame-base pointer and the saved frame-pointer chain.
//!
//! `Walker` makes the decisions; the caller resolves instruction pointers to
//! functions and lines, and reads the stack words it asks for.
use vstd::prelude::*;
use crate::text::str_eq;

verus! {

/// A source line, as the symbol resolver reports it.
pub struct Line {
    pub file: String,
    pub number: usize,
}

/// One frame of a backtrace.
pub struct Frame {
    pub function: String,
    pub file: String,
}

/// What the walker needs next.
#[derive(Clone, Copy, Debug, PartialEq, Eq, Structural)]
pub enum WalkStep {
    /// Resolve this instruction pointer to a function name and a line.
    Resolve(usize),
    /// Read the caller's return address (the word at `return_at`) and the
    /// caller's frame base (the word at `frame_at`).
    ReadCaller { return_at: usize, frame_at: usize },
    /// The backtrace is complete.
    Done,
}

/// The entry function, where a backtrace ends.
pub open spec fn entry_function() -> Seq<char> {
    "main"@
}

/// A frame as plain values: function name and file.
pub open spec fn frame_view(f: Frame) -> (Seq<char>, Seq<char>) {
    (f.function@, f.file@)
}

/// Combines the two symbol lookups for one instruction pointer: the function
/// it lies in and its source line. Both must succeed.
pub fn get_file_and_fn_name(fn_name: Option<String>, line: Option<Line>) -> (r: Option<(Line, String)>)
    ensures
        r is Some <==> (fn_name is Some && line is Some),
        r matches Some((l, n)) ==> n@ == fn_name->Some_0@ && l.file@ == line->Some_0.file@
            && l.number == line->Some_0.number,
{
    let fn_name = match fn_name {
        Some(fn_name) => fn_name,
        None => return None,
    };
    let line = match line {
        Some(line) => line,
        None => return None,
    };
    Some((line, fn_name))
}

/// The state of a backtrace walk: the frames emitted so far and the current
/// instruction pointer and frame base.
pub struct Walker {
    frames: Vec<Frame>,
    ip: usize,
    base: usize,
}

impl Walker {
    /// The frames emitted so far, outermost last.
    pub closed spec fn collected(&self) -> Seq<(Seq<char>, Seq<char>)> {
        self.frames@.map_values(|f: Frame| frame_view(f))
    }

    /// The current instruction pointer.
    pub closed spec fn ip(&self) -> usize {
        self.ip
    }

    /// The current frame base.
    pub closed spec fn base(&self) -> usize {
        self.base
    }

    /// Starts a walk from the registers of the stopped process; the first
    /// step is to resolve `ip`.
    pub fn new(ip: usize, base: usize) -> (r: (Walker, WalkStep))
        ensures
            r.0.collected() == Seq::<(Seq<char>, Seq<char>)>::empty(),
            r.0.ip() == ip,
            r.0.base() == base,
            r.1 == WalkStep::Resolve(ip),
    {
        let w = Walker { frames: Vec::new(), ip, base };
        proof {
            assert(w.collected() =~= Seq::<(Seq<char>, Seq<char>)>::empty());
        }
        (w, WalkStep::Resolve(ip))
    }

    /// Takes the resolution of the current instruction pointer. An
    /// unresolvable address ends the walk; otherwise the frame is emitted, and
    /// the walk ends at the entry function or goes on to the caller.
    pub fn on_resolved(&mut self, found: Option<(Line, String)>) -> (r: WalkStep)
        ensures
            final(self).ip() == old(self).ip(),
            final(self).base() == old(self).base(),
            match found {
                None => r == WalkStep::Done && final(self).collected() == old(self).collected(),
                Some((line, name)) => {
                    &&& final(self).collected() == old(self).collected().push((name@, line.file@))
                    &&& r == if name@ == entry_function() || old(self).base() > usize::MAX - 8 {
                        WalkStep::Done
                    } else {
                        WalkStep::ReadCaller {
                            return_at: (old(self).base() + 8) as usize,
                            frame_at: old(self).base(),
                        }
                    }
                },
            },
    {
        match found {
            None => WalkStep::Done,
            Some((line, name)) => {
                proof {
                    reveal_strlit("main");
                }
                let at_entry = str_eq(name.as_str(), "main");
                let ghost before = self.collected();
                let ghost pair = (name@, line.file@);
                self.frames.push(Frame { function: name, file: line.file });
                proof {
                    assert(self.collected() =~= before.push(pair));
                }
                if at_entry || self.base > usize::MAX - 8 {
                    WalkStep::Done
                } else {
                    WalkStep::ReadCaller { return_at: self.base + 8, frame_at: self.base }
                }
            },
        }
    }

    /// Takes the two words that `ReadCaller` asked for, or `None` when either
    /// read failed. A failed read ends the walk and keeps every frame emitted
    /// before it: a broken frame chain gives a partial backtrace, not an
    /// empty one.
    pub fn on_caller(&mut self, read: Option<(usize, usize)>) -> (r: WalkStep)
        ensures
            final(self).collected() == old(self).collected(),
            match read {
                None => r == WalkStep::Done && final(self).ip() == old(self).ip()
                    && final(self).base() == old(self).base(),
                Some((ret, base)) => r == WalkStep::Resolve(ret) && final(self).ip() == ret
                    && final(self).base() == base,
            },
    {
        match read {
            None => WalkStep::Done,
            Some((ret, base)) => {
                self.ip = ret;
                self.base = base;
                WalkStep::Resolve(ret)
            },
        }
    }

    /// The number of frames emitted so far.
    pub fn len(&self) -> (r: usize)
        ensures
            r == self.collected().len(),
    {
        self.frames.len()
    }

    /// The frames emitted, outermost last.
    pub fn into_frames(self) -> (r: Vec<Frame>)
        ensures
            r@.map_values(|f: Frame| frame_view(f)) == self.collected(),
    {
        self.frames
    }
}

} // verus!
