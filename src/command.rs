//! The debugger's commands and their parsing from a tokenized input line.
use vstd::prelude::*;
use crate::text::{owned_tail, str_eq};

verus! {

/// One user command.
pub enum DebuggerCommand {
    Quit,
    Cont,
    Backtrace,
    /// `break`, with the words that follow it.
    Break(Vec<String>),
    /// `run`, with the arguments to hand to the program.
    Run(Vec<String>),
}

/// The words that name each command.
pub open spec fn is_quit_word(w: Seq<char>) -> bool {
    w == "q"@ || w == "quit"@
}

pub open spec fn is_run_word(w: Seq<char>) -> bool {
    w == "r"@ || w == "run"@
}

pub open spec fn is_cont_word(w: Seq<char>) -> bool {
    w == "c"@ || w == "cont"@ || w == "continue"@
}

pub open spec fn is_backtrace_word(w: Seq<char>) -> bool {
    w == "bt"@ || w == "back"@ || w == "backtrace"@
}

pub open spec fn is_break_word(w: Seq<char>) -> bool {
    w == "b"@ || w == "break"@
}

/// The words of `args` are those of `tokens` after the first.
pub open spec fn holds_tail(args: Seq<String>, tokens: Seq<&str>) -> bool {
    &&& tokens.len() >= 1
    &&& args.len() == tokens.len() - 1
    &&& forall|i: int| 0 <= i < args.len() ==> #[trigger] args[i]@ == tokens[i + 1]@
}

/// `r` is what a line of `tokens` means: the command that its first word
/// names, with the words after it as arguments for `run` and `break`; nothing
/// for an empty line or an unknown word.
pub open spec fn parses_as(r: Option<DebuggerCommand>, tokens: Seq<&str>) -> bool {
    if tokens.len() == 0 {
        r is None
    } else {
        let w = tokens[0]@;
        match r {
            Some(DebuggerCommand::Quit) => is_quit_word(w),
            Some(DebuggerCommand::Cont) => is_cont_word(w),
            Some(DebuggerCommand::Backtrace) => is_backtrace_word(w),
            Some(DebuggerCommand::Run(args)) => is_run_word(w) && holds_tail(args@, tokens),
            Some(DebuggerCommand::Break(args)) => is_break_word(w) && holds_tail(args@, tokens),
            None => !is_quit_word(w) && !is_cont_word(w) && !is_backtrace_word(w) && !is_run_word(w)
                && !is_break_word(w),
        }
    }
}

impl DebuggerCommand {
    /// Recognizes the command named by the first token; the remaining tokens
    /// are the arguments of `run` and `break`. Returns `None` for an empty
    /// line or an unknown command word.
    pub fn from_tokens(tokens: &Vec<&str>) -> (r: Option<DebuggerCommand>)
        ensures
            parses_as(r, tokens@),
    {
        if tokens.len() == 0 {
            return None;
        }
        let w: &str = tokens[0];
        proof {
            reveal_strlit("q");
            reveal_strlit("quit");
            reveal_strlit("r");
            reveal_strlit("run");
            reveal_strlit("c");
            reveal_strlit("cont");
            reveal_strlit("continue");
            reveal_strlit("bt");
            reveal_strlit("back");
            reveal_strlit("backtrace");
            reveal_strlit("b");
            reveal_strlit("break");
        }
        if str_eq(w, "q") || str_eq(w, "quit") {
            Some(DebuggerCommand::Quit)
        } else if str_eq(w, "r") || str_eq(w, "run") {
            Some(DebuggerCommand::Run(owned_tail(tokens, 1)))
        } else if str_eq(w, "c") || str_eq(w, "cont") || str_eq(w, "continue") {
            Some(DebuggerCommand::Cont)
        } else if str_eq(w, "bt") || str_eq(w, "back") || str_eq(w, "backtrace") {
            Some(DebuggerCommand::Backtrace)
        } else if str_eq(w, "b") || str_eq(w, "break") {
            Some(DebuggerCommand::Break(owned_tail(tokens, 1)))
        } else {
            None
        }
    }
}

} // verus!
