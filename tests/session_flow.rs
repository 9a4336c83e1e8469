use deet::backtrace::{get_file_and_fn_name, Line, WalkStep, Walker};
use deet::breakpoints::{ArmStep, ArmingPass};
use deet::command::DebuggerCommand;
use deet::memory::{patch_word, TRAP_OPCODE};
use deet::resume::{Effect, Outcome, Resume};
use deet::session::{Plan, Session, UserError};
use deet::status::{Status, TraceError, SIGTRAP};

fn brk(text: &str) -> DebuggerCommand {
    DebuggerCommand::Break(vec![text.to_string()])
}

/// Starts the program in a simulated fresh process whose code word at
/// `base` is `word`; returns the word after the arming pass.
fn start(session: &mut Session, base: usize, word: u64) -> u64 {
    let mut word = word;
    let (mut pass, mut step) = ArmingPass::start(&session.table);
    loop {
        match step {
            ArmStep::Arm(addr) => {
                assert_eq!(addr & !7, base);
                let (w, old) = patch_word(word, addr, TRAP_OPCODE);
                word = w;
                step = pass.next(&mut session.table, Ok(old));
            }
            ArmStep::Complete => break,
            ArmStep::Failed => panic!("arming failed"),
        }
    }
    session.started(true);
    word
}

#[test]
fn continue_without_process_is_a_user_error() {
    let mut s = Session::new();
    assert!(matches!(s.plan(DebuggerCommand::Cont), Plan::Refuse(UserError::NoProcess)));
    assert!(matches!(s.plan(DebuggerCommand::Backtrace), Plan::Refuse(UserError::NoProcess)));
    // The session still takes commands.
    assert!(matches!(s.plan(brk("0x10")), Plan::Recorded { addr: 0x10, index: 0 }));
    assert!(matches!(s.plan(DebuggerCommand::Quit), Plan::Exit { kill: false }));
}

#[test]
fn break_reports_missing_and_bad_addresses() {
    let mut s = Session::new();
    assert!(matches!(s.plan(DebuggerCommand::Break(vec![])), Plan::Refuse(UserError::MissingAddress)));
    assert!(matches!(s.plan(brk("xyz")), Plan::Refuse(UserError::BadAddress)));
    assert_eq!(s.table.len(), 0);
}

#[test]
fn break_before_run_stops_on_first_continue() {
    let mut s = Session::new();
    assert!(matches!(s.plan(brk("0x401136")), Plan::Recorded { addr: 0x401136, index: 0 }));
    assert_eq!(s.table.get(0x401136).unwrap().ori_byte, TRAP_OPCODE);
    match s.plan(DebuggerCommand::Run(vec![])) {
        Plan::Start { kill_first, args } => {
            assert!(!kill_first);
            assert!(args.is_empty());
        }
        _ => panic!("expected start"),
    }
    let word = start(&mut s, 0x401130, 0x4855_c3c9_0000_0000);
    assert_eq!(word, 0x48cc_c3c9_0000_0000);
    assert_eq!(s.table.get(0x401136).unwrap().ori_byte, 0x55);
    // The first resume is from the program's entry, not a breakpoint.
    let (mut r, e) = Resume::start(&s.table, 0x401020);
    assert_eq!(e, Effect::Continue);
    let hit = Ok(Status::Stopped(SIGTRAP, 0x401137));
    assert_eq!(r.next(Outcome::Waited(hit)), Effect::Finish(hit));
    s.resumed(&hit);
    assert!(s.live);
}

#[test]
fn break_with_live_process_patches_and_records() {
    let mut s = Session::new();
    s.plan(DebuggerCommand::Run(vec![]));
    s.started(true);
    assert!(matches!(s.plan(brk("401136")), Plan::PatchLive(0x401136)));
    assert_eq!(s.patched(0x401136, Ok(0x55)), Ok(0));
    assert!(matches!(s.plan(brk("0x401136")), Plan::AlreadySet { addr: 0x401136, index: 0 }));
    assert_eq!(s.patched(0x500000, Err(TraceError::Os(5))), Err(TraceError::Os(5)));
    assert_eq!(s.table.len(), 1);
}

#[test]
fn run_while_stopped_kills_first_and_exit_ends_process() {
    let mut s = Session::new();
    s.plan(DebuggerCommand::Run(vec!["x".to_string()]));
    s.started(true);
    assert!(matches!(s.plan(DebuggerCommand::Run(vec![])), Plan::Start { kill_first: true, .. }));
    s.started(true);
    s.resumed(&Ok(Status::Exited(0)));
    assert!(!s.live);
    assert!(matches!(s.plan(DebuggerCommand::Cont), Plan::Refuse(UserError::NoProcess)));
    s.started(true);
    s.resumed(&Err(TraceError::NoSuchProcess));
    assert!(!s.live);
    s.started(true);
    s.resumed(&Err(TraceError::Os(4)));
    assert!(s.live);
    assert!(matches!(s.plan(DebuggerCommand::Quit), Plan::Exit { kill: true }));
    assert!(!s.live);
}

#[test]
fn breakpoint_in_compute_then_backtrace_then_exit() {
    let mut s = Session::new();
    s.plan(brk("0x401136"));
    s.plan(DebuggerCommand::Run(vec![]));
    start(&mut s, 0x401130, 0x4855_c3c9_0000_0000);
    let (mut r, e) = Resume::start(&s.table, 0x401020);
    assert_eq!(e, Effect::Continue);
    let stop = Ok(Status::Stopped(SIGTRAP, 0x401137));
    assert_eq!(r.next(Outcome::Waited(stop)), Effect::Finish(stop));
    s.resumed(&stop);

    assert!(matches!(s.plan(DebuggerCommand::Backtrace), Plan::Walk));
    let line = |f: &str| Some(Line { file: f.to_string(), number: 3 });
    let (mut w, step) = Walker::new(0x401137, 0x7ffe_1000);
    assert_eq!(step, WalkStep::Resolve(0x401137));
    let step = w.on_resolved(get_file_and_fn_name(Some("compute".to_string()), line("prog.c")));
    assert_eq!(step, WalkStep::ReadCaller { return_at: 0x7ffe_1008, frame_at: 0x7ffe_1000 });
    assert_eq!(w.on_caller(Some((0x401190, 0x7ffe_1030))), WalkStep::Resolve(0x401190));
    let step = w.on_resolved(get_file_and_fn_name(Some("main".to_string()), line("prog.c")));
    assert_eq!(step, WalkStep::Done);
    let frames = w.into_frames();
    let names: Vec<&str> = frames.iter().map(|f| f.function.as_str()).collect();
    assert_eq!(names, vec!["compute", "main"]);

    assert!(matches!(s.plan(DebuggerCommand::Cont), Plan::Resume));
    let (mut r, e) = Resume::start(&s.table, 0x401137);
    assert_eq!(e, Effect::WriteByte(0x401136, 0x55));
    assert_eq!(r.next(Outcome::Done), Effect::SetIp(0x401136));
    assert_eq!(r.next(Outcome::Done), Effect::SingleStep);
    let stepped = Outcome::Waited(Ok(Status::Stopped(SIGTRAP, 0x401137)));
    assert_eq!(r.next(stepped), Effect::WriteByte(0x401136, TRAP_OPCODE));
    assert_eq!(r.next(Outcome::Done), Effect::Continue);
    let exited = Ok(Status::Exited(0));
    assert_eq!(r.next(Outcome::Waited(exited)), Effect::Finish(exited));
    s.resumed(&exited);
    assert!(!s.live);
}
