use deet::backtrace::{get_file_and_fn_name, Line, WalkStep, Walker};

fn resolved(name: &str, file: &str) -> Option<(Line, String)> {
    get_file_and_fn_name(Some(name.to_string()), Some(Line { file: file.to_string(), number: 7 }))
}

#[test]
fn lookup_needs_both_function_and_line() {
    assert!(get_file_and_fn_name(None, Some(Line { file: "a.c".to_string(), number: 1 })).is_none());
    assert!(get_file_and_fn_name(Some("f".to_string()), None).is_none());
    let (line, name) = resolved("f", "a.c").unwrap();
    assert_eq!(name, "f");
    assert_eq!(line.file, "a.c");
    assert_eq!(line.number, 7);
}

#[test]
fn walk_stops_at_main_with_two_frames() {
    let (mut w, step) = Walker::new(0x401137, 0x7ffe_0010);
    assert_eq!(step, WalkStep::Resolve(0x401137));
    let step = w.on_resolved(resolved("compute", "prog.c"));
    assert_eq!(step, WalkStep::ReadCaller { return_at: 0x7ffe_0018, frame_at: 0x7ffe_0010 });
    let step = w.on_caller(Some((0x401180, 0x7ffe_0040)));
    assert_eq!(step, WalkStep::Resolve(0x401180));
    assert_eq!(w.on_resolved(resolved("main", "prog.c")), WalkStep::Done);
    let frames = w.into_frames();
    assert_eq!(frames.len(), 2);
    assert_eq!(frames[0].function, "compute");
    assert_eq!(frames[1].function, "main");
    assert_eq!(frames[1].file, "prog.c");
}

#[test]
fn broken_frame_chain_keeps_collected_frames() {
    let (mut w, _) = Walker::new(0x401200, 0x10);
    w.on_resolved(resolved("leaf", "x.c"));
    w.on_caller(Some((0x401300, 0xdead_0000)));
    assert!(matches!(w.on_resolved(resolved("middle", "x.c")), WalkStep::ReadCaller { .. }));
    assert_eq!(w.on_caller(None), WalkStep::Done);
    assert_eq!(w.len(), 2);
    let frames = w.into_frames();
    assert_eq!(frames[0].function, "leaf");
    assert_eq!(frames[1].function, "middle");
}

#[test]
fn unresolvable_frame_ends_walk() {
    let (mut w, _) = Walker::new(0x10, 0x20);
    assert_eq!(w.on_resolved(None), WalkStep::Done);
    assert_eq!(w.len(), 0);
}

#[test]
fn frame_base_at_top_of_memory_ends_walk() {
    let (mut w, _) = Walker::new(0x10, usize::MAX - 3);
    assert_eq!(w.on_resolved(resolved("f", "y.c")), WalkStep::Done);
    assert_eq!(w.len(), 1);
}
