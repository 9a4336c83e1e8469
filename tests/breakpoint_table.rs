use deet::breakpoints::{ArmStep, ArmingPass, Breakpoint, BreakpointTable};
use deet::memory::{patch_word, TRAP_OPCODE};
use deet::status::TraceError;

#[test]
fn set_numbers_breakpoints_in_order() {
    let mut t = BreakpointTable::new();
    assert_eq!(t.set(0x401000, 0x55), 0);
    assert_eq!(t.set(0x401010, 0x48), 1);
    assert_eq!(t.len(), 2);
    assert_eq!(t.get(0x401010), Some(Breakpoint { breakpoint: 0x401010, ori_byte: 0x48 }));
    assert_eq!(t.get(0x401011), None);
}

#[test]
fn set_on_existing_address_overwrites_in_place() {
    let mut t = BreakpointTable::new();
    t.set(0x10, 0xcc);
    t.set(0x20, 0x90);
    assert_eq!(t.set(0x10, 0x55), 0);
    assert_eq!(t.len(), 2);
    assert_eq!(t.entry(0), Breakpoint { breakpoint: 0x10, ori_byte: 0x55 });
    assert_eq!(t.position(0x20), Some(1));
}

#[test]
fn arming_pass_arms_every_entry_and_records_bytes() {
    let mut t = BreakpointTable::new();
    t.set(0x1001, TRAP_OPCODE);
    t.set(0x1003, TRAP_OPCODE);
    t.set(0x2000, TRAP_OPCODE);
    // Two of the breakpoints share one word of the fresh process.
    let mut words = vec![(0x1000usize, 0x8877_6655_4433_2211u64), (0x2000usize, 0x0000_0000_0000_00f3u64)];
    let (mut pass, mut step) = ArmingPass::start(&t);
    let mut armed = Vec::new();
    loop {
        match step {
            ArmStep::Arm(addr) => {
                armed.push(addr);
                let slot = words.iter_mut().find(|(base, _)| *base == addr & !7).unwrap();
                let (new_word, old) = patch_word(slot.1, addr, TRAP_OPCODE);
                slot.1 = new_word;
                step = pass.next(&mut t, Ok(old));
            }
            ArmStep::Complete => break,
            ArmStep::Failed => panic!("no patch failed"),
        }
    }
    assert_eq!(armed, vec![0x1001, 0x1003, 0x2000]);
    assert_eq!(t.get(0x1001).unwrap().ori_byte, 0x22);
    assert_eq!(t.get(0x1003).unwrap().ori_byte, 0x44);
    assert_eq!(t.get(0x2000).unwrap().ori_byte, 0xf3);
    // Every breakpoint address now holds the trap opcode.
    assert_eq!(words[0].1, 0x8877_6655_cc33_cc11);
    assert_eq!(words[1].1, 0x0000_0000_0000_00cc);
}

#[test]
fn arming_pass_fails_on_a_failed_patch() {
    let mut t = BreakpointTable::new();
    t.set(0x1000, TRAP_OPCODE);
    t.set(0x2000, TRAP_OPCODE);
    let (mut pass, step) = ArmingPass::start(&t);
    assert_eq!(step, ArmStep::Arm(0x1000));
    assert_eq!(pass.next(&mut t, Ok(0x55)), ArmStep::Arm(0x2000));
    assert_eq!(pass.next(&mut t, Err(TraceError::Os(5))), ArmStep::Failed);
    assert_eq!(t.get(0x2000).unwrap().ori_byte, TRAP_OPCODE);
}

#[test]
fn arming_pass_on_empty_table_is_complete() {
    let t = BreakpointTable::new();
    let (_, step) = ArmingPass::start(&t);
    assert_eq!(step, ArmStep::Complete);
}
