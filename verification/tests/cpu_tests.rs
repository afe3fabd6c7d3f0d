use nes_core::bus::Bus;
use nes_core::cpu::CPU;
use nes_core::errors::EmuError;
use nes_core::ppu::PPU;

fn make_cpu_with_empty_bus() -> CPU {
    let bus = Bus::new(PPU::new());
    CPU::new(bus)
}

/// Places a program in internal RAM and points the program counter at it.
fn load_program(cpu: &mut CPU, start: u16, program: &[u8]) {
    for (i, byte) in program.iter().enumerate() {
        cpu.bus.write_memory(start + i as u16, *byte).unwrap();
    }
    cpu.pc = start;
}

#[test]
fn adc_immediate_flags_round_trip() {
    let mut cpu = make_cpu_with_empty_bus();
    cpu.accum = 0x00;
    cpu.st = 0x6e;
    load_program(&mut cpu, 0x0200, &[0x69, 0x69]);
    cpu.step().unwrap();
    assert_eq!(cpu.st, 0x2c);
    assert_eq!(cpu.accum, 0x69);
    assert_eq!(cpu.pc, 0x0202);
}

#[test]
fn adc_sets_carry_and_overflow() {
    let mut cpu = make_cpu_with_empty_bus();
    cpu.accum = 0x50;
    cpu.st = 0x00;
    load_program(&mut cpu, 0x0200, &[0x69, 0x50]);
    cpu.step().unwrap();
    // 0x50 + 0x50 = 0xa0: signed overflow, negative, no carry.
    assert_eq!(cpu.accum, 0xa0);
    assert_eq!(cpu.st & 0x01, 0x00);
    assert_eq!(cpu.st & 0x40, 0x40);
    assert_eq!(cpu.st & 0x80, 0x80);

    let mut cpu2 = make_cpu_with_empty_bus();
    cpu2.accum = 0xff;
    cpu2.st = 0x01;
    load_program(&mut cpu2, 0x0200, &[0x69, 0x00]);
    cpu2.step().unwrap();
    // 0xff + 0x00 + carry = 0x100: wraps to zero with carry out.
    assert_eq!(cpu2.accum, 0x00);
    assert_eq!(cpu2.st & 0x01, 0x01);
    assert_eq!(cpu2.st & 0x02, 0x02);
}

#[test]
fn bit_side_effects() {
    let mut cpu = make_cpu_with_empty_bus();
    cpu.accum = 0xff;
    cpu.st = 0xe4;
    load_program(&mut cpu, 0x0200, &[0xa9, 0x00, 0x85, 0x01, 0x24, 0x01]);
    cpu.step().unwrap();
    cpu.step().unwrap();
    cpu.step().unwrap();
    assert_eq!(cpu.st, 0x26);
    assert_eq!(cpu.pc, 0x0206);
}

#[test]
fn sbc_is_adc_of_complement() {
    let mut cpu = make_cpu_with_empty_bus();
    cpu.accum = 0x50;
    cpu.st = 0x01;
    load_program(&mut cpu, 0x0200, &[0xe9, 0x10]);
    cpu.step().unwrap();
    assert_eq!(cpu.accum, 0x40);
    assert_eq!(cpu.st & 0x01, 0x01);

    // The identity itself: ADC of !0x10 from the same start state.
    let mut cpu2 = make_cpu_with_empty_bus();
    cpu2.accum = 0x50;
    cpu2.st = 0x01;
    load_program(&mut cpu2, 0x0200, &[0x69, !0x10u8]);
    cpu2.step().unwrap();
    assert_eq!(cpu2.accum, cpu.accum);
    assert_eq!(cpu2.st, cpu.st);
}

#[test]
fn illegal_opcode_is_a_fault() {
    let mut cpu = make_cpu_with_empty_bus();
    load_program(&mut cpu, 0x0200, &[0x02]);
    assert_eq!(cpu.step(), Err(EmuError::IllegalOpcode { opcode: 0x02, addr: 0x0200 }));
}

#[test]
fn compare_flag_semantics() {
    let mut cpu = make_cpu_with_empty_bus();
    cpu.accum = 0x40;
    cpu.st = 0x00;
    load_program(&mut cpu, 0x0200, &[0xc9, 0x41]);
    cpu.step().unwrap();
    // register < operand: no carry, not equal, negative from 0x40 - 0x41.
    assert_eq!(cpu.st & 0x01, 0x00);
    assert_eq!(cpu.st & 0x02, 0x00);
    assert_eq!(cpu.st & 0x80, 0x80);
}

#[test]
fn shifts_and_rotates_fold_carry() {
    let mut cpu = make_cpu_with_empty_bus();
    cpu.accum = 0x81;
    cpu.st = 0x00;
    // ROL A: carry in 0, bit 7 out.
    load_program(&mut cpu, 0x0200, &[0x2a]);
    cpu.step().unwrap();
    assert_eq!(cpu.accum, 0x02);
    assert_eq!(cpu.st & 0x01, 0x01);
    // ROR A: the carry just produced folds into bit 7.
    load_program(&mut cpu, 0x0210, &[0x6a]);
    cpu.step().unwrap();
    assert_eq!(cpu.accum, 0x81);
    assert_eq!(cpu.st & 0x01, 0x00);
}

#[test]
fn branch_offsets_are_signed() {
    let mut cpu = make_cpu_with_empty_bus();
    cpu.st = 0x00;  // Zero clear: BNE taken
    load_program(&mut cpu, 0x0200, &[0xd0, 0xfe]);
    cpu.step().unwrap();
    // -2 from past the instruction: back to its own start.
    assert_eq!(cpu.pc, 0x0200);

    let mut cpu2 = make_cpu_with_empty_bus();
    cpu2.st = 0x00;
    load_program(&mut cpu2, 0x0200, &[0xd0, 0x02]);
    cpu2.step().unwrap();
    assert_eq!(cpu2.pc, 0x0204);

    let mut cpu3 = make_cpu_with_empty_bus();
    cpu3.st = 0x02;  // Zero set: BNE not taken
    load_program(&mut cpu3, 0x0200, &[0xd0, 0x02]);
    cpu3.step().unwrap();
    assert_eq!(cpu3.pc, 0x0202);
}

#[test]
fn stack_push_pop_wraps_in_page() {
    let mut cpu = make_cpu_with_empty_bus();
    cpu.accum = 0x99;
    cpu.sp = 0x00;
    load_program(&mut cpu, 0x0200, &[0x48]);  // PHA
    cpu.step().unwrap();
    assert_eq!(cpu.sp, 0xff);
    assert_eq!(cpu.bus.read_memory(0x0100).unwrap(), 0x99);
    // PLA from the wrapped pointer restores it.
    cpu.accum = 0x00;
    load_program(&mut cpu, 0x0210, &[0x68]);
    cpu.step().unwrap();
    assert_eq!(cpu.sp, 0x00);
    assert_eq!(cpu.accum, 0x99);
}

#[test]
fn jsr_rts_round_trip() {
    let mut cpu = make_cpu_with_empty_bus();
    cpu.sp = 0xfd;
    load_program(&mut cpu, 0x0200, &[0x20, 0x05, 0x02]);  // JSR $0205
    cpu.bus.write_memory(0x0205, 0x60).unwrap();  // RTS
    cpu.step().unwrap();
    assert_eq!(cpu.pc, 0x0205);
    assert_eq!(cpu.sp, 0xfb);
    // The pushed return address is the JSR's last byte (return minus one).
    assert_eq!(cpu.bus.read_memory(0x01fd).unwrap(), 0x02);
    assert_eq!(cpu.bus.read_memory(0x01fc).unwrap(), 0x02);
    cpu.step().unwrap();
    assert_eq!(cpu.pc, 0x0203);
    assert_eq!(cpu.sp, 0xfd);
}

#[test]
fn jmp_indirect_page_boundary_bug() {
    let mut cpu = make_cpu_with_empty_bus();
    // Vector at 0x02ff: low byte there, high byte from 0x0200 (same page).
    cpu.bus.write_memory(0x02ff, 0x34).unwrap();
    cpu.bus.write_memory(0x0200, 0x12).unwrap();
    cpu.bus.write_memory(0x0300, 0x99).unwrap();
    load_program(&mut cpu, 0x0400, &[0x6c, 0xff, 0x02]);
    cpu.step().unwrap();
    assert_eq!(cpu.pc, 0x1234);
}

#[test]
fn php_pushes_break_cleared_and_plp_loads_verbatim() {
    let mut cpu = make_cpu_with_empty_bus();
    cpu.st = 0xff;
    cpu.sp = 0xfd;
    load_program(&mut cpu, 0x0200, &[0x08]);  // PHP
    cpu.step().unwrap();
    assert_eq!(cpu.bus.read_memory(0x01fd).unwrap(), 0xef);
    // Only the pushed copy has Break cleared; the register is untouched.
    assert_eq!(cpu.st, 0xff);
    // PLP loads whatever is on the stack, verbatim.
    cpu.st = 0x00;
    load_program(&mut cpu, 0x0210, &[0x28]);
    cpu.step().unwrap();
    assert_eq!(cpu.st, 0xef);
}

#[test]
fn brk_and_rti_round_trip() {
    let mut cpu = make_cpu_with_empty_bus();
    let mut rom = vec![0u8; 0x4000];
    rom[0x3ffe] = 0x00;  // BRK vector 0x9000
    rom[0x3fff] = 0x90;
    rom[0x1000] = 0x40;  // RTI at 0x9000
    cpu.bus.load_rom(rom);
    cpu.st = 0x24;
    cpu.sp = 0xfd;
    load_program(&mut cpu, 0x0200, &[0x00]);
    cpu.step().unwrap();
    assert_eq!(cpu.pc, 0x9000);
    assert_eq!(cpu.sp, 0xfa);
    // The pushed status has the Break flag forced set.
    assert_eq!(cpu.bus.read_memory(0x01fb).unwrap(), 0x34);
    cpu.step().unwrap();
    assert_eq!(cpu.pc, 0x0200);
    assert_eq!(cpu.st, 0x34);
    assert_eq!(cpu.sp, 0xfd);
}

#[test]
fn nmi_serviced_at_instruction_boundary() {
    let mut cpu = make_cpu_with_empty_bus();
    let mut rom = vec![0u8; 0x4000];
    rom[0x3ffa] = 0x00;  // NMI vector 0x9000
    rom[0x3ffb] = 0x90;
    rom[0x1000] = 0xea;  // NOP at the handler
    cpu.bus.load_rom(rom);
    cpu.st = 0x00;
    cpu.sp = 0xfd;
    load_program(&mut cpu, 0x0200, &[0xea]);
    cpu.bus.ppu.nmi_pin = true;
    let state = cpu.step().unwrap();
    // The handler's first instruction ran; the request pin is clear; the
    // return address and status (bit 5 set, Break clear) are stacked, and
    // interrupts are disabled.
    assert_eq!(state.addr, 0x9000);
    assert_eq!(cpu.pc, 0x9001);
    assert!(!cpu.bus.ppu.nmi_pin);
    assert_eq!(cpu.sp, 0xfa);
    assert_eq!(cpu.bus.read_memory(0x01fd).unwrap(), 0x02);
    assert_eq!(cpu.bus.read_memory(0x01fc).unwrap(), 0x00);
    assert_eq!(cpu.bus.read_memory(0x01fb).unwrap(), 0x20);
    assert_eq!(cpu.st & 0x04, 0x04);
}

#[test]
fn run_debug_collects_snapshots_and_cycles() {
    let mut cpu = make_cpu_with_empty_bus();
    load_program(&mut cpu, 0x0200, &[0xea, 0xea, 0xea]);
    cpu.cycles = 7;
    let states = cpu.run_debug(3).unwrap();
    assert_eq!(states.len(), 3);
    assert_eq!(states[0].addr, 0x0200);
    assert_eq!(states[1].addr, 0x0201);
    assert_eq!(states[2].addr, 0x0202);
    assert_eq!(states[0].opcode, 0xea);
    // Each NOP costs the two-cycle floor.
    assert_eq!(states[0].cycles, 7);
    assert_eq!(states[1].cycles, 9);
    assert_eq!(states[2].cycles, 11);
    assert_eq!(cpu.cycles, 13);
    // Stack traffic costs one cycle per access: PHA is fetch + push + floor.
    let mut cpu2 = make_cpu_with_empty_bus();
    load_program(&mut cpu2, 0x0200, &[0x48]);
    cpu2.step().unwrap();
    assert_eq!(cpu2.cycles, 3);
}

#[test]
fn run_debug_stops_at_a_fault() {
    let mut cpu = make_cpu_with_empty_bus();
    load_program(&mut cpu, 0x0200, &[0xea, 0x02]);
    assert_eq!(
        cpu.run_debug(5),
        Err(EmuError::IllegalOpcode { opcode: 0x02, addr: 0x0201 })
    );
}

#[test]
fn store_and_load_through_memory() {
    let mut cpu = make_cpu_with_empty_bus();
    cpu.accum = 0x5a;
    cpu.rx = 0x02;
    // STA $10; LDA #$00; LDA $0e,X
    load_program(&mut cpu, 0x0200, &[0x85, 0x10, 0xa9, 0x00, 0xb5, 0x0e]);
    cpu.step().unwrap();
    assert_eq!(cpu.bus.read_memory(0x0010).unwrap(), 0x5a);
    cpu.step().unwrap();
    assert_eq!(cpu.accum, 0x00);
    assert_eq!(cpu.st & 0x02, 0x02);
    cpu.step().unwrap();
    assert_eq!(cpu.accum, 0x5a);
    assert_eq!(cpu.st & 0x02, 0x00);
}

#[test]
fn indirect_addressing_modes() {
    let mut cpu = make_cpu_with_empty_bus();
    cpu.rx = 0x04;
    cpu.ry = 0x10;
    // ($20,X) -> vector at 0x24 -> 0x0300
    cpu.bus.write_memory(0x0024, 0x00).unwrap();
    cpu.bus.write_memory(0x0025, 0x03).unwrap();
    cpu.bus.write_memory(0x0300, 0x77).unwrap();
    load_program(&mut cpu, 0x0200, &[0xa1, 0x20]);
    cpu.step().unwrap();
    assert_eq!(cpu.accum, 0x77);
    // ($30),Y -> vector at 0x30 is 0x0300, plus Y = 0x0310
    cpu.bus.write_memory(0x0030, 0x00).unwrap();
    cpu.bus.write_memory(0x0031, 0x03).unwrap();
    cpu.bus.write_memory(0x0310, 0x88).unwrap();
    load_program(&mut cpu, 0x0210, &[0xb1, 0x30]);
    cpu.step().unwrap();
    assert_eq!(cpu.accum, 0x88);
}

#[test]
fn read_modify_write_in_memory() {
    let mut cpu = make_cpu_with_empty_bus();
    cpu.bus.write_memory(0x0040, 0x80).unwrap();
    // ASL $40: bit 7 out into carry, result zero.
    load_program(&mut cpu, 0x0200, &[0x06, 0x40]);
    cpu.step().unwrap();
    assert_eq!(cpu.bus.read_memory(0x0040).unwrap(), 0x00);
    assert_eq!(cpu.st & 0x01, 0x01);
    assert_eq!(cpu.st & 0x02, 0x02);
    // INC $40 twice, DEC $40 once.
    load_program(&mut cpu, 0x0210, &[0xe6, 0x40, 0xe6, 0x40, 0xc6, 0x40]);
    cpu.step().unwrap();
    cpu.step().unwrap();
    cpu.step().unwrap();
    assert_eq!(cpu.bus.read_memory(0x0040).unwrap(), 0x01);
}

#[test]
fn transfers_and_increments() {
    let mut cpu = make_cpu_with_empty_bus();
    cpu.accum = 0x80;
    // TAX; INX; TXS; TSX
    load_program(&mut cpu, 0x0200, &[0xaa, 0xe8, 0x9a, 0xba]);
    cpu.step().unwrap();
    assert_eq!(cpu.rx, 0x80);
    assert_eq!(cpu.st & 0x80, 0x80);
    cpu.step().unwrap();
    assert_eq!(cpu.rx, 0x81);
    cpu.step().unwrap();
    assert_eq!(cpu.sp, 0x81);
    cpu.step().unwrap();
    assert_eq!(cpu.rx, 0x81);
}
