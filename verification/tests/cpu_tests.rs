//! Processor-level scenarios: reset, arithmetic flags, the stack
//! discipline of subroutines, and the always-set status bit.

use nes_core::cartridge::Cartridge;
use nes_core::nes::NES;

/// A 16 KiB PRG bank with the given bytes at its start and the reset
/// vector pointing at 0x8000.
fn prg_with(program: &[u8]) -> Vec<u8> {
    let mut prg = vec![0u8; 0x4000];
    prg[..program.len()].copy_from_slice(program);
    // The bank is mirrored, so 0xFFFC/0xFFFD land at offset 0x3FFC.
    prg[0x3FFC] = 0x00;
    prg[0x3FFD] = 0x80;
    prg
}

fn machine_with(program: &[u8]) -> NES {
    let mut nes = NES::new();
    let cart = Cartridge { prg: prg_with(program), chr: vec![0u8; 0x2000], vertical_mirror: false, mapper: 0 };
    nes.load_cartridge(&cart);
    nes
}

#[test]
fn reset_vector() {
    let mut nes = machine_with(&[0xEA]);
    nes.reset();
    // The first CPU tick performs the reset sequence.
    nes.cpu.clock(&mut nes.mmu);
    assert_eq!(nes.cpu.pc, 0x8000);
    assert_eq!(nes.cpu.sp, 0xFD);
    assert_ne!(nes.cpu.p & 0x04, 0, "I is set");
    assert_eq!(nes.cpu.clock_remain, 7);
}

#[test]
fn adc_carry_and_overflow() {
    let mut nes = machine_with(&[0x69, 0x50]); // ADC #$50
    nes.cpu.set_pc(0x8000);
    nes.cpu.a = 0x50;
    assert_eq!(nes.cpu.p & 0x01, 0, "carry starts clear");
    nes.cpu.clock(&mut nes.mmu);
    assert_eq!(nes.cpu.a, 0xA0);
    assert_ne!(nes.cpu.p & 0x80, 0, "N set");
    assert_ne!(nes.cpu.p & 0x40, 0, "V set");
    assert_eq!(nes.cpu.p & 0x01, 0, "C clear");
    assert_eq!(nes.cpu.p & 0x02, 0, "Z clear");
}

#[test]
fn jsr_rts_round_trip() {
    // 8000: JSR $1234; the target, in work RAM, holds RTS.
    let mut nes = machine_with(&[0x20, 0x34, 0x12, 0xEA]);
    nes.cpu.set_pc(0x8000);
    nes.mmu.write(0x1234, 0x60); // RTS
    assert_eq!(nes.cpu.sp, 0xFD);
    nes.cpu.clock(&mut nes.mmu);
    assert_eq!(nes.cpu.sp, 0xFB);
    assert_eq!(nes.mmu.wram[0x01FD], 0x80, "return address high byte");
    assert_eq!(nes.mmu.wram[0x01FC], 0x02, "return address low byte");
    assert_eq!(nes.cpu.pc, 0x1234);
    nes.cpu.clock_remain = 0;
    nes.cpu.clock(&mut nes.mmu);
    assert_eq!(nes.cpu.pc, 0x8003);
    assert_eq!(nes.cpu.sp, 0xFD);
}

#[test]
fn status_bit_five_always_set() {
    // LDA #$00 clears Z-relevant state; bit 5 of P survives everything.
    let mut nes = machine_with(&[0xA9, 0x00, 0x48, 0x28]); // LDA #0, PHA, PLP
    nes.cpu.set_pc(0x8000);
    for _ in 0..3 {
        nes.cpu.clock_remain = 0;
        nes.cpu.clock(&mut nes.mmu);
        assert_eq!(nes.cpu.p & 0x20, 0x20);
    }
}

#[test]
fn sbc_borrows_like_the_machine() {
    // SEC; SBC #$10 from A=0x30: result 0x1F (this core subtracts the
    // set carry), C set since A >= operand.
    let mut nes = machine_with(&[0x38, 0xE9, 0x10]);
    nes.cpu.set_pc(0x8000);
    nes.cpu.a = 0x30;
    nes.cpu.clock(&mut nes.mmu); // SEC
    nes.cpu.clock_remain = 0;
    nes.cpu.clock(&mut nes.mmu); // SBC
    assert_eq!(nes.cpu.a, 0x1F);
    assert_ne!(nes.cpu.p & 0x01, 0, "C set");
}

#[test]
fn compare_sets_carry_on_not_below() {
    let mut nes = machine_with(&[0xC9, 0x40]); // CMP #$40
    nes.cpu.set_pc(0x8000);
    nes.cpu.a = 0x40;
    nes.cpu.clock(&mut nes.mmu);
    assert_ne!(nes.cpu.p & 0x01, 0, "C set on equal");
    assert_ne!(nes.cpu.p & 0x02, 0, "Z set on equal");
}

#[test]
fn branch_taken_moves_pc_by_signed_offset() {
    // BNE +4 with Z clear.
    let mut nes = machine_with(&[0xD0, 0x04]);
    nes.cpu.set_pc(0x8000);
    nes.cpu.clock(&mut nes.mmu);
    assert_eq!(nes.cpu.pc, 0x8006);
    // BEQ backwards with Z set: 0xFB is -5.
    let mut nes2 = machine_with(&[0xA9, 0x00, 0xF0, 0xFB]); // LDA #0, BEQ -5
    nes2.cpu.set_pc(0x8000);
    nes2.cpu.clock(&mut nes2.mmu);
    nes2.cpu.clock_remain = 0;
    nes2.cpu.clock(&mut nes2.mmu);
    assert_eq!(nes2.cpu.pc, 0x7FFF);
}

#[test]
fn jmp_indirect_page_boundary_quirk() {
    // Pointer at 0x02FF: low byte from 0x02FF, high byte wraps to 0x0200.
    let mut nes = machine_with(&[0x6C, 0xFF, 0x02]); // JMP ($02FF)
    nes.cpu.set_pc(0x8000);
    nes.mmu.write(0x02FF, 0x34);
    nes.mmu.write(0x0200, 0x12);
    nes.mmu.write(0x0300, 0x99); // would be the high byte without the quirk
    nes.cpu.clock(&mut nes.mmu);
    assert_eq!(nes.cpu.pc, 0x1234);
}

#[test]
fn nmi_pushes_state_and_vectors() {
    let mut prg = prg_with(&[0xEA]);
    prg[0x3FFA] = 0x00;
    prg[0x3FFB] = 0x90; // NMI vector 0x9000 (mirrored into 0x8000 + 0x1000)
    let mut nes = NES::new();
    let cart = Cartridge { prg, chr: vec![0u8; 0x2000], vertical_mirror: false, mapper: 0 };
    nes.load_cartridge(&cart);
    nes.cpu.set_pc(0x8000);
    let p_before = nes.cpu.p;
    nes.cpu.nmi();
    nes.cpu.clock(&mut nes.mmu);
    assert_eq!(nes.cpu.pc, 0x9000);
    assert_eq!(nes.cpu.sp, 0xFA);
    assert_eq!(nes.mmu.wram[0x01FD], 0x80, "PC high");
    assert_eq!(nes.mmu.wram[0x01FC], 0x00, "PC low");
    assert_eq!(nes.mmu.wram[0x01FB], p_before, "status byte");
    assert_ne!(nes.cpu.p & 0x04, 0, "I set");
    assert_eq!(nes.cpu.clock_remain, 7);
}

#[test]
fn asl_rotates_top_bit_into_carry() {
    let mut nes = machine_with(&[0x0A]); // ASL A
    nes.cpu.set_pc(0x8000);
    nes.cpu.a = 0x81;
    nes.cpu.clock(&mut nes.mmu);
    assert_eq!(nes.cpu.a, 0x02);
    assert_ne!(nes.cpu.p & 0x01, 0, "C from bit 7");
}
