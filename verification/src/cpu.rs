//! The 6502-style processor: registers, flag discipline, interrupt
//! sequencing, and the fetch-decode-execute step for the 151 documented
//! opcodes, billed with their canonical cycle counts.
//!
//! One call of `clock` either pays down the running instruction's cycle
//! bill or performs one execution step: a pending reset first, then a
//! pending NMI, then a pending unmasked IRQ, else one fetched instruction.

use vstd::prelude::*;

use crate::mmu::MMU;
use crate::mmu::mmu_read16_stepped;
use crate::mmu::mmu_read16_val;
use crate::mmu::mmu_read_stepped;
use crate::mmu::mmu_read_val;
use crate::mmu::mmu_write_rel;
use crate::mmu::mmu_indirect_stepped;
use crate::mmu::mmu_indirect_val;
use crate::mmu::mmu_indirect_x_stepped;
use crate::mmu::mmu_indirect_x_val;
use crate::mmu::mmu_indirect_y_stepped;
use crate::mmu::mmu_indirect_y_val;

verus! {

pub struct CPU {
    pub a: u8,
    pub x: u8,
    pub y: u8,
    pub sp: u8,
    /// Status flags: C, Z, I, D, B, bit 5 always 1, V, N.
    pub p: u8,
    /// Address of the next byte to fetch.
    pub pc: u16,
    /// Master-cycle bill still owed by the last execution step.
    pub clock_remain: u32,
    pub reset_flag: bool,
    pub nmi_flag: bool,
    pub irq_flag: bool,
}

/// The individual status flags of a status byte.
pub open spec fn flag_c(p: u8) -> bool {
    p & 0x01 != 0
}

pub open spec fn flag_z(p: u8) -> bool {
    p & 0x02 != 0
}

pub open spec fn flag_i(p: u8) -> bool {
    p & 0x04 != 0
}

pub open spec fn flag_d(p: u8) -> bool {
    p & 0x08 != 0
}

pub open spec fn flag_b(p: u8) -> bool {
    p & 0x10 != 0
}

pub open spec fn flag_v(p: u8) -> bool {
    p & 0x40 != 0
}

pub open spec fn flag_n(p: u8) -> bool {
    p & 0x80 != 0
}

/// The carry flag as the 0-or-1 summand of ADC and SBC.
pub open spec fn carry01(p: u8) -> int {
    if flag_c(p) {
        1
    } else {
        0
    }
}

/// A status byte assembled from its flags, with B clear and bit 5 set
/// as the machine keeps them.
pub open spec fn flags_byte(c: bool, z: bool, i: bool, d: bool, v: bool, n: bool) -> u8 {
    (if c {
        0x01u8
    } else {
        0
    }) | (if z {
        0x02u8
    } else {
        0
    }) | (if i {
        0x04u8
    } else {
        0
    }) | (if d {
        0x08u8
    } else {
        0
    }) | 0x20u8 | (if v {
        0x40u8
    } else {
        0
    }) | (if n {
        0x80u8
    } else {
        0
    })
}

/// Reading the flags of an assembled status byte gives back the flags;
/// B reads as clear and bit 5 as set.
pub proof fn lemma_flags_byte(c: bool, z: bool, i: bool, d: bool, v: bool, n: bool)
    ensures
        flag_c(flags_byte(c, z, i, d, v, n)) == c,
        flag_z(flags_byte(c, z, i, d, v, n)) == z,
        flag_i(flags_byte(c, z, i, d, v, n)) == i,
        flag_d(flags_byte(c, z, i, d, v, n)) == d,
        flag_v(flags_byte(c, z, i, d, v, n)) == v,
        flag_n(flags_byte(c, z, i, d, v, n)) == n,
        flags_byte(c, z, i, d, v, n) & 0x20 == 0x20,
        flags_byte(c, z, i, d, v, n) & 0x10 == 0,
{
    let pb = flags_byte(c, z, i, d, v, n);
    assert((pb & 0x01 != 0) == c && (pb & 0x02 != 0) == z && (pb & 0x04 != 0) == i && (pb & 0x08
        != 0) == d && (pb & 0x40 != 0) == v && (pb & 0x80 != 0) == n && pb & 0x20 == 0x20 && pb
        & 0x10 == 0) by (bit_vector)
        requires
            pb == (if c {
                0x01u8
            } else {
                0
            }) | (if z {
                0x02u8
            } else {
                0
            }) | (if i {
                0x04u8
            } else {
                0
            }) | (if d {
                0x08u8
            } else {
                0
            }) | 0x20u8 | (if v {
                0x40u8
            } else {
                0
            }) | (if n {
                0x80u8
            } else {
                0
            }),
    ;
}

/// A well-kept status byte is exactly the assembly of its flags.
pub proof fn lemma_flags_roundtrip(p: u8)
    requires
        p & 0x20 == 0x20,
        p & 0x10 == 0,
    ensures
        flags_byte(flag_c(p), flag_z(p), flag_i(p), flag_d(p), flag_v(p), flag_n(p)) == p,
{
    assert(p & 0x20 == 0x20 && p & 0x10 == 0 ==> ((if (p & 0x01 != 0) {
        0x01u8
    } else {
        0
    }) | (if (p & 0x02 != 0) {
        0x02u8
    } else {
        0
    }) | (if (p & 0x04 != 0) {
        0x04u8
    } else {
        0
    }) | (if (p & 0x08 != 0) {
        0x08u8
    } else {
        0
    }) | 0x20u8 | (if (p & 0x40 != 0) {
        0x40u8
    } else {
        0
    }) | (if (p & 0x80 != 0) {
        0x80u8
    } else {
        0
    })) == p) by (bit_vector);
}

/// A 16-bit value reduced to the address space.
pub open spec fn wrap16(a: int) -> u16 {
    (a % 0x10000) as u16
}

/// The canonical cycle bill of each documented opcode; undocumented ones
/// run as two-cycle no-ops.
pub fn cycles_of(op: u8) -> (r: u8)
    ensures
        r == cycle_count(op),
        1 <= r <= 7,
{
    match op {
        0x00 => 7,
        0x01 => 6,
        0x05 => 3,
        0x06 => 5,
        0x08 => 3,
        0x09 => 2,
        0x0A => 2,
        0x0D => 4,
        0x0E => 6,
        0x10 => 2,
        0x11 => 5,
        0x15 => 4,
        0x16 => 6,
        0x18 => 2,
        0x19 => 4,
        0x1D => 4,
        0x1E => 7,
        0x20 => 6,
        0x21 => 6,
        0x24 => 3,
        0x25 => 3,
        0x26 => 5,
        0x28 => 4,
        0x29 => 2,
        0x2A => 2,
        0x2C => 4,
        0x2D => 4,
        0x2E => 6,
        0x30 => 2,
        0x31 => 5,
        0x35 => 4,
        0x36 => 6,
        0x38 => 2,
        0x39 => 4,
        0x3D => 4,
        0x3E => 7,
        0x40 => 6,
        0x41 => 6,
        0x45 => 3,
        0x46 => 5,
        0x48 => 3,
        0x49 => 2,
        0x4A => 2,
        0x4C => 3,
        0x4D => 4,
        0x4E => 6,
        0x50 => 2,
        0x51 => 5,
        0x55 => 4,
        0x56 => 6,
        0x58 => 2,
        0x59 => 4,
        0x5D => 4,
        0x5E => 7,
        0x60 => 6,
        0x61 => 6,
        0x65 => 3,
        0x66 => 5,
        0x68 => 4,
        0x69 => 2,
        0x6A => 2,
        0x6C => 5,
        0x6D => 4,
        0x6E => 6,
        0x70 => 2,
        0x71 => 5,
        0x75 => 4,
        0x76 => 6,
        0x78 => 2,
        0x79 => 4,
        0x7D => 4,
        0x7E => 7,
        0x81 => 6,
        0x84 => 3,
        0x85 => 3,
        0x86 => 3,
        0x88 => 2,
        0x8A => 2,
        0x8C => 4,
        0x8D => 4,
        0x8E => 4,
        0x90 => 2,
        0x91 => 6,
        0x94 => 4,
        0x95 => 4,
        0x96 => 4,
        0x98 => 2,
        0x99 => 5,
        0x9A => 2,
        0x9D => 5,
        0xA0 => 2,
        0xA1 => 6,
        0xA2 => 2,
        0xA4 => 3,
        0xA5 => 3,
        0xA6 => 3,
        0xA8 => 2,
        0xA9 => 2,
        0xAA => 2,
        0xAC => 4,
        0xAD => 4,
        0xAE => 4,
        0xB0 => 2,
        0xB1 => 5,
        0xB4 => 4,
        0xB5 => 4,
        0xB6 => 4,
        0xB8 => 2,
        0xB9 => 4,
        0xBA => 2,
        0xBC => 4,
        0xBD => 4,
        0xBE => 4,
        0xC0 => 2,
        0xC1 => 6,
        0xC4 => 3,
        0xC5 => 3,
        0xC6 => 5,
        0xC8 => 2,
        0xC9 => 2,
        0xCA => 2,
        0xCC => 4,
        0xCD => 4,
        0xCE => 6,
        0xD0 => 2,
        0xD1 => 5,
        0xD5 => 4,
        0xD6 => 6,
        0xD8 => 2,
        0xD9 => 4,
        0xDD => 4,
        0xDE => 7,
        0xE0 => 2,
        0xE1 => 6,
        0xE4 => 3,
        0xE5 => 3,
        0xE6 => 5,
        0xE8 => 2,
        0xE9 => 2,
        0xEA => 2,
        0xEC => 4,
        0xED => 4,
        0xEE => 6,
        0xF0 => 2,
        0xF1 => 5,
        0xF5 => 4,
        0xF6 => 6,
        0xF8 => 2,
        0xF9 => 4,
        0xFD => 4,
        0xFE => 7,
        _ => 2,
    }
}

/// The N and Z flags follow a result byte; C, I, D and V stay.
pub open spec fn nz_from(p0: u8, p1: u8, val: u8) -> bool {
    &&& flag_n(p1) == (val & 0x80 != 0)
    &&& flag_z(p1) == (val == 0)
    &&& flag_c(p1) == flag_c(p0)
    &&& flag_i(p1) == flag_i(p0)
    &&& flag_d(p1) == flag_d(p0)
    &&& flag_v(p1) == flag_v(p0)
}

/// What add-with-carry does to the accumulator and the flags.
pub open spec fn adc_rel(a0: u8, p0: u8, v: u8, a1: u8, p1: u8) -> bool {
    &&& a1 == (a0 + v + carry01(p0)) % 256
    &&& flag_c(p1) == (a0 + v + carry01(p0) > 255)
    &&& flag_v(p1) == ((a0 & 0x80) == (v & 0x80) && (a1 & 0x80) != (a0 & 0x80))
    &&& flag_z(p1) == (a1 == 0)
    &&& flag_n(p1) == (a1 & 0x80 != 0)
    &&& flag_i(p1) == flag_i(p0)
    &&& flag_d(p1) == flag_d(p0)
}

/// What subtract-with-carry does, as this machine bills it: the set
/// carry is subtracted with the operand, and C reports `a0 >= v`.
pub open spec fn sbc_rel(a0: u8, p0: u8, v: u8, a1: u8, p1: u8) -> bool {
    &&& a1 == (a0 - v - carry01(p0) + 512) % 256
    &&& flag_c(p1) == (a0 >= v)
    &&& flag_v(p1) == ((a0 & 0x80) != (v & 0x80) && (a1 & 0x80) != (a0 & 0x80))
    &&& flag_z(p1) == (a1 == 0)
    &&& flag_n(p1) == (a1 & 0x80 != 0)
    &&& flag_i(p1) == flag_i(p0)
    &&& flag_d(p1) == flag_d(p0)
}

/// What a register comparison does to the flags.
pub open spec fn cmp_rel(reg: u8, p0: u8, v: u8, p1: u8) -> bool {
    &&& flag_c(p1) == (reg >= v)
    &&& flag_z(p1) == (reg == v)
    &&& flag_n(p1) == ((((reg - v + 256) % 256) as u8) & 0x80 != 0)
    &&& flag_i(p1) == flag_i(p0)
    &&& flag_d(p1) == flag_d(p0)
    &&& flag_v(p1) == flag_v(p0)
}

/// What BIT does to the flags: operand bits 7 and 6 into N and V, Z
/// from the masked accumulator.
pub open spec fn bit_rel(a0: u8, p0: u8, v: u8, p1: u8) -> bool {
    &&& flag_n(p1) == (v & 0x80 != 0)
    &&& flag_v(p1) == (v & 0x40 != 0)
    &&& flag_z(p1) == (a0 & v == 0)
    &&& flag_c(p1) == flag_c(p0)
    &&& flag_i(p1) == flag_i(p0)
    &&& flag_d(p1) == flag_d(p0)
}

/// What a shift or rotate does to the flags: the leaving bit into C,
/// N and Z from the result.
pub open spec fn shift_rel(p0: u8, p1: u8, carry_out: bool, r: u8) -> bool {
    &&& flag_c(p1) == carry_out
    &&& flag_z(p1) == (r == 0)
    &&& flag_n(p1) == (r & 0x80 != 0)
    &&& flag_i(p1) == flag_i(p0)
    &&& flag_d(p1) == flag_d(p0)
    &&& flag_v(p1) == flag_v(p0)
}

/// The canonical cycle bill of each documented opcode; undocumented
/// ones run as two-cycle no-ops.
pub open spec fn cycle_count(op: u8) -> u8 {
    if op == 0x00 {
        7
    } else if op == 0x01 {
        6
    } else if op == 0x05 {
        3
    } else if op == 0x06 {
        5
    } else if op == 0x08 {
        3
    } else if op == 0x09 {
        2
    } else if op == 0x0A {
        2
    } else if op == 0x0D {
        4
    } else if op == 0x0E {
        6
    } else if op == 0x10 {
        2
    } else if op == 0x11 {
        5
    } else if op == 0x15 {
        4
    } else if op == 0x16 {
        6
    } else if op == 0x18 {
        2
    } else if op == 0x19 {
        4
    } else if op == 0x1D {
        4
    } else if op == 0x1E {
        7
    } else if op == 0x20 {
        6
    } else if op == 0x21 {
        6
    } else if op == 0x24 {
        3
    } else if op == 0x25 {
        3
    } else if op == 0x26 {
        5
    } else if op == 0x28 {
        4
    } else if op == 0x29 {
        2
    } else if op == 0x2A {
        2
    } else if op == 0x2C {
        4
    } else if op == 0x2D {
        4
    } else if op == 0x2E {
        6
    } else if op == 0x30 {
        2
    } else if op == 0x31 {
        5
    } else if op == 0x35 {
        4
    } else if op == 0x36 {
        6
    } else if op == 0x38 {
        2
    } else if op == 0x39 {
        4
    } else if op == 0x3D {
        4
    } else if op == 0x3E {
        7
    } else if op == 0x40 {
        6
    } else if op == 0x41 {
        6
    } else if op == 0x45 {
        3
    } else if op == 0x46 {
        5
    } else if op == 0x48 {
        3
    } else if op == 0x49 {
        2
    } else if op == 0x4A {
        2
    } else if op == 0x4C {
        3
    } else if op == 0x4D {
        4
    } else if op == 0x4E {
        6
    } else if op == 0x50 {
        2
    } else if op == 0x51 {
        5
    } else if op == 0x55 {
        4
    } else if op == 0x56 {
        6
    } else if op == 0x58 {
        2
    } else if op == 0x59 {
        4
    } else if op == 0x5D {
        4
    } else if op == 0x5E {
        7
    } else if op == 0x60 {
        6
    } else if op == 0x61 {
        6
    } else if op == 0x65 {
        3
    } else if op == 0x66 {
        5
    } else if op == 0x68 {
        4
    } else if op == 0x69 {
        2
    } else if op == 0x6A {
        2
    } else if op == 0x6C {
        5
    } else if op == 0x6D {
        4
    } else if op == 0x6E {
        6
    } else if op == 0x70 {
        2
    } else if op == 0x71 {
        5
    } else if op == 0x75 {
        4
    } else if op == 0x76 {
        6
    } else if op == 0x78 {
        2
    } else if op == 0x79 {
        4
    } else if op == 0x7D {
        4
    } else if op == 0x7E {
        7
    } else if op == 0x81 {
        6
    } else if op == 0x84 {
        3
    } else if op == 0x85 {
        3
    } else if op == 0x86 {
        3
    } else if op == 0x88 {
        2
    } else if op == 0x8A {
        2
    } else if op == 0x8C {
        4
    } else if op == 0x8D {
        4
    } else if op == 0x8E {
        4
    } else if op == 0x90 {
        2
    } else if op == 0x91 {
        6
    } else if op == 0x94 {
        4
    } else if op == 0x95 {
        4
    } else if op == 0x96 {
        4
    } else if op == 0x98 {
        2
    } else if op == 0x99 {
        5
    } else if op == 0x9A {
        2
    } else if op == 0x9D {
        5
    } else if op == 0xA0 {
        2
    } else if op == 0xA1 {
        6
    } else if op == 0xA2 {
        2
    } else if op == 0xA4 {
        3
    } else if op == 0xA5 {
        3
    } else if op == 0xA6 {
        3
    } else if op == 0xA8 {
        2
    } else if op == 0xA9 {
        2
    } else if op == 0xAA {
        2
    } else if op == 0xAC {
        4
    } else if op == 0xAD {
        4
    } else if op == 0xAE {
        4
    } else if op == 0xB0 {
        2
    } else if op == 0xB1 {
        5
    } else if op == 0xB4 {
        4
    } else if op == 0xB5 {
        4
    } else if op == 0xB6 {
        4
    } else if op == 0xB8 {
        2
    } else if op == 0xB9 {
        4
    } else if op == 0xBA {
        2
    } else if op == 0xBC {
        4
    } else if op == 0xBD {
        4
    } else if op == 0xBE {
        4
    } else if op == 0xC0 {
        2
    } else if op == 0xC1 {
        6
    } else if op == 0xC4 {
        3
    } else if op == 0xC5 {
        3
    } else if op == 0xC6 {
        5
    } else if op == 0xC8 {
        2
    } else if op == 0xC9 {
        2
    } else if op == 0xCA {
        2
    } else if op == 0xCC {
        4
    } else if op == 0xCD {
        4
    } else if op == 0xCE {
        6
    } else if op == 0xD0 {
        2
    } else if op == 0xD1 {
        5
    } else if op == 0xD5 {
        4
    } else if op == 0xD6 {
        6
    } else if op == 0xD8 {
        2
    } else if op == 0xD9 {
        4
    } else if op == 0xDD {
        4
    } else if op == 0xDE {
        7
    } else if op == 0xE0 {
        2
    } else if op == 0xE1 {
        6
    } else if op == 0xE4 {
        3
    } else if op == 0xE5 {
        3
    } else if op == 0xE6 {
        5
    } else if op == 0xE8 {
        2
    } else if op == 0xE9 {
        2
    } else if op == 0xEA {
        2
    } else if op == 0xEC {
        4
    } else if op == 0xED {
        4
    } else if op == 0xEE {
        6
    } else if op == 0xF0 {
        2
    } else if op == 0xF1 {
        5
    } else if op == 0xF5 {
        4
    } else if op == 0xF6 {
        6
    } else if op == 0xF8 {
        2
    } else if op == 0xF9 {
        4
    } else if op == 0xFD {
        4
    } else if op == 0xFE {
        7
    } else {
        2
    }
}

pub open spec fn instr_rel_row0(c0: CPU, m0: MMU, c1: CPU, m1: MMU, op: u8) -> bool {
    // BRK
    &&& op == 0x00 ==> ({
        let ret = wrap16(c0.pc + 1);
        &&& m1.wram@ == m0.wram@.update(0x100 + c0.sp, (ret / 256) as u8).update(
            0x100 + (c0.sp + 255) % 256,
            (ret % 256) as u8,
        ).update(0x100 + (c0.sp + 254) % 256, c0.p | 0x10)
        &&& m1 == (MMU { wram: m1.wram, ..m0 })
        &&& c1 == (CPU {
            sp: ((c0.sp + 253) % 256) as u8,
            p: c1.p,
            pc: (m0.prom@[0x7FFE] + 256 * m0.prom@[0x7FFF]) as u16,
            ..c0
        })
        &&& flag_i(c1.p) && flag_c(c1.p) == flag_c(c0.p) && flag_z(c1.p) == flag_z(c0.p)
            && flag_d(c1.p) == flag_d(c0.p) && flag_v(c1.p) == flag_v(c0.p) && flag_n(c1.p)
            == flag_n(c0.p)
    })
    // ORA (indirect,X)
    &&& op == 0x01 ==> ({
        let ea = mmu_indirect_x_val(m0, c0.pc, c0.x);
        let ma = mmu_indirect_x_stepped(m0, c0.pc, c0.x);
        let pca = wrap16(c0.pc + 1);
        let v = mmu_read_val(ma, ea);
        &&& m1 == mmu_read_stepped(ma, ea)
        &&& c1 == (CPU { a: c0.a | v, p: c1.p, pc: pca, ..c0 })
        &&& nz_from(c0.p, c1.p, c0.a | v)
    })
    // ORA zero page
    &&& op == 0x05 ==> ({
        let ea = mmu_read_val(m0, c0.pc) as u16;
        let ma = mmu_read_stepped(m0, c0.pc);
        let pca = wrap16(c0.pc + 1);
        let v = mmu_read_val(ma, ea);
        &&& m1 == mmu_read_stepped(ma, ea)
        &&& c1 == (CPU { a: c0.a | v, p: c1.p, pc: pca, ..c0 })
        &&& nz_from(c0.p, c1.p, c0.a | v)
    })
    // ASL zero page
    &&& op == 0x06 ==> ({
        let ea = mmu_read_val(m0, c0.pc) as u16;
        let ma = mmu_read_stepped(m0, c0.pc);
        let pca = wrap16(c0.pc + 1);
        let v = mmu_read_val(ma, ea);
        let mb = mmu_read_stepped(ma, ea);
        let r = ((v * 2) % 256) as u8;
        &&& mmu_write_rel(mb, m1, ea, r)
        &&& c1 == (CPU { p: c1.p, pc: pca, ..c0 })
        &&& shift_rel(c0.p, c1.p, v & 0x80 != 0, r)
    })
    // PHP
    &&& op == 0x08 ==> ({
        &&& m1.wram@ == m0.wram@.update(0x100 + c0.sp, c0.p | 0x10)
        &&& m1 == (MMU { wram: m1.wram, ..m0 })
        &&& c1 == (CPU { sp: ((c0.sp + 255) % 256) as u8, ..c0 })
    })
    // ORA immediate
    &&& op == 0x09 ==> ({
        let ea = c0.pc;
        let ma = m0;
        let pca = wrap16(c0.pc + 1);
        let v = mmu_read_val(ma, ea);
        &&& m1 == mmu_read_stepped(ma, ea)
        &&& c1 == (CPU { a: c0.a | v, p: c1.p, pc: pca, ..c0 })
        &&& nz_from(c0.p, c1.p, c0.a | v)
    })
    // ASL accumulator
    &&& op == 0x0A ==> ({
        let r = ((c0.a * 2) % 256) as u8;
        &&& m1 == m0
        &&& c1 == (CPU { a: r, p: c1.p, ..c0 })
        &&& shift_rel(c0.p, c1.p, c0.a & 0x80 != 0, r)
    })
    // ORA absolute
    &&& op == 0x0D ==> ({
        let ea = mmu_read16_val(m0, c0.pc);
        let ma = mmu_read16_stepped(m0, c0.pc);
        let pca = wrap16(c0.pc + 2);
        let v = mmu_read_val(ma, ea);
        &&& m1 == mmu_read_stepped(ma, ea)
        &&& c1 == (CPU { a: c0.a | v, p: c1.p, pc: pca, ..c0 })
        &&& nz_from(c0.p, c1.p, c0.a | v)
    })
    // ASL absolute
    &&& op == 0x0E ==> ({
        let ea = mmu_read16_val(m0, c0.pc);
        let ma = mmu_read16_stepped(m0, c0.pc);
        let pca = wrap16(c0.pc + 2);
        let v = mmu_read_val(ma, ea);
        let mb = mmu_read_stepped(ma, ea);
        let r = ((v * 2) % 256) as u8;
        &&& mmu_write_rel(mb, m1, ea, r)
        &&& c1 == (CPU { p: c1.p, pc: pca, ..c0 })
        &&& shift_rel(c0.p, c1.p, v & 0x80 != 0, r)
    })
    // Undocumented opcodes in this row run as no-ops.
    &&& !(op == 0x00 || op == 0x01 || op == 0x05 || op == 0x06 || op == 0x08 || op == 0x09 || op == 0x0A || op == 0x0D || op == 0x0E) ==> c1 == c0 && m1 == m0
}
pub open spec fn instr_rel_row1(c0: CPU, m0: MMU, c1: CPU, m1: MMU, op: u8) -> bool {
    // BPL relative
    &&& op == 0x10 ==> ({
        let moff = mmu_read_val(m0, c0.pc);
        let base = wrap16(c0.pc + 1);
        let target = if moff < 128 {
            wrap16(base + moff)
        } else {
            wrap16(base + moff + 0x10000 - 256)
        };
        &&& m1 == mmu_read_stepped(m0, c0.pc)
        &&& c1 == (CPU { pc: if !flag_n(c0.p) { target } else { base }, ..c0 })
    })
    // ORA (indirect),Y
    &&& op == 0x11 ==> ({
        let ea = mmu_indirect_y_val(m0, c0.pc, c0.y);
        let ma = mmu_indirect_y_stepped(m0, c0.pc, c0.y);
        let pca = wrap16(c0.pc + 1);
        let v = mmu_read_val(ma, ea);
        &&& m1 == mmu_read_stepped(ma, ea)
        &&& c1 == (CPU { a: c0.a | v, p: c1.p, pc: pca, ..c0 })
        &&& nz_from(c0.p, c1.p, c0.a | v)
    })
    // ORA zero page,X
    &&& op == 0x15 ==> ({
        let ea = ((mmu_read_val(m0, c0.pc) + c0.x) % 256) as u16;
        let ma = mmu_read_stepped(m0, c0.pc);
        let pca = wrap16(c0.pc + 1);
        let v = mmu_read_val(ma, ea);
        &&& m1 == mmu_read_stepped(ma, ea)
        &&& c1 == (CPU { a: c0.a | v, p: c1.p, pc: pca, ..c0 })
        &&& nz_from(c0.p, c1.p, c0.a | v)
    })
    // ASL zero page,X
    &&& op == 0x16 ==> ({
        let ea = ((mmu_read_val(m0, c0.pc) + c0.x) % 256) as u16;
        let ma = mmu_read_stepped(m0, c0.pc);
        let pca = wrap16(c0.pc + 1);
        let v = mmu_read_val(ma, ea);
        let mb = mmu_read_stepped(ma, ea);
        let r = ((v * 2) % 256) as u8;
        &&& mmu_write_rel(mb, m1, ea, r)
        &&& c1 == (CPU { p: c1.p, pc: pca, ..c0 })
        &&& shift_rel(c0.p, c1.p, v & 0x80 != 0, r)
    })
    // CLC
    &&& op == 0x18 ==> ({
        &&& m1 == m0
        &&& c1 == (CPU { p: c1.p, ..c0 })
        &&& flag_c(c1.p) == false && flag_z(c1.p) == flag_z(c0.p) && flag_i(c1.p) == flag_i(c0.p) && flag_d(c1.p) == flag_d(c0.p) && flag_v(c1.p) == flag_v(c0.p) && flag_n(c1.p) == flag_n(c0.p)
    })
    // ORA absolute,Y
    &&& op == 0x19 ==> ({
        let ea = wrap16(mmu_read16_val(m0, c0.pc) + c0.y);
        let ma = mmu_read16_stepped(m0, c0.pc);
        let pca = wrap16(c0.pc + 2);
        let v = mmu_read_val(ma, ea);
        &&& m1 == mmu_read_stepped(ma, ea)
        &&& c1 == (CPU { a: c0.a | v, p: c1.p, pc: pca, ..c0 })
        &&& nz_from(c0.p, c1.p, c0.a | v)
    })
    // ORA absolute,X
    &&& op == 0x1D ==> ({
        let ea = wrap16(mmu_read16_val(m0, c0.pc) + c0.x);
        let ma = mmu_read16_stepped(m0, c0.pc);
        let pca = wrap16(c0.pc + 2);
        let v = mmu_read_val(ma, ea);
        &&& m1 == mmu_read_stepped(ma, ea)
        &&& c1 == (CPU { a: c0.a | v, p: c1.p, pc: pca, ..c0 })
        &&& nz_from(c0.p, c1.p, c0.a | v)
    })
    // ASL absolute,X
    &&& op == 0x1E ==> ({
        let ea = wrap16(mmu_read16_val(m0, c0.pc) + c0.x);
        let ma = mmu_read16_stepped(m0, c0.pc);
        let pca = wrap16(c0.pc + 2);
        let v = mmu_read_val(ma, ea);
        let mb = mmu_read_stepped(ma, ea);
        let r = ((v * 2) % 256) as u8;
        &&& mmu_write_rel(mb, m1, ea, r)
        &&& c1 == (CPU { p: c1.p, pc: pca, ..c0 })
        &&& shift_rel(c0.p, c1.p, v & 0x80 != 0, r)
    })
    // Undocumented opcodes in this row run as no-ops.
    &&& !(op == 0x10 || op == 0x11 || op == 0x15 || op == 0x16 || op == 0x18 || op == 0x19 || op == 0x1D || op == 0x1E) ==> c1 == c0 && m1 == m0
}
pub open spec fn instr_rel_row2(c0: CPU, m0: MMU, c1: CPU, m1: MMU, op: u8) -> bool {
    // JSR absolute
    &&& op == 0x20 ==> ({
        let ea = mmu_read16_val(m0, c0.pc);
        let ma = mmu_read16_stepped(m0, c0.pc);
        let pca = wrap16(c0.pc + 2);
        let ret = wrap16(c0.pc + 1);
        &&& m1.wram@ == ma.wram@.update(0x100 + c0.sp, (ret / 256) as u8).update(
            0x100 + (c0.sp + 255) % 256,
            (ret % 256) as u8,
        )
        &&& m1 == (MMU { wram: m1.wram, ..ma })
        &&& c1 == (CPU { sp: ((c0.sp + 254) % 256) as u8, pc: ea, ..c0 })
    })
    // AND (indirect,X)
    &&& op == 0x21 ==> ({
        let ea = mmu_indirect_x_val(m0, c0.pc, c0.x);
        let ma = mmu_indirect_x_stepped(m0, c0.pc, c0.x);
        let pca = wrap16(c0.pc + 1);
        let v = mmu_read_val(ma, ea);
        &&& m1 == mmu_read_stepped(ma, ea)
        &&& c1 == (CPU { a: c0.a & v, p: c1.p, pc: pca, ..c0 })
        &&& nz_from(c0.p, c1.p, c0.a & v)
    })
    // BIT zero page
    &&& op == 0x24 ==> ({
        let ea = mmu_read_val(m0, c0.pc) as u16;
        let ma = mmu_read_stepped(m0, c0.pc);
        let pca = wrap16(c0.pc + 1);
        let v = mmu_read_val(ma, ea);
        &&& m1 == mmu_read_stepped(ma, ea)
        &&& c1 == (CPU { p: c1.p, pc: pca, ..c0 })
        &&& bit_rel(c0.a, c0.p, v, c1.p)
    })
    // AND zero page
    &&& op == 0x25 ==> ({
        let ea = mmu_read_val(m0, c0.pc) as u16;
        let ma = mmu_read_stepped(m0, c0.pc);
        let pca = wrap16(c0.pc + 1);
        let v = mmu_read_val(ma, ea);
        &&& m1 == mmu_read_stepped(ma, ea)
        &&& c1 == (CPU { a: c0.a & v, p: c1.p, pc: pca, ..c0 })
        &&& nz_from(c0.p, c1.p, c0.a & v)
    })
    // ROL zero page
    &&& op == 0x26 ==> ({
        let ea = mmu_read_val(m0, c0.pc) as u16;
        let ma = mmu_read_stepped(m0, c0.pc);
        let pca = wrap16(c0.pc + 1);
        let v = mmu_read_val(ma, ea);
        let mb = mmu_read_stepped(ma, ea);
        let r = ((v * 2) % 256 + carry01(c0.p)) as u8;
        &&& mmu_write_rel(mb, m1, ea, r)
        &&& c1 == (CPU { p: c1.p, pc: pca, ..c0 })
        &&& shift_rel(c0.p, c1.p, v & 0x80 != 0, r)
    })
    // PLP
    &&& op == 0x28 ==> ({
        let v = m0.wram@[0x100 + (c0.sp + 1) % 256];
        &&& m1 == m0
        &&& c1 == (CPU { sp: ((c0.sp + 1) % 256) as u8, p: c1.p, ..c0 })
        &&& flag_c(c1.p) == flag_c(v) && flag_z(c1.p) == flag_z(v) && flag_i(c1.p)
            == flag_i(v) && flag_d(c1.p) == flag_d(v) && flag_v(c1.p) == flag_v(v)
            && flag_n(c1.p) == flag_n(v)
    })
    // AND immediate
    &&& op == 0x29 ==> ({
        let ea = c0.pc;
        let ma = m0;
        let pca = wrap16(c0.pc + 1);
        let v = mmu_read_val(ma, ea);
        &&& m1 == mmu_read_stepped(ma, ea)
        &&& c1 == (CPU { a: c0.a & v, p: c1.p, pc: pca, ..c0 })
        &&& nz_from(c0.p, c1.p, c0.a & v)
    })
    // ROL accumulator
    &&& op == 0x2A ==> ({
        let r = ((c0.a * 2) % 256 + carry01(c0.p)) as u8;
        &&& m1 == m0
        &&& c1 == (CPU { a: r, p: c1.p, ..c0 })
        &&& shift_rel(c0.p, c1.p, c0.a & 0x80 != 0, r)
    })
    // BIT absolute
    &&& op == 0x2C ==> ({
        let ea = mmu_read16_val(m0, c0.pc);
        let ma = mmu_read16_stepped(m0, c0.pc);
        let pca = wrap16(c0.pc + 2);
        let v = mmu_read_val(ma, ea);
        &&& m1 == mmu_read_stepped(ma, ea)
        &&& c1 == (CPU { p: c1.p, pc: pca, ..c0 })
        &&& bit_rel(c0.a, c0.p, v, c1.p)
    })
    // AND absolute
    &&& op == 0x2D ==> ({
        let ea = mmu_read16_val(m0, c0.pc);
        let ma = mmu_read16_stepped(m0, c0.pc);
        let pca = wrap16(c0.pc + 2);
        let v = mmu_read_val(ma, ea);
        &&& m1 == mmu_read_stepped(ma, ea)
        &&& c1 == (CPU { a: c0.a & v, p: c1.p, pc: pca, ..c0 })
        &&& nz_from(c0.p, c1.p, c0.a & v)
    })
    // ROL absolute
    &&& op == 0x2E ==> ({
        let ea = mmu_read16_val(m0, c0.pc);
        let ma = mmu_read16_stepped(m0, c0.pc);
        let pca = wrap16(c0.pc + 2);
        let v = mmu_read_val(ma, ea);
        let mb = mmu_read_stepped(ma, ea);
        let r = ((v * 2) % 256 + carry01(c0.p)) as u8;
        &&& mmu_write_rel(mb, m1, ea, r)
        &&& c1 == (CPU { p: c1.p, pc: pca, ..c0 })
        &&& shift_rel(c0.p, c1.p, v & 0x80 != 0, r)
    })
    // Undocumented opcodes in this row run as no-ops.
    &&& !(op == 0x20 || op == 0x21 || op == 0x24 || op == 0x25 || op == 0x26 || op == 0x28 || op == 0x29 || op == 0x2A || op == 0x2C || op == 0x2D || op == 0x2E) ==> c1 == c0 && m1 == m0
}
pub open spec fn instr_rel_row3(c0: CPU, m0: MMU, c1: CPU, m1: MMU, op: u8) -> bool {
    // BMI relative
    &&& op == 0x30 ==> ({
        let moff = mmu_read_val(m0, c0.pc);
        let base = wrap16(c0.pc + 1);
        let target = if moff < 128 {
            wrap16(base + moff)
        } else {
            wrap16(base + moff + 0x10000 - 256)
        };
        &&& m1 == mmu_read_stepped(m0, c0.pc)
        &&& c1 == (CPU { pc: if flag_n(c0.p) { target } else { base }, ..c0 })
    })
    // AND (indirect),Y
    &&& op == 0x31 ==> ({
        let ea = mmu_indirect_y_val(m0, c0.pc, c0.y);
        let ma = mmu_indirect_y_stepped(m0, c0.pc, c0.y);
        let pca = wrap16(c0.pc + 1);
        let v = mmu_read_val(ma, ea);
        &&& m1 == mmu_read_stepped(ma, ea)
        &&& c1 == (CPU { a: c0.a & v, p: c1.p, pc: pca, ..c0 })
        &&& nz_from(c0.p, c1.p, c0.a & v)
    })
    // AND zero page,X
    &&& op == 0x35 ==> ({
        let ea = ((mmu_read_val(m0, c0.pc) + c0.x) % 256) as u16;
        let ma = mmu_read_stepped(m0, c0.pc);
        let pca = wrap16(c0.pc + 1);
        let v = mmu_read_val(ma, ea);
        &&& m1 == mmu_read_stepped(ma, ea)
        &&& c1 == (CPU { a: c0.a & v, p: c1.p, pc: pca, ..c0 })
        &&& nz_from(c0.p, c1.p, c0.a & v)
    })
    // ROL zero page,X
    &&& op == 0x36 ==> ({
        let ea = ((mmu_read_val(m0, c0.pc) + c0.x) % 256) as u16;
        let ma = mmu_read_stepped(m0, c0.pc);
        let pca = wrap16(c0.pc + 1);
        let v = mmu_read_val(ma, ea);
        let mb = mmu_read_stepped(ma, ea);
        let r = ((v * 2) % 256 + carry01(c0.p)) as u8;
        &&& mmu_write_rel(mb, m1, ea, r)
        &&& c1 == (CPU { p: c1.p, pc: pca, ..c0 })
        &&& shift_rel(c0.p, c1.p, v & 0x80 != 0, r)
    })
    // SEC
    &&& op == 0x38 ==> ({
        &&& m1 == m0
        &&& c1 == (CPU { p: c1.p, ..c0 })
        &&& flag_c(c1.p) == true && flag_z(c1.p) == flag_z(c0.p) && flag_i(c1.p) == flag_i(c0.p) && flag_d(c1.p) == flag_d(c0.p) && flag_v(c1.p) == flag_v(c0.p) && flag_n(c1.p) == flag_n(c0.p)
    })
    // AND absolute,Y
    &&& op == 0x39 ==> ({
        let ea = wrap16(mmu_read16_val(m0, c0.pc) + c0.y);
        let ma = mmu_read16_stepped(m0, c0.pc);
        let pca = wrap16(c0.pc + 2);
        let v = mmu_read_val(ma, ea);
        &&& m1 == mmu_read_stepped(ma, ea)
        &&& c1 == (CPU { a: c0.a & v, p: c1.p, pc: pca, ..c0 })
        &&& nz_from(c0.p, c1.p, c0.a & v)
    })
    // AND absolute,X
    &&& op == 0x3D ==> ({
        let ea = wrap16(mmu_read16_val(m0, c0.pc) + c0.x);
        let ma = mmu_read16_stepped(m0, c0.pc);
        let pca = wrap16(c0.pc + 2);
        let v = mmu_read_val(ma, ea);
        &&& m1 == mmu_read_stepped(ma, ea)
        &&& c1 == (CPU { a: c0.a & v, p: c1.p, pc: pca, ..c0 })
        &&& nz_from(c0.p, c1.p, c0.a & v)
    })
    // ROL absolute,X
    &&& op == 0x3E ==> ({
        let ea = wrap16(mmu_read16_val(m0, c0.pc) + c0.x);
        let ma = mmu_read16_stepped(m0, c0.pc);
        let pca = wrap16(c0.pc + 2);
        let v = mmu_read_val(ma, ea);
        let mb = mmu_read_stepped(ma, ea);
        let r = ((v * 2) % 256 + carry01(c0.p)) as u8;
        &&& mmu_write_rel(mb, m1, ea, r)
        &&& c1 == (CPU { p: c1.p, pc: pca, ..c0 })
        &&& shift_rel(c0.p, c1.p, v & 0x80 != 0, r)
    })
    // Undocumented opcodes in this row run as no-ops.
    &&& !(op == 0x30 || op == 0x31 || op == 0x35 || op == 0x36 || op == 0x38 || op == 0x39 || op == 0x3D || op == 0x3E) ==> c1 == c0 && m1 == m0
}
pub open spec fn instr_rel_row4(c0: CPU, m0: MMU, c1: CPU, m1: MMU, op: u8) -> bool {
    // RTI
    &&& op == 0x40 ==> ({
        let pv = m0.wram@[0x100 + (c0.sp + 1) % 256];
        let lo = m0.wram@[0x100 + (c0.sp + 2) % 256];
        let hi = m0.wram@[0x100 + (c0.sp + 3) % 256];
        &&& m1 == m0
        &&& c1 == (CPU {
            sp: ((c0.sp + 3) % 256) as u8,
            p: c1.p,
            pc: (lo + 256 * hi) as u16,
            ..c0
        })
        &&& flag_c(c1.p) == flag_c(pv) && flag_z(c1.p) == flag_z(pv) && flag_i(c1.p)
            == flag_i(pv) && flag_d(c1.p) == flag_d(pv) && flag_v(c1.p) == flag_v(pv)
            && flag_n(c1.p) == flag_n(pv)
    })
    // EOR (indirect,X)
    &&& op == 0x41 ==> ({
        let ea = mmu_indirect_x_val(m0, c0.pc, c0.x);
        let ma = mmu_indirect_x_stepped(m0, c0.pc, c0.x);
        let pca = wrap16(c0.pc + 1);
        let v = mmu_read_val(ma, ea);
        &&& m1 == mmu_read_stepped(ma, ea)
        &&& c1 == (CPU { a: c0.a ^ v, p: c1.p, pc: pca, ..c0 })
        &&& nz_from(c0.p, c1.p, c0.a ^ v)
    })
    // EOR zero page
    &&& op == 0x45 ==> ({
        let ea = mmu_read_val(m0, c0.pc) as u16;
        let ma = mmu_read_stepped(m0, c0.pc);
        let pca = wrap16(c0.pc + 1);
        let v = mmu_read_val(ma, ea);
        &&& m1 == mmu_read_stepped(ma, ea)
        &&& c1 == (CPU { a: c0.a ^ v, p: c1.p, pc: pca, ..c0 })
        &&& nz_from(c0.p, c1.p, c0.a ^ v)
    })
    // LSR zero page
    &&& op == 0x46 ==> ({
        let ea = mmu_read_val(m0, c0.pc) as u16;
        let ma = mmu_read_stepped(m0, c0.pc);
        let pca = wrap16(c0.pc + 1);
        let v = mmu_read_val(ma, ea);
        let mb = mmu_read_stepped(ma, ea);
        let r = v / 2;
        &&& mmu_write_rel(mb, m1, ea, r)
        &&& c1 == (CPU { p: c1.p, pc: pca, ..c0 })
        &&& shift_rel(c0.p, c1.p, v & 0x01 != 0, r)
    })
    // PHA
    &&& op == 0x48 ==> ({
        &&& m1.wram@ == m0.wram@.update(0x100 + c0.sp, c0.a)
        &&& m1 == (MMU { wram: m1.wram, ..m0 })
        &&& c1 == (CPU { sp: ((c0.sp + 255) % 256) as u8, ..c0 })
    })
    // EOR immediate
    &&& op == 0x49 ==> ({
        let ea = c0.pc;
        let ma = m0;
        let pca = wrap16(c0.pc + 1);
        let v = mmu_read_val(ma, ea);
        &&& m1 == mmu_read_stepped(ma, ea)
        &&& c1 == (CPU { a: c0.a ^ v, p: c1.p, pc: pca, ..c0 })
        &&& nz_from(c0.p, c1.p, c0.a ^ v)
    })
    // LSR accumulator
    &&& op == 0x4A ==> ({
        let r = c0.a / 2;
        &&& m1 == m0
        &&& c1 == (CPU { a: r, p: c1.p, ..c0 })
        &&& shift_rel(c0.p, c1.p, c0.a & 0x01 != 0, r)
    })
    // JMP absolute
    &&& op == 0x4C ==> ({
        let ea = mmu_read16_val(m0, c0.pc);
        let ma = mmu_read16_stepped(m0, c0.pc);
        let pca = wrap16(c0.pc + 2);
        &&& m1 == ma
        &&& c1 == (CPU { pc: ea, ..c0 })
    })
    // EOR absolute
    &&& op == 0x4D ==> ({
        let ea = mmu_read16_val(m0, c0.pc);
        let ma = mmu_read16_stepped(m0, c0.pc);
        let pca = wrap16(c0.pc + 2);
        let v = mmu_read_val(ma, ea);
        &&& m1 == mmu_read_stepped(ma, ea)
        &&& c1 == (CPU { a: c0.a ^ v, p: c1.p, pc: pca, ..c0 })
        &&& nz_from(c0.p, c1.p, c0.a ^ v)
    })
    // LSR absolute
    &&& op == 0x4E ==> ({
        let ea = mmu_read16_val(m0, c0.pc);
        let ma = mmu_read16_stepped(m0, c0.pc);
        let pca = wrap16(c0.pc + 2);
        let v = mmu_read_val(ma, ea);
        let mb = mmu_read_stepped(ma, ea);
        let r = v / 2;
        &&& mmu_write_rel(mb, m1, ea, r)
        &&& c1 == (CPU { p: c1.p, pc: pca, ..c0 })
        &&& shift_rel(c0.p, c1.p, v & 0x01 != 0, r)
    })
    // Undocumented opcodes in this row run as no-ops.
    &&& !(op == 0x40 || op == 0x41 || op == 0x45 || op == 0x46 || op == 0x48 || op == 0x49 || op == 0x4A || op == 0x4C || op == 0x4D || op == 0x4E) ==> c1 == c0 && m1 == m0
}
pub open spec fn instr_rel_row5(c0: CPU, m0: MMU, c1: CPU, m1: MMU, op: u8) -> bool {
    // BVC relative
    &&& op == 0x50 ==> ({
        let moff = mmu_read_val(m0, c0.pc);
        let base = wrap16(c0.pc + 1);
        let target = if moff < 128 {
            wrap16(base + moff)
        } else {
            wrap16(base + moff + 0x10000 - 256)
        };
        &&& m1 == mmu_read_stepped(m0, c0.pc)
        &&& c1 == (CPU { pc: if !flag_v(c0.p) { target } else { base }, ..c0 })
    })
    // EOR (indirect),Y
    &&& op == 0x51 ==> ({
        let ea = mmu_indirect_y_val(m0, c0.pc, c0.y);
        let ma = mmu_indirect_y_stepped(m0, c0.pc, c0.y);
        let pca = wrap16(c0.pc + 1);
        let v = mmu_read_val(ma, ea);
        &&& m1 == mmu_read_stepped(ma, ea)
        &&& c1 == (CPU { a: c0.a ^ v, p: c1.p, pc: pca, ..c0 })
        &&& nz_from(c0.p, c1.p, c0.a ^ v)
    })
    // EOR zero page,X
    &&& op == 0x55 ==> ({
        let ea = ((mmu_read_val(m0, c0.pc) + c0.x) % 256) as u16;
        let ma = mmu_read_stepped(m0, c0.pc);
        let pca = wrap16(c0.pc + 1);
        let v = mmu_read_val(ma, ea);
        &&& m1 == mmu_read_stepped(ma, ea)
        &&& c1 == (CPU { a: c0.a ^ v, p: c1.p, pc: pca, ..c0 })
        &&& nz_from(c0.p, c1.p, c0.a ^ v)
    })
    // LSR zero page,X
    &&& op == 0x56 ==> ({
        let ea = ((mmu_read_val(m0, c0.pc) + c0.x) % 256) as u16;
        let ma = mmu_read_stepped(m0, c0.pc);
        let pca = wrap16(c0.pc + 1);
        let v = mmu_read_val(ma, ea);
        let mb = mmu_read_stepped(ma, ea);
        let r = v / 2;
        &&& mmu_write_rel(mb, m1, ea, r)
        &&& c1 == (CPU { p: c1.p, pc: pca, ..c0 })
        &&& shift_rel(c0.p, c1.p, v & 0x01 != 0, r)
    })
    // CLI
    &&& op == 0x58 ==> ({
        &&& m1 == m0
        &&& c1 == (CPU { p: c1.p, ..c0 })
        &&& flag_c(c1.p) == flag_c(c0.p) && flag_z(c1.p) == flag_z(c0.p) && flag_i(c1.p) == false && flag_d(c1.p) == flag_d(c0.p) && flag_v(c1.p) == flag_v(c0.p) && flag_n(c1.p) == flag_n(c0.p)
    })
    // EOR absolute,Y
    &&& op == 0x59 ==> ({
        let ea = wrap16(mmu_read16_val(m0, c0.pc) + c0.y);
        let ma = mmu_read16_stepped(m0, c0.pc);
        let pca = wrap16(c0.pc + 2);
        let v = mmu_read_val(ma, ea);
        &&& m1 == mmu_read_stepped(ma, ea)
        &&& c1 == (CPU { a: c0.a ^ v, p: c1.p, pc: pca, ..c0 })
        &&& nz_from(c0.p, c1.p, c0.a ^ v)
    })
    // EOR absolute,X
    &&& op == 0x5D ==> ({
        let ea = wrap16(mmu_read16_val(m0, c0.pc) + c0.x);
        let ma = mmu_read16_stepped(m0, c0.pc);
        let pca = wrap16(c0.pc + 2);
        let v = mmu_read_val(ma, ea);
        &&& m1 == mmu_read_stepped(ma, ea)
        &&& c1 == (CPU { a: c0.a ^ v, p: c1.p, pc: pca, ..c0 })
        &&& nz_from(c0.p, c1.p, c0.a ^ v)
    })
    // LSR absolute,X
    &&& op == 0x5E ==> ({
        let ea = wrap16(mmu_read16_val(m0, c0.pc) + c0.x);
        let ma = mmu_read16_stepped(m0, c0.pc);
        let pca = wrap16(c0.pc + 2);
        let v = mmu_read_val(ma, ea);
        let mb = mmu_read_stepped(ma, ea);
        let r = v / 2;
        &&& mmu_write_rel(mb, m1, ea, r)
        &&& c1 == (CPU { p: c1.p, pc: pca, ..c0 })
        &&& shift_rel(c0.p, c1.p, v & 0x01 != 0, r)
    })
    // Undocumented opcodes in this row run as no-ops.
    &&& !(op == 0x50 || op == 0x51 || op == 0x55 || op == 0x56 || op == 0x58 || op == 0x59 || op == 0x5D || op == 0x5E) ==> c1 == c0 && m1 == m0
}
pub open spec fn instr_rel_row6(c0: CPU, m0: MMU, c1: CPU, m1: MMU, op: u8) -> bool {
    // RTS
    &&& op == 0x60 ==> ({
        let lo = m0.wram@[0x100 + (c0.sp + 1) % 256];
        let hi = m0.wram@[0x100 + (c0.sp + 2) % 256];
        &&& m1 == m0
        &&& c1 == (CPU {
            sp: ((c0.sp + 2) % 256) as u8,
            pc: wrap16(lo + 256 * hi + 1),
            ..c0
        })
    })
    // ADC (indirect,X)
    &&& op == 0x61 ==> ({
        let ea = mmu_indirect_x_val(m0, c0.pc, c0.x);
        let ma = mmu_indirect_x_stepped(m0, c0.pc, c0.x);
        let pca = wrap16(c0.pc + 1);
        let v = mmu_read_val(ma, ea);
        &&& m1 == mmu_read_stepped(ma, ea)
        &&& c1 == (CPU { a: c1.a, p: c1.p, pc: pca, ..c0 })
        &&& adc_rel(c0.a, c0.p, v, c1.a, c1.p)
    })
    // ADC zero page
    &&& op == 0x65 ==> ({
        let ea = mmu_read_val(m0, c0.pc) as u16;
        let ma = mmu_read_stepped(m0, c0.pc);
        let pca = wrap16(c0.pc + 1);
        let v = mmu_read_val(ma, ea);
        &&& m1 == mmu_read_stepped(ma, ea)
        &&& c1 == (CPU { a: c1.a, p: c1.p, pc: pca, ..c0 })
        &&& adc_rel(c0.a, c0.p, v, c1.a, c1.p)
    })
    // ROR zero page
    &&& op == 0x66 ==> ({
        let ea = mmu_read_val(m0, c0.pc) as u16;
        let ma = mmu_read_stepped(m0, c0.pc);
        let pca = wrap16(c0.pc + 1);
        let v = mmu_read_val(ma, ea);
        let mb = mmu_read_stepped(ma, ea);
        let r = (v / 2 + carry01(c0.p) * 128) as u8;
        &&& mmu_write_rel(mb, m1, ea, r)
        &&& c1 == (CPU { p: c1.p, pc: pca, ..c0 })
        &&& shift_rel(c0.p, c1.p, v & 0x01 != 0, r)
    })
    // PLA
    &&& op == 0x68 ==> ({
        let v = m0.wram@[0x100 + (c0.sp + 1) % 256];
        &&& m1 == m0
        &&& c1 == (CPU { a: v, sp: ((c0.sp + 1) % 256) as u8, p: c1.p, ..c0 })
        &&& nz_from(c0.p, c1.p, v)
    })
    // ADC immediate
    &&& op == 0x69 ==> ({
        let ea = c0.pc;
        let ma = m0;
        let pca = wrap16(c0.pc + 1);
        let v = mmu_read_val(ma, ea);
        &&& m1 == mmu_read_stepped(ma, ea)
        &&& c1 == (CPU { a: c1.a, p: c1.p, pc: pca, ..c0 })
        &&& adc_rel(c0.a, c0.p, v, c1.a, c1.p)
    })
    // ROR accumulator
    &&& op == 0x6A ==> ({
        let r = (c0.a / 2 + carry01(c0.p) * 128) as u8;
        &&& m1 == m0
        &&& c1 == (CPU { a: r, p: c1.p, ..c0 })
        &&& shift_rel(c0.p, c1.p, c0.a & 0x01 != 0, r)
    })
    // JMP indirect
    &&& op == 0x6C ==> ({
        let ea = mmu_indirect_val(m0, c0.pc);
        let ma = mmu_indirect_stepped(m0, c0.pc);
        let pca = wrap16(c0.pc + 2);
        &&& m1 == ma
        &&& c1 == (CPU { pc: ea, ..c0 })
    })
    // ADC absolute
    &&& op == 0x6D ==> ({
        let ea = mmu_read16_val(m0, c0.pc);
        let ma = mmu_read16_stepped(m0, c0.pc);
        let pca = wrap16(c0.pc + 2);
        let v = mmu_read_val(ma, ea);
        &&& m1 == mmu_read_stepped(ma, ea)
        &&& c1 == (CPU { a: c1.a, p: c1.p, pc: pca, ..c0 })
        &&& adc_rel(c0.a, c0.p, v, c1.a, c1.p)
    })
    // ROR absolute
    &&& op == 0x6E ==> ({
        let ea = mmu_read16_val(m0, c0.pc);
        let ma = mmu_read16_stepped(m0, c0.pc);
        let pca = wrap16(c0.pc + 2);
        let v = mmu_read_val(ma, ea);
        let mb = mmu_read_stepped(ma, ea);
        let r = (v / 2 + carry01(c0.p) * 128) as u8;
        &&& mmu_write_rel(mb, m1, ea, r)
        &&& c1 == (CPU { p: c1.p, pc: pca, ..c0 })
        &&& shift_rel(c0.p, c1.p, v & 0x01 != 0, r)
    })
    // Undocumented opcodes in this row run as no-ops.
    &&& !(op == 0x60 || op == 0x61 || op == 0x65 || op == 0x66 || op == 0x68 || op == 0x69 || op == 0x6A || op == 0x6C || op == 0x6D || op == 0x6E) ==> c1 == c0 && m1 == m0
}
pub open spec fn instr_rel_row7(c0: CPU, m0: MMU, c1: CPU, m1: MMU, op: u8) -> bool {
    // BVS relative
    &&& op == 0x70 ==> ({
        let moff = mmu_read_val(m0, c0.pc);
        let base = wrap16(c0.pc + 1);
        let target = if moff < 128 {
            wrap16(base + moff)
        } else {
            wrap16(base + moff + 0x10000 - 256)
        };
        &&& m1 == mmu_read_stepped(m0, c0.pc)
        &&& c1 == (CPU { pc: if flag_v(c0.p) { target } else { base }, ..c0 })
    })
    // ADC (indirect),Y
    &&& op == 0x71 ==> ({
        let ea = mmu_indirect_y_val(m0, c0.pc, c0.y);
        let ma = mmu_indirect_y_stepped(m0, c0.pc, c0.y);
        let pca = wrap16(c0.pc + 1);
        let v = mmu_read_val(ma, ea);
        &&& m1 == mmu_read_stepped(ma, ea)
        &&& c1 == (CPU { a: c1.a, p: c1.p, pc: pca, ..c0 })
        &&& adc_rel(c0.a, c0.p, v, c1.a, c1.p)
    })
    // ADC zero page,X
    &&& op == 0x75 ==> ({
        let ea = ((mmu_read_val(m0, c0.pc) + c0.x) % 256) as u16;
        let ma = mmu_read_stepped(m0, c0.pc);
        let pca = wrap16(c0.pc + 1);
        let v = mmu_read_val(ma, ea);
        &&& m1 == mmu_read_stepped(ma, ea)
        &&& c1 == (CPU { a: c1.a, p: c1.p, pc: pca, ..c0 })
        &&& adc_rel(c0.a, c0.p, v, c1.a, c1.p)
    })
    // ROR zero page,X
    &&& op == 0x76 ==> ({
        let ea = ((mmu_read_val(m0, c0.pc) + c0.x) % 256) as u16;
        let ma = mmu_read_stepped(m0, c0.pc);
        let pca = wrap16(c0.pc + 1);
        let v = mmu_read_val(ma, ea);
        let mb = mmu_read_stepped(ma, ea);
        let r = (v / 2 + carry01(c0.p) * 128) as u8;
        &&& mmu_write_rel(mb, m1, ea, r)
        &&& c1 == (CPU { p: c1.p, pc: pca, ..c0 })
        &&& shift_rel(c0.p, c1.p, v & 0x01 != 0, r)
    })
    // SEI
    &&& op == 0x78 ==> ({
        &&& m1 == m0
        &&& c1 == (CPU { p: c1.p, ..c0 })
        &&& flag_c(c1.p) == flag_c(c0.p) && flag_z(c1.p) == flag_z(c0.p) && flag_i(c1.p) == true && flag_d(c1.p) == flag_d(c0.p) && flag_v(c1.p) == flag_v(c0.p) && flag_n(c1.p) == flag_n(c0.p)
    })
    // ADC absolute,Y
    &&& op == 0x79 ==> ({
        let ea = wrap16(mmu_read16_val(m0, c0.pc) + c0.y);
        let ma = mmu_read16_stepped(m0, c0.pc);
        let pca = wrap16(c0.pc + 2);
        let v = mmu_read_val(ma, ea);
        &&& m1 == mmu_read_stepped(ma, ea)
        &&& c1 == (CPU { a: c1.a, p: c1.p, pc: pca, ..c0 })
        &&& adc_rel(c0.a, c0.p, v, c1.a, c1.p)
    })
    // ADC absolute,X
    &&& op == 0x7D ==> ({
        let ea = wrap16(mmu_read16_val(m0, c0.pc) + c0.x);
        let ma = mmu_read16_stepped(m0, c0.pc);
        let pca = wrap16(c0.pc + 2);
        let v = mmu_read_val(ma, ea);
        &&& m1 == mmu_read_stepped(ma, ea)
        &&& c1 == (CPU { a: c1.a, p: c1.p, pc: pca, ..c0 })
        &&& adc_rel(c0.a, c0.p, v, c1.a, c1.p)
    })
    // ROR absolute,X
    &&& op == 0x7E ==> ({
        let ea = wrap16(mmu_read16_val(m0, c0.pc) + c0.x);
        let ma = mmu_read16_stepped(m0, c0.pc);
        let pca = wrap16(c0.pc + 2);
        let v = mmu_read_val(ma, ea);
        let mb = mmu_read_stepped(ma, ea);
        let r = (v / 2 + carry01(c0.p) * 128) as u8;
        &&& mmu_write_rel(mb, m1, ea, r)
        &&& c1 == (CPU { p: c1.p, pc: pca, ..c0 })
        &&& shift_rel(c0.p, c1.p, v & 0x01 != 0, r)
    })
    // Undocumented opcodes in this row run as no-ops.
    &&& !(op == 0x70 || op == 0x71 || op == 0x75 || op == 0x76 || op == 0x78 || op == 0x79 || op == 0x7D || op == 0x7E) ==> c1 == c0 && m1 == m0
}
pub open spec fn instr_rel_row8(c0: CPU, m0: MMU, c1: CPU, m1: MMU, op: u8) -> bool {
    // STA (indirect,X)
    &&& op == 0x81 ==> ({
        let ea = mmu_indirect_x_val(m0, c0.pc, c0.x);
        let ma = mmu_indirect_x_stepped(m0, c0.pc, c0.x);
        let pca = wrap16(c0.pc + 1);
        &&& mmu_write_rel(ma, m1, ea, c0.a)
        &&& c1 == (CPU { pc: pca, ..c0 })
    })
    // STY zero page
    &&& op == 0x84 ==> ({
        let ea = mmu_read_val(m0, c0.pc) as u16;
        let ma = mmu_read_stepped(m0, c0.pc);
        let pca = wrap16(c0.pc + 1);
        &&& mmu_write_rel(ma, m1, ea, c0.y)
        &&& c1 == (CPU { pc: pca, ..c0 })
    })
    // STA zero page
    &&& op == 0x85 ==> ({
        let ea = mmu_read_val(m0, c0.pc) as u16;
        let ma = mmu_read_stepped(m0, c0.pc);
        let pca = wrap16(c0.pc + 1);
        &&& mmu_write_rel(ma, m1, ea, c0.a)
        &&& c1 == (CPU { pc: pca, ..c0 })
    })
    // STX zero page
    &&& op == 0x86 ==> ({
        let ea = mmu_read_val(m0, c0.pc) as u16;
        let ma = mmu_read_stepped(m0, c0.pc);
        let pca = wrap16(c0.pc + 1);
        &&& mmu_write_rel(ma, m1, ea, c0.x)
        &&& c1 == (CPU { pc: pca, ..c0 })
    })
    // DEY
    &&& op == 0x88 ==> ({
        let r = ((c0.y + 255) % 256) as u8;
        &&& m1 == m0
        &&& c1 == (CPU { y: r, p: c1.p, ..c0 })
        &&& nz_from(c0.p, c1.p, r)
    })
    // TXA
    &&& op == 0x8A ==> ({
        &&& m1 == m0
        &&& c1 == (CPU { a: c0.x, p: c1.p, ..c0 })
        &&& nz_from(c0.p, c1.p, c0.x)
    })
    // STY absolute
    &&& op == 0x8C ==> ({
        let ea = mmu_read16_val(m0, c0.pc);
        let ma = mmu_read16_stepped(m0, c0.pc);
        let pca = wrap16(c0.pc + 2);
        &&& mmu_write_rel(ma, m1, ea, c0.y)
        &&& c1 == (CPU { pc: pca, ..c0 })
    })
    // STA absolute
    &&& op == 0x8D ==> ({
        let ea = mmu_read16_val(m0, c0.pc);
        let ma = mmu_read16_stepped(m0, c0.pc);
        let pca = wrap16(c0.pc + 2);
        &&& mmu_write_rel(ma, m1, ea, c0.a)
        &&& c1 == (CPU { pc: pca, ..c0 })
    })
    // STX absolute
    &&& op == 0x8E ==> ({
        let ea = mmu_read16_val(m0, c0.pc);
        let ma = mmu_read16_stepped(m0, c0.pc);
        let pca = wrap16(c0.pc + 2);
        &&& mmu_write_rel(ma, m1, ea, c0.x)
        &&& c1 == (CPU { pc: pca, ..c0 })
    })
    // Undocumented opcodes in this row run as no-ops.
    &&& !(op == 0x81 || op == 0x84 || op == 0x85 || op == 0x86 || op == 0x88 || op == 0x8A || op == 0x8C || op == 0x8D || op == 0x8E) ==> c1 == c0 && m1 == m0
}
pub open spec fn instr_rel_row9(c0: CPU, m0: MMU, c1: CPU, m1: MMU, op: u8) -> bool {
    // BCC relative
    &&& op == 0x90 ==> ({
        let moff = mmu_read_val(m0, c0.pc);
        let base = wrap16(c0.pc + 1);
        let target = if moff < 128 {
            wrap16(base + moff)
        } else {
            wrap16(base + moff + 0x10000 - 256)
        };
        &&& m1 == mmu_read_stepped(m0, c0.pc)
        &&& c1 == (CPU { pc: if !flag_c(c0.p) { target } else { base }, ..c0 })
    })
    // STA (indirect),Y
    &&& op == 0x91 ==> ({
        let ea = mmu_indirect_y_val(m0, c0.pc, c0.y);
        let ma = mmu_indirect_y_stepped(m0, c0.pc, c0.y);
        let pca = wrap16(c0.pc + 1);
        &&& mmu_write_rel(ma, m1, ea, c0.a)
        &&& c1 == (CPU { pc: pca, ..c0 })
    })
    // STY zero page,X
    &&& op == 0x94 ==> ({
        let ea = ((mmu_read_val(m0, c0.pc) + c0.x) % 256) as u16;
        let ma = mmu_read_stepped(m0, c0.pc);
        let pca = wrap16(c0.pc + 1);
        &&& mmu_write_rel(ma, m1, ea, c0.y)
        &&& c1 == (CPU { pc: pca, ..c0 })
    })
    // STA zero page,X
    &&& op == 0x95 ==> ({
        let ea = ((mmu_read_val(m0, c0.pc) + c0.x) % 256) as u16;
        let ma = mmu_read_stepped(m0, c0.pc);
        let pca = wrap16(c0.pc + 1);
        &&& mmu_write_rel(ma, m1, ea, c0.a)
        &&& c1 == (CPU { pc: pca, ..c0 })
    })
    // STX zero page,Y
    &&& op == 0x96 ==> ({
        let ea = ((mmu_read_val(m0, c0.pc) + c0.y) % 256) as u16;
        let ma = mmu_read_stepped(m0, c0.pc);
        let pca = wrap16(c0.pc + 1);
        &&& mmu_write_rel(ma, m1, ea, c0.x)
        &&& c1 == (CPU { pc: pca, ..c0 })
    })
    // TYA
    &&& op == 0x98 ==> ({
        &&& m1 == m0
        &&& c1 == (CPU { a: c0.y, p: c1.p, ..c0 })
        &&& nz_from(c0.p, c1.p, c0.y)
    })
    // STA absolute,Y
    &&& op == 0x99 ==> ({
        let ea = wrap16(mmu_read16_val(m0, c0.pc) + c0.y);
        let ma = mmu_read16_stepped(m0, c0.pc);
        let pca = wrap16(c0.pc + 2);
        &&& mmu_write_rel(ma, m1, ea, c0.a)
        &&& c1 == (CPU { pc: pca, ..c0 })
    })
    // TXS
    &&& op == 0x9A ==> ({
        &&& m1 == m0
        &&& c1 == (CPU { sp: c0.x, ..c0 })
    })
    // STA absolute,X
    &&& op == 0x9D ==> ({
        let ea = wrap16(mmu_read16_val(m0, c0.pc) + c0.x);
        let ma = mmu_read16_stepped(m0, c0.pc);
        let pca = wrap16(c0.pc + 2);
        &&& mmu_write_rel(ma, m1, ea, c0.a)
        &&& c1 == (CPU { pc: pca, ..c0 })
    })
    // Undocumented opcodes in this row run as no-ops.
    &&& !(op == 0x90 || op == 0x91 || op == 0x94 || op == 0x95 || op == 0x96 || op == 0x98 || op == 0x99 || op == 0x9A || op == 0x9D) ==> c1 == c0 && m1 == m0
}
pub open spec fn instr_rel_rowa(c0: CPU, m0: MMU, c1: CPU, m1: MMU, op: u8) -> bool {
    // LDY immediate
    &&& op == 0xA0 ==> ({
        let ea = c0.pc;
        let ma = m0;
        let pca = wrap16(c0.pc + 1);
        let v = mmu_read_val(ma, ea);
        &&& m1 == mmu_read_stepped(ma, ea)
        &&& c1 == (CPU { y: v, p: c1.p, pc: pca, ..c0 })
        &&& nz_from(c0.p, c1.p, v)
    })
    // LDA (indirect,X)
    &&& op == 0xA1 ==> ({
        let ea = mmu_indirect_x_val(m0, c0.pc, c0.x);
        let ma = mmu_indirect_x_stepped(m0, c0.pc, c0.x);
        let pca = wrap16(c0.pc + 1);
        let v = mmu_read_val(ma, ea);
        &&& m1 == mmu_read_stepped(ma, ea)
        &&& c1 == (CPU { a: v, p: c1.p, pc: pca, ..c0 })
        &&& nz_from(c0.p, c1.p, v)
    })
    // LDX immediate
    &&& op == 0xA2 ==> ({
        let ea = c0.pc;
        let ma = m0;
        let pca = wrap16(c0.pc + 1);
        let v = mmu_read_val(ma, ea);
        &&& m1 == mmu_read_stepped(ma, ea)
        &&& c1 == (CPU { x: v, p: c1.p, pc: pca, ..c0 })
        &&& nz_from(c0.p, c1.p, v)
    })
    // LDY zero page
    &&& op == 0xA4 ==> ({
        let ea = mmu_read_val(m0, c0.pc) as u16;
        let ma = mmu_read_stepped(m0, c0.pc);
        let pca = wrap16(c0.pc + 1);
        let v = mmu_read_val(ma, ea);
        &&& m1 == mmu_read_stepped(ma, ea)
        &&& c1 == (CPU { y: v, p: c1.p, pc: pca, ..c0 })
        &&& nz_from(c0.p, c1.p, v)
    })
    // LDA zero page
    &&& op == 0xA5 ==> ({
        let ea = mmu_read_val(m0, c0.pc) as u16;
        let ma = mmu_read_stepped(m0, c0.pc);
        let pca = wrap16(c0.pc + 1);
        let v = mmu_read_val(ma, ea);
        &&& m1 == mmu_read_stepped(ma, ea)
        &&& c1 == (CPU { a: v, p: c1.p, pc: pca, ..c0 })
        &&& nz_from(c0.p, c1.p, v)
    })
    // LDX zero page
    &&& op == 0xA6 ==> ({
        let ea = mmu_read_val(m0, c0.pc) as u16;
        let ma = mmu_read_stepped(m0, c0.pc);
        let pca = wrap16(c0.pc + 1);
        let v = mmu_read_val(ma, ea);
        &&& m1 == mmu_read_stepped(ma, ea)
        &&& c1 == (CPU { x: v, p: c1.p, pc: pca, ..c0 })
        &&& nz_from(c0.p, c1.p, v)
    })
    // TAY
    &&& op == 0xA8 ==> ({
        &&& m1 == m0
        &&& c1 == (CPU { y: c0.a, p: c1.p, ..c0 })
        &&& nz_from(c0.p, c1.p, c0.a)
    })
    // LDA immediate
    &&& op == 0xA9 ==> ({
        let ea = c0.pc;
        let ma = m0;
        let pca = wrap16(c0.pc + 1);
        let v = mmu_read_val(ma, ea);
        &&& m1 == mmu_read_stepped(ma, ea)
        &&& c1 == (CPU { a: v, p: c1.p, pc: pca, ..c0 })
        &&& nz_from(c0.p, c1.p, v)
    })
    // TAX
    &&& op == 0xAA ==> ({
        &&& m1 == m0
        &&& c1 == (CPU { x: c0.a, p: c1.p, ..c0 })
        &&& nz_from(c0.p, c1.p, c0.a)
    })
    // LDY absolute
    &&& op == 0xAC ==> ({
        let ea = mmu_read16_val(m0, c0.pc);
        let ma = mmu_read16_stepped(m0, c0.pc);
        let pca = wrap16(c0.pc + 2);
        let v = mmu_read_val(ma, ea);
        &&& m1 == mmu_read_stepped(ma, ea)
        &&& c1 == (CPU { y: v, p: c1.p, pc: pca, ..c0 })
        &&& nz_from(c0.p, c1.p, v)
    })
    // LDA absolute
    &&& op == 0xAD ==> ({
        let ea = mmu_read16_val(m0, c0.pc);
        let ma = mmu_read16_stepped(m0, c0.pc);
        let pca = wrap16(c0.pc + 2);
        let v = mmu_read_val(ma, ea);
        &&& m1 == mmu_read_stepped(ma, ea)
        &&& c1 == (CPU { a: v, p: c1.p, pc: pca, ..c0 })
        &&& nz_from(c0.p, c1.p, v)
    })
    // LDX absolute
    &&& op == 0xAE ==> ({
        let ea = mmu_read16_val(m0, c0.pc);
        let ma = mmu_read16_stepped(m0, c0.pc);
        let pca = wrap16(c0.pc + 2);
        let v = mmu_read_val(ma, ea);
        &&& m1 == mmu_read_stepped(ma, ea)
        &&& c1 == (CPU { x: v, p: c1.p, pc: pca, ..c0 })
        &&& nz_from(c0.p, c1.p, v)
    })
    // Undocumented opcodes in this row run as no-ops.
    &&& !(op == 0xA0 || op == 0xA1 || op == 0xA2 || op == 0xA4 || op == 0xA5 || op == 0xA6 || op == 0xA8 || op == 0xA9 || op == 0xAA || op == 0xAC || op == 0xAD || op == 0xAE) ==> c1 == c0 && m1 == m0
}
pub open spec fn instr_rel_rowb(c0: CPU, m0: MMU, c1: CPU, m1: MMU, op: u8) -> bool {
    // BCS relative
    &&& op == 0xB0 ==> ({
        let moff = mmu_read_val(m0, c0.pc);
        let base = wrap16(c0.pc + 1);
        let target = if moff < 128 {
            wrap16(base + moff)
        } else {
            wrap16(base + moff + 0x10000 - 256)
        };
        &&& m1 == mmu_read_stepped(m0, c0.pc)
        &&& c1 == (CPU { pc: if flag_c(c0.p) { target } else { base }, ..c0 })
    })
    // LDA (indirect),Y
    &&& op == 0xB1 ==> ({
        let ea = mmu_indirect_y_val(m0, c0.pc, c0.y);
        let ma = mmu_indirect_y_stepped(m0, c0.pc, c0.y);
        let pca = wrap16(c0.pc + 1);
        let v = mmu_read_val(ma, ea);
        &&& m1 == mmu_read_stepped(ma, ea)
        &&& c1 == (CPU { a: v, p: c1.p, pc: pca, ..c0 })
        &&& nz_from(c0.p, c1.p, v)
    })
    // LDY zero page,X
    &&& op == 0xB4 ==> ({
        let ea = ((mmu_read_val(m0, c0.pc) + c0.x) % 256) as u16;
        let ma = mmu_read_stepped(m0, c0.pc);
        let pca = wrap16(c0.pc + 1);
        let v = mmu_read_val(ma, ea);
        &&& m1 == mmu_read_stepped(ma, ea)
        &&& c1 == (CPU { y: v, p: c1.p, pc: pca, ..c0 })
        &&& nz_from(c0.p, c1.p, v)
    })
    // LDA zero page,X
    &&& op == 0xB5 ==> ({
        let ea = ((mmu_read_val(m0, c0.pc) + c0.x) % 256) as u16;
        let ma = mmu_read_stepped(m0, c0.pc);
        let pca = wrap16(c0.pc + 1);
        let v = mmu_read_val(ma, ea);
        &&& m1 == mmu_read_stepped(ma, ea)
        &&& c1 == (CPU { a: v, p: c1.p, pc: pca, ..c0 })
        &&& nz_from(c0.p, c1.p, v)
    })
    // LDX zero page,Y
    &&& op == 0xB6 ==> ({
        let ea = ((mmu_read_val(m0, c0.pc) + c0.y) % 256) as u16;
        let ma = mmu_read_stepped(m0, c0.pc);
        let pca = wrap16(c0.pc + 1);
        let v = mmu_read_val(ma, ea);
        &&& m1 == mmu_read_stepped(ma, ea)
        &&& c1 == (CPU { x: v, p: c1.p, pc: pca, ..c0 })
        &&& nz_from(c0.p, c1.p, v)
    })
    // CLV
    &&& op == 0xB8 ==> ({
        &&& m1 == m0
        &&& c1 == (CPU { p: c1.p, ..c0 })
        &&& flag_c(c1.p) == flag_c(c0.p) && flag_z(c1.p) == flag_z(c0.p) && flag_i(c1.p) == flag_i(c0.p) && flag_d(c1.p) == flag_d(c0.p) && flag_v(c1.p) == false && flag_n(c1.p) == flag_n(c0.p)
    })
    // LDA absolute,Y
    &&& op == 0xB9 ==> ({
        let ea = wrap16(mmu_read16_val(m0, c0.pc) + c0.y);
        let ma = mmu_read16_stepped(m0, c0.pc);
        let pca = wrap16(c0.pc + 2);
        let v = mmu_read_val(ma, ea);
        &&& m1 == mmu_read_stepped(ma, ea)
        &&& c1 == (CPU { a: v, p: c1.p, pc: pca, ..c0 })
        &&& nz_from(c0.p, c1.p, v)
    })
    // TSX
    &&& op == 0xBA ==> ({
        &&& m1 == m0
        &&& c1 == (CPU { x: c0.sp, p: c1.p, ..c0 })
        &&& nz_from(c0.p, c1.p, c0.sp)
    })
    // LDY absolute,X
    &&& op == 0xBC ==> ({
        let ea = wrap16(mmu_read16_val(m0, c0.pc) + c0.x);
        let ma = mmu_read16_stepped(m0, c0.pc);
        let pca = wrap16(c0.pc + 2);
        let v = mmu_read_val(ma, ea);
        &&& m1 == mmu_read_stepped(ma, ea)
        &&& c1 == (CPU { y: v, p: c1.p, pc: pca, ..c0 })
        &&& nz_from(c0.p, c1.p, v)
    })
    // LDA absolute,X
    &&& op == 0xBD ==> ({
        let ea = wrap16(mmu_read16_val(m0, c0.pc) + c0.x);
        let ma = mmu_read16_stepped(m0, c0.pc);
        let pca = wrap16(c0.pc + 2);
        let v = mmu_read_val(ma, ea);
        &&& m1 == mmu_read_stepped(ma, ea)
        &&& c1 == (CPU { a: v, p: c1.p, pc: pca, ..c0 })
        &&& nz_from(c0.p, c1.p, v)
    })
    // LDX absolute,Y
    &&& op == 0xBE ==> ({
        let ea = wrap16(mmu_read16_val(m0, c0.pc) + c0.y);
        let ma = mmu_read16_stepped(m0, c0.pc);
        let pca = wrap16(c0.pc + 2);
        let v = mmu_read_val(ma, ea);
        &&& m1 == mmu_read_stepped(ma, ea)
        &&& c1 == (CPU { x: v, p: c1.p, pc: pca, ..c0 })
        &&& nz_from(c0.p, c1.p, v)
    })
    // Undocumented opcodes in this row run as no-ops.
    &&& !(op == 0xB0 || op == 0xB1 || op == 0xB4 || op == 0xB5 || op == 0xB6 || op == 0xB8 || op == 0xB9 || op == 0xBA || op == 0xBC || op == 0xBD || op == 0xBE) ==> c1 == c0 && m1 == m0
}
pub open spec fn instr_rel_rowc(c0: CPU, m0: MMU, c1: CPU, m1: MMU, op: u8) -> bool {
    // CPY immediate
    &&& op == 0xC0 ==> ({
        let ea = c0.pc;
        let ma = m0;
        let pca = wrap16(c0.pc + 1);
        let v = mmu_read_val(ma, ea);
        &&& m1 == mmu_read_stepped(ma, ea)
        &&& c1 == (CPU { p: c1.p, pc: pca, ..c0 })
        &&& cmp_rel(c0.y, c0.p, v, c1.p)
    })
    // CMP (indirect,X)
    &&& op == 0xC1 ==> ({
        let ea = mmu_indirect_x_val(m0, c0.pc, c0.x);
        let ma = mmu_indirect_x_stepped(m0, c0.pc, c0.x);
        let pca = wrap16(c0.pc + 1);
        let v = mmu_read_val(ma, ea);
        &&& m1 == mmu_read_stepped(ma, ea)
        &&& c1 == (CPU { p: c1.p, pc: pca, ..c0 })
        &&& cmp_rel(c0.a, c0.p, v, c1.p)
    })
    // CPY zero page
    &&& op == 0xC4 ==> ({
        let ea = mmu_read_val(m0, c0.pc) as u16;
        let ma = mmu_read_stepped(m0, c0.pc);
        let pca = wrap16(c0.pc + 1);
        let v = mmu_read_val(ma, ea);
        &&& m1 == mmu_read_stepped(ma, ea)
        &&& c1 == (CPU { p: c1.p, pc: pca, ..c0 })
        &&& cmp_rel(c0.y, c0.p, v, c1.p)
    })
    // CMP zero page
    &&& op == 0xC5 ==> ({
        let ea = mmu_read_val(m0, c0.pc) as u16;
        let ma = mmu_read_stepped(m0, c0.pc);
        let pca = wrap16(c0.pc + 1);
        let v = mmu_read_val(ma, ea);
        &&& m1 == mmu_read_stepped(ma, ea)
        &&& c1 == (CPU { p: c1.p, pc: pca, ..c0 })
        &&& cmp_rel(c0.a, c0.p, v, c1.p)
    })
    // DEC zero page
    &&& op == 0xC6 ==> ({
        let ea = mmu_read_val(m0, c0.pc) as u16;
        let ma = mmu_read_stepped(m0, c0.pc);
        let pca = wrap16(c0.pc + 1);
        let v = mmu_read_val(ma, ea);
        let mb = mmu_read_stepped(ma, ea);
        let r = ((v + 255) % 256) as u8;
        &&& mmu_write_rel(mb, m1, ea, r)
        &&& c1 == (CPU { p: c1.p, pc: pca, ..c0 })
        &&& nz_from(c0.p, c1.p, r)
    })
    // INY
    &&& op == 0xC8 ==> ({
        let r = ((c0.y + 1) % 256) as u8;
        &&& m1 == m0
        &&& c1 == (CPU { y: r, p: c1.p, ..c0 })
        &&& nz_from(c0.p, c1.p, r)
    })
    // CMP immediate
    &&& op == 0xC9 ==> ({
        let ea = c0.pc;
        let ma = m0;
        let pca = wrap16(c0.pc + 1);
        let v = mmu_read_val(ma, ea);
        &&& m1 == mmu_read_stepped(ma, ea)
        &&& c1 == (CPU { p: c1.p, pc: pca, ..c0 })
        &&& cmp_rel(c0.a, c0.p, v, c1.p)
    })
    // DEX
    &&& op == 0xCA ==> ({
        let r = ((c0.x + 255) % 256) as u8;
        &&& m1 == m0
        &&& c1 == (CPU { x: r, p: c1.p, ..c0 })
        &&& nz_from(c0.p, c1.p, r)
    })
    // CPY absolute
    &&& op == 0xCC ==> ({
        let ea = mmu_read16_val(m0, c0.pc);
        let ma = mmu_read16_stepped(m0, c0.pc);
        let pca = wrap16(c0.pc + 2);
        let v = mmu_read_val(ma, ea);
        &&& m1 == mmu_read_stepped(ma, ea)
        &&& c1 == (CPU { p: c1.p, pc: pca, ..c0 })
        &&& cmp_rel(c0.y, c0.p, v, c1.p)
    })
    // CMP absolute
    &&& op == 0xCD ==> ({
        let ea = mmu_read16_val(m0, c0.pc);
        let ma = mmu_read16_stepped(m0, c0.pc);
        let pca = wrap16(c0.pc + 2);
        let v = mmu_read_val(ma, ea);
        &&& m1 == mmu_read_stepped(ma, ea)
        &&& c1 == (CPU { p: c1.p, pc: pca, ..c0 })
        &&& cmp_rel(c0.a, c0.p, v, c1.p)
    })
    // DEC absolute
    &&& op == 0xCE ==> ({
        let ea = mmu_read16_val(m0, c0.pc);
        let ma = mmu_read16_stepped(m0, c0.pc);
        let pca = wrap16(c0.pc + 2);
        let v = mmu_read_val(ma, ea);
        let mb = mmu_read_stepped(ma, ea);
        let r = ((v + 255) % 256) as u8;
        &&& mmu_write_rel(mb, m1, ea, r)
        &&& c1 == (CPU { p: c1.p, pc: pca, ..c0 })
        &&& nz_from(c0.p, c1.p, r)
    })
    // Undocumented opcodes in this row run as no-ops.
    &&& !(op == 0xC0 || op == 0xC1 || op == 0xC4 || op == 0xC5 || op == 0xC6 || op == 0xC8 || op == 0xC9 || op == 0xCA || op == 0xCC || op == 0xCD || op == 0xCE) ==> c1 == c0 && m1 == m0
}
pub open spec fn instr_rel_rowd(c0: CPU, m0: MMU, c1: CPU, m1: MMU, op: u8) -> bool {
    // BNE relative
    &&& op == 0xD0 ==> ({
        let moff = mmu_read_val(m0, c0.pc);
        let base = wrap16(c0.pc + 1);
        let target = if moff < 128 {
            wrap16(base + moff)
        } else {
            wrap16(base + moff + 0x10000 - 256)
        };
        &&& m1 == mmu_read_stepped(m0, c0.pc)
        &&& c1 == (CPU { pc: if !flag_z(c0.p) { target } else { base }, ..c0 })
    })
    // CMP (indirect),Y
    &&& op == 0xD1 ==> ({
        let ea = mmu_indirect_y_val(m0, c0.pc, c0.y);
        let ma = mmu_indirect_y_stepped(m0, c0.pc, c0.y);
        let pca = wrap16(c0.pc + 1);
        let v = mmu_read_val(ma, ea);
        &&& m1 == mmu_read_stepped(ma, ea)
        &&& c1 == (CPU { p: c1.p, pc: pca, ..c0 })
        &&& cmp_rel(c0.a, c0.p, v, c1.p)
    })
    // CMP zero page,X
    &&& op == 0xD5 ==> ({
        let ea = ((mmu_read_val(m0, c0.pc) + c0.x) % 256) as u16;
        let ma = mmu_read_stepped(m0, c0.pc);
        let pca = wrap16(c0.pc + 1);
        let v = mmu_read_val(ma, ea);
        &&& m1 == mmu_read_stepped(ma, ea)
        &&& c1 == (CPU { p: c1.p, pc: pca, ..c0 })
        &&& cmp_rel(c0.a, c0.p, v, c1.p)
    })
    // DEC zero page,X
    &&& op == 0xD6 ==> ({
        let ea = ((mmu_read_val(m0, c0.pc) + c0.x) % 256) as u16;
        let ma = mmu_read_stepped(m0, c0.pc);
        let pca = wrap16(c0.pc + 1);
        let v = mmu_read_val(ma, ea);
        let mb = mmu_read_stepped(ma, ea);
        let r = ((v + 255) % 256) as u8;
        &&& mmu_write_rel(mb, m1, ea, r)
        &&& c1 == (CPU { p: c1.p, pc: pca, ..c0 })
        &&& nz_from(c0.p, c1.p, r)
    })
    // CLD
    &&& op == 0xD8 ==> ({
        &&& m1 == m0
        &&& c1 == (CPU { p: c1.p, ..c0 })
        &&& flag_c(c1.p) == flag_c(c0.p) && flag_z(c1.p) == flag_z(c0.p) && flag_i(c1.p) == flag_i(c0.p) && flag_d(c1.p) == false && flag_v(c1.p) == flag_v(c0.p) && flag_n(c1.p) == flag_n(c0.p)
    })
    // CMP absolute,Y
    &&& op == 0xD9 ==> ({
        let ea = wrap16(mmu_read16_val(m0, c0.pc) + c0.y);
        let ma = mmu_read16_stepped(m0, c0.pc);
        let pca = wrap16(c0.pc + 2);
        let v = mmu_read_val(ma, ea);
        &&& m1 == mmu_read_stepped(ma, ea)
        &&& c1 == (CPU { p: c1.p, pc: pca, ..c0 })
        &&& cmp_rel(c0.a, c0.p, v, c1.p)
    })
    // CMP absolute,X
    &&& op == 0xDD ==> ({
        let ea = wrap16(mmu_read16_val(m0, c0.pc) + c0.x);
        let ma = mmu_read16_stepped(m0, c0.pc);
        let pca = wrap16(c0.pc + 2);
        let v = mmu_read_val(ma, ea);
        &&& m1 == mmu_read_stepped(ma, ea)
        &&& c1 == (CPU { p: c1.p, pc: pca, ..c0 })
        &&& cmp_rel(c0.a, c0.p, v, c1.p)
    })
    // DEC absolute,X
    &&& op == 0xDE ==> ({
        let ea = wrap16(mmu_read16_val(m0, c0.pc) + c0.x);
        let ma = mmu_read16_stepped(m0, c0.pc);
        let pca = wrap16(c0.pc + 2);
        let v = mmu_read_val(ma, ea);
        let mb = mmu_read_stepped(ma, ea);
        let r = ((v + 255) % 256) as u8;
        &&& mmu_write_rel(mb, m1, ea, r)
        &&& c1 == (CPU { p: c1.p, pc: pca, ..c0 })
        &&& nz_from(c0.p, c1.p, r)
    })
    // Undocumented opcodes in this row run as no-ops.
    &&& !(op == 0xD0 || op == 0xD1 || op == 0xD5 || op == 0xD6 || op == 0xD8 || op == 0xD9 || op == 0xDD || op == 0xDE) ==> c1 == c0 && m1 == m0
}
pub open spec fn instr_rel_rowe(c0: CPU, m0: MMU, c1: CPU, m1: MMU, op: u8) -> bool {
    // CPX immediate
    &&& op == 0xE0 ==> ({
        let ea = c0.pc;
        let ma = m0;
        let pca = wrap16(c0.pc + 1);
        let v = mmu_read_val(ma, ea);
        &&& m1 == mmu_read_stepped(ma, ea)
        &&& c1 == (CPU { p: c1.p, pc: pca, ..c0 })
        &&& cmp_rel(c0.x, c0.p, v, c1.p)
    })
    // SBC (indirect,X)
    &&& op == 0xE1 ==> ({
        let ea = mmu_indirect_x_val(m0, c0.pc, c0.x);
        let ma = mmu_indirect_x_stepped(m0, c0.pc, c0.x);
        let pca = wrap16(c0.pc + 1);
        let v = mmu_read_val(ma, ea);
        &&& m1 == mmu_read_stepped(ma, ea)
        &&& c1 == (CPU { a: c1.a, p: c1.p, pc: pca, ..c0 })
        &&& sbc_rel(c0.a, c0.p, v, c1.a, c1.p)
    })
    // CPX zero page
    &&& op == 0xE4 ==> ({
        let ea = mmu_read_val(m0, c0.pc) as u16;
        let ma = mmu_read_stepped(m0, c0.pc);
        let pca = wrap16(c0.pc + 1);
        let v = mmu_read_val(ma, ea);
        &&& m1 == mmu_read_stepped(ma, ea)
        &&& c1 == (CPU { p: c1.p, pc: pca, ..c0 })
        &&& cmp_rel(c0.x, c0.p, v, c1.p)
    })
    // SBC zero page
    &&& op == 0xE5 ==> ({
        let ea = mmu_read_val(m0, c0.pc) as u16;
        let ma = mmu_read_stepped(m0, c0.pc);
        let pca = wrap16(c0.pc + 1);
        let v = mmu_read_val(ma, ea);
        &&& m1 == mmu_read_stepped(ma, ea)
        &&& c1 == (CPU { a: c1.a, p: c1.p, pc: pca, ..c0 })
        &&& sbc_rel(c0.a, c0.p, v, c1.a, c1.p)
    })
    // INC zero page
    &&& op == 0xE6 ==> ({
        let ea = mmu_read_val(m0, c0.pc) as u16;
        let ma = mmu_read_stepped(m0, c0.pc);
        let pca = wrap16(c0.pc + 1);
        let v = mmu_read_val(ma, ea);
        let mb = mmu_read_stepped(ma, ea);
        let r = ((v + 1) % 256) as u8;
        &&& mmu_write_rel(mb, m1, ea, r)
        &&& c1 == (CPU { p: c1.p, pc: pca, ..c0 })
        &&& nz_from(c0.p, c1.p, r)
    })
    // INX
    &&& op == 0xE8 ==> ({
        let r = ((c0.x + 1) % 256) as u8;
        &&& m1 == m0
        &&& c1 == (CPU { x: r, p: c1.p, ..c0 })
        &&& nz_from(c0.p, c1.p, r)
    })
    // SBC immediate
    &&& op == 0xE9 ==> ({
        let ea = c0.pc;
        let ma = m0;
        let pca = wrap16(c0.pc + 1);
        let v = mmu_read_val(ma, ea);
        &&& m1 == mmu_read_stepped(ma, ea)
        &&& c1 == (CPU { a: c1.a, p: c1.p, pc: pca, ..c0 })
        &&& sbc_rel(c0.a, c0.p, v, c1.a, c1.p)
    })
    // NOP
    &&& op == 0xEA ==> ({
        &&& m1 == m0
        &&& c1 == c0
    })
    // CPX absolute
    &&& op == 0xEC ==> ({
        let ea = mmu_read16_val(m0, c0.pc);
        let ma = mmu_read16_stepped(m0, c0.pc);
        let pca = wrap16(c0.pc + 2);
        let v = mmu_read_val(ma, ea);
        &&& m1 == mmu_read_stepped(ma, ea)
        &&& c1 == (CPU { p: c1.p, pc: pca, ..c0 })
        &&& cmp_rel(c0.x, c0.p, v, c1.p)
    })
    // SBC absolute
    &&& op == 0xED ==> ({
        let ea = mmu_read16_val(m0, c0.pc);
        let ma = mmu_read16_stepped(m0, c0.pc);
        let pca = wrap16(c0.pc + 2);
        let v = mmu_read_val(ma, ea);
        &&& m1 == mmu_read_stepped(ma, ea)
        &&& c1 == (CPU { a: c1.a, p: c1.p, pc: pca, ..c0 })
        &&& sbc_rel(c0.a, c0.p, v, c1.a, c1.p)
    })
    // INC absolute
    &&& op == 0xEE ==> ({
        let ea = mmu_read16_val(m0, c0.pc);
        let ma = mmu_read16_stepped(m0, c0.pc);
        let pca = wrap16(c0.pc + 2);
        let v = mmu_read_val(ma, ea);
        let mb = mmu_read_stepped(ma, ea);
        let r = ((v + 1) % 256) as u8;
        &&& mmu_write_rel(mb, m1, ea, r)
        &&& c1 == (CPU { p: c1.p, pc: pca, ..c0 })
        &&& nz_from(c0.p, c1.p, r)
    })
    // Undocumented opcodes in this row run as no-ops.
    &&& !(op == 0xE0 || op == 0xE1 || op == 0xE4 || op == 0xE5 || op == 0xE6 || op == 0xE8 || op == 0xE9 || op == 0xEA || op == 0xEC || op == 0xED || op == 0xEE) ==> c1 == c0 && m1 == m0
}
pub open spec fn instr_rel_rowf(c0: CPU, m0: MMU, c1: CPU, m1: MMU, op: u8) -> bool {
    // BEQ relative
    &&& op == 0xF0 ==> ({
        let moff = mmu_read_val(m0, c0.pc);
        let base = wrap16(c0.pc + 1);
        let target = if moff < 128 {
            wrap16(base + moff)
        } else {
            wrap16(base + moff + 0x10000 - 256)
        };
        &&& m1 == mmu_read_stepped(m0, c0.pc)
        &&& c1 == (CPU { pc: if flag_z(c0.p) { target } else { base }, ..c0 })
    })
    // SBC (indirect),Y
    &&& op == 0xF1 ==> ({
        let ea = mmu_indirect_y_val(m0, c0.pc, c0.y);
        let ma = mmu_indirect_y_stepped(m0, c0.pc, c0.y);
        let pca = wrap16(c0.pc + 1);
        let v = mmu_read_val(ma, ea);
        &&& m1 == mmu_read_stepped(ma, ea)
        &&& c1 == (CPU { a: c1.a, p: c1.p, pc: pca, ..c0 })
        &&& sbc_rel(c0.a, c0.p, v, c1.a, c1.p)
    })
    // SBC zero page,X
    &&& op == 0xF5 ==> ({
        let ea = ((mmu_read_val(m0, c0.pc) + c0.x) % 256) as u16;
        let ma = mmu_read_stepped(m0, c0.pc);
        let pca = wrap16(c0.pc + 1);
        let v = mmu_read_val(ma, ea);
        &&& m1 == mmu_read_stepped(ma, ea)
        &&& c1 == (CPU { a: c1.a, p: c1.p, pc: pca, ..c0 })
        &&& sbc_rel(c0.a, c0.p, v, c1.a, c1.p)
    })
    // INC zero page,X
    &&& op == 0xF6 ==> ({
        let ea = ((mmu_read_val(m0, c0.pc) + c0.x) % 256) as u16;
        let ma = mmu_read_stepped(m0, c0.pc);
        let pca = wrap16(c0.pc + 1);
        let v = mmu_read_val(ma, ea);
        let mb = mmu_read_stepped(ma, ea);
        let r = ((v + 1) % 256) as u8;
        &&& mmu_write_rel(mb, m1, ea, r)
        &&& c1 == (CPU { p: c1.p, pc: pca, ..c0 })
        &&& nz_from(c0.p, c1.p, r)
    })
    // SED
    &&& op == 0xF8 ==> ({
        &&& m1 == m0
        &&& c1 == (CPU { p: c1.p, ..c0 })
        &&& flag_c(c1.p) == flag_c(c0.p) && flag_z(c1.p) == flag_z(c0.p) && flag_i(c1.p) == flag_i(c0.p) && flag_d(c1.p) == true && flag_v(c1.p) == flag_v(c0.p) && flag_n(c1.p) == flag_n(c0.p)
    })
    // SBC absolute,Y
    &&& op == 0xF9 ==> ({
        let ea = wrap16(mmu_read16_val(m0, c0.pc) + c0.y);
        let ma = mmu_read16_stepped(m0, c0.pc);
        let pca = wrap16(c0.pc + 2);
        let v = mmu_read_val(ma, ea);
        &&& m1 == mmu_read_stepped(ma, ea)
        &&& c1 == (CPU { a: c1.a, p: c1.p, pc: pca, ..c0 })
        &&& sbc_rel(c0.a, c0.p, v, c1.a, c1.p)
    })
    // SBC absolute,X
    &&& op == 0xFD ==> ({
        let ea = wrap16(mmu_read16_val(m0, c0.pc) + c0.x);
        let ma = mmu_read16_stepped(m0, c0.pc);
        let pca = wrap16(c0.pc + 2);
        let v = mmu_read_val(ma, ea);
        &&& m1 == mmu_read_stepped(ma, ea)
        &&& c1 == (CPU { a: c1.a, p: c1.p, pc: pca, ..c0 })
        &&& sbc_rel(c0.a, c0.p, v, c1.a, c1.p)
    })
    // INC absolute,X
    &&& op == 0xFE ==> ({
        let ea = wrap16(mmu_read16_val(m0, c0.pc) + c0.x);
        let ma = mmu_read16_stepped(m0, c0.pc);
        let pca = wrap16(c0.pc + 2);
        let v = mmu_read_val(ma, ea);
        let mb = mmu_read_stepped(ma, ea);
        let r = ((v + 1) % 256) as u8;
        &&& mmu_write_rel(mb, m1, ea, r)
        &&& c1 == (CPU { p: c1.p, pc: pca, ..c0 })
        &&& nz_from(c0.p, c1.p, r)
    })
    // Undocumented opcodes in this row run as no-ops.
    &&& !(op == 0xF0 || op == 0xF1 || op == 0xF5 || op == 0xF6 || op == 0xF8 || op == 0xF9 || op == 0xFD || op == 0xFE) ==> c1 == c0 && m1 == m0
}

/// What executing the already-fetched opcode `op` does: `c0` and `m0`
/// are the machine just after the opcode byte was consumed (the program
/// counter names the first operand byte), `c1` and `m1` the machine
/// after the instruction. One case per documented opcode; undocumented
/// opcodes change nothing.
#[verifier::opaque]
pub open spec fn instr_rel(c0: CPU, m0: MMU, c1: CPU, m1: MMU, op: u8) -> bool {
    if op < 0x10 {
        instr_rel_row0(c0, m0, c1, m1, op)
    } else if op < 0x20 {
        instr_rel_row1(c0, m0, c1, m1, op)
    } else if op < 0x30 {
        instr_rel_row2(c0, m0, c1, m1, op)
    } else if op < 0x40 {
        instr_rel_row3(c0, m0, c1, m1, op)
    } else if op < 0x50 {
        instr_rel_row4(c0, m0, c1, m1, op)
    } else if op < 0x60 {
        instr_rel_row5(c0, m0, c1, m1, op)
    } else if op < 0x70 {
        instr_rel_row6(c0, m0, c1, m1, op)
    } else if op < 0x80 {
        instr_rel_row7(c0, m0, c1, m1, op)
    } else if op < 0x90 {
        instr_rel_row8(c0, m0, c1, m1, op)
    } else if op < 0xA0 {
        instr_rel_row9(c0, m0, c1, m1, op)
    } else if op < 0xB0 {
        instr_rel_rowa(c0, m0, c1, m1, op)
    } else if op < 0xC0 {
        instr_rel_rowb(c0, m0, c1, m1, op)
    } else if op < 0xD0 {
        instr_rel_rowc(c0, m0, c1, m1, op)
    } else if op < 0xE0 {
        instr_rel_rowd(c0, m0, c1, m1, op)
    } else if op < 0xF0 {
        instr_rel_rowe(c0, m0, c1, m1, op)
    } else {
        instr_rel_rowf(c0, m0, c1, m1, op)
    }
}

/// What one CPU tick does, as a relation between the machine before
/// and after it: the billing, reset, NMI, IRQ and fetch-execute paths
/// of `CPU::clock`.
pub open spec fn cpu_tick_rel(c0: CPU, m0: MMU, c1: CPU, m1: MMU) -> bool {
    &&& (c1.p & 0x20 == 0x20)
    &&& (m1.prom == m0.prom)
    &&& (m1.crom == m0.crom)
    &&& (m1.mapper == m0.mapper)
    &&& (c0.clock_remain > 0 ==> c1 == (CPU {
                clock_remain: (c0.clock_remain - 1) as u32,
                ..c0
            }) && m1 == m0)
    &&& (c0.clock_remain == 0 && c0.reset_flag ==> c1 == (CPU {
                pc: mmu_read16_val(m0, 0xFFFC),
                sp: 0xFD,
                p: c1.p,
                reset_flag: false,
                clock_remain: 7,
                ..c0
            }) && m1 == m0 && flag_i(c1.p))
    &&& (c0.clock_remain == 0 && !c0.reset_flag && c0.nmi_flag ==> c1.pc == mmu_read16_val(m0, 0xFFFA) && c1.sp == (c0.sp + 253)
                % 256 && !c1.nmi_flag && c1.clock_remain == 7 && flag_i(
                c1.p,
            ) && m1.wram@ == m0.wram@.update(
                0x100 + c0.sp,
                (c0.pc / 256) as u8,
            ).update(0x100 + (c0.sp + 255) % 256, (c0.pc % 256) as u8).update(
                0x100 + (c0.sp + 254) % 256,
                c0.p,
            ) && m1 == (MMU { wram: m1.wram, ..m0 }))
    &&& (c0.clock_remain == 0 && !c0.reset_flag && !c0.nmi_flag && c0.irq_flag && !flag_i(c0.p) ==> c1.pc == mmu_read16_val(
                m0,
                0xFFFE,
            ) && c1.sp == (c0.sp + 253) % 256 && !c1.irq_flag && c1.clock_remain == 7 && flag_i(c1.p))
    &&& (c0.clock_remain == 0 && !c0.reset_flag && !c0.nmi_flag && !(c0.irq_flag && !flag_i(c0.p)) ==> ({
                let op = mmu_read_val(m0, c0.pc);
                let cf = CPU { pc: wrap16(c0.pc + 1), ..c0 };
                let mf = mmu_read_stepped(m0, c0.pc);
                &&& instr_rel(
                    cf,
                    mf,
                    CPU { clock_remain: 0, ..c1 },
                    m1,
                    op,
                )
                &&& c1.clock_remain == cycle_count(op)
            }))
}

impl CPU {
    /// The power-on register state.
    pub open spec fn power_on() -> CPU {
        CPU {
            a: 0,
            x: 0,
            y: 0,
            sp: 0xFD,
            p: 0x24,
            pc: 0,
            clock_remain: 0,
            reset_flag: false,
            nmi_flag: false,
            irq_flag: false,
        }
    }

    /// Bit 5 of the status byte always reads as 1, and B is kept only on
    /// pushed copies.
    pub open spec fn wf(&self) -> bool {
        &&& self.p & 0x20 == 0x20
        &&& self.p & 0x10 == 0
    }

    pub fn new() -> (c: CPU)
        ensures
            c.wf(),
            c == Self::power_on(),
    {
        proof {
            assert(0x24u8 & 0x20 == 0x20 && 0x24u8 & 0x10 == 0) by (bit_vector);
        }
        CPU {
            a: 0,
            x: 0,
            y: 0,
            sp: 0xFD,
            p: 0x24,
            pc: 0,
            clock_remain: 0,
            reset_flag: false,
            nmi_flag: false,
            irq_flag: false,
        }
    }

    /// Request the reset sequence; it runs at the next clock.
    pub fn reset(&mut self)
        ensures
            *final(self) == (CPU { reset_flag: true, clock_remain: 0, ..*old(self) }),
    {
        self.reset_flag = true;
        self.clock_remain = 0;
    }

    /// Request the non-maskable interrupt; it runs at the next clock.
    pub fn nmi(&mut self)
        ensures
            *final(self) == (CPU { nmi_flag: true, clock_remain: 0, ..*old(self) }),
    {
        self.nmi_flag = true;
        self.clock_remain = 0;
    }

    /// Request a maskable interrupt; it runs once the I flag is clear.
    pub fn irq(&mut self)
        ensures
            *final(self) == (CPU { irq_flag: true, ..*old(self) }),
    {
        self.irq_flag = true;
    }

    pub fn set_pc(&mut self, pc: u16)
        ensures
            *final(self) == (CPU { pc: pc, ..*old(self) }),
    {
        self.pc = pc;
    }

    /// Replace the whole flag byte, with B clear and bit 5 set.
    fn store_flags(&mut self, c: bool, z: bool, i: bool, d: bool, v: bool, n: bool)
        ensures
            final(self).wf(),
            *final(self) == (CPU { p: final(self).p, ..*old(self) }),
            flag_c(final(self).p) == c,
            flag_z(final(self).p) == z,
            flag_i(final(self).p) == i,
            flag_d(final(self).p) == d,
            flag_v(final(self).p) == v,
            flag_n(final(self).p) == n,
    {
        self.p = (if c {
            0x01u8
        } else {
            0
        }) | (if z {
            0x02u8
        } else {
            0
        }) | (if i {
            0x04u8
        } else {
            0
        }) | (if d {
            0x08u8
        } else {
            0
        }) | 0x20u8 | (if v {
            0x40u8
        } else {
            0
        }) | (if n {
            0x80u8
        } else {
            0
        });
        proof {
            assert(self.p == flags_byte(c, z, i, d, v, n));
            lemma_flags_byte(c, z, i, d, v, n);
        }
    }

    /// Set N and Z from a result byte; the other flags stay.
    fn update_nz(&mut self, val: u8)
        requires
            old(self).wf(),
        ensures
            final(self).wf(),
            *final(self) == (CPU { p: final(self).p, ..*old(self) }),
            flag_n(final(self).p) == (val & 0x80 != 0),
            flag_z(final(self).p) == (val == 0),
            flag_c(final(self).p) == flag_c(old(self).p),
            flag_i(final(self).p) == flag_i(old(self).p),
            flag_d(final(self).p) == flag_d(old(self).p),
            flag_v(final(self).p) == flag_v(old(self).p),
    {
        let c = self.p & 0x01 != 0;
        let i = self.p & 0x04 != 0;
        let d = self.p & 0x08 != 0;
        let v = self.p & 0x40 != 0;
        self.store_flags(c, val == 0, i, d, v, val & 0x80 != 0);
    }

    fn set_c(&mut self, c: bool)
        requires
            old(self).wf(),
        ensures
            final(self).wf(),
            *final(self) == (CPU { p: final(self).p, ..*old(self) }),
            flag_c(final(self).p) == c,
            flag_z(final(self).p) == flag_z(old(self).p),
            flag_i(final(self).p) == flag_i(old(self).p),
            flag_d(final(self).p) == flag_d(old(self).p),
            flag_v(final(self).p) == flag_v(old(self).p),
            flag_n(final(self).p) == flag_n(old(self).p),
    {
        let z = self.p & 0x02 != 0;
        let i = self.p & 0x04 != 0;
        let d = self.p & 0x08 != 0;
        let v = self.p & 0x40 != 0;
        let n = self.p & 0x80 != 0;
        self.store_flags(c, z, i, d, v, n);
    }

    fn set_i(&mut self, i: bool)
        requires
            old(self).wf(),
        ensures
            final(self).wf(),
            *final(self) == (CPU { p: final(self).p, ..*old(self) }),
            flag_i(final(self).p) == i,
            flag_c(final(self).p) == flag_c(old(self).p),
            flag_z(final(self).p) == flag_z(old(self).p),
            flag_d(final(self).p) == flag_d(old(self).p),
            flag_v(final(self).p) == flag_v(old(self).p),
            flag_n(final(self).p) == flag_n(old(self).p),
    {
        let c = self.p & 0x01 != 0;
        let z = self.p & 0x02 != 0;
        let d = self.p & 0x08 != 0;
        let v = self.p & 0x40 != 0;
        let n = self.p & 0x80 != 0;
        self.store_flags(c, z, i, d, v, n);
    }

    fn set_d(&mut self, d: bool)
        requires
            old(self).wf(),
        ensures
            final(self).wf(),
            *final(self) == (CPU { p: final(self).p, ..*old(self) }),
            flag_d(final(self).p) == d,
            flag_c(final(self).p) == flag_c(old(self).p),
            flag_z(final(self).p) == flag_z(old(self).p),
            flag_i(final(self).p) == flag_i(old(self).p),
            flag_v(final(self).p) == flag_v(old(self).p),
            flag_n(final(self).p) == flag_n(old(self).p),
    {
        let c = self.p & 0x01 != 0;
        let z = self.p & 0x02 != 0;
        let i = self.p & 0x04 != 0;
        let v = self.p & 0x40 != 0;
        let n = self.p & 0x80 != 0;
        self.store_flags(c, z, i, d, v, n);
    }

    fn set_v(&mut self, v: bool)
        requires
            old(self).wf(),
        ensures
            final(self).wf(),
            *final(self) == (CPU { p: final(self).p, ..*old(self) }),
            flag_v(final(self).p) == v,
            flag_c(final(self).p) == flag_c(old(self).p),
            flag_z(final(self).p) == flag_z(old(self).p),
            flag_i(final(self).p) == flag_i(old(self).p),
            flag_d(final(self).p) == flag_d(old(self).p),
            flag_n(final(self).p) == flag_n(old(self).p),
    {
        let c = self.p & 0x01 != 0;
        let z = self.p & 0x02 != 0;
        let i = self.p & 0x04 != 0;
        let d = self.p & 0x08 != 0;
        let n = self.p & 0x80 != 0;
        self.store_flags(c, z, i, d, v, n);
    }

    /// Load the flags from a pulled status byte: B is dropped, bit 5 set.
    fn plp_byte(&mut self, v: u8)
        requires
            old(self).wf(),
        ensures
            final(self).wf(),
            *final(self) == (CPU { p: final(self).p, ..*old(self) }),
            flag_c(final(self).p) == flag_c(v),
            flag_z(final(self).p) == flag_z(v),
            flag_i(final(self).p) == flag_i(v),
            flag_d(final(self).p) == flag_d(v),
            flag_v(final(self).p) == flag_v(v),
            flag_n(final(self).p) == flag_n(v),
    {
        self.store_flags(
            v & 0x01 != 0,
            v & 0x02 != 0,
            v & 0x04 != 0,
            v & 0x08 != 0,
            v & 0x40 != 0,
            v & 0x80 != 0,
        );
    }

    /// Add with carry: binary addition of A, the operand and the carry,
    /// with C on unsigned overflow and V on signed overflow.
    fn adc(&mut self, m: u8)
        requires
            old(self).wf(),
    ensures
            final(self).wf(),
            *final(self) == (CPU { a: final(self).a, p: final(self).p, ..*old(self) }),
            final(self).a == (old(self).a + m + carry01(old(self).p)) % 256,
            flag_c(final(self).p) == (old(self).a + m + carry01(old(self).p) > 255),
            flag_v(final(self).p) == ((old(self).a & 0x80) == (m & 0x80) && (final(self).a & 0x80)
                != (old(self).a & 0x80)),
            flag_z(final(self).p) == (final(self).a == 0),
            flag_n(final(self).p) == (final(self).a & 0x80 != 0),
            flag_i(final(self).p) == flag_i(old(self).p),
            flag_d(final(self).p) == flag_d(old(self).p),
    {
        let c: u16 = if self.p & 0x01 != 0 {
            1
        } else {
            0
        };
        let t: u16 = self.a as u16 + m as u16 + c;
        let new_a: u8 = (t % 256) as u8;
        let carry = t > 255;
        let overflow = (self.a & 0x80) == (m & 0x80) && (new_a & 0x80) != (self.a & 0x80);
        let i = self.p & 0x04 != 0;
        let d = self.p & 0x08 != 0;
        self.a = new_a;
        self.store_flags(carry, new_a == 0, i, d, overflow, new_a & 0x80 != 0);
    }

    /// Subtract with carry as this machine bills it: the operand and the
    /// set carry are taken from A, C reports `A >= operand`, V the signed
    /// overflow rule.
    fn sbc(&mut self, m: u8)
        requires
            old(self).wf(),
        ensures
            final(self).wf(),
            *final(self) == (CPU { a: final(self).a, p: final(self).p, ..*old(self) }),
            final(self).a == (old(self).a - m - carry01(old(self).p) + 512) % 256,
            flag_c(final(self).p) == (old(self).a >= m),
            flag_v(final(self).p) == ((old(self).a & 0x80) != (m & 0x80) && (final(self).a & 0x80)
                != (old(self).a & 0x80)),
            flag_z(final(self).p) == (final(self).a == 0),
            flag_n(final(self).p) == (final(self).a & 0x80 != 0),
            flag_i(final(self).p) == flag_i(old(self).p),
            flag_d(final(self).p) == flag_d(old(self).p),
    {
        let c: u8 = if self.p & 0x01 != 0 {
            1
        } else {
            0
        };
        let carry = self.a >= m;
        let new_a: u8 = self.a.wrapping_sub(m).wrapping_sub(c);
        let overflow = (self.a & 0x80) != (m & 0x80) && (new_a & 0x80) != (self.a & 0x80);
        let i = self.p & 0x04 != 0;
        let d = self.p & 0x08 != 0;
        self.a = new_a;
        self.store_flags(carry, new_a == 0, i, d, overflow, new_a & 0x80 != 0);
    }

    /// Compare a register with the operand: C when the register is not
    /// below it, N and Z from the difference.
    fn compare(&mut self, reg: u8, m: u8)
        requires
            old(self).wf(),
        ensures
            final(self).wf(),
            *final(self) == (CPU { p: final(self).p, ..*old(self) }),
            flag_c(final(self).p) == (reg >= m),
            flag_z(final(self).p) == (reg == m),
            flag_n(final(self).p) == ((((reg - m + 256) % 256) as u8) & 0x80 != 0),
            flag_i(final(self).p) == flag_i(old(self).p),
            flag_d(final(self).p) == flag_d(old(self).p),
            flag_v(final(self).p) == flag_v(old(self).p),
    {
        let diff = reg.wrapping_sub(m);
        let i = self.p & 0x04 != 0;
        let d = self.p & 0x08 != 0;
        let v = self.p & 0x40 != 0;
        self.store_flags(reg >= m, diff == 0, i, d, v, diff & 0x80 != 0);
    }

    /// BIT: copy bits 7 and 6 of the operand into N and V, Z from the
    /// masked accumulator.
    fn bit_test(&mut self, m: u8)
        requires
            old(self).wf(),
        ensures
            final(self).wf(),
            *final(self) == (CPU { p: final(self).p, ..*old(self) }),
            flag_n(final(self).p) == (m & 0x80 != 0),
            flag_v(final(self).p) == (m & 0x40 != 0),
            flag_z(final(self).p) == (old(self).a & m == 0),
            flag_c(final(self).p) == flag_c(old(self).p),
            flag_i(final(self).p) == flag_i(old(self).p),
            flag_d(final(self).p) == flag_d(old(self).p),
    {
        let c = self.p & 0x01 != 0;
        let i = self.p & 0x04 != 0;
        let d = self.p & 0x08 != 0;
        self.store_flags(c, self.a & m == 0, i, d, m & 0x40 != 0, m & 0x80 != 0);
    }

    /// Shift left: the top bit leaves into C.
    fn asl_val(&mut self, m: u8) -> (r: u8)
        requires
            old(self).wf(),
        ensures
            final(self).wf(),
            *final(self) == (CPU { p: final(self).p, ..*old(self) }),
            r == (m * 2) % 256,
            flag_c(final(self).p) == (m & 0x80 != 0),
            flag_z(final(self).p) == (r == 0),
            flag_n(final(self).p) == (r & 0x80 != 0),
            flag_i(final(self).p) == flag_i(old(self).p),
            flag_d(final(self).p) == flag_d(old(self).p),
            flag_v(final(self).p) == flag_v(old(self).p),
    {
        let r: u8 = ((m as u16 * 2) % 256) as u8;
        let i = self.p & 0x04 != 0;
        let d = self.p & 0x08 != 0;
        let v = self.p & 0x40 != 0;
        self.store_flags(m & 0x80 != 0, r == 0, i, d, v, r & 0x80 != 0);
        r
    }

    /// Shift right: the bottom bit leaves into C.
    fn lsr_val(&mut self, m: u8) -> (r: u8)
        requires
            old(self).wf(),
        ensures
            final(self).wf(),
            *final(self) == (CPU { p: final(self).p, ..*old(self) }),
            r == m / 2,
            flag_c(final(self).p) == (m & 0x01 != 0),
            flag_z(final(self).p) == (r == 0),
            flag_n(final(self).p) == (r & 0x80 != 0),
            flag_i(final(self).p) == flag_i(old(self).p),
            flag_d(final(self).p) == flag_d(old(self).p),
            flag_v(final(self).p) == flag_v(old(self).p),
    {
        let r: u8 = m / 2;
        let i = self.p & 0x04 != 0;
        let d = self.p & 0x08 != 0;
        let v = self.p & 0x40 != 0;
        self.store_flags(m & 0x01 != 0, r == 0, i, d, v, r & 0x80 != 0);
        r
    }

    /// Rotate left through the carry.
    fn rol_val(&mut self, m: u8) -> (r: u8)
        requires
            old(self).wf(),
        ensures
            final(self).wf(),
            *final(self) == (CPU { p: final(self).p, ..*old(self) }),
            r == (m * 2) % 256 + carry01(old(self).p),
            flag_c(final(self).p) == (m & 0x80 != 0),
            flag_z(final(self).p) == (r == 0),
            flag_n(final(self).p) == (r & 0x80 != 0),
            flag_i(final(self).p) == flag_i(old(self).p),
            flag_d(final(self).p) == flag_d(old(self).p),
            flag_v(final(self).p) == flag_v(old(self).p),
    {
        let c_in: u8 = if self.p & 0x01 != 0 {
            1
        } else {
            0
        };
        let r: u8 = ((m as u16 * 2) % 256) as u8 + c_in;
        let i = self.p & 0x04 != 0;
        let d = self.p & 0x08 != 0;
        let v = self.p & 0x40 != 0;
        self.store_flags(m & 0x80 != 0, r == 0, i, d, v, r & 0x80 != 0);
        r
    }

    /// Rotate right through the carry.
    fn ror_val(&mut self, m: u8) -> (r: u8)
        requires
            old(self).wf(),
        ensures
            final(self).wf(),
            *final(self) == (CPU { p: final(self).p, ..*old(self) }),
            r == m / 2 + carry01(old(self).p) * 128,
            flag_c(final(self).p) == (m & 0x01 != 0),
            flag_z(final(self).p) == (r == 0),
            flag_n(final(self).p) == (r & 0x80 != 0),
            flag_i(final(self).p) == flag_i(old(self).p),
            flag_d(final(self).p) == flag_d(old(self).p),
            flag_v(final(self).p) == flag_v(old(self).p),
    {
        let c_in: u8 = if self.p & 0x01 != 0 {
            128
        } else {
            0
        };
        let r: u8 = m / 2 + c_in;
        let i = self.p & 0x04 != 0;
        let d = self.p & 0x08 != 0;
        let v = self.p & 0x40 != 0;
        self.store_flags(m & 0x01 != 0, r == 0, i, d, v, r & 0x80 != 0);
        r
    }

    /// Increment a memory operand, setting N and Z.
    fn inc_val(&mut self, m: u8) -> (r: u8)
        requires
            old(self).wf(),
        ensures
            final(self).wf(),
            *final(self) == (CPU { p: final(self).p, ..*old(self) }),
            r == (m + 1) % 256,
            flag_z(final(self).p) == (r == 0),
            flag_n(final(self).p) == (r & 0x80 != 0),
            flag_c(final(self).p) == flag_c(old(self).p),
            flag_i(final(self).p) == flag_i(old(self).p),
            flag_d(final(self).p) == flag_d(old(self).p),
            flag_v(final(self).p) == flag_v(old(self).p),
    {
        let r = m.wrapping_add(1);
        self.update_nz(r);
        r
    }

    /// Decrement a memory operand, setting N and Z.
    fn dec_val(&mut self, m: u8) -> (r: u8)
        requires
            old(self).wf(),
        ensures
            final(self).wf(),
            *final(self) == (CPU { p: final(self).p, ..*old(self) }),
            r == (m + 255) % 256,
            flag_z(final(self).p) == (r == 0),
            flag_n(final(self).p) == (r & 0x80 != 0),
            flag_c(final(self).p) == flag_c(old(self).p),
            flag_i(final(self).p) == flag_i(old(self).p),
            flag_d(final(self).p) == flag_d(old(self).p),
            flag_v(final(self).p) == flag_v(old(self).p),
    {
        let r = m.wrapping_sub(1);
        self.update_nz(r);
        r
    }

    /// Push one byte at the stack pointer, which then moves down.
    fn push8(&mut self, mmu: &mut MMU, v: u8)
        requires
            old(self).wf(),
            old(mmu).wf(),
        ensures
            final(self).wf(),
            final(mmu).wf(),
            *final(self) == (CPU { sp: final(self).sp, ..*old(self) }),
            final(self).sp == (old(self).sp + 255) % 256,
            final(mmu).wram@ == old(mmu).wram@.update(0x100 + old(self).sp, v),
            *final(mmu) == (MMU { wram: final(mmu).wram, ..*old(mmu) }),
    {
        mmu.write(0x0100 + self.sp as u16, v);
        self.sp = self.sp.wrapping_sub(1);
    }

    /// Pull one byte: the stack pointer moves up first.
    fn pop8(&mut self, mmu: &mut MMU) -> (r: u8)
        requires
            old(self).wf(),
            old(mmu).wf(),
        ensures
            final(self).wf(),
            final(mmu).wf(),
            *final(self) == (CPU { sp: final(self).sp, ..*old(self) }),
            final(self).sp == (old(self).sp + 1) % 256,
            *final(mmu) == *old(mmu),
            r == old(mmu).wram@[0x100 + (old(self).sp + 1) % 256],
    {
        self.sp = self.sp.wrapping_add(1);
        mmu.read_1byte(0x0100 + self.sp as u16)
    }

    /// Immediate addressing: the operand is the next program byte.
    fn ea_imm(&mut self) -> (ea: u16)
        ensures
            *final(self) == (CPU { pc: wrap16(old(self).pc + 1), ..*old(self) }),
            ea == old(self).pc,
    {
        let ea = self.pc;
        self.pc = self.pc.wrapping_add(1);
        ea
    }

    /// Absolute addressing: a two-byte little-endian address.
    fn ea_abs(&mut self, mmu: &mut MMU) -> (ea: u16)
        requires
            old(self).wf(),
            old(mmu).wf(),
        ensures
            final(mmu).wf(),
            *final(self) == (CPU { pc: wrap16(old(self).pc + 2), ..*old(self) }),
            ea == mmu_read16_val(*old(mmu), old(self).pc),
            *final(mmu) == mmu_read16_stepped(*old(mmu), old(self).pc),
    {
        let ea = mmu.read_2bytes(self.pc);
        self.pc = self.pc.wrapping_add(2);
        ea
    }

    /// Absolute indexed addressing: the absolute address plus a register,
    /// wrapping in the address space.
    fn ea_abs_idx(&mut self, mmu: &mut MMU, i: u8) -> (ea: u16)
        requires
            old(self).wf(),
            old(mmu).wf(),
        ensures
            final(mmu).wf(),
            *final(self) == (CPU { pc: wrap16(old(self).pc + 2), ..*old(self) }),
            ea == wrap16(mmu_read16_val(*old(mmu), old(self).pc) + i),
            *final(mmu) == mmu_read16_stepped(*old(mmu), old(self).pc),
    {
        let base = mmu.read_2bytes(self.pc);
        self.pc = self.pc.wrapping_add(2);
        base.wrapping_add(i as u16)
    }

    /// Zero-page addressing: a one-byte address.
    fn ea_zp(&mut self, mmu: &mut MMU) -> (ea: u16)
        requires
            old(self).wf(),
            old(mmu).wf(),
        ensures
            final(mmu).wf(),
            *final(self) == (CPU { pc: wrap16(old(self).pc + 1), ..*old(self) }),
            ea == mmu_read_val(*old(mmu), old(self).pc) as u16,
            *final(mmu) == mmu_read_stepped(*old(mmu), old(self).pc),
    {
        let ea = mmu.read_1byte(self.pc) as u16;
        self.pc = self.pc.wrapping_add(1);
        ea
    }

    /// Zero-page indexed addressing: the index wraps within the page.
    fn ea_zp_idx(&mut self, mmu: &mut MMU, i: u8) -> (ea: u16)
        requires
            old(self).wf(),
            old(mmu).wf(),
        ensures
            final(mmu).wf(),
            *final(self) == (CPU { pc: wrap16(old(self).pc + 1), ..*old(self) }),
            ea == ((mmu_read_val(*old(mmu), old(self).pc) + i) % 256) as u16,
            *final(mmu) == mmu_read_stepped(*old(mmu), old(self).pc),
    {
        let z = mmu.read_1byte(self.pc);
        self.pc = self.pc.wrapping_add(1);
        z.wrapping_add(i) as u16
    }

    /// Relative addressing: a signed offset from the byte after the
    /// operand.
    fn ea_rel(&mut self, mmu: &mut MMU) -> (ea: u16)
        requires
            old(self).wf(),
            old(mmu).wf(),
        ensures
            final(mmu).wf(),
            *final(self) == (CPU { pc: wrap16(old(self).pc + 1), ..*old(self) }),
            ({
                let m = mmu_read_val(*old(mmu), old(self).pc);
                let base = wrap16(old(self).pc + 1);
                ea == if m < 128 {
                    wrap16(base + m)
                } else {
                    wrap16(base + m + 0x10000 - 256)
                }
            }),
            *final(mmu) == mmu_read_stepped(*old(mmu), old(self).pc),
    {
        let m = mmu.read_1byte(self.pc);
        self.pc = self.pc.wrapping_add(1);
        if m < 128 {
            self.pc.wrapping_add(m as u16)
        } else {
            self.pc.wrapping_sub(256 - m as u16)
        }
    }

    /// Indirect addressing, with the page-boundary quirk.
    fn ea_ind(&mut self, mmu: &mut MMU) -> (ea: u16)
        requires
            old(self).wf(),
            old(mmu).wf(),
        ensures
            final(mmu).wf(),
            *final(self) == (CPU { pc: wrap16(old(self).pc + 2), ..*old(self) }),
            ea == mmu_indirect_val(*old(mmu), old(self).pc),
            *final(mmu) == mmu_indirect_stepped(*old(mmu), old(self).pc),
    {
        let ea = mmu.indirect(self.pc);
        self.pc = self.pc.wrapping_add(2);
        ea
    }

    /// Indexed-indirect addressing.
    fn ea_ind_x(&mut self, mmu: &mut MMU, i: u8) -> (ea: u16)
        requires
            old(self).wf(),
            old(mmu).wf(),
        ensures
            final(mmu).wf(),
            *final(self) == (CPU { pc: wrap16(old(self).pc + 1), ..*old(self) }),
            ea == mmu_indirect_x_val(*old(mmu), old(self).pc, i),
            *final(mmu) == mmu_indirect_x_stepped(*old(mmu), old(self).pc, i),
    {
        let ea = mmu.indirect_x(self.pc, i);
        self.pc = self.pc.wrapping_add(1);
        ea
    }

    /// Indirect-indexed addressing.
    fn ea_ind_y(&mut self, mmu: &mut MMU, i: u8) -> (ea: u16)
        requires
            old(self).wf(),
            old(mmu).wf(),
        ensures
            final(mmu).wf(),
            *final(self) == (CPU { pc: wrap16(old(self).pc + 1), ..*old(self) }),
            ea == mmu_indirect_y_val(*old(mmu), old(self).pc, i),
            *final(mmu) == mmu_indirect_y_stepped(*old(mmu), old(self).pc, i),
    {
        let ea = mmu.indirect_y(self.pc, i);
        self.pc = self.pc.wrapping_add(1);
        ea
    }

    /// The reset sequence: load the reset vector, rewind the stack
    /// pointer, set I, and bill seven cycles.
    fn do_reset(&mut self, mmu: &mut MMU)
        requires
            old(self).wf(),
            old(mmu).wf(),
        ensures
            final(self).wf(),
            final(mmu).wf(),
            *final(mmu) == *old(mmu),
            *final(self) == (CPU {
                pc: final(self).pc,
                sp: 0xFD,
                p: final(self).p,
                reset_flag: false,
                clock_remain: 7,
                ..*old(self)
            }),
            final(self).pc == mmu_read16_val(*old(mmu), 0xFFFC),
            flag_i(final(self).p),
            flag_c(final(self).p) == flag_c(old(self).p),
            flag_z(final(self).p) == flag_z(old(self).p),
            flag_d(final(self).p) == flag_d(old(self).p),
            flag_v(final(self).p) == flag_v(old(self).p),
            flag_n(final(self).p) == flag_n(old(self).p),
    {
        let pc = mmu.read_2bytes(0xFFFC);
        self.pc = pc;
        self.sp = 0xFD;
        self.set_i(true);
        self.reset_flag = false;
        self.clock_remain = 7;
    }

    /// The interrupt sequence shared by NMI and IRQ: push the return
    /// address and the status byte, set I, vector, bill seven cycles.
    #[verifier::rlimit(60)]
    fn do_interrupt(&mut self, mmu: &mut MMU, vector: u16)
        requires
            old(self).wf(),
            old(mmu).wf(),
            vector == 0xFFFA || vector == 0xFFFE,
        ensures
            final(self).wf(),
            final(mmu).wf(),
            final(mmu).wram@ == old(mmu).wram@.update(0x100 + old(self).sp, (old(self).pc / 256) as u8)
                .update(0x100 + (old(self).sp + 255) % 256, (old(self).pc % 256) as u8).update(
                0x100 + (old(self).sp + 254) % 256,
                old(self).p,
            ),
            *final(mmu) == (MMU { wram: final(mmu).wram, ..*old(mmu) }),
            *final(self) == (CPU {
                pc: final(self).pc,
                sp: final(self).sp,
                p: final(self).p,
                clock_remain: 7,
                ..*old(self)
            }),
            final(self).sp == (old(self).sp + 253) % 256,
            final(self).pc == mmu_read16_val(*old(mmu), vector),
            flag_i(final(self).p),
            flag_c(final(self).p) == flag_c(old(self).p),
            flag_z(final(self).p) == flag_z(old(self).p),
            flag_d(final(self).p) == flag_d(old(self).p),
            flag_v(final(self).p) == flag_v(old(self).p),
            flag_n(final(self).p) == flag_n(old(self).p),
    {
        let sp16 = 0x0100 + self.sp as u16;
        let ret = self.pc;
        mmu.push_2bytes(sp16, ret);
        let pv = self.p;
        mmu.write(0x0100 + self.sp.wrapping_sub(2) as u16, pv);
        self.sp = self.sp.wrapping_sub(3);
        self.set_i(true);
        let pc = mmu.read_2bytes(vector);
        self.pc = pc;
        self.clock_remain = 7;
    }

    /// One CPU tick. A positive cycle bill is paid down by one with no
    /// other effect. At a zero bill one execution step runs: the pending
    /// reset, else the pending NMI, else a pending IRQ when I is clear
    /// (a simultaneous NMI wins), else the instruction at PC. Bit 5 of P
    /// reads as 1 after every tick, and neither ROM nor the mapper ever
    /// changes.
    #[verifier::rlimit(100)]
    pub fn clock(&mut self, mmu: &mut MMU)
        requires
            old(self).wf(),
            old(mmu).wf(),
        ensures
            final(self).wf(),
            final(mmu).wf(),
            final(self).p & 0x20 == 0x20,
            cpu_tick_rel(*old(self), *old(mmu), *final(self), *final(mmu)),
    {
        if self.clock_remain > 0 {
            self.clock_remain = self.clock_remain - 1;
            return ;
        }
        if self.reset_flag {
            self.do_reset(mmu);
            return ;
        }
        if self.nmi_flag {
            self.nmi_flag = false;
            self.do_interrupt(mmu, 0xFFFA);
            return ;
        }
        if self.irq_flag && self.p & 0x04 == 0 {
            self.irq_flag = false;
            self.do_interrupt(mmu, 0xFFFE);
            return ;
        }
        let op = mmu.read_1byte(self.pc);
        self.pc = self.pc.wrapping_add(1);
        let ghost cf = *self;
        let ghost mf = *mmu;
        proof {
            assert(op == mmu_read_val(*old(mmu), old(self).pc));
            assert(cf == (CPU { pc: wrap16(old(self).pc + 1), ..*old(self) }));
            assert(mf == mmu_read_stepped(*old(mmu), old(self).pc));
        }
        self.execute(op, mmu);
        let ghost ce = *self;
        self.clock_remain = cycles_of(op) as u32;
        proof {
            assert(ce.clock_remain == 0);
            assert((CPU { clock_remain: 0u32, ..*self }) == ce);
            assert(instr_rel(cf, mf, ce, *mmu, op));
        }
    }

    /// Decode and run one opcode: addressing mode, operation, flags.
    fn execute(&mut self, op: u8, mmu: &mut MMU)
        requires
            old(self).wf(),
            old(mmu).wf(),
        ensures
            final(self).wf(),
            final(mmu).wf(),
            final(mmu).prom == old(mmu).prom,
            final(mmu).crom == old(mmu).crom,
            final(mmu).mapper == old(mmu).mapper,
            final(self).clock_remain == old(self).clock_remain,
            instr_rel(*old(self), *old(mmu), *final(self), *final(mmu), op),
    {
        proof {
            reveal(instr_rel);
        }
        if op < 0x10 {
            self.execute_row0(op, mmu);
        } else if op < 0x20 {
            self.execute_row1(op, mmu);
        } else if op < 0x30 {
            self.execute_row2(op, mmu);
        } else if op < 0x40 {
            self.execute_row3(op, mmu);
        } else if op < 0x50 {
            self.execute_row4(op, mmu);
        } else if op < 0x60 {
            self.execute_row5(op, mmu);
        } else if op < 0x70 {
            self.execute_row6(op, mmu);
        } else if op < 0x80 {
            self.execute_row7(op, mmu);
        } else if op < 0x90 {
            self.execute_row8(op, mmu);
        } else if op < 0xA0 {
            self.execute_row9(op, mmu);
        } else if op < 0xB0 {
            self.execute_rowa(op, mmu);
        } else if op < 0xC0 {
            self.execute_rowb(op, mmu);
        } else if op < 0xD0 {
            self.execute_rowc(op, mmu);
        } else if op < 0xE0 {
            self.execute_rowd(op, mmu);
        } else if op < 0xF0 {
            self.execute_rowe(op, mmu);
        } else {
            self.execute_rowf(op, mmu);
        }
    }
















    /// Opcodes 0x00 through 0x0F.
    fn execute_row0(&mut self, op: u8, mmu: &mut MMU)
        requires
            old(self).wf(),
            old(mmu).wf(),
            0x00 <= op <= 0x0F,
        ensures
            final(self).wf(),
            final(mmu).wf(),
            final(mmu).prom == old(mmu).prom,
            final(mmu).crom == old(mmu).crom,
            final(mmu).mapper == old(mmu).mapper,
            final(self).clock_remain == old(self).clock_remain,
            instr_rel_row0(*old(self), *old(mmu), *final(self), *final(mmu), op),
    {
        match op {
            0x00 => {
                self.op_00(mmu);
            }
            0x01 => {
                self.op_01(mmu);
            }
            0x05 => {
                self.op_05(mmu);
            }
            0x06 => {
                self.op_06(mmu);
            }
            0x08 => {
                self.op_08(mmu);
            }
            0x09 => {
                self.op_09(mmu);
            }
            0x0A => {
                self.op_0a(mmu);
            }
            0x0D => {
                self.op_0d(mmu);
            }
            0x0E => {
                self.op_0e(mmu);
            }
            _ => {
                // Undocumented opcodes run as NOP in the hardened build.
            }
        }
    }

    /// Opcodes 0x10 through 0x1F.
    fn execute_row1(&mut self, op: u8, mmu: &mut MMU)
        requires
            old(self).wf(),
            old(mmu).wf(),
            0x10 <= op <= 0x1F,
        ensures
            final(self).wf(),
            final(mmu).wf(),
            final(mmu).prom == old(mmu).prom,
            final(mmu).crom == old(mmu).crom,
            final(mmu).mapper == old(mmu).mapper,
            final(self).clock_remain == old(self).clock_remain,
            instr_rel_row1(*old(self), *old(mmu), *final(self), *final(mmu), op),
    {
        match op {
            0x10 => {
                self.op_10(mmu);
            }
            0x11 => {
                self.op_11(mmu);
            }
            0x15 => {
                self.op_15(mmu);
            }
            0x16 => {
                self.op_16(mmu);
            }
            0x18 => {
                self.op_18(mmu);
            }
            0x19 => {
                self.op_19(mmu);
            }
            0x1D => {
                self.op_1d(mmu);
            }
            0x1E => {
                self.op_1e(mmu);
            }
            _ => {
                // Undocumented opcodes run as NOP in the hardened build.
            }
        }
    }

    /// Opcodes 0x20 through 0x2F.
    fn execute_row2(&mut self, op: u8, mmu: &mut MMU)
        requires
            old(self).wf(),
            old(mmu).wf(),
            0x20 <= op <= 0x2F,
        ensures
            final(self).wf(),
            final(mmu).wf(),
            final(mmu).prom == old(mmu).prom,
            final(mmu).crom == old(mmu).crom,
            final(mmu).mapper == old(mmu).mapper,
            final(self).clock_remain == old(self).clock_remain,
            instr_rel_row2(*old(self), *old(mmu), *final(self), *final(mmu), op),
    {
        match op {
            0x20 => {
                self.op_20(mmu);
            }
            0x21 => {
                self.op_21(mmu);
            }
            0x24 => {
                self.op_24(mmu);
            }
            0x25 => {
                self.op_25(mmu);
            }
            0x26 => {
                self.op_26(mmu);
            }
            0x28 => {
                self.op_28(mmu);
            }
            0x29 => {
                self.op_29(mmu);
            }
            0x2A => {
                self.op_2a(mmu);
            }
            0x2C => {
                self.op_2c(mmu);
            }
            0x2D => {
                self.op_2d(mmu);
            }
            0x2E => {
                self.op_2e(mmu);
            }
            _ => {
                // Undocumented opcodes run as NOP in the hardened build.
            }
        }
    }

    /// Opcodes 0x30 through 0x3F.
    fn execute_row3(&mut self, op: u8, mmu: &mut MMU)
        requires
            old(self).wf(),
            old(mmu).wf(),
            0x30 <= op <= 0x3F,
        ensures
            final(self).wf(),
            final(mmu).wf(),
            final(mmu).prom == old(mmu).prom,
            final(mmu).crom == old(mmu).crom,
            final(mmu).mapper == old(mmu).mapper,
            final(self).clock_remain == old(self).clock_remain,
            instr_rel_row3(*old(self), *old(mmu), *final(self), *final(mmu), op),
    {
        match op {
            0x30 => {
                self.op_30(mmu);
            }
            0x31 => {
                self.op_31(mmu);
            }
            0x35 => {
                self.op_35(mmu);
            }
            0x36 => {
                self.op_36(mmu);
            }
            0x38 => {
                self.op_38(mmu);
            }
            0x39 => {
                self.op_39(mmu);
            }
            0x3D => {
                self.op_3d(mmu);
            }
            0x3E => {
                self.op_3e(mmu);
            }
            _ => {
                // Undocumented opcodes run as NOP in the hardened build.
            }
        }
    }

    /// Opcodes 0x40 through 0x4F.
    fn execute_row4(&mut self, op: u8, mmu: &mut MMU)
        requires
            old(self).wf(),
            old(mmu).wf(),
            0x40 <= op <= 0x4F,
        ensures
            final(self).wf(),
            final(mmu).wf(),
            final(mmu).prom == old(mmu).prom,
            final(mmu).crom == old(mmu).crom,
            final(mmu).mapper == old(mmu).mapper,
            final(self).clock_remain == old(self).clock_remain,
            instr_rel_row4(*old(self), *old(mmu), *final(self), *final(mmu), op),
    {
        match op {
            0x40 => {
                self.op_40(mmu);
            }
            0x41 => {
                self.op_41(mmu);
            }
            0x45 => {
                self.op_45(mmu);
            }
            0x46 => {
                self.op_46(mmu);
            }
            0x48 => {
                self.op_48(mmu);
            }
            0x49 => {
                self.op_49(mmu);
            }
            0x4A => {
                self.op_4a(mmu);
            }
            0x4C => {
                self.op_4c(mmu);
            }
            0x4D => {
                self.op_4d(mmu);
            }
            0x4E => {
                self.op_4e(mmu);
            }
            _ => {
                // Undocumented opcodes run as NOP in the hardened build.
            }
        }
    }

    /// Opcodes 0x50 through 0x5F.
    fn execute_row5(&mut self, op: u8, mmu: &mut MMU)
        requires
            old(self).wf(),
            old(mmu).wf(),
            0x50 <= op <= 0x5F,
        ensures
            final(self).wf(),
            final(mmu).wf(),
            final(mmu).prom == old(mmu).prom,
            final(mmu).crom == old(mmu).crom,
            final(mmu).mapper == old(mmu).mapper,
            final(self).clock_remain == old(self).clock_remain,
            instr_rel_row5(*old(self), *old(mmu), *final(self), *final(mmu), op),
    {
        match op {
            0x50 => {
                self.op_50(mmu);
            }
            0x51 => {
                self.op_51(mmu);
            }
            0x55 => {
                self.op_55(mmu);
            }
            0x56 => {
                self.op_56(mmu);
            }
            0x58 => {
                self.op_58(mmu);
            }
            0x59 => {
                self.op_59(mmu);
            }
            0x5D => {
                self.op_5d(mmu);
            }
            0x5E => {
                self.op_5e(mmu);
            }
            _ => {
                // Undocumented opcodes run as NOP in the hardened build.
            }
        }
    }

    /// Opcodes 0x60 through 0x6F.
    fn execute_row6(&mut self, op: u8, mmu: &mut MMU)
        requires
            old(self).wf(),
            old(mmu).wf(),
            0x60 <= op <= 0x6F,
        ensures
            final(self).wf(),
            final(mmu).wf(),
            final(mmu).prom == old(mmu).prom,
            final(mmu).crom == old(mmu).crom,
            final(mmu).mapper == old(mmu).mapper,
            final(self).clock_remain == old(self).clock_remain,
            instr_rel_row6(*old(self), *old(mmu), *final(self), *final(mmu), op),
    {
        match op {
            0x60 => {
                self.op_60(mmu);
            }
            0x61 => {
                self.op_61(mmu);
            }
            0x65 => {
                self.op_65(mmu);
            }
            0x66 => {
                self.op_66(mmu);
            }
            0x68 => {
                self.op_68(mmu);
            }
            0x69 => {
                self.op_69(mmu);
            }
            0x6A => {
                self.op_6a(mmu);
            }
            0x6C => {
                self.op_6c(mmu);
            }
            0x6D => {
                self.op_6d(mmu);
            }
            0x6E => {
                self.op_6e(mmu);
            }
            _ => {
                // Undocumented opcodes run as NOP in the hardened build.
            }
        }
    }

    /// Opcodes 0x70 through 0x7F.
    fn execute_row7(&mut self, op: u8, mmu: &mut MMU)
        requires
            old(self).wf(),
            old(mmu).wf(),
            0x70 <= op <= 0x7F,
        ensures
            final(self).wf(),
            final(mmu).wf(),
            final(mmu).prom == old(mmu).prom,
            final(mmu).crom == old(mmu).crom,
            final(mmu).mapper == old(mmu).mapper,
            final(self).clock_remain == old(self).clock_remain,
            instr_rel_row7(*old(self), *old(mmu), *final(self), *final(mmu), op),
    {
        match op {
            0x70 => {
                self.op_70(mmu);
            }
            0x71 => {
                self.op_71(mmu);
            }
            0x75 => {
                self.op_75(mmu);
            }
            0x76 => {
                self.op_76(mmu);
            }
            0x78 => {
                self.op_78(mmu);
            }
            0x79 => {
                self.op_79(mmu);
            }
            0x7D => {
                self.op_7d(mmu);
            }
            0x7E => {
                self.op_7e(mmu);
            }
            _ => {
                // Undocumented opcodes run as NOP in the hardened build.
            }
        }
    }

    /// Opcodes 0x80 through 0x8F.
    fn execute_row8(&mut self, op: u8, mmu: &mut MMU)
        requires
            old(self).wf(),
            old(mmu).wf(),
            0x80 <= op <= 0x8F,
        ensures
            final(self).wf(),
            final(mmu).wf(),
            final(mmu).prom == old(mmu).prom,
            final(mmu).crom == old(mmu).crom,
            final(mmu).mapper == old(mmu).mapper,
            final(self).clock_remain == old(self).clock_remain,
            instr_rel_row8(*old(self), *old(mmu), *final(self), *final(mmu), op),
    {
        match op {
            0x81 => {
                self.op_81(mmu);
            }
            0x84 => {
                self.op_84(mmu);
            }
            0x85 => {
                self.op_85(mmu);
            }
            0x86 => {
                self.op_86(mmu);
            }
            0x88 => {
                self.op_88(mmu);
            }
            0x8A => {
                self.op_8a(mmu);
            }
            0x8C => {
                self.op_8c(mmu);
            }
            0x8D => {
                self.op_8d(mmu);
            }
            0x8E => {
                self.op_8e(mmu);
            }
            _ => {
                // Undocumented opcodes run as NOP in the hardened build.
            }
        }
    }

    /// Opcodes 0x90 through 0x9F.
    fn execute_row9(&mut self, op: u8, mmu: &mut MMU)
        requires
            old(self).wf(),
            old(mmu).wf(),
            0x90 <= op <= 0x9F,
        ensures
            final(self).wf(),
            final(mmu).wf(),
            final(mmu).prom == old(mmu).prom,
            final(mmu).crom == old(mmu).crom,
            final(mmu).mapper == old(mmu).mapper,
            final(self).clock_remain == old(self).clock_remain,
            instr_rel_row9(*old(self), *old(mmu), *final(self), *final(mmu), op),
    {
        match op {
            0x90 => {
                self.op_90(mmu);
            }
            0x91 => {
                self.op_91(mmu);
            }
            0x94 => {
                self.op_94(mmu);
            }
            0x95 => {
                self.op_95(mmu);
            }
            0x96 => {
                self.op_96(mmu);
            }
            0x98 => {
                self.op_98(mmu);
            }
            0x99 => {
                self.op_99(mmu);
            }
            0x9A => {
                self.op_9a(mmu);
            }
            0x9D => {
                self.op_9d(mmu);
            }
            _ => {
                // Undocumented opcodes run as NOP in the hardened build.
            }
        }
    }

    /// Opcodes 0xA0 through 0xAF.
    fn execute_rowa(&mut self, op: u8, mmu: &mut MMU)
        requires
            old(self).wf(),
            old(mmu).wf(),
            0xA0 <= op <= 0xAF,
        ensures
            final(self).wf(),
            final(mmu).wf(),
            final(mmu).prom == old(mmu).prom,
            final(mmu).crom == old(mmu).crom,
            final(mmu).mapper == old(mmu).mapper,
            final(self).clock_remain == old(self).clock_remain,
            instr_rel_rowa(*old(self), *old(mmu), *final(self), *final(mmu), op),
    {
        match op {
            0xA0 => {
                self.op_a0(mmu);
            }
            0xA1 => {
                self.op_a1(mmu);
            }
            0xA2 => {
                self.op_a2(mmu);
            }
            0xA4 => {
                self.op_a4(mmu);
            }
            0xA5 => {
                self.op_a5(mmu);
            }
            0xA6 => {
                self.op_a6(mmu);
            }
            0xA8 => {
                self.op_a8(mmu);
            }
            0xA9 => {
                self.op_a9(mmu);
            }
            0xAA => {
                self.op_aa(mmu);
            }
            0xAC => {
                self.op_ac(mmu);
            }
            0xAD => {
                self.op_ad(mmu);
            }
            0xAE => {
                self.op_ae(mmu);
            }
            _ => {
                // Undocumented opcodes run as NOP in the hardened build.
            }
        }
    }

    /// Opcodes 0xB0 through 0xBF.
    fn execute_rowb(&mut self, op: u8, mmu: &mut MMU)
        requires
            old(self).wf(),
            old(mmu).wf(),
            0xB0 <= op <= 0xBF,
        ensures
            final(self).wf(),
            final(mmu).wf(),
            final(mmu).prom == old(mmu).prom,
            final(mmu).crom == old(mmu).crom,
            final(mmu).mapper == old(mmu).mapper,
            final(self).clock_remain == old(self).clock_remain,
            instr_rel_rowb(*old(self), *old(mmu), *final(self), *final(mmu), op),
    {
        match op {
            0xB0 => {
                self.op_b0(mmu);
            }
            0xB1 => {
                self.op_b1(mmu);
            }
            0xB4 => {
                self.op_b4(mmu);
            }
            0xB5 => {
                self.op_b5(mmu);
            }
            0xB6 => {
                self.op_b6(mmu);
            }
            0xB8 => {
                self.op_b8(mmu);
            }
            0xB9 => {
                self.op_b9(mmu);
            }
            0xBA => {
                self.op_ba(mmu);
            }
            0xBC => {
                self.op_bc(mmu);
            }
            0xBD => {
                self.op_bd(mmu);
            }
            0xBE => {
                self.op_be(mmu);
            }
            _ => {
                // Undocumented opcodes run as NOP in the hardened build.
            }
        }
    }

    /// Opcodes 0xC0 through 0xCF.
    fn execute_rowc(&mut self, op: u8, mmu: &mut MMU)
        requires
            old(self).wf(),
            old(mmu).wf(),
            0xC0 <= op <= 0xCF,
        ensures
            final(self).wf(),
            final(mmu).wf(),
            final(mmu).prom == old(mmu).prom,
            final(mmu).crom == old(mmu).crom,
            final(mmu).mapper == old(mmu).mapper,
            final(self).clock_remain == old(self).clock_remain,
            instr_rel_rowc(*old(self), *old(mmu), *final(self), *final(mmu), op),
    {
        match op {
            0xC0 => {
                self.op_c0(mmu);
            }
            0xC1 => {
                self.op_c1(mmu);
            }
            0xC4 => {
                self.op_c4(mmu);
            }
            0xC5 => {
                self.op_c5(mmu);
            }
            0xC6 => {
                self.op_c6(mmu);
            }
            0xC8 => {
                self.op_c8(mmu);
            }
            0xC9 => {
                self.op_c9(mmu);
            }
            0xCA => {
                self.op_ca(mmu);
            }
            0xCC => {
                self.op_cc(mmu);
            }
            0xCD => {
                self.op_cd(mmu);
            }
            0xCE => {
                self.op_ce(mmu);
            }
            _ => {
                // Undocumented opcodes run as NOP in the hardened build.
            }
        }
    }

    /// Opcodes 0xD0 through 0xDF.
    fn execute_rowd(&mut self, op: u8, mmu: &mut MMU)
        requires
            old(self).wf(),
            old(mmu).wf(),
            0xD0 <= op <= 0xDF,
        ensures
            final(self).wf(),
            final(mmu).wf(),
            final(mmu).prom == old(mmu).prom,
            final(mmu).crom == old(mmu).crom,
            final(mmu).mapper == old(mmu).mapper,
            final(self).clock_remain == old(self).clock_remain,
            instr_rel_rowd(*old(self), *old(mmu), *final(self), *final(mmu), op),
    {
        match op {
            0xD0 => {
                self.op_d0(mmu);
            }
            0xD1 => {
                self.op_d1(mmu);
            }
            0xD5 => {
                self.op_d5(mmu);
            }
            0xD6 => {
                self.op_d6(mmu);
            }
            0xD8 => {
                self.op_d8(mmu);
            }
            0xD9 => {
                self.op_d9(mmu);
            }
            0xDD => {
                self.op_dd(mmu);
            }
            0xDE => {
                self.op_de(mmu);
            }
            _ => {
                // Undocumented opcodes run as NOP in the hardened build.
            }
        }
    }

    /// Opcodes 0xE0 through 0xEF.
    fn execute_rowe(&mut self, op: u8, mmu: &mut MMU)
        requires
            old(self).wf(),
            old(mmu).wf(),
            0xE0 <= op <= 0xEF,
        ensures
            final(self).wf(),
            final(mmu).wf(),
            final(mmu).prom == old(mmu).prom,
            final(mmu).crom == old(mmu).crom,
            final(mmu).mapper == old(mmu).mapper,
            final(self).clock_remain == old(self).clock_remain,
            instr_rel_rowe(*old(self), *old(mmu), *final(self), *final(mmu), op),
    {
        match op {
            0xE0 => {
                self.op_e0(mmu);
            }
            0xE1 => {
                self.op_e1(mmu);
            }
            0xE4 => {
                self.op_e4(mmu);
            }
            0xE5 => {
                self.op_e5(mmu);
            }
            0xE6 => {
                self.op_e6(mmu);
            }
            0xE8 => {
                self.op_e8(mmu);
            }
            0xE9 => {
                self.op_e9(mmu);
            }
            0xEA => {
                self.op_ea(mmu);
            }
            0xEC => {
                self.op_ec(mmu);
            }
            0xED => {
                self.op_ed(mmu);
            }
            0xEE => {
                self.op_ee(mmu);
            }
            _ => {
                // Undocumented opcodes run as NOP in the hardened build.
            }
        }
    }

    /// Opcodes 0xF0 through 0xFF.
    fn execute_rowf(&mut self, op: u8, mmu: &mut MMU)
        requires
            old(self).wf(),
            old(mmu).wf(),
            0xF0 <= op <= 0xFF,
        ensures
            final(self).wf(),
            final(mmu).wf(),
            final(mmu).prom == old(mmu).prom,
            final(mmu).crom == old(mmu).crom,
            final(mmu).mapper == old(mmu).mapper,
            final(self).clock_remain == old(self).clock_remain,
            instr_rel_rowf(*old(self), *old(mmu), *final(self), *final(mmu), op),
    {
        match op {
            0xF0 => {
                self.op_f0(mmu);
            }
            0xF1 => {
                self.op_f1(mmu);
            }
            0xF5 => {
                self.op_f5(mmu);
            }
            0xF6 => {
                self.op_f6(mmu);
            }
            0xF8 => {
                self.op_f8(mmu);
            }
            0xF9 => {
                self.op_f9(mmu);
            }
            0xFD => {
                self.op_fd(mmu);
            }
            0xFE => {
                self.op_fe(mmu);
            }
            _ => {
                // Undocumented opcodes run as NOP in the hardened build.
            }
        }
    }

    /// 0x00: BRK.
    #[verifier::rlimit(100)]
    fn op_00(&mut self, mmu: &mut MMU)
        requires
            old(self).wf(),
            old(mmu).wf(),
        ensures
            final(self).wf(),
            final(mmu).wf(),
            final(mmu).prom == old(mmu).prom,
            final(mmu).crom == old(mmu).crom,
            final(mmu).mapper == old(mmu).mapper,
            final(self).clock_remain == old(self).clock_remain,
            instr_rel_row0(*old(self), *old(mmu), *final(self), *final(mmu), 0x00),
    {
        self.pc = self.pc.wrapping_add(1);
        let sp16 = 0x0100 + self.sp as u16;
        let ret = self.pc;
        mmu.push_2bytes(sp16, ret);
        self.sp = self.sp.wrapping_sub(2);
        let pv = self.p | 0x10;
        self.push8(mmu, pv);
        self.set_i(true);
        self.pc = mmu.read_2bytes(0xFFFE);
    }

    /// 0x01: ORA (indirect,X).
    #[verifier::rlimit(100)]
    fn op_01(&mut self, mmu: &mut MMU)
        requires
            old(self).wf(),
            old(mmu).wf(),
        ensures
            final(self).wf(),
            final(mmu).wf(),
            final(mmu).prom == old(mmu).prom,
            final(mmu).crom == old(mmu).crom,
            final(mmu).mapper == old(mmu).mapper,
            final(self).clock_remain == old(self).clock_remain,
            instr_rel_row0(*old(self), *old(mmu), *final(self), *final(mmu), 0x01),
    {
        let i = self.x;
        let ea = self.ea_ind_x(mmu, i);
        let m = mmu.read_1byte(ea);
        let r = self.a | m;
        self.a = r;
        self.update_nz(r);
    }

    /// 0x05: ORA zero page.
    #[verifier::rlimit(100)]
    fn op_05(&mut self, mmu: &mut MMU)
        requires
            old(self).wf(),
            old(mmu).wf(),
        ensures
            final(self).wf(),
            final(mmu).wf(),
            final(mmu).prom == old(mmu).prom,
            final(mmu).crom == old(mmu).crom,
            final(mmu).mapper == old(mmu).mapper,
            final(self).clock_remain == old(self).clock_remain,
            instr_rel_row0(*old(self), *old(mmu), *final(self), *final(mmu), 0x05),
    {
        let ea = self.ea_zp(mmu);
        let m = mmu.read_1byte(ea);
        let r = self.a | m;
        self.a = r;
        self.update_nz(r);
    }

    /// 0x06: ASL zero page.
    #[verifier::rlimit(100)]
    fn op_06(&mut self, mmu: &mut MMU)
        requires
            old(self).wf(),
            old(mmu).wf(),
        ensures
            final(self).wf(),
            final(mmu).wf(),
            final(mmu).prom == old(mmu).prom,
            final(mmu).crom == old(mmu).crom,
            final(mmu).mapper == old(mmu).mapper,
            final(self).clock_remain == old(self).clock_remain,
            instr_rel_row0(*old(self), *old(mmu), *final(self), *final(mmu), 0x06),
    {
        let ea = self.ea_zp(mmu);
        let m = mmu.read_1byte(ea);
        let r = self.asl_val(m);
        mmu.write(ea, r);
    }

    /// 0x08: PHP.
    #[verifier::rlimit(100)]
    fn op_08(&mut self, mmu: &mut MMU)
        requires
            old(self).wf(),
            old(mmu).wf(),
        ensures
            final(self).wf(),
            final(mmu).wf(),
            final(mmu).prom == old(mmu).prom,
            final(mmu).crom == old(mmu).crom,
            final(mmu).mapper == old(mmu).mapper,
            final(self).clock_remain == old(self).clock_remain,
            instr_rel_row0(*old(self), *old(mmu), *final(self), *final(mmu), 0x08),
    {
        let pv = self.p | 0x10;
        self.push8(mmu, pv);
    }

    /// 0x09: ORA immediate.
    #[verifier::rlimit(100)]
    fn op_09(&mut self, mmu: &mut MMU)
        requires
            old(self).wf(),
            old(mmu).wf(),
        ensures
            final(self).wf(),
            final(mmu).wf(),
            final(mmu).prom == old(mmu).prom,
            final(mmu).crom == old(mmu).crom,
            final(mmu).mapper == old(mmu).mapper,
            final(self).clock_remain == old(self).clock_remain,
            instr_rel_row0(*old(self), *old(mmu), *final(self), *final(mmu), 0x09),
    {
        let ea = self.ea_imm();
        let m = mmu.read_1byte(ea);
        let r = self.a | m;
        self.a = r;
        self.update_nz(r);
    }

    /// 0x0A: ASL accumulator.
    #[verifier::rlimit(100)]
    fn op_0a(&mut self, mmu: &mut MMU)
        requires
            old(self).wf(),
            old(mmu).wf(),
        ensures
            final(self).wf(),
            final(mmu).wf(),
            final(mmu).prom == old(mmu).prom,
            final(mmu).crom == old(mmu).crom,
            final(mmu).mapper == old(mmu).mapper,
            final(self).clock_remain == old(self).clock_remain,
            instr_rel_row0(*old(self), *old(mmu), *final(self), *final(mmu), 0x0A),
    {
        let m = self.a;
        let r = self.asl_val(m);
        self.a = r;
    }

    /// 0x0D: ORA absolute.
    #[verifier::rlimit(100)]
    fn op_0d(&mut self, mmu: &mut MMU)
        requires
            old(self).wf(),
            old(mmu).wf(),
        ensures
            final(self).wf(),
            final(mmu).wf(),
            final(mmu).prom == old(mmu).prom,
            final(mmu).crom == old(mmu).crom,
            final(mmu).mapper == old(mmu).mapper,
            final(self).clock_remain == old(self).clock_remain,
            instr_rel_row0(*old(self), *old(mmu), *final(self), *final(mmu), 0x0D),
    {
        let ea = self.ea_abs(mmu);
        let m = mmu.read_1byte(ea);
        let r = self.a | m;
        self.a = r;
        self.update_nz(r);
    }

    /// 0x0E: ASL absolute.
    #[verifier::rlimit(100)]
    fn op_0e(&mut self, mmu: &mut MMU)
        requires
            old(self).wf(),
            old(mmu).wf(),
        ensures
            final(self).wf(),
            final(mmu).wf(),
            final(mmu).prom == old(mmu).prom,
            final(mmu).crom == old(mmu).crom,
            final(mmu).mapper == old(mmu).mapper,
            final(self).clock_remain == old(self).clock_remain,
            instr_rel_row0(*old(self), *old(mmu), *final(self), *final(mmu), 0x0E),
    {
        let ea = self.ea_abs(mmu);
        let m = mmu.read_1byte(ea);
        let r = self.asl_val(m);
        mmu.write(ea, r);
    }

    /// 0x10: BPL relative.
    #[verifier::rlimit(100)]
    fn op_10(&mut self, mmu: &mut MMU)
        requires
            old(self).wf(),
            old(mmu).wf(),
        ensures
            final(self).wf(),
            final(mmu).wf(),
            final(mmu).prom == old(mmu).prom,
            final(mmu).crom == old(mmu).crom,
            final(mmu).mapper == old(mmu).mapper,
            final(self).clock_remain == old(self).clock_remain,
            instr_rel_row1(*old(self), *old(mmu), *final(self), *final(mmu), 0x10),
    {
        let ea = self.ea_rel(mmu);
        if self.p & 0x80 == 0 {
            self.pc = ea;
        }
    }

    /// 0x11: ORA (indirect),Y.
    #[verifier::rlimit(100)]
    fn op_11(&mut self, mmu: &mut MMU)
        requires
            old(self).wf(),
            old(mmu).wf(),
        ensures
            final(self).wf(),
            final(mmu).wf(),
            final(mmu).prom == old(mmu).prom,
            final(mmu).crom == old(mmu).crom,
            final(mmu).mapper == old(mmu).mapper,
            final(self).clock_remain == old(self).clock_remain,
            instr_rel_row1(*old(self), *old(mmu), *final(self), *final(mmu), 0x11),
    {
        let i = self.y;
        let ea = self.ea_ind_y(mmu, i);
        let m = mmu.read_1byte(ea);
        let r = self.a | m;
        self.a = r;
        self.update_nz(r);
    }

    /// 0x15: ORA zero page,X.
    #[verifier::rlimit(100)]
    fn op_15(&mut self, mmu: &mut MMU)
        requires
            old(self).wf(),
            old(mmu).wf(),
        ensures
            final(self).wf(),
            final(mmu).wf(),
            final(mmu).prom == old(mmu).prom,
            final(mmu).crom == old(mmu).crom,
            final(mmu).mapper == old(mmu).mapper,
            final(self).clock_remain == old(self).clock_remain,
            instr_rel_row1(*old(self), *old(mmu), *final(self), *final(mmu), 0x15),
    {
        let i = self.x;
        let ea = self.ea_zp_idx(mmu, i);
        let m = mmu.read_1byte(ea);
        let r = self.a | m;
        self.a = r;
        self.update_nz(r);
    }

    /// 0x16: ASL zero page,X.
    #[verifier::rlimit(100)]
    fn op_16(&mut self, mmu: &mut MMU)
        requires
            old(self).wf(),
            old(mmu).wf(),
        ensures
            final(self).wf(),
            final(mmu).wf(),
            final(mmu).prom == old(mmu).prom,
            final(mmu).crom == old(mmu).crom,
            final(mmu).mapper == old(mmu).mapper,
            final(self).clock_remain == old(self).clock_remain,
            instr_rel_row1(*old(self), *old(mmu), *final(self), *final(mmu), 0x16),
    {
        let i = self.x;
        let ea = self.ea_zp_idx(mmu, i);
        let m = mmu.read_1byte(ea);
        let r = self.asl_val(m);
        mmu.write(ea, r);
    }

    /// 0x18: CLC.
    #[verifier::rlimit(100)]
    fn op_18(&mut self, mmu: &mut MMU)
        requires
            old(self).wf(),
            old(mmu).wf(),
        ensures
            final(self).wf(),
            final(mmu).wf(),
            final(mmu).prom == old(mmu).prom,
            final(mmu).crom == old(mmu).crom,
            final(mmu).mapper == old(mmu).mapper,
            final(self).clock_remain == old(self).clock_remain,
            instr_rel_row1(*old(self), *old(mmu), *final(self), *final(mmu), 0x18),
    {
        self.set_c(false);
    }

    /// 0x19: ORA absolute,Y.
    #[verifier::rlimit(100)]
    fn op_19(&mut self, mmu: &mut MMU)
        requires
            old(self).wf(),
            old(mmu).wf(),
        ensures
            final(self).wf(),
            final(mmu).wf(),
            final(mmu).prom == old(mmu).prom,
            final(mmu).crom == old(mmu).crom,
            final(mmu).mapper == old(mmu).mapper,
            final(self).clock_remain == old(self).clock_remain,
            instr_rel_row1(*old(self), *old(mmu), *final(self), *final(mmu), 0x19),
    {
        let i = self.y;
        let ea = self.ea_abs_idx(mmu, i);
        let m = mmu.read_1byte(ea);
        let r = self.a | m;
        self.a = r;
        self.update_nz(r);
    }

    /// 0x1D: ORA absolute,X.
    #[verifier::rlimit(100)]
    fn op_1d(&mut self, mmu: &mut MMU)
        requires
            old(self).wf(),
            old(mmu).wf(),
        ensures
            final(self).wf(),
            final(mmu).wf(),
            final(mmu).prom == old(mmu).prom,
            final(mmu).crom == old(mmu).crom,
            final(mmu).mapper == old(mmu).mapper,
            final(self).clock_remain == old(self).clock_remain,
            instr_rel_row1(*old(self), *old(mmu), *final(self), *final(mmu), 0x1D),
    {
        let i = self.x;
        let ea = self.ea_abs_idx(mmu, i);
        let m = mmu.read_1byte(ea);
        let r = self.a | m;
        self.a = r;
        self.update_nz(r);
    }

    /// 0x1E: ASL absolute,X.
    #[verifier::rlimit(100)]
    fn op_1e(&mut self, mmu: &mut MMU)
        requires
            old(self).wf(),
            old(mmu).wf(),
        ensures
            final(self).wf(),
            final(mmu).wf(),
            final(mmu).prom == old(mmu).prom,
            final(mmu).crom == old(mmu).crom,
            final(mmu).mapper == old(mmu).mapper,
            final(self).clock_remain == old(self).clock_remain,
            instr_rel_row1(*old(self), *old(mmu), *final(self), *final(mmu), 0x1E),
    {
        let i = self.x;
        let ea = self.ea_abs_idx(mmu, i);
        let m = mmu.read_1byte(ea);
        let r = self.asl_val(m);
        mmu.write(ea, r);
    }

    /// 0x20: JSR absolute.
    #[verifier::rlimit(100)]
    fn op_20(&mut self, mmu: &mut MMU)
        requires
            old(self).wf(),
            old(mmu).wf(),
        ensures
            final(self).wf(),
            final(mmu).wf(),
            final(mmu).prom == old(mmu).prom,
            final(mmu).crom == old(mmu).crom,
            final(mmu).mapper == old(mmu).mapper,
            final(self).clock_remain == old(self).clock_remain,
            instr_rel_row2(*old(self), *old(mmu), *final(self), *final(mmu), 0x20),
    {
        let ea = self.ea_abs(mmu);
        let sp16 = 0x0100 + self.sp as u16;
        let ret = self.pc.wrapping_sub(1);
        mmu.push_2bytes(sp16, ret);
        self.sp = self.sp.wrapping_sub(2);
        self.pc = ea;
    }

    /// 0x21: AND (indirect,X).
    #[verifier::rlimit(100)]
    fn op_21(&mut self, mmu: &mut MMU)
        requires
            old(self).wf(),
            old(mmu).wf(),
        ensures
            final(self).wf(),
            final(mmu).wf(),
            final(mmu).prom == old(mmu).prom,
            final(mmu).crom == old(mmu).crom,
            final(mmu).mapper == old(mmu).mapper,
            final(self).clock_remain == old(self).clock_remain,
            instr_rel_row2(*old(self), *old(mmu), *final(self), *final(mmu), 0x21),
    {
        let i = self.x;
        let ea = self.ea_ind_x(mmu, i);
        let m = mmu.read_1byte(ea);
        let r = self.a & m;
        self.a = r;
        self.update_nz(r);
    }

    /// 0x24: BIT zero page.
    #[verifier::rlimit(100)]
    fn op_24(&mut self, mmu: &mut MMU)
        requires
            old(self).wf(),
            old(mmu).wf(),
        ensures
            final(self).wf(),
            final(mmu).wf(),
            final(mmu).prom == old(mmu).prom,
            final(mmu).crom == old(mmu).crom,
            final(mmu).mapper == old(mmu).mapper,
            final(self).clock_remain == old(self).clock_remain,
            instr_rel_row2(*old(self), *old(mmu), *final(self), *final(mmu), 0x24),
    {
        let ea = self.ea_zp(mmu);
        let m = mmu.read_1byte(ea);
        self.bit_test(m);
    }

    /// 0x25: AND zero page.
    #[verifier::rlimit(100)]
    fn op_25(&mut self, mmu: &mut MMU)
        requires
            old(self).wf(),
            old(mmu).wf(),
        ensures
            final(self).wf(),
            final(mmu).wf(),
            final(mmu).prom == old(mmu).prom,
            final(mmu).crom == old(mmu).crom,
            final(mmu).mapper == old(mmu).mapper,
            final(self).clock_remain == old(self).clock_remain,
            instr_rel_row2(*old(self), *old(mmu), *final(self), *final(mmu), 0x25),
    {
        let ea = self.ea_zp(mmu);
        let m = mmu.read_1byte(ea);
        let r = self.a & m;
        self.a = r;
        self.update_nz(r);
    }

    /// 0x26: ROL zero page.
    #[verifier::rlimit(100)]
    fn op_26(&mut self, mmu: &mut MMU)
        requires
            old(self).wf(),
            old(mmu).wf(),
        ensures
            final(self).wf(),
            final(mmu).wf(),
            final(mmu).prom == old(mmu).prom,
            final(mmu).crom == old(mmu).crom,
            final(mmu).mapper == old(mmu).mapper,
            final(self).clock_remain == old(self).clock_remain,
            instr_rel_row2(*old(self), *old(mmu), *final(self), *final(mmu), 0x26),
    {
        let ea = self.ea_zp(mmu);
        let m = mmu.read_1byte(ea);
        let r = self.rol_val(m);
        mmu.write(ea, r);
    }

    /// 0x28: PLP.
    #[verifier::rlimit(100)]
    fn op_28(&mut self, mmu: &mut MMU)
        requires
            old(self).wf(),
            old(mmu).wf(),
        ensures
            final(self).wf(),
            final(mmu).wf(),
            final(mmu).prom == old(mmu).prom,
            final(mmu).crom == old(mmu).crom,
            final(mmu).mapper == old(mmu).mapper,
            final(self).clock_remain == old(self).clock_remain,
            instr_rel_row2(*old(self), *old(mmu), *final(self), *final(mmu), 0x28),
    {
        let pv = self.pop8(mmu);
        self.plp_byte(pv);
    }

    /// 0x29: AND immediate.
    #[verifier::rlimit(100)]
    fn op_29(&mut self, mmu: &mut MMU)
        requires
            old(self).wf(),
            old(mmu).wf(),
        ensures
            final(self).wf(),
            final(mmu).wf(),
            final(mmu).prom == old(mmu).prom,
            final(mmu).crom == old(mmu).crom,
            final(mmu).mapper == old(mmu).mapper,
            final(self).clock_remain == old(self).clock_remain,
            instr_rel_row2(*old(self), *old(mmu), *final(self), *final(mmu), 0x29),
    {
        let ea = self.ea_imm();
        let m = mmu.read_1byte(ea);
        let r = self.a & m;
        self.a = r;
        self.update_nz(r);
    }

    /// 0x2A: ROL accumulator.
    #[verifier::rlimit(100)]
    fn op_2a(&mut self, mmu: &mut MMU)
        requires
            old(self).wf(),
            old(mmu).wf(),
        ensures
            final(self).wf(),
            final(mmu).wf(),
            final(mmu).prom == old(mmu).prom,
            final(mmu).crom == old(mmu).crom,
            final(mmu).mapper == old(mmu).mapper,
            final(self).clock_remain == old(self).clock_remain,
            instr_rel_row2(*old(self), *old(mmu), *final(self), *final(mmu), 0x2A),
    {
        let m = self.a;
        let r = self.rol_val(m);
        self.a = r;
    }

    /// 0x2C: BIT absolute.
    #[verifier::rlimit(100)]
    fn op_2c(&mut self, mmu: &mut MMU)
        requires
            old(self).wf(),
            old(mmu).wf(),
        ensures
            final(self).wf(),
            final(mmu).wf(),
            final(mmu).prom == old(mmu).prom,
            final(mmu).crom == old(mmu).crom,
            final(mmu).mapper == old(mmu).mapper,
            final(self).clock_remain == old(self).clock_remain,
            instr_rel_row2(*old(self), *old(mmu), *final(self), *final(mmu), 0x2C),
    {
        let ea = self.ea_abs(mmu);
        let m = mmu.read_1byte(ea);
        self.bit_test(m);
    }

    /// 0x2D: AND absolute.
    #[verifier::rlimit(100)]
    fn op_2d(&mut self, mmu: &mut MMU)
        requires
            old(self).wf(),
            old(mmu).wf(),
        ensures
            final(self).wf(),
            final(mmu).wf(),
            final(mmu).prom == old(mmu).prom,
            final(mmu).crom == old(mmu).crom,
            final(mmu).mapper == old(mmu).mapper,
            final(self).clock_remain == old(self).clock_remain,
            instr_rel_row2(*old(self), *old(mmu), *final(self), *final(mmu), 0x2D),
    {
        let ea = self.ea_abs(mmu);
        let m = mmu.read_1byte(ea);
        let r = self.a & m;
        self.a = r;
        self.update_nz(r);
    }

    /// 0x2E: ROL absolute.
    #[verifier::rlimit(100)]
    fn op_2e(&mut self, mmu: &mut MMU)
        requires
            old(self).wf(),
            old(mmu).wf(),
        ensures
            final(self).wf(),
            final(mmu).wf(),
            final(mmu).prom == old(mmu).prom,
            final(mmu).crom == old(mmu).crom,
            final(mmu).mapper == old(mmu).mapper,
            final(self).clock_remain == old(self).clock_remain,
            instr_rel_row2(*old(self), *old(mmu), *final(self), *final(mmu), 0x2E),
    {
        let ea = self.ea_abs(mmu);
        let m = mmu.read_1byte(ea);
        let r = self.rol_val(m);
        mmu.write(ea, r);
    }

    /// 0x30: BMI relative.
    #[verifier::rlimit(100)]
    fn op_30(&mut self, mmu: &mut MMU)
        requires
            old(self).wf(),
            old(mmu).wf(),
        ensures
            final(self).wf(),
            final(mmu).wf(),
            final(mmu).prom == old(mmu).prom,
            final(mmu).crom == old(mmu).crom,
            final(mmu).mapper == old(mmu).mapper,
            final(self).clock_remain == old(self).clock_remain,
            instr_rel_row3(*old(self), *old(mmu), *final(self), *final(mmu), 0x30),
    {
        let ea = self.ea_rel(mmu);
        if self.p & 0x80 != 0 {
            self.pc = ea;
        }
    }

    /// 0x31: AND (indirect),Y.
    #[verifier::rlimit(100)]
    fn op_31(&mut self, mmu: &mut MMU)
        requires
            old(self).wf(),
            old(mmu).wf(),
        ensures
            final(self).wf(),
            final(mmu).wf(),
            final(mmu).prom == old(mmu).prom,
            final(mmu).crom == old(mmu).crom,
            final(mmu).mapper == old(mmu).mapper,
            final(self).clock_remain == old(self).clock_remain,
            instr_rel_row3(*old(self), *old(mmu), *final(self), *final(mmu), 0x31),
    {
        let i = self.y;
        let ea = self.ea_ind_y(mmu, i);
        let m = mmu.read_1byte(ea);
        let r = self.a & m;
        self.a = r;
        self.update_nz(r);
    }

    /// 0x35: AND zero page,X.
    #[verifier::rlimit(100)]
    fn op_35(&mut self, mmu: &mut MMU)
        requires
            old(self).wf(),
            old(mmu).wf(),
        ensures
            final(self).wf(),
            final(mmu).wf(),
            final(mmu).prom == old(mmu).prom,
            final(mmu).crom == old(mmu).crom,
            final(mmu).mapper == old(mmu).mapper,
            final(self).clock_remain == old(self).clock_remain,
            instr_rel_row3(*old(self), *old(mmu), *final(self), *final(mmu), 0x35),
    {
        let i = self.x;
        let ea = self.ea_zp_idx(mmu, i);
        let m = mmu.read_1byte(ea);
        let r = self.a & m;
        self.a = r;
        self.update_nz(r);
    }

    /// 0x36: ROL zero page,X.
    #[verifier::rlimit(100)]
    fn op_36(&mut self, mmu: &mut MMU)
        requires
            old(self).wf(),
            old(mmu).wf(),
        ensures
            final(self).wf(),
            final(mmu).wf(),
            final(mmu).prom == old(mmu).prom,
            final(mmu).crom == old(mmu).crom,
            final(mmu).mapper == old(mmu).mapper,
            final(self).clock_remain == old(self).clock_remain,
            instr_rel_row3(*old(self), *old(mmu), *final(self), *final(mmu), 0x36),
    {
        let i = self.x;
        let ea = self.ea_zp_idx(mmu, i);
        let m = mmu.read_1byte(ea);
        let r = self.rol_val(m);
        mmu.write(ea, r);
    }

    /// 0x38: SEC.
    #[verifier::rlimit(100)]
    fn op_38(&mut self, mmu: &mut MMU)
        requires
            old(self).wf(),
            old(mmu).wf(),
        ensures
            final(self).wf(),
            final(mmu).wf(),
            final(mmu).prom == old(mmu).prom,
            final(mmu).crom == old(mmu).crom,
            final(mmu).mapper == old(mmu).mapper,
            final(self).clock_remain == old(self).clock_remain,
            instr_rel_row3(*old(self), *old(mmu), *final(self), *final(mmu), 0x38),
    {
        self.set_c(true);
    }

    /// 0x39: AND absolute,Y.
    #[verifier::rlimit(100)]
    fn op_39(&mut self, mmu: &mut MMU)
        requires
            old(self).wf(),
            old(mmu).wf(),
        ensures
            final(self).wf(),
            final(mmu).wf(),
            final(mmu).prom == old(mmu).prom,
            final(mmu).crom == old(mmu).crom,
            final(mmu).mapper == old(mmu).mapper,
            final(self).clock_remain == old(self).clock_remain,
            instr_rel_row3(*old(self), *old(mmu), *final(self), *final(mmu), 0x39),
    {
        let i = self.y;
        let ea = self.ea_abs_idx(mmu, i);
        let m = mmu.read_1byte(ea);
        let r = self.a & m;
        self.a = r;
        self.update_nz(r);
    }

    /// 0x3D: AND absolute,X.
    #[verifier::rlimit(100)]
    fn op_3d(&mut self, mmu: &mut MMU)
        requires
            old(self).wf(),
            old(mmu).wf(),
        ensures
            final(self).wf(),
            final(mmu).wf(),
            final(mmu).prom == old(mmu).prom,
            final(mmu).crom == old(mmu).crom,
            final(mmu).mapper == old(mmu).mapper,
            final(self).clock_remain == old(self).clock_remain,
            instr_rel_row3(*old(self), *old(mmu), *final(self), *final(mmu), 0x3D),
    {
        let i = self.x;
        let ea = self.ea_abs_idx(mmu, i);
        let m = mmu.read_1byte(ea);
        let r = self.a & m;
        self.a = r;
        self.update_nz(r);
    }

    /// 0x3E: ROL absolute,X.
    #[verifier::rlimit(100)]
    fn op_3e(&mut self, mmu: &mut MMU)
        requires
            old(self).wf(),
            old(mmu).wf(),
        ensures
            final(self).wf(),
            final(mmu).wf(),
            final(mmu).prom == old(mmu).prom,
            final(mmu).crom == old(mmu).crom,
            final(mmu).mapper == old(mmu).mapper,
            final(self).clock_remain == old(self).clock_remain,
            instr_rel_row3(*old(self), *old(mmu), *final(self), *final(mmu), 0x3E),
    {
        let i = self.x;
        let ea = self.ea_abs_idx(mmu, i);
        let m = mmu.read_1byte(ea);
        let r = self.rol_val(m);
        mmu.write(ea, r);
    }

    /// 0x40: RTI.
    #[verifier::rlimit(100)]
    fn op_40(&mut self, mmu: &mut MMU)
        requires
            old(self).wf(),
            old(mmu).wf(),
        ensures
            final(self).wf(),
            final(mmu).wf(),
            final(mmu).prom == old(mmu).prom,
            final(mmu).crom == old(mmu).crom,
            final(mmu).mapper == old(mmu).mapper,
            final(self).clock_remain == old(self).clock_remain,
            instr_rel_row4(*old(self), *old(mmu), *final(self), *final(mmu), 0x40),
    {
        self.sp = self.sp.wrapping_add(1);
        let pv = mmu.read_1byte(0x0100 + self.sp as u16);
        self.plp_byte(pv);
        let v = mmu.pop_2bytes(0x0100 + self.sp as u16);
        self.pc = v;
        self.sp = self.sp.wrapping_add(2);
    }

    /// 0x41: EOR (indirect,X).
    #[verifier::rlimit(100)]
    fn op_41(&mut self, mmu: &mut MMU)
        requires
            old(self).wf(),
            old(mmu).wf(),
        ensures
            final(self).wf(),
            final(mmu).wf(),
            final(mmu).prom == old(mmu).prom,
            final(mmu).crom == old(mmu).crom,
            final(mmu).mapper == old(mmu).mapper,
            final(self).clock_remain == old(self).clock_remain,
            instr_rel_row4(*old(self), *old(mmu), *final(self), *final(mmu), 0x41),
    {
        let i = self.x;
        let ea = self.ea_ind_x(mmu, i);
        let m = mmu.read_1byte(ea);
        let r = self.a ^ m;
        self.a = r;
        self.update_nz(r);
    }

    /// 0x45: EOR zero page.
    #[verifier::rlimit(100)]
    fn op_45(&mut self, mmu: &mut MMU)
        requires
            old(self).wf(),
            old(mmu).wf(),
        ensures
            final(self).wf(),
            final(mmu).wf(),
            final(mmu).prom == old(mmu).prom,
            final(mmu).crom == old(mmu).crom,
            final(mmu).mapper == old(mmu).mapper,
            final(self).clock_remain == old(self).clock_remain,
            instr_rel_row4(*old(self), *old(mmu), *final(self), *final(mmu), 0x45),
    {
        let ea = self.ea_zp(mmu);
        let m = mmu.read_1byte(ea);
        let r = self.a ^ m;
        self.a = r;
        self.update_nz(r);
    }

    /// 0x46: LSR zero page.
    #[verifier::rlimit(100)]
    fn op_46(&mut self, mmu: &mut MMU)
        requires
            old(self).wf(),
            old(mmu).wf(),
        ensures
            final(self).wf(),
            final(mmu).wf(),
            final(mmu).prom == old(mmu).prom,
            final(mmu).crom == old(mmu).crom,
            final(mmu).mapper == old(mmu).mapper,
            final(self).clock_remain == old(self).clock_remain,
            instr_rel_row4(*old(self), *old(mmu), *final(self), *final(mmu), 0x46),
    {
        let ea = self.ea_zp(mmu);
        let m = mmu.read_1byte(ea);
        let r = self.lsr_val(m);
        mmu.write(ea, r);
    }

    /// 0x48: PHA.
    #[verifier::rlimit(100)]
    fn op_48(&mut self, mmu: &mut MMU)
        requires
            old(self).wf(),
            old(mmu).wf(),
        ensures
            final(self).wf(),
            final(mmu).wf(),
            final(mmu).prom == old(mmu).prom,
            final(mmu).crom == old(mmu).crom,
            final(mmu).mapper == old(mmu).mapper,
            final(self).clock_remain == old(self).clock_remain,
            instr_rel_row4(*old(self), *old(mmu), *final(self), *final(mmu), 0x48),
    {
        let r = self.a;
        self.push8(mmu, r);
    }

    /// 0x49: EOR immediate.
    #[verifier::rlimit(100)]
    fn op_49(&mut self, mmu: &mut MMU)
        requires
            old(self).wf(),
            old(mmu).wf(),
        ensures
            final(self).wf(),
            final(mmu).wf(),
            final(mmu).prom == old(mmu).prom,
            final(mmu).crom == old(mmu).crom,
            final(mmu).mapper == old(mmu).mapper,
            final(self).clock_remain == old(self).clock_remain,
            instr_rel_row4(*old(self), *old(mmu), *final(self), *final(mmu), 0x49),
    {
        let ea = self.ea_imm();
        let m = mmu.read_1byte(ea);
        let r = self.a ^ m;
        self.a = r;
        self.update_nz(r);
    }

    /// 0x4A: LSR accumulator.
    #[verifier::rlimit(100)]
    fn op_4a(&mut self, mmu: &mut MMU)
        requires
            old(self).wf(),
            old(mmu).wf(),
        ensures
            final(self).wf(),
            final(mmu).wf(),
            final(mmu).prom == old(mmu).prom,
            final(mmu).crom == old(mmu).crom,
            final(mmu).mapper == old(mmu).mapper,
            final(self).clock_remain == old(self).clock_remain,
            instr_rel_row4(*old(self), *old(mmu), *final(self), *final(mmu), 0x4A),
    {
        let m = self.a;
        let r = self.lsr_val(m);
        self.a = r;
    }

    /// 0x4C: JMP absolute.
    #[verifier::rlimit(100)]
    fn op_4c(&mut self, mmu: &mut MMU)
        requires
            old(self).wf(),
            old(mmu).wf(),
        ensures
            final(self).wf(),
            final(mmu).wf(),
            final(mmu).prom == old(mmu).prom,
            final(mmu).crom == old(mmu).crom,
            final(mmu).mapper == old(mmu).mapper,
            final(self).clock_remain == old(self).clock_remain,
            instr_rel_row4(*old(self), *old(mmu), *final(self), *final(mmu), 0x4C),
    {
        let ea = self.ea_abs(mmu);
        self.pc = ea;
    }

    /// 0x4D: EOR absolute.
    #[verifier::rlimit(100)]
    fn op_4d(&mut self, mmu: &mut MMU)
        requires
            old(self).wf(),
            old(mmu).wf(),
        ensures
            final(self).wf(),
            final(mmu).wf(),
            final(mmu).prom == old(mmu).prom,
            final(mmu).crom == old(mmu).crom,
            final(mmu).mapper == old(mmu).mapper,
            final(self).clock_remain == old(self).clock_remain,
            instr_rel_row4(*old(self), *old(mmu), *final(self), *final(mmu), 0x4D),
    {
        let ea = self.ea_abs(mmu);
        let m = mmu.read_1byte(ea);
        let r = self.a ^ m;
        self.a = r;
        self.update_nz(r);
    }

    /// 0x4E: LSR absolute.
    #[verifier::rlimit(100)]
    fn op_4e(&mut self, mmu: &mut MMU)
        requires
            old(self).wf(),
            old(mmu).wf(),
        ensures
            final(self).wf(),
            final(mmu).wf(),
            final(mmu).prom == old(mmu).prom,
            final(mmu).crom == old(mmu).crom,
            final(mmu).mapper == old(mmu).mapper,
            final(self).clock_remain == old(self).clock_remain,
            instr_rel_row4(*old(self), *old(mmu), *final(self), *final(mmu), 0x4E),
    {
        let ea = self.ea_abs(mmu);
        let m = mmu.read_1byte(ea);
        let r = self.lsr_val(m);
        mmu.write(ea, r);
    }

    /// 0x50: BVC relative.
    #[verifier::rlimit(100)]
    fn op_50(&mut self, mmu: &mut MMU)
        requires
            old(self).wf(),
            old(mmu).wf(),
        ensures
            final(self).wf(),
            final(mmu).wf(),
            final(mmu).prom == old(mmu).prom,
            final(mmu).crom == old(mmu).crom,
            final(mmu).mapper == old(mmu).mapper,
            final(self).clock_remain == old(self).clock_remain,
            instr_rel_row5(*old(self), *old(mmu), *final(self), *final(mmu), 0x50),
    {
        let ea = self.ea_rel(mmu);
        if self.p & 0x40 == 0 {
            self.pc = ea;
        }
    }

    /// 0x51: EOR (indirect),Y.
    #[verifier::rlimit(100)]
    fn op_51(&mut self, mmu: &mut MMU)
        requires
            old(self).wf(),
            old(mmu).wf(),
        ensures
            final(self).wf(),
            final(mmu).wf(),
            final(mmu).prom == old(mmu).prom,
            final(mmu).crom == old(mmu).crom,
            final(mmu).mapper == old(mmu).mapper,
            final(self).clock_remain == old(self).clock_remain,
            instr_rel_row5(*old(self), *old(mmu), *final(self), *final(mmu), 0x51),
    {
        let i = self.y;
        let ea = self.ea_ind_y(mmu, i);
        let m = mmu.read_1byte(ea);
        let r = self.a ^ m;
        self.a = r;
        self.update_nz(r);
    }

    /// 0x55: EOR zero page,X.
    #[verifier::rlimit(100)]
    fn op_55(&mut self, mmu: &mut MMU)
        requires
            old(self).wf(),
            old(mmu).wf(),
        ensures
            final(self).wf(),
            final(mmu).wf(),
            final(mmu).prom == old(mmu).prom,
            final(mmu).crom == old(mmu).crom,
            final(mmu).mapper == old(mmu).mapper,
            final(self).clock_remain == old(self).clock_remain,
            instr_rel_row5(*old(self), *old(mmu), *final(self), *final(mmu), 0x55),
    {
        let i = self.x;
        let ea = self.ea_zp_idx(mmu, i);
        let m = mmu.read_1byte(ea);
        let r = self.a ^ m;
        self.a = r;
        self.update_nz(r);
    }

    /// 0x56: LSR zero page,X.
    #[verifier::rlimit(100)]
    fn op_56(&mut self, mmu: &mut MMU)
        requires
            old(self).wf(),
            old(mmu).wf(),
        ensures
            final(self).wf(),
            final(mmu).wf(),
            final(mmu).prom == old(mmu).prom,
            final(mmu).crom == old(mmu).crom,
            final(mmu).mapper == old(mmu).mapper,
            final(self).clock_remain == old(self).clock_remain,
            instr_rel_row5(*old(self), *old(mmu), *final(self), *final(mmu), 0x56),
    {
        let i = self.x;
        let ea = self.ea_zp_idx(mmu, i);
        let m = mmu.read_1byte(ea);
        let r = self.lsr_val(m);
        mmu.write(ea, r);
    }

    /// 0x58: CLI.
    #[verifier::rlimit(100)]
    fn op_58(&mut self, mmu: &mut MMU)
        requires
            old(self).wf(),
            old(mmu).wf(),
        ensures
            final(self).wf(),
            final(mmu).wf(),
            final(mmu).prom == old(mmu).prom,
            final(mmu).crom == old(mmu).crom,
            final(mmu).mapper == old(mmu).mapper,
            final(self).clock_remain == old(self).clock_remain,
            instr_rel_row5(*old(self), *old(mmu), *final(self), *final(mmu), 0x58),
    {
        self.set_i(false);
    }

    /// 0x59: EOR absolute,Y.
    #[verifier::rlimit(100)]
    fn op_59(&mut self, mmu: &mut MMU)
        requires
            old(self).wf(),
            old(mmu).wf(),
        ensures
            final(self).wf(),
            final(mmu).wf(),
            final(mmu).prom == old(mmu).prom,
            final(mmu).crom == old(mmu).crom,
            final(mmu).mapper == old(mmu).mapper,
            final(self).clock_remain == old(self).clock_remain,
            instr_rel_row5(*old(self), *old(mmu), *final(self), *final(mmu), 0x59),
    {
        let i = self.y;
        let ea = self.ea_abs_idx(mmu, i);
        let m = mmu.read_1byte(ea);
        let r = self.a ^ m;
        self.a = r;
        self.update_nz(r);
    }

    /// 0x5D: EOR absolute,X.
    #[verifier::rlimit(100)]
    fn op_5d(&mut self, mmu: &mut MMU)
        requires
            old(self).wf(),
            old(mmu).wf(),
        ensures
            final(self).wf(),
            final(mmu).wf(),
            final(mmu).prom == old(mmu).prom,
            final(mmu).crom == old(mmu).crom,
            final(mmu).mapper == old(mmu).mapper,
            final(self).clock_remain == old(self).clock_remain,
            instr_rel_row5(*old(self), *old(mmu), *final(self), *final(mmu), 0x5D),
    {
        let i = self.x;
        let ea = self.ea_abs_idx(mmu, i);
        let m = mmu.read_1byte(ea);
        let r = self.a ^ m;
        self.a = r;
        self.update_nz(r);
    }

    /// 0x5E: LSR absolute,X.
    #[verifier::rlimit(100)]
    fn op_5e(&mut self, mmu: &mut MMU)
        requires
            old(self).wf(),
            old(mmu).wf(),
        ensures
            final(self).wf(),
            final(mmu).wf(),
            final(mmu).prom == old(mmu).prom,
            final(mmu).crom == old(mmu).crom,
            final(mmu).mapper == old(mmu).mapper,
            final(self).clock_remain == old(self).clock_remain,
            instr_rel_row5(*old(self), *old(mmu), *final(self), *final(mmu), 0x5E),
    {
        let i = self.x;
        let ea = self.ea_abs_idx(mmu, i);
        let m = mmu.read_1byte(ea);
        let r = self.lsr_val(m);
        mmu.write(ea, r);
    }

    /// 0x60: RTS.
    #[verifier::rlimit(100)]
    fn op_60(&mut self, mmu: &mut MMU)
        requires
            old(self).wf(),
            old(mmu).wf(),
        ensures
            final(self).wf(),
            final(mmu).wf(),
            final(mmu).prom == old(mmu).prom,
            final(mmu).crom == old(mmu).crom,
            final(mmu).mapper == old(mmu).mapper,
            final(self).clock_remain == old(self).clock_remain,
            instr_rel_row6(*old(self), *old(mmu), *final(self), *final(mmu), 0x60),
    {
        let v = mmu.pop_2bytes(0x0100 + self.sp as u16);
        self.pc = v.wrapping_add(1);
        self.sp = self.sp.wrapping_add(2);
    }

    /// 0x61: ADC (indirect,X).
    #[verifier::rlimit(100)]
    fn op_61(&mut self, mmu: &mut MMU)
        requires
            old(self).wf(),
            old(mmu).wf(),
        ensures
            final(self).wf(),
            final(mmu).wf(),
            final(mmu).prom == old(mmu).prom,
            final(mmu).crom == old(mmu).crom,
            final(mmu).mapper == old(mmu).mapper,
            final(self).clock_remain == old(self).clock_remain,
            instr_rel_row6(*old(self), *old(mmu), *final(self), *final(mmu), 0x61),
    {
        let i = self.x;
        let ea = self.ea_ind_x(mmu, i);
        let m = mmu.read_1byte(ea);
        self.adc(m);
    }

    /// 0x65: ADC zero page.
    #[verifier::rlimit(100)]
    fn op_65(&mut self, mmu: &mut MMU)
        requires
            old(self).wf(),
            old(mmu).wf(),
        ensures
            final(self).wf(),
            final(mmu).wf(),
            final(mmu).prom == old(mmu).prom,
            final(mmu).crom == old(mmu).crom,
            final(mmu).mapper == old(mmu).mapper,
            final(self).clock_remain == old(self).clock_remain,
            instr_rel_row6(*old(self), *old(mmu), *final(self), *final(mmu), 0x65),
    {
        let ea = self.ea_zp(mmu);
        let m = mmu.read_1byte(ea);
        self.adc(m);
    }

    /// 0x66: ROR zero page.
    #[verifier::rlimit(100)]
    fn op_66(&mut self, mmu: &mut MMU)
        requires
            old(self).wf(),
            old(mmu).wf(),
        ensures
            final(self).wf(),
            final(mmu).wf(),
            final(mmu).prom == old(mmu).prom,
            final(mmu).crom == old(mmu).crom,
            final(mmu).mapper == old(mmu).mapper,
            final(self).clock_remain == old(self).clock_remain,
            instr_rel_row6(*old(self), *old(mmu), *final(self), *final(mmu), 0x66),
    {
        let ea = self.ea_zp(mmu);
        let m = mmu.read_1byte(ea);
        let r = self.ror_val(m);
        mmu.write(ea, r);
    }

    /// 0x68: PLA.
    #[verifier::rlimit(100)]
    fn op_68(&mut self, mmu: &mut MMU)
        requires
            old(self).wf(),
            old(mmu).wf(),
        ensures
            final(self).wf(),
            final(mmu).wf(),
            final(mmu).prom == old(mmu).prom,
            final(mmu).crom == old(mmu).crom,
            final(mmu).mapper == old(mmu).mapper,
            final(self).clock_remain == old(self).clock_remain,
            instr_rel_row6(*old(self), *old(mmu), *final(self), *final(mmu), 0x68),
    {
        let r = self.pop8(mmu);
        self.a = r;
        self.update_nz(r);
    }

    /// 0x69: ADC immediate.
    #[verifier::rlimit(100)]
    fn op_69(&mut self, mmu: &mut MMU)
        requires
            old(self).wf(),
            old(mmu).wf(),
        ensures
            final(self).wf(),
            final(mmu).wf(),
            final(mmu).prom == old(mmu).prom,
            final(mmu).crom == old(mmu).crom,
            final(mmu).mapper == old(mmu).mapper,
            final(self).clock_remain == old(self).clock_remain,
            instr_rel_row6(*old(self), *old(mmu), *final(self), *final(mmu), 0x69),
    {
        let ea = self.ea_imm();
        let m = mmu.read_1byte(ea);
        self.adc(m);
    }

    /// 0x6A: ROR accumulator.
    #[verifier::rlimit(100)]
    fn op_6a(&mut self, mmu: &mut MMU)
        requires
            old(self).wf(),
            old(mmu).wf(),
        ensures
            final(self).wf(),
            final(mmu).wf(),
            final(mmu).prom == old(mmu).prom,
            final(mmu).crom == old(mmu).crom,
            final(mmu).mapper == old(mmu).mapper,
            final(self).clock_remain == old(self).clock_remain,
            instr_rel_row6(*old(self), *old(mmu), *final(self), *final(mmu), 0x6A),
    {
        let m = self.a;
        let r = self.ror_val(m);
        self.a = r;
    }

    /// 0x6C: JMP indirect.
    #[verifier::rlimit(100)]
    fn op_6c(&mut self, mmu: &mut MMU)
        requires
            old(self).wf(),
            old(mmu).wf(),
        ensures
            final(self).wf(),
            final(mmu).wf(),
            final(mmu).prom == old(mmu).prom,
            final(mmu).crom == old(mmu).crom,
            final(mmu).mapper == old(mmu).mapper,
            final(self).clock_remain == old(self).clock_remain,
            instr_rel_row6(*old(self), *old(mmu), *final(self), *final(mmu), 0x6C),
    {
        let ea = self.ea_ind(mmu);
        self.pc = ea;
    }

    /// 0x6D: ADC absolute.
    #[verifier::rlimit(100)]
    fn op_6d(&mut self, mmu: &mut MMU)
        requires
            old(self).wf(),
            old(mmu).wf(),
        ensures
            final(self).wf(),
            final(mmu).wf(),
            final(mmu).prom == old(mmu).prom,
            final(mmu).crom == old(mmu).crom,
            final(mmu).mapper == old(mmu).mapper,
            final(self).clock_remain == old(self).clock_remain,
            instr_rel_row6(*old(self), *old(mmu), *final(self), *final(mmu), 0x6D),
    {
        let ea = self.ea_abs(mmu);
        let m = mmu.read_1byte(ea);
        self.adc(m);
    }

    /// 0x6E: ROR absolute.
    #[verifier::rlimit(100)]
    fn op_6e(&mut self, mmu: &mut MMU)
        requires
            old(self).wf(),
            old(mmu).wf(),
        ensures
            final(self).wf(),
            final(mmu).wf(),
            final(mmu).prom == old(mmu).prom,
            final(mmu).crom == old(mmu).crom,
            final(mmu).mapper == old(mmu).mapper,
            final(self).clock_remain == old(self).clock_remain,
            instr_rel_row6(*old(self), *old(mmu), *final(self), *final(mmu), 0x6E),
    {
        let ea = self.ea_abs(mmu);
        let m = mmu.read_1byte(ea);
        let r = self.ror_val(m);
        mmu.write(ea, r);
    }

    /// 0x70: BVS relative.
    #[verifier::rlimit(100)]
    fn op_70(&mut self, mmu: &mut MMU)
        requires
            old(self).wf(),
            old(mmu).wf(),
        ensures
            final(self).wf(),
            final(mmu).wf(),
            final(mmu).prom == old(mmu).prom,
            final(mmu).crom == old(mmu).crom,
            final(mmu).mapper == old(mmu).mapper,
            final(self).clock_remain == old(self).clock_remain,
            instr_rel_row7(*old(self), *old(mmu), *final(self), *final(mmu), 0x70),
    {
        let ea = self.ea_rel(mmu);
        if self.p & 0x40 != 0 {
            self.pc = ea;
        }
    }

    /// 0x71: ADC (indirect),Y.
    #[verifier::rlimit(100)]
    fn op_71(&mut self, mmu: &mut MMU)
        requires
            old(self).wf(),
            old(mmu).wf(),
        ensures
            final(self).wf(),
            final(mmu).wf(),
            final(mmu).prom == old(mmu).prom,
            final(mmu).crom == old(mmu).crom,
            final(mmu).mapper == old(mmu).mapper,
            final(self).clock_remain == old(self).clock_remain,
            instr_rel_row7(*old(self), *old(mmu), *final(self), *final(mmu), 0x71),
    {
        let i = self.y;
        let ea = self.ea_ind_y(mmu, i);
        let m = mmu.read_1byte(ea);
        self.adc(m);
    }

    /// 0x75: ADC zero page,X.
    #[verifier::rlimit(100)]
    fn op_75(&mut self, mmu: &mut MMU)
        requires
            old(self).wf(),
            old(mmu).wf(),
        ensures
            final(self).wf(),
            final(mmu).wf(),
            final(mmu).prom == old(mmu).prom,
            final(mmu).crom == old(mmu).crom,
            final(mmu).mapper == old(mmu).mapper,
            final(self).clock_remain == old(self).clock_remain,
            instr_rel_row7(*old(self), *old(mmu), *final(self), *final(mmu), 0x75),
    {
        let i = self.x;
        let ea = self.ea_zp_idx(mmu, i);
        let m = mmu.read_1byte(ea);
        self.adc(m);
    }

    /// 0x76: ROR zero page,X.
    #[verifier::rlimit(100)]
    fn op_76(&mut self, mmu: &mut MMU)
        requires
            old(self).wf(),
            old(mmu).wf(),
        ensures
            final(self).wf(),
            final(mmu).wf(),
            final(mmu).prom == old(mmu).prom,
            final(mmu).crom == old(mmu).crom,
            final(mmu).mapper == old(mmu).mapper,
            final(self).clock_remain == old(self).clock_remain,
            instr_rel_row7(*old(self), *old(mmu), *final(self), *final(mmu), 0x76),
    {
        let i = self.x;
        let ea = self.ea_zp_idx(mmu, i);
        let m = mmu.read_1byte(ea);
        let r = self.ror_val(m);
        mmu.write(ea, r);
    }

    /// 0x78: SEI.
    #[verifier::rlimit(100)]
    fn op_78(&mut self, mmu: &mut MMU)
        requires
            old(self).wf(),
            old(mmu).wf(),
        ensures
            final(self).wf(),
            final(mmu).wf(),
            final(mmu).prom == old(mmu).prom,
            final(mmu).crom == old(mmu).crom,
            final(mmu).mapper == old(mmu).mapper,
            final(self).clock_remain == old(self).clock_remain,
            instr_rel_row7(*old(self), *old(mmu), *final(self), *final(mmu), 0x78),
    {
        self.set_i(true);
    }

    /// 0x79: ADC absolute,Y.
    #[verifier::rlimit(100)]
    fn op_79(&mut self, mmu: &mut MMU)
        requires
            old(self).wf(),
            old(mmu).wf(),
        ensures
            final(self).wf(),
            final(mmu).wf(),
            final(mmu).prom == old(mmu).prom,
            final(mmu).crom == old(mmu).crom,
            final(mmu).mapper == old(mmu).mapper,
            final(self).clock_remain == old(self).clock_remain,
            instr_rel_row7(*old(self), *old(mmu), *final(self), *final(mmu), 0x79),
    {
        let i = self.y;
        let ea = self.ea_abs_idx(mmu, i);
        let m = mmu.read_1byte(ea);
        self.adc(m);
    }

    /// 0x7D: ADC absolute,X.
    #[verifier::rlimit(100)]
    fn op_7d(&mut self, mmu: &mut MMU)
        requires
            old(self).wf(),
            old(mmu).wf(),
        ensures
            final(self).wf(),
            final(mmu).wf(),
            final(mmu).prom == old(mmu).prom,
            final(mmu).crom == old(mmu).crom,
            final(mmu).mapper == old(mmu).mapper,
            final(self).clock_remain == old(self).clock_remain,
            instr_rel_row7(*old(self), *old(mmu), *final(self), *final(mmu), 0x7D),
    {
        let i = self.x;
        let ea = self.ea_abs_idx(mmu, i);
        let m = mmu.read_1byte(ea);
        self.adc(m);
    }

    /// 0x7E: ROR absolute,X.
    #[verifier::rlimit(100)]
    fn op_7e(&mut self, mmu: &mut MMU)
        requires
            old(self).wf(),
            old(mmu).wf(),
        ensures
            final(self).wf(),
            final(mmu).wf(),
            final(mmu).prom == old(mmu).prom,
            final(mmu).crom == old(mmu).crom,
            final(mmu).mapper == old(mmu).mapper,
            final(self).clock_remain == old(self).clock_remain,
            instr_rel_row7(*old(self), *old(mmu), *final(self), *final(mmu), 0x7E),
    {
        let i = self.x;
        let ea = self.ea_abs_idx(mmu, i);
        let m = mmu.read_1byte(ea);
        let r = self.ror_val(m);
        mmu.write(ea, r);
    }

    /// 0x81: STA (indirect,X).
    #[verifier::rlimit(100)]
    fn op_81(&mut self, mmu: &mut MMU)
        requires
            old(self).wf(),
            old(mmu).wf(),
        ensures
            final(self).wf(),
            final(mmu).wf(),
            final(mmu).prom == old(mmu).prom,
            final(mmu).crom == old(mmu).crom,
            final(mmu).mapper == old(mmu).mapper,
            final(self).clock_remain == old(self).clock_remain,
            instr_rel_row8(*old(self), *old(mmu), *final(self), *final(mmu), 0x81),
    {
        let i = self.x;
        let ea = self.ea_ind_x(mmu, i);
        let r = self.a;
        mmu.write(ea, r);
    }

    /// 0x84: STY zero page.
    #[verifier::rlimit(100)]
    fn op_84(&mut self, mmu: &mut MMU)
        requires
            old(self).wf(),
            old(mmu).wf(),
        ensures
            final(self).wf(),
            final(mmu).wf(),
            final(mmu).prom == old(mmu).prom,
            final(mmu).crom == old(mmu).crom,
            final(mmu).mapper == old(mmu).mapper,
            final(self).clock_remain == old(self).clock_remain,
            instr_rel_row8(*old(self), *old(mmu), *final(self), *final(mmu), 0x84),
    {
        let ea = self.ea_zp(mmu);
        let r = self.y;
        mmu.write(ea, r);
    }

    /// 0x85: STA zero page.
    #[verifier::rlimit(100)]
    fn op_85(&mut self, mmu: &mut MMU)
        requires
            old(self).wf(),
            old(mmu).wf(),
        ensures
            final(self).wf(),
            final(mmu).wf(),
            final(mmu).prom == old(mmu).prom,
            final(mmu).crom == old(mmu).crom,
            final(mmu).mapper == old(mmu).mapper,
            final(self).clock_remain == old(self).clock_remain,
            instr_rel_row8(*old(self), *old(mmu), *final(self), *final(mmu), 0x85),
    {
        let ea = self.ea_zp(mmu);
        let r = self.a;
        mmu.write(ea, r);
    }

    /// 0x86: STX zero page.
    #[verifier::rlimit(100)]
    fn op_86(&mut self, mmu: &mut MMU)
        requires
            old(self).wf(),
            old(mmu).wf(),
        ensures
            final(self).wf(),
            final(mmu).wf(),
            final(mmu).prom == old(mmu).prom,
            final(mmu).crom == old(mmu).crom,
            final(mmu).mapper == old(mmu).mapper,
            final(self).clock_remain == old(self).clock_remain,
            instr_rel_row8(*old(self), *old(mmu), *final(self), *final(mmu), 0x86),
    {
        let ea = self.ea_zp(mmu);
        let r = self.x;
        mmu.write(ea, r);
    }

    /// 0x88: DEY.
    #[verifier::rlimit(100)]
    fn op_88(&mut self, mmu: &mut MMU)
        requires
            old(self).wf(),
            old(mmu).wf(),
        ensures
            final(self).wf(),
            final(mmu).wf(),
            final(mmu).prom == old(mmu).prom,
            final(mmu).crom == old(mmu).crom,
            final(mmu).mapper == old(mmu).mapper,
            final(self).clock_remain == old(self).clock_remain,
            instr_rel_row8(*old(self), *old(mmu), *final(self), *final(mmu), 0x88),
    {
        let r = self.y.wrapping_sub(1);
        self.y = r;
        self.update_nz(r);
    }

    /// 0x8A: TXA.
    #[verifier::rlimit(100)]
    fn op_8a(&mut self, mmu: &mut MMU)
        requires
            old(self).wf(),
            old(mmu).wf(),
        ensures
            final(self).wf(),
            final(mmu).wf(),
            final(mmu).prom == old(mmu).prom,
            final(mmu).crom == old(mmu).crom,
            final(mmu).mapper == old(mmu).mapper,
            final(self).clock_remain == old(self).clock_remain,
            instr_rel_row8(*old(self), *old(mmu), *final(self), *final(mmu), 0x8A),
    {
        let r = self.x;
        self.a = r;
        self.update_nz(r);
    }

    /// 0x8C: STY absolute.
    #[verifier::rlimit(100)]
    fn op_8c(&mut self, mmu: &mut MMU)
        requires
            old(self).wf(),
            old(mmu).wf(),
        ensures
            final(self).wf(),
            final(mmu).wf(),
            final(mmu).prom == old(mmu).prom,
            final(mmu).crom == old(mmu).crom,
            final(mmu).mapper == old(mmu).mapper,
            final(self).clock_remain == old(self).clock_remain,
            instr_rel_row8(*old(self), *old(mmu), *final(self), *final(mmu), 0x8C),
    {
        let ea = self.ea_abs(mmu);
        let r = self.y;
        mmu.write(ea, r);
    }

    /// 0x8D: STA absolute.
    #[verifier::rlimit(100)]
    fn op_8d(&mut self, mmu: &mut MMU)
        requires
            old(self).wf(),
            old(mmu).wf(),
        ensures
            final(self).wf(),
            final(mmu).wf(),
            final(mmu).prom == old(mmu).prom,
            final(mmu).crom == old(mmu).crom,
            final(mmu).mapper == old(mmu).mapper,
            final(self).clock_remain == old(self).clock_remain,
            instr_rel_row8(*old(self), *old(mmu), *final(self), *final(mmu), 0x8D),
    {
        let ea = self.ea_abs(mmu);
        let r = self.a;
        mmu.write(ea, r);
    }

    /// 0x8E: STX absolute.
    #[verifier::rlimit(100)]
    fn op_8e(&mut self, mmu: &mut MMU)
        requires
            old(self).wf(),
            old(mmu).wf(),
        ensures
            final(self).wf(),
            final(mmu).wf(),
            final(mmu).prom == old(mmu).prom,
            final(mmu).crom == old(mmu).crom,
            final(mmu).mapper == old(mmu).mapper,
            final(self).clock_remain == old(self).clock_remain,
            instr_rel_row8(*old(self), *old(mmu), *final(self), *final(mmu), 0x8E),
    {
        let ea = self.ea_abs(mmu);
        let r = self.x;
        mmu.write(ea, r);
    }

    /// 0x90: BCC relative.
    #[verifier::rlimit(100)]
    fn op_90(&mut self, mmu: &mut MMU)
        requires
            old(self).wf(),
            old(mmu).wf(),
        ensures
            final(self).wf(),
            final(mmu).wf(),
            final(mmu).prom == old(mmu).prom,
            final(mmu).crom == old(mmu).crom,
            final(mmu).mapper == old(mmu).mapper,
            final(self).clock_remain == old(self).clock_remain,
            instr_rel_row9(*old(self), *old(mmu), *final(self), *final(mmu), 0x90),
    {
        let ea = self.ea_rel(mmu);
        if self.p & 0x01 == 0 {
            self.pc = ea;
        }
    }

    /// 0x91: STA (indirect),Y.
    #[verifier::rlimit(100)]
    fn op_91(&mut self, mmu: &mut MMU)
        requires
            old(self).wf(),
            old(mmu).wf(),
        ensures
            final(self).wf(),
            final(mmu).wf(),
            final(mmu).prom == old(mmu).prom,
            final(mmu).crom == old(mmu).crom,
            final(mmu).mapper == old(mmu).mapper,
            final(self).clock_remain == old(self).clock_remain,
            instr_rel_row9(*old(self), *old(mmu), *final(self), *final(mmu), 0x91),
    {
        let i = self.y;
        let ea = self.ea_ind_y(mmu, i);
        let r = self.a;
        mmu.write(ea, r);
    }

    /// 0x94: STY zero page,X.
    #[verifier::rlimit(100)]
    fn op_94(&mut self, mmu: &mut MMU)
        requires
            old(self).wf(),
            old(mmu).wf(),
        ensures
            final(self).wf(),
            final(mmu).wf(),
            final(mmu).prom == old(mmu).prom,
            final(mmu).crom == old(mmu).crom,
            final(mmu).mapper == old(mmu).mapper,
            final(self).clock_remain == old(self).clock_remain,
            instr_rel_row9(*old(self), *old(mmu), *final(self), *final(mmu), 0x94),
    {
        let i = self.x;
        let ea = self.ea_zp_idx(mmu, i);
        let r = self.y;
        mmu.write(ea, r);
    }

    /// 0x95: STA zero page,X.
    #[verifier::rlimit(100)]
    fn op_95(&mut self, mmu: &mut MMU)
        requires
            old(self).wf(),
            old(mmu).wf(),
        ensures
            final(self).wf(),
            final(mmu).wf(),
            final(mmu).prom == old(mmu).prom,
            final(mmu).crom == old(mmu).crom,
            final(mmu).mapper == old(mmu).mapper,
            final(self).clock_remain == old(self).clock_remain,
            instr_rel_row9(*old(self), *old(mmu), *final(self), *final(mmu), 0x95),
    {
        let i = self.x;
        let ea = self.ea_zp_idx(mmu, i);
        let r = self.a;
        mmu.write(ea, r);
    }

    /// 0x96: STX zero page,Y.
    #[verifier::rlimit(100)]
    fn op_96(&mut self, mmu: &mut MMU)
        requires
            old(self).wf(),
            old(mmu).wf(),
        ensures
            final(self).wf(),
            final(mmu).wf(),
            final(mmu).prom == old(mmu).prom,
            final(mmu).crom == old(mmu).crom,
            final(mmu).mapper == old(mmu).mapper,
            final(self).clock_remain == old(self).clock_remain,
            instr_rel_row9(*old(self), *old(mmu), *final(self), *final(mmu), 0x96),
    {
        let i = self.y;
        let ea = self.ea_zp_idx(mmu, i);
        let r = self.x;
        mmu.write(ea, r);
    }

    /// 0x98: TYA.
    #[verifier::rlimit(100)]
    fn op_98(&mut self, mmu: &mut MMU)
        requires
            old(self).wf(),
            old(mmu).wf(),
        ensures
            final(self).wf(),
            final(mmu).wf(),
            final(mmu).prom == old(mmu).prom,
            final(mmu).crom == old(mmu).crom,
            final(mmu).mapper == old(mmu).mapper,
            final(self).clock_remain == old(self).clock_remain,
            instr_rel_row9(*old(self), *old(mmu), *final(self), *final(mmu), 0x98),
    {
        let r = self.y;
        self.a = r;
        self.update_nz(r);
    }

    /// 0x99: STA absolute,Y.
    #[verifier::rlimit(100)]
    fn op_99(&mut self, mmu: &mut MMU)
        requires
            old(self).wf(),
            old(mmu).wf(),
        ensures
            final(self).wf(),
            final(mmu).wf(),
            final(mmu).prom == old(mmu).prom,
            final(mmu).crom == old(mmu).crom,
            final(mmu).mapper == old(mmu).mapper,
            final(self).clock_remain == old(self).clock_remain,
            instr_rel_row9(*old(self), *old(mmu), *final(self), *final(mmu), 0x99),
    {
        let i = self.y;
        let ea = self.ea_abs_idx(mmu, i);
        let r = self.a;
        mmu.write(ea, r);
    }

    /// 0x9A: TXS.
    #[verifier::rlimit(100)]
    fn op_9a(&mut self, mmu: &mut MMU)
        requires
            old(self).wf(),
            old(mmu).wf(),
        ensures
            final(self).wf(),
            final(mmu).wf(),
            final(mmu).prom == old(mmu).prom,
            final(mmu).crom == old(mmu).crom,
            final(mmu).mapper == old(mmu).mapper,
            final(self).clock_remain == old(self).clock_remain,
            instr_rel_row9(*old(self), *old(mmu), *final(self), *final(mmu), 0x9A),
    {
        self.sp = self.x;
    }

    /// 0x9D: STA absolute,X.
    #[verifier::rlimit(100)]
    fn op_9d(&mut self, mmu: &mut MMU)
        requires
            old(self).wf(),
            old(mmu).wf(),
        ensures
            final(self).wf(),
            final(mmu).wf(),
            final(mmu).prom == old(mmu).prom,
            final(mmu).crom == old(mmu).crom,
            final(mmu).mapper == old(mmu).mapper,
            final(self).clock_remain == old(self).clock_remain,
            instr_rel_row9(*old(self), *old(mmu), *final(self), *final(mmu), 0x9D),
    {
        let i = self.x;
        let ea = self.ea_abs_idx(mmu, i);
        let r = self.a;
        mmu.write(ea, r);
    }

    /// 0xA0: LDY immediate.
    #[verifier::rlimit(100)]
    fn op_a0(&mut self, mmu: &mut MMU)
        requires
            old(self).wf(),
            old(mmu).wf(),
        ensures
            final(self).wf(),
            final(mmu).wf(),
            final(mmu).prom == old(mmu).prom,
            final(mmu).crom == old(mmu).crom,
            final(mmu).mapper == old(mmu).mapper,
            final(self).clock_remain == old(self).clock_remain,
            instr_rel_rowa(*old(self), *old(mmu), *final(self), *final(mmu), 0xA0),
    {
        let ea = self.ea_imm();
        let m = mmu.read_1byte(ea);
        self.y = m;
        self.update_nz(m);
    }

    /// 0xA1: LDA (indirect,X).
    #[verifier::rlimit(100)]
    fn op_a1(&mut self, mmu: &mut MMU)
        requires
            old(self).wf(),
            old(mmu).wf(),
        ensures
            final(self).wf(),
            final(mmu).wf(),
            final(mmu).prom == old(mmu).prom,
            final(mmu).crom == old(mmu).crom,
            final(mmu).mapper == old(mmu).mapper,
            final(self).clock_remain == old(self).clock_remain,
            instr_rel_rowa(*old(self), *old(mmu), *final(self), *final(mmu), 0xA1),
    {
        let i = self.x;
        let ea = self.ea_ind_x(mmu, i);
        let m = mmu.read_1byte(ea);
        self.a = m;
        self.update_nz(m);
    }

    /// 0xA2: LDX immediate.
    #[verifier::rlimit(100)]
    fn op_a2(&mut self, mmu: &mut MMU)
        requires
            old(self).wf(),
            old(mmu).wf(),
        ensures
            final(self).wf(),
            final(mmu).wf(),
            final(mmu).prom == old(mmu).prom,
            final(mmu).crom == old(mmu).crom,
            final(mmu).mapper == old(mmu).mapper,
            final(self).clock_remain == old(self).clock_remain,
            instr_rel_rowa(*old(self), *old(mmu), *final(self), *final(mmu), 0xA2),
    {
        let ea = self.ea_imm();
        let m = mmu.read_1byte(ea);
        self.x = m;
        self.update_nz(m);
    }

    /// 0xA4: LDY zero page.
    #[verifier::rlimit(100)]
    fn op_a4(&mut self, mmu: &mut MMU)
        requires
            old(self).wf(),
            old(mmu).wf(),
        ensures
            final(self).wf(),
            final(mmu).wf(),
            final(mmu).prom == old(mmu).prom,
            final(mmu).crom == old(mmu).crom,
            final(mmu).mapper == old(mmu).mapper,
            final(self).clock_remain == old(self).clock_remain,
            instr_rel_rowa(*old(self), *old(mmu), *final(self), *final(mmu), 0xA4),
    {
        let ea = self.ea_zp(mmu);
        let m = mmu.read_1byte(ea);
        self.y = m;
        self.update_nz(m);
    }

    /// 0xA5: LDA zero page.
    #[verifier::rlimit(100)]
    fn op_a5(&mut self, mmu: &mut MMU)
        requires
            old(self).wf(),
            old(mmu).wf(),
        ensures
            final(self).wf(),
            final(mmu).wf(),
            final(mmu).prom == old(mmu).prom,
            final(mmu).crom == old(mmu).crom,
            final(mmu).mapper == old(mmu).mapper,
            final(self).clock_remain == old(self).clock_remain,
            instr_rel_rowa(*old(self), *old(mmu), *final(self), *final(mmu), 0xA5),
    {
        let ea = self.ea_zp(mmu);
        let m = mmu.read_1byte(ea);
        self.a = m;
        self.update_nz(m);
    }

    /// 0xA6: LDX zero page.
    #[verifier::rlimit(100)]
    fn op_a6(&mut self, mmu: &mut MMU)
        requires
            old(self).wf(),
            old(mmu).wf(),
        ensures
            final(self).wf(),
            final(mmu).wf(),
            final(mmu).prom == old(mmu).prom,
            final(mmu).crom == old(mmu).crom,
            final(mmu).mapper == old(mmu).mapper,
            final(self).clock_remain == old(self).clock_remain,
            instr_rel_rowa(*old(self), *old(mmu), *final(self), *final(mmu), 0xA6),
    {
        let ea = self.ea_zp(mmu);
        let m = mmu.read_1byte(ea);
        self.x = m;
        self.update_nz(m);
    }

    /// 0xA8: TAY.
    #[verifier::rlimit(100)]
    fn op_a8(&mut self, mmu: &mut MMU)
        requires
            old(self).wf(),
            old(mmu).wf(),
        ensures
            final(self).wf(),
            final(mmu).wf(),
            final(mmu).prom == old(mmu).prom,
            final(mmu).crom == old(mmu).crom,
            final(mmu).mapper == old(mmu).mapper,
            final(self).clock_remain == old(self).clock_remain,
            instr_rel_rowa(*old(self), *old(mmu), *final(self), *final(mmu), 0xA8),
    {
        let r = self.a;
        self.y = r;
        self.update_nz(r);
    }

    /// 0xA9: LDA immediate.
    #[verifier::rlimit(100)]
    fn op_a9(&mut self, mmu: &mut MMU)
        requires
            old(self).wf(),
            old(mmu).wf(),
        ensures
            final(self).wf(),
            final(mmu).wf(),
            final(mmu).prom == old(mmu).prom,
            final(mmu).crom == old(mmu).crom,
            final(mmu).mapper == old(mmu).mapper,
            final(self).clock_remain == old(self).clock_remain,
            instr_rel_rowa(*old(self), *old(mmu), *final(self), *final(mmu), 0xA9),
    {
        let ea = self.ea_imm();
        let m = mmu.read_1byte(ea);
        self.a = m;
        self.update_nz(m);
    }

    /// 0xAA: TAX.
    #[verifier::rlimit(100)]
    fn op_aa(&mut self, mmu: &mut MMU)
        requires
            old(self).wf(),
            old(mmu).wf(),
        ensures
            final(self).wf(),
            final(mmu).wf(),
            final(mmu).prom == old(mmu).prom,
            final(mmu).crom == old(mmu).crom,
            final(mmu).mapper == old(mmu).mapper,
            final(self).clock_remain == old(self).clock_remain,
            instr_rel_rowa(*old(self), *old(mmu), *final(self), *final(mmu), 0xAA),
    {
        let r = self.a;
        self.x = r;
        self.update_nz(r);
    }

    /// 0xAC: LDY absolute.
    #[verifier::rlimit(100)]
    fn op_ac(&mut self, mmu: &mut MMU)
        requires
            old(self).wf(),
            old(mmu).wf(),
        ensures
            final(self).wf(),
            final(mmu).wf(),
            final(mmu).prom == old(mmu).prom,
            final(mmu).crom == old(mmu).crom,
            final(mmu).mapper == old(mmu).mapper,
            final(self).clock_remain == old(self).clock_remain,
            instr_rel_rowa(*old(self), *old(mmu), *final(self), *final(mmu), 0xAC),
    {
        let ea = self.ea_abs(mmu);
        let m = mmu.read_1byte(ea);
        self.y = m;
        self.update_nz(m);
    }

    /// 0xAD: LDA absolute.
    #[verifier::rlimit(100)]
    fn op_ad(&mut self, mmu: &mut MMU)
        requires
            old(self).wf(),
            old(mmu).wf(),
        ensures
            final(self).wf(),
            final(mmu).wf(),
            final(mmu).prom == old(mmu).prom,
            final(mmu).crom == old(mmu).crom,
            final(mmu).mapper == old(mmu).mapper,
            final(self).clock_remain == old(self).clock_remain,
            instr_rel_rowa(*old(self), *old(mmu), *final(self), *final(mmu), 0xAD),
    {
        let ea = self.ea_abs(mmu);
        let m = mmu.read_1byte(ea);
        self.a = m;
        self.update_nz(m);
    }

    /// 0xAE: LDX absolute.
    #[verifier::rlimit(100)]
    fn op_ae(&mut self, mmu: &mut MMU)
        requires
            old(self).wf(),
            old(mmu).wf(),
        ensures
            final(self).wf(),
            final(mmu).wf(),
            final(mmu).prom == old(mmu).prom,
            final(mmu).crom == old(mmu).crom,
            final(mmu).mapper == old(mmu).mapper,
            final(self).clock_remain == old(self).clock_remain,
            instr_rel_rowa(*old(self), *old(mmu), *final(self), *final(mmu), 0xAE),
    {
        let ea = self.ea_abs(mmu);
        let m = mmu.read_1byte(ea);
        self.x = m;
        self.update_nz(m);
    }

    /// 0xB0: BCS relative.
    #[verifier::rlimit(100)]
    fn op_b0(&mut self, mmu: &mut MMU)
        requires
            old(self).wf(),
            old(mmu).wf(),
        ensures
            final(self).wf(),
            final(mmu).wf(),
            final(mmu).prom == old(mmu).prom,
            final(mmu).crom == old(mmu).crom,
            final(mmu).mapper == old(mmu).mapper,
            final(self).clock_remain == old(self).clock_remain,
            instr_rel_rowb(*old(self), *old(mmu), *final(self), *final(mmu), 0xB0),
    {
        let ea = self.ea_rel(mmu);
        if self.p & 0x01 != 0 {
            self.pc = ea;
        }
    }

    /// 0xB1: LDA (indirect),Y.
    #[verifier::rlimit(100)]
    fn op_b1(&mut self, mmu: &mut MMU)
        requires
            old(self).wf(),
            old(mmu).wf(),
        ensures
            final(self).wf(),
            final(mmu).wf(),
            final(mmu).prom == old(mmu).prom,
            final(mmu).crom == old(mmu).crom,
            final(mmu).mapper == old(mmu).mapper,
            final(self).clock_remain == old(self).clock_remain,
            instr_rel_rowb(*old(self), *old(mmu), *final(self), *final(mmu), 0xB1),
    {
        let i = self.y;
        let ea = self.ea_ind_y(mmu, i);
        let m = mmu.read_1byte(ea);
        self.a = m;
        self.update_nz(m);
    }

    /// 0xB4: LDY zero page,X.
    #[verifier::rlimit(100)]
    fn op_b4(&mut self, mmu: &mut MMU)
        requires
            old(self).wf(),
            old(mmu).wf(),
        ensures
            final(self).wf(),
            final(mmu).wf(),
            final(mmu).prom == old(mmu).prom,
            final(mmu).crom == old(mmu).crom,
            final(mmu).mapper == old(mmu).mapper,
            final(self).clock_remain == old(self).clock_remain,
            instr_rel_rowb(*old(self), *old(mmu), *final(self), *final(mmu), 0xB4),
    {
        let i = self.x;
        let ea = self.ea_zp_idx(mmu, i);
        let m = mmu.read_1byte(ea);
        self.y = m;
        self.update_nz(m);
    }

    /// 0xB5: LDA zero page,X.
    #[verifier::rlimit(100)]
    fn op_b5(&mut self, mmu: &mut MMU)
        requires
            old(self).wf(),
            old(mmu).wf(),
        ensures
            final(self).wf(),
            final(mmu).wf(),
            final(mmu).prom == old(mmu).prom,
            final(mmu).crom == old(mmu).crom,
            final(mmu).mapper == old(mmu).mapper,
            final(self).clock_remain == old(self).clock_remain,
            instr_rel_rowb(*old(self), *old(mmu), *final(self), *final(mmu), 0xB5),
    {
        let i = self.x;
        let ea = self.ea_zp_idx(mmu, i);
        let m = mmu.read_1byte(ea);
        self.a = m;
        self.update_nz(m);
    }

    /// 0xB6: LDX zero page,Y.
    #[verifier::rlimit(100)]
    fn op_b6(&mut self, mmu: &mut MMU)
        requires
            old(self).wf(),
            old(mmu).wf(),
        ensures
            final(self).wf(),
            final(mmu).wf(),
            final(mmu).prom == old(mmu).prom,
            final(mmu).crom == old(mmu).crom,
            final(mmu).mapper == old(mmu).mapper,
            final(self).clock_remain == old(self).clock_remain,
            instr_rel_rowb(*old(self), *old(mmu), *final(self), *final(mmu), 0xB6),
    {
        let i = self.y;
        let ea = self.ea_zp_idx(mmu, i);
        let m = mmu.read_1byte(ea);
        self.x = m;
        self.update_nz(m);
    }

    /// 0xB8: CLV.
    #[verifier::rlimit(100)]
    fn op_b8(&mut self, mmu: &mut MMU)
        requires
            old(self).wf(),
            old(mmu).wf(),
        ensures
            final(self).wf(),
            final(mmu).wf(),
            final(mmu).prom == old(mmu).prom,
            final(mmu).crom == old(mmu).crom,
            final(mmu).mapper == old(mmu).mapper,
            final(self).clock_remain == old(self).clock_remain,
            instr_rel_rowb(*old(self), *old(mmu), *final(self), *final(mmu), 0xB8),
    {
        self.set_v(false);
    }

    /// 0xB9: LDA absolute,Y.
    #[verifier::rlimit(100)]
    fn op_b9(&mut self, mmu: &mut MMU)
        requires
            old(self).wf(),
            old(mmu).wf(),
        ensures
            final(self).wf(),
            final(mmu).wf(),
            final(mmu).prom == old(mmu).prom,
            final(mmu).crom == old(mmu).crom,
            final(mmu).mapper == old(mmu).mapper,
            final(self).clock_remain == old(self).clock_remain,
            instr_rel_rowb(*old(self), *old(mmu), *final(self), *final(mmu), 0xB9),
    {
        let i = self.y;
        let ea = self.ea_abs_idx(mmu, i);
        let m = mmu.read_1byte(ea);
        self.a = m;
        self.update_nz(m);
    }

    /// 0xBA: TSX.
    #[verifier::rlimit(100)]
    fn op_ba(&mut self, mmu: &mut MMU)
        requires
            old(self).wf(),
            old(mmu).wf(),
        ensures
            final(self).wf(),
            final(mmu).wf(),
            final(mmu).prom == old(mmu).prom,
            final(mmu).crom == old(mmu).crom,
            final(mmu).mapper == old(mmu).mapper,
            final(self).clock_remain == old(self).clock_remain,
            instr_rel_rowb(*old(self), *old(mmu), *final(self), *final(mmu), 0xBA),
    {
        let r = self.sp;
        self.x = r;
        self.update_nz(r);
    }

    /// 0xBC: LDY absolute,X.
    #[verifier::rlimit(100)]
    fn op_bc(&mut self, mmu: &mut MMU)
        requires
            old(self).wf(),
            old(mmu).wf(),
        ensures
            final(self).wf(),
            final(mmu).wf(),
            final(mmu).prom == old(mmu).prom,
            final(mmu).crom == old(mmu).crom,
            final(mmu).mapper == old(mmu).mapper,
            final(self).clock_remain == old(self).clock_remain,
            instr_rel_rowb(*old(self), *old(mmu), *final(self), *final(mmu), 0xBC),
    {
        let i = self.x;
        let ea = self.ea_abs_idx(mmu, i);
        let m = mmu.read_1byte(ea);
        self.y = m;
        self.update_nz(m);
    }

    /// 0xBD: LDA absolute,X.
    #[verifier::rlimit(100)]
    fn op_bd(&mut self, mmu: &mut MMU)
        requires
            old(self).wf(),
            old(mmu).wf(),
        ensures
            final(self).wf(),
            final(mmu).wf(),
            final(mmu).prom == old(mmu).prom,
            final(mmu).crom == old(mmu).crom,
            final(mmu).mapper == old(mmu).mapper,
            final(self).clock_remain == old(self).clock_remain,
            instr_rel_rowb(*old(self), *old(mmu), *final(self), *final(mmu), 0xBD),
    {
        let i = self.x;
        let ea = self.ea_abs_idx(mmu, i);
        let m = mmu.read_1byte(ea);
        self.a = m;
        self.update_nz(m);
    }

    /// 0xBE: LDX absolute,Y.
    #[verifier::rlimit(100)]
    fn op_be(&mut self, mmu: &mut MMU)
        requires
            old(self).wf(),
            old(mmu).wf(),
        ensures
            final(self).wf(),
            final(mmu).wf(),
            final(mmu).prom == old(mmu).prom,
            final(mmu).crom == old(mmu).crom,
            final(mmu).mapper == old(mmu).mapper,
            final(self).clock_remain == old(self).clock_remain,
            instr_rel_rowb(*old(self), *old(mmu), *final(self), *final(mmu), 0xBE),
    {
        let i = self.y;
        let ea = self.ea_abs_idx(mmu, i);
        let m = mmu.read_1byte(ea);
        self.x = m;
        self.update_nz(m);
    }

    /// 0xC0: CPY immediate.
    #[verifier::rlimit(100)]
    fn op_c0(&mut self, mmu: &mut MMU)
        requires
            old(self).wf(),
            old(mmu).wf(),
        ensures
            final(self).wf(),
            final(mmu).wf(),
            final(mmu).prom == old(mmu).prom,
            final(mmu).crom == old(mmu).crom,
            final(mmu).mapper == old(mmu).mapper,
            final(self).clock_remain == old(self).clock_remain,
            instr_rel_rowc(*old(self), *old(mmu), *final(self), *final(mmu), 0xC0),
    {
        let ea = self.ea_imm();
        let m = mmu.read_1byte(ea);
        let r = self.y;
        self.compare(r, m);
    }

    /// 0xC1: CMP (indirect,X).
    #[verifier::rlimit(100)]
    fn op_c1(&mut self, mmu: &mut MMU)
        requires
            old(self).wf(),
            old(mmu).wf(),
        ensures
            final(self).wf(),
            final(mmu).wf(),
            final(mmu).prom == old(mmu).prom,
            final(mmu).crom == old(mmu).crom,
            final(mmu).mapper == old(mmu).mapper,
            final(self).clock_remain == old(self).clock_remain,
            instr_rel_rowc(*old(self), *old(mmu), *final(self), *final(mmu), 0xC1),
    {
        let i = self.x;
        let ea = self.ea_ind_x(mmu, i);
        let m = mmu.read_1byte(ea);
        let r = self.a;
        self.compare(r, m);
    }

    /// 0xC4: CPY zero page.
    #[verifier::rlimit(100)]
    fn op_c4(&mut self, mmu: &mut MMU)
        requires
            old(self).wf(),
            old(mmu).wf(),
        ensures
            final(self).wf(),
            final(mmu).wf(),
            final(mmu).prom == old(mmu).prom,
            final(mmu).crom == old(mmu).crom,
            final(mmu).mapper == old(mmu).mapper,
            final(self).clock_remain == old(self).clock_remain,
            instr_rel_rowc(*old(self), *old(mmu), *final(self), *final(mmu), 0xC4),
    {
        let ea = self.ea_zp(mmu);
        let m = mmu.read_1byte(ea);
        let r = self.y;
        self.compare(r, m);
    }

    /// 0xC5: CMP zero page.
    #[verifier::rlimit(100)]
    fn op_c5(&mut self, mmu: &mut MMU)
        requires
            old(self).wf(),
            old(mmu).wf(),
        ensures
            final(self).wf(),
            final(mmu).wf(),
            final(mmu).prom == old(mmu).prom,
            final(mmu).crom == old(mmu).crom,
            final(mmu).mapper == old(mmu).mapper,
            final(self).clock_remain == old(self).clock_remain,
            instr_rel_rowc(*old(self), *old(mmu), *final(self), *final(mmu), 0xC5),
    {
        let ea = self.ea_zp(mmu);
        let m = mmu.read_1byte(ea);
        let r = self.a;
        self.compare(r, m);
    }

    /// 0xC6: DEC zero page.
    #[verifier::rlimit(100)]
    fn op_c6(&mut self, mmu: &mut MMU)
        requires
            old(self).wf(),
            old(mmu).wf(),
        ensures
            final(self).wf(),
            final(mmu).wf(),
            final(mmu).prom == old(mmu).prom,
            final(mmu).crom == old(mmu).crom,
            final(mmu).mapper == old(mmu).mapper,
            final(self).clock_remain == old(self).clock_remain,
            instr_rel_rowc(*old(self), *old(mmu), *final(self), *final(mmu), 0xC6),
    {
        let ea = self.ea_zp(mmu);
        let m = mmu.read_1byte(ea);
        let r = self.dec_val(m);
        mmu.write(ea, r);
    }

    /// 0xC8: INY.
    #[verifier::rlimit(100)]
    fn op_c8(&mut self, mmu: &mut MMU)
        requires
            old(self).wf(),
            old(mmu).wf(),
        ensures
            final(self).wf(),
            final(mmu).wf(),
            final(mmu).prom == old(mmu).prom,
            final(mmu).crom == old(mmu).crom,
            final(mmu).mapper == old(mmu).mapper,
            final(self).clock_remain == old(self).clock_remain,
            instr_rel_rowc(*old(self), *old(mmu), *final(self), *final(mmu), 0xC8),
    {
        let r = self.y.wrapping_add(1);
        self.y = r;
        self.update_nz(r);
    }

    /// 0xC9: CMP immediate.
    #[verifier::rlimit(100)]
    fn op_c9(&mut self, mmu: &mut MMU)
        requires
            old(self).wf(),
            old(mmu).wf(),
        ensures
            final(self).wf(),
            final(mmu).wf(),
            final(mmu).prom == old(mmu).prom,
            final(mmu).crom == old(mmu).crom,
            final(mmu).mapper == old(mmu).mapper,
            final(self).clock_remain == old(self).clock_remain,
            instr_rel_rowc(*old(self), *old(mmu), *final(self), *final(mmu), 0xC9),
    {
        let ea = self.ea_imm();
        let m = mmu.read_1byte(ea);
        let r = self.a;
        self.compare(r, m);
    }

    /// 0xCA: DEX.
    #[verifier::rlimit(100)]
    fn op_ca(&mut self, mmu: &mut MMU)
        requires
            old(self).wf(),
            old(mmu).wf(),
        ensures
            final(self).wf(),
            final(mmu).wf(),
            final(mmu).prom == old(mmu).prom,
            final(mmu).crom == old(mmu).crom,
            final(mmu).mapper == old(mmu).mapper,
            final(self).clock_remain == old(self).clock_remain,
            instr_rel_rowc(*old(self), *old(mmu), *final(self), *final(mmu), 0xCA),
    {
        let r = self.x.wrapping_sub(1);
        self.x = r;
        self.update_nz(r);
    }

    /// 0xCC: CPY absolute.
    #[verifier::rlimit(100)]
    fn op_cc(&mut self, mmu: &mut MMU)
        requires
            old(self).wf(),
            old(mmu).wf(),
        ensures
            final(self).wf(),
            final(mmu).wf(),
            final(mmu).prom == old(mmu).prom,
            final(mmu).crom == old(mmu).crom,
            final(mmu).mapper == old(mmu).mapper,
            final(self).clock_remain == old(self).clock_remain,
            instr_rel_rowc(*old(self), *old(mmu), *final(self), *final(mmu), 0xCC),
    {
        let ea = self.ea_abs(mmu);
        let m = mmu.read_1byte(ea);
        let r = self.y;
        self.compare(r, m);
    }

    /// 0xCD: CMP absolute.
    #[verifier::rlimit(100)]
    fn op_cd(&mut self, mmu: &mut MMU)
        requires
            old(self).wf(),
            old(mmu).wf(),
        ensures
            final(self).wf(),
            final(mmu).wf(),
            final(mmu).prom == old(mmu).prom,
            final(mmu).crom == old(mmu).crom,
            final(mmu).mapper == old(mmu).mapper,
            final(self).clock_remain == old(self).clock_remain,
            instr_rel_rowc(*old(self), *old(mmu), *final(self), *final(mmu), 0xCD),
    {
        let ea = self.ea_abs(mmu);
        let m = mmu.read_1byte(ea);
        let r = self.a;
        self.compare(r, m);
    }

    /// 0xCE: DEC absolute.
    #[verifier::rlimit(100)]
    fn op_ce(&mut self, mmu: &mut MMU)
        requires
            old(self).wf(),
            old(mmu).wf(),
        ensures
            final(self).wf(),
            final(mmu).wf(),
            final(mmu).prom == old(mmu).prom,
            final(mmu).crom == old(mmu).crom,
            final(mmu).mapper == old(mmu).mapper,
            final(self).clock_remain == old(self).clock_remain,
            instr_rel_rowc(*old(self), *old(mmu), *final(self), *final(mmu), 0xCE),
    {
        let ea = self.ea_abs(mmu);
        let m = mmu.read_1byte(ea);
        let r = self.dec_val(m);
        mmu.write(ea, r);
    }

    /// 0xD0: BNE relative.
    #[verifier::rlimit(100)]
    fn op_d0(&mut self, mmu: &mut MMU)
        requires
            old(self).wf(),
            old(mmu).wf(),
        ensures
            final(self).wf(),
            final(mmu).wf(),
            final(mmu).prom == old(mmu).prom,
            final(mmu).crom == old(mmu).crom,
            final(mmu).mapper == old(mmu).mapper,
            final(self).clock_remain == old(self).clock_remain,
            instr_rel_rowd(*old(self), *old(mmu), *final(self), *final(mmu), 0xD0),
    {
        let ea = self.ea_rel(mmu);
        if self.p & 0x02 == 0 {
            self.pc = ea;
        }
    }

    /// 0xD1: CMP (indirect),Y.
    #[verifier::rlimit(100)]
    fn op_d1(&mut self, mmu: &mut MMU)
        requires
            old(self).wf(),
            old(mmu).wf(),
        ensures
            final(self).wf(),
            final(mmu).wf(),
            final(mmu).prom == old(mmu).prom,
            final(mmu).crom == old(mmu).crom,
            final(mmu).mapper == old(mmu).mapper,
            final(self).clock_remain == old(self).clock_remain,
            instr_rel_rowd(*old(self), *old(mmu), *final(self), *final(mmu), 0xD1),
    {
        let i = self.y;
        let ea = self.ea_ind_y(mmu, i);
        let m = mmu.read_1byte(ea);
        let r = self.a;
        self.compare(r, m);
    }

    /// 0xD5: CMP zero page,X.
    #[verifier::rlimit(100)]
    fn op_d5(&mut self, mmu: &mut MMU)
        requires
            old(self).wf(),
            old(mmu).wf(),
        ensures
            final(self).wf(),
            final(mmu).wf(),
            final(mmu).prom == old(mmu).prom,
            final(mmu).crom == old(mmu).crom,
            final(mmu).mapper == old(mmu).mapper,
            final(self).clock_remain == old(self).clock_remain,
            instr_rel_rowd(*old(self), *old(mmu), *final(self), *final(mmu), 0xD5),
    {
        let i = self.x;
        let ea = self.ea_zp_idx(mmu, i);
        let m = mmu.read_1byte(ea);
        let r = self.a;
        self.compare(r, m);
    }

    /// 0xD6: DEC zero page,X.
    #[verifier::rlimit(100)]
    fn op_d6(&mut self, mmu: &mut MMU)
        requires
            old(self).wf(),
            old(mmu).wf(),
        ensures
            final(self).wf(),
            final(mmu).wf(),
            final(mmu).prom == old(mmu).prom,
            final(mmu).crom == old(mmu).crom,
            final(mmu).mapper == old(mmu).mapper,
            final(self).clock_remain == old(self).clock_remain,
            instr_rel_rowd(*old(self), *old(mmu), *final(self), *final(mmu), 0xD6),
    {
        let i = self.x;
        let ea = self.ea_zp_idx(mmu, i);
        let m = mmu.read_1byte(ea);
        let r = self.dec_val(m);
        mmu.write(ea, r);
    }

    /// 0xD8: CLD.
    #[verifier::rlimit(100)]
    fn op_d8(&mut self, mmu: &mut MMU)
        requires
            old(self).wf(),
            old(mmu).wf(),
        ensures
            final(self).wf(),
            final(mmu).wf(),
            final(mmu).prom == old(mmu).prom,
            final(mmu).crom == old(mmu).crom,
            final(mmu).mapper == old(mmu).mapper,
            final(self).clock_remain == old(self).clock_remain,
            instr_rel_rowd(*old(self), *old(mmu), *final(self), *final(mmu), 0xD8),
    {
        self.set_d(false);
    }

    /// 0xD9: CMP absolute,Y.
    #[verifier::rlimit(100)]
    fn op_d9(&mut self, mmu: &mut MMU)
        requires
            old(self).wf(),
            old(mmu).wf(),
        ensures
            final(self).wf(),
            final(mmu).wf(),
            final(mmu).prom == old(mmu).prom,
            final(mmu).crom == old(mmu).crom,
            final(mmu).mapper == old(mmu).mapper,
            final(self).clock_remain == old(self).clock_remain,
            instr_rel_rowd(*old(self), *old(mmu), *final(self), *final(mmu), 0xD9),
    {
        let i = self.y;
        let ea = self.ea_abs_idx(mmu, i);
        let m = mmu.read_1byte(ea);
        let r = self.a;
        self.compare(r, m);
    }

    /// 0xDD: CMP absolute,X.
    #[verifier::rlimit(100)]
    fn op_dd(&mut self, mmu: &mut MMU)
        requires
            old(self).wf(),
            old(mmu).wf(),
        ensures
            final(self).wf(),
            final(mmu).wf(),
            final(mmu).prom == old(mmu).prom,
            final(mmu).crom == old(mmu).crom,
            final(mmu).mapper == old(mmu).mapper,
            final(self).clock_remain == old(self).clock_remain,
            instr_rel_rowd(*old(self), *old(mmu), *final(self), *final(mmu), 0xDD),
    {
        let i = self.x;
        let ea = self.ea_abs_idx(mmu, i);
        let m = mmu.read_1byte(ea);
        let r = self.a;
        self.compare(r, m);
    }

    /// 0xDE: DEC absolute,X.
    #[verifier::rlimit(100)]
    fn op_de(&mut self, mmu: &mut MMU)
        requires
            old(self).wf(),
            old(mmu).wf(),
        ensures
            final(self).wf(),
            final(mmu).wf(),
            final(mmu).prom == old(mmu).prom,
            final(mmu).crom == old(mmu).crom,
            final(mmu).mapper == old(mmu).mapper,
            final(self).clock_remain == old(self).clock_remain,
            instr_rel_rowd(*old(self), *old(mmu), *final(self), *final(mmu), 0xDE),
    {
        let i = self.x;
        let ea = self.ea_abs_idx(mmu, i);
        let m = mmu.read_1byte(ea);
        let r = self.dec_val(m);
        mmu.write(ea, r);
    }

    /// 0xE0: CPX immediate.
    #[verifier::rlimit(100)]
    fn op_e0(&mut self, mmu: &mut MMU)
        requires
            old(self).wf(),
            old(mmu).wf(),
        ensures
            final(self).wf(),
            final(mmu).wf(),
            final(mmu).prom == old(mmu).prom,
            final(mmu).crom == old(mmu).crom,
            final(mmu).mapper == old(mmu).mapper,
            final(self).clock_remain == old(self).clock_remain,
            instr_rel_rowe(*old(self), *old(mmu), *final(self), *final(mmu), 0xE0),
    {
        let ea = self.ea_imm();
        let m = mmu.read_1byte(ea);
        let r = self.x;
        self.compare(r, m);
    }

    /// 0xE1: SBC (indirect,X).
    #[verifier::rlimit(100)]
    fn op_e1(&mut self, mmu: &mut MMU)
        requires
            old(self).wf(),
            old(mmu).wf(),
        ensures
            final(self).wf(),
            final(mmu).wf(),
            final(mmu).prom == old(mmu).prom,
            final(mmu).crom == old(mmu).crom,
            final(mmu).mapper == old(mmu).mapper,
            final(self).clock_remain == old(self).clock_remain,
            instr_rel_rowe(*old(self), *old(mmu), *final(self), *final(mmu), 0xE1),
    {
        let i = self.x;
        let ea = self.ea_ind_x(mmu, i);
        let m = mmu.read_1byte(ea);
        self.sbc(m);
    }

    /// 0xE4: CPX zero page.
    #[verifier::rlimit(100)]
    fn op_e4(&mut self, mmu: &mut MMU)
        requires
            old(self).wf(),
            old(mmu).wf(),
        ensures
            final(self).wf(),
            final(mmu).wf(),
            final(mmu).prom == old(mmu).prom,
            final(mmu).crom == old(mmu).crom,
            final(mmu).mapper == old(mmu).mapper,
            final(self).clock_remain == old(self).clock_remain,
            instr_rel_rowe(*old(self), *old(mmu), *final(self), *final(mmu), 0xE4),
    {
        let ea = self.ea_zp(mmu);
        let m = mmu.read_1byte(ea);
        let r = self.x;
        self.compare(r, m);
    }

    /// 0xE5: SBC zero page.
    #[verifier::rlimit(100)]
    fn op_e5(&mut self, mmu: &mut MMU)
        requires
            old(self).wf(),
            old(mmu).wf(),
        ensures
            final(self).wf(),
            final(mmu).wf(),
            final(mmu).prom == old(mmu).prom,
            final(mmu).crom == old(mmu).crom,
            final(mmu).mapper == old(mmu).mapper,
            final(self).clock_remain == old(self).clock_remain,
            instr_rel_rowe(*old(self), *old(mmu), *final(self), *final(mmu), 0xE5),
    {
        let ea = self.ea_zp(mmu);
        let m = mmu.read_1byte(ea);
        self.sbc(m);
    }

    /// 0xE6: INC zero page.
    #[verifier::rlimit(100)]
    fn op_e6(&mut self, mmu: &mut MMU)
        requires
            old(self).wf(),
            old(mmu).wf(),
        ensures
            final(self).wf(),
            final(mmu).wf(),
            final(mmu).prom == old(mmu).prom,
            final(mmu).crom == old(mmu).crom,
            final(mmu).mapper == old(mmu).mapper,
            final(self).clock_remain == old(self).clock_remain,
            instr_rel_rowe(*old(self), *old(mmu), *final(self), *final(mmu), 0xE6),
    {
        let ea = self.ea_zp(mmu);
        let m = mmu.read_1byte(ea);
        let r = self.inc_val(m);
        mmu.write(ea, r);
    }

    /// 0xE8: INX.
    #[verifier::rlimit(100)]
    fn op_e8(&mut self, mmu: &mut MMU)
        requires
            old(self).wf(),
            old(mmu).wf(),
        ensures
            final(self).wf(),
            final(mmu).wf(),
            final(mmu).prom == old(mmu).prom,
            final(mmu).crom == old(mmu).crom,
            final(mmu).mapper == old(mmu).mapper,
            final(self).clock_remain == old(self).clock_remain,
            instr_rel_rowe(*old(self), *old(mmu), *final(self), *final(mmu), 0xE8),
    {
        let r = self.x.wrapping_add(1);
        self.x = r;
        self.update_nz(r);
    }

    /// 0xE9: SBC immediate.
    #[verifier::rlimit(100)]
    fn op_e9(&mut self, mmu: &mut MMU)
        requires
            old(self).wf(),
            old(mmu).wf(),
        ensures
            final(self).wf(),
            final(mmu).wf(),
            final(mmu).prom == old(mmu).prom,
            final(mmu).crom == old(mmu).crom,
            final(mmu).mapper == old(mmu).mapper,
            final(self).clock_remain == old(self).clock_remain,
            instr_rel_rowe(*old(self), *old(mmu), *final(self), *final(mmu), 0xE9),
    {
        let ea = self.ea_imm();
        let m = mmu.read_1byte(ea);
        self.sbc(m);
    }

    /// 0xEA: NOP.
    #[verifier::rlimit(100)]
    fn op_ea(&mut self, mmu: &mut MMU)
        requires
            old(self).wf(),
            old(mmu).wf(),
        ensures
            final(self).wf(),
            final(mmu).wf(),
            final(mmu).prom == old(mmu).prom,
            final(mmu).crom == old(mmu).crom,
            final(mmu).mapper == old(mmu).mapper,
            final(self).clock_remain == old(self).clock_remain,
            instr_rel_rowe(*old(self), *old(mmu), *final(self), *final(mmu), 0xEA),
    {
        // NOP
    }

    /// 0xEC: CPX absolute.
    #[verifier::rlimit(100)]
    fn op_ec(&mut self, mmu: &mut MMU)
        requires
            old(self).wf(),
            old(mmu).wf(),
        ensures
            final(self).wf(),
            final(mmu).wf(),
            final(mmu).prom == old(mmu).prom,
            final(mmu).crom == old(mmu).crom,
            final(mmu).mapper == old(mmu).mapper,
            final(self).clock_remain == old(self).clock_remain,
            instr_rel_rowe(*old(self), *old(mmu), *final(self), *final(mmu), 0xEC),
    {
        let ea = self.ea_abs(mmu);
        let m = mmu.read_1byte(ea);
        let r = self.x;
        self.compare(r, m);
    }

    /// 0xED: SBC absolute.
    #[verifier::rlimit(100)]
    fn op_ed(&mut self, mmu: &mut MMU)
        requires
            old(self).wf(),
            old(mmu).wf(),
        ensures
            final(self).wf(),
            final(mmu).wf(),
            final(mmu).prom == old(mmu).prom,
            final(mmu).crom == old(mmu).crom,
            final(mmu).mapper == old(mmu).mapper,
            final(self).clock_remain == old(self).clock_remain,
            instr_rel_rowe(*old(self), *old(mmu), *final(self), *final(mmu), 0xED),
    {
        let ea = self.ea_abs(mmu);
        let m = mmu.read_1byte(ea);
        self.sbc(m);
    }

    /// 0xEE: INC absolute.
    #[verifier::rlimit(100)]
    fn op_ee(&mut self, mmu: &mut MMU)
        requires
            old(self).wf(),
            old(mmu).wf(),
        ensures
            final(self).wf(),
            final(mmu).wf(),
            final(mmu).prom == old(mmu).prom,
            final(mmu).crom == old(mmu).crom,
            final(mmu).mapper == old(mmu).mapper,
            final(self).clock_remain == old(self).clock_remain,
            instr_rel_rowe(*old(self), *old(mmu), *final(self), *final(mmu), 0xEE),
    {
        let ea = self.ea_abs(mmu);
        let m = mmu.read_1byte(ea);
        let r = self.inc_val(m);
        mmu.write(ea, r);
    }

    /// 0xF0: BEQ relative.
    #[verifier::rlimit(100)]
    fn op_f0(&mut self, mmu: &mut MMU)
        requires
            old(self).wf(),
            old(mmu).wf(),
        ensures
            final(self).wf(),
            final(mmu).wf(),
            final(mmu).prom == old(mmu).prom,
            final(mmu).crom == old(mmu).crom,
            final(mmu).mapper == old(mmu).mapper,
            final(self).clock_remain == old(self).clock_remain,
            instr_rel_rowf(*old(self), *old(mmu), *final(self), *final(mmu), 0xF0),
    {
        let ea = self.ea_rel(mmu);
        if self.p & 0x02 != 0 {
            self.pc = ea;
        }
    }

    /// 0xF1: SBC (indirect),Y.
    #[verifier::rlimit(100)]
    fn op_f1(&mut self, mmu: &mut MMU)
        requires
            old(self).wf(),
            old(mmu).wf(),
        ensures
            final(self).wf(),
            final(mmu).wf(),
            final(mmu).prom == old(mmu).prom,
            final(mmu).crom == old(mmu).crom,
            final(mmu).mapper == old(mmu).mapper,
            final(self).clock_remain == old(self).clock_remain,
            instr_rel_rowf(*old(self), *old(mmu), *final(self), *final(mmu), 0xF1),
    {
        let i = self.y;
        let ea = self.ea_ind_y(mmu, i);
        let m = mmu.read_1byte(ea);
        self.sbc(m);
    }

    /// 0xF5: SBC zero page,X.
    #[verifier::rlimit(100)]
    fn op_f5(&mut self, mmu: &mut MMU)
        requires
            old(self).wf(),
            old(mmu).wf(),
        ensures
            final(self).wf(),
            final(mmu).wf(),
            final(mmu).prom == old(mmu).prom,
            final(mmu).crom == old(mmu).crom,
            final(mmu).mapper == old(mmu).mapper,
            final(self).clock_remain == old(self).clock_remain,
            instr_rel_rowf(*old(self), *old(mmu), *final(self), *final(mmu), 0xF5),
    {
        let i = self.x;
        let ea = self.ea_zp_idx(mmu, i);
        let m = mmu.read_1byte(ea);
        self.sbc(m);
    }

    /// 0xF6: INC zero page,X.
    #[verifier::rlimit(100)]
    fn op_f6(&mut self, mmu: &mut MMU)
        requires
            old(self).wf(),
            old(mmu).wf(),
        ensures
            final(self).wf(),
            final(mmu).wf(),
            final(mmu).prom == old(mmu).prom,
            final(mmu).crom == old(mmu).crom,
            final(mmu).mapper == old(mmu).mapper,
            final(self).clock_remain == old(self).clock_remain,
            instr_rel_rowf(*old(self), *old(mmu), *final(self), *final(mmu), 0xF6),
    {
        let i = self.x;
        let ea = self.ea_zp_idx(mmu, i);
        let m = mmu.read_1byte(ea);
        let r = self.inc_val(m);
        mmu.write(ea, r);
    }

    /// 0xF8: SED.
    #[verifier::rlimit(100)]
    fn op_f8(&mut self, mmu: &mut MMU)
        requires
            old(self).wf(),
            old(mmu).wf(),
        ensures
            final(self).wf(),
            final(mmu).wf(),
            final(mmu).prom == old(mmu).prom,
            final(mmu).crom == old(mmu).crom,
            final(mmu).mapper == old(mmu).mapper,
            final(self).clock_remain == old(self).clock_remain,
            instr_rel_rowf(*old(self), *old(mmu), *final(self), *final(mmu), 0xF8),
    {
        self.set_d(true);
    }

    /// 0xF9: SBC absolute,Y.
    #[verifier::rlimit(100)]
    fn op_f9(&mut self, mmu: &mut MMU)
        requires
            old(self).wf(),
            old(mmu).wf(),
        ensures
            final(self).wf(),
            final(mmu).wf(),
            final(mmu).prom == old(mmu).prom,
            final(mmu).crom == old(mmu).crom,
            final(mmu).mapper == old(mmu).mapper,
            final(self).clock_remain == old(self).clock_remain,
            instr_rel_rowf(*old(self), *old(mmu), *final(self), *final(mmu), 0xF9),
    {
        let i = self.y;
        let ea = self.ea_abs_idx(mmu, i);
        let m = mmu.read_1byte(ea);
        self.sbc(m);
    }

    /// 0xFD: SBC absolute,X.
    #[verifier::rlimit(100)]
    fn op_fd(&mut self, mmu: &mut MMU)
        requires
            old(self).wf(),
            old(mmu).wf(),
        ensures
            final(self).wf(),
            final(mmu).wf(),
            final(mmu).prom == old(mmu).prom,
            final(mmu).crom == old(mmu).crom,
            final(mmu).mapper == old(mmu).mapper,
            final(self).clock_remain == old(self).clock_remain,
            instr_rel_rowf(*old(self), *old(mmu), *final(self), *final(mmu), 0xFD),
    {
        let i = self.x;
        let ea = self.ea_abs_idx(mmu, i);
        let m = mmu.read_1byte(ea);
        self.sbc(m);
    }

    /// 0xFE: INC absolute,X.
    #[verifier::rlimit(100)]
    fn op_fe(&mut self, mmu: &mut MMU)
        requires
            old(self).wf(),
            old(mmu).wf(),
        ensures
            final(self).wf(),
            final(mmu).wf(),
            final(mmu).prom == old(mmu).prom,
            final(mmu).crom == old(mmu).crom,
            final(mmu).mapper == old(mmu).mapper,
            final(self).clock_remain == old(self).clock_remain,
            instr_rel_rowf(*old(self), *old(mmu), *final(self), *final(mmu), 0xFE),
    {
        let i = self.x;
        let ea = self.ea_abs_idx(mmu, i);
        let m = mmu.read_1byte(ea);
        let r = self.inc_val(m);
        mmu.write(ea, r);
    }
}

} // verus!
