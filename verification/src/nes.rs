//! The master clock: one call of `clock` is one NTSC master cycle.
//!
//! Each cycle first routes one pending event — an NMI or IRQ to the CPU,
//! a DMA to a 514-instruction-cycle stall — then ticks the picture unit
//! every 4 master cycles, the CPU every 12, and the audio unit every 12,
//! in that order, so events raised in one cycle reach the CPU at the next.

use vstd::prelude::*;

use crate::apu::apu_tick_rel;
use crate::cartridge::Cartridge;
use crate::cpu::CPU;
use crate::cpu::cpu_tick_rel;
use crate::events::Event;
use crate::events::EventType;
use crate::mmu::MMU;
use crate::ppu::Mirror;
use crate::ppu::ppu_tick_rel;

verus! {

pub const CLOCK_DIV_CPU: u32 = 12;

pub const CLOCK_DIV_PPU: u32 = 4;

pub const CLOCK_DIV_APU: u32 = 12;

/// The sprite-DMA stall: 514 CPU cycles of master time.
pub const DMA_STALL: u32 = 514 * 12;

/// The CPU after one pending event has been routed to it: an NMI or IRQ
/// sets its pending flag (an NMI at once), a DMA or an empty queue
/// leaves it alone.
pub open spec fn routed_cpu(c: CPU, ev: Seq<Event>) -> CPU {
    if ev.len() > 0 && ev[0].event_type is Nmi {
        CPU { nmi_flag: true, clock_remain: 0, ..c }
    } else if ev.len() > 0 && ev[0].event_type is Irq {
        CPU { irq_flag: true, ..c }
    } else {
        c
    }
}

pub struct NES {
    pub cpu: CPU,
    pub mmu: MMU,
    /// Master-cycle countdowns to each unit's next tick.
    pub clock_cpu: u32,
    pub clock_ppu: u32,
    pub clock_apu: u32,
}

impl NES {
    pub open spec fn wf(&self) -> bool {
        &&& self.cpu.wf()
        &&& self.mmu.wf()
    }

    pub fn new() -> (n: NES)
        ensures
            n.wf(),
            n.clock_cpu == 0 && n.clock_ppu == 0 && n.clock_apu == 0,
            n.cpu == CPU::power_on(),
            n.mmu.events@.len() == 0,
            n.mmu.ppu.line == 0 && n.mmu.ppu.line_clock == 0 && n.mmu.ppu.frames == 0,
    {
        NES { cpu: CPU::new(), mmu: MMU::new(), clock_cpu: 0, clock_ppu: 0, clock_apu: 0 }
    }

    /// Install a parsed cartridge: PRG into the CPU window, CHR into the
    /// pattern tables, the mirroring and mapper as the header says.
    pub fn load_cartridge(&mut self, cart: &Cartridge)
        requires
            old(self).wf(),
            cart.wf(),
        ensures
            final(self).wf(),
            final(self).mmu.prom@.len() == 0x8000,
            forall|i: int|
                0 <= i < 0x8000 ==> final(self).mmu.prom@[i] == cart.prg@[i % (
                cart.prg@.len() as int)],
            final(self).mmu.crom@ == cart.chr@,
            final(self).mmu.ppu.mirror == (if cart.vertical_mirror {
                Mirror::Vertical
            } else {
                Mirror::Horizontal
            }),
            final(self).mmu.mapper == cart.mapper,
            final(self).cpu == old(self).cpu,
            final(self).mmu.wram == old(self).mmu.wram,
            final(self).mmu.events == old(self).mmu.events,
    {
        self.mmu.set_PROM(&cart.prg);
        self.mmu.set_CROM(&cart.chr);
        if cart.vertical_mirror {
            self.mmu.ppu.set_mirror(Mirror::Vertical);
        } else {
            self.mmu.ppu.set_mirror(Mirror::Horizontal);
        }
        self.mmu.set_mapper(cart.mapper);
    }

    /// Request the reset sequence of every unit.
    pub fn reset(&mut self)
        requires
            old(self).wf(),
        ensures
            final(self).wf(),
            final(self).cpu == (CPU {
                reset_flag: true,
                clock_remain: 0,
                ..old(self).cpu
            }),
            final(self).mmu.ppu == (crate::ppu::PPU {
                line: 0,
                line_clock: 0,
                ..old(self).mmu.ppu
            }),
            final(self).mmu.apu == (crate::apu::APU {
                clock_frame: 0,
                render_clock: 0,
                stall: false,
                ..old(self).mmu.apu
            }),
            *final(self) == (NES {
                cpu: final(self).cpu,
                mmu: final(self).mmu,
                ..*old(self)
            }),
            final(self).mmu == (MMU {
                ppu: final(self).mmu.ppu,
                apu: final(self).mmu.apu,
                ..old(self).mmu
            }),
    {
        self.cpu.reset();
        self.mmu.ppu.reset();
        self.mmu.apu.reset();
    }

    /// One master cycle: route one pending event, then tick each unit
    /// whose divider has elapsed. A routed DMA charges the CPU divider
    /// with the full stall; a routed NMI or IRQ is seen by the CPU from
    /// its next tick on.
    pub fn clock(&mut self) -> (g: Ghost<(MMU, MMU)>)
        requires
            old(self).wf(),
            old(self).mmu.ppu.frames < u64::MAX,
        ensures
            final(self).wf(),
            ({
                let (mp, mc) = g@;
                let ev0 = if old(self).mmu.events@.len() > 0 {
                    old(self).mmu.events@.drop_first()
                } else {
                    old(self).mmu.events@
                };
                let cr = routed_cpu(old(self).cpu, old(self).mmu.events@);
                let dma = old(self).mmu.events@.len() > 0 && old(self).mmu.events@[0].event_type is Dma;
                // The picture stage runs first on the machine with the head
                // event consumed ...
                &&& old(self).clock_ppu == 0 ==> ppu_tick_rel(
                    old(self).mmu.ppu,
                    old(self).mmu.io,
                    ev0,
                    mp.ppu,
                    mp.io,
                    mp.events@,
                ) && mp == (MMU { ppu: mp.ppu, io: mp.io, events: mp.events, ..old(self).mmu })
                &&& old(self).clock_ppu != 0 ==> mp == (MMU {
                    events: mp.events,
                    ..old(self).mmu
                }) && mp.events@ == ev0
                // ... then the processor steps on that machine, unless a DMA
                // stall was just charged ...
                &&& old(self).clock_cpu == 0 && !dma ==> cpu_tick_rel(cr, mp, final(self).cpu, mc)
                &&& !(old(self).clock_cpu == 0 && !dma) ==> mc == mp && final(self).cpu == cr
                // ... and the audio unit last.
                &&& old(self).clock_apu == 0 ==> apu_tick_rel(
                    mc.apu,
                    mc.io,
                    mc.events@,
                    final(self).mmu.apu,
                    final(self).mmu.io,
                    final(self).mmu.events@,
                ) && final(self).mmu == (MMU {
                    apu: final(self).mmu.apu,
                    io: final(self).mmu.io,
                    events: final(self).mmu.events,
                    ..mc
                })
                &&& old(self).clock_apu != 0 ==> final(self).mmu == mc
            }),
            ({
                let dma = old(self).mmu.events@.len() > 0 && old(self).mmu.events@[0].event_type is Dma;
                final(self).clock_cpu == if dma {
                    DMA_STALL - 1
                } else if old(self).clock_cpu == 0 {
                    CLOCK_DIV_CPU - 1
                } else {
                    old(self).clock_cpu - 1
                }
            }),
            final(self).clock_ppu == if old(self).clock_ppu == 0 {
                CLOCK_DIV_PPU - 1
            } else {
                old(self).clock_ppu - 1
            },
            final(self).clock_apu == if old(self).clock_apu == 0 {
                CLOCK_DIV_APU - 1
            } else {
                old(self).clock_apu - 1
            },
            ({
                let dma = old(self).mmu.events@.len() > 0 && old(self).mmu.events@[0].event_type is Dma;
                old(self).mmu.events@.len() > 0 && (dma || old(self).clock_cpu != 0) ==> final(self).cpu == (CPU {
                    nmi_flag: old(self).cpu.nmi_flag || old(self).mmu.events@[0].event_type is Nmi,
                    irq_flag: old(self).cpu.irq_flag || old(self).mmu.events@[0].event_type is Irq,
                    clock_remain: if old(self).mmu.events@[0].event_type is Nmi {
                        0u32
                    } else {
                        old(self).cpu.clock_remain
                    },
                    ..old(self).cpu
                })
            }),
            old(self).mmu.events@.len() == 0 && old(self).clock_cpu != 0 ==> final(self).cpu == old(self).cpu,
            old(self).clock_ppu == 0 && old(self).clock_cpu != 0 ==> ({
                let p = old(self).mmu.ppu;
                let q = final(self).mmu.ppu;
                &&& p.line_clock < 340 ==> q.line_clock == p.line_clock + 1 && q.line == p.line
                    && q.frames == p.frames
                &&& p.line_clock == 340 && p.line < 261 ==> q.line_clock == 0 && q.line == p.line
                    + 1 && q.frames == p.frames
                &&& p.line_clock == 340 && p.line == 261 ==> q.line_clock == 0 && q.line == 0
                    && q.frames == p.frames + 1
            }),
            old(self).clock_ppu != 0 && old(self).clock_cpu != 0 ==> final(self).mmu.ppu == old(self).mmu.ppu,
    {
        let ghost mut g_mid: MMU = self.mmu;
        let ghost mut g_post: MMU = self.mmu;
        let ev = self.mmu.events.pop();
        match ev {
            Some(e) => {
                match e.event_type {
                    EventType::Nmi => {
                        self.cpu.nmi();
                    },
                    EventType::Irq => {
                        self.cpu.irq();
                    },
                    EventType::Dma(_) => {
                        self.clock_cpu = DMA_STALL;
                    },
                }
            },
            None => {},
        }
        if self.clock_ppu == 0 {
            let m = &mut self.mmu;
            m.ppu.clock(&mut m.io, &mut m.events);
            self.clock_ppu = CLOCK_DIV_PPU - 1;
        } else {
            self.clock_ppu = self.clock_ppu - 1;
        }
        proof {
            g_mid = self.mmu;
        }
        if self.clock_cpu == 0 {
            self.cpu.clock(&mut self.mmu);
            self.clock_cpu = CLOCK_DIV_CPU - 1;
        } else {
            self.clock_cpu = self.clock_cpu - 1;
        }
        proof {
            g_post = self.mmu;
        }
        if self.clock_apu == 0 {
            let m = &mut self.mmu;
            m.apu.clock(&mut m.io, &mut m.events);
            self.clock_apu = CLOCK_DIV_APU - 1;
        } else {
            self.clock_apu = self.clock_apu - 1;
        }
        Ghost((g_mid, g_post))
    }

    /// One master cycle of the test-ROM protocol: run the machine, and
    /// when the CPU ticked, report the two work-RAM result bytes if
    /// either is set.
    pub fn clock_nestest(&mut self) -> (r: Option<(u8, u8)>)
        requires
            old(self).wf(),
            old(self).mmu.ppu.frames < u64::MAX,
        ensures
            final(self).wf(),
            r is Some <==> old(self).clock_cpu == 0 && (final(self).mmu.wram@[0x02] != 0 || final(self).mmu.wram@[0x03] != 0),
            r is Some ==> (r->Some_0).0 == final(self).mmu.wram@[0x02] && (r->Some_0).1 == final(self).mmu.wram@[0x03],
    {
        let ticked = self.clock_cpu == 0;
        let _stages = self.clock();
        if ticked {
            let m2 = self.mmu.peek_02();
            let m3 = self.mmu.peek_03();
            if m2 != 0 || m3 != 0 {
                Some((m2, m3))
            } else {
                None
            }
        } else {
            None
        }
    }
}

} // verus!
