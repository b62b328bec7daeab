//! Whole-machine scenarios: the master-clock dividers, the DMA stall,
//! the frame counter observed through the status port, and the test-ROM
//! reporting protocol.

use nes_core::cartridge::Cartridge;
use nes_core::nes::NES;

fn prg_with(program: &[u8]) -> Vec<u8> {
    let mut prg = vec![0u8; 0x4000];
    prg[..program.len()].copy_from_slice(program);
    prg[0x3FFC] = 0x00;
    prg[0x3FFD] = 0x80;
    prg
}

fn machine_with(program: &[u8]) -> NES {
    let mut nes = NES::new();
    let cart = Cartridge { prg: prg_with(program), chr: vec![0u8; 0x2000], vertical_mirror: false, mapper: 0 };
    nes.load_cartridge(&cart);
    nes
}

#[test]
fn clock_dividers_tick_the_units() {
    let mut nes = machine_with(&[0xEA]);
    nes.reset();
    // 12 master cycles advance the PPU three dots and the CPU one tick.
    for _ in 0..12 {
        nes.clock();
    }
    assert_eq!(nes.mmu.ppu.line_clock, 3);
    assert_eq!(nes.cpu.clock_remain, 7, "the reset sequence ran and billed 7");
}

#[test]
fn oam_dma_stall_charges_the_scheduler() {
    let mut nes = machine_with(&[0xEA]);
    for i in 0..256u16 {
        nes.mmu.write(0x0200 + i, i as u8);
    }
    nes.mmu.write(0x4014, 0x02);
    for i in 0..256usize {
        assert_eq!(nes.mmu.ppu.sprite_mem[i], i as u8);
    }
    // The next master cycle pops the DMA event and charges the stall.
    nes.clock();
    assert_eq!(nes.clock_cpu, 514 * 12 - 1);
    // The CPU does not tick again until the charge has elapsed.
    for _ in 0..(514 * 12 - 1) {
        assert!(nes.clock_cpu > 0);
        nes.clock();
    }
    assert_eq!(nes.clock_cpu, 0, "the stall elapses after exactly 514 x 12 master cycles");
}

#[test]
fn nmi_event_reaches_the_cpu_next_cycle() {
    let mut nes = machine_with(&[0xEA]);
    nes.mmu.events.push(nes_core::events::Event::new(nes_core::events::EventType::Nmi));
    nes.clock_cpu = 5; // the CPU is between ticks
    nes.clock();
    assert!(nes.cpu.nmi_flag, "the event was routed to the CPU");
}

#[test]
fn frame_counter_via_status_port() {
    // Disable NMI, then spin on the status port until VBlank appears.
    //   8000: LDA #$00; STA $2000
    //   8005: LDA $2002; BPL $8005
    //   800A: JMP $8005
    let mut nes = machine_with(&[
        0xA9, 0x00, 0x8D, 0x00, 0x20, 0xAD, 0x02, 0x20, 0x10, 0xFB, 0x4C, 0x05, 0x80,
    ]);
    nes.reset();
    let mut master: u64 = 0;
    let mut exits: Vec<u64> = Vec::new();
    while exits.len() < 3 && master < 5 * 357368 {
        nes.clock();
        master += 1;
        if nes.cpu.pc == 0x800A && exits.last() != Some(&master) {
            // The loop fell through: bit 7 of the last status read was set.
            if exits.is_empty() || master - exits[exits.len() - 1] > 1000 {
                assert_ne!(nes.cpu.a & 0x80, 0, "the read that ended the wait saw VBlank");
                exits.push(master);
            }
        }
    }
    assert_eq!(exits.len(), 3, "three VBlanks observed");
    // Successive observations are one frame apart: about 29780 CPU cycles.
    for w in exits.windows(2) {
        let cpu_cycles = (w[1] - w[0]) / 12;
        assert!(
            (29700..29900).contains(&cpu_cycles),
            "frame period {} CPU cycles",
            cpu_cycles
        );
    }
    // The spin loop keeps reading the port, so the flag is clear again.
    assert_eq!(nes.mmu.ppu.sr & 0x80, 0);
    assert_eq!(nes.mmu.ppu.write_mode, 0, "the status reads reset the latch");
}

#[test]
fn nestest_mode_reports_result_bytes() {
    // The test-ROM protocol: a program stores a nonzero byte at 0x0002.
    //   8000: LDA #$42; STA $0002; NOP; ...
    let mut nes = machine_with(&[0xA9, 0x42, 0x85, 0x02, 0xEA, 0x4C, 0x04, 0x80]);
    nes.cpu.set_pc(0x8000);
    let mut seen = None;
    for _ in 0..500 {
        if let Some(pair) = nes.clock_nestest() {
            seen = Some(pair);
            break;
        }
    }
    assert_eq!(seen, Some((0x42, 0x00)));
}

#[test]
fn reset_requests_every_unit() {
    let mut nes = machine_with(&[0xEA]);
    nes.mmu.ppu.line = 100;
    nes.mmu.ppu.line_clock = 17;
    nes.reset();
    assert!(nes.cpu.reset_flag);
    assert_eq!(nes.mmu.ppu.line, 0);
    assert_eq!(nes.mmu.ppu.line_clock, 0);
    assert!(!nes.mmu.apu.stall);
}
