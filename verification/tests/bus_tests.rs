//! Bus scenarios: work-RAM round trips and mirroring, ROM purity, the
//! pad-port protocol, register routing, and the indirect helpers.

use nes_core::mmu::MMU;

#[test]
fn wram_write_then_read_returns_value() {
    let mut m = MMU::new();
    for (a, v) in [(0x0000u16, 0x00u8), (0x0013, 0x37), (0x07FF, 0xFF), (0x0400, 0x80)] {
        m.write(a, v);
        assert_eq!(m.read_1byte(a), v);
    }
}

#[test]
fn wram_mirrors_every_2k() {
    let mut m = MMU::new();
    m.write(0x0123, 0x42);
    assert_eq!(m.read_1byte(0x0923), 0x42);
    assert_eq!(m.read_1byte(0x1123), 0x42);
    assert_eq!(m.read_1byte(0x1923), 0x42);
    m.write(0x1FFF, 0x24);
    assert_eq!(m.read_1byte(0x07FF), 0x24);
}

#[test]
fn prg_reads_are_pure() {
    let mut m = MMU::new();
    let mut prg = vec![0u8; 0x8000];
    prg[0x0000] = 0x11;
    prg[0x7FFF] = 0x99;
    m.set_PROM(&prg);
    for _ in 0..3 {
        assert_eq!(m.read_1byte(0x8000), 0x11);
        assert_eq!(m.read_1byte(0xFFFF), 0x99);
    }
    // Writes to the ROM window are ignored.
    m.write(0x8000, 0x55);
    assert_eq!(m.read_1byte(0x8000), 0x11);
}

#[test]
fn small_prg_bank_is_mirrored() {
    let mut m = MMU::new();
    let mut prg = vec![0u8; 0x4000];
    prg[0x0005] = 0xAB;
    m.set_PROM(&prg);
    assert_eq!(m.read_1byte(0x8005), 0xAB);
    assert_eq!(m.read_1byte(0xC005), 0xAB, "16 KiB bank fills both halves");
}

#[test]
fn pad_strobe_then_read_cycles_buttons() {
    let mut m = MMU::new();
    // Press A, Start, Right on port 1.
    m.io.pad.set_a(0, 1);
    m.io.pad.set_start(0, 1);
    m.io.pad.set_right(0, 1);
    m.write(0x4016, 1);
    m.write(0x4016, 0);
    let want = [1u8, 0, 0, 1, 0, 0, 0, 1];
    for cycle in 0..2 {
        for (k, w) in want.iter().enumerate() {
            assert_eq!(m.read_1byte(0x4016), *w, "cycle {} bit {}", cycle, k);
        }
    }
}

#[test]
fn pad_ports_are_independent() {
    let mut m = MMU::new();
    m.io.pad.set_b(1, 1);
    m.write(0x4016, 1);
    m.write(0x4016, 0);
    assert_eq!(m.read_1byte(0x4017), 0, "port 2 bit A");
    assert_eq!(m.read_1byte(0x4017), 1, "port 2 bit B");
    assert_eq!(m.read_1byte(0x4016), 0, "port 1 unaffected");
}

#[test]
fn length_registers_route_to_channels() {
    let mut m = MMU::new();
    m.write(0x4003, 0x00);
    m.write(0x4007, 0x08);
    m.write(0x400B, 0x10);
    m.write(0x400F, 0x18);
    assert_eq!(m.apu.square1.length_counter, 10);
    assert_eq!(m.apu.square2.length_counter, 254);
    assert_eq!(m.apu.triangle.length_counter, 20);
    assert_eq!(m.apu.noise.length_counter, 2);
}

#[test]
fn oam_dma_copies_a_page_and_queues_the_event() {
    let mut m = MMU::new();
    for i in 0..256u16 {
        m.write(0x0200 + i, (i as u8).wrapping_mul(3));
    }
    m.write(0x4014, 0x02);
    for i in 0..256usize {
        assert_eq!(m.ppu.sprite_mem[i], (i as u8).wrapping_mul(3));
    }
    let e = m.events.pop().expect("DMA event queued");
    assert!(matches!(e.event_type, nes_core::events::EventType::Dma(0x02)));
}

#[test]
fn unmapped_reads_are_open_bus() {
    let mut m = MMU::new();
    assert_eq!(m.read_1byte(0x5000), 0xFF);
    assert_eq!(m.read_1byte(0x2003), 0xFF);
    // And unmapped writes change nothing observable.
    m.write(0x5000, 0x12);
    assert_eq!(m.read_1byte(0x5000), 0xFF);
}

#[test]
fn read16_is_little_endian() {
    let mut m = MMU::new();
    m.write(0x0010, 0x34);
    m.write(0x0011, 0x12);
    assert_eq!(m.read_2bytes(0x0010), 0x1234);
}

#[test]
fn indirect_x_wraps_in_zero_page() {
    let mut m = MMU::new();
    m.write(0x0002, 0x20); // operand byte
    m.write(0x00FF, 0x34); // pointer low at (0x20 + 0xDF) wrapped
    m.write(0x0000, 0x12); // pointer high wraps to 0x00
    assert_eq!(m.indirect_x(0x0002, 0xDF), 0x1234);
}

#[test]
fn indirect_y_adds_after_the_pointer() {
    let mut m = MMU::new();
    m.write(0x0004, 0x10);
    m.write(0x0010, 0x00);
    m.write(0x0011, 0x30);
    assert_eq!(m.indirect_y(0x0004, 0x05), 0x3005);
}

#[test]
fn stack_helpers_push_high_then_low() {
    let mut m = MMU::new();
    m.push_2bytes(0x01FD, 0x8002);
    assert_eq!(m.wram[0x01FD], 0x80);
    assert_eq!(m.wram[0x01FC], 0x02);
    assert_eq!(m.pop_2bytes(0x01FB), 0x8002);
}

#[test]
fn ppu_registers_route_through_the_bus() {
    let mut m = MMU::new();
    m.write(0x2006, 0x21);
    m.write(0x2006, 0x08);
    m.write(0x2007, 0x77);
    m.write(0x2006, 0x21);
    m.write(0x2006, 0x08);
    let _stale = m.read_1byte(0x2007);
    assert_eq!(m.read_1byte(0x2007), 0x77);
}
