//! Audio-unit scenarios: the length-counter reload table, the noise
//! shift register, envelopes, the sweep mute rule, and back-pressure.

use nes_core::apu::APU;
use nes_core::apu_envelope::APUEnvelope;
use nes_core::apu_noise::APUNoise;
use nes_core::apu_square::APUSquare;
use nes_core::apu_triangle::APUTriangle;
use nes_core::events::EventQueue;
use nes_core::io::IO;

#[test]
fn length_counter_reload_table() {
    // The authoritative table: even indices count one way, odd the other.
    let even = [10u8, 20, 40, 80, 160, 60, 14, 26, 12, 24, 48, 96, 192, 72, 16, 32];
    let mut sq = APUSquare::new(1);
    for (k, want) in even.iter().enumerate() {
        let b = (2 * k as u8) << 3;
        sq.set_fq2(b);
        assert_eq!(sq.length_counter, *want, "even index {}", k);
    }
    let mut tri = APUTriangle::new();
    for k in 0..16u8 {
        let want = if k == 0 { 254 } else { 2 * k };
        let b = (2 * k + 1) << 3;
        tri.set_fq2(b);
        assert_eq!(tri.length_counter, want, "odd index {}", k);
    }
    // The low three bits of the write do not matter.
    let mut noise = APUNoise::new();
    noise.set_fq2(0x07);
    assert_eq!(noise.length_counter, 10);
}

#[test]
fn noise_lfsr_long_mode_sequence() {
    let mut n = APUNoise::new();
    assert_eq!(n.shift_reg, 1);
    let mut bits = Vec::new();
    for _ in 0..15 {
        n.next_seq();
        bits.push((n.shift_reg & 1) as u8);
    }
    // From seed 1 the maximal-length register shifts its lone bit down:
    // fourteen zero outputs, then the feedback arrives at the bottom.
    assert_eq!(bits, vec![0, 0, 0, 0, 0, 0, 0, 0, 0, 0, 0, 0, 0, 0, 1]);
    assert_eq!(n.shift_reg, 0x4001);
}

#[test]
fn noise_lfsr_short_mode_taps_bit_six() {
    let mut n = APUNoise::new();
    n.set_fq1(0x80); // short mode
    n.shift_reg = 0x0041; // bits 0 and 6 set: feedback is zero
    n.next_seq();
    assert_eq!(n.shift_reg, 0x0020);
    n.shift_reg = 0x0001; // only bit 0: feedback is one
    n.next_seq();
    assert_eq!(n.shift_reg, 0x4000);
}

#[test]
fn envelope_decays_and_loops() {
    let mut e = APUEnvelope::new();
    e.set_cr(0x20); // loop, divider 0
    e.reset();
    e.clock();
    assert_eq!(e.val, 15, "restart loads 15");
    for want in (0..15).rev() {
        e.clock();
        assert_eq!(e.val, want);
    }
    e.clock();
    assert_eq!(e.val, 15, "loop reloads after reaching zero");
}

#[test]
fn envelope_constant_volume_reads_the_nibble() {
    let mut e = APUEnvelope::new();
    e.set_cr(0x1A); // constant volume 10
    assert_eq!(e.val(), 10);
}

#[test]
fn length_counter_halt_bit_freezes_it() {
    let mut sq = APUSquare::new(1);
    sq.set_fq2(0x00); // length 10
    sq.set_cr1(0x20); // halt
    sq.length_clock();
    assert_eq!(sq.length_counter, 10);
    sq.set_cr1(0x00);
    sq.length_clock();
    assert_eq!(sq.length_counter, 9);
}

#[test]
fn sweep_mutes_when_target_leaves_range() {
    let mut sq = APUSquare::new(1);
    sq.set_fq1(0xFF);
    sq.set_fq2(0x07); // period 0x7FF, length loaded
    sq.set_cr2(0x81); // sweep on, upward, shift 1
    sq.sweep_clock(); // consume the restart
    sq.sweep_clock(); // divider is 0: the target 0x7FF + 0x3FF overflows
    assert_eq!(sq.length_counter, 0, "channel muted");
    assert_eq!(sq.cr2 & 0x80, 0, "sweep disabled itself");
}

#[test]
fn sweep_retunes_within_range() {
    let mut sq = APUSquare::new(1);
    sq.set_fq1(0x00);
    sq.set_fq2(0x01); // period 0x100
    sq.set_cr2(0x81); // sweep on, upward, shift 1
    sq.sweep_clock();
    sq.sweep_clock();
    assert_eq!(sq.clock_div, 0x180, "period moved by period >> 1");
}

#[test]
fn triangle_waveform_descends_then_ascends() {
    let mut t = APUTriangle::new();
    t.set_cr1(0x7F); // linear counter loaded, no halt
    t.set_fq1(0x00); // period 0 so every tick advances
    t.set_fq2(0x00); // length loaded
    let mut seen = Vec::new();
    for _ in 0..32 {
        t.clock();
        seen.push(t.val);
    }
    let mut want: Vec<u8> = (0..16).rev().collect();
    want.extend(0..16);
    assert_eq!(seen, want);
}

#[test]
fn channel_enable_clear_zeroes_length() {
    let mut apu = APU::new();
    apu.set_sw1_fq2(0x00);
    apu.set_tw_fq2(0x00);
    apu.set_noise_fq2(0x00);
    assert_eq!(apu.square1.length_counter, 10);
    apu.set_ch_ctrl(0x0A); // square 1 off, triangle off, square 2 + noise on
    assert_eq!(apu.square1.length_counter, 0);
    assert_eq!(apu.triangle.length_counter, 0);
    assert_eq!(apu.noise.length_counter, 10);
}

#[test]
fn frame_sequencer_four_step_raises_irq() {
    let mut apu = APU::new();
    let mut io = IO::new();
    let mut ev = EventQueue::new();
    apu.set_frame_cr(0x00); // four-step, IRQ unmasked
    // Step the sequencer four times: the divider fires at zero.
    let mut irqs = 0;
    for _ in 0..4 {
        apu.clock_frame = 0;
        apu.clock(&mut io, &mut ev);
    }
    while let Some(e) = ev.pop() {
        if matches!(e.event_type, nes_core::events::EventType::Irq) {
            irqs += 1;
        }
    }
    assert_eq!(irqs, 1, "one frame IRQ per four-step cycle");
    assert!(apu.frame.interrupted);
}

#[test]
fn five_step_mode_never_raises_irq() {
    let mut apu = APU::new();
    let mut io = IO::new();
    let mut ev = EventQueue::new();
    apu.set_frame_cr(0x80);
    for _ in 0..10 {
        apu.clock_frame = 0;
        apu.clock(&mut io, &mut ev);
    }
    assert!(ev.pop().is_none());
    assert!(!apu.frame.interrupted);
}

#[test]
fn resampler_stalls_on_full_ring_and_recovers() {
    let mut apu = APU::new();
    let mut io = IO::new();
    let mut ev = EventQueue::new();
    // Fill the ring to capacity.
    while io.write_audio(0) {}
    apu.render_clock = 0;
    apu.clock(&mut io, &mut ev);
    assert!(apu.stall, "full ring stalls the producer");
    // Drain one sample; the next attempt succeeds and clears the stall.
    io.read_audio();
    apu.render_clock = 0;
    apu.clock(&mut io, &mut ev);
    assert!(!apu.stall);
}
