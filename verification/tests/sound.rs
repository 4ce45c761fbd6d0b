use tetsuyu::blip::buffer::BlipBuf;
use tetsuyu::components::apu::volume_envelope::VolumeEnvelope;
use tetsuyu::gpu::GPU;

#[test]
fn blip_new_is_empty() {
    let b = BlipBuf::new(100);
    assert_eq!(b.samples_avail(), 0);
    assert_eq!(b.clocks_needed(1), 1 << 20);
}

#[test]
fn blip_end_frame_makes_samples_available() {
    let mut b = BlipBuf::new(64);
    // Half a sample per clock.
    b.set_factor(1 << 19);
    b.end_frame(10);
    assert_eq!(b.samples_avail(), 5);
    b.end_frame(3);
    assert_eq!(b.samples_avail(), 6);
    // With half a sample carried over, one more clock gives the 7th.
    assert_eq!(b.clocks_needed(1), 1);
}

#[test]
fn blip_step_integrates_to_level() {
    let mut b = BlipBuf::new(64);
    b.set_factor(1 << 20);
    b.add_delta_fast(0, 1000);
    b.end_frame(4);
    let mut out = [0i32; 4];
    let n = b.read_samples(&mut out, 4, false);
    assert_eq!(n, 4);
    assert_eq!(b.samples_avail(), 0);
    assert_eq!(out[0], 0);
    // The delta lands seven samples in: the first samples read stay silent.
    assert_eq!(out, [0, 0, 0, 0]);
}

#[test]
fn blip_band_limited_step_integrates_to_level() {
    let mut b = BlipBuf::new(64);
    b.set_factor(1 << 20);
    assert_eq!(b.factor(), 1 << 20);
    assert_eq!(b.offset(), 0);
    // At phase 0 the kernel's eight taps sum to 32768: the level rises to
    // the delta and then decays through the high-pass filter.
    b.add_delta_scaled(0, 1000);
    b.end_frame(12);
    let mut out = [0i32; 12];
    assert_eq!(b.read_samples(&mut out, 12, false), 12);
    assert_eq!(out, [0, 180, 148, 193, 163, 208, 176, 356, 997, 995, 993, 991]);
}

#[test]
fn blip_band_limited_step_between_phases() {
    let mut b = BlipBuf::new(64);
    b.set_factor(1 << 20);
    // One sample in, phase 5, and 12345/32768 of the way to phase 6.
    b.add_delta_scaled((1 << 20) + (5 << 15) + 12345, -300);
    b.end_frame(12);
    let mut out = [0i32; 12];
    assert_eq!(b.read_samples(&mut out, 12, false), 12);
    assert_eq!(out, [0, 0, -86, -72, -87, -79, -89, -86, -113, -299, -299, -298]);
}

#[test]
fn blip_read_stereo_leaves_gaps() {
    let mut b = BlipBuf::new(16);
    b.set_factor(1 << 20);
    b.end_frame(2);
    let mut out = [7i32; 4];
    assert_eq!(b.read_samples(&mut out, 8, true), 2);
    assert_eq!(out, [0, 7, 0, 7]);
}

#[test]
fn blip_clear_resets() {
    let mut b = BlipBuf::new(8);
    b.set_factor(1 << 20);
    b.end_frame(3);
    b.clear();
    assert_eq!(b.samples_avail(), 0);
}

#[test]
fn gpu_registers_read_back() {
    let mut g = GPU::new();
    g.write(0xFF42, 0x12);
    g.write(0xFF4B, 0x07);
    g.write(0xFF40, 0x91);
    g.write(0xFF44, 0x99);
    assert_eq!(g.read(0xFF42), 0x12);
    assert_eq!(g.read(0xFF4B), 0x07);
    assert_eq!(g.read(0xFF40), 0x91);
    assert_eq!(g.read(0xFF44), 0x00);
    assert_eq!(g.read(0xFF00), 0x00);
}

#[test]
fn envelope_register_round_trip() {
    let mut e = VolumeEnvelope::new();
    e.write(0xA3);
    assert_eq!(e.read(), 0xA3);
    assert_eq!(e.period, 3);
    assert!(!e.positive);
    e.write(0x5D);
    assert_eq!(e.read(), 0x5D);
    assert!(e.positive);
}

#[test]
fn envelope_decays_every_period() {
    let mut e = VolumeEnvelope::new();
    e.write(0xF2);
    e.reload();
    assert_eq!(e.volume, 15);
    e.tick();
    assert_eq!(e.volume, 15);
    e.tick();
    assert_eq!(e.volume, 14);
    for _ in 0..28 {
        e.tick();
    }
    assert_eq!(e.volume, 0);
    // At the bottom the envelope stops.
    e.tick();
    e.tick();
    assert_eq!(e.volume, 0);
}

#[test]
fn envelope_rises_and_stops_at_fifteen() {
    let mut e = VolumeEnvelope::new();
    e.write(0xD9);
    e.reload();
    assert_eq!(e.volume, 13);
    e.tick();
    e.tick();
    assert_eq!(e.volume, 15);
    e.tick();
    assert_eq!(e.volume, 15);
}

#[test]
fn envelope_period_zero_is_frozen() {
    let mut e = VolumeEnvelope::new();
    e.write(0x80);
    e.reload();
    e.tick();
    assert_eq!(e.volume, 8);
}

#[test]
fn envelope_zombie_write() {
    let mut e = VolumeEnvelope::new();
    e.write(0x38);
    e.reload();
    assert_eq!(e.volume, 3);
    // Running with period 0: +1. Direction unchanged (increase).
    e.write(0x08);
    assert_eq!(e.volume, 4);
    // Period 0, running: +1, then the direction flips: 16 - 5 = 11.
    e.write(0x00);
    assert_eq!(e.volume, 11);
    // Decreasing, period 0 and running: +1 again.
    e.write(0x00);
    assert_eq!(e.volume, 12);
    e.clear();
    assert_eq!(e.volume, 0);
    assert_eq!(e.read(), 0);
    // Stopped and decreasing: +2.
    e.write(0x00);
    assert_eq!(e.volume, 2);
}

#[test]
fn blip_stereo_read_into_odd_length_buffer() {
    let mut b = BlipBuf::new(64);
    b.set_factor(1 << 20);
    b.end_frame(2);
    assert_eq!(b.samples_avail(), 2);
    // Two stereo samples land at 0 and 2: three slots are enough.
    let mut out = [7i32; 3];
    assert_eq!(b.read_samples(&mut out, 2, true), 2);
    assert_eq!(out, [0, 7, 0]);
    assert_eq!(b.samples_avail(), 0);
}
