use rfc::apu::Apu;

#[test]
fn test_apu_new() {
    let apu = Apu::new();
    assert_eq!(apu.cycles, 0);
    assert_eq!(apu.pulse1.enabled, false);
    assert_eq!(apu.triangle.enabled, false);
    assert_eq!(apu.noise.shift_register, 1);
}

#[test]
fn test_status_register() {
    let mut apu = Apu::new();
    apu.write(0x4015, 0x0F);
    assert!(apu.pulse1.enabled);
    assert!(apu.pulse2.enabled);
    assert!(apu.triangle.enabled);
    assert!(apu.noise.enabled);
    assert_eq!(apu.read(0x4015), 0x00);
    apu.write(0x4003, 0x08);
    apu.write(0x4007, 0x08);
    apu.write(0x400B, 0x08);
    apu.write(0x400F, 0x08);
    assert_eq!(apu.read(0x4015), 0x0F);
    apu.write(0x4015, 0x0E);
    assert_eq!(apu.pulse1.length_counter, 0);
    assert_eq!(apu.read(0x4015) & 0x01, 0);
}

#[test]
fn test_pulse_register_writes() {
    let mut apu = Apu::new();
    apu.write(0x4015, 0x01);
    apu.write(0x4000, 0xBF);
    assert_eq!(apu.pulse1.duty, 2);
    assert!(apu.pulse1.length_halt);
    assert!(apu.pulse1.constant_volume);
    assert_eq!(apu.pulse1.volume, 15);
    apu.write(0x4002, 0xFD);
    apu.write(0x4003, 0x00);
    assert_eq!(apu.pulse1.timer & 0xFF, 0xFD);
}

#[test]
fn length_table_loads_counter() {
    let mut apu = Apu::new();
    apu.write(0x4015, 0x01);
    apu.write(0x4003, 0x08); // index 1
    assert_eq!(apu.pulse1.length_counter, 254);
    apu.write(0x4003, 0xF8); // index 31
    assert_eq!(apu.pulse1.length_counter, 30);
}

#[test]
fn disabled_channel_ignores_length_load() {
    let mut apu = Apu::new();
    apu.write(0x4007, 0x08);
    assert_eq!(apu.pulse2.length_counter, 0);
}

#[test]
fn silent_apu_has_silent_levels() {
    let mut apu = Apu::new();
    let l = apu.step();
    assert_eq!(l.pulse1, 0);
    assert_eq!(l.pulse2, 0);
    assert_eq!(l.noise, 0);
    assert_eq!(apu.cycles, 1);
}

#[test]
fn disabled_channel_stays_silent() {
    let mut apu = Apu::new();
    apu.write(0x4015, 0x0F);
    apu.write(0x400F, 0x08);
    assert_eq!(apu.noise.length_counter, 254);
    apu.write(0x4015, 0x07);
    assert_eq!(apu.noise.length_counter, 0);
    apu.write(0x400F, 0x08);
    assert_eq!(apu.noise.length_counter, 0);
    assert_eq!(apu.read(0x4015) & 0x08, 0);
}
