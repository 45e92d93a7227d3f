use rfc::bus::Bus;
use rfc::cartridge::Cartridge;
use rfc::console::Console;

/// An NROM image whose reset vector points at an endless `JMP $8000`.
fn looping_rom() -> Vec<u8> {
    let mut data = vec![0x4E, 0x45, 0x53, 0x1A, 2, 1, 0, 0];
    data.extend_from_slice(&[0u8; 8]);
    let mut prg = vec![0u8; 32768];
    prg[0] = 0x4C; // JMP $8000
    prg[1] = 0x00;
    prg[2] = 0x80;
    prg[0x7FFC] = 0x00;
    prg[0x7FFD] = 0x80;
    data.extend(prg);
    data.extend(vec![0u8; 8192]);
    data
}

#[test]
fn reset_starts_at_the_reset_vector() {
    let cart = Cartridge::from_ines(&looping_rom()).unwrap();
    let mut bus = Bus::new();
    bus.load_cartridge(cart);
    let mut console = Console::new(bus);
    console.reset();
    assert_eq!(console.cpu.pc, 0x8000);
    assert_eq!(console.cpu.cycles, 7);
}

#[test]
fn step_frame_runs_one_frame() {
    let cart = Cartridge::from_ines(&looping_rom()).unwrap();
    let mut bus = Bus::new();
    bus.load_cartridge(cart);
    let mut console = Console::new(bus);
    console.reset();
    let levels = console.step_frame();
    assert!(console.bus.frame_complete());
    // JMP takes 3 cycles; a frame is 262 * 341 dots, 3 dots per cycle
    assert!(levels.len() >= 29780 && levels.len() <= 29784);
    assert_eq!(console.cpu.pc, 0x8000);
    assert_eq!(console.frame_buffer().len(), 256 * 240 * 4);
    // no DMA and no interrupts: the cycle count grew by one per APU sample
    assert_eq!(console.cpu.cycles, 7 + levels.len() as u64);
    assert_eq!(console.bus.apu.cycles, levels.len() as u64);
}
