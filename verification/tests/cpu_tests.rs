use rfc::bus::Bus;
use rfc::cpu::{
    AddressingMode, Cpu, CARRY, INTERRUPT_DISABLE, NEGATIVE, OVERFLOW, UNUSED, ZERO,
};

fn setup_cpu_with_ram(bytes: &[(u16, u8)]) -> (Cpu, Bus) {
    let cpu = Cpu::new();
    let mut bus = Bus::new();
    for &(addr, val) in bytes {
        bus.write(addr, val);
    }
    (cpu, bus)
}

#[test]
fn test_immediate() {
    let (mut cpu, mut bus) = setup_cpu_with_ram(&[(0x0000, 0x42)]);
    cpu.pc = 0x0000;
    let (addr, _) = cpu.resolve_address(&mut bus, AddressingMode::Immediate);
    assert_eq!(addr, 0x0000);
    assert_eq!(bus.read(addr), 0x42);
    assert_eq!(cpu.pc, 0x0001);
}

#[test]
fn test_zero_page() {
    let (mut cpu, mut bus) = setup_cpu_with_ram(&[(0x0000, 0x10), (0x0010, 0xAB)]);
    cpu.pc = 0x0000;
    let (addr, _) = cpu.resolve_address(&mut bus, AddressingMode::ZeroPage);
    assert_eq!(addr, 0x0010);
    assert_eq!(bus.read(addr), 0xAB);
}

#[test]
fn test_zero_page_x_wraps() {
    let (mut cpu, mut bus) = setup_cpu_with_ram(&[(0x0000, 0xFF), (0x0004, 0xBB)]);
    cpu.pc = 0x0000;
    cpu.x = 0x05;
    let (addr, _) = cpu.resolve_address(&mut bus, AddressingMode::ZeroPageX);
    assert_eq!(addr, 0x0004);
}

#[test]
fn test_absolute_x_page_cross() {
    let (mut cpu, mut bus) = setup_cpu_with_ram(&[(0x0000, 0xFF), (0x0001, 0x00)]);
    cpu.pc = 0x0000;
    cpu.x = 0x01;
    let (addr, page_crossed) = cpu.resolve_address(&mut bus, AddressingMode::AbsoluteX);
    assert_eq!(addr, 0x0100);
    assert!(page_crossed);
}

#[test]
fn test_indirect_y() {
    let (mut cpu, mut bus) =
        setup_cpu_with_ram(&[(0x0000, 0x10), (0x0010, 0x00), (0x0011, 0x03)]);
    cpu.pc = 0x0000;
    cpu.y = 0x05;
    let (addr, _) = cpu.resolve_address(&mut bus, AddressingMode::IndirectY);
    assert_eq!(addr, 0x0305);
}

#[test]
fn test_indirect_x() {
    let (mut cpu, mut bus) =
        setup_cpu_with_ram(&[(0x0000, 0x20), (0x0024, 0x00), (0x0025, 0x03)]);
    cpu.pc = 0x0000;
    cpu.x = 0x04;
    let (addr, _) = cpu.resolve_address(&mut bus, AddressingMode::IndirectX);
    assert_eq!(addr, 0x0300);
}

#[test]
fn test_cpu_new() {
    let cpu = Cpu::new();
    assert_eq!(cpu.a, 0);
    assert_eq!(cpu.x, 0);
    assert_eq!(cpu.y, 0);
    assert_eq!(cpu.sp, 0xFD);
    assert_eq!(cpu.pc, 0);
    assert_eq!(cpu.status, UNUSED | INTERRUPT_DISABLE);
}

#[test]
fn test_reset_reads_vector() {
    let mut cpu = Cpu::new();
    let mut bus = Bus::new();
    cpu.reset(&mut bus);
    assert_eq!(cpu.sp, 0xFD);
    assert_eq!(cpu.status, UNUSED | INTERRUPT_DISABLE);
    assert_eq!(cpu.cycles, 7);
}

#[test]
fn test_push_pull() {
    let mut cpu = Cpu::new();
    let mut bus = Bus::new();
    cpu.sp = 0xFF;
    cpu.push(&mut bus, 0x42);
    assert_eq!(cpu.sp, 0xFE);
    let val = cpu.pull(&mut bus);
    assert_eq!(val, 0x42);
    assert_eq!(cpu.sp, 0xFF);
}

#[test]
fn test_push16_pull16() {
    let mut cpu = Cpu::new();
    let mut bus = Bus::new();
    cpu.sp = 0xFF;
    cpu.push16(&mut bus, 0x1234);
    assert_eq!(cpu.sp, 0xFD);
    let val = cpu.pull16(&mut bus);
    assert_eq!(val, 0x1234);
}

#[test]
fn test_flag_operations() {
    let mut cpu = Cpu::new();
    cpu.set_flag(CARRY, true);
    assert!(cpu.get_flag(CARRY));
    cpu.set_flag(CARRY, false);
    assert!(!cpu.get_flag(CARRY));
}

#[test]
fn test_update_zero_and_negative() {
    let mut cpu = Cpu::new();
    cpu.update_zero_and_negative(0);
    assert!(cpu.get_flag(ZERO));
    assert!(!cpu.get_flag(NEGATIVE));

    cpu.update_zero_and_negative(0x80);
    assert!(!cpu.get_flag(ZERO));
    assert!(cpu.get_flag(NEGATIVE));

    cpu.update_zero_and_negative(0x01);
    assert!(!cpu.get_flag(ZERO));
    assert!(!cpu.get_flag(NEGATIVE));
}

#[test]
fn test_lda_immediate() {
    let (mut cpu, mut bus) = setup_cpu_with_ram(&[(0x0000, 0xA9), (0x0001, 0x42)]);
    cpu.pc = 0x0000;
    let cycles = cpu.step(&mut bus);
    assert_eq!(cpu.a, 0x42);
    assert_eq!(cycles, 2);
}

#[test]
fn test_lda_zero_flag() {
    let (mut cpu, mut bus) = setup_cpu_with_ram(&[(0x0000, 0xA9), (0x0001, 0x00)]);
    cpu.pc = 0x0000;
    cpu.step(&mut bus);
    assert!(cpu.get_flag(ZERO));
}

#[test]
fn test_sta_zero_page() {
    let (mut cpu, mut bus) = setup_cpu_with_ram(&[(0x0000, 0x85), (0x0001, 0x10)]);
    cpu.pc = 0x0000;
    cpu.a = 0x42;
    let cycles = cpu.step(&mut bus);
    assert_eq!(bus.read(0x0010), 0x42);
    assert_eq!(cycles, 3);
}

#[test]
fn test_jmp_absolute() {
    let (mut cpu, mut bus) =
        setup_cpu_with_ram(&[(0x0000, 0x4C), (0x0001, 0x00), (0x0002, 0x06)]);
    cpu.pc = 0x0000;
    cpu.step(&mut bus);
    assert_eq!(cpu.pc, 0x0600);
}

#[test]
fn test_adc_with_carry() {
    let (mut cpu, mut bus) = setup_cpu_with_ram(&[(0x0000, 0x69), (0x0001, 0x01)]);
    cpu.pc = 0x0000;
    cpu.a = 0xFF;
    cpu.step(&mut bus);
    assert_eq!(cpu.a, 0x00);
    assert!(cpu.get_flag(CARRY));
    assert!(cpu.get_flag(ZERO));
}

#[test]
fn test_adc_overflow() {
    let (mut cpu, mut bus) = setup_cpu_with_ram(&[(0x0000, 0x69), (0x0001, 0x50)]);
    cpu.pc = 0x0000;
    cpu.a = 0x50;
    cpu.step(&mut bus);
    assert_eq!(cpu.a, 0xA0);
    assert!(cpu.get_flag(OVERFLOW));
    assert!(cpu.get_flag(NEGATIVE));
}

#[test]
fn test_inx_wraps() {
    let (mut cpu, mut bus) = setup_cpu_with_ram(&[(0x0000, 0xE8)]);
    cpu.pc = 0x0000;
    cpu.x = 0xFF;
    cpu.step(&mut bus);
    assert_eq!(cpu.x, 0x00);
    assert!(cpu.get_flag(ZERO));
}

#[test]
fn test_bne_taken() {
    let (mut cpu, mut bus) = setup_cpu_with_ram(&[(0x0000, 0xD0), (0x0001, 0x02)]);
    cpu.pc = 0x0000;
    cpu.set_flag(ZERO, false);
    let cycles = cpu.step(&mut bus);
    assert_eq!(cpu.pc, 0x0004);
    assert_eq!(cycles, 3);
}

#[test]
fn test_bne_not_taken() {
    let (mut cpu, mut bus) = setup_cpu_with_ram(&[(0x0000, 0xD0), (0x0001, 0x02)]);
    cpu.pc = 0x0000;
    cpu.set_flag(ZERO, true);
    let cycles = cpu.step(&mut bus);
    assert_eq!(cpu.pc, 0x0002);
    assert_eq!(cycles, 2);
}

#[test]
fn test_jsr_rts() {
    let (mut cpu, mut bus) = setup_cpu_with_ram(&[
        (0x0000, 0x20),
        (0x0001, 0x00),
        (0x0002, 0x06),
        (0x0600, 0x60),
    ]);
    cpu.pc = 0x0000;
    cpu.sp = 0xFF;
    cpu.step(&mut bus);
    assert_eq!(cpu.pc, 0x0600);
    cpu.step(&mut bus);
    assert_eq!(cpu.pc, 0x0003);
}

#[test]
fn test_pha_pla() {
    let (mut cpu, mut bus) = setup_cpu_with_ram(&[
        (0x0000, 0x48), // PHA
        (0x0001, 0xA9),
        (0x0002, 0x00), // LDA #0
        (0x0003, 0x68), // PLA
    ]);
    cpu.pc = 0x0000;
    cpu.sp = 0xFF;
    cpu.a = 0x42;
    cpu.step(&mut bus);
    cpu.step(&mut bus);
    assert_eq!(cpu.a, 0x00);
    cpu.step(&mut bus);
    assert_eq!(cpu.a, 0x42);
}

#[test]
fn sbc_borrows() {
    // SEC; SBC #$01 with A = 0
    let (mut cpu, mut bus) = setup_cpu_with_ram(&[(0x0000, 0x38), (0x0001, 0xE9), (0x0002, 0x01)]);
    cpu.pc = 0;
    cpu.step(&mut bus);
    cpu.step(&mut bus);
    assert_eq!(cpu.a, 0xFF);
    assert!(!cpu.get_flag(CARRY));
    assert!(cpu.get_flag(NEGATIVE));
}

#[test]
fn absolute_x_read_takes_extra_cycle_on_page_cross() {
    // LDA $00FF,X with X = 1 reads $0100
    let (mut cpu, mut bus) =
        setup_cpu_with_ram(&[(0x0000, 0xBD), (0x0001, 0xFF), (0x0002, 0x00), (0x0100, 0x77)]);
    cpu.pc = 0;
    cpu.x = 1;
    let cycles = cpu.step(&mut bus);
    assert_eq!(cpu.a, 0x77);
    assert_eq!(cycles, 5);
}

#[test]
fn indirect_jump_wraps_within_page() {
    // JMP ($00FF): low byte from $00FF, high byte from $0000 (not $0100)
    let (mut cpu, mut bus) = setup_cpu_with_ram(&[
        (0x0010, 0x6C),
        (0x0011, 0xFF),
        (0x0012, 0x00),
        (0x00FF, 0x34),
        (0x0000, 0x12),
        (0x0100, 0x99),
    ]);
    cpu.pc = 0x0010;
    cpu.step(&mut bus);
    assert_eq!(cpu.pc, 0x1234);
}

#[test]
fn only_official_opcodes_decode() {
    assert!(rfc::cpu::decode(0x02).is_none());
    assert!(rfc::cpu::decode(0xFF).is_none());
    assert!(rfc::cpu::decode(0xEA).is_some());
    let official = (0u16..256).filter(|&op| rfc::cpu::decode(op as u8).is_some()).count();
    assert_eq!(official, 151);
}

#[test]
fn nmi_pushes_state_and_jumps_through_vector() {
    let mut cpu = Cpu::new();
    let mut bus = Bus::new();
    cpu.pc = 0x1234;
    cpu.sp = 0xFF;
    cpu.nmi(&mut bus);
    assert_eq!(cpu.sp, 0xFC);
    assert_eq!(bus.read(0x01FF), 0x12);
    assert_eq!(bus.read(0x01FE), 0x34);
    assert_eq!(bus.read(0x01FD) & 0x10, 0);
    assert!(cpu.get_flag(INTERRUPT_DISABLE));
    assert_eq!(cpu.pc, 0x0000);
    assert_eq!(cpu.cycles, 7);
}

#[test]
fn irq_is_masked_by_interrupt_disable() {
    let mut cpu = Cpu::new();
    let mut bus = Bus::new();
    cpu.pc = 0x4321;
    cpu.irq(&mut bus);
    assert_eq!(cpu.pc, 0x4321);
    cpu.set_flag(INTERRUPT_DISABLE, false);
    cpu.irq(&mut bus);
    assert_eq!(cpu.pc, 0x0000);
    assert!(cpu.get_flag(INTERRUPT_DISABLE));
}

#[test]
fn rti_returns_from_nmi() {
    // with no cartridge the NMI vector reads 0, where an RTI waits
    let (mut cpu, mut bus) = setup_cpu_with_ram(&[(0x0000, 0x40)]);
    cpu.pc = 0x0345;
    cpu.sp = 0xF0;
    cpu.status = CARRY | NEGATIVE;
    cpu.nmi(&mut bus);
    assert_eq!(cpu.pc, 0x0000);
    assert_eq!(cpu.sp, 0xED);
    let cycles = cpu.step(&mut bus);
    assert_eq!(cycles, 6);
    assert_eq!(cpu.pc, 0x0345);
    assert_eq!(cpu.sp, 0xF0);
    assert_eq!(cpu.status, CARRY | NEGATIVE | UNUSED);
}
