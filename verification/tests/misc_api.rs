use gbc_core::Cart;
use gbc_core::CpuClock;
use gbc_core::GameboyType;
use gbc_core::Opcode;
use gbc_core::Ram;
use gbc_core::SpeedSwitch;
use gbc_core::Spu;
use gbc_core::to_opcode;

#[test]
fn cpu_clock_values() {
    assert_eq!(CpuClock::Normal.value(), 4_194_304);
    assert_eq!(CpuClock::Double.value(), 8_388_608);
}

#[test]
fn to_opcode_names_known_bytes() {
    assert_eq!(to_opcode(0x00), Opcode::Nop);
    assert_eq!(to_opcode(0xc3), Opcode::Jp);
}

#[test]
fn speed_switch_stores_byte() {
    let mut s = SpeedSwitch::new();
    assert_eq!(s.read(), 0);
    s.write(0x81);
    assert_eq!(s.read(), 0x81);
}

#[test]
fn audio_registers_read_back() {
    let mut spu = Spu::new();
    assert_eq!(spu.read(0xff10), 0);
    spu.write(0xff26, 0x80);
    assert_eq!(spu.read(0xff26), 0x80);
    spu.write(0xff3f, 0x12);
    assert_eq!(spu.read(0xff3f), 0x12);
}

#[test]
fn work_ram_banks_are_separate() {
    let mut ram = Ram::new();
    ram.write(0xc000, 0x11);
    ram.write(0xd000, 0x22);
    ram.set_bank(3);
    ram.write(0xd000, 0x33);
    assert_eq!(ram.read(0xc000), 0x11);
    assert_eq!(ram.read(0xd000), 0x33);
    ram.set_bank(1);
    assert_eq!(ram.read(0xd000), 0x22);
    // Bank zero is promoted to one.
    ram.set_bank(0);
    assert_eq!(ram.read(0xd000), 0x22);
}

#[test]
fn monochrome_and_color_power_on() {
    let mut rom = vec![0u8; 0x8000];
    rom[0x143] = 0xc0;
    let cart = Cart::new(rom, None).unwrap();
    assert_eq!(cart.gameboy_type(), GameboyType::Cgb);
    let regs = gbc_core::Registers::new(GameboyType::Cgb);
    assert_eq!(regs.a, 0x11);
}
