use gbc_core::Cart;
use gbc_core::Console;
use gbc_core::Cpu;
use gbc_core::GameboyType;
use gbc_core::Gamepad;
use gbc_core::Interconnect;
use gbc_core::Ppu;
use gbc_core::Spu;

const PX_LIGHTEST: u32 = 0xffe0f8d0;
const PX_DARKEST: u32 = 0xff081820;

fn nop_loop_rom() -> Vec<u8> {
    // NOPs from 0100 with a jump back to 0100 at 014E.
    let mut rom = vec![0u8; 0x8000];
    rom[0x14e] = 0xc3;
    rom[0x14f] = 0x00;
    rom[0x150] = 0x01;
    rom
}

fn machine_with_rom(rom: Vec<u8>) -> Cpu {
    let cart = Cart::new(rom, None).unwrap();
    let ic = Interconnect::new(GameboyType::Dmg, cart, Ppu::new(), Spu::new(), Gamepad::new());
    Cpu::new(GameboyType::Dmg, ic)
}

#[test]
fn ly_write_is_ignored() {
    let mut cpu = machine_with_rom(nop_loop_rom());
    let before = cpu.interconnect.read(0xff44);
    cpu.interconnect.write(0xff44, 0x7f);
    assert_eq!(cpu.interconnect.read(0xff44), before);
}

#[test]
fn ly_advances_every_456_cycles() {
    let mut cpu = machine_with_rom(nop_loop_rom());
    let mut cycles: u64 = 0;
    let mut prev: u8 = cpu.interconnect.read(0xff44);
    assert_eq!(prev, 0);
    while cycles < 70224 * 2 {
        cycles += cpu.step().unwrap() as u64;
        let ly = cpu.interconnect.read(0xff44);
        // Monotonic modulo 154: LY either stays or advances by one,
        // wrapping from 153 to 0.
        assert!(ly == prev || ly as u32 == (prev as u32 + 1) % 154);
        // And it tracks the elapsed cycle count exactly.
        assert_eq!(ly as u64, (cycles % 70224) / 456);
        prev = ly;
    }
}

#[test]
fn minimal_boot_loops_through_the_rom() {
    // NOP sled with a jump back: after one frame the program counter
    // is still inside the boot loop and no interrupt was serviced.
    let mut console = Console::new(Cart::new(nop_loop_rom(), None).unwrap());
    let frame = console.run_for_one_frame().unwrap();
    assert_eq!(frame.len(), 160 * 144);
    let pc = console.cpu.reg.pc;
    assert!((0x100..=0x150).contains(&pc));
    // IE was never set, so nothing was serviced.
    assert_eq!(console.cpu.interconnect.int_enable, 0);
    assert!(console.cpu.ime);
    // A blank background renders as the lightest shade.
    assert!(frame.iter().all(|px| *px == PX_LIGHTEST));
}

#[test]
fn vblank_periodicity_under_halt() {
    // The handler at 0x40 returns at once; the program enables the
    // VBlank interrupt and sits in HALT. Each resume happens at line
    // 144 and consecutive services are one frame apart.
    let mut rom = vec![0u8; 0x8000];
    rom[0x40] = 0xd9; // RETI
    let program = [
        0x3e, 0x01, // LD A,1
        0xe0, 0xff, // LDH (FFFF),A
        0xfb, // EI
        0x00, // NOP
        0x76, // HALT
        0x18, 0xfd, // JR back to HALT
    ];
    for (i, b) in program.iter().enumerate() {
        rom[0x100 + i] = *b;
    }
    let mut cpu = machine_with_rom(rom);
    let mut cycles: u64 = 0;
    let mut services: Vec<u64> = Vec::new();
    while services.len() < 3 && cycles < 70224 * 4 {
        cycles += cpu.step().unwrap() as u64;
        if cpu.reg.pc == 0x0040 {
            services.push(cycles);
            assert_eq!(cpu.interconnect.read(0xff44), 144);
        }
    }
    assert_eq!(services.len(), 3);
    assert_eq!(services[1] - services[0], 70224);
    assert_eq!(services[2] - services[1], 70224);
}

#[test]
fn stat_mode_and_coincidence_bits() {
    let mut cpu = machine_with_rom(nop_loop_rom());
    // At power-on the machine sits at the start of OAM search with
    // LY == LYC == 0.
    assert_eq!(cpu.interconnect.read(0xff41) & 0x07, 0x06);
    // Advance into the frame: during vertical blank the mode reads 1.
    let mut cycles: u64 = 0;
    while cycles < 65664 + 8 {
        cycles += cpu.step().unwrap() as u64;
    }
    assert_eq!(cpu.interconnect.read(0xff41) & 0x03, 0x01);
}

#[test]
fn vblank_interrupt_flag_is_raised() {
    let mut console = Console::new(Cart::new(nop_loop_rom(), None).unwrap());
    console.run_for_one_frame().unwrap();
    assert_eq!(console.cpu.interconnect.read(0xff0f) & 0x01, 0x01);
}

#[test]
fn background_tile_rendering() {
    // Tile 1 has its leftmost column at colour index 3; map cell (0,0)
    // names it. With an identity background palette the first pixel of
    // the frame is the darkest shade.
    let mut cpu = machine_with_rom(nop_loop_rom());
    cpu.interconnect.write(0xff47, 0xe4);
    for row in 0..8 {
        cpu.interconnect.write(0x8010 + row * 2, 0x80);
        cpu.interconnect.write(0x8010 + row * 2 + 1, 0x80);
    }
    cpu.interconnect.write(0x9800, 0x01);
    let mut cycles: u64 = 0;
    while cycles < 70224 {
        cycles += cpu.step().unwrap() as u64;
    }
    assert_eq!(cpu.interconnect.ppu.framebuffer[0], PX_DARKEST);
    assert_eq!(cpu.interconnect.ppu.framebuffer[1], PX_LIGHTEST);
}

#[test]
fn sprite_transparency_shows_background() {
    // An 8 by 8 sprite whose only opaque pixel is its leftmost column:
    // the transparent pixels show the background, not the sprite's
    // palette colour for index zero.
    let mut console = Console::new(Cart::new(nop_loop_rom(), None).unwrap());
    let ic = &mut console.cpu.interconnect;
    // Enable sprites alongside the background.
    ic.write(0xff40, 0x93);
    // Identity object palette that maps index 0 to the darkest shade,
    // so a wrongly drawn transparent pixel would be visible.
    ic.write(0xff48, 0xe7);
    ic.write(0xff47, 0x00);
    // Sprite tile 1: leftmost column colour 3, the rest colour 0.
    for row in 0..8 {
        ic.write(0x8010 + row * 2, 0x80);
        ic.write(0x8010 + row * 2 + 1, 0x80);
    }
    // One OAM entry: screen position (8, 0), tile 1.
    ic.write(0xfe00, 16);
    ic.write(0xfe01, 16);
    ic.write(0xfe02, 1);
    ic.write(0xfe03, 0);
    let frame = console.run_for_one_frame().unwrap();
    // The opaque column took the sprite colour.
    assert_eq!(frame[8], PX_DARKEST);
    // The transparent columns show the background.
    for x in 9..16 {
        assert_eq!(frame[x], PX_LIGHTEST);
    }
}

#[test]
fn oam_dma_copies_160_bytes() {
    let mut cpu = machine_with_rom(nop_loop_rom());
    for i in 0..0xa0u16 {
        cpu.interconnect.write(0xc000 + i, i as u8);
    }
    cpu.interconnect.write(0xff46, 0xc0);
    assert_eq!(cpu.interconnect.read(0xff46), 0xc0);
    assert_eq!(cpu.interconnect.read(0xfe00), 0);
    assert_eq!(cpu.interconnect.read(0xfe01), 1);
    assert_eq!(cpu.interconnect.read(0xfe9f), 0x9f);
}

#[test]
fn vram_reads_back_through_bus() {
    let mut cpu = machine_with_rom(nop_loop_rom());
    cpu.interconnect.write(0x8000, 0xab);
    assert_eq!(cpu.interconnect.read(0x8000), 0xab);
    cpu.interconnect.write(0x9fff, 0xcd);
    assert_eq!(cpu.interconnect.read(0x9fff), 0xcd);
}

#[test]
fn frame_aborts_on_unassigned_opcode() {
    let mut rom = vec![0u8; 0x8000];
    rom[0x100] = 0x00;
    rom[0x101] = 0xd3;
    let mut console = Console::new(Cart::new(rom, None).unwrap());
    let fault = console.run_for_one_frame().unwrap_err();
    assert_eq!(fault.pc, 0x0101);
    assert_eq!(fault.opcode, 0xd3);
    assert_eq!(fault.regs.pc, 0x0101);
}

#[test]
fn disabled_lcd_exhausts_the_step_budget() {
    // With the LCD switched off no frame is ever published; the frame
    // call returns the untouched framebuffer after its step budget.
    let mut console = Console::new(Cart::new(nop_loop_rom(), None).unwrap());
    console.cpu.interconnect.write(0xff40, 0x11);
    let frame = console.run_for_one_frame().unwrap();
    assert_eq!(frame.len(), 160 * 144);
    assert!(frame.iter().all(|px| *px == PX_LIGHTEST));
    assert_eq!(console.cpu.interconnect.read(0xff44), 0);
}
