use gbc_core::Button;
use gbc_core::ButtonState;
use gbc_core::Cart;
use gbc_core::Cpu;
use gbc_core::GameboyType;
use gbc_core::Gamepad;
use gbc_core::InputEvent;
use gbc_core::Interconnect;
use gbc_core::Ppu;
use gbc_core::Spu;
use gbc_core::Timer;

fn bus_with_program(code: &[u8]) -> Cpu {
    let mut rom = vec![0u8; 0x8000];
    for (i, b) in code.iter().enumerate() {
        rom[0x100 + i] = *b;
    }
    let cart = Cart::new(rom, None).unwrap();
    let ic = Interconnect::new(GameboyType::Dmg, cart, Ppu::new(), Spu::new(), Gamepad::new());
    Cpu::new(GameboyType::Dmg, ic)
}

#[test]
fn div_write_resets_divider() {
    let mut t = Timer::new();
    t.cycle_flush(0x1234);
    assert!(t.read(0xff04) > 0);
    t.write(0xff04, 0xaa);
    assert!(t.read(0xff04) < 0x01);
}

#[test]
fn div_increments_every_256_cycles() {
    let mut t = Timer::new();
    t.cycle_flush(255);
    assert_eq!(t.read(0xff04), 0);
    t.cycle_flush(1);
    assert_eq!(t.read(0xff04), 1);
    t.cycle_flush(512);
    assert_eq!(t.read(0xff04), 3);
}

#[test]
fn tima_rate_and_overflow() {
    let mut t = Timer::new();
    // Enable at the 16-cycle rate with a reload value.
    t.write(0xff06, 0xf0);
    t.write(0xff07, 0x05);
    assert_eq!(t.read(0xff07), 0x05);
    t.cycle_flush(16 * 5);
    assert_eq!(t.read(0xff05), 5);
    // Push it to overflow: the interrupt fires and TIMA reloads.
    t.write(0xff05, 0xff);
    let ints = t.cycle_flush(16);
    assert_eq!(ints, 0x04);
    assert_eq!(t.read(0xff05), 0xf0);
}

#[test]
fn disabled_timer_does_not_count() {
    let mut t = Timer::new();
    t.write(0xff07, 0x01);
    t.cycle_flush(4096);
    assert_eq!(t.read(0xff05), 0);
}

#[test]
fn div_reset_via_bus() {
    let mut cpu = bus_with_program(&[0x00; 64]);
    for _ in 0..16 {
        cpu.step().unwrap();
    }
    // 16 NOPs = 64 cycles; another 192 reach one DIV tick.
    let mut cpu2 = bus_with_program(&[0x00; 128]);
    for _ in 0..64 {
        cpu2.step().unwrap();
    }
    assert_eq!(cpu2.interconnect.read(0xff04), 1);
    cpu2.interconnect.write(0xff04, 0x55);
    assert!(cpu2.interconnect.read(0xff04) < 0x01);
}

#[test]
fn timer_interrupt_reaches_handler() {
    // TMA=0xFF, TIMA=0xFF, TAC=enable at rate 16, IE=timer, EI, then
    // NOPs: the overflow interrupt lands the CPU on the 0x50 vector.
    let program = [
        0x3e, 0xff, // LD A,0xFF
        0xe0, 0x06, // LDH (FF06),A
        0xe0, 0x05, // LDH (FF05),A
        0x3e, 0x05, // LD A,0x05
        0xe0, 0x07, // LDH (FF07),A
        0x3e, 0x04, // LD A,0x04
        0xe0, 0xff, // LDH (FFFF),A
        0xfb, // EI
        0x00, 0x00, 0x00, 0x00, 0x00, 0x00, 0x00, 0x00,
    ];
    let mut cpu = bus_with_program(&program);
    cpu.ime = false;
    let mut reached = false;
    for _ in 0..64 {
        cpu.step().unwrap();
        if cpu.reg.pc == 0x0050 {
            reached = true;
            break;
        }
    }
    assert!(reached);
    assert!(!cpu.ime);
}

#[test]
fn gamepad_reads_selected_group_active_low() {
    let mut pad = Gamepad::new();
    pad.handle_event(InputEvent::new(Button::Right, ButtonState::Down));
    pad.handle_event(InputEvent::new(Button::Start, ButtonState::Down));
    // Directions selected: bit 4 low.
    pad.write(0x20);
    assert_eq!(pad.read(), 0xc0 + 0x20 + 0x0e);
    // Actions selected: bit 5 low; Start is line 3.
    pad.write(0x10);
    assert_eq!(pad.read(), 0xc0 + 0x10 + 0x07);
    // Releasing restores the line.
    pad.handle_event(InputEvent::new(Button::Start, ButtonState::Up));
    assert_eq!(pad.read(), 0xc0 + 0x10 + 0x0f);
}

#[test]
fn gamepad_press_raises_interrupt_on_flush() {
    let mut pad = Gamepad::new();
    pad.write(0x20);
    pad.handle_event(InputEvent::new(Button::Left, ButtonState::Down));
    assert_eq!(pad.cycle_flush(4), 0x10);
    assert_eq!(pad.cycle_flush(4), 0x00);
    // A press in an unselected group raises nothing.
    pad.handle_event(InputEvent::new(Button::A, ButtonState::Down));
    assert_eq!(pad.cycle_flush(4), 0x00);
}

#[test]
fn gamepad_interrupt_reaches_if_register() {
    let mut cpu = bus_with_program(&[0x00; 8]);
    cpu.interconnect.write(0xff00, 0x20);
    cpu.interconnect.gamepad.handle_event(InputEvent::new(Button::Up, ButtonState::Down));
    cpu.step().unwrap();
    assert_eq!(cpu.interconnect.read(0xff0f) & 0x10, 0x10);
}

#[test]
fn serial_and_speed_switch_are_stubs() {
    let mut cpu = bus_with_program(&[0x00; 4]);
    cpu.interconnect.write(0xff01, 0x99);
    assert_eq!(cpu.interconnect.read(0xff01), 0);
    assert_eq!(cpu.interconnect.read(0xff4d), 0);
    // Prohibited region above OAM: reads 0xFF, writes ignored.
    cpu.interconnect.write(0xfea0, 0x12);
    assert_eq!(cpu.interconnect.read(0xfea0), 0xff);
}

#[test]
fn echo_region_mirrors_work_ram() {
    let mut cpu = bus_with_program(&[0x00; 4]);
    cpu.interconnect.write(0xc123, 0x42);
    assert_eq!(cpu.interconnect.read(0xe123), 0x42);
    cpu.interconnect.write(0xfdff, 0x24);
    assert_eq!(cpu.interconnect.read(0xddff), 0x24);
}

#[test]
fn work_ram_banking_via_svbk() {
    let mut cpu = bus_with_program(&[0x00; 4]);
    cpu.interconnect.write(0xd000, 0x01);
    cpu.interconnect.write(0xff70, 0x02);
    cpu.interconnect.write(0xd000, 0x02);
    cpu.interconnect.write(0xff70, 0x01);
    assert_eq!(cpu.interconnect.read(0xd000), 0x01);
    cpu.interconnect.write(0xff70, 0x02);
    assert_eq!(cpu.interconnect.read(0xd000), 0x02);
    // Bank zero is promoted to one.
    cpu.interconnect.write(0xff70, 0x00);
    assert_eq!(cpu.interconnect.read(0xd000), 0x01);
}
