use gbc_core::Cart;
use gbc_core::CartError;
use gbc_core::Console;
use gbc_core::DestinationCode;
use gbc_core::GameboyType;
use gbc_core::Mbc;
use gbc_core::MbcInfo;
use gbc_core::MbcType;
use gbc_core::RamInfo;
use gbc_core::new_mbc;

fn rom_with_header(mbc_code: u8, rom_code: u8, ram_code: u8, len: usize) -> Vec<u8> {
    let mut rom = vec![0u8; len];
    rom[0x147] = mbc_code;
    rom[0x148] = rom_code;
    rom[0x149] = ram_code;
    rom
}

#[test]
fn invalid_rom_length_is_rejected() {
    // Too short to be an image at all.
    let err = Cart::new(vec![0u8; 0x100], None).unwrap_err();
    assert_eq!(err, CartError::InvalidRomLength { len: 0x100 });
    // Long enough for a header but not a power-of-two multiple of
    // 16 KiB.
    let err = Cart::new(vec![0u8; 0x150], None).unwrap_err();
    assert_eq!(err, CartError::InvalidRomLength { len: 0x150 });
    let err = Cart::new(vec![0u8; 0x9000], None).unwrap_err();
    assert_eq!(err, CartError::InvalidRomLength { len: 0x9000 });
    // Beyond the 2 MiB ceiling.
    let err = Cart::new(vec![0u8; 0x400000], None).unwrap_err();
    assert_eq!(err, CartError::InvalidRomLength { len: 0x400000 });
}

#[test]
fn unsupported_mbc_code_is_rejected() {
    let err = Cart::new(rom_with_header(0x05, 0, 0, 0x8000), None).unwrap_err();
    assert_eq!(err, CartError::UnsupportedMbcType { code: 0x05 });
}

#[test]
fn unsupported_size_codes_are_rejected() {
    let err = Cart::new(rom_with_header(0x00, 0x07, 0, 0x8000), None).unwrap_err();
    assert_eq!(err, CartError::UnsupportedRomSize { code: 0x07 });
    let err = Cart::new(rom_with_header(0x00, 0x00, 0x05, 0x8000), None).unwrap_err();
    assert_eq!(err, CartError::UnsupportedRamSize { code: 0x05 });
}

#[test]
fn save_ram_size_mismatch_is_rejected() {
    let rom = rom_with_header(0x03, 0x00, 0x03, 0x8000);
    let err = Cart::new(rom, Some(vec![0u8; 100])).unwrap_err();
    assert_eq!(err, CartError::SaveRamSizeMismatch { expected: 0x8000, actual: 100 });
}

#[test]
fn header_accessors() {
    let mut rom = rom_with_header(0x03, 0x02, 0x03, 0x8000);
    let title = b"TESTCART";
    for (i, b) in title.iter().enumerate() {
        rom[0x134 + i] = *b;
    }
    rom[0x143] = 0x80;
    rom[0x14a] = 0x01;
    let cart = Cart::new(rom, None).unwrap();
    assert_eq!(&cart.title()[..8], b"TESTCART");
    assert_eq!(cart.rom_size(), 0x20000);
    assert_eq!(cart.rom_bank_count(), 8);
    assert_eq!(cart.ram_size(), 0x8000);
    assert_eq!(cart.ram_bank_count(), 4);
    assert_eq!(cart.destination_code(), DestinationCode::NonJapanese);
    assert_eq!(cart.gameboy_type(), GameboyType::Cgb);
    let info = cart.mbc_info();
    assert_eq!(info.mbc_type, MbcType::Mbc1);
    assert!(info.has_batt);
    assert_eq!(info.ram_info.unwrap().size, 0x8000);
}

#[test]
fn rom_only_reads_whole_image() {
    let mut rom = rom_with_header(0x00, 0x00, 0x00, 0x8000);
    rom[0x0000] = 0x11;
    rom[0x7fff] = 0x22;
    let mut cart = Cart::new(rom, None).unwrap();
    assert_eq!(cart.read(0x0000), 0x11);
    assert_eq!(cart.read(0x7fff), 0x22);
    // Control writes and RAM accesses are inert on a bare ROM.
    cart.write(0x2000, 0x02);
    assert_eq!(cart.read(0x7fff), 0x22);
    assert_eq!(cart.read_ram(0xa000), 0xff);
}

#[test]
fn mbc1_rom_banking() {
    // 128 KiB image: eight banks, each marked by its own number.
    let mut rom = rom_with_header(0x01, 0x02, 0x00, 0x20000);
    for bank in 0..8 {
        rom[bank * 0x4000] = bank as u8;
    }
    let mut cart = Cart::new(rom, None).unwrap();
    // Bank 1 after reset.
    assert_eq!(cart.read(0x4000), 1);
    cart.write(0x2000, 0x05);
    assert_eq!(cart.read(0x4000), 5);
    // Bank zero is promoted to one.
    cart.write(0x2000, 0x00);
    assert_eq!(cart.read(0x4000), 1);
    // The fixed window still reads bank zero.
    assert_eq!(cart.read(0x0000), 0);
}

#[test]
fn mbc1_ram_requires_enable() {
    let rom = rom_with_header(0x03, 0x00, 0x03, 0x8000);
    let mut cart = Cart::new(rom, None).unwrap();
    cart.write_ram(0xa000, 0x55);
    assert_eq!(cart.read_ram(0xa000), 0xff);
    cart.write(0x0000, 0x0a);
    cart.write_ram(0xa000, 0x55);
    assert_eq!(cart.read_ram(0xa000), 0x55);
    cart.write(0x0000, 0x00);
    assert_eq!(cart.read_ram(0xa000), 0xff);
}

#[test]
fn mbc1_save_round_trip() {
    // Enable RAM, write in bank 0, switch the RAM bank in RAM-banking
    // mode, write again; the snapshot holds both bytes, and a fresh
    // console built from the snapshot reads them back.
    let mut rom = rom_with_header(0x03, 0x00, 0x03, 0x8000);
    rom[0x14e] = 0xc3;
    let console = Console::new(Cart::new(rom.clone(), None).unwrap());
    let mut console = console;
    console.cpu.interconnect.write(0x0000, 0x0a);
    console.cpu.interconnect.write(0x6000, 0x01);
    console.cpu.interconnect.write(0xa000, 0xab);
    console.cpu.interconnect.write(0x4000, 0x01);
    console.cpu.interconnect.write(0xa000, 0xcd);
    let blob = console.copy_cart_ram().unwrap();
    assert_eq!(blob.len(), 0x8000);
    assert_eq!(blob[0], 0xab);
    assert_eq!(blob[8192], 0xcd);

    let mut revived = Console::new(Cart::new(rom, Some(blob)).unwrap());
    revived.cpu.interconnect.write(0x0000, 0x0a);
    revived.cpu.interconnect.write(0x6000, 0x01);
    assert_eq!(revived.cpu.interconnect.read(0xa000), 0xab);
    revived.cpu.interconnect.write(0x4000, 0x01);
    assert_eq!(revived.cpu.interconnect.read(0xa000), 0xcd);
}

#[test]
fn mbc3_rtc_latch() {
    let rom = rom_with_header(0x13, 0x00, 0x03, 0x8000);
    let mut cart = Cart::new(rom, None).unwrap();
    cart.write(0x0000, 0x0a);
    // Select the seconds register and set it.
    cart.write(0x4000, 0x08);
    cart.write_ram(0xa000, 42);
    // Unlatched: the latched registers still read zero.
    assert_eq!(cart.read_ram(0xa000), 0);
    // A 0-to-1 edge latches the running clock.
    cart.write(0x6000, 0x00);
    cart.write(0x6000, 0x01);
    assert_eq!(cart.read_ram(0xa000), 42);
}

#[test]
fn mbc3_rom_banking() {
    let mut rom = rom_with_header(0x13, 0x02, 0x03, 0x20000);
    for bank in 0..8 {
        rom[bank * 0x4000] = bank as u8;
    }
    let mut cart = Cart::new(rom, None).unwrap();
    cart.write(0x2000, 0x07);
    assert_eq!(cart.read(0x4000), 7);
    cart.write(0x2000, 0x00);
    assert_eq!(cart.read(0x4000), 1);
}

#[test]
fn mbc5_rom_banking_keeps_bank_zero() {
    let mut rom = rom_with_header(0x19, 0x02, 0x00, 0x20000);
    for bank in 0..8 {
        rom[bank * 0x4000] = bank as u8;
    }
    let mut cart = Cart::new(rom, None).unwrap();
    cart.write(0x2000, 0x03);
    assert_eq!(cart.read(0x4000), 3);
    // Unlike the earlier controllers, bank zero stays bank zero.
    cart.write(0x2000, 0x00);
    assert_eq!(cart.read(0x4000), 0);
}

#[test]
fn mbc5_ram_banking() {
    let rom = rom_with_header(0x1b, 0x00, 0x03, 0x8000);
    let mut cart = Cart::new(rom, None).unwrap();
    cart.write(0x0000, 0x0a);
    cart.write_ram(0xa000, 0x11);
    cart.write(0x4000, 0x02);
    cart.write_ram(0xa000, 0x22);
    let blob = cart.copy_ram().unwrap();
    assert_eq!(blob[0], 0x11);
    assert_eq!(blob[2 * 0x2000], 0x22);
}

#[test]
fn new_mbc_builds_requested_kind() {
    let info = MbcInfo::new(MbcType::Mbc1, Some(RamInfo::new(0x2000, 1)), false);
    let mbc = new_mbc(info, None);
    assert!(matches!(mbc, Mbc::Mbc1(_)));
    let info = MbcInfo::new(MbcType::RomOnly, None, false);
    assert!(matches!(new_mbc(info, None), Mbc::RomOnly));
}

#[test]
fn out_of_range_reads_are_open_bus() {
    // A bank pointing beyond the image reads as 0xFF.
    let mut rom = rom_with_header(0x01, 0x00, 0x00, 0x8000);
    rom[0x4000] = 0x99;
    let mut cart = Cart::new(rom, None).unwrap();
    cart.write(0x2000, 0x1f);
    assert_eq!(cart.read(0x4000), 0xff);
}
