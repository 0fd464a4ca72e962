use gbemu::cpu::MemoryBus;
use gbemu::mbc1::MBC1;

/// A ROM of `banks` 16 KiB banks whose header names MBC1 and whose every
/// bank starts with its own number.
fn marked_rom(banks: usize, rom_code: u8, ram_code: u8) -> Vec<u8> {
    let mut rom = vec![0u8; banks * 16 * 1024];
    rom[0x147] = 0x01;
    rom[0x148] = rom_code;
    rom[0x149] = ram_code;
    for b in 0..banks {
        rom[b * 16 * 1024] = b as u8;
    }
    rom
}

#[test]
fn rejects_a_short_rom() {
    let rom = vec![0u8; 0x14F];
    assert!(MBC1::new(&rom, None).is_err());
}

#[test]
fn rejects_a_wrong_cart_type() {
    let mut rom = vec![0u8; 0x8000];
    rom[0x147] = 0x00;
    assert!(MBC1::new(&rom, None).is_err());
    rom[0x147] = 0x05;
    assert!(MBC1::new(&rom, None).is_err());
    rom[0x147] = 0x02;
    assert!(MBC1::new(&rom, None).is_ok());
    rom[0x147] = 0x03;
    assert!(MBC1::new(&rom, None).is_ok());
}

#[test]
fn rejects_a_bad_rom_size_code() {
    let mut rom = vec![0u8; 0x8000];
    rom[0x147] = 0x01;
    rom[0x148] = 0x08;
    assert!(MBC1::new(&rom, None).is_err());
}

#[test]
fn rejects_a_bad_ram_size_code() {
    let mut rom = vec![0u8; 0x8000];
    rom[0x147] = 0x01;
    rom[0x149] = 0x04;
    assert!(MBC1::new(&rom, None).is_err());
}

#[test]
fn low5_of_zero_maps_to_bank_one() {
    // a 512 KiB ROM: writing 0x00 then 0x01 to the 0x2000 window both leave
    // bank 1 in the switchable region
    let rom = marked_rom(32, 5, 0);
    let mut mbc = MBC1::new(&rom, None).unwrap();
    mbc.write(0x2000, 0x00);
    assert_eq!(mbc.read(0x4000), 0x01);
    mbc.write(0x2000, 0x01);
    assert_eq!(mbc.read(0x4000), 0x01);
}

#[test]
fn bank_switching_reaches_every_bank() {
    let rom = marked_rom(32, 5, 0);
    let mut mbc = MBC1::new(&rom, None).unwrap();
    for bank in 2..32u8 {
        mbc.write(0x2000, bank);
        assert_eq!(mbc.read(0x4000), bank);
    }
    assert_eq!(mbc.read(0x0000), 0x00);
}

#[test]
fn bank_number_wraps_on_a_small_rom() {
    // a 32 KiB ROM has 2 banks: bank number 2 wraps to bank 0 in the
    // switchable window
    let rom = marked_rom(2, 0, 0);
    let mut mbc = MBC1::new(&rom, None).unwrap();
    assert_eq!(mbc.read(0x4000), 0x01);
    mbc.write(0x2000, 0x02);
    assert_eq!(mbc.read(0x4000), 0x00);
}

#[test]
fn upper_bits_extend_the_bank_number_on_a_large_rom() {
    let rom = marked_rom(128, 7, 0);
    let mut mbc = MBC1::new(&rom, None).unwrap();
    mbc.write(0x2000, 0x01);
    mbc.write(0x4000, 0x02);
    assert_eq!(mbc.read(0x4000), 65);
}

#[test]
fn advanced_mode_rebanks_the_fixed_region() {
    let rom = marked_rom(128, 7, 0);
    let mut mbc = MBC1::new(&rom, None).unwrap();
    mbc.write(0x4000, 0x01);
    assert_eq!(mbc.read(0x0000), 0x00);
    mbc.write(0x6000, 0x01);
    assert_eq!(mbc.read(0x0000), 32);
    mbc.write(0x6000, 0x00);
    assert_eq!(mbc.read(0x0000), 0x00);
}

#[test]
fn ram_reads_ff_until_enabled() {
    let rom = marked_rom(2, 0, 2);
    let mut mbc = MBC1::new(&rom, None).unwrap();
    mbc.write(0xA000, 0x55);
    assert_eq!(mbc.read(0xA000), 0xFF);
    mbc.write(0x0000, 0x0A);
    mbc.write(0xA000, 0x55);
    assert_eq!(mbc.read(0xA000), 0x55);
    mbc.write(0x0000, 0x00);
    assert_eq!(mbc.read(0xA000), 0xFF);
}

#[test]
fn advanced_mode_switches_the_ram_bank() {
    let rom = marked_rom(2, 0, 3);
    let mut mbc = MBC1::new(&rom, None).unwrap();
    mbc.write(0x0000, 0x0A);
    mbc.write(0x6000, 0x01);
    mbc.write(0x4000, 0x00);
    mbc.write(0xA000, 0x11);
    mbc.write(0x4000, 0x02);
    mbc.write(0xA000, 0x22);
    mbc.write(0x4000, 0x00);
    assert_eq!(mbc.read(0xA000), 0x11);
    mbc.write(0x4000, 0x02);
    assert_eq!(mbc.read(0xA000), 0x22);
}

#[test]
fn initial_ram_comes_from_the_given_bytes() {
    let rom = marked_rom(2, 0, 2);
    let mut ram = vec![0u8; 0x2000];
    ram[0] = 0xAB;
    ram[0x1FFF] = 0xCD;
    let mut mbc = MBC1::new(&rom, Some(&ram)).unwrap();
    mbc.write(0x0000, 0x0A);
    assert_eq!(mbc.read(0xA000), 0xAB);
    assert_eq!(mbc.read(0xBFFF), 0xCD);
}

#[test]
fn unmapped_addresses_are_inert() {
    let rom = marked_rom(2, 0, 0);
    let mut mbc = MBC1::new(&rom, None).unwrap();
    assert_eq!(mbc.read(0x8000), 0xFF);
    assert_eq!(mbc.read(0xFFFF), 0xFF);
    mbc.write(0xC000, 0x12);
    assert_eq!(mbc.read(0xC000), 0xFF);
}

#[test]
fn latch_order_does_not_matter() {
    // two different write orders ending at the same latches give the same
    // visible banks
    let rom1 = marked_rom(128, 7, 3);
    let mut m1 = MBC1::new(&rom1, None).unwrap();
    let rom2 = marked_rom(128, 7, 3);
    let mut m2 = MBC1::new(&rom2, None).unwrap();
    m1.write(0x2000, 0x15);
    m1.write(0x4000, 0x02);
    m1.write(0x6000, 0x01);
    m2.write(0x6000, 0x01);
    m2.write(0x4000, 0x02);
    m2.write(0x2000, 0x15);
    assert_eq!(m1.read(0x0000), m2.read(0x0000));
    assert_eq!(m1.read(0x4000), m2.read(0x4000));
}
