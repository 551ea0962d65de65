use gameboy_rom::parser::{parse_rom_header, ParseError};
use gameboy_rom::util::{translate_ram_size, translate_rom_size};
use gameboy_rom::{GameBoyRom, HeaderValidationError, RomType};

const LOGO: [u8; 48] = [
    0xCE, 0xED, 0x66, 0x66, 0xCC, 0x0D, 0x00, 0x0B, 0x03, 0x73, 0x00, 0x83, 0x00, 0x0C, 0x00, 0x0D,
    0x00, 0x08, 0x11, 0x1F, 0x88, 0x89, 0x00, 0x0E, 0xDC, 0xCC, 0x6E, 0xE6, 0xDD, 0xDD, 0xD9, 0x99,
    0xBB, 0xBB, 0x67, 0x63, 0x6E, 0x0E, 0xEC, 0xCC, 0xDD, 0xDC, 0x99, 0x9F, 0xBB, 0xB9, 0x33, 0x3E,
];

fn image() -> Vec<u8> {
    let mut rom = vec![0u8; 0x150];
    rom[0x100..0x104].copy_from_slice(&[0x00, 0xC3, 0x50, 0x01]);
    rom[0x104..0x134].copy_from_slice(&LOGO);
    rom[0x134..0x13A].copy_from_slice(b"TETRIS");
    rom[0x143] = 0x80;
    rom[0x144] = b'0';
    rom[0x145] = b'1';
    rom[0x146] = 0x00;
    rom[0x147] = 0x13;
    rom[0x148] = 0x05;
    rom[0x149] = 0x03;
    rom[0x14A] = 0x01;
    rom[0x14B] = 0x33;
    rom[0x14C] = 0x02;
    rom[0x14D] = 0xE7;
    rom[0x14E] = 0x12;
    rom[0x14F] = 0x34;
    rom
}

#[test]
fn parses_every_field() {
    let rom = image();
    let h = GameBoyRom::new(&rom).parse_header().unwrap();
    assert_eq!(h.scrolling_graphic, LOGO.to_vec());
    assert_eq!(h.game_title, "TETRIS\0\0\0\0\0\0\0\0\0");
    assert!(h.gameboy_color);
    assert_eq!(h.licensee_code_new, [b'0', b'1']);
    assert!(!h.super_gameboy);
    assert_eq!(h.rom_type, RomType::Mbc3RamBattery);
    assert_eq!(h.rom_size, 64);
    assert_eq!(h.ram_banks, 4);
    assert_eq!(h.ram_bank_size, 8192);
    assert!(!h.japanese);
    assert_eq!(h.licensee_code, 0x33);
    assert_eq!(h.mask_rom_version, 0x02);
    assert_eq!(h.complement, 0xE7);
    assert_eq!(h.checksum, 0x1234);
    assert_eq!(h.validate(), Ok(()));
}

#[test]
fn rest_follows_the_header() {
    let mut rom = image();
    rom.extend_from_slice(&[0xAA, 0xBB]);
    let (rest, _) = parse_rom_header(&rom).unwrap();
    assert_eq!(rest, &[0xAA, 0xBB]);
}

#[test]
fn zero_logo_fails_validation() {
    let mut rom = image();
    for b in &mut rom[0x104..0x134] {
        *b = 0;
    }
    let h = GameBoyRom::new(&rom).parse_header().unwrap();
    assert_eq!(h.validate(), Err(HeaderValidationError::ScrollingLogoMismatch));
}

#[test]
fn super_hardware_needs_old_licensee_code() {
    let mut rom = image();
    rom[0x146] = 0x03;
    rom[0x14B] = 0x01;
    let h = GameBoyRom::new(&rom).parse_header().unwrap();
    assert!(h.super_gameboy);
    assert_eq!(
        h.validate(),
        Err(HeaderValidationError::SuperGameBoyOldLicenseeCodeMismatch)
    );
    rom[0x14B] = 0x33;
    let h = GameBoyRom::new(&rom).parse_header().unwrap();
    assert_eq!(h.validate(), Ok(()));
}

#[test]
fn logo_rule_is_checked_first() {
    let mut rom = image();
    rom[0x104] = 0xCF;
    rom[0x146] = 0x03;
    rom[0x14B] = 0x01;
    let h = GameBoyRom::new(&rom).parse_header().unwrap();
    assert_eq!(h.validate(), Err(HeaderValidationError::ScrollingLogoMismatch));
}

#[test]
fn parsing_twice_gives_equal_headers() {
    let rom = image();
    let gbr = GameBoyRom::new(&rom);
    assert_eq!(gbr.parse_header(), gbr.parse_header());
}

#[test]
fn short_buffers_are_out_of_data() {
    let rom = image();
    for len in [0usize, 0x100, 0x142, 0x148, 0x149, 0x14F] {
        assert_eq!(
            GameBoyRom::new(&rom[..len]).parse_header(),
            Err(ParseError::OutOfData),
            "length {:#x}",
            len
        );
    }
}

#[test]
fn invalid_title_is_invalid_text() {
    let mut rom = image();
    rom[0x134] = 0xFF;
    assert_eq!(GameBoyRom::new(&rom).parse_header(), Err(ParseError::InvalidText));
}

#[test]
fn unknown_rom_size_byte() {
    let mut rom = image();
    rom[0x148] = 0x09;
    assert_eq!(
        GameBoyRom::new(&rom).parse_header(),
        Err(ParseError::UnknownRomSize(0x09))
    );
}

#[test]
fn unknown_ram_size_byte() {
    let mut rom = image();
    rom[0x149] = 0x06;
    assert_eq!(
        GameBoyRom::new(&rom).parse_header(),
        Err(ParseError::UnknownRamSize(0x06))
    );
}

#[test]
fn region_byte_zero_is_japanese() {
    let mut rom = image();
    rom[0x14A] = 0x00;
    assert!(GameBoyRom::new(&rom).parse_header().unwrap().japanese);
}

#[test]
fn rom_size_table() {
    let expected: [(u8, u16); 12] = [
        (0, 2),
        (1, 4),
        (2, 8),
        (3, 16),
        (4, 32),
        (5, 64),
        (6, 128),
        (7, 256),
        (8, 512),
        (0x52, 72),
        (0x53, 80),
        (0x54, 96),
    ];
    for (code, banks) in expected {
        assert_eq!(translate_rom_size(code), Some(banks));
    }
    assert_eq!(translate_rom_size(0x09), None);
    assert_eq!(translate_rom_size(0x55), None);
}

#[test]
fn ram_size_table() {
    assert_eq!(translate_ram_size(0), Some((0, 0)));
    assert_eq!(translate_ram_size(1), Some((1, 2048)));
    assert_eq!(translate_ram_size(2), Some((1, 8192)));
    assert_eq!(translate_ram_size(3), Some((4, 8192)));
    assert_eq!(translate_ram_size(4), Some((16, 8192)));
    assert_eq!(translate_ram_size(5), Some((8, 8192)));
    assert_eq!(translate_ram_size(6), None);
}

#[test]
fn rom_type_from_byte() {
    assert_eq!(RomType::from(0x00), RomType::RomOnly);
    assert_eq!(RomType::from(0x1E), RomType::Mbc5RumbleSramBattery);
    assert_eq!(RomType::from(0xFF), RomType::Huc1);
    assert_eq!(RomType::from(0x04), RomType::Other(0x04));
}

#[test]
fn bytes_outside_the_header_region_do_not_matter() {
    let a = image();
    let mut b = image();
    b[0x00] = 0xAA;
    b[0x100..0x104].copy_from_slice(&[0xC3, 0x00, 0x20, 0x00]);
    b.extend_from_slice(&[0x01, 0x02, 0x03]);
    assert_eq!(
        GameBoyRom::new(&a).parse_header(),
        GameBoyRom::new(&b).parse_header()
    );
}
