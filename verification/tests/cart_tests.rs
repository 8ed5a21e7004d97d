use jayboy::errors::JayBoyError;
use jayboy::roms::cart::Cartridge;
use jayboy::roms::cart::Destination;
use jayboy::roms::cart_type::CartridgeType;
use jayboy::roms::validate::generate_global_checksum;
use jayboy::roms::validate::generate_header_checksum;
use jayboy::roms::validate::nintendo_logo;
use jayboy::roms::validate::validate_cart;
use jayboy::roms::validate::validate_global_checksum;
use jayboy::roms::validate::validate_nintendo_logo;
use jayboy::roms::cgbflag::CGBFlag;
use jayboy::roms::publisher::Publisher;
use jayboy::roms::validate::validate_ram_size_vs_cartridge_type;

/// A minimal image: valid logo, "TETRIS" title, Nintendo old licensee,
/// MBC3+RAM+BATTERY, 32 KiB ROM, 8 KiB RAM, Japan, correct header checksum.
fn test_rom() -> Vec<u8> {
    let mut b = vec![0u8; 0x150];
    b[0x104..0x134].copy_from_slice(&nintendo_logo());
    b[0x134..0x13A].copy_from_slice(b"TETRIS");
    b[0x147] = 0x13; // MBC3+RAM+BATTERY
    b[0x148] = 0x00; // 32 KiB ROM
    b[0x149] = 0x02; // 8 KiB RAM
    b[0x14A] = 0x00; // Japan
    b[0x14B] = 0x01; // old licensee: Nintendo
    let cart = Cartridge::from_bytes(String::from("probe"), b.clone()).unwrap();
    b[0x14D] = generate_header_checksum(&cart);
    b
}

fn cart_from(bytes: Vec<u8>) -> Cartridge {
    Cartridge::from_bytes(String::from("TETRIS.gb"), bytes).unwrap()
}

#[test]
fn test_from_bytes_rejects_short_buffer() {
    let r = Cartridge::from_bytes(String::from("tiny.gb"), vec![0u8; 0x14F]);
    assert!(matches!(r, Err(JayBoyError::BufferTooSmall)));
    assert!(Cartridge::from_bytes(String::from("ok.gb"), vec![0u8; 0x150]).is_ok());
}

#[test]
fn test_rom_size_table() {
    let mut b = test_rom();
    let sizes = [
        (0x00u8, 32768usize),
        (0x01, 65536),
        (0x08, 8388608),
        (0x52, 1179648),
        (0x53, 1310720),
        (0x54, 1572864),
    ];
    for (code, size) in sizes {
        b[0x148] = code;
        assert_eq!(cart_from(b.clone()).rom_size().unwrap(), size);
    }
    b[0x148] = 0x09;
    assert_eq!(
        cart_from(b.clone()).rom_size(),
        Err(JayBoyError::UnknownRomSize(0x09))
    );
}

#[test]
fn test_ram_size_table() {
    let mut b = test_rom();
    for (code, size) in [(0x00u8, 0usize), (0x02, 8192), (0x03, 32768)] {
        b[0x149] = code;
        assert_eq!(cart_from(b.clone()).ram_size(), size);
    }
    // unknown codes degrade to zero instead of failing
    b[0x149] = 0x77;
    assert_eq!(cart_from(b.clone()).ram_size(), 0);
}

#[test]
fn test_cartridge_type_decode() {
    let t = CartridgeType::try_from(0x13).unwrap();
    assert_eq!(t.mbc, 3);
    assert!(t.ram && t.battery);
    assert!(!t.rom && !t.mmm01 && !t.timer && !t.rumble && !t.sensor && !t.camera && !t.tamagochi);
    assert_eq!(t.huc, 0);

    let rom_only = CartridgeType::try_from(0x00).unwrap();
    assert!(rom_only.rom);
    assert_eq!(rom_only.mbc, 0);
    assert!(
        !rom_only.ram
            && !rom_only.battery
            && !rom_only.mmm01
            && !rom_only.timer
            && !rom_only.rumble
            && !rom_only.sensor
            && !rom_only.camera
            && !rom_only.tamagochi
    );
    assert_eq!(rom_only.huc, 0);

    assert_eq!(
        CartridgeType::try_from(0x04),
        Err(JayBoyError::UnknownCartridgeType(0x04))
    );
}

#[test]
fn test_cartridge_type_describe() {
    let t = CartridgeType::try_from(0x13).unwrap();
    assert_eq!(t.describe(), "0x13: MBC3+RAM+BATTERY");
    let rom_only = CartridgeType::try_from(0x00).unwrap();
    assert_eq!(rom_only.describe(), "0x00: MBC0+ROM");
}

#[test]
fn test_title_trailing_zeroes_trimmed() {
    let b = test_rom();
    let cart = cart_from(b);
    let title = cart.title().unwrap();
    assert_eq!(title.len(), 6);
    assert_eq!(title.to_text(), "TETRIS");
}

#[test]
fn test_title_non_ascii_is_reported() {
    let mut b = test_rom();
    b[0x135] = 0xFE;
    let cart = cart_from(b);
    assert!(cart.title().is_none());
}

#[test]
fn test_title_respects_cgb_flag_byte() {
    let mut b = test_rom();
    // a CGB flag byte shortens the title region to 15 bytes; the lowercase
    // tail keeps the manufacturer-code branch from firing first
    b[0x143] = 0x80;
    for i in 0x134..0x13F {
        b[i] = b'A';
    }
    for i in 0x13F..0x143 {
        b[i] = b'a';
    }
    let cart = cart_from(b);
    assert_eq!(cart.title().unwrap().len(), 15);
    assert_eq!(cart.cgb_flag(), Some(CGBFlag::Compat));
}

#[test]
fn test_title_respects_manufacturer_code() {
    let mut b = test_rom();
    // a manufacturer code in the tail shortens the title region to 11 bytes
    b[0x13F..0x143].copy_from_slice(b"ABCD");
    for i in 0x134..0x13F {
        b[i] = b'T';
    }
    let cart = cart_from(b);
    assert_eq!(cart.manufacturer_code().unwrap().to_text(), "ABCD");
    assert_eq!(cart.title().unwrap().len(), 11);
}

#[test]
fn test_licensee_selection() {
    // old byte 0x01 resolves through the legacy table; new bytes are ignored
    let mut b = test_rom();
    b[0x144] = b'0';
    b[0x145] = b'1';
    let cart = cart_from(b.clone());
    assert_eq!(cart.publisher().name, "Nintendo");
    assert_eq!(cart.publisher().old_code, 0x01);

    // old byte 0x33 forces the new-style table
    b[0x14B] = 0x33;
    let cart = cart_from(b.clone());
    assert_eq!(cart.publisher().name, "Nintendo R&D1");
    assert_eq!(cart.publisher().old_code, 0x33);

    // ... regardless of the new bytes' own validity: a miss degrades
    b[0x144] = 0xFF;
    b[0x145] = 0xFF;
    let cart = cart_from(b);
    assert_eq!(cart.publisher().name, "None");
}

#[test]
fn test_licensee_errors() {
    assert_eq!(
        Publisher::try_from_old(0x33),
        Err(JayBoyError::NewLicenseeRequired)
    );
    assert_eq!(
        Publisher::try_from_old(0x02),
        Err(JayBoyError::UnknownOldLicensee(0x02))
    );
    assert_eq!(
        Publisher::try_from_new([0xFF, 0x30]),
        Err(JayBoyError::UnknownNewLicensee(0xFF, 0x30))
    );
    let nintendo = Publisher::try_from_old(0x01).unwrap();
    assert_eq!(nintendo.name, "Nintendo");
    assert_eq!(nintendo.old_code, 0x01);
    assert_eq!(nintendo.new_code, [0x00, 0x00]);
}

#[test]
fn test_header_fields() {
    let mut b = test_rom();
    b[0x100..0x104].copy_from_slice(&[0x00, 0xC3, 0x50, 0x01]);
    b[0x146] = 0x03;
    b[0x14C] = 0x02;
    b[0x14E] = 0xAB;
    b[0x14F] = 0xCD;
    let cart = cart_from(b);
    assert_eq!(cart.entry_point(), &[0x00, 0xC3, 0x50, 0x01]);
    assert_eq!(cart.logo_bytes(), nintendo_logo().as_slice());
    assert!(cart.sgb_support());
    assert_eq!(cart.destination(), Destination::Japan);
    assert_eq!(cart.version(), 0x02);
    assert_eq!(cart.global_checksum(), 0xABCD);
    assert_eq!(cart.header_bytes().len(), 0x50);
    assert_eq!(cart.non_header_bytes().len(), 0);
    assert_eq!(cart.get_bytes().len(), 0x150);
}

#[test]
fn test_nintendo_logo() {
    let cart = cart_from(test_rom());
    assert!(validate_nintendo_logo(&cart).is_ok());

    let mut bad = test_rom();
    bad[0x104] ^= 0x01;
    let cart = cart_from(bad);
    assert_eq!(
        validate_nintendo_logo(&cart),
        Err(JayBoyError::InvalidLogo)
    );
}

#[test]
fn test_header_checksum_recompute() {
    let b = test_rom();
    let cart = cart_from(b.clone());
    // the stored byte of a genuine image equals the recomputation
    assert_eq!(generate_header_checksum(&cart), b[0x14D]);
    // an all-zero region folds to (0 - 0 - 25) mod 256
    let zero = Cartridge::from_bytes(String::from("zero.gb"), vec![0u8; 0x150]).unwrap();
    assert_eq!(generate_header_checksum(&zero), 231);
}

#[test]
fn test_header_checksum_detects_any_single_flip() {
    let b = test_rom();
    let original = generate_header_checksum(&cart_from(b.clone()));
    for addr in 0x134..=0x14C {
        let mut flipped = b.clone();
        flipped[addr] ^= 0x5A;
        let recomputed = generate_header_checksum(&cart_from(flipped));
        assert_ne!(recomputed, original, "flip at {addr:#X} went undetected");
    }
}

#[test]
fn test_validate_cart() {
    let b = test_rom();
    assert!(validate_cart(&cart_from(b.clone())).is_ok());

    let mut bad_logo = b.clone();
    bad_logo[0x110] = 0xAA;
    assert_eq!(
        validate_cart(&cart_from(bad_logo)),
        Err(JayBoyError::InvalidLogo)
    );

    let mut bad_type = b.clone();
    bad_type[0x147] = 0x42;
    let cart = cart_from(bad_type);
    assert_eq!(
        validate_cart(&cart),
        Err(JayBoyError::UnknownCartridgeType(0x42))
    );
    assert_eq!(
        validate_ram_size_vs_cartridge_type(&cart),
        Err(JayBoyError::UnknownCartridgeType(0x42))
    );

    let mut no_ram = b.clone();
    no_ram[0x149] = 0x00; // type 0x13 declares RAM but the size says none
    assert_eq!(
        validate_cart(&cart_from(no_ram)),
        Err(JayBoyError::RamSizeMismatch)
    );

    let mut bad_sum = b.clone();
    bad_sum[0x14D] ^= 0xFF;
    assert_eq!(
        validate_cart(&cart_from(bad_sum)),
        Err(JayBoyError::HeaderChecksumMismatch)
    );
}

#[test]
fn test_global_checksum() {
    let mut b = test_rom();
    let sum = generate_global_checksum(&cart_from(b.clone()));
    b[0x14E] = (sum >> 8) as u8;
    b[0x14F] = (sum & 0xFF) as u8;
    let cart = cart_from(b.clone());
    // the two stored bytes are excluded from the sum, so it is unchanged
    assert_eq!(generate_global_checksum(&cart), sum);
    assert!(validate_global_checksum(&cart).is_ok());

    b[0x14F] ^= 0x01;
    assert_eq!(
        validate_global_checksum(&cart_from(b)),
        Err(JayBoyError::GlobalChecksumMismatch)
    );
}

#[test]
fn test_decode_is_idempotent() {
    let cart = cart_from(test_rom());
    assert_eq!(cart.title().unwrap(), cart.title().unwrap());
    assert_eq!(cart.manufacturer_code(), cart.manufacturer_code());
    assert_eq!(cart.cgb_flag(), cart.cgb_flag());
    assert_eq!(cart.publisher(), cart.publisher());
    assert_eq!(cart.cartridge_type(), cart.cartridge_type());
    assert_eq!(cart.rom_size(), cart.rom_size());
    assert_eq!(cart.ram_size(), cart.ram_size());
    assert_eq!(cart.destination(), cart.destination());
    assert_eq!(cart.version(), cart.version());
    assert_eq!(cart.header_checksum(), cart.header_checksum());
    assert_eq!(cart.global_checksum(), cart.global_checksum());
}

#[test]
fn test_cart_describe() {
    let cart = cart_from(test_rom());
    let text = cart.describe().unwrap();
    assert_eq!(
        text,
        "File: TETRIS.gb\nTitle: TETRIS\nPublisher: Nintendo\nType: 0x13: MBC3+RAM+BATTERY\n\
         ROM: 32 KiB,  RAM: 8 KiB\nDest: Japan,  Version: 0\n"
    );

    let mut bad = test_rom();
    bad[0x147] = 0x42;
    assert_eq!(
        cart_from(bad).describe(),
        Err(JayBoyError::UnknownCartridgeType(0x42))
    );
}

#[test]
fn test_decode_warnings_collected() {
    // a clean header surfaces no warnings
    assert_eq!(cart_from(test_rom()).decode_warnings(), Vec::new());

    // every degraded field is collected; none stops the others
    let mut b = test_rom();
    b[0x135] = 0xFE; // non-ASCII title
    b[0x14B] = 0x02; // old licensee with no entry
    b[0x149] = 0x77; // RAM size with no entry
    b[0x14A] = 0x09; // destination with no entry
    let cart = cart_from(b.clone());
    assert_eq!(
        cart.decode_warnings(),
        vec![
            JayBoyError::InvalidText,
            JayBoyError::UnknownOldLicensee(0x02),
            JayBoyError::UnknownRamSize(0x77),
            JayBoyError::UnknownDestination(0x09),
        ]
    );
    // the degraded fields still decode
    assert!(cart.title().is_none());
    assert_eq!(cart.publisher().name, "None");
    assert_eq!(cart.ram_size(), 0);
    assert_eq!(cart.destination(), Destination::Overseas);

    // with old byte 0x33 the warning comes from the new-style table
    b[0x14B] = 0x33;
    b[0x144] = 0xAA;
    b[0x145] = 0xBB;
    assert_eq!(
        cart_from(b).decode_warnings(),
        vec![
            JayBoyError::InvalidText,
            JayBoyError::UnknownNewLicensee(0xAA, 0xBB),
            JayBoyError::UnknownRamSize(0x77),
            JayBoyError::UnknownDestination(0x09),
        ]
    );
}

#[test]
fn test_cgb_flag_values() {
    assert_eq!(CGBFlag::try_from(0x80), Some(CGBFlag::Compat));
    assert_eq!(CGBFlag::try_from(0xC0), Some(CGBFlag::GCBOnly));
    assert_eq!(CGBFlag::try_from(0x88), Some(CGBFlag::PGBMode));
    assert_eq!(CGBFlag::try_from(0x84), Some(CGBFlag::PGBMode));
    assert_eq!(CGBFlag::try_from(0x00), None);
    assert!(CGBFlag::not_none(0x80));
    assert!(!CGBFlag::not_none(0x54));
}
