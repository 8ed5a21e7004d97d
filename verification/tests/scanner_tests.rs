use jayboy::errors::JayBoyError;
use jayboy::rom_scanner::RomScanner;
use jayboy::roms::cart::Cartridge;
use jayboy::roms::validate::nintendo_logo;

fn rom_with_entry_point(ep: [u8; 4]) -> Vec<u8> {
    let mut b = vec![0u8; 0x150];
    b[0x100..0x104].copy_from_slice(&ep);
    b
}

fn rom_with_title(title: &[u8]) -> Vec<u8> {
    let mut b = vec![0u8; 0x150];
    b[0x104..0x134].copy_from_slice(&nintendo_logo());
    b[0x134..0x134 + title.len()].copy_from_slice(title);
    b
}

#[test]
fn test_entry_point_deduplication() {
    let shared = [0x00, 0xC3, 0x50, 0x01];
    let roms = vec![rom_with_entry_point(shared), rom_with_entry_point(shared)];
    let points = RomScanner::scan_entry_points(&roms).unwrap();
    assert_eq!(points, vec![shared]);

    let other = [0x00, 0xC3, 0x00, 0x02];
    let roms = vec![
        rom_with_entry_point(shared),
        rom_with_entry_point(other),
        rom_with_entry_point(shared),
    ];
    let points = RomScanner::scan_entry_points(&roms).unwrap();
    assert_eq!(points.len(), 2);
    // natural byte-sequence order: `other` is smaller at the third byte
    assert_eq!(points, vec![other, shared]);
}

#[test]
fn test_entry_point_sort_order() {
    let a = [0x01, 0x00, 0x00, 0x00];
    let b = [0x00, 0xFF, 0xFF, 0xFF];
    let c = [0x00, 0xFF, 0xFF, 0xFE];
    let roms = vec![
        rom_with_entry_point(a),
        rom_with_entry_point(b),
        rom_with_entry_point(c),
    ];
    let points = RomScanner::scan_entry_points(&roms).unwrap();
    assert_eq!(points, vec![c, b, a]);
}

#[test]
fn test_entry_point_scan_rejects_short_image() {
    let roms = vec![rom_with_entry_point([1, 2, 3, 4]), vec![0u8; 0x102]];
    assert_eq!(
        RomScanner::scan_entry_points(&roms),
        Err(JayBoyError::EndOutOfRange)
    );
    let roms = vec![vec![0u8; 0x40]];
    assert_eq!(
        RomScanner::scan_entry_points(&roms),
        Err(JayBoyError::StartOutOfRange)
    );
}

#[test]
fn test_scan_titles() {
    let carts = vec![
        Cartridge::from_bytes(String::from("a.gb"), rom_with_title(b"TETRIS")).unwrap(),
        Cartridge::from_bytes(String::from("b.gb"), rom_with_title(b"")).unwrap(),
        Cartridge::from_bytes(String::from("c.gb"), rom_with_title(&[0xFE])).unwrap(),
    ];
    let titles = RomScanner::scan_titles(&carts);
    assert_eq!(titles.len(), 3);
    assert_eq!(titles[0].to_text(), "TETRIS");
    // an empty title region and a non-ASCII title both yield the empty text
    assert_eq!(titles[1].to_text(), "");
    assert_eq!(titles[2].to_text(), "");
}
