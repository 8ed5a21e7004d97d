use jayboy::errors::JayBoyError;
use jayboy::memory::ByteBound;
use jayboy::memory::Memory;
use jayboy::memory::MemoryArea;
use jayboy::memory::ReadOnlyMemory;
use jayboy::memory::ReadWriteMemory;
use jayboy::memory::VecMemory;

#[test]
fn test_get_byte_bounds() {
    let m = VecMemory::new(vec![10, 20, 30]);
    assert_eq!(m.len(), 3);
    assert!(!m.is_empty());
    assert_eq!(m.get_byte(0), Ok(10));
    assert_eq!(m.get_byte(2), Ok(30));
    assert_eq!(m.get_byte(3), Err(JayBoyError::IndexOutOfRange));
}

#[test]
fn test_get_bytes_ranges() {
    let m = VecMemory::new(vec![10, 20, 30, 40]);
    assert_eq!(
        m.get_bytes(ByteBound::Included(1), ByteBound::Included(2)),
        Ok(&[20u8, 30][..])
    );
    assert_eq!(
        m.get_bytes(ByteBound::Included(1), ByteBound::Excluded(2)),
        Ok(&[20u8][..])
    );
    assert_eq!(
        m.get_bytes(ByteBound::Unbounded, ByteBound::Unbounded),
        Ok(&[10u8, 20, 30, 40][..])
    );
    assert_eq!(
        m.get_bytes(ByteBound::Excluded(0), ByteBound::Unbounded),
        Ok(&[20u8, 30, 40][..])
    );
    assert_eq!(
        m.get_bytes(ByteBound::Included(4), ByteBound::Unbounded),
        Err(JayBoyError::StartOutOfRange)
    );
    assert_eq!(
        m.get_bytes(ByteBound::Included(0), ByteBound::Included(4)),
        Err(JayBoyError::EndOutOfRange)
    );
    assert_eq!(
        m.get_bytes(ByteBound::Included(2), ByteBound::Excluded(1)),
        Err(JayBoyError::EndOutOfRange)
    );
}

#[test]
fn test_set_byte_and_bytes() {
    let mut m = VecMemory::new(vec![0; 4]);
    assert_eq!(m.set_byte(1, 0xAA), Ok(()));
    assert_eq!(m.get_byte(1), Ok(0xAA));
    assert_eq!(m.set_byte(4, 0xAA), Err(JayBoyError::IndexOutOfRange));

    assert_eq!(
        m.set_bytes(ByteBound::Included(1), ByteBound::Included(2), &[7, 8]),
        Ok(())
    );
    assert_eq!(
        m.get_bytes(ByteBound::Unbounded, ByteBound::Unbounded),
        Ok(&[0u8, 7, 8, 0][..])
    );
    // a replacement of the wrong length is an error, not a truncation
    assert_eq!(
        m.set_bytes(ByteBound::Included(1), ByteBound::Included(2), &[7]),
        Err(JayBoyError::LengthMismatch)
    );
    assert_eq!(
        m.set_bytes(ByteBound::Included(9), ByteBound::Unbounded, &[7]),
        Err(JayBoyError::StartOutOfRange)
    );
}

#[test]
fn test_memory_area_bits() {
    let bytes = [0b0000_0001u8, 0b0000_0010, 0, 0, 0, 0, 0, 0];
    let area = MemoryArea::new(&bytes);
    assert_eq!(area.len(), 8);
    assert!(!area.is_empty());
    // bit 0 lives in byte 0 under mask 1 << 0
    assert!(area.get_bit(0));
    // bit 9 lives in byte 1 under mask 1 << 1
    assert!(area.get_bit(9));
    assert!(!area.get_bit(1));
}

#[test]
fn test_boot_rom_window() {
    let mut memory = Memory::new();
    assert_eq!(memory.get_boot_rom(), &[0u8; 256][..]);
    let rom = [0x31u8; 256];
    memory.set_boot_rom(&rom);
    assert_eq!(memory.get_boot_rom(), &rom[..]);
}
