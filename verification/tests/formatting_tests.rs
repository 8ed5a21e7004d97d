use jayboy::errors::JayBoyError;
use jayboy::formatting::digit_str;
use jayboy::formatting::hex_digit_str;
use jayboy::formatting::TextBuilder;
use jayboy::native::GByte;
use jayboy::native::GBytes;
use jayboy::native::gb_i8;
use jayboy::native::gb_u16;
use jayboy::native::gb_u8;
use jayboy::text::gb_str;
use jayboy::text::GBText;

#[test]
fn test_empty_build() {
    let text: String = TextBuilder::new().build_string();
    assert_eq!(text.len(), 0);
    assert_eq!(text, String::from(""));
}

#[test]
fn test_builder_appends() {
    let mut b = TextBuilder::new();
    b.append("x = ");
    b.append_udec(1234);
    b.newline();
    b.append_hex_byte(0x0F);
    assert_eq!(b.build_string(), "x = 1234\n0x0F");
}

#[test]
fn test_builder_delimit() {
    let mut b = TextBuilder::new();
    b.delimit(", ", &vec![String::from("a"), String::from("b"), String::from("c")]);
    assert_eq!(b.build_string(), "a, b, c");

    let mut empty = TextBuilder::new();
    empty.delimit(", ", &Vec::new());
    assert_eq!(empty.build_string(), "");
}

#[test]
fn test_builder_enumerate() {
    let mut b = TextBuilder::new();
    b.enumerate(&vec![String::from("ab"), String::from("cd")]);
    assert_eq!(b.build_string(), "abcd");
}

#[test]
fn test_hex_word() {
    let mut b = TextBuilder::new();
    b.append_hex_word(0x0150);
    assert_eq!(b.build_string(), "0x0150");
    assert_eq!(gb_u16(0xBEEF).to_upper_hex(), "0xBEEF");
}

#[test]
fn test_error_messages() {
    assert_eq!(JayBoyError::InvalidLogo.message(), "Invalid Nintendo Logo");
    assert_eq!(JayBoyError::NotEnoughBytes.message(), "Not enough bytes");
}

#[test]
fn test_digit_helpers() {
    assert_eq!(digit_str(0), "0");
    assert_eq!(digit_str(9), "9");
    assert_eq!(hex_digit_str(10), "A");
    assert_eq!(hex_digit_str(15), "F");
}

#[test]
fn test_gbyte_hex() {
    assert_eq!(GByte(0xAB).to_upper_hex(), "0xAB");
    assert_eq!(GByte(0x05).to_upper_hex(), "0x05");
    assert_eq!(u8::from(GByte::from(0x7Fu8)), 0x7F);
}

#[test]
fn test_gbytes_hex_listing() {
    let bytes = [0x01u8, 0xAB, 0xFF];
    assert_eq!(GBytes(&bytes).to_text(), "[0x01,0xAB,0xFF]");
    assert_eq!(GBytes(&[]).to_text(), "[]");
    let roundtrip: &[u8] = GBytes::from(&bytes[..]).into();
    assert_eq!(roundtrip, &bytes[..]);
}

#[test]
fn test_wrapper_integer_conversions() {
    assert_eq!(u8::from(gb_u8::from(0x42u8)), 0x42);
    assert_eq!(i8::from(gb_i8::from(-5i8)), -5);
    assert_eq!(u16::from(gb_u16::from(0xBEEFu16)), 0xBEEF);
}

#[test]
fn test_gb_u16_little_endian() {
    let word = gb_u16::from_le_bytes(0x50, 0x01);
    assert_eq!(u16::from(word), 0x0150);
    assert_eq!(word.to_le_bytes(), [0x50, 0x01]);
    assert_eq!(word.low_byte(), 0x50);
    assert_eq!(word.high_byte(), 0x01);
}

#[test]
fn test_ascii_text_roundtrip() {
    let text = gb_str::try_from_ascii(b"TETRIS").unwrap();
    assert_eq!(text.len(), 6);
    // the rendering really maps each byte to its character
    assert_eq!(text.to_text(), "TETRIS");
    assert_eq!(gb_str::empty().to_text(), "");
    assert_eq!(
        gb_str::try_from_ascii(&[0x80]),
        Err(JayBoyError::InvalidText)
    );
}

#[test]
fn test_uppercase_ascii_alphabet() {
    assert!(gb_str::try_from_uppercase_ascii(b"AB12").is_ok());
    assert!(gb_str::try_from_uppercase_ascii(b"ab12").is_err());
    assert!(gb_str::try_from_uppercase_ascii(b"AB 2").is_err());
}

#[test]
fn test_borrowed_text() {
    let bytes = b"HELLO";
    let text = GBText::try_from_ascii(&bytes[..]).unwrap();
    assert_eq!(text.len(), 5);
    assert!(GBText::try_from_ascii(&[0xC0][..]).is_err());
}
