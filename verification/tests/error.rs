use nes_core::error::Error;
use nes_core::text::{
    digit, push_binary_byte, push_decimal, push_hex_byte, push_hex_word, push_two_digits,
};

#[test]
fn every_kind_of_error_reads_in_words() {
    assert_eq!(
        Error::format_err("Invalid iNES header".to_string()).message(),
        "Format Error: Invalid iNES header"
    );
    assert_eq!(Error::invalid_opcode(0x8000, 0x02).message(), "Invalid Opcode at 0x8000: 0x02");
    assert_eq!(Error::invalid_opcode(0x00AB, 0xFF).message(), "Invalid Opcode at 0x00AB: 0xFF");
    assert_eq!(Error::invalid_opcode(0xFFFF, 0x0C).message(), "Invalid Opcode at 0xFFFF: 0x0C");
    assert_eq!(Error::missing_cart().message(), "Missing cartridge!");
    assert_eq!(Error::other_error("no room".to_string()).message(), "Error: no room");
    assert_eq!(Error::unsupported_mapper(4).message(), "Unsupported mapper: 4");
    assert_eq!(Error::unsupported_mapper(0).message(), "Unsupported mapper: 0");
    assert_eq!(Error::unsupported_mapper(245).message(), "Unsupported mapper: 245");
    assert_eq!(Error::unsupported_mapper(65535).message(), "Unsupported mapper: 65535");
    let io = std::io::Error::new(std::io::ErrorKind::NotFound, "no such cartridge");
    assert_eq!(Error::from(io).message(), "IO Error: no such cartridge");
}

#[test]
fn errors_are_made_from_their_causes() {
    assert!(matches!(Error::from("oops".to_string()), Error::OtherErr(s) if s == "oops"));
    let io = std::io::Error::new(std::io::ErrorKind::Other, "x");
    assert!(matches!(Error::from(io), Error::IOErr(_)));
    assert!(matches!(Error::format_err(String::new()), Error::FormatErr(s) if s.is_empty()));
    assert!(matches!(Error::invalid_opcode(1, 2), Error::InvalidOpcodeErr(1, 2)));
    assert!(matches!(Error::missing_cart(), Error::MissingCartErr));
    assert!(matches!(Error::unsupported_mapper(9), Error::UnsupportedMapperErr(9)));
    let r: nes_core::error::Result<u8> = Err(Error::missing_cart());
    assert!(r.is_err());
}

#[test]
fn numbers_are_written_in_digits() {
    let digits: String = (0..16).map(digit).collect();
    assert_eq!(digits, "0123456789ABCDEF");
    let mut text = String::from(">");
    push_hex_byte(&mut text, 0x0A);
    push_hex_word(&mut text, 0x12EF);
    push_decimal(&mut text, 10);
    push_decimal(&mut text, 9);
    push_decimal(&mut text, 100);
    push_decimal(&mut text, 1005);
    push_decimal(&mut text, 40000);
    assert_eq!(text, ">0A12EF109100100540000");
    let mut text = String::new();
    push_two_digits(&mut text, 7);
    push_two_digits(&mut text, 63);
    push_binary_byte(&mut text, 0b1010_0001);
    push_binary_byte(&mut text, 0);
    assert_eq!(text, "07631010000100000000");
}
