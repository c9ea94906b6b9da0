use calendar_log::colour::parse_6_hex;
use calendar_log::colour::parse_colour;
use calendar_log::colour::Colour;

#[test]
fn parse_hex_works() {
    assert_eq!(parse_6_hex(b"C92DA1"), Some([0xC9, 0x2D, 0xA1]));
    assert_eq!(parse_6_hex(b"4AA4B9"), Some([0x4A, 0xA4, 0xB9]));
    assert_eq!(parse_6_hex(b"4AA4B/"), None);
    assert_eq!(parse_6_hex(b":AA4B9"), None);
    assert_eq!(parse_6_hex(b"4AA@B9"), None);
    assert_eq!(parse_6_hex(b"4AG4B9"), None);
}

#[test]
fn colour_literal_exact_bytes() {
    assert_eq!(parse_colour("#C92DA1"), Some(Colour { r: 0xC9, g: 0x2D, b: 0xA1 }));
    assert_eq!(parse_colour("#FF0000"), Some(Colour { r: 255, g: 0, b: 0 }));
}

#[test]
fn colour_literal_rejections() {
    // G is not a hex digit
    assert_eq!(parse_colour("#4AG4B9"), None);
    // missing the # prefix
    assert_eq!(parse_colour("4AA4B9"), None);
    // lowercase digits are rejected
    assert_eq!(parse_colour("#c92da1"), None);
    // wrong lengths
    assert_eq!(parse_colour("#FF000"), None);
    assert_eq!(parse_colour("#FF00000"), None);
    assert_eq!(parse_colour(""), None);
    assert_eq!(parse_colour("#"), None);
}
