use milkv::ansi::{AnsiParser, Out};

#[test]
fn test() {
    let mut buf = [0; 4];
    for i in 0x9F + 1..=u32::MAX {
        if let Some(v) = char::from_u32(i) {
            let str = v.encode_utf8(&mut buf);
            // a byte in 0x80..=0x9f never starts the encoding of such a character
            // (continuation bytes can be in that range: U+00C0 is c3 80)
            let has = str.as_bytes().iter().take(1).any(|v| (0x80..=0x9f).contains(v));
            assert!(!has, "{:02x?}", (i, str.as_bytes()));
        }
    }
}

#[test]
fn utf8_bytes_pass_through_as_data() {
    let mut buf = [0; 4];
    for i in 0x9F + 1..=0x10FFFFu32 {
        if let Some(v) = char::from_u32(i) {
            let str = v.encode_utf8(&mut buf);
            let mut parser: AnsiParser<64> = AnsiParser::new();
            for b in str.as_bytes() {
                match parser.next(*b as char) {
                    Out::Data(d) => assert_eq!(d, *b as char, "{:02x?}", (i, str.as_bytes())),
                    other => panic!("{:02x?} gave {:?}", (i, str.as_bytes()), other),
                }
            }
        }
    }
}

#[test]
fn plain_text_passes_through() {
    let mut parser: AnsiParser<64> = AnsiParser::new();
    for c in "hi".chars() {
        match parser.next(c) {
            Out::Data(d) => assert_eq!(d, c),
            _ => panic!("text came out as a control"),
        }
    }
}
