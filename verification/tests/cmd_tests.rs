use milkv::cmd::{
    commands, int_error_message, parse_bool, parse_command, parse_gpio_kind, parse_timer_op, parse_u16, parse_u32,
    parse_u8, parse_usize, split_once, split_whitespace, trim, ArgError, ArgType, ArgValue, CommandError, GpioKind,
    IntErrorKind, TimerOp,
};
use milkv::line_editor::{decimal, Key, LineEditor};

#[test]
fn words() {
    assert_eq!(trim("  ab c \t"), "ab c");
    assert_eq!(trim("   "), "");
    assert_eq!(split_once("md.8 1 2"), Some(("md.8", "1 2")));
    assert_eq!(split_once("help"), None);
    assert_eq!(split_whitespace("  a  bc\td "), vec!["a", "bc", "d"]);
    assert_eq!(split_whitespace(""), Vec::<&str>::new());
}

#[test]
fn integers() {
    assert_eq!(parse_u8("0x1f"), Ok(31));
    assert_eq!(parse_u8("0b101"), Ok(5));
    assert_eq!(parse_u8("255"), Ok(255));
    assert_eq!(parse_u8("256"), Err("Integer too large"));
    assert_eq!(parse_u8(""), Err("Empty"));
    assert_eq!(parse_u8("0x"), Err("Empty"));
    assert_eq!(parse_u8("12a"), Err("Invalid digit"));
    // an optional leading `+`, as the documentation of `from_str_radix` allows
    assert_eq!(parse_u8("+7"), Ok(7));
    assert_eq!(parse_u8("0x+ff"), Ok(255));
    assert_eq!(parse_u8("+"), Err("Invalid digit"));
    assert_eq!(parse_u8("+300"), Err("Integer too large"));
    assert_eq!(parse_usize("-1"), Err("Invalid digit"));
    assert_eq!(parse_u16("0xffff"), Ok(0xffff));
    assert_eq!(parse_u32("4294967295"), Ok(u32::MAX));
    assert_eq!(parse_usize("0x8000_0000"), Err("Invalid digit"));
    assert_eq!(parse_usize("0x80000000"), Ok(0x8000_0000));
    assert_eq!(int_error_message(IntErrorKind::Zero), "Cannot be zero");
    assert_eq!(int_error_message(IntErrorKind::NegOverflow), "Integer too small");
}

#[test]
fn words_as_values() {
    assert_eq!(parse_bool("true"), Ok(true));
    assert_eq!(parse_bool("false"), Ok(false));
    assert_eq!(parse_bool("yes"), Err("Invalid repr, expected ['true', 'false']"));
    assert_eq!(parse_gpio_kind("toggle"), Ok(GpioKind::Toggle));
    assert_eq!(parse_gpio_kind("Set"), Ok(GpioKind::SetValue));
    assert_eq!(parse_gpio_kind("x"), Err("Invalid repr, expected ['Toggle', 'Set', 'Get']"));
    assert_eq!(parse_timer_op("ci"), Ok(TimerOp::Ci));
    assert_eq!(parse_timer_op("E"), Ok(TimerOp::E));
    assert_eq!(parse_timer_op("set"), Ok(TimerOp::SetLoad));
    assert_eq!(parse_timer_op("Stop"), Err("Invalid repr, expected ['Read', 'Ei', 'E', 'C', 'Set']"));
}

#[test]
fn commands_with_defaults() {
    let table = commands();
    assert_eq!(table.len(), 31);
    match parse_command(&table, "md.8 0x100") {
        Ok(p) => {
            assert_eq!(table[p.index].name, "md.8");
            assert_eq!(p.values, vec![ArgValue::Usize(0x100), ArgValue::Usize(256)]);
        }
        Err(_) => panic!("md.8 takes an address"),
    }
    match parse_command(&table, "  gpio toggle 29  ") {
        Ok(p) => {
            assert_eq!(table[p.index].name, "gpio");
            assert_eq!(p.args, "toggle 29");
            assert_eq!(p.values, vec![ArgValue::Gpio(GpioKind::Toggle), ArgValue::U8(29), ArgValue::Bool(false)]);
        }
        Err(_) => panic!("gpio toggle 29 parses"),
    }
    // a default takes the place of a word that does not parse, and leaves the word
    match parse_command(&table, "timer 1 read zz") {
        Ok(p) => assert_eq!(p.values, vec![ArgValue::Usize(1), ArgValue::Timer(TimerOp::Read), ArgValue::U32(0)]),
        Err(_) => panic!("the value has a default"),
    }
}

#[test]
fn command_errors() {
    let table = commands();
    match parse_command(&table, "frobnicate now") {
        Err(CommandError::Unknown(n)) => assert_eq!(n, "frobnicate"),
        _ => panic!("no such command"),
    }
    match parse_command(&table, "goto") {
        Err(CommandError::Args(ArgError::Missing { name, ty })) => {
            assert_eq!(name, "addr");
            assert_eq!(ty, ArgType::Usize);
        }
        _ => panic!("goto needs an address"),
    }
    match parse_command(&table, "mw.8 0x10 300") {
        Err(CommandError::Args(ArgError::Bad { name, err, .. })) => {
            assert_eq!(name, "val");
            assert_eq!(err, "Integer too large");
        }
        _ => panic!("300 is no u8"),
    }
    // without a space after trimming, the command is the line as it came
    match parse_command(&table, "help ") {
        Err(CommandError::Unknown(n)) => assert_eq!(n, "help "),
        _ => panic!("the untrimmed line names no command"),
    }
    assert!(parse_command(&table, "help").is_ok());
}

#[test]
fn line_editing() {
    let mut e = LineEditor::new(8);
    for b in b"ac" {
        let (k, out) = e.feed(*b);
        assert_eq!(k, Key::More);
        assert_eq!(out, vec![*b]);
    }
    // left, then insert before the last character
    assert_eq!(e.feed(0x1b).1, Vec::<u8>::new());
    assert_eq!(e.feed(b'[').1, Vec::<u8>::new());
    assert_eq!(e.feed(b'D').1, b"\x1b[1D".to_vec());
    assert_eq!(e.feed(b'b').1, b"bc\x1b[1D".to_vec());
    assert_eq!(&e.buffer[..e.len], b"abc");
    assert_eq!(e.pos, 2);
    // backspace removes the character before the cursor
    assert_eq!(e.feed(0x08).1, b"\x1b[1D\x1b[0Jc\x1b[1D".to_vec());
    assert_eq!(&e.buffer[..e.len], b"ac");
    let (k, out) = e.feed(13);
    assert_eq!(k, Key::Enter);
    assert_eq!(out, b"\n".to_vec());
    // Ctrl-C clears the line
    let out = e.feed(0x03).1;
    assert_eq!(out, b"\x1b[1D\x1b[0J".to_vec());
    assert_eq!(e.len, 0);
}

#[test]
fn line_is_bounded() {
    let mut e = LineEditor::new(2);
    e.feed(b'x');
    e.feed(b'y');
    assert_eq!(e.feed(b'z').1, Vec::<u8>::new());
    assert_eq!(e.len, 2);
    assert_eq!(decimal(0), b"0".to_vec());
    assert_eq!(decimal(1203), b"1203".to_vec());
}

#[test]
fn backspace_undoes_the_last_byte_typed() {
    let mut e = LineEditor::new(8);
    for &b in b"ab" {
        e.feed(b);
    }
    e.feed(0x1b);
    e.feed(b'[');
    e.feed(b'D');
    assert_eq!(e.pos, 1);
    let (_, echo) = e.feed(b'x');
    assert_eq!(echo, b"xb\x1b[1D".to_vec());
    assert_eq!(&e.buffer[..e.len], b"axb");
    e.feed(0x08);
    assert_eq!(&e.buffer[..e.len], b"ab");
    assert_eq!(e.pos, 1);
}

#[test]
fn editor_takes_only_its_bytes() {
    let mut e = LineEditor::new(4);
    assert!(e.takes(b'a') && e.takes(13) && e.takes(0x08) && e.takes(0x03) && e.takes(0x1b));
    assert!(!e.takes(0x07) && !e.takes(0x80));
    e.feed(0x1b);
    assert!(e.takes(0x07));
    let (k, _) = e.feed(0x03);
    assert_eq!(k, Key::More);
}

#[test]
fn ctrl_c_empties_the_line() {
    let mut e = LineEditor::new(8);
    for &b in b"abc" {
        e.feed(b);
    }
    let (_, echo) = e.feed(0x03);
    assert_eq!(e.len, 0);
    assert_eq!(e.pos, 0);
    assert_eq!(echo, b"\x1b[3D\x1b[0J".to_vec());
}
