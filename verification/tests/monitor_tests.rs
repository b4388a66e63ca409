use milkv::monitor::{ascii_column, csr_fields, dump_range, misa_extensions, mie_fields, mstatus_fields, printf_pieces, FormatPiece};

#[test]
fn dump_rows() {
    assert_eq!(dump_range(0x1003, 0x20), (0x1000, 0x1030));
    assert_eq!(dump_range(0x1000, 0x10), (0x1000, 0x1010));
    assert_eq!(dump_range(0x1000, 0), (0x1000, 0x1000));
}

#[test]
fn text_column() {
    assert_eq!(ascii_column(b"Az ~\x00\x7f!"), b"Az.~..!".to_vec());
}

#[test]
fn misa_letters() {
    // I, M, A, F, D, C, S, U
    let misa = (1u64 << 8) | (1 << 12) | 1 | (1 << 5) | (1 << 3) | (1 << 2) | (1 << 18) | (1 << 20) | (2u64 << 62);
    assert_eq!(misa_extensions(misa), vec!['A', 'C', 'D', 'F', 'I', 'M', 'S', 'U']);
    assert_eq!(misa_extensions(0), Vec::<char>::new());
}

#[test]
fn register_fields() {
    let f = mie_fields();
    assert_eq!(f.len(), 13);
    let v = csr_fields(0b1010_1010_0000_1000, &f);
    assert_eq!(v, vec![0, 0, 0, 1, 0, 0, 0, 0, 0, 1, 0, 1, 0b1010]);
    let s = mstatus_fields();
    let v = csr_fields((3 << 11) | (1 << 63) | 0b1000, &s);
    assert_eq!(v[3], 1);
    assert_eq!(v[10], 3);
    assert_eq!(v[25], 1);
    assert_eq!((s[1], s[3], s[10], s[19], s[25]), (("sie", 1), ("mie", 1), ("mpp", 2), ("wpri", 9), ("sd", 1)));
    assert_eq!((f[1], f[7], f[11], f[12]), (("ssie", 1), ("mtie", 1), ("meie", 1), ("0", 4)));
}

#[test]
fn printf_format() {
    let fmt = b"x=%d, s=%s%c!%q%%";
    let p = printf_pieces(fmt);
    assert_eq!(
        p,
        vec![
            FormatPiece::Text { start: 0, end: 2 },
            FormatPiece::Int,
            FormatPiece::Text { start: 4, end: 8 },
            FormatPiece::Str,
            FormatPiece::Text { start: 10, end: 10 },
            FormatPiece::Char,
            FormatPiece::Text { start: 12, end: 13 },
        ]
    );
    assert_eq!(printf_pieces(b"plain"), vec![FormatPiece::Text { start: 0, end: 5 }]);
}
