//! What the boot loader's monitor shows: the rows of a memory dump, the extensions that
//! `misa` names, the fields of the interrupt and status registers, and the pieces of a
//! `printf` format.
use vstd::prelude::*;

verus! {

/// The bytes of a row of a memory dump.
pub const BLOCK_SIZE: u64 = 16;

/// The rows that a dump of `size` bytes from `addr` shows: from the row of `addr` to the
/// end of the row of its last byte.
pub fn dump_range(addr_area: u64, size: u64) -> (r: (u64, u64))
    requires
        addr_area + size + 16 <= u64::MAX,
    ensures
        r.0 == addr_area - addr_area % 16,
        r.1 == (addr_area + size + 15) - (addr_area + size + 15) % 16,
{
    let low: u64 = BLOCK_SIZE - 1;
    let addr_start = addr_area & !low;
    let total = addr_area + size + BLOCK_SIZE - 1;
    let addr_end = total & !low;
    assert(addr_start == addr_area - addr_area % 16 && addr_end == total - total % 16) by (bit_vector)
        requires
            low == 15,
            addr_start == addr_area & !low,
            addr_end == total & !low,
    ;
    (addr_start, addr_end)
}

/// The byte that the text column of a dump shows for `b`: itself if it is a visible
/// ASCII character, else a dot.
pub open spec fn shown(b: u8) -> u8 {
    if 0x21 <= b <= 0x7e {
        b
    } else {
        0x2e
    }
}

/// The text column of a row of a dump.
pub fn ascii_column(row: &[u8]) -> (r: Vec<u8>)
    ensures
        r@ == row@.map_values(|b: u8| shown(b)),
{
    let mut r: Vec<u8> = Vec::new();
    let mut i: usize = 0;
    while i < row.len()
        invariant
            i <= row.len(),
            r@ == row@.subrange(0, i as int).map_values(|b: u8| shown(b)),
        decreases row.len() - i,
    {
        let b = row[i];
        r.push(if 0x21 <= b && b <= 0x7e { b } else { 0x2e });
        i = i + 1;
        assert(r@ =~= row@.subrange(0, i as int).map_values(|b: u8| shown(b)));
    }
    assert(row@.subrange(0, row.len() as int) =~= row@);
    r
}

/// The letters of the first `n` extensions that `misa` names: bit `i` for the letter `i`
/// of the alphabet.
pub open spec fn misa_letters(misa: u64, n: int) -> Seq<char>
    decreases n,
{
    if n <= 0 {
        seq![]
    } else if (misa >> ((n - 1) as u64)) & 1 == 1 {
        misa_letters(misa, n - 1).push(('A' as int + n - 1) as char)
    } else {
        misa_letters(misa, n - 1)
    }
}

/// The letters of the extensions that `misa` names, in alphabetical order.
pub fn misa_extensions(misa: u64) -> (r: Vec<char>)
    ensures
        r@ == misa_letters(misa, 26),
{
    let mut r: Vec<char> = Vec::new();
    let mut index: u64 = 0;
    let letters: Vec<char> = vec!['A', 'B', 'C', 'D', 'E', 'F', 'G', 'H', 'I', 'J', 'K', 'L', 'M', 'N', 'O', 'P', 'Q', 'R', 'S', 'T', 'U', 'V', 'W', 'X', 'Y', 'Z'];
    assert(forall|k: int| 0 <= k < 26 ==> letters@[k] == ('A' as int + k) as char);
    while index < 26
        invariant
            index <= 26,
            letters.len() == 26,
            forall|k: int| 0 <= k < 26 ==> letters@[k] == ('A' as int + k) as char,
            r@ == misa_letters(misa, index as int),
        decreases 26 - index,
    {
        let v = letters[index as usize];
        if (misa >> index) & 1 == 1 {
            r.push(v);
        }
        index = index + 1;
    }
    r
}

/// A field of a register: its name and its width in bits.
pub type Field = (&'static str, u64);

/// The value of each field of `value`, the fields laid out from bit 0 up.
pub open spec fn field_values(value: u64, fields: Seq<Field>, at: int) -> Seq<u64>
    decreases fields.len(),
{
    if fields.len() == 0 {
        seq![]
    } else {
        let w = fields[0].1;
        seq![((value >> (at as u64)) & (((1u64 << w) - 1) as u64)) as u64] + field_values(value, fields.drop_first(), at + w)
    }
}

/// The total width of the fields.
pub open spec fn fields_width(fields: Seq<Field>) -> int
    decreases fields.len(),
{
    if fields.len() == 0 {
        0
    } else {
        fields[0].1 + fields_width(fields.drop_first())
    }
}

proof fn lemma_width_nonneg(fields: Seq<Field>)
    ensures
        fields_width(fields) >= 0,
    decreases fields.len(),
{
    if fields.len() > 0 {
        lemma_width_nonneg(fields.drop_first());
    }
}

/// The value of each field of `value`, the fields laid out from bit 0 up.
pub fn csr_fields(value: u64, fields: &Vec<Field>) -> (r: Vec<u64>)
    requires
        fields_width(fields@) <= 64,
        forall|k: int| 0 <= k < fields.len() ==> 1 <= (#[trigger] fields@[k]).1 < 64,
    ensures
        r@ == field_values(value, fields@, 0),
{
    let mut r: Vec<u64> = Vec::new();
    let mut index: u64 = 0;
    let mut k: usize = 0;
    assert(fields@.skip(0) =~= fields@);
    assert(r@ + field_values(value, fields@, 0) =~= field_values(value, fields@, 0));
    while k < fields.len()
        invariant
            k <= fields.len(),
            forall|j: int| 0 <= j < fields.len() ==> 1 <= (#[trigger] fields@[j]).1 < 64,
            index + fields_width(fields@.skip(k as int)) == fields_width(fields@),
            fields_width(fields@) <= 64,
            field_values(value, fields@, 0) == r@ + field_values(value, fields@.skip(k as int), index as int),
        decreases fields.len() - k,
    {
        let (_, width) = fields[k];
        assert(fields@.skip(k as int).drop_first() =~= fields@.skip(k + 1));
        assert(fields@.skip(k as int)[0] == fields@[k as int]);
        proof {
            lemma_width_nonneg(fields@.skip(k + 1));
        }
        assert(1u64 << width >= 1) by (bit_vector)
            requires
                width < 64,
        ;
        let v = (value >> index) & ((1u64 << width) - 1);
        let ghost before = r@;
        r.push(v);
        assert(r@ + field_values(value, fields@.skip(k + 1), index + width) =~= before + field_values(value, fields@.skip(k as int), index as int));
        index = index + width;
        k = k + 1;
    }
    assert(fields@.skip(k as int) =~= Seq::<Field>::empty());
    assert(r@ + Seq::<u64>::empty() =~= r@);
    r
}

/// The fields of `mie` (and `mip`), from bit 0 up: a name and a width in bits.
pub open spec fn mie_layout() -> Seq<(Seq<char>, u64)> {
    seq![
        ("0"@, 1u64), ("ssie"@, 1u64), ("0"@, 1u64), ("msie"@, 1u64), ("0"@, 1u64), ("stie"@, 1u64),
        ("0"@, 1u64), ("mtie"@, 1u64), ("0"@, 1u64), ("seie"@, 1u64), ("0"@, 1u64), ("meie"@, 1u64),
        ("0"@, 4u64),
    ]
}

/// The fields of `mstatus`, from bit 0 up: a name and a width in bits.
pub open spec fn mstatus_layout() -> Seq<(Seq<char>, u64)> {
    seq![
        ("wpri"@, 1u64), ("sie"@, 1u64), ("wpri"@, 1u64), ("mie"@, 1u64), ("wpri"@, 1u64), ("spie"@, 1u64),
        ("ube"@, 1u64), ("mpie"@, 1u64), ("spp"@, 1u64), ("vs"@, 2u64), ("mpp"@, 2u64), ("fs"@, 2u64),
        ("xs"@, 2u64), ("mprv"@, 1u64), ("sum"@, 1u64), ("mxr"@, 1u64), ("tvm"@, 1u64), ("tw"@, 1u64),
        ("tsr"@, 1u64), ("wpri"@, 9u64), ("uxl"@, 2u64), ("sxl"@, 2u64), ("sbe"@, 1u64), ("mbe"@, 1u64),
        ("wpri"@, 25u64), ("sd"@, 1u64),
    ]
}

/// The fields `r` have the names and widths of `layout`, in order.
pub open spec fn fields_match(r: Seq<Field>, layout: Seq<(Seq<char>, u64)>) -> bool {
    &&& r.len() == layout.len()
    &&& forall|k: int| 0 <= k < r.len() ==> (#[trigger] r[k]).0@ == layout[k].0 && r[k].1 == layout[k].1
}

/// The fields of `mie` and `mip` (the names those of `mie`).
pub fn mie_fields() -> (r: Vec<Field>)
    ensures
        fields_match(r@, mie_layout()),
        r.len() == 13,
        fields_width(r@) == 16,
        forall|k: int| 0 <= k < r.len() ==> 1 <= (#[trigger] r@[k]).1 < 64,
{
    let r: Vec<Field> = vec![
        ("0", 1), ("ssie", 1), ("0", 1), ("msie", 1), ("0", 1), ("stie", 1), ("0", 1), ("mtie", 1), ("0", 1),
        ("seie", 1), ("0", 1), ("meie", 1), ("0", 4),
    ];
    reveal_with_fuel(fields_width, 14);
    r
}

/// The fields of `mstatus`.
pub fn mstatus_fields() -> (r: Vec<Field>)
    ensures
        fields_match(r@, mstatus_layout()),
        r.len() == 26,
        fields_width(r@) == 64,
        forall|k: int| 0 <= k < r.len() ==> 1 <= (#[trigger] r@[k]).1 < 64,
{
    let r: Vec<Field> = vec![
        ("wpri", 1), ("sie", 1), ("wpri", 1), ("mie", 1), ("wpri", 1), ("spie", 1), ("ube", 1), ("mpie", 1),
        ("spp", 1), ("vs", 2), ("mpp", 2), ("fs", 2), ("xs", 2), ("mprv", 1), ("sum", 1), ("mxr", 1), ("tvm", 1),
        ("tw", 1), ("tsr", 1), ("wpri", 9), ("uxl", 2), ("sxl", 2), ("sbe", 1), ("mbe", 1), ("wpri", 25), ("sd", 1),
    ];
    reveal_with_fuel(fields_width, 27);
    r
}

/// A piece of a `printf` format: text to show (the bytes `start..end` of the format),
/// or where an argument goes.
#[derive(Clone, Copy, Debug, PartialEq, Eq, Structural)]
pub enum FormatPiece {
    Text { start: usize, end: usize },
    Int,
    Pointer,
    Str,
    Char,
}

/// The index of the first `%` of `fmt` from `i` on, or its length.
pub open spec fn next_pct(fmt: Seq<u8>, i: int) -> int
    decreases fmt.len() - i,
{
    if i < 0 || i >= fmt.len() {
        fmt.len() as int
    } else if fmt[i] == 0x25 {
        i
    } else {
        next_pct(fmt, i + 1)
    }
}

/// The pieces of the part `start..end` of a format (between two `%`): the first part is
/// text; a later one that starts with `d`, `p`, `s` or `c` places an argument and shows
/// the rest as text; any other is left out.
pub open spec fn part_pieces(fmt: Seq<u8>, start: int, end: int, first: bool) -> Seq<FormatPiece> {
    if first {
        seq![FormatPiece::Text { start: start as usize, end: end as usize }]
    } else if start < end && fmt[start] == 0x64 {
        seq![FormatPiece::Int, FormatPiece::Text { start: (start + 1) as usize, end: end as usize }]
    } else if start < end && fmt[start] == 0x70 {
        seq![FormatPiece::Pointer, FormatPiece::Text { start: (start + 1) as usize, end: end as usize }]
    } else if start < end && fmt[start] == 0x73 {
        seq![FormatPiece::Str, FormatPiece::Text { start: (start + 1) as usize, end: end as usize }]
    } else if start < end && fmt[start] == 0x63 {
        seq![FormatPiece::Char, FormatPiece::Text { start: (start + 1) as usize, end: end as usize }]
    } else {
        seq![]
    }
}

/// The pieces of the format `fmt` from `start` on, cut at each `%`.
pub open spec fn pieces_from(fmt: Seq<u8>, start: int, first: bool) -> Seq<FormatPiece>
    decreases fmt.len() - start,
{
    if start < 0 || start > fmt.len() {
        seq![]
    } else {
        let k = next_pct(fmt, start);
        proof {
            lemma_next_pct(fmt, start);
        }
        let here = part_pieces(fmt, start, k, first);
        if k >= fmt.len() {
            here
        } else {
            here + pieces_from(fmt, k + 1, false)
        }
    }
}

pub proof fn lemma_next_pct(fmt: Seq<u8>, i: int)
    requires
        0 <= i <= fmt.len(),
    ensures
        i <= next_pct(fmt, i) <= fmt.len(),
        next_pct(fmt, i) < fmt.len() ==> fmt[next_pct(fmt, i)] == 0x25,
    decreases fmt.len() - i,
{
    if i < fmt.len() && fmt[i] != 0x25 {
        lemma_next_pct(fmt, i + 1);
    }
}

fn push_part(out: &mut Vec<FormatPiece>, fmt: &[u8], start: usize, end: usize, first: bool)
    requires
        start <= end <= fmt.len(),
    ensures
        final(out)@ == old(out)@ + part_pieces(fmt@, start as int, end as int, first),
{
    if first {
        out.push(FormatPiece::Text { start, end });
    } else if start < end {
        let c = fmt[start];
        if c == 0x64 {
            out.push(FormatPiece::Int);
            out.push(FormatPiece::Text { start: start + 1, end });
        } else if c == 0x70 {
            out.push(FormatPiece::Pointer);
            out.push(FormatPiece::Text { start: start + 1, end });
        } else if c == 0x73 {
            out.push(FormatPiece::Str);
            out.push(FormatPiece::Text { start: start + 1, end });
        } else if c == 0x63 {
            out.push(FormatPiece::Char);
            out.push(FormatPiece::Text { start: start + 1, end });
        }
    }
    assert(out@ =~= old(out)@ + part_pieces(fmt@, start as int, end as int, first));
}

/// What `printf` does with the format `fmt`, in order.
pub fn printf_pieces(fmt: &[u8]) -> (r: Vec<FormatPiece>)
    ensures
        r@ == pieces_from(fmt@, 0, true),
{
    let mut out: Vec<FormatPiece> = Vec::new();
    let mut start: usize = 0;
    let mut first = true;
    let mut i: usize = 0;
    while i < fmt.len()
        invariant
            start <= i <= fmt.len(),
            next_pct(fmt@, start as int) == next_pct(fmt@, i as int),
            pieces_from(fmt@, 0, true) == out@ + pieces_from(fmt@, start as int, first),
        decreases fmt.len() - i,
    {
        if fmt[i] == 0x25 {
            proof {
                lemma_next_pct(fmt@, start as int);
            }
            let ghost before = out@;
            push_part(&mut out, fmt, start, i, first);
            assert(out@ + pieces_from(fmt@, i + 1, false) =~= before + pieces_from(fmt@, start as int, first));
            start = i + 1;
            first = false;
        }
        i = i + 1;
    }
    proof {
        lemma_next_pct(fmt@, start as int);
    }
    let ghost before = out@;
    push_part(&mut out, fmt, start, fmt.len(), first);
    assert(out@ =~= before + pieces_from(fmt@, start as int, first));
    out
}

} // verus!
