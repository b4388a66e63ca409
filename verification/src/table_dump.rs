//! The listing of a tree of Sv39 page tables that the kernel prints at start: every
//! valid entry reached from the root, one line each, indented by its level.
use vstd::prelude::*;
use crate::mem::{MemoryView, PageMemory, PageTable, PageTableEntry, pte_leaf, pte_ppn, pte_valid};

verus! {

/// The lower-case hexadecimal digit of `d` (below 16).
pub open spec fn hex_digit(d: nat) -> u8 {
    if d < 10 {
        (48 + d) as u8
    } else {
        (87 + d) as u8
    }
}

/// The hexadecimal digits of `v`, the most significant first, without leading zeros.
pub open spec fn hex_spec(v: nat) -> Seq<u8>
    decreases v,
{
    if v < 16 {
        seq![hex_digit(v)]
    } else {
        hex_spec(v / 16).push(hex_digit(v % 16))
    }
}

/// The hexadecimal digits of `v`, padded on the left with `0` to at least `width` digits.
pub open spec fn hex_width(v: nat, width: nat) -> Seq<u8> {
    let d = hex_spec(v);
    if d.len() < width {
        Seq::new((width - d.len()) as nat, |i: int| 48u8) + d
    } else {
        d
    }
}

fn push_hex_digits(out: &mut Vec<u8>, v: u64)
    ensures
        final(out)@ == old(out)@ + hex_spec(v as nat),
    decreases v,
{
    if v >= 16 {
        push_hex_digits(out, v / 16);
    }
    let d = (v % 16) as u8;
    let c = if d < 10 { 48 + d } else { 87 + d };
    out.push(c);
    assert(out@ =~= old(out)@ + hex_spec(v as nat));
}

/// Appends the hexadecimal digits of `v`, padded with `0` to at least `width` digits.
fn push_hex(out: &mut Vec<u8>, v: u64, width: usize)
    ensures
        final(out)@ == old(out)@ + hex_width(v as nat, width as nat),
{
    let mut d: Vec<u8> = Vec::new();
    push_hex_digits(&mut d, v);
    assert(d@ =~= hex_spec(v as nat));
    let mut k: usize = d.len();
    while k < width
        invariant
            d@ == hex_spec(v as nat),
            d.len() <= k <= width || k == d.len(),
            out@ == old(out)@ + Seq::new((k - d.len()) as nat, |i: int| 48u8),
        decreases width - k,
    {
        out.push(48u8);
        k = k + 1;
        assert(out@ =~= old(out)@ + Seq::new((k - d.len()) as nat, |i: int| 48u8));
    }
    let mut j: usize = 0;
    let ghost pad = out@;
    while j < d.len()
        invariant
            j <= d.len(),
            d@ == hex_spec(v as nat),
            out@ == pad + d@.subrange(0, j as int),
        decreases d.len() - j,
    {
        out.push(d[j]);
        j = j + 1;
        assert(out@ =~= pad + d@.subrange(0, j as int));
    }
    assert(d@.subrange(0, d.len() as int) =~= d@);
    assert(out@ =~= old(out)@ + hex_width(v as nat, width as nat));
}

/// One line of the listing.
#[derive(Clone, Copy, PartialEq, Eq, Debug)]
pub enum TableRow {
    /// A leaf of `level` (0 for the root table's) that maps the page of `virt`.
    Leaf { level: u64, virt: u64, entry: u64 },
    /// An entry of `level` (0 or 1) that points at the table at physical address `phys`.
    Table { level: u64, phys: u64 },
    /// A valid entry of the last level that grants no permission.
    Invalid,
}

/// The bytes that an entry of `level` maps.
pub open spec fn page_size(level: nat) -> nat {
    if level == 0 {
        0x4000_0000
    } else if level == 1 {
        0x20_0000
    } else {
        0x1000
    }
}

/// The virtual address of the entry `i` of the root table: `i` in bits 30-38, bit 38
/// copied into the bits above.
pub open spec fn root_virt(i: nat) -> nat {
    if i < 256 {
        i * 0x4000_0000
    } else {
        i * 0x4000_0000 + 0xFFFF_FF80_0000_0000
    }
}

/// The virtual address of the entry `i` of a table of `level` whose first entry maps
/// `vbase`.
pub open spec fn entry_virt(vbase: nat, level: nat, i: nat) -> nat {
    if level == 0 {
        root_virt(i)
    } else {
        vbase + i * page_size(level)
    }
}

/// Where the table that entry `e` points at is reached.
pub open spec fn child_table(e: u64, offset: u64) -> int {
    (pte_ppn(e) << 12u64) + offset
}

/// The lines for the first `n` entries of the table reached at `table`, of `level`,
/// whose first entry maps `vbase`.
pub open spec fn level_rows(m: MemoryView, table: u64, vbase: nat, level: nat, n: nat, offset: u64) -> Seq<TableRow>
    decreases 3 - level, n + 1,
{
    if level > 2 || n == 0 {
        Seq::empty()
    } else {
        level_rows(m, table, vbase, level, (n - 1) as nat, offset)
            + entry_rows(m, table, vbase, level, (n - 1) as nat, offset)
    }
}

/// The lines for entry `i` of the table reached at `table`: none for an entry that is not
/// valid, one for a leaf, and for a pointer one line followed by those of the table it
/// points at.
pub open spec fn entry_rows(m: MemoryView, table: u64, vbase: nat, level: nat, i: nat, offset: u64) -> Seq<TableRow>
    decreases 3 - level, 0nat,
{
    let e = m(table, i as int);
    let virt = entry_virt(vbase, level, i);
    if level > 2 || !pte_valid(e) {
        Seq::empty()
    } else if pte_leaf(e) {
        seq![TableRow::Leaf { level: level as u64, virt: virt as u64, entry: e }]
    } else if level == 2 {
        seq![TableRow::Invalid]
    } else {
        seq![TableRow::Table { level: level as u64, phys: (pte_ppn(e) << 12u64) as u64 }]
            + level_rows(m, child_table(e, offset) as u64, virt, level + 1, 512, offset)
    }
}

/// Every table reached from the first `n` entries of the table at `table` is reached at
/// an address within the 64-bit addresses.
pub open spec fn level_ok(m: MemoryView, table: u64, level: nat, n: nat, offset: u64) -> bool
    decreases 3 - level, n + 1,
{
    if level > 2 || n == 0 {
        true
    } else {
        level_ok(m, table, level, (n - 1) as nat, offset) && entry_ok(m, table, level, (n - 1) as nat, offset)
    }
}

/// The table that entry `i` points at, if it points at one, is reached within the 64-bit
/// addresses, and so is every table below it.
pub open spec fn entry_ok(m: MemoryView, table: u64, level: nat, i: nat, offset: u64) -> bool
    decreases 3 - level, 0nat,
{
    let e = m(table, i as int);
    if level >= 2 || !pte_valid(e) || pte_leaf(e) {
        true
    } else {
        child_table(e, offset) <= u64::MAX && level_ok(m, child_table(e, offset) as u64, level + 1, 512, offset)
    }
}

proof fn lemma_level_ok(m: MemoryView, table: u64, level: nat, n: nat, i: nat, offset: u64)
    requires
        level <= 2,
        level_ok(m, table, level, n, offset),
        i < n,
    ensures
        entry_ok(m, table, level, i, offset),
    decreases n,
{
    if i + 1 < n {
        lemma_level_ok(m, table, level, (n - 1) as nat, i, offset);
    }
}

/// Appends the lines of the table reached at `table`, of `level`, whose first entry maps
/// `vbase`, and of the tables below it.
fn walk_level(mem: &PageMemory, table: u64, vbase: u64, level: u64, offset: u64, out: &mut Vec<TableRow>)
    requires
        level <= 2,
        level_ok(mem.view_mem(), table, level as nat, 512, offset),
        level >= 1 ==> vbase + 512 * page_size(level as nat) <= 0x1_0000_0000_0000_0000,
    ensures
        final(out)@ == old(out)@ + level_rows(mem.view_mem(), table, vbase as nat, level as nat, 512, offset),
    decreases 3 - level,
{
    let ghost m = mem.view_mem();
    let mut i: usize = 0;
    while i < 512
        invariant
            i <= 512,
            level <= 2,
            m == mem.view_mem(),
            level_ok(m, table, level as nat, 512, offset),
            level >= 1 ==> vbase + 512 * page_size(level as nat) <= 0x1_0000_0000_0000_0000,
            out@ == old(out)@ + level_rows(m, table, vbase as nat, level as nat, i as nat, offset),
        decreases 512 - i,
    {
        let ghost before = out@;
        proof {
            lemma_level_ok(m, table, level as nat, 512, i as nat, offset);
        }
        let e = mem.read(table, i);
        let virt: u64 = if level == 0 {
            if i < 256 {
                (i as u64) * 0x4000_0000
            } else {
                (i as u64) * 0x4000_0000 + 0xFFFF_FF80_0000_0000
            }
        } else if level == 1 {
            vbase + (i as u64) * 0x20_0000
        } else {
            vbase + (i as u64) * 0x1000
        };
        assert(virt == entry_virt(vbase as nat, level as nat, i as nat));
        if e.valid() {
            if e.is_leaf() {
                out.push(TableRow::Leaf { level, virt, entry: e.0 });
            } else if level == 2 {
                out.push(TableRow::Invalid);
            } else {
                let phys = e.ppn() << 12;
                out.push(TableRow::Table { level, phys });
                let child = phys + offset;
                walk_level(mem, child, virt, level + 1, offset, out);
            }
        }
        assert(out@ =~= before + entry_rows(m, table, vbase as nat, level as nat, i as nat, offset));
        i = i + 1;
    }
}

/// The lines of the listing of the tables from the root table at physical address `root`,
/// each table reached at its physical address plus `offset`.
pub fn table_rows(mem: &PageMemory, root: u64, offset: u64) -> (r: Vec<TableRow>)
    requires
        root + offset <= u64::MAX,
        level_ok(mem.view_mem(), (root + offset) as u64, 0, 512, offset),
    ensures
        r@ == level_rows(mem.view_mem(), (root + offset) as u64, 0, 0, 512, offset),
{
    let mut out: Vec<TableRow> = Vec::new();
    walk_level(mem, root + offset, 0, 0, offset, &mut out);
    assert(out@ =~= level_rows(mem.view_mem(), (root + offset) as u64, 0, 0, 512, offset));
    out
}

/// `n` bars.
pub open spec fn bars(n: nat) -> Seq<u8> {
    Seq::new(n, |i: int| 0x7Cu8)
}

/// Bit `k` of `e`.
pub open spec fn bit(e: u64, k: u64) -> bool {
    (e >> k) & 1 == 1
}

/// `c` where `b` holds, `_` where not.
pub open spec fn flag(b: bool, c: u8) -> Seq<u8> {
    if b {
        seq![c]
    } else {
        seq![0x5Fu8]
    }
}

/// `c1 c2` where `b` holds, `--` where not.
pub open spec fn flag2(b: bool, c1: u8, c2: u8) -> Seq<u8> {
    if b {
        seq![c1, c2]
    } else {
        seq![0x2Du8, 0x2D]
    }
}

/// The memory-type flags of a leaf: strong order `S0`, bufferable `b`, cacheable `c`,
/// shareable `s`, trustable `t`.
pub open spec fn type_flags_text(e: u64) -> Seq<u8> {
    flag2(bit(e, 63), 0x53, 0x30) + flag(bit(e, 61), 0x62) + flag(bit(e, 62), 0x63)
        + flag(bit(e, 60), 0x73) + flag(bit(e, 59), 0x74)
}

/// The software bits of a leaf: `R0`, `R1`.
pub open spec fn rsw_flags_text(e: u64) -> Seq<u8> {
    let rsw = (e >> 8u64) & 0b11;
    flag2(rsw & 1 == 1, 0x52, 0x30) + flag2(rsw & 2 == 2, 0x52, 0x31)
}

/// The access flags of a leaf: `d` for the accessed bit and `a` for the dirty bit (in
/// that order), global `g`, user `u`, and `x`, `w`, `r`.
pub open spec fn access_flags_text(e: u64) -> Seq<u8> {
    flag(bit(e, 6), 0x64) + flag(bit(e, 7), 0x61) + flag(bit(e, 5), 0x67) + flag(bit(e, 4), 0x75)
        + flag(bit(e, 3), 0x78) + flag(bit(e, 2), 0x77) + flag(bit(e, 1), 0x72)
}

/// The flags of a leaf.
pub open spec fn flags_text(e: u64) -> Seq<u8> {
    type_flags_text(e) + rsw_flags_text(e) + access_flags_text(e)
}

/// `0x`.
pub open spec fn hex_prefix() -> Seq<u8> {
    seq![0x30u8, 0x78]
}

/// The line of a row: a leaf shows its virtual address, the physical range it maps and
/// its flags; a pointer shows the address of the table it points at.
pub open spec fn row_text(row: TableRow) -> Seq<u8> {
    match row {
        TableRow::Leaf { level, virt, entry } => {
            let phys = pte_ppn(entry) << 12u64;
            bars((level + 1) as nat) + hex_prefix() + hex_width(virt as nat, 16)
                + seq![0x20u8, 0x2D, 0x3E, 0x20] + hex_prefix() + hex_width(phys as nat, 8)
                + seq![0x2Eu8, 0x2E] + hex_prefix() + hex_width((phys + page_size(level as nat)) as nat, 8)
                + seq![0x20u8] + flags_text(entry) + seq![0x0Au8]
        },
        TableRow::Table { level, phys } => bars((level + 1) as nat) + hex_prefix() + hex_width(phys as nat, 8)
            + seq![0x0Au8],
        TableRow::Invalid => seq![0x7Cu8, 0x7C, 0x69, 0x6E, 0x76, 0x61, 0x6C, 0x69, 0x64, 0x20, 0x3A, 0x33, 0x0A],
    }
}

fn push_bytes(out: &mut Vec<u8>, b: &[u8])
    ensures
        final(out)@ == old(out)@ + b@,
{
    let mut i: usize = 0;
    while i < b.len()
        invariant
            i <= b.len(),
            out@ == old(out)@ + b@.subrange(0, i as int),
        decreases b.len() - i,
    {
        out.push(b[i]);
        i = i + 1;
        assert(out@ =~= old(out)@ + b@.subrange(0, i as int));
    }
    assert(b@.subrange(0, b.len() as int) =~= b@);
}

fn push_flag(out: &mut Vec<u8>, b: bool, c: u8)
    ensures
        final(out)@ == old(out)@ + flag(b, c),
{
    out.push(if b { c } else { 0x5F });
    assert(out@ =~= old(out)@ + flag(b, c));
}

fn push_flag2(out: &mut Vec<u8>, b: bool, c1: u8, c2: u8)
    ensures
        final(out)@ == old(out)@ + flag2(b, c1, c2),
{
    if b {
        out.push(c1);
        out.push(c2);
    } else {
        out.push(0x2D);
        out.push(0x2D);
    }
    assert(out@ =~= old(out)@ + flag2(b, c1, c2));
}

fn push_bars(out: &mut Vec<u8>, n: u64)
    ensures
        final(out)@ == old(out)@ + bars(n as nat),
{
    let mut i: u64 = 0;
    while i < n
        invariant
            i <= n,
            out@ == old(out)@ + bars(i as nat),
        decreases n - i,
    {
        out.push(0x7C);
        i = i + 1;
        assert(out@ =~= old(out)@ + bars(i as nat));
    }
}

fn push_type_flags(out: &mut Vec<u8>, e: PageTableEntry)
    ensures
        final(out)@ == old(out)@ + type_flags_text(e.0),
{
    let ghost start = out@;
    push_flag2(out, e.strong_order(), 0x53, 0x30);
    push_flag(out, e.bufferable(), 0x62);
    push_flag(out, e.cacheable(), 0x63);
    push_flag(out, e.shareable(), 0x73);
    push_flag(out, e.trustable(), 0x74);
    assert(out@ =~= start + type_flags_text(e.0));
}

fn push_rsw_flags(out: &mut Vec<u8>, e: PageTableEntry)
    ensures
        final(out)@ == old(out)@ + rsw_flags_text(e.0),
{
    let ghost start = out@;
    let rsw = e.rsw();
    push_flag2(out, rsw & 1 == 1, 0x52, 0x30);
    push_flag2(out, rsw & 2 == 2, 0x52, 0x31);
    assert(out@ =~= start + rsw_flags_text(e.0));
}

fn flag_byte(b: bool, c: u8) -> (r: u8)
    ensures
        seq![r] == flag(b, c),
{
    if b { c } else { 0x5F }
}

fn push_access_flags(out: &mut Vec<u8>, e: PageTableEntry)
    ensures
        final(out)@ == old(out)@ + access_flags_text(e.0),
{
    let bytes = [
        flag_byte(e.accessed(), 0x64),
        flag_byte(e.dirty(), 0x61),
        flag_byte(e.global(), 0x67),
        flag_byte(e.user(), 0x75),
        flag_byte(e.executable(), 0x78),
        flag_byte(e.writable(), 0x77),
        flag_byte(e.readable(), 0x72),
    ];
    assert(bytes@ =~= access_flags_text(e.0));
    push_bytes(out, &bytes);
}

/// Appends the flags of a leaf entry.
fn push_flags(out: &mut Vec<u8>, e: PageTableEntry)
    ensures
        final(out)@ == old(out)@ + flags_text(e.0),
{
    let ghost start = out@;
    push_type_flags(out, e);
    push_rsw_flags(out, e);
    push_access_flags(out, e);
    assert(out@ =~= start + flags_text(e.0));
}

/// The line of a row of the listing.
pub fn row_line(row: &TableRow) -> (r: Vec<u8>)
    ensures
        r@ == row_text(*row),
{
    let mut out: Vec<u8> = Vec::new();
    match *row {
        TableRow::Leaf { level, virt, entry } => {
            let e = PageTableEntry(entry);
            let phys = e.ppn() << 12;
            assert(phys < 0x4000_0000_0000_0000u64) by (bit_vector)
                requires
                    phys == ((entry >> 10u64) & 0x3_ffff_ffff_ffffu64) << 12u64,
            ;
            let size: u64 = if level == 0 {
                0x4000_0000
            } else if level == 1 {
                0x20_0000
            } else {
                0x1000
            };
            out.push(0x7C);
            push_bars(&mut out, level);
            push_bytes(&mut out, &[0x30u8, 0x78]);
            push_hex(&mut out, virt, 16);
            push_bytes(&mut out, &[0x20u8, 0x2D, 0x3E, 0x20, 0x30, 0x78]);
            push_hex(&mut out, phys, 8);
            push_bytes(&mut out, &[0x2Eu8, 0x2E, 0x30, 0x78]);
            push_hex(&mut out, phys + size, 8);
            out.push(0x20);
            push_flags(&mut out, e);
            out.push(0x0A);
        },
        TableRow::Table { level, phys } => {
            out.push(0x7C);
            push_bars(&mut out, level);
            push_bytes(&mut out, &[0x30u8, 0x78]);
            push_hex(&mut out, phys, 8);
            out.push(0x0A);
        },
        TableRow::Invalid => {
            push_bytes(&mut out, &[0x7Cu8, 0x7C, 0x69, 0x6E, 0x76, 0x61, 0x6C, 0x69, 0x64, 0x20, 0x3A, 0x33, 0x0A]);
        },
    }
    assert(out@ =~= row_text(*row));
    out
}

/// The first line of the listing: `root:0x`, the root's address as a pointer prints it
/// (`0x` and its digits), then `asid:0x` and the address-space id.
pub open spec fn header_text(root: u64, asid: u64) -> Seq<u8> {
    seq![0x72u8, 0x6F, 0x6F, 0x74, 0x3A, 0x30, 0x78, 0x30, 0x78] + hex_spec(root as nat)
        + seq![0x20u8, 0x61, 0x73, 0x69, 0x64, 0x3A, 0x30, 0x78] + hex_spec(asid as nat) + seq![0x0Au8]
}

/// The lines of `rows`, in order.
pub open spec fn rows_text(rows: Seq<TableRow>) -> Seq<u8>
    decreases rows.len(),
{
    if rows.len() == 0 {
        Seq::empty()
    } else {
        rows_text(rows.drop_last()) + row_text(rows.last())
    }
}

/// The listing of the tables from the root table at physical address `root`, each table
/// reached at its physical address plus `offset`: a first line, then a line for each
/// valid entry, the entries of a table below the pointer to it.
pub open spec fn table_listing(m: MemoryView, root: u64, offset: u64, asid: u64) -> Seq<u8> {
    header_text(root, asid) + rows_text(level_rows(m, (root + offset) as u64, 0, 0, 512, offset))
}

impl PageTable {
    /// The listing of the tables from the root table at physical address `root` (reached,
    /// as every table, at its physical address plus `offset`) in the address space `asid`.
    pub fn disp_table(memory: &PageMemory, root: u64, offset: u64, asid: u64) -> (text: Vec<u8>)
        requires
            root + offset <= u64::MAX,
            level_ok(memory.view_mem(), (root + offset) as u64, 0, 512, offset),
        ensures
            text@ == table_listing(memory.view_mem(), root, offset, asid),
    {
        let rows = table_rows(memory, root, offset);
        let mut out: Vec<u8> = Vec::new();
        push_bytes(&mut out, &[0x72u8, 0x6F, 0x6F, 0x74, 0x3A, 0x30, 0x78, 0x30, 0x78]);
        push_hex(&mut out, root, 0);
        push_bytes(&mut out, &[0x20u8, 0x61, 0x73, 0x69, 0x64, 0x3A, 0x30, 0x78]);
        push_hex(&mut out, asid, 0);
        out.push(0x0A);
        let ghost header = out@;
        assert(hex_width(root as nat, 0) == hex_spec(root as nat));
        assert(hex_width(asid as nat, 0) == hex_spec(asid as nat));
        assert(header =~= header_text(root, asid));
        let mut k: usize = 0;
        while k < rows.len()
            invariant
                k <= rows.len(),
                out@ == header + rows_text(rows@.subrange(0, k as int)),
            decreases rows.len() - k,
        {
            let line = row_line(&rows[k]);
            push_bytes(&mut out, line.as_slice());
            assert(rows@.subrange(0, k + 1).drop_last() =~= rows@.subrange(0, k as int));
            k = k + 1;
        }
        assert(rows@.subrange(0, rows.len() as int) =~= rows@);
        out
    }
}

} // verus!
