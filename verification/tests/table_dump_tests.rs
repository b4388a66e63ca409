use milkv::mem::{PageMemory, PageTable, PageTableEntry};
use milkv::paging::{EarlyPageBump, PageInitializer};
use milkv::table_dump::{row_line, table_rows, TableRow};

fn rw() -> PageTableEntry {
    PageTableEntry::COM_RW().bitor(PageTableEntry::DIRTY_ACCESSED())
}

#[test]
fn listing_of_a_small_tree() {
    let mut mem = PageMemory::new();
    let mut bump = EarlyPageBump(0x8010_0000);
    let mut init = PageInitializer::new(0x8000_0000, 0);
    init.map_page(&mut mem, &mut bump, 0x1000, 0x8123_4000, PageTableEntry::COM_EXEC());
    init.map_huge_huge_page(&mut mem, 0x8000_0000, 0x8000_0000, rw());
    let text = PageTable::disp_table(&mem, 0x8000_0000, 0, 5);
    let expected = "root:0x0x80000000 asid:0x5\n\
|0x80100000\n\
||0x80101000\n\
|||0x0000000000001000 -> 0x81234000..0x81235000 --bc__----____x_r\n\
|0x0000000080000000 -> 0x80000000..0xc0000000 --bc__----da___wr\n";
    assert_eq!(String::from_utf8(text).unwrap(), expected);
}

#[test]
fn upper_half_addresses_are_sign_extended() {
    let mut mem = PageMemory::new();
    let mut init = PageInitializer::new(0x8000_0000, 0);
    init.map_huge_huge_page(&mut mem, 0xFFFF_FFC0_0000_0000, 0, rw());
    let rows = table_rows(&mem, 0x8000_0000, 0);
    assert_eq!(rows.len(), 1);
    match rows[0] {
        TableRow::Leaf { level, virt, .. } => {
            assert_eq!(level, 0);
            assert_eq!(virt, 0xFFFF_FFC0_0000_0000);
        }
        _ => panic!("expected a leaf"),
    }
}

#[test]
fn tables_are_reached_through_the_offset() {
    let offset = 0xFFFF_FFFF_0000_0000u64;
    let mut mem = PageMemory::new();
    let mut bump = EarlyPageBump(0x8010_0000);
    let mut init = PageInitializer::new(0x8000_0000, offset);
    init.map_huge_page(&mut mem, &mut bump, 0x4020_0000, 0x9000_0000, rw());
    let rows = table_rows(&mem, 0x8000_0000, offset);
    assert_eq!(
        rows,
        vec![
            TableRow::Table { level: 0, phys: 0x8010_0000 },
            TableRow::Leaf { level: 1, virt: 0x4020_0000, entry: rows_entry(&rows) },
        ]
    );
    let line = String::from_utf8(row_line(&rows[1])).unwrap();
    assert_eq!(line, "||0x0000000040200000 -> 0x90000000..0x90200000 --bc__----da___wr\n");
}

fn rows_entry(rows: &[TableRow]) -> u64 {
    match rows[1] {
        TableRow::Leaf { entry, .. } => entry,
        _ => 0,
    }
}

#[test]
fn a_pointer_in_the_last_level_is_listed_as_invalid() {
    let mut mem = PageMemory::new();
    mem.write(0x1000, 0, PageTableEntry::NON_LEAF().set_ppn(0x2));
    mem.write(0x2000, 0, PageTableEntry::NON_LEAF().set_ppn(0x3));
    mem.write(0x3000, 7, PageTableEntry::NON_LEAF());
    let rows = table_rows(&mem, 0x1000, 0);
    assert_eq!(
        rows,
        vec![
            TableRow::Table { level: 0, phys: 0x2000 },
            TableRow::Table { level: 1, phys: 0x3000 },
            TableRow::Invalid,
        ]
    );
    assert_eq!(String::from_utf8(row_line(&TableRow::Invalid)).unwrap(), "||invalid :3\n");
}

#[test]
fn flags_of_every_bit() {
    // the physical page number (bits 10-59) cleared: bit 59, the trustable flag, with it
    let e = PageTableEntry(u64::MAX & !(0x3_ffff_ffff_ffff << 10));
    let line = String::from_utf8(row_line(&TableRow::Leaf { level: 2, virt: 0xabc000, entry: e.0 })).unwrap();
    assert_eq!(line, "|||0x0000000000abc000 -> 0x00000000..0x00001000 S0bcs_R0R1daguxwr\n");
}
