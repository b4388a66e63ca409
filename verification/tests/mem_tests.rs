use milkv::mem::{
    Identity, OutsideRange, PageMemory, PageTableAddressTranslationError, PageTableEntry, PhyPtr, PhysToVirt,
    PhysToVirtOffsetTranslation, VirtPtr, VirtToPhys, VirtToPhysPageTranslation,
};
use milkv::paging::{kernel_plan, page_init, EarlyPageBump, KernelLayout, Mapping, PageInitializer, PHYS_MAP};

#[test]
fn entry_fields_round_trip() {
    let e = PageTableEntry::new().set_ppn(0x8_0000).set_readable(true).set_valid(true).set_rsw(2);
    assert_eq!(e.ppn(), 0x8_0000);
    assert!(e.readable() && e.valid());
    assert!(!e.writable() && !e.executable());
    assert_eq!(e.rsw(), 2);
    assert!(e.is_leaf());
    assert_eq!(e.perms(), 1);
    assert!(!PageTableEntry::NON_LEAF().is_leaf());
}

#[test]
fn entry_templates() {
    assert_eq!(PageTableEntry::NON_LEAF().0, 0x1);
    assert_eq!(PageTableEntry::COM_EXEC().0, 0x6000_0000_0000_000b);
    assert_eq!(PageTableEntry::COM_RW().0, 0x6000_0000_0000_0007);
    assert_eq!(PageTableEntry::COM_DEV().0, 0x9000_0000_0000_0007);
    assert_eq!(PageTableEntry::DIRTY_ACCESSED().0, 0xc0);
    assert_eq!(PageTableEntry::COM_RO().bitor(PageTableEntry::DIRTY_ACCESSED()).0, 0x6000_0000_0000_00c3);
}

#[test]
fn identity_translation() {
    assert_eq!(PhyPtr(0x1234).to_virt(&Identity), Ok(VirtPtr(0x1234)));
    assert_eq!(VirtPtr(0x5678).to_phys(&Identity), Ok(PhyPtr(0x5678)));
}

#[test]
fn offset_translation_refuses_its_range() {
    let t = PhysToVirtOffsetTranslation::new(0x1000..0x2000, 0x10);
    assert_eq!(t.phys_to_virt(PhyPtr(0x1800)), Err(OutsideRange));
    assert_eq!(t.phys_to_virt(PhyPtr(0x3000)), Ok(VirtPtr(0x3010)));
    let w = PhysToVirtOffsetTranslation::new(0..0, 2);
    assert_eq!(w.phys_to_virt(PhyPtr(u64::MAX)), Ok(VirtPtr(1)));
}

#[test]
fn empty_tables_map_nothing() {
    let t = VirtToPhysPageTranslation::new(PhyPtr(0x8000_0000), Identity, PageMemory::new());
    assert_eq!(t.virt_to_phys(VirtPtr(0x1234)), Err(PageTableAddressTranslationError::NotMapped));
}

#[test]
fn giga_page_translates() {
    let mut mem = PageMemory::new();
    let mut init = PageInitializer::new(0x8000_0000, 0);
    let rw = PageTableEntry::COM_RW();
    init.map_huge_huge_page(&mut mem, 0xFFFF_FFC0_4000_0000, 0x8000_0000, rw);
    let t = VirtToPhysPageTranslation::new(PhyPtr(0x8000_0000), Identity, mem);
    assert_eq!(t.virt_to_phys(VirtPtr(0xFFFF_FFC0_4012_3456)), Ok(PhyPtr(0x8012_3456)));
    assert_eq!(t.virt_to_phys(VirtPtr(0x1000)), Err(PageTableAddressTranslationError::NotMapped));
}

#[test]
fn small_page_walk_reaches_leaf() {
    let mut mem = PageMemory::new();
    let mut bump = EarlyPageBump(0x8010_0000);
    let mut init = PageInitializer::new(0x8000_0000, 0);
    init.map_page(&mut mem, &mut bump, 0x1000, 0x8123_4000, PageTableEntry::COM_RW());
    assert_eq!(bump.0, 0x8010_2000);
    // the root points at the first fresh table, that at the second, which holds the leaf
    let e1 = mem.read(0x8000_0000, 0);
    assert!(e1.valid() && !e1.is_leaf());
    assert_eq!(e1.ppn() << 12, 0x8010_0000);
    let e2 = mem.read(0x8010_0000, 0);
    assert_eq!(e2.ppn() << 12, 0x8010_1000);
    let e3 = mem.read(0x8010_1000, 1);
    assert_eq!(e3.ppn() << 12, 0x8123_4000);
    assert!(e3.readable() && e3.writable());
    // the walk takes the page bits from the root-level entry, as the translation does
    let t = VirtToPhysPageTranslation::new(PhyPtr(0x8000_0000), Identity, mem);
    assert_eq!(t.virt_to_phys(VirtPtr(0x1abc)), Ok(PhyPtr(0x8010_0abc)));
}

#[test]
fn huge_page_uses_root_entry_bits() {
    let mut mem = PageMemory::new();
    let mut bump = EarlyPageBump(0x8010_0000);
    let mut init = PageInitializer::new(0x8000_0000, 0);
    init.map_huge_page(&mut mem, &mut bump, 0x20_0000, 0x9000_0000, PageTableEntry::COM_RW());
    assert_eq!(bump.0, 0x8010_1000);
    let e2 = mem.read(0x8010_0000, 1);
    assert_eq!(e2.ppn() << 12, 0x9000_0000);
    let t = VirtToPhysPageTranslation::new(PhyPtr(0x8000_0000), Identity, mem);
    assert_eq!(t.virt_to_phys(VirtPtr(0x20_1234)), Ok(PhyPtr(0x8000_1234)));
}

#[test]
fn non_leaf_at_last_level_is_malformed() {
    let mut mem = PageMemory::new();
    let mut bump = EarlyPageBump(0x8010_0000);
    let mut init = PageInitializer::new(0x8000_0000, 0);
    init.map_page(&mut mem, &mut bump, 0x1000, 0x8123_4000, PageTableEntry::NON_LEAF());
    let t = VirtToPhysPageTranslation::new(PhyPtr(0x8000_0000), Identity, mem);
    assert_eq!(t.virt_to_phys(VirtPtr(0x1000)), Err(PageTableAddressTranslationError::PageTableMalformed));
}

#[test]
fn map_pages_covers_rounded_size() {
    let mut mem = PageMemory::new();
    let mut bump = EarlyPageBump(0x8010_0000);
    let mut init = PageInitializer::new(0x8000_0000, 0);
    init.map_pages(&mut mem, &mut bump, 0x4000, 0x9000_0000, 0x1001, PageTableEntry::COM_RW());
    assert_eq!(mem.read(0x8010_1000, 4).ppn() << 12, 0x9000_0000);
    assert_eq!(mem.read(0x8010_1000, 5).ppn() << 12, 0x9000_1000);
    assert!(!mem.read(0x8010_1000, 6).valid());
    assert_eq!(bump.0, 0x8010_2000);
}

#[test]
fn kernel_plan_layout() {
    let l = KernelLayout {
        code_size: 0x3000,
        ro_size: 0x1000,
        data_size: 0x1000,
        bss_size: 0x2000,
        total_size: 0x7000,
        phys_start: 0x8000_0000,
        phys_size: 0x400_0000,
        virt_start: 0xFFFF_FFC0_0000_0000,
    };
    let plan = kernel_plan(&l, 0x4000);
    assert_eq!(plan.len(), 17);
    match plan[4] {
        Mapping::Pages { virt, phys, size, .. } => {
            assert_eq!(virt, 0xFFFF_FFC0_0000_8000);
            assert_eq!(phys, 0x8000_7000);
            assert_eq!(size, 0x4000);
        }
        _ => panic!("the stack is a run of pages"),
    }
    match plan[6] {
        Mapping::Giga { virt, phys, entry } => {
            assert_eq!(virt, PHYS_MAP);
            assert_eq!(phys, 0);
            assert_eq!(entry.0, 0x9000_0000_0000_00c7);
        }
        _ => panic!("physical memory is mapped by 1 GiB pages"),
    }
    match plan[10] {
        Mapping::Page { virt, .. } => assert_eq!(virt, 0x0414_0000),
        _ => panic!("devices are single pages"),
    }
}

#[test]
fn page_init_places_root_and_stacks() {
    let mut mem = PageMemory::new();
    let r = page_init(0x4000, 0x3000, 0x1000, 0x1000, 0x2000, 0x7000, 0x400_0000, 320 * 480, &mut mem);
    assert_eq!(r.ctx.priliminary_page_table, 0x8000_0000 + 0x7000 + 0x8000);
    assert_eq!(r.ctx.async_int_stack, 0xFFFF_FFC0_0000_0000 + 0x7000 + 0x1000 + 0x4000);
    assert_eq!(r.ctx.sync_int_stack, 0xFFFF_FFC0_0000_0000 + 0x7000 + 0x2000 + 0x8000);
    assert_eq!(r.ctx.layout.phys_start, 0x8000_0000);
    assert_eq!(r.frame_buf % 4096, 0);
    assert!(r.bump.0 >= r.frame_buf + 38 * 4096);
    // the kernel's code is mapped, executable
    let t = VirtToPhysPageTranslation::new(PhyPtr(r.ctx.priliminary_page_table), Identity, mem);
    assert!(t.virt_to_phys(VirtPtr(0xFFFF_FFC0_0000_0000)).is_ok());
    // all of physical memory is reachable at PHYS_MAP
    assert_eq!(t.virt_to_phys(VirtPtr(PHYS_MAP + 0x0300_1234)), Ok(PhyPtr(0x0300_1234)));
}
