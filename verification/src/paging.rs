//! The kernel's early page tables: a bump allocator of zeroed pages and the code that
//! fills the Sv39 tables with mappings of 1 GiB, 2 MiB and 4 KiB pages.
use vstd::prelude::*;
use crate::mem::{
    Identity, MemoryView, PageMemory, PageTableEntry, VirtToPhys, VirtToPhysPageTranslation,
    extract_bits_spec, mask_spec, memory_write, memory_zero, pte_leaf, pte_ppn, pte_valid,
    set_bits_spec, vpn,
};

verus! {

/// The entry that points at the table at physical address `table`: valid, no permission.
pub open spec fn table_entry(table: u64) -> u64 {
    set_bits_spec(set_bits_spec(0, 0, 1, 1), 10, 48, table >> 12u64)
}

/// The template `entry` made to map the page of physical address `phys`.
pub open spec fn leaf_entry(entry: u64, phys: u64) -> u64 {
    set_bits_spec(entry, 10, 48, phys >> 12u64)
}

/// One step down the tables from the table reached at `table`, for the index `index`:
/// the memory after it, the bump pointer after it and the address at which the next
/// table is reached. An entry that is not valid gets a fresh zeroed page from the bump
/// allocator.
pub open spec fn descend(m: MemoryView, bump: u64, table: u64, index: u64, offset: u64) -> (MemoryView, int, int) {
    let e = m(table, index as int);
    if pte_valid(e) {
        (m, bump as int, (pte_ppn(e) << 12u64) + offset)
    } else {
        let ne = table_entry(bump);
        (memory_write(memory_zero(m, bump), table, index as int, ne), bump + 4096, (pte_ppn(ne) << 12u64) + offset)
    }
}

/// The step down stays within the 64-bit addresses.
pub open spec fn descend_ok(m: MemoryView, bump: u64, table: u64, index: u64, offset: u64) -> bool {
    let d = descend(m, bump, table, index, offset);
    d.1 <= u64::MAX && d.2 <= u64::MAX
}

/// The memory and bump pointer after mapping the 4 KiB page of `virt` to `phys`.
pub open spec fn map_page_spec(m: MemoryView, bump: u64, root: u64, virt: u64, phys: u64, entry: u64, offset: u64) -> (MemoryView, int) {
    let d1 = descend(m, bump, root, vpn(virt, 2), offset);
    let d2 = descend(d1.0, d1.1 as u64, d1.2 as u64, vpn(virt, 1), offset);
    (memory_write(d2.0, d2.2 as u64, vpn(virt, 0) as int, leaf_entry(entry, phys)), d2.1)
}

/// Mapping the 4 KiB page of `virt` stays within the 64-bit addresses.
pub open spec fn map_page_ok(m: MemoryView, bump: u64, root: u64, virt: u64, offset: u64) -> bool {
    let d1 = descend(m, bump, root, vpn(virt, 2), offset);
    &&& descend_ok(m, bump, root, vpn(virt, 2), offset)
    &&& descend_ok(d1.0, d1.1 as u64, d1.2 as u64, vpn(virt, 1), offset)
}

/// The memory and bump pointer after mapping the 2 MiB page of `virt` to `phys`.
pub open spec fn map_huge_page_spec(m: MemoryView, bump: u64, root: u64, virt: u64, phys: u64, entry: u64, offset: u64) -> (MemoryView, int) {
    let d1 = descend(m, bump, root, vpn(virt, 2), offset);
    (memory_write(d1.0, d1.2 as u64, vpn(virt, 1) as int, leaf_entry(entry, phys)), d1.1)
}

/// The memory and bump pointer after mapping the first `k` pages of the run at `virt`,
/// `phys`.
pub open spec fn map_pages_spec(m: MemoryView, bump: u64, root: u64, virt: u64, phys: u64, entry: u64, offset: u64, k: nat) -> (MemoryView, int)
    decreases k,
{
    if k == 0 {
        (m, bump as int)
    } else {
        let prev = map_pages_spec(m, bump, root, virt, phys, entry, offset, (k - 1) as nat);
        map_page_spec(prev.0, prev.1 as u64, root, (virt + (k - 1) * 4096) as u64, (phys + (k - 1) * 4096) as u64, entry, offset)
    }
}

/// The number of 4 KiB pages that cover `size` bytes.
pub open spec fn page_count(size: u64) -> int {
    (size + 0xfff) / 4096
}

/// Mapping a run of `n` pages stays within the 64-bit addresses at every page.
pub open spec fn map_pages_ok(m: MemoryView, bump: u64, root: u64, virt: u64, phys: u64, entry: u64, offset: u64, n: int) -> bool {
    &&& n == 0 || (virt + (n - 1) * 4096 <= u64::MAX && phys + (n - 1) * 4096 <= u64::MAX)
    &&& forall|k: nat| #![trigger map_pages_spec(m, bump, root, virt, phys, entry, offset, k)] k < n ==> {
        let s = map_pages_spec(m, bump, root, virt, phys, entry, offset, k);
        s.1 <= u64::MAX && map_page_ok(s.0, s.1 as u64, root, (virt + k * 4096) as u64, offset)
    }
}

/// The early allocator of pages: the address of the next free page.
pub struct EarlyPageBump(pub u64);

impl EarlyPageBump {
    /// Takes the next page and clears it.
    pub fn next_zeroed(&mut self, mem: &mut PageMemory) -> (page: u64)
        requires
            old(self).0 + 4096 <= u64::MAX,
        ensures
            page == old(self).0,
            final(self).0 == old(self).0 + 4096,
            final(mem).view_mem() == memory_zero(old(mem).view_mem(), page),
    {
        let val = self.0;
        self.0 = self.0 + 4096;
        mem.zero(val);
        val
    }

    /// Takes the next page as it is.
    pub fn next_uninit(&mut self) -> (page: u64)
        requires
            old(self).0 + 4096 <= u64::MAX,
        ensures
            page == old(self).0,
            final(self).0 == old(self).0 + 4096,
    {
        let val = self.0;
        self.0 = self.0 + 4096;
        val
    }

    /// Takes the next `n` pages as they are.
    pub fn next_n_uninit(&mut self, n: u64) -> (page: u64)
        requires
            old(self).0 + 4096 * n <= u64::MAX,
        ensures
            page == old(self).0,
            final(self).0 == old(self).0 + 4096 * n,
    {
        let val = self.0;
        self.0 = self.0 + 4096 * n;
        val
    }
}

/// Fills the page tables whose root is reached at `root`; a table at physical address
/// `p` is reached at `p + offset`.
pub struct PageInitializer {
    pub root: u64,
    pub offset: u64,
}

impl PageInitializer {
    pub fn new(root: u64, offset: u64) -> (r: Self)
        requires
            root + offset <= u64::MAX,
        ensures
            r.root == root + offset,
            r.offset == offset,
    {
        Self { root: root + offset, offset }
    }

    fn descend(&self, mem: &mut PageMemory, bump: &mut EarlyPageBump, table: u64, index: u64) -> (next: u64)
        requires
            index < 512,
            descend_ok(old(mem).view_mem(), old(bump).0, table, index, self.offset),
        ensures
            final(mem).view_mem() == descend(old(mem).view_mem(), old(bump).0, table, index, self.offset).0,
            final(bump).0 == descend(old(mem).view_mem(), old(bump).0, table, index, self.offset).1,
            next == descend(old(mem).view_mem(), old(bump).0, table, index, self.offset).2,
    {
        let ghost m0 = mem.view_mem();
        let ghost b0 = bump.0;
        if !mem.read(table, index as usize).valid() {
            let new = bump.next_zeroed(mem);
            let e = PageTableEntry::new().set_valid(true).set_ppn(new >> 12);
            assert(set_bits_spec(0u64, 0, 1, 1) == 1) by (bit_vector);
            mem.write(table, index as usize, e);
        }
        let p = mem.read(table, index as usize).ppn();
        assert(mem.view_mem() == descend(m0, b0, table, index, self.offset).0);
        (p << 12) + self.offset
    }

    /// Maps the 1 GiB page of `virt` to that of `phys` in the root table.
    pub fn map_huge_huge_page(&mut self, mem: &mut PageMemory, virt: u64, phys: u64, entry: PageTableEntry)
        ensures
            final(mem).view_mem() == memory_write(old(mem).view_mem(), old(self).root, vpn(virt, 2) as int, leaf_entry(entry.0, phys)),
            *final(self) == *old(self),
    {
        let ppn2: u64 = (virt >> 30u64) & 0x1ffu64;
        assert(ppn2 < 512) by (bit_vector)
            requires
                ppn2 == (virt >> 30u64) & 0x1ffu64,
        ;
        mem.write(self.root, ppn2 as usize, entry.set_ppn(phys >> 12));
    }

    /// Maps the 2 MiB page of `virt` to that of `phys`, allocating the table of the
    /// second level if the root entry is not valid.
    pub fn map_huge_page(&mut self, mem: &mut PageMemory, bump: &mut EarlyPageBump, virt: u64, phys: u64, entry: PageTableEntry)
        requires
            descend_ok(old(mem).view_mem(), old(bump).0, old(self).root, vpn(virt, 2), old(self).offset),
        ensures
            final(mem).view_mem() == map_huge_page_spec(old(mem).view_mem(), old(bump).0, old(self).root, virt, phys, entry.0, old(self).offset).0,
            final(bump).0 == map_huge_page_spec(old(mem).view_mem(), old(bump).0, old(self).root, virt, phys, entry.0, old(self).offset).1,
            *final(self) == *old(self),
    {
        let ppn2: u64 = (virt >> 30u64) & 0x1ffu64;
        let ppn1: u64 = (virt >> 21u64) & 0x1ffu64;
        assert(ppn2 < 512 && ppn1 < 512) by (bit_vector)
            requires
                ppn2 == (virt >> 30u64) & 0x1ffu64,
                ppn1 == (virt >> 21u64) & 0x1ffu64,
        ;
        let curr = self.descend(mem, bump, self.root, ppn2);
        mem.write(curr, ppn1 as usize, entry.set_ppn(phys >> 12));
    }

    /// Maps the 4 KiB page of `virt` to that of `phys`, allocating the tables of the
    /// lower levels where the entries on the way are not valid.
    pub fn map_page(&mut self, mem: &mut PageMemory, bump: &mut EarlyPageBump, virt: u64, phys: u64, entry: PageTableEntry)
        requires
            map_page_ok(old(mem).view_mem(), old(bump).0, old(self).root, virt, old(self).offset),
        ensures
            final(mem).view_mem() == map_page_spec(old(mem).view_mem(), old(bump).0, old(self).root, virt, phys, entry.0, old(self).offset).0,
            final(bump).0 == map_page_spec(old(mem).view_mem(), old(bump).0, old(self).root, virt, phys, entry.0, old(self).offset).1,
            *final(self) == *old(self),
    {
        let ppn2: u64 = (virt >> 30u64) & 0x1ffu64;
        let ppn1: u64 = (virt >> 21u64) & 0x1ffu64;
        let ppn0: u64 = (virt >> 12u64) & 0x1ffu64;
        assert(ppn2 < 512 && ppn1 < 512 && ppn0 < 512) by (bit_vector)
            requires
                ppn2 == (virt >> 30u64) & 0x1ffu64,
                ppn1 == (virt >> 21u64) & 0x1ffu64,
                ppn0 == (virt >> 12u64) & 0x1ffu64,
        ;
        let curr = self.descend(mem, bump, self.root, ppn2);
        let curr = self.descend(mem, bump, curr, ppn1);
        mem.write(curr, ppn0 as usize, entry.set_ppn(phys >> 12));
    }
    /// Maps the pages that cover `size` bytes from `virt` to those from `phys`, one 4 KiB
    /// page after the other.
    pub fn map_pages(&mut self, mem: &mut PageMemory, bump: &mut EarlyPageBump, virt: u64, phys: u64, size: u64, entry: PageTableEntry)
        requires
            size + 0xfff <= u64::MAX,
            map_pages_ok(old(mem).view_mem(), old(bump).0, old(self).root, virt, phys, entry.0, old(self).offset, page_count(size)),
        ensures
            final(mem).view_mem() == map_pages_spec(old(mem).view_mem(), old(bump).0, old(self).root, virt, phys, entry.0, old(self).offset, page_count(size) as nat).0,
            final(bump).0 == map_pages_spec(old(mem).view_mem(), old(bump).0, old(self).root, virt, phys, entry.0, old(self).offset, page_count(size) as nat).1,
            *final(self) == *old(self),
    {
        let ghost m0 = mem.view_mem();
        let ghost b0 = bump.0;
        let total: u64 = size + 0x0fff;
        let n: u64 = total >> 12u64;
        assert(n == total / 4096 && n <= 0x10_0000_0000_0000) by (bit_vector)
            requires
                n == total >> 12u64,
        ;
        let mut p: u64 = 0;
        while p < n
            invariant
                p <= n,
                n == page_count(size),
                *self == *old(self),
                m0 == old(mem).view_mem(),
                b0 == old(bump).0,
                n <= 0x10_0000_0000_0000,
                mem.view_mem() == map_pages_spec(m0, b0, self.root, virt, phys, entry.0, self.offset, p as nat).0,
                bump.0 == map_pages_spec(m0, b0, self.root, virt, phys, entry.0, self.offset, p as nat).1,
                map_pages_ok(m0, b0, self.root, virt, phys, entry.0, self.offset, n as int),
            decreases n - p,
        {
            let ghost s = map_pages_spec(m0, b0, self.root, virt, phys, entry.0, self.offset, p as nat);
            assert(s.1 <= u64::MAX && map_page_ok(s.0, s.1 as u64, self.root, (virt + p * 4096) as u64, self.offset));
            assert(p << 12u64 == p * 4096) by (bit_vector)
                requires
                    p < 0x10_0000_0000_0000,
            ;
            self.map_page(mem, bump, virt + (p << 12), phys + (p << 12), entry);
            p = p + 1;
        }
    }
}

} // verus!

verus! {

/// The entry of the last level that a walk of `virt` from the root reached at `root`
/// meets, following each entry to the table at its page (reached where it lies).
pub open spec fn level3_entry(m: MemoryView, root: u64, virt: u64) -> u64 {
    let e1 = m(root, vpn(virt, 2) as int);
    let e2 = m(pte_ppn(e1) << 12u64, vpn(virt, 1) as int);
    m(pte_ppn(e2) << 12u64, vpn(virt, 0) as int)
}

/// The entry that points at a page-aligned table below 2^60 is valid, no leaf, and leads
/// back to that table.
proof fn lemma_table_entry(b: u64)
    requires
        b % 4096 == 0,
        b < 0x1000_0000_0000_0000,
    ensures
        pte_valid(table_entry(b)),
        !pte_leaf(table_entry(b)),
        pte_ppn(table_entry(b)) << 12u64 == b,
{
    assert(pte_valid(table_entry(b)) && !pte_leaf(table_entry(b)) && pte_ppn(table_entry(b)) << 12u64 == b)
        by (bit_vector)
        requires
            b % 4096 == 0,
            b < 0x1000_0000_0000_0000,
    ;
}

/// A 1 GiB page mapped with a leaf template translates: the walk from the root finds the
/// leaf and gives bits 30-38 of the physical address and the low 30 bits of the virtual
/// one.
pub proof fn law_huge_huge_page_translates(t: VirtToPhysPageTranslation<Identity>, m: MemoryView, virt: u64, phys: u64, entry: u64)
    requires
        pte_valid(entry),
        pte_leaf(entry),
        t.memory.view_mem() == memory_write(m, t.root.0, vpn(virt, 2) as int, leaf_entry(entry, phys)),
    ensures
        t.translate_virt(virt) == Ok::<u64, crate::mem::PageTableAddressTranslationError<core::convert::Infallible>>(
            (phys & 0x7f_c000_0000) | (virt & 0x3fff_ffff)),
{
    let le = leaf_entry(entry, phys);
    assert(t.memory.view_mem()(t.root.0, vpn(virt, 2) as int) == le);
    assert(pte_valid(le) && pte_leaf(le)) by (bit_vector)
        requires
            le == set_bits_spec(entry, 10, 48, phys >> 12u64),
            (entry >> 0u64) & 1 == 1,
            (entry >> 1u64) & 0b111 != 0,
    ;
    assert(extract_bits_spec(pte_ppn(le) << 12u64, 30, 9) | extract_bits_spec(virt, 0, 30)
        == (phys & 0x7f_c000_0000) | (virt & 0x3fff_ffff)) by (bit_vector)
        requires
            le == set_bits_spec(entry, 10, 48, phys >> 12u64),
    ;
}

/// Mapping a 4 KiB page in a 1 GiB region that had no table yet takes two fresh pages
/// from the bump allocator, and the walk of `virt` through the new tables ends at the
/// leaf that maps `phys`.
pub proof fn law_map_page_reaches_leaf(m: MemoryView, bump: u64, root: u64, virt: u64, phys: u64, entry: u64)
    requires
        !pte_valid(m(root, vpn(virt, 2) as int)),
        bump % 4096 == 0,
        bump + 8192 <= 0x1000_0000_0000_0000,
        root != bump,
        root != bump + 4096,
    ensures
        map_page_ok(m, bump, root, virt, 0),
        level3_entry(map_page_spec(m, bump, root, virt, phys, entry, 0).0, root, virt) == leaf_entry(entry, phys),
        map_page_spec(m, bump, root, virt, phys, entry, 0).1 == bump + 8192,
{
    lemma_table_entry(bump);
    lemma_table_entry((bump + 4096) as u64);
    let d1 = descend(m, bump, root, vpn(virt, 2), 0);
    assert(d1.2 == bump);
    assert(d1.0(bump, vpn(virt, 1) as int) == 0);
    assert(!pte_valid(0u64)) by (bit_vector);
    assert(d1.1 as u64 == bump + 4096);
    let d2 = descend(d1.0, d1.1 as u64, d1.2 as u64, vpn(virt, 1), 0);
    assert(d2.2 == bump + 4096);
    let fin = map_page_spec(m, bump, root, virt, phys, entry, 0).0;
    assert(fin(root, vpn(virt, 2) as int) == table_entry(bump));
    assert(fin(bump, vpn(virt, 1) as int) == table_entry((bump + 4096) as u64));
}

} // verus!

verus! {

/// One mapping that the early tables receive.
#[derive(Clone, Copy, Debug, PartialEq, Eq)]
pub enum Mapping {
    /// The 4 KiB pages that cover `size` bytes.
    Pages { virt: u64, phys: u64, size: u64, entry: PageTableEntry },
    /// One 4 KiB page.
    Page { virt: u64, phys: u64, entry: PageTableEntry },
    /// One 1 GiB page.
    Giga { virt: u64, phys: u64, entry: PageTableEntry },
}

/// The memory and bump pointer after one mapping.
pub open spec fn mapping_spec(m: MemoryView, bump: u64, root: u64, offset: u64, mp: Mapping) -> (MemoryView, int) {
    match mp {
        Mapping::Pages { virt, phys, size, entry } =>
            map_pages_spec(m, bump, root, virt, phys, entry.0, offset, page_count(size) as nat),
        Mapping::Page { virt, phys, entry } => map_page_spec(m, bump, root, virt, phys, entry.0, offset),
        Mapping::Giga { virt, phys, entry } =>
            (memory_write(m, root, vpn(virt, 2) as int, leaf_entry(entry.0, phys)), bump as int),
    }
}

/// One mapping stays within the 64-bit addresses.
pub open spec fn mapping_ok(m: MemoryView, bump: u64, root: u64, offset: u64, mp: Mapping) -> bool {
    match mp {
        Mapping::Pages { virt, phys, size, entry } =>
            size + 0xfff <= u64::MAX && map_pages_ok(m, bump, root, virt, phys, entry.0, offset, page_count(size)),
        Mapping::Page { virt, phys, entry } => map_page_ok(m, bump, root, virt, offset),
        Mapping::Giga { .. } => true,
    }
}

/// The memory and bump pointer after the first `k` mappings of `plan`.
pub open spec fn plan_spec(m: MemoryView, bump: u64, root: u64, offset: u64, plan: Seq<Mapping>, k: nat) -> (MemoryView, int)
    decreases k,
{
    if k == 0 {
        (m, bump as int)
    } else {
        let prev = plan_spec(m, bump, root, offset, plan, (k - 1) as nat);
        mapping_spec(prev.0, prev.1 as u64, root, offset, plan[k - 1])
    }
}

/// Every mapping of `plan` stays within the 64-bit addresses.
pub open spec fn plan_ok(m: MemoryView, bump: u64, root: u64, offset: u64, plan: Seq<Mapping>) -> bool {
    forall|k: nat| #![trigger plan_spec(m, bump, root, offset, plan, k)] k < plan.len() ==> {
        let s = plan_spec(m, bump, root, offset, plan, k);
        s.1 <= u64::MAX && mapping_ok(s.0, s.1 as u64, root, offset, plan[k as int])
    }
}

impl PageInitializer {
    /// Makes the mappings of `plan`, in order.
    pub fn apply(&mut self, mem: &mut PageMemory, bump: &mut EarlyPageBump, plan: &Vec<Mapping>)
        requires
            plan_ok(old(mem).view_mem(), old(bump).0, old(self).root, old(self).offset, plan@),
        ensures
            final(mem).view_mem() == plan_spec(old(mem).view_mem(), old(bump).0, old(self).root, old(self).offset, plan@, plan.len() as nat).0,
            final(bump).0 == plan_spec(old(mem).view_mem(), old(bump).0, old(self).root, old(self).offset, plan@, plan.len() as nat).1,
            *final(self) == *old(self),
    {
        let ghost m0 = mem.view_mem();
        let ghost b0 = bump.0;
        let mut i: usize = 0;
        while i < plan.len()
            invariant
                i <= plan.len(),
                *self == *old(self),
                m0 == old(mem).view_mem(),
                b0 == old(bump).0,
                mem.view_mem() == plan_spec(m0, b0, self.root, self.offset, plan@, i as nat).0,
                bump.0 == plan_spec(m0, b0, self.root, self.offset, plan@, i as nat).1,
                plan_ok(m0, b0, self.root, self.offset, plan@),
            decreases plan.len() - i,
        {
            let ghost s = plan_spec(m0, b0, self.root, self.offset, plan@, i as nat);
            assert(s.1 <= u64::MAX && mapping_ok(s.0, s.1 as u64, self.root, self.offset, plan@[i as int]));
            match plan[i] {
                Mapping::Pages { virt, phys, size, entry } => self.map_pages(mem, bump, virt, phys, size, entry),
                Mapping::Page { virt, phys, entry } => self.map_page(mem, bump, virt, phys, entry),
                Mapping::Giga { virt, phys, entry } => self.map_huge_huge_page(mem, virt, phys, entry),
            }
            i = i + 1;
        }
    }
}

} // verus!

verus! {

/// Where the kernel's tables map all of the first 4 GiB of physical memory.
pub const PHYS_MAP: u64 = 0xFFFF_FFFF_0000_0000;

/// The entry template of the kernel's code.
pub open spec fn exec_entry() -> PageTableEntry {
    PageTableEntry(0x6000_0000_0000_00cb)
}

/// The entry template of the kernel's read-only data.
pub open spec fn ro_entry() -> PageTableEntry {
    PageTableEntry(0x6000_0000_0000_00c3)
}

/// The entry template of the kernel's data, stacks and buffers.
pub open spec fn rw_entry() -> PageTableEntry {
    PageTableEntry(0x6000_0000_0000_00c7)
}

/// The entry template of device memory.
pub open spec fn dev_entry() -> PageTableEntry {
    PageTableEntry(0x9000_0000_0000_00c7)
}

/// The kernel's templates with the dirty and accessed bits set.
pub proof fn lemma_entry_templates()
    ensures
        0x6000_0000_0000_000bu64 | 0xc0 == 0x6000_0000_0000_00cbu64,
        0x6000_0000_0000_0003u64 | 0xc0 == 0x6000_0000_0000_00c3u64,
        0x6000_0000_0000_0007u64 | 0xc0 == 0x6000_0000_0000_00c7u64,
        0x9000_0000_0000_0007u64 | 0xc0 == 0x9000_0000_0000_00c7u64,
{
    assert(
        0x6000_0000_0000_000bu64 | 0xc0 == 0x6000_0000_0000_00cbu64
            && 0x6000_0000_0000_0003u64 | 0xc0 == 0x6000_0000_0000_00c3u64
            && 0x6000_0000_0000_0007u64 | 0xc0 == 0x6000_0000_0000_00c7u64
            && 0x9000_0000_0000_0007u64 | 0xc0 == 0x9000_0000_0000_00c7u64
    ) by (bit_vector);
}

fn template(base: PageTableEntry) -> (r: PageTableEntry)
    ensures
        r.0 == base.0 | 0xc0,
{
    base.bitor(PageTableEntry::DIRTY_ACCESSED())
}

/// Sizes and places of the kernel image, as the linker laid it out.
#[derive(Clone, Copy, Debug, PartialEq, Eq)]
pub struct KernelLayout {
    pub code_size: u64,
    pub ro_size: u64,
    pub data_size: u64,
    pub bss_size: u64,
    pub total_size: u64,
    pub phys_start: u64,
    pub phys_size: u64,
    pub virt_start: u64,
}

/// What the kernel keeps of its early setup.
#[derive(Clone, Copy, Debug, PartialEq, Eq)]
pub struct KernelCtx {
    pub async_int_stack: u64,
    pub sync_int_stack: u64,
    pub stack_size: u64,
    pub priliminary_page_table: u64,
    pub layout: KernelLayout,
}

/// The memory left to the kernel, in KiB, once the early allocator has reached `bump`:
/// the part of its physical memory past the pages taken so far.
pub fn free_memory_kb(layout: &KernelLayout, bump: u64) -> (kb: u64)
    requires
        layout.phys_start <= bump,
        bump - layout.phys_start <= layout.phys_size,
    ensures
        kb == (layout.phys_size - (bump - layout.phys_start)) / 1024,
{
    (layout.phys_size - (bump - layout.phys_start)) / 1024
}

/// The sections, stacks and buffers of the kernel image stay within the 64-bit addresses.
pub open spec fn layout_fits(l: KernelLayout, stack: u64) -> bool {
    &&& l.virt_start + l.code_size + l.ro_size + l.data_size + l.bss_size <= u64::MAX
    &&& l.phys_start + l.code_size + l.ro_size + l.data_size + l.bss_size <= u64::MAX
    &&& l.virt_start + l.total_size + 0x2000 + 2 * stack <= u64::MAX
    &&& l.phys_start + l.total_size + 2 * stack <= u64::MAX
}

/// The early mappings of the kernel: its sections, its two interrupt stacks (each after
/// an unmapped guard page), all of the first 4 GiB of physical memory at `PHYS_MAP`, and
/// the pages of the devices it reaches.
pub open spec fn kernel_plan_spec(l: KernelLayout, stack: u64) -> Seq<Mapping> {
    let vs = l.virt_start;
    let ps = l.phys_start;
    let c = l.code_size;
    let r = l.ro_size;
    let d = l.data_size;
    seq![
        Mapping::Pages { virt: vs, phys: ps, size: c, entry: exec_entry() },
        Mapping::Pages { virt: (vs + c) as u64, phys: (ps + c) as u64, size: r, entry: ro_entry() },
        Mapping::Pages { virt: (vs + c + r) as u64, phys: (ps + c + r) as u64, size: d, entry: rw_entry() },
        Mapping::Pages { virt: (vs + c + r + d) as u64, phys: (ps + c + r + d) as u64, size: l.bss_size, entry: rw_entry() },
        Mapping::Pages { virt: (vs + l.total_size + 0x1000) as u64, phys: (ps + l.total_size) as u64, size: stack, entry: rw_entry() },
        Mapping::Pages { virt: (vs + l.total_size + 0x2000 + stack) as u64, phys: (ps + l.total_size + stack) as u64, size: stack, entry: rw_entry() },
        Mapping::Giga { virt: PHYS_MAP, phys: 0, entry: dev_entry() },
        Mapping::Giga { virt: (PHYS_MAP + 0x4000_0000) as u64, phys: 0x4000_0000, entry: dev_entry() },
        Mapping::Giga { virt: (PHYS_MAP + 0x8000_0000) as u64, phys: 0x8000_0000, entry: dev_entry() },
        Mapping::Giga { virt: (PHYS_MAP + 0xc000_0000) as u64, phys: 0xc000_0000, entry: dev_entry() },
        Mapping::Page { virt: 0x0414_0000, phys: 0x0414_0000, entry: dev_entry() },
        Mapping::Page { virt: 0x0502_6000, phys: 0x0502_6000, entry: dev_entry() },
        Mapping::Page { virt: 0x0502_5000, phys: 0x0502_5000, entry: dev_entry() },
        Mapping::Page { virt: 0x0301_0000, phys: 0x0301_0000, entry: dev_entry() },
        Mapping::Page { virt: 0x0300_3000, phys: 0x0300_3000, entry: dev_entry() },
        Mapping::Page { virt: 0x020b_0000, phys: 0x020b_0000, entry: dev_entry() },
        Mapping::Page { virt: 0x7400_d000, phys: 0x7400_d000, entry: dev_entry() },
    ]
}

/// The start of the page of `addr`.
fn page_of(addr: u64) -> (r: u64)
    ensures
        r == addr & !0xfffu64,
        r == addr - addr % 4096,
{
    assert(1u64 << 12u64 == 4096) by (bit_vector);
    let low: u64 = (1u64 << 12u64) - 1;
    let r = addr & !low;
    assert(r == addr & !0xfffu64 && r == addr - addr % 4096) by (bit_vector)
        requires
            low == (1u64 << 12u64) - 1,
            r == addr & !low,
    ;
    r
}

/// The early mappings of the kernel laid out as `l`, with interrupt stacks of `stack`
/// bytes.
pub fn kernel_plan(l: &KernelLayout, stack: u64) -> (plan: Vec<Mapping>)
    requires
        layout_fits(*l, stack),
    ensures
        plan@ == kernel_plan_spec(*l, stack),
{
    let exec = template(PageTableEntry::COM_EXEC());
    let ro = template(PageTableEntry::COM_RO());
    let rw = template(PageTableEntry::COM_RW());
    let dev = template(PageTableEntry::COM_DEV());
    proof {
        lemma_entry_templates();
    }
    let vs = l.virt_start;
    let ps = l.phys_start;
    let c = l.code_size;
    let r = l.ro_size;
    let d = l.data_size;
    let mut plan: Vec<Mapping> = Vec::new();
    // the sections of the image
    plan.push(Mapping::Pages { virt: vs, phys: ps, size: c, entry: exec });
    plan.push(Mapping::Pages { virt: vs + c, phys: ps + c, size: r, entry: ro });
    plan.push(Mapping::Pages { virt: vs + c + r, phys: ps + c + r, size: d, entry: rw });
    plan.push(Mapping::Pages { virt: vs + c + r + d, phys: ps + c + r + d, size: l.bss_size, entry: rw });
    // the stacks, each above a guard page
    let async_int_stack = vs + l.total_size + 0x1000 + stack;
    plan.push(Mapping::Pages { virt: async_int_stack - stack, phys: ps + l.total_size, size: stack, entry: rw });
    let sync_int_stack = vs + l.total_size + 0x1000 + stack + 0x1000 + stack;
    plan.push(Mapping::Pages { virt: sync_int_stack - stack, phys: ps + l.total_size + stack, size: stack, entry: rw });
    // the physical memory
    let mut i: u64 = 0;
    while i < 0x1_0000_0000
        invariant
            i % 0x4000_0000 == 0,
            i <= 0x1_0000_0000,
            dev.0 == 0x9000_0000_0000_00c7,
            plan@ == kernel_plan_spec(*l, stack).take(6 + i / 0x4000_0000),
        decreases 0x1_0000_0000 - i,
    {
        assert(i == 0 || i == 0x4000_0000 || i == 0x8000_0000 || i == 0xc000_0000);
        assert(kernel_plan_spec(*l, stack)[6 + i / 0x4000_0000] == Mapping::Giga { virt: (PHYS_MAP + i) as u64, phys: i, entry: dev });
        plan.push(Mapping::Giga { virt: PHYS_MAP + i, phys: i, entry: dev });
        assert(1u64 << (12u64 + 9 + 9) == 0x4000_0000) by (bit_vector);
        i = i + (1u64 << (12u64 + 9 + 9));
        assert(plan@ =~= kernel_plan_spec(*l, stack).take(6 + i / 0x4000_0000));
    }
    // the devices
    let uart = page_of(0x0000_0000_0414_0014);
    plan.push(Mapping::Page { virt: uart, phys: uart, entry: dev });
    let reset_a = page_of(0x0000_0000_0502_60e0);
    plan.push(Mapping::Page { virt: reset_a, phys: reset_a, entry: dev });
    let reset_b = page_of(0x0000_0000_0502_50ac);
    plan.push(Mapping::Page { virt: reset_b, phys: reset_b, entry: dev });
    let reset_c = page_of(0x0000_0000_0301_0004);
    plan.push(Mapping::Page { virt: reset_c, phys: reset_c, entry: dev });
    let core_a = page_of(0x0000_0000_0300_3024);
    plan.push(Mapping::Page { virt: core_a, phys: core_a, entry: dev });
    let core_b = page_of(0x0000_0000_020b_0004);
    plan.push(Mapping::Page { virt: core_b, phys: core_b, entry: dev });
    let stimer_page = page_of(0x0000_0000_7400_d004);
    plan.push(Mapping::Page { virt: stimer_page, phys: stimer_page, entry: dev });
    assert(plan@ =~= kernel_plan_spec(*l, stack));
    plan
}

} // verus!

verus! {

/// The layout of the kernel image with the given sizes, loaded at 0x8000_0000 and run
/// at 0xFFFF_FFC0_0000_0000.
pub open spec fn kernel_layout(code_size: u64, ro_size: u64, data_size: u64, bss_size: u64, total_size: u64, phys_size: u64) -> KernelLayout {
    KernelLayout {
        code_size,
        ro_size,
        data_size,
        bss_size,
        total_size,
        phys_start: 0x8000_0000,
        phys_size,
        virt_start: 0xFFFF_FFC0_0000_0000,
    }
}

/// The first free page after the image and its two stacks: the root table.
pub open spec fn bump_start(l: KernelLayout, stack: u64) -> int {
    l.phys_start + l.total_size + stack * 2
}

/// `bytes` rounded up to whole pages.
pub open spec fn frame_buf_size(bytes: u64) -> int {
    (bytes + 0xfff) / 4096 * 4096
}

/// The memory and bump pointer once the root is taken and the kernel's mappings made.
pub open spec fn early_tables(m: MemoryView, l: KernelLayout, stack: u64) -> (MemoryView, int) {
    let b = bump_start(l, stack) as u64;
    plan_spec(memory_zero(m, b), (b + 4096) as u64, b, 0, kernel_plan_spec(l, stack), 17)
}

/// The memory and bump pointer once the frame buffer of `bytes` is taken after the
/// tables and mapped where it lies.
pub open spec fn frame_buf_tables(m: MemoryView, l: KernelLayout, stack: u64, bytes: u64) -> (MemoryView, int) {
    let t = early_tables(m, l, stack);
    let size = frame_buf_size(bytes);
    map_pages_spec(t.0, (t.1 + size) as u64, bump_start(l, stack) as u64, t.1 as u64, t.1 as u64, rw_entry().0, 0, page_count(size as u64) as nat)
}

/// The early setup stays within the 64-bit addresses everywhere.
pub open spec fn page_init_ok(m: MemoryView, l: KernelLayout, stack: u64, bytes: u64) -> bool {
    let b = bump_start(l, stack);
    let t = early_tables(m, l, stack);
    let size = frame_buf_size(bytes);
    &&& layout_fits(l, stack)
    &&& b + 4096 <= u64::MAX
    &&& plan_ok(memory_zero(m, b as u64), (b + 4096) as u64, b as u64, 0, kernel_plan_spec(l, stack))
    &&& bytes + 0x1000 <= u64::MAX
    &&& t.1 + size + 0xfff <= u64::MAX
    &&& map_pages_ok(t.0, (t.1 + size) as u64, b as u64, t.1 as u64, t.1 as u64, rw_entry().0, 0, page_count(size as u64))
}

/// What the early setup of the tables leaves: the kernel's context, the bump allocator
/// and the frame buffer it placed after the tables.
pub struct EarlyPaging {
    pub ctx: KernelCtx,
    pub bump: EarlyPageBump,
    pub frame_buf: u64,
}

/// Builds the kernel's first page tables in `mem` from the sizes that the linker gives:
/// the root at the first page after the image and its stacks, the kernel's mappings,
/// then a frame buffer of `frame_buf_bytes` mapped where it lies.
pub fn page_init(
    stack_size: u64,
    code_size: u64,
    ro_size: u64,
    data_size: u64,
    bss_size: u64,
    total_size: u64,
    phys_size: u64,
    frame_buf_bytes: u64,
    mem: &mut PageMemory,
) -> (r: EarlyPaging)
    requires
        page_init_ok(old(mem).view_mem(), kernel_layout(code_size, ro_size, data_size, bss_size, total_size, phys_size), stack_size, frame_buf_bytes),
    ensures
        r.ctx.layout == kernel_layout(code_size, ro_size, data_size, bss_size, total_size, phys_size),
        r.ctx.stack_size == stack_size,
        r.ctx.priliminary_page_table == bump_start(r.ctx.layout, stack_size),
        r.ctx.async_int_stack == r.ctx.layout.virt_start + total_size + 0x1000 + stack_size,
        r.ctx.sync_int_stack == r.ctx.layout.virt_start + total_size + 0x2000 + 2 * stack_size,
        r.frame_buf == early_tables(old(mem).view_mem(), r.ctx.layout, stack_size).1,
        final(mem).view_mem() == frame_buf_tables(old(mem).view_mem(), r.ctx.layout, stack_size, frame_buf_bytes).0,
        r.bump.0 == frame_buf_tables(old(mem).view_mem(), r.ctx.layout, stack_size, frame_buf_bytes).1,
{
    let ghost m0 = mem.view_mem();
    let layout = KernelLayout {
        code_size,
        ro_size,
        data_size,
        bss_size,
        total_size,
        phys_start: 0x8000_0000,
        phys_size,
        virt_start: 0xFFFF_FFC0_0000_0000,
    };
    let mut bump = EarlyPageBump(layout.phys_start + layout.total_size + stack_size * 2);
    let root = bump.next_zeroed(mem);
    let mut init = PageInitializer::new(root, 0);
    let plan = kernel_plan(&layout, stack_size);
    init.apply(mem, &mut bump, &plan);
    let async_int_stack = layout.virt_start + layout.total_size + 0x1000 + stack_size;
    let sync_int_stack = layout.virt_start + layout.total_size + 0x1000 + stack_size + 0x1000 + stack_size;
    // the frame buffer of the display, in whole pages after the tables
    let size = (frame_buf_bytes + 0x1000 - 1) / 0x1000 * 0x1000;
    let start = bump.next_n_uninit(size / 0x1000);
    let rw = template(PageTableEntry::COM_RW());
    proof {
        lemma_entry_templates();
    }
    assert(rw == rw_entry());
    init.map_pages(mem, &mut bump, start, start, size, rw);
    EarlyPaging {
        ctx: KernelCtx {
            async_int_stack,
            sync_int_stack,
            stack_size,
            priliminary_page_table: root,
            layout,
        },
        bump,
        frame_buf: start,
    }
}

} // verus!
