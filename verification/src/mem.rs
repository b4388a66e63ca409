//! Sv39 page-table entries and the translation of addresses through page tables.
//!
//! Addresses are 64-bit values, as on the board. Page tables live in a `PageMemory`,
//! the memory that holds them, addressed the way the walking code reaches them.
use std::collections::HashMap;
use vstd::prelude::*;

verus! {

/// The mask of `len` bits from bit `start` on.
pub open spec fn mask_spec(start: u64, len: u64) -> u64 {
    (((1u64 << len) - 1) as u64) << start
}

/// `val` with the bits of the field (`start`, `len`) replaced by the low bits of `bits`.
pub open spec fn set_bits_spec(val: u64, start: u64, len: u64, bits: u64) -> u64 {
    (val & !mask_spec(start, len)) | ((bits << start) & mask_spec(start, len))
}

/// The bits of the field (`start`, `len`) of `val`, left in place.
pub open spec fn extract_bits_spec(val: u64, start: u64, len: u64) -> u64 {
    val & mask_spec(start, len)
}

fn set_bits(val: u64, start: u64, len: u64, bits: u64) -> (r: u64)
    requires
        start < 64,
        len < 64,
    ensures
        r == set_bits_spec(val, start, len, bits),
{
    assert(1u64 << len >= 1) by (bit_vector)
        requires
            len < 64,
    ;
    let mask = ((1u64 << len) - 1) << start;
    (val & !mask) | (bits << start) & mask
}

fn extract_bits(val: u64, start: u64, len: u64) -> (r: u64)
    requires
        start < 64,
        len < 64,
    ensures
        r == extract_bits_spec(val, start, len),
{
    assert(1u64 << len >= 1) by (bit_vector)
        requires
            len < 64,
    ;
    let mask = ((1u64 << len) - 1) << start;
    val & mask
}

/// An Sv39 page-table entry with the vendor's memory-type bits (59-63).
#[derive(Clone, Copy, Default, PartialEq, Eq, Debug)]
pub struct PageTableEntry(pub u64);

/// A page table: 512 entries.
#[derive(Clone, Copy, PartialEq, Eq, Debug)]
pub struct PageTable {
    pub entries: [PageTableEntry; 512],
}

/// The values of the entry templates, bit by bit.
proof fn lemma_template_values()
    ensures
        set_bits_spec(0u64, 0, 1, 1) == 0x1,
        set_bits_spec(set_bits_spec(0u64, 62, 1, 1), 61, 1, 1) == 0x6000000000000000,
        set_bits_spec(set_bits_spec(0u64, 61, 1, 1), 60, 1, 1) == 0x3000000000000000,
        set_bits_spec(set_bits_spec(set_bits_spec(0u64, 61, 1, 1), 63, 1, 1), 60, 1, 1) == 0xb000000000000000,
        set_bits_spec(set_bits_spec(0u64, 63, 1, 1), 60, 1, 1) == 0x9000000000000000,
        set_bits_spec(set_bits_spec(set_bits_spec(0x6000000000000000u64, 1, 1, 1), 3, 1, 1), 0, 1, 1) == 0x600000000000000b,
        set_bits_spec(set_bits_spec(0x6000000000000000u64, 1, 1, 1), 0, 1, 1) == 0x6000000000000003,
        set_bits_spec(set_bits_spec(set_bits_spec(0x6000000000000000u64, 1, 1, 1), 2, 1, 1), 0, 1, 1) == 0x6000000000000007,
        set_bits_spec(set_bits_spec(set_bits_spec(0x9000000000000000u64, 1, 1, 1), 2, 1, 1), 0, 1, 1) == 0x9000000000000007,
        set_bits_spec(0u64, 6, 1, 1) == 0x40,
        set_bits_spec(0u64, 7, 1, 1) == 0x80,
        set_bits_spec(set_bits_spec(0u64, 7, 1, 1), 6, 1, 1) == 0xc0,
{
    assert(
        (set_bits_spec(0u64, 0, 1, 1) == 0x1)
            && (set_bits_spec(set_bits_spec(0u64, 62, 1, 1), 61, 1, 1) == 0x6000000000000000)
            && (set_bits_spec(set_bits_spec(0u64, 61, 1, 1), 60, 1, 1) == 0x3000000000000000)
            && (set_bits_spec(set_bits_spec(set_bits_spec(0u64, 61, 1, 1), 63, 1, 1), 60, 1, 1) == 0xb000000000000000)
            && (set_bits_spec(set_bits_spec(0u64, 63, 1, 1), 60, 1, 1) == 0x9000000000000000)
            && (set_bits_spec(set_bits_spec(set_bits_spec(0x6000000000000000u64, 1, 1, 1), 3, 1, 1), 0, 1, 1) == 0x600000000000000b)
            && (set_bits_spec(set_bits_spec(0x6000000000000000u64, 1, 1, 1), 0, 1, 1) == 0x6000000000000003)
            && (set_bits_spec(set_bits_spec(set_bits_spec(0x6000000000000000u64, 1, 1, 1), 2, 1, 1), 0, 1, 1) == 0x6000000000000007)
            && (set_bits_spec(set_bits_spec(set_bits_spec(0x9000000000000000u64, 1, 1, 1), 2, 1, 1), 0, 1, 1) == 0x9000000000000007)
            && (set_bits_spec(0u64, 6, 1, 1) == 0x40)
            && (set_bits_spec(0u64, 7, 1, 1) == 0x80)
            && (set_bits_spec(set_bits_spec(0u64, 7, 1, 1), 6, 1, 1) == 0xc0)
    ) by (bit_vector);
}

impl PageTableEntry {
    /// The entry template of a valid entry that points at the next table.
    #[allow(non_snake_case)]
    pub fn NON_LEAF() -> (r: PageTableEntry)
        ensures
            r.0 == 0x1,
    {
        let r = PageTableEntry::new().set_valid(true);
        proof {
            lemma_template_values();
        }
        r
    }

    /// The entry template of cacheable, bufferable memory.
    #[allow(non_snake_case)]
    pub fn CACHEABLE_MEM() -> (r: PageTableEntry)
        ensures
            r.0 == 0x6000000000000000,
    {
        let r = PageTableEntry::new().set_cacheable(true).set_bufferable(true);
        proof {
            lemma_template_values();
        }
        r
    }

    /// The entry template of uncached, bufferable, shareable memory.
    #[allow(non_snake_case)]
    pub fn NON_CACHEBLE_MEM() -> (r: PageTableEntry)
        ensures
            r.0 == 0x3000000000000000,
    {
        let r = PageTableEntry::new().set_bufferable(true).set_shareable(true);
        proof {
            lemma_template_values();
        }
        r
    }

    /// The entry template of a bufferable device.
    #[allow(non_snake_case)]
    pub fn BUFFERABLE_DEV() -> (r: PageTableEntry)
        ensures
            r.0 == 0xb000000000000000,
    {
        let r = PageTableEntry::new().set_bufferable(true).set_strong_order(true).set_shareable(true);
        proof {
            lemma_template_values();
        }
        r
    }

    /// The entry template of a non-bufferable device.
    #[allow(non_snake_case)]
    pub fn NON_BUFFERABLE_DEV() -> (r: PageTableEntry)
        ensures
            r.0 == 0x9000000000000000,
    {
        let r = PageTableEntry::new().set_strong_order(true).set_shareable(true);
        proof {
            lemma_template_values();
        }
        r
    }

    /// The entry template of readable, executable memory.
    #[allow(non_snake_case)]
    pub fn COM_EXEC() -> (r: PageTableEntry)
        ensures
            r.0 == 0x600000000000000b,
    {
        let r = PageTableEntry::CACHEABLE_MEM().set_readable(true).set_executable(true).set_valid(true);
        proof {
            lemma_template_values();
        }
        r
    }

    /// The entry template of read-only memory.
    #[allow(non_snake_case)]
    pub fn COM_RO() -> (r: PageTableEntry)
        ensures
            r.0 == 0x6000000000000003,
    {
        let r = PageTableEntry::CACHEABLE_MEM().set_readable(true).set_valid(true);
        proof {
            lemma_template_values();
        }
        r
    }

    /// The entry template of readable, writable memory.
    #[allow(non_snake_case)]
    pub fn COM_RW() -> (r: PageTableEntry)
        ensures
            r.0 == 0x6000000000000007,
    {
        let r = PageTableEntry::CACHEABLE_MEM().set_readable(true).set_writable(true).set_valid(true);
        proof {
            lemma_template_values();
        }
        r
    }

    /// The entry template of a readable, writable device.
    #[allow(non_snake_case)]
    pub fn COM_DEV() -> (r: PageTableEntry)
        ensures
            r.0 == 0x9000000000000007,
    {
        let r = PageTableEntry::NON_BUFFERABLE_DEV().set_readable(true).set_writable(true).set_valid(true);
        proof {
            lemma_template_values();
        }
        r
    }

    /// The entry template of the accessed bit.
    #[allow(non_snake_case)]
    pub fn ACCESSED() -> (r: PageTableEntry)
        ensures
            r.0 == 0x40,
    {
        let r = PageTableEntry::new().set_accessed(true);
        proof {
            lemma_template_values();
        }
        r
    }

    /// The entry template of the dirty bit.
    #[allow(non_snake_case)]
    pub fn DIRTY() -> (r: PageTableEntry)
        ensures
            r.0 == 0x80,
    {
        let r = PageTableEntry::new().set_dirty(true);
        proof {
            lemma_template_values();
        }
        r
    }

    /// The entry template of the dirty and accessed bits.
    #[allow(non_snake_case)]
    pub fn DIRTY_ACCESSED() -> (r: PageTableEntry)
        ensures
            r.0 == 0xc0,
    {
        let r = PageTableEntry::new().set_dirty(true).set_accessed(true);
        proof {
            lemma_template_values();
        }
        r
    }

    /// The empty entry.
    pub fn new() -> (r: Self)
        ensures
            r.0 == 0,
    {
        Self(0)
    }

    /// The physical page number (bits 10-59).
    pub fn ppn(&self) -> (r: u64)
        ensures
            r == (self.0 >> 10u64) & 0x3_ffff_ffff_ffff,
    {
        assert(1u64 << 50u64 == 0x4_0000_0000_0000) by (bit_vector);
        (self.0 >> 10) & ((1u64 << 50) - 1)
    }

    /// The bits reserved for software (8-9).
    pub fn rsw(&self) -> (r: u64)
        ensures
            r == (self.0 >> 8u64) & 0b11,
    {
        (self.0 >> 8) & 0b11
    }

    pub fn dirty(&self) -> (r: bool)
        ensures
            r == ((self.0 >> 7u64) & 1 == 1),
    {
        (self.0 >> 7u64) & 0b1 == 1
    }

    pub fn accessed(&self) -> (r: bool)
        ensures
            r == ((self.0 >> 6u64) & 1 == 1),
    {
        (self.0 >> 6u64) & 0b1 == 1
    }

    pub fn global(&self) -> (r: bool)
        ensures
            r == ((self.0 >> 5u64) & 1 == 1),
    {
        (self.0 >> 5u64) & 0b1 == 1
    }

    pub fn user(&self) -> (r: bool)
        ensures
            r == ((self.0 >> 4u64) & 1 == 1),
    {
        (self.0 >> 4u64) & 0b1 == 1
    }

    pub fn executable(&self) -> (r: bool)
        ensures
            r == ((self.0 >> 3u64) & 1 == 1),
    {
        (self.0 >> 3u64) & 0b1 == 1
    }

    pub fn writable(&self) -> (r: bool)
        ensures
            r == ((self.0 >> 2u64) & 1 == 1),
    {
        (self.0 >> 2u64) & 0b1 == 1
    }

    pub fn readable(&self) -> (r: bool)
        ensures
            r == ((self.0 >> 1u64) & 1 == 1),
    {
        (self.0 >> 1u64) & 0b1 == 1
    }

    pub fn valid(&self) -> (r: bool)
        ensures
            r == ((self.0 >> 0u64) & 1 == 1),
    {
        (self.0 >> 0u64) & 0b1 == 1
    }

    pub fn strong_order(&self) -> (r: bool)
        ensures
            r == ((self.0 >> 63u64) & 1 == 1),
    {
        (self.0 >> 63u64) & 0b1 == 1
    }

    pub fn cacheable(&self) -> (r: bool)
        ensures
            r == ((self.0 >> 62u64) & 1 == 1),
    {
        (self.0 >> 62u64) & 0b1 == 1
    }

    pub fn bufferable(&self) -> (r: bool)
        ensures
            r == ((self.0 >> 61u64) & 1 == 1),
    {
        (self.0 >> 61u64) & 0b1 == 1
    }

    pub fn shareable(&self) -> (r: bool)
        ensures
            r == ((self.0 >> 60u64) & 1 == 1),
    {
        (self.0 >> 60u64) & 0b1 == 1
    }

    pub fn trustable(&self) -> (r: bool)
        ensures
            r == ((self.0 >> 59u64) & 1 == 1),
    {
        (self.0 >> 59u64) & 0b1 == 1
    }

    /// The read, write and execute bits (1-3).
    pub fn perms(&self) -> (r: u64)
        ensures
            r == (self.0 >> 1u64) & 0b111,
    {
        (self.0 >> 1) & 0b111
    }

    /// A leaf maps memory: it grants some permission.
    pub fn is_leaf(self) -> (r: bool)
        ensures
            r == ((self.0 >> 1u64) & 0b111 != 0),
    {
        self.perms() != 0
    }

    pub fn set_ppn(self, ppn: u64) -> (r: Self)
        ensures
            r.0 == set_bits_spec(self.0, 10, 48, ppn),
    {
        Self(set_bits(self.0, 10, 48, ppn))
    }

    pub fn set_rsw(self, rsw: u64) -> (r: Self)
        ensures
            r.0 == set_bits_spec(self.0, 8, 2, rsw),
    {
        Self(set_bits(self.0, 8, 2, rsw))
    }

    pub fn set_perms(self, perms: u64) -> (r: Self)
        ensures
            r.0 == set_bits_spec(self.0, 1, 3, perms),
    {
        Self(set_bits(self.0, 1, 3, perms))
    }

    pub fn set_dirty(self, dirty: bool) -> (r: Self)
        ensures
            r.0 == set_bits_spec(self.0, 7, 1, if dirty { 1 } else { 0 }),
    {
        Self(set_bits(self.0, 7, 1, if dirty { 1 } else { 0 }))
    }

    pub fn set_accessed(self, accessed: bool) -> (r: Self)
        ensures
            r.0 == set_bits_spec(self.0, 6, 1, if accessed { 1 } else { 0 }),
    {
        Self(set_bits(self.0, 6, 1, if accessed { 1 } else { 0 }))
    }

    pub fn set_global(self, global: bool) -> (r: Self)
        ensures
            r.0 == set_bits_spec(self.0, 5, 1, if global { 1 } else { 0 }),
    {
        Self(set_bits(self.0, 5, 1, if global { 1 } else { 0 }))
    }

    pub fn set_user(self, user: bool) -> (r: Self)
        ensures
            r.0 == set_bits_spec(self.0, 4, 1, if user { 1 } else { 0 }),
    {
        Self(set_bits(self.0, 4, 1, if user { 1 } else { 0 }))
    }

    pub fn set_executable(self, executable: bool) -> (r: Self)
        ensures
            r.0 == set_bits_spec(self.0, 3, 1, if executable { 1 } else { 0 }),
    {
        Self(set_bits(self.0, 3, 1, if executable { 1 } else { 0 }))
    }

    pub fn set_writable(self, writable: bool) -> (r: Self)
        ensures
            r.0 == set_bits_spec(self.0, 2, 1, if writable { 1 } else { 0 }),
    {
        Self(set_bits(self.0, 2, 1, if writable { 1 } else { 0 }))
    }

    pub fn set_readable(self, readable: bool) -> (r: Self)
        ensures
            r.0 == set_bits_spec(self.0, 1, 1, if readable { 1 } else { 0 }),
    {
        Self(set_bits(self.0, 1, 1, if readable { 1 } else { 0 }))
    }

    pub fn set_valid(self, valid: bool) -> (r: Self)
        ensures
            r.0 == set_bits_spec(self.0, 0, 1, if valid { 1 } else { 0 }),
    {
        Self(set_bits(self.0, 0, 1, if valid { 1 } else { 0 }))
    }

    pub fn set_strong_order(self, strong_order: bool) -> (r: Self)
        ensures
            r.0 == set_bits_spec(self.0, 63, 1, if strong_order { 1 } else { 0 }),
    {
        Self(set_bits(self.0, 63, 1, if strong_order { 1 } else { 0 }))
    }

    pub fn set_cacheable(self, cacheable: bool) -> (r: Self)
        ensures
            r.0 == set_bits_spec(self.0, 62, 1, if cacheable { 1 } else { 0 }),
    {
        Self(set_bits(self.0, 62, 1, if cacheable { 1 } else { 0 }))
    }

    pub fn set_bufferable(self, bufferable: bool) -> (r: Self)
        ensures
            r.0 == set_bits_spec(self.0, 61, 1, if bufferable { 1 } else { 0 }),
    {
        Self(set_bits(self.0, 61, 1, if bufferable { 1 } else { 0 }))
    }

    pub fn set_shareable(self, shareable: bool) -> (r: Self)
        ensures
            r.0 == set_bits_spec(self.0, 60, 1, if shareable { 1 } else { 0 }),
    {
        Self(set_bits(self.0, 60, 1, if shareable { 1 } else { 0 }))
    }

    pub fn set_trustable(self, trustable: bool) -> (r: Self)
        ensures
            r.0 == set_bits_spec(self.0, 59, 1, if trustable { 1 } else { 0 }),
    {
        Self(set_bits(self.0, 59, 1, if trustable { 1 } else { 0 }))
    }

    /// The entry with the bits of both.
    pub fn bitor(self, rhs: PageTableEntry) -> (r: PageTableEntry)
        ensures
            r.0 == self.0 | rhs.0,
    {
        PageTableEntry(self.0 | rhs.0)
    }
}

impl PageTable {
    /// A table of empty entries.
    pub fn zeroed() -> (t: Self)
        ensures
            forall|i: int| 0 <= i < 512 ==> (#[trigger] t.entries@[i]).0 == 0,
    {
        PageTable { entries: [PageTableEntry(0); 512] }
    }
}

} // verus!

verus! {

/// Setting a one-bit field of an entry and reading it back gives the value set, and no
/// other bit changes.
pub proof fn law_flag_set_get(v: u64, bit: u64, b: bool)
    requires
        bit < 64,
    ensures
        ((set_bits_spec(v, bit, 1, if b { 1 } else { 0 }) >> bit) & 1 == 1) == b,
        set_bits_spec(v, bit, 1, if b { 1 } else { 0 }) & !(1u64 << bit) == v & !(1u64 << bit),
{
    let x: u64 = if b { 1 } else { 0 };
    assert(((set_bits_spec(v, bit, 1, x) >> bit) & 1 == 1) == (x == 1)) by (bit_vector)
        requires
            bit < 64,
            x <= 1,
    ;
    assert(set_bits_spec(v, bit, 1, x) & !(1u64 << bit) == v & !(1u64 << bit)) by (bit_vector)
        requires
            bit < 64,
    ;
}

/// Setting the page number of an entry and reading it back gives its low 48 bits; the
/// flags below it and the memory-type bits above it do not change.
pub proof fn law_ppn_set_get(v: u64, ppn: u64)
    ensures
        (set_bits_spec(v, 10, 48, ppn) >> 10u64) & 0xffff_ffff_ffff == ppn & 0xffff_ffff_ffff,
        set_bits_spec(v, 10, 48, ppn) & 0x3ff == v & 0x3ff,
        set_bits_spec(v, 10, 48, ppn) >> 58u64 == v >> 58u64,
{
    assert((set_bits_spec(v, 10, 48, ppn) >> 10u64) & 0xffff_ffff_ffff == ppn & 0xffff_ffff_ffff)
        by (bit_vector);
    assert(set_bits_spec(v, 10, 48, ppn) & 0x3ff == v & 0x3ff) by (bit_vector);
    assert(set_bits_spec(v, 10, 48, ppn) >> 58u64 == v >> 58u64) by (bit_vector);
}

/// A physical address.
#[derive(Clone, Copy, Debug, PartialEq, Eq, PartialOrd, Ord)]
pub struct PhyPtr(pub u64);

/// A virtual address.
#[derive(Clone, Copy, Debug, PartialEq, Eq, PartialOrd, Ord)]
pub struct VirtPtr(pub u64);

/// A translation of physical into virtual addresses.
pub trait PhysToVirt {
    type Error;

    /// The virtual address of `phys`, or why it has none.
    spec fn translate_phys(&self, phys: u64) -> Result<u64, Self::Error>;

    fn phys_to_virt(&self, phys: PhyPtr) -> (r: Result<VirtPtr, Self::Error>)
        ensures
            r == (match self.translate_phys(phys.0) {
                Ok(v) => Ok(VirtPtr(v)),
                Err(e) => Err(e),
            }),
    ;
}

/// A translation of virtual into physical addresses.
pub trait VirtToPhys {
    type Error;

    /// The physical address of `virt`, or why it has none.
    spec fn translate_virt(&self, virt: u64) -> Result<u64, Self::Error>;

    fn virt_to_phys(&self, virt: VirtPtr) -> (r: Result<PhyPtr, Self::Error>)
        ensures
            r == (match self.translate_virt(virt.0) {
                Ok(p) => Ok(PhyPtr(p)),
                Err(e) => Err(e),
            }),
    ;
}

impl PhyPtr {
    pub fn to_virt<T: PhysToVirt>(self, t: &T) -> (r: Result<VirtPtr, T::Error>)
        ensures
            r == (match t.translate_phys(self.0) {
                Ok(v) => Ok(VirtPtr(v)),
                Err(e) => Err(e),
            }),
    {
        t.phys_to_virt(self)
    }

    pub fn cast(self) -> (r: PhyPtr)
        ensures
            r == self,
    {
        PhyPtr(self.0)
    }
}

impl VirtPtr {
    pub fn to_phys<T: VirtToPhys>(self, t: &T) -> (r: Result<PhyPtr, T::Error>)
        ensures
            r == (match t.translate_virt(self.0) {
                Ok(p) => Ok(PhyPtr(p)),
                Err(e) => Err(e),
            }),
    {
        t.virt_to_phys(self)
    }

    pub fn cast(self) -> (r: VirtPtr)
        ensures
            r == self,
    {
        VirtPtr(self.0)
    }
}

/// The identity translation.
pub struct Identity;

impl PhysToVirt for Identity {
    type Error = core::convert::Infallible;

    open spec fn translate_phys(&self, phys: u64) -> Result<u64, Self::Error> {
        Ok(phys)
    }

    fn phys_to_virt(&self, phys: PhyPtr) -> (r: Result<VirtPtr, Self::Error>) {
        Ok(VirtPtr(phys.0))
    }
}

impl VirtToPhys for Identity {
    type Error = core::convert::Infallible;

    open spec fn translate_virt(&self, virt: u64) -> Result<u64, Self::Error> {
        Ok(virt)
    }

    fn virt_to_phys(&self, virt: VirtPtr) -> (r: Result<PhyPtr, Self::Error>) {
        Ok(PhyPtr(virt.0))
    }
}

/// An address outside the range a translation covers.
#[derive(Clone, Copy, Debug, PartialEq, Eq, PartialOrd, Ord)]
pub struct OutsideRange;

/// A translation by a fixed offset (wrapping) of the physical addresses, refused for the
/// addresses in `range`.
pub struct PhysToVirtOffsetTranslation {
    pub range: core::ops::Range<u64>,
    pub offset: u64,
}

impl PhysToVirtOffsetTranslation {
    pub fn new(input_range: core::ops::Range<u64>, offset: u64) -> (r: Self)
        ensures
            r.range == input_range,
            r.offset == offset,
    {
        Self { range: input_range, offset }
    }
}

impl PhysToVirt for PhysToVirtOffsetTranslation {
    type Error = OutsideRange;

    open spec fn translate_phys(&self, phys: u64) -> Result<u64, OutsideRange> {
        if self.range.start <= phys < self.range.end {
            Err(OutsideRange)
        } else {
            Ok(((phys + self.offset) % 0x1_0000_0000_0000_0000) as u64)
        }
    }

    fn phys_to_virt(&self, phys: PhyPtr) -> (r: Result<VirtPtr, OutsideRange>) {
        if self.range.start <= phys.0 && phys.0 < self.range.end {
            Err(OutsideRange)
        } else {
            Ok(VirtPtr(phys.0.wrapping_add(self.offset)))
        }
    }
}

} // verus!

verus! {

/// What a memory of page tables reads: the entry `j` of the table at address `a`, for
/// every address and every `j` in `0..512`; memory that holds no table reads as zero.
pub type MemoryView = spec_fn(u64, int) -> u64;

/// `m` after the entry `index` of the table at `addr` is set to `value`.
pub open spec fn memory_write(m: MemoryView, addr: u64, index: int, value: u64) -> MemoryView {
    |a: u64, j: int| if a == addr && j == index { value } else { m(a, j) }
}

/// `m` after the table at `addr` is cleared.
pub open spec fn memory_zero(m: MemoryView, addr: u64) -> MemoryView {
    |a: u64, j: int| if a == addr { 0 } else { m(a, j) }
}

/// The memory that holds page tables, by the address at which the code reaches them.
pub struct PageMemory {
    pub tables: HashMap<u64, PageTable>,
}

impl PageMemory {
    /// The entries that this memory reads.
    pub open spec fn view_mem(&self) -> MemoryView {
        let m = self.tables@;
        |a: u64, j: int|
            if 0 <= j < 512 && m.contains_key(a) {
                m[a].entries@[j].0
            } else {
                0
            }
    }

    /// A memory that holds no table.
    pub fn new() -> (r: Self)
        ensures
            forall|a: u64, j: int| (#[trigger] r.view_mem()(a, j)) == 0,
    {
        PageMemory { tables: HashMap::new() }
    }

    /// The entry `index` of the table at `addr`.
    pub fn read(&self, addr: u64, index: usize) -> (r: PageTableEntry)
        requires
            index < 512,
        ensures
            r.0 == self.view_mem()(addr, index as int),
    {
        match self.tables.get(&addr) {
            Some(t) => t.entries[index],
            None => PageTableEntry(0),
        }
    }

    /// Sets the entry `index` of the table at `addr`.
    pub fn write(&mut self, addr: u64, index: usize, entry: PageTableEntry)
        requires
            index < 512,
        ensures
            final(self).view_mem() == memory_write(old(self).view_mem(), addr, index as int, entry.0),
    {
        let ghost before = self.view_mem();
        let mut t = match self.tables.get(&addr) {
            Some(t) => *t,
            None => PageTable::zeroed(),
        };
        t.entries[index] = entry;
        self.tables.insert(addr, t);
        assert(self.view_mem() =~= memory_write(before, addr, index as int, entry.0));
    }

    /// Clears the table at `addr`.
    pub fn zero(&mut self, addr: u64)
        ensures
            final(self).view_mem() == memory_zero(old(self).view_mem(), addr),
    {
        let ghost before = self.view_mem();
        self.tables.insert(addr, PageTable::zeroed());
        assert(self.view_mem() =~= memory_zero(before, addr));
    }
}

} // verus!

verus! {

/// An entry is valid: bit 0.
pub open spec fn pte_valid(e: u64) -> bool {
    (e >> 0u64) & 1 == 1
}

/// An entry is a leaf: it grants some of read, write, execute (bits 1-3).
pub open spec fn pte_leaf(e: u64) -> bool {
    (e >> 1u64) & 0b111 != 0
}

/// The physical page number of an entry (bits 10-59).
pub open spec fn pte_ppn(e: u64) -> u64 {
    (e >> 10u64) & 0x3_ffff_ffff_ffff
}

/// The index into the table of level `level` (2 for the root, 0 for the last) that
/// `virt` selects.
pub open spec fn vpn(virt: u64, level: u64) -> u64 {
    (virt >> (12 + 9 * level) as u64) & 0x1ff
}

/// Why a virtual address has no physical one.
#[derive(Debug, PartialEq, Eq)]
pub enum PageTableAddressTranslationError<PE> {
    /// The address of a table could not be translated to reach it.
    PhysicalToVirtualTranslationError(PE),
    /// A valid entry of the last level grants no permission.
    PageTableMalformed,
    /// The walk met an entry that is not valid.
    NotMapped,
}

/// Translation of virtual addresses by walking the Sv39 tables from `root`, reaching
/// each table through `trans`.
pub struct VirtToPhysPageTranslation<T: PhysToVirt> {
    pub root: PhyPtr,
    pub trans: T,
    pub memory: PageMemory,
}

impl<T: PhysToVirt> VirtToPhysPageTranslation<T> {
    pub fn new(root: PhyPtr, trans: T, memory: PageMemory) -> (r: Self)
        ensures
            r.root == root,
            r.trans == trans,
            r.memory == memory,
    {
        Self { root, trans, memory }
    }

    /// Where the walk goes from the table at physical address `table` for the index
    /// `index`: the entry found there, or why the table cannot be reached.
    pub open spec fn step(&self, table: u64, index: u64) -> Result<u64, PageTableAddressTranslationError<T::Error>> {
        match self.trans.translate_phys(table) {
            Err(e) => Err(PageTableAddressTranslationError::PhysicalToVirtualTranslationError(e)),
            Ok(t) => Ok(self.memory.view_mem()(t, index as int)),
        }
    }

    fn read_step(&self, table: u64, index: u64) -> (r: Result<PageTableEntry, PageTableAddressTranslationError<T::Error>>)
        requires
            index < 512,
        ensures
            r == (match self.step(table, index) {
                Ok(e) => Ok(PageTableEntry(e)),
                Err(x) => Err(x),
            }),
    {
        match self.trans.phys_to_virt(PhyPtr(table)) {
            Err(e) => Err(PageTableAddressTranslationError::PhysicalToVirtualTranslationError(e)),
            Ok(v) => Ok(self.memory.read(v.0, index as usize)),
        }
    }
}

impl<T: PhysToVirt> VirtToPhys for VirtToPhysPageTranslation<T> {
    type Error = PageTableAddressTranslationError<T::Error>;

    /// A leaf found at the root level maps bits 30-38 of the address from the entry; one
    /// found lower takes the page bits from the root-level entry too (bits 30-47 for the
    /// second level, 12-38 for the last).
    open spec fn translate_virt(&self, virt: u64) -> Result<u64, Self::Error> {
        match self.step(self.root.0, vpn(virt, 2)) {
            Err(x) => Err(x),
            Ok(e1) => if !pte_valid(e1) {
                Err(PageTableAddressTranslationError::NotMapped)
            } else if pte_leaf(e1) {
                Ok(extract_bits_spec(pte_ppn(e1) << 12u64, 30, 9) | extract_bits_spec(virt, 0, 30))
            } else {
                match self.step(pte_ppn(e1) << 12u64, vpn(virt, 1)) {
                    Err(x) => Err(x),
                    Ok(e2) => if !pte_valid(e2) {
                        Err(PageTableAddressTranslationError::NotMapped)
                    } else if pte_leaf(e2) {
                        Ok(extract_bits_spec(pte_ppn(e1) << 12u64, 30, 18) | extract_bits_spec(virt, 0, 21))
                    } else {
                        match self.step(pte_ppn(e2) << 12u64, vpn(virt, 0)) {
                            Err(x) => Err(x),
                            Ok(e3) => if !pte_valid(e3) {
                                Err(PageTableAddressTranslationError::NotMapped)
                            } else if pte_leaf(e3) {
                                Ok(extract_bits_spec(pte_ppn(e1) << 12u64, 12, 27) | extract_bits_spec(virt, 0, 12))
                            } else {
                                Err(PageTableAddressTranslationError::PageTableMalformed)
                            },
                        }
                    },
                }
            },
        }
    }

    fn virt_to_phys(&self, virt: VirtPtr) -> (r: Result<PhyPtr, Self::Error>) {
        let virt = virt.0;
        let ppn2: u64 = (virt >> 30u64) & 0x1ffu64;
        let ppn1: u64 = (virt >> 21u64) & 0x1ffu64;
        let ppn0: u64 = (virt >> 12u64) & 0x1ffu64;
        assert(ppn2 < 512 && ppn1 < 512 && ppn0 < 512) by (bit_vector)
            requires
                ppn2 == (virt >> 30u64) & 511,
                ppn1 == (virt >> 21u64) & 511,
                ppn0 == (virt >> 12u64) & 511,
        ;
        let lvl1 = match self.read_step(self.root.0, ppn2) {
            Err(x) => return Err(x),
            Ok(e) => e,
        };
        if !lvl1.valid() {
            return Err(PageTableAddressTranslationError::NotMapped);
        }
        let p1 = lvl1.ppn();
        let raw1 = lvl1.0;
        assert(p1 <= 0x3_ffff_ffff_ffff) by (bit_vector)
            requires
                p1 == (raw1 >> 10u64) & 0x3_ffff_ffff_ffff,
        ;
        let base = p1 << 12;
        if lvl1.is_leaf() {
            let addr = extract_bits(base, 12 + 9 + 9, 9) | extract_bits(virt, 0, 12 + 9 + 9);
            return Ok(PhyPtr(addr));
        }
        let lvl2 = match self.read_step(base, ppn1) {
            Err(x) => return Err(x),
            Ok(e) => e,
        };
        if !lvl2.valid() {
            return Err(PageTableAddressTranslationError::NotMapped);
        }
        if lvl2.is_leaf() {
            let addr = extract_bits(base, 12 + 9 + 9, 9 + 9) | extract_bits(virt, 0, 12 + 9);
            return Ok(PhyPtr(addr));
        }
        let lvl3 = match self.read_step(lvl2.ppn() << 12, ppn0) {
            Err(x) => return Err(x),
            Ok(e) => e,
        };
        if !lvl3.valid() {
            return Err(PageTableAddressTranslationError::NotMapped);
        }
        if lvl3.is_leaf() {
            let addr = extract_bits(base, 12, 9 + 9 + 9) | extract_bits(virt, 0, 12);
            Ok(PhyPtr(addr))
        } else {
            Err(PageTableAddressTranslationError::PageTableMalformed)
        }
    }
}

} // verus!
