//! The register arithmetic of the board's drivers: bit fields of the DDR controller and
//! its patches, the GPIO pins, the eFuse programming words and the pixel words of the
//! VGA output.
use vstd::prelude::*;

verus! {

/// The mask of the bits `lsb..=msb` of a 32-bit register, for a field below bit 31
/// (`lsb` may be `msb + 1`: the field is then empty).
pub open spec fn field_mask(msb: u32, lsb: u32) -> u32 {
    ((2u32 << msb) - (1u32 << lsb)) as u32
}

/// The fields that the mask arithmetic can take: `2 << msb` does not lose its bit and
/// `1 << lsb` is not above it. On others the subtraction of the mask underflows.
pub open spec fn field_ok(msb: u32, lsb: u32) -> bool {
    msb < 31 && lsb <= msb + 1
}

proof fn lemma_mask_fits(msb: u32, lsb: u32)
    requires
        field_ok(msb, lsb),
    ensures
        (1u32 << lsb) <= (2u32 << msb),
{
    assert((1u32 << lsb) <= (2u32 << msb)) by (bit_vector)
        requires
            msb < 31,
            lsb <= msb + 1,
    ;
}

/// The bits `lsb..=msb` of `value`, moved down to bit 0.
pub fn get_bits_from_value(value: u32, msb: u32, lsb: u32) -> (r: u32)
    requires
        field_ok(msb, lsb),
    ensures
        r == (value & field_mask(msb, lsb)) >> lsb,
{
    proof {
        lemma_mask_fits(msb, lsb);
    }
    let mask = (2u32 << msb) - (1u32 << lsb);
    (value & mask) >> lsb
}

/// `orig` with the bits `lsb..=msb` replaced by the low bits of `value`.
pub fn modified_bits_by_value(orig: u32, value: u32, msb: u32, lsb: u32) -> (r: u32)
    requires
        field_ok(msb, lsb),
    ensures
        r == (orig & !field_mask(msb, lsb)) | ((value << lsb) & field_mask(msb, lsb)),
{
    proof {
        lemma_mask_fits(msb, lsb);
    }
    let bitmask = (2u32 << msb) - (1u32 << lsb);
    let mut orig = orig;
    orig = orig & !bitmask;
    orig | ((value << lsb) & bitmask)
}

/// Writing a field and reading it back gives the value written, cut to the field; the
/// bits outside the field stay. This covers every field of one bit or more that the two
/// functions take.
pub proof fn law_field_write_read(orig: u32, value: u32, msb: u32, lsb: u32)
    requires
        field_ok(msb, lsb),
        lsb <= msb,
    ensures
        ({
            let r = (orig & !field_mask(msb, lsb)) | ((value << lsb) & field_mask(msb, lsb));
            &&& (r & field_mask(msb, lsb)) >> lsb == value & field_mask((msb - lsb) as u32, 0)
            &&& r & !field_mask(msb, lsb) == orig & !field_mask(msb, lsb)
        }),
{
    let m = field_mask(msb, lsb);
    let d = (msb - lsb) as u32;
    let w = field_mask(d, 0);
    assert((2u32 << msb) >= (1u32 << lsb) && (2u32 << d) >= (1u32 << 0u32)) by (bit_vector)
        requires
            lsb <= msb < 31,
            d == msb - lsb,
    ;
    assert(m == ((2u32 << msb) - (1u32 << lsb)) as u32);
    assert(w == ((2u32 << d) - (1u32 << 0u32)) as u32);
    assert(((((orig & !m) | ((value << lsb) & m)) & m) >> lsb == value & w) && (((orig & !m) | ((value << lsb) & m)) & !m == orig & !m)) by (bit_vector)
        requires
            lsb <= msb < 31,
            d == msb - lsb,
            m == ((2u32 << msb) - (1u32 << lsb)) as u32,
            w == ((2u32 << d) - (1u32 << 0u32)) as u32,
    ;
}

/// A patch of a DDR register: the bits of `mask` take those of `val`.
#[allow(non_camel_case_types)]
#[derive(Clone, Copy, Debug, PartialEq, Eq, Structural)]
pub struct regpatch {
    pub addr: u32,
    pub mask: u32,
    pub val: u32,
}

impl regpatch {
    pub fn new(addr: u32, mask: u32, val: u32) -> (r: Self)
        ensures
            r == (regpatch { addr, mask, val }),
    {
        Self { addr, mask, val }
    }

    /// The value that the register holds after the patch, from `orig`.
    pub fn patched(&self, orig: u32) -> (r: u32)
        ensures
            r == (orig & !self.mask) | (self.val & self.mask),
    {
        let mut orig = orig;
        orig = orig & !self.mask;
        orig | (self.val & self.mask)
    }
}

/// Patching twice gives what patching once gives.
pub proof fn law_patch_idempotent(p: regpatch, orig: u32)
    ensures
        ({
            let once = (orig & !p.mask) | (p.val & p.mask);
            (once & !p.mask) | (p.val & p.mask) == once
        }),
{
    let m = p.mask;
    let v = p.val;
    assert(((((orig & !m) | (v & m)) & !m) | (v & m)) == ((orig & !m) | (v & m))) by (bit_vector);
}

/// The direction of a GPIO pin.
#[derive(Clone, Copy, Debug, PartialEq, Eq, Structural)]
pub enum Direction {
    Input,
    Output,
}

/// The direction register after `pin` is set to `direction`, from `curr`.
pub fn set_gpio_direction(curr: u32, pin: u8, direction: Direction) -> (r: u32)
    requires
        pin < 32,
    ensures
        direction == Direction::Input ==> r == curr & !(1u32 << pin),
        direction == Direction::Output ==> r == curr | (1u32 << pin),
{
    match direction {
        Direction::Input => curr & !(1u32 << pin),
        Direction::Output => curr | (1u32 << pin),
    }
}

/// The data register after `pin` is driven to `val`, from `curr`.
pub fn set_gpio(curr: u32, pin: u8, val: bool) -> (r: u32)
    requires
        pin < 32,
    ensures
        !val ==> r == curr & !(1u32 << pin),
        val ==> r == curr | (1u32 << pin),
{
    match val {
        false => curr & !(1u32 << pin),
        true => curr | (1u32 << pin),
    }
}

/// The level of `pin` in the external port register `ext`.
pub fn read_gpio(ext: u32, pin: u8) -> (r: bool)
    requires
        pin < 32,
    ensures
        r == (ext & (1u32 << pin) != 0),
{
    ext & (1u32 << pin) != 0
}

/// Driving a pin and reading the data register back gives the level driven; the other
/// pins keep theirs.
pub proof fn law_gpio_set_read(curr: u32, pin: u8, val: bool, other: u8)
    requires
        pin < 32,
        other < 32,
        other != pin,
    ensures
        ({
            let r = if val { curr | (1u32 << pin) } else { curr & !(1u32 << pin) };
            &&& (r & (1u32 << pin) != 0) == val
            &&& (r & (1u32 << other) != 0) == (curr & (1u32 << other) != 0)
        }),
{
    let p = pin as u32;
    let o = other as u32;
    assert(((curr | (1u32 << p)) & (1u32 << p) != 0) && ((curr & !(1u32 << p)) & (1u32 << p) == 0)) by (bit_vector)
        requires
            p < 32,
    ;
    assert(((curr | (1u32 << p)) & (1u32 << o) != 0) == (curr & (1u32 << o) != 0)
        && ((curr & !(1u32 << p)) & (1u32 << o) != 0) == (curr & (1u32 << o) != 0)) by (bit_vector)
        requires
            p < 32,
            o < 32,
            p != o,
    ;
}

/// The bit of the lock register that locks the fourth and fifth words of the chip's
/// serial number.
pub const BIT_FTSN3_LOCK: u32 = 3;

/// The bit of the lock register that locks the fifth word of the chip's serial number.
pub const BIT_FTSN4_LOCK: u32 = 4;

/// The two address words with which the eFuse controller programs bit `bit` of the word
/// at `addr`: the address, then the address with its strobe bit set, each cut to 12
/// bits.
pub fn efuse_program_words(addr: u32, bit: u32) -> (r: (u32, u32))
    requires
        bit < 32,
    ensures
        r.0 == ((((bit << 7u32) | ((addr & 0x3f) << 1u32)) as u16) & 0xfff) as u32,
        r.1 == ((((((bit << 7u32) | ((addr & 0x3f) << 1u32)) as u16) | 1) & 0xfff) as u32),
{
    let w_addr = (bit << 7) | ((addr & 0x3F) << 1);
    let mut w_addr = w_addr as u16;
    let first = (w_addr & 0xFFF) as u32;
    w_addr = w_addr | 0x1;
    (first, (w_addr & 0xFFF) as u32)
}

/// Which lock bits are still to program, from the lock register `value`.
pub fn efuse_locks_to_program(value: u32) -> (r: (bool, bool))
    ensures
        r.0 == (value & (1u32 << 3u32) == 0),
        r.1 == (value & (1u32 << 4u32) == 0),
{
    ((value & (0x1 << BIT_FTSN3_LOCK)) == 0, (value & (0x1 << BIT_FTSN4_LOCK)) == 0)
}

/// Whether the lock register `value` shows both serial-number words locked.
pub fn efuse_chipsn_locked(value: u32) -> (r: bool)
    ensures
        r == ((value & (3u32 << 3u32)) >> 3u32 == 3),
{
    ((value & (0x3 << BIT_FTSN3_LOCK)) >> BIT_FTSN3_LOCK) == 0x3
}

/// Whether the wait for the eFuse controller, begun at `start`, has run out at `now`:
/// after 250 ms.
pub fn efuse_timed_out(start: u64, now: u64) -> (r: bool)
    ensures
        r == (now.wrapping_sub(start) > 250 * 1000 * 25),
{
    now.wrapping_sub(start) > 250 * 1000 * 25
}

/// The GPIO pin of the horizontal sync.
pub const H_SYNC_PIN: u32 = 20;

/// The GPIO pin of the vertical sync.
pub const V_SYNC_PIN: u32 = 21;

/// The word of the GPIO data register that shows the frame-buffer byte `pval`: its low
/// six bits on pins 11-16, its top two on pins 18-19, both syncs low-active and idle.
pub fn pixel_word(pval: u8) -> (r: u32)
    ensures
        r == ((pval as u32 & 0x3f) << 11u32) | ((pval as u32 & 0xc0) << 12u32) | ((1u32 << 20u32) | (1u32 << 21u32)),
{
    let pval = pval as u32;
    (pval & 0b00111111) << 11u32 | ((pval & 0b11000000) << 12u32) | ((1u32 << H_SYNC_PIN) | (1u32 << V_SYNC_PIN))
}

} // verus!
