//! The firmware image package (FIP) read by the board's boot ROM: little-endian fields,
//! the image checksum, and the images that the two image tools build.
use vstd::prelude::*;

verus! {

/// The first magic of the first parameter block: "CVBL01\n\0".
pub const PARAM1_MAGIC1: [u8; 8] = [0x43, 0x56, 0x42, 0x4c, 0x30, 0x31, 0x0a, 0x00];

/// The first magic of the second parameter block: "CVLD02\n\0".
pub const PARAM2_MAGIC1: [u8; 8] = [0x43, 0x56, 0x4c, 0x44, 0x30, 0x32, 0x0a, 0x00];

/// Images are padded to a multiple of this many bytes.
pub const IMAGE_ALIGN: usize = 512;

/// The little-endian bytes of a 32-bit value.
pub open spec fn le32(v: u32) -> Seq<u8> {
    seq![v as u8, (v >> 8) as u8, (v >> 16) as u8, (v >> 24) as u8]
}

/// The value of four little-endian bytes.
pub open spec fn le32_value(b: Seq<u8>) -> u32 {
    (b[0] as u32) | ((b[1] as u32) << 8) | ((b[2] as u32) << 16) | ((b[3] as u32) << 24)
}

/// The little-endian bytes of a 64-bit value.
pub open spec fn le64(v: u64) -> Seq<u8> {
    seq![
        v as u8,
        (v >> 8) as u8,
        (v >> 16) as u8,
        (v >> 24) as u8,
        (v >> 32) as u8,
        (v >> 40) as u8,
        (v >> 48) as u8,
        (v >> 56) as u8,
    ]
}

/// The value of eight little-endian bytes.
pub open spec fn le64_value(b: Seq<u8>) -> u64 {
    (b[0] as u64) | ((b[1] as u64) << 8) | ((b[2] as u64) << 16) | ((b[3] as u64) << 24) | ((
    b[4] as u64) << 32) | ((b[5] as u64) << 40) | ((b[6] as u64) << 48) | ((b[7] as u64) << 56)
}

/// A 32-bit value stored as four little-endian bytes.
#[derive(PartialEq, Eq, Hash, Debug)]
pub struct U32Le([u8; 4]);

/// A 64-bit value stored as eight little-endian bytes.
#[derive(PartialEq, Eq, Hash, Debug)]
pub struct U64Le([u8; 8]);

impl View for U32Le {
    type V = Seq<u8>;

    closed spec fn view(&self) -> Seq<u8> {
        self.0@
    }
}

impl View for U64Le {
    type V = Seq<u8>;

    closed spec fn view(&self) -> Seq<u8> {
        self.0@
    }
}

impl U32Le {
    pub fn new(val: u32) -> (r: Self)
        ensures
            r@ == le32(val),
    {
        let r = U32Le([val as u8, (val >> 8) as u8, (val >> 16) as u8, (val >> 24) as u8]);
        assert(r@ =~= le32(val));
        r
    }

    pub fn get(&self) -> (v: u32)
        ensures
            v == le32_value(self@),
    {
        (self.0[0] as u32) | ((self.0[1] as u32) << 8) | ((self.0[2] as u32) << 16) | ((
        self.0[3] as u32) << 24)
    }

    /// The four bytes.
    pub fn bytes(&self) -> (b: [u8; 4])
        ensures
            b@ == self@,
    {
        self.0
    }
}

impl U64Le {
    pub fn new(val: u64) -> (r: Self)
        ensures
            r@ == le64(val),
    {
        let r = U64Le(
            [
                val as u8,
                (val >> 8) as u8,
                (val >> 16) as u8,
                (val >> 24) as u8,
                (val >> 32) as u8,
                (val >> 40) as u8,
                (val >> 48) as u8,
                (val >> 56) as u8,
            ],
        );
        assert(r@ =~= le64(val));
        r
    }

    pub fn get(&self) -> (v: u64)
        ensures
            v == le64_value(self@),
    {
        (self.0[0] as u64) | ((self.0[1] as u64) << 8) | ((self.0[2] as u64) << 16) | ((
        self.0[3] as u64) << 24) | ((self.0[4] as u64) << 32) | ((self.0[5] as u64) << 40) | ((
        self.0[6] as u64) << 48) | ((self.0[7] as u64) << 56)
    }

    /// The eight bytes.
    pub fn bytes(&self) -> (b: [u8; 8])
        ensures
            b@ == self@,
    {
        self.0
    }
}

/// Reading back the bytes of a 32-bit value gives the value.
pub proof fn law_le32_roundtrip(v: u32)
    ensures
        le32_value(le32(v)) == v,
{
    let b0 = v as u8;
    let b1 = (v >> 8) as u8;
    let b2 = (v >> 16) as u8;
    let b3 = (v >> 24) as u8;
    assert((b0 as u32) | ((b1 as u32) << 8) | ((b2 as u32) << 16) | ((b3 as u32) << 24) == v)
        by (bit_vector)
        requires
            b0 == v as u8,
            b1 == (v >> 8) as u8,
            b2 == (v >> 16) as u8,
            b3 == (v >> 24) as u8,
    ;
}

/// Reading back the bytes of a 64-bit value gives the value.
pub proof fn law_le64_roundtrip(v: u64)
    ensures
        le64_value(le64(v)) == v,
{
    let b0 = v as u8;
    let b1 = (v >> 8) as u8;
    let b2 = (v >> 16) as u8;
    let b3 = (v >> 24) as u8;
    let b4 = (v >> 32) as u8;
    let b5 = (v >> 40) as u8;
    let b6 = (v >> 48) as u8;
    let b7 = (v >> 56) as u8;
    assert((b0 as u64) | ((b1 as u64) << 8) | ((b2 as u64) << 16) | ((b3 as u64) << 24) | ((
    b4 as u64) << 32) | ((b5 as u64) << 40) | ((b6 as u64) << 48) | ((b7 as u64) << 56) == v)
        by (bit_vector)
        requires
            b0 == v as u8,
            b1 == (v >> 8) as u8,
            b2 == (v >> 16) as u8,
            b3 == (v >> 24) as u8,
            b4 == (v >> 32) as u8,
            b5 == (v >> 40) as u8,
            b6 == (v >> 48) as u8,
            b7 == (v >> 56) as u8,
    ;
}

/// One step of the 16-bit CRC of the image checksum.
pub open spec fn crc_step(crc: u16, byte: u8) -> u16 {
    let x0 = ((crc >> 8) ^ (byte as u16)) & 255;
    let x = x0 ^ (x0 >> 4);
    (crc << 8) ^ (x << 12) ^ (x << 5) ^ x
}

/// The 16-bit CRC of a byte string, starting from 0.
pub open spec fn crc16(s: Seq<u8>) -> u16
    decreases s.len(),
{
    if s.len() == 0 {
        0
    } else {
        crc_step(crc16(s.drop_last()), s.last())
    }
}

/// The image checksum: the CRC tagged with 0xcafe in its upper half.
pub open spec fn check_sum(s: Seq<u8>) -> u32 {
    (crc16(s) as u32) | 0xcafe0000
}

/// The image checksum of `msg`.
pub fn calc_check_sum(msg: &[u8]) -> (r: u32)
    ensures
        r == check_sum(msg@),
{
    let mut crc: u16 = 0;
    let mut i: usize = 0;
    while i < msg.len()
        invariant
            i <= msg@.len(),
            crc == crc16(msg@.subrange(0, i as int)),
        decreases msg@.len() - i,
    {
        let byte = msg[i];
        let mut x: u16 = ((crc >> 8) ^ (byte as u16)) & 255;
        x = x ^ (x >> 4);
        crc = (crc << 8) ^ (x << 12) ^ (x << 5) ^ x;
        proof {
            let s = msg@.subrange(0, i + 1);
            assert(s.drop_last() =~= msg@.subrange(0, i as int));
        }
        i = i + 1;
    }
    assert(msg@.subrange(0, msg@.len() as int) =~= msg@);
    (crc as u32) | 0xcafe0000
}

/// The length of a `len`-byte image padded to the image alignment.
pub open spec fn aligned_len(len: nat) -> nat {
    ((len + 511) / 512 * 512) as nat
}

/// Pads an image with zeros to a multiple of the image alignment.
pub fn align_vec(v: &mut Vec<u8>)
    requires
        old(v)@.len() + 511 <= usize::MAX,
    ensures
        final(v)@ == old(v)@ + Seq::new((aligned_len(old(v)@.len()) - old(v)@.len()) as nat, |i: int| 0u8),
{
    let old_len = v.len();
    let sum: usize = old_len + (IMAGE_ALIGN - 1);
    let len = sum & !(IMAGE_ALIGN - 1);
    assert(len == sum / 512 * 512) by (bit_vector)
        requires
            len == sum & !511usize,
    ;
    v.resize(len, 0);
    assert(v@ =~= old(v)@ + Seq::new((aligned_len(old(v)@.len()) - old(v)@.len()) as nat, |i: int| 0u8));
}

} // verus!

verus! {

/// `n` copies of the byte `b`.
pub open spec fn fill(n: nat, b: u8) -> Seq<u8> {
    Seq::new(n, |i: int| b)
}

fn push_bytes(v: &mut Vec<u8>, s: &[u8])
    ensures
        final(v)@ == old(v)@ + s@,
{
    let mut i: usize = 0;
    while i < s.len()
        invariant
            i <= s@.len(),
            v@ == old(v)@ + s@.subrange(0, i as int),
        decreases s@.len() - i,
    {
        v.push(s[i]);
        i = i + 1;
        assert(v@ =~= old(v)@ + s@.subrange(0, i as int));
    }
    assert(s@.subrange(0, s@.len() as int) =~= s@);
}

fn push_fill(v: &mut Vec<u8>, b: u8, n: usize)
    ensures
        final(v)@ == old(v)@ + fill(n as nat, b),
{
    let mut i: usize = 0;
    while i < n
        invariant
            i <= n,
            v@ == old(v)@ + fill(i as nat, b),
        decreases n - i,
    {
        v.push(b);
        i = i + 1;
        assert(v@ =~= old(v)@ + fill(i as nat, b));
    }
}

fn push_le32(v: &mut Vec<u8>, x: u32)
    ensures
        final(v)@ == old(v)@ + le32(x),
{
    let b = U32Le::new(x).bytes();
    push_bytes(v, b.as_slice());
}

fn push_le64(v: &mut Vec<u8>, x: u64)
    ensures
        final(v)@ == old(v)@ + le64(x),
{
    let b = U64Le::new(x).bytes();
    push_bytes(v, b.as_slice());
}

/// The part of the first parameter block that its checksum covers, for the image that
/// the single-stage tool builds: `bl_len` and `s2_len` are the padded sizes of the
/// second-stage loader and of the payload that follows it, `c1` the loader's checksum.
pub open spec fn fip_param1_body(bl_len: u32, s2_len: u32, c1: u32) -> Seq<u8> {
    fill(128, 0) + fill(36, 0xFF) + fill(8, 0) + le32(760) + le32(0) + le32(0) + le32(0) + le32(0)
        + le32(0) + le32(c1) + le32(bl_len) + le32(0) + le32(0) + le32(s2_len) + fill(1816, 0)
}

/// The image that the single-stage tool builds from a second-stage loader and a payload:
/// the first parameter block, four empty signature blocks, then both images padded.
pub open spec fn fip_image(bl: Seq<u8>, s2: Seq<u8>) -> Seq<u8> {
    let bl_a = bl + fill((aligned_len(bl.len()) - bl.len()) as nat, 0);
    let s2_a = s2 + fill((aligned_len(s2.len()) - s2.len()) as nat, 0);
    let body = fip_param1_body(bl_a.len() as u32, s2_a.len() as u32, check_sum(bl_a));
    PARAM1_MAGIC1@ + le32(0) + le32(check_sum(body)) + body + fill(2048, 0) + bl_a + s2_a
}

/// Builds the image of the single-stage tool from a second-stage loader and a payload.
pub fn build_fip_image(bl_img: Vec<u8>, s2: Vec<u8>) -> (file: Vec<u8>)
    requires
        bl_img@.len() + s2@.len() + 8192 <= usize::MAX,
    ensures
        file@ == fip_image(bl_img@, s2@),
{
    let mut bl_img = bl_img;
    let mut s2 = s2;
    align_vec(&mut bl_img);
    align_vec(&mut s2);
    let c1 = calc_check_sum(bl_img.as_slice());
    let mut body: Vec<u8> = Vec::new();
    push_fill(&mut body, 0, 128);
    push_fill(&mut body, 0xFF, 36);
    push_fill(&mut body, 0, 8);
    push_le32(&mut body, 760);
    push_le32(&mut body, 0);
    push_le32(&mut body, 0);
    push_le32(&mut body, 0);
    push_le32(&mut body, 0);
    push_le32(&mut body, 0);
    push_le32(&mut body, c1);
    push_le32(&mut body, bl_img.len() as u32);
    push_le32(&mut body, 0);
    push_le32(&mut body, 0);
    push_le32(&mut body, s2.len() as u32);
    push_fill(&mut body, 0, 1816);
    let c0 = calc_check_sum(body.as_slice());
    let mut file: Vec<u8> = Vec::new();
    push_bytes(&mut file, PARAM1_MAGIC1.as_slice());
    push_le32(&mut file, 0);
    push_le32(&mut file, c0);
    push_bytes(&mut file, body.as_slice());
    push_fill(&mut file, 0, 2048);
    push_bytes(&mut file, bl_img.as_slice());
    push_bytes(&mut file, s2.as_slice());
    file
}

} // verus!

verus! {

/// The second-stage loader magic of an uncompressed loader: "BL33".
pub const LOADER_2ND_MAGIC_ORIG: [u8; 4] = [0x42, 0x4c, 0x33, 0x33];

/// The second-stage loader magic of an LZMA-compressed loader: "B3MA".
pub const LOADER_2ND_MAGIC_LZMA: [u8; 4] = [0x42, 0x33, 0x4d, 0x41];

/// The second-stage loader magic of an LZ4-compressed loader: "B3Z4".
pub const LOADER_2ND_MAGIC_LZ4: [u8; 4] = [0x42, 0x33, 0x5a, 0x34];

/// An image padded with zeros to the image alignment.
pub open spec fn pad(s: Seq<u8>) -> Seq<u8> {
    s + fill((aligned_len(s.len()) - s.len()) as nat, 0)
}

/// The second-stage loader body padded so that, with its 32-byte header, it fills
/// whole alignment blocks.
pub open spec fn pad_loader(s: Seq<u8>) -> Seq<u8> {
    s + fill((aligned_len(s.len() + 32) - 32 - s.len()) as nat, 0)
}

/// The inputs of the full image: the board's flash descriptions and every boot stage.
pub struct FipParts {
    pub nand_info: Vec<u8>,
    pub nor_info: Vec<u8>,
    pub fip_flags: Vec<u8>,
    pub blcp_img: Vec<u8>,
    pub bl2_img: Vec<u8>,
    pub chip_conf: Vec<u8>,
    pub bl_ek: Vec<u8>,
    pub root_pk: Vec<u8>,
    pub bl_pk: Vec<u8>,
    pub ddr_param: Vec<u8>,
    pub blcp_2nd: Vec<u8>,
    pub monitor: Vec<u8>,
    pub ldr2nd: Vec<u8>,
}

impl FipParts {
    /// The fixed-size parts have the sizes of their fields in the parameter block.
    pub open spec fn sizes_ok(&self) -> bool {
        &&& self.nand_info@.len() == 128
        &&& self.nor_info@.len() == 36
        &&& self.fip_flags@.len() == 8
        &&& self.chip_conf@.len() == 760
        &&& self.bl_ek@.len() == 32
        &&& self.root_pk@.len() == 512
        &&& self.bl_pk@.len() == 512
    }

    /// The sum of the sizes of the variable parts.
    pub open spec fn images_len(&self) -> nat {
        self.blcp_img@.len() + self.bl2_img@.len() + self.ddr_param@.len()
            + self.blcp_2nd@.len() + self.monitor@.len() + self.ldr2nd@.len()
    }
}

/// The checksummed part of the first parameter block of the full image.
pub open spec fn param1_body(
    nand: Seq<u8>,
    nor: Seq<u8>,
    flags: Seq<u8>,
    blcp: Seq<u8>,
    bl2: Seq<u8>,
) -> Seq<u8> {
    nand + nor + flags + le32(760) + le32(check_sum(blcp)) + le32(blcp.len() as u32) + le32(0)
        + le32(0) + le32(0) + le32(check_sum(bl2)) + le32(bl2.len() as u32) + le32(0) + le32(0)
        + le32(0) + fill(1816, 0)
}

/// The first parameter block of the full image.
pub open spec fn param1_block(
    nand: Seq<u8>,
    nor: Seq<u8>,
    flags: Seq<u8>,
    blcp: Seq<u8>,
    bl2: Seq<u8>,
) -> Seq<u8> {
    let body = param1_body(nand, nor, flags, blcp, bl2);
    PARAM1_MAGIC1@ + le32(0) + le32(check_sum(body)) + body
}

/// The checksummed part of the second parameter block: the checksums, load addresses
/// and sizes of the DDR parameters, the second core's image and the monitor, and the
/// offset of the second-stage loader.
pub open spec fn param2_body(ddr: Seq<u8>, b2nd: Seq<u8>, mon: Seq<u8>, ldr_off: u32) -> Seq<u8> {
    le32(0) + le32(check_sum(ddr)) + le32(0xa400) + le32(ddr.len() as u32) + le32(0) + le32(
        check_sum(b2nd),
    ) + le32(0xc400) + le32(b2nd.len() as u32) + le32(0x9fe00000) + le32(check_sum(mon)) + le32(
        0xfa00,
    ) + le32(mon.len() as u32) + le32(0x80000000) + le32(0) + le32(ldr_off) + le32(0) + le32(0)
        + fill(4016, 0)
}

/// The second parameter block.
pub open spec fn param2_block(ddr: Seq<u8>, b2nd: Seq<u8>, mon: Seq<u8>, ldr_off: u32) -> Seq<
    u8,
> {
    let body = param2_body(ddr, b2nd, mon, ldr_off);
    PARAM2_MAGIC1@ + le32(check_sum(body)) + body
}

/// The checksummed part of the second-stage loader: its header from the size on, and
/// the loader.
pub open spec fn loader_body(ldr: Seq<u8>) -> Seq<u8> {
    le32((ldr.len() as u32 + 0x20) as u32) + le64(0x80200000) + le32(0xdeadbeec) + le32(0x0001a011) + ldr
}

/// The second-stage loader with its header.
pub open spec fn loader_block(ldr: Seq<u8>) -> Seq<u8> {
    let body = loader_body(ldr);
    le32(0x0001a005) + LOADER_2ND_MAGIC_ORIG@ + le32(check_sum(body)) + body
}

/// The full image built from its parts: both parameter blocks, each stage padded to the
/// image alignment, and the uncompressed second-stage loader at the end.
pub open spec fn fip_full_image(
    nand: Seq<u8>,
    nor: Seq<u8>,
    flags: Seq<u8>,
    blcp: Seq<u8>,
    bl2: Seq<u8>,
    ddr: Seq<u8>,
    b2nd: Seq<u8>,
    mon: Seq<u8>,
    ldr: Seq<u8>,
) -> Seq<u8> {
    let blcp_a = pad(blcp);
    let bl2_a = pad(bl2);
    let ddr_a = pad(ddr);
    let b2nd_a = pad(b2nd);
    let mon_a = pad(mon);
    let ldr_off = (4096 + blcp_a.len() + bl2_a.len() + 4096 + ddr_a.len() + b2nd_a.len()
        + mon_a.len()) as u32;
    param1_block(nand, nor, flags, blcp_a, bl2_a) + fill(2048, 0) + blcp_a + bl2_a
        + param2_block(ddr_a, b2nd_a, mon_a, ldr_off) + ddr_a + b2nd_a + mon_a + loader_block(
        pad_loader(ldr),
    )
}

fn param1_block_of(nand: &[u8], nor: &[u8], flags: &[u8], blcp: &[u8], bl2: &[u8]) -> (r: Vec<u8>)
    ensures
        r@ == param1_block(nand@, nor@, flags@, blcp@, bl2@),
{
    let mut body: Vec<u8> = Vec::new();
    push_bytes(&mut body, nand);
    push_bytes(&mut body, nor);
    push_bytes(&mut body, flags);
    push_le32(&mut body, 760);
    push_le32(&mut body, calc_check_sum(blcp));
    push_le32(&mut body, blcp.len() as u32);
    push_le32(&mut body, 0);
    push_le32(&mut body, 0);
    push_le32(&mut body, 0);
    push_le32(&mut body, calc_check_sum(bl2));
    push_le32(&mut body, bl2.len() as u32);
    push_le32(&mut body, 0);
    push_le32(&mut body, 0);
    push_le32(&mut body, 0);
    push_fill(&mut body, 0, 1816);
    let mut r: Vec<u8> = Vec::new();
    push_bytes(&mut r, PARAM1_MAGIC1.as_slice());
    push_le32(&mut r, 0);
    push_le32(&mut r, calc_check_sum(body.as_slice()));
    push_bytes(&mut r, body.as_slice());
    r
}

fn param2_block_of(ddr: &[u8], b2nd: &[u8], mon: &[u8], ldr_off: u32) -> (r: Vec<u8>)
    ensures
        r@ == param2_block(ddr@, b2nd@, mon@, ldr_off),
{
    let mut body: Vec<u8> = Vec::new();
    push_le32(&mut body, 0);
    push_le32(&mut body, calc_check_sum(ddr));
    push_le32(&mut body, 0x0000a400);
    push_le32(&mut body, ddr.len() as u32);
    push_le32(&mut body, 0);
    push_le32(&mut body, calc_check_sum(b2nd));
    push_le32(&mut body, 0x0000c400);
    push_le32(&mut body, b2nd.len() as u32);
    push_le32(&mut body, 0x9fe00000);
    push_le32(&mut body, calc_check_sum(mon));
    push_le32(&mut body, 0x0000fa00);
    push_le32(&mut body, mon.len() as u32);
    push_le32(&mut body, 0x80000000);
    push_le32(&mut body, 0);
    push_le32(&mut body, ldr_off);
    push_le32(&mut body, 0);
    push_le32(&mut body, 0);
    push_fill(&mut body, 0, 4096 - 16 * 5);
    let mut r: Vec<u8> = Vec::new();
    push_bytes(&mut r, PARAM2_MAGIC1.as_slice());
    push_le32(&mut r, calc_check_sum(body.as_slice()));
    push_bytes(&mut r, body.as_slice());
    r
}

fn loader_block_of(ldr: &[u8]) -> (r: Vec<u8>)
    requires
        ldr@.len() as u32 + 0x20 <= u32::MAX,
    ensures
        r@ == loader_block(ldr@),
{
    let mut body: Vec<u8> = Vec::new();
    push_le32(&mut body, ldr.len() as u32 + 0x20);
    push_le64(&mut body, 0x0000000080200000);
    push_le32(&mut body, 0xdeadbeec);
    push_le32(&mut body, 0x0001a011);
    push_bytes(&mut body, ldr);
    let mut r: Vec<u8> = Vec::new();
    push_le32(&mut r, 0x0001a005);
    push_bytes(&mut r, LOADER_2ND_MAGIC_ORIG.as_slice());
    push_le32(&mut r, calc_check_sum(body.as_slice()));
    push_bytes(&mut r, body.as_slice());
    r
}

/// Pads the second-stage loader.
fn pad_loader_vec(v: &mut Vec<u8>)
    requires
        old(v)@.len() + 32 + 511 <= usize::MAX,
    ensures
        final(v)@ == pad_loader(old(v)@),
{
    let l = v.len();
    let sum: usize = 0x20 + l + (512 - 1);
    let len = sum & !511usize;
    assert(len == sum / 512 * 512) by (bit_vector)
        requires
            len == sum & !511usize,
    ;
    v.resize(len - 0x20, 0);
    assert(v@ =~= pad_loader(old(v)@));
}

/// Builds the full image from its parts.
pub fn make_image(parts: FipParts) -> (file: Vec<u8>)
    requires
        parts.sizes_ok(),
        parts.images_len() + 16384 <= usize::MAX,
        pad_loader(parts.ldr2nd@).len() as u32 + 0x20 <= u32::MAX,
    ensures
        file@ == fip_full_image(
            parts.nand_info@,
            parts.nor_info@,
            parts.fip_flags@,
            parts.blcp_img@,
            parts.bl2_img@,
            parts.ddr_param@,
            parts.blcp_2nd@,
            parts.monitor@,
            parts.ldr2nd@,
        ),
{
    let ghost p = parts;
    let FipParts {
        nand_info,
        nor_info,
        fip_flags,
        blcp_img,
        bl2_img,
        chip_conf: _,
        bl_ek: _,
        root_pk: _,
        bl_pk: _,
        ddr_param,
        blcp_2nd,
        monitor,
        ldr2nd,
    } = parts;
    let mut blcp_img = blcp_img;
    let mut bl2_img = bl2_img;
    let mut ddr_param = ddr_param;
    let mut blcp_2nd = blcp_2nd;
    let mut monitor = monitor;
    let mut ldr2nd = ldr2nd;
    align_vec(&mut blcp_img);
    align_vec(&mut bl2_img);
    align_vec(&mut ddr_param);
    align_vec(&mut blcp_2nd);
    align_vec(&mut monitor);
    pad_loader_vec(&mut ldr2nd);
    let ldr_off = (4096 + blcp_img.len() + bl2_img.len() + 4096 + ddr_param.len()
        + blcp_2nd.len() + monitor.len()) as u32;
    let p1 = param1_block_of(
        nand_info.as_slice(),
        nor_info.as_slice(),
        fip_flags.as_slice(),
        blcp_img.as_slice(),
        bl2_img.as_slice(),
    );
    let p2 = param2_block_of(ddr_param.as_slice(), blcp_2nd.as_slice(), monitor.as_slice(), ldr_off);
    let ld = loader_block_of(ldr2nd.as_slice());
    let mut file: Vec<u8> = Vec::new();
    push_bytes(&mut file, p1.as_slice());
    push_fill(&mut file, 0, 2048);
    push_bytes(&mut file, blcp_img.as_slice());
    push_bytes(&mut file, bl2_img.as_slice());
    push_bytes(&mut file, p2.as_slice());
    push_bytes(&mut file, ddr_param.as_slice());
    push_bytes(&mut file, blcp_2nd.as_slice());
    push_bytes(&mut file, monitor.as_slice());
    push_bytes(&mut file, ld.as_slice());
    assert(file@ == fip_full_image(p.nand_info@, p.nor_info@, p.fip_flags@, p.blcp_img@,
        p.bl2_img@, p.ddr_param@, p.blcp_2nd@, p.monitor@, p.ldr2nd@));
    file
}

} // verus!

verus! {

/// How the second-stage loader of an image is stored.
#[derive(Clone, Copy, PartialEq, Eq, Debug)]
pub enum LoaderKind {
    Lz4,
    Lzma,
    Orig,
}

/// Why an image does not pass the checks of `dump_image`.
#[derive(Clone, Copy, PartialEq, Eq, Debug)]
pub enum DumpError {
    /// a part lies beyond the end of the file
    Truncated,
    Param1Magic,
    ChipConfSize,
    Param1Checksum,
    SignatureNotZero,
    BlcpChecksum,
    Bl2Checksum,
    Param2Magic,
    Param2Checksum,
    DdrParamChecksum,
    Blcp2ndChecksum,
    MonitorChecksum,
    LoaderChecksum,
    /// the second parameter block does not point at the loader that follows the monitor
    LoaderAddress,
    /// the loader is shorter than its header
    LoaderTooSmall,
    /// the loader does not end where the file ends
    LoaderEnd,
    LoaderMagic,
}

/// Where the parts of a checked image lie in it, as byte ranges `(start, end)`.
#[derive(Clone, Copy, PartialEq, Eq, Debug)]
pub struct FipDump {
    pub blcp: (usize, usize),
    pub bl2: (usize, usize),
    pub ddr_param: (usize, usize),
    pub blcp_2nd: (usize, usize),
    pub monitor: (usize, usize),
    pub ldr2nd_body: (usize, usize),
    pub ldr_kind: LoaderKind,
}

/// The ranges of the fixed parts of the first parameter block.
pub const NAND_INFO_RANGE: (usize, usize) = (16, 144);
pub const NOR_INFO_RANGE: (usize, usize) = (144, 180);
pub const FIP_FLAGS_RANGE: (usize, usize) = (180, 188);
pub const CHIP_CONF_RANGE: (usize, usize) = (232, 992);
pub const BL_EK_RANGE: (usize, usize) = (992, 1024);
pub const ROOT_PK_RANGE: (usize, usize) = (1024, 1536);
pub const BL_PK_RANGE: (usize, usize) = (1536, 2048);

/// The 32-bit little-endian field at offset `o`.
pub open spec fn rd32(f: Seq<u8>, o: int) -> u32 {
    le32_value(f.subrange(o, o + 4))
}

pub open spec fn all_zero(s: Seq<u8>) -> bool {
    forall|i: int| 0 <= i < s.len() ==> s[i] == 0
}

/// The part of the checks that follows the monitor: the second-stage loader at `a7`,
/// to which the second parameter block at `a3` must point.
pub open spec fn dump_loader(f: Seq<u8>, a3: int, a7: int) -> Result<(usize, usize, LoaderKind), DumpError> {
    if a7 + 32 > f.len() {
        Err(DumpError::Truncated)
    } else if rd32(f, a7 + 8) != check_sum(f.subrange(a7 + 12, f.len() as int)) {
        Err(DumpError::LoaderChecksum)
    } else if rd32(f, a3 + 68) != a7 {
        Err(DumpError::LoaderAddress)
    } else if a7 + rd32(f, a7 + 12) > f.len() {
        Err(DumpError::Truncated)
    } else if rd32(f, a7 + 12) < 32 {
        Err(DumpError::LoaderTooSmall)
    } else if a7 + rd32(f, a7 + 12) != f.len() {
        Err(DumpError::LoaderEnd)
    } else {
        let magic = f.subrange(a7 + 4, a7 + 8);
        if magic == LOADER_2ND_MAGIC_LZ4@ {
            Ok(((a7 + 32) as usize, f.len() as usize, LoaderKind::Lz4))
        } else if magic == LOADER_2ND_MAGIC_LZMA@ {
            Ok(((a7 + 32) as usize, f.len() as usize, LoaderKind::Lzma))
        } else if magic == LOADER_2ND_MAGIC_ORIG@ {
            Ok(((a7 + 32) as usize, f.len() as usize, LoaderKind::Orig))
        } else {
            Err(DumpError::LoaderMagic)
        }
    }
}

/// The checks of the second parameter block at `a3` and of the images that follow it.
pub open spec fn dump_param2(f: Seq<u8>, a3: int) -> Result<FipDumpTail, DumpError> {
    let a4 = a3 + 4096;
    let ddr_len = rd32(f, a3 + 24) as int;
    let a5 = a4 + ddr_len;
    let b2_len = rd32(f, a3 + 40) as int;
    let a6 = a5 + b2_len;
    let mon_len = rd32(f, a3 + 56) as int;
    let a7 = a6 + mon_len;
    if a4 > f.len() {
        Err(DumpError::Truncated)
    } else if f.subrange(a3, a3 + 8) != PARAM2_MAGIC1@ {
        Err(DumpError::Param2Magic)
    } else if rd32(f, a3 + 8) != check_sum(f.subrange(a3 + 12, a4)) {
        Err(DumpError::Param2Checksum)
    } else if a5 > f.len() {
        Err(DumpError::Truncated)
    } else if rd32(f, a3 + 16) != check_sum(f.subrange(a4, a5)) {
        Err(DumpError::DdrParamChecksum)
    } else if a6 > f.len() {
        Err(DumpError::Truncated)
    } else if rd32(f, a3 + 32) != check_sum(f.subrange(a5, a6)) {
        Err(DumpError::Blcp2ndChecksum)
    } else if a7 > f.len() {
        Err(DumpError::Truncated)
    } else if rd32(f, a3 + 48) != check_sum(f.subrange(a6, a7)) {
        Err(DumpError::MonitorChecksum)
    } else {
        match dump_loader(f, a3, a7) {
            Err(e) => Err(e),
            Ok((s, e, k)) => Ok(
                FipDumpTail {
                    ddr_param: (a4 as usize, a5 as usize),
                    blcp_2nd: (a5 as usize, a6 as usize),
                    monitor: (a6 as usize, a7 as usize),
                    ldr2nd_body: (s, e),
                    ldr_kind: k,
                },
            ),
        }
    }
}

/// The ranges found by the checks that follow the first parameter block.
pub struct FipDumpTail {
    pub ddr_param: (usize, usize),
    pub blcp_2nd: (usize, usize),
    pub monitor: (usize, usize),
    pub ldr2nd_body: (usize, usize),
    pub ldr_kind: LoaderKind,
}

/// What `dump_image` finds in the file `f`.
pub open spec fn dump_spec(f: Seq<u8>) -> Result<FipDump, DumpError> {
    let blcp_len = rd32(f, 196) as int;
    let a2 = 4096 + blcp_len;
    let bl2_len = rd32(f, 216) as int;
    let a3 = a2 + bl2_len;
    if f.len() < 4096 {
        Err(DumpError::Truncated)
    } else if f.subrange(0, 8) != PARAM1_MAGIC1@ {
        Err(DumpError::Param1Magic)
    } else if rd32(f, 188) != 760 {
        Err(DumpError::ChipConfSize)
    } else if rd32(f, 12) != check_sum(f.subrange(16, 2048)) {
        Err(DumpError::Param1Checksum)
    } else if !all_zero(f.subrange(2048, 4096)) {
        Err(DumpError::SignatureNotZero)
    } else if a2 > f.len() {
        Err(DumpError::Truncated)
    } else if rd32(f, 192) != check_sum(f.subrange(4096, a2)) {
        Err(DumpError::BlcpChecksum)
    } else if a3 > f.len() {
        Err(DumpError::Truncated)
    } else if rd32(f, 212) != check_sum(f.subrange(a2, a3)) {
        Err(DumpError::Bl2Checksum)
    } else {
        match dump_param2(f, a3) {
            Err(e) => Err(e),
            Ok(t) => Ok(
                FipDump {
                    blcp: (4096, a2 as usize),
                    bl2: (a2 as usize, a3 as usize),
                    ddr_param: t.ddr_param,
                    blcp_2nd: t.blcp_2nd,
                    monitor: t.monitor,
                    ldr2nd_body: t.ldr2nd_body,
                    ldr_kind: t.ldr_kind,
                },
            ),
        }
    }
}

fn read_le32(f: &[u8], o: usize) -> (v: u32)
    requires
        o + 4 <= f@.len(),
    ensures
        v == rd32(f@, o as int),
{
    let b = U32Le([f[o], f[o + 1], f[o + 2], f[o + 3]]);
    assert(b@ =~= f@.subrange(o as int, o + 4));
    b.get()
}

fn bytes_eq(a: &[u8], b: &[u8]) -> (r: bool)
    ensures
        r == (a@ == b@),
{
    if a.len() != b.len() {
        return false;
    }
    let mut i: usize = 0;
    while i < a.len()
        invariant
            a@.len() == b@.len(),
            i <= a@.len(),
            forall|j: int| 0 <= j < i ==> a@[j] == b@[j],
        decreases a@.len() - i,
    {
        if a[i] != b[i] {
            return false;
        }
        i = i + 1;
    }
    assert(a@ =~= b@);
    true
}

fn is_all_zero(s: &[u8]) -> (r: bool)
    ensures
        r == all_zero(s@),
{
    let mut i: usize = 0;
    while i < s.len()
        invariant
            i <= s@.len(),
            forall|j: int| 0 <= j < i ==> s@[j] == 0,
        decreases s@.len() - i,
    {
        if s[i] != 0 {
            return false;
        }
        i = i + 1;
    }
    true
}

fn dump_loader_of(f: &[u8], a3: usize, a7: usize) -> (r: Result<(usize, usize, LoaderKind), DumpError>)
    requires
        a3 + 4096 <= a7 <= f@.len(),
    ensures
        r == dump_loader(f@, a3 as int, a7 as int),
{
    if f.len() - a7 < 32 {
        return Err(DumpError::Truncated);
    }
    let len = f.len();
    if read_le32(f, a7 + 8) != calc_check_sum(&f[a7 + 12..len]) {
        return Err(DumpError::LoaderChecksum);
    }
    let start = read_le32(f, a3 + 68);
    if start as usize != a7 {
        return Err(DumpError::LoaderAddress);
    }
    let size = read_le32(f, a7 + 12) as usize;
    if size > len - a7 {
        return Err(DumpError::Truncated);
    }
    if size < 32 {
        return Err(DumpError::LoaderTooSmall);
    }
    if a7 + size != len {
        return Err(DumpError::LoaderEnd);
    }
    let magic = &f[a7 + 4..a7 + 8];
    if bytes_eq(magic, LOADER_2ND_MAGIC_LZ4.as_slice()) {
        Ok((a7 + 32, len, LoaderKind::Lz4))
    } else if bytes_eq(magic, LOADER_2ND_MAGIC_LZMA.as_slice()) {
        Ok((a7 + 32, len, LoaderKind::Lzma))
    } else if bytes_eq(magic, LOADER_2ND_MAGIC_ORIG.as_slice()) {
        Ok((a7 + 32, len, LoaderKind::Orig))
    } else {
        Err(DumpError::LoaderMagic)
    }
}

fn dump_param2_of(f: &[u8], a3: usize) -> (r: Result<FipDumpTail, DumpError>)
    requires
        a3 <= f@.len(),
    ensures
        r == dump_param2(f@, a3 as int),
{
    let len = f.len();
    if len - a3 < 4096 {
        return Err(DumpError::Truncated);
    }
    let a4 = a3 + 4096;
    if !bytes_eq(&f[a3..a3 + 8], PARAM2_MAGIC1.as_slice()) {
        return Err(DumpError::Param2Magic);
    }
    if read_le32(f, a3 + 8) != calc_check_sum(&f[a3 + 12..a4]) {
        return Err(DumpError::Param2Checksum);
    }
    let ddr_len = read_le32(f, a3 + 24) as usize;
    if ddr_len > len - a4 {
        return Err(DumpError::Truncated);
    }
    let a5 = a4 + ddr_len;
    if read_le32(f, a3 + 16) != calc_check_sum(&f[a4..a5]) {
        return Err(DumpError::DdrParamChecksum);
    }
    let b2_len = read_le32(f, a3 + 40) as usize;
    if b2_len > len - a5 {
        return Err(DumpError::Truncated);
    }
    let a6 = a5 + b2_len;
    if read_le32(f, a3 + 32) != calc_check_sum(&f[a5..a6]) {
        return Err(DumpError::Blcp2ndChecksum);
    }
    let mon_len = read_le32(f, a3 + 56) as usize;
    if mon_len > len - a6 {
        return Err(DumpError::Truncated);
    }
    let a7 = a6 + mon_len;
    if read_le32(f, a3 + 48) != calc_check_sum(&f[a6..a7]) {
        return Err(DumpError::MonitorChecksum);
    }
    match dump_loader_of(f, a3, a7) {
        Err(e) => Err(e),
        Ok((s, e, k)) => Ok(
            FipDumpTail {
                ddr_param: (a4, a5),
                blcp_2nd: (a5, a6),
                monitor: (a6, a7),
                ldr2nd_body: (s, e),
                ldr_kind: k,
            },
        ),
    }
}

/// Checks an image part by part, as the boot ROM reads it: magics, sizes, every
/// checksum, zeroed signatures, and a second-stage loader that ends the file; returns
/// where each part lies.
pub fn dump_image(f: &[u8]) -> (r: Result<FipDump, DumpError>)
    ensures
        r == dump_spec(f@),
{
    let len = f.len();
    if len < 4096 {
        return Err(DumpError::Truncated);
    }
    if !bytes_eq(&f[0..8], PARAM1_MAGIC1.as_slice()) {
        return Err(DumpError::Param1Magic);
    }
    if read_le32(f, 188) != 760 {
        return Err(DumpError::ChipConfSize);
    }
    if read_le32(f, 12) != calc_check_sum(&f[16..2048]) {
        return Err(DumpError::Param1Checksum);
    }
    if !is_all_zero(&f[2048..4096]) {
        return Err(DumpError::SignatureNotZero);
    }
    let blcp_len = read_le32(f, 196) as usize;
    if blcp_len > len - 4096 {
        return Err(DumpError::Truncated);
    }
    let a2 = 4096 + blcp_len;
    if read_le32(f, 192) != calc_check_sum(&f[4096..a2]) {
        return Err(DumpError::BlcpChecksum);
    }
    let bl2_len = read_le32(f, 216) as usize;
    if bl2_len > len - a2 {
        return Err(DumpError::Truncated);
    }
    let a3 = a2 + bl2_len;
    if read_le32(f, 212) != calc_check_sum(&f[a2..a3]) {
        return Err(DumpError::Bl2Checksum);
    }
    match dump_param2_of(f, a3) {
        Err(e) => Err(e),
        Ok(t) => Ok(
            FipDump {
                blcp: (4096, a2),
                bl2: (a2, a3),
                ddr_param: t.ddr_param,
                blcp_2nd: t.blcp_2nd,
                monitor: t.monitor,
                ldr2nd_body: t.ldr2nd_body,
                ldr_kind: t.ldr_kind,
            },
        ),
    }
}

} // verus!
