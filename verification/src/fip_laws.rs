//! What the image builder and the image checker promise of each other.
use crate::fip::{
    all_zero, check_sum, dump_spec, fill, fip_full_image, fip_image, fip_param1_body, le32, le32_value, law_le32_roundtrip, loader_block,
    loader_body, pad, pad_loader, param1_block, param1_body, param2_block, param2_body, rd32,
    FipDump, LoaderKind, LOADER_2ND_MAGIC_LZ4, LOADER_2ND_MAGIC_LZMA, LOADER_2ND_MAGIC_ORIG,
    PARAM1_MAGIC1, PARAM2_MAGIC1,
};
use vstd::prelude::*;

verus! {

proof fn lemma_param1_fields(nand: Seq<u8>, nor: Seq<u8>, flags: Seq<u8>, blcp: Seq<u8>, bl2: Seq<u8>)
    requires
        nand.len() == 128,
        nor.len() == 36,
        flags.len() == 8,
    ensures
        ({
            let p = param1_block(nand, nor, flags, blcp, bl2);
            let body = param1_body(nand, nor, flags, blcp, bl2);
            &&& p.len() == 2048
            &&& p.subrange(0, 8) == PARAM1_MAGIC1@
            &&& p.subrange(12, 16) == le32(check_sum(body))
            &&& p.subrange(16, 2048) == body
            &&& p.subrange(188, 192) == le32(760)
            &&& p.subrange(192, 196) == le32(check_sum(blcp))
            &&& p.subrange(196, 200) == le32(blcp.len() as u32)
            &&& p.subrange(212, 216) == le32(check_sum(bl2))
            &&& p.subrange(216, 220) == le32(bl2.len() as u32)
        }),
{
    let p = param1_block(nand, nor, flags, blcp, bl2);
    let body = param1_body(nand, nor, flags, blcp, bl2);
    assert(p.subrange(0, 8) =~= PARAM1_MAGIC1@);
    assert(p.subrange(12, 16) =~= le32(check_sum(body)));
    assert(p.subrange(16, 2048) =~= body);
    assert(p.subrange(188, 192) =~= le32(760));
    assert(p.subrange(192, 196) =~= le32(check_sum(blcp)));
    assert(p.subrange(196, 200) =~= le32(blcp.len() as u32));
    assert(p.subrange(212, 216) =~= le32(check_sum(bl2)));
    assert(p.subrange(216, 220) =~= le32(bl2.len() as u32));
}


proof fn lemma_param2_fields(ddr: Seq<u8>, b2nd: Seq<u8>, mon: Seq<u8>, off: u32)
    ensures
        ({
            let p = param2_block(ddr, b2nd, mon, off);
            let body = param2_body(ddr, b2nd, mon, off);
            &&& p.len() == 4096
            &&& p.subrange(0, 8) == PARAM2_MAGIC1@
            &&& p.subrange(8, 12) == le32(check_sum(body))
            &&& p.subrange(12, 4096) == body
            &&& p.subrange(16, 20) == le32(check_sum(ddr))
            &&& p.subrange(24, 28) == le32(ddr.len() as u32)
            &&& p.subrange(32, 36) == le32(check_sum(b2nd))
            &&& p.subrange(40, 44) == le32(b2nd.len() as u32)
            &&& p.subrange(48, 52) == le32(check_sum(mon))
            &&& p.subrange(56, 60) == le32(mon.len() as u32)
            &&& p.subrange(68, 72) == le32(off)
        }),
{
    let p = param2_block(ddr, b2nd, mon, off);
    let body = param2_body(ddr, b2nd, mon, off);
    assert(p.subrange(0, 8) =~= PARAM2_MAGIC1@);
    assert(p.subrange(8, 12) =~= le32(check_sum(body)));
    assert(p.subrange(12, 4096) =~= body);
    assert(p.subrange(16, 20) =~= le32(check_sum(ddr)));
    assert(p.subrange(24, 28) =~= le32(ddr.len() as u32));
    assert(p.subrange(32, 36) =~= le32(check_sum(b2nd)));
    assert(p.subrange(40, 44) =~= le32(b2nd.len() as u32));
    assert(p.subrange(48, 52) =~= le32(check_sum(mon)));
    assert(p.subrange(56, 60) =~= le32(mon.len() as u32));
    assert(p.subrange(68, 72) =~= le32(off));
}

proof fn lemma_loader_fields(ldr: Seq<u8>)
    ensures
        ({
            let p = loader_block(ldr);
            let body = loader_body(ldr);
            &&& p.len() == ldr.len() + 32
            &&& p.subrange(4, 8) == LOADER_2ND_MAGIC_ORIG@
            &&& p.subrange(8, 12) == le32(check_sum(body))
            &&& p.subrange(12, p.len() as int) == body
            &&& p.subrange(12, 16) == le32((ldr.len() as u32 + 0x20) as u32)
        }),
{
    let p = loader_block(ldr);
    let body = loader_body(ldr);
    assert(p.subrange(4, 8) =~= LOADER_2ND_MAGIC_ORIG@);
    assert(p.subrange(8, 12) =~= le32(check_sum(body)));
    assert(p.subrange(12, p.len() as int) =~= body);
    assert(p.subrange(12, 16) =~= le32((ldr.len() as u32 + 0x20) as u32));
}

/// A part `x` found at offset `o` of `f` answers for its own sub-ranges.
proof fn lemma_inner(f: Seq<u8>, o: int, x: Seq<u8>, i: int, j: int)
    requires
        0 <= o,
        o + x.len() <= f.len(),
        f.subrange(o, o + x.len()) == x,
        0 <= i <= j <= x.len(),
    ensures
        f.subrange(o + i, o + j) == x.subrange(i, j),
{
    assert(f.subrange(o + i, o + j) =~= f.subrange(o, o + x.len()).subrange(i, j));
}


/// Every field the checker reads back in a block of the image at offset `o`.
proof fn lemma_field(f: Seq<u8>, o: int, x: Seq<u8>, i: int, v: u32)
    requires
        0 <= o,
        o + x.len() <= f.len(),
        f.subrange(o, o + x.len()) == x,
        0 <= i,
        i + 4 <= x.len(),
        x.subrange(i, i + 4) == le32(v),
    ensures
        rd32(f, o + i) == v,
{
    lemma_inner(f, o, x, i, i + 4);
    law_le32_roundtrip(v);
}

/// The blocks of an image lie one after another.
proof fn lemma_blocks(
    p1: Seq<u8>,
    z: Seq<u8>,
    a: Seq<u8>,
    b: Seq<u8>,
    p2: Seq<u8>,
    d: Seq<u8>,
    e: Seq<u8>,
    m: Seq<u8>,
    l: Seq<u8>,
)
    requires
        p1.len() == 2048,
        z.len() == 2048,
        p2.len() == 4096,
    ensures
        ({
            let f = p1 + z + a + b + p2 + d + e + m + l;
            let a2 = 4096 + a.len();
            let a3 = a2 + b.len();
            let a4 = a3 + 4096;
            let a5 = a4 + d.len();
            let a6 = a5 + e.len();
            let a7 = a6 + m.len();
            &&& f.len() == a7 + l.len()
            &&& f.subrange(0, 2048) == p1
            &&& f.subrange(2048, 4096) == z
            &&& f.subrange(4096, a2 as int) == a
            &&& f.subrange(a2 as int, a3 as int) == b
            &&& f.subrange(a3 as int, a4 as int) == p2
            &&& f.subrange(a4 as int, a5 as int) == d
            &&& f.subrange(a5 as int, a6 as int) == e
            &&& f.subrange(a6 as int, a7 as int) == m
            &&& f.subrange(a7 as int, f.len() as int) == l
        }),
{
    let s1 = p1 + z;
    let s2 = s1 + a;
    let s3 = s2 + b;
    let s4 = s3 + p2;
    let s5 = s4 + d;
    let s6 = s5 + e;
    let s7 = s6 + m;
    let f = s7 + l;
    assert(f.subrange(0, s7.len() as int) =~= s7);
    assert(s7.subrange(0, s6.len() as int) =~= s6);
    assert(s6.subrange(0, s5.len() as int) =~= s5);
    assert(s5.subrange(0, s4.len() as int) =~= s4);
    assert(s4.subrange(0, s3.len() as int) =~= s3);
    assert(s3.subrange(0, s2.len() as int) =~= s2);
    assert(s2.subrange(0, s1.len() as int) =~= s1);
    assert(s1.subrange(0, 2048) =~= p1);
    assert(f.subrange(0, 2048) =~= p1);
    assert(f.subrange(2048, 4096) =~= z);
    assert(f.subrange(4096, s2.len() as int) =~= a);
    assert(f.subrange(s2.len() as int, s3.len() as int) =~= b);
    assert(f.subrange(s3.len() as int, s4.len() as int) =~= p2);
    assert(f.subrange(s4.len() as int, s5.len() as int) =~= d);
    assert(f.subrange(s5.len() as int, s6.len() as int) =~= e);
    assert(f.subrange(s6.len() as int, s7.len() as int) =~= m);
    assert(f.subrange(s7.len() as int, f.len() as int) =~= l);
}

/// The checks of the loader pass on a loader block that ends the file.
#[verifier::spinoff_prover]
#[verifier::rlimit(50)]
proof fn lemma_loader_ok(f: Seq<u8>, a3: int, a7: int, lp: Seq<u8>, off: u32)
    requires
        0 <= a3,
        a3 + 4096 <= a7,
        f.len() == a7 + lp.len() + 32,
        f.len() <= u32::MAX,
        f.subrange(a7, f.len() as int) == loader_block(lp),
        rd32(f, a3 + 68) == off,
        off == a7,
    ensures
        crate::fip::dump_loader(f, a3, a7) == Ok::<(usize, usize, LoaderKind), crate::fip::DumpError>(
            ((a7 + 32) as usize, f.len() as usize, LoaderKind::Orig),
        ),
{
    let l = loader_block(lp);
    lemma_loader_fields(lp);
    lemma_inner(f, a7, l, 4, 8);
    lemma_field(f, a7, l, 8, check_sum(loader_body(lp)));
    lemma_inner(f, a7, l, 12, l.len() as int);
    lemma_field(f, a7, l, 12, (lp.len() as u32 + 0x20) as u32);
    assert(f.subrange(a7 + 12, f.len() as int) == loader_body(lp));
    assert((lp.len() as u32 + 0x20) as u32 == lp.len() + 32);
    assert(LOADER_2ND_MAGIC_ORIG@ != LOADER_2ND_MAGIC_LZ4@) by {
        assert(LOADER_2ND_MAGIC_ORIG@[1] != LOADER_2ND_MAGIC_LZ4@[1]);
    }
    assert(LOADER_2ND_MAGIC_ORIG@ != LOADER_2ND_MAGIC_LZMA@) by {
        assert(LOADER_2ND_MAGIC_ORIG@[1] != LOADER_2ND_MAGIC_LZMA@[1]);
    }
}


/// The checks of the second parameter block and of the images after it pass.
#[verifier::spinoff_prover]
#[verifier::rlimit(50)]
proof fn lemma_param2_ok(f: Seq<u8>, a3: int, d: Seq<u8>, e: Seq<u8>, m: Seq<u8>, lp: Seq<u8>)
    requires
        0 <= a3,
        f.len() == a3 + 4096 + d.len() + e.len() + m.len() + lp.len() + 32,
        f.len() <= u32::MAX,
        f.subrange(a3, a3 + 4096) == param2_block(
            d,
            e,
            m,
            (a3 + 4096 + d.len() + e.len() + m.len()) as u32,
        ),
        f.subrange(a3 + 4096, a3 + 4096 + d.len()) == d,
        f.subrange(a3 + 4096 + d.len(), a3 + 4096 + d.len() + e.len()) == e,
        f.subrange(a3 + 4096 + d.len() + e.len(), a3 + 4096 + d.len() + e.len() + m.len()) == m,
        f.subrange(a3 + 4096 + d.len() + e.len() + m.len(), f.len() as int) == loader_block(lp),
    ensures
        ({
            let a4 = a3 + 4096;
            let a5 = a4 + d.len();
            let a6 = a5 + e.len();
            let a7 = a6 + m.len();
            crate::fip::dump_param2(f, a3) == Ok::<crate::fip::FipDumpTail, crate::fip::DumpError>(
                crate::fip::FipDumpTail {
                    ddr_param: (a4 as usize, a5 as usize),
                    blcp_2nd: (a5 as usize, a6 as usize),
                    monitor: (a6 as usize, a7 as usize),
                    ldr2nd_body: ((a7 + 32) as usize, f.len() as usize),
                    ldr_kind: LoaderKind::Orig,
                },
            )
        }),
{
    let a4 = a3 + 4096;
    let a5 = a4 + d.len();
    let a6 = a5 + e.len();
    let a7 = a6 + m.len();
    let off = a7 as u32;
    let p2 = param2_block(d, e, m, off);
    lemma_param2_fields(d, e, m, off);
    lemma_inner(f, a3, p2, 0, 8);
    lemma_field(f, a3, p2, 8, check_sum(param2_body(d, e, m, off)));
    lemma_inner(f, a3, p2, 12, 4096);
    lemma_field(f, a3, p2, 16, check_sum(d));
    lemma_field(f, a3, p2, 24, d.len() as u32);
    lemma_field(f, a3, p2, 32, check_sum(e));
    lemma_field(f, a3, p2, 40, e.len() as u32);
    lemma_field(f, a3, p2, 48, check_sum(m));
    lemma_field(f, a3, p2, 56, m.len() as u32);
    lemma_field(f, a3, p2, 68, off);
    lemma_loader_ok(f, a3, a7, lp, off);
}

/// The checker accepts every image that the builder makes, and finds each part where
/// the builder put it, with an uncompressed loader: for every set of parts whose
/// fixed-size descriptions have their sizes and whose image fits the 32-bit size fields.
#[verifier::spinoff_prover]
#[verifier::rlimit(50)]
pub proof fn law_dump_accepts_made_image(
    nand: Seq<u8>,
    nor: Seq<u8>,
    flags: Seq<u8>,
    blcp: Seq<u8>,
    bl2: Seq<u8>,
    ddr: Seq<u8>,
    b2nd: Seq<u8>,
    mon: Seq<u8>,
    ldr: Seq<u8>,
)
    requires
        nand.len() == 128,
        nor.len() == 36,
        flags.len() == 8,
        fip_full_image(nand, nor, flags, blcp, bl2, ddr, b2nd, mon, ldr).len() <= u32::MAX,
    ensures
        ({
            let f = fip_full_image(nand, nor, flags, blcp, bl2, ddr, b2nd, mon, ldr);
            let a2 = 4096 + pad(blcp).len();
            let a3 = a2 + pad(bl2).len();
            let a4 = a3 + 4096;
            let a5 = a4 + pad(ddr).len();
            let a6 = a5 + pad(b2nd).len();
            let a7 = a6 + pad(mon).len();
            dump_spec(f) == Ok::<FipDump, crate::fip::DumpError>(
                FipDump {
                    blcp: (4096usize, a2 as usize),
                    bl2: (a2 as usize, a3 as usize),
                    ddr_param: (a4 as usize, a5 as usize),
                    blcp_2nd: (a5 as usize, a6 as usize),
                    monitor: (a6 as usize, a7 as usize),
                    ldr2nd_body: ((a7 + 32) as usize, f.len() as usize),
                    ldr_kind: LoaderKind::Orig,
                },
            )
        }),
{
    let a = pad(blcp);
    let b = pad(bl2);
    let d = pad(ddr);
    let e = pad(b2nd);
    let m = pad(mon);
    let lp = pad_loader(ldr);
    let off = (4096 + a.len() + b.len() + 4096 + d.len() + e.len() + m.len()) as u32;
    let p1 = param1_block(nand, nor, flags, a, b);
    let z = fill(2048, 0);
    let p2 = param2_block(d, e, m, off);
    let l = loader_block(lp);
    let f = fip_full_image(nand, nor, flags, blcp, bl2, ddr, b2nd, mon, ldr);
    assert(f == p1 + z + a + b + p2 + d + e + m + l);
    lemma_param1_fields(nand, nor, flags, a, b);
    lemma_param2_fields(d, e, m, off);
    lemma_loader_fields(lp);
    lemma_blocks(p1, z, a, b, p2, d, e, m, l);
    let a2: int = 4096 + a.len() as int;
    let a3: int = a2 + b.len();
    lemma_inner(f, 0, p1, 0, 8);
    lemma_field(f, 0, p1, 188, 760);
    lemma_field(f, 0, p1, 12, check_sum(param1_body(nand, nor, flags, a, b)));
    lemma_inner(f, 0, p1, 16, 2048);
    lemma_field(f, 0, p1, 192, check_sum(a));
    lemma_field(f, 0, p1, 196, a.len() as u32);
    lemma_field(f, 0, p1, 212, check_sum(b));
    lemma_field(f, 0, p1, 216, b.len() as u32);
    assert(crate::fip::all_zero(f.subrange(2048, 4096)));
    lemma_param2_ok(f, a3, d, e, m, lp);
}

/// The image of the single-stage tool carries what the boot ROM checks of it: the magic,
/// a chip configuration of 760 bytes, the checksum of the first parameter block, zeroed
/// signature blocks, and the loader at 4096 with its padded size and its checksum; for
/// every loader and payload whose padded sizes fit the 32-bit size fields.
#[verifier::spinoff_prover]
pub proof fn law_fip_image_checks(bl: Seq<u8>, s2: Seq<u8>)
    requires
        pad(bl).len() <= u32::MAX,
        pad(s2).len() <= u32::MAX,
    ensures
        ({
            let f = fip_image(bl, s2);
            &&& f.len() == 4096 + pad(bl).len() + pad(s2).len()
            &&& f.subrange(0, 8) == PARAM1_MAGIC1@
            &&& rd32(f, 188) == 760
            &&& rd32(f, 12) == check_sum(f.subrange(16, 2048))
            &&& all_zero(f.subrange(2048, 4096))
            &&& rd32(f, 216) == pad(bl).len()
            &&& rd32(f, 212) == check_sum(f.subrange(4096, (4096 + pad(bl).len()) as int))
        }),
{
    let a = pad(bl);
    let b = pad(s2);
    assert(bl + fill((crate::fip::aligned_len(bl.len()) - bl.len()) as nat, 0) == a);
    assert(s2 + fill((crate::fip::aligned_len(s2.len()) - s2.len()) as nat, 0) == b);
    let c1 = check_sum(a);
    let body = fip_param1_body(a.len() as u32, b.len() as u32, c1);
    let head = PARAM1_MAGIC1@ + le32(0) + le32(check_sum(body));
    let z = fill(2048, 0);
    let f = fip_image(bl, s2);
    assert(f == head + body + z + a + b);
    assert(body.len() == 2032);
    assert(head.len() == 16);
    assert(f.subrange(0, 16) =~= head);
    assert(f.subrange(16, 2048) =~= body);
    assert(f.subrange(2048, 4096) =~= z);
    assert(f.subrange(4096, (4096 + a.len()) as int) =~= a);
    assert(head.subrange(0, 8) =~= PARAM1_MAGIC1@);
    lemma_inner(f, 0, head, 0, 8);
    assert(head.subrange(12, 16) =~= le32(check_sum(body)));
    lemma_field(f, 0, head, 12, check_sum(body));
    assert(body.subrange(172, 176) =~= le32(760));
    lemma_field(f, 16, body, 172, 760);
    assert(body.subrange(196, 200) =~= le32(c1));
    lemma_field(f, 16, body, 196, c1);
    assert(body.subrange(200, 204) =~= le32(a.len() as u32));
    lemma_field(f, 16, body, 200, a.len() as u32);
}

} // verus!
