//! The platform-level interrupt controller as the boot loader drives it: the enable and
//! pending bits of each interrupt in arrays of 32-bit words, and the report of which
//! interrupts are enabled or pending.
use vstd::prelude::*;
use crate::line_editor::{decimal, decimal_spec};

verus! {

/// The highest interrupt id, plus one, that the report covers.
pub const MAX_INT_ID: usize = 128;

/// The bit of interrupt `irq` in its word of an enable or pending array.
pub open spec fn int_bit(irq: u32) -> u32 {
    1u32 << (irq % 32)
}

/// The word of an enable or pending array that holds the bit of `irq`.
pub fn int_word(irq: u32) -> (r: usize)
    ensures
        r == irq / 32,
{
    (irq / 32) as usize
}

/// The enable word `word` with interrupt `irq` enabled.
pub fn enable_int(word: u32, irq: u32) -> (r: u32)
    ensures
        r == word | int_bit(irq),
{
    word | (1u32 << (irq % 32))
}

/// The enable word `word` with interrupt `irq` disabled.
pub fn disable_int(word: u32, irq: u32) -> (r: u32)
    ensures
        r == word & !int_bit(irq),
{
    word & !(1u32 << (irq % 32))
}

/// Whether the array `words` has the bit of interrupt `i` set.
pub open spec fn bit_set(words: Seq<u32>, i: nat) -> bool {
    words[(i / 32) as int] & int_bit(i as u32) != 0
}

/// Enabling an interrupt sets its bit and no other; disabling clears it and no other.
pub proof fn law_enable_disable(word: u32, irq: u32, other: u32)
    requires
        other % 32 != irq % 32,
    ensures
        (word | int_bit(irq)) & int_bit(irq) != 0,
        (word & !int_bit(irq)) & int_bit(irq) == 0,
        (word | int_bit(irq)) & int_bit(other) == word & int_bit(other),
        (word & !int_bit(irq)) & int_bit(other) == word & int_bit(other),
{
    let a = irq % 32;
    let b = other % 32;
    assert(int_bit(irq) == 1u32 << a);
    assert(int_bit(other) == 1u32 << b);
    assert(((word | (1u32 << a)) & (1u32 << a) != 0) && ((word & !(1u32 << a)) & (1u32 << a) == 0)
        && ((word | (1u32 << a)) & (1u32 << b) == word & (1u32 << b))
        && ((word & !(1u32 << a)) & (1u32 << b) == word & (1u32 << b))) by (bit_vector)
        requires
            a < 32,
            b < 32,
            a != b,
    ;
}

/// The ASCII bytes of `m thresh: `.
pub open spec fn m_thresh_label() -> Seq<u8> {
    seq![0x6Du8, 0x20, 0x74, 0x68, 0x72, 0x65, 0x73, 0x68, 0x3A, 0x20]
}

/// The ASCII bytes of `s thresh: `.
pub open spec fn s_thresh_label() -> Seq<u8> {
    seq![0x73u8, 0x20, 0x74, 0x68, 0x72, 0x65, 0x73, 0x68, 0x3A, 0x20]
}

/// The line of interrupt `i`: `int: i`, then `menabled`, `senabled`, its priority when
/// it is enabled, and `pending`; nothing for an interrupt neither enabled nor pending.
pub open spec fn int_line(i: nat, m: bool, s: bool, p: bool, prio: u32) -> Seq<u8> {
    (if m || s || p { seq![0x69u8, 0x6E, 0x74, 0x3A, 0x20] + decimal_spec(i) + seq![0x20u8] } else { Seq::empty() })
        + (if m { seq![0x6Du8, 0x65, 0x6E, 0x61, 0x62, 0x6C, 0x65, 0x64, 0x20] } else { Seq::empty() })
        + (if s { seq![0x73u8, 0x65, 0x6E, 0x61, 0x62, 0x6C, 0x65, 0x64, 0x20] } else { Seq::empty() })
        + (if m || s {
        seq![0x70u8, 0x72, 0x69, 0x6F, 0x72, 0x69, 0x74, 0x79, 0x28] + decimal_spec(prio as nat) + seq![0x29u8, 0x20]
    } else {
        Seq::empty()
    }) + (if p { seq![0x70u8, 0x65, 0x6E, 0x64, 0x69, 0x6E, 0x67] } else { Seq::empty() })
        + (if m || s || p { seq![0x0Au8] } else { Seq::empty() })
}

/// The lines of the interrupts `1..n`.
pub open spec fn int_lines(mie: Seq<u32>, sie: Seq<u32>, pend: Seq<u32>, prio: Seq<u32>, n: nat) -> Seq<u8>
    decreases n,
{
    if n <= 1 {
        Seq::empty()
    } else {
        let i = (n - 1) as nat;
        int_lines(mie, sie, pend, prio, i) + int_line(i, bit_set(mie, i), bit_set(sie, i), bit_set(pend, i), prio[i as int])
    }
}

/// The report of the controller: both thresholds, then a line for each interrupt below
/// `MAX_INT_ID` (the id 0 excluded) that is enabled or pending.
pub open spec fn plic_report_spec(mth: u32, sth: u32, mie: Seq<u32>, sie: Seq<u32>, pend: Seq<u32>, prio: Seq<u32>) -> Seq<u8> {
    m_thresh_label() + decimal_spec(mth as nat) + seq![0x0Au8] + s_thresh_label() + decimal_spec(sth as nat)
        + seq![0x0Au8] + int_lines(mie, sie, pend, prio, MAX_INT_ID as nat)
}

fn push_all(out: &mut Vec<u8>, b: &[u8])
    ensures
        final(out)@ == old(out)@ + b@,
{
    let mut i: usize = 0;
    while i < b.len()
        invariant
            i <= b.len(),
            out@ == old(out)@ + b@.subrange(0, i as int),
        decreases b.len() - i,
    {
        out.push(b[i]);
        i = i + 1;
        assert(out@ =~= old(out)@ + b@.subrange(0, i as int));
    }
    assert(b@.subrange(0, b.len() as int) =~= b@);
}

fn push_int_line(out: &mut Vec<u8>, i: usize, m: bool, s: bool, p: bool, prio: u32)
    ensures
        final(out)@ == old(out)@ + int_line(i as nat, m, s, p, prio),
{
    let ghost start = out@;
    if m || s || p {
        push_all(out, &[0x69u8, 0x6E, 0x74, 0x3A, 0x20]);
        let d = decimal(i);
        push_all(out, d.as_slice());
        out.push(0x20);
    }
    let ghost a = out@;
    if m {
        push_all(out, &[0x6Du8, 0x65, 0x6E, 0x61, 0x62, 0x6C, 0x65, 0x64, 0x20]);
    }
    if s {
        push_all(out, &[0x73u8, 0x65, 0x6E, 0x61, 0x62, 0x6C, 0x65, 0x64, 0x20]);
    }
    let ghost b = out@;
    if m || s {
        push_all(out, &[0x70u8, 0x72, 0x69, 0x6F, 0x72, 0x69, 0x74, 0x79, 0x28]);
        let d = decimal(prio as usize);
        push_all(out, d.as_slice());
        push_all(out, &[0x29u8, 0x20]);
    }
    let ghost c = out@;
    if p {
        push_all(out, &[0x70u8, 0x65, 0x6E, 0x64, 0x69, 0x6E, 0x67]);
    }
    if m || s || p {
        out.push(0x0A);
    }
    assert(a =~= start + (if m || s || p { seq![0x69u8, 0x6E, 0x74, 0x3A, 0x20] + decimal_spec(i as nat) + seq![0x20u8] } else { Seq::empty() }));
    assert(out@ =~= start + int_line(i as nat, m, s, p, prio));
}

/// The report of the controller from what its registers read: the thresholds of machine
/// and supervisor mode, the enable words of both modes, the pending words and the
/// priorities.
pub fn plic_report(mth: u32, sth: u32, mie: &[u32], sie: &[u32], pend: &[u32], prio: &[u32]) -> (r: Vec<u8>)
    requires
        mie.len() >= 4,
        sie.len() >= 4,
        pend.len() >= 4,
        prio.len() >= MAX_INT_ID,
    ensures
        r@ == plic_report_spec(mth, sth, mie@, sie@, pend@, prio@),
{
    let mut out: Vec<u8> = Vec::new();
    push_all(&mut out, &[0x6Du8, 0x20, 0x74, 0x68, 0x72, 0x65, 0x73, 0x68, 0x3A, 0x20]);
    let d = decimal(mth as usize);
    push_all(&mut out, d.as_slice());
    out.push(0x0A);
    push_all(&mut out, &[0x73u8, 0x20, 0x74, 0x68, 0x72, 0x65, 0x73, 0x68, 0x3A, 0x20]);
    let d = decimal(sth as usize);
    push_all(&mut out, d.as_slice());
    out.push(0x0A);
    let ghost head = out@;
    assert(head =~= m_thresh_label() + decimal_spec(mth as nat) + seq![0x0Au8] + s_thresh_label()
        + decimal_spec(sth as nat) + seq![0x0Au8]);
    let mut i: usize = 1;
    while i < MAX_INT_ID
        invariant
            1 <= i <= MAX_INT_ID,
            mie.len() >= 4,
            sie.len() >= 4,
            pend.len() >= 4,
            prio.len() >= MAX_INT_ID,
            out@ == head + int_lines(mie@, sie@, pend@, prio@, i as nat),
        decreases MAX_INT_ID - i,
    {
        let w = i / 32;
        let bit = 1u32 << ((i % 32) as u32);
        assert(bit == int_bit(i as u32));
        let m = mie[w] & bit != 0;
        let s = sie[w] & bit != 0;
        let p = pend[w] & bit != 0;
        push_int_line(&mut out, i, m, s, p, prio[i]);
        i = i + 1;
    }
    out
}

} // verus!
