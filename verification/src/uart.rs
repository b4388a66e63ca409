//! The serial console: the bytes that printing sends, the reset that a host asks for with
//! a run of `~` and a carriage return, and the messages with which the host loads an
//! image into memory through the boot loader.
use vstd::prelude::*;
use vstd::string::StringSliceAdditionalSpecFns;

verus! {

/// The bytes that printing `bytes` sends: each line feed goes after a carriage return.
pub open spec fn crlf_spec(bytes: Seq<u8>) -> Seq<u8>
    decreases bytes.len(),
{
    if bytes.len() == 0 {
        seq![]
    } else {
        crlf_spec(bytes.drop_last()) + char_bytes(bytes.last())
    }
}

/// The bytes that printing the byte `c` sends.
pub open spec fn char_bytes(c: u8) -> Seq<u8> {
    if c == 10 {
        seq![13u8, 10u8]
    } else {
        seq![c]
    }
}

/// Printing two texts one after the other sends what printing them joined sends;
/// printing nothing sends nothing.
pub proof fn law_print_concatenates(a: Seq<u8>, b: Seq<u8>)
    ensures
        crlf_spec(a + b) == crlf_spec(a) + crlf_spec(b),
        crlf_spec(Seq::<u8>::empty()) == Seq::<u8>::empty(),
    decreases b.len(),
{
    if b.len() > 0 {
        law_print_concatenates(a, b.drop_last());
        assert((a + b).drop_last() =~= a + b.drop_last());
        assert((a + b).last() == b.last());
        assert(crlf_spec(a) + crlf_spec(b.drop_last()) + char_bytes(b.last()) =~= crlf_spec(a) + crlf_spec(b));
    } else {
        assert(a + b =~= a);
        assert(crlf_spec(a) + crlf_spec(b) =~= crlf_spec(a));
    }
}

/// The bytes that printing the byte `char` sends.
pub fn print_c(char: u8) -> (r: Vec<u8>)
    ensures
        r@ == char_bytes(char),
{
    let mut r: Vec<u8> = Vec::new();
    if char == 10u8 {
        r.push(13u8);
    }
    r.push(char);
    assert(r@ =~= char_bytes(char));
    r
}

/// The bytes that printing `msg` sends.
pub fn print(msg: &str) -> (r: Vec<u8>)
    ensures
        r@ == crlf_spec(msg.spec_bytes()),
{
    let bytes = msg.as_bytes();
    let mut r: Vec<u8> = Vec::new();
    let mut i: usize = 0;
    while i < bytes.len()
        invariant
            i <= bytes.len(),
            bytes@ == msg.spec_bytes(),
            r@ == crlf_spec(bytes@.subrange(0, i as int)),
        decreases bytes.len() - i,
    {
        let c = print_c(bytes[i]);
        let mut k: usize = 0;
        let ghost before = r@;
        while k < c.len()
            invariant
                k <= c.len(),
                r@ == before + c@.subrange(0, k as int),
            decreases c.len() - k,
        {
            r.push(c[k]);
            k = k + 1;
            assert(r@ =~= before + c@.subrange(0, k as int));
        }
        assert(bytes@.subrange(0, i + 1).drop_last() =~= bytes@.subrange(0, i as int));
        assert(c@.subrange(0, c.len() as int) =~= c@);
        i = i + 1;
    }
    assert(bytes@.subrange(0, bytes.len() as int) =~= bytes@);
    r
}

/// The byte that a host repeats to ask for a reset.
pub const RESET_BYTE: u8 = 0x7E;

/// The count of reset bytes seen, and whether a reset is due, after `b` follows `count`:
/// a `~` counts, a carriage return after six of them resets (and counts), any other byte
/// starts over.
pub open spec fn reset_step(count: u8, b: u8) -> (int, bool) {
    if b == RESET_BYTE || (count == 6 && b == 13) {
        (count + 1, b == 13)
    } else {
        (0, false)
    }
}

/// Watches the bytes that come in for the host's request to reset the board.
pub struct ResetDetector {
    pub count: u8,
}

impl ResetDetector {
    /// Nothing seen yet.
    pub fn new() -> (r: Self)
        ensures
            r.count == 0,
    {
        ResetDetector { count: 0 }
    }

    /// Takes the byte `b`; true when the board is to reset.
    pub fn read_b(&mut self, b: u8) -> (reset: bool)
        requires
            reset_step(old(self).count, b).0 <= u8::MAX,
        ensures
            final(self).count == reset_step(old(self).count, b).0,
            reset == reset_step(old(self).count, b).1,
    {
        if b == RESET_BYTE || (self.count == 6 && b == 13u8) {
            self.count = self.count + 1;
            if b == 13u8 {
                return true;
            }
        } else {
            self.count = 0;
        }
        false
    }
}

/// The count after the bytes `bytes`, from `count`, and whether one of them reset.
pub open spec fn reset_run(count: u8, bytes: Seq<u8>) -> (int, bool)
    decreases bytes.len(),
{
    if bytes.len() == 0 {
        (count as int, false)
    } else {
        let prev = reset_run(count, bytes.drop_last());
        let step = reset_step(prev.0 as u8, bytes.last());
        (step.0, prev.1 || step.1)
    }
}

/// The bytes with which the host asks for a reset: six `~` and a carriage return.
pub open spec fn reset_request() -> Seq<u8> {
    seq![0x7Eu8, 0x7E, 0x7E, 0x7E, 0x7E, 0x7E, 13]
}

/// Any byte but `~` and a carriage return starts the count over.
pub proof fn law_other_byte_restarts(count: u8, b: u8)
    requires
        b != RESET_BYTE,
        b != 13,
    ensures
        reset_step(count, b) == (0int, false),
{
}

/// From a count of zero (after any other byte), the host's request resets the board at
/// its carriage return and not before.
pub proof fn law_reset_request_resets()
    ensures
        !reset_run(0, reset_request().subrange(0, 6)).1,
        reset_run(0, reset_request()).1,
        reset_step(reset_run(0, reset_request().subrange(0, 6)).0 as u8, 13).1,
{
    let r = reset_request();
    assert(r.subrange(0, 6).drop_last() =~= r.subrange(0, 5));
    assert(r.subrange(0, 5).drop_last() =~= r.subrange(0, 4));
    assert(r.subrange(0, 4).drop_last() =~= r.subrange(0, 3));
    assert(r.subrange(0, 3).drop_last() =~= r.subrange(0, 2));
    assert(r.subrange(0, 2).drop_last() =~= r.subrange(0, 1));
    assert(r.subrange(0, 1).drop_last() =~= r.subrange(0, 0));
    assert(r.drop_last() =~= r.subrange(0, 6));
    reveal_with_fuel(reset_run, 8);
}

/// The eight bytes of `x`, the most significant first.
pub open spec fn be_bytes_spec(x: u64) -> Seq<u8> {
    Seq::new(8, |i: int| ((x >> (8 * (7 - i)) as u64) & 0xff) as u8)
}

/// The value of eight bytes, the most significant first.
pub open spec fn be_value_spec(b: Seq<u8>) -> u64 {
    ((b[0] as u64) << 56u64) | ((b[1] as u64) << 48u64) | ((b[2] as u64) << 40u64) | ((b[3] as u64) << 32u64)
        | ((b[4] as u64) << 24u64) | ((b[5] as u64) << 16u64) | ((b[6] as u64) << 8u64) | (b[7] as u64)
}

/// The eight bytes of `x`, the most significant first.
pub fn be_bytes(x: u64) -> (r: Vec<u8>)
    ensures
        r@ == be_bytes_spec(x),
{
    let mut r: Vec<u8> = Vec::new();
    let mut i: u64 = 0;
    while i < 8
        invariant
            i <= 8,
            r@.len() == i,
            forall|k: int| 0 <= k < i ==> r@[k] == be_bytes_spec(x)[k],
        decreases 8 - i,
    {
        r.push(((x >> (8 * (7 - i))) & 0xff) as u8);
        i = i + 1;
    }
    assert(r@ =~= be_bytes_spec(x));
    r
}

/// The value of eight bytes, the most significant first.
pub fn be_value(b: &[u8; 8]) -> (r: u64)
    ensures
        r == be_value_spec(b@),
{
    ((b[0] as u64) << 56u64) | ((b[1] as u64) << 48u64) | ((b[2] as u64) << 40u64) | ((b[3] as u64) << 32u64)
        | ((b[4] as u64) << 24u64) | ((b[5] as u64) << 16u64) | ((b[6] as u64) << 8u64) | (b[7] as u64)
}

/// Reading back the eight bytes that the host sends for a number gives the number.
pub proof fn law_be_roundtrip(x: u64)
    ensures
        be_value_spec(be_bytes_spec(x)) == x,
{
    let b = be_bytes_spec(x);
    let b0 = b[0];
    let b1 = b[1];
    let b2 = b[2];
    let b3 = b[3];
    let b4 = b[4];
    let b5 = b[5];
    let b6 = b[6];
    let b7 = b[7];
    assert(((b0 as u64) << 56u64) | ((b1 as u64) << 48u64) | ((b2 as u64) << 40u64) | ((b3 as u64) << 32u64)
        | ((b4 as u64) << 24u64) | ((b5 as u64) << 16u64) | ((b6 as u64) << 8u64) | (b7 as u64) == x) by (bit_vector)
        requires
            b0 == ((x >> 56u64) & 0xff) as u8,
            b1 == ((x >> 48u64) & 0xff) as u8,
            b2 == ((x >> 40u64) & 0xff) as u8,
            b3 == ((x >> 32u64) & 0xff) as u8,
            b4 == ((x >> 24u64) & 0xff) as u8,
            b5 == ((x >> 16u64) & 0xff) as u8,
            b6 == ((x >> 8u64) & 0xff) as u8,
            b7 == ((x >> 0u64) & 0xff) as u8,
    ;
}

/// Where the host loads an image: the start of the board's memory.
pub const LOAD_ADDRESS: u64 = 0x8000_0000;

/// What the host sends to load `image` and run it: the reset request, the boot
/// loader's command `lpc`, the address and the length (eight bytes each, the most
/// significant first), then the image.
pub fn deploy_messages(image: &Vec<u8>) -> (r: Vec<Vec<u8>>)
    ensures
        r.len() == 5,
        r[0]@ == reset_request(),
        r[1]@ == seq![0x6cu8, 0x70, 0x63, 13],
        r[2]@ == be_bytes_spec(LOAD_ADDRESS),
        r[3]@ == be_bytes_spec(image.len() as u64),
        r[4]@ == image@,
{
    let mut reset: Vec<u8> = Vec::new();
    let mut i: usize = 0;
    while i < 6
        invariant
            i <= 6,
            reset@.len() == i,
            forall|k: int| 0 <= k < i ==> reset@[k] == 0x7E,
        decreases 6 - i,
    {
        reset.push(0x7Eu8);
        i = i + 1;
    }
    reset.push(13u8);
    assert(reset@ =~= reset_request());
    let cmd: Vec<u8> = vec![0x6cu8, 0x70u8, 0x63u8, 13u8];
    let mut r: Vec<Vec<u8>> = Vec::new();
    r.push(reset);
    r.push(cmd);
    r.push(be_bytes(LOAD_ADDRESS));
    r.push(be_bytes(image.len() as u64));
    r.push(image.clone());
    r
}

} // verus!
