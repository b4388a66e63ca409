//! The byte queues between the UART interrupt and the rest of the system: rings of 4096
//! bytes that drop their oldest byte when a byte comes in while they are full.
use vstd::prelude::*;

verus! {

/// The bytes that a queue holds.
pub const BUFFER_SIZE: usize = 4096;

/// The queue `q` after `b` comes in: the oldest byte goes if it was full.
pub open spec fn push_spec(q: Seq<u8>, b: u8) -> Seq<u8> {
    if q.len() < BUFFER_SIZE {
        q.push(b)
    } else {
        q.drop_first().push(b)
    }
}

/// The queue `q` after `bytes` come in, one after the other.
pub open spec fn pushes_spec(q: Seq<u8>, bytes: Seq<u8>) -> Seq<u8>
    decreases bytes.len(),
{
    if bytes.len() == 0 {
        q
    } else {
        push_spec(pushes_spec(q, bytes.drop_last()), bytes.last())
    }
}

/// A ring of bytes: `size` bytes from `start`, wrapping at the end of `data`; `end` is
/// where the next byte goes.
pub struct Buffer {
    start: usize,
    end: usize,
    size: usize,
    data: [u8; 4096],
}

proof fn lemma_mod_distinct(s: int, i: int, j: int)
    requires
        0 <= s,
        0 <= i < j < 4096,
    ensures
        (s + i) % 4096 != (s + j) % 4096,
{
}

impl View for Buffer {
    type V = Seq<u8>;

    /// The bytes in the queue, the oldest first.
    closed spec fn view(&self) -> Seq<u8> {
        Seq::new(self.size as nat, |i: int| self.data@[(self.start + i) % 4096])
    }
}

impl Buffer {
    /// The ring is consistent.
    pub closed spec fn wf(&self) -> bool {
        &&& self.start < BUFFER_SIZE
        &&& self.end < BUFFER_SIZE
        &&& self.size <= BUFFER_SIZE
        &&& self.end == (self.start + self.size) % 4096
    }

    /// An empty queue.
    pub fn new() -> (r: Self)
        ensures
            r.wf(),
            r@ == Seq::<u8>::empty(),
    {
        let r = Buffer { start: 0, end: 0, size: 0, data: [0; 4096] };
        assert(r@ =~= Seq::<u8>::empty());
        r
    }

    /// Adds a byte; when the queue is full, its oldest byte goes.
    pub fn push(&mut self, data: u8)
        requires
            old(self).wf(),
        ensures
            final(self).wf(),
            final(self)@ == push_spec(old(self)@, data),
    {
        let ghost q = self@;
        let ghost d0 = self.data@;
        self.data[self.end] = data;
        self.end = self.end + 1;
        self.end = self.end % 4096;
        self.size = self.size + 1;
        if self.size > 4096 {
            self.size = 4096;
            self.start = self.end;
            assert forall|i: int| 0 <= i < 4096 implies #[trigger] self@[i] == push_spec(q, data)[i] by {
                if i < 4095 {
                    lemma_mod_distinct(old(self).start as int, 0, i + 1);
                    assert((self.start + i) % 4096 == (old(self).start + i + 1) % 4096);
                } else {
                    assert((self.start + i) % 4096 == old(self).start as int);
                }
            }
            assert(self@ =~= push_spec(q, data));
        } else {
            assert forall|i: int| 0 <= i < self.size implies #[trigger] self@[i] == push_spec(q, data)[i] by {
                if i < old(self).size {
                    lemma_mod_distinct(old(self).start as int, i, old(self).size as int);
                }
            }
            assert(self@ =~= push_spec(q, data));
        }
    }

    /// Takes the oldest byte, if any.
    pub fn pop(&mut self) -> (r: Option<u8>)
        requires
            old(self).wf(),
        ensures
            final(self).wf(),
            old(self)@.len() == 0 ==> r == None::<u8> && final(self)@ == old(self)@,
            old(self)@.len() > 0 ==> r == Some(old(self)@[0]) && final(self)@ == old(self)@.drop_first(),
    {
        if self.size == 0 {
            None
        } else {
            let ghost q = self@;
            self.size = self.size - 1;
            let ret = Some(self.data[self.start]);
            self.start = self.start + 1;
            self.start = self.start % 4096;
            assert forall|i: int| 0 <= i < self.size implies #[trigger] self@[i] == q.drop_first()[i] by {
                assert((self.start + i) % 4096 == (old(self).start + i + 1) % 4096);
            }
            assert(self@ =~= q.drop_first());
            ret
        }
    }

    /// Whether the queue holds no byte.
    pub fn is_empty(&self) -> (r: bool)
        requires
            self.wf(),
        ensures
            r == (self@.len() == 0),
    {
        self.size == 0
    }
}

/// A queue that starts empty and takes any bytes holds the last 4096 of them (all of
/// them if there are fewer), the oldest first: bytes leave in the order they came.
pub proof fn law_buffer_keeps_latest(bytes: Seq<u8>)
    ensures
        pushes_spec(Seq::empty(), bytes) == (if bytes.len() <= BUFFER_SIZE {
            bytes
        } else {
            bytes.subrange(bytes.len() - BUFFER_SIZE, bytes.len() as int)
        }),
    decreases bytes.len(),
{
    if bytes.len() > 0 {
        let prev = bytes.drop_last();
        law_buffer_keeps_latest(prev);
        if bytes.len() <= BUFFER_SIZE {
            assert(prev.push(bytes.last()) =~= bytes);
        } else if prev.len() <= BUFFER_SIZE {
            assert(prev.len() == BUFFER_SIZE);
            assert(prev.drop_first().push(bytes.last()) =~= bytes.subrange(bytes.len() - BUFFER_SIZE, bytes.len() as int));
        } else {
            let kept = prev.subrange(prev.len() - BUFFER_SIZE, prev.len() as int);
            assert(kept.drop_first().push(bytes.last()) =~= bytes.subrange(bytes.len() - BUFFER_SIZE, bytes.len() as int));
        }
    }
}

/// What a UART interrupt asks for, by the identification in the low four bits of the
/// interrupt identification register.
#[derive(Clone, Copy, Debug, PartialEq, Eq, Structural)]
pub enum UartIrq {
    /// Data came in (or timed out in the FIFO): move every byte received into the
    /// receive queue.
    Receive,
    /// The transmitter has room: move bytes from the transmit queue while it has room,
    /// and turn this interrupt off once the queue is empty.
    Transmit,
    /// Anything else: nothing to do.
    Other,
}

/// The work that the interrupt identification `iir` asks for.
pub fn uart_irq(iir: u32) -> (r: UartIrq)
    ensures
        r == if iir & 0b1111 == 0b1100 || iir & 0b1111 == 0b0100 {
            UartIrq::Receive
        } else if iir & 0b1111 == 0b0010 {
            UartIrq::Transmit
        } else {
            UartIrq::Other
        },
{
    let cause = iir & 0b1111;
    if cause == 0b1100 || cause == 0b0100 {
        UartIrq::Receive
    } else if cause == 0b0010 {
        UartIrq::Transmit
    } else {
        UartIrq::Other
    }
}

} // verus!
