//! The line editor of the boot loader's prompt: the bytes typed move a cursor in a line
//! of bounded length, insert and delete at the cursor, and echo what the terminal must
//! show.
use vstd::prelude::*;

verus! {

/// The decimal digits of `n`, the most significant first.
pub open spec fn decimal_spec(n: nat) -> Seq<u8>
    decreases n,
{
    if n < 10 {
        seq![(48 + n) as u8]
    } else {
        decimal_spec(n / 10).push((48 + n % 10) as u8)
    }
}

/// The decimal digits of `n`, the most significant first.
pub fn decimal(n: usize) -> (r: Vec<u8>)
    ensures
        r@ == decimal_spec(n as nat),
    decreases n,
{
    if n < 10 {
        let mut r: Vec<u8> = Vec::new();
        r.push(48 + n as u8);
        assert(r@ =~= decimal_spec(n as nat));
        r
    } else {
        let mut r = decimal(n / 10);
        r.push(48 + (n % 10) as u8);
        r
    }
}

/// The escape sequence that moves the cursor `n` columns left.
pub open spec fn left_by(n: nat) -> Seq<u8> {
    seq![0x1bu8, 0x5b] + decimal_spec(n) + seq![0x44u8]
}

/// Clears the screen from the cursor on.
pub open spec fn clear_below() -> Seq<u8> {
    seq![0x1bu8, 0x5b, 0x30, 0x4a]
}

/// Moves the cursor one column right.
pub open spec fn right_one() -> Seq<u8> {
    seq![0x1bu8, 0x5b, 0x31, 0x43]
}

/// Moves the cursor one column left.
pub open spec fn left_one() -> Seq<u8> {
    seq![0x1bu8, 0x5b, 0x31, 0x44]
}

/// Where the editor is in an escape sequence.
#[derive(Clone, Copy, Debug, PartialEq, Eq, Structural)]
pub enum Escape {
    /// Not in one.
    Normal,
    /// After the escape byte.
    Started,
    /// After the escape byte and `[`.
    Bracket,
}

/// A line being edited: the buffer, the length of the line in it, the cursor and where
/// an escape sequence stands.
pub struct LineEditor {
    pub buffer: Vec<u8>,
    pub len: usize,
    pub pos: usize,
    pub escape: Escape,
}

/// The byte is shown as it is: printable ASCII.
pub open spec fn printable(b: u8) -> bool {
    0x20 <= b <= 0x7e
}

/// What a byte does to the line.
#[derive(Clone, Copy, Debug, PartialEq, Eq, Structural)]
pub enum Key {
    /// The line is done.
    Enter,
    /// Nothing more for now.
    More,
}

impl LineEditor {
    /// The editor is consistent.
    pub open spec fn wf(&self) -> bool {
        &&& self.buffer.len() >= 1
        &&& self.pos <= self.len <= self.buffer.len()
    }

    /// The line.
    pub open spec fn line(&self) -> Seq<u8> {
        self.buffer@.subrange(0, self.len as int)
    }

    /// An empty line in a buffer of `cap` bytes.
    pub fn new(cap: usize) -> (r: Self)
        requires
            cap >= 1,
        ensures
            r.wf(),
            r.buffer.len() == cap,
            r.len == 0,
            r.pos == 0,
            r.escape == Escape::Normal,
    {
        let mut buffer: Vec<u8> = Vec::new();
        while buffer.len() < cap
            invariant
                buffer.len() <= cap,
            decreases cap - buffer.len(),
        {
            buffer.push(0);
        }
        LineEditor { buffer, len: 0, pos: 0, escape: Escape::Normal }
    }

    /// The byte `b` is one that the editor takes: any byte in an escape sequence, else an
    /// escape, Ctrl-C, carriage return, backspace or a printable byte.
    pub open spec fn accepts(&self, b: u8) -> bool {
        self.escape != Escape::Normal || b == 0x1b || b == 0x03 || b == 13 || b == 0x08 || printable(b)
    }

    /// Whether `feed` takes the byte `b` now.
    pub fn takes(&self, b: u8) -> (r: bool)
        ensures
            r == self.accepts(b),
    {
        match self.escape {
            Escape::Normal => b == 0x1b || b == 0x03 || b == 13 || b == 0x08 || (0x20 <= b && b <= 0x7e),
            _ => true,
        }
    }

    /// What feeding `b` to the editor `s` does: `t` is the editor after it, `key` and
    /// `out` what it answers.
    pub open spec fn fed(s: LineEditor, b: u8, t: LineEditor, key: Key, out: Seq<u8>) -> bool {
        match s.escape {
            Escape::Started => {
                &&& t.escape == (if b == 0x5b { Escape::Bracket } else { Escape::Normal })
                &&& t.line() == s.line() && t.pos == s.pos && key == Key::More && out == Seq::<u8>::empty()
            },
            Escape::Bracket => {
                &&& t.escape == Escape::Normal && t.line() == s.line() && key == Key::More
                &&& if b == 0x43 && s.pos < s.buffer.len() - 1 && s.pos < s.len {
                    t.pos == s.pos + 1 && out == right_one()
                } else if b == 0x44 && s.pos != 0 {
                    t.pos == s.pos - 1 && out == left_one()
                } else {
                    t.pos == s.pos && out == Seq::<u8>::empty()
                }
            },
            Escape::Normal => if b == 0x1b {
                t.escape == Escape::Started && t.line() == s.line() && t.pos == s.pos && key == Key::More && out == Seq::<u8>::empty()
            } else if b == 0x03 {
                &&& t.escape == Escape::Normal && t.len == 0 && t.pos == 0 && key == Key::More
                &&& out == (if s.pos != 0 { left_by(s.pos as nat) } else { Seq::<u8>::empty() }) + clear_below()
            } else if b == 13 {
                t.escape == Escape::Normal && t.line() == s.line() && t.pos == s.pos && key == Key::Enter && out == seq![10u8]
            } else if b == 0x08 {
                &&& t.escape == Escape::Normal && key == Key::More
                &&& if s.len > 0 && s.pos > 0 {
                    &&& t.line() == s.line().subrange(0, s.pos - 1) + s.line().subrange(s.pos as int, s.len as int)
                    &&& t.pos == s.pos - 1
                    &&& out == left_one() + clear_below() + (if t.len - t.pos > 0 {
                        t.line().subrange(t.pos as int, t.len as int) + left_by((t.len - t.pos) as nat)
                    } else {
                        Seq::<u8>::empty()
                    })
                } else {
                    t.line() == s.line() && t.pos == s.pos && out == Seq::<u8>::empty()
                }
            } else {
                &&& t.escape == Escape::Normal && key == Key::More
                &&& if s.len < s.buffer.len() {
                    &&& t.line() == s.line().subrange(0, s.pos as int) + seq![b] + s.line().subrange(s.pos as int, s.len as int)
                    &&& t.pos == s.pos + 1
                    &&& out == seq![b] + (if t.len - t.pos > 0 {
                        t.line().subrange(t.pos as int, t.len as int) + left_by((t.len - t.pos) as nat)
                    } else {
                        Seq::<u8>::empty()
                    })
                } else {
                    t.line() == s.line() && t.pos == s.pos && out == Seq::<u8>::empty()
                }
            },
        }
    }

    /// Takes the byte `b` typed: moves the cursor, edits the line or ends it, and gives
    /// back what the terminal must show.
    pub fn feed(&mut self, b: u8) -> (r: (Key, Vec<u8>))
        requires
            old(self).wf(),
            old(self).accepts(b),
        ensures
            final(self).wf(),
            final(self).buffer.len() == old(self).buffer.len(),
            Self::fed(*old(self), b, *final(self), r.0, r.1@),
    {
        let mut out: Vec<u8> = Vec::new();
        match self.escape {
            Escape::Started => {
                self.escape = if b == 0x5b { Escape::Bracket } else { Escape::Normal };
                return (Key::More, out);
            },
            Escape::Bracket => {
                self.escape = Escape::Normal;
                if b == 0x43 {
                    if self.pos < self.buffer.len() - 1 && self.pos < self.len {
                        self.pos = self.pos + 1;
                        out = vec![0x1b, 0x5b, 0x31, 0x43];
                    }
                } else if b == 0x44 {
                    if self.pos != 0 {
                        self.pos = self.pos - 1;
                        out = vec![0x1b, 0x5b, 0x31, 0x44];
                    }
                }
                assert(out@ =~= right_one() || out@ =~= left_one() || out@ =~= Seq::<u8>::empty());
                return (Key::More, out);
            },
            Escape::Normal => {},
        }
        if b == 0x1b {
            self.escape = Escape::Started;
            (Key::More, out)
        } else if b == 0x03 {
            if self.pos != 0 {
                out = Self::left(self.pos);
            }
            Self::append(&mut out, &vec![0x1b, 0x5b, 0x30, 0x4a]);
            assert(out@ =~= (if old(self).pos != 0 { left_by(old(self).pos as nat) } else { Seq::<u8>::empty() }) + clear_below());
            self.pos = 0;
            self.len = 0;
            (Key::More, out)
        } else if b == 13 {
            out.push(10);
            assert(out@ =~= seq![10u8]);
            (Key::Enter, out)
        } else if b == 0x08 {
            if self.len > 0 && self.pos > 0 {
                let ghost before = self.line();
                let mut i = self.pos - 1;
                while i < self.len - 1
                    invariant
                        self.pos - 1 <= i <= self.len - 1,
                        0 < self.pos <= self.len <= self.buffer.len(),
                        self.buffer.len() == old(self).buffer.len(),
                        self.len == old(self).len && self.pos == old(self).pos,
                        self.escape == Escape::Normal,
                        before == old(self).buffer@.subrange(0, old(self).len as int),
                        forall|k: int| 0 <= k < self.pos - 1 ==> self.buffer@[k] == before[k],
                        forall|k: int| self.pos - 1 <= k < i ==> self.buffer@[k] == before[k + 1],
                        forall|k: int| i < k < self.len ==> self.buffer@[k] == before[k],
                    decreases self.len - 1 - i,
                {
                    let next = self.buffer[i + 1];
                    self.buffer.set(i, next);
                    i = i + 1;
                }
                self.pos = self.pos - 1;
                self.len = self.len - 1;
                assert(self.line() =~= before.subrange(0, self.pos as int) + before.subrange(self.pos + 1, before.len() as int));
                out = vec![0x1b, 0x5b, 0x31, 0x44];
                Self::append(&mut out, &vec![0x1b, 0x5b, 0x30, 0x4a]);
                if self.len - self.pos > 0 {
                    let tail = self.tail();
                    Self::append(&mut out, &tail);
                    let back = Self::left(self.len - self.pos);
                    Self::append(&mut out, &back);
                }
                assert(out@ =~= left_one() + clear_below() + (if self.len - self.pos > 0 {
                    self.line().subrange(self.pos as int, self.len as int) + left_by((self.len - self.pos) as nat)
                } else {
                    Seq::<u8>::empty()
                }));
            }
            (Key::More, out)
        } else {
            if self.len < self.buffer.len() {
                let ghost before = self.line();
                let mut i = self.len;
                while i > self.pos
                    invariant
                        self.pos <= i <= self.len,
                        self.len < self.buffer.len(),
                        self.buffer.len() == old(self).buffer.len(),
                        self.len == old(self).len && self.pos == old(self).pos,
                        self.escape == Escape::Normal,
                        before == old(self).buffer@.subrange(0, old(self).len as int),
                        forall|k: int| 0 <= k <= i && k < self.len ==> self.buffer@[k] == before[k],
                        forall|k: int| i < k <= self.len ==> self.buffer@[k] == before[k - 1],
                    decreases i - self.pos,
                {
                    let prev = self.buffer[i - 1];
                    self.buffer.set(i, prev);
                    i = i - 1;
                }
                self.buffer.set(self.pos, b);
                self.pos = self.pos + 1;
                self.len = self.len + 1;
                assert(self.line() =~= before.subrange(0, self.pos - 1) + seq![b] + before.subrange(self.pos - 1, before.len() as int));
                out.push(b);
                if self.len - self.pos > 0 {
                    let tail = self.tail();
                    Self::append(&mut out, &tail);
                    let back = Self::left(self.len - self.pos);
                    Self::append(&mut out, &back);
                }
                assert(out@ =~= seq![b] + (if self.len - self.pos > 0 {
                    self.line().subrange(self.pos as int, self.len as int) + left_by((self.len - self.pos) as nat)
                } else {
                    Seq::<u8>::empty()
                }));
            }
            (Key::More, out)
        }
    }

    /// The line after the cursor.
    fn tail(&self) -> (r: Vec<u8>)
        requires
            self.wf(),
        ensures
            r@ == self.line().subrange(self.pos as int, self.len as int),
    {
        let mut r: Vec<u8> = Vec::new();
        let mut i = self.pos;
        while i < self.len
            invariant
                self.pos <= i <= self.len <= self.buffer.len(),
                r@ == self.buffer@.subrange(self.pos as int, i as int),
            decreases self.len - i,
        {
            r.push(self.buffer[i]);
            i = i + 1;
            assert(r@ =~= self.buffer@.subrange(self.pos as int, i as int));
        }
        assert(r@ =~= self.line().subrange(self.pos as int, self.len as int));
        r
    }

    /// The escape sequence that moves the cursor `n` columns left.
    fn left(n: usize) -> (r: Vec<u8>)
        ensures
            r@ == left_by(n as nat),
    {
        let mut r: Vec<u8> = vec![0x1b, 0x5b];
        let digits = decimal(n);
        Self::append(&mut r, &digits);
        r.push(0x44);
        assert(r@ =~= left_by(n as nat));
        r
    }

    /// Appends `more` to `out`.
    fn append(out: &mut Vec<u8>, more: &Vec<u8>)
        ensures
            final(out)@ == old(out)@ + more@,
    {
        let mut i: usize = 0;
        while i < more.len()
            invariant
                i <= more.len(),
                out@ == old(out)@ + more@.subrange(0, i as int),
            decreases more.len() - i,
        {
            out.push(more[i]);
            i = i + 1;
            assert(out@ =~= old(out)@ + more@.subrange(0, i as int));
        }
        assert(more@.subrange(0, more.len() as int) =~= more@);
    }
}

/// A printable byte typed at the cursor, then a backspace, leave the line and the cursor
/// as they were, when the line had room for the byte.
pub proof fn law_backspace_undoes_typing(
    s: LineEditor,
    b: u8,
    t: LineEditor,
    k1: Key,
    o1: Seq<u8>,
    u: LineEditor,
    k2: Key,
    o2: Seq<u8>,
)
    requires
        s.wf(),
        s.escape == Escape::Normal,
        printable(b),
        s.len < s.buffer.len(),
        LineEditor::fed(s, b, t, k1, o1),
        t.buffer.len() == s.buffer.len(),
        t.wf(),
        LineEditor::fed(t, 0x08, u, k2, o2),
    ensures
        u.line() == s.line(),
        u.pos == s.pos,
        u.escape == Escape::Normal,
        k1 == Key::More && k2 == Key::More,
{
    assert(t.line().len() == t.len);
    assert(t.len == s.len + 1);
    assert(u.line() =~= s.line());
}

/// Ctrl-C empties the line whatever it held, and leaves the cursor at its start.
pub proof fn law_ctrl_c_clears(s: LineEditor, t: LineEditor, key: Key, out: Seq<u8>)
    requires
        s.escape == Escape::Normal,
        LineEditor::fed(s, 0x03, t, key, out),
        t.wf(),
    ensures
        t.line() == Seq::<u8>::empty(),
        t.pos == 0,
        key == Key::More,
{
    assert(t.line() =~= Seq::<u8>::empty());
}

/// The right arrow (0x1b '[' 'C') moves the cursor one place right, when it is inside
/// the line and not on the buffer's last place, and echoes the terminal's move right;
/// the line does not change.
pub proof fn law_right_arrow_moves_right(s: LineEditor, t: LineEditor, key: Key, out: Seq<u8>)
    requires
        s.escape == Escape::Bracket,
        s.pos < s.len,
        s.pos + 1 < s.buffer.len(),
        LineEditor::fed(s, 0x43, t, key, out),
    ensures
        t.pos == s.pos + 1,
        out == seq![0x1bu8, 0x5b, 0x31, 0x43],
        t.line() == s.line(),
        t.escape == Escape::Normal,
        key == Key::More,
{
}

/// The left arrow moves the cursor one place left when it is not at the start, and
/// echoes the terminal's move left; the line does not change.
pub proof fn law_left_arrow_moves_left(s: LineEditor, t: LineEditor, key: Key, out: Seq<u8>)
    requires
        s.escape == Escape::Bracket,
        s.pos > 0,
        LineEditor::fed(s, 0x44, t, key, out),
    ensures
        t.pos == s.pos - 1,
        out == seq![0x1bu8, 0x5b, 0x31, 0x44],
        t.line() == s.line(),
        t.escape == Escape::Normal,
        key == Key::More,
{
}

/// A left arrow and then a right arrow (0x1b '[' 'C') leave the cursor where it was,
/// with the line unchanged, from any place of the line but its start (and but the end of
/// a full buffer, where the right arrow is refused).
pub proof fn law_left_then_right_returns(
    s: LineEditor,
    t1: LineEditor,
    t2: LineEditor,
    t3: LineEditor,
    t4: LineEditor,
    k1: Key,
    k2: Key,
    k3: Key,
    k4: Key,
    o1: Seq<u8>,
    o2: Seq<u8>,
    o3: Seq<u8>,
    o4: Seq<u8>,
)
    requires
        s.wf(),
        s.escape == Escape::Bracket,
        s.pos > 0,
        s.pos < s.buffer.len(),
        LineEditor::fed(s, 0x44, t1, k1, o1),
        t1.wf(),
        t1.buffer.len() == s.buffer.len(),
        LineEditor::fed(t1, 0x1b, t2, k2, o2),
        t2.wf(),
        t2.buffer.len() == s.buffer.len(),
        LineEditor::fed(t2, 0x5b, t3, k3, o3),
        t3.wf(),
        t3.buffer.len() == s.buffer.len(),
        LineEditor::fed(t3, 0x43, t4, k4, o4),
    ensures
        t4.pos == s.pos,
        t4.line() == s.line(),
        o4 == seq![0x1bu8, 0x5b, 0x31, 0x43],
{
    assert(t1.line().len() == t1.len);
    assert(s.line().len() == s.len);
    assert(t3.line().len() == t3.len);
    assert(t3.line() == s.line());
    assert(t3.len == s.len);
    assert(t3.pos == s.pos - 1);
}

/// A printable byte typed with room in the buffer goes in at the cursor: the bytes before
/// the cursor stay, the byte follows them, then the bytes that were after the cursor,
/// and the cursor moves past the new byte; typed at the end of the line it echoes just
/// itself. Carriage return ends the line as it is and echoes a line feed.
pub proof fn law_typing_and_enter(s: LineEditor, b: u8, t: LineEditor, key: Key, out: Seq<u8>)
    requires
        s.wf(),
        s.escape == Escape::Normal,
        LineEditor::fed(s, b, t, key, out),
        t.wf(),
    ensures
        printable(b) && s.len < s.buffer.len() ==> {
            &&& t.len == s.len + 1
            &&& t.pos == s.pos + 1
            &&& t.line()[s.pos as int] == b
            &&& forall|i: int| 0 <= i < s.pos ==> #[trigger] t.line()[i] == s.line()[i]
            &&& forall|i: int| s.pos <= i < s.len ==> #[trigger] t.line()[i + 1] == s.line()[i]
            &&& key == Key::More
            &&& s.pos == s.len ==> out == seq![b]
        },
        b == 13 ==> key == Key::Enter && t.line() == s.line() && t.pos == s.pos && out == seq![10u8],
{
    if printable(b) && s.len < s.buffer.len() {
        assert(b != 0x1b && b != 0x03 && b != 13 && b != 0x08);
        assert(t.line().len() == t.len);
        assert(s.line().len() == s.len);
        let l = s.line();
        assert(t.line() == l.subrange(0, s.pos as int) + seq![b] + l.subrange(s.pos as int, s.len as int));
        assert forall|i: int| s.pos <= i < s.len implies #[trigger] t.line()[i + 1] == s.line()[i] by {
            assert(t.line()[i + 1] == (l.subrange(0, s.pos as int) + seq![b] + l.subrange(s.pos as int, s.len as int))[i + 1]);
        }
        if s.pos == s.len {
            assert(t.len - t.pos == 0);
            assert(out =~= seq![b]);
        }
    }
}

} // verus!
