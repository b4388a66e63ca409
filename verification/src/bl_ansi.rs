//! The bootloader's small byte-oriented parser of cursor and graphics sequences.
use vstd::prelude::*;

verus! {

/// A recognised control sequence.
#[derive(Clone, Copy, PartialEq, Eq, Debug)]
pub enum Ansi {
    CursorHome,
    CursorTo { line: u16, col: u16 },
    CursorUp(u16),
    CursorDown(u16),
    CursorLeft(u16),
    CursorRight(u16),
    CursorDownBeginning(u16),
    CursorUpBeginning(u16),
    CursorToCol(u16),
    CursorUpScroll,
    EraseDisplay,
    EraseFromCursor,
    EraseToCursor,
    EraseScreen,
    EraseSavedLines,
    EraseInLine,
    EraseFromCursorToEndOfLine,
    EraseStartOfLineToCursor,
    EraseLine,
    Invalid,
    ResetAllGraphics,
    SetBold,
    ResetBoldDim,
    SetDim,
    SetItalic,
    ResetItalic,
    SetUnderline,
    ResetUnderline,
    SetBlinking,
    ResetBlinking,
    SetInverse,
    ResetInverse,
    SetHidden,
    ResetHidden,
    SetStrikethrough,
    ResetStrikethrough,
}

/// The private-mode marker of a sequence.
#[derive(Clone, Copy, PartialEq, Eq, Debug)]
pub enum Mode {
    Default,
    Equal,
    Question,
}

/// Where the parser stands in a sequence.
#[derive(Clone, Copy, PartialEq, Eq, Debug)]
pub enum State {
    Default,
    Escape,
    Brack,
    Reg,
    Graphics,
    Space,
}

/// What the parser makes of one input byte.
#[derive(Clone, Copy, PartialEq, Eq, Debug)]
pub enum Out {
    Ansi(Ansi),
    Data(u8),
    Nothing,
}

/// A parser of up to five numeric parameters.
pub struct AnsiParser2 {
    state: State,
    curr: u8,
    size: u8,
    nums: [u16; 5],
    mode: Mode,
}

/// The state of a parser as plain values.
pub struct Parser2View {
    pub state: State,
    pub curr: u8,
    pub size: u8,
    pub nums: Seq<u16>,
    pub mode: Mode,
}

impl View for AnsiParser2 {
    type V = Parser2View;

    closed spec fn view(&self) -> Parser2View {
        Parser2View {
            state: self.state,
            curr: self.curr,
            size: self.size,
            nums: self.nums@,
            mode: self.mode,
        }
    }
}

/// The sequence that a mode, parameters and final byte name.
pub open spec fn ansi2_spec(mode: Mode, p: Seq<u16>, c: u8) -> Ansi {
    let n = p.len();
    if mode != Mode::Default {
        Ansi::Invalid
    } else if n == 0 && c == 0x48 {
        Ansi::CursorHome
    } else if n == 2 && (c == 0x48 || c == 0x66) {
        Ansi::CursorTo { line: p[0], col: p[1] }
    } else if n == 1 && c == 0x41 {
        Ansi::CursorUp(p[0])
    } else if n == 1 && c == 0x42 {
        Ansi::CursorDown(p[0])
    } else if n == 1 && c == 0x43 {
        Ansi::CursorRight(p[0])
    } else if n == 1 && c == 0x44 {
        Ansi::CursorLeft(p[0])
    } else if n == 1 && c == 0x45 {
        Ansi::CursorDownBeginning(p[0])
    } else if n == 1 && c == 0x46 {
        Ansi::CursorUpBeginning(p[0])
    } else if n == 1 && c == 0x47 {
        Ansi::CursorToCol(p[0])
    } else if n == 0 && c == 0x4a {
        Ansi::EraseDisplay
    } else if n == 1 && c == 0x4a && p[0] == 0 {
        Ansi::EraseFromCursor
    } else if n == 1 && c == 0x4a && p[0] == 1 {
        Ansi::EraseToCursor
    } else if n == 1 && c == 0x4a && p[0] == 2 {
        Ansi::EraseScreen
    } else if n == 1 && c == 0x4a && p[0] == 3 {
        Ansi::EraseSavedLines
    } else if n == 0 && c == 0x4b {
        Ansi::EraseInLine
    } else if n == 1 && c == 0x4b && (p[0] == 0 || p[0] == 1) {
        Ansi::EraseFromCursorToEndOfLine
    } else if n == 1 && c == 0x4b && p[0] == 2 {
        Ansi::EraseLine
    } else if n == 1 && c == 0x6d {
        graphics_spec(p[0])
    } else {
        Ansi::Invalid
    }
}

/// The graphics setting that the parameter `v` of `m` names.
pub open spec fn graphics_spec(v: u16) -> Ansi {
    if v == 0 {
        Ansi::ResetAllGraphics
    } else if v == 1 {
        Ansi::SetBold
    } else if v == 22 {
        Ansi::ResetBoldDim
    } else if v == 2 {
        Ansi::SetDim
    } else if v == 3 {
        Ansi::SetItalic
    } else if v == 23 {
        Ansi::ResetItalic
    } else if v == 4 {
        Ansi::SetUnderline
    } else if v == 24 {
        Ansi::ResetUnderline
    } else if v == 5 {
        Ansi::SetBlinking
    } else if v == 25 {
        Ansi::ResetBlinking
    } else if v == 7 {
        Ansi::SetInverse
    } else if v == 27 {
        Ansi::ResetInverse
    } else if v == 8 {
        Ansi::SetHidden
    } else if v == 28 {
        Ansi::ResetHidden
    } else if v == 9 {
        Ansi::SetStrikethrough
    } else if v == 29 {
        Ansi::ResetStrikethrough
    } else {
        Ansi::Invalid
    }
}

pub open spec fn is_digit(c: u8) -> bool {
    0x30 <= c <= 0x39
}

impl Parser2View {
    /// The state and output for a byte while reading parameters.
    pub open spec fn reg_step(self, c: u8) -> (Parser2View, Out) {
        if is_digit(c) {
            (
                Parser2View {
                    size: (self.curr + 1) as u8,
                    nums: self.nums.update(
                        self.curr as int,
                        (self.nums[self.curr as int] * 10 + (c - 0x30)) as u16,
                    ),
                    ..self
                },
                Out::Nothing,
            )
        } else if c == 0x3b {
            (Parser2View { curr: (self.curr + 1) as u8, ..self }, Out::Nothing)
        } else {
            (
                Parser2View { state: State::Default, ..self },
                Out::Ansi(ansi2_spec(self.mode, self.nums.subrange(0, self.size as int), c)),
            )
        }
    }

    /// The state and output for the byte `c`.
    pub open spec fn step(self, c: u8) -> (Parser2View, Out) {
        match self.state {
            State::Default => if c == 0x1b {
                (
                    Parser2View {
                        state: State::Escape,
                        size: 0,
                        curr: 0,
                        nums: seq![0u16, 0, 0, 0, 0],
                        ..self
                    },
                    Out::Nothing,
                )
            } else {
                (self, Out::Data(c))
            },
            State::Escape => if c == 0x5b {
                (Parser2View { state: State::Brack, ..self }, Out::Nothing)
            } else {
                (Parser2View { state: State::Default, ..self }, Out::Ansi(Ansi::Invalid))
            },
            State::Brack => if c == 0x3d {
                (Parser2View { state: State::Reg, mode: Mode::Equal, ..self }, Out::Nothing)
            } else if c == 0x3f {
                (Parser2View { state: State::Reg, mode: Mode::Question, ..self }, Out::Nothing)
            } else {
                Parser2View { state: State::Reg, mode: Mode::Default, ..self }.reg_step(c)
            },
            State::Reg => self.reg_step(c),
            _ => (Parser2View { state: State::Default, ..self }, Out::Ansi(Ansi::Invalid)),
        }
    }

    /// The bytes on which reading a parameter would fail: a sixth parameter, a parameter
    /// above 65535, or a 256th separator.
    pub open spec fn reg_fails_on(self, c: u8) -> bool {
        ||| (is_digit(c) && (self.curr >= 5 || self.nums[self.curr as int] * 10 + (c - 0x30)
            > u16::MAX))
        ||| (c == 0x3b && self.curr == 255)
    }

    pub open spec fn fails_on(self, c: u8) -> bool {
        ||| (self.state == State::Reg && self.reg_fails_on(c))
        ||| (self.state == State::Brack && c != 0x3d && c != 0x3f && self.reg_fails_on(c))
    }

    pub open spec fn wf(self) -> bool {
        &&& self.nums.len() == 5
        &&& self.size <= 5
    }
}

impl AnsiParser2 {
    pub open spec fn wf(&self) -> bool {
        self@.wf()
    }

    /// A parser in its initial state.
    pub fn new() -> (p: Self)
        ensures
            p.wf(),
            p@.state == State::Default,
            p@.curr == 0,
            p@.size == 0,
            p@.nums == seq![0u16, 0, 0, 0, 0],
            p@.mode == Mode::Default,
    {
        let p = AnsiParser2 {
            state: State::Default,
            curr: 0,
            size: 0,
            nums: [0;5],
            mode: Mode::Default,
        };
        assert(p.nums@ =~= seq![0u16, 0, 0, 0, 0]);
        p
    }

    /// Feeds one byte.
    pub fn next(&mut self, input: u8) -> (out: Out)
        requires
            old(self).wf(),
            !old(self)@.fails_on(input),
        ensures
            final(self).wf(),
            (final(self)@, out) == old(self)@.step(input),
    {
        match self.state {
            State::Default => {
                if input == 0x1b {
                    self.state = State::Escape;
                    self.size = 0;
                    self.curr = 0;
                    self.nums = [0;5];
                    assert(self.nums@ =~= seq![0u16, 0, 0, 0, 0]);
                    Out::Nothing
                } else {
                    Out::Data(input)
                }
            },
            State::Escape => {
                if input == 0x5b {
                    self.state = State::Brack;
                    Out::Nothing
                } else {
                    self.state = State::Default;
                    Out::Ansi(Ansi::Invalid)
                }
            },
            State::Brack => {
                if input == 0x3d {
                    self.state = State::Reg;
                    self.mode = Mode::Equal;
                    Out::Nothing
                } else if input == 0x3f {
                    self.state = State::Reg;
                    self.mode = Mode::Question;
                    Out::Nothing
                } else {
                    self.state = State::Reg;
                    self.mode = Mode::Default;
                    self.reg(input)
                }
            },
            State::Reg => self.reg(input),
            _ => {
                self.state = State::Default;
                Out::Ansi(Ansi::Invalid)
            },
        }
    }

    fn reg(&mut self, input: u8) -> (out: Out)
        requires
            old(self).wf(),
            old(self)@.state == State::Reg,
            !old(self)@.reg_fails_on(input),
        ensures
            final(self).wf(),
            (final(self)@, out) == old(self)@.reg_step(input),
    {
        if 0x30 <= input && input <= 0x39 {
            self.size = self.curr + 1;
            let i = self.curr as usize;
            self.nums[i] = self.nums[i] * 10 + (input - 0x30) as u16;
            Out::Nothing
        } else if input == 0x3b {
            self.curr = self.curr + 1;
            Out::Nothing
        } else {
            self.state = State::Default;
            let size = self.size as usize;
            let p: &[u16] = &self.nums[0..size];
            Out::Ansi(ansi2_of(self.mode, p, input))
        }
    }
}

fn graphics_of(v: u16) -> (r: Ansi)
    ensures
        r == graphics_spec(v),
{
    if v == 0 {
        Ansi::ResetAllGraphics
    } else if v == 1 {
        Ansi::SetBold
    } else if v == 22 {
        Ansi::ResetBoldDim
    } else if v == 2 {
        Ansi::SetDim
    } else if v == 3 {
        Ansi::SetItalic
    } else if v == 23 {
        Ansi::ResetItalic
    } else if v == 4 {
        Ansi::SetUnderline
    } else if v == 24 {
        Ansi::ResetUnderline
    } else if v == 5 {
        Ansi::SetBlinking
    } else if v == 25 {
        Ansi::ResetBlinking
    } else if v == 7 {
        Ansi::SetInverse
    } else if v == 27 {
        Ansi::ResetInverse
    } else if v == 8 {
        Ansi::SetHidden
    } else if v == 28 {
        Ansi::ResetHidden
    } else if v == 9 {
        Ansi::SetStrikethrough
    } else if v == 29 {
        Ansi::ResetStrikethrough
    } else {
        Ansi::Invalid
    }
}

fn ansi2_of(mode: Mode, p: &[u16], c: u8) -> (r: Ansi)
    ensures
        r == ansi2_spec(mode, p@, c),
{
    let n = p.len();
    match mode {
        Mode::Default => {},
        _ => {
            return Ansi::Invalid;
        },
    }
    if n == 0 && c == 0x48 {
        Ansi::CursorHome
    } else if n == 2 && (c == 0x48 || c == 0x66) {
        Ansi::CursorTo { line: p[0], col: p[1] }
    } else if n == 1 && c == 0x41 {
        Ansi::CursorUp(p[0])
    } else if n == 1 && c == 0x42 {
        Ansi::CursorDown(p[0])
    } else if n == 1 && c == 0x43 {
        Ansi::CursorRight(p[0])
    } else if n == 1 && c == 0x44 {
        Ansi::CursorLeft(p[0])
    } else if n == 1 && c == 0x45 {
        Ansi::CursorDownBeginning(p[0])
    } else if n == 1 && c == 0x46 {
        Ansi::CursorUpBeginning(p[0])
    } else if n == 1 && c == 0x47 {
        Ansi::CursorToCol(p[0])
    } else if n == 0 && c == 0x4a {
        Ansi::EraseDisplay
    } else if n == 1 && c == 0x4a && p[0] == 0 {
        Ansi::EraseFromCursor
    } else if n == 1 && c == 0x4a && p[0] == 1 {
        Ansi::EraseToCursor
    } else if n == 1 && c == 0x4a && p[0] == 2 {
        Ansi::EraseScreen
    } else if n == 1 && c == 0x4a && p[0] == 3 {
        Ansi::EraseSavedLines
    } else if n == 0 && c == 0x4b {
        Ansi::EraseInLine
    } else if n == 1 && c == 0x4b && (p[0] == 0 || p[0] == 1) {
        Ansi::EraseFromCursorToEndOfLine
    } else if n == 1 && c == 0x4b && p[0] == 2 {
        Ansi::EraseLine
    } else if n == 1 && c == 0x6d {
        graphics_of(p[0])
    } else {
        Ansi::Invalid
    }
}

/// The ASCII decimal numeral of `k`, the most significant digit first.
pub open spec fn decimal_bytes(k: nat) -> Seq<u8>
    decreases k,
{
    if k < 10 {
        seq![(48 + k) as u8]
    } else {
        decimal_bytes(k / 10).push((48 + k % 10) as u8)
    }
}

impl Parser2View {
    /// The state after feeding every byte of `s` in turn.
    pub open spec fn feed(self, s: Seq<u8>) -> Parser2View
        decreases s.len(),
    {
        if s.len() == 0 {
            self
        } else {
            self.step(s[0]).0.feed(s.drop_first())
        }
    }
}

proof fn lemma_feed2_concat(v: Parser2View, a: Seq<u8>, b: Seq<u8>)
    ensures
        v.feed(a + b) == v.feed(a).feed(b),
    decreases a.len(),
{
    if a.len() > 0 {
        assert((a + b).drop_first() =~= a.drop_first() + b);
        assert((a + b)[0] == a[0]);
        lemma_feed2_concat(v.step(a[0]).0, a.drop_first(), b);
    } else {
        assert(a + b =~= b);
    }
}

proof fn lemma_decimal_bytes(k: nat)
    ensures
        decimal_bytes(k).len() > 0,
        is_digit(decimal_bytes(k)[0]),
    decreases k,
{
    if k >= 10 {
        lemma_decimal_bytes(k / 10);
    }
}

/// Feeding the numeral of `k` while reading the parameter `i` (which holds 0) leaves `k`
/// there.
proof fn lemma_feed2_decimal(v: Parser2View, i: u8, k: nat)
    requires
        v.state == State::Reg,
        v.curr == i,
        i < 5,
        v.nums.len() == 5,
        v.nums[i as int] == 0,
        k <= u16::MAX,
    ensures
        ({
            let w = v.feed(decimal_bytes(k));
            &&& w.state == State::Reg
            &&& w.curr == i
            &&& w.size == i + 1
            &&& w.mode == v.mode
            &&& w.nums == v.nums.update(i as int, k as u16)
        }),
    decreases k,
{
    if k < 10 {
        let d = (48 + k) as u8;
        assert(decimal_bytes(k) =~= seq![d]);
        assert(seq![d].drop_first() =~= Seq::<u8>::empty());
        assert(v.feed(seq![d]) == v.step(d).0.feed(Seq::<u8>::empty()));
    } else {
        lemma_feed2_decimal(v, i, k / 10);
        let d = (48 + k % 10) as u8;
        lemma_feed2_concat(v, decimal_bytes(k / 10), seq![d]);
        assert(decimal_bytes(k / 10) + seq![d] =~= decimal_bytes(k));
        let w = v.feed(decimal_bytes(k / 10));
        assert(seq![d].drop_first() =~= Seq::<u8>::empty());
        assert(w.feed(seq![d]) == w.step(d).0.feed(Seq::<u8>::empty()));
        assert(w.nums[i as int] == (k / 10) as u16);
        assert((k / 10) * 10 + k % 10 == k);
        assert(w.nums.update(i as int, k as u16) =~= v.nums.update(i as int, k as u16));
    }
}

/// The cursor-position sequence puts the line first and the column second: from the
/// default state, 0x1b '[' followed by the numeral of `a`, ';', the numeral of `b` and
/// `H` or `f` gives the cursor at line `a`, column `b`, and the parser is back in its
/// default state.
pub proof fn law_cursor_to_line_then_column(v: Parser2View, a: nat, b: nat, c: u8)
    requires
        v.wf(),
        v.state == State::Default,
        a <= u16::MAX,
        b <= u16::MAX,
        c == 0x48 || c == 0x66,
    ensures
        ({
            let w = v.feed(seq![0x1bu8, 0x5b] + decimal_bytes(a) + seq![0x3bu8] + decimal_bytes(b));
            &&& w.step(c).1 == Out::Ansi(Ansi::CursorTo { line: a as u16, col: b as u16 })
            &&& w.step(c).0.state == State::Default
        }),
{
    let v1 = v.step(0x1b).0;
    let v2 = v1.step(0x5b).0;
    assert(v2.state == State::Brack && v2.curr == 0 && v2.nums == seq![0u16, 0, 0, 0, 0]);
    let da = decimal_bytes(a);
    let db = decimal_bytes(b);
    lemma_decimal_bytes(a);
    let v2r = Parser2View { state: State::Reg, mode: Mode::Default, ..v2 };
    assert(v2.step(da[0]) == v2r.step(da[0]));
    assert(v2.feed(da) == v2r.feed(da)) by {
        assert(v2.feed(da) == v2.step(da[0]).0.feed(da.drop_first()));
        assert(v2r.feed(da) == v2r.step(da[0]).0.feed(da.drop_first()));
    }
    lemma_feed2_decimal(v2r, 0, a);
    let w1 = v2.feed(da);
    assert(w1.nums == seq![a as u16, 0, 0, 0, 0]);
    let w2 = w1.step(0x3b).0;
    assert(w2.state == State::Reg && w2.curr == 1 && w2.size == 1);
    lemma_feed2_decimal(w2, 1, b);
    let w3 = w2.feed(db);
    assert(w3.nums == seq![a as u16, b as u16, 0, 0, 0]);
    assert(w3.size == 2);
    assert(w3.nums.subrange(0, 2) =~= seq![a as u16, b as u16]);
    // the whole input, piece by piece
    let s = seq![0x1bu8, 0x5b] + da + seq![0x3bu8] + db;
    lemma_feed2_concat(v, seq![0x1bu8, 0x5b] + da + seq![0x3bu8], db);
    lemma_feed2_concat(v, seq![0x1bu8, 0x5b] + da, seq![0x3bu8]);
    lemma_feed2_concat(v, seq![0x1bu8, 0x5b], da);
    assert(seq![0x1bu8, 0x5b].drop_first() =~= seq![0x5bu8]);
    assert(seq![0x5bu8].drop_first() =~= Seq::<u8>::empty());
    assert(v.feed(seq![0x1bu8, 0x5b]) == v1.feed(seq![0x5bu8]));
    assert(v1.feed(seq![0x5bu8]) == v2.feed(Seq::<u8>::empty()));
    assert(seq![0x3bu8].drop_first() =~= Seq::<u8>::empty());
    assert(w1.feed(seq![0x3bu8]) == w2.feed(Seq::<u8>::empty()));
    assert(v.feed(s) == w3);
}

/// The state after 0x1b '[' and the numeral of `k`, from the default state.
proof fn lemma_first_parameter2(v: Parser2View, k: nat)
    requires
        v.wf(),
        v.state == State::Default,
        k <= u16::MAX,
    ensures
        ({
            let w = v.feed(seq![0x1bu8, 0x5b] + decimal_bytes(k));
            &&& w.state == State::Reg
            &&& w.mode == Mode::Default
            &&& w.size == 1
            &&& w.curr == 0
            &&& w.nums == seq![k as u16, 0, 0, 0, 0]
        }),
{
    let v1 = v.step(0x1b).0;
    let v2 = v1.step(0x5b).0;
    let d = decimal_bytes(k);
    lemma_decimal_bytes(k);
    let v2r = Parser2View { state: State::Reg, mode: Mode::Default, ..v2 };
    assert(v2.step(d[0]) == v2r.step(d[0]));
    assert(v2.feed(d) == v2r.feed(d)) by {
        assert(v2.feed(d) == v2.step(d[0]).0.feed(d.drop_first()));
        assert(v2r.feed(d) == v2r.step(d[0]).0.feed(d.drop_first()));
    }
    lemma_feed2_decimal(v2r, 0, k);
    lemma_feed2_concat(v, seq![0x1bu8, 0x5b], d);
    assert(seq![0x1bu8, 0x5b].drop_first() =~= seq![0x5bu8]);
    assert(seq![0x5bu8].drop_first() =~= Seq::<u8>::empty());
    assert(v.feed(seq![0x1bu8, 0x5b]) == v1.feed(seq![0x5bu8]));
    assert(v1.feed(seq![0x5bu8]) == v2.feed(Seq::<u8>::empty()));
    assert(v2.feed(d).nums =~= seq![k as u16, 0, 0, 0, 0]);
}

/// The one-parameter sequences carry their parameter: from the default state, 0x1b '['
/// followed by the numeral of `k` and `A`, `B`, `C`, `D`, `E`, `F` or `G` moves the cursor
/// up, down, right, left, down to a line start, up to a line start, or to the column, by
/// `k`; `J` with 0, 1, 2, 3 erases from the cursor, to the cursor, the screen, the saved
/// lines; `K` with 0 or 1 erases to the end of the line and with 2 the line; `m` with 0
/// resets the graphics, 1, 2, 3, 4, 5, 7, 8, 9 set bold, dim, italic, underline,
/// blinking, inverse, hidden, strikethrough, and 22 to 29 reset them.
pub proof fn law_one_parameter2(v: Parser2View, k: nat, c: u8)
    requires
        v.wf(),
        v.state == State::Default,
        k <= u16::MAX,
    ensures
        ({
            let w = v.feed(seq![0x1bu8, 0x5b] + decimal_bytes(k));
            let x = k as u16;
            let out = w.step(c).1;
            &&& !is_digit(c) && c != 0x3b ==> w.step(c).0.state == State::Default
            &&& c == 0x41 ==> out == Out::Ansi(Ansi::CursorUp(x))
            &&& c == 0x42 ==> out == Out::Ansi(Ansi::CursorDown(x))
            &&& c == 0x43 ==> out == Out::Ansi(Ansi::CursorRight(x))
            &&& c == 0x44 ==> out == Out::Ansi(Ansi::CursorLeft(x))
            &&& c == 0x45 ==> out == Out::Ansi(Ansi::CursorDownBeginning(x))
            &&& c == 0x46 ==> out == Out::Ansi(Ansi::CursorUpBeginning(x))
            &&& c == 0x47 ==> out == Out::Ansi(Ansi::CursorToCol(x))
            &&& c == 0x4a && k == 0 ==> out == Out::Ansi(Ansi::EraseFromCursor)
            &&& c == 0x4a && k == 1 ==> out == Out::Ansi(Ansi::EraseToCursor)
            &&& c == 0x4a && k == 2 ==> out == Out::Ansi(Ansi::EraseScreen)
            &&& c == 0x4a && k == 3 ==> out == Out::Ansi(Ansi::EraseSavedLines)
            &&& c == 0x4b && (k == 0 || k == 1) ==> out == Out::Ansi(Ansi::EraseFromCursorToEndOfLine)
            &&& c == 0x4b && k == 2 ==> out == Out::Ansi(Ansi::EraseLine)
            &&& c == 0x6d && k == 0 ==> out == Out::Ansi(Ansi::ResetAllGraphics)
            &&& c == 0x6d && k == 1 ==> out == Out::Ansi(Ansi::SetBold)
            &&& c == 0x6d && k == 2 ==> out == Out::Ansi(Ansi::SetDim)
            &&& c == 0x6d && k == 3 ==> out == Out::Ansi(Ansi::SetItalic)
            &&& c == 0x6d && k == 4 ==> out == Out::Ansi(Ansi::SetUnderline)
            &&& c == 0x6d && k == 5 ==> out == Out::Ansi(Ansi::SetBlinking)
            &&& c == 0x6d && k == 7 ==> out == Out::Ansi(Ansi::SetInverse)
            &&& c == 0x6d && k == 8 ==> out == Out::Ansi(Ansi::SetHidden)
            &&& c == 0x6d && k == 9 ==> out == Out::Ansi(Ansi::SetStrikethrough)
            &&& c == 0x6d && k == 22 ==> out == Out::Ansi(Ansi::ResetBoldDim)
            &&& c == 0x6d && k == 23 ==> out == Out::Ansi(Ansi::ResetItalic)
            &&& c == 0x6d && k == 24 ==> out == Out::Ansi(Ansi::ResetUnderline)
            &&& c == 0x6d && k == 25 ==> out == Out::Ansi(Ansi::ResetBlinking)
            &&& c == 0x6d && k == 27 ==> out == Out::Ansi(Ansi::ResetInverse)
            &&& c == 0x6d && k == 28 ==> out == Out::Ansi(Ansi::ResetHidden)
            &&& c == 0x6d && k == 29 ==> out == Out::Ansi(Ansi::ResetStrikethrough)
        }),
{
    lemma_first_parameter2(v, k);
    let w = v.feed(seq![0x1bu8, 0x5b] + decimal_bytes(k));
    assert(w.nums.subrange(0, 1) =~= seq![k as u16]);
}

} // verus!
