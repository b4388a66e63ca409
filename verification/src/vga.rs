//! The boot loader's text console on the VGA frame buffer: a cursor, colours and a
//! scrolling region driven by the parsed ANSI stream. The console decides; the drawing
//! on the frame buffer is handed out as actions.
use vstd::prelude::*;
use crate::ansi::{Ansi, C0, C1, CSI, Fe, Out};
use crate::ansi_graphics::{self, GraphicsRendition, SelectGraphic, sgr_step};

verus! {

/// The width of the frame buffer in pixels.
pub const WIDTH: u64 = 320;

/// The height of the frame buffer in pixels.
pub const HEIGHT: u64 = 480;

/// The eight colours of the frame buffer, by their byte.
#[derive(Clone, Copy, PartialEq, Eq, Debug, Structural)]
pub enum Color {
    Black,
    Red,
    Green,
    Yellow,
    Blue,
    Magenta,
    Cyan,
    White,
}

impl Color {
    /// The byte of the colour in the frame buffer.
    pub fn byte(self) -> (r: u8)
        ensures
            r == color_byte(self),
    {
        match self {
            Color::Black => 0,
            Color::Red => 1,
            Color::Green => 2,
            Color::Yellow => 3,
            Color::Blue => 4,
            Color::Magenta => 5,
            Color::Cyan => 6,
            Color::White => 7,
        }
    }
}

/// The byte of a colour in the frame buffer.
pub open spec fn color_byte(c: Color) -> u8 {
    match c {
        Color::Black => 0,
        Color::Red => 1,
        Color::Green => 2,
        Color::Yellow => 3,
        Color::Blue => 4,
        Color::Magenta => 5,
        Color::Cyan => 6,
        Color::White => 7,
    }
}

/// The size in pixels of a character of `embedded_graphics::mono_font::ascii::FONT_6X13`,
/// the console's font: its source gives `character_size` as 6 by 13.
#[verifier::external_body]
fn font_size() -> (r: (u32, u32))
    ensures
        r == (6u32, 13u32),
{
    let size = embedded_graphics::mono_font::ascii::FONT_6X13.character_size;
    (size.width, size.height)
}

/// The width of a character cell.
pub open spec fn char_width() -> int {
    6
}

/// The height of a character cell.
pub open spec fn char_height() -> int {
    13
}

/// The columns of the console: the cells in a line of the frame buffer.
pub open spec fn cols() -> int {
    WIDTH as int / 6
}

/// The lines of the console.
pub open spec fn lines() -> int {
    HEIGHT as int / 13
}

/// Drawing on the frame buffer that the console asks for.
#[derive(Clone, Copy, PartialEq, Eq, Debug, Structural)]
pub enum VgaAction {
    /// Draws `ch` in `fg` on `bg` with its text origin at (`x`, `y`).
    DrawChar { ch: char, x: i32, y: i32, fg: Color, bg: Color },
    /// Fills the rectangle at (`x`, `y`) of `width` by `height` pixels.
    FillRect { x: i32, y: i32, width: u32, height: u32, color: Color },
    /// Moves the text lines `start + 1 ..= end` up by one and fills line `end`.
    ScrollUp { start: i32, end: i32, fill: Color },
    /// Moves the text lines `start ..= end - lines` down by `lines` and fills the lines
    /// `start .. start + lines`.
    InsertLines { start: i32, end: i32, lines: u16, fill: Color },
}

/// The state of the console: the cursor, the colours and the scrolling region (text
/// lines, from 0).
#[derive(Clone, Copy, PartialEq, Eq, Debug, Structural)]
pub struct VGAAnsiController {
    pub line: i32,
    pub col: i32,
    pub bg: Color,
    pub fg: Color,
    pub scroll_start: i32,
    pub scroll_end: i32,
}

/// `x` is an `i32`.
pub open spec fn fits(x: int) -> bool {
    i32::MIN <= x <= i32::MAX
}

/// The colour of the frame buffer that an ANSI colour selects; white for the default and
/// for any it does not have.
pub open spec fn vga_color(c: ansi_graphics::Color) -> Color {
    match c {
        ansi_graphics::Color::Black => Color::Black,
        ansi_graphics::Color::Red => Color::Red,
        ansi_graphics::Color::Green => Color::Green,
        ansi_graphics::Color::Yellow => Color::Yellow,
        ansi_graphics::Color::Blue => Color::Blue,
        ansi_graphics::Color::Magenta => Color::Magenta,
        ansi_graphics::Color::Cyan => Color::Cyan,
        _ => Color::White,
    }
}

/// The rendition `sg` applied to the colours of `s`.
pub open spec fn graphic_spec(s: VGAAnsiController, sg: SelectGraphic) -> VGAAnsiController {
    match sg {
        SelectGraphic::Reset => VGAAnsiController { bg: Color::Black, fg: Color::White, ..s },
        SelectGraphic::Fg(c) => VGAAnsiController { fg: vga_color(c), ..s },
        SelectGraphic::Bg(c) => VGAAnsiController { bg: vga_color(c), ..s },
        _ => s,
    }
}

/// A list of renditions that is not empty yields one and takes at least one parameter.
pub proof fn lemma_sgr_progress(p: Seq<u16>)
    ensures
        p.len() > 0 ==> sgr_step(p).0 is Some && 1 <= sgr_step(p).1 <= p.len(),
        p.len() == 0 ==> sgr_step(p).0 is None,
{
    if p.len() > 0 {
        let first = p[0];
        let rest = p.drop_first();
        assert(rest.len() == p.len() - 1);
    }
}

/// The renditions of the parameters `p`, applied in order.
pub open spec fn graphics_spec(s: VGAAnsiController, p: Seq<u16>) -> VGAAnsiController
    decreases p.len(),
{
    if p.len() == 0 {
        s
    } else {
        let (g, k) = sgr_step(p);
        proof {
            lemma_sgr_progress(p);
        }
        match g {
            Some(g) => graphics_spec(graphic_spec(s, g), p.skip(k)),
            None => s,
        }
    }
}

/// The cursor on a new line: at its start and one line lower, or where it was if that
/// reaches the bottom of the scrolling region, which then scrolls up.
pub open spec fn newline_spec(s: VGAAnsiController) -> (VGAAnsiController, Seq<VgaAction>) {
    if s.line + 1 >= s.scroll_end {
        (
            VGAAnsiController { col: 0, ..s },
            seq![VgaAction::ScrollUp { start: s.scroll_start, end: s.scroll_end, fill: s.bg }],
        )
    } else {
        (VGAAnsiController { col: 0, line: (s.line + 1) as i32, ..s }, seq![])
    }
}

/// The cursor after a cell: the next column, or a new line from the last one.
pub open spec fn next_cell_spec(s: VGAAnsiController) -> (VGAAnsiController, Seq<VgaAction>) {
    if s.col >= cols() - 1 {
        newline_spec(s)
    } else {
        (VGAAnsiController { col: (s.col + 1) as i32, ..s }, seq![])
    }
}

/// A new line stays within the `i32` lines.
pub open spec fn newline_ok(s: VGAAnsiController) -> bool {
    fits(s.line + 1)
}

/// Moving on after a cell stays within the `i32` lines.
pub open spec fn next_cell_ok(s: VGAAnsiController) -> bool {
    s.col >= cols() - 1 ==> newline_ok(s)
}

/// The cell of the cursor filled with the background.
pub open spec fn clear_cell(s: VGAAnsiController) -> VgaAction {
    VgaAction::FillRect { x: (s.col * 6) as i32, y: (13 * s.line) as i32, width: 6, height: 13, color: s.bg }
}

/// The cell of the cursor lies within the `i32` pixels.
pub open spec fn cell_ok(s: VGAAnsiController) -> bool {
    fits(s.col * 6) && fits(13 * s.line)
}

/// The console after `ch` is drawn at the cursor, and what it draws.
pub open spec fn print_char_spec(s: VGAAnsiController, ch: char) -> (VGAAnsiController, Seq<VgaAction>) {
    let draw = VgaAction::DrawChar { ch, x: (s.col * 6) as i32, y: (s.line * 13 + 10) as i32, fg: s.fg, bg: s.bg };
    let n = next_cell_spec(s);
    (n.0, seq![draw] + n.1)
}

/// The console after the C0 control `c0`, and what it draws.
pub open spec fn c0_spec(s: VGAAnsiController, c0: C0) -> (VGAAnsiController, Seq<VgaAction>) {
    match c0 {
        C0::BS => {
            let t = if s.col - 1 < 0 {
                VGAAnsiController {
                    col: (cols() - 1) as i32,
                    line: if s.line - 1 > 0 { (s.line - 1) as i32 } else { 0 },
                    ..s
                }
            } else {
                VGAAnsiController { col: (s.col - 1) as i32, ..s }
            };
            (t, seq![clear_cell(t)])
        },
        C0::CR => (VGAAnsiController { col: 0, ..s }, seq![]),
        C0::SP => {
            let n = next_cell_spec(s);
            (n.0, seq![clear_cell(s)] + n.1)
        },
        C0::LF => newline_spec(s),
        C0::HT => (VGAAnsiController { col: (((s.col + 3) as i32) & !3i32), ..s }, seq![]),
        _ => (s, seq![]),
    }
}

/// The C0 control `c0` stays within the `i32` cursor and pixels.
pub open spec fn c0_ok(s: VGAAnsiController, c0: C0) -> bool {
    match c0 {
        C0::BS => fits(s.col - 1) && (s.col - 1 < 0 ==> fits(s.line - 1)) && cell_ok(c0_spec(s, c0).0),
        C0::SP => cell_ok(s) && next_cell_ok(s),
        C0::LF => newline_ok(s),
        C0::HT => fits(s.col + 3),
        _ => true,
    }
}

/// The console after the control sequence `csi`, and what it draws.
pub open spec fn csi_spec(s: VGAAnsiController, csi: CSI) -> (VGAAnsiController, Seq<VgaAction>) {
    match csi {
        CSI::CursorTo { line, col } => (VGAAnsiController { col: (col - 1) as i32, line: (line - 1) as i32, ..s }, seq![]),
        CSI::InsertLines(n) => (s, seq![VgaAction::InsertLines { start: s.scroll_start, end: s.scroll_end, lines: n, fill: s.bg }]),
        CSI::CursorUp(a) => (VGAAnsiController { line: (s.line - a) as i32, ..s }, seq![]),
        CSI::CursorDown(a) => (VGAAnsiController { line: (s.line + a) as i32, ..s }, seq![]),
        CSI::CursorLeft(a) => (VGAAnsiController { col: (s.col - a) as i32, ..s }, seq![]),
        CSI::CursorRight(a) => (VGAAnsiController { col: (s.col + a) as i32, ..s }, seq![]),
        CSI::CursorNextLine(a) => (VGAAnsiController { col: 0, line: (s.line + a) as i32, ..s }, seq![]),
        CSI::CursorPreviousLine(a) => (VGAAnsiController { col: 0, line: (s.line - a) as i32, ..s }, seq![]),
        CSI::CursorHorizontalAbsolute(c) => (VGAAnsiController { col: (c - 1) as i32, ..s }, seq![]),
        CSI::EraseDisplay | CSI::EraseScreen => (
            VGAAnsiController { col: 0, line: 0, ..s },
            seq![VgaAction::FillRect { x: 0, y: 0, width: 320, height: 480, color: s.bg }],
        ),
        CSI::EraseFromCursor | CSI::EraseFromCursorToEndOfLine => (
            s,
            seq![VgaAction::FillRect { x: (s.col * 6) as i32, y: (13 * s.line) as i32, width: 320, height: 13, color: s.bg }],
        ),
        CSI::EraseToCursor | CSI::EraseStartOfLineToCursor => (
            s,
            seq![VgaAction::FillRect { x: 0, y: (13 * s.line) as i32, width: ((s.col as u32) * 6) as u32, height: 13, color: s.bg }],
        ),
        CSI::EraseLine => (s, seq![VgaAction::FillRect { x: 0, y: (13 * s.line) as i32, width: 320, height: 13, color: s.bg }]),
        CSI::SetScrollingRegion { top, bottom } => (VGAAnsiController { scroll_start: (top - 1) as i32, scroll_end: (bottom - 1) as i32, ..s }, seq![]),
        CSI::SelectGraphicRendition(g) => (graphics_spec(s, g.0@), seq![]),
        _ => (s, seq![]),
    }
}

/// The control sequence `csi` stays within the `i32` cursor and pixels.
pub open spec fn csi_ok(s: VGAAnsiController, csi: CSI) -> bool {
    match csi {
        CSI::CursorUp(a) => fits(s.line - a),
        CSI::CursorDown(a) => fits(s.line + a),
        CSI::CursorLeft(a) => fits(s.col - a),
        CSI::CursorRight(a) => fits(s.col + a),
        CSI::CursorNextLine(a) => fits(s.line + a),
        CSI::CursorPreviousLine(a) => fits(s.line - a),
        CSI::EraseFromCursor | CSI::EraseFromCursorToEndOfLine => cell_ok(s),
        CSI::EraseToCursor | CSI::EraseStartOfLineToCursor => fits(13 * s.line) && (s.col as u32) * 6 <= u32::MAX,
        CSI::EraseLine => fits(13 * s.line),
        _ => true,
    }
}

/// The console after the parser's output `out`, and what it draws.
pub open spec fn advance_spec(s: VGAAnsiController, out: Out) -> (VGAAnsiController, Seq<VgaAction>) {
    match out {
        Out::Data(ch) => print_char_spec(s, ch),
        Out::Ansi(Ansi::C0(c0)) => c0_spec(s, c0),
        Out::Ansi(Ansi::C1(C1::Fe(Fe::CSI(csi)))) => csi_spec(s, csi),
        _ => (s, seq![]),
    }
}

/// The parser's output `out` keeps the console within the `i32` cursor and pixels.
pub open spec fn advance_ok(s: VGAAnsiController, out: Out) -> bool {
    match out {
        Out::Data(ch) => fits(s.col * 6) && fits(s.line * 13) && fits(s.line * 13 + 10) && next_cell_ok(s),
        Out::Ansi(Ansi::C0(c0)) => c0_ok(s, c0),
        Out::Ansi(Ansi::C1(C1::Fe(Fe::CSI(csi)))) => csi_ok(s, csi),
        _ => true,
    }
}

impl VGAAnsiController {
    /// The console at the top left, white on black, scrolling over all its lines.
    pub fn new() -> (r: Self)
        ensures
            r == (VGAAnsiController { line: 0, col: 0, bg: Color::Black, fg: Color::White, scroll_start: 0, scroll_end: (lines() - 1) as i32 }),
    {
        let (_, h) = font_size();
        Self { line: 0, col: 0, bg: Color::Black, fg: Color::White, scroll_start: 0, scroll_end: (HEIGHT / h as u64) as i32 - 1 }
    }

    /// Takes the parser's output `out`: draws or controls.
    pub fn advance(&mut self, data: Out) -> (actions: Vec<VgaAction>)
        requires
            advance_ok(*old(self), data),
        ensures
            *final(self) == advance_spec(*old(self), data).0,
            actions@ == advance_spec(*old(self), data).1,
    {
        match data {
            Out::Ansi(ansi) => self.handle_ansi(ansi),
            Out::Data(ch) => self.print_char(ch),
            Out::Nothing => Vec::new(),
        }
    }

    fn newline(&mut self, actions: &mut Vec<VgaAction>)
        requires
            newline_ok(*old(self)),
        ensures
            *final(self) == newline_spec(*old(self)).0,
            final(actions)@ == old(actions)@ + newline_spec(*old(self)).1,
    {
        self.col = 0;
        self.line = self.line + 1;
        if self.line >= self.scroll_end {
            actions.push(VgaAction::ScrollUp { start: self.scroll_start, end: self.scroll_end, fill: self.bg });
            self.line = self.line - 1;
        }
    }

    fn next_cell(&mut self, actions: &mut Vec<VgaAction>)
        requires
            next_cell_ok(*old(self)),
        ensures
            *final(self) == next_cell_spec(*old(self)).0,
            final(actions)@ == old(actions)@ + next_cell_spec(*old(self)).1,
    {
        let (w, _) = font_size();
        let cols = (WIDTH / w as u64) as i32;
        if self.col >= cols - 1 {
            self.newline(actions);
        } else {
            self.col = self.col + 1;
            assert(actions@ =~= old(actions)@ + next_cell_spec(*old(self)).1);
        }
    }

    fn clear_cell(&self) -> (r: VgaAction)
        requires
            cell_ok(*self),
        ensures
            r == clear_cell(*self),
    {
        let (w, h) = font_size();
        VgaAction::FillRect { x: self.col * w as i32, y: h as i32 * self.line, width: w, height: h, color: self.bg }
    }

    fn print_char(&mut self, ch: char) -> (actions: Vec<VgaAction>)
        requires
            fits(old(self).col * 6) && fits(old(self).line * 13) && fits(old(self).line * 13 + 10) && next_cell_ok(*old(self)),
        ensures
            *final(self) == print_char_spec(*old(self), ch).0,
            actions@ == print_char_spec(*old(self), ch).1,
    {
        let (w, h) = font_size();
        let mut actions: Vec<VgaAction> = Vec::new();
        actions.push(VgaAction::DrawChar { ch, x: self.col * w as i32, y: self.line * h as i32 + 10, fg: self.fg, bg: self.bg });
        self.next_cell(&mut actions);
        actions
    }

    fn handle_ansi(&mut self, ansi: Ansi) -> (actions: Vec<VgaAction>)
        requires
            advance_ok(*old(self), Out::Ansi(ansi)),
        ensures
            *final(self) == advance_spec(*old(self), Out::Ansi(ansi)).0,
            actions@ == advance_spec(*old(self), Out::Ansi(ansi)).1,
    {
        match ansi {
            Ansi::C0(c0) => self.handle_c0(c0),
            Ansi::C1(c1) => self.handle_c1(c1),
        }
    }

    fn handle_c0(&mut self, c0: C0) -> (actions: Vec<VgaAction>)
        requires
            c0_ok(*old(self), c0),
        ensures
            *final(self) == c0_spec(*old(self), c0).0,
            actions@ == c0_spec(*old(self), c0).1,
    {
        let (w, _) = font_size();
        let cols = (WIDTH / w as u64) as i32;
        let mut actions: Vec<VgaAction> = Vec::new();
        match c0 {
            C0::BS => {
                self.col = self.col - 1;
                if self.col < 0 {
                    self.col = cols - 1;
                    let up = self.line - 1;
                    self.line = if up > 0 { up } else { 0 };
                }
                actions.push(self.clear_cell());
            },
            C0::BEL => {},
            C0::CR => {
                self.col = 0;
            },
            C0::SP => {
                actions.push(self.clear_cell());
                self.next_cell(&mut actions);
            },
            C0::FF => {},
            C0::LF => {
                self.newline(&mut actions);
            },
            C0::HT => {
                self.col = (self.col + 3) & !(4 - 1);
            },
            _ => {},
        }
        actions
    }

    fn handle_c1(&mut self, c1: C1) -> (actions: Vec<VgaAction>)
        requires
            advance_ok(*old(self), Out::Ansi(Ansi::C1(c1))),
        ensures
            *final(self) == advance_spec(*old(self), Out::Ansi(Ansi::C1(c1))).0,
            actions@ == advance_spec(*old(self), Out::Ansi(Ansi::C1(c1))).1,
    {
        match c1 {
            C1::Fe(fe) => self.handle_fe(fe),
            _ => Vec::new(),
        }
    }

    fn handle_fe(&mut self, fe: Fe) -> (actions: Vec<VgaAction>)
        requires
            advance_ok(*old(self), Out::Ansi(Ansi::C1(C1::Fe(fe)))),
        ensures
            *final(self) == advance_spec(*old(self), Out::Ansi(Ansi::C1(C1::Fe(fe)))).0,
            actions@ == advance_spec(*old(self), Out::Ansi(Ansi::C1(C1::Fe(fe)))).1,
    {
        match fe {
            Fe::CSI(csi) => self.handle_csi(csi),
            _ => Vec::new(),
        }
    }

    fn handle_csi(&mut self, csi: CSI) -> (actions: Vec<VgaAction>)
        requires
            csi_ok(*old(self), csi),
        ensures
            *final(self) == csi_spec(*old(self), csi).0,
            actions@ == csi_spec(*old(self), csi).1,
    {
        let (w, h) = font_size();
        let mut actions: Vec<VgaAction> = Vec::new();
        match csi {
            CSI::CursorTo { line, col } => {
                self.col = col as i32 - 1;
                self.line = line as i32 - 1;
            },
            CSI::InsertLines(lines) => {
                actions.push(VgaAction::InsertLines { start: self.scroll_start, end: self.scroll_end, lines, fill: self.bg });
            },
            CSI::CursorUp(amount) => self.line = self.line - amount as i32,
            CSI::CursorDown(amount) => self.line = self.line + amount as i32,
            CSI::CursorLeft(amount) => self.col = self.col - amount as i32,
            CSI::CursorRight(amount) => self.col = self.col + amount as i32,
            CSI::CursorNextLine(amount) => {
                self.col = 0;
                self.line = self.line + amount as i32;
            },
            CSI::CursorPreviousLine(amount) => {
                self.col = 0;
                self.line = self.line - amount as i32;
            },
            CSI::CursorHorizontalAbsolute(col) => self.col = col as i32 - 1,
            CSI::EraseDisplay | CSI::EraseScreen => {
                self.col = 0;
                self.line = 0;
                actions.push(VgaAction::FillRect { x: 0, y: 0, width: WIDTH as u32, height: HEIGHT as u32, color: self.bg });
            },
            CSI::EraseFromCursor | CSI::EraseFromCursorToEndOfLine => {
                actions.push(VgaAction::FillRect { x: self.col * w as i32, y: h as i32 * self.line, width: WIDTH as u32, height: h, color: self.bg });
            },
            CSI::EraseToCursor | CSI::EraseStartOfLineToCursor => {
                let cells = self.col as u32;
                assert(cells == old(self).col as u32);
                actions.push(VgaAction::FillRect { x: 0, y: h as i32 * self.line, width: cells * w, height: h, color: self.bg });
            },
            CSI::EraseLine => {
                actions.push(VgaAction::FillRect { x: 0, y: h as i32 * self.line, width: WIDTH as u32, height: h, color: self.bg });
            },
            CSI::SetScrollingRegion { top, bottom } => {
                self.scroll_start = top as i32 - 1;
                self.scroll_end = bottom as i32 - 1;
            },
            CSI::SelectGraphicRendition(g) => {
                let mut it = g;
                let ghost s0 = *self;
                loop
                    invariant
                        graphics_spec(*self, it.0@) == graphics_spec(s0, g.0@),
                    ensures
                        graphics_spec(*self, it.0@) == graphics_spec(s0, g.0@),
                        it.0@.len() == 0,
                    decreases it.0@.len(),
                {
                    let ghost before = it.0@;
                    let ghost st = *self;
                    proof {
                        lemma_sgr_progress(before);
                    }
                    match it.next() {
                        Some(sg) => {
                            self.handle_select_graphic(sg);
                            assert(graphics_spec(st, before) == graphics_spec(graphic_spec(st, sg), before.skip(sgr_step(before).1)));
                        },
                        None => {
                            assert(before.len() == 0);
                            break;
                        },
                    }
                }
            },
            _ => {},
        }
        actions
    }

    fn handle_select_graphic(&mut self, sg: SelectGraphic)
        ensures
            *final(self) == graphic_spec(*old(self), sg),
    {
        match sg {
            SelectGraphic::Reset => {
                self.bg = Color::Black;
                self.fg = Color::White;
            },
            SelectGraphic::Fg(c) => {
                self.fg = match c {
                    ansi_graphics::Color::Default => Color::White,
                    ansi_graphics::Color::Black => Color::Black,
                    ansi_graphics::Color::Red => Color::Red,
                    ansi_graphics::Color::Green => Color::Green,
                    ansi_graphics::Color::Yellow => Color::Yellow,
                    ansi_graphics::Color::Blue => Color::Blue,
                    ansi_graphics::Color::Magenta => Color::Magenta,
                    ansi_graphics::Color::Cyan => Color::Cyan,
                    ansi_graphics::Color::White => Color::White,
                    _ => Color::White,
                }
            },
            SelectGraphic::Bg(c) => {
                self.bg = match c {
                    ansi_graphics::Color::Default => Color::White,
                    ansi_graphics::Color::Black => Color::Black,
                    ansi_graphics::Color::Red => Color::Red,
                    ansi_graphics::Color::Green => Color::Green,
                    ansi_graphics::Color::Yellow => Color::Yellow,
                    ansi_graphics::Color::Blue => Color::Blue,
                    ansi_graphics::Color::Magenta => Color::Magenta,
                    ansi_graphics::Color::Cyan => Color::Cyan,
                    ansi_graphics::Color::White => Color::White,
                    _ => Color::White,
                }
            },
            _ => {},
        }
    }
}

/// The console's answer to a control sequence.
pub open spec fn csi_answer(s: VGAAnsiController, csi: CSI) -> (VGAAnsiController, Seq<VgaAction>) {
    advance_spec(s, Out::Ansi(Ansi::C1(C1::Fe(Fe::CSI(csi)))))
}

/// Erasing from the cursor to the end of the line clears the cells from the cursor's
/// column on, in the cursor's line, and no cell left of it: one rectangle whose left edge
/// is the column times the cell width of 6 pixels, 13 pixels high at the line's top, in
/// the background colour. The cursor does not move.
pub proof fn law_erase_from_cursor(s: VGAAnsiController)
    ensures
        csi_answer(s, CSI::EraseFromCursor) == (s, seq![
            VgaAction::FillRect { x: (s.col * 6) as i32, y: (s.line * 13) as i32, width: 320, height: 13, color: s.bg },
        ]),
        csi_answer(s, CSI::EraseFromCursorToEndOfLine) == csi_answer(s, CSI::EraseFromCursor),
{
    assert(csi_answer(s, CSI::EraseFromCursor).1 =~= seq![
        VgaAction::FillRect { x: (s.col * 6) as i32, y: (s.line * 13) as i32, width: 320, height: 13, color: s.bg },
    ]);
}

/// Erasing up to the cursor clears the cells of the line left of the cursor's column and
/// none from it on: one rectangle from the line's left edge, the column times 6 pixels
/// wide; erasing the line clears all of it; erasing the display clears the whole frame
/// buffer and puts the cursor at the top left. The colour is the background.
pub proof fn law_erase_to_cursor_and_lines(s: VGAAnsiController)
    ensures
        csi_answer(s, CSI::EraseToCursor) == (s, seq![
            VgaAction::FillRect { x: 0, y: (s.line * 13) as i32, width: ((s.col as u32) * 6) as u32, height: 13, color: s.bg },
        ]),
        csi_answer(s, CSI::EraseStartOfLineToCursor) == csi_answer(s, CSI::EraseToCursor),
        csi_answer(s, CSI::EraseLine) == (s, seq![
            VgaAction::FillRect { x: 0, y: (s.line * 13) as i32, width: 320, height: 13, color: s.bg },
        ]),
        csi_answer(s, CSI::EraseDisplay) == (VGAAnsiController { line: 0, col: 0, ..s }, seq![
            VgaAction::FillRect { x: 0, y: 0, width: 320, height: 480, color: s.bg },
        ]),
        csi_answer(s, CSI::EraseScreen) == csi_answer(s, CSI::EraseDisplay),
{
    assert(csi_answer(s, CSI::EraseToCursor).1 =~= seq![
        VgaAction::FillRect { x: 0, y: (s.line * 13) as i32, width: ((s.col as u32) * 6) as u32, height: 13, color: s.bg },
    ]);
    assert(csi_answer(s, CSI::EraseLine).1 =~= seq![
        VgaAction::FillRect { x: 0, y: (s.line * 13) as i32, width: 320, height: 13, color: s.bg },
    ]);
    assert(csi_answer(s, CSI::EraseDisplay).1 =~= seq![
        VgaAction::FillRect { x: 0, y: 0, width: 320, height: 480, color: s.bg },
    ]);
}

/// The cursor sequences move the cursor by their parameter and draw nothing: up and
/// down change the line, left and right the column, the next and previous line also go
/// to column 0; the absolute ones take the 1-based line and column to the 0-based cursor.
pub proof fn law_cursor_moves(s: VGAAnsiController, a: u16, b: u16)
    ensures
        csi_answer(s, CSI::CursorUp(a)) == (VGAAnsiController { line: (s.line - a) as i32, ..s }, Seq::<VgaAction>::empty()),
        csi_answer(s, CSI::CursorDown(a)) == (VGAAnsiController { line: (s.line + a) as i32, ..s }, Seq::<VgaAction>::empty()),
        csi_answer(s, CSI::CursorLeft(a)) == (VGAAnsiController { col: (s.col - a) as i32, ..s }, Seq::<VgaAction>::empty()),
        csi_answer(s, CSI::CursorRight(a)) == (VGAAnsiController { col: (s.col + a) as i32, ..s }, Seq::<VgaAction>::empty()),
        csi_answer(s, CSI::CursorNextLine(a)) == (VGAAnsiController { col: 0, line: (s.line + a) as i32, ..s }, Seq::<VgaAction>::empty()),
        csi_answer(s, CSI::CursorPreviousLine(a)) == (VGAAnsiController { col: 0, line: (s.line - a) as i32, ..s }, Seq::<VgaAction>::empty()),
        csi_answer(s, CSI::CursorHorizontalAbsolute(a)) == (VGAAnsiController { col: (a - 1) as i32, ..s }, Seq::<VgaAction>::empty()),
        csi_answer(s, CSI::CursorTo { line: a, col: b }) == (VGAAnsiController { line: (a - 1) as i32, col: (b - 1) as i32, ..s }, Seq::<VgaAction>::empty()),
        csi_answer(s, CSI::SetScrollingRegion { top: a, bottom: b }) == (VGAAnsiController { scroll_start: (a - 1) as i32, scroll_end: (b - 1) as i32, ..s }, Seq::<VgaAction>::empty()),
{
}

/// A character is drawn at the cursor's cell (6 pixels per column, its text origin 10
/// pixels below the top of the 13-pixel line) in the console's colours; the cursor then
/// moves one column right, or, from the last of the 53 columns, to the start of the next
/// line, the region scrolling up one line when that line is its bottom line.
pub proof fn law_print_char(s: VGAAnsiController, ch: char)
    ensures
        ({
            let (t, acts) = advance_spec(s, Out::Data(ch));
            &&& acts[0] == (VgaAction::DrawChar { ch, x: (s.col * 6) as i32, y: (s.line * 13 + 10) as i32, fg: s.fg, bg: s.bg })
            &&& s.col < 52 ==> t == (VGAAnsiController { col: (s.col + 1) as i32, ..s }) && acts.len() == 1
            &&& s.col >= 52 && s.line + 1 < s.scroll_end ==> t == (VGAAnsiController { col: 0, line: (s.line + 1) as i32, ..s })
                && acts.len() == 1
            &&& s.col >= 52 && s.line + 1 >= s.scroll_end ==> t == (VGAAnsiController { col: 0, ..s }) && acts.len() == 2
                && acts[1] == (VgaAction::ScrollUp { start: s.scroll_start, end: s.scroll_end, fill: s.bg })
        }),
{
    assert(cols() == 53);
}

/// The C0 controls move the cursor: carriage return to column 0 of the same line; line
/// feed to column 0 of the next line, or, on the region's bottom line, scrolls the region
/// up and stays on that line; tab to the next column that is a multiple of 4 (from a
/// multiple of 4, it stays); backspace one column left, clearing that cell, or from column
/// 0 to the last column of the line above (never above line 0).
pub proof fn law_c0_moves(s: VGAAnsiController)
    ensures
        advance_spec(s, Out::Ansi(Ansi::C0(C0::CR))) == (VGAAnsiController { col: 0, ..s }, Seq::<VgaAction>::empty()),
        s.line + 1 < s.scroll_end ==> advance_spec(s, Out::Ansi(Ansi::C0(C0::LF))) == (
            VGAAnsiController { col: 0, line: (s.line + 1) as i32, ..s },
            Seq::<VgaAction>::empty(),
        ),
        s.line + 1 >= s.scroll_end ==> advance_spec(s, Out::Ansi(Ansi::C0(C0::LF))) == (
            VGAAnsiController { col: 0, ..s },
            seq![VgaAction::ScrollUp { start: s.scroll_start, end: s.scroll_end, fill: s.bg }],
        ),
        advance_spec(s, Out::Ansi(Ansi::C0(C0::HT))).0 == (VGAAnsiController { col: (((s.col + 3) as i32) & !3i32), ..s }),
        s.col >= 1 ==> advance_spec(s, Out::Ansi(Ansi::C0(C0::BS))) == (
            VGAAnsiController { col: (s.col - 1) as i32, ..s },
            seq![VgaAction::FillRect { x: ((s.col - 1) * 6) as i32, y: (13 * s.line) as i32, width: 6, height: 13, color: s.bg }],
        ),
        s.col < 1 ==> advance_spec(s, Out::Ansi(Ansi::C0(C0::BS))).0 == (VGAAnsiController {
            col: 52,
            line: if s.line > 1 { (s.line - 1) as i32 } else { 0 },
            ..s
        }),
{
    assert(cols() == 53);
    assert(advance_spec(s, Out::Ansi(Ansi::C0(C0::CR))).1 =~= Seq::<VgaAction>::empty());
    if s.line + 1 < s.scroll_end {
        assert(advance_spec(s, Out::Ansi(Ansi::C0(C0::LF))).1 =~= Seq::<VgaAction>::empty());
    }
}

/// A graphic rendition with one colour code sets the console's colour: 30 to 36 select
/// the foreground black, red, green, yellow, blue, magenta, cyan; 0 resets to white on
/// black; the colour codes it has no colour for (39, the default) give white. Nothing is
/// drawn.
pub proof fn law_sgr_sets_colors(s: VGAAnsiController, g: GraphicsRendition)
    requires
        g.0@.len() == 1,
    ensures
        ({
            let (t, acts) = csi_answer(s, CSI::SelectGraphicRendition(g));
            &&& acts.len() == 0
            &&& g.0@[0] == 30 ==> t == (VGAAnsiController { fg: Color::Black, ..s })
            &&& g.0@[0] == 31 ==> t == (VGAAnsiController { fg: Color::Red, ..s })
            &&& g.0@[0] == 32 ==> t == (VGAAnsiController { fg: Color::Green, ..s })
            &&& g.0@[0] == 33 ==> t == (VGAAnsiController { fg: Color::Yellow, ..s })
            &&& g.0@[0] == 34 ==> t == (VGAAnsiController { fg: Color::Blue, ..s })
            &&& g.0@[0] == 35 ==> t == (VGAAnsiController { fg: Color::Magenta, ..s })
            &&& g.0@[0] == 36 ==> t == (VGAAnsiController { fg: Color::Cyan, ..s })
            &&& g.0@[0] == 39 ==> t == (VGAAnsiController { fg: Color::White, ..s })
            &&& g.0@[0] == 0 ==> t == (VGAAnsiController { fg: Color::White, bg: Color::Black, ..s })
        }),
{
    let p = g.0@;
    assert(p.skip(1) =~= Seq::<u16>::empty());
    lemma_sgr_progress(p);
    let (gg, k) = sgr_step(p);
    assert(k == 1);
    assert(graphics_spec(s, p) == graphics_spec(graphic_spec(s, gg->0), p.skip(1)));
}

} // verus!
