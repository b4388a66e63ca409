//! A streaming parser for ANSI escape sequences (C0 controls, escape sequences,
//! control sequences and control strings), one character at a time.
use crate::ansi_graphics::{GraphicsRendition, SelectGraphic, sgr_step};
use vstd::prelude::*;

verus! {

/// What the parser makes of one input character.
#[derive(Clone, Copy, PartialEq, Eq, Debug)]
pub enum Out<'a> {
    Ansi(Ansi<'a>),
    Data(char),
    Nothing,
}

#[derive(Clone, Copy, PartialEq, Eq, Debug)]
pub enum Ansi<'a> {
    /// 0x00-0x20 and 0x7F (space and delete included)
    C0(C0),
    /// a sequence that starts with 0x1b
    C1(C1<'a>),
}

/// The C0 control codes (and space and delete).
#[derive(Clone, Copy, PartialEq, Eq, Debug)]
pub enum C0 {
    NUL,
    SOH,
    STX,
    ETX,
    EOT,
    ENQ,
    ACK,
    BEL,
    BS,
    HT,
    LF,
    VT,
    FF,
    CR,
    SO,
    SI,
    DLE,
    DC1,
    DC2,
    DC3,
    DC4,
    NAK,
    SYN,
    ETB,
    CAN,
    EM,
    SUB,
    FS,
    GS,
    RS,
    US,
    SP,
    DEL,
}

/// A sequence that starts with 0x1b.
#[allow(non_camel_case_types)]
#[derive(Clone, Copy, PartialEq, Eq, Debug)]
pub enum C1<'a> {
    /// 0x30-0x3F
    Fp(Fp),
    /// 0x40-0x5F
    Fe(Fe<'a>),
    /// 0x60-0x7E
    Fs(Fs),
    /// any other character after 0x1b
    Invalid(char),
}

/// 0x1b followed by a character in 0x30-0x3F.
#[derive(Clone, Copy, PartialEq, Eq, Debug)]
pub enum Fp {
    /// '9'
    DECFI,
    /// '7'
    DECSC,
    /// '8'
    DECRC,
    /// '='
    DECKPAM,
    /// '>'
    DECKPNM,
    Unknown(u8),
}

/// 0x1b followed by a character in 0x40-0x5F.
#[derive(Clone, Copy, PartialEq, Eq, Debug)]
pub enum Fe<'a> {
    PAD,
    HOP,
    BPH,
    NBH,
    IND,
    NEL,
    SSA,
    ESA,
    HTS,
    HTJ,
    VTS,
    PLD,
    PLU,
    RI,
    SS2,
    SS3,
    DCS,
    PU1,
    PU2,
    STS,
    CCH,
    MW,
    SPA,
    EPA,
    SOS,
    SGCI,
    SCI,
    CSI(CSI<'a>),
    ST,
    OSC,
    PM,
    APC,
    DCSData(char),
    SData(char),
    PMData(char),
    APCData(char),
    OSData(char),
}

/// 0x1b followed by a character in 0x60-0x7E.
#[derive(Clone, Copy, PartialEq, Eq, Debug)]
pub enum Fs {
    DMI,
    INT,
    EMI,
    RIS,
    CMD,
    LCKMEM,
    ULKMEM,
    LS2,
    LS3,
    LS3R,
    LS2R,
    LS1R,
    Unknown(u8),
}

/// A control sequence: 0x1b '[' parameters final-character.
#[derive(Clone, Copy, PartialEq, Eq, Debug)]
pub enum CSI<'a> {
    CursorUp(u16),
    CursorDown(u16),
    CursorLeft(u16),
    CursorRight(u16),
    CursorNextLine(u16),
    CursorPreviousLine(u16),
    CursorHorizontalAbsolute(u16),
    CursorTo { line: u16, col: u16 },
    HorizontalVerticalPosition { line: u16, col: u16 },
    CursorPosition,
    EraseDisplay,
    EraseFromCursor,
    EraseToCursor,
    EraseScreen,
    EraseSavedLines,
    EraseFromCursorToEndOfLine,
    EraseStartOfLineToCursor,
    EraseLine,
    ScrollUp(u16),
    ScrollDown(u16),
    AuxPortOn,
    AuxPortOff,
    DeviceStatusReport,
    SelectGraphicRendition(GraphicsRendition<'a>),
    SaveCurrentCursorPosition,
    RestoreCurrentCursorPosition,
    ShowCursor,
    HideCursor,
    EnableFocusReporting,
    DisableFocusReporting,
    RestoreScreen,
    SaveScreen,
    EnableAlternativeBuffer,
    DisableAlternativeBuffer,
    ScreenMode(ScreenMode),
    ResetScreenMode(ScreenMode),
    SetScrollingRegion { top: u16, bottom: u16 },
    DeleteLines(u16),
    InsertLines(u16),
    ReportCursorPosition,
    CursorLineAbsolute(u16),
    SequenceTooLarge,
    IntegerOverflow,
    Unknown { sequence: &'a [u16], modifier: CsiMod, end: char },
}

#[derive(Clone, Copy, PartialEq, Eq, Debug)]
pub enum ScreenMode {
    Monochrome40x25,
    Color40x25,
    Monochrome80x25,
    Color80x25,
    Graphics4Color320x200,
    GraphicsMonochrome320x200,
    GraphicsMonochrome640x200,
    EnableLineWrapping,
    StopBlinkingCursor,
    GraphicsColor320x200,
    Graphics16Color640x200,
    GraphicsMonochrome630x350,
    Graphics16Color640x350,
    GraphicsMonochrome640x480,
    Graphics16Color640x480,
    Graphics256Color320x200,
}

/// The private-mode marker of a control sequence.
#[derive(Clone, Copy, PartialEq, Eq, Structural, Debug)]
pub enum CsiMod {
    Standard,
    Equal,
    Question,
    Unknown(u8),
}

/// The kind of control string being read.
#[derive(Clone, Copy, PartialEq, Eq, Debug)]
pub enum StringKind {
    DeviceControl,
    Regular,
    Privacy,
    ApplicationProgramCommand,
    Os,
}

/// Where the parser stands in a sequence.
#[derive(Clone, Copy, PartialEq, Eq, Debug)]
pub enum State {
    Default,
    Escape,
    CsiStart,
    Csi,
    String(StringKind),
    StringEcp(StringKind),
}

/// Whether the parameters of the control sequence being read are still usable.
#[derive(Clone, Copy, PartialEq, Eq, Debug)]
pub enum InvalidKind {
    Valid,
    IntegerOverflow,
    SequenceTooLarge,
}

/// The parser: `CSI_MAX` is the most parameters a control sequence may carry.
pub struct AnsiParser<const CSI_MAX: usize> {
    state: State,
    curr: u8,
    size: u8,
    nums: [u16; CSI_MAX],
    mode: CsiMod,
    invalid: InvalidKind,
    string_extra_char: Option<char>,
}

/// The state of a parser as plain values.
pub struct ParserView {
    pub state: State,
    pub curr: u8,
    pub size: u8,
    pub nums: Seq<u16>,
    pub mode: CsiMod,
    pub invalid: InvalidKind,
    pub extra: Option<char>,
}

impl<const N: usize> View for AnsiParser<N> {
    type V = ParserView;

    closed spec fn view(&self) -> ParserView {
        ParserView {
            state: self.state,
            curr: self.curr,
            size: self.size,
            nums: self.nums@,
            mode: self.mode,
            invalid: self.invalid,
            extra: self.string_extra_char,
        }
    }
}

/// The C0 code of a character, for every character the default state does not pass
/// through as data (escape excluded).
pub open spec fn c0_spec(x: u32) -> Option<C0> {
    if x == 0 {
        Some(C0::NUL)
    } else if x == 1 {
        Some(C0::SOH)
    } else if x == 2 {
        Some(C0::STX)
    } else if x == 3 {
        Some(C0::ETX)
    } else if x == 4 {
        Some(C0::EOT)
    } else if x == 5 {
        Some(C0::ENQ)
    } else if x == 6 {
        Some(C0::ACK)
    } else if x == 7 {
        Some(C0::BEL)
    } else if x == 8 {
        Some(C0::BS)
    } else if x == 9 {
        Some(C0::HT)
    } else if x == 10 {
        Some(C0::LF)
    } else if x == 11 {
        Some(C0::VT)
    } else if x == 12 {
        Some(C0::FF)
    } else if x == 13 {
        Some(C0::CR)
    } else if x == 14 {
        Some(C0::SO)
    } else if x == 15 {
        Some(C0::SI)
    } else if x == 16 {
        Some(C0::DLE)
    } else if x == 17 {
        Some(C0::DC1)
    } else if x == 18 {
        Some(C0::DC2)
    } else if x == 19 {
        Some(C0::DC3)
    } else if x == 20 {
        Some(C0::DC4)
    } else if x == 21 {
        Some(C0::NAK)
    } else if x == 22 {
        Some(C0::SYN)
    } else if x == 23 {
        Some(C0::ETB)
    } else if x == 24 {
        Some(C0::CAN)
    } else if x == 25 {
        Some(C0::EM)
    } else if x == 26 {
        Some(C0::SUB)
    } else if x == 28 {
        Some(C0::FS)
    } else if x == 29 {
        Some(C0::GS)
    } else if x == 30 {
        Some(C0::RS)
    } else if x == 31 {
        Some(C0::US)
    } else if x == 32 {
        Some(C0::SP)
    } else if x == 127 {
        Some(C0::DEL)
    } else {
        None
    }
}

/// The escape sequence of a character in 0x30-0x3F.
pub open spec fn fp_spec(c: char) -> Fp {
    if c == '7' {
        Fp::DECSC
    } else if c == '8' {
        Fp::DECRC
    } else if c == '9' {
        Fp::DECFI
    } else if c == '=' {
        Fp::DECKPAM
    } else if c == '>' {
        Fp::DECKPNM
    } else {
        Fp::Unknown(c as u8)
    }
}

/// The escape sequence of a character in 0x60-0x7E.
pub open spec fn fs_spec(c: char) -> Fs {
    if c == '`' {
        Fs::DMI
    } else if c == 'a' {
        Fs::INT
    } else if c == 'b' {
        Fs::EMI
    } else if c == 'c' {
        Fs::RIS
    } else if c == 'd' {
        Fs::CMD
    } else if c == 'l' {
        Fs::LCKMEM
    } else if c == 'm' {
        Fs::ULKMEM
    } else if c == 'n' {
        Fs::LS2
    } else if c == 'o' {
        Fs::LS3
    } else if c == '|' {
        Fs::LS3R
    } else if c == '}' {
        Fs::LS2R
    } else if c == '~' {
        Fs::LS1R
    } else {
        Fs::Unknown(c as u8)
    }
}

/// The escape sequence of a character in 0x40-0x5F, and the state it leads to:
/// `None` for '[', which opens a control sequence.
pub open spec fn fe_spec<'a>(c: char) -> (Option<Fe<'a>>, State) {
    if c == '@' {
        (Some(Fe::PAD), State::Default)
    } else if c == 'A' {
        (Some(Fe::HOP), State::Default)
    } else if c == 'B' {
        (Some(Fe::BPH), State::Default)
    } else if c == 'C' {
        (Some(Fe::NBH), State::Default)
    } else if c == 'D' {
        (Some(Fe::IND), State::Default)
    } else if c == 'E' {
        (Some(Fe::NEL), State::Default)
    } else if c == 'F' {
        (Some(Fe::SSA), State::Default)
    } else if c == 'G' {
        (Some(Fe::ESA), State::Default)
    } else if c == 'H' {
        (Some(Fe::HTS), State::Default)
    } else if c == 'I' {
        (Some(Fe::HTJ), State::Default)
    } else if c == 'J' {
        (Some(Fe::VTS), State::Default)
    } else if c == 'K' {
        (Some(Fe::PLD), State::Default)
    } else if c == 'L' {
        (Some(Fe::PLU), State::Default)
    } else if c == 'M' {
        (Some(Fe::RI), State::Default)
    } else if c == 'N' {
        (Some(Fe::SS2), State::Default)
    } else if c == 'O' {
        (Some(Fe::SS3), State::Default)
    } else if c == 'P' {
        (Some(Fe::DCS), State::String(StringKind::DeviceControl))
    } else if c == 'Q' {
        (Some(Fe::PU1), State::Default)
    } else if c == 'R' {
        (Some(Fe::PU2), State::Default)
    } else if c == 'S' {
        (Some(Fe::STS), State::Default)
    } else if c == 'T' {
        (Some(Fe::CCH), State::Default)
    } else if c == 'U' {
        (Some(Fe::MW), State::Default)
    } else if c == 'V' {
        (Some(Fe::SPA), State::Default)
    } else if c == 'W' {
        (Some(Fe::EPA), State::Default)
    } else if c == 'X' {
        (Some(Fe::SOS), State::String(StringKind::Regular))
    } else if c == 'Y' {
        (Some(Fe::SGCI), State::Default)
    } else if c == 'Z' {
        (Some(Fe::SCI), State::Default)
    } else if c == '[' {
        (None, State::CsiStart)
    } else if c == '\\' {
        (Some(Fe::ST), State::Default)
    } else if c == ']' {
        (Some(Fe::OSC), State::String(StringKind::Os))
    } else if c == '^' {
        (Some(Fe::PM), State::String(StringKind::Privacy))
    } else {
        (Some(Fe::APC), State::String(StringKind::ApplicationProgramCommand))
    }
}

/// What 0x1b followed by `c` gives, and the state it leads to.
pub open spec fn escape_spec<'a>(c: char) -> (Out<'a>, State) {
    let x = c as u32;
    if 0x20 <= x <= 0x2F {
        (Out::Nothing, State::Default)
    } else if 0x30 <= x <= 0x3F {
        (Out::Ansi(Ansi::C1(C1::Fp(fp_spec(c)))), State::Default)
    } else if 0x40 <= x <= 0x5F {
        let (fe, st) = fe_spec(c);
        match fe {
            Some(fe) => (Out::Ansi(Ansi::C1(C1::Fe(fe))), st),
            None => (Out::Nothing, st),
        }
    } else if 0x60 <= x <= 0x7E {
        (Out::Ansi(Ansi::C1(C1::Fs(fs_spec(c)))), State::Default)
    } else {
        (Out::Ansi(Ansi::C1(C1::Invalid(c))), State::Default)
    }
}

/// A character of a control string of kind `k`.
pub open spec fn string_data<'a>(k: StringKind, c: char) -> Out<'a> {
    Out::Ansi(
        Ansi::C1(
            C1::Fe(
                match k {
                    StringKind::DeviceControl => Fe::DCSData(c),
                    StringKind::Regular => Fe::SData(c),
                    StringKind::Os => Fe::OSData(c),
                    StringKind::Privacy => Fe::PMData(c),
                    StringKind::ApplicationProgramCommand => Fe::APCData(c),
                },
            ),
        ),
    )
}

/// The screen mode selected by the parameter `n` of `CSI ? n h` or `CSI ? n l`.
pub open spec fn screen_mode_spec(n: u16, set: bool) -> Option<ScreenMode> {
    if n == 0 {
        Some(ScreenMode::Monochrome40x25)
    } else if n == 1 {
        Some(ScreenMode::Color40x25)
    } else if n == 2 {
        Some(ScreenMode::Monochrome80x25)
    } else if n == 3 {
        Some(ScreenMode::Color80x25)
    } else if n == 4 {
        Some(ScreenMode::Graphics4Color320x200)
    } else if n == 5 {
        Some(ScreenMode::GraphicsMonochrome320x200)
    } else if n == 6 {
        Some(ScreenMode::GraphicsMonochrome640x200)
    } else if n == 7 {
        Some(ScreenMode::EnableLineWrapping)
    } else if n == 12 && !set {
        Some(ScreenMode::StopBlinkingCursor)
    } else if n == 13 {
        Some(ScreenMode::GraphicsColor320x200)
    } else if n == 14 {
        Some(ScreenMode::Graphics16Color640x200)
    } else if n == 15 {
        Some(ScreenMode::GraphicsMonochrome630x350)
    } else if n == 16 {
        Some(ScreenMode::Graphics16Color640x350)
    } else if n == 17 {
        Some(ScreenMode::GraphicsMonochrome640x480)
    } else if n == 18 {
        Some(ScreenMode::Graphics16Color640x480)
    } else if n == 19 {
        Some(ScreenMode::Graphics256Color320x200)
    } else {
        None
    }
}

/// The control sequence that mode `mode`, parameters `p` and final character `c` name,
/// when it carries no parameter list (`None` for a select-graphic or unknown sequence).
pub open spec fn csi_plain<'a>(mode: CsiMod, p: Seq<u16>, c: char) -> Option<CSI<'a>> {
    let n = p.len();
    if mode == CsiMod::Standard {
        if c == 'f' && n == 2 {
            Some(CSI::HorizontalVerticalPosition { line: p[0], col: p[1] })
        } else if (c == 'f' || c == 'H') && n == 0 {
            Some(CSI::CursorTo { line: 1, col: 1 })
        } else if c == 'H' && n == 2 {
            Some(CSI::CursorTo { line: p[0], col: p[1] })
        } else if c == 'A' && n <= 1 {
            Some(CSI::CursorUp(if n == 1 { p[0] } else { 1 }))
        } else if c == 'B' && n <= 1 {
            Some(CSI::CursorDown(if n == 1 { p[0] } else { 1 }))
        } else if c == 'C' && n <= 1 {
            Some(CSI::CursorRight(if n == 1 { p[0] } else { 1 }))
        } else if c == 'D' && n <= 1 {
            Some(CSI::CursorLeft(if n == 1 { p[0] } else { 1 }))
        } else if c == 'E' && n <= 1 {
            Some(CSI::CursorNextLine(if n == 1 { p[0] } else { 1 }))
        } else if c == 'F' && n <= 1 {
            Some(CSI::CursorPreviousLine(if n == 1 { p[0] } else { 1 }))
        } else if c == 'G' && n <= 1 {
            Some(CSI::CursorHorizontalAbsolute(if n == 1 { p[0] } else { 1 }))
        } else if c == 'd' && n <= 1 {
            Some(CSI::CursorLineAbsolute(if n == 1 { p[0] } else { 1 }))
        } else if c == 'J' && n == 0 {
            Some(CSI::EraseDisplay)
        } else if c == 'J' && n == 1 && p[0] == 0 {
            Some(CSI::EraseFromCursor)
        } else if c == 'J' && n == 1 && p[0] == 1 {
            Some(CSI::EraseToCursor)
        } else if c == 'J' && n == 1 && p[0] == 2 {
            Some(CSI::EraseScreen)
        } else if c == 'J' && n == 1 && p[0] == 3 {
            Some(CSI::EraseSavedLines)
        } else if c == 'K' && (n == 0 || (n == 1 && (p[0] == 0 || p[0] == 1))) {
            Some(CSI::EraseFromCursorToEndOfLine)
        } else if c == 'K' && n == 1 && p[0] == 2 {
            Some(CSI::EraseLine)
        } else if c == 'L' && n <= 1 {
            Some(CSI::InsertLines(if n == 1 { p[0] } else { 1 }))
        } else if c == 'M' && n <= 1 {
            Some(CSI::DeleteLines(if n == 1 { p[0] } else { 1 }))
        } else if c == 'i' && n == 1 && p[0] == 5 {
            Some(CSI::AuxPortOn)
        } else if c == 'i' && n == 1 && p[0] == 4 {
            Some(CSI::AuxPortOff)
        } else if c == 'n' && n == 1 && p[0] == 5 {
            Some(CSI::DeviceStatusReport)
        } else if c == 'n' && n == 1 && p[0] == 6 {
            Some(CSI::ReportCursorPosition)
        } else if c == 's' && n == 0 {
            Some(CSI::SaveCurrentCursorPosition)
        } else if c == 'u' && n == 0 {
            Some(CSI::RestoreCurrentCursorPosition)
        } else if c == 'r' && n == 2 {
            Some(CSI::SetScrollingRegion { top: p[0], bottom: p[1] })
        } else {
            None
        }
    } else if mode == CsiMod::Question && n == 1 && (c == 'h' || c == 'l') {
        let set = c == 'h';
        let v = p[0];
        if v == 25 {
            Some(if set { CSI::ShowCursor } else { CSI::HideCursor })
        } else if v == 1004 {
            Some(if set { CSI::EnableFocusReporting } else { CSI::DisableFocusReporting })
        } else if v == 47 {
            Some(if set { CSI::RestoreScreen } else { CSI::SaveScreen })
        } else if v == 1049 {
            Some(if set { CSI::EnableAlternativeBuffer } else { CSI::DisableAlternativeBuffer })
        } else {
            match screen_mode_spec(v, set) {
                Some(m) => Some(if set { CSI::ScreenMode(m) } else { CSI::ResetScreenMode(m) }),
                None => None,
            }
        }
    } else {
        None
    }
}

/// `r` is the control sequence that mode `mode`, parameters `p` and final character `c`
/// name: a select-graphic sequence carries the parameters (`0` when there are none), and
/// a sequence of no other kind is unknown and carries its parts.
pub open spec fn csi_result(mode: CsiMod, p: Seq<u16>, c: char, r: CSI) -> bool {
    if mode == CsiMod::Standard && c == 'm' {
        r matches CSI::SelectGraphicRendition(g) && g.0@ == (if p.len() == 0 {
            seq![0u16]
        } else {
            p
        })
    } else {
        match csi_plain(mode, p, c) {
            Some(x) => r == x,
            None => r matches CSI::Unknown { sequence, modifier, end } && sequence@ == p
                && modifier == mode && end == c,
        }
    }
}

/// The output of a finished control sequence.
pub open spec fn csi_out(out: Out, r: CSI) -> bool {
    out == Out::Ansi(Ansi::C1(C1::Fe(Fe::CSI(r))))
}

pub open spec fn is_digit(c: char) -> bool {
    '0' <= c <= '9'
}

impl ParserView {
    /// The state after a character inside a control sequence.
    pub open spec fn csi_next(self, n: nat, c: char) -> ParserView {
        if is_digit(c) {
            let size = (self.curr + 1) as u8;
            if self.curr < n {
                let v = self.nums[self.curr as int] * 10 + (c as u32 - '0' as u32);
                if v <= u16::MAX {
                    ParserView { size, nums: self.nums.update(self.curr as int, v as u16), ..self }
                } else {
                    ParserView { size, invalid: InvalidKind::IntegerOverflow, ..self }
                }
            } else {
                ParserView { size, invalid: InvalidKind::SequenceTooLarge, ..self }
            }
        } else if c == ';' {
            if self.curr < 255 {
                let curr = (self.curr + 1) as u8;
                if curr < n {
                    ParserView { curr, nums: self.nums.update(curr as int, 0), ..self }
                } else {
                    ParserView { curr, ..self }
                }
            } else {
                ParserView { invalid: InvalidKind::SequenceTooLarge, ..self }
            }
        } else {
            ParserView { state: State::Default, ..self }
        }
    }

    /// The output of a character inside a control sequence.
    pub open spec fn csi_out_ok(self, c: char, out: Out) -> bool {
        if is_digit(c) || c == ';' {
            out is Nothing
        } else {
            match self.invalid {
                InvalidKind::Valid => exists|r: CSI|
                    csi_out(out, r) && #[trigger] csi_result(
                        self.mode,
                        self.nums.subrange(0, self.size as int),
                        c,
                        r,
                    ),
                InvalidKind::IntegerOverflow => csi_out(out, CSI::IntegerOverflow),
                InvalidKind::SequenceTooLarge => csi_out(out, CSI::SequenceTooLarge),
            }
        }
    }

    /// The state after the character `c`; `n` is the parser's parameter capacity.
    pub open spec fn next(self, n: nat, c: char) -> ParserView {
        match self.state {
            State::Default => if c as u32 == 0x1b {
                ParserView {
                    state: State::Escape,
                    size: 0,
                    curr: 0,
                    nums: self.nums.update(0, 0),
                    invalid: InvalidKind::Valid,
                    ..self
                }
            } else {
                self
            },
            State::Escape => ParserView { state: escape_spec(c).1, ..self },
            State::CsiStart => if c == '=' {
                ParserView { state: State::Csi, mode: CsiMod::Equal, ..self }
            } else if c == '?' {
                ParserView { state: State::Csi, mode: CsiMod::Question, ..self }
            } else {
                ParserView { state: State::Csi, mode: CsiMod::Standard, ..self }.csi_next(n, c)
            },
            State::Csi => self.csi_next(n, c),
            State::String(k) => if c as u32 == 0x1b {
                ParserView { state: State::StringEcp(k), ..self }
            } else if self.extra is Some {
                ParserView { extra: Some(c), ..self }
            } else {
                self
            },
            State::StringEcp(k) => if c == '\\' {
                ParserView { state: State::Default, ..self }
            } else {
                ParserView { extra: Some(c), ..self }
            },
        }
    }

    /// `out` is what the parser in this state gives for the character `c`.
    pub open spec fn out_ok(self, c: char, out: Out) -> bool {
        match self.state {
            State::Default => if c as u32 == 0x1b {
                out is Nothing
            } else {
                match c0_spec(c as u32) {
                    Some(code) => out == Out::Ansi(Ansi::C0(code)),
                    None => out == Out::Data(c),
                }
            },
            State::Escape => out == escape_spec(c).0,
            State::CsiStart => if c == '=' || c == '?' {
                out is Nothing
            } else {
                ParserView { state: State::Csi, mode: CsiMod::Standard, ..self }.csi_out_ok(c, out)
            },
            State::Csi => self.csi_out_ok(c, out),
            State::String(k) => if c as u32 == 0x1b {
                match self.extra {
                    Some(prev) => out == string_data(k, prev),
                    None => out is Nothing,
                }
            } else {
                match self.extra {
                    Some(prev) => out == string_data(k, prev),
                    None => out == string_data(k, c),
                }
            },
            State::StringEcp(k) => if c == '\\' {
                out == Out::Ansi(Ansi::C1(C1::Fe(Fe::ST)))
            } else {
                out == string_data(k, 0x1b as char)
            },
        }
    }

    /// The inputs on which the parser would fail: an escape with no room for a
    /// parameter, or a digit after the 255th parameter separator.
    pub open spec fn fails_on(self, n: nat, c: char) -> bool {
        ||| (self.state == State::Default && c as u32 == 0x1b && n == 0)
        ||| ((self.state == State::Csi || (self.state == State::CsiStart && c != '=' && c != '?'))
            && is_digit(c) && self.curr == 255)
    }

    /// The parameters of a sequence fit the parser unless it has been marked too large.
    pub open spec fn wf(self, n: nat) -> bool {
        &&& self.nums.len() == n
        &&& self.invalid != InvalidKind::SequenceTooLarge ==> self.size <= n
    }
}

impl<const N: usize> Default for AnsiParser<N> {
    /// A parser in its initial state.
    fn default() -> (p: Self)
        ensures
            p.wf(),
            p@.state == State::Default,
            p@.curr == 0,
            p@.size == 0,
            p@.nums == Seq::new(N as nat, |i: int| 0u16),
            p@.mode == CsiMod::Standard,
            p@.invalid == InvalidKind::Valid,
            p@.extra is None,
    {
        Self::new()
    }
}

impl<const N: usize> AnsiParser<N> {
    pub open spec fn wf(&self) -> bool {
        self@.wf(N as nat)
    }

    /// A parser in its initial state.
    pub fn new() -> (p: Self)
        ensures
            p.wf(),
            p@.state == State::Default,
            p@.curr == 0,
            p@.size == 0,
            p@.nums == Seq::new(N as nat, |i: int| 0u16),
            p@.mode == CsiMod::Standard,
            p@.invalid == InvalidKind::Valid,
            p@.extra is None,
    {
        let p = AnsiParser {
            state: State::Default,
            curr: 0,
            size: 0,
            nums: [0; N],
            mode: CsiMod::Standard,
            invalid: InvalidKind::Valid,
            string_extra_char: None,
        };
        assert(p.nums@ =~= Seq::new(N as nat, |i: int| 0u16));
        p
    }

    /// Whether `next` can take `input` in the present state: not an escape when the
    /// parser keeps no parameters, and not one more digit after the last parameter slot
    /// that a `u8` counter can number.
    pub fn accepts(&self, input: char) -> (r: bool)
        ensures
            r == !self@.fails_on(N as nat, input),
    {
        let digit = '0' <= input && input <= '9';
        let in_csi = match self.state {
            State::Csi => true,
            State::CsiStart => input != '=' && input != '?',
            _ => false,
        };
        let esc_without_room = match self.state {
            State::Default => input as u32 == 0x1b && N == 0,
            _ => false,
        };
        !(esc_without_room || (in_csi && digit && self.curr == 255))
    }

    /// Feeds one character.
    pub fn next(&mut self, input: char) -> (out: Out<'_>)
        requires
            old(self).wf(),
            !old(self)@.fails_on(N as nat, input),
        ensures
            final(self).wf(),
            final(self)@ == old(self)@.next(N as nat, input),
            old(self)@.out_ok(input, out),
    {
        match self.state {
            State::Default => {
                if input as u32 == 0x1b {
                    self.state = State::Escape;
                    self.size = 0;
                    self.curr = 0;
                    self.nums[0] = 0;
                    self.invalid = InvalidKind::Valid;
                    Out::Nothing
                } else {
                    match c0_of(input) {
                        Some(code) => Out::Ansi(Ansi::C0(code)),
                        None => Out::Data(input),
                    }
                }
            },
            State::Escape => {
                let (out, st) = escape_of(input);
                self.state = st;
                out
            },
            State::CsiStart => {
                if input == '=' {
                    self.state = State::Csi;
                    self.mode = CsiMod::Equal;
                    Out::Nothing
                } else if input == '?' {
                    self.state = State::Csi;
                    self.mode = CsiMod::Question;
                    Out::Nothing
                } else {
                    self.state = State::Csi;
                    self.mode = CsiMod::Standard;
                    self.csi_char(input)
                }
            },
            State::Csi => self.csi_char(input),
            State::String(kind) => {
                if input as u32 == 0x1b {
                    self.state = State::StringEcp(kind);
                    match self.string_extra_char {
                        Some(previous) => string_out(kind, previous),
                        None => Out::Nothing,
                    }
                } else {
                    let c = match self.string_extra_char {
                        Some(previous) => {
                            self.string_extra_char = Some(input);
                            previous
                        },
                        None => input,
                    };
                    string_out(kind, c)
                }
            },
            State::StringEcp(kind) => {
                if input == '\\' {
                    self.state = State::Default;
                    Out::Ansi(Ansi::C1(C1::Fe(Fe::ST)))
                } else {
                    self.string_extra_char = Some(input);
                    string_out(kind, 0x1b as char)
                }
            },
        }
    }

    /// A character inside a control sequence, after its mode marker.
    fn csi_char(&mut self, input: char) -> (out: Out<'_>)
        requires
            old(self).wf(),
            old(self)@.state == State::Csi,
            !(is_digit(input) && old(self)@.curr == 255),
        ensures
            final(self).wf(),
            final(self)@ == old(self)@.csi_next(N as nat, input),
            old(self)@.csi_out_ok(input, out),
    {
        if '0' <= input && input <= '9' {
            self.size = self.curr + 1;
            let idx = self.curr as usize;
            if idx < N {
                let d = (input as u32 - '0' as u32) as u16;
                match self.nums[idx].checked_mul(10) {
                    Some(m) => match m.checked_add(d) {
                        Some(nv) => {
                            self.nums[idx] = nv;
                        },
                        None => {
                            self.invalid = InvalidKind::IntegerOverflow;
                        },
                    },
                    None => {
                        self.invalid = InvalidKind::IntegerOverflow;
                    },
                }
            } else {
                self.invalid = InvalidKind::SequenceTooLarge;
            }
            Out::Nothing
        } else if input == ';' {
            match self.curr.checked_add(1) {
                Some(next) => {
                    self.curr = next;
                    let idx = next as usize;
                    if idx < N {
                        self.nums[idx] = 0;
                    }
                },
                None => {
                    self.invalid = InvalidKind::SequenceTooLarge;
                },
            }
            Out::Nothing
        } else {
            self.state = State::Default;
            match self.invalid {
                InvalidKind::Valid => self.parse_csi(input),
                InvalidKind::IntegerOverflow => Out::Ansi(
                    Ansi::C1(C1::Fe(Fe::CSI(CSI::IntegerOverflow))),
                ),
                InvalidKind::SequenceTooLarge => Out::Ansi(
                    Ansi::C1(C1::Fe(Fe::CSI(CSI::SequenceTooLarge))),
                ),
            }
        }
    }

    /// The control sequence that ends with `c`.
    fn parse_csi(&self, c: char) -> (out: Out<'_>)
        requires
            self@.size <= N,
        ensures
            exists|r: CSI|
                csi_out(out, r) && #[trigger] csi_result(
                    self@.mode,
                    self@.nums.subrange(0, self@.size as int),
                    c,
                    r,
                ),
    {
        let size = self.size as usize;
        let params: &[u16] = &self.nums[0..size];
        let r = csi_of(self.mode, params, c);
        assert(params@ == self@.nums.subrange(0, self@.size as int));
        assert(csi_result(self@.mode, self@.nums.subrange(0, self@.size as int), c, r));
        Out::Ansi(Ansi::C1(C1::Fe(Fe::CSI(r))))
    }
}

/// The C0 code of a character, if it has one.
fn c0_of(c: char) -> (r: Option<C0>)
    requires
        c as u32 != 0x1b,
    ensures
        r == c0_spec(c as u32),
{
    let x = c as u32;
    if x == 0 {
        Some(C0::NUL)
    } else if x == 1 {
        Some(C0::SOH)
    } else if x == 2 {
        Some(C0::STX)
    } else if x == 3 {
        Some(C0::ETX)
    } else if x == 4 {
        Some(C0::EOT)
    } else if x == 5 {
        Some(C0::ENQ)
    } else if x == 6 {
        Some(C0::ACK)
    } else if x == 7 {
        Some(C0::BEL)
    } else if x == 8 {
        Some(C0::BS)
    } else if x == 9 {
        Some(C0::HT)
    } else if x == 10 {
        Some(C0::LF)
    } else if x == 11 {
        Some(C0::VT)
    } else if x == 12 {
        Some(C0::FF)
    } else if x == 13 {
        Some(C0::CR)
    } else if x == 14 {
        Some(C0::SO)
    } else if x == 15 {
        Some(C0::SI)
    } else if x == 16 {
        Some(C0::DLE)
    } else if x == 17 {
        Some(C0::DC1)
    } else if x == 18 {
        Some(C0::DC2)
    } else if x == 19 {
        Some(C0::DC3)
    } else if x == 20 {
        Some(C0::DC4)
    } else if x == 21 {
        Some(C0::NAK)
    } else if x == 22 {
        Some(C0::SYN)
    } else if x == 23 {
        Some(C0::ETB)
    } else if x == 24 {
        Some(C0::CAN)
    } else if x == 25 {
        Some(C0::EM)
    } else if x == 26 {
        Some(C0::SUB)
    } else if x == 28 {
        Some(C0::FS)
    } else if x == 29 {
        Some(C0::GS)
    } else if x == 30 {
        Some(C0::RS)
    } else if x == 31 {
        Some(C0::US)
    } else if x == 32 {
        Some(C0::SP)
    } else if x == 127 {
        Some(C0::DEL)
    } else {
        None
    }
}

fn fp_of(c: char) -> (r: Fp)
    requires
        0x30 <= c as u32 <= 0x3F,
    ensures
        r == fp_spec(c),
{
    if c == '7' {
        Fp::DECSC
    } else if c == '8' {
        Fp::DECRC
    } else if c == '9' {
        Fp::DECFI
    } else if c == '=' {
        Fp::DECKPAM
    } else if c == '>' {
        Fp::DECKPNM
    } else {
        Fp::Unknown(c as u8)
    }
}

fn fs_of(c: char) -> (r: Fs)
    requires
        0x60 <= c as u32 <= 0x7E,
    ensures
        r == fs_spec(c),
{
    if c == '`' {
        Fs::DMI
    } else if c == 'a' {
        Fs::INT
    } else if c == 'b' {
        Fs::EMI
    } else if c == 'c' {
        Fs::RIS
    } else if c == 'd' {
        Fs::CMD
    } else if c == 'l' {
        Fs::LCKMEM
    } else if c == 'm' {
        Fs::ULKMEM
    } else if c == 'n' {
        Fs::LS2
    } else if c == 'o' {
        Fs::LS3
    } else if c == '|' {
        Fs::LS3R
    } else if c == '}' {
        Fs::LS2R
    } else if c == '~' {
        Fs::LS1R
    } else {
        Fs::Unknown(c as u8)
    }
}

fn fe_of<'a>(c: char) -> (r: (Option<Fe<'a>>, State))
    requires
        0x40 <= c as u32 <= 0x5F,
    ensures
        r == fe_spec::<'a>(c),
{
    if c == '@' {
        (Some(Fe::PAD), State::Default)
    } else if c == 'A' {
        (Some(Fe::HOP), State::Default)
    } else if c == 'B' {
        (Some(Fe::BPH), State::Default)
    } else if c == 'C' {
        (Some(Fe::NBH), State::Default)
    } else if c == 'D' {
        (Some(Fe::IND), State::Default)
    } else if c == 'E' {
        (Some(Fe::NEL), State::Default)
    } else if c == 'F' {
        (Some(Fe::SSA), State::Default)
    } else if c == 'G' {
        (Some(Fe::ESA), State::Default)
    } else if c == 'H' {
        (Some(Fe::HTS), State::Default)
    } else if c == 'I' {
        (Some(Fe::HTJ), State::Default)
    } else if c == 'J' {
        (Some(Fe::VTS), State::Default)
    } else if c == 'K' {
        (Some(Fe::PLD), State::Default)
    } else if c == 'L' {
        (Some(Fe::PLU), State::Default)
    } else if c == 'M' {
        (Some(Fe::RI), State::Default)
    } else if c == 'N' {
        (Some(Fe::SS2), State::Default)
    } else if c == 'O' {
        (Some(Fe::SS3), State::Default)
    } else if c == 'P' {
        (Some(Fe::DCS), State::String(StringKind::DeviceControl))
    } else if c == 'Q' {
        (Some(Fe::PU1), State::Default)
    } else if c == 'R' {
        (Some(Fe::PU2), State::Default)
    } else if c == 'S' {
        (Some(Fe::STS), State::Default)
    } else if c == 'T' {
        (Some(Fe::CCH), State::Default)
    } else if c == 'U' {
        (Some(Fe::MW), State::Default)
    } else if c == 'V' {
        (Some(Fe::SPA), State::Default)
    } else if c == 'W' {
        (Some(Fe::EPA), State::Default)
    } else if c == 'X' {
        (Some(Fe::SOS), State::String(StringKind::Regular))
    } else if c == 'Y' {
        (Some(Fe::SGCI), State::Default)
    } else if c == 'Z' {
        (Some(Fe::SCI), State::Default)
    } else if c == '[' {
        (None, State::CsiStart)
    } else if c == '\\' {
        (Some(Fe::ST), State::Default)
    } else if c == ']' {
        (Some(Fe::OSC), State::String(StringKind::Os))
    } else if c == '^' {
        (Some(Fe::PM), State::String(StringKind::Privacy))
    } else {
        (Some(Fe::APC), State::String(StringKind::ApplicationProgramCommand))
    }
}

fn escape_of<'a>(c: char) -> (r: (Out<'a>, State))
    ensures
        r == escape_spec::<'a>(c),
{
    let x = c as u32;
    if 0x20 <= x && x <= 0x2F {
        (Out::Nothing, State::Default)
    } else if 0x30 <= x && x <= 0x3F {
        (Out::Ansi(Ansi::C1(C1::Fp(fp_of(c)))), State::Default)
    } else if 0x40 <= x && x <= 0x5F {
        let (fe, st) = fe_of(c);
        match fe {
            Some(fe) => (Out::Ansi(Ansi::C1(C1::Fe(fe))), st),
            None => (Out::Nothing, st),
        }
    } else if 0x60 <= x && x <= 0x7E {
        (Out::Ansi(Ansi::C1(C1::Fs(fs_of(c)))), State::Default)
    } else {
        (Out::Ansi(Ansi::C1(C1::Invalid(c))), State::Default)
    }
}

fn string_out<'a>(k: StringKind, c: char) -> (r: Out<'a>)
    ensures
        r == string_data::<'a>(k, c),
{
    Out::Ansi(
        Ansi::C1(
            C1::Fe(
                match k {
                    StringKind::DeviceControl => Fe::DCSData(c),
                    StringKind::Regular => Fe::SData(c),
                    StringKind::Os => Fe::OSData(c),
                    StringKind::Privacy => Fe::PMData(c),
                    StringKind::ApplicationProgramCommand => Fe::APCData(c),
                },
            ),
        ),
    )
}

fn screen_mode_of(n: u16, set: bool) -> (r: Option<ScreenMode>)
    ensures
        r == screen_mode_spec(n, set),
{
    if n == 0 {
        Some(ScreenMode::Monochrome40x25)
    } else if n == 1 {
        Some(ScreenMode::Color40x25)
    } else if n == 2 {
        Some(ScreenMode::Monochrome80x25)
    } else if n == 3 {
        Some(ScreenMode::Color80x25)
    } else if n == 4 {
        Some(ScreenMode::Graphics4Color320x200)
    } else if n == 5 {
        Some(ScreenMode::GraphicsMonochrome320x200)
    } else if n == 6 {
        Some(ScreenMode::GraphicsMonochrome640x200)
    } else if n == 7 {
        Some(ScreenMode::EnableLineWrapping)
    } else if n == 12 && !set {
        Some(ScreenMode::StopBlinkingCursor)
    } else if n == 13 {
        Some(ScreenMode::GraphicsColor320x200)
    } else if n == 14 {
        Some(ScreenMode::Graphics16Color640x200)
    } else if n == 15 {
        Some(ScreenMode::GraphicsMonochrome630x350)
    } else if n == 16 {
        Some(ScreenMode::Graphics16Color640x350)
    } else if n == 17 {
        Some(ScreenMode::GraphicsMonochrome640x480)
    } else if n == 18 {
        Some(ScreenMode::Graphics16Color640x480)
    } else if n == 19 {
        Some(ScreenMode::Graphics256Color320x200)
    } else {
        None
    }
}

/// The parameter list of a select-graphic sequence with no parameters.
fn default_sgr_params() -> (r: &'static [u16])
    ensures
        r@ == seq![0u16],
{
    let a: &'static [u16; 1] = &[0u16];
    let r: &'static [u16] = a.as_slice();
    assert(r@ =~= seq![0u16]);
    r
}

fn csi_of<'a>(mode: CsiMod, p: &'a [u16], c: char) -> (r: CSI<'a>)
    ensures
        csi_result(mode, p@, c, r),
{
    let n = p.len();
    if mode == CsiMod::Standard {
        if c == 'm' {
            return if n == 0 {
                CSI::SelectGraphicRendition(GraphicsRendition(default_sgr_params()))
            } else {
                CSI::SelectGraphicRendition(GraphicsRendition(p))
            };
        }
        if c == 'f' && n == 2 {
            CSI::HorizontalVerticalPosition { line: p[0], col: p[1] }
        } else if (c == 'f' || c == 'H') && n == 0 {
            CSI::CursorTo { line: 1, col: 1 }
        } else if c == 'H' && n == 2 {
            CSI::CursorTo { line: p[0], col: p[1] }
        } else if c == 'A' && n <= 1 {
            CSI::CursorUp(if n == 1 { p[0] } else { 1 })
        } else if c == 'B' && n <= 1 {
            CSI::CursorDown(if n == 1 { p[0] } else { 1 })
        } else if c == 'C' && n <= 1 {
            CSI::CursorRight(if n == 1 { p[0] } else { 1 })
        } else if c == 'D' && n <= 1 {
            CSI::CursorLeft(if n == 1 { p[0] } else { 1 })
        } else if c == 'E' && n <= 1 {
            CSI::CursorNextLine(if n == 1 { p[0] } else { 1 })
        } else if c == 'F' && n <= 1 {
            CSI::CursorPreviousLine(if n == 1 { p[0] } else { 1 })
        } else if c == 'G' && n <= 1 {
            CSI::CursorHorizontalAbsolute(if n == 1 { p[0] } else { 1 })
        } else if c == 'd' && n <= 1 {
            CSI::CursorLineAbsolute(if n == 1 { p[0] } else { 1 })
        } else if c == 'J' && n == 0 {
            CSI::EraseDisplay
        } else if c == 'J' && n == 1 && p[0] == 0 {
            CSI::EraseFromCursor
        } else if c == 'J' && n == 1 && p[0] == 1 {
            CSI::EraseToCursor
        } else if c == 'J' && n == 1 && p[0] == 2 {
            CSI::EraseScreen
        } else if c == 'J' && n == 1 && p[0] == 3 {
            CSI::EraseSavedLines
        } else if c == 'K' && (n == 0 || (n == 1 && (p[0] == 0 || p[0] == 1))) {
            CSI::EraseFromCursorToEndOfLine
        } else if c == 'K' && n == 1 && p[0] == 2 {
            CSI::EraseLine
        } else if c == 'L' && n <= 1 {
            CSI::InsertLines(if n == 1 { p[0] } else { 1 })
        } else if c == 'M' && n <= 1 {
            CSI::DeleteLines(if n == 1 { p[0] } else { 1 })
        } else if c == 'i' && n == 1 && p[0] == 5 {
            CSI::AuxPortOn
        } else if c == 'i' && n == 1 && p[0] == 4 {
            CSI::AuxPortOff
        } else if c == 'n' && n == 1 && p[0] == 5 {
            CSI::DeviceStatusReport
        } else if c == 'n' && n == 1 && p[0] == 6 {
            CSI::ReportCursorPosition
        } else if c == 's' && n == 0 {
            CSI::SaveCurrentCursorPosition
        } else if c == 'u' && n == 0 {
            CSI::RestoreCurrentCursorPosition
        } else if c == 'r' && n == 2 {
            CSI::SetScrollingRegion { top: p[0], bottom: p[1] }
        } else {
            CSI::Unknown { sequence: p, modifier: mode, end: c }
        }
    } else if mode == CsiMod::Question && n == 1 && (c == 'h' || c == 'l') {
        let set = c == 'h';
        let v = p[0];
        if v == 25 {
            if set {
                CSI::ShowCursor
            } else {
                CSI::HideCursor
            }
        } else if v == 1004 {
            if set {
                CSI::EnableFocusReporting
            } else {
                CSI::DisableFocusReporting
            }
        } else if v == 47 {
            if set {
                CSI::RestoreScreen
            } else {
                CSI::SaveScreen
            }
        } else if v == 1049 {
            if set {
                CSI::EnableAlternativeBuffer
            } else {
                CSI::DisableAlternativeBuffer
            }
        } else {
            match screen_mode_of(v, set) {
                Some(m) => if set {
                    CSI::ScreenMode(m)
                } else {
                    CSI::ResetScreenMode(m)
                },
                None => CSI::Unknown { sequence: p, modifier: mode, end: c },
            }
        }
    } else {
        CSI::Unknown { sequence: p, modifier: mode, end: c }
    }
}

} // verus!

verus! {

/// The characters of the decimal numeral of `k`, most significant first.
pub open spec fn decimal(k: nat) -> Seq<char>
    decreases k,
{
    if k < 10 {
        seq![digit_char(k)]
    } else {
        decimal(k / 10).push(digit_char(k % 10))
    }
}

pub open spec fn digit_char(d: nat) -> char {
    (('0' as u32) + d) as char
}

impl ParserView {
    /// The state after feeding every character of `s` in turn.
    pub open spec fn feed(self, n: nat, s: Seq<char>) -> ParserView
        decreases s.len(),
    {
        if s.len() == 0 {
            self
        } else {
            self.next(n, s[0]).feed(n, s.drop_first())
        }
    }
}

proof fn lemma_feed_push(v: ParserView, n: nat, s: Seq<char>, c: char)
    ensures
        v.feed(n, s.push(c)) == v.feed(n, s).next(n, c),
    decreases s.len(),
{
    if s.len() == 0 {
        assert(s.push(c).drop_first() =~= Seq::<char>::empty());
        assert(s.push(c)[0] == c);
        assert(v.feed(n, s.push(c)) == v.next(n, c).feed(n, Seq::<char>::empty()));
        assert(v.feed(n, s) == v);
    } else {
        assert(s.push(c).drop_first() =~= s.drop_first().push(c));
        lemma_feed_push(v.next(n, s[0]), n, s.drop_first(), c);
    }
}

/// The law of a control sequence with one numeric parameter: from the default state,
/// 0x1b '[' followed by the decimal numeral of `k` (at most 65535) and a final character
/// `c` gives the control sequence that `c` names with the single parameter `k`, and the
/// parser is back in its default state.
pub proof fn law_csi_single_parameter(v: ParserView, n: nat, k: nat, c: char)
    requires
        v.wf(n),
        v.state == State::Default,
        n >= 1,
        k <= u16::MAX,
        !is_digit(c),
        c != ';',
        c != '=',
        c != '?',
    ensures
        ({
            let w = v.feed(n, seq![0x1b as char, '['].add(decimal(k)));
            &&& w.next(n, c).state == State::Default
            &&& forall|out: Out| #[trigger] w.out_ok(c, out) <==> exists|r: CSI|
                csi_out(out, r) && #[trigger] csi_result(CsiMod::Standard, seq![k as u16], c, r)
        }),
{
    let esc = 0x1b as char;
    let v1 = v.next(n, esc);
    let v2 = v1.next(n, '[');
    assert(v1.state == State::Escape);
    assert(escape_spec::<'static>('[').1 == State::CsiStart);
    assert(v2.state == State::CsiStart);
    let d = decimal(k);
    assert(d.len() > 0) by {
        if k >= 10 {
        }
    }
    lemma_decimal_first_is_digit(k);
    let v3 = v2.next(n, d[0]);
    // the first digit moves to reading parameters in the standard mode
    let v2s = ParserView { state: State::Csi, mode: CsiMod::Standard, ..v2 };
    assert(v3 == v2s.csi_next(n, d[0]));
    assert(v2s.feed(n, d) == v2.feed(n, d)) by {
        assert(v2s.next(n, d[0]) == v2.next(n, d[0]));
    }
    lemma_feed_decimal_at(v2s, n, 0, k);
    let s = seq![esc, '['].add(d);
    assert(s.drop_first() =~= seq!['['].add(d));
    assert(seq!['['].add(d).drop_first() =~= d);
    assert(s[0] == esc);
    assert(seq!['['].add(d)[0] == '[');
    assert(v.feed(n, s) == v1.feed(n, seq!['['].add(d)));
    assert(v1.feed(n, seq!['['].add(d)) == v2.feed(n, d));
    assert(v.feed(n, s) == v2.feed(n, d));
    let w = v.feed(n, s);
    assert(w.nums.subrange(0, w.size as int) =~= seq![k as u16]);
}

proof fn lemma_digit_char(d: nat)
    requires
        d < 10,
    ensures
        digit_char(d) as u32 == 48 + d,
        is_digit(digit_char(d)),
{
}

proof fn lemma_decimal_first_is_digit(k: nat)
    ensures
        decimal(k).len() > 0,
        is_digit(decimal(k)[0]),
    decreases k,
{
    if k >= 10 {
        lemma_decimal_first_is_digit(k / 10);
    }
}

/// Characters that are not control codes pass through the default state as data and
/// leave the parser as it was.
pub proof fn law_data_passes_through(v: ParserView, n: nat, c: char)
    requires
        v.state == State::Default,
        c as u32 > 32,
        c as u32 != 127,
    ensures
        v.next(n, c) == v,
        v.out_ok(c, Out::Data(c)),
{
}

/// A control string ends with 0x1b '\\': the parser answers with the string terminator
/// and is back in its default state.
pub proof fn law_string_terminator(v: ParserView, n: nat, k: StringKind)
    requires
        v.state == State::String(k),
    ensures
        v.next(n, 0x1b as char).next(n, '\\').state == State::Default,
        v.next(n, 0x1b as char).out_ok('\\', Out::Ansi(Ansi::C1(C1::Fe(Fe::ST)))),
{
}

/// The defaults of a control sequence written without parameters (`ESC [ c`): from the
/// default state, `H` and `f` put the cursor at line 1, column 1; `A` to `G`, `d`, `L`
/// and `M` move or edit by 1; `J` erases the display, `K` to the end of the line; `s` and
/// `u` save and restore the cursor; `m` resets the graphics (its one parameter is 0); the
/// parser is back in its default state.
pub proof fn law_csi_no_parameters(v: ParserView, n: nat, c: char)
    requires
        v.state == State::Default,
        !is_digit(c),
        c != ';',
        c != '=',
        c != '?',
    ensures
        ({
            let w = v.next(n, 0x1b as char).next(n, '[');
            &&& w.next(n, c).state == State::Default
            &&& forall|out: Out| #[trigger] w.out_ok(c, out) <==> exists|r: CSI|
                csi_out(out, r) && #[trigger] csi_result(CsiMod::Standard, Seq::<u16>::empty(), c, r)
        }),
        forall|r: CSI| #[trigger] csi_result(CsiMod::Standard, Seq::<u16>::empty(), c, r) ==> {
            &&& (c == 'H' || c == 'f') ==> r == CSI::CursorTo { line: 1, col: 1 }
            &&& c == 'A' ==> r == CSI::CursorUp(1)
            &&& c == 'B' ==> r == CSI::CursorDown(1)
            &&& c == 'C' ==> r == CSI::CursorRight(1)
            &&& c == 'D' ==> r == CSI::CursorLeft(1)
            &&& c == 'E' ==> r == CSI::CursorNextLine(1)
            &&& c == 'F' ==> r == CSI::CursorPreviousLine(1)
            &&& c == 'G' ==> r == CSI::CursorHorizontalAbsolute(1)
            &&& c == 'd' ==> r == CSI::CursorLineAbsolute(1)
            &&& c == 'L' ==> r == CSI::InsertLines(1)
            &&& c == 'M' ==> r == CSI::DeleteLines(1)
            &&& c == 'J' ==> r == CSI::EraseDisplay
            &&& c == 'K' ==> r == CSI::EraseFromCursorToEndOfLine
            &&& c == 's' ==> r == CSI::SaveCurrentCursorPosition
            &&& c == 'u' ==> r == CSI::RestoreCurrentCursorPosition
            &&& c == 'm' ==> (r matches CSI::SelectGraphicRendition(g) && g.0@ == seq![0u16]
                && sgr_step(g.0@) == (Some(SelectGraphic::Reset), 1int))
        },
{
    let w = v.next(n, 0x1b as char).next(n, '[');
    assert(escape_spec::<'static>('[').1 == State::CsiStart);
    assert(w.state == State::CsiStart);
    assert(w.size == 0);
    assert(w.nums.subrange(0, 0) =~= Seq::<u16>::empty());
    assert forall|r: CSI| #[trigger] csi_result(CsiMod::Standard, Seq::<u16>::empty(), c, r) implies {
        &&& c == 'm' ==> (r matches CSI::SelectGraphicRendition(g) && g.0@ == seq![0u16]
            && sgr_step(g.0@) == (Some(SelectGraphic::Reset), 1int))
    } by {
        if c == 'm' {
            let g = r->SelectGraphicRendition_0;
            assert(g.0@ == seq![0u16]);
            assert(g.0@[0] == 0);
        }
    }
}

/// A control sequence that names nothing the parser knows comes out as unknown and
/// carries its parts as they were read: its parameters, its modifier and its final
/// character; the parser is back in its default state.
pub proof fn law_csi_unknown_passes_parts(v: ParserView, n: nat, c: char)
    requires
        v.state == State::Csi,
        v.invalid == InvalidKind::Valid,
        !is_digit(c),
        c != ';',
        !(v.mode == CsiMod::Standard && c == 'm'),
        csi_plain(v.mode, v.nums.subrange(0, v.size as int), c) is None,
    ensures
        v.next(n, c).state == State::Default,
        forall|out: Out| #[trigger] v.out_ok(c, out) <==> exists|r: CSI|
            csi_out(out, r) && #[trigger] csi_result(v.mode, v.nums.subrange(0, v.size as int), c, r),
        forall|r: CSI| #[trigger] csi_result(v.mode, v.nums.subrange(0, v.size as int), c, r) <==> (
        r matches CSI::Unknown { sequence, modifier, end } && sequence@ == v.nums.subrange(0, v.size as int)
            && modifier == v.mode && end == c),
{
}

/// The one-parameter cursor and line sequences carry their parameter: from the default
/// state, 0x1b '[' followed by the decimal numeral of `k` and then `A`, `B`, `C`, `D`,
/// `E`, `F`, `G`, `d`, `L` or `M` gives exactly the cursor move up, down, right, left, to
/// the next or previous line, to the column, to the line, or the insertion or deletion of
/// lines, by `k`.
pub proof fn law_csi_moves_by_parameter(v: ParserView, n: nat, k: nat, c: char)
    requires
        v.wf(n),
        v.state == State::Default,
        n >= 1,
        k <= u16::MAX,
        c == 'A' || c == 'B' || c == 'C' || c == 'D' || c == 'E' || c == 'F' || c == 'G' || c == 'd'
            || c == 'L' || c == 'M',
    ensures
        ({
            let w = v.feed(n, seq![0x1b as char, '['].add(decimal(k)));
            let x = k as u16;
            let expected = if c == 'A' {
                CSI::CursorUp(x)
            } else if c == 'B' {
                CSI::CursorDown(x)
            } else if c == 'C' {
                CSI::CursorRight(x)
            } else if c == 'D' {
                CSI::CursorLeft(x)
            } else if c == 'E' {
                CSI::CursorNextLine(x)
            } else if c == 'F' {
                CSI::CursorPreviousLine(x)
            } else if c == 'G' {
                CSI::CursorHorizontalAbsolute(x)
            } else if c == 'd' {
                CSI::CursorLineAbsolute(x)
            } else if c == 'L' {
                CSI::InsertLines(x)
            } else {
                CSI::DeleteLines(x)
            };
            &&& w.next(n, c).state == State::Default
            &&& forall|out: Out| #[trigger] w.out_ok(c, out) <==> out == Out::Ansi(Ansi::C1(C1::Fe(Fe::CSI(expected))))
        }),
{
    law_csi_single_parameter(v, n, k, c);
    let w = v.feed(n, seq![0x1b as char, '['].add(decimal(k)));
    let p = seq![k as u16];
    assert(p.len() == 1 && p[0] == k as u16);
    assert forall|out: Out| #[trigger] w.out_ok(c, out) implies out == Out::Ansi(Ansi::C1(C1::Fe(Fe::CSI(
        if c == 'A' { CSI::CursorUp(k as u16) } else if c == 'B' { CSI::CursorDown(k as u16) } else if c == 'C' {
            CSI::CursorRight(k as u16) } else if c == 'D' { CSI::CursorLeft(k as u16) } else if c == 'E' {
            CSI::CursorNextLine(k as u16) } else if c == 'F' { CSI::CursorPreviousLine(k as u16) } else if c == 'G' {
            CSI::CursorHorizontalAbsolute(k as u16) } else if c == 'd' { CSI::CursorLineAbsolute(k as u16) }
        else if c == 'L' { CSI::InsertLines(k as u16) } else { CSI::DeleteLines(k as u16) })))) by {
        let r = choose|r: CSI| csi_out(out, r) && #[trigger] csi_result(CsiMod::Standard, p, c, r);
        assert(csi_result(CsiMod::Standard, p, c, r));
    }
    let e = if c == 'A' { CSI::CursorUp(k as u16) } else if c == 'B' { CSI::CursorDown(k as u16) } else if c == 'C' {
        CSI::CursorRight(k as u16) } else if c == 'D' { CSI::CursorLeft(k as u16) } else if c == 'E' {
        CSI::CursorNextLine(k as u16) } else if c == 'F' { CSI::CursorPreviousLine(k as u16) } else if c == 'G' {
        CSI::CursorHorizontalAbsolute(k as u16) } else if c == 'd' { CSI::CursorLineAbsolute(k as u16) }
    else if c == 'L' { CSI::InsertLines(k as u16) } else { CSI::DeleteLines(k as u16) };
    assert(csi_result(CsiMod::Standard, p, c, e));
    assert forall|out: Out| out == Out::Ansi(Ansi::C1(C1::Fe(Fe::CSI(e)))) implies #[trigger] w.out_ok(c, out) by {
        assert(csi_out(out, e) && csi_result(CsiMod::Standard, p, c, e));
    }
}

/// The C0 controls are the characters whose code is their number: from the default
/// state, 0 gives `NUL`, 1 `SOH`, and so on in the order of the C0 table up to 26 `SUB`
/// (22 `SYN`), then 28 to 31 `FS`, `GS`, `RS`, `US`, 32 `SP` and 127 `DEL`; every other
/// character but the escape comes out as data; the parser stays in its default state.
pub proof fn law_c0_codes(v: ParserView, n: nat, c: char)
    requires
        v.state == State::Default,
        c as u32 != 0x1b,
    ensures
        v.next(n, c) == v,
        ({
            let x = c as u32;
            let expected =             if x == 0 {
                    Out::Ansi(Ansi::C0(C0::NUL))
                } else if x == 1 {
                    Out::Ansi(Ansi::C0(C0::SOH))
                } else if x == 2 {
                    Out::Ansi(Ansi::C0(C0::STX))
                } else if x == 3 {
                    Out::Ansi(Ansi::C0(C0::ETX))
                } else if x == 4 {
                    Out::Ansi(Ansi::C0(C0::EOT))
                } else if x == 5 {
                    Out::Ansi(Ansi::C0(C0::ENQ))
                } else if x == 6 {
                    Out::Ansi(Ansi::C0(C0::ACK))
                } else if x == 7 {
                    Out::Ansi(Ansi::C0(C0::BEL))
                } else if x == 8 {
                    Out::Ansi(Ansi::C0(C0::BS))
                } else if x == 9 {
                    Out::Ansi(Ansi::C0(C0::HT))
                } else if x == 10 {
                    Out::Ansi(Ansi::C0(C0::LF))
                } else if x == 11 {
                    Out::Ansi(Ansi::C0(C0::VT))
                } else if x == 12 {
                    Out::Ansi(Ansi::C0(C0::FF))
                } else if x == 13 {
                    Out::Ansi(Ansi::C0(C0::CR))
                } else if x == 14 {
                    Out::Ansi(Ansi::C0(C0::SO))
                } else if x == 15 {
                    Out::Ansi(Ansi::C0(C0::SI))
                } else if x == 16 {
                    Out::Ansi(Ansi::C0(C0::DLE))
                } else if x == 17 {
                    Out::Ansi(Ansi::C0(C0::DC1))
                } else if x == 18 {
                    Out::Ansi(Ansi::C0(C0::DC2))
                } else if x == 19 {
                    Out::Ansi(Ansi::C0(C0::DC3))
                } else if x == 20 {
                    Out::Ansi(Ansi::C0(C0::DC4))
                } else if x == 21 {
                    Out::Ansi(Ansi::C0(C0::NAK))
                } else if x == 22 {
                    Out::Ansi(Ansi::C0(C0::SYN))
                } else if x == 23 {
                    Out::Ansi(Ansi::C0(C0::ETB))
                } else if x == 24 {
                    Out::Ansi(Ansi::C0(C0::CAN))
                } else if x == 25 {
                    Out::Ansi(Ansi::C0(C0::EM))
                } else if x == 26 {
                    Out::Ansi(Ansi::C0(C0::SUB))
                } else if x == 28 {
                    Out::Ansi(Ansi::C0(C0::FS))
                } else if x == 29 {
                    Out::Ansi(Ansi::C0(C0::GS))
                } else if x == 30 {
                    Out::Ansi(Ansi::C0(C0::RS))
                } else if x == 31 {
                    Out::Ansi(Ansi::C0(C0::US))
                } else if x == 32 {
                    Out::Ansi(Ansi::C0(C0::SP))
                } else if x == 127 {
                    Out::Ansi(Ansi::C0(C0::DEL))
                } else {
                    Out::Data(c)
                };
            forall|out: Out| #[trigger] v.out_ok(c, out) <==> out == expected
        }),
{
}

/// Feeding the numeral of `k` to a control sequence that is reading its parameter `i`
/// (which holds 0) leaves `k` there.
proof fn lemma_feed_decimal_at(v: ParserView, n: nat, i: u8, k: nat)
    requires
        v.state == State::Csi,
        v.curr == i,
        i < 255,
        v.invalid == InvalidKind::Valid,
        (i as nat) < n,
        v.nums.len() == n,
        v.nums[i as int] == 0,
        k <= u16::MAX,
    ensures
        ({
            let w = v.feed(n, decimal(k));
            &&& w.state == State::Csi
            &&& w.curr == i
            &&& w.size == i + 1
            &&& w.invalid == InvalidKind::Valid
            &&& w.mode == v.mode
            &&& w.nums == v.nums.update(i as int, k as u16)
        }),
    decreases k,
{
    if k < 10 {
        lemma_digit_char(k);
        let dc = digit_char(k);
        assert(decimal(k) =~= seq![dc]);
        assert(seq![dc].drop_first() =~= Seq::<char>::empty());
        assert(v.feed(n, seq![dc]) == v.next(n, dc).feed(n, Seq::<char>::empty()));
        assert(v.next(n, dc) == v.csi_next(n, dc));
        assert(v.nums[i as int] * 10 + (dc as u32 - '0' as u32) == k);
    } else {
        lemma_feed_decimal_at(v, n, i, k / 10);
        lemma_feed_push(v, n, decimal(k / 10), digit_char(k % 10));
        lemma_digit_char(k % 10);
        let dc = digit_char(k % 10);
        let w = v.feed(n, decimal(k / 10));
        assert(w.nums[i as int] == (k / 10) as u16);
        assert((k / 10) * 10 + k % 10 == k);
        assert(w.nums[i as int] * 10 + (dc as u32 - '0' as u32) == k);
        assert(w.next(n, dc) == w.csi_next(n, dc));
        assert(w.nums.update(i as int, k as u16) =~= v.nums.update(i as int, k as u16));
    }
}

/// The state after 0x1b '[' and the numeral of `a`, from the default state.
proof fn lemma_first_parameter(v: ParserView, n: nat, a: nat)
    requires
        v.wf(n),
        v.state == State::Default,
        n >= 1,
        a <= u16::MAX,
    ensures
        ({
            let w = v.feed(n, seq![0x1b as char, '['].add(decimal(a)));
            &&& w.state == State::Csi
            &&& w.curr == 0
            &&& w.size == 1
            &&& w.invalid == InvalidKind::Valid
            &&& w.mode == CsiMod::Standard
            &&& w.nums == v.nums.update(0, a as u16)
        }),
{
    let esc = 0x1b as char;
    let v1 = v.next(n, esc);
    let v2 = v1.next(n, '[');
    assert(escape_spec::<'static>('[').1 == State::CsiStart);
    let d = decimal(a);
    lemma_decimal_first_is_digit(a);
    let v2s = ParserView { state: State::Csi, mode: CsiMod::Standard, ..v2 };
    assert(v2s.feed(n, d) == v2.feed(n, d)) by {
        assert(v2s.next(n, d[0]) == v2.next(n, d[0]));
    }
    lemma_feed_decimal_at(v2s, n, 0, a);
    let s = seq![esc, '['].add(d);
    assert(s.drop_first() =~= seq!['['].add(d));
    assert(seq!['['].add(d).drop_first() =~= d);
    assert(s[0] == esc);
    assert(seq!['['].add(d)[0] == '[');
    assert(v.feed(n, s) == v1.feed(n, seq!['['].add(d)));
    assert(v1.feed(n, seq!['['].add(d)) == v2.feed(n, d));
    assert(v2.nums.update(0, a as u16) =~= v.nums.update(0, a as u16));
}

proof fn lemma_feed_concat(v: ParserView, n: nat, a: Seq<char>, b: Seq<char>)
    ensures
        v.feed(n, a + b) == v.feed(n, a).feed(n, b),
    decreases a.len(),
{
    if a.len() > 0 {
        assert((a + b).drop_first() =~= a.drop_first() + b);
        assert((a + b)[0] == a[0]);
        lemma_feed_concat(v.next(n, a[0]), n, a.drop_first(), b);
    } else {
        assert(a + b =~= b);
    }
}

/// The two-parameter sequences keep their parameters in order: from the default state,
/// 0x1b '[' followed by the numeral of `a`, ';', the numeral of `b` and then `H` puts the
/// cursor at line `a`, column `b`; `f` gives the same position as a horizontal and
/// vertical position; `r` sets the scrolling region from line `a` to line `b`.
pub proof fn law_csi_two_parameters(v: ParserView, n: nat, a: nat, b: nat, c: char)
    requires
        v.wf(n),
        v.state == State::Default,
        n >= 2,
        a <= u16::MAX,
        b <= u16::MAX,
        c == 'H' || c == 'f' || c == 'r',
    ensures
        ({
            let w = v.feed(n, seq![0x1b as char, '['].add(decimal(a)).push(';').add(decimal(b)));
            let expected = if c == 'H' {
                CSI::CursorTo { line: a as u16, col: b as u16 }
            } else if c == 'f' {
                CSI::HorizontalVerticalPosition { line: a as u16, col: b as u16 }
            } else {
                CSI::SetScrollingRegion { top: a as u16, bottom: b as u16 }
            };
            &&& w.next(n, c).state == State::Default
            &&& forall|out: Out| #[trigger] w.out_ok(c, out) <==> out == Out::Ansi(Ansi::C1(C1::Fe(Fe::CSI(expected))))
        }),
{
    let pre = seq![0x1b as char, '['].add(decimal(a));
    lemma_first_parameter(v, n, a);
    let w1 = v.feed(n, pre);
    lemma_feed_push(v, n, pre, ';');
    let w2 = w1.next(n, ';');
    assert(w2.curr == 1 && w2.state == State::Csi && w2.size == 1);
    assert(w2.nums == v.nums.update(0, a as u16).update(1, 0));
    lemma_feed_decimal_at(w2, n, 1, b);
    lemma_feed_concat(v, n, pre.push(';'), decimal(b));
    let w = v.feed(n, pre.push(';').add(decimal(b)));
    assert(w == w2.feed(n, decimal(b)));
    assert(w.size == 2);
    let p = w.nums.subrange(0, 2);
    assert(p =~= seq![a as u16, b as u16]);
    let e = if c == 'H' {
        CSI::CursorTo { line: a as u16, col: b as u16 }
    } else if c == 'f' {
        CSI::HorizontalVerticalPosition { line: a as u16, col: b as u16 }
    } else {
        CSI::SetScrollingRegion { top: a as u16, bottom: b as u16 }
    };
    assert(csi_result(CsiMod::Standard, p, c, e));
    assert forall|out: Out| #[trigger] w.out_ok(c, out) implies out == Out::Ansi(Ansi::C1(C1::Fe(Fe::CSI(e)))) by {
        let r = choose|r: CSI| csi_out(out, r) && #[trigger] csi_result(CsiMod::Standard, p, c, r);
        assert(csi_result(CsiMod::Standard, p, c, r));
    }
    assert forall|out: Out| out == Out::Ansi(Ansi::C1(C1::Fe(Fe::CSI(e)))) implies #[trigger] w.out_ok(c, out) by {
        assert(csi_out(out, e) && csi_result(CsiMod::Standard, p, c, e));
    }
}

/// The erase sequences: from the default state, 0x1b '[' followed by the numeral of `k`
/// and `J` erases from the cursor (0), up to the cursor (1), the screen (2) or the saved
/// lines (3); with `K` it erases to the end of the line (0 or 1) or the whole line (2).
pub proof fn law_csi_erase(v: ParserView, n: nat, k: nat, c: char)
    requires
        v.wf(n),
        v.state == State::Default,
        n >= 1,
        k <= 3,
        c == 'J' || (c == 'K' && k <= 2),
    ensures
        ({
            let w = v.feed(n, seq![0x1b as char, '['].add(decimal(k)));
            let expected = if c == 'J' {
                if k == 0 {
                    CSI::EraseFromCursor
                } else if k == 1 {
                    CSI::EraseToCursor
                } else if k == 2 {
                    CSI::EraseScreen
                } else {
                    CSI::EraseSavedLines
                }
            } else if k == 2 {
                CSI::EraseLine
            } else {
                CSI::EraseFromCursorToEndOfLine
            };
            &&& w.next(n, c).state == State::Default
            &&& forall|out: Out| #[trigger] w.out_ok(c, out) <==> out == Out::Ansi(Ansi::C1(C1::Fe(Fe::CSI(expected))))
        }),
{
    law_csi_single_parameter(v, n, k, c);
    let w = v.feed(n, seq![0x1b as char, '['].add(decimal(k)));
    let p = seq![k as u16];
    assert(p.len() == 1 && p[0] == k as u16);
    let e = if c == 'J' {
        if k == 0 {
            CSI::EraseFromCursor
        } else if k == 1 {
            CSI::EraseToCursor
        } else if k == 2 {
            CSI::EraseScreen
        } else {
            CSI::EraseSavedLines
        }
    } else if k == 2 {
        CSI::EraseLine
    } else {
        CSI::EraseFromCursorToEndOfLine
    };
    assert(csi_result(CsiMod::Standard, p, c, e));
    assert forall|out: Out| #[trigger] w.out_ok(c, out) implies out == Out::Ansi(Ansi::C1(C1::Fe(Fe::CSI(e)))) by {
        let r = choose|r: CSI| csi_out(out, r) && #[trigger] csi_result(CsiMod::Standard, p, c, r);
        assert(csi_result(CsiMod::Standard, p, c, r));
    }
    assert forall|out: Out| out == Out::Ansi(Ansi::C1(C1::Fe(Fe::CSI(e)))) implies #[trigger] w.out_ok(c, out) by {
        assert(csi_out(out, e) && csi_result(CsiMod::Standard, p, c, e));
    }
}

} // verus!
