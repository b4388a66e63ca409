//! Select Graphic Rendition (SGR) parameters: the `m` control sequence.
use vstd::prelude::*;

verus! {

/// A color selected by an SGR parameter list.
#[derive(Clone, Copy, PartialEq, Eq, Debug)]
pub enum Color {
    Default,
    Black,
    Red,
    Green,
    Yellow,
    Blue,
    Magenta,
    Cyan,
    White,
    BrightBlack,
    BrightRed,
    BrightGreen,
    BrightYellow,
    BrightBlue,
    BrightMagenta,
    BrightCyan,
    BrightWhite,
    VGA(u8),
    RGB([u8; 3]),
    NotPresent,
    Invalid(u16),
    LongNotPresnet,
    InvalidLong(u16),
    MalformedVGA,
    MalformedRGB,
}

/// One graphic rendition selected by an SGR parameter.
#[derive(Clone, Copy, PartialEq, Eq, Debug)]
pub enum SelectGraphic {
    Reset,
    Bold,
    Faint,
    Italic,
    Underline,
    SlowBlink,
    RapidBlink,
    InvertFgBg,
    Conceal,
    CrossedOut,
    PrimaryFont,
    AlternativeFont(u8),
    Fraktur,
    DoublyUnderlined,
    NormalIntensity,
    NeitherItalicNorBackletter,
    NotUnderlined,
    NotBlinking,
    ProportionalSpacing,
    NotInvertedFgBg,
    Reveal,
    NotCrossedOut,
    Fg(Color),
    Bg(Color),
    DisableProportionalSpacing,
    Framed,
    Encircled,
    Overlined,
    NeitherFramedNorEncircled,
    NotOverlined,
    UnderlineColor(Color),
    IdeogramUnderline,
    IdeogramDoubleUnderline,
    IdeogramOverline,
    IdeogramStressMarking,
    IdeogramAttributes,
    Superscript,
    Subscript,
    NeitherSuperscriptNorSubScript,
    Unknown(u16),
}

/// The parameter list of an SGR sequence, consumed one rendition at a time.
#[derive(Clone, Copy, PartialEq, Eq, Debug)]
pub struct GraphicsRendition<'a>(pub &'a [u16]);

/// The eight basic colors, by their offset from the first code of a range.
pub open spec fn basic_color(off: int) -> Color {
    if off == 0 {
        Color::Black
    } else if off == 1 {
        Color::Red
    } else if off == 2 {
        Color::Green
    } else if off == 3 {
        Color::Yellow
    } else if off == 4 {
        Color::Blue
    } else if off == 5 {
        Color::Magenta
    } else if off == 6 {
        Color::Cyan
    } else {
        Color::Black
    }
}

/// The eight bright colors, by their offset from the first code of a range.
pub open spec fn bright_color(off: int) -> Color {
    if off == 0 {
        Color::BrightBlack
    } else if off == 1 {
        Color::BrightRed
    } else if off == 2 {
        Color::BrightGreen
    } else if off == 3 {
        Color::BrightYellow
    } else if off == 4 {
        Color::BrightBlue
    } else if off == 5 {
        Color::BrightMagenta
    } else if off == 6 {
        Color::BrightCyan
    } else {
        Color::BrightBlack
    }
}

/// The color that the code `val` selects, and how many of the parameters `rest` that
/// follow it are consumed: `long` introduces an extended color (`2;r;g;b` or `5;n`),
/// `reg_start` and `bright_start` begin the ranges of eight basic and bright colors.
pub open spec fn color_step(
    rest: Seq<u16>,
    val: u16,
    default: Option<u16>,
    reg_start: Option<u16>,
    bright_start: Option<u16>,
    long: Option<u16>,
) -> (Color, int) {
    if default == Some(val) {
        (Color::Default, 0)
    } else if long == Some(val) {
        if rest.len() == 0 {
            (Color::LongNotPresnet, 0)
        } else if rest[0] == 2 {
            if rest.len() < 4 {
                (Color::MalformedRGB, 1)
            } else if rest[1] <= 255 && rest[2] <= 255 && rest[3] <= 255 {
                (Color::RGB([rest[1] as u8, rest[2] as u8, rest[3] as u8]), 4)
            } else {
                (Color::MalformedVGA, 4)
            }
        } else if rest[0] == 5 {
            if rest.len() < 2 {
                (Color::MalformedVGA, 1)
            } else if rest[1] <= 255 {
                (Color::VGA(rest[1] as u8), 2)
            } else {
                (Color::MalformedVGA, 2)
            }
        } else {
            (Color::InvalidLong(rest[0]), 1)
        }
    } else if reg_start is Some && (val - reg_start->0) % 0x10000 < 8 {
        (basic_color((val - reg_start->0) % 0x10000), 0)
    } else if bright_start is Some && (val - bright_start->0) % 0x10000 < 8 {
        (bright_color((val - bright_start->0) % 0x10000), 0)
    } else {
        (Color::Invalid(val), 0)
    }
}

/// The rendition that the parameter list `s` starts with, and how many parameters it
/// takes; `None` once the list is empty.
pub open spec fn sgr_step(s: Seq<u16>) -> (Option<SelectGraphic>, int) {
    if s.len() == 0 {
        (None, 0)
    } else {
        let first = s[0];
        let rest = s.drop_first();
        if first == 0 {
            (Some(SelectGraphic::Reset), 1)
        } else if first == 1 {
            (Some(SelectGraphic::Bold), 1)
        } else if first == 2 {
            (Some(SelectGraphic::Faint), 1)
        } else if first == 3 {
            (Some(SelectGraphic::Italic), 1)
        } else if first == 4 {
            (Some(SelectGraphic::Underline), 1)
        } else if first == 5 {
            (Some(SelectGraphic::SlowBlink), 1)
        } else if first == 6 {
            (Some(SelectGraphic::RapidBlink), 1)
        } else if first == 7 {
            (Some(SelectGraphic::InvertFgBg), 1)
        } else if first == 8 {
            (Some(SelectGraphic::Conceal), 1)
        } else if first == 9 {
            (Some(SelectGraphic::CrossedOut), 1)
        } else if first == 10 {
            (Some(SelectGraphic::PrimaryFont), 1)
        } else if 11 <= first <= 19 {
            (Some(SelectGraphic::AlternativeFont((first - 11) as u8)), 1)
        } else if first == 20 {
            (Some(SelectGraphic::Fraktur), 1)
        } else if first == 21 {
            (Some(SelectGraphic::DoublyUnderlined), 1)
        } else if first == 22 {
            (Some(SelectGraphic::NormalIntensity), 1)
        } else if first == 23 {
            (Some(SelectGraphic::NeitherItalicNorBackletter), 1)
        } else if first == 24 {
            (Some(SelectGraphic::NotUnderlined), 1)
        } else if first == 25 {
            (Some(SelectGraphic::NotBlinking), 1)
        } else if first == 26 {
            (Some(SelectGraphic::ProportionalSpacing), 1)
        } else if first == 27 {
            (Some(SelectGraphic::NotInvertedFgBg), 1)
        } else if first == 28 {
            (Some(SelectGraphic::Reveal), 1)
        } else if first == 29 {
            (Some(SelectGraphic::NotCrossedOut), 1)
        } else if (30 <= first <= 39) || (90 <= first <= 97) {
            let (c, k) = color_step(rest, first, Some(39), Some(30), Some(90), Some(38));
            (Some(SelectGraphic::Fg(c)), 1 + k)
        } else if (40 <= first <= 49) || (100 <= first <= 107) {
            let (c, k) = color_step(rest, first, Some(49), Some(40), Some(100), Some(48));
            (Some(SelectGraphic::Fg(c)), 1 + k)
        } else if first == 50 {
            (Some(SelectGraphic::DisableProportionalSpacing), 1)
        } else if first == 51 {
            (Some(SelectGraphic::Framed), 1)
        } else if first == 52 {
            (Some(SelectGraphic::Encircled), 1)
        } else if first == 53 {
            (Some(SelectGraphic::Overlined), 1)
        } else if first == 54 {
            (Some(SelectGraphic::NeitherFramedNorEncircled), 1)
        } else if first == 55 {
            (Some(SelectGraphic::NotOverlined), 1)
        } else if 58 <= first <= 59 {
            let (c, k) = color_step(rest, first, Some(59), None, None, Some(58));
            (Some(SelectGraphic::Fg(c)), 1 + k)
        } else if first == 60 {
            (Some(SelectGraphic::IdeogramUnderline), 1)
        } else if first == 61 {
            (Some(SelectGraphic::IdeogramDoubleUnderline), 1)
        } else if first == 62 {
            (Some(SelectGraphic::IdeogramOverline), 1)
        } else if first == 63 {
            (Some(SelectGraphic::IdeogramDoubleUnderline), 1)
        } else if first == 64 {
            (Some(SelectGraphic::IdeogramStressMarking), 1)
        } else if first == 65 {
            (Some(SelectGraphic::IdeogramAttributes), 1)
        } else if first == 73 {
            (Some(SelectGraphic::Superscript), 1)
        } else if first == 74 {
            (Some(SelectGraphic::Subscript), 1)
        } else if first == 75 {
            (Some(SelectGraphic::NeitherSuperscriptNorSubScript), 1)
        } else {
            (Some(SelectGraphic::Unknown(first)), 1)
        }
    }
}

impl<'a> GraphicsRendition<'a> {
    /// Drops the first parameter.
    fn advance(&mut self)
        requires
            old(self).0@.len() > 0,
        ensures
            final(self).0@ == old(self).0@.drop_first(),
    {
        let len = self.0.len();
        self.0 = &self.0[1..len];
    }

    fn parse_color(
        &mut self,
        val: u16,
        default: Option<u16>,
        reg_start: Option<u16>,
        bright_start: Option<u16>,
        long: Option<u16>,
    ) -> (c: Color)
        ensures
            ({
                let (spec_c, k) = color_step(old(self).0@, val, default, reg_start, bright_start, long);
                &&& c == spec_c
                &&& 0 <= k <= old(self).0@.len()
                &&& final(self).0@ == old(self).0@.skip(k)
            }),
    {
        if default == Some(val) {
            assert(old(self).0@.skip(0) == old(self).0@);
            return Color::Default;
        }
        if long == Some(val) {
            if self.0.len() == 0 {
                assert(old(self).0@.skip(0) == old(self).0@);
                return Color::LongNotPresnet;
            }
            let long = self.0[0];
            self.advance();
            if long == 2 {
                if self.0.len() < 3 {
                    return Color::MalformedRGB;
                }
                let r = self.0[0];
                let g = self.0[1];
                let b = self.0[2];
                let len = self.0.len();
                self.0 = &self.0[3..len];
                assert(self.0@ == old(self).0@.skip(4));
                if r <= 255 && g <= 255 && b <= 255 {
                    return Color::RGB([r as u8, g as u8, b as u8]);
                } else {
                    return Color::MalformedVGA;
                }
            } else if long == 5 {
                if self.0.len() < 1 {
                    return Color::MalformedVGA;
                }
                let vga = self.0[0];
                self.advance();
                assert(self.0@ == old(self).0@.skip(2));
                if vga <= 255 {
                    return Color::VGA(vga as u8);
                } else {
                    return Color::MalformedVGA;
                }
            } else {
                return Color::InvalidLong(long);
            }
        }
        assert(old(self).0@.skip(0) == old(self).0@);
        if let Some(start) = reg_start {
            let off = val.wrapping_sub(start);
            if off < 8 {
                return if off == 0 {
                    Color::Black
                } else if off == 1 {
                    Color::Red
                } else if off == 2 {
                    Color::Green
                } else if off == 3 {
                    Color::Yellow
                } else if off == 4 {
                    Color::Blue
                } else if off == 5 {
                    Color::Magenta
                } else if off == 6 {
                    Color::Cyan
                } else {
                    Color::Black
                };
            }
        }
        if let Some(start) = bright_start {
            let off = val.wrapping_sub(start);
            if off < 8 {
                return if off == 0 {
                    Color::BrightBlack
                } else if off == 1 {
                    Color::BrightRed
                } else if off == 2 {
                    Color::BrightGreen
                } else if off == 3 {
                    Color::BrightYellow
                } else if off == 4 {
                    Color::BrightBlue
                } else if off == 5 {
                    Color::BrightMagenta
                } else if off == 6 {
                    Color::BrightCyan
                } else {
                    Color::BrightBlack
                };
            }
        }
        Color::Invalid(val)
    }

    /// The next rendition of the list, consuming its parameters; `None` at the end.
    pub fn next(&mut self) -> (r: Option<SelectGraphic>)
        ensures
            ({
                let (spec_r, k) = sgr_step(old(self).0@);
                &&& r == spec_r
                &&& 0 <= k <= old(self).0@.len()
                &&& final(self).0@ == old(self).0@.skip(k)
            }),
    {
        if self.0.len() == 0 {
            assert(old(self).0@.skip(0) == old(self).0@);
            return None;
        }
        let first = self.0[0];
        self.advance();
        proof {
            assert forall|k: int| 0 <= k <= self.0@.len() implies
                #[trigger] self.0@.skip(k) == old(self).0@.skip(k + 1) by {
                assert(self.0@.skip(k) =~= old(self).0@.skip(k + 1));
            }
            assert(self.0@.skip(0) == old(self).0@.skip(1));
        }
        if first == 0 {
            Some(SelectGraphic::Reset)
        } else if first == 1 {
            Some(SelectGraphic::Bold)
        } else if first == 2 {
            Some(SelectGraphic::Faint)
        } else if first == 3 {
            Some(SelectGraphic::Italic)
        } else if first == 4 {
            Some(SelectGraphic::Underline)
        } else if first == 5 {
            Some(SelectGraphic::SlowBlink)
        } else if first == 6 {
            Some(SelectGraphic::RapidBlink)
        } else if first == 7 {
            Some(SelectGraphic::InvertFgBg)
        } else if first == 8 {
            Some(SelectGraphic::Conceal)
        } else if first == 9 {
            Some(SelectGraphic::CrossedOut)
        } else if first == 10 {
            Some(SelectGraphic::PrimaryFont)
        } else if 11 <= first && first <= 19 {
            Some(SelectGraphic::AlternativeFont(first as u8 - 11))
        } else if first == 20 {
            Some(SelectGraphic::Fraktur)
        } else if first == 21 {
            Some(SelectGraphic::DoublyUnderlined)
        } else if first == 22 {
            Some(SelectGraphic::NormalIntensity)
        } else if first == 23 {
            Some(SelectGraphic::NeitherItalicNorBackletter)
        } else if first == 24 {
            Some(SelectGraphic::NotUnderlined)
        } else if first == 25 {
            Some(SelectGraphic::NotBlinking)
        } else if first == 26 {
            Some(SelectGraphic::ProportionalSpacing)
        } else if first == 27 {
            Some(SelectGraphic::NotInvertedFgBg)
        } else if first == 28 {
            Some(SelectGraphic::Reveal)
        } else if first == 29 {
            Some(SelectGraphic::NotCrossedOut)
        } else if (30 <= first && first <= 39) || (90 <= first && first <= 97) {
            Some(SelectGraphic::Fg(self.parse_color(first, Some(39), Some(30), Some(90), Some(38))))
        } else if (40 <= first && first <= 49) || (100 <= first && first <= 107) {
            Some(
                SelectGraphic::Fg(self.parse_color(first, Some(49), Some(40), Some(100), Some(48))),
            )
        } else if first == 50 {
            Some(SelectGraphic::DisableProportionalSpacing)
        } else if first == 51 {
            Some(SelectGraphic::Framed)
        } else if first == 52 {
            Some(SelectGraphic::Encircled)
        } else if first == 53 {
            Some(SelectGraphic::Overlined)
        } else if first == 54 {
            Some(SelectGraphic::NeitherFramedNorEncircled)
        } else if first == 55 {
            Some(SelectGraphic::NotOverlined)
        } else if 58 <= first && first <= 59 {
            Some(SelectGraphic::Fg(self.parse_color(first, Some(59), None, None, Some(58))))
        } else if first == 60 {
            Some(SelectGraphic::IdeogramUnderline)
        } else if first == 61 {
            Some(SelectGraphic::IdeogramDoubleUnderline)
        } else if first == 62 {
            Some(SelectGraphic::IdeogramOverline)
        } else if first == 63 {
            Some(SelectGraphic::IdeogramDoubleUnderline)
        } else if first == 64 {
            Some(SelectGraphic::IdeogramStressMarking)
        } else if first == 65 {
            Some(SelectGraphic::IdeogramAttributes)
        } else if first == 73 {
            Some(SelectGraphic::Superscript)
        } else if first == 74 {
            Some(SelectGraphic::Subscript)
        } else if first == 75 {
            Some(SelectGraphic::NeitherSuperscriptNorSubScript)
        } else {
            Some(SelectGraphic::Unknown(first))
        }
    }
}

/// The colour codes of a rendition, one parameter each: 30 to 36 select black, red,
/// green, yellow, blue, magenta and cyan in that order (and 37 black again), 90 to 96 the
/// bright ones in the same order (97 bright black), 39 the default; the codes 40 to 49
/// and 100 to 107 select the same colours as the codes ten and ten lower, and they too
/// come out as a foreground colour.
pub proof fn law_sgr_basic_colors(p: Seq<u16>)
    requires
        p.len() > 0,
    ensures
        (p[0] == 30 || p[0] == 40) ==> sgr_step(p) == (Some(SelectGraphic::Fg(Color::Black)), 1int),
        (p[0] == 31 || p[0] == 41) ==> sgr_step(p) == (Some(SelectGraphic::Fg(Color::Red)), 1int),
        (p[0] == 32 || p[0] == 42) ==> sgr_step(p) == (Some(SelectGraphic::Fg(Color::Green)), 1int),
        (p[0] == 33 || p[0] == 43) ==> sgr_step(p) == (Some(SelectGraphic::Fg(Color::Yellow)), 1int),
        (p[0] == 34 || p[0] == 44) ==> sgr_step(p) == (Some(SelectGraphic::Fg(Color::Blue)), 1int),
        (p[0] == 35 || p[0] == 45) ==> sgr_step(p) == (Some(SelectGraphic::Fg(Color::Magenta)), 1int),
        (p[0] == 36 || p[0] == 46) ==> sgr_step(p) == (Some(SelectGraphic::Fg(Color::Cyan)), 1int),
        (p[0] == 37 || p[0] == 47) ==> sgr_step(p) == (Some(SelectGraphic::Fg(Color::Black)), 1int),
        (p[0] == 90 || p[0] == 100) ==> sgr_step(p) == (Some(SelectGraphic::Fg(Color::BrightBlack)), 1int),
        (p[0] == 91 || p[0] == 101) ==> sgr_step(p) == (Some(SelectGraphic::Fg(Color::BrightRed)), 1int),
        (p[0] == 92 || p[0] == 102) ==> sgr_step(p) == (Some(SelectGraphic::Fg(Color::BrightGreen)), 1int),
        (p[0] == 93 || p[0] == 103) ==> sgr_step(p) == (Some(SelectGraphic::Fg(Color::BrightYellow)), 1int),
        (p[0] == 94 || p[0] == 104) ==> sgr_step(p) == (Some(SelectGraphic::Fg(Color::BrightBlue)), 1int),
        (p[0] == 95 || p[0] == 105) ==> sgr_step(p) == (Some(SelectGraphic::Fg(Color::BrightMagenta)), 1int),
        (p[0] == 96 || p[0] == 106) ==> sgr_step(p) == (Some(SelectGraphic::Fg(Color::BrightCyan)), 1int),
        (p[0] == 97 || p[0] == 107) ==> sgr_step(p) == (Some(SelectGraphic::Fg(Color::BrightBlack)), 1int),
        (p[0] == 39 || p[0] == 49) ==> sgr_step(p) == (Some(SelectGraphic::Fg(Color::Default)), 1int),
{
}

/// The style codes of a rendition take one parameter each: 0 resets, 1 to 9 set bold,
/// faint, italic, underline, slow and rapid blinking, inversion, concealment and
/// crossing out, 10 the primary font and 11 to 19 the alternative fonts 0 to 8, 20 to 29
/// set Fraktur, double underline and undo the earlier styles, 50 to 55 and 60 to 65 the
/// spacing, frame and ideogram codes, 73 to 75 super- and subscript; a code that names
/// nothing is kept as unknown.
pub proof fn law_sgr_styles(p: Seq<u16>)
    requires
        p.len() > 0,
    ensures
        p[0] == 0 ==> sgr_step(p) == (Some(SelectGraphic::Reset), 1int),
        p[0] == 1 ==> sgr_step(p) == (Some(SelectGraphic::Bold), 1int),
        p[0] == 2 ==> sgr_step(p) == (Some(SelectGraphic::Faint), 1int),
        p[0] == 3 ==> sgr_step(p) == (Some(SelectGraphic::Italic), 1int),
        p[0] == 4 ==> sgr_step(p) == (Some(SelectGraphic::Underline), 1int),
        p[0] == 5 ==> sgr_step(p) == (Some(SelectGraphic::SlowBlink), 1int),
        p[0] == 6 ==> sgr_step(p) == (Some(SelectGraphic::RapidBlink), 1int),
        p[0] == 7 ==> sgr_step(p) == (Some(SelectGraphic::InvertFgBg), 1int),
        p[0] == 8 ==> sgr_step(p) == (Some(SelectGraphic::Conceal), 1int),
        p[0] == 9 ==> sgr_step(p) == (Some(SelectGraphic::CrossedOut), 1int),
        p[0] == 10 ==> sgr_step(p) == (Some(SelectGraphic::PrimaryFont), 1int),
        p[0] == 20 ==> sgr_step(p) == (Some(SelectGraphic::Fraktur), 1int),
        p[0] == 21 ==> sgr_step(p) == (Some(SelectGraphic::DoublyUnderlined), 1int),
        p[0] == 22 ==> sgr_step(p) == (Some(SelectGraphic::NormalIntensity), 1int),
        p[0] == 23 ==> sgr_step(p) == (Some(SelectGraphic::NeitherItalicNorBackletter), 1int),
        p[0] == 24 ==> sgr_step(p) == (Some(SelectGraphic::NotUnderlined), 1int),
        p[0] == 25 ==> sgr_step(p) == (Some(SelectGraphic::NotBlinking), 1int),
        p[0] == 26 ==> sgr_step(p) == (Some(SelectGraphic::ProportionalSpacing), 1int),
        p[0] == 27 ==> sgr_step(p) == (Some(SelectGraphic::NotInvertedFgBg), 1int),
        p[0] == 28 ==> sgr_step(p) == (Some(SelectGraphic::Reveal), 1int),
        p[0] == 29 ==> sgr_step(p) == (Some(SelectGraphic::NotCrossedOut), 1int),
        p[0] == 50 ==> sgr_step(p) == (Some(SelectGraphic::DisableProportionalSpacing), 1int),
        p[0] == 51 ==> sgr_step(p) == (Some(SelectGraphic::Framed), 1int),
        p[0] == 52 ==> sgr_step(p) == (Some(SelectGraphic::Encircled), 1int),
        p[0] == 53 ==> sgr_step(p) == (Some(SelectGraphic::Overlined), 1int),
        p[0] == 54 ==> sgr_step(p) == (Some(SelectGraphic::NeitherFramedNorEncircled), 1int),
        p[0] == 55 ==> sgr_step(p) == (Some(SelectGraphic::NotOverlined), 1int),
        p[0] == 60 ==> sgr_step(p) == (Some(SelectGraphic::IdeogramUnderline), 1int),
        p[0] == 61 ==> sgr_step(p) == (Some(SelectGraphic::IdeogramDoubleUnderline), 1int),
        p[0] == 62 ==> sgr_step(p) == (Some(SelectGraphic::IdeogramOverline), 1int),
        p[0] == 63 ==> sgr_step(p) == (Some(SelectGraphic::IdeogramDoubleUnderline), 1int),
        p[0] == 64 ==> sgr_step(p) == (Some(SelectGraphic::IdeogramStressMarking), 1int),
        p[0] == 65 ==> sgr_step(p) == (Some(SelectGraphic::IdeogramAttributes), 1int),
        p[0] == 73 ==> sgr_step(p) == (Some(SelectGraphic::Superscript), 1int),
        p[0] == 74 ==> sgr_step(p) == (Some(SelectGraphic::Subscript), 1int),
        p[0] == 75 ==> sgr_step(p) == (Some(SelectGraphic::NeitherSuperscriptNorSubScript), 1int),
        11 <= p[0] <= 19 ==> sgr_step(p) == (Some(SelectGraphic::AlternativeFont((p[0] - 11) as u8)), 1int),
        (p[0] == 56 || p[0] == 57 || (66 <= p[0] <= 72) || (76 <= p[0] <= 89) || (98 <= p[0] <= 99) || p[0] >= 108)
            ==> sgr_step(p) == (Some(SelectGraphic::Unknown(p[0])), 1int),
{
}

/// The extended colours: 38 (and 48, and 58) followed by 5 and an index below 256 select
/// that palette entry and take three parameters; followed by 2 and three components below
/// 256 they select that colour and take five parameters.
pub proof fn law_sgr_extended_colors(p: Seq<u16>)
    requires
        p.len() > 0,
        p[0] == 38 || p[0] == 48 || p[0] == 58,
    ensures
        p.len() >= 3 && p[1] == 5 && p[2] <= 255 ==> sgr_step(p) == (Some(SelectGraphic::Fg(Color::VGA(p[2] as u8))), 3int),
        p.len() >= 5 && p[1] == 2 && p[2] <= 255 && p[3] <= 255 && p[4] <= 255 ==> sgr_step(p) == (
            Some(SelectGraphic::Fg(Color::RGB([p[2] as u8, p[3] as u8, p[4] as u8]))),
            5int,
        ),
{
    let rest = p.drop_first();
    assert(p.len() >= 3 ==> rest[0] == p[1] && rest[1] == p[2]);
    assert(p.len() >= 5 ==> rest[2] == p[3] && rest[3] == p[4]);
}

} // verus!
