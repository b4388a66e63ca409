//! The boot loader's command line: the words of a line, the arguments of each command
//! with their defaults, and the messages of what cannot be parsed.
use vstd::prelude::*;
use vstd::string::StrSliceExecFns;
use crate::timer::{TimerMode, set_enabled, set_masked, set_mode};
use crate::line_editor::{decimal, decimal_spec};

verus! {

/// The characters that Unicode counts as white space.
pub open spec fn is_ws(c: char) -> bool {
    ||| '\t' <= c <= '\r'
    ||| c == ' '
    ||| c == '\u{85}'
    ||| c == '\u{a0}'
    ||| c == '\u{1680}'
    ||| '\u{2000}' <= c <= '\u{200a}'
    ||| c == '\u{2028}'
    ||| c == '\u{2029}'
    ||| c == '\u{202f}'
    ||| c == '\u{205f}'
    ||| c == '\u{3000}'
}

/// Whether `c` is white space.
pub fn is_whitespace(c: char) -> (r: bool)
    ensures
        r == is_ws(c),
{
    ('\t' <= c && c <= '\r') || c == ' ' || c == '\u{85}' || c == '\u{a0}' || c == '\u{1680}'
        || ('\u{2000}' <= c && c <= '\u{200a}') || c == '\u{2028}' || c == '\u{2029}' || c == '\u{202f}'
        || c == '\u{205f}' || c == '\u{3000}'
}

/// The index of the first character of `s` from `i` on that is (`ws`) or is not white
/// space, or the length of `s`.
pub open spec fn skip_from(s: Seq<char>, i: int, ws: bool) -> int
    decreases s.len() - i,
{
    if i >= s.len() || i < 0 {
        s.len() as int
    } else if is_ws(s[i]) != ws {
        skip_from(s, i + 1, ws)
    } else {
        i
    }
}

/// One past the last character of `s` before `j` that is not white space, or 0.
pub open spec fn trim_back_to(s: Seq<char>, j: int) -> int
    decreases j,
{
    if j <= 0 {
        0
    } else if is_ws(s[j - 1]) {
        trim_back_to(s, j - 1)
    } else {
        j
    }
}

/// `s` without white space at either end.
pub open spec fn trim_spec(s: Seq<char>) -> Seq<char> {
    let a = skip_from(s, 0, false);
    let b = trim_back_to(s, s.len() as int);
    if a < b {
        s.subrange(a, b)
    } else {
        seq![]
    }
}

pub proof fn lemma_skip_from(s: Seq<char>, i: int, ws: bool)
    requires
        0 <= i <= s.len(),
    ensures
        i <= skip_from(s, i, ws) <= s.len(),
        forall|k: int| i <= k < skip_from(s, i, ws) ==> is_ws(#[trigger] s[k]) != ws,
        skip_from(s, i, ws) < s.len() ==> is_ws(s[skip_from(s, i, ws)]) == ws,
    decreases s.len() - i,
{
    if i < s.len() && is_ws(s[i]) != ws {
        lemma_skip_from(s, i + 1, ws);
    }
}

pub proof fn lemma_trim_back_to(s: Seq<char>, j: int)
    requires
        0 <= j <= s.len(),
    ensures
        0 <= trim_back_to(s, j) <= j,
        forall|k: int| trim_back_to(s, j) <= k < j ==> is_ws(#[trigger] s[k]),
        trim_back_to(s, j) > 0 ==> !is_ws(s[trim_back_to(s, j) - 1]),
    decreases j,
{
    if j > 0 && is_ws(s[j - 1]) {
        lemma_trim_back_to(s, j - 1);
    }
}

/// The index of the first character of `s` from `i` on that is (`ws`) or is not white
/// space, or the length of `s`.
fn skip(s: &str, len: usize, i: usize, ws: bool) -> (r: usize)
    requires
        len == s@.len(),
        i <= len,
    ensures
        r == skip_from(s@, i as int, ws),
{
    let mut k = i;
    while k < len && is_whitespace(s.get_char(k)) != ws
        invariant
            i <= k <= len,
            len == s@.len(),
            skip_from(s@, k as int, ws) == skip_from(s@, i as int, ws),
        decreases len - k,
    {
        k = k + 1;
    }
    k
}

/// `s` without white space at either end.
pub fn trim(s: &str) -> (r: &str)
    ensures
        r@ == trim_spec(s@),
{
    let len = s.unicode_len();
    let a = skip(s, len, 0, false);
    let mut b = len;
    while b > 0 && is_whitespace(s.get_char(b - 1))
        invariant
            b <= len,
            len == s@.len(),
            trim_back_to(s@, b as int) == trim_back_to(s@, len as int),
        decreases b,
    {
        b = b - 1;
    }
    if a < b {
        s.substring_char(a, b)
    } else {
        s.substring_char(0, 0)
    }
}

/// The index of the first space in `s`, if any.
pub open spec fn find_space(s: Seq<char>, i: int) -> Option<int>
    decreases s.len() - i,
{
    if i >= s.len() || i < 0 {
        None
    } else if s[i] == ' ' {
        Some(i)
    } else {
        find_space(s, i + 1)
    }
}

/// `s` cut at its first space, which goes.
pub open spec fn split_once_spec(s: Seq<char>) -> Option<(Seq<char>, Seq<char>)> {
    match find_space(s, 0) {
        Some(i) => Some((s.subrange(0, i), s.subrange(i + 1, s.len() as int))),
        None => None,
    }
}

pub proof fn lemma_find_space(s: Seq<char>, i: int)
    requires
        0 <= i <= s.len(),
    ensures
        find_space(s, i) matches Some(k) ==> i <= k < s.len(),
    decreases s.len() - i,
{
    if i < s.len() && s[i] != ' ' {
        lemma_find_space(s, i + 1);
    }
}

/// `s` cut at its first space, which goes, if it has one.
pub fn split_once(s: &str) -> (r: Option<(&str, &str)>)
    ensures
        r matches Some(p) ==> split_once_spec(s@) == Some((p.0@, p.1@)),
        r is None ==> split_once_spec(s@) is None,
{
    let len = s.unicode_len();
    let mut k: usize = 0;
    proof {
        lemma_find_space(s@, 0);
    }
    while k < len
        invariant
            k <= len,
            len == s@.len(),
            find_space(s@, k as int) == find_space(s@, 0),
        decreases len - k,
    {
        if s.get_char(k) == ' ' {
            return Some((s.substring_char(0, k), s.substring_char(k + 1, len)));
        }
        k = k + 1;
    }
    None
}

/// The words of `s` from `i` on: the runs of characters that are not white space.
pub open spec fn words_from(s: Seq<char>, i: int) -> Seq<Seq<char>>
    decreases s.len() - i,
{
    if i < 0 || i >= s.len() {
        seq![]
    } else {
        let a = skip_from(s, i, false);
        if a >= s.len() {
            seq![]
        } else {
            let b = skip_from(s, a + 1, true);
            proof {
                lemma_skip_from(s, i, false);
                lemma_skip_from(s, a + 1, true);
            }
            seq![s.subrange(a, b)] + words_from(s, b)
        }
    }
}

/// The words of `s`.
pub fn split_whitespace(s: &str) -> (r: Vec<&str>)
    ensures
        r.len() == words_from(s@, 0).len(),
        forall|k: int| 0 <= k < r.len() ==> (#[trigger] r[k])@ == words_from(s@, 0)[k],
{
    let len = s.unicode_len();
    let mut r: Vec<&str> = Vec::new();
    let mut i: usize = 0;
    while i < len
        invariant
            i <= len,
            len == s@.len(),
            r.len() + words_from(s@, i as int).len() == words_from(s@, 0).len(),
            forall|k: int| 0 <= k < r.len() ==> (#[trigger] r[k])@ == words_from(s@, 0)[k],
            forall|k: int| 0 <= k < words_from(s@, i as int).len() ==> (#[trigger] words_from(s@, i as int)[k]) == words_from(s@, 0)[r.len() + k],
        decreases len - i,
    {
        let a = skip(s, len, i, false);
        proof {
            lemma_skip_from(s@, i as int, false);
        }
        if a >= len {
            assert(words_from(s@, i as int).len() == 0);
            i = len;
        } else {
            let b = skip(s, len, a + 1, true);
            proof {
                lemma_skip_from(s@, a + 1, true);
            }
            let ghost ws = words_from(s@, i as int);
            assert(ws == seq![s@.subrange(a as int, b as int)] + words_from(s@, b as int));
            assert(ws[0] == words_from(s@, 0)[r.len() as int]);
            let ghost old_r = r@;
            r.push(s.substring_char(a, b));
            assert forall|k: int| 0 <= k < r.len() implies (#[trigger] r[k])@ == words_from(s@, 0)[k] by {
                if k < old_r.len() {
                    assert(r[k] == old_r[k]);
                }
            }
            assert forall|k: int| 0 <= k < words_from(s@, b as int).len() implies (#[trigger] words_from(s@, b as int)[k]) == words_from(s@, 0)[r.len() + k] by {
                assert(words_from(s@, b as int)[k] == ws[k + 1]);
            }
            i = b;
        }
    }
    proof {
        if i == len {
            assert(words_from(s@, len as int).len() == 0);
        }
    }
    r
}


/// Why an integer did not parse.
#[derive(Clone, Copy, Debug, PartialEq, Eq, Structural)]
pub enum IntErrorKind {
    Empty,
    InvalidDigit,
    PosOverflow,
    NegOverflow,
    Zero,
    Other,
}

/// The value of a digit character, in any radix up to 36.
pub open spec fn digit_value(c: char) -> int {
    if '0' <= c <= '9' {
        c as int - '0' as int
    } else if 'a' <= c <= 'z' {
        c as int - 'a' as int + 10
    } else if 'A' <= c <= 'Z' {
        c as int - 'A' as int + 10
    } else {
        36
    }
}

/// All the characters of `s` are digits of `radix`.
pub open spec fn all_digits(s: Seq<char>, radix: u32) -> bool {
    forall|i: int| 0 <= i < s.len() ==> digit_value(#[trigger] s[i]) < radix
}

/// The value of the digits `s` in `radix`, the most significant first.
pub open spec fn digits_value(s: Seq<char>, radix: u32) -> int
    decreases s.len(),
{
    if s.len() == 0 {
        0
    } else {
        digits_value(s.drop_last(), radix) * radix + digit_value(s.last())
    }
}

/// The message with which an integer argument is refused.
pub open spec fn int_error_message_spec(kind: IntErrorKind) -> Seq<char> {
    match kind {
        IntErrorKind::Empty => "Empty"@,
        IntErrorKind::InvalidDigit => "Invalid digit"@,
        IntErrorKind::PosOverflow => "Integer too large"@,
        IntErrorKind::NegOverflow => "Integer too small"@,
        IntErrorKind::Zero => "Cannot be zero"@,
        IntErrorKind::Other => ""@,
    }
}

/// The message with which an integer argument is refused.
pub fn int_error_message(kind: IntErrorKind) -> (r: &'static str)
    ensures
        r@ == int_error_message_spec(kind),
{
    match kind {
        IntErrorKind::Empty => "Empty",
        IntErrorKind::InvalidDigit => "Invalid digit",
        IntErrorKind::PosOverflow => "Integer too large",
        IntErrorKind::NegOverflow => "Integer too small",
        IntErrorKind::Zero => "Cannot be zero",
        IntErrorKind::Other => "",
    }
}

/// The radix that a prefix of `s` selects: `0x` hexadecimal, `0b` binary, else decimal.
pub open spec fn radix_of(s: Seq<char>) -> u32 {
    if s.len() >= 2 && s[0] == '0' && s[1] == 'x' {
        16
    } else if s.len() >= 2 && s[0] == '0' && s[1] == 'b' {
        2
    } else {
        10
    }
}

/// The digits of `s`: after its prefix, if it has one.
pub open spec fn digits_of(s: Seq<char>) -> Seq<char> {
    if s.len() >= 2 && s[0] == '0' && (s[1] == 'x' || s[1] == 'b') {
        s.subrange(2, s.len() as int)
    } else {
        s
    }
}

/// The digits of `s` and their radix.
fn split_radix(s: &str) -> (r: (&str, u32))
    ensures
        r.0@ == digits_of(s@),
        r.1 == radix_of(s@),
{
    let len = s.unicode_len();
    if len >= 2 && s.get_char(0) == '0' && s.get_char(1) == 'x' {
        (s.substring_char(2, len), 16)
    } else if len >= 2 && s.get_char(0) == '0' && s.get_char(1) == 'b' {
        (s.substring_char(2, len), 2)
    } else {
        (s, 10)
    }
}

/// The digits of `s` after an optional leading `+`.
pub open spec fn unsigned_digits(s: Seq<char>) -> Seq<char> {
    if s.len() > 0 && s[0] == '+' {
        s.drop_first()
    } else {
        s
    }
}

/// What the documentation of `from_str_radix` on an unsigned type of largest value `max`
/// says it gives for `s` in `radix`: `Empty` for an empty string; `InvalidDigit` for a
/// `+` on its own; for an optional `+` followed by digits of the radix (0-9, then the
/// letters of either case), their value where it fits and `PosOverflow` where it does
/// not. Any other string is refused (`None` here: the documentation leaves its kind of
/// error open).
pub open spec fn radix_result(s: Seq<char>, radix: u32, max: int) -> Option<Result<int, IntErrorKind>> {
    let d = unsigned_digits(s);
    if s.len() == 0 {
        Some(Err(IntErrorKind::Empty))
    } else if d.len() == 0 {
        Some(Err(IntErrorKind::InvalidDigit))
    } else if all_digits(d, radix) {
        if digits_value(d, radix) <= max {
            Some(Ok(digits_value(d, radix)))
        } else {
            Some(Err(IntErrorKind::PosOverflow))
        }
    } else {
        None
    }
}

/// What `u8::from_str_radix` gives for the string `s` and the radix `radix`.
pub uninterp spec fn u8_from_str_radix_spec(s: Seq<char>, radix: u32) -> Result<u8, IntErrorKind>;

/// `u8::from_str_radix`, with the kind of its error. Its result is named; beside the
/// name stands what its documentation says (`radix_result`). Where that leaves the kind
/// of error open (a character that is not a digit), only that the string is refused is
/// stated.
#[verifier::external_body]
fn u8_from_str_radix(s: &str, radix: u32) -> (r: Result<u8, IntErrorKind>)
    requires
        2 <= radix <= 36,
    ensures
        r == u8_from_str_radix_spec(s@, radix),
        match radix_result(s@, radix, u8::MAX as int) {
            Some(Ok(v)) => r is Ok && r->Ok_0 == v,
            Some(Err(k)) => r is Err && r->Err_0 == k,
            None => r is Err,
        },
{
    match u8::from_str_radix(s, radix) {
        Ok(v) => Ok(v),
        Err(e) => Err(match e.kind() {
            core::num::IntErrorKind::Empty => IntErrorKind::Empty,
            core::num::IntErrorKind::InvalidDigit => IntErrorKind::InvalidDigit,
            core::num::IntErrorKind::PosOverflow => IntErrorKind::PosOverflow,
            core::num::IntErrorKind::NegOverflow => IntErrorKind::NegOverflow,
            core::num::IntErrorKind::Zero => IntErrorKind::Zero,
            _ => IntErrorKind::Other,
        }),
    }
}

/// The `u8` argument that `s` gives (decimal, or hexadecimal after `0x`, binary after
/// `0b`), or the message with which it is refused.
pub fn parse_u8(s: &str) -> (r: Result<u8, &'static str>)
    ensures
        match u8_from_str_radix_spec(digits_of(s@), radix_of(s@)) {
            Ok(v) => r is Ok && r->Ok_0 == v,
            Err(k) => r is Err && r->Err_0@ == int_error_message_spec(k),
        },
        match radix_result(digits_of(s@), radix_of(s@), u8::MAX as int) {
            Some(Ok(v)) => r is Ok && r->Ok_0 == v,
            Some(Err(k)) => r is Err && r->Err_0@ == int_error_message_spec(k),
            None => r is Err,
        },
{
    let (digits, radix) = split_radix(s);
    match u8_from_str_radix(digits, radix) {
        Ok(v) => Ok(v),
        Err(k) => Err(int_error_message(k)),
    }
}

/// What `u16::from_str_radix` gives for the string `s` and the radix `radix`.
pub uninterp spec fn u16_from_str_radix_spec(s: Seq<char>, radix: u32) -> Result<u16, IntErrorKind>;

/// `u16::from_str_radix`, with the kind of its error. Its result is named; beside the
/// name stands what its documentation says (`radix_result`). Where that leaves the kind
/// of error open (a character that is not a digit), only that the string is refused is
/// stated.
#[verifier::external_body]
fn u16_from_str_radix(s: &str, radix: u32) -> (r: Result<u16, IntErrorKind>)
    requires
        2 <= radix <= 36,
    ensures
        r == u16_from_str_radix_spec(s@, radix),
        match radix_result(s@, radix, u16::MAX as int) {
            Some(Ok(v)) => r is Ok && r->Ok_0 == v,
            Some(Err(k)) => r is Err && r->Err_0 == k,
            None => r is Err,
        },
{
    match u16::from_str_radix(s, radix) {
        Ok(v) => Ok(v),
        Err(e) => Err(match e.kind() {
            core::num::IntErrorKind::Empty => IntErrorKind::Empty,
            core::num::IntErrorKind::InvalidDigit => IntErrorKind::InvalidDigit,
            core::num::IntErrorKind::PosOverflow => IntErrorKind::PosOverflow,
            core::num::IntErrorKind::NegOverflow => IntErrorKind::NegOverflow,
            core::num::IntErrorKind::Zero => IntErrorKind::Zero,
            _ => IntErrorKind::Other,
        }),
    }
}

/// The `u16` argument that `s` gives (decimal, or hexadecimal after `0x`, binary after
/// `0b`), or the message with which it is refused.
pub fn parse_u16(s: &str) -> (r: Result<u16, &'static str>)
    ensures
        match u16_from_str_radix_spec(digits_of(s@), radix_of(s@)) {
            Ok(v) => r is Ok && r->Ok_0 == v,
            Err(k) => r is Err && r->Err_0@ == int_error_message_spec(k),
        },
        match radix_result(digits_of(s@), radix_of(s@), u16::MAX as int) {
            Some(Ok(v)) => r is Ok && r->Ok_0 == v,
            Some(Err(k)) => r is Err && r->Err_0@ == int_error_message_spec(k),
            None => r is Err,
        },
{
    let (digits, radix) = split_radix(s);
    match u16_from_str_radix(digits, radix) {
        Ok(v) => Ok(v),
        Err(k) => Err(int_error_message(k)),
    }
}

/// What `u32::from_str_radix` gives for the string `s` and the radix `radix`.
pub uninterp spec fn u32_from_str_radix_spec(s: Seq<char>, radix: u32) -> Result<u32, IntErrorKind>;

/// `u32::from_str_radix`, with the kind of its error. Its result is named; beside the
/// name stands what its documentation says (`radix_result`). Where that leaves the kind
/// of error open (a character that is not a digit), only that the string is refused is
/// stated.
#[verifier::external_body]
fn u32_from_str_radix(s: &str, radix: u32) -> (r: Result<u32, IntErrorKind>)
    requires
        2 <= radix <= 36,
    ensures
        r == u32_from_str_radix_spec(s@, radix),
        match radix_result(s@, radix, u32::MAX as int) {
            Some(Ok(v)) => r is Ok && r->Ok_0 == v,
            Some(Err(k)) => r is Err && r->Err_0 == k,
            None => r is Err,
        },
{
    match u32::from_str_radix(s, radix) {
        Ok(v) => Ok(v),
        Err(e) => Err(match e.kind() {
            core::num::IntErrorKind::Empty => IntErrorKind::Empty,
            core::num::IntErrorKind::InvalidDigit => IntErrorKind::InvalidDigit,
            core::num::IntErrorKind::PosOverflow => IntErrorKind::PosOverflow,
            core::num::IntErrorKind::NegOverflow => IntErrorKind::NegOverflow,
            core::num::IntErrorKind::Zero => IntErrorKind::Zero,
            _ => IntErrorKind::Other,
        }),
    }
}

/// The `u32` argument that `s` gives (decimal, or hexadecimal after `0x`, binary after
/// `0b`), or the message with which it is refused.
pub fn parse_u32(s: &str) -> (r: Result<u32, &'static str>)
    ensures
        match u32_from_str_radix_spec(digits_of(s@), radix_of(s@)) {
            Ok(v) => r is Ok && r->Ok_0 == v,
            Err(k) => r is Err && r->Err_0@ == int_error_message_spec(k),
        },
        match radix_result(digits_of(s@), radix_of(s@), u32::MAX as int) {
            Some(Ok(v)) => r is Ok && r->Ok_0 == v,
            Some(Err(k)) => r is Err && r->Err_0@ == int_error_message_spec(k),
            None => r is Err,
        },
{
    let (digits, radix) = split_radix(s);
    match u32_from_str_radix(digits, radix) {
        Ok(v) => Ok(v),
        Err(k) => Err(int_error_message(k)),
    }
}

/// What `usize::from_str_radix` gives for the string `s` and the radix `radix`.
pub uninterp spec fn usize_from_str_radix_spec(s: Seq<char>, radix: u32) -> Result<usize, IntErrorKind>;

/// `usize::from_str_radix`, with the kind of its error. Its result is named; beside the
/// name stands what its documentation says (`radix_result`). Where that leaves the kind
/// of error open (a character that is not a digit), only that the string is refused is
/// stated.
#[verifier::external_body]
fn usize_from_str_radix(s: &str, radix: u32) -> (r: Result<usize, IntErrorKind>)
    requires
        2 <= radix <= 36,
    ensures
        r == usize_from_str_radix_spec(s@, radix),
        match radix_result(s@, radix, usize::MAX as int) {
            Some(Ok(v)) => r is Ok && r->Ok_0 == v,
            Some(Err(k)) => r is Err && r->Err_0 == k,
            None => r is Err,
        },
{
    match usize::from_str_radix(s, radix) {
        Ok(v) => Ok(v),
        Err(e) => Err(match e.kind() {
            core::num::IntErrorKind::Empty => IntErrorKind::Empty,
            core::num::IntErrorKind::InvalidDigit => IntErrorKind::InvalidDigit,
            core::num::IntErrorKind::PosOverflow => IntErrorKind::PosOverflow,
            core::num::IntErrorKind::NegOverflow => IntErrorKind::NegOverflow,
            core::num::IntErrorKind::Zero => IntErrorKind::Zero,
            _ => IntErrorKind::Other,
        }),
    }
}

/// The `usize` argument that `s` gives (decimal, or hexadecimal after `0x`, binary after
/// `0b`), or the message with which it is refused.
pub fn parse_usize(s: &str) -> (r: Result<usize, &'static str>)
    ensures
        match usize_from_str_radix_spec(digits_of(s@), radix_of(s@)) {
            Ok(v) => r is Ok && r->Ok_0 == v,
            Err(k) => r is Err && r->Err_0@ == int_error_message_spec(k),
        },
        match radix_result(digits_of(s@), radix_of(s@), usize::MAX as int) {
            Some(Ok(v)) => r is Ok && r->Ok_0 == v,
            Some(Err(k)) => r is Err && r->Err_0@ == int_error_message_spec(k),
            None => r is Err,
        },
{
    let (digits, radix) = split_radix(s);
    match usize_from_str_radix(digits, radix) {
        Ok(v) => Ok(v),
        Err(k) => Err(int_error_message(k)),
    }
}

/// Whether `s` and `lit` hold the same characters.
fn str_eq(s: &str, lit: &str) -> (r: bool)
    ensures
        r == (s@ == lit@),
{
    let n = s.unicode_len();
    if n != lit.unicode_len() {
        return false;
    }
    let mut i: usize = 0;
    while i < n
        invariant
            i <= n,
            n == s@.len(),
            n == lit@.len(),
            forall|k: int| 0 <= k < i ==> s@[k] == lit@[k],
        decreases n - i,
    {
        if s.get_char(i) != lit.get_char(i) {
            return false;
        }
        i = i + 1;
    }
    assert(s@ =~= lit@);
    true
}

/// The `bool` argument that `s` gives, or the message with which it is refused.
pub fn parse_bool(s: &str) -> (r: Result<bool, &'static str>)
    ensures
        s@ == "true"@ ==> r is Ok && r->Ok_0 == true,
        s@ == "false"@ ==> r is Ok && r->Ok_0 == false,
        s@ != "true"@ && s@ != "false"@ ==> r is Err && r->Err_0@ == "Invalid repr, expected ['true', 'false']"@,
{
    proof {
        reveal_strlit("true");
        reveal_strlit("false");
        assert("true"@.len() == 4);
        assert("true"@ != "false"@);
    }
    if str_eq(s, "true") {
        Ok(true)
    } else if str_eq(s, "false") {
        Ok(false)
    } else {
        Err("Invalid repr, expected ['true', 'false']")
    }
}

/// What the command `gpio` does with a pin.
#[derive(Clone, Copy, Debug, PartialEq, Eq, Structural)]
pub enum GpioKind {
    Toggle,
    SetValue,
    Get,
}

/// The kind of `gpio` command that `s` names, or the message with which it is refused.
pub fn parse_gpio_kind(s: &str) -> (r: Result<GpioKind, &'static str>)
    ensures
        (s@ == "Toggle"@ || s@ == "toggle"@) ==> r is Ok && r->Ok_0 == GpioKind::Toggle,
        (s@ == "Get"@ || s@ == "get"@) ==> r is Ok && r->Ok_0 == GpioKind::Get,
        (s@ == "Set"@ || s@ == "set"@) ==> r is Ok && r->Ok_0 == GpioKind::SetValue,
        !(s@ == "Toggle"@ || s@ == "toggle"@ || s@ == "Get"@ || s@ == "get"@ || s@ == "Set"@ || s@ == "set"@)
            ==> r is Err && r->Err_0@ == "Invalid repr, expected ['Toggle', 'Set', 'Get']"@,
{
    proof {
        reveal_strlit("Toggle");
        reveal_strlit("toggle");
        reveal_strlit("Get");
        reveal_strlit("get");
        reveal_strlit("Set");
        reveal_strlit("set");
        assert("Toggle"@[0] == 'T');
        assert("toggle"@[0] == 't');
        assert("Get"@[0] == 'G');
        assert("get"@[0] == 'g');
        assert("Set"@[0] == 'S');
        assert("set"@[0] == 's');
        assert("Toggle"@ != "Get"@);
        assert("Toggle"@ != "get"@);
        assert("toggle"@ != "Get"@);
        assert("toggle"@ != "get"@);
        assert("Toggle"@ != "Set"@);
        assert("Toggle"@ != "set"@);
        assert("toggle"@ != "Set"@);
        assert("toggle"@ != "set"@);
        assert("Get"@ != "Set"@);
        assert("Get"@ != "set"@);
        assert("get"@ != "Set"@);
        assert("get"@ != "set"@);
    }
    if str_eq(s, "Toggle") || str_eq(s, "toggle") {
        Ok(GpioKind::Toggle)
    } else if str_eq(s, "Get") || str_eq(s, "get") {
        Ok(GpioKind::Get)
    } else if str_eq(s, "Set") || str_eq(s, "set") {
        Ok(GpioKind::SetValue)
    } else {
        Err("Invalid repr, expected ['Toggle', 'Set', 'Get']")
    }
}

/// What the command `timer` does with a timer.
#[derive(Clone, Copy, Debug, PartialEq, Eq, Structural)]
pub enum TimerOp {
    Read,
    Ei,
    E,
    C,
    Ci,
    SetLoad,
}

/// The kind of `timer` command that `s` names, or the message with which it is refused.
pub fn parse_timer_op(s: &str) -> (r: Result<TimerOp, &'static str>)
    ensures
        (s@ == "Read"@ || s@ == "read"@) ==> r is Ok && r->Ok_0 == TimerOp::Read,
        (s@ == "Ei"@ || s@ == "ei"@) ==> r is Ok && r->Ok_0 == TimerOp::Ei,
        (s@ == "E"@ || s@ == "e"@) ==> r is Ok && r->Ok_0 == TimerOp::E,
        (s@ == "C"@ || s@ == "c"@) ==> r is Ok && r->Ok_0 == TimerOp::C,
        (s@ == "Set"@ || s@ == "set"@) ==> r is Ok && r->Ok_0 == TimerOp::SetLoad,
        (s@ == "Ci"@ || s@ == "ci"@) ==> r is Ok && r->Ok_0 == TimerOp::Ci,
        !(s@ == "Read"@ || s@ == "read"@ || s@ == "Ei"@ || s@ == "ei"@ || s@ == "E"@ || s@ == "e"@ || s@ == "C"@
            || s@ == "c"@ || s@ == "Set"@ || s@ == "set"@ || s@ == "Ci"@ || s@ == "ci"@)
            ==> r is Err && r->Err_0@ == "Invalid repr, expected ['Read', 'Ei', 'E', 'C', 'Set']"@,
{
    proof {
        reveal_strlit("Read");
        reveal_strlit("read");
        reveal_strlit("Ei");
        reveal_strlit("ei");
        reveal_strlit("E");
        reveal_strlit("e");
        reveal_strlit("C");
        reveal_strlit("c");
        reveal_strlit("Set");
        reveal_strlit("set");
        reveal_strlit("Ci");
        reveal_strlit("ci");
        assert("Read"@[0] == 'R');
        assert("read"@[0] == 'r');
        assert("Ei"@[0] == 'E' && "Ei"@.len() == 2);
        assert("ei"@[0] == 'e' && "ei"@.len() == 2);
        assert("E"@[0] == 'E' && "E"@.len() == 1);
        assert("e"@[0] == 'e' && "e"@.len() == 1);
        assert("C"@[0] == 'C' && "C"@.len() == 1);
        assert("c"@[0] == 'c' && "c"@.len() == 1);
        assert("Set"@[0] == 'S');
        assert("set"@[0] == 's');
        assert("Ci"@[0] == 'C' && "Ci"@.len() == 2);
        assert("ci"@[0] == 'c' && "ci"@.len() == 2);
        assert("Read"@ != "Ei"@);
        assert("Read"@ != "ei"@);
        assert("read"@ != "Ei"@);
        assert("read"@ != "ei"@);
        assert("Read"@ != "E"@);
        assert("Read"@ != "e"@);
        assert("read"@ != "E"@);
        assert("read"@ != "e"@);
        assert("Read"@ != "C"@);
        assert("Read"@ != "c"@);
        assert("read"@ != "C"@);
        assert("read"@ != "c"@);
        assert("Read"@ != "Set"@);
        assert("Read"@ != "set"@);
        assert("read"@ != "Set"@);
        assert("read"@ != "set"@);
        assert("Read"@ != "Ci"@);
        assert("Read"@ != "ci"@);
        assert("read"@ != "Ci"@);
        assert("read"@ != "ci"@);
        assert("Ei"@ != "E"@);
        assert("Ei"@ != "e"@);
        assert("ei"@ != "E"@);
        assert("ei"@ != "e"@);
        assert("Ei"@ != "C"@);
        assert("Ei"@ != "c"@);
        assert("ei"@ != "C"@);
        assert("ei"@ != "c"@);
        assert("Ei"@ != "Set"@);
        assert("Ei"@ != "set"@);
        assert("ei"@ != "Set"@);
        assert("ei"@ != "set"@);
        assert("Ei"@ != "Ci"@);
        assert("Ei"@ != "ci"@);
        assert("ei"@ != "Ci"@);
        assert("ei"@ != "ci"@);
        assert("E"@ != "C"@);
        assert("E"@ != "c"@);
        assert("e"@ != "C"@);
        assert("e"@ != "c"@);
        assert("E"@ != "Set"@);
        assert("E"@ != "set"@);
        assert("e"@ != "Set"@);
        assert("e"@ != "set"@);
        assert("E"@ != "Ci"@);
        assert("E"@ != "ci"@);
        assert("e"@ != "Ci"@);
        assert("e"@ != "ci"@);
        assert("C"@ != "Set"@);
        assert("C"@ != "set"@);
        assert("c"@ != "Set"@);
        assert("c"@ != "set"@);
        assert("C"@ != "Ci"@);
        assert("C"@ != "ci"@);
        assert("c"@ != "Ci"@);
        assert("c"@ != "ci"@);
        assert("Set"@ != "Ci"@);
        assert("Set"@ != "ci"@);
        assert("set"@ != "Ci"@);
        assert("set"@ != "ci"@);
    }
    if str_eq(s, "Read") || str_eq(s, "read") {
        Ok(TimerOp::Read)
    } else if str_eq(s, "Ei") || str_eq(s, "ei") {
        Ok(TimerOp::Ei)
    } else if str_eq(s, "E") || str_eq(s, "e") {
        Ok(TimerOp::E)
    } else if str_eq(s, "C") || str_eq(s, "c") {
        Ok(TimerOp::C)
    } else if str_eq(s, "Set") || str_eq(s, "set") {
        Ok(TimerOp::SetLoad)
    } else if str_eq(s, "Ci") || str_eq(s, "ci") {
        Ok(TimerOp::Ci)
    } else {
        Err("Invalid repr, expected ['Read', 'Ei', 'E', 'C', 'Set']")
    }
}

/// The base address of the registers of the hardware timers.
pub const TIMERS_BASE: usize = 0x030A_0000;

/// A setting of a timer's control word.
#[derive(Clone, Copy, Debug, PartialEq, Eq, Structural)]
pub enum CtrlSetting {
    Masked(bool),
    Mode(TimerMode),
    Enabled(bool),
}

/// The control word `ctrl` with the setting `s`.
pub fn apply_ctrl(ctrl: u32, s: CtrlSetting) -> (r: u32)
    ensures
        r == match s {
            CtrlSetting::Masked(m) => if m { ctrl | 0b100 } else { ctrl & !0b100u32 },
            CtrlSetting::Mode(TimerMode::Free) => ctrl & !0b10u32,
            CtrlSetting::Mode(TimerMode::Count) => ctrl | 0b10,
            CtrlSetting::Enabled(e) => if e { ctrl | 0b1 } else { ctrl & !0b1u32 },
        },
{
    match s {
        CtrlSetting::Masked(m) => set_masked(ctrl, m),
        CtrlSetting::Mode(mode) => set_mode(ctrl, mode),
        CtrlSetting::Enabled(e) => set_enabled(ctrl, e),
    }
}

/// What the command `timer` does with the registers of a timer.
#[derive(Clone, Copy, Debug, PartialEq, Eq, Structural)]
pub enum TimerCommand {
    /// Show the load value, the current value, the control settings and the interrupt
    /// status of the timer whose registers start at `regs`, and the interrupt status of
    /// all timers.
    Report { regs: usize },
    /// Read the control word at `addr` and write it back with `setting`.
    Ctrl { addr: usize, setting: CtrlSetting },
    /// Read the register at `addr`, which clears the interrupts of all timers.
    ClearInterrupts { addr: usize },
    /// Write `value` as the load value at `addr`.
    Load { addr: usize, value: u32 },
}

/// What `timer t op val` does: its registers start at `TIMERS_BASE + t * 0x14`; `Ei`
/// masks the interrupt when `val` is not 0 and unmasks it when it is, `E` enables or
/// disables, `C` makes it count down or run free, `Ci` clears all interrupts and `Set`
/// writes the load value.
pub fn timer_command(t: usize, op: TimerOp, val: u32) -> (r: TimerCommand)
    requires
        TIMERS_BASE + t * 0x14 + 8 <= usize::MAX,
    ensures
        r == match op {
            TimerOp::Read => TimerCommand::Report { regs: (TIMERS_BASE + t * 0x14) as usize },
            TimerOp::Ei => TimerCommand::Ctrl { addr: (TIMERS_BASE + t * 0x14 + 8) as usize, setting: CtrlSetting::Masked(val != 0) },
            TimerOp::E => TimerCommand::Ctrl { addr: (TIMERS_BASE + t * 0x14 + 8) as usize, setting: CtrlSetting::Enabled(val != 0) },
            TimerOp::C => TimerCommand::Ctrl {
                addr: (TIMERS_BASE + t * 0x14 + 8) as usize,
                setting: CtrlSetting::Mode(if val != 0 { TimerMode::Count } else { TimerMode::Free }),
            },
            TimerOp::Ci => TimerCommand::ClearInterrupts { addr: (TIMERS_BASE + 0xa4) as usize },
            TimerOp::SetLoad => TimerCommand::Load { addr: (TIMERS_BASE + t * 0x14) as usize, value: val },
        },
{
    let tbase = TIMERS_BASE + t * 0x14;
    match op {
        TimerOp::Read => TimerCommand::Report { regs: tbase },
        TimerOp::Ei => TimerCommand::Ctrl { addr: tbase + 8, setting: CtrlSetting::Masked(val != 0) },
        TimerOp::E => TimerCommand::Ctrl { addr: tbase + 8, setting: CtrlSetting::Enabled(val != 0) },
        TimerOp::C => TimerCommand::Ctrl {
            addr: tbase + 8,
            setting: CtrlSetting::Mode(if val != 0 { TimerMode::Count } else { TimerMode::Free }),
        },
        TimerOp::Ci => TimerCommand::ClearInterrupts { addr: TIMERS_BASE + 0xa4 },
        TimerOp::SetLoad => TimerCommand::Load { addr: tbase, value: val },
    }
}

/// The binary digits of `v`, the most significant first, without leading zeros.
pub open spec fn binary_spec(v: nat) -> Seq<u8>
    decreases v,
{
    if v < 2 {
        seq![(48 + v) as u8]
    } else {
        binary_spec(v / 2).push((48 + v % 2) as u8)
    }
}

/// The binary digits of `v`, padded on the left with `0` to at least 8 digits.
pub open spec fn binary8_spec(v: nat) -> Seq<u8> {
    let d = binary_spec(v);
    if d.len() < 8 {
        Seq::new((8 - d.len()) as nat, |i: int| 48u8) + d
    } else {
        d
    }
}

fn push_binary(out: &mut Vec<u8>, v: u32)
    ensures
        final(out)@ == old(out)@ + binary_spec(v as nat),
    decreases v,
{
    if v >= 2 {
        push_binary(out, v / 2);
    }
    out.push(48 + (v % 2) as u8);
    assert(out@ =~= old(out)@ + binary_spec(v as nat));
}

fn push_binary8(out: &mut Vec<u8>, v: u32)
    ensures
        final(out)@ == old(out)@ + binary8_spec(v as nat),
{
    let mut d: Vec<u8> = Vec::new();
    push_binary(&mut d, v);
    assert(d@ =~= binary_spec(v as nat));
    let mut k: usize = d.len();
    while k < 8
        invariant
            d@ == binary_spec(v as nat),
            d.len() <= k <= 8 || k == d.len(),
            out@ == old(out)@ + Seq::new((k - d.len()) as nat, |i: int| 48u8),
        decreases 8 - k,
    {
        out.push(48u8);
        k = k + 1;
        assert(out@ =~= old(out)@ + Seq::new((k - d.len()) as nat, |i: int| 48u8));
    }
    push_slice(out, d.as_slice());
    assert(out@ =~= old(out)@ + binary8_spec(v as nat));
}

fn push_slice(out: &mut Vec<u8>, b: &[u8])
    ensures
        final(out)@ == old(out)@ + b@,
{
    let mut i: usize = 0;
    while i < b.len()
        invariant
            i <= b.len(),
            out@ == old(out)@ + b@.subrange(0, i as int),
        decreases b.len() - i,
    {
        out.push(b[i]);
        i = i + 1;
        assert(out@ =~= old(out)@ + b@.subrange(0, i as int));
    }
    assert(b@.subrange(0, b.len() as int) =~= b@);
}

/// `Timer` and the timer's number.
pub open spec fn timer_label(t: usize) -> Seq<u8> {
    seq![0x54u8, 0x69, 0x6D, 0x65, 0x72] + decimal_spec(t as nat)
}

/// One line of the report: the label, the text `tag`, the value shown and a line break.
pub open spec fn report_line(label: Seq<u8>, tag: Seq<u8>, value: Seq<u8>) -> Seq<u8> {
    label + tag + value + seq![0x0Au8]
}

/// What `timer t Read` shows of a timer whose registers read `load`, `curr`, `ctrl` and
/// `int_stat`, when the interrupt status of all timers reads `all`: one line each for the
/// load value, the current value, whether its interrupt is masked, its mode, whether it is
/// enabled, its interrupt status, then the status of all timers in eight binary digits.
pub open spec fn timer_report_spec(t: usize, load: u32, curr: u32, ctrl: u32, int_stat: u32, all: u32) -> Seq<u8> {
    let l = timer_label(t);
    report_line(l, seq![0x20u8, 0x6C, 0x6F, 0x61, 0x64, 0x3A, 0x20], decimal_spec(load as nat))
        + report_line(l, seq![0x20u8, 0x63, 0x75, 0x72, 0x72, 0x3A, 0x20], decimal_spec(curr as nat))
        + report_line(
        l,
        seq![0x20u8, 0x69, 0x6E, 0x74, 0x20, 0x6D, 0x61, 0x73, 0x6B, 0x3A, 0x20],
        if ctrl & 4 == 4 { seq![0x6Du8, 0x61, 0x73, 0x6B, 0x65, 0x64] } else {
            seq![0x6Eu8, 0x6F, 0x74, 0x20, 0x6D, 0x61, 0x73, 0x6B, 0x65, 0x64]
        },
    ) + report_line(
        l,
        seq![0x20u8, 0x6D, 0x6F, 0x64, 0x65, 0x3A, 0x20],
        if ctrl & 2 == 2 { seq![0x63u8, 0x6F, 0x75, 0x6E, 0x74] } else { seq![0x66u8, 0x72, 0x65, 0x65] },
    ) + report_line(
        l,
        seq![0x20u8, 0x65, 0x6E, 0x61, 0x62, 0x6C, 0x65, 0x3A, 0x20],
        if ctrl & 1 == 1 { seq![0x74u8, 0x72, 0x75, 0x65] } else { seq![0x66u8, 0x61, 0x6C, 0x73, 0x65] },
    ) + report_line(l, seq![0x20u8, 0x69, 0x6E, 0x74, 0x20, 0x73, 0x74, 0x61, 0x74, 0x3A, 0x20], decimal_spec(int_stat as nat))
        + report_line(
        seq![0x54u8, 0x69, 0x6D, 0x65, 0x72],
        seq![0x20u8, 0x69, 0x6E, 0x74, 0x20, 0x73, 0x74, 0x61, 0x74, 0x3A, 0x20, 0x30, 0x62],
        binary8_spec(all as nat),
    )
}

fn push_line(out: &mut Vec<u8>, label: &[u8], tag: &[u8], value: &[u8])
    ensures
        final(out)@ == old(out)@ + report_line(label@, tag@, value@),
{
    push_slice(out, label);
    push_slice(out, tag);
    push_slice(out, value);
    out.push(0x0A);
    assert(out@ =~= old(out)@ + report_line(label@, tag@, value@));
}

/// The report of `timer t Read`.
pub fn timer_report(t: usize, load: u32, curr: u32, ctrl: u32, int_stat: u32, all: u32) -> (r: Vec<u8>)
    ensures
        r@ == timer_report_spec(t, load, curr, ctrl, int_stat, all),
{
    let mut label: Vec<u8> = Vec::new();
    push_slice(&mut label, &[0x54u8, 0x69, 0x6D, 0x65, 0x72]);
    let d = decimal(t);
    push_slice(&mut label, d.as_slice());
    assert(label@ =~= timer_label(t));
    let l = label.as_slice();
    let mut out: Vec<u8> = Vec::new();
    push_line(&mut out, l, &[0x20u8, 0x6C, 0x6F, 0x61, 0x64, 0x3A, 0x20], decimal(load as usize).as_slice());
    push_line(&mut out, l, &[0x20u8, 0x63, 0x75, 0x72, 0x72, 0x3A, 0x20], decimal(curr as usize).as_slice());
    let masked: &[u8] = if ctrl & 4 == 4 {
        &[0x6Du8, 0x61, 0x73, 0x6B, 0x65, 0x64]
    } else {
        &[0x6Eu8, 0x6F, 0x74, 0x20, 0x6D, 0x61, 0x73, 0x6B, 0x65, 0x64]
    };
    push_line(&mut out, l, &[0x20u8, 0x69, 0x6E, 0x74, 0x20, 0x6D, 0x61, 0x73, 0x6B, 0x3A, 0x20], masked);
    let mode: &[u8] = if ctrl & 2 == 2 { &[0x63u8, 0x6F, 0x75, 0x6E, 0x74] } else { &[0x66u8, 0x72, 0x65, 0x65] };
    push_line(&mut out, l, &[0x20u8, 0x6D, 0x6F, 0x64, 0x65, 0x3A, 0x20], mode);
    let enabled: &[u8] = if ctrl & 1 == 1 { &[0x74u8, 0x72, 0x75, 0x65] } else { &[0x66u8, 0x61, 0x6C, 0x73, 0x65] };
    push_line(&mut out, l, &[0x20u8, 0x65, 0x6E, 0x61, 0x62, 0x6C, 0x65, 0x3A, 0x20], enabled);
    push_line(&mut out, l, &[0x20u8, 0x69, 0x6E, 0x74, 0x20, 0x73, 0x74, 0x61, 0x74, 0x3A, 0x20], decimal(int_stat as usize).as_slice());
    let mut bits: Vec<u8> = Vec::new();
    push_binary8(&mut bits, all);
    push_line(
        &mut out,
        &[0x54u8, 0x69, 0x6D, 0x65, 0x72],
        &[0x20u8, 0x69, 0x6E, 0x74, 0x20, 0x73, 0x74, 0x61, 0x74, 0x3A, 0x20, 0x30, 0x62],
        bits.as_slice(),
    );
    assert(out@ =~= timer_report_spec(t, load, curr, ctrl, int_stat, all));
    out
}

} // verus!

verus! {

/// The types of the commands' arguments.
#[derive(Clone, Copy, Debug, PartialEq, Eq, Structural)]
pub enum ArgType {
    Usize,
    U8,
    U16,
    U32,
    Bool,
    Gpio,
    Timer,
}

/// A parsed argument.
#[derive(Clone, Copy, Debug, PartialEq, Eq, Structural)]
pub enum ArgValue {
    Usize(usize),
    U8(u8),
    U16(u16),
    U32(u32),
    Bool(bool),
    Gpio(GpioKind),
    Timer(TimerOp),
}

/// An argument that a command takes: its name, its type and the value it has when it is
/// missing or does not parse, if it has one.
#[derive(Clone, Copy, Debug)]
pub struct ArgSpec {
    pub name: &'static str,
    pub ty: ArgType,
    pub default: Option<ArgValue>,
}

/// How the type of an argument is shown.
pub open spec fn disp_spec(ty: ArgType) -> Seq<char> {
    match ty {
        ArgType::Usize => "usize"@,
        ArgType::U8 => "u8"@,
        ArgType::U16 => "u16"@,
        ArgType::U32 => "u32"@,
        ArgType::Bool => "bool"@,
        ArgType::Gpio => "[Toggle, Set, Get]"@,
        ArgType::Timer => "[Read, Ei, E, C, Ci, Set]"@,
    }
}

/// How the type of an argument is shown.
pub fn disp(ty: ArgType) -> (r: &'static str)
    ensures
        r@ == disp_spec(ty),
{
    match ty {
        ArgType::Usize => "usize",
        ArgType::U8 => "u8",
        ArgType::U16 => "u16",
        ArgType::U32 => "u32",
        ArgType::Bool => "bool",
        ArgType::Gpio => "[Toggle, Set, Get]",
        ArgType::Timer => "[Read, Ei, E, C, Ci, Set]",
    }
}

/// The argument of type `ty` that `tok` gives, if it parses.
pub open spec fn arg_value_spec(ty: ArgType, tok: Seq<char>) -> Option<ArgValue> {
    match ty {
        ArgType::Usize => match usize_from_str_radix_spec(digits_of(tok), radix_of(tok)) {
            Ok(x) => Some(ArgValue::Usize(x)),
            Err(_) => None,
        },
        ArgType::U8 => match u8_from_str_radix_spec(digits_of(tok), radix_of(tok)) {
            Ok(x) => Some(ArgValue::U8(x)),
            Err(_) => None,
        },
        ArgType::U16 => match u16_from_str_radix_spec(digits_of(tok), radix_of(tok)) {
            Ok(x) => Some(ArgValue::U16(x)),
            Err(_) => None,
        },
        ArgType::U32 => match u32_from_str_radix_spec(digits_of(tok), radix_of(tok)) {
            Ok(x) => Some(ArgValue::U32(x)),
            Err(_) => None,
        },
        ArgType::Bool => if tok == "true"@ {
            Some(ArgValue::Bool(true))
        } else if tok == "false"@ {
            Some(ArgValue::Bool(false))
        } else {
            None
        },
        ArgType::Gpio => if tok == "Toggle"@ || tok == "toggle"@ {
            Some(ArgValue::Gpio(GpioKind::Toggle))
        } else if tok == "Get"@ || tok == "get"@ {
            Some(ArgValue::Gpio(GpioKind::Get))
        } else if tok == "Set"@ || tok == "set"@ {
            Some(ArgValue::Gpio(GpioKind::SetValue))
        } else {
            None
        },
        ArgType::Timer => if tok == "Read"@ || tok == "read"@ {
            Some(ArgValue::Timer(TimerOp::Read))
        } else if tok == "Ei"@ || tok == "ei"@ {
            Some(ArgValue::Timer(TimerOp::Ei))
        } else if tok == "E"@ || tok == "e"@ {
            Some(ArgValue::Timer(TimerOp::E))
        } else if tok == "C"@ || tok == "c"@ {
            Some(ArgValue::Timer(TimerOp::C))
        } else if tok == "Set"@ || tok == "set"@ {
            Some(ArgValue::Timer(TimerOp::SetLoad))
        } else if tok == "Ci"@ || tok == "ci"@ {
            Some(ArgValue::Timer(TimerOp::Ci))
        } else {
            None
        },
    }
}

/// The message with which `tok` is refused as an argument of type `ty`.
pub open spec fn arg_error_spec(ty: ArgType, tok: Seq<char>) -> Seq<char> {
    match ty {
        ArgType::Usize => match usize_from_str_radix_spec(digits_of(tok), radix_of(tok)) {
            Err(k) => int_error_message_spec(k),
            Ok(_) => seq![],
        },
        ArgType::U8 => match u8_from_str_radix_spec(digits_of(tok), radix_of(tok)) {
            Err(k) => int_error_message_spec(k),
            Ok(_) => seq![],
        },
        ArgType::U16 => match u16_from_str_radix_spec(digits_of(tok), radix_of(tok)) {
            Err(k) => int_error_message_spec(k),
            Ok(_) => seq![],
        },
        ArgType::U32 => match u32_from_str_radix_spec(digits_of(tok), radix_of(tok)) {
            Err(k) => int_error_message_spec(k),
            Ok(_) => seq![],
        },
        ArgType::Bool => "Invalid repr, expected ['true', 'false']"@,
        ArgType::Gpio => "Invalid repr, expected ['Toggle', 'Set', 'Get']"@,
        ArgType::Timer => "Invalid repr, expected ['Read', 'Ei', 'E', 'C', 'Set']"@,
    }
}

/// The argument of type `ty` that `tok` gives, or the message with which it is refused.
pub fn parse_arg(ty: ArgType, tok: &str) -> (r: Result<ArgValue, &'static str>)
    ensures
        r matches Ok(v) ==> arg_value_spec(ty, tok@) == Some(v),
        r matches Err(m) ==> arg_value_spec(ty, tok@) is None && m@ == arg_error_spec(ty, tok@),
{
    proof {
        reveal_strlit("true");
        reveal_strlit("false");
        reveal_strlit("Toggle");
        reveal_strlit("toggle");
        reveal_strlit("Get");
        reveal_strlit("get");
        reveal_strlit("Set");
        reveal_strlit("set");
        reveal_strlit("Read");
        reveal_strlit("read");
        reveal_strlit("Ei");
        reveal_strlit("ei");
        reveal_strlit("E");
        reveal_strlit("e");
        reveal_strlit("C");
        reveal_strlit("c");
        reveal_strlit("Ci");
        reveal_strlit("ci");
    }
    match ty {
        ArgType::Usize => match parse_usize(tok) {
            Ok(v) => Ok(ArgValue::Usize(v)),
            Err(e) => Err(e),
        },
        ArgType::U8 => match parse_u8(tok) {
            Ok(v) => Ok(ArgValue::U8(v)),
            Err(e) => Err(e),
        },
        ArgType::U16 => match parse_u16(tok) {
            Ok(v) => Ok(ArgValue::U16(v)),
            Err(e) => Err(e),
        },
        ArgType::U32 => match parse_u32(tok) {
            Ok(v) => Ok(ArgValue::U32(v)),
            Err(e) => Err(e),
        },
        ArgType::Bool => match parse_bool(tok) {
            Ok(v) => Ok(ArgValue::Bool(v)),
            Err(e) => Err(e),
        },
        ArgType::Gpio => match parse_gpio_kind(tok) {
            Ok(v) => Ok(ArgValue::Gpio(v)),
            Err(e) => Err(e),
        },
        ArgType::Timer => match parse_timer_op(tok) {
            Ok(v) => Ok(ArgValue::Timer(v)),
            Err(e) => Err(e),
        },
    }
}

} // verus!

verus! {

/// Why the arguments of a command are refused.
#[derive(Clone, Copy, Debug)]
pub enum ArgError {
    /// The argument does not parse and has no default.
    Bad { name: &'static str, ty: ArgType, err: &'static str },
    /// The argument is missing and has no default.
    Missing { name: &'static str, ty: ArgType },
}

/// What the arguments of a command come to: their values, or the first argument that is
/// refused (by its index) with the message, or the first missing one.
pub enum ArgsOutcome {
    Values(Seq<ArgValue>),
    Bad(int, Seq<char>),
    Missing(int),
}

/// The outcome of the arguments `schema` from the `i`-th on, with the words `toks` from
/// the `j`-th on. An argument takes the next word if it parses; one that has a default
/// takes it, and leaves the word, when the word is missing or does not parse.
pub open spec fn args_outcome(toks: Seq<Seq<char>>, schema: Seq<ArgSpec>, i: int, j: int) -> ArgsOutcome
    decreases schema.len() - i,
{
    if i < 0 || i >= schema.len() {
        ArgsOutcome::Values(seq![])
    } else {
        let a = schema[i];
        let step: Option<(ArgValue, int)> = if 0 <= j < toks.len() {
            match arg_value_spec(a.ty, toks[j]) {
                Some(v) => Some((v, j + 1)),
                None => match a.default {
                    Some(d) => Some((d, j)),
                    None => None,
                },
            }
        } else {
            match a.default {
                Some(d) => Some((d, j)),
                None => None,
            }
        };
        match step {
            None => if 0 <= j < toks.len() {
                ArgsOutcome::Bad(i, arg_error_spec(a.ty, toks[j]))
            } else {
                ArgsOutcome::Missing(i)
            },
            Some((v, nj)) => match args_outcome(toks, schema, i + 1, nj) {
                ArgsOutcome::Values(vs) => ArgsOutcome::Values(seq![v] + vs),
                other => other,
            },
        }
    }
}

/// `vs` before the values of `o`.
pub open spec fn prepend(vs: Seq<ArgValue>, o: ArgsOutcome) -> ArgsOutcome {
    match o {
        ArgsOutcome::Values(ws) => ArgsOutcome::Values(vs + ws),
        other => other,
    }
}

/// The words of a line, by their views.
pub open spec fn views(toks: Seq<&str>) -> Seq<Seq<char>> {
    Seq::new(toks.len(), |k: int| toks[k]@)
}

/// Parses the arguments `schema` from the words `toks`.
pub fn parse_args(toks: &Vec<&str>, schema: &Vec<ArgSpec>) -> (r: Result<Vec<ArgValue>, ArgError>)
    ensures
        match args_outcome(views(toks@), schema@, 0, 0) {
            ArgsOutcome::Values(vs) => r is Ok && r->Ok_0@ == vs,
            ArgsOutcome::Bad(i, m) => r matches Err(ArgError::Bad { name, ty, err })
                && name == schema@[i].name && ty == schema@[i].ty && err@ == m,
            ArgsOutcome::Missing(i) => r matches Err(ArgError::Missing { name, ty })
                && name == schema@[i].name && ty == schema@[i].ty,
        },
{
    let ghost t = views(toks@);
    let mut values: Vec<ArgValue> = Vec::new();
    let mut i: usize = 0;
    let mut j: usize = 0;
    while i < schema.len()
        invariant
            i <= schema.len(),
            j <= toks.len(),
            t == views(toks@),
            args_outcome(t, schema@, 0, 0) == prepend(values@, args_outcome(t, schema@, i as int, j as int)),
        decreases schema.len() - i,
    {
        let a = schema[i];
        let ghost rest = args_outcome(t, schema@, i as int, j as int);
        let ghost old_values = values@;
        if j < toks.len() {
            match parse_arg(a.ty, toks[j]) {
                Ok(v) => {
                    proof {
                        assert(t[j as int] == toks@[j as int]@);
                    }
                    values.push(v);
                    j = j + 1;
                },
                Err(err) => {
                    proof {
                        assert(t[j as int] == toks@[j as int]@);
                    }
                    match a.default {
                        Some(d) => {
                            values.push(d);
                        },
                        None => {
                            return Err(ArgError::Bad { name: a.name, ty: a.ty, err });
                        },
                    }
                },
            }
        } else {
            match a.default {
                Some(d) => {
                    values.push(d);
                },
                None => {
                    return Err(ArgError::Missing { name: a.name, ty: a.ty });
                },
            }
        }
        i = i + 1;
        proof {
            let new_o = args_outcome(t, schema@, i as int, j as int);
            assert(values@ == old_values.push(values@.last()));
            assert(rest == prepend(seq![values@.last()], new_o));
            match new_o {
                ArgsOutcome::Values(ws) => {
                    assert(old_values + (seq![values@.last()] + ws) =~= values@ + ws);
                },
                _ => {},
            }
        }
    }
    assert(values@ + seq![] =~= values@);
    Ok(values)
}

} // verus!

verus! {

/// A command of the boot loader: its name, its help and its arguments.
pub struct CommandSpec {
    pub name: &'static str,
    pub help: &'static str,
    pub args: Vec<ArgSpec>,
}

/// The number of commands.
pub const COMMAND_COUNT: usize = 31;

/// The names of the commands, in the order in which they are looked up.
pub open spec fn command_names() -> Seq<Seq<char>> {
    seq!["help"@, "clear"@, "goto"@, "memset"@, "mw.8"@, "mw.16"@, "mw.32"@, "md.8"@, "md.16"@, "md.32"@, "start"@, "panic"@, "reset"@, "gpio"@, "sap"@, "ebreak"@, "ecall"@, "mtimer"@, "timer"@, "csrs"@, "mstatuss"@, "mstatusc"@, "mies"@, "miec"@, "plicd"@, "plics"@, "mcycle"@, "scr"@, "scs"@, "lsc"@, "lpc"@]
}

/// The help text of each command, in the order of `command_names`.
pub open spec fn command_helps() -> Seq<Seq<char>> {
    seq!["prints this message"@, "Clears the screen"@, "(addr: usize) jumps to the specified address"@, "(addr: usize, len: usize, val: u8) writes 'val' to address 'addr' for 'len' bytes"@, "(addr: usize, val: u8) writes 'val' to address 'addr'"@, "(addr: usize, val: u16) writes 'val' to address 'addr'"@, "(addr: usize, val: u32) writes 'val' to address 'addr'"@, "(addr: usize, count: usize = 256) displays 'count' u8s starting at 'addr'"@, "(addr: usize, count: usize = 256) displays 'count' u16s starting at 'addr'"@, "(addr: usize, count: usize = 256) displays 'count' u32s starting at 'addr'"@, "prints the starting address of this bootloader"@, "(msg: &str) panics with the provided message"@, "resets the board"@, "(kind: [Toggle, Set, Get], pin: u8, value: bool = false) modifies gpio"@, ""@, ""@, ""@, "reads mtime/mtimecmp"@, "(t: usize, op: [Read, Ei, E, C, Ci, Set], val: u32 = 0)"@, ""@, "(val: usize)"@, "(val: usize)"@, "(val: usize)"@, "(val: usize)"@, ""@, "(int: u32, pri: u32)"@, ""@, ""@, ""@, ""@, ""@]
}

/// The arguments of the command `i`.
pub open spec fn command_args(i: int) -> Seq<ArgSpec> {
    if i == 2 {
        seq![ArgSpec { name: "addr", ty: ArgType::Usize, default: None }]
    } else if i == 3 {
        seq![ArgSpec { name: "addr", ty: ArgType::Usize, default: None }, ArgSpec { name: "len", ty: ArgType::Usize, default: None }, ArgSpec { name: "val", ty: ArgType::U8, default: None }]
    } else if i == 4 {
        seq![ArgSpec { name: "addr", ty: ArgType::Usize, default: None }, ArgSpec { name: "val", ty: ArgType::U8, default: None }]
    } else if i == 5 {
        seq![ArgSpec { name: "addr", ty: ArgType::Usize, default: None }, ArgSpec { name: "val", ty: ArgType::U16, default: None }]
    } else if i == 6 {
        seq![ArgSpec { name: "addr", ty: ArgType::Usize, default: None }, ArgSpec { name: "val", ty: ArgType::U32, default: None }]
    } else if i == 7 {
        seq![ArgSpec { name: "addr", ty: ArgType::Usize, default: None }, ArgSpec { name: "count", ty: ArgType::Usize, default: Some(ArgValue::Usize(256)) }]
    } else if i == 8 {
        seq![ArgSpec { name: "addr", ty: ArgType::Usize, default: None }, ArgSpec { name: "count", ty: ArgType::Usize, default: Some(ArgValue::Usize(256)) }]
    } else if i == 9 {
        seq![ArgSpec { name: "addr", ty: ArgType::Usize, default: None }, ArgSpec { name: "count", ty: ArgType::Usize, default: Some(ArgValue::Usize(256)) }]
    } else if i == 13 {
        seq![ArgSpec { name: "kind", ty: ArgType::Gpio, default: None }, ArgSpec { name: "pin", ty: ArgType::U8, default: None }, ArgSpec { name: "value", ty: ArgType::Bool, default: Some(ArgValue::Bool(false)) }]
    } else if i == 18 {
        seq![ArgSpec { name: "t", ty: ArgType::Usize, default: None }, ArgSpec { name: "op", ty: ArgType::Timer, default: None }, ArgSpec { name: "val", ty: ArgType::U32, default: Some(ArgValue::U32(0)) }]
    } else if i == 20 {
        seq![ArgSpec { name: "val", ty: ArgType::Usize, default: None }]
    } else if i == 21 {
        seq![ArgSpec { name: "val", ty: ArgType::Usize, default: None }]
    } else if i == 22 {
        seq![ArgSpec { name: "val", ty: ArgType::Usize, default: None }]
    } else if i == 23 {
        seq![ArgSpec { name: "val", ty: ArgType::Usize, default: None }]
    } else if i == 25 {
        seq![ArgSpec { name: "int", ty: ArgType::U32, default: None }, ArgSpec { name: "pri", ty: ArgType::U32, default: None }]
    } else {
        seq![]
    }
}

/// The commands of the boot loader, in the order in which they are looked up.
pub fn commands() -> (r: Vec<CommandSpec>)
    ensures
        r.len() == COMMAND_COUNT,
        forall|i: int| 0 <= i < COMMAND_COUNT ==> (#[trigger] r[i]).name@ == command_names()[i] && r[i].help@ == command_helps()[i]
            && r[i].args@ == command_args(i),
{
    let mut r: Vec<CommandSpec> = Vec::new();
    r.push(CommandSpec { name: "help", help: "prints this message", args: vec![] });
    assert(r[0].name@ == command_names()[0] && r[0].help@ == command_helps()[0] && r[0].args@ == command_args(0));
    r.push(CommandSpec { name: "clear", help: "Clears the screen", args: vec![] });
    assert(r[1].name@ == command_names()[1] && r[1].help@ == command_helps()[1] && r[1].args@ == command_args(1));
    r.push(CommandSpec { name: "goto", help: "(addr: usize) jumps to the specified address", args: vec![ArgSpec { name: "addr", ty: ArgType::Usize, default: None }] });
    assert(r[2].name@ == command_names()[2] && r[2].help@ == command_helps()[2] && r[2].args@ == command_args(2));
    r.push(CommandSpec { name: "memset", help: "(addr: usize, len: usize, val: u8) writes 'val' to address 'addr' for 'len' bytes", args: vec![ArgSpec { name: "addr", ty: ArgType::Usize, default: None }, ArgSpec { name: "len", ty: ArgType::Usize, default: None }, ArgSpec { name: "val", ty: ArgType::U8, default: None }] });
    assert(r[3].name@ == command_names()[3] && r[3].help@ == command_helps()[3] && r[3].args@ == command_args(3));
    r.push(CommandSpec { name: "mw.8", help: "(addr: usize, val: u8) writes 'val' to address 'addr'", args: vec![ArgSpec { name: "addr", ty: ArgType::Usize, default: None }, ArgSpec { name: "val", ty: ArgType::U8, default: None }] });
    assert(r[4].name@ == command_names()[4] && r[4].help@ == command_helps()[4] && r[4].args@ == command_args(4));
    r.push(CommandSpec { name: "mw.16", help: "(addr: usize, val: u16) writes 'val' to address 'addr'", args: vec![ArgSpec { name: "addr", ty: ArgType::Usize, default: None }, ArgSpec { name: "val", ty: ArgType::U16, default: None }] });
    assert(r[5].name@ == command_names()[5] && r[5].help@ == command_helps()[5] && r[5].args@ == command_args(5));
    r.push(CommandSpec { name: "mw.32", help: "(addr: usize, val: u32) writes 'val' to address 'addr'", args: vec![ArgSpec { name: "addr", ty: ArgType::Usize, default: None }, ArgSpec { name: "val", ty: ArgType::U32, default: None }] });
    assert(r[6].name@ == command_names()[6] && r[6].help@ == command_helps()[6] && r[6].args@ == command_args(6));
    r.push(CommandSpec { name: "md.8", help: "(addr: usize, count: usize = 256) displays 'count' u8s starting at 'addr'", args: vec![ArgSpec { name: "addr", ty: ArgType::Usize, default: None }, ArgSpec { name: "count", ty: ArgType::Usize, default: Some(ArgValue::Usize(256)) }] });
    assert(r[7].name@ == command_names()[7] && r[7].help@ == command_helps()[7] && r[7].args@ == command_args(7));
    r.push(CommandSpec { name: "md.16", help: "(addr: usize, count: usize = 256) displays 'count' u16s starting at 'addr'", args: vec![ArgSpec { name: "addr", ty: ArgType::Usize, default: None }, ArgSpec { name: "count", ty: ArgType::Usize, default: Some(ArgValue::Usize(256)) }] });
    assert(r[8].name@ == command_names()[8] && r[8].help@ == command_helps()[8] && r[8].args@ == command_args(8));
    r.push(CommandSpec { name: "md.32", help: "(addr: usize, count: usize = 256) displays 'count' u32s starting at 'addr'", args: vec![ArgSpec { name: "addr", ty: ArgType::Usize, default: None }, ArgSpec { name: "count", ty: ArgType::Usize, default: Some(ArgValue::Usize(256)) }] });
    assert(r[9].name@ == command_names()[9] && r[9].help@ == command_helps()[9] && r[9].args@ == command_args(9));
    r.push(CommandSpec { name: "start", help: "prints the starting address of this bootloader", args: vec![] });
    assert(r[10].name@ == command_names()[10] && r[10].help@ == command_helps()[10] && r[10].args@ == command_args(10));
    r.push(CommandSpec { name: "panic", help: "(msg: &str) panics with the provided message", args: vec![] });
    assert(r[11].name@ == command_names()[11] && r[11].help@ == command_helps()[11] && r[11].args@ == command_args(11));
    r.push(CommandSpec { name: "reset", help: "resets the board", args: vec![] });
    assert(r[12].name@ == command_names()[12] && r[12].help@ == command_helps()[12] && r[12].args@ == command_args(12));
    r.push(CommandSpec { name: "gpio", help: "(kind: [Toggle, Set, Get], pin: u8, value: bool = false) modifies gpio", args: vec![ArgSpec { name: "kind", ty: ArgType::Gpio, default: None }, ArgSpec { name: "pin", ty: ArgType::U8, default: None }, ArgSpec { name: "value", ty: ArgType::Bool, default: Some(ArgValue::Bool(false)) }] });
    assert(r[13].name@ == command_names()[13] && r[13].help@ == command_helps()[13] && r[13].args@ == command_args(13));
    r.push(CommandSpec { name: "sap", help: "", args: vec![] });
    assert(r[14].name@ == command_names()[14] && r[14].help@ == command_helps()[14] && r[14].args@ == command_args(14));
    r.push(CommandSpec { name: "ebreak", help: "", args: vec![] });
    assert(r[15].name@ == command_names()[15] && r[15].help@ == command_helps()[15] && r[15].args@ == command_args(15));
    r.push(CommandSpec { name: "ecall", help: "", args: vec![] });
    assert(r[16].name@ == command_names()[16] && r[16].help@ == command_helps()[16] && r[16].args@ == command_args(16));
    r.push(CommandSpec { name: "mtimer", help: "reads mtime/mtimecmp", args: vec![] });
    assert(r[17].name@ == command_names()[17] && r[17].help@ == command_helps()[17] && r[17].args@ == command_args(17));
    r.push(CommandSpec { name: "timer", help: "(t: usize, op: [Read, Ei, E, C, Ci, Set], val: u32 = 0)", args: vec![ArgSpec { name: "t", ty: ArgType::Usize, default: None }, ArgSpec { name: "op", ty: ArgType::Timer, default: None }, ArgSpec { name: "val", ty: ArgType::U32, default: Some(ArgValue::U32(0)) }] });
    assert(r[18].name@ == command_names()[18] && r[18].help@ == command_helps()[18] && r[18].args@ == command_args(18));
    r.push(CommandSpec { name: "csrs", help: "", args: vec![] });
    assert(r[19].name@ == command_names()[19] && r[19].help@ == command_helps()[19] && r[19].args@ == command_args(19));
    r.push(CommandSpec { name: "mstatuss", help: "(val: usize)", args: vec![ArgSpec { name: "val", ty: ArgType::Usize, default: None }] });
    assert(r[20].name@ == command_names()[20] && r[20].help@ == command_helps()[20] && r[20].args@ == command_args(20));
    r.push(CommandSpec { name: "mstatusc", help: "(val: usize)", args: vec![ArgSpec { name: "val", ty: ArgType::Usize, default: None }] });
    assert(r[21].name@ == command_names()[21] && r[21].help@ == command_helps()[21] && r[21].args@ == command_args(21));
    r.push(CommandSpec { name: "mies", help: "(val: usize)", args: vec![ArgSpec { name: "val", ty: ArgType::Usize, default: None }] });
    assert(r[22].name@ == command_names()[22] && r[22].help@ == command_helps()[22] && r[22].args@ == command_args(22));
    r.push(CommandSpec { name: "miec", help: "(val: usize)", args: vec![ArgSpec { name: "val", ty: ArgType::Usize, default: None }] });
    assert(r[23].name@ == command_names()[23] && r[23].help@ == command_helps()[23] && r[23].args@ == command_args(23));
    r.push(CommandSpec { name: "plicd", help: "", args: vec![] });
    assert(r[24].name@ == command_names()[24] && r[24].help@ == command_helps()[24] && r[24].args@ == command_args(24));
    r.push(CommandSpec { name: "plics", help: "(int: u32, pri: u32)", args: vec![ArgSpec { name: "int", ty: ArgType::U32, default: None }, ArgSpec { name: "pri", ty: ArgType::U32, default: None }] });
    assert(r[25].name@ == command_names()[25] && r[25].help@ == command_helps()[25] && r[25].args@ == command_args(25));
    r.push(CommandSpec { name: "mcycle", help: "", args: vec![] });
    assert(r[26].name@ == command_names()[26] && r[26].help@ == command_helps()[26] && r[26].args@ == command_args(26));
    r.push(CommandSpec { name: "scr", help: "", args: vec![] });
    assert(r[27].name@ == command_names()[27] && r[27].help@ == command_helps()[27] && r[27].args@ == command_args(27));
    r.push(CommandSpec { name: "scs", help: "", args: vec![] });
    assert(r[28].name@ == command_names()[28] && r[28].help@ == command_helps()[28] && r[28].args@ == command_args(28));
    r.push(CommandSpec { name: "lsc", help: "", args: vec![] });
    assert(r[29].name@ == command_names()[29] && r[29].help@ == command_helps()[29] && r[29].args@ == command_args(29));
    r.push(CommandSpec { name: "lpc", help: "", args: vec![] });
    assert(r[30].name@ == command_names()[30] && r[30].help@ == command_helps()[30] && r[30].args@ == command_args(30));
    r
}

} // verus!

verus! {

/// The command of a line and the text of its arguments: the line trimmed and cut at its
/// first space, the arguments trimmed; without a space there, the command is the line as
/// it came, not trimmed, and there are no arguments.
pub open spec fn command_line_spec(line: Seq<char>) -> (Seq<char>, Seq<char>) {
    match split_once_spec(trim_spec(line)) {
        Some((c, a)) => (c, trim_spec(a)),
        None => (line, seq![]),
    }
}

/// The first of the names `names` from the `i`-th on that is `name`.
pub open spec fn find_name(names: Seq<Seq<char>>, name: Seq<char>, i: int) -> Option<int>
    decreases names.len() - i,
{
    if i < 0 || i >= names.len() {
        None
    } else if names[i] == name {
        Some(i)
    } else {
        find_name(names, name, i + 1)
    }
}

/// The names of the commands of `table`.
pub open spec fn table_names(table: Seq<CommandSpec>) -> Seq<Seq<char>> {
    Seq::new(table.len(), |k: int| table[k].name@)
}

/// A line that names a command whose arguments parse.
pub struct ParsedCommand<'a> {
    /// The command, by its index in the table.
    pub index: usize,
    /// The text of the arguments.
    pub args: &'a str,
    /// The values of the arguments.
    pub values: Vec<ArgValue>,
}

/// Why a line is refused.
pub enum CommandError<'a> {
    /// No command has this name.
    Unknown(&'a str),
    /// The arguments are refused.
    Args(ArgError),
}

/// The command that `line` names in `table`, with its arguments, or why it is refused.
pub fn parse_command<'a>(table: &Vec<CommandSpec>, line: &'a str) -> (r: Result<ParsedCommand<'a>, CommandError<'a>>)
    ensures
        ({
            let (c, a) = command_line_spec(line@);
            match find_name(table_names(table@), c, 0) {
                None => r matches Err(CommandError::Unknown(n)) && n@ == c,
                Some(i) => match args_outcome(words_from(a, 0), table@[i].args@, 0, 0) {
                    ArgsOutcome::Values(vs) => r matches Ok(p) && p.index == i && p.args@ == a && p.values@ == vs,
                    ArgsOutcome::Bad(k, m) => r matches Err(CommandError::Args(ArgError::Bad { name, ty, err }))
                        && name == table@[i].args@[k].name && ty == table@[i].args@[k].ty && err@ == m,
                    ArgsOutcome::Missing(k) => r matches Err(CommandError::Args(ArgError::Missing { name, ty }))
                        && name == table@[i].args@[k].name && ty == table@[i].args@[k].ty,
                },
            }
        }),
{
    let msg = trim(line);
    let (cmd, rest) = match split_once(msg) {
        Some(p) => p,
        None => (line, ""),
    };
    let args = trim(rest);
    proof {
        reveal_strlit("");
        if split_once_spec(trim_spec(line@)) is None {
            assert(trim_spec(""@) =~= seq![]) by {
                assert(skip_from(""@, 0, false) == 0);
            }
        }
    }
    let ghost names = table_names(table@);
    assert(command_line_spec(line@) == (cmd@, args@));
    let mut i: usize = 0;
    while i < table.len()
        invariant
            i <= table.len(),
            names == table_names(table@),
            command_line_spec(line@) == (cmd@, args@),
            find_name(names, cmd@, i as int) == find_name(names, cmd@, 0),
        decreases table.len() - i,
    {
        if str_eq(table[i].name, cmd) {
            let toks = split_whitespace(args);
            proof {
                assert(names[i as int] == table@[i as int].name@);
                assert(find_name(names, cmd@, i as int) == Some(i as int));
                assert(views(toks@) =~= words_from(args@, 0));
                assert(command_line_spec(line@) == (cmd@, args@));
            }
            return match parse_args(&toks, &table[i].args) {
                Ok(values) => Ok(ParsedCommand { index: i, args, values }),
                Err(e) => Err(CommandError::Args(e)),
            };
        }
        i = i + 1;
    }
    Err(CommandError::Unknown(cmd))
}

} // verus!
