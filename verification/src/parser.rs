//! Parser for the C `printf` format mini-language.
//!
//! A format string is a raw byte sequence (it may come from C and need not be
//! UTF-8). The parser turns it into a flat list of [`Token`]s in a single
//! left-to-right pass:
//!
//! ```text
//! placeholder := '%' flags width? ('.' precision)? modifier? spec
//! flags       := ('-' | '+' | ' ' | '#' | '0')*
//! width       := digit+ | '*'
//! precision   := digit+ | '*'
//! modifier    := 'hh' | 'h' | 'll' | 'l' | 'j' | 'z' | 't' | 'L' | nothing
//! spec        := 'd' | 'i' | 'u' | 'o' | 'x' | 'X' | 'f' | 'F' | 'e' | 'E'
//!              | 'g' | 'G' | 'a' | 'A' | 'c' | 's' | 'p' | 'n' | '%'
//! ```
//!
//! Any byte other than `%` is a [`Token::Literal`]. A `%` that does not open a
//! well-formed placeholder (unknown conversion character, a `.` followed by
//! neither digits nor `*`, or a numeric width or precision too large for
//! `usize`) yields a single [`Token::Error`] and parsing stops there: the
//! interpreter halts on that token, so an unparseable placeholder truncates the
//! whole render rather than being guessed around.
//!
//! The function [`parse_format_str`] is proved to return exactly the token
//! sequence that the specification function [`spec_parse`] assigns to the
//! input bytes.

use vstd::prelude::*;

verus! {

/// Flag bytes, width and precision, length modifier and conversion specifier
/// of one `%` placeholder.
#[derive(Debug, PartialEq, Eq, Copy, Clone)]
pub struct Placeholder {
    /// Flag `-`: left-justify within the field instead of the default
    /// right-justification.
    pub right_align: bool,
    /// Flag `+`: force a sign on non-negative numbers.
    pub preceding_plus: bool,
    /// Flag ` `: write a blank where a sign would go.
    pub pad_sign: bool,
    /// Flag `#`: alternate form (a leading `0` for octal, `0x`/`0X` for hex).
    pub prefix: bool,
    /// Flag `0`: pad with zeros instead of spaces.
    pub pad_zero: bool,
    /// Minimum field width, absent, literal, or supplied by an argument.
    pub width: Option<Width>,
    /// Precision, absent, literal, or supplied by an argument.
    pub precision: Option<Width>,
    /// Length modifier, selecting the integer width read for the value.
    pub modifier: Modifier,
    /// The conversion specifier.
    pub token_type: TokenType,
}

/// A single element of a parsed format string.
#[derive(Debug, PartialEq, Eq, Copy, Clone)]
pub enum Token {
    /// A literal byte, copied to the output verbatim.
    Literal(u8),
    /// A `%` placeholder describing how to render one argument.
    Placeholder(Placeholder),
    /// A `%` that could not be parsed as a placeholder. Rendering stops here.
    Error,
}

/// The conversion specifier of a placeholder.
#[derive(Debug, PartialEq, Eq, Copy, Clone)]
pub enum TokenType {
    /// `d` or `i`
    SignedInteger,
    /// `u`
    UnsignedInteger,
    /// `o`
    UnsignedOctal,
    /// `x`
    UnsignedHex,
    /// `X`
    UnsignedHexUpper,
    /// `f`
    Float,
    /// `F`
    FloatUpper,
    /// `e`
    Scientific,
    /// `E`
    ScientificUpper,
    /// `g`
    ShortestFloat,
    /// `G`
    ShortestFloatUpper,
    /// `a`
    HexFloat,
    /// `A`
    HexFloatUpper,
    /// `c`
    Character,
    /// `s`
    String,
    /// `p`
    PointerAddress,
    /// `n`: in C this stores the byte count through a pointer; here it is
    /// accepted syntactically, consumes its argument, and writes nothing.
    StoreChars,
    /// `%`
    PercentLiteral,
}

/// The length modifier of a placeholder: which fixed-width integer is read
/// for the conversion.
#[derive(Debug, PartialEq, Eq, Copy, Clone)]
pub enum Modifier {
    /// No modifier: the plain `int` / `unsigned int` width.
    Plain,
    /// `hh`: char
    Char,
    /// `h`: short
    Short,
    /// `l`: long
    Long,
    /// `ll`: long long
    LongLong,
    /// `j`: intmax_t
    IntMax,
    /// `z`: size_t
    Size,
    /// `t`: ptrdiff_t
    PtrDiff,
    /// `L`: long double
    LongDouble,
}

/// A width or precision: written in the format string itself, or `*`, read
/// from the next argument when the placeholder is rendered.
#[derive(Debug, PartialEq, Eq, Copy, Clone)]
pub enum Width {
    Static(usize),
    Dynamic,
}

/// The five flag bytes a placeholder may carry, in any order.
pub open spec fn is_flag_byte(b: u8) -> bool {
    b == 45 || b == 43 || b == 32 || b == 35 || b == 48
}

pub open spec fn is_digit_byte(b: u8) -> bool {
    48 <= b && b <= 57
}

/// A placeholder with no flags, width, precision or modifier and an arbitrary
/// conversion; flag scanning fills it in.
pub open spec fn empty_placeholder() -> Placeholder {
    Placeholder {
        right_align: false,
        preceding_plus: false,
        pad_sign: false,
        prefix: false,
        pad_zero: false,
        width: None,
        precision: None,
        modifier: Modifier::Plain,
        token_type: TokenType::PercentLiteral,
    }
}

/// `p` with the flag named by byte `b` set.
pub open spec fn set_flag(p: Placeholder, b: u8) -> Placeholder {
    Placeholder {
        right_align: p.right_align || b == 45,
        preceding_plus: p.preceding_plus || b == 43,
        pad_sign: p.pad_sign || b == 32,
        prefix: p.prefix || b == 35,
        pad_zero: p.pad_zero || b == 48,
        ..p
    }
}

/// Scans flag bytes from position `i`, accumulating them onto `p`; returns
/// the filled placeholder and the position after the last flag byte.
pub open spec fn spec_flags(s: Seq<u8>, i: int, p: Placeholder) -> (Placeholder, int)
    decreases s.len() - i,
{
    if 0 <= i && i < s.len() && is_flag_byte(s[i]) {
        spec_flags(s, i + 1, set_flag(p, s[i]))
    } else {
        (p, i)
    }
}

/// Position of the first non-digit byte at or after `i`.
pub open spec fn spec_digits_end(s: Seq<u8>, i: int) -> int
    decreases s.len() - i,
{
    if 0 <= i && i < s.len() && is_digit_byte(s[i]) {
        spec_digits_end(s, i + 1)
    } else {
        i
    }
}

/// The decimal value of the digits `s[i..j)`, read left to right onto `acc`.
pub open spec fn spec_digits_value(s: Seq<u8>, i: int, j: int, acc: nat) -> nat
    decreases j - i,
{
    if i < j {
        spec_digits_value(s, i + 1, j, acc * 10 + (s[i] - 48) as nat)
    } else {
        acc
    }
}

/// Scans an optional width at `i`: `*`, a decimal numeral, or nothing.
/// `None` means the numeral does not fit in `usize` — the decimal value must
/// not wrap silently, so the placeholder as a whole is rejected.
pub open spec fn spec_width(s: Seq<u8>, i: int) -> Option<(Option<Width>, int)> {
    if 0 <= i && i < s.len() && s[i] == 42 {
        Some((Some(Width::Dynamic), i + 1))
    } else if 0 <= i && i < s.len() && is_digit_byte(s[i]) {
        let j = spec_digits_end(s, i);
        let v = spec_digits_value(s, i, j, 0);
        if v > usize::MAX {
            None
        } else {
            Some((Some(Width::Static(v as usize)), j))
        }
    } else {
        Some((None, i))
    }
}

/// Scans an optional precision at `i`: nothing, or `.` followed by `*` or a
/// decimal numeral. A `.` followed by neither rejects the placeholder, as
/// does a numeral too large for `usize`.
pub open spec fn spec_precision(s: Seq<u8>, i: int) -> Option<(Option<Width>, int)> {
    if 0 <= i && i < s.len() && s[i] == 46 {
        if i + 1 < s.len() && s[i + 1] == 42 {
            Some((Some(Width::Dynamic), i + 2))
        } else if i + 1 < s.len() && is_digit_byte(s[i + 1]) {
            let j = spec_digits_end(s, i + 1);
            let v = spec_digits_value(s, i + 1, j, 0);
            if v > usize::MAX {
                None
            } else {
                Some((Some(Width::Static(v as usize)), j))
            }
        } else {
            None
        }
    } else {
        Some((None, i))
    }
}

/// Scans an optional length modifier at `i`, longest match first, so that
/// `hh` and `ll` win over `h` and `l`.
pub open spec fn spec_modifier(s: Seq<u8>, i: int) -> (Modifier, int) {
    if 0 <= i && i + 1 < s.len() && s[i] == 104 && s[i + 1] == 104 {
        (Modifier::Char, i + 2)
    } else if 0 <= i && i + 1 < s.len() && s[i] == 108 && s[i + 1] == 108 {
        (Modifier::LongLong, i + 2)
    } else if 0 <= i && i < s.len() && s[i] == 104 {
        (Modifier::Short, i + 1)
    } else if 0 <= i && i < s.len() && s[i] == 108 {
        (Modifier::Long, i + 1)
    } else if 0 <= i && i < s.len() && s[i] == 106 {
        (Modifier::IntMax, i + 1)
    } else if 0 <= i && i < s.len() && s[i] == 122 {
        (Modifier::Size, i + 1)
    } else if 0 <= i && i < s.len() && s[i] == 116 {
        (Modifier::PtrDiff, i + 1)
    } else if 0 <= i && i < s.len() && s[i] == 76 {
        (Modifier::LongDouble, i + 1)
    } else {
        (Modifier::Plain, i)
    }
}

/// The conversion named by byte `b`, if any.
pub open spec fn spec_conversion(b: u8) -> Option<TokenType> {
    if b == 100 || b == 105 {
        Some(TokenType::SignedInteger)
    } else if b == 117 {
        Some(TokenType::UnsignedInteger)
    } else if b == 111 {
        Some(TokenType::UnsignedOctal)
    } else if b == 120 {
        Some(TokenType::UnsignedHex)
    } else if b == 88 {
        Some(TokenType::UnsignedHexUpper)
    } else if b == 102 {
        Some(TokenType::Float)
    } else if b == 70 {
        Some(TokenType::FloatUpper)
    } else if b == 101 {
        Some(TokenType::Scientific)
    } else if b == 69 {
        Some(TokenType::ScientificUpper)
    } else if b == 103 {
        Some(TokenType::ShortestFloat)
    } else if b == 71 {
        Some(TokenType::ShortestFloatUpper)
    } else if b == 97 {
        Some(TokenType::HexFloat)
    } else if b == 65 {
        Some(TokenType::HexFloatUpper)
    } else if b == 99 {
        Some(TokenType::Character)
    } else if b == 115 {
        Some(TokenType::String)
    } else if b == 112 {
        Some(TokenType::PointerAddress)
    } else if b == 110 {
        Some(TokenType::StoreChars)
    } else if b == 37 {
        Some(TokenType::PercentLiteral)
    } else {
        None
    }
}

/// Parses the placeholder whose `%` stands at `i`: the token and the position
/// after its conversion character, or `None` when it is malformed.
pub open spec fn spec_placeholder(s: Seq<u8>, i: int) -> Option<(Token, int)> {
    let (flags, i1) = spec_flags(s, i + 1, empty_placeholder());
    match spec_width(s, i1) {
        None => None,
        Some((w, i2)) => match spec_precision(s, i2) {
            None => None,
            Some((p, i3)) => {
                let (m, i4) = spec_modifier(s, i3);
                if 0 <= i4 && i4 < s.len() {
                    match spec_conversion(s[i4]) {
                        None => None,
                        Some(tt) => Some(
                            (
                                Token::Placeholder(
                                    Placeholder {
                                        width: w,
                                        precision: p,
                                        modifier: m,
                                        token_type: tt,
                                        ..flags
                                    },
                                ),
                                i4 + 1,
                            ),
                        ),
                    }
                } else {
                    None
                }
            },
        },
    }
}

/// The token list of the format bytes from position `i` on: literals for
/// plain bytes, a placeholder for each well-formed `%`, and a final
/// [`Token::Error`] the first time a `%` cannot be parsed.
pub open spec fn spec_parse_from(s: Seq<u8>, i: int) -> Seq<Token>
    decreases s.len() - i,
{
    if i < 0 || i >= s.len() {
        Seq::empty()
    } else if s[i] == 37 {
        match spec_placeholder(s, i) {
            Some((tok, j)) => {
                if i < j <= s.len() {
                    seq![tok] + spec_parse_from(s, j)
                } else {
                    seq![Token::Error]
                }
            },
            None => seq![Token::Error],
        }
    } else {
        seq![Token::Literal(s[i])] + spec_parse_from(s, i + 1)
    }
}

/// The token list of a whole format string.
pub open spec fn spec_parse(s: Seq<u8>) -> Seq<Token> {
    spec_parse_from(s, 0)
}

/// Flag scanning stays inside the input.
proof fn lemma_flags_bounds(s: Seq<u8>, i: int, p: Placeholder)
    requires
        0 <= i <= s.len(),
    ensures
        i <= spec_flags(s, i, p).1 <= s.len(),
    decreases s.len() - i,
{
    if i < s.len() && is_flag_byte(s[i]) {
        lemma_flags_bounds(s, i + 1, set_flag(p, s[i]));
    }
}

/// Digit scanning stays inside the input.
proof fn lemma_digits_end_bounds(s: Seq<u8>, i: int)
    requires
        0 <= i <= s.len(),
    ensures
        i <= spec_digits_end(s, i) <= s.len(),
    decreases s.len() - i,
{
    if i < s.len() && is_digit_byte(s[i]) {
        lemma_digits_end_bounds(s, i + 1);
    }
}

/// The value of a digit run never falls below its accumulator.
proof fn lemma_digits_value_lower(s: Seq<u8>, i: int, j: int, acc: nat)
    requires
        i <= j,
    ensures
        spec_digits_value(s, i, j, acc) >= acc,
    decreases j - i,
{
    if i < j {
        lemma_digits_value_lower(s, i + 1, j, acc * 10 + (s[i] - 48) as nat);
    }
}

/// A well-formed placeholder ends after its `%` and inside the input: the
/// bounds guard in [`spec_parse_from`] never turns a parsed placeholder
/// into an error token.
pub proof fn lemma_placeholder_bounds(s: Seq<u8>, i: int)
    requires
        0 <= i < s.len(),
        spec_placeholder(s, i) is Some,
    ensures
        i < spec_placeholder(s, i)->Some_0.1 <= s.len(),
{
    lemma_flags_bounds(s, i + 1, empty_placeholder());
    let i1 = spec_flags(s, i + 1, empty_placeholder()).1;
    if i1 < s.len() && is_digit_byte(s[i1]) {
        lemma_digits_end_bounds(s, i1);
    }
    let i2 = spec_width(s, i1)->Some_0.1;
    if i2 < s.len() && s[i2] == 46 && i2 + 1 < s.len() && s[i2 + 1] != 42
        && is_digit_byte(s[i2 + 1]) {
        lemma_digits_end_bounds(s, i2 + 1);
    }
}

fn is_flag(b: u8) -> (r: bool)
    ensures
        r == is_flag_byte(b),
{
    b == 45 || b == 43 || b == 32 || b == 35 || b == 48
}

fn is_digit(b: u8) -> (r: bool)
    ensures
        r == is_digit_byte(b),
{
    48 <= b && b <= 57
}

fn apply_flag(p: Placeholder, b: u8) -> (r: Placeholder)
    ensures
        r == set_flag(p, b),
{
    Placeholder {
        right_align: p.right_align || b == 45,
        preceding_plus: p.preceding_plus || b == 43,
        pad_sign: p.pad_sign || b == 32,
        prefix: p.prefix || b == 35,
        pad_zero: p.pad_zero || b == 48,
        ..p
    }
}

fn scan_flags(fmt: &[u8], start: usize, p: Placeholder) -> (r: (Placeholder, usize))
    requires
        start <= fmt@.len(),
    ensures
        (r.0, r.1 as int) == spec_flags(fmt@, start as int, p),
        start <= r.1 <= fmt@.len(),
{
    let mut i: usize = start;
    let mut q: Placeholder = p;
    while i < fmt.len() && is_flag(fmt[i])
        invariant
            start <= i <= fmt@.len(),
            spec_flags(fmt@, start as int, p) == spec_flags(fmt@, i as int, q),
        decreases fmt@.len() - i,
    {
        q = apply_flag(q, fmt[i]);
        i = i + 1;
    }
    (q, i)
}

/// Reads the decimal numeral that starts at `start`; `None` when its value
/// does not fit in `usize`.
pub fn parse_number(fmt: &[u8], start: usize) -> (r: Option<(usize, usize)>)
    requires
        start < fmt@.len(),
        is_digit_byte(fmt@[start as int]),
    ensures
        ({
            let j = spec_digits_end(fmt@, start as int);
            let v = spec_digits_value(fmt@, start as int, j, 0);
            match r {
                Some((val, end)) => v <= usize::MAX && val == v && end as int == j && start
                    < end <= fmt@.len(),
                None => v > usize::MAX,
            }
        }),
{
    let mut i: usize = start;
    let mut acc: usize = 0;
    proof {
        lemma_digits_end_bounds(fmt@, start as int);
    }
    while i < fmt.len() && is_digit(fmt[i])
        invariant
            start <= i <= fmt@.len(),
            spec_digits_end(fmt@, start as int) == spec_digits_end(fmt@, i as int),
            spec_digits_value(
                fmt@,
                start as int,
                spec_digits_end(fmt@, start as int),
                0,
            ) == spec_digits_value(fmt@, i as int, spec_digits_end(fmt@, i as int), acc as nat),
            i <= spec_digits_end(fmt@, start as int),
        decreases fmt@.len() - i,
    {
        let d: usize = (fmt[i] - 48) as usize;
        if acc > (usize::MAX - d) / 10 {
            proof {
                lemma_digits_end_bounds(fmt@, i as int + 1);
                assert(spec_digits_end(fmt@, i as int) == spec_digits_end(fmt@, i as int + 1));
                lemma_digits_value_lower(
                    fmt@,
                    i + 1,
                    spec_digits_end(fmt@, i as int),
                    acc as nat * 10 + d as nat,
                );
            }
            return None;
        }
        proof {
            lemma_digits_end_bounds(fmt@, i as int + 1);
            assert(spec_digits_end(fmt@, i as int) == spec_digits_end(fmt@, i as int + 1));
            assert(i as int + 1 <= spec_digits_end(fmt@, i as int));
        }
        acc = acc * 10 + d;
        i = i + 1;
    }
    Some((acc, i))
}

fn scan_width(fmt: &[u8], i: usize) -> (r: Option<(Option<Width>, usize)>)
    requires
        i <= fmt@.len(),
    ensures
        match r {
            Some((w, j)) => spec_width(fmt@, i as int) == Some((w, j as int)) && i <= j
                <= fmt@.len(),
            None => spec_width(fmt@, i as int) is None,
        },
{
    if i < fmt.len() && fmt[i] == 42 {
        Some((Some(Width::Dynamic), i + 1))
    } else if i < fmt.len() && is_digit(fmt[i]) {
        match parse_number(fmt, i) {
            Some((val, end)) => Some((Some(Width::Static(val)), end)),
            None => None,
        }
    } else {
        Some((None, i))
    }
}

fn scan_precision(fmt: &[u8], i: usize) -> (r: Option<(Option<Width>, usize)>)
    requires
        i <= fmt@.len(),
    ensures
        match r {
            Some((p, j)) => spec_precision(fmt@, i as int) == Some((p, j as int)) && i <= j
                <= fmt@.len(),
            None => spec_precision(fmt@, i as int) is None,
        },
{
    if i < fmt.len() && fmt[i] == 46 {
        if i + 1 < fmt.len() && fmt[i + 1] == 42 {
            Some((Some(Width::Dynamic), i + 2))
        } else if i + 1 < fmt.len() && is_digit(fmt[i + 1]) {
            match parse_number(fmt, i + 1) {
                Some((val, end)) => Some((Some(Width::Static(val)), end)),
                None => None,
            }
        } else {
            None
        }
    } else {
        Some((None, i))
    }
}

fn scan_modifier(fmt: &[u8], i: usize) -> (r: (Modifier, usize))
    requires
        i <= fmt@.len(),
    ensures
        (r.0, r.1 as int) == spec_modifier(fmt@, i as int),
        i <= r.1 <= fmt@.len(),
{
    if i < fmt.len() && fmt[i] == 104 && i + 1 < fmt.len() && fmt[i + 1] == 104 {
        (Modifier::Char, i + 2)
    } else if i < fmt.len() && fmt[i] == 108 && i + 1 < fmt.len() && fmt[i + 1] == 108 {
        (Modifier::LongLong, i + 2)
    } else if i < fmt.len() && fmt[i] == 104 {
        (Modifier::Short, i + 1)
    } else if i < fmt.len() && fmt[i] == 108 {
        (Modifier::Long, i + 1)
    } else if i < fmt.len() && fmt[i] == 106 {
        (Modifier::IntMax, i + 1)
    } else if i < fmt.len() && fmt[i] == 122 {
        (Modifier::Size, i + 1)
    } else if i < fmt.len() && fmt[i] == 116 {
        (Modifier::PtrDiff, i + 1)
    } else if i < fmt.len() && fmt[i] == 76 {
        (Modifier::LongDouble, i + 1)
    } else {
        (Modifier::Plain, i)
    }
}

fn conversion_of(b: u8) -> (r: Option<TokenType>)
    ensures
        r == spec_conversion(b),
{
    if b == 100 || b == 105 {
        Some(TokenType::SignedInteger)
    } else if b == 117 {
        Some(TokenType::UnsignedInteger)
    } else if b == 111 {
        Some(TokenType::UnsignedOctal)
    } else if b == 120 {
        Some(TokenType::UnsignedHex)
    } else if b == 88 {
        Some(TokenType::UnsignedHexUpper)
    } else if b == 102 {
        Some(TokenType::Float)
    } else if b == 70 {
        Some(TokenType::FloatUpper)
    } else if b == 101 {
        Some(TokenType::Scientific)
    } else if b == 69 {
        Some(TokenType::ScientificUpper)
    } else if b == 103 {
        Some(TokenType::ShortestFloat)
    } else if b == 71 {
        Some(TokenType::ShortestFloatUpper)
    } else if b == 97 {
        Some(TokenType::HexFloat)
    } else if b == 65 {
        Some(TokenType::HexFloatUpper)
    } else if b == 99 {
        Some(TokenType::Character)
    } else if b == 115 {
        Some(TokenType::String)
    } else if b == 112 {
        Some(TokenType::PointerAddress)
    } else if b == 110 {
        Some(TokenType::StoreChars)
    } else if b == 37 {
        Some(TokenType::PercentLiteral)
    } else {
        None
    }
}

fn try_placeholder(fmt: &[u8], i: usize) -> (r: Option<(Token, usize)>)
    requires
        i < fmt@.len(),
        fmt@[i as int] == 37,
    ensures
        match r {
            Some((t, j)) => spec_placeholder(fmt@, i as int) == Some((t, j as int)) && i < j
                <= fmt@.len(),
            None => spec_placeholder(fmt@, i as int) is None,
        },
{
    let n = fmt.len();
    assert(i < n);
    let (flags, i1) = scan_flags(fmt, i + 1, Placeholder {
        right_align: false,
        preceding_plus: false,
        pad_sign: false,
        prefix: false,
        pad_zero: false,
        width: None,
        precision: None,
        modifier: Modifier::Plain,
        token_type: TokenType::PercentLiteral,
    });
    let (w, i2) = match scan_width(fmt, i1) {
        Some(wj) => wj,
        None => {
            return None;
        },
    };
    let (p, i3) = match scan_precision(fmt, i2) {
        Some(pj) => pj,
        None => {
            return None;
        },
    };
    let (m, i4) = scan_modifier(fmt, i3);
    if i4 < fmt.len() {
        match conversion_of(fmt[i4]) {
            Some(tt) => Some(
                (
                    Token::Placeholder(
                        Placeholder { width: w, precision: p, modifier: m, token_type: tt, ..flags },
                    ),
                    i4 + 1,
                ),
            ),
            None => None,
        }
    } else {
        None
    }
}

/// Parses a whole format string into its token list: literal bytes and
/// placeholders, with a final [`Token::Error`] in place of the first
/// malformed placeholder, after which nothing more is parsed.
pub fn parse_format_str(fmt: &[u8]) -> (r: Vec<Token>)
    ensures
        r@ == spec_parse(fmt@),
{
    let mut r: Vec<Token> = Vec::new();
    let mut i: usize = 0;
    while i < fmt.len()
        invariant
            i <= fmt@.len(),
            spec_parse(fmt@) == r@ + spec_parse_from(fmt@, i as int),
        decreases fmt@.len() - i,
    {
        if fmt[i] == 37 {
            match try_placeholder(fmt, i) {
                Some((tok, j)) => {
                    r.push(tok);
                    i = j;
                },
                None => {
                    r.push(Token::Error);
                    return r;
                },
            }
        } else {
            r.push(Token::Literal(fmt[i]));
            i = i + 1;
        }
    }
    r
}

} // verus!
