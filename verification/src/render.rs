//! Interpreter for a parsed format string: renders the token list against a
//! list of arguments into an output byte stream.
//!
//! Arguments stand in for C's variadic argument list: a sequence of typed
//! values consumed left to right. Each placeholder pulls, in order, one
//! argument for a `*` width, one for a `*` precision, and then the value
//! itself; the value read is the variant the conversion calls for
//! ([`Arg::Int`] for signed conversions and `%c`, [`Arg::Uint`] for the
//! unsigned ones, and so on). As with C `printf`, the caller must supply
//! arguments consistent with the format string; here an inconsistent or
//! exhausted argument list simply halts rendering, so the output up to that
//! point stands as the (truncated) result and nothing panics.
//!
//! Integer conversions respect the fixed-width type the length modifier
//! selects: the argument value is reduced to its two's-complement residue at
//! that width, so `%hhd` of 300 prints `44` and a negative `long` read by
//! `%ld` always prints a leading `-`. A numeric precision is honored for
//! `%s` (it caps the bytes taken from the string) and passed through to the
//! caller for the floating conversions; for the integer conversions it is
//! accepted and otherwise unused. The sign rule of the format language —
//! `-` when the value is negative, else `+` under the `+` flag, else a blank
//! under the space flag — is applied uniformly to every conversion except
//! `%c` and `%n`, which never carry a sign.
//!
//! Floating-point conversions: the values travel as IEEE-754 double bits in
//! [`Arg::Float`], but turning bits into decimal digits is the one step this
//! library leaves to its caller. [`float_requests`] lists, in rendering
//! order, the conversions a token list will need — bits, style, case and
//! resolved precision — and [`render`] takes the finished digit strings and
//! does everything else: sign handling, zero padding, field width and
//! alignment. A digit string that arrives with a leading `-` is treated as a
//! negative value. When fewer digit strings are supplied than the tokens
//! need, rendering halts at the first uncovered conversion.
//!
//! `%n` consumes its argument and writes nothing; it never stores through a
//! pointer. `%p` renders its argument as `0x` followed by lowercase hex.

use vstd::prelude::*;

use crate::parser::{Modifier, Placeholder, Token, TokenType, Width};

verus! {

/// One variadic argument, as the interpreter sees it.
#[derive(Debug, PartialEq, Eq, Clone)]
pub enum Arg {
    /// A signed integer, up to 64 bits; narrower conversions use its
    /// two's-complement residue at their own width.
    Int(i64),
    /// An unsigned integer, up to 64 bits.
    Uint(u64),
    /// The bytes of a C string, for `%s`.
    Str(Vec<u8>),
    /// The bits of an IEEE-754 double, for the floating conversions.
    Float(u64),
    /// An address, for `%p` (and accepted by `%n`).
    Ptr(u64),
}

/// Which family of C floating formats a conversion belongs to.
#[derive(Debug, PartialEq, Eq, Copy, Clone)]
pub enum FloatStyle {
    /// `f` / `F`
    Fixed,
    /// `e` / `E`
    Scientific,
    /// `g` / `G`
    Shortest,
    /// `a` / `A`
    HexFloat,
}

/// One floating conversion that a token list needs rendered: the caller
/// turns this into a digit string (such as `3.14` or `-2.5e+07`) and hands
/// the strings back to [`render`] in order.
#[derive(Debug, PartialEq, Eq, Copy, Clone)]
pub struct FloatRequest {
    /// IEEE-754 double bits of the value.
    pub bits: u64,
    /// The format family asked for.
    pub style: FloatStyle,
    /// Whether the conversion character was upper case (`F`, `E`, `G`, `A`).
    pub upper: bool,
    /// The resolved precision: the literal or argument-supplied count of
    /// fractional digits, or `None` for the C default of 6.
    pub precision: Option<usize>,
    /// Whether the `#` flag was set (alternate form).
    pub alt: bool,
}

/// `n` copies of the byte `b`.
pub open spec fn spec_repeat(b: u8, n: nat) -> Seq<u8> {
    Seq::new(n, |k: int| b)
}

/// The digit byte for value `d` in bases up to 16.
pub open spec fn spec_digit_byte(d: nat, upper: bool) -> u8 {
    if d < 10 {
        (48 + d) as u8
    } else if upper {
        (55 + d) as u8
    } else {
        (87 + d) as u8
    }
}

/// The decimal digits of `n`, most significant first, at least one digit.
pub open spec fn spec_dec(n: nat) -> Seq<u8>
    decreases n,
{
    if n < 10 {
        seq![(48 + n) as u8]
    } else {
        spec_dec(n / 10).push((48 + n % 10) as u8)
    }
}

/// The octal digits of `n`.
pub open spec fn spec_oct(n: nat) -> Seq<u8>
    decreases n,
{
    if n < 8 {
        seq![(48 + n) as u8]
    } else {
        spec_oct(n / 8).push((48 + n % 8) as u8)
    }
}

/// The hexadecimal digits of `n`, in the requested case.
pub open spec fn spec_hex(n: nat, upper: bool) -> Seq<u8>
    decreases n,
{
    if n < 16 {
        seq![spec_digit_byte(n, upper)]
    } else {
        spec_hex(n / 16, upper).push(spec_digit_byte(n % 16, upper))
    }
}

/// The digits of `n` in the given base.
pub open spec fn spec_digits_in(base: int, n: nat, upper: bool) -> Seq<u8> {
    if base == 8 {
        spec_oct(n)
    } else if base == 16 {
        spec_hex(n, upper)
    } else {
        spec_dec(n)
    }
}

fn digit_byte(d: u64, upper: bool) -> (r: u8)
    requires
        d < 16,
    ensures
        r == spec_digit_byte(d as nat, upper),
{
    if d < 10 {
        (48 + d) as u8
    } else if upper {
        (55 + d) as u8
    } else {
        (87 + d) as u8
    }
}

/// Appends the base-`base` digits of `n` to `out`, most significant first.
fn push_digits(out: &mut Vec<u8>, n: u64, base: u64, upper: bool)
    requires
        base == 8 || base == 10 || base == 16,
    ensures
        final(out)@ == old(out)@ + spec_digits_in(base as int, n as nat, upper),
    decreases n,
{
    if n < base {
        let b = digit_byte(n, upper);
        out.push(b);
        proof {
            assert(spec_digits_in(base as int, n as nat, upper) =~= seq![b]);
            assert(old(out)@.push(b) =~= old(out)@ + seq![b]);
        }
    } else {
        push_digits(out, n / base, base, upper);
        let b = digit_byte(n % base, upper);
        out.push(b);
        proof {
            let ghost high = spec_digits_in(base as int, (n / base) as nat, upper);
            assert((old(out)@ + high).push(b) =~= old(out)@ + high.push(b));
            lemma_digits_step(base as int, n as nat, upper);
        }
    }
}

/// One digit comes off the low end: in each base, the digits of `n` are the
/// digits of `n / base` followed by the digit of `n % base`.
proof fn lemma_digits_step(base: int, n: nat, upper: bool)
    requires
        base == 8 || base == 10 || base == 16,
        n >= base,
    ensures
        spec_digits_in(base, n, upper) == spec_digits_in(base, n / (base as nat), upper).push(
            spec_digit_byte(n % (base as nat), upper),
        ),
{
    if base == 8 {
        assert(spec_oct(n) == spec_oct(n / 8).push((48 + n % 8) as u8));
        assert((48 + n % 8) as u8 == spec_digit_byte(n % 8, upper));
    } else if base == 10 {
        assert(spec_dec(n) == spec_dec(n / 10).push((48 + n % 10) as u8));
        assert((48 + n % 10) as u8 == spec_digit_byte(n % 10, upper));
    } else {
        assert(spec_hex(n, upper) == spec_hex(n / 16, upper).push(spec_digit_byte(n % 16, upper)));
    }
}

/// Appends a copy of `src` to `out`.
fn push_all(out: &mut Vec<u8>, src: &Vec<u8>)
    ensures
        final(out)@ == old(out)@ + src@,
{
    let n = src.len();
    let mut k: usize = 0;
    while k < n
        invariant
            n == src@.len(),
            k <= n,
            out@ =~= old(out)@ + src@.subrange(0, k as int),
        decreases n - k,
    {
        let b = src[k];
        proof {
            assert((old(out)@ + src@.subrange(0, k as int)).push(b) =~= old(out)@ + src@.subrange(
                0,
                k as int + 1,
            ));
        }
        out.push(b);
        k = k + 1;
    }
    proof {
        assert(src@.subrange(0, n as int) =~= src@);
        assert(out@ == old(out)@ + src@);
    }
}

/// Appends `n` copies of the byte `b` to `out`.
fn push_repeat(out: &mut Vec<u8>, b: u8, n: usize)
    ensures
        final(out)@ == old(out)@ + spec_repeat(b, n as nat),
{
    let mut k: usize = 0;
    while k < n
        invariant
            k <= n,
            out@ =~= old(out)@ + spec_repeat(b, k as nat),
        decreases n - k,
    {
        proof {
            assert((old(out)@ + spec_repeat(b, k as nat)).push(b) =~= old(out)@ + spec_repeat(
                b,
                k as nat + 1,
            ));
        }
        out.push(b);
        k = k + 1;
    }
    proof {
        assert(out@ == old(out)@ + spec_repeat(b, n as nat));
    }
}

/// The fully padded field for one placeholder: sign, then base prefix, then
/// the rendered value, brought up to the field width. Zero padding goes
/// between the prefix and the value; left-justification pads with blanks on
/// the right and wins over zero padding; by default blanks pad on the left.
pub open spec fn spec_assemble(
    sign: Seq<u8>,
    prefix: Seq<u8>,
    body: Seq<u8>,
    w: Option<usize>,
    left: bool,
    zero: bool,
) -> Seq<u8> {
    let content = sign + prefix + body;
    match w {
        None => content,
        Some(width) => if content.len() >= width {
            content
        } else if left {
            content + spec_repeat(32, (width - content.len()) as nat)
        } else if zero {
            sign + prefix + spec_repeat(48, (width - content.len()) as nat) + body
        } else {
            spec_repeat(32, (width - content.len()) as nat) + content
        },
    }
}

/// Appends the assembled field to `out`.
fn emit(
    out: &mut Vec<u8>,
    sign: &Vec<u8>,
    prefix: &Vec<u8>,
    body: &Vec<u8>,
    w: Option<usize>,
    left: bool,
    zero: bool,
)
    ensures
        final(out)@ == old(out)@ + spec_assemble(sign@, prefix@, body@, w, left, zero),
{
    let ghost content = sign@ + prefix@ + body@;
    // the total content length, None when it cannot be held in usize (and
    // then certainly no smaller than any width)
    let total: Option<usize> = if sign.len() <= usize::MAX - prefix.len() {
        let sp = sign.len() + prefix.len();
        if sp <= usize::MAX - body.len() {
            Some(sp + body.len())
        } else {
            None
        }
    } else {
        None
    };
    match w {
        None => {
            push_all(out, sign);
            push_all(out, prefix);
            push_all(out, body);
            proof {
                assert(old(out)@ + sign@ + prefix@ + body@ =~= old(out)@ + (sign@ + prefix@
                    + body@));
            }
        },
        Some(width) => {
            let pad: usize = match total {
                Some(t) => if t >= width {
                    0
                } else {
                    width - t
                },
                None => 0,
            };
            if pad == 0 {
                push_all(out, sign);
                push_all(out, prefix);
                push_all(out, body);
                proof {
                    assert(content.len() >= width);
                    assert(old(out)@ + sign@ + prefix@ + body@ =~= old(out)@ + (sign@ + prefix@
                        + body@));
                }
            } else if left {
                push_all(out, sign);
                push_all(out, prefix);
                push_all(out, body);
                push_repeat(out, 32, pad);
                proof {
                    assert(old(out)@ + sign@ + prefix@ + body@ + spec_repeat(b32(), pad as nat)
                        =~= old(out)@ + (content + spec_repeat(b32(), pad as nat)));
                }
            } else if zero {
                push_all(out, sign);
                push_all(out, prefix);
                push_repeat(out, 48, pad);
                push_all(out, body);
                proof {
                    assert(old(out)@ + sign@ + prefix@ + spec_repeat(b48(), pad as nat) + body@
                        =~= old(out)@ + (sign@ + prefix@ + spec_repeat(b48(), pad as nat)
                        + body@));
                }
            } else {
                push_repeat(out, 32, pad);
                push_all(out, sign);
                push_all(out, prefix);
                push_all(out, body);
                proof {
                    assert(old(out)@ + spec_repeat(b32(), pad as nat) + sign@ + prefix@ + body@
                        =~= old(out)@ + (spec_repeat(b32(), pad as nat) + content));
                }
            }
        },
    }
}

/// The blank byte, for stating padding facts.
pub open spec fn b32() -> u8 {
    32
}

/// The zero byte, for stating padding facts.
pub open spec fn b48() -> u8 {
    48
}

/// The views of a list of byte vectors.
pub open spec fn views_of(ts: Seq<Vec<u8>>) -> Seq<Seq<u8>> {
    Seq::new(ts.len(), |i: int| ts[i]@)
}

/// The modulus of the fixed-width integer type that a length modifier
/// selects: 2^8 for `hh`, 2^16 for `h`, 2^32 for the plain `int` width, and
/// 2^64 for the 64-bit types. `L` does not apply to integers and falls back
/// to the plain width.
pub open spec fn spec_modulus(m: Modifier) -> nat {
    match m {
        Modifier::Char => 256,
        Modifier::Short => 65536,
        Modifier::Plain => 4294967296,
        Modifier::LongDouble => 4294967296,
        Modifier::Long => 18446744073709551616,
        Modifier::LongLong => 18446744073709551616,
        Modifier::IntMax => 18446744073709551616,
        Modifier::Size => 18446744073709551616,
        Modifier::PtrDiff => 18446744073709551616,
    }
}

/// The two's-complement residue of the integer `v` at modulus `md`: the bit
/// pattern a C `printf` would receive for an argument of that width.
pub open spec fn spec_residue(v: int, md: nat) -> nat {
    if v >= 0 {
        (v as nat) % md
    } else {
        ((md - ((-v) as nat) % md) as nat) % md
    }
}

/// Whether the residue `r` reads as negative at modulus `md`.
pub open spec fn spec_residue_neg(r: nat, md: nat) -> bool {
    2 * r >= md
}

/// The magnitude of the residue `r` read as a signed value at modulus `md`.
pub open spec fn spec_residue_mag(r: nat, md: nat) -> nat {
    if 2 * r >= md {
        (md - r) as nat
    } else {
        r
    }
}

/// Sign and decimal digits of `v` read at the width of modifier `m`.
pub open spec fn spec_signed_body(v: i64, m: Modifier) -> (bool, Seq<u8>) {
    let md = spec_modulus(m);
    let r = spec_residue(v as int, md);
    (spec_residue_neg(r, md), spec_dec(spec_residue_mag(r, md)))
}

/// The value of `u` read at the width of modifier `m`.
pub open spec fn spec_unsigned(u: u64, m: Modifier) -> nat {
    (u as nat) % spec_modulus(m)
}

/// The sign bytes of a conversion: `-` for a negative value, else `+` under
/// the `+` flag, else a blank under the space flag, else nothing.
pub open spec fn spec_sign(neg: bool, plus: bool, space: bool) -> Seq<u8> {
    if neg {
        seq![45u8]
    } else if plus {
        seq![43u8]
    } else if space {
        seq![32u8]
    } else {
        Seq::empty()
    }
}

/// A magnitude clamped into `usize`, for argument-supplied field widths.
pub open spec fn spec_clamp(n: nat) -> usize {
    if n > usize::MAX {
        usize::MAX
    } else {
        n as usize
    }
}

/// The next argument, when it is a signed integer.
pub open spec fn spec_take_int(args: Seq<Arg>, a: int) -> Option<(i64, int)> {
    if 0 <= a && a < args.len() {
        match args[a] {
            Arg::Int(v) => Some((v, a + 1)),
            _ => None,
        }
    } else {
        None
    }
}

/// The next argument, when it is an unsigned integer.
pub open spec fn spec_take_uint(args: Seq<Arg>, a: int) -> Option<(u64, int)> {
    if 0 <= a && a < args.len() {
        match args[a] {
            Arg::Uint(u) => Some((u, a + 1)),
            _ => None,
        }
    } else {
        None
    }
}

/// The next argument, when it is a string.
pub open spec fn spec_take_str(args: Seq<Arg>, a: int) -> Option<(Seq<u8>, int)> {
    if 0 <= a && a < args.len() {
        match args[a] {
            Arg::Str(s) => Some((s@, a + 1)),
            _ => None,
        }
    } else {
        None
    }
}

/// The next argument, when it is a float (as its IEEE-754 bits).
pub open spec fn spec_take_float(args: Seq<Arg>, a: int) -> Option<(u64, int)> {
    if 0 <= a && a < args.len() {
        match args[a] {
            Arg::Float(b) => Some((b, a + 1)),
            _ => None,
        }
    } else {
        None
    }
}

/// The next argument, when it is a pointer.
pub open spec fn spec_take_ptr(args: Seq<Arg>, a: int) -> Option<(u64, int)> {
    if 0 <= a && a < args.len() {
        match args[a] {
            Arg::Ptr(u) => Some((u, a + 1)),
            _ => None,
        }
    } else {
        None
    }
}

/// The field width a placeholder renders with: the literal width, or one
/// argument read as a signed integer — a negative argument means
/// left-justification with the magnitude as width, as in C. A magnitude
/// beyond `usize` is clamped. Returns the width, whether the argument forced
/// left-justification, and the next argument position; `None` when the
/// argument list does not supply the integer.
pub open spec fn spec_resolve_width(w: Option<Width>, args: Seq<Arg>, a: int) -> Option<
    ((Option<usize>, bool), int),
> {
    match w {
        Option::None => Some(((None, false), a)),
        Option::Some(Width::Static(n)) => Some(((Some(n), false), a)),
        Option::Some(Width::Dynamic) => match spec_take_int(args, a) {
            Option::None => None,
            Option::Some((v, a2)) => if v >= 0 {
                Some(((Some(spec_clamp(v as nat)), false), a2))
            } else {
                Some(((Some(spec_clamp((-(v as int)) as nat)), true), a2))
            },
        },
    }
}

/// The precision a placeholder renders with: the literal precision, or one
/// argument read as a signed integer — a negative argument means no
/// precision at all, as in C.
pub open spec fn spec_resolve_prec(p: Option<Width>, args: Seq<Arg>, a: int) -> Option<
    (Option<usize>, int),
> {
    match p {
        Option::None => Some((None, a)),
        Option::Some(Width::Static(n)) => Some((Some(n), a)),
        Option::Some(Width::Dynamic) => match spec_take_int(args, a) {
            Option::None => None,
            Option::Some((v, a2)) => if v >= 0 {
                Some((Some(spec_clamp(v as nat)), a2))
            } else {
                Some((None, a2))
            },
        },
    }
}

/// The float family and case of a conversion, if it is a floating one.
pub open spec fn spec_float_style(tt: TokenType) -> Option<(FloatStyle, bool)> {
    match tt {
        TokenType::Float => Some((FloatStyle::Fixed, false)),
        TokenType::FloatUpper => Some((FloatStyle::Fixed, true)),
        TokenType::Scientific => Some((FloatStyle::Scientific, false)),
        TokenType::ScientificUpper => Some((FloatStyle::Scientific, true)),
        TokenType::ShortestFloat => Some((FloatStyle::Shortest, false)),
        TokenType::ShortestFloatUpper => Some((FloatStyle::Shortest, true)),
        TokenType::HexFloat => Some((FloatStyle::HexFloat, false)),
        TokenType::HexFloatUpper => Some((FloatStyle::HexFloat, true)),
        _ => None,
    }
}

/// What rendering one placeholder appends to the output, and the argument
/// and float-text positions after it; `None` halts rendering (an argument of
/// the wrong kind, an exhausted argument list, or a floating conversion with
/// no digit string left).
pub open spec fn spec_step(
    p: Placeholder,
    args: Seq<Arg>,
    texts: Seq<Seq<u8>>,
    a: int,
    x: int,
) -> Option<(Seq<u8>, int, int)> {
    match spec_resolve_width(p.width, args, a) {
        Option::None => None,
        Option::Some(((w, wneg), a1)) => match spec_resolve_prec(p.precision, args, a1) {
            Option::None => None,
            Option::Some((prec, a2)) => {
                let left = p.right_align || wneg;
                let zero = p.pad_zero;
                let plus = p.preceding_plus;
                let space = p.pad_sign;
                match p.token_type {
                    TokenType::SignedInteger => match spec_take_int(args, a2) {
                        Option::None => None,
                        Option::Some((v, a3)) => {
                            let (neg, body) = spec_signed_body(v, p.modifier);
                            Some(
                                (
                                    spec_assemble(
                                        spec_sign(neg, plus, space),
                                        Seq::empty(),
                                        body,
                                        w,
                                        left,
                                        zero,
                                    ),
                                    a3,
                                    x,
                                ),
                            )
                        },
                    },
                    TokenType::UnsignedInteger => match spec_take_uint(args, a2) {
                        Option::None => None,
                        Option::Some((u, a3)) => Some(
                            (
                                spec_assemble(
                                    spec_sign(false, plus, space),
                                    Seq::empty(),
                                    spec_dec(spec_unsigned(u, p.modifier)),
                                    w,
                                    left,
                                    zero,
                                ),
                                a3,
                                x,
                            ),
                        ),
                    },
                    TokenType::UnsignedOctal => match spec_take_uint(args, a2) {
                        Option::None => None,
                        Option::Some((u, a3)) => {
                            let r = spec_unsigned(u, p.modifier);
                            let prefix: Seq<u8> = if p.prefix && r != 0 {
                                seq![48u8]
                            } else {
                                Seq::empty()
                            };
                            Some(
                                (
                                    spec_assemble(
                                        spec_sign(false, plus, space),
                                        prefix,
                                        spec_oct(r),
                                        w,
                                        left,
                                        zero,
                                    ),
                                    a3,
                                    x,
                                ),
                            )
                        },
                    },
                    TokenType::UnsignedHex => match spec_take_uint(args, a2) {
                        Option::None => None,
                        Option::Some((u, a3)) => {
                            let r = spec_unsigned(u, p.modifier);
                            let prefix: Seq<u8> = if p.prefix && r != 0 {
                                seq![48u8, 120u8]
                            } else {
                                Seq::empty()
                            };
                            Some(
                                (
                                    spec_assemble(
                                        spec_sign(false, plus, space),
                                        prefix,
                                        spec_hex(r, false),
                                        w,
                                        left,
                                        zero,
                                    ),
                                    a3,
                                    x,
                                ),
                            )
                        },
                    },
                    TokenType::UnsignedHexUpper => match spec_take_uint(args, a2) {
                        Option::None => None,
                        Option::Some((u, a3)) => {
                            let r = spec_unsigned(u, p.modifier);
                            let prefix: Seq<u8> = if p.prefix && r != 0 {
                                seq![48u8, 88u8]
                            } else {
                                Seq::empty()
                            };
                            Some(
                                (
                                    spec_assemble(
                                        spec_sign(false, plus, space),
                                        prefix,
                                        spec_hex(r, true),
                                        w,
                                        left,
                                        zero,
                                    ),
                                    a3,
                                    x,
                                ),
                            )
                        },
                    },
                    TokenType::Float
                    | TokenType::FloatUpper
                    | TokenType::Scientific
                    | TokenType::ScientificUpper
                    | TokenType::ShortestFloat
                    | TokenType::ShortestFloatUpper
                    | TokenType::HexFloat
                    | TokenType::HexFloatUpper => match spec_take_float(args, a2) {
                        Option::None => None,
                        Option::Some((_bits, a3)) => {
                            if x < 0 || x >= texts.len() {
                                None
                            } else {
                                let t = texts[x];
                                let neg = t.len() > 0 && t[0] == 45;
                                let body = if neg {
                                    t.subrange(1, t.len() as int)
                                } else {
                                    t
                                };
                                Some(
                                    (
                                        spec_assemble(
                                            spec_sign(neg, plus, space),
                                            Seq::empty(),
                                            body,
                                            w,
                                            left,
                                            zero,
                                        ),
                                        a3,
                                        x + 1,
                                    ),
                                )
                            }
                        },
                    },
                    TokenType::Character => match spec_take_int(args, a2) {
                        Option::None => None,
                        Option::Some((v, a3)) => Some(
                            (
                                spec_assemble(
                                    Seq::empty(),
                                    Seq::empty(),
                                    seq![spec_residue(v as int, 256) as u8],
                                    w,
                                    left,
                                    false,
                                ),
                                a3,
                                x,
                            ),
                        ),
                    },
                    TokenType::String => match spec_take_str(args, a2) {
                        Option::None => None,
                        Option::Some((s, a3)) => {
                            let body = match prec {
                                Option::Some(pr) => if s.len() > pr {
                                    s.subrange(0, pr as int)
                                } else {
                                    s
                                },
                                Option::None => s,
                            };
                            Some(
                                (
                                    spec_assemble(
                                        spec_sign(false, plus, space),
                                        Seq::empty(),
                                        body,
                                        w,
                                        left,
                                        zero,
                                    ),
                                    a3,
                                    x,
                                ),
                            )
                        },
                    },
                    TokenType::PointerAddress => match spec_take_ptr(args, a2) {
                        Option::None => None,
                        Option::Some((u, a3)) => Some(
                            (
                                spec_assemble(
                                    spec_sign(false, plus, space),
                                    seq![48u8, 120u8],
                                    spec_hex(u as nat, false),
                                    w,
                                    left,
                                    zero,
                                ),
                                a3,
                                x,
                            ),
                        ),
                    },
                    TokenType::StoreChars => {
                        if 0 <= a2 && a2 < args.len() {
                            Some((Seq::empty(), a2 + 1, x))
                        } else {
                            None
                        }
                    },
                    TokenType::PercentLiteral => Some(
                        (
                            spec_assemble(
                                spec_sign(false, plus, space),
                                Seq::empty(),
                                seq![37u8],
                                w,
                                left,
                                zero,
                            ),
                            a2,
                            x,
                        ),
                    ),
                }
            },
        },
    }
}

/// The rendered output of the tokens from `t` on, with arguments from `a`
/// and float digit strings from `x` on. Rendering an [`Token::Error`] or a
/// placeholder whose step halts ends the output there.
pub open spec fn spec_render_from(
    tokens: Seq<Token>,
    args: Seq<Arg>,
    texts: Seq<Seq<u8>>,
    t: int,
    a: int,
    x: int,
) -> Seq<u8>
    decreases tokens.len() - t,
{
    if t < 0 || t >= tokens.len() {
        Seq::empty()
    } else {
        match tokens[t] {
            Token::Literal(b) => seq![b] + spec_render_from(tokens, args, texts, t + 1, a, x),
            Token::Error => Seq::empty(),
            Token::Placeholder(p) => match spec_step(p, args, texts, a, x) {
                Option::Some((delta, a2, x2)) => delta + spec_render_from(
                    tokens,
                    args,
                    texts,
                    t + 1,
                    a2,
                    x2,
                ),
                Option::None => Seq::empty(),
            },
        }
    }
}

/// The rendered output of a whole token list.
pub open spec fn spec_render(tokens: Seq<Token>, args: Seq<Arg>, texts: Seq<Seq<u8>>) -> Seq<u8> {
    spec_render_from(tokens, args, texts, 0, 0, 0)
}

/// The float request of one placeholder, if it is a floating conversion,
/// and the argument position after it: the same argument walk as
/// [`spec_step`], without any output.
pub open spec fn spec_rstep(p: Placeholder, args: Seq<Arg>, a: int) -> Option<
    (Option<FloatRequest>, int),
> {
    match spec_resolve_width(p.width, args, a) {
        Option::None => None,
        Option::Some(((w, wneg), a1)) => match spec_resolve_prec(p.precision, args, a1) {
            Option::None => None,
            Option::Some((prec, a2)) => match p.token_type {
                TokenType::SignedInteger | TokenType::Character => match spec_take_int(args, a2) {
                    Option::None => None,
                    Option::Some((_v, a3)) => Some((None, a3)),
                },
                TokenType::UnsignedInteger
                | TokenType::UnsignedOctal
                | TokenType::UnsignedHex
                | TokenType::UnsignedHexUpper => match spec_take_uint(args, a2) {
                    Option::None => None,
                    Option::Some((_u, a3)) => Some((None, a3)),
                },
                TokenType::Float
                | TokenType::FloatUpper
                | TokenType::Scientific
                | TokenType::ScientificUpper
                | TokenType::ShortestFloat
                | TokenType::ShortestFloatUpper
                | TokenType::HexFloat
                | TokenType::HexFloatUpper => match spec_take_float(args, a2) {
                    Option::None => None,
                    Option::Some((bits, a3)) => {
                        let (style, upper) = spec_float_style(p.token_type)->Some_0;
                        Some(
                            (
                                Some(
                                    FloatRequest {
                                        bits,
                                        style,
                                        upper,
                                        precision: prec,
                                        alt: p.prefix,
                                    },
                                ),
                                a3,
                            ),
                        )
                    },
                },
                TokenType::String => match spec_take_str(args, a2) {
                    Option::None => None,
                    Option::Some((_s, a3)) => Some((None, a3)),
                },
                TokenType::PointerAddress => match spec_take_ptr(args, a2) {
                    Option::None => None,
                    Option::Some((_u, a3)) => Some((None, a3)),
                },
                TokenType::StoreChars => {
                    if 0 <= a2 && a2 < args.len() {
                        Some((None, a2 + 1))
                    } else {
                        None
                    }
                },
                TokenType::PercentLiteral => Some((None, a2)),
            },
        },
    }
}

/// The float requests of the tokens from `t` on, walking the argument list
/// from `a` exactly as rendering would.
pub open spec fn spec_requests_from(tokens: Seq<Token>, args: Seq<Arg>, t: int, a: int) -> Seq<
    FloatRequest,
>
    decreases tokens.len() - t,
{
    if t < 0 || t >= tokens.len() {
        Seq::empty()
    } else {
        match tokens[t] {
            Token::Literal(_b) => spec_requests_from(tokens, args, t + 1, a),
            Token::Error => Seq::empty(),
            Token::Placeholder(p) => match spec_rstep(p, args, a) {
                Option::Some((req, a2)) => {
                    let here: Seq<FloatRequest> = match req {
                        Option::Some(r) => seq![r],
                        Option::None => Seq::empty(),
                    };
                    here + spec_requests_from(tokens, args, t + 1, a2)
                },
                Option::None => Seq::empty(),
            },
        }
    }
}

/// The float requests of a whole token list.
pub open spec fn spec_requests(tokens: Seq<Token>, args: Seq<Arg>) -> Seq<FloatRequest> {
    spec_requests_from(tokens, args, 0, 0)
}

fn take_int(args: &Vec<Arg>, a: usize) -> (r: Option<(i64, usize)>)
    requires
        a <= args@.len(),
    ensures
        match r {
            Some((v, a2)) => spec_take_int(args@, a as int) == Some((v, a2 as int)) && a2 <= args@.len(),
            None => spec_take_int(args@, a as int) is None,
        },
{
    if a < args.len() {
        match &args[a] {
            Arg::Int(v) => Some((*v, a + 1)),
            _ => None,
        }
    } else {
        None
    }
}

fn take_uint(args: &Vec<Arg>, a: usize) -> (r: Option<(u64, usize)>)
    requires
        a <= args@.len(),
    ensures
        match r {
            Some((u, a2)) => spec_take_uint(args@, a as int) == Some((u, a2 as int)) && a2 <= args@.len(),
            None => spec_take_uint(args@, a as int) is None,
        },
{
    if a < args.len() {
        match &args[a] {
            Arg::Uint(u) => Some((*u, a + 1)),
            _ => None,
        }
    } else {
        None
    }
}

fn take_str<'a>(args: &'a Vec<Arg>, a: usize) -> (r: Option<(&'a Vec<u8>, usize)>)
    requires
        a <= args@.len(),
    ensures
        match r {
            Some((s, a2)) => spec_take_str(args@, a as int) == Some((s@, a2 as int)) && a2 <= args@.len(),
            None => spec_take_str(args@, a as int) is None,
        },
{
    if a < args.len() {
        match &args[a] {
            Arg::Str(s) => Some((s, a + 1)),
            _ => None,
        }
    } else {
        None
    }
}

fn take_float(args: &Vec<Arg>, a: usize) -> (r: Option<(u64, usize)>)
    requires
        a <= args@.len(),
    ensures
        match r {
            Some((b, a2)) => spec_take_float(args@, a as int) == Some((b, a2 as int)) && a2 <= args@.len(),
            None => spec_take_float(args@, a as int) is None,
        },
{
    if a < args.len() {
        match &args[a] {
            Arg::Float(b) => Some((*b, a + 1)),
            _ => None,
        }
    } else {
        None
    }
}

fn take_ptr(args: &Vec<Arg>, a: usize) -> (r: Option<(u64, usize)>)
    requires
        a <= args@.len(),
    ensures
        match r {
            Some((u, a2)) => spec_take_ptr(args@, a as int) == Some((u, a2 as int)) && a2 <= args@.len(),
            None => spec_take_ptr(args@, a as int) is None,
        },
{
    if a < args.len() {
        match &args[a] {
            Arg::Ptr(u) => Some((*u, a + 1)),
            _ => None,
        }
    } else {
        None
    }
}

/// The sign of `v` and its magnitude, which always fits in `u64`.
fn i64_abs(v: i64) -> (r: (bool, u64))
    ensures
        r.0 == (v < 0),
        r.1 as int == (if v < 0 {
            -(v as int)
        } else {
            v as int
        }),
{
    if v >= 0 {
        (false, v as u64)
    } else if v == i64::MIN {
        (true, 9223372036854775808u64)
    } else {
        (true, (-v) as u64)
    }
}

fn clamp_to_usize(n: u64) -> (r: usize)
    ensures
        r == spec_clamp(n as nat),
{
    if n > usize::MAX as u64 {
        usize::MAX
    } else {
        n as usize
    }
}

fn resolve_width(w: Option<Width>, args: &Vec<Arg>, a: usize) -> (r: Option<
    ((Option<usize>, bool), usize),
>)
    requires
        a <= args@.len(),
    ensures
        match r {
            Some((wv, a2)) => spec_resolve_width(w, args@, a as int) == Some((wv, a2 as int))
                && a2 <= args@.len(),
            None => spec_resolve_width(w, args@, a as int) is None,
        },
{
    match w {
        Option::None => Some(((None, false), a)),
        Option::Some(Width::Static(n)) => Some(((Some(n), false), a)),
        Option::Some(Width::Dynamic) => match take_int(args, a) {
            Option::None => None,
            Option::Some((v, a2)) => {
                let (neg, mag) = i64_abs(v);
                Some(((Some(clamp_to_usize(mag)), neg), a2))
            },
        },
    }
}

fn resolve_prec(p: Option<Width>, args: &Vec<Arg>, a: usize) -> (r: Option<(Option<usize>, usize)>)
    requires
        a <= args@.len(),
    ensures
        match r {
            Some((pv, a2)) => spec_resolve_prec(p, args@, a as int) == Some((pv, a2 as int)) && a2
                <= args@.len(),
            None => spec_resolve_prec(p, args@, a as int) is None,
        },
{
    match p {
        Option::None => Some((None, a)),
        Option::Some(Width::Static(n)) => Some((Some(n), a)),
        Option::Some(Width::Dynamic) => match take_int(args, a) {
            Option::None => None,
            Option::Some((v, a2)) => if v >= 0 {
                let (_, mag) = i64_abs(v);
                Some((Some(clamp_to_usize(mag)), a2))
            } else {
                Some((None, a2))
            },
        },
    }
}

/// The two's-complement residue of `v` at the width of modifier `m`.
fn int_residue_small(neg: bool, mag: u64, md: u64) -> (r: u64)
    requires
        md == 256 || md == 65536 || md == 4294967296,
    ensures
        r < md,
        r as nat == spec_residue(
            if neg {
                -(mag as int)
            } else {
                mag as int
            },
            md as nat,
        ),
{
    let rr = mag % md;
    if neg {
        (md - rr) % md
    } else {
        rr
    }
}

/// The value `v` reduced to the width of `m`: whether it reads as negative
/// there, and its magnitude.
fn signed_parts(v: i64, m: Modifier) -> (r: (bool, u64))
    ensures
        ({
            let md = spec_modulus(m);
            let res = spec_residue(v as int, md);
            r.0 == spec_residue_neg(res, md) && r.1 as nat == spec_residue_mag(res, md)
        }),
{
    let (neg0, mag0) = i64_abs(v);
    match m {
        Modifier::Char | Modifier::Short | Modifier::Plain | Modifier::LongDouble => {
            let md: u64 = match m {
                Modifier::Char => 256,
                Modifier::Short => 65536,
                _ => 4294967296,
            };
            let rr = int_residue_small(neg0, mag0, md);
            if rr >= md / 2 {
                (true, md - rr)
            } else {
                (false, rr)
            }
        },
        _ => {
            // the full 64-bit width: the residue of v mod 2^64 reads as
            // exactly the sign and magnitude of v itself
            proof {
                let md: nat = 18446744073709551616;
                let vi = v as int;
                if vi >= 0 {
                    assert((vi as nat) % md == vi as nat) by {
                        assert(vi < md);
                        vstd::arithmetic::div_mod::lemma_small_mod(vi as nat, md);
                    }
                } else {
                    let mg = (-vi) as nat;
                    vstd::arithmetic::div_mod::lemma_small_mod(mg, md);
                    assert(mg % md == mg);
                    vstd::arithmetic::div_mod::lemma_small_mod((md - mg) as nat, md);
                    assert(spec_residue(vi, md) == md - mg);
                }
            }
            (neg0, mag0)
        },
    }
}

/// The value of `u` read at the width of `m`.
fn unsigned_residue(u: u64, m: Modifier) -> (r: u64)
    ensures
        r as nat == spec_unsigned(u, m),
{
    match m {
        Modifier::Char => u % 256,
        Modifier::Short => u % 65536,
        Modifier::Plain | Modifier::LongDouble => u % 4294967296,
        _ => {
            proof {
                vstd::arithmetic::div_mod::lemma_small_mod(
                    u as nat,
                    18446744073709551616,
                );
            }
            u
        },
    }
}

fn sign_vec(neg: bool, plus: bool, space: bool) -> (r: Vec<u8>)
    ensures
        r@ == spec_sign(neg, plus, space),
{
    let mut r: Vec<u8> = Vec::new();
    if neg {
        r.push(45);
    } else if plus {
        r.push(43);
    } else if space {
        r.push(32);
    }
    proof {
        assert(r@ =~= spec_sign(neg, plus, space));
    }
    r
}

/// The first `n` bytes of `s`.
fn prefix_of(s: &Vec<u8>, n: usize) -> (r: Vec<u8>)
    requires
        n <= s@.len(),
    ensures
        r@ == s@.subrange(0, n as int),
{
    let mut r: Vec<u8> = Vec::new();
    let mut k: usize = 0;
    while k < n
        invariant
            k <= n <= s@.len(),
            r@ =~= s@.subrange(0, k as int),
        decreases n - k,
    {
        let b = s[k];
        proof {
            assert(s@.subrange(0, k as int).push(b) =~= s@.subrange(0, k as int + 1));
        }
        r.push(b);
        k = k + 1;
    }
    r
}

/// The bytes of `s` from position `n` on.
fn suffix_of(s: &Vec<u8>, n: usize) -> (r: Vec<u8>)
    requires
        n <= s@.len(),
    ensures
        r@ == s@.subrange(n as int, s@.len() as int),
{
    let len = s.len();
    let mut r: Vec<u8> = Vec::new();
    let mut k: usize = n;
    while k < len
        invariant
            n <= k <= len,
            len == s@.len(),
            r@ =~= s@.subrange(n as int, k as int),
        decreases len - k,
    {
        let b = s[k];
        proof {
            assert(s@.subrange(n as int, k as int).push(b) =~= s@.subrange(n as int, k as int + 1));
        }
        r.push(b);
        k = k + 1;
    }
    r
}

/// Renders one placeholder onto `out`: the argument and float-text positions
/// after it, or `None` — with `out` untouched — when rendering halts here.
#[verifier::rlimit(100)]
fn step_placeholder(
    p: &Placeholder,
    args: &Vec<Arg>,
    texts: &Vec<Vec<u8>>,
    a: usize,
    x: usize,
    out: &mut Vec<u8>,
) -> (res: Option<(usize, usize)>)
    requires
        a <= args@.len(),
        x <= texts@.len(),
    ensures
        match res {
            Some((a2, x2)) => {
                let st = spec_step(*p, args@, views_of(texts@), a as int, x as int);
                st is Some && final(out)@ == old(out)@ + st->Some_0.0 && a2 as int == st->Some_0.1
                    && x2 as int == st->Some_0.2 && a2 <= args@.len() && x2 <= texts@.len()
            },
            None => spec_step(*p, args@, views_of(texts@), a as int, x as int) is None
                && final(out)@ == old(out)@,
        },
{
    let ((w, wneg), a1) = match resolve_width(p.width, args, a) {
        Some(v) => v,
        None => {
            return None;
        },
    };
    let (prec, a2) = match resolve_prec(p.precision, args, a1) {
        Some(v) => v,
        None => {
            return None;
        },
    };
    let left = p.right_align || wneg;
    let zero = p.pad_zero;
    let plus = p.preceding_plus;
    let space = p.pad_sign;
    let empty: Vec<u8> = Vec::new();
    match p.token_type {
        TokenType::SignedInteger => {
            let (v, a3) = match take_int(args, a2) {
                Some(va) => va,
                None => {
                    return None;
                },
            };
            let (neg, mag) = signed_parts(v, p.modifier);
            let mut body: Vec<u8> = Vec::new();
            push_digits(&mut body, mag, 10, false);
            let sign = sign_vec(neg, plus, space);
            emit(out, &sign, &empty, &body, w, left, zero);
            Some((a3, x))
        },
        TokenType::UnsignedInteger => {
            let (u, a3) = match take_uint(args, a2) {
                Some(ua) => ua,
                None => {
                    return None;
                },
            };
            let r = unsigned_residue(u, p.modifier);
            let mut body: Vec<u8> = Vec::new();
            push_digits(&mut body, r, 10, false);
            let sign = sign_vec(false, plus, space);
            emit(out, &sign, &empty, &body, w, left, zero);
            Some((a3, x))
        },
        TokenType::UnsignedOctal => {
            let (u, a3) = match take_uint(args, a2) {
                Some(ua) => ua,
                None => {
                    return None;
                },
            };
            let r = unsigned_residue(u, p.modifier);
            let mut body: Vec<u8> = Vec::new();
            push_digits(&mut body, r, 8, false);
            let mut prefix: Vec<u8> = Vec::new();
            if p.prefix && r != 0 {
                prefix.push(48);
            }
            let sign = sign_vec(false, plus, space);
            proof {
                if p.prefix && r != 0 {
                    assert(prefix@ =~= seq![48u8]);
                } else {
                    assert(prefix@ =~= Seq::<u8>::empty());
                }
            }
            emit(out, &sign, &prefix, &body, w, left, zero);
            Some((a3, x))
        },
        TokenType::UnsignedHex => {
            let (u, a3) = match take_uint(args, a2) {
                Some(ua) => ua,
                None => {
                    return None;
                },
            };
            let r = unsigned_residue(u, p.modifier);
            let mut body: Vec<u8> = Vec::new();
            push_digits(&mut body, r, 16, false);
            let mut prefix: Vec<u8> = Vec::new();
            if p.prefix && r != 0 {
                prefix.push(48);
                prefix.push(120);
            }
            let sign = sign_vec(false, plus, space);
            proof {
                if p.prefix && r != 0 {
                    assert(prefix@ =~= seq![48u8, 120u8]);
                } else {
                    assert(prefix@ =~= Seq::<u8>::empty());
                }
            }
            emit(out, &sign, &prefix, &body, w, left, zero);
            Some((a3, x))
        },
        TokenType::UnsignedHexUpper => {
            let (u, a3) = match take_uint(args, a2) {
                Some(ua) => ua,
                None => {
                    return None;
                },
            };
            let r = unsigned_residue(u, p.modifier);
            let mut body: Vec<u8> = Vec::new();
            push_digits(&mut body, r, 16, true);
            let mut prefix: Vec<u8> = Vec::new();
            if p.prefix && r != 0 {
                prefix.push(48);
                prefix.push(88);
            }
            let sign = sign_vec(false, plus, space);
            proof {
                if p.prefix && r != 0 {
                    assert(prefix@ =~= seq![48u8, 88u8]);
                } else {
                    assert(prefix@ =~= Seq::<u8>::empty());
                }
            }
            emit(out, &sign, &prefix, &body, w, left, zero);
            Some((a3, x))
        },
        TokenType::Float
        | TokenType::FloatUpper
        | TokenType::Scientific
        | TokenType::ScientificUpper
        | TokenType::ShortestFloat
        | TokenType::ShortestFloatUpper
        | TokenType::HexFloat
        | TokenType::HexFloatUpper => {
            let (_bits, a3) = match take_float(args, a2) {
                Some(ba) => ba,
                None => {
                    return None;
                },
            };
            if x >= texts.len() {
                return None;
            }
            let t = &texts[x];
            proof {
                assert(views_of(texts@)[x as int] == texts@[x as int]@);
            }
            let neg = t.len() > 0 && t[0] == 45;
            let body = if neg {
                suffix_of(t, 1)
            } else {
                suffix_of(t, 0)
            };
            proof {
                if !neg {
                    assert(t@.subrange(0, t@.len() as int) =~= t@);
                }
            }
            let sign = sign_vec(neg, plus, space);
            emit(out, &sign, &empty, &body, w, left, zero);
            Some((a3, x + 1))
        },
        TokenType::Character => {
            let (v, a3) = match take_int(args, a2) {
                Some(va) => va,
                None => {
                    return None;
                },
            };
            let (neg0, mag0) = i64_abs(v);
            let rr = int_residue_small(neg0, mag0, 256);
            let mut body: Vec<u8> = Vec::new();
            body.push(rr as u8);
            proof {
                assert(body@ =~= seq![spec_residue(v as int, 256) as u8]);
            }
            emit(out, &empty, &empty, &body, w, left, false);
            Some((a3, x))
        },
        TokenType::String => {
            let (s, a3) = match take_str(args, a2) {
                Some(sa) => sa,
                None => {
                    return None;
                },
            };
            let body = match prec {
                Some(pr) => if s.len() > pr {
                    prefix_of(s, pr)
                } else {
                    prefix_of(s, s.len())
                },
                None => prefix_of(s, s.len()),
            };
            proof {
                assert(s@.subrange(0, s@.len() as int) =~= s@);
            }
            let sign = sign_vec(false, plus, space);
            emit(out, &sign, &empty, &body, w, left, zero);
            Some((a3, x))
        },
        TokenType::PointerAddress => {
            let (u, a3) = match take_ptr(args, a2) {
                Some(ua) => ua,
                None => {
                    return None;
                },
            };
            let mut body: Vec<u8> = Vec::new();
            push_digits(&mut body, u, 16, false);
            let mut prefix: Vec<u8> = Vec::new();
            prefix.push(48);
            prefix.push(120);
            proof {
                assert(prefix@ =~= seq![48u8, 120u8]);
            }
            let sign = sign_vec(false, plus, space);
            emit(out, &sign, &prefix, &body, w, left, zero);
            Some((a3, x))
        },
        TokenType::StoreChars => {
            if a2 < args.len() {
                Some((a2 + 1, x))
            } else {
                None
            }
        },
        TokenType::PercentLiteral => {
            let mut body: Vec<u8> = Vec::new();
            body.push(37);
            proof {
                assert(body@ =~= seq![37u8]);
            }
            let sign = sign_vec(false, plus, space);
            emit(out, &sign, &empty, &body, w, left, zero);
            Some((a2, x))
        },
    }
}

/// Renders a token list against an argument list, with the digit strings
/// for its floating conversions supplied in order (see [`float_requests`]).
/// The output is exactly what [`spec_render`] assigns: rendering runs left
/// to right and stops early at an [`Token::Error`] token, at an argument of
/// the wrong kind, at an exhausted argument list, or at a floating
/// conversion with no digit string left — whatever was rendered up to that
/// point is the result.
pub fn render(tokens: &Vec<Token>, args: &Vec<Arg>, texts: &Vec<Vec<u8>>) -> (out: Vec<u8>)
    ensures
        out@ == spec_render(tokens@, args@, views_of(texts@)),
{
    let mut out: Vec<u8> = Vec::new();
    let mut t: usize = 0;
    let mut a: usize = 0;
    let mut x: usize = 0;
    let n = tokens.len();
    while t < n
        invariant
            t <= n,
            n == tokens@.len(),
            a <= args@.len(),
            x <= texts@.len(),
            spec_render(tokens@, args@, views_of(texts@)) == out@ + spec_render_from(
                tokens@,
                args@,
                views_of(texts@),
                t as int,
                a as int,
                x as int,
            ),
        decreases n - t,
    {
        let ghost pre = out@;
        match &tokens[t] {
            Token::Literal(b) => {
                out.push(*b);
                proof {
                    assert(pre + (seq![*b] + spec_render_from(
                        tokens@,
                        args@,
                        views_of(texts@),
                        t as int + 1,
                        a as int,
                        x as int,
                    )) =~= pre.push(*b) + spec_render_from(
                        tokens@,
                        args@,
                        views_of(texts@),
                        t as int + 1,
                        a as int,
                        x as int,
                    ));
                }
                t = t + 1;
            },
            Token::Error => {
                return out;
            },
            Token::Placeholder(p) => {
                let ghost ph = *p;
                match step_placeholder(p, args, texts, a, x, &mut out) {
                    Some((a2, x2)) => {
                        proof {
                            let st = spec_step(
                                ph,
                                args@,
                                views_of(texts@),
                                a as int,
                                x as int,
                            );
                            assert(pre + (st->Some_0.0 + spec_render_from(
                                tokens@,
                                args@,
                                views_of(texts@),
                                t as int + 1,
                                a2 as int,
                                x2 as int,
                            )) =~= (pre + st->Some_0.0) + spec_render_from(
                                tokens@,
                                args@,
                                views_of(texts@),
                                t as int + 1,
                                a2 as int,
                                x2 as int,
                            ));
                        }
                        a = a2;
                        x = x2;
                        t = t + 1;
                    },
                    None => {
                        return out;
                    },
                }
            },
        }
    }
    out
}

fn request_step(p: &Placeholder, args: &Vec<Arg>, a: usize) -> (res: Option<
    (Option<FloatRequest>, usize),
>)
    requires
        a <= args@.len(),
    ensures
        match res {
            Some((req, a2)) => spec_rstep(*p, args@, a as int) == Some((req, a2 as int)) && a2
                <= args@.len(),
            None => spec_rstep(*p, args@, a as int) is None,
        },
{
    let ((_w, _wneg), a1) = match resolve_width(p.width, args, a) {
        Some(v) => v,
        None => {
            return None;
        },
    };
    let (prec, a2) = match resolve_prec(p.precision, args, a1) {
        Some(v) => v,
        None => {
            return None;
        },
    };
    match p.token_type {
        TokenType::SignedInteger | TokenType::Character => match take_int(args, a2) {
            Some((_v, a3)) => Some((None, a3)),
            None => None,
        },
        TokenType::UnsignedInteger
        | TokenType::UnsignedOctal
        | TokenType::UnsignedHex
        | TokenType::UnsignedHexUpper => match take_uint(args, a2) {
            Some((_u, a3)) => Some((None, a3)),
            None => None,
        },
        TokenType::Float
        | TokenType::FloatUpper
        | TokenType::Scientific
        | TokenType::ScientificUpper
        | TokenType::ShortestFloat
        | TokenType::ShortestFloatUpper
        | TokenType::HexFloat
        | TokenType::HexFloatUpper => match take_float(args, a2) {
            Some((bits, a3)) => {
                let (style, upper) = match p.token_type {
                    TokenType::Float => (FloatStyle::Fixed, false),
                    TokenType::FloatUpper => (FloatStyle::Fixed, true),
                    TokenType::Scientific => (FloatStyle::Scientific, false),
                    TokenType::ScientificUpper => (FloatStyle::Scientific, true),
                    TokenType::ShortestFloat => (FloatStyle::Shortest, false),
                    TokenType::ShortestFloatUpper => (FloatStyle::Shortest, true),
                    TokenType::HexFloat => (FloatStyle::HexFloat, false),
                    _ => (FloatStyle::HexFloat, true),
                };
                Some(
                    (
                        Some(FloatRequest { bits, style, upper, precision: prec, alt: p.prefix }),
                        a3,
                    ),
                )
            },
            None => None,
        },
        TokenType::String => match take_str(args, a2) {
            Some((_s, a3)) => Some((None, a3)),
            None => None,
        },
        TokenType::PointerAddress => match take_ptr(args, a2) {
            Some((_u, a3)) => Some((None, a3)),
            None => None,
        },
        TokenType::StoreChars => {
            if a2 < args.len() {
                Some((None, a2 + 1))
            } else {
                None
            }
        },
        TokenType::PercentLiteral => Some((None, a2)),
    }
}

/// Lists, in rendering order, the floating conversions that rendering
/// `tokens` against `args` will need: the caller turns each request into a
/// digit string and passes the strings to [`render`]. The walk consumes
/// arguments exactly as rendering does and stops where rendering would halt.
pub fn float_requests(tokens: &Vec<Token>, args: &Vec<Arg>) -> (r: Vec<FloatRequest>)
    ensures
        r@ == spec_requests(tokens@, args@),
{
    let mut r: Vec<FloatRequest> = Vec::new();
    let mut t: usize = 0;
    let mut a: usize = 0;
    let n = tokens.len();
    while t < n
        invariant
            t <= n,
            n == tokens@.len(),
            a <= args@.len(),
            spec_requests(tokens@, args@) == r@ + spec_requests_from(
                tokens@,
                args@,
                t as int,
                a as int,
            ),
        decreases n - t,
    {
        let ghost pre = r@;
        match &tokens[t] {
            Token::Literal(_b) => {
                t = t + 1;
            },
            Token::Error => {
                return r;
            },
            Token::Placeholder(p) => {
                let ghost ph = *p;
                match request_step(p, args, a) {
                    Some((req, a2)) => {
                        match req {
                            Some(fr) => {
                                r.push(fr);
                                proof {
                                    assert(pre + (seq![fr] + spec_requests_from(
                                        tokens@,
                                        args@,
                                        t as int + 1,
                                        a2 as int,
                                    )) =~= pre.push(fr) + spec_requests_from(
                                        tokens@,
                                        args@,
                                        t as int + 1,
                                        a2 as int,
                                    ));
                                }
                            },
                            None => {
                                proof {
                                    assert(pre + (Seq::<FloatRequest>::empty()
                                        + spec_requests_from(
                                        tokens@,
                                        args@,
                                        t as int + 1,
                                        a2 as int,
                                    )) =~= pre + spec_requests_from(
                                        tokens@,
                                        args@,
                                        t as int + 1,
                                        a2 as int,
                                    ));
                                }
                            },
                        }
                        a = a2;
                        t = t + 1;
                    },
                    None => {
                        return r;
                    },
                }
            },
        }
    }
    r
}

} // verus!
