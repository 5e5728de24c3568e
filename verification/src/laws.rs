//! Proved laws of the format parser and interpreter, stated over the same
//! specification functions that the executable functions are verified
//! against.

use vstd::prelude::*;

use crate::parser::{spec_parse, spec_parse_from, spec_placeholder, Modifier, Placeholder, Token,
    TokenType, Width};
use crate::render::{spec_assemble, spec_dec, spec_render, spec_render_from, spec_repeat,
    spec_requests_from, spec_rstep, spec_sign, spec_signed_body, spec_step, spec_clamp,
    spec_take_int, Arg};

verus! {

/// Rendering looks only at the tokens from the current position on: two
/// token lists that agree from their positions to their ends render alike.
proof fn lemma_render_shift(
    t1: Seq<Token>,
    t2: Seq<Token>,
    k1: int,
    k2: int,
    args: Seq<Arg>,
    texts: Seq<Seq<u8>>,
    a: int,
    x: int,
)
    requires
        0 <= k1 <= t1.len(),
        0 <= k2 <= t2.len(),
        t1.len() - k1 == t2.len() - k2,
        forall|j: int| 0 <= j < t1.len() - k1 ==> #[trigger] t1[k1 + j] == t2[k2 + j],
    ensures
        spec_render_from(t1, args, texts, k1, a, x) == spec_render_from(t2, args, texts, k2, a, x),
    decreases t1.len() - k1,
{
    if k1 < t1.len() {
        assert(t1[k1 + 0] == t2[k2 + 0]);
        assert forall|j: int| 0 <= j < t1.len() - (k1 + 1) implies #[trigger] t1[k1 + 1 + j] == t2[
            k2 + 1 + j] by {
            assert(t1[k1 + (j + 1)] == t2[k2 + (j + 1)]);
        }
        match t1[k1] {
            Token::Literal(_b) => {
                lemma_render_shift(t1, t2, k1 + 1, k2 + 1, args, texts, a, x);
            },
            Token::Error => {
            },
            Token::Placeholder(p) => {
                match spec_step(p, args, texts, a, x) {
                    Option::Some((_delta, a2, x2)) => {
                        lemma_render_shift(t1, t2, k1 + 1, k2 + 1, args, texts, a2, x2);
                    },
                    Option::None => {
                    },
                }
            },
        }
    }
}

/// A format string without `%` renders as itself, whatever the arguments:
/// every byte is a literal token and every literal byte is copied verbatim.
pub proof fn lemma_literal_only_identity(s: Seq<u8>, args: Seq<Arg>, texts: Seq<Seq<u8>>)
    requires
        forall|i: int| 0 <= i < s.len() ==> s[i] != 37,
    ensures
        spec_render(spec_parse(s), args, texts) == s,
{
    lemma_literal_only_from(s, args, texts, 0, 0, 0);
    assert(s.subrange(0, s.len() as int) =~= s);
}

proof fn lemma_literal_only_from(s: Seq<u8>, args: Seq<Arg>, texts: Seq<Seq<u8>>, i: int, a: int, x: int)
    requires
        0 <= i <= s.len(),
        forall|k: int| i <= k < s.len() ==> s[k] != 37,
    ensures
        spec_render_from(spec_parse_from(s, i), args, texts, 0, a, x) == s.subrange(
            i,
            s.len() as int,
        ),
    decreases s.len() - i,
{
    let toks = spec_parse_from(s, i);
    if i == s.len() {
        assert(s.subrange(i, s.len() as int) =~= Seq::<u8>::empty());
    } else {
        assert(s[i] != 37);
        let rest = spec_parse_from(s, i + 1);
        assert(toks == seq![Token::Literal(s[i])] + rest);
        assert(toks[0] == Token::Literal(s[i]));
        lemma_literal_only_from(s, args, texts, i + 1, a, x);
        assert forall|j: int| 0 <= j < toks.len() - 1 implies #[trigger] toks[1 + j] == rest[0
            + j] by {
            assert(toks[1 + j] == (seq![Token::Literal(s[i])] + rest)[1 + j]);
        }
        lemma_render_shift(toks, rest, 1, 0, args, texts, a, x);
        assert(seq![s[i]] + s.subrange(i + 1, s.len() as int) =~= s.subrange(i, s.len() as int));
    }
}

/// A literal-percent placeholder whose width and precision are not `*`
/// consumes no arguments and renders a single `%`, padded like any other
/// conversion.
pub proof fn lemma_percent_consumes_nothing(
    p: Placeholder,
    args: Seq<Arg>,
    texts: Seq<Seq<u8>>,
    a: int,
    x: int,
)
    requires
        p.token_type == TokenType::PercentLiteral,
        p.width != Some(Width::Dynamic),
        p.precision != Some(Width::Dynamic),
    ensures
        ({
            let w: Option<usize> = match p.width {
                Some(Width::Static(n)) => Some(n),
                _ => None,
            };
            spec_step(p, args, texts, a, x) == Some(
                (
                    spec_assemble(
                        spec_sign(false, p.preceding_plus, p.pad_sign),
                        Seq::<u8>::empty(),
                        seq![37u8],
                        w,
                        p.right_align,
                        p.pad_zero,
                    ),
                    a,
                    x,
                ),
            )
        }),
{
}

/// The decimal digits of a number are digit bytes only: no sign character
/// ever appears among them.
pub proof fn lemma_dec_digits_only(n: nat)
    ensures
        forall|i: int| 0 <= i < spec_dec(n).len() ==> 48 <= #[trigger] spec_dec(n)[i] <= 57,
    decreases n,
{
    if n >= 10 {
        lemma_dec_digits_only(n / 10);
        assert forall|i: int| 0 <= i < spec_dec(n).len() implies 48 <= #[trigger] spec_dec(n)[i]
            <= 57 by {
            if i < spec_dec(n).len() - 1 {
                assert(spec_dec(n)[i] == spec_dec(n / 10)[i]);
            } else {
                assert(spec_dec(n)[i] == (48 + n % 10) as u8);
            }
        }
    }
}

/// A signed conversion of a value that reads as negative carries exactly
/// one leading `-`, whatever the `+` and space flags say, and its digits
/// contain no further sign: the sign is never doubled.
pub proof fn lemma_negative_sign_not_doubled(v: i64, m: Modifier, plus: bool, space: bool)
    ensures
        ({
            let (neg, body) = spec_signed_body(v, m);
            neg ==> spec_sign(neg, plus, space) == seq![45u8] && (forall|i: int|
                0 <= i < body.len() ==> 48 <= #[trigger] body[i] <= 57)
        }),
{
    let (neg, body) = spec_signed_body(v, m);
    if neg {
        assert(spec_sign(neg, plus, space) == seq![45u8]);
        lemma_dec_digits_only(spec_dec_arg(v, m));
        assert(body == spec_dec(spec_dec_arg(v, m)));
    }
}

/// The magnitude whose decimal digits a signed conversion prints.
pub open spec fn spec_dec_arg(v: i64, m: Modifier) -> nat {
    crate::render::spec_residue_mag(
        crate::render::spec_residue(v as int, crate::render::spec_modulus(m)),
        crate::render::spec_modulus(m),
    )
}

/// When a field is left-justified, zero padding is suppressed: the `-` flag
/// wins over the `0` flag, and a short field is filled with blanks on the
/// right.
pub proof fn lemma_left_justify_beats_zero(
    sign: Seq<u8>,
    prefix: Seq<u8>,
    body: Seq<u8>,
    width: usize,
    zero: bool,
)
    ensures
        spec_assemble(sign, prefix, body, Some(width), true, zero) == spec_assemble(
            sign,
            prefix,
            body,
            Some(width),
            true,
            false,
        ),
        (sign + prefix + body).len() < width ==> spec_assemble(
            sign,
            prefix,
            body,
            Some(width),
            true,
            zero,
        ) == (sign + prefix + body) + spec_repeat(
            32,
            (width - (sign + prefix + body).len()) as nat,
        ),
{
}

/// A `%*.*d` placeholder consumes exactly three arguments, in the order
/// width, then precision, then value: the first argument becomes the field
/// width, the third the number printed.
pub proof fn lemma_dynamic_order(
    p: Placeholder,
    args: Seq<Arg>,
    texts: Seq<Seq<u8>>,
    a: int,
    x: int,
    w0: i64,
    p0: i64,
    v: i64,
)
    requires
        p.token_type == TokenType::SignedInteger,
        p.width == Some(Width::Dynamic),
        p.precision == Some(Width::Dynamic),
        0 <= a,
        a + 2 < args.len(),
        args[a] == Arg::Int(w0),
        args[a + 1] == Arg::Int(p0),
        args[a + 2] == Arg::Int(v),
        w0 >= 0,
        p0 >= 0,
    ensures
        ({
            let (neg, body) = spec_signed_body(v, p.modifier);
            spec_step(p, args, texts, a, x) == Some(
                (
                    spec_assemble(
                        spec_sign(neg, p.preceding_plus, p.pad_sign),
                        Seq::<u8>::empty(),
                        body,
                        Some(spec_clamp(w0 as nat)),
                        p.right_align,
                        p.pad_zero,
                    ),
                    a + 3,
                    x,
                ),
            )
        }),
{
    assert(spec_take_int(args, a) == Some((w0, a + 1)));
    assert(spec_take_int(args, a + 1) == Some((p0, a + 2)));
    assert(spec_take_int(args, a + 2) == Some((v, a + 3)));
}

/// Rendering never passes an error token: the output of a token list with
/// an error at position `k` is the output of the tokens before `k` alone.
pub proof fn lemma_error_truncates(tokens: Seq<Token>, args: Seq<Arg>, texts: Seq<Seq<u8>>, k: int)
    requires
        0 <= k < tokens.len(),
        tokens[k] == Token::Error,
    ensures
        spec_render(tokens, args, texts) == spec_render(tokens.take(k), args, texts),
{
    lemma_error_truncates_from(tokens, args, texts, k, 0, 0, 0);
}

proof fn lemma_error_truncates_from(
    tokens: Seq<Token>,
    args: Seq<Arg>,
    texts: Seq<Seq<u8>>,
    k: int,
    t: int,
    a: int,
    x: int,
)
    requires
        0 <= k < tokens.len(),
        tokens[k] == Token::Error,
        0 <= t <= k,
    ensures
        spec_render_from(tokens, args, texts, t, a, x) == spec_render_from(
            tokens.take(k),
            args,
            texts,
            t,
            a,
            x,
        ),
    decreases k - t,
{
    let cut = tokens.take(k);
    if t == k {
        assert(spec_render_from(tokens, args, texts, t, a, x) =~= Seq::<u8>::empty());
        assert(spec_render_from(cut, args, texts, t, a, x) =~= Seq::<u8>::empty());
    } else {
        assert(cut[t] == tokens[t]);
        match tokens[t] {
            Token::Literal(_b) => {
                lemma_error_truncates_from(tokens, args, texts, k, t + 1, a, x);
            },
            Token::Error => {
            },
            Token::Placeholder(p) => {
                match spec_step(p, args, texts, a, x) {
                    Option::Some((_delta, a2, x2)) => {
                        lemma_error_truncates_from(tokens, args, texts, k, t + 1, a2, x2);
                    },
                    Option::None => {
                    },
                }
            },
        }
    }
}

/// One placeholder's rendering step and its request-walk step move through
/// the argument list in lock step: they succeed on the same arguments, the
/// rendering step consumes one digit string exactly when the request walk
/// emits one request, and rendering can fail where the request walk does
/// not only for want of a digit string.
proof fn lemma_step_matches_rstep(
    p: Placeholder,
    args: Seq<Arg>,
    texts: Seq<Seq<u8>>,
    a: int,
    x: int,
)
    requires
        0 <= x,
    ensures
        match (spec_step(p, args, texts, a, x), spec_rstep(p, args, a)) {
            (Option::Some((_d, a2, x2)), Option::Some((req, a2r))) => a2 == a2r && x2 == x + (
            if req is Some {
                1int
            } else {
                0int
            }),
            (Option::None, Option::Some((req, _a2r))) => req is Some && x >= texts.len(),
            (Option::None, Option::None) => true,
            (Option::Some(_), Option::None) => false,
        },
{
}

/// When the digit strings from `x` on cover every request of the tokens
/// from `t` on, rendering reads only those strings: appending more changes
/// nothing. In particular, rendering with exactly the strings that
/// [`crate::render::float_requests`] asks for never stops for want of one.
pub proof fn lemma_requested_texts_suffice(
    tokens: Seq<Token>,
    args: Seq<Arg>,
    texts: Seq<Seq<u8>>,
    more: Seq<Seq<u8>>,
    t: int,
    a: int,
    x: int,
)
    requires
        0 <= x,
        x + spec_requests_from(tokens, args, t, a).len() <= texts.len(),
    ensures
        spec_render_from(tokens, args, texts + more, t, a, x) == spec_render_from(
            tokens,
            args,
            texts,
            t,
            a,
            x,
        ),
    decreases tokens.len() - t,
{
    if 0 <= t && t < tokens.len() {
        match tokens[t] {
            Token::Literal(_b) => {
                lemma_requested_texts_suffice(tokens, args, texts, more, t + 1, a, x);
            },
            Token::Error => {
            },
            Token::Placeholder(p) => {
                lemma_step_matches_rstep(p, args, texts, a, x);
                lemma_step_matches_rstep(p, args, texts + more, a, x);
                match spec_rstep(p, args, a) {
                    Option::Some((req, a2)) => {
                        let consumed: int = if req is Some {
                            1
                        } else {
                            0
                        };
                        // enough texts are left for this step itself
                        assert(x + consumed <= texts.len());
                        match spec_step(p, args, texts, a, x) {
                            Option::Some((_d, sa2, sx2)) => {
                                // the step reads texts[x] at most, below texts.len(),
                                // so the extended list gives the same step
                                assert(spec_step(p, args, texts + more, a, x) == spec_step(
                                    p,
                                    args,
                                    texts,
                                    a,
                                    x,
                                ));
                                lemma_requested_texts_suffice(
                                    tokens,
                                    args,
                                    texts,
                                    more,
                                    t + 1,
                                    sa2,
                                    sx2,
                                );
                            },
                            Option::None => {
                                assert(false);
                            },
                        }
                    },
                    Option::None => {
                    },
                }
            },
        }
    }
}

/// A `%` that opens no well-formed placeholder parses to the tokens of the
/// bytes before it followed by a single error token, after which nothing
/// more is parsed; with [`lemma_error_truncates`], rendering such a format
/// string yields the rendering of the bytes before the bad `%` and nothing
/// after it.
pub proof fn lemma_malformed_ends_parse(s: Seq<u8>, i: int)
    requires
        0 <= i < s.len(),
        s[i] == 37,
        spec_placeholder(s, i) is None,
    ensures
        spec_parse_from(s, i) == seq![Token::Error],
{
}

} // verus!
