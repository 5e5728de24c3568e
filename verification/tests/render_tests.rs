use libalpm::parser::parse_format_str;
use libalpm::render::{float_requests, render, Arg, FloatStyle};

/// Renders a format string whose tokens need no floating conversion.
fn run(fmt: &[u8], args: Vec<Arg>) -> String {
    let tokens = parse_format_str(fmt);
    let out = render(&tokens, &args, &vec![]);
    String::from_utf8(out).unwrap()
}

/// Renders a format string, producing fixed-style float digit strings with
/// Rust's own formatting (only `%f` appears in these tests' formats).
fn run_with_floats(fmt: &[u8], args: Vec<Arg>) -> String {
    let tokens = parse_format_str(fmt);
    let reqs = float_requests(&tokens, &args);
    let mut texts: Vec<Vec<u8>> = Vec::new();
    for r in &reqs {
        assert_eq!(r.style, FloatStyle::Fixed);
        let v = f64::from_bits(r.bits);
        let prec = r.precision.unwrap_or(6);
        texts.push(format!("{:.*}", prec, v).into_bytes());
    }
    let out = render(&tokens, &args, &texts);
    String::from_utf8(out).unwrap()
}

#[test]
fn round_trip_zero_padded() {
    assert_eq!(run(b"%05d", vec![Arg::Int(42)]), "00042");
}

#[test]
fn round_trip_left_aligned() {
    assert_eq!(run(b"%-5d|", vec![Arg::Int(42)]), "42   |");
}

#[test]
fn round_trip_forced_sign() {
    assert_eq!(run(b"%+d", vec![Arg::Int(7)]), "+7");
}

#[test]
fn round_trip_hex_prefix() {
    assert_eq!(run(b"%#x", vec![Arg::Uint(100)]), "0x64");
}

#[test]
fn round_trip_fixed_precision() {
    assert_eq!(run_with_floats(b"%.2f", vec![Arg::Float(3.14159f64.to_bits())]), "3.14");
}

#[test]
fn round_trip_character() {
    assert_eq!(run(b"%c", vec![Arg::Int(65)]), "A");
}

#[test]
fn literal_only_output_is_input() {
    assert_eq!(run(b"plain text, no placeholders", vec![]), "plain text, no placeholders");
}

#[test]
fn percent_consumes_no_argument() {
    // both arguments are still there for the two %d around the %%
    assert_eq!(run(b"%d%%%d", vec![Arg::Int(1), Arg::Int(2)]), "1%2");
    assert_eq!(run(b"100%%", vec![]), "100%");
}

#[test]
fn percent_with_width_pads() {
    assert_eq!(run(b"%5%", vec![]), "    %");
}

#[test]
fn left_justify_wins_over_zero_both_orders() {
    assert_eq!(run(b"%-05d", vec![Arg::Int(42)]), "42   ");
    assert_eq!(run(b"%0-5d", vec![Arg::Int(42)]), "42   ");
}

#[test]
fn dynamic_width_then_precision_then_value() {
    // distinct sentinels: 6 becomes the width, 3 the precision (capping the
    // string), "abcdef" the value
    assert_eq!(run(b"%*.*s", vec![Arg::Int(6), Arg::Int(3), Arg::Str(b"abcdef".to_vec())]), "   abc");
    assert_eq!(run(b"%*d", vec![Arg::Int(5), Arg::Int(10)]), "   10");
}

#[test]
fn dynamic_negative_width_left_justifies() {
    assert_eq!(run(b"%*d|", vec![Arg::Int(-5), Arg::Int(7)]), "7    |");
}

#[test]
fn dynamic_negative_precision_means_none() {
    assert_eq!(run(b"%.*s", vec![Arg::Int(-1), Arg::Str(b"hello".to_vec())]), "hello");
}

#[test]
fn malformed_placeholder_truncates_output() {
    // literal bytes up to the failed placeholder, nothing after it
    assert_eq!(run(b"ab%qcd", vec![Arg::Int(1)]), "ab");
    assert_eq!(run(b"%q", vec![]), "");
}

#[test]
fn wrong_argument_kind_halts() {
    // %d wants a signed integer; a string halts rendering there
    assert_eq!(run(b"a%db", vec![Arg::Str(b"x".to_vec())]), "a");
}

#[test]
fn exhausted_arguments_halt() {
    assert_eq!(run(b"a%d", vec![]), "a");
}

#[test]
fn classic_radices() {
    assert_eq!(
        run(
            b"Some different radices: %d %x %o %#x %#o",
            vec![
                Arg::Int(100),
                Arg::Uint(100),
                Arg::Uint(100),
                Arg::Uint(100),
                Arg::Uint(100),
            ],
        ),
        "Some different radices: 100 64 144 0x64 0144"
    );
}

#[test]
fn classic_blanks_and_zeros() {
    assert_eq!(run(b"Preceding with blanks: %10d", vec![Arg::Int(1977)]),
        "Preceding with blanks:       1977");
    assert_eq!(run(b"Preceding with zeros: %010d", vec![Arg::Int(1977)]),
        "Preceding with zeros: 0000001977");
}

#[test]
fn classic_characters() {
    assert_eq!(run(b"Characters: %c %c", vec![Arg::Int(97), Arg::Int(65)]), "Characters: a A");
}

#[test]
fn classic_decimals() {
    assert_eq!(run(b"Decimals: %d %ld", vec![Arg::Int(1977), Arg::Int(650000)]),
        "Decimals: 1977 650000");
}

#[test]
fn classic_string() {
    assert_eq!(run(b"%s", vec![Arg::Str(b"A string".to_vec())]), "A string");
}

#[test]
fn string_precision_caps_bytes() {
    assert_eq!(run(b"%.3s", vec![Arg::Str(b"hello".to_vec())]), "hel");
    assert_eq!(run(b"%.9s", vec![Arg::Str(b"hello".to_vec())]), "hello");
}

#[test]
fn char_modifier_truncates() {
    // 300 mod 256 = 44: the value is read at the char width
    assert_eq!(run(b"%hhd", vec![Arg::Int(300)]), "44");
    assert_eq!(run(b"%hhd", vec![Arg::Int(-1)]), "-1");
    assert_eq!(run(b"%hhu", vec![Arg::Uint(300)]), "44");
}

#[test]
fn short_modifier_truncates() {
    assert_eq!(run(b"%hd", vec![Arg::Int(65536)]), "0");
    assert_eq!(run(b"%hd", vec![Arg::Int(65535)]), "-1");
}

#[test]
fn plain_width_is_32_bits() {
    // 2^32 reads as 0 at the plain int width
    assert_eq!(run(b"%d", vec![Arg::Int(4294967296)]), "0");
    assert_eq!(run(b"%u", vec![Arg::Uint(u64::MAX)]), "4294967295");
}

#[test]
fn long_modifier_keeps_64_bits() {
    assert_eq!(run(b"%ld", vec![Arg::Int(i64::MIN)]), "-9223372036854775808");
    assert_eq!(run(b"%lld", vec![Arg::Int(i64::MAX)]), "9223372036854775807");
    assert_eq!(run(b"%llu", vec![Arg::Uint(u64::MAX)]), "18446744073709551615");
}

#[test]
fn negative_sign_never_doubled() {
    assert_eq!(run(b"%+d", vec![Arg::Int(-42)]), "-42");
    assert_eq!(run(b"% d", vec![Arg::Int(-42)]), "-42");
    assert_eq!(run(b"%+05d", vec![Arg::Int(-42)]), "-0042");
}

#[test]
fn space_flag_blanks_positive_sign() {
    assert_eq!(run(b"% d", vec![Arg::Int(42)]), " 42");
}

#[test]
fn unsigned_never_signed() {
    let s = run(b"%u", vec![Arg::Uint(4294967295)]);
    assert!(!s.contains('-'));
    assert_eq!(s, "4294967295");
}

#[test]
fn pointer_renders_hex() {
    assert_eq!(run(b"%p", vec![Arg::Ptr(255)]), "0xff");
}

#[test]
fn store_chars_writes_nothing() {
    assert_eq!(run(b"a%nb", vec![Arg::Ptr(0)]), "ab");
}

#[test]
fn hex_case_follows_conversion() {
    assert_eq!(run(b"%x %X", vec![Arg::Uint(48879), Arg::Uint(48879)]), "beef BEEF");
    assert_eq!(run(b"%#X", vec![Arg::Uint(48879)]), "0XBEEF");
}

#[test]
fn hex_prefix_skipped_for_zero() {
    assert_eq!(run(b"%#x", vec![Arg::Uint(0)]), "0");
    assert_eq!(run(b"%#o", vec![Arg::Uint(0)]), "0");
}

#[test]
fn zero_padding_after_hex_prefix() {
    assert_eq!(run(b"%#08x", vec![Arg::Uint(255)]), "0x0000ff");
}

#[test]
fn float_requests_list_in_order() {
    let tokens = parse_format_str(b"%.2f %d %.*e");
    let args = vec![
        Arg::Float(3.25f64.to_bits()),
        Arg::Int(7),
        Arg::Int(4),
        Arg::Float(1.5f64.to_bits()),
    ];
    let reqs = float_requests(&tokens, &args);
    assert_eq!(reqs.len(), 2);
    assert_eq!(reqs[0].bits, 3.25f64.to_bits());
    assert_eq!(reqs[0].style, FloatStyle::Fixed);
    assert_eq!(reqs[0].precision, Some(2));
    assert!(!reqs[0].upper);
    assert_eq!(reqs[1].bits, 1.5f64.to_bits());
    assert_eq!(reqs[1].style, FloatStyle::Scientific);
    assert_eq!(reqs[1].precision, Some(4));
}

#[test]
fn float_sign_and_padding_applied_by_render() {
    // the digit string carries no sign; the + flag and the width do
    let tokens = parse_format_str(b"%+8e|");
    let args = vec![Arg::Float(3.0f64.to_bits())];
    let texts = vec![b"3e+00".to_vec()];
    let out = render(&tokens, &args, &texts);
    assert_eq!(String::from_utf8(out).unwrap(), "  +3e+00|");
}

#[test]
fn float_negative_text_keeps_single_minus() {
    let tokens = parse_format_str(b"%+09.2f");
    let args = vec![Arg::Float((-3.25f64).to_bits())];
    let texts = vec![b"-3.25".to_vec()];
    let out = render(&tokens, &args, &texts);
    assert_eq!(String::from_utf8(out).unwrap(), "-00003.25");
}

#[test]
fn float_without_text_halts() {
    let tokens = parse_format_str(b"a%fb");
    let args = vec![Arg::Float(1.0f64.to_bits())];
    let out = render(&tokens, &args, &vec![]);
    assert_eq!(String::from_utf8(out).unwrap(), "a");
}

#[test]
fn classic_floats_fixed() {
    assert_eq!(
        run_with_floats(b"floats: %4.2f", vec![Arg::Float(3.1416f64.to_bits())]),
        "floats: 3.14"
    );
    assert_eq!(run_with_floats(b"%f", vec![Arg::Float(1.5f64.to_bits())]), "1.500000");
}
