use libalpm::parser::{parse_format_str, parse_number, Modifier, Placeholder, Token, TokenType,
    Width};

fn plain(token_type: TokenType) -> Placeholder {
    Placeholder {
        right_align: false,
        preceding_plus: false,
        pad_sign: false,
        prefix: false,
        pad_zero: false,
        width: None,
        precision: None,
        modifier: Modifier::Plain,
        token_type,
    }
}

#[test]
fn test_parse_whole_str() {
    let input_1 = b"Test string: %-+ #010.15s.";
    let res = vec![
        Token::Literal(b'T'),
        Token::Literal(b'e'),
        Token::Literal(b's'),
        Token::Literal(b't'),
        Token::Literal(b' '),
        Token::Literal(b's'),
        Token::Literal(b't'),
        Token::Literal(b'r'),
        Token::Literal(b'i'),
        Token::Literal(b'n'),
        Token::Literal(b'g'),
        Token::Literal(b':'),
        Token::Literal(b' '),
        Token::Placeholder(Placeholder {
            right_align: true,
            preceding_plus: true,
            pad_sign: true,
            prefix: true,
            pad_zero: true,
            width: Some(Width::Static(10)),
            precision: Some(Width::Static(15)),
            modifier: Modifier::Plain,
            token_type: TokenType::String,
        }),
        Token::Literal(b'.'),
    ];
    assert_eq!(parse_format_str(input_1), res);
}

#[test]
fn test_parse_number() {
    let input_1 = b"1234";
    assert_eq!(parse_number(input_1, 0), Some((1234, 4)));
}

#[test]
fn parse_number_overflow_rejects() {
    // far beyond usize::MAX: the numeral must not wrap silently
    let input = b"99999999999999999999999999999999999";
    assert_eq!(parse_number(input, 0), None);
    // and a placeholder carrying it is malformed, ending the parse
    let toks = parse_format_str(b"a%99999999999999999999999999999999999db");
    assert_eq!(toks, vec![Token::Literal(b'a'), Token::Error]);
}

#[test]
fn parse_literal_only() {
    let toks = parse_format_str(b"no placeholders here");
    assert_eq!(toks.len(), 20);
    for (i, b) in b"no placeholders here".iter().enumerate() {
        assert_eq!(toks[i], Token::Literal(*b));
    }
}

#[test]
fn parse_percent_literal() {
    assert_eq!(
        parse_format_str(b"100%%"),
        vec![
            Token::Literal(b'1'),
            Token::Literal(b'0'),
            Token::Literal(b'0'),
            Token::Placeholder(plain(TokenType::PercentLiteral)),
        ]
    );
}

#[test]
fn parse_flags_any_order() {
    // the two flag orders parse to the same placeholder
    let a = parse_format_str(b"%-05d");
    let b = parse_format_str(b"%0-5d");
    assert_eq!(a, b);
    let expected = Placeholder {
        right_align: true,
        pad_zero: true,
        width: Some(Width::Static(5)),
        ..plain(TokenType::SignedInteger)
    };
    assert_eq!(a, vec![Token::Placeholder(expected)]);
}

#[test]
fn parse_modifiers() {
    let cases: Vec<(&[u8], Modifier)> = vec![
        (b"%hhd", Modifier::Char),
        (b"%hd", Modifier::Short),
        (b"%ld", Modifier::Long),
        (b"%lld", Modifier::LongLong),
        (b"%jd", Modifier::IntMax),
        (b"%zd", Modifier::Size),
        (b"%td", Modifier::PtrDiff),
        (b"%Lf", Modifier::LongDouble),
        (b"%d", Modifier::Plain),
    ];
    for (fmt, m) in cases {
        let toks = parse_format_str(fmt);
        assert_eq!(toks.len(), 1);
        match &toks[0] {
            Token::Placeholder(p) => assert_eq!(p.modifier, m),
            other => panic!("expected a placeholder, got {:?}", other),
        }
    }
}

#[test]
fn parse_dynamic_width_and_precision() {
    let toks = parse_format_str(b"%*.*d");
    assert_eq!(
        toks,
        vec![Token::Placeholder(Placeholder {
            width: Some(Width::Dynamic),
            precision: Some(Width::Dynamic),
            ..plain(TokenType::SignedInteger)
        })]
    );
}

#[test]
fn parse_malformed_placeholder() {
    // 'q' is no conversion: the parse ends in an error token right there
    let toks = parse_format_str(b"ab%qcd");
    assert_eq!(toks, vec![Token::Literal(b'a'), Token::Literal(b'b'), Token::Error]);
}

#[test]
fn parse_lone_dot_is_malformed() {
    let toks = parse_format_str(b"%.d");
    assert_eq!(toks, vec![Token::Error]);
}

#[test]
fn parse_trailing_percent_is_malformed() {
    let toks = parse_format_str(b"abc%");
    assert_eq!(
        toks,
        vec![Token::Literal(b'a'), Token::Literal(b'b'), Token::Literal(b'c'), Token::Error]
    );
}

#[test]
fn parse_all_conversions() {
    let cases: Vec<(&[u8], TokenType)> = vec![
        (b"%d", TokenType::SignedInteger),
        (b"%i", TokenType::SignedInteger),
        (b"%u", TokenType::UnsignedInteger),
        (b"%o", TokenType::UnsignedOctal),
        (b"%x", TokenType::UnsignedHex),
        (b"%X", TokenType::UnsignedHexUpper),
        (b"%f", TokenType::Float),
        (b"%F", TokenType::FloatUpper),
        (b"%e", TokenType::Scientific),
        (b"%E", TokenType::ScientificUpper),
        (b"%g", TokenType::ShortestFloat),
        (b"%G", TokenType::ShortestFloatUpper),
        (b"%a", TokenType::HexFloat),
        (b"%A", TokenType::HexFloatUpper),
        (b"%c", TokenType::Character),
        (b"%s", TokenType::String),
        (b"%p", TokenType::PointerAddress),
        (b"%n", TokenType::StoreChars),
        (b"%%", TokenType::PercentLiteral),
    ];
    for (fmt, tt) in cases {
        assert_eq!(parse_format_str(fmt), vec![Token::Placeholder(plain(tt))]);
    }
}
