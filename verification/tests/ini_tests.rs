use libalpm::ini::{classify_line, Token};

#[test]
fn it_works() {
}

#[test]
fn classify_blank_and_comment() {
    assert_eq!(classify_line(b""), None);
    assert_eq!(classify_line(b"   \t  "), None);
    assert_eq!(classify_line(b"# a comment"), None);
    assert_eq!(classify_line(b"   # indented comment"), None);
}

#[test]
fn classify_header() {
    assert_eq!(classify_line(b"[options]"), Some(Token::Header(b"options".to_vec())));
    assert_eq!(classify_line(b"  [ core ]  "), Some(Token::Header(b"core".to_vec())));
    // anything after the closing bracket is ignored
    assert_eq!(classify_line(b"[extra] trailing"), Some(Token::Header(b"extra".to_vec())));
}

#[test]
fn classify_pair() {
    assert_eq!(
        classify_line(b"DBPath = /var/lib/pacman/"),
        Some(Token::Pair(b"DBPath".to_vec(), b"/var/lib/pacman/".to_vec()))
    );
    // split at the first '='
    assert_eq!(
        classify_line(b"Server = https://mirror/?a=b"),
        Some(Token::Pair(b"Server".to_vec(), b"https://mirror/?a=b".to_vec()))
    );
    // an empty key is possible
    assert_eq!(classify_line(b"= v"), Some(Token::Pair(b"".to_vec(), b"v".to_vec())));
}

#[test]
fn classify_valueless() {
    assert_eq!(classify_line(b"UseSyslog"), Some(Token::Valueless(b"UseSyslog".to_vec())));
    assert_eq!(classify_line(b"  CheckSpace  "), Some(Token::Valueless(b"CheckSpace".to_vec())));
}

#[test]
fn classify_unclosed_bracket_falls_through() {
    // no closing bracket: the line reads as a key (or pair)
    assert_eq!(classify_line(b"[core"), Some(Token::Valueless(b"[core".to_vec())));
    assert_eq!(
        classify_line(b"[core = x"),
        Some(Token::Pair(b"[core".to_vec(), b"x".to_vec()))
    );
}
