//! Pacman-style INI configuration lines.
//!
//! The configuration file is read line by line; this module classifies one
//! line: after trimming whitespace, a blank line or a `#` comment is nothing, `[name]` opens a
//! section (anything after the closing bracket is ignored), a line with `=`
//! is a key/value pair with both sides trimmed, and anything else is a
//! single valueless key. A line that opens a bracket but never closes one
//! falls through to the key/value rules.
//! The file handling around this — reading, and expanding `Include`
//! directives — is the embedder's, since it is file I/O.

use vstd::prelude::*;

verus! {

/// One classified configuration line.
#[derive(Debug, PartialEq, Eq, Clone)]
pub enum Token {
    /// Start of a new section, by name.
    Header(Vec<u8>),
    /// A key/value pair.
    Pair(Vec<u8>, Vec<u8>),
    /// A single key without value.
    Valueless(Vec<u8>),
}

/// The specification-level image of a classified line.
pub enum LineClass {
    Header(Seq<u8>),
    Pair(Seq<u8>, Seq<u8>),
    Valueless(Seq<u8>),
}

/// ASCII whitespace, as the trimming rules see it.
pub open spec fn is_ws(b: u8) -> bool {
    b == 32 || b == 9 || b == 13 || b == 10
}

/// The first position in `[i, j)` holding a non-whitespace byte, else `j`.
pub open spec fn spec_after_ws(s: Seq<u8>, i: int, j: int) -> int
    decreases j - i,
{
    if i < j && is_ws(s[i]) {
        spec_after_ws(s, i + 1, j)
    } else {
        i
    }
}

/// The end of `[i, j)` with trailing whitespace dropped.
pub open spec fn spec_before_ws(s: Seq<u8>, i: int, j: int) -> int
    decreases j - i,
{
    if i < j && is_ws(s[j - 1]) {
        spec_before_ws(s, i, j - 1)
    } else {
        j
    }
}

/// The bytes of `[i, j)` with whitespace trimmed from both ends.
pub open spec fn spec_trimmed(s: Seq<u8>, i: int, j: int) -> Seq<u8> {
    let a = spec_after_ws(s, i, j);
    let b = spec_before_ws(s, i, j);
    if a >= b {
        Seq::empty()
    } else {
        s.subrange(a, b)
    }
}

/// The first position in `[i, j)` holding byte `b`, else `j`.
pub open spec fn spec_find(s: Seq<u8>, i: int, j: int, b: u8) -> int
    decreases j - i,
{
    if i < j {
        if s[i] == b {
            i
        } else {
            spec_find(s, i + 1, j, b)
        }
    } else {
        j
    }
}

/// The key/value reading of the trimmed range `[a, b)`: a pair split at the
/// first `=`, or a single valueless key.
pub open spec fn spec_pair_or_valueless(s: Seq<u8>, a: int, b: int) -> LineClass {
    let e = spec_find(s, a, b, 61);
    if e < b {
        LineClass::Pair(spec_trimmed(s, a, e), spec_trimmed(s, e + 1, b))
    } else {
        LineClass::Valueless(s.subrange(a, b))
    }
}

/// What one configuration line means: `None` for a blank line or a
/// comment, else a header, a pair, or a valueless key.
pub open spec fn spec_classify(s: Seq<u8>) -> Option<LineClass> {
    let a = spec_after_ws(s, 0, s.len() as int);
    let b = spec_before_ws(s, 0, s.len() as int);
    if a >= b {
        None
    } else if s[a] == 35 {
        None
    } else if s[a] == 91 {
        let e = spec_find(s, a + 1, b, 93);
        if e < b {
            Some(LineClass::Header(spec_trimmed(s, a + 1, e)))
        } else {
            Some(spec_pair_or_valueless(s, a, b))
        }
    } else {
        Some(spec_pair_or_valueless(s, a, b))
    }
}

fn ws_byte(b: u8) -> (r: bool)
    ensures
        r == is_ws(b),
{
    b == 32 || b == 9 || b == 13 || b == 10
}

/// The first position in `[i, j)` holding a non-whitespace byte, else `j`.
fn after_ws(s: &[u8], i: usize, j: usize) -> (r: usize)
    requires
        i <= j <= s@.len(),
    ensures
        r == spec_after_ws(s@, i as int, j as int),
        i <= r <= j,
{
    let mut k: usize = i;
    while k < j && ws_byte(s[k])
        invariant
            i <= k <= j <= s@.len(),
            spec_after_ws(s@, i as int, j as int) == spec_after_ws(s@, k as int, j as int),
        decreases j - k,
    {
        k = k + 1;
    }
    k
}

/// The end of `[i, j)` with trailing whitespace dropped.
fn before_ws(s: &[u8], i: usize, j: usize) -> (r: usize)
    requires
        i <= j <= s@.len(),
    ensures
        r == spec_before_ws(s@, i as int, j as int),
        i <= r <= j,
{
    let mut k: usize = j;
    while k > i && ws_byte(s[k - 1])
        invariant
            i <= k <= j <= s@.len(),
            spec_before_ws(s@, i as int, j as int) == spec_before_ws(s@, i as int, k as int),
        decreases k,
    {
        k = k - 1;
    }
    k
}

/// The first position in `[i, j)` holding byte `b`, else `j`.
fn find_byte(s: &[u8], i: usize, j: usize, b: u8) -> (r: usize)
    requires
        i <= j <= s@.len(),
    ensures
        r == spec_find(s@, i as int, j as int, b),
        i <= r <= j,
{
    let mut k: usize = i;
    while k < j && s[k] != b
        invariant
            i <= k <= j <= s@.len(),
            spec_find(s@, i as int, j as int, b) == spec_find(s@, k as int, j as int, b),
        decreases j - k,
    {
        k = k + 1;
    }
    k
}

/// A copy of the bytes `[a, b)`.
fn range_of(s: &[u8], a: usize, b: usize) -> (r: Vec<u8>)
    requires
        a <= b <= s@.len(),
    ensures
        r@ == s@.subrange(a as int, b as int),
{
    let mut r: Vec<u8> = Vec::new();
    let mut k: usize = a;
    while k < b
        invariant
            a <= k <= b <= s@.len(),
            r@ =~= s@.subrange(a as int, k as int),
        decreases b - k,
    {
        let x = s[k];
        proof {
            assert(s@.subrange(a as int, k as int).push(x) =~= s@.subrange(a as int, k as int + 1));
        }
        r.push(x);
        k = k + 1;
    }
    r
}

/// A copy of `[i, j)` with whitespace trimmed from both ends.
fn trimmed_range(s: &[u8], i: usize, j: usize) -> (r: Vec<u8>)
    requires
        i <= j <= s@.len(),
    ensures
        r@ == spec_trimmed(s@, i as int, j as int),
{
    let a = after_ws(s, i, j);
    let b = before_ws(s, i, j);
    if a >= b {
        proof {
            assert(Seq::<u8>::empty() =~= spec_trimmed(s@, i as int, j as int));
        }
        Vec::new()
    } else {
        range_of(s, a, b)
    }
}

/// Classifies one configuration line: `None` for a blank line or a `#`
/// comment; a `[name]` header with the name trimmed and anything after the
/// bracket ignored; a pair split at the first `=` with both sides trimmed;
/// else a single valueless key.
pub fn classify_line(line: &[u8]) -> (r: Option<Token>)
    ensures
        match r {
            None => spec_classify(line@) is None,
            Some(t) => match t {
                Token::Header(h) => spec_classify(line@) == Some(LineClass::Header(h@)),
                Token::Pair(k, v) => spec_classify(line@) == Some(LineClass::Pair(k@, v@)),
                Token::Valueless(x) => spec_classify(line@) == Some(LineClass::Valueless(x@)),
            },
        },
{
    let n = line.len();
    let a = after_ws(line, 0, n);
    let b = before_ws(line, 0, n);
    if a >= b {
        return None;
    }
    if line[a] == 35 {
        return None;
    }
    if line[a] == 91 {
        let e = find_byte(line, a + 1, b, 93);
        if e < b {
            return Some(Token::Header(trimmed_range(line, a + 1, e)));
        }
    }
    let e = find_byte(line, a, b, 61);
    if e < b {
        Some(Token::Pair(trimmed_range(line, a, e), trimmed_range(line, e + 1, b)))
    } else {
        Some(Token::Valueless(range_of(line, a, b)))
    }
}

} // verus!
