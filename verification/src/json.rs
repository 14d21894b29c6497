//! Construction of the fixed-shape JSON request bodies this client sends,
//! with a specification-level parser that proves the bodies can be decoded
//! back to exactly the values they were built from.

use vstd::prelude::*;
use vstd::string::*;

verus! {

/// Relies on std's `String::push`: appends the given char to the end of
/// the string.
pub assume_specification[ String::push ](s: &mut String, ch: char)
    ensures
        final(s)@ == old(s)@.push(ch),
;

/// Lower-case hex digit for a nibble.
pub open spec fn hex_digit(n: int) -> char {
    if n == 0 {
        '0'
    } else if n == 1 {
        '1'
    } else if n == 2 {
        '2'
    } else if n == 3 {
        '3'
    } else if n == 4 {
        '4'
    } else if n == 5 {
        '5'
    } else if n == 6 {
        '6'
    } else if n == 7 {
        '7'
    } else if n == 8 {
        '8'
    } else if n == 9 {
        '9'
    } else if n == 10 {
        'a'
    } else if n == 11 {
        'b'
    } else if n == 12 {
        'c'
    } else if n == 13 {
        'd'
    } else if n == 14 {
        'e'
    } else {
        'f'
    }
}

/// How one character appears inside a JSON string literal: quote and
/// backslash get a two-character escape, control characters a `\u00XX`
/// escape, everything else stands as itself.
pub open spec fn esc_char(c: char) -> Seq<char> {
    if c == '"' {
        seq!['\\', '"']
    } else if c == '\\' {
        seq!['\\', '\\']
    } else if (c as u32) < 32 {
        seq!['\\', 'u', '0', '0', hex_digit(((c as u32) / 16) as int), hex_digit(((c as u32) % 16) as int)]
    } else {
        seq![c]
    }
}

/// The body of a JSON string literal holding exactly the characters of `s`.
pub open spec fn json_escape(s: Seq<char>) -> Seq<char>
    decreases s.len(),
{
    if s.len() == 0 {
        Seq::empty()
    } else {
        esc_char(s[0]) + json_escape(s.skip(1))
    }
}

pub proof fn lemma_escape_push(s: Seq<char>, c: char)
    ensures
        json_escape(s.push(c)) == json_escape(s) + esc_char(c),
    decreases s.len(),
{
    if s.len() == 0 {
        assert(s.push(c).skip(1) =~= Seq::<char>::empty());
        assert(s.push(c)[0] == c);
        assert(json_escape(s.push(c)) == esc_char(c) + json_escape(s.push(c).skip(1)));
        assert(json_escape(s.push(c)) =~= json_escape(s) + esc_char(c));
    } else {
        assert(s.push(c).skip(1) =~= s.skip(1).push(c));
        lemma_escape_push(s.skip(1), c);
        assert(s.push(c)[0] == s[0]);
        assert(json_escape(s.push(c)) == esc_char(s[0]) + (json_escape(s.skip(1)) + esc_char(c)));
        assert(esc_char(s[0]) + (json_escape(s.skip(1)) + esc_char(c)) =~= (esc_char(s[0])
            + json_escape(s.skip(1))) + esc_char(c));
    }
}

fn hex_char(n: u32) -> (c: char)
    requires
        n < 16,
    ensures
        c == hex_digit(n as int),
{
    if n == 0 {
        '0'
    } else if n == 1 {
        '1'
    } else if n == 2 {
        '2'
    } else if n == 3 {
        '3'
    } else if n == 4 {
        '4'
    } else if n == 5 {
        '5'
    } else if n == 6 {
        '6'
    } else if n == 7 {
        '7'
    } else if n == 8 {
        '8'
    } else if n == 9 {
        '9'
    } else if n == 10 {
        'a'
    } else if n == 11 {
        'b'
    } else if n == 12 {
        'c'
    } else if n == 13 {
        'd'
    } else if n == 14 {
        'e'
    } else {
        'f'
    }
}

/// Append the escaped form of `s` to `out`.
fn escape_append(out: &mut String, s: &str)
    ensures
        final(out)@ == old(out)@ + json_escape(s@),
{
    let n: usize = s.unicode_len();
    let mut i: usize = 0;
    while i < n
        invariant
            n == s@.len(),
            i <= n,
            out@ == old(out)@ + json_escape(s@.take(i as int)),
        decreases n - i,
    {
        let c = s.get_char(i);
        proof {
            lemma_escape_push(s@.take(i as int), c);
            assert(s@.take(i as int).push(c) =~= s@.take(i as int + 1));
        }
        if c == '"' {
            out.push('\\');
            out.push('"');
            proof {
                assert(out@ =~= old(out)@ + json_escape(s@.take(i as int + 1)));
            }
        } else if c == '\\' {
            out.push('\\');
            out.push('\\');
            proof {
                assert(out@ =~= old(out)@ + json_escape(s@.take(i as int + 1)));
            }
        } else if (c as u32) < 32 {
            let code: u32 = c as u32;
            out.push('\\');
            out.push('u');
            out.push('0');
            out.push('0');
            out.push(hex_char(code / 16));
            out.push(hex_char(code % 16));
            proof {
                assert(out@ =~= old(out)@ + json_escape(s@.take(i as int + 1)));
            }
        } else {
            out.push(c);
            proof {
                assert(out@ =~= old(out)@ + json_escape(s@.take(i as int + 1)));
            }
        }
        i = i + 1;
    }
    proof {
        assert(s@.take(n as int) =~= s@);
    }
}

/// A JSON string literal: quote, escaped characters, quote.
pub open spec fn json_quoted(s: Seq<char>) -> Seq<char> {
    seq!['"'] + json_escape(s) + seq!['"']
}

fn append_quoted(out: &mut String, s: &str)
    ensures
        final(out)@ == old(out)@ + json_quoted(s@),
{
    out.push('"');
    escape_append(out, s);
    out.push('"');
    proof {
        assert(out@ =~= old(out)@ + json_quoted(s@));
    }
}

/// A JSON boolean literal.
pub open spec fn json_bool(b: bool) -> Seq<char> {
    if b {
        seq!['t', 'r', 'u', 'e']
    } else {
        seq!['f', 'a', 'l', 's', 'e']
    }
}

fn append_bool(out: &mut String, b: bool)
    ensures
        final(out)@ == old(out)@ + json_bool(b),
{
    if b {
        out.push('t');
        out.push('r');
        out.push('u');
        out.push('e');
    } else {
        out.push('f');
        out.push('a');
        out.push('l');
        out.push('s');
        out.push('e');
    }
    proof {
        assert(out@ =~= old(out)@ + json_bool(b));
    }
}

/// A two-field JSON object of string values, both keys and values escaped.
pub open spec fn json_obj2(k1: Seq<char>, v1: Seq<char>, k2: Seq<char>, v2: Seq<char>) -> Seq<
    char,
> {
    seq!['{'] + json_quoted(k1) + seq![':'] + json_quoted(v1) + seq![','] + json_quoted(k2)
        + seq![':'] + json_quoted(v2) + seq!['}']
}

/// Build the two-string-field request body `{"k1":"v1","k2":"v2"}`.
pub fn build_obj2(k1: &str, v1: &str, k2: &str, v2: &str) -> (r: String)
    ensures
        r@ == json_obj2(k1@, v1@, k2@, v2@),
{
    let mut out = String::new();
    out.push('{');
    append_quoted(&mut out, k1);
    out.push(':');
    append_quoted(&mut out, v1);
    out.push(',');
    append_quoted(&mut out, k2);
    out.push(':');
    append_quoted(&mut out, v2);
    out.push('}');
    proof {
        assert(out@ =~= json_obj2(k1@, v1@, k2@, v2@));
    }
    out
}

/// The configuration-update body: one boolean flag and exactly two extra
/// string fields, in that order.
pub open spec fn json_obj_bool3(
    k: Seq<char>,
    b: bool,
    k1: Seq<char>,
    v1: Seq<char>,
    k2: Seq<char>,
    v2: Seq<char>,
) -> Seq<char> {
    seq!['{'] + json_quoted(k) + seq![':'] + json_bool(b) + seq![','] + json_quoted(k1)
        + seq![':'] + json_quoted(v1) + seq![','] + json_quoted(k2) + seq![':'] + json_quoted(v2)
        + seq!['}']
}

/// Build the body `{"k":b,"k1":"v1","k2":"v2"}`.
pub fn build_obj_bool3(k: &str, b: bool, k1: &str, v1: &str, k2: &str, v2: &str) -> (r: String)
    ensures
        r@ == json_obj_bool3(k@, b, k1@, v1@, k2@, v2@),
{
    let mut out = String::new();
    out.push('{');
    append_quoted(&mut out, k);
    out.push(':');
    append_bool(&mut out, b);
    out.push(',');
    append_quoted(&mut out, k1);
    out.push(':');
    append_quoted(&mut out, v1);
    out.push(',');
    append_quoted(&mut out, k2);
    out.push(':');
    append_quoted(&mut out, v2);
    out.push('}');
    proof {
        assert(out@ =~= json_obj_bool3(k@, b, k1@, v1@, k2@, v2@));
    }
    out
}

/// Value of a lower-case hex digit, or -1 for any other character.
pub open spec fn unhex(c: char) -> int {
    if c == '0' {
        0
    } else if c == '1' {
        1
    } else if c == '2' {
        2
    } else if c == '3' {
        3
    } else if c == '4' {
        4
    } else if c == '5' {
        5
    } else if c == '6' {
        6
    } else if c == '7' {
        7
    } else if c == '8' {
        8
    } else if c == '9' {
        9
    } else if c == 'a' {
        10
    } else if c == 'b' {
        11
    } else if c == 'c' {
        12
    } else if c == 'd' {
        13
    } else if c == 'e' {
        14
    } else if c == 'f' {
        15
    } else {
        -1
    }
}

/// The character with the given code point.
pub open spec fn char_of_code(n: int) -> char {
    (n as u32) as char
}

/// Read the body of a JSON string literal up to its closing quote: the
/// decoded characters, and whatever follows the quote. `None` when the
/// input holds no closing quote or a malformed escape.
pub open spec fn unescape_content(t: Seq<char>) -> Option<(Seq<char>, Seq<char>)>
    decreases t.len(),
{
    if t.len() == 0 {
        None
    } else if t[0] == '"' {
        Some((Seq::empty(), t.skip(1)))
    } else if t[0] == '\\' {
        if t.len() >= 2 && (t[1] == '"' || t[1] == '\\') {
            match unescape_content(t.skip(2)) {
                Some(p) => Some((seq![t[1]] + p.0, p.1)),
                None => None,
            }
        } else if t.len() >= 6 && t[1] == 'u' && t[2] == '0' && t[3] == '0' && unhex(t[4]) >= 0
            && unhex(t[5]) >= 0 {
            match unescape_content(t.skip(6)) {
                Some(p) => Some((seq![char_of_code(unhex(t[4]) * 16 + unhex(t[5]))] + p.0, p.1)),
                None => None,
            }
        } else {
            None
        }
    } else {
        match unescape_content(t.skip(1)) {
            Some(p) => Some((seq![t[0]] + p.0, p.1)),
            None => None,
        }
    }
}

/// Escaping loses nothing: the escaped characters followed by the closing
/// quote decode back to exactly the original characters, whatever follows.
pub proof fn lemma_unescape_escape(s: Seq<char>, r: Seq<char>)
    ensures
        unescape_content(json_escape(s) + seq!['"'] + r) == Some((s, r)),
    decreases s.len(),
{
    let t = json_escape(s) + seq!['"'] + r;
    if s.len() == 0 {
        assert(json_escape(s) =~= Seq::<char>::empty());
        assert(t[0] == '"');
        assert(t.skip(1) =~= r);
        assert(Some((s, r)) == Some((Seq::<char>::empty(), r)));
    } else {
        let c = s[0];
        let s1 = s.skip(1);
        let t1 = json_escape(s1) + seq!['"'] + r;
        lemma_unescape_escape(s1, r);
        if c == '"' {
            assert(t =~= seq!['\\', '"'] + t1);
            assert(t[0] == '\\' && t[1] == '"');
            assert(t.skip(2) =~= t1);
            assert(seq![t[1]] + s1 =~= s);
        } else if c == '\\' {
            assert(t =~= seq!['\\', '\\'] + t1);
            assert(t[0] == '\\' && t[1] == '\\');
            assert(t.skip(2) =~= t1);
            assert(seq![t[1]] + s1 =~= s);
        } else if (c as u32) < 32 {
            let code = c as u32;
            let hi = hex_digit((code / 16) as int);
            let lo = hex_digit((code % 16) as int);
            assert(t =~= seq!['\\', 'u', '0', '0', hi, lo] + t1);
            assert(t[0] == '\\' && t[1] == 'u' && t[2] == '0' && t[3] == '0' && t[4] == hi && t[5]
                == lo);
            assert(unhex(hi) == (code / 16) as int);
            assert(unhex(lo) == (code % 16) as int);
            let n = unhex(hi) * 16 + unhex(lo);
            assert(n == code as int) by {
                vstd::arithmetic::div_mod::lemma_fundamental_div_mod(code as int, 16);
            }
            assert(char_of_code(n) == c) by {
                assert(n as u32 == code);
                vstd::utf8::char_u32_cast(c, code);
            }
            assert(t.skip(6) =~= t1);
            assert(seq![char_of_code(unhex(t[4]) * 16 + unhex(t[5]))] + s1 =~= s);
        } else {
            assert(t =~= seq![c] + t1);
            assert(t[0] == c);
            assert(t.skip(1) =~= t1);
            assert(seq![t[0]] + s1 =~= s);
        }
    }
}

/// Read one JSON string literal and return its decoded characters and
/// whatever follows it.
pub open spec fn parse_quoted(t: Seq<char>) -> Option<(Seq<char>, Seq<char>)> {
    if t.len() >= 1 && t[0] == '"' {
        unescape_content(t.skip(1))
    } else {
        None
    }
}

pub proof fn lemma_parse_quoted(s: Seq<char>, r: Seq<char>)
    ensures
        parse_quoted(json_quoted(s) + r) == Some((s, r)),
{
    let t = json_quoted(s) + r;
    assert(t[0] == '"');
    assert(t.skip(1) =~= json_escape(s) + seq!['"'] + r);
    lemma_unescape_escape(s, r);
}

/// Parse a two-string-field object `{"k1":"v1","k2":"v2"}` back into its
/// keys and values.
pub open spec fn parse_obj2(t: Seq<char>) -> Option<(Seq<char>, Seq<char>, Seq<char>, Seq<char>)> {
    if t.len() >= 1 && t[0] == '{' {
        match parse_quoted(t.skip(1)) {
            Some((k1, t1)) => if t1.len() >= 1 && t1[0] == ':' {
                match parse_quoted(t1.skip(1)) {
                    Some((v1, t2)) => if t2.len() >= 1 && t2[0] == ',' {
                        match parse_quoted(t2.skip(1)) {
                            Some((k2, t3)) => if t3.len() >= 1 && t3[0] == ':' {
                                match parse_quoted(t3.skip(1)) {
                                    Some((v2, t4)) => if t4.len() == 1 && t4[0] == '}' {
                                        Some((k1, v1, k2, v2))
                                    } else {
                                        None
                                    },
                                    None => None,
                                }
                            } else {
                                None
                            },
                            None => None,
                        }
                    } else {
                        None
                    },
                    None => None,
                }
            } else {
                None
            },
            None => None,
        }
    } else {
        None
    }
}

/// Round trip for the two-string-field bodies: serializing and parsing
/// reproduces the exact keys and values, with no transformation and no
/// truncation.
pub proof fn lemma_obj2_round_trip(k1: Seq<char>, v1: Seq<char>, k2: Seq<char>, v2: Seq<char>)
    ensures
        parse_obj2(json_obj2(k1, v1, k2, v2)) == Some((k1, v1, k2, v2)),
{
    let t = json_obj2(k1, v1, k2, v2);
    let r1 = seq![':'] + json_quoted(v1) + seq![','] + json_quoted(k2) + seq![':'] + json_quoted(
        v2,
    ) + seq!['}'];
    let r2 = seq![','] + json_quoted(k2) + seq![':'] + json_quoted(v2) + seq!['}'];
    let r3 = seq![':'] + json_quoted(v2) + seq!['}'];
    let r4 = seq!['}'];
    assert(t[0] == '{');
    assert(t.skip(1) =~= json_quoted(k1) + r1);
    lemma_parse_quoted(k1, r1);
    assert(r1[0] == ':');
    assert(r1.skip(1) =~= json_quoted(v1) + r2);
    lemma_parse_quoted(v1, r2);
    assert(r2[0] == ',');
    assert(r2.skip(1) =~= json_quoted(k2) + r3);
    lemma_parse_quoted(k2, r3);
    assert(r3[0] == ':');
    assert(r3.skip(1) =~= json_quoted(v2) + r4);
    lemma_parse_quoted(v2, r4);
    assert(r4.len() == 1 && r4[0] == '}');
}

} // verus!
