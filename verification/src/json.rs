//! JSON string framing: escaping of string content for the wire, and the
//! scanner that reads a quoted string back, decoding escapes. The
//! round-trip lemma at the bottom is what the event codec's law rests on.

use vstd::prelude::*;
use vstd::utf8::is_scalar;

use crate::text::str_to_chars;

verus! {

/// The lowercase hexadecimal digit for `d`, defined for `0 <= d <= 15`.
pub open spec fn hex_digit(d: int) -> char {
    if d == 0 {
        '0'
    } else if d == 1 {
        '1'
    } else if d == 2 {
        '2'
    } else if d == 3 {
        '3'
    } else if d == 4 {
        '4'
    } else if d == 5 {
        '5'
    } else if d == 6 {
        '6'
    } else if d == 7 {
        '7'
    } else if d == 8 {
        '8'
    } else if d == 9 {
        '9'
    } else if d == 10 {
        'a'
    } else if d == 11 {
        'b'
    } else if d == 12 {
        'c'
    } else if d == 13 {
        'd'
    } else if d == 14 {
        'e'
    } else {
        'f'
    }
}

/// Whether `c` is a hexadecimal digit (either case).
pub open spec fn is_hex(c: char) -> bool {
    ('0' <= c && c <= '9') || ('a' <= c && c <= 'f') || ('A' <= c && c <= 'F')
}

/// The value of a hexadecimal digit.
pub open spec fn hex_val(c: char) -> int {
    if '0' <= c && c <= '9' {
        c as int - '0' as int
    } else if 'a' <= c && c <= 'f' {
        c as int - 'a' as int + 10
    } else {
        c as int - 'A' as int + 10
    }
}

/// How one character is written inside a JSON string: quotes and
/// backslashes are escaped, the five short control escapes are used where
/// they exist, other control characters take the `\u00xx` form, and
/// everything else stands for itself.
pub open spec fn escape_char(c: char) -> Seq<char> {
    if c == '"' {
        seq!['\\', '"']
    } else if c == '\\' {
        seq!['\\', '\\']
    } else if c == '\u{8}' {
        seq!['\\', 'b']
    } else if c == '\t' {
        seq!['\\', 't']
    } else if c == '\n' {
        seq!['\\', 'n']
    } else if c == '\u{c}' {
        seq!['\\', 'f']
    } else if c == '\r' {
        seq!['\\', 'r']
    } else if (c as u32) < 0x20 {
        seq!['\\', 'u', '0', '0', hex_digit((c as u32 / 16) as int), hex_digit((c as u32 % 16) as int)]
    } else {
        seq![c]
    }
}

/// The escaped form of a whole string.
pub open spec fn escape_str(s: Seq<char>) -> Seq<char>
    decreases s.len(),
{
    if s.len() == 0 {
        Seq::empty()
    } else {
        escape_char(s[0]) + escape_str(s.skip(1))
    }
}

/// The character a single-letter escape stands for.
pub open spec fn unescape_char(c: char) -> Option<char> {
    if c == '"' {
        Some('"')
    } else if c == '\\' {
        Some('\\')
    } else if c == '/' {
        Some('/')
    } else if c == 'b' {
        Some('\u{8}')
    } else if c == 'f' {
        Some('\u{c}')
    } else if c == 'n' {
        Some('\n')
    } else if c == 'r' {
        Some('\r')
    } else if c == 't' {
        Some('\t')
    } else {
        None
    }
}

/// Reads a JSON string body up to and including its closing quote,
/// decoding escapes. Returns the decoded content and what follows the
/// closing quote; `None` on malformed input (an unterminated string, a
/// bad escape, a raw control character, or a `\u` escape that is not a
/// Unicode scalar value).
pub open spec fn scan_string(s: Seq<char>) -> Option<(Seq<char>, Seq<char>)>
    decreases s.len(),
{
    if s.len() == 0 {
        None
    } else if s[0] == '"' {
        Some((Seq::empty(), s.skip(1)))
    } else if s[0] == '\\' {
        if s.len() < 2 {
            None
        } else if s[1] == 'u' {
            if s.len() < 6 {
                None
            } else if is_hex(s[2]) && is_hex(s[3]) && is_hex(s[4]) && is_hex(s[5]) {
                let v = ((hex_val(s[2]) * 16 + hex_val(s[3])) * 16 + hex_val(s[4])) * 16 + hex_val(
                    s[5],
                );
                if is_scalar(v as u32) {
                    match scan_string(s.skip(6)) {
                        Some((t, rest)) => Some((seq![(v as u32) as char] + t, rest)),
                        None => None,
                    }
                } else {
                    None
                }
            } else {
                None
            }
        } else {
            match unescape_char(s[1]) {
                Some(c) => match scan_string(s.skip(2)) {
                    Some((t, rest)) => Some((seq![c] + t, rest)),
                    None => None,
                },
                None => None,
            }
        }
    } else if (s[0] as u32) < 0x20 {
        None
    } else {
        match scan_string(s.skip(1)) {
            Some((t, rest)) => Some((seq![s[0]] + t, rest)),
            None => None,
        }
    }
}

/// Appends the escaped form of `s` to `out`.
pub fn push_escaped(out: &mut Vec<char>, s: &str)
    ensures
        final(out)@ == old(out)@ + escape_str(s@),
{
    let cs = str_to_chars(s);
    let n = cs.len();
    let mut i: usize = 0;
    proof {
        assert(s@.skip(0) =~= s@);
    }
    while i < n
        invariant
            i <= n,
            n == cs@.len(),
            cs@ == s@,
            out@ + escape_str(s@.skip(i as int)) == old(out)@ + escape_str(s@),
        decreases n - i,
    {
        let c = cs[i];
        let ghost out0 = out@;
        proof {
            assert(s@.skip(i as int).len() > 0);
            assert(s@.skip(i as int)[0] == s@[i as int]);
            assert(s@.skip(i as int).skip(1) =~= s@.skip(i + 1 as int));
            assert(escape_str(s@.skip(i as int)) == escape_char(s@[i as int]) + escape_str(
                s@.skip(i + 1 as int),
            ));
        }
        if c == '"' {
            out.push('\\');
            out.push('"');
        } else if c == '\\' {
            out.push('\\');
            out.push('\\');
        } else if c == '\u{8}' {
            out.push('\\');
            out.push('b');
        } else if c == '\t' {
            out.push('\\');
            out.push('t');
        } else if c == '\n' {
            out.push('\\');
            out.push('n');
        } else if c == '\u{c}' {
            out.push('\\');
            out.push('f');
        } else if c == '\r' {
            out.push('\\');
            out.push('r');
        } else if (c as u32) < 0x20 {
            out.push('\\');
            out.push('u');
            out.push('0');
            out.push('0');
            out.push(hex_digit_exec(((c as u32) / 16) as u8));
            out.push(hex_digit_exec(((c as u32) % 16) as u8));
        } else {
            out.push(c);
        }
        proof {
            assert(out@ =~= out0 + escape_char(s@[i as int]));
            assert(out@ + escape_str(s@.skip(i + 1 as int)) =~= old(out)@ + escape_str(s@));
        }
        i += 1;
    }
    proof {
        assert(s@.skip(n as int) =~= Seq::<char>::empty());
    }
}

/// The lowercase hexadecimal digit character for a value below sixteen.
pub fn hex_digit_exec(d: u8) -> (r: char)
    requires
        d <= 15,
    ensures
        r == hex_digit(d as int),
{
    match d {
        0 => '0',
        1 => '1',
        2 => '2',
        3 => '3',
        4 => '4',
        5 => '5',
        6 => '6',
        7 => '7',
        8 => '8',
        9 => '9',
        10 => 'a',
        11 => 'b',
        12 => 'c',
        13 => 'd',
        14 => 'e',
        _ => 'f',
    }
}

/// Strips the exact prefix `p` from `s`, if it is one.
pub open spec fn strip_lit(s: Seq<char>, p: Seq<char>) -> Option<Seq<char>> {
    if p.len() <= s.len() && s.take(p.len() as int) == p {
        Some(s.skip(p.len() as int))
    } else {
        None
    }
}

/// Relies on `char::from_u32`: `Some` exactly for Unicode scalar values,
/// returning the character with that code point.
#[verifier::external_body]
fn char_from_u32(v: u32) -> (r: Option<char>)
    ensures
        match r {
            Some(c) => is_scalar(v) && c as u32 == v,
            None => !is_scalar(v),
        },
{
    char::from_u32(v)
}

/// Whether `c` is a hexadecimal digit.
fn is_hex_exec(c: char) -> (r: bool)
    ensures
        r == is_hex(c),
{
    ('0' <= c && c <= '9') || ('a' <= c && c <= 'f') || ('A' <= c && c <= 'F')
}

/// The value of a hexadecimal digit.
fn hex_val_exec(c: char) -> (r: u32)
    requires
        is_hex(c),
    ensures
        r == hex_val(c),
{
    if '0' <= c && c <= '9' {
        (c as u32) - ('0' as u32)
    } else if 'a' <= c && c <= 'f' {
        (c as u32) - ('a' as u32) + 10
    } else {
        (c as u32) - ('A' as u32) + 10
    }
}

/// The character a single-letter escape stands for.
fn unescape_char_exec(c: char) -> (r: Option<char>)
    ensures
        r == unescape_char(c),
{
    if c == '"' {
        Some('"')
    } else if c == '\\' {
        Some('\\')
    } else if c == '/' {
        Some('/')
    } else if c == 'b' {
        Some('\u{8}')
    } else if c == 'f' {
        Some('\u{c}')
    } else if c == 'n' {
        Some('\n')
    } else if c == 'r' {
        Some('\r')
    } else if c == 't' {
        Some('\t')
    } else {
        None
    }
}

/// Strips the literal `lit` at position `pos` of `cs`, returning the
/// position just past it.
pub fn strip_at(cs: &Vec<char>, pos: usize, lit: &str) -> (r: Option<usize>)
    requires
        pos <= cs@.len(),
    ensures
        match r {
            Some(p2) => pos <= p2 <= cs@.len() && strip_lit(cs@.skip(pos as int), lit@) == Some(
                cs@.skip(p2 as int),
            ),
            None => strip_lit(cs@.skip(pos as int), lit@) is None,
        },
{
    let lcs = str_to_chars(lit);
    let n = lcs.len();
    let m = cs.len();
    if n > m - pos {
        assert(lit@.len() > cs@.skip(pos as int).len());
        return None;
    }
    let mut j: usize = 0;
    while j < n
        invariant
            j <= n,
            n == lcs@.len(),
            lcs@ == lit@,
            m == cs@.len(),
            pos + n <= m,
            forall|k: int| 0 <= k < j ==> cs@[pos + k] == #[trigger] lit@[k],
        decreases n - j,
    {
        if cs[pos + j] != lcs[j] {
            assert(cs@.skip(pos as int).take(lit@.len() as int)[j as int] != lit@[j as int]);
            return None;
        }
        j += 1;
    }
    assert(cs@.skip(pos as int).take(lit@.len() as int) =~= lit@);
    assert(cs@.skip(pos as int).skip(lit@.len() as int) =~= cs@.skip(pos + n));
    Some(pos + n)
}

/// Reads a JSON string body starting at `pos` (just after the opening
/// quote), decoding escapes, up to and including the closing quote.
pub fn scan_at(cs: &Vec<char>, pos: usize) -> (r: Option<(Vec<char>, usize)>)
    requires
        pos <= cs@.len(),
    ensures
        match r {
            Some(p) => pos < p.1 <= cs@.len() && scan_string(cs@.skip(pos as int)) == Some(
                (p.0@, cs@.skip(p.1 as int)),
            ),
            None => scan_string(cs@.skip(pos as int)) is None,
        },
    decreases cs@.len() - pos,
{
    let ghost s = cs@.skip(pos as int);
    if pos == cs.len() {
        return None;
    }
    let c = cs[pos];
    proof {
        assert(s[0] == cs@[pos as int]);
    }
    if c == '"' {
        proof {
            assert(s.skip(1) =~= cs@.skip(pos + 1));
        }
        return Some((Vec::new(), pos + 1));
    }
    if c == '\\' {
        if pos + 1 == cs.len() {
            assert(s.len() < 2);
            return None;
        }
        let e = cs[pos + 1];
        proof {
            assert(s[1] == cs@[pos + 1]);
        }
        if e == 'u' {
            if cs.len() - pos < 6 {
                assert(s.len() < 6);
                return None;
            }
            let h2 = cs[pos + 2];
            let h3 = cs[pos + 3];
            let h4 = cs[pos + 4];
            let h5 = cs[pos + 5];
            proof {
                assert(s[2] == cs@[pos + 2]);
                assert(s[3] == cs@[pos + 3]);
                assert(s[4] == cs@[pos + 4]);
                assert(s[5] == cs@[pos + 5]);
            }
            if !(is_hex_exec(h2) && is_hex_exec(h3) && is_hex_exec(h4) && is_hex_exec(h5)) {
                return None;
            }
            let v: u32 = ((hex_val_exec(h2) * 16 + hex_val_exec(h3)) * 16 + hex_val_exec(h4)) * 16
                + hex_val_exec(h5);
            proof {
                assert(v == ((hex_val(s[2]) * 16 + hex_val(s[3])) * 16 + hex_val(s[4])) * 16
                    + hex_val(s[5]));
            }
            match char_from_u32(v) {
                Some(ch) => {
                    proof {
                        assert(s.skip(6) =~= cs@.skip(pos + 6));
                    }
                    match scan_at(cs, pos + 6) {
                        Some((mut t, p2)) => {
                            t.insert(0, ch);
                            proof {
                                vstd::utf8::char_u32_cast(ch, v);
                                assert(t@ =~= seq![ch] + t@.skip(1));
                            }
                            Some((t, p2))
                        },
                        None => None,
                    }
                },
                None => None,
            }
        } else {
            match unescape_char_exec(e) {
                Some(ch) => {
                    proof {
                        assert(s.skip(2) =~= cs@.skip(pos + 2));
                    }
                    match scan_at(cs, pos + 2) {
                        Some((mut t, p2)) => {
                            t.insert(0, ch);
                            proof {
                                assert(t@ =~= seq![ch] + t@.skip(1));
                            }
                            Some((t, p2))
                        },
                        None => None,
                    }
                },
                None => None,
            }
        }
    } else if (c as u32) < 0x20 {
        None
    } else {
        proof {
            assert(s.skip(1) =~= cs@.skip(pos + 1));
        }
        match scan_at(cs, pos + 1) {
            Some((mut t, p2)) => {
                t.insert(0, c);
                proof {
                    assert(t@ =~= seq![c] + t@.skip(1));
                }
                Some((t, p2))
            },
            None => None,
        }
    }
}

/// Scanning an escaped string followed by its closing quote recovers the
/// original content and leaves the remainder untouched: the escape and
/// the scanner are mutually inverse.
pub proof fn lemma_scan_escaped(x: Seq<char>, rest: Seq<char>)
    ensures
        scan_string(escape_str(x) + seq!['"'] + rest) == Some((x, rest)),
    decreases x.len(),
{
    let s = escape_str(x) + seq!['"'] + rest;
    if x.len() == 0 {
        assert(escape_str(x) =~= Seq::<char>::empty());
        assert(s =~= seq!['"'] + rest);
        assert(s[0] == '"');
        assert(s.skip(1) =~= rest);
    } else {
        let c = x[0];
        let tail = x.skip(1);
        lemma_scan_escaped(tail, rest);
        assert(escape_str(x) == escape_char(c) + escape_str(tail));
        let s_tail = escape_str(tail) + seq!['"'] + rest;
        if c == '"' || c == '\\' {
            assert(s[0] == '\\');
            assert(s[1] == c);
            assert(unescape_char(c) == Some(c));
            assert(s.skip(2) =~= s_tail);
            assert(seq![c] + tail =~= x);
        } else if c == '\u{8}' || c == '\t' || c == '\n' || c == '\u{c}' || c == '\r' {
            assert(s[0] == '\\');
            let e = if c == '\u{8}' {
                'b'
            } else if c == '\t' {
                't'
            } else if c == '\n' {
                'n'
            } else if c == '\u{c}' {
                'f'
            } else {
                'r'
            };
            assert(s[1] == e);
            assert(unescape_char(e) == Some(c));
            assert(s.skip(2) =~= s_tail);
            assert(seq![c] + tail =~= x);
        } else if (c as u32) < 0x20 {
            assert(s[0] == '\\');
            assert(s[1] == 'u');
            assert(s[2] == '0');
            assert(s[3] == '0');
            let cu = c as u32;
            let hi = (cu / 16) as int;
            let lo = (cu % 16) as int;
            assert(0 <= hi <= 15);
            assert(0 <= lo <= 15);
            assert(s[4] == hex_digit(hi));
            assert(s[5] == hex_digit(lo));
            lemma_hex_digit_val(hi);
            lemma_hex_digit_val(lo);
            assert(is_hex(s[2]) && is_hex(s[3]) && is_hex(s[4]) && is_hex(s[5]));
            assert(hex_val('0') == 0);
            let v = ((hex_val(s[2]) * 16 + hex_val(s[3])) * 16 + hex_val(s[4])) * 16 + hex_val(
                s[5],
            );
            assert(v == hi * 16 + lo);
            assert(v == cu as int);
            assert(v as u32 == cu);
            vstd::utf8::char_is_scalar(c);
            vstd::utf8::char_u32_cast(c, c as u32);
            assert((v as u32) as char == c);
            assert(s.skip(6) =~= s_tail);
            assert(seq![c] + tail =~= x);
        } else {
            assert(s[0] == c);
            assert(s.skip(1) =~= s_tail);
            assert(seq![c] + tail =~= x);
        }
    }
}

/// A hexadecimal digit character decodes to its value.
pub proof fn lemma_hex_digit_val(d: int)
    requires
        0 <= d <= 15,
    ensures
        is_hex(hex_digit(d)),
        hex_val(hex_digit(d)) == d,
{
}

} // verus!
