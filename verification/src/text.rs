//! Character-level text helpers shared by the library: ASCII
//! case-insensitive comparison, decimal rendering and strict decimal
//! parsing of counters, and conversions between `str` and `Vec<char>`.

use vstd::prelude::*;

verus! {

/// True when `a` equals `b` up to ASCII case, for the single characters
/// `a` and `b`; `b` is expected to be lowercase.
pub open spec fn char_ieq(a: char, b: char) -> bool {
    a == b || ('A' <= a && a <= 'Z' && a as int + 32 == b as int)
}

/// True when `s` equals the lowercase keyword `k` up to ASCII case.
pub open spec fn ascii_ieq(s: Seq<char>, k: Seq<char>) -> bool {
    s.len() == k.len() && forall|i: int| 0 <= i < s.len() ==> char_ieq(s[i], #[trigger] k[i])
}

/// Relies on `str::chars` and `Iterator::collect`: collecting a string's
/// characters yields exactly the characters of the string, in order.
#[verifier::external_body]
pub fn str_to_chars(s: &str) -> (r: Vec<char>)
    ensures
        r@ == s@,
{
    s.chars().collect()
}

/// Relies on `String`'s `FromIterator<char>` impl via `Iterator::collect`:
/// collecting characters into a `String` yields the string of exactly those
/// characters, in order.
#[verifier::external_body]
pub fn chars_to_string(v: &Vec<char>) -> (r: String)
    ensures
        r@ == v@,
{
    v.iter().collect()
}

/// Appends every character of `s` to `out`.
pub fn push_str_chars(out: &mut Vec<char>, s: &str)
    ensures
        final(out)@ == old(out)@ + s@,
{
    let cs = str_to_chars(s);
    let n = cs.len();
    let mut i: usize = 0;
    while i < n
        invariant
            i <= n,
            n == cs@.len(),
            cs@ == s@,
            out@ == old(out)@ + s@.take(i as int),
        decreases n - i,
    {
        out.push(cs[i]);
        assert(out@ == old(out)@ + s@.take(i + 1 as int));
        i += 1;
    }
    assert(s@.take(n as int) == s@);
}

/// Whether two strings hold the same characters.
pub fn str_eq(a: &str, b: &str) -> (r: bool)
    ensures
        r == (a@ == b@),
{
    let ac = str_to_chars(a);
    let bc = str_to_chars(b);
    let n = ac.len();
    if n != bc.len() {
        assert(a@.len() != b@.len());
        return false;
    }
    let mut i: usize = 0;
    while i < n
        invariant
            i <= n,
            n == ac@.len(),
            n == bc@.len(),
            ac@ == a@,
            bc@ == b@,
            forall|j: int| 0 <= j < i ==> a@[j] == #[trigger] b@[j],
        decreases n - i,
    {
        if ac[i] != bc[i] {
            return false;
        }
        i += 1;
    }
    assert(a@ =~= b@);
    true
}

/// What `char::is_whitespace` returns for a character.
pub uninterp spec fn is_whitespace_char(c: char) -> bool;

/// Relies on `char::is_whitespace`: whether the character has the Unicode
/// whitespace property, a function of the character alone.
#[verifier::external_body]
pub fn char_is_whitespace(c: char) -> (r: bool)
    ensures
        r == is_whitespace_char(c),
{
    c.is_whitespace()
}

/// True when every character of `s` is whitespace; in particular, true of
/// the empty string. This is exactly "empty after trimming".
pub open spec fn is_blank(s: Seq<char>) -> bool {
    forall|i: int| 0 <= i < s.len() ==> is_whitespace_char(#[trigger] s[i])
}

/// Whether `s` is empty or consists of whitespace alone.
pub fn str_is_blank(s: &str) -> (r: bool)
    ensures
        r == is_blank(s@),
{
    let cs = str_to_chars(s);
    let n = cs.len();
    let mut i: usize = 0;
    while i < n
        invariant
            i <= n,
            n == cs@.len(),
            cs@ == s@,
            forall|j: int| 0 <= j < i ==> is_whitespace_char(#[trigger] s@[j]),
        decreases n - i,
    {
        if !char_is_whitespace(cs[i]) {
            return false;
        }
        i += 1;
    }
    true
}

/// The decimal digit character for `d`, defined for `0 <= d <= 9`.
pub open spec fn digit_char(d: int) -> char {
    if d == 0 {
        '0'
    } else if d == 1 {
        '1'
    } else if d == 2 {
        '2'
    } else if d == 3 {
        '3'
    } else if d == 4 {
        '4'
    } else if d == 5 {
        '5'
    } else if d == 6 {
        '6'
    } else if d == 7 {
        '7'
    } else if d == 8 {
        '8'
    } else {
        '9'
    }
}

/// The decimal rendering of a non-negative integer, without leading zeros.
pub open spec fn dec_str(n: int) -> Seq<char>
    decreases n,
{
    if n <= 9 {
        seq![digit_char(n)]
    } else {
        dec_str(n / 10) + seq![digit_char(n % 10)]
    }
}

/// The decimal rendering of an integer, with a leading minus sign when
/// negative.
pub open spec fn int_dec(n: int) -> Seq<char> {
    if n < 0 {
        seq!['-'] + dec_str(-n)
    } else {
        dec_str(n)
    }
}

/// Renders a signed 32-bit value as decimal characters.
pub fn i32_to_dec_chars(n: i32) -> (r: Vec<char>)
    ensures
        r@ == int_dec(n as int),
{
    let wide: i64 = n as i64;
    if wide < 0 {
        let mut r: Vec<char> = Vec::new();
        r.push('-');
        let mut digits = u64_to_dec_chars((-wide) as u64);
        r.append(&mut digits);
        assert(r@ =~= seq!['-'] + dec_str(-(n as int)));
        r
    } else {
        u64_to_dec_chars(wide as u64)
    }
}

/// True for the characters `'0'` through `'9'`.
pub open spec fn is_digit(c: char) -> bool {
    '0' <= c && c <= '9'
}

/// The numeric value of a digit character.
pub open spec fn digit_val(c: char) -> int {
    c as int - '0' as int
}

/// True when every character of `s` is a decimal digit.
pub open spec fn all_digits(s: Seq<char>) -> bool {
    forall|i: int| 0 <= i < s.len() ==> is_digit(#[trigger] s[i])
}

/// The numeric value of a digit string.
pub open spec fn dec_val(s: Seq<char>) -> int
    decreases s.len(),
{
    if s.len() == 0 {
        0
    } else {
        dec_val(s.drop_last()) * 10 + digit_val(s.last())
    }
}

/// True for the canonical decimal rendering of a non-negative integer:
/// non-empty, digits only, and no leading zero.
pub open spec fn is_canonical_dec(s: Seq<char>) -> bool {
    &&& s.len() > 0
    &&& all_digits(s)
    &&& (s[0] == '0' ==> s.len() == 1)
}

pub proof fn lemma_dec_val_nonneg(s: Seq<char>)
    requires
        all_digits(s),
    ensures
        dec_val(s) >= 0,
    decreases s.len(),
{
    if s.len() > 0 {
        assert(all_digits(s.drop_last())) by {
            assert(forall|i: int| 0 <= i < s.len() - 1 ==> is_digit(#[trigger] s.drop_last()[i]));
        }
        lemma_dec_val_nonneg(s.drop_last());
    }
}

/// The canonical rendering round-trips through `dec_val`, is made of
/// digits, and has no leading zero.
pub proof fn lemma_dec_str_val(n: int)
    requires
        n >= 0,
    ensures
        dec_val(dec_str(n)) == n,
        is_canonical_dec(dec_str(n)),
        n > 0 ==> dec_str(n)[0] != '0',
    decreases n,
{
    if n <= 9 {
        assert(dec_str(n) == seq![digit_char(n)]);
        assert(dec_val(dec_str(n)) == dec_val(seq![digit_char(n)].drop_last()) * 10 + digit_val(
            digit_char(n),
        ));
        assert(seq![digit_char(n)].drop_last() =~= Seq::<char>::empty());
    } else {
        lemma_dec_str_val(n / 10);
        let s = dec_str(n);
        assert(s == dec_str(n / 10) + seq![digit_char(n % 10)]);
        assert(s.drop_last() =~= dec_str(n / 10));
        assert(s.last() == digit_char(n % 10));
        assert(dec_val(s) == dec_val(dec_str(n / 10)) * 10 + digit_val(digit_char(n % 10)));
        assert(dec_val(s) == (n / 10) * 10 + n % 10);
        assert(s[0] == dec_str(n / 10)[0]);
        assert(all_digits(s)) by {
            assert(forall|i: int|
                0 <= i < s.len() - 1 ==> #[trigger] s[i] == dec_str(n / 10)[i]);
        }
    }
}

/// Distinct non-negative integers render to distinct decimal strings.
pub proof fn lemma_dec_str_injective(a: int, b: int)
    requires
        a >= 0,
        b >= 0,
        dec_str(a) == dec_str(b),
    ensures
        a == b,
{
    lemma_dec_str_val(a);
    lemma_dec_str_val(b);
}

/// A digit character is recovered from its value.
pub proof fn lemma_digit_char_val(c: char)
    requires
        is_digit(c),
    ensures
        0 <= digit_val(c) <= 9,
        digit_char(digit_val(c)) == c,
{
}

/// A canonical decimal string is recovered from its value: `dec_str` and
/// `dec_val` are mutually inverse on canonical strings.
pub proof fn lemma_canonical_dec_str(s: Seq<char>)
    requires
        is_canonical_dec(s),
    ensures
        dec_val(s) >= 0,
        dec_str(dec_val(s)) == s,
    decreases s.len(),
{
    lemma_dec_val_nonneg(s);
    if s.len() == 1 {
        lemma_digit_char_val(s[0]);
        assert(dec_val(s.drop_last()) == 0) by {
            assert(s.drop_last() =~= Seq::<char>::empty());
        }
        assert(dec_val(s) == digit_val(s[0]));
        assert(dec_str(dec_val(s)) =~= s);
    } else {
        let front = s.drop_last();
        assert(all_digits(front)) by {
            assert(forall|i: int| 0 <= i < front.len() ==> is_digit(#[trigger] front[i]));
        }
        assert(front[0] == s[0]);
        assert(is_canonical_dec(front));
        lemma_canonical_dec_str(front);
        let v = dec_val(front);
        let d = digit_val(s.last());
        assert(dec_val(s) == v * 10 + d);
        assert(v >= 1) by {
            lemma_dec_val_take_monotone(front, 1, front.len() as int);
            assert(front.take(front.len() as int) == front);
            assert(dec_val(front.take(1)) == digit_val(front[0])) by {
                let t = front.take(1);
                assert(t.len() == 1);
                assert(t.last() == front[0]);
                assert(t.drop_last() =~= Seq::<char>::empty());
                assert(dec_val(Seq::<char>::empty()) == 0);
                assert(dec_val(t) == dec_val(t.drop_last()) * 10 + digit_val(t.last()));
            }
            assert(digit_val(front[0]) >= 1);
        }
        assert(v * 10 + d >= 10) by (nonlinear_arith)
            requires
                v >= 1,
                d >= 0,
        ;
        assert((v * 10 + d) / 10 == v && (v * 10 + d) % 10 == d) by (nonlinear_arith)
            requires
                v >= 0,
                0 <= d <= 9,
        ;
        assert(dec_str(dec_val(s)) == dec_str(v) + seq![digit_char(d)]);
        lemma_digit_char_val(s.last());
        assert(dec_str(dec_val(s)) =~= front.push(s.last()));
        assert(front.push(s.last()) =~= s);
    }
}

proof fn lemma_dec_val_take_step(s: Seq<char>, i: int)
    requires
        0 <= i < s.len(),
    ensures
        dec_val(s.take(i + 1)) == dec_val(s.take(i)) * 10 + digit_val(s[i]),
{
    assert(s.take(i + 1).drop_last() =~= s.take(i));
    assert(s.take(i + 1).last() == s[i]);
}

/// Renders `n` as its canonical decimal digit characters.
pub fn u64_to_dec_chars(n: u64) -> (r: Vec<char>)
    ensures
        r@ == dec_str(n as int),
    decreases n,
{
    let d = digit_to_char((n % 10) as u8);
    if n <= 9 {
        let mut r: Vec<char> = Vec::new();
        r.push(d);
        assert(r@ =~= seq![digit_char(n as int)]);
        r
    } else {
        let mut r = u64_to_dec_chars(n / 10);
        r.push(d);
        assert(r@ =~= dec_str(n as int / 10) + seq![digit_char(n as int % 10)]);
        r
    }
}

/// Renders `n` as its canonical decimal string.
pub fn u64_to_dec_string(n: u64) -> (r: String)
    ensures
        r@ == dec_str(n as int),
{
    let chars = u64_to_dec_chars(n);
    chars_to_string(&chars)
}

/// The digit character for a digit value below ten.
pub fn digit_to_char(d: u8) -> (r: char)
    requires
        d <= 9,
    ensures
        r == digit_char(d as int),
{
    match d {
        0 => '0',
        1 => '1',
        2 => '2',
        3 => '3',
        4 => '4',
        5 => '5',
        6 => '6',
        7 => '7',
        8 => '8',
        _ => '9',
    }
}

/// Parses a canonical decimal string: non-empty, digits only, no leading
/// zero, value within `u64`. Returns `None` for anything else.
pub fn parse_dec_u64(s: &str) -> (r: Option<u64>)
    ensures
        match r {
            Some(k) => is_canonical_dec(s@) && dec_val(s@) == k,
            None => !is_canonical_dec(s@) || dec_val(s@) > u64::MAX,
        },
{
    let cs = str_to_chars(s);
    let n = cs.len();
    if n == 0 {
        return None;
    }
    if cs[0] == '0' && n > 1 {
        return None;
    }
    let mut acc: u64 = 0;
    let mut i: usize = 0;
    while i < n
        invariant
            i <= n,
            n == cs@.len(),
            cs@ == s@,
            n > 0,
            cs@[0] == '0' ==> n == 1,
            all_digits(s@.take(i as int)),
            acc == dec_val(s@.take(i as int)),
        decreases n - i,
    {
        let c = cs[i];
        if !('0' <= c && c <= '9') {
            assert(!is_digit(s@[i as int]));
            return None;
        }
        let d: u64 = (c as u64) - ('0' as u64);
        assert(d == digit_val(s@[i as int]));
        let shifted = match acc.checked_mul(10) {
            Some(v) => v,
            None => {
                proof {
                    lemma_dec_val_overflow(s@, i as int, acc as int, d as int);
                }
                return None;
            },
        };
        let next = match shifted.checked_add(d) {
            Some(v) => v,
            None => {
                proof {
                    lemma_dec_val_overflow(s@, i as int, acc as int, d as int);
                }
                return None;
            },
        };
        proof {
            lemma_dec_val_take_step(s@, i as int);
            assert(all_digits(s@.take(i + 1 as int))) by {
                assert(forall|j: int|
                    0 <= j < i + 1 ==> is_digit(#[trigger] s@.take(i + 1 as int)[j]));
            }
        }
        acc = next;
        i += 1;
    }
    assert(s@.take(n as int) == s@);
    Some(acc)
}

/// When the accumulated prefix value would exceed `u64::MAX` at position
/// `i`, the value of the whole digit string exceeds it too.
proof fn lemma_dec_val_overflow(s: Seq<char>, i: int, acc: int, d: int)
    requires
        0 <= i < s.len(),
        all_digits(s.take(i)),
        is_digit(s[i]),
        acc == dec_val(s.take(i)),
        d == digit_val(s[i]),
        acc * 10 + d > u64::MAX,
    ensures
        !all_digits(s) || dec_val(s) > u64::MAX,
{
    if all_digits(s) {
        lemma_dec_val_take_step(s, i);
        assert(dec_val(s.take(i + 1)) > u64::MAX);
        lemma_dec_val_take_monotone(s, i + 1, s.len() as int);
        assert(s.take(s.len() as int) == s);
    }
}

/// For digit strings, the value of a longer prefix is at least the value
/// of a shorter one.
proof fn lemma_dec_val_take_monotone(s: Seq<char>, i: int, j: int)
    requires
        0 <= i <= j <= s.len(),
        all_digits(s),
    ensures
        dec_val(s.take(j)) >= dec_val(s.take(i)),
    decreases j - i,
{
    if i < j {
        lemma_dec_val_take_monotone(s, i, j - 1);
        lemma_dec_val_take_step(s, j - 1);
        assert(all_digits(s.take(j - 1))) by {
            assert(forall|k: int| 0 <= k < j - 1 ==> is_digit(#[trigger] s.take(j - 1)[k]));
        }
        lemma_dec_val_nonneg(s.take(j - 1));
        assert(dec_val(s.take(j)) == dec_val(s.take(j - 1)) * 10 + digit_val(s[j - 1]));
        assert(dec_val(s.take(j - 1)) * 10 >= dec_val(s.take(j - 1))) by (nonlinear_arith)
            requires dec_val(s.take(j - 1)) >= 0;
    }
}

/// Compares `s` to the lowercase keyword `k` up to ASCII case.
pub fn eq_ignore_ascii_case(s: &str, k: &str) -> (r: bool)
    ensures
        r == ascii_ieq(s@, k@),
{
    let s_len = s.unicode_len();
    let k_len = k.unicode_len();
    if s_len != k_len {
        return false;
    }
    let mut i: usize = 0;
    while i < s_len
        invariant
            i <= s_len,
            s_len == s@.len(),
            k_len == k@.len(),
            s_len == k_len,
            forall|j: int| 0 <= j < i ==> char_ieq(s@[j], #[trigger] k@[j]),
        decreases s_len - i,
    {
        let a = s.get_char(i);
        let b = k.get_char(i);
        let matches_here = if a == b {
            true
        } else if 'A' <= a && a <= 'Z' {
            (a as u32) + 32 == (b as u32)
        } else {
            false
        };
        if !matches_here {
            assert(!char_ieq(s@[i as int], k@[i as int]));
            return false;
        }
        i += 1;
    }
    true
}

} // verus!
