//! Verified text primitives shared by the platform mappers: delimiter
//! splitting, suffix and substring tests, quote stripping, decimal parsing
//! and decimal formatting.

use vstd::prelude::*;

verus! {

/// Tokens completed by scanning the first `i` characters of `s`, splitting at
/// every occurrence of `d`, paired with the still-open token.
pub open spec fn split_scan(s: Seq<char>, d: char, i: int) -> (Seq<Seq<char>>, Seq<char>)
    decreases i,
{
    if i <= 0 {
        (Seq::empty(), Seq::empty())
    } else {
        let (done, cur) = split_scan(s, d, i - 1);
        if s[i - 1] == d {
            (done.push(cur), Seq::empty())
        } else {
            (done, cur.push(s[i - 1]))
        }
    }
}

/// The tokens of `s` split at every occurrence of `d`. Empty tokens are kept,
/// so the result always holds one token more than `s` holds delimiters.
pub open spec fn spec_split(s: Seq<char>, d: char) -> Seq<Seq<char>> {
    let (done, cur) = split_scan(s, d, s.len() as int);
    done.push(cur)
}

/// Splits `s` at every occurrence of `d`, keeping empty tokens.
pub fn split_str(s: &str, d: char) -> (r: Vec<String>)
    ensures
        r.deep_view() == spec_split(s@, d),
        r.len() >= 1,
{
    let n: usize = s.unicode_len();
    let mut tokens: Vec<String> = Vec::new();
    let mut start: usize = 0;
    let mut i: usize = 0;
    while i < n
        invariant
            n == s@.len(),
            0 <= start <= i <= n,
            (tokens.deep_view(), s@.subrange(start as int, i as int)) == split_scan(
                s@,
                d,
                i as int,
            ),
        decreases n - i,
    {
        let c = s.get_char(i);
        if c == d {
            let token = s.substring_char(start, i);
            tokens.push(String::from_str(token));
            start = i + 1;
            proof {
                assert(s@.subrange(start as int, i as int + 1) =~= Seq::<char>::empty());
                assert(tokens.deep_view() =~= split_scan(s@, d, i as int + 1).0);
            }
        } else {
            proof {
                assert(s@.subrange(start as int, i as int + 1) =~= s@.subrange(
                    start as int,
                    i as int,
                ).push(s@[i as int]));
            }
        }
        i = i + 1;
    }
    let last = s.substring_char(start, n);
    tokens.push(String::from_str(last));
    proof {
        assert(tokens.deep_view() =~= spec_split(s@, d));
    }
    tokens
}

/// A token without a trailing carriage return.
pub open spec fn strip_cr(p: Seq<char>) -> Seq<char> {
    if p.len() > 0 && p[p.len() - 1] == '\r' {
        p.drop_last()
    } else {
        p
    }
}

/// The lines of `s`: tokens split at `'\n'`, each terminated token freed of a
/// trailing `'\r'`, and a final line terminator yielding no extra empty line.
pub open spec fn spec_lines(s: Seq<char>) -> Seq<Seq<char>> {
    let parts = spec_split(s, '\n');
    if parts.last().len() == 0 {
        Seq::new((parts.len() - 1) as nat, |i: int| strip_cr(parts[i]))
    } else {
        Seq::new(
            parts.len(),
            |i: int|
                if i < parts.len() - 1 {
                    strip_cr(parts[i])
                } else {
                    parts[i]
                },
        )
    }
}

/// Splits `s` into lines the way the standard library does: at `'\n'` or
/// `"\r\n"`, with the final line terminator optional.
pub fn split_lines(s: &str) -> (r: Vec<String>)
    ensures
        r.deep_view() == spec_lines(s@),
{
    let parts = split_str(s, '\n');
    let n = parts.len();
    let last_empty = parts[n - 1].as_str().is_empty();
    let kept: usize = if last_empty {
        n - 1
    } else {
        n
    };
    let mut out: Vec<String> = Vec::new();
    let mut i: usize = 0;
    while i < kept
        invariant
            parts.deep_view() == spec_split(s@, '\n'),
            n == parts.len(),
            n >= 1,
            last_empty == (parts.deep_view().last().len() == 0),
            kept == if last_empty {
                (n - 1) as int
            } else {
                n as int
            },
            0 <= i <= kept,
            spec_lines(s@).len() == kept,
            out@.len() == i,
            forall|k: int| 0 <= k < i ==> #[trigger] out@[k]@ == spec_lines(s@)[k],
        decreases kept - i,
    {
        let p = &parts[i];
        proof {
            assert(parts.deep_view()[i as int] == parts@[i as int]@);
        }
        let elem: String = if last_empty || i + 1 < kept {
            let m = p.as_str().unicode_len();
            let stripped: String = if m > 0 && p.as_str().get_char(m - 1) == '\r' {
                let e = String::from_str(p.as_str().substring_char(0, m - 1));
                proof {
                    assert(e@ =~= strip_cr(p@));
                }
                e
            } else {
                let e = p.clone();
                proof {
                    assert(e@ =~= strip_cr(p@));
                }
                e
            };
            proof {
                assert(spec_lines(s@)[i as int] == strip_cr(parts.deep_view()[i as int]));
            }
            stripped
        } else {
            let e = p.clone();
            proof {
                assert(spec_lines(s@)[i as int] == parts.deep_view()[i as int]);
            }
            e
        };
        proof {
            assert(elem@ == spec_lines(s@)[i as int]);
        }
        out.push(elem);
        i = i + 1;
    }
    proof {
        assert forall|k: int| 0 <= k < out@.len() implies out.deep_view()[k] == spec_lines(s@)[k]
            by {
            assert(out.deep_view()[k] == out@[k]@);
        }
        assert(out.deep_view() =~= spec_lines(s@));
    }
    out
}

/// Character-for-character string equality.
pub fn str_equal(a: &str, b: &str) -> (r: bool)
    ensures
        r == (a@ == b@),
{
    let na: usize = a.unicode_len();
    let nb: usize = b.unicode_len();
    if na != nb {
        proof {
            assert(a@ != b@);
        }
        return false;
    }
    let mut i: usize = 0;
    while i < na
        invariant
            na == a@.len(),
            na == b@.len(),
            0 <= i <= na,
            forall|j: int| 0 <= j < i ==> a@[j] == b@[j],
        decreases na - i,
    {
        if a.get_char(i) != b.get_char(i) {
            return false;
        }
        i = i + 1;
    }
    proof {
        assert(a@ =~= b@);
    }
    true
}

/// Whether `s` ends with `suffix`.
pub open spec fn spec_ends_with(s: Seq<char>, suffix: Seq<char>) -> bool {
    suffix.len() <= s.len() && s.subrange(s.len() - suffix.len(), s.len() as int) == suffix
}

/// Whether `s` ends with `suffix`, by characters.
pub fn str_ends_with(s: &str, suffix: &str) -> (r: bool)
    ensures
        r == spec_ends_with(s@, suffix@),
{
    let n: usize = s.unicode_len();
    let m: usize = suffix.unicode_len();
    if m > n {
        return false;
    }
    let tail = s.substring_char(n - m, n);
    str_equal(tail, suffix)
}

/// Whether `needle` occurs somewhere in `s` as a contiguous run.
pub open spec fn spec_contains(s: Seq<char>, needle: Seq<char>) -> bool {
    exists|i: int|
        0 <= i && i + needle.len() <= s.len() && #[trigger] s.subrange(i, i + needle.len())
            == needle
}

/// Whether `needle` occurs somewhere in `s`, by characters.
pub fn str_contains(s: &str, needle: &str) -> (r: bool)
    ensures
        r == spec_contains(s@, needle@),
{
    let n: usize = s.unicode_len();
    let m: usize = needle.unicode_len();
    if m > n {
        return false;
    }
    if m == 0 {
        proof {
            assert(s@.subrange(0, 0 + needle@.len() as int) =~= needle@);
        }
        return true;
    }
    let mut i: usize = 0;
    while i <= n - m
        invariant
            n == s@.len(),
            m == needle@.len(),
            0 < m <= n,
            0 <= i <= n - m + 1,
            forall|k: int| 0 <= k < i ==> #[trigger] s@.subrange(k, k + needle@.len()) != needle@,
        decreases n - m + 1 - i,
    {
        let window = s.substring_char(i, i + m);
        if str_equal(window, needle) {
            return true;
        }
        i = i + 1;
    }
    false
}

/// `s` with every occurrence of `c` removed, scanning the first `i`
/// characters.
pub open spec fn remove_char_scan(s: Seq<char>, c: char, i: int) -> Seq<char>
    decreases i,
{
    if i <= 0 {
        Seq::empty()
    } else if s[i - 1] == c {
        remove_char_scan(s, c, i - 1)
    } else {
        remove_char_scan(s, c, i - 1).push(s[i - 1])
    }
}

/// `s` with every occurrence of `c` removed.
pub open spec fn spec_remove_char(s: Seq<char>, c: char) -> Seq<char> {
    remove_char_scan(s, c, s.len() as int)
}

/// Copies `s`, dropping every occurrence of `c`.
pub fn remove_char(s: &str, c: char) -> (r: String)
    ensures
        r@ == spec_remove_char(s@, c),
{
    let n: usize = s.unicode_len();
    let mut out = String::new();
    let mut i: usize = 0;
    while i < n
        invariant
            n == s@.len(),
            0 <= i <= n,
            out@ == remove_char_scan(s@, c, i as int),
        decreases n - i,
    {
        let ch = s.get_char(i);
        if ch != c {
            let piece = s.substring_char(i, i + 1);
            out.append(piece);
            proof {
                assert(s@.subrange(i as int, i as int + 1) =~= seq![s@[i as int]]);
                assert(out@ =~= remove_char_scan(s@, c, i as int + 1));
            }
        }
        i = i + 1;
    }
    out
}

/// The numeric value of a decimal digit, or 10 for any other character.
pub open spec fn digit_value(c: char) -> nat {
    if c == '0' {
        0
    } else if c == '1' {
        1
    } else if c == '2' {
        2
    } else if c == '3' {
        3
    } else if c == '4' {
        4
    } else if c == '5' {
        5
    } else if c == '6' {
        6
    } else if c == '7' {
        7
    } else if c == '8' {
        8
    } else if c == '9' {
        9
    } else {
        10
    }
}

pub open spec fn is_decimal_digit(c: char) -> bool {
    digit_value(c) < 10
}

/// The value of the first `i` characters of `s` read as a decimal number.
pub open spec fn decimal_scan(s: Seq<char>, i: int) -> nat
    decreases i,
{
    if i <= 0 {
        0
    } else {
        decimal_scan(s, i - 1) * 10 + digit_value(s[i - 1])
    }
}

/// The value of `s` read as a decimal number.
pub open spec fn spec_decimal_value(s: Seq<char>) -> nat {
    decimal_scan(s, s.len() as int)
}

pub open spec fn all_decimal_digits(s: Seq<char>) -> bool {
    s.len() > 0 && forall|i: int| 0 <= i < s.len() ==> is_decimal_digit(#[trigger] s[i])
}

/// The digits of `s` after an optional leading plus sign.
pub open spec fn spec_unsigned_body(s: Seq<char>) -> Seq<char> {
    if s.len() > 0 && s[0] == '+' {
        s.drop_first()
    } else {
        s
    }
}

/// `s` read the way the standard decimal parse for `u16` reads it: an
/// optional leading `+`, then one or more decimal digits, whose value fits
/// in 16 bits. Anything else is `None`.
pub open spec fn spec_parse_u16(s: Seq<char>) -> Option<u16> {
    let body = spec_unsigned_body(s);
    if all_decimal_digits(body) && spec_decimal_value(body) <= 0xffff {
        Some(spec_decimal_value(body) as u16)
    } else {
        None
    }
}

/// A longer run of digits never has a smaller value.
proof fn lemma_decimal_scan_monotone(s: Seq<char>, i: int, j: int)
    requires
        0 <= i <= j,
    ensures
        decimal_scan(s, i) <= decimal_scan(s, j),
    decreases j - i,
{
    if i < j {
        lemma_decimal_scan_monotone(s, i, j - 1);
        assert(decimal_scan(s, j - 1) <= decimal_scan(s, j - 1) * 10);
    }
}

/// Parses `s` as a decimal unsigned 16-bit number, as the standard library
/// parse would.
pub fn parse_u16(s: &str) -> (r: Option<u16>)
    ensures
        r == spec_parse_u16(s@),
{
    let n: usize = s.unicode_len();
    let first_digit: usize = if n > 0 && s.get_char(0) == '+' {
        1
    } else {
        0
    };
    let ghost body = spec_unsigned_body(s@);
    proof {
        assert(body =~= s@.subrange(first_digit as int, n as int));
    }
    if first_digit >= n {
        return None;
    }
    let mut value: u32 = 0;
    let mut i: usize = first_digit;
    while i < n
        invariant
            n == s@.len(),
            first_digit <= i <= n,
            first_digit < n,
            body == spec_unsigned_body(s@),
            body == s@.subrange(first_digit as int, n as int),
            value <= 0xffff,
            value == decimal_scan(body, i - first_digit),
            forall|k: int|
                0 <= k < i - first_digit ==> is_decimal_digit(#[trigger] body[k]),
        decreases n - i,
    {
        let c = s.get_char(i);
        let d: u32 = if c == '0' {
            0
        } else if c == '1' {
            1
        } else if c == '2' {
            2
        } else if c == '3' {
            3
        } else if c == '4' {
            4
        } else if c == '5' {
            5
        } else if c == '6' {
            6
        } else if c == '7' {
            7
        } else if c == '8' {
            8
        } else if c == '9' {
            9
        } else {
            10
        };
        proof {
            assert(body[i - first_digit] == s@[i as int]);
            assert(d == digit_value(s@[i as int]));
        }
        if d >= 10 {
            proof {
                assert(!is_decimal_digit(body[i - first_digit]));
                assert(!all_decimal_digits(body));
            }
            return None;
        }
        let next: u32 = value * 10 + d;
        if next > 0xffff {
            proof {
                let j = i - first_digit;
                assert(decimal_scan(body, j + 1) == decimal_scan(body, j) * 10 + digit_value(
                    body[j],
                ));
                assert(decimal_scan(body, j + 1) == next);
                if all_decimal_digits(body) {
                    lemma_decimal_scan_monotone(body, j + 1, body.len() as int);
                    assert(spec_decimal_value(body) > 0xffff);
                }
            }
            return None;
        }
        value = next;
        i = i + 1;
    }
    proof {
        assert(decimal_scan(body, body.len() as int) == value);
    }
    Some(value as u16)
}

/// The decimal digits of `n`, most significant first.
pub open spec fn spec_decimal_digits(n: nat) -> Seq<char>
    decreases n,
{
    if n < 10 {
        seq![decimal_digit_char(n)]
    } else {
        spec_decimal_digits(n / 10).push(decimal_digit_char(n % 10))
    }
}

/// The character for one decimal digit value.
pub open spec fn decimal_digit_char(d: nat) -> char {
    if d == 0 {
        '0'
    } else if d == 1 {
        '1'
    } else if d == 2 {
        '2'
    } else if d == 3 {
        '3'
    } else if d == 4 {
        '4'
    } else if d == 5 {
        '5'
    } else if d == 6 {
        '6'
    } else if d == 7 {
        '7'
    } else if d == 8 {
        '8'
    } else {
        '9'
    }
}

/// One decimal digit as a string slice.
fn decimal_digit_str(d: u32) -> (r: &'static str)
    requires
        d < 10,
    ensures
        r@ == seq![decimal_digit_char(d as nat)],
{
    proof {
        reveal_strlit("0");
        reveal_strlit("1");
        reveal_strlit("2");
        reveal_strlit("3");
        reveal_strlit("4");
        reveal_strlit("5");
        reveal_strlit("6");
        reveal_strlit("7");
        reveal_strlit("8");
        reveal_strlit("9");
    }
    let r = if d == 0 {
        "0"
    } else if d == 1 {
        "1"
    } else if d == 2 {
        "2"
    } else if d == 3 {
        "3"
    } else if d == 4 {
        "4"
    } else if d == 5 {
        "5"
    } else if d == 6 {
        "6"
    } else if d == 7 {
        "7"
    } else if d == 8 {
        "8"
    } else {
        "9"
    };
    proof {
        assert(r@ =~= seq![decimal_digit_char(d as nat)]);
    }
    r
}

/// Writes `n` in decimal.
pub fn u32_to_decimal(n: u32) -> (r: String)
    ensures
        r@ == spec_decimal_digits(n as nat),
    decreases n,
{
    if n < 10 {
        String::from_str(decimal_digit_str(n))
    } else {
        let mut prefix = u32_to_decimal(n / 10);
        prefix.append(decimal_digit_str(n % 10));
        proof {
            assert(prefix@ =~= spec_decimal_digits(n as nat));
        }
        prefix
    }
}

} // verus!
