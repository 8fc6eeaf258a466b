//! Verified text building: character collection, decimal rendering,
//! zero padding, JSON string escaping and error-list joining.
//!
//! Every request body and aggregated error message the library produces is
//! assembled here, each with an exact character-sequence specification.

use vstd::prelude::*;

verus! {

/// Relies on `String`'s `FromIterator<char>` impl: collecting characters
/// yields the string of exactly those characters in order.
#[verifier::external_body]
pub(crate) fn string_from_chars(chars: Vec<char>) -> (r: String)
    ensures
        r@ == chars@,
{
    chars.into_iter().collect()
}

pub open spec fn spec_digit_char(d: int) -> char {
    (('0' as u8) + d) as char
}

/// Decimal digit sequence of `n`, most significant first, no sign and no
/// leading zeros (the single digit `0` for zero).
pub open spec fn spec_dec(n: nat) -> Seq<char>
    decreases n,
{
    if n < 10 {
        seq![spec_digit_char(n as int)]
    } else {
        spec_dec(n / 10) + seq![spec_digit_char((n % 10) as int)]
    }
}

/// Decimal digits of `n`, least significant first.
pub open spec fn spec_dec_rev(n: nat) -> Seq<char>
    decreases n,
{
    if n < 10 {
        seq![spec_digit_char(n as int)]
    } else {
        seq![spec_digit_char((n % 10) as int)] + spec_dec_rev(n / 10)
    }
}

proof fn lemma_dec_is_reversed(n: nat)
    ensures
        spec_dec(n) =~= spec_dec_rev(n).reverse(),
    decreases n,
{
    if n >= 10 {
        lemma_dec_is_reversed(n / 10);
        assert((seq![spec_digit_char((n % 10) as int)] + spec_dec_rev(n / 10)).reverse()
            =~= spec_dec_rev(n / 10).reverse() + seq![spec_digit_char((n % 10) as int)]);
    }
}

/// Render `n` in decimal.
pub fn u64_to_dec(n: u64) -> (r: String)
    ensures
        r@ == spec_dec(n as nat),
{
    let mut rev: Vec<char> = Vec::new();
    let mut m: u64 = n;
    loop
        invariant_except_break
            spec_dec_rev(n as nat) =~= rev@ + spec_dec_rev(m as nat),
        ensures
            spec_dec_rev(n as nat) =~= rev@,
        decreases m,
    {
        let d = (m % 10) as u8;
        let c = (('0' as u8) + d) as char;
        let ghost before = rev@;
        rev.push(c);
        proof {
            assert(c == spec_digit_char((m % 10) as int));
        }
        if m < 10 {
            proof {
                assert(spec_dec_rev(m as nat) == seq![c]);
                assert(spec_dec_rev(n as nat) =~= rev@);
            }
            break;
        }
        proof {
            assert(spec_dec_rev(m as nat) =~= seq![c] + spec_dec_rev((m / 10) as nat));
            assert(before + spec_dec_rev(m as nat) =~= rev@ + spec_dec_rev((m / 10) as nat));
        }
        m = m / 10;
    }
    let mut out: Vec<char> = Vec::new();
    let mut i: usize = rev.len();
    while i > 0
        invariant
            i <= rev@.len(),
            out@.len() == rev@.len() - i,
            forall|j: int| 0 <= j < out@.len() ==> out@[j] == rev@[rev@.len() - 1 - j],
        decreases i,
    {
        i = i - 1;
        let c = rev[i];
        out.push(c);
    }
    proof {
        assert(out@ =~= rev@.reverse());
        lemma_dec_is_reversed(n as nat);
    }
    string_from_chars(out)
}

/// Decimal rendering of `n` padded with a leading zero to two digits,
/// as device timestamps require for month, day and time fields.
pub open spec fn spec_dec2(n: nat) -> Seq<char> {
    if n < 10 {
        seq!['0'] + spec_dec(n)
    } else {
        spec_dec(n)
    }
}

/// Render `n < 100` as exactly two digits.
pub fn u64_to_dec2(n: u64) -> (r: String)
    requires
        n < 100,
    ensures
        r@ == spec_dec2(n as nat),
{
    let digits = u64_to_dec(n);
    if n < 10 {
        let mut out = String::new();
        out.append("0");
        out.append(digits.as_str());
        proof {
            reveal_strlit("0");
            assert(out@ =~= spec_dec2(n as nat));
        }
        out
    } else {
        digits
    }
}

/// Decimal rendering of a signed value: a `-` sign followed by the digits
/// of the absolute value.
pub open spec fn spec_dec_i64(n: int) -> Seq<char> {
    if n < 0 {
        seq!['-'] + spec_dec((-n) as nat)
    } else {
        spec_dec(n as nat)
    }
}

/// Render a signed 64-bit value in decimal.
pub fn i64_to_dec(n: i64) -> (r: String)
    ensures
        r@ == spec_dec_i64(n as int),
{
    if n >= 0 {
        u64_to_dec(n as u64)
    } else {
        let abs: u64 = if n == i64::MIN {
            9223372036854775808u64
        } else {
            (-n) as u64
        };
        let digits = u64_to_dec(abs);
        let mut out = String::new();
        out.append("-");
        out.append(digits.as_str());
        proof {
            reveal_strlit("-");
            assert(out@ =~= spec_dec_i64(n as int));
        }
        out
    }
}

pub open spec fn spec_hex_digit(d: int) -> char {
    if d < 10 {
        spec_digit_char(d)
    } else {
        (('a' as u8) + (d - 10)) as char
    }
}

/// How one character is written inside a JSON string literal: quote and
/// backslash get a backslash escape, common control characters get their
/// short escapes, other control characters a `\u00XX` escape, and
/// everything else stands as itself.
pub open spec fn spec_escape_char(c: char) -> Seq<char> {
    if c == '"' {
        seq!['\\', '"']
    } else if c == '\\' {
        seq!['\\', '\\']
    } else if c == '\n' {
        seq!['\\', 'n']
    } else if c == '\r' {
        seq!['\\', 'r']
    } else if c == '\t' {
        seq!['\\', 't']
    } else if (c as u32) < 32 {
        seq!['\\', 'u', '0', '0', spec_hex_digit((c as u32) as int / 16), spec_hex_digit(
            (c as u32) as int % 16,
        )]
    } else {
        seq![c]
    }
}

/// The body of a JSON string literal holding exactly the characters of `s`.
pub open spec fn spec_json_escaped(s: Seq<char>) -> Seq<char>
    decreases s.len(),
{
    if s.len() == 0 {
        Seq::empty()
    } else {
        spec_json_escaped(s.drop_last()) + spec_escape_char(s.last())
    }
}

/// Escape `s` for embedding between the quotes of a JSON string literal.
pub fn json_escape(s: &str) -> (r: String)
    ensures
        r@ == spec_json_escaped(s@),
{
    let n = s.unicode_len();
    let mut out: Vec<char> = Vec::new();
    let mut i: usize = 0;
    while i < n
        invariant
            n == s@.len(),
            i <= n,
            out@ =~= spec_json_escaped(s@.subrange(0, i as int)),
        decreases n - i,
    {
        let c = s.get_char(i);
        let ghost prefix = s@.subrange(0, i as int);
        if c == '"' {
            out.push('\\');
            out.push('"');
        } else if c == '\\' {
            out.push('\\');
            out.push('\\');
        } else if c == '\n' {
            out.push('\\');
            out.push('n');
        } else if c == '\r' {
            out.push('\\');
            out.push('r');
        } else if c == '\t' {
            out.push('\\');
            out.push('t');
        } else if (c as u32) < 32 {
            let v = c as u32;
            let hi = (v / 16) as u8;
            let lo = (v % 16) as u8;
            out.push('\\');
            out.push('u');
            out.push('0');
            out.push('0');
            out.push(if hi < 10 {
                (('0' as u8) + hi) as char
            } else {
                (('a' as u8) + (hi - 10)) as char
            });
            out.push(if lo < 10 {
                (('0' as u8) + lo) as char
            } else {
                (('a' as u8) + (lo - 10)) as char
            });
        } else {
            out.push(c);
        }
        proof {
            let full = s@.subrange(0, i as int + 1);
            assert(full.drop_last() =~= prefix);
            assert(full.last() == s@[i as int]);
            assert(out@ =~= spec_json_escaped(prefix) + spec_escape_char(s@[i as int]));
        }
        i = i + 1;
    }
    proof {
        assert(s@.subrange(0, n as int) =~= s@);
    }
    string_from_chars(out)
}

/// Every character of `s` is ASCII.
pub open spec fn spec_ascii_chars(s: Seq<char>) -> bool {
    forall|i: int| 0 <= i < s.len() ==> (#[trigger] s[i] as u32) < 128
}

/// Check that `s` consists of ASCII characters only.
pub fn str_is_ascii(s: &str) -> (r: bool)
    ensures
        r == spec_ascii_chars(s@),
{
    let n = s.unicode_len();
    let mut i: usize = 0;
    while i < n
        invariant
            n == s@.len(),
            i <= n,
            forall|j: int| 0 <= j < i ==> (#[trigger] s@[j] as u32) < 128,
        decreases n - i,
    {
        let c = s.get_char(i);
        if (c as u32) >= 128 {
            return false;
        }
        i = i + 1;
    }
    true
}

pub open spec fn spec_is_ws(c: char) -> bool {
    c == ' ' || c == '\t' || c == '\n' || c == '\r'
}

pub open spec fn spec_trim_front(s: Seq<char>) -> Seq<char>
    decreases s.len(),
{
    if s.len() > 0 && spec_is_ws(s[0]) {
        spec_trim_front(s.drop_first())
    } else {
        s
    }
}

pub open spec fn spec_trim_back(s: Seq<char>) -> Seq<char>
    decreases s.len(),
{
    if s.len() > 0 && spec_is_ws(s.last()) {
        spec_trim_back(s.drop_last())
    } else {
        s
    }
}

/// `s` without leading and trailing ASCII whitespace.
pub open spec fn spec_trim(s: Seq<char>) -> Seq<char> {
    spec_trim_back(spec_trim_front(s))
}

fn is_ws_char(c: char) -> (r: bool)
    ensures
        r == spec_is_ws(c),
{
    c == ' ' || c == '\t' || c == '\n' || c == '\r'
}

/// Trim leading and trailing ASCII whitespace (space, tab, newline,
/// carriage return).
pub fn trim_ascii(s: &str) -> (r: String)
    ensures
        r@ == spec_trim(s@),
{
    let n = s.unicode_len();
    proof {
        assert(s@.subrange(0, n as int) =~= s@);
    }
    let mut a: usize = 0;
    while a < n && is_ws_char(s.get_char(a))
        invariant
            n == s@.len(),
            a <= n,
            spec_trim_front(s@) == spec_trim_front(s@.subrange(a as int, n as int)),
        decreases n - a,
    {
        proof {
            let cur = s@.subrange(a as int, n as int);
            let next = s@.subrange(a as int + 1, n as int);
            assert(cur[0] == s@[a as int]);
            assert(cur.drop_first() =~= next);
        }
        a = a + 1;
    }
    proof {
        let cur = s@.subrange(a as int, n as int);
        if a < n {
            assert(cur[0] == s@[a as int]);
        }
        assert(spec_trim_front(cur) == cur);
    }
    let mut b: usize = n;
    while b > a && is_ws_char(s.get_char(b - 1))
        invariant
            n == s@.len(),
            a <= b <= n,
            spec_trim_front(s@) == s@.subrange(a as int, n as int),
            spec_trim_back(s@.subrange(a as int, n as int)) == spec_trim_back(
                s@.subrange(a as int, b as int),
            ),
        decreases b,
    {
        proof {
            let cur = s@.subrange(a as int, b as int);
            let next = s@.subrange(a as int, b as int - 1);
            assert(cur.last() == s@[b as int - 1]);
            assert(cur.drop_last() =~= next);
        }
        b = b - 1;
    }
    proof {
        let cur = s@.subrange(a as int, b as int);
        if b > a {
            assert(cur.last() == s@[b as int - 1]);
        }
        assert(spec_trim_back(cur) == cur);
    }
    let piece = s.substring_char(a, b);
    piece.to_owned()
}

/// `items` joined by `sep`, in order, with no leading or trailing
/// separator.
pub open spec fn spec_join(items: Seq<Seq<char>>, sep: Seq<char>) -> Seq<char>
    decreases items.len(),
{
    if items.len() == 0 {
        Seq::empty()
    } else if items.len() == 1 {
        items[0]
    } else {
        spec_join(items.drop_last(), sep) + sep + items.last()
    }
}

/// Join strings with a separator, as rollback error lists are aggregated.
pub fn join_strings(items: &Vec<String>, sep: &str) -> (r: String)
    ensures
        r@ == spec_join(items.deep_view(), sep@),
{
    let mut out = String::new();
    let mut i: usize = 0;
    while i < items.len()
        invariant
            i <= items@.len(),
            items.deep_view().len() == items@.len(),
            forall|j: int|
                0 <= j < items@.len() ==> items.deep_view()[j] == #[trigger] items@[j]@,
            out@ =~= spec_join(items.deep_view().subrange(0, i as int), sep@),
        decreases items@.len() - i,
    {
        if i > 0 {
            out.append(sep);
        }
        out.append(items[i].as_str());
        proof {
            let dv = items.deep_view();
            let full = dv.subrange(0, i as int + 1);
            assert(full.drop_last() =~= dv.subrange(0, i as int));
            assert(full.last() == dv[i as int]);
            if i > 0 {
                assert(out@ =~= spec_join(full.drop_last(), sep@) + sep@ + full.last());
            } else {
                assert(out@ =~= dv[0]);
            }
        }
        i = i + 1;
    }
    proof {
        assert(items.deep_view().subrange(0, items@.len() as int) =~= items.deep_view());
    }
    out
}

} // verus!
