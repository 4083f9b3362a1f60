//! Reading the seed typed by the player: a non-negative decimal integer,
//! surrounding whitespace ignored.
use vstd::prelude::*;
use vstd::string::StrSliceExecFns;
use crate::text::{decimal, digit_char};

verus! {

/// Unicode `White_Space` characters: the whitespace trimmed around the seed.
pub open spec fn is_space(c: char) -> bool {
    ||| c == '\t' || c == '\n' || c == '\u{0B}' || c == '\u{0C}' || c == '\r' || c == ' '
    ||| c == '\u{85}' || c == '\u{A0}' || c == '\u{1680}'
    ||| ('\u{2000}' <= c && c <= '\u{200A}')
    ||| c == '\u{2028}' || c == '\u{2029}' || c == '\u{202F}' || c == '\u{205F}' || c == '\u{3000}'
}

pub fn space_char(c: char) -> (r: bool)
    ensures
        r == is_space(c),
{
    c == '\t' || c == '\n' || c == '\u{0B}' || c == '\u{0C}' || c == '\r' || c == ' ' || c == '\u{85}'
        || c == '\u{A0}' || c == '\u{1680}' || ('\u{2000}' <= c && c <= '\u{200A}') || c == '\u{2028}'
        || c == '\u{2029}' || c == '\u{202F}' || c == '\u{205F}' || c == '\u{3000}'
}

/// Number of whitespace characters at the start of `s`.
pub open spec fn leading_spaces(s: Seq<char>) -> nat
    decreases s.len(),
{
    if s.len() > 0 && is_space(s[0]) {
        1 + leading_spaces(s.drop_first())
    } else {
        0
    }
}

/// Number of whitespace characters at the end of `s`.
pub open spec fn trailing_spaces(s: Seq<char>) -> nat
    decreases s.len(),
{
    if s.len() > 0 && is_space(s.last()) {
        1 + trailing_spaces(s.drop_last())
    } else {
        0
    }
}

/// `s` without its leading and trailing whitespace.
pub open spec fn trimmed(s: Seq<char>) -> Seq<char> {
    let t = s.skip(leading_spaces(s) as int);
    t.take(t.len() - trailing_spaces(t))
}

pub open spec fn is_digit(c: char) -> bool {
    '0' <= c && c <= '9'
}

/// The value of a string of decimal digits.
pub open spec fn digits_value(d: Seq<char>) -> nat
    decreases d.len(),
{
    if d.len() == 0 {
        0
    } else {
        digits_value(d.drop_last()) * 10 + (d.last() as nat - '0' as nat) as nat
    }
}

/// The number written by `d`: at least one decimal digit, of a value that
/// fits 64 bits.
pub open spec fn digits_number(d: Seq<char>) -> Option<u64> {
    if d.len() > 0 && (forall|i: int| 0 <= i < d.len() ==> #[trigger] is_digit(d[i])) && digits_value(d)
        <= u64::MAX {
        Some(digits_value(d) as u64)
    } else {
        None
    }
}

/// The unsigned integer written by `t`: an optional `+`, then the digits.
pub open spec fn unsigned_value(t: Seq<char>) -> Option<u64> {
    if t.len() > 0 && t[0] == '+' {
        digits_number(t.drop_first())
    } else {
        digits_number(t)
    }
}

/// The seed written in `text`, ignoring surrounding whitespace.
pub open spec fn seed_value(text: Seq<char>) -> Option<u64> {
    unsigned_value(trimmed(text))
}

proof fn lemma_leading(s: Seq<char>, i: nat)
    requires
        i <= s.len(),
        forall|k: int| 0 <= k < i ==> #[trigger] is_space(s[k]),
    ensures
        leading_spaces(s) >= i,
        i < s.len() && !is_space(s[i as int]) ==> leading_spaces(s) == i,
        i == s.len() ==> leading_spaces(s) == i,
    decreases i,
{
    if i > 0 {
        let t = s.drop_first();
        assert forall|k: int| 0 <= k < i - 1 implies #[trigger] is_space(t[k]) by {
            assert(t[k] == s[k + 1]);
        }
        lemma_leading(t, (i - 1) as nat);
        if i < s.len() {
            assert(t[i - 1] == s[i as int]);
        }
    }
}

proof fn lemma_trailing(s: Seq<char>, i: nat)
    requires
        i <= s.len(),
        forall|k: int| s.len() - i <= k < s.len() ==> #[trigger] is_space(s[k]),
    ensures
        trailing_spaces(s) >= i,
        i < s.len() && !is_space(s[s.len() - 1 - i]) ==> trailing_spaces(s) == i,
        i == s.len() ==> trailing_spaces(s) == i,
    decreases i,
{
    if i > 0 {
        let t = s.drop_last();
        assert forall|k: int| t.len() - (i - 1) <= k < t.len() implies #[trigger] is_space(t[k]) by {
            assert(t[k] == s[k]);
        }
        lemma_trailing(t, (i - 1) as nat);
        if i < s.len() {
            assert(t[t.len() - 1 - (i - 1)] == s[s.len() - 1 - i]);
        }
    }
}

proof fn lemma_digits_grow(d: Seq<char>, k: nat, m: nat)
    requires
        k <= m <= d.len(),
    ensures
        digits_value(d.take(k as int)) <= digits_value(d.take(m as int)),
    decreases m - k,
{
    if k < m {
        lemma_digits_grow(d, k, (m - 1) as nat);
        assert(d.take(m as int).drop_last() =~= d.take(m - 1));
    }
}

/// The seed typed in `text`: `None` unless, once surrounding whitespace is
/// dropped, it is an optional `+` and decimal digits of a value below 2^64.
pub fn parse_seed(text: &str) -> (r: Option<u64>)
    ensures
        r == seed_value(text@),
{
    let ghost s = text@;
    let n = text.unicode_len();
    let mut lo: usize = 0;
    while lo < n && space_char(text.get_char(lo))
        invariant
            lo <= n == s.len(),
            s == text@,
            forall|k: int| 0 <= k < lo ==> #[trigger] is_space(s[k]),
        decreases n - lo,
    {
        lo = lo + 1;
    }
    proof {
        lemma_leading(s, lo as nat);
    }
    let ghost t = s.skip(lo as int);
    let mut hi: usize = n;
    while hi > lo && space_char(text.get_char(hi - 1))
        invariant
            lo <= hi <= n == s.len(),
            s == text@,
            t == s.skip(lo as int),
            forall|k: int| hi <= k < n ==> #[trigger] is_space(s[k]),
        decreases hi - lo,
    {
        hi = hi - 1;
    }
    proof {
        assert forall|k: int| t.len() - (n - hi) <= k < t.len() implies #[trigger] is_space(t[k]) by {
            assert(t[k] == s[k + lo]);
        }
        if hi > lo {
            assert(t[t.len() - 1 - (n - hi)] == s[hi - 1]);
        }
        lemma_trailing(t, (n - hi) as nat);
        assert(trimmed(s) =~= s.subrange(lo as int, hi as int));
    }
    let ghost w = s.subrange(lo as int, hi as int);
    let mut i = lo;
    if i < hi && text.get_char(i) == '+' {
        i = i + 1;
    }
    let ghost d = s.subrange(i as int, hi as int);
    proof {
        if w.len() > 0 && w[0] == '+' {
            assert(d =~= w.drop_first());
        } else {
            assert(d =~= w);
        }
    }
    if i >= hi {
        return None;
    }
    let start = i;
    let mut acc: u64 = 0;
    while i < hi
        invariant
            start <= i <= hi <= n == s.len(),
            s == text@,
            d == s.subrange(start as int, hi as int),
            seed_value(text@) == digits_number(d),
            forall|k: int| start <= k < i ==> #[trigger] is_digit(s[k]),
            acc == digits_value(d.take(i - start)),
        decreases hi - i,
    {
        let c = text.get_char(i);
        if !('0' <= c && c <= '9') {
            proof {
                assert(!is_digit(d[i - start]));
            }
            return None;
        }
        let v = (c as u32 - '0' as u32) as u64;
        proof {
            assert(d.take(i - start + 1).drop_last() =~= d.take(i - start));
            assert(d.take(i - start + 1).last() == c);
        }
        match acc.checked_mul(10) {
            None => {
                proof {
                    lemma_digits_grow(d, (i - start + 1) as nat, d.len());
                    assert(d.take(d.len() as int) =~= d);
                }
                return None;
            },
            Some(a) => match a.checked_add(v) {
                None => {
                    proof {
                        lemma_digits_grow(d, (i - start + 1) as nat, d.len());
                        assert(d.take(d.len() as int) =~= d);
                    }
                    return None;
                },
                Some(b) => {
                    acc = b;
                },
            },
        }
        i = i + 1;
    }
    proof {
        assert(d.take(d.len() as int) =~= d);
        assert forall|k: int| 0 <= k < d.len() implies #[trigger] is_digit(d[k]) by {
            assert(d[k] == s[k + start]);
        }
    }
    Some(acc)
}

proof fn lemma_decimal_digits(n: nat)
    ensures
        decimal(n).len() > 0,
        forall|i: int| 0 <= i < decimal(n).len() ==> #[trigger] is_digit(decimal(n)[i]),
        digits_value(decimal(n)) == n,
        decimal(n)[0] != '+',
        !is_space(decimal(n)[0]),
        !is_space(decimal(n).last()),
    decreases n,
{
    let d = (n % 10) as nat;
    assert(is_digit(digit_char(d)) && digit_char(d) as nat - '0' as nat == d) by {
        assert(d < 10);
    }
    if n >= 10 {
        lemma_decimal_digits(n / 10);
        let p = decimal(n / 10);
        assert(decimal(n) == p.push(digit_char(d)));
        assert(decimal(n).drop_last() =~= p);
        assert forall|i: int| 0 <= i < decimal(n).len() implies #[trigger] is_digit(decimal(n)[i]) by {
            if i < p.len() {
                assert(decimal(n)[i] == p[i]);
            }
        }
        assert(decimal(n)[0] == p[0]);
        assert(decimal(n).last() == digit_char(d));
        assert(digits_value(decimal(n)) == digits_value(p) * 10 + d);
        assert(n == (n / 10) * 10 + d);
    } else {
        assert(decimal(n) == seq![digit_char(n)]);
        assert(decimal(n).drop_last() =~= Seq::<char>::empty());
        assert(decimal(n).last() == digit_char(d));
        assert(digits_value(decimal(n).drop_last()) == 0);
        assert(digits_value(decimal(n)) == d);
    }
}

/// A seed written out in decimal, as the seed field shows it, reads back as
/// the same seed.
pub proof fn law_written_seed_reads_back(n: u64)
    ensures
        seed_value(decimal(n as nat)) == Some(n),
{
    let s = decimal(n as nat);
    lemma_decimal_digits(n as nat);
    lemma_leading(s, 0);
    lemma_trailing(s, 0);
    assert(s.skip(0) =~= s);
    assert(trimmed(s) =~= s);
}

} // verus!
