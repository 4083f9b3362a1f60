//! Decimal rendering of integers for labels.
use vstd::prelude::*;
use vstd::string::StringExecFns;

verus! {

/// The ASCII character of a decimal digit.
pub open spec fn digit_char(d: nat) -> char
    recommends
        d < 10,
{
    if d == 0 {
        '0'
    } else if d == 1 {
        '1'
    } else if d == 2 {
        '2'
    } else if d == 3 {
        '3'
    } else if d == 4 {
        '4'
    } else if d == 5 {
        '5'
    } else if d == 6 {
        '6'
    } else if d == 7 {
        '7'
    } else if d == 8 {
        '8'
    } else {
        '9'
    }
}

/// The shortest decimal representation of `n` (no sign, no leading zeros).
pub open spec fn decimal(n: nat) -> Seq<char>
    decreases n,
{
    if n < 10 {
        seq![digit_char(n)]
    } else {
        decimal(n / 10).push(digit_char(n % 10))
    }
}

/// `n` in decimal, padded with leading zeros to at least two digits.
pub open spec fn decimal_pad2(n: nat) -> Seq<char> {
    if n < 10 {
        seq!['0'] + decimal(n)
    } else {
        decimal(n)
    }
}

/// `n` in decimal, padded with leading zeros to at least three digits.
pub open spec fn decimal_pad3(n: nat) -> Seq<char> {
    if n < 10 {
        seq!['0', '0'] + decimal(n)
    } else if n < 100 {
        seq!['0'] + decimal(n)
    } else {
        decimal(n)
    }
}

/// Digits with a space before every group of three counted from the right.
pub open spec fn group_thousands(digits: Seq<char>) -> Seq<char>
    decreases digits.len(),
{
    if digits.len() <= 3 {
        digits
    } else {
        group_thousands(digits.take(digits.len() - 3)) + seq![' '] + digits.skip(
            digits.len() - 3,
        )
    }
}

/// The one-character string of a decimal digit.
pub fn digit_str(d: u64) -> (s: &'static str)
    requires
        d < 10,
    ensures
        s@ == seq![digit_char(d as nat)],
{
    if d == 0 {
        proof {
            reveal_strlit("0");
        }
        "0"
    } else if d == 1 {
        proof {
            reveal_strlit("1");
        }
        "1"
    } else if d == 2 {
        proof {
            reveal_strlit("2");
        }
        "2"
    } else if d == 3 {
        proof {
            reveal_strlit("3");
        }
        "3"
    } else if d == 4 {
        proof {
            reveal_strlit("4");
        }
        "4"
    } else if d == 5 {
        proof {
            reveal_strlit("5");
        }
        "5"
    } else if d == 6 {
        proof {
            reveal_strlit("6");
        }
        "6"
    } else if d == 7 {
        proof {
            reveal_strlit("7");
        }
        "7"
    } else if d == 8 {
        proof {
            reveal_strlit("8");
        }
        "8"
    } else {
        proof {
            reveal_strlit("9");
        }
        "9"
    }
}

/// Appends the decimal representation of `n`.
pub fn push_decimal(out: &mut String, n: u64)
    ensures
        final(out)@ == old(out)@ + decimal(n as nat),
    decreases n,
{
    if n >= 10 {
        push_decimal(out, n / 10);
        out.append(digit_str(n % 10));
        assert(decimal(n as nat) == decimal((n / 10) as nat).push(digit_char((n % 10) as nat)));
    } else {
        out.append(digit_str(n));
    }
}

/// Appends `n` in decimal, zero-padded to at least two digits.
pub fn push_decimal_pad2(out: &mut String, n: u64)
    ensures
        final(out)@ == old(out)@ + decimal_pad2(n as nat),
{
    if n < 10 {
        out.append(digit_str(0));
    }
    push_decimal(out, n);
}

/// Appends `n` in decimal, zero-padded to at least three digits.
pub fn push_decimal_pad3(out: &mut String, n: u64)
    ensures
        final(out)@ == old(out)@ + decimal_pad3(n as nat),
{
    if n < 100 {
        out.append(digit_str(0));
    }
    if n < 10 {
        out.append(digit_str(0));
    }
    push_decimal(out, n);
}

/// The decimal string of `n`.
pub fn decimal_string(n: u64) -> (s: String)
    ensures
        s@ == decimal(n as nat),
{
    let mut s = String::new();
    push_decimal(&mut s, n);
    s
}

proof fn lemma_decimal_len(n: nat)
    ensures
        decimal(n).len() >= 1,
        n < 10 <==> decimal(n).len() == 1,
        n < 100 <==> decimal(n).len() <= 2,
        n < 1000 <==> decimal(n).len() <= 3,
    decreases n,
{
    if n >= 10 {
        lemma_decimal_len(n / 10);
    }
}

/// For `n >= 1000` the decimal string splits into the digits of `n / 1000`
/// followed by the three zero-padded digits of `n % 1000`.
proof fn lemma_decimal_split_thousands(n: nat)
    requires
        n >= 1000,
    ensures
        decimal(n) == decimal(n / 1000) + decimal_pad3(n % 1000),
{
    let a = n / 10;
    let b = a / 10;
    let c = b / 10;
    assert(c == n / 1000);
    assert(n % 1000 == (b % 10) * 100 + (a % 10) * 10 + n % 10);
    let d0 = digit_char(n % 10);
    let d1 = digit_char(a % 10);
    let d2 = digit_char(b % 10);
    assert(decimal(n) == decimal(a).push(d0));
    assert(decimal(a) == decimal(b).push(d1));
    assert(decimal(b) == decimal(c).push(d2));
    let m = n % 1000;
    if m >= 100 {
        assert(decimal(m) == decimal(m / 10).push(digit_char(m % 10)));
        assert(decimal(m / 10) == decimal(m / 100).push(digit_char((m / 10) % 10)));
        assert(m / 100 == b % 10);
        assert((m / 10) % 10 == a % 10);
        assert(m % 10 == n % 10);
    } else if m >= 10 {
        assert(b % 10 == 0);
        assert(decimal(m) == decimal(m / 10).push(digit_char(m % 10)));
        assert(m / 10 == a % 10);
        assert(m % 10 == n % 10);
    } else {
        assert(b % 10 == 0);
        assert(a % 10 == 0);
        assert(m == n % 10);
    }
    assert(decimal(n) =~= decimal(n / 1000) + decimal_pad3(n % 1000));
}

/// Appends `n` in decimal with thousands separated by spaces.
pub fn push_grouped(out: &mut String, n: u64)
    ensures
        final(out)@ == old(out)@ + group_thousands(decimal(n as nat)),
    decreases n,
{
    proof {
        lemma_decimal_len(n as nat);
    }
    if n >= 1000 {
        push_grouped(out, n / 1000);
        out.append(" ");
        push_decimal_pad3(out, n % 1000);
        proof {
            reveal_strlit(" ");
            lemma_decimal_split_thousands(n as nat);
            lemma_decimal_len((n / 1000) as nat);
            let d = decimal(n as nat);
            let hi = decimal((n / 1000) as nat);
            let lo = decimal_pad3((n % 1000) as nat);
            assert(lo.len() == 3) by {
                lemma_decimal_len((n % 1000) as nat);
            }
            assert(d.take(d.len() - 3) =~= hi);
            assert(d.skip(d.len() - 3) =~= lo);
        }
    } else {
        push_decimal(out, n);
    }
}

} // verus!
