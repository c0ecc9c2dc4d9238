//! Decimal text of integers: writing and reading.

use vstd::prelude::*;

verus! {

/// The character of a decimal digit.
pub open spec fn digit_char(d: int) -> char
    recommends
        0 <= d < 10,
{
    ((d + 48) as u8) as char
}

/// The decimal text of `n`, without leading zeros.
pub open spec fn decimal(n: nat) -> Seq<char>
    decreases n,
{
    if n < 10 {
        seq![digit_char(n as int)]
    } else {
        decimal(n / 10).push(digit_char((n % 10) as int))
    }
}

/// `s` padded on the left with spaces to at least `width` characters.
pub open spec fn pad_left(s: Seq<char>, width: nat) -> Seq<char> {
    if s.len() >= width {
        s
    } else {
        Seq::new((width - s.len()) as nat, |i: int| ' ') + s
    }
}

/// The text of a single digit.
fn digit_text(d: u64) -> (r: &'static str)
    requires
        d < 10,
    ensures
        r@ == seq![digit_char(d as int)],
{
    proof {
        reveal_strlit("0");
        reveal_strlit("1");
        reveal_strlit("2");
        reveal_strlit("3");
        reveal_strlit("4");
        reveal_strlit("5");
        reveal_strlit("6");
        reveal_strlit("7");
        reveal_strlit("8");
        reveal_strlit("9");
    }
    let r = match d {
        0 => "0",
        1 => "1",
        2 => "2",
        3 => "3",
        4 => "4",
        5 => "5",
        6 => "6",
        7 => "7",
        8 => "8",
        _ => "9",
    };
    assert(r@ =~= seq![digit_char(d as int)]);
    r
}

/// Writes `n` in decimal.
pub fn decimal_text(n: u64) -> (r: String)
    ensures
        r@ == decimal(n as nat),
    decreases n,
{
    if n < 10 {
        String::from_str(digit_text(n))
    } else {
        let mut s = decimal_text(n / 10);
        s.append(digit_text(n % 10));
        s
    }
}

/// Writes `n` in decimal, padded on the left with spaces to `width`.
pub fn padded_decimal(n: u64, width: usize) -> (r: String)
    ensures
        r@ == pad_left(decimal(n as nat), width as nat),
{
    let digits = decimal_text(n);
    let len = digits.as_str().unicode_len();
    if len >= width {
        digits
    } else {
        let mut r = String::new();
        let mut i: usize = 0;
        while i < width - len
            invariant
                i <= width - len,
                len == digits@.len(),
                len < width,
                r@ == Seq::new(i as nat, |j: int| ' '),
            decreases width - len - i,
        {
            proof {
                reveal_strlit(" ");
            }
            r.append(" ");
            assert(r@ =~= Seq::new((i + 1) as nat, |j: int| ' '));
            i = i + 1;
        }
        r.append(digits.as_str());
        r
    }
}

/// The decimal text of a signed integer.
pub open spec fn signed_decimal(v: int) -> Seq<char> {
    if v < 0 {
        seq!['-'] + decimal((-v) as nat)
    } else {
        decimal(v as nat)
    }
}

/// Writes a signed integer in decimal.
pub fn signed_decimal_text(v: i64) -> (r: String)
    ensures
        r@ == signed_decimal(v as int),
{
    if v < 0 {
        let magnitude = (0 - (v as i128)) as u64;
        let mut r = String::from_str("-");
        r.append(decimal_text(magnitude).as_str());
        proof {
            reveal_strlit("-");
        }
        assert(r@ =~= signed_decimal(v as int));
        r
    } else {
        decimal_text(v as u64)
    }
}

/// Whether every character of `s` is an ASCII digit.
pub open spec fn all_digits(s: Seq<char>) -> bool {
    forall|i: int| 0 <= i < s.len() ==> '0' <= #[trigger] s[i] <= '9'
}

/// The value of a run of decimal digits.
pub open spec fn digits_value(s: Seq<char>) -> nat
    decreases s.len(),
{
    if s.len() == 0 {
        0
    } else {
        digits_value(s.drop_last()) * 10 + ((s.last() as u32 - 48) as nat)
    }
}

/// The value that the text `s` writes as a 64-bit signed integer: an
/// optional sign, then one or more decimal digits, within the range.
pub open spec fn int_value(s: Seq<char>) -> Option<int> {
    let negative = s.len() > 0 && s[0] == '-';
    let digits = if s.len() > 0 && (s[0] == '-' || s[0] == '+') {
        s.drop_first()
    } else {
        s
    };
    if digits.len() == 0 || !all_digits(digits) {
        None
    } else {
        let v: int = if negative {
            -digits_value(digits)
        } else {
            digits_value(digits) as int
        };
        if i64::MIN <= v <= i64::MAX {
            Some(v)
        } else {
            None
        }
    }
}

/// The decimal text of `n` is a non-empty run of digits whose value is `n`.
pub proof fn lemma_decimal_digits(n: nat)
    ensures
        decimal(n).len() > 0,
        all_digits(decimal(n)),
        digits_value(decimal(n)) == n,
    decreases n,
{
    if n >= 10 {
        lemma_decimal_digits(n / 10);
        let s = decimal(n);
        let head = decimal(n / 10);
        assert(s.drop_last() =~= head);
        let d = (n % 10) as int;
        assert(((d + 48) as u8) as char as u32 == d + 48);
        assert(s.last() == digit_char(d));
        assert((n / 10) * 10 + n % 10 == n);
        assert(digits_value(s) == digits_value(head) * 10 + ((s.last() as u32 - 48) as nat));
        assert(digits_value(head) * 10 == (n / 10) * 10);
        assert forall|i: int| 0 <= i < s.len() implies '0' <= #[trigger] s[i] <= '9' by {
            if i < head.len() {
                assert(s[i] == head[i]);
            }
        }
    } else {
        let d = n as int;
        assert(((d + 48) as u8) as char as u32 == d + 48);
        assert(decimal(n).drop_last() =~= Seq::<char>::empty());
        assert(decimal(n).last() == digit_char(d));
        assert(digits_value(Seq::<char>::empty()) == 0);
        assert(digits_value(decimal(n)) == digits_value(decimal(n).drop_last()) * 10 + ((decimal(n).last() as u32 - 48) as nat));
    }
}

/// Reading back the decimal text of a 64-bit integer gives that integer.
pub proof fn lemma_int_value_of_signed_decimal(v: i64)
    ensures
        int_value(signed_decimal(v as int)) == Some(v as int),
{
    if v < 0 {
        let m = (-(v as int)) as nat;
        lemma_decimal_digits(m);
        assert((seq!['-'] + decimal(m)).drop_first() =~= decimal(m));
    } else {
        lemma_decimal_digits(v as nat);
        let s = decimal(v as nat);
        assert('0' <= s[0] <= '9');
    }
}

/// A bound just above the largest magnitude an `i64` can hold.
const MAGNITUDE_CAP: u128 = 0x8000_0000_0000_0001;

/// Reads `s` as a 64-bit signed integer: an optional `+` or `-`, then one or
/// more decimal digits and nothing else.
pub fn parse_int(s: &str) -> (r: Option<i64>)
    ensures
        match r {
            Some(v) => int_value(s@) == Some(v as int),
            None => int_value(s@) is None,
        },
{
    let n = s.unicode_len();
    let mut start: usize = 0;
    let mut negative = false;
    if n > 0 {
        let c = s.get_char(0);
        if c == '-' || c == '+' {
            start = 1;
            negative = c == '-';
        }
    }
    let ghost digits = s@.subrange(start as int, n as int);
    assert(digits =~= if s@.len() > 0 && (s@[0] == '-' || s@[0] == '+') {
        s@.drop_first()
    } else {
        s@
    });
    if start >= n {
        assert(digits.len() == 0);
        return None;
    }
    let mut acc: u128 = 0;
    let mut i: usize = start;
    while i < n
        invariant
            start <= i <= n,
            n == s@.len(),
            digits == s@.subrange(start as int, n as int),
            digits == if s@.len() > 0 && (s@[0] == '-' || s@[0] == '+') {
                s@.drop_first()
            } else {
                s@
            },
            negative == (s@.len() > 0 && s@[0] == '-'),
            all_digits(s@.subrange(start as int, i as int)),
            acc == if digits_value(s@.subrange(start as int, i as int)) < MAGNITUDE_CAP {
                digits_value(s@.subrange(start as int, i as int))
            } else {
                MAGNITUDE_CAP as nat
            },
        decreases n - i,
    {
        let c = s.get_char(i);
        if !('0' <= c && c <= '9') {
            assert(digits[i - start] == c);
            assert(!all_digits(digits));
            return None;
        }
        let d = (c as u32 - 48) as u128;
        let ghost before = s@.subrange(start as int, i as int);
        let ghost after = s@.subrange(start as int, i + 1);
        assert(after.drop_last() =~= before);
        assert(after.last() == c);
        assert(digits_value(after) == digits_value(before) * 10 + d);
        let next: u128 = acc * 10 + d;
        acc = if next < MAGNITUDE_CAP {
            next
        } else {
            MAGNITUDE_CAP
        };
        proof {
            let v = digits_value(before);
            if v >= MAGNITUDE_CAP {
                assert(v * 10 + d >= MAGNITUDE_CAP) by (nonlinear_arith)
                    requires
                        v >= MAGNITUDE_CAP,
                        d >= 0,
                ;
            }
        }
        assert forall|j: int| 0 <= j < after.len() implies '0' <= #[trigger] after[j] <= '9' by {
            if j < before.len() {
                assert(after[j] == before[j]);
            }
        }
        i = i + 1;
    }
    assert(s@.subrange(start as int, n as int) == digits);
    if negative {
        if acc <= 0x8000_0000_0000_0000 {
            Some((0 - (acc as i128)) as i64)
        } else {
            None
        }
    } else {
        if acc <= 0x7fff_ffff_ffff_ffff {
            Some(acc as i64)
        } else {
            None
        }
    }
}

} // verus!
