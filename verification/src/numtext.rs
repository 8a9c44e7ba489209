//! Decimal text for the response layer: exact formatting of measure
//! values and parsing of cursor text back into epoch seconds.

use vstd::prelude::*;
use vstd::string::StringExecFns;

verus! {

/// The fixed-point scale of decimal-valued measures: 10^8.
pub const RATIO_SCALE: u64 = 100_000_000;

pub open spec fn digit_char(d: int) -> char {
    if d == 0 {
        '0'
    } else if d == 1 {
        '1'
    } else if d == 2 {
        '2'
    } else if d == 3 {
        '3'
    } else if d == 4 {
        '4'
    } else if d == 5 {
        '5'
    } else if d == 6 {
        '6'
    } else if d == 7 {
        '7'
    } else if d == 8 {
        '8'
    } else {
        '9'
    }
}

/// The decimal numeral of `n >= 0`, most significant digit first.
pub open spec fn dec_digits(n: int) -> Seq<char>
    decreases n,
{
    if n < 10 {
        seq![digit_char(n)]
    } else {
        dec_digits(n / 10).push(digit_char(n % 10))
    }
}

/// The low `k` decimal digits of `f >= 0`, zero padded to width `k`.
pub open spec fn padded_digits(f: int, k: nat) -> Seq<char>
    decreases k,
{
    if k == 0 {
        Seq::empty()
    } else {
        padded_digits(f / 10, (k - 1) as nat).push(digit_char(f % 10))
    }
}

/// The decimal text of a value held in fixed point at scale 10^8: the
/// integer part, a point, and exactly eight fractional digits.
pub open spec fn fixed_str(v: int) -> Seq<char> {
    dec_digits(v / 100_000_000) + seq!['.'] + padded_digits(v % 100_000_000, 8)
}

fn digit_str(d: u128) -> (s: &'static str)
    requires
        d < 10,
    ensures
        s@ == seq![digit_char(d as int)],
{
    proof {
        reveal_strlit("0");
        reveal_strlit("1");
        reveal_strlit("2");
        reveal_strlit("3");
        reveal_strlit("4");
        reveal_strlit("5");
        reveal_strlit("6");
        reveal_strlit("7");
        reveal_strlit("8");
        reveal_strlit("9");
    }
    let s: &'static str = if d == 0 {
        "0"
    } else if d == 1 {
        "1"
    } else if d == 2 {
        "2"
    } else if d == 3 {
        "3"
    } else if d == 4 {
        "4"
    } else if d == 5 {
        "5"
    } else if d == 6 {
        "6"
    } else if d == 7 {
        "7"
    } else if d == 8 {
        "8"
    } else {
        "9"
    };
    proof {
        assert(s@ =~= seq![digit_char(d as int)]);
    }
    s
}

/// Formats `n` as its decimal numeral.
pub fn u128_to_dec_string(n: u128) -> (s: String)
    ensures
        s@ == dec_digits(n as int),
    decreases n,
{
    if n < 10 {
        let s = digit_str(n).to_owned();
        s
    } else {
        let mut front = u128_to_dec_string(n / 10);
        front.append(digit_str(n % 10));
        front
    }
}

fn padded_dec_string(f: u64, k: usize) -> (s: String)
    ensures
        s@ == padded_digits(f as int, k as nat),
    decreases k,
{
    if k == 0 {
        let s = String::new();
        proof {
            assert(s@ =~= padded_digits(f as int, 0));
        }
        s
    } else {
        let mut front = padded_dec_string(f / 10, k - 1);
        front.append(digit_str((f % 10) as u128));
        front
    }
}

/// Formats a fixed-point value at scale 10^8 as decimal text with eight
/// fractional digits.
pub fn fixed_to_dec_string(v: u128) -> (s: String)
    ensures
        s@ == fixed_str(v as int),
{
    let mut s = u128_to_dec_string(v / 100_000_000);
    proof {
        reveal_strlit(".");
    }
    s.append(".");
    let frac_part = padded_dec_string((v % 100_000_000) as u64, 8);
    s.append(frac_part.as_str());
    proof {
        assert(s@ =~= fixed_str(v as int));
    }
    s
}

pub open spec fn is_dec_digit(c: char) -> bool {
    '0' <= c <= '9'
}

pub open spec fn all_digits(t: Seq<char>) -> bool {
    forall|i: int| 0 <= i < t.len() ==> is_dec_digit(#[trigger] t[i])
}

pub open spec fn digit_val(c: char) -> int {
    c as int - 48
}

/// The value of a decimal numeral (with leading zeros allowed).
pub open spec fn dec_val(t: Seq<char>) -> int
    decreases t.len(),
{
    if t.len() == 0 {
        0
    } else {
        dec_val(t.drop_last()) * 10 + digit_val(t.last())
    }
}

proof fn lemma_dec_val_nonneg(t: Seq<char>)
    requires
        all_digits(t),
    ensures
        dec_val(t) >= 0,
    decreases t.len(),
{
    if t.len() > 0 {
        lemma_dec_val_nonneg(t.drop_last());
    }
}

proof fn lemma_dec_val_prefix(t: Seq<char>, i: int)
    requires
        all_digits(t),
        0 <= i <= t.len(),
    ensures
        dec_val(t.take(i)) <= dec_val(t),
    decreases t.len() - i,
{
    if i < t.len() {
        lemma_dec_val_prefix(t, i + 1);
        let p = t.take(i + 1);
        assert(p.drop_last() =~= t.take(i));
        assert(all_digits(p.drop_last()));
        lemma_dec_val_nonneg(t.take(i));
        assert(dec_val(t.take(i)) <= dec_val(t.take(i)) * 10 + digit_val(p.last()));
    } else {
        assert(t.take(i) =~= t);
    }
}

/// Parses decimal text into epoch seconds: succeeds exactly on nonempty
/// all-digit text whose value fits in a `u64`.
pub fn parse_u64_dec(t: &str) -> (r: Option<u64>)
    ensures
        match r {
            Some(v) => t@.len() > 0 && all_digits(t@) && v as int == dec_val(t@),
            None => t@.len() == 0 || !all_digits(t@) || dec_val(t@) > u64::MAX,
        },
{
    let n = t.unicode_len();
    if n == 0 {
        return None;
    }
    let mut v: u64 = 0;
    let mut i: usize = 0;
    while i < n
        invariant
            0 <= i <= n,
            n == t@.len(),
            all_digits(t@.take(i as int)),
            v as int == dec_val(t@.take(i as int)),
        decreases n - i,
    {
        let c = t.get_char(i);
        let cv = c as u32;
        if cv < 48 || cv > 57 {
            return None;
        }
        let d = (cv - 48) as u64;
        proof {
            assert(t@.take(i as int + 1).drop_last() =~= t@.take(i as int));
            assert(t@.take(i as int + 1).last() == t@[i as int]);
        }
        if v > (u64::MAX - d) / 10 {
            proof {
                assert(dec_val(t@.take(i as int + 1)) == v as int * 10 + d);
                assert(v as int * 10 + d > u64::MAX) by (nonlinear_arith)
                    requires
                        v as int > (u64::MAX - d) / 10,
                        0 <= d <= 9,
                ;
                if all_digits(t@) {
                    lemma_dec_val_prefix(t@, i as int + 1);
                }
            }
            return None;
        }
        v = v * 10 + d;
        i = i + 1;
    }
    proof {
        assert(t@.take(n as int) =~= t@);
    }
    Some(v)
}

} // verus!
