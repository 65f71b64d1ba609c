//! Prices as whole cents, and the decimal notation they are read from.

use vstd::prelude::*;
use vstd::string::StringSliceAdditionalSpecFns;
use crate::text::bytes_of;

verus! {

/// The lowest price that counts as an offer: 3.00.
pub const PRICE_MIN_CENTS: u64 = 300;

/// The highest price that counts as an offer: 50000.00.
pub const PRICE_MAX_CENTS: u64 = 5_000_000;

/// The lowest price read from the storefront markup of the Amazon family: 5.00.
pub const VENDOR_MIN_CENTS: u64 = 500;

/// Amounts above this many cents are reported as this many.
pub const PRICE_CEILING_CENTS: u64 = 1_000_000_000_000;

pub open spec fn is_digit(b: u8) -> bool {
    0x30 <= b <= 0x39
}

pub open spec fn all_digits(s: Seq<u8>) -> bool {
    forall|i: int| 0 <= i < s.len() ==> is_digit(#[trigger] s[i])
}

/// The number that a run of decimal digits denotes.
pub open spec fn decimal(s: Seq<u8>) -> nat
    decreases s.len(),
{
    if s.len() == 0 {
        0
    } else {
        decimal(s.drop_last()) * 10 + (s.last() - 0x30) as nat
    }
}

/// `s` with its thousands separators (`,`) taken out.
pub open spec fn without_commas(s: Seq<u8>) -> Seq<u8>
    decreases s.len(),
{
    if s.len() == 0 {
        s
    } else if s.last() == 0x2c {
        without_commas(s.drop_last())
    } else {
        without_commas(s.drop_last()).push(s.last())
    }
}

/// The place of the first `.` in `s`, or the length of `s` where it has none.
pub open spec fn dot_position(s: Seq<u8>) -> int
    decreases s.len(),
{
    if s.len() == 0 || s[0] == 0x2e {
        0
    } else {
        1 + dot_position(s.skip(1))
    }
}

/// The digits before the first `.` of `t`.
pub open spec fn whole_part(t: Seq<u8>) -> Seq<u8> {
    t.take(dot_position(t))
}

/// What follows the first `.` of `t`; empty where there is no `.`.
pub open spec fn fraction_part(t: Seq<u8>) -> Seq<u8> {
    if dot_position(t) < t.len() {
        t.skip(dot_position(t) + 1)
    } else {
        Seq::empty()
    }
}

/// The amount in cents that `raw` denotes. `raw` is a decimal number with
/// optional thousands separators and at most two digits after the point; it
/// needs a digit on one side of the point at least. Anything else denotes
/// nothing.
pub open spec fn price_cents(raw: Seq<u8>) -> Option<nat> {
    let t = without_commas(raw);
    let whole = whole_part(t);
    let frac = fraction_part(t);
    if all_digits(whole) && all_digits(frac) && frac.len() <= 2 && whole.len() + frac.len() >= 1 {
        Some(
            decimal(whole) * 100 + if frac.len() == 1 {
                decimal(frac) * 10
            } else {
                decimal(frac)
            },
        )
    } else {
        None
    }
}

/// An amount as the library holds it: cut off at `PRICE_CEILING_CENTS`.
pub open spec fn capped(amount: Option<nat>) -> Option<u64> {
    match amount {
        None => None,
        Some(n) => Some(
            if n > PRICE_CEILING_CENTS {
                PRICE_CEILING_CENTS
            } else {
                n as u64
            },
        ),
    }
}

/// Whether `cents` lies in the accepted range of offers, both ends included.
pub open spec fn in_offer_range(cents: u64) -> bool {
    PRICE_MIN_CENTS <= cents <= PRICE_MAX_CENTS
}

/// Whether `cents` lies in the range accepted from storefront markup.
pub open spec fn in_vendor_range(cents: u64) -> bool {
    VENDOR_MIN_CENTS <= cents <= PRICE_MAX_CENTS
}

pub fn is_offer_price(cents: u64) -> (r: bool)
    ensures
        r == in_offer_range(cents),
{
    PRICE_MIN_CENTS <= cents && cents <= PRICE_MAX_CENTS
}

pub fn is_vendor_price(cents: u64) -> (r: bool)
    ensures
        r == in_vendor_range(cents),
{
    VENDOR_MIN_CENTS <= cents && cents <= PRICE_MAX_CENTS
}

/// A run of digits denotes at least what each of its beginnings denotes.
pub proof fn lemma_decimal_monotone(s: Seq<u8>, k: int)
    requires
        all_digits(s),
        0 <= k <= s.len(),
    ensures
        decimal(s.take(k)) <= decimal(s),
    decreases s.len(),
{
    if k == s.len() {
        assert(s.take(k) =~= s);
    } else {
        let shorter = s.drop_last();
        assert(is_digit(s[s.len() - 1]));
        assert forall|i: int| 0 <= i < shorter.len() implies is_digit(#[trigger] shorter[i]) by {
            assert(shorter[i] == s[i]);
        }
        lemma_decimal_monotone(shorter, k);
        assert(shorter.take(k) =~= s.take(k));
    }
}

proof fn lemma_dot_position(s: Seq<u8>, k: int)
    requires
        0 <= k <= s.len(),
        forall|i: int| 0 <= i < k ==> s[i] != 0x2e,
        k == s.len() || s[k] == 0x2e,
    ensures
        dot_position(s) == k,
    decreases k,
{
    if k > 0 {
        let rest = s.skip(1);
        assert forall|i: int| 0 <= i < k - 1 implies rest[i] != 0x2e by {
            assert(rest[i] == s[i + 1]);
        }
        lemma_dot_position(rest, k - 1);
    }
}

fn strip_commas(raw: &[u8]) -> (t: Vec<u8>)
    ensures
        t@ == without_commas(raw@),
{
    let mut t: Vec<u8> = Vec::new();
    let mut i: usize = 0;
    proof {
        assert(raw@.take(0) =~= Seq::<u8>::empty());
    }
    while i < raw.len()
        invariant
            0 <= i <= raw.len(),
            t@ == without_commas(raw@.take(i as int)),
        decreases raw.len() - i,
    {
        proof {
            assert(raw@.take(i + 1).drop_last() =~= raw@.take(i as int));
        }
        if raw[i] != 0x2c {
            t.push(raw[i]);
        }
        i += 1;
    }
    proof {
        assert(raw@.take(raw@.len() as int) =~= raw@);
    }
    t
}

/// Reads a run of digits `t[from..to]`, cutting the number off at the ceiling.
fn read_digits(t: &Vec<u8>, from: usize, to: usize) -> (r: Option<u64>)
    requires
        from <= to <= t@.len(),
    ensures
        r.is_some() == all_digits(t@.subrange(from as int, to as int)),
        r.is_some() ==> r.unwrap() as nat == if decimal(t@.subrange(from as int, to as int))
            > PRICE_CEILING_CENTS {
            PRICE_CEILING_CENTS as nat
        } else {
            decimal(t@.subrange(from as int, to as int))
        },
{
    let mut acc: u64 = 0;
    let mut i: usize = from;
    let ghost run = t@.subrange(from as int, to as int);
    while i < to
        invariant
            from <= i <= to <= t@.len(),
            run == t@.subrange(from as int, to as int),
            all_digits(run.take(i - from)),
            acc <= PRICE_CEILING_CENTS,
            acc as nat == if decimal(run.take(i - from)) > PRICE_CEILING_CENTS {
                PRICE_CEILING_CENTS as nat
            } else {
                decimal(run.take(i - from))
            },
        decreases to - i,
    {
        let b: u8 = t[i];
        if b < 0x30 || b > 0x39 {
            proof {
                assert(run[i - from] == b);
            }
            return None;
        }
        proof {
            let next = run.take(i - from + 1);
            assert(next.drop_last() =~= run.take(i - from));
            assert(next.last() == b);
            assert forall|k: int| 0 <= k < next.len() implies is_digit(#[trigger] next[k]) by {
                if k < i - from {
                    assert(next[k] == run.take(i - from)[k]);
                }
            }
        }
        let d: u64 = (b - 0x30) as u64;
        let wide: u64 = acc * 10 + d;
        acc = if wide > PRICE_CEILING_CENTS {
            PRICE_CEILING_CENTS
        } else {
            wide
        };
        i += 1;
    }
    proof {
        assert(run.take(to - from) =~= run);
    }
    Some(acc)
}

/// Reads a price in decimal notation as whole cents.
///
/// `None` where `raw` is no such number; an amount above the ceiling comes
/// back as the ceiling.
pub fn parse_price(raw: &str) -> (r: Option<u64>)
    ensures
        r == capped(price_cents(bytes_of(raw@))),
{
    parse_price_bytes(raw.as_bytes())
}

/// Reads a price in decimal notation, given as bytes, as whole cents.
pub fn parse_price_bytes(raw: &[u8]) -> (r: Option<u64>)
    ensures
        r == capped(price_cents(raw@)),
{
    let t = strip_commas(raw);
    let n: usize = t.len();
    let mut d: usize = 0;
    while d < n && t[d] != 0x2e
        invariant
            0 <= d <= n,
            n == t@.len(),
            forall|i: int| 0 <= i < d ==> t@[i] != 0x2e,
        decreases n - d,
    {
        d += 1;
    }
    proof {
        lemma_dot_position(t@, d as int);
        assert(whole_part(t@) =~= t@.subrange(0, d as int));
        if d < n {
            assert(fraction_part(t@) =~= t@.subrange(d + 1, n as int));
        } else {
            assert(fraction_part(t@) =~= t@.subrange(n as int, n as int));
        }
    }
    let frac_from: usize = if d < n {
        d + 1
    } else {
        n
    };
    let frac_len: usize = n - frac_from;
    if frac_len > 2 || d + frac_len == 0 {
        return None;
    }
    let whole = match read_digits(&t, 0, d) {
        Some(w) => w,
        None => {
            return None;
        },
    };
    let frac = match read_digits(&t, frac_from, n) {
        Some(f) => f,
        None => {
            return None;
        },
    };
    proof {
        let fr = t@.subrange(frac_from as int, n as int);
        if frac_len >= 1 {
            assert(is_digit(fr[0]));
            assert(fr.drop_last().len() == frac_len - 1);
            reveal_with_fuel(decimal, 3);
            if frac_len == 2 {
                assert(is_digit(fr[1]));
                assert(fr.drop_last().drop_last().len() == 0);
            }
            assert(decimal(fr) <= 99);
        } else {
            assert(decimal(fr) == 0);
        }
    }
    let minor: u64 = if frac_len == 1 {
        frac * 10
    } else {
        frac
    };
    let cents: u64 = whole * 100 + minor;
    if cents > PRICE_CEILING_CENTS {
        Some(PRICE_CEILING_CENTS)
    } else {
        Some(cents)
    }
}

} // verus!
