//! Byte-string helpers with their mathematical meaning: decimal numerals,
//! powers of two, and trailing blanks.

use vstd::prelude::*;

verus! {

pub open spec fn is_digit(b: u8) -> bool {
    0x30 <= b <= 0x39
}

/// `s` is a non-empty run of decimal digits.
pub open spec fn is_numeral(s: Seq<u8>) -> bool {
    s.len() > 0 && forall|k: int| 0 <= k < s.len() ==> is_digit(#[trigger] s[k])
}

/// The value of the numeral `s`, read in base ten.
pub open spec fn numeral_value(s: Seq<u8>) -> int
    decreases s.len(),
{
    if s.len() == 0 {
        0
    } else {
        numeral_value(s.drop_last()) * 10 + (s.last() - 0x30)
    }
}

/// `s` is a numeral whose value is `v`.
pub open spec fn denotes(s: Seq<u8>, v: int) -> bool {
    is_numeral(s) && numeral_value(s) == v
}

/// The decimal numeral of `n`, without leading zeros.
pub open spec fn decimal(n: nat) -> Seq<u8>
    decreases n,
{
    if n < 10 {
        seq![(0x30 + n) as u8]
    } else {
        decimal(n / 10) + seq![(0x30 + n % 10) as u8]
    }
}

pub open spec fn pow2(k: nat) -> nat
    decreases k,
{
    if k == 0 {
        1
    } else {
        2 * pow2((k - 1) as nat)
    }
}

pub open spec fn is_blank(b: u8) -> bool {
    b == 0x20 || b == 0x09
}

/// `s` without its trailing spaces and tabs.
pub open spec fn trim_end(s: Seq<u8>) -> Seq<u8>
    decreases s.len(),
{
    if s.len() > 0 && is_blank(s.last()) {
        trim_end(s.drop_last())
    } else {
        s
    }
}

proof fn lemma_numeral_prefix(s: Seq<u8>, k: int)
    requires
        0 <= k < s.len(),
    ensures
        numeral_value(s.subrange(0, k + 1)) == numeral_value(s.subrange(0, k)) * 10 + (s[k] - 0x30),
{
    assert(s.subrange(0, k + 1).drop_last() =~= s.subrange(0, k));
}

/// The value of the numeral `inp[start..end]`, or `None` where that span is
/// not a numeral or its value does not fit in a `u64`.
pub fn span_value(inp: &[u8], start: usize, end: usize) -> (r: Option<u64>)
    requires
        start <= end <= inp@.len(),
    ensures
        match r {
            Some(v) => denotes(inp@.subrange(start as int, end as int), v as int),
            None => !(is_numeral(inp@.subrange(start as int, end as int)) && numeral_value(
                inp@.subrange(start as int, end as int),
            ) <= u64::MAX),
        },
{
    let ghost s = inp@.subrange(start as int, end as int);
    if start == end {
        return None;
    }
    let mut acc: u64 = 0;
    let mut big = false;
    let mut k: usize = start;
    while k < end
        invariant
            start <= k <= end <= inp@.len(),
            s == inp@.subrange(start as int, end as int),
            forall|j: int| 0 <= j < k - start ==> is_digit(#[trigger] s[j]),
            numeral_value(s.subrange(0, k - start)) >= 0,
            !big ==> numeral_value(s.subrange(0, k - start)) == acc,
            big ==> numeral_value(s.subrange(0, k - start)) > u64::MAX,
        decreases end - k,
    {
        let b = inp[k];
        if b < 0x30 || b > 0x39 {
            proof {
                assert(!is_digit(s[k - start]));
            }
            return None;
        }
        let d = (b - 0x30) as u64;
        proof {
            lemma_numeral_prefix(s, k - start);
        }
        let ghost prev = numeral_value(s.subrange(0, k - start));
        if !big {
            if acc > (u64::MAX - d) / 10 {
                big = true;
                assert(prev * 10 + d > u64::MAX) by (nonlinear_arith)
                    requires
                        prev == acc,
                        acc > (u64::MAX - d) / 10,
                        d <= 9,
                ;
            } else {
                assert(acc * 10 + d <= u64::MAX) by (nonlinear_arith)
                    requires
                        acc <= (u64::MAX - d) / 10,
                        d <= 9,
                ;
                acc = acc * 10 + d;
            }
        } else {
            assert(prev * 10 + d > u64::MAX) by (nonlinear_arith)
                requires
                    prev > u64::MAX,
                    d <= 9,
            ;
        }
        k = k + 1;
    }
    proof {
        assert(s.subrange(0, end - start) =~= s);
    }
    if big {
        None
    } else {
        Some(acc)
    }
}

/// Appends the decimal numeral of `n` to `out`.
pub fn push_decimal(out: &mut Vec<u8>, n: u64)
    ensures
        final(out)@ == old(out)@ + decimal(n as nat),
    decreases n,
{
    if n < 10 {
        out.push((0x30 + n) as u8);
        proof {
            assert(old(out)@ + decimal(n as nat) =~= old(out)@.push((0x30 + n) as u8));
        }
    } else {
        push_decimal(out, n / 10);
        out.push((0x30 + n % 10) as u8);
        proof {
            assert(old(out)@ + decimal(n as nat) =~= old(out)@ + decimal((n / 10) as nat)
                + seq![(0x30 + n % 10) as u8]);
        }
    }
}

/// `2` to the power `k`.
pub fn power_of_two(k: u32) -> (r: u64)
    requires
        k < 64,
    ensures
        r == pow2(k as nat),
{
    let mut v: u64 = 1;
    let mut j: u64 = 0;
    proof {
        assert(1u64 == 1u64 << 0u64) by (bit_vector);
    }
    while j < k as u64
        invariant
            j <= k < 64,
            v == pow2(j as nat),
            v == 1u64 << j,
        decreases k - j,
    {
        proof {
            assert((1u64 << j) <= 0x4000_0000_0000_0000u64) by (bit_vector)
                requires
                    j <= 62,
            ;
            assert((1u64 << j) * 2 == 1u64 << (j + 1)) by (bit_vector)
                requires
                    j <= 62,
            ;
        }
        v = v * 2;
        j = j + 1;
    }
    v
}

/// Drops the spaces and tabs at the end of `v`.
pub fn trim_end_in_place(v: &mut Vec<u8>)
    ensures
        final(v)@ == trim_end(old(v)@),
{
    loop
        invariant
            trim_end(v@) == trim_end(old(v)@),
        decreases v@.len(),
    {
        let n = v.len();
        if n > 0 && (v[n - 1] == 0x20 || v[n - 1] == 0x09) {
            v.pop();
            proof {
                assert(old(v)@.len() >= 0);
            }
        } else {
            return;
        }
    }
}

} // verus!
