//! Output fragments: either a span of the input or an owned byte string.
//! Concatenating two adjacent spans yields a span again, so text that passes
//! through unchanged is never copied.

use vstd::prelude::*;
use vstd::string::StringSliceAdditionalSpecFns;
use crate::peg::Token;

verus! {

/// A piece of output text, relative to one fixed input.
pub enum Frag {
    /// The input bytes in `[start, end)`.
    Slice(usize, usize),
    /// Bytes that are not a span of the input.
    Owned(Vec<u8>),
}

/// The bytes that a fragment stands for.
pub open spec fn frag_text(f: Frag, inp: Seq<u8>) -> Seq<u8> {
    match f {
        Frag::Slice(s, e) => inp.subrange(s as int, e as int),
        Frag::Owned(v) => v@,
    }
}

/// A span fragment lies within the input.
pub open spec fn frag_wf(f: Frag, inp: Seq<u8>) -> bool {
    match f {
        Frag::Slice(s, e) => s <= e && e <= inp.len(),
        Frag::Owned(_) => true,
    }
}

/// Appends the input bytes `[start, end)` to `out`.
pub fn push_span(out: &mut Vec<u8>, inp: &[u8], start: usize, end: usize)
    requires
        start <= end <= inp@.len(),
    ensures
        final(out)@ == old(out)@ + inp@.subrange(start as int, end as int),
{
    let mut k: usize = start;
    while k < end
        invariant
            start <= k <= end <= inp@.len(),
            out@ == old(out)@ + inp@.subrange(start as int, k as int),
        decreases end - k,
    {
        out.push(inp[k]);
        proof {
            assert(inp@.subrange(start as int, k + 1) == inp@.subrange(start as int, k as int).push(
                inp@[k as int],
            ));
        }
        k = k + 1;
    }
}

/// Appends all of `src` to `out`.
pub fn push_all(out: &mut Vec<u8>, src: &[u8])
    ensures
        final(out)@ == old(out)@ + src@,
{
    push_span(out, src, 0, src.len());
    proof {
        assert(src@.subrange(0, src@.len() as int) == src@);
    }
}

impl Frag {
    /// The span `[start, end)` of the input.
    pub fn from_slice(start: usize, end: usize) -> (r: Frag)
        ensures
            r == Frag::Slice(start, end),
    {
        Frag::Slice(start, end)
    }

    /// The span that token `t` matched.
    pub fn from_token(t: &Token) -> (r: Frag)
        ensures
            r == Frag::Slice(t.start, t.end),
    {
        Frag::Slice(t.start, t.end)
    }

    /// An owned copy of the bytes of `s`.
    pub fn from_str(s: &str) -> (r: Frag)
        ensures
            r matches Frag::Owned(v) && v@ == s.spec_bytes(),
    {
        let mut v: Vec<u8> = Vec::new();
        push_all(&mut v, s.as_bytes());
        Frag::Owned(v)
    }

    /// The bytes of this fragment as an owned vector.
    pub fn to_bytes(self, inp: &[u8]) -> (r: Vec<u8>)
        requires
            frag_wf(self, inp@),
        ensures
            r@ == frag_text(self, inp@),
    {
        match self {
            Frag::Slice(s, e) => {
                let mut v: Vec<u8> = Vec::new();
                push_span(&mut v, inp, s, e);
                v
            },
            Frag::Owned(v) => v,
        }
    }

    /// Concatenation. Two spans that meet coalesce into one span; any other
    /// combination is materialized as an owned string.
    pub fn add(self, other: Frag, inp: &[u8]) -> (r: Frag)
        requires
            frag_wf(self, inp@),
            frag_wf(other, inp@),
        ensures
            frag_wf(r, inp@),
            frag_text(r, inp@) == frag_text(self, inp@) + frag_text(other, inp@),
            (self, other) matches (Frag::Slice(a, b), Frag::Slice(c, d)) ==> (b == c <==> r
                == Frag::Slice(a, d)),
            (r is Slice) <==> ((self, other) matches (Frag::Slice(a, b), Frag::Slice(c, d)) && b
                == c),
    {
        match (self, other) {
            (Frag::Slice(a, b), Frag::Slice(c, d)) => {
                if b == c {
                    proof {
                        assert(inp@.subrange(a as int, d as int) == inp@.subrange(a as int, b as int)
                            + inp@.subrange(c as int, d as int));
                    }
                    Frag::Slice(a, d)
                } else {
                    let mut v: Vec<u8> = Vec::new();
                    push_span(&mut v, inp, a, b);
                    push_span(&mut v, inp, c, d);
                    Frag::Owned(v)
                }
            },
            (Frag::Slice(a, b), Frag::Owned(w)) => {
                let mut v: Vec<u8> = Vec::new();
                push_span(&mut v, inp, a, b);
                push_all(&mut v, w.as_slice());
                Frag::Owned(v)
            },
            (Frag::Owned(mut v), Frag::Slice(c, d)) => {
                push_span(&mut v, inp, c, d);
                Frag::Owned(v)
            },
            (Frag::Owned(mut v), Frag::Owned(w)) => {
                push_all(&mut v, w.as_slice());
                Frag::Owned(v)
            },
        }
    }
}

} // verus!
