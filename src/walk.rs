//! The canonifier: a walk over the token queue that passes the input
//! through, except where a rule has a canonical spelling.
//!
//! The queue is flat and in pre-order: the tokens that follow token `i` and
//! start before it ends are its descendants. Input that lies inside a token
//! but in none of its children is literal text and is kept as it is.

use vstd::prelude::*;
use crate::fragment::{Frag, frag_text, frag_wf, push_span, push_all};
use crate::grammar::{
    ABC_EOL,
    BAD_TEXT_EXPRESSION,
    CHORD_NEWLINE,
    DIGITS,
    INVISIBLE_BARLINE,
    NOTE_LENGTH_BIGGER,
    NOTE_LENGTH_FULL,
    NOTE_LENGTH_SLASHES,
    NOTE_LENGTH_SMALLER,
    WSP,
};
use crate::peg::{Token, tokens_wf};
use crate::laws::{
    span_subtree,
    bounded_by,
    spans_between,
    subtree_end,
    keeps_span,
    childless,
    queue_shaped,
    leaf_shaped,
};
use crate::text::{
    denotes,
    decimal,
    pow2,
    trim_end,
    span_value,
    push_decimal,
    power_of_two,
    trim_end_in_place,
};

verus! {

/// The input bytes that token `i` matched.
pub open spec fn text_of(q: Seq<Token>, inp: Seq<u8>, i: int) -> Seq<u8> {
    inp.subrange(q[i].start as int, q[i].end as int)
}

/// Token `i + k` exists and is a run of digits.
pub open spec fn digits_at(q: Seq<Token>, i: int, k: int) -> bool {
    i + k < q.len() && q[i + k].rule == DIGITS
}

/// Canonical `N/M`, given the whole text `w`, the numerator `n` and the
/// denominator `d`.
pub open spec fn full_length(w: Seq<u8>, n: Seq<u8>, d: Seq<u8>) -> Seq<u8> {
    if denotes(n, 1) && denotes(d, 1) {
        Seq::empty()
    } else if denotes(d, 1) {
        n
    } else if denotes(n, 1) && denotes(d, 2) {
        seq![0x2f]
    } else if denotes(n, 1) && denotes(d, 4) {
        seq![0x2f, 0x2f]
    } else if denotes(n, 1) {
        seq![0x2f] + d
    } else {
        w
    }
}

/// Canonical `/M`, given the whole text `w` and the denominator `d`.
pub open spec fn smaller_length(w: Seq<u8>, d: Seq<u8>) -> Seq<u8> {
    if d == seq![0x32u8] {
        seq![0x2f]
    } else if d == seq![0x34u8] {
        seq![0x2f, 0x2f]
    } else {
        w
    }
}

/// Canonical bare multiplier `N`, given the whole text `w` and `N`.
pub open spec fn bigger_length(w: Seq<u8>, n: Seq<u8>) -> Seq<u8> {
    if n == seq![0x31u8] {
        Seq::empty()
    } else {
        w
    }
}

/// Canonical run of slashes: one or two stay, `k` of them become `/2^k`
/// while `2^k` fits in a `u64`.
pub open spec fn slashes(w: Seq<u8>) -> Seq<u8> {
    if w == seq![0x2fu8] || w == seq![0x2fu8, 0x2f] {
        w
    } else if w.len() < 64 {
        seq![0x2f] + decimal(pow2(w.len()))
    } else {
        w
    }
}

/// Canonical text of token `i` and its descendants, and the index of the
/// token after them.
pub open spec fn visit(q: Seq<Token>, inp: Seq<u8>, i: int) -> (Seq<u8>, int)
    decreases q.len() - i, 1nat,
{
    if 0 <= i < q.len() {
        let r = q[i].rule;
        if r == WSP {
            (seq![0x20], i + 1)
        } else if r == CHORD_NEWLINE {
            (seq![0x3b], i + 1)
        } else if r == INVISIBLE_BARLINE {
            if text_of(q, inp, i) == seq![0x5bu8, 0x5d] {
                (seq![0x5b, 0x7c, 0x5d], i + 1)
            } else {
                (text_of(q, inp, i), i + 1)
            }
        } else if r == NOTE_LENGTH_SLASHES {
            (slashes(text_of(q, inp, i)), i + 1)
        } else if r == NOTE_LENGTH_BIGGER && digits_at(q, i, 1) {
            (bigger_length(text_of(q, inp, i), text_of(q, inp, i + 1)), i + 2)
        } else if r == NOTE_LENGTH_SMALLER && digits_at(q, i, 1) {
            (smaller_length(text_of(q, inp, i), text_of(q, inp, i + 1)), i + 2)
        } else if r == NOTE_LENGTH_FULL && digits_at(q, i, 1) && digits_at(q, i, 2) {
            (
                full_length(text_of(q, inp, i), text_of(q, inp, i + 1), text_of(q, inp, i + 2)),
                i + 3,
            )
        } else if r == ABC_EOL {
            (trim_end(gather(q, inp, i).0), gather(q, inp, i).1)
        } else if r == BAD_TEXT_EXPRESSION {
            (seq![0x40] + gather(q, inp, i).0, gather(q, inp, i).1)
        } else {
            gather(q, inp, i)
        }
    } else {
        (Seq::empty(), i + 1)
    }
}

/// The default for token `i`: its text, with each child replaced by the
/// child's canonical text.
pub open spec fn gather(q: Seq<Token>, inp: Seq<u8>, i: int) -> (Seq<u8>, int)
    decreases q.len() - i, 0nat,
{
    if 0 <= i < q.len() {
        gather_from(q, inp, i, i + 1, q[i].start as int)
    } else {
        (Seq::empty(), i + 1)
    }
}

/// The rest of `gather(q, inp, i)` from child `j` on, the input before
/// `cursor` having been dealt with.
pub open spec fn gather_from(q: Seq<Token>, inp: Seq<u8>, i: int, j: int, cursor: int) -> (
    Seq<u8>,
    int,
)
    decreases q.len() - j, 2nat,
{
    if 0 <= i < j < q.len() && q[j].start < q[i].end {
        let pre = if cursor < q[j].start {
            inp.subrange(cursor, q[j].start as int)
        } else {
            Seq::empty()
        };
        let (t, nj) = visit(q, inp, j);
        if j < nj <= q.len() {
            let (rest, k) = gather_from(q, inp, i, nj, q[j].end as int);
            (pre + t + rest, k)
        } else {
            (pre + t, nj)
        }
    } else {
        (
            if cursor < q[i].end {
                inp.subrange(cursor, q[i].end as int)
            } else {
                Seq::empty()
            },
            j,
        )
    }
}

/// The canonical text of the top-level tokens from `i` on.
pub open spec fn walk_from(q: Seq<Token>, inp: Seq<u8>, i: int) -> Seq<u8>
    decreases q.len() - i,
{
    if 0 <= i < q.len() {
        let (t, ni) = visit(q, inp, i);
        if i < ni <= q.len() {
            t + walk_from(q, inp, ni)
        } else {
            t
        }
    } else {
        Seq::empty()
    }
}

/// The canonical text of a whole token queue.
pub open spec fn walk(q: Seq<Token>, inp: Seq<u8>) -> Seq<u8> {
    walk_from(q, inp, 0)
}

/// `inp[start..end]` is the one byte `a`.
fn span_is1(inp: &[u8], start: usize, end: usize, a: u8) -> (r: bool)
    requires
        start <= end <= inp@.len(),
    ensures
        r == (inp@.subrange(start as int, end as int) == seq![a]),
{
    let ghost sub = inp@.subrange(start as int, end as int);
    let ghost want = seq![a];
    assert(want.len() == 1 && want[0] == a);
    if end - start == 1 && inp[start] == a {
        assert(sub =~= want);
        true
    } else {
        if end - start == 1 {
            assert(sub[0] != want[0]);
        } else {
            assert(sub.len() != want.len());
        }
        false
    }
}

/// `inp[start..end]` is the two bytes `a b`.
fn span_is2(inp: &[u8], start: usize, end: usize, a: u8, b: u8) -> (r: bool)
    requires
        start <= end <= inp@.len(),
    ensures
        r == (inp@.subrange(start as int, end as int) == seq![a, b]),
{
    let ghost sub = inp@.subrange(start as int, end as int);
    let ghost want = seq![a, b];
    assert(want.len() == 2 && want[0] == a && want[1] == b);
    if end - start == 2 && inp[start] == a && inp[start + 1] == b {
        assert(sub =~= want);
        true
    } else {
        if end - start == 2 {
            assert(sub[0] != want[0] || sub[1] != want[1]);
        } else {
            assert(sub.len() != want.len());
        }
        false
    }
}

fn owned1(a: u8) -> (r: Frag)
    ensures
        r is Owned,
        frag_text(r, Seq::empty()) == seq![a],
{
    let mut v: Vec<u8> = Vec::new();
    v.push(a);
    proof {
        assert(v@ =~= seq![a]);
    }
    Frag::Owned(v)
}

fn owned2(a: u8, b: u8) -> (r: Frag)
    ensures
        r is Owned,
        frag_text(r, Seq::empty()) == seq![a, b],
{
    let mut v: Vec<u8> = Vec::new();
    v.push(a);
    v.push(b);
    proof {
        assert(v@ =~= seq![a, b]);
    }
    Frag::Owned(v)
}

fn owned3(a: u8, b: u8, c: u8) -> (r: Frag)
    ensures
        r is Owned,
        frag_text(r, Seq::empty()) == seq![a, b, c],
{
    let mut v: Vec<u8> = Vec::new();
    v.push(a);
    v.push(b);
    v.push(c);
    proof {
        assert(v@ =~= seq![a, b, c]);
    }
    Frag::Owned(v)
}

/// Canonical form of a run of slashes in `inp[start..end]`.
fn rewrite_slashes(inp: &[u8], start: usize, end: usize) -> (r: Frag)
    requires
        start <= end <= inp@.len(),
    ensures
        frag_wf(r, inp@),
        frag_text(r, inp@) == slashes(inp@.subrange(start as int, end as int)),
        inp@.subrange(start as int, end as int) == seq![0x2fu8] || inp@.subrange(
            start as int,
            end as int,
        ) == seq![0x2fu8, 0x2f] ==> r == Frag::Slice(start, end),
{
    let k = end - start;
    if span_is1(inp, start, end, 0x2f) || span_is2(inp, start, end, 0x2f, 0x2f) || k >= 64 {
        Frag::Slice(start, end)
    } else {
        let mut v: Vec<u8> = Vec::new();
        v.push(0x2f);
        push_decimal(&mut v, power_of_two(k as u32));
        Frag::Owned(v)
    }
}

/// Canonical form of `N/M`: the whole in `w`, `N` in `n`, `M` in `d`.
fn rewrite_full(inp: &[u8], w: Token, n: Token, d: Token) -> (r: Frag)
    requires
        w.start <= w.end <= inp@.len(),
        n.start <= n.end <= inp@.len(),
        d.start <= d.end <= inp@.len(),
    ensures
        frag_wf(r, inp@),
        frag_text(r, inp@) == full_length(
            inp@.subrange(w.start as int, w.end as int),
            inp@.subrange(n.start as int, n.end as int),
            inp@.subrange(d.start as int, d.end as int),
        ),
{
    let nv = span_value(inp, n.start, n.end);
    let dv = span_value(inp, d.start, d.end);
    let n_one = nv == Some(1u64);
    let d_one = dv == Some(1u64);
    if n_one && d_one {
        Frag::Slice(d.end, d.end)
    } else if d_one {
        Frag::from_token(&n)
    } else if n_one && dv == Some(2u64) {
        owned1(0x2f)
    } else if n_one && dv == Some(4u64) {
        owned2(0x2f, 0x2f)
    } else if n_one {
        if d.start > 0 && inp[d.start - 1] == 0x2f {
            proof {
                assert(inp@.subrange(d.start - 1, d.end as int) =~= seq![0x2fu8] + inp@.subrange(
                    d.start as int,
                    d.end as int,
                ));
            }
            Frag::Slice(d.start - 1, d.end)
        } else {
            let mut v: Vec<u8> = Vec::new();
            v.push(0x2f);
            push_span(&mut v, inp, d.start, d.end);
            proof {
                assert(v@ =~= seq![0x2fu8] + inp@.subrange(d.start as int, d.end as int));
            }
            Frag::Owned(v)
        }
    } else {
        Frag::from_token(&w)
    }
}

/// The canonical text of token `i` and its descendants, and the index of
/// the token after them.
fn ruler_canonify_abc(q: &Vec<Token>, inp: &[u8], i: usize) -> (r: (Frag, usize))
    requires
        tokens_wf(q@, inp@.len()),
        i < q@.len(),
    ensures
        frag_wf(r.0, inp@),
        frag_text(r.0, inp@) == visit(q@, inp@, i as int).0,
        r.1 == visit(q@, inp@, i as int).1,
        i < r.1 <= q@.len(),
        q@[i as int].rule == WSP && text_of(q@, inp@, i as int) == seq![0x20u8] ==> r.0
            == Frag::Slice(q@[i as int].start, q@[i as int].end),
        q@[i as int].rule == INVISIBLE_BARLINE && text_of(q@, inp@, i as int) != seq![0x5bu8, 0x5d]
            ==> r.0 == Frag::Slice(q@[i as int].start, q@[i as int].end),
        span_subtree(q@, inp@, i as int) ==> r.0 == Frag::Slice(q@[i as int].start, q@[i as int].end)
            && subtree_end(q@, i as int, r.1 as int),
        queue_shaped(q@) ==> subtree_end(q@, i as int, r.1 as int),
    decreases q@.len() - i, 1nat,
{
    let qlen = q.len();
    let t = q[i];
    let r = t.rule;
    proof {
        assert(t.start <= t.end <= inp@.len());
        if span_subtree(q@, inp@, i as int) {
            let e = choose|e: int| bounded_by(q@, i as int, e) && spans_between(q@, inp@, i as int, e);
            assert(keeps_span(q@, inp@, i as int));
        }
        if queue_shaped(q@) {
            assert(leaf_shaped(q@, i as int));
            assert(q@[i as int] == t);
        }
    }
    if r == WSP {
        if span_is1(inp, t.start, t.end, 0x20) {
            (Frag::from_token(&t), i + 1)
        } else {
            (owned1(0x20), i + 1)
        }
    } else if r == CHORD_NEWLINE {
        (owned1(0x3b), i + 1)
    } else if r == INVISIBLE_BARLINE {
        if span_is2(inp, t.start, t.end, 0x5b, 0x5d) {
            (owned3(0x5b, 0x7c, 0x5d), i + 1)
        } else {
            (Frag::from_token(&t), i + 1)
        }
    } else if r == NOTE_LENGTH_SLASHES {
        (rewrite_slashes(inp, t.start, t.end), i + 1)
    } else if r == NOTE_LENGTH_BIGGER && i + 1 < qlen && q[i + 1].rule == DIGITS {
        let n = q[i + 1];
        proof {
            assert(n.start <= n.end <= inp@.len());
        }
        if span_is1(inp, n.start, n.end, 0x31) {
            (Frag::Slice(n.end, n.end), i + 2)
        } else {
            (Frag::from_token(&t), i + 2)
        }
    } else if r == NOTE_LENGTH_SMALLER && i + 1 < qlen && q[i + 1].rule == DIGITS {
        let d = q[i + 1];
        proof {
            assert(d.start <= d.end <= inp@.len());
        }
        if span_is1(inp, d.start, d.end, 0x32) {
            (owned1(0x2f), i + 2)
        } else if span_is1(inp, d.start, d.end, 0x34) {
            (owned2(0x2f, 0x2f), i + 2)
        } else {
            (Frag::from_token(&t), i + 2)
        }
    } else if r == NOTE_LENGTH_FULL && qlen - i > 2 && q[i + 1].rule == DIGITS && q[i
        + 2].rule == DIGITS {
        let n = q[i + 1];
        let d = q[i + 2];
        proof {
            assert(n.start <= n.end <= inp@.len());
            assert(d.start <= d.end <= inp@.len());
        }
        (rewrite_full(inp, t, n, d), i + 3)
    } else if r == ABC_EOL {
        let (f, ni) = gather_children(q, inp, i);
        let mut v: Vec<u8> = Vec::new();
        append_frag(&mut v, f, inp);
        proof {
            assert(v@ =~= frag_text(f, inp@));
        }
        trim_end_in_place(&mut v);
        (Frag::Owned(v), ni)
    } else if r == BAD_TEXT_EXPRESSION {
        let (f, ni) = gather_children(q, inp, i);
        (owned1(0x40).add(f, inp), ni)
    } else {
        gather_children(q, inp, i)
    }
}

/// The default for token `i`: its text, with each child replaced by the
/// child's canonical text.
fn gather_children(q: &Vec<Token>, inp: &[u8], i: usize) -> (r: (Frag, usize))
    requires
        tokens_wf(q@, inp@.len()),
        i < q@.len(),
    ensures
        frag_wf(r.0, inp@),
        frag_text(r.0, inp@) == gather(q@, inp@, i as int).0,
        r.1 == gather(q@, inp@, i as int).1,
        i < r.1 <= q@.len(),
        !(i + 1 < q@.len() && q@[i + 1].start < q@[i as int].end) ==> r.0 == Frag::Slice(
            q@[i as int].start,
            q@[i as int].end,
        ) && r.1 == i + 1,
        span_subtree(q@, inp@, i as int) ==> r.0 == Frag::Slice(q@[i as int].start, q@[i as int].end)
            && subtree_end(q@, i as int, r.1 as int),
        queue_shaped(q@) ==> subtree_end(q@, i as int, r.1 as int),
    decreases q@.len() - i, 0nat,
{
    let qlen = q.len();
    let p = q[i];
    proof {
        assert(p.start <= p.end <= inp@.len());
        assert(inp@.subrange(p.start as int, p.start as int) =~= Seq::<u8>::empty());
    }
    let ghost plain = span_subtree(q@, inp@, i as int);
    let ghost e: int = if plain {
        choose|e: int| bounded_by(q@, i as int, e) && spans_between(q@, inp@, i as int, e)
    } else {
        0
    };
    let mut acc = Frag::Slice(p.start, p.start);
    let mut cursor = p.start;
    let mut j = i + 1;
    proof {
        if plain && i + 1 < q@.len() {
            assert(q@[i as int].start <= q@[i + 1].start);
        }
    }
    while j < qlen && q[j].start < p.end
        invariant
            tokens_wf(q@, inp@.len()),
            i < q@.len(),
            p == q@[i as int],
            qlen == q@.len(),
            j == i + 1 ==> acc == Frag::Slice(p.start, p.start) && cursor == p.start,
            plain ==> span_subtree(q@, inp@, i as int) && bounded_by(q@, i as int, e) && spans_between(q@, inp@,
                i as int,
                e,
            ),
            plain ==> acc == Frag::Slice(p.start, cursor) && p.start <= cursor <= p.end && j <= e,
            plain ==> forall|k: int| i < k < j ==> (#[trigger] q@[k]).start < p.end,
            queue_shaped(q@) ==> forall|k: int| i < k < j ==> (#[trigger] q@[k]).start < p.end,
            plain ==> (j < q@.len() && q@[j as int].start < p.end ==> cursor <= q@[j as int].start),
            i < j <= q@.len(),
            cursor <= inp@.len(),
            frag_wf(acc, inp@),
            frag_text(acc, inp@) + gather_from(q@, inp@, i as int, j as int, cursor as int).0
                == gather(q@, inp@, i as int).0,
            gather_from(q@, inp@, i as int, j as int, cursor as int).1 == gather(
                q@,
                inp@,
                i as int,
            ).1,
        decreases q@.len() - j,
    {
        let c = q[j];
        proof {
            assert(c.start <= c.end <= inp@.len());
        }
        let ghost acc0 = frag_text(acc, inp@);
        let ghost pre = if cursor < c.start {
            inp@.subrange(cursor as int, c.start as int)
        } else {
            Seq::empty()
        };
        if cursor < c.start {
            acc = acc.add(Frag::from_slice(cursor, c.start), inp);
        }
        assert(frag_text(acc, inp@) == acc0 + pre);
        proof {
            if plain {
                if j >= e {
                    if j > e {
                        assert(q@[e].start >= p.end);
                    }
                    assert(false);
                }
                assert(c.end <= p.end);
                if e < q@.len() {
                    assert(q@[e].start >= c.end);
                }
                assert(bounded_by(q@, j as int, e) && spans_between(q@, inp@, j as int, e));
                assert(span_subtree(q@, inp@, j as int));
            }
        }
        let ghost acc1 = acc;
        let (t, nj) = ruler_canonify_abc(q, inp, j);
        acc = acc.add(t, inp);
        proof {
            let rest = gather_from(q@, inp@, i as int, nj as int, c.end as int).0;
            assert(acc0 + (pre + frag_text(t, inp@) + rest) =~= acc0 + pre + frag_text(t, inp@)
                + rest);
        }
        proof {
            if queue_shaped(q@) {
                assert(c.end <= p.end);
                assert forall|k: int| i < k < nj implies (#[trigger] q@[k]).start < p.end by {
                    if j < k {
                        assert(q@[k].start < c.end);
                    }
                }
            }
            if plain {
                assert(acc1 == Frag::Slice(p.start, c.start));
                assert(acc == Frag::Slice(p.start, c.end));
                assert forall|k: int| i < k < nj implies (#[trigger] q@[k]).start < p.end by {
                    if j < k {
                        assert(q@[k].start < c.end);
                    }
                }
                if nj > e {
                    assert(q@[e].start < c.end);
                }
            }
        }
        cursor = c.end;
        j = nj;
    }
    let ghost acc0 = frag_text(acc, inp@);
    if cursor < p.end {
        acc = acc.add(Frag::from_slice(cursor, p.end), inp);
    } else {
        assert(acc0 + Seq::<u8>::empty() =~= acc0);
    }
    (acc, j)
}

/// Appends the text of `f` to `out`.
fn append_frag(out: &mut Vec<u8>, f: Frag, inp: &[u8])
    requires
        frag_wf(f, inp@),
    ensures
        final(out)@ == old(out)@ + frag_text(f, inp@),
{
    match f {
        Frag::Slice(s, e) => push_span(out, inp, s, e),
        Frag::Owned(v) => push_all(out, v.as_slice()),
    }
}

/// Walks the top-level tokens of `q` in turn, appending the canonical text
/// of each with its descendants.
pub fn visit_parse_tree(inp: &[u8], q: &Vec<Token>) -> (r: Vec<u8>)
    requires
        tokens_wf(q@, inp@.len()),
    ensures
        r@ == walk(q@, inp@),
{
    let mut out: Vec<u8> = Vec::new();
    let mut i: usize = 0;
    while i < q.len()
        invariant
            tokens_wf(q@, inp@.len()),
            i <= q@.len(),
            out@ + walk_from(q@, inp@, i as int) == walk(q@, inp@),
        decreases q@.len() - i,
    {
        let ghost out0 = out@;
        let (f, ni) = ruler_canonify_abc(q, inp, i);
        append_frag(&mut out, f, inp);
        proof {
            assert(out0 + (frag_text(f, inp@) + walk_from(q@, inp@, ni as int)) =~= out0
                + frag_text(f, inp@) + walk_from(q@, inp@, ni as int));
        }
        i = ni;
    }
    proof {
        assert(out@ + Seq::<u8>::empty() =~= out@);
    }
    out
}

/// The canonical text of the line `inp`, given its token queue `q`.
pub fn canonify_abc_visitor(inp: &[u8], q: &Vec<Token>) -> (r: Vec<u8>)
    requires
        tokens_wf(q@, inp@.len()),
    ensures
        r@ == walk(q@, inp@),
{
    visit_parse_tree(inp, q)
}

} // verus!
