//! The token queue of a successful parse is laid out in pre-order, nested
//! like the rule invocations that made it.

use vstd::prelude::*;
use crate::peg::{
    Pe,
    PegSt,
    Res,
    RuleDef,
    Token,
    eval,
    star,
    restore,
    st_wf,
    tokens_wf,
    lemma_eval_wf,
    lemma_star_wf,
    peg_parse,
    init_st,
    MAX_DEPTH,
};

verus! {

/// The tokens from index `a` on are laid out in pre-order: starts never
/// decrease, a token that starts inside an earlier one ends inside it, and
/// once a token starts at or after the end of an earlier one, so do all
/// later ones.
pub open spec fn seg_nested(q: Seq<Token>, a: int) -> bool {
    &&& forall|i: int, j: int|
        a <= i < j < q.len() ==> (#[trigger] q[i]).start <= (#[trigger] q[j]).start
    &&& forall|i: int, j: int|
        a <= i < j < q.len() && (#[trigger] q[j]).start < (#[trigger] q[i]).end ==> q[j].end
            <= q[i].end
    &&& forall|i: int, j: int, k: int|
        a <= i < j < k < q.len() && (#[trigger] q[j]).start >= (#[trigger] q[i]).end ==> (
        #[trigger] q[k]).start >= q[i].end
}

/// The whole queue is laid out in pre-order.
pub open spec fn queue_nested(q: Seq<Token>) -> bool {
    seg_nested(q, 0)
}

/// The tokens from index `a` on lie within `[lo, hi]`.
pub open spec fn seg_within(q: Seq<Token>, a: int, lo: int, hi: int) -> bool {
    forall|k: int| a <= k < q.len() ==> lo <= (#[trigger] q[k]).start && q[k].end <= hi
}

/// `t` begins with `s`.
pub open spec fn prefix_kept(t: Seq<Token>, s: Seq<Token>) -> bool {
    s.len() <= t.len() && forall|k: int| 0 <= k < s.len() ==> #[trigger] t[k] == s[k]
}

proof fn lemma_restore_prefix(t: PegSt, s: PegSt)
    requires
        prefix_kept(t.toks, s.toks),
    ensures
        restore(t, s.pos, s.toks.len()).toks == s.toks,
{
    assert(restore(t, s.pos, s.toks.len()).toks =~= s.toks);
}

/// Two runs of tokens, one after the other in position, form one run.
proof fn lemma_combine(a: Seq<Token>, t: Seq<Token>, n0: int, pos0: int, pa: int, pb: int, n: nat)
    requires
        0 <= n0 <= a.len(),
        seg_nested(a, n0),
        seg_within(a, n0, pos0, pa),
        prefix_kept(t, a),
        seg_nested(t, a.len() as int),
        seg_within(t, a.len() as int, pa, pb),
        tokens_wf(t, n),
        pos0 <= pa <= pb,
    ensures
        seg_nested(t, n0),
        seg_within(t, n0, pos0, pb),
{
    let m = a.len() as int;
    assert forall|i: int, j: int| n0 <= i < j < t.len() implies (#[trigger] t[i]).start <= (
    #[trigger] t[j]).start by {
        if j < m {
            assert(t[i] == a[i] && t[j] == a[j]);
        } else if i < m {
            assert(t[i] == a[i]);
            assert(a[i].start <= a[i].end);
        }
    }
    assert forall|i: int, j: int|
        n0 <= i < j < t.len() && (#[trigger] t[j]).start < (#[trigger] t[i]).end implies t[j].end
        <= t[i].end by {
        if j < m {
            assert(t[i] == a[i] && t[j] == a[j]);
        } else if i < m {
            assert(t[i] == a[i]);
        }
    }
    assert forall|i: int, j: int, k: int|
        n0 <= i < j < k < t.len() && (#[trigger] t[j]).start >= (#[trigger] t[i]).end implies (
        #[trigger] t[k]).start >= t[i].end by {
        if k < m {
            assert(t[i] == a[i] && t[j] == a[j] && t[k] == a[k]);
        } else if i < m {
            assert(t[i] == a[i]);
        }
    }
    assert forall|k: int| n0 <= k < t.len() implies pos0 <= (#[trigger] t[k]).start && t[k].end
        <= pb by {
        if k < m {
            assert(t[k] == a[k]);
        }
    }
}

/// Evaluation keeps the tokens it was given, and on a match the tokens it
/// added are in pre-order and lie between the old and the new position.
pub proof fn lemma_eval_nested(g: Seq<RuleDef>, e: Pe, inp: Seq<u8>, s: PegSt, depth: nat)
    requires
        st_wf(s, inp.len()),
        inp.len() <= usize::MAX,
    ensures
        prefix_kept(eval(g, e, inp, s, depth).1.toks, s.toks),
        eval(g, e, inp, s, depth).0 is Matched ==> seg_nested(
            eval(g, e, inp, s, depth).1.toks,
            s.toks.len() as int,
        ) && seg_within(
            eval(g, e, inp, s, depth).1.toks,
            s.toks.len() as int,
            s.pos as int,
            eval(g, e, inp, s, depth).1.pos as int,
        ),
    decreases depth, e, 0nat, 0nat,
{
    let n0 = s.toks.len() as int;
    lemma_eval_wf(g, e, inp, s, depth);
    match e {
        Pe::Cat(a, b) => {
            lemma_eval_nested(g, *a, inp, s, depth);
            lemma_eval_wf(g, *a, inp, s, depth);
            let (ra, sa) = eval(g, *a, inp, s, depth);
            if ra is Matched {
                lemma_eval_nested(g, *b, inp, sa, depth);
                lemma_eval_wf(g, *b, inp, sa, depth);
                let (rb, sb) = eval(g, *b, inp, sa, depth);
                if rb is Matched {
                    lemma_combine(sa.toks, sb.toks, n0, s.pos as int, sa.pos as int, sb.pos as int, inp.len());
                } else if rb is Failed {
                    lemma_restore_prefix(sb, s);
                }
            } else if ra is Failed {
                lemma_restore_prefix(sa, s);
            }
        },
        Pe::Alt(a, b) => {
            lemma_eval_nested(g, *a, inp, s, depth);
            lemma_eval_wf(g, *a, inp, s, depth);
            let (ra, sa) = eval(g, *a, inp, s, depth);
            if ra is Failed {
                let s2 = restore(sa, s.pos, s.toks.len());
                lemma_restore_prefix(sa, s);
                crate::peg::lemma_restore_wf(sa, s.pos, s.toks.len(), inp.len());
                lemma_eval_nested(g, *b, inp, s2, depth);
                let (rb, sb) = eval(g, *b, inp, s2, depth);
                if rb is Failed {
                    lemma_restore_prefix(sb, s);
                }
            }
        },
        Pe::Star(a) => {
            lemma_star_nested(g, *a, inp, s, depth);
        },
        Pe::Plus(a) => {
            lemma_eval_nested(g, *a, inp, s, depth);
            lemma_eval_wf(g, *a, inp, s, depth);
            let (ra, sa) = eval(g, *a, inp, s, depth);
            if ra is Matched {
                lemma_star_nested(g, *a, inp, sa, depth);
                lemma_star_wf(g, *a, inp, sa, depth);
                let (rs, ss) = star(g, *a, inp, sa, depth);
                if rs is Matched {
                    lemma_combine(sa.toks, ss.toks, n0, s.pos as int, sa.pos as int, ss.pos as int, inp.len());
                }
            } else if ra is Failed {
                lemma_restore_prefix(sa, s);
            }
        },
        Pe::Opt(a) => {
            lemma_eval_nested(g, *a, inp, s, depth);
            let (ra, sa) = eval(g, *a, inp, s, depth);
            if ra is Failed {
                lemma_restore_prefix(sa, s);
            }
        },
        Pe::Not(a) => {
            lemma_eval_nested(g, *a, inp, s, depth);
            let (ra, sa) = eval(g, *a, inp, s, depth);
            if !(ra is Exhausted) {
                lemma_restore_prefix(sa, s);
            }
        },
        Pe::Call(r) => {
            if r < g.len() && depth > 0 {
                let k = s.toks.len() as int;
                let tok = Token { rule: r, start: s.pos, end: s.pos };
                let s1 = PegSt { toks: s.toks.push(tok), ..s };
                assert forall|i: int| 0 <= i < s1.toks.len() implies (#[trigger] s1.toks[i]).start
                    <= s1.toks[i].end && s1.toks[i].end <= inp.len() by {
                    if i < k {
                        assert(s1.toks[i] == s.toks[i]);
                    }
                }
                lemma_eval_nested(g, g[r as int].body, inp, s1, (depth - 1) as nat);
                lemma_eval_wf(g, g[r as int].body, inp, s1, (depth - 1) as nat);
                let (rr, sr) = eval(g, g[r as int].body, inp, s1, (depth - 1) as nat);
                assert(sr.toks[k] == s1.toks[k]);
                if rr is Matched {
                    let t = sr.toks.update(k, Token { rule: r, start: s.pos, end: sr.pos });
                    assert forall|i: int| 0 <= i < n0 implies #[trigger] t[i] == s.toks[i] by {
                        assert(sr.toks[i] == s1.toks[i]);
                    }
                    assert forall|i: int, j: int| k <= i < j < t.len() implies (
                    #[trigger] t[i]).start <= (#[trigger] t[j]).start by {
                        assert(t[j] == sr.toks[j]);
                        if i > k {
                            assert(t[i] == sr.toks[i]);
                        }
                    }
                    assert forall|i: int, j: int|
                        k <= i < j < t.len() && (#[trigger] t[j]).start < (
                        #[trigger] t[i]).end implies t[j].end <= t[i].end by {
                        assert(t[j] == sr.toks[j]);
                        if i > k {
                            assert(t[i] == sr.toks[i]);
                        }
                    }
                    assert forall|i: int, j: int, l: int|
                        k <= i < j < l < t.len() && (#[trigger] t[j]).start >= (
                        #[trigger] t[i]).end implies (#[trigger] t[l]).start >= t[i].end by {
                        assert(t[j] == sr.toks[j]);
                        assert(t[l] == sr.toks[l]);
                        if i > k {
                            assert(t[i] == sr.toks[i]);
                        } else {
                            assert(sr.toks[j].start <= sr.toks[j].end);
                            assert(sr.toks[j].start <= sr.toks[l].start);
                        }
                    }
                    assert forall|i: int| k <= i < t.len() implies s.pos <= (#[trigger] t[i]).start
                        && t[i].end <= sr.pos by {
                        if i > k {
                            assert(t[i] == sr.toks[i]);
                        }
                    }
                } else if rr is Failed {
                    assert(restore(sr, s.pos, s.toks.len()).toks =~= s.toks) by {
                        assert forall|i: int| 0 <= i < n0 implies #[trigger] sr.toks[i] == s.toks[i] by {
                            assert(sr.toks[i] == s1.toks[i]);
                        }
                    }
                } else {
                    assert forall|i: int| 0 <= i < n0 implies #[trigger] sr.toks[i] == s.toks[i] by {
                        assert(sr.toks[i] == s1.toks[i]);
                    }
                }
            }
        },
        _ => {},
    }
}

pub proof fn lemma_star_nested(g: Seq<RuleDef>, e: Pe, inp: Seq<u8>, s: PegSt, depth: nat)
    requires
        st_wf(s, inp.len()),
        inp.len() <= usize::MAX,
    ensures
        prefix_kept(star(g, e, inp, s, depth).1.toks, s.toks),
        star(g, e, inp, s, depth).0 is Matched ==> seg_nested(
            star(g, e, inp, s, depth).1.toks,
            s.toks.len() as int,
        ) && seg_within(
            star(g, e, inp, s, depth).1.toks,
            s.toks.len() as int,
            s.pos as int,
            star(g, e, inp, s, depth).1.pos as int,
        ),
    decreases depth, e, 1nat, (inp.len() - s.pos) as nat,
{
    let n0 = s.toks.len() as int;
    lemma_eval_nested(g, e, inp, s, depth);
    lemma_eval_wf(g, e, inp, s, depth);
    let (ra, sa) = eval(g, e, inp, s, depth);
    if ra is Matched {
        if s.pos < sa.pos && sa.pos <= inp.len() {
            lemma_star_nested(g, e, inp, sa, depth);
            lemma_star_wf(g, e, inp, sa, depth);
            let (rs, ss) = star(g, e, inp, sa, depth);
            if rs is Matched {
                lemma_combine(sa.toks, ss.toks, n0, s.pos as int, sa.pos as int, ss.pos as int, inp.len());
            }
        }
    } else if ra is Failed {
        lemma_restore_prefix(sa, s);
    }
}

/// The token queue of a successful parse is in pre-order.
pub proof fn lemma_parse_queue_nested(g: Seq<RuleDef>, start: usize, inp: Seq<u8>)
    requires
        inp.len() <= usize::MAX,
        peg_parse(g, start, inp).0 is Matched,
    ensures
        queue_nested(peg_parse(g, start, inp).1.toks),
        tokens_wf(peg_parse(g, start, inp).1.toks, inp.len()),
{
    lemma_eval_nested(g, Pe::Call(start), inp, init_st(), MAX_DEPTH as nat);
    lemma_eval_wf(g, Pe::Call(start), inp, init_st(), MAX_DEPTH as nat);
}

} // verus!
