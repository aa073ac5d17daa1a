//! Every token of a successful parse is a match of its rule over its span.

use vstd::prelude::*;
use crate::nesting::{prefix_kept, lemma_eval_nested, lemma_star_nested};
use crate::peg::{
    Pe,
    PegSt,
    RuleDef,
    Token,
    eval,
    star,
    restore,
    st_wf,
    lemma_eval_wf,
    lemma_star_wf,
    lemma_restore_wf,
    peg_parse,
    init_st,
    MAX_DEPTH,
};

verus! {

/// Token `t` is a match of its rule: from some state at `t.start`, the
/// rule's body matches up to `t.end`.
pub open spec fn token_sound(g: Seq<RuleDef>, inp: Seq<u8>, t: Token) -> bool {
    &&& t.rule < g.len()
    &&& exists|s: PegSt, d: nat|
        s.pos == t.start && (#[trigger] eval(g, g[t.rule as int].body, inp, s, d)).0 is Matched
            && eval(g, g[t.rule as int].body, inp, s, d).1.pos == t.end
}

/// The tokens from index `a` on are all sound.
pub open spec fn seg_sound(g: Seq<RuleDef>, inp: Seq<u8>, q: Seq<Token>, a: int) -> bool {
    forall|k: int| a <= k < q.len() ==> token_sound(g, inp, #[trigger] q[k])
}

proof fn lemma_join(g: Seq<RuleDef>, inp: Seq<u8>, a: Seq<Token>, t: Seq<Token>, n0: int)
    requires
        0 <= n0 <= a.len(),
        seg_sound(g, inp, a, n0),
        prefix_kept(t, a),
        seg_sound(g, inp, t, a.len() as int),
    ensures
        seg_sound(g, inp, t, n0),
{
    assert forall|k: int| n0 <= k < t.len() implies token_sound(g, inp, #[trigger] t[k]) by {
        if k < a.len() {
            assert(t[k] == a[k]);
        }
    }
}

/// The tokens that a match adds are sound.
pub proof fn lemma_eval_sound(g: Seq<RuleDef>, e: Pe, inp: Seq<u8>, s: PegSt, depth: nat)
    requires
        st_wf(s, inp.len()),
        inp.len() <= usize::MAX,
    ensures
        eval(g, e, inp, s, depth).0 is Matched ==> seg_sound(
            g,
            inp,
            eval(g, e, inp, s, depth).1.toks,
            s.toks.len() as int,
        ),
    decreases depth, e, 0nat, 0nat,
{
    let n0 = s.toks.len() as int;
    lemma_eval_nested(g, e, inp, s, depth);
    match e {
        Pe::Cat(a, b) => {
            lemma_eval_sound(g, *a, inp, s, depth);
            lemma_eval_wf(g, *a, inp, s, depth);
            let (ra, sa) = eval(g, *a, inp, s, depth);
            lemma_eval_nested(g, *a, inp, s, depth);
            if ra is Matched {
                lemma_eval_sound(g, *b, inp, sa, depth);
                lemma_eval_nested(g, *b, inp, sa, depth);
                let (rb, sb) = eval(g, *b, inp, sa, depth);
                if rb is Matched {
                    lemma_join(g, inp, sa.toks, sb.toks, n0);
                }
            }
        },
        Pe::Alt(a, b) => {
            lemma_eval_sound(g, *a, inp, s, depth);
            lemma_eval_wf(g, *a, inp, s, depth);
            lemma_eval_nested(g, *a, inp, s, depth);
            let (ra, sa) = eval(g, *a, inp, s, depth);
            if ra is Failed {
                let s2 = restore(sa, s.pos, s.toks.len());
                assert(s2.toks =~= s.toks);
                lemma_restore_wf(sa, s.pos, s.toks.len(), inp.len());
                lemma_eval_sound(g, *b, inp, s2, depth);
                lemma_eval_nested(g, *b, inp, s2, depth);
            }
        },
        Pe::Star(a) => {
            lemma_star_sound(g, *a, inp, s, depth);
        },
        Pe::Plus(a) => {
            lemma_eval_sound(g, *a, inp, s, depth);
            lemma_eval_wf(g, *a, inp, s, depth);
            lemma_eval_nested(g, *a, inp, s, depth);
            let (ra, sa) = eval(g, *a, inp, s, depth);
            if ra is Matched {
                lemma_star_sound(g, *a, inp, sa, depth);
                lemma_star_nested(g, *a, inp, sa, depth);
                let (rs, ss) = star(g, *a, inp, sa, depth);
                if rs is Matched {
                    lemma_join(g, inp, sa.toks, ss.toks, n0);
                }
            }
        },
        Pe::Opt(a) => {
            lemma_eval_sound(g, *a, inp, s, depth);
            lemma_eval_nested(g, *a, inp, s, depth);
        },
        Pe::Not(a) => {
            lemma_eval_nested(g, *a, inp, s, depth);
        },
        Pe::Call(r) => {
            if r < g.len() && depth > 0 {
                let k = s.toks.len() as int;
                let s1 = PegSt { toks: s.toks.push(Token { rule: r, start: s.pos, end: s.pos }), ..s };
                let d = (depth - 1) as nat;
                let body = g[r as int].body;
                assert forall|i: int| 0 <= i < s1.toks.len() implies (#[trigger] s1.toks[i]).start
                    <= s1.toks[i].end && s1.toks[i].end <= inp.len() by {
                    if i < k {
                        assert(s1.toks[i] == s.toks[i]);
                    }
                }
                lemma_eval_sound(g, body, inp, s1, d);
                lemma_eval_nested(g, body, inp, s1, d);
                let (rr, sr) = eval(g, body, inp, s1, d);
                if rr is Matched {
                    let tok = Token { rule: r, start: s.pos, end: sr.pos };
                    let t = sr.toks.update(k, tok);
                    assert(token_sound(g, inp, tok)) by {
                        assert(s1.pos == tok.start);
                        assert(eval(g, g[tok.rule as int].body, inp, s1, d).0 is Matched);
                    }
                    assert forall|i: int| k <= i < t.len() implies token_sound(
                        g,
                        inp,
                        #[trigger] t[i],
                    ) by {
                        if i > k {
                            assert(t[i] == sr.toks[i]);
                        }
                    }
                }
            }
        },
        _ => {},
    }
}

pub proof fn lemma_star_sound(g: Seq<RuleDef>, e: Pe, inp: Seq<u8>, s: PegSt, depth: nat)
    requires
        st_wf(s, inp.len()),
        inp.len() <= usize::MAX,
    ensures
        star(g, e, inp, s, depth).0 is Matched ==> seg_sound(
            g,
            inp,
            star(g, e, inp, s, depth).1.toks,
            s.toks.len() as int,
        ),
    decreases depth, e, 1nat, (inp.len() - s.pos) as nat,
{
    let n0 = s.toks.len() as int;
    lemma_eval_sound(g, e, inp, s, depth);
    lemma_eval_wf(g, e, inp, s, depth);
    lemma_eval_nested(g, e, inp, s, depth);
    let (ra, sa) = eval(g, e, inp, s, depth);
    if ra is Matched {
        if s.pos < sa.pos && sa.pos <= inp.len() {
            lemma_star_sound(g, e, inp, sa, depth);
            lemma_star_nested(g, e, inp, sa, depth);
            let (rs, ss) = star(g, e, inp, sa, depth);
            if rs is Matched {
                lemma_join(g, inp, sa.toks, ss.toks, n0);
            }
        }
    } else if ra is Failed {
        assert(restore(sa, s.pos, s.toks.len()).toks =~= s.toks);
    }
}

/// Every token of a successful parse is a match of its rule over its span.
pub proof fn lemma_parse_tokens_sound(g: Seq<RuleDef>, start: usize, inp: Seq<u8>)
    requires
        inp.len() <= usize::MAX,
        peg_parse(g, start, inp).0 is Matched,
    ensures
        seg_sound(g, inp, peg_parse(g, start, inp).1.toks, 0),
{
    lemma_eval_sound(g, Pe::Call(start), inp, init_st(), MAX_DEPTH as nat);
}

} // verus!
