//! The token queue of a successful parse under the line grammar has the
//! shape the walker relies on: rules that are rewritten without a walk of
//! their children have exactly the children their grammar rule gives.

use vstd::prelude::*;
use crate::grammar::{
    abc_rules,
    pe_cat,
    pe_lits,
    lit_of,
    alt_back,
    cat_back,
    pe_cats,
    CHORD_NEWLINE,
    DIGITS,
    INVISIBLE_BARLINE,
    NOTE_LENGTH_BIGGER,
    NOTE_LENGTH_FULL,
    NOTE_LENGTH_SLASHES,
    NOTE_LENGTH_SMALLER,
    WSP,
};
use crate::laws::{digit_children, leaf_shaped, queue_shaped};
use crate::nesting::{
    prefix_kept,
    seg_within,
    lemma_eval_nested,
    lemma_star_nested,
    lemma_parse_queue_nested,
};
use crate::peg::{
    Pe,
    PegSt,
    RuleDef,
    Token,
    eval,
    star,
    restore,
    st_wf,
    lemma_eval_wf,
    lemma_star_wf,
    lemma_restore_wf,
    peg_parse,
    init_st,
    MAX_DEPTH,
};

verus! {

/// `e` invokes no rule.
pub open spec fn call_free(e: Pe) -> bool
    decreases e,
{
    match e {
        Pe::Cat(a, b) => call_free(*a) && call_free(*b),
        Pe::Alt(a, b) => call_free(*a) && call_free(*b),
        Pe::Star(a) => call_free(*a),
        Pe::Plus(a) => call_free(*a),
        Pe::Opt(a) => call_free(*a),
        Pe::Not(a) => call_free(*a),
        Pe::Call(_) => false,
        _ => true,
    }
}

/// The rules that the walker rewrites without a walk of their children
/// have, in `g`, the bodies that give them their shape.
pub open spec fn shape_grammar(g: Seq<RuleDef>) -> bool {
    &&& DIGITS < g.len()
    &&& call_free(g[WSP as int].body)
    &&& call_free(g[CHORD_NEWLINE as int].body)
    &&& call_free(g[INVISIBLE_BARLINE as int].body)
    &&& call_free(g[NOTE_LENGTH_SLASHES as int].body)
    &&& g[DIGITS as int].body == Pe::Plus(Box::new(Pe::Range(0x30, 0x39)))
    &&& g[NOTE_LENGTH_BIGGER as int].body == Pe::Call(DIGITS)
    &&& g[NOTE_LENGTH_SMALLER as int].body == pe_cat(Pe::Lit("/"), Pe::Call(DIGITS))
    &&& g[NOTE_LENGTH_FULL as int].body == pe_cat(
        Pe::Call(DIGITS),
        pe_cat(Pe::Lit("/"), Pe::Call(DIGITS)),
    )
}

/// The tokens from index `a` on have their shape.
pub open spec fn seg_shaped(q: Seq<Token>, a: int) -> bool {
    forall|k: int| a <= k < q.len() ==> #[trigger] leaf_shaped(q, k)
}

proof fn lemma_call_free(g: Seq<RuleDef>, e: Pe, inp: Seq<u8>, s: PegSt, depth: nat)
    requires
        call_free(e),
        st_wf(s, inp.len()),
        inp.len() <= usize::MAX,
    ensures
        eval(g, e, inp, s, depth).1.toks == s.toks,
        !(eval(g, e, inp, s, depth).0 is Exhausted),
    decreases depth, e, 0nat, 0nat,
{
    lemma_eval_wf(g, e, inp, s, depth);
    match e {
        Pe::Cat(a, b) => {
            lemma_call_free(g, *a, inp, s, depth);
            let (ra, sa) = eval(g, *a, inp, s, depth);
            lemma_eval_wf(g, *a, inp, s, depth);
            if ra is Matched {
                lemma_call_free(g, *b, inp, sa, depth);
            }
            assert(s.toks.subrange(0, s.toks.len() as int) =~= s.toks);
        },
        Pe::Alt(a, b) => {
            lemma_call_free(g, *a, inp, s, depth);
            let (ra, sa) = eval(g, *a, inp, s, depth);
            lemma_eval_wf(g, *a, inp, s, depth);
            assert(s.toks.subrange(0, s.toks.len() as int) =~= s.toks);
            if ra is Failed {
                let s2 = restore(sa, s.pos, s.toks.len());
                lemma_restore_wf(sa, s.pos, s.toks.len(), inp.len());
                lemma_call_free(g, *b, inp, s2, depth);
            }
        },
        Pe::Star(a) => {
            lemma_star_call_free(g, *a, inp, s, depth);
        },
        Pe::Plus(a) => {
            lemma_call_free(g, *a, inp, s, depth);
            let (ra, sa) = eval(g, *a, inp, s, depth);
            lemma_eval_wf(g, *a, inp, s, depth);
            assert(s.toks.subrange(0, s.toks.len() as int) =~= s.toks);
            if ra is Matched {
                lemma_star_call_free(g, *a, inp, sa, depth);
            }
        },
        Pe::Opt(a) => {
            lemma_call_free(g, *a, inp, s, depth);
            assert(s.toks.subrange(0, s.toks.len() as int) =~= s.toks);
        },
        Pe::Not(a) => {
            lemma_call_free(g, *a, inp, s, depth);
            assert(s.toks.subrange(0, s.toks.len() as int) =~= s.toks);
        },
        _ => {},
    }
}

proof fn lemma_star_call_free(g: Seq<RuleDef>, e: Pe, inp: Seq<u8>, s: PegSt, depth: nat)
    requires
        call_free(e),
        st_wf(s, inp.len()),
        inp.len() <= usize::MAX,
    ensures
        star(g, e, inp, s, depth).1.toks == s.toks,
        !(star(g, e, inp, s, depth).0 is Exhausted),
    decreases depth, e, 1nat, (inp.len() - s.pos) as nat,
{
    lemma_call_free(g, e, inp, s, depth);
    lemma_eval_wf(g, e, inp, s, depth);
    let (ra, sa) = eval(g, e, inp, s, depth);
    assert(s.toks.subrange(0, s.toks.len() as int) =~= s.toks);
    if ra is Matched {
        if s.pos < sa.pos && sa.pos <= inp.len() {
            lemma_star_call_free(g, e, inp, sa, depth);
        }
    }
}

/// A run of digits adds exactly its own token, and is not empty.
proof fn lemma_digits_call(g: Seq<RuleDef>, inp: Seq<u8>, s: PegSt, depth: nat)
    requires
        shape_grammar(g),
        st_wf(s, inp.len()),
        inp.len() <= usize::MAX,
    ensures
        eval(g, Pe::Call(DIGITS), inp, s, depth).0 is Matched ==> eval(
            g,
            Pe::Call(DIGITS),
            inp,
            s,
            depth,
        ).1.toks == s.toks.push(
            Token { rule: DIGITS, start: s.pos, end: eval(g, Pe::Call(DIGITS), inp, s, depth).1.pos },
        ) && s.pos < eval(g, Pe::Call(DIGITS), inp, s, depth).1.pos,
{
    if depth > 0 {
        let k = s.toks.len();
        let s1 = PegSt { toks: s.toks.push(Token { rule: DIGITS, start: s.pos, end: s.pos }), ..s };
        let d = (depth - 1) as nat;
        let body = g[DIGITS as int].body;
        assert forall|i: int| 0 <= i < s1.toks.len() implies (#[trigger] s1.toks[i]).start
            <= s1.toks[i].end && s1.toks[i].end <= inp.len() by {
            if i < k {
                assert(s1.toks[i] == s.toks[i]);
            }
        }
        assert(call_free(Pe::Range(0x30, 0x39)));
        assert(call_free(body));
        lemma_call_free(g, body, inp, s1, d);
        let r = Pe::Range(0x30, 0x39);
        let (ra, sa) = eval(g, r, inp, s1, d);
        if ra is Matched {
            lemma_star_wf(g, r, inp, sa, d);
        }
        let (rr, sr) = eval(g, body, inp, s1, d);
        if rr is Matched {
            assert(sr.toks.update(k as int, Token { rule: DIGITS, start: s.pos, end: sr.pos })
                =~= s.toks.push(Token { rule: DIGITS, start: s.pos, end: sr.pos }));
        }
    }
}

/// Two runs of shaped tokens, one after the other in position, form one.
proof fn lemma_join_shaped(
    a: Seq<Token>,
    t: Seq<Token>,
    n0: int,
    p0: int,
    pa: int,
    pb: int,
)
    requires
        0 <= n0 <= a.len(),
        seg_shaped(a, n0),
        seg_within(a, n0, p0, pa),
        prefix_kept(t, a),
        seg_shaped(t, a.len() as int),
        seg_within(t, a.len() as int, pa, pb),
    ensures
        seg_shaped(t, n0),
{
    let m = a.len() as int;
    assert forall|k: int| n0 <= k < t.len() implies #[trigger] leaf_shaped(t, k) by {
        if k < m {
            assert(leaf_shaped(a, k));
            assert(t[k] == a[k]);
            assert(a[k].end <= pa);
            if k + 1 < t.len() {
                if k + 1 < m {
                    assert(t[k + 1] == a[k + 1]);
                } else {
                    assert(t[k + 1].start >= pa);
                }
            }
            if k + 2 < t.len() {
                if k + 2 < m {
                    assert(t[k + 2] == a[k + 2]);
                } else {
                    assert(t[k + 2].start >= pa);
                }
            }
            if k + 3 < t.len() {
                if k + 3 < m {
                    assert(t[k + 3] == a[k + 3]);
                } else {
                    assert(t[k + 3].start >= pa);
                }
            }
            if digit_children(a, k, 1) {
                assert(t[k + 1] == a[k + 1]);
                assert(digit_children(t, k, 1));
            }
            if digit_children(a, k, 2) {
                assert(t[k + 1] == a[k + 1]);
                assert(t[k + 2] == a[k + 2]);
                assert(digit_children(t, k, 2));
            }
        }
    }
}

/// On a match, the tokens that evaluation adds have their shape.
proof fn lemma_eval_shaped(g: Seq<RuleDef>, e: Pe, inp: Seq<u8>, s: PegSt, depth: nat)
    requires
        shape_grammar(g),
        st_wf(s, inp.len()),
        inp.len() <= usize::MAX,
    ensures
        eval(g, e, inp, s, depth).0 is Matched ==> seg_shaped(
            eval(g, e, inp, s, depth).1.toks,
            s.toks.len() as int,
        ),
    decreases depth, e, 0nat, 1nat,
{
    let n0 = s.toks.len() as int;
    lemma_eval_nested(g, e, inp, s, depth);
    lemma_eval_wf(g, e, inp, s, depth);
    match e {
        Pe::Cat(a, b) => {
            lemma_eval_shaped(g, *a, inp, s, depth);
            lemma_eval_nested(g, *a, inp, s, depth);
            lemma_eval_wf(g, *a, inp, s, depth);
            let (ra, sa) = eval(g, *a, inp, s, depth);
            if ra is Matched {
                lemma_eval_shaped(g, *b, inp, sa, depth);
                lemma_eval_nested(g, *b, inp, sa, depth);
                lemma_eval_wf(g, *b, inp, sa, depth);
                let (rb, sb) = eval(g, *b, inp, sa, depth);
                if rb is Matched {
                    lemma_join_shaped(sa.toks, sb.toks, n0, s.pos as int, sa.pos as int, sb.pos as int);
                }
            }
        },
        Pe::Alt(a, b) => {
            lemma_eval_shaped(g, *a, inp, s, depth);
            lemma_eval_nested(g, *a, inp, s, depth);
            lemma_eval_wf(g, *a, inp, s, depth);
            let (ra, sa) = eval(g, *a, inp, s, depth);
            if ra is Failed {
                let s2 = restore(sa, s.pos, s.toks.len());
                assert(s2.toks =~= s.toks);
                lemma_restore_wf(sa, s.pos, s.toks.len(), inp.len());
                lemma_eval_shaped(g, *b, inp, s2, depth);
            }
        },
        Pe::Star(a) => {
            lemma_star_shaped(g, *a, inp, s, depth);
        },
        Pe::Plus(a) => {
            lemma_eval_shaped(g, *a, inp, s, depth);
            lemma_eval_nested(g, *a, inp, s, depth);
            lemma_eval_wf(g, *a, inp, s, depth);
            let (ra, sa) = eval(g, *a, inp, s, depth);
            if ra is Matched {
                lemma_star_shaped(g, *a, inp, sa, depth);
                lemma_star_nested(g, *a, inp, sa, depth);
                lemma_star_wf(g, *a, inp, sa, depth);
                let (rs, ss) = star(g, *a, inp, sa, depth);
                if rs is Matched {
                    lemma_join_shaped(sa.toks, ss.toks, n0, s.pos as int, sa.pos as int, ss.pos as int);
                }
            }
        },
        Pe::Opt(a) => {
            lemma_eval_shaped(g, *a, inp, s, depth);
            lemma_eval_nested(g, *a, inp, s, depth);
        },
        Pe::Not(a) => {
            lemma_eval_nested(g, *a, inp, s, depth);
        },
        Pe::Call(r) => {
            if r < g.len() && depth > 0 {
                lemma_call_shaped(g, r, inp, s, depth);
            }
        },
        _ => {},
    }
}

proof fn lemma_call_shaped(g: Seq<RuleDef>, r: usize, inp: Seq<u8>, s: PegSt, depth: nat)
    requires
        shape_grammar(g),
        st_wf(s, inp.len()),
        inp.len() <= usize::MAX,
        r < g.len(),
        depth > 0,
    ensures
        eval(g, Pe::Call(r), inp, s, depth).0 is Matched ==> seg_shaped(
            eval(g, Pe::Call(r), inp, s, depth).1.toks,
            s.toks.len() as int,
        ),
    decreases depth, Pe::Call(r), 0nat, 0nat,
{
    let k = s.toks.len() as int;
    let s1 = PegSt { toks: s.toks.push(Token { rule: r, start: s.pos, end: s.pos }), ..s };
    let d = (depth - 1) as nat;
    let body = g[r as int].body;
    assert forall|i: int| 0 <= i < s1.toks.len() implies (#[trigger] s1.toks[i]).start
        <= s1.toks[i].end && s1.toks[i].end <= inp.len() by {
        if i < k {
            assert(s1.toks[i] == s.toks[i]);
        }
    }
    let (rr, sr) = eval(g, body, inp, s1, d);
    if rr is Matched {
        let tok = Token { rule: r, start: s.pos, end: sr.pos };
        let t = sr.toks.update(k, tok);
        assert(eval(g, Pe::Call(r), inp, s, depth).1.toks == t);
        if r == WSP || r == CHORD_NEWLINE || r == INVISIBLE_BARLINE || r == NOTE_LENGTH_SLASHES {
            lemma_call_free(g, body, inp, s1, d);
            assert(t.len() == k + 1);
            assert(t[k] == tok);
            assert(leaf_shaped(t, k));
        } else if r == NOTE_LENGTH_BIGGER {
            lemma_digits_call(g, inp, s1, d);
            assert(t.len() == k + 2);
            assert(t[k] == tok);
            assert(t[k + 1].rule == DIGITS && t[k + 1].start == s.pos);
            assert(digit_children(t, k, 1));
            assert(leaf_shaped(t, k));
            assert(leaf_shaped(t, k + 1));
        } else if r == NOTE_LENGTH_SMALLER {
            let (ra, sa) = eval(g, Pe::Lit("/"), inp, s1, d);
            lemma_eval_wf(g, Pe::Lit("/"), inp, s1, d);
            lemma_digits_call(g, inp, sa, d);
            assert(t.len() == k + 2);
            assert(t[k] == tok);
            assert(t[k + 1].rule == DIGITS && t[k + 1].start < sr.pos);
            assert(digit_children(t, k, 1));
            assert(leaf_shaped(t, k));
            assert(leaf_shaped(t, k + 1));
        } else if r == NOTE_LENGTH_FULL {
            lemma_digits_call(g, inp, s1, d);
            let (ra, sa) = eval(g, Pe::Call(DIGITS), inp, s1, d);
            lemma_eval_wf(g, Pe::Call(DIGITS), inp, s1, d);
            let (rb, sb) = eval(g, Pe::Lit("/"), inp, sa, d);
            lemma_eval_wf(g, Pe::Lit("/"), inp, sa, d);
            lemma_digits_call(g, inp, sb, d);
            let (rc, sc) = eval(g, Pe::Call(DIGITS), inp, sb, d);
            let inner = pe_cat(Pe::Lit("/"), Pe::Call(DIGITS));
            assert(body == pe_cat(Pe::Call(DIGITS), inner));
            let (ri, si) = eval(g, inner, inp, sa, d);
            assert(ra is Matched);
            assert(ri is Matched && si == sr);
            assert(rb is Matched && rc is Matched);
            assert(sr == sc);
            assert(t.len() == k + 3);
            assert(t[k] == tok);
            assert(t[k + 1].rule == DIGITS && t[k + 1].start < sr.pos);
            assert(t[k + 2].rule == DIGITS && t[k + 2].start < sr.pos);
            assert(digit_children(t, k, 2));
            assert(leaf_shaped(t, k));
            assert(leaf_shaped(t, k + 1));
            assert(leaf_shaped(t, k + 2));
        } else {
            lemma_eval_shaped(g, body, inp, s1, d);
            lemma_eval_nested(g, body, inp, s1, d);
            assert forall|j: int| k <= j < t.len() implies #[trigger] leaf_shaped(t, j) by {
                if j > k {
                    assert(leaf_shaped(sr.toks, j));
                    assert(t[j] == sr.toks[j]);
                    if j + 1 < t.len() {
                        assert(t[j + 1] == sr.toks[j + 1]);
                    }
                    if j + 2 < t.len() {
                        assert(t[j + 2] == sr.toks[j + 2]);
                    }
                    if j + 3 < t.len() {
                        assert(t[j + 3] == sr.toks[j + 3]);
                    }
                    if digit_children(sr.toks, j, 1) {
                        assert(digit_children(t, j, 1));
                    }
                    if digit_children(sr.toks, j, 2) {
                        assert(digit_children(t, j, 2));
                    }
                } else {
                    assert(t[k] == tok);
                }
            }
        }
    }
}

proof fn lemma_star_shaped(g: Seq<RuleDef>, e: Pe, inp: Seq<u8>, s: PegSt, depth: nat)
    requires
        shape_grammar(g),
        st_wf(s, inp.len()),
        inp.len() <= usize::MAX,
    ensures
        star(g, e, inp, s, depth).0 is Matched ==> seg_shaped(
            star(g, e, inp, s, depth).1.toks,
            s.toks.len() as int,
        ),
    decreases depth, e, 1nat, (inp.len() - s.pos) as nat,
{
    let n0 = s.toks.len() as int;
    lemma_eval_shaped(g, e, inp, s, depth);
    lemma_eval_wf(g, e, inp, s, depth);
    lemma_eval_nested(g, e, inp, s, depth);
    let (ra, sa) = eval(g, e, inp, s, depth);
    if ra is Matched {
        if s.pos < sa.pos && sa.pos <= inp.len() {
            lemma_star_shaped(g, e, inp, sa, depth);
            lemma_star_nested(g, e, inp, sa, depth);
            lemma_star_wf(g, e, inp, sa, depth);
            let (rs, ss) = star(g, e, inp, sa, depth);
            if rs is Matched {
                lemma_join_shaped(sa.toks, ss.toks, n0, s.pos as int, sa.pos as int, ss.pos as int);
            }
        }
    } else if ra is Failed {
        assert(restore(sa, s.pos, s.toks.len()).toks =~= s.toks);
    }
}

proof fn lemma_lits_call_free(a: &'static str, b: &'static str)
    ensures
        call_free(pe_lits(seq![a, b])),
{
    let v = seq![a, b].map_values(|s: &'static str| lit_of(s));
    assert(v =~= seq![Pe::Lit(a), Pe::Lit(b)]);
    assert(v.drop_last() =~= seq![Pe::Lit(a)]);
    assert(v.drop_last().drop_last() =~= Seq::<Pe>::empty());
    let x = alt_back(v.drop_last(), v.last());
    assert(x == alt_back(Seq::<Pe>::empty(), pe_alt_of(Pe::Lit(a), Pe::Lit(b))));
    assert(call_free(Pe::Lit(a)) && call_free(Pe::Lit(b)));
}

spec fn pe_alt_of(a: Pe, b: Pe) -> Pe {
    Pe::Alt(Box::new(a), Box::new(b))
}

/// The line grammar gives the rewritten rules their shape.
pub proof fn lemma_abc_rules_shape()
    ensures
        shape_grammar(abc_rules()),
{
    let g = abc_rules();
    lemma_lits_call_free("\\n", ";");
    lemma_lits_call_free("[|]", "[]");
    assert(call_free(Pe::Lit(" ")) && call_free(Pe::Lit("\t")) && call_free(Pe::Lit("/")));
    assert(call_free(pe_alt_of(Pe::Lit(" "), Pe::Lit("\t"))));
    let v = seq![Pe::Call(DIGITS), Pe::Lit("/"), Pe::Call(DIGITS)];
    assert(v.drop_last() =~= seq![Pe::Call(DIGITS), Pe::Lit("/")]);
    assert(v.drop_last().drop_last() =~= seq![Pe::Call(DIGITS)]);
    assert(v.drop_last().drop_last().drop_last() =~= Seq::<Pe>::empty());
    let d = Pe::Call(DIGITS);
    let w1 = v.drop_last();
    let w2 = w1.drop_last();
    let w3 = w2.drop_last();
    assert(v.last() == d && w1.last() == Pe::Lit("/") && w2.last() == d);
    assert(pe_cats(v) == cat_back(w1, d));
    assert(cat_back(w1, d) == cat_back(w2, pe_cat(Pe::Lit("/"), d)));
    assert(cat_back(w2, pe_cat(Pe::Lit("/"), d)) == cat_back(w3, pe_cat(d, pe_cat(Pe::Lit("/"), d))));
    assert(cat_back(w3, pe_cat(d, pe_cat(Pe::Lit("/"), d))) == pe_cat(d, pe_cat(Pe::Lit("/"), d)));
}

/// The token queue of a successful parse under a grammar that gives the
/// rewritten rules their shape is in pre-order, and each token has its
/// shape.
pub proof fn lemma_parse_queue_shaped(g: Seq<RuleDef>, start: usize, inp: Seq<u8>)
    requires
        shape_grammar(g),
        inp.len() <= usize::MAX,
        peg_parse(g, start, inp).0 is Matched,
    ensures
        queue_shaped(peg_parse(g, start, inp).1.toks),
{
    lemma_parse_queue_nested(g, start, inp);
    lemma_eval_shaped(g, Pe::Call(start), inp, init_st(), MAX_DEPTH as nat);
}

} // verus!
