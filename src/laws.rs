//! Laws of the canonifier, stated over the walk of a token queue.

use vstd::prelude::*;
use vstd::string::{is_ascii, is_ascii_spec_bytes, StringSliceAdditionalSpecFns};
use crate::grammar::{
    blanks,
    line_grammar,
    ABC_LINE,
    EOI,
    MUSIC_CODE_LINE,
    ABC_EOL,
    BAD_TEXT_EXPRESSION,
    CHORD_NEWLINE,
    INVISIBLE_BARLINE,
    NOTE_LENGTH_BIGGER,
    NOTE_LENGTH_FULL,
    NOTE_LENGTH_SLASHES,
    NOTE_LENGTH_SMALLER,
    WSP,
    DIGITS,
};
use crate::soundness::{token_sound, lemma_parse_tokens_sound};
use crate::nesting::{queue_nested, seg_within, lemma_eval_nested};
use crate::peg::{Pe, Token, tokens_wf, peg_parse, init_st, lemma_eval_wf, MAX_DEPTH, RuleDef};
use crate::text::{trim_end, is_blank};
use crate::walk::{visit, gather, gather_from, text_of, walk, walk_from};

verus! {

/// Whatever run of spaces and tabs a `WSP` token covers, the walk emits it
/// as one space.
pub proof fn lemma_whitespace_collapses(q: Seq<Token>, inp: Seq<u8>, i: int)
    requires
        0 <= i < q.len(),
        q[i].rule == WSP,
    ensures
        visit(q, inp, i) == (seq![0x20u8], i + 1),
{
}

proof fn lemma_trim_end_no_blank(s: Seq<u8>)
    ensures
        trim_end(s).len() == 0 || !is_blank(trim_end(s).last()),
    decreases s.len(),
{
    if s.len() > 0 && is_blank(s.last()) {
        lemma_trim_end_no_blank(s.drop_last());
    }
}

/// The end-of-line token is emitted without trailing spaces or tabs.
pub proof fn lemma_eol_has_no_trailing_blank(q: Seq<Token>, inp: Seq<u8>, i: int)
    requires
        0 <= i < q.len(),
        q[i].rule == ABC_EOL,
    ensures
        visit(q, inp, i).0.len() == 0 || !is_blank(visit(q, inp, i).0.last()),
{
    lemma_trim_end_no_blank(gather(q, inp, i).0);
}

/// A rule that the canonifier may rewrite.
pub open spec fn rewritten(r: usize) -> bool {
    r == ABC_EOL || r == BAD_TEXT_EXPRESSION || r == CHORD_NEWLINE || r == INVISIBLE_BARLINE
        || r == NOTE_LENGTH_BIGGER || r == NOTE_LENGTH_FULL || r == NOTE_LENGTH_SLASHES
        || r == NOTE_LENGTH_SMALLER || r == WSP
}

/// No token in `[i, e)` is of a rewritten rule.
pub open spec fn plain_between(q: Seq<Token>, i: int, e: int) -> bool {
    forall|k: int| i <= k < e ==> !rewritten(#[trigger] q[k].rule)
}

/// Token `e`, if any, lies outside token `i`: the subtree of `i` ends by `e`.
pub open spec fn bounded_by(q: Seq<Token>, i: int, e: int) -> bool {
    i < e <= q.len() && (e < q.len() ==> q[e].start >= q[i].end)
}

/// Token `k` has no child: the next token, if any, starts at or after its
/// end.
pub open spec fn childless(q: Seq<Token>, k: int) -> bool {
    k + 1 >= q.len() || q[k + 1].start >= q[k].end
}

/// The walk hands token `k` back as its own span, provided its children
/// do: its rule is not rewritten, or it is a childless single space,
/// standard invisible barline, `/` or `//`.
pub open spec fn keeps_span(q: Seq<Token>, inp: Seq<u8>, k: int) -> bool {
    ||| !rewritten(q[k].rule)
    ||| childless(q, k) && q[k].rule == WSP && text_of(q, inp, k) == seq![0x20u8]
    ||| childless(q, k) && q[k].rule == INVISIBLE_BARLINE && text_of(q, inp, k) != seq![
        0x5bu8,
        0x5d,
    ]
    ||| childless(q, k) && q[k].rule == NOTE_LENGTH_SLASHES && (text_of(q, inp, k) == seq![0x2fu8]
        || text_of(q, inp, k) == seq![0x2fu8, 0x2f])
}

/// The subtree of token `k` is exactly the `n` runs of digits that follow it.
pub open spec fn digit_children(q: Seq<Token>, k: int, n: int) -> bool {
    &&& k + n < q.len()
    &&& forall|j: int| k < j <= k + n ==> (#[trigger] q[j]).rule == DIGITS && q[j].start < q[k].end
    &&& (k + n + 1 == q.len() || q[k + n + 1].start >= q[k].end)
}

/// Token `k`, if its rule is rewritten without a walk of its children, has
/// the shape that the grammar gives that rule: whitespace, a chord
/// separator, an invisible barline and a run of slashes have no children;
/// `N` and `/M` have one run of digits, `N/M` two.
pub open spec fn leaf_shaped(q: Seq<Token>, k: int) -> bool {
    let r = q[k].rule;
    &&& (r == WSP || r == CHORD_NEWLINE || r == INVISIBLE_BARLINE || r == NOTE_LENGTH_SLASHES)
        ==> childless(q, k)
    &&& (r == NOTE_LENGTH_BIGGER || r == NOTE_LENGTH_SMALLER) ==> digit_children(q, k, 1)
    &&& r == NOTE_LENGTH_FULL ==> digit_children(q, k, 2)
}

/// The queue is in pre-order and each of its tokens has its grammar shape.
pub open spec fn queue_shaped(q: Seq<Token>) -> bool {
    queue_nested(q) && forall|k: int| 0 <= k < q.len() ==> #[trigger] leaf_shaped(q, k)
}

/// Every token in `[i, e)` is handed back as its own span.
pub open spec fn spans_between(q: Seq<Token>, inp: Seq<u8>, i: int, e: int) -> bool {
    forall|k: int| i <= k < e ==> #[trigger] keeps_span(q, inp, k)
}

/// The queue is in pre-order, and every token of the subtree of token `i`
/// is handed back as its own span.
pub open spec fn span_subtree(q: Seq<Token>, inp: Seq<u8>, i: int) -> bool {
    queue_nested(q) && exists|e: int| bounded_by(q, i, e) && spans_between(q, inp, i, e)
}

/// `m` is the index just past the subtree of token `i`: the tokens in
/// between start inside `i`, and token `m`, if any, does not.
pub open spec fn subtree_end(q: Seq<Token>, i: int, m: int) -> bool {
    &&& i < m <= q.len()
    &&& forall|k: int| i < k < m ==> (#[trigger] q[k]).start < q[i].end
    &&& m < q.len() ==> q[m].start >= q[i].end
}

proof fn lemma_visit_plain(q: Seq<Token>, inp: Seq<u8>, i: int, e: int)
    requires
        0 <= i < q.len(),
        tokens_wf(q, inp.len()),
        queue_nested(q),
        bounded_by(q, i, e),
        plain_between(q, i, e),
    ensures
        visit(q, inp, i).0 == text_of(q, inp, i),
        subtree_end(q, i, visit(q, inp, i).1),
        visit(q, inp, i).1 <= e,
    decreases q.len() - i, 1nat,
{
    assert(!rewritten(q[i].rule));
    assert(q[i].start <= q[i].end);
    if i + 1 < q.len() && q[i + 1].start < q[i].end {
        assert(q[i].start <= q[i + 1].start);
    }
    lemma_gather_plain(q, inp, i, e, i + 1, q[i].start as int);
}

proof fn lemma_gather_plain(q: Seq<Token>, inp: Seq<u8>, i: int, e: int, j: int, cursor: int)
    requires
        0 <= i < j <= e,
        tokens_wf(q, inp.len()),
        queue_nested(q),
        bounded_by(q, i, e),
        plain_between(q, i, e),
        q[i].start <= cursor <= q[i].end,
        forall|k: int| i < k < j ==> (#[trigger] q[k]).start < q[i].end,
        j < q.len() && q[j].start < q[i].end ==> cursor <= q[j].start,
    ensures
        gather_from(q, inp, i, j, cursor).0 == inp.subrange(cursor, q[i].end as int),
        subtree_end(q, i, gather_from(q, inp, i, j, cursor).1),
        gather_from(q, inp, i, j, cursor).1 <= e,
    decreases q.len() - j, 2nat,
{
    assert(q[i].start <= q[i].end <= inp.len());
    if j < q.len() && q[j].start < q[i].end {
        if j >= e {
            if j > e {
                assert(q[e].start >= q[i].end);
            }
            assert(false);
        }
        assert(q[j].start <= q[j].end <= inp.len());
        assert(q[j].end <= q[i].end);
        if e < q.len() {
            assert(q[e].start >= q[j].end);
        }
        lemma_visit_plain(q, inp, j, e);
        let (t, nj) = visit(q, inp, j);
        assert forall|k: int| i < k < nj implies (#[trigger] q[k]).start < q[i].end by {
            if j < k {
                assert(q[k].start < q[j].end);
            }
        }
        lemma_gather_plain(q, inp, i, e, nj, q[j].end as int);
        let pre = if cursor < q[j].start {
            inp.subrange(cursor, q[j].start as int)
        } else {
            Seq::empty()
        };
        let rest = inp.subrange(q[j].end as int, q[i].end as int);
        assert(pre + t + rest =~= inp.subrange(cursor, q[i].end as int));
    } else {
        if cursor >= q[i].end {
            assert(inp.subrange(cursor, q[i].end as int) =~= Seq::<u8>::empty());
        }
    }
}

/// In a pre-order queue, a token whose subtree holds no rewritten rule is
/// emitted exactly as its input text, and the walk goes on just past its
/// subtree. The subtree of token `i` ends by `e`, and no token in `[i, e)`
/// is rewritten.
pub proof fn lemma_plain_subtree_verbatim(q: Seq<Token>, inp: Seq<u8>, i: int, e: int)
    requires
        0 <= i < q.len(),
        tokens_wf(q, inp.len()),
        queue_nested(q),
        bounded_by(q, i, e),
        plain_between(q, i, e),
    ensures
        visit(q, inp, i).0 == text_of(q, inp, i),
        subtree_end(q, i, visit(q, inp, i).1),
{
    lemma_visit_plain(q, inp, i, e);
}

proof fn lemma_walk_rest_empty(q: Seq<Token>, inp: Seq<u8>, i: int, p: int)
    requires
        0 <= i <= q.len(),
        tokens_wf(q, inp.len()),
        queue_nested(q),
        plain_between(q, i, q.len() as int),
        forall|k: int| i <= k < q.len() ==> (#[trigger] q[k]).start == p && q[k].end == p,
    ensures
        walk_from(q, inp, i) == Seq::<u8>::empty(),
    decreases q.len() - i,
{
    if i < q.len() {
        lemma_visit_plain(q, inp, i, q.len() as int);
        let (t, m) = visit(q, inp, i);
        assert(t =~= Seq::<u8>::empty());
        lemma_walk_rest_empty(q, inp, m, p);
    }
}

/// A pre-order queue whose first token spans all the others, and which
/// holds no rewritten rule, is walked into the text of its first token.
pub proof fn lemma_plain_walk_verbatim(q: Seq<Token>, inp: Seq<u8>)
    requires
        q.len() > 0,
        tokens_wf(q, inp.len()),
        queue_nested(q),
        plain_between(q, 0, q.len() as int),
        seg_within(q, 0, q[0].start as int, q[0].end as int),
    ensures
        walk(q, inp) == text_of(q, inp, 0),
{
    lemma_visit_plain(q, inp, 0, q.len() as int);
    let (t, m) = visit(q, inp, 0);
    assert forall|k: int| m <= k < q.len() implies (#[trigger] q[k]).start == q[0].end && q[k].end
        == q[0].end by {
        if k > m {
            assert(q[m].start >= q[0].end);
        }
    }
    lemma_walk_rest_empty(q, inp, m, q[0].end as int);
    assert(t + Seq::<u8>::empty() =~= t);
}

/// A line that parses, and in whose parse no rule is rewritten, is
/// canonified into the input that it matched, byte for byte.
pub proof fn lemma_plain_line_verbatim(g: Seq<RuleDef>, start: usize, inp: Seq<u8>)
    requires
        inp.len() <= usize::MAX,
        peg_parse(g, start, inp).0 is Matched,
        plain_between(peg_parse(g, start, inp).1.toks, 0, peg_parse(g, start, inp).1.toks.len() as int),
    ensures
        walk(peg_parse(g, start, inp).1.toks, inp) == inp.subrange(0, peg_parse(g, start, inp).1.pos as int),
{
    let st = peg_parse(g, start, inp).1;
    lemma_eval_nested(g, Pe::Call(start), inp, init_st(), MAX_DEPTH as nat);
    lemma_eval_wf(g, Pe::Call(start), inp, init_st(), MAX_DEPTH as nat);
    let s0 = init_st();
    let s1 = crate::peg::PegSt { toks: s0.toks.push(Token { rule: start, start: 0, end: 0 }), ..s0 };
    assert(start < g.len());
    assert(s1.toks.len() == 1 && s1.toks[0].start <= s1.toks[0].end && s1.toks[0].end <= inp.len());
    lemma_eval_nested(g, g[start as int].body, inp, s1, (MAX_DEPTH - 1) as nat);
    assert(st.toks[0] == Token { rule: start, start: 0, end: st.pos });
    lemma_plain_walk_verbatim(st.toks, inp);
}

/// Under the line grammar, a parse that matches has consumed the whole input.
pub proof fn lemma_line_parse_is_whole(g: Seq<RuleDef>, inp: Seq<u8>)
    requires
        line_grammar(g),
        peg_parse(g, MUSIC_CODE_LINE, inp).0 is Matched,
    ensures
        peg_parse(g, MUSIC_CODE_LINE, inp).1.pos == inp.len(),
{
    let s0 = init_st();
    let s1 = crate::peg::PegSt {
        toks: s0.toks.push(Token { rule: MUSIC_CODE_LINE, start: 0, end: 0 }),
        ..s0
    };
    let d = (MAX_DEPTH - 1) as nat;
    let body = g[MUSIC_CODE_LINE as int].body;
    let (rb, sb) = crate::peg::eval(g, body, inp, s1, d);
    assert(rb is Matched);
    let (ra, sa) = crate::peg::eval(g, Pe::Call(ABC_LINE), inp, s1, d);
    assert(ra is Matched);
    let (re, se) = crate::peg::eval(g, Pe::Call(EOI), inp, sa, d);
    assert(re is Matched);
    let sa1 = crate::peg::PegSt {
        toks: sa.toks.push(Token { rule: EOI, start: sa.pos, end: sa.pos }),
        ..sa
    };
    let (rz, sz) = crate::peg::eval(g, Pe::Eoi, inp, sa1, (d - 1) as nat);
    assert(rz is Matched);
    assert(sa.pos == inp.len());
}

/// A line that parses, and in whose parse no rule is rewritten, is
/// canonified into itself.
pub proof fn lemma_plain_line_unchanged(g: Seq<RuleDef>, inp: Seq<u8>)
    requires
        line_grammar(g),
        inp.len() <= usize::MAX,
        peg_parse(g, MUSIC_CODE_LINE, inp).0 is Matched,
        plain_between(
            peg_parse(g, MUSIC_CODE_LINE, inp).1.toks,
            0,
            peg_parse(g, MUSIC_CODE_LINE, inp).1.toks.len() as int,
        ),
    ensures
        walk(peg_parse(g, MUSIC_CODE_LINE, inp).1.toks, inp) == inp,
{
    lemma_plain_line_verbatim(g, MUSIC_CODE_LINE, inp);
    lemma_line_parse_is_whole(g, inp);
    assert(inp.subrange(0, inp.len() as int) =~= inp);
}

/// A space or a tab.
pub open spec fn blank_choice() -> Pe {
    Pe::Alt(Box::new(Pe::Lit(" ")), Box::new(Pe::Lit("\t")))
}

proof fn lemma_blank_choice(g: Seq<RuleDef>, inp: Seq<u8>, s: crate::peg::PegSt, d: nat)
    requires
        inp.len() <= usize::MAX,
    ensures
        crate::peg::eval(g, blank_choice(), inp, s, d).0 is Matched <==> (s.pos < inp.len()
            && is_blank(inp[s.pos as int])),
        crate::peg::eval(g, blank_choice(), inp, s, d).0 is Matched ==> crate::peg::eval(
            g,
            blank_choice(),
            inp,
            s,
            d,
        ).1.pos == s.pos + 1,
        !(crate::peg::eval(g, blank_choice(), inp, s, d).0 is Exhausted),
        crate::peg::eval(g, blank_choice(), inp, s, d).0 is Failed ==> crate::peg::eval(
            g,
            blank_choice(),
            inp,
            s,
            d,
        ).1.pos == s.pos,
{
    reveal_strlit(" ");
    reveal_strlit("\t");
    is_ascii_spec_bytes(" ");
    is_ascii_spec_bytes("\t");
    assert(is_ascii(" "));
    assert(is_ascii("\t"));
    assert(" ".spec_bytes() =~= seq![0x20u8]);
    assert("\t".spec_bytes() =~= seq![0x09u8]);
    let sp = seq![0x20u8];
    let tb = seq![0x09u8];
    let (r1, s1) = crate::peg::eval(g, Pe::Lit(" "), inp, s, d);
    let s2 = crate::peg::restore(s1, s.pos, s.toks.len());
    let (r2, t2) = crate::peg::eval(g, Pe::Lit("\t"), inp, s2, d);
    if s.pos < inp.len() {
        let one = inp.subrange(s.pos as int, s.pos + 1);
        assert(one.len() == 1 && one[0] == inp[s.pos as int]);
        if inp[s.pos as int] == 0x20 {
            assert(one =~= sp);
        } else {
            assert(one[0] != sp[0]);
            assert(!crate::peg::lit_at(inp, s.pos as int, sp));
            if inp[s.pos as int] == 0x09 {
                assert(one =~= tb);
            } else {
                assert(one[0] != tb[0]);
                assert(!crate::peg::lit_at(inp, s.pos as int, tb));
            }
        }
    }
}

proof fn lemma_blank_star(g: Seq<RuleDef>, inp: Seq<u8>, s: crate::peg::PegSt, d: nat)
    requires
        s.pos <= inp.len(),
        inp.len() <= usize::MAX,
    ensures
        crate::peg::star(g, blank_choice(), inp, s, d).0 is Matched,
        s.pos <= crate::peg::star(g, blank_choice(), inp, s, d).1.pos <= inp.len(),
        forall|k: int|
            s.pos <= k < crate::peg::star(g, blank_choice(), inp, s, d).1.pos ==> is_blank(
                #[trigger] inp[k],
            ),
        crate::peg::star(g, blank_choice(), inp, s, d).1.pos < inp.len() ==> !is_blank(
            inp[crate::peg::star(g, blank_choice(), inp, s, d).1.pos as int],
        ),
    decreases inp.len() - s.pos,
{
    lemma_blank_choice(g, inp, s, d);
    let (ra, sa) = crate::peg::eval(g, blank_choice(), inp, s, d);
    if ra is Matched {
        lemma_blank_star(g, inp, sa, d);
    }
}

/// A match of `blanks()` covers a non-empty run of spaces and tabs, and
/// stops only where no space or tab follows.
proof fn lemma_blanks_maximal(g: Seq<RuleDef>, inp: Seq<u8>, s: crate::peg::PegSt, d: nat)
    requires
        s.pos <= inp.len(),
        inp.len() <= usize::MAX,
        crate::peg::eval(g, blanks(), inp, s, d).0 is Matched,
    ensures
        s.pos < crate::peg::eval(g, blanks(), inp, s, d).1.pos <= inp.len(),
        forall|k: int|
            s.pos <= k < crate::peg::eval(g, blanks(), inp, s, d).1.pos ==> is_blank(
                #[trigger] inp[k],
            ),
        crate::peg::eval(g, blanks(), inp, s, d).1.pos < inp.len() ==> !is_blank(
            inp[crate::peg::eval(g, blanks(), inp, s, d).1.pos as int],
        ),
{
    assert(blanks() == Pe::Plus(Box::new(blank_choice())));
    lemma_blank_choice(g, inp, s, d);
    let (ra, sa) = crate::peg::eval(g, blank_choice(), inp, s, d);
    lemma_blank_star(g, inp, sa, d);
}

/// In a successful parse of a line, every `WSP` token covers a non-empty
/// run of spaces and tabs that no space or tab follows, and the walk emits
/// it as one space.
pub proof fn lemma_whitespace_runs(g: Seq<RuleDef>, inp: Seq<u8>, k: int)
    requires
        line_grammar(g),
        inp.len() <= usize::MAX,
        peg_parse(g, MUSIC_CODE_LINE, inp).0 is Matched,
        0 <= k < peg_parse(g, MUSIC_CODE_LINE, inp).1.toks.len(),
        peg_parse(g, MUSIC_CODE_LINE, inp).1.toks[k].rule == WSP,
    ensures
        ({
            let q = peg_parse(g, MUSIC_CODE_LINE, inp).1.toks;
            &&& q[k].start < q[k].end
            &&& forall|i: int| q[k].start <= i < q[k].end ==> is_blank(#[trigger] inp[i])
            &&& q[k].end < inp.len() ==> !is_blank(inp[q[k].end as int])
            &&& visit(q, inp, k).0 == seq![0x20u8]
        }),
{
    let q = peg_parse(g, MUSIC_CODE_LINE, inp).1.toks;
    lemma_parse_tokens_sound(g, MUSIC_CODE_LINE, inp);
    lemma_eval_wf(g, Pe::Call(MUSIC_CODE_LINE), inp, init_st(), MAX_DEPTH as nat);
    let t = q[k];
    assert(token_sound(g, inp, t));
    assert(t.start <= t.end <= inp.len());
    let (s, d) = choose|s: crate::peg::PegSt, d: nat|
        s.pos == t.start && (#[trigger] crate::peg::eval(g, g[t.rule as int].body, inp, s, d)).0 is Matched
            && crate::peg::eval(g, g[t.rule as int].body, inp, s, d).1.pos == t.end;
    lemma_blanks_maximal(g, inp, s, d);
}

} // verus!
