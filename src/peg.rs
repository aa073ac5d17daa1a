//! A PEG interpreter over a grammar held as data.
//!
//! A grammar is a table of named rules; rule `r` is invoked by `Pe::Call(r)`.
//! Every successful rule invocation leaves a token `(rule, start, end)` in a
//! flat pre-order queue, as the walker expects. A failing invocation is
//! recorded at the furthest position reached, for diagnostics.

use vstd::prelude::*;
use vstd::string::StringSliceAdditionalSpecFns;

verus! {

/// A parsing expression.
pub enum Pe {
    /// The exact bytes of the string.
    Lit(&'static str),
    /// One byte in the inclusive range.
    Range(u8, u8),
    /// One UTF-8 encoded character.
    Any,
    /// The end of the input.
    Eoi,
    /// Sequence.
    Cat(Box<Pe>, Box<Pe>),
    /// Ordered choice.
    Alt(Box<Pe>, Box<Pe>),
    /// Zero or more, greedy.
    Star(Box<Pe>),
    /// One or more, greedy.
    Plus(Box<Pe>),
    /// Zero or one.
    Opt(Box<Pe>),
    /// Negative lookahead; consumes nothing.
    Not(Box<Pe>),
    /// Invocation of the rule with this index.
    Call(usize),
}

/// A named rule of a grammar.
pub struct RuleDef {
    pub name: &'static str,
    pub body: Pe,
}

/// A matched rule: `rule` matched the input bytes `[start, end)`.
#[derive(Clone, Copy, PartialEq, Eq, Structural, Debug)]
pub struct Token {
    pub rule: usize,
    pub start: usize,
    pub end: usize,
}

/// How an expression fared.
#[derive(Clone, Copy, PartialEq, Eq, Structural, Debug)]
pub enum Res {
    Matched,
    Failed,
    /// The rule nesting went deeper than the interpreter allows, or a call
    /// named a rule that the grammar does not have.
    Exhausted,
}

/// The largest rule nesting that the interpreter follows.
pub const MAX_DEPTH: usize = 64;

/// The state of a parse: position, token queue, and the furthest failure.
pub struct PegSt {
    pub pos: usize,
    pub toks: Seq<Token>,
    pub fail_pos: usize,
    pub expected: Seq<usize>,
}

pub open spec fn init_st() -> PegSt {
    PegSt { pos: 0, toks: Seq::empty(), fail_pos: 0, expected: Seq::empty() }
}

/// Back to position `pos` and the first `n` tokens, keeping what was learnt
/// about failures.
pub open spec fn restore(s: PegSt, pos: usize, n: nat) -> PegSt {
    PegSt { pos: pos, toks: s.toks.subrange(0, n as int), ..s }
}

/// Records that `rule` failed at `at`: a failure further on replaces the
/// ones recorded, one at the same place joins them.
pub open spec fn track(s: PegSt, rule: usize, at: usize) -> PegSt {
    if at > s.fail_pos {
        PegSt { fail_pos: at, expected: seq![rule], ..s }
    } else if at == s.fail_pos && !s.expected.contains(rule) {
        PegSt { expected: s.expected.push(rule), ..s }
    } else {
        s
    }
}

/// The length of the UTF-8 sequence that begins with `b` (one for a byte
/// that cannot begin a sequence).
pub open spec fn char_width(b: u8) -> nat {
    if b < 0x80 {
        1
    } else if b >= 0xf0 {
        4
    } else if b >= 0xe0 {
        3
    } else if b >= 0xc0 {
        2
    } else {
        1
    }
}

/// `l` occurs in `inp` at `pos`.
pub open spec fn lit_at(inp: Seq<u8>, pos: int, l: Seq<u8>) -> bool {
    0 <= pos && pos + l.len() <= inp.len() && inp.subrange(pos, pos + l.len()) == l
}

pub open spec fn advance(s: PegSt, n: nat) -> PegSt {
    PegSt { pos: (s.pos + n) as usize, ..s }
}

/// PEG semantics of `e` on `inp` from state `s`, with `depth` further rule
/// invocations allowed.
pub open spec fn eval(g: Seq<RuleDef>, e: Pe, inp: Seq<u8>, s: PegSt, depth: nat) -> (Res, PegSt)
    decreases depth, e, 0nat, 0nat,
{
    match e {
        Pe::Lit(l) => {
            if lit_at(inp, s.pos as int, l.spec_bytes()) {
                (Res::Matched, advance(s, l.spec_bytes().len()))
            } else {
                (Res::Failed, s)
            }
        },
        Pe::Range(lo, hi) => {
            if s.pos < inp.len() && lo <= inp[s.pos as int] && inp[s.pos as int] <= hi {
                (Res::Matched, advance(s, 1))
            } else {
                (Res::Failed, s)
            }
        },
        Pe::Any => {
            if s.pos < inp.len() && s.pos + char_width(inp[s.pos as int]) <= inp.len() {
                (Res::Matched, advance(s, char_width(inp[s.pos as int])))
            } else {
                (Res::Failed, s)
            }
        },
        Pe::Eoi => {
            if s.pos == inp.len() {
                (Res::Matched, s)
            } else {
                (Res::Failed, s)
            }
        },
        Pe::Cat(a, b) => {
            let (ra, sa) = eval(g, *a, inp, s, depth);
            if ra is Matched {
                let (rb, sb) = eval(g, *b, inp, sa, depth);
                if rb is Failed {
                    (Res::Failed, restore(sb, s.pos, s.toks.len()))
                } else {
                    (rb, sb)
                }
            } else if ra is Failed {
                (Res::Failed, restore(sa, s.pos, s.toks.len()))
            } else {
                (ra, sa)
            }
        },
        Pe::Alt(a, b) => {
            let (ra, sa) = eval(g, *a, inp, s, depth);
            if ra is Failed {
                let (rb, sb) = eval(g, *b, inp, restore(sa, s.pos, s.toks.len()), depth);
                if rb is Failed {
                    (Res::Failed, restore(sb, s.pos, s.toks.len()))
                } else {
                    (rb, sb)
                }
            } else {
                (ra, sa)
            }
        },
        Pe::Star(a) => star(g, *a, inp, s, depth),
        Pe::Plus(a) => {
            let (ra, sa) = eval(g, *a, inp, s, depth);
            if ra is Matched {
                star(g, *a, inp, sa, depth)
            } else if ra is Failed {
                (Res::Failed, restore(sa, s.pos, s.toks.len()))
            } else {
                (ra, sa)
            }
        },
        Pe::Opt(a) => {
            let (ra, sa) = eval(g, *a, inp, s, depth);
            if ra is Failed {
                (Res::Matched, restore(sa, s.pos, s.toks.len()))
            } else {
                (ra, sa)
            }
        },
        Pe::Not(a) => {
            let (ra, sa) = eval(g, *a, inp, s, depth);
            if ra is Matched {
                (Res::Failed, restore(sa, s.pos, s.toks.len()))
            } else if ra is Failed {
                (Res::Matched, restore(sa, s.pos, s.toks.len()))
            } else {
                (ra, sa)
            }
        },
        Pe::Call(r) => {
            if r >= g.len() || depth == 0 {
                (Res::Exhausted, s)
            } else {
                let k = s.toks.len();
                let s1 = PegSt { toks: s.toks.push(Token { rule: r, start: s.pos, end: s.pos }), ..s };
                let (rr, sr) = eval(g, g[r as int].body, inp, s1, (depth - 1) as nat);
                if rr is Matched {
                    (
                        Res::Matched,
                        PegSt {
                            toks: sr.toks.update(k as int, Token { rule: r, start: s.pos, end: sr.pos }),
                            ..sr
                        },
                    )
                } else if rr is Failed {
                    (Res::Failed, track(restore(sr, s.pos, k), r, s.pos))
                } else {
                    (rr, sr)
                }
            }
        },
    }
}

/// Greedy repetition of `e` from `s`: stops at the first failure, or when a
/// match consumes nothing.
pub open spec fn star(g: Seq<RuleDef>, e: Pe, inp: Seq<u8>, s: PegSt, depth: nat) -> (Res, PegSt)
    decreases depth, e, 1nat, (inp.len() - s.pos) as nat,
{
    let (ra, sa) = eval(g, e, inp, s, depth);
    if ra is Matched {
        if s.pos < sa.pos && sa.pos <= inp.len() {
            star(g, e, inp, sa, depth)
        } else {
            (Res::Matched, sa)
        }
    } else if ra is Failed {
        (Res::Matched, restore(sa, s.pos, s.toks.len()))
    } else {
        (ra, sa)
    }
}

/// Parsing `inp` with rule `start` of `g`, from the beginning.
pub open spec fn peg_parse(g: Seq<RuleDef>, start: usize, inp: Seq<u8>) -> (Res, PegSt) {
    eval(g, Pe::Call(start), inp, init_st(), MAX_DEPTH as nat)
}

/// Every token lies within an input of length `n`.
pub open spec fn tokens_wf(q: Seq<Token>, n: nat) -> bool {
    forall|i: int| 0 <= i < q.len() ==> (#[trigger] q[i]).start <= q[i].end && q[i].end <= n
}

/// What a parse state promises about an input of length `n`.
pub open spec fn st_wf(s: PegSt, n: nat) -> bool {
    s.pos <= n && tokens_wf(s.toks, n)
}

pub proof fn lemma_restore_wf(s: PegSt, pos: usize, k: nat, n: nat)
    requires
        st_wf(s, n),
        pos <= n,
        k <= s.toks.len(),
    ensures
        st_wf(restore(s, pos, k), n),
{
    let t = restore(s, pos, k);
    assert forall|i: int| 0 <= i < t.toks.len() implies (#[trigger] t.toks[i]).start <= t.toks[i].end
        && t.toks[i].end <= n by {
        assert(t.toks[i] == s.toks[i]);
    }
}

/// Evaluation keeps the position within the input and every token within
/// it, never drops a token it was given, and moves forward on a match.
pub proof fn lemma_eval_wf(g: Seq<RuleDef>, e: Pe, inp: Seq<u8>, s: PegSt, depth: nat)
    requires
        st_wf(s, inp.len()),
        inp.len() <= usize::MAX,
    ensures
        st_wf(eval(g, e, inp, s, depth).1, inp.len()),
        eval(g, e, inp, s, depth).1.toks.len() >= s.toks.len(),
        eval(g, e, inp, s, depth).0 is Matched ==> eval(g, e, inp, s, depth).1.pos >= s.pos,
    decreases depth, e, 0nat, 0nat,
{
    let n = inp.len();
    match e {
        Pe::Cat(a, b) => {
            lemma_eval_wf(g, *a, inp, s, depth);
            let (ra, sa) = eval(g, *a, inp, s, depth);
            if ra is Matched {
                lemma_eval_wf(g, *b, inp, sa, depth);
                let (rb, sb) = eval(g, *b, inp, sa, depth);
                if rb is Failed {
                    lemma_restore_wf(sb, s.pos, s.toks.len(), n);
                }
            } else if ra is Failed {
                lemma_restore_wf(sa, s.pos, s.toks.len(), n);
            }
        },
        Pe::Alt(a, b) => {
            lemma_eval_wf(g, *a, inp, s, depth);
            let (ra, sa) = eval(g, *a, inp, s, depth);
            if ra is Failed {
                let s2 = restore(sa, s.pos, s.toks.len());
                lemma_restore_wf(sa, s.pos, s.toks.len(), n);
                lemma_eval_wf(g, *b, inp, s2, depth);
                let (rb, sb) = eval(g, *b, inp, s2, depth);
                if rb is Failed {
                    lemma_restore_wf(sb, s.pos, s.toks.len(), n);
                }
            }
        },
        Pe::Star(a) => {
            lemma_star_wf(g, *a, inp, s, depth);
        },
        Pe::Plus(a) => {
            lemma_eval_wf(g, *a, inp, s, depth);
            let (ra, sa) = eval(g, *a, inp, s, depth);
            if ra is Matched {
                lemma_star_wf(g, *a, inp, sa, depth);
            } else if ra is Failed {
                lemma_restore_wf(sa, s.pos, s.toks.len(), n);
            }
        },
        Pe::Opt(a) => {
            lemma_eval_wf(g, *a, inp, s, depth);
            let (ra, sa) = eval(g, *a, inp, s, depth);
            if ra is Failed {
                lemma_restore_wf(sa, s.pos, s.toks.len(), n);
            }
        },
        Pe::Not(a) => {
            lemma_eval_wf(g, *a, inp, s, depth);
            let (ra, sa) = eval(g, *a, inp, s, depth);
            if !(ra is Exhausted) {
                lemma_restore_wf(sa, s.pos, s.toks.len(), n);
            }
        },
        Pe::Call(r) => {
            if r < g.len() && depth > 0 {
                let k = s.toks.len();
                let s1 = PegSt {
                    toks: s.toks.push(Token { rule: r, start: s.pos, end: s.pos }),
                    ..s
                };
                assert forall|i: int| 0 <= i < s1.toks.len() implies (
                #[trigger] s1.toks[i]).start <= s1.toks[i].end && s1.toks[i].end <= n by {
                    if i < k {
                        assert(s1.toks[i] == s.toks[i]);
                    }
                }
                lemma_eval_wf(g, g[r as int].body, inp, s1, (depth - 1) as nat);
                let (rr, sr) = eval(g, g[r as int].body, inp, s1, (depth - 1) as nat);
                if rr is Matched {
                    let t = sr.toks.update(k as int, Token { rule: r, start: s.pos, end: sr.pos });
                    assert forall|i: int| 0 <= i < t.len() implies (#[trigger] t[i]).start
                        <= t[i].end && t[i].end <= n by {
                        if i != k {
                            assert(t[i] == sr.toks[i]);
                        }
                    }
                } else if rr is Failed {
                    lemma_restore_wf(sr, s.pos, k, n);
                }
            }
        },
        _ => {},
    }
}

pub proof fn lemma_star_wf(g: Seq<RuleDef>, e: Pe, inp: Seq<u8>, s: PegSt, depth: nat)
    requires
        st_wf(s, inp.len()),
        inp.len() <= usize::MAX,
    ensures
        st_wf(star(g, e, inp, s, depth).1, inp.len()),
        star(g, e, inp, s, depth).1.toks.len() >= s.toks.len(),
        star(g, e, inp, s, depth).0 is Matched ==> star(g, e, inp, s, depth).1.pos >= s.pos,
    decreases depth, e, 1nat, (inp.len() - s.pos) as nat,
{
    lemma_eval_wf(g, e, inp, s, depth);
    let (ra, sa) = eval(g, e, inp, s, depth);
    if ra is Matched {
        if s.pos < sa.pos && sa.pos <= inp.len() {
            lemma_star_wf(g, e, inp, sa, depth);
        }
    } else if ra is Failed {
        lemma_restore_wf(sa, s.pos, s.toks.len(), inp.len());
    }
}

/// The running state of a parse, whose view is a `PegSt`.
pub struct PegRun {
    pub pos: usize,
    pub toks: Vec<Token>,
    pub fail_pos: usize,
    pub expected: Vec<usize>,
}

/// `l` occurs in `inp` at `pos`.
fn lit_matches(inp: &[u8], pos: usize, l: &[u8]) -> (r: bool)
    requires
        pos <= inp@.len(),
    ensures
        r == lit_at(inp@, pos as int, l@),
{
    if l.len() > inp.len() - pos {
        return false;
    }
    let n = inp.len();
    let mut k: usize = 0;
    while k < l.len()
        invariant
            n == inp@.len(),
            k <= l@.len(),
            pos + l@.len() <= inp@.len(),
            forall|j: int| 0 <= j < k ==> inp@[pos + j] == l@[j],
        decreases l@.len() - k,
    {
        if inp[pos + k] != l[k] {
            proof {
                assert(inp@.subrange(pos as int, pos + l@.len())[k as int] != l@[k as int]);
            }
            return false;
        }
        k = k + 1;
    }
    proof {
        assert(inp@.subrange(pos as int, pos + l@.len()) =~= l@);
    }
    true
}

/// `v` holds `x`.
fn contains_rule(v: &Vec<usize>, x: usize) -> (r: bool)
    ensures
        r == v@.contains(x),
{
    let mut k: usize = 0;
    while k < v.len()
        invariant
            k <= v@.len(),
            forall|j: int| 0 <= j < k ==> v@[j] != x,
        decreases v@.len() - k,
    {
        if v[k] == x {
            return true;
        }
        k = k + 1;
    }
    false
}

/// The width of the character that begins with `b`.
fn width_of(b: u8) -> (r: usize)
    ensures
        r == char_width(b),
{
    if b < 0x80 {
        1
    } else if b >= 0xf0 {
        4
    } else if b >= 0xe0 {
        3
    } else if b >= 0xc0 {
        2
    } else {
        1
    }
}

impl PegRun {
    pub open spec fn st(&self) -> PegSt {
        PegSt {
            pos: self.pos,
            toks: self.toks@,
            fail_pos: self.fail_pos,
            expected: self.expected@,
        }
    }

    fn restore_to(&mut self, pos: usize, n: usize)
        requires
            n <= old(self).toks@.len(),
        ensures
            final(self).st() == restore(old(self).st(), pos, n as nat),
    {
        self.pos = pos;
        self.toks.truncate(n);
    }

    fn track(&mut self, rule: usize, at: usize)
        ensures
            final(self).st() == track(old(self).st(), rule, at),
    {
        if at > self.fail_pos {
            self.fail_pos = at;
            self.expected = Vec::new();
            self.expected.push(rule);
            proof {
                assert(self.expected@ =~= seq![rule]);
            }
        } else if at == self.fail_pos && !contains_rule(&self.expected, rule) {
            self.expected.push(rule);
        }
    }

    /// Runs `e` from the current state.
    #[verifier::rlimit(100)]
    #[verifier::spinoff_prover]
    fn eval(&mut self, g: &Vec<RuleDef>, e: &Pe, inp: &[u8], depth: usize) -> (r: Res)
        requires
            old(self).pos <= inp@.len(),
        ensures
            (r, final(self).st()) == eval(g@, *e, inp@, old(self).st(), depth as nat),
            final(self).pos <= inp@.len(),
            final(self).toks@.len() >= old(self).toks@.len(),
        decreases depth, *e, 0nat, 0nat,
    {
        let pos0 = self.pos;
        let n0 = self.toks.len();
        let ilen = inp.len();
        match e {
            Pe::Lit(l) => {
                let lb = l.as_bytes();
                if lit_matches(inp, pos0, lb) {
                    assert(pos0 + lb@.len() <= inp@.len());
                    self.pos = pos0 + lb.len();
                    Res::Matched
                } else {
                    Res::Failed
                }
            },
            Pe::Range(lo, hi) => {
                if pos0 < ilen && *lo <= inp[pos0] && inp[pos0] <= *hi {
                    self.pos = pos0 + 1;
                    Res::Matched
                } else {
                    Res::Failed
                }
            },
            Pe::Any => {
                if pos0 < ilen {
                    let w = width_of(inp[pos0]);
                    if w <= ilen - pos0 {
                        self.pos = pos0 + w;
                        Res::Matched
                    } else {
                        Res::Failed
                    }
                } else {
                    Res::Failed
                }
            },
            Pe::Eoi => {
                if pos0 == ilen {
                    Res::Matched
                } else {
                    Res::Failed
                }
            },
            Pe::Cat(a, b) => {
                let ra = self.eval(g, a, inp, depth);
                if ra == Res::Matched {
                    let rb = self.eval(g, b, inp, depth);
                    if rb == Res::Failed {
                        self.restore_to(pos0, n0);
                    }
                    rb
                } else {
                    if ra == Res::Failed {
                        self.restore_to(pos0, n0);
                    }
                    ra
                }
            },
            Pe::Alt(a, b) => {
                let ra = self.eval(g, a, inp, depth);
                if ra == Res::Failed {
                    self.restore_to(pos0, n0);
                    let rb = self.eval(g, b, inp, depth);
                    if rb == Res::Failed {
                        self.restore_to(pos0, n0);
                    }
                    rb
                } else {
                    ra
                }
            },
            Pe::Star(a) => self.star(g, a, inp, depth),
            Pe::Plus(a) => {
                let ra = self.eval(g, a, inp, depth);
                if ra == Res::Matched {
                    self.star(g, a, inp, depth)
                } else {
                    if ra == Res::Failed {
                        self.restore_to(pos0, n0);
                    }
                    ra
                }
            },
            Pe::Opt(a) => {
                let ra = self.eval(g, a, inp, depth);
                if ra == Res::Failed {
                    self.restore_to(pos0, n0);
                    Res::Matched
                } else {
                    ra
                }
            },
            Pe::Not(a) => {
                let ra = self.eval(g, a, inp, depth);
                if ra == Res::Matched {
                    self.restore_to(pos0, n0);
                    Res::Failed
                } else if ra == Res::Failed {
                    self.restore_to(pos0, n0);
                    Res::Matched
                } else {
                    ra
                }
            },
            Pe::Call(r) => {
                let r = *r;
                if r >= g.len() || depth == 0 {
                    return Res::Exhausted;
                }
                self.toks.push(Token { rule: r, start: pos0, end: pos0 });
                let rr = self.eval(g, &g[r].body, inp, depth - 1);
                if rr == Res::Matched {
                    let end = self.pos;
                    self.toks.set(n0, Token { rule: r, start: pos0, end: end });
                } else if rr == Res::Failed {
                    self.restore_to(pos0, n0);
                    self.track(r, pos0);
                }
                rr
            },
        }
    }

    /// Greedy repetition of `e` from the current state.
    fn star(&mut self, g: &Vec<RuleDef>, e: &Pe, inp: &[u8], depth: usize) -> (r: Res)
        requires
            old(self).pos <= inp@.len(),
        ensures
            (r, final(self).st()) == star(g@, *e, inp@, old(self).st(), depth as nat),
            final(self).pos <= inp@.len(),
            final(self).toks@.len() >= old(self).toks@.len(),
        decreases depth, *e, 1nat, 0nat,
    {
        loop
            invariant
                self.pos <= inp@.len(),
                self.toks@.len() >= old(self).toks@.len(),
                star(g@, *e, inp@, self.st(), depth as nat) == star(
                    g@,
                    *e,
                    inp@,
                    old(self).st(),
                    depth as nat,
                ),
            decreases inp@.len() - self.pos,
        {
            let pos0 = self.pos;
            let n0 = self.toks.len();
            let ra = self.eval(g, e, inp, depth);
            if ra == Res::Matched {
                if self.pos <= pos0 {
                    return Res::Matched;
                }
            } else {
                if ra == Res::Failed {
                    self.restore_to(pos0, n0);
                    return Res::Matched;
                }
                return ra;
            }
        }
    }
}

/// Parses `inp` with rule `start` of the grammar `g`.
pub fn parse(g: &Vec<RuleDef>, start: usize, inp: &[u8]) -> (r: (Res, PegRun))
    ensures
        (r.0, r.1.st()) == peg_parse(g@, start, inp@),
        st_wf(r.1.st(), inp@.len()),
{
    let n = inp.len();
    proof {
        lemma_eval_wf(g@, Pe::Call(start), inp@, init_st(), MAX_DEPTH as nat);
    }
    let mut run = PegRun { pos: 0, toks: Vec::new(), fail_pos: 0, expected: Vec::new() };
    proof {
        assert(run.st() == init_st());
    }
    let res = run.eval(g, &Pe::Call(start), inp, MAX_DEPTH);
    (res, run)
}

} // verus!
