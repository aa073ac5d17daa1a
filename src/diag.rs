//! The diagnostic for a line that does not parse.

use vstd::prelude::*;
use vstd::string::StringSliceAdditionalSpecFns;
use crate::fragment::{push_all, push_span};
use crate::peg::RuleDef;
use crate::text::{decimal, push_decimal};
use vstd::utf8::{
    valid_utf8,
    is_char_boundary,
    is_continuation_byte,
    pop_first_scalar,
    encode_utf8_valid_utf8,
    valid_utf8_concat,
    valid_utf8_split,
    is_char_boundary_start_end_of_seq,
    is_char_boundary_iff_not_is_continuation_byte,
};

verus! {

/// The name of rule `r` of `g`, as bytes.
pub open spec fn rule_name(g: Seq<RuleDef>, r: usize) -> Seq<u8> {
    if r < g.len() {
        g[r as int].name.spec_bytes()
    } else {
        "?".spec_bytes()
    }
}

/// The names of the rules `rs` of `g`, separated by `, `.
pub open spec fn joined_names(g: Seq<RuleDef>, rs: Seq<usize>) -> Seq<u8>
    decreases rs.len(),
{
    if rs.len() == 0 {
        Seq::empty()
    } else if rs.len() == 1 {
        rule_name(g, rs[0])
    } else {
        joined_names(g, rs.drop_last()) + ", ".spec_bytes() + rule_name(g, rs.last())
    }
}

/// The rule list as it is printed: `[a, b, c]`.
pub open spec fn rule_list(g: Seq<RuleDef>, rs: Seq<usize>) -> Seq<u8> {
    "[".spec_bytes() + joined_names(g, rs) + "]".spec_bytes()
}

/// `k` is where a character of `inp` begins, or the end of `inp`.
pub open spec fn is_char_start(inp: Seq<u8>, k: int) -> bool {
    k == 0 || k == inp.len() || (0 < k < inp.len() && !is_continuation_byte(inp[k]))
}

/// The last character start at or before `k`.
pub open spec fn start_at_or_before(inp: Seq<u8>, k: int) -> int
    decreases k,
{
    if k <= 0 {
        0
    } else if is_char_start(inp, k) {
        k
    } else {
        start_at_or_before(inp, k - 1)
    }
}

/// The first character start after `k`.
pub open spec fn next_start(inp: Seq<u8>, k: int) -> int
    decreases inp.len() - k,
{
    if k >= inp.len() {
        inp.len() as int
    } else if is_char_start(inp, k + 1) {
        k + 1
    } else {
        next_start(inp, k + 1)
    }
}

/// Where `n` characters before `k` begin, or the start of the input.
pub open spec fn back_chars(inp: Seq<u8>, k: int, n: nat) -> int
    decreases n,
{
    if n == 0 || k <= 0 {
        k
    } else {
        back_chars(inp, start_at_or_before(inp, k - 1), (n - 1) as nat)
    }
}

/// Where the `n` characters from `k` end, or the end of the input.
pub open spec fn fwd_chars(inp: Seq<u8>, k: int, n: nat) -> int
    decreases n,
{
    if n == 0 || k >= inp.len() {
        k
    } else {
        fwd_chars(inp, next_start(inp, k), (n - 1) as nat)
    }
}

/// Where the context of a failure at `fail_pos` is taken: that position,
/// clamped to the input and moved back to the start of its character.
pub open spec fn context_pos(inp: Seq<u8>, fail_pos: usize) -> int {
    start_at_or_before(
        inp,
        if fail_pos <= inp.len() {
            fail_pos as int
        } else {
            inp.len() as int
        },
    )
}

/// Up to ten characters of input before `p`, marked with `...` when the
/// failure lies more than ten bytes into the input.
pub open spec fn left_context(inp: Seq<u8>, p: int, fail_pos: usize) -> Seq<u8> {
    let a = back_chars(inp, p, 10);
    if fail_pos > 10 {
        "...".spec_bytes() + inp.subrange(a, p)
    } else {
        inp.subrange(a, p)
    }
}

/// Up to ten characters of input from `p` on, marked with `...` where more
/// follow.
pub open spec fn right_context(inp: Seq<u8>, p: int) -> Seq<u8> {
    let b = fwd_chars(inp, p, 10);
    if b < inp.len() {
        inp.subrange(p, b) + "...".spec_bytes()
    } else {
        inp.subrange(p, inp.len() as int)
    }
}

/// The diagnostic for a parse of `inp` that failed at `fail_pos` while
/// trying the rules `expected` of `g`.
pub open spec fn failure_message(
    g: Seq<RuleDef>,
    inp: Seq<u8>,
    fail_pos: usize,
    expected: Seq<usize>,
) -> Seq<u8> {
    let p = context_pos(inp, fail_pos);
    "ABC parse failed at character ".spec_bytes() + decimal(fail_pos as nat) + ", matched '".spec_bytes()
        + left_context(inp, p, fail_pos) + "', could not match '".spec_bytes() + right_context(inp, p)
        + "', expected ".spec_bytes() + rule_list(g, expected)
}

proof fn lemma_start_at_or_before(inp: Seq<u8>, k: int)
    requires
        0 <= k <= inp.len(),
    ensures
        0 <= start_at_or_before(inp, k) <= k,
        is_char_start(inp, start_at_or_before(inp, k)),
    decreases k,
{
    if k > 0 && !is_char_start(inp, k) {
        lemma_start_at_or_before(inp, k - 1);
    }
}

proof fn lemma_next_start(inp: Seq<u8>, k: int)
    requires
        0 <= k < inp.len(),
    ensures
        k < next_start(inp, k) <= inp.len(),
        is_char_start(inp, next_start(inp, k)),
    decreases inp.len() - k,
{
    if !is_char_start(inp, k + 1) {
        lemma_next_start(inp, k + 1);
    }
}

proof fn lemma_back_chars(inp: Seq<u8>, k: int, n: nat)
    requires
        0 <= k <= inp.len(),
        is_char_start(inp, k),
    ensures
        0 <= back_chars(inp, k, n) <= k,
        is_char_start(inp, back_chars(inp, k, n)),
    decreases n,
{
    if n > 0 && k > 0 {
        lemma_start_at_or_before(inp, k - 1);
        lemma_back_chars(inp, start_at_or_before(inp, k - 1), (n - 1) as nat);
    }
}

proof fn lemma_fwd_chars(inp: Seq<u8>, k: int, n: nat)
    requires
        0 <= k <= inp.len(),
        is_char_start(inp, k),
    ensures
        k <= fwd_chars(inp, k, n) <= inp.len(),
        is_char_start(inp, fwd_chars(inp, k, n)),
    decreases n,
{
    if n > 0 && k < inp.len() {
        lemma_next_start(inp, k);
        lemma_fwd_chars(inp, next_start(inp, k), (n - 1) as nat);
    }
}

/// In valid UTF-8, a character start is a character boundary.
proof fn lemma_char_start_boundary(inp: Seq<u8>, k: int)
    requires
        valid_utf8(inp),
        0 <= k <= inp.len(),
        is_char_start(inp, k),
    ensures
        is_char_boundary(inp, k),
{
    is_char_boundary_start_end_of_seq(inp);
    if 0 < k < inp.len() {
        is_char_boundary_iff_not_is_continuation_byte(inp, k);
    }
}

/// A span of valid UTF-8 between character starts is valid UTF-8.
proof fn lemma_valid_span(inp: Seq<u8>, a: int, b: int)
    requires
        valid_utf8(inp),
        0 <= a <= b <= inp.len(),
        is_char_start(inp, a),
        is_char_start(inp, b),
    ensures
        valid_utf8(inp.subrange(a, b)),
{
    lemma_char_start_boundary(inp, a);
    valid_utf8_split(inp, a);
    let tail = inp.subrange(a, inp.len() as int);
    if b == inp.len() {
        assert(inp.subrange(a, b) =~= tail);
    } else {
        assert(tail[b - a] == inp[b]);
        is_char_boundary_iff_not_is_continuation_byte(tail, b - a);
        valid_utf8_split(tail, b - a);
        assert(tail.subrange(0, b - a) =~= inp.subrange(a, b));
    }
}

proof fn lemma_str_valid(s: &str)
    ensures
        valid_utf8(s.spec_bytes()),
{
    encode_utf8_valid_utf8(s@);
}

proof fn lemma_ascii_byte_valid(b: u8)
    requires
        b < 0x80,
    ensures
        valid_utf8(seq![b]),
{
    reveal_with_fuel(valid_utf8, 2);
    assert(pop_first_scalar(seq![b]) =~= Seq::<u8>::empty());
}

proof fn lemma_decimal_valid(n: nat)
    ensures
        valid_utf8(decimal(n)),
    decreases n,
{
    if n < 10 {
        lemma_ascii_byte_valid((0x30 + n) as u8);
    } else {
        lemma_decimal_valid(n / 10);
        lemma_ascii_byte_valid((0x30 + n % 10) as u8);
        valid_utf8_concat(decimal(n / 10), seq![(0x30 + n % 10) as u8]);
    }
}

proof fn lemma_names_valid(g: Seq<RuleDef>, rs: Seq<usize>)
    ensures
        valid_utf8(joined_names(g, rs)),
    decreases rs.len(),
{
    if rs.len() == 0 {
        assert(valid_utf8(Seq::<u8>::empty()));
    } else {
        lemma_str_valid(g[rs.last() as int].name);
        lemma_str_valid(g[rs[0] as int].name);
        lemma_str_valid("?");
        lemma_str_valid(", ");
        if rs.len() > 1 {
            lemma_names_valid(g, rs.drop_last());
            valid_utf8_concat(joined_names(g, rs.drop_last()), ", ".spec_bytes());
            valid_utf8_concat(
                joined_names(g, rs.drop_last()) + ", ".spec_bytes(),
                rule_name(g, rs.last()),
            );
        }
    }
}

/// The diagnostic for a line of valid UTF-8 is valid UTF-8.
pub proof fn lemma_failure_message_valid(
    g: Seq<RuleDef>,
    inp: Seq<u8>,
    fail_pos: usize,
    expected: Seq<usize>,
)
    requires
        valid_utf8(inp),
    ensures
        valid_utf8(failure_message(g, inp, fail_pos, expected)),
{
    let p = context_pos(inp, fail_pos);
    let q0: int = if fail_pos <= inp.len() {
        fail_pos as int
    } else {
        inp.len() as int
    };
    lemma_start_at_or_before(inp, q0);
    lemma_back_chars(inp, p, 10);
    lemma_fwd_chars(inp, p, 10);
    let a = back_chars(inp, p, 10);
    let b = fwd_chars(inp, p, 10);
    is_char_boundary_start_end_of_seq(inp);
    lemma_valid_span(inp, a, p);
    lemma_valid_span(inp, p, b);
    lemma_valid_span(inp, p, inp.len() as int);
    lemma_str_valid("...");
    lemma_str_valid("ABC parse failed at character ");
    lemma_str_valid(", matched '");
    lemma_str_valid("', could not match '");
    lemma_str_valid("', expected ");
    lemma_str_valid("[");
    lemma_str_valid("]");
    lemma_decimal_valid(fail_pos as nat);
    lemma_names_valid(g, expected);
    let l = left_context(inp, p, fail_pos);
    let r = right_context(inp, p);
    if fail_pos > 10 {
        valid_utf8_concat("...".spec_bytes(), inp.subrange(a, p));
    }
    if b < inp.len() {
        valid_utf8_concat(inp.subrange(p, b), "...".spec_bytes());
    }
    valid_utf8_concat("[".spec_bytes(), joined_names(g, expected));
    valid_utf8_concat("[".spec_bytes() + joined_names(g, expected), "]".spec_bytes());
    let s1 = "ABC parse failed at character ".spec_bytes() + decimal(fail_pos as nat);
    valid_utf8_concat("ABC parse failed at character ".spec_bytes(), decimal(fail_pos as nat));
    let s2 = s1 + ", matched '".spec_bytes();
    valid_utf8_concat(s1, ", matched '".spec_bytes());
    let s3 = s2 + l;
    valid_utf8_concat(s2, l);
    let s4 = s3 + "', could not match '".spec_bytes();
    valid_utf8_concat(s3, "', could not match '".spec_bytes());
    let s5 = s4 + r;
    valid_utf8_concat(s4, r);
    let s6 = s5 + "', expected ".spec_bytes();
    valid_utf8_concat(s5, "', expected ".spec_bytes());
    valid_utf8_concat(s6, rule_list(g, expected));
}

fn is_char_start_exec(inp: &[u8], k: usize) -> (r: bool)
    requires
        k <= inp@.len(),
    ensures
        r == is_char_start(inp@, k as int),
{
    k == 0 || k == inp.len() || !(0x80 <= inp[k] && inp[k] <= 0xbf)
}

fn start_at_or_before_exec(inp: &[u8], k: usize) -> (r: usize)
    requires
        k <= inp@.len(),
    ensures
        r == start_at_or_before(inp@, k as int),
{
    let mut j = k;
    while j > 0 && !is_char_start_exec(inp, j)
        invariant
            j <= k <= inp@.len(),
            start_at_or_before(inp@, k as int) == start_at_or_before(inp@, j as int),
        decreases j,
    {
        j = j - 1;
    }
    j
}

fn next_start_exec(inp: &[u8], k: usize) -> (r: usize)
    requires
        k < inp@.len(),
    ensures
        r == next_start(inp@, k as int),
{
    let n = inp.len();
    let mut j = k + 1;
    while j < n && !is_char_start_exec(inp, j)
        invariant
            n == inp@.len(),
            k < j <= inp@.len(),
            next_start(inp@, k as int) == next_start(inp@, j - 1),
        decreases inp@.len() - j,
    {
        j = j + 1;
    }
    j
}

fn back_chars_exec(inp: &[u8], k: usize, n: usize) -> (r: usize)
    requires
        k <= inp@.len(),
        is_char_start(inp@, k as int),
    ensures
        r == back_chars(inp@, k as int, n as nat),
{
    let mut j = k;
    let mut left = n;
    while left > 0 && j > 0
        invariant
            j <= inp@.len(),
            is_char_start(inp@, j as int),
            back_chars(inp@, k as int, n as nat) == back_chars(inp@, j as int, left as nat),
        decreases left,
    {
        proof {
            lemma_start_at_or_before(inp@, j - 1);
        }
        j = start_at_or_before_exec(inp, j - 1);
        left = left - 1;
    }
    j
}

fn fwd_chars_exec(inp: &[u8], k: usize, n: usize) -> (r: usize)
    requires
        k <= inp@.len(),
        is_char_start(inp@, k as int),
    ensures
        r == fwd_chars(inp@, k as int, n as nat),
{
    let mut j = k;
    let mut left = n;
    while left > 0 && j < inp.len()
        invariant
            j <= inp@.len(),
            is_char_start(inp@, j as int),
            fwd_chars(inp@, k as int, n as nat) == fwd_chars(inp@, j as int, left as nat),
        decreases left,
    {
        proof {
            lemma_next_start(inp@, j as int);
        }
        j = next_start_exec(inp, j);
        left = left - 1;
    }
    j
}

fn push_rule_name(out: &mut Vec<u8>, g: &Vec<RuleDef>, r: usize)
    ensures
        final(out)@ == old(out)@ + rule_name(g@, r),
{
    if r < g.len() {
        push_all(out, g[r].name.as_bytes());
    } else {
        push_all(out, "?".as_bytes());
    }
}

/// Appends `rule_list(g@, rs@)` to `out`.
fn push_rule_list(out: &mut Vec<u8>, g: &Vec<RuleDef>, rs: &Vec<usize>)
    ensures
        final(out)@ == old(out)@ + rule_list(g@, rs@),
{
    let ghost start = out@;
    push_all(out, "[".as_bytes());
    let mut k: usize = 0;
    while k < rs.len()
        invariant
            k <= rs@.len(),
            out@ == start + "[".spec_bytes() + joined_names(g@, rs@.subrange(0, k as int)),
        decreases rs@.len() - k,
    {
        let ghost before = out@;
        if k > 0 {
            push_all(out, ", ".as_bytes());
        }
        push_rule_name(out, g, rs[k]);
        proof {
            let pre = rs@.subrange(0, k as int);
            let next = rs@.subrange(0, k + 1);
            assert(next.drop_last() =~= pre);
            assert(next.last() == rs@[k as int]);
            if k == 0 {
                assert(pre.len() == 0);
                assert(before =~= start + "[".spec_bytes());
                assert(out@ =~= start + "[".spec_bytes() + joined_names(g@, next));
            } else {
                assert(out@ =~= start + "[".spec_bytes() + joined_names(g@, next));
            }
        }
        k = k + 1;
    }
    proof {
        assert(rs@.subrange(0, rs@.len() as int) =~= rs@);
    }
    push_all(out, "]".as_bytes());
    proof {
        assert(out@ =~= start + rule_list(g@, rs@));
    }
}

/// The diagnostic for a parse of `inp` that failed at `fail_pos` while
/// trying the rules `expected` of `g`.
pub fn parse_get_error_message(
    g: &Vec<RuleDef>,
    inp: &[u8],
    fail_pos: usize,
    expected: &Vec<usize>,
) -> (r: Vec<u8>)
    ensures
        r@ == failure_message(g@, inp@, fail_pos, expected@),
{
    let n = inp.len();
    let clamped = if fail_pos <= n {
        fail_pos
    } else {
        n
    };
    let p = start_at_or_before_exec(inp, clamped);
    proof {
        lemma_start_at_or_before(inp@, clamped as int);
    }
    let mut out: Vec<u8> = Vec::new();
    push_all(&mut out, "ABC parse failed at character ".as_bytes());
    push_decimal(&mut out, fail_pos as u64);
    push_all(&mut out, ", matched '".as_bytes());
    let ghost m1 = out@;
    let a = back_chars_exec(inp, p, 10);
    proof {
        lemma_back_chars(inp@, p as int, 10);
    }
    if fail_pos > 10 {
        push_all(&mut out, "...".as_bytes());
    }
    push_span(&mut out, inp, a, p);
    assert(out@ =~= m1 + left_context(inp@, p as int, fail_pos));
    push_all(&mut out, "', could not match '".as_bytes());
    let ghost m2 = out@;
    let b = fwd_chars_exec(inp, p, 10);
    proof {
        lemma_fwd_chars(inp@, p as int, 10);
    }
    push_span(&mut out, inp, p, b);
    if b < n {
        push_all(&mut out, "...".as_bytes());
    }
    assert(out@ =~= m2 + right_context(inp@, p as int));
    push_all(&mut out, "', expected ".as_bytes());
    push_rule_list(&mut out, g, expected);
    proof {
        assert(out@ =~= failure_message(g@, inp@, fail_pos, expected@));
    }
    out
}

} // verus!
