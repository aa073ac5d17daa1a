//! Canonification of one line: parse, then walk on success, or describe the
//! failure.

use vstd::prelude::*;
use vstd::string::StringSliceAdditionalSpecFns;
use vstd::utf8::{valid_utf8, decode_utf8, encode_utf8_valid_utf8};
use crate::diag::{failure_message, parse_get_error_message, lemma_failure_message_valid};
use crate::grammar::{abc_grammar, abc_rules, MUSIC_CODE_LINE};
use crate::peg::{parse, peg_parse, Res, RuleDef};
use crate::walk::{walk, canonify_abc_visitor};

verus! {

/// What became of one line, as bytes.
pub enum LineResult {
    /// The line parsed; its canonical text.
    Canonical(Vec<u8>),
    /// The line does not parse; the diagnostic.
    ParseError(Vec<u8>),
    /// The rules nested deeper than the interpreter follows.
    Fault,
}

/// `r` is what becomes of the line `inp` under the grammar `g`.
pub open spec fn line_result_of(g: Seq<RuleDef>, inp: Seq<u8>, r: LineResult) -> bool {
    let (res, st) = peg_parse(g, MUSIC_CODE_LINE, inp);
    match r {
        LineResult::Canonical(v) => res is Matched && v@ == walk(st.toks, inp),
        LineResult::ParseError(v) => res is Failed && v@ == failure_message(
            g,
            inp,
            st.fail_pos,
            st.expected,
        ),
        LineResult::Fault => res is Exhausted,
    }
}

/// Canonifies the line `inp` under the grammar `g`.
pub fn canonify_line(g: &Vec<RuleDef>, inp: &[u8]) -> (r: LineResult)
    ensures
        line_result_of(g@, inp@, r),
{
    let (res, run) = parse(g, MUSIC_CODE_LINE, inp);
    match res {
        Res::Matched => LineResult::Canonical(canonify_abc_visitor(inp, &run.toks)),
        Res::Failed => LineResult::ParseError(
            parse_get_error_message(g, inp, run.fail_pos, &run.expected),
        ),
        Res::Exhausted => LineResult::Fault,
    }
}

/// The outcome of canonifying a line: `status` 0 with the canonical text,
/// 1 with a parse diagnostic, or 2 with the description of an internal fault.
pub struct ParseResult {
    pub status: i32,
    pub text: String,
}

/// `r` is the outcome for the line `inp` whose bytes-level result is `lr`.
pub open spec fn parse_result_of(lr: LineResult, r: ParseResult) -> bool {
    match lr {
        LineResult::Canonical(v) => if valid_utf8(v@) {
            r.status == 0 && r.text@ == decode_utf8(v@)
        } else {
            r.status == 2
        },
        LineResult::ParseError(v) => if valid_utf8(v@) {
            r.status == 1 && r.text@ == decode_utf8(v@)
        } else {
            r.status == 2
        },
        LineResult::Fault => r.status == 2,
    }
}

/// Relies on std's `String::from_utf8`: it succeeds exactly on valid UTF-8,
/// and the string then holds the characters that the bytes encode.
#[verifier::external_body]
fn string_from_utf8(b: Vec<u8>) -> (r: Option<String>)
    ensures
        r is Some <==> valid_utf8(b@),
        r matches Some(s) ==> s@ == decode_utf8(b@),
{
    String::from_utf8(b).ok()
}

fn fault(msg: &str) -> (r: ParseResult)
    ensures
        r.status == 2,
{
    ParseResult { status: 2, text: msg.to_owned() }
}

/// Turns a bytes-level result into a `ParseResult`.
pub fn to_parse_result(lr: LineResult) -> (r: ParseResult)
    ensures
        parse_result_of(lr, r),
{
    match lr {
        LineResult::Canonical(v) => match string_from_utf8(v) {
            Some(s) => ParseResult { status: 0, text: s },
            None => fault("canonical text is not valid UTF-8"),
        },
        LineResult::ParseError(v) => match string_from_utf8(v) {
            Some(s) => ParseResult { status: 1, text: s },
            None => fault("parse diagnostic is not valid UTF-8"),
        },
        LineResult::Fault => fault("rules nested too deeply"),
    }
}

/// `r` is the outcome for the line `inp` under the grammar `g`: status 0
/// with the canonical text, 1 with the diagnostic, or 2 where the rules
/// nest too deeply or the text is not valid UTF-8.
pub open spec fn outcome_of(g: Seq<RuleDef>, inp: Seq<u8>, r: ParseResult) -> bool {
    let (res, st) = peg_parse(g, MUSIC_CODE_LINE, inp);
    if res is Matched {
        let out = walk(st.toks, inp);
        if valid_utf8(out) {
            r.status == 0 && r.text@ == decode_utf8(out)
        } else {
            r.status == 2
        }
    } else if res is Failed {
        let msg = failure_message(g, inp, st.fail_pos, st.expected);
        if valid_utf8(msg) {
            r.status == 1 && r.text@ == decode_utf8(msg)
        } else {
            r.status == 2
        }
    } else {
        r.status == 2
    }
}

/// Canonifies one line of ABC music code.
pub fn canonify_music_code(input: &str) -> (r: ParseResult)
    ensures
        r.status == 0 || r.status == 1 || r.status == 2,
        outcome_of(abc_rules(), input.spec_bytes(), r),
        r.status == 1 <==> peg_parse(abc_rules(), MUSIC_CODE_LINE, input.spec_bytes()).0 is Failed,
        r.status == 0 ==> peg_parse(abc_rules(), MUSIC_CODE_LINE, input.spec_bytes()).0 is Matched,
{
    proof {
        encode_utf8_valid_utf8(input@);
        let st = peg_parse(abc_rules(), MUSIC_CODE_LINE, input.spec_bytes()).1;
        lemma_failure_message_valid(abc_rules(), input.spec_bytes(), st.fail_pos, st.expected);
    }
    let g = abc_grammar();
    let lr = canonify_line(&g, input.as_bytes());
    let ghost lr0 = lr;
    let r = to_parse_result(lr);
    assert(line_result_of(abc_rules(), input.spec_bytes(), lr0) && parse_result_of(lr0, r));
    r
}

} // verus!
