use abcparser::canon::{canonify_line, LineResult};
use abcparser::diag::parse_get_error_message;
use abcparser::fragment::{push_span, Frag};
use abcparser::grammar::{abc_grammar, ELEMENT, RULE_COUNT, WSP};
use abcparser::peg::{parse, Pe, Res, RuleDef, Token};
use abcparser::text::{power_of_two, push_decimal, span_value, trim_end_in_place};
use abcparser::walk::canonify_abc_visitor;

fn text(f: Frag, inp: &[u8]) -> Vec<u8> {
    f.to_bytes(inp)
}

#[test]
fn adjacent_slices_coalesce() {
    let inp = b"abcdefg";
    let f = Frag::from_slice(0, 1).add(Frag::from_slice(1, 3), inp);
    assert!(matches!(f, Frag::Slice(0, 3)));
    assert_eq!(text(f, inp), b"abc".to_vec());
}

#[test]
fn gapped_slices_materialize() {
    let inp = b"abcdefg";
    let f = Frag::from_slice(0, 1).add(Frag::from_slice(2, 3), inp);
    assert!(matches!(f, Frag::Owned(_)));
    assert_eq!(text(f, inp), b"ac".to_vec());
}

#[test]
fn owned_and_slice_concatenate() {
    let inp = b"abcdefg";
    let f = Frag::from_slice(0, 3).add(Frag::from_str("hello!"), inp);
    let g = f.add(Frag::from_slice(1, 2), inp);
    assert!(matches!(g, Frag::Owned(_)));
    let h = Frag::from_str("<").add(g, inp);
    assert!(matches!(h, Frag::Owned(_)));
    assert_eq!(text(h, inp), b"<abchello!b".to_vec());
}

#[test]
fn token_fragment_is_its_span() {
    let t = Token { rule: 0, start: 2, end: 5 };
    assert_eq!(text(Frag::from_token(&t), b"abcdefg"), b"cde".to_vec());
}

#[test]
fn span_values() {
    let inp = b"x0123/18446744073709551615/18446744073709551616/1a";
    assert_eq!(span_value(inp, 1, 5), Some(123));
    assert_eq!(span_value(inp, 6, 26), Some(u64::MAX));
    assert_eq!(span_value(inp, 27, 47), None);
    assert_eq!(span_value(inp, 48, 50), None);
    assert_eq!(span_value(inp, 1, 1), None);
}

#[test]
fn decimals_and_powers() {
    let mut v = b"/".to_vec();
    push_decimal(&mut v, power_of_two(4));
    assert_eq!(v, b"/16".to_vec());
    let mut w = Vec::new();
    push_decimal(&mut w, 0);
    push_decimal(&mut w, 907);
    assert_eq!(w, b"0907".to_vec());
    assert_eq!(power_of_two(0), 1);
    assert_eq!(power_of_two(63), 1u64 << 63);
}

#[test]
fn trimming_and_spans() {
    let mut v = b"ab \t \t".to_vec();
    trim_end_in_place(&mut v);
    assert_eq!(v, b"ab".to_vec());
    let mut w = b"x".to_vec();
    push_span(&mut w, b"hello", 1, 4);
    assert_eq!(w, b"xell".to_vec());
}

fn tiny_grammar() -> Vec<RuleDef> {
    // word <- letter+ ("," letter+)* eoi ; letter <- [a-z]
    vec![
        RuleDef {
            name: "word",
            body: Pe::Cat(
                Box::new(Pe::Plus(Box::new(Pe::Call(1)))),
                Box::new(Pe::Cat(
                    Box::new(Pe::Star(Box::new(Pe::Cat(
                        Box::new(Pe::Lit(",")),
                        Box::new(Pe::Plus(Box::new(Pe::Call(1)))),
                    )))),
                    Box::new(Pe::Eoi),
                )),
            ),
        },
        RuleDef { name: "letter", body: Pe::Range(b'a', b'z') },
    ]
}

#[test]
fn interpreter_builds_preorder_queue() {
    let g = tiny_grammar();
    let (res, run) = parse(&g, 0, b"ab,c");
    assert_eq!(res, Res::Matched);
    assert_eq!(run.pos, 4);
    let want = vec![
        Token { rule: 0, start: 0, end: 4 },
        Token { rule: 1, start: 0, end: 1 },
        Token { rule: 1, start: 1, end: 2 },
        Token { rule: 1, start: 3, end: 4 },
    ];
    assert_eq!(run.toks, want);
}

#[test]
fn interpreter_records_furthest_failure() {
    let g = tiny_grammar();
    let (res, run) = parse(&g, 0, b"ab,C");
    assert_eq!(res, Res::Failed);
    assert!(run.toks.is_empty());
    assert_eq!(run.fail_pos, 3);
    assert_eq!(run.expected, vec![1]);
    let msg = parse_get_error_message(&g, b"ab,C", run.fail_pos, &run.expected);
    assert_eq!(
        String::from_utf8(msg).unwrap(),
        "ABC parse failed at character 3, matched 'ab,', could not match 'C', expected [letter]"
    );
}

#[test]
fn interpreter_reports_missing_rule() {
    let g = vec![RuleDef { name: "broken", body: Pe::Call(7) }];
    let (res, _) = parse(&g, 0, b"x");
    assert_eq!(res, Res::Exhausted);
}

#[test]
fn error_message_lists_several_rules() {
    let g = tiny_grammar();
    let msg = parse_get_error_message(&g, b"0123456789abcdefghijkl", 12, &vec![0, 1, 5]);
    assert_eq!(
        String::from_utf8(msg).unwrap(),
        "ABC parse failed at character 12, matched '...23456789ab', could not match 'cdefghijkl', expected [word, letter, ?]"
    );
    let msg2 = parse_get_error_message(&g, b"0123456789abcdefghijklm", 12, &vec![1]);
    assert_eq!(
        String::from_utf8(msg2).unwrap(),
        "ABC parse failed at character 12, matched '...23456789ab', could not match 'cdefghijkl...', expected [letter]"
    );
}

#[test]
fn grammar_has_every_rule() {
    let g = abc_grammar();
    assert_eq!(g.len(), RULE_COUNT);
    assert_eq!(g[0].name, "music_code_line");
    assert_eq!(g[RULE_COUNT - 1].name, "eoi");
}

#[test]
fn line_results_by_kind() {
    let g = abc_grammar();
    match canonify_line(&g, b"a1/2 \t") {
        LineResult::Canonical(v) => assert_eq!(v, b"a/".to_vec()),
        _ => panic!("expected a canonical line"),
    }
    match canonify_line(&g, b"%") {
        LineResult::ParseError(v) => {
            assert!(String::from_utf8(v).unwrap().starts_with("ABC parse failed at character 0"))
        }
        _ => panic!("expected a parse error"),
    }
}

#[test]
fn visitor_on_a_hand_made_queue() {
    // A whitespace token inside a parent token: the tab run collapses.
    let inp = b"a\t\tb";
    let q = vec![
        Token { rule: ELEMENT, start: 0, end: 4 },
        Token { rule: WSP, start: 1, end: 3 },
    ];
    assert_eq!(canonify_abc_visitor(inp, &q), b"a b".to_vec());
}
