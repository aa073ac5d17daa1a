use abcparser::canonify_music_code;

const SAMPLES: &[&str] = &[
    "abc",
    "a1 b2/1 c1/2 d1/4 e1/3",
    "A\t\tB  C",
    "[]|",
    "\"C\\nG\"d",
    "abc $ def",
    "|:a>b c<d|[1 e2 f:|[2 g4|]",
    "{/g}a (3abc !trill!d .e ~f [CEG] z2 Z4 x",
    "\"hello\"a \"^text\"b [K:Am] [M:6/8] [L:1/8] [Q:1/4=120] [P:A] [V:1] [U:T=!trill!]",
    "a/// b//// c/2 d/4 e \t",
    "a2- a & b (c d) ::",
    "abc \\",
];

#[test]
fn canonification_is_idempotent() {
    for input in SAMPLES {
        let first = canonify_music_code(input);
        assert_eq!(first.status, 0, "input {:?}: {}", input, first.text);
        let second = canonify_music_code(&first.text);
        assert_eq!(second.status, 0, "output {:?}: {}", first.text, second.text);
        assert_eq!(second.text, first.text);
    }
}

#[test]
fn line_without_rewrites_is_unchanged() {
    let input = "|:a>b c<d|[1e2f:|[2g4|]{/g}a(3abc!trill!d.e~f[CEG]z2Z4x\"^text\"b[K:Am][M:6/8]";
    assert_eq!(canonify_music_code(input).text, input);
}

#[test]
fn successful_output_has_no_trailing_blank() {
    for input in ["a ", "a\t", "a |  ", "a \\ \t", "[K:G] \t \t"] {
        let r = canonify_music_code(input);
        assert_eq!(r.status, 0, "input {:?}: {}", input, r.text);
        assert!(!r.text.ends_with(' ') && !r.text.ends_with('\t'), "{:?}", r.text);
    }
}

#[test]
fn status_is_always_known() {
    let inputs = [
        "", " ", "%", "\u{e4}\u{20ac}", "\"", "[", "]]]]", "a\u{0}b", "!!!!", "\"\u{266f}\"",
        "[K:", "((((((((", "{", "a".repeat(5000).leak(),
    ];
    for input in inputs {
        let r = canonify_music_code(input);
        assert!(r.status == 0 || r.status == 1 || r.status == 2, "{:?}", input);
    }
}

#[test]
fn whitespace_runs_collapse() {
    assert_eq!(canonify_music_code("a \t \t b\t\t\tc  d").text, "a b c d");
}
