use abcparser::{canonify_music_code, ParseResult};

fn run(input: &str) -> ParseResult {
    canonify_music_code(input)
}

fn canonical(input: &str) -> String {
    let r = run(input);
    assert_eq!(r.status, 0, "input {:?} gave {:?}", input, r.text);
    r.text
}

#[test]
fn plain_notes_pass_through() {
    assert_eq!(canonical("abc"), "abc");
}

#[test]
fn note_lengths_are_canonified() {
    assert_eq!(canonical("a1 b2/1 c1/2 d1/4 e1/3"), "a b2 c/ d// e/3");
}

#[test]
fn whitespace_runs_become_one_space() {
    assert_eq!(canonical("A\t\tB  C"), "A B C");
}

#[test]
fn nonstandard_invisible_barline() {
    assert_eq!(canonical("[]|"), "[|]|");
}

#[test]
fn chord_newline_becomes_semicolon() {
    assert_eq!(canonical("\"C\\nG\"d"), "\"C;G\"d");
    assert_eq!(canonical("\"C;Dm\"abc"), "\"C;Dm\"abc");
}

#[test]
fn only_whitespace_is_a_parse_error() {
    let r = run("   ");
    assert_eq!(r.status, 1);
    assert!(r.text.starts_with("ABC parse failed at character "), "{}", r.text);
}

#[test]
fn hard_line_break_inside_line() {
    assert_eq!(canonical("abc $ def"), "abc $ def");
}

#[test]
fn single_note_length_laws() {
    let cases = [
        ("a1", "a"),
        ("a1/1", "a"),
        ("a2/1", "a2"),
        ("a1/2", "a/"),
        ("a1/4", "a//"),
        ("a1/3", "a/3"),
        ("a/2", "a/"),
        ("a/4", "a//"),
        ("a///", "a/8"),
        ("a////", "a/16"),
    ];
    for (input, want) in cases.iter() {
        assert_eq!(canonical(input), *want, "input {}", input);
    }
}

#[test]
fn slash_forms_are_fixed_points() {
    assert_eq!(canonical("a/"), "a/");
    assert_eq!(canonical("a//"), "a//");
}
