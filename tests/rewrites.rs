use abcparser::canonify_music_code;

fn canonical(input: &str) -> String {
    let r = canonify_music_code(input);
    assert_eq!(r.status, 0, "input {:?} gave {:?}", input, r.text);
    r.text
}

#[test]
fn eol_trailing_blanks_are_trimmed() {
    assert_eq!(canonical("abc \t "), "abc");
    assert_eq!(canonical("abc\\  "), "abc\\");
}

#[test]
fn eol_without_blanks_is_kept() {
    assert_eq!(canonical("abc \\"), "abc \\");
    assert_eq!(canonical("abc|"), "abc|");
}

#[test]
fn bad_text_expression_gets_placement() {
    assert_eq!(canonical("\"hello\"a"), "\"@hello\"a");
}

#[test]
fn good_text_expression_is_kept() {
    assert_eq!(canonical("\"^hello\"a"), "\"^hello\"a");
    assert_eq!(canonical("\"Am7\"a"), "\"Am7\"a");
}

#[test]
fn chord_separator_kept_when_semicolon() {
    assert_eq!(canonical("\"C;G\"d"), "\"C;G\"d");
}

#[test]
fn standard_invisible_barline_is_kept() {
    assert_eq!(canonical("[|]abc"), "[|]abc");
    assert_eq!(canonical("abc[]"), "abc[|]");
}

#[test]
fn bare_multiplier_other_than_one_is_kept() {
    assert_eq!(canonical("a2"), "a2");
    assert_eq!(canonical("a01"), "a01");
    assert_eq!(canonical("a10"), "a10");
}

#[test]
fn full_lengths_other_than_unit_numerator_are_kept() {
    assert_eq!(canonical("a3/2"), "a3/2");
    assert_eq!(canonical("a3/1"), "a3");
    assert_eq!(canonical("a01/1"), "a");
    assert_eq!(canonical("a1/16"), "a/16");
}

#[test]
fn huge_numbers_pass_through() {
    assert_eq!(canonical("a99999999999999999999/3"), "a99999999999999999999/3");
    assert_eq!(canonical("a1/99999999999999999999"), "a/99999999999999999999");
    assert_eq!(canonical("a99999999999999999999/1"), "a99999999999999999999");
}

#[test]
fn short_slash_runs_are_kept() {
    assert_eq!(canonical("a/"), "a/");
    assert_eq!(canonical("a//"), "a//");
}

#[test]
fn long_slash_runs_become_powers_of_two() {
    let s63 = format!("a{}", "/".repeat(63));
    assert_eq!(canonical(&s63), "a/9223372036854775808");
    let s64 = format!("a{}", "/".repeat(64));
    assert_eq!(canonical(&s64), s64);
}

#[test]
fn smaller_lengths_other_than_two_and_four_are_kept() {
    assert_eq!(canonical("a/3"), "a/3");
    assert_eq!(canonical("a/8"), "a/8");
    assert_eq!(canonical("a/02"), "a/02");
}

#[test]
fn single_space_is_kept() {
    assert_eq!(canonical("a b"), "a b");
}

#[test]
fn tab_becomes_space() {
    assert_eq!(canonical("a\tb"), "a b");
}
