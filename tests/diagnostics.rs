use abcparser::canonify_music_code;

#[test]
fn failure_at_start_has_no_left_context() {
    let r = canonify_music_code("   ");
    assert_eq!(r.status, 1);
    assert!(
        r.text.starts_with("ABC parse failed at character 0, matched '', could not match '   ', expected ["),
        "{}",
        r.text
    );
    assert!(r.text.ends_with(']'), "{}", r.text);
}

#[test]
fn failure_far_in_has_elided_context() {
    let r = canonify_music_code("abcdefgabcdef %abcdefgabcdefg");
    assert_eq!(r.status, 1);
    assert!(
        r.text.starts_with(
            "ABC parse failed at character 14, matched '...efgabcdef ', could not match '%abcdefgab...', expected ["
        ),
        "{}",
        r.text
    );
}

#[test]
fn failure_near_end_has_no_right_ellipsis() {
    let r = canonify_music_code("abc %de");
    assert_eq!(r.status, 1);
    assert!(
        r.text.starts_with("ABC parse failed at character 4, matched 'abc ', could not match '%de', expected ["),
        "{}",
        r.text
    );
    assert!(r.text.contains("element"), "{}", r.text);
}

#[test]
fn empty_line_is_a_parse_error() {
    let r = canonify_music_code("");
    assert_eq!(r.status, 1);
    assert!(r.text.starts_with("ABC parse failed at character 0, matched '', could not match '', expected ["));
}

#[test]
fn multibyte_context_is_cut_on_characters() {
    let r = canonify_music_code("a\u{20ac}\u{20ac}\u{20ac}\u{20ac}");
    assert_eq!(r.status, 1, "{}", r.text);
    assert!(
        r.text.starts_with(
            "ABC parse failed at character 1, matched 'a', could not match '\u{20ac}\u{20ac}\u{20ac}\u{20ac}', expected ["
        ),
        "{}",
        r.text
    );
}

#[test]
fn multibyte_context_counts_ten_characters() {
    let euros = "\u{20ac}".repeat(12);
    let input = format!("\"{}\" %", euros);
    let r = canonify_music_code(&input);
    assert_eq!(r.status, 1, "{}", r.text);
    let left = format!("...{}\" ", "\u{20ac}".repeat(8));
    assert!(
        r.text.starts_with(&format!(
            "ABC parse failed at character 39, matched '{}', could not match '%', expected [",
            left
        )),
        "{}",
        r.text
    );
    let r2 = canonify_music_code(&format!("a{}", euros));
    assert_eq!(r2.status, 1, "{}", r2.text);
    assert!(
        r2.text.starts_with(&format!(
            "ABC parse failed at character 1, matched 'a', could not match '{}...', expected [",
            "\u{20ac}".repeat(10)
        )),
        "{}",
        r2.text
    );
}

#[test]
fn left_ellipsis_follows_byte_offset() {
    let r = canonify_music_code("\"\u{e9}\u{e9}\u{e9}\u{e9}\u{e9}\"%");
    assert_eq!(r.status, 1, "{}", r.text);
    assert!(
        r.text.starts_with(
            "ABC parse failed at character 12, matched '...\"\u{e9}\u{e9}\u{e9}\u{e9}\u{e9}\"', could not match '%', expected ["
        ),
        "{}",
        r.text
    );
}
