use abcparser::escapes::{abc_character_mnemonics, abc_named_entities, lookup};

#[test]
fn mnemonics_table() {
    let t = abc_character_mnemonics();
    assert_eq!(t.len(), 215);
    assert_eq!(lookup(&t, "\"A"), Some('\u{c4}'));
    assert_eq!(lookup(&t, "ss"), Some('\u{df}'));
    assert_eq!(lookup(&t, "^z"), Some('\u{1e91}'));
    assert_eq!(lookup(&t, "zz"), None);
    assert_eq!(lookup(&t, ""), None);
}

#[test]
fn named_entities_table() {
    let t = abc_named_entities();
    assert_eq!(t.len(), 252);
    assert_eq!(lookup(&t, "Alpha"), Some('\u{391}'));
    assert_eq!(lookup(&t, "quot"), Some('"'));
    assert_eq!(lookup(&t, "amp"), Some('&'));
    assert_eq!(lookup(&t, "zeta"), Some('\u{3b6}'));
    assert_eq!(lookup(&t, "Zeta "), None);
}

#[test]
fn table_keys_are_unique() {
    for t in [abc_character_mnemonics(), abc_named_entities()] {
        let mut keys: Vec<&str> = t.iter().map(|(k, _)| *k).collect();
        let n = keys.len();
        keys.sort();
        keys.dedup();
        assert_eq!(keys.len(), n);
    }
}
