//! The grammar of one ABC music-code line, as a rule table for the PEG
//! interpreter. Rule `r` of the table is the rule whose constant is `r`.

use vstd::prelude::*;
use crate::peg::{Pe, RuleDef};

verus! {

pub const MUSIC_CODE_LINE: usize = 0;
pub const ABC_LINE: usize = 1;
pub const ABC_EOL: usize = 2;
pub const LINE_CONTINUATION: usize = 3;
pub const ELEMENT: usize = 4;
pub const BROKEN_RHYTHM: usize = 5;
pub const B_SEP: usize = 6;
pub const B_ELEM: usize = 7;
pub const STEM: usize = 8;
pub const NOTE: usize = 9;
pub const PITCH: usize = 10;
pub const BASENOTE: usize = 11;
pub const ACCIDENTAL: usize = 12;
pub const OCTAVE: usize = 13;
pub const NOTE_LENGTH: usize = 14;
pub const NOTE_LENGTH_FULL: usize = 15;
pub const NOTE_LENGTH_SMALLER: usize = 16;
pub const NOTE_LENGTH_BIGGER: usize = 17;
pub const NOTE_LENGTH_SLASHES: usize = 18;
pub const NOTE_LENGTH_STRICT: usize = 19;
pub const REST: usize = 20;
pub const MULTI_MEASURE_REST: usize = 21;
pub const TIE: usize = 22;
pub const SLUR_BEGIN: usize = 23;
pub const SLUR_END: usize = 24;
pub const ROLLBACK: usize = 25;
pub const GRACE_NOTES: usize = 26;
pub const GRACE_NOTE_STEM: usize = 27;
pub const GRACE_NOTE: usize = 28;
pub const ACCIACCATURA: usize = 29;
pub const TUPLET: usize = 30;
pub const GRACING: usize = 31;
pub const LONG_GRACING: usize = 32;
pub const GRACING1: usize = 33;
pub const GRACING2: usize = 34;
pub const GRACING3: usize = 35;
pub const GRACING_NONSTANDARD: usize = 36;
pub const GRACING4: usize = 37;
pub const GRACING_CATCHALL: usize = 38;
pub const USERDEF_SYMBOL: usize = 39;
pub const CHORD_OR_TEXT: usize = 40;
pub const CHORD_NEWLINE: usize = 41;
pub const CHORD: usize = 42;
pub const CHORD_ACCIDENTAL: usize = 43;
pub const CHORD_TYPE: usize = 44;
pub const TEXT_EXPRESSION: usize = 45;
pub const BAD_TEXT_EXPRESSION: usize = 46;
pub const NON_QUOTE: usize = 47;
pub const BARLINE: usize = 48;
pub const INVISIBLE_BARLINE: usize = 49;
pub const DOUBLE_REPEAT_BARLINE: usize = 50;
pub const DASHED_BARLINE: usize = 51;
pub const NTH_REPEAT: usize = 52;
pub const NTH_REPEAT_NUM: usize = 53;
pub const NTH_REPEAT_TEXT: usize = 54;
pub const END_NTH_REPEAT: usize = 55;
pub const MEASURE_REPEAT: usize = 56;
pub const INLINE_FIELD: usize = 57;
pub const IFIELD_TEXT: usize = 58;
pub const IFIELD_KEY: usize = 59;
pub const IFIELD_LENGTH: usize = 60;
pub const IFIELD_METER: usize = 61;
pub const IFIELD_PART: usize = 62;
pub const IFIELD_TEMPO: usize = 63;
pub const IFIELD_USERDEF: usize = 64;
pub const IFIELD_VOICE: usize = 65;
pub const NON_RIGHT_BRACKET: usize = 66;
pub const KEY: usize = 67;
pub const KEY_TONIC: usize = 68;
pub const MODE: usize = 69;
pub const KEY_ACCIDENTAL: usize = 70;
pub const CLEF: usize = 71;
pub const CLEF_NAME: usize = 72;
pub const METER: usize = 73;
pub const METER_FRACTION: usize = 74;
pub const METER_NUM: usize = 75;
pub const TEMPO: usize = 76;
pub const TEMPO_SPEC: usize = 77;
pub const TEMPO_TEXT: usize = 78;
pub const VOICE_ID: usize = 79;
pub const HARD_LINE_BREAK: usize = 80;
pub const UNUSED_CHAR: usize = 81;
pub const RESERVED_CHAR: usize = 82;
pub const BACKQUOTE: usize = 83;
pub const DIGITS: usize = 84;
pub const WSP: usize = 85;
pub const EOI: usize = 86;

/// The number of rules of the grammar.
pub const RULE_COUNT: usize = 87;

pub open spec fn pe_opt(e: Pe) -> Pe {
    Pe::Opt(Box::new(e))
}

pub open spec fn pe_star(e: Pe) -> Pe {
    Pe::Star(Box::new(e))
}

pub open spec fn pe_plus(e: Pe) -> Pe {
    Pe::Plus(Box::new(e))
}

pub open spec fn pe_not(e: Pe) -> Pe {
    Pe::Not(Box::new(e))
}

pub open spec fn pe_cat(a: Pe, b: Pe) -> Pe {
    Pe::Cat(Box::new(a), Box::new(b))
}

pub open spec fn pe_alt(a: Pe, b: Pe) -> Pe {
    Pe::Alt(Box::new(a), Box::new(b))
}

/// `e_1 ... e_n acc`, for `w = [e_1, ..., e_n]`.
pub open spec fn cat_back(w: Seq<Pe>, acc: Pe) -> Pe
    decreases w.len(),
{
    if w.len() == 0 {
        acc
    } else {
        cat_back(w.drop_last(), pe_cat(w.last(), acc))
    }
}

/// The sequence of the expressions of `v`, in order.
pub open spec fn pe_cats(v: Seq<Pe>) -> Pe {
    if v.len() == 0 {
        Pe::Lit("")
    } else {
        cat_back(v.drop_last(), v.last())
    }
}

/// `e_1 | ... | e_n | acc`, for `w = [e_1, ..., e_n]`.
pub open spec fn alt_back(w: Seq<Pe>, acc: Pe) -> Pe
    decreases w.len(),
{
    if w.len() == 0 {
        acc
    } else {
        alt_back(w.drop_last(), pe_alt(w.last(), acc))
    }
}

/// The ordered choice among the expressions of `v`, first one first.
pub open spec fn pe_alts(v: Seq<Pe>) -> Pe {
    if v.len() == 0 {
        pe_not(Pe::Lit(""))
    } else {
        alt_back(v.drop_last(), v.last())
    }
}

pub open spec fn lit_of(s: &'static str) -> Pe {
    Pe::Lit(s)
}

/// The ordered choice among the literals of `v`, first one first.
pub open spec fn pe_lits(v: Seq<&'static str>) -> Pe {
    pe_alts(v.map_values(|s: &'static str| lit_of(s)))
}

/// The optional tails of an abbreviation, innermost last.
pub open spec fn abbrev_back(w: Seq<&'static str>, acc: Option<Pe>) -> Option<Pe>
    decreases w.len(),
{
    if w.len() == 0 {
        acc
    } else {
        abbrev_back(
            w.drop_last(),
            Some(
                match acc {
                    Some(rest) => pe_opt(pe_cat(Pe::Lit(w.last()), rest)),
                    None => pe_opt(Pe::Lit(w.last())),
                },
            ),
        )
    }
}

/// `head`, then any prefix of the concatenation of `tail`.
pub open spec fn pe_abbrev(head: &'static str, tail: Seq<&'static str>) -> Pe {
    match abbrev_back(tail, None) {
        Some(rest) => pe_cat(Pe::Lit(head), rest),
        None => Pe::Lit(head),
    }
}

pub open spec fn pe_digit() -> Pe {
    Pe::Range(0x30, 0x39)
}

pub open spec fn pe_letter() -> Pe {
    pe_alt(Pe::Range(0x41, 0x5a), Pe::Range(0x61, 0x7a))
}

/// Anything but a chord separator or a double quote, one character.
pub open spec fn pe_annotation_char() -> Pe {
    pe_cat(pe_not(Pe::Call(CHORD_NEWLINE)), Pe::Call(NON_QUOTE))
}

/// `DIGITS ("+" DIGITS)*`
pub open spec fn pe_digit_sum() -> Pe {
    pe_cat(Pe::Call(DIGITS), pe_star(pe_cat(Pe::Lit("+"), Pe::Call(DIGITS))))
}

fn lit(s: &'static str) -> (e: Pe)
    ensures
        e == Pe::Lit(s),
{
    Pe::Lit(s)
}

fn rng(lo: u8, hi: u8) -> (e: Pe)
    ensures
        e == Pe::Range(lo, hi),
{
    Pe::Range(lo, hi)
}

fn call(r: usize) -> (e: Pe)
    ensures
        e == Pe::Call(r),
{
    Pe::Call(r)
}

fn opt(e: Pe) -> (r: Pe)
    ensures
        r == pe_opt(e),
{
    Pe::Opt(Box::new(e))
}

fn star(e: Pe) -> (r: Pe)
    ensures
        r == pe_star(e),
{
    Pe::Star(Box::new(e))
}

fn plus(e: Pe) -> (r: Pe)
    ensures
        r == pe_plus(e),
{
    Pe::Plus(Box::new(e))
}

fn not(e: Pe) -> (r: Pe)
    ensures
        r == pe_not(e),
{
    Pe::Not(Box::new(e))
}

fn cat(a: Pe, b: Pe) -> (e: Pe)
    ensures
        e == pe_cat(a, b),
{
    Pe::Cat(Box::new(a), Box::new(b))
}

fn alt(a: Pe, b: Pe) -> (e: Pe)
    ensures
        e == pe_alt(a, b),
{
    Pe::Alt(Box::new(a), Box::new(b))
}

fn cats(v: Vec<Pe>) -> (r: Pe)
    ensures
        r == pe_cats(v@),
{
    let ghost orig = v@;
    let mut v = v;
    let mut acc = match v.pop() {
        Some(e) => e,
        None => lit(""),
    };
    while v.len() > 0
        invariant
            orig.len() == 0 ==> v@.len() == 0,
            pe_cats(orig) == (if orig.len() == 0 {
                acc
            } else {
                cat_back(v@, acc)
            }),
        decreases v@.len(),
    {
        let ghost before = v@;
        match v.pop() {
            Some(e) => {
                proof {
                    assert(before.drop_last() =~= v@);
                }
                acc = cat(e, acc);
            },
            None => {},
        }
    }
    acc
}

fn alts(v: Vec<Pe>) -> (r: Pe)
    ensures
        r == pe_alts(v@),
{
    let ghost orig = v@;
    let mut v = v;
    let mut acc = match v.pop() {
        Some(e) => e,
        None => not(lit("")),
    };
    while v.len() > 0
        invariant
            orig.len() == 0 ==> v@.len() == 0,
            pe_alts(orig) == (if orig.len() == 0 {
                acc
            } else {
                alt_back(v@, acc)
            }),
        decreases v@.len(),
    {
        let ghost before = v@;
        match v.pop() {
            Some(e) => {
                proof {
                    assert(before.drop_last() =~= v@);
                }
                acc = alt(e, acc);
            },
            None => {},
        }
    }
    acc
}

fn lits(v: Vec<&'static str>) -> (r: Pe)
    ensures
        r == pe_lits(v@),
{
    let mut es: Vec<Pe> = Vec::new();
    let mut i: usize = 0;
    while i < v.len()
        invariant
            i <= v@.len(),
            es@ == v@.subrange(0, i as int).map_values(|s: &'static str| lit_of(s)),
        decreases v@.len() - i,
    {
        es.push(lit(v[i]));
        proof {
            assert(v@.subrange(0, i + 1).map_values(|s: &'static str| lit_of(s))
                =~= v@.subrange(0, i as int).map_values(|s: &'static str| lit_of(s)).push(lit_of(v@[i as int])));
        }
        i = i + 1;
    }
    proof {
        assert(v@.subrange(0, v@.len() as int) =~= v@);
    }
    alts(es)
}

fn abbrev(head: &'static str, tail: Vec<&'static str>) -> (r: Pe)
    ensures
        r == pe_abbrev(head, tail@),
{
    let ghost orig = tail@;
    let mut tail = tail;
    let mut acc: Option<Pe> = None;
    while tail.len() > 0
        invariant
            abbrev_back(orig, None) == abbrev_back(tail@, acc),
        decreases tail@.len(),
    {
        let ghost before = tail@;
        match tail.pop() {
            Some(c) => {
                proof {
                    assert(before.drop_last() =~= tail@);
                }
                acc = Some(
                    match acc {
                        Some(rest) => opt(cat(lit(c), rest)),
                        None => opt(lit(c)),
                    },
                );
            },
            None => {},
        }
    }
    match acc {
        Some(rest) => cat(lit(head), rest),
        None => lit(head),
    }
}

fn digit() -> (e: Pe)
    ensures
        e == pe_digit(),
{
    rng(0x30, 0x39)
}

fn letter() -> (e: Pe)
    ensures
        e == pe_letter(),
{
    alt(rng(0x41, 0x5a), rng(0x61, 0x7a))
}

fn annotation_char() -> (e: Pe)
    ensures
        e == pe_annotation_char(),
{
    cat(not(call(CHORD_NEWLINE)), call(NON_QUOTE))
}

fn digit_sum() -> (e: Pe)
    ensures
        e == pe_digit_sum(),
{
    cat(call(DIGITS), star(cat(lit("+"), call(DIGITS))))
}

fn def(name: &'static str, body: Pe) -> (r: RuleDef)
    ensures
        r == (RuleDef { name, body }),
{
    RuleDef { name, body }
}

/// The rules of the grammar, rule `r` at index `r`.
pub open spec fn abc_rules() -> Seq<RuleDef> {
    seq![
        RuleDef {
            name: "music_code_line",
            body: pe_cat(Pe::Call(ABC_LINE), Pe::Call(EOI)),
        },
        RuleDef {
            name: "abc_line",
            body: pe_cat(
                pe_alt(
                    pe_cats(
                        seq![
                            pe_opt(Pe::Call(BARLINE)),
                            pe_plus(Pe::Call(ELEMENT)),
                            pe_star(pe_cat(Pe::Call(BARLINE), pe_plus(Pe::Call(ELEMENT)))),
                            pe_opt(Pe::Call(BARLINE)),
                        ],
                    ),
                    pe_plus(Pe::Call(BARLINE)),
                ),
                Pe::Call(ABC_EOL),
            ),
        },
        RuleDef {
            name: "abc_eol",
            body: pe_cat(pe_opt(Pe::Call(LINE_CONTINUATION)), pe_star(Pe::Call(WSP))),
        },
        RuleDef {
            name: "line_continuation",
            body: Pe::Lit("\\"),
        },
        RuleDef {
            name: "element",
            body: pe_alts(
                seq![
                    Pe::Call(BROKEN_RHYTHM),
                    Pe::Call(STEM),
                    // Whitespace is an element only when more follows: blanks at
                    // the end of the line belong to `abc_eol`, which trims them,
                    // and a line of blanks alone does not parse.
                    pe_cat(Pe::Call(WSP), pe_not(Pe::Eoi)),
                    Pe::Call(CHORD_OR_TEXT),
                    Pe::Call(GRACING),
                    Pe::Call(GRACE_NOTES),
                    Pe::Call(TUPLET),
                    Pe::Call(SLUR_BEGIN),
                    Pe::Call(SLUR_END),
                    Pe::Call(ROLLBACK),
                    Pe::Call(MULTI_MEASURE_REST),
                    Pe::Call(MEASURE_REPEAT),
                    Pe::Call(NTH_REPEAT),
                    Pe::Call(END_NTH_REPEAT),
                    Pe::Call(INLINE_FIELD),
                    Pe::Call(HARD_LINE_BREAK),
                    Pe::Call(UNUSED_CHAR),
                ],
            ),
        },
        RuleDef {
            name: "broken_rhythm",
            body: pe_cats(
                seq![
                    Pe::Call(STEM),
                    pe_star(Pe::Call(B_ELEM)),
                    Pe::Call(B_SEP),
                    pe_opt(Pe::Call(B_SEP)),
                    pe_opt(Pe::Call(B_SEP)),
                    pe_star(Pe::Call(B_ELEM)),
                    Pe::Call(STEM),
                ],
            ),
        },
        RuleDef {
            name: "b_sep",
            body: pe_lits(seq!["<", ">"]),
        },
        RuleDef {
            name: "b_elem",
            body: pe_alts(
                seq![
                    Pe::Call(WSP),
                    Pe::Call(CHORD_OR_TEXT),
                    Pe::Call(GRACING),
                    Pe::Call(GRACE_NOTES),
                    Pe::Call(SLUR_BEGIN),
                    Pe::Call(SLUR_END),
                ],
            ),
        },
        RuleDef {
            name: "stem",
            body: pe_alts(
                seq![
                    pe_cats(
                        seq![
                            Pe::Lit("["),
                            Pe::Call(NOTE),
                            pe_plus(Pe::Call(NOTE)),
                            Pe::Lit("]"),
                            pe_opt(Pe::Call(TIE)),
                        ],
                    ),
                    Pe::Call(NOTE),
                    Pe::Call(REST),
                ],
            ),
        },
        RuleDef {
            name: "note",
            body: pe_cats(seq![Pe::Call(PITCH), pe_opt(Pe::Call(NOTE_LENGTH)), pe_opt(Pe::Call(TIE))]),
        },
        RuleDef {
            name: "pitch",
            body: pe_cats(seq![pe_opt(Pe::Call(ACCIDENTAL)), Pe::Call(BASENOTE), pe_opt(Pe::Call(OCTAVE))]),
        },
        RuleDef {
            name: "basenote",
            body: pe_alt(Pe::Range(0x41, 0x47), Pe::Range(0x61, 0x67)),
        },
        RuleDef {
            name: "accidental",
            body: pe_lits(seq!["^^", "^", "__", "_", "="]),
        },
        RuleDef {
            name: "octave",
            body: pe_alt(pe_plus(Pe::Lit("'")), pe_plus(Pe::Lit(","))),
        },
        RuleDef {
            name: "note_length",
            body: pe_alts(
                seq![
                    Pe::Call(NOTE_LENGTH_FULL),
                    Pe::Call(NOTE_LENGTH_SMALLER),
                    Pe::Call(NOTE_LENGTH_BIGGER),
                    Pe::Call(NOTE_LENGTH_SLASHES),
                ],
            ),
        },
        RuleDef {
            name: "note_length_full",
            body: pe_cats(seq![Pe::Call(DIGITS), Pe::Lit("/"), Pe::Call(DIGITS)]),
        },
        RuleDef {
            name: "note_length_smaller",
            body: pe_cat(Pe::Lit("/"), Pe::Call(DIGITS)),
        },
        RuleDef {
            name: "note_length_bigger",
            body: Pe::Call(DIGITS),
        },
        RuleDef {
            name: "note_length_slashes",
            body: pe_plus(Pe::Lit("/")),
        },
        RuleDef {
            name: "note_length_strict",
            body: pe_alt(pe_cats(seq![Pe::Call(DIGITS), Pe::Lit("/"), Pe::Call(DIGITS)]), Pe::Lit("1")),
        },
        RuleDef {
            name: "rest",
            body: pe_cat(pe_lits(seq!["x", "y", "z"]), pe_opt(Pe::Call(NOTE_LENGTH))),
        },
        RuleDef {
            name: "multi_measure_rest",
            body: pe_cat(Pe::Lit("Z"), pe_star(pe_digit())),
        },
        RuleDef {
            name: "tie",
            body: Pe::Lit("-"),
        },
        RuleDef {
            name: "slur_begin",
            body: Pe::Lit("("),
        },
        RuleDef {
            name: "slur_end",
            body: Pe::Lit(")"),
        },
        RuleDef {
            name: "rollback",
            body: Pe::Lit("&"),
        },
        RuleDef {
            name: "grace_notes",
            body: pe_cats(
                seq![Pe::Lit("{"), pe_opt(Pe::Call(ACCIACCATURA)), pe_plus(Pe::Call(GRACE_NOTE_STEM)), Pe::Lit("}")],
            ),
        },
        RuleDef {
            name: "grace_note_stem",
            body: pe_alt(
                Pe::Call(GRACE_NOTE),
                pe_cats(seq![Pe::Lit("["), Pe::Call(GRACE_NOTE), pe_plus(Pe::Call(GRACE_NOTE)), Pe::Lit("]")]),
            ),
        },
        RuleDef {
            name: "grace_note",
            body: pe_cat(Pe::Call(PITCH), pe_opt(Pe::Call(NOTE_LENGTH))),
        },
        RuleDef {
            name: "acciaccatura",
            body: Pe::Lit("/"),
        },
        RuleDef {
            name: "tuplet",
            body: pe_cats(
                seq![
                    Pe::Lit("("),
                    Pe::Call(DIGITS),
                    pe_opt(pe_cats(seq![Pe::Lit(":"), pe_opt(Pe::Call(DIGITS)), Pe::Lit(":"), pe_opt(Pe::Call(DIGITS))])),
                ],
            ),
        },
        RuleDef {
            name: "gracing",
            body: pe_alts(seq![Pe::Lit("."), Pe::Call(LONG_GRACING), Pe::Call(USERDEF_SYMBOL)]),
        },
        RuleDef {
            name: "long_gracing",
            body: pe_alt(
                pe_cats(
                    seq![
                        Pe::Lit("!"),
                        pe_alts(
                            seq![
                                Pe::Call(GRACING1),
                                Pe::Call(GRACING2),
                                Pe::Call(GRACING3),
                                Pe::Call(GRACING_NONSTANDARD),
                                Pe::Call(GRACING4),
                            ],
                        ),
                        Pe::Lit("!"),
                    ],
                ),
                pe_cats(seq![Pe::Lit("!"), Pe::Call(GRACING_CATCHALL), Pe::Lit("!")]),
            ),
        },
        RuleDef {
            name: "gracing1",
            body: pe_lits(
                seq![
                    "accent",
                    "arpeggio",
                    "coda",
                    "crescendo(",
                    "crescendo)",
                    "dacapo",
                    "decresc",
                    "diminuendo(",
                    "diminuendo)",
                    "downbow",
                    "emphasis",
                    "fermata",
                ],
            ),
        },
        RuleDef {
            name: "gracing2",
            body: pe_lits(
                seq![
                    "ffff",
                    "fff",
                    "ff",
                    "f",
                    "fine",
                    "fp",
                    "invertedfermata",
                    "invertedturnx",
                    "invertedturn",
                    "longphrase",
                    "lowermordent",
                    "mediumphrase",
                    "mf",
                    "mordent",
                    "mp",
                    "open",
                    "p",
                    "plus",
                    "pppp",
                    "ppp",
                    "pp",
                ],
            ),
        },
        RuleDef {
            name: "gracing3",
            body: pe_lits(
                seq![
                    "pralltriller",
                    "roll",
                    "segno",
                    "sfz",
                    "shortphrase",
                    "slide",
                    "snap",
                    "tenuto",
                    "thumb",
                    "trill(",
                    "trill)",
                    "trill",
                    "turnx",
                    "turn",
                    "upbow",
                    "uppermordent",
                    "wedge",
                ],
            ),
        },
        RuleDef {
            name: "gracing_nonstandard",
            body: pe_lits(seq!["<(", "<)", ">(", ">)", "D.C.", "D.S.", "cresc", "dimin", "dacoda", "+"]),
        },
        RuleDef {
            name: "gracing4",
            body: pe_alts(seq![Pe::Lit("<"), Pe::Lit(">"), Pe::Range(0x30, 0x35), pe_cat(Pe::Lit("repeatbar"), Pe::Call(DIGITS))]),
        },
        RuleDef {
            name: "gracing_catchall",
            body: pe_plus(Pe::Range(0x22, 0x7e)),
        },
        RuleDef {
            name: "userdef_symbol",
            body: pe_alts(seq![Pe::Lit("~"), Pe::Range(0x48, 0x59), Pe::Range(0x68, 0x77)]),
        },
        RuleDef {
            name: "chord_or_text",
            body: pe_cats(
                seq![
                    Pe::Lit("\""),
                    pe_alt(Pe::Call(CHORD), Pe::Call(TEXT_EXPRESSION)),
                    pe_star(pe_cat(Pe::Call(CHORD_NEWLINE), pe_alt(Pe::Call(CHORD), Pe::Call(TEXT_EXPRESSION)))),
                    Pe::Lit("\""),
                ],
            ),
        },
        RuleDef {
            name: "chord_newline",
            body: pe_lits(seq!["\\n", ";"]),
        },
        RuleDef {
            name: "chord",
            body: pe_cats(
                seq![
                    Pe::Call(BASENOTE),
                    pe_opt(Pe::Call(CHORD_ACCIDENTAL)),
                    pe_opt(Pe::Call(CHORD_TYPE)),
                    pe_opt(pe_cats(seq![Pe::Lit("/"), Pe::Call(BASENOTE), pe_opt(Pe::Call(CHORD_ACCIDENTAL))])),
                    pe_star(pe_annotation_char()),
                ],
            ),
        },
        RuleDef {
            name: "chord_accidental",
            body: pe_lits(seq!["#", "b", "=", "\u{266f}", "\u{266d}", "\u{266e}"]),
        },
        RuleDef {
            name: "chord_type",
            body: pe_plus(pe_alts(seq![pe_letter(), pe_plus(pe_digit()), Pe::Lit("-")])),
        },
        RuleDef {
            name: "text_expression",
            body: pe_alt(
                pe_cat(pe_lits(seq!["^", "<", ">", "_", "@"]), pe_plus(pe_annotation_char())),
                Pe::Call(BAD_TEXT_EXPRESSION),
            ),
        },
        RuleDef {
            name: "bad_text_expression",
            body: pe_plus(pe_annotation_char()),
        },
        RuleDef {
            name: "non_quote",
            body: pe_cat(pe_not(Pe::Lit("\"")), Pe::Any),
        },
        RuleDef {
            name: "barline",
            body: pe_alts(
                seq![
                    Pe::Call(INVISIBLE_BARLINE),
                    pe_cats(
                        seq![
                            pe_star(Pe::Lit(":")),
                            pe_opt(Pe::Lit("[")),
                            pe_plus(pe_cat(pe_opt(Pe::Lit(".")), Pe::Lit("|"))),
                            pe_opt(pe_alts(seq![Pe::Lit("]"), pe_plus(Pe::Lit(":")), Pe::Call(NTH_REPEAT_NUM)])),
                        ],
                    ),
                    Pe::Call(DOUBLE_REPEAT_BARLINE),
                    Pe::Call(DASHED_BARLINE),
                ],
            ),
        },
        RuleDef {
            name: "invisible_barline",
            body: pe_lits(seq!["[|]", "[]"]),
        },
        RuleDef {
            name: "double_repeat_barline",
            body: Pe::Lit("::"),
        },
        RuleDef {
            name: "dashed_barline",
            body: Pe::Lit(":"),
        },
        RuleDef {
            name: "nth_repeat",
            body: pe_cat(Pe::Lit("["), pe_alt(Pe::Call(NTH_REPEAT_NUM), Pe::Call(NTH_REPEAT_TEXT))),
        },
        RuleDef {
            name: "nth_repeat_num",
            body: pe_cat(Pe::Call(DIGITS), pe_star(pe_cat(pe_lits(seq![",", "-"]), Pe::Call(DIGITS)))),
        },
        RuleDef {
            name: "nth_repeat_text",
            body: pe_cats(seq![Pe::Lit("\""), pe_star(Pe::Call(NON_QUOTE)), Pe::Lit("\"")]),
        },
        RuleDef {
            name: "end_nth_repeat",
            body: Pe::Lit("]"),
        },
        RuleDef {
            name: "measure_repeat",
            body: pe_lits(seq!["//", "/"]),
        },
        RuleDef {
            name: "inline_field",
            body: pe_alts(
                seq![
                    Pe::Call(IFIELD_TEXT),
                    Pe::Call(IFIELD_KEY),
                    Pe::Call(IFIELD_LENGTH),
                    Pe::Call(IFIELD_METER),
                    Pe::Call(IFIELD_PART),
                    Pe::Call(IFIELD_TEMPO),
                    Pe::Call(IFIELD_USERDEF),
                    Pe::Call(IFIELD_VOICE),
                ],
            ),
        },
        RuleDef {
            name: "ifield_text",
            body: pe_cats(
                seq![
                    pe_lits(seq!["[I:", "[N:", "[R:", "[r:", "[T:"]),
                    pe_star(Pe::Call(NON_RIGHT_BRACKET)),
                    Pe::Lit("]"),
                ],
            ),
        },
        RuleDef {
            name: "ifield_key",
            body: pe_cats(
                seq![
                    Pe::Lit("[K:"),
                    pe_star(Pe::Call(WSP)),
                    pe_alt(Pe::Lit("none"), pe_opt(Pe::Call(KEY))),
                    Pe::Lit("]"),
                ],
            ),
        },
        RuleDef {
            name: "ifield_length",
            body: pe_cats(seq![Pe::Lit("[L:"), pe_star(Pe::Call(WSP)), Pe::Call(NOTE_LENGTH_STRICT), Pe::Lit("]")]),
        },
        RuleDef {
            name: "ifield_meter",
            body: pe_cats(seq![Pe::Lit("[M:"), pe_star(Pe::Call(WSP)), Pe::Call(METER), pe_star(Pe::Call(WSP)), Pe::Lit("]")]),
        },
        RuleDef {
            name: "ifield_part",
            body: pe_cats(seq![Pe::Lit("[P:"), pe_plus(Pe::Call(NON_RIGHT_BRACKET)), Pe::Lit("]")]),
        },
        RuleDef {
            name: "ifield_tempo",
            body: pe_cats(seq![Pe::Lit("[Q:"), pe_star(Pe::Call(WSP)), Pe::Call(TEMPO), pe_star(Pe::Call(WSP)), Pe::Lit("]")]),
        },
        RuleDef {
            name: "ifield_userdef",
            body: pe_cats(
                seq![
                    Pe::Lit("[U:"),
                    pe_star(Pe::Call(WSP)),
                    Pe::Call(USERDEF_SYMBOL),
                    pe_star(Pe::Call(WSP)),
                    Pe::Lit("="),
                    pe_plus(Pe::Call(NON_RIGHT_BRACKET)),
                    Pe::Lit("]"),
                ],
            ),
        },
        RuleDef {
            name: "ifield_voice",
            body: pe_cats(
                seq![
                    Pe::Lit("[V:"),
                    pe_star(Pe::Call(WSP)),
                    Pe::Call(VOICE_ID),
                    pe_star(Pe::Call(NON_RIGHT_BRACKET)),
                    Pe::Lit("]"),
                ],
            ),
        },
        RuleDef {
            name: "non_right_bracket",
            body: pe_cat(pe_not(Pe::Lit("]")), Pe::Any),
        },
        RuleDef {
            name: "key",
            body: pe_alt(
                pe_cats(
                    seq![
                        Pe::Call(KEY_TONIC),
                        pe_opt(pe_cat(pe_star(Pe::Call(WSP)), Pe::Call(MODE))),
                        pe_star(pe_cat(pe_plus(Pe::Call(WSP)), Pe::Call(KEY_ACCIDENTAL))),
                        pe_opt(pe_cat(pe_plus(Pe::Call(WSP)), Pe::Call(CLEF))),
                    ],
                ),
                Pe::Call(CLEF),
            ),
        },
        RuleDef {
            name: "key_tonic",
            body: pe_alts(seq![Pe::Lit("HP"), Pe::Lit("Hp"), pe_cat(Pe::Range(0x41, 0x47), pe_opt(pe_lits(seq!["#", "b"])))]),
        },
        RuleDef {
            name: "mode",
            body: pe_alts(
                seq![
                    pe_abbrev("mix", seq!["o", "l", "y", "d", "i", "a", "n"]),
                    pe_abbrev("maj", seq!["o", "r"]),
                    pe_abbrev("min", seq!["o", "r"]),
                    Pe::Lit("m"),
                    pe_abbrev("ion", seq!["i", "a", "n"]),
                    pe_abbrev("dor", seq!["i", "a", "n"]),
                    pe_abbrev("phr", seq!["y", "g", "i", "a", "n"]),
                    pe_abbrev("lyd", seq!["i", "a", "n"]),
                    pe_abbrev("aeo", seq!["l", "i", "a", "n"]),
                    pe_abbrev("loc", seq!["r", "i", "a", "n"]),
                ],
            ),
        },
        RuleDef {
            name: "key_accidental",
            body: pe_cat(Pe::Call(ACCIDENTAL), Pe::Call(BASENOTE)),
        },
        RuleDef {
            name: "clef",
            body: pe_cats(
                seq![
                    pe_opt(Pe::Lit("clef=")),
                    Pe::Call(CLEF_NAME),
                    pe_opt(Pe::Range(0x31, 0x35)),
                    pe_opt(pe_lits(seq!["+8", "-8"])),
                ],
            ),
        },
        RuleDef {
            name: "clef_name",
            body: pe_lits(
                seq!["treble", "alto", "tenor", "baritone", "bass", "mezzo", "soprano", "perc", "none"],
            ),
        },
        RuleDef {
            name: "meter",
            body: pe_alts(seq![Pe::Lit("none"), Pe::Lit("C|"), Pe::Lit("C"), Pe::Call(METER_FRACTION)]),
        },
        RuleDef {
            name: "meter_fraction",
            body: pe_cats(seq![Pe::Call(METER_NUM), Pe::Lit("/"), Pe::Call(DIGITS)]),
        },
        RuleDef {
            name: "meter_num",
            body: pe_alt(pe_cats(seq![Pe::Lit("("), pe_digit_sum(), Pe::Lit(")")]), pe_digit_sum()),
        },
        RuleDef {
            name: "tempo",
            body: pe_cats(
                seq![
                    pe_opt(pe_cat(Pe::Call(TEMPO_TEXT), pe_star(Pe::Call(WSP)))),
                    pe_opt(Pe::Call(TEMPO_SPEC)),
                    pe_opt(pe_cat(pe_star(Pe::Call(WSP)), Pe::Call(TEMPO_TEXT))),
                ],
            ),
        },
        RuleDef {
            name: "tempo_spec",
            body: pe_alts(
                seq![
                    pe_cats(
                        seq![
                            Pe::Call(NOTE_LENGTH_STRICT),
                            pe_star(pe_cat(pe_plus(Pe::Call(WSP)), Pe::Call(NOTE_LENGTH_STRICT))),
                            pe_star(Pe::Call(WSP)),
                            Pe::Lit("="),
                            pe_star(Pe::Call(WSP)),
                            Pe::Call(DIGITS),
                        ],
                    ),
                    pe_cats(seq![Pe::Lit("C"), pe_opt(Pe::Call(NOTE_LENGTH)), Pe::Lit("="), Pe::Call(DIGITS)]),
                    Pe::Call(DIGITS),
                ],
            ),
        },
        RuleDef {
            name: "tempo_text",
            body: pe_cats(seq![Pe::Lit("\""), pe_star(Pe::Call(NON_QUOTE)), Pe::Lit("\"")]),
        },
        RuleDef {
            name: "voice_id",
            body: pe_plus(pe_alts(seq![pe_letter(), pe_digit(), Pe::Lit("_")])),
        },
        RuleDef {
            name: "hard_line_break",
            body: pe_lits(seq!["$", "!"]),
        },
        RuleDef {
            name: "unused_char",
            body: pe_alt(Pe::Call(RESERVED_CHAR), Pe::Call(BACKQUOTE)),
        },
        RuleDef {
            name: "reserved_char",
            body: pe_lits(seq!["#", "*", ";", "?", "@"]),
        },
        RuleDef {
            name: "backquote",
            body: Pe::Lit("`"),
        },
        RuleDef {
            name: "DIGITS",
            body: pe_plus(pe_digit()),
        },
        RuleDef {
            name: "WSP",
            body: pe_plus(pe_alt(Pe::Lit(" "), Pe::Lit("\t"))),
        },
        RuleDef {
            name: "eoi",
            body: Pe::Eoi,
        },
    ]
}

/// `g` has the rules of this grammar; its start rule `MUSIC_CODE_LINE`
/// matches a whole line, an `ABC_LINE` then the end of the input, and `WSP`
/// is a run of spaces and tabs.
pub open spec fn line_grammar(g: Seq<RuleDef>) -> bool {
    &&& g.len() == RULE_COUNT
    &&& g[MUSIC_CODE_LINE as int].body == Pe::Cat(Box::new(Pe::Call(ABC_LINE)), Box::new(Pe::Call(EOI)))
    &&& g[EOI as int].body == Pe::Eoi
    &&& g[WSP as int].body == blanks()
}

/// One or more spaces or tabs.
pub open spec fn blanks() -> Pe {
    Pe::Plus(Box::new(Pe::Alt(Box::new(Pe::Lit(" ")), Box::new(Pe::Lit("\t")))))
}

/// The grammar of an ABC music-code line; `MUSIC_CODE_LINE` is its start rule.
#[verifier::rlimit(100)]
pub fn abc_grammar() -> (g: Vec<RuleDef>)
    ensures
        g@ == abc_rules(),
        line_grammar(g@),
{
    let mut g: Vec<RuleDef> = Vec::new();
    g.push(def("music_code_line", cat(call(ABC_LINE), call(EOI))));
    let ghost first = g@[0];
    // A line of barlines alone may hold several (`barline+`), so that a line
    // such as `[]|` parses.
    g.push(
        def(
            "abc_line",
            cat(
                alt(
                    cats(
                        vec![
                            opt(call(BARLINE)),
                            plus(call(ELEMENT)),
                            star(cat(call(BARLINE), plus(call(ELEMENT)))),
                            opt(call(BARLINE)),
                        ],
                    ),
                    plus(call(BARLINE)),
                ),
                call(ABC_EOL),
            ),
        ),
    );
    g.push(def("abc_eol", cat(opt(call(LINE_CONTINUATION)), star(call(WSP)))));
    g.push(def("line_continuation", lit("\\")));
    g.push(
        def(
            "element",
            alts(
                vec![
                    call(BROKEN_RHYTHM),
                    call(STEM),
                    // Whitespace is an element only when more follows: blanks at
                    // the end of the line belong to `abc_eol`, which trims them,
                    // and a line of blanks alone does not parse.
                    cat(call(WSP), not(Pe::Eoi)),
                    call(CHORD_OR_TEXT),
                    call(GRACING),
                    call(GRACE_NOTES),
                    call(TUPLET),
                    call(SLUR_BEGIN),
                    call(SLUR_END),
                    call(ROLLBACK),
                    call(MULTI_MEASURE_REST),
                    call(MEASURE_REPEAT),
                    call(NTH_REPEAT),
                    call(END_NTH_REPEAT),
                    call(INLINE_FIELD),
                    call(HARD_LINE_BREAK),
                    call(UNUSED_CHAR),
                ],
            ),
        ),
    );
    g.push(
        def(
            "broken_rhythm",
            cats(
                vec![
                    call(STEM),
                    star(call(B_ELEM)),
                    call(B_SEP),
                    opt(call(B_SEP)),
                    opt(call(B_SEP)),
                    star(call(B_ELEM)),
                    call(STEM),
                ],
            ),
        ),
    );
    g.push(def("b_sep", lits(vec!["<", ">"])));
    g.push(
        def(
            "b_elem",
            alts(
                vec![
                    call(WSP),
                    call(CHORD_OR_TEXT),
                    call(GRACING),
                    call(GRACE_NOTES),
                    call(SLUR_BEGIN),
                    call(SLUR_END),
                ],
            ),
        ),
    );
    g.push(
        def(
            "stem",
            alts(
                vec![
                    cats(
                        vec![
                            lit("["),
                            call(NOTE),
                            plus(call(NOTE)),
                            lit("]"),
                            opt(call(TIE)),
                        ],
                    ),
                    call(NOTE),
                    call(REST),
                ],
            ),
        ),
    );
    g.push(
        def("note", cats(vec![call(PITCH), opt(call(NOTE_LENGTH)), opt(call(TIE))])),
    );
    g.push(
        def("pitch", cats(vec![opt(call(ACCIDENTAL)), call(BASENOTE), opt(call(OCTAVE))])),
    );
    g.push(def("basenote", alt(rng(0x41, 0x47), rng(0x61, 0x67))));
    g.push(def("accidental", lits(vec!["^^", "^", "__", "_", "="])));
    g.push(def("octave", alt(plus(lit("'")), plus(lit(",")))));
    g.push(
        def(
            "note_length",
            alts(
                vec![
                    call(NOTE_LENGTH_FULL),
                    call(NOTE_LENGTH_SMALLER),
                    call(NOTE_LENGTH_BIGGER),
                    call(NOTE_LENGTH_SLASHES),
                ],
            ),
        ),
    );
    g.push(def("note_length_full", cats(vec![call(DIGITS), lit("/"), call(DIGITS)])));
    g.push(def("note_length_smaller", cat(lit("/"), call(DIGITS))));
    g.push(def("note_length_bigger", call(DIGITS)));
    g.push(def("note_length_slashes", plus(lit("/"))));
    g.push(
        def(
            "note_length_strict",
            alt(cats(vec![call(DIGITS), lit("/"), call(DIGITS)]), lit("1")),
        ),
    );
    g.push(def("rest", cat(lits(vec!["x", "y", "z"]), opt(call(NOTE_LENGTH)))));
    g.push(def("multi_measure_rest", cat(lit("Z"), star(digit()))));
    g.push(def("tie", lit("-")));
    g.push(def("slur_begin", lit("(")));
    g.push(def("slur_end", lit(")")));
    g.push(def("rollback", lit("&")));
    g.push(
        def(
            "grace_notes",
            cats(
                vec![lit("{"), opt(call(ACCIACCATURA)), plus(call(GRACE_NOTE_STEM)), lit("}")],
            ),
        ),
    );
    g.push(
        def(
            "grace_note_stem",
            alt(
                call(GRACE_NOTE),
                cats(vec![lit("["), call(GRACE_NOTE), plus(call(GRACE_NOTE)), lit("]")]),
            ),
        ),
    );
    g.push(def("grace_note", cat(call(PITCH), opt(call(NOTE_LENGTH)))));
    g.push(def("acciaccatura", lit("/")));
    g.push(
        def(
            "tuplet",
            cats(
                vec![
                    lit("("),
                    call(DIGITS),
                    opt(cats(vec![lit(":"), opt(call(DIGITS)), lit(":"), opt(call(DIGITS))])),
                ],
            ),
        ),
    );
    g.push(def("gracing", alts(vec![lit("."), call(LONG_GRACING), call(USERDEF_SYMBOL)])));
    g.push(
        def(
            "long_gracing",
            alt(
                cats(
                    vec![
                        lit("!"),
                        alts(
                            vec![
                                call(GRACING1),
                                call(GRACING2),
                                call(GRACING3),
                                call(GRACING_NONSTANDARD),
                                call(GRACING4),
                            ],
                        ),
                        lit("!"),
                    ],
                ),
                cats(vec![lit("!"), call(GRACING_CATCHALL), lit("!")]),
            ),
        ),
    );
    g.push(
        def(
            "gracing1",
            lits(
                vec![
                    "accent",
                    "arpeggio",
                    "coda",
                    "crescendo(",
                    "crescendo)",
                    "dacapo",
                    "decresc",
                    "diminuendo(",
                    "diminuendo)",
                    "downbow",
                    "emphasis",
                    "fermata",
                ],
            ),
        ),
    );
    g.push(
        def(
            "gracing2",
            lits(
                vec![
                    "ffff",
                    "fff",
                    "ff",
                    "f",
                    "fine",
                    "fp",
                    "invertedfermata",
                    "invertedturnx",
                    "invertedturn",
                    "longphrase",
                    "lowermordent",
                    "mediumphrase",
                    "mf",
                    "mordent",
                    "mp",
                    "open",
                    "p",
                    "plus",
                    "pppp",
                    "ppp",
                    "pp",
                ],
            ),
        ),
    );
    g.push(
        def(
            "gracing3",
            lits(
                vec![
                    "pralltriller",
                    "roll",
                    "segno",
                    "sfz",
                    "shortphrase",
                    "slide",
                    "snap",
                    "tenuto",
                    "thumb",
                    "trill(",
                    "trill)",
                    "trill",
                    "turnx",
                    "turn",
                    "upbow",
                    "uppermordent",
                    "wedge",
                ],
            ),
        ),
    );
    g.push(
        def(
            "gracing_nonstandard",
            lits(vec!["<(", "<)", ">(", ">)", "D.C.", "D.S.", "cresc", "dimin", "dacoda", "+"]),
        ),
    );
    g.push(
        def(
            "gracing4",
            alts(vec![lit("<"), lit(">"), rng(0x30, 0x35), cat(lit("repeatbar"), call(DIGITS))]),
        ),
    );
    g.push(def("gracing_catchall", plus(rng(0x22, 0x7e))));
    g.push(def("userdef_symbol", alts(vec![lit("~"), rng(0x48, 0x59), rng(0x68, 0x77)])));
    g.push(
        def(
            "chord_or_text",
            cats(
                vec![
                    lit("\""),
                    alt(call(CHORD), call(TEXT_EXPRESSION)),
                    star(cat(call(CHORD_NEWLINE), alt(call(CHORD), call(TEXT_EXPRESSION)))),
                    lit("\""),
                ],
            ),
        ),
    );
    g.push(def("chord_newline", lits(vec!["\\n", ";"])));
    g.push(
        def(
            "chord",
            cats(
                vec![
                    call(BASENOTE),
                    opt(call(CHORD_ACCIDENTAL)),
                    opt(call(CHORD_TYPE)),
                    opt(cats(vec![lit("/"), call(BASENOTE), opt(call(CHORD_ACCIDENTAL))])),
                    star(annotation_char()),
                ],
            ),
        ),
    );
    g.push(def("chord_accidental", lits(vec!["#", "b", "=", "\u{266f}", "\u{266d}", "\u{266e}"])));
    g.push(def("chord_type", plus(alts(vec![letter(), plus(digit()), lit("-")]))));
    g.push(
        def(
            "text_expression",
            alt(
                cat(lits(vec!["^", "<", ">", "_", "@"]), plus(annotation_char())),
                call(BAD_TEXT_EXPRESSION),
            ),
        ),
    );
    g.push(def("bad_text_expression", plus(annotation_char())));
    g.push(def("non_quote", cat(not(lit("\"")), Pe::Any)));
    g.push(
        def(
            "barline",
            alts(
                vec![
                    call(INVISIBLE_BARLINE),
                    cats(
                        vec![
                            star(lit(":")),
                            opt(lit("[")),
                            plus(cat(opt(lit(".")), lit("|"))),
                            opt(alts(vec![lit("]"), plus(lit(":")), call(NTH_REPEAT_NUM)])),
                        ],
                    ),
                    call(DOUBLE_REPEAT_BARLINE),
                    call(DASHED_BARLINE),
                ],
            ),
        ),
    );
    g.push(def("invisible_barline", lits(vec!["[|]", "[]"])));
    g.push(def("double_repeat_barline", lit("::")));
    g.push(def("dashed_barline", lit(":")));
    g.push(def("nth_repeat", cat(lit("["), alt(call(NTH_REPEAT_NUM), call(NTH_REPEAT_TEXT)))));
    g.push(
        def(
            "nth_repeat_num",
            cat(call(DIGITS), star(cat(lits(vec![",", "-"]), call(DIGITS)))),
        ),
    );
    g.push(def("nth_repeat_text", cats(vec![lit("\""), star(call(NON_QUOTE)), lit("\"")])));
    g.push(def("end_nth_repeat", lit("]")));
    g.push(def("measure_repeat", lits(vec!["//", "/"])));
    g.push(
        def(
            "inline_field",
            alts(
                vec![
                    call(IFIELD_TEXT),
                    call(IFIELD_KEY),
                    call(IFIELD_LENGTH),
                    call(IFIELD_METER),
                    call(IFIELD_PART),
                    call(IFIELD_TEMPO),
                    call(IFIELD_USERDEF),
                    call(IFIELD_VOICE),
                ],
            ),
        ),
    );
    g.push(
        def(
            "ifield_text",
            cats(
                vec![
                    lits(vec!["[I:", "[N:", "[R:", "[r:", "[T:"]),
                    star(call(NON_RIGHT_BRACKET)),
                    lit("]"),
                ],
            ),
        ),
    );
    g.push(
        def(
            "ifield_key",
            cats(
                vec![
                    lit("[K:"),
                    star(call(WSP)),
                    alt(lit("none"), opt(call(KEY))),
                    lit("]"),
                ],
            ),
        ),
    );
    g.push(
        def(
            "ifield_length",
            cats(vec![lit("[L:"), star(call(WSP)), call(NOTE_LENGTH_STRICT), lit("]")]),
        ),
    );
    g.push(
        def(
            "ifield_meter",
            cats(vec![lit("[M:"), star(call(WSP)), call(METER), star(call(WSP)), lit("]")]),
        ),
    );
    g.push(def("ifield_part", cats(vec![lit("[P:"), plus(call(NON_RIGHT_BRACKET)), lit("]")])));
    g.push(
        def(
            "ifield_tempo",
            cats(vec![lit("[Q:"), star(call(WSP)), call(TEMPO), star(call(WSP)), lit("]")]),
        ),
    );
    g.push(
        def(
            "ifield_userdef",
            cats(
                vec![
                    lit("[U:"),
                    star(call(WSP)),
                    call(USERDEF_SYMBOL),
                    star(call(WSP)),
                    lit("="),
                    plus(call(NON_RIGHT_BRACKET)),
                    lit("]"),
                ],
            ),
        ),
    );
    g.push(
        def(
            "ifield_voice",
            cats(
                vec![
                    lit("[V:"),
                    star(call(WSP)),
                    call(VOICE_ID),
                    star(call(NON_RIGHT_BRACKET)),
                    lit("]"),
                ],
            ),
        ),
    );
    g.push(def("non_right_bracket", cat(not(lit("]")), Pe::Any)));
    g.push(
        def(
            "key",
            alt(
                cats(
                    vec![
                        call(KEY_TONIC),
                        opt(cat(star(call(WSP)), call(MODE))),
                        star(cat(plus(call(WSP)), call(KEY_ACCIDENTAL))),
                        opt(cat(plus(call(WSP)), call(CLEF))),
                    ],
                ),
                call(CLEF),
            ),
        ),
    );
    g.push(
        def(
            "key_tonic",
            alts(vec![lit("HP"), lit("Hp"), cat(rng(0x41, 0x47), opt(lits(vec!["#", "b"])))]),
        ),
    );
    g.push(
        def(
            "mode",
            alts(
                vec![
                    abbrev("mix", vec!["o", "l", "y", "d", "i", "a", "n"]),
                    abbrev("maj", vec!["o", "r"]),
                    abbrev("min", vec!["o", "r"]),
                    lit("m"),
                    abbrev("ion", vec!["i", "a", "n"]),
                    abbrev("dor", vec!["i", "a", "n"]),
                    abbrev("phr", vec!["y", "g", "i", "a", "n"]),
                    abbrev("lyd", vec!["i", "a", "n"]),
                    abbrev("aeo", vec!["l", "i", "a", "n"]),
                    abbrev("loc", vec!["r", "i", "a", "n"]),
                ],
            ),
        ),
    );
    g.push(def("key_accidental", cat(call(ACCIDENTAL), call(BASENOTE))));
    g.push(
        def(
            "clef",
            cats(
                vec![
                    opt(lit("clef=")),
                    call(CLEF_NAME),
                    opt(rng(0x31, 0x35)),
                    opt(lits(vec!["+8", "-8"])),
                ],
            ),
        ),
    );
    g.push(
        def(
            "clef_name",
            lits(
                vec!["treble", "alto", "tenor", "baritone", "bass", "mezzo", "soprano", "perc", "none"],
            ),
        ),
    );
    g.push(def("meter", alts(vec![lit("none"), lit("C|"), lit("C"), call(METER_FRACTION)])));
    g.push(def("meter_fraction", cats(vec![call(METER_NUM), lit("/"), call(DIGITS)])));
    g.push(def("meter_num", alt(cats(vec![lit("("), digit_sum(), lit(")")]), digit_sum())));
    g.push(
        def(
            "tempo",
            cats(
                vec![
                    opt(cat(call(TEMPO_TEXT), star(call(WSP)))),
                    opt(call(TEMPO_SPEC)),
                    opt(cat(star(call(WSP)), call(TEMPO_TEXT))),
                ],
            ),
        ),
    );
    g.push(
        def(
            "tempo_spec",
            alts(
                vec![
                    cats(
                        vec![
                            call(NOTE_LENGTH_STRICT),
                            star(cat(plus(call(WSP)), call(NOTE_LENGTH_STRICT))),
                            star(call(WSP)),
                            lit("="),
                            star(call(WSP)),
                            call(DIGITS),
                        ],
                    ),
                    cats(vec![lit("C"), opt(call(NOTE_LENGTH)), lit("="), call(DIGITS)]),
                    call(DIGITS),
                ],
            ),
        ),
    );
    g.push(def("tempo_text", cats(vec![lit("\""), star(call(NON_QUOTE)), lit("\"")])));
    g.push(def("voice_id", plus(alts(vec![letter(), digit(), lit("_")]))));
    g.push(def("hard_line_break", lits(vec!["$", "!"])));
    g.push(def("unused_char", alt(call(RESERVED_CHAR), call(BACKQUOTE))));
    g.push(def("reserved_char", lits(vec!["#", "*", ";", "?", "@"])));
    g.push(def("backquote", lit("`")));
    g.push(def("DIGITS", plus(digit())));
    g.push(def("WSP", plus(alt(lit(" "), lit("\t")))));
    let ghost wsp = g@[WSP as int];
    g.push(def("eoi", Pe::Eoi));
    assert(g@[0] == first);
    assert(g@[WSP as int] == wsp);
    g
}

} // verus!
