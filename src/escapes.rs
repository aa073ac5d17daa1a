//! Text-escape tables of ABC: two-character mnemonics such as `\"A` and
//! named entities such as `Alpha`, each standing for one character. The
//! canonifier does not expand them yet; they are here for the rules that
//! will.

use vstd::prelude::*;
use vstd::string::StringSliceAdditionalSpecFns;

verus! {

/// The mnemonics of the ABC standard, abcm2ps and jcabc2ps, in that order.
pub fn abc_character_mnemonics() -> (t: Vec<(&'static str, char)>)
    ensures
        t@ == character_mnemonics(),
        t@.len() == 215,
{
    vec![
        ("\"A", '\u{c4}'),
        ("'A", '\u{c1}'),
        ("AA", '\u{c5}'),
        ("^A", '\u{c2}'),
        ("`A", '\u{c0}'),
        ("uA", '\u{102}'),
        ("~A", '\u{c3}'),
        ("cC", '\u{c7}'),
        ("\"E", '\u{cb}'),
        ("'E", '\u{c9}'),
        ("AE", '\u{c6}'),
        ("OE", '\u{152}'),
        ("^E", '\u{ca}'),
        ("`E", '\u{c8}'),
        ("uE", '\u{114}'),
        ("DH", '\u{d0}'),
        ("TH", '\u{de}'),
        ("\"I", '\u{cf}'),
        ("'I", '\u{cd}'),
        ("^I", '\u{ce}'),
        ("`I", '\u{cc}'),
        ("~N", '\u{d1}'),
        ("\"O", '\u{d6}'),
        ("'O", '\u{d3}'),
        ("/O", '\u{d8}'),
        ("HO", '\u{150}'),
        ("^O", '\u{d4}'),
        ("`O", '\u{d2}'),
        ("~O", '\u{d5}'),
        ("vS", '\u{160}'),
        ("\"U", '\u{dc}'),
        ("'U", '\u{da}'),
        ("HU", '\u{170}'),
        ("^U", '\u{db}'),
        ("`U", '\u{d9}'),
        ("\"Y", '\u{178}'),
        ("'Y", '\u{dd}'),
        ("^Y", '\u{176}'),
        ("vZ", '\u{17d}'),
        ("\"a", '\u{e4}'),
        ("'a", '\u{e1}'),
        ("^a", '\u{e2}'),
        ("`a", '\u{e0}'),
        ("aa", '\u{e5}'),
        ("ua", '\u{103}'),
        ("~a", '\u{e3}'),
        ("cc", '\u{e7}'),
        ("\"e", '\u{eb}'),
        ("'e", '\u{e9}'),
        ("^e", '\u{ea}'),
        ("`e", '\u{e8}'),
        ("ae", '\u{e6}'),
        ("oe", '\u{153}'),
        ("ue", '\u{115}'),
        ("dh", '\u{f0}'),
        ("th", '\u{fe}'),
        ("\"i", '\u{ef}'),
        ("'i", '\u{ed}'),
        ("^i", '\u{ee}'),
        ("`i", '\u{ec}'),
        ("~n", '\u{f1}'),
        ("\"o", '\u{f6}'),
        ("'o", '\u{f3}'),
        ("/o", '\u{f8}'),
        ("Ho", '\u{151}'),
        ("^o", '\u{f4}'),
        ("`o", '\u{f2}'),
        ("~o", '\u{f5}'),
        ("ss", '\u{df}'),
        ("vs", '\u{161}'),
        ("\"u", '\u{fc}'),
        ("'u", '\u{fa}'),
        ("Hu", '\u{171}'),
        ("^u", '\u{fb}'),
        ("`u", '\u{f9}'),
        ("\"y", '\u{ff}'),
        ("'y", '\u{fd}'),
        ("^y", '\u{177}'),
        ("vz", '\u{17e}'),
        (";A", '\u{104}'),
        ("=A", '\u{100}'),
        ("oA", '\u{c5}'),
        ("'C", '\u{106}'),
        (",C", '\u{c7}'),
        (".C", '\u{10a}'),
        ("^C", '\u{108}'),
        ("vC", '\u{10c}'),
        ("/D", '\u{110}'),
        ("=D", '\u{110}'),
        ("vD", '\u{10e}'),
        (".E", '\u{116}'),
        (";E", '\u{118}'),
        ("=E", '\u{112}'),
        ("vE", '\u{11a}'),
        (",G", '\u{122}'),
        (".G", '\u{120}'),
        ("^G", '\u{11c}'),
        ("uG", '\u{11e}'),
        ("=H", '\u{126}'),
        ("^H", '\u{124}'),
        (".I", '\u{130}'),
        (";I", '\u{12e}'),
        ("=I", '\u{12a}'),
        ("uI", '\u{12c}'),
        ("~I", '\u{128}'),
        ("^J", '\u{134}'),
        (",K", '\u{136}'),
        ("'L", '\u{139}'),
        (",L", '\u{13b}'),
        ("/L", '\u{141}'),
        ("vL", '\u{13d}'),
        ("'N", '\u{143}'),
        (",N", '\u{145}'),
        ("vN", '\u{147}'),
        (":O", '\u{150}'),
        ("=O", '\u{14c}'),
        ("uO", '\u{14e}'),
        ("'R", '\u{154}'),
        (",R", '\u{156}'),
        ("vR", '\u{158}'),
        ("'S", '\u{15a}'),
        (",S", '\u{15e}'),
        ("^S", '\u{15c}'),
        (",T", '\u{162}'),
        ("=T", '\u{166}'),
        ("vT", '\u{164}'),
        (":U", '\u{170}'),
        (";U", '\u{172}'),
        ("=U", '\u{16a}'),
        ("oU", '\u{16e}'),
        ("uU", '\u{16c}'),
        ("~U", '\u{168}'),
        ("'Z", '\u{179}'),
        (".Z", '\u{17b}'),
        (";a", '\u{105}'),
        ("=a", '\u{101}'),
        ("oa", '\u{e5}'),
        ("'c", '\u{107}'),
        (",c", '\u{e7}'),
        (".c", '\u{10b}'),
        ("^c", '\u{109}'),
        ("vc", '\u{10d}'),
        ("/d", '\u{111}'),
        ("=d", '\u{111}'),
        ("vd", '\u{10f}'),
        (".e", '\u{117}'),
        (";e", '\u{119}'),
        ("=e", '\u{113}'),
        ("ve", '\u{11b}'),
        (",g", '\u{123}'),
        (".g", '\u{121}'),
        ("^g", '\u{11d}'),
        ("ng", '\u{14b}'),
        ("ug", '\u{11f}'),
        ("=h", '\u{127}'),
        ("^h", '\u{125}'),
        (".i", '\u{131}'),
        (";i", '\u{12f}'),
        ("=i", '\u{12b}'),
        ("ui", '\u{12d}'),
        ("~i", '\u{129}'),
        ("^j", '\u{135}'),
        (",k", '\u{137}'),
        ("'l", '\u{13a}'),
        (",l", '\u{13c}'),
        ("/l", '\u{142}'),
        ("vl", '\u{13e}'),
        ("'n", '\u{144}'),
        (",n", '\u{146}'),
        ("vn", '\u{148}'),
        (":o", '\u{151}'),
        ("=o", '\u{14d}'),
        ("uo", '\u{14f}'),
        ("'r", '\u{155}'),
        (",r", '\u{157}'),
        ("vr", '\u{159}'),
        ("'s", '\u{15b}'),
        (",s", '\u{15f}'),
        ("^s", '\u{15d}'),
        (",t", '\u{163}'),
        ("=t", '\u{167}'),
        ("vt", '\u{165}'),
        (":u", '\u{171}'),
        (";u", '\u{173}'),
        ("=u", '\u{16b}'),
        ("ou", '\u{16f}'),
        ("uu", '\u{16d}'),
        ("~u", '\u{169}'),
        ("'z", '\u{17a}'),
        (".z", '\u{17c}'),
        ("-A", '\u{100}'),
        ("-D", '\u{110}'),
        ("-E", '\u{112}'),
        ("-H", '\u{126}'),
        ("-I", '\u{12a}'),
        ("IJ", '\u{132}'),
        (".L", '\u{13f}'),
        ("-O", '\u{14c}'),
        ("-T", '\u{166}'),
        ("-U", '\u{16a}'),
        ("^W", '\u{174}'),
        ("^Z", '\u{1e90}'),
        ("-a", '\u{101}'),
        ("-d", '\u{111}'),
        ("-e", '\u{113}'),
        ("Ae", '\u{e6}'),
        ("Oe", '\u{153}'),
        ("-h", '\u{127}'),
        ("-i", '\u{12b}'),
        ("Ij", '\u{133}'),
        ("ij", '\u{133}'),
        (".l", '\u{140}'),
        ("-u", '\u{16b}'),
        ("^w", '\u{175}'),
        ("^z", '\u{1e91}'),
    ]
}

/// The mnemonic table: each two-character key and the character it stands for.
pub open spec fn character_mnemonics() -> Seq<(&'static str, char)> {
    seq![
        ("\"A", '\u{c4}'),
        ("'A", '\u{c1}'),
        ("AA", '\u{c5}'),
        ("^A", '\u{c2}'),
        ("`A", '\u{c0}'),
        ("uA", '\u{102}'),
        ("~A", '\u{c3}'),
        ("cC", '\u{c7}'),
        ("\"E", '\u{cb}'),
        ("'E", '\u{c9}'),
        ("AE", '\u{c6}'),
        ("OE", '\u{152}'),
        ("^E", '\u{ca}'),
        ("`E", '\u{c8}'),
        ("uE", '\u{114}'),
        ("DH", '\u{d0}'),
        ("TH", '\u{de}'),
        ("\"I", '\u{cf}'),
        ("'I", '\u{cd}'),
        ("^I", '\u{ce}'),
        ("`I", '\u{cc}'),
        ("~N", '\u{d1}'),
        ("\"O", '\u{d6}'),
        ("'O", '\u{d3}'),
        ("/O", '\u{d8}'),
        ("HO", '\u{150}'),
        ("^O", '\u{d4}'),
        ("`O", '\u{d2}'),
        ("~O", '\u{d5}'),
        ("vS", '\u{160}'),
        ("\"U", '\u{dc}'),
        ("'U", '\u{da}'),
        ("HU", '\u{170}'),
        ("^U", '\u{db}'),
        ("`U", '\u{d9}'),
        ("\"Y", '\u{178}'),
        ("'Y", '\u{dd}'),
        ("^Y", '\u{176}'),
        ("vZ", '\u{17d}'),
        ("\"a", '\u{e4}'),
        ("'a", '\u{e1}'),
        ("^a", '\u{e2}'),
        ("`a", '\u{e0}'),
        ("aa", '\u{e5}'),
        ("ua", '\u{103}'),
        ("~a", '\u{e3}'),
        ("cc", '\u{e7}'),
        ("\"e", '\u{eb}'),
        ("'e", '\u{e9}'),
        ("^e", '\u{ea}'),
        ("`e", '\u{e8}'),
        ("ae", '\u{e6}'),
        ("oe", '\u{153}'),
        ("ue", '\u{115}'),
        ("dh", '\u{f0}'),
        ("th", '\u{fe}'),
        ("\"i", '\u{ef}'),
        ("'i", '\u{ed}'),
        ("^i", '\u{ee}'),
        ("`i", '\u{ec}'),
        ("~n", '\u{f1}'),
        ("\"o", '\u{f6}'),
        ("'o", '\u{f3}'),
        ("/o", '\u{f8}'),
        ("Ho", '\u{151}'),
        ("^o", '\u{f4}'),
        ("`o", '\u{f2}'),
        ("~o", '\u{f5}'),
        ("ss", '\u{df}'),
        ("vs", '\u{161}'),
        ("\"u", '\u{fc}'),
        ("'u", '\u{fa}'),
        ("Hu", '\u{171}'),
        ("^u", '\u{fb}'),
        ("`u", '\u{f9}'),
        ("\"y", '\u{ff}'),
        ("'y", '\u{fd}'),
        ("^y", '\u{177}'),
        ("vz", '\u{17e}'),
        (";A", '\u{104}'),
        ("=A", '\u{100}'),
        ("oA", '\u{c5}'),
        ("'C", '\u{106}'),
        (",C", '\u{c7}'),
        (".C", '\u{10a}'),
        ("^C", '\u{108}'),
        ("vC", '\u{10c}'),
        ("/D", '\u{110}'),
        ("=D", '\u{110}'),
        ("vD", '\u{10e}'),
        (".E", '\u{116}'),
        (";E", '\u{118}'),
        ("=E", '\u{112}'),
        ("vE", '\u{11a}'),
        (",G", '\u{122}'),
        (".G", '\u{120}'),
        ("^G", '\u{11c}'),
        ("uG", '\u{11e}'),
        ("=H", '\u{126}'),
        ("^H", '\u{124}'),
        (".I", '\u{130}'),
        (";I", '\u{12e}'),
        ("=I", '\u{12a}'),
        ("uI", '\u{12c}'),
        ("~I", '\u{128}'),
        ("^J", '\u{134}'),
        (",K", '\u{136}'),
        ("'L", '\u{139}'),
        (",L", '\u{13b}'),
        ("/L", '\u{141}'),
        ("vL", '\u{13d}'),
        ("'N", '\u{143}'),
        (",N", '\u{145}'),
        ("vN", '\u{147}'),
        (":O", '\u{150}'),
        ("=O", '\u{14c}'),
        ("uO", '\u{14e}'),
        ("'R", '\u{154}'),
        (",R", '\u{156}'),
        ("vR", '\u{158}'),
        ("'S", '\u{15a}'),
        (",S", '\u{15e}'),
        ("^S", '\u{15c}'),
        (",T", '\u{162}'),
        ("=T", '\u{166}'),
        ("vT", '\u{164}'),
        (":U", '\u{170}'),
        (";U", '\u{172}'),
        ("=U", '\u{16a}'),
        ("oU", '\u{16e}'),
        ("uU", '\u{16c}'),
        ("~U", '\u{168}'),
        ("'Z", '\u{179}'),
        (".Z", '\u{17b}'),
        (";a", '\u{105}'),
        ("=a", '\u{101}'),
        ("oa", '\u{e5}'),
        ("'c", '\u{107}'),
        (",c", '\u{e7}'),
        (".c", '\u{10b}'),
        ("^c", '\u{109}'),
        ("vc", '\u{10d}'),
        ("/d", '\u{111}'),
        ("=d", '\u{111}'),
        ("vd", '\u{10f}'),
        (".e", '\u{117}'),
        (";e", '\u{119}'),
        ("=e", '\u{113}'),
        ("ve", '\u{11b}'),
        (",g", '\u{123}'),
        (".g", '\u{121}'),
        ("^g", '\u{11d}'),
        ("ng", '\u{14b}'),
        ("ug", '\u{11f}'),
        ("=h", '\u{127}'),
        ("^h", '\u{125}'),
        (".i", '\u{131}'),
        (";i", '\u{12f}'),
        ("=i", '\u{12b}'),
        ("ui", '\u{12d}'),
        ("~i", '\u{129}'),
        ("^j", '\u{135}'),
        (",k", '\u{137}'),
        ("'l", '\u{13a}'),
        (",l", '\u{13c}'),
        ("/l", '\u{142}'),
        ("vl", '\u{13e}'),
        ("'n", '\u{144}'),
        (",n", '\u{146}'),
        ("vn", '\u{148}'),
        (":o", '\u{151}'),
        ("=o", '\u{14d}'),
        ("uo", '\u{14f}'),
        ("'r", '\u{155}'),
        (",r", '\u{157}'),
        ("vr", '\u{159}'),
        ("'s", '\u{15b}'),
        (",s", '\u{15f}'),
        ("^s", '\u{15d}'),
        (",t", '\u{163}'),
        ("=t", '\u{167}'),
        ("vt", '\u{165}'),
        (":u", '\u{171}'),
        (";u", '\u{173}'),
        ("=u", '\u{16b}'),
        ("ou", '\u{16f}'),
        ("uu", '\u{16d}'),
        ("~u", '\u{169}'),
        ("'z", '\u{17a}'),
        (".z", '\u{17c}'),
        ("-A", '\u{100}'),
        ("-D", '\u{110}'),
        ("-E", '\u{112}'),
        ("-H", '\u{126}'),
        ("-I", '\u{12a}'),
        ("IJ", '\u{132}'),
        (".L", '\u{13f}'),
        ("-O", '\u{14c}'),
        ("-T", '\u{166}'),
        ("-U", '\u{16a}'),
        ("^W", '\u{174}'),
        ("^Z", '\u{1e90}'),
        ("-a", '\u{101}'),
        ("-d", '\u{111}'),
        ("-e", '\u{113}'),
        ("Ae", '\u{e6}'),
        ("Oe", '\u{153}'),
        ("-h", '\u{127}'),
        ("-i", '\u{12b}'),
        ("Ij", '\u{133}'),
        ("ij", '\u{133}'),
        (".l", '\u{140}'),
        ("-u", '\u{16b}'),
        ("^w", '\u{175}'),
        ("^z", '\u{1e91}'),
    ]
}


/// The named entities of the ABC standard and of HTML 4.0.
pub fn abc_named_entities() -> (t: Vec<(&'static str, char)>)
    ensures
        t@ == named_entities(),
        t@.len() == 252,
{
    vec![
        ("AElig", '\u{c6}'),
        ("Aacute", '\u{c1}'),
        ("Abreve", '\u{102}'),
        ("Acirc", '\u{c2}'),
        ("Agrave", '\u{c0}'),
        ("Aring", '\u{c5}'),
        ("Atilde", '\u{c3}'),
        ("Auml", '\u{c4}'),
        ("Ccedil", '\u{c7}'),
        ("ETH", '\u{d0}'),
        ("Eacute", '\u{c9}'),
        ("Ecirc", '\u{ca}'),
        ("Egrave", '\u{c8}'),
        ("Euml", '\u{cb}'),
        ("Iacute", '\u{cd}'),
        ("Icirc", '\u{ce}'),
        ("Igrave", '\u{cc}'),
        ("Iuml", '\u{cf}'),
        ("Ntilde", '\u{d1}'),
        ("OElig", '\u{152}'),
        ("Oacute", '\u{d3}'),
        ("Ocirc", '\u{d4}'),
        ("Ograve", '\u{d2}'),
        ("Oslash", '\u{d8}'),
        ("Otilde", '\u{d5}'),
        ("Ouml", '\u{d6}'),
        ("Scaron", '\u{160}'),
        ("THORN", '\u{de}'),
        ("Uacute", '\u{da}'),
        ("Ucirc", '\u{db}'),
        ("Ugrave", '\u{d9}'),
        ("Uuml", '\u{dc}'),
        ("Yacute", '\u{dd}'),
        ("Ycirc", '\u{176}'),
        ("Yuml", '\u{178}'),
        ("Zcaron", '\u{17d}'),
        ("aacute", '\u{e1}'),
        ("abreve", '\u{103}'),
        ("acirc", '\u{e2}'),
        ("aelig", '\u{e6}'),
        ("agrave", '\u{e0}'),
        ("aring", '\u{e5}'),
        ("atilde", '\u{e3}'),
        ("auml", '\u{e4}'),
        ("ccedil", '\u{e7}'),
        ("eacute", '\u{e9}'),
        ("ecirc", '\u{ea}'),
        ("egrave", '\u{e8}'),
        ("eth", '\u{f0}'),
        ("euml", '\u{eb}'),
        ("iacute", '\u{ed}'),
        ("icirc", '\u{ee}'),
        ("igrave", '\u{ec}'),
        ("iuml", '\u{ef}'),
        ("ntilde", '\u{f1}'),
        ("oacute", '\u{f3}'),
        ("ocirc", '\u{f4}'),
        ("oelig", '\u{153}'),
        ("ograve", '\u{f2}'),
        ("oslash", '\u{f8}'),
        ("otilde", '\u{f5}'),
        ("ouml", '\u{f6}'),
        ("scaron", '\u{161}'),
        ("szlig", '\u{df}'),
        ("thorn", '\u{fe}'),
        ("uacute", '\u{fa}'),
        ("ucirc", '\u{fb}'),
        ("ugrave", '\u{f9}'),
        ("uuml", '\u{fc}'),
        ("yacute", '\u{fd}'),
        ("ycirc", '\u{177}'),
        ("yuml", '\u{ff}'),
        ("zcaron", '\u{17e}'),
        ("Alpha", '\u{391}'),
        ("Beta", '\u{392}'),
        ("Chi", '\u{3a7}'),
        ("Dagger", '\u{2021}'),
        ("Delta", '\u{394}'),
        ("Epsilon", '\u{395}'),
        ("Eta", '\u{397}'),
        ("Gamma", '\u{393}'),
        ("Iota", '\u{399}'),
        ("Kappa", '\u{39a}'),
        ("Lambda", '\u{39b}'),
        ("Mu", '\u{39c}'),
        ("Nu", '\u{39d}'),
        ("Omega", '\u{3a9}'),
        ("Omicron", '\u{39f}'),
        ("Phi", '\u{3a6}'),
        ("Pi", '\u{3a0}'),
        ("Prime", '\u{2033}'),
        ("Psi", '\u{3a8}'),
        ("Rho", '\u{3a1}'),
        ("Sigma", '\u{3a3}'),
        ("Tau", '\u{3a4}'),
        ("Theta", '\u{398}'),
        ("Upsilon", '\u{3a5}'),
        ("Xi", '\u{39e}'),
        ("Zeta", '\u{396}'),
        ("acute", '\u{b4}'),
        ("alefsym", '\u{2135}'),
        ("alpha", '\u{3b1}'),
        ("amp", '&'),
        ("and", '\u{22a5}'),
        ("ang", '\u{2220}'),
        ("asymp", '\u{2248}'),
        ("bdquo", '\u{201e}'),
        ("beta", '\u{3b2}'),
        ("brvbar", '\u{a6}'),
        ("bull", '\u{2022}'),
        ("cap", '\u{2229}'),
        ("cedil", '\u{b8}'),
        ("cent", '\u{a2}'),
        ("chi", '\u{3c7}'),
        ("circ", '\u{2c6}'),
        ("clubs", '\u{2663}'),
        ("cong", '\u{2245}'),
        ("copy", '\u{a9}'),
        ("crarr", '\u{21b5}'),
        ("cup", '\u{222a}'),
        ("curren", '\u{a4}'),
        ("dArr", '\u{21d3}'),
        ("dagger", '\u{2020}'),
        ("darr", '\u{2193}'),
        ("deg", '\u{b0}'),
        ("delta", '\u{3b4}'),
        ("diams", '\u{2666}'),
        ("divide", '\u{f7}'),
        ("empty", '\u{2205}'),
        ("emsp", '\u{2003}'),
        ("ensp", '\u{2002}'),
        ("epsilon", '\u{3b5}'),
        ("equiv", '\u{2261}'),
        ("eta", '\u{3b7}'),
        ("exist", '\u{2203}'),
        ("fnof", '\u{192}'),
        ("forall", '\u{2200}'),
        ("frac12", '\u{bd}'),
        ("frac14", '\u{bc}'),
        ("frac34", '\u{be}'),
        ("frasl", '\u{2044}'),
        ("gamma", '\u{3b3}'),
        ("ge", '\u{2265}'),
        ("gt", '>'),
        ("hArr", '\u{21d4}'),
        ("harr", '\u{2194}'),
        ("hearts", '\u{2665}'),
        ("hellip", '\u{2026}'),
        ("iexcl", '\u{a1}'),
        ("image", '\u{2111}'),
        ("infin", '\u{221e}'),
        ("int", '\u{222b}'),
        ("iota", '\u{3b9}'),
        ("iquest", '\u{bf}'),
        ("isin", '\u{2208}'),
        ("kappa", '\u{3ba}'),
        ("lArr", '\u{21d0}'),
        ("lambda", '\u{3bb}'),
        ("lang", '\u{2329}'),
        ("laquo", '\u{ab}'),
        ("larr", '\u{2190}'),
        ("lceil", '\u{2308}'),
        ("ldquo", '\u{201c}'),
        ("le", '\u{2264}'),
        ("lfloor", '\u{230a}'),
        ("lowast", '\u{2217}'),
        ("loz", '\u{25ca}'),
        ("lsaquo", '\u{2039}'),
        ("lsquo", '\u{2018}'),
        ("lt", '<'),
        ("macr", '\u{af}'),
        ("mdash", '\u{2014}'),
        ("micro", '\u{b5}'),
        ("middot", '\u{b7}'),
        ("minus", '\u{2212}'),
        ("mu", '\u{3bc}'),
        ("nabla", '\u{2207}'),
        ("nbsp", '\u{a0}'),
        ("ndash", '\u{2013}'),
        ("ne", '\u{2260}'),
        ("ni", '\u{220b}'),
        ("not", '\u{ac}'),
        ("notin", '\u{2209}'),
        ("nsub", '\u{2284}'),
        ("nu", '\u{3bd}'),
        ("oline", '\u{203e}'),
        ("omega", '\u{3c9}'),
        ("omicron", '\u{3bf}'),
        ("oplus", '\u{2295}'),
        ("or", '\u{22a6}'),
        ("ordf", '\u{aa}'),
        ("ordm", '\u{ba}'),
        ("otimes", '\u{2297}'),
        ("para", '\u{b6}'),
        ("part", '\u{2202}'),
        ("permil", '\u{2030}'),
        ("perp", '\u{22a5}'),
        ("phi", '\u{3c6}'),
        ("pi", '\u{3c0}'),
        ("piv", '\u{3d6}'),
        ("plusmn", '\u{b1}'),
        ("pound", '\u{a3}'),
        ("prime", '\u{2032}'),
        ("prod", '\u{220f}'),
        ("prop", '\u{221d}'),
        ("psi", '\u{3c8}'),
        ("quot", '"'),
        ("rArr", '\u{21d2}'),
        ("radic", '\u{221a}'),
        ("rang", '\u{232a}'),
        ("raquo", '\u{bb}'),
        ("rarr", '\u{2192}'),
        ("rceil", '\u{2309}'),
        ("rdquo", '\u{201d}'),
        ("real", '\u{211c}'),
        ("reg", '\u{ae}'),
        ("rfloor", '\u{230b}'),
        ("rho", '\u{3c1}'),
        ("rsaquo", '\u{203a}'),
        ("rsquo", '\u{2019}'),
        ("sbquo", '\u{201a}'),
        ("sdot", '\u{22c5}'),
        ("sect", '\u{a7}'),
        ("sigma", '\u{3c3}'),
        ("sigmaf", '\u{3c2}'),
        ("sim", '\u{223c}'),
        ("spades", '\u{2660}'),
        ("sub", '\u{2282}'),
        ("sube", '\u{2286}'),
        ("sum", '\u{2211}'),
        ("sup1", '\u{b9}'),
        ("sup2", '\u{b2}'),
        ("sup3", '\u{b3}'),
        ("sup", '\u{2283}'),
        ("supe", '\u{2287}'),
        ("tau", '\u{3c4}'),
        ("there4", '\u{2234}'),
        ("theta", '\u{3b8}'),
        ("thetasym", '\u{3d1}'),
        ("thinsp", '\u{2009}'),
        ("tilde", '\u{2dc}'),
        ("times", '\u{d7}'),
        ("trade", '\u{2122}'),
        ("uArr", '\u{21d1}'),
        ("uarr", '\u{2191}'),
        ("uml", '\u{a8}'),
        ("upsih", '\u{3d2}'),
        ("upsilon", '\u{3c5}'),
        ("weierp", '\u{2118}'),
        ("xi", '\u{3be}'),
        ("yen", '\u{a5}'),
        ("zeta", '\u{3b6}'),
    ]
}

/// The entity table: each name and the character it stands for.
pub open spec fn named_entities() -> Seq<(&'static str, char)> {
    seq![
        ("AElig", '\u{c6}'),
        ("Aacute", '\u{c1}'),
        ("Abreve", '\u{102}'),
        ("Acirc", '\u{c2}'),
        ("Agrave", '\u{c0}'),
        ("Aring", '\u{c5}'),
        ("Atilde", '\u{c3}'),
        ("Auml", '\u{c4}'),
        ("Ccedil", '\u{c7}'),
        ("ETH", '\u{d0}'),
        ("Eacute", '\u{c9}'),
        ("Ecirc", '\u{ca}'),
        ("Egrave", '\u{c8}'),
        ("Euml", '\u{cb}'),
        ("Iacute", '\u{cd}'),
        ("Icirc", '\u{ce}'),
        ("Igrave", '\u{cc}'),
        ("Iuml", '\u{cf}'),
        ("Ntilde", '\u{d1}'),
        ("OElig", '\u{152}'),
        ("Oacute", '\u{d3}'),
        ("Ocirc", '\u{d4}'),
        ("Ograve", '\u{d2}'),
        ("Oslash", '\u{d8}'),
        ("Otilde", '\u{d5}'),
        ("Ouml", '\u{d6}'),
        ("Scaron", '\u{160}'),
        ("THORN", '\u{de}'),
        ("Uacute", '\u{da}'),
        ("Ucirc", '\u{db}'),
        ("Ugrave", '\u{d9}'),
        ("Uuml", '\u{dc}'),
        ("Yacute", '\u{dd}'),
        ("Ycirc", '\u{176}'),
        ("Yuml", '\u{178}'),
        ("Zcaron", '\u{17d}'),
        ("aacute", '\u{e1}'),
        ("abreve", '\u{103}'),
        ("acirc", '\u{e2}'),
        ("aelig", '\u{e6}'),
        ("agrave", '\u{e0}'),
        ("aring", '\u{e5}'),
        ("atilde", '\u{e3}'),
        ("auml", '\u{e4}'),
        ("ccedil", '\u{e7}'),
        ("eacute", '\u{e9}'),
        ("ecirc", '\u{ea}'),
        ("egrave", '\u{e8}'),
        ("eth", '\u{f0}'),
        ("euml", '\u{eb}'),
        ("iacute", '\u{ed}'),
        ("icirc", '\u{ee}'),
        ("igrave", '\u{ec}'),
        ("iuml", '\u{ef}'),
        ("ntilde", '\u{f1}'),
        ("oacute", '\u{f3}'),
        ("ocirc", '\u{f4}'),
        ("oelig", '\u{153}'),
        ("ograve", '\u{f2}'),
        ("oslash", '\u{f8}'),
        ("otilde", '\u{f5}'),
        ("ouml", '\u{f6}'),
        ("scaron", '\u{161}'),
        ("szlig", '\u{df}'),
        ("thorn", '\u{fe}'),
        ("uacute", '\u{fa}'),
        ("ucirc", '\u{fb}'),
        ("ugrave", '\u{f9}'),
        ("uuml", '\u{fc}'),
        ("yacute", '\u{fd}'),
        ("ycirc", '\u{177}'),
        ("yuml", '\u{ff}'),
        ("zcaron", '\u{17e}'),
        ("Alpha", '\u{391}'),
        ("Beta", '\u{392}'),
        ("Chi", '\u{3a7}'),
        ("Dagger", '\u{2021}'),
        ("Delta", '\u{394}'),
        ("Epsilon", '\u{395}'),
        ("Eta", '\u{397}'),
        ("Gamma", '\u{393}'),
        ("Iota", '\u{399}'),
        ("Kappa", '\u{39a}'),
        ("Lambda", '\u{39b}'),
        ("Mu", '\u{39c}'),
        ("Nu", '\u{39d}'),
        ("Omega", '\u{3a9}'),
        ("Omicron", '\u{39f}'),
        ("Phi", '\u{3a6}'),
        ("Pi", '\u{3a0}'),
        ("Prime", '\u{2033}'),
        ("Psi", '\u{3a8}'),
        ("Rho", '\u{3a1}'),
        ("Sigma", '\u{3a3}'),
        ("Tau", '\u{3a4}'),
        ("Theta", '\u{398}'),
        ("Upsilon", '\u{3a5}'),
        ("Xi", '\u{39e}'),
        ("Zeta", '\u{396}'),
        ("acute", '\u{b4}'),
        ("alefsym", '\u{2135}'),
        ("alpha", '\u{3b1}'),
        ("amp", '&'),
        ("and", '\u{22a5}'),
        ("ang", '\u{2220}'),
        ("asymp", '\u{2248}'),
        ("bdquo", '\u{201e}'),
        ("beta", '\u{3b2}'),
        ("brvbar", '\u{a6}'),
        ("bull", '\u{2022}'),
        ("cap", '\u{2229}'),
        ("cedil", '\u{b8}'),
        ("cent", '\u{a2}'),
        ("chi", '\u{3c7}'),
        ("circ", '\u{2c6}'),
        ("clubs", '\u{2663}'),
        ("cong", '\u{2245}'),
        ("copy", '\u{a9}'),
        ("crarr", '\u{21b5}'),
        ("cup", '\u{222a}'),
        ("curren", '\u{a4}'),
        ("dArr", '\u{21d3}'),
        ("dagger", '\u{2020}'),
        ("darr", '\u{2193}'),
        ("deg", '\u{b0}'),
        ("delta", '\u{3b4}'),
        ("diams", '\u{2666}'),
        ("divide", '\u{f7}'),
        ("empty", '\u{2205}'),
        ("emsp", '\u{2003}'),
        ("ensp", '\u{2002}'),
        ("epsilon", '\u{3b5}'),
        ("equiv", '\u{2261}'),
        ("eta", '\u{3b7}'),
        ("exist", '\u{2203}'),
        ("fnof", '\u{192}'),
        ("forall", '\u{2200}'),
        ("frac12", '\u{bd}'),
        ("frac14", '\u{bc}'),
        ("frac34", '\u{be}'),
        ("frasl", '\u{2044}'),
        ("gamma", '\u{3b3}'),
        ("ge", '\u{2265}'),
        ("gt", '>'),
        ("hArr", '\u{21d4}'),
        ("harr", '\u{2194}'),
        ("hearts", '\u{2665}'),
        ("hellip", '\u{2026}'),
        ("iexcl", '\u{a1}'),
        ("image", '\u{2111}'),
        ("infin", '\u{221e}'),
        ("int", '\u{222b}'),
        ("iota", '\u{3b9}'),
        ("iquest", '\u{bf}'),
        ("isin", '\u{2208}'),
        ("kappa", '\u{3ba}'),
        ("lArr", '\u{21d0}'),
        ("lambda", '\u{3bb}'),
        ("lang", '\u{2329}'),
        ("laquo", '\u{ab}'),
        ("larr", '\u{2190}'),
        ("lceil", '\u{2308}'),
        ("ldquo", '\u{201c}'),
        ("le", '\u{2264}'),
        ("lfloor", '\u{230a}'),
        ("lowast", '\u{2217}'),
        ("loz", '\u{25ca}'),
        ("lsaquo", '\u{2039}'),
        ("lsquo", '\u{2018}'),
        ("lt", '<'),
        ("macr", '\u{af}'),
        ("mdash", '\u{2014}'),
        ("micro", '\u{b5}'),
        ("middot", '\u{b7}'),
        ("minus", '\u{2212}'),
        ("mu", '\u{3bc}'),
        ("nabla", '\u{2207}'),
        ("nbsp", '\u{a0}'),
        ("ndash", '\u{2013}'),
        ("ne", '\u{2260}'),
        ("ni", '\u{220b}'),
        ("not", '\u{ac}'),
        ("notin", '\u{2209}'),
        ("nsub", '\u{2284}'),
        ("nu", '\u{3bd}'),
        ("oline", '\u{203e}'),
        ("omega", '\u{3c9}'),
        ("omicron", '\u{3bf}'),
        ("oplus", '\u{2295}'),
        ("or", '\u{22a6}'),
        ("ordf", '\u{aa}'),
        ("ordm", '\u{ba}'),
        ("otimes", '\u{2297}'),
        ("para", '\u{b6}'),
        ("part", '\u{2202}'),
        ("permil", '\u{2030}'),
        ("perp", '\u{22a5}'),
        ("phi", '\u{3c6}'),
        ("pi", '\u{3c0}'),
        ("piv", '\u{3d6}'),
        ("plusmn", '\u{b1}'),
        ("pound", '\u{a3}'),
        ("prime", '\u{2032}'),
        ("prod", '\u{220f}'),
        ("prop", '\u{221d}'),
        ("psi", '\u{3c8}'),
        ("quot", '"'),
        ("rArr", '\u{21d2}'),
        ("radic", '\u{221a}'),
        ("rang", '\u{232a}'),
        ("raquo", '\u{bb}'),
        ("rarr", '\u{2192}'),
        ("rceil", '\u{2309}'),
        ("rdquo", '\u{201d}'),
        ("real", '\u{211c}'),
        ("reg", '\u{ae}'),
        ("rfloor", '\u{230b}'),
        ("rho", '\u{3c1}'),
        ("rsaquo", '\u{203a}'),
        ("rsquo", '\u{2019}'),
        ("sbquo", '\u{201a}'),
        ("sdot", '\u{22c5}'),
        ("sect", '\u{a7}'),
        ("sigma", '\u{3c3}'),
        ("sigmaf", '\u{3c2}'),
        ("sim", '\u{223c}'),
        ("spades", '\u{2660}'),
        ("sub", '\u{2282}'),
        ("sube", '\u{2286}'),
        ("sum", '\u{2211}'),
        ("sup1", '\u{b9}'),
        ("sup2", '\u{b2}'),
        ("sup3", '\u{b3}'),
        ("sup", '\u{2283}'),
        ("supe", '\u{2287}'),
        ("tau", '\u{3c4}'),
        ("there4", '\u{2234}'),
        ("theta", '\u{3b8}'),
        ("thetasym", '\u{3d1}'),
        ("thinsp", '\u{2009}'),
        ("tilde", '\u{2dc}'),
        ("times", '\u{d7}'),
        ("trade", '\u{2122}'),
        ("uArr", '\u{21d1}'),
        ("uarr", '\u{2191}'),
        ("uml", '\u{a8}'),
        ("upsih", '\u{3d2}'),
        ("upsilon", '\u{3c5}'),
        ("weierp", '\u{2118}'),
        ("xi", '\u{3be}'),
        ("yen", '\u{a5}'),
        ("zeta", '\u{3b6}'),
    ]
}


/// `a` and `b` hold the same bytes.
fn same_bytes(a: &[u8], b: &[u8]) -> (r: bool)
    ensures
        r == (a@ == b@),
{
    if a.len() != b.len() {
        return false;
    }
    let mut k: usize = 0;
    while k < a.len()
        invariant
            a@.len() == b@.len(),
            k <= a@.len(),
            forall|j: int| 0 <= j < k ==> a@[j] == b@[j],
        decreases a@.len() - k,
    {
        if a[k] != b[k] {
            return false;
        }
        k = k + 1;
    }
    assert(a@ =~= b@);
    true
}

/// The character that `key` stands for in `table`: that of the first entry
/// whose key has the same bytes, if there is one.
pub fn lookup(table: &Vec<(&'static str, char)>, key: &str) -> (r: Option<char>)
    ensures
        match r {
            Some(c) => exists|i: int|
                0 <= i < table@.len() && (#[trigger] table@[i]).0.spec_bytes() == key.spec_bytes()
                    && table@[i].1 == c && forall|j: int|
                    0 <= j < i ==> (#[trigger] table@[j]).0.spec_bytes() != key.spec_bytes(),
            None => forall|i: int|
                0 <= i < table@.len() ==> (#[trigger] table@[i]).0.spec_bytes() != key.spec_bytes(),
        },
{
    let kb = key.as_bytes();
    let mut i: usize = 0;
    while i < table.len()
        invariant
            i <= table@.len(),
            kb@ == key.spec_bytes(),
            forall|j: int| 0 <= j < i ==> (#[trigger] table@[j]).0.spec_bytes() != key.spec_bytes(),
        decreases table@.len() - i,
    {
        let (k, c) = table[i];
        if same_bytes(k.as_bytes(), kb) {
            assert(table@[i as int].0.spec_bytes() == key.spec_bytes());
            return Some(c);
        }
        i = i + 1;
    }
    None
}

} // verus!
