//! Script detection for rendering: which writing systems a text uses, in
//! order of first appearance, and which font families suit each script.
//! Discovering and loading actual font files happens outside the library.

use vstd::prelude::*;
use vstd::string::{StrSliceExecFns, StringExecFns};

verus! {

/// A writing system a text may need a font for.
#[derive(Debug, Clone, Copy, PartialEq, Eq, Structural)]
pub enum LanguageScript {
    Latin,
    CJK,
    Arabic,
    Cyrillic,
    Thai,
    Devanagari,
}

/// Latin letters and decimal digits.
pub open spec fn is_latin_char(c: char) -> bool {
    (0x41 <= c as u32 && c as u32 <= 0x5a) || (0x61 <= c as u32 && c as u32 <= 0x7a) || (0x30
        <= c as u32 && c as u32 <= 0x39)
}

/// The CJK ranges the detector recognises: unified ideographs, extensions
/// A and B, hiragana, katakana and Hangul syllables.
pub open spec fn is_cjk_char(c: char) -> bool {
    (0x4e00 <= c as u32 && c as u32 <= 0x9fff) || (0x3400 <= c as u32 && c as u32 <= 0x4dbf) || (
    0x20000 <= c as u32 && c as u32 <= 0x2a6df) || (0x3040 <= c as u32 && c as u32 <= 0x309f) || (
    0x30a0 <= c as u32 && c as u32 <= 0x30ff) || (0xac00 <= c as u32 && c as u32 <= 0xd7af)
}

/// The Arabic ranges the detector recognises.
pub open spec fn is_arabic_char(c: char) -> bool {
    (0x600 <= c as u32 && c as u32 <= 0x6ff) || (0x750 <= c as u32 && c as u32 <= 0x77f)
}

/// The Cyrillic range the detector recognises.
pub open spec fn is_cyrillic_char(c: char) -> bool {
    0x400 <= c as u32 && c as u32 <= 0x4ff
}

/// The scripts found in `s` from position `i` on, appended to those
/// already found, each recorded once at its first appearance.
pub open spec fn scripts_from(s: Seq<char>, i: int, acc: Seq<LanguageScript>) -> Seq<
    LanguageScript,
>
    decreases s.len() - i,
{
    if i < 0 || i >= s.len() {
        acc
    } else {
        let c = s[i];
        let acc2 = if is_latin_char(c) && !acc.contains(LanguageScript::Latin) {
            acc.push(LanguageScript::Latin)
        } else if is_cjk_char(c) && !acc.contains(LanguageScript::CJK) {
            acc.push(LanguageScript::CJK)
        } else if is_arabic_char(c) && !acc.contains(LanguageScript::Arabic) {
            acc.push(LanguageScript::Arabic)
        } else if is_cyrillic_char(c) && !acc.contains(LanguageScript::Cyrillic) {
            acc.push(LanguageScript::Cyrillic)
        } else {
            acc
        };
        scripts_from(s, i + 1, acc2)
    }
}

/// What `detect_script` returns: the scripts of `s` in order of first
/// appearance, or Latin alone when none is recognised.
pub open spec fn detected_scripts(s: Seq<char>) -> Seq<LanguageScript> {
    let found = scripts_from(s, 0, Seq::empty());
    if found.len() == 0 {
        seq![LanguageScript::Latin]
    } else {
        found
    }
}

fn char_is_latin(c: char) -> (r: bool)
    ensures
        r == is_latin_char(c),
{
    let u = c as u32;
    (0x41 <= u && u <= 0x5a) || (0x61 <= u && u <= 0x7a) || (0x30 <= u && u <= 0x39)
}

fn char_is_cjk(c: char) -> (r: bool)
    ensures
        r == is_cjk_char(c),
{
    let u = c as u32;
    (0x4e00 <= u && u <= 0x9fff) || (0x3400 <= u && u <= 0x4dbf) || (0x20000 <= u && u <= 0x2a6df)
        || (0x3040 <= u && u <= 0x309f) || (0x30a0 <= u && u <= 0x30ff) || (0xac00 <= u && u
        <= 0xd7af)
}

fn char_is_arabic(c: char) -> (r: bool)
    ensures
        r == is_arabic_char(c),
{
    let u = c as u32;
    (0x600 <= u && u <= 0x6ff) || (0x750 <= u && u <= 0x77f)
}

fn char_is_cyrillic(c: char) -> (r: bool)
    ensures
        r == is_cyrillic_char(c),
{
    let u = c as u32;
    0x400 <= u && u <= 0x4ff
}

/// The writing systems `text` uses, each reported once, in order of first
/// appearance; a text with none of the recognised scripts reports Latin.
pub fn detect_script(text: &str) -> (r: Vec<LanguageScript>)
    ensures
        r@ == detected_scripts(text@),
{
    let n = text.unicode_len();
    let mut scripts: Vec<LanguageScript> = Vec::new();
    let mut has_latin = false;
    let mut has_cjk = false;
    let mut has_arabic = false;
    let mut has_cyrillic = false;
    let mut i: usize = 0;
    while i < n
        invariant
            n == text@.len(),
            i <= n,
            has_latin == scripts@.contains(LanguageScript::Latin),
            has_cjk == scripts@.contains(LanguageScript::CJK),
            has_arabic == scripts@.contains(LanguageScript::Arabic),
            has_cyrillic == scripts@.contains(LanguageScript::Cyrillic),
            scripts_from(text@, 0, Seq::empty()) == scripts_from(text@, i as int, scripts@),
        decreases n - i,
    {
        let c = text.get_char(i);
        let ghost acc = scripts@;
        if char_is_latin(c) {
            if !has_latin {
                scripts.push(LanguageScript::Latin);
                has_latin = true;
            }
        } else if char_is_cjk(c) {
            if !has_cjk {
                scripts.push(LanguageScript::CJK);
                has_cjk = true;
            }
        } else if char_is_arabic(c) {
            if !has_arabic {
                scripts.push(LanguageScript::Arabic);
                has_arabic = true;
            }
        } else if char_is_cyrillic(c) {
            if !has_cyrillic {
                scripts.push(LanguageScript::Cyrillic);
                has_cyrillic = true;
            }
        }
        proof {
            if acc != scripts@ {
                let x = scripts@.last();
                assert(scripts@ =~= acc.push(x));
                lemma_push_contains(acc, x, LanguageScript::Latin);
                lemma_push_contains(acc, x, LanguageScript::CJK);
                lemma_push_contains(acc, x, LanguageScript::Arabic);
                lemma_push_contains(acc, x, LanguageScript::Cyrillic);
            }
            assert(scripts_from(text@, i as int, acc) == scripts_from(
                text@,
                i + 1,
                scripts@,
            ));
        }
        i = i + 1;
    }
    if scripts.len() == 0 {
        scripts.push(LanguageScript::Latin);
        proof {
            assert(scripts@ =~= seq![LanguageScript::Latin]);
        }
    }
    scripts
}

/// What pushing one script does to membership.
proof fn lemma_push_contains(s: Seq<LanguageScript>, x: LanguageScript, y: LanguageScript)
    ensures
        s.push(x).contains(y) <==> (s.contains(y) || y == x),
{
    if s.contains(y) {
        let i = choose|i: int| 0 <= i < s.len() && s[i] == y;
        assert(s.push(x)[i] == y);
    }
    if y == x {
        assert(s.push(x)[s.len() as int] == y);
    }
    if s.push(x).contains(y) {
        let i = choose|i: int| 0 <= i < s.push(x).len() && s.push(x)[i] == y;
        if i < s.len() {
            assert(s[i] == y);
        }
    }
}

/// The names of a sequence of font family strings.
pub open spec fn family_names(s: Seq<String>) -> Seq<Seq<char>> {
    s.map_values(|f: String| f@)
}

/// The font families recommended for each script.
pub open spec fn fonts_for_script_spec(script: LanguageScript) -> Seq<Seq<char>> {
    match script {
        LanguageScript::CJK => seq![
            "Noto Sans CJK SC"@,
            "Microsoft YaHei"@,
            "PingFang SC"@,
            "Source Han Sans SC"@,
            "WenQuanYi Micro Hei"@,
        ],
        LanguageScript::Arabic => seq!["Noto Sans Arabic"@, "Arial Unicode MS"@],
        LanguageScript::Cyrillic => seq!["Noto Sans"@, "DejaVu Sans"@, "Liberation Sans"@],
        _ => seq!["Segoe UI"@, "SF Pro Display"@, "DejaVu Sans"@, "Liberation Sans"@],
    }
}

/// The font families recommended for a script, best candidates first.
pub fn get_fonts_for_script(script: &LanguageScript) -> (r: Vec<String>)
    ensures
        family_names(r@) == fonts_for_script_spec(*script),
{
    let mut r: Vec<String> = Vec::new();
    match script {
        LanguageScript::CJK => {
            r.push(String::from_str("Noto Sans CJK SC"));
            r.push(String::from_str("Microsoft YaHei"));
            r.push(String::from_str("PingFang SC"));
            r.push(String::from_str("Source Han Sans SC"));
            r.push(String::from_str("WenQuanYi Micro Hei"));
        },
        LanguageScript::Arabic => {
            r.push(String::from_str("Noto Sans Arabic"));
            r.push(String::from_str("Arial Unicode MS"));
        },
        LanguageScript::Cyrillic => {
            r.push(String::from_str("Noto Sans"));
            r.push(String::from_str("DejaVu Sans"));
            r.push(String::from_str("Liberation Sans"));
        },
        _ => {
            r.push(String::from_str("Segoe UI"));
            r.push(String::from_str("SF Pro Display"));
            r.push(String::from_str("DejaVu Sans"));
            r.push(String::from_str("Liberation Sans"));
        },
    }
    proof {
        assert(family_names(r@) =~= fonts_for_script_spec(*script));
    }
    r
}

} // verus!
