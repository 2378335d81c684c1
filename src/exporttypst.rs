//! Typst output.
use crate::document::ExportDocument;
use crate::page_glosses::{entries_view, entry_view};
use crate::model::{ArrowedState, ArrowedWordsIndex, GlossOccurrance, WordType, WordUuid};
use crate::render::{
    filled_template, is_closing_punctuation, section_parts,
    closing_punctuation, fill_template, opens_group, section_numbers, section_text, text_is,
    verse_number,
};
use crate::text::{
    chars_of, decimal, i32_multiple_of_five, parsed_i32, push_decimal, replace_literal, replaced, string_of,
};
use std::collections::HashMap;
use vstd::prelude::*;
use vstd::string::*;

verus! {

broadcast use vstd::std_specs::hash::group_hash_axioms;

/// `s` with Typst's markup characters escaped and `<b>`, `<i>`, `<sup>`
/// markup turned into Typst calls, one replacement after another.
pub open spec fn typst_escaped(s: Seq<char>) -> Seq<char> {
    let s0 = replaced(s, "\""@, "\\\""@);
    let s1 = replaced(s0, "$"@, "\\$"@);
    let s2 = replaced(s1, "#"@, "\\#"@);
    let s3 = replaced(s2, "]"@, "\\u{005D}"@);
    let s4 = replaced(s3, "["@, "\\u{005B}"@);
    let s5 = replaced(s4, "<b>"@, "#strong["@);
    let s6 = replaced(s5, "</b>"@, "]"@);
    let s7 = replaced(s6, "</i>"@, "\")"@);
    let s8 = replaced(s7, "<i>"@, "#fakeitalic(\""@);
    let s9 = replaced(s8, "<sup>"@, "#super["@);
    let s10 = replaced(s9, "</sup>"@, "]"@);
    let s11 = replaced(s10, ">"@, "\\>"@);
    let s12 = replaced(s11, "<"@, "\\<"@);
    let s13 = replaced(s12, "="@, "\\u{003D}"@);
    s13
}

/// `s` escaped as `typst_escaped` says.
pub fn escape_typst(s: &str) -> (r: String)
    ensures
        r@ == typst_escaped(s@),
{
    proof {
        reveal_strlit("\"");
        reveal_strlit("$");
        reveal_strlit("#");
        reveal_strlit("]");
        reveal_strlit("[");
        reveal_strlit("<b>");
        reveal_strlit("</b>");
        reveal_strlit("</i>");
        reveal_strlit("<i>");
        reveal_strlit("<sup>");
        reveal_strlit("</sup>");
        reveal_strlit(">");
        reveal_strlit("<");
        reveal_strlit("=");
    }
    let v = chars_of(s);
    let v = replace_literal(&v, "\"", "\\\"");
    let v = replace_literal(&v, "$", "\\$");
    let v = replace_literal(&v, "#", "\\#");
    let v = replace_literal(&v, "]", "\\u{005D}");
    let v = replace_literal(&v, "[", "\\u{005B}");
    let v = replace_literal(&v, "<b>", "#strong[");
    let v = replace_literal(&v, "</b>", "]");
    let v = replace_literal(&v, "</i>", "\")");
    let v = replace_literal(&v, "<i>", "#fakeitalic(\"");
    let v = replace_literal(&v, "<sup>", "#super[");
    let v = replace_literal(&v, "</sup>", "]");
    let v = replace_literal(&v, ">", "\\>");
    let v = replace_literal(&v, "<", "\\<");
    let v = replace_literal(&v, "=", "\\u{003D}");
    string_of(&v)
}

/// The verse number as shown in the last column: a number that parses as
/// an `i32` is shown only when it is a multiple of 5; `otherwise` stands
/// for text that does not parse.
pub open spec fn shown_number(num: Seq<char>, otherwise: Seq<char>) -> Seq<char> {
    match parsed_i32(num) {
        Some(i) => if i % 5 == 0 {
            num
        } else {
            Seq::empty()
        },
        None => otherwise,
    }
}

/// The speaker column: the speaker's name, or nothing.
pub open spec fn speaker_text(sp: Option<String>) -> Seq<char> {
    match sp {
        Some(x) => x@,
        None => Seq::empty(),
    }
}

/// One row of the verse table as three bracketed cells; nothing for an
/// empty line. A number that does not parse is shown escaped.
pub open spec fn typst_verse_line(sp: Option<String>, line: Seq<char>, num: Seq<char>) -> Seq<char> {
    if line.len() == 0 {
        Seq::empty()
    } else {
        "["@ + speaker_text(sp) + "],\n["@ + line + "],\n["@ + shown_number(num, typst_escaped(num))
            + "],\n\n"@
    }
}

/// One row of the verse table.
pub fn complete_verse_line(
    verse_speaker: Option<String>,
    verse_line: &str,
    verse_line_number: &str,
) -> (r: String)
    ensures
        r@ == typst_verse_line(verse_speaker, verse_line@, verse_line_number@),
{
    if verse_line.unicode_len() == 0 {
        return String::new();
    }
    let num = chars_of(verse_line_number);
    let shown: String = match i32_multiple_of_five(&num) {
        Some(true) => String::from_str(verse_line_number),
        Some(false) => String::new(),
        None => escape_typst(verse_line_number),
    };
    let mut r = String::from_str("[");
    match &verse_speaker {
        Some(x) => r.append(x.as_str()),
        None => {},
    }
    r.append("],\n[");
    r.append(verse_line);
    r.append("],\n[");
    r.append(shown.as_str());
    r.append("],\n\n");
    r
}


/// The rows of the Typst index for `entries`: lemma and page number with a
/// dotted fill between them.
pub open spec fn typst_index_rows(entries: Seq<(Seq<char>, Seq<char>, usize)>) -> Seq<char>
    decreases entries.len(),
{
    if entries.len() == 0 {
        Seq::empty()
    } else {
        let e = entries.last();
        typst_index_rows(entries.drop_last()) + "["@ + e.0 + " #box(width: 1fr, repeat[.])],[#box(width: 1fr, repeat[.]) "@ + decimal((e.2) as nat) + "],"@
    }
}

/// The state of the Typst running text after some words: markup so far,
/// whether the next word takes no space, whether a verse table is open, the
/// verse line's speaker, text and number, and the apparatus notes met.
pub type TypstRun = (Seq<char>, bool, bool, Option<String>, Seq<char>, Seq<char>, Seq<String>);

/// The Typst running text after word `w`.
pub open spec fn typst_step(st: TypstRun, w: GlossOccurrance, notes: Map<WordUuid, String>) -> TypstRun {
    let (res, prev, verse, sp, line, num, aps0) = st;
    let aps = if notes.contains_key(w.word.uuid) { aps0.push(notes[w.word.uuid]) } else { aps0 };
    let word = w.word.word@;
    match w.word.word_type {
        WordType::VerseLine => if !verse {
            (res + "\n#versetable(\n"@, prev, true, sp, line, replaced(word, "[line]"@, ""@), aps)
        } else {
            (res + typst_verse_line(sp, line, num), prev, true, None, Seq::empty(), replaced(word, "[line]"@, ""@), aps)
        },
        WordType::WorkTitle => (res + "\n#align(center)["@ + typst_escaped(word) + "]\n\\\n\\\n"@, prev, verse, sp, line, num, aps),
        WordType::Word | WordType::Punctuation => {
            let spaced = if !(is_closing_punctuation(word) || prev) { Seq::<char>::empty() + " "@ } else { Seq::<char>::empty() };
            let tw = spaced + typst_escaped(word);
            let next_prev = word == "<"@ || word == "["@ || word == "("@;
            if verse {
                (res, next_prev, verse, sp, line + tw, num, aps)
            } else {
                (res + tw, next_prev, verse, sp, line, num, aps)
            }
        },
        WordType::ParaWithIndent => (res + "\n\n#h(2em)\n"@, prev, verse, sp, line, num, aps),
        WordType::ParaNoIndent => (res + "\n\n"@, prev, verse, sp, line, num, aps),
        WordType::SectionTitle => (res + "\\ #align(center)["@ + typst_escaped(word) + "] \\ "@, prev, verse, sp, line, num, aps),
        WordType::Section => {
            let input = replaced(word, "[section]"@, ""@);
            let r1 = match section_parts(input) {
                Some((a, b)) => if b == "1"@ {
                    res + "#sidenote(format: it => text(size: 1.2em, it.default))[#strong["@ + a + "]] "@
                } else {
                    res + "#sidenote["@ + b + "] "@
                },
                None => res + "#sidenote(format: it => text(size: 1.2em, it.default))[#strong["@ + input + "]] "@,
            };
            (r1, true, verse, sp, line, num, aps)
        },
        WordType::Speaker => if verse {
            (res + typst_verse_line(sp, line, num) + ")"@ + word + "\n#versetable(\n"@, prev, verse, None, Seq::empty(), num, aps)
        } else {
            (res + word, prev, verse, sp, line, num, aps)
        },
        WordType::InlineSpeaker | WordType::InlineVerseSpeaker => if verse {
            (res, prev, verse, Some(w.word.word), line, num, aps)
        } else {
            (res + "\n\n#strong["@ + word + "] "@, prev, verse, sp, line, num, aps)
        },
        _ => (res, prev, verse, sp, line, num, aps),
    }
}

/// The Typst running text after the first `k` words of `occ`.
pub open spec fn typst_run(occ: Seq<GlossOccurrance>, notes: Map<WordUuid, String>, k: nat) -> TypstRun
    decreases k,
{
    if k == 0 {
        (Seq::empty(), true, false, None, Seq::empty(), Seq::empty(), Seq::empty())
    } else {
        typst_step(typst_run(occ, notes, (k - 1) as nat), occ[k - 1], notes)
    }
}

/// The apparatus notes of a page, escaped, one line each.
pub open spec fn typst_notes(aps: Seq<String>) -> Seq<char>
    decreases aps.len(),
{
    if aps.len() == 0 {
        Seq::empty()
    } else {
        typst_notes(aps.drop_last()) + typst_escaped(aps.last()@) + " \\\n"@
    }
}

/// The Typst running text of occurrences `occ`: every word, then the last
/// verse line and the end of the verse table, then the apparatus notes.
pub open spec fn typst_text(occ: Seq<GlossOccurrance>, notes: Map<WordUuid, String>) -> Seq<char> {
    let (res, prev, verse, sp, line, num, aps) = typst_run(occ, notes, occ.len());
    let r1 = if verse { res + typst_verse_line(sp, line, num) + "\n)\n"@ } else { res + "\n\n"@ };
    let r2 = if aps.len() > 0 { r1 + "\n\n"@ } else { r1 };
    r2 + typst_notes(aps)
}

/// Typst output: each page a text block with its gloss table placed at the
/// bottom.
pub struct ExportTypst {}

impl ExportDocument for ExportTypst {
    open spec fn text_markup(&self, occ: Seq<GlossOccurrance>, notes: Map<WordUuid, String>) -> Seq<char> {
        typst_text(occ, notes)
    }

    open spec fn gloss_entry_text(&self, o: GlossOccurrance, lemma: Option<Seq<char>>) -> Seq<char> {
        if o.arrowed_state == ArrowedState::Invisible {
            Seq::empty()
        } else {
            match (lemma, o.gloss) {
                (Some(l), Some(g)) => {
                    let arrow = if o.arrowed_state == ArrowedState::Arrowed { "#strong[→]"@ } else { ""@ };
                    "["@ + arrow + "],\n[#glosshang["@ + typst_escaped(l) + "]],\n[#glossdef["@ + typst_escaped(g.def@) + "]],\n\n"@
                },
                _ => Seq::empty(),
            }
        }
    }

    open spec fn page_start_text(&self, title: Seq<char>, page_number: usize) -> Seq<char> {
        "\n            #set page(\n              header: context {\n                let page = counter(page).get().first() // Get current page number\n                if calc.odd(page) {\n                  align(right, \""@ + title + "\")\n                } else {\n                  align(left, \"LGI - UPPER LEVEL GREEK\")\n                }\n              }\n            )\n            "@
    }

    open spec fn page_end_text(&self) -> Seq<char> {
        "\n            )\n            ]\n\n            #pagebreak()\n            "@
    }

    open spec fn gloss_list_start_text(&self) -> Seq<char> {
        "\n            #placegloss()[\n                #glosstable(\n                "@
    }

    open spec fn document_end_text(&self) -> Seq<char> {
        "\n"@
    }

    open spec fn document_start_text(&self, title: Seq<char>, start_page: usize) -> Seq<char> {
        filled_template("#import \"@preview/marge:0.1.0\": sidenote\n        #let sidenote = sidenote.with(side: left, padding: 3em)\n\n\n        #import \"@preview/cuti:0.4.0\": fakeitalic\n\n        #set page(width: 8.5in, height: 11in)\n        #set page(numbering: \"1\")\n        #counter(page).update(%PAGE_NUM%)\n        #set page(\n          header: context {\n            let page = counter(page).get().first() // Get current page number\n            if calc.odd(page) {\n              align(right, \"{%MAIN_TITLE%}\")\n            } else {\n              align(left, \"LGI - UPPER LEVEL GREEK\")\n            }\n          }\n        )\n\n        #let glosshang = par.with(hanging-indent: 2em, justify: false, leading: 0.7em,)\n        #let glossdef = par.with(justify: false, leading: 0.7em,)\n        #let glosstable = table.with(\n            columns: (0.6cm, 8.0cm, 9.0cm),\n            align: start + top,\n            stroke: none,\n            row-gutter: 0.07cm,)\n        #let versetable = table.with(\n            columns: (1.1cm, 9.0cm, 3.0cm),\n            align: start + top,\n            stroke: none,\n            row-gutter: 0.07cm,)\n        #let placegloss = place.with(bottom, dx: -0.8cm)\n        #let placeverse = box.with(pad: (left: 2cm))\n\n        #let indextable = table.with(\n            columns: (90%, 10%),\n            align: (start + top, end + top),\n            stroke: none,\n            inset: 0%,\n            column-gutter: 0cm,\n            row-gutter: 0.225cm,)\n\n        #set par(\n          justify: true,\n          leading: 0.9em,\n          spacing: 2em\n        )\n        #set text(\n          font: \"IFAO-Grec Unicode\",\n          size: 12pt,\n        )\n"@, title, start_page as nat)
    }

    open spec fn index_text(&self, entries: Seq<(Seq<char>, Seq<char>, usize)>) -> Seq<char> {
        "\n        #set page(\n          header: context {\n            let page = counter(page).get().first() // Get current page number\n            if calc.odd(page) {\n              align(right, \"INDEX OF ARROWED WORDS\")\n            } else {\n              align(left, \"LGI - UPPER LEVEL GREEK\")\n            }\n          }\n        )\n        #indextable(\n        "@ + typst_index_rows(entries) + "\n)"@
    }

    open spec fn blank_page_text(&self) -> Seq<char> {
        "#pagebreak()"@
    }

    fn gloss_entry(&self, gloss_occurrance: &GlossOccurrance, lemma: Option<&str>) -> String {
        if gloss_occurrance.arrowed_state == ArrowedState::Invisible {
            return String::new();
        }
        match (lemma, &gloss_occurrance.gloss) {
            (Some(lemma_unwrapped), Some(gloss_unwrapped)) => {
                let arrow = if gloss_occurrance.arrowed_state == ArrowedState::Arrowed {
                    "#strong[→]"
                } else {
                    ""
                };
                let l = escape_typst(lemma_unwrapped);
                let d = escape_typst(gloss_unwrapped.def.as_str());
                let mut r = String::new();
                r.append("[");
                r.append(arrow);
                r.append("],\n[#glosshang[");
                r.append(l.as_str());
                r.append("]],\n[#glossdef[");
                r.append(d.as_str());
                r.append("]],\n\n");
                r
            },
            _ => String::new(),
        }
    }

    fn make_text(
        &self,
        gloss_occurrances: &[GlossOccurrance],
        appcrit_hash: &HashMap<WordUuid, String>,
    ) -> String {
        let mut res = String::new();
        let mut prev_non_space = true;
        let mut is_verse_section = false;
        let mut verse_speaker: Option<String> = None;
        let mut verse_line = String::new();
        let mut verse_line_number = String::new();
        let mut appcrits_page: Vec<String> = Vec::new();
        let mut i: usize = 0;
        while i < gloss_occurrances.len()
            invariant
                i <= gloss_occurrances@.len(),
                (res@, prev_non_space, is_verse_section, verse_speaker, verse_line@, verse_line_number@,
                    appcrits_page@) == typst_run(gloss_occurrances@, appcrit_hash@, i as nat),
            decreases gloss_occurrances@.len() - i,
        {
            let w = &gloss_occurrances[i];
            match appcrit_hash.get(&w.word.uuid) {
                Some(ap) => appcrits_page.push(ap.clone()),
                None => {},
            }
            match w.word.word_type {
                WordType::VerseLine => {
                    if !is_verse_section {
                        res.append("\n#versetable(\n");
                        is_verse_section = true;
                    } else {
                        let line = complete_verse_line(
                            verse_speaker,
                            verse_line.as_str(),
                            verse_line_number.as_str(),
                        );
                        res.append(line.as_str());
                        verse_speaker = None;
                        verse_line = String::new();
                    }
                    verse_line_number = verse_number(w.word.word.as_str());
                },
                WordType::WorkTitle => {
                    let title = escape_typst(w.word.word.as_str());
                    res.append("\n#align(center)[");
                    res.append(title.as_str());
                    res.append("]\n\\\n\\\n");
                },
                WordType::Word | WordType::Punctuation => {
                    let mut s = String::new();
                    if !(closing_punctuation(w.word.word.as_str()) || prev_non_space) {
                        s.append(" ");
                    }
                    let escaped = escape_typst(w.word.word.as_str());
                    s.append(escaped.as_str());
                    if is_verse_section {
                        verse_line.append(s.as_str());
                    } else {
                        res.append(s.as_str());
                    }
                    prev_non_space = opens_group(w.word.word.as_str());
                },
                WordType::ParaWithIndent => res.append("\n\n#h(2em)\n"),
                WordType::ParaNoIndent => res.append("\n\n"),
                WordType::SectionTitle => {
                    let title = escape_typst(w.word.word.as_str());
                    res.append("\\ #align(center)[");
                    res.append(title.as_str());
                    res.append("] \\ ");
                },
                WordType::Section => {
                    let section_input = section_text(w.word.word.as_str());
                    match section_numbers(section_input.as_str()) {
                        Some((section, subsection)) => {
                            if text_is(subsection.as_str(), "1") {
                                res.append("#sidenote(format: it => text(size: 1.2em, it.default))[#strong[");
                                res.append(section.as_str());
                                res.append("]] ");
                            } else {
                                res.append("#sidenote[");
                                res.append(subsection.as_str());
                                res.append("] ");
                            }
                        },
                        None => {
                            res.append("#sidenote(format: it => text(size: 1.2em, it.default))[#strong[");
                            res.append(section_input.as_str());
                            res.append("]] ");
                        },
                    }
                    prev_non_space = true;
                },
                WordType::Speaker => {
                    if is_verse_section {
                        let speaker = match &verse_speaker {
                            Some(x) => Some(x.clone()),
                            None => None,
                        };
                        let line = complete_verse_line(
                            speaker,
                            verse_line.as_str(),
                            verse_line_number.as_str(),
                        );
                        res.append(line.as_str());
                        verse_speaker = None;
                        verse_line = String::new();
                        res.append(")");
                    }
                    res.append(w.word.word.as_str());
                    if is_verse_section {
                        res.append("\n#versetable(\n");
                    }
                },
                WordType::InlineSpeaker | WordType::InlineVerseSpeaker => {
                    if is_verse_section {
                        verse_speaker = Some(w.word.word.clone());
                    } else {
                        res.append("\n\n#strong[");
                        res.append(w.word.word.as_str());
                        res.append("] ");
                    }
                },
                _ => {},
            }
            i += 1;
        }
        if is_verse_section {
            let line = complete_verse_line(verse_speaker, verse_line.as_str(), verse_line_number.as_str());
            res.append(line.as_str());
            res.append("\n)\n");
        } else {
            res.append("\n\n");
        }
        if appcrits_page.len() > 0 {
            res.append("\n\n");
        }
        let mut k: usize = 0;
        let ghost base = res@;
        proof {
            assert(appcrits_page@.take(0) =~= Seq::<String>::empty());
            assert(base + typst_notes(appcrits_page@.take(0)) =~= base);
        }
        while k < appcrits_page.len()
            invariant
                k <= appcrits_page@.len(),
                res@ == base + typst_notes(appcrits_page@.take(k as int)),
            decreases appcrits_page@.len() - k,
        {
            proof {
                assert(appcrits_page@.take(k + 1).drop_last() =~= appcrits_page@.take(k as int));
            }
            let ap = escape_typst(appcrits_page[k].as_str());
            res.append(ap.as_str());
            res.append(" \\\n");
            k += 1;
        }
        proof {
            assert(appcrits_page@.take(appcrits_page@.len() as int) =~= appcrits_page@);
        }
        res
    }

    fn page_gloss_start(&self) -> String {
        String::from_str("\n            #placegloss()[\n                #glosstable(\n                ")
    }

    fn page_start(&self, title: &str, page_number: usize) -> String {
        let mut r = String::new();
        r.append(r#"
            #set page(
              header: context {
                let page = counter(page).get().first() // Get current page number
                if calc.odd(page) {
                  align(right, ""#);
        r.append(title);
        r.append(r#"")
                } else {
                  align(left, "LGI - UPPER LEVEL GREEK")
                }
              }
            )
            "#);
        r
    }

    fn page_end(&self) -> String {
        String::from_str("\n            )\n            ]\n\n            #pagebreak()\n            ")
    }

    fn document_end(&self) -> String {
        String::from_str("\n")
    }

    fn document_start(&self, title: &str, start_page: usize) -> String {
        fill_template(r#"#import "@preview/marge:0.1.0": sidenote
        #let sidenote = sidenote.with(side: left, padding: 3em)


        #import "@preview/cuti:0.4.0": fakeitalic

        #set page(width: 8.5in, height: 11in)
        #set page(numbering: "1")
        #counter(page).update(%PAGE_NUM%)
        #set page(
          header: context {
            let page = counter(page).get().first() // Get current page number
            if calc.odd(page) {
              align(right, "{%MAIN_TITLE%}")
            } else {
              align(left, "LGI - UPPER LEVEL GREEK")
            }
          }
        )

        #let glosshang = par.with(hanging-indent: 2em, justify: false, leading: 0.7em,)
        #let glossdef = par.with(justify: false, leading: 0.7em,)
        #let glosstable = table.with(
            columns: (0.6cm, 8.0cm, 9.0cm),
            align: start + top,
            stroke: none,
            row-gutter: 0.07cm,)
        #let versetable = table.with(
            columns: (1.1cm, 9.0cm, 3.0cm),
            align: start + top,
            stroke: none,
            row-gutter: 0.07cm,)
        #let placegloss = place.with(bottom, dx: -0.8cm)
        #let placeverse = box.with(pad: (left: 2cm))

        #let indextable = table.with(
            columns: (90%, 10%),
            align: (start + top, end + top),
            stroke: none,
            inset: 0%,
            column-gutter: 0cm,
            row-gutter: 0.225cm,)

        #set par(
          justify: true,
          leading: 0.9em,
          spacing: 2em
        )
        #set text(
          font: "IFAO-Grec Unicode",
          size: 12pt,
        )
"#, title, start_page)
    }

    fn make_index(&self, arrowed_words_index: &[ArrowedWordsIndex]) -> String {
        let mut index = String::from_str(r#"
        #set page(
          header: context {
            let page = counter(page).get().first() // Get current page number
            if calc.odd(page) {
              align(right, "INDEX OF ARROWED WORDS")
            } else {
              align(left, "LGI - UPPER LEVEL GREEK")
            }
          }
        )
        #indextable(
        "#);
        let ghost ev = entries_view(arrowed_words_index@);
        let mut k: usize = 0;
        proof {
            assert(ev.take(0) =~= Seq::<(Seq<char>, Seq<char>, usize)>::empty());
            assert(index@ + Seq::<char>::empty() =~= index@);
        }
        while k < arrowed_words_index.len()
            invariant
                k <= arrowed_words_index@.len(),
                ev == entries_view(arrowed_words_index@),
                index@ == r#"
        #set page(
          header: context {
            let page = counter(page).get().first() // Get current page number
            if calc.odd(page) {
              align(right, "INDEX OF ARROWED WORDS")
            } else {
              align(left, "LGI - UPPER LEVEL GREEK")
            }
          }
        )
        #indextable(
        "#@ + typst_index_rows(ev.take(k as int)),
            decreases arrowed_words_index@.len() - k,
        {
            proof {
                assert(ev.take(k + 1).drop_last() =~= ev.take(k as int));
                assert(ev.take(k + 1).last() == entry_view(arrowed_words_index@[k as int]));
            }
            let gloss = &arrowed_words_index[k];
            index.append("[");
            index.append(gloss.gloss_lemma.as_str());
            index.append(" #box(width: 1fr, repeat[.])],[#box(width: 1fr, repeat[.]) ");
            push_decimal(&mut index, gloss.page_number);
            index.append("],");
            k += 1;
        }
        proof {
            assert(ev.take(ev.len() as int) =~= ev);
        }
        index.append("\n)");
        index
    }

    fn blank_page(&self) -> String {
        String::from_str("#pagebreak()")
    }
}

} // verus!
