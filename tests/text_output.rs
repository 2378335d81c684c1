use glosser::exportfodt::{self, escape_fodt};
use glosser::exporthtml;
use glosser::exportlatex::{self, escape_latex};
use glosser::exporttypst::{self, escape_typst};
use glosser::glosstext::{get_entity, get_small_lemma, page_plan, sanitize_greek};

#[test]
fn latex_escaping() {
    assert_eq!(escape_latex("a\\b"), "a\\textbackslashb");
    assert_eq!(escape_latex("{x}"), "\\{x\\}");
    assert_eq!(escape_latex("<i>it</i> <b>bf</b>"), "\\textit{it} \\textbf{bf}");
    assert_eq!(escape_latex("5% & $1 #2 a_b ~ ^"), "5\\% \\& \\$1 \\#2 a\\_b \\textasciitilde \\textasciicircum");
}

#[test]
fn typst_escaping() {
    assert_eq!(escape_typst("\"q\" $ #"), "\\\"q\\\" \\$ \\#");
    assert_eq!(escape_typst("[x]"), "\\u{005B}x\\u{005D}");
    assert_eq!(escape_typst("<b>b</b><i>i</i><sup>s</sup>"), "#strong[b]#fakeitalic(\"i\")#super[s]");
    assert_eq!(escape_typst("a<b=c>"), "a\\<b\\u{003D}c\\>");
}

#[test]
fn fodt_escaping() {
    assert_eq!(escape_fodt("a & 'b' \"c\""), "a &amp; &apos;b&apos; &quot;c&quot;");
    assert_eq!(
        escape_fodt("<b>x</b><i>y</i><sup>z</sup><u>"),
        "<text:span text:style-name=\"T1\">x</text:span><text:span text:style-name=\"T2\">y</text:span><text:span text:style-name=\"T3\">z</text:span>&lt;u&gt;"
    );
}

#[test]
fn verse_rows_show_every_fifth_number() {
    assert_eq!(
        exportlatex::complete_verse_line(Some(String::from("A")), "line", "10"),
        "A & line & 10 \\\\\n"
    );
    assert_eq!(exportlatex::complete_verse_line(None, "line", "7"), " & line &  \\\\\n");
    assert_eq!(exportlatex::complete_verse_line(None, "l", "7a"), " & l & 7a \\\\\n");
    assert_eq!(exportlatex::complete_verse_line(None, "l", "-15"), " & l & -15 \\\\\n");
    assert_eq!(
        exporthtml::complete_verse_line(None, "text", "5"),
        "<div class='VerseLine'><div class='VerseSpeaker'></div><div class='VerseText'>text</div><div class='VerseLineNumber'>5</div></div>\n"
    );
    assert_eq!(exporttypst::complete_verse_line(None, "", "5"), "");
    assert_eq!(
        exporttypst::complete_verse_line(Some(String::from("S")), "t", "[3]"),
        "[S],\n[t],\n[\\u{005B}3\\u{005D}],\n\n"
    );
    assert_eq!(exporttypst::complete_verse_line(None, "t", "+20"), "[],\n[t],\n[+20],\n\n");
    assert_eq!(exportfodt::complete_verse_line(None, "", "5"), "");
    let row = exportfodt::complete_verse_line(None, "t", "a&b");
    assert!(row.contains(">a&amp;b</text:p>"));
    assert!(row.starts_with("\n        <table:table-row>"));
    assert!(exportfodt::complete_verse_line(None, "t", "99999999999").contains(">99999999999</text:p>"));
    assert!(exportfodt::complete_verse_line(None, "t", "6").contains("\"Table_20_Contents\"></text:p>\n         </table:table-cell>\n        </table:table-row>"));
}

#[test]
fn small_lemma_for_the_index() {
    assert_eq!(get_small_lemma("λόγος, -ου, ὁ"), "λόγος");
    assert_eq!(get_small_lemma(" — , ἄγω, ἄξω"), "ἄγω");
    assert_eq!(get_small_lemma("  single  "), "single");
    assert_eq!(get_small_lemma(", after"), ", after");
    assert_eq!(get_small_lemma(""), "");
}

#[test]
fn greek_accents_are_normalised() {
    assert_eq!(sanitize_greek("\u{1F71}\u{1F73}x"), "\u{03AC}\u{03AD}x");
    assert_eq!(sanitize_greek("a\u{037E}\u{0387}"), "a;\u{00B7}");
    assert_eq!(sanitize_greek("\u{0344}"), "\u{0308}\u{0301}");
    assert_eq!(sanitize_greek(""), "");
}

#[test]
fn xml_entities() {
    assert_eq!(get_entity("lt"), "<");
    assert_eq!(get_entity("gt"), ">");
    assert_eq!(get_entity("amp"), "&");
    assert_eq!(get_entity("apos"), "'");
    assert_eq!(get_entity("quot"), "\"");
    assert_eq!(get_entity("nbsp"), "");
}

#[test]
fn page_plans() {
    assert_eq!(page_plan("154, 151, 137, 72"), vec![154, 151, 137, 72]);
    assert_eq!(page_plan(""), Vec::<usize>::new());
    assert_eq!(page_plan("3,,x, +4 ,-2, 5"), vec![3, 4, 5]);
    assert_eq!(page_plan("99999999999999999999999"), Vec::<usize>::new());
}

use glosser::document::ExportDocument;
use glosser::exportfodt::ExportFodt;
use glosser::exporthtml::ExportHTML;
use glosser::exportlatex::ExportLatex;
use glosser::exporttypst::ExportTypst;
use glosser::model::{ArrowedState, ArrowedWordsIndex, Gloss, GlossOccurrance, Word, WordType};
use std::collections::HashMap;

fn occ(kind: WordType, text: &str, state: ArrowedState, gloss: Option<Gloss>) -> GlossOccurrance {
    GlossOccurrance {
        word: Word {
            uuid: 0x67e5504410b1426f9247bb680e5fe0c8,
            gloss_uuid: gloss.as_ref().map(|g| g.uuid),
            word_type: kind,
            word: String::from(text),
        },
        gloss,
        running_count: Some(2),
        total_count: Some(5),
        arrowed_state: state,
    }
}

fn def_gloss() -> Gloss {
    Gloss {
        uuid: 0x7cb7721cc99241788 as u128,
        parent_id: None,
        lemma: String::from("ἄγω"),
        sort_alpha: String::from("αγω"),
        def: String::from("lead & <i>drive</i>"),
        pos: String::from("verb"),
        unit: 0,
        note: String::new(),
        updated: String::new(),
        status: 1,
        updated_user: String::new(),
    }
}

#[test]
fn latex_text_and_entries() {
    let words = vec![
        occ(WordType::Section, "[section]2.1", ArrowedState::Visible, None),
        occ(WordType::Word, "ἄγει", ArrowedState::Visible, None),
        occ(WordType::Punctuation, ",", ArrowedState::Visible, None),
        occ(WordType::Word, "καὶ", ArrowedState::Visible, None),
    ];
    let text = ExportLatex {}.make_text(&words, &HashMap::new());
    assert_eq!(
        text,
        "\\hspace{0pt}\\marginsec{2} ἄγει, καὶ\\hspace*{\\fill}\n\\end{spacing}\n"
    );
    let e = ExportLatex {}.gloss_entry(
        &occ(WordType::Word, "ἄγει", ArrowedState::Arrowed, Some(def_gloss())),
        Some("ἄγω"),
    );
    assert_eq!(e, "\\textbf{→} & ἄγω & lead \\& \\textit{drive} \\\\\n");
    let hidden = ExportLatex {}.gloss_entry(
        &occ(WordType::Word, "ἄγει", ArrowedState::Invisible, Some(def_gloss())),
        Some("ἄγω"),
    );
    assert_eq!(hidden, "");
    let index = ExportLatex {}.make_index(&[ArrowedWordsIndex {
        gloss_lemma: String::from("ἄγω, ἄξω"),
        gloss_sort: String::from("αγω"),
        page_number: 12,
    }]);
    assert!(index.ends_with("ἄγω \\dotfill 12 \\\\ \n"));
    let start = ExportLatex {}.document_start("LGI", 25);
    assert!(start.contains("\\fancyhead[EL]{LGI}"));
    assert!(start.contains("\\setcounter{page}{25}"));
}

#[test]
fn html_text_with_verse_and_notes() {
    let words = vec![
        occ(WordType::VerseLine, "[line]5", ArrowedState::Visible, None),
        occ(WordType::Word, "μῆνιν", ArrowedState::Visible, None),
        occ(WordType::Word, "ἄειδε", ArrowedState::Visible, None),
    ];
    let mut notes = HashMap::new();
    notes.insert(0x67e5504410b1426f9247bb680e5fe0c8u128, String::from("note"));
    let text = ExportHTML {}.make_text(&words, &notes);
    assert!(text.starts_with("<div class=\"TextContainer\">"));
    assert!(text.contains("<div class='VerseText'><span id='text-word-67e55044-10b1-426f-9247-bb680e5fe0c8' class='textword'>μῆνιν</span><span id='text-word-67e55044-10b1-426f-9247-bb680e5fe0c8' class='textword'> ἄειδε</span></div><div class='VerseLineNumber'>5</div>"));
    assert!(text.contains("<div class='appcrit'>note</div>"));
    let entry = ExportHTML {}.gloss_entry(
        &occ(WordType::Word, "ἄγει", ArrowedState::Arrowed, Some(def_gloss())),
        Some("ἄγω"),
    );
    assert!(entry.contains("class=\"listword hqListWord arrowedHere\""));
    assert!(entry.contains("(2&nbsp;of&nbsp;5)"));
    assert_eq!(ExportHTML {}.page_start("T", 7), "\n<!--PAGE START-->\n<div class='Page'>\n<div class='PageTitle'>T - Page 7</div>\n");
}

#[test]
fn typst_and_fodt_entries() {
    let o = occ(WordType::Word, "ἄγει", ArrowedState::Visible, Some(def_gloss()));
    assert_eq!(
        ExportTypst {}.gloss_entry(&o, Some("ἄγω")),
        "[],\n[#glosshang[ἄγω]],\n[#glossdef[lead & #fakeitalic(\"drive\")]],\n\n"
    );
    assert_eq!(ExportTypst {}.gloss_entry(&o, None), "");
    let f = ExportFodt {}.gloss_entry(&o, Some("ἄγω"));
    assert!(f.contains("<text:p text:style-name=\"GlossTableDef\">lead &amp; <text:span text:style-name=\"T2\">drive</text:span></text:p>"));
    let t = ExportTypst {}.make_text(
        &[occ(WordType::InlineSpeaker, "ΣΩ", ArrowedState::Visible, None)],
        &HashMap::new(),
    );
    assert_eq!(t, "\n\n#strong[ΣΩ] \n\n");
    let idx = ExportTypst {}.make_index(&[ArrowedWordsIndex {
        gloss_lemma: String::from("ἄγω"),
        gloss_sort: String::from("αγω"),
        page_number: 3,
    }]);
    assert!(idx.ends_with("[ἄγω #box(width: 1fr, repeat[.])],[#box(width: 1fr, repeat[.]) 3],\n)"));
    assert_eq!(ExportFodt {}.make_index(&[]), "");
}

#[test]
fn fodt_text_appends_apparatus_notes() {
    let words = vec![
        occ(WordType::Word, "ἄγει", ArrowedState::Visible, None),
        occ(WordType::Word, "καί", ArrowedState::Visible, None),
    ];
    let mut notes = HashMap::new();
    notes.insert(0x67e5504410b1426f9247bb680e5fe0c8u128, String::from("a & b"));
    let text = ExportFodt {}.make_text(&words, &notes);
    assert_eq!(
        text,
        "\n    <text:p text:style-name=\"Standard\">\nἄγει καί</text:p>\n<text:p></text:p>\n<text:p>a &amp; b</text:p>\n<text:p>a &amp; b</text:p>\n"
    );
}
