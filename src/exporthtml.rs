//! HTML output.
use crate::document::ExportDocument;
use crate::page_glosses::entries_view;
use crate::model::{uuid_hyphenated, uuid_text, ArrowedState, ArrowedWordsIndex, GlossOccurrance, WordType, WordUuid};
use crate::render::{
    closing_punctuation, is_closing_punctuation, opens_group, section_numbers, section_parts,
    section_text, text_is, verse_number,
};
use crate::text::{chars_of, decimal, i32_multiple_of_five, parsed_i32, push_decimal, replaced};
use std::collections::HashMap;
use vstd::string::*;
use vstd::prelude::*;

verus! {

broadcast use vstd::std_specs::hash::group_hash_axioms;

/// The verse number as shown in the last column: a number that parses as
/// an `i32` is shown only when it is a multiple of 5; `otherwise` stands
/// for text that does not parse.
pub open spec fn shown_number(num: Seq<char>, otherwise: Seq<char>) -> Seq<char> {
    match parsed_i32(num) {
        Some(i) => if i % 5 == 0 {
            num
        } else {
            Seq::empty()
        },
        None => otherwise,
    }
}

/// The speaker column: the speaker's name, or nothing.
pub open spec fn speaker_text(sp: Option<String>) -> Seq<char> {
    match sp {
        Some(x) => x@,
        None => Seq::empty(),
    }
}

/// One verse line as a row of three `div`s: speaker, text and shown number.
pub open spec fn html_verse_line(sp: Option<String>, line: Seq<char>, num: Seq<char>) -> Seq<char> {
    "<div class='VerseLine'><div class='VerseSpeaker'>"@ + speaker_text(sp)
        + "</div><div class='VerseText'>"@ + line + "</div><div class='VerseLineNumber'>"@
        + shown_number(num, num) + "</div></div>\n"@
}

/// One verse line.
pub fn complete_verse_line(
    verse_speaker: Option<String>,
    verse_line: &str,
    verse_line_number: &str,
) -> (r: String)
    ensures
        r@ == html_verse_line(verse_speaker, verse_line@, verse_line_number@),
{
    let num = chars_of(verse_line_number);
    let shown: String = match i32_multiple_of_five(&num) {
        Some(true) => String::from_str(verse_line_number),
        Some(false) => String::new(),
        None => String::from_str(verse_line_number),
    };
    let mut r = String::from_str("<div class='VerseLine'><div class='VerseSpeaker'>");
    match &verse_speaker {
        Some(x) => r.append(x.as_str()),
        None => {},
    }
    r.append("</div><div class='VerseText'>");
    r.append(verse_line);
    r.append("</div><div class='VerseLineNumber'>");
    r.append(shown.as_str());
    r.append("</div></div>\n");
    r
}


/// The state of the HTML running text after some words: markup so far,
/// whether the next word takes no space, whether a verse table is open, the
/// verse line's speaker, text and number, the apparatus notes met, and
/// whether a paragraph is open.
pub type HtmlRun = (Seq<char>, bool, bool, Option<String>, Seq<char>, Seq<char>, Seq<String>, bool);

/// The HTML running text after word `w`.
pub open spec fn html_step(st: HtmlRun, w: GlossOccurrance, notes: Map<WordUuid, String>) -> HtmlRun {
    let (res, prev, verse, sp, line, num, aps0, para) = st;
    let aps = if notes.contains_key(w.word.uuid) { aps0.push(notes[w.word.uuid]) } else { aps0 };
    let word = w.word.word@;
    match w.word.word_type {
        WordType::VerseLine => if !verse {
            (res, prev, true, sp, line, replaced(word, "[line]"@, ""@), aps, para)
        } else {
            (res + html_verse_line(sp, line, num), prev, true, None, Seq::empty(), replaced(word, "[line]"@, ""@), aps, para)
        },
        WordType::WorkTitle => (res + "<div class='TextTitle'>"@ + word + "</div>\n"@, prev, verse, sp, line, num, aps, para),
        WordType::Word | WordType::Punctuation => {
            let head = Seq::<char>::empty() + "<span id='text-word-"@ + uuid_hyphenated(w.word.uuid) + "' class='textword'>"@;
            let spaced = if !(is_closing_punctuation(word) || prev) { head + " "@ } else { head };
            let tw = spaced + word + "</span>"@;
            let next_prev = word == "<"@ || word == "["@ || word == "("@;
            if verse {
                (res, next_prev, verse, sp, line + tw, num, aps, para)
            } else {
                (res + tw, next_prev, verse, sp, line, num, aps, para)
            }
        },
        WordType::ParaWithIndent => {
            let r1 = if para { res + "\n</div><!--Close ParaIndented-->\n"@ } else { res };
            (r1 + "\n<div class='ParaIndented'>\n"@, prev, verse, sp, line, num, aps, true)
        },
        WordType::ParaNoIndent => {
            let r1 = if para { res + "\n</div><!--Close ParaNotIndented-->\n"@ } else { res };
            (r1 + "\n<div class='ParaNotIndented'>\n"@, prev, verse, sp, line, num, aps, true)
        },
        WordType::Section => {
            let input = replaced(word, "[section]"@, ""@);
            let r1 = match section_parts(input) {
                Some((a, b)) => if b == "1"@ {
                    res + "<span class='Section'>"@ + a + "</span>\n"@
                } else {
                    res + "<span class='SubSection'>"@ + b + "</span>\n"@
                },
                None => res + "<span class='Section'>"@ + input + "</span>\n"@,
            };
            (r1, true, verse, sp, line, num, aps, para)
        },
        WordType::Speaker => (res + "<span class='Speaker'>"@ + word + "</span> "@, prev, verse, sp, line, num, aps, para),
        WordType::InlineSpeaker => if verse {
            (res, prev, verse, Some(w.word.word), line, num, aps, para)
        } else {
            (res + " <span class='InlineSpeaker'>"@ + word + "</span> "@, prev, verse, sp, line, num, aps, para)
        },
        _ => (res, prev, verse, sp, line, num, aps, para),
    }
}

/// The HTML running text after the first `k` words of `occ`.
pub open spec fn html_run(occ: Seq<GlossOccurrance>, notes: Map<WordUuid, String>, k: nat) -> HtmlRun
    decreases k,
{
    if k == 0 {
        ("<div class=\"TextContainer\">\n<div class=\"TextContainerInner\">\n"@, true, false, None, Seq::empty(), Seq::empty(), Seq::empty(), false)
    } else {
        html_step(html_run(occ, notes, (k - 1) as nat), occ[k - 1], notes)
    }
}

/// The apparatus notes of a page, one `div` each.
pub open spec fn html_notes(aps: Seq<String>) -> Seq<char>
    decreases aps.len(),
{
    if aps.len() == 0 {
        Seq::empty()
    } else {
        html_notes(aps.drop_last()) + "<div class='appcrit'>"@ + aps.last()@ + "</div>\n"@
    }
}

/// The HTML running text of occurrences `occ`: every word, the last verse
/// line, the open paragraph closed, the apparatus notes, and the container
/// closed.
pub open spec fn html_text(occ: Seq<GlossOccurrance>, notes: Map<WordUuid, String>) -> Seq<char> {
    let (res, prev, verse, sp, line, num, aps, para) = html_run(occ, notes, occ.len());
    let r1 = if verse { res + html_verse_line(sp, line, num) } else { res };
    let r2 = if para { r1 + "\n</div><!--Close ParaNotIndented-->\n"@ } else { r1 };
    let r3 = if aps.len() > 0 { r2 + "\n\n<div class='AppCritDiv'>\n"@ } else { r2 };
    let r4 = r3 + html_notes(aps);
    let r5 = if aps.len() > 0 { r4 + "\n</div><!--End App Crit Div-->\n"@ } else { r4 };
    r5 + "</div></div><!--End TextContainer-->\n"@
}

/// HTML output: a page is a text column beside its gloss list.
pub struct ExportHTML {}

impl ExportDocument for ExportHTML {
    open spec fn text_markup(&self, occ: Seq<GlossOccurrance>, notes: Map<WordUuid, String>) -> Seq<char> {
        html_text(occ, notes)
    }

    open spec fn gloss_entry_text(&self, o: GlossOccurrance, lemma: Option<Seq<char>>) -> Seq<char> {
        let word_id = uuid_hyphenated(o.word.uuid);
        let gloss_id = match o.gloss { Some(g) => uuid_hyphenated(g.uuid), None => Seq::empty() };
        let pos = match o.gloss { Some(g) => g.pos@, None => Seq::empty() };
        let def = match o.gloss { Some(g) => g.def@, None => Seq::empty() };
        let is_glossed = match o.gloss { Some(g) => "hqListWord"@, None => Seq::empty() };
        let real_lemma = match lemma { Some(l) => l, None => o.word.word@ };
        let running_count = match o.running_count { Some(n) => n, None => 0 };
        let total_count = match o.total_count { Some(n) => n, None => 0 };
        let arrowed_state_class = match o.arrowed_state {
            ArrowedState::Arrowed => "arrowedHere"@,
            ArrowedState::Invisible => "alreadyArrowed"@,
            _ => ""@,
        };
        "\n<div id=\"gloss-word-"@ + word_id + "\" lemmaid=\""@ + gloss_id + "\" class=\"listword "@ + is_glossed + " "@ + arrowed_state_class + "\" textseq=\"1\" arrowedtextseq=\"1\">\n    <div id=\"arrow"@ + word_id + "\" class=\"listarrow\"></div>\n    <div class=\"glossHangingIndentDiv\">\n        <span class=\"realClickableGloss\">\n            <span class=\"listheadword\" id=\"listheadword"@ + word_id + "\">"@ + real_lemma + "</span>.\n            &nbsp;&nbsp;<span class=\"listposwrapper\">\n                (<span class=\"listpos\" id=\"listpos"@ + word_id + "\">"@ + pos + "</span>)\n            </span>\n            <span class=\"listdef\" id=\"listdef"@ + word_id + "\">"@ + def + "</span>\n        </span>\n        <span class=\"listfrequency\" id=\"gloss-freq-"@ + gloss_id + "\">("@ + decimal((running_count) as nat) + "&nbsp;of&nbsp;"@ + decimal((total_count) as nat) + ")</span>\n    </div>\n</div>\n"@
    }

    open spec fn page_start_text(&self, title: Seq<char>, page_number: usize) -> Seq<char> {
        "\n<!--PAGE START-->\n<div class='Page'>\n<div class='PageTitle'>"@ + title + " - Page "@ + decimal((page_number) as nat) + "</div>\n"@
    }

    open spec fn page_end_text(&self) -> Seq<char> {
        "\n</div>\n</div><!--Gloss table end-->\n</div><!--END PAGE-->\n"@
    }

    open spec fn gloss_list_start_text(&self) -> Seq<char> {
        "<div class=\"GlossContainer\"><div class='gloss-table'>\n"@
    }

    open spec fn document_end_text(&self) -> Seq<char> {
        "\n</body></html>\n"@
    }

    open spec fn document_start_text(&self, title: Seq<char>, start_page: usize) -> Seq<char> {
        "<html lang=\"en\">\n    <head>\n        <meta charset=\"UTF-8\">\n        <title>Greek Vocab DB2</title>\n        <meta http-equiv=\"content-type\" content=\"text/html; charset=utf-8\">\n        <meta http-equiv=\"Cache-Control\" content=\"no-cache, no-store, must-revalidate\">\n        <meta http-equiv=\"Pragma\" content=\"no-cache\">\n        <meta http-equiv=\"Expires\" content=\"0\">\n        <meta name=\"viewport\" content=\"width=device-width, user-scalable=no, initial-scale=1, maximum-scale=1\">\n        <meta http-equiv=\"X-UA-Compatible\" content=\"IE=edge,chrome=1\">\n\n        <style>\n        @font-face {\n                font-family: \"WebNewAthenaUnicode\";\n                src:\n                  local(\"NewAthenaUnicode\"),\n                  url(\"./newathu5_8.ttf\") format(\"truetype\");\n              }\n              @font-face {\n                font-family: \"WebIFAO\";\n                src:\n                  local(\"IFAO-Grec-Unicode\"),\n                  url(\"./IFAOGrec.ttf\") format(\"truetype\");\n              }\n        BODY { font-family: WebIFAO, WebNewAthenaUnicode, NewAthenaUnicode, helvetica,\n                  arial;\n              width: 800px;\n              margin: 20px auto;\n              line-height: 1.5;\n        }\n        .Page { border-top: 2px solid black; position: relative; }\n        .PageTitle { display:none; margin-bottom: 20px; }\n        .TextTitle { margin-bottom: 20px; }\n        .Section { margin-top: 0px; position:absolute; left:-50px; }\n        .SubSection { margin-top: 20px; position:absolute; left:-50px; }\n        .VerseLine { display: flex; position: relative; left: 60px;}\n        .VerseText { width: 360px; }\n        .AppCritDiv { margin: 20px 0px; }\n        .gloss-table { border-top: 2px solid red; margin: 20px 0px; padding: 10px; }\n        .arrowedHere .listarrow::after {\n          content: \"→\";\n          top: -2px;\n          position: relative;\n        }\n        .listarrow {\n          position: absolute;\n          top: 4px;\n          left: -30px;\n          font-size: 11pt;\n          height: 20px;\n          width: 20px;\n          border: 1px solid #ddd;\n          text-indent: 0px;\n          text-align: center;\n        }\n        .listword {\n        cursor: pointer;\n          position: relative;\n          margin-left: 30px;\n          }\n        .listword:not(.hqListWord) .listheadword {\n          color: red;\n          font-weight: bold;\n        }\n        .clickablelistword {\n          padding: 4px;\n            padding-left: 4px;\n          padding-left: 30px;\n          text-indent: -30px;\n        }\n        .listword:not(.hqListWord) .listfrequency { display:none; }\n        .listposwrapper { display: none; }\n        .InlineSpeaker { font-weight: bold; }\n        .ParaIndented { text-indent: 50px; }\n        .TextContainer { padding: 10px; flex-grow: 1; flex-basis: 0; }\n        BODY.split { width: auto; }\n\n        .hide-arrowed .alreadyArrowed { display: none; }\n\n        .split .Page { display:flex; }\n        .split .gloss-table { border:0px solid transparent; margin:0px; }\n        .split .TextContainer {  }\n        .split .GlossContainer {\n          flex-grow: 1; flex-basis: 0;\n          border-left: 1px solid black;\n          height: calc(100vh - 43px);\n          overflow-y: scroll;\n          overflow-x: hidden;\n          -webkit-overflow-scrolling: touch;\n          padding: 0px;\n        }\n\n        </style>\n    </head>\n    <body class=\"split hide-arrowed\">"@
    }

    open spec fn index_text(&self, entries: Seq<(Seq<char>, Seq<char>, usize)>) -> Seq<char> {
        "\n<!--INDEX-->\n"@
    }

    open spec fn blank_page_text(&self) -> Seq<char> {
        "\n<!--BLANK PAGE-->\n"@
    }

    fn gloss_entry(&self, gloss_occurrance: &GlossOccurrance, lemma: Option<&str>) -> String {
        let mut gloss_id = String::new();
        let mut pos = String::new();
        let mut def = String::new();
        let mut is_glossed = String::new();
        match &gloss_occurrance.gloss {
            Some(gloss) => {
                gloss_id = uuid_text(gloss.uuid);
                pos = gloss.pos.clone();
                def = gloss.def.clone();
                is_glossed = String::from_str("hqListWord");
            },
            None => {},
        }
        let real_lemma = match lemma {
            Some(my_lemma) => String::from_str(my_lemma),
            None => gloss_occurrance.word.word.clone(),
        };
        let word_id = uuid_text(gloss_occurrance.word.uuid);
        let running_count = match gloss_occurrance.running_count {
            Some(n) => n,
            None => 0,
        };
        let total_count = match gloss_occurrance.total_count {
            Some(n) => n,
            None => 0,
        };
        let arrowed_state_class = match gloss_occurrance.arrowed_state {
            ArrowedState::Arrowed => "arrowedHere",
            ArrowedState::Invisible => "alreadyArrowed",
            _ => "",
        };
        let mut r = String::new();
        r.append("\n<div id=\"gloss-word-");
        r.append(word_id.as_str());
        r.append("\" lemmaid=\"");
        r.append(gloss_id.as_str());
        r.append("\" class=\"listword ");
        r.append(is_glossed.as_str());
        r.append(" ");
        r.append(arrowed_state_class);
        r.append("\" textseq=\"1\" arrowedtextseq=\"1\">\n    <div id=\"arrow");
        r.append(word_id.as_str());
        r.append(r#"" class="listarrow"></div>
    <div class="glossHangingIndentDiv">
        <span class="realClickableGloss">
            <span class="listheadword" id="listheadword"#);
        r.append(word_id.as_str());
        r.append("\">");
        r.append(real_lemma.as_str());
        r.append(r#"</span>.
            &nbsp;&nbsp;<span class="listposwrapper">
                (<span class="listpos" id="listpos"#);
        r.append(word_id.as_str());
        r.append("\">");
        r.append(pos.as_str());
        r.append("</span>)\n            </span>\n            <span class=\"listdef\" id=\"listdef");
        r.append(word_id.as_str());
        r.append("\">");
        r.append(def.as_str());
        r.append("</span>\n        </span>\n        <span class=\"listfrequency\" id=\"gloss-freq-");
        r.append(gloss_id.as_str());
        r.append("\">(");
        push_decimal(&mut r, running_count);
        r.append("&nbsp;of&nbsp;");
        push_decimal(&mut r, total_count);
        r.append(")</span>\n    </div>\n</div>\n");
        r
    }

    fn make_text(
        &self,
        gloss_occurrances: &[GlossOccurrance],
        appcrit_hash: &HashMap<WordUuid, String>,
    ) -> String {
        let mut res = String::new();
        let mut prev_non_space = true;
        let mut is_verse_section = false;
        let mut verse_speaker: Option<String> = None;
        let mut verse_line = String::new();
        let mut verse_line_number = String::new();
        let mut appcrits_page: Vec<String> = Vec::new();
        let mut para_open = false;
        res.append("<div class=\"TextContainer\">\n<div class=\"TextContainerInner\">\n");
        let mut i: usize = 0;
        while i < gloss_occurrances.len()
            invariant
                i <= gloss_occurrances@.len(),
                (res@, prev_non_space, is_verse_section, verse_speaker, verse_line@, verse_line_number@,
                    appcrits_page@, para_open) == html_run(gloss_occurrances@, appcrit_hash@, i as nat),
            decreases gloss_occurrances@.len() - i,
        {
            let w = &gloss_occurrances[i];
            match appcrit_hash.get(&w.word.uuid) {
                Some(ap) => appcrits_page.push(ap.clone()),
                None => {},
            }
            match w.word.word_type {
                WordType::VerseLine => {
                    if !is_verse_section {
                        is_verse_section = true;
                    } else {
                        let line = complete_verse_line(
                            verse_speaker,
                            verse_line.as_str(),
                            verse_line_number.as_str(),
                        );
                        res.append(line.as_str());
                        verse_speaker = None;
                        verse_line = String::new();
                    }
                    verse_line_number = verse_number(w.word.word.as_str());
                },
                WordType::WorkTitle => {
                    res.append("<div class='TextTitle'>");
                    res.append(w.word.word.as_str());
                    res.append("</div>\n");
                },
                WordType::Word | WordType::Punctuation => {
                    let mut this_word = String::new();
                    let id = uuid_text(w.word.uuid);
                    this_word.append("<span id='text-word-");
                    this_word.append(id.as_str());
                    this_word.append("' class='textword'>");
                    if !(closing_punctuation(w.word.word.as_str()) || prev_non_space) {
                        this_word.append(" ");
                    }
                    this_word.append(w.word.word.as_str());
                    this_word.append("</span>");
                    if is_verse_section {
                        verse_line.append(this_word.as_str());
                    } else {
                        res.append(this_word.as_str());
                    }
                    prev_non_space = opens_group(w.word.word.as_str());
                },
                WordType::ParaWithIndent => {
                    if para_open {
                        res.append("\n</div><!--Close ParaIndented-->\n");
                    }
                    para_open = true;
                    res.append("\n<div class='ParaIndented'>\n");
                },
                WordType::ParaNoIndent => {
                    if para_open {
                        res.append("\n</div><!--Close ParaNotIndented-->\n");
                    }
                    para_open = true;
                    res.append("\n<div class='ParaNotIndented'>\n");
                },
                WordType::Section => {
                    let section_input = section_text(w.word.word.as_str());
                    match section_numbers(section_input.as_str()) {
                        Some((section, subsection)) => {
                            if text_is(subsection.as_str(), "1") {
                                res.append("<span class='Section'>");
                                res.append(section.as_str());
                                res.append("</span>\n");
                            } else {
                                res.append("<span class='SubSection'>");
                                res.append(subsection.as_str());
                                res.append("</span>\n");
                            }
                        },
                        None => {
                            res.append("<span class='Section'>");
                            res.append(section_input.as_str());
                            res.append("</span>\n");
                        },
                    }
                    prev_non_space = true;
                },
                WordType::Speaker => {
                    res.append("<span class='Speaker'>");
                    res.append(w.word.word.as_str());
                    res.append("</span> ");
                },
                WordType::InlineSpeaker => {
                    if is_verse_section {
                        verse_speaker = Some(w.word.word.clone());
                    } else {
                        res.append(" <span class='InlineSpeaker'>");
                        res.append(w.word.word.as_str());
                        res.append("</span> ");
                    }
                },
                _ => {},
            }
            i += 1;
        }
        if is_verse_section {
            let line = complete_verse_line(verse_speaker, verse_line.as_str(), verse_line_number.as_str());
            res.append(line.as_str());
        }
        if para_open {
            res.append("\n</div><!--Close ParaNotIndented-->\n");
        }
        if appcrits_page.len() > 0 {
            res.append("\n\n<div class='AppCritDiv'>\n");
        }
        let mut k: usize = 0;
        let ghost base = res@;
        proof {
            assert(appcrits_page@.take(0) =~= Seq::<String>::empty());
            assert(base + html_notes(appcrits_page@.take(0)) =~= base);
        }
        while k < appcrits_page.len()
            invariant
                k <= appcrits_page@.len(),
                res@ == base + html_notes(appcrits_page@.take(k as int)),
            decreases appcrits_page@.len() - k,
        {
            proof {
                assert(appcrits_page@.take(k + 1).drop_last() =~= appcrits_page@.take(k as int));
            }
            res.append("<div class='appcrit'>");
            res.append(appcrits_page[k].as_str());
            res.append("</div>\n");
            k += 1;
        }
        proof {
            assert(appcrits_page@.take(appcrits_page@.len() as int) =~= appcrits_page@);
        }
        if appcrits_page.len() > 0 {
            res.append("\n</div><!--End App Crit Div-->\n");
        }
        res.append("</div></div><!--End TextContainer-->\n");
        res
    }

    fn page_gloss_start(&self) -> String {
        String::from_str("<div class=\"GlossContainer\"><div class='gloss-table'>\n")
    }

    fn page_start(&self, title: &str, page_number: usize) -> String {
        let mut r = String::new();
        r.append("\n<!--PAGE START-->\n<div class='Page'>\n<div class='PageTitle'>");
        r.append(title);
        r.append(" - Page ");
        push_decimal(&mut r, page_number);
        r.append("</div>\n");
        r
    }

    fn page_end(&self) -> String {
        String::from_str("\n</div>\n</div><!--Gloss table end-->\n</div><!--END PAGE-->\n")
    }

    fn document_end(&self) -> String {
        String::from_str("\n</body></html>\n")
    }

    fn document_start(&self, title: &str, start_page: usize) -> String {
        String::from_str(r#"<html lang="en">
    <head>
        <meta charset="UTF-8">
        <title>Greek Vocab DB2</title>
        <meta http-equiv="content-type" content="text/html; charset=utf-8">
        <meta http-equiv="Cache-Control" content="no-cache, no-store, must-revalidate">
        <meta http-equiv="Pragma" content="no-cache">
        <meta http-equiv="Expires" content="0">
        <meta name="viewport" content="width=device-width, user-scalable=no, initial-scale=1, maximum-scale=1">
        <meta http-equiv="X-UA-Compatible" content="IE=edge,chrome=1">

        <style>
        @font-face {
                font-family: "WebNewAthenaUnicode";
                src:
                  local("NewAthenaUnicode"),
                  url("./newathu5_8.ttf") format("truetype");
              }
              @font-face {
                font-family: "WebIFAO";
                src:
                  local("IFAO-Grec-Unicode"),
                  url("./IFAOGrec.ttf") format("truetype");
              }
        BODY { font-family: WebIFAO, WebNewAthenaUnicode, NewAthenaUnicode, helvetica,
                  arial;
              width: 800px;
              margin: 20px auto;
              line-height: 1.5;
        }
        .Page { border-top: 2px solid black; position: relative; }
        .PageTitle { display:none; margin-bottom: 20px; }
        .TextTitle { margin-bottom: 20px; }
        .Section { margin-top: 0px; position:absolute; left:-50px; }
        .SubSection { margin-top: 20px; position:absolute; left:-50px; }
        .VerseLine { display: flex; position: relative; left: 60px;}
        .VerseText { width: 360px; }
        .AppCritDiv { margin: 20px 0px; }
        .gloss-table { border-top: 2px solid red; margin: 20px 0px; padding: 10px; }
        .arrowedHere .listarrow::after {
          content: "→";
          top: -2px;
          position: relative;
        }
        .listarrow {
          position: absolute;
          top: 4px;
          left: -30px;
          font-size: 11pt;
          height: 20px;
          width: 20px;
          border: 1px solid #ddd;
          text-indent: 0px;
          text-align: center;
        }
        .listword {
        cursor: pointer;
          position: relative;
          margin-left: 30px;
          }
        .listword:not(.hqListWord) .listheadword {
          color: red;
          font-weight: bold;
        }
        .clickablelistword {
          padding: 4px;
            padding-left: 4px;
          padding-left: 30px;
          text-indent: -30px;
        }
        .listword:not(.hqListWord) .listfrequency { display:none; }
        .listposwrapper { display: none; }
        .InlineSpeaker { font-weight: bold; }
        .ParaIndented { text-indent: 50px; }
        .TextContainer { padding: 10px; flex-grow: 1; flex-basis: 0; }
        BODY.split { width: auto; }

        .hide-arrowed .alreadyArrowed { display: none; }

        .split .Page { display:flex; }
        .split .gloss-table { border:0px solid transparent; margin:0px; }
        .split .TextContainer {  }
        .split .GlossContainer {
          flex-grow: 1; flex-basis: 0;
          border-left: 1px solid black;
          height: calc(100vh - 43px);
          overflow-y: scroll;
          overflow-x: hidden;
          -webkit-overflow-scrolling: touch;
          padding: 0px;
        }

        </style>
    </head>
    <body class="split hide-arrowed">"#)
    }

    fn make_index(&self, arrowed_words_index: &[ArrowedWordsIndex]) -> String {
        String::from_str("\n<!--INDEX-->\n")
    }

    fn blank_page(&self) -> String {
        String::from_str("\n<!--BLANK PAGE-->\n")
    }
}

} // verus!
