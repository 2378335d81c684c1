//! Flat OpenDocument output.
use crate::document::ExportDocument;
use crate::page_glosses::entries_view;
use crate::model::{ArrowedState, ArrowedWordsIndex, GlossOccurrance, WordType, WordUuid};
use crate::render::{
    filled_template, is_closing_punctuation, section_parts,
    closing_punctuation, fill_template, opens_group, section_numbers, section_text, text_is,
    verse_number,
};
use crate::text::{chars_of, i32_multiple_of_five, parsed_i32, replace_literal, replaced, string_of};
use std::collections::HashMap;
use vstd::prelude::*;
use vstd::string::*;

verus! {

broadcast use vstd::std_specs::hash::group_hash_axioms;

/// `s` with XML's special characters turned into entities, and then the
/// escaped `<b>`, `<i>`, `<sup>` markup turned into text spans, one
/// replacement after another.
pub open spec fn fodt_escaped(s: Seq<char>) -> Seq<char> {
    let s0 = replaced(s, "&"@, "&amp;"@);
    let s1 = replaced(s0, "\""@, "&quot;"@);
    let s2 = replaced(s1, "'"@, "&apos;"@);
    let s3 = replaced(s2, ">"@, "&gt;"@);
    let s4 = replaced(s3, "<"@, "&lt;"@);
    let s5 = replaced(s4, "&lt;b&gt;"@, r#"<text:span text:style-name="T1">"#@);
    let s6 = replaced(s5, "&lt;/b&gt;"@, "</text:span>"@);
    let s7 = replaced(s6, "&lt;i&gt;"@, r#"<text:span text:style-name="T2">"#@);
    let s8 = replaced(s7, "&lt;/i&gt;"@, "</text:span>"@);
    let s9 = replaced(s8, "&lt;sup&gt;"@, r#"<text:span text:style-name="T3">"#@);
    let s10 = replaced(s9, "&lt;/sup&gt;"@, "</text:span>"@);
    s10
}

/// `s` escaped as `fodt_escaped` says.
pub fn escape_fodt(s: &str) -> (r: String)
    ensures
        r@ == fodt_escaped(s@),
{
    proof {
        reveal_strlit("&");
        reveal_strlit("\"");
        reveal_strlit("'");
        reveal_strlit(">");
        reveal_strlit("<");
        reveal_strlit("&lt;b&gt;");
        reveal_strlit("&lt;/b&gt;");
        reveal_strlit("&lt;i&gt;");
        reveal_strlit("&lt;/i&gt;");
        reveal_strlit("&lt;sup&gt;");
        reveal_strlit("&lt;/sup&gt;");
    }
    let v = chars_of(s);
    let v = replace_literal(&v, "&", "&amp;");
    let v = replace_literal(&v, "\"", "&quot;");
    let v = replace_literal(&v, "'", "&apos;");
    let v = replace_literal(&v, ">", "&gt;");
    let v = replace_literal(&v, "<", "&lt;");
    let v = replace_literal(&v, "&lt;b&gt;", r#"<text:span text:style-name="T1">"#);
    let v = replace_literal(&v, "&lt;/b&gt;", "</text:span>");
    let v = replace_literal(&v, "&lt;i&gt;", r#"<text:span text:style-name="T2">"#);
    let v = replace_literal(&v, "&lt;/i&gt;", "</text:span>");
    let v = replace_literal(&v, "&lt;sup&gt;", r#"<text:span text:style-name="T3">"#);
    let v = replace_literal(&v, "&lt;/sup&gt;", "</text:span>");
    string_of(&v)
}

/// The verse number as shown in the last column: a number that parses as
/// an `i32` is shown only when it is a multiple of 5; `otherwise` stands
/// for text that does not parse.
pub open spec fn shown_number(num: Seq<char>, otherwise: Seq<char>) -> Seq<char> {
    match parsed_i32(num) {
        Some(i) => if i % 5 == 0 {
            num
        } else {
            Seq::empty()
        },
        None => otherwise,
    }
}

/// The speaker column: the speaker's name, or nothing.
pub open spec fn speaker_text(sp: Option<String>) -> Seq<char> {
    match sp {
        Some(x) => x@,
        None => Seq::empty(),
    }
}

/// One row of the verse table: three cells holding speaker, line and shown
/// number; nothing for an empty line. A number that does not parse is shown
/// escaped.
pub open spec fn fodt_verse_line(sp: Option<String>, line: Seq<char>, num: Seq<char>) -> Seq<char> {
    if line.len() == 0 {
        Seq::empty()
    } else {
        r#"
        <table:table-row>
         <table:table-cell table:style-name="VerseTable.A1" office:value-type="string">
          <text:p text:style-name="Table_20_Contents">"#@ + speaker_text(sp) + r#"</text:p>
         </table:table-cell>
         <table:table-cell table:style-name="VerseTable.A1" office:value-type="string">
          <text:p text:style-name="Table_20_Contents">"#@ + line + r#"</text:p>
         </table:table-cell>
         <table:table-cell table:style-name="VerseTable.A1" office:value-type="string">
          <text:p text:style-name="Table_20_Contents">"#@
            + shown_number(num, fodt_escaped(num)) + "</text:p>\n         </table:table-cell>\n        </table:table-row>\n"@
    }
}

/// One row of the verse table.
pub fn complete_verse_line(
    verse_speaker: Option<String>,
    verse_line: &str,
    verse_line_number: &str,
) -> (r: String)
    ensures
        r@ == fodt_verse_line(verse_speaker, verse_line@, verse_line_number@),
{
    if verse_line.unicode_len() == 0 {
        return String::new();
    }
    let num = chars_of(verse_line_number);
    let shown: String = match i32_multiple_of_five(&num) {
        Some(true) => String::from_str(verse_line_number),
        Some(false) => String::new(),
        None => escape_fodt(verse_line_number),
    };
    let mut r = String::from_str(r#"
        <table:table-row>
         <table:table-cell table:style-name="VerseTable.A1" office:value-type="string">
          <text:p text:style-name="Table_20_Contents">"#);
    match &verse_speaker {
        Some(x) => r.append(x.as_str()),
        None => {},
    }
    r.append(r#"</text:p>
         </table:table-cell>
         <table:table-cell table:style-name="VerseTable.A1" office:value-type="string">
          <text:p text:style-name="Table_20_Contents">"#);
    r.append(verse_line);
    r.append(r#"</text:p>
         </table:table-cell>
         <table:table-cell table:style-name="VerseTable.A1" office:value-type="string">
          <text:p text:style-name="Table_20_Contents">"#);
    r.append(shown.as_str());
    r.append("</text:p>\n         </table:table-cell>\n        </table:table-row>\n");
    r
}


/// The state of the OpenDocument running text after some words: markup so
/// far, whether the next word takes no space, whether a verse table is open,
/// the verse line's speaker, text and number, the apparatus notes met, and
/// whether a paragraph is open.
pub type FodtRun = (Seq<char>, bool, bool, Option<String>, Seq<char>, Seq<char>, Seq<String>, bool);

/// `res` with the open paragraph, if any, closed.
pub open spec fn fodt_close(res: Seq<char>, para: bool) -> Seq<char> {
    if para { res + "\n    </text:p>\n"@ } else { res }
}

/// The OpenDocument running text after word `w`.
pub open spec fn fodt_step(st: FodtRun, w: GlossOccurrance, notes: Map<WordUuid, String>) -> FodtRun {
    let (res, prev, verse, sp, line, num, aps0, para) = st;
    let aps = if notes.contains_key(w.word.uuid) { aps0.push(notes[w.word.uuid]) } else { aps0 };
    let word = w.word.word@;
    match w.word.word_type {
        WordType::VerseLine => {
            let r1 = fodt_close(res, para);
            if !verse {
                (r1 + r#"
    <table:table table:name="VerseTable" table:style-name="VerseTable">
        <table:table-column table:style-name="VerseTable.A"/>
        <table:table-column table:style-name="VerseTable.B"/>
        <table:table-column table:style-name="VerseTable.C"/>
"#@, prev, true, sp, line, replaced(word, "[line]"@, ""@), aps, false)
            } else {
                (r1 + fodt_verse_line(sp, line, num), prev, true, None, Seq::empty(), replaced(word, "[line]"@, ""@), aps, false)
            }
        },
        WordType::WorkTitle => (fodt_close(res, para) + "\n    <text:p text:style-name=\"WorkTitleCenter\">"@ + fodt_escaped(word)
            + "</text:p>\n    <text:p text:style-name=\"Standard\"></text:p>\n                        "@, prev, verse, sp, line, num, aps, false),
        WordType::Word | WordType::Punctuation => {
            let spaced = if !(is_closing_punctuation(word) || prev) { Seq::<char>::empty() + " "@ } else { Seq::<char>::empty() };
            let tw = spaced + fodt_escaped(word);
            let next_prev = word == "<"@ || word == "["@ || word == "("@;
            if verse {
                (res, next_prev, verse, sp, line + tw, num, aps, para)
            } else {
                let r1 = if !para { res + "\n    <text:p text:style-name=\"Standard\">\n"@ } else { res };
                (r1 + tw, next_prev, verse, sp, line, num, aps, true)
            }
        },
        WordType::ParaWithIndent => (fodt_close(res, para) + "\n    <text:p text:style-name=\"PIndented\">\n"@, prev, verse, sp, line, num, aps, true),
        WordType::ParaNoIndent => (fodt_close(res, para) + "\n    <text:p text:style-name=\"Standard\">\n"@, prev, verse, sp, line, num, aps, true),
        WordType::SectionTitle => (fodt_close(res, para) + "\n    <text:p text:style-name=\"P18\">"@ + fodt_escaped(word) + "</text:p>\n"@, prev, verse, sp, line, num, aps, false),
        WordType::Section => {
            let input = replaced(word, "[section]"@, ""@);
            let r1 = match section_parts(input) {
                Some((a, b)) => if b == "1"@ {
                    res + " <text:span text:style-name=\"T1\">"@ + a + "</text:span> "@
                } else {
                    res + " <text:span text:style-name=\"T1\">"@ + b + "</text:span> "@
                },
                None => res + " <text:span text:style-name=\"T1\">"@ + input + "</text:span> "@,
            };
            (r1, true, verse, sp, line, num, aps, para)
        },
        WordType::Speaker => if verse {
            (res + fodt_verse_line(sp, line, num) + "\n    </table:table>\n"@ + "\n    <text:p text:style-name=\"Standard\">"@ + word + "</text:p>\n"@ + r#"
    <table:table table:name="VerseTable" table:style-name="VerseTable">
        <table:table-column table:style-name="VerseTable.A"/>
        <table:table-column table:style-name="VerseTable.B"/>
        <table:table-column table:style-name="VerseTable.C"/>
"#@, prev, verse, None, Seq::empty(), num, aps, para)
        } else {
            (res + "\n    <text:p text:style-name=\"Standard\">"@ + word + "</text:p>\n"@, prev, verse, sp, line, num, aps, para)
        },
        WordType::InlineSpeaker => if verse {
            (res, prev, verse, Some(w.word.word), line, num, aps, para)
        } else {
            let r1 = if !para { res + "\n    <text:p text:style-name=\"Standard\">\n"@ } else { res };
            (r1 + "<text:span text:style-name=\"T1\">"@ + word + "</text:span> "@, prev, verse, sp, line, num, aps, true)
        },
        WordType::InlineVerseSpeaker => (res, prev, verse, Some(w.word.word), line, num, aps, para),
        _ => (res, prev, verse, sp, line, num, aps, para),
    }
}

/// The OpenDocument running text after the first `k` words of `occ`.
pub open spec fn fodt_run(occ: Seq<GlossOccurrance>, notes: Map<WordUuid, String>, k: nat) -> FodtRun
    decreases k,
{
    if k == 0 {
        (Seq::empty(), true, false, None, Seq::empty(), Seq::empty(), Seq::empty(), false)
    } else {
        fodt_step(fodt_run(occ, notes, (k - 1) as nat), occ[k - 1], notes)
    }
}

/// The apparatus notes of a page, escaped, one paragraph each.
pub open spec fn fodt_notes(aps: Seq<String>) -> Seq<char>
    decreases aps.len(),
{
    if aps.len() == 0 {
        Seq::empty()
    } else {
        fodt_notes(aps.drop_last()) + "<text:p>"@ + fodt_escaped(aps.last()@) + "</text:p>\n"@
    }
}

/// The OpenDocument running text of occurrences `occ`: every word, then the
/// last verse line and the end of the verse table or the open paragraph
/// closed, then an empty paragraph and the apparatus notes when there are
/// any.
pub open spec fn fodt_text(occ: Seq<GlossOccurrance>, notes: Map<WordUuid, String>) -> Seq<char> {
    let (res, prev, verse, sp, line, num, aps, para) = fodt_run(occ, notes, occ.len());
    let r1 = if verse {
        res + fodt_verse_line(sp, line, num) + "\n</table:table>\n"@
    } else if para {
        res + "</text:p>\n"@
    } else {
        res
    };
    let r2 = if aps.len() > 0 { r1 + "<text:p></text:p>\n"@ } else { r1 };
    r2 + fodt_notes(aps)
}

/// Flat OpenDocument output: each page a text block and a gloss table.
pub struct ExportFodt {}

impl ExportDocument for ExportFodt {
    open spec fn text_markup(&self, occ: Seq<GlossOccurrance>, notes: Map<WordUuid, String>) -> Seq<char> {
        fodt_text(occ, notes)
    }

    open spec fn gloss_entry_text(&self, o: GlossOccurrance, lemma: Option<Seq<char>>) -> Seq<char> {
        if o.arrowed_state == ArrowedState::Invisible {
            Seq::empty()
        } else {
            match (lemma, o.gloss) {
                (Some(l), Some(g)) => {
                    let arrow = if o.arrowed_state == ArrowedState::Arrowed { "→"@ } else { ""@ };
                    "\n    <table:table-row table:style-name=\"GlossTableRow\">\n      <table:table-cell table:style-name=\"GlossTableCell\" office:value-type=\"string\">\n        <text:p text:style-name=\"P8\">"@ + arrow + "</text:p>\n      </table:table-cell>\n      <table:table-cell table:style-name=\"GlossTableCell\" office:value-type=\"string\">\n        <text:p text:style-name=\"GlossTableLemma\">"@ + fodt_escaped(l) + "</text:p>\n      </table:table-cell>\n      <table:table-cell table:style-name=\"GlossTableCell\" office:value-type=\"string\">\n        <text:p text:style-name=\"GlossTableDef\">"@ + fodt_escaped(g.def@) + "</text:p>\n      </table:table-cell>\n    </table:table-row>\n"@
                },
                _ => Seq::empty(),
            }
        }
    }

    open spec fn page_start_text(&self, title: Seq<char>, page_number: usize) -> Seq<char> {
        "\n\n            "@
    }

    open spec fn page_end_text(&self) -> Seq<char> {
        "\n    </table:table>\n    <text:p text:style-name=\"PageBreakStyle\"/>\n"@
    }

    open spec fn gloss_list_start_text(&self) -> Seq<char> {
        "\n    <text:p text:style-name=\"P1\"/>\n    <text:p text:style-name=\"P1\"/>\n    <table:table table:name=\"Table1\" table:style-name=\"GlossTable\">\n      <table:table-column table:style-name=\"GlossTable.A\"/>\n      <table:table-column table:style-name=\"GlossTable.B\"/>\n      <table:table-column table:style-name=\"GlossTable.C\"/>\n"@
    }

    open spec fn document_end_text(&self) -> Seq<char> {
        "<text:p text:style-name=\"P5\"/>\n  </office:text>\n </office:body>\n</office:document>\n"@
    }

    open spec fn document_start_text(&self, title: Seq<char>, start_page: usize) -> Seq<char> {
        filled_template("<?xml version=\"1.0\" encoding=\"UTF-8\"?>\n\n        <office:document xmlns:css3t=\"http://www.w3.org/TR/css3-text/\" xmlns:grddl=\"http://www.w3.org/2003/g/data-view#\" xmlns:xhtml=\"http://www.w3.org/1999/xhtml\" xmlns:xsi=\"http://www.w3.org/2001/XMLSchema-instance\" xmlns:xsd=\"http://www.w3.org/2001/XMLSchema\" xmlns:xforms=\"http://www.w3.org/2002/xforms\" xmlns:dom=\"http://www.w3.org/2001/xml-events\" xmlns:script=\"urn:oasis:names:tc:opendocument:xmlns:script:1.0\" xmlns:form=\"urn:oasis:names:tc:opendocument:xmlns:form:1.0\" xmlns:math=\"http://www.w3.org/1998/Math/MathML\" xmlns:meta=\"urn:oasis:names:tc:opendocument:xmlns:meta:1.0\" xmlns:loext=\"urn:org:documentfoundation:names:experimental:office:xmlns:loext:1.0\" xmlns:field=\"urn:openoffice:names:experimental:ooo-ms-interop:xmlns:field:1.0\" xmlns:number=\"urn:oasis:names:tc:opendocument:xmlns:datastyle:1.0\" xmlns:officeooo=\"http://openoffice.org/2009/office\" xmlns:table=\"urn:oasis:names:tc:opendocument:xmlns:table:1.0\" xmlns:chart=\"urn:oasis:names:tc:opendocument:xmlns:chart:1.0\" xmlns:formx=\"urn:openoffice:names:experimental:ooxml-odf-interop:xmlns:form:1.0\" xmlns:svg=\"urn:oasis:names:tc:opendocument:xmlns:svg-compatible:1.0\" xmlns:tableooo=\"http://openoffice.org/2009/table\" xmlns:draw=\"urn:oasis:names:tc:opendocument:xmlns:drawing:1.0\" xmlns:rpt=\"http://openoffice.org/2005/report\" xmlns:dr3d=\"urn:oasis:names:tc:opendocument:xmlns:dr3d:1.0\" xmlns:of=\"urn:oasis:names:tc:opendocument:xmlns:of:1.2\" xmlns:text=\"urn:oasis:names:tc:opendocument:xmlns:text:1.0\" xmlns:style=\"urn:oasis:names:tc:opendocument:xmlns:style:1.0\" xmlns:dc=\"http://purl.org/dc/elements/1.1/\" xmlns:calcext=\"urn:org:documentfoundation:names:experimental:calc:xmlns:calcext:1.0\" xmlns:oooc=\"http://openoffice.org/2004/calc\" xmlns:config=\"urn:oasis:names:tc:opendocument:xmlns:config:1.0\" xmlns:ooo=\"http://openoffice.org/2004/office\" xmlns:xlink=\"http://www.w3.org/1999/xlink\" xmlns:drawooo=\"http://openoffice.org/2010/draw\" xmlns:ooow=\"http://openoffice.org/2004/writer\" xmlns:fo=\"urn:oasis:names:tc:opendocument:xmlns:xsl-fo-compatible:1.0\" xmlns:office=\"urn:oasis:names:tc:opendocument:xmlns:office:1.0\" office:version=\"1.3\" office:mimetype=\"application/vnd.oasis.opendocument.text\">\n         <office:meta><meta:creation-date>2021-03-08T17:40:14</meta:creation-date><meta:initial-creator>Jeremy March</meta:initial-creator><dc:language>en-US</dc:language><dc:creator>Jeremy March</dc:creator><dc:date>2021-04-08T20:17:25.947067138</dc:date><meta:editing-cycles>25</meta:editing-cycles><meta:editing-duration>P1DT5H15M2S</meta:editing-duration><meta:generator>LibreOffice/7.1.2.1$MacOSX_X86_64 LibreOffice_project/094b4116e8de6d2085e9b65d26912d6eac4c74a9</meta:generator><meta:document-statistic meta:table-count=\"1\" meta:image-count=\"0\" meta:object-count=\"0\" meta:page-count=\"1\" meta:paragraph-count=\"32\" meta:word-count=\"249\" meta:character-count=\"1664\" meta:non-whitespace-character-count=\"1446\"/><meta:user-defined meta:name=\"AppVersion\">15.0000</meta:user-defined></office:meta>\n         <office:settings>\n          <config:config-item-set config:name=\"ooo:view-settings\">\n           <config:config-item config:name=\"ViewAreaTop\" config:type=\"long\">1803</config:config-item>\n           <config:config-item config:name=\"ViewAreaLeft\" config:type=\"long\">0</config:config-item>\n           <config:config-item config:name=\"ViewAreaWidth\" config:type=\"long\">55002</config:config-item>\n           <config:config-item config:name=\"ViewAreaHeight\" config:type=\"long\">27141</config:config-item>\n           <config:config-item config:name=\"ShowRedlineChanges\" config:type=\"boolean\">true</config:config-item>\n           <config:config-item config:name=\"InBrowseMode\" config:type=\"boolean\">false</config:config-item>\n           <config:config-item-map-indexed config:name=\"Views\">\n            <config:config-item-map-entry>\n             <config:config-item config:name=\"ViewId\" config:type=\"string\">view2</config:config-item>\n             <config:config-item config:name=\"ViewLeft\" config:type=\"long\">11763</config:config-item>\n             <config:config-item config:name=\"ViewTop\" config:type=\"long\">12866</config:config-item>\n             <config:config-item config:name=\"VisibleLeft\" config:type=\"long\">0</config:config-item>\n             <config:config-item config:name=\"VisibleTop\" config:type=\"long\">1803</config:config-item>\n             <config:config-item config:name=\"VisibleRight\" config:type=\"long\">55000</config:config-item>\n             <config:config-item config:name=\"VisibleBottom\" config:type=\"long\">28942</config:config-item>\n             <config:config-item config:name=\"ZoomType\" config:type=\"short\">0</config:config-item>\n             <config:config-item config:name=\"ViewLayoutColumns\" config:type=\"short\">0</config:config-item>\n             <config:config-item config:name=\"ViewLayoutBookMode\" config:type=\"boolean\">false</config:config-item>\n             <config:config-item config:name=\"ZoomFactor\" config:type=\"short\">100</config:config-item>\n             <config:config-item config:name=\"IsSelectedFrame\" config:type=\"boolean\">false</config:config-item>\n             <config:config-item config:name=\"AnchoredTextOverflowLegacy\" config:type=\"boolean\">false</config:config-item>\n            </config:config-item-map-entry>\n           </config:config-item-map-indexed>\n          </config:config-item-set>\n          <config:config-item-set config:name=\"ooo:configuration-settings\">\n           <config:config-item config:name=\"PrintBlackFonts\" config:type=\"boolean\">false</config:config-item>\n           <config:config-item config:name=\"PrintReversed\" config:type=\"boolean\">false</config:config-item>\n           <config:config-item config:name=\"PrintAnnotationMode\" config:type=\"short\">0</config:config-item>\n           <config:config-item config:name=\"PrintGraphics\" config:type=\"boolean\">true</config:config-item>\n           <config:config-item config:name=\"EmbeddedDatabaseName\" config:type=\"string\"/>\n           <config:config-item config:name=\"ProtectForm\" config:type=\"boolean\">false</config:config-item>\n           <config:config-item config:name=\"PrintLeftPages\" config:type=\"boolean\">true</config:config-item>\n           <config:config-item config:name=\"PrintProspect\" config:type=\"boolean\">false</config:config-item>\n           <config:config-item config:name=\"PrintHiddenText\" config:type=\"boolean\">false</config:config-item>\n           <config:config-item config:name=\"PrintRightPages\" config:type=\"boolean\">true</config:config-item>\n           <config:config-item config:name=\"PrintFaxName\" config:type=\"string\"/>\n           <config:config-item config:name=\"TabsRelativeToIndent\" config:type=\"boolean\">false</config:config-item>\n           <config:config-item config:name=\"RedlineProtectionKey\" config:type=\"base64Binary\"/>\n           <config:config-item config:name=\"PrintTextPlaceholder\" config:type=\"boolean\">false</config:config-item>\n           <config:config-item config:name=\"AddFrameOffsets\" config:type=\"boolean\">true</config:config-item>\n           <config:config-item config:name=\"FrameAutowidthWithMorePara\" config:type=\"boolean\">true</config:config-item>\n           <config:config-item config:name=\"MathBaselineAlignment\" config:type=\"boolean\">true</config:config-item>\n           <config:config-item config:name=\"ProtectBookmarks\" config:type=\"boolean\">false</config:config-item>\n           <config:config-item config:name=\"IgnoreTabsAndBlanksForLineCalculation\" config:type=\"boolean\">true</config:config-item>\n           <config:config-item config:name=\"ContinuousEndnotes\" config:type=\"boolean\">false</config:config-item>\n           <config:config-item config:name=\"FieldAutoUpdate\" config:type=\"boolean\">true</config:config-item>\n           <config:config-item config:name=\"EmptyDbFieldHidesPara\" config:type=\"boolean\">true</config:config-item>\n           <config:config-item config:name=\"ApplyParagraphMarkFormatToNumbering\" config:type=\"boolean\">true</config:config-item>\n           <config:config-item config:name=\"PrintEmptyPages\" config:type=\"boolean\">false</config:config-item>\n           <config:config-item config:name=\"AddParaLineSpacingToTableCells\" config:type=\"boolean\">true</config:config-item>\n           <config:config-item config:name=\"TabOverMargin\" config:type=\"boolean\">true</config:config-item>\n           <config:config-item config:name=\"EmbedAsianScriptFonts\" config:type=\"boolean\">true</config:config-item>\n           <config:config-item config:name=\"EmbedLatinScriptFonts\" config:type=\"boolean\">true</config:config-item>\n           <config:config-item config:name=\"DisableOffPagePositioning\" config:type=\"boolean\">true</config:config-item>\n           <config:config-item config:name=\"EmbedOnlyUsedFonts\" config:type=\"boolean\">false</config:config-item>\n           <config:config-item config:name=\"PrintControls\" config:type=\"boolean\">true</config:config-item>\n           <config:config-item config:name=\"SaveThumbnail\" config:type=\"boolean\">true</config:config-item>\n           <config:config-item config:name=\"EmbedFonts\" config:type=\"boolean\">false</config:config-item>\n           <config:config-item config:name=\"MsWordCompMinLineHeightByFly\" config:type=\"boolean\">false</config:config-item>\n           <config:config-item config:name=\"SurroundTextWrapSmall\" config:type=\"boolean\">true</config:config-item>\n           <config:config-item config:name=\"BackgroundParaOverDrawings\" config:type=\"boolean\">true</config:config-item>\n           <config:config-item config:name=\"ClippedPictures\" config:type=\"boolean\">true</config:config-item>\n           <config:config-item config:name=\"FloattableNomargins\" config:type=\"boolean\">true</config:config-item>\n           <config:config-item config:name=\"UnbreakableNumberings\" config:type=\"boolean\">true</config:config-item>\n           <config:config-item config:name=\"EmbedSystemFonts\" config:type=\"boolean\">false</config:config-item>\n           <config:config-item config:name=\"TabOverflow\" config:type=\"boolean\">true</config:config-item>\n           <config:config-item config:name=\"PrintTables\" config:type=\"boolean\">true</config:config-item>\n           <config:config-item config:name=\"PrintDrawings\" config:type=\"boolean\">true</config:config-item>\n           <config:config-item config:name=\"ConsiderTextWrapOnObjPos\" config:type=\"boolean\">true</config:config-item>\n           <config:config-item config:name=\"PrintSingleJobs\" config:type=\"boolean\">false</config:config-item>\n           <config:config-item config:name=\"SmallCapsPercentage66\" config:type=\"boolean\">false</config:config-item>\n           <config:config-item config:name=\"CollapseEmptyCellPara\" config:type=\"boolean\">true</config:config-item>\n           <config:config-item config:name=\"HeaderSpacingBelowLastPara\" config:type=\"boolean\">true</config:config-item>\n           <config:config-item config:name=\"RsidRoot\" config:type=\"int\">1906756</config:config-item>\n           <config:config-item config:name=\"PrinterSetup\" config:type=\"base64Binary\"/>\n           <config:config-item config:name=\"CurrentDatabaseCommand\" config:type=\"string\"/>\n           <config:config-item config:name=\"AlignTabStopPosition\" config:type=\"boolean\">true</config:config-item>\n           <config:config-item config:name=\"ClipAsCharacterAnchoredWriterFlyFrames\" config:type=\"boolean\">false</config:config-item>\n           <config:config-item config:name=\"DoNotCaptureDrawObjsOnPage\" config:type=\"boolean\">false</config:config-item>\n           <config:config-item config:name=\"SaveGlobalDocumentLinks\" config:type=\"boolean\">false</config:config-item>\n           <config:config-item config:name=\"CurrentDatabaseCommandType\" config:type=\"int\">0</config:config-item>\n           <config:config-item config:name=\"LoadReadonly\" config:type=\"boolean\">false</config:config-item>\n           <config:config-item config:name=\"DoNotResetParaAttrsForNumFont\" config:type=\"boolean\">false</config:config-item>\n           <config:config-item config:name=\"StylesNoDefault\" config:type=\"boolean\">false</config:config-item>\n           <config:config-item config:name=\"LinkUpdateMode\" config:type=\"short\">1</config:config-item>\n           <config:config-item config:name=\"DoNotJustifyLinesWithManualBreak\" config:type=\"boolean\">false</config:config-item>\n           <config:config-item config:name=\"PropLineSpacingShrinksFirstLine\" config:type=\"boolean\">true</config:config-item>\n           <config:config-item config:name=\"TabAtLeftIndentForParagraphsInList\" config:type=\"boolean\">true</config:config-item>\n           <config:config-item config:name=\"ProtectFields\" config:type=\"boolean\">false</config:config-item>\n           <config:config-item config:name=\"UnxForceZeroExtLeading\" config:type=\"boolean\">false</config:config-item>\n           <config:config-item config:name=\"CurrentDatabaseDataSource\" config:type=\"string\"/>\n           <config:config-item config:name=\"UseFormerTextWrapping\" config:type=\"boolean\">false</config:config-item>\n           <config:config-item config:name=\"PrintPaperFromSetup\" config:type=\"boolean\">false</config:config-item>\n           <config:config-item config:name=\"UseFormerLineSpacing\" config:type=\"boolean\">false</config:config-item>\n           <config:config-item config:name=\"AllowPrintJobCancel\" config:type=\"boolean\">true</config:config-item>\n           <config:config-item config:name=\"SubtractFlysAnchoredAtFlys\" config:type=\"boolean\">false</config:config-item>\n           <config:config-item config:name=\"AddParaSpacingToTableCells\" config:type=\"boolean\">true</config:config-item>\n           <config:config-item config:name=\"AddExternalLeading\" config:type=\"boolean\">true</config:config-item>\n           <config:config-item config:name=\"Rsid\" config:type=\"int\">2513019</config:config-item>\n           <config:config-item config:name=\"AddVerticalFrameOffsets\" config:type=\"boolean\">true</config:config-item>\n           <config:config-item config:name=\"TreatSingleColumnBreakAsPageBreak\" config:type=\"boolean\">true</config:config-item>\n           <config:config-item config:name=\"IsLabelDocument\" config:type=\"boolean\">false</config:config-item>\n           <config:config-item config:name=\"MsWordCompTrailingBlanks\" config:type=\"boolean\">true</config:config-item>\n           <config:config-item config:name=\"PrinterPaperFromSetup\" config:type=\"boolean\">false</config:config-item>\n           <config:config-item config:name=\"IgnoreFirstLineIndentInNumbering\" config:type=\"boolean\">false</config:config-item>\n           <config:config-item config:name=\"PrintPageBackground\" config:type=\"boolean\">true</config:config-item>\n           <config:config-item config:name=\"OutlineLevelYieldsNumbering\" config:type=\"boolean\">false</config:config-item>\n           <config:config-item config:name=\"PrinterName\" config:type=\"string\"/>\n           <config:config-item config:name=\"IsKernAsianPunctuation\" config:type=\"boolean\">false</config:config-item>\n           <config:config-item config:name=\"PrinterIndependentLayout\" config:type=\"string\">high-resolution</config:config-item>\n           <config:config-item config:name=\"TableRowKeep\" config:type=\"boolean\">true</config:config-item>\n           <config:config-item config:name=\"UpdateFromTemplate\" config:type=\"boolean\">true</config:config-item>\n           <config:config-item config:name=\"EmbedComplexScriptFonts\" config:type=\"boolean\">true</config:config-item>\n           <config:config-item config:name=\"UseOldPrinterMetrics\" config:type=\"boolean\">false</config:config-item>\n           <config:config-item config:name=\"InvertBorderSpacing\" config:type=\"boolean\">true</config:config-item>\n           <config:config-item config:name=\"PrintProspectRTL\" config:type=\"boolean\">false</config:config-item>\n           <config:config-item config:name=\"ApplyUserData\" config:type=\"boolean\">true</config:config-item>\n           <config:config-item config:name=\"AddParaTableSpacingAtStart\" config:type=\"boolean\">true</config:config-item>\n           <config:config-item config:name=\"SaveVersionOnClose\" config:type=\"boolean\">false</config:config-item>\n           <config:config-item config:name=\"CharacterCompressionType\" config:type=\"short\">0</config:config-item>\n           <config:config-item config:name=\"UseOldNumbering\" config:type=\"boolean\">false</config:config-item>\n           <config:config-item config:name=\"UseFormerObjectPositioning\" config:type=\"boolean\">false</config:config-item>\n           <config:config-item config:name=\"ChartAutoUpdate\" config:type=\"boolean\">true</config:config-item>\n           <config:config-item config:name=\"AddParaTableSpacing\" config:type=\"boolean\">false</config:config-item>\n          </config:config-item-set>\n         </office:settings>\n         <office:scripts>\n          <office:script script:language=\"ooo:Basic\">\n           <ooo:libraries xmlns:ooo=\"http://openoffice.org/2004/office\" xmlns:xlink=\"http://www.w3.org/1999/xlink\">\n            <ooo:library-embedded ooo:name=\"Standard\"/>\n           </ooo:libraries>\n          </office:script>\n         </office:scripts>\n         <office:font-face-decls>\n          <style:font-face style:name=\"IFAO-Grec Unicode\" svg:font-family=\"&apos;IFAO-Grec Unicode&apos;\"/>\n          <style:font-face style:name=\"New Athena Unicode\" svg:font-family=\"&apos;New Athena Unicode&apos;\"/>\n          <style:font-face style:name=\"Arial Unicode MS\" svg:font-family=\"&apos;Arial Unicode MS&apos;\" style:font-family-generic=\"system\" style:font-pitch=\"variable\"/>\n          <style:font-face style:name=\"PingFang SC\" svg:font-family=\"&apos;PingFang SC&apos;\" style:font-family-generic=\"system\" style:font-pitch=\"variable\"/>\n          <style:font-face style:name=\"Songti SC\" svg:font-family=\"&apos;Songti SC&apos;\" style:font-family-generic=\"system\" style:font-pitch=\"variable\"/>\n         </office:font-face-decls>\n         <office:styles>\n          <style:default-style style:family=\"graphic\">\n           <style:graphic-properties svg:stroke-color=\"#3465a4\" draw:fill-color=\"#729fcf\" fo:wrap-option=\"no-wrap\" draw:shadow-offset-x=\"0.1181in\" draw:shadow-offset-y=\"0.1181in\" draw:start-line-spacing-horizontal=\"0.1114in\" draw:start-line-spacing-vertical=\"0.1114in\" draw:end-line-spacing-horizontal=\"0.1114in\" draw:end-line-spacing-vertical=\"0.1114in\" style:flow-with-text=\"false\"/>\n           <style:paragraph-properties style:text-autospace=\"ideograph-alpha\" style:line-break=\"strict\" style:writing-mode=\"lr-tb\" style:font-independent-line-spacing=\"false\">\n            <style:tab-stops/>\n           </style:paragraph-properties>\n           <style:text-properties style:use-window-font-color=\"true\" loext:opacity=\"0%\" style:font-name=\"IFAO-Grec Unicode\" fo:font-size=\"12pt\" fo:language=\"en\" fo:country=\"US\" style:letter-kerning=\"true\" style:font-name-asian=\"Songti SC\" style:font-size-asian=\"12pt\" style:language-asian=\"zh\" style:country-asian=\"CN\" style:font-name-complex=\"Arial Unicode MS\" style:font-size-complex=\"12pt\" style:language-complex=\"hi\" style:country-complex=\"IN\"/>\n          </style:default-style>\n          <style:default-style style:family=\"paragraph\">\n           <style:paragraph-properties fo:hyphenation-ladder-count=\"no-limit\" style:text-autospace=\"ideograph-alpha\" style:punctuation-wrap=\"hanging\" style:line-break=\"strict\" style:tab-stop-distance=\"0.4925in\" style:writing-mode=\"lr-tb\"/>\n           <style:text-properties style:use-window-font-color=\"true\" loext:opacity=\"0%\" style:font-name=\"IFAO-Grec Unicode\" fo:font-size=\"12pt\" fo:language=\"en\" fo:country=\"US\" style:letter-kerning=\"true\" style:font-name-asian=\"Songti SC\" style:font-size-asian=\"12pt\" style:language-asian=\"zh\" style:country-asian=\"CN\" style:font-name-complex=\"Arial Unicode MS\" style:font-size-complex=\"12pt\" style:language-complex=\"hi\" style:country-complex=\"IN\" fo:hyphenate=\"false\" fo:hyphenation-remain-char-count=\"2\" fo:hyphenation-push-char-count=\"2\" loext:hyphenation-no-caps=\"false\"/>\n          </style:default-style>\n          <style:default-style style:family=\"table\">\n           <style:table-properties table:border-model=\"collapsing\"/>\n          </style:default-style>\n          <style:default-style style:family=\"table-row\">\n           <style:table-row-properties fo:keep-together=\"auto\"/>\n          </style:default-style>\n          <style:style style:name=\"Standard\" style:family=\"paragraph\" style:default-outline-level=\"\" style:class=\"text\">\n           <style:paragraph-properties fo:margin-left=\"0in\" fo:margin-right=\"0in\" fo:margin-top=\"0in\" fo:margin-bottom=\"0in\" fo:line-height=\"130%\" style:contextual-spacing=\"false\" fo:text-align=\"justify\" style:justify-single-word=\"false\" fo:orphans=\"2\" fo:widows=\"2\" fo:hyphenation-ladder-count=\"no-limit\" fo:text-indent=\"0in\" style:auto-text-indent=\"false\" style:writing-mode=\"lr-tb\">\n            <style:tab-stops/>\n           </style:paragraph-properties>\n           <style:text-properties style:use-window-font-color=\"true\" loext:opacity=\"0%\" style:font-name=\"IFAO-Grec Unicode\" fo:font-family=\"&apos;IFAO-Grec Unicode&apos;\" fo:font-size=\"12pt\" fo:language=\"en\" fo:country=\"US\" style:letter-kerning=\"true\" style:font-name-asian=\"Songti SC\" style:font-family-asian=\"&apos;Songti SC&apos;\" style:font-family-generic-asian=\"system\" style:font-pitch-asian=\"variable\" style:font-size-asian=\"12pt\" style:language-asian=\"zh\" style:country-asian=\"CN\" style:font-name-complex=\"IFAO-Grec Unicode\" style:font-family-complex=\"&apos;IFAO-Grec Unicode&apos;\" style:font-family-generic-complex=\"system\" style:font-pitch-complex=\"variable\" style:font-size-complex=\"12pt\" style:language-complex=\"hi\" style:country-complex=\"IN\" fo:hyphenate=\"false\" fo:hyphenation-remain-char-count=\"2\" fo:hyphenation-push-char-count=\"2\" loext:hyphenation-no-caps=\"false\"/>\n          </style:style>\n\n          <style:style style:name=\"Heading\" style:family=\"paragraph\" style:parent-style-name=\"Standard\" style:next-style-name=\"Text_20_body\" style:default-outline-level=\"\" style:class=\"text\">\n           <style:paragraph-properties fo:margin-top=\"0.1665in\" fo:margin-bottom=\"0.0835in\" style:contextual-spacing=\"false\" fo:keep-with-next=\"always\"/>\n           <style:text-properties style:font-name=\"IFAO-Grec Unicode\" fo:font-family=\"&apos;IFAO-Grec Unicode&apos;\" fo:font-size=\"14pt\" style:font-name-asian=\"PingFang SC\" style:font-family-asian=\"&apos;PingFang SC&apos;\" style:font-family-generic-asian=\"system\" style:font-pitch-asian=\"variable\" style:font-size-asian=\"14pt\" style:font-name-complex=\"Arial Unicode MS\" style:font-family-complex=\"&apos;Arial Unicode MS&apos;\" style:font-family-generic-complex=\"system\" style:font-pitch-complex=\"variable\" style:font-size-complex=\"14pt\"/>\n          </style:style>\n          <style:style style:name=\"Text_20_body\" style:display-name=\"Text body\" style:family=\"paragraph\" style:parent-style-name=\"Standard\" style:default-outline-level=\"\" style:class=\"text\">\n           <style:paragraph-properties fo:margin-top=\"0in\" fo:margin-bottom=\"0in\" style:contextual-spacing=\"false\" fo:line-height=\"100%\"/>\n          </style:style>\n          <style:style style:name=\"List\" style:family=\"paragraph\" style:parent-style-name=\"Text_20_body\" style:default-outline-level=\"\" style:class=\"list\">\n           <style:text-properties style:font-name=\"IFAO-Grec Unicode\" fo:font-family=\"&apos;IFAO-Grec Unicode&apos;\" style:font-name-complex=\"Arial Unicode MS\" style:font-family-complex=\"&apos;Arial Unicode MS&apos;\" style:font-family-generic-complex=\"system\" style:font-pitch-complex=\"variable\"/>\n          </style:style>\n          <style:style style:name=\"Caption\" style:family=\"paragraph\" style:parent-style-name=\"Standard\" style:default-outline-level=\"\" style:class=\"extra\">\n           <style:paragraph-properties fo:margin-top=\"0.0835in\" fo:margin-bottom=\"0.0835in\" style:contextual-spacing=\"false\" text:number-lines=\"false\" text:line-number=\"0\"/>\n           <style:text-properties style:font-name=\"IFAO-Grec Unicode\" fo:font-family=\"&apos;IFAO-Grec Unicode&apos;\" fo:font-size=\"12pt\" fo:font-style=\"italic\" style:font-size-asian=\"12pt\" style:font-style-asian=\"italic\" style:font-name-complex=\"Arial Unicode MS\" style:font-family-complex=\"&apos;Arial Unicode MS&apos;\" style:font-family-generic-complex=\"system\" style:font-pitch-complex=\"variable\" style:font-size-complex=\"12pt\" style:font-style-complex=\"italic\"/>\n          </style:style>\n          <style:style style:name=\"Index\" style:family=\"paragraph\" style:parent-style-name=\"Standard\" style:default-outline-level=\"\" style:class=\"index\">\n           <style:paragraph-properties text:number-lines=\"false\" text:line-number=\"0\"/>\n           <style:text-properties style:font-name=\"IFAO-Grec Unicode\" fo:font-family=\"&apos;IFAO-Grec Unicode&apos;\" style:font-name-complex=\"Arial Unicode MS\" style:font-family-complex=\"&apos;Arial Unicode MS&apos;\" style:font-family-generic-complex=\"system\" style:font-pitch-complex=\"variable\"/>\n          </style:style>\n          <style:style style:name=\"GlossTableLemma\" style:family=\"paragraph\" style:parent-style-name=\"Standard\" style:default-outline-level=\"\">\n           <style:paragraph-properties fo:margin-left=\"0.4in\" fo:margin-right=\"0in\" fo:line-height=\"100%\" fo:text-align=\"start\" style:justify-single-word=\"false\" fo:orphans=\"0\" fo:widows=\"0\" fo:text-indent=\"-0.4in\" style:auto-text-indent=\"false\" style:writing-mode=\"lr-tb\">\n            <style:tab-stops/>\n           </style:paragraph-properties>\n          </style:style>\n          <style:style style:name=\"GlossTableDef\" style:family=\"paragraph\" style:parent-style-name=\"Text_20_body\" style:default-outline-level=\"\">\n           <style:paragraph-properties fo:margin-top=\"0in\" fo:margin-bottom=\"0in\" style:contextual-spacing=\"false\" fo:line-height=\"100%\" fo:text-align=\"start\" style:justify-single-word=\"false\" fo:orphans=\"0\" fo:widows=\"0\" style:writing-mode=\"lr-tb\"/>\n          </style:style>\n          <style:style style:name=\"GlossInlineSections\" style:family=\"paragraph\" style:parent-style-name=\"Standard\" style:default-outline-level=\"\">\n           <style:paragraph-properties fo:line-height=\"150%\" fo:text-align=\"start\" style:justify-single-word=\"false\" style:writing-mode=\"lr-tb\"/>\n          </style:style>\n          <style:style style:name=\"Table_20_Contents\" style:display-name=\"Table Contents\" style:family=\"paragraph\" style:parent-style-name=\"Standard\" style:class=\"extra\">\n           <style:paragraph-properties fo:orphans=\"0\" fo:widows=\"0\" text:number-lines=\"false\" text:line-number=\"0\"/>\n          </style:style>\n          <style:style style:name=\"PIndented\" style:family=\"paragraph\" style:parent-style-name=\"Standard\">\n           <style:paragraph-properties fo:text-align=\"justify\" style:justify-single-word=\"false\" fo:text-indent=\"0.5in\" style:auto-text-indent=\"false\"/>\n           <style:text-properties officeooo:paragraph-rsid=\"002949d7\"/>\n          </style:style>\n          <style:style style:name=\"Hanging_20_indent\" style:display-name=\"Hanging indent\" style:family=\"paragraph\" style:parent-style-name=\"Text_20_body\" style:class=\"text\">\n           <style:paragraph-properties fo:margin-left=\"0.3937in\" fo:margin-right=\"0in\" fo:text-indent=\"-0.1965in\" style:auto-text-indent=\"false\">\n            <style:tab-stops>\n             <style:tab-stop style:position=\"0in\"/>\n            </style:tab-stops>\n           </style:paragraph-properties>\n          </style:style>\n          <text:outline-style style:name=\"Outline\">\n           <text:outline-level-style text:level=\"1\" style:num-format=\"\">\n            <style:list-level-properties text:list-level-position-and-space-mode=\"label-alignment\">\n             <style:list-level-label-alignment text:label-followed-by=\"listtab\"/>\n            </style:list-level-properties>\n           </text:outline-level-style>\n           <text:outline-level-style text:level=\"2\" style:num-format=\"\">\n            <style:list-level-properties text:list-level-position-and-space-mode=\"label-alignment\">\n             <style:list-level-label-alignment text:label-followed-by=\"listtab\"/>\n            </style:list-level-properties>\n           </text:outline-level-style>\n           <text:outline-level-style text:level=\"3\" style:num-format=\"\">\n            <style:list-level-properties text:list-level-position-and-space-mode=\"label-alignment\">\n             <style:list-level-label-alignment text:label-followed-by=\"listtab\"/>\n            </style:list-level-properties>\n           </text:outline-level-style>\n           <text:outline-level-style text:level=\"4\" style:num-format=\"\">\n            <style:list-level-properties text:list-level-position-and-space-mode=\"label-alignment\">\n             <style:list-level-label-alignment text:label-followed-by=\"listtab\"/>\n            </style:list-level-properties>\n           </text:outline-level-style>\n           <text:outline-level-style text:level=\"5\" style:num-format=\"\">\n            <style:list-level-properties text:list-level-position-and-space-mode=\"label-alignment\">\n             <style:list-level-label-alignment text:label-followed-by=\"listtab\"/>\n            </style:list-level-properties>\n           </text:outline-level-style>\n           <text:outline-level-style text:level=\"6\" style:num-format=\"\">\n            <style:list-level-properties text:list-level-position-and-space-mode=\"label-alignment\">\n             <style:list-level-label-alignment text:label-followed-by=\"listtab\"/>\n            </style:list-level-properties>\n           </text:outline-level-style>\n           <text:outline-level-style text:level=\"7\" style:num-format=\"\">\n            <style:list-level-properties text:list-level-position-and-space-mode=\"label-alignment\">\n             <style:list-level-label-alignment text:label-followed-by=\"listtab\"/>\n            </style:list-level-properties>\n           </text:outline-level-style>\n           <text:outline-level-style text:level=\"8\" style:num-format=\"\">\n            <style:list-level-properties text:list-level-position-and-space-mode=\"label-alignment\">\n             <style:list-level-label-alignment text:label-followed-by=\"listtab\"/>\n            </style:list-level-properties>\n           </text:outline-level-style>\n           <text:outline-level-style text:level=\"9\" style:num-format=\"\">\n            <style:list-level-properties text:list-level-position-and-space-mode=\"label-alignment\">\n             <style:list-level-label-alignment text:label-followed-by=\"listtab\"/>\n            </style:list-level-properties>\n           </text:outline-level-style>\n           <text:outline-level-style text:level=\"10\" style:num-format=\"\">\n            <style:list-level-properties text:list-level-position-and-space-mode=\"label-alignment\">\n             <style:list-level-label-alignment text:label-followed-by=\"listtab\"/>\n            </style:list-level-properties>\n           </text:outline-level-style>\n          </text:outline-style>\n          <text:notes-configuration text:note-class=\"footnote\" style:num-format=\"1\" text:start-value=\"0\" text:footnotes-position=\"page\" text:start-numbering-at=\"document\"/>\n          <text:notes-configuration text:note-class=\"endnote\" style:num-format=\"i\" text:start-value=\"0\"/>\n          <text:linenumbering-configuration text:number-lines=\"false\" text:offset=\"0.1965in\" style:num-format=\"1\" text:number-position=\"left\" text:increment=\"5\"/>\n          <style:default-page-layout>\n           <style:page-layout-properties style:writing-mode=\"lr-tb\" style:layout-grid-standard-mode=\"true\"/>\n          </style:default-page-layout>\n         </office:styles>\n         <office:automatic-styles>\n          <style:style style:name=\"GlossTable\" style:family=\"table\">\n           <style:table-properties style:width=\"7.1799in\" fo:margin-left=\"-0.2597in\" fo:margin-top=\"0in\" fo:margin-bottom=\"0in\" table:align=\"left\" fo:background-color=\"transparent\" style:may-break-between-rows=\"false\" style:writing-mode=\"lr-tb\">\n            <style:background-image/>\n           </style:table-properties>\n          </style:style>\n          <style:style style:name=\"GlossTable.A\" style:family=\"table-column\">\n           <style:table-column-properties style:column-width=\"0.2563in\"/>\n          </style:style>\n          <style:style style:name=\"GlossTable.B\" style:family=\"table-column\">\n           <style:table-column-properties style:column-width=\"3.4236in\"/>\n          </style:style>\n          <style:style style:name=\"GlossTable.C\" style:family=\"table-column\">\n           <style:table-column-properties style:column-width=\"3.5in\"/>\n          </style:style>\n          <style:style style:name=\"GlossTableCell\" style:family=\"table-cell\">\n           <style:table-cell-properties fo:padding-left=\"0in\" fo:padding-right=\"0.1201in\" fo:padding-top=\"0.1097in\" fo:padding-bottom=\"0in\" fo:border=\"none\"/>\n          </style:style>\n          <style:style style:name=\"GlossTableRow\" style:family=\"table-row\">\n           <style:table-row-properties fo:keep-together=\"always\"/>\n          </style:style>\n          <style:style style:name=\"VerseTable\" style:family=\"table\">\n           <style:table-properties style:width=\"6.925in\" style:may-break-between-rows=\"false\" table:align=\"margins\" style:writing-mode=\"lr-tb\"/>\n          </style:style>\n          <style:style style:name=\"VerseTable.A\" style:family=\"table-column\">\n           <style:table-column-properties style:column-width=\"1.2139in\" style:rel-column-width=\"1748*\"/>\n          </style:style>\n          <style:style style:name=\"VerseTable.B\" style:family=\"table-column\">\n           <style:table-column-properties style:column-width=\"4.0625in\" style:rel-column-width=\"5850*\"/>\n          </style:style>\n          <style:style style:name=\"VerseTable.C\" style:family=\"table-column\">\n           <style:table-column-properties style:column-width=\"1.6486in\" style:rel-column-width=\"2374*\"/>\n          </style:style>\n          <style:style style:name=\"VerseTable.A1\" style:family=\"table-cell\">\n           <style:table-cell-properties fo:padding=\"0.0201in\" fo:border=\"none\" style:writing-mode=\"page\"/>\n          </style:style>\n          <style:style style:name=\"P1\" style:family=\"paragraph\" style:parent-style-name=\"GlossInlineSections\">\n           <style:paragraph-properties fo:text-align=\"justify\" style:justify-single-word=\"false\"/>\n          </style:style>\n          <style:style style:name=\"P2\" style:family=\"paragraph\" style:parent-style-name=\"GlossTableDef\">\n           <style:paragraph-properties fo:orphans=\"0\" fo:widows=\"0\"/>\n          </style:style>\n          <style:style style:name=\"P3\" style:family=\"paragraph\" style:parent-style-name=\"GlossTableLemma\">\n           <style:paragraph-properties fo:margin-left=\"0.5in\" fo:margin-right=\"0in\" fo:line-height=\"100%\" fo:text-align=\"start\" style:justify-single-word=\"false\" fo:orphans=\"0\" fo:widows=\"0\" fo:text-indent=\"-0.5in\" style:auto-text-indent=\"false\" style:writing-mode=\"lr-tb\"/>\n          </style:style>\n          <style:style style:name=\"P4\" style:family=\"paragraph\" style:parent-style-name=\"GlossTableLemma\">\n           <style:paragraph-properties fo:margin-left=\"0.5in\" fo:margin-right=\"0in\" fo:line-height=\"100%\" fo:text-align=\"end\" style:justify-single-word=\"false\" fo:orphans=\"0\" fo:widows=\"0\" fo:text-indent=\"-0.5in\" style:auto-text-indent=\"false\" style:writing-mode=\"lr-tb\"/>\n          </style:style>\n          <style:style style:name=\"P5\" style:family=\"paragraph\" style:parent-style-name=\"Standard\">\n           <style:paragraph-properties fo:line-height=\"150%\" fo:text-align=\"start\" style:justify-single-word=\"false\" style:writing-mode=\"lr-tb\"/>\n          </style:style>\n          <style:style style:name=\"WorkTitleCenter\" style:family=\"paragraph\" style:parent-style-name=\"Standard\">\n           <style:paragraph-properties fo:line-height=\"150%\" fo:text-align=\"center\" style:justify-single-word=\"false\" style:writing-mode=\"lr-tb\"/>\n           <style:text-properties style:font-name=\"IFAO-Grec Unicode\" fo:font-weight=\"bold\" style:font-weight-asian=\"bold\" style:font-weight-complex=\"bold\"/>\n          </style:style>\n          <style:style style:name=\"P7\" style:family=\"paragraph\" style:parent-style-name=\"Standard\">\n           <style:paragraph-properties fo:line-height=\"150%\" fo:text-align=\"start\" style:justify-single-word=\"false\" style:writing-mode=\"lr-tb\"/>\n           <style:text-properties style:font-name=\"IFAO-Grec Unicode\"/>\n          </style:style>\n          <style:style style:name=\"P8\" style:family=\"paragraph\" style:parent-style-name=\"GlossTableLemma\">\n           <style:paragraph-properties fo:margin-left=\"0in\" fo:margin-right=\"0in\" fo:line-height=\"100%\" fo:text-align=\"end\" style:justify-single-word=\"false\" fo:orphans=\"0\" fo:widows=\"0\" fo:text-indent=\"0in\" style:auto-text-indent=\"false\" style:writing-mode=\"lr-tb\"/>\n          </style:style>\n          <style:style style:name=\"PageBreakStyle\" style:family=\"paragraph\" style:parent-style-name=\"Standard\">\n           <style:paragraph-properties fo:text-align=\"justify\" style:justify-single-word=\"false\" fo:break-before=\"page\"/>\n           <style:text-properties officeooo:paragraph-rsid=\"0026e103\"/>\n          </style:style>\n          <style:style style:name=\"T1\" style:family=\"text\">\n           <style:text-properties style:font-name=\"IFAO-Grec Unicode\" fo:font-weight=\"bold\" style:font-weight-asian=\"bold\" style:font-weight-complex=\"bold\"/>\n          </style:style>\n          <style:style style:name=\"T2\" style:family=\"text\">\n           <style:text-properties fo:font-style=\"italic\" style:font-style-asian=\"italic\" style:font-style-complex=\"italic\"/>\n          </style:style>\n          <style:style style:name=\"T3\" style:family=\"text\">\n           <style:text-properties style:text-position=\"super 58%\"/>\n          </style:style>\n          <style:style style:name=\"P18\" style:family=\"paragraph\" style:parent-style-name=\"GlossInlineSections\">\n           <style:paragraph-properties fo:text-align=\"center\" style:justify-single-word=\"false\"/>\n           <style:text-properties officeooo:rsid=\"00283989\" officeooo:paragraph-rsid=\"00283989\"/>\n          </style:style>\n          <style:style style:name=\"FooterStyle\" style:family=\"paragraph\" style:parent-style-name=\"Standard\">\n           <style:paragraph-properties fo:text-align=\"center\" style:justify-single-word=\"false\"/>\n           <style:text-properties officeooo:rsid=\"00283989\" officeooo:paragraph-rsid=\"00283989\"/>\n          </style:style>\n          <style:style style:name=\"HeaderRight\" style:family=\"paragraph\" style:parent-style-name=\"Header\">\n           <style:paragraph-properties fo:text-align=\"end\" style:justify-single-word=\"false\"/>\n           <style:text-properties officeooo:rsid=\"00283989\" officeooo:paragraph-rsid=\"00283989\"/>\n          </style:style>\n          <style:style style:name=\"HeaderLeft\" style:family=\"paragraph\" style:parent-style-name=\"Header\">\n           <style:text-properties officeooo:rsid=\"00283989\" officeooo:paragraph-rsid=\"00283989\"/>\n          </style:style>\n          <style:page-layout style:name=\"pm1\">\n           <style:page-layout-properties fo:page-width=\"8.5in\" fo:page-height=\"11in\" style:num-format=\"1\" style:print-orientation=\"portrait\" fo:margin-top=\"0.7874in\" fo:margin-bottom=\"0.7874in\" fo:margin-left=\"0.7874in\" fo:margin-right=\"0.7874in\" style:writing-mode=\"lr-tb\" style:layout-grid-color=\"#c0c0c0\" style:layout-grid-lines=\"136\" style:layout-grid-base-height=\"0.0693in\" style:layout-grid-ruby-height=\"0in\" style:layout-grid-mode=\"none\" style:layout-grid-ruby-below=\"false\" style:layout-grid-print=\"false\" style:layout-grid-display=\"false\" style:layout-grid-base-width=\"0.1665in\" style:layout-grid-snap-to=\"true\" style:footnote-max-height=\"0in\">\n            <style:footnote-sep style:width=\"0.0071in\" style:distance-before-sep=\"0.0398in\" style:distance-after-sep=\"0.0398in\" style:line-style=\"solid\" style:adjustment=\"left\" style:rel-width=\"25%\" style:color=\"#000000\"/>\n           </style:page-layout-properties>\n           <style:header-style/>\n           <style:footer-style/>\n          </style:page-layout>\n         </office:automatic-styles>\n         <office:master-styles>\n          <style:master-page style:name=\"Standard\" style:page-layout-name=\"pm1\">\n          <style:header>\n           <text:p text:style-name=\"HeaderRight\">%MAIN_TITLE%</text:p>\n          </style:header>\n          <style:header-left>\n           <text:p text:style-name=\"HeaderLeft\">LGI - UPPER LEVEL GREEK</text:p>\n          </style:header-left>\n          <style:header-first>\n           <text:p text:style-name=\"HeaderLeft\"></text:p>\n          </style:header-first>\n          <style:footer>\n          <text:p text:style-name=\"FooterStyle\"><text:bookmark-start text:name=\"PageNumWizard_FOOTER_Default Page Style1\"/><text:page-number text:select-page=\"current\">1</text:page-number><text:bookmark-end text:name=\"PageNumWizard_FOOTER_Default Page Style1\"/></text:p>\n          </style:footer>\n          <style:footer-first>\n           <text:p text:style-name=\"FooterStyle\"><text:bookmark-start text:name=\"PageNumWizard_FOOTER_Default Page Style1\"/><text:page-number text:select-page=\"current\">1</text:page-number><text:bookmark-end text:name=\"PageNumWizard_FOOTER_Default Page Style1\"/></text:p>\n          </style:footer-first>\n         </style:master-page>\n         </office:master-styles>\n         <office:body>\n          <office:text>\n           <text:sequence-decls>\n            <text:sequence-decl text:display-outline-level=\"0\" text:name=\"Illustration\"/>\n            <text:sequence-decl text:display-outline-level=\"0\" text:name=\"Table\"/>\n            <text:sequence-decl text:display-outline-level=\"0\" text:name=\"Text\"/>\n            <text:sequence-decl text:display-outline-level=\"0\" text:name=\"Drawing\"/>\n            <text:sequence-decl text:display-outline-level=\"0\" text:name=\"Figure\"/>\n           </text:sequence-decls>\n"@, title, start_page as nat)
    }

    open spec fn index_text(&self, entries: Seq<(Seq<char>, Seq<char>, usize)>) -> Seq<char> {
        Seq::empty()
    }

    open spec fn blank_page_text(&self) -> Seq<char> {
        "\n<text:p text:style-name=\"PageBreakStyle\"/>\n"@
    }

    fn gloss_entry(&self, gloss_occurrance: &GlossOccurrance, lemma: Option<&str>) -> String {
        if gloss_occurrance.arrowed_state == ArrowedState::Invisible {
            return String::new();
        }
        match (lemma, &gloss_occurrance.gloss) {
            (Some(lemma_unwrapped), Some(gloss_unwrapped)) => {
                let arrow = if gloss_occurrance.arrowed_state == ArrowedState::Arrowed {
                    "→"
                } else {
                    ""
                };
                let l = escape_fodt(lemma_unwrapped);
                let d = escape_fodt(gloss_unwrapped.def.as_str());
                let mut r = String::new();
                r.append(r#"
    <table:table-row table:style-name="GlossTableRow">
      <table:table-cell table:style-name="GlossTableCell" office:value-type="string">
        <text:p text:style-name="P8">"#);
                r.append(arrow);
                r.append(r#"</text:p>
      </table:table-cell>
      <table:table-cell table:style-name="GlossTableCell" office:value-type="string">
        <text:p text:style-name="GlossTableLemma">"#);
                r.append(l.as_str());
                r.append(r#"</text:p>
      </table:table-cell>
      <table:table-cell table:style-name="GlossTableCell" office:value-type="string">
        <text:p text:style-name="GlossTableDef">"#);
                r.append(d.as_str());
                r.append("</text:p>\n      </table:table-cell>\n    </table:table-row>\n");
                r
            },
            _ => String::new(),
        }
    }

    fn make_text(
        &self,
        gloss_occurrances: &[GlossOccurrance],
        appcrit_hash: &HashMap<WordUuid, String>,
    ) -> String {
        let mut res = String::new();
        let mut prev_non_space = true;
        let mut is_verse_section = false;
        let mut verse_speaker: Option<String> = None;
        let mut verse_line = String::new();
        let mut verse_line_number = String::new();
        let mut appcrits_page: Vec<String> = Vec::new();
        let mut para_open = false;
        let mut i: usize = 0;
        while i < gloss_occurrances.len()
            invariant
                i <= gloss_occurrances@.len(),
                (res@, prev_non_space, is_verse_section, verse_speaker, verse_line@, verse_line_number@,
                    appcrits_page@, para_open) == fodt_run(gloss_occurrances@, appcrit_hash@, i as nat),
            decreases gloss_occurrances@.len() - i,
        {
            let w = &gloss_occurrances[i];
            match appcrit_hash.get(&w.word.uuid) {
                Some(ap) => appcrits_page.push(ap.clone()),
                None => {},
            }
            match w.word.word_type {
                WordType::VerseLine => {
                    if para_open {
                        para_open = false;
                        res.append("\n    </text:p>\n");
                    }
                    if !is_verse_section {
                        res.append(r#"
    <table:table table:name="VerseTable" table:style-name="VerseTable">
        <table:table-column table:style-name="VerseTable.A"/>
        <table:table-column table:style-name="VerseTable.B"/>
        <table:table-column table:style-name="VerseTable.C"/>
"#);
                        is_verse_section = true;
                    } else {
                        let line = complete_verse_line(
                            verse_speaker,
                            verse_line.as_str(),
                            verse_line_number.as_str(),
                        );
                        res.append(line.as_str());
                        verse_speaker = None;
                        verse_line = String::new();
                    }
                    verse_line_number = verse_number(w.word.word.as_str());
                },
                WordType::WorkTitle => {
                    if para_open {
                        para_open = false;
                        res.append("\n    </text:p>\n");
                    }
                    let title = escape_fodt(w.word.word.as_str());
                    res.append("\n    <text:p text:style-name=\"WorkTitleCenter\">");
                    res.append(title.as_str());
                    res.append("</text:p>\n    <text:p text:style-name=\"Standard\"></text:p>\n                        ");
                },
                WordType::Word | WordType::Punctuation => {
                    let mut s = String::new();
                    if !(closing_punctuation(w.word.word.as_str()) || prev_non_space) {
                        s.append(" ");
                    }
                    let escaped = escape_fodt(w.word.word.as_str());
                    s.append(escaped.as_str());
                    if is_verse_section {
                        verse_line.append(s.as_str());
                    } else {
                        if !para_open {
                            para_open = true;
                            res.append("\n    <text:p text:style-name=\"Standard\">\n");
                        }
                        res.append(s.as_str());
                    }
                    prev_non_space = opens_group(w.word.word.as_str());
                },
                WordType::ParaWithIndent => {
                    if para_open {
                        res.append("\n    </text:p>\n");
                    }
                    para_open = true;
                    res.append("\n    <text:p text:style-name=\"PIndented\">\n");
                },
                WordType::ParaNoIndent => {
                    if para_open {
                        res.append("\n    </text:p>\n");
                    }
                    para_open = true;
                    res.append("\n    <text:p text:style-name=\"Standard\">\n");
                },
                WordType::SectionTitle => {
                    if para_open {
                        para_open = false;
                        res.append("\n    </text:p>\n");
                    }
                    let title = escape_fodt(w.word.word.as_str());
                    res.append("\n    <text:p text:style-name=\"P18\">");
                    res.append(title.as_str());
                    res.append("</text:p>\n");
                },
                WordType::Section => {
                    let section_input = section_text(w.word.word.as_str());
                    match section_numbers(section_input.as_str()) {
                        Some((section, subsection)) => {
                            if text_is(subsection.as_str(), "1") {
                                res.append(" <text:span text:style-name=\"T1\">");
                                res.append(section.as_str());
                                res.append("</text:span> ");
                            } else {
                                res.append(" <text:span text:style-name=\"T1\">");
                                res.append(subsection.as_str());
                                res.append("</text:span> ");
                            }
                        },
                        None => {
                            res.append(" <text:span text:style-name=\"T1\">");
                            res.append(section_input.as_str());
                            res.append("</text:span> ");
                        },
                    }
                    prev_non_space = true;
                },
                WordType::Speaker => {
                    if is_verse_section {
                        let speaker = match &verse_speaker {
                            Some(x) => Some(x.clone()),
                            None => None,
                        };
                        let line = complete_verse_line(
                            speaker,
                            verse_line.as_str(),
                            verse_line_number.as_str(),
                        );
                        res.append(line.as_str());
                        verse_speaker = None;
                        verse_line = String::new();
                        res.append("\n    </table:table>\n");
                    }
                    res.append("\n    <text:p text:style-name=\"Standard\">");
                    res.append(w.word.word.as_str());
                    res.append("</text:p>\n");
                    if is_verse_section {
                        res.append(r#"
    <table:table table:name="VerseTable" table:style-name="VerseTable">
        <table:table-column table:style-name="VerseTable.A"/>
        <table:table-column table:style-name="VerseTable.B"/>
        <table:table-column table:style-name="VerseTable.C"/>
"#);
                    }
                },
                WordType::InlineSpeaker => {
                    if is_verse_section {
                        verse_speaker = Some(w.word.word.clone());
                    } else {
                        if !para_open {
                            para_open = true;
                            res.append("\n    <text:p text:style-name=\"Standard\">\n");
                        }
                        res.append("<text:span text:style-name=\"T1\">");
                        res.append(w.word.word.as_str());
                        res.append("</text:span> ");
                    }
                },
                WordType::InlineVerseSpeaker => {
                    verse_speaker = Some(w.word.word.clone());
                },
                _ => {},
            }
            i += 1;
        }
        if is_verse_section {
            let line = complete_verse_line(verse_speaker, verse_line.as_str(), verse_line_number.as_str());
            res.append(line.as_str());
            res.append("\n</table:table>\n");
        } else if para_open {
            res.append("</text:p>\n");
        }
        if appcrits_page.len() > 0 {
            res.append("<text:p></text:p>\n");
        }
        let mut k: usize = 0;
        let ghost base = res@;
        proof {
            assert(appcrits_page@.take(0) =~= Seq::<String>::empty());
            assert(base + fodt_notes(appcrits_page@.take(0)) =~= base);
        }
        while k < appcrits_page.len()
            invariant
                k <= appcrits_page@.len(),
                res@ == base + fodt_notes(appcrits_page@.take(k as int)),
            decreases appcrits_page@.len() - k,
        {
            proof {
                assert(appcrits_page@.take(k + 1).drop_last() =~= appcrits_page@.take(k as int));
            }
            let ap = escape_fodt(appcrits_page[k].as_str());
            res.append("<text:p>");
            res.append(ap.as_str());
            res.append("</text:p>\n");
            k += 1;
        }
        proof {
            assert(appcrits_page@.take(appcrits_page@.len() as int) =~= appcrits_page@);
        }
        res
    }

    fn page_gloss_start(&self) -> String {
        String::from_str(r#"
    <text:p text:style-name="P1"/>
    <text:p text:style-name="P1"/>
    <table:table table:name="Table1" table:style-name="GlossTable">
      <table:table-column table:style-name="GlossTable.A"/>
      <table:table-column table:style-name="GlossTable.B"/>
      <table:table-column table:style-name="GlossTable.C"/>
"#)
    }

    fn page_start(&self, title: &str, page_number: usize) -> String {
        String::from_str("\n\n            ")
    }

    fn page_end(&self) -> String {
        String::from_str("\n    </table:table>\n    <text:p text:style-name=\"PageBreakStyle\"/>\n")
    }

    fn document_end(&self) -> String {
        String::from_str("<text:p text:style-name=\"P5\"/>\n  </office:text>\n </office:body>\n</office:document>\n")
    }

    fn document_start(&self, title: &str, start_page: usize) -> String {
        fill_template(r##"<?xml version="1.0" encoding="UTF-8"?>

        <office:document xmlns:css3t="http://www.w3.org/TR/css3-text/" xmlns:grddl="http://www.w3.org/2003/g/data-view#" xmlns:xhtml="http://www.w3.org/1999/xhtml" xmlns:xsi="http://www.w3.org/2001/XMLSchema-instance" xmlns:xsd="http://www.w3.org/2001/XMLSchema" xmlns:xforms="http://www.w3.org/2002/xforms" xmlns:dom="http://www.w3.org/2001/xml-events" xmlns:script="urn:oasis:names:tc:opendocument:xmlns:script:1.0" xmlns:form="urn:oasis:names:tc:opendocument:xmlns:form:1.0" xmlns:math="http://www.w3.org/1998/Math/MathML" xmlns:meta="urn:oasis:names:tc:opendocument:xmlns:meta:1.0" xmlns:loext="urn:org:documentfoundation:names:experimental:office:xmlns:loext:1.0" xmlns:field="urn:openoffice:names:experimental:ooo-ms-interop:xmlns:field:1.0" xmlns:number="urn:oasis:names:tc:opendocument:xmlns:datastyle:1.0" xmlns:officeooo="http://openoffice.org/2009/office" xmlns:table="urn:oasis:names:tc:opendocument:xmlns:table:1.0" xmlns:chart="urn:oasis:names:tc:opendocument:xmlns:chart:1.0" xmlns:formx="urn:openoffice:names:experimental:ooxml-odf-interop:xmlns:form:1.0" xmlns:svg="urn:oasis:names:tc:opendocument:xmlns:svg-compatible:1.0" xmlns:tableooo="http://openoffice.org/2009/table" xmlns:draw="urn:oasis:names:tc:opendocument:xmlns:drawing:1.0" xmlns:rpt="http://openoffice.org/2005/report" xmlns:dr3d="urn:oasis:names:tc:opendocument:xmlns:dr3d:1.0" xmlns:of="urn:oasis:names:tc:opendocument:xmlns:of:1.2" xmlns:text="urn:oasis:names:tc:opendocument:xmlns:text:1.0" xmlns:style="urn:oasis:names:tc:opendocument:xmlns:style:1.0" xmlns:dc="http://purl.org/dc/elements/1.1/" xmlns:calcext="urn:org:documentfoundation:names:experimental:calc:xmlns:calcext:1.0" xmlns:oooc="http://openoffice.org/2004/calc" xmlns:config="urn:oasis:names:tc:opendocument:xmlns:config:1.0" xmlns:ooo="http://openoffice.org/2004/office" xmlns:xlink="http://www.w3.org/1999/xlink" xmlns:drawooo="http://openoffice.org/2010/draw" xmlns:ooow="http://openoffice.org/2004/writer" xmlns:fo="urn:oasis:names:tc:opendocument:xmlns:xsl-fo-compatible:1.0" xmlns:office="urn:oasis:names:tc:opendocument:xmlns:office:1.0" office:version="1.3" office:mimetype="application/vnd.oasis.opendocument.text">
         <office:meta><meta:creation-date>2021-03-08T17:40:14</meta:creation-date><meta:initial-creator>Jeremy March</meta:initial-creator><dc:language>en-US</dc:language><dc:creator>Jeremy March</dc:creator><dc:date>2021-04-08T20:17:25.947067138</dc:date><meta:editing-cycles>25</meta:editing-cycles><meta:editing-duration>P1DT5H15M2S</meta:editing-duration><meta:generator>LibreOffice/7.1.2.1$MacOSX_X86_64 LibreOffice_project/094b4116e8de6d2085e9b65d26912d6eac4c74a9</meta:generator><meta:document-statistic meta:table-count="1" meta:image-count="0" meta:object-count="0" meta:page-count="1" meta:paragraph-count="32" meta:word-count="249" meta:character-count="1664" meta:non-whitespace-character-count="1446"/><meta:user-defined meta:name="AppVersion">15.0000</meta:user-defined></office:meta>
         <office:settings>
          <config:config-item-set config:name="ooo:view-settings">
           <config:config-item config:name="ViewAreaTop" config:type="long">1803</config:config-item>
           <config:config-item config:name="ViewAreaLeft" config:type="long">0</config:config-item>
           <config:config-item config:name="ViewAreaWidth" config:type="long">55002</config:config-item>
           <config:config-item config:name="ViewAreaHeight" config:type="long">27141</config:config-item>
           <config:config-item config:name="ShowRedlineChanges" config:type="boolean">true</config:config-item>
           <config:config-item config:name="InBrowseMode" config:type="boolean">false</config:config-item>
           <config:config-item-map-indexed config:name="Views">
            <config:config-item-map-entry>
             <config:config-item config:name="ViewId" config:type="string">view2</config:config-item>
             <config:config-item config:name="ViewLeft" config:type="long">11763</config:config-item>
             <config:config-item config:name="ViewTop" config:type="long">12866</config:config-item>
             <config:config-item config:name="VisibleLeft" config:type="long">0</config:config-item>
             <config:config-item config:name="VisibleTop" config:type="long">1803</config:config-item>
             <config:config-item config:name="VisibleRight" config:type="long">55000</config:config-item>
             <config:config-item config:name="VisibleBottom" config:type="long">28942</config:config-item>
             <config:config-item config:name="ZoomType" config:type="short">0</config:config-item>
             <config:config-item config:name="ViewLayoutColumns" config:type="short">0</config:config-item>
             <config:config-item config:name="ViewLayoutBookMode" config:type="boolean">false</config:config-item>
             <config:config-item config:name="ZoomFactor" config:type="short">100</config:config-item>
             <config:config-item config:name="IsSelectedFrame" config:type="boolean">false</config:config-item>
             <config:config-item config:name="AnchoredTextOverflowLegacy" config:type="boolean">false</config:config-item>
            </config:config-item-map-entry>
           </config:config-item-map-indexed>
          </config:config-item-set>
          <config:config-item-set config:name="ooo:configuration-settings">
           <config:config-item config:name="PrintBlackFonts" config:type="boolean">false</config:config-item>
           <config:config-item config:name="PrintReversed" config:type="boolean">false</config:config-item>
           <config:config-item config:name="PrintAnnotationMode" config:type="short">0</config:config-item>
           <config:config-item config:name="PrintGraphics" config:type="boolean">true</config:config-item>
           <config:config-item config:name="EmbeddedDatabaseName" config:type="string"/>
           <config:config-item config:name="ProtectForm" config:type="boolean">false</config:config-item>
           <config:config-item config:name="PrintLeftPages" config:type="boolean">true</config:config-item>
           <config:config-item config:name="PrintProspect" config:type="boolean">false</config:config-item>
           <config:config-item config:name="PrintHiddenText" config:type="boolean">false</config:config-item>
           <config:config-item config:name="PrintRightPages" config:type="boolean">true</config:config-item>
           <config:config-item config:name="PrintFaxName" config:type="string"/>
           <config:config-item config:name="TabsRelativeToIndent" config:type="boolean">false</config:config-item>
           <config:config-item config:name="RedlineProtectionKey" config:type="base64Binary"/>
           <config:config-item config:name="PrintTextPlaceholder" config:type="boolean">false</config:config-item>
           <config:config-item config:name="AddFrameOffsets" config:type="boolean">true</config:config-item>
           <config:config-item config:name="FrameAutowidthWithMorePara" config:type="boolean">true</config:config-item>
           <config:config-item config:name="MathBaselineAlignment" config:type="boolean">true</config:config-item>
           <config:config-item config:name="ProtectBookmarks" config:type="boolean">false</config:config-item>
           <config:config-item config:name="IgnoreTabsAndBlanksForLineCalculation" config:type="boolean">true</config:config-item>
           <config:config-item config:name="ContinuousEndnotes" config:type="boolean">false</config:config-item>
           <config:config-item config:name="FieldAutoUpdate" config:type="boolean">true</config:config-item>
           <config:config-item config:name="EmptyDbFieldHidesPara" config:type="boolean">true</config:config-item>
           <config:config-item config:name="ApplyParagraphMarkFormatToNumbering" config:type="boolean">true</config:config-item>
           <config:config-item config:name="PrintEmptyPages" config:type="boolean">false</config:config-item>
           <config:config-item config:name="AddParaLineSpacingToTableCells" config:type="boolean">true</config:config-item>
           <config:config-item config:name="TabOverMargin" config:type="boolean">true</config:config-item>
           <config:config-item config:name="EmbedAsianScriptFonts" config:type="boolean">true</config:config-item>
           <config:config-item config:name="EmbedLatinScriptFonts" config:type="boolean">true</config:config-item>
           <config:config-item config:name="DisableOffPagePositioning" config:type="boolean">true</config:config-item>
           <config:config-item config:name="EmbedOnlyUsedFonts" config:type="boolean">false</config:config-item>
           <config:config-item config:name="PrintControls" config:type="boolean">true</config:config-item>
           <config:config-item config:name="SaveThumbnail" config:type="boolean">true</config:config-item>
           <config:config-item config:name="EmbedFonts" config:type="boolean">false</config:config-item>
           <config:config-item config:name="MsWordCompMinLineHeightByFly" config:type="boolean">false</config:config-item>
           <config:config-item config:name="SurroundTextWrapSmall" config:type="boolean">true</config:config-item>
           <config:config-item config:name="BackgroundParaOverDrawings" config:type="boolean">true</config:config-item>
           <config:config-item config:name="ClippedPictures" config:type="boolean">true</config:config-item>
           <config:config-item config:name="FloattableNomargins" config:type="boolean">true</config:config-item>
           <config:config-item config:name="UnbreakableNumberings" config:type="boolean">true</config:config-item>
           <config:config-item config:name="EmbedSystemFonts" config:type="boolean">false</config:config-item>
           <config:config-item config:name="TabOverflow" config:type="boolean">true</config:config-item>
           <config:config-item config:name="PrintTables" config:type="boolean">true</config:config-item>
           <config:config-item config:name="PrintDrawings" config:type="boolean">true</config:config-item>
           <config:config-item config:name="ConsiderTextWrapOnObjPos" config:type="boolean">true</config:config-item>
           <config:config-item config:name="PrintSingleJobs" config:type="boolean">false</config:config-item>
           <config:config-item config:name="SmallCapsPercentage66" config:type="boolean">false</config:config-item>
           <config:config-item config:name="CollapseEmptyCellPara" config:type="boolean">true</config:config-item>
           <config:config-item config:name="HeaderSpacingBelowLastPara" config:type="boolean">true</config:config-item>
           <config:config-item config:name="RsidRoot" config:type="int">1906756</config:config-item>
           <config:config-item config:name="PrinterSetup" config:type="base64Binary"/>
           <config:config-item config:name="CurrentDatabaseCommand" config:type="string"/>
           <config:config-item config:name="AlignTabStopPosition" config:type="boolean">true</config:config-item>
           <config:config-item config:name="ClipAsCharacterAnchoredWriterFlyFrames" config:type="boolean">false</config:config-item>
           <config:config-item config:name="DoNotCaptureDrawObjsOnPage" config:type="boolean">false</config:config-item>
           <config:config-item config:name="SaveGlobalDocumentLinks" config:type="boolean">false</config:config-item>
           <config:config-item config:name="CurrentDatabaseCommandType" config:type="int">0</config:config-item>
           <config:config-item config:name="LoadReadonly" config:type="boolean">false</config:config-item>
           <config:config-item config:name="DoNotResetParaAttrsForNumFont" config:type="boolean">false</config:config-item>
           <config:config-item config:name="StylesNoDefault" config:type="boolean">false</config:config-item>
           <config:config-item config:name="LinkUpdateMode" config:type="short">1</config:config-item>
           <config:config-item config:name="DoNotJustifyLinesWithManualBreak" config:type="boolean">false</config:config-item>
           <config:config-item config:name="PropLineSpacingShrinksFirstLine" config:type="boolean">true</config:config-item>
           <config:config-item config:name="TabAtLeftIndentForParagraphsInList" config:type="boolean">true</config:config-item>
           <config:config-item config:name="ProtectFields" config:type="boolean">false</config:config-item>
           <config:config-item config:name="UnxForceZeroExtLeading" config:type="boolean">false</config:config-item>
           <config:config-item config:name="CurrentDatabaseDataSource" config:type="string"/>
           <config:config-item config:name="UseFormerTextWrapping" config:type="boolean">false</config:config-item>
           <config:config-item config:name="PrintPaperFromSetup" config:type="boolean">false</config:config-item>
           <config:config-item config:name="UseFormerLineSpacing" config:type="boolean">false</config:config-item>
           <config:config-item config:name="AllowPrintJobCancel" config:type="boolean">true</config:config-item>
           <config:config-item config:name="SubtractFlysAnchoredAtFlys" config:type="boolean">false</config:config-item>
           <config:config-item config:name="AddParaSpacingToTableCells" config:type="boolean">true</config:config-item>
           <config:config-item config:name="AddExternalLeading" config:type="boolean">true</config:config-item>
           <config:config-item config:name="Rsid" config:type="int">2513019</config:config-item>
           <config:config-item config:name="AddVerticalFrameOffsets" config:type="boolean">true</config:config-item>
           <config:config-item config:name="TreatSingleColumnBreakAsPageBreak" config:type="boolean">true</config:config-item>
           <config:config-item config:name="IsLabelDocument" config:type="boolean">false</config:config-item>
           <config:config-item config:name="MsWordCompTrailingBlanks" config:type="boolean">true</config:config-item>
           <config:config-item config:name="PrinterPaperFromSetup" config:type="boolean">false</config:config-item>
           <config:config-item config:name="IgnoreFirstLineIndentInNumbering" config:type="boolean">false</config:config-item>
           <config:config-item config:name="PrintPageBackground" config:type="boolean">true</config:config-item>
           <config:config-item config:name="OutlineLevelYieldsNumbering" config:type="boolean">false</config:config-item>
           <config:config-item config:name="PrinterName" config:type="string"/>
           <config:config-item config:name="IsKernAsianPunctuation" config:type="boolean">false</config:config-item>
           <config:config-item config:name="PrinterIndependentLayout" config:type="string">high-resolution</config:config-item>
           <config:config-item config:name="TableRowKeep" config:type="boolean">true</config:config-item>
           <config:config-item config:name="UpdateFromTemplate" config:type="boolean">true</config:config-item>
           <config:config-item config:name="EmbedComplexScriptFonts" config:type="boolean">true</config:config-item>
           <config:config-item config:name="UseOldPrinterMetrics" config:type="boolean">false</config:config-item>
           <config:config-item config:name="InvertBorderSpacing" config:type="boolean">true</config:config-item>
           <config:config-item config:name="PrintProspectRTL" config:type="boolean">false</config:config-item>
           <config:config-item config:name="ApplyUserData" config:type="boolean">true</config:config-item>
           <config:config-item config:name="AddParaTableSpacingAtStart" config:type="boolean">true</config:config-item>
           <config:config-item config:name="SaveVersionOnClose" config:type="boolean">false</config:config-item>
           <config:config-item config:name="CharacterCompressionType" config:type="short">0</config:config-item>
           <config:config-item config:name="UseOldNumbering" config:type="boolean">false</config:config-item>
           <config:config-item config:name="UseFormerObjectPositioning" config:type="boolean">false</config:config-item>
           <config:config-item config:name="ChartAutoUpdate" config:type="boolean">true</config:config-item>
           <config:config-item config:name="AddParaTableSpacing" config:type="boolean">false</config:config-item>
          </config:config-item-set>
         </office:settings>
         <office:scripts>
          <office:script script:language="ooo:Basic">
           <ooo:libraries xmlns:ooo="http://openoffice.org/2004/office" xmlns:xlink="http://www.w3.org/1999/xlink">
            <ooo:library-embedded ooo:name="Standard"/>
           </ooo:libraries>
          </office:script>
         </office:scripts>
         <office:font-face-decls>
          <style:font-face style:name="IFAO-Grec Unicode" svg:font-family="&apos;IFAO-Grec Unicode&apos;"/>
          <style:font-face style:name="New Athena Unicode" svg:font-family="&apos;New Athena Unicode&apos;"/>
          <style:font-face style:name="Arial Unicode MS" svg:font-family="&apos;Arial Unicode MS&apos;" style:font-family-generic="system" style:font-pitch="variable"/>
          <style:font-face style:name="PingFang SC" svg:font-family="&apos;PingFang SC&apos;" style:font-family-generic="system" style:font-pitch="variable"/>
          <style:font-face style:name="Songti SC" svg:font-family="&apos;Songti SC&apos;" style:font-family-generic="system" style:font-pitch="variable"/>
         </office:font-face-decls>
         <office:styles>
          <style:default-style style:family="graphic">
           <style:graphic-properties svg:stroke-color="#3465a4" draw:fill-color="#729fcf" fo:wrap-option="no-wrap" draw:shadow-offset-x="0.1181in" draw:shadow-offset-y="0.1181in" draw:start-line-spacing-horizontal="0.1114in" draw:start-line-spacing-vertical="0.1114in" draw:end-line-spacing-horizontal="0.1114in" draw:end-line-spacing-vertical="0.1114in" style:flow-with-text="false"/>
           <style:paragraph-properties style:text-autospace="ideograph-alpha" style:line-break="strict" style:writing-mode="lr-tb" style:font-independent-line-spacing="false">
            <style:tab-stops/>
           </style:paragraph-properties>
           <style:text-properties style:use-window-font-color="true" loext:opacity="0%" style:font-name="IFAO-Grec Unicode" fo:font-size="12pt" fo:language="en" fo:country="US" style:letter-kerning="true" style:font-name-asian="Songti SC" style:font-size-asian="12pt" style:language-asian="zh" style:country-asian="CN" style:font-name-complex="Arial Unicode MS" style:font-size-complex="12pt" style:language-complex="hi" style:country-complex="IN"/>
          </style:default-style>
          <style:default-style style:family="paragraph">
           <style:paragraph-properties fo:hyphenation-ladder-count="no-limit" style:text-autospace="ideograph-alpha" style:punctuation-wrap="hanging" style:line-break="strict" style:tab-stop-distance="0.4925in" style:writing-mode="lr-tb"/>
           <style:text-properties style:use-window-font-color="true" loext:opacity="0%" style:font-name="IFAO-Grec Unicode" fo:font-size="12pt" fo:language="en" fo:country="US" style:letter-kerning="true" style:font-name-asian="Songti SC" style:font-size-asian="12pt" style:language-asian="zh" style:country-asian="CN" style:font-name-complex="Arial Unicode MS" style:font-size-complex="12pt" style:language-complex="hi" style:country-complex="IN" fo:hyphenate="false" fo:hyphenation-remain-char-count="2" fo:hyphenation-push-char-count="2" loext:hyphenation-no-caps="false"/>
          </style:default-style>
          <style:default-style style:family="table">
           <style:table-properties table:border-model="collapsing"/>
          </style:default-style>
          <style:default-style style:family="table-row">
           <style:table-row-properties fo:keep-together="auto"/>
          </style:default-style>
          <style:style style:name="Standard" style:family="paragraph" style:default-outline-level="" style:class="text">
           <style:paragraph-properties fo:margin-left="0in" fo:margin-right="0in" fo:margin-top="0in" fo:margin-bottom="0in" fo:line-height="130%" style:contextual-spacing="false" fo:text-align="justify" style:justify-single-word="false" fo:orphans="2" fo:widows="2" fo:hyphenation-ladder-count="no-limit" fo:text-indent="0in" style:auto-text-indent="false" style:writing-mode="lr-tb">
            <style:tab-stops/>
           </style:paragraph-properties>
           <style:text-properties style:use-window-font-color="true" loext:opacity="0%" style:font-name="IFAO-Grec Unicode" fo:font-family="&apos;IFAO-Grec Unicode&apos;" fo:font-size="12pt" fo:language="en" fo:country="US" style:letter-kerning="true" style:font-name-asian="Songti SC" style:font-family-asian="&apos;Songti SC&apos;" style:font-family-generic-asian="system" style:font-pitch-asian="variable" style:font-size-asian="12pt" style:language-asian="zh" style:country-asian="CN" style:font-name-complex="IFAO-Grec Unicode" style:font-family-complex="&apos;IFAO-Grec Unicode&apos;" style:font-family-generic-complex="system" style:font-pitch-complex="variable" style:font-size-complex="12pt" style:language-complex="hi" style:country-complex="IN" fo:hyphenate="false" fo:hyphenation-remain-char-count="2" fo:hyphenation-push-char-count="2" loext:hyphenation-no-caps="false"/>
          </style:style>

          <style:style style:name="Heading" style:family="paragraph" style:parent-style-name="Standard" style:next-style-name="Text_20_body" style:default-outline-level="" style:class="text">
           <style:paragraph-properties fo:margin-top="0.1665in" fo:margin-bottom="0.0835in" style:contextual-spacing="false" fo:keep-with-next="always"/>
           <style:text-properties style:font-name="IFAO-Grec Unicode" fo:font-family="&apos;IFAO-Grec Unicode&apos;" fo:font-size="14pt" style:font-name-asian="PingFang SC" style:font-family-asian="&apos;PingFang SC&apos;" style:font-family-generic-asian="system" style:font-pitch-asian="variable" style:font-size-asian="14pt" style:font-name-complex="Arial Unicode MS" style:font-family-complex="&apos;Arial Unicode MS&apos;" style:font-family-generic-complex="system" style:font-pitch-complex="variable" style:font-size-complex="14pt"/>
          </style:style>
          <style:style style:name="Text_20_body" style:display-name="Text body" style:family="paragraph" style:parent-style-name="Standard" style:default-outline-level="" style:class="text">
           <style:paragraph-properties fo:margin-top="0in" fo:margin-bottom="0in" style:contextual-spacing="false" fo:line-height="100%"/>
          </style:style>
          <style:style style:name="List" style:family="paragraph" style:parent-style-name="Text_20_body" style:default-outline-level="" style:class="list">
           <style:text-properties style:font-name="IFAO-Grec Unicode" fo:font-family="&apos;IFAO-Grec Unicode&apos;" style:font-name-complex="Arial Unicode MS" style:font-family-complex="&apos;Arial Unicode MS&apos;" style:font-family-generic-complex="system" style:font-pitch-complex="variable"/>
          </style:style>
          <style:style style:name="Caption" style:family="paragraph" style:parent-style-name="Standard" style:default-outline-level="" style:class="extra">
           <style:paragraph-properties fo:margin-top="0.0835in" fo:margin-bottom="0.0835in" style:contextual-spacing="false" text:number-lines="false" text:line-number="0"/>
           <style:text-properties style:font-name="IFAO-Grec Unicode" fo:font-family="&apos;IFAO-Grec Unicode&apos;" fo:font-size="12pt" fo:font-style="italic" style:font-size-asian="12pt" style:font-style-asian="italic" style:font-name-complex="Arial Unicode MS" style:font-family-complex="&apos;Arial Unicode MS&apos;" style:font-family-generic-complex="system" style:font-pitch-complex="variable" style:font-size-complex="12pt" style:font-style-complex="italic"/>
          </style:style>
          <style:style style:name="Index" style:family="paragraph" style:parent-style-name="Standard" style:default-outline-level="" style:class="index">
           <style:paragraph-properties text:number-lines="false" text:line-number="0"/>
           <style:text-properties style:font-name="IFAO-Grec Unicode" fo:font-family="&apos;IFAO-Grec Unicode&apos;" style:font-name-complex="Arial Unicode MS" style:font-family-complex="&apos;Arial Unicode MS&apos;" style:font-family-generic-complex="system" style:font-pitch-complex="variable"/>
          </style:style>
          <style:style style:name="GlossTableLemma" style:family="paragraph" style:parent-style-name="Standard" style:default-outline-level="">
           <style:paragraph-properties fo:margin-left="0.4in" fo:margin-right="0in" fo:line-height="100%" fo:text-align="start" style:justify-single-word="false" fo:orphans="0" fo:widows="0" fo:text-indent="-0.4in" style:auto-text-indent="false" style:writing-mode="lr-tb">
            <style:tab-stops/>
           </style:paragraph-properties>
          </style:style>
          <style:style style:name="GlossTableDef" style:family="paragraph" style:parent-style-name="Text_20_body" style:default-outline-level="">
           <style:paragraph-properties fo:margin-top="0in" fo:margin-bottom="0in" style:contextual-spacing="false" fo:line-height="100%" fo:text-align="start" style:justify-single-word="false" fo:orphans="0" fo:widows="0" style:writing-mode="lr-tb"/>
          </style:style>
          <style:style style:name="GlossInlineSections" style:family="paragraph" style:parent-style-name="Standard" style:default-outline-level="">
           <style:paragraph-properties fo:line-height="150%" fo:text-align="start" style:justify-single-word="false" style:writing-mode="lr-tb"/>
          </style:style>
          <style:style style:name="Table_20_Contents" style:display-name="Table Contents" style:family="paragraph" style:parent-style-name="Standard" style:class="extra">
           <style:paragraph-properties fo:orphans="0" fo:widows="0" text:number-lines="false" text:line-number="0"/>
          </style:style>
          <style:style style:name="PIndented" style:family="paragraph" style:parent-style-name="Standard">
           <style:paragraph-properties fo:text-align="justify" style:justify-single-word="false" fo:text-indent="0.5in" style:auto-text-indent="false"/>
           <style:text-properties officeooo:paragraph-rsid="002949d7"/>
          </style:style>
          <style:style style:name="Hanging_20_indent" style:display-name="Hanging indent" style:family="paragraph" style:parent-style-name="Text_20_body" style:class="text">
           <style:paragraph-properties fo:margin-left="0.3937in" fo:margin-right="0in" fo:text-indent="-0.1965in" style:auto-text-indent="false">
            <style:tab-stops>
             <style:tab-stop style:position="0in"/>
            </style:tab-stops>
           </style:paragraph-properties>
          </style:style>
          <text:outline-style style:name="Outline">
           <text:outline-level-style text:level="1" style:num-format="">
            <style:list-level-properties text:list-level-position-and-space-mode="label-alignment">
             <style:list-level-label-alignment text:label-followed-by="listtab"/>
            </style:list-level-properties>
           </text:outline-level-style>
           <text:outline-level-style text:level="2" style:num-format="">
            <style:list-level-properties text:list-level-position-and-space-mode="label-alignment">
             <style:list-level-label-alignment text:label-followed-by="listtab"/>
            </style:list-level-properties>
           </text:outline-level-style>
           <text:outline-level-style text:level="3" style:num-format="">
            <style:list-level-properties text:list-level-position-and-space-mode="label-alignment">
             <style:list-level-label-alignment text:label-followed-by="listtab"/>
            </style:list-level-properties>
           </text:outline-level-style>
           <text:outline-level-style text:level="4" style:num-format="">
            <style:list-level-properties text:list-level-position-and-space-mode="label-alignment">
             <style:list-level-label-alignment text:label-followed-by="listtab"/>
            </style:list-level-properties>
           </text:outline-level-style>
           <text:outline-level-style text:level="5" style:num-format="">
            <style:list-level-properties text:list-level-position-and-space-mode="label-alignment">
             <style:list-level-label-alignment text:label-followed-by="listtab"/>
            </style:list-level-properties>
           </text:outline-level-style>
           <text:outline-level-style text:level="6" style:num-format="">
            <style:list-level-properties text:list-level-position-and-space-mode="label-alignment">
             <style:list-level-label-alignment text:label-followed-by="listtab"/>
            </style:list-level-properties>
           </text:outline-level-style>
           <text:outline-level-style text:level="7" style:num-format="">
            <style:list-level-properties text:list-level-position-and-space-mode="label-alignment">
             <style:list-level-label-alignment text:label-followed-by="listtab"/>
            </style:list-level-properties>
           </text:outline-level-style>
           <text:outline-level-style text:level="8" style:num-format="">
            <style:list-level-properties text:list-level-position-and-space-mode="label-alignment">
             <style:list-level-label-alignment text:label-followed-by="listtab"/>
            </style:list-level-properties>
           </text:outline-level-style>
           <text:outline-level-style text:level="9" style:num-format="">
            <style:list-level-properties text:list-level-position-and-space-mode="label-alignment">
             <style:list-level-label-alignment text:label-followed-by="listtab"/>
            </style:list-level-properties>
           </text:outline-level-style>
           <text:outline-level-style text:level="10" style:num-format="">
            <style:list-level-properties text:list-level-position-and-space-mode="label-alignment">
             <style:list-level-label-alignment text:label-followed-by="listtab"/>
            </style:list-level-properties>
           </text:outline-level-style>
          </text:outline-style>
          <text:notes-configuration text:note-class="footnote" style:num-format="1" text:start-value="0" text:footnotes-position="page" text:start-numbering-at="document"/>
          <text:notes-configuration text:note-class="endnote" style:num-format="i" text:start-value="0"/>
          <text:linenumbering-configuration text:number-lines="false" text:offset="0.1965in" style:num-format="1" text:number-position="left" text:increment="5"/>
          <style:default-page-layout>
           <style:page-layout-properties style:writing-mode="lr-tb" style:layout-grid-standard-mode="true"/>
          </style:default-page-layout>
         </office:styles>
         <office:automatic-styles>
          <style:style style:name="GlossTable" style:family="table">
           <style:table-properties style:width="7.1799in" fo:margin-left="-0.2597in" fo:margin-top="0in" fo:margin-bottom="0in" table:align="left" fo:background-color="transparent" style:may-break-between-rows="false" style:writing-mode="lr-tb">
            <style:background-image/>
           </style:table-properties>
          </style:style>
          <style:style style:name="GlossTable.A" style:family="table-column">
           <style:table-column-properties style:column-width="0.2563in"/>
          </style:style>
          <style:style style:name="GlossTable.B" style:family="table-column">
           <style:table-column-properties style:column-width="3.4236in"/>
          </style:style>
          <style:style style:name="GlossTable.C" style:family="table-column">
           <style:table-column-properties style:column-width="3.5in"/>
          </style:style>
          <style:style style:name="GlossTableCell" style:family="table-cell">
           <style:table-cell-properties fo:padding-left="0in" fo:padding-right="0.1201in" fo:padding-top="0.1097in" fo:padding-bottom="0in" fo:border="none"/>
          </style:style>
          <style:style style:name="GlossTableRow" style:family="table-row">
           <style:table-row-properties fo:keep-together="always"/>
          </style:style>
          <style:style style:name="VerseTable" style:family="table">
           <style:table-properties style:width="6.925in" style:may-break-between-rows="false" table:align="margins" style:writing-mode="lr-tb"/>
          </style:style>
          <style:style style:name="VerseTable.A" style:family="table-column">
           <style:table-column-properties style:column-width="1.2139in" style:rel-column-width="1748*"/>
          </style:style>
          <style:style style:name="VerseTable.B" style:family="table-column">
           <style:table-column-properties style:column-width="4.0625in" style:rel-column-width="5850*"/>
          </style:style>
          <style:style style:name="VerseTable.C" style:family="table-column">
           <style:table-column-properties style:column-width="1.6486in" style:rel-column-width="2374*"/>
          </style:style>
          <style:style style:name="VerseTable.A1" style:family="table-cell">
           <style:table-cell-properties fo:padding="0.0201in" fo:border="none" style:writing-mode="page"/>
          </style:style>
          <style:style style:name="P1" style:family="paragraph" style:parent-style-name="GlossInlineSections">
           <style:paragraph-properties fo:text-align="justify" style:justify-single-word="false"/>
          </style:style>
          <style:style style:name="P2" style:family="paragraph" style:parent-style-name="GlossTableDef">
           <style:paragraph-properties fo:orphans="0" fo:widows="0"/>
          </style:style>
          <style:style style:name="P3" style:family="paragraph" style:parent-style-name="GlossTableLemma">
           <style:paragraph-properties fo:margin-left="0.5in" fo:margin-right="0in" fo:line-height="100%" fo:text-align="start" style:justify-single-word="false" fo:orphans="0" fo:widows="0" fo:text-indent="-0.5in" style:auto-text-indent="false" style:writing-mode="lr-tb"/>
          </style:style>
          <style:style style:name="P4" style:family="paragraph" style:parent-style-name="GlossTableLemma">
           <style:paragraph-properties fo:margin-left="0.5in" fo:margin-right="0in" fo:line-height="100%" fo:text-align="end" style:justify-single-word="false" fo:orphans="0" fo:widows="0" fo:text-indent="-0.5in" style:auto-text-indent="false" style:writing-mode="lr-tb"/>
          </style:style>
          <style:style style:name="P5" style:family="paragraph" style:parent-style-name="Standard">
           <style:paragraph-properties fo:line-height="150%" fo:text-align="start" style:justify-single-word="false" style:writing-mode="lr-tb"/>
          </style:style>
          <style:style style:name="WorkTitleCenter" style:family="paragraph" style:parent-style-name="Standard">
           <style:paragraph-properties fo:line-height="150%" fo:text-align="center" style:justify-single-word="false" style:writing-mode="lr-tb"/>
           <style:text-properties style:font-name="IFAO-Grec Unicode" fo:font-weight="bold" style:font-weight-asian="bold" style:font-weight-complex="bold"/>
          </style:style>
          <style:style style:name="P7" style:family="paragraph" style:parent-style-name="Standard">
           <style:paragraph-properties fo:line-height="150%" fo:text-align="start" style:justify-single-word="false" style:writing-mode="lr-tb"/>
           <style:text-properties style:font-name="IFAO-Grec Unicode"/>
          </style:style>
          <style:style style:name="P8" style:family="paragraph" style:parent-style-name="GlossTableLemma">
           <style:paragraph-properties fo:margin-left="0in" fo:margin-right="0in" fo:line-height="100%" fo:text-align="end" style:justify-single-word="false" fo:orphans="0" fo:widows="0" fo:text-indent="0in" style:auto-text-indent="false" style:writing-mode="lr-tb"/>
          </style:style>
          <style:style style:name="PageBreakStyle" style:family="paragraph" style:parent-style-name="Standard">
           <style:paragraph-properties fo:text-align="justify" style:justify-single-word="false" fo:break-before="page"/>
           <style:text-properties officeooo:paragraph-rsid="0026e103"/>
          </style:style>
          <style:style style:name="T1" style:family="text">
           <style:text-properties style:font-name="IFAO-Grec Unicode" fo:font-weight="bold" style:font-weight-asian="bold" style:font-weight-complex="bold"/>
          </style:style>
          <style:style style:name="T2" style:family="text">
           <style:text-properties fo:font-style="italic" style:font-style-asian="italic" style:font-style-complex="italic"/>
          </style:style>
          <style:style style:name="T3" style:family="text">
           <style:text-properties style:text-position="super 58%"/>
          </style:style>
          <style:style style:name="P18" style:family="paragraph" style:parent-style-name="GlossInlineSections">
           <style:paragraph-properties fo:text-align="center" style:justify-single-word="false"/>
           <style:text-properties officeooo:rsid="00283989" officeooo:paragraph-rsid="00283989"/>
          </style:style>
          <style:style style:name="FooterStyle" style:family="paragraph" style:parent-style-name="Standard">
           <style:paragraph-properties fo:text-align="center" style:justify-single-word="false"/>
           <style:text-properties officeooo:rsid="00283989" officeooo:paragraph-rsid="00283989"/>
          </style:style>
          <style:style style:name="HeaderRight" style:family="paragraph" style:parent-style-name="Header">
           <style:paragraph-properties fo:text-align="end" style:justify-single-word="false"/>
           <style:text-properties officeooo:rsid="00283989" officeooo:paragraph-rsid="00283989"/>
          </style:style>
          <style:style style:name="HeaderLeft" style:family="paragraph" style:parent-style-name="Header">
           <style:text-properties officeooo:rsid="00283989" officeooo:paragraph-rsid="00283989"/>
          </style:style>
          <style:page-layout style:name="pm1">
           <style:page-layout-properties fo:page-width="8.5in" fo:page-height="11in" style:num-format="1" style:print-orientation="portrait" fo:margin-top="0.7874in" fo:margin-bottom="0.7874in" fo:margin-left="0.7874in" fo:margin-right="0.7874in" style:writing-mode="lr-tb" style:layout-grid-color="#c0c0c0" style:layout-grid-lines="136" style:layout-grid-base-height="0.0693in" style:layout-grid-ruby-height="0in" style:layout-grid-mode="none" style:layout-grid-ruby-below="false" style:layout-grid-print="false" style:layout-grid-display="false" style:layout-grid-base-width="0.1665in" style:layout-grid-snap-to="true" style:footnote-max-height="0in">
            <style:footnote-sep style:width="0.0071in" style:distance-before-sep="0.0398in" style:distance-after-sep="0.0398in" style:line-style="solid" style:adjustment="left" style:rel-width="25%" style:color="#000000"/>
           </style:page-layout-properties>
           <style:header-style/>
           <style:footer-style/>
          </style:page-layout>
         </office:automatic-styles>
         <office:master-styles>
          <style:master-page style:name="Standard" style:page-layout-name="pm1">
          <style:header>
           <text:p text:style-name="HeaderRight">%MAIN_TITLE%</text:p>
          </style:header>
          <style:header-left>
           <text:p text:style-name="HeaderLeft">LGI - UPPER LEVEL GREEK</text:p>
          </style:header-left>
          <style:header-first>
           <text:p text:style-name="HeaderLeft"></text:p>
          </style:header-first>
          <style:footer>
          <text:p text:style-name="FooterStyle"><text:bookmark-start text:name="PageNumWizard_FOOTER_Default Page Style1"/><text:page-number text:select-page="current">1</text:page-number><text:bookmark-end text:name="PageNumWizard_FOOTER_Default Page Style1"/></text:p>
          </style:footer>
          <style:footer-first>
           <text:p text:style-name="FooterStyle"><text:bookmark-start text:name="PageNumWizard_FOOTER_Default Page Style1"/><text:page-number text:select-page="current">1</text:page-number><text:bookmark-end text:name="PageNumWizard_FOOTER_Default Page Style1"/></text:p>
          </style:footer-first>
         </style:master-page>
         </office:master-styles>
         <office:body>
          <office:text>
           <text:sequence-decls>
            <text:sequence-decl text:display-outline-level="0" text:name="Illustration"/>
            <text:sequence-decl text:display-outline-level="0" text:name="Table"/>
            <text:sequence-decl text:display-outline-level="0" text:name="Text"/>
            <text:sequence-decl text:display-outline-level="0" text:name="Drawing"/>
            <text:sequence-decl text:display-outline-level="0" text:name="Figure"/>
           </text:sequence-decls>
"##, title, start_page)
    }

    fn make_index(&self, arrowed_words_index: &[ArrowedWordsIndex]) -> String {
        String::new()
    }

    fn blank_page(&self) -> String {
        String::from_str("\n<text:p text:style-name=\"PageBreakStyle\"/>\n")
    }
}

} // verus!
