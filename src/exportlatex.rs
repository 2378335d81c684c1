//! LaTeX output.
use crate::document::ExportDocument;
use crate::page_glosses::{entries_view, entry_view};
use crate::model::{ArrowedState, ArrowedWordsIndex, GlossOccurrance, WordType, WordUuid};
use crate::render::{
    before_comma, closing_punctuation, fill_template, filled_template, is_closing_punctuation,
    opens_group, section_numbers, section_parts, section_text, text_is, up_to_comma, verse_number,
};
use crate::text::{
    chars_of, decimal, i32_multiple_of_five, parsed_i32, push_decimal, replace_literal, replaced, string_of,
};
use std::collections::HashMap;
use vstd::prelude::*;
use vstd::string::*;

verus! {

broadcast use vstd::std_specs::hash::group_hash_axioms;

/// `s` with LaTeX's special characters escaped and `<i>`, `<b>` markup
/// turned into `\textit`, `\textbf`, one replacement after another.
pub open spec fn latex_escaped(s: Seq<char>) -> Seq<char> {
    let s0 = replaced(s, "\\"@, "\\textbackslash"@);
    let s1 = replaced(s0, "{"@, "\\{"@);
    let s2 = replaced(s1, "}"@, "\\}"@);
    let s3 = replaced(s2, "<i>"@, "\\textit{"@);
    let s4 = replaced(s3, "</i>"@, "}"@);
    let s5 = replaced(s4, "<b>"@, "\\textbf{"@);
    let s6 = replaced(s5, "</b>"@, "}"@);
    let s7 = replaced(s6, "&"@, "\\&"@);
    let s8 = replaced(s7, "%"@, "\\%"@);
    let s9 = replaced(s8, "$"@, "\\$"@);
    let s10 = replaced(s9, "#"@, "\\#"@);
    let s11 = replaced(s10, "_"@, "\\_"@);
    let s12 = replaced(s11, "~"@, "\\textasciitilde"@);
    let s13 = replaced(s12, "^"@, "\\textasciicircum"@);
    s13
}

/// `s` escaped as `latex_escaped` says.
pub fn escape_latex(s: &str) -> (r: String)
    ensures
        r@ == latex_escaped(s@),
{
    proof {
        reveal_strlit("\\");
        reveal_strlit("{");
        reveal_strlit("}");
        reveal_strlit("<i>");
        reveal_strlit("</i>");
        reveal_strlit("<b>");
        reveal_strlit("</b>");
        reveal_strlit("&");
        reveal_strlit("%");
        reveal_strlit("$");
        reveal_strlit("#");
        reveal_strlit("_");
        reveal_strlit("~");
        reveal_strlit("^");
    }
    let v = chars_of(s);
    let v = replace_literal(&v, "\\", "\\textbackslash");
    let v = replace_literal(&v, "{", "\\{");
    let v = replace_literal(&v, "}", "\\}");
    let v = replace_literal(&v, "<i>", "\\textit{");
    let v = replace_literal(&v, "</i>", "}");
    let v = replace_literal(&v, "<b>", "\\textbf{");
    let v = replace_literal(&v, "</b>", "}");
    let v = replace_literal(&v, "&", "\\&");
    let v = replace_literal(&v, "%", "\\%");
    let v = replace_literal(&v, "$", "\\$");
    let v = replace_literal(&v, "#", "\\#");
    let v = replace_literal(&v, "_", "\\_");
    let v = replace_literal(&v, "~", "\\textasciitilde");
    let v = replace_literal(&v, "^", "\\textasciicircum");
    string_of(&v)
}

/// The verse number as shown in the last column: a number that parses as
/// an `i32` is shown only when it is a multiple of 5; `otherwise` stands
/// for text that does not parse.
pub open spec fn shown_number(num: Seq<char>, otherwise: Seq<char>) -> Seq<char> {
    match parsed_i32(num) {
        Some(i) => if i % 5 == 0 {
            num
        } else {
            Seq::empty()
        },
        None => otherwise,
    }
}

/// The speaker column: the speaker's name, or nothing.
pub open spec fn speaker_text(sp: Option<String>) -> Seq<char> {
    match sp {
        Some(x) => x@,
        None => Seq::empty(),
    }
}

/// One row of the verse table: speaker, line and shown number, separated
/// by `&` and ended by a line break.
pub open spec fn latex_verse_line(sp: Option<String>, line: Seq<char>, num: Seq<char>) -> Seq<char> {
    speaker_text(sp) + " & "@ + line + " & "@ + shown_number(num, num) + " \\\\\n"@
}

/// One row of the verse table.
pub fn complete_verse_line(
    verse_speaker: Option<String>,
    verse_line: &str,
    verse_line_number: &str,
) -> (r: String)
    ensures
        r@ == latex_verse_line(verse_speaker, verse_line@, verse_line_number@),
{
    let num = chars_of(verse_line_number);
    let shown: String = match i32_multiple_of_five(&num) {
        Some(true) => String::from_str(verse_line_number),
        Some(false) => String::new(),
        None => String::from_str(verse_line_number),
    };
    let mut r = match &verse_speaker {
        Some(x) => x.clone(),
        None => String::new(),
    };
    r.append(" & ");
    r.append(verse_line);
    r.append(" & ");
    r.append(shown.as_str());
    r.append(" \\\\\n");
    r
}


/// The lines of the LaTeX index for `entries`, and how many lines stand on
/// the current index page: each line is the lemma up to its first comma, a
/// dotted fill and the page number; a page break follows every 44 lines.
pub open spec fn latex_index_lines(entries: Seq<(Seq<char>, Seq<char>, usize)>) -> (Seq<char>, nat)
    decreases entries.len(),
{
    if entries.len() == 0 {
        (Seq::empty(), 0)
    } else {
        let (prev, count) = latex_index_lines(entries.drop_last());
        let e = entries.last();
        let line = prev + up_to_comma(e.0) + " \\dotfill "@ + decimal(e.2 as nat) + " \\\\ \n"@;
        if count + 1 > 43 {
            (line + "\\newpage \n"@ + "\\noindent \n"@, 0)
        } else {
            (line, count + 1)
        }
    }
}

/// The state of the LaTeX running text after some words: markup so far,
/// whether the next word takes no space, whether a verse table is open, the
/// verse line's speaker, text and number, and the apparatus notes met.
pub type LatexRun = (Seq<char>, bool, bool, Option<String>, Seq<char>, Seq<char>, Seq<String>);

/// The LaTeX running text after word `w`.
pub open spec fn latex_step(st: LatexRun, w: GlossOccurrance, notes: Map<WordUuid, String>) -> LatexRun {
    let (res, prev, verse, sp, line, num, aps0) = st;
    let aps = if notes.contains_key(w.word.uuid) { aps0.push(notes[w.word.uuid]) } else { aps0 };
    let word = w.word.word@;
    match w.word.word_type {
        WordType::VerseLine => if !verse {
            (res + r#"
\end{spacing}
\begin{tabular}%https://tex.stackexchange.com/questions/338009/right-alignment-for-plength-box-in-tabular
  {>{\raggedright\arraybackslash}p{1cm}%
   >{\raggedright\arraybackslash}p{9.5cm}%
   >{\raggedleft\arraybackslash}p{2cm}%
  }"#@, prev, true, sp, line, replaced(word, "[line]"@, ""@), aps)
        } else {
            (res + latex_verse_line(sp, line, num), prev, true, None, Seq::empty(), replaced(word, "[line]"@, ""@), aps)
        },
        WordType::WorkTitle => (res + "\\begin{center}\\noindent\\textbf{"@ + latex_escaped(word) + "}\\par\\end{center}\n"@, prev, verse, sp, line, num, aps),
        WordType::Word | WordType::Punctuation => {
            let spaced = if !(is_closing_punctuation(word) || prev) { Seq::<char>::empty() + " "@ } else { Seq::<char>::empty() };
            let tw = spaced + word;
            let next_prev = word == "<"@ || word == "["@ || word == "("@;
            if verse {
                (res, next_prev, verse, sp, line + tw, num, aps)
            } else {
                (res + tw, next_prev, verse, sp, line, num, aps)
            }
        },
        WordType::ParaWithIndent => (res + "\n\\par\n"@, prev, verse, sp, line, num, aps),
        WordType::ParaNoIndent => (res + "\n\\noindent\n"@, prev, verse, sp, line, num, aps),
        WordType::Section => {
            let input = replaced(word, "[section]"@, ""@);
            let r1 = match section_parts(input) {
                Some((a, b)) => if b == "1"@ {
                    res + "\\hspace{0pt}\\marginsec{"@ + a + "} "@
                } else {
                    res + "\\hspace{0pt}\\marginseclight{"@ + b + "} "@
                },
                None => res + "\\hspace{0pt}\\marginsec{"@ + input + "} "@,
            };
            (r1, true, verse, sp, line, num, aps)
        },
        WordType::Speaker => (res + "\\begin{center}"@ + word + "\\end{center}"@, prev, verse, sp, line, num, aps),
        WordType::InlineSpeaker => if verse {
            (res, prev, verse, Some(w.word.word), line, num, aps)
        } else {
            (res + "\\par \\textbf{"@ + word + "} "@, prev, verse, sp, line, num, aps)
        },
        _ => (res, prev, verse, sp, line, num, aps),
    }
}

/// The LaTeX running text after the first `k` words of `occ`.
pub open spec fn latex_run(occ: Seq<GlossOccurrance>, notes: Map<WordUuid, String>, k: nat) -> LatexRun
    decreases k,
{
    if k == 0 {
        (Seq::empty(), true, false, None, Seq::empty(), Seq::empty(), Seq::empty())
    } else {
        latex_step(latex_run(occ, notes, (k - 1) as nat), occ[k - 1], notes)
    }
}

/// The apparatus notes of a page, escaped, one line each.
pub open spec fn latex_notes(aps: Seq<String>) -> Seq<char>
    decreases aps.len(),
{
    if aps.len() == 0 {
        Seq::empty()
    } else {
        latex_notes(aps.drop_last()) + latex_escaped(aps.last()@) + "\\\\\n"@
    }
}

/// The LaTeX running text of occurrences `occ`: every word, then the last
/// verse line and the end of the verse table or the end of the text block,
/// then the apparatus notes.
pub open spec fn latex_text(occ: Seq<GlossOccurrance>, notes: Map<WordUuid, String>) -> Seq<char> {
    let (res, prev, verse, sp, line, num, aps) = latex_run(occ, notes, occ.len());
    let r1 = if verse {
        res + latex_verse_line(sp, line, num) + "~\\\\\n\\end{tabular}"@
    } else {
        res + "\\hspace*{\\fill}\n\\end{spacing}\n"@
    };
    let r2 = if aps.len() > 0 { r1 + "~\\\\\n"@ } else { r1 };
    r2 + latex_notes(aps)
}

/// LaTeX output: each page a text block over a table of glosses.
pub struct ExportLatex {}

impl ExportDocument for ExportLatex {
    open spec fn text_markup(&self, occ: Seq<GlossOccurrance>, notes: Map<WordUuid, String>) -> Seq<char> {
        latex_text(occ, notes)
    }

    open spec fn gloss_entry_text(&self, o: GlossOccurrance, lemma: Option<Seq<char>>) -> Seq<char> {
        if o.arrowed_state == ArrowedState::Invisible {
            Seq::empty()
        } else {
            let arrow = if o.arrowed_state == ArrowedState::Arrowed { "\\textbf{→}"@ } else { Seq::empty() };
            let l = match lemma { Some(x) => latex_escaped(x), None => Seq::empty() };
            let d = match o.gloss { Some(g) => latex_escaped(g.def@), None => Seq::empty() };
            arrow + " & "@ + l + " & "@ + d + " \\\\\n"@
        }
    }

    open spec fn page_start_text(&self, title: Seq<char>, page_number: usize) -> Seq<char> {
        "\\fancyhead[OR]{"@ + title + "}\n\\begin{spacing}{\\GlossLineSpacing}\n\\noindent\n"@
    }

    open spec fn page_end_text(&self) -> Seq<char> {
        "\\end{tabular}\n\\end{table}\n\\newpage\n"@
    }

    open spec fn gloss_list_start_text(&self) -> Seq<char> {
        "\\begin{table}[b!]\\leftskip -0.84cm\n\\begin{tabular}{ m{0.2cm} L{3.25in} D{3.1in} }\n"@
    }

    open spec fn document_end_text(&self) -> Seq<char> {
        "\\end{document}\n"@
    }

    open spec fn document_start_text(&self, title: Seq<char>, start_page: usize) -> Seq<char> {
        filled_template("\\documentclass[twoside,openright,12pt,letterpaper]{book}\n%\\usepackage[margin=1.0in]{geometry}\n\\usepackage[twoside, margin=1.0in]{geometry} %bindingoffset=0.5in,\n\\usepackage[utf8]{inputenc}\n\\usepackage{fontspec}\n\\usepackage{array}\n\\usepackage{booktabs}\n\\usepackage{ragged2e}\n\\usepackage{setspace}\n\\usepackage{navigator}\n\n\\newcommand{\\GlossLineSpacing}{1.5}\n\n\n\\setmainfont[Scale=MatchUppercase,Ligatures=TeX, BoldFont={*BOLD}, ItalicFont={IFAOGrec.ttf}, ItalicFeatures={FakeSlant=0.2}]{IFAOGrec.ttf}\n%\\setmainlanguage[variant=polytonic]{greek}\n\\tolerance=10000 % https://www.texfaq.org/FAQ-overfull\n\\setlength{\\extrarowheight}{8pt}\n\\newcolumntype{L}{>{\\setlength{\\RaggedRight\\parindent}{-2em}\\leftskip 2em}p}\n\\newcolumntype{D}{>{\\setlength{\\RaggedRight}}p}\n\n\\usepackage{fancyhdr} % http://tug.ctan.org/tex-archive/macros/latex/contrib/fancyhdr/fancyhdr.pdf\n\n\\pagestyle{fancy}\n\\fancyhf{}\n\\renewcommand{\\headrulewidth}{0.0pt}\n  \\fancyhead[EL]{%MAIN_TITLE%}% Title on Even page, Centered\n  \\fancyhead[OR]{}% Author on Odd page, Centered\n\\setlength{\\headheight}{14.49998pt}\n\\cfoot{\\thepage}\n\n%\\usepackage{enumitem}\n%\\SetLabelAlign{margin}{\\llap{#1~~}}\n%\\usepackage{showframe} % just to show the margins\n%https://tex.stackexchange.com/questions/223701/labels-in-the-left-margin\n\n%https://tex.stackexchange.com/questions/40748/use-sections-inline\n\\newcommand{\\marginsec}[1]{\\vadjust{\\vbox to 0pt{\\sbox0{\\bfseries#1\\quad}\\kern-0.89em\\llap{\\box0}}}}\n\\newcommand{\\marginseclight}[1]{\\vadjust{\\vbox to 0pt{\\sbox0{\\footnotesize#1\\hspace{0.25em}\\quad}\\kern-0.85em\\llap{\\box0}}}}\n\\usepackage[none]{hyphenat}\n\\usepackage[polutonikogreek,english]{babel} %https://tex.stackexchange.com/questions/13067/utf8x-vs-utf8-inputenc\n\\usepackage{microtype}\n\\begin{document}\n%\\clearpage\n\\setcounter{page}{%PAGE_NUM%}\n%\\newpage\n%\\mbox{}\n\\newpage\n"@, title, start_page as nat)
    }

    open spec fn index_text(&self, entries: Seq<(Seq<char>, Seq<char>, usize)>) -> Seq<char> {
        "\n        \\newpage\n        \\fancyhead[OR]{INDEX OF ARROWED WORDS}\n        %\\begin{spacing}{\\GlossLineSpacing}\n        \\noindent\n        "@ + latex_index_lines(entries).0
    }

    open spec fn blank_page_text(&self) -> Seq<char> {
        "\\fancyhead[OR]{}\n\\begin{spacing}{\\GlossLineSpacing}\n\\noindent\n\\hspace*{\\fill}\n\\end{spacing}\n\\begin{table}[b!]\\leftskip -0.84cm\n\\begin{tabular}{ m{0.2cm} L{3.25in} D{3.1in} }\n\\end{tabular}\n\\end{table}\n\\newpage\n"@
    }

    fn gloss_entry(&self, gloss_occurrance: &GlossOccurrance, lemma: Option<&str>) -> String {
        if gloss_occurrance.arrowed_state == ArrowedState::Invisible {
            return String::new();
        }
        let mut r = String::new();
        if gloss_occurrance.arrowed_state == ArrowedState::Arrowed {
            r.append("\\textbf{→}");
        }
        r.append(" & ");
        let lemma_text = match lemma {
            Some(l) => escape_latex(l),
            None => String::new(),
        };
        r.append(lemma_text.as_str());
        r.append(" & ");
        let def = match &gloss_occurrance.gloss {
            Some(g) => escape_latex(g.def.as_str()),
            None => String::new(),
        };
        r.append(def.as_str());
        r.append(" \\\\\n");
        r
    }

    fn make_text(
        &self,
        gloss_occurrances: &[GlossOccurrance],
        appcrit_hash: &HashMap<WordUuid, String>,
    ) -> String {
        let mut res = String::new();
        let mut prev_non_space = true;
        let mut is_verse_section = false;
        let mut verse_speaker: Option<String> = None;
        let mut verse_line = String::new();
        let mut verse_line_number = String::new();
        let mut appcrits_page: Vec<String> = Vec::new();
        let mut i: usize = 0;
        while i < gloss_occurrances.len()
            invariant
                i <= gloss_occurrances@.len(),
                (res@, prev_non_space, is_verse_section, verse_speaker, verse_line@, verse_line_number@,
                    appcrits_page@) == latex_run(gloss_occurrances@, appcrit_hash@, i as nat),
            decreases gloss_occurrances@.len() - i,
        {
            let w = &gloss_occurrances[i];
            match appcrit_hash.get(&w.word.uuid) {
                Some(ap) => appcrits_page.push(ap.clone()),
                None => {},
            }
            match w.word.word_type {
                WordType::VerseLine => {
                    if !is_verse_section {
                        res.append(r#"
\end{spacing}
\begin{tabular}%https://tex.stackexchange.com/questions/338009/right-alignment-for-plength-box-in-tabular
  {>{\raggedright\arraybackslash}p{1cm}%
   >{\raggedright\arraybackslash}p{9.5cm}%
   >{\raggedleft\arraybackslash}p{2cm}%
  }"#);
                        is_verse_section = true;
                    } else {
                        let line = complete_verse_line(
                            verse_speaker,
                            verse_line.as_str(),
                            verse_line_number.as_str(),
                        );
                        res.append(line.as_str());
                        verse_speaker = None;
                        verse_line = String::new();
                    }
                    verse_line_number = verse_number(w.word.word.as_str());
                },
                WordType::WorkTitle => {
                    let title = escape_latex(w.word.word.as_str());
                    res.append("\\begin{center}\\noindent\\textbf{");
                    res.append(title.as_str());
                    res.append("}\\par\\end{center}\n");
                },
                WordType::Word | WordType::Punctuation => {
                    let mut s = String::new();
                    if !(closing_punctuation(w.word.word.as_str()) || prev_non_space) {
                        s.append(" ");
                    }
                    s.append(w.word.word.as_str());
                    if is_verse_section {
                        verse_line.append(s.as_str());
                    } else {
                        res.append(s.as_str());
                    }
                    prev_non_space = opens_group(w.word.word.as_str());
                },
                WordType::ParaWithIndent => res.append("\n\\par\n"),
                WordType::ParaNoIndent => res.append("\n\\noindent\n"),
                WordType::Section => {
                    let section_input = section_text(w.word.word.as_str());
                    match section_numbers(section_input.as_str()) {
                        Some((section, subsection)) => {
                            if text_is(subsection.as_str(), "1") {
                                res.append("\\hspace{0pt}\\marginsec{");
                                res.append(section.as_str());
                                res.append("} ");
                            } else {
                                res.append("\\hspace{0pt}\\marginseclight{");
                                res.append(subsection.as_str());
                                res.append("} ");
                            }
                        },
                        None => {
                            res.append("\\hspace{0pt}\\marginsec{");
                            res.append(section_input.as_str());
                            res.append("} ");
                        },
                    }
                    prev_non_space = true;
                },
                WordType::Speaker => {
                    res.append("\\begin{center}");
                    res.append(w.word.word.as_str());
                    res.append("\\end{center}");
                },
                WordType::InlineSpeaker => {
                    if is_verse_section {
                        verse_speaker = Some(w.word.word.clone());
                    } else {
                        res.append("\\par \\textbf{");
                        res.append(w.word.word.as_str());
                        res.append("} ");
                    }
                },
                _ => {},
            }
            i += 1;
        }
        if is_verse_section {
            let line = complete_verse_line(verse_speaker, verse_line.as_str(), verse_line_number.as_str());
            res.append(line.as_str());
            res.append("~\\\\\n\\end{tabular}");
        } else {
            res.append("\\hspace*{\\fill}\n\\end{spacing}\n");
        }
        if appcrits_page.len() > 0 {
            res.append("~\\\\\n");
        }
        let mut k: usize = 0;
        let ghost base = res@;
        proof {
            assert(appcrits_page@.take(0) =~= Seq::<String>::empty());
            assert(base + latex_notes(appcrits_page@.take(0)) =~= base);
        }
        while k < appcrits_page.len()
            invariant
                k <= appcrits_page@.len(),
                res@ == base + latex_notes(appcrits_page@.take(k as int)),
            decreases appcrits_page@.len() - k,
        {
            proof {
                assert(appcrits_page@.take(k + 1).drop_last() =~= appcrits_page@.take(k as int));
            }
            let ap = escape_latex(appcrits_page[k].as_str());
            res.append(ap.as_str());
            res.append("\\\\\n");
            k += 1;
        }
        proof {
            assert(appcrits_page@.take(appcrits_page@.len() as int) =~= appcrits_page@);
        }
        res
    }

    fn page_gloss_start(&self) -> String {
        String::from_str("\\begin{table}[b!]\\leftskip -0.84cm\n\\begin{tabular}{ m{0.2cm} L{3.25in} D{3.1in} }\n")
    }

    fn page_start(&self, title: &str, page_number: usize) -> String {
        let mut r = String::new();
        r.append("\\fancyhead[OR]{");
        r.append(title);
        r.append("}\n\\begin{spacing}{\\GlossLineSpacing}\n\\noindent\n");
        r
    }

    fn page_end(&self) -> String {
        String::from_str("\\end{tabular}\n\\end{table}\n\\newpage\n")
    }

    fn document_end(&self) -> String {
        String::from_str("\\end{document}\n")
    }

    fn document_start(&self, title: &str, start_page: usize) -> String {
        fill_template(r#"\documentclass[twoside,openright,12pt,letterpaper]{book}
%\usepackage[margin=1.0in]{geometry}
\usepackage[twoside, margin=1.0in]{geometry} %bindingoffset=0.5in,
\usepackage[utf8]{inputenc}
\usepackage{fontspec}
\usepackage{array}
\usepackage{booktabs}
\usepackage{ragged2e}
\usepackage{setspace}
\usepackage{navigator}

\newcommand{\GlossLineSpacing}{1.5}


\setmainfont[Scale=MatchUppercase,Ligatures=TeX, BoldFont={*BOLD}, ItalicFont={IFAOGrec.ttf}, ItalicFeatures={FakeSlant=0.2}]{IFAOGrec.ttf}
%\setmainlanguage[variant=polytonic]{greek}
\tolerance=10000 % https://www.texfaq.org/FAQ-overfull
\setlength{\extrarowheight}{8pt}
\newcolumntype{L}{>{\setlength{\RaggedRight\parindent}{-2em}\leftskip 2em}p}
\newcolumntype{D}{>{\setlength{\RaggedRight}}p}

\usepackage{fancyhdr} % http://tug.ctan.org/tex-archive/macros/latex/contrib/fancyhdr/fancyhdr.pdf

\pagestyle{fancy}
\fancyhf{}
\renewcommand{\headrulewidth}{0.0pt}
  \fancyhead[EL]{%MAIN_TITLE%}% Title on Even page, Centered
  \fancyhead[OR]{}% Author on Odd page, Centered
\setlength{\headheight}{14.49998pt}
\cfoot{\thepage}

%\usepackage{enumitem}
%\SetLabelAlign{margin}{\llap{#1~~}}
%\usepackage{showframe} % just to show the margins
%https://tex.stackexchange.com/questions/223701/labels-in-the-left-margin

%https://tex.stackexchange.com/questions/40748/use-sections-inline
\newcommand{\marginsec}[1]{\vadjust{\vbox to 0pt{\sbox0{\bfseries#1\quad}\kern-0.89em\llap{\box0}}}}
\newcommand{\marginseclight}[1]{\vadjust{\vbox to 0pt{\sbox0{\footnotesize#1\hspace{0.25em}\quad}\kern-0.85em\llap{\box0}}}}
\usepackage[none]{hyphenat}
\usepackage[polutonikogreek,english]{babel} %https://tex.stackexchange.com/questions/13067/utf8x-vs-utf8-inputenc
\usepackage{microtype}
\begin{document}
%\clearpage
\setcounter{page}{%PAGE_NUM%}
%\newpage
%\mbox{}
\newpage
"#, title, start_page)
    }

    fn make_index(&self, arrowed_words_index: &[ArrowedWordsIndex]) -> String {
        let mut latex = String::from_str(r#"
        \newpage
        \fancyhead[OR]{INDEX OF ARROWED WORDS}
        %\begin{spacing}{\GlossLineSpacing}
        \noindent
        "#);
        let ghost ev = entries_view(arrowed_words_index@);
        let mut gloss_per_page: usize = 0;
        let mut k: usize = 0;
        proof {
            assert(ev.take(0) =~= Seq::<(Seq<char>, Seq<char>, usize)>::empty());
            assert(latex@ + Seq::<char>::empty() =~= latex@);
        }
        while k < arrowed_words_index.len()
            invariant
                k <= arrowed_words_index@.len(),
                ev == entries_view(arrowed_words_index@),
                latex@ == r#"
        \newpage
        \fancyhead[OR]{INDEX OF ARROWED WORDS}
        %\begin{spacing}{\GlossLineSpacing}
        \noindent
        "#@ + latex_index_lines(ev.take(k as int)).0,
                gloss_per_page == latex_index_lines(ev.take(k as int)).1,
                gloss_per_page <= 43,
            decreases arrowed_words_index@.len() - k,
        {
            let gloss = &arrowed_words_index[k];
            proof {
                assert(ev.take(k + 1).drop_last() =~= ev.take(k as int));
                assert(ev.take(k + 1).last() == entry_view(*gloss));
            }
            let lemma = before_comma(gloss.gloss_lemma.as_str());
            latex.append(lemma.as_str());
            latex.append(" \\dotfill ");
            push_decimal(&mut latex, gloss.page_number);
            latex.append(" \\\\ \n");
            gloss_per_page += 1;
            if gloss_per_page > 43 {
                gloss_per_page = 0;
                latex.append("\\newpage \n");
                latex.append("\\noindent \n");
            }
            k += 1;
        }
        proof {
            assert(ev.take(ev.len() as int) =~= ev);
        }
        latex
    }

    fn blank_page(&self) -> String {
        String::from_str(r#"\fancyhead[OR]{}
\begin{spacing}{\GlossLineSpacing}
\noindent
\hspace*{\fill}
\end{spacing}
\begin{table}[b!]\leftskip -0.84cm
\begin{tabular}{ m{0.2cm} L{3.25in} D{3.1in} }
\end{tabular}
\end{table}
\newpage
"#)
    }
}

} // verus!
