use glosser::document::sort_index;
use glosser::exporthtml::ExportHTML;
use glosser::exportlatex::ExportLatex;
use glosser::layout::{lay_out, PageSlot, TextPages};
use glosser::model::{
    ArrowedState, ArrowedWordsIndex, Gloss, GlossArrow, GlossOccurrance, GlossPageOptions,
    Glosses, Sequence, SequenceDescription, Text, TextDescription, Word, WordType,
};
use glosser::page_glosses::filter_and_sort_glosses;
use std::collections::BTreeMap;
use std::ops::Bound;
use std::ops::Bound::{Included, Unbounded};

fn text_pages(display: bool, occurrences: usize, plan: Vec<usize>) -> TextPages {
    TextPages {
        display,
        occurrences,
        plan,
    }
}

fn page(text: usize, start: usize, end: usize, page_number: usize, titled: bool) -> PageSlot {
    PageSlot::Page {
        text,
        start,
        end,
        page_number,
        titled,
    }
}

#[test]
fn pages_cover_each_text_and_texts_start_odd() {
    let texts = vec![
        text_pages(true, 10, vec![3, 3, 1]),
        text_pages(false, 5, vec![5]),
        text_pages(true, 4, vec![4]),
    ];
    let layout = lay_out(24, &texts, true);
    assert_eq!(
        layout.pages,
        vec![
            PageSlot::Blank { page_number: 24 },
            page(0, 0, 3, 25, false),
            page(0, 3, 6, 26, true),
            page(0, 6, 10, 27, true),
            PageSlot::Blank { page_number: 28 },
            page(2, 0, 4, 29, false),
            PageSlot::Blank { page_number: 30 },
        ]
    );
    assert!(layout.skipped.is_empty());
}

#[test]
fn overlong_planned_page_is_skipped_and_reported() {
    let texts = vec![text_pages(true, 5, vec![3, 4, 2])];
    let layout = lay_out(1, &texts, true);
    assert_eq!(
        layout.pages,
        vec![
            page(0, 0, 3, 1, false),
            page(0, 3, 5, 2, true),
            PageSlot::Blank { page_number: 3 },
            PageSlot::Blank { page_number: 4 },
        ]
    );
    assert_eq!(layout.skipped, vec![(0, 1)]);
}

#[test]
fn pages_without_separators_are_numbered_in_a_row() {
    let texts = vec![text_pages(true, 4, vec![2, 2]), text_pages(true, 1, vec![1])];
    let layout = lay_out(2, &texts, false);
    assert_eq!(
        layout.pages,
        vec![page(0, 0, 2, 2, false), page(0, 2, 4, 3, true), page(1, 0, 1, 4, false)]
    );
}

fn occurrence(kind: WordType, gloss: Option<(u128, &str)>, state: ArrowedState) -> GlossOccurrance {
    GlossOccurrance {
        word: Word {
            uuid: 1,
            gloss_uuid: gloss.map(|g| g.0),
            word_type: kind,
            word: String::from("w"),
        },
        gloss: gloss.map(|(id, sort)| Gloss {
            uuid: id,
            parent_id: None,
            lemma: format!("{}, x, y", sort),
            sort_alpha: String::from(sort),
            def: String::from("d"),
            pos: String::from("noun"),
            unit: 0,
            note: String::new(),
            updated: String::new(),
            status: 1,
            updated_user: String::new(),
        }),
        running_count: None,
        total_count: None,
        arrowed_state: state,
    }
}

fn ids(rows: &[GlossOccurrance]) -> Vec<Option<u128>> {
    rows.iter().map(|o| o.gloss.as_ref().map(|g| g.uuid)).collect()
}

fn page_occurrences() -> Vec<GlossOccurrance> {
    vec![
        occurrence(WordType::Word, Some((1, "Βητα")), ArrowedState::Visible),
        occurrence(WordType::Punctuation, None, ArrowedState::Visible),
        occurrence(WordType::Word, None, ArrowedState::Visible),
        occurrence(WordType::Word, Some((2, "αλφα")), ArrowedState::Invisible),
        occurrence(WordType::Word, Some((1, "Βητα")), ArrowedState::Arrowed),
        occurrence(WordType::Word, Some((3, "γαμμα")), ArrowedState::Visible),
    ]
}

#[test]
fn gloss_list_keeps_every_word_by_default() {
    let occ = page_occurrences();
    let mut index = vec![];
    let options = GlossPageOptions {
        filter_unique: false,
        filter_invisible: false,
        sort_alpha: false,
    };
    let rows = filter_and_sort_glosses(&occ, &mut index, 7, &options);
    assert_eq!(ids(&rows), vec![Some(1), None, Some(2), Some(1), Some(3)]);
    assert_eq!(index.len(), 1);
    assert_eq!(index[0].gloss_lemma, "Βητα");
    assert_eq!(index[0].gloss_sort, "Βητα");
    assert_eq!(index[0].page_number, 7);
}

#[test]
fn gloss_list_unique_prefers_the_arrowed_row() {
    let occ = page_occurrences();
    let mut index = vec![];
    let options = GlossPageOptions {
        filter_unique: true,
        filter_invisible: true,
        sort_alpha: false,
    };
    let rows = filter_and_sort_glosses(&occ, &mut index, 3, &options);
    assert_eq!(ids(&rows), vec![Some(1), Some(3)]);
    assert_eq!(rows[0].arrowed_state, ArrowedState::Arrowed);
    assert_eq!(index.len(), 1);
}

#[test]
fn gloss_list_unique_keeps_glossless_rows_when_invisibles_shown() {
    let occ = page_occurrences();
    let mut index = vec![];
    let options = GlossPageOptions {
        filter_unique: true,
        filter_invisible: false,
        sort_alpha: false,
    };
    let rows = filter_and_sort_glosses(&occ, &mut index, 3, &options);
    assert_eq!(ids(&rows), vec![Some(1), None, Some(2), Some(3)]);
    assert_eq!(rows[0].arrowed_state, ArrowedState::Arrowed);
}

#[test]
fn gloss_list_sorted_by_lowercase_key_with_glossless_rows_last() {
    let occ = page_occurrences();
    let mut index = vec![];
    let options = GlossPageOptions {
        filter_unique: false,
        filter_invisible: false,
        sort_alpha: true,
    };
    let rows = filter_and_sort_glosses(&occ, &mut index, 3, &options);
    assert_eq!(ids(&rows), vec![Some(2), Some(1), Some(1), Some(3), None]);
    assert_eq!(rows[1].arrowed_state, ArrowedState::Visible);
    assert_eq!(rows[2].arrowed_state, ArrowedState::Arrowed);
}

#[test]
fn index_sorted_by_lowercase_key() {
    let entry = |lemma: &str, sort: &str, page: usize| ArrowedWordsIndex {
        gloss_lemma: String::from(lemma),
        gloss_sort: String::from(sort),
        page_number: page,
    };
    let sorted = sort_index(&vec![entry("b", "Beta", 1), entry("a", "alpha", 2), entry("c", "beta", 3)]);
    let pages: Vec<usize> = sorted.iter().map(|e| e.page_number).collect();
    assert_eq!(pages, vec![2, 1, 3]);
}

fn lemma_gloss(uuid: u128, sort: &str, status: i32) -> Gloss {
    Gloss {
        uuid,
        parent_id: None,
        lemma: String::from(sort),
        sort_alpha: String::from(sort),
        def: String::new(),
        pos: String::new(),
        unit: 0,
        note: String::new(),
        updated: String::new(),
        status,
        updated_user: String::new(),
    }
}

fn lemma_sequence(glosses: Vec<Gloss>) -> Sequence {
    Sequence {
        sequence_description: SequenceDescription::default(),
        glosses: vec![Glosses {
            gloss_name: String::new(),
            gloss: glosses,
        }],
        texts: vec![],
    }
}

#[test]
fn lemma_index_lookup_around_a_key() {
    let seq = lemma_sequence(vec![
        lemma_gloss(1, "ααα", 1),
        lemma_gloss(2, "αββ", 1),
        lemma_gloss(3, "αγγ", 1),
        lemma_gloss(4, "αγδ", 1),
        lemma_gloss(5, "αβα", 0),
    ]);
    let (list, selected) = seq.get_glosses("αβγ", 2);
    let got: Vec<u128> = list.iter().map(|g| g.uuid).collect();
    assert_eq!(got, vec![2, 3, 4]);
    assert_eq!(selected, Some(3));
    let (list, selected) = seq.get_glosses("ω", 3);
    let got: Vec<u128> = list.iter().map(|g| g.uuid).collect();
    assert_eq!(got, vec![3, 4]);
    assert_eq!(selected, None);
    let (list, selected) = seq.get_glosses("α", 0);
    assert!(list.is_empty());
    assert_eq!(selected, None);
}

#[test]
fn lemma_index_later_gloss_replaces_same_key() {
    let seq = lemma_sequence(vec![lemma_gloss(1, "Λογος", 1), lemma_gloss(2, "λογος", 1)]);
    let (list, selected) = seq.get_glosses("λογος", 1);
    assert_eq!(list.len(), 1);
    assert_eq!(list[0].uuid, 2);
    assert_eq!(selected, Some(2));
}

#[test]
fn test_btree() {
    let mut b: BTreeMap<&str, usize> = BTreeMap::new();
    b.insert("ααα", 1);
    b.insert("αββ", 2);
    b.insert("αγγ", 3);
    b.insert("αγδ", 4);

    let search_key = "αβγ";
    let mut range_iter =
        b.range::<str, (Bound<&str>, Bound<&str>)>((Included(search_key), Unbounded));

    if let Some((key, value)) = range_iter.next() {
        println!(
            "First key >= {}: Key = {}, Value = {}",
            search_key, key, value
        );
    } else {
        println!("No key found equal to or greater than {}", search_key);
    }
}

fn small_book() -> Sequence {
    let g = lemma_gloss(9, "λόγος, -ου, ὁ", 1);
    let words = vec![
        Word {
            uuid: 1,
            gloss_uuid: None,
            word_type: WordType::Word,
            word: String::from("a"),
        },
        Word {
            uuid: 2,
            gloss_uuid: Some(9),
            word_type: WordType::Word,
            word: String::from("b"),
        },
        Word {
            uuid: 3,
            gloss_uuid: Some(9),
            word_type: WordType::Word,
            word: String::from("c"),
        },
    ];
    Sequence {
        sequence_description: SequenceDescription {
            name: String::from("Book"),
            start_page: 2,
            gloss_names: vec![],
            texts: vec![TextDescription {
                display: true,
                text: String::from("t"),
            }],
            arrowed_words: vec![GlossArrow {
                gloss_uuid: 9,
                word_uuid: 2,
            }],
        },
        glosses: vec![Glosses {
            gloss_name: String::new(),
            gloss: vec![g],
        }],
        texts: vec![Text {
            text_name: String::from("T"),
            words,
            appcrits: None,
            words_per_page: String::from("2, x, 5"),
        }],
    }
}

#[test]
fn document_through_a_sink() {
    let seq = small_book();
    assert!(seq.page_numbers_fit());
    let occ = seq.process().unwrap();
    let options = GlossPageOptions {
        filter_unique: false,
        filter_invisible: false,
        sort_alpha: false,
    };
    let doc = seq.make_document(&occ, &ExportHTML {}, &options);
    assert!(doc.starts_with("<html lang=\"en\">"));
    assert!(doc.ends_with("\n<!--INDEX-->\n\n</body></html>\n"));
    assert_eq!(doc.matches("<!--BLANK PAGE-->").count(), 3);
    let p3 = doc.find("<div class='PageTitle'> - Page 3</div>").unwrap();
    let p4 = doc.find("<div class='PageTitle'>T - Page 4</div>").unwrap();
    assert!(doc.find("<!--BLANK PAGE-->").unwrap() < p3);
    assert!(p3 < p4);
    assert!(doc[p3..p4].contains("arrowedHere"));
    assert!(doc[p4..].contains("alreadyArrowed"));

    let latex = seq.make_document(&occ, &ExportLatex {}, &options);
    assert!(latex.ends_with("λόγος \\dotfill 3 \\\\ \n\\end{document}\n"));

    let single = seq.make_single_page(&occ, &ExportHTML {}, &options, 3);
    assert!(single.starts_with("\n<!--PAGE START-->\n<div class='Page'>\n<div class='PageTitle'>T - Page 3</div>\n"));
    assert!(single.contains("alreadyArrowed"));
    assert_eq!(seq.make_single_page(&occ, &ExportHTML {}, &options, 9), "");
}

#[test]
fn layout_of_a_book_reports_skipped_pages() {
    let mut seq = small_book();
    seq.texts[0].words_per_page = String::from("5, 1");
    let occ = seq.process().unwrap();
    let layout = seq.document_layout(&occ);
    assert_eq!(layout.skipped, vec![(0, 0)]);
    assert_eq!(
        layout.pages,
        vec![
            PageSlot::Blank { page_number: 2 },
            page(0, 0, 3, 3, true),
            PageSlot::Blank { page_number: 4 },
        ]
    );
}

#[test]
fn page_numbers_must_fit() {
    let mut seq = small_book();
    seq.sequence_description.start_page = usize::MAX;
    assert!(!seq.page_numbers_fit());
    seq.sequence_description.start_page = usize::MAX - 10;
    assert!(seq.page_numbers_fit());
}
