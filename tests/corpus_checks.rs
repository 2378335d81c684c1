use glosser::model::{
    ArrowedState, Gloss, GlossArrow, GlossOccurrance, GlosserError, Glosses, Sequence,
    SequenceDescription, Text, TextDescription, Word, WordType,
};
use std::collections::HashMap;
use uuid::Uuid;

fn id(s: &str) -> u128 {
    Uuid::parse_str(s).unwrap().as_u128()
}

fn gloss(uuid: &str, lemma: &str, sort_alpha: &str) -> Gloss {
    Gloss {
        uuid: id(uuid),
        parent_id: None,
        lemma: String::from(lemma),
        sort_alpha: String::from(sort_alpha),
        def: String::from("blah gloss"),
        pos: String::from("verb"),
        unit: 8,
        note: String::from(""),
        updated: String::from(""),
        status: 1,
        updated_user: String::from(""),
    }
}

fn word(uuid: &str, text: &str, gloss_uuid: Option<&str>) -> Word {
    Word {
        uuid: id(uuid),
        word: String::from(text),
        gloss_uuid: gloss_uuid.map(id),
        word_type: WordType::Word,
    }
}

fn arrow(word_uuid: &str, gloss_uuid: &str) -> GlossArrow {
    GlossArrow {
        word_uuid: id(word_uuid),
        gloss_uuid: id(gloss_uuid),
    }
}

fn sample_glosses() -> Vec<Gloss> {
    vec![
        gloss("67e55044-10b1-426f-9247-bb680e5fe0c8", "ἄγω", "αγω"),
        gloss("7cb7721c-c992-4178-84ce-8660d0d0e355", "γαμέω", "γαμεω"),
        gloss("0a2151b4-39a0-4b37-8ac8-72ea6252a1ab", "βλάπτω", "βλαπτω"),
    ]
}

fn sample_words() -> Vec<Word> {
    vec![
        word(
            "8b8eb16b-5d74-4dc7-bce1-9d561e40d60f",
            "βλάπτει",
            Some("67e55044-10b1-426f-9247-bb680e5fe0c8"),
        ),
        word(
            "7b6e9cf3-288f-4d40-b026-13f9544a9434",
            "γαμεῖ",
            Some("7cb7721c-c992-4178-84ce-8660d0d0e355"),
        ),
        word(
            "f0d558ba-af7a-4224-867f-bc126f5ab9c7",
            "ἄγει",
            Some("0a2151b4-39a0-4b37-8ac8-72ea6252a1ab"),
        ),
    ]
}

fn sample_sequence(arrowed_words: Vec<GlossArrow>, glosses: Vec<Glosses>) -> Sequence {
    let sequence = SequenceDescription {
        name: String::from("SGI"),
        start_page: 3,
        gloss_names: vec![String::from("H&Qplus")],
        arrowed_words,
        texts: vec![
            TextDescription {
                display: true,
                text: String::from("abc.xml"),
            },
            TextDescription {
                display: true,
                text: String::from("def.xml"),
            },
        ],
    };
    let text = Text {
        text_name: String::from(""),
        words: sample_words(),
        appcrits: Some(vec![]),
        words_per_page: String::from(""),
    };
    Sequence {
        sequence_description: sequence,
        texts: vec![text],
        glosses,
    }
}

fn tables(seq: &Sequence, glosses: &[Gloss]) -> (HashMap<u128, u128>, HashMap<u128, Gloss>) {
    let mut glosses_hash = HashMap::new();
    for g in glosses {
        glosses_hash.insert(g.uuid, g.clone());
    }
    let mut arrowed_words_hash = HashMap::new();
    for s in seq.sequence_description.arrowed_words.clone() {
        arrowed_words_hash.insert(s.word_uuid, s.gloss_uuid);
    }
    (arrowed_words_hash, glosses_hash)
}

#[test]
fn test_data() {
    let glosses = sample_glosses();
    let seq = sample_sequence(
        vec![
            arrow("8b8eb16b-5d74-4dc7-bce1-9d561e40d60f", "67e55044-10b1-426f-9247-bb680e5fe0c8"),
            arrow("7b6e9cf3-288f-4d40-b026-13f9544a9434", "7cb7721c-c992-4178-84ce-8660d0d0e355"),
            arrow("f0d558ba-af7a-4224-867f-bc126f5ab9c7", "0a2151b4-39a0-4b37-8ac8-72ea6252a1ab"),
        ],
        vec![],
    );
    let (arrowed_words_hash, glosses_hash) = tables(&seq, &glosses);
    let v = seq.verify(&arrowed_words_hash, &glosses_hash);
    assert!(v.is_ok());
}

#[test]
fn test_data_dup_arrowed_word() {
    let glosses = sample_glosses();
    let seq = sample_sequence(
        vec![
            arrow("8b8eb16b-5d74-4dc7-bce1-9d561e40d60f", "67e55044-10b1-426f-9247-bb680e5fe0c8"),
            arrow("8b8eb16b-5d74-4dc7-bce1-9d561e40d60f", "7cb7721c-c992-4178-84ce-8660d0d0e355"),
            arrow("f0d558ba-af7a-4224-867f-bc126f5ab9c7", "0a2151b4-39a0-4b37-8ac8-72ea6252a1ab"),
        ],
        vec![],
    );
    let (arrowed_words_hash, glosses_hash) = tables(&seq, &glosses);
    let v = seq.verify(&arrowed_words_hash, &glosses_hash);
    assert_eq!(
        v,
        Err(GlosserError::ArrowedWordTwice(String::from(
            "duplicate word_id in arrowed words 8b8eb16b-5d74-4dc7-bce1-9d561e40d60f"
        )))
    );
}

fn gloss_set(glosses: Vec<Gloss>) -> Vec<Glosses> {
    vec![Glosses {
        gloss_name: String::from("H&Qplus"),
        gloss: glosses,
    }]
}

fn all_arrows() -> Vec<GlossArrow> {
    vec![
        arrow("8b8eb16b-5d74-4dc7-bce1-9d561e40d60f", "67e55044-10b1-426f-9247-bb680e5fe0c8"),
        arrow("7b6e9cf3-288f-4d40-b026-13f9544a9434", "7cb7721c-c992-4178-84ce-8660d0d0e355"),
        arrow("f0d558ba-af7a-4224-867f-bc126f5ab9c7", "0a2151b4-39a0-4b37-8ac8-72ea6252a1ab"),
    ]
}

#[test]
fn three_arrowed_words_are_all_arrowed() {
    let seq = sample_sequence(all_arrows(), gloss_set(sample_glosses()));
    let occ = seq.process().unwrap();
    assert_eq!(occ.len(), 1);
    assert_eq!(occ[0].len(), 3);
    for o in &occ[0] {
        assert_eq!(o.arrowed_state, ArrowedState::Arrowed);
        assert_eq!(o.running_count, Some(1));
        assert_eq!(o.total_count, Some(1));
        assert!(o.gloss.is_some());
    }
}

#[test]
fn duplicate_arrow_word_stops_processing() {
    let mut arrows = all_arrows();
    arrows[1].word_uuid = arrows[0].word_uuid;
    let seq = sample_sequence(arrows, gloss_set(sample_glosses()));
    let r = seq.process();
    match r {
        Err(GlosserError::ArrowedWordTwice(m)) => assert_eq!(
            m,
            "duplicate word_id in arrowed words 8b8eb16b-5d74-4dc7-bce1-9d561e40d60f"
        ),
        _ => panic!("expected a duplicate arrow word"),
    }
}

#[test]
fn duplicate_arrow_gloss_is_reported() {
    let mut arrows = all_arrows();
    arrows[1].gloss_uuid = arrows[0].gloss_uuid;
    let seq = sample_sequence(arrows, gloss_set(sample_glosses()));
    match seq.process() {
        Err(GlosserError::ArrowedGlossTwice(m)) => assert_eq!(
            m,
            "duplicate gloss_uuid in arrowed words 67e55044-10b1-426f-9247-bb680e5fe0c8"
        ),
        _ => panic!("expected a duplicate arrow gloss"),
    }
}

#[test]
fn empty_corpus_is_not_found() {
    let mut seq = sample_sequence(all_arrows(), gloss_set(sample_glosses()));
    seq.texts.clear();
    match seq.process() {
        Err(GlosserError::NotFound(m)) => assert_eq!(m, "Gloss or texts not found"),
        _ => panic!("expected not found"),
    }
    let seq = sample_sequence(all_arrows(), vec![]);
    assert!(matches!(seq.process(), Err(GlosserError::NotFound(_))));
}

#[test]
fn duplicate_word_id_is_reported() {
    let mut seq = sample_sequence(vec![], gloss_set(sample_glosses()));
    seq.texts[0].text_name = String::from("Lysias");
    seq.texts[0].words[2].uuid = seq.texts[0].words[0].uuid;
    match seq.process() {
        Err(GlosserError::DuplicateWordIdInTexts(m)) => assert_eq!(
            m,
            "duplicate word uuid found in text Lysias, word 8b8eb16b-5d74-4dc7-bce1-9d561e40d60f"
        ),
        other => panic!("unexpected {:?}", other.err()),
    }
}

#[test]
fn glossed_punctuation_is_reported() {
    let mut seq = sample_sequence(vec![], gloss_set(sample_glosses()));
    seq.texts[0].text_name = String::from("T");
    seq.texts[0].words[1].word_type = WordType::Punctuation;
    match seq.process() {
        Err(GlosserError::NonWordTypeIsGlossed(m)) => assert_eq!(
            m,
            "non-word type is glossed: text: T, word: 7b6e9cf3-288f-4d40-b026-13f9544a9434"
        ),
        other => panic!("unexpected {:?}", other.err()),
    }
}

#[test]
fn missing_and_retired_glosses_are_reported() {
    let mut glosses = sample_glosses();
    glosses[1].status = 0;
    let seq = sample_sequence(vec![], gloss_set(glosses));
    match seq.process() {
        Err(GlosserError::ReferencedGlossIdDoesNotExistInGlossOrInvalid(m)) => assert_eq!(
            m,
            "gloss 7cb7721c-c992-4178-84ce-8660d0d0e355 set for word 7b6e9cf3-288f-4d40-b026-13f9544a9434 has status == 0"
        ),
        other => panic!("unexpected {:?}", other.err()),
    }
    let mut glosses = sample_glosses();
    glosses.remove(2);
    let seq = sample_sequence(vec![], gloss_set(glosses));
    match seq.process() {
        Err(GlosserError::ReferencedGlossIdDoesNotExistInGlossOrInvalid(m)) => assert_eq!(
            m,
            "gloss 0a2151b4-39a0-4b37-8ac8-72ea6252a1ab set for word f0d558ba-af7a-4224-867f-bc126f5ab9c7 does not exist in gloss"
        ),
        other => panic!("unexpected {:?}", other.err()),
    }
}

#[test]
fn arrow_target_checks_are_reported() {
    let mut seq = sample_sequence(all_arrows(), gloss_set(sample_glosses()));
    seq.texts[0].words[0].gloss_uuid = None;
    seq.texts[0].words[0].word_type = WordType::Speaker;
    match seq.process() {
        Err(GlosserError::NonWordTypeIsArrowed(m)) => {
            assert_eq!(m, "non-word type is arrowed: 8b8eb16b-5d74-4dc7-bce1-9d561e40d60f")
        }
        other => panic!("unexpected {:?}", other.err()),
    }
    let mut seq = sample_sequence(all_arrows(), gloss_set(sample_glosses()));
    seq.texts[0].words[0].gloss_uuid = None;
    match seq.process() {
        Err(GlosserError::ArrowedWordsGlossDoesNotMatchText(m)) => assert_eq!(
            m,
            "arrowed word has a gloss which is not set: 8b8eb16b-5d74-4dc7-bce1-9d561e40d60f"
        ),
        other => panic!("unexpected {:?}", other.err()),
    }
    let mut arrows = all_arrows();
    arrows[0].gloss_uuid = id("7cb7721c-c992-4178-84ce-8660d0d0e355");
    arrows[1].gloss_uuid = id("67e55044-10b1-426f-9247-bb680e5fe0c8");
    let seq = sample_sequence(arrows, gloss_set(sample_glosses()));
    match seq.process() {
        Err(GlosserError::ArrowedWordsGlossDoesNotMatchText(m)) => assert_eq!(
            m,
            "arrow gloss doesn't match text's gloss βλάπτει (word 8b8eb16b-5d74-4dc7-bce1-9d561e40d60f): text has 67e55044-10b1-426f-9247-bb680e5fe0c8, arrow has 7cb7721c-c992-4178-84ce-8660d0d0e355"
        ),
        other => panic!("unexpected {:?}", other.err()),
    }
}

#[test]
fn unmatched_arrow_is_reported() {
    let mut arrows = all_arrows();
    arrows.push(arrow("00000000-0000-0000-0000-000000000001", "00000000-0000-0000-0000-000000000002"));
    let seq = sample_sequence(arrows, gloss_set(sample_glosses()));
    match seq.process() {
        Err(GlosserError::ArrowedWordNotFound(m)) => assert_eq!(
            m,
            "didn't find correct number of arrowed words; arrowed: 4, found in texts: 3"
        ),
        other => panic!("unexpected {:?}", other.err()),
    }
}

fn occurrence_states(occ: &[Vec<GlossOccurrance>]) -> Vec<Option<ArrowedState>> {
    occ.iter()
        .flatten()
        .map(|o| o.gloss.as_ref().map(|_| o.arrowed_state))
        .collect()
}

fn corpus_with_arrow_at_five() -> Sequence {
    let a = gloss("11111111-1111-1111-1111-111111111111", "ἄγω", "αγω");
    let b = gloss("22222222-2222-2222-2222-222222222222", "λόγος", "λογος");
    let wid = |n: u32| format!("00000000-0000-0000-0000-{:012}", n);
    let mut words1 = vec![];
    let mut words2 = vec![];
    for n in 0..10u32 {
        let g = match n {
            2 | 5 | 9 => Some("11111111-1111-1111-1111-111111111111"),
            4 | 7 => Some("22222222-2222-2222-2222-222222222222"),
            _ => None,
        };
        let w = word(&wid(n), "w", g);
        if n < 4 {
            words1.push(w);
        } else {
            words2.push(w);
        }
    }
    let texts = vec![
        Text {
            text_name: String::from("one"),
            words: words1,
            appcrits: None,
            words_per_page: String::from("2, 2"),
        },
        Text {
            text_name: String::from("two"),
            words: words2,
            appcrits: None,
            words_per_page: String::from("3,3"),
        },
    ];
    Sequence {
        sequence_description: SequenceDescription {
            name: String::from("Book"),
            start_page: 1,
            gloss_names: vec![],
            texts: vec![
                TextDescription {
                    display: false,
                    text: String::from("one"),
                },
                TextDescription {
                    display: true,
                    text: String::from("two"),
                },
            ],
            arrowed_words: vec![arrow(&wid(5), "11111111-1111-1111-1111-111111111111")],
        },
        glosses: gloss_set(vec![a, b]),
        texts,
    }
}

#[test]
fn visibility_follows_the_arrow() {
    let seq = corpus_with_arrow_at_five();
    let occ = seq.process().unwrap();
    let states = occurrence_states(&occ);
    assert_eq!(states[2], Some(ArrowedState::Visible));
    assert_eq!(states[5], Some(ArrowedState::Arrowed));
    assert_eq!(states[9], Some(ArrowedState::Invisible));
    assert_eq!(states[4], Some(ArrowedState::Visible));
    assert_eq!(states[7], Some(ArrowedState::Visible));
    assert_eq!(states[0], None);
    assert_eq!(occ[0][0].arrowed_state, ArrowedState::Visible);
}

#[test]
fn counts_run_over_the_whole_corpus() {
    let seq = corpus_with_arrow_at_five();
    let occ = seq.process().unwrap();
    let flat: Vec<&GlossOccurrance> = occ.iter().flatten().collect();
    assert_eq!(flat.len(), 10);
    assert_eq!(flat[2].running_count, Some(1));
    assert_eq!(flat[5].running_count, Some(2));
    assert_eq!(flat[9].running_count, Some(3));
    assert_eq!(flat[9].total_count, Some(3));
    assert_eq!(flat[2].total_count, Some(3));
    assert_eq!(flat[4].running_count, Some(1));
    assert_eq!(flat[7].running_count, Some(2));
    assert_eq!(flat[7].total_count, Some(2));
    assert_eq!(flat[0].running_count, None);
    assert_eq!(flat[0].total_count, None);
}

#[test]
fn processing_twice_gives_the_same_records() {
    let seq = corpus_with_arrow_at_five();
    let a = seq.process().unwrap();
    let b = seq.process().unwrap();
    assert_eq!(a.len(), b.len());
    for (x, y) in a.iter().flatten().zip(b.iter().flatten()) {
        assert_eq!(x.word, y.word);
        assert_eq!(x.gloss, y.gloss);
        assert_eq!(x.running_count, y.running_count);
        assert_eq!(x.total_count, y.total_count);
        assert_eq!(x.arrowed_state, y.arrowed_state);
    }
}

#[test]
fn error_text_and_word_type_names() {
    assert_eq!(GlosserError::InvalidInput(String::from("x")).to_string(), "Invalid input: x");
    assert_eq!(GlosserError::Other(String::from("y")).to_string(), "Other error: y");
    assert_eq!(GlosserError::ArrowedGlossIsInvalid(String::from("z")).to_string(), "Invalid corpus: z");
    assert_eq!(GlosserError::NotFound(String::from("f")).to_string(), "Not found: f");
    assert_eq!(WordType::InlineVerseSpeaker.to_string(), "InlineVerseSpeaker");
    assert_eq!(WordType::from_name("VerseLine"), Ok(WordType::VerseLine));
    assert_eq!("Desc".parse::<WordType>(), Ok(WordType::Desc));
    assert_eq!(
        WordType::from_name("Verse"),
        Err(String::from("'Verse' is not a valid variant for WordType"))
    );
    assert_eq!(WordType::default(), WordType::InvalidType);
}
