//! The corpus records (glosses, words, texts, arrow assignments) and the
//! records derived from them (occurrences, index entries, errors).
use vstd::arithmetic::power::pow;
use vstd::prelude::*;
use vstd::string::*;

verus! {

/// Identifier of a word: the 128-bit value of its UUID.
pub type WordUuid = u128;

/// Identifier of a gloss: the 128-bit value of its UUID.
pub type GlossUuid = u128;

/// The closed set of word kinds. Only `Word` may carry a gloss.
#[derive(Default, Clone, Copy, Debug, PartialEq, Eq, Structural)]
pub enum WordType {
    Word,
    Punctuation,
    Speaker,
    Section,
    VerseLine,
    ParaWithIndent,
    WorkTitle,
    SectionTitle,
    InlineSpeaker,
    ParaNoIndent,
    PageBreak,
    Desc,
    #[default]
    InvalidType,
    InlineVerseSpeaker,
}

/// The name under which a word kind is written.
pub open spec fn word_type_name(t: WordType) -> Seq<char> {
    match t {
        WordType::Word => "Word"@,
        WordType::Punctuation => "Punctuation"@,
        WordType::Speaker => "Speaker"@,
        WordType::Section => "Section"@,
        WordType::VerseLine => "VerseLine"@,
        WordType::ParaWithIndent => "ParaWithIndent"@,
        WordType::WorkTitle => "WorkTitle"@,
        WordType::SectionTitle => "SectionTitle"@,
        WordType::InlineSpeaker => "InlineSpeaker"@,
        WordType::ParaNoIndent => "ParaNoIndent"@,
        WordType::PageBreak => "PageBreak"@,
        WordType::Desc => "Desc"@,
        WordType::InvalidType => "InvalidType"@,
        WordType::InlineVerseSpeaker => "InlineVerseSpeaker"@,
    }
}

/// Every word kind, in declaration order.
pub open spec fn all_word_types() -> Seq<WordType> {
    seq![
        WordType::Word,
        WordType::Punctuation,
        WordType::Speaker,
        WordType::Section,
        WordType::VerseLine,
        WordType::ParaWithIndent,
        WordType::WorkTitle,
        WordType::SectionTitle,
        WordType::InlineSpeaker,
        WordType::ParaNoIndent,
        WordType::PageBreak,
        WordType::Desc,
        WordType::InvalidType,
        WordType::InlineVerseSpeaker,
    ]
}

impl WordType {
    /// The literal name of each kind, as `word_type_name` gives it.
    fn name_literal(&self) -> (r: &'static str)
        ensures
            r@ == word_type_name(*self),
    {
        match self {
            WordType::Word => "Word",
            WordType::Punctuation => "Punctuation",
            WordType::Speaker => "Speaker",
            WordType::Section => "Section",
            WordType::VerseLine => "VerseLine",
            WordType::ParaWithIndent => "ParaWithIndent",
            WordType::WorkTitle => "WorkTitle",
            WordType::SectionTitle => "SectionTitle",
            WordType::InlineSpeaker => "InlineSpeaker",
            WordType::ParaNoIndent => "ParaNoIndent",
            WordType::PageBreak => "PageBreak",
            WordType::Desc => "Desc",
            WordType::InvalidType => "InvalidType",
            WordType::InlineVerseSpeaker => "InlineVerseSpeaker",
        }
    }

    /// The kind at place `i` of `all_word_types`.
    fn at(i: usize) -> (t: WordType)
        requires
            i < 14,
        ensures
            t == all_word_types()[i as int],
    {
        match i {
            0 => WordType::Word,
            1 => WordType::Punctuation,
            2 => WordType::Speaker,
            3 => WordType::Section,
            4 => WordType::VerseLine,
            5 => WordType::ParaWithIndent,
            6 => WordType::WorkTitle,
            7 => WordType::SectionTitle,
            8 => WordType::InlineSpeaker,
            9 => WordType::ParaNoIndent,
            10 => WordType::PageBreak,
            11 => WordType::Desc,
            12 => WordType::InvalidType,
            _ => WordType::InlineVerseSpeaker,
        }
    }

    /// The name of this kind.
    pub fn to_string(&self) -> (r: String)
        ensures
            r@ == word_type_name(*self),
    {
        String::from_str(self.name_literal())
    }

    /// The kind whose name is `s`, or an error naming `s`.
    pub fn from_name(s: &str) -> (r: Result<WordType, String>)
        ensures
            match r {
                Ok(t) => word_type_name(t) == s@,
                Err(e) => (forall|t: WordType| word_type_name(t) != s@) && e@ == "'"@ + s@
                    + "' is not a valid variant for WordType"@,
            },
    {
        let cs = crate::text::chars_of(s);
        let mut i: usize = 0;
        while i < 14
            invariant
                i <= 14,
                cs@ == s@,
                forall|k: int| 0 <= k < i ==> word_type_name(#[trigger] all_word_types()[k]) != s@,
            decreases 14 - i,
        {
            let kind = WordType::at(i);
            let lit = kind.name_literal();
            let name = crate::text::chars_of(lit);
            if crate::text::chars_equal(&name, &cs) {
                return Ok(kind);
            }
            i += 1;
        }
        proof {
            assert forall|t: WordType| word_type_name(t) != s@ by {
                let k: int = match t {
                    WordType::Word => 0,
                    WordType::Punctuation => 1,
                    WordType::Speaker => 2,
                    WordType::Section => 3,
                    WordType::VerseLine => 4,
                    WordType::ParaWithIndent => 5,
                    WordType::WorkTitle => 6,
                    WordType::SectionTitle => 7,
                    WordType::InlineSpeaker => 8,
                    WordType::ParaNoIndent => 9,
                    WordType::PageBreak => 10,
                    WordType::Desc => 11,
                    WordType::InvalidType => 12,
                    WordType::InlineVerseSpeaker => 13,
                };
                assert(all_word_types()[k] == t);
            }
        }
        let mut e = String::from_str("'");
        e.append(s);
        e.append("' is not a valid variant for WordType");
        Err(e)
    }
}

impl std::str::FromStr for WordType {
    type Err = String;

    fn from_str(s: &str) -> Result<Self, Self::Err> {
        WordType::from_name(s)
    }
}

/// A lemma with its definition. A status of zero marks a retired gloss.
#[derive(Default, Clone, Debug, PartialEq)]
pub struct Gloss {
    pub uuid: GlossUuid,
    pub parent_id: Option<GlossUuid>,
    pub lemma: String,
    pub sort_alpha: String,
    pub def: String,
    pub pos: String,
    pub unit: i32,
    pub note: String,
    pub updated: String,
    pub status: i32,
    pub updated_user: String,
}

impl Gloss {
    /// A field-by-field copy.
    pub fn duplicate(&self) -> (r: Gloss)
        ensures
            r == *self,
    {
        Gloss {
            uuid: self.uuid,
            parent_id: self.parent_id,
            lemma: self.lemma.clone(),
            sort_alpha: self.sort_alpha.clone(),
            def: self.def.clone(),
            pos: self.pos.clone(),
            unit: self.unit,
            note: self.note.clone(),
            updated: self.updated.clone(),
            status: self.status,
            updated_user: self.updated_user.clone(),
        }
    }
}

/// One token of a text, with the gloss it refers to, if any.
#[derive(Default, Clone, Debug, PartialEq)]
pub struct Word {
    pub uuid: WordUuid,
    pub gloss_uuid: Option<GlossUuid>,
    pub word_type: WordType,
    pub word: String,
}

impl Word {
    /// A field-by-field copy.
    pub fn duplicate(&self) -> (r: Word)
        ensures
            r == *self,
    {
        Word {
            uuid: self.uuid,
            gloss_uuid: self.gloss_uuid,
            word_type: self.word_type,
            word: self.word.clone(),
        }
    }
}

/// The word at which a gloss is taught.
#[derive(Default, Clone, Copy, Debug, PartialEq, Eq, Structural)]
pub struct GlossArrow {
    pub gloss_uuid: GlossUuid,
    pub word_uuid: WordUuid,
}

/// Whether a text is shown, and the name it is stored under.
#[derive(Default, Clone, Debug, PartialEq)]
pub struct TextDescription {
    pub display: bool,
    pub text: String,
}

/// Book-level metadata: title, first page number, the gloss sets and texts
/// by name, and the arrow assignments.
#[derive(Default, Clone, Debug, PartialEq)]
pub struct SequenceDescription {
    pub name: String,
    pub start_page: usize,
    pub gloss_names: Vec<String>,
    pub texts: Vec<TextDescription>,
    pub arrowed_words: Vec<GlossArrow>,
}

/// A critical-apparatus note attached to a word.
#[derive(Default, Clone, Debug, PartialEq)]
pub struct AppCrit {
    pub word_uuid: WordUuid,
    pub entry: String,
}

/// A named, ordered list of words, with its notes and page-size plan
/// (word counts per page, separated by commas).
#[derive(Clone, Debug, PartialEq)]
pub struct Text {
    pub text_name: String,
    pub words: Vec<Word>,
    pub appcrits: Option<Vec<AppCrit>>,
    pub words_per_page: String,
}

/// A named set of glosses.
#[derive(Clone, Debug, PartialEq)]
pub struct Glosses {
    pub gloss_name: String,
    pub gloss: Vec<Gloss>,
}

/// The whole corpus of one book.
#[derive(Clone, Debug)]
pub struct Sequence {
    pub sequence_description: SequenceDescription,
    pub glosses: Vec<Glosses>,
    pub texts: Vec<Text>,
}

/// How an occurrence of a gloss is shown.
#[derive(Clone, Copy, Debug, PartialEq, Eq, Structural)]
pub enum ArrowedState {
    /// Before the point where the gloss is taught, or the gloss is never arrowed.
    Visible,
    /// The one occurrence where the gloss is taught.
    Arrowed,
    /// After the point where the gloss is taught.
    Invisible,
}

/// One word of the corpus, with its resolved gloss, its running and total
/// count, and its arrowed state.
#[derive(Clone, Debug)]
pub struct GlossOccurrance {
    pub word: Word,
    pub gloss: Option<Gloss>,
    pub running_count: Option<usize>,
    pub total_count: Option<usize>,
    pub arrowed_state: ArrowedState,
}

impl GlossOccurrance {
    /// A field-by-field copy.
    pub fn duplicate(&self) -> (r: GlossOccurrance)
        ensures
            r == *self,
    {
        GlossOccurrance {
            word: self.word.duplicate(),
            gloss: match &self.gloss {
                Some(g) => Some(g.duplicate()),
                None => None,
            },
            running_count: self.running_count,
            total_count: self.total_count,
            arrowed_state: self.arrowed_state,
        }
    }
}

/// The per-gloss aggregate of the occurrence pass: how many occurrences so
/// far, and where the gloss is arrowed once that is known.
#[derive(Clone, Copy, Debug, PartialEq, Eq, Structural)]
pub struct GlossSeqCount {
    pub count: usize,
    pub arrowed_seq: Option<usize>,
}

/// Options of the per-page gloss list.
#[derive(Clone, Copy, Debug, PartialEq, Eq, Structural)]
pub struct GlossPageOptions {
    /// Keep at most one entry per gloss on a page.
    pub filter_unique: bool,
    /// Drop occurrences whose gloss was taught earlier.
    pub filter_invisible: bool,
    /// Order the list by the case-folded sort key.
    pub sort_alpha: bool,
}

/// One entry of the back-of-book index of arrowed words.
#[derive(Clone, Debug, PartialEq)]
pub struct ArrowedWordsIndex {
    pub gloss_lemma: String,
    pub gloss_sort: String,
    pub page_number: usize,
}

impl ArrowedWordsIndex {
    /// A field-by-field copy.
    pub fn duplicate(&self) -> (r: ArrowedWordsIndex)
        ensures
            r == *self,
    {
        ArrowedWordsIndex {
            gloss_lemma: self.gloss_lemma.clone(),
            gloss_sort: self.gloss_sort.clone(),
            page_number: self.page_number,
        }
    }
}

/// Errors of loading and of corpus verification; each carries a description.
#[derive(Debug, PartialEq)]
pub enum GlosserError {
    NotFound(String),
    InvalidInput(String),
    Other(String),
    ArrowedWordTwice(String),
    ArrowedGlossTwice(String),
    ArrowedWordNotFound(String),
    ArrowedGlossNotFound(String),
    ArrowedWordsGlossDoesNotMatchText(String),
    ArrowedGlossIsInvalid(String),
    DuplicateWordIdInTexts(String),
    ReferencedGlossIdDoesNotExistInGlossOrInvalid(String),
    GlossParentDoesNotExistOrInvalid(String),
    NonWordTypeIsArrowed(String),
    NonWordTypeIsGlossed(String),
}

/// The description an error carries.
pub open spec fn error_detail(e: GlosserError) -> Seq<char> {
    match e {
        GlosserError::NotFound(m) => m@,
        GlosserError::InvalidInput(m) => m@,
        GlosserError::Other(m) => m@,
        GlosserError::ArrowedWordTwice(m) => m@,
        GlosserError::ArrowedGlossTwice(m) => m@,
        GlosserError::ArrowedWordNotFound(m) => m@,
        GlosserError::ArrowedGlossNotFound(m) => m@,
        GlosserError::ArrowedWordsGlossDoesNotMatchText(m) => m@,
        GlosserError::ArrowedGlossIsInvalid(m) => m@,
        GlosserError::DuplicateWordIdInTexts(m) => m@,
        GlosserError::ReferencedGlossIdDoesNotExistInGlossOrInvalid(m) => m@,
        GlosserError::GlossParentDoesNotExistOrInvalid(m) => m@,
        GlosserError::NonWordTypeIsArrowed(m) => m@,
        GlosserError::NonWordTypeIsGlossed(m) => m@,
    }
}

/// The place of an error's variant in the declaration.
pub open spec fn error_kind(e: GlosserError) -> int {
    match e {
        GlosserError::NotFound(_) => 0,
        GlosserError::InvalidInput(_) => 1,
        GlosserError::Other(_) => 2,
        GlosserError::ArrowedWordTwice(_) => 3,
        GlosserError::ArrowedGlossTwice(_) => 4,
        GlosserError::ArrowedWordNotFound(_) => 5,
        GlosserError::ArrowedGlossNotFound(_) => 6,
        GlosserError::ArrowedWordsGlossDoesNotMatchText(_) => 7,
        GlosserError::ArrowedGlossIsInvalid(_) => 8,
        GlosserError::DuplicateWordIdInTexts(_) => 9,
        GlosserError::ReferencedGlossIdDoesNotExistInGlossOrInvalid(_) => 10,
        GlosserError::GlossParentDoesNotExistOrInvalid(_) => 11,
        GlosserError::NonWordTypeIsArrowed(_) => 12,
        GlosserError::NonWordTypeIsGlossed(_) => 13,
    }
}

/// The text an error is displayed as: load errors as not found, the
/// verifier's errors as invalid corpus.
pub open spec fn error_text(e: GlosserError) -> Seq<char> {
    match e {
        GlosserError::NotFound(m) => "Not found: "@ + m@,
        GlosserError::InvalidInput(m) => "Invalid input: "@ + m@,
        GlosserError::Other(m) => "Other error: "@ + m@,
        _ => "Invalid corpus: "@ + error_detail(e),
    }
}

impl GlosserError {
    /// The description this error carries.
    pub fn detail(&self) -> (r: &String)
        ensures
            r@ == error_detail(*self),
    {
        match self {
            GlosserError::NotFound(m) => m,
            GlosserError::InvalidInput(m) => m,
            GlosserError::Other(m) => m,
            GlosserError::ArrowedWordTwice(m) => m,
            GlosserError::ArrowedGlossTwice(m) => m,
            GlosserError::ArrowedWordNotFound(m) => m,
            GlosserError::ArrowedGlossNotFound(m) => m,
            GlosserError::ArrowedWordsGlossDoesNotMatchText(m) => m,
            GlosserError::ArrowedGlossIsInvalid(m) => m,
            GlosserError::DuplicateWordIdInTexts(m) => m,
            GlosserError::ReferencedGlossIdDoesNotExistInGlossOrInvalid(m) => m,
            GlosserError::GlossParentDoesNotExistOrInvalid(m) => m,
            GlosserError::NonWordTypeIsArrowed(m) => m,
            GlosserError::NonWordTypeIsGlossed(m) => m,
        }
    }

    /// The error as a line of text.
    pub fn to_string(&self) -> (r: String)
        ensures
            r@ == error_text(*self),
    {
        let mut r = match self {
            GlosserError::NotFound(_) => String::from_str("Not found: "),
            GlosserError::InvalidInput(_) => String::from_str("Invalid input: "),
            GlosserError::Other(_) => String::from_str("Other error: "),
            _ => String::from_str("Invalid corpus: "),
        };
        r.append(self.detail().as_str());
        r
    }
}

/// The lowercase hexadecimal digit of `d`, for `0 <= d < 16`.
pub open spec fn hex_digit(d: int) -> char {
    seq!['0', '1', '2', '3', '4', '5', '6', '7', '8', '9', 'a', 'b', 'c', 'd', 'e', 'f'][d]
}

/// The `k`-th hexadecimal digit of `id`, most significant first (`0 <= k < 32`).
pub open spec fn uuid_nibble(id: u128, k: int) -> int {
    (id as int / pow(16, (31 - k) as nat)) % 16
}

/// The hyphenated lowercase form of a UUID: its 32 hexadecimal digits,
/// most significant first, in groups of 8, 4, 4, 4 and 12.
pub open spec fn uuid_hyphenated(id: u128) -> Seq<char> {
    Seq::new(
        36,
        |i: int|
            if i == 8 || i == 13 || i == 18 || i == 23 {
                '-'
            } else {
                let k = if i < 8 {
                    i
                } else if i < 13 {
                    i - 1
                } else if i < 18 {
                    i - 2
                } else if i < 23 {
                    i - 3
                } else {
                    i - 4
                };
                hex_digit(uuid_nibble(id, k))
            },
    )
}

/// The hyphenated text of the UUID whose value is `id`.
///
/// Relies on `uuid::Uuid::from_u128` (big-endian bytes of the value) and the
/// `Display` of `uuid::Uuid` (lowercase hexadecimal, hyphenated 8-4-4-4-12).
#[verifier::external_body]
pub(crate) fn uuid_text(id: u128) -> (r: String)
    ensures
        r@ == uuid_hyphenated(id),
{
    uuid::Uuid::from_u128(id).to_string()
}

} // verus!
