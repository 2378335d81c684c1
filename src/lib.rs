//! Assembly of a vocabulary-annotated reading book: corpus integrity checks,
//! the arrowed state of every occurrence across the whole corpus,
//! pagination for two-sided printing, the per-page gloss lists, the index of
//! arrowed words, an ordered lemma index, and four output formats.
pub mod corpus;
pub mod document;
pub mod exportfodt;
pub mod exporthtml;
pub mod exportlatex;
pub mod exporttypst;
pub mod glosstext;
pub mod integrity;
pub mod layout;
pub mod lemma_index;
pub mod model;
pub mod occurrence_laws;
pub mod occurrences;
pub mod order;
pub mod page_glosses;
pub mod render;
pub mod text;
