//! Vocabulary of the Reword learning apps, turned into flashcard decks.
//!
//! The crate holds the catalogue of apps and languages, the per-app queries
//! and field layouts, the folding of joined rows into words, the rendering of
//! example sentences, and the assembly of a deck with stable identifiers.

pub mod deck;
pub mod example;
pub mod export;
pub mod fields;
pub mod fold;
pub mod info;
pub mod query;
pub mod text;
pub mod word;
