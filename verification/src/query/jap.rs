//! The store of the Japanese app: its words query and the languages it
//! translates into.
//!
//! The store keeps the headword twice: in kanji, which not every word has,
//! and in kana. The cards name their fields accordingly.

use crate::fields::{AnkiFieldNames, AnkiFieldNamesView, AnkiFields, AnkiFieldsView};
use crate::info::{Language, TrInfo};
use crate::word::{Word, WordView};
use vstd::prelude::*;

verus! {

/// The words query up to the column of the translation.
pub const WORDS_HEAD: &'static str = "select
           w.id,
           w.kanji as word,
           w.word as reading,
           w.transcription,
           ";

/// The words query after the column of the translation. The store keeps
/// no examples.
pub const WORDS_TAIL: &'static str = " as translate,
           null as examples,
           wc.category_id,
           p.source as picture_source,
           p.source_id as picture_source_id
         from word w
         join word_category wc
           on w.id = wc.word_id
         full outer join picture p
           on p.id = w.picture_id
         where translate is not null";

/// The query for the words of the store with their translation into
/// `tr_lang`, one row for each category of each word. The store keeps the
/// translation in the column named by the language's short code.
pub open spec fn words_spec(tr_lang: Language) -> Seq<char> {
    WORDS_HEAD@ + "w."@ + tr_lang.kind_spec() + WORDS_TAIL@
}

/// The languages that the app translates into.
pub open spec fn languages_spec() -> Seq<Language> {
    seq![
        Language::English,
        Language::Russian,
    ]
}

/// The query for the words of the store with their translation into the
/// language of `info`.
pub fn words(info: TrInfo) -> (sql: String)
    ensures
        sql@ == words_spec(info.tr_lang),
{
    let kind = info.tr_lang.kind();
    let mut sql = WORDS_HEAD.to_owned();
    sql.append("w.");
    sql.append(kind.as_str());
    sql.append(WORDS_TAIL);
    sql
}

/// The languages that the app translates into, in the order in which they
/// are offered.
pub fn languages() -> (langs: Vec<Language>)
    ensures
        langs@ == languages_spec(),
{
    let mut langs: Vec<Language> = Vec::new();
    langs.push(Language::English);
    langs.push(Language::Russian);
    assert(langs@ =~= languages_spec());
    langs
}

/// The names of the card fields: the headword is the kanji, its reading the
/// kana, the transcription the romaji.
pub open spec fn anki_fields_spec() -> AnkiFieldNamesView {
    AnkiFieldNamesView {
        word: "Kanji"@,
        reading: "Kana"@,
        transcription: "Romaji"@,
        ..AnkiFieldNamesView::standard()
    }
}

/// The content of the card fields for a word. A word that has no kanji is
/// shown by its kana, and then has no reading beside it.
pub open spec fn anki_values_spec(w: WordView) -> AnkiFieldsView {
    AnkiFieldsView {
        word: if w.word is Some {
            w.word
        } else {
            w.reading
        },
        reading: if w.word is Some {
            w.reading
        } else {
            None
        },
        ..AnkiFieldsView::of_word(w)
    }
}

/// The names of the card fields.
pub fn anki_fields() -> (names: AnkiFieldNames)
    ensures
        names@ == anki_fields_spec(),
{
    let standard = AnkiFieldNames::default();
    AnkiFieldNames {
        word: "Kanji".to_owned(),
        reading: "Kana".to_owned(),
        transcription: "Romaji".to_owned(),
        translate: standard.translate,
        picture: standard.picture,
    }
}

/// The content of the card fields for a word.
pub fn anki_values(w: &Word) -> (fields: AnkiFields)
    ensures
        fields@ == anki_values_spec(w@),
{
    let copy = w.clone();
    let (word, reading) = match copy.word {
        Some(kanji) => (Some(kanji), copy.reading),
        None => (copy.reading, None),
    };
    AnkiFields {
        word,
        reading,
        transcription: copy.transcription,
        translate: copy.translate,
        picture: copy.picture,
        examples: copy.examples,
    }
}

} // verus!
