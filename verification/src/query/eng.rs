//! The store of the English app: its words query and the languages it
//! translates into.

use crate::info::{Language, TrInfo};
use vstd::prelude::*;

verus! {

/// The words query up to the column of the translation.
pub const WORDS_HEAD: &'static str = "select
           w.id,
           w.word,
           w.transcription,
           null as reading,
           ";

/// The words query between the column of the translation and that of the
/// examples.
pub const WORDS_MID: &'static str = " as translate,
           ";

/// The words query after the column of the examples.
pub const WORDS_TAIL: &'static str = " as examples,
           wc.category_id,
           p.source as picture_source,
           p.source_id as picture_source_id
         from word w
         join word_category wc
           on w.id = wc.word_id
         full outer join picture p
           on p.id = w.picture_id
         where translate is not null";

/// The query for the words of the store with their translation into
/// `tr_lang`, one row for each category of each word. The store keeps the
/// translation in the column named by the language's short code, the
/// examples in the column `examples_` and that code.
pub open spec fn words_spec(tr_lang: Language) -> Seq<char> {
    WORDS_HEAD@ + "w."@ + tr_lang.kind_spec() + WORDS_MID@ + "w.examples_"@
        + tr_lang.kind_spec() + WORDS_TAIL@
}

/// The languages that the app translates into.
pub open spec fn languages_spec() -> Seq<Language> {
    seq![
        Language::Chinese,
        Language::Dutch,
        Language::French,
        Language::Deutsch,
        Language::Italian,
        Language::Japanese,
        Language::Korean,
        Language::Russian,
        Language::Spanish,
        Language::Turkish,
    ]
}

/// The query for the words of the store with their translation into the
/// language of `info`.
pub fn words(info: TrInfo) -> (sql: String)
    ensures
        sql@ == words_spec(info.tr_lang),
{
    let kind = info.tr_lang.kind();
    let mut sql = WORDS_HEAD.to_owned();
    sql.append("w.");
    sql.append(kind.as_str());
    sql.append(WORDS_MID);
    sql.append("w.examples_");
    sql.append(kind.as_str());
    sql.append(WORDS_TAIL);
    sql
}

/// The languages that the app translates into, in the order in which they
/// are offered.
pub fn languages() -> (langs: Vec<Language>)
    ensures
        langs@ == languages_spec(),
{
    let mut langs: Vec<Language> = Vec::new();
    langs.push(Language::Chinese);
    langs.push(Language::Dutch);
    langs.push(Language::French);
    langs.push(Language::Deutsch);
    langs.push(Language::Italian);
    langs.push(Language::Japanese);
    langs.push(Language::Korean);
    langs.push(Language::Russian);
    langs.push(Language::Spanish);
    langs.push(Language::Turkish);
    assert(langs@ =~= languages_spec());
    langs
}

} // verus!
