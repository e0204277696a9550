//! What differs from app to app: where the store lies in the app's package,
//! how its words are queried, which languages it translates into, how its
//! cards name and fill their fields, and the identifier of its flashcard
//! model.

use crate::fields::{AnkiFieldNames, AnkiFieldNamesView, AnkiFields, AnkiFieldsView};
use crate::info::{App, Language, TrInfo};
use crate::fold::{fold_categories, folded, row_words};
use crate::word::{map_row, RawRow, Word, WordView};
use vstd::prelude::*;

pub mod deu;
pub mod eng;
pub mod jap;
pub mod rus;

verus! {

/// The failure to serve an app whose store has not been described yet.
#[derive(Debug, Clone, Copy, PartialEq, Eq, Structural)]
pub struct UnsupportedApp {
    /// The app that was asked for.
    pub app: App,
}

impl UnsupportedApp {
    /// The failure in words.
    pub open spec fn message_spec(self) -> Seq<char> {
        "app not yet supported: "@ + self.app.display_spec()
    }

    /// The failure in words.
    pub fn message(&self) -> (text: String)
        ensures
            text@ == self.message_spec(),
    {
        let mut text = "app not yet supported: ".to_owned();
        text.append(self.app.display().as_str());
        text
    }
}

/// Whether the store of the app has been described: its words can be
/// queried and its languages listed.
pub open spec fn is_described(app: App) -> bool {
    app == App::Deutsch || app == App::English || app == App::Japanese || app == App::Russian
}

/// The first of the identifiers of flashcard models. The model of an app
/// has the identifier that lies as far above it as the app's ordinal says.
pub const MODEL_ID_BASE: i64 = 10964854234530;

/// Where sqlite db is located inside apk
pub open spec fn apk_db_path_spec(app: App) -> Seq<char> {
    match app {
        App::Russian => "res/kv"@,
        _ => "res/raw/englishwordsdb"@,
    }
}

/// The identifier of the flashcard model of an app.
pub open spec fn model_id_spec(app: App) -> int {
    MODEL_ID_BASE + app.ordinal()
}

/// The query for the words of an app's store with their translation into
/// `tr_lang`. Meaningful for the apps that are described.
pub open spec fn sql_spec(app: App, tr_lang: Language) -> Seq<char> {
    match app {
        App::Deutsch => deu::words_spec(tr_lang),
        App::English => eng::words_spec(tr_lang),
        App::Japanese => jap::words_spec(tr_lang),
        _ => rus::words_spec(tr_lang),
    }
}

/// The languages that an app translates into. Meaningful for the apps that
/// are described.
pub open spec fn languages_spec(app: App) -> Seq<Language> {
    match app {
        App::Deutsch => deu::languages_spec(),
        App::English => eng::languages_spec(),
        App::Japanese => jap::languages_spec(),
        _ => rus::languages_spec(),
    }
}

/// The names of an app's card fields.
pub open spec fn anki_fields_spec(app: App) -> AnkiFieldNamesView {
    match app {
        App::Japanese => jap::anki_fields_spec(),
        _ => AnkiFieldNamesView::standard(),
    }
}

/// The content of an app's card fields for a word.
pub open spec fn anki_values_spec(app: App, w: WordView) -> AnkiFieldsView {
    match app {
        App::Japanese => jap::anki_values_spec(w),
        _ => AnkiFieldsView::of_word(w),
    }
}

/// Where sqlite db is located inside apk
pub fn app_apk_db_path(app: App) -> (path: &'static str)
    ensures
        path@ == apk_db_path_spec(app),
{
    match app {
        App::Russian => "res/kv",
        _ => "res/raw/englishwordsdb",
    }
}

/// Pseudo-random and stable id for anki collection
pub fn app_model_id(app: App) -> (id: i64)
    ensures
        id == model_id_spec(app),
{
    MODEL_ID_BASE + app.index()
}

/// SQL query for extracting words
///
/// The columns of its rows are those of a [`RawRow`]. An app that is not
/// described has no query, and asking for it fails.
pub fn app_sql(info: TrInfo) -> (sql: Result<String, UnsupportedApp>)
    ensures
        match sql {
            Ok(sql) => is_described(info.app) && sql@ == sql_spec(info.app, info.tr_lang),
            Err(e) => !is_described(info.app) && e.app == info.app,
        },
{
    match info.app {
        App::Deutsch => Ok(deu::words(info)),
        App::English => Ok(eng::words(info)),
        App::Japanese => Ok(jap::words(info)),
        App::Russian => Ok(rus::words(info)),
        _ => Err(UnsupportedApp { app: info.app }),
    }
}

/// The word that a row of an app's words query alone describes. All apps
/// read their rows alike.
pub fn app_query_map(app: App, row: RawRow) -> (word: Word)
    ensures
        word@ == row@.word(),
{
    map_row(row)
}

/// The words of an app's store, from the rows of its words query: each row
/// read by itself, then the rows of one word folded into one. The words
/// come in the order in which the rows first name them, each with the set
/// of its categories.
pub fn list_words(app: App, rows: Vec<RawRow>) -> (words: Vec<Word>)
    ensures
        words.deep_view() == folded(row_words(rows.deep_view())),
        forall|i: int|
            0 <= i < words.len() ==> (#[trigger] words.deep_view()[i]).category_ids.no_duplicates(),
{
    let ghost all = rows.deep_view();
    let mut read: Vec<Word> = Vec::with_capacity(rows.len());
    assert(read.deep_view() =~= row_words(all.take(0)));
    for row in it: rows
        invariant
            it.seq().len() == all.len(),
            forall|k: int| 0 <= k < all.len() ==> (#[trigger] it.seq()[k])@ == all[k],
            read.deep_view() == row_words(all.take(it.index() as int)),
    {
        let ghost before = read.deep_view();
        let word = app_query_map(app, row);
        read.push(word);
        assert(read.deep_view() =~= before.push(word@));
        assert(read.deep_view() =~= row_words(all.take(it.index() as int + 1)));
    }
    assert(all.take(all.len() as int) =~= all);
    fold_categories(read)
}

/// The names of an app's card fields.
pub fn app_anki_fields(app: App) -> (names: AnkiFieldNames)
    ensures
        names@ == anki_fields_spec(app),
{
    match app {
        App::Japanese => jap::anki_fields(),
        _ => AnkiFieldNames::default(),
    }
}

/// The content of an app's card fields for a word.
pub fn app_anki_values(app: App, w: &Word) -> (fields: AnkiFields)
    ensures
        fields@ == anki_values_spec(app, w@),
{
    match app {
        App::Japanese => jap::anki_values(w),
        _ => AnkiFields::from(w.clone()),
    }
}

/// List of languages supported by app for learning
///
/// An app that is not described has no list, and asking for it fails.
pub fn app_languages(app: App) -> (langs: Result<Vec<Language>, UnsupportedApp>)
    ensures
        match langs {
            Ok(langs) => is_described(app) && langs@ == languages_spec(app),
            Err(e) => !is_described(app) && e.app == app,
        },
{
    match app {
        App::Deutsch => Ok(deu::languages()),
        App::English => Ok(eng::languages()),
        App::Japanese => Ok(jap::languages()),
        App::Russian => Ok(rus::languages()),
        _ => Err(UnsupportedApp { app }),
    }
}

/// The identifier of a model says which app it is for: two apps never
/// share one.
pub proof fn lemma_model_id_tells_app(a: App, b: App)
    requires
        model_id_spec(a) == model_id_spec(b),
    ensures
        a == b,
{
}

/// The names and the values of an app's card fields are laid out alike:
/// there are as many of the one as of the other, for every word, and at
/// each position both speak of the same slot.
pub proof fn lemma_app_fields_align(app: App, w: WordView)
    ensures
        anki_fields_spec(app).names().len() == anki_values_spec(app, w).list().len(),
        forall|i: int|
            0 <= i < crate::fields::slots().len() ==> {
                &&& (#[trigger] anki_fields_spec(app).names()[i]) == anki_fields_spec(app).label(
                    crate::fields::slots()[i],
                )
                &&& anki_values_spec(app, w).list()[i] == anki_values_spec(app, w).value(
                    crate::fields::slots()[i],
                )
            },
{
}

} // verus!
