//! The catalogue of learning apps and of the languages they translate into.

use vstd::prelude::*;

verus! {

/// A Reword learning app, one per vocabulary dataset.
///
/// The position of an app in this list enters the identifier of the
/// flashcard model that is exported for it (see [`App::ordinal`]), so the
/// list is append-only: an entry is never moved or removed. Doing so would
/// turn every deck exported before into a stranger to the decks exported
/// after.
#[derive(Debug, Clone, Copy, PartialEq, Eq, Structural)]
pub enum App {
    Chinese,
    Czech,
    Deutsch,
    Dutch,
    English,
    Finnish,
    French,
    Italian,
    Japanese,
    Korean,
    Polish,
    Portuguese,
    Russian,
    Spanish,
    Turkish,
}

/// A human language, either the one an app teaches or the one it
/// translates into.
#[derive(Debug, Clone, Copy, PartialEq, Eq, Structural)]
pub enum Language {
    Chinese,
    Czech,
    Deutsch,
    Dutch,
    English,
    Finnish,
    French,
    Italian,
    Japanese,
    Korean,
    Polish,
    Portuguese,
    Russian,
    Spanish,
    Turkish,
}

/// What one export is about: the app, the language it teaches and the
/// language the learner reads the translations in.
#[derive(Debug, Clone, Copy, PartialEq, Eq, Structural)]
pub struct TrInfo {
    /// Reword's app kind
    pub app: App,
    /// App's target language
    pub learn_lang: Language,
    /// Translation (native) language
    pub tr_lang: Language,
}

impl App {
    /// The stable position of the app in the catalogue, counted from zero.
    pub open spec fn ordinal(self) -> int {
        match self {
            App::Chinese => 0,
            App::Czech => 1,
            App::Deutsch => 2,
            App::Dutch => 3,
            App::English => 4,
            App::Finnish => 5,
            App::French => 6,
            App::Italian => 7,
            App::Japanese => 8,
            App::Korean => 9,
            App::Polish => 10,
            App::Portuguese => 11,
            App::Russian => 12,
            App::Spanish => 13,
            App::Turkish => 14,
        }
    }

    /// The short code of the app, as a sequence of characters.
    pub open spec fn kind_spec(self) -> Seq<char> {
        match self {
            App::Chinese => "ch"@,
            App::Czech => "cz"@,
            App::Deutsch => "deu"@,
            App::Dutch => "du"@,
            App::English => "eng"@,
            App::Finnish => "fin"@,
            App::French => "fr"@,
            App::Italian => "it"@,
            App::Japanese => "jap"@,
            App::Korean => "kor"@,
            App::Polish => "pol"@,
            App::Portuguese => "por"@,
            App::Russian => "rus"@,
            App::Spanish => "sp"@,
            App::Turkish => "tur"@,
        }
    }

    /// The name of the language that the app teaches.
    pub open spec fn display_spec(self) -> Seq<char> {
        match self {
            App::Chinese => "Chinese"@,
            App::Czech => "Czech"@,
            App::Deutsch => "Deutsch"@,
            App::Dutch => "Dutch"@,
            App::English => "English"@,
            App::Finnish => "Finnish"@,
            App::French => "French"@,
            App::Italian => "Italian"@,
            App::Japanese => "Japanese"@,
            App::Korean => "Korean"@,
            App::Polish => "Polish"@,
            App::Portuguese => "Portuguese"@,
            App::Russian => "Russian"@,
            App::Spanish => "Spanish"@,
            App::Turkish => "Turkish"@,
        }
    }

    /// The title under which the app is published.
    pub open spec fn name_spec(self) -> Seq<char> {
        match self {
            App::English => "ReWord: Learn English Language"@,
            App::Japanese => "Learn Japanese JLPT vocabulary"@,
            App::Portuguese => "Learn Portuguese with ReWord"@,
            _ => "Learn "@ + self.display_spec() + " with flashcards"@,
        }
    }

    /// The apps that the interactive export offers.
    pub open spec fn supported_spec() -> Seq<App> {
        seq![App::English, App::Japanese, App::Russian]
    }

    /// The stable position of the app in the catalogue, counted from zero.
    pub fn index(&self) -> (n: i64)
        ensures
            n == self.ordinal(),
            0 <= n < 15,
    {
        match self {
            App::Chinese => 0,
            App::Czech => 1,
            App::Deutsch => 2,
            App::Dutch => 3,
            App::English => 4,
            App::Finnish => 5,
            App::French => 6,
            App::Italian => 7,
            App::Japanese => 8,
            App::Korean => 9,
            App::Polish => 10,
            App::Portuguese => 11,
            App::Russian => 12,
            App::Spanish => 13,
            App::Turkish => 14,
        }
    }

    /// The short code of the app.
    pub fn kind(&self) -> (s: String)
        ensures
            s@ == self.kind_spec(),
    {
        let s = match self {
            App::Chinese => "ch",
            App::Czech => "cz",
            App::Deutsch => "deu",
            App::Dutch => "du",
            App::English => "eng",
            App::Finnish => "fin",
            App::French => "fr",
            App::Italian => "it",
            App::Japanese => "jap",
            App::Korean => "kor",
            App::Polish => "pol",
            App::Portuguese => "por",
            App::Russian => "rus",
            App::Spanish => "sp",
            App::Turkish => "tur",
        };
        s.to_owned()
    }

    /// The name of the language that the app teaches.
    pub fn display(&self) -> (s: String)
        ensures
            s@ == self.display_spec(),
    {
        let s = match self {
            App::Chinese => "Chinese",
            App::Czech => "Czech",
            App::Deutsch => "Deutsch",
            App::Dutch => "Dutch",
            App::English => "English",
            App::Finnish => "Finnish",
            App::French => "French",
            App::Italian => "Italian",
            App::Japanese => "Japanese",
            App::Korean => "Korean",
            App::Polish => "Polish",
            App::Portuguese => "Portuguese",
            App::Russian => "Russian",
            App::Spanish => "Spanish",
            App::Turkish => "Turkish",
        };
        s.to_owned()
    }

    /// The title under which the app is published. This is also how the app
    /// is shown to a user who picks one.
    pub fn name(&self) -> (s: String)
        ensures
            s@ == self.name_spec(),
    {
        match self {
            App::English => "ReWord: Learn English Language".to_owned(),
            App::Japanese => "Learn Japanese JLPT vocabulary".to_owned(),
            App::Portuguese => "Learn Portuguese with ReWord".to_owned(),
            _ => {
                let mut s = "Learn ".to_owned();
                s.append(self.display().as_str());
                s.append(" with flashcards");
                s
            },
        }
    }

    /// The apps that the interactive export offers, in the order in which
    /// they are offered.
    pub fn supported() -> (apps: Vec<App>)
        ensures
            apps@ == App::supported_spec(),
    {
        let mut apps: Vec<App> = Vec::new();
        apps.push(App::English);
        apps.push(App::Japanese);
        apps.push(App::Russian);
        assert(apps@ =~= App::supported_spec());
        apps
    }
}

impl Language {
    /// The short code of the language, as a sequence of characters. The
    /// stores name their per-language columns by it.
    pub open spec fn kind_spec(self) -> Seq<char> {
        match self {
            Language::Chinese => "zht"@,
            Language::Czech => "cz"@,
            Language::Deutsch => "deu"@,
            Language::Dutch => "du"@,
            Language::English => "eng"@,
            Language::Finnish => "fin"@,
            Language::French => "fra"@,
            Language::Italian => "ita"@,
            Language::Japanese => "jpn"@,
            Language::Korean => "kor"@,
            Language::Polish => "pol"@,
            Language::Portuguese => "por"@,
            Language::Russian => "rus"@,
            Language::Spanish => "spa"@,
            Language::Turkish => "tur"@,
        }
    }

    /// The name of the language.
    pub open spec fn display_spec(self) -> Seq<char> {
        match self {
            Language::Chinese => "Chinese"@,
            Language::Czech => "Czech"@,
            Language::Deutsch => "Deutsch"@,
            Language::Dutch => "Dutch"@,
            Language::English => "English"@,
            Language::Finnish => "Finnish"@,
            Language::French => "French"@,
            Language::Italian => "Italian"@,
            Language::Japanese => "Japanese"@,
            Language::Korean => "Korean"@,
            Language::Polish => "Polish"@,
            Language::Portuguese => "Portuguese"@,
            Language::Russian => "Russian"@,
            Language::Spanish => "Spanish"@,
            Language::Turkish => "Turkish"@,
        }
    }

    /// The language that an app teaches: the entry of the same name.
    pub open spec fn of_app(app: App) -> Language {
        match app {
            App::Chinese => Language::Chinese,
            App::Czech => Language::Czech,
            App::Deutsch => Language::Deutsch,
            App::Dutch => Language::Dutch,
            App::English => Language::English,
            App::Finnish => Language::Finnish,
            App::French => Language::French,
            App::Italian => Language::Italian,
            App::Japanese => Language::Japanese,
            App::Korean => Language::Korean,
            App::Polish => Language::Polish,
            App::Portuguese => Language::Portuguese,
            App::Russian => Language::Russian,
            App::Spanish => Language::Spanish,
            App::Turkish => Language::Turkish,
        }
    }

    /// The short code of the language.
    pub fn kind(&self) -> (s: String)
        ensures
            s@ == self.kind_spec(),
    {
        let s = match self {
            Language::Chinese => "zht",
            Language::Czech => "cz",
            Language::Deutsch => "deu",
            Language::Dutch => "du",
            Language::English => "eng",
            Language::Finnish => "fin",
            Language::French => "fra",
            Language::Italian => "ita",
            Language::Japanese => "jpn",
            Language::Korean => "kor",
            Language::Polish => "pol",
            Language::Portuguese => "por",
            Language::Russian => "rus",
            Language::Spanish => "spa",
            Language::Turkish => "tur",
        };
        s.to_owned()
    }

    /// The name of the language. This is also how the language is shown to
    /// a user who picks one.
    pub fn display(&self) -> (s: String)
        ensures
            s@ == self.display_spec(),
    {
        let s = match self {
            Language::Chinese => "Chinese",
            Language::Czech => "Czech",
            Language::Deutsch => "Deutsch",
            Language::Dutch => "Dutch",
            Language::English => "English",
            Language::Finnish => "Finnish",
            Language::French => "French",
            Language::Italian => "Italian",
            Language::Japanese => "Japanese",
            Language::Korean => "Korean",
            Language::Polish => "Polish",
            Language::Portuguese => "Portuguese",
            Language::Russian => "Russian",
            Language::Spanish => "Spanish",
            Language::Turkish => "Turkish",
        };
        s.to_owned()
    }
}

impl From<App> for Language {
    /// The language that the app teaches.
    fn from(value: App) -> (lang: Language) {
        match value {
            App::Chinese => Language::Chinese,
            App::Czech => Language::Czech,
            App::Deutsch => Language::Deutsch,
            App::Dutch => Language::Dutch,
            App::English => Language::English,
            App::Finnish => Language::Finnish,
            App::French => Language::French,
            App::Italian => Language::Italian,
            App::Japanese => Language::Japanese,
            App::Korean => Language::Korean,
            App::Polish => Language::Polish,
            App::Portuguese => Language::Portuguese,
            App::Russian => Language::Russian,
            App::Spanish => Language::Spanish,
            App::Turkish => Language::Turkish,
        }
    }
}

impl vstd::std_specs::convert::FromSpecImpl<App> for Language {
    open spec fn obeys_from_spec() -> bool {
        true
    }

    open spec fn from_spec(value: App) -> Language {
        Language::of_app(value)
    }
}

impl TrInfo {
    /// The export of `app` with translations into `tr_lang`; the language
    /// learned is the one that the app teaches.
    pub fn new(app: App, tr_lang: Language) -> (info: TrInfo)
        ensures
            info == (TrInfo { app, learn_lang: Language::of_app(app), tr_lang }),
    {
        TrInfo { app, learn_lang: Language::from(app), tr_lang }
    }
}

} // verus!
