//! Words, their pictures and categories, and the rows of a store that they
//! are read from.

use crate::example::{examples_of, Example, ExampleView, ExamplesPayload, ExamplesPayloadView};
use crate::info::Language;
use crate::text::{decimal, i64_decimal, same_text};
use vstd::prelude::*;

verus! {

/// Where a picture comes from.
#[derive(Debug, PartialEq, Eq)]
pub enum PictureSource {
    Pixabay,
    Pexels,
    Other(String),
}

/// A [`PictureSource`] as plain text.
pub enum PictureSourceView {
    Pixabay,
    Pexels,
    Other(Seq<char>),
}

impl View for PictureSource {
    type V = PictureSourceView;

    open spec fn view(&self) -> PictureSourceView {
        match self {
            PictureSource::Pixabay => PictureSourceView::Pixabay,
            PictureSource::Pexels => PictureSourceView::Pexels,
            PictureSource::Other(name) => PictureSourceView::Other(name@),
        }
    }
}

impl Clone for PictureSource {
    fn clone(&self) -> (copy: PictureSource)
        ensures
            copy@ == self@,
    {
        match self {
            PictureSource::Pixabay => PictureSource::Pixabay,
            PictureSource::Pexels => PictureSource::Pexels,
            PictureSource::Other(name) => PictureSource::Other(name.clone()),
        }
    }
}

impl PictureSourceView {
    /// The source that a store's name for it stands for: the two known
    /// sources by their names in lower case, any other name for itself.
    pub open spec fn named(name: Seq<char>) -> PictureSourceView {
        if name == "pixabay"@ {
            PictureSourceView::Pixabay
        } else if name == "pexels"@ {
            PictureSourceView::Pexels
        } else {
            PictureSourceView::Other(name)
        }
    }

    /// The name of the source, as a store writes it.
    pub open spec fn name(self) -> Seq<char> {
        match self {
            PictureSourceView::Pixabay => "pixabay"@,
            PictureSourceView::Pexels => "pexels"@,
            PictureSourceView::Other(name) => name,
        }
    }
}

impl PictureSource {
    /// The source that a store's name for it stands for.
    pub fn named(value: &str) -> (source: PictureSource)
        ensures
            source@ == PictureSourceView::named(value@),
    {
        if same_text(value, "pixabay") {
            PictureSource::Pixabay
        } else if same_text(value, "pexels") {
            PictureSource::Pexels
        } else {
            PictureSource::Other(value.to_owned())
        }
    }

    /// The name of the source, as a store writes it.
    pub fn name(&self) -> (name: String)
        ensures
            name@ == self@.name(),
    {
        match self {
            PictureSource::Pixabay => "pixabay".to_owned(),
            PictureSource::Pexels => "pexels".to_owned(),
            PictureSource::Other(name) => name.clone(),
        }
    }
}

/// A reference to a picture: the source and the picture's identifier there.
#[derive(Debug, PartialEq, Eq)]
pub struct Picture {
    pub source: PictureSource,
    pub source_id: String,
}

/// A [`Picture`] as plain text.
pub struct PictureView {
    pub source: PictureSourceView,
    pub source_id: Seq<char>,
}

impl View for Picture {
    type V = PictureView;

    open spec fn view(&self) -> PictureView {
        PictureView { source: self.source@, source_id: self.source_id@ }
    }
}

impl DeepView for Picture {
    type V = PictureView;

    open spec fn deep_view(&self) -> PictureView {
        self@
    }
}

impl Clone for Picture {
    fn clone(&self) -> (copy: Picture)
        ensures
            copy@ == self@,
    {
        Picture { source: self.source.clone(), source_id: self.source_id.clone() }
    }
}

impl PictureView {
    /// The picture that the two columns of a row give: one only where both
    /// are there.
    pub open spec fn of_columns(source: Option<Seq<char>>, source_id: Option<Seq<char>>) -> Option<
        PictureView,
    > {
        match (source, source_id) {
            (Some(source), Some(source_id)) => Some(
                PictureView { source: PictureSourceView::named(source), source_id },
            ),
            _ => None,
        }
    }
}

impl Picture {
    /// The picture that the two columns of a row give: one only where both
    /// are there.
    pub fn new(source: Option<String>, source_id: Option<String>) -> (picture: Option<Picture>)
        ensures
            picture.deep_view() == PictureView::of_columns(
                source.deep_view(),
                source_id.deep_view(),
            ),
    {
        match (source, source_id) {
            (Some(source), Some(source_id)) => Some(
                Picture { source: PictureSource::named(source.as_str()), source_id },
            ),
            _ => None,
        }
    }
}

/// A group of words in a store. `words_count` is for show only.
#[derive(Debug, PartialEq, Eq)]
pub struct Category {
    pub id: String,
    pub name: String,
    pub words_count: i64,
}

/// A [`Category`] as plain text.
pub struct CategoryView {
    pub id: Seq<char>,
    pub name: Seq<char>,
    pub words_count: int,
}

impl View for Category {
    type V = CategoryView;

    open spec fn view(&self) -> CategoryView {
        CategoryView { id: self.id@, name: self.name@, words_count: self.words_count as int }
    }
}

impl DeepView for Category {
    type V = CategoryView;

    open spec fn deep_view(&self) -> CategoryView {
        self@
    }
}

impl Clone for Category {
    fn clone(&self) -> (copy: Category)
        ensures
            copy@ == self@,
    {
        Category { id: self.id.clone(), name: self.name.clone(), words_count: self.words_count }
    }
}

impl Category {
    /// The query that lists the categories of a store, named in `lang`.
    pub open spec fn list_sql_spec(lang: Language) -> Seq<char> {
        "select
           c.id,
           "@ + "c.name_"@ + lang.kind_spec() + " as name,
           (
             select
               count(*)
               from word_category wc
               where wc.category_id = c.id
           ) as words_count
         from category c
         where c.is_custom = 0"@
    }

    /// The line that shows a category to a user who picks some.
    pub open spec fn label_spec(name: Seq<char>, words_count: int) -> Seq<char> {
        name + " ("@ + decimal(words_count) + " words)"@
    }

    /// The query that lists the categories of a store, named in `lang`. Its
    /// columns are `id`, `name` and `words_count`.
    pub fn list_sql(lang: Language) -> (sql: String)
        ensures
            sql@ == Category::list_sql_spec(lang),
    {
        let mut sql = "select
           c.id,
           ".to_owned();
        sql.append("c.name_");
        sql.append(lang.kind().as_str());
        sql.append(" as name,
           (
             select
               count(*)
               from word_category wc
               where wc.category_id = c.id
           ) as words_count
         from category c
         where c.is_custom = 0");
        sql
    }

    /// The line that shows the category to a user who picks some.
    pub fn label(&self) -> (label: String)
        ensures
            label@ == Category::label_spec(self.name@, self.words_count as int),
    {
        let mut label = self.name.clone();
        label.append(" (");
        label.append(i64_decimal(self.words_count).as_str());
        label.append(" words)");
        label
    }
}

/// A word of a vocabulary, with the categories it belongs to. After folding
/// the categories are a set: none occurs twice.
#[derive(Debug, PartialEq, Eq)]
pub struct Word {
    pub id: i64,
    pub word: Option<String>,
    pub transcription: String,
    pub picture: Option<Picture>,
    pub reading: Option<String>,
    pub translate: Option<String>,
    pub examples: Option<Vec<Example>>,
    pub category_ids: Vec<String>,
}

/// A [`Word`] as plain text.
pub struct WordView {
    pub id: int,
    pub word: Option<Seq<char>>,
    pub transcription: Seq<char>,
    pub picture: Option<PictureView>,
    pub reading: Option<Seq<char>>,
    pub translate: Option<Seq<char>>,
    pub examples: Option<Seq<ExampleView>>,
    pub category_ids: Seq<Seq<char>>,
}

impl View for Word {
    type V = WordView;

    open spec fn view(&self) -> WordView {
        WordView {
            id: self.id as int,
            word: self.word.deep_view(),
            transcription: self.transcription@,
            picture: self.picture.deep_view(),
            reading: self.reading.deep_view(),
            translate: self.translate.deep_view(),
            examples: self.examples.deep_view(),
            category_ids: self.category_ids.deep_view(),
        }
    }
}

impl DeepView for Word {
    type V = WordView;

    open spec fn deep_view(&self) -> WordView {
        self@
    }
}

impl Clone for Word {
    fn clone(&self) -> (copy: Word)
        ensures
            copy@ == self@,
    {
        let copy = Word {
            id: self.id,
            word: self.word.clone(),
            transcription: self.transcription.clone(),
            picture: self.picture.clone(),
            reading: self.reading.clone(),
            translate: self.translate.clone(),
            examples: self.examples.clone(),
            category_ids: self.category_ids.clone(),
        };
        assert(copy.examples.deep_view() =~= self.examples.deep_view());
        assert(copy.category_ids.deep_view() =~= self.category_ids.deep_view());
        copy
    }
}

/// One row of the words query: a word joined with one of its categories.
/// A word of three categories comes as three rows. A column that the store
/// left empty is `None`.
#[derive(Debug, PartialEq, Eq)]
pub struct RawRow {
    pub id: i64,
    pub word: Option<String>,
    pub reading: Option<String>,
    pub transcription: String,
    pub translate: Option<String>,
    pub examples: ExamplesPayload,
    pub category_id: Option<String>,
    pub picture_source: Option<String>,
    pub picture_source_id: Option<String>,
}

/// A [`RawRow`] as plain text.
pub struct RawRowView {
    pub id: int,
    pub word: Option<Seq<char>>,
    pub reading: Option<Seq<char>>,
    pub transcription: Seq<char>,
    pub translate: Option<Seq<char>>,
    pub examples: ExamplesPayloadView,
    pub category_id: Option<Seq<char>>,
    pub picture_source: Option<Seq<char>>,
    pub picture_source_id: Option<Seq<char>>,
}

impl View for RawRow {
    type V = RawRowView;

    open spec fn view(&self) -> RawRowView {
        RawRowView {
            id: self.id as int,
            word: self.word.deep_view(),
            reading: self.reading.deep_view(),
            transcription: self.transcription@,
            translate: self.translate.deep_view(),
            examples: self.examples@,
            category_id: self.category_id.deep_view(),
            picture_source: self.picture_source.deep_view(),
            picture_source_id: self.picture_source_id.deep_view(),
        }
    }
}

impl DeepView for RawRow {
    type V = RawRowView;

    open spec fn deep_view(&self) -> RawRowView {
        self@
    }
}

impl RawRowView {
    /// The one category of the row; a row without one counts as being in
    /// the category whose id is the empty text.
    pub open spec fn category(self) -> Seq<char> {
        match self.category_id {
            Some(id) => id,
            None => Seq::empty(),
        }
    }

    /// The word that the row alone describes: its columns as they are, the
    /// picture and the examples as far as the row has them, and the row's
    /// one category.
    pub open spec fn word(self) -> WordView {
        WordView {
            id: self.id,
            word: self.word,
            transcription: self.transcription,
            picture: PictureView::of_columns(self.picture_source, self.picture_source_id),
            reading: self.reading,
            translate: self.translate,
            examples: examples_of(self.examples),
            category_ids: seq![self.category()],
        }
    }
}

/// The word that a row alone describes.
pub fn map_row(row: RawRow) -> (word: Word)
    ensures
        word@ == row@.word(),
{
    let category = match row.category_id {
        Some(id) => id,
        None => String::new(),
    };
    let mut category_ids: Vec<String> = Vec::new();
    category_ids.push(category);
    let word = Word {
        id: row.id,
        word: row.word,
        transcription: row.transcription,
        picture: Picture::new(row.picture_source, row.picture_source_id),
        reading: row.reading,
        translate: row.translate,
        examples: Example::from_db(row.examples),
        category_ids,
    };
    assert(word.category_ids.deep_view() =~= seq![row@.category()]);
    word
}

} // verus!
