//! The fields of a card: their names, which make the schema of a flashcard
//! model, and their values, which make a note. Both are laid out by the one
//! list of [`slots`], so that the name and the value at one position always
//! speak of the same thing.

use crate::example::{bold_markup, Example, ExampleView};
use crate::word::{Picture, PictureView, Word, WordView};
use vstd::prelude::*;

verus! {

/// What a position in a note stands for.
pub enum Slot {
    /// The headword.
    Word,
    /// How the headword is read, for scripts that need it.
    Reading,
    /// The translation.
    Translate,
    /// The transcription.
    Transcription,
    /// The example sentences.
    Examples,
}

/// The slots of a note, in the order in which names and values are listed.
pub open spec fn slots() -> Seq<Slot> {
    seq![Slot::Word, Slot::Reading, Slot::Translate, Slot::Transcription, Slot::Examples]
}

/// The name of the examples field, which no app renames.
pub open spec fn examples_field() -> Seq<char> {
    "examples"@
}

/// A reference to the field `name` in a card template.
pub open spec fn field_spec(name: Seq<char>) -> Seq<char> {
    "{{"@ + name + "}}"@
}

/// The part of an answer side that shows the examples, if the note has any.
pub open spec fn examples_section() -> Seq<char> {
    "
{{#examples}}
<br>Examples:
{{examples}}
{{/examples}}"@
}

/// The answer side of a card that shows the three fields named, one to a
/// line, under the question, and the examples below them.
pub open spec fn answer_spec(first: Seq<char>, second: Seq<char>, third: Seq<char>) -> Seq<char> {
    field_spec("FrontSide"@) + "\n<hr id=\"answer\">\n"@ + field_spec(first) + "<br>\n"@
        + field_spec(second) + "<br>\n"@ + field_spec(third) + examples_section()
}

/// The names of an app's card fields.
#[derive(Debug, PartialEq, Eq)]
pub struct AnkiFieldNames {
    pub word: String,
    pub reading: String,
    pub transcription: String,
    pub translate: String,
    pub picture: String,
}

/// [`AnkiFieldNames`] as plain text.
pub struct AnkiFieldNamesView {
    pub word: Seq<char>,
    pub reading: Seq<char>,
    pub transcription: Seq<char>,
    pub translate: Seq<char>,
    pub picture: Seq<char>,
}

impl View for AnkiFieldNames {
    type V = AnkiFieldNamesView;

    open spec fn view(&self) -> AnkiFieldNamesView {
        AnkiFieldNamesView {
            word: self.word@,
            reading: self.reading@,
            transcription: self.transcription@,
            translate: self.translate@,
            picture: self.picture@,
        }
    }
}

impl Clone for AnkiFieldNames {
    fn clone(&self) -> (copy: AnkiFieldNames)
        ensures
            copy@ == self@,
    {
        AnkiFieldNames {
            word: self.word.clone(),
            reading: self.reading.clone(),
            transcription: self.transcription.clone(),
            translate: self.translate.clone(),
            picture: self.picture.clone(),
        }
    }
}

impl AnkiFieldNamesView {
    /// The names that an app uses unless it says otherwise.
    pub open spec fn standard() -> AnkiFieldNamesView {
        AnkiFieldNamesView {
            word: "Word"@,
            reading: "Reading"@,
            transcription: "Transcription"@,
            translate: "Translate"@,
            picture: "Picture"@,
        }
    }

    /// The name of the field in a slot.
    pub open spec fn label(self, slot: Slot) -> Seq<char> {
        match slot {
            Slot::Word => self.word,
            Slot::Reading => self.reading,
            Slot::Translate => self.translate,
            Slot::Transcription => self.transcription,
            Slot::Examples => examples_field(),
        }
    }

    /// The names of the fields, slot by slot.
    pub open spec fn names(self) -> Seq<Seq<char>> {
        slots().map_values(|slot: Slot| self.label(slot))
    }

    /// The question side of the forward card: the headword.
    pub open spec fn qfmt(self) -> Seq<char> {
        field_spec(self.word)
    }

    /// The question side of the reverse card: the translation.
    pub open spec fn qfmt_rev(self) -> Seq<char> {
        field_spec(self.translate)
    }

    /// The answer side of the forward card: reading, translation and
    /// transcription, then the examples.
    pub open spec fn afmt(self) -> Seq<char> {
        answer_spec(self.reading, self.translate, self.transcription)
    }

    /// The answer side of the reverse card: headword, reading and
    /// transcription, then the examples.
    pub open spec fn afmt_rev(self) -> Seq<char> {
        answer_spec(self.word, self.reading, self.transcription)
    }
}

impl Default for AnkiFieldNames {
    fn default() -> (names: AnkiFieldNames)
        ensures
            names@ == AnkiFieldNamesView::standard(),
    {
        AnkiFieldNames {
            word: "Word".to_owned(),
            reading: "Reading".to_owned(),
            transcription: "Transcription".to_owned(),
            translate: "Translate".to_owned(),
            picture: "Picture".to_owned(),
        }
    }
}

impl AnkiFieldNames {
    /// The question side of the forward card.
    pub fn qfmt(&self) -> (side: String)
        ensures
            side@ == self@.qfmt(),
    {
        AnkiFieldNames::field(self.word.as_str())
    }

    /// The question side of the reverse card.
    pub fn qfmt_rev(&self) -> (side: String)
        ensures
            side@ == self@.qfmt_rev(),
    {
        AnkiFieldNames::field(self.translate.as_str())
    }

    /// The answer side of the forward card.
    pub fn afmt(&self) -> (side: String)
        ensures
            side@ == self@.afmt(),
    {
        AnkiFieldNames::answer(
            self.reading.as_str(),
            self.translate.as_str(),
            self.transcription.as_str(),
        )
    }

    /// The answer side of the reverse card.
    pub fn afmt_rev(&self) -> (side: String)
        ensures
            side@ == self@.afmt_rev(),
    {
        AnkiFieldNames::answer(
            self.word.as_str(),
            self.reading.as_str(),
            self.transcription.as_str(),
        )
    }

    fn answer(first: &str, second: &str, third: &str) -> (side: String)
        ensures
            side@ == answer_spec(first@, second@, third@),
    {
        let mut side = AnkiFieldNames::field("FrontSide");
        side.append("\n<hr id=\"answer\">\n");
        side.append(AnkiFieldNames::field(first).as_str());
        side.append("<br>\n");
        side.append(AnkiFieldNames::field(second).as_str());
        side.append("<br>\n");
        side.append(AnkiFieldNames::field(third).as_str());
        side.append("
{{#examples}}
<br>Examples:
{{examples}}
{{/examples}}");
        side
    }

    /// A reference to the field `name` in a card template.
    pub fn field(name: &str) -> (reference: String)
        ensures
            reference@ == field_spec(name@),
    {
        let mut reference = "{{".to_owned();
        reference.append(name);
        reference.append("}}");
        reference
    }

    /// The position of the field by which a deck is sorted and duplicates
    /// are found: the headword, for every app.
    pub fn sort_index() -> (index: i64)
        ensures
            index == 0,
    {
        0
    }

    /// The names of the fields, slot by slot.
    pub fn names(&self) -> (names: Vec<&str>)
        ensures
            names.deep_view() == self@.names(),
    {
        let mut names: Vec<&str> = Vec::new();
        names.push(self.word.as_str());
        names.push(self.reading.as_str());
        names.push(self.translate.as_str());
        names.push(self.transcription.as_str());
        names.push("examples");
        assert(names.deep_view() =~= self@.names());
        names
    }
}

/// The content of an app's card fields for one word.
#[derive(Debug, PartialEq, Eq)]
pub struct AnkiFields {
    pub word: Option<String>,
    pub reading: Option<String>,
    pub transcription: String,
    pub translate: Option<String>,
    pub picture: Option<Picture>,
    pub examples: Option<Vec<Example>>,
}

/// [`AnkiFields`] as plain text.
pub struct AnkiFieldsView {
    pub word: Option<Seq<char>>,
    pub reading: Option<Seq<char>>,
    pub transcription: Seq<char>,
    pub translate: Option<Seq<char>>,
    pub picture: Option<PictureView>,
    pub examples: Option<Seq<ExampleView>>,
}

impl View for AnkiFields {
    type V = AnkiFieldsView;

    open spec fn view(&self) -> AnkiFieldsView {
        AnkiFieldsView {
            word: self.word.deep_view(),
            reading: self.reading.deep_view(),
            transcription: self.transcription@,
            translate: self.translate.deep_view(),
            picture: self.picture.deep_view(),
            examples: self.examples.deep_view(),
        }
    }
}

/// A text that may be missing; the empty text where it is.
pub open spec fn text_or_empty(text: Option<Seq<char>>) -> Seq<char> {
    match text {
        Some(text) => text,
        None => Seq::empty(),
    }
}

/// One example as a card shows it: the sentence stands open, its
/// translation unfolds on demand. The emphasis marks of both are rendered.
pub open spec fn details_html(e: ExampleView) -> Seq<char> {
    "<details><summary>"@ + bold_markup(e.original) + "</summary>"@ + bold_markup(e.translate)
        + "</details>"@
}

/// The examples of a list as a card shows them, one after the other.
pub open spec fn all_details_html(list: Seq<ExampleView>) -> Seq<char>
    decreases list.len(),
{
    if list.len() == 0 {
        Seq::empty()
    } else {
        all_details_html(list.drop_last()) + details_html(list.last())
    }
}

/// The content of the examples field: empty for a word without examples.
pub open spec fn examples_html(examples: Option<Seq<ExampleView>>) -> Seq<char> {
    match examples {
        Some(list) => all_details_html(list),
        None => Seq::empty(),
    }
}

impl AnkiFieldsView {
    /// What a word holds for the fields, put as it is.
    pub open spec fn of_word(w: WordView) -> AnkiFieldsView {
        AnkiFieldsView {
            word: w.word,
            reading: w.reading,
            transcription: w.transcription,
            translate: w.translate,
            picture: w.picture,
            examples: w.examples,
        }
    }

    /// The content of the field in a slot. A text that is missing counts as
    /// empty.
    pub open spec fn value(self, slot: Slot) -> Seq<char> {
        match slot {
            Slot::Word => text_or_empty(self.word),
            Slot::Reading => text_or_empty(self.reading),
            Slot::Translate => text_or_empty(self.translate),
            Slot::Transcription => self.transcription,
            Slot::Examples => examples_html(self.examples),
        }
    }

    /// The contents of the fields, slot by slot.
    pub open spec fn list(self) -> Seq<Seq<char>> {
        slots().map_values(|slot: Slot| self.value(slot))
    }
}

impl From<Word> for AnkiFields {
    /// What the word holds for the fields, put as it is.
    fn from(value: Word) -> (fields: AnkiFields)
        ensures
            fields@ == AnkiFieldsView::of_word(value@),
    {
        AnkiFields {
            word: value.word,
            reading: value.reading,
            transcription: value.transcription,
            translate: value.translate,
            picture: value.picture,
            examples: value.examples,
        }
    }
}

impl vstd::std_specs::convert::FromSpecImpl<Word> for AnkiFields {
    open spec fn obeys_from_spec() -> bool {
        true
    }

    open spec fn from_spec(value: Word) -> AnkiFields {
        AnkiFields {
            word: value.word,
            reading: value.reading,
            transcription: value.transcription,
            translate: value.translate,
            picture: value.picture,
            examples: value.examples,
        }
    }
}

fn text_or_empty_of(text: &Option<String>) -> (out: String)
    ensures
        out@ == text_or_empty(text.deep_view()),
{
    match text {
        Some(text) => text.clone(),
        None => String::new(),
    }
}

impl AnkiFields {
    /// The contents of the fields, slot by slot.
    pub fn list(&self) -> (values: Vec<String>)
        ensures
            values.deep_view() == self@.list(),
    {
        let mut values: Vec<String> = Vec::new();
        values.push(text_or_empty_of(&self.word));
        values.push(text_or_empty_of(&self.reading));
        values.push(text_or_empty_of(&self.translate));
        values.push(self.transcription.clone());
        values.push(examples_to_html(self.examples.as_ref()));
        assert(values.deep_view() =~= self@.list());
        values
    }
}

/// The content of the examples field for a word's examples: each example
/// as an unfolding block, and nothing for a word without examples.
pub fn examples_to_html(examples: Option<&Vec<Example>>) -> (html: String)
    ensures
        html@ == examples_html(examples.deep_view()),
{
    let Some(examples) = examples else {
        return String::new();
    };
    let mut res = String::new();
    let ghost list = examples.deep_view();
    assert(list.take(0) =~= Seq::<ExampleView>::empty());
    for i in 0..examples.len()
        invariant
            list == examples.deep_view(),
            res@ == all_details_html(list.take(i as int)),
    {
        let ex = examples[i].to_anki();
        assert(list.take(i + 1).drop_last() =~= list.take(i as int));
        res.append("<details><summary>");
        res.append(ex.original.as_str());
        res.append("</summary>");
        res.append(ex.translate.as_str());
        res.append("</details>");
    }
    assert(list.take(examples.len() as int) =~= list);
    res
}

/// The name and the value at one position of a note speak of the same
/// slot, there are as many names as values, and the field that a deck is
/// sorted by is the headword.
pub proof fn lemma_names_and_values_align(names: AnkiFieldNamesView, values: AnkiFieldsView)
    ensures
        names.names().len() == values.list().len() == slots().len(),
        forall|i: int|
            0 <= i < slots().len() ==> #[trigger] names.names()[i] == names.label(slots()[i]),
        forall|i: int|
            0 <= i < slots().len() ==> #[trigger] values.list()[i] == values.value(slots()[i]),
        slots()[0] == Slot::Word,
{
}

} // verus!
