//! The deck of one export: the flashcard model of the app, built once, and
//! one note for each word, in the order of the words. Model and notes carry
//! identifiers that depend on nothing but the app and the word, so that an
//! export made again updates the cards of the one before.

use crate::fields::AnkiFieldNames;
use crate::fold::{folded, lemma_fold_categories_are_a_set};
use crate::info::{App, TrInfo};
use crate::query::{
    anki_fields_spec, anki_values_spec, app_anki_fields, app_anki_values, app_model_id,
    model_id_spec,
};
use crate::text::{decimal, i64_decimal, lemma_decimal_injective};
use crate::word::{Word, WordView};
use vstd::prelude::*;

verus! {

/// The style sheet of the cards.
pub const CSS: &'static str = ".card {
  font-family: arial;
  font-size: 20px;
  text-align: center;
  color: black;
  background-color: white;
}
details {
  text-align: left;
}";

/// The identifier of the deck. Every export goes to this one deck.
pub const DECK_ID: i64 = 965781129384;

/// One card of a model: what it asks and what it answers.
#[derive(Debug, PartialEq, Eq)]
pub struct CardTemplate {
    pub name: String,
    pub qfmt: String,
    pub afmt: String,
}

/// A [`CardTemplate`] as plain text.
pub struct CardTemplateView {
    pub name: Seq<char>,
    pub qfmt: Seq<char>,
    pub afmt: Seq<char>,
}

impl View for CardTemplate {
    type V = CardTemplateView;

    open spec fn view(&self) -> CardTemplateView {
        CardTemplateView { name: self.name@, qfmt: self.qfmt@, afmt: self.afmt@ }
    }
}

impl DeepView for CardTemplate {
    type V = CardTemplateView;

    open spec fn deep_view(&self) -> CardTemplateView {
        self@
    }
}

/// The schema that all the notes of an export share: the names of their
/// fields and the cards that are made of each note.
#[derive(Debug, PartialEq, Eq)]
pub struct FlashcardModel {
    pub id: i64,
    pub name: String,
    pub fields: Vec<String>,
    pub templates: Vec<CardTemplate>,
    pub css: String,
    pub sort_field_index: i64,
}

/// A [`FlashcardModel`] as plain text.
pub struct FlashcardModelView {
    pub id: int,
    pub name: Seq<char>,
    pub fields: Seq<Seq<char>>,
    pub templates: Seq<CardTemplateView>,
    pub css: Seq<char>,
    pub sort_field_index: int,
}

impl View for FlashcardModel {
    type V = FlashcardModelView;

    open spec fn view(&self) -> FlashcardModelView {
        FlashcardModelView {
            id: self.id as int,
            name: self.name@,
            fields: self.fields.deep_view(),
            templates: self.templates.deep_view(),
            css: self.css@,
            sort_field_index: self.sort_field_index as int,
        }
    }
}

/// One exported word: the values of the model's fields, the word's
/// categories as tags, and the identifier by which an import recognises
/// the note.
#[derive(Debug, PartialEq, Eq)]
pub struct Note {
    pub fields: Vec<String>,
    pub tags: Vec<String>,
    pub guid: String,
}

/// A [`Note`] as plain text.
pub struct NoteView {
    pub fields: Seq<Seq<char>>,
    pub tags: Seq<Seq<char>>,
    pub guid: Seq<char>,
}

impl View for Note {
    type V = NoteView;

    open spec fn view(&self) -> NoteView {
        NoteView {
            fields: self.fields.deep_view(),
            tags: self.tags.deep_view(),
            guid: self.guid@,
        }
    }
}

impl DeepView for Note {
    type V = NoteView;

    open spec fn deep_view(&self) -> NoteView {
        self@
    }
}

/// A deck in memory, ready to be written out.
#[derive(Debug, PartialEq, Eq)]
pub struct Deck {
    pub id: i64,
    pub name: String,
    pub description: String,
    pub notes: Vec<Note>,
}

/// A [`Deck`] as plain text.
pub struct DeckView {
    pub id: int,
    pub name: Seq<char>,
    pub description: Seq<char>,
    pub notes: Seq<NoteView>,
}

impl View for Deck {
    type V = DeckView;

    open spec fn view(&self) -> DeckView {
        DeckView {
            id: self.id as int,
            name: self.name@,
            description: self.description@,
            notes: self.notes.deep_view(),
        }
    }
}

/// The name of a card that asks in one language and answers in another.
pub open spec fn direction_spec(from: Seq<char>, to: Seq<char>) -> Seq<char> {
    from + " - "@ + to
}

/// The flashcard model of an export. Its identifier and the names of its
/// fields depend on the app alone. It has two cards: the forward one asks
/// for the headword and is named from the language learned to the language
/// of the translations, the reverse one asks for the translation and is
/// named the other way round. The notes are sorted by their first field.
pub open spec fn model_spec(info: TrInfo) -> FlashcardModelView {
    let names = anki_fields_spec(info.app);
    FlashcardModelView {
        id: model_id_spec(info.app),
        name: "Reword "@ + info.app.display_spec(),
        fields: names.names(),
        templates: seq![
            CardTemplateView {
                name: direction_spec(info.learn_lang.display_spec(), info.tr_lang.display_spec()),
                qfmt: names.qfmt(),
                afmt: names.afmt(),
            },
            CardTemplateView {
                name: direction_spec(info.tr_lang.display_spec(), info.learn_lang.display_spec()),
                qfmt: names.qfmt_rev(),
                afmt: names.afmt_rev(),
            },
        ],
        css: CSS@,
        sort_field_index: 0,
    }
}

/// The deck of an export while it holds no note.
pub open spec fn empty_deck_spec(info: TrInfo) -> DeckView {
    DeckView {
        id: DECK_ID as int,
        name: direction_spec("Reword "@ + info.app.display_spec(), info.tr_lang.display_spec()),
        description: Seq::empty(),
        notes: Seq::empty(),
    }
}

/// The identifier of the note of a word: the app's short code and the
/// word's id in decimal, behind a fixed prefix.
pub open spec fn guid_spec(app: App, id: int) -> Seq<char> {
    "reword-"@ + app.kind_spec() + "-"@ + decimal(id)
}

/// The note of a word: the values of the app's card fields, the word's
/// categories as tags, and the identifier made of app and word id. The tags
/// are a set wherever the word's categories are one, as they are after
/// folding.
pub open spec fn note_spec(app: App, w: WordView) -> NoteView {
    NoteView {
        fields: anki_values_spec(app, w).list(),
        tags: w.category_ids,
        guid: guid_spec(app, w.id),
    }
}

/// The notes of a run of words, one for each word, in the order of the
/// words.
pub open spec fn notes_spec(app: App, words: Seq<WordView>) -> Seq<NoteView> {
    words.map_values(|w: WordView| note_spec(app, w))
}

/// The identifier of a note: `reword-`, the app's short code, `-`, and the
/// word's id in decimal.
pub fn note_guid(app: App, id: i64) -> (guid: String)
    ensures
        guid@ == guid_spec(app, id as int),
{
    let mut guid = "reword-".to_owned();
    guid.append(app.kind().as_str());
    guid.append("-");
    guid.append(i64_decimal(id).as_str());
    guid
}

/// The name of a card that asks in one language and answers in another.
fn direction(from: &str, to: &str) -> (name: String)
    ensures
        name@ == direction_spec(from@, to@),
{
    let mut name = from.to_owned();
    name.append(" - ");
    name.append(to);
    name
}

/// The flashcard model of an export.
pub fn flashcard_model(info: TrInfo) -> (model: FlashcardModel)
    ensures
        model@ == model_spec(info),
{
    let names = app_anki_fields(info.app);
    let learn = info.learn_lang.display();
    let tr = info.tr_lang.display();
    let mut name = "Reword ".to_owned();
    name.append(info.app.display().as_str());

    let mut fields: Vec<String> = Vec::new();
    let labels = names.names();
    for i in 0..labels.len()
        invariant
            fields.deep_view() == labels.deep_view().take(i as int),
    {
        let ghost before = fields.deep_view();
        let label = labels[i].to_owned();
        assert(label.deep_view() == labels.deep_view()[i as int]);
        fields.push(label);
        assert(fields.deep_view() =~= before.push(label.deep_view()));
        assert(fields.deep_view() =~= labels.deep_view().take(i + 1));
    }
    assert(labels.deep_view().take(labels.len() as int) =~= labels.deep_view());

    let mut templates: Vec<CardTemplate> = Vec::new();
    templates.push(
        CardTemplate {
            name: direction(learn.as_str(), tr.as_str()),
            qfmt: names.qfmt(),
            afmt: names.afmt(),
        },
    );
    templates.push(
        CardTemplate {
            name: direction(tr.as_str(), learn.as_str()),
            qfmt: names.qfmt_rev(),
            afmt: names.afmt_rev(),
        },
    );
    let model = FlashcardModel {
        id: app_model_id(info.app),
        name,
        fields,
        templates,
        css: CSS.to_owned(),
        sort_field_index: AnkiFieldNames::sort_index(),
    };
    assert(model.templates.deep_view() =~= model_spec(info).templates);
    model
}

/// Collects the notes of one export.
///
/// A writer is made for an app and a language, takes the words one by one
/// or run by run, and hands out model and deck at the end. All the while
/// its model is the one of the export, and each of its notes has a value
/// for every field of the model.
pub struct DeckWriter {
    model: FlashcardModel,
    deck: Deck,
    info: TrInfo,
}

impl DeckWriter {
    /// What the writer is for.
    pub closed spec fn info(&self) -> TrInfo {
        self.info
    }

    /// The flashcard model of the export.
    pub closed spec fn model(&self) -> FlashcardModelView {
        self.model@
    }

    /// The deck as far as it has been filled.
    pub closed spec fn deck(&self) -> DeckView {
        self.deck@
    }

    /// The notes taken so far.
    pub open spec fn notes(&self) -> Seq<NoteView> {
        self.deck().notes
    }

    /// The soundness of a writer: model and deck are those of its export,
    /// and every note has as many values as the model has fields.
    pub open spec fn wf(&self) -> bool {
        &&& self.model() == model_spec(self.info())
        &&& self.deck() == DeckView { notes: self.notes(), ..empty_deck_spec(self.info()) }
        &&& forall|i: int|
            0 <= i < self.notes().len() ==> (#[trigger] self.notes()[i]).fields.len()
                == self.model().fields.len()
    }

    /// A writer for one export, with the model of the export and no note.
    pub fn new(info: TrInfo) -> (writer: DeckWriter)
        ensures
            writer.wf(),
            writer.info() == info,
            writer.model() == model_spec(info),
            writer.deck() == empty_deck_spec(info),
    {
        let model = flashcard_model(info);
        let mut title = "Reword ".to_owned();
        title.append(info.app.display().as_str());
        let deck = Deck {
            id: DECK_ID,
            name: direction(title.as_str(), info.tr_lang.display().as_str()),
            description: String::new(),
            notes: Vec::new(),
        };
        assert(deck.notes.deep_view() =~= Seq::<NoteView>::empty());
        DeckWriter { model, deck, info }
    }

    /// Adds the note of a word behind the notes taken so far.
    pub fn word(&mut self, w: &Word)
        ensures
            final(self).info() == old(self).info(),
            final(self).model() == old(self).model(),
            final(self).deck() == (DeckView {
                notes: old(self).notes().push(note_spec(old(self).info().app, w@)),
                ..old(self).deck()
            }),
            old(self).wf() ==> final(self).wf(),
    {
        let note = Note {
            fields: app_anki_values(self.info.app, w).list(),
            tags: w.category_ids.clone(),
            guid: note_guid(self.info.app, w.id),
        };
        assert(note.tags.deep_view() =~= w@.category_ids);
        let ghost before = self.deck.notes.deep_view();
        self.deck.notes.push(note);
        assert(self.deck.notes.deep_view() =~= before.push(note@));
    }

    /// Adds the notes of a run of words, in the order of the words, behind
    /// the notes taken so far.
    pub fn words(&mut self, words: &[Word])
        ensures
            final(self).info() == old(self).info(),
            final(self).model() == old(self).model(),
            final(self).deck() == (DeckView {
                notes: old(self).notes() + notes_spec(old(self).info().app, words.deep_view()),
                ..old(self).deck()
            }),
            old(self).wf() ==> final(self).wf(),
    {
        let ghost app = self.info.app;
        let ghost all = words.deep_view();
        let ghost before = self.notes();
        assert(before + notes_spec(app, all.take(0)) =~= before);
        for i in 0..words.len()
            invariant
                all == words.deep_view(),
                self.info() == old(self).info(),
                self.info().app == app,
                self.model() == old(self).model(),
                self.deck() == (DeckView {
                    notes: before + notes_spec(app, all.take(i as int)),
                    ..old(self).deck()
                }),
                old(self).wf() ==> self.wf(),
        {
            self.word(&words[i]);
            assert(all.take(i + 1) =~= all.take(i as int).push(words[i as int]@));
            assert(self.notes() =~= before + notes_spec(app, all.take(i + 1)));
        }
        assert(all.take(words.len() as int) =~= all);
    }

    /// The flashcard model of the export.
    pub fn model_ref(&self) -> (model: &FlashcardModel)
        ensures
            model@ == self.model(),
    {
        &self.model
    }

    /// The deck as far as it has been filled.
    pub fn deck_ref(&self) -> (deck: &Deck)
        ensures
            deck@ == self.deck(),
    {
        &self.deck
    }

    /// What the writer is for.
    pub fn tr_info(&self) -> (info: TrInfo)
        ensures
            info == self.info(),
    {
        self.info
    }

    /// Ends the collecting: the model and the deck with all the notes
    /// taken.
    pub fn finish(self) -> (parts: (FlashcardModel, Deck))
        ensures
            parts.0@ == self.model(),
            parts.1@ == self.deck(),
    {
        (self.model, self.deck)
    }
}

/// Under one app, the identifier of a note tells the word: the notes of two
/// words with different ids never share one.
pub proof fn lemma_guid_tells_word(app: App, a: int, b: int)
    requires
        guid_spec(app, a) == guid_spec(app, b),
    ensures
        a == b,
{
    let prefix = "reword-"@ + app.kind_spec() + "-"@;
    let n = prefix.len() as int;
    let ga = guid_spec(app, a);
    let gb = guid_spec(app, b);
    assert(ga.subrange(n, ga.len() as int) =~= decimal(a));
    assert(gb.subrange(n, gb.len() as int) =~= decimal(b));
    lemma_decimal_injective(a, b);
}

/// The identifier of the model of an export and the names of its fields
/// depend on the app alone, whatever the languages.
pub proof fn lemma_model_depends_on_app(a: TrInfo, b: TrInfo)
    requires
        a.app == b.app,
    ensures
        model_spec(a).id == model_spec(b).id,
        model_spec(a).fields == model_spec(b).fields,
        model_spec(a).sort_field_index == model_spec(b).sort_field_index,
{
}

/// Taking the words in two runs gives the notes that taking them in one
/// run gives: where an export stops to measure its time changes neither
/// the notes nor their order.
pub proof fn lemma_notes_of_runs(app: App, words: Seq<WordView>, cut: int)
    requires
        0 <= cut <= words.len(),
    ensures
        notes_spec(app, words.take(cut)) + notes_spec(app, words.skip(cut)) == notes_spec(
            app,
            words,
        ),
{
    assert(notes_spec(app, words.take(cut)) + notes_spec(app, words.skip(cut)) =~= notes_spec(
        app,
        words,
    ));
}

/// The tags of a note are the categories of its word, so the note of a
/// folded word holds no tag twice.
pub proof fn lemma_tags_of_folded_word_are_a_set(app: App, words: Seq<WordView>, i: int)
    requires
        0 <= i < folded(words).len(),
    ensures
        note_spec(app, folded(words)[i]).tags == folded(words)[i].category_ids,
        note_spec(app, folded(words)[i]).tags.no_duplicates(),
{
    lemma_fold_categories_are_a_set(words);
}

/// Every note has a value for every field of the model of its app.
pub proof fn lemma_note_fits_model(info: TrInfo, w: WordView)
    ensures
        note_spec(info.app, w).fields.len() == model_spec(info).fields.len(),
{
}

} // verus!
