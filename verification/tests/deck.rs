use reword_deck::deck::{
    flashcard_model, note_guid, CardTemplate, Deck, DeckWriter, FlashcardModel, Note, CSS,
    DECK_ID,
};
use reword_deck::example::Example;
use reword_deck::fields::AnkiFieldNames;
use reword_deck::fold::fold_categories;
use reword_deck::info::{App, Language, TrInfo};
use reword_deck::word::Word;

const BACK: &str = "\n{{#examples}}\n<br>Examples:\n{{examples}}\n{{/examples}}";

fn word(id: i64, headword: &str, categories: &[&str]) -> Word {
    Word {
        id,
        word: Some(headword.to_string()),
        transcription: format!("[{headword}]"),
        picture: None,
        reading: None,
        translate: Some(format!("{headword} translated")),
        examples: None,
        category_ids: categories.iter().map(|c| c.to_string()).collect(),
    }
}

fn note(id: i64, headword: &str, categories: &[&str]) -> Note {
    Note {
        fields: vec![
            headword.to_string(),
            String::new(),
            format!("{headword} translated"),
            format!("[{headword}]"),
            String::new(),
        ],
        tags: categories.iter().map(|c| c.to_string()).collect(),
        guid: format!("reword-eng-{id}"),
    }
}

#[test]
fn model_of_the_english_app() {
    let model = flashcard_model(TrInfo::new(App::English, Language::Russian));
    assert_eq!(
        model,
        FlashcardModel {
            id: 10964854234534,
            name: "Reword English".to_string(),
            fields: vec![
                "Word".to_string(),
                "Reading".to_string(),
                "Translate".to_string(),
                "Transcription".to_string(),
                "examples".to_string(),
            ],
            templates: vec![
                CardTemplate {
                    name: "English - Russian".to_string(),
                    qfmt: "{{Word}}".to_string(),
                    afmt: format!(
                        "{{{{FrontSide}}}}\n<hr id=\"answer\">\n{{{{Reading}}}}<br>\n\
                         {{{{Translate}}}}<br>\n{{{{Transcription}}}}{BACK}"
                    ),
                },
                CardTemplate {
                    name: "Russian - English".to_string(),
                    qfmt: "{{Translate}}".to_string(),
                    afmt: format!(
                        "{{{{FrontSide}}}}\n<hr id=\"answer\">\n{{{{Word}}}}<br>\n\
                         {{{{Reading}}}}<br>\n{{{{Transcription}}}}{BACK}"
                    ),
                },
            ],
            css: ".card {\n  font-family: arial;\n  font-size: 20px;\n  text-align: center;\n  \
                  color: black;\n  background-color: white;\n}\ndetails {\n  text-align: left;\n}"
                .to_string(),
            sort_field_index: 0,
        }
    );
    assert_eq!(model.css, CSS);
}

#[test]
fn model_of_the_japanese_app() {
    let model = flashcard_model(TrInfo::new(App::Japanese, Language::English));
    assert_eq!(model.id, 10964854234538);
    assert_eq!(model.name, "Reword Japanese");
    assert_eq!(
        model.fields,
        vec!["Kanji", "Kana", "Translate", "Romaji", "examples"]
    );
    assert_eq!(model.templates.len(), 2);
    assert_eq!(model.templates[0].name, "Japanese - English");
    assert_eq!(model.templates[0].qfmt, "{{Kanji}}");
    assert_eq!(
        model.templates[0].afmt,
        format!(
            "{{{{FrontSide}}}}\n<hr id=\"answer\">\n{{{{Kana}}}}<br>\n{{{{Translate}}}}<br>\n\
             {{{{Romaji}}}}{BACK}"
        )
    );
    assert_eq!(model.templates[1].name, "English - Japanese");
    assert_eq!(model.templates[1].qfmt, "{{Translate}}");
    assert_eq!(
        model.templates[1].afmt,
        format!(
            "{{{{FrontSide}}}}\n<hr id=\"answer\">\n{{{{Kanji}}}}<br>\n{{{{Kana}}}}<br>\n\
             {{{{Romaji}}}}{BACK}"
        )
    );
    assert_eq!(model.sort_field_index, AnkiFieldNames::sort_index());
}

#[test]
fn model_id_and_fields_depend_on_the_app_alone() {
    let to_russian = flashcard_model(TrInfo::new(App::English, Language::Russian));
    let to_spanish = flashcard_model(TrInfo::new(App::English, Language::Spanish));
    assert_eq!(to_russian.id, to_spanish.id);
    assert_eq!(to_russian.fields, to_spanish.fields);
    assert_ne!(to_russian.templates[0].name, to_spanish.templates[0].name);
    // the same export gives the same model again
    assert_eq!(
        to_russian,
        flashcard_model(TrInfo::new(App::English, Language::Russian))
    );
}

#[test]
fn templates_name_fields_of_the_model() {
    for app in [App::English, App::Japanese, App::Russian] {
        let model = flashcard_model(TrInfo::new(app, Language::English));
        for template in &model.templates {
            let asked = template
                .qfmt
                .trim_start_matches("{{")
                .trim_end_matches("}}")
                .to_string();
            assert!(model.fields.contains(&asked));
        }
        assert_eq!(model.fields[model.sort_field_index as usize], model.fields[0]);
    }
}

#[test]
fn guid_is_made_of_app_and_word() {
    assert_eq!(note_guid(App::English, 42), "reword-eng-42");
    assert_eq!(note_guid(App::Japanese, 0), "reword-jap-0");
    assert_eq!(note_guid(App::Russian, -5), "reword-rus--5");
    assert_eq!(
        note_guid(App::Spanish, i64::MIN),
        "reword-sp--9223372036854775808"
    );
    assert_eq!(note_guid(App::English, 42), note_guid(App::English, 42));
}

#[test]
fn guids_of_different_words_differ() {
    let ids = [-12, -1, 0, 1, 2, 10, 11, 12, 100, 101, 110, 111, 1000];
    for a in ids {
        for b in ids {
            assert_eq!(
                note_guid(App::English, a) == note_guid(App::English, b),
                a == b
            );
        }
    }
}

#[test]
fn a_new_writer_holds_an_empty_deck() {
    let info = TrInfo::new(App::English, Language::Russian);
    let writer = DeckWriter::new(info);
    assert_eq!(writer.tr_info(), info);
    assert_eq!(writer.model_ref(), &flashcard_model(info));
    assert_eq!(
        writer.deck_ref(),
        &Deck {
            id: 965781129384,
            name: "Reword English - Russian".to_string(),
            description: String::new(),
            notes: vec![],
        }
    );
    assert_eq!(DECK_ID, 965781129384);
}

#[test]
fn each_word_becomes_a_note() {
    let mut writer = DeckWriter::new(TrInfo::new(App::English, Language::Russian));
    writer.word(&word(1, "cat", &["A", "B"]));
    writer.word(&word(2, "dog", &["A"]));
    let (model, deck) = writer.finish();
    assert_eq!(
        deck.notes,
        vec![note(1, "cat", &["A", "B"]), note(2, "dog", &["A"])]
    );
    for note in &deck.notes {
        assert_eq!(note.fields.len(), model.fields.len());
    }
    assert_eq!(deck.name, "Reword English - Russian");
}

#[test]
fn a_note_shows_the_examples_of_its_word() {
    let mut w = word(3, "tea", &[]);
    w.examples = Some(vec![Example {
        original: "I #like# tea".to_string(),
        translate: "Я #люблю# чай".to_string(),
    }]);
    let mut writer = DeckWriter::new(TrInfo::new(App::English, Language::Russian));
    writer.word(&w);
    let notes = &writer.deck_ref().notes;
    assert_eq!(notes.len(), 1);
    assert_eq!(
        notes[0].fields[4],
        "<details><summary>I <b>like</b> tea</summary>Я <b>люблю</b> чай</details>"
    );
    assert_eq!(notes[0].tags, Vec::<String>::new());
}

#[test]
fn a_japanese_note_falls_back_to_kana() {
    let w = Word {
        id: 9,
        word: None,
        transcription: "neko".to_string(),
        picture: None,
        reading: Some("ねこ".to_string()),
        translate: Some("cat".to_string()),
        examples: None,
        category_ids: vec!["n5".to_string()],
    };
    let mut writer = DeckWriter::new(TrInfo::new(App::Japanese, Language::English));
    writer.word(&w);
    assert_eq!(
        writer.deck_ref().notes,
        vec![Note {
            fields: vec![
                "ねこ".to_string(),
                String::new(),
                "cat".to_string(),
                "neko".to_string(),
                String::new(),
            ],
            tags: vec!["n5".to_string()],
            guid: "reword-jap-9".to_string(),
        }]
    );
}

#[test]
fn runs_of_words_give_the_notes_of_the_words_in_order() {
    let words: Vec<Word> = (0..7).map(|id| word(id, &format!("w{id}"), &["c"])).collect();
    let info = TrInfo::new(App::English, Language::Russian);

    let mut one_by_one = DeckWriter::new(info);
    for w in &words {
        one_by_one.word(w);
    }
    let mut in_one_run = DeckWriter::new(info);
    in_one_run.words(&words);
    let mut in_two_runs = DeckWriter::new(info);
    in_two_runs.words(&words[..3]);
    in_two_runs.words(&words[3..]);

    let expected: Vec<Note> = (0..7).map(|id| note(id, &format!("w{id}"), &["c"])).collect();
    assert_eq!(one_by_one.deck_ref().notes, expected);
    assert_eq!(in_one_run.deck_ref().notes, expected);
    assert_eq!(in_two_runs.deck_ref().notes, expected);
}

#[test]
fn an_empty_run_adds_nothing() {
    let mut writer = DeckWriter::new(TrInfo::new(App::Russian, Language::English));
    writer.words(&[]);
    assert_eq!(writer.deck_ref().notes, vec![]);
}

#[test]
fn the_tags_of_a_folded_word_are_a_set() {
    let words = fold_categories(vec![
        word(1, "cat", &["A"]),
        word(1, "cat", &["A"]),
        word(1, "cat", &["B", "A"]),
    ]);
    let mut writer = DeckWriter::new(TrInfo::new(App::English, Language::Russian));
    writer.words(&words);
    assert_eq!(writer.deck_ref().notes, vec![note(1, "cat", &["A", "B"])]);
}
