use reword_deck::fields::{AnkiFieldNames, AnkiFields};
use reword_deck::word::{Picture, PictureSource};

const EXAMPLES_FIELD: &str = "examples";

#[test]
fn test_anki_fields() {
    let word = "word";
    let reading = "reading";
    let translate = "translate";
    let transcription = "transcription";
    let picture = "picture";

    let expected = vec![word, reading, translate, transcription, EXAMPLES_FIELD];

    let names = AnkiFieldNames {
        word: word.to_string(),
        reading: reading.to_string(),
        transcription: transcription.to_string(),
        translate: translate.to_string(),
        picture: picture.to_string(),
    };
    let fields = AnkiFields {
        word: Some(word.to_string()),
        reading: Some(reading.to_string()),
        transcription: transcription.to_string(),
        translate: Some(translate.to_string()),
        picture: Some(Picture {
            source: PictureSource::Pixabay,
            source_id: "asdf".to_string(),
        }),
        examples: None,
    };

    assert_eq!(names.qfmt(), "{{word}}");
    assert_eq!(names.qfmt_rev(), "{{translate}}");

    let names: Vec<_> = names.names().into_iter().collect();
    assert_eq!(
        names[AnkiFieldNames::sort_index() as usize],
        word,
        "sort_index does not point to {word}"
    );
    assert_eq!(names, expected.clone(), "field's names are broken");

    // a word without examples leaves the examples field empty
    let expected = vec![word, reading, translate, transcription, ""];
    let fields = fields.list();
    let fields: Vec<_> = fields.iter().map(|f| f.as_str()).collect();
    assert_eq!(fields, expected, "field's values are broken");
}
