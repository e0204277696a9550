use reword_deck::example::{Example, ExamplesPayload};
use reword_deck::info::Language;
use reword_deck::word::{map_row, Category, Picture, PictureSource, RawRow, Word};

const LIST_SQL: &str = "select
           c.id,
           {LANG} as name,
           (
             select
               count(*)
               from word_category wc
               where wc.category_id = c.id
           ) as words_count
         from category c
         where c.is_custom = 0";

fn text(s: &str) -> Option<String> {
    Some(s.to_string())
}

fn full_row() -> RawRow {
    RawRow {
        id: 17,
        word: text("cat"),
        reading: text("kat"),
        transcription: "kæt".to_string(),
        translate: text("кошка"),
        examples: ExamplesPayload::Decoded(vec![Example {
            original: "a #cat#".to_string(),
            translate: "#кошка#".to_string(),
        }]),
        category_id: text("animals"),
        picture_source: text("pexels"),
        picture_source_id: text("p-1"),
    }
}

#[test]
fn picture_needs_both_parts() {
    assert_eq!(
        Picture::new(text("pixabay"), text("123")),
        Some(Picture {
            source: PictureSource::Pixabay,
            source_id: "123".to_string(),
        })
    );
    assert_eq!(Picture::new(text("pixabay"), None), None);
    assert_eq!(Picture::new(None, text("123")), None);
    assert_eq!(Picture::new(None, None), None);
}

#[test]
fn picture_source_by_name() {
    assert_eq!(PictureSource::named("pixabay"), PictureSource::Pixabay);
    assert_eq!(PictureSource::named("pexels"), PictureSource::Pexels);
    assert_eq!(
        PictureSource::named("Pixabay"),
        PictureSource::Other("Pixabay".to_string())
    );
    assert_eq!(
        PictureSource::named("unsplash"),
        PictureSource::Other("unsplash".to_string())
    );
    assert_eq!(PictureSource::named(""), PictureSource::Other(String::new()));
}

#[test]
fn picture_source_names() {
    assert_eq!(PictureSource::Pixabay.name(), "pixabay");
    assert_eq!(PictureSource::Pexels.name(), "pexels");
    assert_eq!(PictureSource::Other("unsplash".to_string()).name(), "unsplash");
}

#[test]
fn category_list_sql_names_the_language() {
    assert_eq!(
        Category::list_sql(Language::Russian),
        LIST_SQL.replace("{LANG}", "c.name_rus")
    );
    assert_eq!(
        Category::list_sql(Language::Chinese),
        LIST_SQL.replace("{LANG}", "c.name_zht")
    );
    assert!(!Category::list_sql(Language::French).contains('{'));
}

#[test]
fn category_label() {
    let category = Category {
        id: "c1".to_string(),
        name: "Animals".to_string(),
        words_count: 12,
    };
    assert_eq!(category.label(), "Animals (12 words)");
    let empty = Category {
        id: "c2".to_string(),
        name: String::new(),
        words_count: 0,
    };
    assert_eq!(empty.label(), " (0 words)");
}

#[test]
fn map_row_takes_the_columns_as_they_are() {
    let word = map_row(full_row());
    assert_eq!(
        word,
        Word {
            id: 17,
            word: text("cat"),
            transcription: "kæt".to_string(),
            picture: Some(Picture {
                source: PictureSource::Pexels,
                source_id: "p-1".to_string(),
            }),
            reading: text("kat"),
            translate: text("кошка"),
            examples: Some(vec![Example {
                original: "a #cat#".to_string(),
                translate: "#кошка#".to_string(),
            }]),
            category_ids: vec!["animals".to_string()],
        }
    );
}

#[test]
fn map_row_of_empty_columns() {
    let word = map_row(RawRow {
        id: -3,
        word: None,
        reading: None,
        transcription: String::new(),
        translate: None,
        examples: ExamplesPayload::Absent,
        category_id: None,
        picture_source: None,
        picture_source_id: text("orphan"),
    });
    assert_eq!(
        word,
        Word {
            id: -3,
            word: None,
            transcription: String::new(),
            picture: None,
            reading: None,
            translate: None,
            examples: None,
            // a row without a category is in the category with the empty id
            category_ids: vec![String::new()],
        }
    );
}

#[test]
fn map_row_of_a_malformed_payload_has_no_examples() {
    let mut row = full_row();
    row.examples = ExamplesPayload::Malformed;
    let word = map_row(row);
    assert_eq!(word.examples, None);
    assert_eq!(word.word, text("cat"));
    assert_eq!(word.category_ids, vec!["animals".to_string()]);
}

#[test]
fn clones_are_equal() {
    let word = map_row(full_row());
    assert_eq!(word.clone(), word);
    let category = Category {
        id: "c1".to_string(),
        name: "Animals".to_string(),
        words_count: 12,
    };
    assert_eq!(category.clone(), category);
}
