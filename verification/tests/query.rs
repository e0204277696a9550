use reword_deck::example::ExamplesPayload;
use reword_deck::fields::AnkiFields;
use reword_deck::info::{App, Language, TrInfo};
use reword_deck::query::{
    app_anki_fields, app_anki_values, app_apk_db_path, app_languages, app_model_id,
    app_query_map, app_sql, deu, eng, jap, rus, UnsupportedApp,
};
use reword_deck::word::{map_row, Picture, PictureSource, RawRow, Word};

const WORDS: &str = "select
           w.id,
           w.word,
           w.transcription,
           null as reading,
           {LANG} as translate,
           {EXAMPLES} as examples,
           wc.category_id,
           p.source as picture_source,
           p.source_id as picture_source_id
         from word w
         join word_category wc
           on w.id = wc.word_id
         full outer join picture p
           on p.id = w.picture_id
         where translate is not null";

const WORDS_JAP: &str = "select
           w.id,
           w.kanji as word,
           w.word as reading,
           w.transcription,
           {LANG} as translate,
           null as examples,
           wc.category_id,
           p.source as picture_source,
           p.source_id as picture_source_id
         from word w
         join word_category wc
           on w.id = wc.word_id
         full outer join picture p
           on p.id = w.picture_id
         where translate is not null";

const WORDS_RUS: &str = "select
           w.id,
           w.word,
           null as reading,
           w.transcription,
           {LANG} as translate,
           {EXAMPLES} as examples,
           wc.category_id,
           p.source as picture_source,
           p.source_id as picture_source_id
         from word w
         join word_category wc
           on w.id = wc.word_id
         full outer join picture p
           on p.id = w.picture_id
         where translate is not null";

const UNDESCRIBED: [App; 11] = [
    App::Chinese,
    App::Czech,
    App::Dutch,
    App::Finnish,
    App::French,
    App::Italian,
    App::Korean,
    App::Polish,
    App::Portuguese,
    App::Spanish,
    App::Turkish,
];

fn info(app: App, tr_lang: Language) -> TrInfo {
    TrInfo::new(app, tr_lang)
}

fn japanese_word(kanji: Option<&str>, kana: Option<&str>) -> Word {
    Word {
        id: 8,
        word: kanji.map(|s| s.to_string()),
        transcription: "neko".to_string(),
        picture: Some(Picture {
            source: PictureSource::Other("own".to_string()),
            source_id: "7".to_string(),
        }),
        reading: kana.map(|s| s.to_string()),
        translate: Some("cat".to_string()),
        examples: None,
        category_ids: vec!["n5".to_string()],
    }
}

#[test]
fn apk_db_paths() {
    assert_eq!(app_apk_db_path(App::Russian), "res/kv");
    assert_eq!(app_apk_db_path(App::English), "res/raw/englishwordsdb");
    assert_eq!(app_apk_db_path(App::Japanese), "res/raw/englishwordsdb");
    assert_eq!(app_apk_db_path(App::Turkish), "res/raw/englishwordsdb");
}

#[test]
fn model_ids() {
    assert_eq!(app_model_id(App::Chinese), 10964854234530);
    assert_eq!(app_model_id(App::English), 10964854234534);
    assert_eq!(app_model_id(App::Japanese), 10964854234538);
    assert_eq!(app_model_id(App::Russian), 10964854234542);
    assert_eq!(app_model_id(App::Turkish), 10964854234544);
}

#[test]
fn model_id_is_the_same_at_every_call() {
    for app in [App::English, App::Japanese, App::Russian, App::Deutsch] {
        assert_eq!(app_model_id(app), app_model_id(app));
    }
}

#[test]
fn sql_of_the_english_app() {
    assert_eq!(
        app_sql(info(App::English, Language::Russian)),
        Ok(WORDS
            .replace("{LANG}", "w.rus")
            .replace("{EXAMPLES}", "w.examples_rus"))
    );
    assert_eq!(
        eng::words(info(App::English, Language::Chinese)),
        WORDS
            .replace("{LANG}", "w.zht")
            .replace("{EXAMPLES}", "w.examples_zht")
    );
}

#[test]
fn sql_of_the_german_app() {
    assert_eq!(
        app_sql(info(App::Deutsch, Language::English)),
        Ok(WORDS
            .replace("{LANG}", "w.eng")
            .replace("{EXAMPLES}", "w.examples_eng"))
    );
    assert_eq!(
        deu::words(info(App::Deutsch, Language::Russian)),
        WORDS
            .replace("{LANG}", "w.rus")
            .replace("{EXAMPLES}", "w.examples_rus")
    );
}

#[test]
fn sql_of_the_japanese_app() {
    assert_eq!(
        app_sql(info(App::Japanese, Language::English)),
        Ok(WORDS_JAP.replace("{LANG}", "w.eng"))
    );
    assert_eq!(
        jap::words(info(App::Japanese, Language::Russian)),
        WORDS_JAP.replace("{LANG}", "w.rus")
    );
}

#[test]
fn sql_of_the_russian_app() {
    assert_eq!(
        app_sql(info(App::Russian, Language::French)),
        Ok(WORDS_RUS
            .replace("{LANG}", "w.fra")
            .replace("{EXAMPLES}", "w.examples_fra"))
    );
    assert_eq!(
        rus::words(info(App::Russian, Language::Deutsch)),
        WORDS_RUS
            .replace("{LANG}", "w.deu")
            .replace("{EXAMPLES}", "w.examples_deu")
    );
}

#[test]
fn sql_holds_no_placeholder() {
    for (app, lang) in [
        (App::English, Language::Spanish),
        (App::Deutsch, Language::English),
        (App::Japanese, Language::Russian),
        (App::Russian, Language::English),
    ] {
        let sql = app_sql(info(app, lang)).unwrap();
        assert!(!sql.contains('{'));
        assert!(!sql.contains('}'));
    }
}

#[test]
fn sql_of_an_undescribed_app_fails() {
    for app in UNDESCRIBED {
        assert_eq!(
            app_sql(info(app, Language::English)),
            Err(UnsupportedApp { app })
        );
    }
}

#[test]
fn unsupported_app_in_words() {
    assert_eq!(
        UnsupportedApp { app: App::Korean }.message(),
        "app not yet supported: Korean"
    );
}

#[test]
fn languages_of_the_apps() {
    assert_eq!(
        app_languages(App::Deutsch),
        Ok(vec![Language::English, Language::Russian])
    );
    assert_eq!(
        app_languages(App::English),
        Ok(vec![
            Language::Chinese,
            Language::Dutch,
            Language::French,
            Language::Deutsch,
            Language::Italian,
            Language::Japanese,
            Language::Korean,
            Language::Russian,
            Language::Spanish,
            Language::Turkish,
        ])
    );
    assert_eq!(
        app_languages(App::Japanese),
        Ok(vec![Language::English, Language::Russian])
    );
    assert_eq!(
        app_languages(App::Russian),
        Ok(vec![Language::Deutsch, Language::English, Language::French])
    );
    assert_eq!(deu::languages(), vec![Language::English, Language::Russian]);
    assert_eq!(jap::languages(), vec![Language::English, Language::Russian]);
    assert_eq!(eng::languages().len(), 10);
    assert_eq!(rus::languages().len(), 3);
}

#[test]
fn languages_of_an_undescribed_app_fail() {
    for app in UNDESCRIBED {
        assert_eq!(app_languages(app), Err(UnsupportedApp { app }));
    }
}

#[test]
fn field_names_of_the_apps() {
    let standard = app_anki_fields(App::English);
    assert_eq!(
        standard.names(),
        vec!["Word", "Reading", "Translate", "Transcription", "examples"]
    );
    assert_eq!(standard.picture, "Picture");
    assert_eq!(app_anki_fields(App::Russian), standard);
    assert_eq!(app_anki_fields(App::Korean), standard);

    let japanese = app_anki_fields(App::Japanese);
    assert_eq!(
        japanese.names(),
        vec!["Kanji", "Kana", "Translate", "Romaji", "examples"]
    );
    assert_eq!(japanese, jap::anki_fields());
    assert_eq!(japanese.picture, "Picture");
}

#[test]
fn field_values_are_the_columns_of_the_word() {
    let word = japanese_word(Some("猫"), Some("ねこ"));
    let fields = app_anki_values(App::English, &word);
    assert_eq!(
        fields,
        AnkiFields {
            word: Some("猫".to_string()),
            reading: Some("ねこ".to_string()),
            transcription: "neko".to_string(),
            translate: Some("cat".to_string()),
            picture: Some(Picture {
                source: PictureSource::Other("own".to_string()),
                source_id: "7".to_string(),
            }),
            examples: None,
        }
    );
    assert_eq!(fields, AnkiFields::from(word));
}

#[test]
fn japanese_field_values_with_kanji() {
    let word = japanese_word(Some("猫"), Some("ねこ"));
    let fields = app_anki_values(App::Japanese, &word);
    assert_eq!(fields.word, Some("猫".to_string()));
    assert_eq!(fields.reading, Some("ねこ".to_string()));
    assert_eq!(fields.list(), vec!["猫", "ねこ", "cat", "neko", ""]);
    assert_eq!(fields, jap::anki_values(&word));
}

#[test]
fn japanese_field_values_without_kanji() {
    let word = japanese_word(None, Some("ねこ"));
    let fields = app_anki_values(App::Japanese, &word);
    assert_eq!(fields.word, Some("ねこ".to_string()));
    assert_eq!(fields.reading, None);
    assert_eq!(fields.list(), vec!["ねこ", "", "cat", "neko", ""]);
    // the other apps leave the headword empty
    assert_eq!(
        app_anki_values(App::English, &word).list(),
        vec!["", "ねこ", "cat", "neko", ""]
    );
}

#[test]
fn japanese_field_values_without_kana() {
    let only_kanji = app_anki_values(App::Japanese, &japanese_word(Some("猫"), None));
    assert_eq!(only_kanji.word, Some("猫".to_string()));
    assert_eq!(only_kanji.reading, None);
    let neither = app_anki_values(App::Japanese, &japanese_word(None, None));
    assert_eq!(neither.word, None);
    assert_eq!(neither.reading, None);
}

#[test]
fn names_and_values_have_the_same_length_for_every_app() {
    let word = japanese_word(Some("猫"), None);
    for app in [
        App::Chinese,
        App::Deutsch,
        App::English,
        App::Japanese,
        App::Russian,
        App::Turkish,
    ] {
        assert_eq!(
            app_anki_fields(app).names().len(),
            app_anki_values(app, &word).list().len()
        );
    }
}

#[test]
fn every_app_reads_its_rows_alike() {
    let row = || RawRow {
        id: 4,
        word: Some("w".to_string()),
        reading: None,
        transcription: "t".to_string(),
        translate: None,
        examples: ExamplesPayload::Malformed,
        category_id: Some("c".to_string()),
        picture_source: Some("pixabay".to_string()),
        picture_source_id: Some("1".to_string()),
    };
    let expected = map_row(row());
    assert_eq!(expected.picture.as_ref().map(|p| &p.source), Some(&PictureSource::Pixabay));
    for app in [App::English, App::Japanese, App::Russian, App::Deutsch] {
        assert_eq!(app_query_map(app, row()), expected);
    }
}
