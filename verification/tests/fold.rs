use reword_deck::example::{Example, ExamplesPayload};
use reword_deck::fold::fold_categories;
use reword_deck::info::App;
use reword_deck::query::list_words;
use reword_deck::word::{RawRow, Word};

fn row(id: i64, category: Option<&str>) -> RawRow {
    RawRow {
        id,
        word: Some(format!("word {id}")),
        reading: None,
        transcription: format!("tr {id}"),
        translate: Some(format!("translation {id}")),
        examples: ExamplesPayload::Absent,
        category_id: category.map(|c| c.to_string()),
        picture_source: None,
        picture_source_id: None,
    }
}

fn word(id: i64, word: &str, categories: &[&str]) -> Word {
    Word {
        id,
        word: Some(word.to_string()),
        transcription: String::new(),
        picture: None,
        reading: None,
        translate: None,
        examples: None,
        category_ids: categories.iter().map(|c| c.to_string()).collect(),
    }
}

fn sorted(mut list: Vec<String>) -> Vec<String> {
    list.sort();
    list.dedup();
    list
}

#[test]
fn three_rows_fold_to_two_words() {
    let rows = vec![row(1, Some("A")), row(1, Some("B")), row(2, Some("A"))];
    let words = list_words(App::English, rows);
    assert_eq!(words.len(), 2);
    assert_eq!(words[0].id, 1);
    assert_eq!(words[0].category_ids, vec!["A".to_string(), "B".to_string()]);
    assert_eq!(words[1].id, 2);
    assert_eq!(words[1].category_ids, vec!["A".to_string()]);
    // what is not a category is as the rows have it
    assert_eq!(words[0].word, Some("word 1".to_string()));
    assert_eq!(words[0].transcription, "tr 1");
    assert_eq!(words[1].translate, Some("translation 2".to_string()));
}

#[test]
fn no_rows_fold_to_no_words() {
    assert_eq!(list_words(App::Russian, vec![]), vec![]);
    assert_eq!(fold_categories(vec![]), vec![]);
}

#[test]
fn words_come_in_the_order_of_their_first_rows() {
    let rows = vec![
        row(5, Some("x")),
        row(3, Some("x")),
        row(5, Some("y")),
        row(9, Some("z")),
        row(3, Some("z")),
    ];
    let ids: Vec<i64> = list_words(App::English, rows).iter().map(|w| w.id).collect();
    assert_eq!(ids, vec![5, 3, 9]);
}

#[test]
fn the_first_word_of_an_id_wins() {
    let folded = fold_categories(vec![
        word(1, "first", &["A"]),
        word(2, "other", &["B"]),
        word(1, "second", &["C"]),
    ]);
    assert_eq!(
        folded,
        vec![word(1, "first", &["A", "C"]), word(2, "other", &["B"])]
    );
}

#[test]
fn categories_of_one_id_are_joined_in_order() {
    let folded = fold_categories(vec![
        word(1, "w", &["A", "B"]),
        word(1, "w", &[]),
        word(1, "w", &["B", "C"]),
    ]);
    assert_eq!(folded, vec![word(1, "w", &["A", "B", "C"])]);
}

#[test]
fn a_category_named_twice_is_held_once() {
    let words = list_words(
        App::English,
        vec![row(1, Some("A")), row(1, Some("A")), row(2, Some("A"))],
    );
    assert_eq!(words.len(), 2);
    assert_eq!(words[0].category_ids, vec!["A".to_string()]);
    assert_eq!(words[1].category_ids, vec!["A".to_string()]);
}

#[test]
fn a_word_that_names_a_category_twice_holds_it_once() {
    let folded = fold_categories(vec![
        word(1, "w", &["A", "A", "B", "A"]),
        word(2, "v", &["C", "C"]),
        word(1, "w", &["B", "D", "D"]),
    ]);
    assert_eq!(
        folded,
        vec![word(1, "w", &["A", "B", "D"]), word(2, "v", &["C"])]
    );
}

#[test]
fn rows_without_category_count_for_the_empty_one_once() {
    let words = list_words(App::English, vec![row(1, None), row(1, None)]);
    assert_eq!(words.len(), 1);
    assert_eq!(words[0].category_ids, vec![String::new()]);
}

#[test]
fn a_row_without_category_counts_for_the_empty_one() {
    let words = list_words(App::English, vec![row(1, None), row(1, Some("A"))]);
    assert_eq!(words.len(), 1);
    assert_eq!(words[0].category_ids, vec![String::new(), "A".to_string()]);
}

#[test]
fn the_order_of_the_rows_changes_no_set_of_categories() {
    let orders: [[usize; 4]; 4] = [[0, 1, 2, 3], [3, 2, 1, 0], [1, 3, 0, 2], [2, 0, 3, 1]];
    let make = |k: usize| match k {
        0 => row(1, Some("A")),
        1 => row(1, Some("B")),
        2 => row(2, Some("A")),
        _ => row(1, Some("C")),
    };
    for order in orders {
        let rows: Vec<RawRow> = order.iter().map(|k| make(*k)).collect();
        let mut words = list_words(App::English, rows);
        words.sort_by_key(|w| w.id);
        assert_eq!(words.len(), 2);
        assert_eq!(words[0].id, 1);
        assert_eq!(
            sorted(words[0].category_ids.clone()),
            vec!["A".to_string(), "B".to_string(), "C".to_string()]
        );
        assert_eq!(words[1].id, 2);
        assert_eq!(sorted(words[1].category_ids.clone()), vec!["A".to_string()]);
    }
}

#[test]
fn a_malformed_payload_spares_the_other_words() {
    let examples = || {
        ExamplesPayload::Decoded(vec![Example {
            original: "o".to_string(),
            translate: "t".to_string(),
        }])
    };
    let mut first = row(1, Some("A"));
    first.examples = examples();
    let mut second = row(2, Some("A"));
    second.examples = ExamplesPayload::Malformed;
    let mut third = row(3, Some("B"));
    third.examples = examples();

    let words = list_words(App::English, vec![first, second, third]);
    assert_eq!(words.len(), 3);
    assert_eq!(words[0].examples.as_ref().map(|e| e.len()), Some(1));
    assert_eq!(words[1].examples, None);
    assert_eq!(words[1].word, Some("word 2".to_string()));
    assert_eq!(words[1].category_ids, vec!["A".to_string()]);
    assert_eq!(words[2].examples.as_ref().map(|e| e.len()), Some(1));
}

#[test]
fn many_rows_of_many_words() {
    let mut rows = Vec::new();
    for category in 0..3 {
        for id in 0..200 {
            rows.push(row(id, Some(&format!("c{category}"))));
        }
    }
    let words = list_words(App::English, rows);
    assert_eq!(words.len(), 200);
    for (position, word) in words.iter().enumerate() {
        assert_eq!(word.id, position as i64);
        assert_eq!(
            word.category_ids,
            vec!["c0".to_string(), "c1".to_string(), "c2".to_string()]
        );
    }
}
