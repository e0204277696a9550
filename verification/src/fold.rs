//! Folding: merging the rows of one word, which a store hands out once per
//! category of the word, into a single word with the set of its categories.
//! The set is kept as a list in which no category occurs twice.

use crate::example::ExamplesPayloadView;
use crate::word::{RawRowView, Word, WordView};
use std::collections::HashMap;
use vstd::prelude::*;

verus! {

/// Whether some word of the list has the id.
pub open spec fn has_id(words: Seq<WordView>, id: int) -> bool {
    exists|k: int| 0 <= k < words.len() && (#[trigger] words[k]).id == id
}

/// The first word of each id, in the order in which the ids first appear.
pub open spec fn first_of_each_id(words: Seq<WordView>) -> Seq<WordView>
    decreases words.len(),
{
    if words.len() == 0 {
        Seq::empty()
    } else if has_id(words.drop_last(), words.last().id) {
        first_of_each_id(words.drop_last())
    } else {
        first_of_each_id(words.drop_last()).push(words.last())
    }
}

/// A set of texts, kept as a list, joined by the texts of another list: each
/// text of `more` that is not yet held comes behind those held, in the
/// order of `more`. A text that occurs twice in `more` is taken once.
pub open spec fn united(held: Seq<Seq<char>>, more: Seq<Seq<char>>) -> Seq<Seq<char>>
    decreases more.len(),
{
    if more.len() == 0 {
        held
    } else if united(held, more.drop_last()).contains(more.last()) {
        united(held, more.drop_last())
    } else {
        united(held, more.drop_last()).push(more.last())
    }
}

/// The set of the categories of all the words of one id: each category
/// once, in the order in which the words first name it.
pub open spec fn categories_of(words: Seq<WordView>, id: int) -> Seq<Seq<char>>
    decreases words.len(),
{
    if words.len() == 0 {
        Seq::empty()
    } else if words.last().id == id {
        united(categories_of(words.drop_last(), id), words.last().category_ids)
    } else {
        categories_of(words.drop_last(), id)
    }
}

/// A word with its categories replaced by those that `all` holds for its id.
pub open spec fn with_categories_of(all: Seq<WordView>, w: WordView) -> WordView {
    WordView { category_ids: categories_of(all, w.id), ..w }
}

/// The list folded: one word for each id, in the order in which the ids
/// first appear. Each is the first word of its id, but for its categories,
/// which are the set of those of all the words of the id.
pub open spec fn folded(words: Seq<WordView>) -> Seq<WordView> {
    first_of_each_id(words).map_values(|w: WordView| with_categories_of(words, w))
}

/// A word occurs among the first of each id exactly where it occurs at all,
/// and no id occurs there twice. Each entry is a word of the list.
pub proof fn lemma_first_of_each_id(words: Seq<WordView>)
    ensures
        forall|id: int|
            #![trigger has_id(first_of_each_id(words), id)]
            #![trigger has_id(words, id)]
            has_id(first_of_each_id(words), id) <==> has_id(words, id),
        forall|i: int, j: int|
            0 <= i < j < first_of_each_id(words).len() ==> (#[trigger] first_of_each_id(
                words,
            )[i]).id != (#[trigger] first_of_each_id(words)[j]).id,
        forall|i: int|
            0 <= i < first_of_each_id(words).len() ==> words.contains(
                #[trigger] first_of_each_id(words)[i],
            ),
        first_of_each_id(words).len() <= words.len(),
    decreases words.len(),
{
    if words.len() > 0 {
        let before = words.drop_last();
        let last = words.last();
        let firsts = first_of_each_id(words);
        let firsts_before = first_of_each_id(before);
        lemma_first_of_each_id(before);
        assert forall|id: int| has_id(firsts, id) <==> has_id(words, id) by {
            if has_id(firsts, id) {
                let k = choose|k: int| 0 <= k < firsts.len() && (#[trigger] firsts[k]).id == id;
                if k < firsts_before.len() {
                    assert(firsts_before[k].id == id);
                    assert(has_id(before, id));
                    let m = choose|m: int| 0 <= m < before.len() && (#[trigger] before[m]).id == id;
                    assert(words[m].id == id);
                } else {
                    assert(words[words.len() - 1].id == id);
                }
            }
            if has_id(words, id) {
                let m = choose|m: int| 0 <= m < words.len() && (#[trigger] words[m]).id == id;
                if m < before.len() {
                    assert(before[m].id == id);
                    assert(has_id(firsts_before, id));
                    let k = choose|k: int|
                        0 <= k < firsts_before.len() && (#[trigger] firsts_before[k]).id == id;
                    assert(firsts[k].id == id);
                } else if has_id(before, last.id) {
                    assert(words[m] == last);
                    assert(has_id(firsts_before, id));
                } else {
                    assert(firsts[firsts.len() - 1].id == id);
                }
            }
        }
        assert forall|i: int, j: int| 0 <= i < j < firsts.len() implies (#[trigger] firsts[i]).id
            != (#[trigger] firsts[j]).id by {
            if j >= firsts_before.len() {
                assert(firsts_before[i].id == firsts[i].id);
                if firsts[i].id == last.id {
                    assert(has_id(firsts_before, last.id));
                }
            } else {
                assert(firsts_before[i].id != firsts_before[j].id);
            }
        }
        assert forall|i: int| 0 <= i < firsts.len() implies words.contains(
            #[trigger] firsts[i],
        ) by {
            if i < firsts_before.len() {
                assert(before.contains(firsts_before[i]));
                let m = choose|m: int| 0 <= m < before.len() && before[m] == firsts_before[i];
                assert(words[m] == firsts[i]);
            } else {
                assert(words[words.len() - 1] == firsts[i]);
            }
        }
    }
}

/// Uniting holds exactly the texts of both lists, and holds none twice
/// where none was held twice before.
pub proof fn lemma_united(held: Seq<Seq<char>>, more: Seq<Seq<char>>)
    ensures
        forall|c: Seq<char>|
            #![trigger united(held, more).contains(c)]
            united(held, more).contains(c) <==> held.contains(c) || more.contains(c),
        held.no_duplicates() ==> united(held, more).no_duplicates(),
    decreases more.len(),
{
    if more.len() > 0 {
        let head = more.drop_last();
        let last = more.last();
        let before = united(held, head);
        let all = united(held, more);
        lemma_united(held, head);
        assert forall|c: Seq<char>| #![trigger all.contains(c)]
            all.contains(c) <==> held.contains(c) || more.contains(c) by {
            if all.contains(c) {
                let i = choose|i: int| 0 <= i < all.len() && all[i] == c;
                if i < before.len() {
                    assert(before[i] == c);
                    assert(before.contains(c));
                    if head.contains(c) {
                        let j = choose|j: int| 0 <= j < head.len() && head[j] == c;
                        assert(more[j] == c);
                    }
                } else {
                    assert(more[more.len() - 1] == c);
                }
            }
            if held.contains(c) {
                assert(before.contains(c));
                let i = choose|i: int| 0 <= i < before.len() && before[i] == c;
                assert(all[i] == c);
            }
            if more.contains(c) {
                let j = choose|j: int| 0 <= j < more.len() && more[j] == c;
                if j < head.len() {
                    assert(head[j] == c);
                    assert(head.contains(c));
                    assert(before.contains(c));
                    let i = choose|i: int| 0 <= i < before.len() && before[i] == c;
                    assert(all[i] == c);
                } else if before.contains(c) {
                } else {
                    assert(all[all.len() - 1] == c);
                }
            }
        }
        if held.no_duplicates() && !before.contains(last) {
            assert forall|i: int, j: int| 0 <= i < all.len() && 0 <= j < all.len() && i
                != j implies all[i] != all[j] by {
                if i < before.len() && j < before.len() {
                    assert(before[i] != before[j]);
                } else if i < before.len() {
                    assert(before.contains(before[i]));
                } else {
                    assert(before.contains(before[j]));
                }
            }
        }
    }
}

/// A text is among the categories of an id exactly where it is a category
/// of some word of that id, and none is among them twice.
pub proof fn lemma_categories_of(words: Seq<WordView>, id: int)
    ensures
        forall|c: Seq<char>|
            categories_of(words, id).contains(c) <==> exists|k: int|
                0 <= k < words.len() && (#[trigger] words[k]).id == id
                    && words[k].category_ids.contains(c),
        categories_of(words, id).no_duplicates(),
        !has_id(words, id) ==> categories_of(words, id) == Seq::<Seq<char>>::empty(),
    decreases words.len(),
{
    if words.len() > 0 {
        let before = words.drop_last();
        let last = words.last();
        lemma_categories_of(before, id);
        let all = categories_of(words, id);
        let head = categories_of(before, id);
        if last.id == id {
            lemma_united(head, last.category_ids);
        }
        assert forall|c: Seq<char>|
            all.contains(c) <==> exists|k: int|
                0 <= k < words.len() && (#[trigger] words[k]).id == id
                    && words[k].category_ids.contains(c) by {
            if all.contains(c) {
                if head.contains(c) {
                    let k = choose|k: int|
                        0 <= k < before.len() && (#[trigger] before[k]).id == id
                            && before[k].category_ids.contains(c);
                    assert(words[k].id == id && words[k].category_ids.contains(c));
                } else {
                    assert(last.id == id && last.category_ids.contains(c));
                    assert(words[words.len() - 1].id == id && words[words.len()
                        - 1].category_ids.contains(c));
                }
            }
            if exists|k: int|
                0 <= k < words.len() && (#[trigger] words[k]).id == id
                    && words[k].category_ids.contains(c) {
                let k = choose|k: int|
                    0 <= k < words.len() && (#[trigger] words[k]).id == id
                        && words[k].category_ids.contains(c);
                if k < before.len() {
                    assert(before[k].id == id && before[k].category_ids.contains(c));
                    assert(head.contains(c));
                } else {
                    assert(last.id == id && last.category_ids.contains(c));
                }
            }
        }
        if !has_id(words, id) {
            assert(words[words.len() - 1].id != id);
            if has_id(before, id) {
                let k = choose|k: int| 0 <= k < before.len() && (#[trigger] before[k]).id == id;
                assert(words[k].id == id);
            }
        }
    }
}

/// Folding yields exactly one word for each id of the list: every id of
/// the list is the id of a folded word, every folded word has an id of the
/// list, and no two folded words share an id.
pub proof fn lemma_fold_one_word_per_id(words: Seq<WordView>)
    ensures
        forall|id: int|
            #![trigger has_id(folded(words), id)]
            #![trigger has_id(words, id)]
            has_id(folded(words), id) <==> has_id(words, id),
        forall|i: int, j: int|
            0 <= i < j < folded(words).len() ==> (#[trigger] folded(words)[i]).id != (
            #[trigger] folded(words)[j]).id,
{
    lemma_first_of_each_id(words);
    let firsts = first_of_each_id(words);
    let out = folded(words);
    assert forall|id: int| has_id(out, id) <==> has_id(words, id) by {
        if has_id(out, id) {
            let k = choose|k: int| 0 <= k < out.len() && (#[trigger] out[k]).id == id;
            assert(firsts[k].id == id);
            assert(has_id(firsts, id));
        }
        if has_id(words, id) {
            assert(has_id(firsts, id));
            let k = choose|k: int| 0 <= k < firsts.len() && (#[trigger] firsts[k]).id == id;
            assert(out[k].id == id);
        }
    }
    assert forall|i: int, j: int| 0 <= i < j < out.len() implies (#[trigger] out[i]).id != (
    #[trigger] out[j]).id by {
        assert(firsts[i].id != firsts[j].id);
    }
}

/// The categories of a folded word are the union of the categories of all
/// the words of its id: a text is among them exactly where it is a category
/// of some word of the list with that id.
pub proof fn lemma_fold_unites_categories(words: Seq<WordView>, i: int)
    requires
        0 <= i < folded(words).len(),
    ensures
        forall|c: Seq<char>|
            folded(words)[i].category_ids.contains(c) <==> exists|k: int|
                0 <= k < words.len() && (#[trigger] words[k]).id == folded(words)[i].id
                    && words[k].category_ids.contains(c),
{
    lemma_categories_of(words, folded(words)[i].id);
}

/// The categories of a folded word are a set: none occurs twice, however
/// often the words of the list name it.
pub proof fn lemma_fold_categories_are_a_set(words: Seq<WordView>)
    ensures
        forall|i: int|
            0 <= i < folded(words).len() ==> (#[trigger] folded(
                words,
            )[i]).category_ids.no_duplicates(),
{
    assert forall|i: int| 0 <= i < folded(words).len() implies (#[trigger] folded(
        words,
    )[i]).category_ids.no_duplicates() by {
        lemma_categories_of(words, first_of_each_id(words)[i].id);
    }
}

/// Apart from its categories, a folded word is the first word of its id in
/// the list.
pub proof fn lemma_fold_keeps_first(words: Seq<WordView>, i: int)
    requires
        0 <= i < folded(words).len(),
    ensures
        exists|k: int|
            0 <= k < words.len() && folded(words)[i] == with_categories_of(
                words,
                #[trigger] words[k],
            ) && !has_id(words.take(k), words[k].id),
{
    lemma_first_is_first(words, i);
}

proof fn lemma_first_is_first(words: Seq<WordView>, i: int)
    requires
        0 <= i < first_of_each_id(words).len(),
    ensures
        exists|k: int|
            0 <= k < words.len() && first_of_each_id(words)[i] == #[trigger] words[k] && !has_id(
                words.take(k),
                words[k].id,
            ),
    decreases words.len(),
{
    let before = words.drop_last();
    let firsts_before = first_of_each_id(before);
    if i < firsts_before.len() {
        lemma_first_is_first(before, i);
        let k = choose|k: int|
            0 <= k < before.len() && firsts_before[i] == #[trigger] before[k] && !has_id(
                before.take(k),
                before[k].id,
            );
        assert(before.take(k) =~= words.take(k));
        assert(first_of_each_id(words)[i] == words[k]);
    } else {
        let k = words.len() - 1;
        assert(words.take(k) =~= before);
        assert(first_of_each_id(words)[i] == words[k]);
    }
}

/// The order of the list decides the order of the folded words and of
/// their categories, and nothing else: two lists that hold the same words,
/// in whatever order, fold to words of the same ids, and words of the same
/// id have the same set of categories.
pub proof fn lemma_fold_ignores_order(a: Seq<WordView>, b: Seq<WordView>)
    requires
        a.to_multiset() == b.to_multiset(),
    ensures
        forall|id: int|
            #![trigger has_id(folded(a), id)]
            #![trigger has_id(folded(b), id)]
            has_id(folded(a), id) <==> has_id(folded(b), id),
        forall|i: int, j: int|
            0 <= i < folded(a).len() && 0 <= j < folded(b).len() && (#[trigger] folded(a)[i]).id
                == (#[trigger] folded(b)[j]).id ==> folded(a)[i].category_ids.to_set() == folded(
                b,
            )[j].category_ids.to_set(),
{
    lemma_same_words(a, b);
    lemma_same_words(b, a);
    lemma_fold_one_word_per_id(a);
    lemma_fold_one_word_per_id(b);
    assert forall|id: int| has_id(a, id) <==> has_id(b, id) by {
        if has_id(a, id) {
            let k = choose|k: int| 0 <= k < a.len() && (#[trigger] a[k]).id == id;
            assert(a.contains(a[k]));
            let m = choose|m: int| 0 <= m < b.len() && b[m] == a[k];
            assert(b[m].id == id);
        }
        if has_id(b, id) {
            let k = choose|k: int| 0 <= k < b.len() && (#[trigger] b[k]).id == id;
            assert(b.contains(b[k]));
            let m = choose|m: int| 0 <= m < a.len() && a[m] == b[k];
            assert(a[m].id == id);
        }
    }
    assert forall|i: int, j: int|
        0 <= i < folded(a).len() && 0 <= j < folded(b).len() && (#[trigger] folded(a)[i]).id == (
        #[trigger] folded(b)[j]).id implies folded(a)[i].category_ids.to_set() == folded(
        b,
    )[j].category_ids.to_set() by {
        let id = folded(a)[i].id;
        lemma_categories_of(a, id);
        lemma_categories_of(b, id);
        let ca = categories_of(a, id);
        let cb = categories_of(b, id);
        assert forall|c: Seq<char>| ca.contains(c) <==> cb.contains(c) by {
            if ca.contains(c) {
                let k = choose|k: int|
                    0 <= k < a.len() && (#[trigger] a[k]).id == id && a[k].category_ids.contains(
                        c,
                    );
                assert(a.contains(a[k]));
                let m = choose|m: int| 0 <= m < b.len() && b[m] == a[k];
                assert(b[m].id == id && b[m].category_ids.contains(c));
            }
            if cb.contains(c) {
                let k = choose|k: int|
                    0 <= k < b.len() && (#[trigger] b[k]).id == id && b[k].category_ids.contains(
                        c,
                    );
                assert(b.contains(b[k]));
                let m = choose|m: int| 0 <= m < a.len() && a[m] == b[k];
                assert(a[m].id == id && a[m].category_ids.contains(c));
            }
        }
        assert(ca.to_set() =~= cb.to_set());
    }
}

proof fn lemma_same_words(a: Seq<WordView>, b: Seq<WordView>)
    requires
        a.to_multiset() == b.to_multiset(),
    ensures
        forall|w: WordView| a.contains(w) ==> b.contains(w),
{
    a.to_multiset_ensures();
    b.to_multiset_ensures();
    assert forall|w: WordView| a.contains(w) implies b.contains(w) by {
        assert(a.to_multiset().count(w) > 0);
        assert(b.to_multiset().count(w) > 0);
    }
}

/// Folding one more word: the word joins the folded list, with the set of
/// its own categories, where its id is new, and unites its categories with
/// those of the folded word of its id where it is not.
proof fn lemma_fold_step(done: Seq<WordView>, w: WordView)
    ensures
        !has_id(done, w.id) ==> folded(done.push(w)) == folded(done).push(
            WordView { category_ids: united(Seq::empty(), w.category_ids), ..w },
        ),
        has_id(done, w.id) ==> folded(done.push(w)).len() == folded(done).len(),
        forall|i: int|
            0 <= i < folded(done).len() ==> #[trigger] folded(done.push(w))[i] == if folded(
                done,
            )[i].id == w.id {
                WordView {
                    category_ids: united(folded(done)[i].category_ids, w.category_ids),
                    ..folded(done)[i]
                }
            } else {
                folded(done)[i]
            },
{
    let next = done.push(w);
    assert(next.drop_last() =~= done);
    lemma_first_of_each_id(done);
    lemma_categories_of(done, w.id);
    let firsts = first_of_each_id(done);
    assert forall|i: int| 0 <= i < folded(done).len() implies #[trigger] folded(next)[i] == if folded(
        done,
    )[i].id == w.id {
        WordView {
            category_ids: united(folded(done)[i].category_ids, w.category_ids),
            ..folded(done)[i]
        }
    } else {
        folded(done)[i]
    } by {
        assert(first_of_each_id(next)[i] == firsts[i]);
    }
    if !has_id(done, w.id) {
        assert(folded(next) =~= folded(done).push(
            WordView { category_ids: united(Seq::empty(), w.category_ids), ..w },
        ));
    }
}

/// The words that the rows of a words query alone describe, row by row.
pub open spec fn row_words(rows: Seq<RawRowView>) -> Seq<WordView> {
    rows.map_values(|row: RawRowView| row.word())
}

/// Two lists that agree in the ids and the categories of their words make
/// the same choice of words when folded, and give them the same categories.
proof fn lemma_fold_choice(a: Seq<WordView>, b: Seq<WordView>)
    requires
        a.len() == b.len(),
        forall|k: int|
            0 <= k < a.len() ==> (#[trigger] a[k]).id == b[k].id && a[k].category_ids
                == b[k].category_ids,
    ensures
        first_of_each_id(a).len() == first_of_each_id(b).len(),
        forall|i: int|
            0 <= i < first_of_each_id(a).len() ==> exists|k: int|
                0 <= k < a.len() && (#[trigger] first_of_each_id(a)[i]) == a[k]
                    && first_of_each_id(b)[i] == b[k],
        forall|id: int| #[trigger] categories_of(a, id) == categories_of(b, id),
    decreases a.len(),
{
    if a.len() > 0 {
        let a0 = a.drop_last();
        let b0 = b.drop_last();
        assert forall|k: int| 0 <= k < a0.len() implies (#[trigger] a0[k]).id == b0[k].id
            && a0[k].category_ids == b0[k].category_ids by {
            assert(a[k].id == b[k].id);
        }
        lemma_fold_choice(a0, b0);
        assert(a[a.len() - 1].id == b[b.len() - 1].id);
        assert(has_id(a0, a.last().id) <==> has_id(b0, b.last().id)) by {
            if has_id(a0, a.last().id) {
                let k = choose|k: int| 0 <= k < a0.len() && (#[trigger] a0[k]).id == a.last().id;
                assert(a[k].id == b[k].id);
                assert(b0[k].id == b.last().id);
            }
            if has_id(b0, b.last().id) {
                let k = choose|k: int| 0 <= k < b0.len() && (#[trigger] b0[k]).id == b.last().id;
                assert(a[k].id == b[k].id);
                assert(a0[k].id == a.last().id);
            }
        }
        let fa = first_of_each_id(a);
        let fb = first_of_each_id(b);
        assert forall|i: int| 0 <= i < fa.len() implies exists|k: int|
            0 <= k < a.len() && (#[trigger] fa[i]) == a[k] && fb[i] == b[k] by {
            if i < first_of_each_id(a0).len() {
                let k = choose|k: int|
                    0 <= k < a0.len() && first_of_each_id(a0)[i] == a0[k] && first_of_each_id(
                        b0,
                    )[i] == b0[k];
                assert(fa[i] == a[k] && fb[i] == b[k]);
            } else {
                let k = a.len() - 1;
                assert(fa[i] == a[k] && fb[i] == b[k]);
            }
        }
        assert forall|id: int| #[trigger] categories_of(a, id) == categories_of(b, id) by {
            assert(categories_of(a0, id) == categories_of(b0, id));
        }
    }
}

/// A payload of examples that does not decode costs one word its examples
/// and nothing more: were the payload of the row at `at` malformed, the
/// rows would fold to as many words, each word of another id would be the
/// same, and the word of the row's id would be the same but, at most, for
/// having no examples.
pub proof fn lemma_malformed_examples_cost_one_word(rows: Seq<RawRowView>, at: int)
    requires
        0 <= at < rows.len(),
    ensures
        ({
            let spoiled = rows.update(
                at,
                RawRowView { examples: ExamplesPayloadView::Malformed, ..rows[at] },
            );
            let good = folded(row_words(rows));
            let bad = folded(row_words(spoiled));
            &&& bad.len() == good.len()
            &&& forall|i: int|
                0 <= i < good.len() ==> {
                    ||| (#[trigger] bad[i]) == good[i]
                    ||| good[i].id == rows[at].id && bad[i] == WordView {
                        examples: None,
                        ..good[i]
                    }
                }
        }),
{
    let spoiled = rows.update(
        at,
        RawRowView { examples: ExamplesPayloadView::Malformed, ..rows[at] },
    );
    let a = row_words(rows);
    let b = row_words(spoiled);
    assert forall|k: int| 0 <= k < a.len() implies (#[trigger] a[k]).id == b[k].id
        && a[k].category_ids == b[k].category_ids by {
        assert(spoiled[k].word().id == rows[k].word().id);
    }
    lemma_fold_choice(a, b);
    let good = folded(a);
    let bad = folded(b);
    assert forall|i: int| 0 <= i < good.len() implies {
        ||| (#[trigger] bad[i]) == good[i]
        ||| good[i].id == rows[at].id && bad[i] == WordView { examples: None, ..good[i] }
    } by {
        let k = choose|k: int|
            0 <= k < a.len() && first_of_each_id(a)[i] == a[k] && first_of_each_id(b)[i] == b[k];
        assert(categories_of(a, a[k].id) == categories_of(b, a[k].id));
        assert(a[k].id == b[k].id);
        if k != at {
            assert(spoiled[k] == rows[k]);
        }
    }
}

/// Whether the list holds the text.
fn holds(list: &Vec<String>, text: &String) -> (found: bool)
    ensures
        found == list.deep_view().contains(text@),
{
    let ghost texts = list.deep_view();
    for k in 0..list.len()
        invariant
            texts == list.deep_view(),
            forall|j: int| 0 <= j < k ==> texts[j] != text@,
    {
        if list[k] == *text {
            assert(texts[k as int] == text@);
            return true;
        }
    }
    false
}

/// Unites the texts of `more` with those held: each that is not yet held
/// goes behind them.
fn unite(held: &mut Vec<String>, more: Vec<String>)
    ensures
        final(held).deep_view() == united(old(held).deep_view(), more.deep_view()),
{
    let ghost all = more.deep_view();
    let ghost start = held.deep_view();
    assert(all.take(0) =~= Seq::<Seq<char>>::empty());
    for c in it: more
        invariant
            it.seq().len() == all.len(),
            forall|k: int| 0 <= k < all.len() ==> (#[trigger] it.seq()[k])@ == all[k],
            held.deep_view() == united(start, all.take(it.index() as int)),
    {
        let ghost before = held.deep_view();
        proof {
            let next = all.take(it.index() as int + 1);
            assert(next.drop_last() =~= all.take(it.index() as int));
            assert(next.last() == c@);
        }
        if !holds(held, &c) {
            held.push(c);
            assert(held.deep_view() =~= before.push(c@));
        }
    }
    assert(all.take(all.len() as int) =~= all);
}

/// Merge multiple equal words with categories to one word.
///
/// The words come out in the order in which their ids first appear. Each
/// keeps what the first word of its id holds, and gets the categories of
/// all the words of its id as a set: each category once, in the order in
/// which the words first name it.
pub fn fold_categories(words: Vec<Word>) -> (out: Vec<Word>)
    ensures
        out.deep_view() == folded(words.deep_view()),
        forall|i: int|
            0 <= i < out.len() ==> (#[trigger] out.deep_view()[i]).category_ids.no_duplicates(),
{
    let ghost all = words.deep_view();
    // where in `out` the word of an id stands
    let mut place: HashMap<i64, usize> = HashMap::with_capacity(words.len());
    let mut out: Vec<Word> = Vec::new();
    assert(all.take(0) =~= Seq::<WordView>::empty());
    assert(out.deep_view() =~= folded(all.take(0)));
    for w in it: words
        invariant
            it.seq().len() == all.len(),
            forall|k: int| 0 <= k < all.len() ==> (#[trigger] it.seq()[k])@ == all[k],
            out.deep_view() == folded(all.take(it.index() as int)),
            forall|id: i64| #[trigger]
                place@.contains_key(id) <==> has_id(all.take(it.index() as int), id as int),
            forall|id: i64| #[trigger]
                place@.contains_key(id) ==> place@[id] < out.len() && out@[place@[id] as int].id
                    == id,
    {
        let ghost done = all.take(it.index() as int);
        let ghost next = all.take(it.index() as int + 1);
        let ghost before = out.deep_view();
        let ghost given = w@;
        proof {
            assert(next =~= done.push(w@));
            lemma_fold_step(done, w@);
            lemma_fold_one_word_per_id(done);
            assert forall|id: i64| has_id(next, id as int) <==> (has_id(done, id as int) || id
                == w.id) by {
                if has_id(next, id as int) {
                    let k = choose|k: int| 0 <= k < next.len() && (#[trigger] next[k]).id == id;
                    if k < done.len() {
                        assert(done[k].id == id);
                    }
                }
                if has_id(done, id as int) {
                    let k = choose|k: int| 0 <= k < done.len() && (#[trigger] done[k]).id == id;
                    assert(next[k].id == id);
                }
                if id == w.id {
                    assert(next[next.len() - 1].id == id);
                }
            }
        }
        let mut w = w;
        let mut named: Vec<String> = Vec::new();
        named.append(&mut w.category_ids);
        assert(named.deep_view() =~= given.category_ids);
        assert(w.category_ids.deep_view() =~= Seq::<Seq<char>>::empty());
        let found = match place.get(&w.id) {
            Some(at) => Some(*at),
            None => None,
        };
        match found {
            Some(at) => {
                let entry = &mut out[at];
                unite(&mut entry.category_ids, named);
                proof {
                    assert forall|i: int| 0 <= i < before.len() implies out.deep_view()[i]
                        == folded(next)[i] by {
                        if i != at {
                            assert(before[i].id != before[at as int].id);
                        }
                    }
                    assert(out.deep_view() =~= folded(next));
                }
            },
            None => {
                unite(&mut w.category_ids, named);
                place.insert(w.id, out.len());
                out.push(w);
                proof {
                    assert(out.deep_view() =~= before.push(w@));
                }
            },
        }
    }
    proof {
        assert(all.take(all.len() as int) =~= all);
        lemma_fold_categories_are_a_set(all);
    }
    out
}

} // verus!
