//! The decisions of an export run between the store and the deck: which
//! words a choice of categories keeps, and how the time of a long export is
//! estimated.

use crate::word::{Category, CategoryView, Word, WordView};
use vstd::prelude::*;

verus! {

/// Minimum number of words to measure approximated export time
pub const APPROX_BOUND: usize = 100;

/// The ids of a list of categories.
pub open spec fn ids_of(categories: Seq<CategoryView>) -> Seq<Seq<char>> {
    categories.map_values(|c: CategoryView| c.id)
}

/// Whether a word belongs to one of the categories with these ids.
pub open spec fn is_in_any(w: WordView, ids: Seq<Seq<char>>) -> bool {
    exists|i: int| 0 <= i < w.category_ids.len() && ids.contains(#[trigger] w.category_ids[i])
}

/// The words that belong to one of the categories with these ids, in their
/// order.
pub open spec fn words_in(words: Seq<WordView>, ids: Seq<Seq<char>>) -> Seq<WordView> {
    words.filter(|w: WordView| is_in_any(w, ids))
}

/// What a user's choice of categories narrows an export to: nothing where
/// all of the `total` categories were chosen, the choice itself otherwise.
pub fn narrowed(total: usize, chosen: Vec<Category>) -> (narrow: Option<Vec<Category>>)
    ensures
        narrow == if chosen.len() == total {
            None
        } else {
            Some(chosen)
        },
{
    if chosen.len() == total {
        None
    } else {
        Some(chosen)
    }
}

fn is_among(id: &String, categories: &Vec<Category>) -> (found: bool)
    ensures
        found == ids_of(categories.deep_view()).contains(id@),
{
    let ghost ids = ids_of(categories.deep_view());
    for k in 0..categories.len()
        invariant
            ids == ids_of(categories.deep_view()),
            forall|j: int| 0 <= j < k ==> ids[j] != id@,
    {
        if categories[k].id == *id {
            assert(ids[k as int] == id@);
            return true;
        }
    }
    false
}

fn belongs(w: &Word, categories: &Vec<Category>) -> (found: bool)
    ensures
        found == is_in_any(w@, ids_of(categories.deep_view())),
{
    let ghost ids = ids_of(categories.deep_view());
    for i in 0..w.category_ids.len()
        invariant
            ids == ids_of(categories.deep_view()),
            forall|j: int| 0 <= j < i ==> !ids.contains(#[trigger] w@.category_ids[j]),
    {
        if is_among(&w.category_ids[i], categories) {
            assert(ids.contains(w@.category_ids[i as int]));
            return true;
        }
    }
    false
}

/// The words that belong to one of the categories, in their order.
pub fn words_in_categories(words: Vec<Word>, categories: &Vec<Category>) -> (kept: Vec<Word>)
    ensures
        kept.deep_view() == words_in(words.deep_view(), ids_of(categories.deep_view())),
{
    let ghost all = words.deep_view();
    let ghost ids = ids_of(categories.deep_view());
    let ghost pred = |w: WordView| is_in_any(w, ids);
    let mut kept: Vec<Word> = Vec::new();
    proof {
        reveal(Seq::filter);
        assert(all.take(0) =~= Seq::<WordView>::empty());
        assert(kept.deep_view() =~= all.take(0).filter(pred));
    }
    for w in it: words
        invariant
            ids == ids_of(categories.deep_view()),
            pred == (|w: WordView| is_in_any(w, ids)),
            it.seq().len() == all.len(),
            forall|k: int| 0 <= k < all.len() ==> (#[trigger] it.seq()[k])@ == all[k],
            kept.deep_view() == all.take(it.index() as int).filter(pred),
    {
        let ghost before = kept.deep_view();
        proof {
            reveal(Seq::filter);
            let next = all.take(it.index() as int + 1);
            assert(next.drop_last() =~= all.take(it.index() as int));
            assert(next.last() == w@);
        }
        if belongs(&w, categories) {
            kept.push(w);
            assert(kept.deep_view() =~= before.push(w@));
        }
    }
    assert(all.take(all.len() as int) =~= all);
    kept
}

/// How many of `total` words are exported first to measure the time they
/// take: none for a short export, [`APPROX_BOUND`] for a long one, and all
/// the words where there are fewer than that.
pub open spec fn sample_len_spec(total: nat) -> Option<nat> {
    if total <= APPROX_BOUND / 2 {
        None
    } else if total < APPROX_BOUND {
        Some(total)
    } else {
        Some(APPROX_BOUND as nat)
    }
}

/// The time that an export of `total` words is likely to take, in
/// nanoseconds, where its sample took `sample_nanos`: the time of one word
/// of the sample, rounded down, times the number of words. None where no
/// sample is taken.
pub open spec fn approx_nanos_spec(sample_nanos: nat, total: nat) -> Option<nat> {
    match sample_len_spec(total) {
        Some(sample) => Some((sample_nanos / sample) * total),
        None => None,
    }
}

/// How many of `total` words are exported first to measure the time they
/// take.
pub fn sample_len(total: usize) -> (sample: Option<usize>)
    ensures
        match sample {
            Some(n) => sample_len_spec(total as nat) == Some(n as nat) && 0 < n <= total,
            None => sample_len_spec(total as nat) is None,
        },
{
    if total <= APPROX_BOUND / 2 {
        None
    } else if total < APPROX_BOUND {
        Some(total)
    } else {
        Some(APPROX_BOUND)
    }
}

/// The time that an export of `total` words is likely to take, in
/// nanoseconds, where its sample took `sample_nanos`.
pub fn approx_export_nanos(sample_nanos: u64, total: usize) -> (nanos: Option<u128>)
    ensures
        match nanos {
            Some(n) => approx_nanos_spec(sample_nanos as nat, total as nat) == Some(n as nat),
            None => approx_nanos_spec(sample_nanos as nat, total as nat) is None,
        },
{
    match sample_len(total) {
        Some(sample) => {
            let each: u128 = (sample_nanos / (sample as u64)) as u128;
            assert(each * (total as u128) <= u128::MAX) by (nonlinear_arith)
                requires
                    each <= u64::MAX,
                    total <= u64::MAX,
            ;
            Some(each * (total as u128))
        },
        None => None,
    }
}

} // verus!
