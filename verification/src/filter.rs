//! The search: which records a term lets through.

use vstd::prelude::*;
use crate::tape::{descending, views, Tape, TapeList, TapeView};
use crate::text::{contains, occurs_ignoring_case, upper_chars, uppercase};

verus! {

/// The search term `term` lets the record `t` through: the term is empty, or it
/// stands in the title or in the label, the case of letters set aside.
pub open spec fn lets_through(term: Seq<char>, t: TapeView) -> bool {
    ||| term.len() == 0
    ||| occurs_ignoring_case(term, t.title)
    ||| occurs_ignoring_case(term, t.tape)
}

/// The records of `rows` that `term` lets through, in the order of `rows`.
pub open spec fn filtered(rows: Seq<TapeView>, term: Seq<char>) -> Seq<TapeView> {
    rows.filter(|t: TapeView| lets_through(term, t))
}

/// With the empty term nothing is held back: the view is the list itself.
pub proof fn lemma_empty_term_shows_all(rows: Seq<TapeView>, term: Seq<char>)
    requires
        term.len() == 0,
    ensures
        filtered(rows, term) == rows,
    decreases rows.len(),
{
    reveal(Seq::filter);
    if rows.len() > 0 {
        lemma_empty_term_shows_all(rows.drop_last(), term);
        assert(rows.drop_last().push(rows.last()) =~= rows);
    }
}

/// The view holds the records of the list that the term lets through, all of
/// them and no others.
pub proof fn lemma_shown_are_the_matches(rows: Seq<TapeView>, term: Seq<char>)
    ensures
        forall|t: TapeView| #[trigger]
            filtered(rows, term).contains(t) <==> rows.contains(t) && lets_through(term, t),
{
    let pred = |t: TapeView| lets_through(term, t);
    assert forall|t: TapeView| #[trigger]
        filtered(rows, term).contains(t) <==> rows.contains(t) && lets_through(term, t) by {
        if filtered(rows, term).contains(t) {
            rows.lemma_filter_contains_rev(pred, t);
            let i = choose|i: int| 0 <= i < rows.filter(pred).len() && rows.filter(pred)[i] == t;
            rows.lemma_filter_pred(pred, i);
        }
        if rows.contains(t) && lets_through(term, t) {
            let i = choose|i: int| 0 <= i < rows.len() && rows[i] == t;
            rows.lemma_filter_contains(pred, i);
        }
    }
}

/// The view keeps the order of the list: its ids fall strictly, as the list's do.
pub proof fn lemma_filtered_keeps_order(rows: Seq<TapeView>, term: Seq<char>)
    requires
        descending(rows),
    ensures
        descending(filtered(rows, term)),
    decreases rows.len(),
{
    let pred = |t: TapeView| lets_through(term, t);
    reveal(Seq::filter);
    if rows.len() > 0 {
        let front = rows.drop_last();
        let kept = front.filter(pred);
        lemma_filtered_keeps_order(front, term);
        if pred(rows.last()) {
            assert forall|i: int, j: int| 0 <= i < j < kept.push(rows.last()).len() implies kept.push(
                rows.last(),
            )[i].id > kept.push(rows.last())[j].id by {
                if j == kept.len() {
                    assert(kept.contains(kept[i]));
                    front.lemma_filter_contains_rev(pred, kept[i]);
                    let k = choose|k: int| 0 <= k < front.len() && front[k] == kept[i];
                    assert(rows[k].id > rows[rows.len() - 1].id);
                }
            }
        }
    }
}

/// The records that references point to, each by its view.
pub open spec fn views_of(shown: Seq<&Tape>) -> Seq<TapeView> {
    shown.map_values(|t: &Tape| t@)
}

/// Whether the term whose upper-case characters are `needle` stands in the
/// title or in the label of `t`.
fn holds_needle(needle: &Vec<char>, t: &Tape, Ghost(term): Ghost<Seq<char>>) -> (yes: bool)
    requires
        needle@ == uppercase(term),
    ensures
        yes == (occurs_ignoring_case(term, t@.title) || occurs_ignoring_case(term, t@.tape)),
{
    let title = upper_chars(t.title.as_str());
    if contains(&title, needle) {
        return true;
    }
    let tape = upper_chars(t.tape.as_str());
    contains(&tape, needle)
}

/// Whether the search term `term` lets the record `t` through.
pub fn tape_matches(term: &str, t: &Tape) -> (yes: bool)
    ensures
        yes == lets_through(term@, t@),
{
    if term.is_empty() {
        return true;
    }
    let needle = upper_chars(term);
    holds_needle(&needle, t, Ghost(term@))
}

/// The records of `list` that the search term `term` lets through, in the
/// order of the list. The empty term lets every record through.
pub fn filter_list<'a>(list: &'a TapeList, term: &str) -> (shown: Vec<&'a Tape>)
    ensures
        views_of(shown@) == filtered(list@, term@),
        term@.len() == 0 ==> views_of(shown@) == list@,
        descending(views_of(shown@)),
        forall|t: TapeView| #[trigger]
            views_of(shown@).contains(t) <==> list@.contains(t) && lets_through(term@, t),
{
    proof {
        if term@.len() == 0 {
            lemma_empty_term_shows_all(list@, term@);
        }
        use_type_invariant(list);
        lemma_filtered_keeps_order(list@, term@);
        lemma_shown_are_the_matches(list@, term@);
    }
    let rows = list.rows();
    let n = rows.len();
    let unfiltered = term.is_empty();
    let needle = upper_chars(term);
    let ghost pred = |t: TapeView| lets_through(term@, t);
    let mut shown: Vec<&'a Tape> = Vec::new();
    let mut i: usize = 0;
    proof {
        assert(views(rows@).take(0) =~= Seq::<TapeView>::empty());
        assert(views_of(shown@) =~= Seq::<TapeView>::empty());
        Seq::<TapeView>::empty().lemma_filter_len(pred);
    }
    while i < n
        invariant
            n == rows.len(),
            i <= n,
            unfiltered == (term@.len() == 0),
            needle@ == uppercase(term@),
            pred == |t: TapeView| lets_through(term@, t),
            views_of(shown@) == views(rows@).take(i as int).filter(pred),
        decreases n - i,
    {
        let t = &rows[i];
        let yes = unfiltered || holds_needle(&needle, t, Ghost(term@));
        proof {
            let seen = views(rows@).take(i as int);
            assert(yes == pred(t@));
            assert(views(rows@)[i as int] == t@);
            views(rows@).lemma_take_succ_push(i as int);
            seen.lemma_filter_push(t@, pred);
            shown@.lemma_push_map_commute(|r: &Tape| r@, t);
        }
        if yes {
            shown.push(t);
        }
        i = i + 1;
    }
    proof {
        views(rows@).lemma_take_len();
    }
    shown
}

} // verus!
