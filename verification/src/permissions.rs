//! Permission tokens and sets of them.
//!
//! A token is an opaque string. A set of tokens travels as a list; what
//! counts is which tokens occur in it.

use vstd::prelude::*;

verus! {

/// The texts of a list of strings, in order.
pub open spec fn texts(list: Seq<String>) -> Seq<Seq<char>> {
    Seq::new(list.len(), |i: int| list[i]@)
}

/// Whether every token of `inner` occurs in `outer`.
pub open spec fn subset_of(inner: Seq<Seq<char>>, outer: Seq<Seq<char>>) -> bool {
    forall|i: int| 0 <= i < inner.len() ==> outer.contains(#[trigger] inner[i])
}

/// The tokens of `list` in the order of their first occurrence, each once.
pub open spec fn distinct(list: Seq<Seq<char>>) -> Seq<Seq<char>>
    decreases list.len(),
{
    if list.len() == 0 {
        Seq::empty()
    } else {
        let kept = distinct(list.drop_last());
        if kept.contains(list.last()) {
            kept
        } else {
            kept.push(list.last())
        }
    }
}

/// Whether `token` occurs in `list`.
pub fn has_token(list: &Vec<String>, token: &String) -> (found: bool)
    ensures
        found == texts(list@).contains(token@),
{
    let mut i: usize = 0;
    while i < list.len()
        invariant
            i <= list.len(),
            forall|k: int| 0 <= k < i ==> texts(list@)[k] != token@,
        decreases list.len() - i,
    {
        if list[i] == *token {
            assert(texts(list@)[i as int] == token@);
            return true;
        }
        i = i + 1;
    }
    false
}

/// Whether every token of `inner` occurs in `outer`.
pub fn is_subset(inner: &Vec<String>, outer: &Vec<String>) -> (within: bool)
    ensures
        within == subset_of(texts(inner@), texts(outer@)),
{
    let mut i: usize = 0;
    while i < inner.len()
        invariant
            i <= inner.len(),
            forall|k: int| 0 <= k < i ==> texts(outer@).contains(#[trigger] texts(inner@)[k]),
        decreases inner.len() - i,
    {
        if !has_token(outer, &inner[i]) {
            assert(!texts(outer@).contains(texts(inner@)[i as int]));
            return false;
        }
        i = i + 1;
    }
    true
}

/// A copy of `list` without repeated tokens: each token stays where it first
/// occurred.
pub fn without_repeats(list: &Vec<String>) -> (kept: Vec<String>)
    ensures
        texts(kept@) == distinct(texts(list@)),
{
    let mut kept: Vec<String> = Vec::new();
    let mut i: usize = 0;
    assert(texts(list@).take(0) == Seq::<Seq<char>>::empty());
    while i < list.len()
        invariant
            i <= list.len(),
            texts(kept@) == distinct(texts(list@).take(i as int)),
        decreases list.len() - i,
    {
        let ghost before = texts(kept@);
        let ghost upto = texts(list@).take(i + 1);
        assert(upto.drop_last() == texts(list@).take(i as int));
        assert(upto.last() == list@[i as int]@);
        if !has_token(&kept, &list[i]) {
            kept.push(list[i].clone());
            assert(texts(kept@) == before.push(list@[i as int]@));
        }
        i = i + 1;
    }
    assert(texts(list@).take(list.len() as int) == texts(list@));
    kept
}

/// A list with one more item at its end holds that item and what it held
/// before.
pub proof fn lemma_push_contains<T>(list: Seq<T>, item: T, sought: T)
    ensures
        list.push(item).contains(sought) == (list.contains(sought) || item == sought),
{
    let longer = list.push(item);
    if list.contains(sought) {
        let i = choose|i: int| 0 <= i < list.len() && list[i] == sought;
        assert(longer[i] == sought);
    }
    if item == sought {
        assert(longer[list.len() as int] == sought);
    }
}

/// A list without repeats holds the tokens of the list it was made from, and
/// no others.
pub proof fn lemma_distinct_same_tokens(list: Seq<Seq<char>>, token: Seq<char>)
    ensures
        distinct(list).contains(token) == list.contains(token),
    decreases list.len(),
{
    if list.len() > 0 {
        let front = list.drop_last();
        let kept = distinct(front);
        lemma_distinct_same_tokens(front, token);
        assert(list == front.push(list.last()));
        lemma_push_contains(front, list.last(), token);
        lemma_push_contains(kept, list.last(), token);
    }
}

/// A list without repeats holds no token twice.
pub proof fn lemma_distinct_no_duplicates(list: Seq<Seq<char>>)
    ensures
        distinct(list).no_duplicates(),
    decreases list.len(),
{
    if list.len() > 0 {
        lemma_distinct_no_duplicates(list.drop_last());
    }
}

} // verus!
