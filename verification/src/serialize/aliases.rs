//! The aliases that are written for a record: each distinct alias once.

use crate::text::texts;
use itertools::Itertools;
use vstd::prelude::*;

verus! {

/// The items of a list without those that occurred earlier in it: of equal
/// items the first stays, and the order is kept.
pub open spec fn first_occurrences(items: Seq<Seq<char>>) -> Seq<Seq<char>>
    decreases items.len(),
{
    if items.len() == 0 {
        Seq::<Seq<char>>::empty()
    } else if items.drop_last().contains(items.last()) {
        first_occurrences(items.drop_last())
    } else {
        first_occurrences(items.drop_last()).push(items.last())
    }
}

/// The items of a list without the empty ones.
pub open spec fn without_empty(items: Seq<Seq<char>>) -> Seq<Seq<char>>
    decreases items.len(),
{
    if items.len() == 0 {
        Seq::<Seq<char>>::empty()
    } else if items.last().len() == 0 {
        without_empty(items.drop_last())
    } else {
        without_empty(items.drop_last()).push(items.last())
    }
}

/// The aliases that are written for a profile: each distinct alias once, in
/// the order of first occurrence, the empty one left out.
pub open spec fn alias_worklist(aliases: Option<Seq<Seq<char>>>) -> Seq<Seq<char>> {
    match aliases {
        None => Seq::<Seq<char>>::empty(),
        Some(aliases) => without_empty(first_occurrences(aliases)),
    }
}

/// `Itertools::unique` filters out the items that the iteration has already
/// produced once, comparing by equality: the items come out in the order in
/// which they occur, and of equal items the first is kept.
#[verifier::external_body]
fn unique(items: Vec<String>) -> (kept: Vec<String>)
    ensures
        texts(kept@) == first_occurrences(texts(items@)),
{
    items.into_iter().unique().collect()
}

/// Copies a list of strings.
fn copy_strings(items: &Vec<String>) -> (copy: Vec<String>)
    ensures
        texts(copy@) == texts(items@),
{
    let mut copy: Vec<String> = Vec::new();
    let mut i: usize = 0;
    while i < items.len()
        invariant
            i <= items.len(),
            copy.len() == i,
            forall|k: int| 0 <= k < i ==> (#[trigger] copy@[k])@ == items@[k]@,
        decreases items.len() - i,
    {
        copy.push(items[i].clone());
        i += 1;
    }
    assert(texts(copy@) =~= texts(items@));
    copy
}

/// Lists the aliases to write for a profile: each distinct alias once, the
/// empty one left out.
pub fn distinct_aliases(aliases: &Option<Vec<String>>) -> (work: Vec<String>)
    ensures
        texts(work@) == alias_worklist(aliases.deep_view()),
{
    match aliases {
        None => {
            let work: Vec<String> = Vec::new();
            assert(texts(work@) =~= Seq::<Seq<char>>::empty());
            work
        },
        Some(names) => {
            assert(texts(names@) =~= names.deep_view());
            let distinct = unique(copy_strings(names));
            let mut work: Vec<String> = Vec::new();
            let mut i: usize = 0;
            let ghost all = texts(distinct@);
            assert(all.take(0) =~= Seq::<Seq<char>>::empty());
            assert(texts(work@) =~= Seq::<Seq<char>>::empty());
            while i < distinct.len()
                invariant
                    i <= distinct.len(),
                    all == texts(distinct@),
                    texts(work@) == without_empty(all.take(i as int)),
                decreases distinct.len() - i,
            {
                proof {
                    let next = all.take(i + 1);
                    assert(next.drop_last() =~= all.take(i as int));
                    assert(next.last() == distinct@[i as int]@);
                }
                let ghost before = texts(work@);
                if !distinct[i].as_str().is_empty() {
                    work.push(distinct[i].clone());
                    assert(texts(work@) =~= before.push(distinct@[i as int]@));
                }
                i += 1;
            }
            assert(all.take(distinct.len() as int) =~= all);
            work
        },
    }
}

/// The first occurrences of a list are its items, each once.
pub proof fn lemma_first_occurrences(items: Seq<Seq<char>>)
    ensures
        forall|i: int, j: int|
            0 <= i < j < first_occurrences(items).len() ==> first_occurrences(items)[i]
                != first_occurrences(items)[j],
        forall|item: Seq<char>| first_occurrences(items).contains(item) <==> items.contains(item),
    decreases items.len(),
{
    let kept = first_occurrences(items);
    if items.len() > 0 {
        let front = items.drop_last();
        let last = items.last();
        let before = first_occurrences(front);
        lemma_first_occurrences(front);
        assert forall|item: Seq<char>| kept.contains(item) <==> items.contains(item) by {
            if kept.contains(item) {
                let i = choose|i: int| 0 <= i < kept.len() && kept[i] == item;
                if i < before.len() {
                    assert(before[i] == item);
                    assert(before.contains(item));
                    assert(front.contains(item));
                    let k = choose|k: int| 0 <= k < front.len() && front[k] == item;
                    assert(items[k] == item);
                } else {
                    assert(items[items.len() - 1] == item);
                }
            }
            if items.contains(item) {
                let k = choose|k: int| 0 <= k < items.len() && items[k] == item;
                if k < front.len() {
                    assert(front[k] == item);
                    assert(front.contains(item));
                } else {
                    assert(item == last);
                }
                if front.contains(item) {
                    assert(before.contains(item));
                    let i = choose|i: int| 0 <= i < before.len() && before[i] == item;
                    assert(kept[i] == item);
                } else {
                    assert(kept[kept.len() - 1] == item);
                }
            }
        }
        assert forall|i: int, j: int| 0 <= i < j < kept.len() implies kept[i] != kept[j] by {
            if j == before.len() {
                assert(before[i] == kept[i]);
                assert(before.contains(kept[i]));
            } else {
                assert(before[i] == kept[i] && before[j] == kept[j]);
            }
        }
    }
}

/// What `without_empty` keeps are the non-empty items, in their order: a
/// list without repetitions stays one.
pub proof fn lemma_without_empty(items: Seq<Seq<char>>)
    requires
        forall|i: int, j: int| 0 <= i < j < items.len() ==> items[i] != items[j],
    ensures
        forall|i: int, j: int|
            0 <= i < j < without_empty(items).len() ==> without_empty(items)[i] != without_empty(
                items,
            )[j],
        forall|item: Seq<char>|
            without_empty(items).contains(item) <==> items.contains(item) && item.len() > 0,
    decreases items.len(),
{
    let kept = without_empty(items);
    if items.len() > 0 {
        let front = items.drop_last();
        let last = items.last();
        let before = without_empty(front);
        assert forall|i: int, j: int| 0 <= i < j < front.len() implies front[i] != front[j] by {
            assert(front[i] == items[i] && front[j] == items[j]);
        }
        lemma_without_empty(front);
        assert forall|item: Seq<char>|
            kept.contains(item) <==> items.contains(item) && item.len() > 0 by {
            if kept.contains(item) {
                let i = choose|i: int| 0 <= i < kept.len() && kept[i] == item;
                if i < before.len() {
                    assert(before[i] == item);
                    assert(before.contains(item));
                    assert(front.contains(item));
                    let k = choose|k: int| 0 <= k < front.len() && front[k] == item;
                    assert(items[k] == item);
                } else {
                    assert(items[items.len() - 1] == item);
                }
            }
            if items.contains(item) && item.len() > 0 {
                let k = choose|k: int| 0 <= k < items.len() && items[k] == item;
                if k < front.len() {
                    assert(front[k] == item);
                    assert(front.contains(item));
                    assert(before.contains(item));
                    let i = choose|i: int| 0 <= i < before.len() && before[i] == item;
                    assert(kept[i] == item);
                } else {
                    assert(kept[kept.len() - 1] == item);
                }
            }
        }
        assert forall|i: int, j: int| 0 <= i < j < kept.len() implies kept[i] != kept[j] by {
            if j == before.len() {
                assert(before[i] == kept[i]);
                assert(before.contains(kept[i]));
                assert(front.contains(kept[i]));
                let k = choose|k: int| 0 <= k < front.len() && front[k] == kept[i];
                assert(items[k] != items[items.len() - 1]);
            } else {
                assert(before[i] == kept[i] && before[j] == kept[j]);
            }
        }
    }
}

/// The aliases that are written for a profile are its non-empty aliases,
/// each exactly once.
pub proof fn lemma_alias_worklist(aliases: Seq<Seq<char>>)
    ensures
        forall|i: int, j: int|
            0 <= i < j < alias_worklist(Some(aliases)).len() ==> alias_worklist(Some(aliases))[i]
                != alias_worklist(Some(aliases))[j],
        forall|alias: Seq<char>|
            alias_worklist(Some(aliases)).contains(alias) <==> aliases.contains(alias)
                && alias.len() > 0,
{
    lemma_first_occurrences(aliases);
    lemma_without_empty(first_occurrences(aliases));
}

} // verus!
