//! What holds of every sequence and every mapping that the builders make.

use vstd::prelude::*;
use crate::doc::{Doc, distinct_keys, has_key, insert_all, insert_pair, push_all, without_key};

verus! {

/// Taking a key out keeps the other entries and their order: every entry
/// left has another key and was there before, every entry with another key
/// is still there, and keys that were distinct stay distinct.
pub proof fn lemma_without_key(pairs: Seq<(Doc, Doc)>, key: Doc)
    ensures
        without_key(pairs, key).len() <= pairs.len(),
        !has_key(without_key(pairs, key), key),
        forall|i: int|
            0 <= i < without_key(pairs, key).len() ==> pairs.contains(
                #[trigger] without_key(pairs, key)[i],
            ),
        forall|j: int|
            0 <= j < pairs.len() && pairs[j].0 != key ==> without_key(pairs, key).contains(
                #[trigger] pairs[j],
            ),
        distinct_keys(pairs) ==> distinct_keys(without_key(pairs, key)),
        !has_key(pairs, key) ==> without_key(pairs, key) == pairs,
    decreases pairs.len(),
{
    reveal(Seq::filter);
    let pred = |p: (Doc, Doc)| p.0 != key;
    let w = without_key(pairs, key);
    if pairs.len() == 0 {
        assert(w =~= pairs);
    } else {
        let front = pairs.drop_last();
        let last = pairs.last();
        let wf = without_key(front, key);
        lemma_without_key(front, key);
        assert(w == if pred(last) {
            wf.push(last)
        } else {
            wf
        });
        assert forall|i: int| 0 <= i < w.len() implies pairs.contains(#[trigger] w[i]) by {
            if i < wf.len() {
                assert(front.contains(wf[i]));
                let j = choose|j: int| 0 <= j < front.len() && front[j] == wf[i];
                assert(pairs[j] == w[i]);
            } else {
                assert(pairs[pairs.len() - 1] == w[i]);
            }
        }
        assert forall|j: int| 0 <= j < pairs.len() && pairs[j].0 != key implies w.contains(
            #[trigger] pairs[j],
        ) by {
            if j < front.len() {
                assert(front[j] == pairs[j]);
                assert(wf.contains(front[j]));
                let i = choose|i: int| 0 <= i < wf.len() && wf[i] == front[j];
                assert(w[i] == pairs[j]);
            } else {
                assert(w[w.len() - 1] == pairs[j]);
            }
        }
        if distinct_keys(pairs) {
            assert(distinct_keys(front)) by {
                assert forall|i: int, j: int| 0 <= i < j < front.len() implies front[i].0
                    != front[j].0 by {
                    assert(pairs[i].0 != pairs[j].0);
                }
            }
            assert forall|i: int, j: int| 0 <= i < j < w.len() implies w[i].0 != w[j].0 by {
                if j == wf.len() {
                    assert(front.contains(wf[i]));
                    let k = choose|k: int| 0 <= k < front.len() && front[k] == wf[i];
                    assert(pairs[k].0 != pairs[pairs.len() - 1].0);
                } else {
                    assert(wf[i].0 != wf[j].0);
                }
            }
        }
        if !has_key(pairs, key) {
            assert(pairs[pairs.len() - 1].0 != key);
            assert(!has_key(front, key)) by {
                if has_key(front, key) {
                    let i = choose|i: int| 0 <= i < front.len() && #[trigger] front[i].0 == key;
                    assert(pairs[i].0 == key);
                }
            }
            assert(w =~= pairs);
        }
        assert(!has_key(w, key)) by {
            if has_key(w, key) {
                let i = choose|i: int| 0 <= i < w.len() && #[trigger] w[i].0 == key;
                if i < wf.len() {
                    assert(wf[i].0 == key);
                }
            }
        }
    }
}

/// An insertion keeps the keys of a mapping distinct, and the entry it made
/// is the youngest.
pub proof fn lemma_insert_keeps_keys_distinct(pairs: Seq<(Doc, Doc)>, key: Doc, value: Doc)
    requires
        distinct_keys(pairs),
    ensures
        distinct_keys(insert_pair(pairs, key, value)),
        insert_pair(pairs, key, value).last() == (key, value),
{
    lemma_without_key(pairs, key);
    let w = without_key(pairs, key);
    let r = insert_pair(pairs, key, value);
    assert forall|i: int, j: int| 0 <= i < j < r.len() implies r[i].0 != r[j].0 by {
        if j == w.len() {
            assert(w[i].0 == key ==> has_key(w, key));
        } else {
            assert(w[i].0 != w[j].0);
        }
    }
}

/// An insertion under a new key adds one entry at the end and changes nothing
/// else; under a key that is there already it leaves the number of entries
/// as it is.
pub proof fn lemma_insert_len(pairs: Seq<(Doc, Doc)>, key: Doc, value: Doc)
    requires
        distinct_keys(pairs),
    ensures
        !has_key(pairs, key) ==> insert_pair(pairs, key, value) == pairs.push((key, value)),
        has_key(pairs, key) ==> insert_pair(pairs, key, value).len() == pairs.len(),
    decreases pairs.len(),
{
    reveal(Seq::filter);
    lemma_without_key(pairs, key);
    if has_key(pairs, key) {
        let front = pairs.drop_last();
        let last = pairs.last();
        assert(distinct_keys(front)) by {
            assert forall|i: int, j: int| 0 <= i < j < front.len() implies front[i].0
                != front[j].0 by {
                assert(pairs[i].0 != pairs[j].0);
            }
        }
        lemma_without_key(front, key);
        if last.0 == key {
            assert(!has_key(front, key)) by {
                if has_key(front, key) {
                    let i = choose|i: int| 0 <= i < front.len() && #[trigger] front[i].0 == key;
                    assert(pairs[i].0 != pairs[pairs.len() - 1].0);
                }
            }
            assert(without_key(pairs, key) == front);
        } else {
            let i = choose|i: int| 0 <= i < pairs.len() && #[trigger] pairs[i].0 == key;
            assert(front[i].0 == key);
            assert(has_key(front, key));
            lemma_insert_len(front, key, value);
            assert(without_key(pairs, key) == without_key(front, key).push(last));
        }
    }
}

/// Entries inserted one by one are in the mapping under distinct keys,
/// whatever was inserted.
pub proof fn lemma_inserted_keys_distinct(base: Seq<(Doc, Doc)>, more: Seq<(Doc, Doc)>)
    requires
        distinct_keys(base),
    ensures
        distinct_keys(insert_all(base, more)),
    decreases more.len(),
{
    if more.len() > 0 {
        lemma_inserted_keys_distinct(base, more.drop_last());
        lemma_insert_keeps_keys_distinct(
            insert_all(base, more.drop_last()),
            more.last().0,
            more.last().1,
        );
    }
}

/// Entries with distinct keys, inserted one by one into a new mapping, are
/// exactly its entries, in the order of their insertion.
pub proof fn lemma_mapping_holds_entries(pairs: Seq<(Doc, Doc)>)
    requires
        distinct_keys(pairs),
    ensures
        insert_all(Seq::empty(), pairs) == pairs,
        insert_all(Seq::empty(), pairs).len() == pairs.len(),
    decreases pairs.len(),
{
    if pairs.len() == 0 {
    } else {
        let front = pairs.drop_last();
        let last = pairs.last();
        assert(distinct_keys(front)) by {
            assert forall|i: int, j: int| 0 <= i < j < front.len() implies front[i].0
                != front[j].0 by {
                assert(pairs[i].0 != pairs[j].0);
            }
        }
        lemma_mapping_holds_entries(front);
        assert(!has_key(front, last.0)) by {
            if has_key(front, last.0) {
                let i = choose|i: int| 0 <= i < front.len() && #[trigger] front[i].0 == last.0;
                assert(pairs[i].0 != pairs[pairs.len() - 1].0);
            }
        }
        lemma_without_key(front, last.0);
        assert(insert_pair(front, last.0, last.1) =~= pairs);
    }
}

/// Elements appended one by one to a new sequence are exactly its elements,
/// in the order of their appending.
pub proof fn lemma_sequence_holds_elements(items: Seq<Doc>)
    ensures
        push_all(Seq::empty(), items) == items,
        push_all(Seq::empty(), items).len() == items.len(),
    decreases items.len(),
{
    if items.len() > 0 {
        lemma_sequence_holds_elements(items.drop_last());
        assert(items.drop_last().push(items.last()) =~= items);
    }
}

} // verus!
