use vstd::prelude::*;

verus! {

/// An embedding with the place of its text in the request, as a provider sends it.
#[derive(Debug, Clone)]
pub struct IndexedEmbedding {
    pub index: usize,
    /// The components of the vector, each by the bits of its single-precision value.
    pub embedding: Vec<u32>,
}

/// An embedding by what it holds.
pub open spec fn indexed_view(e: IndexedEmbedding) -> (nat, Seq<u32>) {
    (e.index as nat, e.embedding@)
}

/// The views of a list of embeddings.
pub open spec fn indexed_views(list: Seq<IndexedEmbedding>) -> Seq<(nat, Seq<u32>)> {
    list.map_values(|e: IndexedEmbedding| indexed_view(e))
}

/// Where an embedding of the given index goes into a list ordered by rising index:
/// before the first embedding, at or after `from`, whose index is greater.
pub open spec fn index_slot(ordered: Seq<(nat, Seq<u32>)>, index: nat, from: int) -> int
    decreases ordered.len() - from,
{
    if from < 0 || from >= ordered.len() {
        ordered.len() as int
    } else if ordered[from].0 > index {
        from
    } else {
        index_slot(ordered, index, from + 1)
    }
}

/// A list of embeddings ordered by rising index; embeddings of one index keep the
/// order they came in.
pub open spec fn by_index(list: Seq<(nat, Seq<u32>)>) -> Seq<(nat, Seq<u32>)>
    decreases list.len(),
{
    if list.len() == 0 {
        Seq::empty()
    } else {
        let before = by_index(list.drop_last());
        before.insert(index_slot(before, list.last().0, 0), list.last())
    }
}

/// The vectors of a list of embeddings.
pub open spec fn vectors_of(list: Seq<(nat, Seq<u32>)>) -> Seq<Seq<u32>> {
    list.map_values(|e: (nat, Seq<u32>)| e.1)
}

/// The vectors of a list.
pub open spec fn vector_views(list: Seq<Vec<u32>>) -> Seq<Seq<u32>> {
    list.map_values(|v: Vec<u32>| v@)
}

/// The slot lies within the list; the indices before it are not greater than the given
/// one, and the index at it is.
pub proof fn lemma_index_slot(ordered: Seq<(nat, Seq<u32>)>, index: nat, from: int)
    requires
        0 <= from <= ordered.len(),
    ensures
        from <= index_slot(ordered, index, from) <= ordered.len(),
        forall|i: int| from <= i < index_slot(ordered, index, from) ==> ordered[i].0 <= index,
        index_slot(ordered, index, from) < ordered.len() ==> ordered[index_slot(
            ordered,
            index,
            from,
        )].0 > index,
    decreases ordered.len() - from,
{
    if from < ordered.len() && ordered[from].0 <= index {
        lemma_index_slot(ordered, index, from + 1);
    }
}

/// A list ordered by index is as long as the list it was made of, and its indices
/// never fall.
pub proof fn lemma_by_index(list: Seq<(nat, Seq<u32>)>)
    ensures
        by_index(list).len() == list.len(),
        forall|i: int, j: int| 0 <= i < j < list.len() ==> by_index(list)[i].0 <= by_index(list)[j].0,
    decreases list.len(),
{
    if list.len() > 0 {
        let rest = list.drop_last();
        let x = list.last();
        let before = by_index(rest);
        lemma_by_index(rest);
        lemma_index_slot(before, x.0, 0);
        let at = index_slot(before, x.0, 0);
        let after = before.insert(at, x);
        assert forall|i: int, j: int| 0 <= i < j < after.len() implies after[i].0
            <= after[j].0 by {
            if j < at {
                assert(after[i] == before[i] && after[j] == before[j]);
            } else if j == at {
                assert(after[i] == before[i]);
            } else if i < at {
                assert(after[i] == before[i] && after[j] == before[j - 1]);
                if at < j - 1 {
                    assert(before[at].0 <= before[j - 1].0);
                }
            } else if i == at {
                assert(after[j] == before[j - 1]);
                if at < j - 1 {
                    assert(before[at].0 <= before[j - 1].0);
                }
            } else {
                assert(after[i] == before[i - 1] && after[j] == before[j - 1]);
            }
        }
    }
}

/// The vectors of a provider's answer in the order of the texts of the request: the
/// embeddings are ordered by the place that each came with.
pub fn restore_order(answer: Vec<IndexedEmbedding>) -> (vectors: Vec<Vec<u32>>)
    ensures
        vector_views(vectors@) == vectors_of(by_index(indexed_views(answer@))),
        vectors.len() == answer.len(),
{
    let ghost all = indexed_views(answer@);
    let mut ordered: Vec<IndexedEmbedding> = Vec::new();
    assert(indexed_views(ordered@) =~= Seq::<(nat, Seq<u32>)>::empty());
    let mut i: usize = 0;
    while i < answer.len()
        invariant
            i <= answer.len(),
            all == indexed_views(answer@),
            indexed_views(ordered@) == by_index(all.take(i as int)),
        decreases answer.len() - i,
    {
        assert(all.take(i + 1).drop_last() == all.take(i as int));
        assert(all.take(i + 1).last() == indexed_view(answer@[i as int]));
        let ghost views = indexed_views(ordered@);
        let index = answer[i].index;
        let mut at: usize = 0;
        while at < ordered.len() && ordered[at].index <= index
            invariant
                at <= ordered.len(),
                views == indexed_views(ordered@),
                index_slot(views, index as nat, 0) == index_slot(views, index as nat, at as int),
            decreases ordered.len() - at,
        {
            assert(views[at as int].0 == ordered@[at as int].index);
            at += 1;
        }
        proof {
            if at < ordered.len() {
                assert(views[at as int].0 == ordered@[at as int].index);
            }
        }
        let item = IndexedEmbedding {
            index,
            embedding: crate::db::types::clone_bits(&answer[i].embedding),
        };
        ordered.insert(at, item);
        assert(indexed_views(ordered@) =~= views.insert(at as int, indexed_view(item)));
        i += 1;
    }
    assert(all.take(answer.len() as int) == all);
    proof {
        lemma_by_index(all);
    }
    let ghost sorted = indexed_views(ordered@);
    let mut vectors: Vec<Vec<u32>> = Vec::new();
    let mut k: usize = 0;
    assert(vector_views(vectors@) =~= vectors_of(sorted).take(0));
    while k < ordered.len()
        invariant
            k <= ordered.len(),
            sorted == indexed_views(ordered@),
            vector_views(vectors@) == vectors_of(sorted).take(k as int),
            vectors.len() == k,
        decreases ordered.len() - k,
    {
        let ghost before = vector_views(vectors@);
        vectors.push(crate::db::types::clone_bits(&ordered[k].embedding));
        assert(vector_views(vectors@) =~= before.push(ordered@[k as int].embedding@));
        assert(vectors_of(sorted).take(k + 1) =~= vectors_of(sorted).take(k as int).push(
            ordered@[k as int].embedding@,
        ));
        k += 1;
    }
    assert(vectors_of(sorted).take(ordered.len() as int) == vectors_of(sorted));
    vectors
}

} // verus!
