use crate::query::types::{result_views, ScoredResult, ScoredResultView};
use vstd::prelude::*;

verus! {

/// Where a result of the given score goes into a list that is ordered by falling
/// score: before the first result, at or after `from`, whose score is smaller.
pub open spec fn slot(ordered: Seq<ScoredResultView>, score: i64, from: int) -> int
    decreases ordered.len() - from,
{
    if from < 0 || from >= ordered.len() {
        ordered.len() as int
    } else if ordered[from].score < score {
        from
    } else {
        slot(ordered, score, from + 1)
    }
}

/// A list of results ordered by falling score; results of equal score keep the order
/// they came in.
pub open spec fn ranked(results: Seq<ScoredResultView>) -> Seq<ScoredResultView>
    decreases results.len(),
{
    if results.len() == 0 {
        Seq::empty()
    } else {
        let before = ranked(results.drop_last());
        before.insert(slot(before, results.last().score, 0), results.last())
    }
}

/// Whether the scores of a list never rise.
pub open spec fn falling(results: Seq<ScoredResultView>) -> bool {
    forall|i: int, j: int| 0 <= i < j < results.len() ==> results[i].score >= results[j].score
}

/// The first results of a list, at most `limit` of them.
pub open spec fn cut(results: Seq<ScoredResultView>, limit: nat) -> Seq<ScoredResultView> {
    if limit < results.len() {
        results.take(limit as int)
    } else {
        results
    }
}

/// The slot lies within the list; the scores before it are not smaller than the given
/// one, and the score at it is.
pub proof fn lemma_slot(ordered: Seq<ScoredResultView>, score: i64, from: int)
    requires
        0 <= from <= ordered.len(),
    ensures
        from <= slot(ordered, score, from) <= ordered.len(),
        forall|i: int| from <= i < slot(ordered, score, from) ==> ordered[i].score >= score,
        slot(ordered, score, from) < ordered.len() ==> ordered[slot(ordered, score, from)].score
            < score,
    decreases ordered.len() - from,
{
    if from < ordered.len() && ordered[from].score >= score {
        lemma_slot(ordered, score, from + 1);
    }
}

/// A ranked list holds the results it was made of, each as often, and its scores never
/// rise.
pub proof fn lemma_ranked(results: Seq<ScoredResultView>)
    ensures
        ranked(results).len() == results.len(),
        ranked(results).to_multiset() == results.to_multiset(),
        falling(ranked(results)),
    decreases results.len(),
{
    broadcast use vstd::seq_lib::to_multiset_insert, vstd::seq_lib::to_multiset_build;

    if results.len() > 0 {
        let rest = results.drop_last();
        let x = results.last();
        let before = ranked(rest);
        lemma_ranked(rest);
        lemma_slot(before, x.score, 0);
        let at = slot(before, x.score, 0);
        let after = before.insert(at, x);
        assert(results =~= rest.push(x));
        assert(after.to_multiset() == before.to_multiset().insert(x));
        assert(results.to_multiset() == rest.to_multiset().insert(x));
        assert(after.to_multiset() == results.to_multiset());
        assert forall|i: int, j: int| 0 <= i < j < after.len() implies after[i].score
            >= after[j].score by {
            if j < at {
                assert(after[i] == before[i] && after[j] == before[j]);
            } else if j == at {
                assert(after[i] == before[i]);
            } else if i < at {
                assert(after[i] == before[i] && after[j] == before[j - 1]);
                if at < j - 1 {
                    assert(before[at].score >= before[j - 1].score);
                }
            } else if i == at {
                assert(after[j] == before[j - 1]);
                if at < j - 1 {
                    assert(before[at].score >= before[j - 1].score);
                }
            } else {
                assert(after[i] == before[i - 1] && after[j] == before[j - 1]);
            }
        }
    } else {
        assert(results =~= Seq::<ScoredResultView>::empty());
    }
}

/// Puts a result into a list ordered by falling score, after the results of the same
/// score.
pub fn insert_by_score(ordered: &mut Vec<ScoredResult>, result: ScoredResult)
    ensures
        result_views(final(ordered)@) == result_views(old(ordered)@).insert(
            slot(result_views(old(ordered)@), result.score, 0),
            result@,
        ),
{
    let ghost views = result_views(ordered@);
    let mut at: usize = 0;
    while at < ordered.len() && ordered[at].score >= result.score
        invariant
            at <= ordered.len(),
            views == result_views(ordered@),
            slot(views, result.score, 0) == slot(views, result.score, at as int),
        decreases ordered.len() - at,
    {
        assert(views[at as int].score == ordered@[at as int].score);
        at += 1;
    }
    proof {
        if at < ordered.len() {
            assert(views[at as int].score == ordered@[at as int].score);
        }
    }
    ordered.insert(at, result);
    assert(result_views(ordered@) =~= views.insert(at as int, result@));
}

/// A copy of the results ordered by falling score; results of equal score keep the
/// order they came in.
pub fn rank(results: &Vec<ScoredResult>) -> (ordered: Vec<ScoredResult>)
    ensures
        result_views(ordered@) == ranked(result_views(results@)),
        ordered.len() == results.len(),
{
    let mut ordered: Vec<ScoredResult> = Vec::new();
    assert(result_views(ordered@) =~= Seq::<ScoredResultView>::empty());
    let mut i: usize = 0;
    while i < results.len()
        invariant
            i <= results.len(),
            result_views(ordered@) == ranked(result_views(results@).take(i as int)),
        decreases results.len() - i,
    {
        let ghost all = result_views(results@);
        assert(all.take(i + 1).drop_last() == all.take(i as int));
        assert(all.take(i + 1).last() == results@[i as int]@);
        insert_by_score(&mut ordered, results[i].clone());
        i += 1;
    }
    assert(result_views(results@).take(results.len() as int) == result_views(results@));
    proof {
        lemma_ranked(result_views(results@));
    }
    ordered
}

/// Drops the results after the first `limit`.
pub fn truncate_results(results: &mut Vec<ScoredResult>, limit: usize)
    ensures
        result_views(final(results)@) == cut(result_views(old(results)@), limit as nat),
{
    let ghost before = result_views(results@);
    if limit < results.len() {
        results.truncate(limit);
        assert(result_views(results@) =~= before.take(limit as int));
    }
}


/// What a query answers with is ordered and bounded: the results of a ranked list that
/// was cut to a limit never rise in score and are no more than the limit.
pub proof fn cut_ranking_is_ordered_and_bounded(results: Seq<ScoredResultView>, limit: nat)
    ensures
        falling(cut(ranked(results), limit)),
        cut(ranked(results), limit).len() <= limit,
        cut(ranked(results), limit).len() <= results.len(),
{
    lemma_ranked(results);
    let all = ranked(results);
    let kept = cut(all, limit);
    assert forall|i: int, j: int| 0 <= i < j < kept.len() implies kept[i].score
        >= kept[j].score by {
        assert(kept[i] == all[i] && kept[j] == all[j]);
    }
}

} // verus!
