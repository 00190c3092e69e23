//! Gathering the analyses that were completed, and ranking them.

use crate::analyzer::RepoAnalysis;
use vstd::prelude::*;

verus! {

/// The results that are there, in the order of `outcomes`: every `Some`
/// gives its value, every `None` is passed over.
pub open spec fn completed<T>(outcomes: Seq<Option<T>>) -> Seq<T>
    decreases outcomes.len(),
{
    if outcomes.len() == 0 {
        Seq::empty()
    } else {
        match outcomes.last() {
            Some(result) => completed(outcomes.drop_last()).push(result),
            None => completed(outcomes.drop_last()),
        }
    }
}

/// How many of the outcomes are `None`.
pub open spec fn failure_count<T>(outcomes: Seq<Option<T>>) -> nat
    decreases outcomes.len(),
{
    if outcomes.len() == 0 {
        0
    } else {
        failure_count(outcomes.drop_last()) + if outcomes.last() is None {
            1nat
        } else {
            0nat
        }
    }
}

/// Gathers the results that are there, in order, and passes over the
/// candidates that gave none: of `n` candidates of which `k` gave none,
/// `n - k` results are gathered.
pub fn gather_completed<T>(outcomes: Vec<Option<T>>) -> (results: Vec<T>)
    ensures
        results@ == completed(outcomes@),
        results@.len() == outcomes@.len() - failure_count(outcomes@),
{
    let mut results: Vec<T> = Vec::new();
    let ghost all = outcomes@;
    for outcome in it: outcomes
        invariant
            it.seq() == all,
            results@ == completed(all.take(it.index() as int)),
    {
        proof {
            let upto = all.take(it.index() + 1);
            assert(upto.drop_last() =~= all.take(it.index() as int));
            assert(upto.last() == outcome);
        }
        match outcome {
            Some(result) => {
                results.push(result);
            },
            None => {},
        }
    }
    proof {
        assert(all.take(all.len() as int) =~= all);
        lemma_completed_len(all);
    }
    results
}

/// Of `candidates` outcomes of which `failures` are `None`, exactly
/// `candidates - failures` results are gathered.
pub proof fn lemma_completed_len<T>(outcomes: Seq<Option<T>>)
    ensures
        completed(outcomes).len() == outcomes.len() - failure_count(outcomes),
    decreases outcomes.len(),
{
    if outcomes.len() > 0 {
        lemma_completed_len(outcomes.drop_last());
    }
}

/// The results of two runs of outcomes, one after the other, are the results
/// of the first followed by the results of the second.
pub proof fn lemma_completed_add<T>(front: Seq<Option<T>>, back: Seq<Option<T>>)
    ensures
        completed(front + back) == completed(front) + completed(back),
    decreases back.len(),
{
    if back.len() == 0 {
        assert(front + back =~= front);
        assert(completed(front) + completed(back) =~= completed(front));
    } else {
        lemma_completed_add(front, back.drop_last());
        assert((front + back).drop_last() =~= front + back.drop_last());
        assert((front + back).last() == back.last());
        match back.last() {
            Some(result) => {
                assert(completed(front + back) =~= completed(front) + completed(back));
            },
            None => {},
        }
    }
}

/// Every result stands among the gathered results as it came, in the order
/// of the candidates: what is gathered is the results before a candidate,
/// then its own, then the results after it.
pub proof fn lemma_completed_keeps_result<T>(outcomes: Seq<Option<T>>, place: int)
    requires
        0 <= place < outcomes.len(),
        outcomes[place] is Some,
    ensures
        completed(outcomes) == completed(outcomes.take(place)).push(outcomes[place]->0)
            + completed(outcomes.skip(place + 1)),
{
    let front = outcomes.take(place + 1);
    let back = outcomes.skip(place + 1);
    assert(outcomes =~= front + back);
    lemma_completed_add(front, back);
    assert(front.drop_last() =~= outcomes.take(place));
    assert(front.last() == outcomes[place]);
}

/// A candidate that fails is left out and changes nothing else: whatever
/// stands at `place`, with a failure there the results are those of the
/// other candidates, as if the candidate had never been listed.
pub proof fn lemma_failure_leaves_others<T>(outcomes: Seq<Option<T>>, place: int)
    requires
        0 <= place < outcomes.len(),
    ensures
        completed(outcomes.update(place, None)) == completed(outcomes.remove(place)),
        completed(outcomes.update(place, None)) == completed(outcomes.take(place)) + completed(
            outcomes.skip(place + 1),
        ),
{
    let failed = outcomes.update(place, None);
    let front = failed.take(place + 1);
    let back = outcomes.skip(place + 1);
    assert(failed =~= front + back);
    lemma_completed_add(front, back);
    assert(front.drop_last() =~= outcomes.take(place));
    assert(front.last() == None::<T>);
    assert(outcomes.remove(place) =~= outcomes.take(place) + back);
    lemma_completed_add(outcomes.take(place), back);
}

/// The total score of an analysis in ten-thousandths: what the ranking goes
/// by.
pub open spec fn rank_key(analysis: RepoAnalysis) -> int {
    analysis.total_score.units()
}

/// Whether the totals never rise from one place to the next.
pub open spec fn is_ranked(analyses: Seq<RepoAnalysis>) -> bool {
    forall|i: int, j: int|
        0 <= i < j < analyses.len() ==> rank_key(#[trigger] analyses[i]) >= rank_key(
            #[trigger] analyses[j],
        )
}

/// The place at which an analysis with the total `key` joins `ranked`: behind
/// the analyses at the front whose total is at least `key`.
pub open spec fn rank_position(ranked: Seq<RepoAnalysis>, key: int) -> int
    decreases ranked.len(),
{
    if ranked.len() == 0 {
        0
    } else if rank_key(ranked.first()) >= key {
        1 + rank_position(ranked.drop_first(), key)
    } else {
        0
    }
}

/// `analyses` ordered by total score, highest first. Analyses of the same
/// total keep the order they came in: each joins the ranking of those before
/// it behind all that score at least as much.
pub open spec fn ranked(analyses: Seq<RepoAnalysis>) -> Seq<RepoAnalysis>
    decreases analyses.len(),
{
    if analyses.len() == 0 {
        Seq::empty()
    } else {
        let before = ranked(analyses.drop_last());
        before.insert(rank_position(before, rank_key(analyses.last())), analyses.last())
    }
}

/// Where [`rank_position`] points: everything before scores at least `key`,
/// and what stands there, if anything, scores less.
pub proof fn lemma_rank_position(ranked: Seq<RepoAnalysis>, key: int)
    ensures
        0 <= rank_position(ranked, key) <= ranked.len(),
        forall|i: int|
            0 <= i < rank_position(ranked, key) ==> rank_key(#[trigger] ranked[i]) >= key,
        rank_position(ranked, key) < ranked.len() ==> rank_key(
            ranked[rank_position(ranked, key)],
        ) < key,
    decreases ranked.len(),
{
    if ranked.len() > 0 && rank_key(ranked.first()) >= key {
        let rest = ranked.drop_first();
        lemma_rank_position(rest, key);
        let p = rank_position(rest, key);
        assert forall|i: int| 0 <= i < p + 1 implies rank_key(#[trigger] ranked[i]) >= key by {
            if i > 0 {
                assert(ranked[i] == rest[i - 1]);
            }
        }
        if p < rest.len() {
            assert(ranked[p + 1] == rest[p]);
        }
    }
}

/// Finds the place at which an analysis with the total `key` joins `ranked`.
fn find_rank_position(ranked: &Vec<RepoAnalysis>, key: i64) -> (at: usize)
    ensures
        at == rank_position(ranked@, key as int),
        at <= ranked@.len(),
{
    let mut at: usize = 0;
    assert(ranked@.skip(0) =~= ranked@);
    while at < ranked.len() && ranked[at].total_score.ten_thousandths() >= key
        invariant
            at <= ranked@.len(),
            rank_position(ranked@, key as int) == at + rank_position(
                ranked@.skip(at as int),
                key as int,
            ),
        decreases ranked@.len() - at,
    {
        proof {
            let tail = ranked@.skip(at as int);
            assert(tail.first() == ranked@[at as int]);
            assert(tail.drop_first() =~= ranked@.skip(at + 1));
        }
        at = at + 1;
    }
    proof {
        let tail = ranked@.skip(at as int);
        if at < ranked@.len() {
            assert(tail.first() == ranked@[at as int]);
        }
        lemma_rank_position(ranked@, key as int);
    }
    at
}

/// Orders the analyses by total score, highest first; analyses of the same
/// total keep the order they came in.
pub fn rank_by_total_score(analyses: Vec<RepoAnalysis>) -> (ranking: Vec<RepoAnalysis>)
    ensures
        ranking@ == ranked(analyses@),
        ranking@.len() == analyses@.len(),
        ranking@.to_multiset() == analyses@.to_multiset(),
        is_ranked(ranking@),
{
    let mut ranking: Vec<RepoAnalysis> = Vec::new();
    let ghost all = analyses@;
    for analysis in it: analyses
        invariant
            it.seq() == all,
            ranking@ == ranked(all.take(it.index() as int)),
    {
        proof {
            let upto = all.take(it.index() + 1);
            assert(upto.drop_last() =~= all.take(it.index() as int));
            assert(upto.last() == analysis);
        }
        let at = find_rank_position(&ranking, analysis.total_score.ten_thousandths());
        ranking.insert(at, analysis);
    }
    proof {
        assert(all.take(all.len() as int) =~= all);
        lemma_ranked_is_ranked(all);
        lemma_ranked_permutation(all);
    }
    ranking
}

/// A ranking holds as many analyses as went in, and its totals never rise.
pub proof fn lemma_ranked_is_ranked(analyses: Seq<RepoAnalysis>)
    ensures
        ranked(analyses).len() == analyses.len(),
        is_ranked(ranked(analyses)),
    decreases analyses.len(),
{
    if analyses.len() > 0 {
        let before = ranked(analyses.drop_last());
        let last = analyses.last();
        let key = rank_key(last);
        let at = rank_position(before, key);
        lemma_ranked_is_ranked(analyses.drop_last());
        lemma_rank_position(before, key);
        let after = before.insert(at, last);
        assert forall|i: int, j: int| 0 <= i < j < after.len() implies rank_key(
            #[trigger] after[i],
        ) >= rank_key(#[trigger] after[j]) by {
            if j < at {
                assert(after[i] == before[i] && after[j] == before[j]);
            } else if j == at {
                assert(after[i] == before[i]);
            } else if i < at {
                assert(after[i] == before[i] && after[j] == before[j - 1]);
                assert(rank_key(before[i]) >= key);
                if at < j - 1 {
                    assert(rank_key(before[at]) >= rank_key(before[j - 1]));
                }
            } else if i == at {
                assert(after[j] == before[j - 1]);
                if at < j - 1 {
                    assert(rank_key(before[at]) >= rank_key(before[j - 1]));
                }
            } else {
                assert(after[i] == before[i - 1] && after[j] == before[j - 1]);
            }
        }
    }
}

/// A ranking holds the analyses that went in, each as often as it went in.
pub proof fn lemma_ranked_permutation(analyses: Seq<RepoAnalysis>)
    ensures
        ranked(analyses).to_multiset() == analyses.to_multiset(),
    decreases analyses.len(),
{
    if analyses.len() == 0 {
        assert(ranked(analyses) =~= analyses);
    } else {
        let before = ranked(analyses.drop_last());
        let last = analyses.last();
        let at = rank_position(before, rank_key(last));
        lemma_ranked_permutation(analyses.drop_last());
        lemma_rank_position(before, rank_key(last));
        vstd::seq_lib::to_multiset_insert(before, at, last);
        vstd::seq_lib::to_multiset_build(analyses.drop_last(), last);
        assert(analyses.drop_last().push(last) =~= analyses);
    }
}

/// Analyses of the same total keep the order they came in: those of any one
/// total stand in the ranking as they stood before it.
pub proof fn lemma_ranked_stable(analyses: Seq<RepoAnalysis>, key: int)
    ensures
        ranked(analyses).filter(|a: RepoAnalysis| rank_key(a) == key) == analyses.filter(
            |a: RepoAnalysis| rank_key(a) == key,
        ),
    decreases analyses.len(),
{
    let same = |a: RepoAnalysis| rank_key(a) == key;
    if analyses.len() == 0 {
        assert(ranked(analyses) =~= analyses);
    } else {
        let earlier = analyses.drop_last();
        let before = ranked(earlier);
        let last = analyses.last();
        let at = rank_position(before, rank_key(last));
        lemma_ranked_stable(earlier, key);
        lemma_ranked_is_ranked(earlier);
        lemma_rank_position(before, rank_key(last));
        let front = before.take(at);
        let back = before.skip(at);
        let after = before.insert(at, last);
        assert(before =~= front + back);
        assert(after =~= front.push(last) + back);
        Seq::filter_distributes_over_add(front, back, same);
        Seq::filter_distributes_over_add(front.push(last), back, same);
        front.lemma_filter_push(last, same);
        earlier.lemma_filter_push(last, same);
        assert(earlier.push(last) =~= analyses);
        if rank_key(last) == key {
            assert(back.all(|a: RepoAnalysis| !same(a))) by {
                assert forall|i: int| 0 <= i < back.len() implies !same(#[trigger] back[i]) by {
                    assert(back[i] == before[at + i]);
                    if i > 0 {
                        assert(rank_key(before[at]) >= rank_key(before[at + i]));
                    }
                }
            }
            back.lemma_all_neg_filter_empty(same);
            assert(back.filter(same) =~= Seq::<RepoAnalysis>::empty());
            assert(front.filter(same) + back.filter(same) =~= front.filter(same));
            assert(front.filter(same).push(last) + back.filter(same) =~= front.filter(same).push(
                last,
            ));
        }
    }
}

} // verus!
