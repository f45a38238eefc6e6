//! An emoji picker core: a searchable corpus of emoji labels, a fuzzy
//! ranker that scores the corpus against a typed query, an extractor that
//! recovers the glyph of the top result, and a single-slot handoff that
//! carries the confirmed selection to the post-UI injection phase.
//!
//! On every query-change event the UI surface calls [`process_query`],
//! renders the returned labels, and leaves the handoff armed with the
//! glyph of the current top result. After the UI has torn down, the
//! injection phase takes the pending selection from the handoff exactly
//! once and types it into whatever window then holds OS focus.

pub mod corpus;
pub mod extract;
pub mod handoff;
pub mod injection;
pub mod ranker;

use crate::corpus::CorpusEntry;
use crate::extract::extract;
use crate::extract::glyph_of;
use crate::handoff::Handoff;
use crate::ranker::labels_of;
use crate::ranker::rank;
use crate::ranker::spec_rank;
use crate::ranker::RankedResult;
use vstd::prelude::*;

verus! {

/// How many results a ranking pass returns at most: enough to render and
/// scan, few enough to stay cheap on every keystroke.
pub const RESULT_LIMIT: usize = 10;

/// The labels of a result list, in order, as owned strings for display.
fn result_labels(results: &Vec<RankedResult>) -> (labels: Vec<String>)
    ensures
        labels@.len() == results@.len(),
        forall|k: int| 0 <= k < results@.len() ==> (#[trigger] labels@[k])@ == results@[k].label@,
{
    let mut labels: Vec<String> = Vec::new();
    let mut k: usize = 0;
    while k < results.len()
        invariant
            k <= results@.len(),
            labels@.len() == k,
            forall|t: int| 0 <= t < k ==> (#[trigger] labels@[t])@ == results@[t].label@,
        decreases results@.len() - k,
    {
        let entry = &results[k];
        labels.push(entry.label.clone());
        k = k + 1;
    }
    labels
}

/// Rank `query` against the corpus and return the labels of the best
/// matches, best first, at most [`RESULT_LIMIT`] of them.
pub fn emoji_search(query: &str, corpus: &Vec<CorpusEntry>) -> (labels: Vec<String>)
    ensures
        labels@.len() == spec_rank(query@, labels_of(corpus@), RESULT_LIMIT as int).len(),
        forall|k: int|
            0 <= k < labels@.len() ==> (#[trigger] labels@[k])@ == spec_rank(
                query@,
                labels_of(corpus@),
                RESULT_LIMIT as int,
            )[k].0,
{
    let results = rank(query, corpus, RESULT_LIMIT);
    result_labels(&results)
}

/// One ranking pass, as the UI surface drives it on every query-change
/// event: rank the query, arm the handoff with the glyph of the top result
/// (or clear it when there are no results, in particular on an empty
/// query), and return the ranked labels for display.
pub fn process_query(query: &str, corpus: &Vec<CorpusEntry>, handoff: &mut Handoff) -> (display:
    Vec<String>)
    ensures
        display@.len() == spec_rank(query@, labels_of(corpus@), RESULT_LIMIT as int).len(),
        forall|k: int|
            0 <= k < display@.len() ==> (#[trigger] display@[k])@ == spec_rank(
                query@,
                labels_of(corpus@),
                RESULT_LIMIT as int,
            )[k].0,
        display@.len() == 0 ==> final(handoff).pending() is None,
        display@.len() > 0 ==> final(handoff).pending() == Some(
            glyph_of(spec_rank(query@, labels_of(corpus@), RESULT_LIMIT as int)[0].0),
        ),
        query@.len() == 0 ==> display@.len() == 0 && final(handoff).pending() is None,
{
    let results = rank(query, corpus, RESULT_LIMIT);
    let selection = extract(&results);
    handoff.set(selection);
    result_labels(&results)
}

} // verus!
