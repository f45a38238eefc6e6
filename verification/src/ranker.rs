//! The fuzzy ranker: scores every corpus label against the typed query and
//! returns the best matches, best first.
//!
//! The similarity metric is trigram overlap. A string is padded with two
//! leading blanks and one trailing blank, and its trigrams are the triples
//! of adjacent characters of the padded form, so a string of `n` characters
//! has `n + 1` trigrams. The score of a query against a label is the number
//! of query trigrams that occur among the label's trigrams (each query
//! trigram counted once), divided by the number of query trigrams. Scores
//! are exact rationals with denominator `len(query) + 1`, kept as integers
//! scaled to [`SCORE_SCALE`]: `0` means no trigram in common, `SCORE_SCALE`
//! means every query trigram was found.

use crate::corpus::CorpusEntry;
use vstd::arithmetic::div_mod::lemma_div_is_ordered;
use vstd::arithmetic::div_mod::lemma_div_multiples_vanish;
use vstd::prelude::*;
use vstd::string::StrSliceExecFns;

verus! {

/// Scores lie in `0 ..= SCORE_SCALE`: a score is the share of query
/// trigrams found in the label, scaled by this constant.
pub const SCORE_SCALE: u64 = 1000;

/// A string padded for trigram extraction: two leading blanks and one
/// trailing blank.
pub open spec fn padded(s: Seq<char>) -> Seq<char> {
    seq![' ', ' '] + s + seq![' ']
}

/// The trigram of `s` at position `j`: the triple of adjacent characters of
/// the padded form starting at `j`. Positions `0 ..= s.len()` are valid.
pub open spec fn trigram_at(s: Seq<char>, j: int) -> (char, char, char) {
    (padded(s)[j], padded(s)[j + 1], padded(s)[j + 2])
}

/// Whether the trigram `t` occurs among the trigrams of `s`.
pub open spec fn has_trigram(s: Seq<char>, t: (char, char, char)) -> bool {
    exists|j: int| 0 <= j < s.len() + 1 && trigram_at(s, j) == t
}

/// How many of the first `n` trigrams of `q` occur among the trigrams of
/// `label`.
pub open spec fn match_count_upto(q: Seq<char>, label: Seq<char>, n: int) -> nat
    decreases n,
{
    if n <= 0 {
        0
    } else {
        match_count_upto(q, label, n - 1) + if has_trigram(label, trigram_at(q, n - 1)) {
            1nat
        } else {
            0nat
        }
    }
}

/// The similarity of query `q` to `label`: the share of `q`'s trigrams
/// found among `label`'s trigrams, scaled to `SCORE_SCALE`.
pub open spec fn similarity(q: Seq<char>, label: Seq<char>) -> u64 {
    ((SCORE_SCALE * match_count_upto(q, label, q.len() + 1 as int)) / (q.len() + 1 as int)) as u64
}

/// At most `n` of the first `n` trigrams can match.
proof fn lemma_match_count_bound(q: Seq<char>, label: Seq<char>, n: int)
    requires
        n >= 0,
    ensures
        match_count_upto(q, label, n) <= n,
    decreases n,
{
    if n > 0 {
        lemma_match_count_bound(q, label, n - 1);
    }
}

/// Every similarity score lies in the valid range `0 ..= SCORE_SCALE`.
pub proof fn lemma_similarity_range(q: Seq<char>, label: Seq<char>)
    ensures
        (SCORE_SCALE * match_count_upto(q, label, q.len() + 1 as int)) / (q.len() + 1 as int)
            <= SCORE_SCALE,
        similarity(q, label) <= SCORE_SCALE,
{
    let den = q.len() + 1 as int;
    let mc = match_count_upto(q, label, q.len() + 1 as int) as int;
    lemma_match_count_bound(q, label, q.len() + 1 as int);
    lemma_div_is_ordered(1000 * mc, 1000 * den, den);
    lemma_div_multiples_vanish(1000, den);
    assert(den * 1000 == 1000 * den);
}

/// The characters of `s`, in order, as a vector.
fn chars_of(s: &str) -> (v: Vec<char>)
    ensures
        v@ == s@,
{
    let n: usize = s.unicode_len();
    let mut v: Vec<char> = Vec::new();
    let mut i: usize = 0;
    while i < n
        invariant
            i <= n,
            n == s@.len(),
            v@ == s@.subrange(0, i as int),
        decreases n - i,
    {
        let c = s.get_char(i);
        v.push(c);
        i = i + 1;
        proof {
            assert(v@ =~= s@.subrange(0, i as int));
        }
    }
    proof {
        assert(v@ =~= s@);
    }
    v
}

/// The padded form of `v`: two leading blanks, the characters, one
/// trailing blank.
fn pad(v: &Vec<char>) -> (p: Vec<char>)
    ensures
        p@ == padded(v@),
{
    let mut p: Vec<char> = Vec::new();
    p.push(' ');
    p.push(' ');
    let mut i: usize = 0;
    while i < v.len()
        invariant
            i <= v@.len(),
            p@ == seq![' ', ' '] + v@.subrange(0, i as int),
        decreases v@.len() - i,
    {
        let c = v[i];
        p.push(c);
        i = i + 1;
        proof {
            assert(p@ =~= seq![' ', ' '] + v@.subrange(0, i as int));
        }
    }
    p.push(' ');
    proof {
        assert(v@.subrange(0, v@.len() as int) =~= v@);
        assert(p@ =~= padded(v@));
    }
    p
}

/// Whether the trigram `(a, b, c)` occurs among the trigrams of the string
/// whose padded form is `lp`.
fn contains_trigram(lp: &Vec<char>, lab: Ghost<Seq<char>>, a: char, b: char, c: char) -> (r: bool)
    requires
        lp@ == padded(lab@),
    ensures
        r == has_trigram(lab@, (a, b, c)),
{
    let n = lp.len();
    let mut j: usize = 0;
    while j + 2 < n
        invariant
            lp@ == padded(lab@),
            n == lp@.len(),
            j <= n - 2,
            forall|k: int| 0 <= k < j ==> trigram_at(lab@, k) != (a, b, c),
        decreases n - j,
    {
        if lp[j] == a && lp[j + 1] == b && lp[j + 2] == c {
            proof {
                assert(trigram_at(lab@, j as int) == (a, b, c));
            }
            return true;
        }
        j = j + 1;
    }
    false
}

/// The similarity score of query `q` against `label`, as an exec value.
fn similarity_score(q: &Vec<char>, label: &Vec<char>) -> (s: u64)
    ensures
        s == similarity(q@, label@),
        s <= SCORE_SCALE,
{
    let qp = pad(q);
    let lp = pad(label);
    let tn = qp.len() - 2;
    let mut count: usize = 0;
    let mut i: usize = 0;
    while i < tn
        invariant
            qp@ == padded(q@),
            lp@ == padded(label@),
            tn == q@.len() + 1,
            i <= tn,
            count == match_count_upto(q@, label@, i as int),
            count <= i,
        decreases tn - i,
    {
        let a = qp[i];
        let b = qp[i + 1];
        let c = qp[i + 2];
        if contains_trigram(&lp, Ghost(label@), a, b, c) {
            count = count + 1;
        }
        i = i + 1;
        proof {
            assert((a, b, c) == trigram_at(q@, i - 1));
        }
    }
    let num: u128 = 1000u128 * (count as u128);
    let sc: u128 = num / (tn as u128);
    proof {
        lemma_similarity_range(q@, label@);
        assert(sc == similarity(q@, label@));
    }
    sc as u64
}

/// One ranked result: a matched corpus label and its similarity score.
pub struct RankedResult {
    pub label: String,
    pub score: u64,
}

/// The view of a result sequence: each result as (label characters, score).
pub open spec fn result_views(rs: Seq<RankedResult>) -> Seq<(Seq<char>, u64)> {
    rs.map_values(|r: RankedResult| (r.label@, r.score))
}

/// The labels of a corpus, as character sequences.
pub open spec fn labels_of(corpus: Seq<CorpusEntry>) -> Seq<Seq<char>> {
    corpus.map_values(|e: CorpusEntry| e.label@)
}

/// The score of query `q` against each label in turn.
pub open spec fn similarity_scores(q: Seq<char>, labels: Seq<Seq<char>>) -> Seq<u64> {
    labels.map_values(|l: Seq<char>| similarity(q, l))
}

/// Scores never increase along the sequence.
pub open spec fn sorted_desc(s: Seq<(u64, usize)>) -> bool {
    forall|a: int, b: int| 0 <= a < b < s.len() ==> s[a].0 >= s[b].0
}

/// Where an entry with score `sc` goes in the descending list `s`: after
/// every entry whose score is at least `sc`, so an equal score keeps the
/// earlier entry (the lower corpus index) first.
pub open spec fn insertion_point(s: Seq<(u64, usize)>, sc: u64) -> int
    decreases s.len(),
{
    if s.len() == 0 {
        0
    } else if s[0].0 < sc {
        0
    } else {
        1 + insertion_point(s.drop_first(), sc)
    }
}

/// `s` with `x` inserted at its insertion point.
pub open spec fn insert_ranked(s: Seq<(u64, usize)>, x: (u64, usize)) -> Seq<(u64, usize)> {
    s.insert(insertion_point(s, x.0), x)
}

/// The insertion point is characterised by what stands before and at it.
proof fn lemma_insertion_point_at(s: Seq<(u64, usize)>, sc: u64, j: int)
    requires
        0 <= j <= s.len(),
        forall|k: int| 0 <= k < j ==> (#[trigger] s[k]).0 >= sc,
        j < s.len() ==> s[j].0 < sc,
    ensures
        insertion_point(s, sc) == j,
    decreases j,
{
    if s.len() == 0 {
    } else if s[0].0 < sc {
        if j > 0 {
            assert(s[0].0 >= sc);
        }
    } else {
        assert(j >= 1);
        let d = s.drop_first();
        assert forall|k: int| 0 <= k < j - 1 implies (#[trigger] d[k]).0 >= sc by {
            assert(d[k] == s[k + 1]);
        }
        assert(j - 1 < d.len() ==> d[j - 1].0 < sc);
        lemma_insertion_point_at(d, sc, j - 1);
    }
}

/// The best `limit` of the first `n` corpus entries, by descending score:
/// each entry `(score, index)` is inserted in turn behind the entries that
/// score at least as well, and the list is cut back to `limit`.
pub open spec fn top_ranked(scores: Seq<u64>, n: int, limit: int) -> Seq<(u64, usize)>
    decreases n,
{
    if n <= 0 {
        Seq::empty()
    } else {
        let grown = insert_ranked(
            top_ranked(scores, n - 1, limit),
            (scores[n - 1], (n - 1) as usize),
        );
        if grown.len() > limit {
            grown.take(limit)
        } else {
            grown
        }
    }
}

/// What ranking returns, stated as a function of the query characters, the
/// corpus labels and the limit alone. An empty query yields no results (no
/// useful ranking exists for it); otherwise the result holds the best
/// `limit` labels with their scores, best first, ties kept in corpus order.
pub open spec fn spec_rank(q: Seq<char>, labels: Seq<Seq<char>>, limit: int) -> Seq<
    (Seq<char>, u64),
> {
    if q.len() == 0 {
        Seq::empty()
    } else {
        top_ranked(similarity_scores(q, labels), labels.len() as int, limit).map_values(
            (|p: (u64, usize)| (labels[p.1 as int], p.0)),
        )
    }
}

/// A result that scores some corpus label against the query `q`.
pub open spec fn result_from_corpus(r: RankedResult, q: Seq<char>, corpus: Seq<CorpusEntry>) -> bool {
    exists|i: int|
        0 <= i < corpus.len() && r.label@ == (#[trigger] corpus[i]).label@ && r.score
            == similarity(q, corpus[i].label@)
}

/// Ranking is deterministic: the ordered output is a function of the query,
/// the corpus labels and the limit alone, so two rankings of the same query
/// against the same corpus are identical.
pub proof fn lemma_rank_deterministic(
    q: Seq<char>,
    labels: Seq<Seq<char>>,
    limit: int,
    r1: Seq<(Seq<char>, u64)>,
    r2: Seq<(Seq<char>, u64)>,
)
    requires
        r1 == spec_rank(q, labels, limit),
        r2 == spec_rank(q, labels, limit),
    ensures
        r1 == r2,
{
}

/// Rank the corpus against `query`: score every entry, and return the
/// `limit` best as (label, score) pairs, best first. Ties keep corpus
/// order, and an empty query returns no results.
pub fn rank(query: &str, corpus: &Vec<CorpusEntry>, limit: usize) -> (results: Vec<RankedResult>)
    ensures
        result_views(results@) == spec_rank(query@, labels_of(corpus@), limit as int),
        results@.len() <= limit,
        query@.len() == 0 ==> results@.len() == 0,
        query@.len() > 0 ==> results@.len() == (if corpus@.len() <= limit {
            corpus@.len() as int
        } else {
            limit as int
        }),
        forall|a: int, b: int|
            0 <= a < b < results@.len() ==> (#[trigger] results@[a]).score
                >= (#[trigger] results@[b]).score,
        forall|k: int| 0 <= k < results@.len() ==> (#[trigger] results@[k]).score <= SCORE_SCALE,
        forall|k: int|
            0 <= k < results@.len() ==> result_from_corpus(
                #[trigger] results@[k],
                query@,
                corpus@,
            ),
{
    let qchars = chars_of(query);
    if qchars.len() == 0 {
        let results: Vec<RankedResult> = Vec::new();
        proof {
            assert(result_views(results@) =~= spec_rank(query@, labels_of(corpus@), limit as int));
        }
        return results;
    }
    let ghost lbls = labels_of(corpus@);
    let ghost scores = similarity_scores(query@, lbls);
    let mut top: Vec<(u64, usize)> = Vec::new();
    let mut i: usize = 0;
    while i < corpus.len()
        invariant
            i <= corpus@.len(),
            qchars@ == query@,
            query@.len() > 0,
            lbls == labels_of(corpus@),
            scores == similarity_scores(query@, lbls),
            scores.len() == corpus@.len(),
            top@ == top_ranked(scores, i as int, limit as int),
            sorted_desc(top@),
            top@.len() == (if i <= limit {
                i as int
            } else {
                limit as int
            }),
            forall|k: int|
                0 <= k < top@.len() ==> ((#[trigger] top@[k]).1 < i
                    && top@[k].0 == scores[top@[k].1 as int]
                    && top@[k].0 <= SCORE_SCALE),
        decreases corpus@.len() - i,
    {
        let entry = &corpus[i];
        let lchars = chars_of(entry.label.as_str());
        let sc = similarity_score(&qchars, &lchars);
        let mut j: usize = 0;
        while j < top.len() && top[j].0 >= sc
            invariant
                j <= top@.len(),
                forall|k: int| 0 <= k < j ==> (#[trigger] top@[k]).0 >= sc,
            decreases top@.len() - j,
        {
            j = j + 1;
        }
        let ghost prev = top@;
        proof {
            lemma_insertion_point_at(prev, sc, j as int);
            assert(sc == scores[i as int]);
        }
        top.insert(j, (sc, i));
        let ghost grown = top@;
        proof {
            assert(grown == insert_ranked(prev, (sc, i)));
            assert(forall|k: int| 0 <= k < j ==> grown[k] == prev[k]);
            assert(grown[j as int] == (sc, i));
            assert(forall|k: int| j < k < grown.len() ==> grown[k] == prev[k - 1]);
        }
        if top.len() > limit {
            top.pop();
            proof {
                assert(top@ =~= grown.take(limit as int));
            }
        }
        i = i + 1;
        proof {
            assert(top@ == top_ranked(scores, i as int, limit as int));
            assert forall|a: int, b: int| 0 <= a < b < grown.len() implies grown[a].0
                >= grown[b].0 by {
                if b < j {
                } else if a == j as int {
                    assert(prev[b - 1].0 <= prev[j as int].0);
                } else if a < j && b == j {
                } else if a > j {
                    assert(grown[a] == prev[a - 1]);
                }
            }
            assert(sorted_desc(top@));
        }
    }
    let ghost chosen = top@;
    let mut results: Vec<RankedResult> = Vec::new();
    let mut k: usize = 0;
    while k < top.len()
        invariant
            top@ == chosen,
            k <= top@.len(),
            results@.len() == k,
            lbls == labels_of(corpus@),
            scores == similarity_scores(query@, lbls),
            scores.len() == corpus@.len(),
            forall|t: int|
                0 <= t < top@.len() ==> ((#[trigger] top@[t]).1 < corpus@.len() && top@[t].0
                    == scores[top@[t].1 as int] && top@[t].0 <= SCORE_SCALE),
            forall|t: int|
                0 <= t < k ==> ((#[trigger] results@[t]).label@ == corpus@[top@[t].1 as int].label@
                    && results@[t].score == top@[t].0),
        decreases top@.len() - k,
    {
        let p = top[k];
        let entry = &corpus[p.1];
        results.push(RankedResult { label: entry.label.clone(), score: p.0 });
        k = k + 1;
    }
    proof {
        let sr = spec_rank(query@, lbls, limit as int);
        assert forall|t: int| 0 <= t < results@.len() implies result_views(results@)[t] == sr[t] by {
            assert(lbls[chosen[t].1 as int] == corpus@[chosen[t].1 as int].label@);
        }
        assert(result_views(results@) =~= sr);
        assert forall|t: int| 0 <= t < results@.len() implies result_from_corpus(
            #[trigger] results@[t],
            query@,
            corpus@,
        ) by {
            let idx = chosen[t].1 as int;
            assert(lbls[idx] == corpus@[idx].label@);
            assert(results@[t].label@ == corpus@[idx].label@ && results@[t].score == similarity(
                query@,
                corpus@[idx].label@,
            ));
        }
    }
    results
}

} // verus!
