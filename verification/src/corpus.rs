//! The searchable corpus: one entry per (emoji, shortcode) pair, each
//! carrying the glyph and the label `"<glyph> <shortcode>"` that queries are
//! matched against.
//!
//! The corpus is built once per process from the emoji dataset embedded in
//! the `emojis` crate and is read-only thereafter; the dataset is fixed, so
//! every build within a run yields the same sequence, which keeps ranking
//! tie-breaks deterministic.

use crate::extract::glyph_of;
use crate::extract::lemma_glyph_of_entry_label;
use vstd::prelude::*;
use vstd::string::StringExecFns;

verus! {

/// One searchable entry: an emoji glyph together with the label that the
/// ranker scores against queries.
pub struct CorpusEntry {
    pub glyph: String,
    pub label: String,
}

/// The label formed from a glyph and a shortcode: the glyph, one blank,
/// then the shortcode.
pub open spec fn entry_label(glyph: Seq<char>, code: Seq<char>) -> Seq<char> {
    glyph + seq![' '] + code
}

/// A well-formed entry: its label is its glyph, one blank, and some
/// shortcode.
pub open spec fn entry_well_formed(e: CorpusEntry) -> bool {
    exists|code: Seq<char>| e.label@ == entry_label(e.glyph@, code)
}

/// The (glyph, shortcode) pairs of the emoji dataset embedded in the
/// `emojis` crate, in dataset order. The dataset is compiled in and fixed,
/// so the pairs depend on nothing; the unused argument only gives the
/// symbol a parameter.
pub uninterp spec fn emoji_pairs(u: int) -> Seq<(Seq<char>, Seq<char>)>;

/// Relies on `emojis::iter` and `emojis::Emoji::shortcodes`: together they
/// enumerate every emoji of the embedded dataset and, for each one, every
/// shortcode that names it. Returns the (glyph, shortcode) pairs as plain
/// strings, in the dataset's order: `emoji_pairs(0)` exactly. The embedded
/// dataset is not empty (hundreds of glyphs carry shortcodes), and none of
/// its glyphs or shortcodes contains a blank.
#[verifier::external_body]
fn emoji_dataset() -> (pairs: Vec<(String, String)>)
    ensures
        pairs@.len() == emoji_pairs(0).len(),
        pairs@.len() > 0,
        forall|i: int|
            0 <= i < pairs@.len() ==> ((#[trigger] pairs@[i]).0@ == emoji_pairs(0)[i].0
                && pairs@[i].1@ == emoji_pairs(0)[i].1),
        forall|i: int|
            0 <= i < pairs@.len() ==> (!(#[trigger] pairs@[i]).0@.contains(' ')
                && !pairs@[i].1@.contains(' ')),
{
    let mut pairs: Vec<(String, String)> = Vec::new();
    for e in emojis::iter() {
        for code in e.shortcodes() {
            pairs.push((e.as_str().to_string(), code.to_string()));
        }
    }
    pairs
}

/// Build the entry for one glyph and one of its shortcodes.
pub fn make_entry(glyph: &str, code: &str) -> (e: CorpusEntry)
    ensures
        e.glyph@ == glyph@,
        e.label@ == entry_label(glyph@, code@),
{
    let mut label = String::from_str(glyph);
    label.append(" ");
    label.append(code);
    proof {
        reveal_strlit(" ");
        assert(label@ =~= entry_label(glyph@, code@));
    }
    CorpusEntry { glyph: String::from_str(glyph), label }
}

/// Build a corpus from explicit (glyph, shortcode) pairs: one entry per
/// pair, in the given order.
pub fn build_corpus_from(pairs: &Vec<(String, String)>) -> (corpus: Vec<CorpusEntry>)
    ensures
        corpus@.len() == pairs@.len(),
        forall|i: int|
            0 <= i < pairs@.len() ==> (#[trigger] corpus@[i]).glyph@ == pairs@[i].0@
                && corpus@[i].label@ == entry_label(pairs@[i].0@, pairs@[i].1@),
{
    let mut corpus: Vec<CorpusEntry> = Vec::new();
    let mut i: usize = 0;
    while i < pairs.len()
        invariant
            i <= pairs@.len(),
            corpus@.len() == i,
            forall|k: int|
                0 <= k < i ==> (#[trigger] corpus@[k]).glyph@ == pairs@[k].0@
                    && corpus@[k].label@ == entry_label(pairs@[k].0@, pairs@[k].1@),
        decreases pairs@.len() - i,
    {
        let pair = &pairs[i];
        let e = make_entry(pair.0.as_str(), pair.1.as_str());
        corpus.push(e);
        i = i + 1;
    }
    corpus
}

/// Build the full corpus from the embedded emoji dataset: one entry per
/// (glyph, shortcode) pair of the dataset, in its order, each labelled
/// with the glyph, one blank, and the shortcode. A glyph with several
/// shortcodes yields one entry per shortcode, and extracting the glyph
/// back out of any label yields the entry's own glyph, since no glyph of
/// the dataset contains a blank. Call it once per process and share the
/// result: the dataset is fixed for the process lifetime, so rebuilding
/// cannot change it.
pub fn build_corpus() -> (corpus: Vec<CorpusEntry>)
    ensures
        corpus@.len() == emoji_pairs(0).len(),
        corpus@.len() > 0,
        forall|i: int|
            0 <= i < corpus@.len() ==> ((#[trigger] corpus@[i]).glyph@ == emoji_pairs(0)[i].0
                && corpus@[i].label@ == entry_label(
                emoji_pairs(0)[i].0,
                emoji_pairs(0)[i].1,
            )),
        forall|i: int| 0 <= i < corpus@.len() ==> !(#[trigger] corpus@[i]).glyph@.contains(' '),
        forall|i: int|
            0 <= i < corpus@.len() ==> glyph_of((#[trigger] corpus@[i]).label@)
                == corpus@[i].glyph@,
        forall|i: int| 0 <= i < corpus@.len() ==> entry_well_formed(#[trigger] corpus@[i]),
{
    let pairs = emoji_dataset();
    let corpus = build_corpus_from(&pairs);
    proof {
        assert forall|i: int| 0 <= i < corpus@.len() implies entry_well_formed(
            #[trigger] corpus@[i],
        ) by {
            assert(corpus@[i].label@ == entry_label(corpus@[i].glyph@, pairs@[i].1@));
        }
        assert forall|i: int| 0 <= i < corpus@.len() implies glyph_of(
            (#[trigger] corpus@[i]).label@,
        ) == corpus@[i].glyph@ by {
            lemma_glyph_of_entry_label(pairs@[i].0@, pairs@[i].1@);
        }
    }
    corpus
}

} // verus!
