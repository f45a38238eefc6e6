use quemoji::corpus::build_corpus;
use quemoji::corpus::build_corpus_from;
use quemoji::corpus::make_entry;
use quemoji::corpus::CorpusEntry;
use quemoji::extract::extract;
use quemoji::handoff::Handoff;
use quemoji::emoji_search;
use quemoji::injection::InjectionFailure;
use quemoji::process_query;
use quemoji::ranker::rank;
use quemoji::ranker::RankedResult;
use quemoji::ranker::SCORE_SCALE;

fn sample_corpus() -> Vec<CorpusEntry> {
    let pairs = vec![
        ("😀".to_string(), "grinning".to_string()),
        ("😅".to_string(), "sweat_smile".to_string()),
        ("🎉".to_string(), "tada".to_string()),
    ];
    build_corpus_from(&pairs)
}

fn labels_and_scores(results: &[RankedResult]) -> Vec<(String, u64)> {
    results.iter().map(|r| (r.label.clone(), r.score)).collect()
}

#[test]
fn rank_respects_limit_range_and_order() {
    let corpus = build_corpus();
    let results = rank("smile", &corpus, 10);
    assert!(results.len() <= 10);
    for w in results.windows(2) {
        assert!(w[0].score >= w[1].score);
    }
    for r in &results {
        assert!(r.score <= SCORE_SCALE);
    }
}

#[test]
fn rank_truncates_to_limit() {
    let corpus = sample_corpus();
    assert_eq!(rank("grin", &corpus, 2).len(), 2);
    assert_eq!(rank("grin", &corpus, 0).len(), 0);
}

#[test]
fn rank_is_deterministic() {
    let corpus = build_corpus();
    let first = rank("party", &corpus, 10);
    let second = rank("party", &corpus, 10);
    assert_eq!(labels_and_scores(&first), labels_and_scores(&second));
}

#[test]
fn rank_exact_scores_and_tie_break() {
    let corpus = sample_corpus();
    let results = rank("grin", &corpus, 10);
    // "grin" has five trigrams and three of them occur in "😀 grinning",
    // so its score is 3000 / 5; the other labels share no trigram with the
    // query and keep corpus order.
    assert_eq!(
        labels_and_scores(&results),
        vec![
            ("😀 grinning".to_string(), 600),
            ("😅 sweat_smile".to_string(), 0),
            ("🎉 tada".to_string(), 0),
        ]
    );
}

#[test]
fn rank_perfect_match_scores_full_scale() {
    let corpus = sample_corpus();
    let results = rank("😀 grinning", &corpus, 10);
    assert_eq!(results[0].label, "😀 grinning");
    assert_eq!(results[0].score, SCORE_SCALE);
}

#[test]
fn rank_empty_corpus_returns_nothing() {
    let corpus: Vec<CorpusEntry> = Vec::new();
    assert!(rank("grin", &corpus, 10).is_empty());
}

#[test]
fn extract_none_iff_no_results() {
    let corpus = sample_corpus();
    let some = rank("grin", &corpus, 10);
    assert!(extract(&some).is_some());
    let none = rank("grin", &Vec::new(), 10);
    assert!(none.is_empty());
    assert!(extract(&none).is_none());
}

#[test]
fn extract_takes_glyph_of_top_result() {
    let results = vec![RankedResult { label: "😀 grinning".to_string(), score: 900 }];
    assert_eq!(extract(&results), Some("😀".to_string()));
}

#[test]
fn handoff_last_write_wins() {
    let mut h = Handoff::new();
    h.set(Some("A".to_string()));
    h.set(Some("B".to_string()));
    assert_eq!(h.take(), Some("B".to_string()));
}

#[test]
fn handoff_take_without_set_is_none() {
    let mut h = Handoff::new();
    assert_eq!(h.take(), None);
}

#[test]
fn handoff_take_clears_the_slot() {
    let mut h = Handoff::new();
    h.set(Some("😀".to_string()));
    assert_eq!(h.take(), Some("😀".to_string()));
    assert_eq!(h.take(), None);
}

#[test]
fn end_to_end_grin_selects_grinning() {
    let corpus = sample_corpus();
    let mut h = Handoff::new();
    let display = process_query("grin", &corpus, &mut h);
    assert_eq!(display[0], "😀 grinning");
    // The UI closes here; the injection phase drains the handoff once.
    assert_eq!(h.take(), Some("😀".to_string()));
    assert_eq!(h.take(), None);
}

#[test]
fn empty_query_clears_pending_selection() {
    let corpus = sample_corpus();
    let mut h = Handoff::new();
    let display = process_query("grin", &corpus, &mut h);
    assert!(!display.is_empty());
    let display = process_query("", &corpus, &mut h);
    assert!(display.is_empty());
    assert_eq!(h.take(), None);
}

#[test]
fn full_corpus_holds_grinning_entry() {
    let corpus = build_corpus();
    assert!(!corpus.is_empty());
    for e in &corpus {
        assert!(e.label.contains(' '));
        assert!(e.label.starts_with(&e.glyph));
        assert!(!e.glyph.contains(' '));
    }
    assert!(corpus.iter().any(|e| e.glyph == "😀" && e.label == "😀 grinning"));
}

#[test]
fn make_entry_joins_glyph_and_shortcode() {
    let e = make_entry("😀", "grinning");
    assert_eq!(e.glyph, "😀");
    assert_eq!(e.label, "😀 grinning");
}

#[test]
fn emoji_search_returns_ranked_labels() {
    let corpus = sample_corpus();
    let labels = emoji_search("grin", &corpus);
    assert_eq!(
        labels,
        vec![
            "😀 grinning".to_string(),
            "😅 sweat_smile".to_string(),
            "🎉 tada".to_string(),
        ]
    );
}

#[test]
fn injection_failure_is_reported_verbatim() {
    let f = InjectionFailure::new("no active display session".to_string());
    assert_eq!(f.message(), "emoji injection failed: no active display session");
}
