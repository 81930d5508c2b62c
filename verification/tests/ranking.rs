use launcher_core::action::Action;
use launcher_core::ranking::Ranker;
use launcher_core::result_item::ResultItem;

fn item(title: &str, prior: i64) -> ResultItem {
    ResultItem::new(
        title.to_string(),
        title.to_string(),
        Action::DoNothing,
        "test".to_string(),
    )
    .with_score(prior)
}

#[test]
fn exact_beats_prefix_beats_unrelated() {
    let ranker = Ranker::new();
    let mut results = vec![item("xyz", 0), item("calculator", 0), item("calc", 0)];
    ranker.rank_results(&mut results, "calc");

    assert_eq!(results.len(), 3);
    assert_eq!(results[0].title, "calc");
    assert_eq!(results[0].score, 100);
    assert_eq!(results[1].title, "calculator");
    assert_eq!(results[1].score, 50);
    assert_eq!(results[2].title, "xyz");
    assert_eq!(results[2].score, 0);
}

#[test]
fn title_match_is_case_insensitive() {
    let ranker = Ranker::new();
    let mut results = vec![item("CALC", 0)];
    ranker.rank_results(&mut results, "calc");
    assert_eq!(results[0].score, 100);
}

#[test]
fn substring_match_scores_25() {
    let ranker = Ranker::new();
    let mut results = vec![item("my calculator", 0)];
    ranker.rank_results(&mut results, "calc");
    assert_eq!(results[0].score, 25);
}

#[test]
fn fuzzy_coverage_scores_in_tenths() {
    let ranker = Ranker::new();
    // "zc" against "zebra crossing": both characters found, coverage 1.0.
    let mut full = vec![item("Zebra Crossing", 5)];
    ranker.rank_results(&mut full, "zc");
    assert_eq!(full[0].score, 15);

    // "zcq" against "zebra crossing": two of three found, floor(2/3 * 10).
    let mut partial = vec![item("Zebra Crossing", 0)];
    ranker.rank_results(&mut partial, "zcq");
    assert_eq!(partial[0].score, 6);
}

#[test]
fn provider_prior_score_is_added() {
    let ranker = Ranker::new();
    let mut results = vec![item("calc", 7)];
    ranker.rank_results(&mut results, "calc");
    assert_eq!(results[0].score, 107);
}

#[test]
fn equal_scores_keep_input_order_and_higher_never_sinks() {
    let ranker = Ranker::new();
    let mut results = vec![item("xx", 1), item("yy", 1), item("zz", 5)];
    ranker.rank_results(&mut results, "qq");

    // "qq" matches none of the titles, so the priors decide.
    assert_eq!(results[0].title, "zz");
    assert_eq!(results[0].score, 5);
    assert_eq!(results[1].title, "xx");
    assert_eq!(results[2].title, "yy");
}

#[test]
fn ranking_keeps_every_item() {
    let ranker = Ranker::new();
    let mut results = vec![item("a", 0), item("b", 0), item("a", 0)];
    ranker.rank_results(&mut results, "a");
    assert_eq!(results.len(), 3);
    let a_count = results.iter().filter(|r| r.title == "a").count();
    assert_eq!(a_count, 2);
}
