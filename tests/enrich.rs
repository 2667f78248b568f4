use gamevault::enrich::{
    batch_size, enrich_start, enrich_step, finished_outcome, needs_enrichment, select_for_enrichment,
    summarize_enrichment, EnrichAction, EnrichEvent, EnrichState, FailReason, FinishedAs, ItemOutcome,
};
use gamevault::models::Game;

fn game(status: &str, app: Option<i64>, cover: Option<&str>, bg: Option<&str>) -> Game {
    Game {
        id: 1,
        folder_path: "/g/x".to_string(),
        folder_name: "x".to_string(),
        title: "X".to_string(),
        igdb_id: None,
        steam_app_id: app,
        summary: None,
        release_date: None,
        cover_url: None,
        background_url: None,
        local_cover_path: cover.map(|s| s.to_string()),
        local_background_path: bg.map(|s| s.to_string()),
        genres: None,
        developers: None,
        publishers: None,
        review_score: None,
        review_count: None,
        review_summary: None,
        review_score_recent: None,
        review_count_recent: None,
        size_bytes: None,
        match_confidence: None,
        match_status: status.to_string(),
        user_status: None,
        playtime_mins: None,
        match_locked: None,
        hltb_main_mins: None,
        hltb_extra_mins: None,
        hltb_completionist_mins: None,
        save_path_pattern: None,
        manually_edited: None,
        created_at: String::new(),
        updated_at: String::new(),
    }
}

#[test]
fn eligibility_rule() {
    assert!(needs_enrichment(&game("pending", Some(1), Some("c"), Some("b"))));
    assert!(needs_enrichment(&game("matched", None, Some("c"), Some("b"))));
    assert!(needs_enrichment(&game("matched", Some(1), None, Some("b"))));
    assert!(!needs_enrichment(&game("matched", Some(1), Some("c"), Some("b"))));
    let games = vec![
        game("matched", Some(1), Some("c"), Some("b")),
        game("pending", None, None, None),
        game("matched", Some(2), Some("c"), None),
    ];
    assert_eq!(select_for_enrichment(&games), vec![1, 2]);
}

fn run(events: &[EnrichEvent]) -> Vec<EnrichAction> {
    let (mut state, first) = enrich_start();
    let mut actions = vec![first];
    for e in events {
        let (s, a) = enrich_step(state, *e);
        state = s;
        actions.push(a);
    }
    actions
}

#[test]
fn read_only_entry_still_enriched() {
    let actions = run(&[
        EnrichEvent::Resolved(Some((1091500, 990_000))),
        EnrichEvent::DetailsFetched(true),
        EnrichEvent::ReviewsFetched(false),
        EnrichEvent::DetailsWritten(true),
        EnrichEvent::ImagesCached(false),
    ]);
    assert_eq!(actions[1], EnrichAction::FetchDetails { app_id: 1091500, delay_ms: 500 });
    assert_eq!(actions[2], EnrichAction::FetchReviews { app_id: 1091500, delay_ms: 500 });
    assert_eq!(actions[3], EnrichAction::WriteDetails { app_id: 1091500, confidence: 990_000 });
    assert_eq!(actions[4], EnrichAction::CacheImages);
    assert_eq!(actions[5], EnrichAction::Finish(FinishedAs::Enriched));
    let summary = summarize_enrichment(&vec![finished_outcome(FinishedAs::Enriched)], 1);
    assert_eq!(summary.enriched, 1);
    assert_eq!(summary.failed, 0);
}

#[test]
fn full_sequence_records_images_then_reviews() {
    let actions = run(&[
        EnrichEvent::Resolved(Some((7, 900_000))),
        EnrichEvent::DetailsFetched(true),
        EnrichEvent::ReviewsFetched(true),
        EnrichEvent::DetailsWritten(true),
        EnrichEvent::ImagesCached(true),
        EnrichEvent::Written,
        EnrichEvent::Written,
    ]);
    assert_eq!(actions[5], EnrichAction::WriteImages);
    assert_eq!(actions[6], EnrichAction::WriteReviews);
    assert_eq!(actions[7], EnrichAction::Finish(FinishedAs::Enriched));
}

#[test]
fn failures_are_classified() {
    assert_eq!(run(&[EnrichEvent::Resolved(None)])[1], EnrichAction::Finish(FinishedAs::NoMatch));
    let no_details = run(&[EnrichEvent::Resolved(Some((1, 900_000))), EnrichEvent::DetailsFetched(false)]);
    assert_eq!(no_details[2], EnrichAction::Finish(FinishedAs::DetailsUnavailable));
    let write_failed = run(&[
        EnrichEvent::Resolved(Some((1, 900_000))),
        EnrichEvent::DetailsFetched(true),
        EnrichEvent::ReviewsFetched(true),
        EnrichEvent::DetailsWritten(false),
    ]);
    assert_eq!(write_failed[4], EnrichAction::Finish(FinishedAs::StoreWrite));
    let (_, a) = enrich_step(EnrichState::Resolving, EnrichEvent::Written);
    assert_eq!(a, EnrichAction::Finish(FinishedAs::OutOfOrder));
    assert!(matches!(finished_outcome(FinishedAs::NoMatch), ItemOutcome::Failed(FailReason::NoMatch)));
    assert!(matches!(finished_outcome(FinishedAs::StoreWrite), ItemOutcome::Failed(FailReason::StoreWrite)));
    assert!(matches!(finished_outcome(FinishedAs::OutOfOrder), ItemOutcome::Failed(FailReason::OutOfOrder)));
}

#[test]
fn batch_summary_counts() {
    let outcomes = vec![
        ItemOutcome::Enriched,
        ItemOutcome::Failed(FailReason::NoMatch),
        ItemOutcome::Skipped("locked".to_string()),
        ItemOutcome::Enriched,
    ];
    let s = summarize_enrichment(&outcomes, 25);
    assert_eq!(s.enriched, 2);
    assert_eq!(s.failed, 1);
    assert_eq!(s.remaining, 5);
    assert_eq!(s.total, 25);
    assert_eq!(batch_size(25), 20);
    assert_eq!(batch_size(3), 3);
    assert_eq!(summarize_enrichment(&vec![], 3).remaining, 0);
}
