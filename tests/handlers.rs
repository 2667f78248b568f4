use gamevault::config::AppConfig;
use gamevault::embedded::{get_cache_control, static_candidates};
use gamevault::handlers::{
    apply_config_update, config_response, is_authorized, is_within_dir, rematch_start, rematch_step, LoadResult,
    RematchAction, RematchError, RematchEvent, config_status, folder_status, rematch_preview, summarize_exports,
    summarize_imports, validate_search_query, ConfigUpdateError, ConfigUpdateRequest, ExportOutcome, ImportOutcome,
    SearchQueryError,
};
use gamevault::local_storage::{order_backups, BackupInfo};
use gamevault::models::{ApiResponse, Game, GameSummary};
use gamevault::steam::{SteamAppDetails, SteamReviews};
use gamevault::tray::TrayCommand;

#[test]
fn search_query_bounds() {
    assert_eq!(validate_search_query("  doom  ").ok(), Some("doom".to_string()));
    assert!(matches!(validate_search_query("   "), Err(SearchQueryError::TooShort)));
    let long = "a".repeat(201);
    assert!(matches!(validate_search_query(&long), Err(SearchQueryError::TooLong)));
    assert!(validate_search_query(&"a".repeat(200)).is_ok());
}

#[test]
fn api_envelopes() {
    let ok = ApiResponse::success(5);
    assert!(ok.success);
    assert_eq!(ok.data, Some(5));
    let err: ApiResponse<i32> = ApiResponse::error("Game not found".to_string());
    assert!(!err.success);
    assert_eq!(err.error, Some("Game not found".to_string()));
    assert_eq!(err.data, None);
}

#[test]
fn cache_control_policy() {
    assert_eq!(get_cache_control("/_next/static/chunk.js"), "public, max-age=31536000, immutable");
    assert_eq!(get_cache_control("fonts/a.woff2"), "public, max-age=31536000, immutable");
    assert_eq!(get_cache_control("logo.png"), "public, max-age=86400");
    assert_eq!(get_cache_control("index.html"), "no-cache");
}

#[test]
fn folder_status_hides_backups_when_read_only() {
    let b = BackupInfo { filename: "a.zip".to_string(), path: "/g/a.zip".to_string(), size_bytes: 3, created_at: 9 };
    let s = folder_status(false, vec![b]);
    assert!(!s.writable);
    assert_eq!(s.backup_count, 0);
    let b = BackupInfo { filename: "a.zip".to_string(), path: "/g/a.zip".to_string(), size_bytes: 3, created_at: 9 };
    assert_eq!(folder_status(true, vec![b]).backup_count, 1);
}

#[test]
fn export_and_import_summaries() {
    let e = summarize_exports(&vec![ExportOutcome::Exported, ExportOutcome::Skipped, ExportOutcome::Exported]);
    assert_eq!((e.exported, e.skipped, e.failed, e.total), (2, 1, 0, 3));
    let i = summarize_imports(&vec![ImportOutcome::NotFound, ImportOutcome::Imported, ImportOutcome::Failed]);
    assert_eq!((i.imported, i.skipped, i.not_found, i.failed, i.total), (1, 0, 1, 1, 3));
}

#[test]
fn config_update_rules() {
    let current = AppConfig::load(&Vec::new()).ok();
    let req = ConfigUpdateRequest {
        game_library: "/games".to_string(),
        cache: "./c".to_string(),
        port: 8080,
        auto_open_browser: false,
    };
    let (cfg, resp) = apply_config_update(&current, req, "/games".to_string()).ok().unwrap();
    assert_eq!(cfg.server.port, 8080);
    assert_eq!(cfg.paths.database, "sqlite:./data/gamevault.db?mode=rwc");
    assert!(resp.restart_required);
    assert_eq!(resp.message, "Configuration saved. Restart required for port change.");
    let low = ConfigUpdateRequest { game_library: "/g".to_string(), cache: String::new(), port: 80, auto_open_browser: true };
    assert!(matches!(apply_config_update(&None, low, "/g".to_string()), Err(ConfigUpdateError::PortOutOfRange)));
    let same = ConfigUpdateRequest { game_library: "/g".to_string(), cache: String::new(), port: 3000, auto_open_browser: true };
    let (_, resp) = apply_config_update(&current, same, "/g".to_string()).ok().unwrap();
    assert!(!resp.restart_required);
}

#[test]
fn config_views() {
    let mut cfg = AppConfig::load(&Vec::new()).unwrap();
    cfg.paths.cache = String::new();
    let r = config_response(&cfg, true, false);
    assert_eq!(r.paths.cache, "./cache");
    assert!(r.paths.game_library_exists);
    assert!(!r.paths.cache_exists);
    let s = config_status(Some((".".to_string(), "/opt/.".to_string(), true)));
    assert!(s.needs_setup);
    let s = config_status(Some(("/games".to_string(), "/games".to_string(), true)));
    assert!(s.game_library_configured);
    assert!(config_status(None).needs_setup);
}

#[test]
fn rematch_preview_fields() {
    let d = SteamAppDetails {
        app_id: 1,
        name: "N".to_string(),
        description: None,
        header_image: Some("h".to_string()),
        background: None,
        developers: None,
        publishers: None,
        genres: None,
        release_date: None,
    };
    let r = rematch_preview(7, d, Some(SteamReviews { score: 80, count: 3, summary: "Good".to_string() }));
    assert_eq!(r.steam_app_id, 7);
    assert_eq!(r.cover_url, Some("h".to_string()));
    assert_eq!(r.review_score, Some(80));
}

#[test]
fn summary_reads_genres() {
    let g = Game {
        id: 3,
        folder_path: String::new(),
        folder_name: String::new(),
        title: "T".to_string(),
        igdb_id: None,
        steam_app_id: None,
        summary: None,
        release_date: None,
        cover_url: None,
        background_url: None,
        local_cover_path: None,
        local_background_path: None,
        genres: Some(r#"["RPG"]"#.to_string()),
        developers: None,
        publishers: None,
        review_score: None,
        review_count: None,
        review_summary: None,
        review_score_recent: None,
        review_count_recent: None,
        size_bytes: None,
        match_confidence: None,
        match_status: "pending".to_string(),
        user_status: None,
        playtime_mins: None,
        match_locked: None,
        hltb_main_mins: None,
        hltb_extra_mins: None,
        hltb_completionist_mins: None,
        save_path_pattern: None,
        manually_edited: None,
        created_at: String::new(),
        updated_at: String::new(),
    };
    let s = GameSummary::from(g);
    assert_eq!(s.genres, Some(vec!["RPG".to_string()]));
    assert_eq!(s.id, 3);
    assert_eq!(TrayCommand::Quit, TrayCommand::Quit);
}

#[test]
fn static_paths_tried_in_order() {
    assert_eq!(static_candidates("/"), vec!["index.html", "index.html.html", "index.html/index.html", "index.html"]);
    assert_eq!(static_candidates("/games/"), vec!["games/", "games.html", "games/index.html", "index.html"]);
    assert_eq!(static_candidates("//a.js"), vec!["a.js", "a.js.html", "a.js/index.html", "index.html"]);
}

#[test]
fn paths_must_stay_inside_library() {
    assert!(is_within_dir("/games", "/games/Doom/cover.jpg"));
    assert!(is_within_dir("/games", "/games"));
    assert!(is_within_dir("/", "/etc"));
    assert!(!is_within_dir("/games", "/gamesX/cover.jpg"));
    assert!(!is_within_dir("/games", "/etc/passwd"));
}

#[test]
fn api_key_check() {
    assert!(is_authorized(&None, &None));
    assert!(is_authorized(&Some(String::new()), &None));
    let key = Some("k1".to_string());
    assert!(is_authorized(&key, &Some("Bearer k1".to_string())));
    assert!(is_authorized(&key, &Some("k1".to_string())));
    assert!(!is_authorized(&key, &Some("Bearer k2".to_string())));
    assert!(!is_authorized(&key, &None));
}

#[test]
fn backups_newest_first() {
    let mk = |name: &str, t: i64| BackupInfo { filename: name.to_string(), path: String::new(), size_bytes: 0, created_at: t };
    let ordered = order_backups(vec![mk("a", 1), mk("b", 5), mk("c", 3), mk("d", 5)]);
    let names: Vec<String> = ordered.iter().map(|b| b.filename.clone()).collect();
    assert_eq!(names, vec!["b", "d", "c", "a"]);
}

#[test]
fn rematch_confirmation_sequence() {
    let (mut s, a) = rematch_start("https://store.steampowered.com/app/292030/");
    assert_eq!(a, RematchAction::LoadGame);
    let events = [
        RematchEvent::GameLoaded(LoadResult::Found),
        RematchEvent::DetailsFetched(true),
        RematchEvent::ReviewsFetched(true),
        RematchEvent::DetailsWritten(true),
        RematchEvent::Written,
        RematchEvent::ImagesCached(false),
        RematchEvent::Reloaded(LoadResult::Found),
        RematchEvent::SidecarSaved,
    ];
    let mut actions = Vec::new();
    for e in events {
        let (next, act) = rematch_step(s, e);
        s = next;
        actions.push(act);
    }
    assert_eq!(actions[0], RematchAction::FetchDetails { app_id: 292030 });
    assert_eq!(actions[1], RematchAction::FetchReviews { app_id: 292030, delay_ms: 500 });
    assert_eq!(actions[2], RematchAction::WriteDetails { app_id: 292030, confidence: 1_000_000 });
    assert_eq!(actions[3], RematchAction::WriteReviews);
    assert_eq!(actions[4], RematchAction::CacheImages);
    assert_eq!(actions[5], RematchAction::ReloadGame);
    assert_eq!(actions[6], RematchAction::SaveSidecar);
    assert_eq!(actions[7], RematchAction::Reply);
}

#[test]
fn rematch_confirmation_failures() {
    assert_eq!(rematch_start("nonsense").1, RematchAction::Fail(RematchError::InvalidInput));
    let (s, _) = rematch_start("42");
    assert_eq!(rematch_step(s, RematchEvent::GameLoaded(LoadResult::Missing)).1, RematchAction::Fail(RematchError::GameNotFound));
    assert_eq!(rematch_step(s, RematchEvent::GameLoaded(LoadResult::Failed)).1, RematchAction::Fail(RematchError::Database));
    let (s, _) = rematch_step(s, RematchEvent::GameLoaded(LoadResult::Found));
    assert_eq!(rematch_step(s, RematchEvent::DetailsFetched(false)).1, RematchAction::Fail(RematchError::DetailsUnavailable));
    assert_eq!(rematch_step(s, RematchEvent::Written).1, RematchAction::Fail(RematchError::OutOfOrder));
}
