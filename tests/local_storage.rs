use gamevault::handlers::UpdateGameRequest;
use gamevault::local_storage::{
    apply_import, apply_manual_edit, build_exported_metadata, cache_outcome, export_game_metadata,
    get_background_path, get_cover_path, get_metadata_path, get_saves_dir, import_game_metadata,
    is_manually_edited, join_path, list_to_stored, needs_download, plan_image_cache, read_stored_list,
    save_game_metadata, should_skip_import, ExportError, ExportedMetadata, HltbData, ImportResult,
    ImportedMetadata, SidecarError, Timestamp,
};
use gamevault::models::Game;

fn create_test_game() -> Game {
    Game {
        id: 1,
        folder_path: "/games/test".to_string(),
        folder_name: "test".to_string(),
        title: "Test Game".to_string(),
        igdb_id: None,
        steam_app_id: Some(12345),
        summary: Some("A test game".to_string()),
        release_date: Some("2024-01-15".to_string()),
        cover_url: None,
        background_url: None,
        local_cover_path: None,
        local_background_path: None,
        genres: Some(r#"["Action", "RPG"]"#.to_string()),
        developers: Some(r#"["Test Dev"]"#.to_string()),
        publishers: Some(r#"["Test Pub"]"#.to_string()),
        review_score: Some(85),
        review_count: None,
        review_summary: Some("Very Positive".to_string()),
        review_score_recent: None,
        review_count_recent: None,
        size_bytes: None,
        match_confidence: Some(950_000),
        match_status: "matched".to_string(),
        user_status: None,
        playtime_mins: None,
        match_locked: None,
        hltb_main_mins: Some(600),
        hltb_extra_mins: Some(1200),
        hltb_completionist_mins: Some(2400),
        save_path_pattern: None,
        manually_edited: Some(1),
        created_at: "2024-01-01".to_string(),
        updated_at: "2024-01-01".to_string(),
    }
}

fn sidecar(exported_at: &str) -> ImportedMetadata {
    ImportedMetadata {
        title: "Test Game".to_string(),
        steam_app_id: Some(777),
        summary: None,
        genres: Some(vec!["Puzzle".to_string()]),
        developers: None,
        publishers: None,
        release_date: Some("2025-02-02".to_string()),
        review_score: None,
        review_summary: None,
        hltb: Some(HltbData { main_mins: Some(90), extra_mins: None, completionist_mins: None }),
        exported_at: exported_at.to_string(),
    }
}

#[test]
fn test_gamevault_paths() {
    let folder = "/games/TestGame";
    assert_eq!(get_cover_path(folder), "/games/TestGame/.gamevault/cover.jpg");
    assert_eq!(get_background_path(folder), "/games/TestGame/.gamevault/background.jpg");
}

#[test]
fn test_metadata_path() {
    let folder = "/games/TestGame";
    assert_eq!(get_metadata_path(folder), "/games/TestGame/.gamevault/metadata.json");
}

#[test]
fn test_exported_metadata_schema_version() {
    let metadata = ExportedMetadata {
        schema_version: 2,
        title: "Test Game".to_string(),
        steam_app_id: Some(12345),
        summary: Some("A test game".to_string()),
        genres: Some(vec!["Action".to_string()]),
        developers: Some(vec!["Test Dev".to_string()]),
        publishers: Some(vec!["Test Pub".to_string()]),
        release_date: Some("2024-01-15".to_string()),
        review_score: Some(85),
        review_summary: Some("Very Positive".to_string()),
        hltb: None,
        exported_at: "2024-01-01T00:00:00Z".to_string(),
        manually_edited: false,
    };

    assert_eq!(metadata.schema_version, 2);
    assert_eq!(metadata.manually_edited, false);
}

#[test]
fn test_export_game_metadata_creates_correct_structure() {
    let game = create_test_game();
    let genres = read_stored_list(&game.genres);
    assert_eq!(genres, Some(vec!["Action".to_string(), "RPG".to_string()]));
}

#[test]
fn test_manually_edited_flag_conversion() {
    let game = create_test_game();
    assert!(is_manually_edited(&game));

    let mut unedited_game = game;
    unedited_game.manually_edited = Some(0);
    assert!(!is_manually_edited(&unedited_game));
}

#[test]
fn join_path_handles_separators() {
    assert_eq!(join_path("", "a"), "a");
    assert_eq!(join_path("/x/", "a"), "/x/a");
    assert_eq!(join_path("/x", "a"), "/x/a");
    assert_eq!(get_saves_dir("/g"), "/g/.gamevault/saves");
}

#[test]
fn export_builds_sidecar_record() {
    let game = create_test_game();
    let m = build_exported_metadata(&game, "2024-05-01T10:00:00Z".to_string(), false);
    assert_eq!(m.schema_version, 2);
    assert_eq!(m.title, "Test Game");
    assert_eq!(m.developers, Some(vec!["Test Dev".to_string()]));
    assert_eq!(m.hltb.as_ref().unwrap().completionist_mins, Some(2400));
    assert_eq!(m.exported_at, "2024-05-01T10:00:00Z");
    assert!(!m.manually_edited);

    let mut bare = create_test_game();
    bare.hltb_main_mins = None;
    bare.hltb_extra_mins = None;
    bare.hltb_completionist_mins = None;
    bare.genres = Some("not json".to_string());
    let m = build_exported_metadata(&bare, "t".to_string(), true);
    assert!(m.hltb.is_none());
    assert!(m.genres.is_none());
}

#[test]
fn export_refuses_read_only_folder() {
    let game = create_test_game();
    let r = export_game_metadata(&game, false, "t".to_string());
    assert!(matches!(r, Err(ExportError::NotWritable(ref p)) if p == "/games/test"));
    let ok = export_game_metadata(&game, true, "t".to_string()).ok().unwrap();
    assert!(ok.manually_edited);
    assert!(save_game_metadata(&game, false, "t".to_string()).is_none());
}

#[test]
fn stored_list_is_json() {
    let text = list_to_stored(&Some(vec!["Action".to_string(), "RPG".to_string()]));
    assert_eq!(text, Some(r#"["Action","RPG"]"#.to_string()));
    assert_eq!(list_to_stored(&None), None);
}

#[test]
fn import_skipped_when_sidecar_not_newer() {
    let r = import_game_metadata(Ok(sidecar("2024-01-01T00:00:00Z")), "2024-01-02T00:00:00Z");
    match r {
        ImportResult::Skipped { reason } => {
            assert!(reason.contains("2024-01-01T00:00:00Z"));
            assert!(reason.contains("2024-01-02T00:00:00Z"));
        }
        _ => panic!("expected a skip"),
    }
    let same = import_game_metadata(Ok(sidecar("2024-01-02T01:00:00+01:00")), "2024-01-02T00:00:00Z");
    assert!(matches!(same, ImportResult::Skipped { .. }));
}

#[test]
fn import_proceeds_when_sidecar_newer_or_unparsable() {
    let newer = import_game_metadata(Ok(sidecar("2024-01-03T00:00:00Z")), "2024-01-02T00:00:00Z");
    assert!(matches!(newer, ImportResult::Imported(_)));
    let store_plain = import_game_metadata(Ok(sidecar("2024-01-01T00:00:00Z")), "2024-01-02 00:00:00");
    assert!(matches!(store_plain, ImportResult::Imported(_)));
    let bad_sidecar = import_game_metadata(Ok(sidecar("yesterday")), "2024-01-02T00:00:00Z");
    assert!(matches!(bad_sidecar, ImportResult::Imported(_)));
}

#[test]
fn import_read_errors() {
    assert!(matches!(import_game_metadata(Err(SidecarError::NotFound), "x"), ImportResult::NotFound));
    let failed = import_game_metadata(Err(SidecarError::Unreadable("bad json".to_string())), "x");
    assert!(matches!(failed, ImportResult::Failed { ref error } if error == "bad json"));
}

#[test]
fn skip_rule_on_instants() {
    let t1 = Timestamp { secs: 100, nanos: 0 };
    let t2 = Timestamp { secs: 100, nanos: 5 };
    assert!(should_skip_import(Some(Timestamp { secs: 100, nanos: 0 }), Some(Timestamp { secs: 100, nanos: 0 })));
    assert!(should_skip_import(Some(t1), Some(t2)));
    assert!(!should_skip_import(Some(Timestamp { secs: 100, nanos: 5 }), Some(Timestamp { secs: 100, nanos: 0 })));
    assert!(!should_skip_import(None, Some(Timestamp { secs: 1, nanos: 0 })));
}

#[test]
fn import_merges_present_fields_only() {
    let mut game = create_test_game();
    game.steam_app_id = None;
    game.match_status = "pending".to_string();
    let merged = apply_import(game, sidecar("2024-01-03T00:00:00Z"));
    assert_eq!(merged.steam_app_id, Some(777));
    assert_eq!(merged.match_status, "matched");
    assert_eq!(merged.summary, Some("A test game".to_string()));
    assert_eq!(merged.genres, Some(r#"["Puzzle"]"#.to_string()));
    assert_eq!(merged.developers, Some(r#"["Test Dev"]"#.to_string()));
    assert_eq!(merged.release_date, Some("2025-02-02".to_string()));
    assert_eq!(merged.hltb_main_mins, Some(90));
    assert_eq!(merged.hltb_extra_mins, Some(1200));
}

#[test]
fn manual_edit_of_title_marks_sidecar() {
    let mut game = create_test_game();
    game.manually_edited = None;
    let req = UpdateGameRequest {
        title: Some("Renamed".to_string()),
        summary: None,
        genres: None,
        developers: None,
        publishers: None,
        release_date: None,
        review_score: None,
    };
    let edited = apply_manual_edit(game, req);
    assert_eq!(edited.title, "Renamed");
    assert_eq!(edited.summary, Some("A test game".to_string()));
    assert_eq!(edited.manually_edited, Some(1));
    let saved = save_game_metadata(&edited, true, "2024-06-01T00:00:00Z".to_string()).unwrap();
    assert!(saved.manually_edited);
    assert_eq!(saved.title, "Renamed");
    let exported = export_game_metadata(&edited, true, "2024-06-01T00:00:00Z".to_string()).ok().unwrap();
    assert!(exported.manually_edited);
}

#[test]
fn read_only_folder_caches_nothing() {
    let plan = plan_image_cache("/ro/Game", false, Some("http://c".to_string()), Some("http://b".to_string()));
    assert!(plan.cover.is_none());
    assert!(plan.background.is_none());
    let (cover, background) = cache_outcome(&plan, false, true, false, true);
    assert_eq!(cover, None);
    assert_eq!(background, None);
}

#[test]
fn second_cache_run_makes_no_requests() {
    let first = plan_image_cache("/g", true, Some("http://c".to_string()), Some("http://b".to_string()));
    assert_eq!(first.cover.as_ref().unwrap().dest, "/g/.gamevault/cover.jpg");
    assert_eq!(first.background.as_ref().unwrap().url, "http://b");
    assert!(needs_download(false));
    let first_paths = cache_outcome(&first, false, true, false, true);
    let second = plan_image_cache("/g", true, Some("http://c".to_string()), Some("http://b".to_string()));
    assert!(!needs_download(true));
    let second_paths = cache_outcome(&second, true, false, true, false);
    assert_eq!(first_paths, second_paths);
    assert_eq!(second_paths.0, Some("/g/.gamevault/cover.jpg".to_string()));
}

#[test]
fn failed_cover_does_not_block_background() {
    let plan = plan_image_cache("/g", true, Some("http://c".to_string()), Some("http://b".to_string()));
    let (cover, background) = cache_outcome(&plan, false, false, false, true);
    assert_eq!(cover, None);
    assert_eq!(background, Some("/g/.gamevault/background.jpg".to_string()));
}
