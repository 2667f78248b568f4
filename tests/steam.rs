use gamevault::models::{
    SteamAppData, SteamAppDetailsResponse, SteamAppResult, SteamGenre, SteamQuerySummary, SteamReleaseDate,
    SteamReviewsResponse,
};
use gamevault::steam::{
    compute_score, details_from_response, get_known_mappings, match_alias, parse_steam_input, pick_search_match,
    reviews_from_response,
};

fn app_data(id: i64) -> SteamAppData {
    SteamAppData {
        steam_appid: id,
        name: "Portal 2".to_string(),
        short_description: Some("Puzzles".to_string()),
        header_image: Some("http://h".to_string()),
        background: None,
        developers: Some(vec!["Valve".to_string()]),
        publishers: None,
        genres: Some(vec![
            SteamGenre { id: "1".to_string(), description: "Action".to_string() },
            SteamGenre { id: "2".to_string(), description: "Puzzle".to_string() },
        ]),
        release_date: Some(SteamReleaseDate { coming_soon: false, date: Some("18 Apr, 2011".to_string()) }),
    }
}

fn summary(pos: Option<i64>, neg: Option<i64>) -> SteamQuerySummary {
    SteamQuerySummary {
        review_score: None,
        review_score_desc: Some("Very Positive".to_string()),
        total_positive: pos,
        total_negative: neg,
        total_reviews: Some(100),
    }
}

#[test]
fn review_score_examples() {
    assert_eq!(compute_score(0, 0), 0);
    assert_eq!(compute_score(75, 25), 75);
    assert_eq!(compute_score(2, 1), 67);
    assert_eq!(compute_score(1, 2), 33);
    assert_eq!(compute_score(1, 7), 13);
    assert_eq!(compute_score(5, 0), 100);
}

#[test]
fn reviews_need_success_flag() {
    let r = reviews_from_response(SteamReviewsResponse { success: 1, query_summary: Some(summary(Some(75), Some(25))) })
        .unwrap();
    assert_eq!(r.score, 75);
    assert_eq!(r.count, 100);
    assert_eq!(r.summary, "Very Positive");
    assert!(reviews_from_response(SteamReviewsResponse { success: 2, query_summary: Some(summary(None, None)) })
        .is_none());
    assert!(reviews_from_response(SteamReviewsResponse { success: 1, query_summary: None }).is_none());
    assert!(reviews_from_response(SteamReviewsResponse { success: 1, query_summary: Some(summary(Some(-1), None)) })
        .is_none());
    let none = reviews_from_response(SteamReviewsResponse { success: 1, query_summary: Some(summary(None, None)) })
        .unwrap();
    assert_eq!(none.score, 0);
}

#[test]
fn details_picked_by_decimal_key() {
    let resp = SteamAppDetailsResponse {
        apps: vec![
            ("620".to_string(), SteamAppResult { success: true, data: Some(app_data(620)) }),
            ("400".to_string(), SteamAppResult { success: true, data: Some(app_data(400)) }),
        ],
    };
    let d = details_from_response(resp, 400).unwrap();
    assert_eq!(d.app_id, 400);
    assert_eq!(d.name, "Portal 2");
    assert_eq!(d.genres, Some(vec!["Action".to_string(), "Puzzle".to_string()]));
    assert_eq!(d.release_date, Some("18 Apr, 2011".to_string()));
    assert_eq!(d.developers, Some(vec!["Valve".to_string()]));
}

#[test]
fn details_absent_or_unsuccessful() {
    let missing = SteamAppDetailsResponse {
        apps: vec![("620".to_string(), SteamAppResult { success: true, data: Some(app_data(620)) })],
    };
    assert!(details_from_response(missing, 400).is_none());
    let failed = SteamAppDetailsResponse {
        apps: vec![("400".to_string(), SteamAppResult { success: false, data: Some(app_data(400)) })],
    };
    assert!(details_from_response(failed, 400).is_none());
    let empty = SteamAppDetailsResponse { apps: vec![("400".to_string(), SteamAppResult { success: true, data: None })] };
    assert!(details_from_response(empty, 400).is_none());
}

#[test]
fn tombstoned_alias_is_never_returned() {
    let table: Vec<(&'static str, i64)> = vec![("alan wake 2", 0), ("alan wake", 108710)];
    assert_eq!(match_alias(&table, &vec![1_000_000, 800_000]), None);
    assert_eq!(match_alias(&table, &vec![1_000_000, 900_000]), Some((108710, 900_000)));
    assert_eq!(match_alias(&table, &vec![850_000, 850_000]), None);
}

#[test]
fn alias_table_has_known_entries() {
    let table = get_known_mappings();
    assert!(table.iter().any(|(k, v)| *k == "cyberpunk 2077" && *v == 1091500));
    assert!(table.iter().any(|(k, v)| *k == "alan wake 2" && *v == 0));
}

#[test]
fn search_tie_keeps_first_hit() {
    assert_eq!(pick_search_match(&vec![(1, 700_000), (2, 700_000)]), Some((1, 700_000)));
    assert_eq!(pick_search_match(&vec![(1, 650_000), (2, 700_000), (3, 700_000)]), Some((2, 700_000)));
}

#[test]
fn search_threshold_and_limit() {
    assert_eq!(pick_search_match(&vec![(1, 600_000)]), None);
    assert_eq!(pick_search_match(&vec![]), None);
    let hits = vec![(1, 610_000), (2, 0), (3, 0), (4, 0), (5, 0), (6, 990_000)];
    assert_eq!(pick_search_match(&hits), Some((1, 610_000)));
}

#[test]
fn steam_input_accepts_ids_and_urls() {
    assert_eq!(parse_steam_input(" 292030 "), Some(292030));
    assert_eq!(parse_steam_input("https://store.steampowered.com/app/292030/The_Witcher_3/"), Some(292030));
    assert_eq!(parse_steam_input("/app/42"), Some(42));
    assert_eq!(parse_steam_input("not a game"), None);
}
