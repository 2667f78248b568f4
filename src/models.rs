//! Plain data carried between the library and its surroundings: remote
//! catalogue responses and API envelopes.
use vstd::prelude::*;

use crate::local_storage::{read_stored_list, stored_list};

verus! {

/// Response of the remote details endpoint: one record per requested id,
/// keyed by the id written in decimal.
pub struct SteamAppDetailsResponse {
    pub apps: Vec<(String, SteamAppResult)>,
}

pub struct SteamAppResult {
    pub success: bool,
    pub data: Option<SteamAppData>,
}

pub struct SteamAppData {
    pub steam_appid: i64,
    pub name: String,
    pub short_description: Option<String>,
    pub header_image: Option<String>,
    pub background: Option<String>,
    pub developers: Option<Vec<String>>,
    pub publishers: Option<Vec<String>>,
    pub genres: Option<Vec<SteamGenre>>,
    pub release_date: Option<SteamReleaseDate>,
}

pub struct SteamGenre {
    pub id: String,
    pub description: String,
}

pub struct SteamReleaseDate {
    pub coming_soon: bool,
    pub date: Option<String>,
}

/// Response of the remote reviews endpoint.
pub struct SteamReviewsResponse {
    pub success: i32,
    pub query_summary: Option<SteamQuerySummary>,
}

pub struct SteamQuerySummary {
    pub review_score: Option<i64>,
    pub review_score_desc: Option<String>,
    pub total_positive: Option<i64>,
    pub total_negative: Option<i64>,
    pub total_reviews: Option<i64>,
}

/// One hit of the remote fuzzy search.
pub struct SteamSearchResult {
    pub appid: i64,
    pub name: String,
}


/// One library entry as the store holds it. Genre, developer and publisher
/// lists are kept as JSON text; `match_confidence` is a similarity in
/// millionths; `manually_edited` is 1 once a person has edited the entry.
pub struct Game {
    pub id: i64,
    pub folder_path: String,
    pub folder_name: String,
    pub title: String,
    pub igdb_id: Option<i64>,
    pub steam_app_id: Option<i64>,
    pub summary: Option<String>,
    pub release_date: Option<String>,
    pub cover_url: Option<String>,
    pub background_url: Option<String>,
    pub local_cover_path: Option<String>,
    pub local_background_path: Option<String>,
    pub genres: Option<String>,
    pub developers: Option<String>,
    pub publishers: Option<String>,
    pub review_score: Option<i64>,
    pub review_count: Option<i64>,
    pub review_summary: Option<String>,
    pub review_score_recent: Option<i64>,
    pub review_count_recent: Option<i64>,
    pub size_bytes: Option<i64>,
    pub match_confidence: Option<u32>,
    pub match_status: String,
    pub user_status: Option<String>,
    pub playtime_mins: Option<i64>,
    pub match_locked: Option<i64>,
    pub hltb_main_mins: Option<i64>,
    pub hltb_extra_mins: Option<i64>,
    pub hltb_completionist_mins: Option<i64>,
    pub save_path_pattern: Option<String>,
    pub manually_edited: Option<i64>,
    pub created_at: String,
    pub updated_at: String,
}

/// Counts over the whole library.
pub struct Stats {
    pub total_games: i64,
    pub matched_games: i64,
    pub pending_games: i64,
    pub enriched_games: i64,
}


/// Short listing form of an entry.
pub struct GameSummary {
    pub id: i64,
    pub title: String,
    pub cover_url: Option<String>,
    pub local_cover_path: Option<String>,
    pub genres: Option<Vec<String>>,
    pub review_score: Option<i64>,
    pub review_summary: Option<String>,
    pub match_status: String,
    pub user_status: Option<String>,
    pub hltb_main_mins: Option<i64>,
}

impl GameSummary {
    /// The listing form of an entry; its genres are read from the stored
    /// JSON text, and are absent when that text is absent or malformed.
    pub fn from(g: Game) -> (r: GameSummary)
        ensures
            r.id == g.id,
            r.title == g.title,
            r.cover_url == g.cover_url,
            r.local_cover_path == g.local_cover_path,
            r.genres is Some <==> stored_list(g.genres) is Some,
            r.genres is Some ==> r.genres->0.deep_view() == stored_list(g.genres)->0,
            r.review_score == g.review_score,
            r.review_summary == g.review_summary,
            r.match_status == g.match_status,
            r.user_status == g.user_status,
            r.hltb_main_mins == g.hltb_main_mins,
    {
        let genres = read_stored_list(&g.genres);
        GameSummary {
            id: g.id,
            title: g.title,
            cover_url: g.cover_url,
            local_cover_path: g.local_cover_path,
            genres,
            review_score: g.review_score,
            review_summary: g.review_summary,
            match_status: g.match_status,
            user_status: g.user_status,
            hltb_main_mins: g.hltb_main_mins,
        }
    }
}

/// Envelope of every API answer: data on success, a message on error.
pub struct ApiResponse<T> {
    pub success: bool,
    pub data: Option<T>,
    pub error: Option<String>,
}

impl<T> ApiResponse<T> {
    /// A successful answer carrying `data`.
    pub fn success(data: T) -> (r: Self)
        ensures
            r.success,
            r.data == Some(data),
            r.error is None,
    {
        ApiResponse { success: true, data: Some(data), error: None }
    }

    /// A failed answer carrying the message `msg`.
    pub fn error(msg: String) -> (r: Self)
        ensures
            !r.success,
            r.data is None,
            r.error == Some(msg),
    {
        ApiResponse { success: false, data: None, error: Some(msg) }
    }
}

} // verus!
