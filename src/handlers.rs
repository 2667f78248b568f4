//! Request and response records of the HTTP interface, with the checks that
//! the interface applies to its inputs.
use vstd::prelude::*;
use vstd::string::*;

use crate::config::{AppConfig, PathsConfig, ServerConfig, DEFAULT_BIND_ADDRESS, DEFAULT_DATABASE};
use crate::local_storage::BackupInfo;
use crate::scanner::{trim_text, trimmed};
use crate::text::{has_prefix, starts_with_text, text_equals};
use crate::enrich::STEAM_API_RATE_LIMIT_MS;
use crate::steam::{parse_steam_input, steam_input_id, SteamAppDetails, SteamReviews, SIMILARITY_SCALE};

verus! {

/// A person's edit of an entry: each field that is present replaces the
/// stored one.
pub struct UpdateGameRequest {
    pub title: Option<String>,
    pub summary: Option<String>,
    pub genres: Option<Vec<String>>,
    pub developers: Option<Vec<String>>,
    pub publishers: Option<Vec<String>>,
    pub release_date: Option<String>,
    pub review_score: Option<i64>,
}


/// Summary of an enrichment batch.
pub struct EnrichResult {
    pub enriched: usize,
    pub failed: usize,
    pub remaining: usize,
    pub total: usize,
}


/// Search request of the listing.
pub struct SearchQuery {
    pub q: String,
}

/// Shortest accepted search, in characters after trimming.
pub const MIN_SEARCH_QUERY_LENGTH: usize = 1;

/// Longest accepted search, in characters after trimming.
pub const MAX_SEARCH_QUERY_LENGTH: usize = 200;

/// Why a search was refused.
pub enum SearchQueryError {
    TooShort,
    TooLong,
}

/// Checks a search: the trimmed text, refused when shorter or longer than
/// the bounds.
pub fn validate_search_query(q: &str) -> (r: Result<String, SearchQueryError>)
    ensures
        trimmed(q@).len() < MIN_SEARCH_QUERY_LENGTH ==> r matches Err(SearchQueryError::TooShort),
        trimmed(q@).len() > MAX_SEARCH_QUERY_LENGTH ==> r matches Err(SearchQueryError::TooLong),
        MIN_SEARCH_QUERY_LENGTH <= trimmed(q@).len() <= MAX_SEARCH_QUERY_LENGTH ==> (r matches Ok(t) && t@
            == trimmed(q@)),
{
    let t = trim_text(q);
    let n = t.as_str().unicode_len();
    if n < MIN_SEARCH_QUERY_LENGTH {
        return Err(SearchQueryError::TooShort);
    }
    if n > MAX_SEARCH_QUERY_LENGTH {
        return Err(SearchQueryError::TooLong);
    }
    Ok(t)
}

/// Summary of a scan.
pub struct ScanResult {
    pub total_found: usize,
    pub added_or_updated: usize,
}

/// Whether a game folder can be written, with its save backups.
pub struct FolderStatus {
    pub writable: bool,
    pub backup_count: usize,
    pub backups: Vec<BackupInfo>,
}

/// Status of a game folder: backups are listed only for a writable one.
pub fn folder_status(writable: bool, backups: Vec<BackupInfo>) -> (r: FolderStatus)
    ensures
        r.writable == writable,
        writable ==> r.backups == backups,
        !writable ==> r.backups@.len() == 0,
        r.backup_count == r.backups@.len(),
{
    let backups = if writable {
        backups
    } else {
        Vec::new()
    };
    let backup_count = backups.len();
    FolderStatus { writable, backup_count, backups }
}

/// What became of one entry in an export run.
pub enum ExportOutcome {
    Exported,
    /// The entry has no catalogue id, so there is nothing to export.
    Skipped,
    Failed,
}

/// Summary of an export run.
pub struct ExportResult {
    pub exported: usize,
    pub skipped: usize,
    pub failed: usize,
    pub total: usize,
}

/// Number of outcomes of `s` equal to `o`.
pub open spec fn export_count(s: Seq<ExportOutcome>, o: ExportOutcome) -> nat
    decreases s.len(),
{
    if s.len() == 0 {
        0
    } else {
        export_count(s.drop_last(), o) + if s.last() == o { 1nat } else { 0nat }
    }
}

/// Summary of an export run over its outcomes.
pub fn summarize_exports(outcomes: &Vec<ExportOutcome>) -> (r: ExportResult)
    ensures
        r.exported == export_count(outcomes@, ExportOutcome::Exported),
        r.skipped == export_count(outcomes@, ExportOutcome::Skipped),
        r.failed == export_count(outcomes@, ExportOutcome::Failed),
        r.total == outcomes@.len(),
{
    let mut r = ExportResult { exported: 0, skipped: 0, failed: 0, total: outcomes.len() };
    let mut i: usize = 0;
    while i < outcomes.len()
        invariant
            0 <= i <= outcomes@.len(),
            r.total == outcomes@.len(),
            r.exported == export_count(outcomes@.subrange(0, i as int), ExportOutcome::Exported),
            r.skipped == export_count(outcomes@.subrange(0, i as int), ExportOutcome::Skipped),
            r.failed == export_count(outcomes@.subrange(0, i as int), ExportOutcome::Failed),
            r.exported + r.skipped + r.failed == i,
        decreases outcomes@.len() - i,
    {
        assert(outcomes@.subrange(0, i + 1).drop_last() =~= outcomes@.subrange(0, i as int));
        assert(outcomes@.subrange(0, i + 1).last() == outcomes@[i as int]);
        match outcomes[i] {
            ExportOutcome::Exported => r.exported = r.exported + 1,
            ExportOutcome::Skipped => r.skipped = r.skipped + 1,
            ExportOutcome::Failed => r.failed = r.failed + 1,
        }
        i += 1;
    }
    assert(outcomes@.subrange(0, outcomes@.len() as int) =~= outcomes@);
    r
}

/// What became of one entry in an import run.
pub enum ImportOutcome {
    Imported,
    Skipped,
    NotFound,
    Failed,
}

/// Summary of an import run.
pub struct ImportResult {
    pub imported: usize,
    pub skipped: usize,
    pub not_found: usize,
    pub failed: usize,
    pub total: usize,
}

/// Number of outcomes of `s` equal to `o`.
pub open spec fn import_count(s: Seq<ImportOutcome>, o: ImportOutcome) -> nat
    decreases s.len(),
{
    if s.len() == 0 {
        0
    } else {
        import_count(s.drop_last(), o) + if s.last() == o { 1nat } else { 0nat }
    }
}

/// Summary of an import run over its outcomes.
pub fn summarize_imports(outcomes: &Vec<ImportOutcome>) -> (r: ImportResult)
    ensures
        r.imported == import_count(outcomes@, ImportOutcome::Imported),
        r.skipped == import_count(outcomes@, ImportOutcome::Skipped),
        r.not_found == import_count(outcomes@, ImportOutcome::NotFound),
        r.failed == import_count(outcomes@, ImportOutcome::Failed),
        r.total == outcomes@.len(),
{
    let mut r = ImportResult { imported: 0, skipped: 0, not_found: 0, failed: 0, total: outcomes.len() };
    let mut i: usize = 0;
    while i < outcomes.len()
        invariant
            0 <= i <= outcomes@.len(),
            r.total == outcomes@.len(),
            r.imported == import_count(outcomes@.subrange(0, i as int), ImportOutcome::Imported),
            r.skipped == import_count(outcomes@.subrange(0, i as int), ImportOutcome::Skipped),
            r.not_found == import_count(outcomes@.subrange(0, i as int), ImportOutcome::NotFound),
            r.failed == import_count(outcomes@.subrange(0, i as int), ImportOutcome::Failed),
            r.imported + r.skipped + r.not_found + r.failed == i,
        decreases outcomes@.len() - i,
    {
        assert(outcomes@.subrange(0, i + 1).drop_last() =~= outcomes@.subrange(0, i as int));
        assert(outcomes@.subrange(0, i + 1).last() == outcomes@[i as int]);
        match outcomes[i] {
            ImportOutcome::Imported => r.imported = r.imported + 1,
            ImportOutcome::Skipped => r.skipped = r.skipped + 1,
            ImportOutcome::NotFound => r.not_found = r.not_found + 1,
            ImportOutcome::Failed => r.failed = r.failed + 1,
        }
        i += 1;
    }
    assert(outcomes@.subrange(0, outcomes@.len() as int) =~= outcomes@);
    r
}

/// Request to match an entry to another catalogue entry: a store URL or a
/// bare id.
pub struct RematchGameRequest {
    pub steam_input: String,
}

/// Preview of a rematch, shown before it is confirmed.
pub struct RematchResult {
    pub steam_app_id: i64,
    pub title: String,
    pub summary: Option<String>,
    pub genres: Option<Vec<String>>,
    pub developers: Option<Vec<String>>,
    pub publishers: Option<Vec<String>>,
    pub release_date: Option<String>,
    pub cover_url: Option<String>,
    pub review_score: Option<i64>,
    pub review_summary: Option<String>,
}

/// Preview of a rematch from the fetched details and reviews.
pub fn rematch_preview(steam_app_id: i64, d: SteamAppDetails, reviews: Option<SteamReviews>) -> (r: RematchResult)
    ensures
        r.steam_app_id == steam_app_id,
        r.title == d.name,
        r.summary == d.description,
        r.genres == d.genres,
        r.developers == d.developers,
        r.publishers == d.publishers,
        r.release_date == d.release_date,
        r.cover_url == d.header_image,
        r.review_score == match reviews {
            Some(v) => Some(v.score),
            None => None,
        },
        r.review_summary == match reviews {
            Some(v) => Some(v.summary),
            None => None,
        },
{
    let (review_score, review_summary) = match reviews {
        Some(v) => (Some(v.score), Some(v.summary)),
        None => (None, None),
    };
    RematchResult {
        steam_app_id,
        title: d.name,
        summary: d.description,
        genres: d.genres,
        developers: d.developers,
        publishers: d.publishers,
        release_date: d.release_date,
        cover_url: d.header_image,
        review_score,
        review_summary,
    }
}

/// Configuration as shown to the user.
pub struct ConfigResponse {
    pub paths: ConfigPathsResponse,
    pub server: ConfigServerResponse,
}

pub struct ConfigPathsResponse {
    pub game_library: String,
    pub cache: String,
    pub game_library_exists: bool,
    pub cache_exists: bool,
}

pub struct ConfigServerResponse {
    pub port: u16,
    pub auto_open_browser: bool,
    pub bind_address: String,
}

/// The configuration as shown: the paths as written (an empty cache shown as
/// `./cache`), and whether the resolved directories exist; an empty library
/// path never counts as existing.
pub fn config_response(cfg: &AppConfig, library_is_dir: bool, cache_is_dir: bool) -> (r: ConfigResponse)
    ensures
        r.paths.game_library@ == cfg.paths.game_library@,
        cfg.paths.cache@.len() == 0 ==> r.paths.cache@ == "./cache"@,
        cfg.paths.cache@.len() > 0 ==> r.paths.cache@ == cfg.paths.cache@,
        r.paths.game_library_exists == (cfg.paths.game_library@.len() > 0 && library_is_dir),
        r.paths.cache_exists == cache_is_dir,
        r.server.port == cfg.server.port,
        r.server.auto_open_browser == cfg.server.auto_open_browser,
        r.server.bind_address == cfg.server.bind_address,
{
    let library_empty = cfg.paths.game_library.as_str().unicode_len() == 0;
    let cache = if cfg.paths.cache.as_str().unicode_len() == 0 {
        String::from_str("./cache")
    } else {
        cfg.paths.cache.clone()
    };
    ConfigResponse {
        paths: ConfigPathsResponse {
            game_library: cfg.paths.game_library.clone(),
            cache,
            game_library_exists: !library_empty && library_is_dir,
            cache_exists: cache_is_dir,
        },
        server: ConfigServerResponse {
            port: cfg.server.port,
            auto_open_browser: cfg.server.auto_open_browser,
            bind_address: cfg.server.bind_address.clone(),
        },
    }
}

/// A change of configuration requested by the user.
pub struct ConfigUpdateRequest {
    pub game_library: String,
    pub cache: String,
    pub port: u16,
    pub auto_open_browser: bool,
}

/// Answer to a configuration change.
pub struct ConfigUpdateResponse {
    pub success: bool,
    pub restart_required: bool,
    pub message: String,
}

/// Why a configuration change was refused.
pub enum ConfigUpdateError {
    /// Ports below this are reserved.
    PortOutOfRange,
}

/// Lowest port a user may choose.
pub const MIN_USER_PORT: u16 = 1024;

/// Builds the configuration to save from a change, given the current
/// configuration when it could be loaded and the library path in canonical
/// form. Refused for a reserved port; a restart is needed when the port
/// differs from the current one.
pub fn apply_config_update(current: &Option<AppConfig>, req: ConfigUpdateRequest, library: String) -> (r: Result<
    (AppConfig, ConfigUpdateResponse),
    ConfigUpdateError,
>)
    ensures
        req.port < MIN_USER_PORT <==> r is Err,
        r matches Ok(p) ==> {
            let (c, resp) = p;
            let restart = current is Some && current->0.server.port != req.port;
            &&& c.paths.game_library == library
            &&& c.paths.cache == req.cache
            &&& c.server.port == req.port
            &&& c.server.auto_open_browser == req.auto_open_browser
            &&& (current is Some ==> c.paths.database == current->0.paths.database
                && c.server.bind_address == current->0.server.bind_address)
            &&& (current is None ==> c.paths.database@ == DEFAULT_DATABASE@
                && c.server.bind_address@ == DEFAULT_BIND_ADDRESS@)
            &&& resp.success
            &&& resp.restart_required == restart
            &&& resp.message@ == if restart {
                "Configuration saved. Restart required for port change."@
            } else {
                "Configuration saved successfully."@
            }
        },
{
    if req.port < MIN_USER_PORT {
        return Err(ConfigUpdateError::PortOutOfRange);
    }
    let (database, bind_address, restart_required) = match current {
        Some(c) => (c.paths.database.clone(), c.server.bind_address.clone(), c.server.port != req.port),
        None => (String::from_str(DEFAULT_DATABASE), String::from_str(DEFAULT_BIND_ADDRESS), false),
    };
    let message = if restart_required {
        String::from_str("Configuration saved. Restart required for port change.")
    } else {
        String::from_str("Configuration saved successfully.")
    };
    let cfg = AppConfig {
        paths: PathsConfig { game_library: library, database, cache: req.cache },
        server: ServerConfig { port: req.port, auto_open_browser: req.auto_open_browser, bind_address },
    };
    Ok((cfg, ConfigUpdateResponse { success: true, restart_required, message }))
}

/// Whether the game library still has to be set up.
pub struct ConfigStatusResponse {
    pub needs_setup: bool,
    pub game_library_configured: bool,
    pub game_library_path: String,
}

/// Setup status from the configured library path as written, the resolved
/// path and whether it is a directory; a configuration that could not be
/// loaded (`None`) always needs setup.
pub fn config_status(loaded: Option<(String, String, bool)>) -> (r: ConfigStatusResponse)
    ensures
        loaded is None ==> r.needs_setup && !r.game_library_configured && r.game_library_path@.len() == 0,
        loaded matches Some(l) ==> {
            let (written, resolved, is_dir) = l;
            &&& r.needs_setup == (written@.len() == 0 || written@ == "."@ || !is_dir)
            &&& r.game_library_configured == !r.needs_setup
            &&& r.game_library_path == resolved
        },
{
    match loaded {
        None => ConfigStatusResponse {
            needs_setup: true,
            game_library_configured: false,
            game_library_path: String::new(),
        },
        Some(l) => {
            let (written, resolved, is_dir) = l;
            let needs_setup = written.as_str().unicode_len() == 0 || crate::text::text_equals(written.as_str(), ".")
                || !is_dir;
            ConfigStatusResponse { needs_setup, game_library_configured: !needs_setup, game_library_path: resolved }
        },
    }
}


/// `path` is `dir` itself or lies below it, comparing whole path components.
pub open spec fn within_dir(dir: Seq<char>, path: Seq<char>) -> bool {
    ||| path == dir
    ||| (dir.len() > 0 && dir.last() == '/' && has_prefix(path, dir))
    ||| has_prefix(path, dir + "/"@)
}

/// Whether the canonical `path` lies inside the canonical directory `dir`;
/// guards file serving against paths that lead out of the library.
pub fn is_within_dir(dir: &str, path: &str) -> (r: bool)
    ensures
        r == within_dir(dir@, path@),
{
    if text_equals(path, dir) {
        return true;
    }
    let n = dir.unicode_len();
    if n > 0 && dir.get_char(n - 1) == '/' && starts_with_text(path, dir) {
        return true;
    }
    let mut with_sep = String::from_str(dir);
    with_sep.append("/");
    starts_with_text(path, with_sep.as_str())
}

/// A request is allowed when no API key is configured (absent or empty);
/// otherwise its Authorization header must be the key, alone or after
/// `Bearer `.
pub open spec fn authorized(api_key: Option<Seq<char>>, header: Option<Seq<char>>) -> bool {
    match api_key {
        None => true,
        Some(k) => k.len() == 0 || (header is Some && (header->0 == "Bearer "@ + k || header->0 == k)),
    }
}

/// Checks a request against the configured API key.
pub fn is_authorized(api_key: &Option<String>, header: &Option<String>) -> (r: bool)
    ensures
        r == authorized(
            match api_key {
                Some(k) => Some(k@),
                None => None,
            },
            match header {
                Some(h) => Some(h@),
                None => None,
            },
        ),
{
    match api_key {
        None => true,
        Some(k) => {
            if k.as_str().unicode_len() == 0 {
                return true;
            }
            match header {
                None => false,
                Some(h) => {
                    let mut bearer = String::from_str("Bearer ");
                    bearer.append(k.as_str());
                    text_equals(h.as_str(), bearer.as_str()) || text_equals(h.as_str(), k.as_str())
                },
            }
        },
    }
}


/// Why confirming a rematch failed.
#[derive(Clone, Copy, Debug, PartialEq, Eq, Structural)]
pub enum RematchError {
    /// The input is neither a catalogue id nor a store URL.
    InvalidInput,
    GameNotFound,
    Database,
    DetailsUnavailable,
    UpdateFailed,
    NotFoundAfterUpdate,
    /// The driver reported an event that does not fit the current step.
    OutOfOrder,
}

/// Result of reading an entry from the store.
#[derive(Clone, Copy, Debug, PartialEq, Eq, Structural)]
pub enum LoadResult {
    Found,
    Missing,
    Failed,
}

/// Where the confirmation of a rematch stands.
#[derive(Clone, Copy, Debug, PartialEq, Eq, Structural)]
pub enum RematchState {
    LoadingGame { app_id: i64 },
    FetchingDetails { app_id: i64 },
    FetchingReviews { app_id: i64 },
    WritingDetails { app_id: i64, has_reviews: bool },
    WritingReviews,
    CachingImages,
    WritingImages,
    Reloading,
    SavingSidecar,
    Done,
}

/// What the driver reports after performing an action.
#[derive(Clone, Copy, Debug)]
pub enum RematchEvent {
    GameLoaded(LoadResult),
    DetailsFetched(bool),
    ReviewsFetched(bool),
    DetailsWritten(bool),
    ImagesCached(bool),
    Written,
    Reloaded(LoadResult),
    SidecarSaved,
}

/// What the driver must do next.
#[derive(Clone, Copy, Debug, PartialEq, Eq, Structural)]
pub enum RematchAction {
    LoadGame,
    FetchDetails { app_id: i64 },
    /// Wait `delay_ms`, then fetch the reviews of `app_id`.
    FetchReviews { app_id: i64, delay_ms: u64 },
    /// Write the fetched details with full confidence.
    WriteDetails { app_id: i64, confidence: u32 },
    WriteReviews,
    CacheImages,
    WriteImages,
    ReloadGame,
    /// Mirror the reloaded entry into its sidecar, marked as a person's edit.
    SaveSidecar,
    /// Answer with the reloaded entry.
    Reply,
    Fail(RematchError),
}

/// First step of a confirmed rematch, from what the person typed.
pub open spec fn rematch_start_spec(input: Seq<char>) -> (RematchState, RematchAction) {
    match steam_input_id(input) {
        None => (RematchState::Done, RematchAction::Fail(RematchError::InvalidInput)),
        Some(app_id) => (RematchState::LoadingGame { app_id }, RematchAction::LoadGame),
    }
}

/// Starts the confirmation of a rematch.
pub fn rematch_start(input: &str) -> (r: (RematchState, RematchAction))
    ensures
        r == rematch_start_spec(input@),
{
    match parse_steam_input(input) {
        None => (RematchState::Done, RematchAction::Fail(RematchError::InvalidInput)),
        Some(app_id) => (RematchState::LoadingGame { app_id }, RematchAction::LoadGame),
    }
}

/// Failure for a store read that did not find or could not read the entry.
pub open spec fn load_failure(l: LoadResult, missing: RematchError) -> RematchError {
    if l == LoadResult::Missing {
        missing
    } else {
        RematchError::Database
    }
}

/// The confirmation sequence: load the entry; fetch the details (fail
/// without them); pause and fetch the reviews; write the details with full
/// confidence (fail when that fails); record reviews if any; cache images and
/// record them if any; reload the entry; mirror it into its sidecar; reply.
pub open spec fn rematch_next(state: RematchState, event: RematchEvent) -> (RematchState, RematchAction) {
    let out_of_order = (RematchState::Done, RematchAction::Fail(RematchError::OutOfOrder));
    match (state, event) {
        (RematchState::LoadingGame { app_id }, RematchEvent::GameLoaded(l)) => if l == LoadResult::Found {
            (RematchState::FetchingDetails { app_id }, RematchAction::FetchDetails { app_id })
        } else {
            (RematchState::Done, RematchAction::Fail(load_failure(l, RematchError::GameNotFound)))
        },
        (RematchState::FetchingDetails { app_id }, RematchEvent::DetailsFetched(ok)) => if ok {
            (
                RematchState::FetchingReviews { app_id },
                RematchAction::FetchReviews { app_id, delay_ms: STEAM_API_RATE_LIMIT_MS },
            )
        } else {
            (RematchState::Done, RematchAction::Fail(RematchError::DetailsUnavailable))
        },
        (RematchState::FetchingReviews { app_id }, RematchEvent::ReviewsFetched(has_reviews)) => (
            RematchState::WritingDetails { app_id, has_reviews },
            RematchAction::WriteDetails { app_id, confidence: SIMILARITY_SCALE },
        ),
        (RematchState::WritingDetails { has_reviews, .. }, RematchEvent::DetailsWritten(ok)) => if !ok {
            (RematchState::Done, RematchAction::Fail(RematchError::UpdateFailed))
        } else if has_reviews {
            (RematchState::WritingReviews, RematchAction::WriteReviews)
        } else {
            (RematchState::CachingImages, RematchAction::CacheImages)
        },
        (RematchState::WritingReviews, RematchEvent::Written) => (
            RematchState::CachingImages,
            RematchAction::CacheImages,
        ),
        (RematchState::CachingImages, RematchEvent::ImagesCached(any)) => if any {
            (RematchState::WritingImages, RematchAction::WriteImages)
        } else {
            (RematchState::Reloading, RematchAction::ReloadGame)
        },
        (RematchState::WritingImages, RematchEvent::Written) => (RematchState::Reloading, RematchAction::ReloadGame),
        (RematchState::Reloading, RematchEvent::Reloaded(l)) => if l == LoadResult::Found {
            (RematchState::SavingSidecar, RematchAction::SaveSidecar)
        } else {
            (RematchState::Done, RematchAction::Fail(load_failure(l, RematchError::NotFoundAfterUpdate)))
        },
        (RematchState::SavingSidecar, RematchEvent::SidecarSaved) => (RematchState::Done, RematchAction::Reply),
        _ => out_of_order,
    }
}

fn load_error(l: LoadResult, missing: RematchError) -> (r: RematchError)
    ensures
        r == load_failure(l, missing),
{
    match l {
        LoadResult::Missing => missing,
        _ => RematchError::Database,
    }
}

/// One step of the confirmation of a rematch.
pub fn rematch_step(state: RematchState, event: RematchEvent) -> (r: (RematchState, RematchAction))
    ensures
        r == rematch_next(state, event),
{
    let out_of_order = (RematchState::Done, RematchAction::Fail(RematchError::OutOfOrder));
    match state {
        RematchState::LoadingGame { app_id } => match event {
            RematchEvent::GameLoaded(l) => match l {
                LoadResult::Found => (RematchState::FetchingDetails { app_id }, RematchAction::FetchDetails { app_id }),
                _ => (RematchState::Done, RematchAction::Fail(load_error(l, RematchError::GameNotFound))),
            },
            _ => out_of_order,
        },
        RematchState::FetchingDetails { app_id } => match event {
            RematchEvent::DetailsFetched(ok) => if ok {
                (
                    RematchState::FetchingReviews { app_id },
                    RematchAction::FetchReviews { app_id, delay_ms: STEAM_API_RATE_LIMIT_MS },
                )
            } else {
                (RematchState::Done, RematchAction::Fail(RematchError::DetailsUnavailable))
            },
            _ => out_of_order,
        },
        RematchState::FetchingReviews { app_id } => match event {
            RematchEvent::ReviewsFetched(has_reviews) => (
                RematchState::WritingDetails { app_id, has_reviews },
                RematchAction::WriteDetails { app_id, confidence: SIMILARITY_SCALE },
            ),
            _ => out_of_order,
        },
        RematchState::WritingDetails { has_reviews, .. } => match event {
            RematchEvent::DetailsWritten(ok) => if !ok {
                (RematchState::Done, RematchAction::Fail(RematchError::UpdateFailed))
            } else if has_reviews {
                (RematchState::WritingReviews, RematchAction::WriteReviews)
            } else {
                (RematchState::CachingImages, RematchAction::CacheImages)
            },
            _ => out_of_order,
        },
        RematchState::WritingReviews => match event {
            RematchEvent::Written => (RematchState::CachingImages, RematchAction::CacheImages),
            _ => out_of_order,
        },
        RematchState::CachingImages => match event {
            RematchEvent::ImagesCached(any) => if any {
                (RematchState::WritingImages, RematchAction::WriteImages)
            } else {
                (RematchState::Reloading, RematchAction::ReloadGame)
            },
            _ => out_of_order,
        },
        RematchState::WritingImages => match event {
            RematchEvent::Written => (RematchState::Reloading, RematchAction::ReloadGame),
            _ => out_of_order,
        },
        RematchState::Reloading => match event {
            RematchEvent::Reloaded(l) => match l {
                LoadResult::Found => (RematchState::SavingSidecar, RematchAction::SaveSidecar),
                _ => (RematchState::Done, RematchAction::Fail(load_error(l, RematchError::NotFoundAfterUpdate))),
            },
            _ => out_of_order,
        },
        RematchState::SavingSidecar => match event {
            RematchEvent::SidecarSaved => (RematchState::Done, RematchAction::Reply),
            _ => out_of_order,
        },
        RematchState::Done => out_of_order,
    }
}

} // verus!
