//! Per-folder storage and the sync reconciler: where cached images and the
//! JSON sidecar live, what an export writes, and when an import may overwrite
//! the store.
use vstd::prelude::*;
use vstd::multiset::Multiset;
use vstd::string::*;

use crate::handlers::UpdateGameRequest;
use crate::models::Game;

verus! {

/// Private directory kept inside each game folder.
pub const GAMEVAULT_DIR: &'static str = ".gamevault";

/// Save backups, inside the private directory.
pub const SAVES_DIR: &'static str = "saves";

/// Version of the sidecar layout written by exports.
pub const SCHEMA_VERSION: u32 = 2;

/// `name` appended to the directory `dir` with a `/` between them, unless
/// `dir` is empty or already ends with one.
pub open spec fn path_join(dir: Seq<char>, name: Seq<char>) -> Seq<char> {
    if dir.len() == 0 {
        name
    } else if dir.last() == '/' {
        dir + name
    } else {
        dir + "/"@ + name
    }
}

/// Appends `name` to the directory `dir`.
pub fn join_path(dir: &str, name: &str) -> (r: String)
    ensures
        r@ == path_join(dir@, name@),
{
    let n = dir.unicode_len();
    if n == 0 {
        return String::from_str(name);
    }
    let mut r = String::from_str(dir);
    if dir.get_char(n - 1) != '/' {
        r.append("/");
    }
    r.append(name);
    r
}

/// The private directory of a game folder.
pub open spec fn gamevault_dir_of(folder: Seq<char>) -> Seq<char> {
    path_join(folder, GAMEVAULT_DIR@)
}

/// Path of the private directory of a game folder.
pub fn get_gamevault_dir(game_folder: &str) -> (r: String)
    ensures
        r@ == gamevault_dir_of(game_folder@),
{
    join_path(game_folder, GAMEVAULT_DIR)
}

/// Path of the save-backup directory of a game folder.
pub fn get_saves_dir(game_folder: &str) -> (r: String)
    ensures
        r@ == path_join(gamevault_dir_of(game_folder@), SAVES_DIR@),
{
    let dir = get_gamevault_dir(game_folder);
    join_path(dir.as_str(), SAVES_DIR)
}

/// Path where the cover image of a game is cached.
pub fn get_cover_path(game_folder: &str) -> (r: String)
    ensures
        r@ == path_join(gamevault_dir_of(game_folder@), "cover.jpg"@),
{
    let dir = get_gamevault_dir(game_folder);
    join_path(dir.as_str(), "cover.jpg")
}

/// Path where the background image of a game is cached.
pub fn get_background_path(game_folder: &str) -> (r: String)
    ensures
        r@ == path_join(gamevault_dir_of(game_folder@), "background.jpg"@),
{
    let dir = get_gamevault_dir(game_folder);
    join_path(dir.as_str(), "background.jpg")
}

/// Path of the metadata sidecar of a game.
pub fn get_metadata_path(game_folder: &str) -> (r: String)
    ensures
        r@ == path_join(gamevault_dir_of(game_folder@), "metadata.json"@),
{
    let dir = get_gamevault_dir(game_folder);
    join_path(dir.as_str(), "metadata.json")
}

/// An instant: whole seconds since the Unix epoch (UTC) and the nanoseconds
/// past that second.
pub struct Timestamp {
    pub secs: i64,
    pub nanos: u32,
}

/// `a` is strictly later than `b`.
pub open spec fn is_after(a: Timestamp, b: Timestamp) -> bool {
    a.secs > b.secs || (a.secs == b.secs && a.nanos > b.nanos)
}

/// The instant that `chrono` reads from an RFC 3339 text, as seconds and
/// nanoseconds since the epoch; none when the text is not RFC 3339.
pub uninterp spec fn rfc3339_instant(s: Seq<char>) -> Option<(i64, u32)>;

/// Relies on `chrono::DateTime::parse_from_rfc3339`, with `timestamp` and
/// `timestamp_subsec_nanos` of the parsed value.
#[verifier::external_body]
fn parse_rfc3339(s: &str) -> (r: Option<(i64, u32)>)
    ensures
        r == rfc3339_instant(s@),
{
    match chrono::DateTime::parse_from_rfc3339(s) {
        Ok(dt) => Some((dt.timestamp(), dt.timestamp_subsec_nanos())),
        Err(_) => None,
    }
}

/// The instant written in an RFC 3339 text.
pub open spec fn timestamp_of(s: Seq<char>) -> Option<Timestamp> {
    match rfc3339_instant(s) {
        Some(p) => Some(Timestamp { secs: p.0, nanos: p.1 }),
        None => None,
    }
}

/// Reads an RFC 3339 text as an instant.
pub fn parse_timestamp(s: &str) -> (r: Option<Timestamp>)
    ensures
        r == timestamp_of(s@),
{
    match parse_rfc3339(s) {
        Some(p) => Some(Timestamp { secs: p.0, nanos: p.1 }),
        None => None,
    }
}

/// Import decision: skip exactly when both instants are known and the
/// sidecar's is not strictly after the store's.
pub open spec fn skips_import(sidecar: Option<Timestamp>, store: Option<Timestamp>) -> bool {
    sidecar is Some && store is Some && !is_after(sidecar->0, store->0)
}

/// Decides whether a sidecar import is skipped.
pub fn should_skip_import(sidecar: Option<Timestamp>, store: Option<Timestamp>) -> (r: bool)
    ensures
        r == skips_import(sidecar, store),
{
    match (sidecar, store) {
        (Some(a), Some(b)) => !(a.secs > b.secs || (a.secs == b.secs && a.nanos > b.nanos)),
        _ => false,
    }
}

/// Import skip rule: a sidecar exported at `t1` is skipped against a store
/// entry updated at `t2` when `t1 <= t2`, and imported when `t1 > t2`.
pub proof fn lemma_import_skip_rule(t1: Timestamp, t2: Timestamp)
    ensures
        !is_after(t1, t2) ==> skips_import(Some(t1), Some(t2)),
        is_after(t1, t2) ==> !skips_import(Some(t1), Some(t2)),
        !skips_import(None, Some(t2)),
        !skips_import(Some(t1), None),
{
}


/// Play-time estimates in minutes.
pub struct HltbData {
    pub main_mins: Option<i64>,
    pub extra_mins: Option<i64>,
    pub completionist_mins: Option<i64>,
}

/// What an export writes into the sidecar.
pub struct ExportedMetadata {
    pub schema_version: u32,
    pub title: String,
    pub steam_app_id: Option<i64>,
    pub summary: Option<String>,
    pub genres: Option<Vec<String>>,
    pub developers: Option<Vec<String>>,
    pub publishers: Option<Vec<String>>,
    pub release_date: Option<String>,
    pub review_score: Option<i64>,
    pub review_summary: Option<String>,
    pub hltb: Option<HltbData>,
    pub exported_at: String,
    pub manually_edited: bool,
}

/// What an import reads back from the sidecar.
pub struct ImportedMetadata {
    pub title: String,
    pub steam_app_id: Option<i64>,
    pub summary: Option<String>,
    pub genres: Option<Vec<String>>,
    pub developers: Option<Vec<String>>,
    pub publishers: Option<Vec<String>>,
    pub release_date: Option<String>,
    pub review_score: Option<i64>,
    pub review_summary: Option<String>,
    pub hltb: Option<HltbData>,
    pub exported_at: String,
}

/// Why a sidecar could not be read.
pub enum SidecarError {
    /// There is no sidecar file.
    NotFound,
    /// The file exists but could not be read or parsed.
    Unreadable(String),
}

/// Outcome of importing one sidecar.
pub enum ImportResult {
    Imported(ImportedMetadata),
    Skipped { reason: String },
    NotFound,
    Failed { error: String },
}

/// Why an export was not written.
pub enum ExportError {
    /// The game folder cannot be written; it holds the folder's path.
    NotWritable(String),
}

/// The text of the skip reason, citing the store's and the sidecar's
/// timestamps.
pub open spec fn skip_reason(store: Seq<char>, sidecar: Seq<char>) -> Seq<char> {
    "Database is newer ("@ + store + " vs "@ + sidecar + ")"@
}

/// Reconciles a sidecar read with the store entry's `updated_at`: a missing
/// sidecar is `NotFound`, an unreadable one `Failed`; otherwise the import is
/// `Skipped` exactly when `skips_import` holds of the two timestamps, and the
/// sidecar's content is `Imported` in every other case.
pub fn import_game_metadata(read: Result<ImportedMetadata, SidecarError>, store_updated_at: &str) -> (r: ImportResult)
    ensures
        read matches Err(SidecarError::NotFound) ==> r is NotFound,
        read matches Err(SidecarError::Unreadable(e)) ==> r matches ImportResult::Failed { error } && error == e,
        read matches Ok(m) ==> {
            if skips_import(timestamp_of(m.exported_at@), timestamp_of(store_updated_at@)) {
                r matches ImportResult::Skipped { reason } && reason@ == skip_reason(store_updated_at@, m.exported_at@)
            } else {
                r == ImportResult::Imported(m)
            }
        },
{
    match read {
        Err(SidecarError::NotFound) => ImportResult::NotFound,
        Err(SidecarError::Unreadable(e)) => ImportResult::Failed { error: e },
        Ok(m) => {
            let sidecar_time = parse_timestamp(m.exported_at.as_str());
            let store_time = parse_timestamp(store_updated_at);
            if should_skip_import(sidecar_time, store_time) {
                let mut reason = String::from_str("Database is newer (");
                reason.append(store_updated_at);
                reason.append(" vs ");
                reason.append(m.exported_at.as_str());
                reason.append(")");
                ImportResult::Skipped { reason }
            } else {
                ImportResult::Imported(m)
            }
        },
    }
}

/// The list of strings that `serde_json` reads from a JSON text, if it holds
/// an array of strings.
pub uninterp spec fn parsed_string_list(s: Seq<char>) -> Option<Seq<Seq<char>>>;

/// The JSON text that `serde_json` writes for a list of strings.
pub uninterp spec fn json_string_list(v: Seq<Seq<char>>) -> Seq<char>;

/// Relies on `serde_json::from_str` at `Vec<String>`: the array of strings
/// written in the text, or an error.
#[verifier::external_body]
fn parse_string_list(s: &str) -> (r: Option<Vec<String>>)
    ensures
        r is Some <==> parsed_string_list(s@) is Some,
        r is Some ==> r->0.deep_view() == parsed_string_list(s@)->0,
{
    match serde_json::from_str::<Vec<String>>(s) {
        Ok(v) => Some(v),
        Err(_) => None,
    }
}

/// Relies on `serde_json::to_string` at `Vec<String>`: a JSON array of the
/// strings (it cannot fail on such a value).
#[verifier::external_body]
fn string_list_json(v: &Vec<String>) -> (r: String)
    ensures
        r@ == json_string_list(v.deep_view()),
{
    serde_json::to_string(v).unwrap_or_default()
}

/// A stored JSON list read back, when present and well formed.
pub open spec fn stored_list(s: Option<String>) -> Option<Seq<Seq<char>>> {
    match s {
        Some(t) => parsed_string_list(t@),
        None => None,
    }
}

/// Reads a stored JSON list; absent or malformed text gives `None`.
pub fn read_stored_list(s: &Option<String>) -> (r: Option<Vec<String>>)
    ensures
        r is Some <==> stored_list(*s) is Some,
        r is Some ==> r->0.deep_view() == stored_list(*s)->0,
{
    match s {
        Some(t) => parse_string_list(t.as_str()),
        None => None,
    }
}

/// The JSON text to store for a list, when there is one.
pub open spec fn list_text(v: Option<Vec<String>>) -> Option<Seq<char>> {
    match v {
        Some(l) => Some(json_string_list(l.deep_view())),
        None => None,
    }
}

/// Writes a list as JSON text for the store.
pub fn list_to_stored(v: &Option<Vec<String>>) -> (r: Option<String>)
    ensures
        r is Some <==> v is Some,
        r is Some ==> Some(r->0@) == list_text(*v),
{
    match v {
        Some(l) => Some(string_list_json(l)),
        None => None,
    }
}

fn copy_text(o: &Option<String>) -> (r: Option<String>)
    ensures
        r == *o,
{
    match o {
        Some(s) => Some(s.clone()),
        None => None,
    }
}

/// The entry carries the "manually edited" mark.
pub open spec fn marked_edited(game: Game) -> bool {
    game.manually_edited == Some(1i64)
}

/// Whether a person has edited the entry.
pub fn is_manually_edited(game: &Game) -> (r: bool)
    ensures
        r == marked_edited(*game),
{
    match game.manually_edited {
        Some(v) => v == 1,
        None => false,
    }
}

/// `m` is the sidecar record of `game`, exported at `exported_at` with the
/// given "manually edited" flag.
pub open spec fn is_export_of(m: ExportedMetadata, game: Game, exported_at: String, manually_edited: bool) -> bool {
    &&& m.schema_version == SCHEMA_VERSION
    &&& m.title == game.title
    &&& m.steam_app_id == game.steam_app_id
    &&& m.summary == game.summary
    &&& (m.genres is Some <==> stored_list(game.genres) is Some)
    &&& (m.genres is Some ==> m.genres->0.deep_view() == stored_list(game.genres)->0)
    &&& (m.developers is Some <==> stored_list(game.developers) is Some)
    &&& (m.developers is Some ==> m.developers->0.deep_view() == stored_list(game.developers)->0)
    &&& (m.publishers is Some <==> stored_list(game.publishers) is Some)
    &&& (m.publishers is Some ==> m.publishers->0.deep_view() == stored_list(game.publishers)->0)
    &&& m.release_date == game.release_date
    &&& m.review_score == game.review_score
    &&& m.review_summary == game.review_summary
    &&& (m.hltb is Some <==> (game.hltb_main_mins is Some || game.hltb_extra_mins is Some
        || game.hltb_completionist_mins is Some))
    &&& (m.hltb is Some ==> m.hltb->0 == HltbData {
        main_mins: game.hltb_main_mins,
        extra_mins: game.hltb_extra_mins,
        completionist_mins: game.hltb_completionist_mins,
    })
    &&& m.exported_at == exported_at
    &&& m.manually_edited == manually_edited
}

/// Builds the sidecar record of an entry.
pub fn build_exported_metadata(game: &Game, exported_at: String, manually_edited: bool) -> (r: ExportedMetadata)
    ensures
        is_export_of(r, *game, exported_at, manually_edited),
{
    let hltb = if game.hltb_main_mins.is_some() || game.hltb_extra_mins.is_some()
        || game.hltb_completionist_mins.is_some() {
        Some(
            HltbData {
                main_mins: game.hltb_main_mins,
                extra_mins: game.hltb_extra_mins,
                completionist_mins: game.hltb_completionist_mins,
            },
        )
    } else {
        None
    };
    ExportedMetadata {
        schema_version: SCHEMA_VERSION,
        title: game.title.clone(),
        steam_app_id: game.steam_app_id,
        summary: copy_text(&game.summary),
        genres: read_stored_list(&game.genres),
        developers: read_stored_list(&game.developers),
        publishers: read_stored_list(&game.publishers),
        release_date: copy_text(&game.release_date),
        review_score: game.review_score,
        review_summary: copy_text(&game.review_summary),
        hltb,
        exported_at,
        manually_edited,
    }
}

/// Export of one entry: refused when its folder is not writable, otherwise
/// the sidecar record, flagged as manually edited when the entry is.
pub fn export_game_metadata(game: &Game, folder_writable: bool, exported_at: String) -> (r: Result<ExportedMetadata, ExportError>)
    ensures
        !folder_writable <==> r is Err,
        r matches Err(ExportError::NotWritable(p)) ==> p == game.folder_path,
        r matches Ok(m) ==> is_export_of(m, *game, exported_at, marked_edited(*game)),
{
    if !folder_writable {
        return Err(ExportError::NotWritable(game.folder_path.clone()));
    }
    let edited = is_manually_edited(game);
    Ok(build_exported_metadata(game, exported_at, edited))
}

/// Sidecar write after a person's edit: skipped (`None`) when the folder is
/// not writable, otherwise the sidecar record, always flagged as manually
/// edited.
pub fn save_game_metadata(game: &Game, folder_writable: bool, exported_at: String) -> (r: Option<ExportedMetadata>)
    ensures
        r is Some <==> folder_writable,
        r is Some ==> is_export_of(r->0, *game, exported_at, true),
{
    if !folder_writable {
        return None;
    }
    Some(build_exported_metadata(game, exported_at, true))
}


/// The new value where there is one, else the old.
pub open spec fn coalesce<T>(new: Option<T>, old: Option<T>) -> Option<T> {
    if new is Some {
        new
    } else {
        old
    }
}

/// `r` is the stored list text after merging the list `new` over the stored
/// text `old`.
pub open spec fn list_coalesced(r: Option<String>, new: Option<Vec<String>>, old: Option<String>) -> bool {
    &&& (r is Some <==> (new is Some || old is Some))
    &&& (new is Some ==> Some(r->0@) == list_text(new))
    &&& (new is None ==> r == old)
}

fn merge_list(new: &Option<Vec<String>>, old: Option<String>) -> (r: Option<String>)
    ensures
        list_coalesced(r, *new, old),
{
    match new {
        Some(_) => list_to_stored(new),
        None => old,
    }
}

/// `r` is `game` with the present fields of the sidecar `m` written over it;
/// the entry counts as matched once the sidecar names a catalogue id.
pub open spec fn is_import_into(r: Game, game: Game, m: ImportedMetadata) -> bool {
    let h = m.hltb;
    &&& r.steam_app_id == coalesce(m.steam_app_id, game.steam_app_id)
    &&& r.summary == coalesce(m.summary, game.summary)
    &&& list_coalesced(r.genres, m.genres, game.genres)
    &&& list_coalesced(r.developers, m.developers, game.developers)
    &&& list_coalesced(r.publishers, m.publishers, game.publishers)
    &&& r.release_date == coalesce(m.release_date, game.release_date)
    &&& r.review_score == coalesce(m.review_score, game.review_score)
    &&& r.review_summary == coalesce(m.review_summary, game.review_summary)
    &&& r.hltb_main_mins == coalesce(
        if h is Some { h->0.main_mins } else { None },
        game.hltb_main_mins,
    )
    &&& r.hltb_extra_mins == coalesce(
        if h is Some { h->0.extra_mins } else { None },
        game.hltb_extra_mins,
    )
    &&& r.hltb_completionist_mins == coalesce(
        if h is Some { h->0.completionist_mins } else { None },
        game.hltb_completionist_mins,
    )
    &&& (m.steam_app_id is Some ==> r.match_status@ == "matched"@)
    &&& (m.steam_app_id is None ==> r.match_status == game.match_status)
    &&& r.id == game.id
    &&& r.folder_path == game.folder_path
    &&& r.title == game.title
    &&& r.cover_url == game.cover_url
    &&& r.background_url == game.background_url
    &&& r.local_cover_path == game.local_cover_path
    &&& r.local_background_path == game.local_background_path
    &&& r.manually_edited == game.manually_edited
}

/// Field-level merge of an imported sidecar into a store entry.
pub fn apply_import(game: Game, m: ImportedMetadata) -> (r: Game)
    ensures
        is_import_into(r, game, m),
{
    let ghost g0 = game;
    let (main, extra, completionist) = match m.hltb {
        Some(h) => (h.main_mins, h.extra_mins, h.completionist_mins),
        None => (None, None, None),
    };
    let genres = merge_list(&m.genres, game.genres);
    let developers = merge_list(&m.developers, game.developers);
    let publishers = merge_list(&m.publishers, game.publishers);
    let match_status = if m.steam_app_id.is_some() {
        String::from_str("matched")
    } else {
        game.match_status
    };
    Game {
        steam_app_id: if m.steam_app_id.is_some() { m.steam_app_id } else { game.steam_app_id },
        summary: if m.summary.is_some() { m.summary } else { game.summary },
        genres,
        developers,
        publishers,
        release_date: if m.release_date.is_some() { m.release_date } else { game.release_date },
        review_score: if m.review_score.is_some() { m.review_score } else { game.review_score },
        review_summary: if m.review_summary.is_some() { m.review_summary } else { game.review_summary },
        hltb_main_mins: if main.is_some() { main } else { game.hltb_main_mins },
        hltb_extra_mins: if extra.is_some() { extra } else { game.hltb_extra_mins },
        hltb_completionist_mins: if completionist.is_some() { completionist } else { game.hltb_completionist_mins },
        match_status,
        ..game
    }
}

/// `r` is `game` after a person's edit `req`: present fields replace the
/// stored ones, and the entry is marked as manually edited.
pub open spec fn is_manual_edit_of(r: Game, game: Game, req: UpdateGameRequest) -> bool {
    &&& r.title == if req.title is Some { req.title->0 } else { game.title }
    &&& r.summary == coalesce(req.summary, game.summary)
    &&& list_coalesced(r.genres, req.genres, game.genres)
    &&& list_coalesced(r.developers, req.developers, game.developers)
    &&& list_coalesced(r.publishers, req.publishers, game.publishers)
    &&& r.release_date == coalesce(req.release_date, game.release_date)
    &&& r.review_score == coalesce(req.review_score, game.review_score)
    &&& r.manually_edited == Some(1i64)
    &&& r.id == game.id
    &&& r.folder_path == game.folder_path
    &&& r.steam_app_id == game.steam_app_id
    &&& r.local_cover_path == game.local_cover_path
    &&& r.local_background_path == game.local_background_path
}

/// Applies a person's edit to a store entry.
pub fn apply_manual_edit(game: Game, req: UpdateGameRequest) -> (r: Game)
    ensures
        is_manual_edit_of(r, game, req),
{
    let genres = merge_list(&req.genres, game.genres);
    let developers = merge_list(&req.developers, game.developers);
    let publishers = merge_list(&req.publishers, game.publishers);
    Game {
        title: match req.title {
            Some(t) => t,
            None => game.title,
        },
        summary: if req.summary.is_some() { req.summary } else { game.summary },
        genres,
        developers,
        publishers,
        release_date: if req.release_date.is_some() { req.release_date } else { game.release_date },
        review_score: if req.review_score.is_some() { req.review_score } else { game.review_score },
        manually_edited: Some(1),
        ..game
    }
}

/// A person's edit, whatever fields it changes, marks the entry as manually
/// edited, and every sidecar exported from the edited entry, by a plain
/// export or by the write that follows the edit, carries that mark.
pub proof fn lemma_manual_edit_marks_sidecar(
    before: Game,
    req: UpdateGameRequest,
    after: Game,
    exported: ExportedMetadata,
    saved: ExportedMetadata,
    exported_at: String,
)
    requires
        is_manual_edit_of(after, before, req),
        is_export_of(exported, after, exported_at, marked_edited(after)),
        is_export_of(saved, after, exported_at, true),
    ensures
        marked_edited(after),
        exported.manually_edited,
        saved.manually_edited,
{
}


/// One image to bring into the cache: where it comes from and where it goes.
pub struct ImageJob {
    pub url: String,
    pub dest: String,
}

/// The images to cache for one entry.
pub struct ImageCachePlan {
    pub cover: Option<ImageJob>,
    pub background: Option<ImageJob>,
}

/// A job for `url`, bound for `dest`, exactly when the folder is writable
/// and there is a URL.
pub open spec fn is_job_for(job: Option<ImageJob>, writable: bool, url: Option<String>, dest: Seq<char>) -> bool {
    &&& (job is Some <==> (writable && url is Some))
    &&& (job is Some ==> job->0.url == url->0 && job->0.dest@ == dest)
}

/// `p` plans the cache of a game folder: nothing when it is not writable,
/// otherwise one job per image URL given.
pub open spec fn is_plan_for(
    p: ImageCachePlan,
    folder: Seq<char>,
    writable: bool,
    cover_url: Option<String>,
    background_url: Option<String>,
) -> bool {
    &&& is_job_for(p.cover, writable, cover_url, path_join(gamevault_dir_of(folder), "cover.jpg"@))
    &&& is_job_for(p.background, writable, background_url, path_join(gamevault_dir_of(folder), "background.jpg"@))
}

/// Plans the image cache of a game folder.
pub fn plan_image_cache(
    game_folder: &str,
    folder_writable: bool,
    cover_url: Option<String>,
    background_url: Option<String>,
) -> (r: ImageCachePlan)
    ensures
        is_plan_for(r, game_folder@, folder_writable, cover_url, background_url),
{
    if !folder_writable {
        return ImageCachePlan { cover: None, background: None };
    }
    let cover = match cover_url {
        Some(url) => Some(ImageJob { url, dest: get_cover_path(game_folder) }),
        None => None,
    };
    let background = match background_url {
        Some(url) => Some(ImageJob { url, dest: get_background_path(game_folder) }),
        None => None,
    };
    ImageCachePlan { cover, background }
}

/// Whether an image must be downloaded: only when its file is not there yet.
pub fn needs_download(dest_exists: bool) -> (r: bool)
    ensures
        r == !dest_exists,
{
    !dest_exists
}

/// Network requests that a job makes: one, unless there is no job or its
/// file is already there.
pub open spec fn job_requests(job: Option<ImageJob>, dest_exists: bool) -> nat {
    if job is Some && !dest_exists {
        1
    } else {
        0
    }
}

/// Local path that a job yields: its destination when the file was already
/// there or the download succeeded.
pub open spec fn job_result(job: Option<ImageJob>, dest_exists: bool, downloaded: bool) -> Option<Seq<char>> {
    if job is Some && (dest_exists || downloaded) {
        Some(job->0.dest@)
    } else {
        None
    }
}

fn job_path(job: &Option<ImageJob>, dest_exists: bool, downloaded: bool) -> (r: Option<String>)
    ensures
        r is Some <==> job_result(*job, dest_exists, downloaded) is Some,
        r is Some ==> r->0@ == job_result(*job, dest_exists, downloaded)->0,
{
    match job {
        Some(j) => {
            if dest_exists || downloaded {
                Some(j.dest.clone())
            } else {
                None
            }
        },
        None => None,
    }
}

/// Local paths of the cached cover and background, from whether each file
/// was already there and whether its download succeeded; the two images are
/// independent.
pub fn cache_outcome(
    plan: &ImageCachePlan,
    cover_exists: bool,
    cover_downloaded: bool,
    background_exists: bool,
    background_downloaded: bool,
) -> (r: (Option<String>, Option<String>))
    ensures
        r.0 is Some <==> job_result(plan.cover, cover_exists, cover_downloaded) is Some,
        r.0 is Some ==> (r.0)->0@ == job_result(plan.cover, cover_exists, cover_downloaded)->0,
        r.1 is Some <==> job_result(plan.background, background_exists, background_downloaded) is Some,
        r.1 is Some ==> (r.1)->0@ == job_result(plan.background, background_exists, background_downloaded)->0,
{
    (job_path(&plan.cover, cover_exists, cover_downloaded), job_path(&plan.background, background_exists, background_downloaded))
}

/// Caching twice is idempotent: once a first run has cached every image it
/// was given, a second run with the same folder and URLs makes no network
/// request and yields the same paths, whatever its downloads would do.
pub proof fn lemma_cache_twice_no_requests(
    first: ImageCachePlan,
    second: ImageCachePlan,
    folder: Seq<char>,
    writable: bool,
    cover_url: Option<String>,
    background_url: Option<String>,
    cover_exists: bool,
    cover_downloaded: bool,
    background_exists: bool,
    background_downloaded: bool,
    cover_downloaded_again: bool,
    background_downloaded_again: bool,
)
    requires
        is_plan_for(first, folder, writable, cover_url, background_url),
        is_plan_for(second, folder, writable, cover_url, background_url),
        first.cover is Some ==> job_result(first.cover, cover_exists, cover_downloaded) is Some,
        first.background is Some ==> job_result(first.background, background_exists, background_downloaded) is Some,
    ensures
        ({
            let cover_now = job_result(first.cover, cover_exists, cover_downloaded) is Some;
            let background_now = job_result(first.background, background_exists, background_downloaded) is Some;
            &&& job_requests(second.cover, cover_now) + job_requests(second.background, background_now) == 0
            &&& job_result(second.cover, cover_now, cover_downloaded_again)
                == job_result(first.cover, cover_exists, cover_downloaded)
            &&& job_result(second.background, background_now, background_downloaded_again)
                == job_result(first.background, background_exists, background_downloaded)
        }),
{
}


/// One save backup of a game.
pub struct BackupInfo {
    pub filename: String,
    pub path: String,
    pub size_bytes: i64,
    pub created_at: i64,
}


/// Newest first: creation times never increase along the list.
pub open spec fn newest_first(s: Seq<BackupInfo>) -> bool {
    forall|a: int, b: int| 0 <= a < b < s.len() ==> s[a].created_at >= s[b].created_at
}

/// Orders backups newest first; backups created at the same time keep their
/// order.
pub fn order_backups(backups: Vec<BackupInfo>) -> (r: Vec<BackupInfo>)
    ensures
        newest_first(r@),
        r@.to_multiset() == backups@.to_multiset(),
{
    broadcast use vstd::seq_lib::group_to_multiset_ensures;
    broadcast use vstd::multiset::group_multiset_axioms;

    let ghost initial = backups@;
    let mut rest = backups;
    let mut out: Vec<BackupInfo> = Vec::new();
    while rest.len() > 0
        invariant
            newest_first(out@),
            out@.to_multiset().add(rest@.to_multiset()) == initial.to_multiset(),
        decreases rest@.len(),
    {
        let ghost rest0 = rest@;
        let item = rest.remove(0);
        proof {
            vstd::seq_lib::to_multiset_remove(rest0, 0);
            assert(rest0.contains(item));
            vstd::seq_lib::to_multiset_contains(rest0, item);
            assert(rest0.to_multiset().count(item) > 0);
        }
        let mut j: usize = 0;
        while j < out.len() && out[j].created_at >= item.created_at
            invariant
                0 <= j <= out@.len(),
                forall|k: int| 0 <= k < j ==> out@[k].created_at >= item.created_at,
            decreases out@.len() - j,
        {
            j += 1;
        }
        let ghost out0 = out@;
        out.insert(j, item);
        proof {
            vstd::seq_lib::to_multiset_insert(out0, j as int, item);
            assert forall|a: int, b: int| 0 <= a < b < out@.len() implies out@[a].created_at >= out@[b].created_at by {
                if b < j {
                } else if b == j {
                } else if a < j {
                    assert(out@[b] == out0[b - 1]);
                    if j < out0.len() {
                        assert(out0[j as int].created_at < item.created_at);
                    }
                    assert(out0[a].created_at >= item.created_at);
                    assert(item.created_at > out0[b - 1].created_at) by {
                        assert(j < out0.len());
                        assert(out0[j as int].created_at < item.created_at);
                        if b - 1 > j {
                            assert(out0[j as int].created_at >= out0[b - 1].created_at);
                        }
                    }
                } else if a == j {
                    assert(j < out0.len());
                    assert(out0[j as int].created_at < item.created_at);
                    if b - 1 > j {
                        assert(out0[j as int].created_at >= out0[b - 1].created_at);
                    }
                } else {
                    assert(out@[a] == out0[a - 1]);
                    assert(out@[b] == out0[b - 1]);
                }
            }
            assert(out@.to_multiset().add(rest@.to_multiset()) =~= initial.to_multiset());
        }
    }
    assert(rest@.to_multiset() =~= Multiset::empty());
    assert(out@.to_multiset().add(Multiset::empty()) =~= out@.to_multiset());
    out
}


/// A folder that cannot be written gets no image jobs, so caching yields no
/// local path for either image, whatever the downloads would do.
pub proof fn lemma_read_only_folder_caches_nothing(
    p: ImageCachePlan,
    folder: Seq<char>,
    cover_url: Option<String>,
    background_url: Option<String>,
    cover_exists: bool,
    cover_downloaded: bool,
    background_exists: bool,
    background_downloaded: bool,
)
    requires
        is_plan_for(p, folder, false, cover_url, background_url),
    ensures
        job_result(p.cover, cover_exists, cover_downloaded) is None,
        job_result(p.background, background_exists, background_downloaded) is None,
        job_requests(p.cover, cover_exists) + job_requests(p.background, background_exists) == 0,
{
}

} // verus!
