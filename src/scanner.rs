//! Title normalizer: turns a raw folder name into a candidate title and
//! decides whether the folder holds a game at all.
use vstd::prelude::*;
use vstd::string::*;

use crate::text::{ends_with_text, has_suffix, text_equals};

verus! {

/// What `regex` makes of `text` when every non-overlapping match of `pattern`
/// is replaced by `with` (`text` itself when `pattern` does not compile).
pub uninterp spec fn regex_replaced(pattern: Seq<char>, text: Seq<char>, with: Seq<char>) -> Seq<char>;

/// Whether `regex` finds a match of `pattern` in `text` (false when `pattern`
/// does not compile).
pub uninterp spec fn regex_found(pattern: Seq<char>, text: Seq<char>) -> bool;

/// `s` without leading and trailing white space.
pub uninterp spec fn trimmed(s: Seq<char>) -> Seq<char>;

/// Relies on `regex::Regex::new` and `Regex::replace_all`: all matches of the
/// pattern replaced; a pattern that does not compile changes nothing.
#[verifier::external_body]
fn replace_all_matches(pattern: &str, text: &str, with: &str) -> (r: String)
    ensures
        r@ == regex_replaced(pattern@, text@, with@),
{
    match regex::Regex::new(pattern) {
        Ok(re) => re.replace_all(text, with).into_owned(),
        Err(_) => text.to_string(),
    }
}

/// Relies on `regex::Regex::new` and `Regex::is_match`: whether the pattern
/// matches somewhere in the text; a pattern that does not compile never does.
#[verifier::external_body]
fn matches_pattern(pattern: &str, text: &str) -> (r: bool)
    ensures
        r == regex_found(pattern@, text@),
{
    match regex::Regex::new(pattern) {
        Ok(re) => re.is_match(text),
        Err(_) => false,
    }
}

/// Relies on `str::trim`: leading and trailing white space removed.
#[verifier::external_body]
pub(crate) fn trim_text(s: &str) -> (r: String)
    ensures
        r@ == trimmed(s@),
{
    s.trim().to_string()
}

/// Removal rules, applied in this order: release-group and quality tags,
/// "portable by" suffixes, version suffixes, edition suffixes, parenthetical
/// notes and surrounding blanks.
pub open spec fn cleanup_patterns() -> Seq<&'static str> {
    seq![
        r"\[FitGirl.*?\]",
        r"\[DODI.*?\]",
        r"\[.*?Repack.*?\]",
        r"\[.*?Monkey.*?\]",
        r"\[BluRay\]",
        r"\[720p\]",
        r"\[1080p\]",
        r"\[YTS.*?\]",
        r"\[YIFY\]",
        r"Portable\s+by\s+\w+",
        r"by\s+\w+$",
        r"\s*v\d+(\.\d+)*\w*",
        r"\s*-\s*(HRTP|EE|NG|MCE|CGC)$",
        r"\s*NG\s*-\s*HRTP$",
        r"\s*-\s*Dilogy$",
        r"\s*\(.*?\)",
        r"\s+$",
        r"^\s+",
    ]
}

/// Exclusion rules, matched against the raw folder name: video tags,
/// container extensions and episode numbering.
pub open spec fn exclusion_patterns() -> Seq<&'static str> {
    seq![
        r"(?i)\[BluRay\]",
        r"(?i)\[720p\]",
        r"(?i)\[1080p\]",
        r"(?i)\[2160p\]",
        r"(?i)\[4K\]",
        r"(?i)\[YTS",
        r"(?i)\[YIFY",
        r"(?i)\[RARBG\]",
        r"(?i)\[WEB-?DL\]",
        r"(?i)\[HDRip\]",
        r"(?i)\[BRRip\]",
        r"(?i)\[DVDRip\]",
        r"(?i)\.mkv$",
        r"(?i)\.avi$",
        r"(?i)\.mp4$",
        r"(?i)S\d{2}E\d{2}",
    ]
}

/// Runs of white space become one blank.
pub const SPACES_PATTERN: &'static str = r"\s+";

/// A dangling dash at the end of the title.
pub const TRAILING_DASH_PATTERN: &'static str = r"\s*-\s*$";

fn cleanup_pattern_list() -> (r: Vec<&'static str>)
    ensures
        r@ == cleanup_patterns(),
{
    let r = vec![
        r"\[FitGirl.*?\]",
        r"\[DODI.*?\]",
        r"\[.*?Repack.*?\]",
        r"\[.*?Monkey.*?\]",
        r"\[BluRay\]",
        r"\[720p\]",
        r"\[1080p\]",
        r"\[YTS.*?\]",
        r"\[YIFY\]",
        r"Portable\s+by\s+\w+",
        r"by\s+\w+$",
        r"\s*v\d+(\.\d+)*\w*",
        r"\s*-\s*(HRTP|EE|NG|MCE|CGC)$",
        r"\s*NG\s*-\s*HRTP$",
        r"\s*-\s*Dilogy$",
        r"\s*\(.*?\)",
        r"\s+$",
        r"^\s+",
    ];
    assert(r@ =~= cleanup_patterns());
    r
}

fn exclusion_pattern_list() -> (r: Vec<&'static str>)
    ensures
        r@ == exclusion_patterns(),
{
    let r = vec![
        r"(?i)\[BluRay\]",
        r"(?i)\[720p\]",
        r"(?i)\[1080p\]",
        r"(?i)\[2160p\]",
        r"(?i)\[4K\]",
        r"(?i)\[YTS",
        r"(?i)\[YIFY",
        r"(?i)\[RARBG\]",
        r"(?i)\[WEB-?DL\]",
        r"(?i)\[HDRip\]",
        r"(?i)\[BRRip\]",
        r"(?i)\[DVDRip\]",
        r"(?i)\.mkv$",
        r"(?i)\.avi$",
        r"(?i)\.mp4$",
        r"(?i)S\d{2}E\d{2}",
    ];
    assert(r@ =~= exclusion_patterns());
    r
}

/// The first `n` removal rules applied in order to `s`.
pub open spec fn cleaned_upto(s: Seq<char>, n: nat) -> Seq<char>
    decreases n,
{
    if n == 0 {
        s
    } else {
        regex_replaced(cleanup_patterns()[n - 1]@, cleaned_upto(s, (n - 1) as nat), ""@)
    }
}

/// The clean title of a folder name: every removal rule in order, blanks
/// collapsed, a dangling dash dropped, and the ends trimmed.
pub open spec fn clean_title_of(s: Seq<char>) -> Seq<char> {
    let removed = cleaned_upto(s, cleanup_patterns().len());
    let spaced = regex_replaced(SPACES_PATTERN@, removed, " "@);
    trimmed(regex_replaced(TRAILING_DASH_PATTERN@, spaced, ""@))
}

/// Some exclusion rule matches the raw name.
pub open spec fn excluded_name(s: Seq<char>) -> bool {
    exists|i: int| 0 <= i < exclusion_patterns().len() && regex_found(#[trigger] exclusion_patterns()[i]@, s)
}

/// Hidden folders, housekeeping folders and archive-looking names.
pub open spec fn reserved_name(s: Seq<char>) -> bool {
    ||| (s.len() > 0 && s[0] == '.')
    ||| s == "game-library-app"@
    ||| s == "GameVault"@
    ||| s == "Adult"@
    ||| has_suffix(s, ".rar"@)
    ||| has_suffix(s, ".zip"@)
}

/// Whether a folder name is taken into the library: not reserved, not
/// excluded, and with a non-empty clean title.
pub open spec fn included_name(s: Seq<char>) -> bool {
    !reserved_name(s) && !excluded_name(s) && clean_title_of(s).len() > 0
}


/// A folder name split into its candidate title and the verdict on it.
pub struct NormalizedName {
    pub clean_title: String,
    pub included: bool,
}

/// A game folder found by a scan.
pub struct ScannedGame {
    pub folder_path: String,
    pub folder_name: String,
    pub clean_title: String,
    pub size_bytes: Option<i64>,
}

/// Whether a folder name is reserved: hidden, housekeeping or an archive.
pub fn is_reserved_name(folder_name: &str) -> (r: bool)
    ensures
        r == reserved_name(folder_name@),
{
    (folder_name.unicode_len() > 0 && folder_name.get_char(0) == '.')
        || text_equals(folder_name, "game-library-app")
        || text_equals(folder_name, "GameVault")
        || text_equals(folder_name, "Adult")
        || ends_with_text(folder_name, ".rar")
        || ends_with_text(folder_name, ".zip")
}

/// Whether some exclusion rule matches the raw folder name.
pub fn is_excluded(folder_name: &str) -> (r: bool)
    ensures
        r == excluded_name(folder_name@),
{
    let patterns = exclusion_pattern_list();
    let mut i: usize = 0;
    while i < patterns.len()
        invariant
            patterns@ == exclusion_patterns(),
            0 <= i <= patterns@.len(),
            forall|j: int| 0 <= j < i ==> !regex_found(#[trigger] exclusion_patterns()[j]@, folder_name@),
        decreases patterns@.len() - i,
    {
        if matches_pattern(patterns[i], folder_name) {
            return true;
        }
        i += 1;
    }
    false
}

/// Cleans a folder name into a game title.
pub fn clean_title(folder_name: &str) -> (r: String)
    ensures
        r@ == clean_title_of(folder_name@),
{
    let patterns = cleanup_pattern_list();
    let mut title = String::from_str(folder_name);
    let mut i: usize = 0;
    while i < patterns.len()
        invariant
            patterns@ == cleanup_patterns(),
            0 <= i <= patterns@.len(),
            title@ == cleaned_upto(folder_name@, i as nat),
        decreases patterns@.len() - i,
    {
        title = replace_all_matches(patterns[i], title.as_str(), "");
        i += 1;
    }
    let spaced = replace_all_matches(SPACES_PATTERN, title.as_str(), " ");
    let undashed = replace_all_matches(TRAILING_DASH_PATTERN, spaced.as_str(), "");
    trim_text(undashed.as_str())
}

/// Normalizes a raw folder name: its clean title, and whether the folder is
/// taken into the library.
pub fn normalize(raw_name: &str) -> (r: NormalizedName)
    ensures
        r.clean_title@ == clean_title_of(raw_name@),
        r.included == included_name(raw_name@),
{
    let title = clean_title(raw_name);
    let excluded = is_excluded(raw_name);
    classify_folder(raw_name, excluded, title)
}

/// The verdict on a folder name, given whether an exclusion rule matched it
/// and its clean title: included unless reserved, excluded, or left with an
/// empty title.
pub fn classify_folder(raw_name: &str, excluded: bool, clean_title: String) -> (r: NormalizedName)
    ensures
        r.clean_title == clean_title,
        r.included == (!reserved_name(raw_name@) && !excluded && clean_title@.len() > 0),
{
    let included = !is_reserved_name(raw_name) && !excluded && clean_title.as_str().unicode_len() > 0;
    NormalizedName { clean_title, included }
}

/// The scan's verdict on one directory entry: a game when its name is
/// included, with the clean title filled in.
pub fn scan_entry(folder_path: String, folder_name: String, size_bytes: Option<i64>) -> (r: Option<ScannedGame>)
    ensures
        r is Some <==> included_name(folder_name@),
        r is Some ==> {
            &&& r->0.folder_path == folder_path
            &&& r->0.folder_name == folder_name
            &&& r->0.clean_title@ == clean_title_of(folder_name@)
            &&& r->0.size_bytes == size_bytes
        },
{
    let n = normalize(folder_name.as_str());
    if n.included {
        Some(ScannedGame { folder_path, folder_name, clean_title: n.clean_title, size_bytes })
    } else {
        None
    }
}

/// Sum of a sequence of sizes.
pub open spec fn total_size(sizes: Seq<u64>) -> int
    decreases sizes.len(),
{
    if sizes.len() == 0 {
        0
    } else {
        total_size(sizes.drop_last()) + sizes.last()
    }
}

/// Size estimate of a folder from the sizes of its top-level files: absent
/// when they add up to nothing, otherwise their sum, capped at `i64::MAX`.
pub fn folder_size_estimate(file_sizes: &Vec<u64>) -> (r: Option<i64>)
    ensures
        total_size(file_sizes@) == 0 ==> r is None,
        total_size(file_sizes@) > 0 ==> r == Some(
            if total_size(file_sizes@) <= i64::MAX { total_size(file_sizes@) as i64 } else { i64::MAX },
        ),
{
    let mut total: u64 = 0;
    let mut i: usize = 0;
    while i < file_sizes.len()
        invariant
            0 <= i <= file_sizes@.len(),
            total <= i64::MAX,
            total_size(file_sizes@.subrange(0, i as int)) >= 0,
            total == if total_size(file_sizes@.subrange(0, i as int)) <= i64::MAX {
                total_size(file_sizes@.subrange(0, i as int))
            } else {
                i64::MAX as int
            },
        decreases file_sizes@.len() - i,
    {
        let ghost prefix = file_sizes@.subrange(0, i as int);
        assert(file_sizes@.subrange(0, i + 1).drop_last() =~= prefix);
        let sum: u128 = total as u128 + file_sizes[i] as u128;
        total = if sum > i64::MAX as u128 { i64::MAX as u64 } else { sum as u64 };
        i += 1;
    }
    assert(file_sizes@.subrange(0, file_sizes@.len() as int) =~= file_sizes@);
    if total == 0 {
        None
    } else {
        Some(total as i64)
    }
}

} // verus!
