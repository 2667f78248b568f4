//! Configuration: built-in defaults overlaid by the settings found in the
//! configuration file and the environment, and paths resolved against the
//! directory of the executable.
use vstd::prelude::*;
use vstd::string::*;

use crate::local_storage::{join_path, path_join};
use crate::text::{has_prefix, starts_with_text};

verus! {

/// Application configuration.
pub struct AppConfig {
    pub paths: PathsConfig,
    pub server: ServerConfig,
}

/// Where data is kept.
pub struct PathsConfig {
    /// Root directory holding the games to scan.
    pub game_library: String,
    /// Database location, as a `sqlite:` URL or a file path.
    pub database: String,
    /// Cache directory.
    pub cache: String,
}

/// How the server listens.
pub struct ServerConfig {
    pub port: u16,
    pub auto_open_browser: bool,
    pub bind_address: String,
}

/// Settings from one source; an absent field leaves the value below it.
pub struct ConfigLayer {
    pub game_library: Option<String>,
    pub database: Option<String>,
    pub cache: Option<String>,
    pub port: Option<i64>,
    pub auto_open_browser: Option<bool>,
    pub bind_address: Option<String>,
}

/// Why a configuration could not be loaded.
#[derive(Debug)]
pub enum ConfigError {
    /// The port setting does not fit a port number.
    InvalidPort(i64),
}

pub const DEFAULT_GAME_LIBRARY: &'static str = ".";
pub const DEFAULT_DATABASE: &'static str = "sqlite:./data/gamevault.db?mode=rwc";
pub const DEFAULT_CACHE: &'static str = "./cache";
pub const DEFAULT_PORT: u16 = 3000;
pub const DEFAULT_AUTO_OPEN_BROWSER: bool = true;
pub const DEFAULT_BIND_ADDRESS: &'static str = "127.0.0.1";

/// The built-in defaults, every field set.
pub open spec fn defaults_of(l: ConfigLayer) -> bool {
    &&& l.game_library is Some && l.game_library->0@ == DEFAULT_GAME_LIBRARY@
    &&& l.database is Some && l.database->0@ == DEFAULT_DATABASE@
    &&& l.cache is Some && l.cache->0@ == DEFAULT_CACHE@
    &&& l.port == Some(DEFAULT_PORT as i64)
    &&& l.auto_open_browser == Some(DEFAULT_AUTO_OPEN_BROWSER)
    &&& l.bind_address is Some && l.bind_address->0@ == DEFAULT_BIND_ADDRESS@
}

fn default_layer() -> (r: ConfigLayer)
    ensures
        defaults_of(r),
{
    ConfigLayer {
        game_library: Some(String::from_str(DEFAULT_GAME_LIBRARY)),
        database: Some(String::from_str(DEFAULT_DATABASE)),
        cache: Some(String::from_str(DEFAULT_CACHE)),
        port: Some(DEFAULT_PORT as i64),
        auto_open_browser: Some(DEFAULT_AUTO_OPEN_BROWSER),
        bind_address: Some(String::from_str(DEFAULT_BIND_ADDRESS)),
    }
}

/// The upper setting where it is present, else the lower one.
pub open spec fn over<T>(upper: Option<T>, lower: Option<T>) -> Option<T> {
    if upper is Some {
        upper
    } else {
        lower
    }
}

/// `r` is the layer `upper` laid over `lower`, field by field.
pub open spec fn is_overlay(r: ConfigLayer, lower: ConfigLayer, upper: ConfigLayer) -> bool {
    &&& r.game_library == over(upper.game_library, lower.game_library)
    &&& r.database == over(upper.database, lower.database)
    &&& r.cache == over(upper.cache, lower.cache)
    &&& r.port == over(upper.port, lower.port)
    &&& r.auto_open_browser == over(upper.auto_open_browser, lower.auto_open_browser)
    &&& r.bind_address == over(upper.bind_address, lower.bind_address)
}

fn over_text(upper: &Option<String>, lower: Option<String>) -> (r: Option<String>)
    ensures
        r == over(*upper, lower),
{
    match upper {
        Some(s) => Some(s.clone()),
        None => lower,
    }
}

fn overlay(lower: ConfigLayer, upper: &ConfigLayer) -> (r: ConfigLayer)
    ensures
        is_overlay(r, lower, *upper),
{
    ConfigLayer {
        game_library: over_text(&upper.game_library, lower.game_library),
        database: over_text(&upper.database, lower.database),
        cache: over_text(&upper.cache, lower.cache),
        port: if upper.port.is_some() { upper.port } else { lower.port },
        auto_open_browser: if upper.auto_open_browser.is_some() {
            upper.auto_open_browser
        } else {
            lower.auto_open_browser
        },
        bind_address: over_text(&upper.bind_address, lower.bind_address),
    }
}

/// `r` holds the settings of `layers[..n]` laid in order over the defaults:
/// each field comes from the last layer that sets it, else from the default.
pub open spec fn is_merge(r: ConfigLayer, layers: Seq<ConfigLayer>, n: int) -> bool
    decreases n,
{
    if n <= 0 {
        defaults_of(r)
    } else {
        exists|below: ConfigLayer| is_merge(below, layers, n - 1) && #[trigger] is_overlay(r, below, layers[n - 1])
    }
}

proof fn lemma_merge_all_set(r: ConfigLayer, layers: Seq<ConfigLayer>, n: int)
    requires
        is_merge(r, layers, n),
    ensures
        r.game_library is Some && r.database is Some && r.cache is Some && r.port is Some
            && r.auto_open_browser is Some && r.bind_address is Some,
    decreases n,
{
    if n > 0 {
        let below = choose|below: ConfigLayer| is_merge(below, layers, n - 1) && #[trigger] is_overlay(r, below, layers[n - 1]);
        lemma_merge_all_set(below, layers, n - 1);
    }
}

/// `c` is the configuration that the merged settings `m` describe.
pub open spec fn is_config_of(c: AppConfig, m: ConfigLayer) -> bool {
    &&& Some(c.paths.game_library) == m.game_library
    &&& Some(c.paths.database) == m.database
    &&& Some(c.paths.cache) == m.cache
    &&& Some(c.server.port as i64) == m.port
    &&& Some(c.server.auto_open_browser) == m.auto_open_browser
    &&& Some(c.server.bind_address) == m.bind_address
}

impl AppConfig {
    /// Loads the configuration from the settings of each source, lowest
    /// precedence first. It fails exactly when the resulting port does not
    /// fit a port number.
    pub fn load(layers: &Vec<ConfigLayer>) -> (r: Result<AppConfig, ConfigError>)
        ensures
            exists|m: ConfigLayer| #[trigger] is_merge(m, layers@, layers@.len() as int) && {
                let port = m.port->0;
                &&& (0 <= port <= u16::MAX) == r is Ok
                &&& r is Ok ==> is_config_of(r->Ok_0, m)
                &&& r is Err ==> r == Err::<AppConfig, ConfigError>(ConfigError::InvalidPort(port))
            },
    {
        let mut merged = default_layer();
        let mut i: usize = 0;
        while i < layers.len()
            invariant
                0 <= i <= layers@.len(),
                is_merge(merged, layers@, i as int),
            decreases layers@.len() - i,
        {
            let ghost below = merged;
            merged = overlay(merged, &layers[i]);
            assert(is_merge(below, layers@, (i as int + 1) - 1));
            assert(is_overlay(merged, below, layers@[(i as int + 1) - 1]));
            assert(is_merge(merged, layers@, i as int + 1));
            i += 1;
        }
        proof {
            lemma_merge_all_set(merged, layers@, layers@.len() as int);
        }
        let ghost m = merged;
        let port = merged.port.unwrap();
        if port < 0 || port > u16::MAX as i64 {
            return Err(ConfigError::InvalidPort(port));
        }
        Ok(
            AppConfig {
                paths: PathsConfig {
                    game_library: merged.game_library.unwrap(),
                    database: merged.database.unwrap(),
                    cache: merged.cache.unwrap(),
                },
                server: ServerConfig {
                    port: port as u16,
                    auto_open_browser: merged.auto_open_browser.unwrap(),
                    bind_address: merged.bind_address.unwrap(),
                },
            },
        )
    }

    /// The database URL: a `sqlite:` URL as it stands, otherwise a URL built
    /// from the path resolved against `exe_dir`.
    pub fn database_url(&self, exe_dir: &str) -> (r: String)
        ensures
            has_prefix(self.paths.database@, "sqlite:"@) ==> r@ == self.paths.database@,
            !has_prefix(self.paths.database@, "sqlite:"@) ==> r@ == "sqlite:"@ + resolved_path(
                exe_dir@,
                self.paths.database@,
            ) + "?mode=rwc"@,
    {
        if starts_with_text(self.paths.database.as_str(), "sqlite:") {
            return self.paths.database.clone();
        }
        let path = resolve_path(exe_dir, self.paths.database.as_str());
        let mut url = String::from_str("sqlite:");
        url.append(path.as_str());
        url.append("?mode=rwc");
        url
    }

    /// The game library directory, resolved against `exe_dir`.
    pub fn games_path(&self, exe_dir: &str) -> (r: String)
        ensures
            r@ == resolved_path(exe_dir@, self.paths.game_library@),
    {
        resolve_path(exe_dir, self.paths.game_library.as_str())
    }

    /// The cache directory, resolved against `exe_dir`.
    pub fn cache_path(&self, exe_dir: &str) -> (r: String)
        ensures
            r@ == resolved_path(exe_dir@, self.paths.cache@),
    {
        resolve_path(exe_dir, self.paths.cache.as_str())
    }
}

/// A path is absolute when it starts with a separator, or with a drive
/// letter, a colon and a separator.
pub open spec fn absolute_path(p: Seq<char>) -> bool {
    ||| (p.len() >= 1 && (p[0] == '/' || p[0] == '\\'))
    ||| (p.len() >= 3 && (('a' <= p[0] <= 'z') || ('A' <= p[0] <= 'Z')) && p[1] == ':' && (p[2] == '/'
        || p[2] == '\\'))
}

/// Whether a path is absolute.
pub fn is_absolute_path(p: &str) -> (r: bool)
    ensures
        r == absolute_path(p@),
{
    let n = p.unicode_len();
    if n >= 1 && (p.get_char(0) == '/' || p.get_char(0) == '\\') {
        return true;
    }
    if n >= 3 {
        let c = p.get_char(0);
        let sep = p.get_char(2);
        return (('a' <= c && c <= 'z') || ('A' <= c && c <= 'Z')) && p.get_char(1) == ':' && (sep == '/'
            || sep == '\\');
    }
    false
}

/// An absolute path as it stands; a relative one under `base`.
pub open spec fn resolved_path(base: Seq<char>, p: Seq<char>) -> Seq<char> {
    if absolute_path(p) {
        p
    } else {
        path_join(base, p)
    }
}

/// Resolves a path against the directory of the executable, `exe_dir`.
pub fn resolve_path(exe_dir: &str, path: &str) -> (r: String)
    ensures
        r@ == resolved_path(exe_dir@, path@),
{
    if is_absolute_path(path) {
        String::from_str(path)
    } else {
        join_path(exe_dir, path)
    }
}

/// Path of the configuration file, next to the executable in `exe_dir`.
pub fn get_config_path(exe_dir: &str) -> (r: String)
    ensures
        r@ == path_join(exe_dir@, "config.toml"@),
{
    join_path(exe_dir, "config.toml")
}

} // verus!
