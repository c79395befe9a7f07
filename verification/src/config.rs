//! Application configuration: settings, credentials and UI state schemas
//! with their defaults, and the XDG-style location of the files they live
//! in. Reading and writing the files is the host's job; everything here is
//! the pure part: defaults, path arithmetic, and the API-key extraction from
//! a daemon config file's text.

use vstd::prelude::*;
use crate::codec::{contains_pat, find_pat, first_pat_pos, lemma_first_pat_pos};
use crate::fsmodel::{joined_path, path_join};

verus! {

/// The schema version written into fresh settings files.
pub fn default_version() -> (r: String)
    ensures
        r@ == "1.0.0"@,
{
    "1.0.0".to_owned()
}

/// Connection parameters of the sync daemon's REST API.
#[derive(Debug, Clone)]
pub struct SyncthingConfig {
    pub api_key: String,
    pub port: u16,
    pub host: String,
}

impl SyncthingConfig {
    /// Create a config with explicit values.
    pub fn new(api_key: String, host: String, port: u16) -> (r: Self)
        ensures
            r.api_key@ == api_key@,
            r.host@ == host@,
            r.port == port,
    {
        SyncthingConfig { api_key, host, port }
    }
}

/// The API key found in a daemon config file's text: the text between the
/// first `<apikey>` and the next `</apikey>` after it, provided it is
/// non-empty.
pub open spec fn extracted_api_key(content: Seq<char>) -> Option<Seq<char>> {
    if !contains_pat(content, "<apikey>"@) {
        None
    } else {
        let after = content.subrange(
            first_pat_pos(content, "<apikey>"@) + 8,
            content.len() as int,
        );
        if !contains_pat(after, "</apikey>"@) {
            None
        } else if first_pat_pos(after, "</apikey>"@) == 0 {
            None
        } else {
            Some(after.subrange(0, first_pat_pos(after, "</apikey>"@)))
        }
    }
}

/// Extract the daemon's API key from the text of its config file.
pub fn extract_api_key_from_content(content: &str) -> (r: Option<String>)
    ensures
        r is Some <==> extracted_api_key(content@) is Some,
        r is Some ==> r->0@ == extracted_api_key(content@)->0,
{
    proof {
        reveal_strlit("<apikey>");
    }
    match find_pat(content, "<apikey>") {
        None => None,
        Some(start) => {
            proof {
                lemma_first_pat_pos(content@, "<apikey>"@);
            }
            let n = content.unicode_len();
            let after = content.substring_char(start + 8, n);
            match find_pat(after, "</apikey>") {
                None => None,
                Some(end) => {
                    if end == 0 {
                        None
                    } else {
                        proof {
                            lemma_first_pat_pos(after@, "</apikey>"@);
                        }
                        Some(after.substring_char(0, end).to_owned())
                    }
                },
            }
        },
    }
}

// ---------------------------------------------------------------------------
// Settings schema
// ---------------------------------------------------------------------------

/// Daemon-related settings.
#[derive(Debug, Clone)]
pub struct SyncthingSettings {
    pub base_url: String,
    pub api_key: Option<String>,
    pub auto_start: bool,
    pub bundled_binary_path: Option<String>,
}

impl Default for SyncthingSettings {
    fn default() -> (r: Self)
        ensures
            r.base_url@ == "http://localhost:8384"@,
            r.api_key is None,
            r.auto_start,
            r.bundled_binary_path is None,
    {
        SyncthingSettings {
            base_url: "http://localhost:8384".to_owned(),
            api_key: None,
            auto_start: true,
            bundled_binary_path: None,
        }
    }
}

/// User-interface settings.
#[derive(Debug, Clone)]
pub struct UiSettings {
    pub theme: String,
    pub enable_3d_constellation: bool,
    pub enable_particle_effects: bool,
    pub enable_notifications: bool,
    pub compact_mode: bool,
}

impl Default for UiSettings {
    fn default() -> (r: Self)
        ensures
            r.theme@ == "dark"@,
            r.enable_3d_constellation,
            r.enable_particle_effects,
            r.enable_notifications,
            !r.compact_mode,
    {
        UiSettings {
            theme: "dark".to_owned(),
            enable_3d_constellation: true,
            enable_particle_effects: true,
            enable_notifications: true,
            compact_mode: false,
        }
    }
}

/// Search and indexing settings.
#[derive(Debug, Clone)]
pub struct AiSettings {
    pub semantic_search_enabled: bool,
    pub embedding_model: String,
    pub index_on_startup: bool,
}

impl Default for AiSettings {
    fn default() -> (r: Self)
        ensures
            r.semantic_search_enabled,
            r.embedding_model@ == "all-MiniLM-L6-v2"@,
            !r.index_on_startup,
    {
        AiSettings {
            semantic_search_enabled: true,
            embedding_model: "all-MiniLM-L6-v2".to_owned(),
            index_on_startup: false,
        }
    }
}

/// Performance-related settings.
#[derive(Debug, Clone)]
pub struct PerformanceSettings {
    pub refresh_interval_ms: u32,
    pub max_cached_files: u32,
    pub enable_file_indexing: bool,
}

impl Default for PerformanceSettings {
    fn default() -> (r: Self)
        ensures
            r.refresh_interval_ms == 5000,
            r.max_cached_files == 10000,
            r.enable_file_indexing,
    {
        PerformanceSettings {
            refresh_interval_ms: 5000,
            max_cached_files: 10000,
            enable_file_indexing: true,
        }
    }
}

/// The settings file's schema.
#[derive(Debug, Clone)]
pub struct Settings {
    pub version: String,
    pub syncthing: SyncthingSettings,
    pub ui: UiSettings,
    pub ai: AiSettings,
    pub performance: PerformanceSettings,
}

impl Default for Settings {
    fn default() -> (r: Self)
        ensures
            r.version@ == "1.0.0"@,
            r.syncthing.base_url@ == "http://localhost:8384"@,
            r.syncthing.api_key is None,
            r.syncthing.auto_start,
            r.syncthing.bundled_binary_path is None,
            r.ui.theme@ == "dark"@,
            r.ui.enable_3d_constellation,
            r.ui.enable_particle_effects,
            r.ui.enable_notifications,
            !r.ui.compact_mode,
            r.ai.semantic_search_enabled,
            r.ai.embedding_model@ == "all-MiniLM-L6-v2"@,
            !r.ai.index_on_startup,
            r.performance.refresh_interval_ms == 5000,
            r.performance.max_cached_files == 10000,
            r.performance.enable_file_indexing,
    {
        Settings {
            version: default_version(),
            syncthing: SyncthingSettings::default(),
            ui: UiSettings::default(),
            ai: AiSettings::default(),
            performance: PerformanceSettings::default(),
        }
    }
}

// ---------------------------------------------------------------------------
// Credentials schema
// ---------------------------------------------------------------------------

/// Stored daemon credentials.
#[derive(Debug, Clone)]
pub struct SyncthingCredentials {
    pub api_key: Option<String>,
}

impl Default for SyncthingCredentials {
    fn default() -> (r: Self)
        ensures
            r.api_key is None,
    {
        SyncthingCredentials { api_key: None }
    }
}

/// Stored object-storage credentials.
#[derive(Debug, Clone)]
pub struct S3Credentials {
    pub access_key_id: Option<String>,
    pub secret_access_key: Option<String>,
}

impl Default for S3Credentials {
    fn default() -> (r: Self)
        ensures
            r.access_key_id is None,
            r.secret_access_key is None,
    {
        S3Credentials { access_key_id: None, secret_access_key: None }
    }
}

/// The credentials file's schema.
#[derive(Debug, Clone)]
pub struct Credentials {
    pub version: String,
    pub syncthing: SyncthingCredentials,
    pub s3: S3Credentials,
}

impl Default for Credentials {
    fn default() -> (r: Self)
        ensures
            r.version@ == "1.0.0"@,
            r.syncthing.api_key is None,
            r.s3.access_key_id is None,
            r.s3.secret_access_key is None,
    {
        Credentials {
            version: default_version(),
            syncthing: SyncthingCredentials::default(),
            s3: S3Credentials::default(),
        }
    }
}

// ---------------------------------------------------------------------------
// State schema
// ---------------------------------------------------------------------------

/// Remembered window state.
#[derive(Debug, Clone)]
pub struct UiState {
    pub window_width: Option<u32>,
    pub window_height: Option<u32>,
    pub sidebar_collapsed: bool,
    pub last_selected_view: String,
}

impl Default for UiState {
    fn default() -> (r: Self)
        ensures
            r.window_width is None,
            r.window_height is None,
            !r.sidebar_collapsed,
            r.last_selected_view@ == "overview"@,
    {
        UiState {
            window_width: None,
            window_height: None,
            sidebar_collapsed: false,
            last_selected_view: "overview".to_owned(),
        }
    }
}

/// Usage statistics.
#[derive(Debug, Clone)]
pub struct StatsState {
    pub total_launches: u32,
    pub last_launch_timestamp: Option<String>,
}

impl Default for StatsState {
    fn default() -> (r: Self)
        ensures
            r.total_launches == 0,
            r.last_launch_timestamp is None,
    {
        StatsState { total_launches: 0, last_launch_timestamp: None }
    }
}

/// The state file's schema.
#[derive(Debug, Clone)]
pub struct State {
    pub version: String,
    pub ui: UiState,
    pub stats: StatsState,
}

impl Default for State {
    fn default() -> (r: Self)
        ensures
            r.version@ == "1.0.0"@,
            r.ui.window_width is None,
            r.ui.window_height is None,
            !r.ui.sidebar_collapsed,
            r.ui.last_selected_view@ == "overview"@,
            r.stats.total_launches == 0,
            r.stats.last_launch_timestamp is None,
    {
        State { version: default_version(), ui: UiState::default(), stats: StatsState::default() }
    }
}

// ---------------------------------------------------------------------------
// Config file locations
// ---------------------------------------------------------------------------

/// The directory the config files live in: `$XDG_CONFIG_HOME/eigen` when
/// that variable is set, `$HOME/.config/eigen` otherwise; an error when
/// neither variable is available. The host reads the environment and passes
/// the values in.
pub fn resolve_config_dir(xdg_config_home: Option<&str>, home: Option<&str>) -> (r: Result<
    String,
    String,
>)
    ensures
        xdg_config_home matches Some(x) ==> (r matches Ok(d) && d@ == joined_path(x@, "eigen"@)),
        xdg_config_home is None ==> (home matches Some(h) ==> (r matches Ok(d) && d@
            == joined_path(joined_path(h@, ".config"@), "eigen"@))),
        xdg_config_home is None && home is None ==> (r matches Err(e) && e@
            == "Could not determine home directory"@),
{
    match xdg_config_home {
        Some(x) => Ok(path_join(x, "eigen")),
        None => match home {
            Some(h) => {
                let base = path_join(h, ".config");
                Ok(path_join(base.as_str(), "eigen"))
            },
            None => Err("Could not determine home directory".to_owned()),
        },
    }
}

/// Knows where the config files live, given a resolved config directory.
pub struct ConfigManager {
    config_dir: String,
}

impl ConfigManager {
    /// Wrap an already-resolved (and created) config directory.
    pub fn new(config_dir: String) -> (r: Self)
        ensures
            r.dir() == config_dir@,
    {
        ConfigManager { config_dir }
    }

    /// The view of the wrapped directory.
    pub closed spec fn dir(&self) -> Seq<char> {
        self.config_dir@
    }

    /// Path of the settings file.
    pub fn settings_path(&self) -> (r: String)
        ensures
            r@ == joined_path(self.dir(), "settings.json"@),
    {
        path_join(self.config_dir.as_str(), "settings.json")
    }

    /// Path of the credentials file.
    pub fn credentials_path(&self) -> (r: String)
        ensures
            r@ == joined_path(self.dir(), "credentials.json"@),
    {
        path_join(self.config_dir.as_str(), "credentials.json")
    }

    /// Path of the state file.
    pub fn state_path(&self) -> (r: String)
        ensures
            r@ == joined_path(self.dir(), "state.json"@),
    {
        path_join(self.config_dir.as_str(), "state.json")
    }

    /// The config directory as a plain string.
    pub fn get_config_dir_path(&self) -> (r: String)
        ensures
            r@ == self.dir(),
    {
        self.config_dir.clone()
    }
}

} // verus!
