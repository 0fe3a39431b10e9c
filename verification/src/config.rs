//! Application settings, as far as the engine reads them.

use vstd::prelude::*;
use vstd::string::*;

verus! {

/// The colour theme the user chose.
#[derive(Debug, Clone, Copy, PartialEq, Eq, Structural)]
pub enum ThemeMode {
    Light,
    Dark,
    System,
}

/// The application settings.
#[derive(Debug, Clone)]
pub struct AppConfig {
    pub download_directory: String,
    pub theme: ThemeMode,
    pub color_scheme: String,
    pub auto_discover: bool,
    pub max_download_speed: u64,
    pub max_upload_speed: u64,
    pub media_server_port: u16,
    pub auto_play_next: bool,
    pub subtitle_languages: Vec<String>,
    pub opensubtitles_api_key: String,
    pub enable_upnp: bool,
    pub listen_port: u16,
    pub watch_folders: Vec<String>,
    pub watch_folders_enabled: bool,
    pub incomplete_directory: String,
    pub max_concurrent_tasks: u32,
    pub delete_torrent_file_on_add: bool,
    pub show_tray_icon: bool,
    pub default_cast_device: String,
    pub default_media_player: String,
    pub default_move_destination: String,
    pub rss_check_interval_minutes: u32,
    pub locale: String,
}

/// The global feed check interval in minutes when none is configured.
pub fn default_rss_interval() -> (r: u32)
    ensures
        r == 15,
{
    15
}

/// The locale setting when none is configured: follow the system.
pub fn default_locale() -> (r: String)
    ensures
        r@ == "system"@,
{
    String::from_str("system")
}

/// The subtitle languages when none are configured.
pub fn default_subtitle_languages() -> (r: Vec<String>)
    ensures
        r@.len() == 1,
        r@[0]@ == "en"@,
{
    let mut v: Vec<String> = Vec::new();
    v.push(String::from_str("en"));
    v
}

/// The value of a switch that is on unless configured otherwise.
pub fn default_true() -> (r: bool)
    ensures
        r,
{
    true
}

/// The port the download engine listens on when none is configured.
pub fn default_listen_port() -> (r: u16)
    ensures
        r == 4240,
{
    4240
}

impl AppConfig {
    /// The settings of a fresh installation that downloads into the given
    /// directory.
    pub fn with_download_directory(download_directory: String) -> (r: AppConfig)
        ensures
            r.download_directory == download_directory,
            r.theme == ThemeMode::System,
            r.color_scheme@ == "auto"@,
            r.auto_discover,
            r.max_download_speed == 0,
            r.max_upload_speed == 0,
            r.media_server_port == 9080,
            r.auto_play_next,
            r.subtitle_languages@.len() == 1 && r.subtitle_languages@[0]@ == "en"@,
            r.opensubtitles_api_key@.len() == 0,
            r.enable_upnp,
            r.listen_port == 4240,
            r.watch_folders@.len() == 0,
            !r.watch_folders_enabled,
            r.incomplete_directory@.len() == 0,
            r.max_concurrent_tasks == 0,
            !r.delete_torrent_file_on_add,
            r.show_tray_icon,
            r.default_cast_device@.len() == 0,
            r.default_media_player@.len() == 0,
            r.default_move_destination@.len() == 0,
            r.rss_check_interval_minutes == 15,
            r.locale@ == "system"@,
    {
        AppConfig {
            download_directory,
            theme: ThemeMode::System,
            color_scheme: String::from_str("auto"),
            auto_discover: true,
            max_download_speed: 0,
            max_upload_speed: 0,
            media_server_port: 9080,
            auto_play_next: true,
            subtitle_languages: default_subtitle_languages(),
            opensubtitles_api_key: String::new(),
            enable_upnp: true,
            listen_port: 4240,
            watch_folders: Vec::new(),
            watch_folders_enabled: false,
            incomplete_directory: String::new(),
            max_concurrent_tasks: 0,
            delete_torrent_file_on_add: false,
            show_tray_icon: true,
            default_cast_device: String::new(),
            default_media_player: String::new(),
            default_move_destination: String::new(),
            rss_check_interval_minutes: default_rss_interval(),
            locale: default_locale(),
        }
    }
}

} // verus!
