//! Settings of the client and their defaults.

use vstd::prelude::*;
use vstd::string::*;

verus! {

/// Settings of the client.
#[derive(Debug, Clone)]
pub struct Config {
    pub server_url: String,
    pub username: Option<String>,
    pub ui: UiConfig,
    pub colors: ColorConfig,
}

/// Settings of the screen.
#[derive(Debug, Clone)]
pub struct UiConfig {
    pub refresh_interval_ms: u64,
    pub page_size: usize,
    /// The most records the log view keeps.
    pub max_logs_in_memory: usize,
    pub date_format: String,
    pub enable_colors: bool,
}

/// The colour, by name, in which each level is shown.
#[derive(Debug, Clone)]
pub struct ColorConfig {
    pub error: String,
    pub warn: String,
    pub info: String,
    pub debug: String,
    pub fatal: String,
}

/// Milliseconds between two refreshes of the screen, by default.
pub fn default_refresh_interval() -> (r: u64)
    ensures
        r == 5000,
{
    5000
}

/// Records on a page, by default.
pub fn default_page_size() -> (r: usize)
    ensures
        r == 100,
{
    100
}

/// The most records the log view keeps, by default.
pub fn default_max_logs() -> (r: usize)
    ensures
        r == 10000,
{
    10000
}

/// The pattern in which the time of a record is shown, by default.
pub fn default_date_format() -> (r: String)
    ensures
        r@ == "%Y-%m-%d %H:%M:%S"@,
{
    String::from_str("%Y-%m-%d %H:%M:%S")
}

/// The default of a switch that is on unless it is turned off.
pub fn default_true() -> (r: bool)
    ensures
        r,
{
    true
}

/// The colour of level ERROR, by default.
pub fn default_error_color() -> (r: String)
    ensures
        r@ == "red"@,
{
    String::from_str("red")
}

/// The colour of level WARN, by default.
pub fn default_warn_color() -> (r: String)
    ensures
        r@ == "yellow"@,
{
    String::from_str("yellow")
}

/// The colour of level INFO, by default.
pub fn default_info_color() -> (r: String)
    ensures
        r@ == "green"@,
{
    String::from_str("green")
}

/// The colour of level DEBUG, by default.
pub fn default_debug_color() -> (r: String)
    ensures
        r@ == "blue"@,
{
    String::from_str("blue")
}

/// The colour of level FATAL, by default.
pub fn default_fatal_color() -> (r: String)
    ensures
        r@ == "magenta"@,
{
    String::from_str("magenta")
}

impl UiConfig {
    /// Whether every setting has its default.
    pub open spec fn is_default(self) -> bool {
        &&& self.refresh_interval_ms == 5000
        &&& self.page_size == 100
        &&& self.max_logs_in_memory == 10000
        &&& self.date_format@ == "%Y-%m-%d %H:%M:%S"@
        &&& self.enable_colors
    }
}

impl ColorConfig {
    /// Whether every level has its default colour.
    pub open spec fn is_default(self) -> bool {
        &&& self.error@ == "red"@
        &&& self.warn@ == "yellow"@
        &&& self.info@ == "green"@
        &&& self.debug@ == "blue"@
        &&& self.fatal@ == "magenta"@
    }
}

impl Config {
    /// Whether every setting has its default: the service on this machine, no
    /// remembered user.
    pub open spec fn is_default(self) -> bool {
        &&& self.server_url@ == "http://localhost:8000"@
        &&& self.username is None
        &&& self.ui.is_default()
        &&& self.colors.is_default()
    }
}

impl Default for UiConfig {
    fn default() -> (ui: Self)
        ensures
            ui.is_default(),
    {
        UiConfig {
            refresh_interval_ms: default_refresh_interval(),
            page_size: default_page_size(),
            max_logs_in_memory: default_max_logs(),
            date_format: default_date_format(),
            enable_colors: default_true(),
        }
    }
}

impl Default for ColorConfig {
    fn default() -> (colors: Self)
        ensures
            colors.is_default(),
    {
        ColorConfig {
            error: default_error_color(),
            warn: default_warn_color(),
            info: default_info_color(),
            debug: default_debug_color(),
            fatal: default_fatal_color(),
        }
    }
}

impl Default for Config {
    fn default() -> (config: Self)
        ensures
            config.is_default(),
    {
        Config {
            server_url: String::from_str("http://localhost:8000"),
            username: None,
            ui: UiConfig::default(),
            colors: ColorConfig::default(),
        }
    }
}

} // verus!
