//! Where configuration and state live, and what start-up reports about the
//! saved configuration: loaded, repaired, missing, or unusable.

use vstd::prelude::*;
use crate::config::{AppConfig, ConfigLoadReport};
use crate::diagnostics::{DiagnosticEvent, DiagnosticEventView, DiagnosticLevel};
use crate::text::{append_decimal, append_str, decimal};
use crate::error::{ConfigError, IoErrorKind};

verus! {

pub const APP_DIR_NAME: &'static str = "synchrosonic";
pub const CONFIG_FILE_NAME: &'static str = "config.toml";
pub const PORTABLE_CONFIG_FILE_NAME: &'static str = "config-export.toml";
pub const LOG_FILE_NAME: &'static str = "app-log.jsonl";

/// The files and directories the application uses.
#[derive(Debug, Clone, PartialEq, Eq)]
pub struct AppPaths {
    pub config_dir: String,
    pub state_dir: String,
    pub config_path: String,
    pub portable_config_path: String,
    pub log_path: String,
}

/// The configuration start-up settled on, what it reported, and where the
/// files are.
#[derive(Debug, Clone, PartialEq, Eq)]
pub struct StartupConfig {
    pub config: AppConfig,
    pub diagnostics: Vec<DiagnosticEvent>,
    pub paths: AppPaths,
}

/// `name` inside `base`: the name alone under an empty base, no second
/// separator after a base that ends in one.
pub open spec fn path_join(base: Seq<char>, name: Seq<char>) -> Seq<char> {
    if base.len() == 0 {
        name
    } else if base.last() == '/' {
        base + name
    } else {
        base + "/"@ + name
    }
}

pub fn join_path(base: &str, name: &str) -> (r: String)
    ensures
        r@ == path_join(base@, name@),
{
    let n = base.unicode_len();
    let mut out = base.to_owned();
    if n > 0 && base.get_char(n - 1) != '/' {
        append_str(&mut out, "/");
        proof {
            reveal_strlit("/");
        }
    }
    append_str(&mut out, name);
    out
}

pub open spec fn config_dir_of(config_root: Seq<char>) -> Seq<char> {
    path_join(config_root, APP_DIR_NAME@)
}

pub open spec fn state_dir_of(state_root: Seq<char>) -> Seq<char> {
    path_join(state_root, APP_DIR_NAME@)
}

impl AppPaths {
    /// The layout under the given configuration and state roots: an
    /// application directory in each, the configuration files in the first
    /// and the log in the second.
    pub fn under(config_root: &str, state_root: &str) -> (r: Self)
        ensures
            r.config_dir@ == config_dir_of(config_root@),
            r.state_dir@ == state_dir_of(state_root@),
            r.config_path@ == path_join(config_dir_of(config_root@), CONFIG_FILE_NAME@),
            r.portable_config_path@ == path_join(config_dir_of(config_root@), PORTABLE_CONFIG_FILE_NAME@),
            r.log_path@ == path_join(state_dir_of(state_root@), LOG_FILE_NAME@),
    {
        let config_dir = join_path(config_root, APP_DIR_NAME);
        let state_dir = join_path(state_root, APP_DIR_NAME);
        let config_path = join_path(config_dir.as_str(), CONFIG_FILE_NAME);
        let portable_config_path = join_path(config_dir.as_str(), PORTABLE_CONFIG_FILE_NAME);
        let log_path = join_path(state_dir.as_str(), LOG_FILE_NAME);
        AppPaths { config_dir, state_dir, config_path, portable_config_path, log_path }
    }
}

pub open spec fn default_root(xdg: Option<Seq<char>>, home: Option<Seq<char>>, under_home: Seq<char>) -> Seq<char> {
    match xdg {
        Some(x) => x,
        None => match home {
            Some(h) => path_join(h, under_home),
            None => "."@,
        },
    }
}

pub open spec fn opt_str_view(o: Option<&str>) -> Option<Seq<char>> {
    match o {
        Some(s) => Some(s@),
        None => None,
    }
}

/// The configuration root when none is set for the application:
/// `XDG_CONFIG_HOME`, else `.config` in the home directory, else `.`.
pub fn default_config_root(xdg_config_home: Option<&str>, home: Option<&str>) -> (r: String)
    ensures
        r@ == default_root(opt_str_view(xdg_config_home), opt_str_view(home), ".config"@),
{
    match xdg_config_home {
        Some(x) => x.to_owned(),
        None => match home {
            Some(h) => join_path(h, ".config"),
            None => ".".to_owned(),
        },
    }
}

/// The state root when none is set for the application:
/// `XDG_STATE_HOME`, else `.local/state` in the home directory, else `.`.
pub fn default_state_root(xdg_state_home: Option<&str>, home: Option<&str>) -> (r: String)
    ensures
        r@ == default_root(opt_str_view(xdg_state_home), opt_str_view(home), ".local/state"@),
{
    match xdg_state_home {
        Some(x) => x.to_owned(),
        None => match home {
            Some(h) => join_path(h, ".local/state"),
            None => ".".to_owned(),
        },
    }
}

/// The file name an unusable configuration is moved to.
pub fn invalid_config_backup_name(now_unix_secs: u64) -> (r: String)
    ensures
        r@ == "config.invalid-"@ + decimal(now_unix_secs as nat) + ".toml"@,
{
    let mut out = "config.invalid-".to_owned();
    append_decimal(&mut out, now_unix_secs);
    append_str(&mut out, ".toml");
    out
}

/// Level, component and message of an event.
pub open spec fn event_is(e: DiagnosticEventView, level: DiagnosticLevel, component: Seq<char>, message: Seq<char>) -> bool {
    e.level == level && e.component == component && e.message == message
}

/// Whether a loaded configuration must be written back: it was repaired.
pub fn needs_write_back(report: &ConfigLoadReport) -> (r: bool)
    ensures
        r == report.repaired,
{
    report.repaired
}

/// The events for a saved configuration that was read: one that says it
/// was loaded; or, where it was repaired, one that says so, one per repair
/// warning, and one more if writing it back failed.
pub fn loaded_config_events(config_path: &str, report: &ConfigLoadReport, write_back_error: Option<&str>) -> (r:
    Vec<DiagnosticEvent>)
    ensures
        !report.repaired ==> r@.len() == 1 && event_is(
            r@[0]@,
            DiagnosticLevel::Info,
            "config"@,
            "Loaded configuration from "@ + config_path@ + "."@,
        ),
        report.repaired ==> {
            &&& r@.len() == 1 + report.warnings@.len() + (if write_back_error is Some { 1int } else { 0 })
            &&& event_is(
                r@[0]@,
                DiagnosticLevel::Warning,
                "config"@,
                "Saved configuration at "@ + config_path@ + " was repaired before use."@,
            )
            &&& forall|i: int|
                0 <= i < report.warnings@.len() ==> event_is(
                    #[trigger] r@[i + 1]@,
                    DiagnosticLevel::Warning,
                    "config"@,
                    report.warnings@[i]@,
                )
            &&& write_back_error matches Some(e) ==> event_is(
                r@[r@.len() - 1]@,
                DiagnosticLevel::Warning,
                "config"@,
                "Repaired configuration could not be written back to "@ + config_path@ + ": "@ + e@,
            )
        },
{
    let mut events: Vec<DiagnosticEvent> = Vec::new();
    if report.repaired {
        let mut message = "Saved configuration at ".to_owned();
        append_str(&mut message, config_path);
        append_str(&mut message, " was repaired before use.");
        events.push(DiagnosticEvent::warning("config", message.as_str()));
        let mut i: usize = 0;
        while i < report.warnings.len()
            invariant
                i <= report.warnings@.len(),
                events@.len() == 1 + i,
                event_is(
                    events@[0]@,
                    DiagnosticLevel::Warning,
                    "config"@,
                    "Saved configuration at "@ + config_path@ + " was repaired before use."@,
                ),
                forall|j: int|
                    0 <= j < i ==> event_is(
                        #[trigger] events@[j + 1]@,
                        DiagnosticLevel::Warning,
                        "config"@,
                        report.warnings@[j]@,
                    ),
            decreases report.warnings@.len() - i,
        {
            events.push(DiagnosticEvent::warning("config", report.warnings[i].as_str()));
            i = i + 1;
        }
        match write_back_error {
            Some(e) => {
                let mut message = "Repaired configuration could not be written back to ".to_owned();
                append_str(&mut message, config_path);
                append_str(&mut message, ": ");
                append_str(&mut message, e);
                events.push(DiagnosticEvent::warning("config", message.as_str()));
            },
            None => {},
        }
    } else {
        let mut message = "Loaded configuration from ".to_owned();
        append_str(&mut message, config_path);
        append_str(&mut message, ".");
        events.push(DiagnosticEvent::info("config", message.as_str()));
    }
    events
}

/// The event for a start without a saved configuration, after the defaults
/// were saved (`save_error` is `None`) or saving them failed.
pub fn missing_config_event(config_path: &str, save_error: Option<&str>) -> (r: DiagnosticEvent)
    ensures
        save_error is None ==> event_is(
            r@,
            DiagnosticLevel::Info,
            "config"@,
            "No saved configuration was found; created a default config at "@ + config_path@ + "."@,
        ),
        save_error matches Some(e) ==> event_is(
            r@,
            DiagnosticLevel::Warning,
            "config"@,
            "No saved configuration was found; running with defaults, but saving "@ + config_path@ + " failed: "@
                + e@,
        ),
{
    match save_error {
        None => {
            let mut message = "No saved configuration was found; created a default config at ".to_owned();
            append_str(&mut message, config_path);
            append_str(&mut message, ".");
            DiagnosticEvent::info("config", message.as_str())
        },
        Some(e) => {
            let mut message = "No saved configuration was found; running with defaults, but saving ".to_owned();
            append_str(&mut message, config_path);
            append_str(&mut message, " failed: ");
            append_str(&mut message, e);
            DiagnosticEvent::warning("config", message.as_str())
        },
    }
}

/// The events for a saved configuration that could not be used: one that
/// names the error (and the backup, where one was made), and one more if
/// saving the defaults failed.
pub fn unusable_config_events(
    config_path: &str,
    error_text: &str,
    backup_path: Option<&str>,
    save_error: Option<&str>,
) -> (r: Vec<DiagnosticEvent>)
    ensures
        r@.len() == 1 + (if save_error is Some { 1int } else { 0 }),
        event_is(
            r@[0]@,
            DiagnosticLevel::Warning,
            "config"@,
            "Saved configuration could not be used ("@ + error_text@ + "); falling back to defaults."@ + (
            match backup_path {
                Some(b) => " A backup was written to "@ + b@ + "."@,
                None => Seq::<char>::empty(),
            }),
        ),
        save_error matches Some(e) ==> event_is(
            r@[1]@,
            DiagnosticLevel::Warning,
            "config"@,
            "Default configuration could not be re-saved to "@ + config_path@ + ": "@ + e@,
        ),
{
    let mut events: Vec<DiagnosticEvent> = Vec::new();
    let mut message = "Saved configuration could not be used (".to_owned();
    append_str(&mut message, error_text);
    append_str(&mut message, "); falling back to defaults.");
    match backup_path {
        Some(b) => {
            append_str(&mut message, " A backup was written to ");
            append_str(&mut message, b);
            append_str(&mut message, ".");
        },
        None => {},
    }
    assert(message@ =~= "Saved configuration could not be used ("@ + error_text@ + "); falling back to defaults."@ + (
    match backup_path {
        Some(b) => " A backup was written to "@ + b@ + "."@,
        None => Seq::<char>::empty(),
    }));
    events.push(DiagnosticEvent::warning("config", message.as_str()));
    match save_error {
        Some(e) => {
            let mut message = "Default configuration could not be re-saved to ".to_owned();
            append_str(&mut message, config_path);
            append_str(&mut message, ": ");
            append_str(&mut message, e);
            events.push(DiagnosticEvent::warning("config", message.as_str()));
        },
        None => {},
    }
    events
}

/// What start-up does with the result of loading the saved configuration.
#[derive(Debug, Clone, Copy, PartialEq, Eq, Structural)]
pub enum StartupPlan {
    /// Use the configuration read (writing it back if it was repaired).
    UseLoaded,
    /// Nothing was saved yet: create the default configuration.
    CreateDefault,
    /// The saved file could not be used: back it up and replace it with the
    /// default configuration.
    ReplaceUnusable,
}

/// A loaded configuration is used; a file that is missing is created with
/// the defaults; any other failure replaces the file with the defaults.
pub fn startup_plan(loaded: &Result<ConfigLoadReport, ConfigError>) -> (r: StartupPlan)
    ensures
        r == match loaded {
            Ok(_) => StartupPlan::UseLoaded,
            Err(ConfigError::Read { source, .. }) => if source.kind == IoErrorKind::NotFound {
                StartupPlan::CreateDefault
            } else {
                StartupPlan::ReplaceUnusable
            },
            Err(_) => StartupPlan::ReplaceUnusable,
        },
{
    match loaded {
        Ok(_) => StartupPlan::UseLoaded,
        Err(ConfigError::Read { source, .. }) => match source.kind {
            IoErrorKind::NotFound => StartupPlan::CreateDefault,
            _ => StartupPlan::ReplaceUnusable,
        },
        Err(_) => StartupPlan::ReplaceUnusable,
    }
}

} // verus!
