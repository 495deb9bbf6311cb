//! The interpreted configuration: every setting normalized, defaulted, and
//! typed. The interpretation of each string setting is ASCII
//! case-insensitive on the trimmed value, and every absent or unreadable
//! setting falls back to its default.
use vstd::prelude::*;

use crate::cli::{DebugMode, Interface};
use crate::config::{
    eq_ignore_case, eq_nocase, trim_str, trimmed, ConfigFile, GeneralSettingsFile, NluFile,
    WindowFile,
};
use crate::stt_sources::STTConfig;

verus! {

/// The measurement system spoken answers use.
#[derive(Debug, Clone, Copy, PartialEq, Eq, Structural)]
pub enum Units {
    Metric,
    Imperial,
}

/// Why a configuration file was refused.
#[derive(Debug, Clone, Copy, PartialEq, Eq, Structural)]
pub enum ConfigError {
    /// The `source` setting names a speech-to-text backend that exists in
    /// name only.
    UnsupportedSttSource,
}

/// The fully interpreted configuration.
#[derive(Debug, Clone, PartialEq)]
pub struct ParsedConfig {
    pub general_settings: GeneralSettings,
    pub nlu: Nlu,
    pub window: Window,
}

/// The interpreted window section; `opacity` is in hundredths.
#[derive(Debug, Clone, PartialEq, Eq)]
pub struct Window {
    pub opacity: u32,
    pub decorations: bool,
    pub title: String,
}

/// The interpreted general settings.
#[derive(Debug, Clone, Copy, PartialEq, Eq, Structural)]
pub struct GeneralSettings {
    pub startup_mode: Interface,
    pub log_level: DebugMode,
    pub units: Units,
}

/// The interpreted language-understanding settings.
#[derive(Debug, Clone, PartialEq)]
pub struct Nlu {
    pub stt: SpeechToText,
}

/// The interpreted speech-to-text settings.
#[derive(Debug, Clone, PartialEq)]
pub struct SpeechToText {
    pub source: STTConfig,
}

/// How a `units` value reads: `metric` or `imperial`, any case, any
/// surrounding whitespace; anything else falls back to metric.
pub open spec fn units_of(s: Seq<char>) -> Units {
    if eq_nocase(trimmed(s), "metric"@) {
        Units::Metric
    } else if eq_nocase(trimmed(s), "imperial"@) {
        Units::Imperial
    } else {
        Units::Metric
    }
}

/// How a `default-mode` value reads: `gui` or `cli`; anything else falls
/// back to the GUI.
pub open spec fn interface_of(s: Seq<char>) -> Interface {
    if eq_nocase(trimmed(s), "gui"@) {
        Interface::Gui
    } else if eq_nocase(trimmed(s), "cli"@) {
        Interface::Cli
    } else {
        Interface::Gui
    }
}

/// How a `log-level` value reads; anything unrecognized falls back to
/// warnings only.
pub open spec fn log_level_of(s: Seq<char>) -> DebugMode {
    if eq_nocase(trimmed(s), "trace"@) {
        DebugMode::Trace
    } else if eq_nocase(trimmed(s), "debug"@) {
        DebugMode::Debug
    } else if eq_nocase(trimmed(s), "info"@) {
        DebugMode::Info
    } else if eq_nocase(trimmed(s), "warn"@) {
        DebugMode::Warn
    } else if eq_nocase(trimmed(s), "error"@) {
        DebugMode::Error
    } else {
        DebugMode::Warn
    }
}

/// The `units` setting of a decoded file, defaulted when absent.
pub open spec fn units_field_of(gs: Option<GeneralSettingsFile>) -> Units {
    match gs {
        Option::Some(g) => match g.units {
            Option::Some(u) => units_of(u@),
            Option::None => Units::Metric,
        },
        Option::None => Units::Metric,
    }
}

/// The `default-mode` setting of a decoded file, defaulted when absent.
pub open spec fn interface_field_of(gs: Option<GeneralSettingsFile>) -> Interface {
    match gs {
        Option::Some(g) => match g.default_mode {
            Option::Some(m) => interface_of(m@),
            Option::None => Interface::Gui,
        },
        Option::None => Interface::Gui,
    }
}

/// The `log-level` setting of a decoded file, defaulted when absent.
pub open spec fn log_field_of(gs: Option<GeneralSettingsFile>) -> DebugMode {
    match gs {
        Option::Some(g) => match g.log_level {
            Option::Some(l) => log_level_of(l@),
            Option::None => DebugMode::Warn,
        },
        Option::None => DebugMode::Warn,
    }
}

/// Whether the speech-to-text section is acceptable: either no backend is
/// named, or the named backend reads `kara`.
pub open spec fn stt_acceptable(nlu: Option<NluFile>) -> bool {
    match nlu {
        Option::Some(n) => match n.stt {
            Option::Some(stt) => match stt.source {
                Option::Some(src) => eq_nocase(trimmed(src@), "kara"@),
                Option::None => true,
            },
            Option::None => true,
        },
        Option::None => true,
    }
}

/// The model path of an acceptable speech-to-text section: the configured
/// path when the `kara` backend is named and carries one, otherwise the
/// caller-supplied platform default.
pub open spec fn stt_path_of(nlu: Option<NluFile>, default_path: Seq<char>) -> Seq<char> {
    match nlu {
        Option::Some(n) => match n.stt {
            Option::Some(stt) => match stt.source {
                Option::Some(src) => match stt.kara_config {
                    Option::Some(k) => match k.model_path {
                        Option::Some(mp) => mp@,
                        Option::None => default_path,
                    },
                    Option::None => default_path,
                },
                Option::None => default_path,
            },
            Option::None => default_path,
        },
        Option::None => default_path,
    }
}

/// The window opacity of a decoded file, in hundredths; fully opaque when
/// absent.
pub open spec fn opacity_of(w: Option<WindowFile>) -> u32 {
    match w {
        Option::Some(win) => match win.opacity {
            Option::Some(o) => o,
            Option::None => 100,
        },
        Option::None => 100,
    }
}

/// The window decoration choice of a decoded file; plain when absent.
pub open spec fn decorations_of(w: Option<WindowFile>) -> bool {
    match w {
        Option::Some(win) => match win.decorations {
            Option::Some(d) => d,
            Option::None => false,
        },
        Option::None => false,
    }
}

/// The window title of a decoded file; the application name when absent.
pub open spec fn title_of(w: Option<WindowFile>) -> Seq<char> {
    match w {
        Option::Some(win) => match win.title {
            Option::Some(t) => t@,
            Option::None => "Kara"@,
        },
        Option::None => "Kara"@,
    }
}

/// Reads a `units` value.
pub fn parse_units(s: &str) -> (u: Units)
    ensures
        u == units_of(s@),
{
    let t = trim_str(s);
    if eq_ignore_case(t, "metric") {
        Units::Metric
    } else if eq_ignore_case(t, "imperial") {
        Units::Imperial
    } else {
        Units::Metric
    }
}

/// Reads a `default-mode` value.
pub fn parse_interface(s: &str) -> (i: Interface)
    ensures
        i == interface_of(s@),
{
    let t = trim_str(s);
    if eq_ignore_case(t, "gui") {
        Interface::Gui
    } else if eq_ignore_case(t, "cli") {
        Interface::Cli
    } else {
        Interface::Gui
    }
}

/// Reads a `log-level` value.
pub fn parse_log_level(s: &str) -> (d: DebugMode)
    ensures
        d == log_level_of(s@),
{
    let t = trim_str(s);
    if eq_ignore_case(t, "trace") {
        DebugMode::Trace
    } else if eq_ignore_case(t, "debug") {
        DebugMode::Debug
    } else if eq_ignore_case(t, "info") {
        DebugMode::Info
    } else if eq_ignore_case(t, "warn") {
        DebugMode::Warn
    } else if eq_ignore_case(t, "error") {
        DebugMode::Error
    } else {
        DebugMode::Warn
    }
}

impl Window {
    /// The application's display name, used as the default window title.
    pub fn get_app_name() -> (s: String)
        ensures
            s@ == "Kara"@,
    {
        "Kara".to_owned()
    }
}

impl Default for Window {
    /// Fully opaque, undecorated, titled with the application name.
    fn default() -> (w: Window)
        ensures
            w.opacity == 100,
            !w.decorations,
            w.title@ == "Kara"@,
    {
        Window { opacity: 100, decorations: false, title: Window::get_app_name() }
    }
}

impl ParsedConfig {
    /// Interprets a decoded configuration file. `default_model_path` is the
    /// platform's default model directory, supplied by the caller because
    /// only the surrounding program can look it up. The file is refused
    /// exactly when it names a speech-to-text backend other than `kara`.
    pub fn from_file(conf: ConfigFile, default_model_path: String) -> (r: Result<
        ParsedConfig,
        ConfigError,
    >)
        ensures
            r is Ok <==> stt_acceptable(conf.nlu),
            r matches Result::Ok(p) ==> {
                &&& p.general_settings.units == units_field_of(conf.general_settings)
                &&& p.general_settings.startup_mode == interface_field_of(conf.general_settings)
                &&& p.general_settings.log_level == log_field_of(conf.general_settings)
                &&& (p.nlu.stt.source matches STTConfig::Kara(m) && m@ == stt_path_of(
                    conf.nlu,
                    default_model_path@,
                ))
                &&& p.window.opacity == opacity_of(conf.window)
                &&& p.window.decorations == decorations_of(conf.window)
                &&& p.window.title@ == title_of(conf.window)
            },
            r matches Result::Err(e) ==> e == ConfigError::UnsupportedSttSource,
    {
        let ConfigFile { general_settings, nlu, window } = conf;
        let units = match &general_settings {
            Option::Some(g) => match &g.units {
                Option::Some(u) => parse_units(u.as_str()),
                Option::None => Units::Metric,
            },
            Option::None => Units::Metric,
        };
        let startup_mode = match &general_settings {
            Option::Some(g) => match &g.default_mode {
                Option::Some(m) => parse_interface(m.as_str()),
                Option::None => Interface::Gui,
            },
            Option::None => Interface::Gui,
        };
        let log_level = match &general_settings {
            Option::Some(g) => match &g.log_level {
                Option::Some(l) => parse_log_level(l.as_str()),
                Option::None => DebugMode::Warn,
            },
            Option::None => DebugMode::Warn,
        };
        let source = match nlu {
            Option::Some(n) => match n.stt {
                Option::Some(stt) => match stt.source {
                    Option::Some(src) => {
                        let t = trim_str(src.as_str());
                        if eq_ignore_case(t, "kara") {
                            let path = match stt.kara_config {
                                Option::Some(k) => match k.model_path {
                                    Option::Some(mp) => mp,
                                    Option::None => default_model_path,
                                },
                                Option::None => default_model_path,
                            };
                            STTConfig::Kara(path)
                        } else {
                            return Result::Err(ConfigError::UnsupportedSttSource);
                        }
                    },
                    Option::None => STTConfig::Kara(default_model_path),
                },
                Option::None => STTConfig::Kara(default_model_path),
            },
            Option::None => STTConfig::Kara(default_model_path),
        };
        let window = match window {
            Option::Some(win) => {
                let opacity = match win.opacity {
                    Option::Some(o) => o,
                    Option::None => 100,
                };
                let decorations = match win.decorations {
                    Option::Some(d) => d,
                    Option::None => false,
                };
                let title = match win.title {
                    Option::Some(t) => t,
                    Option::None => Window::get_app_name(),
                };
                Window { opacity, decorations, title }
            },
            Option::None => Window::default(),
        };
        Result::Ok(
            ParsedConfig {
                general_settings: GeneralSettings { startup_mode, log_level, units },
                nlu: Nlu { stt: SpeechToText { source } },
                window,
            },
        )
    }
}

} // verus!
