use kara::cli::{DebugMode, Interface};
use kara::config::state::{
    parse_interface, parse_log_level, parse_units, ConfigError, ParsedConfig, Units, Window,
};
use kara::config::{
    trim_str, ConfigFile, GeneralSettingsFile, NluFile, SpeechToTextFile, SttKaraFile, WindowFile,
};
use kara::stt_sources::{stt_source, STTConfig, STTSource, SttError};

fn empty_file() -> ConfigFile {
    ConfigFile { general_settings: None, nlu: None, window: None }
}

fn file_with_source(source: &str, model_path: Option<&str>) -> ConfigFile {
    ConfigFile {
        general_settings: None,
        nlu: Some(NluFile {
            stt: Some(SpeechToTextFile {
                source: Some(String::from(source)),
                kara_config: model_path.map(|p| SttKaraFile { model_path: Some(String::from(p)) }),
            }),
        }),
        window: None,
    }
}

#[test]
fn trimming_strips_ascii_whitespace_from_both_ends() {
    assert_eq!(trim_str("  hello \t\r\n"), "hello");
    assert_eq!(trim_str("hello"), "hello");
    assert_eq!(trim_str(" \t "), "");
    assert_eq!(trim_str(""), "");
}

#[test]
fn units_read_case_insensitively_with_a_metric_fallback() {
    assert_eq!(parse_units(" MeTriC "), Units::Metric);
    assert_eq!(parse_units("IMPERIAL"), Units::Imperial);
    assert_eq!(parse_units("imperial"), Units::Imperial);
    assert_eq!(parse_units("feet"), Units::Metric);
    assert_eq!(parse_units(""), Units::Metric);
}

#[test]
fn interface_reads_case_insensitively_with_a_gui_fallback() {
    assert_eq!(parse_interface("CLI"), Interface::Cli);
    assert_eq!(parse_interface(" gui"), Interface::Gui);
    assert_eq!(parse_interface("tui"), Interface::Gui);
}

#[test]
fn log_level_reads_case_insensitively_with_a_warn_fallback() {
    assert_eq!(parse_log_level("trace"), DebugMode::Trace);
    assert_eq!(parse_log_level("Debug"), DebugMode::Debug);
    assert_eq!(parse_log_level("INFO"), DebugMode::Info);
    assert_eq!(parse_log_level(" warn\n"), DebugMode::Warn);
    assert_eq!(parse_log_level("Error"), DebugMode::Error);
    assert_eq!(parse_log_level("chatty"), DebugMode::Warn);
}

#[test]
fn an_empty_file_yields_all_defaults() {
    let parsed = ParsedConfig::from_file(empty_file(), String::from("/models"))
        .expect("an empty file is acceptable");
    assert_eq!(parsed.general_settings.units, Units::Metric);
    assert_eq!(parsed.general_settings.startup_mode, Interface::Gui);
    assert_eq!(parsed.general_settings.log_level, DebugMode::Warn);
    assert_eq!(parsed.nlu.stt.source, STTConfig::Kara(String::from("/models")));
    assert_eq!(parsed.window.opacity, 100);
    assert!(!parsed.window.decorations);
    assert_eq!(parsed.window.title, "Kara");
}

#[test]
fn a_full_file_is_interpreted_field_by_field() {
    let conf = ConfigFile {
        general_settings: Some(GeneralSettingsFile {
            default_mode: Some(String::from(" Cli ")),
            log_level: Some(String::from("TRACE")),
            units: Some(String::from("Imperial")),
        }),
        nlu: Some(NluFile {
            stt: Some(SpeechToTextFile {
                source: Some(String::from("Kara")),
                kara_config: Some(SttKaraFile { model_path: Some(String::from("/opt/model")) }),
            }),
        }),
        window: Some(WindowFile {
            opacity: Some(80),
            decorations: Some(true),
            title: Some(String::from("Assistant")),
        }),
    };
    let parsed = ParsedConfig::from_file(conf, String::from("/models")).expect("acceptable");
    assert_eq!(parsed.general_settings.startup_mode, Interface::Cli);
    assert_eq!(parsed.general_settings.log_level, DebugMode::Trace);
    assert_eq!(parsed.general_settings.units, Units::Imperial);
    assert_eq!(parsed.nlu.stt.source, STTConfig::Kara(String::from("/opt/model")));
    assert_eq!(parsed.window.opacity, 80);
    assert!(parsed.window.decorations);
    assert_eq!(parsed.window.title, "Assistant");
}

#[test]
fn naming_the_kara_backend_without_a_path_uses_the_default() {
    let parsed = ParsedConfig::from_file(file_with_source("kara", None), String::from("/models"))
        .expect("acceptable");
    assert_eq!(parsed.nlu.stt.source, STTConfig::Kara(String::from("/models")));
}

#[test]
fn naming_an_unimplemented_backend_is_refused() {
    let refused = ParsedConfig::from_file(file_with_source("watson", None), String::from("/m"));
    assert_eq!(refused, Err(ConfigError::UnsupportedSttSource));
    let refused = ParsedConfig::from_file(file_with_source("gcp", None), String::from("/m"));
    assert_eq!(refused, Err(ConfigError::UnsupportedSttSource));
}

#[test]
fn default_window_is_opaque_and_plain() {
    let w = Window::default();
    assert_eq!(w.opacity, 100);
    assert!(!w.decorations);
    assert_eq!(w.title, "Kara");
    assert_eq!(Window::get_app_name(), "Kara");
}

#[test]
fn base_stt_config_points_at_the_given_path() {
    assert_eq!(STTConfig::base("/somewhere"), STTConfig::Kara(String::from("/somewhere")));
}

#[test]
fn only_the_local_backend_can_be_selected() {
    let selected = stt_source(&STTConfig::Kara(String::from("/m")));
    assert_eq!(selected, Ok(STTSource::Kara(String::from("/m"))));
    assert_eq!(stt_source(&STTConfig::Gcp), Err(SttError::NotImplemented));
    assert_eq!(stt_source(&STTConfig::Watson), Err(SttError::NotImplemented));
}
