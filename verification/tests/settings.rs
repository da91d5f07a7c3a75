use print_my_bridge::api::cors_policy;
use print_my_bridge::api::health;
use print_my_bridge::api::CorsPolicy;
use print_my_bridge::api::BODY_LIMIT_BYTES;
use print_my_bridge::config::generate_secure_token;
use print_my_bridge::config::token_from_picks;
use print_my_bridge::config::Config;
use print_my_bridge::error::BridgeError;
use print_my_bridge::gui::auto_start_changed;
use print_my_bridge::gui::auto_start_command;
use print_my_bridge::gui::auto_start_outcome;
use print_my_bridge::gui::bridge_status;
use print_my_bridge::gui::health_url;
use print_my_bridge::gui::menu_action;
use print_my_bridge::gui::tray_click_action;
use print_my_bridge::gui::tray_menu;
use print_my_bridge::gui::BridgeStatus;
use print_my_bridge::gui::ShellAction;
use print_my_bridge::logging::default_log_dir_parts;
use print_my_bridge::logging::LogSink;
use print_my_bridge::logging::LoggingConfig;
use print_my_bridge::logging::Platform;
use print_my_bridge::printer::Invocation;
use print_my_bridge::printer::ProcessOutput;
use print_my_bridge::rate::WINDOW_SECONDS;

fn texts(items: &[&str]) -> Vec<String> {
    items.iter().map(|s| s.to_string()).collect()
}

#[test]
fn the_default_settings() {
    let config = Config::default();
    assert_eq!(
        config,
        Config {
            host: "127.0.0.1".to_string(),
            port: 8765,
            max_file_size_mb: 50,
            rate_limit_per_minute: 60,
            api_token: None,
            auto_start: false,
            minimize_to_tray: true,
            allowed_origins: texts(&["*"]),
            allowed_file_types: texts(&["pdf", "html", "text", "image"]),
            default_printer: None,
        }
    );
    assert!(config.is_valid());
}

#[test]
fn settings_need_a_content_type_and_a_positive_rate() {
    let mut config = Config::default();
    config.rate_limit_per_minute = 0;
    assert!(!config.is_valid());
    config.rate_limit_per_minute = 1;
    assert!(config.is_valid());
    config.allowed_file_types.clear();
    assert!(!config.is_valid());
}

#[test]
fn a_token_has_32_letters_and_digits() {
    let mut seen = std::collections::HashSet::new();
    for _ in 0..200 {
        let token = generate_secure_token();
        assert_eq!(token.len(), 32);
        assert!(token.chars().all(|c| c.is_ascii_alphanumeric()), "{:?}", token);
        seen.insert(token);
    }
    assert!(seen.len() > 1);
}

#[test]
fn picks_spell_out_a_token() {
    assert_eq!(token_from_picks(&vec![0, 25, 26, 51, 52, 61]), "AZaz09");
    assert_eq!(token_from_picks(&vec![62, 63, 124, usize::MAX - usize::MAX % 62]), "ABAA");
    assert_eq!(token_from_picks(&vec![]), "");
}

#[test]
fn every_failure_has_its_text_and_status() {
    let cases = [
        (BridgeError::PrinterError("x".to_string()), "Error de impresora: x", 500),
        (BridgeError::PrintError("x".to_string()), "Error de impresión: x", 500),
        (BridgeError::UnsupportedFormat("csv".to_string()), "Formato no soportado: csv", 400),
        (BridgeError::IoError("x".to_string()), "Error de IO: x", 500),
        (BridgeError::Base64Error("x".to_string()), "Error de decodificación base64: x", 500),
        (BridgeError::ConfigError("x".to_string()), "Error de configuración: x", 500),
        (BridgeError::Unauthorized, "No autorizado", 401),
        (BridgeError::RateLimitExceeded, "Límite de velocidad excedido", 429),
        (BridgeError::FileTooLarge, "Archivo demasiado grande", 413),
    ];
    for (error, text, status) in cases {
        assert_eq!(error.message(), text);
        assert_eq!(error.status_code(), status);
    }
}

#[test]
fn the_wildcard_allows_any_origin() {
    let policy = cors_policy(&Config::default());
    assert_eq!(
        policy,
        CorsPolicy {
            allow_any_origin: true,
            origins: vec![],
            headers: texts(&["content-type", "authorization", "x-api-token"]),
            methods: texts(&["GET", "POST", "OPTIONS"]),
        }
    );
    assert!(policy.allows_origin("https://anything.example"));
    let mut config = Config::default();
    config.allowed_origins = texts(&["https://a.example", "*"]);
    assert!(cors_policy(&config).allow_any_origin);
    assert!(cors_policy(&config).allows_origin("https://b.example"));
}

#[test]
fn without_the_wildcard_only_the_configured_origins_are_allowed() {
    let mut config = Config::default();
    config.allowed_origins = texts(&["https://a.example", "http://localhost:3000"]);
    let policy = cors_policy(&config);
    assert!(!policy.allow_any_origin);
    assert_eq!(policy.origins, texts(&["https://a.example", "http://localhost:3000"]));
    assert_eq!(policy.headers, texts(&["content-type", "authorization", "x-api-token"]));
    assert_eq!(policy.methods, texts(&["GET", "POST", "OPTIONS"]));
    assert!(policy.allows_origin("https://a.example"));
    assert!(policy.allows_origin("http://localhost:3000"));
    assert!(!policy.allows_origin("http://a.example"));
    assert!(!policy.allows_origin("https://a.example/"));
    config.allowed_origins = vec![];
    assert!(!cors_policy(&config).allows_origin("https://a.example"));
}

#[test]
fn the_health_answer() {
    let report = health("1.2.3");
    assert_eq!(report.status, "ok");
    assert_eq!(report.service, "print-my-bridge");
    assert_eq!(report.version, "1.2.3");
}

#[test]
fn the_fixed_limits() {
    assert_eq!(BODY_LIMIT_BYTES, 1024 * 1024 * 50);
    assert_eq!(WINDOW_SECONDS, 60);
}

#[test]
fn the_status_shown_by_the_shell() {
    let mut config = Config::default();
    config.host = "localhost".to_string();
    config.port = 80;
    assert_eq!(health_url(&config), "http://localhost:80/health");
    assert_eq!(health_url(&Config::default()), "http://127.0.0.1:8765/health");
    assert_eq!(
        bridge_status(&config, true, "0.1.0"),
        BridgeStatus { active: true, port: 80, version: "0.1.0".to_string(), requests_processed: 0 }
    );
    assert!(!bridge_status(&config, false, "0.1.0").active);
}

#[test]
fn only_a_changed_flag_touches_the_login_items() {
    let old = Config::default();
    let mut new = Config::default();
    new.port = 1;
    assert!(!auto_start_changed(&old, &new));
    new.auto_start = true;
    assert!(auto_start_changed(&old, &new));
    assert!(auto_start_changed(&new, &old));
}

#[test]
fn the_registry_commands() {
    let key = "HKEY_CURRENT_USER\\Software\\Microsoft\\Windows\\CurrentVersion\\Run";
    assert_eq!(
        auto_start_command(true, "C:\\Program Files\\bridge.exe"),
        Invocation {
            program: "reg".to_string(),
            args: texts(&[
                "add",
                key,
                "/v",
                "Print My Bridge",
                "/t",
                "REG_SZ",
                "/d",
                "\"C:\\Program Files\\bridge.exe\"",
                "/f",
            ]),
        }
    );
    assert_eq!(
        auto_start_command(false, "ignored"),
        Invocation {
            program: "reg".to_string(),
            args: texts(&["delete", key, "/v", "Print My Bridge", "/f"]),
        }
    );
}

#[test]
fn the_outcome_of_the_registry_command() {
    let out = |success: bool, stderr: &str| ProcessOutput {
        success,
        stdout: vec![],
        stderr: stderr.as_bytes().to_vec(),
    };
    assert_eq!(auto_start_outcome(true, &out(true, "noise")), Ok(()));
    assert_eq!(auto_start_outcome(false, &out(true, "noise")), Ok(()));
    assert_eq!(
        auto_start_outcome(true, &out(false, "Access is denied.")),
        Err("Failed to enable auto-start: Access is denied.".to_string())
    );
    assert_eq!(
        auto_start_outcome(false, &out(false, "Access is denied.")),
        Err("Failed to disable auto-start: Access is denied.".to_string())
    );
    let missing = "ERROR: The system was unable to find the specified registry key or value.";
    assert_eq!(auto_start_outcome(false, &out(false, missing)), Ok(()));
    assert_eq!(
        auto_start_outcome(true, &out(false, missing)),
        Err(format!("Failed to enable auto-start: {}", missing))
    );
}

#[test]
fn the_default_log_settings() {
    let config = LoggingConfig::with_log_dir(std::path::PathBuf::from("/var/log/bridge"));
    assert_eq!(config.level, "info");
    assert!(config.file_enabled);
    assert!(config.console_enabled);
    assert!(!config.json_format);
    assert_eq!(config.log_dir, std::path::PathBuf::from("/var/log/bridge"));
    assert!(config.needs_log_dir());
    assert_eq!(config.sinks(), vec![LogSink::ConsolePretty, LogSink::FileJson]);
}

#[test]
fn the_sinks_follow_the_settings() {
    let mut config = LoggingConfig::with_log_dir(std::path::PathBuf::from("."));
    config.json_format = true;
    assert_eq!(config.sinks(), vec![LogSink::ConsoleJson, LogSink::FileJson]);
    config.file_enabled = false;
    assert!(!config.needs_log_dir());
    assert_eq!(config.sinks(), vec![LogSink::ConsoleJson]);
    config.console_enabled = false;
    assert_eq!(config.sinks(), Vec::<LogSink>::new());
    config.file_enabled = true;
    assert_eq!(config.sinks(), vec![LogSink::FileJson]);
}

#[test]
fn the_log_directory_of_each_platform() {
    assert_eq!(default_log_dir_parts(Platform::Windows), texts(&["print-my-bridge", "logs"]));
    assert_eq!(default_log_dir_parts(Platform::MacOs), texts(&["Library", "Logs", "print-my-bridge"]));
    assert_eq!(default_log_dir_parts(Platform::Linux), texts(&["print-my-bridge", "logs"]));
    assert_eq!(default_log_dir_parts(Platform::Other), texts(&["logs"]));
}

#[test]
fn the_tray_menu_and_what_its_entries_do() {
    let entries = tray_menu();
    let shown: Vec<(&str, &str)> =
        entries.iter().map(|e| (e.id.as_str(), e.label.as_str())).collect();
    assert_eq!(shown, vec![("show", "Mostrar"), ("hide", "Ocultar"), ("quit", "Cerrar")]);
    assert_eq!(menu_action("show"), ShellAction::Show);
    assert_eq!(menu_action("hide"), ShellAction::Hide);
    assert_eq!(menu_action("quit"), ShellAction::Quit);
    assert_eq!(menu_action("Quit"), ShellAction::Nothing);
    assert_eq!(menu_action(""), ShellAction::Nothing);
}

#[test]
fn a_click_on_the_tray_toggles_the_window() {
    assert_eq!(tray_click_action(true), ShellAction::Hide);
    assert_eq!(tray_click_action(false), ShellAction::Show);
}
