use solana_dev_tools::config::manager::{setting_for, ConfigManager, Setting};
use solana_dev_tools::config::{
    default_base_url, default_color, default_format, default_timeout, ApiConfig, Config,
    OutputConfig, OutputFormat,
};
use solana_dev_tools::error::CliError;

fn manager() -> ConfigManager {
    ConfigManager::new("/home/user/.config/solana-dev-tools/default-config.toml".to_string(), Config::default())
}

fn invalid(message: &str) -> CliError {
    CliError::InvalidInput(message.to_string())
}

#[test]
fn defaults() {
    assert_eq!(default_base_url(), "http://localhost:3000");
    assert_eq!(default_timeout(), 30);
    assert_eq!(default_format(), OutputFormat::Table);
    assert!(default_color());
    assert_eq!(
        Config::default(),
        Config {
            api: ApiConfig { base_url: "http://localhost:3000".to_string(), timeout_seconds: 30 },
            output: OutputConfig { format: OutputFormat::Table, color: true },
        }
    );
    assert_eq!(ApiConfig::default().timeout_seconds, 30);
    assert_eq!(OutputConfig::default().format, OutputFormat::Table);
}

#[test]
fn manager_knows_its_path() {
    assert_eq!(manager().config_path(), "/home/user/.config/solana-dev-tools/default-config.toml");
    assert_eq!(manager().config(), &Config::default());
}

#[test]
fn get_value_reads_each_setting() {
    let m = manager();
    assert_eq!(m.get_value("api.base_url"), Ok("http://localhost:3000".to_string()));
    assert_eq!(m.get_value("api.timeout_seconds"), Ok("30".to_string()));
    assert_eq!(m.get_value("output.format"), Ok("table".to_string()));
    assert_eq!(m.get_value("output.color"), Ok("true".to_string()));
}

#[test]
fn get_value_refuses_unknown_keys() {
    let m = manager();
    assert_eq!(m.get_value("api.url"), Err(invalid("Unknown config key: api.url")));
    assert_eq!(m.get_value(""), Err(invalid("Unknown config key: ")));
    assert_eq!(m.get_value("API.BASE_URL"), Err(invalid("Unknown config key: API.BASE_URL")));
}

#[test]
fn set_value_sets_each_setting() {
    let mut m = manager();
    assert_eq!(m.set_value("api.base_url", "https://api.example.com"), Ok(()));
    assert_eq!(m.set_value("api.timeout_seconds", "45"), Ok(()));
    assert_eq!(m.set_value("output.format", "json"), Ok(()));
    assert_eq!(m.set_value("output.color", "false"), Ok(()));
    assert_eq!(
        m.config(),
        &Config {
            api: ApiConfig { base_url: "https://api.example.com".to_string(), timeout_seconds: 45 },
            output: OutputConfig { format: OutputFormat::Json, color: false },
        }
    );
    assert_eq!(m.get_value("api.base_url"), Ok("https://api.example.com".to_string()));
    assert_eq!(m.get_value("api.timeout_seconds"), Ok("45".to_string()));
    assert_eq!(m.get_value("output.format"), Ok("json".to_string()));
    assert_eq!(m.get_value("output.color"), Ok("false".to_string()));
}

#[test]
fn format_is_taken_in_any_case() {
    let mut m = manager();
    assert_eq!(m.set_value("output.format", "JSON"), Ok(()));
    assert_eq!(m.config().output.format, OutputFormat::Json);
    assert_eq!(m.set_value("output.format", "Text"), Ok(()));
    assert_eq!(m.config().output.format, OutputFormat::Text);
    assert_eq!(m.set_value("output.format", "tAbLe"), Ok(()));
    assert_eq!(m.config().output.format, OutputFormat::Table);
}

#[test]
fn set_value_refuses_bad_values_and_changes_nothing() {
    let mut m = manager();
    let before = m.clone();
    assert_eq!(m.set_value("api.timeout_seconds", "soon"), Err(invalid("Invalid timeout value")));
    assert_eq!(m.set_value("api.timeout_seconds", "-1"), Err(invalid("Invalid timeout value")));
    assert_eq!(m.set_value("api.timeout_seconds", ""), Err(invalid("Invalid timeout value")));
    assert_eq!(
        m.set_value("api.timeout_seconds", "18446744073709551616"),
        Err(invalid("Invalid timeout value"))
    );
    assert_eq!(
        m.set_value("output.format", "yaml"),
        Err(invalid("Invalid format. Use: table, json, or text"))
    );
    assert_eq!(m.set_value("output.color", "yes"), Err(invalid("Invalid boolean value")));
    assert_eq!(m.set_value("output.color", "TRUE"), Err(invalid("Invalid boolean value")));
    assert_eq!(m.set_value("nope", "1"), Err(invalid("Unknown config key: nope")));
    assert_eq!(m, before);
}

#[test]
fn timeout_takes_the_largest_number() {
    let mut m = manager();
    assert_eq!(m.set_value("api.timeout_seconds", "18446744073709551615"), Ok(()));
    assert_eq!(m.config().api.timeout_seconds, u64::MAX);
    assert_eq!(m.set_value("api.timeout_seconds", "+7"), Ok(()));
    assert_eq!(m.get_value("api.timeout_seconds"), Ok("7".to_string()));
}

#[test]
fn base_url_is_taken_as_it_stands() {
    let mut m = manager();
    assert_eq!(m.set_value("api.base_url", ""), Ok(()));
    assert_eq!(m.get_value("api.base_url"), Ok(String::new()));
    assert_eq!(m.set_value("api.base_url", "  HTTP://X  "), Ok(()));
    assert_eq!(m.get_value("api.base_url"), Ok("  HTTP://X  ".to_string()));
}

#[test]
fn list_all_shows_the_four_settings_in_order() {
    let mut m = manager();
    m.set_value("api.timeout_seconds", "5").unwrap();
    m.set_value("output.format", "text").unwrap();
    assert_eq!(
        m.list_all(),
        vec![
            ("api.base_url".to_string(), "http://localhost:3000".to_string()),
            ("api.timeout_seconds".to_string(), "5".to_string()),
            ("output.format".to_string(), "text".to_string()),
            ("output.color".to_string(), "true".to_string()),
        ]
    );
}

#[test]
fn reset_puts_the_defaults_back() {
    let mut m = manager();
    m.set_value("api.base_url", "https://api.example.com").unwrap();
    m.set_value("output.color", "false").unwrap();
    m.reset();
    assert_eq!(m, manager());
}

#[test]
fn keys_name_settings() {
    assert_eq!(setting_for("api.base_url"), Some(Setting::BaseUrl));
    assert_eq!(setting_for("api.timeout_seconds"), Some(Setting::TimeoutSeconds));
    assert_eq!(setting_for("output.format"), Some(Setting::Format));
    assert_eq!(setting_for("output.color"), Some(Setting::Color));
    assert_eq!(setting_for("output"), None);
    assert_eq!(manager().text_of(Setting::Format), "table");
}

#[test]
fn formats_have_names() {
    for (format, name) in
        [(OutputFormat::Table, "table"), (OutputFormat::Json, "json"), (OutputFormat::Text, "text")]
    {
        assert_eq!(format.name(), name);
        assert_eq!(OutputFormat::from_name(name), Some(format));
    }
    assert_eq!(OutputFormat::from_name("JSON"), None);
    assert_eq!(OutputFormat::from_name(""), None);
}
