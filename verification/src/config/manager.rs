//! Reading and changing settings by their keys.

use crate::config::{format_name, format_named, Config, ConfigView, OutputFormat, default_settings};
use crate::error::{joined, CliError, CliErrorView};
use crate::text::{
    bool_text, bool_to_text, decimal, lowercase, parse_bool, parse_u64, parsed_bool, parsed_u64,
    text_eq, to_lowercase, u64_to_text,
};
use vstd::prelude::*;

verus! {

/// The settings that have a key.
#[derive(Debug, Clone, Copy, PartialEq, Eq, Structural)]
pub enum Setting {
    BaseUrl,
    TimeoutSeconds,
    Format,
    Color,
}

/// The key of a setting.
pub open spec fn setting_key(setting: Setting) -> Seq<char> {
    match setting {
        Setting::BaseUrl => "api.base_url"@,
        Setting::TimeoutSeconds => "api.timeout_seconds"@,
        Setting::Format => "output.format"@,
        Setting::Color => "output.color"@,
    }
}

/// The setting that a key names.
pub open spec fn setting_of(key: Seq<char>) -> Option<Setting> {
    if key == "api.base_url"@ {
        Some(Setting::BaseUrl)
    } else if key == "api.timeout_seconds"@ {
        Some(Setting::TimeoutSeconds)
    } else if key == "output.format"@ {
        Some(Setting::Format)
    } else if key == "output.color"@ {
        Some(Setting::Color)
    } else {
        None
    }
}

/// The error for a key that names no setting.
pub open spec fn unknown_key(key: Seq<char>) -> CliErrorView {
    CliErrorView::InvalidInput("Unknown config key: "@ + key)
}

/// The value of a setting, as text.
pub open spec fn setting_text(config: ConfigView, setting: Setting) -> Seq<char> {
    match setting {
        Setting::BaseUrl => config.base_url,
        Setting::TimeoutSeconds => decimal(config.timeout_seconds as nat),
        Setting::Format => format_name(config.format),
        Setting::Color => bool_text(config.color),
    }
}

/// The value filed under a key, as text, or the error for a key that names
/// no setting.
pub open spec fn value_of(config: ConfigView, key: Seq<char>) -> Result<Seq<char>, CliErrorView> {
    match setting_of(key) {
        Some(setting) => Ok(setting_text(config, setting)),
        None => Err(unknown_key(key)),
    }
}

/// The settings after `value` was set under `key`, or the error for a key
/// that names no setting or a value that the setting does not take. The
/// address is taken as it stands; the seconds are a decimal number; the
/// format is one of the three names, in any case of letters; the colouring is
/// `true` or `false`.
pub open spec fn settings_after_set(config: ConfigView, key: Seq<char>, value: Seq<char>) -> Result<
    ConfigView,
    CliErrorView,
> {
    match setting_of(key) {
        Some(Setting::BaseUrl) => Ok(ConfigView { base_url: value, ..config }),
        Some(Setting::TimeoutSeconds) => match parsed_u64(value) {
            Some(seconds) => Ok(ConfigView { timeout_seconds: seconds, ..config }),
            None => Err(CliErrorView::InvalidInput("Invalid timeout value"@)),
        },
        Some(Setting::Format) => match format_named(lowercase(value)) {
            Some(format) => Ok(ConfigView { format, ..config }),
            None => Err(CliErrorView::InvalidInput("Invalid format. Use: table, json, or text"@)),
        },
        Some(Setting::Color) => match parsed_bool(value) {
            Some(color) => Ok(ConfigView { color, ..config }),
            None => Err(CliErrorView::InvalidInput("Invalid boolean value"@)),
        },
        None => Err(unknown_key(key)),
    }
}

/// The setting that `key` names.
pub fn setting_for(key: &str) -> (r: Option<Setting>)
    ensures
        r == setting_of(key@),
{
    if text_eq(key, "api.base_url") {
        Some(Setting::BaseUrl)
    } else if text_eq(key, "api.timeout_seconds") {
        Some(Setting::TimeoutSeconds)
    } else if text_eq(key, "output.format") {
        Some(Setting::Format)
    } else if text_eq(key, "output.color") {
        Some(Setting::Color)
    } else {
        None
    }
}

/// The settings of the tool and the file they are kept in.
#[derive(Debug, Clone, PartialEq, Eq)]
pub struct ConfigManager {
    config_path: String,
    config: Config,
}

impl ConfigManager {
    /// The settings that the manager holds.
    pub closed spec fn settings(&self) -> ConfigView {
        self.config@
    }

    /// The path of the file that the settings are kept in.
    pub closed spec fn path(&self) -> Seq<char> {
        self.config_path@
    }

    /// A manager of the settings read from the file at `config_path`.
    pub fn new(config_path: String, config: Config) -> (r: Self)
        ensures
            r.path() == config_path@,
            r.settings() == config@,
    {
        ConfigManager { config_path, config }
    }

    /// The settings, to be written to the file.
    pub fn config(&self) -> (r: &Config)
        ensures
            r@ == self.settings(),
    {
        &self.config
    }

    /// The path of the file that the settings are kept in.
    pub fn config_path(&self) -> (r: &String)
        ensures
            r@ == self.path(),
    {
        &self.config_path
    }

    /// Sets the setting that `key` names to what `value` spells. On an error
    /// the settings stay as they were.
    pub fn set_value(&mut self, key: &str, value: &str) -> (r: Result<(), CliError>)
        ensures
            final(self).path() == old(self).path(),
            match settings_after_set(old(self).settings(), key@, value@) {
                Ok(settings) => r is Ok && final(self).settings() == settings,
                Err(error) => r matches Err(e) && e@ == error && final(self).settings() == old(
                    self,
                ).settings(),
            },
    {
        match setting_for(key) {
            Some(Setting::BaseUrl) => {
                self.config.api.base_url = value.to_string();
                Ok(())
            },
            Some(Setting::TimeoutSeconds) => match parse_u64(value) {
                Some(seconds) => {
                    self.config.api.timeout_seconds = seconds;
                    Ok(())
                },
                None => Err(CliError::InvalidInput("Invalid timeout value".to_string())),
            },
            Some(Setting::Format) => {
                let lowered = to_lowercase(value);
                match OutputFormat::from_name(lowered.as_str()) {
                    Some(format) => {
                        self.config.output.format = format;
                        Ok(())
                    },
                    None => Err(
                        CliError::InvalidInput(
                            "Invalid format. Use: table, json, or text".to_string(),
                        ),
                    ),
                }
            },
            Some(Setting::Color) => match parse_bool(value) {
                Some(color) => {
                    self.config.output.color = color;
                    Ok(())
                },
                None => Err(CliError::InvalidInput("Invalid boolean value".to_string())),
            },
            None => Err(CliError::InvalidInput(joined("Unknown config key: ", key))),
        }
    }

    /// The value of the setting that `key` names, as text.
    pub fn get_value(&self, key: &str) -> (r: Result<String, CliError>)
        ensures
            match value_of(self.settings(), key@) {
                Ok(text) => r matches Ok(value) && value@ == text,
                Err(error) => r matches Err(e) && e@ == error,
            },
    {
        match setting_for(key) {
            Some(setting) => Ok(self.text_of(setting)),
            None => Err(CliError::InvalidInput(joined("Unknown config key: ", key))),
        }
    }

    /// The value of a setting, as text.
    pub fn text_of(&self, setting: Setting) -> (r: String)
        ensures
            r@ == setting_text(self.settings(), setting),
    {
        match setting {
            Setting::BaseUrl => self.config.api.base_url.clone(),
            Setting::TimeoutSeconds => u64_to_text(self.config.api.timeout_seconds),
            Setting::Format => self.config.output.format.name(),
            Setting::Color => bool_to_text(self.config.output.color),
        }
    }

    /// Every setting with its key and its value, in the order in which they
    /// are shown: address, seconds, format, colouring.
    pub fn list_all(&self) -> (r: Vec<(String, String)>)
        ensures
            r@.len() == 4,
            listed(r@[0], self.settings(), Setting::BaseUrl),
            listed(r@[1], self.settings(), Setting::TimeoutSeconds),
            listed(r@[2], self.settings(), Setting::Format),
            listed(r@[3], self.settings(), Setting::Color),
    {
        let mut r: Vec<(String, String)> = Vec::new();
        r.push(("api.base_url".to_string(), self.text_of(Setting::BaseUrl)));
        r.push(("api.timeout_seconds".to_string(), self.text_of(Setting::TimeoutSeconds)));
        r.push(("output.format".to_string(), self.text_of(Setting::Format)));
        r.push(("output.color".to_string(), self.text_of(Setting::Color)));
        r
    }

    /// Puts every setting back to its default.
    pub fn reset(&mut self)
        ensures
            final(self).path() == old(self).path(),
            final(self).settings() == default_settings(),
    {
        self.config = Config::default();
    }
}

/// Whether `pair` is the key of `setting` with its value in `config`.
pub open spec fn listed(pair: (String, String), config: ConfigView, setting: Setting) -> bool {
    pair.0@ == setting_key(setting) && pair.1@ == setting_text(config, setting)
}

/// The four keys name four different settings, each its own.
pub proof fn law_keys_name_their_settings(setting: Setting)
    ensures
        setting_of(setting_key(setting)) == Some(setting),
{
    reveal_strlit("api.base_url");
    reveal_strlit("api.timeout_seconds");
    reveal_strlit("output.format");
    reveal_strlit("output.color");
    assert("api.base_url"@.len() == 12);
    assert("api.timeout_seconds"@.len() == 19);
    assert("output.format"@.len() == 13);
    assert("output.color"@[0] != "api.base_url"@[0]);
}

/// What was set is what is read: after a value was set under a key, the
/// value read under that key is the one set, in the spelling that the setting
/// gives it, and the other settings are as before.
pub proof fn law_get_after_set(
    config: ConfigView,
    key: Seq<char>,
    value: Seq<char>,
    other: Setting,
)
    requires
        settings_after_set(config, key, value) is Ok,
    ensures
        ({
            let after = settings_after_set(config, key, value)->Ok_0;
            let text = value_of(after, key);
            &&& setting_of(key) == Some(Setting::BaseUrl) ==> text == Ok::<
                Seq<char>,
                CliErrorView,
            >(value)
            &&& setting_of(key) == Some(Setting::TimeoutSeconds) ==> text == Ok::<
                Seq<char>,
                CliErrorView,
            >(decimal(parsed_u64(value).unwrap() as nat))
            &&& setting_of(key) == Some(Setting::Format) ==> text == Ok::<
                Seq<char>,
                CliErrorView,
            >(format_name(format_named(lowercase(value)).unwrap()))
            &&& setting_of(key) == Some(Setting::Color) ==> text == Ok::<
                Seq<char>,
                CliErrorView,
            >(bool_text(parsed_bool(value).unwrap()))
            &&& setting_of(key) != Some(other) ==> setting_text(after, other) == setting_text(
                config,
                other,
            )
        }),
{
}

} // verus!
