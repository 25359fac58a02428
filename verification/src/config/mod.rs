//! The tool's settings.

use crate::text::text_eq;
use vstd::prelude::*;

pub mod manager;

verus! {

/// How the tool prints what it has to show.
#[derive(Debug, Clone, Copy, PartialEq, Eq, Structural)]
pub enum OutputFormat {
    Table,
    Json,
    Text,
}

/// How the service is reached.
#[derive(Debug, Clone, PartialEq, Eq)]
pub struct ApiConfig {
    /// The address of the service.
    pub base_url: String,
    /// How many seconds a request may take.
    pub timeout_seconds: u64,
}

/// How output is printed.
#[derive(Debug, Clone, PartialEq, Eq)]
pub struct OutputConfig {
    pub format: OutputFormat,
    /// Whether output is coloured.
    pub color: bool,
}

/// All settings.
#[derive(Debug, Clone, PartialEq, Eq)]
pub struct Config {
    pub api: ApiConfig,
    pub output: OutputConfig,
}

/// The settings as plain values.
pub struct ConfigView {
    pub base_url: Seq<char>,
    pub timeout_seconds: u64,
    pub format: OutputFormat,
    pub color: bool,
}

impl View for Config {
    type V = ConfigView;

    open spec fn view(&self) -> ConfigView {
        ConfigView {
            base_url: self.api.base_url@,
            timeout_seconds: self.api.timeout_seconds,
            format: self.output.format,
            color: self.output.color,
        }
    }
}

/// The settings of a tool that was never configured.
pub open spec fn default_settings() -> ConfigView {
    ConfigView {
        base_url: "http://localhost:3000"@,
        timeout_seconds: 30,
        format: OutputFormat::Table,
        color: true,
    }
}

/// The name of an output format, as the settings spell it.
pub open spec fn format_name(format: OutputFormat) -> Seq<char> {
    match format {
        OutputFormat::Table => "table"@,
        OutputFormat::Json => "json"@,
        OutputFormat::Text => "text"@,
    }
}

/// The output format that a name spells, in lower case.
pub open spec fn format_named(name: Seq<char>) -> Option<OutputFormat> {
    if name == "table"@ {
        Some(OutputFormat::Table)
    } else if name == "json"@ {
        Some(OutputFormat::Json)
    } else if name == "text"@ {
        Some(OutputFormat::Text)
    } else {
        None
    }
}

impl OutputFormat {
    /// The name of this format.
    pub fn name(&self) -> (r: String)
        ensures
            r@ == format_name(*self),
    {
        match self {
            OutputFormat::Table => "table".to_string(),
            OutputFormat::Json => "json".to_string(),
            OutputFormat::Text => "text".to_string(),
        }
    }

    /// The format that `name` spells; the name is taken as it stands.
    pub fn from_name(name: &str) -> (r: Option<OutputFormat>)
        ensures
            r == format_named(name@),
    {
        if text_eq(name, "table") {
            Some(OutputFormat::Table)
        } else if text_eq(name, "json") {
            Some(OutputFormat::Json)
        } else if text_eq(name, "text") {
            Some(OutputFormat::Text)
        } else {
            None
        }
    }
}

/// The address of the service where none is set.
pub fn default_base_url() -> (r: String)
    ensures
        r@ == default_settings().base_url,
{
    "http://localhost:3000".to_string()
}

/// The seconds a request may take where none are set.
pub fn default_timeout() -> (r: u64)
    ensures
        r == default_settings().timeout_seconds,
{
    30
}

/// The output format where none is set.
pub fn default_format() -> (r: OutputFormat)
    ensures
        r == default_settings().format,
{
    OutputFormat::Table
}

/// Whether output is coloured where nothing is set.
pub fn default_color() -> (r: bool)
    ensures
        r == default_settings().color,
{
    true
}

impl Default for ApiConfig {
    fn default() -> (r: Self)
        ensures
            r.base_url@ == default_settings().base_url,
            r.timeout_seconds == default_settings().timeout_seconds,
    {
        ApiConfig { base_url: default_base_url(), timeout_seconds: default_timeout() }
    }
}

impl Default for OutputConfig {
    fn default() -> (r: Self)
        ensures
            r.format == default_settings().format,
            r.color == default_settings().color,
    {
        OutputConfig { format: default_format(), color: default_color() }
    }
}

impl Default for Config {
    fn default() -> (r: Self)
        ensures
            r@ == default_settings(),
    {
        Config { api: ApiConfig::default(), output: OutputConfig::default() }
    }
}

/// The name of a format spells that format.
pub proof fn law_format_name_round_trip(format: OutputFormat)
    ensures
        format_named(format_name(format)) == Some(format),
{
    reveal_strlit("table");
    reveal_strlit("json");
    reveal_strlit("text");
    assert("table"@[1] != "text"@[1]);
    assert("table"@.len() != "json"@.len());
    assert("json"@[0] != "text"@[0]);
}

} // verus!
