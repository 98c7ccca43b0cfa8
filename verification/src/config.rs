//! Application-level configuration.
//!
//! The on-disk file is read and written by the surrounding application;
//! this module holds the plain shape of the values.  The model temperature
//! is carried in thousandths, so `700` stands for `0.7`.

use vstd::prelude::*;

verus! {

/// Top-level application configuration.
#[derive(Clone, Debug)]
pub struct Config {
    pub database_path: String,
    pub openai_api_key: Option<String>,
    pub theme: Theme,
    pub agent: AgentConfig,
    pub aliases: Vec<(String, String)>,
}

/// Colour scheme of the application.
#[derive(Clone, Debug)]
pub struct Theme {
    pub dark_mode: bool,
    pub primary_color: String,
    pub secondary_color: String,
    pub accent_color: String,
    pub background_color: String,
    pub text_color: String,
}

/// Agent backend configuration; `temperature_milli` holds thousandths.
#[derive(Clone, Debug)]
pub struct AgentConfig {
    pub model: String,
    pub temperature_milli: u32,
    pub max_tokens: u32,
    pub timeout_seconds: u64,
}

/// The default colour scheme, field by field.
pub open spec fn is_default_theme(t: Theme) -> bool {
    t.dark_mode == true && t.primary_color@ == "#61dafb"@ && t.secondary_color@ == "#282c34"@
        && t.accent_color@ == "#98c379"@ && t.background_color@ == "#1e1e1e"@ && t.text_color@
        == "#ffffff"@
}

/// The default agent configuration, field by field.
pub open spec fn is_default_agent(a: AgentConfig) -> bool {
    a.model@ == "gpt-3.5-turbo"@ && a.temperature_milli == 700 && a.max_tokens == 1000
        && a.timeout_seconds == 30
}

impl Default for Theme {
    fn default() -> (r: Self)
        ensures
            is_default_theme(r),
    {
        Theme {
            dark_mode: true,
            primary_color: String::from_str("#61dafb"),
            secondary_color: String::from_str("#282c34"),
            accent_color: String::from_str("#98c379"),
            background_color: String::from_str("#1e1e1e"),
            text_color: String::from_str("#ffffff"),
        }
    }
}

impl Default for AgentConfig {
    fn default() -> (r: Self)
        ensures
            is_default_agent(r),
    {
        AgentConfig {
            model: String::from_str("gpt-3.5-turbo"),
            temperature_milli: 700,
            max_tokens: 1000,
            timeout_seconds: 30,
        }
    }
}

impl Config {
    /// A configuration with the default theme and agent settings, keeping
    /// its history database under `config_dir`.
    pub fn with_config_dir(config_dir: &str) -> (r: Self)
        ensures
            r.database_path@ == config_dir@ + "/history.db"@,
            r.openai_api_key is None,
            is_default_theme(r.theme),
            is_default_agent(r.agent),
            r.aliases@.len() == 0,
    {
        let mut path = String::from_str(config_dir);
        path.append("/history.db");
        Config {
            database_path: path,
            openai_api_key: None,
            theme: Theme::default(),
            agent: AgentConfig::default(),
            aliases: Vec::new(),
        }
    }

    /// The configured key, if one is set; reading the process environment
    /// is left to the caller.
    pub fn get_openai_api_key(&self) -> (r: Option<String>)
        ensures
            match r {
                Some(k) => self.openai_api_key matches Some(c) && k@ == c@,
                None => self.openai_api_key is None,
            },
    {
        match &self.openai_api_key {
            Some(k) => Some(k.clone()),
            None => None,
        }
    }
}

} // verus!
