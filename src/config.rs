//! Process-wide settings, resolved once at startup from optional raw values.
use vstd::prelude::*;
use crate::text::{parse_u16, parsed_u16};

verus! {

/// The key value that stands for "no key configured".
pub const PLACEHOLDER_API_KEY: &'static str = "your_api_key_here";

/// The instruction sent upstream when no prompt is configured.
pub const DEFAULT_PROMPT: &'static str = "Generate one bizarre, hilariously impractical life advice for today. Make it weird, funny, and completely absurd. Keep it to 1-2 sentences. Keep it modern and relatable.";

/// The port listened on when none is configured or it cannot be read.
pub const DEFAULT_PORT: u16 = 8080;

/// The port that the raw setting `raw` selects.
pub open spec fn port_of(raw: Option<Seq<char>>) -> u16 {
    match raw {
        Some(s) => match parsed_u16(s) {
            Some(p) => p,
            None => DEFAULT_PORT,
        },
        None => DEFAULT_PORT,
    }
}

/// Reads a port setting, falling back to the default when it is unset or
/// is not a 16-bit unsigned number.
pub fn port_or_default(raw: Option<&str>) -> (r: u16)
    ensures
        r == port_of(
            match raw {
                Some(s) => Some(s@),
                None => None,
            },
        ),
{
    match raw {
        Some(s) => match parse_u16(s) {
            Some(p) => p,
            None => DEFAULT_PORT,
        },
        None => DEFAULT_PORT,
    }
}

/// The settings a request is handled with.
pub struct Config {
    /// The upstream service key; the placeholder when none was given.
    pub api_key: String,
    /// The instruction that every prompt starts with.
    pub base_prompt: String,
    /// The port the service listens on.
    pub port: u16,
}

impl Config {
    /// Resolves the settings from their raw values, each possibly unset.
    pub fn from_settings(api_key: Option<String>, prompt: Option<String>, port: Option<&str>) -> (r: Config)
        ensures
            r.api_key@ == match api_key {
                Some(k) => k@,
                None => PLACEHOLDER_API_KEY@,
            },
            r.base_prompt@ == match prompt {
                Some(p) => p@,
                None => DEFAULT_PROMPT@,
            },
            r.port == port_of(
                match port {
                    Some(s) => Some(s@),
                    None => None,
                },
            ),
    {
        let api_key = match api_key {
            Some(k) => k,
            None => String::from_str(PLACEHOLDER_API_KEY),
        };
        let base_prompt = match prompt {
            Some(p) => p,
            None => String::from_str(DEFAULT_PROMPT),
        };
        Config { api_key, base_prompt, port: port_or_default(port) }
    }

    /// A real key was configured: the key is not the placeholder.
    pub open spec fn configured(&self) -> bool {
        self.api_key@ != PLACEHOLDER_API_KEY@
    }

    /// Tells whether a real key was configured.
    pub fn is_configured(&self) -> (r: bool)
        ensures
            r == self.configured(),
    {
        let placeholder = String::from_str(PLACEHOLDER_API_KEY);
        !(self.api_key == placeholder)
    }
}

} // verus!
