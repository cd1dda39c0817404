//! The user's configuration and the rule for when it is usable.  Reading
//! and writing the file happens outside the library; its values arrive
//! here as plain strings.

use crate::theme::ThemeName;
use vstd::prelude::*;
use vstd::string::*;

verus! {

/// The configuration: where the media server lives, the key it expects,
/// and the theme to draw with.
#[derive(Debug, Clone)]
pub struct Config {
    pub server_url: String,
    pub api_key: String,
    pub theme: ThemeName,
}

impl Default for Config {
    /// A placeholder configuration pointing at a local server, with the
    /// key still unset.
    fn default() -> (r: Config)
        ensures
            r.server_url@ == "http://localhost:13378"@,
            r.api_key@ == "not set yet"@,
            r.theme == ThemeName::CatppuccinMocha,
    {
        Config {
            server_url: String::from_str("http://localhost:13378"),
            api_key: String::from_str("not set yet"),
            theme: ThemeName::CatppuccinMocha,
        }
    }
}

impl Config {
    /// Whether the configuration can be used: the key must be set to
    /// something other than the placeholder.
    pub fn is_ready(&self) -> (r: bool)
        ensures
            r == (self.api_key@ != "not set yet"@ && self.api_key@.len() > 0),
    {
        proof {
            reveal_strlit("not set yet");
        }
        let placeholder = String::from_str("not set yet");
        !(self.api_key == placeholder) && self.api_key.as_str().unicode_len() > 0
    }
}

} // verus!
