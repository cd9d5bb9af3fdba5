//! What the bot is started with.

use vstd::prelude::*;
use crate::text::owned;

verus! {

/// Where the settings are when no path is given.
pub const DEFAULT_SETTINGS_PATH: &'static str = "./settings.toml";

/// The bot's arguments.
#[derive(Debug)]
pub struct Args {
    /// The bearer token for Pylon's API.
    pub pylon_api_token: String,
    /// The path of the settings file, where it is not the default one.
    pub settings_path: Option<String>,
}

impl Args {
    /// The path of the settings file: the one that was given, or else the default one.
    pub fn settings_path_or_default(&self) -> (r: String)
        ensures
            r@ == match self.settings_path {
                Some(path) => path@,
                None => DEFAULT_SETTINGS_PATH@,
            },
    {
        match &self.settings_path {
            Some(path) => path.clone(),
            None => owned(DEFAULT_SETTINGS_PATH),
        }
    }
}

} // verus!
