//! The configuration of the card game and where it comes from.

use vstd::prelude::*;

verus! {

/// The file that holds the configuration.
pub const CONFIG_PATH: &'static str = "config.toml";

/// The folder that is made along with a new configuration file.
pub const DATA_FOLDER: &'static str = "data";

/// The configuration that is written when there is none.
pub const DEFAULT_CONFIG_TEXT: &'static str =
    "\ngame_title = \"My Baccarat Game\"\nnumber_of_decks = 8\nuser_db_path = \"data/users.toml\"\n";

/// The configuration of the card game.
#[derive(Debug)]
pub struct Config {
    pub game_title: String,
    pub number_of_decks: usize,
    pub user_db_path: String,
}

/// What reading the configuration file came to.
pub enum ConfigFile {
    /// There is no configuration file.
    Missing,
    /// The file is there and could not be read.
    Unreadable,
    /// The text of the file.
    Text(String),
}

/// What to do about the configuration.
#[derive(Debug, PartialEq, Eq)]
pub enum ConfigPlan {
    /// Decode this text. Where `create` is set, the text is the default one
    /// and is written to the configuration file first.
    Decode { text: String, create: bool },
    /// Give up: the file could not be read.
    Fail,
}

/// The text to decode for a configuration file, if there is one.
pub open spec fn config_text(file: ConfigFile) -> Option<Seq<char>> {
    match file {
        ConfigFile::Missing => Some(DEFAULT_CONFIG_TEXT@),
        ConfigFile::Unreadable => None,
        ConfigFile::Text(text) => Some(text@),
    }
}

/// Decides what to do about the configuration: a file that is there is
/// decoded as it is, a missing one is created with the default text, and a
/// file that could not be read ends the attempt.
pub fn load_config(file: ConfigFile) -> (plan: ConfigPlan)
    ensures
        match plan {
            ConfigPlan::Decode { text, create } => config_text(file) == Some(text@) && create == (
            file is Missing),
            ConfigPlan::Fail => config_text(file) is None,
        },
{
    match file {
        ConfigFile::Missing => ConfigPlan::Decode {
            text: String::from_str(DEFAULT_CONFIG_TEXT),
            create: true,
        },
        ConfigFile::Unreadable => ConfigPlan::Fail,
        ConfigFile::Text(text) => ConfigPlan::Decode { text, create: false },
    }
}

} // verus!
