use vstd::prelude::*;
use vstd::string::*;
use crate::model::{Config, ConfigView};

verus! {

/// What reading the configuration file found.
#[derive(Debug)]
pub enum ConfigFile {
    /// There is no file: the defaults apply.
    Missing,
    /// The file could not be read; the reader's message.
    Unreadable(String),
    /// The file held this configuration.
    Parsed(Config),
    /// The file is not a valid configuration: the parser's message, where the file was
    /// copied for safe keeping, and why that copy failed, if it did.
    Corrupt { error: String, backup: String, backup_error: Option<String> },
}

/// The message for a configuration file that is not valid.
pub open spec fn corrupt_message(error: Seq<char>, backup: Seq<char>, backup_error: Option<Seq<char>>) -> Seq<char> {
    "configuration is invalid: "@ + error + ". Backup: "@ + backup + "."@ + match backup_error {
        Some(e) => " Could not preserve corrupt file: "@ + e + "."@,
        None => Seq::empty(),
    }
}

/// The configuration a file reading stands for: the defaults for a missing file, the parsed
/// one, or an error message.
pub open spec fn config_outcome(f: ConfigFile) -> Result<ConfigView, Seq<char>> {
    match f {
        ConfigFile::Missing => Ok(ConfigView {
            associations: Seq::empty(),
            prompt_mode: crate::model::PromptMode::OncePerConnection,
            close_behavior: crate::model::CloseBehavior::AskOncePerStartup,
        }),
        ConfigFile::Unreadable(e) => Err("could not read configuration: "@ + e@),
        ConfigFile::Parsed(c) => Ok(c@),
        ConfigFile::Corrupt { error, backup, backup_error } => Err(corrupt_message(
            error@,
            backup@,
            match backup_error {
                Some(e) => Some(e@),
                None => None,
            },
        )),
    }
}

/// The view of a configuration outcome.
pub open spec fn config_result_view(r: Result<Config, String>) -> Result<ConfigView, Seq<char>> {
    match r {
        Ok(c) => Ok(c@),
        Err(e) => Err(e@),
    }
}

/// The configuration, or the message to show, for what reading the file found.
pub fn load_config_result(file: ConfigFile) -> (r: Result<Config, String>)
    ensures
        config_result_view(r) == config_outcome(file),
{
    match file {
        ConfigFile::Missing => {
            let c = Config::default();
            assert(c@.associations =~= Seq::empty());
            Ok(c)
        },
        ConfigFile::Unreadable(e) => {
            let mut m = "could not read configuration: ".to_owned();
            m.append(e.as_str());
            Err(m)
        },
        ConfigFile::Parsed(c) => Ok(c),
        ConfigFile::Corrupt { error, backup, backup_error } => {
            let mut m = "configuration is invalid: ".to_owned();
            m.append(error.as_str());
            m.append(". Backup: ");
            m.append(backup.as_str());
            m.append(".");
            let ghost head = m@;
            match backup_error {
                Some(e) => {
                    m.append(" Could not preserve corrupt file: ");
                    m.append(e.as_str());
                    m.append(".");
                    assert(m@ =~= head + (" Could not preserve corrupt file: "@ + e@ + "."@));
                },
                None => {
                    assert(m@ =~= head + Seq::<char>::empty());
                },
            }
            Err(m)
        },
    }
}

} // verus!
