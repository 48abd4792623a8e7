//! The options of the battery block, and what the block shows when they
//! cannot be had.

use vstd::prelude::*;
use vstd::string::*;

verus! {

/// The step at which setting the block up failed.
#[derive(Debug, Clone, Copy, PartialEq, Eq, Structural)]
pub enum ConfigError {
    /// The command line does not hold exactly the program and one file.
    Args,
    /// The options file, or the log file, cannot be opened.
    File,
    /// The options file cannot be understood.
    Parse,
    /// The logger cannot be started.
    Logger,
}

impl ConfigError {
    /// The three lines that the block shows for the failure.
    pub open spec fn text(self) -> Seq<char> {
        match self {
            ConfigError::Args => "BAT Args error!\nBAT Args error!\n#FF0000"@,
            ConfigError::File => "BAT File error!\nBAT File error!\n#FF0000"@,
            ConfigError::Parse => "BAT Parse error!\nBAT Parse error!\n#FF0000"@,
            ConfigError::Logger => "BAT Logger error!\nBAT Logger error!\n#FF0000"@,
        }
    }

    /// The three lines that the block shows for the failure.
    pub fn message(&self) -> (text: String)
        ensures
            text@ == self.text(),
    {
        match self {
            ConfigError::Args => String::from_str("BAT Args error!\nBAT Args error!\n#FF0000"),
            ConfigError::File => String::from_str("BAT File error!\nBAT File error!\n#FF0000"),
            ConfigError::Parse => String::from_str("BAT Parse error!\nBAT Parse error!\n#FF0000"),
            ConfigError::Logger => String::from_str(
                "BAT Logger error!\nBAT Logger error!\n#FF0000",
            ),
        }
    }
}

/// The options of the battery block.
pub struct Config {
    /// Where the log is written.
    pub log_file_path: String,
    /// Whether every cell is written to the log.
    pub log_batteries: bool,
}

impl Config {
    /// The options as the file gives them. Where the file says nothing of
    /// logging the cells, they are not logged.
    pub fn new(log_file_path: String, log_batteries: Option<bool>) -> (config: Config)
        ensures
            config.log_file_path@ == log_file_path@,
            config.log_batteries == match log_batteries {
                Some(choice) => choice,
                None => false,
            },
    {
        Config {
            log_file_path,
            log_batteries: match log_batteries {
                Some(choice) => choice,
                None => Config::default_bool_false(),
            },
        }
    }

    /// The options file that the command line names: the one argument after
    /// the program's name. Any other number of arguments is an error.
    pub fn file_argument(args: &[String]) -> (path: Result<String, ConfigError>)
        ensures
            match path {
                Ok(name) => args@.len() == 2 && name@ == args@[1]@,
                Err(error) => args@.len() != 2 && error == ConfigError::Args,
            },
    {
        if args.len() != 2 {
            return Err(ConfigError::Args);
        }
        Ok(args[1].clone())
    }

    /// The choice that stands for an absent yes-or-no option.
    pub fn default_bool_false() -> (choice: bool)
        ensures
            !choice,
    {
        false
    }
}

} // verus!
