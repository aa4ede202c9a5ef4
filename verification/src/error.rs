//! The ways in which keeping a configuration value and its file in step can fail.

use vstd::prelude::*;

verus! {

/// What went wrong while loading, persisting or watching a configuration file.
#[derive(Clone, Copy, Debug, PartialEq, Eq, Structural)]
pub enum ConfigError {
    /// The backing file could not be read.
    Read,
    /// The file's content is not a valid encoding of the value.
    Decode,
    /// The value could not be encoded.
    Encode,
    /// The atomic write did not complete.
    Write,
    /// The configured path has no parent directory.
    Path,
    /// The filesystem notification subsystem could not be engaged.
    WatchSubscription,
}

impl ConfigError {
    /// The text of `describe`, one fixed sentence per kind of failure.
    pub open spec fn description(self) -> Seq<char> {
        match self {
            ConfigError::Read => "the configuration file could not be read"@,
            ConfigError::Decode => "the configuration file is malformed"@,
            ConfigError::Encode => "the configuration value could not be encoded"@,
            ConfigError::Write => "the configuration file could not be written"@,
            ConfigError::Path => "the configuration path has no parent directory"@,
            ConfigError::WatchSubscription => "the configuration path could not be watched"@,
        }
    }

    /// A sentence for logs and messages.
    pub fn describe(&self) -> (r: &'static str)
        ensures
            r@ == self.description(),
    {
        match self {
            ConfigError::Read => "the configuration file could not be read",
            ConfigError::Decode => "the configuration file is malformed",
            ConfigError::Encode => "the configuration value could not be encoded",
            ConfigError::Write => "the configuration file could not be written",
            ConfigError::Path => "the configuration path has no parent directory",
            ConfigError::WatchSubscription => "the configuration path could not be watched",
        }
    }
}

} // verus!
