//! Loading: from what was read of the backing file to the value to hold.

use crate::adapter::{decodes_to, rejects, DecodeError, SerdeAdapter};
use crate::error::ConfigError;
use vstd::prelude::*;

verus! {

/// What the caller found at the backing path.
#[derive(Debug)]
pub enum FileRead {
    /// No file exists there.
    Missing,
    /// A file exists and could not be read.
    Unreadable,
    /// The whole content of the file.
    Content(Vec<u8>),
}

/// What an attempt to load a value from the backing file came to.
#[derive(Debug)]
pub enum Attempt<S> {
    /// There is no file.
    Absent,
    /// The file could not be read.
    Unreadable,
    /// The strategy rejected the file's content.
    Malformed,
    /// The strategy decoded the file's content to this value.
    Decoded(S),
}

impl<S> Attempt<S> {
    /// What construction reports of this attempt: a missing file is no failure.
    pub open spec fn initial_report(self) -> Option<ConfigError> {
        match self {
            Attempt::Absent => None,
            Attempt::Unreadable => Some(ConfigError::Read),
            Attempt::Malformed => Some(ConfigError::Decode),
            Attempt::Decoded(_) => None,
        }
    }

    /// What a reload makes of this attempt: the new value, or why there is none.
    pub open spec fn reload_result(self) -> Result<S, ConfigError> {
        match self {
            Attempt::Absent => Err(ConfigError::Read),
            Attempt::Unreadable => Err(ConfigError::Read),
            Attempt::Malformed => Err(ConfigError::Decode),
            Attempt::Decoded(value) => Ok(value),
        }
    }
}

/// `attempt` is a way for the strategy `SA` to load from `file`.
pub open spec fn is_attempt<S: serde::de::DeserializeOwned, SA: SerdeAdapter<S>>(
    file: FileRead,
    attempt: Attempt<S>,
) -> bool {
    match file {
        FileRead::Missing => attempt is Absent,
        FileRead::Unreadable => attempt is Unreadable,
        FileRead::Content(bytes) => match attempt {
            Attempt::Decoded(value) => decodes_to::<S, SA>(bytes@, value),
            Attempt::Malformed => rejects::<S, SA>(bytes@),
            _ => false,
        },
    }
}

/// Decodes what was read, where anything was.
pub fn attempt<S: serde::de::DeserializeOwned, SA: SerdeAdapter<S>>(file: &FileRead) -> (r: Attempt<S>)
    ensures
        is_attempt::<S, SA>(*file, r),
{
    match file {
        FileRead::Missing => Attempt::Absent,
        FileRead::Unreadable => Attempt::Unreadable,
        FileRead::Content(bytes) => {
            let input = bytes.as_slice();
            let decoded = SA::deserialize(input);
            match decoded {
                Ok(value) => {
                    assert(decodes_to::<S, SA>(bytes@, value)) by {
                        assert(input@ == bytes@ && call_ensures(SA::deserialize, (input,), Ok(value)));
                    }
                    Attempt::Decoded(value)
                },
                Err(e) => {
                    assert(rejects::<S, SA>(bytes@)) by {
                        assert(e == DecodeError);
                        assert(input@ == bytes@ && call_ensures(SA::deserialize, (input,), Err(DecodeError)));
                    }
                    Attempt::Malformed
                },
            }
        },
    }
}

/// The value a new store holds, and what it reports: the decoded value where
/// there is one, else what `fallback` produces.
pub fn initial<S, F: FnOnce() -> S>(attempt: Attempt<S>, fallback: F) -> (r: (S, Option<ConfigError>))
    requires
        !(attempt is Decoded) ==> call_requires(fallback, ()),
    ensures
        r.1 == attempt.initial_report(),
        match attempt {
            Attempt::Decoded(value) => r.0 == value,
            _ => call_ensures(fallback, (), r.0),
        },
{
    match attempt {
        Attempt::Absent => (fallback(), None),
        Attempt::Unreadable => (fallback(), Some(ConfigError::Read)),
        Attempt::Malformed => (fallback(), Some(ConfigError::Decode)),
        Attempt::Decoded(value) => (value, None),
    }
}

/// The value a reload replaces the held one with, or why it stays.
pub fn reloaded<S>(attempt: Attempt<S>) -> (r: Result<S, ConfigError>)
    ensures
        r == attempt.reload_result(),
{
    match attempt {
        Attempt::Absent => Err(ConfigError::Read),
        Attempt::Unreadable => Err(ConfigError::Read),
        Attempt::Malformed => Err(ConfigError::Decode),
        Attempt::Decoded(value) => Ok(value),
    }
}

} // verus!
