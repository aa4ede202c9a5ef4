//! A persisted-configuration manager: one structured value in memory, kept in
//! step with one file, in a format chosen by a serialization strategy.
//!
//! The library decides; its caller touches the filesystem. What was read from
//! the backing file comes in as a [`FileRead`], what has to be written goes out
//! as a [`WriteRequest`], and filesystem notifications come in as [`Notice`]s.

pub mod adapter;
pub mod error;
pub mod laws;
pub mod load;
pub mod manager;
pub mod paths;
pub mod persist;
pub mod watcher;

pub use adapter::{decoded_value, encoded_text, DecodeError, EncodeError, Json, SerdeAdapter, Toml};
pub use error::ConfigError;
pub use load::{attempt, initial, reloaded, Attempt, FileRead};
pub use manager::ConfigManager;
pub use persist::{plan_write, split_plan, WriteRequest};
pub use watcher::{
    choose_target, dispatch, names_target, react, EventKind, ModifyKind, Notice, Reaction, WatchTarget,
    WatcherState,
};
