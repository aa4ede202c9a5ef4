//! Change notification: where to subscribe, which notifications count as a
//! change of content, and the state of the subscription.
//!
//! The subscription itself is the caller's. It hands each notification to
//! [`dispatch`] as a [`Notice`], together with its callback.

use crate::error::ConfigError;
use crate::paths::same_path;
use std::path::PathBuf;
use vstd::prelude::*;

verus! {

/// How a modification touched a file.
#[derive(Clone, Copy, Debug, PartialEq, Eq, Structural)]
pub enum ModifyKind {
    Any,
    Data,
    Metadata,
    Name,
    Other,
}

/// What a filesystem event says happened.
#[derive(Clone, Copy, Debug, PartialEq, Eq, Structural)]
pub enum EventKind {
    Any,
    Access,
    Create,
    Modify(ModifyKind),
    Remove,
    Other,
}

impl EventKind {
    /// Whether an event of this kind may have changed what the file holds:
    /// every kind but reads and changes of metadata alone.
    pub open spec fn changes_content(self) -> bool {
        match self {
            EventKind::Access => false,
            EventKind::Modify(ModifyKind::Metadata) => false,
            _ => true,
        }
    }
}

/// One delivery from the notification layer.
#[derive(Debug)]
pub enum Notice {
    /// An event of `kind` that names `paths`.
    Event { kind: EventKind, paths: Vec<PathBuf> },
    /// The notification layer delivered an error in place of an event.
    Fault,
}

/// What to do with one notice.
#[derive(Clone, Copy, Debug, PartialEq, Eq, Structural)]
pub enum Reaction {
    /// Call the callback, once.
    Notify,
    /// Do nothing.
    Ignore,
    /// Report the fault; the callback is not called.
    Report,
}

/// The reaction that a notice calls for, where `target` is the managed path:
/// the callback is for events that name the managed path and may have changed
/// its content.
pub open spec fn reaction_to(target: PathBuf, notice: Notice) -> Reaction {
    match notice {
        Notice::Fault => Reaction::Report,
        Notice::Event { kind, paths } => if paths@.contains(target) && kind.changes_content() {
            Reaction::Notify
        } else {
            Reaction::Ignore
        },
    }
}

/// Whether `target` is one of `paths`.
pub fn names_target(paths: &Vec<PathBuf>, target: &PathBuf) -> (r: bool)
    ensures
        r == paths@.contains(*target),
{
    let mut i: usize = 0;
    while i < paths.len()
        invariant
            i <= paths.len(),
            forall|j: int| 0 <= j < i ==> paths@[j] != *target,
        decreases paths.len() - i,
    {
        if same_path(&paths[i], target) {
            return true;
        }
        i += 1;
    }
    false
}

/// Decides what to do with one notice for the file at `target`.
pub fn react(target: &PathBuf, notice: &Notice) -> (r: Reaction)
    ensures
        r == reaction_to(*target, *notice),
{
    match notice {
        Notice::Fault => Reaction::Report,
        Notice::Event { kind, paths } => {
            match kind {
                EventKind::Access => Reaction::Ignore,
                EventKind::Modify(ModifyKind::Metadata) => Reaction::Ignore,
                _ => if names_target(paths, target) {
                    Reaction::Notify
                } else {
                    Reaction::Ignore
                },
            }
        },
    }
}

/// Handles one notice for the file at `target`: calls `callback` where the
/// notice calls for it, and says what it called for.
pub fn dispatch<F: FnMut()>(target: &PathBuf, notice: &Notice, callback: &mut F) -> (r: Reaction)
    requires
        call_requires(*old(callback), ()),
    ensures
        r == reaction_to(*target, *notice),
        r == Reaction::Notify ==> call_ensures(*old(callback), (), ()),
{
    let reaction = react(target, notice);
    match reaction {
        Reaction::Notify => callback(),
        _ => {},
    }
    reaction
}

/// Where to subscribe.
#[derive(Debug)]
pub enum WatchTarget {
    /// The managed file itself.
    File(PathBuf),
    /// The directory that will hold the file: to be created with what is
    /// missing above it, then watched without its subdirectories.
    Directory(PathBuf),
}

/// Where to subscribe for the file at `path`, whose parent directory is
/// `parent`: the file where it exists, else its directory, so that its creation
/// is seen.
pub open spec fn target_for(path: PathBuf, exists: bool, parent: Option<PathBuf>) -> Result<
    WatchTarget,
    ConfigError,
> {
    if exists {
        Ok(WatchTarget::File(path))
    } else {
        match parent {
            Some(dir) => Ok(WatchTarget::Directory(dir)),
            None => Err(ConfigError::Path),
        }
    }
}

/// Chooses where to subscribe.
pub fn choose_target(path: &PathBuf, exists: bool, parent: Option<PathBuf>) -> (r: Result<
    WatchTarget,
    ConfigError,
>)
    ensures
        r == target_for(*path, exists, parent),
{
    if exists {
        Ok(WatchTarget::File(path.clone()))
    } else {
        match parent {
            Some(dir) => Ok(WatchTarget::Directory(dir)),
            None => Err(ConfigError::Path),
        }
    }
}

/// The subscription of a store: none, or a live one that owns its handle `W`.
/// Dropping the handle ends the subscription.
#[derive(Debug)]
pub enum WatcherState<W> {
    Inactive,
    Active(W),
}

impl<W> WatcherState<W> {
    /// The state after an attempt to subscribe: a new handle takes the place
    /// of whatever was there, a failed attempt changes nothing.
    pub open spec fn after_watch(self, subscription: Option<W>) -> WatcherState<W> {
        match subscription {
            Some(handle) => WatcherState::Active(handle),
            None => self,
        }
    }

    /// The handle that `stop` gives back.
    pub open spec fn handle(self) -> Option<W> {
        match self {
            WatcherState::Inactive => None,
            WatcherState::Active(handle) => Some(handle),
        }
    }

    /// Whether a subscription is live.
    pub fn is_active(&self) -> (r: bool)
        ensures
            r == (*self is Active),
    {
        match self {
            WatcherState::Inactive => false,
            WatcherState::Active(_) => true,
        }
    }

    /// Takes in the outcome of subscribing: `None` is a failed subscription.
    pub fn watch(&mut self, subscription: Option<W>) -> (r: Result<(), ConfigError>)
        ensures
            *final(self) == old(self).after_watch(subscription),
            r == if subscription is Some { Ok::<(), ConfigError>(()) } else { Err(ConfigError::WatchSubscription) },
    {
        match subscription {
            Some(handle) => {
                *self = WatcherState::Active(handle);
                Ok(())
            },
            None => Err(ConfigError::WatchSubscription),
        }
    }

    /// Ends the subscription and hands its handle back, to be dropped.
    pub fn stop(&mut self) -> (r: Option<W>)
        ensures
            *final(self) == WatcherState::<W>::Inactive,
            r == old(self).handle(),
    {
        let mut previous = WatcherState::Inactive;
        core::mem::swap(self, &mut previous);
        match previous {
            WatcherState::Inactive => None,
            WatcherState::Active(handle) => Some(handle),
        }
    }
}

} // verus!
