//! The manager: the configuration value in memory, its backing path, the state
//! of its change subscription, and the errors it has swallowed.

use crate::adapter::{EncodeError, SerdeAdapter};
use crate::error::ConfigError;
use crate::load::{attempt, initial, is_attempt, reloaded, Attempt, FileRead};
use crate::paths::{parent_dir, parent_of};
use crate::persist::{plan_write, split_plan, surfaced, swallowed, write_plan, WriteRequest};
use crate::watcher::{choose_target, target_for, WatchTarget, WatcherState};
use std::marker::PhantomData;
use std::path::PathBuf;
use vstd::prelude::*;

verus! {

/// The errors that one step reports: none or one.
pub open spec fn log_of(report: Option<ConfigError>) -> Seq<ConfigError> {
    match report {
        Some(error) => seq![error],
        None => Seq::empty(),
    }
}

/// What a manager is, to its contracts.
#[verifier::ext_equal]
pub struct ManagerView<S, W> {
    /// The backing path.
    pub path: PathBuf,
    /// The value held.
    pub data: S,
    /// The change subscription.
    pub watcher: WatcherState<W>,
    /// The errors swallowed and not yet taken, oldest first.
    pub reports: Seq<ConfigError>,
}

impl<S, W> ManagerView<S, W> {
    /// This manager, holding `data`.
    pub open spec fn with_data(self, data: S) -> Self {
        ManagerView { data, ..self }
    }

    /// This manager, bound to `path`.
    pub open spec fn with_path(self, path: PathBuf) -> Self {
        ManagerView { path, ..self }
    }

    /// This manager after it has reported what `report` holds.
    pub open spec fn with_report(self, report: Option<ConfigError>) -> Self {
        ManagerView { reports: self.reports + log_of(report), ..self }
    }

    /// This manager after a reload that came to `attempt`: a decoded value
    /// replaces the held one, anything else leaves it.
    pub open spec fn reloaded(self, attempt: Attempt<S>) -> Self {
        match attempt.reload_result() {
            Ok(value) => self.with_data(value),
            Err(_) => self,
        }
    }
}

/// `data` is a value that a new store may hold after `attempt`: the decoded
/// value where there is one, else a value that `fallback` produces.
pub open spec fn is_initial_value<S, F: FnOnce() -> S>(attempt: Attempt<S>, fallback: F, data: S) -> bool {
    match attempt {
        Attempt::Decoded(value) => data == value,
        _ => call_ensures(fallback, (), data),
    }
}

/// `view` is a store newly made for `path` from what `file` holds, under the
/// strategy `SA` and with `fallback` for a default.
pub open spec fn starts_from<
    S: serde::de::DeserializeOwned,
    SA: SerdeAdapter<S>,
    W,
    F: FnOnce() -> S,
>(view: ManagerView<S, W>, path: PathBuf, file: FileRead, fallback: F) -> bool {
    &&& view.path == path
    &&& view.watcher is Inactive
    &&& exists|a: Attempt<S>| #[trigger]
        is_attempt::<S, SA>(file, a) && view.reports == log_of(a.initial_report())
            && is_initial_value(a, fallback, view.data)
}

/// `plan` is a way to persist `data` at `path` under the strategy `SA`: the
/// plan for what the strategy may make of `data`, in the parent directory of
/// `path`.
pub open spec fn is_plan<S: serde::Serialize, SA: SerdeAdapter<S>>(
    path: PathBuf,
    data: S,
    plan: Result<WriteRequest, ConfigError>,
) -> bool {
    exists|encoded: Result<Vec<u8>, EncodeError>| #[trigger]
        call_ensures(SA::serialize, (&data,), encoded) && plan == write_plan(path, parent_of(path), encoded)
}

/// A configuration value of type `S`, bound to a backing path and encoded by
/// the strategy `SA`. `W` is the handle of a live change subscription.
#[derive(Debug)]
pub struct ConfigManager<S, SA, W = ()> {
    path: PathBuf,
    data: S,
    watcher: WatcherState<W>,
    reports: Vec<ConfigError>,
    _sa: PhantomData<SA>,
}

impl<S, SA, W> View for ConfigManager<S, SA, W> {
    type V = ManagerView<S, W>;

    closed spec fn view(&self) -> ManagerView<S, W> {
        ManagerView { path: self.path, data: self.data, watcher: self.watcher, reports: self.reports@ }
    }
}

impl<S, SA: SerdeAdapter<S>, W> ConfigManager<S, SA, W> {
    /// A store for `path`, from what `file` holds: the decoded value, or the
    /// type's default where there is no file or no valid one. Making a store
    /// plans no write; only an update or a change of path does.
    pub fn new(path: PathBuf, file: FileRead) -> (r: Self) where S: Default + serde::de::DeserializeOwned
        ensures
            starts_from::<S, SA, W, _>(r@, path, file, S::default),
    {
        Self::with_fallback(path, file, S::default)
    }

    /// A store for `path`, from what `file` holds: the decoded value, or what
    /// `f` produces where there is no file or no valid one.
    pub fn with_fallback<F: FnOnce() -> S>(path: PathBuf, file: FileRead, f: F) -> (r: Self) where
        S: serde::de::DeserializeOwned,

        requires
            call_requires(f, ()),
        ensures
            starts_from::<S, SA, W, F>(r@, path, file, f),
    {
        let loaded = attempt::<S, SA>(&file);
        let (data, report) = initial(loaded, f);
        let mut reports = Vec::new();
        match report {
            Some(error) => {
                reports.push(error);
            },
            None => {},
        }
        ConfigManager { path, data, watcher: WatcherState::Inactive, reports, _sa: PhantomData }
    }

    /// The backing path.
    pub fn path(&self) -> (r: &PathBuf)
        ensures
            *r == self@.path,
    {
        &self.path
    }

    /// The value held.
    pub fn data(&self) -> (r: &S)
        ensures
            *r == self@.data,
    {
        &self.data
    }

    /// The errors swallowed so far and not yet taken, oldest first.
    pub fn reports(&self) -> (r: &Vec<ConfigError>)
        ensures
            r@ == self@.reports,
    {
        &self.reports
    }

    /// Hands out the swallowed errors, oldest first, and forgets them.
    pub fn take_reports(&mut self) -> (r: Vec<ConfigError>)
        ensures
            r@ == old(self)@.reports,
            final(self)@ == (ManagerView { reports: Seq::empty(), ..old(self)@ }),
    {
        let mut taken = Vec::new();
        core::mem::swap(&mut self.reports, &mut taken);
        taken
    }

    /// Records an error that the caller met and swallowed, such as a write
    /// that did not complete.
    pub fn report(&mut self, error: ConfigError)
        ensures
            final(self)@ == old(self)@.with_report(Some(error)),
    {
        self.reports.push(error);
    }

    /// Plans the write that persists the value held.
    fn plan(&self) -> (r: Result<WriteRequest, ConfigError>) where S: serde::Serialize
        ensures
            is_plan::<S, SA>(self@.path, self@.data, r),
    {
        let encoded = SA::serialize(&self.data);
        plan_write(&self.path, parent_dir(&self.path), encoded)
    }

    /// Applies `f` to the value, then plans the write that persists it. The
    /// value is changed whatever becomes of the plan. An error of encoding is
    /// reported and swallowed; a path without a parent directory is returned.
    pub fn update<F: FnOnce(&mut S)>(&mut self, f: F) -> (r: Result<Option<WriteRequest>, ConfigError>) where
        S: serde::Serialize,

        requires
            forall|m: &mut S| *m == old(self)@.data ==> call_requires(f, (m,)),
        ensures
            exists|m: &mut S|
                *m == old(self)@.data && *final(m) == final(self)@.data && #[trigger] call_ensures(f, (m,), ()),
            exists|plan: Result<WriteRequest, ConfigError>| #[trigger]
                is_plan::<S, SA>(final(self)@.path, final(self)@.data, plan) && r == surfaced(plan)
                    && final(self)@ == old(self)@.with_data(final(self)@.data).with_report(swallowed(plan)),
    {
        f(&mut self.data);
        let plan = self.plan();
        let ghost witness = plan;
        let (r, report) = split_plan(plan);
        match report {
            Some(error) => {
                self.reports.push(error);
            },
            None => {},
        }
        assert(is_plan::<S, SA>(self@.path, self@.data, witness));
        r
    }

    /// Applies `f` to the value, then plans the write that persists it, and
    /// returns the plan or why there is none. The value is changed either way.
    pub fn update_with_err<F: FnOnce(&mut S)>(&mut self, f: F) -> (r: Result<WriteRequest, ConfigError>) where
        S: serde::Serialize,

        requires
            forall|m: &mut S| *m == old(self)@.data ==> call_requires(f, (m,)),
        ensures
            exists|m: &mut S|
                *m == old(self)@.data && *final(m) == final(self)@.data && #[trigger] call_ensures(f, (m,), ()),
            final(self)@ == old(self)@.with_data(final(self)@.data),
            is_plan::<S, SA>(final(self)@.path, final(self)@.data, r),
    {
        f(&mut self.data);
        self.plan()
    }

    /// Applies `f` to the value and plans no write.
    pub fn update_without_write<F: FnOnce(&mut S)>(&mut self, f: F)
        requires
            forall|m: &mut S| *m == old(self)@.data ==> call_requires(f, (m,)),
        ensures
            exists|m: &mut S|
                *m == old(self)@.data && *final(m) == final(self)@.data && #[trigger] call_ensures(f, (m,), ()),
            final(self)@ == old(self)@.with_data(final(self)@.data),
    {
        f(&mut self.data);
    }

    /// Takes in what `file` holds now: a decoded value replaces the held one;
    /// anything else leaves it and is reported.
    pub fn reload(&mut self, file: FileRead) where S: serde::de::DeserializeOwned
        ensures
            exists|a: Attempt<S>| #[trigger]
                is_attempt::<S, SA>(file, a) && final(self)@ == old(self)@.reloaded(a).with_report(
                    a.reload_result().err(),
                ),
    {
        let loaded = attempt::<S, SA>(&file);
        match reloaded(loaded) {
            Ok(value) => {
                self.data = value;
            },
            Err(error) => {
                self.reports.push(error);
            },
        }
    }

    /// Takes in what `file` holds now: a decoded value replaces the held one;
    /// anything else leaves it and is returned.
    pub fn reload_with_err(&mut self, file: FileRead) -> (r: Result<(), ConfigError>) where
        S: serde::de::DeserializeOwned,

        ensures
            exists|a: Attempt<S>| #[trigger]
                is_attempt::<S, SA>(file, a) && final(self)@ == old(self)@.reloaded(a) && r == (
                match a.reload_result() {
                    Ok(_) => Ok::<(), ConfigError>(()),
                    Err(error) => Err(error),
                }),
    {
        let loaded = attempt::<S, SA>(&file);
        match reloaded(loaded) {
            Ok(value) => {
                self.data = value;
                Ok(())
            },
            Err(error) => Err(error),
        }
    }

    /// Binds the store to `new_path` and plans the write that persists the
    /// value there. The file at the earlier path is left as it is.
    pub fn change_path(&mut self, new_path: PathBuf) -> (r: Result<WriteRequest, ConfigError>) where
        S: serde::Serialize,

        ensures
            final(self)@ == old(self)@.with_path(new_path),
            is_plan::<S, SA>(new_path, final(self)@.data, r),
    {
        self.path = new_path;
        self.plan()
    }

    /// Where to subscribe for changes: the file where it `exists`, else its
    /// parent directory; a path without one is an error.
    pub fn watch_target(&self, exists: bool) -> (r: Result<WatchTarget, ConfigError>)
        ensures
            r == target_for(self@.path, exists, parent_of(self@.path)),
    {
        let parent = if exists {
            None
        } else {
            parent_dir(&self.path)
        };
        choose_target(&self.path, exists, parent)
    }

    /// Takes in the outcome of subscribing: a handle makes the subscription
    /// live, in place of an earlier one; `None`, a failed subscription, is an
    /// error and changes nothing.
    pub fn watch(&mut self, subscription: Option<W>) -> (r: Result<(), ConfigError>)
        ensures
            final(self)@ == (ManagerView {
                watcher: old(self)@.watcher.after_watch(subscription),
                ..old(self)@
            }),
            r == if subscription is Some {
                Ok::<(), ConfigError>(())
            } else {
                Err(ConfigError::WatchSubscription)
            },
    {
        self.watcher.watch(subscription)
    }

    /// Ends the subscription, if one is live, and hands its handle back.
    pub fn stop(&mut self) -> (r: Option<W>)
        ensures
            final(self)@ == (ManagerView { watcher: WatcherState::Inactive, ..old(self)@ }),
            r == old(self)@.watcher.handle(),
    {
        self.watcher.stop()
    }

    /// Whether a subscription is live.
    pub fn is_watching(&self) -> (r: bool)
        ensures
            r == (self@.watcher is Active),
    {
        self.watcher.is_active()
    }
}

} // verus!
