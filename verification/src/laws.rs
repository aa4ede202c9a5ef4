//! What holds of the manager across its operations.

use crate::adapter::{decodes_to, encodes_to, rejects, EncodeError, SerdeAdapter};
use crate::error::ConfigError;
use crate::load::{is_attempt, Attempt, FileRead};
use crate::manager::{is_plan, starts_from, ManagerView};
use crate::paths::parent_of;
use crate::persist::{write_plan, WriteRequest};
use crate::watcher::{reaction_to, EventKind, ModifyKind, Notice, Reaction};
use std::path::PathBuf;
use vstd::prelude::*;

verus! {

/// The strategy `SA` reads `value`, and nothing else, back from every encoding
/// that it gives of `value`.
pub open spec fn round_trips<S: serde::Serialize + serde::de::DeserializeOwned, SA: SerdeAdapter<S>>(
    value: S,
) -> bool {
    forall|bytes: Seq<u8>| #[trigger]
        encodes_to::<S, SA>(value, bytes) ==> reads_back::<S, SA>(bytes, value)
}

/// The strategy `SA` decodes `bytes` to `value` and to nothing else.
pub open spec fn reads_back<S: serde::de::DeserializeOwned, SA: SerdeAdapter<S>>(
    bytes: Seq<u8>,
    value: S,
) -> bool {
    &&& !rejects::<S, SA>(bytes)
    &&& forall|other: S| #[trigger] decodes_to::<S, SA>(bytes, other) ==> other == value
}

/// A store made where no file exists holds the fallback's value and reports
/// nothing.
pub proof fn lemma_missing_file_gives_fallback<
    S: serde::de::DeserializeOwned,
    SA: SerdeAdapter<S>,
    W,
    F: FnOnce() -> S,
>(view: ManagerView<S, W>, path: PathBuf, fallback: F)
    requires
        starts_from::<S, SA, W, F>(view, path, FileRead::Missing, fallback),
    ensures
        call_ensures(fallback, (), view.data),
        view.reports == Seq::<ConfigError>::empty(),
        view.path == path,
{
}

/// A store made from content that the strategy decodes to no value holds the
/// fallback's value and reports a decoding error.
pub proof fn lemma_malformed_file_gives_fallback<
    S: serde::de::DeserializeOwned,
    SA: SerdeAdapter<S>,
    W,
    F: FnOnce() -> S,
>(view: ManagerView<S, W>, path: PathBuf, bytes: Vec<u8>, fallback: F)
    requires
        starts_from::<S, SA, W, F>(view, path, FileRead::Content(bytes), fallback),
        forall|value: S| !decodes_to::<S, SA>(bytes@, value),
    ensures
        call_ensures(fallback, (), view.data),
        view.reports == seq![ConfigError::Decode],
{
}

/// A planned write goes to the store's path, names the parent directory of
/// that path, and carries an encoding of the value held when it was planned.
pub proof fn lemma_planned_bytes_encode_the_value<S: serde::Serialize, SA: SerdeAdapter<S>>(
    path: PathBuf,
    data: S,
    request: WriteRequest,
)
    requires
        is_plan::<S, SA>(path, data, Ok(request)),
    ensures
        request.path == path,
        parent_of(path) == Some(request.dir),
        encodes_to::<S, SA>(data, request.bytes@),
{
}

/// A plan fails in two ways only. The encoding error is for a value that the
/// strategy refused, whatever the path; the path error is for a path without a
/// parent directory and a value that the strategy encoded.
pub proof fn lemma_path_error_is_for_a_path_without_parent<S: serde::Serialize, SA: SerdeAdapter<S>>(
    path: PathBuf,
    data: S,
    plan: Result<WriteRequest, ConfigError>,
)
    requires
        is_plan::<S, SA>(path, data, plan),
    ensures
        plan matches Err(error) ==> error == ConfigError::Encode || error == ConfigError::Path,
        plan == Err::<WriteRequest, ConfigError>(ConfigError::Encode) ==> call_ensures(
            SA::serialize,
            (&data,),
            Err(EncodeError),
        ),
        plan == Err::<WriteRequest, ConfigError>(ConfigError::Path) ==> parent_of(path) is None && exists|
            bytes: Seq<u8>,
        | encodes_to::<S, SA>(data, bytes),
        parent_of(path) is None ==> plan is Err,
{
    let encoded = choose|encoded: Result<Vec<u8>, EncodeError>| #[trigger]
        call_ensures(SA::serialize, (&data,), encoded) && plan == write_plan(path, parent_of(path), encoded);
    match encoded {
        Ok(out) => {
            assert(encodes_to::<S, SA>(data, out@));
        },
        Err(error) => {
            assert(error == EncodeError);
        },
    }
}

/// A fresh store made from the bytes of a planned write holds the value that
/// was persisted, where the strategy round-trips that value.
pub proof fn lemma_persisted_value_is_read_back<
    S: serde::Serialize + serde::de::DeserializeOwned,
    SA: SerdeAdapter<S>,
    W,
    F: FnOnce() -> S,
>(path: PathBuf, data: S, request: WriteRequest, fresh: ManagerView<S, W>, fallback: F)
    requires
        is_plan::<S, SA>(path, data, Ok(request)),
        round_trips::<S, SA>(data),
        starts_from::<S, SA, W, F>(fresh, request.path, FileRead::Content(request.bytes), fallback),
    ensures
        fresh.path == path,
        fresh.data == data,
        fresh.reports == Seq::<ConfigError>::empty(),
{
    lemma_planned_bytes_encode_the_value::<S, SA>(path, data, request);
}

/// A reload from content that the strategy reads back as `value` makes `value`
/// the value held, and fails on no account.
pub proof fn lemma_reload_takes_the_new_content<S: serde::de::DeserializeOwned, SA: SerdeAdapter<S>, W>(
    before: ManagerView<S, W>,
    bytes: Vec<u8>,
    value: S,
    attempt: Attempt<S>,
)
    requires
        reads_back::<S, SA>(bytes@, value),
        is_attempt::<S, SA>(FileRead::Content(bytes), attempt),
    ensures
        attempt.reload_result() == Ok::<S, ConfigError>(value),
        before.reloaded(attempt) == before.with_data(value),
{
}

/// A reload after the file is gone is a read error and leaves the value held.
pub proof fn lemma_reload_without_file_keeps_the_value<S: serde::de::DeserializeOwned, SA: SerdeAdapter<S>, W>(
    before: ManagerView<S, W>,
    attempt: Attempt<S>,
)
    requires
        is_attempt::<S, SA>(FileRead::Missing, attempt),
    ensures
        attempt.reload_result() == Err::<S, ConfigError>(ConfigError::Read),
        before.reloaded(attempt) == before,
{
}

/// The callback is called for a notice exactly when it is an event that names
/// the managed path and is neither a read nor a change of metadata alone.
pub proof fn lemma_notifies_on_content_change_only(target: PathBuf, notice: Notice)
    ensures
        reaction_to(target, notice) == Reaction::Notify <==> (notice matches Notice::Event { kind, paths }
            && paths@.contains(target) && kind != EventKind::Access && kind != EventKind::Modify(
            ModifyKind::Metadata,
        )),
{
}

} // verus!
