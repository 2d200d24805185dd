//! Decisions of the worker that reacts to live filesystem events in a user's
//! directory.
//!
//! - Create / Modify: the file is hashed and saved in the local database
//!   without a server asset id, so the uploader picks it up.
//! - Remove: if the asset is young enough (below `delete_threshold` days) and
//!   has a plausible age (between 0 and `delete_max_age` days), the asset is
//!   also deleted on the server. Either way the local database record is
//!   removed, also when the age cannot be determined. In dry-run mode nothing
//!   is written or deleted: a created or modified file is only reported as
//!   detected, and neither deletion is performed. A modification of a file that no longer exists
//!   (renamed away) is handled as its removal.

use vstd::prelude::*;
use crate::event_log::{Notice, notice_of, make_notice};
use crate::event_log::workers::FILE_WATCHER;
use crate::policy::{DeleteAgeEligibility, delete_age_class, evaluate_delete_age, should_propagate_local_delete};
use crate::text::{int_decimal, i64_to_decimal};
use crate::workers::{AgeLookup, Reaction};

verus! {

// ---------------------------------------------------------------------------
// Routing of filesystem events
// ---------------------------------------------------------------------------

/// The kinds of filesystem event the watcher tells apart.
#[derive(Debug, Clone, Copy, PartialEq, Eq, Structural)]
pub enum FsChange {
    Create,
    Modify,
    Remove,
    Other,
}

/// Which handler, if any, a path named by a filesystem event goes to.
#[derive(Debug, Clone, Copy, PartialEq, Eq, Structural)]
pub enum WatchRoute {
    Ignore,
    Change { is_create: bool },
    Removal,
}

/// The route of a path: ignored paths, paths outside the user's directory and
/// events other than creation, modification and removal go nowhere. A
/// modification of a path that no longer exists (a file renamed away, as
/// Syncthing does when it moves a deleted file to `.trashed-*`) is a removal.
pub open spec fn watch_route(change: FsChange, ignored: bool, in_user_dir: bool, exists: bool) -> WatchRoute {
    if ignored || !in_user_dir {
        WatchRoute::Ignore
    } else {
        match change {
            FsChange::Create => WatchRoute::Change { is_create: true },
            FsChange::Modify => if exists {
                WatchRoute::Change { is_create: false }
            } else {
                WatchRoute::Removal
            },
            FsChange::Remove => WatchRoute::Removal,
            FsChange::Other => WatchRoute::Ignore,
        }
    }
}

/// Chooses the handler for one path of a filesystem event; `exists` tells
/// whether the path is still there.
pub fn route_fs_event(change: FsChange, ignored: bool, in_user_dir: bool, exists: bool) -> (r: WatchRoute)
    ensures
        r == watch_route(change, ignored, in_user_dir, exists),
{
    if ignored || !in_user_dir {
        return WatchRoute::Ignore;
    }
    match change {
        FsChange::Create => WatchRoute::Change { is_create: true },
        FsChange::Modify => {
            if exists {
                WatchRoute::Change { is_create: false }
            } else {
                WatchRoute::Removal
            }
        },
        FsChange::Remove => WatchRoute::Removal,
        FsChange::Other => WatchRoute::Ignore,
    }
}

/// An ignored path, or one outside the user's directory, goes to no handler,
/// whatever the event and whether or not the path still exists.
pub proof fn lemma_ignored_or_outside_paths_go_nowhere(
    change: FsChange,
    ignored: bool,
    in_user_dir: bool,
    exists: bool,
)
    requires
        ignored || !in_user_dir,
    ensures
        watch_route(change, ignored, in_user_dir, exists) == WatchRoute::Ignore,
{
}

/// A watched path (not ignored, inside the user's directory) goes to the
/// handler its event calls for: a creation to the change handler as a
/// creation, a modification of an existing file to it as a modification, a
/// removal or a modification of a vanished file to the removal handler, and
/// any other event nowhere.
pub proof fn lemma_watched_paths_reach_their_handler(change: FsChange, exists: bool)
    ensures
        change == FsChange::Create ==> watch_route(change, false, true, exists) == (WatchRoute::Change {
            is_create: true,
        }),
        change == FsChange::Modify && exists ==> watch_route(change, false, true, exists) == (WatchRoute::Change {
            is_create: false,
        }),
        change == FsChange::Modify && !exists ==> watch_route(change, false, true, exists) == WatchRoute::Removal,
        change == FsChange::Remove ==> watch_route(change, false, true, exists) == WatchRoute::Removal,
        change == FsChange::Other ==> watch_route(change, false, true, exists) == WatchRoute::Ignore,
{
}

/// A file that disappeared without a removal event, reported only as a
/// modification (a rename to `.trashed-*`), is handled as removed.
pub proof fn lemma_vanished_file_is_removed(ignored: bool, in_user_dir: bool)
    requires
        !ignored,
        in_user_dir,
    ensures
        watch_route(FsChange::Modify, ignored, in_user_dir, false) == WatchRoute::Removal,
        watch_route(FsChange::Remove, ignored, in_user_dir, false) == WatchRoute::Removal,
{
}

// ---------------------------------------------------------------------------
// Creation or modification of a file
// ---------------------------------------------------------------------------

/// Where the handling of a created or modified file stands.
#[derive(Debug, Clone, Copy, PartialEq, Eq, Structural)]
pub enum ChangeStage {
    /// Nothing has been done yet.
    Start,
    /// The file's checksum has been asked for.
    Hashing,
    /// Saving the file's checksum in the local database has been asked for.
    Saving,
    /// The handling is over.
    Done,
}

/// The outcome of the operation last asked for. `B` is `Vec<u8>` for
/// executable values and `Seq<u8>` for their specification.
pub enum ChangeInput<B> {
    Begin,
    /// The checksum of the file's contents, or `None` when the file could not
    /// be read.
    Hashed(Option<B>),
    Saved { ok: bool },
}

/// The next operation for the runtime to perform.
pub enum ChangeRequest<B> {
    /// Compute the checksum of the file's contents.
    HashFile,
    /// Save the file in the local database with this checksum and no server
    /// asset id, so that the uploader picks it up.
    SaveAsset { checksum: B },
    Finished,
}

/// The handling of one file that was created or modified in the user's
/// directory.
pub struct ChangeHandling<S> {
    /// The file's path relative to the user's directory.
    pub relative_path: S,
    pub is_create: bool,
    pub dry_run: bool,
    pub stage: ChangeStage,
}

impl View for ChangeInput<Vec<u8>> {
    type V = ChangeInput<Seq<u8>>;

    open spec fn view(&self) -> ChangeInput<Seq<u8>> {
        match self {
            ChangeInput::Begin => ChangeInput::Begin,
            ChangeInput::Hashed(c) => ChangeInput::Hashed(
                match c {
                    Some(b) => Some(b@),
                    None => None,
                },
            ),
            ChangeInput::Saved { ok } => ChangeInput::Saved { ok: *ok },
        }
    }
}

impl View for ChangeRequest<Vec<u8>> {
    type V = ChangeRequest<Seq<u8>>;

    open spec fn view(&self) -> ChangeRequest<Seq<u8>> {
        match self {
            ChangeRequest::HashFile => ChangeRequest::HashFile,
            ChangeRequest::SaveAsset { checksum } => ChangeRequest::SaveAsset { checksum: checksum@ },
            ChangeRequest::Finished => ChangeRequest::Finished,
        }
    }
}

impl View for ChangeHandling<String> {
    type V = ChangeHandling<Seq<char>>;

    open spec fn view(&self) -> ChangeHandling<Seq<char>> {
        ChangeHandling {
            relative_path: self.relative_path@,
            is_create: self.is_create,
            dry_run: self.dry_run,
            stage: self.stage,
        }
    }
}

/// The specification of a change step's outcome.
pub type ChangeReaction = Reaction<Notice<Seq<char>>, ChangeRequest<Seq<u8>>>;

/// The word that describes the change: "added" or "modified".
pub open spec fn change_action(is_create: bool) -> Seq<char> {
    if is_create {
        "added"@
    } else {
        "modified"@
    }
}

/// One step of the handling of a created or modified file: the file is
/// reported as detected, hashed, and saved under its checksum; it is reported
/// as queued once saved. In dry-run mode the handling ends once the file is
/// reported as detected. A failed hashing or save, or an input that does not
/// answer the operation last asked for, ends the handling.
pub open spec fn change_next(h: ChangeHandling<Seq<char>>, input: ChangeInput<Seq<u8>>) -> (
    ChangeHandling<Seq<char>>,
    ChangeReaction,
) {
    match (h.stage, input) {
        (ChangeStage::Start, ChangeInput::Begin) => (
            ChangeHandling { stage: if h.dry_run { ChangeStage::Done } else { ChangeStage::Hashing }, ..h },
            Reaction {
                notice: Some(
                    notice_of(
                        FILE_WATCHER@,
                        "file_detected"@,
                        Some(h.relative_path),
                        None,
                        Some(change_action(h.is_create)),
                    ),
                ),
                request: if h.dry_run {
                    ChangeRequest::Finished
                } else {
                    ChangeRequest::HashFile
                },
            },
        ),
        (ChangeStage::Hashing, ChangeInput::Hashed(Some(checksum))) => (
            ChangeHandling { stage: ChangeStage::Saving, ..h },
            Reaction { notice: None, request: ChangeRequest::SaveAsset { checksum } },
        ),
        (ChangeStage::Saving, ChangeInput::Saved { ok }) => (
            ChangeHandling { stage: ChangeStage::Done, ..h },
            Reaction {
                notice: if ok {
                    Some(notice_of(FILE_WATCHER@, "file_queued"@, Some(h.relative_path), None, None))
                } else {
                    None
                },
                request: ChangeRequest::Finished,
            },
        ),
        _ => (ChangeHandling { stage: ChangeStage::Done, ..h }, Reaction { notice: None, request: ChangeRequest::Finished }),
    }
}

/// A created or modified file is saved under the checksum computed for it,
/// and saving is asked for only right after a successful hashing.
pub proof fn lemma_saved_checksum_is_computed_one(h: ChangeHandling<Seq<char>>, input: ChangeInput<Seq<u8>>)
    requires
        change_next(h, input).1.request is SaveAsset,
    ensures
        h.stage == ChangeStage::Hashing,
        input matches ChangeInput::Hashed(Some(checksum)) && change_next(h, input).1.request->checksum == checksum,
{
}

/// Outside dry-run, every created or modified file is reported as detected
/// (as "added" or "modified"), hashed, saved under exactly the checksum
/// computed for it, and reported as queued once saved.
pub proof fn lemma_change_course(path: Seq<char>, is_create: bool, checksum: Seq<u8>)
    ensures
        ({
            let h0 = ChangeHandling { relative_path: path, is_create, dry_run: false, stage: ChangeStage::Start };
            let (h1, r1) = change_next(h0, ChangeInput::Begin);
            let (h2, r2) = change_next(h1, ChangeInput::Hashed(Some(checksum)));
            let (h3, r3) = change_next(h2, ChangeInput::Saved { ok: true });
            &&& r1.request == ChangeRequest::<Seq<u8>>::HashFile
            &&& r1.notice == Some(
                Notice {
                    worker: FILE_WATCHER@,
                    event: "file_detected"@,
                    path: Some(path),
                    asset_id: None,
                    detail: Some(if is_create { "added"@ } else { "modified"@ }),
                },
            )
            &&& r2.request == ChangeRequest::SaveAsset { checksum }
            &&& r2.notice is None
            &&& r3.request == ChangeRequest::<Seq<u8>>::Finished
            &&& r3.notice == Some(
                Notice { worker: FILE_WATCHER@, event: "file_queued"@, path: Some(path), asset_id: None, detail: None },
            )
        }),
{
}

/// A created or modified file that cannot be hashed, or whose saving fails,
/// ends its handling with nothing more recorded; in particular it is never
/// reported as queued.
pub proof fn lemma_change_failures(h: ChangeHandling<Seq<char>>)
    ensures
        h.stage == ChangeStage::Hashing ==> change_next(h, ChangeInput::Hashed(None)).1 == (Reaction {
            notice: None::<Notice<Seq<char>>>,
            request: ChangeRequest::<Seq<u8>>::Finished,
        }),
        h.stage == ChangeStage::Saving ==> change_next(h, ChangeInput::Saved { ok: false }).1 == (Reaction {
            notice: None::<Notice<Seq<char>>>,
            request: ChangeRequest::<Seq<u8>>::Finished,
        }),
{
}

/// In dry-run mode a created or modified file is never saved: the handling
/// never asks for a database write.
pub proof fn lemma_dry_run_change_saves_nothing(h: ChangeHandling<Seq<char>>, input: ChangeInput<Seq<u8>>)
    requires
        h.dry_run,
        change_inv(h),
    ensures
        !(change_next(h, input).1.request is SaveAsset),
        change_inv(change_next(h, input).0),
{
}

/// What holds of every handling of a change from its start on: in dry-run
/// mode it never hashes or saves.
pub open spec fn change_inv(h: ChangeHandling<Seq<char>>) -> bool {
    h.dry_run ==> (h.stage == ChangeStage::Start || h.stage == ChangeStage::Done)
}

/// How many steps at most remain from a stage.
pub open spec fn change_rank(stage: ChangeStage) -> nat {
    match stage {
        ChangeStage::Start => 3,
        ChangeStage::Hashing => 2,
        ChangeStage::Saving => 1,
        ChangeStage::Done => 0,
    }
}

/// Every step moves the handling forward: it ends after at most three steps.
/// The path never changes, and a file is reported as queued only once its
/// record was saved.
pub proof fn lemma_change_progress(h: ChangeHandling<Seq<char>>, input: ChangeInput<Seq<u8>>)
    ensures
        !(h.stage == ChangeStage::Done) ==> change_rank(change_next(h, input).0.stage) < change_rank(h.stage),
        h.stage == ChangeStage::Done ==> change_next(h, input).0.stage == ChangeStage::Done,
        change_next(h, input).0.relative_path == h.relative_path,
        (change_next(h, input).1.request is Finished) <==> change_next(h, input).0.stage == ChangeStage::Done,
        change_next(h, input).1.notice matches Some(n) && n.event == "file_queued"@ ==> h.stage == ChangeStage::Saving
            && input == (ChangeInput::<Seq<u8>>::Saved { ok: true }),
{
    reveal_strlit("file_queued");
    reveal_strlit("file_detected");
    assert("file_detected"@.len() != "file_queued"@.len());
}

impl ChangeHandling<String> {
    /// The handling of a creation (`is_create`) or modification of the file at
    /// `relative_path`, not started yet.
    pub fn new(relative_path: String, is_create: bool, dry_run: bool) -> (h: ChangeHandling<String>)
        ensures
            h@ == (ChangeHandling { relative_path: relative_path@, is_create, dry_run, stage: ChangeStage::Start }),
            change_inv(h@),
    {
        ChangeHandling { relative_path, is_create, dry_run, stage: ChangeStage::Start }
    }

    /// Advances the handling by the outcome of the operation last asked for.
    pub fn step(&mut self, input: ChangeInput<Vec<u8>>) -> (r: Reaction<Notice<String>, ChangeRequest<Vec<u8>>>)
        ensures
            (final(self)@, r@) == change_next(old(self)@, input@),
    {
        let stage = self.stage;
        self.stage = ChangeStage::Done;
        match input {
            ChangeInput::Begin => {
                if stage == ChangeStage::Start {
                    let action = if self.is_create {
                        "added"
                    } else {
                        "modified"
                    };
                    let n = make_notice(
                        FILE_WATCHER,
                        "file_detected",
                        Some(self.relative_path.clone()),
                        None,
                        Some(String::from_str(action)),
                    );
                    if self.dry_run {
                        return Reaction { notice: Some(n), request: ChangeRequest::Finished };
                    }
                    self.stage = ChangeStage::Hashing;
                    return Reaction { notice: Some(n), request: ChangeRequest::HashFile };
                }
            },
            ChangeInput::Hashed(Some(checksum)) => {
                if stage == ChangeStage::Hashing {
                    self.stage = ChangeStage::Saving;
                    return Reaction { notice: None, request: ChangeRequest::SaveAsset { checksum } };
                }
            },
            ChangeInput::Saved { ok } => {
                if stage == ChangeStage::Saving {
                    let notice = if ok {
                        Some(make_notice(FILE_WATCHER, "file_queued", Some(self.relative_path.clone()), None, None))
                    } else {
                        None
                    };
                    return Reaction { notice, request: ChangeRequest::Finished };
                }
            },
            _ => {},
        }
        Reaction { notice: None, request: ChangeRequest::Finished }
    }
}

// ---------------------------------------------------------------------------
// Removal of a file
// ---------------------------------------------------------------------------

/// The settings that govern what a local removal propagates.
#[derive(Clone, Copy)]
pub struct RemovalPolicy {
    pub delete_threshold: i64,
    pub delete_max_age: i64,
    pub dry_run: bool,
}

/// Where the handling of a removed file stands.
#[allow(inconsistent_fields)]
pub enum RemovalStage<S> {
    /// Nothing has been done yet.
    Start,
    /// The local database record of the file has been asked for.
    FindingAsset,
    /// The record was found (with the server asset id it holds, if any) and
    /// the asset's age has been asked for.
    CheckingAge { asset_id: Option<S> },
    /// Deletion of the server asset has been asked for.
    DeletingRemote { asset_id: S },
    /// Removal of the local database record has been asked for.
    RemovingRecord,
    /// The handling is over.
    Done,
}

/// The outcome of looking up a file's record in the local database.
pub enum RowLookup<S> {
    Failed,
    Missing,
    Found { asset_id: Option<S> },
}

/// The outcome of the operation last asked for.
pub enum RemovalInput<S> {
    Begin,
    Row(RowLookup<S>),
    Age(AgeLookup),
    RemoteDeleted { ok: bool },
    RecordRemoved { ok: bool },
}

/// The next operation for the runtime to perform.
pub enum RemovalRequest<S> {
    /// Look up the file's record in the local database.
    FindAsset,
    /// Ask for the asset's age in days.
    AssetAge,
    /// Delete the asset on the server.
    DeleteRemote { asset_id: S },
    /// Remove the file's record from the local database.
    DeleteRecord,
    /// Nothing more is to be done.
    Finished,
}

/// The handling of one file that was removed from the user's directory.
pub struct LocalRemoval<S> {
    /// The file's path relative to the user's directory.
    pub relative_path: S,
    pub policy: RemovalPolicy,
    pub stage: RemovalStage<S>,
}

impl View for RemovalStage<String> {
    type V = RemovalStage<Seq<char>>;

    open spec fn view(&self) -> RemovalStage<Seq<char>> {
        match self {
            RemovalStage::Start => RemovalStage::Start,
            RemovalStage::FindingAsset => RemovalStage::FindingAsset,
            RemovalStage::CheckingAge { asset_id } => RemovalStage::CheckingAge { asset_id: asset_id.deep_view() },
            RemovalStage::DeletingRemote { asset_id } => RemovalStage::DeletingRemote { asset_id: asset_id@ },
            RemovalStage::RemovingRecord => RemovalStage::RemovingRecord,
            RemovalStage::Done => RemovalStage::Done,
        }
    }
}

impl View for RowLookup<String> {
    type V = RowLookup<Seq<char>>;

    open spec fn view(&self) -> RowLookup<Seq<char>> {
        match self {
            RowLookup::Failed => RowLookup::Failed,
            RowLookup::Missing => RowLookup::Missing,
            RowLookup::Found { asset_id } => RowLookup::Found { asset_id: asset_id.deep_view() },
        }
    }
}

impl View for RemovalInput<String> {
    type V = RemovalInput<Seq<char>>;

    open spec fn view(&self) -> RemovalInput<Seq<char>> {
        match self {
            RemovalInput::Begin => RemovalInput::Begin,
            RemovalInput::Row(r) => RemovalInput::Row(r@),
            RemovalInput::Age(a) => RemovalInput::Age(*a),
            RemovalInput::RemoteDeleted { ok } => RemovalInput::RemoteDeleted { ok: *ok },
            RemovalInput::RecordRemoved { ok } => RemovalInput::RecordRemoved { ok: *ok },
        }
    }
}

impl View for RemovalRequest<String> {
    type V = RemovalRequest<Seq<char>>;

    open spec fn view(&self) -> RemovalRequest<Seq<char>> {
        match self {
            RemovalRequest::FindAsset => RemovalRequest::FindAsset,
            RemovalRequest::AssetAge => RemovalRequest::AssetAge,
            RemovalRequest::DeleteRemote { asset_id } => RemovalRequest::DeleteRemote { asset_id: asset_id@ },
            RemovalRequest::DeleteRecord => RemovalRequest::DeleteRecord,
            RemovalRequest::Finished => RemovalRequest::Finished,
        }
    }
}

impl View for LocalRemoval<String> {
    type V = LocalRemoval<Seq<char>>;

    open spec fn view(&self) -> LocalRemoval<Seq<char>> {
        LocalRemoval { relative_path: self.relative_path@, policy: self.policy, stage: self.stage@ }
    }
}

/// The specification of a removal step's outcome.
pub type RemovalReaction = Reaction<Notice<Seq<char>>, RemovalRequest<Seq<char>>>;

/// A notice of the file watcher about the removed file.
pub open spec fn removal_notice(
    m: LocalRemoval<Seq<char>>,
    event: Seq<char>,
    asset_id: Option<Seq<char>>,
    detail: Option<Seq<char>>,
) -> Notice<Seq<char>> {
    notice_of(FILE_WATCHER@, event, Some(m.relative_path), asset_id, detail)
}

/// Moves to `stage` and asks for `request`, recording `notice` if any.
pub open spec fn removal_go(
    m: LocalRemoval<Seq<char>>,
    stage: RemovalStage<Seq<char>>,
    notice: Option<Notice<Seq<char>>>,
    request: RemovalRequest<Seq<char>>,
) -> (LocalRemoval<Seq<char>>, RemovalReaction) {
    (LocalRemoval { stage, ..m }, Reaction { notice, request })
}

/// Ends the handling, recording `notice` if any.
pub open spec fn removal_end(m: LocalRemoval<Seq<char>>, notice: Option<Notice<Seq<char>>>) -> (
    LocalRemoval<Seq<char>>,
    RemovalReaction,
) {
    removal_go(m, RemovalStage::Done, notice, RemovalRequest::Finished)
}

/// Records `notice` if any, then removes the database record, unless in
/// dry-run mode, where the handling ends.
pub open spec fn removal_then_forget(m: LocalRemoval<Seq<char>>, notice: Option<Notice<Seq<char>>>) -> (
    LocalRemoval<Seq<char>>,
    RemovalReaction,
) {
    if m.policy.dry_run {
        removal_end(m, notice)
    } else {
        removal_go(m, RemovalStage::RemovingRecord, notice, RemovalRequest::DeleteRecord)
    }
}

/// A `delete_skipped` notice with the given detail.
pub open spec fn skipped(m: LocalRemoval<Seq<char>>, asset_id: Option<Seq<char>>, detail: Seq<char>) -> Notice<
    Seq<char>,
> {
    removal_notice(m, "delete_skipped"@, asset_id, Some(detail))
}

/// The detail recorded when an asset is too old to be deleted on the server.
pub open spec fn threshold_detail(age: int, threshold: int) -> Seq<char> {
    "age "@ + int_decimal(age) + " exceeds threshold "@ + int_decimal(threshold)
}

/// The detail recorded when an asset's creation date lies in the future.
pub open spec fn future_detail(age: int) -> Seq<char> {
    "future created_at ("@ + int_decimal(age) + " days)"@
}

/// The detail recorded when an asset's age exceeds `delete_max_age`.
pub open spec fn unrealistic_detail(age: int) -> Seq<char> {
    "unrealistic age ("@ + int_decimal(age) + " days)"@
}

/// What follows once the asset's age is known.
pub open spec fn removal_on_age(
    m: LocalRemoval<Seq<char>>,
    asset_id: Option<Seq<char>>,
    age_days: Option<i64>,
) -> (LocalRemoval<Seq<char>>, RemovalReaction) {
    match delete_age_class(age_days, m.policy.delete_max_age) {
        DeleteAgeEligibility::Eligible(age) => if age < m.policy.delete_threshold {
            match asset_id {
                Some(id) => if m.policy.dry_run {
                    removal_end(m, Some(skipped(m, Some(id), "dry-run"@)))
                } else {
                    removal_go(
                        m,
                        RemovalStage::DeletingRemote { asset_id: id },
                        None,
                        RemovalRequest::DeleteRemote { asset_id: id },
                    )
                },
                None => removal_then_forget(m, Some(skipped(m, None, "not yet uploaded"@))),
            }
        } else {
            removal_then_forget(
                m,
                Some(skipped(m, None, threshold_detail(age as int, m.policy.delete_threshold as int))),
            )
        },
        DeleteAgeEligibility::FutureCreatedAt(age) => removal_then_forget(
            m,
            Some(skipped(m, None, future_detail(age as int))),
        ),
        DeleteAgeEligibility::UnrealisticAge(age) => removal_then_forget(
            m,
            Some(skipped(m, None, unrealistic_detail(age as int))),
        ),
        DeleteAgeEligibility::MissingCreatedAt => removal_then_forget(
            m,
            Some(skipped(m, None, "missing created_at"@)),
        ),
    }
}

/// One step of the handling of a removed file: the state after `input` and
/// what is to be recorded and done next. An input that does not answer the
/// operation last asked for ends the handling.
pub open spec fn removal_next(m: LocalRemoval<Seq<char>>, input: RemovalInput<Seq<char>>) -> (
    LocalRemoval<Seq<char>>,
    RemovalReaction,
) {
    match (m.stage, input) {
        (RemovalStage::Start, RemovalInput::Begin) => removal_go(
            m,
            RemovalStage::FindingAsset,
            None,
            RemovalRequest::FindAsset,
        ),
        (RemovalStage::FindingAsset, RemovalInput::Row(RowLookup::Found { asset_id })) => removal_go(
            m,
            RemovalStage::CheckingAge { asset_id },
            None,
            RemovalRequest::AssetAge,
        ),
        (RemovalStage::CheckingAge { asset_id }, RemovalInput::Age(AgeLookup::Known(age_days))) => removal_on_age(
            m,
            asset_id,
            age_days,
        ),
        (RemovalStage::CheckingAge { .. }, RemovalInput::Age(AgeLookup::Failed)) => removal_then_forget(m, None),
        (RemovalStage::DeletingRemote { asset_id }, RemovalInput::RemoteDeleted { ok }) => removal_go(
            m,
            RemovalStage::RemovingRecord,
            if ok {
                Some(removal_notice(m, "delete_propagated"@, Some(asset_id), None))
            } else {
                None
            },
            RemovalRequest::DeleteRecord,
        ),
        (RemovalStage::RemovingRecord, RemovalInput::RecordRemoved { ok }) => removal_end(
            m,
            if ok {
                Some(removal_notice(m, "db_record_removed"@, None, None))
            } else {
                None
            },
        ),
        _ => removal_end(m, None),
    }
}

/// How many steps at most remain from a stage.
pub open spec fn removal_rank<S>(stage: RemovalStage<S>) -> nat {
    match stage {
        RemovalStage::Start => 5,
        RemovalStage::FindingAsset => 4,
        RemovalStage::CheckingAge { .. } => 3,
        RemovalStage::DeletingRemote { .. } => 2,
        RemovalStage::RemovingRecord => 1,
        RemovalStage::Done => 0,
    }
}

/// The operation that a stage waits for.
pub open spec fn removal_awaits(stage: RemovalStage<Seq<char>>, request: RemovalRequest<Seq<char>>) -> bool {
    match stage {
        RemovalStage::Start => false,
        RemovalStage::FindingAsset => request is FindAsset,
        RemovalStage::CheckingAge { .. } => request is AssetAge,
        RemovalStage::DeletingRemote { asset_id } => request == RemovalRequest::DeleteRemote { asset_id },
        RemovalStage::RemovingRecord => request is DeleteRecord,
        RemovalStage::Done => request is Finished,
    }
}

/// Every step moves the handling forward, never back: the handling of a
/// removal ends after at most five steps. The path and the policy never
/// change, and the operation asked for is the one the new stage waits for.
pub proof fn lemma_removal_progress(m: LocalRemoval<Seq<char>>, input: RemovalInput<Seq<char>>)
    ensures
        !(m.stage is Done) ==> removal_rank(removal_next(m, input).0.stage) < removal_rank(m.stage),
        m.stage is Done ==> removal_next(m, input).0.stage is Done,
        removal_next(m, input).0.relative_path == m.relative_path,
        removal_next(m, input).0.policy == m.policy,
        removal_awaits(removal_next(m, input).0.stage, removal_next(m, input).1.request),
{
}

/// What holds of every handling of a removal from its start on: in dry-run
/// mode it never waits for a deletion.
pub open spec fn removal_inv(m: LocalRemoval<Seq<char>>) -> bool {
    m.policy.dry_run ==> !(m.stage is DeletingRemote || m.stage is RemovingRecord)
}

/// Every step keeps `removal_inv`.
pub proof fn lemma_removal_inv_preserved(m: LocalRemoval<Seq<char>>, input: RemovalInput<Seq<char>>)
    requires
        removal_inv(m),
    ensures
        removal_inv(removal_next(m, input).0),
{
}

/// In dry-run mode the handling of a removal deletes nothing: neither the
/// server asset nor the local database record.
pub proof fn lemma_dry_run_removal_deletes_nothing(m: LocalRemoval<Seq<char>>, input: RemovalInput<Seq<char>>)
    requires
        m.policy.dry_run,
        removal_inv(m),
    ensures
        !(removal_next(m, input).1.request is DeleteRemote),
        !(removal_next(m, input).1.request is DeleteRecord),
{
}

/// A server asset is deleted only when the removed file's record holds its
/// id, the asset's age is known and plausible (`0..=delete_max_age`) and
/// below `delete_threshold`, and the mode is not dry-run.
pub proof fn lemma_remote_delete_requires_young_plausible_age(
    m: LocalRemoval<Seq<char>>,
    input: RemovalInput<Seq<char>>,
)
    requires
        removal_next(m, input).1.request is DeleteRemote,
    ensures
        !m.policy.dry_run,
        m.stage == (RemovalStage::CheckingAge { asset_id: Some(removal_next(m, input).1.request->asset_id) }),
        input matches RemovalInput::Age(AgeLookup::Known(Some(age))) && 0 <= age <= m.policy.delete_max_age && age
            < m.policy.delete_threshold,
{
}

/// Outside dry-run, a removed file whose record holds an asset id and whose
/// age is known, lies in `0..=delete_max_age` and is below
/// `delete_threshold` has that asset deleted on the server; once the deletion
/// succeeded it is recorded as propagated and the record is removed. In
/// dry-run mode the same file is recorded as skipped and nothing is deleted.
pub proof fn lemma_young_plausible_age_deletes_remote(m: LocalRemoval<Seq<char>>, id: Seq<char>, age: i64)
    requires
        m.stage == (RemovalStage::CheckingAge { asset_id: Some(id) }),
        0 <= age <= m.policy.delete_max_age,
        age < m.policy.delete_threshold,
    ensures
        ({
            let (m1, r1) = removal_next(m, RemovalInput::Age(AgeLookup::Known(Some(age))));
            let (m2, r2) = removal_next(m1, RemovalInput::RemoteDeleted { ok: true });
            &&& !m.policy.dry_run ==> {
                &&& r1.request == RemovalRequest::DeleteRemote { asset_id: id }
                &&& r1.notice is None
                &&& r2.request == RemovalRequest::<Seq<char>>::DeleteRecord
                &&& r2.notice == Some(
                    Notice {
                        worker: FILE_WATCHER@,
                        event: "delete_propagated"@,
                        path: Some(m.relative_path),
                        asset_id: Some(id),
                        detail: None,
                    },
                )
            }
            &&& m.policy.dry_run ==> {
                &&& r1.request == RemovalRequest::<Seq<char>>::Finished
                &&& r1.notice == Some(
                    Notice {
                        worker: FILE_WATCHER@,
                        event: "delete_skipped"@,
                        path: Some(m.relative_path),
                        asset_id: Some(id),
                        detail: Some("dry-run"@),
                    },
                )
            }
        }),
{
}

/// What a removed file whose record is found becomes once its age is
/// answered, when its asset is not deleted on the server: the reason is
/// recorded as `delete_skipped` (nothing is recorded when the age could not
/// be determined), then the record is removed, or, in dry-run mode, the
/// handling ends. The reasons: a missing creation date, one in the future, an
/// age above `delete_max_age`, an age at or above `delete_threshold`, or an
/// asset not yet uploaded.
pub proof fn lemma_kept_server_asset_reasons(m: LocalRemoval<Seq<char>>, asset_id: Option<Seq<char>>, age: AgeLookup)
    requires
        m.stage == (RemovalStage::CheckingAge { asset_id }),
        !(age matches AgeLookup::Known(Some(a)) && 0 <= a <= m.policy.delete_max_age && a < m.policy.delete_threshold
            && asset_id is Some),
    ensures
        ({
            let (m1, r1) = removal_next(m, RemovalInput::Age(age));
            let skip = |detail: Seq<char>|
                Some(
                    Notice {
                        worker: FILE_WATCHER@,
                        event: "delete_skipped"@,
                        path: Some(m.relative_path),
                        asset_id: None,
                        detail: Some(detail),
                    },
                );
            let known = age is Known && age->Known_0 is Some;
            let a: i64 = age->Known_0->0;
            &&& r1.request == (if m.policy.dry_run {
                RemovalRequest::<Seq<char>>::Finished
            } else {
                RemovalRequest::<Seq<char>>::DeleteRecord
            })
            &&& (age is Failed ==> r1.notice is None)
            &&& (age == AgeLookup::Known(None) ==> r1.notice == skip("missing created_at"@))
            &&& (known && a < 0 ==> r1.notice == skip("future created_at ("@ + int_decimal(a as int) + " days)"@))
            &&& (known && a >= 0 && a > m.policy.delete_max_age ==> r1.notice == skip(
                "unrealistic age ("@ + int_decimal(a as int) + " days)"@,
            ))
            &&& (known && 0 <= a <= m.policy.delete_max_age && a >= m.policy.delete_threshold ==> r1.notice
                == skip(
                "age "@ + int_decimal(a as int) + " exceeds threshold "@ + int_decimal(m.policy.delete_threshold as int),
            ))
            &&& (known && 0 <= a <= m.policy.delete_max_age && a < m.policy.delete_threshold ==> r1.notice == skip(
                "not yet uploaded"@,
            ))
        }),
{
}

/// The first steps of the handling of a removed file: its record is looked
/// up; when it is found the age is asked for, otherwise (missing, or the
/// lookup failed) the handling ends with nothing recorded. Once the record
/// removal was asked for, a success is recorded as `db_record_removed` and
/// the handling ends. A failed server deletion is not recorded and still
/// leads to the record's removal.
pub proof fn lemma_removal_lookups(m: LocalRemoval<Seq<char>>, row: RowLookup<Seq<char>>, id: Seq<char>, ok: bool)
    ensures
        m.stage is Start ==> removal_next(m, RemovalInput::Begin).1 == (Reaction {
            notice: None::<Notice<Seq<char>>>,
            request: RemovalRequest::<Seq<char>>::FindAsset,
        }),
        m.stage is FindingAsset ==> removal_next(m, RemovalInput::Row(row)).1 == (Reaction {
            notice: None::<Notice<Seq<char>>>,
            request: if row is Found {
                RemovalRequest::<Seq<char>>::AssetAge
            } else {
                RemovalRequest::<Seq<char>>::Finished
            },
        }),
        m.stage is FindingAsset && row is Found ==> removal_next(m, RemovalInput::Row(row)).0.stage == (
        RemovalStage::CheckingAge { asset_id: row->asset_id }),
        m.stage is RemovingRecord ==> removal_next(m, RemovalInput::RecordRemoved { ok }).1 == (Reaction {
            notice: if ok {
                Some(
                    Notice {
                        worker: FILE_WATCHER@,
                        event: "db_record_removed"@,
                        path: Some(m.relative_path),
                        asset_id: None,
                        detail: None,
                    },
                )
            } else {
                None
            },
            request: RemovalRequest::<Seq<char>>::Finished,
        }),
        m.stage == (RemovalStage::DeletingRemote { asset_id: id }) ==> removal_next(
            m,
            RemovalInput::RemoteDeleted { ok: false },
        ).1 == (Reaction {
            notice: None::<Notice<Seq<char>>>,
            request: RemovalRequest::<Seq<char>>::DeleteRecord,
        }),
{
}

/// With a `delete_threshold` of 0 days or less no local removal deletes a
/// server asset.
pub proof fn lemma_nonpositive_threshold_keeps_server_assets(
    m: LocalRemoval<Seq<char>>,
    input: RemovalInput<Seq<char>>,
)
    requires
        m.policy.delete_threshold <= 0,
    ensures
        !(removal_next(m, input).1.request is DeleteRemote),
{
    if removal_next(m, input).1.request is DeleteRemote {
        lemma_remote_delete_requires_young_plausible_age(m, input);
    }
}

/// Once the record of a removed file is found, the record is removed whatever
/// the answer about the asset's age, whether or not the asset is deleted on
/// the server and whether or not that deletion succeeds (outside dry-run
/// mode).
pub proof fn lemma_record_removed_either_way(
    m: LocalRemoval<Seq<char>>,
    asset_id: Option<Seq<char>>,
    age: AgeLookup,
    remote_ok: bool,
)
    requires
        !m.policy.dry_run,
        m.stage == (RemovalStage::CheckingAge { asset_id }),
    ensures
        ({
            let (m1, r1) = removal_next(m, RemovalInput::Age(age));
            ||| r1.request is DeleteRecord
            ||| r1.request is DeleteRemote && removal_next(
                m1,
                RemovalInput::RemoteDeleted { ok: remote_ok },
            ).1.request is DeleteRecord
        }),
{
}

impl LocalRemoval<String> {
    /// The handling of a removal of the file at `relative_path`, not started yet.
    pub fn new(relative_path: String, policy: RemovalPolicy) -> (r: LocalRemoval<String>)
        ensures
            r@ == (LocalRemoval { relative_path: relative_path@, policy, stage: RemovalStage::<Seq<char>>::Start }),
            removal_inv(r@),
    {
        LocalRemoval { relative_path, policy, stage: RemovalStage::Start }
    }

    fn notice(&self, event: &str, asset_id: Option<String>, detail: Option<String>) -> (n: Notice<String>)
        ensures
            n@ == removal_notice(self@, event@, asset_id.deep_view(), detail.deep_view()),
    {
        make_notice(FILE_WATCHER, event, Some(self.relative_path.clone()), asset_id, detail)
    }

    fn then_forget(&mut self, notice: Option<Notice<String>>) -> (r: Reaction<Notice<String>, RemovalRequest<String>>)
        ensures
            (final(self)@, r@) == removal_then_forget(old(self)@, match notice {
                Some(n) => Some(n@),
                None => None,
            }),
    {
        if self.policy.dry_run {
            self.stage = RemovalStage::Done;
            Reaction { notice, request: RemovalRequest::Finished }
        } else {
            self.stage = RemovalStage::RemovingRecord;
            Reaction { notice, request: RemovalRequest::DeleteRecord }
        }
    }

    fn on_age(&mut self, asset_id: Option<String>, age_days: Option<i64>) -> (r: Reaction<
        Notice<String>,
        RemovalRequest<String>,
    >)
        ensures
            (final(self)@, r@) == removal_on_age(old(self)@, asset_id.deep_view(), age_days),
    {
        let policy = self.policy;
        match evaluate_delete_age(age_days, policy.delete_max_age) {
            DeleteAgeEligibility::Eligible(age) => {
                if should_propagate_local_delete(age, policy.delete_threshold) {
                    match asset_id {
                        Some(id) => {
                            if policy.dry_run {
                                let n = self.notice("delete_skipped", Some(id), Some(String::from_str("dry-run")));
                                self.stage = RemovalStage::Done;
                                Reaction { notice: Some(n), request: RemovalRequest::Finished }
                            } else {
                                let id2 = id.clone();
                                self.stage = RemovalStage::DeletingRemote { asset_id: id };
                                Reaction { notice: None, request: RemovalRequest::DeleteRemote { asset_id: id2 } }
                            }
                        },
                        None => {
                            let n = self.notice("delete_skipped", None, Some(String::from_str("not yet uploaded")));
                            self.then_forget(Some(n))
                        },
                    }
                } else {
                    let mut d = String::from_str("age ");
                    d.append(i64_to_decimal(age).as_str());
                    d.append(" exceeds threshold ");
                    d.append(i64_to_decimal(policy.delete_threshold).as_str());
                    let n = self.notice("delete_skipped", None, Some(d));
                    self.then_forget(Some(n))
                }
            },
            DeleteAgeEligibility::FutureCreatedAt(age) => {
                let mut d = String::from_str("future created_at (");
                d.append(i64_to_decimal(age).as_str());
                d.append(" days)");
                let n = self.notice("delete_skipped", None, Some(d));
                self.then_forget(Some(n))
            },
            DeleteAgeEligibility::UnrealisticAge(age) => {
                let mut d = String::from_str("unrealistic age (");
                d.append(i64_to_decimal(age).as_str());
                d.append(" days)");
                let n = self.notice("delete_skipped", None, Some(d));
                self.then_forget(Some(n))
            },
            DeleteAgeEligibility::MissingCreatedAt => {
                let n = self.notice("delete_skipped", None, Some(String::from_str("missing created_at")));
                self.then_forget(Some(n))
            },
        }
    }

    fn end(&mut self, notice: Option<Notice<String>>) -> (r: Reaction<Notice<String>, RemovalRequest<String>>)
        ensures
            (final(self)@, r@) == removal_end(old(self)@, match notice {
                Some(n) => Some(n@),
                None => None,
            }),
    {
        self.stage = RemovalStage::Done;
        Reaction { notice, request: RemovalRequest::Finished }
    }

    /// Advances the handling by the outcome of the operation last asked for.
    pub fn step(&mut self, input: RemovalInput<String>) -> (r: Reaction<Notice<String>, RemovalRequest<String>>)
        ensures
            (final(self)@, r@) == removal_next(old(self)@, input@),
    {
        match input {
            RemovalInput::Begin => {
                if matches!(self.stage, RemovalStage::Start) {
                    self.stage = RemovalStage::FindingAsset;
                    Reaction { notice: None, request: RemovalRequest::FindAsset }
                } else {
                    self.end(None)
                }
            },
            RemovalInput::Row(RowLookup::Found { asset_id }) => {
                if matches!(self.stage, RemovalStage::FindingAsset) {
                    self.stage = RemovalStage::CheckingAge { asset_id };
                    Reaction { notice: None, request: RemovalRequest::AssetAge }
                } else {
                    self.end(None)
                }
            },
            RemovalInput::Age(AgeLookup::Known(age_days)) => {
                let mut stage = RemovalStage::Done;
                std::mem::swap(&mut stage, &mut self.stage);
                match stage {
                    RemovalStage::CheckingAge { asset_id } => self.on_age(asset_id, age_days),
                    _ => self.end(None),
                }
            },
            RemovalInput::Age(AgeLookup::Failed) => {
                if matches!(self.stage, RemovalStage::CheckingAge { .. }) {
                    self.then_forget(None)
                } else {
                    self.end(None)
                }
            },
            RemovalInput::RemoteDeleted { ok } => {
                let mut stage = RemovalStage::Done;
                std::mem::swap(&mut stage, &mut self.stage);
                match stage {
                    RemovalStage::DeletingRemote { asset_id } => {
                        let notice = if ok {
                            Some(self.notice("delete_propagated", Some(asset_id), None))
                        } else {
                            None
                        };
                        self.stage = RemovalStage::RemovingRecord;
                        Reaction { notice, request: RemovalRequest::DeleteRecord }
                    },
                    _ => self.end(None),
                }
            },
            RemovalInput::RecordRemoved { ok } => {
                if matches!(self.stage, RemovalStage::RemovingRecord) {
                    let notice = if ok {
                        Some(self.notice("db_record_removed", None, None))
                    } else {
                        None
                    };
                    self.end(notice)
                } else {
                    self.end(None)
                }
            },
            _ => self.end(None),
        }
    }
}

} // verus!
