//! Decisions of the worker that propagates server-side deletions to disk.
//!
//! On each cycle every recorded asset is checked against the server with the
//! bulk-upload-check endpoint, in batches:
//!
//! - still on the server (`reject`): nothing is done;
//! - gone from the server (`accept`): unless the asset's age is missing,
//!   negative or above `delete_max_age`, the local file is deleted from disk
//!   and the database record is removed; in dry-run mode neither is done.

use vstd::prelude::*;
use crate::event_log::{Notice, notice_of, make_notice};
use crate::event_log::workers::DELETION_WATCHER;
use crate::hash::{checksum_to_hex, hex_of, is_lower_hex_digit, lemma_hex_decodes, nibble_value};
use crate::policy::{DeleteAgeEligibility, delete_age_class, evaluate_delete_age};
use crate::text::{nat_decimal, usize_to_decimal};
use crate::workers::{AgeLookup, Reaction};

verus! {

/// At most this many assets are checked against the server in one request.
pub const BATCH_SIZE: usize = 2000;

/// After a failed listing of the recorded assets, the next attempt waits this
/// many seconds.
pub const LISTING_RETRY_SECS: u64 = 60;

// ---------------------------------------------------------------------------
// Planning a reconciliation cycle
// ---------------------------------------------------------------------------

/// An asset that the local database tracks as uploaded: its path relative to
/// the user's directory and the checksum of its content. `S` and `B` are
/// `String` and `Vec<u8>` for executable values, `Seq<char>` and `Seq<u8>`
/// for their specification.
pub struct TrackedAsset<S, B> {
    pub asset_path: S,
    pub checksum: B,
}

/// One entry of a bulk-upload-check request: the asset path serves as the id
/// that the server's answer refers to.
pub struct CheckInput<S> {
    pub id: S,
    pub checksum_hex: S,
}

/// One entry of the server's answer: `accept` means the server does not have
/// the content any more.
pub struct CheckResult<S> {
    pub id: S,
    pub action: S,
}

impl View for TrackedAsset<String, Vec<u8>> {
    type V = TrackedAsset<Seq<char>, Seq<u8>>;

    open spec fn view(&self) -> TrackedAsset<Seq<char>, Seq<u8>> {
        TrackedAsset { asset_path: self.asset_path@, checksum: self.checksum@ }
    }
}

impl View for CheckInput<String> {
    type V = CheckInput<Seq<char>>;

    open spec fn view(&self) -> CheckInput<Seq<char>> {
        CheckInput { id: self.id@, checksum_hex: self.checksum_hex@ }
    }
}

impl View for CheckResult<String> {
    type V = CheckResult<Seq<char>>;

    open spec fn view(&self) -> CheckResult<Seq<char>> {
        CheckResult { id: self.id@, action: self.action@ }
    }
}

/// The views of a vector's elements.
pub open spec fn views<T: View>(v: Seq<T>) -> Seq<T::V> {
    v.map_values(|x: T| x@)
}

/// The check entry of a recorded asset: its path and its hexadecimal checksum.
pub open spec fn check_input_of(a: TrackedAsset<Seq<char>, Seq<u8>>) -> CheckInput<Seq<char>> {
    CheckInput { id: a.asset_path, checksum_hex: hex_of(a.checksum) }
}

/// The check entries of all recorded assets, in order.
pub open spec fn check_inputs_of(assets: Seq<TrackedAsset<Seq<char>, Seq<u8>>>) -> Seq<CheckInput<Seq<char>>> {
    assets.map_values(|a: TrackedAsset<Seq<char>, Seq<u8>>| check_input_of(a))
}

/// The check entry of an asset names it by its path and carries its whole
/// checksum: two lowercase hexadecimal digits per checksum byte (40 for a
/// SHA-1 checksum), which decode back to exactly that byte.
pub proof fn lemma_check_input_carries_whole_checksum(a: TrackedAsset<Seq<char>, Seq<u8>>)
    ensures
        check_input_of(a).id == a.asset_path,
        check_input_of(a).checksum_hex.len() == 2 * a.checksum.len(),
        forall|i: int|
            0 <= i < a.checksum.len() ==> {
                &&& is_lower_hex_digit(#[trigger] check_input_of(a).checksum_hex[2 * i])
                &&& is_lower_hex_digit(check_input_of(a).checksum_hex[2 * i + 1])
                &&& nibble_value(check_input_of(a).checksum_hex[2 * i]) * 16 + nibble_value(
                    check_input_of(a).checksum_hex[2 * i + 1],
                ) == a.checksum[i]
            },
{
    lemma_hex_decodes(a.checksum);
}

/// The check entries of the recorded assets are, in order, one per asset.
pub proof fn lemma_check_inputs_one_per_asset(assets: Seq<TrackedAsset<Seq<char>, Seq<u8>>>)
    ensures
        check_inputs_of(assets).len() == assets.len(),
        forall|i: int| 0 <= i < assets.len() ==> #[trigger] check_inputs_of(assets)[i] == check_input_of(assets[i]),
{
}

/// The number of batches needed for `n` entries.
pub open spec fn batch_count(n: nat) -> nat {
    ((n + BATCH_SIZE - 1) / (BATCH_SIZE as int)) as nat
}

/// The `i`-th batch of a sequence: `BATCH_SIZE` consecutive entries, fewer in
/// the last batch.
pub open spec fn batch_of<T>(s: Seq<T>, i: int) -> Seq<T> {
    let start: int = i * BATCH_SIZE;
    let end: int = if (i + 1) * BATCH_SIZE <= s.len() {
        (i + 1) * BATCH_SIZE
    } else {
        s.len() as int
    };
    s.subrange(start, end)
}

/// The batches of a sequence, in order.
pub open spec fn batches_of<T>(s: Seq<T>) -> Seq<Seq<T>> {
    Seq::new(batch_count(s.len()), |i: int| batch_of(s, i))
}

/// The concatenation of a sequence of sequences.
pub open spec fn flatten<T>(ss: Seq<Seq<T>>) -> Seq<T>
    decreases ss.len(),
{
    if ss.len() == 0 {
        Seq::empty()
    } else {
        flatten(ss.drop_last()) + ss.last()
    }
}

/// Splits the check entries of the recorded assets into batches of
/// `BATCH_SIZE`, in order.
pub fn plan_batches(assets: &Vec<TrackedAsset<String, Vec<u8>>>) -> (b: Vec<Vec<CheckInput<String>>>)
    ensures
        b@.len() == batch_count(assets@.len()),
        forall|i: int|
            0 <= i < b@.len() ==> views(#[trigger] b@[i]@) == batch_of(check_inputs_of(views(assets@)), i),
{
    let ghost all = check_inputs_of(views(assets@));
    let n: usize = assets.len();
    let mut b: Vec<Vec<CheckInput<String>>> = Vec::new();
    let mut start: usize = 0;
    let ghost mut k: int = 0;
    while start < n
        invariant
            n == assets@.len(),
            all == check_inputs_of(views(assets@)),
            all.len() == n,
            start <= n,
            b@.len() == k,
            0 <= k,
            start == (if k * BATCH_SIZE <= n { k * BATCH_SIZE } else { n as int }),
            k > 0 ==> (k - 1) * BATCH_SIZE < n,
            forall|i: int| 0 <= i < b@.len() ==> views(#[trigger] b@[i]@) == batch_of(all, i),
        decreases n - start,
    {
        let end: usize = if n - start >= BATCH_SIZE {
            start + BATCH_SIZE
        } else {
            n
        };
        let mut chunk: Vec<CheckInput<String>> = Vec::new();
        let mut j: usize = start;
        while j < end
            invariant
                start <= j <= end <= n,
                n == assets@.len(),
                all == check_inputs_of(views(assets@)),
                all.len() == n,
                views(chunk@) == all.subrange(start as int, j as int),
            decreases end - j,
        {
            let a = &assets[j];
            let input = CheckInput { id: a.asset_path.clone(), checksum_hex: checksum_to_hex(a.checksum.as_slice()) };
            let ghost old_chunk = chunk@;
            proof {
                assert(views(assets@)[j as int] == assets@[j as int]@);
                assert(input@ == all[j as int]);
            }
            chunk.push(input);
            proof {
                assert(chunk@ == old_chunk.push(input));
                assert(views(chunk@) =~= views(old_chunk).push(input@));
                assert(views(chunk@) =~= all.subrange(start as int, j + 1));
            }
            j = j + 1;
        }
        proof {
            assert(views(chunk@) == batch_of(all, k));
        }
        b.push(chunk);
        start = end;
        proof {
            k = k + 1;
        }
    }
    proof {
        let kk: int = k;
        let nn: int = n as int;
        assert(kk == (nn + BATCH_SIZE - 1) / (BATCH_SIZE as int)) by (nonlinear_arith)
            requires
                kk >= 0,
                kk * 2000 >= nn,
                kk > 0 ==> (kk - 1) * 2000 < nn,
                nn >= 0,
                BATCH_SIZE == 2000,
        ;
    }
    b
}

/// What a reconciliation cycle starts with.
pub enum ReconciliationPlan {
    /// Wait this many seconds, then start a new cycle.
    Wait { seconds: u64 },
    /// Record the notice, then check the batches against the server in order.
    Check { notice: Notice<String>, batches: Vec<Vec<CheckInput<String>>> },
}

/// Plans a cycle from the listing of recorded assets (`None` when the listing
/// failed): a failed listing is retried after `LISTING_RETRY_SECS` seconds,
/// an empty one after the poll interval; otherwise the start of the
/// reconciliation is recorded with the number of assets and their check
/// entries are split into batches.
pub fn plan_reconciliation(
    listing: Option<Vec<TrackedAsset<String, Vec<u8>>>>,
    user_poll_interval: u64,
) -> (p: ReconciliationPlan)
    ensures
        match listing {
            None => p == (ReconciliationPlan::Wait { seconds: LISTING_RETRY_SECS }),
            Some(v) => if v@.len() == 0 {
                p == (ReconciliationPlan::Wait { seconds: user_poll_interval })
            } else {
                &&& p is Check
                &&& p->notice@ == notice_of(
                    DELETION_WATCHER@,
                    "reconciliation_started"@,
                    None,
                    None,
                    Some(nat_decimal(v@.len()) + " assets"@),
                )
                &&& p->batches@.len() == batch_count(v@.len())
                &&& forall|i: int|
                    0 <= i < p->batches@.len() ==> views(#[trigger] p->batches@[i]@) == batch_of(
                        check_inputs_of(views(v@)),
                        i,
                    )
            },
        },
{
    match listing {
        None => ReconciliationPlan::Wait { seconds: LISTING_RETRY_SECS },
        Some(assets) => {
            if assets.len() == 0 {
                ReconciliationPlan::Wait { seconds: user_poll_interval }
            } else {
                let mut detail = usize_to_decimal(assets.len());
                detail.append(" assets");
                let notice = make_notice(DELETION_WATCHER, "reconciliation_started", None, None, Some(detail));
                let batches = plan_batches(&assets);
                ReconciliationPlan::Check { notice, batches }
            }
        },
    }
}

proof fn lemma_batches_prefix<T>(s: Seq<T>, k: nat)
    requires
        k <= batch_count(s.len()),
    ensures
        flatten(Seq::new(k, |i: int| batch_of(s, i))) == s.subrange(
            0,
            if k * BATCH_SIZE <= s.len() {
                k * BATCH_SIZE
            } else {
                s.len() as int
            },
        ),
    decreases k,
{
    if k > 0 {
        let km1: nat = (k - 1) as nat;
        lemma_batches_prefix(s, km1);
        let len: int = s.len() as int;
        let kk: int = k as int;
        assert((kk - 1) * 2000 < len) by (nonlinear_arith)
            requires
                kk <= (len + 2000 - 1) / 2000,
                kk >= 1,
                len >= 0,
        ;
        let bk = Seq::new(k, |i: int| batch_of(s, i));
        assert(bk.drop_last() =~= Seq::new(km1, |i: int| batch_of(s, i)));
        assert(bk.last() == batch_of(s, km1 as int));
        assert(flatten(bk) =~= s.subrange(
            0,
            if k * BATCH_SIZE <= s.len() {
                k * BATCH_SIZE
            } else {
                s.len() as int
            },
        ));
    } else {
        assert(Seq::new(0, |i: int| batch_of(s, i)) =~= Seq::<Seq<T>>::empty());
        assert(s.subrange(0, 0) =~= Seq::<T>::empty());
    }
}

/// The batches of a reconciliation cover every check entry exactly once and
/// in order: their concatenation is the whole sequence, and each batch holds
/// between 1 and `BATCH_SIZE` entries.
pub proof fn lemma_batches_partition<T>(s: Seq<T>)
    ensures
        flatten(batches_of(s)) == s,
        forall|i: int|
            0 <= i < batches_of(s).len() ==> 0 < (#[trigger] batches_of(s)[i]).len() <= BATCH_SIZE,
{
    let n: nat = batch_count(s.len());
    lemma_batches_prefix(s, n);
    let len: int = s.len() as int;
    let nn: int = n as int;
    assert(nn * 2000 >= len) by (nonlinear_arith)
        requires
            nn == (len + 2000 - 1) / 2000,
            len >= 0,
    ;
    assert(s.subrange(0, len) =~= s);
    assert forall|i: int| 0 <= i < batches_of(s).len() implies 0 < (#[trigger] batches_of(s)[i]).len() <= BATCH_SIZE by {
        assert(i * 2000 < len) by (nonlinear_arith)
            requires
                i < (len + 2000 - 1) / 2000,
                i >= 0,
                len >= 0,
        ;
    }
}

/// The ids of the answers that say `accept`, in order.
pub open spec fn accepted_ids_of(results: Seq<CheckResult<Seq<char>>>) -> Seq<Seq<char>>
    decreases results.len(),
{
    if results.len() == 0 {
        Seq::empty()
    } else {
        let rest = accepted_ids_of(results.drop_last());
        if results.last().action == "accept"@ {
            rest.push(results.last().id)
        } else {
            rest
        }
    }
}

/// The ids handed on are exactly those of the answers that say `accept`, in
/// the order of the answer, each once: the answer filtered by its action,
/// then reduced to the ids.
pub proof fn lemma_accepted_ids_are_accepted_results(results: Seq<CheckResult<Seq<char>>>)
    ensures
        accepted_ids_of(results) == results.filter(|r: CheckResult<Seq<char>>| r.action == "accept"@).map_values(
            |r: CheckResult<Seq<char>>| r.id,
        ),
    decreases results.len(),
{
    let pred = |r: CheckResult<Seq<char>>| r.action == "accept"@;
    let id_of = |r: CheckResult<Seq<char>>| r.id;
    reveal(Seq::filter);
    if results.len() > 0 {
        lemma_accepted_ids_are_accepted_results(results.drop_last());
        let rest = results.drop_last().filter(pred);
        if pred(results.last()) {
            assert(results.filter(pred) == rest.push(results.last()));
            assert(rest.push(results.last()).map_values(id_of) =~= rest.map_values(id_of).push(results.last().id));
        } else {
            assert(results.filter(pred) == rest);
        }
    } else {
        assert(results.filter(pred) =~= Seq::<CheckResult<Seq<char>>>::empty());
        assert(results.filter(pred).map_values(id_of) =~= Seq::<Seq<char>>::empty());
    }
}

/// The assets that the server's answer reports as gone (`accept`), in the
/// order of the answer.
pub fn accepted_ids(results: &Vec<CheckResult<String>>) -> (ids: Vec<String>)
    ensures
        views(ids@) == accepted_ids_of(views(results@)),
{
    let accept = String::from_str("accept");
    let mut ids: Vec<String> = Vec::new();
    let mut i: usize = 0;
    while i < results.len()
        invariant
            i <= results@.len(),
            accept@ == "accept"@,
            views(ids@) == accepted_ids_of(views(results@).take(i as int)),
        decreases results@.len() - i,
    {
        let r = &results[i];
        proof {
            assert(views(results@).take(i + 1).drop_last() =~= views(results@).take(i as int));
        }
        if r.action == accept {
            ids.push(r.id.clone());
            proof {
                assert(views(ids@) =~= accepted_ids_of(views(results@).take(i as int)).push(r.id@));
            }
        }
        i = i + 1;
    }
    proof {
        assert(views(results@).take(results@.len() as int) =~= views(results@));
    }
    ids
}

/// What follows the server's answer to one batch.
pub enum BatchVerdict {
    /// The check failed: the remaining batches of this cycle are abandoned
    /// and the cycle ends with the usual wait.
    EndCycle,
    /// Propagate the deletion of these assets, in order, then go on with the
    /// next batch.
    Propagate { ids: Vec<String> },
}

/// Decides on the answer to a bulk check (`None` when the request failed):
/// a failure ends the cycle, otherwise the assets reported gone are
/// propagated.
pub fn judge_batch(answer: Option<Vec<CheckResult<String>>>) -> (v: BatchVerdict)
    ensures
        answer is None <==> v is EndCycle,
        answer matches Some(results) ==> (v matches BatchVerdict::Propagate { ids } && views(ids@)
            == accepted_ids_of(views(results@))),
{
    match answer {
        None => BatchVerdict::EndCycle,
        Some(results) => BatchVerdict::Propagate { ids: accepted_ids(&results) },
    }
}

// ---------------------------------------------------------------------------
// Propagating one server-side deletion
// ---------------------------------------------------------------------------

/// Where the handling of an asset reported gone from the server stands.
#[derive(Debug, Clone, Copy, PartialEq, Eq, Structural)]
pub enum RemoteDeletionStage {
    /// Nothing has been done yet.
    Start,
    /// The asset's age has been asked for.
    CheckingAge,
    /// Deletion of the local file has been asked for.
    RemovingFile,
    /// Removal of the local database record has been asked for.
    RemovingRecord,
    /// The handling is over.
    Done,
}

/// The outcome of deleting a local file.
#[derive(Debug, Clone, Copy, PartialEq, Eq, Structural)]
pub enum FileRemoval {
    Removed,
    Failed,
    /// There was no file to delete.
    Absent,
}

/// The outcome of the operation last asked for.
#[derive(Debug, Clone, Copy, PartialEq, Eq, Structural)]
pub enum RemoteDeletionInput {
    Begin,
    Age(AgeLookup),
    File(FileRemoval),
    RecordRemoved { ok: bool },
}

/// The next operation for the runtime to perform.
#[derive(Debug, Clone, Copy, PartialEq, Eq, Structural)]
pub enum RemoteDeletionRequest {
    /// Ask for the asset's age in days.
    AssetAge,
    /// Delete the asset's file from the user's directory, if it is there.
    RemoveLocalFile,
    /// Remove the asset's record from the local database.
    DeleteRecord,
    Finished,
}

impl View for RemoteDeletionRequest {
    type V = RemoteDeletionRequest;

    open spec fn view(&self) -> RemoteDeletionRequest {
        *self
    }
}

/// The handling of one asset that the server reported as gone.
pub struct RemoteDeletion<S> {
    /// The asset's path relative to the user's directory.
    pub asset_path: S,
    pub delete_max_age: i64,
    pub dry_run: bool,
    pub stage: RemoteDeletionStage,
}

impl View for RemoteDeletion<String> {
    type V = RemoteDeletion<Seq<char>>;

    open spec fn view(&self) -> RemoteDeletion<Seq<char>> {
        RemoteDeletion {
            asset_path: self.asset_path@,
            delete_max_age: self.delete_max_age,
            dry_run: self.dry_run,
            stage: self.stage,
        }
    }
}

/// The specification of a step's outcome.
pub type RemoteDeletionReaction = Reaction<Notice<Seq<char>>, RemoteDeletionRequest>;

/// A notice of the deletion watcher about the asset.
pub open spec fn deletion_notice(d: RemoteDeletion<Seq<char>>, event: Seq<char>, detail: Option<Seq<char>>) -> Notice<
    Seq<char>,
> {
    notice_of(DELETION_WATCHER@, event, Some(d.asset_path), None, detail)
}

/// Moves to `stage` and asks for `request`, recording `notice` if any.
pub open spec fn deletion_go(
    d: RemoteDeletion<Seq<char>>,
    stage: RemoteDeletionStage,
    notice: Option<Notice<Seq<char>>>,
    request: RemoteDeletionRequest,
) -> (RemoteDeletion<Seq<char>>, RemoteDeletionReaction) {
    (RemoteDeletion { stage, ..d }, Reaction { notice, request })
}

/// Whether an age lookup shows an age in `0..=delete_max_age`.
pub open spec fn age_allows_deletion(age: AgeLookup, delete_max_age: i64) -> bool {
    match age {
        AgeLookup::Known(age_days) => delete_age_class(age_days, delete_max_age) is Eligible,
        AgeLookup::Failed => false,
    }
}

/// One step of the handling of an asset gone from the server: the detection
/// is recorded and the asset's age asked for; an age that is missing,
/// negative, above `delete_max_age` or could not be determined keeps the local
/// copy (recorded as skipped); otherwise, in dry-run mode, the deletion is
/// recorded as skipped and nothing else is done, and outside it the local
/// file is deleted (recorded when it was), then the database record is
/// removed (recorded when it was).
/// An input that does not answer the operation last asked for ends the
/// handling.
pub open spec fn deletion_next(d: RemoteDeletion<Seq<char>>, input: RemoteDeletionInput) -> (
    RemoteDeletion<Seq<char>>,
    RemoteDeletionReaction,
) {
    match (d.stage, input) {
        (RemoteDeletionStage::Start, RemoteDeletionInput::Begin) => deletion_go(
            d,
            RemoteDeletionStage::CheckingAge,
            Some(deletion_notice(d, "remote_delete_detected"@, None)),
            RemoteDeletionRequest::AssetAge,
        ),
        (RemoteDeletionStage::CheckingAge, RemoteDeletionInput::Age(age)) => if age_allows_deletion(
            age,
            d.delete_max_age,
        ) {
            if d.dry_run {
                deletion_go(
                    d,
                    RemoteDeletionStage::Done,
                    Some(deletion_notice(d, "local_delete_skipped"@, Some("dry-run"@))),
                    RemoteDeletionRequest::Finished,
                )
            } else {
                deletion_go(d, RemoteDeletionStage::RemovingFile, None, RemoteDeletionRequest::RemoveLocalFile)
            }
        } else {
            deletion_go(
                d,
                RemoteDeletionStage::Done,
                Some(deletion_notice(d, "remote_delete_skipped"@, Some("age/policy"@))),
                RemoteDeletionRequest::Finished,
            )
        },
        (RemoteDeletionStage::RemovingFile, RemoteDeletionInput::File(outcome)) => deletion_go(
            d,
            RemoteDeletionStage::RemovingRecord,
            if outcome == FileRemoval::Removed {
                Some(deletion_notice(d, "local_file_deleted"@, None))
            } else {
                None
            },
            RemoteDeletionRequest::DeleteRecord,
        ),
        (RemoteDeletionStage::RemovingRecord, RemoteDeletionInput::RecordRemoved { ok }) => deletion_go(
            d,
            RemoteDeletionStage::Done,
            if ok {
                Some(deletion_notice(d, "db_record_removed"@, None))
            } else {
                None
            },
            RemoteDeletionRequest::Finished,
        ),
        _ => deletion_go(d, RemoteDeletionStage::Done, None, RemoteDeletionRequest::Finished),
    }
}

impl RemoteDeletion<String> {
    /// The handling of the asset at `asset_path`, reported gone from the
    /// server, not started yet.
    pub fn new(asset_path: String, delete_max_age: i64, dry_run: bool) -> (d: RemoteDeletion<String>)
        ensures
            d@ == (RemoteDeletion {
                asset_path: asset_path@,
                delete_max_age,
                dry_run,
                stage: RemoteDeletionStage::Start,
            }),
            deletion_inv(d@),
    {
        RemoteDeletion { asset_path, delete_max_age, dry_run, stage: RemoteDeletionStage::Start }
    }

    fn notice(&self, event: &str, detail: Option<String>) -> (n: Notice<String>)
        ensures
            n@ == deletion_notice(self@, event@, detail.deep_view()),
    {
        make_notice(DELETION_WATCHER, event, Some(self.asset_path.clone()), None, detail)
    }

    /// Advances the handling by the outcome of the operation last asked for.
    pub fn step(&mut self, input: RemoteDeletionInput) -> (r: Reaction<Notice<String>, RemoteDeletionRequest>)
        ensures
            (final(self)@, r@) == deletion_next(old(self)@, input),
    {
        let stage = self.stage;
        self.stage = RemoteDeletionStage::Done;
        match input {
            RemoteDeletionInput::Begin => {
                if stage == RemoteDeletionStage::Start {
                    self.stage = RemoteDeletionStage::CheckingAge;
                    let n = self.notice("remote_delete_detected", None);
                    return Reaction { notice: Some(n), request: RemoteDeletionRequest::AssetAge };
                }
            },
            RemoteDeletionInput::Age(age) => {
                if stage == RemoteDeletionStage::CheckingAge {
                    let allowed = match age {
                        AgeLookup::Known(age_days) => match evaluate_delete_age(age_days, self.delete_max_age) {
                            DeleteAgeEligibility::Eligible(_) => true,
                            _ => false,
                        },
                        AgeLookup::Failed => false,
                    };
                    if allowed && self.dry_run {
                        let n = self.notice("local_delete_skipped", Some(String::from_str("dry-run")));
                        return Reaction { notice: Some(n), request: RemoteDeletionRequest::Finished };
                    } else if allowed {
                        self.stage = RemoteDeletionStage::RemovingFile;
                        return Reaction { notice: None, request: RemoteDeletionRequest::RemoveLocalFile };
                    } else {
                        let n = self.notice("remote_delete_skipped", Some(String::from_str("age/policy")));
                        return Reaction { notice: Some(n), request: RemoteDeletionRequest::Finished };
                    }
                }
            },
            RemoteDeletionInput::File(outcome) => {
                if stage == RemoteDeletionStage::RemovingFile {
                    self.stage = RemoteDeletionStage::RemovingRecord;
                    let notice = if outcome == FileRemoval::Removed {
                        Some(self.notice("local_file_deleted", None))
                    } else {
                        None
                    };
                    return Reaction { notice, request: RemoteDeletionRequest::DeleteRecord };
                }
            },
            RemoteDeletionInput::RecordRemoved { ok } => {
                if stage == RemoteDeletionStage::RemovingRecord {
                    let notice = if ok {
                        Some(self.notice("db_record_removed", None))
                    } else {
                        None
                    };
                    return Reaction { notice, request: RemoteDeletionRequest::Finished };
                }
            },
        }
        Reaction { notice: None, request: RemoteDeletionRequest::Finished }
    }
}

/// How many steps at most remain from a stage.
pub open spec fn deletion_rank(stage: RemoteDeletionStage) -> nat {
    match stage {
        RemoteDeletionStage::Start => 4,
        RemoteDeletionStage::CheckingAge => 3,
        RemoteDeletionStage::RemovingFile => 2,
        RemoteDeletionStage::RemovingRecord => 1,
        RemoteDeletionStage::Done => 0,
    }
}

/// The operation that a stage waits for.
pub open spec fn deletion_awaits(stage: RemoteDeletionStage, request: RemoteDeletionRequest) -> bool {
    match stage {
        RemoteDeletionStage::Start => false,
        RemoteDeletionStage::CheckingAge => request == RemoteDeletionRequest::AssetAge,
        RemoteDeletionStage::RemovingFile => request == RemoteDeletionRequest::RemoveLocalFile,
        RemoteDeletionStage::RemovingRecord => request == RemoteDeletionRequest::DeleteRecord,
        RemoteDeletionStage::Done => request == RemoteDeletionRequest::Finished,
    }
}

/// Every step moves the handling forward: it ends after at most four steps.
/// The asset and `delete_max_age` never change, and the operation asked for
/// is the one the new stage waits for.
pub proof fn lemma_deletion_progress(d: RemoteDeletion<Seq<char>>, input: RemoteDeletionInput)
    ensures
        !(d.stage == RemoteDeletionStage::Done) ==> deletion_rank(deletion_next(d, input).0.stage) < deletion_rank(
            d.stage,
        ),
        d.stage == RemoteDeletionStage::Done ==> deletion_next(d, input).0.stage == RemoteDeletionStage::Done,
        deletion_next(d, input).0.asset_path == d.asset_path,
        deletion_next(d, input).0.delete_max_age == d.delete_max_age,
        deletion_next(d, input).0.dry_run == d.dry_run,
        deletion_awaits(deletion_next(d, input).0.stage, deletion_next(d, input).1.request),
{
}

/// What holds of every handling from its start on: in dry-run mode it never
/// waits for a deletion.
pub open spec fn deletion_inv(d: RemoteDeletion<Seq<char>>) -> bool {
    d.dry_run ==> !(d.stage == RemoteDeletionStage::RemovingFile || d.stage == RemoteDeletionStage::RemovingRecord)
}

/// Every step keeps `deletion_inv`.
pub proof fn lemma_deletion_inv_preserved(d: RemoteDeletion<Seq<char>>, input: RemoteDeletionInput)
    requires
        deletion_inv(d),
    ensures
        deletion_inv(deletion_next(d, input).0),
{
}

/// In dry-run mode a server-side deletion deletes nothing locally: neither
/// the file nor the database record.
pub proof fn lemma_dry_run_deletion_keeps_everything(d: RemoteDeletion<Seq<char>>, input: RemoteDeletionInput)
    requires
        d.dry_run,
        deletion_inv(d),
    ensures
        deletion_next(d, input).1.request != RemoteDeletionRequest::RemoveLocalFile,
        deletion_next(d, input).1.request != RemoteDeletionRequest::DeleteRecord,
{
}

/// A local file is deleted only once the asset's age is known and lies in
/// `0..=delete_max_age`, outside dry-run mode: a missing creation date, one
/// in the future, or an age above `delete_max_age` keeps the file.
pub proof fn lemma_local_delete_requires_plausible_age(d: RemoteDeletion<Seq<char>>, input: RemoteDeletionInput)
    requires
        deletion_next(d, input).1.request == RemoteDeletionRequest::RemoveLocalFile,
    ensures
        !d.dry_run,
        d.stage == RemoteDeletionStage::CheckingAge,
        input matches RemoteDeletionInput::Age(AgeLookup::Known(Some(age))) && 0 <= age <= d.delete_max_age,
{
}

/// The database record of an asset gone from the server is removed only after
/// its local file was handled, and it is removed whatever became of the file.
pub proof fn lemma_record_removed_after_file(d: RemoteDeletion<Seq<char>>, input: RemoteDeletionInput)
    ensures
        deletion_next(d, input).1.request == RemoteDeletionRequest::DeleteRecord <==> (d.stage
            == RemoteDeletionStage::RemovingFile && input is File),
{
}

/// The course of the handling of an asset gone from the server: its
/// detection is recorded and its age asked for; a known age in
/// `0..=delete_max_age` outside dry-run has the local file deleted; whatever
/// became of the file, the record is then removed; any other age keeps the
/// file and the record and records the skip.
pub proof fn lemma_remote_deletion_course(
    path: Seq<char>,
    delete_max_age: i64,
    dry_run: bool,
    age: AgeLookup,
    outcome: FileRemoval,
    record_ok: bool,
)
    ensures
        ({
            let d0 = RemoteDeletion { asset_path: path, delete_max_age, dry_run, stage: RemoteDeletionStage::Start };
            let (d1, r1) = deletion_next(d0, RemoteDeletionInput::Begin);
            let (d2, r2) = deletion_next(d1, RemoteDeletionInput::Age(age));
            let (d3, r3) = deletion_next(d2, RemoteDeletionInput::File(outcome));
            let (d4, r4) = deletion_next(d3, RemoteDeletionInput::RecordRemoved { ok: record_ok });
            let plausible = age matches AgeLookup::Known(Some(a)) && 0 <= a <= delete_max_age;
            &&& r1.request == RemoteDeletionRequest::AssetAge
            &&& r1.notice == Some(
                Notice {
                    worker: DELETION_WATCHER@,
                    event: "remote_delete_detected"@,
                    path: Some(path),
                    asset_id: None,
                    detail: None,
                },
            )
            &&& (plausible && !dry_run) ==> {
                &&& r2.request == RemoteDeletionRequest::RemoveLocalFile
                &&& r2.notice is None
                &&& r3.request == RemoteDeletionRequest::DeleteRecord
                &&& r3.notice == (if outcome == FileRemoval::Removed {
                    Some(
                        Notice {
                            worker: DELETION_WATCHER@,
                            event: "local_file_deleted"@,
                            path: Some(path),
                            asset_id: None,
                            detail: None,
                        },
                    )
                } else {
                    None
                })
                &&& r4.request == RemoteDeletionRequest::Finished
                &&& r4.notice == (if record_ok {
                    Some(
                        Notice {
                            worker: DELETION_WATCHER@,
                            event: "db_record_removed"@,
                            path: Some(path),
                            asset_id: None,
                            detail: None,
                        },
                    )
                } else {
                    None
                })
            }
            &&& (plausible && dry_run) ==> {
                &&& r2.request == RemoteDeletionRequest::Finished
                &&& r2.notice == Some(
                    Notice {
                        worker: DELETION_WATCHER@,
                        event: "local_delete_skipped"@,
                        path: Some(path),
                        asset_id: None,
                        detail: Some("dry-run"@),
                    },
                )
            }
            &&& !plausible ==> {
                &&& r2.request == RemoteDeletionRequest::Finished
                &&& r2.notice == Some(
                    Notice {
                        worker: DELETION_WATCHER@,
                        event: "remote_delete_skipped"@,
                        path: Some(path),
                        asset_id: None,
                        detail: Some("age/policy"@),
                    },
                )
            }
        }),
{
}

} // verus!
