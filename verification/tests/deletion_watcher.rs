use sync_service::hash::checksum_to_hex;
use sync_service::workers::deletion_watcher::{
    accepted_ids, judge_batch, plan_batches, BatchVerdict, plan_reconciliation, CheckResult, FileRemoval, ReconciliationPlan, RemoteDeletion,
    RemoteDeletionInput, RemoteDeletionRequest, TrackedAsset, BATCH_SIZE, LISTING_RETRY_SECS,
};
use sync_service::workers::AgeLookup;

fn asset(path: &str, checksum: &[u8]) -> TrackedAsset<String, Vec<u8>> {
    TrackedAsset { asset_path: path.to_string(), checksum: checksum.to_vec() }
}

fn detected(max_age: i64) -> RemoteDeletion<String> {
    detected_in(max_age, false)
}

fn detected_in(max_age: i64, dry_run: bool) -> RemoteDeletion<String> {
    let mut d = RemoteDeletion::new("album/p.jpg".to_string(), max_age, dry_run);
    let r = d.step(RemoteDeletionInput::Begin);
    let n = r.notice.expect("a notice");
    assert_eq!(n.worker, "deletion_watcher");
    assert_eq!(n.event, "remote_delete_detected");
    assert_eq!(n.path.as_deref(), Some("album/p.jpg"));
    assert_eq!(r.request, RemoteDeletionRequest::AssetAge);
    d
}

#[test]
fn failed_listing_is_retried_after_a_minute() {
    match plan_reconciliation(None, 15) {
        ReconciliationPlan::Wait { seconds } => assert_eq!(seconds, LISTING_RETRY_SECS),
        _ => panic!("expected a wait"),
    }
    assert_eq!(LISTING_RETRY_SECS, 60);
}

#[test]
fn empty_listing_waits_a_poll_interval() {
    match plan_reconciliation(Some(vec![]), 15) {
        ReconciliationPlan::Wait { seconds } => assert_eq!(seconds, 15),
        _ => panic!("expected a wait"),
    }
}

#[test]
fn reconciliation_records_start_and_checks_every_asset() {
    let listing = vec![asset("a.jpg", &[0xab, 0x01]), asset("b.jpg", &[0x00]), asset("c/d.jpg", &[])];
    match plan_reconciliation(Some(listing), 15) {
        ReconciliationPlan::Check { notice, batches } => {
            assert_eq!(notice.worker, "deletion_watcher");
            assert_eq!(notice.event, "reconciliation_started");
            assert!(notice.path.is_none());
            assert_eq!(notice.detail.as_deref(), Some("3 assets"));
            assert_eq!(batches.len(), 1);
            let ids: Vec<&str> = batches[0].iter().map(|c| c.id.as_str()).collect();
            assert_eq!(ids, vec!["a.jpg", "b.jpg", "c/d.jpg"]);
            let sums: Vec<&str> = batches[0].iter().map(|c| c.checksum_hex.as_str()).collect();
            assert_eq!(sums, vec!["ab01", "00", ""]);
        }
        _ => panic!("expected a check"),
    }
}

#[test]
fn batches_hold_at_most_batch_size_entries() {
    assert_eq!(BATCH_SIZE, 2000);
    let listing: Vec<TrackedAsset<String, Vec<u8>>> =
        (0..4001).map(|i| asset(&format!("p{}.jpg", i), &[(i % 256) as u8])).collect();
    let batches = plan_batches(&listing);
    let sizes: Vec<usize> = batches.iter().map(|b| b.len()).collect();
    assert_eq!(sizes, vec![2000, 2000, 1]);
    let all: Vec<String> = batches.iter().flatten().map(|c| c.id.clone()).collect();
    let expected: Vec<String> = (0..4001).map(|i| format!("p{}.jpg", i)).collect();
    assert_eq!(all, expected);
    assert_eq!(batches[2][0].checksum_hex, checksum_to_hex(&[(4000 % 256) as u8]));
    assert!(plan_batches(&vec![]).is_empty());
    let exact: Vec<TrackedAsset<String, Vec<u8>>> = (0..2000).map(|i| asset(&format!("{}", i), &[])).collect();
    assert_eq!(plan_batches(&exact).len(), 1);
}

#[test]
fn only_accepted_results_are_gone() {
    let results = vec![
        CheckResult { id: "a.jpg".to_string(), action: "reject".to_string() },
        CheckResult { id: "b.jpg".to_string(), action: "accept".to_string() },
        CheckResult { id: "c.jpg".to_string(), action: "Accept".to_string() },
        CheckResult { id: "d.jpg".to_string(), action: "accept".to_string() },
    ];
    assert_eq!(accepted_ids(&results), vec!["b.jpg".to_string(), "d.jpg".to_string()]);
    assert!(accepted_ids(&vec![]).is_empty());
}

#[test]
fn plausible_age_deletes_file_then_record() {
    let mut d = detected(3650);
    let r = d.step(RemoteDeletionInput::Age(AgeLookup::Known(Some(10))));
    assert!(r.notice.is_none());
    assert_eq!(r.request, RemoteDeletionRequest::RemoveLocalFile);
    let r = d.step(RemoteDeletionInput::File(FileRemoval::Removed));
    assert_eq!(r.notice.as_ref().unwrap().event, "local_file_deleted");
    assert_eq!(r.request, RemoteDeletionRequest::DeleteRecord);
    let r = d.step(RemoteDeletionInput::RecordRemoved { ok: true });
    assert_eq!(r.notice.as_ref().unwrap().event, "db_record_removed");
    assert_eq!(r.notice.as_ref().unwrap().path.as_deref(), Some("album/p.jpg"));
    assert_eq!(r.request, RemoteDeletionRequest::Finished);
}

#[test]
fn absent_or_undeletable_file_still_loses_record() {
    let mut d = detected(3650);
    d.step(RemoteDeletionInput::Age(AgeLookup::Known(Some(0))));
    let r = d.step(RemoteDeletionInput::File(FileRemoval::Absent));
    assert!(r.notice.is_none());
    assert_eq!(r.request, RemoteDeletionRequest::DeleteRecord);

    let mut d = detected(3650);
    d.step(RemoteDeletionInput::Age(AgeLookup::Known(Some(3650))));
    let r = d.step(RemoteDeletionInput::File(FileRemoval::Failed));
    assert!(r.notice.is_none());
    assert_eq!(r.request, RemoteDeletionRequest::DeleteRecord);
    let r = d.step(RemoteDeletionInput::RecordRemoved { ok: false });
    assert!(r.notice.is_none());
    assert_eq!(r.request, RemoteDeletionRequest::Finished);
}

#[test]
fn implausible_or_unknown_age_keeps_local_file() {
    for age in [AgeLookup::Known(Some(9500)), AgeLookup::Known(Some(-1)), AgeLookup::Known(None), AgeLookup::Failed] {
        let mut d = detected(3650);
        let r = d.step(RemoteDeletionInput::Age(age));
        let n = r.notice.expect("a notice");
        assert_eq!(n.event, "remote_delete_skipped");
        assert_eq!(n.detail.as_deref(), Some("age/policy"));
        assert_eq!(r.request, RemoteDeletionRequest::Finished);
    }
}

#[test]
fn dry_run_keeps_local_file_and_record() {
    let mut d = detected_in(3650, true);
    let r = d.step(RemoteDeletionInput::Age(AgeLookup::Known(Some(0))));
    let n = r.notice.expect("a notice");
    assert_eq!(n.event, "local_delete_skipped");
    assert_eq!(n.path.as_deref(), Some("album/p.jpg"));
    assert_eq!(n.detail.as_deref(), Some("dry-run"));
    assert_eq!(r.request, RemoteDeletionRequest::Finished);

    let mut d = detected_in(3650, true);
    let r = d.step(RemoteDeletionInput::Age(AgeLookup::Known(Some(9999))));
    assert_eq!(r.notice.expect("a notice").event, "remote_delete_skipped");
    assert_eq!(r.request, RemoteDeletionRequest::Finished);
}

#[test]
fn out_of_order_input_ends_remote_deletion() {
    let mut d = RemoteDeletion::new("x.jpg".to_string(), 3650, false);
    let r = d.step(RemoteDeletionInput::File(FileRemoval::Removed));
    assert!(r.notice.is_none());
    assert_eq!(r.request, RemoteDeletionRequest::Finished);
    let r = d.step(RemoteDeletionInput::Begin);
    assert!(r.notice.is_none());
    assert_eq!(r.request, RemoteDeletionRequest::Finished);
}

#[test]
fn failed_bulk_check_ends_the_cycle() {
    assert!(matches!(judge_batch(None), BatchVerdict::EndCycle));
    let answer = vec![
        CheckResult { id: "a.jpg".to_string(), action: "accept".to_string() },
        CheckResult { id: "b.jpg".to_string(), action: "reject".to_string() },
    ];
    match judge_batch(Some(answer)) {
        BatchVerdict::Propagate { ids } => assert_eq!(ids, vec!["a.jpg".to_string()]),
        BatchVerdict::EndCycle => panic!("expected propagation"),
    }
    match judge_batch(Some(vec![])) {
        BatchVerdict::Propagate { ids } => assert!(ids.is_empty()),
        BatchVerdict::EndCycle => panic!("expected propagation"),
    }
}
