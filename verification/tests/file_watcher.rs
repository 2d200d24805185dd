use sync_service::event_log::Notice;
use sync_service::hash::{checksum_to_hex, content_checksum};
use sync_service::workers::file_watcher::{
    route_fs_event, ChangeHandling, ChangeInput, ChangeRequest, FsChange, LocalRemoval, RemovalInput, RemovalPolicy,
    RemovalRequest, RowLookup, WatchRoute,
};
use sync_service::workers::AgeLookup;

fn policy(delete_threshold: i64, delete_max_age: i64, dry_run: bool) -> RemovalPolicy {
    RemovalPolicy { delete_threshold, delete_max_age, dry_run }
}

fn assert_notice(n: &Option<Notice<String>>, event: &str, path: &str, asset_id: Option<&str>, detail: Option<&str>) {
    let n = n.as_ref().expect("a notice");
    assert_eq!(n.worker, "file_watcher");
    assert_eq!(n.event, event);
    assert_eq!(n.path.as_deref(), Some(path));
    assert_eq!(n.asset_id.as_deref(), asset_id);
    assert_eq!(n.detail.as_deref(), detail);
}

/// Runs a removal up to the age answer, with the given row content.
fn removal_after_age(p: RemovalPolicy, asset_id: Option<&str>, age: Option<i64>) -> (LocalRemoval<String>, sync_service::workers::Reaction<Notice<String>, RemovalRequest<String>>) {
    let mut h = LocalRemoval::new("album/a.jpg".to_string(), p);
    let r = h.step(RemovalInput::Begin);
    assert!(r.notice.is_none());
    assert!(matches!(r.request, RemovalRequest::FindAsset));
    let r = h.step(RemovalInput::Row(RowLookup::Found { asset_id: asset_id.map(String::from) }));
    assert!(r.notice.is_none());
    assert!(matches!(r.request, RemovalRequest::AssetAge));
    let r = h.step(RemovalInput::Age(AgeLookup::Known(age)));
    (h, r)
}

#[test]
fn route_sends_creations_modifications_and_removals() {
    assert_eq!(route_fs_event(FsChange::Create, false, true, true), WatchRoute::Change { is_create: true });
    assert_eq!(route_fs_event(FsChange::Modify, false, true, true), WatchRoute::Change { is_create: false });
    assert_eq!(route_fs_event(FsChange::Remove, false, true, false), WatchRoute::Removal);
    assert_eq!(route_fs_event(FsChange::Other, false, true, true), WatchRoute::Ignore);
}

#[test]
fn route_drops_ignored_and_outside_paths() {
    assert_eq!(route_fs_event(FsChange::Create, true, true, true), WatchRoute::Ignore);
    assert_eq!(route_fs_event(FsChange::Remove, true, true, false), WatchRoute::Ignore);
    assert_eq!(route_fs_event(FsChange::Modify, false, false, true), WatchRoute::Ignore);
    assert_eq!(route_fs_event(FsChange::Modify, true, true, false), WatchRoute::Ignore);
}

#[test]
fn renamed_away_file_is_handled_as_removed() {
    assert_eq!(route_fs_event(FsChange::Modify, false, true, false), WatchRoute::Removal);
    assert_eq!(route_fs_event(FsChange::Create, false, true, false), WatchRoute::Change { is_create: true });
}

#[test]
fn change_is_detected_hashed_saved_and_queued() {
    let mut h = ChangeHandling::new("album/new.jpg".to_string(), true, false);
    let r = h.step(ChangeInput::Begin);
    assert_notice(&r.notice, "file_detected", "album/new.jpg", None, Some("added"));
    assert!(matches!(r.request, ChangeRequest::HashFile));
    let r = h.step(ChangeInput::Hashed(Some(content_checksum(b"abc"))));
    assert!(r.notice.is_none());
    match r.request {
        ChangeRequest::SaveAsset { checksum } => {
            assert_eq!(checksum_to_hex(&checksum), "a9993e364706816aba3e25717850c26c9cd0d89d")
        }
        _ => panic!("expected a save"),
    }
    let r = h.step(ChangeInput::Saved { ok: true });
    assert_notice(&r.notice, "file_queued", "album/new.jpg", None, None);
    assert!(matches!(r.request, ChangeRequest::Finished));
}

#[test]
fn modification_is_reported_as_modified() {
    let mut h = ChangeHandling::new("b.jpg".to_string(), false, false);
    let r = h.step(ChangeInput::Begin);
    assert_notice(&r.notice, "file_detected", "b.jpg", None, Some("modified"));
}

#[test]
fn unhashable_file_ends_change_handling() {
    let mut h = ChangeHandling::new("gone.jpg".to_string(), true, false);
    h.step(ChangeInput::Begin);
    let r = h.step(ChangeInput::Hashed(None));
    assert!(r.notice.is_none());
    assert!(matches!(r.request, ChangeRequest::Finished));
}

#[test]
fn failed_save_is_not_reported_as_queued() {
    let mut h = ChangeHandling::new("c.jpg".to_string(), true, false);
    h.step(ChangeInput::Begin);
    h.step(ChangeInput::Hashed(Some(vec![1, 2, 3])));
    let r = h.step(ChangeInput::Saved { ok: false });
    assert!(r.notice.is_none());
    assert!(matches!(r.request, ChangeRequest::Finished));
}

#[test]
fn young_uploaded_file_removal_deletes_remote_then_record() {
    let (mut h, r) = removal_after_age(policy(30, 3650, false), Some("asset-1"), Some(3));
    assert!(r.notice.is_none());
    match &r.request {
        RemovalRequest::DeleteRemote { asset_id } => assert_eq!(asset_id, "asset-1"),
        _ => panic!("expected a remote delete"),
    }
    let r = h.step(RemovalInput::RemoteDeleted { ok: true });
    assert_notice(&r.notice, "delete_propagated", "album/a.jpg", Some("asset-1"), None);
    assert!(matches!(r.request, RemovalRequest::DeleteRecord));
    let r = h.step(RemovalInput::RecordRemoved { ok: true });
    assert_notice(&r.notice, "db_record_removed", "album/a.jpg", None, None);
    assert!(matches!(r.request, RemovalRequest::Finished));
}

#[test]
fn failed_remote_delete_still_removes_record() {
    let (mut h, _) = removal_after_age(policy(30, 3650, false), Some("asset-1"), Some(3));
    let r = h.step(RemovalInput::RemoteDeleted { ok: false });
    assert!(r.notice.is_none());
    assert!(matches!(r.request, RemovalRequest::DeleteRecord));
    let r = h.step(RemovalInput::RecordRemoved { ok: false });
    assert!(r.notice.is_none());
    assert!(matches!(r.request, RemovalRequest::Finished));
}

#[test]
fn zero_threshold_keeps_server_asset() {
    let (_, r) = removal_after_age(policy(0, 3650, false), Some("asset-1"), Some(0));
    assert_notice(&r.notice, "delete_skipped", "album/a.jpg", None, Some("age 0 exceeds threshold 0"));
    assert!(matches!(r.request, RemovalRequest::DeleteRecord));
}

#[test]
fn unrealistic_age_keeps_server_asset() {
    let (_, r) = removal_after_age(policy(30, 3650, false), Some("asset-1"), Some(9500));
    assert_notice(&r.notice, "delete_skipped", "album/a.jpg", None, Some("unrealistic age (9500 days)"));
    assert!(matches!(r.request, RemovalRequest::DeleteRecord));
}

#[test]
fn future_creation_date_keeps_server_asset() {
    let (_, r) = removal_after_age(policy(30, 3650, false), Some("asset-1"), Some(-2));
    assert_notice(&r.notice, "delete_skipped", "album/a.jpg", None, Some("future created_at (-2 days)"));
    assert!(matches!(r.request, RemovalRequest::DeleteRecord));
}

#[test]
fn missing_creation_date_keeps_server_asset() {
    let (_, r) = removal_after_age(policy(30, 3650, false), Some("asset-1"), None);
    assert_notice(&r.notice, "delete_skipped", "album/a.jpg", None, Some("missing created_at"));
    assert!(matches!(r.request, RemovalRequest::DeleteRecord));
}

#[test]
fn not_yet_uploaded_file_only_loses_its_record() {
    let (_, r) = removal_after_age(policy(30, 3650, false), None, Some(1));
    assert_notice(&r.notice, "delete_skipped", "album/a.jpg", None, Some("not yet uploaded"));
    assert!(matches!(r.request, RemovalRequest::DeleteRecord));
}

#[test]
fn dry_run_removal_deletes_nothing() {
    let (_, r) = removal_after_age(policy(30, 3650, true), Some("asset-9"), Some(1));
    assert_notice(&r.notice, "delete_skipped", "album/a.jpg", Some("asset-9"), Some("dry-run"));
    assert!(matches!(r.request, RemovalRequest::Finished));
    let (_, r) = removal_after_age(policy(0, 3650, true), Some("asset-9"), Some(1));
    assert_notice(&r.notice, "delete_skipped", "album/a.jpg", None, Some("age 1 exceeds threshold 0"));
    assert!(matches!(r.request, RemovalRequest::Finished));
}

#[test]
fn unknown_or_failed_lookups_end_removal() {
    let mut h = LocalRemoval::new("x.jpg".to_string(), policy(30, 3650, false));
    h.step(RemovalInput::Begin);
    let r = h.step(RemovalInput::Row(RowLookup::Missing));
    assert!(r.notice.is_none());
    assert!(matches!(r.request, RemovalRequest::Finished));

    let mut h = LocalRemoval::new("x.jpg".to_string(), policy(30, 3650, false));
    h.step(RemovalInput::Begin);
    let r = h.step(RemovalInput::Row(RowLookup::Failed));
    assert!(matches!(r.request, RemovalRequest::Finished));

}

#[test]
fn failed_age_lookup_still_removes_record() {
    let mut h = LocalRemoval::new("x.jpg".to_string(), policy(30, 3650, false));
    h.step(RemovalInput::Begin);
    h.step(RemovalInput::Row(RowLookup::Found { asset_id: Some("a".to_string()) }));
    let r = h.step(RemovalInput::Age(AgeLookup::Failed));
    assert!(r.notice.is_none());
    assert!(matches!(r.request, RemovalRequest::DeleteRecord));

    let mut h = LocalRemoval::new("x.jpg".to_string(), policy(30, 3650, true));
    h.step(RemovalInput::Begin);
    h.step(RemovalInput::Row(RowLookup::Found { asset_id: Some("a".to_string()) }));
    let r = h.step(RemovalInput::Age(AgeLookup::Failed));
    assert!(r.notice.is_none());
    assert!(matches!(r.request, RemovalRequest::Finished));
}

#[test]
fn out_of_order_input_ends_removal() {
    let mut h = LocalRemoval::new("x.jpg".to_string(), policy(30, 3650, false));
    let r = h.step(RemovalInput::RecordRemoved { ok: true });
    assert!(r.notice.is_none());
    assert!(matches!(r.request, RemovalRequest::Finished));
    let r = h.step(RemovalInput::Begin);
    assert!(matches!(r.request, RemovalRequest::Finished));
}

#[test]
fn dry_run_change_is_only_reported() {
    let mut h = ChangeHandling::new("album/dry.jpg".to_string(), true, true);
    let r = h.step(ChangeInput::Begin);
    assert_notice(&r.notice, "file_detected", "album/dry.jpg", None, Some("added"));
    assert!(matches!(r.request, ChangeRequest::Finished));
    let r = h.step(ChangeInput::Hashed(Some(vec![1, 2, 3])));
    assert!(r.notice.is_none());
    assert!(matches!(r.request, ChangeRequest::Finished));
}
