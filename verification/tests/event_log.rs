use sync_service::event_log::workers::{DELETION_WATCHER, DISCOVERY, FILE_WATCHER, UPLOADER};
use sync_service::event_log::{make_notice, Event};

#[test]
fn event_new_minimal_leaves_optional_fields_absent() {
    let ev = Event::new("2025-01-01T00:00:00+00:00", "discovery", "scan_started", "user-1", None, None, None);
    assert_eq!(ev.timestamp, "2025-01-01T00:00:00+00:00");
    assert_eq!(ev.worker, "discovery");
    assert_eq!(ev.event, "scan_started");
    assert_eq!(ev.user_id, "user-1");
    assert!(ev.path.is_none());
    assert!(ev.asset_id.is_none());
    assert!(ev.detail.is_none());
}

#[test]
fn event_new_full_keeps_every_field() {
    let ev = Event::new(
        "2025-01-01T00:00:00+00:00",
        "uploader",
        "file_uploaded",
        "user-1",
        Some("album/photo.jpg"),
        Some("abc-123"),
        Some("200 OK"),
    );
    assert_eq!(ev.path.as_deref(), Some("album/photo.jpg"));
    assert_eq!(ev.asset_id.as_deref(), Some("abc-123"));
    assert_eq!(ev.detail.as_deref(), Some("200 OK"));
}

#[test]
fn notice_becomes_event_for_user() {
    let n = make_notice(FILE_WATCHER, "delete_skipped", Some("x.jpg".to_string()), None, Some("dry-run".to_string()));
    let ev = n.to_event("2025-01-01T00:00:00+00:00", "user-2");
    assert_eq!(ev.timestamp, "2025-01-01T00:00:00+00:00");
    assert_eq!(ev.worker, "file_watcher");
    assert_eq!(ev.event, "delete_skipped");
    assert_eq!(ev.user_id, "user-2");
    assert_eq!(ev.path.as_deref(), Some("x.jpg"));
    assert!(ev.asset_id.is_none());
    assert_eq!(ev.detail.as_deref(), Some("dry-run"));
}

#[test]
fn worker_names() {
    assert_eq!(DISCOVERY, "discovery");
    assert_eq!(UPLOADER, "uploader");
    assert_eq!(FILE_WATCHER, "file_watcher");
    assert_eq!(DELETION_WATCHER, "deletion_watcher");
}
