use cargo_app::conflict::{ConflictAction, ConflictResolution};
use cargo_app::protocol::TransferProgress;
use cargo_app::transfer::{
    completion_notice, CompletionNotice, QueueOverview, QueueStep, StatusLabel, TransferDirection,
    TransferItem, TransferQueue, TransferStatus,
};
use cargo_app::transfer_plan::{local_join, DirPair, ListedName, TransferPlan};

fn item(name: &str, d: TransferDirection, st: TransferStatus) -> TransferItem {
    let mut t = match d {
        TransferDirection::Upload => TransferItem::new_upload(name, "/l", "/r"),
        TransferDirection::Download => TransferItem::new_download(name, "/l", "/r"),
    };
    t.status = st;
    t
}

#[test]
fn new_items_are_queued() {
    let t = TransferItem::new_upload("a.txt", "/home/a.txt", "/srv/a.txt");
    assert_eq!(t.filename, "a.txt");
    assert_eq!(t.local_path, "/home/a.txt");
    assert_eq!(t.remote_path, "/srv/a.txt");
    assert_eq!(t.direction, TransferDirection::Upload);
    assert_eq!(t.status, TransferStatus::Queued);
    assert_eq!(t.direction_icon(), "go-up-symbolic");
    let d = TransferItem::new_download("b", "/l/b", "/r/b");
    assert_eq!(d.direction, TransferDirection::Download);
    assert_eq!(d.direction_icon(), "go-down-symbolic");
}

#[test]
fn status_labels() {
    let mut t = TransferItem::new_upload("a", "/l", "/r");
    assert!(matches!(t.status_label(), StatusLabel::Queued));
    t.status = TransferStatus::Active;
    t.bytes_transferred = 5;
    assert!(matches!(t.status_label(), StatusLabel::Active { bytes_transferred: 5, total_bytes: None }));
    t.total_bytes = 10;
    assert!(matches!(t.status_label(), StatusLabel::Active { bytes_transferred: 5, total_bytes: Some(10) }));
    t.status = TransferStatus::Failed;
    assert!(matches!(t.status_label(), StatusLabel::Failed(None)));
    t.error_message = "boom".to_string();
    match t.status_label() {
        StatusLabel::Failed(Some(m)) => assert_eq!(m, "boom"),
        _ => panic!(),
    }
    t.status = TransferStatus::Completed;
    assert!(matches!(t.status_label(), StatusLabel::Completed));
}

#[test]
fn queue_runs_items_in_order() {
    let mut q = TransferQueue::new();
    assert!(!q.has_items());
    q.enqueue(TransferItem::new_upload("a", "/l/a", "/r/a"));
    q.enqueue(TransferItem::new_upload("b", "/l/b", "/r/b"));
    assert!(q.has_items());
    let i = match q.start_processing() {
        Some(QueueStep::Start(i)) => i,
        other => panic!("unexpected {:?}", other),
    };
    assert_eq!(i, 0);
    assert!(q.is_processing());
    assert!(q.start_processing().is_none());
    assert_eq!(q.store()[0].status, TransferStatus::Active);
    q.record_progress(0, TransferProgress { bytes_transferred: 3, total_bytes: Some(9) });
    assert_eq!(q.store()[0].bytes_transferred, 3);
    assert_eq!(q.store()[0].total_bytes, 9);
    q.finish(0, Ok(()));
    assert_eq!(q.overview(), QueueOverview { total: 2, done: 1, pending: true });
    match q.process_next() {
        QueueStep::Start(1) => {}
        other => panic!("unexpected {:?}", other),
    }
    q.finish(1, Err("Transfer failed: x".to_string()));
    assert_eq!(q.store()[1].error_message, "Transfer failed: x");
    match q.process_next() {
        QueueStep::Finished(Some(CompletionNotice::CompletedWithErrors(1))) => {}
        other => panic!("unexpected {:?}", other),
    }
    assert!(!q.is_processing());
    assert!(!q.has_items());
}

#[test]
fn conflict_policy_lives_for_one_run() {
    let mut q = TransferQueue::new();
    q.enqueue(TransferItem::new_download("a", "/l/a", "/r/a"));
    assert_eq!(q.resolve_conflict(None), ConflictAction::Skip);
    assert_eq!(q.remembered_policy(), None);
    assert_eq!(
        q.resolve_conflict(Some(ConflictResolution { action: ConflictAction::Rename, apply_to_queue: false })),
        ConflictAction::Rename
    );
    assert_eq!(q.remembered_policy(), None);
    q.resolve_conflict(Some(ConflictResolution { action: ConflictAction::OverwriteIfNewer, apply_to_queue: true }));
    assert_eq!(q.remembered_policy(), Some(ConflictAction::OverwriteIfNewer));
    let i = match q.process_next() {
        QueueStep::Start(i) => i,
        other => panic!("unexpected {:?}", other),
    };
    q.skip(i);
    match q.process_next() {
        QueueStep::Finished(None) => {}
        other => panic!("unexpected {:?}", other),
    }
    assert_eq!(q.remembered_policy(), None);
    assert!(!q.has_items());
}

#[test]
fn clearing_keeps_unfinished_transfers() {
    let mut q = TransferQueue::new();
    q.enqueue(item("a", TransferDirection::Upload, TransferStatus::Completed));
    q.enqueue(item("b", TransferDirection::Upload, TransferStatus::Queued));
    q.enqueue(item("c", TransferDirection::Upload, TransferStatus::Failed));
    q.enqueue(item("d", TransferDirection::Upload, TransferStatus::Active));
    q.enqueue(item("e", TransferDirection::Upload, TransferStatus::Skipped));
    q.clear_completed();
    let names: Vec<&str> = q.store().iter().map(|t| t.filename.as_str()).collect();
    assert_eq!(names, vec!["b", "d"]);
    q.halt();
    assert!(!q.is_processing());
}

#[test]
fn completion_notices() {
    let (up, down) = (TransferDirection::Upload, TransferDirection::Download);
    let (completed, failed, queued, skipped) = (
        TransferStatus::Completed,
        TransferStatus::Failed,
        TransferStatus::Queued,
        TransferStatus::Skipped,
    );
    assert!(completion_notice(&vec![]).is_none());
    assert!(completion_notice(&vec![item("a", up, skipped)]).is_none());
    assert!(matches!(completion_notice(&vec![item("a", up, failed)]), Some(CompletionNotice::TransferFailed)));
    match completion_notice(&vec![item("x", down, queued), item("a.txt", up, completed)]) {
        Some(CompletionNotice::Uploaded(f)) => assert_eq!(f, "a.txt"),
        other => panic!("unexpected {:?}", other),
    }
    match completion_notice(&vec![item("b.txt", down, completed)]) {
        Some(CompletionNotice::Downloaded(f)) => assert_eq!(f, "b.txt"),
        other => panic!("unexpected {:?}", other),
    }
    assert!(matches!(
        completion_notice(&vec![item("a", up, completed), item("b", up, failed), item("c", up, failed)]),
        Some(CompletionNotice::CompletedWithErrors(2))
    ));
    assert!(matches!(
        completion_notice(&vec![item("a", up, completed), item("b", up, completed)]),
        Some(CompletionNotice::AllUploaded)
    ));
    assert!(matches!(
        completion_notice(&vec![item("a", down, completed), item("b", down, completed)]),
        Some(CompletionNotice::AllDownloaded)
    ));
    assert!(matches!(
        completion_notice(&vec![item("a", up, completed), item("b", down, completed)]),
        Some(CompletionNotice::AllTransferred)
    ));
}

#[test]
fn local_path_joins() {
    assert_eq!(local_join("/home/u", "a"), "/home/u/a");
    assert_eq!(local_join("/home/u/", "a"), "/home/u/a");
    assert_eq!(local_join("/", "a"), "/a");
    assert_eq!(local_join("", "a"), "a");
    assert_eq!(local_join("/home/u", "/etc"), "/etc");
    for (b, n) in [("/home/u", "a"), ("/", "x"), ("", "y"), ("/a/", "b"), ("/q", "/abs")] {
        assert_eq!(local_join(b, n), std::path::Path::new(b).join(n).display().to_string());
    }
}

#[test]
fn planning_a_directory_upload() {
    let mut plan = TransferPlan::new(TransferDirection::Upload);
    plan.add_selected("notes.txt", false, "/home/u", "/srv");
    plan.add_selected("pics", true, "/home/u", "/srv/");
    let dir = plan.next_dir().unwrap();
    assert_eq!(dir.local, "/home/u/pics");
    assert_eq!(dir.remote, "/srv/pics");
    plan.add_listing(
        &dir,
        &vec![
            ListedName { name: "a.jpg".to_string(), is_dir: false },
            ListedName { name: "raw".to_string(), is_dir: true },
        ],
    );
    let sub = plan.next_dir().unwrap();
    assert_eq!(sub.remote, "/srv/pics/raw");
    plan.add_listing(&sub, &vec![ListedName { name: "b.cr2".to_string(), is_dir: false }]);
    assert!(plan.next_dir().is_none());
    let items = plan.into_items();
    let got: Vec<(&str, &str, &str)> = items
        .iter()
        .map(|t| (t.filename.as_str(), t.local_path.as_str(), t.remote_path.as_str()))
        .collect();
    assert_eq!(
        got,
        vec![
            ("notes.txt", "/home/u/notes.txt", "/srv/notes.txt"),
            ("a.jpg", "/home/u/pics/a.jpg", "/srv/pics/a.jpg"),
            ("b.cr2", "/home/u/pics/raw/b.cr2", "/srv/pics/raw/b.cr2"),
        ]
    );
    assert!(items.iter().all(|t| t.direction == TransferDirection::Upload && t.status == TransferStatus::Queued));
    let _ = DirPair { local: String::new(), remote: String::new() };
}

#[test]
fn paused_transfers_wait_until_resumed() {
    let mut q = TransferQueue::new();
    q.enqueue(item("a", TransferDirection::Upload, TransferStatus::Queued));
    q.enqueue(item("b", TransferDirection::Upload, TransferStatus::Queued));
    assert!(q.pause(0));
    assert_eq!(q.store()[0].status, TransferStatus::Paused);
    assert!(!q.pause(0));
    match q.start_processing() {
        Some(QueueStep::Start(1)) => {}
        other => panic!("unexpected {:?}", other),
    }
    q.finish(1, Ok(()));
    match q.process_next() {
        QueueStep::Finished(Some(CompletionNotice::Uploaded(f))) => assert_eq!(f, "b"),
        other => panic!("unexpected {:?}", other),
    }
    let names: Vec<&str> = q.store().iter().map(|t| t.filename.as_str()).collect();
    assert_eq!(names, vec!["a"]);
    assert!(matches!(q.store()[0].status_label(), StatusLabel::Paused));
    assert!(q.resume(0));
    assert!(!q.resume(0));
    assert_eq!(q.store()[0].status, TransferStatus::Queued);
    match q.start_processing() {
        Some(QueueStep::Start(0)) => {}
        other => panic!("unexpected {:?}", other),
    }
}

#[test]
fn cancelled_transfers_never_run() {
    let mut q = TransferQueue::new();
    q.enqueue(item("a", TransferDirection::Download, TransferStatus::Queued));
    q.enqueue(item("b", TransferDirection::Download, TransferStatus::Queued));
    q.enqueue(item("c", TransferDirection::Download, TransferStatus::Queued));
    assert!(q.cancel(0));
    assert!(q.pause(1));
    assert!(q.cancel(1));
    assert!(!q.cancel(1));
    assert!(!q.resume(1));
    assert!(matches!(q.store()[0].status_label(), StatusLabel::Cancelled));
    assert_eq!(
        q.overview(),
        QueueOverview {
            total: 3,
            done: 2,
            pending: true
        }
    );
    match q.start_processing() {
        Some(QueueStep::Start(2)) => {}
        other => panic!("unexpected {:?}", other),
    }
    assert!(!q.cancel(2));
    q.finish(2, Err("lost".to_string()));
    match q.process_next() {
        QueueStep::Finished(Some(CompletionNotice::TransferFailed)) => {}
        other => panic!("unexpected {:?}", other),
    }
    assert!(!q.has_items());
}
