use maxima::cloudsync::CloudSyncClient;
use maxima::downloads_view::QueuedDownload;
use maxima::manager::{ContentManager, DownloadQueue, QueuedGame};

fn game(slug: &str) -> QueuedGame {
    QueuedGame { slug: slug.to_string(), build_id: "b1".to_string() }
}

#[test]
fn missing_queue_file_gives_empty_queue() {
    let q = DownloadQueue::from_stored(None);
    assert!(q.current.is_none());
    assert!(q.queued.is_empty());
    assert!(q.completed.is_empty());
}

#[test]
fn stored_queue_is_kept() {
    let stored = DownloadQueue {
        current: Some(game("bf")),
        queued: vec![game("me"), game("ds")],
        completed: vec![],
    };
    let q = DownloadQueue::from_stored(Some(stored));
    assert_eq!(q.current.as_ref().unwrap().slug, "bf");
    assert_eq!(q.queued.len(), 2);
    assert_eq!(q.queued[1].slug, "ds");
    assert!(q.completed.is_empty());
}

#[test]
fn defaults_are_empty() {
    let g = QueuedGame::default();
    assert!(g.slug.is_empty() && g.build_id.is_empty());
    let q = DownloadQueue::default();
    assert!(q.current.is_none() && q.queued.is_empty() && q.completed.is_empty());
}

#[test]
fn content_manager_holds_queue_and_service() {
    let m = ContentManager::new(DownloadQueue::from_stored(None), 5u32);
    assert!(m.queue().queued.is_empty());
    assert_eq!(*m.service(), 5);
    ContentManager::<u32>::install();
}

#[test]
fn plain_types() {
    let _c = CloudSyncClient {};
    let d = QueuedDownload { slug: "bf".to_string(), downloaded_bytes: 10, total_bytes: 20 };
    assert!(d.downloaded_bytes < d.total_bytes);
}
