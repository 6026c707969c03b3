//! The content manager and its persistent download queue.

use vstd::prelude::*;

verus! {

/// A game build waiting in, or taken from, the download queue.
pub struct QueuedGame {
    pub slug: String,
    pub build_id: String,
}

impl Default for QueuedGame {
    fn default() -> (game: Self)
        ensures
            game.slug@.len() == 0,
            game.build_id@.len() == 0,
    {
        QueuedGame { slug: String::new(), build_id: String::new() }
    }
}

/// The download queue: the game being installed, those waiting, and those done.
pub struct DownloadQueue {
    pub current: Option<QueuedGame>,
    pub queued: Vec<QueuedGame>,
    pub completed: Vec<QueuedGame>,
}

impl DownloadQueue {
    /// The queue holds nothing: no current game, none waiting, none done.
    pub open spec fn is_empty_queue(&self) -> bool {
        &&& self.current.is_none()
        &&& self.queued@.len() == 0
        &&& self.completed@.len() == 0
    }

    /// The queue to start from, given what was read from the queue file:
    /// `stored` is `None` when the file is missing or does not hold a queue,
    /// and then the queue is empty.
    pub fn from_stored(stored: Option<DownloadQueue>) -> (queue: Self)
        ensures
            match stored {
                Some(q) => queue == q,
                None => queue.is_empty_queue(),
            },
    {
        match stored {
            Some(q) => q,
            None => DownloadQueue::default(),
        }
    }
}

impl Default for DownloadQueue {
    fn default() -> (queue: Self)
        ensures
            queue.is_empty_queue(),
    {
        DownloadQueue { current: None, queued: Vec::new(), completed: Vec::new() }
    }
}

/// Installs game content through a content service `S`, in the order of its download queue.
pub struct ContentManager<S> {
    queue: DownloadQueue,
    service: S,
}

impl<S> ContentManager<S> {
    /// The manager's download queue.
    pub closed spec fn queue_view(&self) -> DownloadQueue {
        self.queue
    }

    /// The manager's content service.
    pub closed spec fn service_view(&self) -> S {
        self.service
    }

    pub fn new(queue: DownloadQueue, service: S) -> (manager: Self)
        ensures
            manager.queue_view() == queue,
            manager.service_view() == service,
    {
        ContentManager { queue, service }
    }

    pub fn queue(&self) -> (queue: &DownloadQueue)
        ensures
            *queue == self.queue_view(),
    {
        &self.queue
    }

    pub fn service(&self) -> (service: &S)
        ensures
            *service == self.service_view(),
    {
        &self.service
    }

    /// Installing does nothing yet.
    pub fn install() {
    }
}

} // verus!
