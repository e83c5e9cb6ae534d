//! A time-bounded cache of the taskbar handles.
//!
//! Enumerating windows is costly, and the monitor asks for the taskbars
//! several times a second. The cache hands out the handles it holds for
//! as long as they are younger than the refresh interval. Age is the only
//! thing that invalidates them.

use crate::taskbar::WindowHandle;
use vstd::prelude::*;

verus! {

/// How long cached handles stay valid, in milliseconds.
pub const TASKBAR_CACHE_REFRESH_MS: u64 = 5000;

/// The cache as contracts see it.
pub struct CacheState {
    /// The handles of the last refresh.
    pub handles: Seq<WindowHandle>,
    /// The clock reading of the last refresh; `None` before the first.
    pub last_updated: Option<u64>,
}

impl CacheState {
    /// The milliseconds since the last refresh. A clock reading that lies
    /// before the last refresh counts as no time passed.
    pub open spec fn age(self, now_ms: u64) -> int
        recommends
            self.last_updated is Some,
    {
        let since = self.last_updated->Some_0;
        if now_ms >= since {
            now_ms - since
        } else {
            0
        }
    }

    /// The contents may not be used at `now_ms`: they were never filled,
    /// or their age has reached the refresh interval.
    pub open spec fn is_stale(self, now_ms: u64) -> bool {
        self.last_updated is None || self.age(now_ms) >= TASKBAR_CACHE_REFRESH_MS
    }

    /// What a read at `now_ms` yields: the held handles while they are
    /// fresh, nothing once they are stale.
    pub open spec fn read(self, now_ms: u64) -> Option<Seq<WindowHandle>> {
        if self.is_stale(now_ms) {
            None
        } else {
            Some(self.handles)
        }
    }

    /// The cache after a refresh at `now_ms` that found `handles`.
    pub open spec fn refreshed(self, handles: Seq<WindowHandle>, now_ms: u64) -> CacheState {
        CacheState { handles, last_updated: Some(now_ms) }
    }
}

/// The most recent set of taskbar handles and the time they were taken.
/// Times are readings of a monotonic millisecond clock that the caller
/// supplies.
pub struct TaskbarCache {
    handles: Vec<WindowHandle>,
    last_updated: Option<u64>,
}

impl View for TaskbarCache {
    type V = CacheState;

    closed spec fn view(&self) -> CacheState {
        CacheState { handles: self.handles@, last_updated: self.last_updated }
    }
}

impl TaskbarCache {
    /// An empty cache that is stale at every time, so that the first read
    /// asks for a refresh.
    pub fn new() -> (cache: TaskbarCache)
        ensures
            cache@ == (CacheState { handles: Seq::empty(), last_updated: None }),
    {
        TaskbarCache { handles: Vec::new(), last_updated: None }
    }

    /// Whether the contents must be refreshed before they are used at
    /// `now_ms`.
    pub fn should_refresh(&self, now_ms: u64) -> (stale: bool)
        ensures
            stale == self@.is_stale(now_ms),
    {
        match self.last_updated {
            None => true,
            Some(since) => now_ms >= since && now_ms - since >= TASKBAR_CACHE_REFRESH_MS,
        }
    }

    /// Replaces the contents with the result of an enumeration made at
    /// `now_ms`.
    pub fn update(&mut self, handles: Vec<WindowHandle>, now_ms: u64)
        ensures
            final(self)@ == old(self)@.refreshed(handles@, now_ms),
    {
        self.handles = handles;
        self.last_updated = Some(now_ms);
    }

    /// The cached handles if they may be used at `now_ms`; `None` if the
    /// caller has to enumerate and `update` first.
    pub fn get(&self, now_ms: u64) -> (handles: Option<&Vec<WindowHandle>>)
        ensures
            match handles {
                Some(h) => self@.read(now_ms) == Some(h@),
                None => self@.read(now_ms) is None,
            },
    {
        if self.should_refresh(now_ms) {
            None
        } else {
            Some(&self.handles)
        }
    }
}

/// Reads inside the refresh window see the same handles and ask for no
/// enumeration: from the refresh at `since` until `TASKBAR_CACHE_REFRESH_MS`
/// later, every read yields exactly what that refresh stored.
pub proof fn lemma_reads_within_window(
    cache: CacheState,
    handles: Seq<WindowHandle>,
    since: u64,
    first: u64,
    second: u64,
)
    requires
        since <= first < since + TASKBAR_CACHE_REFRESH_MS,
        since <= second < since + TASKBAR_CACHE_REFRESH_MS,
    ensures
        cache.refreshed(handles, since).read(first) == Some(handles),
        cache.refreshed(handles, since).read(second) == cache.refreshed(handles, since).read(
            first,
        ),
{
}

/// A read after the refresh window has elapsed asks for an enumeration,
/// and for one only: once the cache is refreshed at that time, reads are
/// served from it again until the next window ends.
pub proof fn lemma_one_refresh_after_window(
    cache: CacheState,
    stored: Seq<WindowHandle>,
    since: u64,
    now_ms: u64,
    fresh: Seq<WindowHandle>,
    later: u64,
)
    requires
        now_ms >= since + TASKBAR_CACHE_REFRESH_MS,
        now_ms <= later < now_ms + TASKBAR_CACHE_REFRESH_MS,
    ensures
        cache.refreshed(stored, since).read(now_ms) is None,
        cache.refreshed(stored, since).refreshed(fresh, now_ms).read(now_ms) == Some(fresh),
        cache.refreshed(stored, since).refreshed(fresh, now_ms).read(later) == Some(fresh),
{
}

} // verus!
